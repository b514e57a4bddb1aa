use game_catalog::parse::parse_document;
use game_catalog::xml::XmlNode;

fn leaf(name: &str, text: &str) -> XmlNode {
    XmlNode { name: name.to_string(), attrs: vec![], text: text.to_string(), children: vec![] }
}

fn parent(name: &str, children: Vec<XmlNode>) -> XmlNode {
    XmlNode { name: name.to_string(), attrs: vec![], text: String::new(), children }
}

#[test]
fn find_gives_the_first_child_of_that_name() {
    let root = parent("root", vec![leaf("a", "1"), leaf("b", "2"), leaf("a", "3")]);
    assert_eq!(root.find("a").unwrap().text(), "1");
    assert_eq!(root.find("b").unwrap().text(), "2");
    assert!(root.find("c").is_none());
    assert!(root.find("root").is_none());
}

#[test]
fn find_looks_at_children_only() {
    let root = parent("root", vec![parent("a", vec![leaf("deep", "x")])]);
    assert!(root.find("deep").is_none());
    assert_eq!(root.find("a").unwrap().find("deep").unwrap().text(), "x");
}

#[test]
fn find_all_keeps_document_order() {
    let root = parent("root", vec![leaf("a", "1"), leaf("b", "2"), leaf("a", "3"), leaf("a", "4")]);
    let texts: Vec<&str> = root.find_all("a").into_iter().map(|node| node.text()).collect();
    assert_eq!(texts, vec!["1", "3", "4"]);
    assert!(root.find_all("c").is_empty());
    assert!(leaf("x", "").find_all("a").is_empty());
}

#[test]
fn get_attr_gives_the_first_value_of_that_name() {
    let node = XmlNode {
        name: "game".to_string(),
        attrs: vec![
            ("index".to_string(), "7".to_string()),
            ("name".to_string(), "Zelda".to_string()),
            ("name".to_string(), "Link".to_string()),
        ],
        text: String::new(),
        children: vec![],
    };
    assert_eq!(node.get_attr("name"), Some("Zelda"));
    assert_eq!(node.get_attr("index"), Some("7"));
    assert_eq!(node.get_attr("image"), None);
}

#[test]
fn parse_document_copies_the_tree() {
    let root = parse_document(
        "<?xml version=\"1.0\"?><menu><header><listname> NES </listname></header>\
         <game name=\"A\" index=\"1\"><year>1986</year>tail</game></menu>",
    )
    .unwrap();
    assert_eq!(root.name, "menu");
    assert_eq!(root.children.len(), 2);
    assert_eq!(root.children[0].name, "header");
    assert_eq!(root.children[0].children[0].name, "listname");
    assert_eq!(root.children[0].children[0].text, " NES ");
    let game = &root.children[1];
    assert_eq!(game.name, "game");
    assert_eq!(game.get_attr("name"), Some("A"));
    assert_eq!(game.get_attr("index"), Some("1"));
    assert_eq!(game.attrs.len(), 2);
    assert_eq!(game.text, "");
    assert_eq!(game.children.len(), 1);
    assert_eq!(game.children[0].text, "1986");
}

#[test]
fn parse_document_resolves_entities_and_keeps_whitespace() {
    let root = parse_document("<a>\n  R&amp;D &lt;4&gt;\t</a>").unwrap();
    assert_eq!(root.text, "\n  R&D <4>\t");
}

#[test]
fn parse_document_keeps_local_names_only() {
    let root = parse_document(
        "<r xmlns=\"urn:one\" xmlns:t=\"urn:two\"><t:game t:name=\"A\"/><game name=\"B\"/></r>",
    )
    .unwrap();
    assert_eq!(root.name, "r");
    let games = root.find_all("game");
    assert_eq!(games.len(), 2);
    assert_eq!(games[0].get_attr("name"), Some("A"));
    assert_eq!(games[1].get_attr("name"), Some("B"));
}

#[test]
fn parse_document_rejects_what_is_not_well_formed() {
    assert!(parse_document("").is_none());
    assert!(parse_document("no xml here").is_none());
    assert!(parse_document("<a><b></a>").is_none());
    assert!(parse_document("<a>").is_none());
    assert!(parse_document("<a b=1/>").is_none());
}

#[test]
fn parse_document_is_repeatable() {
    let text = "<root><game name=\"A\"><year>1</year></game></root>";
    assert_eq!(parse_document(text), parse_document(text));
}
