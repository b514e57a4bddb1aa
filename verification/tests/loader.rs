use game_catalog::error::{LoadError, StoreStep};
use game_catalog::loader::{load_document, Action, Event, Loader, Outcome, Stage};
use game_catalog::record::{Field, SchemaError};
use game_catalog::xml::XmlNode;

const TWO: &str = "<menu><header><listname>SNES</listname></header>\
<game name=\"A\"><description>d</description><rating>r</rating><genre>g</genre>\
<dev>v</dev><manufacturer>m</manufacturer><year>1</year></game>\
<game name=\"B\"><description>d</description><rating>r</rating><genre>g</genre>\
<dev>v</dev><manufacturer>m</manufacturer><year>2</year></game></menu>";

fn args(list: &[&str]) -> Vec<String> {
    list.iter().map(|arg| arg.to_string()).collect()
}

fn reading() -> Loader {
    Loader::start(&args(&["nes.xml"]))
        .advance(Event::DatabaseFound)
        .advance(Event::Done)
        .advance(Event::Done)
}

#[test]
fn one_argument_starts_with_the_database() {
    let loader = Loader::start(&args(&["nes.xml"]));
    assert_eq!(loader.stage(), Stage::Probing);
    assert_eq!(loader.action(), Action::ProbeDatabase);
    assert_eq!(loader.outcome(), None);
    assert_eq!(loader.rows_written(), 0);
}

#[test]
fn no_argument_is_a_usage_error() {
    let loader = Loader::start(&args(&[]));
    assert_eq!(loader.outcome(), Some(Outcome::Failed(LoadError::Usage)));
    assert_eq!(loader.action(), Action::Finish(Outcome::Failed(LoadError::Usage)));
}

#[test]
fn two_arguments_are_a_usage_error() {
    let loader = Loader::start(&args(&["a.xml", "b.xml"]));
    assert_eq!(loader.action(), Action::Finish(Outcome::Failed(LoadError::Usage)));
    let loader = Loader::start(&args(&["a.xml", "b.xml", "c.xml"]));
    assert_eq!(loader.action(), Action::Finish(Outcome::Failed(LoadError::Usage)));
}

#[test]
fn a_missing_database_is_created_before_connecting() {
    let (loader, action) = Loader::start(&args(&["nes.xml"])).step(Event::DatabaseMissing);
    assert_eq!(loader.stage(), Stage::Creating);
    assert_eq!(action, Action::CreateDatabase);
    let (loader, action) = loader.step(Event::Done);
    assert_eq!(loader.stage(), Stage::Connecting);
    assert_eq!(action, Action::Connect);
}

#[test]
fn a_database_that_exists_is_not_created() {
    let (_, action) = Loader::start(&args(&["nes.xml"])).step(Event::DatabaseFound);
    assert_eq!(action, Action::Connect);
}

#[test]
fn the_table_comes_before_the_file() {
    let loader = Loader::start(&args(&["nes.xml"])).advance(Event::DatabaseFound);
    let (loader, action) = loader.step(Event::Done);
    assert_eq!(action, Action::CreateTable);
    let (loader, action) = loader.step(Event::Done);
    assert_eq!(loader.stage(), Stage::Reading);
    assert_eq!(action, Action::ReadFile("nes.xml".to_string()));
}

#[test]
fn games_are_inserted_in_document_order() {
    let (loader, action) = reading().step(Event::FileContents(TWO.to_string()));
    assert_eq!(loader.stage(), Stage::Writing);
    match action {
        Action::Insert(game) => {
            assert_eq!(game.name, "A");
            assert_eq!(game.year, "1");
            assert_eq!(game.platform, "SNES");
        }
        other => panic!("{:?}", other),
    }
    assert_eq!(loader.rows_written(), 0);
    let (loader, action) = loader.step(Event::Done);
    match action {
        Action::Insert(game) => {
            assert_eq!(game.name, "B");
            assert_eq!(game.year, "2");
            assert_eq!(game.platform, "SNES");
        }
        other => panic!("{:?}", other),
    }
    assert_eq!(loader.rows_written(), 1);
    let (loader, action) = loader.step(Event::Done);
    assert_eq!(action, Action::Finish(Outcome::Loaded));
    assert_eq!(loader.rows_written(), 2);
    assert_eq!(loader.outcome(), Some(Outcome::Loaded));
}

#[test]
fn a_file_without_games_loads_nothing() {
    let text = "<menu><header><listname>NES</listname></header></menu>";
    let (loader, action) = reading().step(Event::FileContents(text.to_string()));
    assert_eq!(action, Action::Finish(Outcome::Loaded));
    assert_eq!(loader.rows_written(), 0);
}

#[test]
fn each_stage_fails_with_its_own_error() {
    let start = || Loader::start(&args(&["nes.xml"]));
    let failed = |error| Action::Finish(Outcome::Failed(error));
    assert_eq!(start().step(Event::Failed).1, failed(LoadError::Store(StoreStep::Probe)));
    assert_eq!(
        start().advance(Event::DatabaseMissing).step(Event::Failed).1,
        failed(LoadError::Store(StoreStep::Create))
    );
    assert_eq!(
        start().advance(Event::DatabaseFound).step(Event::Failed).1,
        failed(LoadError::Store(StoreStep::Connect))
    );
    assert_eq!(
        start().advance(Event::DatabaseFound).advance(Event::Done).step(Event::Failed).1,
        failed(LoadError::Store(StoreStep::CreateTable))
    );
    assert_eq!(reading().step(Event::Failed).1, failed(LoadError::Io));
    let writing = reading().advance(Event::FileContents(TWO.to_string())).advance(Event::Done);
    let (loader, action) = writing.step(Event::Failed);
    assert_eq!(action, failed(LoadError::Store(StoreStep::Insert)));
    assert_eq!(loader.rows_written(), 1);
}

#[test]
fn an_event_that_the_stage_does_not_wait_for_stops_the_load() {
    let (_, action) = Loader::start(&args(&["nes.xml"])).step(Event::Done);
    assert_eq!(action, Action::Finish(Outcome::Failed(LoadError::Store(StoreStep::Probe))));
    let (_, action) = reading().step(Event::Done);
    assert_eq!(action, Action::Finish(Outcome::Failed(LoadError::Io)));
    let writing = reading().advance(Event::FileContents(TWO.to_string()));
    let (_, action) = writing.step(Event::DatabaseFound);
    assert_eq!(action, Action::Finish(Outcome::Failed(LoadError::Store(StoreStep::Insert))));
}

#[test]
fn a_bad_file_stops_the_load_before_any_insert() {
    let (_, action) = reading().step(Event::FileContents("<menu>".to_string()));
    assert_eq!(action, Action::Finish(Outcome::Failed(LoadError::Parse)));
    let text = "<menu><game name=\"A\"/></menu>";
    let (_, action) = reading().step(Event::FileContents(text.to_string()));
    assert_eq!(
        action,
        Action::Finish(Outcome::Failed(LoadError::Schema(SchemaError::MissingHeader)))
    );
    let text = "<menu><header><listname>N</listname></header><game name=\"A\"/></menu>";
    let (loader, action) = reading().step(Event::FileContents(text.to_string()));
    assert_eq!(
        action,
        Action::Finish(Outcome::Failed(LoadError::Schema(SchemaError::MissingField {
            game: 0,
            field: Field::Description
        })))
    );
    assert_eq!(loader.rows_written(), 0);
}

#[test]
fn a_finished_load_stays_finished() {
    let done = Loader::start(&args(&[]));
    let (done, action) = done.step(Event::Done);
    assert_eq!(action, Action::Finish(Outcome::Failed(LoadError::Usage)));
    let (_, action) = done.step(Event::FileContents(TWO.to_string()));
    assert_eq!(action, Action::Finish(Outcome::Failed(LoadError::Usage)));
}

#[test]
fn exit_codes() {
    assert_eq!(Outcome::Loaded.exit_code(), 0);
    assert_eq!(Outcome::Failed(LoadError::Usage).exit_code(), 0);
    assert_eq!(LoadError::Usage.exit_code(), 0);
    let fatal = [
        LoadError::Io,
        LoadError::Parse,
        LoadError::Schema(SchemaError::MissingHeader),
        LoadError::Schema(SchemaError::MissingListName),
        LoadError::Schema(SchemaError::MissingField { game: 0, field: Field::Year }),
        LoadError::Store(StoreStep::Probe),
        LoadError::Store(StoreStep::Create),
        LoadError::Store(StoreStep::Connect),
        LoadError::Store(StoreStep::CreateTable),
        LoadError::Store(StoreStep::Insert),
    ];
    for error in fatal {
        assert_eq!(error.exit_code(), 1);
        assert_eq!(Outcome::Failed(error).exit_code(), 1);
        assert!(!error.message().is_empty());
    }
}

#[test]
fn messages_name_the_stage() {
    assert_eq!(LoadError::Usage.message(), "Need a filename to parse");
    assert_eq!(LoadError::Io.message(), "Failed to open file");
    assert_eq!(LoadError::Parse.message(), "Failed to parse xml");
    assert_eq!(LoadError::Store(StoreStep::CreateTable).message(), "Failed to create table");
    assert_eq!(LoadError::Store(StoreStep::Insert).message(), "Failed to insert data");
}

#[test]
fn load_document_maps_the_errors() {
    assert_eq!(load_document(None), Err(LoadError::Parse));
    let empty = XmlNode { name: "menu".to_string(), attrs: vec![], text: String::new(), children: vec![] };
    assert_eq!(load_document(Some(empty)), Err(LoadError::Schema(SchemaError::MissingHeader)));
}
