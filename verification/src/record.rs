//! One game of the catalog, and how it is read out of the element tree.

use crate::text::{is_trimmed, lemma_trimmed, trim, trimmed};
use crate::xml::{trees_of, XmlNode, XmlTree};
use vstd::prelude::*;
use vstd::string::*;

verus! {

/// One game as it is stored: eight texts, none of them interpreted.
#[derive(Debug, Clone, PartialEq, Eq)]
pub struct GameRaw {
    pub name: String,
    pub description: String,
    pub rating: String,
    pub genre: String,
    /// From the element `dev`.
    pub developer: String,
    /// From the element `manufacturer`.
    pub publisher: String,
    pub year: String,
    /// The label of the file the game came from.
    pub platform: String,
}

/// A game as mathematical values.
pub struct GameView {
    pub name: Seq<char>,
    pub description: Seq<char>,
    pub rating: Seq<char>,
    pub genre: Seq<char>,
    pub developer: Seq<char>,
    pub publisher: Seq<char>,
    pub year: Seq<char>,
    pub platform: Seq<char>,
}

impl View for GameRaw {
    type V = GameView;

    open spec fn view(&self) -> GameView {
        GameView {
            name: self.name@,
            description: self.description@,
            rating: self.rating@,
            genre: self.genre@,
            developer: self.developer@,
            publisher: self.publisher@,
            year: self.year@,
            platform: self.platform@,
        }
    }
}

impl GameRaw {
    /// A second copy of this game.
    pub fn duplicate(&self) -> (copy: GameRaw)
        ensures
            copy@ == self@,
    {
        GameRaw {
            name: self.name.clone(),
            description: self.description.clone(),
            rating: self.rating.clone(),
            genre: self.genre.clone(),
            developer: self.developer.clone(),
            publisher: self.publisher.clone(),
            year: self.year.clone(),
            platform: self.platform.clone(),
        }
    }
}

/// The games of a list as mathematical values, in the same order.
pub open spec fn views(games: Seq<GameRaw>) -> Seq<GameView> {
    games.map_values(|game: GameRaw| game@)
}

/// The fields that a `game` element has to supply, in the order in which they
/// are read.
#[derive(Debug, Clone, Copy, PartialEq, Eq, Structural)]
pub enum Field {
    Name,
    Description,
    Rating,
    Genre,
    Developer,
    Publisher,
    Year,
}

/// What a document lacks.
#[derive(Debug, Clone, Copy, PartialEq, Eq, Structural)]
pub enum SchemaError {
    /// The root has no `header` child.
    MissingHeader,
    /// The header has no `listname` child.
    MissingListName,
    /// The `game` element at place `game` among the root's `game` children,
    /// counted from zero, lacks `field`.
    MissingField { game: usize, field: Field },
}

impl Field {
    /// The name under which the document holds this field: an attribute for
    /// `Name`, a child element for the others.
    pub open spec fn source(self) -> Seq<char> {
        match self {
            Field::Name => "name"@,
            Field::Description => "description"@,
            Field::Rating => "rating"@,
            Field::Genre => "genre"@,
            Field::Developer => "dev"@,
            Field::Publisher => "manufacturer"@,
            Field::Year => "year"@,
        }
    }

    /// The name under which the document holds this field.
    pub fn source_name(self) -> (name: &'static str)
        ensures
            name@ == self.source(),
    {
        match self {
            Field::Name => "name",
            Field::Description => "description",
            Field::Rating => "rating",
            Field::Genre => "genre",
            Field::Developer => "dev",
            Field::Publisher => "manufacturer",
            Field::Year => "year",
        }
    }

    /// The value of this field in `game`, trimmed, or `None` where the element
    /// does not supply it.
    pub open spec fn value_in(self, game: XmlTree) -> Option<Seq<char>> {
        match self {
            Field::Name => match game.attr(self.source()) {
                Some(value) => Some(trimmed(value)),
                None => None,
            },
            _ => match game.child_named(self.source()) {
                Some(child) => Some(trimmed(child.text)),
                None => None,
            },
        }
    }

    /// Reads this field out of `game`.
    pub fn read(self, game: &XmlNode) -> (value: Option<String>)
        ensures
            match value {
                Some(text) => self.value_in(game@) == Some(text@),
                None => self.value_in(game@) is None,
            },
    {
        match self {
            Field::Name => match game.get_attr(self.source_name()) {
                Some(value) => Some(trim(value)),
                None => None,
            },
            _ => match game.find(self.source_name()) {
                Some(child) => Some(trim(child.text())),
                None => None,
            },
        }
    }
}

/// The first field, in reading order, that `game` does not supply.
pub open spec fn first_missing(game: XmlTree) -> Option<Field> {
    if Field::Name.value_in(game) is None {
        Some(Field::Name)
    } else if Field::Description.value_in(game) is None {
        Some(Field::Description)
    } else if Field::Rating.value_in(game) is None {
        Some(Field::Rating)
    } else if Field::Genre.value_in(game) is None {
        Some(Field::Genre)
    } else if Field::Developer.value_in(game) is None {
        Some(Field::Developer)
    } else if Field::Publisher.value_in(game) is None {
        Some(Field::Publisher)
    } else if Field::Year.value_in(game) is None {
        Some(Field::Year)
    } else {
        None
    }
}

/// The platform label of a document: the trimmed text of `header/listname`.
pub open spec fn platform_of(root: XmlTree) -> Result<Seq<char>, SchemaError> {
    match root.child_named("header"@) {
        None => Err(SchemaError::MissingHeader),
        Some(header) => match header.child_named("listname"@) {
            None => Err(SchemaError::MissingListName),
            Some(listname) => Ok(trimmed(listname.text)),
        },
    }
}

/// The record of the `game` element at place `index`, for a file labelled
/// `platform`.
pub open spec fn game_of(game: XmlTree, index: int, platform: Seq<char>) -> Result<
    GameView,
    SchemaError,
> {
    match first_missing(game) {
        Some(field) => Err(SchemaError::MissingField { game: index as usize, field }),
        None => Ok(
            GameView {
                name: Field::Name.value_in(game).unwrap(),
                description: Field::Description.value_in(game).unwrap(),
                rating: Field::Rating.value_in(game).unwrap(),
                genre: Field::Genre.value_in(game).unwrap(),
                developer: Field::Developer.value_in(game).unwrap(),
                publisher: Field::Publisher.value_in(game).unwrap(),
                year: Field::Year.value_in(game).unwrap(),
                platform,
            },
        ),
    }
}

/// The records of the first `count` of `games`, or what the first of them
/// that is incomplete lacks.
pub open spec fn collect(games: Seq<XmlTree>, platform: Seq<char>, count: nat) -> Result<
    Seq<GameView>,
    SchemaError,
>
    decreases count,
{
    if count == 0 {
        Ok(Seq::empty())
    } else {
        match collect(games, platform, (count - 1) as nat) {
            Err(error) => Err(error),
            Ok(done) => match game_of(games[count - 1], count - 1, platform) {
                Err(error) => Err(error),
                Ok(game) => Ok(done.push(game)),
            },
        }
    }
}

/// The records of a document: one for each `game` child of the root, in
/// document order, each labelled with the document's platform. A document
/// without a platform label gives no record, and neither does one in which a
/// game is incomplete.
pub open spec fn games_of(root: XmlTree) -> Result<Seq<GameView>, SchemaError> {
    match platform_of(root) {
        Err(error) => Err(error),
        Ok(platform) => {
            let games = root.children_named("game"@);
            collect(games, platform, games.len())
        },
    }
}

/// Once a game is found incomplete, the games after it are not looked at.
pub proof fn lemma_collect_stops(games: Seq<XmlTree>, platform: Seq<char>, at: nat, count: nat)
    requires
        at <= count,
        collect(games, platform, at) is Err,
    ensures
        collect(games, platform, count) == collect(games, platform, at),
    decreases count,
{
    if at < count {
        lemma_collect_stops(games, platform, at, (count - 1) as nat);
    }
}

/// The record that a complete `game` element gives for a file labelled
/// `platform`: each field is the trimmed value that the document holds under
/// the field's own name, so `developer` comes from `dev` and `publisher` from
/// `manufacturer`.
pub open spec fn complete_record(game: XmlTree, platform: Seq<char>) -> GameView {
    GameView {
        name: trimmed(game.attr("name"@).unwrap()),
        description: trimmed(game.child_named("description"@).unwrap().text),
        rating: trimmed(game.child_named("rating"@).unwrap().text),
        genre: trimmed(game.child_named("genre"@).unwrap().text),
        developer: trimmed(game.child_named("dev"@).unwrap().text),
        publisher: trimmed(game.child_named("manufacturer"@).unwrap().text),
        year: trimmed(game.child_named("year"@).unwrap().text),
        platform,
    }
}

/// Whether `game` supplies every field: the attribute `name` and the six
/// child elements.
pub open spec fn is_complete(game: XmlTree) -> bool {
    &&& game.attr("name"@) is Some
    &&& game.child_named("description"@) is Some
    &&& game.child_named("rating"@) is Some
    &&& game.child_named("genre"@) is Some
    &&& game.child_named("dev"@) is Some
    &&& game.child_named("manufacturer"@) is Some
    &&& game.child_named("year"@) is Some
}

/// Whether no field of `game` begins or ends with whitespace.
pub open spec fn fields_trimmed(game: GameView) -> bool {
    &&& is_trimmed(game.name)
    &&& is_trimmed(game.description)
    &&& is_trimmed(game.rating)
    &&& is_trimmed(game.genre)
    &&& is_trimmed(game.developer)
    &&& is_trimmed(game.publisher)
    &&& is_trimmed(game.year)
    &&& is_trimmed(game.platform)
}

/// A game gives a record exactly when it is complete, and the record is then
/// `complete_record`.
pub proof fn lemma_game_of(game: XmlTree, index: int, platform: Seq<char>)
    ensures
        game_of(game, index, platform) is Ok <==> is_complete(game),
        is_complete(game) ==> game_of(game, index, platform) == Ok::<GameView, SchemaError>(
            complete_record(game, platform),
        ),
{
}

/// What `collect` gives for the first `count` games: records exactly when
/// each of them is complete, and then one record for each, at its place.
pub proof fn lemma_collect(games: Seq<XmlTree>, platform: Seq<char>, count: nat)
    requires
        count <= games.len(),
    ensures
        collect(games, platform, count) is Ok <==> forall|i: int|
            0 <= i < count ==> is_complete(#[trigger] games[i]),
        collect(games, platform, count) matches Ok(records) ==> {
            &&& records.len() == count
            &&& forall|i: int|
                0 <= i < count ==> #[trigger] records[i] == complete_record(games[i], platform)
        },
    decreases count,
{
    if count > 0 {
        lemma_collect(games, platform, (count - 1) as nat);
        lemma_game_of(games[count - 1], count - 1, platform);
    }
}

/// A document gives one record for each `game` child of its root, no more and
/// no fewer, in document order. Each field of a record is the trimmed value
/// that the game holds under the field's source name, and the platform of
/// every record is the trimmed text of `header/listname`.
pub proof fn lemma_games_of(root: XmlTree)
    ensures
        games_of(root) matches Ok(records) ==> {
            let games = root.children_named("game"@);
            let label = trimmed(
                root.child_named("header"@).unwrap().child_named("listname"@).unwrap().text,
            );
            &&& records.len() == games.len()
            &&& forall|i: int|
                0 <= i < games.len() ==> #[trigger] records[i] == complete_record(
                    games[i],
                    label,
                )
        },
{
    if platform_of(root) is Ok {
        let games = root.children_named("game"@);
        lemma_collect(games, platform_of(root).unwrap(), games.len());
    }
}

/// All records of one document carry the same platform.
pub proof fn lemma_one_platform(root: XmlTree, i: int, j: int)
    requires
        games_of(root) is Ok,
        0 <= i < games_of(root).unwrap().len(),
        0 <= j < games_of(root).unwrap().len(),
    ensures
        games_of(root).unwrap()[i].platform == games_of(root).unwrap()[j].platform,
{
    lemma_games_of(root);
}

/// No field of a record begins or ends with whitespace.
pub proof fn lemma_fields_trimmed(root: XmlTree, i: int)
    requires
        games_of(root) is Ok,
        0 <= i < games_of(root).unwrap().len(),
    ensures
        fields_trimmed(games_of(root).unwrap()[i]),
{
    lemma_games_of(root);
    let game = root.children_named("game"@)[i];
    lemma_trimmed(game.attr("name"@).unwrap());
    lemma_trimmed(game.child_named("description"@).unwrap().text);
    lemma_trimmed(game.child_named("rating"@).unwrap().text);
    lemma_trimmed(game.child_named("genre"@).unwrap().text);
    lemma_trimmed(game.child_named("dev"@).unwrap().text);
    lemma_trimmed(game.child_named("manufacturer"@).unwrap().text);
    lemma_trimmed(game.child_named("year"@).unwrap().text);
    lemma_trimmed(root.child_named("header"@).unwrap().child_named("listname"@).unwrap().text);
}

/// A document gives records exactly when it has a `header` with a `listname`
/// and every `game` child of its root is complete. One game that lacks one
/// field is enough for the whole document to give none.
pub proof fn lemma_incomplete_is_fatal(root: XmlTree)
    ensures
        games_of(root) is Ok <==> {
            &&& root.child_named("header"@) is Some
            &&& root.child_named("header"@).unwrap().child_named("listname"@) is Some
            &&& forall|i: int|
                0 <= i < root.children_named("game"@).len() ==> is_complete(
                    #[trigger] root.children_named("game"@)[i],
                )
        },
{
    if platform_of(root) is Ok {
        let games = root.children_named("game"@);
        lemma_collect(games, platform_of(root).unwrap(), games.len());
    }
}

/// Reads the platform label of a document.
pub fn extract_platform(root: &XmlNode) -> (platform: Result<String, SchemaError>)
    ensures
        match platform {
            Ok(label) => platform_of(root@) == Ok::<Seq<char>, SchemaError>(label@),
            Err(error) => platform_of(root@) == Err::<Seq<char>, SchemaError>(error),
        },
{
    match root.find("header") {
        None => Err(SchemaError::MissingHeader),
        Some(header) => match header.find("listname") {
            None => Err(SchemaError::MissingListName),
            Some(listname) => Ok(trim(listname.text())),
        },
    }
}

/// Reads the record of the `game` element at place `index`.
pub fn extract_game(game: &XmlNode, index: usize, platform: &String) -> (record: Result<
    GameRaw,
    SchemaError,
>)
    ensures
        match record {
            Ok(raw) => game_of(game@, index as int, platform@) == Ok::<GameView, SchemaError>(
                raw@,
            ),
            Err(error) => game_of(game@, index as int, platform@) == Err::<
                GameView,
                SchemaError,
            >(error),
        },
{
    let name = match Field::Name.read(game) {
        Some(value) => value,
        None => { return Err(SchemaError::MissingField { game: index, field: Field::Name }); },
    };
    let description = match Field::Description.read(game) {
        Some(value) => value,
        None => {
            return Err(SchemaError::MissingField { game: index, field: Field::Description });
        },
    };
    let rating = match Field::Rating.read(game) {
        Some(value) => value,
        None => { return Err(SchemaError::MissingField { game: index, field: Field::Rating }); },
    };
    let genre = match Field::Genre.read(game) {
        Some(value) => value,
        None => { return Err(SchemaError::MissingField { game: index, field: Field::Genre }); },
    };
    let developer = match Field::Developer.read(game) {
        Some(value) => value,
        None => {
            return Err(SchemaError::MissingField { game: index, field: Field::Developer });
        },
    };
    let publisher = match Field::Publisher.read(game) {
        Some(value) => value,
        None => {
            return Err(SchemaError::MissingField { game: index, field: Field::Publisher });
        },
    };
    let year = match Field::Year.read(game) {
        Some(value) => value,
        None => { return Err(SchemaError::MissingField { game: index, field: Field::Year }); },
    };
    Ok(
        GameRaw {
            name,
            description,
            rating,
            genre,
            developer,
            publisher,
            year,
            platform: platform.clone(),
        },
    )
}

/// Reads the records of a document.
pub fn extract_games(root: &XmlNode) -> (records: Result<Vec<GameRaw>, SchemaError>)
    ensures
        match records {
            Ok(games) => games_of(root@) == Ok::<Seq<GameView>, SchemaError>(views(games@)),
            Err(error) => games_of(root@) == Err::<Seq<GameView>, SchemaError>(error),
        },
{
    let platform = match extract_platform(root) {
        Ok(label) => label,
        Err(error) => { return Err(error); },
    };
    let elements = root.find_all("game");
    let ghost games = root@.children_named("game"@);
    let mut records: Vec<GameRaw> = Vec::new();
    proof {
        assert(views(records@) =~= Seq::empty());
        assert(trees_of(elements@).len() == elements@.len());
    }
    let mut i: usize = 0;
    while i < elements.len()
        invariant
            i <= elements.len(),
            platform_of(root@) == Ok::<Seq<char>, SchemaError>(platform@),
            games == root@.children_named("game"@),
            trees_of(elements@) == games,
            collect(games, platform@, i as nat) == Ok::<Seq<GameView>, SchemaError>(
                views(records@),
            ),
        decreases elements.len() - i,
    {
        proof {
            assert(trees_of(elements@)[i as int] == elements@[i as int]@);
        }
        match extract_game(elements[i], i, &platform) {
            Err(error) => {
                proof {
                    assert(games.len() == elements@.len());
                    assert(games[i as int] == elements@[i as int]@);
                    assert(collect(games, platform@, (i + 1) as nat) is Err);
                    lemma_collect_stops(games, platform@, (i + 1) as nat, games.len());
                }
                return Err(error);
            },
            Ok(record) => {
                proof {
                    assert(views(records@.push(record)) =~= views(records@).push(record@));
                }
                records.push(record);
            },
        }
        i += 1;
    }
    Ok(records)
}

} // verus!
