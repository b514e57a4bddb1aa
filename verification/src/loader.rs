//! The load itself: from the text of a file to its records, and the order in
//! which the database is prepared, the file is read and the rows are written.

use crate::error::{LoadError, StoreStep};
use crate::parse::{parse_document, xml_document};
use crate::record::{extract_games, games_of, views, GameRaw, GameView, SchemaError};
use crate::store::texts;
use crate::xml::{XmlNode, XmlTree};
use vstd::prelude::*;

verus! {

/// The records of a parsed document, where `None` stands for a text that is
/// not well-formed.
pub open spec fn games_in_document(parsed: Option<XmlTree>) -> Result<Seq<GameView>, LoadError> {
    match parsed {
        None => Err(LoadError::Parse),
        Some(root) => match games_of(root) {
            Ok(games) => Ok(games),
            Err(error) => Err(LoadError::Schema(error)),
        },
    }
}

/// The records that the text of a file holds.
pub open spec fn games_in(text: Seq<char>) -> Result<Seq<GameView>, LoadError> {
    games_in_document(xml_document(text))
}

/// Reads the records out of what the parser made of a file.
pub fn load_document(parsed: Option<XmlNode>) -> (records: Result<Vec<GameRaw>, LoadError>)
    ensures
        match records {
            Ok(games) => games_in_document(
                match parsed {
                    Some(root) => Some(root@),
                    None => None,
                },
            ) == Ok::<Seq<GameView>, LoadError>(views(games@)),
            Err(error) => games_in_document(
                match parsed {
                    Some(root) => Some(root@),
                    None => None,
                },
            ) == Err::<Seq<GameView>, LoadError>(error),
        },
{
    match parsed {
        None => Err(LoadError::Parse),
        Some(root) => match extract_games(&root) {
            Ok(games) => Ok(games),
            Err(error) => Err(LoadError::Schema(error)),
        },
    }
}

/// Parses the text of a file and reads its records.
pub fn parse_games_from_xml(text: &str) -> (records: Result<Vec<GameRaw>, LoadError>)
    ensures
        match records {
            Ok(games) => games_in(text@) == Ok::<Seq<GameView>, LoadError>(views(games@)),
            Err(error) => games_in(text@) == Err::<Seq<GameView>, LoadError>(error),
        },
{
    load_document(parse_document(text))
}

/// How a load ended.
#[derive(Debug, Clone, Copy, PartialEq, Eq, Structural)]
pub enum Outcome {
    /// Every game of the file was written.
    Loaded,
    /// The load stopped, and wrote nothing after it did.
    Failed(LoadError),
}

impl Outcome {
    /// The exit status of a run that ended so: zero after a load and after a
    /// wrong command line, one after any other error.
    pub open spec fn status(self) -> i32 {
        match self {
            Outcome::Loaded => 0i32,
            Outcome::Failed(error) => error.status(),
        }
    }

    /// The exit status of a run that ended so.
    pub fn exit_code(self) -> (code: i32)
        ensures
            code == self.status(),
    {
        match self {
            Outcome::Loaded => 0,
            Outcome::Failed(error) => error.exit_code(),
        }
    }
}

/// Where a load stands. Each stage but the last waits for one piece of work
/// to be done outside.
#[derive(Debug, Clone, Copy, PartialEq, Eq, Structural)]
pub enum Stage {
    /// Asking whether the database exists.
    Probing,
    /// Creating the database.
    Creating,
    /// Opening the connection.
    Connecting,
    /// Creating the table.
    Preparing,
    /// Reading the file.
    Reading,
    /// Inserting a row.
    Writing,
    /// Nothing is left to do.
    Finished(Outcome),
}

/// What the load wants done next.
#[derive(Debug, PartialEq, Eq)]
pub enum Action {
    /// Find out whether the database at `DATABASE_URL` exists.
    ProbeDatabase,
    /// Create the database.
    CreateDatabase,
    /// Open the connection.
    Connect,
    /// Execute `CREATE_TABLE`.
    CreateTable,
    /// Read the file at this path.
    ReadFile(String),
    /// Execute `INSERT_ROW` for this game.
    Insert(GameRaw),
    /// Stop, with this outcome.
    Finish(Outcome),
}

/// An action as mathematical values.
pub enum ActionView {
    ProbeDatabase,
    CreateDatabase,
    Connect,
    CreateTable,
    ReadFile(Seq<char>),
    Insert(GameView),
    Finish(Outcome),
}

impl View for Action {
    type V = ActionView;

    open spec fn view(&self) -> ActionView {
        match self {
            Action::ProbeDatabase => ActionView::ProbeDatabase,
            Action::CreateDatabase => ActionView::CreateDatabase,
            Action::Connect => ActionView::Connect,
            Action::CreateTable => ActionView::CreateTable,
            Action::ReadFile(path) => ActionView::ReadFile(path@),
            Action::Insert(game) => ActionView::Insert(game@),
            Action::Finish(outcome) => ActionView::Finish(*outcome),
        }
    }
}

/// What came of the action that the load asked for.
#[derive(Debug, PartialEq, Eq)]
pub enum Event {
    /// The database exists.
    DatabaseFound,
    /// There is no database yet.
    DatabaseMissing,
    /// The work was done.
    Done,
    /// The file was read, and this is its text.
    FileContents(String),
    /// The work could not be done.
    Failed,
}

/// An event as mathematical values.
pub enum EventView {
    DatabaseFound,
    DatabaseMissing,
    Done,
    FileContents(Seq<char>),
    Failed,
}

impl View for Event {
    type V = EventView;

    open spec fn view(&self) -> EventView {
        match self {
            Event::DatabaseFound => EventView::DatabaseFound,
            Event::DatabaseMissing => EventView::DatabaseMissing,
            Event::Done => EventView::Done,
            Event::FileContents(text) => EventView::FileContents(text@),
            Event::Failed => EventView::Failed,
        }
    }
}

/// The state of a load as mathematical values.
pub struct LoaderView {
    pub stage: Stage,
    /// The path of the file.
    pub path: Seq<char>,
    /// The games of the file, once it was read.
    pub games: Seq<GameView>,
    /// How many of the games were written.
    pub written: nat,
}

impl LoaderView {
    /// The state in which a run with the arguments `args` begins. Anything but
    /// exactly one argument ends the run before it touches the database.
    pub open spec fn start(args: Seq<Seq<char>>) -> LoaderView {
        if args.len() == 1 {
            LoaderView { stage: Stage::Probing, path: args[0], games: Seq::empty(), written: 0 }
        } else {
            LoaderView {
                stage: Stage::Finished(Outcome::Failed(LoadError::Usage)),
                path: Seq::empty(),
                games: Seq::empty(),
                written: 0,
            }
        }
    }

    /// While rows are written, one game at least is still unwritten.
    pub open spec fn wf(self) -> bool {
        self.stage is Writing ==> self.written < self.games.len()
    }

    /// The action that this state waits for.
    pub open spec fn pending(self) -> ActionView {
        match self.stage {
            Stage::Probing => ActionView::ProbeDatabase,
            Stage::Creating => ActionView::CreateDatabase,
            Stage::Connecting => ActionView::Connect,
            Stage::Preparing => ActionView::CreateTable,
            Stage::Reading => ActionView::ReadFile(self.path),
            Stage::Writing => ActionView::Insert(self.games[self.written as int]),
            Stage::Finished(outcome) => ActionView::Finish(outcome),
        }
    }

    /// This state, moved to `stage`.
    pub open spec fn at(self, stage: Stage) -> LoaderView {
        LoaderView { stage, ..self }
    }

    /// This state, stopped by `error`.
    pub open spec fn stopped(self, error: LoadError) -> LoaderView {
        self.at(Stage::Finished(Outcome::Failed(error)))
    }

    /// The state after the file was read as `text`: stopped where the text
    /// holds no records, finished where it holds no game, and else about to
    /// write the first game.
    pub open spec fn with_file(self, text: Seq<char>) -> LoaderView {
        match games_in(text) {
            Err(error) => self.stopped(error),
            Ok(games) => LoaderView {
                stage: if games.len() == 0 {
                    Stage::Finished(Outcome::Loaded)
                } else {
                    Stage::Writing
                },
                path: self.path,
                games,
                written: 0,
            },
        }
    }

    /// The state after one more row was written.
    pub open spec fn with_row(self) -> LoaderView {
        LoaderView {
            stage: if self.written + 1 < self.games.len() {
                Stage::Writing
            } else {
                Stage::Finished(Outcome::Loaded)
            },
            path: self.path,
            games: self.games,
            written: self.written + 1,
        }
    }

    /// The state that follows this one when `event` comes in. An event other
    /// than the one that the stage waits for stops the load with the error of
    /// that stage; a finished load stays as it is.
    pub open spec fn advance(self, event: EventView) -> LoaderView {
        match self.stage {
            Stage::Probing => match event {
                EventView::DatabaseFound => self.at(Stage::Connecting),
                EventView::DatabaseMissing => self.at(Stage::Creating),
                _ => self.stopped(LoadError::Store(StoreStep::Probe)),
            },
            Stage::Creating => match event {
                EventView::Done => self.at(Stage::Connecting),
                _ => self.stopped(LoadError::Store(StoreStep::Create)),
            },
            Stage::Connecting => match event {
                EventView::Done => self.at(Stage::Preparing),
                _ => self.stopped(LoadError::Store(StoreStep::Connect)),
            },
            Stage::Preparing => match event {
                EventView::Done => self.at(Stage::Reading),
                _ => self.stopped(LoadError::Store(StoreStep::CreateTable)),
            },
            Stage::Reading => match event {
                EventView::FileContents(text) => self.with_file(text),
                _ => self.stopped(LoadError::Io),
            },
            Stage::Writing => match event {
                EventView::Done => self.with_row(),
                _ => self.stopped(LoadError::Store(StoreStep::Insert)),
            },
            Stage::Finished(_) => self,
        }
    }
}

/// A load in progress. It does no work outside itself: it names the next
/// action, and moves on when it is told what came of it.
pub struct Loader {
    stage: Stage,
    path: String,
    games: Vec<GameRaw>,
    written: usize,
}

impl View for Loader {
    type V = LoaderView;

    closed spec fn view(&self) -> LoaderView {
        LoaderView {
            stage: self.stage,
            path: self.path@,
            games: views(self.games@),
            written: self.written as nat,
        }
    }
}

impl Loader {
    #[verifier::type_invariant]
    spec fn inv(self) -> bool {
        self@.wf()
    }

    /// Begins a run with the arguments of the command line, the program's own
    /// name left out.
    pub fn start(args: &Vec<String>) -> (loader: Loader)
        ensures
            loader@ == LoaderView::start(texts(args@)),
            loader@.wf(),
    {
        proof {
            assert(views(Seq::<GameRaw>::empty()) =~= Seq::<GameView>::empty());
        }
        if args.len() == 1 {
            proof {
                assert(texts(args@)[0] == args@[0]@);
            }
            Loader { stage: Stage::Probing, path: args[0].clone(), games: Vec::new(), written: 0 }
        } else {
            Loader {
                stage: Stage::Finished(Outcome::Failed(LoadError::Usage)),
                path: String::new(),
                games: Vec::new(),
                written: 0,
            }
        }
    }

    /// The stage at which the load stands.
    pub fn stage(&self) -> (stage: Stage)
        ensures
            stage == self@.stage,
    {
        self.stage
    }

    /// How the load ended, or `None` while it is under way.
    pub fn outcome(&self) -> (outcome: Option<Outcome>)
        ensures
            outcome == match self@.stage {
                Stage::Finished(end) => Some(end),
                _ => None,
            },
    {
        match self.stage {
            Stage::Finished(end) => Some(end),
            _ => None,
        }
    }

    /// How many rows were written so far.
    pub fn rows_written(&self) -> (count: usize)
        ensures
            count == self@.written,
    {
        self.written
    }

    /// The action that the load waits for.
    pub fn action(&self) -> (action: Action)
        ensures
            action@ == self@.pending(),
    {
        proof {
            use_type_invariant(self);
        }
        match self.stage {
            Stage::Probing => Action::ProbeDatabase,
            Stage::Creating => Action::CreateDatabase,
            Stage::Connecting => Action::Connect,
            Stage::Preparing => Action::CreateTable,
            Stage::Reading => Action::ReadFile(self.path.clone()),
            Stage::Writing => Action::Insert(self.games[self.written].duplicate()),
            Stage::Finished(outcome) => Action::Finish(outcome),
        }
    }

    /// Moves on with what came of the action that the load waited for.
    pub fn advance(self, event: Event) -> (next: Loader)
        ensures
            next@ == self@.advance(event@),
            next@.wf(),
    {
        proof {
            use_type_invariant(&self);
        }
        match self.stage {
            Stage::Probing => match event {
                Event::DatabaseFound => self.at(Stage::Connecting),
                Event::DatabaseMissing => self.at(Stage::Creating),
                _ => self.stopped(LoadError::Store(StoreStep::Probe)),
            },
            Stage::Creating => match event {
                Event::Done => self.at(Stage::Connecting),
                _ => self.stopped(LoadError::Store(StoreStep::Create)),
            },
            Stage::Connecting => match event {
                Event::Done => self.at(Stage::Preparing),
                _ => self.stopped(LoadError::Store(StoreStep::Connect)),
            },
            Stage::Preparing => match event {
                Event::Done => self.at(Stage::Reading),
                _ => self.stopped(LoadError::Store(StoreStep::CreateTable)),
            },
            Stage::Reading => match event {
                Event::FileContents(text) => match parse_games_from_xml(text.as_str()) {
                    Err(error) => self.stopped(error),
                    Ok(games) => {
                        let stage = if games.len() == 0 {
                            Stage::Finished(Outcome::Loaded)
                        } else {
                            Stage::Writing
                        };
                        Loader { stage, path: self.path, games, written: 0 }
                    },
                },
                _ => self.stopped(LoadError::Io),
            },
            Stage::Writing => match event {
                Event::Done => {
                    let total = self.games.len();
                    proof {
                        assert(views(self.games@).len() == total);
                    }
                    let written = self.written + 1;
                    let stage = if written < total {
                        Stage::Writing
                    } else {
                        Stage::Finished(Outcome::Loaded)
                    };
                    Loader { stage, path: self.path, games: self.games, written }
                },
                _ => self.stopped(LoadError::Store(StoreStep::Insert)),
            },
            Stage::Finished(_) => self,
        }
    }

    /// Moves on as `advance` does, and names the action that comes next.
    pub fn step(self, event: Event) -> (next: (Loader, Action))
        ensures
            next.0@ == self@.advance(event@),
            next.0@.wf(),
            next.1@ == self@.advance(event@).pending(),
    {
        let loader = self.advance(event);
        let action = loader.action();
        (loader, action)
    }

    fn at(self, stage: Stage) -> (next: Loader)
        requires
            !(stage is Writing),
        ensures
            next@ == self@.at(stage),
    {
        Loader { stage, path: self.path, games: self.games, written: self.written }
    }

    fn stopped(self, error: LoadError) -> (next: Loader)
        ensures
            next@ == self@.stopped(error),
    {
        self.at(Stage::Finished(Outcome::Failed(error)))
    }
}

} // verus!
