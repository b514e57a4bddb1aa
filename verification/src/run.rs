//! A whole run, from the command line to the last row, against a database in
//! which no statement fails, and what such a run leaves behind.

use crate::error::LoadError;
use crate::loader::{games_in, ActionView, EventView, LoaderView, Outcome, Stage};
use crate::parse::xml_document;
use crate::record::{lemma_games_of, GameView};
use crate::store::{row_of, rows_of, Store};
use vstd::prelude::*;

verus! {

/// What comes of `action` where the database does as it is told, and the file
/// holds `file`, or cannot be read where `file` is `None`: the database
/// afterwards, and the event that the load is told.
pub open spec fn respond(store: Store, action: ActionView, file: Option<Seq<char>>) -> (
    Store,
    EventView,
) {
    match action {
        ActionView::ProbeDatabase => (
            store,
            if store.exists {
                EventView::DatabaseFound
            } else {
                EventView::DatabaseMissing
            },
        ),
        ActionView::CreateDatabase => (store.created(), EventView::Done),
        ActionView::Connect => (store, EventView::Done),
        ActionView::CreateTable => (store.with_table(), EventView::Done),
        ActionView::ReadFile(_) => (
            store,
            match file {
                Some(text) => EventView::FileContents(text),
                None => EventView::Failed,
            },
        ),
        ActionView::Insert(game) => (store.inserted(row_of(game)), EventView::Done),
        ActionView::Finish(_) => (store, EventView::Done),
    }
}

/// How many stages lie between `stage` and the end.
pub open spec fn rank(stage: Stage) -> nat {
    match stage {
        Stage::Probing => 6,
        Stage::Creating => 5,
        Stage::Connecting => 4,
        Stage::Preparing => 3,
        Stage::Reading => 2,
        Stage::Writing => 1,
        Stage::Finished(_) => 0,
    }
}

/// The run from `state` to the end: each action is done as `respond` says,
/// and the load is told what came of it. Gives the outcome and the database
/// afterwards.
pub open spec fn run(state: LoaderView, store: Store, file: Option<Seq<char>>) -> (Outcome, Store)
    decreases rank(state.stage), state.games.len() - state.written,
{
    match state.stage {
        Stage::Finished(outcome) => (outcome, store),
        _ => {
            let (after, event) = respond(store, state.pending(), file);
            run(state.advance(event), after, file)
        },
    }
}

/// The run of a whole load: the command line holds `args`, the database is
/// `store` before it, and the file holds `file`.
pub open spec fn load(args: Seq<Seq<char>>, store: Store, file: Option<Seq<char>>) -> (
    Outcome,
    Store,
) {
    run(LoaderView::start(args), store, file)
}

/// The database once a load has got as far as reading the file: it exists and
/// has the table, with the rows that it had.
pub open spec fn prepared(store: Store) -> Store {
    Store { exists: true, table: Some(store.rows()) }
}

/// From the first stage to the reading of the file, a run changes nothing but
/// to create the database and the table where they were missing.
proof fn lemma_run_prepares(state: LoaderView, store: Store, file: Option<Seq<char>>)
    requires
        state.stage == Stage::Probing,
    ensures
        run(state, store, file) == run(state.at(Stage::Reading), prepared(store), file),
{
    let found = state.advance(respond(store, state.pending(), file).1);
    if store.exists {
        assert(found == state.at(Stage::Connecting));
        assert(run(state, store, file) == run(found, store, file));
    } else {
        assert(found == state.at(Stage::Creating));
        assert(run(state, store, file) == run(found, store, file));
        assert(run(found, store, file) == run(state.at(Stage::Connecting), store.created(), file));
    }
    let open = if store.exists {
        store
    } else {
        store.created()
    };
    let connecting = state.at(Stage::Connecting);
    assert(run(connecting, open, file) == run(state.at(Stage::Preparing), open, file));
    assert(run(state.at(Stage::Preparing), open, file) == run(
        state.at(Stage::Reading),
        open.with_table(),
        file,
    ));
    assert(open.with_table() == prepared(store));
}

/// While rows are written, a run appends the rows of the games that are not
/// written yet, in their order, and ends well.
proof fn lemma_run_writes(state: LoaderView, store: Store, file: Option<Seq<char>>)
    requires
        state.stage == Stage::Writing,
        state.written < state.games.len(),
    ensures
        run(state, store, file) == (
            Outcome::Loaded,
            Store {
                exists: store.exists,
                table: Some(store.rows() + rows_of(state.games.skip(state.written as int))),
            },
        ),
    decreases state.games.len() - state.written,
{
    let game = state.games[state.written as int];
    let next = state.with_row();
    let after = store.inserted(row_of(game));
    assert(run(state, store, file) == run(next, after, file));
    let rest = state.games.skip(state.written as int);
    if state.written + 1 < state.games.len() {
        lemma_run_writes(next, after, file);
        assert(rows_of(rest) =~= seq![row_of(game)] + rows_of(
            state.games.skip(state.written as int + 1),
        ));
        assert(store.rows() + rows_of(rest) =~= after.rows() + rows_of(
            next.games.skip(next.written as int),
        ));
    } else {
        assert(rows_of(rest) =~= seq![row_of(game)]);
        assert(store.rows() + rows_of(rest) =~= after.rows());
    }
}

/// A run with no argument, or with more than one, ends at once and leaves the
/// database as it was: no table is created and no row is written.
pub proof fn lemma_usage_gate(args: Seq<Seq<char>>, store: Store, file: Option<Seq<char>>)
    requires
        args.len() != 1,
    ensures
        load(args, store, file) == (Outcome::Failed(LoadError::Usage), store),
{
}

/// A load of a file that holds records appends one row for each of them, in
/// their order, behind the rows that the table had, and ends well. So the
/// table grows by exactly as many rows as the root of the document has `game`
/// children.
pub proof fn lemma_load_appends(args: Seq<Seq<char>>, store: Store, text: Seq<char>)
    requires
        args.len() == 1,
        games_in(text) is Ok,
    ensures
        load(args, store, Some(text)) == (
            Outcome::Loaded,
            Store {
                exists: true,
                table: Some(store.rows() + rows_of(games_in(text).unwrap())),
            },
        ),
        load(args, store, Some(text)).1.rows().len() == store.rows().len() + xml_document(
            text,
        ).unwrap().children_named("game"@).len(),
{
    let games = games_in(text).unwrap();
    let start = LoaderView::start(args);
    let file = Some(text);
    lemma_run_prepares(start, store, file);
    let reading = start.at(Stage::Reading);
    let read = reading.with_file(text);
    assert(run(reading, prepared(store), file) == run(read, prepared(store), file));
    if games.len() > 0 {
        lemma_run_writes(read, prepared(store), file);
        assert(games.skip(0) =~= games);
    } else {
        assert(store.rows() + rows_of(games) =~= store.rows());
    }
    lemma_games_of(xml_document(text).unwrap());
}

/// Loading one file twice stores each of its games twice: the second load
/// appends the same rows again, behind those of the first.
pub proof fn lemma_load_twice(args: Seq<Seq<char>>, store: Store, text: Seq<char>)
    requires
        args.len() == 1,
        games_in(text) is Ok,
    ensures
        ({
            let rows = rows_of(games_in(text).unwrap());
            let once = load(args, store, Some(text)).1;
            let twice = load(args, once, Some(text));
            &&& twice.0 == Outcome::Loaded
            &&& twice.1.rows() == store.rows() + rows + rows
            &&& twice.1.rows().len() == store.rows().len() + 2 * rows.len()
        }),
{
    lemma_load_appends(args, store, text);
    lemma_load_appends(args, load(args, store, Some(text)).1, text);
}

/// A load of a file that holds no records, because it is not well-formed or
/// because something is missing in it, fails with that error and writes no
/// row: the rows of the table are those that it had.
pub proof fn lemma_bad_file_writes_nothing(args: Seq<Seq<char>>, store: Store, text: Seq<char>)
    requires
        args.len() == 1,
        games_in(text) is Err,
    ensures
        load(args, store, Some(text)) == (
            Outcome::Failed(games_in(text)->Err_0),
            prepared(store),
        ),
{
    let start = LoaderView::start(args);
    let file = Some(text);
    lemma_run_prepares(start, store, file);
    let reading = start.at(Stage::Reading);
    assert(run(reading, prepared(store), file) == run(
        reading.with_file(text),
        prepared(store),
        file,
    ));
}

/// A load of a file that cannot be read fails with `Io` and writes no row.
pub proof fn lemma_unreadable_file_writes_nothing(args: Seq<Seq<char>>, store: Store)
    requires
        args.len() == 1,
    ensures
        load(args, store, None) == (Outcome::Failed(LoadError::Io), prepared(store)),
{
    let start = LoaderView::start(args);
    lemma_run_prepares(start, store, None);
    let reading = start.at(Stage::Reading);
    assert(run(reading, prepared(store), None) == run(
        reading.stopped(LoadError::Io),
        prepared(store),
        None,
    ));
}

/// Every state that a run passes through keeps the rule of the `Writing`
/// stage: it is entered with a game to write, and left with the last one.
pub proof fn lemma_advance_keeps_wf(state: LoaderView, event: EventView)
    requires
        state.wf(),
    ensures
        state.advance(event).wf(),
{
}

} // verus!
