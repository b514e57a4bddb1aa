//! The table `raw_games`: its statements, the values that an insert binds,
//! and a model of what the statements do to it.

use crate::record::{GameRaw, GameView};
use vstd::prelude::*;

verus! {

/// Where the database lives.
pub const DATABASE_URL: &'static str = "sqlite:games.db";

/// The statement that creates the table unless it is there already.
pub const CREATE_TABLE: &'static str =
    "CREATE TABLE IF NOT EXISTS raw_games(
    name VARCHAR,
    description VARCHAR,
    rating VARCHAR,
    genre VARCHAR,
    developer VARCHAR,
    publisher VARCHAR,
    year VARCHAR,
    platform VARCHAR
)";

/// The statement that appends one row. Its eight parameters are the columns
/// in the order of `row_of`.
pub const INSERT_ROW: &'static str =
    "INSERT INTO raw_games
  (name, description, rating, genre, developer, publisher, year, platform)
VALUES ($1,$2,$3,$4,$5,$6,$7,$8)";

/// The texts of a list of strings, in the same order.
pub open spec fn texts(strings: Seq<String>) -> Seq<Seq<char>> {
    strings.map_values(|s: String| s@)
}

/// The row that stores `game`: its columns in the order of the table.
pub open spec fn row_of(game: GameView) -> Seq<Seq<char>> {
    seq![
        game.name,
        game.description,
        game.rating,
        game.genre,
        game.developer,
        game.publisher,
        game.year,
        game.platform,
    ]
}

/// The rows that store `games`, in the same order.
pub open spec fn rows_of(games: Seq<GameView>) -> Seq<Seq<Seq<char>>> {
    games.map_values(|game: GameView| row_of(game))
}

/// The values that the insert statement binds for `game`, first parameter
/// first.
pub fn bind_values(game: &GameRaw) -> (values: Vec<String>)
    ensures
        texts(values@) == row_of(game@),
{
    let mut values: Vec<String> = Vec::new();
    values.push(game.name.clone());
    values.push(game.description.clone());
    values.push(game.rating.clone());
    values.push(game.genre.clone());
    values.push(game.developer.clone());
    values.push(game.publisher.clone());
    values.push(game.year.clone());
    values.push(game.platform.clone());
    proof {
        assert(texts(values@) =~= row_of(game@));
    }
    values
}

/// A database as the load sees it, in a world where no statement fails.
pub struct Store {
    /// Whether the database exists.
    pub exists: bool,
    /// The rows of `raw_games` in the order in which they were inserted, or
    /// `None` while the table does not exist.
    pub table: Option<Seq<Seq<Seq<char>>>>,
}

impl Store {
    /// The rows of the table, none where there is no table.
    pub open spec fn rows(self) -> Seq<Seq<Seq<char>>> {
        match self.table {
            Some(rows) => rows,
            None => Seq::empty(),
        }
    }

    /// The database after it was created.
    pub open spec fn created(self) -> Store {
        Store { exists: true, table: self.table }
    }

    /// The database after `CREATE_TABLE`: a table that is there keeps its rows.
    pub open spec fn with_table(self) -> Store {
        Store { exists: self.exists, table: Some(self.rows()) }
    }

    /// The database after `INSERT_ROW` with the values of `row`.
    pub open spec fn inserted(self, row: Seq<Seq<char>>) -> Store {
        Store { exists: self.exists, table: Some(self.rows().push(row)) }
    }
}

/// Creating the table a second time changes nothing, and a table that is
/// there keeps its rows: in this model `CREATE_TABLE` can be run at the start
/// of every load.
pub proof fn lemma_create_table_again(store: Store)
    ensures
        store.with_table().with_table() == store.with_table(),
        store.with_table().rows() == store.rows(),
        store.table is Some ==> store.with_table() == store,
{
}

} // verus!
