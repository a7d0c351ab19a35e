//! Where the database file lives, what to do when it cannot be opened, and
//! the statements that read and write the table `verbs`.
//!
//! Nothing here touches the file system or the database: these are the
//! decisions and the texts that the code around them acts on. The table has
//! one column for each field of a `VerbRow`, under the field's name, with
//! `de` as its primary key and `freq_percentile` for the percentile.

use vstd::prelude::*;
use crate::error::AppError;
use crate::text::{contains_text, has_part};

verus! {

/// Draws verbs at random. Parameter 1 is the flag that the verbs drawn have
/// as `irregular`, parameter 2 the largest number of verbs to draw. The
/// columns come in the order of the fields of a `VerbRow`.
pub const SELECT_VERBS: &'static str =
    "SELECT de, de_expanded, de_examples, de_forms, en, en_expanded, en_examples, irregular, freq_percentile FROM verbs WHERE irregular = ?1 ORDER BY RANDOM() LIMIT ?2;";

/// Stores a verb, in place of the one with the same `de` where there is
/// one. Parameters 1 to 9 are the fields of a `VerbRow`, in their order.
pub const REPLACE_VERB: &'static str =
    "REPLACE INTO verbs (de, de_expanded, de_examples, de_forms, en, en_expanded, en_examples, irregular, freq_percentile) VALUES (?1, ?2, ?3, ?4, ?5, ?6, ?7, ?8, ?9);";

/// The directory of the database file, for a home directory.
pub open spec fn db_dir_of(home: Seq<char>) -> Seq<char> {
    home + "/.local/state/abfrag"@
}

/// The path of the database file, for a home directory.
pub open spec fn db_path_of(home: Seq<char>) -> Seq<char> {
    db_dir_of(home) + "/db.sqlite"@
}

/// Whether an error says that the database file is not there yet, as on a
/// first run: it comes from the database and names that condition.
pub open spec fn database_file_missing(error: AppError) -> bool {
    error matches AppError::SqlError(text) && has_part(text@, "unable to open database file"@)
}

/// What to do once a first connection was tried.
#[derive(Clone, Copy, Debug, PartialEq, Eq, Structural)]
pub enum InitStep {
    /// The database is there.
    Ready,
    /// Create an empty database file, then go on.
    CreateFile,
}

/// The directory that holds the database file. It is to be created where it
/// does not exist.
pub fn build_db_dir(home: &str) -> (dir: String)
    ensures
        dir@ == db_dir_of(home@),
{
    let mut dir = home.to_owned();
    dir.append("/.local/state/abfrag");
    dir
}

/// The path of the database file.
pub fn build_db_path(home: &str) -> (path: String)
    ensures
        path@ == db_path_of(home@),
{
    let mut path = build_db_dir(home);
    path.append("/db.sqlite");
    path
}

/// Whether `error` says that the database file is not there yet.
pub fn is_database_file_missing(error: &AppError) -> (missing: bool)
    ensures
        missing == database_file_missing(*error),
{
    match error {
        AppError::SqlError(text) => contains_text(text.as_str(), "unable to open database file"),
        _ => false,
    }
}

/// Decides how to go on after a first connection was tried: a missing file
/// is expected and gets created, any other failure is handed on unchanged.
pub fn init_database(connected: Result<(), AppError>) -> (step: Result<InitStep, AppError>)
    ensures
        step == match connected {
            Ok(_) => Ok(InitStep::Ready),
            Err(error) => if database_file_missing(error) {
                Ok(InitStep::CreateFile)
            } else {
                Err(error)
            },
        },
{
    match connected {
        Ok(_) => Ok(InitStep::Ready),
        Err(error) => if is_database_file_missing(&error) {
            Ok(InitStep::CreateFile)
        } else {
            Err(error)
        },
    }
}

} // verus!
