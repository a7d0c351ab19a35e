use abfrag::cli::{Cli, ExerciseType, Operation, VerbExerciseOptions};
use abfrag::error::AppError;
use abfrag::storage::{
    build_db_dir, build_db_path, init_database, is_database_file_missing, InitStep,
};

#[test]
fn database_path_under_home() {
    assert_eq!(build_db_dir("/home/anna"), "/home/anna/.local/state/abfrag");
    assert_eq!(build_db_path("/home/anna"), "/home/anna/.local/state/abfrag/db.sqlite");
    assert_eq!(build_db_path(""), "/.local/state/abfrag/db.sqlite");
}

#[test]
fn missing_database_file_is_recognized() {
    let missing = AppError::SqlError(
        "error returned from database: (code: 14) unable to open database file".to_string(),
    );
    assert!(is_database_file_missing(&missing));
    assert!(!is_database_file_missing(&AppError::SqlError("database is locked".to_string())));
    assert!(!is_database_file_missing(&AppError::IoError(
        "unable to open database file".to_string()
    )));
    assert!(!is_database_file_missing(&AppError::SqlError(String::new())));
}

#[test]
fn init_goes_on_when_connected() {
    assert_eq!(init_database(Ok(())), Ok(InitStep::Ready));
}

#[test]
fn init_creates_a_missing_file() {
    let missing = AppError::SqlError("unable to open database file".to_string());
    assert_eq!(init_database(Err(missing)), Ok(InitStep::CreateFile));
}

#[test]
fn init_hands_other_failures_on() {
    let locked = AppError::SqlError("database is locked".to_string());
    assert_eq!(init_database(Err(locked.clone())), Err(locked));
    let env = AppError::EnvError("environment variable not found".to_string());
    assert_eq!(init_database(Err(env.clone())), Err(env));
}

#[test]
fn error_messages() {
    assert_eq!(
        AppError::CmdError("unrecognized filetype".to_string()).message(),
        "executing command failed: unrecognized filetype"
    );
    assert_eq!(AppError::IoError("not found".to_string()).message(), "not found");
    assert_eq!(AppError::EnvError("no HOME".to_string()).message(), "no HOME");
    assert_eq!(AppError::SerdeError("eof".to_string()).message(), "eof");
    assert_eq!(AppError::PromptError("interrupted".to_string()).message(), "interrupted");
    assert_eq!(AppError::ParseFloatError("invalid".to_string()).message(), "invalid");
    assert_eq!(AppError::SqlError("locked".to_string()).message(), "locked");
    assert_eq!(AppError::MigrateError("version".to_string()).message(), "version");
    assert_eq!(AppError::CsvError("field".to_string()).message(), "field");
}

#[test]
fn default_operation_is_ten_irregular_verbs() {
    assert_eq!(
        Operation::default(),
        Operation::Exercise(ExerciseType::Verb {
            options: VerbExerciseOptions { irregular: true, freq_bias: true, word_amount: 10 },
        })
    );
}

#[test]
fn command_line_without_operation_runs_the_default() {
    let cli = Cli { operation: None, verbose: false, debug: false };
    assert_eq!(cli.into_operation(), Operation::default());
}

#[test]
fn command_line_with_operation_runs_it() {
    let upsert = Operation::Upsert { payload: Some("data.json".to_string()) };
    let cli = Cli { operation: Some(upsert.clone()), verbose: true, debug: true };
    assert_eq!(cli.into_operation(), upsert);
    let options = VerbExerciseOptions { irregular: false, freq_bias: false, word_amount: 3 };
    let exercise = Operation::Exercise(ExerciseType::Verb { options });
    let cli = Cli { operation: Some(exercise.clone()), verbose: false, debug: false };
    assert_eq!(cli.into_operation(), exercise);
}
