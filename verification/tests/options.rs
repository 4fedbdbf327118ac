use tee_rotate::cli::init;
use tee_rotate::cli::parse_output_error;
use tee_rotate::cli::OutputErrorMode;
use tee_rotate::errors::run_succeeded;
use tee_rotate::errors::TeeError;

#[test]
fn selector_spellings_parse() {
    assert_eq!(parse_output_error("warn"), Some(OutputErrorMode::Warn));
    assert_eq!(
        parse_output_error("warn-nopipe"),
        Some(OutputErrorMode::WarnNoPipe)
    );
    assert_eq!(parse_output_error("exit"), Some(OutputErrorMode::Exit));
    assert_eq!(
        parse_output_error("exit-nopipe"),
        Some(OutputErrorMode::ExitNoPipe)
    );
}

#[test]
fn unknown_selector_is_rejected() {
    assert_eq!(parse_output_error(""), None);
    assert_eq!(parse_output_error("warnx"), None);
    assert_eq!(parse_output_error("WARN"), None);
    assert_eq!(parse_output_error("exit-nopipe "), None);
}

#[test]
fn init_applies_defaults() {
    let o = init(false, vec![], false, None, None);
    assert!(!o.append);
    assert!(!o.rotate);
    assert_eq!(o.max_size_bytes, 1000);
    assert_eq!(o.output_error, None);
    assert!(o.files.is_empty());
}

#[test]
fn init_selector_without_value_gets_builtin_default() {
    let o = init(false, vec![], false, None, Some(None));
    assert_eq!(o.output_error, Some(OutputErrorMode::WarnNoPipe));
}

#[test]
fn init_keeps_explicit_values() {
    let o = init(
        true,
        vec!["a.log".to_string(), "b.log".to_string()],
        true,
        Some(5),
        Some(Some("exit".to_string())),
    );
    assert!(o.append);
    assert!(o.rotate);
    assert_eq!(o.max_size_bytes, 5);
    assert_eq!(o.output_error, Some(OutputErrorMode::Exit));
    assert_eq!(o.files, vec!["a.log".to_string(), "b.log".to_string()]);
}

#[test]
fn run_outcome_requires_clean_copy_and_flush() {
    assert!(run_succeeded(&None, true));
    assert!(!run_succeeded(&None, false));
    assert!(!run_succeeded(&Some(TeeError::NoDestinationsRemain), true));
    assert!(!run_succeeded(&Some(TeeError::NoDestinationsRemain), false));
}
