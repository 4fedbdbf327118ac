use tee_rotate::cli::OutputErrorMode;
use tee_rotate::errors::SinkError;
use tee_rotate::errors::SinkOp;
use tee_rotate::errors::TeeError;
use tee_rotate::errors::WriteErrorKind;
use tee_rotate::generic_writer::GenericWriter;
use tee_rotate::multi_writer::process_error;
use tee_rotate::multi_writer::ErrorAction;
use tee_rotate::multi_writer::MultiWriter;
use tee_rotate::rotating_writer::RotatingWriter;
use tee_rotate::single_writer::SingleWriter;

fn sink(name: &str) -> GenericWriter {
    GenericWriter::Single(SingleWriter {
        name: name.to_string(),
    })
}

fn broken_pipe(msg: &str) -> Option<SinkError> {
    Some(SinkError {
        kind: WriteErrorKind::BrokenPipe,
        op: SinkOp::Write,
        message: msg.to_string(),
    })
}

fn other_error(msg: &str) -> Option<SinkError> {
    Some(SinkError {
        kind: WriteErrorKind::Other,
        op: SinkOp::Write,
        message: msg.to_string(),
    })
}

#[test]
fn rotating_sink_carries_its_base_name() {
    let w = RotatingWriter::new("audit.log", true, true, 100, None, 0, 0, vec![0]);
    let gw = GenericWriter::Rotating(w);
    assert_eq!(gw.name(), "audit.log");
    let mut mw = MultiWriter::new(vec![gw], Some(OutputErrorMode::Warn));
    let (_, diags) = mw.finish_write(1, vec![other_error("read-only file system")]);
    assert_eq!(diags, vec!["audit.log: read-only file system".to_string()]);
}

#[test]
fn every_sink_is_offered_the_whole_buffer() {
    let mw = MultiWriter::new(vec![sink("a"), sink("b"), sink("c")], None);
    let plan = mw.begin_write(b"hello");
    assert_eq!(plan.len(), 3);
    for p in &plan {
        assert_eq!(p.as_slice(), b"hello");
    }
}

#[test]
fn all_ok_broadcast_succeeds_and_keeps_all() {
    let mut mw = MultiWriter::new(vec![sink("a"), sink("b")], None);
    let (res, diags) = mw.finish_write(5, vec![None, None]);
    assert!(matches!(res, Ok(5)));
    assert_eq!(mw.writers.len(), 2);
    assert_eq!(mw.ignored_errors, 0);
    assert!(diags.is_empty());
}

#[test]
fn warn_suppresses_broken_pipe_and_removes_sink() {
    let mut mw = MultiWriter::new(
        vec![sink("file1"), sink("file2")],
        Some(OutputErrorMode::Warn),
    );
    let (res, diags) = mw.finish_write(3, vec![broken_pipe("pipe closed"), None]);
    assert!(matches!(res, Ok(3)));
    assert_eq!(mw.writers.len(), 1);
    assert_eq!(mw.writers[0].name(), "file2");
    assert_eq!(mw.ignored_errors, 1);
    assert_eq!(diags, vec!["file1: pipe closed".to_string()]);
    let (res2, diags2) = mw.finish_write(4, vec![None]);
    assert!(matches!(res2, Ok(4)));
    assert!(diags2.is_empty());
}

#[test]
fn default_mode_suppresses_broken_pipe_in_silence() {
    let mut mw = MultiWriter::new(vec![sink("a"), sink("b")], None);
    let (res, diags) = mw.finish_write(2, vec![broken_pipe("gone"), None]);
    assert!(matches!(res, Ok(2)));
    assert!(diags.is_empty());
    assert_eq!(mw.writers.len(), 1);
    assert_eq!(mw.ignored_errors, 1);
}

#[test]
fn warn_nopipe_diagnoses_other_errors() {
    let mut mw = MultiWriter::new(
        vec![sink("a"), sink("b")],
        Some(OutputErrorMode::WarnNoPipe),
    );
    let (res, diags) = mw.finish_write(2, vec![other_error("disk full"), None]);
    assert!(matches!(res, Ok(2)));
    assert_eq!(diags, vec!["a: disk full".to_string()]);
    assert_eq!(mw.ignored_errors, 1);
}

#[test]
fn exit_mode_fails_call_but_after_all_attempts() {
    let mut mw = MultiWriter::new(
        vec![sink("a"), sink("b"), sink("c")],
        Some(OutputErrorMode::Exit),
    );
    let plan = mw.begin_write(b"data");
    assert_eq!(plan.len(), 3);
    let (res, diags) = mw.finish_write(
        4,
        vec![None, other_error("disk full"), broken_pipe("pipe closed")],
    );
    match res {
        Err(TeeError::Io(e)) => {
            assert_eq!(e.message, "disk full");
            assert_eq!(e.kind, WriteErrorKind::Other);
        }
        _ => panic!("expected the first abort-class failure"),
    }
    assert_eq!(
        diags,
        vec!["b: disk full".to_string(), "c: pipe closed".to_string()]
    );
    assert_eq!(mw.writers.len(), 1);
    assert_eq!(mw.writers[0].name(), "a");
    assert_eq!(mw.ignored_errors, 0);
}

#[test]
fn exit_mode_aborts_on_broken_pipe_too() {
    let mut mw = MultiWriter::new(vec![sink("a")], Some(OutputErrorMode::Exit));
    let (res, diags) = mw.finish_write(1, vec![broken_pipe("gone")]);
    assert!(matches!(res, Err(TeeError::Io(_))));
    assert_eq!(diags, vec!["a: gone".to_string()]);
}

#[test]
fn exit_nopipe_suppresses_broken_pipe_only() {
    let mut mw = MultiWriter::new(
        vec![sink("a"), sink("b")],
        Some(OutputErrorMode::ExitNoPipe),
    );
    let (res, diags) = mw.finish_write(2, vec![broken_pipe("gone"), None]);
    assert!(matches!(res, Ok(2)));
    assert!(diags.is_empty());
    assert_eq!(mw.ignored_errors, 1);
    let (res2, diags2) = mw.finish_write(2, vec![other_error("denied")]);
    assert!(matches!(res2, Err(TeeError::Io(_))));
    assert_eq!(diags2, vec!["b: denied".to_string()]);
}

#[test]
fn all_sinks_gone_reports_no_destinations() {
    let mut mw = MultiWriter::new(vec![sink("a"), sink("b")], None);
    let (res, diags) = mw.finish_write(1, vec![broken_pipe("r"), broken_pipe("s")]);
    match res {
        Err(e) => {
            assert!(e.is_early_stop());
            assert!(matches!(e, TeeError::NoDestinationsRemain));
        }
        Ok(_) => panic!("expected the no-destinations sentinel"),
    }
    assert!(diags.is_empty());
    assert_eq!(mw.writers.len(), 0);
    let (res2, _) = mw.finish_write(1, vec![]);
    assert!(matches!(res2, Err(TeeError::NoDestinationsRemain)));
}

#[test]
fn io_abort_is_not_the_early_stop_sentinel() {
    let e = TeeError::Io(SinkError {
        kind: WriteErrorKind::Other,
        op: SinkOp::Flush,
        message: "x".to_string(),
    });
    assert!(!e.is_early_stop());
}

#[test]
fn flush_follows_the_removal_protocol() {
    let mut mw = MultiWriter::new(vec![sink("a"), sink("b")], None);
    let (res, diags) = mw.finish_flush(vec![other_error("denied"), None]);
    assert!(matches!(res, Ok(())));
    assert_eq!(diags, vec!["a: denied".to_string()]);
    assert_eq!(mw.writers.len(), 1);
    assert_eq!(mw.ignored_errors, 1);
}

#[test]
fn flush_of_no_sinks_succeeds() {
    let mut mw = MultiWriter::new(vec![], None);
    let (res, diags) = mw.finish_flush(vec![]);
    assert!(matches!(res, Ok(())));
    assert!(diags.is_empty());
}

#[test]
fn flush_abort_propagates() {
    let mut mw = MultiWriter::new(vec![sink("a")], Some(OutputErrorMode::Exit));
    let (res, _) = mw.finish_flush(vec![other_error("denied")]);
    assert!(matches!(res, Err(TeeError::Io(_))));
}

#[test]
fn policy_table_is_exact() {
    let bp = WriteErrorKind::BrokenPipe;
    let other = WriteErrorKind::Other;

    let d = process_error(Some(OutputErrorMode::Warn), bp);
    assert!(matches!(d.action, ErrorAction::Suppress) && d.diagnose);
    let d = process_error(Some(OutputErrorMode::Warn), other);
    assert!(matches!(d.action, ErrorAction::Suppress) && d.diagnose);

    let d = process_error(Some(OutputErrorMode::WarnNoPipe), bp);
    assert!(matches!(d.action, ErrorAction::Suppress) && !d.diagnose);
    let d = process_error(Some(OutputErrorMode::WarnNoPipe), other);
    assert!(matches!(d.action, ErrorAction::Suppress) && d.diagnose);

    let d = process_error(None, bp);
    assert!(matches!(d.action, ErrorAction::Suppress) && !d.diagnose);
    let d = process_error(None, other);
    assert!(matches!(d.action, ErrorAction::Suppress) && d.diagnose);

    let d = process_error(Some(OutputErrorMode::Exit), bp);
    assert!(matches!(d.action, ErrorAction::Abort) && d.diagnose);
    let d = process_error(Some(OutputErrorMode::Exit), other);
    assert!(matches!(d.action, ErrorAction::Abort) && d.diagnose);

    let d = process_error(Some(OutputErrorMode::ExitNoPipe), bp);
    assert!(matches!(d.action, ErrorAction::Suppress) && !d.diagnose);
    let d = process_error(Some(OutputErrorMode::ExitNoPipe), other);
    assert!(matches!(d.action, ErrorAction::Abort) && d.diagnose);
}
