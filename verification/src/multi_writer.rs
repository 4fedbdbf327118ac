use crate::cli::OutputErrorMode;
use crate::errors::SinkError;
use crate::errors::TeeError;
use crate::errors::WriteErrorKind;
use crate::generic_writer::GenericWriter;
use vstd::prelude::*;
use vstd::slice::slice_to_vec;
use vstd::string::StringExecFns;

verus! {

/// What the failure policy does with a failing sink: keep going without it,
/// or fail the whole broadcast call.
#[derive(Clone, Copy, Debug, PartialEq, Eq, Structural)]
pub enum ErrorAction {
    Suppress,
    Abort,
}

/// What the failure policy decided: the action, and whether a diagnostic
/// line is emitted for it.
#[derive(Clone, Copy, Debug, PartialEq, Eq, Structural)]
pub struct Decision {
    pub action: ErrorAction,
    pub diagnose: bool,
}

/// The failure policy: what a given mode decides for a given failure.
/// A missing mode behaves as `WarnNoPipe`. Under the warn modes every
/// failure is suppressed; under `Exit` every failure aborts, broken pipes
/// included; under the no-pipe variants a broken pipe is passed over in
/// silence while anything else is diagnosed.
pub open spec fn spec_process_error(
    mode: Option<OutputErrorMode>,
    kind: WriteErrorKind,
) -> Decision {
    match mode {
        Some(OutputErrorMode::Warn) => Decision { action: ErrorAction::Suppress, diagnose: true },
        Some(OutputErrorMode::Exit) => Decision { action: ErrorAction::Abort, diagnose: true },
        Some(OutputErrorMode::ExitNoPipe) => if kind is BrokenPipe {
            Decision { action: ErrorAction::Suppress, diagnose: false }
        } else {
            Decision { action: ErrorAction::Abort, diagnose: true }
        },
        _ => if kind is BrokenPipe {
            Decision { action: ErrorAction::Suppress, diagnose: false }
        } else {
            Decision { action: ErrorAction::Suppress, diagnose: true }
        },
    }
}

/// Decides what to do about one sink's failure, from the failure mode and
/// the failure's classification alone.
pub fn process_error(mode: Option<OutputErrorMode>, kind: WriteErrorKind) -> (d: Decision)
    ensures
        d == spec_process_error(mode, kind),
{
    match mode {
        Some(OutputErrorMode::Warn) => Decision { action: ErrorAction::Suppress, diagnose: true },
        Some(OutputErrorMode::Exit) => Decision { action: ErrorAction::Abort, diagnose: true },
        Some(OutputErrorMode::ExitNoPipe) => {
            if kind == WriteErrorKind::BrokenPipe {
                Decision { action: ErrorAction::Suppress, diagnose: false }
            } else {
                Decision { action: ErrorAction::Abort, diagnose: true }
            }
        },
        Some(OutputErrorMode::WarnNoPipe) | None => {
            if kind == WriteErrorKind::BrokenPipe {
                Decision { action: ErrorAction::Suppress, diagnose: false }
            } else {
                Decision { action: ErrorAction::Suppress, diagnose: true }
            }
        },
    }
}

/// One diagnostic line: `"{sink-identity}: {error}"`.
pub open spec fn diag_line_spec(name: Seq<char>, msg: Seq<char>) -> Seq<char> {
    name + seq![':', ' '] + msg
}

/// Renders one diagnostic line for a failing sink.
pub fn make_diag_line(name: &str, msg: &str) -> (r: String)
    ensures
        r@ == diag_line_spec(name@, msg@),
{
    let mut r = name.to_owned();
    r.append(": ");
    r.append(msg);
    proof {
        reveal_strlit(": ");
        assert(": "@ =~= seq![':', ' ']);
        assert(r@ =~= diag_line_spec(name@, msg@));
    }
    r
}

/// The sinks a broadcast call keeps: exactly those whose outcome in this
/// call was a success, in their original order. A failing sink leaves the
/// active set whatever the policy decided.
pub open spec fn retained_spec(
    ws: Seq<GenericWriter>,
    outs: Seq<Option<SinkError>>,
) -> Seq<GenericWriter>
    decreases ws.len(),
{
    if ws.len() == 0 || outs.len() == 0 {
        Seq::empty()
    } else {
        let rest = retained_spec(ws.drop_first(), outs.drop_first());
        if outs.first() is None {
            seq![ws.first()] + rest
        } else {
            rest
        }
    }
}

/// The first failure, in sink order, that the policy decided to abort on.
pub open spec fn first_abort_spec(
    mode: Option<OutputErrorMode>,
    outs: Seq<Option<SinkError>>,
) -> Option<SinkError>
    decreases outs.len(),
{
    if outs.len() == 0 {
        None
    } else {
        match outs.first() {
            Some(e) => if spec_process_error(mode, e.kind).action is Abort {
                Some(e)
            } else {
                first_abort_spec(mode, outs.drop_first())
            },
            None => first_abort_spec(mode, outs.drop_first()),
        }
    }
}

/// How many failures the policy suppressed in one broadcast call.
pub open spec fn suppress_count_spec(
    mode: Option<OutputErrorMode>,
    outs: Seq<Option<SinkError>>,
) -> nat
    decreases outs.len(),
{
    if outs.len() == 0 {
        0
    } else {
        (match outs.first() {
            Some(e) => if spec_process_error(mode, e.kind).action is Suppress {
                1nat
            } else {
                0nat
            },
            None => 0nat,
        }) + suppress_count_spec(mode, outs.drop_first())
    }
}

/// The diagnostic lines one broadcast call emits, in sink order: one line
/// per failure the policy chose to diagnose.
pub open spec fn diag_lines_spec(
    mode: Option<OutputErrorMode>,
    ws: Seq<GenericWriter>,
    outs: Seq<Option<SinkError>>,
) -> Seq<Seq<char>>
    decreases ws.len(),
{
    if ws.len() == 0 || outs.len() == 0 {
        Seq::empty()
    } else {
        let rest = diag_lines_spec(mode, ws.drop_first(), outs.drop_first());
        match outs.first() {
            Some(e) => if spec_process_error(mode, e.kind).diagnose {
                seq![diag_line_spec(ws.first().spec_name(), e.message@)] + rest
            } else {
                rest
            },
            None => rest,
        }
    }
}

/// How many outcomes of one broadcast call were successes.
pub open spec fn count_ok_spec(outs: Seq<Option<SinkError>>) -> nat
    decreases outs.len(),
{
    if outs.len() == 0 {
        0
    } else {
        (if outs.first() is None {
            1nat
        } else {
            0nat
        }) + count_ok_spec(outs.drop_first())
    }
}

/// The fan-out broadcaster: it owns the ordered set of active sinks,
/// offers every buffer and every flush to each of them, classifies each
/// sink's failure through the failure policy, removes failing sinks, and
/// aggregates the call's result. Sinks are only ever removed, never
/// re-added; the failure mode is fixed for the broadcaster's lifetime;
/// `ignored_errors` counts the suppressed failures, for diagnostics only.
pub struct MultiWriter {
    pub writers: Vec<GenericWriter>,
    pub output_error_mode: Option<OutputErrorMode>,
    pub ignored_errors: usize,
}

impl MultiWriter {
    /// A broadcaster over the given sinks, in the given order, under the
    /// given failure mode.
    pub fn new(writers: Vec<GenericWriter>, output_error_mode: Option<OutputErrorMode>) -> (w:
        Self)
        ensures
            w.writers == writers,
            w.output_error_mode == output_error_mode,
            w.ignored_errors == 0,
    {
        MultiWriter { writers, output_error_mode, ignored_errors: 0 }
    }

    /// Plans one broadcast: every sink currently active is offered the
    /// whole buffer, byte for byte, in sink order — also when some other
    /// sink's attempt will fail in the same call.
    pub fn begin_write(&self, buf: &[u8]) -> (plan: Vec<Vec<u8>>)
        ensures
            plan@.len() == self.writers@.len(),
            forall|i: int| 0 <= i < plan@.len() ==> #[trigger] plan@[i]@ == buf@,
    {
        let mut plan: Vec<Vec<u8>> = Vec::new();
        let mut i: usize = 0;
        while i < self.writers.len()
            invariant
                i <= self.writers@.len(),
                plan@.len() == i,
                forall|j: int| 0 <= j < i ==> #[trigger] plan@[j]@ == buf@,
            decreases self.writers@.len() - i,
        {
            plan.push(slice_to_vec(buf));
            i = i + 1;
        }
        plan
    }

    /// Settles one broadcast call from the per-sink outcomes, which the
    /// surrounding program obtained by offering the buffer to each active
    /// sink in order. Failing sinks are dropped from the active set; each
    /// suppressed failure is counted; the diagnostic lines the policy
    /// asks for are returned alongside the call's result. The call fails
    /// with the first abort-class failure if there is one; otherwise with the
    /// "no destinations remain" sentinel if no sink is left; otherwise it
    /// succeeds, reporting the whole buffer length as consumed.
    #[verifier::loop_isolation(false)]
    pub fn finish_write(&mut self, len: usize, outcomes: Vec<Option<SinkError>>) -> (r: (
        Result<usize, TeeError>,
        Vec<String>,
    ))
        requires
            outcomes@.len() == old(self).writers@.len(),
            old(self).ignored_errors + outcomes@.len() <= usize::MAX,
        ensures
            final(self).output_error_mode == old(self).output_error_mode,
            final(self).writers@ == retained_spec(old(self).writers@, outcomes@),
            final(self).ignored_errors == old(self).ignored_errors + suppress_count_spec(
                old(self).output_error_mode,
                outcomes@,
            ),
            r.1@.map_values(|s: String| s@) == diag_lines_spec(
                old(self).output_error_mode,
                old(self).writers@,
                outcomes@,
            ),
            (match first_abort_spec(old(self).output_error_mode, outcomes@) {
                Some(e) => r.0 == Err::<usize, TeeError>(TeeError::Io(e)),
                None => if retained_spec(old(self).writers@, outcomes@).len() == 0 {
                    r.0 == Err::<usize, TeeError>(TeeError::NoDestinationsRemain)
                } else {
                    r.0 == Ok::<usize, TeeError>(len)
                },
            }),
    {
        let ghost orig_ws = self.writers@;
        let ghost orig_outs = outcomes@;
        let mode = self.output_error_mode;
        let mut outcomes = outcomes;
        let mut kept: Vec<GenericWriter> = Vec::new();
        let mut diags: Vec<String> = Vec::new();
        let mut aborted: Option<SinkError> = None;
        let mut suppressed: usize = 0;
        while self.writers.len() > 0
            invariant
                self.writers@.len() == outcomes@.len(),
                self.output_error_mode == mode,
                self.ignored_errors == old(self).ignored_errors,
                suppressed + outcomes@.len() <= orig_outs.len(),
                retained_spec(orig_ws, orig_outs) == kept@ + retained_spec(
                    self.writers@,
                    outcomes@,
                ),
                suppress_count_spec(mode, orig_outs) == suppressed + suppress_count_spec(
                    mode,
                    outcomes@,
                ),
                diag_lines_spec(mode, orig_ws, orig_outs) == diags@.map_values(|s: String| s@)
                    + diag_lines_spec(mode, self.writers@, outcomes@),
                first_abort_spec(mode, orig_outs) == (match aborted {
                    Some(e) => Some(e),
                    None => first_abort_spec(mode, outcomes@),
                }),
            decreases self.writers@.len(),
        {
            let ghost prev_ws = self.writers@;
            let ghost prev_outs = outcomes@;
            let ghost prev_kept = kept@;
            let ghost prev_diags = diags@;
            let w = self.writers.remove(0);
            let o = outcomes.remove(0);
            match o {
                None => {
                    kept.push(w);
                    proof {
                        assert(kept@ =~= prev_kept + seq![prev_ws.first()]);
                        assert(retained_spec(orig_ws, orig_outs) =~= kept@ + retained_spec(
                            self.writers@,
                            outcomes@,
                        ));
                    }
                },
                Some(e) => {
                    let d = process_error(mode, e.kind);
                    if d.diagnose {
                        diags.push(make_diag_line(w.name(), e.message.as_str()));
                        proof {
                            assert(diags@.map_values(|s: String| s@) =~= prev_diags.map_values(
                                |s: String| s@,
                            ) + seq![diag_line_spec(prev_ws.first().spec_name(), e.message@)]);
                            assert(diag_lines_spec(mode, orig_ws, orig_outs)
                                =~= diags@.map_values(|s: String| s@) + diag_lines_spec(
                                mode,
                                self.writers@,
                                outcomes@,
                            ));
                        }
                    }
                    match d.action {
                        ErrorAction::Suppress => {
                            suppressed = suppressed + 1;
                        },
                        ErrorAction::Abort => {
                            if aborted.is_none() {
                                aborted = Some(e);
                            }
                        },
                    }
                },
            }
        }
        proof {
            assert(retained_spec(self.writers@, outcomes@) =~= Seq::<GenericWriter>::empty());
            assert(retained_spec(orig_ws, orig_outs) =~= kept@);
            assert(diag_lines_spec(mode, orig_ws, orig_outs) =~= diags@.map_values(
                |s: String| s@,
            ));
        }
        self.writers = kept;
        self.ignored_errors = self.ignored_errors + suppressed;
        let result: Result<usize, TeeError> = match aborted {
            Some(e) => Err(TeeError::Io(e)),
            None => {
                if self.writers.len() == 0 {
                    Err(TeeError::NoDestinationsRemain)
                } else {
                    Ok(len)
                }
            },
        };
        (result, diags)
    }

    /// Settles one broadcast flush, which follows the write protocol for
    /// removal, counting and diagnostics; a flush that meets no abort-class
    /// failure succeeds even when no sink is left.
    pub fn finish_flush(&mut self, outcomes: Vec<Option<SinkError>>) -> (r: (
        Result<(), TeeError>,
        Vec<String>,
    ))
        requires
            outcomes@.len() == old(self).writers@.len(),
            old(self).ignored_errors + outcomes@.len() <= usize::MAX,
        ensures
            final(self).output_error_mode == old(self).output_error_mode,
            final(self).writers@ == retained_spec(old(self).writers@, outcomes@),
            final(self).ignored_errors == old(self).ignored_errors + suppress_count_spec(
                old(self).output_error_mode,
                outcomes@,
            ),
            r.1@.map_values(|s: String| s@) == diag_lines_spec(
                old(self).output_error_mode,
                old(self).writers@,
                outcomes@,
            ),
            (match first_abort_spec(old(self).output_error_mode, outcomes@) {
                Some(e) => r.0 == Err::<(), TeeError>(TeeError::Io(e)),
                None => r.0 == Ok::<(), TeeError>(()),
            }),
    {
        let (res, diags) = self.finish_write(0, outcomes);
        let result: Result<(), TeeError> = match res {
            Err(TeeError::Io(e)) => Err(TeeError::Io(e)),
            _ => Ok(()),
        };
        (result, diags)
    }
}

/// A broadcast call keeps exactly as many sinks as had successful
/// outcomes: every failing sink is removed, whatever the policy decided
/// about the call's result.
pub proof fn lemma_retained_tracks_outcomes(ws: Seq<GenericWriter>, outs: Seq<Option<SinkError>>)
    requires
        ws.len() == outs.len(),
    ensures
        retained_spec(ws, outs).len() == count_ok_spec(outs),
    decreases ws.len(),
{
    if ws.len() > 0 {
        lemma_retained_tracks_outcomes(ws.drop_first(), outs.drop_first());
    }
}

/// A broadcast call in which every sink succeeds changes nothing: every
/// sink stays, nothing is suppressed or diagnosed, and no abort occurs —
/// so a write call after sinks were dropped still succeeds while at least
/// one sink remains.
pub proof fn lemma_all_ok_broadcast(
    mode: Option<OutputErrorMode>,
    ws: Seq<GenericWriter>,
    outs: Seq<Option<SinkError>>,
)
    requires
        ws.len() == outs.len(),
        forall|i: int| 0 <= i < outs.len() ==> outs[i] is None,
    ensures
        retained_spec(ws, outs) == ws,
        first_abort_spec(mode, outs) is None,
        suppress_count_spec(mode, outs) == 0,
        diag_lines_spec(mode, ws, outs) == Seq::<Seq<char>>::empty(),
    decreases ws.len(),
{
    if ws.len() == 0 {
        assert(retained_spec(ws, outs) =~= ws);
    } else {
        assert(outs[0] is None);
        lemma_all_ok_broadcast(mode, ws.drop_first(), outs.drop_first());
        assert(retained_spec(ws, outs) =~= ws);
    }
}

/// Under `Warn`, no failure ever aborts: every failing sink — a broken
/// pipe included — is suppressed, counted, diagnosed, and removed from all
/// future writes.
pub proof fn lemma_warn_never_aborts(outs: Seq<Option<SinkError>>)
    ensures
        first_abort_spec(Some(OutputErrorMode::Warn), outs) is None,
        suppress_count_spec(Some(OutputErrorMode::Warn), outs) + count_ok_spec(outs) == outs.len(),
        spec_process_error(Some(OutputErrorMode::Warn), WriteErrorKind::BrokenPipe) == (Decision {
            action: ErrorAction::Suppress,
            diagnose: true,
        }),
    decreases outs.len(),
{
    if outs.len() > 0 {
        lemma_warn_never_aborts(outs.drop_first());
    }
}

/// Under `Exit`, any failing sink — a broken pipe included — makes the
/// whole broadcast call fail; the failure reported is the first one in
/// sink order. (Every other sink is still offered the buffer in the same
/// call: the plan of `begin_write` covers all active sinks, and outcomes
/// are settled only afterwards.)
pub proof fn lemma_exit_any_failure_aborts(outs: Seq<Option<SinkError>>, i: int)
    requires
        0 <= i < outs.len(),
        outs[i] is Some,
    ensures
        first_abort_spec(Some(OutputErrorMode::Exit), outs) is Some,
    decreases outs.len(),
{
    if outs.first() is None {
        lemma_exit_any_failure_aborts(outs.drop_first(), i - 1);
    }
}

/// When every sink failed and the mode suppresses everything — `Warn`,
/// `WarnNoPipe`, or no mode at all — the call aborts on nothing and no
/// sink remains, so the broadcast write reports the "no destinations
/// remain" sentinel, which ends the copy loop early rather than being a
/// read-side failure.
pub proof fn lemma_no_destinations(
    mode: Option<OutputErrorMode>,
    ws: Seq<GenericWriter>,
    outs: Seq<Option<SinkError>>,
)
    requires
        ws.len() == outs.len(),
        forall|i: int| 0 <= i < outs.len() ==> outs[i] is Some,
        mode == Some(OutputErrorMode::Warn) || mode == Some(OutputErrorMode::WarnNoPipe) || mode
            is None,
    ensures
        first_abort_spec(mode, outs) is None,
        retained_spec(ws, outs) == Seq::<GenericWriter>::empty(),
    decreases ws.len(),
{
    if ws.len() > 0 {
        assert(outs[0] is Some);
        lemma_no_destinations(mode, ws.drop_first(), outs.drop_first());
    }
    assert(retained_spec(ws, outs) =~= Seq::<GenericWriter>::empty());
}

/// A broken pipe is suppressed in silence under the default (no mode),
/// `WarnNoPipe` and `ExitNoPipe`: no diagnostic line, no abort.
pub proof fn lemma_broken_pipe_silent(mode: Option<OutputErrorMode>)
    requires
        mode is None || mode == Some(OutputErrorMode::WarnNoPipe) || mode == Some(
            OutputErrorMode::ExitNoPipe,
        ),
    ensures
        spec_process_error(mode, WriteErrorKind::BrokenPipe) == (Decision {
            action: ErrorAction::Suppress,
            diagnose: false,
        }),
{
}

} // verus!
