use vstd::prelude::*;

verus! {

/// A pass-through sink: it wraps exactly one always-open destination (for
/// example the process's standard output) and never rotates. The open
/// destination handle itself lives with the surrounding program; the
/// library keeps the sink's identity, a fixed diagnostic label used only
/// in messages, never for equality or lookup.
pub struct SingleWriter {
    pub name: String,
}

} // verus!
