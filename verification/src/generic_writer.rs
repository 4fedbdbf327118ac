use crate::rotating_writer::RotatingWriter;
use crate::single_writer::SingleWriter;
use vstd::prelude::*;

verus! {

/// A writable endpoint of the broadcaster: either a pass-through sink or a
/// rotating file sink. The set of sink kinds is closed; no third kind is
/// ever added.
pub enum GenericWriter {
    Single(SingleWriter),
    Rotating(RotatingWriter),
}

impl GenericWriter {
    /// The sink's diagnostic label.
    pub open spec fn spec_name(&self) -> Seq<char> {
        match self {
            GenericWriter::Single(w) => w.name@,
            GenericWriter::Rotating(w) => w.name@,
        }
    }

    /// The sink's diagnostic label, used in messages only, never for
    /// equality or lookup.
    pub fn name(&self) -> (r: &str)
        ensures
            r@ == self.spec_name(),
    {
        match self {
            GenericWriter::Single(w) => w.name.as_str(),
            GenericWriter::Rotating(w) => w.name.as_str(),
        }
    }
}

} // verus!
