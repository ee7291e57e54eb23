//! The editing buffer for a magnitude's significand/exponent pair.
//!
//! Magnitudes themselves are floating significand/exponent pairs and
//! live with the host; what the core holds is the text being edited.
//! Parsing that text back into a magnitude is the host's concern, and a
//! failed parse discards the edit and leaves the committed value alone.

use vstd::prelude::*;

verus! {

/// The in-progress text of a significand and an exponent field.
#[derive(Clone)]
pub struct ENumberEditor {
    pub editing: bool,
    pub significand: String,
    pub exponent: String,
}

impl Default for ENumberEditor {
    /// An editor at rest: not editing, both fields empty.
    fn default() -> (r: Self)
        ensures
            !r.editing,
            r.significand@ == Seq::<char>::empty(),
            r.exponent@ == Seq::<char>::empty(),
    {
        ENumberEditor { editing: false, significand: String::new(), exponent: String::new() }
    }
}

impl ENumberEditor {
    /// Begin an edit, seeding both fields with the committed value's
    /// rendered text.
    pub fn begin(significand: String, exponent: String) -> (r: Self)
        ensures
            r.editing,
            r.significand@ == significand@,
            r.exponent@ == exponent@,
    {
        ENumberEditor { editing: true, significand, exponent }
    }

    /// End the edit, keeping whatever text the fields hold.
    pub fn finish(&mut self)
        ensures
            !final(self).editing,
            final(self).significand@ == old(self).significand@,
            final(self).exponent@ == old(self).exponent@,
    {
        self.editing = false;
    }
}

} // verus!
