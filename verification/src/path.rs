//! Logical object identifiers.

use vstd::prelude::*;

verus! {

/// A normalized, slash-separated logical object identifier. Immutable once
/// constructed; equality is structural.
#[derive(Debug)]
pub struct Path {
    pub raw: String,
}

impl View for Path {
    type V = Seq<char>;

    open spec fn view(&self) -> Seq<char> {
        self.raw@
    }
}

impl Path {
    /// Wrap an already-normalized identifier.
    pub fn from(s: &str) -> (p: Path)
        ensures
            p@ == s@,
    {
        Path { raw: s.to_owned() }
    }

    pub fn as_str(&self) -> (r: &str)
        ensures
            r@ == self@,
    {
        self.raw.as_str()
    }
}

impl PartialEq for Path {
    fn eq(&self, other: &Path) -> (r: bool) {
        self.raw == other.raw
    }
}

impl vstd::std_specs::cmp::PartialEqSpecImpl for Path {
    open spec fn obeys_eq_spec() -> bool {
        true
    }

    open spec fn eq_spec(&self, other: &Path) -> bool {
        self.raw@ == other.raw@
    }
}

} // verus!
