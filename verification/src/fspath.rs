//! The root-relative path type: the only path representation handed across
//! the module boundary by directory and file operations.

use vstd::prelude::*;
use crate::paths::base_seq;
use crate::paths::in_autorun;
use crate::paths::in_autorun_seq;
use crate::paths::join_seq;
use crate::paths::lemma_relativize_round_trip;
use crate::paths::relativize;
use crate::paths::relativize_seq;
use crate::paths::under_base;

verus! {

/// A path interpreted as relative to the autorun root. The wrapped value
/// never carries the base-path prefix when it was produced by this crate's
/// own relativization; construction itself does not validate, the producer
/// of the value is responsible for handing in an already-relative path.
#[derive(Debug, Hash)]
pub struct FSPath {
    path: String,
}

impl View for FSPath {
    type V = Seq<char>;

    closed spec fn view(&self) -> Seq<char> {
        self.path@
    }
}

impl FSPath {
    /// Wraps an already root-relative path. No validation or stripping is
    /// performed here.
    pub fn new(path: String) -> (r: FSPath)
        ensures
            r@ == path@,
    {
        FSPath { path }
    }

    /// The underlying path, for joins and display.
    pub fn as_str(&self) -> (r: &str)
        ensures
            r@ == self@,
    {
        self.path.as_str()
    }

    /// Gives the underlying path back as an owned string.
    pub fn into_string(self) -> (r: String)
        ensures
            r@ == self@,
    {
        self.path
    }

    /// Builds the root-relative form of a filesystem-derived absolute path:
    /// the base prefix is stripped where the path lies under the base, and
    /// the path is kept unchanged otherwise.
    pub fn from_absolute(abs: &str, base: &str) -> (r: FSPath)
        ensures
            r@ == relativize_seq(abs@, base@),
    {
        FSPath { path: relativize(abs, base) }
    }

    /// Resolves this path to its absolute form under the autorun root of the
    /// given home directory.
    pub fn resolve(&self, home: &str) -> (r: String)
        ensures
            r@ == in_autorun_seq(home@, self@),
    {
        in_autorun(home, self.path.as_str())
    }
}

impl Clone for FSPath {
    /// A clone denotes the same relative path.
    fn clone(&self) -> (r: FSPath)
        ensures
            r@ == self@,
    {
        FSPath { path: self.path.clone() }
    }
}

impl PartialEq for FSPath {
    fn eq(&self, other: &FSPath) -> (r: bool)
        ensures
            r == (self@ == other@),
    {
        self.path == other.path
    }
}

impl vstd::std_specs::cmp::PartialEqSpecImpl for FSPath {
    open spec fn obeys_eq_spec() -> bool {
        true
    }

    open spec fn eq_spec(&self, other: &FSPath) -> bool {
        self@ == other@
    }
}

impl Eq for FSPath {

}

/// Any absolute path that lies under an autorun base resolves back to itself
/// after relativization: building an `FSPath` from it and rejoining through
/// the base reproduces the absolute path.
pub proof fn lemma_fspath_round_trip(abs: Seq<char>, home: Seq<char>)
    requires
        under_base(abs, base_seq(home)),
    ensures
        in_autorun_seq(home, relativize_seq(abs, base_seq(home))) == abs,
{
    lemma_relativize_round_trip(abs, base_seq(home));
}

} // verus!
