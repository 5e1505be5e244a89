//! Joining relative paths onto the autorun root and stripping the root back
//! off. Paths are modelled as their character sequences; a join inserts a
//! single `/` separator.

use vstd::prelude::*;
use vstd::string::StrSliceExecFns;
use vstd::string::StringExecFns;

verus! {

/// Directory for captured/dumped script output, relative to the autorun root.
pub const DUMP_DIR: &'static str = "lua_dumps";

/// Directory for log files, relative to the autorun root.
pub const LOG_DIR: &'static str = "logs";

/// Directory for user-authored scripts, relative to the autorun root.
pub const INCLUDE_DIR: &'static str = "scripts";

/// Directory for loadable plugin files, relative to the autorun root.
pub const PLUGIN_DIR: &'static str = "plugins";

/// Directory for executable/binary assets, relative to the autorun root.
pub const BIN_DIR: &'static str = "bin";

/// The entry-point script, relative to the autorun root.
pub const AUTORUN_PATH: &'static str = "autorun.lua";

/// The hook-injection script, relative to the autorun root.
pub const HOOK_PATH: &'static str = "hook.lua";

/// The configuration file, relative to the autorun root.
pub const SETTINGS_PATH: &'static str = "settings.toml";

/// Joining a relative path onto a base path: the base, one `/` separator,
/// then the relative part.
pub open spec fn join_seq(base: Seq<char>, rel: Seq<char>) -> Seq<char> {
    base + "/"@ + rel
}

/// The autorun root derived from a home directory: `<home>/autorun`.
pub open spec fn base_seq(home: Seq<char>) -> Seq<char> {
    join_seq(home, "autorun"@)
}

/// A relative path resolved against the autorun root of the given home
/// directory: `<home>/autorun/<rel>`.
pub open spec fn in_autorun_seq(home: Seq<char>, rel: Seq<char>) -> Seq<char> {
    join_seq(base_seq(home), rel)
}

/// Joins a relative path onto a base path with a single `/` separator.
pub fn join(base: &str, rel: &str) -> (r: String)
    ensures
        r@ == join_seq(base@, rel@),
{
    let mut s = base.to_owned();
    s.append("/");
    s.append(rel);
    proof {
        assert(s@ =~= join_seq(base@, rel@));
    }
    s
}

/// The autorun root under the given home directory: `<home>/autorun`.
pub fn base(home: &str) -> (r: String)
    ensures
        r@ == base_seq(home@),
{
    join(home, "autorun")
}

/// Resolves a root-relative path to its absolute form under the autorun root
/// of the given home directory.
pub fn in_autorun(home: &str, path: &str) -> (r: String)
    ensures
        r@ == in_autorun_seq(home@, path@),
{
    let b = base(home);
    join(b.as_str(), path)
}

/// Resolving a path under the autorun root is the same as joining it onto the
/// base, and the base is the home directory joined with `autorun`.
pub proof fn lemma_autorun_layout(home: Seq<char>, path: Seq<char>)
    ensures
        in_autorun_seq(home, path) == join_seq(base_seq(home), path),
        base_seq(home) == join_seq(home, "autorun"@),
{
}

/// An absolute path lies strictly under a base path: it starts with the base,
/// followed by a `/` separator and at least the empty remainder.
pub open spec fn under_base(abs: Seq<char>, base: Seq<char>) -> bool {
    &&& abs.len() > base.len()
    &&& abs.subrange(0, base.len() as int) == base
    &&& abs[base.len() as int] == '/'
}

/// What is left of an absolute path once the base prefix and the separator
/// are stripped off. Meaningful only when `under_base(abs, base)` holds.
pub open spec fn rest_of(abs: Seq<char>, base: Seq<char>) -> Seq<char> {
    abs.subrange(base.len() as int + 1, abs.len() as int)
}

/// The root-relative form of a filesystem-derived path: the part after the
/// base prefix where the path lies under the base, and the path unchanged
/// otherwise (the defensive fallback for entries that escape the root).
pub open spec fn relativize_seq(abs: Seq<char>, base: Seq<char>) -> Seq<char> {
    if under_base(abs, base) {
        rest_of(abs, base)
    } else {
        abs
    }
}

/// Character-by-character string equality.
pub fn str_eq(a: &str, b: &str) -> (r: bool)
    ensures
        r == (a@ == b@),
{
    let a_len = a.unicode_len();
    let b_len = b.unicode_len();
    if a_len != b_len {
        return false;
    }
    let mut i: usize = 0;
    while i < a_len
        invariant
            i <= a_len,
            a_len == a@.len(),
            a_len == b@.len(),
            forall|j: int| 0 <= j < i ==> a@[j] == b@[j],
        decreases a_len - i,
    {
        if a.get_char(i) != b.get_char(i) {
            return false;
        }
        i += 1;
    }
    proof {
        assert(a@ =~= b@);
    }
    true
}

/// Strips the base prefix (and the separator after it) off an absolute path,
/// returning the root-relative remainder; `None` when the path does not lie
/// strictly under the base.
pub fn strip_base(abs: &str, base: &str) -> (r: Option<String>)
    ensures
        match r {
            Some(rel) => under_base(abs@, base@) && rel@ == rest_of(abs@, base@),
            None => !under_base(abs@, base@),
        },
{
    let abs_len = abs.unicode_len();
    let base_len = base.unicode_len();
    if abs_len <= base_len {
        return None;
    }
    if abs.get_char(base_len) != '/' {
        return None;
    }
    let prefix = abs.substring_char(0, base_len);
    if !str_eq(prefix, base) {
        return None;
    }
    let rest = abs.substring_char(base_len + 1, abs_len);
    Some(rest.to_owned())
}

/// The root-relative form of a filesystem-derived absolute path: the base
/// prefix is stripped where the path lies under the base; a path that does
/// not (for example an entry reached through a link that escapes the root)
/// is handed back unchanged rather than rejected.
pub fn relativize(abs: &str, base: &str) -> (r: String)
    ensures
        r@ == relativize_seq(abs@, base@),
{
    match strip_base(abs, base) {
        Some(rel) => rel,
        None => abs.to_owned(),
    }
}

/// Stripping the base off a path that lies under it and joining the
/// remainder back onto the base reproduces the path.
pub proof fn lemma_strip_then_join(abs: Seq<char>, base: Seq<char>)
    requires
        under_base(abs, base),
    ensures
        join_seq(base, rest_of(abs, base)) == abs,
{
    reveal_strlit("/");
    assert forall|j: int| 0 <= j < base.len() implies base[j] == abs[j] by {
        assert(abs.subrange(0, base.len() as int)[j] == abs[j]);
    }
    assert(join_seq(base, rest_of(abs, base)) =~= abs);
}

/// Joining a relative path onto a base and stripping the base back off
/// returns the relative path: the base prefix is recovered exactly.
pub proof fn lemma_join_then_strip(base: Seq<char>, rel: Seq<char>)
    ensures
        under_base(join_seq(base, rel), base),
        rest_of(join_seq(base, rel), base) == rel,
{
    reveal_strlit("/");
    let abs = join_seq(base, rel);
    assert(abs.subrange(0, base.len() as int) =~= base);
    assert(rest_of(abs, base) =~= rel);
}

/// Relativizing a path that lies under the base and resolving it back
/// through a join reproduces the original absolute path.
pub proof fn lemma_relativize_round_trip(abs: Seq<char>, base: Seq<char>)
    requires
        under_base(abs, base),
    ensures
        join_seq(base, relativize_seq(abs, base)) == abs,
{
    lemma_strip_then_join(abs, base);
}

} // verus!
