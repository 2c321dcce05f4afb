//! Relative-path computation between the chroot-like root directory and the
//! project directory nested under it.
//!
//! The project directory's location relative to the root is obtained by
//! removing the root prefix, stripping one leading separator if present,
//! and canonicalizing every remaining platform separator to `'/'`.

use vstd::prelude::*;
use vstd::string::*;
use crate::ProjectError;

verus! {

/// The canonical form of one character: the platform separator becomes
/// `'/'`, everything else is unchanged.
pub open spec fn canonical_char(c: char, sep: char) -> char {
    if c == sep {
        '/'
    } else {
        c
    }
}

/// Whether `prefix` is literally the start of `s`.
pub open spec fn starts_with(s: Seq<char>, prefix: Seq<char>) -> bool {
    prefix.len() <= s.len() && s.take(prefix.len() as int) == prefix
}

/// `s` without one leading separator, if it carries one.
pub open spec fn strip_leading_sep(s: Seq<char>, sep: char) -> Seq<char> {
    if s.len() > 0 && s[0] == sep {
        s.skip(1)
    } else {
        s
    }
}

/// The project directory relative to the root: the root prefix removed, a
/// leading separator stripped, every separator canonicalized to `'/'`.
pub open spec fn relative_path_spec(root: Seq<char>, project: Seq<char>, sep: char) -> Seq<char> {
    strip_leading_sep(project.skip(root.len() as int), sep).map_values(
        |c: char| canonical_char(c, sep),
    )
}

/// Relies on std's `String::push`: appends one character.
#[verifier::external_body]
fn push_char(s: &mut String, c: char)
    ensures
        final(s)@ == old(s)@.push(c),
{
    s.push(c);
}

/// Whether `prefix` is literally the start of `s`.
fn str_starts_with(s: &str, prefix: &str) -> (r: bool)
    ensures
        r == starts_with(s@, prefix@),
{
    let n = prefix.unicode_len();
    if n > s.unicode_len() {
        return false;
    }
    let mut i: usize = 0;
    while i < n
        invariant
            i <= n,
            n == prefix@.len(),
            n <= s@.len(),
            forall|j: int| 0 <= j < i ==> s@[j] == prefix@[j],
        decreases n - i,
    {
        if s.get_char(i) != prefix.get_char(i) {
            proof {
                if starts_with(s@, prefix@) {
                    assert(s@.take(n as int)[i as int] == s@[i as int]);
                    assert(false);
                }
            }
            return false;
        }
        i += 1;
    }
    proof {
        assert(s@.take(n as int) =~= prefix@);
    }
    true
}

/// Replace every occurrence of the platform separator with the canonical
/// `'/'`.
fn canonicalize_separators(s: &str, sep: char) -> (r: String)
    ensures
        r@ == s@.map_values(|c: char| canonical_char(c, sep)),
{
    let n = s.unicode_len();
    let mut out = String::new();
    let mut i: usize = 0;
    while i < n
        invariant
            i <= n,
            n == s@.len(),
            out@.len() == i,
            forall|k: int| 0 <= k < i ==> out@[k] == canonical_char(s@[k], sep),
        decreases n - i,
    {
        let c = s.get_char(i);
        if c == sep {
            push_char(&mut out, '/');
        } else {
            push_char(&mut out, c);
        }
        i += 1;
    }
    proof {
        assert(out@ =~= s@.map_values(|c: char| canonical_char(c, sep)));
    }
    out
}

/// Compute `project_path`'s location relative to `root_path`, for paths
/// written with the platform separator `sep`. Fails exactly when
/// `project_path` does not literally begin with `root_path`.
pub fn project_relative_path(root_path: &str, project_path: &str, sep: char) -> (r: Result<
    String,
    ProjectError,
>)
    ensures
        match r {
            Ok(p) => starts_with(project_path@, root_path@) && p@ == relative_path_spec(
                root_path@,
                project_path@,
                sep,
            ),
            Err(e) => !starts_with(project_path@, root_path@) && e == ProjectError::Path,
        },
{
    if !str_starts_with(project_path, root_path) {
        return Err(ProjectError::Path);
    }
    let rn = root_path.unicode_len();
    let pn = project_path.unicode_len();
    let rel = project_path.substring_char(rn, pn);
    proof {
        assert(rel@ =~= project_path@.skip(rn as int));
    }
    let rel_len = rel.unicode_len();
    let stripped = if rel_len > 0 && rel.get_char(0) == sep {
        let t = rel.substring_char(1, rel_len);
        proof {
            assert(t@ =~= rel@.skip(1));
        }
        t
    } else {
        rel
    };
    proof {
        assert(stripped@ == strip_leading_sep(project_path@.skip(rn as int), sep));
    }
    Ok(canonicalize_separators(stripped, sep))
}

} // verus!
