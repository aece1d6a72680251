use fuck_backslash::FuckBackslash;
use std::path::PathBuf;
use vstd::prelude::*;
use vstd::string::*;

use crate::config::opt_view;

verus! {

/// `rel` appended to `base` as `Path::join` does: an absolute `rel` replaces
/// `base`, and one separator stands between the two parts.
pub open spec fn joined(base: Seq<char>, rel: Seq<char>) -> Seq<char> {
    if rel.len() > 0 && rel[0] == '/' {
        rel
    } else if base.len() == 0 || base.last() == '/' {
        base + rel
    } else {
        base + seq!['/'] + rel
    }
}

/// `s` without its leading separators.
pub open spec fn skip_slashes(s: Seq<char>) -> Seq<char>
    decreases s.len(),
{
    if s.len() > 0 && s[0] == '/' {
        skip_slashes(s.drop_first())
    } else {
        s
    }
}

/// What follows the home marker of a path whose first component is `~`,
/// without the separators after the marker.
pub open spec fn tilde_rest(p: Seq<char>) -> Option<Seq<char>> {
    if p.len() >= 1 && p[0] == '~' && (p.len() == 1 || p[1] == '/') {
        Some(skip_slashes(p.subrange(1, p.len() as int)))
    } else {
        None
    }
}

proof fn lemma_skip_slashes_relative(s: Seq<char>)
    ensures
        skip_slashes(s).len() == 0 || skip_slashes(s)[0] != '/',
    decreases s.len(),
{
    if s.len() > 0 && s[0] == '/' {
        lemma_skip_slashes_relative(s.drop_first());
    }
}

/// The path with its home marker replaced by `home`, when both exist.
pub open spec fn expanded(p: Seq<char>, home: Option<Seq<char>>) -> Seq<char> {
    match (tilde_rest(p), home) {
        (Some(rest), Some(h)) => joined(h, rest),
        _ => p,
    }
}

/// Each backslash turned into a forward slash.
pub open spec fn forward_slashed(p: Seq<char>) -> Seq<char> {
    p.map_values(|c: char| if c == '\\' { '/' } else { c })
}

/// Joins `rel` onto `base` as a filesystem path.
pub fn join_path(base: &str, rel: &str) -> (r: String)
    ensures
        r@ == joined(base@, rel@),
{
    let rel_len = rel.unicode_len();
    if rel_len > 0 && rel.get_char(0) == '/' {
        return rel.to_owned();
    }
    let base_len = base.unicode_len();
    let mut r = base.to_owned();
    if base_len > 0 && base.get_char(base_len - 1) != '/' {
        r.append("/");
        proof {
            reveal_strlit("/");
        }
    }
    r.append(rel);
    proof {
        if !(base_len > 0 && base@.last() != '/') {
            assert(r@ == base@ + rel@);
        }
    }
    r
}

/// Replaces the leading `~` component of `path` by `home`; a path without
/// one, or a missing home, leaves it unchanged. An expanded path lies under
/// `home`.
pub fn expand_tilde_with(path: String, home: Option<String>) -> (r: String)
    ensures
        r@ == expanded(path@, opt_view(home)),
        tilde_rest(path@) is Some && home is Some ==> r@.len() >= home->0@.len() && r@.subrange(
            0,
            home->0@.len() as int,
        ) == home->0@,
{
    let n = path.unicode_len();
    if !(n >= 1 && path.get_char(0) == '~' && (n == 1 || path.get_char(1) == '/')) {
        return path;
    }
    let mut i: usize = 1;
    while i < n && path.get_char(i) == '/'
        invariant
            1 <= i <= n,
            n == path@.len(),
            skip_slashes(path@.subrange(1, n as int)) == skip_slashes(path@.subrange(i as int, n as int)),
        decreases n - i,
    {
        proof {
            assert(path@.subrange(i as int, n as int).drop_first() =~= path@.subrange(i + 1, n as int));
        }
        i = i + 1;
    }
    let rest = path.as_str().substring_char(i, n);
    proof {
        let t = path@.subrange(i as int, n as int);
        assert(t.len() == 0 || t[0] != '/');
        assert(skip_slashes(t) == t);
        lemma_skip_slashes_relative(path@.subrange(1, n as int));
    }
    match home {
        Some(h) => {
            let r = join_path(h.as_str(), rest);
            proof {
                let hv = h@;
                if hv.len() == 0 || hv.last() == '/' {
                    assert((hv + rest@).subrange(0, hv.len() as int) =~= hv);
                } else {
                    assert((hv + seq!['/'] + rest@).subrange(0, hv.len() as int) =~= hv);
                }
            }
            r
        },
        None => path,
    }
}

/// Relies on `fuck_backslash::FuckBackslash::fuck_backslash` for `PathBuf`:
/// it replaces every `\` byte of the path by `/` and keeps the others.
#[verifier::external_body]
pub(crate) fn normalize_separators(p: String) -> (r: String)
    ensures
        r@ == forward_slashed(p@),
{
    PathBuf::from(p).fuck_backslash().to_string_lossy().into_owned()
}

/// Relies on `home::home_dir`: the current user's home directory, if the
/// environment and the system give one.
#[verifier::external_body]
pub(crate) fn home_directory() -> (r: Option<String>) {
    home::home_dir().map(|p| p.to_string_lossy().into_owned())
}

/// Replaces a leading home marker of `path` by the current user's home
/// directory; a path without one is returned unchanged.
pub fn expand_tilde(path: String) -> (r: String)
    ensures
        tilde_rest(path@) is None ==> r@ == path@,
        exists|h: Option<Seq<char>>| r@ == expanded(path@, h),
{
    let home = home_directory();
    let r = expand_tilde_with(path, home);
    proof {
        assert(r@ == expanded(path@, opt_view(home)));
    }
    r
}

} // verus!
