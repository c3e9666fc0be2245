//! Deriving the three tier paths from the portal configuration path.
//!
//! The portal path is the most specific tier. Its directory holds the
//! server tier as `all.toml`; the directory above that holds the default
//! tier as `default.toml`. The portal name is the portal file's base name
//! without its extension. This is pure path arithmetic over the `/`
//! separator, with no filesystem access.

use vstd::prelude::*;
use vstd::string::StrSliceExecFns;
use vstd::string::StringExecFns;

use crate::cfg::ConfigView;
use crate::error::PathError;
use crate::resolve::resolve_spec;

verus! {

/// The index of the last occurrence of `c` in `s`, or -1 when `c` does not
/// occur.
pub open spec fn last_index_of(s: Seq<char>, c: char) -> int
    decreases s.len(),
{
    if s.len() == 0 {
        -1
    } else if s[s.len() - 1] == c {
        s.len() - 1
    } else {
        last_index_of(s.drop_last(), c)
    }
}

/// Extending the scanned prefix by one character either moves the last
/// occurrence to the new position or leaves it where it was.
proof fn lemma_last_index_step(s: Seq<char>, c: char, j: int)
    requires
        0 <= j < s.len(),
    ensures
        last_index_of(s.take(j + 1), c) == (if s[j] == c {
            j
        } else {
            last_index_of(s.take(j), c)
        }),
{
    assert(s.take(j + 1).drop_last() =~= s.take(j));
}

/// The part of `s` after its last `/`, or all of `s` when it has none.
pub open spec fn file_part(s: Seq<char>) -> Seq<char> {
    s.subrange(last_index_of(s, '/') + 1, s.len() as int)
}

/// The base name without its extension: everything before the last `.`,
/// except that a name whose only `.` leads it (or that has none) is kept
/// whole.
pub open spec fn stem_of(name: Seq<char>) -> Seq<char> {
    let d = last_index_of(name, '.');
    if d <= 0 {
        name
    } else {
        name.subrange(0, d)
    }
}

/// The three derived values: the server-tier path, the default-tier path,
/// and the portal name.
#[derive(Debug, Clone)]
pub struct TierPaths {
    pub server_path: String,
    pub default_path: String,
    pub portal_name: String,
}

/// Mathematical model of a [`TierPaths`].
#[verifier::ext_equal]
pub struct TierPathsView {
    pub server_path: Seq<char>,
    pub default_path: Seq<char>,
    pub portal_name: Seq<char>,
}

impl View for TierPaths {
    type V = TierPathsView;

    open spec fn view(&self) -> TierPathsView {
        TierPathsView {
            server_path: self.server_path@,
            default_path: self.default_path@,
            portal_name: self.portal_name@,
        }
    }
}

/// Path derivation. The portal path must carry a base name, a parent
/// directory, and a directory above that; the server tier sits beside the
/// portal file, the default tier beside the portal file's directory.
pub open spec fn derive_paths_spec(s: Seq<char>) -> Result<TierPathsView, PathError> {
    let i = last_index_of(s, '/');
    if file_part(s).len() == 0 {
        Err(PathError::MissingBaseName)
    } else if i == -1 {
        Err(PathError::MissingParent)
    } else if i == 0 {
        Err(PathError::MissingGrandparent)
    } else {
        let k = last_index_of(s.subrange(0, i), '/');
        Ok(
            TierPathsView {
                server_path: s.subrange(0, i) + "/all.toml"@,
                default_path: if k >= 0 {
                    s.subrange(0, k) + "/default.toml"@
                } else {
                    "default.toml"@
                },
                portal_name: stem_of(file_part(s)),
            },
        )
    }
}

/// The position of the last occurrence of `c` in `s`, if any.
fn find_last_char(s: &str, c: char) -> (r: Option<usize>)
    ensures
        (match r {
            Some(i) => i < s@.len() && last_index_of(s@, c) == i as int,
            None => last_index_of(s@, c) == -1,
        }),
{
    let n = s.unicode_len();
    let mut j: usize = 0;
    let mut found: Option<usize> = None;
    while j < n
        invariant
            j <= n,
            n == s@.len(),
            (match found {
                Some(i) => i < j && last_index_of(s@.take(j as int), c) == i as int,
                None => last_index_of(s@.take(j as int), c) == -1,
            }),
        decreases n - j,
    {
        let ch = s.get_char(j);
        proof {
            lemma_last_index_step(s@, c, j as int);
        }
        if ch == c {
            found = Some(j);
        }
        j = j + 1;
    }
    proof {
        assert(s@.take(n as int) =~= s@);
    }
    found
}

/// Derives the server-tier path, the default-tier path and the portal name
/// from the portal configuration path, or reports what the path lacked.
pub fn derive_tier_paths(portal_path: &str) -> (r: Result<TierPaths, PathError>)
    ensures
        (match r {
            Ok(tp) => derive_paths_spec(portal_path@) == Ok::<TierPathsView, PathError>(tp@),
            Err(e) => derive_paths_spec(portal_path@) == Err::<TierPathsView, PathError>(e),
        }),
{
    let n = portal_path.unicode_len();
    let slash = find_last_char(portal_path, '/');
    let file_start: usize = match slash {
        Some(i) => i + 1,
        None => 0,
    };
    let file = portal_path.substring_char(file_start, n);
    if file.unicode_len() == 0 {
        return Err(PathError::MissingBaseName);
    }
    let i = match slash {
        Some(i) => i,
        None => {
            return Err(PathError::MissingParent);
        },
    };
    if i == 0 {
        return Err(PathError::MissingGrandparent);
    }
    let portal_name = match find_last_char(file, '.') {
        Some(d) => {
            if d > 0 {
                String::from_str(file.substring_char(0, d))
            } else {
                String::from_str(file)
            }
        },
        None => String::from_str(file),
    };
    let parent = portal_path.substring_char(0, i);
    let server_path = String::from_str(parent).concat("/all.toml");
    let default_path = match find_last_char(parent, '/') {
        Some(k) => String::from_str(portal_path.substring_char(0, k)).concat("/default.toml"),
        None => String::from_str("default.toml"),
    };
    Ok(TierPaths { server_path, default_path, portal_name })
}

/// Profile name derivation: a resolution that succeeds under the portal
/// name a successful path derivation produced carries the portal path's
/// base name, without its extension, verbatim — whatever the documents
/// hold.
pub proof fn lemma_profile_name_derivation(path: Seq<char>, c: ConfigView, tp: TierPathsView)
    requires
        derive_paths_spec(path) == Ok::<TierPathsView, PathError>(tp),
        resolve_spec(c, tp.portal_name) is Ok,
    ensures
        resolve_spec(c, tp.portal_name) matches Ok(rv) && rv.bot.portal == stem_of(file_part(path)),
{
}

} // verus!
