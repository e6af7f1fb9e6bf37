//! Composition of remote paths against the emulated working directory.
//!
//! The remote filesystem protocol has no server-tracked directory state, so
//! the SFTP front end keeps an optional base path and composes every path
//! onto it before sending it to the server. Composition is plain
//! concatenation with a single separator; there is no `.`/`..` resolution
//! and no other normalization.

use vstd::prelude::*;
use vstd::string::*;

verus! {

/// Whether a path is absolute, that is, begins with a separator.
pub open spec fn is_absolute(path: Seq<char>) -> bool {
    path.len() > 0 && path[0] == '/'
}

/// The composition of a path onto an optional base path:
/// without a base the path is used as given; with a base, an absolute path
/// replaces the base entirely, and any other path is appended to the base
/// with exactly one separator between them.
pub open spec fn joined_path(base: Option<Seq<char>>, path: Seq<char>) -> Seq<char> {
    match base {
        Option::None => path,
        Option::Some(b) => if is_absolute(path) {
            path
        } else if b.len() == 0 {
            path
        } else if b[b.len() - 1] == '/' {
            b + path
        } else {
            b + seq!['/'] + path
        },
    }
}

/// Composes a path onto an optional base path, as [`joined_path`] describes.
pub fn path_from_string(base: Option<&String>, path: &String) -> (r: String)
    ensures
        r@ == joined_path(
            match base {
                Option::None => Option::None,
                Option::Some(b) => Option::Some(b@),
            },
            path@,
        ),
{
    match base {
        Option::None => path.clone(),
        Option::Some(b) => {
            let p = path.as_str();
            let p_len = p.unicode_len();
            if p_len > 0 && p.get_char(0) == '/' {
                return path.clone();
            }
            let bs = b.as_str();
            let b_len = bs.unicode_len();
            if b_len == 0 {
                return path.clone();
            }
            let mut joined = b.clone();
            if bs.get_char(b_len - 1) != '/' {
                joined.append("/");
                proof {
                    reveal_strlit("/");
                    assert(joined@ =~= b@ + seq!['/']);
                }
            }
            joined.append(p);
            proof {
                if b@[b@.len() - 1] == '/' {
                    assert(joined@ =~= b@ + path@);
                } else {
                    assert(joined@ =~= b@ + seq!['/'] + path@);
                }
            }
            joined
        },
    }
}

} // verus!
