//! Byte-string path logic: the safe directory name derived from a game's
//! display name, the partial file's name, and the check that confines an
//! archive entry under its destination directory.
//!
//! Names and relative paths are handled as UTF-8 bytes; the bytes looked
//! at — the separator, the dot, the space and the colon — are all ASCII,
//! which no multi-byte UTF-8 sequence contains, so replacing or rejecting
//! them byte-wise never tears a character apart.

use vstd::prelude::*;
use vstd::string::{StrSliceExecFns, StringSliceAdditionalSpecFns};

verus! {

pub const SLASH: u8 = 47;

pub const BACKSLASH: u8 = 92;

pub const COLON: u8 = 58;

pub const DOT: u8 = 46;

pub const SPACE: u8 = 32;

pub const UNDERSCORE: u8 = 95;

pub const NUL: u8 = 0;

/// The display name with every space turned into an underscore and every
/// colon dropped: the directory-safe form a game's files live under.
pub open spec fn sanitize_spec(s: Seq<u8>) -> Seq<u8>
    decreases s.len(),
{
    if s.len() == 0 {
        Seq::empty()
    } else {
        let rest = sanitize_spec(s.drop_last());
        if s.last() == COLON {
            rest
        } else if s.last() == SPACE {
            rest.push(UNDERSCORE)
        } else {
            rest.push(s.last())
        }
    }
}

/// Computes [`sanitize_spec`] of the name's UTF-8 bytes.
pub fn sanitize_name(name: &str) -> (r: Vec<u8>)
    ensures
        r@ == sanitize_spec(name.spec_bytes()),
{
    let bytes = name.as_bytes_vec();
    let n = bytes.len();
    let mut out: Vec<u8> = Vec::new();
    let mut k: usize = 0;
    while k < n
        invariant
            k <= n,
            n == bytes@.len(),
            bytes@ == name.spec_bytes(),
            out@ == sanitize_spec(bytes@.take(k as int)),
        decreases n - k,
    {
        let b = bytes[k];
        if b == COLON {
        } else if b == SPACE {
            out.push(UNDERSCORE);
        } else {
            out.push(b);
        }
        proof {
            assert(bytes@.take(k as int + 1).drop_last() =~= bytes@.take(k as int));
            assert(bytes@.take(k as int + 1).last() == bytes@[k as int]);
        }
        k += 1;
    }
    proof {
        assert(bytes@.take(n as int) =~= bytes@);
    }
    out
}

/// The suffix of the partial file's name.
pub open spec fn download_suffix() -> Seq<u8> {
    seq![DOT, 100u8, 111u8, 119u8, 110u8, 108u8, 111u8, 97u8, 100u8]
}

/// The name of the on-disk partial file for a game: the sanitized display
/// name with `.download` appended. Its presence and length is the sole
/// resume signal.
pub fn partial_file_name(name: &str) -> (r: Vec<u8>)
    ensures
        r@ == sanitize_spec(name.spec_bytes()) + download_suffix(),
{
    let mut out = sanitize_name(name);
    out.push(DOT);
    out.push(100);
    out.push(111);
    out.push(119);
    out.push(110);
    out.push(108);
    out.push(111);
    out.push(97);
    out.push(100);
    proof {
        assert(out@ =~= sanitize_spec(name.spec_bytes()) + download_suffix());
    }
    out
}

/// Whether position `i` starts a `..` path component.
pub open spec fn is_dotdot_at(p: Seq<u8>, i: int) -> bool {
    &&& 0 <= i
    &&& i + 2 <= p.len()
    &&& p[i] == DOT
    &&& p[i + 1] == DOT
    &&& (i == 0 || p[i - 1] == SLASH)
    &&& (i + 2 == p.len() || p[i + 2] == SLASH)
}

/// Whether a relative path stays strictly under the directory it is
/// resolved against: it is not empty, not absolute, carries no `..`
/// component, and holds none of the bytes that would let another platform
/// read it differently (a backslash, a drive colon, a stray NUL).
pub open spec fn is_safe_rel_path(p: Seq<u8>) -> bool {
    &&& p.len() > 0
    &&& p[0] != SLASH
    &&& forall|i: int|
        0 <= i < p.len() ==> #[trigger] p[i] != BACKSLASH && p[i] != COLON && p[i] != NUL
    &&& forall|i: int| !is_dotdot_at(p, i)
}

/// Computes [`is_safe_rel_path`].
pub fn is_safe_entry_name(name: &Vec<u8>) -> (r: bool)
    ensures
        r == is_safe_rel_path(name@),
{
    let n = name.len();
    if n == 0 {
        return false;
    }
    if name[0] == SLASH {
        return false;
    }
    let mut k: usize = 0;
    while k < n
        invariant
            k <= n,
            n == name@.len(),
            forall|j: int|
                0 <= j < k ==> #[trigger] name@[j] != BACKSLASH && name@[j] != COLON && name@[j]
                    != NUL,
            forall|j: int| 0 <= j < k ==> !is_dotdot_at(name@, j),
        decreases n - k,
    {
        let b = name[k];
        if b == BACKSLASH || b == COLON || b == NUL {
            return false;
        }
        if b == DOT && k + 1 < n && name[k + 1] == DOT {
            let starts_component = k == 0 || name[k - 1] == SLASH;
            let ends_component = k + 2 == n || name[k + 2] == SLASH;
            if starts_component && ends_component {
                proof {
                    assert(is_dotdot_at(name@, k as int));
                }
                return false;
            }
        }
        proof {
            assert(!is_dotdot_at(name@, k as int));
        }
        k += 1;
    }
    proof {
        assert forall|i: int| !is_dotdot_at(name@, i) by {
            if 0 <= i && i + 2 <= name@.len() {
                assert(!is_dotdot_at(name@, i));
            }
        }
    }
    true
}

/// Whether an entry name denotes a directory: archive convention ends
/// directory names with the separator.
pub open spec fn is_dir_name(p: Seq<u8>) -> bool {
    p.len() > 0 && p.last() == SLASH
}

/// Computes [`is_dir_name`].
pub fn ends_with_slash(name: &Vec<u8>) -> (r: bool)
    ensures
        r == is_dir_name(name@),
{
    let n = name.len();
    n > 0 && name[n - 1] == SLASH
}

} // verus!
