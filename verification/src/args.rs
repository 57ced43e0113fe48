//! Reading the serving directory off the command line.
//!
//! The argument list is scanned for the case-insensitive flag
//! `--directory`; the argument after the flag's last occurrence is
//! the directory.  A flag with nothing after it leaves the directory
//! unset, even when an earlier occurrence had set it, and the value
//! taken by one flag is never itself read as a flag.

use vstd::prelude::*;

verus! {

use crate::bytes::{eq_bytes, lower_bytes, spec_lower};
use crate::tokens::{dir_flag_bytes, sp_dir_flag};
use vstd::utf8::encode_utf8;

/// The argument names the directory flag, letter case aside.
pub open spec fn sp_is_flag(arg: Seq<char>) -> bool {
    spec_lower(encode_utf8(arg)) == sp_dir_flag()
}

/// The scan of an argument tail: `None` when it holds no flag, and
/// otherwise the directory the tail leaves behind, which is `None`
/// again for a trailing flag with no value after it.
pub open spec fn sp_scan(args: Seq<Seq<char>>) -> Option<Option<Seq<char>>>
    decreases args.len(),
{
    if args.len() == 0 {
        None
    } else if sp_is_flag(args[0]) {
        if args.len() == 1 {
            Some(None)
        } else {
            match sp_scan(args.skip(2)) {
                Some(later) => Some(later),
                None => Some(Some(args[1])),
            }
        }
    } else {
        sp_scan(args.skip(1))
    }
}

/// The directory an argument list configures, if any.
pub open spec fn sp_directory_from_args(args: Seq<Seq<char>>) -> Option<Seq<char>> {
    match sp_scan(args) {
        Some(dir) => dir,
        None => None,
    }
}

/// The view of an optional directory value.
pub open spec fn sp_opt_dir(dir: Option<String>) -> Option<Seq<char>> {
    match dir {
        Some(d) => Some(d@),
        None => None,
    }
}

/// Scan the whole argument list (program name included, as handed to
/// the process) for the directory flag.
pub fn directory_from_args(args: &Vec<String>) -> (r: Option<String>)
    ensures
        sp_opt_dir(r) == sp_directory_from_args(args.deep_view()),
{
    let flag = dir_flag_bytes();
    let mut dir: Option<String> = None;
    let mut i: usize = 0;
    proof {
        assert(args.deep_view().skip(0) == args.deep_view());
    }
    while i < args.len()
        invariant
            i <= args@.len(),
            args.deep_view().len() == args@.len(),
            flag@ == sp_dir_flag(),
            sp_directory_from_args(args.deep_view()) == (match sp_scan(
                args.deep_view().skip(i as int),
            ) {
                Some(later) => later,
                None => sp_opt_dir(dir),
            }),
        decreases args@.len() - i,
    {
        let ghost tail = args.deep_view().skip(i as int);
        let lowered = lower_bytes(args[i].as_str().as_bytes());
        proof {
            assert(args.deep_view()[i as int] == args@[i as int]@);
            assert(tail[0] == args.deep_view()[i as int]);
        }
        if eq_bytes(lowered.as_slice(), flag.as_slice()) {
            proof {
                assert(sp_is_flag(tail[0]));
            }
            if i + 1 < args.len() {
                proof {
                    assert(tail.len() >= 2);
                    assert(tail.skip(2) =~= args.deep_view().skip(i + 2));
                    assert(tail[1] == args.deep_view()[i + 1]);
                    assert(args.deep_view()[i + 1] == args@[i + 1]@);
                }
                dir = Some(args[i + 1].as_str().to_owned());
                i += 2;
            } else {
                proof {
                    assert(tail.len() == 1);
                }
                dir = None;
                i += 1;
                proof {
                    assert(args.deep_view().skip(i as int).len() == 0);
                }
            }
        } else {
            proof {
                assert(!sp_is_flag(tail[0]));
                assert(tail.skip(1) =~= args.deep_view().skip(i + 1));
            }
            i += 1;
        }
    }
    proof {
        assert(args.deep_view().skip(i as int).len() == 0);
    }
    dir
}

} // verus!
