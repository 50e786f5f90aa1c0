//! Flagged command-line argument pairing.
//!
//! The surrounding program takes its input file and account name as flagged
//! argument pairs. The pairing rule lives here: the argument at a position
//! must be the short or the long form of the expected flag, and its value
//! must follow it; anything else is a usage error.

use vstd::prelude::*;

verus! {

/// The error for argument lists that do not follow the expected usage.
#[derive(Clone, Copy, PartialEq, Eq, Structural, Debug)]
pub struct UsageError;

/// Whether two strings hold the same characters.
pub fn str_eq(a: &str, b: &str) -> (r: bool)
    ensures
        r == (a@ == b@),
{
    let na = a.unicode_len();
    let nb = b.unicode_len();
    if na != nb {
        return false;
    }
    let mut i: usize = 0;
    while i < na
        invariant
            na == a@.len(),
            nb == b@.len(),
            na == nb,
            i <= na,
            forall|j: int| 0 <= j < i ==> a@[j] == b@[j],
        decreases na - i,
    {
        if a.get_char(i) != b.get_char(i) {
            return false;
        }
        i = i + 1;
    }
    proof {
        assert(a@ =~= b@);
    }
    true
}

/// The value of the flagged pair at position `i` of the argument list:
/// present exactly when the flag there is the short or the long form and a
/// value follows it.
pub open spec fn spec_expect_arg(
    short: Seq<char>,
    long: Seq<char>,
    args: Seq<Seq<char>>,
    i: int,
) -> Option<Seq<char>> {
    if 0 <= i && i + 1 < args.len() && (args[i] == short || args[i] == long) {
        Some(args[i + 1])
    } else {
        None
    }
}

/// Reads the flagged argument pair at position `i`: the flag must be the
/// short or the long form, and the returned value is the argument after it.
pub fn expect_arg(arg_short: &str, arg_long: &str, args: &Vec<String>, i: usize) -> (r: Result<
    String,
    UsageError,
>)
    ensures
        match r {
            Ok(v) => spec_expect_arg(arg_short@, arg_long@, args.deep_view(), i as int) == Some(
                v@,
            ),
            Err(_) => spec_expect_arg(arg_short@, arg_long@, args.deep_view(), i as int) is None,
        },
{
    if i >= args.len() {
        return Err(UsageError);
    }
    let flag = &args[i];
    proof {
        assert(args.deep_view()[i as int] == args@[i as int]@);
    }
    if str_eq(flag.as_str(), arg_short) || str_eq(flag.as_str(), arg_long) {
        if i + 1 < args.len() {
            let value = args[i + 1].clone();
            proof {
                assert(args.deep_view()[i as int + 1] == args@[i as int + 1]@);
            }
            Ok(value)
        } else {
            Err(UsageError)
        }
    } else {
        Err(UsageError)
    }
}

} // verus!
