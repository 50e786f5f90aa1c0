//! Instrument symbol normalization.
//!
//! Two independent rules apply to a raw ticker symbol. For account-path
//! segments every `.` character is stripped, since a dot is invalid inside a
//! ledger account-path segment. For the traded-amount unit symbol only, a
//! one-character ticker is doubled to two characters, working around the
//! ledger text format's single-character-unit ambiguity; the account path
//! never doubles.

use vstd::prelude::*;

verus! {

/// `s` with every `.` character removed.
pub open spec fn spec_strip_dots(s: Seq<char>) -> Seq<char>
    decreases s.len(),
{
    if s.len() == 0 {
        Seq::<char>::empty()
    } else {
        let rest = spec_strip_dots(s.drop_last());
        if s.last() == '.' {
            rest
        } else {
            rest.push(s.last())
        }
    }
}

/// The unit symbol for a raw ticker: doubled when it is one character long.
pub open spec fn spec_unit_symbol(s: Seq<char>) -> Seq<char> {
    if s.len() == 1 {
        s + s
    } else {
        s
    }
}

/// Strips every `.` from a raw ticker, making it a valid account-path
/// segment.
pub fn strip_dots(ticker: &str) -> (r: String)
    ensures
        r@ == spec_strip_dots(ticker@),
{
    let n = ticker.unicode_len();
    let mut out = String::new();
    let mut i: usize = 0;
    while i < n
        invariant
            n == ticker@.len(),
            i <= n,
            out@ == spec_strip_dots(ticker@.take(i as int)),
        decreases n - i,
    {
        let c = ticker.get_char(i);
        if c != '.' {
            let piece = ticker.substring_char(i, i + 1);
            out.append(piece);
        }
        i = i + 1;
        proof {
            assert(ticker@.take(i as int).drop_last() =~= ticker@.take(i - 1));
            assert(out@ =~= spec_strip_dots(ticker@.take(i as int)));
        }
    }
    proof {
        assert(ticker@.take(n as int) =~= ticker@);
    }
    out
}

/// Renders the traded-amount unit symbol for a raw ticker: the symbol
/// itself, doubled when it is a single character.
pub fn format_ticker(ticker: &str) -> (r: String)
    ensures
        r@ == spec_unit_symbol(ticker@),
{
    let n = ticker.unicode_len();
    let mut out = String::from_str(ticker);
    if n == 1 {
        out.append(ticker);
    }
    out
}

/// Stripping dots leaves no dot behind: no account-path segment built from a
/// ticker ever contains a `.`, whatever the raw symbol held.
pub proof fn lemma_strip_dots_no_dot(s: Seq<char>)
    ensures
        forall|i: int|
            0 <= i < spec_strip_dots(s).len() ==> #[trigger] spec_strip_dots(s)[i] != '.',
    decreases s.len(),
{
    if s.len() > 0 {
        lemma_strip_dots_no_dot(s.drop_last());
        let rest = spec_strip_dots(s.drop_last());
        assert forall|i: int| 0 <= i < spec_strip_dots(s).len() implies #[trigger] spec_strip_dots(
            s,
        )[i] != '.' by {
            if s.last() != '.' {
                assert(spec_strip_dots(s) == rest.push(s.last()));
                if i < rest.len() {
                    assert(spec_strip_dots(s)[i] == rest[i]);
                } else {
                    assert(spec_strip_dots(s)[i] == s.last());
                }
            } else {
                assert(spec_strip_dots(s)[i] == rest[i]);
            }
        }
    }
}

/// Stripping dots never lengthens a symbol: in particular, a one-character
/// ticker is never doubled in the account path.
pub proof fn lemma_strip_dots_len(s: Seq<char>)
    ensures
        spec_strip_dots(s).len() <= s.len(),
    decreases s.len(),
{
    if s.len() > 0 {
        lemma_strip_dots_len(s.drop_last());
    }
}

} // verus!
