//! Event instants.
//!
//! A record's timestamp is held as a calendar instant in coordinated
//! universal time, at second precision: exactly what the conversion reads
//! from it. The engine renders the date portion as `YYYY-MM-DD` and compares
//! the whole instant against the reference instant of the conversion to pick
//! the cleared or pending marker.

use vstd::prelude::*;

use crate::decimal::{
    lemma_digits_len_le, lemma_zeros_len, pow10, spec_digits, spec_zeros, u64_digits,
};

verus! {

/// One instant in coordinated universal time, at second precision.
#[derive(Clone, Copy, PartialEq, Eq, Structural, Debug)]
pub struct Timestamp {
    pub year: u16,
    pub month: u8,
    pub day: u8,
    pub hour: u8,
    pub minute: u8,
    pub second: u8,
}

impl Timestamp {
    /// Field ranges of a calendar instant with a four-digit year.
    pub open spec fn wf(self) -> bool {
        &&& self.year <= 9999
        &&& 1 <= self.month <= 12
        &&& 1 <= self.day <= 31
        &&& self.hour <= 23
        &&& self.minute <= 59
        &&& self.second <= 59
    }

    /// An integer that orders well-formed instants chronologically.
    pub open spec fn instant_key(self) -> int {
        ((((self.year * 13 + self.month) * 32 + self.day) * 24 + self.hour) * 60 + self.minute)
            * 60 + self.second
    }

    /// Whether `self` is at or before `other`.
    pub open spec fn spec_le(self, other: Timestamp) -> bool {
        self.instant_key() <= other.instant_key()
    }

    fn key(&self) -> (k: u64)
        requires
            self.wf(),
        ensures
            k == self.instant_key(),
    {
        ((((self.year as u64 * 13 + self.month as u64) * 32 + self.day as u64) * 24
            + self.hour as u64) * 60 + self.minute as u64) * 60 + self.second as u64
    }

    /// Whether this instant is at or before `other`.
    pub fn le(&self, other: &Timestamp) -> (r: bool)
        requires
            self.wf(),
            other.wf(),
        ensures
            r == self.spec_le(*other),
    {
        self.key() <= other.key()
    }
}

/// The digit string of `n`, zero-padded on the left to at least `width`
/// characters.
pub open spec fn spec_padded(n: nat, width: nat) -> Seq<char> {
    let ds = spec_digits(n);
    if ds.len() >= width {
        ds
    } else {
        spec_zeros((width - ds.len()) as nat) + ds
    }
}

/// Renders `n` zero-padded to at least `width` characters.
pub fn padded_digits(n: u64, width: usize) -> (s: String)
    ensures
        s@ == spec_padded(n as nat, width as nat),
{
    let ds = u64_digits(n);
    let len = ds.as_str().unicode_len();
    let mut out = String::new();
    let mut pad: usize = 0;
    while len < width && pad < width - len
        invariant
            len < width ==> pad <= width - len,
            len >= width ==> pad == 0,
            out@ == spec_zeros(pad as nat),
        decreases width - len - pad,
    {
        out.append("0");
        pad = pad + 1;
        proof {
            reveal_strlit("0");
            assert(out@ =~= spec_zeros(pad as nat));
        }
    }
    out.append(ds.as_str());
    proof {
        assert(out@ =~= spec_padded(n as nat, width as nat));
    }
    out
}

/// The `YYYY-MM-DD` rendering of the date portion of `t`.
pub open spec fn spec_date_str(t: Timestamp) -> Seq<char> {
    spec_padded(t.year as nat, 4) + seq!['-'] + spec_padded(t.month as nat, 2) + seq!['-']
        + spec_padded(t.day as nat, 2)
}

/// The date portion of a well-formed instant always renders as exactly ten
/// characters.
pub proof fn lemma_date_str_len(t: Timestamp)
    requires
        t.wf(),
    ensures
        spec_date_str(t).len() == 10,
{
    reveal_with_fuel(pow10, 5);
    assert(pow10(4) == 10000);
    assert(pow10(2) == 100);
    lemma_digits_len_le(t.year as nat, 4);
    lemma_digits_len_le(t.month as nat, 2);
    lemma_digits_len_le(t.day as nat, 2);
    lemma_zeros_len((4 - spec_digits(t.year as nat).len()) as nat);
    lemma_zeros_len((2 - spec_digits(t.month as nat).len()) as nat);
    lemma_zeros_len((2 - spec_digits(t.day as nat).len()) as nat);
    assert(spec_padded(t.year as nat, 4).len() == 4);
    assert(spec_padded(t.month as nat, 2).len() == 2);
    assert(spec_padded(t.day as nat, 2).len() == 2);
}

/// Renders the date portion of `t` as `YYYY-MM-DD`.
pub fn date_string(t: &Timestamp) -> (s: String)
    ensures
        s@ == spec_date_str(*t),
{
    let mut out = padded_digits(t.year as u64, 4);
    out.append("-");
    let month = padded_digits(t.month as u64, 2);
    out.append(month.as_str());
    out.append("-");
    let day = padded_digits(t.day as u64, 2);
    out.append(day.as_str());
    proof {
        reveal_strlit("-");
        assert("-"@ =~= seq!['-']);
        assert(out@ =~= spec_date_str(*t));
    }
    out
}

} // verus!
