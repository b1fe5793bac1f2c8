//! Wide (UTF-16) text as the platform hands it over.

use vstd::prelude::*;

verus! {

/// The code units of `s` that come before its first zero unit, or all of `s`
/// when it holds none.
pub open spec fn until_nul(s: Seq<u16>) -> Seq<u16>
    decreases s.len(),
{
    if s.len() == 0 || s[0] == 0 {
        Seq::empty()
    } else {
        seq![s[0]] + until_nul(s.skip(1))
    }
}

/// Counts the code units in front of the terminator.
pub fn terminated_len(buffer: &[u16]) -> (n: usize)
    ensures
        n == until_nul(buffer@).len(),
        n <= buffer@.len(),
        until_nul(buffer@) == buffer@.take(n as int),
{
    let mut n: usize = 0;
    proof {
        assert(buffer@.skip(0) == buffer@);
        assert(buffer@.take(0) + buffer@ == buffer@);
        assert(buffer@.take(0) + until_nul(buffer@) == until_nul(buffer@));
    }
    while n < buffer.len() && buffer[n] != 0
        invariant
            n <= buffer@.len(),
            until_nul(buffer@) == buffer@.take(n as int) + until_nul(buffer@.skip(n as int)),
        decreases buffer@.len() - n,
    {
        proof {
            let rest = buffer@.skip(n as int);
            assert(rest.skip(1) == buffer@.skip(n + 1));
            assert(buffer@.take(n as int) + seq![rest[0]] == buffer@.take(n + 1));
        }
        n = n + 1;
    }
    proof {
        let rest = buffer@.skip(n as int);
        assert(until_nul(rest) == Seq::<u16>::empty());
        assert(buffer@.take(n as int) + Seq::<u16>::empty() == buffer@.take(n as int));
    }
    n
}

/// Copies the code units in front of the terminator.
pub fn units_until_nul(buffer: &[u16]) -> (units: Vec<u16>)
    ensures
        units@ == until_nul(buffer@),
{
    let n = terminated_len(buffer);
    let mut units: Vec<u16> = Vec::new();
    let mut i: usize = 0;
    while i < n
        invariant
            i <= n <= buffer@.len(),
            units@ == buffer@.take(i as int),
        decreases n - i,
    {
        units.push(buffer[i]);
        assert(units@ =~= buffer@.take(i + 1));
        i = i + 1;
    }
    units
}

/// What stands in front of the terminator holds no zero unit.
pub proof fn lemma_until_nul_is_free_of_nul(s: Seq<u16>)
    ensures
        until_nul(s).len() <= s.len(),
        forall|i: int| 0 <= i < until_nul(s).len() ==> until_nul(s)[i] != 0,
        forall|i: int| 0 <= i < until_nul(s).len() ==> until_nul(s)[i] == s[i],
    decreases s.len(),
{
    if s.len() == 0 || s[0] == 0 {
    } else {
        lemma_until_nul_is_free_of_nul(s.skip(1));
        let rest = until_nul(s.skip(1));
        assert forall|i: int| 0 <= i < until_nul(s).len() implies until_nul(s)[i] != 0
            && until_nul(s)[i] == s[i] by {
            if i > 0 {
                assert(until_nul(s)[i] == rest[i - 1]);
                assert(s.skip(1)[i - 1] == s[i]);
            }
        }
    }
}

/// A run without zero units, with a terminator behind it, is read back
/// whole.
pub proof fn lemma_until_nul_of_terminated(s: Seq<u16>)
    requires
        forall|i: int| 0 <= i < s.len() ==> s[i] != 0,
    ensures
        until_nul(s.push(0u16)) == s,
    decreases s.len(),
{
    let t = s.push(0u16);
    if s.len() == 0 {
        assert(t[0] == 0);
    } else {
        assert(t[0] == s[0]);
        assert(t.skip(1) =~= s.skip(1).push(0u16));
        assert forall|i: int| 0 <= i < s.skip(1).len() implies s.skip(1)[i] != 0 by {
            assert(s.skip(1)[i] == s[i + 1]);
        }
        lemma_until_nul_of_terminated(s.skip(1));
        assert(seq![s[0]] + s.skip(1) =~= s);
    }
}

/// The code units of a text made of ASCII characters: one unit per
/// character.
pub open spec fn wide_of(text: Seq<char>) -> Seq<u16> {
    Seq::new(text.len(), |i: int| text[i] as u16)
}

/// Spells an ASCII text in UTF-16 code units, without a terminator.
pub fn widen(text: &str) -> (units: Vec<u16>)
    requires
        text.is_ascii(),
    ensures
        units@ == wide_of(text@),
{
    broadcast use vstd::string::is_ascii_spec_bytes;

    let bytes = text.as_bytes();
    let mut units: Vec<u16> = Vec::new();
    let mut i: usize = 0;
    while i < bytes.len()
        invariant
            i <= bytes@.len(),
            bytes@.len() == text@.len(),
            vstd::string::is_ascii(text),
            forall|k: int| 0 <= k < bytes@.len() ==> bytes@[k] == text@[k] as u8,
            units@ == wide_of(text@).take(i as int),
        decreases bytes@.len() - i,
    {
        let unit: u16 = bytes[i] as u16;
        assert(unit == text@[i as int] as u16);
        units.push(unit);
        assert(units@ =~= wide_of(text@).take(i + 1));
        i = i + 1;
    }
    assert(units@ =~= wide_of(text@));
    units
}

/// The number of code units of the indicator's tip, terminator included.
pub const TIP_UNITS: usize = 128;

/// The tip for a text: the text cut to fit with a terminator behind it, and
/// zero in every unit after the text.
pub open spec fn tip_of(text: Seq<u16>) -> Seq<u16> {
    Seq::new(
        TIP_UNITS as nat,
        |i: int|
            if i < text.len() && i < TIP_UNITS - 1 {
                text[i]
            } else {
                0u16
            },
    )
}

/// The tip of the indicator as the platform takes it.
pub struct Tooltip {
    /// `TIP_UNITS` code units, the last of them zero.
    pub units: Vec<u16>,
    /// Whether there is anything to show: a tip that starts with the
    /// terminator is not shown.
    pub shown: bool,
}

/// Fits a text into the tip.
pub fn tooltip(text: &[u16]) -> (tip: Tooltip)
    ensures
        tip.units@ == tip_of(text@),
        tip.shown == (tip_of(text@)[0] != 0),
{
    let mut units: Vec<u16> = Vec::new();
    let mut i: usize = 0;
    while i < TIP_UNITS
        invariant
            i <= TIP_UNITS,
            units@ == tip_of(text@).take(i as int),
        decreases TIP_UNITS - i,
    {
        let unit: u16 = if i < text.len() && i < TIP_UNITS - 1 {
            text[i]
        } else {
            0
        };
        units.push(unit);
        assert(units@ =~= tip_of(text@).take(i + 1));
        i = i + 1;
    }
    assert(units@ =~= tip_of(text@));
    let shown = units[0] != 0;
    Tooltip { units, shown }
}

/// A tip always ends in a terminator, and it is shown exactly when the text
/// starts with something else than one.
pub proof fn lemma_tip_is_terminated(text: Seq<u16>)
    ensures
        tip_of(text).len() == TIP_UNITS,
        tip_of(text)[TIP_UNITS - 1] == 0,
        (tip_of(text)[0] != 0) == (text.len() > 0 && text[0] != 0),
        forall|i: int| 0 <= i < text.len() && i < TIP_UNITS - 1 ==> tip_of(text)[i] == text[i],
{
}

} // verus!
