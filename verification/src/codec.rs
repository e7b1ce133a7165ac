//! Encoding of filesystem paths into the null-terminated wide-character
//! (UTF-16) form expected by native OS calls, and decoding of such
//! buffers back into text.

use vstd::prelude::*;

verus! {

/// The UTF-16 code units that encode a single character: one unit for
/// characters below `0x10000`, a surrogate pair for the rest.
pub open spec fn utf16_units_of_char(c: char) -> Seq<u16> {
    if (c as int) < 0x10000 {
        seq![c as u16]
    } else {
        seq![
            (0xD800 + ((c as int) - 0x10000) / 0x400) as u16,
            (0xDC00 + ((c as int) - 0x10000) % 0x400) as u16,
        ]
    }
}

/// The UTF-16 encoding of a character sequence.
pub open spec fn utf16_of(s: Seq<char>) -> Seq<u16>
    decreases s.len(),
{
    if s.len() == 0 {
        Seq::empty()
    } else {
        utf16_units_of_char(s[0]) + utf16_of(s.skip(1))
    }
}

pub proof fn lemma_utf16_of_concat(a: Seq<char>, b: Seq<char>)
    ensures
        utf16_of(a + b) == utf16_of(a) + utf16_of(b),
    decreases a.len(),
{
    if a.len() == 0 {
        assert(a + b =~= b);
        assert(utf16_of(a) + utf16_of(b) =~= utf16_of(b));
    } else {
        lemma_utf16_of_concat(a.skip(1), b);
        assert((a + b).skip(1) =~= a.skip(1) + b);
        assert(utf16_of(a) + utf16_of(b) =~= utf16_units_of_char(a[0]) + (utf16_of(a.skip(1))
            + utf16_of(b)));
    }
}

pub proof fn lemma_utf16_of_snoc(s: Seq<char>, i: int)
    requires
        0 <= i < s.len(),
    ensures
        utf16_of(s.take(i + 1)) == utf16_of(s.take(i)) + utf16_units_of_char(s[i]),
{
    lemma_utf16_of_concat(s.take(i), seq![s[i]]);
    assert(s.take(i + 1) =~= s.take(i) + seq![s[i]]);
    assert(utf16_of(seq![s[i]].skip(1)) =~= Seq::<u16>::empty());
    assert(utf16_of(seq![s[i]]) =~= utf16_units_of_char(s[i]));
}

/// Converts a path into the wide-character form expected by native OS
/// calls: the path's UTF-16 code units followed by a terminating zero.
pub fn get_u16_vec(path: &str) -> (r: Vec<u16>)
    ensures
        r@ == utf16_of(path@).push(0u16),
{
    let n = path.unicode_len();
    let mut out: Vec<u16> = Vec::new();
    let mut i: usize = 0;
    proof {
        assert(path@.take(0) =~= Seq::<char>::empty());
    }
    while i < n
        invariant
            n == path@.len(),
            0 <= i <= n,
            out@ == utf16_of(path@.take(i as int)),
        decreases n - i,
    {
        let c = path.get_char(i);
        let v = c as u32;
        if v < 0x10000 {
            out.push(v as u16);
            proof {
                lemma_utf16_of_snoc(path@, i as int);
                assert(out@ =~= utf16_of(path@.take(i + 1)));
            }
        } else {
            let off = v - 0x10000;
            out.push((0xD800 + off / 0x400) as u16);
            out.push((0xDC00 + off % 0x400) as u16);
            proof {
                lemma_utf16_of_snoc(path@, i as int);
                assert(out@ =~= utf16_of(path@.take(i + 1)));
            }
        }
        i = i + 1;
    }
    out.push(0u16);
    proof {
        assert(path@.take(n as int) =~= path@);
    }
    out
}

proof fn lemma_utf16_len_single_unit(s: Seq<char>)
    requires
        forall|i: int| 0 <= i < s.len() ==> (#[trigger] s[i] as int) < 0x10000,
    ensures
        utf16_of(s).len() == s.len(),
    decreases s.len(),
{
    if s.len() > 0 {
        assert(forall|i: int| 0 <= i < s.skip(1).len() ==> (#[trigger] s.skip(1)[i] as int)
            < 0x10000);
        lemma_utf16_len_single_unit(s.skip(1));
    }
}

/// Law: encoding a path of `n` characters, each of which fits in a
/// single wide unit, yields `n + 1` units, the final one zero.
pub proof fn lemma_encoding_length(s: Seq<char>)
    requires
        forall|i: int| 0 <= i < s.len() ==> (#[trigger] s[i] as int) < 0x10000,
    ensures
        utf16_of(s).push(0u16).len() == s.len() + 1,
        utf16_of(s).push(0u16).last() == 0u16,
{
    lemma_utf16_len_single_unit(s);
}

/// Whether a sequence of wide units is the UTF-16 encoding of some
/// text, that is, whether it is well-formed and decodes.
pub open spec fn decodable_wide(units: Seq<u16>) -> bool {
    exists|s: Seq<char>| utf16_of(s) == units
}

/// Relies on widestring::U16Str::to_string: the units are decoded as
/// UTF-16, and an error is reported exactly when they are ill-formed.
/// So a decoded text re-encodes to exactly the units given, and any
/// unit sequence that is the encoding of some text decodes.
#[verifier::external_body]
pub(crate) fn decode_wide_units(units: &[u16]) -> (r: Option<String>)
    ensures
        (r matches Some(s) ==> utf16_of(s@) == units@),
        decodable_wide(units@) ==> r is Some,
{
    match widestring::U16Str::from_slice(units).to_string() {
        Ok(s) => Some(s),
        Err(_) => None,
    }
}

} // verus!
