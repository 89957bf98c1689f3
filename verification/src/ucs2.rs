use vstd::prelude::*;

verus! {

/// The 16-bit code unit that the firmware's text services receive for `c`: its code point
/// cut to the low 16 bits, as a cast of the character to `u16` gives it.
pub open spec fn ucs2_unit(c: char) -> u16 {
    ((c as u32) % 0x10000) as u16
}

/// The code units of a text, one per character.
pub open spec fn ucs2_units(s: Seq<char>) -> Seq<u16> {
    s.map_values(|c: char| ucs2_unit(c))
}

/// Converts one character to the code unit that the firmware receives for it.
pub fn char_to_ucs2(c: char) -> (u: u16)
    ensures
        u == ucs2_unit(c),
        u as u32 == (c as u32) % 0x10000,
{
    let v: u32 = c as u32;
    let low: u32 = v % 0x10000;
    low as u16
}

/// Encodes a text character by character, as the firmware's path and option strings are
/// written: one code unit for each character, in order.
pub fn encode_ucs2(s: &str) -> (units: Vec<u16>)
    ensures
        units@ == ucs2_units(s@),
        units@.len() == s@.len(),
        forall|i: int| 0 <= i < s@.len() ==> units@[i] as u32 == (s@[i] as u32) % 0x10000,
{
    let mut units: Vec<u16> = Vec::new();
    for c in it: s.chars()
        invariant
            it.seq() == s@,
            units@ == ucs2_units(s@.take(it.index() as int)),
    {
        units.push(char_to_ucs2(c));
        proof {
            assert(s@.take(it.index() as int + 1) =~= s@.take(it.index() as int).push(c));
        }
    }
    proof {
        assert(s@.take(s@.len() as int) =~= s@);
        lemma_units_are_code_points(s@);
    }
    units
}

/// The unit of a character is its code point cut to its low 16 bits: a character below
/// U+10000 keeps its code point unchanged.
pub proof fn lemma_unit_is_code_point(c: char)
    ensures
        ucs2_unit(c) as u32 == (c as u32) % 0x10000,
        (c as u32) < 0x10000 ==> ucs2_unit(c) as u32 == c as u32,
{
}

/// Encoding keeps one unit per character, in order, each the character's code point cut
/// to 16 bits.
pub proof fn lemma_units_are_code_points(s: Seq<char>)
    ensures
        ucs2_units(s).len() == s.len(),
        forall|i: int|
            0 <= i < s.len() ==> (#[trigger] ucs2_units(s)[i]) as u32 == (s[i] as u32) % 0x10000,
{
}

} // verus!
