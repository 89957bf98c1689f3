use vstd::prelude::*;
use crate::ucs2::{ucs2_unit, char_to_ucs2};

verus! {

/// The carriage return that goes out before every line feed.
pub const CARRIAGE_RETURN: u16 = 0x0D;

/// The null code unit that ends every string handed to the firmware.
pub const NUL: u16 = 0;

/// The three-unit buffer handed to the firmware's `output_string` for one character:
/// a line feed goes out as carriage return and line feed, any other character alone;
/// the text ends at the first null unit and the rest of the buffer is zero.
pub open spec fn console_call(c: char) -> Seq<u16> {
    if c == '\n' {
        seq![CARRIAGE_RETURN, ucs2_unit(c), NUL]
    } else {
        seq![ucs2_unit(c), NUL, NUL]
    }
}

/// The buffers handed to the firmware for a text: one `output_string` call per character.
pub open spec fn console_calls(s: Seq<char>) -> Seq<Seq<u16>> {
    s.map_values(|c: char| console_call(c))
}

/// The units that the firmware shows for one buffer: those before the first null unit.
pub open spec fn shown_units(buffer: Seq<u16>) -> Seq<u16>
    decreases buffer.len(),
{
    if buffer.len() == 0 || buffer[0] == NUL {
        Seq::empty()
    } else {
        seq![buffer[0]] + shown_units(buffer.drop_first())
    }
}

/// What the terminal receives for one character: a line feed as carriage return and line
/// feed, a character whose code unit is null as nothing, any other as its code unit.
pub open spec fn terminal_units(c: char) -> Seq<u16> {
    if c == '\n' {
        seq![CARRIAGE_RETURN, ucs2_unit(c)]
    } else if ucs2_unit(c) == NUL {
        Seq::empty()
    } else {
        seq![ucs2_unit(c)]
    }
}

/// Builds the buffer for one character, exactly as `console_call` gives it.
pub fn console_buffer(c: char) -> (buf: [u16; 3])
    ensures
        buf@ == console_call(c),
{
    let mut buf: [u16; 3] = [0u16; 3];
    let mut idx: usize = 0;
    if c == '\n' {
        buf[idx] = CARRIAGE_RETURN;
        idx = idx + 1;
    }
    buf[idx] = char_to_ucs2(c);
    buf[idx + 1] = NUL;
    proof {
        assert(buf@ =~= console_call(c));
    }
    buf
}

/// The text console: the buffers written to it that still wait to be handed to the
/// firmware's `output_string`, oldest first.
pub struct UefiConsole {
    pending: Vec<[u16; 3]>,
}

impl View for UefiConsole {
    type V = Seq<Seq<u16>>;

    closed spec fn view(&self) -> Seq<Seq<u16>> {
        Seq::new(self.pending@.len(), |i: int| self.pending@[i]@)
    }
}

impl UefiConsole {
    /// A console with nothing pending.
    pub fn new() -> (console: UefiConsole)
        ensures
            console@ == Seq::<Seq<u16>>::empty(),
    {
        let console = UefiConsole { pending: Vec::new() };
        proof {
            assert(console@ =~= Seq::<Seq<u16>>::empty());
        }
        console
    }

    /// Writes a text: one buffer per character, in order, after those already pending.
    pub fn write_str(&mut self, s: &str)
        ensures
            final(self)@ == old(self)@ + console_calls(s@),
            final(self)@.len() == old(self)@.len() + s@.len(),
            forall|i: int| 0 <= i < old(self)@.len() ==> final(self)@[i] == old(self)@[i],
            forall|i: int|
                0 <= i < s@.len() ==> final(self)@[old(self)@.len() + i] == console_call(s@[i]),
    {
        let ghost before = self@;
        for c in it: s.chars()
            invariant
                it.seq() == s@,
                self@ == before + console_calls(s@.take(it.index() as int)),
        {
            let buf = console_buffer(c);
            let ghost prev = self@;
            self.pending.push(buf);
            proof {
                assert(self@ =~= prev.push(console_call(c)));
                assert(s@.take(it.index() as int + 1) =~= s@.take(it.index() as int).push(c));
                assert(console_calls(s@.take(it.index() as int + 1)) =~= console_calls(
                    s@.take(it.index() as int),
                ).push(console_call(c)));
            }
        }
        proof {
            assert(s@.take(s@.len() as int) =~= s@);
            lemma_one_call_per_character(s@);
        }
    }

    /// Hands out the pending buffers, oldest first, and leaves none pending.
    pub fn take_pending(&mut self) -> (calls: Vec<[u16; 3]>)
        ensures
            Seq::new(calls@.len(), |i: int| calls@[i]@) == old(self)@,
            final(self)@ == Seq::<Seq<u16>>::empty(),
    {
        let mut calls: Vec<[u16; 3]> = Vec::new();
        std::mem::swap(&mut calls, &mut self.pending);
        proof {
            assert(self@ =~= Seq::<Seq<u16>>::empty());
            assert(Seq::new(calls@.len(), |i: int| calls@[i]@) =~= old(self)@);
        }
        calls
    }
}

/// A text goes out as exactly one buffer per character, in order: a line feed as carriage
/// return, line feed and null; any other character as its code point cut to 16 bits,
/// followed by two nulls.
pub proof fn lemma_one_call_per_character(s: Seq<char>)
    ensures
        console_calls(s).len() == s.len(),
        forall|i: int|
            0 <= i < s.len() ==> (#[trigger] console_calls(s)[i]) == (if s[i] == '\n' {
                seq![0x0Du16, 0x0Au16, 0u16]
            } else {
                seq![((s[i] as u32) % 0x10000) as u16, 0u16, 0u16]
            }),
{
}

/// Writing two texts one after the other hands the firmware the same buffers as writing
/// them joined.
pub proof fn lemma_write_concat(a: Seq<char>, b: Seq<char>)
    ensures
        console_calls(a + b) == console_calls(a) + console_calls(b),
{
    assert(console_calls(a + b) =~= console_calls(a) + console_calls(b));
}

/// The firmware shows, for the buffer of each character, exactly what the terminal is to
/// receive for it: a line feed always comes with a carriage return before it.
pub proof fn lemma_console_call_shows(c: char)
    ensures
        shown_units(console_call(c)) == terminal_units(c),
{
    let buf = console_call(c);
    reveal_with_fuel(shown_units, 4);
    if c == '\n' {
        assert(buf.drop_first() =~= seq![ucs2_unit(c), NUL]);
        assert(buf.drop_first().drop_first() =~= seq![NUL]);
        assert(shown_units(buf) =~= terminal_units(c));
    } else {
        assert(buf.drop_first() =~= seq![NUL, NUL]);
        assert(shown_units(buf) =~= terminal_units(c));
    }
}

} // verus!
