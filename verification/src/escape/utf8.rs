//! Incremental UTF-8 decoding, one byte at a time.
use vstd::prelude::*;
use vstd::utf8::{
    char_is_scalar, char_u32_cast, encode_scalar, encode_utf8, has_width_1_encoding,
    has_width_2_encoding, has_width_3_encoding, is_scalar, last_continuation_byte,
    leading_byte_width_1, leading_byte_width_2, leading_byte_width_3, leading_byte_width_4,
    second_last_continuation_byte, third_last_continuation_byte,
};

verus! {

/// What the decoder hands out once a sequence is complete.
#[derive(Debug, Clone, Copy, PartialEq, Eq, Structural)]
pub enum Codepoint {
    Valid(char),
    Invalid,
}

/// What a byte means to the decoder in the state it arrived in.
#[derive(Debug, Clone, Copy, PartialEq, Eq, Structural)]
pub enum Action {
    Emit(u8),
    SetByte1(u8),
    SetByte2(u8),
    SetByte2Top(u8),
    SetByte3(u8),
    SetByte3Top(u8),
    SetByte4Top(u8),
    InvalidSequence,
}

/// How many continuation bytes are still owed.
#[derive(Debug, Clone, Copy, PartialEq, Eq, Structural)]
pub enum State {
    Ground,
    Tail1,
    Tail2,
    Tail3,
}

impl State {
    /// The transition table: the state after `byte` and what the byte means.
    pub open spec fn step(self, byte: u8) -> (State, Action) {
        match self {
            State::Ground => if byte <= 0x7f {
                (State::Ground, Action::Emit(byte))
            } else if 0xc2 <= byte <= 0xdf {
                (State::Tail1, Action::SetByte2Top(byte))
            } else if 0xe0 <= byte <= 0xef {
                (State::Tail2, Action::SetByte3Top(byte))
            } else if 0xf0 <= byte <= 0xf4 {
                (State::Tail3, Action::SetByte4Top(byte))
            } else {
                (State::Ground, Action::InvalidSequence)
            },
            State::Tail3 => (State::Tail2, Action::SetByte3(byte)),
            State::Tail2 => (State::Tail1, Action::SetByte2(byte)),
            State::Tail1 => (State::Ground, Action::SetByte1(byte)),
        }
    }

    pub fn advance(&mut self, byte: u8) -> (action: Action)
        ensures
            (*final(self), action) == old(self).step(byte),
    {
        match *self {
            State::Ground => {
                if byte <= 0x7f {
                    *self = State::Ground;
                    Action::Emit(byte)
                } else if 0xc2 <= byte && byte <= 0xdf {
                    *self = State::Tail1;
                    Action::SetByte2Top(byte)
                } else if 0xe0 <= byte && byte <= 0xef {
                    *self = State::Tail2;
                    Action::SetByte3Top(byte)
                } else if 0xf0 <= byte && byte <= 0xf4 {
                    *self = State::Tail3;
                    Action::SetByte4Top(byte)
                } else {
                    Action::InvalidSequence
                }
            },
            State::Tail3 => {
                *self = State::Tail2;
                Action::SetByte3(byte)
            },
            State::Tail2 => {
                *self = State::Tail1;
                Action::SetByte2(byte)
            },
            State::Tail1 => {
                *self = State::Ground;
                Action::SetByte1(byte)
            },
        }
    }
}

/// `char::from_u32` of std: the character with the given scalar value, and
/// `None` for a surrogate or a value above U+10FFFF.
#[verifier::external_body]
fn char_from_u32(value: u32) -> (c: Option<char>)
    ensures
        c == (if is_scalar(value) {
            Some(value as char)
        } else {
            None::<char>
        }),
{
    char::from_u32(value)
}

/// The codepoint that a finished accumulator stands for.
pub open spec fn finish(point: u32) -> Codepoint {
    if is_scalar(point) {
        Codepoint::Valid(point as char)
    } else {
        Codepoint::Invalid
    }
}

/// One step of the decoder on its model, a state and an accumulator: the
/// model after `byte`, and the codepoint that the byte completes, if any.
pub open spec fn decode_step(state: State, point: u32, byte: u8) -> ((State, u32), Option<Codepoint>) {
    let low: u32 = (byte as u32) & 0x3f;
    match state.step(byte) {
        (_, Action::Emit(b)) => ((State::Ground, 0), Some(Codepoint::Valid(b as char))),
        (_, Action::InvalidSequence) => ((State::Ground, 0), Some(Codepoint::Invalid)),
        (next, Action::SetByte2Top(b)) => ((next, ((b as u32) & 0x1f) << 6), None),
        (next, Action::SetByte3Top(b)) => ((next, ((b as u32) & 0x0f) << 12), None),
        (next, Action::SetByte4Top(b)) => ((next, ((b as u32) & 0x07) << 18), None),
        (next, Action::SetByte3(_)) => ((next, point | (low << 12)), None),
        (next, Action::SetByte2(_)) => ((next, point | (low << 6)), None),
        (_, Action::SetByte1(_)) => ((State::Ground, 0), Some(finish(point | low))),
    }
}

/// The decoder: a state and the bits gathered so far.
pub struct Utf8 {
    state: State,
    point: u32,
}

impl View for Utf8 {
    type V = (State, u32);

    closed spec fn view(&self) -> (State, u32) {
        (self.state, self.point)
    }
}

impl Utf8 {
    pub fn new() -> (utf8: Utf8)
        ensures
            utf8@ == (State::Ground, 0u32),
    {
        Utf8 { state: State::Ground, point: 0 }
    }

    /// Feeds one byte. `Some` carries the codepoint that the byte completes,
    /// or `Invalid` where the byte cannot start a sequence or the sequence
    /// names no scalar value; `None` means that more bytes are owed.
    pub fn advance(&mut self, byte: u8) -> (out: Option<Codepoint>)
        ensures
            (final(self)@, out) == decode_step(old(self)@.0, old(self)@.1, byte),
    {
        let low: u32 = (byte as u32) & 0x3f;
        match self.state.advance(byte) {
            Action::Emit(b) => {
                self.point = 0;
                Some(Codepoint::Valid(b as char))
            },
            Action::SetByte1(_) => {
                let point: u32 = self.point | low;
                self.point = 0;
                match char_from_u32(point) {
                    Some(c) => Some(Codepoint::Valid(c)),
                    None => Some(Codepoint::Invalid),
                }
            },
            Action::SetByte2(_) => {
                self.point = self.point | (low << 6);
                None
            },
            Action::SetByte3(_) => {
                self.point = self.point | (low << 12);
                None
            },
            Action::SetByte2Top(b) => {
                self.point = ((b as u32) & 0x1f) << 6;
                None
            },
            Action::SetByte3Top(b) => {
                self.point = ((b as u32) & 0x0f) << 12;
                None
            },
            Action::SetByte4Top(b) => {
                self.point = ((b as u32) & 0x07) << 18;
                None
            },
            Action::InvalidSequence => {
                self.point = 0;
                Some(Codepoint::Invalid)
            },
        }
    }
}

/// The decoder run over `bytes` from a model: the model at the end, and the
/// codepoints that came out, in order.
pub open spec fn decode(state: State, point: u32, bytes: Seq<u8>) -> ((State, u32), Seq<Codepoint>)
    decreases bytes.len(),
{
    if bytes.len() == 0 {
        ((state, point), Seq::empty())
    } else {
        let (before, out) = decode(state, point, bytes.drop_last());
        let (after, found) = decode_step(before.0, before.1, bytes.last());
        (
            after,
            match found {
                Some(c) => out.push(c),
                None => out,
            },
        )
    }
}

/// Whether `out` is `text`, character by character, with every one valid.
pub open spec fn spells(out: Seq<Codepoint>, text: Seq<char>) -> bool {
    &&& out.len() == text.len()
    &&& forall|i: int| 0 <= i < text.len() ==> #[trigger] out[i] == Codepoint::Valid(text[i])
}

/// Decoding two runs of bytes one after the other is decoding their
/// concatenation.
pub proof fn lemma_decode_concat(state: State, point: u32, a: Seq<u8>, b: Seq<u8>)
    ensures
        decode(state, point, a + b) == ({
            let (middle, first) = decode(state, point, a);
            let (end, second) = decode(middle.0, middle.1, b);
            (end, first + second)
        }),
    decreases b.len(),
{
    let (middle, first) = decode(state, point, a);
    if b.len() == 0 {
        assert(a + b =~= a);
        assert(first + Seq::<Codepoint>::empty() =~= first);
    } else {
        lemma_decode_concat(state, point, a, b.drop_last());
        assert((a + b).drop_last() =~= a + b.drop_last());
        assert((a + b).last() == b.last());
        let (before, out) = decode(middle.0, middle.1, b.drop_last());
        let found = decode_step(before.0, before.1, b.last()).1;
        match found {
            Some(c) => {
                assert(first + out.push(c) =~= (first + out).push(c));
            },
            None => {},
        }
    }
}

pub(crate) proof fn lemma_bits_width_1(c: u32)
    by (bit_vector)
    requires
        c <= 0x7f,
    ensures
        leading_byte_width_1(c) <= 0x7f,
        leading_byte_width_1(c) as u32 == c,
{
}

pub(crate) proof fn lemma_bits_width_2(c: u32)
    by (bit_vector)
    requires
        0x80 <= c <= 0x7ff,
    ensures
        ({
            let b1 = leading_byte_width_2(c);
            let b2 = last_continuation_byte(c);
            &&& 0xc2 <= b1 <= 0xdf
            &&& 0x80 <= b2
            &&& ((((b1 as u32) & 0x1f) << 6) | ((b2 as u32) & 0x3f)) == c
        }),
{
}

pub(crate) proof fn lemma_bits_width_3(c: u32)
    by (bit_vector)
    requires
        0x800 <= c <= 0xffff,
    ensures
        ({
            let b1 = leading_byte_width_3(c);
            let b2 = second_last_continuation_byte(c);
            let b3 = last_continuation_byte(c);
            &&& 0xe0 <= b1 <= 0xef
            &&& 0x80 <= b2
            &&& 0x80 <= b3
            &&& (((((b1 as u32) & 0x0f) << 12) | (((b2 as u32) & 0x3f) << 6)) | ((b3 as u32)
                & 0x3f)) == c
        }),
{
}

pub(crate) proof fn lemma_bits_width_4(c: u32)
    by (bit_vector)
    requires
        0x10000 <= c <= 0x10ffff,
    ensures
        ({
            let b1 = leading_byte_width_4(c);
            let b2 = third_last_continuation_byte(c);
            let b3 = second_last_continuation_byte(c);
            let b4 = last_continuation_byte(c);
            &&& 0xf0 <= b1 <= 0xf4
            &&& 0x80 <= b2
            &&& 0x80 <= b3
            &&& 0x80 <= b4
            &&& ((((((b1 as u32) & 0x07) << 18) | (((b2 as u32) & 0x3f) << 12)) | (((b3 as u32)
                & 0x3f) << 6)) | ((b4 as u32) & 0x3f)) == c
        }),
{
}

/// From rest, the bytes that encode one character decode to that character
/// and leave the decoder at rest.
pub proof fn lemma_decode_scalar(c: char)
    ensures
        decode(State::Ground, 0, encode_scalar(c as u32)) == (
            (State::Ground, 0u32),
            seq![Codepoint::Valid(c)],
        ),
{
    let v: u32 = c as u32;
    char_is_scalar(c);
    char_u32_cast(c, v);
    let bytes = encode_scalar(v);
    let none = Seq::<Codepoint>::empty();
    assert(decode(State::Ground, 0, bytes.take(0)) == ((State::Ground, 0u32), none));
    if has_width_1_encoding(v) {
        lemma_bits_width_1(v);
        let b1 = leading_byte_width_1(v);
        char_u32_cast(c, b1 as u32);
        assert(b1 as char == c);
        assert(bytes.drop_last() =~= bytes.take(0));
        assert(none.push(Codepoint::Valid(c)) =~= seq![Codepoint::Valid(c)]);
    } else if has_width_2_encoding(v) {
        lemma_bits_width_2(v);
        assert(bytes.take(1).drop_last() =~= bytes.take(0));
        assert(bytes.take(1).last() == bytes[0]);
        assert(decode(State::Ground, 0, bytes.take(1)).1 == none);
        assert(bytes.drop_last() =~= bytes.take(1));
        assert(none.push(Codepoint::Valid(c)) =~= seq![Codepoint::Valid(c)]);
    } else if has_width_3_encoding(v) {
        lemma_bits_width_3(v);
        assert(bytes.take(1).drop_last() =~= bytes.take(0));
        assert(bytes.take(1).last() == bytes[0]);
        assert(decode(State::Ground, 0, bytes.take(1)).1 == none);
        assert(bytes.take(2).drop_last() =~= bytes.take(1));
        assert(bytes.take(2).last() == bytes[1]);
        assert(decode(State::Ground, 0, bytes.take(2)).1 == none);
        assert(bytes.drop_last() =~= bytes.take(2));
        assert(none.push(Codepoint::Valid(c)) =~= seq![Codepoint::Valid(c)]);
    } else {
        lemma_bits_width_4(v);
        assert(bytes.take(1).drop_last() =~= bytes.take(0));
        assert(bytes.take(1).last() == bytes[0]);
        assert(decode(State::Ground, 0, bytes.take(1)).1 == none);
        assert(bytes.take(2).drop_last() =~= bytes.take(1));
        assert(bytes.take(2).last() == bytes[1]);
        assert(decode(State::Ground, 0, bytes.take(2)).1 == none);
        assert(bytes.take(3).drop_last() =~= bytes.take(2));
        assert(bytes.take(3).last() == bytes[2]);
        assert(decode(State::Ground, 0, bytes.take(3)).1 == none);
        assert(bytes.drop_last() =~= bytes.take(3));
        assert(none.push(Codepoint::Valid(c)) =~= seq![Codepoint::Valid(c)]);
    }
}

/// Round trip: from rest, the decoder turns the UTF-8 encoding of any text
/// back into that text, character by character, and ends at rest.
pub proof fn lemma_round_trip(text: Seq<char>)
    ensures
        decode(State::Ground, 0, encode_utf8(text)).0 == (State::Ground, 0u32),
        spells(decode(State::Ground, 0, encode_utf8(text)).1, text),
    decreases text.len(),
{
    if text.len() > 0 {
        char_u32_cast(text[0], text[0] as u32);
        let head = encode_scalar(text[0] as u32);
        let tail = encode_utf8(text.drop_first());
        lemma_decode_scalar(text[0]);
        lemma_round_trip(text.drop_first());
        lemma_decode_concat(State::Ground, 0, head, tail);
        let rest = decode(State::Ground, 0, tail).1;
        let out = decode(State::Ground, 0, encode_utf8(text)).1;
        assert(out == seq![Codepoint::Valid(text[0])] + rest);
        assert forall|i: int| 0 <= i < text.len() implies #[trigger] out[i] == Codepoint::Valid(
            text[i],
        ) by {
            if i > 0 {
                assert(out[i] == rest[i - 1]);
                assert(text.drop_first()[i - 1] == text[i]);
            }
        }
    }
}

} // verus!
