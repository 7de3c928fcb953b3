//! Escape-sequence recognition: a byte-fed state machine that turns a stream
//! of text, C0 controls and CSI, OSC and ESC sequences into actions.
pub mod utf8;

use crate::escape::utf8::{
    decode_step, lemma_bits_width_1, lemma_bits_width_2, lemma_bits_width_3, lemma_bits_width_4,
    Codepoint, Utf8,
};
use vstd::prelude::*;
use vstd::slice::slice_subrange;
use vstd::utf8::{
    char_is_scalar, char_u32_cast, encode_scalar, encode_utf8, has_width_1_encoding,
    has_width_2_encoding, has_width_3_encoding, leading_byte_width_1,
};

verus! {

pub const MAX_INTERMEDIATES: usize = 2;

pub const MAX_CSI: usize = 128;

pub const MAX_OSC: usize = 1024;

/// What one byte can complete. The slices borrow the parser's own buffers
/// and hold until the next byte is fed.
#[derive(Debug)]
pub enum Action<'a> {
    Print(char),
    Execute(u8),
    CsiDispatch(&'a [u16], &'a [u8], char),
    EscDispatch(&'a [u8], u8),
    OscDispatch(&'a [u8]),
}

/// An action with its payload by value.
pub enum Event {
    Print(char),
    Execute(u8),
    CsiDispatch(Seq<u16>, Seq<u8>, char),
    EscDispatch(Seq<u8>, u8),
    OscDispatch(Seq<u8>),
}

impl<'a> View for Action<'a> {
    type V = Event;

    open spec fn view(&self) -> Event {
        match *self {
            Action::Print(c) => Event::Print(c),
            Action::Execute(b) => Event::Execute(b),
            Action::CsiDispatch(params, intermediates, c) => Event::CsiDispatch(
                params@,
                intermediates@,
                c,
            ),
            Action::EscDispatch(intermediates, b) => Event::EscDispatch(intermediates@, b),
            Action::OscDispatch(data) => Event::OscDispatch(data@),
        }
    }
}

/// The events behind what `advance` returns.
pub open spec fn event_of(action: Option<Action<'_>>) -> Option<Event> {
    match action {
        Some(a) => Some(a@),
        None => None,
    }
}

#[derive(Debug, Clone, Copy, PartialEq, Eq, Structural)]
pub enum State {
    Anywhere,
    Entry,
    CsiParams,
    EscParams,
    OscParams,
}

/// The reason a byte was turned away. The recognizer takes every byte, so
/// `advance` never hands one out.
#[derive(Debug, Clone, Copy, PartialEq, Eq, Structural)]
pub struct ParseError;

/// The parser as a value: its state, the parameters of the control sequence
/// under way (the last one is the slot being filled), the intermediates
/// gathered, the string of the operating system command under way, and the
/// UTF-8 decoder.
pub struct Machine {
    pub state: State,
    pub params: Seq<u16>,
    pub intermediates: Seq<u8>,
    pub osc: Seq<u8>,
    pub utf8: (utf8::State, u32),
}

impl Machine {
    /// The bounds of the fixed buffers.
    pub open spec fn wf(self) -> bool {
        &&& 1 <= self.params.len() <= MAX_CSI
        &&& self.intermediates.len() <= MAX_INTERMEDIATES
        &&& self.osc.len() <= MAX_OSC
    }
}

/// `s` with `byte` appended where fewer than `limit` bytes are held; a full
/// buffer drops the byte.
pub open spec fn push_within(s: Seq<u8>, byte: u8, limit: int) -> Seq<u8> {
    if s.len() < limit {
        s.push(byte)
    } else {
        s
    }
}

/// A decimal digit appended to a parameter, saturating at `u16::MAX`.
pub open spec fn accumulate(value: u16, byte: u8) -> u16 {
    if value * 10 + (byte - 0x30) > 0xffff {
        0xffffu16
    } else {
        (value * 10 + (byte - 0x30)) as u16
    }
}

/// The byte that opens every sequence: whatever the state, the parameters
/// and intermediates are cleared and a sequence is entered.
pub open spec fn step_escape(m: Machine) -> (Machine, Option<Event>) {
    (
        Machine {
            state: State::Entry,
            params: seq![0u16],
            intermediates: Seq::empty(),
            osc: Seq::empty(),
            utf8: m.utf8,
        },
        None,
    )
}

/// Text and C0 controls outside any sequence.
pub open spec fn step_anywhere(m: Machine, byte: u8) -> (Machine, Option<Event>) {
    if byte <= 0x1f {
        (m, Some(Event::Execute(byte)))
    } else {
        let (utf8, found) = decode_step(m.utf8.0, m.utf8.1, byte);
        (
            Machine { utf8, ..m },
            match found {
                Some(Codepoint::Valid(c)) => Some(Event::Print(c)),
                _ => None,
            },
        )
    }
}

/// What a byte after the introducer of an escape sequence makes of the
/// intermediates: a final byte dispatches them and leaves none, an
/// intermediate is kept, anything else is passed over. Only a final byte
/// ends the sequence.
pub open spec fn esc_param_step(intermediates: Seq<u8>, byte: u8) -> (
    Seq<u8>,
    State,
    Option<Event>,
) {
    if 0x30 <= byte <= 0x7e {
        (Seq::empty(), State::Anywhere, Some(Event::EscDispatch(intermediates, byte)))
    } else if 0x20 <= byte <= 0x2f {
        (push_within(intermediates, byte, MAX_INTERMEDIATES as int), State::EscParams, None)
    } else {
        (intermediates, State::EscParams, None)
    }
}

/// The bytes of an escape sequence after its introducer.
pub open spec fn step_esc_param(m: Machine, byte: u8) -> (Machine, Option<Event>) {
    let (intermediates, state, event) = esc_param_step(m.intermediates, byte);
    (Machine { state, intermediates, ..m }, event)
}

/// The byte after ESC.
pub open spec fn step_entry(m: Machine, byte: u8) -> (Machine, Option<Event>) {
    if byte == 0x5b {
        (Machine { state: State::CsiParams, ..m }, None)
    } else if byte == 0x5d {
        (Machine { state: State::OscParams, ..m }, None)
    } else {
        step_esc_param(m, byte)
    }
}

/// The bytes of a control sequence.
pub open spec fn step_csi(m: Machine, byte: u8) -> (Machine, Option<Event>) {
    let last = m.params.len() - 1;
    if 0x40 <= byte <= 0x7d {
        (
            Machine { state: State::Anywhere, ..m },
            Some(Event::CsiDispatch(m.params, m.intermediates, byte as char)),
        )
    } else if byte == 0x3a || byte == 0x3b {
        (
            Machine {
                params: if m.params.len() < MAX_CSI {
                    m.params.push(0u16)
                } else {
                    m.params
                },
                ..m
            },
            None,
        )
    } else if 0x30 <= byte <= 0x39 {
        (Machine { params: m.params.update(last, accumulate(m.params[last], byte)), ..m }, None)
    } else if 0x20 <= byte <= 0x2f || 0x3c <= byte <= 0x3f {
        (
            Machine {
                intermediates: push_within(m.intermediates, byte, MAX_INTERMEDIATES as int),
                ..m
            },
            None,
        )
    } else if byte <= 0x0f {
        (m, Some(Event::Execute(byte)))
    } else {
        (m, None)
    }
}

/// The bytes of an operating system command, up to BEL or ST.
pub open spec fn step_osc(m: Machine, byte: u8) -> (Machine, Option<Event>) {
    if byte == 0x07 || byte == 0x9c {
        (Machine { state: State::Anywhere, ..m }, Some(Event::OscDispatch(m.osc)))
    } else {
        (Machine { osc: push_within(m.osc, byte, MAX_OSC as int), ..m }, None)
    }
}

/// The whole transition function: the machine after `byte`, and the event
/// that the byte completes, if any.
pub open spec fn step(m: Machine, byte: u8) -> (Machine, Option<Event>) {
    if byte == 0x1b {
        step_escape(m)
    } else {
        match m.state {
            State::Anywhere => step_anywhere(m, byte),
            State::Entry => step_entry(m, byte),
            State::CsiParams => step_csi(m, byte),
            State::EscParams => step_esc_param(m, byte),
            State::OscParams => step_osc(m, byte),
        }
    }
}

pub struct Params {
    csi: [u16; 128],
    osc: [u8; 1024],
    index: usize,
    written: usize,
}

pub struct Intermediates {
    buf: [u8; 2],
    index: usize,
}

impl View for Intermediates {
    type V = Seq<u8>;

    closed spec fn view(&self) -> Seq<u8> {
        self.buf@.take(self.index as int)
    }
}

impl Intermediates {
    pub closed spec fn wf(&self) -> bool {
        self.index <= MAX_INTERMEDIATES
    }

    /// Keeps `byte` unless both places are taken.
    fn push(&mut self, byte: u8)
        requires
            old(self).wf(),
        ensures
            final(self).wf(),
            final(self)@ == push_within(old(self)@, byte, MAX_INTERMEDIATES as int),
    {
        if self.index < MAX_INTERMEDIATES {
            let at: usize = self.index;
            self.buf[at] = byte;
            self.index = at + 1;
            assert(self@ =~= old(self)@.push(byte));
        }
    }

    /// One byte of an escape sequence after its introducer. A final byte
    /// hands out the dispatch and returns `state` to `Anywhere`; any other
    /// byte leaves `state` at `EscParams`.
    pub fn esc_param<'a>(&'a mut self, byte: u8, state: &mut State) -> (r: Result<
        Option<Action<'a>>,
        ParseError,
    >)
        requires
            old(self).wf(),
        ensures
            final(self).wf(),
            r is Ok,
            (final(self)@, *final(state), event_of(r->Ok_0)) == esc_param_step(old(self)@, byte),
    {
        if byte >= 0x30 && byte <= 0x7e {
            let held: usize = self.index;
            *state = State::Anywhere;
            self.index = 0;
            assert(self@ =~= Seq::<u8>::empty());
            Ok(Some(Action::EscDispatch(slice_subrange(self.buf.as_slice(), 0, held), byte)))
        } else {
            *state = State::EscParams;
            if byte >= 0x20 && byte <= 0x2f {
                self.push(byte);
            }
            Ok(None)
        }
    }
}

pub struct Parser {
    state: State,
    params: Params,
    intermediates: Intermediates,
    utf8: Utf8,
}

impl View for Parser {
    type V = Machine;

    closed spec fn view(&self) -> Machine {
        Machine {
            state: self.state,
            params: self.params.csi@.take(self.params.index + 1),
            intermediates: self.intermediates@,
            osc: self.params.osc@.take(self.params.written as int),
            utf8: self.utf8@,
        }
    }
}

impl Parser {
    /// What the fields keep between bytes: the indexes stay inside the
    /// buffers, and the parameter slots not yet reached hold zero.
    pub closed spec fn wf(&self) -> bool {
        &&& self.params.index < MAX_CSI
        &&& self.params.written <= MAX_OSC
        &&& self.intermediates.wf()
        &&& forall|i: int| self.params.index < i < MAX_CSI ==> self.params.csi@[i] == 0
    }

    pub fn new() -> (parser: Parser)
        ensures
            parser.wf(),
            parser@.wf(),
            parser@ == (Machine {
                state: State::Anywhere,
                params: seq![0u16],
                intermediates: Seq::empty(),
                osc: Seq::empty(),
                utf8: (utf8::State::Ground, 0u32),
            }),
    {
        let parser = Parser {
            state: State::Anywhere,
            params: Params { csi: [0; 128], osc: [0; 1024], index: 0, written: 0 },
            intermediates: Intermediates { buf: [0; 2], index: 0 },
            utf8: Utf8::new(),
        };
        assert(parser@.params =~= seq![0u16]);
        assert(parser@.intermediates =~= Seq::<u8>::empty());
        assert(parser@.osc =~= Seq::<u8>::empty());
        parser
    }

    /// The parameters of the control sequence under way, or of the one
    /// dispatched last.
    pub fn params(&self) -> (params: &[u16])
        requires
            self.wf(),
        ensures
            params@ == self@.params,
    {
        slice_subrange(self.params.csi.as_slice(), 0, self.params.index + 1)
    }

    /// Feeds one byte. No byte is refused, and each byte completes at most
    /// one action.
    pub fn advance<'a>(&'a mut self, byte: u8) -> (r: Result<Option<Action<'a>>, ParseError>)
        requires
            old(self).wf(),
        ensures
            final(self).wf(),
            r is Ok,
            (final(self)@, event_of(r->Ok_0)) == step(old(self)@, byte),
    {
        if byte == 0x1b {
            self.intermediates.index = 0;
            self.params.index = 0;
            self.params.written = 0;
            self.intermediates.buf = [0; 2];
            self.params.csi = [0; 128];
            self.state = State::Entry;
            assert(self@.params =~= seq![0u16]);
            assert(self@.intermediates =~= Seq::<u8>::empty());
            assert(self@.osc =~= Seq::<u8>::empty());
            return Ok(None);
        }
        match self.state {
            State::Anywhere => {
                if byte <= 0x1f {
                    Ok(Some(Action::Execute(byte)))
                } else {
                    match self.utf8.advance(byte) {
                        Some(Codepoint::Valid(c)) => Ok(Some(Action::Print(c))),
                        _ => Ok(None),
                    }
                }
            },
            State::Entry => {
                if byte == 0x5b {
                    self.state = State::CsiParams;
                    Ok(None)
                } else if byte == 0x5d {
                    self.state = State::OscParams;
                    Ok(None)
                } else {
                    self.intermediates.esc_param(byte, &mut self.state)
                }
            },
            State::CsiParams => {
                let at: usize = self.params.index;
                if byte >= 0x40 && byte <= 0x7d {
                    let held: usize = self.intermediates.index;
                    self.state = State::Anywhere;
                    Ok(
                        Some(
                            Action::CsiDispatch(
                                slice_subrange(self.params.csi.as_slice(), 0, at + 1),
                                slice_subrange(self.intermediates.buf.as_slice(), 0, held),
                                byte as char,
                            ),
                        ),
                    )
                } else if byte == 0x3a || byte == 0x3b {
                    if at + 1 < MAX_CSI {
                        self.params.index = at + 1;
                        assert(self@.params =~= old(self)@.params.push(0u16));
                    }
                    Ok(None)
                } else if byte >= 0x30 && byte <= 0x39 {
                    let sum: u32 = self.params.csi[at] as u32 * 10 + (byte - 0x30) as u32;
                    let value: u16 = if sum > 0xffff {
                        0xffff
                    } else {
                        sum as u16
                    };
                    self.params.csi[at] = value;
                    assert(self@.params =~= old(self)@.params.update(at as int, value));
                    Ok(None)
                } else if (byte >= 0x20 && byte <= 0x2f) || (byte >= 0x3c && byte <= 0x3f) {
                    self.intermediates.push(byte);
                    Ok(None)
                } else if byte <= 0x0f {
                    Ok(Some(Action::Execute(byte)))
                } else {
                    Ok(None)
                }
            },
            State::EscParams => self.intermediates.esc_param(byte, &mut self.state),
            State::OscParams => {
                let held: usize = self.params.written;
                if byte == 0x07 || byte == 0x9c {
                    self.state = State::Anywhere;
                    Ok(
                        Some(
                            Action::OscDispatch(
                                slice_subrange(self.params.osc.as_slice(), 0, held),
                            ),
                        ),
                    )
                } else {
                    if held < MAX_OSC {
                        self.params.osc[held] = byte;
                        self.params.written = held + 1;
                        assert(self@.osc =~= old(self)@.osc.push(byte));
                    }
                    Ok(None)
                }
            },
        }
    }
}

/// The machine run over `bytes`: where it ends, and the events that came
/// out, in order.
pub open spec fn run(m: Machine, bytes: Seq<u8>) -> (Machine, Seq<Event>)
    decreases bytes.len(),
{
    if bytes.len() == 0 {
        (m, Seq::empty())
    } else {
        let (before, out) = run(m, bytes.drop_last());
        let (after, found) = step(before, bytes.last());
        (
            after,
            match found {
                Some(e) => out.push(e),
                None => out,
            },
        )
    }
}

/// Whether `out` prints `text`, character by character, and does nothing
/// else.
pub open spec fn prints(out: Seq<Event>, text: Seq<char>) -> bool {
    &&& out.len() == text.len()
    &&& forall|i: int| 0 <= i < text.len() ==> #[trigger] out[i] == Event::Print(text[i])
}

/// No byte takes the machine out of the bounds of its buffers.
pub proof fn lemma_step_wf(m: Machine, byte: u8)
    requires
        m.wf(),
    ensures
        step(m, byte).0.wf(),
{
}

/// Totality: whatever the bytes, the machine stays within its bounds and
/// hands out at most one event for each byte.
pub proof fn lemma_run_bounded(m: Machine, bytes: Seq<u8>)
    requires
        m.wf(),
    ensures
        run(m, bytes).0.wf(),
        run(m, bytes).1.len() <= bytes.len(),
    decreases bytes.len(),
{
    if bytes.len() > 0 {
        lemma_run_bounded(m, bytes.drop_last());
        lemma_step_wf(run(m, bytes.drop_last()).0, bytes.last());
    }
}

/// ESC resets: in every state the byte 0x1B enters a sequence with one
/// empty parameter, no intermediates and an empty command string, and hands
/// out nothing.
pub proof fn lemma_escape_resets(m: Machine)
    ensures
        step(m, 0x1b).0.state == State::Entry,
        step(m, 0x1b).0.params == seq![0u16],
        step(m, 0x1b).0.intermediates == Seq::<u8>::empty(),
        step(m, 0x1b).0.osc == Seq::<u8>::empty(),
        step(m, 0x1b).1 is None,
{
}

/// Running two pieces one after the other is running their concatenation.
pub proof fn lemma_run_concat(m: Machine, a: Seq<u8>, b: Seq<u8>)
    ensures
        run(m, a + b) == ({
            let (middle, first) = run(m, a);
            let (end, second) = run(middle, b);
            (end, first + second)
        }),
    decreases b.len(),
{
    let (middle, first) = run(m, a);
    if b.len() == 0 {
        assert(a + b =~= a);
        assert(first + Seq::<Event>::empty() =~= first);
    } else {
        lemma_run_concat(m, a, b.drop_last());
        assert((a + b).drop_last() =~= a + b.drop_last());
        assert((a + b).last() == b.last());
        let (before, out) = run(middle, b.drop_last());
        match step(before, b.last()).1 {
            Some(e) => {
                assert(first + out.push(e) =~= (first + out).push(e));
            },
            None => {},
        }
    }
}

/// Outside a sequence and with the decoder at rest, the bytes that encode
/// one character from U+0020 on print that character and change nothing.
pub proof fn lemma_run_scalar(m: Machine, c: char)
    requires
        m.state == State::Anywhere,
        m.utf8 == (utf8::State::Ground, 0u32),
        c as u32 >= 0x20,
    ensures
        run(m, encode_scalar(c as u32)) == (m, seq![Event::Print(c)]),
{
    let v: u32 = c as u32;
    char_is_scalar(c);
    char_u32_cast(c, v);
    let bytes = encode_scalar(v);
    let none = Seq::<Event>::empty();
    assert(run(m, bytes.take(0)) == (m, none));
    assert(none.push(Event::Print(c)) =~= seq![Event::Print(c)]);
    if has_width_1_encoding(v) {
        lemma_bits_width_1(v);
        char_u32_cast(c, leading_byte_width_1(v) as u32);
        assert(bytes.drop_last() =~= bytes.take(0));
    } else if has_width_2_encoding(v) {
        lemma_bits_width_2(v);
        assert(bytes.take(1).drop_last() =~= bytes.take(0));
        assert(bytes.take(1).last() == bytes[0]);
        assert(run(m, bytes.take(1)).1 == none);
        assert(bytes.drop_last() =~= bytes.take(1));
    } else if has_width_3_encoding(v) {
        lemma_bits_width_3(v);
        assert(bytes.take(1).drop_last() =~= bytes.take(0));
        assert(bytes.take(1).last() == bytes[0]);
        assert(run(m, bytes.take(1)).1 == none);
        assert(bytes.take(2).drop_last() =~= bytes.take(1));
        assert(bytes.take(2).last() == bytes[1]);
        assert(run(m, bytes.take(2)).1 == none);
        assert(bytes.drop_last() =~= bytes.take(2));
    } else {
        lemma_bits_width_4(v);
        assert(bytes.take(1).drop_last() =~= bytes.take(0));
        assert(bytes.take(1).last() == bytes[0]);
        assert(run(m, bytes.take(1)).1 == none);
        assert(bytes.take(2).drop_last() =~= bytes.take(1));
        assert(bytes.take(2).last() == bytes[1]);
        assert(run(m, bytes.take(2)).1 == none);
        assert(bytes.take(3).drop_last() =~= bytes.take(2));
        assert(bytes.take(3).last() == bytes[2]);
        assert(run(m, bytes.take(3)).1 == none);
        assert(bytes.drop_last() =~= bytes.take(3));
    }
}

/// Round trip: outside a sequence and with the decoder at rest, the UTF-8
/// encoding of a text without C0 controls prints that text, one action for
/// each character in order, and leaves the machine as it was.
pub proof fn lemma_text_round_trip(m: Machine, text: Seq<char>)
    requires
        m.state == State::Anywhere,
        m.utf8 == (utf8::State::Ground, 0u32),
        forall|i: int| 0 <= i < text.len() ==> text[i] as u32 >= 0x20,
    ensures
        run(m, encode_utf8(text)).0 == m,
        prints(run(m, encode_utf8(text)).1, text),
    decreases text.len(),
{
    if text.len() > 0 {
        char_u32_cast(text[0], text[0] as u32);
        let head = encode_scalar(text[0] as u32);
        let tail = encode_utf8(text.drop_first());
        lemma_run_scalar(m, text[0]);
        assert forall|i: int| 0 <= i < text.drop_first().len() implies text.drop_first()[i] as u32
            >= 0x20 by {
            assert(text.drop_first()[i] == text[i + 1]);
        }
        lemma_text_round_trip(m, text.drop_first());
        lemma_run_concat(m, head, tail);
        let rest = run(m, tail).1;
        let out = run(m, encode_utf8(text)).1;
        assert(out == seq![Event::Print(text[0])] + rest);
        assert forall|i: int| 0 <= i < text.len() implies #[trigger] out[i] == Event::Print(
            text[i],
        ) by {
            if i > 0 {
                assert(out[i] == rest[i - 1]);
                assert(text.drop_first()[i - 1] == text[i]);
            }
        }
    }
}

} // verus!
