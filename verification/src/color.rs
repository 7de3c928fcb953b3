//! Colours: 24-bit triples, their packed and textual forms, and the
//! `rr-gg-bb` notation of the configuration.
use crate::text::push_char;
use vstd::prelude::*;
use vstd::string::StringSliceAdditionalSpecFns;

verus! {

#[derive(Clone, Copy, Debug, PartialEq, Eq, Structural)]
pub struct Color {
    pub r: u64,
    pub g: u64,
    pub b: u64,
}

/// Why a text is no colour.
#[derive(Clone, Copy, Debug, PartialEq, Eq, Structural)]
pub enum ColorError {
    /// Not three fields separated by `-`.
    Format,
    /// A field without any character.
    Empty,
    /// A field with a character that is no hexadecimal digit.
    InvalidDigit,
    /// A field whose value does not fit in 64 bits.
    Overflow,
}

/// The value of a hexadecimal digit, in either case.
pub open spec fn digit_value(byte: u8) -> Option<int> {
    if 0x30 <= byte <= 0x39 {
        Some(byte - 0x30)
    } else if 0x61 <= byte <= 0x66 {
        Some(byte - 0x61 + 10)
    } else if 0x41 <= byte <= 0x46 {
        Some(byte - 0x41 + 10)
    } else {
        None
    }
}

/// The number that a run of hexadecimal digits denotes, read from the left.
/// The first character that is no digit, or the first digit that takes the
/// value past `u64::MAX`, decides the error.
pub open spec fn digits_value(s: Seq<u8>) -> Result<int, ColorError>
    decreases s.len(),
{
    if s.len() == 0 {
        Ok(0)
    } else {
        match digits_value(s.drop_last()) {
            Err(e) => Err(e),
            Ok(v) => match digit_value(s.last()) {
                None => Err(ColorError::InvalidDigit),
                Some(d) => if v * 16 + d > u64::MAX {
                    Err(ColorError::Overflow)
                } else {
                    Ok(v * 16 + d)
                },
            },
        }
    }
}

/// One field: an optional `+`, then at least one hexadecimal digit.
pub open spec fn field_value(s: Seq<u8>) -> Result<int, ColorError> {
    if s.len() == 0 {
        Err(ColorError::Empty)
    } else if s[0] == 0x2b {
        if s.len() == 1 {
            Err(ColorError::InvalidDigit)
        } else {
            digits_value(s.skip(1))
        }
    } else {
        digits_value(s)
    }
}

/// Where the first `-` of `s` stands; the length of `s` where it has none.
pub open spec fn first_dash(s: Seq<u8>) -> int
    decreases s.len(),
{
    if s.len() == 0 || s[0] == 0x2d {
        0
    } else {
        1 + first_dash(s.drop_first())
    }
}

/// What `rr-gg-bb` notation says of the bytes of a text: black for the
/// empty text; else exactly three fields, each a number in hexadecimal. The
/// first field that is no number decides the error.
pub open spec fn parse_color(s: Seq<u8>) -> Result<Color, ColorError> {
    let first = first_dash(s);
    let rest = s.skip(first + 1);
    let second = first_dash(rest);
    let tail = rest.skip(second + 1);
    if s.len() == 0 {
        Ok(Color { r: 0, g: 0, b: 0 })
    } else if first == s.len() || second == rest.len() || first_dash(tail) != tail.len() {
        Err(ColorError::Format)
    } else {
        match field_value(s.take(first)) {
            Err(e) => Err(e),
            Ok(r) => match field_value(rest.take(second)) {
                Err(e) => Err(e),
                Ok(g) => match field_value(tail) {
                    Err(e) => Err(e),
                    Ok(b) => Ok(Color { r: r as u64, g: g as u64, b: b as u64 }),
                },
            },
        }
    }
}

/// The lower-case hexadecimal digit for a value below 16.
pub open spec fn hex_digit(d: int) -> char {
    if d < 10 {
        ((0x30 + d) as u8) as char
    } else {
        ((0x61 + d - 10) as u8) as char
    }
}

/// A number in lower-case hexadecimal, without leading zeros.
pub open spec fn hex_digits(v: nat) -> Seq<char>
    decreases v,
{
    if v < 16 {
        seq![hex_digit(v as int)]
    } else {
        hex_digits(v / 16).push(hex_digit((v % 16) as int))
    }
}

/// A number in lower-case hexadecimal, at least two digits wide.
pub open spec fn hex_pair(v: nat) -> Seq<char> {
    if v < 16 {
        seq!['0', hex_digit(v as int)]
    } else {
        hex_digits(v)
    }
}

fn hex_digit_of(d: u64) -> (c: char)
    requires
        d < 16,
    ensures
        c == hex_digit(d as int),
{
    if d < 10 {
        (0x30 + d as u8) as char
    } else {
        (0x61 + (d as u8 - 10)) as char
    }
}

fn push_hex_digits(text: &mut String, v: u64)
    ensures
        final(text)@ == old(text)@ + hex_digits(v as nat),
    decreases v,
{
    if v >= 16 {
        push_hex_digits(text, v / 16);
    }
    push_char(text, hex_digit_of(v % 16));
    assert(text@ =~= old(text)@ + hex_digits(v as nat));
}

fn push_hex_pair(text: &mut String, v: u64)
    ensures
        final(text)@ == old(text)@ + hex_pair(v as nat),
{
    if v < 16 {
        push_char(text, '0');
    }
    push_hex_digits(text, v);
    assert(text@ =~= old(text)@ + hex_pair(v as nat));
}

/// The position of the first `-` at or after `from`.
fn find_dash(bytes: &[u8], from: usize) -> (at: usize)
    requires
        from <= bytes@.len(),
    ensures
        from <= at <= bytes@.len(),
        at - from == first_dash(bytes@.skip(from as int)),
{
    let mut at: usize = from;
    while at < bytes.len() && bytes[at] != 0x2d
        invariant
            from <= at <= bytes@.len(),
            first_dash(bytes@.skip(from as int)) == at - from + first_dash(bytes@.skip(at as int)),
        decreases bytes@.len() - at,
    {
        assert(bytes@.skip(at as int).drop_first() =~= bytes@.skip(at + 1));
        at += 1;
    }
    at
}

/// The number written in `bytes[from..to]`.
fn parse_digits(bytes: &[u8], from: usize, to: usize) -> (r: Result<u64, ColorError>)
    requires
        from <= to <= bytes@.len(),
    ensures
        match r {
            Ok(v) => digits_value(bytes@.subrange(from as int, to as int)) == Ok::<
                int,
                ColorError,
            >(v as int),
            Err(e) => digits_value(bytes@.subrange(from as int, to as int)) == Err::<
                int,
                ColorError,
            >(e),
        },
{
    let mut value: u64 = 0;
    let mut at: usize = from;
    while at < to
        invariant
            from <= at <= to <= bytes@.len(),
            digits_value(bytes@.subrange(from as int, at as int)) == Ok::<int, ColorError>(
                value as int,
            ),
        decreases to - at,
    {
        let byte: u8 = bytes[at];
        let digit: u64 = if 0x30 <= byte && byte <= 0x39 {
            (byte - 0x30) as u64
        } else if 0x61 <= byte && byte <= 0x66 {
            (byte - 0x61 + 10) as u64
        } else if 0x41 <= byte && byte <= 0x46 {
            (byte - 0x41 + 10) as u64
        } else {
            16
        };
        proof {
            assert(bytes@.subrange(from as int, at + 1).drop_last() =~= bytes@.subrange(
                from as int,
                at as int,
            ));
            lemma_digits_error_stays(
                bytes@.subrange(from as int, to as int),
                at + 1 - from,
            );
            assert(bytes@.subrange(from as int, to as int).take(at + 1 - from) =~= bytes@.subrange(
                from as int,
                at + 1,
            ));
        }
        if digit == 16 {
            return Err(ColorError::InvalidDigit);
        }
        if value > (u64::MAX - digit) / 16 {
            return Err(ColorError::Overflow);
        }
        value = value * 16 + digit;
        at += 1;
    }
    assert(bytes@.subrange(from as int, at as int) =~= bytes@.subrange(from as int, to as int));
    Ok(value)
}

/// Once a prefix is no number, no longer text is one, and for the same
/// reason.
pub proof fn lemma_digits_error_stays(s: Seq<u8>, n: int)
    requires
        0 <= n <= s.len(),
    ensures
        digits_value(s.take(n)) is Err ==> digits_value(s) == digits_value(s.take(n)),
    decreases s.len() - n,
{
    if n < s.len() {
        lemma_digits_error_stays(s, n + 1);
        assert(s.take(n + 1).drop_last() =~= s.take(n));
    } else {
        assert(s.take(n) =~= s);
    }
}

/// The field written in `bytes[from..to]`.
fn parse_field(bytes: &[u8], from: usize, to: usize) -> (r: Result<u64, ColorError>)
    requires
        from <= to <= bytes@.len(),
    ensures
        match r {
            Ok(v) => field_value(bytes@.subrange(from as int, to as int)) == Ok::<int, ColorError>(
                v as int,
            ),
            Err(e) => field_value(bytes@.subrange(from as int, to as int)) == Err::<
                int,
                ColorError,
            >(e),
        },
{
    if from == to {
        Err(ColorError::Empty)
    } else if bytes[from] == 0x2b {
        if to - from == 1 {
            Err(ColorError::InvalidDigit)
        } else {
            assert(bytes@.subrange(from as int, to as int).skip(1) =~= bytes@.subrange(
                from + 1,
                to as int,
            ));
            parse_digits(bytes, from + 1, to)
        }
    } else {
        parse_digits(bytes, from, to)
    }
}

impl Color {
    pub fn new(r: u64, g: u64, b: u64) -> (color: Color)
        ensures
            color == (Color { r, g, b }),
    {
        Color { r, g, b }
    }

    /// Whether every component fits in eight bits.
    pub open spec fn is_rgb(&self) -> bool {
        self.r <= 0xff && self.g <= 0xff && self.b <= 0xff
    }

    /// The packed value: blue in the lowest eight bits, then green, then red.
    pub open spec fn packed(&self) -> int {
        self.b + self.g * 0x100 + self.r * 0x10000
    }

    /// Reads `rr-gg-bb` notation; the empty text is black.
    pub fn from_str(rgb: &str) -> (r: Result<Color, ColorError>)
        ensures
            r == parse_color(rgb.spec_bytes()),
    {
        let bytes = rgb.as_bytes();
        let len: usize = bytes.len();
        if len == 0 {
            return Ok(Color::new(0, 0, 0));
        }
        let first: usize = find_dash(bytes, 0);
        assert(bytes@.skip(0) =~= bytes@);
        if first == len {
            return Err(ColorError::Format);
        }
        let second: usize = find_dash(bytes, first + 1);
        if second == len {
            return Err(ColorError::Format);
        }
        let third: usize = find_dash(bytes, second + 1);
        proof {
            let s = bytes@;
            let rest = s.skip(first + 1);
            let tail = rest.skip(second - first);
            assert(tail =~= s.skip(second + 1));
            assert(s.take(first as int) =~= s.subrange(0, first as int));
            assert(rest.take(second - first - 1) =~= s.subrange(first + 1, second as int));
            assert(tail =~= s.subrange(second + 1, len as int));
        }
        if third != len {
            return Err(ColorError::Format);
        }
        let r: u64 = match parse_field(bytes, 0, first) {
            Ok(v) => v,
            Err(e) => { return Err(e); },
        };
        let g: u64 = match parse_field(bytes, first + 1, second) {
            Ok(v) => v,
            Err(e) => { return Err(e); },
        };
        let b: u64 = match parse_field(bytes, second + 1, len) {
            Ok(v) => v,
            Err(e) => { return Err(e); },
        };
        Ok(Color::new(r, g, b))
    }

    /// Whether every component fits in eight bits.
    pub fn fits(&self) -> (yes: bool)
        ensures
            yes == self.is_rgb(),
    {
        self.r <= 0xff && self.g <= 0xff && self.b <= 0xff
    }

    /// The packed value for the window system's fill operations.
    pub fn encode(&self) -> (v: u64)
        requires
            self.packed() <= u64::MAX,
        ensures
            v == self.packed(),
    {
        self.b + self.g * 0x100 + self.r * 0x10000
    }

    /// `#` and the three components in lower-case hexadecimal, each at
    /// least two digits wide.
    pub fn hex(&self) -> (text: String)
        ensures
            text@ == seq!['#'] + hex_pair(self.r as nat) + hex_pair(self.g as nat) + hex_pair(
                self.b as nat,
            ),
    {
        let mut text = String::new();
        push_char(&mut text, '#');
        push_hex_pair(&mut text, self.r);
        push_hex_pair(&mut text, self.g);
        push_hex_pair(&mut text, self.b);
        assert(text@ =~= seq!['#'] + hex_pair(self.r as nat) + hex_pair(self.g as nat) + hex_pair(
            self.b as nat,
        ));
        text
    }
}

/// A colour of eight-bit components packs into 24 bits.
pub proof fn lemma_rgb_packs(color: Color)
    requires
        color.is_rgb(),
    ensures
        0 <= color.packed() <= 0xff_ffff,
{
}

} // verus!
