//! The input translator: what a key press sends to the shell.
use crate::terminal::model::decimal;
use crate::terminal::report::push_decimal;
use crate::terminal::Screen;
use vstd::prelude::*;
use vstd::string::StringSliceAdditionalSpecFns;

verus! {

/// `x11::keysym::XK_Up`, the keysym of the Up key.
#[verifier::external_body]
fn xk_up() -> (keysym: u32)
    ensures
        keysym == 0xff52,
{
    x11::keysym::XK_Up
}

/// `x11::keysym::XK_Down`, the keysym of the Down key.
#[verifier::external_body]
fn xk_down() -> (keysym: u32)
    ensures
        keysym == 0xff54,
{
    x11::keysym::XK_Down
}

/// `x11::keysym::XK_Left`, the keysym of the Left key.
#[verifier::external_body]
fn xk_left() -> (keysym: u32)
    ensures
        keysym == 0xff51,
{
    x11::keysym::XK_Left
}

/// `x11::keysym::XK_Right`, the keysym of the Right key.
#[verifier::external_body]
fn xk_right() -> (keysym: u32)
    ensures
        keysym == 0xff53,
{
    x11::keysym::XK_Right
}

/// `x11::keysym::XK_BackSpace`, the keysym of the backspace key.
#[verifier::external_body]
fn xk_backspace() -> (keysym: u32)
    ensures
        keysym == 0xff08,
{
    x11::keysym::XK_BackSpace
}

/// `x11::keysym::XK_F10`, the keysym of the function key F10.
#[verifier::external_body]
fn xk_f10() -> (keysym: u32)
    ensures
        keysym == 0xffc7,
{
    x11::keysym::XK_F10
}

/// `x11::keysym::XK_Escape`, the keysym of the escape key.
#[verifier::external_body]
fn xk_escape() -> (keysym: u32)
    ensures
        keysym == 0xff1b,
{
    x11::keysym::XK_Escape
}

/// `x11::keysym::XK_c`, the keysym of the letter c.
#[verifier::external_body]
pub(crate) fn xk_c() -> (keysym: u32)
    ensures
        keysym == 0x63,
{
    x11::keysym::XK_c
}

/// `x11::keysym::XK_v`, the keysym of the letter v.
#[verifier::external_body]
pub(crate) fn xk_v() -> (keysym: u32)
    ensures
        keysym == 0x76,
{
    x11::keysym::XK_v
}

/// Whether the keysym is that of Up, Down, Left or Right.
pub open spec fn cursor_key(keysym: u32) -> bool {
    keysym == 0xff52 || keysym == 0xff54 || keysym == 0xff51 || keysym == 0xff53
}

/// Whether the keysym is that of Up, backspace, F10 or escape.
pub open spec fn special_key(keysym: u32) -> bool {
    keysym == 0xff52 || keysym == 0xff08 || keysym == 0xffc7 || keysym == 0xff1b
}

/// The final byte that stands for a cursor key: `A` up, `B` down, `D` left,
/// `C` right.
pub open spec fn arrow_letter(keysym: u32) -> u8 {
    if keysym == 0xff52 {
        0x41
    } else if keysym == 0xff54 {
        0x42
    } else if keysym == 0xff51 {
        0x44
    } else {
        0x43
    }
}

/// What a cursor key sends: with modifiers `CSI 1 ; m L`, where `m` is the
/// modifier state plus one; else `ESC O L` in application mode and `CSI L`
/// otherwise.
pub open spec fn arrow_bytes(keysym: u32, state: u32, application: bool) -> Seq<u8> {
    if state != 0 {
        seq![0x1bu8, 0x5b, 0x31, 0x3b] + decimal((state + 1) as nat) + seq![arrow_letter(keysym)]
    } else if application {
        seq![0x1bu8, 0x4f, arrow_letter(keysym)]
    } else {
        seq![0x1bu8, 0x5b, arrow_letter(keysym)]
    }
}

/// What backspace, F10 and escape send.
pub open spec fn special_bytes(keysym: u32) -> Option<Seq<u8>> {
    if keysym == 0xff08 {
        Some(seq![0x7fu8])
    } else if keysym == 0xffc7 {
        Some(seq![0x1bu8, 0x5b, 0x32, 0x31, 0x7e])
    } else if keysym == 0xff1b {
        Some(seq![0x1bu8])
    } else {
        None
    }
}

/// The bytes of a text without its NUL bytes.
pub open spec fn without_nul(bytes: Seq<u8>) -> Seq<u8>
    decreases bytes.len(),
{
    if bytes.len() == 0 {
        bytes
    } else if bytes.last() == 0 {
        without_nul(bytes.drop_last())
    } else {
        without_nul(bytes.drop_last()).push(bytes.last())
    }
}

/// What a pasted text sends: the text itself, between `CSI 200 ~` and
/// `CSI 201 ~` where bracketed paste is on.
pub open spec fn pasted(bytes: Seq<u8>, bracketed: bool) -> Seq<u8> {
    if bracketed {
        seq![0x1bu8, 0x5b, 0x32, 0x30, 0x30, 0x7e] + bytes + seq![
            0x1bu8,
            0x5b,
            0x32,
            0x30,
            0x31,
            0x7e,
        ]
    } else {
        bytes
    }
}

pub fn is_cursor_key(keysym: u32) -> (yes: bool)
    ensures
        yes == cursor_key(keysym),
{
    keysym == xk_up() || keysym == xk_down() || keysym == xk_left() || keysym == xk_right()
}

pub fn is_special_key(keysym: u32) -> (yes: bool)
    ensures
        yes == special_key(keysym),
{
    keysym == xk_up() || keysym == xk_backspace() || keysym == xk_f10() || keysym == xk_escape()
}

/// What a cursor key sends.
pub fn arrow(keysym: u32, state: u32, application: bool) -> (bytes: Vec<u8>)
    requires
        cursor_key(keysym),
    ensures
        bytes@ == arrow_bytes(keysym, state, application),
{
    let letter: u8 = if keysym == xk_up() {
        0x41
    } else if keysym == xk_down() {
        0x42
    } else if keysym == xk_left() {
        0x44
    } else {
        0x43
    };
    let mut bytes: Vec<u8> = Vec::new();
    bytes.push(0x1b);
    if state != 0 {
        bytes.push(0x5b);
        bytes.push(0x31);
        bytes.push(0x3b);
        push_decimal(&mut bytes, state as u64 + 1);
    } else if application {
        bytes.push(0x4f);
    } else {
        bytes.push(0x5b);
    }
    bytes.push(letter);
    assert(bytes@ =~= arrow_bytes(keysym, state, application));
    bytes
}

/// What backspace, F10 and escape send.
pub fn special(keysym: u32) -> (bytes: Option<Vec<u8>>)
    ensures
        match bytes {
            Some(b) => special_bytes(keysym) == Some(b@),
            None => special_bytes(keysym) is None,
        },
{
    let mut bytes: Vec<u8> = Vec::new();
    if keysym == xk_backspace() {
        bytes.push(0x7f);
        assert(bytes@ =~= seq![0x7fu8]);
        Some(bytes)
    } else if keysym == xk_f10() {
        bytes.push(0x1b);
        bytes.push(0x5b);
        bytes.push(0x32);
        bytes.push(0x31);
        bytes.push(0x7e);
        assert(bytes@ =~= seq![0x1bu8, 0x5b, 0x32, 0x31, 0x7e]);
        Some(bytes)
    } else if keysym == xk_escape() {
        bytes.push(0x1b);
        assert(bytes@ =~= seq![0x1bu8]);
        Some(bytes)
    } else {
        None
    }
}

/// Appends `bytes` to `out`.
pub fn push_all(out: &mut Vec<u8>, bytes: &[u8])
    ensures
        final(out)@ == old(out)@ + bytes@,
{
    let mut i: usize = 0;
    while i < bytes.len()
        invariant
            i <= bytes.len(),
            out@ == old(out)@ + bytes@.take(i as int),
        decreases bytes.len() - i,
    {
        out.push(bytes[i]);
        i += 1;
        assert(out@ =~= old(out)@ + bytes@.take(i as int));
    }
    assert(bytes@.take(bytes.len() as int) =~= bytes@);
}

/// The text that the window system composed for a key, as it goes to the
/// shell: without its NUL bytes.
pub fn typed(text: &str) -> (bytes: Vec<u8>)
    ensures
        bytes@ == without_nul(text.spec_bytes()),
{
    let raw = text.as_bytes();
    let mut bytes: Vec<u8> = Vec::new();
    let mut i: usize = 0;
    while i < raw.len()
        invariant
            i <= raw.len(),
            bytes@ == without_nul(raw@.take(i as int)),
        decreases raw.len() - i,
    {
        assert(raw@.take(i + 1).drop_last() =~= raw@.take(i as int));
        if raw[i] != 0 {
            bytes.push(raw[i]);
        }
        i += 1;
    }
    assert(raw@.take(raw.len() as int) =~= raw@);
    bytes
}

impl Screen {
    /// The clipboard's text as it goes to the shell.
    pub fn paste(&self, text: &str) -> (bytes: Vec<u8>)
        ensures
            bytes@ == pasted(text.spec_bytes(), self@.mode.decpaste),
    {
        let mut bytes: Vec<u8> = Vec::new();
        if self.mode.decpaste {
            bytes.push(0x1b);
            bytes.push(0x5b);
            bytes.push(0x32);
            bytes.push(0x30);
            bytes.push(0x30);
            bytes.push(0x7e);
            push_all(&mut bytes, text.as_bytes());
            bytes.push(0x1b);
            bytes.push(0x5b);
            bytes.push(0x32);
            bytes.push(0x30);
            bytes.push(0x31);
            bytes.push(0x7e);
        } else {
            push_all(&mut bytes, text.as_bytes());
        }
        assert(bytes@ =~= pasted(text.spec_bytes(), self@.mode.decpaste));
        bytes
    }
}

} // verus!
