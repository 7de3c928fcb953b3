//! What holds of the terminal over whole runs of bytes from the shell.
use crate::escape::{step, Machine, State};
use crate::terminal::laws::{flag, lemma_csi_mode_toggle};
use crate::terminal::model::{decimal, feed, feed_until, Model, Outcome};
use vstd::prelude::*;

verus! {

/// The terminal after `bytes` were fed one by one.
pub open spec fn fed(t: (Machine, Model), bytes: Seq<u8>) -> (Machine, Model)
    decreases bytes.len(),
{
    if bytes.len() == 0 {
        t
    } else {
        feed(fed(t, bytes.drop_last()), bytes.last()).0
    }
}

/// Whether none of `bytes`, fed one by one, asks anything of the host.
pub open spec fn quiet(t: (Machine, Model), bytes: Seq<u8>) -> bool
    decreases bytes.len(),
{
    bytes.len() == 0 || (quiet(t, bytes.drop_last()) && feed(
        fed(t, bytes.drop_last()),
        bytes.last(),
    ).1 is Nothing)
}

/// The bytes that set or reset a private mode: `CSI ? code h` and
/// `CSI ? code l`.
pub open spec fn mode_bytes(code: u16, on: bool) -> Seq<u8> {
    seq![0x1bu8, 0x5b, 0x3f] + decimal(code as nat) + seq![
        if on {
            0x68u8
        } else {
            0x6cu8
        },
    ]
}

/// Feeding two runs one after the other is feeding their concatenation.
pub proof fn lemma_fed_concat(t: (Machine, Model), a: Seq<u8>, b: Seq<u8>)
    ensures
        fed(t, a + b) == fed(fed(t, a), b),
        quiet(t, a + b) == (quiet(t, a) && quiet(fed(t, a), b)),
    decreases b.len(),
{
    if b.len() == 0 {
        assert(a + b =~= a);
    } else {
        lemma_fed_concat(t, a, b.drop_last());
        assert((a + b).drop_last() =~= a + b.drop_last());
        assert((a + b).last() == b.last());
    }
}

/// A run that asks nothing has no start that asks anything.
pub proof fn lemma_quiet_start(t: (Machine, Model), bytes: Seq<u8>, k: int)
    requires
        quiet(t, bytes),
        0 <= k <= bytes.len(),
    ensures
        quiet(t, bytes.take(k)),
    decreases bytes.len(),
{
    if k == bytes.len() {
        assert(bytes.take(k) =~= bytes);
    } else {
        lemma_quiet_start(t, bytes.drop_last(), k);
        assert(bytes.drop_last().take(k) =~= bytes.take(k));
    }
}

/// Taking up a run that asks nothing at any index goes through to its end.
pub proof fn lemma_feed_until_quiet(t: (Machine, Model), bytes: Seq<u8>, at: int)
    requires
        quiet(t, bytes),
        0 <= at <= bytes.len(),
    ensures
        feed_until(fed(t, bytes.take(at)), bytes, at) == (
            fed(t, bytes),
            bytes.len() as int,
            Outcome::Nothing,
        ),
    decreases bytes.len() - at,
{
    if at == bytes.len() {
        assert(bytes.take(at) =~= bytes);
    } else {
        lemma_quiet_start(t, bytes, at + 1);
        assert(bytes.take(at + 1).drop_last() =~= bytes.take(at));
        assert(bytes.take(at + 1).last() == bytes[at]);
        lemma_feed_until_quiet(t, bytes, at + 1);
    }
}

/// A whole run that asks nothing is taken to its end.
pub proof fn lemma_feed_until_all(t: (Machine, Model), bytes: Seq<u8>)
    requires
        quiet(t, bytes),
    ensures
        feed_until(t, bytes, 0) == (fed(t, bytes), bytes.len() as int, Outcome::Nothing),
{
    lemma_feed_until_quiet(t, bytes, 0);
    assert(bytes.take(0) =~= Seq::<u8>::empty());
}

/// One more byte after a run.
pub proof fn lemma_fed_push(t: (Machine, Model), bytes: Seq<u8>, byte: u8)
    ensures
        fed(t, bytes.push(byte)) == feed(fed(t, bytes), byte).0,
        quiet(t, bytes.push(byte)) == (quiet(t, bytes) && feed(fed(t, bytes), byte).1 is Nothing),
        fed(t, Seq::<u8>::empty()) == t,
        quiet(t, Seq::<u8>::empty()),
{
    assert(bytes.push(byte).drop_last() =~= bytes);
    assert(bytes.push(byte).last() == byte);
}

/// A byte that completes no action of the parser leaves the screen alone
/// and asks nothing.
pub proof fn lemma_feed_silent(t: (Machine, Model), byte: u8)
    requires
        step(t.0, byte).1 is None,
    ensures
        feed(t, byte) == ((step(t.0, byte).0, t.1), Outcome::Nothing),
{
}

/// Inside a control sequence whose only parameter is still zero, the
/// digits of a number that fits in sixteen bits make that number the
/// parameter, and ask nothing.
pub proof fn lemma_fed_digits(t: (Machine, Model), v: nat)
    requires
        t.0.state == State::CsiParams,
        t.0.params == seq![0u16],
        v <= u16::MAX,
    ensures
        fed(t, decimal(v)) == ((Machine { params: seq![v as u16], ..t.0 }), t.1),
        quiet(t, decimal(v)),
    decreases v,
{
    let last: u8 = (0x30 + v % 10) as u8;
    if v < 10 {
        let none = Seq::<u8>::empty();
        assert(decimal(v) =~= none.push(last));
        lemma_fed_push(t, none, last);
        assert(step(t.0, last).0.params =~= seq![v as u16]);
        lemma_feed_silent(t, last);
    } else {
        lemma_fed_digits(t, v / 10);
        let before = fed(t, decimal(v / 10));
        lemma_fed_push(t, decimal(v / 10), last);
        assert(step(before.0, last).0.params =~= seq![v as u16]);
        lemma_feed_silent(before, last);
    }
}

/// The introducer of a private control sequence, `CSI ?`, asks nothing,
/// leaves the screen alone and the parser inside a control sequence with
/// one parameter, still zero, and the mark as the only intermediate.
pub proof fn lemma_fed_intro(t: (Machine, Model))
    ensures
        quiet(t, seq![0x1bu8, 0x5b, 0x3f]),
        fed(t, seq![0x1bu8, 0x5b, 0x3f]) == (
            (Machine {
                state: State::CsiParams,
                params: seq![0u16],
                intermediates: seq![0x3fu8],
                osc: Seq::empty(),
                utf8: t.0.utf8,
            }),
            t.1,
        ),
{
    let none = Seq::<u8>::empty();
    let one = none.push(0x1bu8);
    let two = one.push(0x5bu8);
    let three = two.push(0x3fu8);
    assert(three =~= seq![0x1bu8, 0x5b, 0x3f]);
    lemma_fed_push(t, none, 0x1b);
    lemma_feed_silent(t, 0x1b);
    let t1 = fed(t, one);
    lemma_fed_push(t, one, 0x5b);
    lemma_feed_silent(t1, 0x5b);
    let t2 = fed(t, two);
    lemma_fed_push(t, two, 0x3f);
    lemma_feed_silent(t2, 0x3f);
    assert(step(t2.0, 0x3f).0.intermediates =~= seq![0x3fu8]);
}

/// `CSI ?` and the digits of a code ask nothing, leave the screen alone
/// and the parser inside a control sequence with the code as its only
/// parameter.
#[verifier::rlimit(30)]
pub proof fn lemma_fed_head(t: (Machine, Model), code: u16)
    ensures
        quiet(t, seq![0x1bu8, 0x5b, 0x3f] + decimal(code as nat)),
        fed(t, seq![0x1bu8, 0x5b, 0x3f] + decimal(code as nat)).1 == t.1,
        fed(t, seq![0x1bu8, 0x5b, 0x3f] + decimal(code as nat)).0.state == State::CsiParams,
        fed(t, seq![0x1bu8, 0x5b, 0x3f] + decimal(code as nat)).0.params == seq![code],
        fed(t, seq![0x1bu8, 0x5b, 0x3f] + decimal(code as nat)).0.utf8 == t.0.utf8,
{
    let intro = seq![0x1bu8, 0x5b, 0x3f];
    lemma_fed_intro(t);
    lemma_fed_digits(fed(t, intro), code as nat);
    lemma_fed_concat(t, intro, decimal(code as nat));
}

/// The bytes `CSI ? code h` and `CSI ? code l` ask nothing of the host and
/// do to the screen what the control sequence with that one parameter
/// does; the parser ends outside any sequence.
#[verifier::rlimit(30)]
pub proof fn lemma_fed_mode(t: (Machine, Model), code: u16, on: bool)
    ensures
        quiet(t, mode_bytes(code, on)),
        fed(t, mode_bytes(code, on)).0.state == State::Anywhere,
        fed(t, mode_bytes(code, on)).0.utf8 == t.0.utf8,
        fed(t, mode_bytes(code, on)).1 == t.1.csi(
            seq![code],
            if on {
                'h'
            } else {
                'l'
            },
        ).0,
{
    let head = seq![0x1bu8, 0x5b, 0x3f] + decimal(code as nat);
    let end: u8 = if on {
        0x68
    } else {
        0x6c
    };
    lemma_fed_head(t, code);
    lemma_fed_push(t, head, end);
    assert(mode_bytes(code, on) =~= head.push(end));
    assert(end as char == (if on {
        'h'
    } else {
        'l'
    }));
    lemma_feed_final(fed(t, head), end);
}

/// The final byte `h` or `l` of a control sequence dispatches it, which
/// asks nothing of the host.
pub proof fn lemma_feed_final(t: (Machine, Model), end: u8)
    requires
        t.0.state == State::CsiParams,
        end == 0x68 || end == 0x6c,
    ensures
        feed(t, end).0.0.state == State::Anywhere,
        feed(t, end).0.0.utf8 == t.0.utf8,
        feed(t, end).0.1 == t.1.csi(t.0.params, end as char).0,
        feed(t, end).1 is Nothing,
{
}

/// Mode toggling, byte by byte: `CSI ? N h` and then `CSI ? N l`, each
/// taken as the shell sends it, are taken to their ends without asking
/// anything of the host and leave the flag of `N` off; where it was off
/// before, all the modes are as they were.
pub proof fn lemma_bytes_mode_toggle(t: (Machine, Model), code: u16)
    requires
        t.1.wf(),
    ensures
        ({
            let set = feed_until(t, mode_bytes(code, true), 0);
            let reset = feed_until(set.0, mode_bytes(code, false), 0);
            &&& set.1 == mode_bytes(code, true).len()
            &&& set.2 is Nothing
            &&& reset.1 == mode_bytes(code, false).len()
            &&& reset.2 is Nothing
            &&& !flag(reset.0.1.mode, code as int)
            &&& !flag(t.1.mode, code as int) ==> reset.0.1.mode == t.1.mode
        }),
{
    lemma_fed_mode(t, code, true);
    lemma_feed_until_all(t, mode_bytes(code, true));
    let set = fed(t, mode_bytes(code, true));
    lemma_fed_mode(set, code, false);
    lemma_feed_until_all(set, mode_bytes(code, false));
    lemma_csi_mode_toggle(t.1, code);
}

} // verus!
