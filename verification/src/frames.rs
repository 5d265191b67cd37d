//! The relay's wire protocol: fixed 4-byte command frames.
//!
//! Every frame is `[0xF0, B1, B2, OPCODE]`.  The opcode picks the command
//! class (enter control mode, enter jog mode, arm a timer, or switch the
//! line), and `B1`/`B2` carry the opcode's payload.  Each high-level power
//! operation is a fixed, non-reorderable concatenation of such frames; the
//! spec functions here are the single definition of those byte sequences,
//! and the executable code in [`crate::port`] is proved against them.

use vstd::prelude::*;

verus! {

/// Which wiring the firmware build expects.  The two historical relay
/// variants differ only in the polarity of the enable byte of a switch
/// frame: on a normally-open build `Connect` is `0x01`, on a
/// normally-closed build the two enable bytes are swapped.
#[derive(Clone, Copy, Debug, PartialEq, Eq, Structural)]
pub enum Polarity {
    NormallyOpen,
    NormallyClosed,
}

/// What a switch frame asks the relay to do with the power line.
#[derive(Clone, Copy, Debug, PartialEq, Eq, Structural)]
pub enum Action {
    Connect,
    Disconnect,
}

/// The enable byte of a switch frame for the given wiring and action.
pub open spec fn enable_byte(polarity: Polarity, action: Action) -> u8 {
    match (polarity, action) {
        (Polarity::NormallyOpen, Action::Connect) => 0x01,
        (Polarity::NormallyOpen, Action::Disconnect) => 0x00,
        (Polarity::NormallyClosed, Action::Connect) => 0x00,
        (Polarity::NormallyClosed, Action::Disconnect) => 0x01,
    }
}

/// High byte of a 16-bit timer value; it travels in frame position 1.
pub open spec fn high_byte(seconds: u16) -> u8 {
    (seconds / 256) as u8
}

/// Low byte of a 16-bit timer value; it travels in frame position 2.
pub open spec fn low_byte(seconds: u16) -> u8 {
    (seconds % 256) as u8
}

/// The frame that puts the relay into control mode.
pub open spec fn control_frame() -> Seq<u8> {
    seq![0xF0u8, 0xA0u8, 0x0Cu8, 0x54u8]
}

/// The frame that puts the relay into jog mode.
pub open spec fn jog_frame() -> Seq<u8> {
    seq![0xF0u8, 0xA0u8, 0x0Cu8, 0x55u8]
}

/// The frame that arms a delayed transition after `seconds` seconds.
pub open spec fn timer_frame(seconds: u16) -> Seq<u8> {
    seq![0xF0u8, high_byte(seconds), low_byte(seconds), 0x57u8]
}

/// The frame that switches the power line.
pub open spec fn action_frame(polarity: Polarity, action: Action) -> Seq<u8> {
    seq![0xF0u8, 0xA0u8, enable_byte(polarity, action), 0x53u8]
}

/// Everything `on` sends: control mode, then connect.
pub open spec fn on_frames(polarity: Polarity) -> Seq<u8> {
    control_frame() + action_frame(polarity, Action::Connect)
}

/// Everything `off` sends: control mode, then disconnect.
pub open spec fn off_frames(polarity: Polarity) -> Seq<u8> {
    control_frame() + action_frame(polarity, Action::Disconnect)
}

/// Everything `toggle` sends: control mode, then a zero-timeout timer frame.
pub open spec fn toggle_frames() -> Seq<u8> {
    control_frame() + timer_frame(0)
}

/// Everything `jog` sends: jog mode (not control mode), then connect.
pub open spec fn jog_frames(polarity: Polarity) -> Seq<u8> {
    jog_frame() + action_frame(polarity, Action::Connect)
}

/// Everything `timed_on` sends.  The firmware convention pairs the *off*
/// sequence with the timer: the line is switched off first, and the armed
/// timer turns it on after `seconds` seconds.
pub open spec fn timed_on_frames(polarity: Polarity, seconds: u16) -> Seq<u8> {
    off_frames(polarity) + timer_frame(seconds)
}

/// Everything `timed_off` sends: the full *on* sequence, then the timer.
pub open spec fn timed_off_frames(polarity: Polarity, seconds: u16) -> Seq<u8> {
    on_frames(polarity) + timer_frame(seconds)
}

/// Law: a timer frame is exactly `[0xF0, high, low, 0x57]`, and the two
/// payload bytes are the big-endian-in-frame decomposition of `seconds`:
/// they determine it completely.
pub proof fn lemma_timer_frame_bytes(seconds: u16)
    ensures
        timer_frame(seconds).len() == 4,
        timer_frame(seconds)[0] == 0xF0u8,
        timer_frame(seconds)[1] == high_byte(seconds),
        timer_frame(seconds)[2] == low_byte(seconds),
        timer_frame(seconds)[3] == 0x57u8,
        high_byte(seconds) * 256 + low_byte(seconds) == seconds,
{
}

/// Law: two timer frames are equal only for equal timeouts.
pub proof fn lemma_timer_frame_injective(a: u16, b: u16)
    ensures
        timer_frame(a) == timer_frame(b) ==> a == b,
{
    if timer_frame(a) == timer_frame(b) {
        assert(timer_frame(a)[1] == timer_frame(b)[1]);
        assert(timer_frame(a)[2] == timer_frame(b)[2]);
        assert(a == high_byte(a) * 256 + low_byte(a));
        assert(b == high_byte(b) * 256 + low_byte(b));
    }
}

/// Law: a timed start is the full off sequence followed by the timer frame.
pub proof fn lemma_timed_on_is_off_then_timer(polarity: Polarity, seconds: u16)
    ensures
        timed_on_frames(polarity, seconds) == off_frames(polarity) + timer_frame(seconds),
{
}

/// Law: a timed stop is the full on sequence followed by the timer frame.
pub proof fn lemma_timed_off_is_on_then_timer(polarity: Polarity, seconds: u16)
    ensures
        timed_off_frames(polarity, seconds) == on_frames(polarity) + timer_frame(seconds),
{
}

} // verus!
