//! The relay controller: every power operation as the exact frame bytes it
//! emits.
//!
//! A [`Port`] records the command frames of one invocation in order, as one
//! byte log.  Each operation's contract pins the bytes it appends to the
//! sequences defined in [`crate::frames`], so a caller that transmits the log
//! over the serial link (4 bytes at a time, with the hardware's settling
//! delay after each frame) sends exactly what the protocol asks for.  The
//! transmission itself, and its 50 ms pacing, live in the binary around this
//! library: they are real-time I/O, which stays out of verified code.

use vstd::prelude::*;

use crate::frames::{
    Action, Polarity, action_frame, control_frame, jog_frame, jog_frames, off_frames, on_frames,
    timed_off_frames, timed_on_frames, timer_frame, toggle_frames,
};

verus! {

/// A relay command channel.  It knows the wiring polarity the firmware
/// expects and keeps, in order, every frame byte emitted so far.
pub struct Port {
    polarity: Polarity,
    log: Vec<u8>,
}

impl Port {
    /// All frame bytes emitted so far, oldest first.
    pub closed spec fn sent(&self) -> Seq<u8> {
        self.log@
    }

    /// The wiring polarity this channel encodes switch frames for.
    pub closed spec fn polarity(&self) -> Polarity {
        self.polarity
    }

    /// A fresh channel that has emitted nothing.
    pub fn new(polarity: Polarity) -> (r: Port)
        ensures
            r.sent() == Seq::<u8>::empty(),
            r.polarity() == polarity,
    {
        Port { polarity, log: Vec::new() }
    }

    /// The emitted bytes, for the caller that transmits them.
    pub fn sent_bytes(&self) -> (r: &Vec<u8>)
        ensures
            r@ == self.sent(),
    {
        &self.log
    }

    /// Emit one 4-byte command frame.
    fn write(&mut self, command: [u8; 4])
        ensures
            final(self).sent() == old(self).sent() + command@,
            final(self).polarity() == old(self).polarity(),
    {
        self.log.push(command[0]);
        self.log.push(command[1]);
        self.log.push(command[2]);
        self.log.push(command[3]);
        proof {
            assert(self.log@ =~= old(self).log@ + command@);
        }
    }

    /// Put the relay into control mode.
    pub fn control_mode(&mut self)
        ensures
            final(self).sent() == old(self).sent() + control_frame(),
            final(self).polarity() == old(self).polarity(),
    {
        let command: [u8; 4] = [0xF0, 0xA0, 0x0C, 0x54];
        self.write(command);
        proof {
            assert(command@ =~= control_frame());
        }
    }

    /// Put the relay into jog mode.
    pub fn jog_mode(&mut self)
        ensures
            final(self).sent() == old(self).sent() + jog_frame(),
            final(self).polarity() == old(self).polarity(),
    {
        let command: [u8; 4] = [0xF0, 0xA0, 0x0C, 0x55];
        self.write(command);
        proof {
            assert(command@ =~= jog_frame());
        }
    }

    /// Arm a delayed transition after `timeout` seconds.  The payload is the
    /// 16-bit timeout split into bytes, high byte in frame position 1.
    pub fn send_timer(&mut self, timeout: u16)
        ensures
            final(self).sent() == old(self).sent() + timer_frame(timeout),
            final(self).polarity() == old(self).polarity(),
    {
        let high: u8 = (timeout / 256) as u8;
        let low: u8 = (timeout % 256) as u8;
        let command: [u8; 4] = [0xF0, high, low, 0x57];
        self.write(command);
        proof {
            assert(command@ =~= timer_frame(timeout));
        }
    }

    /// Switch the power line, with the enable byte the wiring asks for.
    pub fn send_action(&mut self, action: Action)
        ensures
            final(self).sent() == old(self).sent()
                + action_frame(old(self).polarity(), action),
            final(self).polarity() == old(self).polarity(),
    {
        let enable: u8 = match (self.polarity, action) {
            (Polarity::NormallyOpen, Action::Connect) => 0x01,
            (Polarity::NormallyOpen, Action::Disconnect) => 0x00,
            (Polarity::NormallyClosed, Action::Connect) => 0x00,
            (Polarity::NormallyClosed, Action::Disconnect) => 0x01,
        };
        let command: [u8; 4] = [0xF0, 0xA0, enable, 0x53];
        self.write(command);
        proof {
            assert(command@ =~= action_frame(old(self).polarity(), action));
        }
    }

    /// Switch the line towards its connected state.
    pub fn send_connect(&mut self)
        ensures
            final(self).sent() == old(self).sent()
                + action_frame(old(self).polarity(), Action::Connect),
            final(self).polarity() == old(self).polarity(),
    {
        self.send_action(Action::Connect)
    }

    /// Switch the line towards its disconnected state.
    pub fn send_disconnect(&mut self)
        ensures
            final(self).sent() == old(self).sent()
                + action_frame(old(self).polarity(), Action::Disconnect),
            final(self).polarity() == old(self).polarity(),
    {
        self.send_action(Action::Disconnect)
    }

    /// Start immediately: exactly two frames, control mode then connect.
    pub fn on(&mut self)
        ensures
            final(self).sent() == old(self).sent() + on_frames(old(self).polarity()),
            final(self).polarity() == old(self).polarity(),
    {
        self.control_mode();
        self.send_connect();
        proof {
            assert(self.sent() =~= old(self).sent() + on_frames(old(self).polarity()));
        }
    }

    /// Stop immediately: exactly two frames, control mode then disconnect.
    pub fn off(&mut self)
        ensures
            final(self).sent() == old(self).sent() + off_frames(old(self).polarity()),
            final(self).polarity() == old(self).polarity(),
    {
        self.control_mode();
        self.send_disconnect();
        proof {
            assert(self.sent() =~= old(self).sent() + off_frames(old(self).polarity()));
        }
    }

    /// Start after `timeout` seconds.  The firmware convention pairs the
    /// *off* sequence with the timer frame: the line goes off now and the
    /// timer turns it on later.
    pub fn timed_on(&mut self, timeout: u16)
        ensures
            final(self).sent() == old(self).sent()
                + timed_on_frames(old(self).polarity(), timeout),
            final(self).polarity() == old(self).polarity(),
    {
        self.off();
        self.send_timer(timeout);
        proof {
            assert(self.sent() =~= old(self).sent()
                + timed_on_frames(old(self).polarity(), timeout));
        }
    }

    /// Stop after `timeout` seconds: the full *on* sequence, then the timer.
    pub fn timed_off(&mut self, timeout: u16)
        ensures
            final(self).sent() == old(self).sent()
                + timed_off_frames(old(self).polarity(), timeout),
            final(self).polarity() == old(self).polarity(),
    {
        self.on();
        self.send_timer(timeout);
        proof {
            assert(self.sent() =~= old(self).sent()
                + timed_off_frames(old(self).polarity(), timeout));
        }
    }

    /// Toggle the line: control mode, then a zero-timeout timer frame.
    pub fn toggle(&mut self)
        ensures
            final(self).sent() == old(self).sent() + toggle_frames(),
            final(self).polarity() == old(self).polarity(),
    {
        self.control_mode();
        self.send_timer(0);
        proof {
            assert(self.sent() =~= old(self).sent() + toggle_frames());
        }
    }

    /// Quick momentary toggle: jog mode (not control mode), then connect.
    pub fn jog(&mut self)
        ensures
            final(self).sent() == old(self).sent() + jog_frames(old(self).polarity()),
            final(self).polarity() == old(self).polarity(),
    {
        self.jog_mode();
        self.send_connect();
        proof {
            assert(self.sent() =~= old(self).sent() + jog_frames(old(self).polarity()));
        }
    }
}

} // verus!
