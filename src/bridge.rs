use vstd::prelude::*;
use vstd::string::StringExecFns;

use crate::keyboard::{
    parse_analog_input, pressed_count, report_levels, AnalogKeyboard, KeyboardView,
};
use crate::text::{decimal, push_decimal};

verus! {

/// Message type of a relay frame that carries an analog report.
pub const ANALOG_FRAME: u8 = 0x03;

/// Bytes in front of the payload of a relay frame: message type, reserved.
pub const FRAME_HEADER_LEN: usize = 2;

/// What a read on the relay connection gave.
pub enum FrameEvent {
    /// A binary frame, with its bytes.
    Binary(Vec<u8>),
    /// Any other message: text, ping, pong.
    Other,
    /// A close frame, or a failed read: the session is over.
    Closed,
}

/// The view of a frame event: its bytes for a binary frame.
pub ghost enum FrameEventView {
    Binary(Seq<u8>),
    Other,
    Closed,
}

impl View for FrameEvent {
    type V = FrameEventView;

    open spec fn view(&self) -> FrameEventView {
        match self {
            FrameEvent::Binary(b) => FrameEventView::Binary(b@),
            FrameEvent::Other => FrameEventView::Other,
            FrameEvent::Closed => FrameEventView::Closed,
        }
    }
}

/// Status while the relay waits for the browser.
pub open spec fn waiting_status() -> Seq<char> {
    "Waiting for Chrome connection..."@
}

/// Status once the browser has connected to the relay.
pub open spec fn connected_status() -> Seq<char> {
    "Chrome connected - click Connect in browser"@
}

/// Status after an analog frame, with the number of pressed keys.
pub open spec fn analog_status(pressed: nat) -> Seq<char> {
    "Analog active! ("@ + decimal(pressed) + " keys)"@
}

/// Status once a session has ended.
pub open spec fn disconnected_status() -> Seq<char> {
    "Chrome disconnected - reconnecting..."@
}

/// Whether a frame is an analog frame: at least three bytes, of the analog type.
pub open spec fn is_analog_frame(frame: Seq<u8>) -> bool {
    frame.len() > FRAME_HEADER_LEN && frame[0] == ANALOG_FRAME
}

/// The payload of a frame: what follows the type and reserved bytes.
pub open spec fn frame_payload(frame: Seq<u8>) -> Seq<u8> {
    frame.skip(FRAME_HEADER_LEN as int)
}

/// One relay session: one accepted connection from the capture page.
pub struct Session {
    got_analog: bool,
}

impl Session {
    /// Whether an analog frame has come in this session.
    pub closed spec fn seen_analog(&self) -> bool {
        self.got_analog
    }

    /// Enters the wait for a browser connection: status set, not active.
    pub fn await_connection(kb: &mut AnalogKeyboard)
        ensures
            final(kb)@ == (KeyboardView { active: false, status: waiting_status(), ..old(kb)@ }),
    {
        kb.set_status("Waiting for Chrome connection...");
        kb.set_active(false);
        proof {
            reveal_strlit("Waiting for Chrome connection...");
        }
    }

    /// Starts a session on a connection whose handshake succeeded.
    pub fn connected(kb: &mut AnalogKeyboard) -> (r: Session)
        ensures
            !r.seen_analog(),
            final(kb)@ == (KeyboardView { status: connected_status(), ..old(kb)@ }),
    {
        kb.set_status("Chrome connected - click Connect in browser");
        proof {
            reveal_strlit("Chrome connected - click Connect in browser");
        }
        Session { got_analog: false }
    }

    /// Handles one read from the connection; returns whether to keep reading.
    /// An analog frame marks the keyboard active (status "Analog active!" on
    /// the first one), applies its payload, then reports how many keys are
    /// pressed. Short binary frames and other messages change nothing. A close
    /// or a failed read ends the session: the keyboard is no longer active.
    pub fn handle(&mut self, kb: &mut AnalogKeyboard, event: &FrameEvent) -> (r: bool)
        requires
            old(kb).wf(),
        ensures
            final(kb).wf(),
            r == !(event@ is Closed),
            match event@ {
                FrameEventView::Binary(frame) => if is_analog_frame(frame) {
                    let levels = report_levels(old(kb)@.levels, frame_payload(frame));
                    &&& final(self).seen_analog()
                    &&& final(kb)@ == (KeyboardView {
                        levels,
                        active: if old(self).seen_analog() { old(kb)@.active } else { true },
                        status: analog_status(pressed_count(levels)),
                        ..old(kb)@
                    })
                } else {
                    final(self).seen_analog() == old(self).seen_analog() && final(kb)@ == old(kb)@
                },
                FrameEventView::Other => {
                    final(self).seen_analog() == old(self).seen_analog() && final(kb)@ == old(kb)@
                },
                FrameEventView::Closed => {
                    &&& final(self).seen_analog() == old(self).seen_analog()
                    &&& final(kb)@ == (KeyboardView {
                        active: false,
                        status: disconnected_status(),
                        ..old(kb)@
                    })
                },
            },
    {
        match event {
            FrameEvent::Binary(frame) => {
                if frame.len() <= FRAME_HEADER_LEN || frame[0] != ANALOG_FRAME {
                    return true;
                }
                if !self.got_analog {
                    self.got_analog = true;
                    kb.set_active(true);
                    kb.set_status("Analog active!");
                }
                let (_, payload) = frame.as_slice().split_at(FRAME_HEADER_LEN);
                parse_analog_input(payload, kb);
                let pressed = kb.pressed_keys();
                let mut msg = String::from_str("Analog active! (");
                push_decimal(&mut msg, pressed as u64);
                msg.append(" keys)");
                proof {
                    reveal_strlit("Analog active! (");
                    reveal_strlit(" keys)");
                    assert(payload@ =~= frame_payload(frame@));
                    assert(msg@ =~= analog_status(pressed_count(kb@.levels)));
                }
                kb.set_status_string(msg);
                true
            },
            FrameEvent::Other => true,
            FrameEvent::Closed => {
                kb.set_active(false);
                kb.set_status("Chrome disconnected - reconnecting...");
                proof {
                    reveal_strlit("Chrome disconnected - reconnecting...");
                }
                false
            },
        }
    }
}

} // verus!
