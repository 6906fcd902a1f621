use vstd::prelude::*;
use vstd::string::StringExecFns;

use crate::keyboard::{AnalogKeyboard, KeyboardView};
use crate::text::{decimal, push_decimal};

verus! {

/// Seconds that the watcher waits after a scan that found no keyboard, and
/// after each relay run.
pub const RETRY_SECS: u64 = 2;

/// Milliseconds of pause after a relay session has ended.
pub const SESSION_PAUSE_MS: u64 = 500;

/// Status while the keyboard is not attached.
pub open spec fn not_found_status() -> Seq<char> {
    "Keyboard not found - plug it in"@
}

/// Status once the keyboard has been seen and the relay is being started.
pub open spec fn detected_status() -> Seq<char> {
    "Keyboard detected - launching Chrome bridge..."@
}

/// The address of the capture page on the loopback interface.
pub open spec fn page_url(http_port: u16) -> Seq<char> {
    "http://127.0.0.1:"@ + decimal(http_port as nat)
}

/// Status that tells the user where the capture page is.
pub open spec fn open_page_status(http_port: u16) -> Seq<char> {
    "Open Chrome -> "@ + page_url(http_port)
}

/// The two states of the device watcher.
#[derive(PartialEq, Eq, Structural, Clone, Copy, Debug)]
pub enum WatchState {
    /// Looking for the keyboard among the attached HID devices.
    Searching,
    /// The keyboard is attached: run the relay, then search again.
    Bridging,
}

/// Whether the (vendor id, product id) pair is among the attached devices.
pub open spec fn has_device(devices: Seq<(u16, u16)>, vid: u16, pid: u16) -> bool {
    exists|i: int| 0 <= i < devices.len() && devices[i] == (vid, pid)
}

/// Whether the keyboard's id pair is among the attached devices.
pub fn device_present(devices: &[(u16, u16)], vid: u16, pid: u16) -> (r: bool)
    ensures
        r == has_device(devices@, vid, pid),
{
    let mut i: usize = 0;
    while i < devices.len()
        invariant
            i <= devices@.len(),
            forall|k: int| 0 <= k < i ==> devices@[k] != (vid, pid),
        decreases devices.len() - i,
    {
        let (v, p) = devices[i];
        if v == vid && p == pid {
            assert(devices@[i as int] == (vid, pid));
            return true;
        }
        i = i + 1;
    }
    false
}

/// The outcome of one scan for the keyboard: the next state, with the status
/// that goes with it. Found, the watcher moves on to the relay; not found, it
/// keeps searching.
pub fn on_scan(kb: &mut AnalogKeyboard, found: bool) -> (r: WatchState)
    ensures
        r == (if found { WatchState::Bridging } else { WatchState::Searching }),
        final(kb)@ == (KeyboardView {
            status: if found { detected_status() } else { not_found_status() },
            ..old(kb)@
        }),
{
    proof {
        reveal_strlit("Keyboard detected - launching Chrome bridge...");
        reveal_strlit("Keyboard not found - plug it in");
    }
    if found {
        kb.set_status("Keyboard detected - launching Chrome bridge...");
        WatchState::Bridging
    } else {
        kb.set_status("Keyboard not found - plug it in");
        WatchState::Searching
    }
}

/// The address of the capture page served on `http_port`.
pub fn page_url_string(http_port: u16) -> (r: String)
    ensures
        r@ == page_url(http_port),
{
    let mut s = String::from_str("http://127.0.0.1:");
    push_decimal(&mut s, http_port as u64);
    proof {
        reveal_strlit("http://127.0.0.1:");
    }
    s
}

/// Tells the user, through the status line, where the capture page is.
pub fn announce_page(kb: &mut AnalogKeyboard, http_port: u16)
    ensures
        final(kb)@ == (KeyboardView { status: open_page_status(http_port), ..old(kb)@ }),
{
    let mut s = String::from_str("Open Chrome -> ");
    let url = page_url_string(http_port);
    s.append(url.as_str());
    proof {
        reveal_strlit("Open Chrome -> ");
    }
    kb.set_status_string(s);
}

} // verus!
