use vstd::prelude::*;
use vstd::string::StringExecFns;

use crate::level::{decode_level, level_of, FULL_TRAVEL};

verus! {

/// Number of key slots, one per HID usage code.
pub const KEY_SLOTS: usize = 256;

/// First byte of every analog report.
pub const REPORT_TAG: u8 = 0xA0;

/// Shortest analog report: tag, two pad bytes, key index, raw high, raw low.
pub const REPORT_LEN: usize = 6;

/// What an `AnalogKeyboard` holds, as mathematical values.
pub ghost struct KeyboardView {
    pub vid: u16,
    pub pid: u16,
    pub levels: Seq<u16>,
    pub active: bool,
    pub status: Seq<char>,
}

/// Live state of one analog keyboard: its identifiers, the level of each of
/// the 256 keys, whether analog data is streaming, and a status line.
pub struct AnalogKeyboard {
    vid: u16,
    pid: u16,
    values: [u16; 256],
    active: bool,
    status: String,
}

impl View for AnalogKeyboard {
    type V = KeyboardView;

    closed spec fn view(&self) -> KeyboardView {
        KeyboardView {
            vid: self.vid,
            pid: self.pid,
            levels: self.values@,
            active: self.active,
            status: self.status@,
        }
    }
}

/// A sequence of 256 levels, each within full travel.
pub open spec fn valid_levels(levels: Seq<u16>) -> bool {
    &&& levels.len() == KEY_SLOTS
    &&& forall|i: int| 0 <= i < levels.len() ==> levels[i] <= FULL_TRAVEL
}

/// Whether a payload is an analog report: long enough, and tagged.
pub open spec fn is_analog_report(data: Seq<u8>) -> bool {
    data.len() >= REPORT_LEN && data[0] == REPORT_TAG
}

/// The big-endian raw reading that an analog report carries.
pub open spec fn report_raw(data: Seq<u8>) -> u16 {
    (data[4] as int * 256 + data[5] as int) as u16
}

/// The levels after a payload has been applied: an analog report sets the
/// level of the one key it names, anything else changes nothing.
pub open spec fn report_levels(levels: Seq<u16>, data: Seq<u8>) -> Seq<u16> {
    if is_analog_report(data) {
        levels.update(data[3] as int, level_of(report_raw(data)))
    } else {
        levels
    }
}

/// Whether a level reads as a pressed key: above one hundredth of full travel.
pub open spec fn is_pressed(level: u16) -> bool {
    level * 100 > FULL_TRAVEL
}

/// How many of the first `n` levels read as pressed keys.
pub open spec fn pressed_among(levels: Seq<u16>, n: int) -> nat
    decreases n,
{
    if n <= 0 {
        0
    } else {
        pressed_among(levels, n - 1) + if is_pressed(levels[n - 1]) {
            1nat
        } else {
            0nat
        }
    }
}

/// How many keys read as pressed.
pub open spec fn pressed_count(levels: Seq<u16>) -> nat {
    pressed_among(levels, levels.len() as int)
}

proof fn pressed_among_bound(levels: Seq<u16>, n: int)
    requires
        0 <= n,
    ensures
        pressed_among(levels, n) <= n,
    decreases n,
{
    if n > 0 {
        pressed_among_bound(levels, n - 1);
    }
}

impl AnalogKeyboard {
    /// Whether the state is well formed: 256 levels, each within full travel.
    pub open spec fn wf(&self) -> bool {
        valid_levels(self@.levels)
    }

    /// A keyboard with the given identifiers, every key at rest, not active,
    /// with status "Starting...".
    pub fn new(vid: u16, pid: u16) -> (r: Self)
        ensures
            r.wf(),
            r@.vid == vid,
            r@.pid == pid,
            r@.levels == Seq::new(KEY_SLOTS as nat, |i: int| 0u16),
            !r@.active,
            r@.status == "Starting..."@,
    {
        let r = AnalogKeyboard {
            vid,
            pid,
            values: [0u16; 256],
            active: false,
            status: String::from_str("Starting..."),
        };
        assert(r@.levels =~= Seq::new(KEY_SLOTS as nat, |i: int| 0u16));
        r
    }

    /// A copy of all 256 levels.
    pub fn values(&self) -> (r: [u16; 256])
        ensures
            r@ == self@.levels,
    {
        self.values
    }

    /// The level of one key, by HID usage code.
    pub fn value(&self, code: u8) -> (r: u16)
        requires
            self.wf(),
        ensures
            r == self@.levels[code as int],
    {
        self.values[code as usize]
    }

    /// Replaces all 256 levels at once.
    pub fn set_values(&mut self, vals: &[u16; 256])
        requires
            valid_levels(vals@),
        ensures
            final(self).wf(),
            final(self)@.levels == vals@,
            forall|i: int| 0 <= i < KEY_SLOTS ==> final(self)@.levels[i] == vals@[i],
            final(self)@ == (KeyboardView { levels: vals@, ..old(self)@ }),
    {
        self.values = *vals;
    }

    /// Whether analog data is streaming.
    pub fn is_active(&self) -> (r: bool)
        ensures
            r == self@.active,
    {
        self.active
    }

    /// The current status line.
    pub fn status(&self) -> (r: String)
        ensures
            r@ == self@.status,
    {
        self.status.clone()
    }

    /// The vendor id given at construction.
    pub fn vid(&self) -> (r: u16)
        ensures
            r == self@.vid,
    {
        self.vid
    }

    /// The product id given at construction.
    pub fn pid(&self) -> (r: u16)
        ensures
            r == self@.pid,
    {
        self.pid
    }

    /// Replaces the status line.
    pub fn set_status(&mut self, msg: &str)
        ensures
            final(self)@ == (KeyboardView { status: msg@, ..old(self)@ }),
    {
        self.status = String::from_str(msg);
    }

    /// Replaces the status line with an owned string.
    pub fn set_status_string(&mut self, msg: String)
        ensures
            final(self)@ == (KeyboardView { status: msg@, ..old(self)@ }),
    {
        self.status = msg;
    }

    /// Sets whether analog data is streaming.
    pub fn set_active(&mut self, active: bool)
        ensures
            final(self)@ == (KeyboardView { active, ..old(self)@ }),
    {
        self.active = active;
    }

    /// How many keys read as pressed.
    pub fn pressed_keys(&self) -> (r: usize)
        requires
            self.wf(),
        ensures
            r == pressed_count(self@.levels),
    {
        let mut n: usize = 0;
        let mut i: usize = 0;
        while i < KEY_SLOTS
            invariant
                self.wf(),
                i <= KEY_SLOTS,
                n == pressed_among(self@.levels, i as int),
            decreases KEY_SLOTS - i,
        {
            proof {
                pressed_among_bound(self@.levels, i as int);
            }
            if self.values[i] as u32 * 100 > FULL_TRAVEL as u32 {
                n = n + 1;
            }
            i = i + 1;
        }
        n
    }
}

/// Applies one analog report payload to the keyboard: a payload shorter than
/// six bytes, or without the report tag, is ignored; else the level decoded
/// from its big-endian reading at bytes 4 and 5 is written to the key named
/// by byte 3, and no other key changes.
pub fn parse_analog_input(data: &[u8], kb: &mut AnalogKeyboard)
    requires
        old(kb).wf(),
    ensures
        final(kb).wf(),
        final(kb)@ == (KeyboardView { levels: report_levels(old(kb)@.levels, data@), ..old(kb)@ }),
{
    if data.len() < REPORT_LEN || data[0] != REPORT_TAG {
        return;
    }
    let key = data[3] as usize;
    let raw: u16 = (data[4] as u16) * 256 + data[5] as u16;
    let level = decode_level(raw);
    kb.values[key] = level;
    assert(kb@.levels =~= report_levels(old(kb)@.levels, data@));
}

/// The level of key `code` under digital input: full travel while the key is
/// among the pressed ones, zero otherwise.
pub open spec fn digital_level(pressed: Seq<u8>, code: int) -> u16 {
    if exists|k: int| 0 <= k < pressed.len() && pressed[k] == code {
        FULL_TRAVEL
    } else {
        0
    }
}

/// Levels for digital input, where a key is either at rest or fully pressed.
pub fn digital_levels(pressed: &[u8]) -> (r: [u16; 256])
    ensures
        valid_levels(r@),
        forall|i: int| 0 <= i < KEY_SLOTS ==> r@[i] == digital_level(pressed@, i),
{
    let mut levels = [0u16; 256];
    let mut j: usize = 0;
    while j < pressed.len()
        invariant
            j <= pressed@.len(),
            levels@.len() == KEY_SLOTS,
            forall|i: int|
                0 <= i < KEY_SLOTS ==> levels@[i] == (if exists|k: int|
                    0 <= k < j && pressed@[k] == i {
                    FULL_TRAVEL
                } else {
                    0
                }),
        decreases pressed.len() - j,
    {
        let code = pressed[j] as usize;
        levels[code] = FULL_TRAVEL;
        j = j + 1;
        assert forall|i: int| 0 <= i < KEY_SLOTS implies levels@[i] == (if exists|k: int|
            0 <= k < j && pressed@[k] == i {
            FULL_TRAVEL
        } else {
            0
        }) by {
            if i == code {
                assert(pressed@[j - 1] == i);
            } else if exists|k: int| 0 <= k < j && pressed@[k] == i {
                let k = choose|k: int| 0 <= k < j && pressed@[k] == i;
                assert(k < j - 1);
            }
        }
    }
    levels
}

/// A payload that is not an analog report leaves every level as it was.
pub proof fn non_report_leaves_levels(levels: Seq<u16>, data: Seq<u8>)
    requires
        data.len() < REPORT_LEN || data[0] != REPORT_TAG,
    ensures
        report_levels(levels, data) == levels,
{
}

/// An analog report changes the level of the key it names and of no other.
pub proof fn report_touches_one_key(levels: Seq<u16>, data: Seq<u8>, i: int)
    requires
        valid_levels(levels),
        is_analog_report(data),
        0 <= i < KEY_SLOTS,
        i != data[3],
    ensures
        report_levels(levels, data)[i] == levels[i],
        report_levels(levels, data)[data[3] as int] == level_of(report_raw(data)),
{
}

} // verus!
