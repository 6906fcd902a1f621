//! Core of an analog keyboard bridge: decoding of analog key reports into
//! per-key travel levels, the keyboard state that consumers read, the capture
//! page and HTTP response served to the browser relay, and the decisions of
//! the relay session and of the device watcher.
pub mod bridge;
pub mod keyboard;
pub mod level;
pub mod page;
pub mod text;
pub mod watcher;

pub use bridge::{FrameEvent, Session, ANALOG_FRAME, FRAME_HEADER_LEN};
pub use keyboard::{
    digital_levels, parse_analog_input, AnalogKeyboard, KEY_SLOTS, REPORT_LEN, REPORT_TAG,
};
pub use level::{decode_level, DEADZONE, FULL_TRAVEL};
pub use page::{bridge_html, http_response, substitute_bytes};
pub use text::{decimal_string, hex4_string};
pub use watcher::{
    announce_page, device_present, on_scan, page_url_string, WatchState, RETRY_SECS,
    SESSION_PAUSE_MS,
};
