//! Lines of the human-readable listings of cameras and microphones.
use vstd::prelude::*;
use vstd::string::*;
use crate::resolution::{decimal_string, decimal_text};

verus! {

/// Said instead of a camera listing where cameras cannot be listed.
pub const CAMERAS_UNSUPPORTED: &'static str = "Camera listing is not supported on this platform";

/// The lines that show the camera at position `index` of the listing.
pub fn camera_line(index: usize, name: &str) -> (line: String)
    ensures
        line@ == "camera "@ + decimal_text(index as nat) + ":\n  name: "@ + name@,
{
    let mut line = String::from_str("camera ");
    let i = decimal_string(index as u64);
    line.append(i.as_str());
    line.append(":\n  name: ");
    line.append(name);
    line
}

/// The lines that show the microphone at position `index` of the listing.
pub fn mic_line(index: usize, name: &str) -> (line: String)
    ensures
        line@ == "mic "@ + decimal_text(index as nat) + ":\n  name: "@ + name@,
{
    let mut line = String::from_str("mic ");
    let i = decimal_string(index as u64);
    line.append(i.as_str());
    line.append(":\n  name: ");
    line.append(name);
    line
}

} // verus!
