//! Recording and screenshot sessions: how the capture is configured, how its files
//! are named, why it stops, and what the client says along the way.
use vstd::prelude::*;
use vstd::string::*;
use crate::resolution::{decimal_string, decimal_text, decimal_value};

verus! {

/// What starts the name of a new recording.
pub const RECORDING_PREFIX: &'static str = "cap-";

/// What ends the name of a new recording.
pub const RECORDING_SUFFIX: &'static str = ".cap";

/// What starts the name of a new screenshot.
pub const SCREENSHOT_PREFIX: &'static str = "cap-screenshot-";

/// What ends the name of a new screenshot.
pub const SCREENSHOT_SUFFIX: &'static str = ".png";

/// Said before a screenshot is taken.
pub const CAPTURING_SCREENSHOT: &'static str = "Capturing screenshot...";

/// Said when a recording starts that stops by itself after a while.
pub const TIMED_NOTICE: &'static str = "Recording... (will auto-stop after specified duration)";

/// Said when a recording starts that runs until it is interrupted.
pub const OPEN_ENDED_NOTICE: &'static str = "Recording... (press Ctrl+C to stop)";

/// What names a failure to list what can be captured.
pub const SHAREABLE_CONTENT_ERROR: &'static str = "Failed to get shareable content";

/// What names a failure to take a screenshot.
pub const SCREENSHOT_ERROR: &'static str = "Screenshot failed";

/// What names a failure to write a screenshot to disk.
pub const SAVE_SCREENSHOT_ERROR: &'static str = "Failed to save screenshot";

/// How a recording is made.
#[derive(Debug, Clone, Copy, PartialEq, Eq, Structural)]
pub enum RecordingMode {
    /// A project with separate tracks, for later editing.
    Studio,
    /// A single file, ready to share.
    Instant,
}

/// The name of a mode, as the arguments and the results write it.
pub open spec fn mode_name(mode: RecordingMode) -> Seq<char> {
    match mode {
        RecordingMode::Studio => "studio"@,
        RecordingMode::Instant => "instant"@,
    }
}

impl RecordingMode {
    /// The name of the mode, as the arguments and the results write it.
    pub fn as_str(&self) -> (name: &'static str)
        ensures
            name@ == mode_name(*self),
    {
        match self {
            RecordingMode::Studio => "studio",
            RecordingMode::Instant => "instant",
        }
    }
}

/// What ended a recording.
#[derive(Debug, Clone, Copy, PartialEq, Eq, Structural)]
pub enum StopEvent {
    /// The user pressed Ctrl+C.
    Interrupted,
    /// The requested duration went by.
    DurationReached,
    /// The recorder finished on its own.
    RecordingCompleted,
}

/// The reason given for a stop.
pub fn stop_reason(event: StopEvent) -> (reason: &'static str)
    ensures
        reason@ == (match event {
            StopEvent::Interrupted => "interrupted"@,
            StopEvent::DurationReached => "duration reached"@,
            StopEvent::RecordingCompleted => "recording completed"@,
        }),
{
    match event {
        StopEvent::Interrupted => "interrupted",
        StopEvent::DurationReached => "duration reached",
        StopEvent::RecordingCompleted => "recording completed",
    }
}

/// How the recorder is set up.
#[derive(Debug, Clone, Copy, PartialEq, Eq, Structural)]
pub struct CaptureSettings {
    /// Whether the system's sound is recorded too.
    pub system_audio: bool,
    /// Whether the cursor is drawn separately; `None` leaves the recorder's default.
    pub custom_cursor: Option<bool>,
    /// The highest frame rate; `None` leaves the recorder's default.
    pub max_fps: Option<u32>,
}

/// How a recorder in `mode` is set up. A studio recording draws no separate cursor and
/// keeps the requested frame rate; an instant recording keeps the recorder's defaults
/// for both, so a requested frame rate has no effect there.
pub fn capture_settings(mode: RecordingMode, system_audio: bool, fps: Option<u32>) -> (settings:
    CaptureSettings)
    ensures
        settings.system_audio == system_audio,
        settings.custom_cursor == (match mode {
            RecordingMode::Studio => Some(false),
            RecordingMode::Instant => None::<bool>,
        }),
        settings.max_fps == (match mode {
            RecordingMode::Studio => fps,
            RecordingMode::Instant => None::<u32>,
        }),
{
    match mode {
        RecordingMode::Studio => CaptureSettings {
            system_audio,
            custom_cursor: Some(false),
            max_fps: fps,
        },
        RecordingMode::Instant => CaptureSettings { system_audio, custom_cursor: None, max_fps: None },
    }
}

/// What is said once the recorder runs: whether it stops by itself.
pub fn recording_notice(timed: bool) -> (notice: &'static str)
    ensures
        notice@ == (if timed { TIMED_NOTICE@ } else { OPEN_ENDED_NOTICE@ }),
{
    if timed {
        TIMED_NOTICE
    } else {
        OPEN_ENDED_NOTICE
    }
}

/// A lower-case hexadecimal digit.
pub open spec fn is_lower_hex(c: char) -> bool {
    ('0' <= c && c <= '9') || ('a' <= c && c <= 'f')
}

/// A random UUID in its hyphenated lower-case text form, such as
/// `67e55044-10b1-426f-9247-bb680e5fe0c8`: version digit `4`, variant digit `8` to `b`.
pub open spec fn is_uuid_text(s: Seq<char>) -> bool {
    &&& s.len() == 36
    &&& forall|i: int|
        #![trigger s[i]]
        0 <= i < 36 ==> if i == 8 || i == 13 || i == 18 || i == 23 {
            s[i] == '-'
        } else {
            is_lower_hex(s[i])
        }
    &&& s[14] == '4'
    &&& (s[19] == '8' || s[19] == '9' || s[19] == 'a' || s[19] == 'b')
}

/// The layout of the time in the names of new files: local date and time, as in
/// `2024-05-31_17-04-09`.
pub const TIMESTAMP_PATTERN: &'static str = "%Y-%m-%d_%H-%M-%S";

/// `n` decimal digits.
pub open spec fn digits_of_len(s: Seq<char>, n: nat) -> bool {
    s.len() == n && forall|i: int| 0 <= i < n ==> crate::resolution::is_digit(#[trigger] s[i])
}

/// A year as `%Y` writes it: exactly four digits for the years 0 to 9999; a `+` and
/// at least five digits, the first not `0`, for a year above 9999; a `-` and at least
/// four digits, zero-padded, for a year below 0.
pub open spec fn is_year_text(s: Seq<char>) -> bool {
    ||| digits_of_len(s, 4)
    ||| s.len() >= 6 && s[0] == '+' && s[1] != '0' && digits_of_len(s.drop_first(), (s.len() - 1) as nat)
    ||| s.len() >= 5 && s[0] == '-' && digits_of_len(s.drop_first(), (s.len() - 1) as nat)
        && decimal_value(s.drop_first()) >= 1
}

/// Two decimal digits whose value lies between `lo` and `hi`.
pub open spec fn is_two_digit_field(s: Seq<char>, lo: nat, hi: nat) -> bool {
    digits_of_len(s, 2) && lo <= decimal_value(s) && decimal_value(s) <= hi
}

/// A local time as `TIMESTAMP_PATTERN` lays it out: the year, then the month (01 to
/// 12), day (01 to 31), hour (00 to 23), minute (00 to 59) and second (00 to 60, a leap
/// second being 60) as two digits each, joined by `-`, `-`, `_`, `-`, `-`.
pub open spec fn is_timestamp_text(s: Seq<char>) -> bool {
    &&& s.len() >= 19
    &&& is_year_text(s.take(s.len() - 15))
    &&& {
        let rest = s.skip(s.len() - 15);
        &&& rest[0] == '-' && rest[3] == '-' && rest[6] == '_' && rest[9] == '-' && rest[12] == '-'
        &&& is_two_digit_field(rest.subrange(1, 3), 1, 12)
        &&& is_two_digit_field(rest.subrange(4, 6), 1, 31)
        &&& is_two_digit_field(rest.subrange(7, 9), 0, 23)
        &&& is_two_digit_field(rest.subrange(10, 12), 0, 59)
        &&& is_two_digit_field(rest.subrange(13, 15), 0, 60)
    }
}

/// The current local time, from `chrono::Local::now`, laid out by
/// `chrono::DateTime::format` with `pattern` and written with `to_string`. The calls
/// stand together because the time passed between them is a chrono value whose type
/// takes chrono's own time-zone trait as a parameter, which this library does not model.
///
/// The claim: with `TIMESTAMP_PATTERN`, the only pattern admitted, the text has the
/// layout and the field ranges with which chrono writes `%Y`, `%m`, `%d`, `%H`, `%M`
/// and `%S` (see `is_timestamp_text`). Which digits appear is not stated: they are the clock's
/// reading in the machine's time zone. Other patterns are not admitted, since
/// `to_string` panics on one that chrono cannot write. chrono also panics when the
/// system clock reads a time before 1970 or the local time zone cannot be looked up,
/// which no argument can rule out.
#[verifier::external_body]
fn local_time_text(pattern: &str) -> (text: String)
    requires
        pattern@ == TIMESTAMP_PATTERN@,
    ensures
        is_timestamp_text(text@),
{
    chrono::Local::now().format(pattern).to_string()
}

/// The name of a new recording made at `timestamp` under the id `id`.
pub open spec fn recording_name(timestamp: Seq<char>, id: Seq<char>) -> Seq<char> {
    RECORDING_PREFIX@ + timestamp + "-"@ + id + RECORDING_SUFFIX@
}

/// A fresh random id, from `uuid::Uuid::new_v4` written with `to_string`.
///
/// The claim: `new_v4` sets the version and variant bits of a random value, and
/// `to_string` writes it in the hyphenated lower-case form, so the text is that of a
/// version 4 UUID (see `is_uuid_text`). Which id comes out is not stated: it
/// is random. `new_v4` panics when the system's random source fails, which no
/// argument can rule out.
#[verifier::external_body]
fn random_uuid_text() -> (text: String)
    ensures
        is_uuid_text(text@),
{
    uuid::Uuid::new_v4().to_string()
}

/// The name of a recording made at `timestamp` under the id `id`:
/// `cap-<timestamp>-<id>.cap`.
pub fn recording_file_name(timestamp: &str, id: &str) -> (name: String)
    ensures
        name@ == recording_name(timestamp@, id@),
{
    let mut name = String::from_str(RECORDING_PREFIX);
    name.append(timestamp);
    name.append("-");
    name.append(id);
    name.append(RECORDING_SUFFIX);
    name
}

/// The name of a new recording: made now, under a fresh random id.
pub fn new_recording_file_name() -> (name: String)
    ensures
        exists|timestamp: Seq<char>, id: Seq<char>|
            is_timestamp_text(timestamp) && is_uuid_text(id) && name@ == recording_name(
                timestamp,
                id,
            ),
{
    let id = random_uuid_text();
    let timestamp = local_time_text(TIMESTAMP_PATTERN);
    recording_file_name(timestamp.as_str(), id.as_str())
}

/// The name of a screenshot taken at `timestamp`: `cap-screenshot-<timestamp>.png`.
pub fn screenshot_file_name(timestamp: &str) -> (name: String)
    ensures
        name@ == SCREENSHOT_PREFIX@ + timestamp@ + SCREENSHOT_SUFFIX@,
{
    let mut name = String::from_str(SCREENSHOT_PREFIX);
    name.append(timestamp);
    name.append(SCREENSHOT_SUFFIX);
    name
}

/// The name of a new screenshot, taken now.
pub fn new_screenshot_file_name() -> (name: String)
    ensures
        exists|timestamp: Seq<char>|
            is_timestamp_text(timestamp) && name@ == SCREENSHOT_PREFIX@ + timestamp
                + SCREENSHOT_SUFFIX@,
{
    let timestamp = local_time_text(TIMESTAMP_PATTERN);
    screenshot_file_name(timestamp.as_str())
}

/// Screenshots taken at different times get different names: the name determines the
/// time written in it.
pub proof fn screenshot_names_tell_times_apart(t1: Seq<char>, t2: Seq<char>)
    requires
        t1 != t2,
    ensures
        SCREENSHOT_PREFIX@ + t1 + SCREENSHOT_SUFFIX@ != SCREENSHOT_PREFIX@ + t2 + SCREENSHOT_SUFFIX@,
{
    let p = SCREENSHOT_PREFIX@;
    let q = SCREENSHOT_SUFFIX@;
    let n1 = p + t1 + q;
    let n2 = p + t2 + q;
    if n1 == n2 {
        assert(n1.len() == n2.len());
        assert(t1.len() == t2.len());
        assert(t1 =~= n1.subrange(p.len() as int, (p.len() + t1.len()) as int));
        assert(t2 =~= n2.subrange(p.len() as int, (p.len() + t2.len()) as int));
    }
}

proof fn lemma_recording_name_parts(t: Seq<char>, id: Seq<char>)
    ensures
        ({
            let n = recording_name(t, id);
            let a = RECORDING_PREFIX@.len() as int;
            let b = a + t.len();
            &&& n.len() == b + 1 + id.len() + RECORDING_SUFFIX@.len()
            &&& n.subrange(a, b) == t
            &&& n.subrange(b + 1, b + 1 + id.len()) == id
        }),
{
    reveal_strlit("-");
    let n = recording_name(t, id);
    let a = RECORDING_PREFIX@.len() as int;
    let b = a + t.len();
    assert(n.subrange(a, b) =~= t);
    assert(n.subrange(b + 1, b + 1 + id.len()) =~= id);
}

proof fn lemma_recording_name_injective(t1: Seq<char>, id1: Seq<char>, t2: Seq<char>, id2: Seq<char>)
    requires
        id1.len() == id2.len(),
        recording_name(t1, id1) == recording_name(t2, id2),
    ensures
        t1 == t2,
        id1 == id2,
{
    lemma_recording_name_parts(t1, id1);
    lemma_recording_name_parts(t2, id2);
}

/// Recordings made at different times, or under different ids, get different names:
/// the name determines both the time and the id written in it.
pub proof fn recording_names_tell_times_and_ids_apart(
    t1: Seq<char>,
    id1: Seq<char>,
    t2: Seq<char>,
    id2: Seq<char>,
)
    requires
        is_uuid_text(id1),
        is_uuid_text(id2),
        t1 != t2 || id1 != id2,
    ensures
        recording_name(t1, id1) != recording_name(t2, id2),
{
    if recording_name(t1, id1) == recording_name(t2, id2) {
        lemma_recording_name_injective(t1, id1, t2, id2);
    }
}

/// What is said when a recording in `mode` starts to `path`.
pub fn starting_message(mode: RecordingMode, path: &str) -> (message: String)
    ensures
        message@ == "Starting "@ + mode_name(mode) + " recording to '"@ + path@ + "'"@,
{
    let mut message = String::from_str("Starting ");
    message.append(mode.as_str());
    message.append(" recording to '");
    message.append(path);
    message.append("'");
    message
}

/// What is said when a recording stops for `reason`.
pub fn stopping_message(reason: &str) -> (message: String)
    ensures
        message@ == "Stopping recording ("@ + reason@ + ")..."@,
{
    let mut message = String::from_str("Stopping recording (");
    message.append(reason);
    message.append(")...");
    message
}

/// What is said when a screenshot of `width` by `height` pixels is saved to `path`.
pub fn screenshot_saved_message(path: &str, width: u32, height: u32) -> (message: String)
    ensures
        message@ == "Screenshot saved to '"@ + path@ + "' ("@ + decimal_text(width as nat) + "x"@
            + decimal_text(height as nat) + ")"@,
{
    let mut message = String::from_str("Screenshot saved to '");
    message.append(path);
    message.append("' (");
    let w = decimal_string(width as u64);
    message.append(w.as_str());
    message.append("x");
    let h = decimal_string(height as u64);
    message.append(h.as_str());
    message.append(")");
    message
}

} // verus!
