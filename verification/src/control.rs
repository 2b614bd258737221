//! The messages exchanged with the Home Assistant controller, and the rules
//! an incoming message must satisfy before the frame acts on it.

use vstd::prelude::*;
use vstd::string::*;
use crate::text::{decimal, push_decimal, push_str, owned};

verus! {

#[derive(Clone, Copy, Debug, PartialEq, Eq, Structural)]
pub enum TransitionType {
    Cut,
    Fade,
    SlideLeft,
    SlideRight,
}

#[derive(Clone, Copy, Debug, PartialEq, Eq, Structural)]
pub enum DeviceCommand {
    Reboot,
    ReloadUi,
}

/// A control message as it arrives, before validation.
#[derive(Clone, Debug, PartialEq, Eq)]
pub struct IncomingControlMessage {
    pub media_url: Option<String>,
    pub transition_type: Option<TransitionType>,
    pub brightness: Option<u8>,
    pub correlation_id: Option<String>,
    pub cmd: Option<DeviceCommand>,
    pub registration: Option<ControllerRegistration>,
    /// Hold the photo in reserve rather than showing it. Absent means show.
    pub queue: bool,
}

/// The controller's answer to the frame's request to be adopted.
#[derive(Clone, Debug, PartialEq, Eq)]
pub struct ControllerRegistration {
    pub claimed: bool,
    pub display_name: Option<String>,
    pub message: Option<String>,
    /// The token the frame presents when downloading photos.
    pub frame_token: Option<String>,
}

#[derive(Clone, Debug, PartialEq, Eq)]
pub struct RenderPresentation {
    pub transition_type: Option<TransitionType>,
    pub brightness: Option<u8>,
}

#[derive(Clone, Debug, PartialEq, Eq)]
pub struct RenderRequest {
    pub media_url: String,
    pub correlation_id: Option<String>,
    pub presentation: RenderPresentation,
    /// Hold this one in reserve rather than showing it.
    pub queue: bool,
}

#[derive(Clone, Debug, PartialEq, Eq)]
pub struct CommandRequest {
    pub command: DeviceCommand,
    pub correlation_id: Option<String>,
}

/// A validated control message: exactly one thing to do.
#[derive(Clone, Debug, PartialEq, Eq)]
pub enum ControlEvent {
    Render(RenderRequest),
    Command(CommandRequest),
    Registration(ControllerRegistration),
}

#[derive(Clone, Copy, Debug, PartialEq, Eq, Structural)]
pub enum ScreenStatus {
    Idle,
    Rendering,
    Error,
}

#[derive(Clone, Debug, PartialEq, Eq)]
pub struct DeviceHealth {
    pub cpu_temp_millidegrees: Option<i32>,
    pub screen_status: Option<ScreenStatus>,
    /// Plain-language state of the SD cache.
    pub storage: Option<String>,
    /// Decoded photos ready to show, including the one on screen.
    pub buffered_photos: Option<u8>,
    /// Where the photos on screen are coming from.
    pub photo_source: Option<String>,
}

/// What the frame reports to the controller.
#[derive(Clone, Debug, PartialEq, Eq)]
pub enum OutboundStatusMessage {
    Connected { device_id: String, device_name: String },
    RenderStarted { media_url: String, correlation_id: Option<String> },
    RenderCompleted { media_url: String, correlation_id: Option<String> },
    CommandAcknowledged { cmd: DeviceCommand, correlation_id: Option<String> },
    Health(DeviceHealth),
    /// The frame would like more photos: `wanted` would fill its cache.
    PhotoRequested { wanted: u16, cached: u16 },
    Error { message: String, correlation_id: Option<String> },
}

/// Why a control message was refused.
#[derive(Clone, Debug, PartialEq, Eq)]
pub enum ControlMessageError {
    InvalidJson(String),
    MissingAction,
    ConflictingAction,
    EmptyMediaUrl,
    MetadataWithoutMediaUrl,
    InvalidBrightness(u8),
}

/// Unicode `White_Space`, the characters that trimming removes.
pub open spec fn is_white_space(c: char) -> bool {
    let u = c as u32;
    ||| 0x09 <= u <= 0x0D
    ||| u == 0x20
    ||| u == 0x85
    ||| u == 0xA0
    ||| u == 0x1680
    ||| 0x2000 <= u <= 0x200A
    ||| u == 0x2028
    ||| u == 0x2029
    ||| u == 0x202F
    ||| u == 0x205F
    ||| u == 0x3000
}

/// `s` without its leading white space.
pub open spec fn trim_start(s: Seq<char>) -> Seq<char>
    decreases s.len(),
{
    if s.len() > 0 && is_white_space(s[0]) {
        trim_start(s.drop_first())
    } else {
        s
    }
}

/// `s` without its trailing white space.
pub open spec fn trim_end(s: Seq<char>) -> Seq<char>
    decreases s.len(),
{
    if s.len() > 0 && is_white_space(s.last()) {
        trim_end(s.drop_last())
    } else {
        s
    }
}

/// `s` without leading or trailing white space.
pub open spec fn trimmed(s: Seq<char>) -> Seq<char> {
    trim_end(trim_start(s))
}

fn white_space(c: char) -> (r: bool)
    ensures
        r == is_white_space(c),
{
    let u = c as u32;
    (0x09 <= u && u <= 0x0D) || u == 0x20 || u == 0x85 || u == 0xA0 || u == 0x1680 || (0x2000
        <= u && u <= 0x200A) || u == 0x2028 || u == 0x2029 || u == 0x202F || u == 0x205F || u
        == 0x3000
}

proof fn lemma_trim_start_at(s: Seq<char>, i: int)
    requires
        0 <= i <= s.len(),
        forall|k: int| 0 <= k < i ==> is_white_space(#[trigger] s[k]),
        i == s.len() || !is_white_space(s[i]),
    ensures
        trim_start(s) == s.subrange(i, s.len() as int),
    decreases i,
{
    if i > 0 {
        let t = s.drop_first();
        assert forall|k: int| 0 <= k < i - 1 implies is_white_space(#[trigger] t[k]) by {
            assert(t[k] == s[k + 1]);
        }
        assert(i - 1 == t.len() || t[i - 1] == s[i]);
        lemma_trim_start_at(t, i - 1);
        assert(t.subrange(i - 1, t.len() as int) =~= s.subrange(i, s.len() as int));
    } else {
        assert(s.subrange(0, s.len() as int) =~= s);
    }
}

proof fn lemma_trim_end_at(s: Seq<char>, j: int)
    requires
        0 <= j <= s.len(),
        forall|k: int| j <= k < s.len() ==> is_white_space(#[trigger] s[k]),
        j == 0 || !is_white_space(s[j - 1]),
    ensures
        trim_end(s) == s.subrange(0, j),
    decreases s.len() - j,
{
    if j < s.len() {
        let t = s.drop_last();
        assert(is_white_space(s[s.len() - 1]));
        assert forall|k: int| j <= k < t.len() implies is_white_space(#[trigger] t[k]) by {
            assert(t[k] == s[k]);
        }
        assert(j == 0 || t[j - 1] == s[j - 1]);
        lemma_trim_end_at(t, j);
        assert(t.subrange(0, j) =~= s.subrange(0, j));
    } else {
        assert(s.subrange(0, j) =~= s);
    }
}

/// The slice without leading and trailing Unicode white space, as `str::trim`
/// gives it.
pub(crate) fn trim(s: &str) -> (t: &str)
    ensures
        t@ == trimmed(s@),
{
    let n = s.unicode_len();
    let mut i: usize = 0;
    while i < n && white_space(s.get_char(i))
        invariant
            n == s@.len(),
            i <= n,
            forall|k: int| 0 <= k < i ==> is_white_space(#[trigger] s@[k]),
        decreases n - i,
    {
        i = i + 1;
    }
    let mut j: usize = n;
    while j > i && white_space(s.get_char(j - 1))
        invariant
            n == s@.len(),
            i <= j <= n,
            forall|k: int| j <= k < n ==> is_white_space(#[trigger] s@[k]),
        decreases j - i,
    {
        j = j - 1;
    }
    proof {
        lemma_trim_start_at(s@, i as int);
        let u = s@.subrange(i as int, n as int);
        assert forall|k: int| j - i <= k < u.len() implies is_white_space(#[trigger] u[k]) by {
            assert(u[k] == s@[i + k]);
        }
        if j > i {
            assert(u[j - i - 1] == s@[j - 1]);
        }
        lemma_trim_end_at(u, j - i);
        assert(u.subrange(0, j - i) =~= s@.subrange(i as int, j as int));
    }
    s.substring_char(i, j)
}

/// How many of the three actions a message asks for.
pub open spec fn action_count(m: IncomingControlMessage) -> nat {
    (if m.media_url is Some { 1nat } else { 0nat }) + (if m.cmd is Some { 1nat } else { 0nat })
        + (if m.registration is Some { 1nat } else { 0nat })
}

/// The error a message is refused with, or `None` when it is accepted.
pub open spec fn validation_error(m: IncomingControlMessage) -> Option<ControlMessageError> {
    if m.brightness is Some && m.brightness->0 > 100 {
        Some(ControlMessageError::InvalidBrightness(m.brightness->0))
    } else if action_count(m) > 1 {
        Some(ControlMessageError::ConflictingAction)
    } else if action_count(m) == 0 {
        Some(ControlMessageError::MissingAction)
    } else if m.media_url is Some {
        if trimmed(m.media_url->0@).len() == 0 {
            Some(ControlMessageError::EmptyMediaUrl)
        } else {
            None
        }
    } else if m.transition_type is Some || m.brightness is Some {
        Some(ControlMessageError::MetadataWithoutMediaUrl)
    } else {
        None
    }
}

/// The event an accepted message becomes.
pub open spec fn accepted_as(m: IncomingControlMessage, e: ControlEvent) -> bool {
    if m.media_url is Some {
        e matches ControlEvent::Render(r) && r.media_url@ == trimmed(m.media_url->0@)
            && r.correlation_id == m.correlation_id && r.queue == m.queue
            && r.presentation.transition_type == m.transition_type
            && r.presentation.brightness == m.brightness
    } else if m.cmd is Some {
        e matches ControlEvent::Command(c) && c.command == m.cmd->0 && c.correlation_id
            == m.correlation_id
    } else {
        e matches ControlEvent::Registration(reg) && reg == m.registration->0
    }
}

/// Checks a message and turns it into the one action it asks for.
///
/// Brightness above 100 is refused first; then a message asking for more than
/// one of a photo, a command and a registration; then one asking for none. A
/// photo whose address is blank once trimmed is refused, and so are a
/// transition or brightness on anything but a photo.
pub fn validate_control_message(message: IncomingControlMessage) -> (r: Result<
    ControlEvent,
    ControlMessageError,
>)
    ensures
        validation_error(message) matches Some(e) ==> r == Err::<ControlEvent, _>(e),
        validation_error(message) is None ==> (r matches Ok(ev) && accepted_as(message, ev)),
        message.brightness is Some && message.brightness->0 > 100 ==> r == Err::<ControlEvent, _>(
            ControlMessageError::InvalidBrightness(message.brightness->0),
        ),
        (message.brightness is None || message.brightness->0 <= 100) && ((message.media_url is Some
            && message.cmd is Some) || (message.media_url is Some && message.registration is Some)
            || (message.cmd is Some && message.registration is Some)) ==> r == Err::<
            ControlEvent,
            _,
        >(ControlMessageError::ConflictingAction),
        (message.brightness is None || message.brightness->0 <= 100) && message.media_url is None
            && message.cmd is None && message.registration is None ==> r == Err::<ControlEvent, _>(
            ControlMessageError::MissingAction,
        ),
        (message.brightness is None || message.brightness->0 <= 100) && message.media_url is None
            && (message.cmd is Some != message.registration is Some) && (message.transition_type is Some
            || message.brightness is Some) ==> r == Err::<ControlEvent, _>(
            ControlMessageError::MetadataWithoutMediaUrl,
        ),
        message.media_url is None && message.registration is None && message.transition_type is None
            && message.brightness is None && message.cmd is Some ==> r == Ok::<_, ControlMessageError>(
            ControlEvent::Command(
                CommandRequest { command: message.cmd->0, correlation_id: message.correlation_id },
            ),
        ),
        message.media_url is None && message.cmd is None && message.transition_type is None
            && message.brightness is None && message.registration is Some ==> r == Ok::<
            _,
            ControlMessageError,
        >(ControlEvent::Registration(message.registration->0)),
        (message.brightness is None || message.brightness->0 <= 100) && message.media_url is Some
            && message.cmd is None && message.registration is None ==> if trimmed(
            message.media_url->0@,
        ).len() == 0 {
            r == Err::<ControlEvent, _>(ControlMessageError::EmptyMediaUrl)
        } else {
            r matches Ok(ControlEvent::Render(req)) && req.media_url@ == trimmed(
                message.media_url->0@,
            ) && req.correlation_id == message.correlation_id && req.queue == message.queue
                && req.presentation.transition_type == message.transition_type
                && req.presentation.brightness == message.brightness
        },
{
    if let Some(brightness) = message.brightness {
        if brightness > 100 {
            return Err(ControlMessageError::InvalidBrightness(brightness));
        }
    }
    let count: usize = (if message.media_url.is_some() { 1 } else { 0 }) + (if message.cmd.is_some() {
        1
    } else {
        0
    }) + (if message.registration.is_some() { 1 } else { 0 });
    if count > 1 {
        return Err(ControlMessageError::ConflictingAction);
    }
    let IncomingControlMessage {
        media_url,
        transition_type,
        brightness,
        correlation_id,
        cmd,
        registration,
        queue,
    } = message;
    match (media_url, cmd, registration) {
        (Some(media_url), None, None) => {
            let trimmed_url = trim(media_url.as_str());
            if trimmed_url.is_empty() {
                return Err(ControlMessageError::EmptyMediaUrl);
            }
            Ok(
                ControlEvent::Render(
                    RenderRequest {
                        media_url: owned(trimmed_url),
                        correlation_id,
                        queue,
                        presentation: RenderPresentation { transition_type, brightness },
                    },
                ),
            )
        },
        (None, Some(command), None) => {
            if transition_type.is_some() || brightness.is_some() {
                return Err(ControlMessageError::MetadataWithoutMediaUrl);
            }
            Ok(ControlEvent::Command(CommandRequest { command, correlation_id }))
        },
        (None, None, Some(registration)) => {
            if transition_type.is_some() || brightness.is_some() {
                return Err(ControlMessageError::MetadataWithoutMediaUrl);
            }
            Ok(ControlEvent::Registration(registration))
        },
        (None, None, None) => Err(ControlMessageError::MissingAction),
        _ => Err(ControlMessageError::ConflictingAction),
    }
}

impl ControlMessageError {
    /// The sentence shown for this error.
    pub open spec fn description(self) -> Seq<char> {
        match self {
            ControlMessageError::InvalidJson(e) => "invalid control message JSON: "@ + e@,
            ControlMessageError::MissingAction => "control message must include either media_url or cmd"@,
            ControlMessageError::ConflictingAction => "control message cannot include both media_url and cmd"@,
            ControlMessageError::EmptyMediaUrl => "control message media_url cannot be empty"@,
            ControlMessageError::MetadataWithoutMediaUrl => "control message metadata requires a media_url payload"@,
            ControlMessageError::InvalidBrightness(v) => "control message brightness must be between 0 and 100 inclusive, got "@
                + decimal(v as nat),
        }
    }

    /// The sentence shown for this error, as a string.
    pub fn describe(&self) -> (s: String)
        ensures
            s@ == self.description(),
    {
        match self {
            ControlMessageError::InvalidJson(e) => {
                let mut s = owned("invalid control message JSON: ");
                push_str(&mut s, e.as_str());
                s
            },
            ControlMessageError::MissingAction => owned(
                "control message must include either media_url or cmd",
            ),
            ControlMessageError::ConflictingAction => owned(
                "control message cannot include both media_url and cmd",
            ),
            ControlMessageError::EmptyMediaUrl => owned("control message media_url cannot be empty"),
            ControlMessageError::MetadataWithoutMediaUrl => owned(
                "control message metadata requires a media_url payload",
            ),
            ControlMessageError::InvalidBrightness(v) => {
                let mut s = owned(
                    "control message brightness must be between 0 and 100 inclusive, got ",
                );
                push_decimal(&mut s, *v as u64);
                s
            },
        }
    }
}

} // verus!
