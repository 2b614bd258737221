//! The Home Assistant side of the protocol: naming transitions and commands,
//! building outgoing control messages, and flattening a parsed one.

use vstd::prelude::*;
use crate::control::{
    ControlEvent, DeviceCommand, IncomingControlMessage, TransitionType, accepted_as, trimmed,
    validation_error,
};
use crate::text::{owned, push_str, str_eq};

verus! {

/// The wire name of a transition.
pub open spec fn transition_wire_name(t: TransitionType) -> Seq<char> {
    match t {
        TransitionType::Cut => "cut"@,
        TransitionType::Fade => "fade"@,
        TransitionType::SlideLeft => "slide_left"@,
        TransitionType::SlideRight => "slide_right"@,
    }
}

/// The wire name of a command.
pub open spec fn command_wire_name(c: DeviceCommand) -> Seq<char> {
    match c {
        DeviceCommand::Reboot => "reboot"@,
        DeviceCommand::ReloadUi => "reload_ui"@,
    }
}

/// The transition with this wire name, or an error naming the value.
pub fn parse_transition_type(value: &str) -> (r: Result<TransitionType, String>)
    ensures
        match r {
            Ok(t) => transition_wire_name(t) == value@,
            Err(e) => e@ == "unsupported transition_type: "@ + value@ && (forall|t: TransitionType|
                transition_wire_name(t) != value@),
        },
{
    if str_eq(value, "cut") {
        return Ok(TransitionType::Cut);
    }
    if str_eq(value, "fade") {
        return Ok(TransitionType::Fade);
    }
    if str_eq(value, "slide_left") {
        return Ok(TransitionType::SlideLeft);
    }
    if str_eq(value, "slide_right") {
        return Ok(TransitionType::SlideRight);
    }
    let mut e = owned("unsupported transition_type: ");
    push_str(&mut e, value);
    proof {
        assert forall|t: TransitionType| transition_wire_name(t) != value@ by {
            match t {
                TransitionType::Cut => {},
                TransitionType::Fade => {},
                TransitionType::SlideLeft => {},
                TransitionType::SlideRight => {},
            }
        }
    }
    Err(e)
}

/// The command with this wire name, or an error naming the value.
pub fn parse_device_command(value: &str) -> (r: Result<DeviceCommand, String>)
    ensures
        match r {
            Ok(c) => command_wire_name(c) == value@,
            Err(e) => e@ == "unsupported device command: "@ + value@ && (forall|c: DeviceCommand|
                command_wire_name(c) != value@),
        },
{
    if str_eq(value, "reboot") {
        return Ok(DeviceCommand::Reboot);
    }
    if str_eq(value, "reload_ui") {
        return Ok(DeviceCommand::ReloadUi);
    }
    let mut e = owned("unsupported device command: ");
    push_str(&mut e, value);
    proof {
        assert forall|c: DeviceCommand| command_wire_name(c) != value@ by {
            match c {
                DeviceCommand::Reboot => {},
                DeviceCommand::ReloadUi => {},
            }
        }
    }
    Err(e)
}

pub fn transition_name(transition_type: TransitionType) -> (s: String)
    ensures
        s@ == transition_wire_name(transition_type),
{
    match transition_type {
        TransitionType::Cut => owned("cut"),
        TransitionType::Fade => owned("fade"),
        TransitionType::SlideLeft => owned("slide_left"),
        TransitionType::SlideRight => owned("slide_right"),
    }
}

pub fn command_name(command: DeviceCommand) -> (s: &'static str)
    ensures
        s@ == command_wire_name(command),
{
    match command {
        DeviceCommand::Reboot => "reboot",
        DeviceCommand::ReloadUi => "reload_ui",
    }
}

/// Parsing the name of a transition gives the transition back.
pub proof fn lemma_transition_names_round_trip(t: TransitionType, u: TransitionType)
    requires
        transition_wire_name(t) == transition_wire_name(u),
    ensures
        t == u,
{
    reveal_strlit("cut");
    reveal_strlit("fade");
    reveal_strlit("slide_left");
    reveal_strlit("slide_right");
    assert("cut"@.len() == 3);
    assert("fade"@.len() == 4);
    assert("slide_left"@.len() == 10);
    assert("slide_right"@.len() == 11);
    assert(transition_wire_name(t).len() == transition_wire_name(u).len());
}

/// A photo message as the bridge builds it (an address and nothing else to
/// do, brightness at most 100) passes validation exactly when the address is
/// not blank, and then becomes a render of the trimmed address with the same
/// transition, brightness and correlation id.
pub proof fn lemma_built_render_is_accepted(m: IncomingControlMessage)
    requires
        m.media_url is Some,
        m.cmd is None,
        m.registration is None,
        m.brightness is None || m.brightness->0 <= 100,
    ensures
        validation_error(m) is None <==> trimmed(m.media_url->0@).len() > 0,
        forall|e: ControlEvent|
            accepted_as(m, e) ==> (e matches ControlEvent::Render(r) && r.media_url@ == trimmed(
                m.media_url->0@,
            ) && r.presentation.transition_type == m.transition_type && r.presentation.brightness
                == m.brightness && r.correlation_id == m.correlation_id),
{
}

/// A command message as the bridge builds it (a command and nothing else) is
/// always accepted, as that command with the same correlation id.
pub proof fn lemma_built_command_is_accepted(m: IncomingControlMessage)
    requires
        m.cmd is Some,
        m.media_url is None,
        m.registration is None,
        m.transition_type is None,
        m.brightness is None,
    ensures
        validation_error(m) is None,
        forall|e: ControlEvent|
            accepted_as(m, e) ==> (e matches ControlEvent::Command(c) && c.command == m.cmd->0
                && c.correlation_id == m.correlation_id),
{
}

/// A parsed control message flattened for the Home Assistant side.
#[derive(Debug)]
pub struct NativeParsedControlMessage {
    /// `render`, `command` or `registration`.
    pub kind: String,
    pub media_url: Option<String>,
    pub command: Option<String>,
    pub transition_type: Option<String>,
    pub brightness: Option<u8>,
    pub correlation_id: Option<String>,
}

/// The view of an optional string.
pub open spec fn opt_view(o: Option<String>) -> Option<Seq<char>> {
    match o {
        Some(s) => Some(s@),
        None => None,
    }
}

impl NativeParsedControlMessage {
    /// Flattens an event: a render keeps its address, transition, brightness
    /// and correlation id; a command its name and correlation id; a
    /// registration only its kind.
    pub fn from_event(event: ControlEvent) -> (m: Self)
        ensures
            match event {
                ControlEvent::Render(r) => m.kind@ == "render"@ && opt_view(m.media_url) == Some(
                    r.media_url@,
                ) && m.command is None && opt_view(m.transition_type) == (match r.presentation.transition_type {
                    Some(t) => Some(transition_wire_name(t)),
                    None => None,
                }) && m.brightness == r.presentation.brightness && m.correlation_id
                    == r.correlation_id,
                ControlEvent::Command(c) => m.kind@ == "command"@ && m.media_url is None
                    && opt_view(m.command) == Some(command_wire_name(c.command))
                    && m.transition_type is None && m.brightness is None && m.correlation_id
                    == c.correlation_id,
                ControlEvent::Registration(_) => m.kind@ == "registration"@ && m.media_url is None
                    && m.command is None && m.transition_type is None && m.brightness is None
                    && m.correlation_id is None,
            },
    {
        match event {
            ControlEvent::Render(request) => NativeParsedControlMessage {
                kind: owned("render"),
                media_url: Some(request.media_url),
                command: None,
                transition_type: match request.presentation.transition_type {
                    Some(t) => Some(transition_name(t)),
                    None => None,
                },
                brightness: request.presentation.brightness,
                correlation_id: request.correlation_id,
            },
            ControlEvent::Command(request) => NativeParsedControlMessage {
                kind: owned("command"),
                media_url: None,
                command: Some(owned(command_name(request.command))),
                transition_type: None,
                brightness: None,
                correlation_id: request.correlation_id,
            },
            ControlEvent::Registration(_) => NativeParsedControlMessage {
                kind: owned("registration"),
                media_url: None,
                command: None,
                transition_type: None,
                brightness: None,
                correlation_id: None,
            },
        }
    }
}

/// The message asking a frame to show a photo, or the error for an unknown
/// transition name.
pub fn build_render_message(
    media_url: &str,
    transition_type: Option<&str>,
    brightness: Option<u8>,
    correlation_id: Option<&str>,
) -> (r: Result<IncomingControlMessage, String>)
    ensures
        match transition_type {
            Some(name) => (forall|t: TransitionType| transition_wire_name(t) != name@) <==> r is Err,
            None => r is Ok,
        },
        r matches Ok(m) ==> opt_view(m.media_url) == Some(media_url@) && (match transition_type {
            Some(name) => m.transition_type matches Some(t) && transition_wire_name(t) == name@,
            None => m.transition_type is None,
        }) && m.brightness == brightness && opt_view(m.correlation_id) == (match correlation_id {
            Some(c) => Some(c@),
            None => None,
        }) && m.cmd is None && m.registration is None && !m.queue,
{
    let transition = match transition_type {
        Some(name) => match parse_transition_type(name) {
            Ok(t) => Some(t),
            Err(e) => {
                return Err(e);
            },
        },
        None => None,
    };
    Ok(
        IncomingControlMessage {
            media_url: Some(owned(media_url)),
            transition_type: transition,
            brightness,
            correlation_id: match correlation_id {
                Some(c) => Some(owned(c)),
                None => None,
            },
            cmd: None,
            registration: None,
            queue: false,
        },
    )
}

/// The message sending a frame a command, or the error for an unknown
/// command name.
pub fn build_command_message(command: &str, correlation_id: Option<&str>) -> (r: Result<
    IncomingControlMessage,
    String,
>)
    ensures
        (forall|c: DeviceCommand| command_wire_name(c) != command@) <==> r is Err,
        r matches Err(e) ==> e@ == "unsupported device command: "@ + command@,
        r matches Ok(m) ==> m.media_url is None && (m.cmd matches Some(c) && command_wire_name(c)
            == command@) && opt_view(m.correlation_id) == (match correlation_id {
            Some(c) => Some(c@),
            None => None,
        }) && m.transition_type is None && m.brightness is None && m.registration is None
            && !m.queue,
{
    let cmd = match parse_device_command(command) {
        Ok(c) => c,
        Err(e) => {
            return Err(e);
        },
    };
    Ok(
        IncomingControlMessage {
            media_url: None,
            transition_type: None,
            brightness: None,
            correlation_id: match correlation_id {
                Some(c) => Some(owned(c)),
                None => None,
            },
            cmd: Some(cmd),
            registration: None,
            queue: false,
        },
    )
}

} // verus!
