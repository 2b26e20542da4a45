//! The part of the client that runs with the rights of the system: what its
//! token says, how it is launched, and what it does with its events.

use vstd::prelude::*;

use crate::sos_input::{decode_input, Input};
use crate::sos_input::{read_input, InputEvent};
use crate::text::{decimal, join, to_decimal, to_wide, utf16};

verus! {

// ---------------------------------------------------------------- token
/// What is known of the token of this process. What could not be found out
/// is `None`.
#[derive(Debug, Clone, Copy, PartialEq, Eq, Structural)]
pub struct TokenInfo {
    pub is_system: Option<bool>,
    /// The integrity level.
    pub integrity: Option<u32>,
    pub elevated: Option<u32>,
    pub token_type: Option<i32>,
}

/// What a token says of its user.
pub open spec fn user_label(is_system: Option<bool>) -> Seq<char> {
    match is_system {
        Some(true) => "is_system=true"@,
        Some(false) => "is_system=false"@,
        None => "SID_UNKNOWN"@,
    }
}

/// The name of an integrity level.
pub open spec fn integrity_label(level: Option<u32>) -> Seq<char> {
    match level {
        None => ""@,
        Some(l) => if l == 0x0000 {
            "Untrusted"@
        } else if l == 0x1000 {
            "Low"@
        } else if l == 0x2000 {
            "Medium"@
        } else if l == 0x3000 {
            "High"@
        } else if l == 0x4000 {
            "System"@
        } else {
            "Other"@
        },
    }
}

/// What a token says of elevation.
pub open spec fn elevation_label(elevated: Option<u32>) -> Seq<char> {
    match elevated {
        None => "unknown"@,
        Some(e) => if e != 0 {
            "elevated"@
        } else {
            "not_elevated"@
        },
    }
}

/// The name of a type of token.
pub open spec fn type_label(token_type: Option<i32>) -> Seq<char> {
    match token_type {
        None => "unknown"@,
        Some(t) => if t == 1 {
            "Primary"@
        } else if t == 2 {
            "Impersonation"@
        } else {
            "Other"@
        },
    }
}

/// The beginning of a log line on a token.
pub open spec fn token_head(stage: Seq<char>, pid: u32, session_id: u32) -> Seq<char> {
    "[TOKEN:"@ + stage + "] PID="@ + decimal(pid as nat) + " Session="@ + decimal(
        session_id as nat,
    )
}

/// The log line on a token; `None` is one that could not be opened.
pub open spec fn token_line(
    stage: Seq<char>,
    pid: u32,
    session_id: u32,
    token: Option<TokenInfo>,
) -> Seq<char> {
    let head = token_head(stage, pid, session_id);
    match token {
        None => head + " CANNOT_OPEN_TOKEN"@,
        Some(t) => head + " "@ + user_label(t.is_system) + " Integrity="@ + integrity_label(
            t.integrity,
        ) + " Elevation="@ + elevation_label(t.elevated) + " Type="@ + type_label(t.token_type),
    }
}

/// The log line on the token of this process at some stage, and whether it is
/// a warning.
pub fn log_token_info(stage: &str, pid: u32, session_id: u32, token: Option<TokenInfo>) -> (r: (
    bool,
    String,
))
    ensures
        r.0 == (token is None),
        r.1@ == token_line(stage@, pid, session_id, token),
{
    let mut line: String = join("[TOKEN:", stage);
    line.append("] PID=");
    line.append(to_decimal(pid as u64).as_str());
    line.append(" Session=");
    line.append(to_decimal(session_id as u64).as_str());
    match token {
        None => {
            line.append(" CANNOT_OPEN_TOKEN");
            (true, line)
        },
        Some(t) => {
            line.append(" ");
            line.append(user_text(t.is_system));
            line.append(" Integrity=");
            line.append(integrity_text(t.integrity));
            line.append(" Elevation=");
            line.append(elevation_text(t.elevated));
            line.append(" Type=");
            line.append(type_text(t.token_type));
            (false, line)
        },
    }
}

/// What a token says of its user.
fn user_text(is_system: Option<bool>) -> (r: &'static str)
    ensures
        r@ == user_label(is_system),
{
    match is_system {
        Some(true) => "is_system=true",
        Some(false) => "is_system=false",
        None => "SID_UNKNOWN",
    }
}

/// The name of an integrity level.
fn integrity_text(level: Option<u32>) -> (r: &'static str)
    ensures
        r@ == integrity_label(level),
{
    match level {
        None => "",
        Some(0x0000) => "Untrusted",
        Some(0x1000) => "Low",
        Some(0x2000) => "Medium",
        Some(0x3000) => "High",
        Some(0x4000) => "System",
        Some(_) => "Other",
    }
}

/// What a token says of elevation.
fn elevation_text(elevated: Option<u32>) -> (r: &'static str)
    ensures
        r@ == elevation_label(elevated),
{
    match elevated {
        None => "unknown",
        Some(0) => "not_elevated",
        Some(_) => "elevated",
    }
}

/// The name of a type of token.
fn type_text(token_type: Option<i32>) -> (r: &'static str)
    ensures
        r@ == type_label(token_type),
{
    match token_type {
        None => "unknown",
        Some(1) => "Primary",
        Some(2) => "Impersonation",
        Some(_) => "Other",
    }
}

/// Whether this process runs as the system, from the answer to that question;
/// one that could not be asked is no.
pub fn is_system_process(answer: Option<bool>) -> (r: bool)
    ensures
        r == (answer == Some(true)),
{
    match answer {
        Some(b) => b,
        None => false,
    }
}

// ---------------------------------------------------------------- service
/// How long the pipe of input events is tried, in seconds.
pub const PIPE_TIMEOUT_SECS: u32 = 6;

/// What the service does next as it starts.
#[derive(Debug, Clone, Copy, PartialEq, Eq, Structural)]
pub enum StartStep {
    /// Connect to the pipe of input events, for so many seconds.
    ConnectPipe(u32),
    /// Open the two events that switch the capture.
    OpenEvents,
    /// Run: read input, watch the events, capture.
    Run,
    /// End, which is no error.
    End,
}

/// The start of the service: only a process of the system goes on.
pub fn run_service(is_system: bool) -> (r: StartStep)
    ensures
        r == (if is_system {
            StartStep::ConnectPipe(PIPE_TIMEOUT_SECS)
        } else {
            StartStep::End
        }),
{
    if is_system {
        StartStep::ConnectPipe(PIPE_TIMEOUT_SECS)
    } else {
        StartStep::End
    }
}

/// The start of the service, once the pipe is connected or is not.
pub fn pipe_connected(connected: bool) -> (r: StartStep)
    ensures
        r == (if connected {
            StartStep::OpenEvents
        } else {
            StartStep::End
        }),
{
    if connected {
        StartStep::OpenEvents
    } else {
        StartStep::End
    }
}

/// The start of the service, once the events are opened: the service needs
/// both. Zero is no event.
pub fn events_opened(start_event: isize, stop_event: isize) -> (r: StartStep)
    ensures
        r == (if start_event != 0 && stop_event != 0 {
            StartStep::Run
        } else {
            StartStep::End
        }),
{
    if start_event == 0 || stop_event == 0 {
        StartStep::End
    } else {
        StartStep::Run
    }
}

/// What the input thread does next.
#[derive(Debug, PartialEq, Eq)]
pub enum InputStep {
    /// Inject this, and read on.
    Inject(InputEvent),
    /// Read on.
    ReadOn,
    /// End the thread.
    EndThread,
    /// End the process: the pipe is broken.
    EndProcess,
}

/// What the input thread does with what the pipe gave: a message, or nothing
/// if it is broken.
pub fn input_step(message: Option<&[u8]>) -> (r: InputStep)
    ensures
        match message {
            None => r == InputStep::EndProcess,
            Some(data) => match decode_input(data@) {
                None => r == InputStep::ReadOn,
                Some(Input::Shutdown) => r == InputStep::EndThread,
                Some(Input::Unknown(_)) => r == InputStep::ReadOn,
                Some(event) => r matches InputStep::Inject(e) && e@ == event,
            },
        },
{
    match message {
        None => InputStep::EndProcess,
        Some(data) => match read_input(data) {
            None => InputStep::ReadOn,
            Some((_, event)) => match event {
                InputEvent::Shutdown => InputStep::EndThread,
                InputEvent::Unknown(_) => InputStep::ReadOn,
                InputEvent::Mouse(p) => InputStep::Inject(InputEvent::Mouse(p)),
                InputEvent::Key(p) => InputStep::Inject(InputEvent::Key(p)),
            },
        },
    }
}

/// The wait was for the first event.
pub const WAIT_OBJECT_0: u32 = 0;

/// Whether the secure desktop is captured.
#[derive(Debug, Clone, Copy, PartialEq, Eq, Structural)]
pub struct CaptureSwitch {
    pub active: bool,
}

/// What the event thread does next.
#[derive(Debug, Clone, Copy, PartialEq, Eq, Structural)]
pub enum EventStep {
    /// Wake the capture, and wait on.
    Wake,
    /// Wait on.
    WaitOn,
    /// End the process.
    EndProcess,
}

impl CaptureSwitch {
    /// At first nothing is captured.
    pub fn new() -> (r: Self)
        ensures
            !r.active,
    {
        CaptureSwitch { active: false }
    }

    /// Takes the outcome of waiting for the two events: the first one starts
    /// the capture, the second one stops it, and anything else is a failure,
    /// which stops it for good.
    pub fn waited(&mut self, ret: u32) -> (r: EventStep)
        ensures
            final(self).active == (ret == WAIT_OBJECT_0),
            r == (if ret == WAIT_OBJECT_0 {
                EventStep::Wake
            } else if ret == WAIT_OBJECT_0 + 1 {
                EventStep::WaitOn
            } else {
                EventStep::EndProcess
            }),
    {
        if ret == WAIT_OBJECT_0 {
            self.active = true;
            EventStep::Wake
        } else if ret == WAIT_OBJECT_0 + 1 {
            self.active = false;
            EventStep::WaitOn
        } else {
            self.active = false;
            EventStep::EndProcess
        }
    }
}

// ---------------------------------------------------------------- launch
/// The program, where its path cannot be found out.
pub const DEFAULT_EXE: &'static str = "rustdesk-sos.exe";

/// How the service is launched.
#[derive(Debug, PartialEq, Eq)]
pub struct Launch {
    /// The arguments alone.
    pub args: String,
    /// The whole command line, as Windows calls take it.
    pub command: Vec<u16>,
}

/// The arguments of the service.
pub open spec fn service_args(debug: bool) -> Seq<char> {
    if debug {
        "--service --debug"@
    } else {
        "--service"@
    }
}

/// The command line that launches the service: the program, in quotes, with
/// its arguments.
pub fn launch_system_sub_process(exe: Option<&str>, debug: bool) -> (r: Launch)
    ensures
        r.args@ == service_args(debug),
        r.command@ == utf16(
            "\""@ + (match exe {
                Some(e) => e@,
                None => DEFAULT_EXE@,
            }) + "\" "@ + service_args(debug),
        ).push(0),
{
    let program: &str = match exe {
        Some(e) => e,
        None => DEFAULT_EXE,
    };
    let args: &str = if debug {
        "--service --debug"
    } else {
        "--service"
    };
    let mut command: String = join("\"", program);
    command.append("\" ");
    command.append(args);
    Launch { args: String::from_str(args), command: to_wide(command.as_str()) }
}

/// How launching the service goes on.
#[derive(Debug, Clone, Copy, PartialEq, Eq, Structural)]
pub enum LaunchStep {
    /// It is launched, and this is its handle; zero is none.
    Launched(isize),
    /// Launch it in the other way, which gives no handle.
    Fallback,
}

/// How launching the service goes on once the first way gave a handle; zero
/// is none.
pub fn launched(handle: isize) -> (r: LaunchStep)
    ensures
        r == (if handle != 0 {
            LaunchStep::Launched(handle)
        } else {
            LaunchStep::Fallback
        }),
{
    if handle != 0 {
        LaunchStep::Launched(handle)
    } else {
        LaunchStep::Fallback
    }
}

/// The end of launching the service in the other way, whether it went well or
/// not: there is no handle.
pub fn fell_back(_succeeded: bool) -> (r: LaunchStep)
    ensures
        r == LaunchStep::Launched(0),
{
    LaunchStep::Launched(0)
}

} // verus!
