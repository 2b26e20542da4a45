//! Starting up: rights, logging, and the loops of the main process.

use vstd::prelude::*;

use crate::sos_config::slot_text;
use crate::sos_config::refresh_password;
use crate::sos_tray::TrayCommand;
use crate::text::{decimal, is_alphanumeric, join, to_decimal};

verus! {

/// Whether this process may do what it has to, from what its token says of
/// elevation; one that could not be asked may not.
pub fn is_admin(elevated: Option<u32>) -> (r: bool)
    ensures
        r == (elevated matches Some(e) && e != 0),
{
    match elevated {
        Some(e) => e != 0,
        None => false,
    }
}

// ---------------------------------------------------------------- logging
/// How much is logged.
#[derive(Debug, Clone, Copy, PartialEq, Eq, Structural)]
pub enum Level {
    Error,
    Warn,
    Info,
    Debug,
    Trace,
}

/// How severe a level is: less is more severe.
pub open spec fn rank(level: Level) -> nat {
    match level {
        Level::Error => 1,
        Level::Warn => 2,
        Level::Info => 3,
        Level::Debug => 4,
        Level::Trace => 5,
    }
}

/// The name of a level, in five columns.
pub open spec fn level_column(level: Level) -> Seq<char> {
    match level {
        Level::Error => "ERROR"@,
        Level::Warn => "WARN "@,
        Level::Info => "INFO "@,
        Level::Debug => "DEBUG"@,
        Level::Trace => "TRACE"@,
    }
}

/// How much a run logs.
pub fn log_level(debug: bool) -> (r: &'static str)
    ensures
        r@ == (if debug {
            "info"@
        } else {
            "warn"@
        }),
{
    if debug {
        "info"
    } else {
        "warn"
    }
}

/// The level with a name; an unknown name means that of `info`.
pub open spec fn level_named(name: Seq<char>) -> Level {
    if name == "trace"@ {
        Level::Trace
    } else if name == "debug"@ {
        Level::Debug
    } else if name == "info"@ {
        Level::Info
    } else if name == "warn"@ {
        Level::Warn
    } else if name == "error"@ {
        Level::Error
    } else {
        Level::Info
    }
}

/// How much the service logs, by name.
pub fn init_system_logger(level: &str) -> (r: FileLogger)
    ensures
        r.level == level_named(level@),
{
    let chosen: Level = if *level == *"trace" {
        Level::Trace
    } else if *level == *"debug" {
        Level::Debug
    } else if *level == *"info" {
        Level::Info
    } else if *level == *"warn" {
        Level::Warn
    } else if *level == *"error" {
        Level::Error
    } else {
        Level::Info
    };
    FileLogger { level: chosen }
}

/// The log of the service.
#[derive(Debug, Clone, Copy, PartialEq, Eq, Structural)]
pub struct FileLogger {
    pub level: Level,
}

/// A number below a thousand in three digits.
pub open spec fn three_digits(n: nat) -> Seq<char> {
    if n < 10 {
        "00"@ + decimal(n)
    } else if n < 100 {
        "0"@ + decimal(n)
    } else {
        decimal(n)
    }
}

/// A line of the log, at so many seconds and milliseconds.
pub open spec fn log_line(secs: u64, millis: u32, level: Level, message: Seq<char>) -> Seq<char> {
    "["@ + decimal(secs as nat) + "."@ + three_digits(millis as nat) + "] ["@ + level_column(level)
        + "] "@ + message + "\n"@
}

impl FileLogger {
    /// Whether a level is logged.
    pub fn enabled(&self, level: Level) -> (r: bool)
        ensures
            r == (rank(level) <= rank(self.level)),
    {
        match (level, self.level) {
            (Level::Error, _) => true,
            (Level::Warn, Level::Error) => false,
            (Level::Warn, _) => true,
            (Level::Info, Level::Error) => false,
            (Level::Info, Level::Warn) => false,
            (Level::Info, _) => true,
            (Level::Debug, Level::Debug) => true,
            (_, Level::Trace) => true,
            _ => false,
        }
    }

    /// The line for a message, if its level is logged.
    pub fn log(&self, secs: u64, millis: u32, level: Level, message: &str) -> (r: Option<String>)
        ensures
            r is Some <==> rank(level) <= rank(self.level),
            r matches Some(line) ==> line@ == log_line(secs, millis, level, message@),
    {
        if !self.enabled(level) {
            return None;
        }
        let mut line: String = join("[", to_decimal(secs).as_str());
        line.append(".");
        if millis < 10 {
            line.append("00");
        } else if millis < 100 {
            line.append("0");
        }
        line.append(to_decimal(millis as u64).as_str());
        line.append("] [");
        let column: &'static str = match level {
            Level::Error => "ERROR",
            Level::Warn => "WARN ",
            Level::Info => "INFO ",
            Level::Debug => "DEBUG",
            Level::Trace => "TRACE",
        };
        line.append(column);
        line.append("] ");
        line.append(message);
        line.append("\n");
        proof {
            assert(line@ =~= log_line(secs, millis, level, message@));
        }
        Some(line)
    }
}

// ---------------------------------------------------------------- UAC
/// The size of the secure desktop, if no display is known.
pub const DEFAULT_WIDTH: u64 = 1920;

pub const DEFAULT_HEIGHT: u64 = 1080;

/// How long the capture is given to write its first frame, in milliseconds.
pub const CAPTURE_HEAD_START: u64 = 150;

/// The size of the secure desktop: that of the first display.
pub fn uac_size(displays: &Vec<(u64, u64)>) -> (r: (u64, u64))
    ensures
        r == (if displays@.len() > 0 {
            displays@[0]
        } else {
            (DEFAULT_WIDTH, DEFAULT_HEIGHT)
        }),
{
    if displays.len() > 0 {
        displays[0]
    } else {
        (DEFAULT_WIDTH, DEFAULT_HEIGHT)
    }
}

/// What the watch over the secure desktop does.
#[derive(Debug, Clone, Copy, PartialEq, Eq, Structural)]
pub enum UacAction {
    Nothing,
    /// Start the capture of the secure desktop, give it up to so many
    /// milliseconds for its first frame, and take the pictures from the
    /// shared memory.
    Enter(u64),
    /// Take the pictures from the desktop again, and stop the capture.
    Leave,
}

/// What the watch over the secure desktop does, from whether it is shown and
/// whether the pictures come from the shared memory.
pub fn uac_step(shown: bool, from_shmem: bool) -> (r: UacAction)
    ensures
        r == (if shown && !from_shmem {
            UacAction::Enter(CAPTURE_HEAD_START)
        } else if !shown && from_shmem {
            UacAction::Leave
        } else {
            UacAction::Nothing
        }),
{
    if shown && !from_shmem {
        UacAction::Enter(CAPTURE_HEAD_START)
    } else if !shown && from_shmem {
        UacAction::Leave
    } else {
        UacAction::Nothing
    }
}

// ---------------------------------------------------------------- the service
/// How long the service is given after its first start, in milliseconds.
pub const SERVICE_HEAD_START: u64 = 2_000;

/// How long it is given after each further one, in milliseconds.
pub const SERVICE_RESTART_DELAY: u64 = 3_000;

/// How the end of the service is awaited.
#[derive(Debug, Clone, Copy, PartialEq, Eq, Structural)]
pub enum WatchStep {
    /// Wait for the process with this handle to end.
    AwaitProcess(isize),
    /// Wait for the thread of the pipe to end, which a broken pipe ends.
    AwaitPipe,
}

/// How the end of the service is awaited: by the handle of its process, if
/// there is one.
pub fn watch_step(process: isize) -> (r: WatchStep)
    ensures
        r == (if process != 0 {
            WatchStep::AwaitProcess(process)
        } else {
            WatchStep::AwaitPipe
        }),
{
    if process != 0 {
        WatchStep::AwaitProcess(process)
    } else {
        WatchStep::AwaitPipe
    }
}

/// What brings the service back.
#[derive(Debug, Clone, Copy, PartialEq, Eq, Structural)]
pub enum RestartAction {
    /// Serve a new pipe, and send input there from now on.
    ServePipe,
    /// Launch the service.
    Launch,
    /// Wait for so many milliseconds.
    Wait(u64),
}

/// What brings the service back once it has ended, in order: the pipe is
/// there before the service looks for it.
pub fn service_ended() -> (r: Vec<RestartAction>)
    ensures
        r@ == seq![
            RestartAction::ServePipe,
            RestartAction::Launch,
            RestartAction::Wait(SERVICE_RESTART_DELAY),
        ],
{
    let mut actions: Vec<RestartAction> = Vec::new();
    actions.push(RestartAction::ServePipe);
    actions.push(RestartAction::Launch);
    actions.push(RestartAction::Wait(SERVICE_RESTART_DELAY));
    actions
}

// ---------------------------------------------------------------- main loop
/// What happens in the main process.
#[derive(Debug, Clone, Copy, PartialEq, Eq, Structural)]
pub enum MainEvent {
    /// A connection that was served has ended.
    ConnectionEnded,
    /// The icon has a command.
    Tray(TrayCommand),
    /// The icon has none.
    TrayIdle,
    /// The icon is gone.
    TrayGone,
}

/// Takes an event of the main process; says whether it goes on. It leaves
/// when the user says so and when the icon is gone. A temporary password is
/// replaced after each connection, a fixed one never.
pub fn main_step(event: MainEvent, fixed_password: &str, current: &mut Option<String>) -> (r: bool)
    ensures
        r == !(event == MainEvent::Tray(TrayCommand::Exit) || event == MainEvent::TrayGone),
        if event == MainEvent::ConnectionEnded && fixed_password@.len() == 0 {
            &&& *final(current) is Some
            &&& slot_text(*final(current)).len() == 8
            &&& forall|i: int|
                0 <= i < 8 ==> is_alphanumeric(#[trigger] slot_text(*final(current))[i])
        } else {
            *final(current) == *old(current)
        },
{
    match event {
        MainEvent::ConnectionEnded => {
            refresh_password(fixed_password, current);
            true
        },
        MainEvent::Tray(command) => match command {
            TrayCommand::Exit => false,
            TrayCommand::ShowInfo => true,
        },
        MainEvent::TrayIdle => true,
        MainEvent::TrayGone => false,
    }
}

} // verus!
