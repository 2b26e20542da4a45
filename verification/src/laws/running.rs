//! The program runs: its two processes, its icon, its log.

use vstd::prelude::*;

use crate::sos_bootstrap::{
    init_system_logger, is_admin, log_level, main_step, service_ended, uac_size, uac_step,
    watch_step, FileLogger, Level, MainEvent, RestartAction, UacAction, WatchStep,
};
use crate::sos_system::{
    events_opened, fell_back, is_system_process, launch_system_sub_process, launched,
    log_token_info, pipe_connected, run_service, CaptureSwitch, EventStep, Launch, LaunchStep,
    StartStep, TokenInfo,
};
use crate::sos_tray::{
    build_tip_text, message_loop_goes_on, notify_password_changed, open_clipboard_and_set_text,
    show_context_menu, tray_window_proc, update_tip, ContextMenu, TrayAction, TrayCommand,
};
use crate::laws::login::letter_or_digit;
use crate::sos_bootstrap::SERVICE_HEAD_START;
use crate::sos_constants::{
    APP_NAME, CAPTURE_READY_EVENT, CAPTURE_START_EVENT, CAPTURE_STOP_EVENT, CONNECT_TIMEOUT,
    INPUT_PIPE, REGISTRY_PATH, REG_INTERVAL, RELAY_PORT, RENDEZVOUS_PORT,
};
use crate::sos_pipe::{PIPE_ACCESS_OUTBOUND, PIPE_MODE};
use crate::sos_rendezvous::ACCEPT_TIMEOUT;
use crate::sos_shmem::SHMEM_NAME;
use crate::sos_tray::{WM_TRAY_ICON, WM_TRAY_UPDATE_TIP, WM_USER};
use crate::text::{decimal, utf16};

verus! {

// ---------------------------------------------------------------- rights
/// The program needs the rights of an administrator, and the service those of
/// the system; what could not be asked is no.
pub proof fn rights_are_needed(
    elevated: Option<u32>,
    admin: bool,
    answer: Option<bool>,
    system: bool,
)
    requires
        call_ensures(is_admin, (elevated,), admin),
        call_ensures(is_system_process, (answer,), system),
    ensures
        admin <==> elevated is Some && elevated->0 != 0,
        system <==> answer is Some && answer->0,
{
}

/// The service starts as the system only, with the pipe, which it tries for
/// six seconds, and with both events; and otherwise it ends.
pub proof fn service_starts_with_all_it_needs(
    is_system: bool,
    first: StartStep,
    connected: bool,
    second: StartStep,
    start_event: isize,
    stop_event: isize,
    third: StartStep,
)
    requires
        call_ensures(run_service, (is_system,), first),
        call_ensures(pipe_connected, (connected,), second),
        call_ensures(events_opened, (start_event, stop_event), third),
    ensures
        is_system ==> first == StartStep::ConnectPipe(6),
        !is_system ==> first == StartStep::End,
        connected ==> second == StartStep::OpenEvents,
        !connected ==> second == StartStep::End,
        start_event != 0 && stop_event != 0 ==> third == StartStep::Run,
        start_event == 0 || stop_event == 0 ==> third == StartStep::End,
{
}

/// The first event starts the capture and wakes it, the second one stops it,
/// and anything else stops it and ends the process. At first it is off.
pub proof fn events_switch_the_capture(
    s: &mut CaptureSwitch,
    ret: u32,
    r: EventStep,
    fresh: CaptureSwitch,
)
    requires
        call_ensures(CaptureSwitch::waited, (s, ret), r),
        call_ensures(CaptureSwitch::new, (), fresh),
    ensures
        ret == 0 ==> final(s).active && r == EventStep::Wake,
        ret == 1 ==> !final(s).active && r == EventStep::WaitOn,
        ret > 1 ==> !final(s).active && r == EventStep::EndProcess,
        !fresh.active,
{
}

/// What the two processes, Windows and the servers know each other by: names,
/// ports, modes of the pipe, and times in milliseconds. The events have a name
/// each.
pub proof fn agreed_values()
    ensures
        SHMEM_NAME@ == "sos"@,
        INPUT_PIPE@ == "\\\\.\\pipe\\sos_input"@,
        CAPTURE_READY_EVENT@ == "SosCaptureReady"@,
        CAPTURE_START_EVENT@ == "SosCaptureStart"@,
        CAPTURE_STOP_EVENT@ == "SosCaptureStop"@,
        CAPTURE_READY_EVENT@ != CAPTURE_START_EVENT@,
        CAPTURE_READY_EVENT@ != CAPTURE_STOP_EVENT@,
        CAPTURE_START_EVENT@ != CAPTURE_STOP_EVENT@,
        REGISTRY_PATH@ == "SOFTWARE\\RustDeskSOS"@,
        APP_NAME@ == "RustDesk SOS"@,
        RENDEZVOUS_PORT == 21116,
        RELAY_PORT == RENDEZVOUS_PORT + 1,
        PIPE_ACCESS_OUTBOUND == 2,
        PIPE_MODE == 6,
        WM_USER < WM_TRAY_ICON < WM_TRAY_UPDATE_TIP,
        WM_USER == 0x400,
        CONNECT_TIMEOUT == 18_000,
        ACCEPT_TIMEOUT == 10_000,
        REG_INTERVAL == 15_000,
        SERVICE_HEAD_START == 2_000,
{
    reveal_strlit("SosCaptureReady");
    reveal_strlit("SosCaptureStart");
    reveal_strlit("SosCaptureStop");
    assert("SosCaptureReady"@[10] == 'R' && "SosCaptureStart"@[10] == 'S');
    assert("SosCaptureStop"@.len() == 14 && "SosCaptureStart"@.len() == 15);
    assert("SosCaptureReady"@.len() == 15);
}

// ---------------------------------------------------------------- launch
/// The service is launched as this program, in quotes, with the argument that
/// makes it the service, and the one for a full log if that is wanted.
pub proof fn service_is_this_program(exe: Option<&str>, debug: bool, r: Launch)
    requires
        call_ensures(launch_system_sub_process, (exe, debug), r),
    ensures
        debug ==> r.args@ == "--service --debug"@,
        !debug ==> r.args@ == "--service"@,
        exe matches Some(e) ==> r.command@ == utf16("\""@ + e@ + "\" "@ + r.args@).push(0),
        exe is None ==> r.command@ == utf16(
            "\""@ + "rustdesk-sos.exe"@ + "\" "@ + r.args@,
        ).push(0),
{
}

/// A launch that gives a handle is done; one that does not is tried in the
/// other way, which gives none.
pub proof fn launch_has_a_fallback(handle: isize, r: LaunchStep, ok: bool, fallen: LaunchStep)
    requires
        call_ensures(launched, (handle,), r),
        call_ensures(fell_back, (ok,), fallen),
    ensures
        handle != 0 ==> r == LaunchStep::Launched(handle),
        handle == 0 ==> r == LaunchStep::Fallback,
        fallen == LaunchStep::Launched(0),
{
}

/// The end of the service is awaited at its process, if its handle is known,
/// and otherwise at its pipe; then it is brought back: first a pipe, then the
/// service, then three seconds for it.
pub proof fn service_is_brought_back(process: isize, r: WatchStep, actions: Vec<RestartAction>)
    requires
        call_ensures(watch_step, (process,), r),
        call_ensures(service_ended, (), actions),
    ensures
        process != 0 ==> r == WatchStep::AwaitProcess(process),
        process == 0 ==> r == WatchStep::AwaitPipe,
        actions@.len() == 3,
        actions@[0] == RestartAction::ServePipe,
        actions@[1] == RestartAction::Launch,
        actions@[2] == RestartAction::Wait(3_000),
{
}

// ---------------------------------------------------------------- main
/// While the secure desktop is shown the pictures come from the shared
/// memory, and otherwise from the desktop; nothing is done where that is so
/// already. The capture has 150 milliseconds for its first frame.
pub proof fn pictures_follow_the_secure_desktop(shown: bool, from_shmem: bool, r: UacAction)
    requires
        call_ensures(uac_step, (shown, from_shmem), r),
    ensures
        shown == from_shmem ==> r == UacAction::Nothing,
        shown && !from_shmem ==> r == UacAction::Enter(150),
        !shown && from_shmem ==> r == UacAction::Leave,
{
}

/// The secure desktop has the size of the first display, and a usual one if
/// there is none.
pub proof fn secure_desktop_has_a_size(displays: &Vec<(u64, u64)>, r: (u64, u64))
    requires
        call_ensures(uac_size, (displays,), r),
    ensures
        displays@.len() > 0 ==> r.0 == displays@[0].0 && r.1 == displays@[0].1,
        displays@.len() == 0 ==> r.0 == 1920 && r.1 == 1080,
{
}

/// The program ends when its user says so and when its icon is gone, and not
/// otherwise. After a connection a temporary password is replaced; nothing
/// else touches the password.
pub proof fn program_ends_when_told(
    event: MainEvent,
    fixed: &str,
    current: &mut Option<String>,
    r: bool,
    i: int,
)
    requires
        call_ensures(main_step, (event, fixed, current), r),
        0 <= i < 8,
    ensures
        !r <==> event == MainEvent::Tray(TrayCommand::Exit) || event == MainEvent::TrayGone,
        event == MainEvent::ConnectionEnded && fixed@.len() == 0 ==> {
            &&& *final(current) matches Some(p)
            &&& p@.len() == 8
            &&& letter_or_digit(p@[i])
        },
        event != MainEvent::ConnectionEnded || fixed@.len() > 0 ==> *final(current) == *old(
            current,
        ),
{
}

// ---------------------------------------------------------------- icon
/// A right click on the icon shows the menu, a double click shows the device,
/// and the entries of the menu copy the identifier and the password and leave
/// the program. A password that is not there is not copied. Other messages
/// are left to Windows.
pub proof fn icon_does_what_is_clicked(
    msg: u32,
    wparam: u64,
    lparam: u32,
    device_id: &str,
    password: &str,
    r: TrayAction,
)
    requires
        call_ensures(tray_window_proc, (msg, wparam, lparam, device_id, password), r),
    ensures
        msg == 0x401 && lparam == 0x205 ==> r == TrayAction::ShowMenu,
        msg == 0x401 && lparam == 0x203 ==> r == TrayAction::Send(TrayCommand::ShowInfo),
        msg == 0x401 && lparam != 0x205 && lparam != 0x203 ==> r == TrayAction::Nothing,
        msg == 0x403 ==> r == TrayAction::UpdateTip,
        msg == 0x111 && wparam % 0x1_0000 == 100 ==> (r matches TrayAction::Copy(text) && text@
            == device_id@),
        msg == 0x111 && wparam % 0x1_0000 == 101 && password@.len() > 0 ==> (
        r matches TrayAction::Copy(text) && text@ == password@),
        msg == 0x111 && wparam % 0x1_0000 == 101 && password@.len() == 0 ==> r
            == TrayAction::Nothing,
        msg == 0x111 && wparam % 0x1_0000 == 6 ==> r == TrayAction::Send(TrayCommand::Exit),
        msg == 0x111 && wparam % 0x1_0000 != 100 && wparam % 0x1_0000 != 101 && wparam % 0x1_0000
            != 6 ==> r == TrayAction::Nothing,
        msg != 0x401 && msg != 0x403 && msg != 0x111 ==> r == TrayAction::Default,
{
}

/// The tip shows the identifier, and the password if there is one.
pub proof fn tip_shows_identifier_and_password(device_id: &str, password: &str, r: String)
    requires
        call_ensures(build_tip_text, (device_id, password), r),
    ensures
        password@.len() == 0 ==> r@ == "RustDesk SOS\nID: "@ + device_id@,
        password@.len() > 0 ==> r@ == "RustDesk SOS\nID: "@ + device_id@ + "\n密码: "@ + password@,
{
}

/// In its buffer the tip is cut off where there is no room for more, and it
/// always ends with a zero.
pub proof fn tip_fits_its_buffer(
    device_id: &str,
    password: &str,
    r: [u16; 128],
    text: String,
    i: int,
)
    requires
        call_ensures(update_tip, (device_id, password), r),
        call_ensures(build_tip_text, (device_id, password), text),
        0 <= i < 128,
    ensures
        r@.len() == 128,
        r@[127] == 0,
        i < 127 && i < utf16(text@).len() ==> r@[i] == utf16(text@)[i],
        i >= utf16(text@).len() ==> r@[i] == 0,
{
}

/// The menu shows the identifier, and the password or that there is none.
pub proof fn menu_shows_identifier_and_password(device_id: &str, password: &str, r: ContextMenu)
    requires
        call_ensures(show_context_menu, (device_id, password), r),
    ensures
        r.show_id@ == utf16("ID: "@ + device_id@).push(0),
        password@.len() > 0 ==> r.show_password@ == utf16("密码: "@ + password@).push(0),
        password@.len() == 0 ==> r.show_password@ == utf16("密码: (未设置)"@).push(0),
        r.exit@ == utf16("退出"@).push(0),
{
}

/// The clipboard gets the text as it is, the window of the icon is told where
/// there is one, and the loop of messages ends with them or with a failure.
pub proof fn window_is_told(
    text: &str,
    units: Vec<u16>,
    window: isize,
    told: Option<isize>,
    result: i32,
    goes_on: bool,
)
    requires
        call_ensures(open_clipboard_and_set_text, (text,), units),
        call_ensures(notify_password_changed, (window,), told),
        call_ensures(message_loop_goes_on, (result,), goes_on),
    ensures
        units@ == utf16(text@).push(0),
        window != 0 ==> told == Some(window),
        window == 0 ==> told is None,
        goes_on <==> result != 0 && result != -1,
{
}

// ---------------------------------------------------------------- log
/// A run logs more if that is asked for.
pub proof fn debug_logs_more(debug: bool, r: &'static str)
    requires
        call_ensures(log_level, (debug,), r),
    ensures
        debug ==> r@ == "info"@,
        !debug ==> r@ == "warn"@,
{
}

/// The log of the service has the level that is named, and the middle one
/// where the name is none.
pub proof fn level_has_a_name(level: &str, r: FileLogger)
    requires
        call_ensures(init_system_logger, (level,), r),
    ensures
        level@ == "trace"@ ==> r.level == Level::Trace,
        level@ == "debug"@ ==> r.level == Level::Debug,
        level@ == "info"@ ==> r.level == Level::Info,
        level@ == "warn"@ ==> r.level == Level::Warn,
        level@ == "error"@ ==> r.level == Level::Error,
        level@ != "trace"@ && level@ != "debug"@ && level@ != "warn"@ && level@ != "error"@
            ==> r.level == Level::Info,
{
    reveal_strlit("trace");
    reveal_strlit("debug");
    reveal_strlit("info");
    reveal_strlit("warn");
    reveal_strlit("error");
    assert("trace"@[0] == 't' && "debug"@[0] == 'd' && "info"@[0] == 'i');
    assert("warn"@[0] == 'w' && "error"@[0] == 'e');
}

/// A log takes what is as severe as its level or more so: what a level takes,
/// every fuller one takes too, errors are always taken, and each level takes
/// its own.
pub proof fn severe_things_are_logged(
    logger: &FileLogger,
    level: Level,
    r: bool,
    secs: u64,
    millis: u32,
    message: &str,
    line: Option<String>,
)
    requires
        call_ensures(FileLogger::enabled, (logger, level), r),
        call_ensures(FileLogger::log, (logger, secs, millis, level, message), line),
    ensures
        level == Level::Error ==> r,
        level == logger.level ==> r,
        logger.level == Level::Trace ==> r,
        logger.level == Level::Error && level != Level::Error ==> !r,
        level == Level::Trace && logger.level != Level::Trace ==> !r,
        level == Level::Warn && logger.level != Level::Error ==> r,
        level == Level::Info && logger.level == Level::Warn ==> !r,
        level == Level::Info && logger.level == Level::Debug ==> r,
        level == Level::Debug && (logger.level == Level::Warn || logger.level == Level::Info)
            ==> !r,
        line is Some <==> r,
{
}

/// A line of the log has its time, with three digits at least for the
/// milliseconds,
/// its level in five columns, and the message.
pub proof fn line_has_time_level_and_message(
    logger: &FileLogger,
    level: Level,
    secs: u64,
    millis: u32,
    message: &str,
    line: String,
)
    requires
        call_ensures(FileLogger::log, (logger, secs, millis, level, message), Some(line)),
    ensures
        ({
            let zeros = if millis < 10 {
                "00"@
            } else if millis < 100 {
                "0"@
            } else {
                Seq::<char>::empty()
            };
            let name = match level {
                Level::Error => "ERROR"@,
                Level::Warn => "WARN "@,
                Level::Info => "INFO "@,
                Level::Debug => "DEBUG"@,
                Level::Trace => "TRACE"@,
            };
            line@ == "["@ + decimal(secs as nat) + "."@ + zeros + decimal(millis as nat) + "] ["@
                + name + "] "@ + message@ + "\n"@
        }),
{
    let zeros = if millis < 10 {
        "00"@
    } else if millis < 100 {
        "0"@
    } else {
        Seq::<char>::empty()
    };
    let name = match level {
        Level::Error => "ERROR"@,
        Level::Warn => "WARN "@,
        Level::Info => "INFO "@,
        Level::Debug => "DEBUG"@,
        Level::Trace => "TRACE"@,
    };
    assert(line@ =~= "["@ + decimal(secs as nat) + "."@ + zeros + decimal(millis as nat) + "] ["@
        + name + "] "@ + message@ + "\n"@);
}

/// The line on a token says at which stage it was, which process and session
/// it is of, and what is known of it; a token that could not be opened is a
/// warning.
pub proof fn token_is_described(
    stage: &str,
    pid: u32,
    session_id: u32,
    token: Option<TokenInfo>,
    r: (bool, String),
)
    requires
        call_ensures(log_token_info, (stage, pid, session_id, token), r),
    ensures
        r.0 <==> token is None,
        ({
            let head = "[TOKEN:"@ + stage@ + "] PID="@ + decimal(pid as nat) + " Session="@
                + decimal(session_id as nat);
            &&& token is None ==> r.1@ == head + " CANNOT_OPEN_TOKEN"@
            &&& token matches Some(t) ==> {
                let user = match t.is_system {
                    Some(true) => "is_system=true"@,
                    Some(false) => "is_system=false"@,
                    None => "SID_UNKNOWN"@,
                };
                let integrity = match t.integrity {
                    None => ""@,
                    Some(l) => if l == 0 {
                        "Untrusted"@
                    } else if l == 4096 {
                        "Low"@
                    } else if l == 8192 {
                        "Medium"@
                    } else if l == 12288 {
                        "High"@
                    } else if l == 16384 {
                        "System"@
                    } else {
                        "Other"@
                    },
                };
                let elevation = match t.elevated {
                    None => "unknown"@,
                    Some(e) => if e == 0 {
                        "not_elevated"@
                    } else {
                        "elevated"@
                    },
                };
                let kind = match t.token_type {
                    None => "unknown"@,
                    Some(k) => if k == 1 {
                        "Primary"@
                    } else if k == 2 {
                        "Impersonation"@
                    } else {
                        "Other"@
                    },
                };
                r.1@ == head + " "@ + user + " Integrity="@ + integrity + " Elevation="@
                    + elevation + " Type="@ + kind
            }
        }),
{
}

} // verus!
