use sos_client::sos_bootstrap::{
    init_system_logger, is_admin, log_level, main_step, service_ended, uac_size, uac_step,
    watch_step, FileLogger, Level, MainEvent, RestartAction, UacAction, WatchStep,
};
use sos_client::sos_input::{encode_input, InputEvent};
use sos_client::sos_system::{
    events_opened, fell_back, input_step, is_system_process, launch_system_sub_process, launched,
    log_token_info, pipe_connected, run_service, CaptureSwitch, EventStep, InputStep, LaunchStep,
    StartStep, TokenInfo,
};
use sos_client::sos_tray::{
    build_tip_text, message_loop_goes_on, notify_password_changed, open_clipboard_and_set_text,
    show_context_menu, tray_window_proc, update_tip, TrayAction, TrayCommand, MENU_EXIT,
    MENU_SHOW_ID, MENU_SHOW_PASSWORD, WM_COMMAND, WM_LBUTTONDBLCLK, WM_RBUTTONUP, WM_TRAY_ICON,
    WM_TRAY_UPDATE_TIP, WM_USER,
};

fn wide(s: &str) -> Vec<u16> {
    s.encode_utf16().chain(std::iter::once(0)).collect()
}

#[test]
fn token_lines() {
    let token = TokenInfo {
        is_system: Some(true),
        integrity: Some(0x4000),
        elevated: Some(1),
        token_type: Some(1),
    };
    assert_eq!(
        log_token_info("SUB_INIT", 12, 1, Some(token)),
        (
            false,
            "[TOKEN:SUB_INIT] PID=12 Session=1 is_system=true Integrity=System \
             Elevation=elevated Type=Primary"
                .to_string()
        )
    );
    let token = TokenInfo { is_system: None, integrity: None, elevated: None, token_type: None };
    assert_eq!(
        log_token_info("X", 0, 0, Some(token)).1,
        "[TOKEN:X] PID=0 Session=0 SID_UNKNOWN Integrity= Elevation=unknown Type=unknown"
    );
    assert_eq!(
        log_token_info("X", 5, 6, None),
        (true, "[TOKEN:X] PID=5 Session=6 CANNOT_OPEN_TOKEN".to_string())
    );
}

#[test]
fn token_labels() {
    let line = |integrity, elevated, token_type| {
        log_token_info(
            "",
            1,
            1,
            Some(TokenInfo {
                is_system: Some(false),
                integrity: Some(integrity),
                elevated: Some(elevated),
                token_type: Some(token_type),
            }),
        )
        .1
    };
    for (level, name) in [
        (0x0000, "Untrusted"),
        (0x1000, "Low"),
        (0x2000, "Medium"),
        (0x3000, "High"),
        (0x4000, "System"),
        (0x2100, "Other"),
    ] {
        assert_eq!(
            line(level, 0, 2),
            format!(
                "[TOKEN:] PID=1 Session=1 is_system=false Integrity={} \
                 Elevation=not_elevated Type=Impersonation",
                name
            )
        );
    }
    assert!(line(0, 7, 3).ends_with("Elevation=elevated Type=Other"));
}

#[test]
fn service_starts_only_for_the_system() {
    assert!(is_system_process(Some(true)));
    assert!(!is_system_process(Some(false)));
    assert!(!is_system_process(None));
    assert_eq!(run_service(false), StartStep::End);
    assert_eq!(run_service(true), StartStep::ConnectPipe(6));
    assert_eq!(pipe_connected(false), StartStep::End);
    assert_eq!(pipe_connected(true), StartStep::OpenEvents);
    assert_eq!(events_opened(0, 5), StartStep::End);
    assert_eq!(events_opened(5, 0), StartStep::End);
    assert_eq!(events_opened(5, 6), StartStep::Run);
}

#[test]
fn input_thread() {
    assert_eq!(input_step(None), InputStep::EndProcess);
    assert_eq!(input_step(Some(&[1, 0, 0, 0])), InputStep::ReadOn);
    assert_eq!(input_step(Some(&encode_input(9, &[1]))), InputStep::ReadOn);
    assert_eq!(input_step(Some(&encode_input(3, &[1]))), InputStep::EndThread);
    assert_eq!(
        input_step(Some(&encode_input(1, &[5]))),
        InputStep::Inject(InputEvent::Mouse(vec![5]))
    );
    assert_eq!(
        input_step(Some(&encode_input(2, &[6]))),
        InputStep::Inject(InputEvent::Key(vec![6]))
    );
}

#[test]
fn capture_is_switched() {
    let mut s = CaptureSwitch::new();
    assert!(!s.active);
    assert_eq!(s.waited(0), EventStep::Wake);
    assert!(s.active);
    assert_eq!(s.waited(1), EventStep::WaitOn);
    assert!(!s.active);
    s.waited(0);
    assert_eq!(s.waited(0xFFFF_FFFF), EventStep::EndProcess);
    assert!(!s.active);
}

#[test]
fn command_line_of_the_service() {
    let l = launch_system_sub_process(Some("C:\\a b\\sos.exe"), true);
    assert_eq!(l.args, "--service --debug");
    assert_eq!(l.command, wide("\"C:\\a b\\sos.exe\" --service --debug"));
    let l = launch_system_sub_process(None, false);
    assert_eq!(l.args, "--service");
    assert_eq!(l.command, wide("\"rustdesk-sos.exe\" --service"));
    assert_eq!(launched(7), LaunchStep::Launched(7));
    assert_eq!(launched(-1), LaunchStep::Launched(-1));
    assert_eq!(launched(0), LaunchStep::Fallback);
    assert_eq!(fell_back(true), LaunchStep::Launched(0));
    assert_eq!(fell_back(false), LaunchStep::Launched(0));
}

#[test]
fn service_is_brought_back() {
    assert_eq!(watch_step(7), WatchStep::AwaitProcess(7));
    assert_eq!(watch_step(-1), WatchStep::AwaitProcess(-1));
    assert_eq!(watch_step(0), WatchStep::AwaitPipe);
    assert_eq!(
        service_ended(),
        vec![RestartAction::ServePipe, RestartAction::Launch, RestartAction::Wait(3000)]
    );
}

#[test]
fn clicks_on_the_icon() {
    let act = |msg, wparam, lparam| tray_window_proc(msg, wparam, lparam, "100", "pw");
    assert_eq!(act(WM_TRAY_ICON, 0, WM_RBUTTONUP), TrayAction::ShowMenu);
    assert_eq!(
        act(WM_TRAY_ICON, 0, WM_LBUTTONDBLCLK),
        TrayAction::Send(TrayCommand::ShowInfo)
    );
    assert_eq!(act(WM_TRAY_ICON, 0, 0x0200), TrayAction::Nothing);
    assert_eq!(act(WM_TRAY_UPDATE_TIP, 0, 0), TrayAction::UpdateTip);
    assert_eq!(
        act(WM_COMMAND, MENU_SHOW_ID as u64, 0),
        TrayAction::Copy("100".to_string())
    );
    assert_eq!(
        act(WM_COMMAND, 0x5_0000 + MENU_SHOW_PASSWORD as u64, 0),
        TrayAction::Copy("pw".to_string())
    );
    assert_eq!(
        act(WM_COMMAND, MENU_EXIT as u64, 0),
        TrayAction::Send(TrayCommand::Exit)
    );
    assert_eq!(act(WM_COMMAND, 55, 0), TrayAction::Nothing);
    assert_eq!(act(WM_USER + 2, 0, 0), TrayAction::Default);
    assert_eq!(
        tray_window_proc(WM_COMMAND, MENU_SHOW_PASSWORD as u64, 0, "100", ""),
        TrayAction::Nothing
    );
}

#[test]
fn tip_of_the_icon() {
    assert_eq!(build_tip_text("100", ""), "RustDesk SOS\nID: 100");
    assert_eq!(build_tip_text("100", "pw"), "RustDesk SOS\nID: 100\n密码: pw");
    let tip = update_tip("100", "pw");
    let expected = wide("RustDesk SOS\nID: 100\n密码: pw");
    assert_eq!(tip[..expected.len()], expected[..]);
    assert!(tip[expected.len()..].iter().all(|u| *u == 0));
    let long = "x".repeat(300);
    let tip = update_tip(&long, "");
    assert_eq!(tip[..127], wide(&build_tip_text(&long, ""))[..127]);
    assert_eq!(tip[127], 0);
}

#[test]
fn menu_of_the_icon() {
    let menu = show_context_menu("100", "pw");
    assert_eq!(menu.show_id, wide("ID: 100"));
    assert_eq!(menu.show_password, wide("密码: pw"));
    assert_eq!(menu.exit, wide("退出"));
    assert_eq!(show_context_menu("100", "").show_password, wide("密码: (未设置)"));
    assert_eq!(open_clipboard_and_set_text("a"), wide("a"));
}

#[test]
fn window_of_the_icon() {
    assert_eq!(notify_password_changed(0), None);
    assert_eq!(notify_password_changed(9), Some(9));
    assert!(message_loop_goes_on(1));
    assert!(!message_loop_goes_on(0));
    assert!(!message_loop_goes_on(-1));
}

#[test]
fn rights_of_an_administrator() {
    assert!(is_admin(Some(1)));
    assert!(!is_admin(Some(0)));
    assert!(!is_admin(None));
}

#[test]
fn levels_of_the_log() {
    assert_eq!(log_level(true), "info");
    assert_eq!(log_level(false), "warn");
    for (name, level) in [
        ("trace", Level::Trace),
        ("debug", Level::Debug),
        ("info", Level::Info),
        ("warn", Level::Warn),
        ("error", Level::Error),
        ("Warn", Level::Info),
        ("", Level::Info),
    ] {
        assert_eq!(init_system_logger(name), FileLogger { level });
    }
    let all = [Level::Error, Level::Warn, Level::Info, Level::Debug, Level::Trace];
    for (i, a) in all.iter().enumerate() {
        for (j, b) in all.iter().enumerate() {
            assert_eq!(FileLogger { level: *b }.enabled(*a), i <= j);
        }
    }
}

#[test]
fn lines_of_the_log() {
    let logger = FileLogger { level: Level::Info };
    assert_eq!(logger.log(1, 2, Level::Debug, "x"), None);
    for (millis, expected) in [
        (2, "[1700000000.002] [INFO ] hello\n"),
        (45, "[1700000000.045] [INFO ] hello\n"),
        (999, "[1700000000.999] [INFO ] hello\n"),
    ] {
        assert_eq!(
            logger.log(1_700_000_000, millis, Level::Info, "hello"),
            Some(expected.to_string())
        );
    }
    assert_eq!(
        logger.log(0, 0, Level::Error, ""),
        Some("[0.000] [ERROR] \n".to_string())
    );
}

#[test]
fn watch_over_the_secure_desktop() {
    assert_eq!(uac_step(true, false), UacAction::Enter(150));
    assert_eq!(uac_step(false, true), UacAction::Leave);
    assert_eq!(uac_step(true, true), UacAction::Nothing);
    assert_eq!(uac_step(false, false), UacAction::Nothing);
    assert_eq!(uac_size(&vec![]), (1920, 1080));
    assert_eq!(uac_size(&vec![(800, 600), (1, 1)]), (800, 600));
}

#[test]
fn main_process() {
    let mut current = Some("before".to_string());
    assert!(main_step(MainEvent::TrayIdle, "", &mut current));
    assert!(main_step(MainEvent::Tray(TrayCommand::ShowInfo), "", &mut current));
    assert!(!main_step(MainEvent::Tray(TrayCommand::Exit), "", &mut current));
    assert!(!main_step(MainEvent::TrayGone, "", &mut current));
    assert!(main_step(MainEvent::ConnectionEnded, "fixed", &mut current));
    assert_eq!(current, Some("before".to_string()));
    assert!(main_step(MainEvent::ConnectionEnded, "", &mut current));
    assert_eq!(current.unwrap().len(), 8);
}
