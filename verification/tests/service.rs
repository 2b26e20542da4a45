use sos_client::sos_file_transfer::{FileAction, FileReply, FileTransferHandler, FsOutcome, FsTask};
use sos_client::sos_input::{read_input, InputEvent};
use sos_client::sos_pipe::{encode_pipe_message, PipeReader, ReadStep};
use sos_client::sos_service::{
    handle_change_resolution, handle_incoming_message, log_msg_types, poll_delay,
    run_file_transfer_loop, run_service_loop, Effect, FileActionKind, FileLoopAction,
    FileLoopEvent, FileResponse, ImageQuality, Incoming, MessageKind, MiscMessage, OptionMessage,
    ResolutionChange, Sending, ServiceAction, ServiceEvent, ServiceLoop, MILLISECOND,
};

type Handler = FileTransferHandler<&'static str, u8, u64>;
type Msg = Incoming<char, bool, u16, u64>;
type Out = Effect<char, bool, u16, u64, &'static str>;

fn effects(msg: Msg) -> Vec<Out> {
    let mut h: Handler = FileTransferHandler::new();
    handle_incoming_message(&[1], Some(msg), &mut h, 7)
}

#[test]
fn names_of_messages() {
    assert_eq!(log_msg_types(None), None);
    assert_eq!(log_msg_types(Some(MessageKind::MouseEvent)), Some("MouseEvent"));
    assert_eq!(
        log_msg_types(Some(MessageKind::FileAction(Some(FileActionKind::ReadDir)))),
        Some("FileAction::ReadDir")
    );
    assert_eq!(
        log_msg_types(Some(MessageKind::FileAction(None))),
        Some("FileAction")
    );
    assert_eq!(log_msg_types(Some(MessageKind::Other)), Some("Unknown/Other"));
}

#[test]
fn empty_and_unreadable_messages_ask_for_nothing() {
    let mut h: Handler = FileTransferHandler::new();
    let r: Vec<Out> = handle_incoming_message(&[], Some(Msg::Clipboard('c')), &mut h, 1);
    assert_eq!(r, vec![]);
    let r: Vec<Out> = handle_incoming_message(&[1, 2], None, &mut h, 1);
    assert_eq!(r, vec![]);
    assert_eq!(effects(Msg::Other), vec![]);
}

#[test]
fn input_of_the_peer_arrives() {
    for (msg, expected) in [
        (Msg::Mouse(vec![4, 5]), InputEvent::Mouse(vec![4, 5])),
        (Msg::Key(vec![6]), InputEvent::Key(vec![6])),
    ] {
        let mut done = effects(msg);
        assert_eq!(done.len(), 1);
        let data = match done.remove(0) {
            Effect::SendInput(data) => data,
            other => panic!("{:?}", other),
        };
        let packet = encode_pipe_message(&data);
        let mut reader = PipeReader::new();
        reader.read_message(true, &packet[..4]);
        reader.read_message(true, &packet[4..7]);
        match reader.read_message(true, &packet[7..]) {
            ReadStep::Message(m) => assert_eq!(read_input(&m), Some((true, expected))),
            other => panic!("{:?}", other),
        }
    }
}

#[test]
fn clipboards() {
    assert_eq!(effects(Msg::Clipboard('a')), vec![Effect::UpdateClipboard(vec!['a'])]);
    assert_eq!(
        effects(Msg::MultiClipboards(vec!['a', 'b'])),
        vec![Effect::UpdateClipboard(vec!['a', 'b'])]
    );
    assert_eq!(effects(Msg::Cliprdr(Some(true))), vec![Effect::ClipFile(7, true)]);
    assert_eq!(effects(Msg::Cliprdr(None)), vec![]);
}

fn options(fps: i32, quality: Option<ImageQuality>, custom: i32, decoding: Option<u16>) -> Msg {
    Msg::Misc(MiscMessage::Options(OptionMessage {
        custom_fps: fps,
        image_quality: quality,
        custom_image_quality: custom,
        supported_decoding: decoding,
    }))
}

#[test]
fn wishes_of_the_peer() {
    assert_eq!(
        effects(options(30, Some(ImageQuality::Low), 0, Some(9))),
        vec![
            Effect::CustomFps(7, 30),
            Effect::SetImageQuality(7, 4),
            Effect::SupportedDecoding(7, 9)
        ]
    );
    assert_eq!(effects(options(0, None, 50, None)), vec![]);
    assert_eq!(effects(options(-1, Some(ImageQuality::NotSet), 0, None)), vec![]);
    assert_eq!(
        effects(options(0, Some(ImageQuality::NotSet), 3, None)),
        vec![Effect::SetImageQuality(7, 4)]
    );
    assert_eq!(
        effects(options(0, Some(ImageQuality::NotSet), 80, None)),
        vec![Effect::SetImageQuality(7, 80)]
    );
    for q in [ImageQuality::Balanced, ImageQuality::Best] {
        assert_eq!(
            effects(options(0, Some(q), 80, None)),
            vec![Effect::SetImageQuality(7, 4)]
        );
    }
}

#[test]
fn messages_of_little_weight() {
    assert_eq!(
        effects(Msg::Misc(MiscMessage::VideoReceived)),
        vec![Effect::FrameFetched(7)]
    );
    assert_eq!(effects(Msg::Misc(MiscMessage::SwitchDisplay(1))), vec![]);
    assert_eq!(effects(Msg::Misc(MiscMessage::Other)), vec![]);
    assert_eq!(
        effects(Msg::Misc(MiscMessage::ChangeResolution { width: 800, height: -1 })),
        vec![Effect::ChangeResolution { display: None, width: 800, height: u64::MAX }]
    );
    assert_eq!(
        effects(Msg::Misc(MiscMessage::ChangeDisplayResolution {
            display: i32::MIN,
            width: 1,
            height: 2
        })),
        vec![Effect::ChangeResolution {
            display: Some(i32::MIN as u64),
            width: 1,
            height: 2
        }]
    );
}

#[test]
fn file_messages() {
    let mut h: Handler = FileTransferHandler::new();
    let run = |h: &mut Handler, msg: Msg| -> Vec<Out> { handle_incoming_message(&[1], Some(msg), h, 0) };
    let receive = FileAction::Receive { id: 3, path: "/C:/x".to_string(), file_num: 0 };
    let task = FsTask::StartReceive { id: 3, path: "C:\\x".to_string(), file_num: 0 };
    assert_eq!(
        run(&mut h, Msg::FileAction(receive)),
        vec![Effect::RunFsTask(FsTask::StartReceive {
            id: 3,
            path: "C:\\x".to_string(),
            file_num: 0
        })]
    );
    h.complete(task, FsOutcome::Job("job"));
    let block = |id| Msg::FileResponse(FileResponse::Block { id, file_num: 1, block: 99 });
    assert_eq!(run(&mut h, block(4)), vec![]);
    assert_eq!(
        run(&mut h, block(3)),
        vec![Effect::WriteBlock { id: 3, file_num: 1, job: "job", block: 99 }]
    );
    h.handle_data(3, 1, "job", Ok(()));
    let done = || Msg::FileResponse(FileResponse::Done { id: 3, file_num: 1 });
    assert_eq!(run(&mut h, done()), vec![Effect::Finalize("job")]);
    assert_eq!(run(&mut h, done()), vec![]);
    assert_eq!(
        h.try_recv_response(),
        Some(FileReply::Done { id: 3, file_num: 1 })
    );
    let task = FsTask::StartReceive { id: 5, path: "y".to_string(), file_num: 0 };
    h.complete(task, FsOutcome::Job("other"));
    let error = || Msg::FileResponse(FileResponse::Error { id: 5 });
    assert_eq!(run(&mut h, error()), vec![Effect::Discard("other")]);
    assert_eq!(run(&mut h, error()), vec![]);
    assert_eq!(run(&mut h, Msg::FileResponse(FileResponse::Digest)), vec![]);
    assert_eq!(run(&mut h, Msg::FileResponse(FileResponse::Other)), vec![]);
    assert_eq!(run(&mut h, Msg::FileAction(FileAction::Cancel { id: 5 })), vec![]);
    assert_eq!(h.try_recv_response(), None);
}

#[test]
fn change_of_resolution() {
    let displays = Some(vec![(1920, 1080), (800, 600)]);
    assert_eq!(
        handle_change_resolution(None, 1, 1, &None),
        ResolutionChange::Unavailable
    );
    assert_eq!(
        handle_change_resolution(None, 1920, 1080, &displays),
        ResolutionChange::Same
    );
    assert_eq!(
        handle_change_resolution(Some(2), 1, 1, &displays),
        ResolutionChange::NotFound(2)
    );
    assert_eq!(
        handle_change_resolution(Some(1), 1024, u64::MAX, &displays),
        ResolutionChange::Change {
            display: 1,
            original: (800, 600),
            changed: (1024, -1),
            width: 1024,
            height: u64::MAX
        }
    );
}

#[test]
fn service_begins_and_ends() {
    let (mut s, first) = run_service_loop(true, true);
    assert_eq!(
        first,
        vec![
            ServiceAction::SubscribeVideo(1),
            ServiceAction::SubscribeClipboard(1),
            ServiceAction::SubscribeCursor(1),
            ServiceAction::SubscribePosition(1),
            ServiceAction::RegisterCliprdr(1),
            ServiceAction::ConnectionOpen(1),
            ServiceAction::NetworkDelay(1, 10),
            ServiceAction::SendServiceRunning
        ]
    );
    assert_eq!(
        s.step(ServiceEvent::StreamClosed, 0),
        vec![
            ServiceAction::SendCloseReason("Remote close"),
            ServiceAction::UnsubscribeVideo(1),
            ServiceAction::RemoveCliprdr(1),
            ServiceAction::ConnectionClose(1),
            ServiceAction::RestoreResolutions
        ]
    );
    assert!(!s.running);
    assert_eq!(s.step(ServiceEvent::Message, 0), vec![]);
}

#[test]
fn reasons_for_the_end_of_a_service() {
    for (event, reason) in [
        (ServiceEvent::StreamError, "Stream error"),
        (ServiceEvent::SendFailed(Sending::Service), "Send error"),
        (ServiceEvent::SendFailed(Sending::Clip), "Send error"),
        (ServiceEvent::SendFailed(Sending::File), "File send error"),
    ] {
        let (mut s, first) = run_service_loop(false, false);
        assert_eq!(first[0], ServiceAction::SubscribeCursor(1));
        let done = s.step(event, 0);
        assert_eq!(done[0], ServiceAction::SendCloseReason(reason));
        assert_eq!(done[1], ServiceAction::RemoveCliprdr(1));
        assert!(!s.running);
    }
}

#[test]
fn messages_are_forwarded() {
    let (mut s, _) = run_service_loop(true, true);
    assert_eq!(
        s.step(ServiceEvent::Video(Some(2)), 0),
        vec![
            ServiceAction::FrameFetched { display: 2, conn_id: 1 },
            ServiceAction::Forward
        ]
    );
    assert_eq!(s.step(ServiceEvent::Video(None), 0), vec![ServiceAction::Forward]);
    assert_eq!(s.step(ServiceEvent::Message, 0), vec![ServiceAction::Forward]);
    assert_eq!(s.step(ServiceEvent::Clip(true), 0), vec![ServiceAction::Forward]);
    assert_eq!(s.step(ServiceEvent::Clip(false), 0), vec![]);
    assert_eq!(s.step(ServiceEvent::FileResponse, 0), vec![ServiceAction::Forward]);
    assert_eq!(s.step(ServiceEvent::PollTimer, 0), vec![ServiceAction::PollSendJobs]);
    assert_eq!(s.step(ServiceEvent::Heartbeat, 0), vec![]);
    assert_eq!(
        s.step(ServiceEvent::RunningTimer, 0),
        vec![ServiceAction::SendServiceRunning]
    );
    for kind in [None, Some(MessageKind::Misc)] {
        assert_eq!(
            s.step(ServiceEvent::Received(kind), 0),
            vec![ServiceAction::HandleIncoming(1)]
        );
    }
    assert!(s.running);
}

fn probe(s: &mut ServiceLoop, now: u64) -> Vec<ServiceAction> {
    s.step(ServiceEvent::DelayTimer { time: 5, bitrate: 6 }, now)
}

#[test]
fn delay_is_measured() {
    let (mut s, _) = run_service_loop(true, true);
    let answer = ServiceEvent::Received(Some(MessageKind::TestDelay));
    assert_eq!(s.step(answer, 0), vec![]);
    assert_eq!(
        probe(&mut s, 100 * MILLISECOND),
        vec![
            ServiceAction::SendTestDelay { time: 5, last_delay: 0, target_bitrate: 6 },
            ServiceAction::CheckDelay
        ]
    );
    // one at a time
    assert_eq!(probe(&mut s, 1100 * MILLISECOND), vec![ServiceAction::CheckDelay]);
    assert_eq!(
        s.step(ServiceEvent::DelayCheck, 1100 * MILLISECOND),
        vec![ServiceAction::DelayResponseElapsed(1, 1000)]
    );
    assert_eq!(
        s.step(answer, 1142 * MILLISECOND + 9),
        vec![ServiceAction::NetworkDelay(1, 1042)]
    );
    assert_eq!(s.step(ServiceEvent::DelayCheck, 0), vec![]);
    assert_eq!(
        probe(&mut s, 2100 * MILLISECOND)[0],
        ServiceAction::SendTestDelay { time: 5, last_delay: 1042, target_bitrate: 6 }
    );
    // less than a millisecond is no measurement
    assert_eq!(s.step(answer, 2100 * MILLISECOND + 1), vec![]);
    assert_eq!((s.network_delay, s.last_test_delay), (1042, None));
}

#[test]
fn probes_wait_for_answers() {
    let (mut s, _) = run_service_loop(true, true);
    let answer = ServiceEvent::Received(Some(MessageKind::TestDelay));
    let mut told = vec![];
    for second in 0..6u64 {
        if let ServiceAction::SendTestDelay { last_delay, .. } =
            probe(&mut s, second * 1000 * MILLISECOND)[0]
        {
            told.push((second, last_delay));
        }
        // every other second an answer comes, later each time
        if second % 2 == 1 {
            s.step(answer, (second * 1000 + second) * MILLISECOND);
        }
    }
    assert_eq!(told, vec![(0, 0), (2, 1001), (4, 1003)]);
}

#[test]
fn ended_service_stays_quiet() {
    let (mut s, _) = run_service_loop(true, true);
    assert!(!s.step(ServiceEvent::StreamClosed, 0).is_empty());
    for event in [
        ServiceEvent::StreamClosed,
        ServiceEvent::PollTimer,
        ServiceEvent::DelayTimer { time: 1, bitrate: 2 },
        ServiceEvent::RunningTimer,
    ] {
        assert_eq!(s.step(event, 1), vec![]);
    }
}

#[test]
fn files_are_moved_on_faster_while_there_are_jobs() {
    assert_eq!(poll_delay(true), 10);
    assert_eq!(poll_delay(false), 1000);
}

#[test]
fn loop_for_files_only() {
    for (event, action) in [
        (FileLoopEvent::Received, FileLoopAction::HandleIncoming(0)),
        (FileLoopEvent::StreamError, FileLoopAction::Stop),
        (FileLoopEvent::StreamClosed, FileLoopAction::Stop),
        (FileLoopEvent::FileResponse, FileLoopAction::Forward),
        (FileLoopEvent::SendFailed, FileLoopAction::Stop),
        (FileLoopEvent::PollTimer, FileLoopAction::PollSendJobs),
        (FileLoopEvent::KeepaliveTimer, FileLoopAction::SendServiceRunning),
    ] {
        assert_eq!(run_file_transfer_loop(event), action);
    }
}
