//! A peer that has logged in is served.

use vstd::prelude::*;

use crate::sos_file_transfer::{FileAction, FileTransferHandler, FsTask, Reply};
use crate::sos_service::{
    handle_change_resolution, handle_incoming_message, log_msg_types, poll_delay,
    run_file_transfer_loop, run_service_loop, Effect, FileActionKind, FileLoopAction,
    FileLoopEvent, FileResponse, ImageQuality, Incoming, MessageKind, MiscMessage, OptionMessage,
    ResolutionChange, Sending, ServiceAction, ServiceEvent, ServiceLoop,
};
use crate::sos_service::deeds;
use crate::wire::le_bytes;

verus! {

// ---------------------------------------------------------------- the loop
/// Whatever the peer sends, be it the mouse, a key, a clipboard, a file or a
/// wish, and even what cannot be read, is handed to the one who deals with
/// messages, and to nobody else. Only the answer to a probe is not.
pub proof fn every_message_is_handed_on(
    s: &mut ServiceLoop,
    kind: Option<MessageKind>,
    now: u64,
    done: Vec<ServiceAction>,
)
    requires
        call_ensures(ServiceLoop::step, (s, ServiceEvent::Received(kind), now), done),
        old(s).running,
        kind != Some(MessageKind::TestDelay),
    ensures
        done@ == seq![ServiceAction::HandleIncoming(1)],
        *final(s) == *old(s),
{
}

/// Pictures, messages of the services, of the file clipboard and answers that
/// concern files are sent on, each once, and the control of the quality
/// learns first which frame was taken. A display with a negative number wraps
/// around.
pub proof fn what_is_to_be_sent_is_sent(
    s: &mut ServiceLoop,
    event: ServiceEvent,
    now: u64,
    done: Vec<ServiceAction>,
)
    requires
        call_ensures(ServiceLoop::step, (s, event, now), done),
        old(s).running,
        event is Video || event is Message || event is FileResponse || event
            == ServiceEvent::Clip(true),
    ensures
        *final(s) == *old(s),
        done@.len() > 0,
        done@.last() == ServiceAction::Forward,
        event matches ServiceEvent::Video(Some(d)) ==> {
            &&& done@.len() == 2
            &&& done@[0] matches ServiceAction::FrameFetched { display, conn_id }
            &&& conn_id == 1
            &&& d >= 0 ==> display == d
            &&& d < 0 ==> display == 0x1_0000_0000_0000_0000 + d
        },
        !(event matches ServiceEvent::Video(Some(_))) ==> done@.len() == 1,
{
}

/// Where there is nothing to send, nothing is.
pub proof fn nothing_is_sent_for_nothing(
    s: &mut ServiceLoop,
    event: ServiceEvent,
    now: u64,
    done: Vec<ServiceAction>,
)
    requires
        call_ensures(ServiceLoop::step, (s, event, now), done),
        event == ServiceEvent::Clip(false) || event == ServiceEvent::Heartbeat
            || !old(s).running,
    ensures
        done@.len() == 0,
        *final(s) == *old(s),
{
}

/// Files are moved on, and the peer is told that the service is running, each
/// time that the clock says so.
pub proof fn clocks_are_heeded(
    s: &mut ServiceLoop,
    event: ServiceEvent,
    now: u64,
    done: Vec<ServiceAction>,
)
    requires
        call_ensures(ServiceLoop::step, (s, event, now), done),
        old(s).running,
    ensures
        event == ServiceEvent::PollTimer ==> done@ == seq![ServiceAction::PollSendJobs],
        event == ServiceEvent::RunningTimer ==> done@ == seq![ServiceAction::SendServiceRunning],
        event is PollTimer || event is RunningTimer ==> *final(s) == *old(s),
{
}

/// Every second a probe of the delay is sent, unless one is under way, and it
/// tells the peer the delay that was found last and the bitrate. Either way
/// the state of the probe is looked at.
pub proof fn probe_is_sent_unless_one_is_under_way(
    s: &mut ServiceLoop,
    time: i64,
    bitrate: u32,
    now: u64,
    done: Vec<ServiceAction>,
)
    requires
        call_ensures(ServiceLoop::step, (s, ServiceEvent::DelayTimer { time, bitrate }, now), done),
        old(s).running,
    ensures
        old(s).last_test_delay is Some ==> done@ == seq![ServiceAction::CheckDelay] && *final(s)
            == *old(s),
        old(s).last_test_delay is None ==> {
            &&& done@.len() == 2
            &&& done@[0] == (ServiceAction::SendTestDelay {
                time,
                last_delay: old(s).network_delay,
                target_bitrate: bitrate,
            })
            &&& done@[1] == ServiceAction::CheckDelay
            &&& final(s).last_test_delay == Some(now)
            &&& final(s).network_delay == old(s).network_delay
            &&& final(s).has_video == old(s).has_video
            &&& final(s).running
        },
{
}

/// The answer to a probe gives the milliseconds that it took, as 32 bits hold
/// them, which the control of the quality learns if there are any; after it
/// there is no probe under way.
pub proof fn answer_gives_the_delay(
    s: &mut ServiceLoop,
    sent: u64,
    now: u64,
    millis: int,
    done: Vec<ServiceAction>,
)
    requires
        call_ensures(
            ServiceLoop::step,
            (s, ServiceEvent::Received(Some(MessageKind::TestDelay)), now),
            done,
        ),
        old(s).running,
        old(s).last_test_delay == Some(sent),
        sent <= now ==> millis == (now - sent) / 1_000_000 % 0x1_0000_0000,
        now < sent ==> millis == 0,
    ensures
        final(s).last_test_delay is None,
        final(s).running,
        final(s).has_video == old(s).has_video,
        millis > 0 ==> {
            &&& final(s).network_delay == millis
            &&& done@ == seq![ServiceAction::NetworkDelay(1, final(s).network_delay)]
        },
        millis == 0 ==> {
            &&& final(s).network_delay == old(s).network_delay
            &&& done@.len() == 0
        },
{
}

/// An answer that no probe waits for means nothing, and it is not handed on.
pub proof fn answer_without_probe_is_passed_over(
    s: &mut ServiceLoop,
    now: u64,
    done: Vec<ServiceAction>,
)
    requires
        call_ensures(
            ServiceLoop::step,
            (s, ServiceEvent::Received(Some(MessageKind::TestDelay)), now),
            done,
        ),
        old(s).last_test_delay is None,
    ensures
        *final(s) == *old(s),
        done@.len() == 0,
{
}

/// While a probe is under way the control of the quality learns for how many
/// milliseconds it has been; otherwise it learns nothing.
pub proof fn waiting_for_an_answer_is_reported(
    s: &mut ServiceLoop,
    now: u64,
    done: Vec<ServiceAction>,
)
    requires
        call_ensures(ServiceLoop::step, (s, ServiceEvent::DelayCheck, now), done),
        old(s).running,
    ensures
        *final(s) == *old(s),
        old(s).last_test_delay is None ==> done@.len() == 0,
        old(s).last_test_delay matches Some(sent) ==> {
            &&& done@.len() == 1
            &&& done@[0] matches ServiceAction::DelayResponseElapsed(conn_id, millis)
            &&& conn_id == 1
            &&& sent <= now ==> millis == (now - sent) / 1_000_000
            &&& now < sent ==> millis == 0
        },
{
}

/// When the stream fails or ends, and when sending fails, the peer is told
/// why, everything is let go of, and the service is over.
pub proof fn failure_ends_the_service(
    s: &mut ServiceLoop,
    event: ServiceEvent,
    now: u64,
    done: Vec<ServiceAction>,
)
    requires
        call_ensures(ServiceLoop::step, (s, event, now), done),
        old(s).running,
        event is StreamError || event is StreamClosed || event is SendFailed,
    ensures
        !final(s).running,
        final(s).has_video == old(s).has_video,
        final(s).network_delay == old(s).network_delay,
        final(s).last_test_delay == old(s).last_test_delay,
        done@.len() == (if old(s).has_video {
            5int
        } else {
            4
        }),
        done@[0] matches ServiceAction::SendCloseReason(reason) && reason@ == (
        if event is StreamError {
            "Stream error"@
        } else if event is StreamClosed {
            "Remote close"@
        } else if event == ServiceEvent::SendFailed(Sending::File) {
            "File send error"@
        } else {
            "Send error"@
        }),
        old(s).has_video ==> done@[1] == ServiceAction::UnsubscribeVideo(1),
        done@[done@.len() - 3] == ServiceAction::RemoveCliprdr(1),
        done@[done@.len() - 2] == ServiceAction::ConnectionClose(1),
        done@[done@.len() - 1] == ServiceAction::RestoreResolutions,
{
}

/// A service goes on with whatever is not a failure.
pub proof fn service_goes_on(
    s: &mut ServiceLoop,
    event: ServiceEvent,
    now: u64,
    done: Vec<ServiceAction>,
)
    requires
        call_ensures(ServiceLoop::step, (s, event, now), done),
        old(s).running,
        !(event is StreamError || event is StreamClosed || event is SendFailed),
    ensures
        final(s).running,
        final(s).has_video == old(s).has_video,
{
}

/// A service begins with all that the peer is to get: pictures and clipboard
/// where there are sources of them, the cursor and its position, the file
/// clipboard; and the peer is told that it is running.
pub proof fn service_begins_with_everything(
    has_video: bool,
    has_clipboard: bool,
    r: (ServiceLoop, Vec<ServiceAction>),
)
    requires
        call_ensures(run_service_loop, (has_video, has_clipboard), r),
    ensures
        r.0.running,
        r.0.has_video == has_video,
        r.0.last_test_delay is None,
        r.0.network_delay == 0,
        ({
            let video: int = if has_video {
                1
            } else {
                0
            };
            let n: int = video + (if has_clipboard {
                1int
            } else {
                0
            });
            &&& r.1@.len() == n + 6
            &&& has_video ==> r.1@[0] == ServiceAction::SubscribeVideo(1)
            &&& has_clipboard ==> r.1@[video] == ServiceAction::SubscribeClipboard(1)
            &&& r.1@[n] == ServiceAction::SubscribeCursor(1)
            &&& r.1@[n + 1] == ServiceAction::SubscribePosition(1)
            &&& r.1@[n + 2] == ServiceAction::RegisterCliprdr(1)
            &&& r.1@[n + 3] == ServiceAction::ConnectionOpen(1)
            &&& r.1@[n + 4] == ServiceAction::NetworkDelay(1, 10)
            &&& r.1@[n + 5] == ServiceAction::SendServiceRunning
        }),
{
}

/// Jobs that send files are moved on a hundred times a second, and otherwise
/// once a second is enough.
pub proof fn jobs_are_not_kept_waiting(has_send_jobs: bool, r: u64)
    requires
        call_ensures(poll_delay, (has_send_jobs,), r),
    ensures
        has_send_jobs ==> r == 10,
        !has_send_jobs ==> r == 1000,
{
}

/// A peer that only transfers files has its messages handled, gets its
/// answers, has its files moved on, is told that the service is running, and
/// is left only when the stream or sending fails.
pub proof fn file_peer_is_served(event: FileLoopEvent, r: FileLoopAction)
    requires
        call_ensures(run_file_transfer_loop, (event,), r),
    ensures
        r == FileLoopAction::Stop <==> event is StreamError || event is StreamClosed
            || event is SendFailed,
        r == FileLoopAction::HandleIncoming(0) <==> event is Received,
        r == FileLoopAction::Forward <==> event is FileResponse,
        r == FileLoopAction::PollSendJobs <==> event is PollTimer,
        r == FileLoopAction::SendServiceRunning <==> event is KeepaliveTimer,
{
}

// ---------------------------------------------------------------- messages
/// Effects and what they stand for go together, one by one.
proof fn lemma_deeds<C, F, D, B, J>(effects: Seq<Effect<C, F, D, B, J>>)
    ensures
        deeds(effects).len() == effects.len(),
        forall|i: int|
            0 <= i < effects.len() ==> #[trigger] deeds(effects)[i] == effects[i]@,
        forall|i: int|
            0 <= i < effects.len() ==> deeds(effects)[i] == (#[trigger] effects[i])@,
{
}

/// What the peer does with the mouse goes to the process that injects input,
/// behind the number 1 in four bytes, and nothing else is done.
pub proof fn mouse_goes_to_the_input_process<C, F, D, B, J, E>(
    data: &[u8],
    event: Vec<u8>,
    files: &mut FileTransferHandler<J, E, B>,
    conn_id: i32,
    r: Vec<Effect<C, F, D, B, J>>,
)
    requires
        call_ensures(
            handle_incoming_message::<C, F, D, B, J, E>,
            (data, Some(Incoming::Mouse(event)), files, conn_id),
            r,
        ),
        data@.len() > 0,
    ensures
        r@.len() == 1,
        r@[0] matches Effect::SendInput(message) && message@ == seq![1u8, 0, 0, 0] + event@,
        final(files)@ == old(files)@,
{
    lemma_deeds(r@);
    reveal_with_fuel(le_bytes, 5);
    assert(le_bytes(1, 4) =~= seq![1u8, 0, 0, 0]);
}

/// What the peer types goes to the process that injects input, behind the
/// number 2 in four bytes, and nothing else is done.
pub proof fn keys_go_to_the_input_process<C, F, D, B, J, E>(
    data: &[u8],
    event: Vec<u8>,
    files: &mut FileTransferHandler<J, E, B>,
    conn_id: i32,
    r: Vec<Effect<C, F, D, B, J>>,
)
    requires
        call_ensures(
            handle_incoming_message::<C, F, D, B, J, E>,
            (data, Some(Incoming::Key(event)), files, conn_id),
            r,
        ),
        data@.len() > 0,
    ensures
        r@.len() == 1,
        r@[0] matches Effect::SendInput(message) && message@ == seq![2u8, 0, 0, 0] + event@,
        final(files)@ == old(files)@,
{
    lemma_deeds(r@);
    reveal_with_fuel(le_bytes, 5);
    assert(le_bytes(2, 4) =~= seq![2u8, 0, 0, 0]);
}

/// What the peer copies becomes the content of the clipboard, all of it and
/// in its order.
pub proof fn clipboard_is_taken_over<C, F, D, B, J, E>(
    data: &[u8],
    msg: Incoming<C, F, D, B>,
    files: &mut FileTransferHandler<J, E, B>,
    conn_id: i32,
    r: Vec<Effect<C, F, D, B, J>>,
)
    requires
        call_ensures(
            handle_incoming_message::<C, F, D, B, J, E>,
            (data, Some(msg), files, conn_id),
            r,
        ),
        data@.len() > 0,
        msg is Clipboard || msg is MultiClipboards,
    ensures
        r@.len() == 1,
        r@[0] matches Effect::UpdateClipboard(contents) && {
            &&& msg matches Incoming::Clipboard(content) ==> contents@ == seq![content]
            &&& msg matches Incoming::MultiClipboards(all) ==> contents@ == all@
        },
        final(files)@ == old(files)@,
{
    lemma_deeds(r@);
}

/// A message of the file clipboard goes there, under the number of its
/// connection; one that cannot be understood does nothing.
pub proof fn file_clipboard_gets_its_messages<C, F, D, B, J, E>(
    data: &[u8],
    clip: Option<F>,
    files: &mut FileTransferHandler<J, E, B>,
    conn_id: i32,
    r: Vec<Effect<C, F, D, B, J>>,
)
    requires
        call_ensures(
            handle_incoming_message::<C, F, D, B, J, E>,
            (data, Some(Incoming::Cliprdr(clip)), files, conn_id),
            r,
        ),
        data@.len() > 0,
    ensures
        clip is None ==> r@.len() == 0,
        clip matches Some(f) ==> r@.len() == 1 && r@[0] == Effect::<C, F, D, B, J>::ClipFile(
            conn_id,
            f,
        ),
        final(files)@ == old(files)@,
{
    lemma_deeds(r@);
}

/// A peer that has its frame counts as having taken it.
pub proof fn received_frame_is_noted<C, F, D, B, J, E>(
    data: &[u8],
    files: &mut FileTransferHandler<J, E, B>,
    conn_id: i32,
    r: Vec<Effect<C, F, D, B, J>>,
)
    requires
        call_ensures(
            handle_incoming_message::<C, F, D, B, J, E>,
            (data, Some(Incoming::Misc(MiscMessage::VideoReceived)), files, conn_id),
            r,
        ),
        data@.len() > 0,
    ensures
        r@.len() == 1,
        r@[0] == Effect::<C, F, D, B, J>::FrameFetched(conn_id),
        final(files)@ == old(files)@,
{
    lemma_deeds(r@);
}

/// The wishes of a peer are granted, each that it has and no other: the frames
/// a second that it names, the quality, which is never under that of number
/// four, and what it can decode, in this order.
pub proof fn wishes_are_granted<C, F, D, B, J, E>(
    data: &[u8],
    opt: OptionMessage<D>,
    files: &mut FileTransferHandler<J, E, B>,
    conn_id: i32,
    r: Vec<Effect<C, F, D, B, J>>,
)
    requires
        call_ensures(
            handle_incoming_message::<C, F, D, B, J, E>,
            (data, Some(Incoming::Misc(MiscMessage::Options(opt))), files, conn_id),
            r,
        ),
        data@.len() > 0,
    ensures
        final(files)@ == old(files)@,
        ({
            let fps = opt.custom_fps > 0;
            let named = opt.image_quality is Some && opt.image_quality != Some(
                ImageQuality::NotSet,
            );
            let custom = opt.image_quality == Some(ImageQuality::NotSet)
                && opt.custom_image_quality > 0;
            let at_quality: int = if fps {
                1
            } else {
                0
            };
            let at_decoding: int = at_quality + (if named || custom {
                1int
            } else {
                0
            });
            &&& r@.len() == at_decoding + (if opt.supported_decoding is Some {
                1int
            } else {
                0
            })
            &&& fps ==> r@[0] == Effect::<C, F, D, B, J>::CustomFps(
                conn_id,
                opt.custom_fps as u32,
            )
            &&& named ==> r@[at_quality] == Effect::<C, F, D, B, J>::SetImageQuality(conn_id, 4)
            &&& custom ==> {
                &&& r@[at_quality] matches Effect::SetImageQuality(c, q)
                &&& c == conn_id
                &&& q >= 4
                &&& q >= opt.custom_image_quality
                &&& q == 4 || q == opt.custom_image_quality
            }
            &&& opt.supported_decoding matches Some(d) ==> r@[at_decoding] == Effect::<
                C,
                F,
                D,
                B,
                J,
            >::SupportedDecoding(conn_id, d)
        }),
{
    lemma_deeds(r@);
}

/// A wish for another resolution is passed on, with the display that it names
/// or with none, and with width and height in their places. A negative
/// number wraps around.
pub proof fn resolution_is_passed_on<C, F, D, B, J, E>(
    data: &[u8],
    misc: MiscMessage<D>,
    files: &mut FileTransferHandler<J, E, B>,
    conn_id: i32,
    r: Vec<Effect<C, F, D, B, J>>,
)
    requires
        call_ensures(
            handle_incoming_message::<C, F, D, B, J, E>,
            (data, Some(Incoming::Misc(misc)), files, conn_id),
            r,
        ),
        data@.len() > 0,
        misc is ChangeResolution || misc is ChangeDisplayResolution,
    ensures
        final(files)@ == old(files)@,
        r@.len() == 1,
        r@[0] matches Effect::ChangeResolution { display, width, height } && {
            &&& misc matches MiscMessage::ChangeResolution { width: w, height: h } ==> {
                &&& display is None
                &&& (width - w) % 0x1_0000_0000_0000_0000 == 0
                &&& (height - h) % 0x1_0000_0000_0000_0000 == 0
            }
            &&& misc matches MiscMessage::ChangeDisplayResolution {
                display: d,
                width: w,
                height: h,
            } ==> {
                &&& display matches Some(n) && (n - d) % 0x1_0000_0000_0000_0000 == 0
                &&& (width - w) % 0x1_0000_0000_0000_0000 == 0
                &&& (height - h) % 0x1_0000_0000_0000_0000 == 0
            }
        },
{
    lemma_deeds(r@);
}

/// A request that concerns files is run as the file transfers understand it,
/// and changes there what it changes by itself.
pub proof fn file_request_is_run<C, F, D, B, J, E>(
    data: &[u8],
    action: FileAction,
    files: &mut FileTransferHandler<J, E, B>,
    conn_id: i32,
    r: Vec<Effect<C, F, D, B, J>>,
    same: &mut FileTransferHandler<J, E, B>,
    task: FsTask,
)
    requires
        call_ensures(
            handle_incoming_message::<C, F, D, B, J, E>,
            (data, Some(Incoming::FileAction(action)), files, conn_id),
            r,
        ),
        data@.len() > 0,
        call_ensures(FileTransferHandler::<J, E, B>::handle_action, (same, &action), task),
        old(same)@ == old(files)@,
    ensures
        final(files)@ == final(same)@,
        task is Nothing ==> r@.len() == 0,
        !(task is Nothing) ==> {
            &&& r@.len() == 1
            &&& r@[0] matches Effect::RunFsTask(t)
            &&& t@ == task@
        },
        task is Nothing <==> action is Cancel || action is SendConfirm || action is Other,
{
    lemma_deeds(r@);
}

/// What the peer says of a file that it sends goes to the job that receives
/// it: a block is written, and the job is lent out for that; the end gives
/// the file its name and is confirmed under the same numbers; a failure
/// throws away what has come. Without such a job nothing is done. Other jobs
/// and waiting answers stay.
pub proof fn sent_file_is_received<C, F, D, B, J, E>(
    data: &[u8],
    response: FileResponse<B>,
    files: &mut FileTransferHandler<J, E, B>,
    conn_id: i32,
    r: Vec<Effect<C, F, D, B, J>>,
    other: i32,
)
    requires
        call_ensures(
            handle_incoming_message::<C, F, D, B, J, E>,
            (data, Some(Incoming::FileResponse(response)), files, conn_id),
            r,
        ),
        data@.len() > 0,
    ensures
        final(files)@.send == old(files)@.send,
        ({
            let (before, after) = (old(files)@, final(files)@);
            match response {
                FileResponse::Block { id, file_num, block } => {
                    &&& !after.recv.contains_key(id)
                    &&& after.queue == before.queue
                    &&& other != id ==> after.recv.contains_key(other)
                        == before.recv.contains_key(other) && after.recv[other]
                        == before.recv[other]
                    &&& !before.recv.contains_key(id) ==> r@.len() == 0
                    &&& before.recv.contains_key(id) ==> r@.len() == 1 && r@[0] == (Effect::<
                        C,
                        F,
                        D,
                        B,
                        J,
                    >::WriteBlock { id, file_num, job: before.recv[id], block })
                },
                FileResponse::Done { id, file_num } => {
                    &&& !after.recv.contains_key(id)
                    &&& other != id ==> after.recv.contains_key(other)
                        == before.recv.contains_key(other) && after.recv[other]
                        == before.recv[other]
                    &&& !before.recv.contains_key(id) ==> r@.len() == 0 && after.queue
                        == before.queue
                    &&& before.recv.contains_key(id) ==> {
                        &&& r@.len() == 1
                        &&& r@[0] == Effect::<C, F, D, B, J>::Finalize(before.recv[id])
                        &&& after.queue == before.queue.push(Reply::Done { id, file_num })
                    }
                },
                FileResponse::Error { id } => {
                    &&& !after.recv.contains_key(id)
                    &&& after.queue == before.queue
                    &&& other != id ==> after.recv.contains_key(other)
                        == before.recv.contains_key(other) && after.recv[other]
                        == before.recv[other]
                    &&& !before.recv.contains_key(id) ==> r@.len() == 0
                    &&& before.recv.contains_key(id) ==> r@.len() == 1 && r@[0] == Effect::<
                        C,
                        F,
                        D,
                        B,
                        J,
                    >::Discard(before.recv[id])
                },
                _ => r@.len() == 0 && after == before,
            }
        }),
{
    lemma_deeds(r@);
}

/// A message that is empty or cannot be read, and one that asks for nothing
/// that is served, does nothing.
pub proof fn other_messages_do_nothing<C, F, D, B, J, E>(
    data: &[u8],
    parsed: Option<Incoming<C, F, D, B>>,
    files: &mut FileTransferHandler<J, E, B>,
    conn_id: i32,
    r: Vec<Effect<C, F, D, B, J>>,
)
    requires
        call_ensures(
            handle_incoming_message::<C, F, D, B, J, E>,
            (data, parsed, files, conn_id),
            r,
        ),
        data@.len() == 0 || parsed is None || parsed == Some(Incoming::<C, F, D, B>::Other)
            || parsed == Some(Incoming::<C, F, D, B>::Misc(MiscMessage::Other)) || (
        parsed matches Some(Incoming::Misc(MiscMessage::SwitchDisplay(_)))),
    ensures
        r@.len() == 0,
        final(files)@ == old(files)@,
{
    lemma_deeds(r@);
}

/// A message is logged under the name that its kind has in the protocol, and
/// an empty one is not logged.
pub proof fn messages_are_logged_by_name(kind: Option<MessageKind>, r: Option<&'static str>)
    requires
        call_ensures(log_msg_types, (kind,), r),
    ensures
        r is Some <==> kind is Some,
        kind == Some(MessageKind::LoginRequest) ==> r->0@ == "LoginRequest"@,
        kind == Some(MessageKind::LoginResponse) ==> r->0@ == "LoginResponse"@,
        kind == Some(MessageKind::Hash) ==> r->0@ == "Hash"@,
        kind == Some(MessageKind::PeerInfo) ==> r->0@ == "PeerInfo"@,
        kind == Some(MessageKind::MouseEvent) ==> r->0@ == "MouseEvent"@,
        kind == Some(MessageKind::KeyEvent) ==> r->0@ == "KeyEvent"@,
        kind == Some(MessageKind::Clipboard) ==> r->0@ == "Clipboard"@,
        kind == Some(MessageKind::VideoFrame) ==> r->0@ == "VideoFrame"@,
        kind == Some(MessageKind::Misc) ==> r->0@ == "Misc"@,
        kind == Some(MessageKind::FileAction(None)) ==> r->0@ == "FileAction"@,
        kind == Some(MessageKind::FileAction(Some(FileActionKind::ReadDir))) ==> r->0@
            == "FileAction::ReadDir"@,
        kind == Some(MessageKind::FileAction(Some(FileActionKind::ReadEmptyDirs))) ==> r->0@
            == "FileAction::ReadEmptyDirs"@,
        kind == Some(MessageKind::FileAction(Some(FileActionKind::Send))) ==> r->0@
            == "FileAction::Send"@,
        kind == Some(MessageKind::FileAction(Some(FileActionKind::Receive))) ==> r->0@
            == "FileAction::Receive"@,
        kind == Some(MessageKind::FileAction(Some(FileActionKind::Cancel))) ==> r->0@
            == "FileAction::Cancel"@,
        kind == Some(MessageKind::FileAction(Some(FileActionKind::RemoveDir))) ==> r->0@
            == "FileAction::RemoveDir"@,
        kind == Some(MessageKind::FileAction(Some(FileActionKind::RemoveFile))) ==> r->0@
            == "FileAction::RemoveFile"@,
        kind == Some(MessageKind::FileAction(Some(FileActionKind::Create))) ==> r->0@
            == "FileAction::Create"@,
        kind == Some(MessageKind::FileAction(Some(FileActionKind::Rename))) ==> r->0@
            == "FileAction::Rename"@,
        kind == Some(MessageKind::FileAction(Some(FileActionKind::AllFiles))) ==> r->0@
            == "FileAction::AllFiles"@,
        kind == Some(MessageKind::FileAction(Some(FileActionKind::SendConfirm))) ==> r->0@
            == "FileAction::SendConfirm"@,
        kind == Some(MessageKind::FileAction(Some(FileActionKind::Other))) ==> r->0@
            == "FileAction::Other"@,
        kind == Some(MessageKind::FileResponse) ==> r->0@ == "FileResponse"@,
        kind == Some(MessageKind::Cliprdr) ==> r->0@ == "Cliprdr"@,
        kind == Some(MessageKind::MultiClipboards) ==> r->0@ == "MultiClipboards"@,
        kind == Some(MessageKind::PublicKey) ==> r->0@ == "PublicKey"@,
        kind == Some(MessageKind::SignedId) ==> r->0@ == "SignedId"@,
        kind == Some(MessageKind::TestDelay) ==> r->0@ == "TestDelay"@,
        kind == Some(MessageKind::MessageBox) ==> r->0@ == "MessageBox"@,
        kind == Some(MessageKind::Auth2fa) ==> r->0@ == "Auth2fa"@,
        kind == Some(MessageKind::CursorData) ==> r->0@ == "CursorData"@,
        kind == Some(MessageKind::CursorPosition) ==> r->0@ == "CursorPosition"@,
        kind == Some(MessageKind::CursorId) ==> r->0@ == "CursorId"@,
        kind == Some(MessageKind::VoiceCallRequest) ==> r->0@ == "VoiceCallRequest"@,
        kind == Some(MessageKind::VoiceCallResponse) ==> r->0@ == "VoiceCallResponse"@,
        kind == Some(MessageKind::SwitchSidesResponse) ==> r->0@ == "SwitchSidesResponse"@,
        kind == Some(MessageKind::PointerDeviceEvent) ==> r->0@ == "PointerDeviceEvent"@,
        kind == Some(MessageKind::ScreenshotRequest) ==> r->0@ == "ScreenshotRequest"@,
        kind == Some(MessageKind::ScreenshotResponse) ==> r->0@ == "ScreenshotResponse"@,
        kind == Some(MessageKind::TerminalAction) ==> r->0@ == "TerminalAction"@,
        kind == Some(MessageKind::TerminalResponse) ==> r->0@ == "TerminalResponse"@,
        kind == Some(MessageKind::Other) ==> r->0@ == "Unknown/Other"@,
{
}

// ---------------------------------------------------------------- resolution
/// The number that the low 32 bits of another one stand for, with a sign.
pub open spec fn in_32_bits(v: u64) -> int {
    let low = v % 0x1_0000_0000;
    if low < 0x8000_0000 {
        low as int
    } else {
        low - 0x1_0000_0000
    }
}

/// A number that is cut to 32 bits is what its low bits stand for.
pub proof fn lemma_in_32_bits(v: u64)
    ensures
        v as i32 == in_32_bits(v),
{
    let low: u64 = v % 0x1_0000_0000;
    assert(low < 0x8000_0000 ==> v as i32 == low) by (bit_vector)
        requires
            low == v % 0x1_0000_0000,
    ;
    assert(low >= 0x8000_0000 ==> v as i32 == low - 0x1_0000_0000) by (bit_vector)
        requires
            low == v % 0x1_0000_0000,
    ;
}

/// A display is set to the size that was asked for, and the change is noted
/// with the size that it had, as 32 bits hold them. One that has the size already is left alone,
/// and so is one that does not exist. The first display is meant where none
/// is named.
pub proof fn display_gets_the_size_asked_for(
    display_idx: Option<u64>,
    width: u64,
    height: u64,
    displays: &Option<Vec<(u64, u64)>>,
    r: ResolutionChange,
)
    requires
        call_ensures(handle_change_resolution, (display_idx, width, height, displays), r),
    ensures
        *displays is None ==> r == ResolutionChange::Unavailable,
        *displays matches Some(sizes) ==> {
            let idx: int = match display_idx {
                Some(i) => i as int,
                None => 0,
            };
            &&& idx >= sizes@.len() ==> r == ResolutionChange::NotFound(idx as u64)
            &&& idx < sizes@.len() && sizes@[idx].0 == width && sizes@[idx].1 == height ==> r
                == ResolutionChange::Same
            &&& idx < sizes@.len() && (sizes@[idx].0 != width || sizes@[idx].1 != height) ==> {
                &&& r matches ResolutionChange::Change {
                    display,
                    original,
                    changed,
                    width: w,
                    height: h,
                }
                &&& display == idx
                &&& w == width
                &&& h == height
                &&& changed.0 == in_32_bits(width)
                &&& changed.1 == in_32_bits(height)
                &&& original.0 == in_32_bits(sizes@[idx].0)
                &&& original.1 == in_32_bits(sizes@[idx].1)
            }
        },
{
    if *displays is Some {
        let idx: int = match display_idx {
            Some(i) => i as int,
            None => 0,
        };
        let sizes = (*displays)->0;
        assert(sizes.len() == sizes@.len());
        assert(sizes@[idx] == (sizes@[idx].0, sizes@[idx].1));
        lemma_in_32_bits(width);
        lemma_in_32_bits(height);
        lemma_in_32_bits(sizes@[idx].0);
        lemma_in_32_bits(sizes@[idx].1);
    }
}

} // verus!
