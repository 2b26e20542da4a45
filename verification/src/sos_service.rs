//! Serving a peer: what its messages ask for, and the loops that serve it.
//!
//! The functions here decide; the caller exchanges the messages and drives
//! the services of the desktop.

use vstd::prelude::*;

use crate::sos_constants::{MSG_KEY, MSG_MOUSE};
use crate::sos_file_transfer::{task_of, Reply, Task, Transfers};
use crate::sos_file_transfer::{FileAction, FileTransferHandler, FsTask};
use crate::sos_input::{elapsed, encode_input};
use crate::sos_input::{decode_input, input_message, input_of, input_round_trip, Input};
use crate::sos_pipe::MAX_MESSAGE;
use crate::sos_pipe::{
    flatten, packet_of, pipe_round_trip, progress_after, read_step, Progress, ReadOutcome,
};
use crate::wire::lemma_le_bytes_len;

verus! {

// ---------------------------------------------------------------- messages
/// The kinds of requests that concern files.
#[derive(Debug, Clone, Copy, PartialEq, Eq, Structural)]
pub enum FileActionKind {
    ReadDir,
    ReadEmptyDirs,
    Send,
    Receive,
    Cancel,
    RemoveDir,
    RemoveFile,
    Create,
    Rename,
    AllFiles,
    SendConfirm,
    Other,
}

/// The kinds of messages.
#[derive(Debug, Clone, Copy, PartialEq, Eq, Structural)]
pub enum MessageKind {
    LoginRequest,
    LoginResponse,
    Hash,
    PeerInfo,
    MouseEvent,
    KeyEvent,
    Clipboard,
    VideoFrame,
    Misc,
    /// A request that concerns files, and its kind if it has one.
    FileAction(Option<FileActionKind>),
    FileResponse,
    Cliprdr,
    MultiClipboards,
    PublicKey,
    SignedId,
    TestDelay,
    MessageBox,
    Auth2fa,
    CursorData,
    CursorPosition,
    CursorId,
    VoiceCallRequest,
    VoiceCallResponse,
    SwitchSidesResponse,
    PointerDeviceEvent,
    ScreenshotRequest,
    ScreenshotResponse,
    TerminalAction,
    TerminalResponse,
    Other,
}

/// The name of a kind of message.
pub open spec fn kind_name(kind: MessageKind) -> Seq<char> {
    match kind {
        MessageKind::LoginRequest => "LoginRequest"@,
        MessageKind::LoginResponse => "LoginResponse"@,
        MessageKind::Hash => "Hash"@,
        MessageKind::PeerInfo => "PeerInfo"@,
        MessageKind::MouseEvent => "MouseEvent"@,
        MessageKind::KeyEvent => "KeyEvent"@,
        MessageKind::Clipboard => "Clipboard"@,
        MessageKind::VideoFrame => "VideoFrame"@,
        MessageKind::Misc => "Misc"@,
        MessageKind::FileAction(sub) => match sub {
            None => "FileAction"@,
            Some(FileActionKind::ReadDir) => "FileAction::ReadDir"@,
            Some(FileActionKind::ReadEmptyDirs) => "FileAction::ReadEmptyDirs"@,
            Some(FileActionKind::Send) => "FileAction::Send"@,
            Some(FileActionKind::Receive) => "FileAction::Receive"@,
            Some(FileActionKind::Cancel) => "FileAction::Cancel"@,
            Some(FileActionKind::RemoveDir) => "FileAction::RemoveDir"@,
            Some(FileActionKind::RemoveFile) => "FileAction::RemoveFile"@,
            Some(FileActionKind::Create) => "FileAction::Create"@,
            Some(FileActionKind::Rename) => "FileAction::Rename"@,
            Some(FileActionKind::AllFiles) => "FileAction::AllFiles"@,
            Some(FileActionKind::SendConfirm) => "FileAction::SendConfirm"@,
            Some(FileActionKind::Other) => "FileAction::Other"@,
        },
        MessageKind::FileResponse => "FileResponse"@,
        MessageKind::Cliprdr => "Cliprdr"@,
        MessageKind::MultiClipboards => "MultiClipboards"@,
        MessageKind::PublicKey => "PublicKey"@,
        MessageKind::SignedId => "SignedId"@,
        MessageKind::TestDelay => "TestDelay"@,
        MessageKind::MessageBox => "MessageBox"@,
        MessageKind::Auth2fa => "Auth2fa"@,
        MessageKind::CursorData => "CursorData"@,
        MessageKind::CursorPosition => "CursorPosition"@,
        MessageKind::CursorId => "CursorId"@,
        MessageKind::VoiceCallRequest => "VoiceCallRequest"@,
        MessageKind::VoiceCallResponse => "VoiceCallResponse"@,
        MessageKind::SwitchSidesResponse => "SwitchSidesResponse"@,
        MessageKind::PointerDeviceEvent => "PointerDeviceEvent"@,
        MessageKind::ScreenshotRequest => "ScreenshotRequest"@,
        MessageKind::ScreenshotResponse => "ScreenshotResponse"@,
        MessageKind::TerminalAction => "TerminalAction"@,
        MessageKind::TerminalResponse => "TerminalResponse"@,
        MessageKind::Other => "Unknown/Other"@,
    }
}

/// The name under which a message is logged; an empty message is not.
pub fn log_msg_types(kind: Option<MessageKind>) -> (r: Option<&'static str>)
    ensures
        match kind {
            None => r is None,
            Some(k) => r matches Some(name) && name@ == kind_name(k),
        },
{
    match kind {
        None => None,
        Some(k) => Some(
            match k {
                MessageKind::LoginRequest => "LoginRequest",
                MessageKind::LoginResponse => "LoginResponse",
                MessageKind::Hash => "Hash",
                MessageKind::PeerInfo => "PeerInfo",
                MessageKind::MouseEvent => "MouseEvent",
                MessageKind::KeyEvent => "KeyEvent",
                MessageKind::Clipboard => "Clipboard",
                MessageKind::VideoFrame => "VideoFrame",
                MessageKind::Misc => "Misc",
                MessageKind::FileAction(sub) => match sub {
                    None => "FileAction",
                    Some(FileActionKind::ReadDir) => "FileAction::ReadDir",
                    Some(FileActionKind::ReadEmptyDirs) => "FileAction::ReadEmptyDirs",
                    Some(FileActionKind::Send) => "FileAction::Send",
                    Some(FileActionKind::Receive) => "FileAction::Receive",
                    Some(FileActionKind::Cancel) => "FileAction::Cancel",
                    Some(FileActionKind::RemoveDir) => "FileAction::RemoveDir",
                    Some(FileActionKind::RemoveFile) => "FileAction::RemoveFile",
                    Some(FileActionKind::Create) => "FileAction::Create",
                    Some(FileActionKind::Rename) => "FileAction::Rename",
                    Some(FileActionKind::AllFiles) => "FileAction::AllFiles",
                    Some(FileActionKind::SendConfirm) => "FileAction::SendConfirm",
                    Some(FileActionKind::Other) => "FileAction::Other",
                },
                MessageKind::FileResponse => "FileResponse",
                MessageKind::Cliprdr => "Cliprdr",
                MessageKind::MultiClipboards => "MultiClipboards",
                MessageKind::PublicKey => "PublicKey",
                MessageKind::SignedId => "SignedId",
                MessageKind::TestDelay => "TestDelay",
                MessageKind::MessageBox => "MessageBox",
                MessageKind::Auth2fa => "Auth2fa",
                MessageKind::CursorData => "CursorData",
                MessageKind::CursorPosition => "CursorPosition",
                MessageKind::CursorId => "CursorId",
                MessageKind::VoiceCallRequest => "VoiceCallRequest",
                MessageKind::VoiceCallResponse => "VoiceCallResponse",
                MessageKind::SwitchSidesResponse => "SwitchSidesResponse",
                MessageKind::PointerDeviceEvent => "PointerDeviceEvent",
                MessageKind::ScreenshotRequest => "ScreenshotRequest",
                MessageKind::ScreenshotResponse => "ScreenshotResponse",
                MessageKind::TerminalAction => "TerminalAction",
                MessageKind::TerminalResponse => "TerminalResponse",
                MessageKind::Other => "Unknown/Other",
            },
        ),
    }
}

/// The picture qualities that a peer can ask for by name.
#[derive(Debug, Clone, Copy, PartialEq, Eq, Structural)]
pub enum ImageQuality {
    NotSet,
    Low,
    Balanced,
    Best,
}

/// The number of the best quality.
pub const BEST_QUALITY: i32 = 4;

/// The wishes of a peer. `D` is what it can decode.
#[derive(Debug, PartialEq, Eq)]
pub struct OptionMessage<D> {
    pub custom_fps: i32,
    /// The quality by name, if the name is known.
    pub image_quality: Option<ImageQuality>,
    pub custom_image_quality: i32,
    pub supported_decoding: Option<D>,
}

/// Messages of little weight.
#[derive(Debug, PartialEq, Eq)]
pub enum MiscMessage<D> {
    /// The peer has a frame.
    VideoReceived,
    Options(OptionMessage<D>),
    /// The peer would like to see another display.
    SwitchDisplay(i32),
    ChangeResolution { width: i32, height: i32 },
    ChangeDisplayResolution { display: i32, width: i32, height: i32 },
    Other,
}

/// What a peer says of a file that it sends.
#[derive(Debug, PartialEq, Eq)]
pub enum FileResponse<B> {
    Block { id: i32, file_num: i32, block: B },
    Done { id: i32, file_num: i32 },
    Error { id: i32 },
    Digest,
    Other,
}

/// A message of the peer. `C` is a clipboard content, `F` a message of the
/// file clipboard, `D` what a peer can decode, `B` a block of a file.
#[derive(Debug, PartialEq, Eq)]
pub enum Incoming<C, F, D, B> {
    /// A mouse event, serialized.
    Mouse(Vec<u8>),
    /// A key event, serialized.
    Key(Vec<u8>),
    Clipboard(C),
    MultiClipboards(Vec<C>),
    /// A message of the file clipboard, if it can be understood.
    Cliprdr(Option<F>),
    Misc(MiscMessage<D>),
    FileAction(FileAction),
    FileResponse(FileResponse<B>),
    Other,
}

/// What a message asks for. `J` is a job that receives files.
#[derive(Debug, PartialEq, Eq)]
pub enum Effect<C, F, D, B, J> {
    /// Send this to the process that injects input.
    SendInput(Vec<u8>),
    /// Set the clipboard.
    UpdateClipboard(Vec<C>),
    /// Hand a message of a connection to the file clipboard.
    ClipFile(i32, F),
    /// A connection has taken its frame.
    FrameFetched(i32),
    /// A connection wants this many frames a second.
    CustomFps(i32, u32),
    /// A connection wants this quality.
    SetImageQuality(i32, i32),
    /// A connection can decode this.
    SupportedDecoding(i32, D),
    ChangeResolution { display: Option<u64>, width: u64, height: u64 },
    /// Ask this of the file system.
    RunFsTask(FsTask),
    /// Write a block for a job, and give the job back.
    WriteBlock { id: i32, file_num: i32, job: J, block: B },
    /// Give what the job has received its final name.
    Finalize(J),
    /// Remove what the job has received.
    Discard(J),
}

/// What a message asks for, in the model.
pub ghost enum Deed<C, F, D, B, J> {
    SendInput(Seq<u8>),
    UpdateClipboard(Seq<C>),
    ClipFile(i32, F),
    FrameFetched(i32),
    CustomFps(i32, u32),
    SetImageQuality(i32, i32),
    SupportedDecoding(i32, D),
    ChangeResolution { display: Option<u64>, width: u64, height: u64 },
    RunFsTask(Task),
    WriteBlock { id: i32, file_num: i32, job: J, block: B },
    Finalize(J),
    Discard(J),
}

impl<C, F, D, B, J> View for Effect<C, F, D, B, J> {
    type V = Deed<C, F, D, B, J>;

    open spec fn view(&self) -> Deed<C, F, D, B, J> {
        match *self {
            Effect::SendInput(data) => Deed::SendInput(data@),
            Effect::UpdateClipboard(contents) => Deed::UpdateClipboard(contents@),
            Effect::ClipFile(conn_id, clip) => Deed::ClipFile(conn_id, clip),
            Effect::FrameFetched(conn_id) => Deed::FrameFetched(conn_id),
            Effect::CustomFps(conn_id, fps) => Deed::CustomFps(conn_id, fps),
            Effect::SetImageQuality(conn_id, q) => Deed::SetImageQuality(conn_id, q),
            Effect::SupportedDecoding(conn_id, d) => Deed::SupportedDecoding(conn_id, d),
            Effect::ChangeResolution { display, width, height } => Deed::ChangeResolution {
                display,
                width,
                height,
            },
            Effect::RunFsTask(task) => Deed::RunFsTask(task@),
            Effect::WriteBlock { id, file_num, job, block } => Deed::WriteBlock {
                id,
                file_num,
                job,
                block,
            },
            Effect::Finalize(job) => Deed::Finalize(job),
            Effect::Discard(job) => Deed::Discard(job),
        }
    }
}

/// A number of the protocol as an unsigned one: a negative one wraps around.
pub open spec fn widened(v: i32) -> u64 {
    if v >= 0 {
        v as u64
    } else {
        (0x1_0000_0000_0000_0000 + v) as u64
    }
}

/// A number of the protocol as an unsigned one.
fn widen(v: i32) -> (r: u64)
    ensures
        r == widened(v),
{
    if v >= 0 {
        v as u64
    } else {
        0xFFFF_FFFF_FFFF_FFFF - ((-1 - v as i64) as u64)
    }
}

/// The quality that a peer gets: never under the best, and none if it names
/// none.
pub open spec fn quality_of(quality: Option<ImageQuality>, custom: i32) -> Option<i32> {
    match quality {
        None => None,
        Some(ImageQuality::NotSet) => if custom > 0 {
            Some(
                if custom > BEST_QUALITY {
                    custom
                } else {
                    BEST_QUALITY
                },
            )
        } else {
            None
        },
        Some(_) => Some(BEST_QUALITY),
    }
}

/// What the wishes of a peer ask for.
pub open spec fn option_deeds<C, F, D, B, J>(opt: OptionMessage<D>, conn_id: i32) -> Seq<
    Deed<C, F, D, B, J>,
> {
    (if opt.custom_fps > 0 {
        seq![Deed::CustomFps(conn_id, opt.custom_fps as u32)]
    } else {
        Seq::empty()
    }) + (match quality_of(opt.image_quality, opt.custom_image_quality) {
        Some(q) => seq![Deed::SetImageQuality(conn_id, q)],
        None => Seq::empty(),
    }) + (match opt.supported_decoding {
        Some(d) => seq![Deed::SupportedDecoding(conn_id, d)],
        None => Seq::empty(),
    })
}

/// What a message of little weight asks for.
pub open spec fn misc_deeds<C, F, D, B, J>(misc: MiscMessage<D>, conn_id: i32) -> Seq<
    Deed<C, F, D, B, J>,
> {
    match misc {
        MiscMessage::VideoReceived => seq![Deed::FrameFetched(conn_id)],
        MiscMessage::Options(opt) => option_deeds(opt, conn_id),
        MiscMessage::SwitchDisplay(_) => Seq::empty(),
        MiscMessage::ChangeResolution { width, height } => seq![
            Deed::ChangeResolution {
                display: None,
                width: widened(width),
                height: widened(height),
            },
        ],
        MiscMessage::ChangeDisplayResolution { display, width, height } => seq![
            Deed::ChangeResolution {
                display: Some(widened(display)),
                width: widened(width),
                height: widened(height),
            },
        ],
        MiscMessage::Other => Seq::empty(),
    }
}

/// What a message asks for.
pub open spec fn deeds_of<C, F, D, B, J, E>(
    msg: Incoming<C, F, D, B>,
    transfers: Transfers<J, E, B>,
    conn_id: i32,
) -> Seq<Deed<C, F, D, B, J>> {
    match msg {
        Incoming::Mouse(event) => seq![Deed::SendInput(input_message(MSG_MOUSE, event@))],
        Incoming::Key(event) => seq![Deed::SendInput(input_message(MSG_KEY, event@))],
        Incoming::Clipboard(content) => seq![Deed::UpdateClipboard(seq![content])],
        Incoming::MultiClipboards(contents) => seq![Deed::UpdateClipboard(contents@)],
        Incoming::Cliprdr(clip) => match clip {
            Some(c) => seq![Deed::ClipFile(conn_id, c)],
            None => Seq::empty(),
        },
        Incoming::Misc(misc) => misc_deeds(misc, conn_id),
        Incoming::FileAction(action) => match task_of(action) {
            Task::Nothing => Seq::empty(),
            task => seq![Deed::RunFsTask(task)],
        },
        Incoming::FileResponse(response) => match response {
            FileResponse::Block { id, file_num, block } => if transfers.recv.contains_key(id) {
                seq![Deed::WriteBlock { id, file_num, job: transfers.recv[id], block }]
            } else {
                Seq::empty()
            },
            FileResponse::Done { id, file_num } => if transfers.recv.contains_key(id) {
                seq![Deed::Finalize(transfers.recv[id])]
            } else {
                Seq::empty()
            },
            FileResponse::Error { id } => if transfers.recv.contains_key(id) {
                seq![Deed::Discard(transfers.recv[id])]
            } else {
                Seq::empty()
            },
            FileResponse::Digest => Seq::empty(),
            FileResponse::Other => Seq::empty(),
        },
        Incoming::Other => Seq::empty(),
    }
}

/// The file transfers after a message: a job whose block is being written is
/// lent out, and one that has ended is gone.
pub open spec fn transfers_after<C, F, D, B, J, E>(
    msg: Incoming<C, F, D, B>,
    transfers: Transfers<J, E, B>,
) -> Transfers<J, E, B> {
    match msg {
        Incoming::FileAction(action) => transfers.requested(action),
        Incoming::FileResponse(response) => match response {
            FileResponse::Block { id, file_num, block } => Transfers {
                recv: transfers.recv.remove(id),
                ..transfers
            },
            FileResponse::Done { id, file_num } => if transfers.recv.contains_key(id) {
                Transfers { recv: transfers.recv.remove(id), ..transfers }.answer(
                    Reply::Done { id, file_num },
                )
            } else {
                transfers
            },
            FileResponse::Error { id } => Transfers {
                recv: transfers.recv.remove(id),
                ..transfers
            },
            FileResponse::Digest => transfers,
            FileResponse::Other => transfers,
        },
        _ => transfers,
    }
}

/// The effects of a message, as values of the model.
pub open spec fn deeds<C, F, D, B, J>(effects: Seq<Effect<C, F, D, B, J>>) -> Seq<
    Deed<C, F, D, B, J>,
> {
    effects.map_values(|e: Effect<C, F, D, B, J>| e@)
}

/// What the wishes of a peer ask for.
fn handle_options<C, F, D, B, J>(opt: OptionMessage<D>, conn_id: i32) -> (r: Vec<
    Effect<C, F, D, B, J>,
>)
    ensures
        deeds(r@) == option_deeds::<C, F, D, B, J>(opt, conn_id),
{
    let mut effects: Vec<Effect<C, F, D, B, J>> = Vec::new();
    if opt.custom_fps > 0 {
        effects.push(Effect::CustomFps(conn_id, opt.custom_fps as u32));
    }
    let quality: Option<i32> = match opt.image_quality {
        None => None,
        Some(ImageQuality::NotSet) => {
            if opt.custom_image_quality > BEST_QUALITY {
                Some(opt.custom_image_quality)
            } else if opt.custom_image_quality > 0 {
                Some(BEST_QUALITY)
            } else {
                None
            }
        },
        Some(_) => Some(BEST_QUALITY),
    };
    match quality {
        Some(q) => effects.push(Effect::SetImageQuality(conn_id, q)),
        None => {},
    }
    match opt.supported_decoding {
        Some(d) => effects.push(Effect::SupportedDecoding(conn_id, d)),
        None => {},
    }
    proof {
        assert(deeds(effects@) =~= option_deeds::<C, F, D, B, J>(opt, conn_id));
    }
    effects
}

/// What a message of a connection asks for, in order. `parsed` is the message
/// in `data`, if it could be read; an empty or unreadable one asks for
/// nothing.
pub fn handle_incoming_message<C, F, D, B, J, E>(
    data: &[u8],
    parsed: Option<Incoming<C, F, D, B>>,
    file_transfer: &mut FileTransferHandler<J, E, B>,
    conn_id: i32,
) -> (r: Vec<Effect<C, F, D, B, J>>)
    requires
        parsed matches Some(Incoming::Mouse(event)) ==> event@.len() + 4 <= usize::MAX,
        parsed matches Some(Incoming::Key(event)) ==> event@.len() + 4 <= usize::MAX,
    ensures
        match parsed {
            Some(msg) if data@.len() > 0 => {
                &&& deeds(r@) == deeds_of(msg, old(file_transfer)@, conn_id)
                &&& final(file_transfer)@ == transfers_after(msg, old(file_transfer)@)
            },
            _ => {
                &&& r@.len() == 0
                &&& final(file_transfer)@ == old(file_transfer)@
            },
        },
{
    let mut effects: Vec<Effect<C, F, D, B, J>> = Vec::new();
    if data.len() == 0 {
        return effects;
    }
    let msg: Incoming<C, F, D, B> = match parsed {
        Some(m) => m,
        None => return effects,
    };
    let ghost before = file_transfer@;
    match msg {
        Incoming::Mouse(event) => {
            effects.push(Effect::SendInput(encode_input(MSG_MOUSE, event.as_slice())));
        },
        Incoming::Key(event) => {
            effects.push(Effect::SendInput(encode_input(MSG_KEY, event.as_slice())));
        },
        Incoming::Clipboard(content) => {
            let mut contents: Vec<C> = Vec::new();
            contents.push(content);
            proof {
                assert(contents@ =~= seq![content]);
            }
            effects.push(Effect::UpdateClipboard(contents));
        },
        Incoming::MultiClipboards(contents) => {
            effects.push(Effect::UpdateClipboard(contents));
        },
        Incoming::Cliprdr(clip) => match clip {
            Some(c) => {
                effects.push(Effect::ClipFile(conn_id, c));
            },
            None => {},
        },
        Incoming::Misc(misc) => match misc {
            MiscMessage::VideoReceived => {
                effects.push(Effect::FrameFetched(conn_id));
            },
            MiscMessage::Options(opt) => {
                effects = handle_options(opt, conn_id);
            },
            MiscMessage::SwitchDisplay(_) => {},
            MiscMessage::ChangeResolution { width, height } => {
                effects.push(
                    Effect::ChangeResolution {
                        display: None,
                        width: widen(width),
                        height: widen(height),
                    },
                );
            },
            MiscMessage::ChangeDisplayResolution { display, width, height } => {
                effects.push(
                    Effect::ChangeResolution {
                        display: Some(widen(display)),
                        width: widen(width),
                        height: widen(height),
                    },
                );
            },
            MiscMessage::Other => {},
        },
        Incoming::FileAction(action) => {
            let task: FsTask = file_transfer.handle_action(&action);
            match task {
                FsTask::Nothing => {},
                _ => effects.push(Effect::RunFsTask(task)),
            }
        },
        Incoming::FileResponse(response) => match response {
            FileResponse::Block { id, file_num, block } => match file_transfer.receiving(id) {
                Some(job) => {
                    effects.push(Effect::WriteBlock { id, file_num, job, block });
                },
                None => {},
            },
            FileResponse::Done { id, file_num } => match file_transfer.handle_done(id, file_num) {
                Some(job) => {
                    effects.push(Effect::Finalize(job));
                },
                None => {},
            },
            FileResponse::Error { id } => match file_transfer.handle_error(id) {
                Some(job) => {
                    effects.push(Effect::Discard(job));
                },
                None => {},
            },
            FileResponse::Digest => {
                file_transfer.handle_digest();
            },
            FileResponse::Other => {},
        },
        Incoming::Other => {},
    }
    proof {
        assert(deeds(effects@) =~= deeds_of(msg, before, conn_id));
    }
    effects
}

/// What the peer does with the mouse arrives at the process that injects
/// input: its packet, read from the pipe in any pieces, is the event again.
pub proof fn mouse_events_arrive<C, F, D, B, J, E>(
    event: Vec<u8>,
    transfers: Transfers<J, E, B>,
    conn_id: i32,
    chunks: Seq<Seq<u8>>,
)
    requires
        0 < event@.len() <= MAX_MESSAGE - 4,
        forall|i: int| 0 <= i < chunks.len() ==> (#[trigger] chunks[i]).len() > 0,
        flatten(chunks) == packet_of(input_message(MSG_MOUSE, event@)).skip(4),
    ensures
        deeds_of::<C, F, D, B, J, E>(Incoming::Mouse(event), transfers, conn_id) == seq![
            Deed::<C, F, D, B, J>::SendInput(input_message(MSG_MOUSE, event@)),
        ],
        ({
            let packet = packet_of(input_message(MSG_MOUSE, event@));
            let (body, first) = read_step(Progress::Length, Some(packet.take(4)));
            let (end, last) = read_step(
                progress_after(body, chunks.drop_last()),
                Some(chunks.last()),
            );
            &&& first is Read
            &&& end == Progress::Length
            &&& last matches ReadOutcome::Message(data)
            &&& decode_input(data) == Some(Input::Mouse(event@))
        }),
{
    lemma_event_arrives(MSG_MOUSE, event@, chunks);
}

/// What the peer types arrives at the process that injects input.
pub proof fn key_events_arrive<C, F, D, B, J, E>(
    event: Vec<u8>,
    transfers: Transfers<J, E, B>,
    conn_id: i32,
    chunks: Seq<Seq<u8>>,
)
    requires
        0 < event@.len() <= MAX_MESSAGE - 4,
        forall|i: int| 0 <= i < chunks.len() ==> (#[trigger] chunks[i]).len() > 0,
        flatten(chunks) == packet_of(input_message(MSG_KEY, event@)).skip(4),
    ensures
        deeds_of::<C, F, D, B, J, E>(Incoming::Key(event), transfers, conn_id) == seq![
            Deed::<C, F, D, B, J>::SendInput(input_message(MSG_KEY, event@)),
        ],
        ({
            let packet = packet_of(input_message(MSG_KEY, event@));
            let (body, first) = read_step(Progress::Length, Some(packet.take(4)));
            let (end, last) = read_step(
                progress_after(body, chunks.drop_last()),
                Some(chunks.last()),
            );
            &&& first is Read
            &&& end == Progress::Length
            &&& last matches ReadOutcome::Message(data)
            &&& decode_input(data) == Some(Input::Key(event@))
        }),
{
    lemma_event_arrives(MSG_KEY, event@, chunks);
}

/// An event that goes through the pipe, in any pieces, is the same event.
proof fn lemma_event_arrives(msg_type: u32, payload: Seq<u8>, chunks: Seq<Seq<u8>>)
    requires
        0 < payload.len() <= MAX_MESSAGE - 4,
        forall|i: int| 0 <= i < chunks.len() ==> (#[trigger] chunks[i]).len() > 0,
        flatten(chunks) == packet_of(input_message(msg_type, payload)).skip(4),
    ensures
        ({
            let packet = packet_of(input_message(msg_type, payload));
            let (body, first) = read_step(Progress::Length, Some(packet.take(4)));
            &&& first is Read
            &&& read_step(progress_after(body, chunks.drop_last()), Some(chunks.last())) == (
                Progress::Length,
                ReadOutcome::Message(input_message(msg_type, payload)),
            )
            &&& decode_input(input_message(msg_type, payload)) == Some(
                input_of(msg_type, payload),
            )
        }),
{
    let data = input_message(msg_type, payload);
    lemma_le_bytes_len(msg_type as nat, 4);
    lemma_le_bytes_len(data.len() % 0x1_0000_0000, 4);
    assert(packet_of(data).skip(4) =~= data);
    pipe_round_trip(data, chunks);
    input_round_trip(msg_type, payload);
}

/// The end of a file is confirmed once: told of it again, nothing happens.
pub proof fn done_is_confirmed_once<C, F, D, B, J, E>(
    transfers: Transfers<J, E, B>,
    id: i32,
    file_num: i32,
    conn_id: i32,
)
    ensures
        ({
            let msg = Incoming::<C, F, D, B>::FileResponse(FileResponse::Done { id, file_num });
            let after = transfers_after(msg, transfers);
            &&& transfers_after(msg, after) == after
            &&& deeds_of(msg, after, conn_id).len() == 0
        }),
{
}

/// A block that was written leaves the jobs as they were: the job that was
/// lent out is back.
pub proof fn block_keeps_jobs<C, F, D, B, J, E>(
    transfers: Transfers<J, E, B>,
    id: i32,
    file_num: i32,
    block: B,
)
    requires
        transfers.recv.contains_key(id),
    ensures
        ({
            let msg = Incoming::<C, F, D, B>::FileResponse(
                FileResponse::Block { id, file_num, block },
            );
            let lent = transfers_after(msg, transfers);
            Transfers { recv: lent.recv.insert(id, transfers.recv[id]), ..lent } == transfers
        }),
{
    assert(transfers.recv.remove(id).insert(id, transfers.recv[id]) =~= transfers.recv);
}

/// No peer gets less than the best quality.
pub proof fn quality_is_best_at_least(quality: Option<ImageQuality>, custom: i32)
    ensures
        quality_of(quality, custom) matches Some(q) ==> q >= BEST_QUALITY,
{
}

// ---------------------------------------------------------------- resolution
/// What to do about a wish for another resolution.
#[derive(Debug, Clone, Copy, PartialEq, Eq)]
pub enum ResolutionChange {
    /// The displays cannot be listed.
    Unavailable,
    /// There is no such display.
    NotFound(u64),
    /// The display has that resolution already.
    Same,
    /// Note the change from `original` to `changed`, let the pictures start
    /// over, and set the display to `width` by `height`.
    Change {
        display: usize,
        original: (i32, i32),
        changed: (i32, i32),
        width: u64,
        height: u64,
    },
}

/// Decides on a wish for another resolution of a display, the first one if
/// none is named. `displays` are the sizes of the displays, if they could be
/// found out.
pub fn handle_change_resolution(
    display_idx: Option<u64>,
    width: u64,
    height: u64,
    displays: &Option<Vec<(u64, u64)>>,
) -> (r: ResolutionChange)
    ensures
        match *displays {
            None => r == ResolutionChange::Unavailable,
            Some(sizes) => {
                let idx: int = match display_idx {
                    Some(i) => i as int,
                    None => 0,
                };
                if idx >= sizes@.len() {
                    r == ResolutionChange::NotFound(idx as u64)
                } else if sizes@[idx] == (width, height) {
                    r == ResolutionChange::Same
                } else {
                    r == (ResolutionChange::Change {
                        display: idx as usize,
                        original: (sizes@[idx].0 as i32, sizes@[idx].1 as i32),
                        changed: (width as i32, height as i32),
                        width,
                        height,
                    })
                }
            },
        },
{
    let idx: u64 = match display_idx {
        Some(i) => i,
        None => 0,
    };
    match displays {
        None => ResolutionChange::Unavailable,
        Some(sizes) => {
            if idx >= sizes.len() as u64 {
                return ResolutionChange::NotFound(idx);
            }
            let (cur_w, cur_h): (u64, u64) = sizes[idx as usize];
            if cur_w == width && cur_h == height {
                return ResolutionChange::Same;
            }
            ResolutionChange::Change {
                display: idx as usize,
                original: (
                    #[verifier::truncate] (cur_w as i32),
                    #[verifier::truncate] (cur_h as i32),
                ),
                changed: (
                    #[verifier::truncate] (width as i32),
                    #[verifier::truncate] (height as i32),
                ),
                width,
                height,
            }
        },
    }
}

// ---------------------------------------------------------------- loops
/// The number of the connection that is served.
pub const CONN_ID: i32 = 1;

/// The delay that a connection starts out with, in milliseconds.
pub const INITIAL_DELAY: u32 = 10;

/// Nanoseconds in a millisecond.
pub const MILLISECOND: u64 = 1_000_000;

pub const SEND_ERROR: &'static str = "Send error";
pub const STREAM_ERROR: &'static str = "Stream error";
pub const REMOTE_CLOSE: &'static str = "Remote close";
pub const FILE_SEND_ERROR: &'static str = "File send error";

/// The service of a connection.
#[derive(Debug, Clone, Copy, PartialEq, Eq, Structural)]
pub struct ServiceLoop {
    /// The last delay that was measured, in milliseconds.
    pub network_delay: u32,
    /// When the probe was sent that is not answered yet, in nanoseconds.
    pub last_test_delay: Option<u64>,
    /// Whether there is a source of pictures.
    pub has_video: bool,
    pub running: bool,
}

/// What was being sent when sending failed.
#[derive(Debug, Clone, Copy, PartialEq, Eq, Structural)]
pub enum Sending {
    /// A picture, or another message of a service.
    Service,
    /// A message of the file clipboard.
    Clip,
    /// An answer that concerns files.
    File,
}

/// What happens while a connection is served.
#[derive(Debug, Clone, Copy, PartialEq, Eq, Structural)]
pub enum ServiceEvent {
    /// The source of pictures has a message; it is a frame of this display,
    /// if it is one.
    Video(Option<i32>),
    /// A service has another message.
    Message,
    /// The file clipboard has a message, or none any more.
    Clip(bool),
    /// The peer has sent something; its kind, if it can be read.
    Received(Option<MessageKind>),
    /// Receiving failed.
    StreamError,
    /// The peer has closed the stream.
    StreamClosed,
    /// There is an answer that concerns files.
    FileResponse,
    /// Sending failed.
    SendFailed(Sending),
    /// It is time to move files on.
    PollTimer,
    /// A second has gone by. This is the clock of the protocol, and the
    /// bitrate in use.
    DelayTimer { time: i64, bitrate: u32 },
    /// The probe was sent, or there was none to send.
    DelayCheck,
    Heartbeat,
    /// Three seconds have gone by.
    RunningTimer,
}

/// What to do while a connection is served.
#[derive(Debug, Clone, Copy, PartialEq, Eq)]
pub enum ServiceAction {
    SubscribeVideo(i32),
    SubscribeClipboard(i32),
    SubscribeCursor(i32),
    SubscribePosition(i32),
    /// Open the channel of the file clipboard.
    RegisterCliprdr(i32),
    /// The control of the picture quality learns of a connection.
    ConnectionOpen(i32),
    /// It learns of the delay of a connection, in milliseconds.
    NetworkDelay(i32, u32),
    /// It learns how long the probe is unanswered, in milliseconds.
    DelayResponseElapsed(i32, u64),
    /// Tell the peer that the service is running.
    SendServiceRunning,
    /// The frame of a display was taken.
    FrameFetched { display: u64, conn_id: i32 },
    /// Send the message at hand.
    Forward,
    /// Let `handle_incoming_message` see the message at hand.
    HandleIncoming(i32),
    /// Send a probe of the delay. A failure to send it is passed over.
    SendTestDelay { time: i64, last_delay: u32, target_bitrate: u32 },
    /// Come back with the event `DelayCheck`.
    CheckDelay,
    /// Move files on.
    PollSendJobs,
    /// Tell the peer why the connection closes.
    SendCloseReason(&'static str),
    UnsubscribeVideo(i32),
    RemoveCliprdr(i32),
    ConnectionClose(i32),
    RestoreResolutions,
}

/// What is done when the service of a connection begins.
pub open spec fn service_start(has_video: bool, has_clipboard: bool) -> Seq<ServiceAction> {
    (if has_video {
        seq![ServiceAction::SubscribeVideo(CONN_ID)]
    } else {
        Seq::empty()
    }) + (if has_clipboard {
        seq![ServiceAction::SubscribeClipboard(CONN_ID)]
    } else {
        Seq::empty()
    }) + seq![
        ServiceAction::SubscribeCursor(CONN_ID),
        ServiceAction::SubscribePosition(CONN_ID),
        ServiceAction::RegisterCliprdr(CONN_ID),
        ServiceAction::ConnectionOpen(CONN_ID),
        ServiceAction::NetworkDelay(CONN_ID, INITIAL_DELAY),
        ServiceAction::SendServiceRunning,
    ]
}

/// What is done when the service of a connection ends.
pub open spec fn service_end(has_video: bool) -> Seq<ServiceAction> {
    (if has_video {
        seq![ServiceAction::UnsubscribeVideo(CONN_ID)]
    } else {
        Seq::empty()
    }) + seq![
        ServiceAction::RemoveCliprdr(CONN_ID),
        ServiceAction::ConnectionClose(CONN_ID),
        ServiceAction::RestoreResolutions,
    ]
}

/// The milliseconds from `then` to `now`, as far as 32 bits hold them.
pub open spec fn millis32(then: u64, now: u64) -> u32 {
    ((elapsed(then, now) / MILLISECOND as nat) % 0x1_0000_0000) as u32
}

/// The end of a service, with a reason for the peer.
pub open spec fn service_stop(s: ServiceLoop, reason: &'static str) -> (
    ServiceLoop,
    Seq<ServiceAction>,
) {
    (
        ServiceLoop { running: false, ..s },
        seq![ServiceAction::SendCloseReason(reason)] + service_end(s.has_video),
    )
}

/// How a service goes on after an event, and what is to be done. Once it has
/// ended nothing is.
pub open spec fn service_step(s: ServiceLoop, event: ServiceEvent, now: u64) -> (
    ServiceLoop,
    Seq<ServiceAction>,
) {
    if !s.running {
        (s, Seq::empty())
    } else {
        running_step(s, event, now)
    }
}

/// How a running service goes on after an event, and what is to be done.
pub open spec fn running_step(s: ServiceLoop, event: ServiceEvent, now: u64) -> (
    ServiceLoop,
    Seq<ServiceAction>,
) {
    match event {
        ServiceEvent::Video(display) => match display {
            Some(d) => (
                s,
                seq![
                    ServiceAction::FrameFetched { display: widened(d), conn_id: CONN_ID },
                    ServiceAction::Forward,
                ],
            ),
            None => (s, seq![ServiceAction::Forward]),
        },
        ServiceEvent::Message => (s, seq![ServiceAction::Forward]),
        ServiceEvent::Clip(some) => if some {
            (s, seq![ServiceAction::Forward])
        } else {
            (s, Seq::empty())
        },
        ServiceEvent::Received(kind) => if kind == Some(MessageKind::TestDelay) {
            match s.last_test_delay {
                Some(sent) => {
                    let rtt = millis32(sent, now);
                    if rtt > 0 {
                        (
                            ServiceLoop { network_delay: rtt, last_test_delay: None, ..s },
                            seq![ServiceAction::NetworkDelay(CONN_ID, rtt)],
                        )
                    } else {
                        (ServiceLoop { last_test_delay: None, ..s }, Seq::empty())
                    }
                },
                None => (s, Seq::empty()),
            }
        } else {
            (s, seq![ServiceAction::HandleIncoming(CONN_ID)])
        },
        ServiceEvent::StreamError => service_stop(s, STREAM_ERROR),
        ServiceEvent::StreamClosed => service_stop(s, REMOTE_CLOSE),
        ServiceEvent::FileResponse => (s, seq![ServiceAction::Forward]),
        ServiceEvent::SendFailed(sending) => match sending {
            Sending::File => service_stop(s, FILE_SEND_ERROR),
            _ => service_stop(s, SEND_ERROR),
        },
        ServiceEvent::PollTimer => (s, seq![ServiceAction::PollSendJobs]),
        ServiceEvent::DelayTimer { time, bitrate } => match s.last_test_delay {
            None => (
                ServiceLoop { last_test_delay: Some(now), ..s },
                seq![
                    ServiceAction::SendTestDelay {
                        time,
                        last_delay: s.network_delay,
                        target_bitrate: bitrate,
                    },
                    ServiceAction::CheckDelay,
                ],
            ),
            Some(_) => (s, seq![ServiceAction::CheckDelay]),
        },
        ServiceEvent::DelayCheck => match s.last_test_delay {
            None => (s, Seq::empty()),
            Some(sent) => (
                s,
                seq![
                    ServiceAction::DelayResponseElapsed(
                        CONN_ID,
                        (elapsed(sent, now) / MILLISECOND as nat) as u64,
                    ),
                ],
            ),
        },
        ServiceEvent::Heartbeat => (s, Seq::empty()),
        ServiceEvent::RunningTimer => (s, seq![ServiceAction::SendServiceRunning]),
    }
}

/// Begins the service of a connection, and says what to do first, in order.
pub fn run_service_loop(has_video: bool, has_clipboard: bool) -> (r: (
    ServiceLoop,
    Vec<ServiceAction>,
))
    ensures
        r.0 == (ServiceLoop {
            network_delay: 0,
            last_test_delay: None,
            has_video,
            running: true,
        }),
        r.1@ == service_start(has_video, has_clipboard),
{
    let mut actions: Vec<ServiceAction> = Vec::new();
    if has_video {
        actions.push(ServiceAction::SubscribeVideo(CONN_ID));
    }
    if has_clipboard {
        actions.push(ServiceAction::SubscribeClipboard(CONN_ID));
    }
    actions.push(ServiceAction::SubscribeCursor(CONN_ID));
    actions.push(ServiceAction::SubscribePosition(CONN_ID));
    actions.push(ServiceAction::RegisterCliprdr(CONN_ID));
    actions.push(ServiceAction::ConnectionOpen(CONN_ID));
    actions.push(ServiceAction::NetworkDelay(CONN_ID, INITIAL_DELAY));
    actions.push(ServiceAction::SendServiceRunning);
    proof {
        assert(actions@ =~= service_start(has_video, has_clipboard));
    }
    (ServiceLoop { network_delay: 0, last_test_delay: None, has_video, running: true }, actions)
}

impl ServiceLoop {
    /// Ends the service, with a reason for the peer.
    fn stop(&mut self, reason: &'static str) -> (r: Vec<ServiceAction>)
        ensures
            (*final(self), r@) == service_stop(*old(self), reason),
    {
        let mut actions: Vec<ServiceAction> = Vec::new();
        self.running = false;
        actions.push(ServiceAction::SendCloseReason(reason));
        if self.has_video {
            actions.push(ServiceAction::UnsubscribeVideo(CONN_ID));
        }
        actions.push(ServiceAction::RemoveCliprdr(CONN_ID));
        actions.push(ServiceAction::ConnectionClose(CONN_ID));
        actions.push(ServiceAction::RestoreResolutions);
        proof {
            assert(actions@ =~= service_stop(*old(self), reason).1);
        }
        actions
    }

    /// Takes an event, and says what to do, in order. The clock is in
    /// nanoseconds and does not go back.
    pub fn step(&mut self, event: ServiceEvent, now: u64) -> (r: Vec<ServiceAction>)
        ensures
            (*final(self), r@) == service_step(*old(self), event, now),
    {
        let mut actions: Vec<ServiceAction> = Vec::new();
        if !self.running {
            return actions;
        }
        match event {
            ServiceEvent::Video(display) => {
                match display {
                    Some(d) => {
                        actions.push(
                            ServiceAction::FrameFetched { display: widen(d), conn_id: CONN_ID },
                        );
                    },
                    None => {},
                }
                actions.push(ServiceAction::Forward);
            },
            ServiceEvent::Message => {
                actions.push(ServiceAction::Forward);
            },
            ServiceEvent::Clip(some) => {
                if some {
                    actions.push(ServiceAction::Forward);
                }
            },
            ServiceEvent::Received(kind) => match kind {
                Some(MessageKind::TestDelay) => match self.last_test_delay {
                    Some(sent) => {
                        self.last_test_delay = None;
                        let millis: u64 = now.saturating_sub(sent) / MILLISECOND;
                        let rtt: u32 = (millis % 0x1_0000_0000) as u32;
                        if rtt > 0 {
                            self.network_delay = rtt;
                            actions.push(ServiceAction::NetworkDelay(CONN_ID, rtt));
                        }
                    },
                    None => {},
                },
                _ => {
                    actions.push(ServiceAction::HandleIncoming(CONN_ID));
                },
            },
            ServiceEvent::StreamError => return self.stop(STREAM_ERROR),
            ServiceEvent::StreamClosed => return self.stop(REMOTE_CLOSE),
            ServiceEvent::FileResponse => {
                actions.push(ServiceAction::Forward);
            },
            ServiceEvent::SendFailed(sending) => match sending {
                Sending::File => return self.stop(FILE_SEND_ERROR),
                _ => return self.stop(SEND_ERROR),
            },
            ServiceEvent::PollTimer => {
                actions.push(ServiceAction::PollSendJobs);
            },
            ServiceEvent::DelayTimer { time, bitrate } => {
                if self.last_test_delay.is_none() {
                    self.last_test_delay = Some(now);
                    actions.push(
                        ServiceAction::SendTestDelay {
                            time,
                            last_delay: self.network_delay,
                            target_bitrate: bitrate,
                        },
                    );
                }
                actions.push(ServiceAction::CheckDelay);
            },
            ServiceEvent::DelayCheck => match self.last_test_delay {
                None => {},
                Some(sent) => {
                    let millis: u64 = now.saturating_sub(sent) / MILLISECOND;
                    actions.push(ServiceAction::DelayResponseElapsed(CONN_ID, millis));
                },
            },
            ServiceEvent::Heartbeat => {},
            ServiceEvent::RunningTimer => {
                actions.push(ServiceAction::SendServiceRunning);
            },
        }
        proof {
            assert(actions@ =~= service_step(*old(self), event, now).1);
        }
        actions
    }
}

/// How long to wait before files are moved on, in milliseconds.
pub fn poll_delay(has_send_jobs: bool) -> (r: u64)
    ensures
        r == (if has_send_jobs {
            10u64
        } else {
            1000u64
        }),
{
    if has_send_jobs {
        10
    } else {
        1000
    }
}

/// A service ends only when sending or receiving fails, and then it undoes
/// what it began with: the pictures, the file clipboard and the control of
/// the picture quality are let go of.
pub proof fn service_is_undone(s: ServiceLoop, event: ServiceEvent, now: u64)
    requires
        s.running,
    ensures
        ({
            let (after, done) = service_step(s, event, now);
            &&& after.running <==> !(event is StreamError || event is StreamClosed
                || event is SendFailed)
            &&& !after.running ==> {
                &&& done[0] is SendCloseReason
                &&& done.skip(1) == service_end(s.has_video)
                &&& s.has_video ==> done.contains(ServiceAction::UnsubscribeVideo(CONN_ID))
                &&& done.contains(ServiceAction::RemoveCliprdr(CONN_ID))
                &&& done.contains(ServiceAction::ConnectionClose(CONN_ID))
                &&& done.contains(ServiceAction::RestoreResolutions)
            }
        }),
{
    let (after, done) = service_step(s, event, now);
    if !after.running {
        assert(done.skip(1) =~= service_end(s.has_video));
        let n = done.len();
        assert(done[n - 1] == ServiceAction::RestoreResolutions);
        assert(done[n - 2] == ServiceAction::ConnectionClose(CONN_ID));
        assert(done[n - 3] == ServiceAction::RemoveCliprdr(CONN_ID));
        if s.has_video {
            assert(done[n - 4] == ServiceAction::UnsubscribeVideo(CONN_ID));
        }
    }
}

/// A service after a course of events, each with its time.
pub open spec fn service_after(s: ServiceLoop, events: Seq<(ServiceEvent, u64)>) -> ServiceLoop
    decreases events.len(),
{
    if events.len() == 0 {
        s
    } else {
        let before = service_after(s, events.drop_last());
        service_step(before, events.last().0, events.last().1).0
    }
}

/// What is done for one event of a course.
pub open spec fn done_for(s: ServiceLoop, events: Seq<(ServiceEvent, u64)>, i: int) -> Seq<
    ServiceAction,
> {
    service_step(service_after(s, events.take(i)), events[i].0, events[i].1).1
}

/// Once a service has ended nothing is done any more, whatever happens.
pub proof fn ended_service_does_nothing(
    s: ServiceLoop,
    events: Seq<(ServiceEvent, u64)>,
    i: int,
    j: int,
)
    requires
        0 <= i <= j < events.len(),
        !service_after(s, events.take(i)).running,
    ensures
        service_after(s, events.take(j)) == service_after(s, events.take(i)),
        done_for(s, events, j) == Seq::<ServiceAction>::empty(),
    decreases j,
{
    if i < j {
        ended_service_does_nothing(s, events, i, j - 1);
        lemma_service_take(s, events, j - 1);
    }
}

/// Whether a probe of the delay is sent for an event of a course.
pub open spec fn sends_probe(s: ServiceLoop, events: Seq<(ServiceEvent, u64)>, i: int) -> bool {
    exists|k: int|
        0 <= k < done_for(s, events, i).len() && #[trigger] done_for(
            s,
            events,
            i,
        )[k] is SendTestDelay
}

/// Whether an event is the answer to a probe.
pub open spec fn is_answer(event: ServiceEvent) -> bool {
    event == ServiceEvent::Received(Some(MessageKind::TestDelay))
}

/// When the last probe was sent in the course of a service that began with
/// none under way.
pub open spec fn last_probe(s: ServiceLoop, events: Seq<(ServiceEvent, u64)>) -> Option<u64>
    decreases events.len(),
{
    if events.len() == 0 {
        None
    } else if sends_probe(s, events, events.len() - 1) {
        Some(events.last().1)
    } else {
        last_probe(s, events.drop_last())
    }
}

/// Whether a probe is under way after a course: one was sent, and no answer
/// has come since.
pub open spec fn probe_under_way(s: ServiceLoop, events: Seq<(ServiceEvent, u64)>) -> bool
    decreases events.len(),
{
    if events.len() == 0 {
        false
    } else if sends_probe(s, events, events.len() - 1) {
        true
    } else {
        !is_answer(events.last().0) && probe_under_way(s, events.drop_last())
    }
}

/// The delay that was measured last: the milliseconds from the last probe to
/// its answer. An answer within the same millisecond measures nothing, and
/// neither does one that no probe waits for.
pub open spec fn measured_delay(s: ServiceLoop, events: Seq<(ServiceEvent, u64)>) -> u32
    decreases events.len(),
{
    if events.len() == 0 {
        0
    } else {
        let init = events.drop_last();
        let (event, now) = events.last();
        match last_probe(s, init) {
            Some(sent) => if is_answer(event) && probe_under_way(s, init) && millis32(sent, now)
                > 0 {
                millis32(sent, now)
            } else {
                measured_delay(s, init)
            },
            None => measured_delay(s, init),
        }
    }
}

/// There is one probe at a time: between any two of them an answer came.
pub proof fn one_probe_at_a_time(
    s: ServiceLoop,
    events: Seq<(ServiceEvent, u64)>,
    i: int,
    j: int,
)
    requires
        0 <= i < j < events.len(),
        sends_probe(s, events, i),
        sends_probe(s, events, j),
    ensures
        exists|k: int| i < k < j && is_answer(#[trigger] events[k].0),
{
    lemma_waits_for_answer(s, events, i, j);
    let at = choose|k: int|
        0 <= k < done_for(s, events, j).len() && #[trigger] done_for(
            s,
            events,
            j,
        )[k] is SendTestDelay;
    assert(done_for(s, events, j)[at] is SendTestDelay);
}

/// Each probe tells the peer the delay that was measured last, and zero
/// before there was one; it carries the clock and the bitrate of its event,
/// and it is the only one for that event.
pub proof fn probes_carry_the_measured_delay(
    s: ServiceLoop,
    events: Seq<(ServiceEvent, u64)>,
    i: int,
)
    requires
        s.network_delay == 0,
        s.last_test_delay is None,
        s.running,
        0 <= i < events.len(),
        sends_probe(s, events, i),
    ensures
        events[i].0 matches ServiceEvent::DelayTimer { time, bitrate } && done_for(s, events, i)
            == seq![
            ServiceAction::SendTestDelay {
                time,
                last_delay: measured_delay(s, events.take(i)),
                target_bitrate: bitrate,
            },
            ServiceAction::CheckDelay,
        ],
{
    lemma_delay_course(s, events.take(i));
    let at = choose|k: int|
        0 <= k < done_for(s, events, i).len() && #[trigger] done_for(
            s,
            events,
            i,
        )[k] is SendTestDelay;
    assert(done_for(s, events, i)[at] is SendTestDelay);
}

/// A course goes one event further.
proof fn lemma_service_take(s: ServiceLoop, events: Seq<(ServiceEvent, u64)>, i: int)
    requires
        0 <= i < events.len(),
    ensures
        service_after(s, events.take(i + 1)) == service_step(
            service_after(s, events.take(i)),
            events[i].0,
            events[i].1,
        ).0,
        events.take(i + 1).drop_last() == events.take(i),
        events.take(i + 1).last() == events[i],
{
    assert(events.take(i + 1).drop_last() =~= events.take(i));
}

/// A service waits for the answer to a probe until it comes.
proof fn lemma_waits_for_answer(
    s: ServiceLoop,
    events: Seq<(ServiceEvent, u64)>,
    i: int,
    j: int,
)
    requires
        0 <= i < j < events.len(),
        sends_probe(s, events, i),
    ensures
        service_after(s, events.take(j)).last_test_delay is Some || exists|k: int|
            i < k < j && is_answer(#[trigger] events[k].0),
    decreases j,
{
    if j == i + 1 {
        lemma_service_take(s, events, i);
        let at = choose|k: int|
            0 <= k < done_for(s, events, i).len() && #[trigger] done_for(
                s,
                events,
                i,
            )[k] is SendTestDelay;
        assert(done_for(s, events, i)[at] is SendTestDelay);
    } else {
        lemma_waits_for_answer(s, events, i, j - 1);
        lemma_service_take(s, events, j - 1);
        if service_after(s, events.take(j - 1)).last_test_delay is Some {
            if service_after(s, events.take(j)).last_test_delay is None {
                assert(is_answer(events[j - 1].0));
            }
        }
    }
}

/// What a running service keeps is what the course says of its probes.
proof fn lemma_delay_course(s: ServiceLoop, events: Seq<(ServiceEvent, u64)>)
    requires
        s.network_delay == 0,
        s.last_test_delay is None,
        s.running,
    ensures
        ({
            let after = service_after(s, events);
            after.running ==> {
                &&& after.network_delay == measured_delay(s, events)
                &&& after.last_test_delay == (if probe_under_way(s, events) {
                    last_probe(s, events)
                } else {
                    None
                })
                &&& probe_under_way(s, events) ==> last_probe(s, events) is Some
            }
        }),
    decreases events.len(),
{
    if events.len() > 0 {
        let init = events.drop_last();
        let n = events.len() - 1;
        assert(events.take(n) =~= init);
        lemma_delay_course(s, init);
        let before = service_after(s, init);
        let (event, now) = events.last();
        let done = done_for(s, events, n);
        assert(done == service_step(before, event, now).1);
        if event is DelayTimer && before.running && before.last_test_delay is None {
            assert(done[0] is SendTestDelay);
            assert(sends_probe(s, events, n));
        } else {
            assert(!sends_probe(s, events, n));
        }
    }
}

// ---------------------------------------------------------------- files only
/// What happens while a peer only transfers files.
#[derive(Debug, Clone, Copy, PartialEq, Eq, Structural)]
pub enum FileLoopEvent {
    /// The peer has sent something.
    Received,
    StreamError,
    StreamClosed,
    /// There is an answer.
    FileResponse,
    /// An answer could not be sent.
    SendFailed,
    /// It is time to move files on.
    PollTimer,
    /// Ten seconds have gone by.
    KeepaliveTimer,
}

/// What to do while a peer only transfers files.
#[derive(Debug, Clone, Copy, PartialEq, Eq, Structural)]
pub enum FileLoopAction {
    /// Let `handle_incoming_message` see the message, for this connection.
    HandleIncoming(i32),
    /// Send the answer.
    Forward,
    PollSendJobs,
    /// Tell the peer that the service is running.
    SendServiceRunning,
    /// End the service.
    Stop,
}

/// Serves a peer that only transfers files, one event at a time.
pub fn run_file_transfer_loop(event: FileLoopEvent) -> (r: FileLoopAction)
    ensures
        r == (match event {
            FileLoopEvent::Received => FileLoopAction::HandleIncoming(0),
            FileLoopEvent::StreamError => FileLoopAction::Stop,
            FileLoopEvent::StreamClosed => FileLoopAction::Stop,
            FileLoopEvent::FileResponse => FileLoopAction::Forward,
            FileLoopEvent::SendFailed => FileLoopAction::Stop,
            FileLoopEvent::PollTimer => FileLoopAction::PollSendJobs,
            FileLoopEvent::KeepaliveTimer => FileLoopAction::SendServiceRunning,
        }),
{
    match event {
        FileLoopEvent::Received => FileLoopAction::HandleIncoming(0),
        FileLoopEvent::StreamError => FileLoopAction::Stop,
        FileLoopEvent::StreamClosed => FileLoopAction::Stop,
        FileLoopEvent::FileResponse => FileLoopAction::Forward,
        FileLoopEvent::SendFailed => FileLoopAction::Stop,
        FileLoopEvent::PollTimer => FileLoopAction::PollSendJobs,
        FileLoopEvent::KeepaliveTimer => FileLoopAction::SendServiceRunning,
    }
}

} // verus!
