//! Files are transferred: each request is done as it was made, and answered.

use vstd::prelude::*;

use crate::sos_file_transfer::{
    normalize_path, FileAction, FileReply, FileTransferHandler, FsOutcome, FsTask, Reply,
    SendOutcome,
};
use crate::sos_file_transfer::{is_drive_path, normalized, trim_slashes};

verus! {

// ---------------------------------------------------------------- paths
/// Whether a text is made of slashes alone.
pub open spec fn only_slashes(s: Seq<char>) -> bool {
    forall|i: int| 0 <= i < s.len() ==> #[trigger] s[i] == '/'
}

/// Whether `path` is a slash, a drive and its colon, and `tail`.
pub open spec fn names_drive(path: Seq<char>, drive: char, tail: Seq<char>) -> bool {
    &&& path == seq!['/', drive, ':'] + tail
    &&& ('a' <= drive && drive <= 'z') || ('A' <= drive && drive <= 'Z')
}

/// A path on a drive keeps its drive and all that is behind the drive, but
/// for the slashes that the rest begins with, in place of which there is one
/// backslash.
pub proof fn path_on_a_drive_becomes_a_windows_path(
    path: &str,
    drive: char,
    slashes: Seq<char>,
    rest: Seq<char>,
    r: String,
)
    requires
        call_ensures(normalize_path, (path,), r),
        names_drive(path@, drive, slashes + rest),
        only_slashes(slashes),
        rest.len() > 0 ==> rest[0] != '/',
    ensures
        r@ == seq![drive, ':', '\\'] + rest,
{
    lemma_drive_path(path@, drive, slashes, rest);
}

/// Any other path stays as it is.
pub proof fn any_other_path_stays(path: &str, r: String)
    requires
        call_ensures(normalize_path, (path,), r),
        forall|drive: char, tail: Seq<char>| !#[trigger] names_drive(path@, drive, tail),
    ensures
        r@ == path@,
{
    if is_drive_path(path@) {
        assert(path@ =~= seq!['/', path@[1], ':'] + path@.skip(3));
        assert(names_drive(path@, path@[1], path@.skip(3)));
    }
}

proof fn lemma_drive_path(path: Seq<char>, drive: char, slashes: Seq<char>, rest: Seq<char>)
    requires
        names_drive(path, drive, slashes + rest),
        only_slashes(slashes),
        rest.len() > 0 ==> rest[0] != '/',
    ensures
        normalized(path) == seq![drive, ':', '\\'] + rest,
{
    assert(path.skip(3) =~= slashes + rest);
    lemma_trim(slashes, rest);
}

proof fn lemma_trim(slashes: Seq<char>, rest: Seq<char>)
    requires
        only_slashes(slashes),
        rest.len() > 0 ==> rest[0] != '/',
    ensures
        trim_slashes(slashes + rest) == rest,
    decreases slashes.len(),
{
    if slashes.len() == 0 {
        assert(slashes + rest =~= rest);
    } else {
        assert((slashes + rest)[0] == slashes[0]);
        assert((slashes + rest).skip(1) =~= slashes.skip(1) + rest);
        lemma_trim(slashes.skip(1), rest);
    }
}

/// Whether `to` is `from` as Windows has it.
pub open spec fn same_place(from: Seq<char>, to: Seq<char>) -> bool {
    ||| to == from && forall|drive: char, tail: Seq<char>| !#[trigger]
        names_drive(from, drive, tail)
    ||| exists|drive: char, slashes: Seq<char>, rest: Seq<char>|
        {
            &&& #[trigger] names_drive(from, drive, slashes + rest)
            &&& only_slashes(slashes)
            &&& rest.len() > 0 ==> rest[0] != '/'
            &&& to == seq![drive, ':', '\\'] + rest
        }
}

proof fn lemma_same_place(path: Seq<char>)
    ensures
        same_place(path, normalized(path)),
{
    if is_drive_path(path) {
        let tail = path.skip(3);
        let n = lemma_leading(tail);
        let slashes = tail.take(n);
        let rest = tail.skip(n);
        assert(slashes + rest =~= tail);
        assert(path =~= seq!['/', path[1], ':'] + (slashes + rest));
        assert(names_drive(path, path[1], slashes + rest));
        lemma_drive_path(path, path[1], slashes, rest);
    } else {
        assert forall|drive: char, tail: Seq<char>| !#[trigger] names_drive(path, drive, tail) by {
            if names_drive(path, drive, tail) {
                assert(path[0] == '/' && path[1] == drive && path[2] == ':');
            }
        }
    }
}

/// The number of slashes that a text begins with.
proof fn lemma_leading(s: Seq<char>) -> (n: int)
    ensures
        0 <= n <= s.len(),
        only_slashes(s.take(n)),
        s.skip(n).len() > 0 ==> s.skip(n)[0] != '/',
    decreases s.len(),
{
    if s.len() > 0 && s[0] == '/' {
        let m = lemma_leading(s.skip(1));
        let n = m + 1;
        assert(s.skip(n) =~= s.skip(1).skip(m));
        assert forall|i: int| 0 <= i < n implies #[trigger] s.take(n)[i] == '/' by {
            if i > 0 {
                assert(s.take(n)[i] == s.skip(1).take(m)[i - 1]);
            }
        }
        n
    } else {
        0
    }
}

// ---------------------------------------------------------------- requests
/// A listing is made of the directory that was asked for, with hidden files
/// if and only if they were asked for, and it is answered under the path as
/// the peer wrote it.
pub proof fn listing_is_as_asked_for<J, E, B>(
    h: &mut FileTransferHandler<J, E, B>,
    action: FileAction,
    asked: String,
    hidden: bool,
    task: FsTask,
)
    requires
        call_ensures(FileTransferHandler::<J, E, B>::handle_action, (h, &action), task),
        action == (FileAction::ReadDir { path: asked, include_hidden: hidden }) || action == (
        FileAction::ReadEmptyDirs { path: asked, include_hidden: hidden }),
    ensures
        final(h)@ == old(h)@,
        task matches FsTask::ReadDir { path, include_hidden, reply_path } && {
            &&& same_place(asked@, path@)
            &&& include_hidden == hidden
            &&& reply_path@ == asked@
        },
{
    lemma_same_place(asked@);
}

/// A job that sends files is set up under the number, from the file and with
/// the choice of hidden files that were asked for.
pub proof fn sending_is_as_asked_for<J, E, B>(
    h: &mut FileTransferHandler<J, E, B>,
    job: i32,
    asked: String,
    num: i32,
    hidden: bool,
    task: FsTask,
)
    requires
        call_ensures(
            FileTransferHandler::<J, E, B>::handle_action,
            (h, &FileAction::Send { id: job, path: asked, file_num: num, include_hidden: hidden }),
            task,
        ),
    ensures
        final(h)@ == old(h)@,
        task matches FsTask::StartSend { id, path, file_num, include_hidden } && {
            &&& id == job
            &&& same_place(asked@, path@)
            &&& file_num == num
            &&& include_hidden == hidden
        },
{
    lemma_same_place(asked@);
}

/// A job that receives files is set up under the number and for the place
/// that were asked for.
pub proof fn receiving_is_as_asked_for<J, E, B>(
    h: &mut FileTransferHandler<J, E, B>,
    job: i32,
    asked: String,
    num: i32,
    task: FsTask,
)
    requires
        call_ensures(
            FileTransferHandler::<J, E, B>::handle_action,
            (h, &FileAction::Receive { id: job, path: asked, file_num: num }),
            task,
        ),
    ensures
        final(h)@ == old(h)@,
        task matches FsTask::StartReceive { id, path, file_num } && {
            &&& id == job
            &&& same_place(asked@, path@)
            &&& file_num == num
        },
{
    lemma_same_place(asked@);
}

/// A directory is removed with all that it holds only if that was asked for.
pub proof fn removal_of_a_directory_is_as_asked_for<J, E, B>(
    h: &mut FileTransferHandler<J, E, B>,
    job: i32,
    asked: String,
    whole: bool,
    task: FsTask,
)
    requires
        call_ensures(
            FileTransferHandler::<J, E, B>::handle_action,
            (h, &FileAction::RemoveDir { id: job, path: asked, recursive: whole }),
            task,
        ),
    ensures
        final(h)@ == old(h)@,
        task matches FsTask::RemoveDir { id, path, recursive } && {
            &&& id == job
            &&& same_place(asked@, path@)
            &&& recursive == whole
        },
{
    lemma_same_place(asked@);
}

/// The file that was named is removed, under the numbers of the request.
pub proof fn removal_of_a_file_is_as_asked_for<J, E, B>(
    h: &mut FileTransferHandler<J, E, B>,
    job: i32,
    asked: String,
    num: i32,
    task: FsTask,
)
    requires
        call_ensures(
            FileTransferHandler::<J, E, B>::handle_action,
            (h, &FileAction::RemoveFile { id: job, path: asked, file_num: num }),
            task,
        ),
    ensures
        final(h)@ == old(h)@,
        task matches FsTask::RemoveFile { id, path, file_num } && {
            &&& id == job
            &&& same_place(asked@, path@)
            &&& file_num == num
        },
{
    lemma_same_place(asked@);
}

/// The directory that was named is created.
pub proof fn creation_is_as_asked_for<J, E, B>(
    h: &mut FileTransferHandler<J, E, B>,
    job: i32,
    asked: String,
    task: FsTask,
)
    requires
        call_ensures(
            FileTransferHandler::<J, E, B>::handle_action,
            (h, &FileAction::Create { id: job, path: asked }),
            task,
        ),
    ensures
        final(h)@ == old(h)@,
        task matches FsTask::CreateDir { id, path } && id == job && same_place(asked@, path@),
{
    lemma_same_place(asked@);
}

/// What was named gets the name that was asked for, to the letter.
pub proof fn renaming_is_as_asked_for<J, E, B>(
    h: &mut FileTransferHandler<J, E, B>,
    job: i32,
    asked: String,
    name: String,
    task: FsTask,
)
    requires
        call_ensures(
            FileTransferHandler::<J, E, B>::handle_action,
            (h, &FileAction::Rename { id: job, path: asked, new_name: name }),
            task,
        ),
    ensures
        final(h)@ == old(h)@,
        task matches FsTask::Rename { id, path, new_name } && {
            &&& id == job
            &&& same_place(asked@, path@)
            &&& new_name@ == name@
        },
{
    lemma_same_place(asked@);
}

/// The files of the tree that was named are listed, hidden ones if and only
/// if they were asked for.
pub proof fn listing_of_a_tree_is_as_asked_for<J, E, B>(
    h: &mut FileTransferHandler<J, E, B>,
    job: i32,
    asked: String,
    hidden: bool,
    task: FsTask,
)
    requires
        call_ensures(
            FileTransferHandler::<J, E, B>::handle_action,
            (h, &FileAction::AllFiles { id: job, path: asked, include_hidden: hidden }),
            task,
        ),
    ensures
        final(h)@ == old(h)@,
        task matches FsTask::AllFiles { id, path, include_hidden } && {
            &&& id == job
            &&& same_place(asked@, path@)
            &&& include_hidden == hidden
        },
{
    lemma_same_place(asked@);
}

/// A job that is cancelled is gone, whichever way it went; nothing is asked
/// of the file system, and other jobs and waiting answers stay.
pub proof fn cancelled_job_ends<J, E, B>(
    h: &mut FileTransferHandler<J, E, B>,
    job: i32,
    other: i32,
    task: FsTask,
)
    requires
        call_ensures(
            FileTransferHandler::<J, E, B>::handle_action,
            (h, &FileAction::Cancel { id: job }),
            task,
        ),
    ensures
        task is Nothing,
        !final(h)@.send.contains_key(job),
        !final(h)@.recv.contains_key(job),
        final(h)@.queue == old(h)@.queue,
        other != job ==> {
            &&& final(h)@.send.contains_key(other) == old(h)@.send.contains_key(other)
            &&& final(h)@.recv.contains_key(other) == old(h)@.recv.contains_key(other)
            &&& final(h)@.send[other] == old(h)@.send[other]
            &&& final(h)@.recv[other] == old(h)@.recv[other]
        },
{
}

/// A confirmation, and a request that is not served, asks for nothing.
pub proof fn other_requests_do_nothing<J, E, B>(
    h: &mut FileTransferHandler<J, E, B>,
    action: FileAction,
    task: FsTask,
)
    requires
        call_ensures(FileTransferHandler::<J, E, B>::handle_action, (h, &action), task),
        action is SendConfirm || action is Other,
    ensures
        task is Nothing,
        final(h)@ == old(h)@,
{
}

// ---------------------------------------------------------------- answers
/// A failure is answered with its message, under the numbers of the request;
/// where the request has none, minus one stands for them. No job starts, and
/// none ends.
pub proof fn failure_is_answered<J, E, B>(
    h: &mut FileTransferHandler<J, E, B>,
    task: FsTask,
    message: String,
)
    requires
        call_ensures(
            FileTransferHandler::<J, E, B>::complete,
            (h, task, FsOutcome::Failed(message)),
            (),
        ),
        !(task is Nothing),
    ensures
        final(h)@.send == old(h)@.send,
        final(h)@.recv == old(h)@.recv,
        final(h)@.queue.len() == old(h)@.queue.len() + 1,
        final(h)@.queue.drop_last() == old(h)@.queue,
        final(h)@.queue.last() matches Reply::Error { id, file_num, error } && {
            &&& error == message@
            &&& match task {
                FsTask::ReadDir { .. } => id == -1 && file_num == -1,
                FsTask::StartSend { id: i, file_num: n, .. } => id == i && file_num == n,
                FsTask::StartReceive { id: i, file_num: n, .. } => id == i && file_num == n,
                FsTask::RemoveFile { id: i, file_num: n, .. } => id == i && file_num == n,
                FsTask::RemoveDir { id: i, .. } => id == i && file_num == -1,
                FsTask::CreateDir { id: i, .. } => id == i && file_num == -1,
                FsTask::Rename { id: i, .. } => id == i && file_num == -1,
                FsTask::AllFiles { id: i, .. } => id == i && file_num == -1,
                FsTask::Nothing => false,
            }
        },
{
    assert(final(h)@.queue.drop_last() =~= old(h)@.queue);
}

/// What was found is answered: a listing under the path that the peer wrote,
/// the files of a tree under the number and the path of the request.
pub proof fn content_is_answered<J, E, B>(
    h: &mut FileTransferHandler<J, E, B>,
    task: FsTask,
    found: E,
)
    requires
        call_ensures(
            FileTransferHandler::<J, E, B>::complete,
            (h, task, FsOutcome::Content(found)),
            (),
        ),
        task is ReadDir || task is AllFiles,
    ensures
        final(h)@.send == old(h)@.send,
        final(h)@.recv == old(h)@.recv,
        final(h)@.queue.len() == old(h)@.queue.len() + 1,
        final(h)@.queue.drop_last() == old(h)@.queue,
        task matches FsTask::ReadDir { reply_path, .. } ==> final(h)@.queue.last() == (Reply::<
            E,
            B,
        >::Listing { path: reply_path@, content: found }),
        task matches FsTask::AllFiles { id, path, .. } ==> final(h)@.queue.last() == (Reply::<
            E,
            B,
        >::Files { id, path: path@, content: found }),
{
    assert(final(h)@.queue.drop_last() =~= old(h)@.queue);
}

/// What was removed, created or renamed is answered with its path: the one of
/// the request, or the new one.
pub proof fn change_is_answered<J, E, B>(
    h: &mut FileTransferHandler<J, E, B>,
    task: FsTask,
    outcome: FsOutcome<J, E>,
)
    requires
        call_ensures(FileTransferHandler::<J, E, B>::complete, (h, task, outcome), ()),
        outcome is Renamed || (outcome is Done && (task is RemoveDir || task is RemoveFile
            || task is CreateDir)),
    ensures
        final(h)@.send == old(h)@.send,
        final(h)@.recv == old(h)@.recv,
        final(h)@.queue.len() == old(h)@.queue.len() + 1,
        final(h)@.queue.drop_last() == old(h)@.queue,
        final(h)@.queue.last() matches Reply::Touched { path } && {
            &&& outcome matches FsOutcome::Renamed(new) ==> path == new@
            &&& outcome is Done ==> match task {
                FsTask::RemoveDir { path: p, .. } => path == p@,
                FsTask::RemoveFile { path: p, .. } => path == p@,
                FsTask::CreateDir { path: p, .. } => path == p@,
                _ => false,
            }
        },
{
    assert(final(h)@.queue.drop_last() =~= old(h)@.queue);
}

/// A job that was set up runs under the number of the request, in its
/// direction, beside all others, and nothing is answered yet.
pub proof fn job_starts<J, E, B>(
    h: &mut FileTransferHandler<J, E, B>,
    task: FsTask,
    job: J,
    other: i32,
)
    requires
        call_ensures(FileTransferHandler::<J, E, B>::complete, (h, task, FsOutcome::Job(job)), ()),
        task is StartSend || task is StartReceive,
    ensures
        final(h)@.queue == old(h)@.queue,
        task matches FsTask::StartSend { id, .. } ==> {
            &&& final(h)@.recv == old(h)@.recv
            &&& final(h)@.send.contains_key(id) && final(h)@.send[id] == job
            &&& other != id ==> final(h)@.send.contains_key(other) == old(h)@.send.contains_key(
                other,
            ) && final(h)@.send[other] == old(h)@.send[other]
        },
        task matches FsTask::StartReceive { id, .. } ==> {
            &&& final(h)@.send == old(h)@.send
            &&& final(h)@.recv.contains_key(id) && final(h)@.recv[id] == job
            &&& other != id ==> final(h)@.recv.contains_key(other) == old(h)@.recv.contains_key(
                other,
            ) && final(h)@.recv[other] == old(h)@.recv[other]
        },
{
}

/// Answers go out in the order in which they came, each once, and sending
/// them touches no job.
pub proof fn answers_go_out_in_order<J, E, B>(
    h: &mut FileTransferHandler<J, E, B>,
    r: Option<FileReply<E, B>>,
)
    requires
        call_ensures(FileTransferHandler::<J, E, B>::try_recv_response, (h,), r),
    ensures
        final(h)@.send == old(h)@.send,
        final(h)@.recv == old(h)@.recv,
        r is None <==> old(h)@.queue.len() == 0,
        r is None ==> final(h)@.queue.len() == 0,
        r matches Some(reply) ==> old(h)@.queue == seq![reply@] + final(h)@.queue,
        // what goes out is what waited, in every part
        r matches Some(FileReply::Listing { path, content }) ==> old(h)@.queue[0] == (Reply::<
            E,
            B,
        >::Listing { path: path@, content }),
        r matches Some(FileReply::Touched { path }) ==> old(h)@.queue[0] == (Reply::<
            E,
            B,
        >::Touched { path: path@ }),
        r matches Some(FileReply::Files { id, path, content }) ==> old(h)@.queue[0] == (Reply::<
            E,
            B,
        >::Files { id, path: path@, content }),
        r matches Some(FileReply::Block(block)) ==> old(h)@.queue[0] == Reply::<E, B>::Block(
            block,
        ),
        r matches Some(FileReply::Done { id, file_num }) ==> old(h)@.queue[0] == (Reply::<
            E,
            B,
        >::Done { id, file_num }),
        r matches Some(FileReply::Error { id, file_num, error }) ==> old(h)@.queue[0] == (Reply::<
            E,
            B,
        >::Error { id, file_num, error: error@ }),
{
    if r is Some {
        assert(old(h)@.queue =~= seq![r->0@] + final(h)@.queue);
    }
}

// ---------------------------------------------------------------- blocks
/// A block that was written brings the job back; one that was not ends it,
/// with an answer under the numbers of the block.
pub proof fn written_block_keeps_the_job<J, E, B>(
    h: &mut FileTransferHandler<J, E, B>,
    id: i32,
    file_num: i32,
    job: J,
    written: Result<(), String>,
    other: i32,
)
    requires
        call_ensures(
            FileTransferHandler::<J, E, B>::handle_data,
            (h, id, file_num, job, written),
            (),
        ),
    ensures
        final(h)@.send == old(h)@.send,
        other != id ==> {
            &&& final(h)@.recv.contains_key(other) == old(h)@.recv.contains_key(other)
            &&& final(h)@.recv[other] == old(h)@.recv[other]
        },
        written is Ok ==> {
            &&& final(h)@.recv.contains_key(id) && final(h)@.recv[id] == job
            &&& final(h)@.queue == old(h)@.queue
        },
        written matches Err(message) ==> {
            &&& final(h)@.recv == old(h)@.recv
            &&& final(h)@.queue == old(h)@.queue.push(
                Reply::Error { id, file_num, error: message@ },
            )
        },
{
}

/// A job that is lent out is the one under the number, and it is not there
/// until it comes back.
pub proof fn job_is_lent_out<J, E, B>(
    h: &mut FileTransferHandler<J, E, B>,
    id: i32,
    r: Option<J>,
    other: i32,
    receives: bool,
)
    requires
        receives ==> call_ensures(FileTransferHandler::<J, E, B>::receiving, (h, id), r)
            || call_ensures(FileTransferHandler::<J, E, B>::handle_error, (h, id), r),
        !receives ==> call_ensures(FileTransferHandler::<J, E, B>::sending, (h, id), r),
    ensures
        final(h)@.queue == old(h)@.queue,
        receives ==> {
            &&& final(h)@.send == old(h)@.send
            &&& r is Some <==> old(h)@.recv.contains_key(id)
            &&& r matches Some(job) ==> job == old(h)@.recv[id]
            &&& !final(h)@.recv.contains_key(id)
            &&& other != id ==> final(h)@.recv.contains_key(other) == old(h)@.recv.contains_key(
                other,
            ) && final(h)@.recv[other] == old(h)@.recv[other]
        },
        !receives ==> {
            &&& final(h)@.recv == old(h)@.recv
            &&& r is Some <==> old(h)@.send.contains_key(id)
            &&& r matches Some(job) ==> job == old(h)@.send[id]
            &&& !final(h)@.send.contains_key(id)
            &&& other != id ==> final(h)@.send.contains_key(other) == old(h)@.send.contains_key(
                other,
            ) && final(h)@.send[other] == old(h)@.send[other]
        },
{
}

/// The end of a file is confirmed under the numbers that the peer gave, if a
/// job receives it, and that job is over.
pub proof fn end_of_a_file_is_confirmed<J, E, B>(
    h: &mut FileTransferHandler<J, E, B>,
    id: i32,
    file_num: i32,
    r: Option<J>,
    other: i32,
)
    requires
        call_ensures(FileTransferHandler::<J, E, B>::handle_done, (h, id, file_num), r),
    ensures
        final(h)@.send == old(h)@.send,
        !final(h)@.recv.contains_key(id),
        r is Some <==> old(h)@.recv.contains_key(id),
        r matches Some(job) ==> {
            &&& job == old(h)@.recv[id]
            &&& final(h)@.queue == old(h)@.queue.push(Reply::Done { id, file_num })
        },
        r is None ==> final(h)@ == old(h)@,
        other != id ==> {
            &&& final(h)@.recv.contains_key(other) == old(h)@.recv.contains_key(other)
            &&& final(h)@.recv[other] == old(h)@.recv[other]
        },
{
}

/// A job that sends files sends each block that it has read, ends with a
/// confirmation when it is complete and with the message when it has failed,
/// and otherwise waits.
pub proof fn file_is_sent_block_by_block<J, E, B>(
    h: &mut FileTransferHandler<J, E, B>,
    id: i32,
    job: J,
    read: SendOutcome<B>,
)
    requires
        call_ensures(FileTransferHandler::<J, E, B>::process_send_job, (h, id, job, read), ()),
    ensures
        final(h)@.recv == old(h)@.recv,
        match read {
            SendOutcome::Block(block) => {
                &&& final(h)@.queue == old(h)@.queue.push(Reply::Block(block))
                &&& final(h)@.send == old(h)@.send.insert(id, job)
            },
            SendOutcome::Idle(false) => {
                &&& final(h)@.queue == old(h)@.queue
                &&& final(h)@.send == old(h)@.send.insert(id, job)
            },
            SendOutcome::Idle(true) => {
                &&& final(h)@.queue == old(h)@.queue.push(Reply::Done { id, file_num: (-1) as i32 })
                &&& final(h)@.send == old(h)@.send
            },
            SendOutcome::Failed(message) => {
                &&& final(h)@.queue == old(h)@.queue.push(
                    Reply::Error { id, file_num: (-1) as i32, error: message@ },
                )
                &&& final(h)@.send == old(h)@.send
            },
        },
{
}

/// Every job that sends files is moved on in a round, and each once.
pub proof fn no_job_is_forgotten<J, E, B>(
    h: &FileTransferHandler<J, E, B>,
    r: Vec<i32>,
    id: i32,
)
    requires
        call_ensures(FileTransferHandler::<J, E, B>::poll_send_jobs, (h,), r),
    ensures
        r@.contains(id) <==> h@.send.contains_key(id),
        forall|i: int, j: int| 0 <= i < j < r@.len() ==> r@[i] != r@[j],
{
    assert(r@.to_set().contains(id) <==> r@.contains(id));
}

/// Whether any job sends files.
pub proof fn jobs_that_send_are_known<J, E, B>(h: &FileTransferHandler<J, E, B>, r: bool)
    requires
        call_ensures(FileTransferHandler::<J, E, B>::has_send_jobs, (h,), r),
    ensures
        r <==> exists|id: i32| #[trigger] h@.send.contains_key(id),
{
    if r {
        if forall|id: i32| !#[trigger] h@.send.contains_key(id) {
            assert(h@.send =~= Map::<i32, J>::empty());
        }
    }
}

/// A handler begins with no jobs and no answers.
pub proof fn transfers_begin_empty<J, E, B>(r: FileTransferHandler<J, E, B>, id: i32)
    requires
        call_ensures(FileTransferHandler::<J, E, B>::new, (), r),
    ensures
        !r@.send.contains_key(id),
        !r@.recv.contains_key(id),
        r@.queue.len() == 0,
{
}

/// What a peer says of the files that it has changes nothing.
pub proof fn digest_changes_nothing<J, E, B>(h: &mut FileTransferHandler<J, E, B>)
    requires
        call_ensures(FileTransferHandler::<J, E, B>::handle_digest, (h,), ()),
    ensures
        final(h)@ == old(h)@,
{
}

} // verus!
