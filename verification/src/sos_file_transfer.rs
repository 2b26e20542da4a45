//! File transfer: what each request asks of the file system, which jobs are
//! under way, and what is answered.
//!
//! A job is a value of the caller's, who moves its bytes; the handler keeps
//! it under its number, and lends it out for one step at a time.

use std::collections::{HashMap, VecDeque};
use vstd::prelude::*;

use crate::text::is_ascii_letter;

verus! {

// ---------------------------------------------------------------- paths
/// Whether a path has the form `/X:...`, with a drive letter.
pub open spec fn is_drive_path(path: Seq<char>) -> bool {
    path.len() >= 3 && path[0] == '/' && is_ascii_letter(path[1]) && path[2] == ':'
}

/// A text without its leading slashes.
pub open spec fn trim_slashes(s: Seq<char>) -> Seq<char>
    decreases s.len(),
{
    if s.len() > 0 && s[0] == '/' {
        trim_slashes(s.skip(1))
    } else {
        s
    }
}

/// The Windows form of a path: `/X:...` becomes `X:\...`, any other path
/// stays.
pub open spec fn normalized(path: Seq<char>) -> Seq<char> {
    if is_drive_path(path) {
        seq![path[1], ':', '\\'] + trim_slashes(path.skip(3))
    } else {
        path
    }
}

/// The Windows form of a path.
pub fn normalize_path(path: &str) -> (r: String)
    ensures
        r@ == normalized(path@),
{
    let n: usize = path.unicode_len();
    if n < 3 || path.get_char(0) != '/' || path.get_char(2) != ':' {
        return String::from_str(path);
    }
    let drive: char = path.get_char(1);
    if !(('a' <= drive && drive <= 'z') || ('A' <= drive && drive <= 'Z')) {
        return String::from_str(path);
    }
    let mut i: usize = 3;
    proof {
        assert(path@.skip(3) =~= path@.skip(i as int));
    }
    while i < n && path.get_char(i) == '/'
        invariant
            n == path@.len(),
            3 <= i <= n,
            trim_slashes(path@.skip(3)) == trim_slashes(path@.skip(i as int)),
        decreases n - i,
    {
        proof {
            assert(path@.skip(i as int).skip(1) =~= path@.skip(i + 1));
        }
        i = i + 1;
    }
    let mut r: String = String::new();
    r.push(drive);
    r.push(':');
    r.push('\\');
    r.append(path.substring_char(i, n));
    proof {
        assert(path@.subrange(i as int, n as int) =~= path@.skip(i as int));
        assert(r@ =~= seq![drive, ':', '\\'] + path@.skip(i as int));
    }
    r
}

/// The Windows form of a path is final: taking it again changes nothing.
pub proof fn normalized_is_final(path: Seq<char>)
    ensures
        normalized(normalized(path)) == normalized(path),
{
}

// ---------------------------------------------------------------- messages
/// A request of the peer that concerns files.
#[derive(Debug, PartialEq, Eq)]
pub enum FileAction {
    ReadDir { path: String, include_hidden: bool },
    ReadEmptyDirs { path: String, include_hidden: bool },
    Send { id: i32, path: String, file_num: i32, include_hidden: bool },
    Receive { id: i32, path: String, file_num: i32 },
    Cancel { id: i32 },
    RemoveDir { id: i32, path: String, recursive: bool },
    RemoveFile { id: i32, path: String, file_num: i32 },
    Create { id: i32, path: String },
    Rename { id: i32, path: String, new_name: String },
    AllFiles { id: i32, path: String, include_hidden: bool },
    SendConfirm,
    /// A request that is not served, or an empty one.
    Other,
}

/// What a request asks of the file system.
#[derive(Debug, PartialEq, Eq)]
pub enum FsTask {
    /// Nothing.
    Nothing,
    /// List a directory, the home directory if `path` is empty, and answer
    /// under `reply_path`.
    ReadDir { path: String, include_hidden: bool, reply_path: String },
    /// Set up a job that reads files.
    StartSend { id: i32, path: String, file_num: i32, include_hidden: bool },
    /// Set up a job that writes files.
    StartReceive { id: i32, path: String, file_num: i32 },
    RemoveDir { id: i32, path: String, recursive: bool },
    RemoveFile { id: i32, path: String, file_num: i32 },
    CreateDir { id: i32, path: String },
    /// Rename within the parent directory.
    Rename { id: i32, path: String, new_name: String },
    /// List the files of a whole tree.
    AllFiles { id: i32, path: String, include_hidden: bool },
}

/// What a request asks of the file system, in the model.
pub ghost enum Task {
    Nothing,
    ReadDir { path: Seq<char>, include_hidden: bool, reply_path: Seq<char> },
    StartSend { id: i32, path: Seq<char>, file_num: i32, include_hidden: bool },
    StartReceive { id: i32, path: Seq<char>, file_num: i32 },
    RemoveDir { id: i32, path: Seq<char>, recursive: bool },
    RemoveFile { id: i32, path: Seq<char>, file_num: i32 },
    CreateDir { id: i32, path: Seq<char> },
    Rename { id: i32, path: Seq<char>, new_name: Seq<char> },
    AllFiles { id: i32, path: Seq<char>, include_hidden: bool },
}

impl View for FsTask {
    type V = Task;

    open spec fn view(&self) -> Task {
        match *self {
            FsTask::Nothing => Task::Nothing,
            FsTask::ReadDir { path, include_hidden, reply_path } => Task::ReadDir {
                path: path@,
                include_hidden,
                reply_path: reply_path@,
            },
            FsTask::StartSend { id, path, file_num, include_hidden } => Task::StartSend {
                id,
                path: path@,
                file_num,
                include_hidden,
            },
            FsTask::StartReceive { id, path, file_num } => Task::StartReceive {
                id,
                path: path@,
                file_num,
            },
            FsTask::RemoveDir { id, path, recursive } => Task::RemoveDir {
                id,
                path: path@,
                recursive,
            },
            FsTask::RemoveFile { id, path, file_num } => Task::RemoveFile {
                id,
                path: path@,
                file_num,
            },
            FsTask::CreateDir { id, path } => Task::CreateDir { id, path: path@ },
            FsTask::Rename { id, path, new_name } => Task::Rename {
                id,
                path: path@,
                new_name: new_name@,
            },
            FsTask::AllFiles { id, path, include_hidden } => Task::AllFiles {
                id,
                path: path@,
                include_hidden,
            },
        }
    }
}

/// What a request asks of the file system: every path in its Windows form,
/// and the answer to a listing under the path as it was asked for.
pub open spec fn task_of(action: FileAction) -> Task {
    match action {
        FileAction::ReadDir { path, include_hidden } => Task::ReadDir {
            path: normalized(path@),
            include_hidden,
            reply_path: path@,
        },
        FileAction::ReadEmptyDirs { path, include_hidden } => Task::ReadDir {
            path: normalized(path@),
            include_hidden,
            reply_path: path@,
        },
        FileAction::Send { id, path, file_num, include_hidden } => Task::StartSend {
            id,
            path: normalized(path@),
            file_num,
            include_hidden,
        },
        FileAction::Receive { id, path, file_num } => Task::StartReceive {
            id,
            path: normalized(path@),
            file_num,
        },
        FileAction::Cancel { id } => Task::Nothing,
        FileAction::RemoveDir { id, path, recursive } => Task::RemoveDir {
            id,
            path: normalized(path@),
            recursive,
        },
        FileAction::RemoveFile { id, path, file_num } => Task::RemoveFile {
            id,
            path: normalized(path@),
            file_num,
        },
        FileAction::Create { id, path } => Task::CreateDir { id, path: normalized(path@) },
        FileAction::Rename { id, path, new_name } => Task::Rename {
            id,
            path: normalized(path@),
            new_name: new_name@,
        },
        FileAction::AllFiles { id, path, include_hidden } => Task::AllFiles {
            id,
            path: normalized(path@),
            include_hidden,
        },
        FileAction::SendConfirm => Task::Nothing,
        FileAction::Other => Task::Nothing,
    }
}

/// An answer to the peer. `E` is the content of a listing, `B` a block of a
/// file.
#[derive(Debug, PartialEq, Eq)]
pub enum FileReply<E, B> {
    /// The content of a directory that was asked for under this path.
    Listing { path: String, content: E },
    /// A directory or file that was removed, created or renamed.
    Touched { path: String },
    /// The files of a tree.
    Files { id: i32, path: String, content: E },
    Block(B),
    Done { id: i32, file_num: i32 },
    Error { id: i32, file_num: i32, error: String },
}

/// An answer to the peer, in the model.
pub ghost enum Reply<E, B> {
    Listing { path: Seq<char>, content: E },
    Touched { path: Seq<char> },
    Files { id: i32, path: Seq<char>, content: E },
    Block(B),
    Done { id: i32, file_num: i32 },
    Error { id: i32, file_num: i32, error: Seq<char> },
}

impl<E, B> View for FileReply<E, B> {
    type V = Reply<E, B>;

    open spec fn view(&self) -> Reply<E, B> {
        match *self {
            FileReply::Listing { path, content } => Reply::Listing { path: path@, content },
            FileReply::Touched { path } => Reply::Touched { path: path@ },
            FileReply::Files { id, path, content } => Reply::Files { id, path: path@, content },
            FileReply::Block(b) => Reply::Block(b),
            FileReply::Done { id, file_num } => Reply::Done { id, file_num },
            FileReply::Error { id, file_num, error } => Reply::Error {
                id,
                file_num,
                error: error@,
            },
        }
    }
}

/// How a task on the file system went.
#[derive(Debug, PartialEq, Eq)]
pub enum FsOutcome<J, E> {
    /// It failed, with this message.
    Failed(String),
    /// It was done.
    Done,
    /// It was done, and the file has this path now.
    Renamed(String),
    /// It gave the content of a directory, or the files of a tree.
    Content(E),
    /// It gave a job.
    Job(J),
}

/// How reading for a job went.
#[derive(Debug, PartialEq, Eq)]
pub enum SendOutcome<B> {
    /// It failed, with this message.
    Failed(String),
    /// It gave a block.
    Block(B),
    /// There is nothing to send now; whether the job is complete.
    Idle(bool),
}

// ---------------------------------------------------------------- handler
/// The jobs under way and the answers not sent yet, in the model.
#[verifier::ext_equal]
pub ghost struct Transfers<J, E, B> {
    pub send: Map<i32, J>,
    pub recv: Map<i32, J>,
    pub queue: Seq<Reply<E, B>>,
}

impl<J, E, B> Transfers<J, E, B> {
    /// With one more answer at the end.
    pub open spec fn answer(self, reply: Reply<E, B>) -> Self {
        Transfers { queue: self.queue.push(reply), ..self }
    }

    /// After a request: only a cancellation changes anything by itself, and
    /// it drops the job, whichever way it goes.
    pub open spec fn requested(self, action: FileAction) -> Self {
        match action {
            FileAction::Cancel { id } => Transfers {
                send: self.send.remove(id),
                recv: self.recv.remove(id),
                ..self
            },
            _ => self,
        }
    }

    /// Whether a task can come out this way.
    pub open spec fn possible(task: Task, outcome: FsOutcome<J, E>) -> bool {
        match task {
            Task::Nothing => false,
            Task::ReadDir { .. } => outcome is Failed || outcome is Content,
            Task::AllFiles { .. } => outcome is Failed || outcome is Content,
            Task::StartSend { .. } => outcome is Failed || outcome is Job,
            Task::StartReceive { .. } => outcome is Failed || outcome is Job,
            Task::Rename { .. } => outcome is Failed || outcome is Renamed,
            _ => outcome is Failed || outcome is Done,
        }
    }

    /// After a task: a job starts without an answer, everything else is
    /// answered.
    pub open spec fn completed(self, task: Task, outcome: FsOutcome<J, E>) -> Self {
        match outcome {
            FsOutcome::Failed(error) => {
                let (id, file_num) = error_numbers(task);
                self.answer(Reply::Error { id, file_num, error: error@ })
            },
            FsOutcome::Done => self.answer(Reply::Touched { path: task_path(task) }),
            FsOutcome::Renamed(path) => self.answer(Reply::Touched { path: path@ }),
            FsOutcome::Content(content) => match task {
                Task::AllFiles { id, path, include_hidden } => self.answer(
                    Reply::Files { id, path, content },
                ),
                Task::ReadDir { path, include_hidden, reply_path } => self.answer(
                    Reply::Listing { path: reply_path, content },
                ),
                _ => self,
            },
            FsOutcome::Job(job) => match task {
                Task::StartSend { id, path, file_num, include_hidden } => Transfers {
                    send: self.send.insert(id, job),
                    ..self
                },
                Task::StartReceive { id, path, file_num } => Transfers {
                    recv: self.recv.insert(id, job),
                    ..self
                },
                _ => self,
            },
        }
    }
}

/// In place of a job number or a file number, where there is none.
pub const NO_NUMBER: i32 = -1;

/// The job number and the file number under which a failure is reported. A
/// listing has no numbers, and only a job and the removal of a file have a
/// file number.
pub open spec fn error_numbers(task: Task) -> (i32, i32) {
    match task {
        Task::Nothing => (NO_NUMBER, NO_NUMBER),
        Task::ReadDir { .. } => (NO_NUMBER, NO_NUMBER),
        Task::StartSend { id, path, file_num, include_hidden } => (id, file_num),
        Task::StartReceive { id, path, file_num } => (id, file_num),
        Task::RemoveDir { id, path, recursive } => (id, NO_NUMBER),
        Task::RemoveFile { id, path, file_num } => (id, file_num),
        Task::CreateDir { id, path } => (id, NO_NUMBER),
        Task::Rename { id, path, new_name } => (id, NO_NUMBER),
        Task::AllFiles { id, path, include_hidden } => (id, NO_NUMBER),
    }
}

/// The path of a task that removes or creates something.
pub open spec fn task_path(task: Task) -> Seq<char> {
    match task {
        Task::RemoveDir { id, path, recursive } => path,
        Task::RemoveFile { id, path, file_num } => path,
        Task::CreateDir { id, path } => path,
        _ => Seq::empty(),
    }
}

/// The file transfers of one connection.
#[verifier::reject_recursive_types(J)]
#[verifier::reject_recursive_types(E)]
#[verifier::reject_recursive_types(B)]
pub struct FileTransferHandler<J, E, B> {
    send_jobs: HashMap<i32, J>,
    recv_jobs: HashMap<i32, J>,
    responses: VecDeque<FileReply<E, B>>,
}

impl<J, E, B> View for FileTransferHandler<J, E, B> {
    type V = Transfers<J, E, B>;

    closed spec fn view(&self) -> Transfers<J, E, B> {
        Transfers {
            send: self.send_jobs@,
            recv: self.recv_jobs@,
            queue: self.responses@.map_values(|r: FileReply<E, B>| r@),
        }
    }
}

impl<J, E, B> FileTransferHandler<J, E, B> {
    /// No jobs, no answers.
    pub fn new() -> (r: Self)
        ensures
            r@ == (Transfers::<J, E, B> {
                send: Map::empty(),
                recv: Map::empty(),
                queue: Seq::empty(),
            }),
    {
        broadcast use vstd::std_specs::hash::group_hash_axioms;

        let r: FileTransferHandler<J, E, B> = FileTransferHandler {
            send_jobs: HashMap::new(),
            recv_jobs: HashMap::new(),
            responses: VecDeque::new(),
        };
        proof {
            assert(r@.queue =~= Seq::<Reply<E, B>>::empty());
        }
        r
    }

    /// The oldest answer not sent yet.
    pub fn try_recv_response(&mut self) -> (r: Option<FileReply<E, B>>)
        ensures
            final(self)@.send == old(self)@.send,
            final(self)@.recv == old(self)@.recv,
            match r {
                None => old(self)@.queue.len() == 0 && final(self)@.queue.len() == 0,
                Some(reply) => {
                    &&& old(self)@.queue.len() > 0
                    &&& reply@ == old(self)@.queue.first()
                    &&& final(self)@.queue == old(self)@.queue.drop_first()
                },
            },
    {
        let r: Option<FileReply<E, B>> = self.responses.pop_front();
        proof {
            if r is Some {
                assert(self@.queue =~= old(self)@.queue.drop_first());
            }
        }
        r
    }

    /// Whether any job sends files.
    pub fn has_send_jobs(&self) -> (r: bool)
        ensures
            r == (self@.send != Map::<i32, J>::empty()),
    {
        broadcast use vstd::std_specs::hash::group_hash_axioms;

        proof {
            if self.send_jobs@.len() == 0 {
                assert(self.send_jobs@.dom() =~= Set::empty());
                assert(self.send_jobs@ =~= Map::<i32, J>::empty());
            }
        }
        !self.send_jobs.is_empty()
    }

    /// Puts an answer at the end.
    fn answer(&mut self, reply: FileReply<E, B>)
        ensures
            final(self)@ == old(self)@.answer(reply@),
    {
        self.responses.push_back(reply);
        proof {
            assert(self@.queue =~= old(self)@.queue.push(reply@));
        }
    }

    /// Takes a request, and says what it asks of the file system.
    pub fn handle_action(&mut self, action: &FileAction) -> (r: FsTask)
        ensures
            r@ == task_of(*action),
            final(self)@ == old(self)@.requested(*action),
    {
        broadcast use vstd::std_specs::hash::group_hash_axioms;

        match action {
            FileAction::ReadDir { path, include_hidden } => FsTask::ReadDir {
                path: normalize_path(path.as_str()),
                include_hidden: *include_hidden,
                reply_path: path.clone(),
            },
            FileAction::ReadEmptyDirs { path, include_hidden } => FsTask::ReadDir {
                path: normalize_path(path.as_str()),
                include_hidden: *include_hidden,
                reply_path: path.clone(),
            },
            FileAction::Send { id, path, file_num, include_hidden } => FsTask::StartSend {
                id: *id,
                path: normalize_path(path.as_str()),
                file_num: *file_num,
                include_hidden: *include_hidden,
            },
            FileAction::Receive { id, path, file_num } => FsTask::StartReceive {
                id: *id,
                path: normalize_path(path.as_str()),
                file_num: *file_num,
            },
            FileAction::Cancel { id } => {
                self.send_jobs.remove(id);
                self.recv_jobs.remove(id);
                proof {
                    assert(self@.queue =~= old(self)@.queue);
                }
                FsTask::Nothing
            },
            FileAction::RemoveDir { id, path, recursive } => FsTask::RemoveDir {
                id: *id,
                path: normalize_path(path.as_str()),
                recursive: *recursive,
            },
            FileAction::RemoveFile { id, path, file_num } => FsTask::RemoveFile {
                id: *id,
                path: normalize_path(path.as_str()),
                file_num: *file_num,
            },
            FileAction::Create { id, path } => FsTask::CreateDir {
                id: *id,
                path: normalize_path(path.as_str()),
            },
            FileAction::Rename { id, path, new_name } => FsTask::Rename {
                id: *id,
                path: normalize_path(path.as_str()),
                new_name: new_name.clone(),
            },
            FileAction::AllFiles { id, path, include_hidden } => FsTask::AllFiles {
                id: *id,
                path: normalize_path(path.as_str()),
                include_hidden: *include_hidden,
            },
            FileAction::SendConfirm => FsTask::Nothing,
            FileAction::Other => FsTask::Nothing,
        }
    }

    /// Takes how a task went: starts its job, or answers.
    pub fn complete(&mut self, task: FsTask, outcome: FsOutcome<J, E>)
        requires
            Transfers::<J, E, B>::possible(task@, outcome),
        ensures
            final(self)@ == old(self)@.completed(task@, outcome),
    {
        broadcast use vstd::std_specs::hash::group_hash_axioms;

        match outcome {
            FsOutcome::Failed(error) => {
                let (id, file_num): (i32, i32) = match task {
                    FsTask::Nothing => (NO_NUMBER, NO_NUMBER),
                    FsTask::ReadDir { .. } => (NO_NUMBER, NO_NUMBER),
                    FsTask::StartSend { id, file_num, .. } => (id, file_num),
                    FsTask::StartReceive { id, file_num, .. } => (id, file_num),
                    FsTask::RemoveDir { id, .. } => (id, NO_NUMBER),
                    FsTask::RemoveFile { id, file_num, .. } => (id, file_num),
                    FsTask::CreateDir { id, .. } => (id, NO_NUMBER),
                    FsTask::Rename { id, .. } => (id, NO_NUMBER),
                    FsTask::AllFiles { id, .. } => (id, NO_NUMBER),
                };
                self.answer(FileReply::Error { id, file_num, error });
            },
            FsOutcome::Done => match task {
                FsTask::RemoveDir { path, .. } => self.answer(FileReply::Touched { path }),
                FsTask::RemoveFile { path, .. } => self.answer(FileReply::Touched { path }),
                FsTask::CreateDir { path, .. } => self.answer(FileReply::Touched { path }),
                _ => {},
            },
            FsOutcome::Renamed(path) => self.answer(FileReply::Touched { path }),
            FsOutcome::Content(content) => match task {
                FsTask::ReadDir { reply_path, .. } => self.answer(
                    FileReply::Listing { path: reply_path, content },
                ),
                FsTask::AllFiles { id, path, .. } => self.answer(
                    FileReply::Files { id, path, content },
                ),
                _ => {},
            },
            FsOutcome::Job(job) => match task {
                FsTask::StartSend { id, .. } => {
                    self.send_jobs.insert(id, job);
                },
                FsTask::StartReceive { id, .. } => {
                    self.recv_jobs.insert(id, job);
                },
                _ => {},
            },
        }
    }

    /// Lends out the job that a block of the peer belongs to, if there is
    /// one; `handle_data` gives it back.
    pub fn receiving(&mut self, id: i32) -> (r: Option<J>)
        ensures
            r == (if old(self)@.recv.contains_key(id) {
                Some(old(self)@.recv[id])
            } else {
                None
            }),
            final(self)@ == (Transfers { recv: old(self)@.recv.remove(id), ..old(self)@ }),
    {
        broadcast use vstd::std_specs::hash::group_hash_axioms;

        let r: Option<J> = self.recv_jobs.remove(&id);
        proof {
            if r is None {
                assert(old(self)@.recv.remove(id) =~= old(self)@.recv);
            }
            assert(self@.recv =~= old(self)@.recv.remove(id));
            assert(self@.queue =~= old(self)@.queue);
        }
        r
    }

    /// Takes back a job with the outcome of writing a block: the job goes on,
    /// or a failure is answered and the job is gone.
    pub fn handle_data(&mut self, id: i32, file_num: i32, job: J, written: Result<(), String>)
        ensures
            match written {
                Ok(()) => final(self)@ == (Transfers {
                    recv: old(self)@.recv.insert(id, job),
                    ..old(self)@
                }),
                Err(error) => final(self)@ == old(self)@.answer(
                    Reply::Error { id, file_num, error: error@ },
                ),
            },
    {
        broadcast use vstd::std_specs::hash::group_hash_axioms;

        match written {
            Ok(()) => {
                self.recv_jobs.insert(id, job);
                proof {
                    assert(self@.queue =~= old(self)@.queue);
                }
            },
            Err(error) => {
                self.answer(FileReply::Error { id, file_num, error });
            },
        }
    }

    /// The peer has sent everything: ends the job and confirms. The caller
    /// gives the downloaded file its final name.
    pub fn handle_done(&mut self, id: i32, file_num: i32) -> (r: Option<J>)
        ensures
            if old(self)@.recv.contains_key(id) {
                &&& r == Some(old(self)@.recv[id])
                &&& final(self)@ == (Transfers {
                    recv: old(self)@.recv.remove(id),
                    ..old(self)@
                }).answer(Reply::Done { id, file_num })
            } else {
                &&& r is None
                &&& final(self)@ == old(self)@
            },
    {
        let r: Option<J> = self.receiving(id);
        if r.is_some() {
            self.answer(FileReply::Done { id, file_num });
        } else {
            proof {
                assert(old(self)@.recv.remove(id) =~= old(self)@.recv);
            }
        }
        r
    }

    /// The peer has failed: ends the job without an answer. The caller
    /// removes the partial download.
    pub fn handle_error(&mut self, id: i32) -> (r: Option<J>)
        ensures
            r == (if old(self)@.recv.contains_key(id) {
                Some(old(self)@.recv[id])
            } else {
                None
            }),
            final(self)@ == (Transfers { recv: old(self)@.recv.remove(id), ..old(self)@ }),
    {
        self.receiving(id)
    }

    /// Takes the digest of a file that the peer has. It is not looked at, so
    /// whether a file would be overwritten is not found out.
    pub fn handle_digest(&mut self)
        ensures
            final(self)@ == old(self)@,
    {
    }

    /// The jobs that send files, in some order, each once.
    pub fn poll_send_jobs(&self) -> (r: Vec<i32>)
        ensures
            r@.no_duplicates(),
            r@.to_set() == self@.send.dom(),
    {
        broadcast use vstd::std_specs::hash::group_hash_axioms;

        let mut ids: Vec<i32> = Vec::new();
        for id in iter: self.send_jobs.keys()
            invariant
                iter.seq().unref().no_duplicates(),
                iter.seq().unref().to_set() == self.send_jobs@.dom(),
                ids@ == iter.seq().unref().take(iter.index() as int),
                iter.seq().unref().take(iter.seq().len() as int) =~= iter.seq().unref(),
        {
            ids.push(*id);
        }
        ids
    }

    /// Lends out a job that sends files; `process_send_job` gives it back.
    pub fn sending(&mut self, id: i32) -> (r: Option<J>)
        ensures
            r == (if old(self)@.send.contains_key(id) {
                Some(old(self)@.send[id])
            } else {
                None
            }),
            final(self)@ == (Transfers { send: old(self)@.send.remove(id), ..old(self)@ }),
    {
        broadcast use vstd::std_specs::hash::group_hash_axioms;

        let r: Option<J> = self.send_jobs.remove(&id);
        proof {
            if r is None {
                assert(old(self)@.send.remove(id) =~= old(self)@.send);
            }
            assert(self@.send =~= old(self)@.send.remove(id));
            assert(self@.queue =~= old(self)@.queue);
        }
        r
    }

    /// Takes back a job with the outcome of reading for it: a block is sent
    /// on; a failure and the end are answered, and the job is gone.
    pub fn process_send_job(&mut self, id: i32, job: J, read: SendOutcome<B>)
        ensures
            match read {
                SendOutcome::Failed(error) => final(self)@ == old(self)@.answer(
                    Reply::Error { id, file_num: NO_NUMBER, error: error@ },
                ),
                SendOutcome::Block(block) => final(self)@ == (Transfers {
                    send: old(self)@.send.insert(id, job),
                    ..old(self)@
                }).answer(Reply::Block(block)),
                SendOutcome::Idle(completed) => final(self)@ == (if completed {
                    old(self)@.answer(Reply::Done { id, file_num: NO_NUMBER })
                } else {
                    Transfers { send: old(self)@.send.insert(id, job), ..old(self)@ }
                }),
            },
    {
        broadcast use vstd::std_specs::hash::group_hash_axioms;

        match read {
            SendOutcome::Failed(error) => {
                self.answer(FileReply::Error { id, file_num: NO_NUMBER, error });
            },
            SendOutcome::Block(block) => {
                self.send_jobs.insert(id, job);
                proof {
                    assert(self@.queue =~= old(self)@.queue);
                }
                self.answer(FileReply::Block(block));
            },
            SendOutcome::Idle(completed) => {
                if completed {
                    self.answer(FileReply::Done { id, file_num: NO_NUMBER });
                } else {
                    self.send_jobs.insert(id, job);
                    proof {
                        assert(self@.queue =~= old(self)@.queue);
                    }
                }
            },
        }
    }
}

/// Every task is answered exactly once, behind what waits already, or starts
/// the job that it was for; no other job is touched.
pub proof fn every_task_is_answered<J, E, B>(
    before: Transfers<J, E, B>,
    task: Task,
    outcome: FsOutcome<J, E>,
)
    requires
        Transfers::<J, E, B>::possible(task, outcome),
    ensures
        ({
            let after = before.completed(task, outcome);
            match outcome {
                FsOutcome::Job(job) => {
                    let id = error_numbers(task).0;
                    &&& after.queue == before.queue
                    &&& task is StartSend ==> after.send == before.send.insert(id, job)
                        && after.recv == before.recv
                    &&& task is StartReceive ==> after.recv == before.recv.insert(id, job)
                        && after.send == before.send
                },
                _ => {
                    &&& after.queue.len() == before.queue.len() + 1
                    &&& after.queue.drop_last() == before.queue
                    &&& after.send == before.send
                    &&& after.recv == before.recv
                },
            }
        }),
{
    let after = before.completed(task, outcome);
    if !(outcome is Job) {
        assert(after.queue.drop_last() =~= before.queue);
    }
}

/// A job that was cancelled takes no more blocks and sends no more.
pub proof fn cancelled_job_is_gone<J, E, B>(before: Transfers<J, E, B>, id: i32, other: i32)
    ensures
        ({
            let after = before.requested(FileAction::Cancel { id });
            &&& !after.send.contains_key(id)
            &&& !after.recv.contains_key(id)
            &&& after.queue == before.queue
            &&& other != id ==> after.send.contains_key(other) == before.send.contains_key(other)
                && after.recv.contains_key(other) == before.recv.contains_key(other)
        }),
{
}

} // verus!
