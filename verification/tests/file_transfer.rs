use sos_client::sos_file_transfer::{
    normalize_path, FileAction, FileReply, FileTransferHandler, FsOutcome, FsTask, SendOutcome,
};

type Handler = FileTransferHandler<&'static str, Vec<u8>, u64>;

fn text(s: &str) -> String {
    s.to_string()
}

#[test]
fn drive_paths_become_windows_paths() {
    for (path, expected) in [
        ("/C:", "C:\\"),
        ("/C:/", "C:\\"),
        ("/c:/Users/me", "c:\\Users/me"),
        ("/D:///x", "D:\\x"),
        ("/C:x", "C:\\x"),
        ("/C:密", "C:\\密"),
    ] {
        assert_eq!(normalize_path(path), expected);
        assert_eq!(normalize_path(expected), expected);
    }
}

#[test]
fn other_paths_stay() {
    for path in ["", "/", "/C", "C:\\x", "C:/x", "/1:/x", "/密:/x", "//C:/x", "/home/me"] {
        assert_eq!(normalize_path(path), path);
    }
}

#[test]
fn listing_is_answered_under_the_path_that_was_asked_for() {
    let mut h: Handler = FileTransferHandler::new();
    let asked = FileAction::ReadDir { path: text("/C:/Desktop"), include_hidden: true };
    let task = h.handle_action(&asked);
    assert_eq!(
        task,
        FsTask::ReadDir {
            path: text("C:\\Desktop"),
            include_hidden: true,
            reply_path: text("/C:/Desktop"),
        }
    );
    h.complete(task, FsOutcome::Content(vec![1, 2]));
    assert_eq!(
        h.try_recv_response(),
        Some(FileReply::Listing { path: text("/C:/Desktop"), content: vec![1, 2] })
    );
    assert_eq!(h.try_recv_response(), None);
}

#[test]
fn empty_directories_are_listed_the_same_way() {
    let mut h: Handler = FileTransferHandler::new();
    let task = h.handle_action(&FileAction::ReadEmptyDirs { path: text(""), include_hidden: false });
    assert_eq!(
        task,
        FsTask::ReadDir { path: text(""), include_hidden: false, reply_path: text("") }
    );
    h.complete(task, FsOutcome::Failed(text("denied")));
    assert_eq!(
        h.try_recv_response(),
        Some(FileReply::Error { id: -1, file_num: -1, error: text("denied") })
    );
}

#[test]
fn removing_creating_and_renaming() {
    let mut h: Handler = FileTransferHandler::new();
    let task = h.handle_action(&FileAction::RemoveDir { id: 1, path: text("/C:/a"), recursive: true });
    assert_eq!(task, FsTask::RemoveDir { id: 1, path: text("C:\\a"), recursive: true });
    h.complete(task, FsOutcome::Done);
    let task = h.handle_action(&FileAction::RemoveFile { id: 2, path: text("/C:/b"), file_num: 7 });
    assert_eq!(task, FsTask::RemoveFile { id: 2, path: text("C:\\b"), file_num: 7 });
    h.complete(task, FsOutcome::Failed(text("busy")));
    let task = h.handle_action(&FileAction::Create { id: 3, path: text("/C:/c") });
    assert_eq!(task, FsTask::CreateDir { id: 3, path: text("C:\\c") });
    h.complete(task, FsOutcome::Failed(text("full")));
    let task = h.handle_action(&FileAction::Rename {
        id: 4,
        path: text("/C:/d"),
        new_name: text("e"),
    });
    assert_eq!(
        task,
        FsTask::Rename { id: 4, path: text("C:\\d"), new_name: text("e") }
    );
    h.complete(task, FsOutcome::Renamed(text("C:\\e")));
    let task = h.handle_action(&FileAction::AllFiles {
        id: 5,
        path: text("/C:/f"),
        include_hidden: true,
    });
    assert_eq!(
        task,
        FsTask::AllFiles { id: 5, path: text("C:\\f"), include_hidden: true }
    );
    h.complete(task, FsOutcome::Content(vec![9]));
    // the answers come in order
    assert_eq!(h.try_recv_response(), Some(FileReply::Touched { path: text("C:\\a") }));
    assert_eq!(
        h.try_recv_response(),
        Some(FileReply::Error { id: 2, file_num: 7, error: text("busy") })
    );
    assert_eq!(
        h.try_recv_response(),
        Some(FileReply::Error { id: 3, file_num: -1, error: text("full") })
    );
    assert_eq!(h.try_recv_response(), Some(FileReply::Touched { path: text("C:\\e") }));
    assert_eq!(
        h.try_recv_response(),
        Some(FileReply::Files { id: 5, path: text("C:\\f"), content: vec![9] })
    );
    assert_eq!(h.try_recv_response(), None);
}

#[test]
fn requests_that_ask_for_nothing() {
    let mut h: Handler = FileTransferHandler::new();
    assert_eq!(h.handle_action(&FileAction::SendConfirm), FsTask::Nothing);
    assert_eq!(h.handle_action(&FileAction::Other), FsTask::Nothing);
    h.handle_digest();
    assert_eq!(h.try_recv_response(), None);
}

fn start_sending(h: &mut Handler, id: i32, job: &'static str) {
    let task = h.handle_action(&FileAction::Send {
        id,
        path: text("/C:/s"),
        file_num: 0,
        include_hidden: false,
    });
    assert_eq!(
        task,
        FsTask::StartSend { id, path: text("C:\\s"), file_num: 0, include_hidden: false }
    );
    h.complete(task, FsOutcome::Job(job));
}

fn start_receiving(h: &mut Handler, id: i32, job: &'static str) {
    let task = h.handle_action(&FileAction::Receive { id, path: text("/C:/r"), file_num: 2 });
    assert_eq!(task, FsTask::StartReceive { id, path: text("C:\\r"), file_num: 2 });
    h.complete(task, FsOutcome::Job(job));
}

#[test]
fn sending_a_file() {
    let mut h: Handler = FileTransferHandler::new();
    assert!(!h.has_send_jobs());
    start_sending(&mut h, 3, "job");
    assert!(h.has_send_jobs());
    assert_eq!(h.poll_send_jobs(), vec![3]);
    let job = h.sending(3).unwrap();
    h.process_send_job(3, job, SendOutcome::Block(77));
    let job = h.sending(3).unwrap();
    h.process_send_job(3, job, SendOutcome::Idle(false));
    assert!(h.has_send_jobs());
    let job = h.sending(3).unwrap();
    h.process_send_job(3, job, SendOutcome::Idle(true));
    assert!(!h.has_send_jobs());
    assert_eq!(h.sending(3), None);
    assert_eq!(h.try_recv_response(), Some(FileReply::Block(77)));
    assert_eq!(h.try_recv_response(), Some(FileReply::Done { id: 3, file_num: -1 }));
    assert_eq!(h.try_recv_response(), None);
}

#[test]
fn sending_fails() {
    let mut h: Handler = FileTransferHandler::new();
    start_sending(&mut h, 1, "a");
    start_sending(&mut h, 2, "b");
    let mut ids = h.poll_send_jobs();
    ids.sort();
    assert_eq!(ids, vec![1, 2]);
    let job = h.sending(1).unwrap();
    assert_eq!(job, "a");
    h.process_send_job(1, job, SendOutcome::Failed(text("gone")));
    assert_eq!(h.poll_send_jobs(), vec![2]);
    assert_eq!(
        h.try_recv_response(),
        Some(FileReply::Error { id: 1, file_num: -1, error: text("gone") })
    );
    let task = FsTask::StartSend { id: 9, path: text("x"), file_num: 4, include_hidden: true };
    h.complete(task, FsOutcome::Failed(text("no such file")));
    assert_eq!(
        h.try_recv_response(),
        Some(FileReply::Error { id: 9, file_num: 4, error: text("no such file") })
    );
}

#[test]
fn receiving_a_file() {
    let mut h: Handler = FileTransferHandler::new();
    start_receiving(&mut h, 5, "job");
    assert!(!h.has_send_jobs());
    assert_eq!(h.receiving(6), None);
    let job = h.receiving(5).unwrap();
    h.handle_data(5, 2, job, Ok(()));
    assert_eq!(h.handle_done(5, 2), Some("job"));
    assert_eq!(h.handle_done(5, 2), None);
    assert_eq!(h.try_recv_response(), Some(FileReply::Done { id: 5, file_num: 2 }));
    assert_eq!(h.try_recv_response(), None);
}

#[test]
fn receiving_fails() {
    let mut h: Handler = FileTransferHandler::new();
    start_receiving(&mut h, 5, "job");
    let job = h.receiving(5).unwrap();
    h.handle_data(5, 2, job, Err(text("disk full")));
    assert_eq!(h.receiving(5), None);
    assert_eq!(
        h.try_recv_response(),
        Some(FileReply::Error { id: 5, file_num: 2, error: text("disk full") })
    );
    start_receiving(&mut h, 6, "other");
    assert_eq!(h.handle_error(6), Some("other"));
    assert_eq!(h.handle_error(6), None);
    assert_eq!(h.try_recv_response(), None);
}

#[test]
fn cancelled_jobs_are_gone() {
    let mut h: Handler = FileTransferHandler::new();
    start_sending(&mut h, 1, "s");
    start_receiving(&mut h, 1, "r");
    start_receiving(&mut h, 2, "q");
    assert_eq!(h.handle_action(&FileAction::Cancel { id: 1 }), FsTask::Nothing);
    assert!(!h.has_send_jobs());
    assert_eq!(h.receiving(1), None);
    assert_eq!(h.receiving(2), Some("q"));
    assert_eq!(h.try_recv_response(), None);
}
