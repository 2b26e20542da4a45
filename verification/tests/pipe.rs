use sos_client::sos_pipe::{
    connect_pipe_client, create_pipe_server, encode_pipe_message, set_down_tx, try_send_input,
    PipeReader, PipeServer, ReadStep, ServerAction, ServerEvent, ERROR_PIPE_CONNECTED,
    INVALID_HANDLE_VALUE, MAX_MESSAGE,
};

#[test]
fn packet_has_a_length_prefix() {
    assert_eq!(encode_pipe_message(&[7, 8]), vec![2, 0, 0, 0, 7, 8]);
    assert_eq!(encode_pipe_message(&[]), vec![0, 0, 0, 0]);
}

#[test]
fn message_is_put_together_from_pieces() {
    let data: Vec<u8> = (0..200u8).collect();
    let packet = encode_pipe_message(&data);
    let mut reader = PipeReader::new();
    assert_eq!(reader.request(), 4);
    assert_eq!(reader.read_message(true, &packet[..4]), ReadStep::Read(200));
    assert_eq!(reader.request(), 200);
    assert_eq!(reader.read_message(true, &packet[4..54]), ReadStep::Read(150));
    assert_eq!(reader.read_message(true, &packet[54..55]), ReadStep::Read(149));
    assert_eq!(reader.read_message(true, &packet[55..]), ReadStep::Message(data));
    assert_eq!(reader.request(), 4);
}

#[test]
fn empty_message_is_complete_at_once() {
    let mut reader = PipeReader::new();
    assert_eq!(reader.read_message(true, &[0, 0, 0, 0]), ReadStep::Message(vec![]));
}

#[test]
fn broken_pipe() {
    let mut reader = PipeReader::new();
    assert_eq!(reader.read_message(false, &[]), ReadStep::Broken);
    assert_eq!(reader.read_message(true, &[1, 0, 0]), ReadStep::Broken);
    assert_eq!(reader.read_message(true, &[5, 0, 0, 0]), ReadStep::Read(5));
    assert_eq!(reader.read_message(true, &[]), ReadStep::Broken);
    assert_eq!(reader.request(), 4);
}

#[test]
fn long_messages_are_refused() {
    let mut reader = PipeReader::new();
    let longest = (MAX_MESSAGE as u32).to_le_bytes();
    assert_eq!(reader.read_message(true, &longest), ReadStep::Read(1024 * 1024));
    let mut reader = PipeReader::new();
    let too_long = (MAX_MESSAGE as u32 + 1).to_le_bytes();
    assert_eq!(reader.read_message(true, &too_long), ReadStep::Broken);
}

#[test]
fn client_tries_ten_times_a_second() {
    let mut c = connect_pipe_client(6);
    let mut tries = 0;
    while c.may_try() {
        assert_eq!(c.opened(INVALID_HANDLE_VALUE), None);
        tries += 1;
    }
    assert_eq!(tries, 60);
    assert_eq!(c.opened(12), Some(12));
    assert!(!connect_pipe_client(0).may_try());
}

#[test]
fn server_serves_one_client() {
    let (mut server, first) = create_pipe_server();
    assert_eq!(first, ServerAction::Create);
    assert_eq!(server.step(ServerEvent::Created(4)), ServerAction::Connect);
    assert_eq!(
        server.step(ServerEvent::Connected(0, ERROR_PIPE_CONNECTED)),
        ServerAction::Receive
    );
    assert_eq!(
        server.step(ServerEvent::Data(vec![9])),
        ServerAction::Write(vec![1, 0, 0, 0, 9])
    );
    assert_eq!(server.step(ServerEvent::Written(1)), ServerAction::Receive);
    assert_eq!(
        server.step(ServerEvent::Data(vec![])),
        ServerAction::Write(vec![0, 0, 0, 0])
    );
    assert_eq!(server.step(ServerEvent::Written(0)), ServerAction::CloseAndEnd);
    assert_eq!(server, PipeServer::Ended);
}

#[test]
fn server_gives_up() {
    let (mut server, _) = create_pipe_server();
    assert_eq!(
        server.step(ServerEvent::Created(INVALID_HANDLE_VALUE)),
        ServerAction::End
    );
    let (mut server, _) = create_pipe_server();
    server.step(ServerEvent::Created(4));
    assert_eq!(
        server.step(ServerEvent::Connected(0, 5)),
        ServerAction::CloseAndEnd
    );
    let (mut server, _) = create_pipe_server();
    server.step(ServerEvent::Created(4));
    server.step(ServerEvent::Connected(1, 0));
    assert_eq!(
        server.step(ServerEvent::SenderClosed),
        ServerAction::CloseAndEnd
    );
}

#[test]
fn latest_sender_is_used() {
    let mut slot: Option<u8> = None;
    assert_eq!(try_send_input(&slot, vec![1]), None);
    set_down_tx(&mut slot, 5);
    set_down_tx(&mut slot, 6);
    assert_eq!(try_send_input(&slot, vec![1]), Some((&6, vec![1])));
}
