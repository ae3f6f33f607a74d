use smart_home::errors::{RecvError, RequestError, SendError};
use smart_home::exchange::{handle_result, power_from_reply, process_request, read_srt, send_str,
    state_from_reply};
use smart_home::socket_stub::SocketStub;

#[test]
fn one_frame_is_surfaced_exactly() {
    assert_eq!(read_srt("@@x@@", 5).unwrap(), "x");
}

#[test]
fn two_frames_in_one_read_are_flattened_with_commas() {
    assert_eq!(read_srt("@@x@@@@y@@", 10).unwrap(), "x,y,");
}

#[test]
fn three_frames_in_one_read_are_flattened_with_commas() {
    assert_eq!(read_srt("@@a@@@@b@@@@c@@", 15).unwrap(), "a,b,c,");
}

#[test]
fn zero_length_read_is_broken_pipe() {
    assert!(matches!(read_srt("", 0), Err(RecvError::BrokenPipe)));
    assert!(matches!(read_srt("@@x@@", 0), Err(RecvError::BrokenPipe)));
}

#[test]
fn frameless_read_is_a_parse_error() {
    match read_srt("@x@@", 4) {
        Err(RecvError::Other(m)) => assert_eq!(m, "Parsing error"),
        _ => panic!("expected a parse error"),
    }
}

#[test]
fn send_str_frames_the_message() {
    assert_eq!(send_str("turn_on"), "@@turn_on@@");
}

#[test]
fn handle_result_maps_success_and_failure() {
    assert_eq!(handle_result(Ok("anything".to_string())).unwrap(), true);
    let err = handle_result(Err(RequestError::Recv(RecvError::BrokenPipe))).unwrap_err();
    assert_eq!(err.msg, "broken pipe");
    let err = handle_result(Err(RequestError::Send(SendError::Io("boom".to_string()))))
        .unwrap_err();
    assert_eq!(err.msg, "boom");
}

#[test]
fn state_reply_is_read_exactly() {
    assert!(state_from_reply("state: on"));
    assert!(!state_from_reply("state: off"));
    assert!(!state_from_reply("ok"));
}

#[test]
fn power_reply_is_parsed_or_rejected() {
    assert_eq!(power_from_reply("2000").unwrap(), 2000);
    assert_eq!(power_from_reply("0").unwrap(), 0);
    let err = power_from_reply("20.5").unwrap_err();
    assert_eq!(err.msg, "malformed power reading");
    assert!(power_from_reply("").is_err());
}

#[test]
fn dispatcher_serves_the_five_commands() {
    let mut socket = SocketStub::new("Kitchen socket via tcp".to_string());
    assert_eq!(process_request(&mut socket, "get_state"), "state: off");
    assert_eq!(process_request(&mut socket, "turn_on"), "ok");
    assert_eq!(process_request(&mut socket, "get_state"), "state: on");
    assert_eq!(process_request(&mut socket, "get_power_consumption_wt"), "2000");
    assert_eq!(process_request(&mut socket, "turn_off"), "ok");
    assert_eq!(process_request(&mut socket, "get_power_consumption_wt"), "0");
    assert_eq!(process_request(&mut socket, "get_description"), "Kitchen socket via tcp");
}

#[test]
fn dispatcher_answers_unknown_requests() {
    let mut socket = SocketStub::new("socket".to_string());
    assert_eq!(process_request(&mut socket, "reboot"), "Unknown request");
    assert_eq!(process_request(&mut socket, ""), "Unknown request");
}

#[test]
fn dispatcher_reports_an_offline_device() {
    let mut socket = SocketStub::new("socket".to_string());
    socket.online(false);
    assert_eq!(
        process_request(&mut socket, "get_state"),
        "Operation not performed because : Device not respond"
    );
    assert_eq!(
        process_request(&mut socket, "turn_on"),
        "Operation not performed because : Device not respond"
    );
}

#[test]
fn exchange_round_trip_through_the_codec() {
    // A client frames a request, the server decodes it, serves it, frames the
    // reply, and the client decodes that.
    let mut socket = SocketStub::new("socket".to_string());
    let wire = send_str("turn_on");
    let request = read_srt(&wire, wire.len()).unwrap();
    let reply = process_request(&mut socket, &request);
    let reply_wire = send_str(&reply);
    let answer = read_srt(&reply_wire, reply_wire.len()).unwrap();
    assert_eq!(answer, "ok");
    assert!(socket.state);
}
