use smart_home::errors::ConnectError;
use smart_home::exchange::{read_srt, send_str};
use smart_home::handshake::{check_handshake_request, check_handshake_response};
use smart_home::protocol::{handshake_request_msg, handshake_respond_msg, wrap_message};

#[test]
fn conforming_handshake_succeeds_end_to_end() {
    // Client side: send the wrapped client greeting.
    let wire = handshake_request_msg();
    // Server side: one read, decode, check, answer.
    let request = read_srt(&wire, wire.len()).unwrap();
    assert!(check_handshake_request(&request).is_ok());
    let reply_wire = handshake_respond_msg();
    // Client side: the raw reply must contain the wrapped server greeting.
    assert!(check_handshake_response(&reply_wire).is_ok());
}

#[test]
fn client_with_wrong_greeting_is_rejected() {
    let wire = wrap_message("hello_there");
    let request = read_srt(&wire, wire.len()).unwrap();
    match check_handshake_request(&request) {
        Err(ConnectError::BadHandshake(m)) => {
            assert_eq!(m, "Handshake request not matched");
        },
        _ => panic!("a wrong greeting must fail the handshake"),
    }
}

#[test]
fn wrong_server_reply_fails_the_client_check() {
    let reply = wrap_message("hi_imposter");
    match check_handshake_response(&reply) {
        Err(ConnectError::BadHandshake(m)) => {
            assert_eq!(m, "Unexpected response");
        },
        _ => panic!("a wrong reply must fail the handshake"),
    }
}

#[test]
fn client_check_accepts_greeting_inside_padded_buffer() {
    // The handshake read buffer is fixed-size; the greeting may sit among
    // other bytes.
    let padded = format!("xx{}yy", handshake_respond_msg());
    assert!(check_handshake_response(&padded).is_ok());
}
