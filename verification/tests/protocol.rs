use smart_home::protocol::{handshake_request_msg, handshake_respond_msg, unwrap_message,
    wrap_message};

#[test]
fn check_wrapping() {
    assert_eq!("@@abc@@", wrap_message("abc"));
}

#[test]
fn check_handshake_request_msg() {
    assert_eq!("@@hi_server@@", handshake_request_msg());
}

#[test]
fn check_handshake_resp_msg() {
    assert_eq!("@@hi_client@@", handshake_respond_msg());
}

#[test]
fn check_unwrap_once() {
    if let Ok(msg) = unwrap_message("@@some_text@@") {
        assert_eq!(msg.len(), 1);
        assert_eq!(msg[0], "some_text".to_string());
    } else {
        panic!()
    }
}

#[test]
fn check_unwrap_multiple() {
    if let Ok(msg) = unwrap_message("@@some_text1@@@@some_text2@@@@some_text3@@") {
        assert_eq!(msg.len(), 3);
        assert_eq!(msg[0], "some_text1".to_string());
        assert_eq!(msg[1], "some_text2".to_string());
        assert_eq!(msg[2], "some_text3".to_string());
    } else {
        panic!()
    }
}

#[test]
fn check_unwrap_corrupted_last() {
    if let Ok(msg) = unwrap_message("@@some_text1@@@@some_text2@@@@some_text3@") {
        assert_eq!(msg.len(), 2);
        assert_eq!(msg[0], "some_text1".to_string());
        assert_eq!(msg[1], "some_text2".to_string());
    } else {
        panic!()
    }
}

#[test]
fn check_unwrap_parsing_err() {
    if let Err(msg) = unwrap_message("@some_text1@@") {
        assert_eq!(msg, "Parsing error".to_string());
    }
}

#[test]
fn wrap_then_unwrap_round_trips() {
    let unwrapped = unwrap_message(&wrap_message("hello")).unwrap();
    assert_eq!(unwrapped, vec!["hello".to_string()]);
}

#[test]
fn unwrap_multi_frame_exact() {
    let unwrapped = unwrap_message("@@a@@@@b@@@@c@@").unwrap();
    assert_eq!(unwrapped, vec!["a".to_string(), "b".to_string(), "c".to_string()]);
}

#[test]
fn unwrap_drops_dangling_trailing_frame() {
    let unwrapped = unwrap_message("@@a@@@@b@@@@c@").unwrap();
    assert_eq!(unwrapped, vec!["a".to_string(), "b".to_string()]);
}

#[test]
fn unwrap_errs_without_complete_frame() {
    assert!(unwrap_message("@x@@").is_err());
    assert!(unwrap_message("").is_err());
    assert!(unwrap_message("@@@@").is_err());
    assert!(unwrap_message("no frames here").is_err());
}

#[test]
fn unwrap_ignores_content_outside_frames() {
    let unwrapped = unwrap_message("noise@@a@@junk@@b@@tail").unwrap();
    assert_eq!(unwrapped, vec!["a".to_string(), "b".to_string()]);
}
