//! The fixed two-message greeting exchange run once per new connection.
//!
//! The client writes the wrapped client greeting and reads one reply; the
//! server reads one request, checks it, and answers with the wrapped server
//! greeting (fire-and-forget: a lost reply only fails the client's own
//! read). The reads and writes live outside the library; the checks on what
//! arrived are here, and a mismatch always surfaces as an error.

use vstd::prelude::*;
use vstd::string::*;
use crate::errors::{ConnectError, ConnectResult};
use crate::protocol::{frames_of, wrap_spec, HANDSHAKE_REQUEST, HANDSHAKE_RESPOND,
    lemma_wrap_unwrap_roundtrip};
use crate::text::str_eq;

verus! {

/// Client side: validates the raw text of the handshake reply. The reply is
/// parsed as a frame sequence and passes exactly when the server greeting is
/// present among the payloads.
pub fn check_handshake_response(raw: &str) -> (r: ConnectResult<()>)
    ensures
        r is Ok <==> frames_of(raw@).contains("hi_client"@),
        r matches Err(e) ==> (e matches ConnectError::BadHandshake(m) && m@
            == "Unexpected response"@),
{
    let ghost frames = frames_of(raw@);
    match crate::protocol::unwrap_message(raw) {
        Ok(msgs) => {
            let n = msgs.len();
            let mut i: usize = 0;
            while i < n
                invariant
                    frames == frames_of(raw@),
                    msgs.deep_view() == frames,
                    n == msgs@.len(),
                    i <= n,
                    forall|k: int| 0 <= k < i ==> frames[k] != "hi_client"@,
                decreases n - i,
            {
                if str_eq(msgs[i].as_str(), HANDSHAKE_RESPOND) {
                    proof {
                        assert(HANDSHAKE_RESPOND@ == "hi_client"@);
                        assert(frames[i as int] == msgs@[i as int]@);
                        assert(frames[i as int] == "hi_client"@);
                        assert(frames.contains("hi_client"@));
                    }
                    return Ok(());
                }
                proof {
                    assert(frames[i as int] == msgs@[i as int]@);
                }
                i += 1;
            }
            proof {
                assert(!frames.contains("hi_client"@));
            }
            Err(ConnectError::BadHandshake(String::from_str("Unexpected response")))
        },
        Err(_) => {
            proof {
                assert(!frames.contains("hi_client"@));
            }
            Err(ConnectError::BadHandshake(String::from_str("Unexpected response")))
        },
    }
}

/// Server side: validates the decoded handshake request, which must equal
/// the client greeting exactly.
pub fn check_handshake_request(req: &str) -> (r: ConnectResult<()>)
    ensures
        r is Ok <==> req@ == "hi_server"@,
        r matches Err(e) ==> (e matches ConnectError::BadHandshake(m) && m@
            == "Handshake request not matched"@),
{
    if crate::text::str_eq(req, HANDSHAKE_REQUEST) {
        Ok(())
    } else {
        Err(ConnectError::BadHandshake(String::from_str("Handshake request not matched")))
    }
}

/// The greetings contain no delimiter character and are nonempty.
pub proof fn lemma_greetings_clean()
    ensures
        "hi_server"@.len() >= 1,
        "hi_client"@.len() >= 1,
        forall|k: int| 0 <= k < "hi_server"@.len() ==> "hi_server"@[k] != '@',
        forall|k: int| 0 <= k < "hi_client"@.len() ==> "hi_client"@[k] != '@',
{
    reveal_strlit("hi_server");
    reveal_strlit("hi_client");
}

/// Conforming handshake: each wrapped greeting decodes back to exactly that
/// greeting, so a conforming client passes the server's check and a
/// conforming server's reply passes the client's check; and a client that
/// wraps any other delimiter-free payload is rejected by the server.
pub proof fn lemma_handshake_roundtrip(other: Seq<char>)
    requires
        other.len() >= 1,
        forall|k: int| 0 <= k < other.len() ==> other[k] != '@',
    ensures
        frames_of(wrap_spec("hi_server"@)) == seq!["hi_server"@],
        frames_of(wrap_spec("hi_client"@)) == seq!["hi_client"@],
        frames_of(wrap_spec("hi_client"@)).contains("hi_client"@),
        frames_of(wrap_spec(other)) == seq![other],
{
    lemma_greetings_clean();
    lemma_wrap_unwrap_roundtrip("hi_server"@);
    lemma_wrap_unwrap_roundtrip("hi_client"@);
    lemma_wrap_unwrap_roundtrip(other);
    assert(seq!["hi_client"@][0] == "hi_client"@);
}

} // verus!
