//! Request/response exchange semantics over the framing codec.
//!
//! One exchange writes a single frame and performs exactly one read. The raw
//! text of that read is decoded here: one frame is surfaced as its payload;
//! several frames arriving in the same read are flattened into one string,
//! each payload followed by a comma (a documented compatibility quirk).
//!
//! The transport itself lives outside the library: callers pass the text a
//! read returned together with the byte count the read reported, and write
//! the string `send_str` hands back.

use vstd::prelude::*;
use vstd::string::*;
use crate::decimal::{dec_rep, dec_val, format_u32, is_digits, parse_u32};
use crate::errors::{request_error_message, ErrorSm, RecvError, RecvResult, RequestError,
    RequestResult};
use crate::protocol::{frames_of, wrap_message, wrap_spec};
use crate::socket_stub::{offline_msg, SocketStub};
use crate::text::str_eq;
use crate::traits::{Described, PowerConsumptionMeter, Replay, Switchable};

verus! {

/// All payloads joined, each followed by one comma.
pub open spec fn joined_with_commas(frames: Seq<Seq<char>>) -> Seq<char>
    decreases frames.len(),
{
    if frames.len() == 0 {
        Seq::empty()
    } else {
        joined_with_commas(frames.drop_last()) + frames.last() + seq![',']
    }
}

/// What one read surfaces to the caller: the single payload when the read
/// held exactly one frame, the comma-joined flattening when it held more.
pub open spec fn response_text(frames: Seq<Seq<char>>) -> Seq<char> {
    if frames.len() == 1 {
        frames[0]
    } else {
        joined_with_commas(frames)
    }
}

/// Exchange consolidation: one frame is surfaced exactly; two frames in one
/// read are surfaced as both payloads, each with a trailing comma.
pub proof fn lemma_exchange_consolidation(x: Seq<char>, y: Seq<char>)
    ensures
        response_text(seq![x]) == x,
        response_text(seq![x, y]) == x + seq![','] + y + seq![','],
{
    let two = seq![x, y];
    assert(two.drop_last() =~= seq![x]);
    assert(seq![x].drop_last() =~= Seq::<Seq<char>>::empty());
    assert(joined_with_commas(Seq::<Seq<char>>::empty()) == Seq::<char>::empty());
    assert(joined_with_commas(seq![x]) =~= x + seq![',']);
    assert(joined_with_commas(two) =~= x + seq![','] + y + seq![',']);
}

/// The payload to write for one request: the message, framed.
pub fn send_str(msg: &str) -> (wire: String)
    ensures
        wire@ == wrap_spec(msg@),
{
    wrap_message(msg)
}

/// Decodes what one read returned. `rlen` is the byte count the read
/// reported: zero means the peer closed the connection (broken pipe), kept
/// distinct from a parse failure on nonempty input.
pub fn read_srt(raw: &str, rlen: usize) -> (r: RecvResult)
    ensures
        match r {
            Ok(resp) => rlen > 0 && frames_of(raw@).len() >= 1 && resp@ == response_text(
                frames_of(raw@),
            ),
            Err(e) => match e {
                RecvError::BrokenPipe => rlen == 0,
                RecvError::Other(m) => rlen > 0 && frames_of(raw@).len() == 0 && m@
                    == "Parsing error"@,
                _ => false,
            },
        },
{
    if rlen == 0 {
        return Err(RecvError::BrokenPipe);
    }
    match crate::protocol::unwrap_message(raw) {
        Err(e) => Err(RecvError::Other(e)),
        Ok(msgs) => {
            if msgs.len() == 1 {
                proof {
                    assert(msgs.deep_view()[0] == msgs@[0]@);
                }
                Ok(msgs[0].clone())
            } else {
                let ghost frames = frames_of(raw@);
                let mut resp = String::new();
                let n = msgs.len();
                let mut i: usize = 0;
                while i < n
                    invariant
                        msgs.deep_view() == frames,
                        n == msgs@.len(),
                        i <= n,
                        resp@ == joined_with_commas(frames.take(i as int)),
                    decreases n - i,
                {
                    resp.append(msgs[i].as_str());
                    resp.append(",");
                    proof {
                        reveal_strlit(",");
                        assert(","@ =~= seq![',']);
                        assert(frames[i as int] == msgs@[i as int]@);
                        assert(frames.take(i as int + 1).drop_last() =~= frames.take(i as int));
                        assert(frames.take(i as int + 1).last() == frames[i as int]);
                        assert(resp@ =~= joined_with_commas(frames.take(i as int + 1)));
                    }
                    i += 1;
                }
                proof {
                    assert(frames.take(n as int) =~= frames);
                }
                Ok(resp)
            }
        },
    }
}

/// Turns the outcome of a request whose reply text does not matter into a
/// device-command result, carrying the error's text on failure.
pub fn handle_result(result: RequestResult) -> (r: Replay<bool>)
    ensures
        result is Ok ==> r == Replay::<bool>::Ok(true),
        result matches Err(e) ==> (r matches Err(es) && es.msg@ == request_error_message(e)),
{
    match result {
        Ok(_) => Ok(true),
        Err(err) => Err(ErrorSm { msg: err.message() }),
    }
}

/// Reads a `get_state` reply: the device is on exactly when the reply is the
/// fixed text `state: on`.
pub fn state_from_reply(reply: &str) -> (on: bool)
    ensures
        on == (reply@ == "state: on"@),
{
    str_eq(reply, "state: on")
}

/// Reads a `get_power_consumption_wt` reply: the decimal reading in watts,
/// or an error when the reply is not a decimal number.
pub fn power_from_reply(reply: &str) -> (r: Replay<u32>)
    ensures
        match r {
            Ok(v) => is_digits(reply@) && dec_val(reply@) == v as int,
            Err(e) => !(is_digits(reply@) && dec_val(reply@) <= u32::MAX) && e.msg@
                == "malformed power reading"@,
        },
{
    match parse_u32(reply) {
        Some(v) => Ok(v),
        None => Err(ErrorSm { msg: String::from_str("malformed power reading") }),
    }
}

/// The socket state after serving one request.
pub open spec fn dispatched_state(s0: SocketStub, req: Seq<char>) -> SocketStub {
    if req == "turn_on"@ {
        if s0.connection_state_emulation {
            SocketStub { state: true, power_consumption_wt: 2000, ..s0 }
        } else {
            SocketStub { state: true, ..s0 }
        }
    } else if req == "turn_off"@ {
        if s0.connection_state_emulation {
            SocketStub { state: false, power_consumption_wt: 0, ..s0 }
        } else {
            SocketStub { state: false, ..s0 }
        }
    } else {
        s0
    }
}

/// The reply text one request produces against the given socket.
pub open spec fn dispatched_reply(s0: SocketStub, req: Seq<char>) -> Seq<char> {
    if req == "turn_on"@ || req == "turn_off"@ {
        if s0.connection_state_emulation {
            "ok"@
        } else {
            crate::errors::error_sm_message(offline_msg())
        }
    } else if req == "get_state"@ {
        if !s0.connection_state_emulation {
            crate::errors::error_sm_message(offline_msg())
        } else if s0.state {
            "state: on"@
        } else {
            "state: off"@
        }
    } else if req == "get_power_consumption_wt"@ {
        if s0.connection_state_emulation {
            dec_rep(s0.power_consumption_wt as nat)
        } else {
            crate::errors::error_sm_message(offline_msg())
        }
    } else if req == "get_description"@ {
        s0.description@
    } else {
        "Unknown request"@
    }
}

/// Serves one request payload against a socket device: the five recognized
/// commands act on the device and report; anything else yields the fixed
/// `Unknown request` reply.
pub fn process_request(socket: &mut SocketStub, req: &str) -> (resp: String)
    ensures
        *final(socket) == dispatched_state(*old(socket), req@),
        resp@ == dispatched_reply(*old(socket), req@),
{
    if str_eq(req, "turn_on") {
        match socket.turn_on() {
            Ok(_) => String::from_str("ok"),
            Err(e) => e.message(),
        }
    } else if str_eq(req, "turn_off") {
        match socket.turn_off() {
            Ok(_) => String::from_str("ok"),
            Err(e) => e.message(),
        }
    } else if str_eq(req, "get_state") {
        match socket.current_state() {
            Ok(state) => {
                if state {
                    String::from_str("state: on")
                } else {
                    String::from_str("state: off")
                }
            },
            Err(e) => e.message(),
        }
    } else if str_eq(req, "get_power_consumption_wt") {
        match socket.power_consumption_wt() {
            Ok(Some(pwr)) => format_u32(pwr),
            Ok(None) => String::from_str("Unknown power_consumption"),
            Err(e) => e.message(),
        }
    } else if str_eq(req, "get_description") {
        socket.description()
    } else {
        String::from_str("Unknown request")
    }
}

} // verus!
