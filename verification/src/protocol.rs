//! The framing codec: a payload travels on the wire as `@@payload@@`.
//!
//! A raw buffer may hold zero, one or many concatenated frames, and may end
//! with a truncated frame, which is dropped. `frames_of` is the mathematical
//! model of the scan; `wrap_message` and `unwrap_message` are the executable
//! codec, proved against it.

use vstd::prelude::*;
use vstd::string::*;

verus! {

/// The two-character marker that bounds every frame on the wire.
pub const WRAPPING_SYMBOLS: &'static str = "@@";

/// Greeting payload a client sends right after connecting.
pub const HANDSHAKE_REQUEST: &'static str = "hi_server";

/// Greeting payload a conforming server answers with.
pub const HANDSHAKE_RESPOND: &'static str = "hi_client";

/// The frame delimiter, as a character sequence.
pub open spec fn delim() -> Seq<char> {
    seq!['@', '@']
}

/// A wrapped payload: the delimiter on both sides, no escaping inside.
pub open spec fn wrap_spec(payload: Seq<char>) -> Seq<char> {
    delim() + payload + delim()
}

/// Length of the run of non-delimiter characters starting at `j`.
pub open spec fn run_len(s: Seq<char>, j: int) -> int
    decreases s.len() - j when j <= s.len()
{
    if j < 0 || j >= s.len() || s[j] == '@' {
        0
    } else {
        1 + run_len(s, j + 1)
    }
}

/// A complete frame `@@p@@`, with `p` nonempty and free of `@`, starts at `i`.
pub open spec fn frame_at(s: Seq<char>, i: int) -> bool {
    let r = run_len(s, i + 2);
    &&& 0 <= i
    &&& i + 1 < s.len()
    &&& s[i] == '@'
    &&& s[i + 1] == '@'
    &&& r >= 1
    &&& i + 3 + r < s.len()
    &&& s[i + 3 + r] == '@'
}

/// The payload of the frame starting at `i`.
pub open spec fn frame_payload(s: Seq<char>, i: int) -> Seq<char> {
    s.subrange(i + 2, i + 2 + run_len(s, i + 2))
}

/// All payloads of complete frames found scanning left to right from `i`.
///
/// The scan moves one character at a time; on a complete frame it emits the
/// payload and resumes after the closing delimiter. A trailing truncated
/// frame never forms a `frame_at` and is dropped silently.
pub open spec fn frames_from(s: Seq<char>, i: int) -> Seq<Seq<char>>
    decreases s.len() - i when 0 <= i
{
    if i + 5 > s.len() {
        Seq::empty()
    } else if frame_at(s, i) {
        seq![frame_payload(s, i)] + frames_from(s, i + 4 + run_len(s, i + 2))
    } else {
        frames_from(s, i + 1)
    }
}

/// All frame payloads in a raw buffer, in wire order.
pub open spec fn frames_of(s: Seq<char>) -> Seq<Seq<char>> {
    frames_from(s, 0)
}

/// Wraps `msg` in the frame delimiters, with no escaping: a payload that
/// itself contains the delimiter corrupts framing (documented limitation).
pub fn wrap_message(msg: &str) -> (wrapped: String)
    ensures
        wrapped@ == wrap_spec(msg@),
{
    proof {
        reveal_strlit("@@");
    }
    let mut wrapped = String::from_str("@@");
    wrapped.append(msg);
    wrapped.append("@@");
    proof {
        assert(wrapped@ =~= wrap_spec(msg@));
    }
    wrapped
}

/// A run of non-delimiter characters that extends exactly to `end` has
/// length `end - start`.
proof fn lemma_run_len_value(s: Seq<char>, start: int, end: int)
    requires
        0 <= start <= end <= s.len(),
        forall|k: int| start <= k < end ==> s[k] != '@',
        end == s.len() || s[end] == '@',
    ensures
        run_len(s, start) == end - start,
    decreases end - start,
{
    if start < end {
        lemma_run_len_value(s, start + 1, end);
    }
}

/// Result of `unwrap_message`: the payloads in wire order, or a parse error.
pub type UMsgResult = Result<Vec<String>, String>;

/// Extracts every complete frame payload from `raw_msg`, left to right,
/// ignoring content outside delimiter pairs and dropping a dangling
/// unterminated trailing frame. Errs exactly when no complete frame is found.
pub fn unwrap_message(raw_msg: &str) -> (parsed: UMsgResult)
    ensures
        match parsed {
            Ok(msgs) => frames_of(raw_msg@).len() > 0 && msgs.deep_view() == frames_of(raw_msg@),
            Err(e) => frames_of(raw_msg@).len() == 0 && e@ == "Parsing error"@,
        },
{
    let ghost s = raw_msg@;
    let n = raw_msg.unicode_len();
    let mut parsed_msgs: Vec<String> = Vec::new();
    let mut i: usize = 0;
    while i < n && n - i >= 5
        invariant
            n == s.len(),
            s == raw_msg@,
            i <= n,
            frames_of(s) == parsed_msgs.deep_view() + frames_from(s, i as int),
        decreases n - i,
    {
        if raw_msg.get_char(i) == '@' && raw_msg.get_char(i + 1) == '@' {
            let mut j: usize = i + 2;
            while j < n && raw_msg.get_char(j) != '@'
                invariant
                    n == s.len(),
                    s == raw_msg@,
                    i + 2 <= j <= n,
                    forall|k: int| i + 2 <= k < j ==> s[k] != '@',
                decreases n - j,
            {
                j += 1;
            }
            proof {
                lemma_run_len_value(s, i + 2 as int, j as int);
            }
            let r = j - (i + 2);
            if r >= 1 && n - j >= 2 && raw_msg.get_char(j + 1) == '@' {
                proof {
                    assert(frame_at(s, i as int));
                }
                let ghost before = parsed_msgs.deep_view();
                let payload = raw_msg.substring_char(i + 2, j).to_owned();
                parsed_msgs.push(payload);
                proof {
                    assert(frames_from(s, i as int) == seq![frame_payload(s, i as int)]
                        + frames_from(s, i as int + 4 + r as int));
                    assert(frame_payload(s, i as int) == payload@);
                    assert(parsed_msgs.deep_view() =~= before.push(payload@));
                    assert(frames_of(s) =~= parsed_msgs.deep_view() + frames_from(
                        s,
                        j as int + 2,
                    ));
                }
                i = j + 2;
            } else {
                proof {
                    assert(!frame_at(s, i as int));
                    assert(frames_from(s, i as int) == frames_from(s, i as int + 1));
                }
                i += 1;
            }
        } else {
            proof {
                assert(!frame_at(s, i as int));
                assert(frames_from(s, i as int) == frames_from(s, i as int + 1));
            }
            i += 1;
        }
    }
    proof {
        assert(frames_from(s, i as int) =~= Seq::<Seq<char>>::empty());
        assert(frames_of(s) =~= parsed_msgs.deep_view());
    }
    if parsed_msgs.len() > 0 {
        Ok(parsed_msgs)
    } else {
        proof {
            assert(frames_of(s).len() == 0);
        }
        Err(String::from_str("Parsing error"))
    }
}

/// Round trip: wrapping a nonempty payload that contains no delimiter
/// character and unwrapping the result yields exactly that payload.
///
/// A payload that is empty, or that contains `@` anywhere, does not round
/// trip: the codec performs no escaping, so such a payload corrupts framing.
pub proof fn lemma_wrap_unwrap_roundtrip(payload: Seq<char>)
    requires
        payload.len() >= 1,
        forall|k: int| 0 <= k < payload.len() ==> payload[k] != '@',
    ensures
        frames_of(wrap_spec(payload)) == seq![payload],
{
    let w = wrap_spec(payload);
    let len = payload.len() as int;
    assert(forall|k: int| 2 <= k < 2 + len ==> w[k] == payload[k - 2] && w[k] != '@');
    lemma_run_len_value(w, 2, 2 + len);
    assert(frame_at(w, 0));
    assert(frames_from(w, 0) == seq![frame_payload(w, 0)] + frames_from(w, 4 + len));
    assert(frame_payload(w, 0) =~= payload);
    assert(frames_from(w, 4 + len) == Seq::<Seq<char>>::empty());
    assert(frames_of(w) =~= seq![payload]);
}

/// The wrapped client greeting, ready to send.
pub fn handshake_request_msg() -> (msg: String)
    ensures
        msg@ == wrap_spec("hi_server"@),
{
    wrap_message(HANDSHAKE_REQUEST)
}

/// The wrapped server greeting, ready to send.
pub fn handshake_respond_msg() -> (msg: String)
    ensures
        msg@ == wrap_spec("hi_client"@),
{
    wrap_message(HANDSHAKE_RESPOND)
}

} // verus!
