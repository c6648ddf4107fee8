//! JSON framing: the bodies of tool outputs and the reply to the event
//! query. String escaping is serde_json's; the frames around the escaped
//! strings are built and proved here.

use vstd::prelude::*;

use crate::protocol::strs;
use crate::text::{decimal, push_decimal, push_signed_decimal, signed_decimal};

verus! {

/// `s` written as a JSON string literal: quoted, with the characters that
/// JSON requires escaped.
pub uninterp spec fn json_string(s: Seq<char>) -> Seq<char>;

/// Relies on the Display of serde_json::Value for a `Value::String`, which
/// writes the string as a quoted and escaped JSON string literal.
#[verifier::external_body]
fn json_quote(s: &str) -> (r: String)
    ensures
        r@ == json_string(s@),
{
    serde_json::Value::String(s.to_string()).to_string()
}

/// The frame of a tool output body around the already quoted output: a
/// JSON object with the output and its metadata (exit code, and a duration
/// of zero), keys in sorted order.
pub open spec fn tool_output_frame(quoted_output: Seq<char>, exit_code: int) -> Seq<char> {
    "{\"metadata\":{\"duration_seconds\":0.0,\"exit_code\":"@ + signed_decimal(exit_code)
        + "},\"output\":"@ + quoted_output + "}"@
}

/// The body of a tool output.
pub open spec fn tool_output_body(output: Seq<char>, exit_code: int) -> Seq<char> {
    tool_output_frame(json_string(output), exit_code)
}

/// Builds `tool_output_frame(quoted_output, exit_code)`.
pub fn frame_tool_output(quoted_output: &str, exit_code: i32) -> (r: String)
    ensures
        r@ == tool_output_frame(quoted_output@, exit_code as int),
{
    let mut s = String::new();
    s.append("{\"metadata\":{\"duration_seconds\":0.0,\"exit_code\":");
    push_signed_decimal(&mut s, exit_code as i64);
    s.append("},\"output\":");
    s.append(quoted_output);
    s.append("}");
    assert(s@ =~= tool_output_frame(quoted_output@, exit_code as int));
    s
}

/// Builds `tool_output_body(output, exit_code)`.
pub fn tool_output_body_text(output: &str, exit_code: i32) -> (r: String)
    ensures
        r@ == tool_output_body(output@, exit_code as int),
{
    let q = json_quote(output);
    frame_tool_output(q.as_str(), exit_code)
}

/// The elements of `v`, separated by commas.
pub open spec fn comma_join(v: Seq<Seq<char>>) -> Seq<char>
    decreases v.len(),
{
    if v.len() == 0 {
        Seq::empty()
    } else if v.len() == 1 {
        v[0]
    } else {
        comma_join(v.drop_last()) + seq![','] + v.last()
    }
}

/// The frame of the event query's reply around the already quoted events.
pub open spec fn events_reply_frame(quoted_events: Seq<Seq<char>>, watermark: nat) -> Seq<char> {
    "{\"events\":["@ + comma_join(quoted_events) + "],\"watermark\":"@ + decimal(watermark)
        + "}"@
}

/// The reply to the event query: the encoded events, each as a JSON string,
/// and the watermark.
pub open spec fn events_reply(events: Seq<Seq<char>>, watermark: nat) -> Seq<char> {
    events_reply_frame(events.map_values(|e: Seq<char>| json_string(e)), watermark)
}

/// Builds `events_reply_frame` from the quoted events.
pub fn frame_events_reply(quoted_events: &Vec<String>, watermark: usize) -> (r: String)
    ensures
        r@ == events_reply_frame(strs(quoted_events@), watermark as nat),
{
    let mut s = String::new();
    s.append("{\"events\":[");
    let ghost head = s@;
    let mut i: usize = 0;
    while i < quoted_events.len()
        invariant
            i <= quoted_events@.len(),
            s@ == head + comma_join(strs(quoted_events@).subrange(0, i as int)),
        decreases quoted_events@.len() - i,
    {
        let ghost before = strs(quoted_events@).subrange(0, i as int);
        let ghost after = strs(quoted_events@).subrange(0, i + 1);
        assert(after.drop_last() =~= before);
        assert(after.last() == quoted_events@[i as int]@);
        if i > 0 {
            proof {
                reveal_strlit(",");
            }
            assert(","@ =~= seq![',']);
            s.append(",");
        } else {
            assert(comma_join(before) =~= Seq::<char>::empty());
        }
        s.append(quoted_events[i].as_str());
        i = i + 1;
        assert(s@ =~= head + comma_join(after));
    }
    assert(strs(quoted_events@).subrange(0, quoted_events@.len() as int) =~= strs(quoted_events@));
    s.append("],\"watermark\":");
    push_decimal(&mut s, watermark as u64);
    s.append("}");
    assert(s@ =~= events_reply_frame(strs(quoted_events@), watermark as nat));
    s
}

/// Builds `events_reply` for the already encoded `events`.
pub fn events_reply_text(events: &Vec<String>, watermark: usize) -> (r: String)
    ensures
        r@ == events_reply(strs(events@), watermark as nat),
{
    let mut quoted: Vec<String> = Vec::new();
    let mut i: usize = 0;
    while i < events.len()
        invariant
            i <= events@.len(),
            quoted@.len() == i,
            forall|j: int| 0 <= j < i ==> #[trigger] quoted@[j]@ == json_string(events@[j]@),
        decreases events@.len() - i,
    {
        quoted.push(json_quote(events[i].as_str()));
        i = i + 1;
    }
    assert(strs(quoted@) =~= strs(events@).map_values(|e: Seq<char>| json_string(e)));
    frame_events_reply(&quoted, watermark)
}

} // verus!
