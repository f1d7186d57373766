use vstd::prelude::*;
use vstd::utf8::{decode_utf8, valid_utf8};

use crate::resolver::{started, utf8_text, Action, ResolveError, Resolver};

verus! {

/// The reply to a request that holds no question.
pub const NO_QUESTION: &'static str = "No question provided";

/// Content type of a plain-text reply.
pub const TEXT_PLAIN: &'static str = "text/plain";

/// Content type of a JSON reply.
pub const APPLICATION_JSON: &'static str = "application/json";

/// What opens the JSON body of an answer.
pub const JSON_HEAD: &'static str = "{\"answer\": \"";

/// What closes the JSON body of an answer.
pub const JSON_TAIL: &'static str = "\"}";

/// The digits of base sixteen.
pub const HEX_DIGITS: &'static str = "0123456789abcdef";

/// A reply to send back.
pub struct Response {
    pub status: u16,
    pub content_type: String,
    pub body: String,
}

/// What to do with an incoming request.
pub enum Intake {
    /// Send this reply at once.
    Reply(Response),
    /// Resolve the question: this resolver has begun, and this is its first request.
    Resolve(Resolver, Action),
    /// Fail the request.
    Reject(ResolveError),
}

/// The lower-case hexadecimal digit of `d`.
pub open spec fn hex_digit(d: u32) -> char {
    HEX_DIGITS@[d as int]
}

/// How `c` is written inside a JSON string.
pub open spec fn escape_char(c: char) -> Seq<char> {
    if c == '"' {
        seq!['\\', '"']
    } else if c == '\\' {
        seq!['\\', '\\']
    } else if c == '\n' {
        seq!['\\', 'n']
    } else if c == '\r' {
        seq!['\\', 'r']
    } else if c == '\t' {
        seq!['\\', 't']
    } else if (c as u32) < 0x20 {
        seq!['\\', 'u', '0', '0', hex_digit((c as u32) / 16), hex_digit((c as u32) % 16)]
    } else {
        seq![c]
    }
}

/// How `s` is written inside a JSON string.
pub open spec fn json_escaped(s: Seq<char>) -> Seq<char>
    decreases s.len(),
{
    if s.len() == 0 {
        Seq::empty()
    } else {
        json_escaped(s.drop_last()) + escape_char(s.last())
    }
}

/// The JSON body that carries answer `a`.
pub open spec fn answer_json(a: Seq<char>) -> Seq<char> {
    JSON_HEAD@ + json_escaped(a) + JSON_TAIL@
}

/// Writes `s` as the inside of a JSON string.
pub fn json_escape(s: &str) -> (r: String)
    ensures
        r@ == json_escaped(s@),
{
    proof {
        reveal_strlit("0123456789abcdef");
    }
    let n = s.unicode_len();
    let mut r = String::new();
    let mut i: usize = 0;
    while i < n
        invariant
            i <= n,
            n == s@.len(),
            HEX_DIGITS@.len() == 16,
            r@ == json_escaped(s@.subrange(0, i as int)),
        decreases n - i,
    {
        let c = s.get_char(i);
        let ghost before = r@;
        if c == '"' {
            proof {
                reveal_strlit("\\\"");
            }
            r.append("\\\"");
        } else if c == '\\' {
            proof {
                reveal_strlit("\\\\");
            }
            r.append("\\\\");
        } else if c == '\n' {
            proof {
                reveal_strlit("\\n");
            }
            r.append("\\n");
        } else if c == '\r' {
            proof {
                reveal_strlit("\\r");
            }
            r.append("\\r");
        } else if c == '\t' {
            proof {
                reveal_strlit("\\t");
            }
            r.append("\\t");
        } else if (c as u32) < 0x20 {
            let code = c as u32;
            let high = (code / 16) as usize;
            let low = (code % 16) as usize;
            proof {
                reveal_strlit("\\u00");
            }
            r.append("\\u00");
            r.append(HEX_DIGITS.substring_char(high, high + 1));
            r.append(HEX_DIGITS.substring_char(low, low + 1));
            assert(HEX_DIGITS@.subrange(high as int, high + 1) =~= seq![hex_digit(code / 16)]);
            assert(HEX_DIGITS@.subrange(low as int, low + 1) =~= seq![hex_digit(code % 16)]);
        } else {
            r.append(s.substring_char(i, i + 1));
            assert(s@.subrange(i as int, i + 1) =~= seq![c]);
        }
        assert(r@ =~= before + escape_char(c));
        assert(s@.subrange(0, i + 1).drop_last() =~= s@.subrange(0, i as int));
        i += 1;
    }
    assert(s@.subrange(0, n as int) =~= s@);
    r
}

/// The reply to a request without a question.
pub fn no_question_response() -> (r: Response)
    ensures
        r.status == 200,
        r.content_type@ == TEXT_PLAIN@,
        r.body@ == NO_QUESTION@,
{
    Response {
        status: 200,
        content_type: String::from_str(TEXT_PLAIN),
        body: String::from_str(NO_QUESTION),
    }
}

/// The reply that carries answer `a` as JSON.
pub fn answer_response(a: &str) -> (r: Response)
    ensures
        r.status == 200,
        r.content_type@ == APPLICATION_JSON@,
        r.body@ == answer_json(a@),
{
    let mut body = String::from_str(JSON_HEAD);
    let inner = json_escape(a);
    body.append(inner.as_str());
    body.append(JSON_TAIL);
    Response { status: 200, content_type: String::from_str(APPLICATION_JSON), body }
}

/// Decides what to do with a request body: an empty one gets the fixed reply and touches
/// neither the store nor the model, one that is not UTF-8 is rejected, and any other one
/// begins the resolution of the question that it holds.
pub fn receive(body: Vec<u8>) -> (r: Intake)
    ensures
        body@.len() == 0 ==> (r matches Intake::Reply(resp) && resp.status == 200
            && resp.content_type@ == TEXT_PLAIN@ && resp.body@ == NO_QUESTION@),
        body@.len() > 0 && !valid_utf8(body@) ==> r matches Intake::Reject(
            ResolveError::InvalidInput,
        ),
        body@.len() > 0 && valid_utf8(body@) ==> (r matches Intake::Resolve(res, act) && (
        res@, act@) == started(decode_utf8(body@))),
{
    if body.len() == 0 {
        return Intake::Reply(no_question_response());
    }
    let ghost bytes = body@;
    match utf8_text(body) {
        None => Intake::Reject(ResolveError::InvalidInput),
        Some(question) => {
            assert(decode_utf8(bytes).len() > 0);
            let (res, act) = Resolver::start(question);
            Intake::Resolve(res, act)
        },
    }
}

} // verus!
