//! What the server answers without running a command: the JSON error
//! bodies, and the status of a failed command.

use vstd::prelude::*;
use vstd::string::*;

verus! {

/// How the body of an answer is to be read.
#[derive(Clone, Copy, PartialEq, Eq, Structural)]
pub enum ContentKind {
    Json,
    Text,
    Html,
}

/// An answer to a request: a status code and a body.
pub struct Reply {
    pub status: u16,
    pub body: String,
    pub content: ContentKind,
}

/// A lower-case hexadecimal digit.
pub open spec fn hex_digit(n: int) -> char {
    if n < 10 {
        ('0' as int + n) as char
    } else {
        ('a' as int + n - 10) as char
    }
}

/// How one character is written inside a JSON string.
pub open spec fn escape_char(c: char) -> Seq<char> {
    if c == '"' {
        seq!['\\', '"']
    } else if c == '\\' {
        seq!['\\', '\\']
    } else if c == '\u{8}' {
        seq!['\\', 'b']
    } else if c == '\t' {
        seq!['\\', 't']
    } else if c == '\n' {
        seq!['\\', 'n']
    } else if c == '\u{c}' {
        seq!['\\', 'f']
    } else if c == '\r' {
        seq!['\\', 'r']
    } else if (c as int) < 0x20 {
        seq!['\\', 'u', '0', '0', hex_digit(c as int / 16), hex_digit(c as int % 16)]
    } else {
        seq![c]
    }
}

/// The characters of a text, each written as inside a JSON string.
pub open spec fn escape_text(s: Seq<char>) -> Seq<char>
    decreases s.len(),
{
    if s.len() == 0 {
        Seq::empty()
    } else {
        escape_char(s[0]) + escape_text(s.drop_first())
    }
}

/// A text written as a JSON string literal.
pub open spec fn json_quote(s: Seq<char>) -> Seq<char> {
    seq!['"'] + escape_text(s) + seq!['"']
}

/// Writes a text as a JSON string literal (`serde_json::to_string` on a
/// `&str`): in double quotes, with `"` and `\` escaped by a backslash, the
/// control characters below U+0020 as `\b`, `\t`, `\n`, `\f`, `\r` or
/// `\u00xx` (lower-case hex), and every other character as it is.
#[verifier::external_body]
pub(crate) fn quote_json(s: &str) -> (r: String)
    ensures
        r@ == json_quote(s@),
{
    serde_json::to_string(s).unwrap_or_default()
}

/// The compact JSON object `{"error": message}`.
pub open spec fn error_json(message: Seq<char>) -> Seq<char> {
    "{\"error\":"@ + json_quote(message) + "}"@
}

/// Builds the compact JSON object `{"error": message}`.
pub fn error_body(message: &str) -> (r: String)
    ensures
        r@ == error_json(message@),
{
    String::from_str("{\"error\":").concat(quote_json(message).as_str()).concat("}")
}

/// The status of the answer to a failed command: an error whose own answer
/// claims success (200) is answered 500 instead.
pub open spec fn failure_status(status: u16) -> u16 {
    if status == 200 {
        500
    } else {
        status
    }
}

/// `json_ok`: the answer to a command's result. `Ok` holds the JSON text
/// of the command's value and is answered 200; `Err` holds the error's own
/// answer, kept but for its status (see `failure_status`).
pub fn json_ok(result: Result<String, Reply>) -> (r: Reply)
    ensures
        match result {
            Ok(body) => r.status == 200 && r.body@ == body@ && r.content == ContentKind::Json,
            Err(e) => r.status == failure_status(e.status) && r.body@ == e.body@ && r.content
                == e.content,
        },
{
    match result {
        Ok(body) => Reply { status: 200, body, content: ContentKind::Json },
        Err(e) => {
            if e.status == 200 {
                Reply { status: 500, body: e.body, content: e.content }
            } else {
                e
            }
        },
    }
}

/// `json_val`: the answer to a command that cannot fail, given the JSON
/// text of its value.
pub fn json_val(body: String) -> (r: Reply)
    ensures
        r.status == 200,
        r.body@ == body@,
        r.content == ContentKind::Json,
{
    Reply { status: 200, body, content: ContentKind::Json }
}

/// The answer that an error message on its own makes: the text, with
/// status 200.
pub fn text_reply(message: String) -> (r: Reply)
    ensures
        r.status == 200,
        r.body@ == message@,
        r.content == ContentKind::Text,
{
    Reply { status: 200, body: message, content: ContentKind::Text }
}

/// A failed command is never answered as a success.
pub proof fn failures_are_not_successes(status: u16)
    ensures
        failure_status(status) != 200,
        status != 200 ==> failure_status(status) == status,
{
}

/// Whether a text needs no escaping inside a JSON string.
pub open spec fn is_plain_text(s: Seq<char>) -> bool {
    forall|i: int| 0 <= i < s.len() ==> (#[trigger] s[i]) != '"' && s[i] != '\\' && (s[i] as int) >= 0x20
}

/// A text without quotes, backslashes or control characters is written
/// between double quotes as it is.
pub proof fn plain_text_is_quoted_as_is(s: Seq<char>)
    requires
        is_plain_text(s),
    ensures
        json_quote(s) == seq!['"'] + s + seq!['"'],
{
    lemma_plain_escape(s);
}

proof fn lemma_plain_escape(s: Seq<char>)
    requires
        is_plain_text(s),
    ensures
        escape_text(s) == s,
    decreases s.len(),
{
    if s.len() > 0 {
        assert(is_plain_text(s.drop_first())) by {
            assert forall|i: int| 0 <= i < s.drop_first().len() implies (#[trigger] s.drop_first()[i]) != '"'
                && s.drop_first()[i] != '\\' && (s.drop_first()[i] as int) >= 0x20 by {
                assert(s.drop_first()[i] == s[i + 1]);
            }
        }
        lemma_plain_escape(s.drop_first());
        assert(s[0] != '"' && s[0] != '\\' && (s[0] as int) >= 0x20);
        assert(escape_char(s[0]) == seq![s[0]]);
        assert(seq![s[0]] + s.drop_first() =~= s);
    } else {
        assert(s =~= Seq::<char>::empty());
    }
}

} // verus!
