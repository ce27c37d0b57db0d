//! The closed error taxonomy: every externally visible failure is exactly one
//! of these variants, and the mapping from variant to HTTP status is a pure,
//! total function of the tag alone.

use vstd::prelude::*;
use vstd::string::StrSliceExecFns;

verus! {

/// A hexadecimal digit, lower case.
pub open spec fn hex_digit(d: int) -> char {
    if d == 0 {
        '0'
    } else if d == 1 {
        '1'
    } else if d == 2 {
        '2'
    } else if d == 3 {
        '3'
    } else if d == 4 {
        '4'
    } else if d == 5 {
        '5'
    } else if d == 6 {
        '6'
    } else if d == 7 {
        '7'
    } else if d == 8 {
        '8'
    } else if d == 9 {
        '9'
    } else if d == 10 {
        'a'
    } else if d == 11 {
        'b'
    } else if d == 12 {
        'c'
    } else if d == 13 {
        'd'
    } else if d == 14 {
        'e'
    } else {
        'f'
    }
}

/// One character of a JSON string: the quote and the backslash get a
/// backslash escape, a control character its `\u00XX` form, anything else
/// stands as it is.
pub open spec fn escape_char(c: char) -> Seq<char> {
    if c == '"' {
        seq!['\\', '"']
    } else if c == '\\' {
        seq!['\\', '\\']
    } else if (c as u32) < 32 {
        seq!['\\', 'u', '0', '0', hex_digit((c as u32) as int / 16), hex_digit((c as u32) as int % 16)]
    } else {
        seq![c]
    }
}

/// A message escaped for a JSON string.
pub open spec fn json_escape(s: Seq<char>) -> Seq<char>
    decreases s.len(),
{
    if s.len() == 0 {
        Seq::empty()
    } else {
        json_escape(s.drop_last()) + escape_char(s.last())
    }
}

/// The JSON error body every error path renders.
pub open spec fn json_error_body(msg: Seq<char>) -> Seq<char> {
    "{\"error_message\":\""@ + json_escape(msg) + "\"}"@
}

/// The hexadecimal digit character for a value below sixteen.
fn hex_digit_char(d: u32) -> (c: char)
    requires
        d < 16,
    ensures
        c == hex_digit(d as int),
{
    if d == 0 {
        '0'
    } else if d == 1 {
        '1'
    } else if d == 2 {
        '2'
    } else if d == 3 {
        '3'
    } else if d == 4 {
        '4'
    } else if d == 5 {
        '5'
    } else if d == 6 {
        '6'
    } else if d == 7 {
        '7'
    } else if d == 8 {
        '8'
    } else if d == 9 {
        '9'
    } else if d == 10 {
        'a'
    } else if d == 11 {
        'b'
    } else if d == 12 {
        'c'
    } else if d == 13 {
        'd'
    } else if d == 14 {
        'e'
    } else {
        'f'
    }
}

/// Appends the escape of `c`.
fn push_escaped(out: &mut Vec<char>, c: char)
    ensures
        final(out)@ == old(out)@ + escape_char(c),
{
    if c == '"' {
        out.push('\\');
        out.push('"');
        proof {
            assert(out@ =~= old(out)@ + escape_char(c));
        }
    } else if c == '\\' {
        out.push('\\');
        out.push('\\');
        proof {
            assert(out@ =~= old(out)@ + escape_char(c));
        }
    } else {
        let cv = c as u32;
        if cv < 32 {
            out.push('\\');
            out.push('u');
            out.push('0');
            out.push('0');
            out.push(hex_digit_char(cv / 16));
            out.push(hex_digit_char(cv % 16));
            proof {
                assert(out@ =~= old(out)@ + escape_char(c));
            }
        } else {
            out.push(c);
            proof {
                assert(out@ =~= old(out)@ + escape_char(c));
            }
        }
    }
}

/// The failure kinds of the service. Each carries the human-readable message
/// rendered in the JSON error body `{ "error_message": <string> }`.
#[derive(Debug)]
pub enum EzyTutorError {
    /// Any lower-level storage failure, constraint violations included.
    DatabaseError(String),
    /// A failure raised by the request framework itself before the handler ran.
    ActixError(String),
    /// Zero rows where one or more were expected.
    NotFound(String),
    /// Malformed caller input, an unparseable request body included.
    InvalidInput(String),
}

impl Clone for EzyTutorError {
    fn clone(&self) -> (r: Self)
        ensures
            r == *self,
    {
        match self {
            EzyTutorError::DatabaseError(m) => EzyTutorError::DatabaseError(m.clone()),
            EzyTutorError::ActixError(m) => EzyTutorError::ActixError(m.clone()),
            EzyTutorError::NotFound(m) => EzyTutorError::NotFound(m.clone()),
            EzyTutorError::InvalidInput(m) => EzyTutorError::InvalidInput(m.clone()),
        }
    }
}

impl EzyTutorError {
    /// The HTTP status each variant maps to, independent of its message.
    pub open spec fn spec_status(&self) -> u16 {
        match self {
            EzyTutorError::DatabaseError(_) => 500,
            EzyTutorError::ActixError(_) => 500,
            EzyTutorError::NotFound(_) => 404,
            EzyTutorError::InvalidInput(_) => 400,
        }
    }

    /// The message the variant carries.
    pub open spec fn spec_message(&self) -> Seq<char> {
        match self {
            EzyTutorError::DatabaseError(m) => m@,
            EzyTutorError::ActixError(m) => m@,
            EzyTutorError::NotFound(m) => m@,
            EzyTutorError::InvalidInput(m) => m@,
        }
    }

    /// The status-code mapping of the taxonomy: 404 for absence, 400 for bad
    /// input, 500 for storage and framework failures.
    pub fn status_code(&self) -> (s: u16)
        ensures
            s == self.spec_status(),
    {
        match self {
            EzyTutorError::DatabaseError(_) => 500,
            EzyTutorError::ActixError(_) => 500,
            EzyTutorError::NotFound(_) => 404,
            EzyTutorError::InvalidInput(_) => 400,
        }
    }

    /// Renders the variant's JSON error body, the message escaped, as
    /// characters: `{ "error_message": <string> }` for every error path.
    pub fn error_response_body(&self) -> (v: Vec<char>)
        ensures
            v@ == json_error_body(self.spec_message()),
    {
        let message = self.error_message();
        render_error_body(message.as_str())
    }

    /// The message for the JSON error body.
    pub fn error_message(&self) -> (m: String)
        ensures
            m@ == self.spec_message(),
    {
        match self {
            EzyTutorError::DatabaseError(m) => m.clone(),
            EzyTutorError::ActixError(m) => m.clone(),
            EzyTutorError::NotFound(m) => m.clone(),
            EzyTutorError::InvalidInput(m) => m.clone(),
        }
    }
}

/// Renders the JSON error body for a message: the fixed frame around the
/// escaped message.
#[verifier::loop_isolation(false)]
pub fn render_error_body(msg: &str) -> (v: Vec<char>)
    ensures
        v@ == json_error_body(msg@),
{
    let prefix = "{\"error_message\":\"";
    proof {
        reveal_strlit("{\"error_message\":\"");
        reveal_strlit("\"}");
    }
    let mut out: Vec<char> = Vec::new();
    let prefix_len = prefix.unicode_len();
    let mut i: usize = 0;
    while i < prefix_len
        invariant
            i <= prefix_len,
            out@ == prefix@.take(i as int),
        decreases prefix_len - i,
    {
        out.push(prefix.get_char(i));
        proof {
            assert(out@ =~= prefix@.take(i + 1));
        }
        i += 1;
    }
    proof {
        assert(prefix@.take(prefix_len as int) =~= prefix@);
        assert(json_escape(msg@.take(0)) =~= Seq::<char>::empty());
        assert(out@ =~= prefix@ + json_escape(msg@.take(0)));
    }
    let msg_len = msg.unicode_len();
    let mut j: usize = 0;
    while j < msg_len
        invariant
            j <= msg_len,
            out@ == prefix@ + json_escape(msg@.take(j as int)),
        decreases msg_len - j,
    {
        push_escaped(&mut out, msg.get_char(j));
        proof {
            assert(msg@.take(j + 1).drop_last() =~= msg@.take(j as int));
            assert(msg@.take(j + 1).last() == msg@[j as int]);
        }
        j += 1;
    }
    proof {
        assert(msg@.take(msg_len as int) =~= msg@);
    }
    out.push('"');
    out.push('}');
    proof {
        assert(out@ =~= json_error_body(msg@));
    }
    out
}

} // verus!
