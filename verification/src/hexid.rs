//! Message ids: 64-character hexadecimal strings. Anything else is rejected
//! before the engine is consulted.

use vstd::prelude::*;
use vstd::string::StrSliceExecFns;
use vstd::string::StringExecFns;

verus! {

pub open spec fn is_hex_digit(c: char) -> bool {
    (48 <= (c as u32) && (c as u32) <= 57) || (97 <= (c as u32) && (c as u32) <= 102) || (65 <= (
    c as u32) && (c as u32) <= 70)
}

/// A well-formed message id: exactly 64 hex characters.
pub open spec fn is_hex_id(s: Seq<char>) -> bool {
    s.len() == 64 && forall|i: int| 0 <= i < s.len() ==> is_hex_digit(s[i])
}

/// A message id that has passed the shape check.
#[derive(Debug, Clone, PartialEq, Eq)]
pub struct MessageId {
    pub text: String,
}

impl MessageId {
    pub open spec fn wf(&self) -> bool {
        is_hex_id(self.text@)
    }

    pub fn as_str(&self) -> (r: &str)
        ensures
            r@ == self.text@,
    {
        self.text.as_str()
    }
}

/// Checks the shape of a message id; ids that are not 64 hex characters are
/// never handed to the engine.
pub fn parse_message_id(s: &str) -> (r: Option<MessageId>)
    ensures
        match r {
            Some(m) => is_hex_id(s@) && m.text@ == s@,
            None => !is_hex_id(s@),
        },
{
    let len = s.unicode_len();
    if len != 64 {
        return None;
    }
    let mut i: usize = 0;
    while i < len
        invariant
            i <= len,
            len == s@.len(),
            forall|j: int| 0 <= j < i ==> is_hex_digit(s@[j]),
        decreases len - i,
    {
        let u = s.get_char(i) as u32;
        if !((48 <= u && u <= 57) || (97 <= u && u <= 102) || (65 <= u && u <= 70)) {
            return None;
        }
        i = i + 1;
    }
    Some(MessageId { text: String::from_str(s) })
}

} // verus!
