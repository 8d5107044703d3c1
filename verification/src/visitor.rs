//! Folding a structured event's fields into one message line.
//!
//! An event carries named fields whose values the host renders as
//! text. A field literally named `message` is the message; any other
//! field is kept as `name=value`, appended after a space once a
//! message has begun. When the very first field seen is not the
//! message, the buffering path starts the line as `name=value`, while
//! the live-callback path starts it as `name: value`.

use vstd::prelude::*;

verus! {

/// The message after one field is folded in, buffering style.
pub open spec fn buffered_visit(cur: Seq<char>, name: Seq<char>, value: Seq<char>) -> Seq<char> {
    if name == "message"@ {
        value
    } else if cur.len() == 0 {
        name + "="@ + value
    } else {
        cur + " "@ + name + "="@ + value
    }
}

/// The message after one field is folded in, live-callback style.
pub open spec fn callback_visit(cur: Seq<char>, name: Seq<char>, value: Seq<char>) -> Seq<char> {
    if name == "message"@ {
        value
    } else if cur.len() == 0 {
        name + ": "@ + value
    } else {
        cur + " "@ + name + "="@ + value
    }
}

/// Whether a field's name is the distinguished `message` name.
pub fn is_message_field(name: &str) -> (r: bool)
    ensures
        r == (name@ == "message"@),
{
    proof {
        reveal_strlit("message");
    }
    if name.unicode_len() != 7 {
        return false;
    }
    let r = name.get_char(0) == 'm' && name.get_char(1) == 'e' && name.get_char(2) == 's'
        && name.get_char(3) == 's' && name.get_char(4) == 'a' && name.get_char(5) == 'g'
        && name.get_char(6) == 'e';
    proof {
        if r {
            assert(name@ =~= "message"@);
        }
    }
    r
}

/// Folds one rendered field into the message, buffering style.
pub fn visit_field_buffered(message: &mut String, name: &str, value: &str)
    ensures
        final(message)@ == buffered_visit(old(message)@, name@, value@),
{
    if is_message_field(name) {
        *message = String::from_str(value);
    } else if message.as_str().is_empty() {
        *message = String::from_str(name).concat("=").concat(value);
    } else {
        message.append(" ");
        message.append(name);
        message.append("=");
        message.append(value);
    }
}

/// Folds one rendered field into the message, live-callback style.
pub fn visit_field_callback(message: &mut String, name: &str, value: &str)
    ensures
        final(message)@ == callback_visit(old(message)@, name@, value@),
{
    if is_message_field(name) {
        *message = String::from_str(value);
    } else if message.as_str().is_empty() {
        *message = String::from_str(name).concat(": ").concat(value);
    } else {
        message.append(" ");
        message.append(name);
        message.append("=");
        message.append(value);
    }
}

} // verus!
