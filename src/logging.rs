//! The reference handler: it writes one line per event to a log that the
//! caller supplies, returns `Next`, and leaves all state alone.

use vstd::prelude::*;

use crate::api::{Message, User};
use crate::event::{Event, EventError, MessageEvent};
use crate::handler::Action;

verus! {

pub open spec fn digit_char(d: nat) -> char {
    if d == 0 {
        '0'
    } else if d == 1 {
        '1'
    } else if d == 2 {
        '2'
    } else if d == 3 {
        '3'
    } else if d == 4 {
        '4'
    } else if d == 5 {
        '5'
    } else if d == 6 {
        '6'
    } else if d == 7 {
        '7'
    } else if d == 8 {
        '8'
    } else {
        '9'
    }
}

/// The decimal digits of `n`, most significant first, without leading zeros.
pub open spec fn digits(n: nat) -> Seq<char>
    decreases n,
{
    if n < 10 {
        seq![digit_char(n)]
    } else {
        digits(n / 10).push(digit_char(n % 10))
    }
}

/// `n` written in decimal, with a leading `-` when negative.
pub open spec fn decimal(n: int) -> Seq<char> {
    if n < 0 {
        seq!['-'] + digits((-n) as nat)
    } else {
        digits(n as nat)
    }
}

/// `(<chat id>) <label> from <sender>: <body>`
pub open spec fn line(label: Seq<char>, chat_id: int, from: Seq<char>, body: Seq<char>) -> Seq<
    char,
> {
    "("@ + decimal(chat_id) + ") "@ + label + " from "@ + from + ": "@ + body
}

pub open spec fn first_name_or_empty(u: Option<User>) -> Seq<char> {
    match u {
        Some(u) => u.first_name@,
        None => Seq::empty(),
    }
}

pub open spec fn text_or_empty(t: Option<String>) -> Seq<char> {
    match t {
        Some(t) => t@,
        None => Seq::empty(),
    }
}

pub open spec fn chat_id_or_zero(m: Option<Message>) -> int {
    match m {
        Some(m) => m.chat.id as int,
        None => 0,
    }
}

/// The line the reference handler logs for an event: chat id, sender's first
/// name and text of a message, or chat id, sender's first name and data of a
/// callback, each empty (zero for the chat id) where absent.
pub open spec fn log_line(e: MessageEvent) -> Result<Seq<char>, EventError> {
    match e {
        MessageEvent::New(m) | MessageEvent::Edited(m) | MessageEvent::Post(m)
        | MessageEvent::EditedPost(m) => Ok(
            line("Message"@, m.chat.id as int, first_name_or_empty(m.from), text_or_empty(m.text)),
        ),
        MessageEvent::Callback(q) => Ok(
            line(
                "Callback"@,
                chat_id_or_zero(q.message),
                q.from.first_name@,
                text_or_empty(q.data),
            ),
        ),
        MessageEvent::Unknown => Err(EventError::UnsupportedEventKind),
    }
}

fn digit_str(d: u64) -> (r: &'static str)
    requires
        d < 10,
    ensures
        r@ == seq![digit_char(d as nat)],
{
    proof {
        reveal_strlit("0");
        reveal_strlit("1");
        reveal_strlit("2");
        reveal_strlit("3");
        reveal_strlit("4");
        reveal_strlit("5");
        reveal_strlit("6");
        reveal_strlit("7");
        reveal_strlit("8");
        reveal_strlit("9");
    }
    if d == 0 {
        "0"
    } else if d == 1 {
        "1"
    } else if d == 2 {
        "2"
    } else if d == 3 {
        "3"
    } else if d == 4 {
        "4"
    } else if d == 5 {
        "5"
    } else if d == 6 {
        "6"
    } else if d == 7 {
        "7"
    } else if d == 8 {
        "8"
    } else {
        "9"
    }
}

fn push_digits(out: &mut String, n: u64)
    ensures
        final(out)@ == old(out)@ + digits(n as nat),
    decreases n,
{
    if n >= 10 {
        push_digits(out, n / 10);
    }
    out.append(digit_str(n % 10));
}

/// Appends `n` in decimal to `out`.
pub fn push_decimal(out: &mut String, n: i64)
    ensures
        final(out)@ == old(out)@ + decimal(n as int),
{
    if n < 0 {
        proof {
            reveal_strlit("-");
        }
        out.append("-");
        let magnitude: u64 = (0i128 - n as i128) as u64;
        push_digits(out, magnitude);
        assert(final(out)@ =~= old(out)@ + decimal(n as int));
    } else {
        push_digits(out, n as u64);
    }
}

fn format_line(label: &str, chat_id: i64, from: &str, body: &str) -> (r: String)
    ensures
        r@ == line(label@, chat_id as int, from@, body@),
{
    let mut out = String::new();
    out.append("(");
    push_decimal(&mut out, chat_id);
    out.append(") ");
    out.append(label);
    out.append(" from ");
    out.append(from);
    out.append(": ");
    out.append(body);
    assert(out@ =~= line(label@, chat_id as int, from@, body@));
    out
}

/// Logs the event to `log` and returns `Next`; fails with
/// `UnsupportedEventKind` on an `Unknown` event. The state is not touched.
pub fn log_handler<A, S>(e: &Event<A>, _state: &S, log: &mut Vec<String>) -> (r: Result<
    Action,
    EventError,
>)
    ensures
        match log_line(e.message) {
            Ok(l) => {
                &&& r matches Ok(Action::Next)
                &&& final(log)@.len() == old(log)@.len() + 1
                &&& final(log)@.take(old(log)@.len() as int) == old(log)@
                &&& final(log)@.last()@ == l
            },
            Err(err) => r == Err::<Action, EventError>(err) && final(log)@ == old(log)@,
        },
{
    let empty = String::new();
    let entry = match &e.message {
        MessageEvent::New(m) | MessageEvent::Edited(m) | MessageEvent::Post(m)
        | MessageEvent::EditedPost(m) => {
            let from: &str = match &m.from {
                Some(u) => u.first_name.as_str(),
                None => empty.as_str(),
            };
            let text: &str = match &m.text {
                Some(t) => t.as_str(),
                None => empty.as_str(),
            };
            format_line("Message", m.chat.id, from, text)
        },
        MessageEvent::Callback(q) => {
            let chat_id: i64 = match &q.message {
                Some(m) => m.chat.id,
                None => 0,
            };
            let data: &str = match &q.data {
                Some(d) => d.as_str(),
                None => empty.as_str(),
            };
            format_line("Callback", chat_id, q.from.first_name.as_str(), data)
        },
        MessageEvent::Unknown => {
            return Err(EventError::UnsupportedEventKind);
        },
    };
    log.push(entry);
    assert(log@.take(old(log)@.len() as int) =~= old(log)@);
    Ok(Action::Next)
}

} // verus!
