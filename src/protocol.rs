//! The frames exchanged with a connected client, and the texts the server
//! answers the sender with.

use vstd::prelude::*;
use vstd::string::StringExecFns;

verus! {

/// A client event, tagged by its variant.
#[derive(Debug)]
pub enum WsMessage {
    /// A direct message; on the way out `to_user_id` carries the sender.
    TextMessage { to_user_id: i32, content: String },
    /// A message to a group.
    GroupMessage { group_id: i32, content: String },
    /// A typing indicator for a conversation or a group.
    Typing { conversation_id: Option<i32>, group_id: Option<i32>, is_typing: bool },
    /// A read receipt.
    MessageRead { message_id: i32 },
    /// A presence notice (online, offline, away).
    UserStatus { user_id: i32, status: String },
}

/// A connected client as the server knows it.
#[derive(Debug)]
pub struct WsClient {
    pub user_id: i32,
    pub connection_id: String,
}

/// The character of the decimal digit `d`.
pub open spec fn digit_char(d: nat) -> char {
    if d == 0 {
        '0'
    } else if d == 1 {
        '1'
    } else if d == 2 {
        '2'
    } else if d == 3 {
        '3'
    } else if d == 4 {
        '4'
    } else if d == 5 {
        '5'
    } else if d == 6 {
        '6'
    } else if d == 7 {
        '7'
    } else if d == 8 {
        '8'
    } else {
        '9'
    }
}

/// The decimal digits of `n`, most significant first, without leading zeros.
pub open spec fn digits_of(n: nat) -> Seq<char>
    decreases n,
{
    if n < 10 {
        seq![digit_char(n)]
    } else {
        digits_of(n / 10).push(digit_char(n % 10))
    }
}

/// `n` written in decimal, with a leading `-` when negative.
pub open spec fn decimal_of(n: int) -> Seq<char> {
    if n < 0 {
        seq!['-'] + digits_of((-n) as nat)
    } else {
        digits_of(n as nat)
    }
}

fn digit_str(d: u32) -> (r: &'static str)
    requires
        d < 10,
    ensures
        r@ == seq![digit_char(d as nat)],
{
    if d == 0 {
        proof { reveal_strlit("0"); }
        "0"
    } else if d == 1 {
        proof { reveal_strlit("1"); }
        "1"
    } else if d == 2 {
        proof { reveal_strlit("2"); }
        "2"
    } else if d == 3 {
        proof { reveal_strlit("3"); }
        "3"
    } else if d == 4 {
        proof { reveal_strlit("4"); }
        "4"
    } else if d == 5 {
        proof { reveal_strlit("5"); }
        "5"
    } else if d == 6 {
        proof { reveal_strlit("6"); }
        "6"
    } else if d == 7 {
        proof { reveal_strlit("7"); }
        "7"
    } else if d == 8 {
        proof { reveal_strlit("8"); }
        "8"
    } else {
        proof { reveal_strlit("9"); }
        "9"
    }
}

fn push_digits(s: &mut String, n: u32)
    ensures
        final(s)@ == old(s)@ + digits_of(n as nat),
    decreases n,
{
    if n >= 10 {
        push_digits(s, n / 10);
    }
    s.append(digit_str(n % 10));
    proof {
        if n >= 10 {
            assert(old(s)@ + digits_of((n / 10) as nat) + seq![digit_char((n % 10) as nat)]
                =~= old(s)@ + digits_of(n as nat));
        } else {
            assert(old(s)@ + seq![digit_char((n % 10) as nat)] =~= old(s)@ + digits_of(n as nat));
        }
    }
}

/// Appends `n` in decimal to `s`.
pub fn push_decimal(s: &mut String, n: i32)
    ensures
        final(s)@ == old(s)@ + decimal_of(n as int),
{
    if n < 0 {
        proof { reveal_strlit("-"); }
        s.append("-");
        let magnitude: u32 = (0i64 - n as i64) as u32;
        push_digits(s, magnitude);
        proof {
            assert(old(s)@ + seq!['-'] + digits_of(magnitude as nat) =~= old(s)@ + decimal_of(n as int));
        }
    } else {
        push_digits(s, n as u32);
    }
}

/// The acknowledgement of a stored direct message.
pub open spec fn sent_ack(content: Seq<char>) -> Seq<char> {
    "Sent: "@ + content
}

/// The acknowledgement of a stored group message.
pub open spec fn sent_group_ack(content: Seq<char>) -> Seq<char> {
    "Sent Group: "@ + content
}

/// The answer to a direct message that could not be stored.
pub open spec fn direct_failure_ack() -> Seq<char> {
    "Error: Failed to send message"@
}

/// The answer to a group message that could not be stored.
pub open spec fn group_failure_ack(error: Seq<char>) -> Seq<char> {
    "Error: "@ + error
}

/// The text a group sees for `content` sent by `sender`.
pub open spec fn group_line(sender: int, content: Seq<char>) -> Seq<char> {
    decimal_of(sender) + ": "@ + content
}

/// `"Sent: "` followed by `content`.
pub fn sent_text(content: &str) -> (r: String)
    ensures
        r@ == sent_ack(content@),
{
    let s = String::from_str("Sent: ");
    s.concat(content)
}

/// `"Sent Group: "` followed by `content`.
pub fn sent_group_text(content: &str) -> (r: String)
    ensures
        r@ == sent_group_ack(content@),
{
    let s = String::from_str("Sent Group: ");
    s.concat(content)
}

/// The error answer to a direct message that was not stored.
pub fn direct_failure_text() -> (r: String)
    ensures
        r@ == direct_failure_ack(),
{
    String::from_str("Error: Failed to send message")
}

/// `"Error: "` followed by `error`.
pub fn group_failure_text(error: &str) -> (r: String)
    ensures
        r@ == group_failure_ack(error@),
{
    let s = String::from_str("Error: ");
    s.concat(error)
}

/// `sender` in decimal, `": "`, then `content`.
pub fn group_line_text(sender: i32, content: &str) -> (r: String)
    ensures
        r@ == group_line(sender as int, content@),
{
    let mut s = String::new();
    push_decimal(&mut s, sender);
    s.append(": ");
    let r = s.concat(content);
    proof {
        assert(Seq::<char>::empty() + decimal_of(sender as int) =~= decimal_of(sender as int));
    }
    r
}

} // verus!
