use vstd::prelude::*;

use crate::text::{chars_of, decimal, digit_char, push_decimal, push_two_digits, string_from_chars};

verus! {

/// Who wrote a message: a user, by id, or the client itself.
#[derive(Debug, Clone, Copy, PartialEq, Eq, Structural)]
pub enum MessageSender {
    User(u32),
    System,
}

/// One entry of the message history.
pub struct Message {
    /// When the message was written, in seconds since the Unix epoch (UTC).
    pub timestamp: i64,
    pub sender: MessageSender,
    pub content: String,
    /// The display name of the sending user, where it is known.
    pub username: Option<String>,
}

/// Two decimal digits for `n`, which is below a hundred.
pub open spec fn two_digits(n: int) -> Seq<char> {
    seq![digit_char((n / 10) as nat), digit_char((n % 10) as nat)]
}

/// The time of day of `timestamp` (seconds since the Unix epoch) in UTC, as `HH:MM:SS`.
pub open spec fn clock_text(timestamp: int) -> Seq<char> {
    let s = timestamp % 86400;
    two_digits(s / 3600) + seq![':'] + two_digits((s % 3600) / 60) + seq![':'] + two_digits(s % 60)
}

/// The name shown for a sender: the user's name where it is known, else
/// `User: ` and the id, and `System` for the client itself.
pub open spec fn sender_label(sender: MessageSender, username: Option<String>) -> Seq<char> {
    match sender {
        MessageSender::User(id) => match username {
            Some(name) => name@,
            None => "User: "@ + decimal(id as nat),
        },
        MessageSender::System => "System"@,
    }
}

impl Message {
    /// The time of day the message was written, in UTC, as `HH:MM:SS`.
    pub fn format_time(&self) -> (r: String)
        ensures
            r@ == clock_text(self.timestamp as int),
    {
        let s: i64 = match self.timestamp.checked_rem_euclid(86400) {
            Some(v) => v,
            None => 0,
        };
        assert(s == self.timestamp % 86400);
        let s = s as u64;
        let mut out: Vec<char> = Vec::new();
        push_two_digits(&mut out, s / 3600);
        out.push(':');
        push_two_digits(&mut out, (s % 3600) / 60);
        out.push(':');
        push_two_digits(&mut out, s % 60);
        assert(out@ == clock_text(self.timestamp as int));
        string_from_chars(&out)
    }

    /// The name to show beside the message.
    pub fn sender_name(&self) -> (r: String)
        ensures
            r@ == sender_label(self.sender, self.username),
    {
        match self.sender {
            MessageSender::User(id) => match &self.username {
                Some(name) => name.clone(),
                None => {
                    let mut out = chars_of("User: ");
                    push_decimal(&mut out, id as u64);
                    string_from_chars(&out)
                },
            },
            MessageSender::System => "System".to_owned(),
        }
    }
}

} // verus!
