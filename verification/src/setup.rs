//! First-run setup: reading what the Telegram bot answers while the user
//! connects it.

use vstd::prelude::*;
use crate::text::{decimal_int, decimal_text};

verus! {

/// What `getMe` answered: the bot's user name, or the error to report.
pub open spec fn bot_identity_of(
    ok: Option<bool>,
    description: Option<String>,
    username: Option<String>,
) -> Result<Seq<char>, Seq<char>> {
    if ok != Some(true) {
        Err(
            match description {
                Some(d) => d@,
                None => "unknown error"@,
            },
        )
    } else {
        Ok(
            match username {
                Some(u) => u@,
                None => "unknown"@,
            },
        )
    }
}

/// Read the answer to `getMe`: unless `ok` is true, its description (or
/// `unknown error`) is the error; otherwise the bot's user name (or
/// `unknown`).
pub fn bot_identity(ok: Option<bool>, description: Option<String>, username: Option<String>) -> (r:
    Result<String, String>)
    ensures
        match r {
            Ok(u) => bot_identity_of(ok, description, username) == Ok::<Seq<char>, Seq<char>>(u@),
            Err(e) => bot_identity_of(ok, description, username) == Err::<Seq<char>, Seq<char>>(
                e@,
            ),
        },
{
    let confirmed = match ok {
        Some(b) => b,
        None => false,
    };
    if !confirmed {
        return Err(
            match description {
                Some(d) => d,
                None => String::from_str("unknown error"),
            },
        );
    }
    Ok(
        match username {
            Some(u) => u,
            None => String::from_str("unknown"),
        },
    )
}

/// The offset that skips every update up to the last one seen (whose id
/// reads as zero where missing).
pub fn skip_offset(last_update_id: Option<i64>) -> (r: i64)
    requires
        last_update_id != Some(i64::MAX),
    ensures
        r == (match last_update_id {
            Some(i) => i,
            None => 0,
        }) + 1,
{
    match last_update_id {
        Some(i) => i + 1,
        None => 1,
    }
}

/// The chat id of the first update that is a message from a chat, as
/// decimal text.
pub open spec fn first_chat_id_of(chat_ids: Seq<Option<i64>>) -> Option<Seq<char>>
    decreases chat_ids.len(),
{
    if chat_ids.len() == 0 {
        None
    } else {
        match chat_ids[0] {
            Some(id) => Some(decimal_int(id as int)),
            None => first_chat_id_of(chat_ids.drop_first()),
        }
    }
}

/// Find the chat id in polled updates, each given by the chat id of its
/// message (none where the update is no message from a chat).
pub fn first_chat_id(chat_ids: &Vec<Option<i64>>) -> (r: Option<String>)
    ensures
        match r {
            Some(t) => first_chat_id_of(chat_ids@) == Some(t@),
            None => first_chat_id_of(chat_ids@) is None,
        },
{
    let mut i: usize = 0;
    assert(chat_ids@.skip(0) =~= chat_ids@);
    while i < chat_ids.len()
        invariant
            i <= chat_ids@.len(),
            first_chat_id_of(chat_ids@) == first_chat_id_of(chat_ids@.skip(i as int)),
        decreases chat_ids@.len() - i,
    {
        assert(chat_ids@.skip(i as int).drop_first() =~= chat_ids@.skip(i + 1));
        if let Some(id) = chat_ids[i] {
            return Some(decimal_text(id as i128));
        }
        i = i + 1;
    }
    None
}

/// The waiting indicator: the next count (cycling through 0..4) and that
/// many dots plus one.
pub fn waiting_dots(dots: usize) -> (r: (usize, String))
    ensures
        r.0 == (dots as int + 1) % 4,
        r.1@.len() == r.0 + 1,
        forall|k: int| 0 <= k < r.1@.len() ==> r.1@[k] == '.',
{
    let next = if dots >= 3 {
        (dots % 4 + 1) % 4
    } else {
        dots + 1
    };
    let mut s = String::new();
    let mut i: usize = 0;
    while i <= next
        invariant
            next < 4,
            i <= next + 1,
            s@.len() == i,
            forall|k: int| 0 <= k < s@.len() ==> s@[k] == '.',
        decreases next + 1 - i,
    {
        s.append(".");
        proof {
            reveal_strlit(".");
        }
        i = i + 1;
    }
    (next, s)
}

} // verus!
