//! Outgoing messages: what to do with a text that the user submitted, and
//! what to tell the user when sending failed.

use crate::outside::content_is_valid;
use vstd::prelude::*;

verus! {

/// The longest content, in characters, that the remote service accepts.
pub const CONTENT_LIMIT: usize = 2000;

/// What follows from a text that the user submitted.
#[derive(Clone, Debug, PartialEq, Eq)]
pub enum SendAction {
    /// Ask the remote service, once, to create this message.
    Dispatch { channel_id: u64, content: String },
    /// Make no request and show this notice to the user.
    Notify(String),
}

pub enum SendActionView {
    Dispatch { channel_id: u64, content: Seq<char> },
    Notify(Seq<char>),
}

impl View for SendAction {
    type V = SendActionView;

    open spec fn view(&self) -> SendActionView {
        match *self {
            SendAction::Dispatch { channel_id, content } => SendActionView::Dispatch {
                channel_id,
                content: content@,
            },
            SendAction::Notify(text) => SendActionView::Notify(text@),
        }
    }
}

/// A text within the limit is sent as it is; a longer one is not sent at
/// all, and the user is told so.
pub open spec fn send_plan(channel_id: u64, input: Seq<char>) -> SendActionView {
    if input.len() <= CONTENT_LIMIT {
        SendActionView::Dispatch { channel_id, content: input }
    } else {
        SendActionView::Notify("Message content's invalid"@)
    }
}

/// The notice for a request that the remote service turned down: the
/// reason, behind a fixed introduction. A request that went through gives
/// none. Either way nothing is sent again.
pub open spec fn send_report_spec(outcome: Result<(), Seq<char>>) -> Option<Seq<char>> {
    match outcome {
        Ok(_) => None,
        Err(reason) => Some("An error occurred sending message: "@ + reason),
    }
}

pub open spec fn outcome_text(outcome: Result<(), String>) -> Result<(), Seq<char>> {
    match outcome {
        Ok(_) => Ok(()),
        Err(reason) => Err(reason@),
    }
}

pub open spec fn notice_text(notice: Option<String>) -> Option<Seq<char>> {
    match notice {
        Some(text) => Some(text@),
        None => None,
    }
}

/// Decides what to do with the text `input`, in which references to users
/// and roles are already resolved, for the channel `channel_id`.
pub fn send_message(channel_id: u64, input: &str) -> (r: SendAction)
    ensures
        r@ == send_plan(channel_id, input@),
{
    if content_is_valid(input) {
        SendAction::Dispatch { channel_id, content: String::from_str(input) }
    } else {
        SendAction::Notify(String::from_str("Message content's invalid"))
    }
}

/// The notice to show after a request to create a message has ended.
pub fn send_report(outcome: Result<(), String>) -> (r: Option<String>)
    ensures
        notice_text(r) == send_report_spec(outcome_text(outcome)),
{
    match outcome {
        Ok(_) => None,
        Err(reason) => {
            let mut text = String::from_str("An error occurred sending message: ");
            text.append(reason.as_str());
            Some(text)
        },
    }
}

} // verus!
