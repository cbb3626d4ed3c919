//! How one session reacts to what arrives on its two sides: a line read
//! from its connection (inbound) and a delivery from the hub (outbound).
//!
//! A sender's own messages come back to it: every session, the sender
//! included, is subscribed to the hub before anything is published, and
//! nothing here filters a delivery by its origin.

use vstd::prelude::*;

verus! {

/// How many messages the hub keeps for a subscriber that has not read
/// them; beyond that the oldest are dropped for that subscriber.
pub const HUB_CAPACITY: usize = 1000;

/// What `str::trim` returns for a line: the line without its leading and
/// trailing whitespace.
pub uninterp spec fn trimmed(line: Seq<char>) -> Seq<char>;

/// Relies on std's `str::trim`: the line without leading and trailing
/// whitespace, which is a part of the line, so empty when the line is.
#[verifier::external_body]
fn trim_line(line: &str) -> (r: &str)
    ensures
        r@ == trimmed(line@),
        r@.len() <= line@.len(),
{
    line.trim()
}

/// The result of reading one line from the session's connection.
pub enum InboundRead {
    /// A line, as read (its terminator may still be on it).
    Line(String),
    /// The peer closed the connection.
    EndOfStream,
    /// The read failed.
    Failed,
}

/// What the session does after an inbound read.
pub enum InboundAction {
    /// Publish this message to the hub.
    Publish(String),
    /// Nothing to publish; read the next line.
    Ignore,
    /// End the session.
    Close,
}

/// What the session does after receiving from the hub.
pub enum OutboundAction {
    /// Write these bytes to the connection and flush.
    Write(String),
    /// Nothing to write; wait for the next delivery.
    Wait,
    /// End the session.
    Close,
}

/// What the hub hands a subscriber.
pub enum Delivery {
    /// A published message.
    Message(String),
    /// The subscriber fell behind and this many messages were dropped.
    Lagged(u64),
    /// The hub is gone.
    Closed,
}

/// The action publishes exactly `msg`.
pub open spec fn publishes(a: InboundAction, msg: Seq<char>) -> bool {
    match a {
        InboundAction::Publish(m) => m@ == msg,
        _ => false,
    }
}

/// The action writes exactly `bytes`.
pub open spec fn writes(a: OutboundAction, bytes: Seq<char>) -> bool {
    match a {
        OutboundAction::Write(f) => f@ == bytes,
        _ => false,
    }
}

/// The action is to read on.
pub open spec fn ignores(a: InboundAction) -> bool {
    a is Ignore
}

/// The action ends the session.
pub open spec fn closes_inbound(a: InboundAction) -> bool {
    a is Close
}

/// What an inbound line becomes once trimmed: a blank line is ignored,
/// anything else is published as it stands.
pub fn on_trimmed(msg: String) -> (a: InboundAction)
    ensures
        msg@.len() == 0 ==> ignores(a),
        msg@.len() > 0 ==> publishes(a, msg@),
{
    if msg.as_str().unicode_len() == 0 {
        InboundAction::Ignore
    } else {
        InboundAction::Publish(msg)
    }
}

/// The session's reaction to an inbound read: a line is trimmed and, unless
/// blank, published; end of stream and read errors end the session.
pub fn on_inbound(read: InboundRead) -> (a: InboundAction)
    ensures
        match read {
            InboundRead::Line(line) => {
                &&& trimmed(line@).len() == 0 ==> ignores(a)
                &&& trimmed(line@).len() > 0 ==> publishes(a, trimmed(line@))
            },
            _ => closes_inbound(a),
        },
{
    match read {
        InboundRead::Line(line) => {
            let msg = trim_line(line.as_str()).to_owned();
            on_trimmed(msg)
        },
        InboundRead::EndOfStream => InboundAction::Close,
        InboundRead::Failed => InboundAction::Close,
    }
}

/// A message as it goes on the wire: the message, then a line terminator.
pub fn frame_line(msg: &str) -> (f: String)
    ensures
        f@ == msg@.push('\n'),
{
    let mut f = msg.to_owned();
    proof {
        reveal_strlit("\n");
    }
    f.append("\n");
    assert(f@ =~= msg@.push('\n'));
    f
}

/// The session's reaction to a delivery from the hub: a message is framed
/// and written; a lag report is no error, the session waits for the next
/// delivery; a closed hub ends the session.
pub fn on_delivery(d: Delivery) -> (a: OutboundAction)
    ensures
        match d {
            Delivery::Message(m) => writes(a, m@.push('\n')),
            Delivery::Lagged(_) => a is Wait,
            Delivery::Closed => a is Close,
        },
{
    match d {
        Delivery::Message(m) => OutboundAction::Write(frame_line(m.as_str())),
        Delivery::Lagged(_) => OutboundAction::Wait,
        Delivery::Closed => OutboundAction::Close,
    }
}

} // verus!
