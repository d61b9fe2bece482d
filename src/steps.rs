use crate::message::Message;
use crate::queue::Dequeue;
use vstd::prelude::*;

verus! {

/// Slots in each direction's queue.
pub const QUEUE_CAPACITY: usize = 32;

/// A failure reported by the connection on one send or one receive.
#[derive(Debug, PartialEq, Eq)]
pub struct TransportError {
    pub detail: String,
}

/// Why the process ends before relaying anything.
#[derive(PartialEq, Eq, Structural, Debug, Clone, Copy)]
pub enum StartupError {
    /// No endpoint address was given.
    MissingEndpoint,
    /// The connection to the endpoint could not be opened.
    ConnectFailed,
}

/// What the inbound loop does with one item of the connection's source.
pub enum InboundAction {
    /// Hand the message to the inbound queue.
    Forward(Message),
    /// Discard a receive error and keep listening.
    Skip,
    /// The source has ended: stop the loop.
    Finish,
}

/// What the outbound loop does after taking from the outbound queue.
pub enum OutboundAction {
    /// Send the message on the connection.
    Send(Message),
    /// Nothing queued yet: wait for the reader.
    Wait,
    /// The reader has ended and the queue is drained: stop the loop.
    Finish,
}

/// The line an input read hands on, if it does not end the input.
pub open spec fn read_line_message(read: Option<String>) -> Option<Message> {
    match read {
        Some(line) => if line@.len() > 0 {
            Some(Message::Text(line))
        } else {
            None
        },
        None => None,
    }
}

/// The text a message puts on the output stream.
pub open spec fn message_text(m: Message) -> Seq<char> {
    match m {
        Message::Text(s) => s@,
        _ => Seq::empty(),
    }
}

/// Input reader: a read that yields a non-empty line becomes a text message
/// carrying it verbatim; end of input, a read error (`None`) or an empty read
/// ends the reader.
pub fn on_line_read(read: Option<String>) -> (r: Option<Message>)
    ensures
        r == read_line_message(read),
{
    match read {
        Some(line) => {
            if line.as_str().is_empty() {
                None
            } else {
                Some(Message::Text(line))
            }
        },
        None => None,
    }
}

/// Output writer: a text message yields its payload to write and flush; any
/// other frame yields nothing.
pub fn on_inbound_dequeued(m: Message) -> (r: Option<String>)
    ensures
        m is Text <==> r is Some,
        r matches Some(s) ==> s@ == message_text(m),
{
    match m {
        Message::Text(s) => Some(s),
        _ => None,
    }
}

/// Inbound loop: `None` is the end of the connection's source.
pub fn on_received(item: Option<Result<Message, TransportError>>) -> (r: InboundAction)
    ensures
        item is None <==> r is Finish,
        item matches Some(Err(_)) <==> r is Skip,
        item matches Some(Ok(m)) ==> r == InboundAction::Forward(m),
{
    match item {
        Some(Ok(m)) => InboundAction::Forward(m),
        Some(Err(_)) => InboundAction::Skip,
        None => InboundAction::Finish,
    }
}

/// Outbound loop: forwards whatever the queue yields, in order.
pub fn on_outbound_dequeued(d: Dequeue<Message>) -> (r: OutboundAction)
    ensures
        d is Wait <==> r is Wait,
        d is Finished <==> r is Finish,
        d matches Dequeue::Item(m) ==> r == OutboundAction::Send(m),
{
    match d {
        Dequeue::Item(m) => OutboundAction::Send(m),
        Dequeue::Wait => OutboundAction::Wait,
        Dequeue::Finished => OutboundAction::Finish,
    }
}

/// The endpoint address: the first argument after the program's name.
pub fn endpoint_from_args(args: &Vec<String>) -> (r: Result<String, StartupError>)
    ensures
        args@.len() >= 2 ==> (r matches Ok(s) && s@ == args@[1]@),
        args@.len() < 2 ==> r == Err::<String, StartupError>(StartupError::MissingEndpoint),
{
    if args.len() >= 2 {
        Ok(args[1].clone())
    } else {
        Err(StartupError::MissingEndpoint)
    }
}

} // verus!
