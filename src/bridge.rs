use crate::server::HttpServeDirectory;
use vstd::prelude::*;

verus! {

/// What the reader of a connection got from the socket.
#[derive(Clone, Copy, Debug, PartialEq, Eq, Structural)]
pub enum ReaderInput {
    /// A text frame that decoded to a message.
    Text,
    /// A frame of another kind.
    NonText,
    /// A text frame that did not decode.
    Undecodable,
    /// The socket reported an error.
    ReceiveFailed,
    /// The socket has no more frames.
    StreamEnded,
}

/// What the writer of a connection got when draining the outbound queue.
#[derive(Clone, Copy, Debug, PartialEq, Eq, Structural)]
pub enum WriterInput {
    /// The message was encoded and written.
    Written,
    /// The message could not be encoded.
    EncodeFailed,
    /// The socket refused the frame.
    WriteFailed,
    /// Every handle on the outbound queue is gone.
    QueueClosed,
}

/// A terminal event handed to the client's driver loop.
#[derive(Clone, Copy, Debug, PartialEq, Eq, Structural)]
pub enum BridgeEvent {
    RecvError,
    SendError,
    Disconnected,
}

/// What a reader or writer loop does next.
#[derive(Clone, Copy, Debug, PartialEq, Eq, Structural)]
pub enum Step {
    /// Go on with the next item.
    Continue,
    /// Hand the decoded message to the driver loop and go on.
    Forward,
    /// Ignore the frame and go on.
    Skip,
    /// Report the event to the driver loop and end the loop.
    EmitAndStop(BridgeEvent),
    /// End the loop without a report.
    Stop,
}

/// What the driver loop of a client got from its inbound events.
#[derive(Clone, Copy, Debug, PartialEq, Eq, Structural)]
pub enum DriverInput {
    Command,
    Event(BridgeEvent),
    /// Every handle on the inbound queue is gone.
    QueueClosed,
}

/// What the driver loop does next.
#[derive(Clone, Copy, Debug, PartialEq, Eq, Structural)]
pub enum DriverStep {
    /// Run the command handler, queue its answer, and go on.
    HandleCommand,
    /// End the loop and unregister the client.
    Unregister,
}

/// Why the HTTP listener was not started.
#[derive(Clone, Copy, Debug, PartialEq, Eq, Structural)]
pub enum StartError {
    AlreadyStarted,
    BundledUnsupported,
}

/// The state a connection keeps once its two loops have been started.
#[derive(Clone, Copy, Debug, PartialEq, Eq, Structural)]
pub struct Bridge {
    pub disconnect_sent: bool,
}

impl Bridge {
    pub fn new() -> (b: Bridge)
        ensures
            !b.disconnect_sent,
    {
        Bridge { disconnect_sent: false }
    }
}

/// The reader forwards decoded text frames, skips the other kinds, and ends
/// at the first failure with one receive error, or quietly when the stream
/// ends.
pub fn reader_step(i: ReaderInput) -> (s: Step)
    ensures
        i is Text ==> s is Forward,
        i is NonText ==> s is Skip,
        (i is Undecodable || i is ReceiveFailed) ==> s == Step::EmitAndStop(BridgeEvent::RecvError),
        i is StreamEnded ==> s is Stop,
{
    match i {
        ReaderInput::Text => Step::Forward,
        ReaderInput::NonText => Step::Skip,
        ReaderInput::Undecodable | ReaderInput::ReceiveFailed => Step::EmitAndStop(BridgeEvent::RecvError),
        ReaderInput::StreamEnded => Step::Stop,
    }
}

/// The writer goes on after each written message and ends at the first
/// failure with one send error, or quietly when its queue closes.
pub fn writer_step(i: WriterInput) -> (s: Step)
    ensures
        i is Written ==> s is Continue,
        (i is EncodeFailed || i is WriteFailed) ==> s == Step::EmitAndStop(BridgeEvent::SendError),
        i is QueueClosed ==> s is Stop,
{
    match i {
        WriterInput::Written => Step::Continue,
        WriterInput::EncodeFailed | WriterInput::WriteFailed => Step::EmitAndStop(BridgeEvent::SendError),
        WriterInput::QueueClosed => Step::Stop,
    }
}

/// Called when the first of the two loops ends: the disconnect event is
/// reported once, however often this is called.
pub fn on_loop_end(b: &mut Bridge) -> (e: Option<BridgeEvent>)
    ensures
        e == (if old(b).disconnect_sent { None } else { Some(BridgeEvent::Disconnected) }),
        final(b).disconnect_sent,
{
    if b.disconnect_sent {
        None
    } else {
        b.disconnect_sent = true;
        Some(BridgeEvent::Disconnected)
    }
}

/// A decoded command goes to the handler; any terminal event, or the end of
/// the inbound queue, ends the loop and unregisters the client.
pub fn driver_step(i: DriverInput) -> (s: DriverStep)
    ensures
        i is Command ==> s is HandleCommand,
        !(i is Command) ==> s is Unregister,
{
    match i {
        DriverInput::Command => DriverStep::HandleCommand,
        _ => DriverStep::Unregister,
    }
}

/// The listener starts once, and not with bundled files.
pub fn may_start(started: bool, serve: &HttpServeDirectory) -> (r: Result<(), StartError>)
    ensures
        started ==> r == Err::<(), StartError>(StartError::AlreadyStarted),
        !started && serve is Bundled ==> r == Err::<(), StartError>(StartError::BundledUnsupported),
        !started && !(serve is Bundled) ==> r is Ok,
{
    if started {
        Err(StartError::AlreadyStarted)
    } else {
        match serve {
            HttpServeDirectory::Bundled => Err(StartError::BundledUnsupported),
            _ => Ok(()),
        }
    }
}

} // verus!
