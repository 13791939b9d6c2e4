//! The event bridge: what the launch process reports becomes a notification
//! for the user interface.
//!
//! The bridge decides what is sent and on which channel; sending is left to
//! the caller, who reports back whether the sink took the notification.

use vstd::prelude::*;
use vstd::slice::slice_to_vec;
use vstd::string::*;
use vstd::utf8::*;

verus! {

/// The outbound channels. Standard output and standard error share one.
#[derive(Clone, Copy, Debug, PartialEq, Eq, Structural)]
pub enum Channel {
    ProcessOutput,
    ProgressUpdate,
}

/// The name under which the sink knows a channel.
pub open spec fn channel_name(channel: Channel) -> Seq<char> {
    match channel {
        Channel::ProcessOutput => "process-output"@,
        Channel::ProgressUpdate => "progress-update"@,
    }
}

impl Channel {
    /// The name of this channel, as [`channel_name`] defines it.
    pub fn name(&self) -> (text: &'static str)
        ensures
            text@ == channel_name(*self),
    {
        match self {
            Channel::ProcessOutput => "process-output",
            Channel::ProgressUpdate => "progress-update",
        }
    }
}

/// Why an event did not reach the user interface.
#[derive(Clone, Copy, Debug, PartialEq, Eq, Structural)]
pub enum BridgeError {
    /// The process wrote bytes that are not valid text.
    Encoding,
    /// The sink is closed or gone.
    Sink,
}

impl BridgeError {
    /// Whether the launch has to stop over this error: it has when the sink
    /// is lost, since nobody can follow the launch any more, and has not
    /// over a chunk that could not be read.
    pub fn aborts_launch(&self) -> (fatal: bool)
        ensures
            fatal <==> *self == BridgeError::Sink,
    {
        match self {
            BridgeError::Encoding => false,
            BridgeError::Sink => true,
        }
    }
}

/// One notification: a payload and the channel it goes out on.
#[derive(Debug, PartialEq, Eq)]
pub struct Notification<P> {
    pub channel: Channel,
    pub payload: P,
}

/// Turns a chunk of the process's output, standard or error, into the
/// notification to send. Bytes that are not valid UTF-8 yield
/// [`BridgeError::Encoding`], and then there is nothing to send.
pub fn on_output_chunk(bytes: &[u8]) -> (relayed: Result<Notification<String>, BridgeError>)
    ensures
        valid_utf8(bytes@) ==> relayed is Ok,
        !valid_utf8(bytes@) ==> relayed == Err::<Notification<String>, BridgeError>(
            BridgeError::Encoding,
        ),
        relayed matches Ok(notification) ==> notification.channel == Channel::ProcessOutput
            && notification.payload@ == decode_utf8(bytes@),
{
    match String::from_utf8(slice_to_vec(bytes)) {
        Ok(text) => Ok(Notification { channel: Channel::ProcessOutput, payload: text }),
        Err(_) => Err(BridgeError::Encoding),
    }
}

/// Wraps a progress update, unchanged, into the notification to send.
pub fn on_progress<P>(update: P) -> (notification: Notification<P>)
    ensures
        notification.channel == Channel::ProgressUpdate,
        notification.payload == update,
{
    Notification { channel: Channel::ProgressUpdate, payload: update }
}

/// What a relay comes to once the sink has answered: success when it took
/// the notification, [`BridgeError::Sink`] when it did not.
pub fn delivery_result(accepted: bool) -> (result: Result<(), BridgeError>)
    ensures
        accepted ==> result == Ok::<(), BridgeError>(()),
        !accepted ==> result == Err::<(), BridgeError>(BridgeError::Sink),
{
    if accepted {
        Ok(())
    } else {
        Err(BridgeError::Sink)
    }
}

/// The two channels have different names.
pub proof fn lemma_channel_names_distinct()
    ensures
        channel_name(Channel::ProcessOutput) != channel_name(Channel::ProgressUpdate),
{
    reveal_strlit("process-output");
    reveal_strlit("progress-update");
    assert(channel_name(Channel::ProcessOutput).len() != channel_name(
        Channel::ProgressUpdate,
    ).len());
}

} // verus!
