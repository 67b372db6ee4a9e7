//! What the agent asks of a task handler.

use vstd::prelude::*;

verus! {

/// The channel ends that a handler gives out. `Tx` sends tasks to the
/// handler, `Rx` receives the tasks that were sent to it.
pub enum ChannelType<Tx, Rx> {
    /// A task channel: the end that feeds an outbound handler, the end that an
    /// inbound handler hands on, each only while it has not been taken.
    Task { sender: Option<Tx>, receiver: Option<Rx> },
    /// The handler drives itself and has no channel.
    Absent,
}

impl<Tx, Rx> ChannelType<Tx, Rx> {
    /// Whether the sending end is given out.
    pub open spec fn has_sender(&self) -> bool {
        self matches ChannelType::Task { sender: Some(_), .. }
    }

    /// Whether the receiving end is given out.
    pub open spec fn has_receiver(&self) -> bool {
        self matches ChannelType::Task { receiver: Some(_), .. }
    }

    /// The sending end, if it is given out.
    pub fn into_sender(self) -> (r: Option<Tx>)
        ensures
            r is Some <==> self.has_sender(),
            self matches ChannelType::Task { sender, .. } ==> r == sender,
    {
        match self {
            ChannelType::Task { sender, .. } => sender,
            ChannelType::Absent => None,
        }
    }

    /// The receiving end, if it is given out.
    pub fn into_receiver(self) -> (r: Option<Rx>)
        ensures
            r is Some <==> self.has_receiver(),
            self matches ChannelType::Task { receiver, .. } ==> r == receiver,
    {
        match self {
            ChannelType::Task { receiver, .. } => receiver,
            ChannelType::Absent => None,
        }
    }
}

/// A worker for one kind of task. The agent starts each handler once, takes
/// from it the channel end that it needs, and tells it to exit when the
/// session ends.
///
/// Handlers drive sockets and threads, so they are written outside this
/// library and nothing is proved of them. What the agent relies on is said
/// here in words.
pub trait TaskHandler<Tx, Rx> {
    /// Begins the background work. It is called once.
    fn start(&mut self);

    /// Asks the handler to shut down: a worker that blocks returns promptly.
    /// A second call changes nothing.
    fn exit(&mut self);

    /// Gives out the ends of the handler's channel that it still holds: the
    /// sending end of an outbound handler, the receiving end of an inbound
    /// one, none of a handler that drives itself. An end that was given out
    /// before is not given out again.
    fn get_channel(&mut self) -> ChannelType<Tx, Rx>;
}

} // verus!
