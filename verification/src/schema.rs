//! The messages that coordinator, agents and observers exchange.

use vstd::prelude::*;

verus! {

/// What an agent says of itself when it connects.
#[derive(Debug)]
pub struct Metadata {
    pub hostname: String,
    pub version: String,
}

/// What a [`Metadata`] holds, with its strings as sequences.
pub struct MetadataView {
    pub hostname: Seq<char>,
    pub version: Seq<char>,
}

impl View for Metadata {
    type V = MetadataView;

    open spec fn view(&self) -> MetadataView {
        MetadataView { hostname: self.hostname@, version: self.version@ }
    }
}

impl Clone for Metadata {
    fn clone(&self) -> (r: Metadata)
        ensures
            r@ == self@,
    {
        Metadata { hostname: self.hostname.clone(), version: self.version.clone() }
    }
}

impl Metadata {
    /// The descriptor of the agent on `hostname` that runs `version`.
    pub fn new(hostname: &str, version: &str) -> (r: Metadata)
        ensures
            r@ == (MetadataView { hostname: hostname@, version: version@ }),
    {
        Metadata { hostname: hostname.to_owned(), version: version.to_owned() }
    }
}

/// A probe descriptor: echo requests go from one source address to each
/// destination, all addresses as 32-bit values in network order.
#[derive(Debug)]
pub struct PingV4 {
    pub source_address: u32,
    pub destination_addresses: Vec<u32>,
}

/// What a [`PingV4`] holds, with its destinations as a sequence.
pub struct PingV4View {
    pub source_address: u32,
    pub destination_addresses: Seq<u32>,
}

impl View for PingV4 {
    type V = PingV4View;

    open spec fn view(&self) -> PingV4View {
        PingV4View {
            source_address: self.source_address,
            destination_addresses: self.destination_addresses@,
        }
    }
}

impl Clone for PingV4 {
    fn clone(&self) -> (r: PingV4)
        ensures
            r@ == self@,
    {
        let destination_addresses = self.destination_addresses.clone();
        assert(destination_addresses@ =~= self.destination_addresses@);
        PingV4 { source_address: self.source_address, destination_addresses }
    }
}

/// The kinds of command that a task can carry.
#[derive(Debug)]
pub enum TaskData {
    /// A keepalive: nothing is to be done.
    Empty,
    /// Send the echo requests that the descriptor names.
    Ping(PingV4),
    /// A kind that this version does not know.
    Unknown,
}

/// What a [`TaskData`] holds, with the descriptor as its view.
pub enum TaskDataView {
    Empty,
    Ping(PingV4View),
    Unknown,
}

impl View for TaskData {
    type V = TaskDataView;

    open spec fn view(&self) -> TaskDataView {
        match self {
            TaskData::Empty => TaskDataView::Empty,
            TaskData::Ping(ping) => TaskDataView::Ping(ping@),
            TaskData::Unknown => TaskDataView::Unknown,
        }
    }
}

/// A command from the coordinator to an agent.
#[derive(Debug)]
pub struct Task {
    pub task_id: u32,
    pub data: TaskData,
}

/// What a [`Task`] holds, with the command as its view.
pub struct TaskView {
    pub task_id: u32,
    pub data: TaskDataView,
}

impl View for Task {
    type V = TaskView;

    open spec fn view(&self) -> TaskView {
        TaskView { task_id: self.task_id, data: self.data@ }
    }
}

/// The replies observed for one task. The coordinator reads the task id and
/// passes the payload on as it is.
#[derive(Debug)]
pub struct TaskResult {
    pub task_id: u32,
    pub payload: Vec<u8>,
}

/// What a [`TaskResult`] holds, with its payload as a sequence.
pub struct TaskResultView {
    pub task_id: u32,
    pub payload: Seq<u8>,
}

impl View for TaskResult {
    type V = TaskResultView;

    open spec fn view(&self) -> TaskResultView {
        TaskResultView { task_id: self.task_id, payload: self.payload@ }
    }
}

impl Clone for TaskResult {
    fn clone(&self) -> (r: TaskResult)
        ensures
            r@ == self@,
    {
        let payload = self.payload.clone();
        assert(payload@ =~= self.payload@);
        TaskResult { task_id: self.task_id, payload }
    }
}

/// A request to have one agent carry out a task. `ping` is the one kind of
/// task that can be scheduled; a request without it asks for nothing.
#[derive(Debug)]
pub struct ScheduleTask {
    pub client_index: u32,
    pub ping: Option<PingV4>,
}

/// The reply to a request. For a scheduled task it names the task's id;
/// otherwise the id is zero.
#[derive(Debug, Clone, Copy, PartialEq, Eq, Structural)]
pub struct Ack {
    pub task_id: u32,
}

/// One connected agent, as `list_clients` reports it.
#[derive(Debug)]
pub struct Client {
    pub index: u32,
    pub metadata: Metadata,
}

/// What a [`Client`] holds, with the descriptor as its view.
pub struct ClientView {
    pub index: u32,
    pub metadata: MetadataView,
}

impl View for Client {
    type V = ClientView;

    open spec fn view(&self) -> ClientView {
        ClientView { index: self.index, metadata: self.metadata@ }
    }
}

} // verus!
