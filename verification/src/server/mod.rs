//! The coordinator: agent sessions, result subscribers and task scheduling.
//!
//! The service holds no channel and does no I/O of its own. Each request is
//! a call that changes the registries and says what is to be sent where; the
//! caller sends it.

pub mod connections;
pub mod lifecycle;
pub mod subscriptions;

use crate::schema::{
    Ack, Client, Metadata, ScheduleTask, Task, TaskData, TaskDataView, TaskResult, TaskView,
};
use crate::server::connections::{is_snapshot_of, listed_ids, Connection, ConnectionManager};
use crate::server::subscriptions::{clones_of, subscribers_of, with_subscriber, SubscriptionList};
use vstd::prelude::*;

verus! {

/// The address that the coordinator listens on.
pub const BIND_HOST: &'static str = "0.0.0.0";

/// The port that the coordinator listens on.
pub const BIND_PORT: u16 = 50001;

/// Seconds between two keepalives on an agent's task stream.
pub const KEEPALIVE_INTERVAL_SECS: u64 = 5;

/// How many items the channel behind an agent's task stream, or behind a
/// subscriber's result stream, holds before a sender has to wait.
pub const CHANNEL_CAPACITY: usize = 1;

/// Why a request failed.
#[derive(Debug, Clone, Copy, PartialEq, Eq, Structural)]
pub enum RpcError {
    /// No agent is connected under the index that the request names.
    NotFound,
}

/// A task and the sink of the agent that is to get it.
#[derive(Debug)]
pub struct Dispatch<S> {
    pub sink: S,
    pub task: Task,
}

/// What came of a request to schedule a task: the reply, and the task to send
/// where the request asked for one.
#[derive(Debug)]
pub struct Scheduled<S> {
    pub ack: Ack,
    pub dispatch: Option<Dispatch<S>>,
}

/// What came of a submitted result: the reply, and the sinks to send the
/// result on.
#[derive(Debug)]
pub struct Fanout<R> {
    pub ack: Ack,
    pub targets: Vec<R>,
}

/// The keepalive that goes out on every agent's task stream: an empty task.
/// It takes no task id from the counter and carries the id zero.
pub fn keepalive_task() -> (task: Task)
    ensures
        task@ == (TaskView { task_id: 0, data: TaskDataView::Empty }),
{
    Task { task_id: 0, data: TaskData::Empty }
}

/// Whether `clients` lists `connections` as `list_clients` reports them:
/// every session once, under its connection id, with its descriptor.
pub open spec fn is_client_list_of<S>(
    clients: Seq<Client>,
    connections: Map<u32, Connection<S>>,
) -> bool {
    &&& clients.map_values(|c: Client| c.index).no_duplicates()
    &&& clients.map_values(|c: Client| c.index).to_set() == connections.dom()
    &&& forall|i: int|
        0 <= i < clients.len() ==> (#[trigger] clients[i]).metadata@
            == connections[clients[i].index].metadata@
}

/// Whether every session of `connections` stands under an id that was handed
/// out when `last_id` was the last: none under zero, none under an id that is
/// still to come.
pub open spec fn ids_handed_out<S>(connections: Map<u32, Connection<S>>, last_id: u32) -> bool {
    forall|id: u32| #[trigger] connections.contains_key(id) ==> 1 <= id <= last_id
}

/// The coordinator's state: the agent sessions, the result subscribers and
/// the counter that task ids come from. `S` is the sink of an agent's task
/// stream, `R` that of a subscriber's result stream.
#[derive(Debug)]
pub struct VerfploeterService<S, R> {
    connection_manager: ConnectionManager<S>,
    subscription_list: SubscriptionList<R>,
    current_task_id: u32,
}

impl<S, R> VerfploeterService<S, R> {
    /// The agent sessions by connection id.
    pub closed spec fn connections(&self) -> Map<u32, Connection<S>> {
        self.connection_manager.connections()
    }

    /// The connection id that was handed out last, zero before the first.
    pub closed spec fn last_connection_id(&self) -> u32 {
        self.connection_manager.last_id()
    }

    /// The subscribed result sinks by task id.
    pub closed spec fn subscriptions(&self) -> Map<u32, Seq<R>> {
        self.subscription_list.lists()
    }

    /// The id that the next scheduled task gets.
    pub closed spec fn next_task_id(&self) -> u32 {
        self.current_task_id
    }

    /// Every session stands under an id that was handed out.
    pub open spec fn wf(&self) -> bool {
        ids_handed_out(self.connections(), self.last_connection_id())
    }

    /// A coordinator without agents or subscribers. Its first connection id
    /// will be 1, its first task id 0.
    pub fn new() -> (r: Self)
        ensures
            r.wf(),
            r.connections() == Map::<u32, Connection<S>>::empty(),
            r.last_connection_id() == 0,
            r.subscriptions() == Map::<u32, Seq<R>>::empty(),
            r.next_task_id() == 0,
    {
        VerfploeterService {
            connection_manager: ConnectionManager::new(),
            subscription_list: SubscriptionList::new(),
            current_task_id: 0,
        }
    }

    /// Whether another agent can connect: a connection id is left for it.
    pub fn can_connect(&self) -> (r: bool)
        ensures
            r == (self.last_connection_id() < u32::MAX),
    {
        self.connection_manager.has_free_id()
    }

    /// Whether another task can be scheduled: a task id is left for it.
    pub fn can_schedule(&self) -> (r: bool)
        ensures
            r == (self.next_task_id() < u32::MAX),
    {
        self.current_task_id < u32::MAX
    }

    /// An agent connects: it gets the next connection id, which no session
    /// has had before, and is registered under it with its descriptor and the
    /// sink of its task stream.
    pub fn connect(&mut self, metadata: Metadata, sink: S) -> (connection_id: u32)
        requires
            old(self).wf(),
            old(self).last_connection_id() < u32::MAX,
        ensures
            final(self).wf(),
            connection_id == old(self).last_connection_id() + 1,
            !old(self).connections().contains_key(connection_id),
            final(self).last_connection_id() == connection_id,
            final(self).connections() == old(self).connections().insert(
                connection_id,
                Connection { channel: sink, metadata },
            ),
            final(self).subscriptions() == old(self).subscriptions(),
            final(self).next_task_id() == old(self).next_task_id(),
    {
        let connection_id = self.connection_manager.generate_connection_id();
        self.connection_manager.register_connection(
            connection_id,
            Connection { channel: sink, metadata },
        );
        connection_id
    }

    /// An agent's task stream has ended: its session is removed. Nothing
    /// happens where the session is already gone.
    pub fn disconnect(&mut self, connection_id: u32)
        requires
            old(self).wf(),
        ensures
            final(self).wf(),
            final(self).connections() == old(self).connections().remove(connection_id),
            final(self).last_connection_id() == old(self).last_connection_id(),
            final(self).subscriptions() == old(self).subscriptions(),
            final(self).next_task_id() == old(self).next_task_id(),
    {
        self.connection_manager.unregister_connection(connection_id);
    }

    /// Schedules the task of `req` on the agent that it names.
    ///
    /// A request without a ping asks for nothing: the reply is an empty
    /// acknowledgement and nothing is sent. Otherwise the agent is looked up
    /// first. Where no agent is connected under the index, the request fails
    /// and no task id is used up. Where one is, the task gets the next id,
    /// and the reply names it; the task is to be sent on the agent's sink.
    /// A task can be scheduled as long as a task id is left for it.
    pub fn do_task(&mut self, req: ScheduleTask) -> (r: Result<Scheduled<S>, RpcError>) where
        S: Clone,
        requires
            old(self).wf(),
            req.ping is Some && old(self).connections().contains_key(req.client_index) ==> old(
                self,
            ).next_task_id() < u32::MAX,
        ensures
            final(self).wf(),
            final(self).connections() == old(self).connections(),
            final(self).last_connection_id() == old(self).last_connection_id(),
            final(self).subscriptions() == old(self).subscriptions(),
            counts_task(old(self).next_task_id(), final(self).next_task_id(), dispatched_id(r)),
            r is Err <==> req.ping is Some && !old(self).connections().contains_key(
                req.client_index,
            ),
            r matches Err(e) ==> e == RpcError::NotFound && final(self).next_task_id() == old(
                self,
            ).next_task_id(),
            r matches Ok(scheduled) ==> match req.ping {
                None => {
                    &&& scheduled.ack.task_id == 0
                    &&& scheduled.dispatch is None
                    &&& final(self).next_task_id() == old(self).next_task_id()
                },
                Some(ping) => {
                    &&& scheduled.ack.task_id == old(self).next_task_id()
                    &&& final(self).next_task_id() == old(self).next_task_id() + 1
                    &&& scheduled.dispatch matches Some(dispatch)
                    &&& cloned(old(self).connections()[req.client_index].channel, dispatch.sink)
                    &&& dispatch.task@ == (TaskView {
                        task_id: old(self).next_task_id(),
                        data: TaskDataView::Ping(ping@),
                    })
                },
            },
    {
        match req.ping {
            None => Ok(Scheduled { ack: Ack { task_id: 0 }, dispatch: None }),
            Some(ping) => {
                match self.connection_manager.get_client_tx(req.client_index) {
                    None => Err(RpcError::NotFound),
                    Some(sink) => {
                        let task_id = self.current_task_id;
                        self.current_task_id = self.current_task_id + 1;
                        let task = Task { task_id, data: TaskData::Ping(ping) };
                        Ok(Scheduled { ack: Ack { task_id }, dispatch: Some(Dispatch { sink, task }) })
                    },
                }
            },
        }
    }

    /// The connected agents, each under its connection id with its
    /// descriptor, in no particular order.
    pub fn list_clients(&self) -> (clients: Vec<Client>)
        ensures
            is_client_list_of(clients@, self.connections()),
    {
        let entries = self.connection_manager.snapshot();
        let mut clients: Vec<Client> = Vec::new();
        let mut i: usize = 0;
        while i < entries.len()
            invariant
                i <= entries@.len(),
                clients@.len() == i,
                forall|j: int|
                    0 <= j < i ==> (#[trigger] clients@[j]).index == entries@[j].0
                        && clients@[j].metadata@ == entries@[j].1@,
            decreases entries@.len() - i,
        {
            clients.push(Client { index: entries[i].0, metadata: entries[i].1.clone() });
            i = i + 1;
        }
        proof {
            assert(clients@.map_values(|c: Client| c.index) =~= listed_ids(entries@));
        }
        clients
    }

    /// A result comes in: it is to be sent on the sink of every subscriber of
    /// its task, oldest first, and on none where the task has no subscriber.
    /// The reply is an empty acknowledgement either way.
    pub fn send_result(&self, req: &TaskResult) -> (r: Fanout<R>) where R: Clone
        ensures
            r.ack.task_id == 0,
            clones_of(r.targets@, subscribers_of(self.subscriptions(), req.task_id)),
    {
        Fanout { ack: Ack { task_id: 0 }, targets: self.subscription_list.fanout(req.task_id) }
    }

    /// An observer subscribes to the results of `task_id`: `sink` is appended
    /// to the task's subscribers.
    pub fn subscribe_result(&mut self, task_id: u32, sink: R)
        requires
            old(self).wf(),
        ensures
            final(self).wf(),
            final(self).subscriptions() == with_subscriber(old(self).subscriptions(), task_id, sink),
            final(self).connections() == old(self).connections(),
            final(self).last_connection_id() == old(self).last_connection_id(),
            final(self).next_task_id() == old(self).next_task_id(),
    {
        self.subscription_list.register_subscriber(task_id, sink);
    }
}

/// The id of the task that a request to schedule one had dispatched, if it
/// had any dispatched.
pub open spec fn dispatched_id<S>(r: Result<Scheduled<S>, RpcError>) -> Option<u32> {
    match r {
        Ok(scheduled) => match scheduled.dispatch {
            Some(dispatch) => Some(dispatch.task.task_id),
            None => None,
        },
        Err(_) => None,
    }
}

/// What one request does to the task counter. A request that has a task
/// dispatched gives it the counter's value and moves the counter on by one;
/// any other leaves the counter as it is.
pub open spec fn counts_task(before: u32, after: u32, dispatched: Option<u32>) -> bool {
    match dispatched {
        Some(task_id) => task_id == before && after == before + 1,
        None => after == before,
    }
}

/// The task counter never goes back in the course of a run of requests.
/// `counter[k]` is the counter before request `k`, `counter[k + 1]` after it.
pub proof fn lemma_task_counter_grows(
    counter: Seq<u32>,
    dispatched: Seq<Option<u32>>,
    from: int,
    to: int,
)
    requires
        counter.len() == dispatched.len() + 1,
        forall|k: int|
            0 <= k < dispatched.len() ==> counts_task(
                counter[k],
                counter[k + 1],
                #[trigger] dispatched[k],
            ),
        0 <= from <= to < counter.len(),
    ensures
        counter[from] <= counter[to],
    decreases to - from,
{
    if from < to {
        lemma_task_counter_grows(counter, dispatched, from, to - 1);
        assert(counts_task(counter[to - 1], counter[to - 1 + 1], dispatched[to - 1]));
    }
}

/// Task ids are dispatched in strictly increasing order: of two requests in
/// a run that each had a task dispatched, the later one's task has the
/// greater id. The tasks that one agent sees on its stream are among these,
/// in this order.
pub proof fn lemma_task_ids_increase(
    counter: Seq<u32>,
    dispatched: Seq<Option<u32>>,
    earlier: int,
    later: int,
)
    requires
        counter.len() == dispatched.len() + 1,
        forall|k: int|
            0 <= k < dispatched.len() ==> counts_task(
                counter[k],
                counter[k + 1],
                #[trigger] dispatched[k],
            ),
        0 <= earlier < later < dispatched.len(),
        dispatched[earlier] is Some,
        dispatched[later] is Some,
    ensures
        dispatched[earlier]->0 < dispatched[later]->0,
{
    assert(counts_task(counter[earlier], counter[earlier + 1], dispatched[earlier]));
    assert(counts_task(counter[later], counter[later + 1], dispatched[later]));
    lemma_task_counter_grows(counter, dispatched, earlier + 1, later);
}

} // verus!
