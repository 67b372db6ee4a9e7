//! The registry of result subscribers, by task id.

use std::collections::HashMap;
use vstd::prelude::*;

verus! {

/// The sinks subscribed to `task_id` in `lists`, oldest first: none where the
/// task has no entry.
pub open spec fn subscribers_of<R>(lists: Map<u32, Seq<R>>, task_id: u32) -> Seq<R> {
    if lists.contains_key(task_id) {
        lists[task_id]
    } else {
        Seq::empty()
    }
}

/// `lists` after `tx` has subscribed to `task_id`: it stands last in the
/// task's list, which is created where there was none.
pub open spec fn with_subscriber<R>(lists: Map<u32, Seq<R>>, task_id: u32, tx: R) -> Map<
    u32,
    Seq<R>,
> {
    lists.insert(task_id, subscribers_of(lists, task_id).push(tx))
}

/// Whether every handle in `handles` is a clone of the sink at its place in
/// `sinks`, and there are as many of the one as of the other.
pub open spec fn clones_of<R: Clone>(handles: Seq<R>, sinks: Seq<R>) -> bool {
    &&& handles.len() == sinks.len()
    &&& forall|i: int| 0 <= i < sinks.len() ==> cloned(sinks[i], #[trigger] handles[i])
}

/// For each task id the sinks of those who asked for its results, in the
/// order in which they subscribed. A sink stays until the registry is dropped.
#[derive(Debug)]
pub struct SubscriptionList<R> {
    lists: HashMap<u32, Vec<R>>,
}

impl<R> SubscriptionList<R> {
    /// The subscribed sinks by task id.
    pub closed spec fn lists(&self) -> Map<u32, Seq<R>> {
        self.lists@.map_values(|list: Vec<R>| list@)
    }

    /// A registry without subscribers.
    pub fn new() -> (r: Self)
        ensures
            r.lists() == Map::<u32, Seq<R>>::empty(),
    {
        let r = SubscriptionList { lists: HashMap::new() };
        assert(r.lists() =~= Map::<u32, Seq<R>>::empty());
        r
    }

    /// Appends `tx` to the subscribers of `task_id`.
    pub fn register_subscriber(&mut self, task_id: u32, tx: R)
        ensures
            final(self).lists() == with_subscriber(old(self).lists(), task_id, tx),
    {
        let mut subscribers = match self.lists.remove(&task_id) {
            Some(subscribers) => subscribers,
            None => Vec::new(),
        };
        subscribers.push(tx);
        self.lists.insert(task_id, subscribers);
        assert(self.lists() =~= with_subscriber(old(self).lists(), task_id, tx));
    }

    /// Handles of their own to the sinks subscribed to `task_id`, oldest
    /// first, or `None` where nobody ever subscribed to it.
    pub fn get_subscribers(&self, task_id: u32) -> (r: Option<Vec<R>>) where R: Clone
        ensures
            r is Some <==> self.lists().contains_key(task_id),
            r matches Some(handles) ==> clones_of(handles@, self.lists()[task_id]),
    {
        if let Some(subscribers) = self.lists.get(&task_id) {
            return Some(subscribers.clone());
        }
        None
    }

    /// The sinks that a result for `task_id` is to be sent on: a handle to
    /// each subscriber of the task, oldest first, and none where there is no
    /// subscriber.
    pub fn fanout(&self, task_id: u32) -> (targets: Vec<R>) where R: Clone
        ensures
            clones_of(targets@, subscribers_of(self.lists(), task_id)),
    {
        match self.get_subscribers(task_id) {
            Some(handles) => handles,
            None => Vec::new(),
        }
    }
}

/// A subscription changes the list of its own task alone, and there it is
/// appended: whoever had subscribed before is still there, at the same place.
pub proof fn lemma_subscribe_keeps_earlier<R>(
    lists: Map<u32, Seq<R>>,
    task_id: u32,
    tx: R,
    other: u32,
)
    ensures
        subscribers_of(with_subscriber(lists, task_id, tx), task_id) == subscribers_of(
            lists,
            task_id,
        ).push(tx),
        other != task_id ==> subscribers_of(with_subscriber(lists, task_id, tx), other)
            == subscribers_of(lists, other),
        subscribers_of(lists, other).is_prefix_of(
            subscribers_of(with_subscriber(lists, task_id, tx), other),
        ),
{
}

/// `lists` after each of `later` has subscribed, in order. An entry is a
/// task id and the sink that subscribes to it.
pub open spec fn with_subscribers<R>(lists: Map<u32, Seq<R>>, later: Seq<(u32, R)>) -> Map<
    u32,
    Seq<R>,
>
    decreases later.len(),
{
    if later.len() == 0 {
        lists
    } else {
        let last = later.last();
        with_subscriber(with_subscribers(lists, later.drop_last()), last.0, last.1)
    }
}

/// Whatever subscriptions follow, the subscribers that a task had are still
/// the first of its subscribers.
pub proof fn lemma_subscribers_stay<R>(lists: Map<u32, Seq<R>>, later: Seq<(u32, R)>, task_id: u32)
    ensures
        subscribers_of(lists, task_id).is_prefix_of(
            subscribers_of(with_subscribers(lists, later), task_id),
        ),
    decreases later.len(),
{
    if later.len() > 0 {
        let last = later.last();
        lemma_subscribers_stay(lists, later.drop_last(), task_id);
        lemma_subscribe_keeps_earlier(
            with_subscribers(lists, later.drop_last()),
            last.0,
            last.1,
            task_id,
        );
    }
}

/// Every sink that subscribed to a task before a result for it is submitted
/// is among the sinks that the result is sent on, whatever subscriptions came
/// in between: `tx` stands in the task's list at the place where it was
/// appended.
pub proof fn lemma_earlier_subscriber_is_target<R>(
    lists: Map<u32, Seq<R>>,
    task_id: u32,
    tx: R,
    later: Seq<(u32, R)>,
)
    ensures
        ({
            let at_submission = with_subscribers(with_subscriber(lists, task_id, tx), later);
            let place = subscribers_of(lists, task_id).len() as int;
            &&& place < subscribers_of(at_submission, task_id).len()
            &&& subscribers_of(at_submission, task_id)[place] == tx
        }),
{
    let subscribed = with_subscriber(lists, task_id, tx);
    lemma_subscribers_stay(subscribed, later, task_id);
    let place = subscribers_of(lists, task_id).len() as int;
    assert(subscribers_of(subscribed, task_id)[place] == tx);
}

} // verus!
