//! The registry of live agent sessions.

use crate::schema::Metadata;
use std::collections::HashMap;
use vstd::prelude::*;
use vstd::std_specs::iter::IteratorSpec;

verus! {

/// One live agent session: the sink that carries tasks to the agent, and
/// what the agent said of itself when it connected.
#[derive(Debug)]
pub struct Connection<S> {
    pub channel: S,
    pub metadata: Metadata,
}

/// The ids of a listing, in its order.
pub open spec fn listed_ids(list: Seq<(u32, Metadata)>) -> Seq<u32> {
    list.map_values(|entry: (u32, Metadata)| entry.0)
}

/// Whether `list` is a listing of `connections`: every session stands in it
/// once, with its descriptor, and nothing else does.
pub open spec fn is_snapshot_of<S>(
    list: Seq<(u32, Metadata)>,
    connections: Map<u32, Connection<S>>,
) -> bool {
    &&& listed_ids(list).no_duplicates()
    &&& listed_ids(list).to_set() == connections.dom()
    &&& forall|i: int|
        0 <= i < list.len() ==> (#[trigger] list[i]).1@ == connections[list[i].0].metadata@
}

/// The live agent sessions by connection id, and the counter that the ids
/// come from.
#[derive(Debug)]
pub struct ConnectionManager<S> {
    connections: HashMap<u32, Connection<S>>,
    connection_id: u32,
}

impl<S> ConnectionManager<S> {
    /// The registered sessions by connection id.
    pub closed spec fn connections(&self) -> Map<u32, Connection<S>> {
        self.connections@
    }

    /// The connection id that was handed out last, zero before the first.
    pub closed spec fn last_id(&self) -> u32 {
        self.connection_id
    }

    /// An empty registry whose first connection id will be 1.
    pub fn new() -> (r: Self)
        ensures
            r.connections() == Map::<u32, Connection<S>>::empty(),
            r.last_id() == 0,
    {
        ConnectionManager { connections: HashMap::new(), connection_id: 0 }
    }

    /// Whether another connection id can be handed out.
    pub fn has_free_id(&self) -> (r: bool)
        ensures
            r == (self.last_id() < u32::MAX),
    {
        self.connection_id < u32::MAX
    }

    /// Hands out the next connection id: one more than the last, never zero.
    pub fn generate_connection_id(&mut self) -> (id: u32)
        requires
            old(self).last_id() < u32::MAX,
        ensures
            id == old(self).last_id() + 1,
            final(self).last_id() == id,
            final(self).connections() == old(self).connections(),
    {
        self.connection_id = self.connection_id + 1;
        self.connection_id
    }

    /// Enters a session under `connection_id`, in place of any that stood
    /// there.
    pub fn register_connection(&mut self, connection_id: u32, connection: Connection<S>)
        ensures
            final(self).connections() == old(self).connections().insert(connection_id, connection),
            final(self).last_id() == old(self).last_id(),
    {
        self.connections.insert(connection_id, connection);
    }

    /// Removes the session under `connection_id`, if there is one.
    pub fn unregister_connection(&mut self, connection_id: u32)
        ensures
            final(self).connections() == old(self).connections().remove(connection_id),
            final(self).last_id() == old(self).last_id(),
    {
        self.connections.remove(&connection_id);
    }

    /// Whether a session is registered under `connection_id`.
    pub fn is_registered(&self, connection_id: u32) -> (r: bool)
        ensures
            r == self.connections().contains_key(connection_id),
    {
        self.connections.contains_key(&connection_id)
    }

    /// The number of registered sessions.
    pub fn len(&self) -> (n: usize)
        ensures
            n == self.connections().len(),
    {
        self.connections.len()
    }

    /// A handle of its own to the task sink of the session under
    /// `connection_id`, if there is one.
    pub fn get_client_tx(&self, connection_id: u32) -> (r: Option<S>) where S: Clone
        ensures
            r is Some <==> self.connections().contains_key(connection_id),
            r matches Some(tx) ==> cloned(self.connections()[connection_id].channel, tx),
    {
        if let Some(v) = self.connections.get(&connection_id) {
            return Some(v.channel.clone());
        }
        None
    }

    /// The sessions as they are now, each id with its descriptor, in no
    /// particular order.
    pub fn snapshot(&self) -> (list: Vec<(u32, Metadata)>)
        ensures
            is_snapshot_of(list@, self.connections()),
    {
        let mut list: Vec<(u32, Metadata)> = Vec::new();
        let ghost items = self.connections.iter().remaining();
        for entry in it: self.connections.iter()
            invariant
                it.seq() == items,
                list@.len() == it.index(),
                forall|j: int|
                    0 <= j < list@.len() ==> (#[trigger] list@[j]).0 == *items[j].0
                        && list@[j].1@ == items[j].1.metadata@,
        {
            let (id, connection) = entry;
            list.push((*id, connection.metadata.clone()));
        }
        proof {
            let m = self.connections@;
            let ids = listed_ids(list@);
            assert(ids.len() == items.len());
            assert forall|i: int, j: int| 0 <= i < ids.len() && 0 <= j < ids.len() && i != j implies ids[i] != ids[j] by {
                if ids[i] == ids[j] {
                    assert(*items[i].0 == list@[i].0);
                    assert(*items[j].0 == list@[j].0);
                    assert(m[*items[i].0] == *items[i].1);
                    assert(m[*items[j].0] == *items[j].1);
                    assert(items[i] == items[j]);
                }
            }
            assert forall|id: u32| ids.to_set().contains(id) <==> m.dom().contains(id) by {
                if ids.to_set().contains(id) {
                    let i = choose|i: int| 0 <= i < ids.len() && ids[i] == id;
                    assert(*items[i].0 == list@[i].0);
                    assert(m.contains_key(*items[i].0));
                }
                if m.dom().contains(id) {
                    assert(items.contains((&id, &m[id])));
                    let i = choose|i: int| 0 <= i < items.len() && items[i] == (&id, &m[id]);
                    assert(list@[i].0 == id);
                    assert(ids[i] == id);
                }
            }
            assert(ids.to_set() =~= m.dom());
            assert forall|i: int| 0 <= i < list@.len() implies (#[trigger] list@[i]).1@
                == m[list@[i].0].metadata@ by {
                assert(m[*items[i].0] == *items[i].1);
            }
        }
        list
    }
}

/// A change to the registry: what `register_connection` and
/// `unregister_connection` do.
pub enum RegistryOp<S> {
    Register { connection_id: u32, connection: Connection<S> },
    Unregister { connection_id: u32 },
}

/// Whether `op` registers a session under `id`.
pub open spec fn registers<S>(op: RegistryOp<S>, id: u32) -> bool {
    op matches RegistryOp::Register { connection_id, .. } && connection_id == id
}

/// Whether `op` removes the session under `id`.
pub open spec fn unregisters<S>(op: RegistryOp<S>, id: u32) -> bool {
    op matches RegistryOp::Unregister { connection_id } && connection_id == id
}

/// The sessions after `op`.
pub open spec fn after_op<S>(connections: Map<u32, Connection<S>>, op: RegistryOp<S>) -> Map<
    u32,
    Connection<S>,
> {
    match op {
        RegistryOp::Register { connection_id, connection } => connections.insert(
            connection_id,
            connection,
        ),
        RegistryOp::Unregister { connection_id } => connections.remove(connection_id),
    }
}

/// The sessions after each of `ops`, in order.
pub open spec fn after_ops<S>(connections: Map<u32, Connection<S>>, ops: Seq<RegistryOp<S>>) -> Map<
    u32,
    Connection<S>,
>
    decreases ops.len(),
{
    if ops.len() == 0 {
        connections
    } else {
        after_op(after_ops(connections, ops.drop_last()), ops.last())
    }
}

/// Whether `id` was registered in the course of `ops` and not unregistered
/// since.
pub open spec fn is_live<S>(ops: Seq<RegistryOp<S>>, id: u32) -> bool {
    exists|i: int|
        0 <= i < ops.len() && #[trigger] registers(ops[i], id) && forall|j: int|
            i < j < ops.len() ==> !#[trigger] unregisters(ops[j], id)
}

/// After any sequence of registrations and removals on an empty registry,
/// the registered ids are those that were registered and not unregistered
/// since.
pub proof fn lemma_registry_holds_live_ids<S>(ops: Seq<RegistryOp<S>>, id: u32)
    ensures
        after_ops(Map::<u32, Connection<S>>::empty(), ops).contains_key(id) <==> is_live(ops, id),
    decreases ops.len(),
{
    if ops.len() > 0 {
        let earlier = ops.drop_last();
        let last = ops.last();
        let n = ops.len() - 1;
        lemma_registry_holds_live_ids(earlier, id);
        if registers(last, id) {
            assert(registers(ops[n], id));
        } else if unregisters(last, id) {
            assert(unregisters(ops[n], id));
        } else {
            if is_live(earlier, id) {
                let i = choose|i: int|
                    0 <= i < earlier.len() && #[trigger] registers(earlier[i], id) && forall|j: int|
                        i < j < earlier.len() ==> !#[trigger] unregisters(earlier[j], id);
                assert(registers(ops[i], id));
                assert forall|j: int| i < j < ops.len() implies !#[trigger] unregisters(
                    ops[j],
                    id,
                ) by {
                    if j < n {
                        assert(!unregisters(earlier[j], id));
                    }
                }
            }
            if is_live(ops, id) {
                let i = choose|i: int|
                    0 <= i < ops.len() && #[trigger] registers(ops[i], id) && forall|j: int|
                        i < j < ops.len() ==> !#[trigger] unregisters(ops[j], id);
                assert(registers(earlier[i], id));
                assert forall|j: int| i < j < earlier.len() implies !#[trigger] unregisters(
                    earlier[j],
                    id,
                ) by {
                    assert(!unregisters(ops[j], id));
                }
            }
        }
    }
}

/// A snapshot taken after any sequence of registrations and removals on an
/// empty registry lists exactly the ids that were registered and not
/// unregistered since.
pub proof fn lemma_snapshot_lists_live_ids<S>(
    ops: Seq<RegistryOp<S>>,
    list: Seq<(u32, Metadata)>,
    id: u32,
)
    requires
        is_snapshot_of(list, after_ops(Map::<u32, Connection<S>>::empty(), ops)),
    ensures
        listed_ids(list).contains(id) <==> is_live(ops, id),
{
    lemma_registry_holds_live_ids(ops, id);
    assert(listed_ids(list).to_set().contains(id) <==> listed_ids(list).contains(id));
}

} // verus!
