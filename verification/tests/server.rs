use futures::sync::mpsc::{channel, Receiver, Sender};
use futures::{Future, Sink, Stream};
use verfploeter::schema::{Metadata, PingV4, ScheduleTask, Task, TaskData, TaskResult};
use verfploeter::server::connections::{Connection, ConnectionManager};
use verfploeter::server::lifecycle::{ConnectionEvent, ConnectionState};
use verfploeter::server::subscriptions::SubscriptionList;
use verfploeter::server::{keepalive_task, RpcError, VerfploeterService};

fn ping(source_address: u32, destination_addresses: Vec<u32>) -> PingV4 {
    PingV4 { source_address, destination_addresses }
}

fn request(client_index: u32, ping: Option<PingV4>) -> ScheduleTask {
    ScheduleTask { client_index, ping }
}

fn sorted_ids(list: &[(u32, Metadata)]) -> Vec<u32> {
    let mut ids: Vec<u32> = list.iter().map(|entry| entry.0).collect();
    ids.sort();
    ids
}

fn next_item<T>(rx: Receiver<T>) -> (Option<T>, Receiver<T>) {
    match rx.into_future().wait() {
        Ok((item, rx)) => (item, rx),
        Err(_) => panic!("the channel failed"),
    }
}

#[test]
fn connection_ids_start_at_one_and_grow() {
    let mut manager: ConnectionManager<u8> = ConnectionManager::new();
    assert!(manager.has_free_id());
    assert_eq!(manager.generate_connection_id(), 1);
    assert_eq!(manager.generate_connection_id(), 2);
    assert_eq!(manager.generate_connection_id(), 3);
    assert_eq!(manager.len(), 0);
}

#[test]
fn snapshot_lists_the_registered_and_not_yet_unregistered() {
    let mut manager: ConnectionManager<u8> = ConnectionManager::new();
    assert!(manager.snapshot().is_empty());
    for id in 1..=4u32 {
        let hostname = format!("a{}", id);
        manager.register_connection(
            id,
            Connection { channel: id as u8, metadata: Metadata::new(&hostname, "0.1") },
        );
    }
    manager.unregister_connection(2);
    manager.unregister_connection(9);
    assert_eq!(sorted_ids(&manager.snapshot()), vec![1, 3, 4]);
    manager.register_connection(
        2,
        Connection { channel: 2, metadata: Metadata::new("again", "0.2") },
    );
    manager.unregister_connection(4);
    manager.unregister_connection(4);
    let list = manager.snapshot();
    assert_eq!(sorted_ids(&list), vec![1, 2, 3]);
    for (id, metadata) in &list {
        if *id == 2 {
            assert_eq!(metadata.hostname, "again");
            assert_eq!(metadata.version, "0.2");
        } else {
            assert_eq!(metadata.hostname, format!("a{}", id));
            assert_eq!(metadata.version, "0.1");
        }
    }
    assert_eq!(manager.len(), 3);
    assert!(manager.is_registered(1));
    assert!(!manager.is_registered(4));
}

#[test]
fn registering_twice_under_one_id_keeps_the_later() {
    let mut manager: ConnectionManager<u8> = ConnectionManager::new();
    manager.register_connection(1, Connection { channel: 10, metadata: Metadata::new("a", "1") });
    manager.register_connection(1, Connection { channel: 20, metadata: Metadata::new("b", "2") });
    assert_eq!(manager.len(), 1);
    assert_eq!(manager.get_client_tx(1), Some(20));
    assert_eq!(manager.snapshot()[0].1.hostname, "b");
}

#[test]
fn get_client_tx_finds_the_sink_of_the_session() {
    let mut manager: ConnectionManager<u8> = ConnectionManager::new();
    manager.register_connection(5, Connection { channel: 50, metadata: Metadata::new("a", "1") });
    manager.register_connection(6, Connection { channel: 60, metadata: Metadata::new("b", "1") });
    assert_eq!(manager.get_client_tx(5), Some(50));
    assert_eq!(manager.get_client_tx(6), Some(60));
    assert_eq!(manager.get_client_tx(7), None);
    manager.unregister_connection(5);
    assert_eq!(manager.get_client_tx(5), None);
}

#[test]
fn subscribers_are_kept_in_the_order_of_subscription() {
    let mut list: SubscriptionList<&'static str> = SubscriptionList::new();
    assert_eq!(list.get_subscribers(7), None);
    assert!(list.fanout(7).is_empty());
    list.register_subscriber(7, "first");
    list.register_subscriber(8, "other");
    list.register_subscriber(7, "second");
    assert_eq!(list.get_subscribers(7), Some(vec!["first", "second"]));
    assert_eq!(list.fanout(7), vec!["first", "second"]);
    assert_eq!(list.fanout(8), vec!["other"]);
    assert_eq!(list.get_subscribers(9), None);
}

#[test]
fn single_task_fan_through() {
    let mut service: VerfploeterService<Sender<Task>, Sender<TaskResult>> =
        VerfploeterService::new();
    let (tx, rx) = channel(1);
    assert!(service.can_connect());
    let id = service.connect(Metadata::new("a1", "0.1"), tx);
    assert_eq!(id, 1);

    assert!(service.can_schedule());
    let scheduled = service
        .do_task(request(1, Some(ping(0x0102_0304, vec![0x0506_0708]))))
        .unwrap();
    assert_eq!(scheduled.ack.task_id, 0);
    let dispatch = scheduled.dispatch.unwrap();
    assert!(dispatch.sink.send(dispatch.task).wait().is_ok());

    let (task, _rx) = next_item(rx);
    let task = task.unwrap();
    assert_eq!(task.task_id, 0);
    match task.data {
        TaskData::Ping(ping) => {
            assert_eq!(ping.source_address, 0x0102_0304);
            assert_eq!(ping.destination_addresses, vec![0x0506_0708]);
        }
        _ => panic!("a ping task was expected"),
    }
}

#[test]
fn subscriber_fan_out() {
    let mut service: VerfploeterService<Sender<Task>, Sender<TaskResult>> =
        VerfploeterService::new();
    let (tx1, rx1) = channel(1);
    let (tx2, rx2) = channel(1);
    service.subscribe_result(7, tx1);
    service.subscribe_result(7, tx2);

    let result = TaskResult { task_id: 7, payload: b"R".to_vec() };
    let fanout = service.send_result(&result);
    assert_eq!(fanout.ack.task_id, 0);
    assert_eq!(fanout.targets.len(), 2);
    for target in fanout.targets {
        assert!(target.send(result.clone()).wait().is_ok());
    }

    // A third subscriber comes after the result.
    let (tx3, rx3) = channel(1);
    service.subscribe_result(7, tx3);
    // With the service every sender goes, which ends the streams.
    drop(service);

    for rx in vec![rx1, rx2] {
        let (first, rx) = next_item(rx);
        let first = first.unwrap();
        assert_eq!(first.task_id, 7);
        assert_eq!(first.payload, b"R".to_vec());
        let (second, _rx) = next_item(rx);
        assert!(second.is_none());
    }
    let (nothing, _rx3) = next_item(rx3);
    assert!(nothing.is_none());
}

#[test]
fn result_without_subscribers_is_acknowledged_and_dropped() {
    let mut service: VerfploeterService<u8, u8> = VerfploeterService::new();
    service.subscribe_result(1, 11);
    let fanout = service.send_result(&TaskResult { task_id: 2, payload: vec![1, 2, 3] });
    assert_eq!(fanout.ack.task_id, 0);
    assert!(fanout.targets.is_empty());
}

#[test]
fn disconnect_removes_the_agent_from_the_list() {
    let mut service: VerfploeterService<u8, u8> = VerfploeterService::new();
    let first = service.connect(Metadata::new("a1", "0.1"), 1);
    let second = service.connect(Metadata::new("a2", "0.1"), 2);
    assert_eq!((first, second), (1, 2));
    let mut clients = service.list_clients();
    clients.sort_by_key(|c| c.index);
    assert_eq!(clients.len(), 2);
    assert_eq!(clients[0].index, 1);
    assert_eq!(clients[0].metadata.hostname, "a1");
    assert_eq!(clients[0].metadata.version, "0.1");
    assert_eq!(clients[1].index, 2);
    assert_eq!(clients[1].metadata.hostname, "a2");

    service.disconnect(1);
    let clients = service.list_clients();
    assert_eq!(clients.len(), 1);
    assert_eq!(clients[0].index, 2);
    // Gone is gone: a second removal changes nothing.
    service.disconnect(1);
    assert_eq!(service.list_clients().len(), 1);
    // The id of a session that is gone is not given out again.
    assert_eq!(service.connect(Metadata::new("a3", "0.1"), 3), 3);
}

#[test]
fn do_task_for_an_unknown_agent_fails_and_uses_no_task_id() {
    let mut service: VerfploeterService<u8, u8> = VerfploeterService::new();
    service.connect(Metadata::new("a1", "0.1"), 1);
    match service.do_task(request(2, Some(ping(1, vec![2])))) {
        Err(e) => assert_eq!(e, RpcError::NotFound),
        Ok(_) => panic!("no agent has index 2"),
    }
    match service.do_task(request(0, Some(ping(1, vec![2])))) {
        Err(e) => assert_eq!(e, RpcError::NotFound),
        Ok(_) => panic!("no agent has index 0"),
    }
    // The next task still gets the first id.
    let scheduled = service.do_task(request(1, Some(ping(1, vec![2])))).unwrap();
    assert_eq!(scheduled.ack.task_id, 0);
    assert_eq!(scheduled.dispatch.unwrap().task.task_id, 0);
}

#[test]
fn do_task_without_a_ping_sends_nothing() {
    let mut service: VerfploeterService<u8, u8> = VerfploeterService::new();
    service.connect(Metadata::new("a1", "0.1"), 1);
    let scheduled = service.do_task(request(1, None)).unwrap();
    assert_eq!(scheduled.ack.task_id, 0);
    assert!(scheduled.dispatch.is_none());
    // Not even the agent is looked up.
    let scheduled = service.do_task(request(5, None)).unwrap();
    assert!(scheduled.dispatch.is_none());
    // And no task id is used up.
    let scheduled = service.do_task(request(1, Some(ping(1, vec![])))).unwrap();
    assert_eq!(scheduled.ack.task_id, 0);
}

#[test]
fn task_ids_are_strictly_increasing() {
    let mut service: VerfploeterService<u8, u8> = VerfploeterService::new();
    let a = service.connect(Metadata::new("a1", "0.1"), 10);
    let b = service.connect(Metadata::new("a2", "0.1"), 20);
    let mut seen_by_a = Vec::new();
    let mut seen_by_b = Vec::new();
    for round in 0..6u32 {
        let target = if round % 3 == 0 { b } else { a };
        let _ = service.do_task(request(77, Some(ping(1, vec![round]))));
        let scheduled = service.do_task(request(target, Some(ping(1, vec![round])))).unwrap();
        let dispatch = scheduled.dispatch.unwrap();
        assert_eq!(scheduled.ack.task_id, dispatch.task.task_id);
        if dispatch.sink == 10 {
            seen_by_a.push(dispatch.task.task_id);
        } else {
            seen_by_b.push(dispatch.task.task_id);
        }
    }
    assert_eq!(seen_by_a, vec![1, 2, 4, 5]);
    assert_eq!(seen_by_b, vec![0, 3]);
}

#[test]
fn keepalive_is_an_empty_task_outside_the_task_ids() {
    let mut service: VerfploeterService<u8, u8> = VerfploeterService::new();
    service.connect(Metadata::new("a1", "0.1"), 1);
    let keepalive = keepalive_task();
    assert_eq!(keepalive.task_id, 0);
    assert!(matches!(keepalive.data, TaskData::Empty));
    let _ = keepalive_task();
    let scheduled = service.do_task(request(1, Some(ping(1, vec![2])))).unwrap();
    assert_eq!(scheduled.ack.task_id, 0);
}

#[test]
fn a_session_runs_through_its_states() {
    let state = ConnectionState::new();
    assert_eq!(state, ConnectionState::Registering);
    assert!(!state.is_registered());
    let state = state.on_event(ConnectionEvent::IdAllocated);
    assert_eq!(state, ConnectionState::Active);
    assert!(state.is_registered());
    assert_eq!(state.on_event(ConnectionEvent::KeepaliveFailed), ConnectionState::Active);
    assert_eq!(state.on_event(ConnectionEvent::Unregistered), ConnectionState::Active);
    assert_eq!(state.on_event(ConnectionEvent::InboundClosed), ConnectionState::Draining);
    let state = state.on_event(ConnectionEvent::StreamError);
    assert_eq!(state, ConnectionState::Draining);
    assert!(state.is_registered());
    assert_eq!(state.on_event(ConnectionEvent::IdAllocated), ConnectionState::Draining);
    let state = state.on_event(ConnectionEvent::Unregistered);
    assert_eq!(state, ConnectionState::Closed);
    assert!(!state.is_registered());
    for event in [
        ConnectionEvent::IdAllocated,
        ConnectionEvent::StreamError,
        ConnectionEvent::InboundClosed,
        ConnectionEvent::KeepaliveFailed,
        ConnectionEvent::Unregistered,
    ] {
        assert_eq!(state.on_event(event), ConnectionState::Closed);
    }
    assert_eq!(
        ConnectionState::Registering.on_event(ConnectionEvent::StreamError),
        ConnectionState::Draining
    );
}
