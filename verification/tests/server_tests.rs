use trackerconqueror::common::{ClientMessage, ServerMessage, WorkStatus, WorkUnit};
use trackerconqueror::server::{initial_records, Reaction, Server, MAX_WORK_UNITS};

fn reply(message: ServerMessage, persist: bool) -> Reaction {
    Reaction::Reply { message, persist }
}

fn fresh_server_with_client(endpoint: u64) -> Server {
    let mut server = Server::new(initial_records());
    server.connect(endpoint);
    server
}

#[test]
fn initial_table_is_vacant_and_numbered() {
    let records = initial_records();
    assert_eq!(records.len(), MAX_WORK_UNITS as usize);
    for (i, unit) in records.iter().enumerate() {
        assert_eq!(unit.id, i as u32 + 1);
        assert_eq!(unit.status, WorkStatus::Vacant);
        assert_eq!(unit.current_worker, "nobody");
    }
}

#[test]
fn strangers_get_unknown() {
    let mut server = Server::new(initial_records());
    assert_eq!(server.handle_message(7, ClientMessage::RequestOpenWorkUnit), reply(ServerMessage::Unknown, false));
    assert_eq!(server.handle_message(7, ClientMessage::Take(1, "w".to_string())), reply(ServerMessage::Unknown, false));
    assert_eq!(server.handle_message(7, ClientMessage::Complete(1, "w".to_string())), reply(ServerMessage::Unknown, false));
    assert_eq!(server.records(), &initial_records());
}

#[test]
fn offer_take_complete() {
    let mut server = fresh_server_with_client(1);
    assert_eq!(server.handle_message(1, ClientMessage::RequestOpenWorkUnit), reply(ServerMessage::Unit(1), false));
    assert_eq!(server.handle_message(1, ClientMessage::Take(1, "alice".to_string())), reply(ServerMessage::Accepted, true));
    assert_eq!(
        server.records()[0],
        WorkUnit { id: 1, status: WorkStatus::Working, current_worker: "alice".to_string() }
    );
    assert_eq!(server.handle_message(1, ClientMessage::RequestOpenWorkUnit), reply(ServerMessage::Unit(2), false));
    assert_eq!(server.handle_message(1, ClientMessage::Take(1, "bob".to_string())), reply(ServerMessage::Denied, false));
    assert_eq!(server.handle_message(1, ClientMessage::Complete(1, "bob".to_string())), reply(ServerMessage::Denied, false));
    assert_eq!(server.handle_message(1, ClientMessage::Complete(1, "alice".to_string())), reply(ServerMessage::Accepted, true));
    assert_eq!(
        server.records()[0],
        WorkUnit { id: 1, status: WorkStatus::Complete, current_worker: "alice".to_string() }
    );
    assert_eq!(server.handle_message(1, ClientMessage::Complete(1, "alice".to_string())), reply(ServerMessage::Denied, false));
    assert_eq!(server.handle_message(1, ClientMessage::Take(1, "alice".to_string())), reply(ServerMessage::Denied, false));
}

#[test]
fn completing_a_vacant_unit_is_denied() {
    let mut server = fresh_server_with_client(3);
    assert_eq!(server.handle_message(3, ClientMessage::Complete(5, "nobody".to_string())), reply(ServerMessage::Denied, false));
    assert_eq!(server.records()[4].status, WorkStatus::Vacant);
}

#[test]
fn all_taken_means_denied() {
    let records = vec![
        WorkUnit { id: 1, status: WorkStatus::Complete, current_worker: "a".to_string() },
        WorkUnit { id: 2, status: WorkStatus::Working, current_worker: "b".to_string() },
    ];
    let mut server = Server::new(records);
    server.connect(9);
    assert_eq!(server.handle_message(9, ClientMessage::RequestOpenWorkUnit), reply(ServerMessage::Denied, false));
}

#[test]
fn first_vacant_with_id_zero_reads_as_none() {
    let records = vec![
        WorkUnit { id: 0, status: WorkStatus::Vacant, current_worker: "nobody".to_string() },
        WorkUnit { id: 2, status: WorkStatus::Vacant, current_worker: "nobody".to_string() },
    ];
    let mut server = Server::new(records);
    server.connect(9);
    assert_eq!(server.handle_message(9, ClientMessage::RequestOpenWorkUnit), reply(ServerMessage::Denied, false));
}

#[test]
fn unreadable_message_severs_the_client() {
    let mut server = fresh_server_with_client(4);
    server.connect(5);
    assert_eq!(server.client_count(), 2);
    assert_eq!(server.handle_message(4, ClientMessage::InvalidConnection), Reaction::Sever);
    assert!(!server.is_connected(4));
    assert!(server.is_connected(5));
    assert_eq!(server.client_count(), 1);
    assert_eq!(server.handle_message(4, ClientMessage::RequestOpenWorkUnit), reply(ServerMessage::Unknown, false));
}

#[test]
fn connect_and_disconnect() {
    let mut server = Server::new(initial_records());
    assert_eq!(server.client_count(), 0);
    server.connect(1);
    server.connect(1);
    server.connect(2);
    assert_eq!(server.client_count(), 2);
    server.disconnect(1);
    assert!(!server.is_connected(1));
    assert_eq!(server.client_count(), 1);
}

#[test]
fn table_bounds_are_checked() {
    let server = fresh_server_with_client(1);
    assert!(!server.can_handle(1, &ClientMessage::Take(0, "w".to_string())));
    assert!(!server.can_handle(1, &ClientMessage::Complete(193, "w".to_string())));
    assert!(server.can_handle(1, &ClientMessage::Take(192, "w".to_string())));
    assert!(server.can_handle(2, &ClientMessage::Take(0, "w".to_string())));
    assert!(server.can_handle(1, &ClientMessage::RequestOpenWorkUnit));
}
