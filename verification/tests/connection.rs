use sentinel::connection::{
    Action, Admission, Connection, Event, Phase, Role, READ_TIMEOUT_SECS,
};
use sentinel::store::BucketStore;

const KEY: [u8; 16] = [7; 16];

fn fresh() -> (tempfile::TempDir, BucketStore) {
    let dir = tempfile::tempdir().unwrap();
    let store = BucketStore::open(dir.path().join("conn.bin").to_str().unwrap()).unwrap();
    (dir, store)
}

fn general(command: u8, bucket: u8, payload: &[u8]) -> Vec<u8> {
    let mut frame = vec![command, bucket];
    frame.extend_from_slice(&KEY);
    frame.extend_from_slice(payload);
    frame
}

fn written(action: Action) -> Vec<u8> {
    match action {
        Action::Write(reply) => reply,
        other => panic!("expected a write, got {:?}", other),
    }
}

#[test]
fn accepted_connection_starts_reading() {
    let connection = Connection::accept(Role::General);
    assert_eq!(connection.role, Role::General);
    assert_eq!(connection.phase, Phase::Reading);
    assert!(!connection.is_closed());
    assert_eq!(Connection::accept(Role::Statement).role, Role::Statement);
}

#[test]
fn connection_alternates_between_reading_and_writing() {
    let (_dir, mut store) = fresh();
    let mut connection = Connection::accept(Role::General);

    let step = connection.advance(Some(&mut store), Event::Frame(general(2, 0, b"hello")));
    assert_eq!(connection.phase, Phase::Writing);
    assert_eq!(written(step.action), vec![2, 0]);
    let step = connection.advance(Some(&mut store), Event::Written);
    assert_eq!(connection.phase, Phase::Reading);
    assert!(matches!(step.action, Action::Read));

    let step = connection.advance(Some(&mut store), Event::Frame(general(1, 0, b"")));
    assert_eq!(connection.phase, Phase::Writing);
    assert_eq!(written(step.action), vec![1, 0, b'h', b'e', b'l', b'l', b'o']);
    let step = connection.advance(Some(&mut store), Event::Written);
    assert!(matches!(step.action, Action::Read));

    let step = connection.advance(Some(&mut store), Event::Frame(general(3, 0, b"")));
    assert_eq!(written(step.action), vec![3, 0]);
    connection.advance(Some(&mut store), Event::Written);

    let step = connection.advance(Some(&mut store), Event::Frame(general(1, 0, b"")));
    assert_eq!(written(step.action), vec![1, 132]);
    assert_eq!(connection.role, Role::General);
}

#[test]
fn protocol_errors_keep_the_connection_open() {
    let (_dir, mut store) = fresh();
    let mut connection = Connection::accept(Role::General);
    let bad_frames = vec![vec![1u8, 2, 3], general(1, 42, b""), general(200, 0, b"")];
    let replies = vec![vec![1u8, 136], vec![1, 129], vec![200, 128]];
    for (frame, reply) in bad_frames.into_iter().zip(replies) {
        let step = connection.advance(Some(&mut store), Event::Frame(frame));
        assert_eq!(written(step.action), reply);
        assert_eq!(connection.phase, Phase::Writing);
        let step = connection.advance(Some(&mut store), Event::Written);
        assert!(matches!(step.action, Action::Read));
        assert_eq!(connection.phase, Phase::Reading);
    }
}

#[test]
fn statement_connection_serves_lookups() {
    let (_dir, mut store) = fresh();
    assert!(store.put("Default", &KEY, b"stmt").fault.is_none());
    let mut connection = Connection::accept(Role::Statement);
    let mut frame = vec![1u8];
    frame.extend_from_slice(&KEY);
    let step = connection.advance(Some(&mut store), Event::Frame(frame));
    assert_eq!(written(step.action), vec![1, 0, b's', b't', b'm', b't']);
    // The same bytes mean something else to the general store.
    let mut general_connection = Connection::accept(Role::General);
    let mut frame = vec![1u8];
    frame.extend_from_slice(&KEY);
    let step = general_connection.advance(Some(&mut store), Event::Frame(frame));
    assert_eq!(written(step.action), vec![1, 136]);
}

#[test]
fn poisoned_lock_degrades_one_request_only() {
    let (_dir, mut store) = fresh();
    let mut connection = Connection::accept(Role::General);
    let step = connection.advance(None, Event::Frame(general(2, 0, b"v")));
    assert_eq!(written(step.action), vec![2, 130]);
    assert_eq!(connection.phase, Phase::Writing);
    connection.advance(None, Event::Written);
    assert_eq!(connection.phase, Phase::Reading);
    let step = connection.advance(Some(&mut store), Event::Frame(general(1, 0, b"")));
    assert_eq!(written(step.action), vec![1, 132]);
}

#[test]
fn end_of_stream_closes_a_reading_connection() {
    let mut connection = Connection::accept(Role::General);
    let step = connection.advance(None, Event::EndOfStream);
    assert!(matches!(step.action, Action::Close));
    assert!(connection.is_closed());
}

#[test]
fn read_of_no_bytes_closes_the_connection() {
    let mut connection = Connection::accept(Role::Statement);
    let step = connection.advance(None, Event::Frame(Vec::new()));
    assert!(matches!(step.action, Action::Close));
    assert_eq!(connection.phase, Phase::Closed);
}

#[test]
fn read_failure_and_timeout_close_the_connection() {
    let mut failed = Connection::accept(Role::General);
    assert!(matches!(failed.advance(None, Event::ReadFailed).action, Action::Close));
    assert!(failed.is_closed());
    let mut silent = Connection::accept(Role::General);
    assert!(matches!(silent.advance(None, Event::TimedOut).action, Action::Close));
    assert!(silent.is_closed());
}

#[test]
fn write_failure_closes_the_connection() {
    let (_dir, mut store) = fresh();
    let mut connection = Connection::accept(Role::General);
    connection.advance(Some(&mut store), Event::Frame(general(1, 0, b"")));
    let step = connection.advance(Some(&mut store), Event::WriteFailed);
    assert!(matches!(step.action, Action::Close));
    assert!(connection.is_closed());
}

#[test]
fn closed_connection_stays_closed() {
    let (_dir, mut store) = fresh();
    let mut connection = Connection::accept(Role::General);
    connection.advance(None, Event::EndOfStream);
    let events = vec![
        Event::Frame(general(2, 0, b"late")),
        Event::Written,
        Event::EndOfStream,
        Event::ReadFailed,
        Event::TimedOut,
        Event::WriteFailed,
    ];
    for event in events {
        let step = connection.advance(Some(&mut store), event);
        assert!(matches!(step.action, Action::Close));
        assert!(connection.is_closed());
    }
    assert_eq!(store.get("config", &KEY).unwrap(), None);
}

#[test]
fn events_out_of_turn_close_the_connection() {
    let (_dir, mut store) = fresh();
    let mut reading = Connection::accept(Role::General);
    assert!(matches!(reading.advance(Some(&mut store), Event::Written).action, Action::Close));
    assert!(reading.is_closed());

    let mut writing = Connection::accept(Role::General);
    writing.advance(Some(&mut store), Event::Frame(general(1, 0, b"")));
    let step = writing.advance(Some(&mut store), Event::Frame(general(2, 0, b"early")));
    assert!(matches!(step.action, Action::Close));
    assert!(writing.is_closed());
    assert_eq!(store.get("config", &KEY).unwrap(), None);
}

#[test]
fn gate_lets_in_up_to_its_limit() {
    let mut gate = Admission::new(3);
    assert_eq!(gate.in_service(), 0);
    assert!(gate.try_enter());
    assert!(gate.try_enter());
    assert!(gate.try_enter());
    assert_eq!(gate.in_service(), 3);
    assert!(!gate.try_enter());
    assert!(!gate.try_enter());
    assert_eq!(gate.in_service(), 3);
}

#[test]
fn gate_has_room_again_after_a_connection_leaves() {
    let mut gate = Admission::new(1);
    assert!(gate.try_enter());
    assert!(!gate.try_enter());
    gate.leave();
    assert_eq!(gate.in_service(), 0);
    assert!(gate.try_enter());
    assert_eq!(gate.in_service(), 1);
}

#[test]
fn gate_with_no_room_lets_nobody_in() {
    let mut gate = Admission::new(0);
    assert!(!gate.try_enter());
    assert_eq!(gate.in_service(), 0);
}

#[test]
fn leaving_an_empty_gate_changes_nothing() {
    let mut gate = Admission::new(2);
    gate.leave();
    assert_eq!(gate.in_service(), 0);
    assert!(gate.try_enter());
    assert!(gate.try_enter());
    assert!(!gate.try_enter());
}

#[test]
fn read_timeout_is_thirty_seconds() {
    assert_eq!(READ_TIMEOUT_SECS, 30);
}
