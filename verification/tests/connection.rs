use ci_monitor::connection::{
    displace_task, handle_cancel_ci, handle_register_ci, ClientAction, ClientConnection,
    ClientEvent,
};
use ci_monitor::numbers::TaskNumbers;
use ci_monitor::protocol::{
    CancelRequest, CommandPayload, PipelineKey, RegisterRequest, Response,
};
use ci_monitor::registry::Registry;

fn key() -> PipelineKey {
    PipelineKey { project_id: "p".to_string(), merge_request_id: "m".to_string() }
}

fn register() -> RegisterRequest {
    RegisterRequest {
        project_id: "p".to_string(),
        merge_request_id: "m".to_string(),
        tmux_pane_id: "%1".to_string(),
    }
}

fn cancel() -> CancelRequest {
    CancelRequest { project_id: "p".to_string(), merge_request_id: "m".to_string() }
}

fn received(registry: &mut Registry) -> ClientConnection {
    ClientConnection::new().advance(ClientEvent::Received { bytes: b"{}".to_vec() }, registry)
}

fn decoded(command: Option<CommandPayload>, registry: &mut Registry) -> ClientConnection {
    received(registry).advance(ClientEvent::Decoded { command }, registry)
}

fn registration(task: u64, registry: &mut Registry) {
    let mut state = decoded(Some(CommandPayload::RegisterCi(register())), registry);
    if let ClientAction::Abort { .. } = state.action() {
        state = state.advance(ClientEvent::Aborted, registry);
    }
    let state = state.advance(ClientEvent::Started { task }, registry);
    assert_eq!(state.advance(ClientEvent::Sent, registry), ClientConnection::Closed);
}

#[test]
fn conversation_begins_with_reading() {
    assert_eq!(ClientConnection::new().action(), ClientAction::Read { limit: 1024 });
}

#[test]
fn request_is_decoded_from_text() {
    let mut registry = Registry::new();
    let state = ClientConnection::new()
        .advance(ClientEvent::Received { bytes: "{\"ä\"".as_bytes().to_vec() }, &mut registry);
    assert_eq!(state.action(), ClientAction::Decode { text: "{\"ä\"".to_string() });
}

#[test]
fn invalid_bytes_are_replaced() {
    let mut registry = Registry::new();
    let state = ClientConnection::new()
        .advance(ClientEvent::Received { bytes: vec![b'a', 0xff, b'b'] }, &mut registry);
    assert_eq!(state.action(), ClientAction::Decode { text: "a\u{fffd}b".to_string() });
}

#[test]
fn empty_request_is_not_answered() {
    let mut registry = Registry::new();
    let state =
        ClientConnection::new().advance(ClientEvent::Received { bytes: vec![] }, &mut registry);
    assert_eq!(state.action(), ClientAction::Close);
}

#[test]
fn failed_read_is_not_answered() {
    let mut registry = Registry::new();
    let state = ClientConnection::new().advance(ClientEvent::ReadFailed, &mut registry);
    assert_eq!(state.action(), ClientAction::Close);
}

#[test]
fn undecodable_request_is_answered_with_an_error() {
    let mut registry = Registry::new();
    registry.insert(&key(), 5);
    let state = decoded(None, &mut registry);
    assert_eq!(
        state.action(),
        ClientAction::Send {
            json: "{\"status\":\"error\",\"message\":\"Invalid JSON or unknown command\"}"
                .to_string()
        }
    );
    let state = state.advance(ClientEvent::Sent, &mut registry);
    assert_eq!(state.action(), ClientAction::Close);
    assert_eq!(registry.remove(&key()), Some(5));
}

#[test]
fn first_registration_starts_a_task() {
    let mut registry = Registry::new();
    let state = decoded(Some(CommandPayload::RegisterCi(register())), &mut registry);
    assert_eq!(state.action(), ClientAction::Start { key: key(), pane: "%1".to_string() });
    let state = state.advance(ClientEvent::Started { task: 9 }, &mut registry);
    assert_eq!(
        state.action(),
        ClientAction::Send {
            json: "{\"status\":\"success\",\"message\":\"CI monitoring task registered.\",\"task_id\":\"p-m\"}"
                .to_string()
        }
    );
    assert_eq!(registry.remove(&key()), Some(9));
}

#[test]
fn second_registration_aborts_the_first_task() {
    let mut registry = Registry::new();
    registration(9, &mut registry);
    let state = decoded(Some(CommandPayload::RegisterCi(register())), &mut registry);
    assert_eq!(state.action(), ClientAction::Abort { task: 9 });
    let state = state.advance(ClientEvent::Aborted, &mut registry);
    assert_eq!(state.action(), ClientAction::Start { key: key(), pane: "%1".to_string() });
    state.advance(ClientEvent::Started { task: 10 }, &mut registry);
    assert_eq!(registry.drain(), vec![10]);
}

#[test]
fn cancellation_takes_back_registration() {
    let mut registry = Registry::new();
    registration(3, &mut registry);
    let state = decoded(Some(CommandPayload::CancelCi(cancel())), &mut registry);
    assert_eq!(state.action(), ClientAction::Abort { task: 3 });
    let state = state.advance(ClientEvent::Aborted, &mut registry);
    assert_eq!(
        state.action(),
        ClientAction::Send {
            json: "{\"status\":\"success\",\"message\":\"Cancelled matching task.\"}".to_string()
        }
    );
    let again = decoded(Some(CommandPayload::CancelCi(cancel())), &mut registry);
    assert_eq!(
        again.action(),
        ClientAction::Send {
            json: "{\"status\":\"error\",\"message\":\"No active polling task found for MR m and Project p\"}"
                .to_string()
        }
    );
}

#[test]
fn other_pipelines_are_left_alone() {
    let mut registry = Registry::new();
    let other = PipelineKey { project_id: "p".to_string(), merge_request_id: "n".to_string() };
    registry.insert(&other, 1);
    registration(2, &mut registry);
    decoded(Some(CommandPayload::CancelCi(cancel())), &mut registry);
    assert_eq!(registry.drain(), vec![1]);
}

#[test]
fn unexpected_events_change_nothing() {
    let mut registry = Registry::new();
    let state = ClientConnection::new().advance(ClientEvent::Sent, &mut registry);
    assert_eq!(state, ClientConnection::Reading);
    let state = ClientConnection::Closed.advance(ClientEvent::Aborted, &mut registry);
    assert_eq!(state, ClientConnection::Closed);
    assert_eq!(registry.drain(), Vec::<u64>::new());
}

#[test]
fn handlers_work_on_the_registry() {
    let mut registry = Registry::new();
    assert_eq!(displace_task(&mut registry, &register()), None);
    assert_eq!(
        handle_register_ci(&mut registry, &register(), 4),
        Response::registered(&key())
    );
    assert_eq!(displace_task(&mut registry, &register()), Some(4));
    assert_eq!(handle_cancel_ci(&mut registry, &cancel()), (None, Response::not_found(&key())));
    handle_register_ci(&mut registry, &register(), 5);
    assert_eq!(handle_cancel_ci(&mut registry, &cancel()), (Some(5), Response::cancelled()));
}

#[test]
fn replacing_task_is_another_one() {
    let mut registry = Registry::new();
    let mut numbers = TaskNumbers::new();
    let first = numbers.issue().unwrap();
    registration(first, &mut registry);
    let second = numbers.issue().unwrap();
    assert_ne!(first, second);
    let state = decoded(Some(CommandPayload::RegisterCi(register())), &mut registry);
    assert_eq!(state.action(), ClientAction::Abort { task: first });
    let state = state.advance(ClientEvent::Aborted, &mut registry);
    let state = state.advance(ClientEvent::Started { task: second }, &mut registry);
    assert_eq!(
        state.action(),
        ClientAction::Send {
            json: "{\"status\":\"success\",\"message\":\"CI monitoring task registered.\",\"task_id\":\"p-m\"}"
                .to_string()
        }
    );
    assert_eq!(registry.drain(), vec![second]);
}
