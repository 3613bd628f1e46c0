use transform_pool::command::Command;
use transform_pool::command::CommandError;
use transform_pool::config::ConfigCell;
use transform_pool::gateway::EdgeError;
use transform_pool::gateway::error_response;
use transform_pool::gateway::plan_fire_and_forget;
use transform_pool::gateway::plan_request_reply;
use transform_pool::listener::ControlOutcome;
use transform_pool::listener::ListenerEvent;
use transform_pool::listener::ListenerState;
use transform_pool::listener::control_durable_name;
use transform_pool::listener::handle_control_bytes;
use transform_pool::listener::handle_control_message;
use transform_pool::relay::plan_reply;
use transform_pool::relay::plan_relay;
use transform_pool::subjects::control_stream_capacity;
use transform_pool::subjects::control_stream_name;
use transform_pool::subjects::control_subject;
use transform_pool::subjects::request_reply_subject;
use transform_pool::subjects::work_queue_subject;
use transform_pool::subjects::worker_group;
use transform_pool::worker::JobError;
use transform_pool::worker::handle_job;

#[test]
fn update_then_job_then_update_then_job() {
    let mut cell = ConfigCell::new(Command::default());

    let outcome = handle_control_message(&mut cell, "\"Capitalize\"");
    assert!(outcome.acknowledges());
    let reply = handle_job(&cell, b"qwerty", Some("inbox.1".to_string())).unwrap();
    assert_eq!(reply.destination, "inbox.1");
    assert_eq!(reply.payload, "Qwerty");

    let outcome = handle_control_message(&mut cell, "\"Reverse\"");
    assert_eq!(outcome, ControlOutcome::Applied { wrote: true });
    let reply = handle_job(&cell, b"qwerty", Some("inbox.2".to_string())).unwrap();
    assert_eq!(reply.payload, "ytrewq");
}

#[test]
fn repeated_update_is_one_observable_write() {
    let mut cell = ConfigCell::new(Command::Reverse);
    let writes_before = cell.writes;

    let first = handle_control_message(&mut cell, "\"Capitalize\"");
    assert_eq!(first, ControlOutcome::Applied { wrote: true });
    let second = handle_control_message(&mut cell, "\"Capitalize\"");
    assert_eq!(second, ControlOutcome::Applied { wrote: false });
    assert!(second.acknowledges());

    assert_eq!(cell.writes, writes_before + 1);
    assert_eq!(cell.read(), Command::Capitalize);
}

#[test]
fn malformed_update_is_not_acknowledged_and_changes_nothing() {
    let mut cell = ConfigCell::new(Command::Reverse);
    let outcome = handle_control_message(&mut cell, "{\"bad\": 1}");
    assert_eq!(outcome, ControlOutcome::Rejected);
    assert!(!outcome.acknowledges());
    assert_eq!(cell.read(), Command::Reverse);
    assert_eq!(cell.writes, 0);
}

#[test]
fn control_bytes_are_decoded_as_utf8_first() {
    let mut cell = ConfigCell::new(Command::Capitalize);
    let outcome = handle_control_bytes(&mut cell, b"\"Reverse\"");
    assert_eq!(outcome, ControlOutcome::Applied { wrote: true });
    assert_eq!(cell.read(), Command::Reverse);

    let outcome = handle_control_bytes(&mut cell, &[0xff, 0x00]);
    assert_eq!(outcome, ControlOutcome::Rejected);
    assert_eq!(cell.read(), Command::Reverse);
}

#[test]
fn relay_reply_preserves_the_correlation() {
    let plan = plan_relay(b"qwerty".to_vec(), Some("caller.inbox".to_string())).unwrap();
    let (destination, payload) = plan_reply(plan, b"Qwerty".to_vec());
    assert_eq!(destination, "caller.inbox");
    assert_eq!(payload, b"Qwerty".to_vec());
}

#[test]
fn provisioning_walks_the_protocol_in_order() {
    let s = ListenerState::Uninitialized;
    let s = s.step(ListenerEvent::StreamReady);
    assert_eq!(s, ListenerState::StreamEnsured);
    let s = s.step(ListenerEvent::ConsumerReady);
    assert_eq!(s, ListenerState::ConsumerEnsured);
    let s = s.step(ListenerEvent::PullStarted);
    assert_eq!(s, ListenerState::Listening);
    let s = s.step(ListenerEvent::UpdateHandled);
    assert_eq!(s, ListenerState::Listening);
}

#[test]
fn provisioning_failure_is_terminal() {
    let s = ListenerState::Uninitialized.step(ListenerEvent::StreamFailed);
    assert_eq!(s, ListenerState::Faulted);
    assert_eq!(s.step(ListenerEvent::StreamReady), ListenerState::Faulted);

    let s = ListenerState::StreamEnsured.step(ListenerEvent::ConsumerFailed);
    assert_eq!(s, ListenerState::Faulted);
    assert_eq!(s.step(ListenerEvent::ConsumerReady), ListenerState::Faulted);
}

#[test]
fn durable_cursor_name_is_scoped_to_the_worker() {
    assert_eq!(control_durable_name("w1"), "processor-fnf-w1");
    assert_eq!(control_durable_name(""), "processor-fnf-");
}

#[test]
fn job_without_reply_destination_is_a_protocol_violation() {
    let cell = ConfigCell::new(Command::Capitalize);
    let r = handle_job(&cell, b"qwerty", None);
    assert_eq!(r.unwrap_err(), JobError::NoReplyDestination);
    // The loop goes on: the next well-formed job still succeeds.
    let r = handle_job(&cell, b"qwerty", Some("inbox.3".to_string())).unwrap();
    assert_eq!(r.payload, "Qwerty");
}

#[test]
fn job_with_invalid_utf8_fails_that_job_alone() {
    let cell = ConfigCell::new(Command::ToUpperCase);
    let r = handle_job(&cell, &[0xff, 0xfe], Some("inbox.4".to_string()));
    assert_eq!(r.unwrap_err(), JobError::DecodeFailed);
    let r = handle_job(&cell, "héllo".as_bytes(), Some("inbox.4".to_string())).unwrap();
    assert_eq!(r.payload, "HÉLLO");
}

#[test]
fn relay_without_reply_destination_reports_and_goes_on() {
    let r = plan_relay(b"qwerty".to_vec(), None);
    assert_eq!(r.unwrap_err(), JobError::NoReplyDestination);

    let plan = plan_relay(b"qwerty".to_vec(), Some("caller.inbox".to_string())).unwrap();
    assert_eq!(plan.forward_subject, "nats.wq");
    assert_eq!(plan.payload, b"qwerty".to_vec());
    assert_eq!(plan.reply_to, "caller.inbox");
}

#[test]
fn gateway_request_reply_passes_the_text_through() {
    let plan = plan_request_reply("qwerty".to_string());
    assert_eq!(plan.subject, "nats.request-reply");
    assert_eq!(plan.payload, "qwerty");
}

#[test]
fn gateway_publishes_the_encoded_update() {
    let plan = plan_fire_and_forget("cap").unwrap();
    assert_eq!(plan.subject, "nats.fnf");
    assert_eq!(plan.payload, "\"Capitalize\"");
}

#[test]
fn unknown_command_name_is_a_client_error_and_publishes_nothing() {
    let cell = ConfigCell::new(Command::default());
    let err = match plan_fire_and_forget("xyz") {
        Err(e) => e,
        Ok(_) => panic!("an unknown name must not publish"),
    };
    match &err {
        CommandError::ParseFromString(value) => assert_eq!(value, "xyz"),
    }
    let (status, body) = error_response(&EdgeError::Command(err));
    assert_eq!(status, 400);
    assert_eq!(body, "'xyz' is not a valid command");
    // No control message was published, so the active transform is untouched.
    assert_eq!(cell.read(), Command::Capitalize);
    assert_eq!(cell.writes, 0);
}

#[test]
fn broker_failures_are_server_errors() {
    let (status, body) = error_response(&EdgeError::Broker);
    assert_eq!(status, 500);
    assert_eq!(body, "Something went wrong");
}

#[test]
fn subject_names_are_the_stable_contract() {
    assert_eq!(request_reply_subject(), "nats.request-reply");
    assert_eq!(work_queue_subject(), "nats.wq");
    assert_eq!(worker_group(), "QUEUE_WORKERS");
    assert_eq!(control_subject(), "nats.fnf");
    assert_eq!(control_stream_name(), "COMMANDS");
    assert_eq!(control_stream_capacity(), 1);
}
