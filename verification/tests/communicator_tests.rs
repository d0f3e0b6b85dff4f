use agent_manager::ipc::communicator::{
    AgentCommunicator, AgentError, Handler, TaskResult, TransportOutcome,
};
use agent_manager::ipc::handler::{DefaultAgentHandler, LogLevel};
use agent_manager::ipc::message::{AgentID, ContextEntry, Message, MessageType, OS};
use agent_manager::json::{parse, JsonValue, Member};
use std::sync::{Arc, Mutex};

#[derive(Clone)]
struct MockHandler {
    received_messages: Arc<Mutex<Vec<Message>>>,
}

impl MockHandler {
    fn new() -> Self {
        Self { received_messages: Arc::new(Mutex::new(Vec::new())) }
    }
}

impl Handler for MockHandler {
    fn handle_msg(&self, message: Message) -> Result<(), AgentError> {
        self.received_messages.lock().unwrap().push(message);
        Ok(())
    }
}

struct RefusingHandler;

impl Handler for RefusingHandler {
    fn handle_msg(&self, _message: Message) -> Result<(), AgentError> {
        Err(AgentError::Communication("refused".to_string()))
    }
}

/// A transport that takes `delay` milliseconds for every operation.
#[derive(Clone)]
struct MockIPC {
    send_count: Arc<Mutex<usize>>,
    receive_message: Arc<Mutex<Option<Message>>>,
    delay: u64,
}

impl MockIPC {
    fn new(delay: u64) -> Self {
        Self { send_count: Arc::new(Mutex::new(0)), receive_message: Arc::new(Mutex::new(None)), delay }
    }

    fn set_receive_message(&self, message: Message) {
        *self.receive_message.lock().unwrap() = Some(message);
    }

    fn send(&self, _message: &[u8], timeout: u64) -> TransportOutcome<()> {
        if self.delay < timeout {
            *self.send_count.lock().unwrap() += 1;
        }
        TransportOutcome::after(self.delay, timeout, Ok(()))
    }

    fn receive(&self, timeout: u64) -> TransportOutcome<Vec<u8>> {
        let result = match self.receive_message.lock().unwrap().take() {
            Some(message) => Ok(message.to_bytes().unwrap()),
            None => Err("No message set".to_string()),
        };
        TransportOutcome::after(self.delay, timeout, result)
    }
}

fn send<H: Handler>(
    communicator: &mut AgentCommunicator<MockIPC, H>,
    agent_id: &AgentID,
    message: &[u8],
) -> Result<(), AgentError> {
    let outcome = match communicator.transport(agent_id) {
        Ok(ipc) => ipc.send(message, communicator.get_timeout()),
        Err(e) => return Err(e),
    };
    communicator.send_message(agent_id, outcome)
}

fn receive<H: Handler>(
    communicator: &AgentCommunicator<MockIPC, H>,
    agent_id: &AgentID,
) -> Result<(), AgentError> {
    let outcome = communicator.transport(agent_id)?.receive(communicator.get_timeout());
    communicator.receive_message(agent_id, outcome)
}

fn receive_all<H: Handler>(communicator: &AgentCommunicator<MockIPC, H>) -> Result<(), AgentError> {
    let results = communicator
        .agent_ids()
        .iter()
        .map(|id| TaskResult::Finished(receive(communicator, id)))
        .collect();
    communicator.receive_all_messages(results)
}

fn health_check(agent_id: &AgentID) -> Message {
    Message {
        agent_id: agent_id.clone(),
        timestamp: "2024-08-04T12:34:56Z".to_string(),
        request: MessageType::HealthCheck {
            status: "running".to_string(),
            cpu_usage: "45.3".to_string(),
            memory_usage: "120.5".to_string(),
            storage_usage: "80.0".to_string(),
        },
    }
}

fn log_line(agent_id: &AgentID) -> Message {
    Message {
        agent_id: agent_id.clone(),
        timestamp: "2024-08-04T12:34:57Z".to_string(),
        request: MessageType::Log {
            log_level: "INFO".to_string(),
            message: "Test log".to_string(),
            context: Vec::new(),
        },
    }
}

#[test]
fn test_send_message() {
    let handler = MockHandler::new();
    let mut communicator = AgentCommunicator::new(handler, 100);

    let agent_id = AgentID("agent_001".to_string());
    let mock_ipc = MockIPC::new(10);
    communicator.add_agent(agent_id.clone(), mock_ipc.clone());

    let result = send(&mut communicator, &agent_id, b"Test message");
    assert!(result.is_ok());

    let send_count = *mock_ipc.send_count.lock().unwrap();
    assert_eq!(send_count, 1, "Message should be sent once");
    assert_eq!(communicator.get_message_count(), 1);
}

#[test]
fn test_receive_message() {
    let handler = MockHandler::new();
    let mut communicator = AgentCommunicator::new(handler.clone(), 100);

    let agent_id = AgentID("agent_001".to_string());
    let mock_ipc = MockIPC::new(10);
    communicator.add_agent(agent_id.clone(), mock_ipc.clone());

    let test_message = health_check(&agent_id);
    mock_ipc.set_receive_message(test_message.clone());

    let result = receive(&communicator, &agent_id);
    assert!(result.is_ok(), "Receive message should succeed");

    let received_messages = handler.received_messages.lock().unwrap();
    assert_eq!(received_messages.len(), 1, "Handler should receive one message");
    assert_eq!(received_messages[0], test_message, "Received message should match sent message");
}

#[test]
fn test_receive_all_messages() {
    let handler = MockHandler::new();
    let mut communicator = AgentCommunicator::new(handler.clone(), 100);

    let agent_id_1 = AgentID("agent_001".to_string());
    let agent_id_2 = AgentID("agent_002".to_string());
    let mock_ipc_1 = MockIPC::new(10);
    let mock_ipc_2 = MockIPC::new(10);

    communicator.add_agent(agent_id_1.clone(), mock_ipc_1.clone());
    communicator.add_agent(agent_id_2.clone(), mock_ipc_2.clone());

    let test_message_1 = health_check(&agent_id_1);
    let test_message_2 = log_line(&agent_id_2);

    mock_ipc_1.set_receive_message(test_message_1.clone());
    mock_ipc_2.set_receive_message(test_message_2.clone());

    let result = receive_all(&communicator);
    assert!(result.is_ok(), "Receive all messages should succeed");

    let received_messages = handler.received_messages.lock().unwrap();
    assert_eq!(received_messages.len(), 2, "Handler should receive two messages");
    assert!(received_messages.contains(&test_message_1), "Should receive message from agent 1");
    assert!(received_messages.contains(&test_message_2), "Should receive message from agent 2");
}

#[test]
fn test_non_existent_agent() {
    let handler = MockHandler::new();
    let mut communicator: AgentCommunicator<MockIPC, MockHandler> =
        AgentCommunicator::new(handler, 100);

    let non_existent_agent_id = AgentID("non_existent".to_string());

    let send_result = send(&mut communicator, &non_existent_agent_id, b"Test message");
    assert!(
        matches!(send_result, Err(AgentError::NotFound)),
        "Send to non-existent agent should fail with NotFound error"
    );

    let receive_result = receive(&communicator, &non_existent_agent_id);
    assert!(
        matches!(receive_result, Err(AgentError::NotFound)),
        "Receive from non-existent agent should fail with NotFound error"
    );

    // Whatever the race came to, an agent that is not registered is not found.
    assert_eq!(
        communicator.send_message(&non_existent_agent_id, TransportOutcome::Completed(Ok(()))),
        Err(AgentError::NotFound)
    );
    assert_eq!(
        communicator.receive_message(&non_existent_agent_id, TransportOutcome::TimedOut),
        Err(AgentError::NotFound)
    );
    assert_eq!(communicator.get_message_count(), 0);
}

#[test]
fn test_timeout() {
    let handler = MockHandler::new();
    let mut communicator = AgentCommunicator::new(handler.clone(), 50);

    let agent_id = AgentID("agent_001".to_string());
    let mock_ipc = MockIPC::new(100); // IPC delay > timeout
    communicator.add_agent(agent_id.clone(), mock_ipc.clone());
    mock_ipc.set_receive_message(health_check(&agent_id));

    let send_result = send(&mut communicator, &agent_id, b"Test message");
    assert!(matches!(send_result, Err(AgentError::Timeout)), "Send should timeout");

    let receive_result = receive(&communicator, &agent_id);
    assert!(matches!(receive_result, Err(AgentError::Timeout)), "Receive should timeout");

    assert_eq!(communicator.get_message_count(), 0);
    assert!(handler.received_messages.lock().unwrap().is_empty());
}

#[test]
fn test_custom_message_type() {
    let handler = MockHandler::new();
    let mut communicator = AgentCommunicator::new(handler.clone(), 100);

    let agent_id = AgentID("agent_001".to_string());
    let mock_ipc = MockIPC::new(10);
    communicator.add_agent(agent_id.clone(), mock_ipc.clone());

    let custom_data = JsonValue::Object(vec![
        Member { key: "key1".to_string(), value: JsonValue::Text("value1".to_string()) },
        Member { key: "key2".to_string(), value: JsonValue::Number("42".to_string()) },
    ]);

    let test_message = Message {
        agent_id: agent_id.clone(),
        timestamp: "2024-08-04T12:34:56Z".to_string(),
        request: MessageType::Custom(custom_data.clone()),
    };

    mock_ipc.set_receive_message(test_message.clone());

    let result = receive(&communicator, &agent_id);
    assert!(result.is_ok(), "Receive custom message should succeed");

    let received_messages = handler.received_messages.lock().unwrap();
    assert_eq!(received_messages.len(), 1, "Handler should receive one message");

    if let MessageType::Custom(received_data) = &received_messages[0].request {
        assert_eq!(received_data, &custom_data, "Received custom data should match sent data");
    } else {
        panic!("Received message should be of Custom type");
    }
}

#[test]
fn the_timer_wins_from_the_timeout_on() {
    for (latency, timeout, in_time) in
        [(0, 1, true), (49, 50, true), (50, 50, false), (51, 50, false), (0, 0, false), (u64::MAX, u64::MAX, false), (u64::MAX - 1, u64::MAX, true)]
    {
        let outcome = TransportOutcome::after(latency, timeout, Ok::<u8, String>(7));
        if in_time {
            assert_eq!(outcome, TransportOutcome::Completed(Ok(7)));
        } else {
            assert_eq!(outcome, TransportOutcome::TimedOut);
        }
        let outcome = TransportOutcome::after(latency, timeout, Err::<u8, String>("x".to_string()));
        if in_time {
            assert_eq!(outcome, TransportOutcome::Completed(Err("x".to_string())));
        } else {
            assert_eq!(outcome, TransportOutcome::TimedOut);
        }
    }
}

#[test]
fn the_count_goes_up_with_successful_sends_only() {
    let mut communicator = AgentCommunicator::new(DefaultAgentHandler, 100);
    let agent_id = AgentID("a".to_string());
    communicator.add_agent(agent_id.clone(), ());
    assert_eq!(communicator.get_message_count(), 0);

    assert_eq!(communicator.send_message(&agent_id, TransportOutcome::Completed(Ok(()))), Ok(()));
    assert_eq!(communicator.get_message_count(), 1);

    assert_eq!(communicator.send_message(&agent_id, TransportOutcome::TimedOut), Err(AgentError::Timeout));
    assert_eq!(communicator.get_message_count(), 1);

    assert_eq!(
        communicator.send_message(&agent_id, TransportOutcome::Completed(Err("broken pipe".to_string()))),
        Err(AgentError::Communication("broken pipe".to_string()))
    );
    assert_eq!(communicator.get_message_count(), 1);

    assert_eq!(
        communicator.send_message(&AgentID("b".to_string()), TransportOutcome::Completed(Ok(()))),
        Err(AgentError::NotFound)
    );
    assert_eq!(communicator.get_message_count(), 1);

    for _ in 0..5 {
        communicator.send_message(&agent_id, TransportOutcome::Completed(Ok(()))).unwrap();
    }
    assert_eq!(communicator.get_message_count(), 6);

    // Receiving does not count.
    let bytes = health_check(&agent_id).to_bytes().unwrap();
    assert_eq!(communicator.receive_message(&agent_id, TransportOutcome::Completed(Ok(bytes))), Ok(()));
    assert_eq!(communicator.get_message_count(), 6);
    assert_eq!(communicator.shutdown(), Ok(()));
    assert_eq!(communicator.get_message_count(), 6);
}

#[test]
fn registering_an_identity_again_replaces_its_transport() {
    let mut communicator = AgentCommunicator::new(DefaultAgentHandler, 100);
    let a = AgentID("a".to_string());
    let b = AgentID("b".to_string());
    assert!(communicator.agent_ids().is_empty());
    assert_eq!(communicator.transport(&a), Err(AgentError::NotFound));

    communicator.add_agent(a.clone(), "first");
    communicator.add_agent(b.clone(), "other");
    assert_eq!(communicator.transport(&a), Ok(&"first"));
    assert_eq!(communicator.transport(&b), Ok(&"other"));

    communicator.add_agent(a.clone(), "second");
    assert_eq!(communicator.transport(&a), Ok(&"second"));
    assert_eq!(communicator.transport(&b), Ok(&"other"));

    let mut ids = communicator.agent_ids();
    ids.sort_by(|x, y| x.0.cmp(&y.0));
    assert_eq!(ids, vec![a.clone(), b.clone()]);
    assert_eq!(a.to_string(), "a");
    assert_eq!(communicator.get_timeout(), 100);
    assert_eq!(*communicator.get_handler(), DefaultAgentHandler);
}

#[test]
fn what_is_received_must_spell_a_message() {
    let handler = MockHandler::new();
    let mut communicator = AgentCommunicator::new(handler.clone(), 100);
    let agent_id = AgentID("a".to_string());
    communicator.add_agent(agent_id.clone(), ());

    assert_eq!(
        communicator.receive_message(&agent_id, TransportOutcome::Completed(Err("No message set".to_string()))),
        Err(AgentError::Communication("No message set".to_string()))
    );
    match communicator.receive_message(&agent_id, TransportOutcome::Completed(Ok(b"{not json".to_vec()))) {
        Err(AgentError::Serialization(text)) => assert!(!text.is_empty()),
        other => panic!("expected a serialization failure, got {:?}", other),
    }
    for document in [
        "{}",
        "[]",
        "{\"agent_id\":\"a\",\"timestamp\":\"t\"}",
        "{\"agent_id\":\"a\",\"timestamp\":\"t\",\"request_type\":\"Reboot\"}",
        "{\"agent_id\":\"a\",\"timestamp\":\"t\",\"request_type\":\"Node\",\"src_ip\":\"1.2.3.4\"}",
        "{\"agent_id\":\"a\",\"timestamp\":\"t\",\"request_type\":\"Node\",\"src_ip\":\"1.2.3.4\",\"os\":\"Plan9\"}",
        "{\"agent_id\":7,\"timestamp\":\"t\",\"request_type\":\"Node\",\"src_ip\":\"1.2.3.4\",\"os\":\"Linux\"}",
        "{\"agent_id\":\"a\",\"timestamp\":\"t\",\"request_type\":\"HealthCheck\",\"status\":\"ok\",\"cpu_usage\":\"high\",\"memory_usage\":1,\"storage_usage\":2}",
        "{\"agent_id\":\"a\",\"timestamp\":\"t\",\"request_type\":\"Log\",\"log_level\":\"INFO\",\"message\":\"m\",\"context\":{\"k\":1}}",
        "{\"agent_id\":\"a\",\"timestamp\":\"t\",\"request_type\":\"Log\",\"log_level\":\"INFO\",\"message\":\"m\"}",
    ] {
        assert_eq!(
            communicator.receive_message(&agent_id, TransportOutcome::Completed(Ok(document.as_bytes().to_vec()))),
            Err(AgentError::Serialization("unrecognized or malformed payload".to_string())),
            "{}",
            document
        );
    }
    assert!(handler.received_messages.lock().unwrap().is_empty());
}

#[test]
fn the_answer_of_the_handler_is_the_result_of_a_receive() {
    let mut communicator = AgentCommunicator::new(RefusingHandler, 100);
    let agent_id = AgentID("a".to_string());
    communicator.add_agent(agent_id.clone(), ());
    let bytes = health_check(&agent_id).to_bytes().unwrap();
    assert_eq!(
        communicator.receive_message(&agent_id, TransportOutcome::Completed(Ok(bytes.clone()))),
        Err(AgentError::Communication("refused".to_string()))
    );
    assert_eq!(
        communicator.accept(&agent_id, TransportOutcome::Completed(Ok(bytes))),
        Ok(health_check(&agent_id))
    );
    assert_eq!(communicator.accept(&agent_id, TransportOutcome::TimedOut), Err(AgentError::Timeout));
}

fn all_payloads() -> Vec<MessageType> {
    vec![
        MessageType::HealthCheck {
            status: "running".to_string(),
            cpu_usage: "45.3".to_string(),
            memory_usage: "120.5".to_string(),
            storage_usage: "80.0".to_string(),
        },
        MessageType::HealthCheck {
            status: "".to_string(),
            cpu_usage: "0".to_string(),
            memory_usage: "-1".to_string(),
            storage_usage: "0.25".to_string(),
        },
        MessageType::Dependency {
            module: "Connections".to_string(),
            local_port: 0,
            local_ip: "10.0.0.1".to_string(),
            local_os: OS::Linux,
            remote_port: 65535,
            remote_ip: "::1".to_string(),
            description: "TCP \"quoted\" \\ connection\n".to_string(),
        },
        MessageType::Node { src_ip: "192.168.1.2".to_string(), os: OS::Windows },
        MessageType::Node { src_ip: "".to_string(), os: OS::MacOS },
        MessageType::Node { src_ip: "\u{1f980}".to_string(), os: OS::Unknown },
        MessageType::Log {
            log_level: "INFO".to_string(),
            message: "Test log".to_string(),
            context: Vec::new(),
        },
        MessageType::Log {
            log_level: "WARN".to_string(),
            message: "disk".to_string(),
            context: vec![
                ContextEntry { key: "device".to_string(), value: "sda".to_string() },
                ContextEntry { key: "free".to_string(), value: "3%".to_string() },
            ],
        },
        MessageType::Custom(JsonValue::Object(Vec::new())),
        MessageType::Custom(JsonValue::Object(vec![
            Member { key: "key1".to_string(), value: JsonValue::Text("value1".to_string()) },
            Member { key: "key2".to_string(), value: JsonValue::Number("42".to_string()) },
            Member {
                key: "nested".to_string(),
                value: JsonValue::Object(vec![
                    Member { key: "agent_id".to_string(), value: JsonValue::Null },
                    Member {
                        key: "list".to_string(),
                        value: JsonValue::Array(vec![
                            JsonValue::Bool(true),
                            JsonValue::Number("-7".to_string()),
                            JsonValue::Number("2.5".to_string()),
                        ]),
                    },
                ]),
            },
        ])),
    ]
}

#[test]
fn every_payload_is_read_back_as_it_was_written() {
    for request in all_payloads() {
        let message = Message {
            agent_id: AgentID("agent_001".to_string()),
            timestamp: "2024-08-04T12:34:56Z".to_string(),
            request,
        };
        let document = message.to_json().unwrap();
        assert_eq!(Message::from_json(&document), Some(message.clone()), "{:?}", message);

        let bytes = message.to_bytes().unwrap();
        let read = Message::try_from_bytes(&bytes).unwrap();
        assert_eq!(read, message);
        // Writing what was read gives the same bytes again.
        assert_eq!(read.to_bytes().unwrap(), bytes);
    }
}

#[test]
fn a_document_is_written_again_as_an_equivalent_one() {
    let text = "{\"request_type\":\"Node\",\"os\":\"Linux\",\"extra\":[1,2],\"timestamp\":\"t\",\"src_ip\":\"1.2.3.4\",\"agent_id\":\"a\"}";
    let message = Message::try_from_bytes(text.as_bytes()).unwrap();
    assert_eq!(
        message,
        Message {
            agent_id: AgentID("a".to_string()),
            timestamp: "t".to_string(),
            request: MessageType::Node { src_ip: "1.2.3.4".to_string(), os: OS::Linux },
        }
    );
    let written = message.to_bytes().unwrap();
    assert_eq!(
        String::from_utf8(written.clone()).unwrap(),
        "{\"agent_id\":\"a\",\"os\":\"Linux\",\"request_type\":\"Node\",\"src_ip\":\"1.2.3.4\",\"timestamp\":\"t\"}"
    );
    assert_eq!(Message::try_from_bytes(&written).unwrap(), message);
}

#[test]
fn the_envelope_and_the_payload_stand_side_by_side() {
    let message = Message {
        agent_id: AgentID("agent_001".to_string()),
        timestamp: "2024-08-04T12:34:56Z".to_string(),
        request: MessageType::HealthCheck {
            status: "running".to_string(),
            cpu_usage: "45.3".to_string(),
            memory_usage: "120.5".to_string(),
            storage_usage: "80.0".to_string(),
        },
    };
    let text = String::from_utf8(message.to_bytes().unwrap()).unwrap();
    assert_eq!(
        text,
        "{\"agent_id\":\"agent_001\",\"cpu_usage\":45.3,\"memory_usage\":120.5,\"request_type\":\"HealthCheck\",\"status\":\"running\",\"storage_usage\":80.0,\"timestamp\":\"2024-08-04T12:34:56Z\"}"
    );
    assert_eq!(message.request.tag(), "HealthCheck");
    let doc = parse(text.as_bytes()).unwrap();
    assert_eq!(doc.get("request_type"), Some(&JsonValue::Text("HealthCheck".to_string())));
    assert_eq!(doc.get("cpu_usage"), Some(&JsonValue::Number("45.3".to_string())));
}

#[test]
fn a_custom_payload_must_be_an_object_free_of_the_envelope_names() {
    let id = AgentID("a".to_string());
    for payload in [
        JsonValue::Null,
        JsonValue::Text("x".to_string()),
        JsonValue::Array(vec![]),
        JsonValue::Object(vec![Member { key: "agent_id".to_string(), value: JsonValue::Null }]),
        JsonValue::Object(vec![Member { key: "timestamp".to_string(), value: JsonValue::Null }]),
        JsonValue::Object(vec![
            Member { key: "fine".to_string(), value: JsonValue::Null },
            Member { key: "request_type".to_string(), value: JsonValue::Text("Node".to_string()) },
        ]),
    ] {
        let message = Message {
            agent_id: id.clone(),
            timestamp: "t".to_string(),
            request: MessageType::Custom(payload),
        };
        assert_eq!(message.to_json(), None, "{:?}", message);
        assert_eq!(message.to_bytes(), None);
    }
    // A measurement that is no number cannot be written as text.
    let message = Message {
        agent_id: id,
        timestamp: "t".to_string(),
        request: MessageType::HealthCheck {
            status: "s".to_string(),
            cpu_usage: "high".to_string(),
            memory_usage: "1".to_string(),
            storage_usage: "1".to_string(),
        },
    };
    assert!(message.to_json().is_some());
    assert_eq!(message.to_bytes(), None);
}

#[test]
fn systems_go_by_their_names() {
    for (os, name) in [(OS::Windows, "Windows"), (OS::Linux, "Linux"), (OS::MacOS, "MacOS"), (OS::Unknown, "Unknown")] {
        assert_eq!(os.as_str(), name);
        assert_eq!(OS::from_name(name), Some(os));
    }
    for name in ["", "linux", "LINUX", "Linux ", "macOS", "Solaris"] {
        assert_eq!(OS::from_name(name), None);
    }
}

fn timed_out() -> TaskResult {
    TaskResult::Finished(Err(AgentError::Timeout))
}

fn succeeded() -> TaskResult {
    TaskResult::Finished(Ok(()))
}

#[test]
fn a_fan_out_fails_with_the_first_failure() {
    let communicator: AgentCommunicator<(), DefaultAgentHandler> =
        AgentCommunicator::new(DefaultAgentHandler, 100);
    assert_eq!(communicator.receive_all_messages(vec![]), Ok(()));
    assert_eq!(communicator.receive_all_messages(vec![succeeded(), succeeded(), succeeded()]), Ok(()));

    // N agents of which M never produce a message.
    for n in 1..6 {
        for silent in 0..(1u32 << n) {
            let results: Vec<TaskResult> =
                (0..n).map(|i| if silent & (1 << i) != 0 { timed_out() } else { succeeded() }).collect();
            let expected = if silent == 0 { Ok(()) } else { Err(AgentError::Timeout) };
            assert_eq!(communicator.receive_all_messages(results), expected, "n={} silent={:b}", n, silent);
        }
    }

    // Of several failures, the first in the order of the tasks is the result.
    assert_eq!(
        communicator.receive_all_messages(vec![
            succeeded(),
            TaskResult::Finished(Err(AgentError::Serialization("bad".to_string()))),
            timed_out(),
            TaskResult::Aborted("panicked".to_string()),
        ]),
        Err(AgentError::Serialization("bad".to_string()))
    );
    assert_eq!(
        communicator.receive_all_messages(vec![
            succeeded(),
            TaskResult::Aborted("panicked".to_string()),
            timed_out(),
        ]),
        Err(AgentError::Communication("panicked".to_string()))
    );
    assert_eq!(
        communicator.receive_all_messages(vec![timed_out(), TaskResult::Finished(Err(AgentError::NotFound))]),
        Err(AgentError::Timeout)
    );
}

#[test]
fn a_silent_agent_fails_the_fan_out_though_the_others_are_handled() {
    let handler = MockHandler::new();
    let mut communicator = AgentCommunicator::new(handler.clone(), 50);
    let ids: Vec<AgentID> = (0..4).map(|i| AgentID(format!("agent_{}", i))).collect();
    for (i, id) in ids.iter().enumerate() {
        // The agents 1 and 3 take longer than the timeout.
        let ipc = MockIPC::new(if i % 2 == 1 { 60 } else { 10 });
        ipc.set_receive_message(health_check(id));
        communicator.add_agent(id.clone(), ipc);
    }
    assert_eq!(receive_all(&communicator), Err(AgentError::Timeout));
    let received = handler.received_messages.lock().unwrap();
    assert_eq!(received.len(), 2);
    assert!(received.contains(&health_check(&ids[0])));
    assert!(received.contains(&health_check(&ids[2])));
}

#[test]
fn failures_of_the_communicator_describe_themselves() {
    assert_eq!(AgentError::NotFound.to_string(), "Agent not found");
    assert_eq!(AgentError::Communication("x".to_string()).to_string(), "Communication error: x");
    assert_eq!(AgentError::Serialization("y".to_string()).to_string(), "Serialization error: y");
    assert_eq!(AgentError::Timeout.to_string(), "Operation timed out");
}

#[test]
fn the_default_handler_logs_health_checks_and_log_lines() {
    let id = AgentID("agent_001".to_string());
    let handler = DefaultAgentHandler;

    let record = handler.log_record(&health_check(&id));
    assert_eq!(record.level, LogLevel::Info);
    assert_eq!(record.text, "Health Check - Agent: agent_001, Status: running, CPU: 45.3, Memory: 120.5");

    let record = handler.log_record(&log_line(&id));
    assert_eq!(record.level, LogLevel::Info);
    assert_eq!(record.text, "Log - Agent: agent_001, Level: INFO, Message: Test log, Context: {}");

    let mut with_context = log_line(&id);
    with_context.request = MessageType::Log {
        log_level: "WARN".to_string(),
        message: "disk".to_string(),
        context: vec![
            ContextEntry { key: "device".to_string(), value: "sda".to_string() },
            ContextEntry { key: "free".to_string(), value: "3%".to_string() },
            ContextEntry { key: "host".to_string(), value: "db1".to_string() },
        ],
    };
    assert_eq!(
        handler.log_record(&with_context).text,
        "Log - Agent: agent_001, Level: WARN, Message: disk, Context: {device: sda, free: 3%, host: db1}"
    );

    for request in [
        MessageType::Node { src_ip: "1.2.3.4".to_string(), os: OS::Linux },
        MessageType::Custom(JsonValue::Object(vec![])),
        MessageType::Dependency {
            module: "m".to_string(),
            local_port: 1,
            local_ip: "a".to_string(),
            local_os: OS::Linux,
            remote_port: 2,
            remote_ip: "b".to_string(),
            description: "d".to_string(),
        },
    ] {
        let message = Message { agent_id: id.clone(), timestamp: "t".to_string(), request };
        let record = handler.log_record(&message);
        assert_eq!(record.level, LogLevel::Warn);
        assert_eq!(record.text, "Unsupported message type from agent: agent_001");
        // Not supported, and still no error.
        assert_eq!(handler.handle_msg(message), Ok(()));
    }
    assert_eq!(handler.handle_msg(health_check(&id)), Ok(()));
}

fn sorted_members(doc: &JsonValue) -> Vec<Member> {
    match doc {
        JsonValue::Object(members) => {
            let mut members = members.clone();
            members.sort_by(|a, b| a.key.cmp(&b.key));
            members
        }
        other => panic!("no object: {:?}", other),
    }
}

#[test]
fn a_rewritten_document_holds_the_same_names_with_the_same_values() {
    for text in [
        "{\"timestamp\":\"t\",\"status\":\"running\",\"agent_id\":\"a\",\"storage_usage\":80.0,\"request_type\":\"HealthCheck\",\"cpu_usage\":45.3,\"memory_usage\":120.5}",
        "{\"request_type\":\"Dependency\",\"module\":\"m\",\"local_port\":0,\"local_ip\":\"1.2.3.4\",\"local_os\":\"Linux\",\"remote_port\":65535,\"remote_ip\":\"::1\",\"description\":\"d\",\"agent_id\":\"a\",\"timestamp\":\"t\"}",
        " { \"os\" : \"MacOS\" , \"src_ip\" : \"1.2.3.4\" , \"agent_id\" : \"a\" , \"timestamp\" : \"t\" , \"request_type\" : \"Node\" } ",
        "{\"request_type\":\"Log\",\"context\":{\"z\":\"1\",\"a\":\"2\"},\"message\":\"m\",\"log_level\":\"INFO\",\"agent_id\":\"a\",\"timestamp\":\"t\"}",
        "{\"request_type\":\"Custom\",\"agent_id\":\"a\",\"timestamp\":\"t\",\"key2\":42,\"key1\":\"value1\",\"deep\":{\"x\":[1,{\"y\":null}]}}",
        "{\"request_type\":\"Custom\",\"agent_id\":\"a\",\"timestamp\":\"t\"}",
    ] {
        let read = parse(text.as_bytes()).unwrap();
        let message = Message::from_json(&read).unwrap();
        let written = message.to_json().unwrap();
        assert_eq!(sorted_members(&written), sorted_members(&read), "{}", text);
        // On the wire, too: the bytes that are written spell the document that was read.
        assert_eq!(parse(&message.to_bytes().unwrap()).unwrap(), read);
    }
}
