//! The handler that is used where none is supplied: it understands health
//! checks and log lines, and passes everything else over.
use crate::ipc::communicator::{AgentError, Handler};
use crate::ipc::message::{context_view, ContextEntry, Message, MessageType, MessageTypeView, MessageView};
use crate::text::joined;
use vstd::prelude::*;

verus! {

/// How much a record matters.
#[derive(Debug, Clone, Copy, PartialEq, Eq)]
pub enum LogLevel {
    Info,
    Warn,
}

/// One line for the log.
#[derive(Debug, Clone, PartialEq, Eq)]
pub struct LogRecord {
    pub level: LogLevel,
    pub text: String,
}

/// The first `n` entries of a context as text, `key: value` each and a
/// comma between two of them.
pub open spec fn entries_text(context: Seq<(Seq<char>, Seq<char>)>, n: int) -> Seq<char>
    decreases n,
{
    if n <= 0 {
        Seq::empty()
    } else if n == 1 {
        context[0].0 + ": "@ + context[0].1
    } else {
        entries_text(context, n - 1) + ", "@ + context[n - 1].0 + ": "@ + context[n - 1].1
    }
}

/// A context as text, in braces.
pub open spec fn context_text(context: Seq<(Seq<char>, Seq<char>)>) -> Seq<char> {
    "{"@ + entries_text(context, context.len() as int) + "}"@
}

/// What the default handler writes about a message.
pub open spec fn record_text(m: MessageView) -> Seq<char> {
    match m.request {
        MessageTypeView::HealthCheck { status, cpu_usage, memory_usage, storage_usage } =>
            "Health Check - Agent: "@ + m.agent_id + ", Status: "@ + status + ", CPU: "@
            + cpu_usage + ", Memory: "@ + memory_usage,
        MessageTypeView::Log { log_level, message, context } => "Log - Agent: "@ + m.agent_id
            + ", Level: "@ + log_level + ", Message: "@ + message + ", Context: "@
            + context_text(context),
        _ => "Unsupported message type from agent: "@ + m.agent_id,
    }
}

/// A health check and a log line are information; a message of another type
/// is not supported, which is worth a warning and is no error.
pub open spec fn record_level(m: MessageView) -> LogLevel {
    match m.request {
        MessageTypeView::HealthCheck { .. } => LogLevel::Info,
        MessageTypeView::Log { .. } => LogLevel::Info,
        _ => LogLevel::Warn,
    }
}

/// Writes a context as text.
fn write_context_text(context: &Vec<ContextEntry>) -> (text: String)
    ensures
        text@ == context_text(context_view(context@)),
{
    let ghost entries = context_view(context@);
    let mut text = "{".to_owned();
    let mut i: usize = 0;
    while i < context.len()
        invariant
            i <= context.len(),
            entries == context_view(context@),
            text@ == "{"@ + entries_text(entries, i as int),
        decreases context.len() - i,
    {
        if i > 0 {
            text.append(", ");
        }
        text.append(context[i].key.as_str());
        text.append(": ");
        text.append(context[i].value.as_str());
        i += 1;
    }
    text.append("}");
    text
}

/// The handler that is used where none is supplied.
#[derive(Debug, Clone, Copy, PartialEq, Eq)]
pub struct DefaultAgentHandler;

impl DefaultAgentHandler {
    /// What there is to write to the log about a message.
    pub fn log_record(&self, message: &Message) -> (record: LogRecord)
        ensures
            record.level == record_level(message@),
            record.text@ == record_text(message@),
    {
        let agent = message.agent_id.0.as_str();
        match &message.request {
            MessageType::HealthCheck { status, cpu_usage, memory_usage, storage_usage } => {
                let mut text = joined("Health Check - Agent: ", agent);
                text.append(", Status: ");
                text.append(status.as_str());
                text.append(", CPU: ");
                text.append(cpu_usage.as_str());
                text.append(", Memory: ");
                text.append(memory_usage.as_str());
                LogRecord { level: LogLevel::Info, text }
            },
            MessageType::Log { log_level, message: line, context } => {
                let mut text = joined("Log - Agent: ", agent);
                text.append(", Level: ");
                text.append(log_level.as_str());
                text.append(", Message: ");
                text.append(line.as_str());
                text.append(", Context: ");
                text.append(write_context_text(context).as_str());
                LogRecord { level: LogLevel::Info, text }
            },
            _ => LogRecord {
                level: LogLevel::Warn,
                text: joined("Unsupported message type from agent: ", agent),
            },
        }
    }
}

impl Handler for DefaultAgentHandler {
    /// Every message is accepted: one that is not supported is no error.
    open spec fn may_handle(&self, message: MessageView, result: Result<(), AgentError>) -> bool {
        result is Ok
    }

    fn handle_msg(&self, message: Message) -> (r: Result<(), AgentError>) {
        Ok(())
    }
}

} // verus!
