//! The registry of agents, and what sending to an agent and receiving from
//! it come to. The transport operations themselves are the caller's: each is
//! raced against the configured timeout, and the communicator is told how the
//! race ended.
use crate::ipc::message::{message_of_bytes, AgentID, Message, MessageView};
use crate::ipc::registry::{
    registry_entries, registry_get, registry_insert, registry_keys, registry_new,
};
use crate::text::joined;
use dashmap::DashMap;
use vstd::prelude::*;

verus! {

/// Why an operation of the communicator failed.
#[derive(Debug, Clone, PartialEq, Eq)]
pub enum AgentError {
    /// No agent of that identity is registered.
    NotFound,
    /// The transport failed; holds the reason.
    Communication(String),
    /// What was received spells no message; holds the complaint.
    Serialization(String),
    /// The operation did not end in time.
    Timeout,
}

/// The mathematical value of an `AgentError`.
pub enum AgentErrorView {
    NotFound,
    Communication(Seq<char>),
    Serialization(Seq<char>),
    Timeout,
}

impl AgentErrorView {
    /// The line that describes the failure to a reader.
    pub open spec fn text(self) -> Seq<char> {
        match self {
            AgentErrorView::NotFound => "Agent not found"@,
            AgentErrorView::Communication(reason) => "Communication error: "@ + reason,
            AgentErrorView::Serialization(reason) => "Serialization error: "@ + reason,
            AgentErrorView::Timeout => "Operation timed out"@,
        }
    }
}

impl View for AgentError {
    type V = AgentErrorView;

    open spec fn view(&self) -> AgentErrorView {
        match self {
            AgentError::NotFound => AgentErrorView::NotFound,
            AgentError::Communication(reason) => AgentErrorView::Communication(reason@),
            AgentError::Serialization(reason) => AgentErrorView::Serialization(reason@),
            AgentError::Timeout => AgentErrorView::Timeout,
        }
    }
}

impl AgentError {
    /// The line that describes the failure to a reader.
    pub fn to_string(&self) -> (s: String)
        ensures
            s@ == self@.text(),
    {
        match self {
            AgentError::NotFound => "Agent not found".to_owned(),
            AgentError::Communication(reason) => joined("Communication error: ", reason.as_str()),
            AgentError::Serialization(reason) => joined("Serialization error: ", reason.as_str()),
            AgentError::Timeout => "Operation timed out".to_owned(),
        }
    }
}

/// How the race between a transport operation and the timeout ended.
#[derive(Debug, PartialEq, Eq)]
pub enum TransportOutcome<T> {
    /// The operation ended first, with this result.
    Completed(Result<T, String>),
    /// The timeout ended first; the operation was abandoned.
    TimedOut,
}

impl<T> TransportOutcome<T> {
    /// Who wins the race: the operation, where it takes less than the
    /// timeout; the timer from then on.
    pub open spec fn race(latency: u64, timeout: u64, result: Result<T, String>) -> Self {
        if latency < timeout {
            TransportOutcome::Completed(result)
        } else {
            TransportOutcome::TimedOut
        }
    }

    /// The outcome of an operation that takes `latency` milliseconds and
    /// then gives `result`, under a timeout of `timeout` milliseconds.
    pub fn after(latency: u64, timeout: u64, result: Result<T, String>) -> (outcome: Self)
        ensures
            outcome == Self::race(latency, timeout, result),
    {
        if latency < timeout {
            TransportOutcome::Completed(result)
        } else {
            TransportOutcome::TimedOut
        }
    }
}

/// What processes the messages that arrive.
///
/// A handler may say what its answers to a message can be, and is then held
/// to it. One that says nothing may answer anything.
pub trait Handler {
    /// Whether the handler may answer `message` with `result`.
    open spec fn may_handle(&self, message: MessageView, result: Result<(), AgentError>) -> bool {
        true
    }

    fn handle_msg(&self, message: Message) -> (r: Result<(), AgentError>)
        ensures
            self.may_handle(message@, r),
    ;
}

/// How one of the receiving tasks of a fan-out ended.
#[derive(Debug, PartialEq, Eq)]
pub enum TaskResult {
    /// The task ran to its end, with this result.
    Finished(Result<(), AgentError>),
    /// The task itself broke down; holds the reason.
    Aborted(String),
}

impl TaskResult {
    /// The failure that a task stands for, if any: its own, or a
    /// communication failure where the task broke down.
    pub open spec fn failure(self) -> Option<AgentErrorView> {
        match self {
            TaskResult::Finished(Ok(_)) => None,
            TaskResult::Finished(Err(e)) => Some(e@),
            TaskResult::Aborted(reason) => Some(AgentErrorView::Communication(reason@)),
        }
    }
}

/// The failure of the first of the first `n` tasks that failed.
pub open spec fn first_failure(results: Seq<TaskResult>, n: int) -> Option<AgentErrorView>
    decreases n,
{
    if n <= 0 {
        None
    } else {
        match first_failure(results, n - 1) {
            Some(e) => Some(e),
            None => results[n - 1].failure(),
        }
    }
}

/// What sending comes to: an agent that is not registered is not found;
/// else a race that the timer won is a timeout, a send that failed a
/// communication failure, and a send that went through a success.
pub open spec fn send_result(registered: bool, outcome: TransportOutcome<()>) -> Result<
    (),
    AgentErrorView,
> {
    if !registered {
        Err(AgentErrorView::NotFound)
    } else {
        match outcome {
            TransportOutcome::TimedOut => Err(AgentErrorView::Timeout),
            TransportOutcome::Completed(Err(reason)) => Err(
                AgentErrorView::Communication(reason@),
            ),
            TransportOutcome::Completed(Ok(_)) => Ok(()),
        }
    }
}

/// What receiving comes to, before the message is handled: as for sending,
/// and bytes that spell no message are a serialization failure.
pub open spec fn receive_result(registered: bool, outcome: TransportOutcome<Vec<u8>>) -> Result<
    MessageView,
    AgentErrorView,
> {
    if !registered {
        Err(AgentErrorView::NotFound)
    } else {
        match outcome {
            TransportOutcome::TimedOut => Err(AgentErrorView::Timeout),
            TransportOutcome::Completed(Err(reason)) => Err(
                AgentErrorView::Communication(reason@),
            ),
            TransportOutcome::Completed(Ok(bytes)) => match message_of_bytes(bytes@) {
                Ok(m) => Ok(m),
                Err(text) => Err(AgentErrorView::Serialization(text)),
            },
        }
    }
}

/// The counter of successful sends after one more: it never goes back, and
/// stays where it is once it has reached the largest number it can hold.
pub open spec fn counted(count: usize) -> usize {
    if count < usize::MAX {
        (count + 1) as usize
    } else {
        count
    }
}

/// The registry of agents with their transports, the timeout of every
/// transport operation, and the count of the messages sent.
pub struct AgentCommunicator<T, H: Handler> {
    handler: H,
    agents: DashMap<String, usize>,
    transports: Vec<T>,
    timeout: u64,
    message_count: usize,
}

impl<T, H: Handler> AgentCommunicator<T, H> {
    /// The registry: for each registered identity, its transport.
    pub closed spec fn agents(&self) -> Map<Seq<char>, T> {
        Map::new(
            |id: Seq<char>| registry_entries(self.agents).contains_key(id),
            |id: Seq<char>| self.transports@[registry_entries(self.agents)[id] as int],
        )
    }

    /// The count of the messages sent.
    pub closed spec fn message_count(&self) -> usize {
        self.message_count
    }

    /// The timeout of a transport operation, in milliseconds.
    pub closed spec fn timeout(&self) -> u64 {
        self.timeout
    }

    /// The handler that messages are passed to.
    pub closed spec fn handler(&self) -> H {
        self.handler
    }

    /// Every identity has a slot of its own among the transports.
    pub closed spec fn wf(&self) -> bool {
        let slots = registry_entries(self.agents);
        &&& forall|id: Seq<char>| slots.contains_key(id) ==> (#[trigger] slots[id]) < self.transports@.len()
        &&& forall|a: Seq<char>, b: Seq<char>|
            slots.contains_key(a) && slots.contains_key(b) && a != b ==> (#[trigger] slots[a])
                != (#[trigger] slots[b])
    }

    /// A communicator without agents that has sent nothing. `timeout` is in
    /// milliseconds.
    pub fn new(handler: H, timeout: u64) -> (c: Self)
        ensures
            c.wf(),
            c.agents() == Map::<Seq<char>, T>::empty(),
            c.message_count() == 0,
            c.timeout() == timeout,
            c.handler() == handler,
    {
        let c = AgentCommunicator {
            handler,
            agents: registry_new(),
            transports: Vec::new(),
            timeout,
            message_count: 0,
        };
        c
    }

    /// Registers an agent. An identity that is registered already is bound
    /// to the new transport; no identity stands twice.
    pub fn add_agent(&mut self, agent_id: AgentID, ipc: T)
        requires
            old(self).wf(),
        ensures
            final(self).wf(),
            final(self).agents() == old(self).agents().insert(agent_id@, ipc),
            final(self).message_count() == old(self).message_count(),
            final(self).timeout() == old(self).timeout(),
            final(self).handler() == old(self).handler(),
    {
        match registry_get(&self.agents, agent_id.0.as_str()) {
            Some(slot) => {
                self.transports.set(slot, ipc);
            },
            None => {
                let slot = self.transports.len();
                self.transports.push(ipc);
                let _ = registry_insert(&mut self.agents, agent_id.0, slot);
            },
        }
    }

    /// The timeout of a transport operation, in milliseconds.
    pub fn get_timeout(&self) -> (timeout: u64)
        ensures
            timeout == self.timeout(),
    {
        self.timeout
    }

    /// The count of the messages sent: it goes up by one with every send that
    /// went through, and with nothing else.
    pub fn get_message_count(&self) -> (count: usize)
        ensures
            count == self.message_count(),
    {
        self.message_count
    }

    /// The handler that messages are passed to.
    pub fn get_handler(&self) -> (handler: &H)
        ensures
            *handler == self.handler(),
    {
        &self.handler
    }

    /// The transport of an agent.
    pub fn transport(&self, agent_id: &AgentID) -> (r: Result<&T, AgentError>)
        requires
            self.wf(),
        ensures
            match r {
                Ok(ipc) => self.agents().contains_key(agent_id@) && *ipc == self.agents()[agent_id@],
                Err(e) => !self.agents().contains_key(agent_id@) && e@ == AgentErrorView::NotFound,
            },
    {
        match registry_get(&self.agents, agent_id.0.as_str()) {
            Some(slot) => Ok(&self.transports[slot]),
            None => Err(AgentError::NotFound),
        }
    }

    /// The identities that are registered, each once, in no fixed order.
    pub fn agent_ids(&self) -> (ids: Vec<AgentID>)
        ensures
            forall|i: int, j: int| 0 <= i < j < ids@.len() ==> ids@[i]@ != ids@[j]@,
            forall|i: int| 0 <= i < ids@.len() ==> self.agents().contains_key(ids@[i]@),
            forall|id: Seq<char>|
                self.agents().contains_key(id) ==> exists|i: int|
                    0 <= i < ids@.len() && ids@[i]@ == id,
    {
        let keys = registry_keys(&self.agents);
        let mut ids: Vec<AgentID> = Vec::new();
        let mut i: usize = 0;
        while i < keys.len()
            invariant
                i <= keys.len(),
                ids@.len() == i,
                forall|j: int| 0 <= j < i ==> (#[trigger] ids@[j])@ == keys@[j]@,
            decreases keys.len() - i,
        {
            ids.push(AgentID(keys[i].clone()));
            i += 1;
        }
        assert forall|id: Seq<char>| self.agents().contains_key(id) implies exists|i: int|
            0 <= i < ids@.len() && ids@[i]@ == id by {
            let k = choose|k: int| 0 <= k < keys@.len() && keys@[k]@ == id;
            assert(ids@[k]@ == id);
        }
        ids
    }

    /// Completes a send to an agent, given how the race between the send and
    /// the timeout ended. The count goes up where the send went through, and
    /// only there.
    pub fn send_message(&mut self, agent_id: &AgentID, outcome: TransportOutcome<()>) -> (r: Result<
        (),
        AgentError,
    >)
        requires
            old(self).wf(),
        ensures
            final(self).wf(),
            match send_result(old(self).agents().contains_key(agent_id@), outcome) {
                Ok(_) => r is Ok && final(self).message_count() == counted(
                    old(self).message_count(),
                ),
                Err(e) => r is Err && r->Err_0@ == e && final(self).message_count() == old(
                    self,
                ).message_count(),
            },
            final(self).agents() == old(self).agents(),
            final(self).timeout() == old(self).timeout(),
            final(self).handler() == old(self).handler(),
    {
        if registry_get(&self.agents, agent_id.0.as_str()).is_none() {
            return Err(AgentError::NotFound);
        }
        match outcome {
            TransportOutcome::TimedOut => Err(AgentError::Timeout),
            TransportOutcome::Completed(Err(reason)) => Err(AgentError::Communication(reason)),
            TransportOutcome::Completed(Ok(_)) => {
                if self.message_count < usize::MAX {
                    self.message_count = self.message_count + 1;
                }
                Ok(())
            },
        }
    }

    /// The message that was received from an agent, given how the race
    /// between the receive and the timeout ended.
    pub fn accept(&self, agent_id: &AgentID, outcome: TransportOutcome<Vec<u8>>) -> (r: Result<
        Message,
        AgentError,
    >)
        ensures
            match receive_result(self.agents().contains_key(agent_id@), outcome) {
                Ok(m) => r is Ok && r->Ok_0@ == m,
                Err(e) => r is Err && r->Err_0@ == e,
            },
    {
        if registry_get(&self.agents, agent_id.0.as_str()).is_none() {
            return Err(AgentError::NotFound);
        }
        match outcome {
            TransportOutcome::TimedOut => Err(AgentError::Timeout),
            TransportOutcome::Completed(Err(reason)) => Err(AgentError::Communication(reason)),
            TransportOutcome::Completed(Ok(bytes)) => match Message::try_from_bytes(
                bytes.as_slice(),
            ) {
                Ok(message) => Ok(message),
                Err(text) => Err(AgentError::Serialization(text)),
            },
        }
    }

    /// Completes a receive from an agent: the message that `accept` gives is
    /// passed to the handler, and the result is an answer of the handler to
    /// that message. Without a message the handler is not called, and the
    /// failure of `accept` is the result.
    pub fn receive_message(&self, agent_id: &AgentID, outcome: TransportOutcome<Vec<u8>>) -> (r:
        Result<(), AgentError>)
        ensures
            match receive_result(self.agents().contains_key(agent_id@), outcome) {
                Ok(message) => self.handler().may_handle(message, r),
                Err(e) => r is Err && r->Err_0@ == e,
            },
    {
        match self.accept(agent_id, outcome) {
            Ok(message) => self.handler.handle_msg(message),
            Err(e) => Err(e),
        }
    }

    /// Completes a fan-out, given how the receiving task of each agent
    /// ended, in the order in which the tasks are waited for. The policy is
    /// fail-fast: the first failure is the result of the whole call, whatever
    /// the tasks after it did.
    pub fn receive_all_messages(&self, results: Vec<TaskResult>) -> (r: Result<(), AgentError>)
        ensures
            match first_failure(results@, results@.len() as int) {
                Some(e) => r is Err && r->Err_0@ == e,
                None => r is Ok,
            },
    {
        let mut results = results;
        let ghost all = results@;
        let mut found: Option<AgentError> = None;
        // Taken from the end, so that an earlier failure replaces a later one.
        while results.len() > 0
            invariant
                results@.len() <= all.len(),
                results@ == all.take(results@.len() as int),
                match found {
                    Some(e) => first_failure(all, all.len() as int) == match first_failure(
                        all,
                        results@.len() as int,
                    ) {
                        Some(earlier) => Some(earlier),
                        None => Some(e@),
                    },
                    None => first_failure(all, all.len() as int) == first_failure(
                        all,
                        results@.len() as int,
                    ),
                },
            decreases results.len(),
        {
            let last = results.pop();
            match last {
                Some(TaskResult::Finished(Err(e))) => {
                    found = Some(e);
                },
                Some(TaskResult::Aborted(reason)) => {
                    found = Some(AgentError::Communication(reason));
                },
                _ => {},
            }
        }
        match found {
            Some(e) => Err(e),
            None => Ok(()),
        }
    }

    /// Ends the communicator's work. There is nothing to release.
    pub fn shutdown(&self) -> (r: Result<(), AgentError>)
        ensures
            r is Ok,
    {
        Ok(())
    }
}

} // verus!
