//! The messages that the session answers, by the names under which they
//! arrive.

use vstd::prelude::*;

verus! {

/// Whether a message expects an answer.
#[derive(Debug, PartialEq, Eq, Clone, Copy)]
pub enum MessageKind {
    /// The message is answered with a result.
    Request,
    /// The message is taken without an answer.
    Notification,
}

/// A message that the session answers.
#[derive(Debug, PartialEq, Eq, Clone, Copy)]
pub enum Method {
    Initialize,
    Initialized,
    Shutdown,
    Exit,
    CancelRequest,
    DidChangeConfiguration,
    Productions,
    ProductionServices,
    ProductionOperations,
    ProductionProcesses,
    Globals,
}

impl Method {
    /// The name under which the message arrives.
    pub open spec fn name(self) -> Seq<char> {
        match self {
            Method::Initialize => "initialize"@,
            Method::Initialized => "initialized"@,
            Method::Shutdown => "shutdown"@,
            Method::Exit => "exit"@,
            Method::CancelRequest => "$/cancelRequest"@,
            Method::DidChangeConfiguration => "workspace/didChangeConfiguration"@,
            Method::Productions => "intersystems/productions"@,
            Method::ProductionServices => "intersystems/productions/services"@,
            Method::ProductionOperations => "intersystems/productions/operations"@,
            Method::ProductionProcesses => "intersystems/productions/processes"@,
            Method::Globals => "intersystems/globals"@,
        }
    }

    /// Whether the message expects an answer: the opening of a session, its
    /// shutdown and the catalog requests do.
    pub open spec fn expects(self) -> MessageKind {
        match self {
            Method::Initialized
            | Method::Exit
            | Method::CancelRequest
            | Method::DidChangeConfiguration => MessageKind::Notification,
            _ => MessageKind::Request,
        }
    }

    /// The name under which the message arrives.
    pub fn as_str(&self) -> (name: &'static str)
        ensures
            name@ == self.name(),
    {
        match self {
            Method::Initialize => "initialize",
            Method::Initialized => "initialized",
            Method::Shutdown => "shutdown",
            Method::Exit => "exit",
            Method::CancelRequest => "$/cancelRequest",
            Method::DidChangeConfiguration => "workspace/didChangeConfiguration",
            Method::Productions => "intersystems/productions",
            Method::ProductionServices => "intersystems/productions/services",
            Method::ProductionOperations => "intersystems/productions/operations",
            Method::ProductionProcesses => "intersystems/productions/processes",
            Method::Globals => "intersystems/globals",
        }
    }

    /// Whether the message expects an answer.
    pub fn kind(&self) -> (kind: MessageKind)
        ensures
            kind == self.expects(),
    {
        match self {
            Method::Initialized
            | Method::Exit
            | Method::CancelRequest
            | Method::DidChangeConfiguration => MessageKind::Notification,
            _ => MessageKind::Request,
        }
    }

    /// The message that arrives under `name`, if the session answers any
    /// under that name.
    pub fn from_name(name: &str) -> (method: Option<Method>)
        ensures
            match method {
                Some(m) => m.name() == name@,
                None => forall|m: Method| #[trigger] m.name() != name@,
            },
    {
        let name = name.to_owned();
        if is_named(&name, Method::Initialize) {
            Some(Method::Initialize)
        } else if is_named(&name, Method::Initialized) {
            Some(Method::Initialized)
        } else if is_named(&name, Method::Shutdown) {
            Some(Method::Shutdown)
        } else if is_named(&name, Method::Exit) {
            Some(Method::Exit)
        } else if is_named(&name, Method::CancelRequest) {
            Some(Method::CancelRequest)
        } else if is_named(&name, Method::DidChangeConfiguration) {
            Some(Method::DidChangeConfiguration)
        } else if is_named(&name, Method::Productions) {
            Some(Method::Productions)
        } else if is_named(&name, Method::ProductionServices) {
            Some(Method::ProductionServices)
        } else if is_named(&name, Method::ProductionOperations) {
            Some(Method::ProductionOperations)
        } else if is_named(&name, Method::ProductionProcesses) {
            Some(Method::ProductionProcesses)
        } else if is_named(&name, Method::Globals) {
            Some(Method::Globals)
        } else {
            None
        }
    }
}

fn is_named(name: &String, method: Method) -> (named: bool)
    ensures
        named == (name@ == method.name()),
{
    let wanted = method.as_str().to_owned();
    *name == wanted
}

/// No two messages arrive under the same name, so a name stands for at most
/// one of them.
pub proof fn lemma_method_names_differ(a: Method, b: Method)
    requires
        a != b,
    ensures
        a.name() != b.name(),
{
    reveal_strlit("initialize");
    reveal_strlit("initialized");
    reveal_strlit("shutdown");
    reveal_strlit("exit");
    reveal_strlit("$/cancelRequest");
    reveal_strlit("workspace/didChangeConfiguration");
    reveal_strlit("intersystems/productions");
    reveal_strlit("intersystems/productions/services");
    reveal_strlit("intersystems/productions/operations");
    reveal_strlit("intersystems/productions/processes");
    reveal_strlit("intersystems/globals");
    assert(a.name().len() != b.name().len());
}

} // verus!
