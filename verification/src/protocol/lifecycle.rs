//! The messages that open and close a session, as far as the session
//! depends on them.

use crate::protocol::capabilities::ClientCapabilities;
use vstd::prelude::*;

verus! {

/// The name and version of the editor.
#[derive(Debug, PartialEq, Eq, Clone)]
pub struct ClientInfo {
    pub name: String,
    pub version: Option<String>,
}

/// What the editor sends to open a session.
#[derive(Debug, PartialEq, Eq, Clone)]
pub struct InitializeParams {
    pub capabilities: ClientCapabilities,
    pub client_info: Option<ClientInfo>,
}

/// The capabilities that the server announces. It announces none beyond
/// the requests that every session answers.
#[derive(Debug, PartialEq, Eq, Clone, Copy)]
pub struct ServerCapabilities {}

/// The name and version of the server.
#[derive(Debug, PartialEq, Eq, Clone)]
pub struct ServerInfo {
    pub name: String,
    pub version: Option<String>,
}

/// What the server answers when a session is opened.
#[derive(Debug, PartialEq, Eq, Clone)]
pub struct InitializeResult {
    pub capabilities: ServerCapabilities,
    pub server_info: Option<ServerInfo>,
}

impl InitializeResult {
    /// The answer introduces the server under this name and this version.
    pub open spec fn introduces(self, name: Seq<char>, version: Seq<char>) -> bool {
        &&& self.server_info matches Some(info)
        &&& info.name@ == name
        &&& info.version matches Some(v)
        &&& v@ == version
    }
}

/// What the editor sends once it has taken the server's answer.
#[derive(Debug, PartialEq, Eq, Clone, Copy)]
pub struct InitializedParams {}

/// The identifier of a request.
#[derive(Debug, PartialEq, Eq, Clone)]
pub enum NumberOrString {
    Number(i32),
    String(String),
}

/// What the editor sends to cancel a request.
#[derive(Debug, PartialEq, Eq, Clone)]
pub struct CancelParams {
    pub id: NumberOrString,
}

} // verus!
