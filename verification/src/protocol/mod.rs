//! The values that cross the library's boundary: options, capabilities and
//! the catalog records with their response envelopes.

pub mod capabilities;
pub mod lifecycle;
pub mod method;
pub mod options;

pub use self::capabilities::ClientCapabilities;
pub use self::capabilities::ClientCapabilitiesExt;
pub use self::capabilities::DidChangeConfigurationClientCapabilities;
pub use self::capabilities::WorkspaceClientCapabilities;
pub use self::lifecycle::CancelParams;
pub use self::lifecycle::ClientInfo;
pub use self::lifecycle::InitializeParams;
pub use self::lifecycle::InitializeResult;
pub use self::lifecycle::InitializedParams;
pub use self::lifecycle::NumberOrString;
pub use self::lifecycle::ServerCapabilities;
pub use self::lifecycle::ServerInfo;
pub use self::method::MessageKind;
pub use self::method::Method;
pub use self::options::Conn;
pub use self::options::ConnView;
pub use self::options::Objectscript;
pub use self::options::Options;

use vstd::prelude::*;

verus! {

/// A production of the engine with its reported status.
#[derive(Debug, PartialEq, Eq, Clone)]
pub struct Production {
    pub id: String,
    pub status: String,
}

/// A production as plain values.
pub struct ProductionView {
    pub id: Seq<char>,
    pub status: Seq<char>,
}

impl View for Production {
    type V = ProductionView;

    open spec fn view(&self) -> ProductionView {
        ProductionView { id: self.id@, status: self.status@ }
    }
}

impl DeepView for Production {
    type V = ProductionView;

    open spec fn deep_view(&self) -> ProductionView {
        self@
    }
}

/// A business service of a production.
#[derive(Debug, PartialEq, Eq, Clone)]
pub struct ProductionService {
    pub id: String,
}

impl View for ProductionService {
    type V = Seq<char>;

    open spec fn view(&self) -> Seq<char> {
        self.id@
    }
}

impl DeepView for ProductionService {
    type V = Seq<char>;

    open spec fn deep_view(&self) -> Seq<char> {
        self@
    }
}

/// A business operation of a production.
#[derive(Debug, PartialEq, Eq, Clone)]
pub struct ProductionOperation {
    pub id: String,
}

impl View for ProductionOperation {
    type V = Seq<char>;

    open spec fn view(&self) -> Seq<char> {
        self.id@
    }
}

impl DeepView for ProductionOperation {
    type V = Seq<char>;

    open spec fn deep_view(&self) -> Seq<char> {
        self@
    }
}

/// A business process of a production.
#[derive(Debug, PartialEq, Eq, Clone)]
pub struct ProductionProcess {
    pub id: String,
}

impl View for ProductionProcess {
    type V = Seq<char>;

    open spec fn view(&self) -> Seq<char> {
        self.id@
    }
}

impl DeepView for ProductionProcess {
    type V = Seq<char>;

    open spec fn deep_view(&self) -> Seq<char> {
        self@
    }
}

#[derive(Debug, PartialEq, Eq, Clone)]
pub struct ProductionsResult {
    pub list: Vec<Production>,
}

#[derive(Debug, PartialEq, Eq, Clone)]
pub struct ProductionServicesResult {
    pub list: Vec<ProductionService>,
}

#[derive(Debug, PartialEq, Eq, Clone)]
pub struct ProductionProcessesResult {
    pub list: Vec<ProductionProcess>,
}

#[derive(Debug, PartialEq, Eq, Clone)]
pub struct ProductionOperationsResult {
    pub list: Vec<ProductionOperation>,
}

/// A global variable of the session's namespace.
#[derive(Debug, PartialEq, Eq, Clone)]
pub struct Global {
    pub name: String,
}

impl View for Global {
    type V = Seq<char>;

    open spec fn view(&self) -> Seq<char> {
        self.name@
    }
}

impl DeepView for Global {
    type V = Seq<char>;

    open spec fn deep_view(&self) -> Seq<char> {
        self@
    }
}

#[derive(Debug, PartialEq, Eq, Clone)]
pub struct GlobalsResult {
    pub list: Vec<Global>,
}

/// A job of the engine.
#[derive(Debug, PartialEq, Eq, Clone)]
pub struct Job {
    pub id: String,
}

#[derive(Debug, PartialEq, Eq, Clone)]
pub struct JobsResult {
    pub list: Vec<Job>,
}

/// What the editor is told once a session to the engine stands.
#[derive(Debug, PartialEq, Eq, Clone)]
pub struct InterSystemsConnectedParams {
    pub version: String,
}

} // verus!
