//! The session lifecycle controller: the states a session passes through,
//! the slots that the opening of a session fills once, the queue of work
//! that a message leaves for after it, and the routing of catalog requests
//! to the gateway.

use crate::connection::catalog_of;
use crate::connection::text_or_empty;
use crate::connection::ConnectionManager;
use crate::connection::GatewayView;
use crate::connection::ProductionCatalog;
use crate::protocol::options::text_of;
use crate::protocol::CancelParams;
use crate::protocol::ClientCapabilities;
use crate::protocol::ClientInfo;
use crate::protocol::ConnView;
use crate::protocol::GlobalsResult;
use crate::protocol::InitializeParams;
use crate::protocol::InitializeResult;
use crate::protocol::InitializedParams;
use crate::protocol::Options;
use crate::protocol::ProductionOperationsResult;
use crate::protocol::ProductionProcessesResult;
use crate::protocol::ProductionServicesResult;
use crate::protocol::ProductionsResult;
use crate::protocol::ServerCapabilities;
use crate::protocol::ServerInfo;
use crate::slot::OnceSlot;
use crate::workspace::Workspace;
use std::path::PathBuf;
use std::sync::Arc;
use vstd::prelude::*;

verus! {

/// The name under which the server introduces itself.
pub const SERVER_NAME: &'static str = "InterSystems Language Server";

/// The version under which the server introduces itself.
pub const SERVER_VERSION: &'static str = "0.1.0";

/// Where a session stands.
#[derive(Debug, PartialEq, Eq, Clone, Copy)]
pub enum Lifecycle {
    Uninitialized,
    Initializing,
    Ready,
    ShuttingDown,
    Exited,
}

/// Work that a message leaves to be done once it has been handled.
#[derive(Debug, PartialEq, Eq, Clone, Copy)]
pub enum Action {
    /// Register with the editor for what the configuration store needs.
    RegisterCapabilities,
    /// Ask the configuration store to fetch the editor's configuration.
    PullConfiguration,
}

/// The parameters of a catalog request about productions.
#[derive(Debug, PartialEq, Eq, Clone)]
pub struct ProductionsRequestParams {
    pub id: Option<String>,
}

impl ProductionsRequestParams {
    /// The production that the request names, empty if it names none.
    pub fn production(&self) -> (name: String)
        ensures
            name@ == text_or_empty(text_of(self.id)),
    {
        match &self.id {
            Some(id) => id.clone(),
            None => String::new(),
        }
    }
}

/// The parameters of a catalog request about globals.
#[derive(Debug, PartialEq, Eq, Clone, Copy)]
pub struct GlobalsRequestParams {}

/// The queue of deferred actions, first in, first out.
///
/// A change of the queue takes exclusive access. A host that shares the
/// queue between tasks puts it behind a lock and holds the lock for one call
/// at a time: for the append, or for the drain, which hands out everything
/// at once so that the actions are carried out with the queue released.
pub struct ActionManager {
    actions: Vec<Action>,
}

impl View for ActionManager {
    type V = Seq<Action>;

    closed spec fn view(&self) -> Seq<Action> {
        self.actions@
    }
}

impl ActionManager {
    /// An empty queue.
    pub fn new() -> (queue: Self)
        ensures
            queue@ == Seq::<Action>::empty(),
    {
        ActionManager { actions: Vec::new() }
    }

    /// Appends `action` behind everything that is waiting.
    pub fn push(&mut self, action: Action)
        ensures
            final(self)@ == old(self)@.push(action),
    {
        self.actions.push(action);
    }

    /// Empties the queue and returns what was waiting, oldest first.
    pub fn take(&mut self) -> (drained: Vec<Action>)
        ensures
            drained@ == old(self)@,
            final(self)@ == Seq::<Action>::empty(),
    {
        let mut drained: Vec<Action> = Vec::new();
        core::mem::swap(&mut self.actions, &mut drained);
        drained
    }
}

impl Default for ActionManager {
    fn default() -> (queue: Self)
        ensures
            queue@ == Seq::<Action>::empty(),
    {
        ActionManager::new()
    }
}

/// The two actions that a completed handshake leaves, in their order.
pub open spec fn handshake_actions() -> Seq<Action> {
    seq![Action::RegisterCapabilities, Action::PullConfiguration]
}

/// The controller as plain values.
pub struct ServerView {
    pub state: Lifecycle,
    pub capabilities: Option<ClientCapabilities>,
    pub client_info: Option<Option<ClientInfo>>,
    pub actions: Seq<Action>,
    pub gateway: Option<GatewayView>,
}

impl ServerView {
    /// A controller that no message has reached.
    pub open spec fn fresh() -> ServerView {
        ServerView {
            state: Lifecycle::Uninitialized,
            capabilities: None,
            client_info: None,
            actions: Seq::empty(),
            gateway: None,
        }
    }

    /// `initialize` has been handled.
    pub open spec fn initialized_once(self) -> bool {
        self.state != Lifecycle::Uninitialized
    }

    /// The slots are filled exactly when `initialize` has been handled, and
    /// the gateway holds only complete settings.
    pub open spec fn wf(self) -> bool {
        &&& self.capabilities is Some <==> self.initialized_once()
        &&& self.client_info is Some <==> self.initialized_once()
        &&& self.gateway is Some <==> self.initialized_once()
        &&& self.gateway matches Some(gateway) ==> gateway.wf()
    }

    /// After `initialize`: the slots hold what the editor sent and a fresh
    /// gateway.
    pub open spec fn initialize(self, params: InitializeParams) -> ServerView {
        ServerView {
            state: Lifecycle::Initializing,
            capabilities: Some(params.capabilities),
            client_info: Some(params.client_info),
            actions: self.actions,
            gateway: Some(GatewayView::fresh()),
        }
    }

    /// After `initialized`: the handshake's two actions wait at the end of
    /// the queue, and a session that was being opened is ready.
    pub open spec fn initialized(self) -> ServerView {
        ServerView {
            state: match self.state {
                Lifecycle::Initializing => Lifecycle::Ready,
                state => state,
            },
            actions: self.actions + handshake_actions(),
            ..self
        }
    }

    /// After `shutdown`: a ready session is shutting down.
    pub open spec fn shutdown(self) -> ServerView {
        ServerView {
            state: match self.state {
                Lifecycle::Ready => Lifecycle::ShuttingDown,
                state => state,
            },
            ..self
        }
    }

    /// After `exit`: a session that was shutting down has ended.
    pub open spec fn exit(self) -> ServerView {
        ServerView {
            state: match self.state {
                Lifecycle::ShuttingDown => Lifecycle::Exited,
                state => state,
            },
            ..self
        }
    }

    /// After the gateway has taken a reconfiguration.
    pub open spec fn reconfigure(self, options: Option<ConnView>) -> ServerView {
        ServerView {
            gateway: match self.gateway {
                Some(gateway) => Some(gateway.reparse(options)),
                None => None,
            },
            ..self
        }
    }

    /// After the queue has been drained.
    pub open spec fn drained(self) -> ServerView {
        ServerView { actions: Seq::empty(), ..self }
    }
}

/// Actions leave the queue in the order in which they entered it: after
/// `first` and then `second` were pushed, the queue holds what waited
/// before, then `first`, then `second`, and a drain hands them out so.
pub proof fn lemma_queue_is_first_in_first_out(waiting: Seq<Action>, first: Action, second: Action)
    ensures
        waiting.push(first).push(second) == waiting + seq![first, second],
        waiting.push(first).push(second).len() == waiting.len() + 2,
        waiting.push(first).push(second)[waiting.len() as int] == first,
        waiting.push(first).push(second)[waiting.len() as int + 1] == second,
        forall|i: int|
            0 <= i < waiting.len() ==> #[trigger] waiting.push(first).push(second)[i] == waiting[i],
{
    assert(waiting.push(first).push(second) =~= waiting + seq![first, second]);
}

/// How often `action` stands in `actions`.
pub open spec fn occurrences(actions: Seq<Action>, action: Action) -> nat
    decreases actions.len(),
{
    if actions.len() == 0 {
        0
    } else {
        occurrences(actions.drop_last(), action) + if actions.last() == action {
            1nat
        } else {
            0nat
        }
    }
}

/// An action that enters the queue is counted once more, and no other is.
pub proof fn lemma_occurrences_after_push(actions: Seq<Action>, pushed: Action, action: Action)
    ensures
        occurrences(actions.push(pushed), action) == occurrences(actions, action) + if pushed
            == action {
            1nat
        } else {
            0nat
        },
{
    assert(actions.push(pushed).drop_last() =~= actions);
}

/// Each `initialized` queues the registration of capabilities and then the
/// pull of the configuration, and the registration leaves the queue first.
pub proof fn lemma_handshake_registers_before_it_pulls(session: ServerView)
    ensures
        session.initialized().actions == session.actions + seq![
            Action::RegisterCapabilities,
            Action::PullConfiguration,
        ],
        session.initialized().actions[session.actions.len() as int]
            == Action::RegisterCapabilities,
        session.initialized().actions[session.actions.len() as int + 1]
            == Action::PullConfiguration,
        ServerView::fresh().initialized().actions == seq![
            Action::RegisterCapabilities,
            Action::PullConfiguration,
        ],
{
    assert(ServerView::fresh().initialized().actions =~= seq![
        Action::RegisterCapabilities,
        Action::PullConfiguration,
    ]);
}

/// Nothing is deduplicated: two `initialized` in a row queue the two
/// actions twice, so that the next drain hands out each of them two times
/// more than it would have before.
pub proof fn lemma_each_handshake_is_queued(session: ServerView)
    ensures
        session.initialized().initialized().actions == session.actions + seq![
            Action::RegisterCapabilities,
            Action::PullConfiguration,
            Action::RegisterCapabilities,
            Action::PullConfiguration,
        ],
        occurrences(session.initialized().initialized().actions, Action::RegisterCapabilities)
            == occurrences(session.actions, Action::RegisterCapabilities) + 2,
        occurrences(session.initialized().initialized().actions, Action::PullConfiguration)
            == occurrences(session.actions, Action::PullConfiguration) + 2,
{
    let once = session.actions.push(Action::RegisterCapabilities);
    let twice = once.push(Action::PullConfiguration);
    let thrice = twice.push(Action::RegisterCapabilities);
    let all = thrice.push(Action::PullConfiguration);
    assert(session.initialized().actions =~= twice);
    assert(session.initialized().initialized().actions =~= all);
    assert(all =~= session.actions + seq![
        Action::RegisterCapabilities,
        Action::PullConfiguration,
        Action::RegisterCapabilities,
        Action::PullConfiguration,
    ]);
    lemma_occurrences_after_push(
        session.actions,
        Action::RegisterCapabilities,
        Action::RegisterCapabilities,
    );
    lemma_occurrences_after_push(once, Action::PullConfiguration, Action::RegisterCapabilities);
    lemma_occurrences_after_push(twice, Action::RegisterCapabilities, Action::RegisterCapabilities);
    lemma_occurrences_after_push(thrice, Action::PullConfiguration, Action::RegisterCapabilities);
    lemma_occurrences_after_push(
        session.actions,
        Action::RegisterCapabilities,
        Action::PullConfiguration,
    );
    lemma_occurrences_after_push(once, Action::PullConfiguration, Action::PullConfiguration);
    lemma_occurrences_after_push(twice, Action::RegisterCapabilities, Action::PullConfiguration);
    lemma_occurrences_after_push(thrice, Action::PullConfiguration, Action::PullConfiguration);
}

/// Every step keeps a session well formed.
pub proof fn lemma_session_stays_well_formed(
    session: ServerView,
    params: InitializeParams,
    options: Option<ConnView>,
)
    requires
        session.wf(),
    ensures
        ServerView::fresh().wf(),
        session.state == Lifecycle::Uninitialized ==> session.initialize(params).wf(),
        session.initialized_once() ==> session.initialized().wf(),
        session.shutdown().wf(),
        session.exit().wf(),
        session.reconfigure(options).wf(),
        session.drained().wf(),
{
}

/// The slots are written once: after `initialize`, no later step changes
/// what the editor announced or said about itself, and none takes the
/// session back to `Uninitialized`, from where alone `initialize` is valid.
pub proof fn lemma_slots_are_written_once(session: ServerView, options: Option<ConnView>)
    requires
        session.wf(),
        session.initialized_once(),
    ensures
        session.initialized().capabilities == session.capabilities,
        session.initialized().client_info == session.client_info,
        session.shutdown().capabilities == session.capabilities,
        session.shutdown().client_info == session.client_info,
        session.exit().capabilities == session.capabilities,
        session.exit().client_info == session.client_info,
        session.reconfigure(options).capabilities == session.capabilities,
        session.reconfigure(options).client_info == session.client_info,
        session.drained().capabilities == session.capabilities,
        session.drained().client_info == session.client_info,
        session.initialized().initialized_once(),
        session.shutdown().initialized_once(),
        session.exit().initialized_once(),
        session.reconfigure(options).initialized_once(),
        session.drained().initialized_once(),
{
}

/// Connection settings, once stored, outlive every later step of the
/// session: no reconfiguration and no other message replaces them.
pub proof fn lemma_session_keeps_stored_settings(session: ServerView, options: Option<ConnView>)
    requires
        session.gateway is Some,
        session.gateway->0.settings is Some,
    ensures
        session.reconfigure(options).gateway == session.gateway,
        session.initialized().gateway == session.gateway,
        session.shutdown().gateway == session.gateway,
        session.exit().gateway == session.gateway,
        session.drained().gateway == session.gateway,
{
}

/// A session moves forward only: `initialize`, `initialized`, `shutdown`
/// and `exit` in this order take it from `Uninitialized` through
/// `Initializing`, `Ready` and `ShuttingDown` to `Exited`, and no step
/// leaves `Exited`.
pub proof fn lemma_lifecycle_moves_forward(
    session: ServerView,
    params: InitializeParams,
    options: Option<ConnView>,
)
    ensures
        ServerView::fresh().state == Lifecycle::Uninitialized,
        ServerView::fresh().initialize(params).state == Lifecycle::Initializing,
        ServerView::fresh().initialize(params).initialized().state == Lifecycle::Ready,
        ServerView::fresh().initialize(params).initialized().shutdown().state
            == Lifecycle::ShuttingDown,
        ServerView::fresh().initialize(params).initialized().shutdown().exit().state
            == Lifecycle::Exited,
        session.state == Lifecycle::Exited ==> {
            &&& session.initialized().state == Lifecycle::Exited
            &&& session.shutdown().state == Lifecycle::Exited
            &&& session.exit().state == Lifecycle::Exited
            &&& session.reconfigure(options).state == Lifecycle::Exited
            &&& session.drained().state == Lifecycle::Exited
        },
{
}

/// A session in which no reconfiguration has activated a connection
/// answers every catalog request with the empty list.
pub proof fn lemma_fresh_session_reports_nothing(
    params: InitializeParams,
    catalog: Option<crate::connection::ProductionCatalogView>,
    rows: Option<Seq<Seq<char>>>,
)
    ensures
        ServerView::fresh().initialize(params).initialized().state == Lifecycle::Ready,
        ServerView::fresh().initialize(params).initialized().gateway->0.productions(catalog).len()
            == 0,
        ServerView::fresh().initialize(params).initialized().gateway->0.rows(rows).len() == 0,
{
}

/// `Arc::clone`: a second handle to the value that `handle` points to.
/// Handles are equal when they point to equal values.
#[verifier::external_body]
fn share<C>(handle: &Arc<C>) -> (copy: Arc<C>)
    ensures
        copy == *handle,
{
    Arc::clone(handle)
}

/// The session lifecycle controller.
pub struct InterSystemsLspServer<C> {
    client: Arc<C>,
    state: Lifecycle,
    client_capabilities: OnceSlot<ClientCapabilities>,
    client_info: OnceSlot<Option<ClientInfo>>,
    action_manager: ActionManager,
    connection_manager: Option<ConnectionManager<C>>,
    workspace: Workspace,
}

impl<C> View for InterSystemsLspServer<C> {
    type V = ServerView;

    closed spec fn view(&self) -> ServerView {
        ServerView {
            state: self.state,
            capabilities: self.client_capabilities@,
            client_info: self.client_info@,
            actions: self.action_manager@,
            gateway: match self.connection_manager {
                Some(gateway) => Some(gateway@),
                None => None,
            },
        }
    }
}

impl<C> InterSystemsLspServer<C> {
    /// The handle to the editor that the controller was made with.
    pub closed spec fn client_handle(&self) -> Arc<C> {
        self.client
    }

    /// The directory that the controller was made with.
    pub closed spec fn root(&self) -> Arc<PathBuf> {
        self.workspace.root()
    }

    /// The gateway, once made, holds the controller's handle to the editor.
    pub closed spec fn wired(&self) -> bool {
        self.connection_manager matches Some(gateway) ==> gateway.client_handle() == self.client
    }

    /// What holds of a controller between any two calls: its slots are
    /// filled exactly when `initialize` has been handled, and its gateway
    /// holds only complete settings and the controller's own handle to the
    /// editor.
    pub open spec fn inv(&self) -> bool {
        self@.wf() && self.wired()
    }

    /// A controller in state `Uninitialized`: no slot is filled and no
    /// action waits.
    pub fn new(client: Arc<C>, current_dir: Arc<PathBuf>) -> (server: Self)
        ensures
            server@ == ServerView::fresh(),
            server.inv(),
            server.client_handle() == client,
            server.root() == current_dir,
    {
        let workspace = Workspace::new(current_dir);
        InterSystemsLspServer {
            client,
            state: Lifecycle::Uninitialized,
            client_capabilities: OnceSlot::new(),
            client_info: OnceSlot::new(),
            action_manager: ActionManager::new(),
            connection_manager: None,
            workspace,
        }
    }

    /// Where the session stands.
    pub fn state(&self) -> (state: Lifecycle)
        ensures
            state == self@.state,
    {
        self.state
    }

    /// The handle to the editor.
    pub fn client(&self) -> (client: &Arc<C>)
        ensures
            *client == self.client_handle(),
    {
        &self.client
    }

    /// The workspace of the session.
    pub fn workspace(&self) -> (workspace: &Workspace)
        ensures
            workspace.root() == self.root(),
    {
        &self.workspace
    }

    /// The capabilities that the editor announced.
    pub fn client_capabilities(&self) -> (capabilities: &ClientCapabilities)
        requires
            self.inv(),
            self@.initialized_once(),
        ensures
            Some(*capabilities) == self@.capabilities,
    {
        self.client_capabilities.value()
    }

    /// What the editor said about itself, if it said anything.
    pub fn client_info(&self) -> (info: &Option<ClientInfo>)
        requires
            self.inv(),
            self@.initialized_once(),
        ensures
            Some(*info) == self@.client_info,
    {
        self.client_info.value()
    }

    /// The gateway to the engine.
    pub fn connection_manager(&self) -> (gateway: &ConnectionManager<C>)
        requires
            self.inv(),
            self@.initialized_once(),
        ensures
            Some(gateway@) == self@.gateway,
            gateway.client_handle() == self.client_handle(),
    {
        self.connection_manager.as_ref().unwrap()
    }

    /// Opens the session: fills the slots with what the editor sent, makes
    /// the gateway, and answers with the server's name and version.
    pub fn initialize(&mut self, params: InitializeParams) -> (answer: Result<
        InitializeResult,
        String,
    >)
        requires
            old(self).inv(),
            old(self)@.state == Lifecycle::Uninitialized,
        ensures
            final(self)@ == old(self)@.initialize(params),
            final(self).inv(),
            final(self).client_handle() == old(self).client_handle(),
            final(self).root() == old(self).root(),
            answer matches Ok(result) && result.introduces(SERVER_NAME@, SERVER_VERSION@),
    {
        let _ = self.client_capabilities.set(params.capabilities);
        let _ = self.client_info.set(params.client_info);
        self.connection_manager = Some(ConnectionManager::new(share(&self.client)));
        self.state = Lifecycle::Initializing;
        Ok(
            InitializeResult {
                capabilities: ServerCapabilities {  },
                server_info: Some(
                    ServerInfo {
                        name: SERVER_NAME.to_owned(),
                        version: Some(SERVER_VERSION.to_owned()),
                    },
                ),
            },
        )
    }

    /// Takes the editor's word that the handshake is complete: the
    /// registration of capabilities and the pull of the configuration are
    /// queued, in this order, behind what already waits. Nothing is done
    /// yet; a session that was being opened is ready.
    pub fn initialized(&mut self, _params: InitializedParams)
        requires
            old(self).inv(),
            old(self)@.initialized_once(),
        ensures
            final(self)@ == old(self)@.initialized(),
            final(self).inv(),
            final(self).client_handle() == old(self).client_handle(),
            final(self).root() == old(self).root(),
    {
        self.action_manager.push(Action::RegisterCapabilities);
        self.action_manager.push(Action::PullConfiguration);
        if let Lifecycle::Initializing = self.state {
            self.state = Lifecycle::Ready;
        }
        assert(self@.actions =~= old(self)@.actions + handshake_actions());
    }

    /// Begins the shutdown of a ready session. In every other state the
    /// request is answered and changes nothing.
    pub fn shutdown(&mut self, _params: ()) -> (answer: Result<(), String>)
        requires
            old(self).inv(),
        ensures
            answer is Ok,
            final(self)@ == old(self)@.shutdown(),
            final(self).inv(),
            final(self).client_handle() == old(self).client_handle(),
            final(self).root() == old(self).root(),
    {
        if let Lifecycle::Ready = self.state {
            self.state = Lifecycle::ShuttingDown;
        }
        Ok(())
    }

    /// Ends a session that is shutting down. In every other state the
    /// notification changes nothing.
    pub fn exit(&mut self, _params: ())
        requires
            old(self).inv(),
        ensures
            final(self)@ == old(self)@.exit(),
            final(self).inv(),
            final(self).client_handle() == old(self).client_handle(),
            final(self).root() == old(self).root(),
    {
        if let Lifecycle::ShuttingDown = self.state {
            self.state = Lifecycle::Exited;
        }
    }

    /// Takes a cancellation. No request is ever in flight beside the one
    /// that is being handled, so there is nothing to cancel.
    pub fn cancel_request(&self, _params: CancelParams) {
    }

    /// Takes the options that the configuration store holds after the
    /// editor pushed a change, and hands them to the gateway.
    pub fn did_change_configuration(&mut self, options: &Options)
        requires
            old(self).inv(),
            old(self)@.initialized_once(),
        ensures
            final(self)@ == old(self)@.reconfigure(options@),
            final(self).inv(),
            final(self).client_handle() == old(self).client_handle(),
            final(self).root() == old(self).root(),
    {
        match &mut self.connection_manager {
            Some(gateway) => {
                gateway.reparse(options);
            },
            None => {},
        }
    }

    /// Takes the outcome of a pull of the configuration: whether the
    /// options changed, and the options that the store holds now. Changed
    /// options are handed to the gateway. The options are returned.
    pub fn pull_configuration(&mut self, has_changed: bool, options: Options) -> (current: Options)
        requires
            old(self).inv(),
            old(self)@.initialized_once(),
        ensures
            current == options,
            final(self)@ == if has_changed {
                old(self)@.reconfigure(options@)
            } else {
                old(self)@
            },
            final(self).inv(),
            final(self).client_handle() == old(self).client_handle(),
            final(self).root() == old(self).root(),
    {
        if has_changed {
            self.did_change_configuration(&options);
        }
        options
    }

    /// Answers a request for the productions from what the engine reported;
    /// see [`ConnectionManager::productions`]. The request never fails.
    pub fn productions(
        &self,
        _params: ProductionsRequestParams,
        answer: Option<ProductionCatalog>,
    ) -> (response: Result<ProductionsResult, String>)
        requires
            self.inv(),
            self@.state == Lifecycle::Ready,
        ensures
            response matches Ok(result) && result.list.deep_view()
                == self@.gateway->0.productions(catalog_of(answer)),
            self@.gateway->0.settings is None || answer is None ==> response->Ok_0.list@.len()
                == 0,
    {
        let list = self.connection_manager().productions(answer);
        Ok(ProductionsResult { list })
    }

    /// Answers a request for the business services of a production from
    /// the rows that the engine gave for the production that the request
    /// names; see [`ConnectionManager::production_services`]. The request
    /// never fails.
    pub fn production_services(
        &self,
        _params: ProductionsRequestParams,
        rows: Option<Vec<String>>,
    ) -> (response: Result<ProductionServicesResult, String>)
        requires
            self.inv(),
            self@.state == Lifecycle::Ready,
        ensures
            response matches Ok(result) && result.list.deep_view() == self@.gateway->0.rows(
                rows.deep_view(),
            ),
            self@.gateway->0.settings is None || rows is None ==> response->Ok_0.list@.len() == 0,
    {
        let list = self.connection_manager().production_services(rows);
        Ok(ProductionServicesResult { list })
    }

    /// Answers a request for the business operations of a production from
    /// the rows that the engine gave for the production that the request
    /// names; see [`ConnectionManager::production_operations`]. The request
    /// never fails.
    pub fn production_operations(
        &self,
        _params: ProductionsRequestParams,
        rows: Option<Vec<String>>,
    ) -> (response: Result<ProductionOperationsResult, String>)
        requires
            self.inv(),
            self@.state == Lifecycle::Ready,
        ensures
            response matches Ok(result) && result.list.deep_view() == self@.gateway->0.rows(
                rows.deep_view(),
            ),
            self@.gateway->0.settings is None || rows is None ==> response->Ok_0.list@.len() == 0,
    {
        let list = self.connection_manager().production_operations(rows);
        Ok(ProductionOperationsResult { list })
    }

    /// Answers a request for the business processes of a production from
    /// the rows that the engine gave for the production that the request
    /// names; see [`ConnectionManager::production_processes`]. The request
    /// never fails.
    pub fn production_processes(
        &self,
        _params: ProductionsRequestParams,
        rows: Option<Vec<String>>,
    ) -> (response: Result<ProductionProcessesResult, String>)
        requires
            self.inv(),
            self@.state == Lifecycle::Ready,
        ensures
            response matches Ok(result) && result.list.deep_view() == self@.gateway->0.rows(
                rows.deep_view(),
            ),
            self@.gateway->0.settings is None || rows is None ==> response->Ok_0.list@.len() == 0,
    {
        let list = self.connection_manager().production_processes(rows);
        Ok(ProductionProcessesResult { list })
    }

    /// Answers a request for the globals from the rows that the engine
    /// gave; see [`ConnectionManager::globals`]. The request never fails.
    pub fn globals(&self, _params: GlobalsRequestParams, rows: Option<Vec<String>>) -> (response:
        Result<GlobalsResult, String>)
        requires
            self.inv(),
            self@.state == Lifecycle::Ready,
        ensures
            response matches Ok(result) && result.list.deep_view() == self@.gateway->0.rows(
                rows.deep_view(),
            ),
            self@.gateway->0.settings is None || rows is None ==> response->Ok_0.list@.len() == 0,
    {
        let list = self.connection_manager().globals(rows);
        Ok(GlobalsResult { list })
    }

    /// Runs before a message is handled. There is nothing to prepare.
    pub fn before_message(&self) {
    }

    /// Runs once a message has been handled: empties the queue and returns
    /// the actions that waited, oldest first, for the host to carry out in
    /// that order before it takes the next message.
    pub fn after_message(&mut self) -> (actions: Vec<Action>)
        requires
            old(self).inv(),
        ensures
            actions@ == old(self)@.actions,
            final(self)@ == old(self)@.drained(),
            final(self).inv(),
            final(self).client_handle() == old(self).client_handle(),
            final(self).root() == old(self).root(),
    {
        self.action_manager.take()
    }
}

} // verus!
