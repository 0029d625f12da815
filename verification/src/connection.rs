//! The gateway to the engine: the connection settings that the first
//! activating reconfiguration left, the reserved session token, and the
//! mapping from what the engine answered to catalog records.
//!
//! The gateway opens no session itself. Its host dials the engine with
//! [`ConnectionManager::settings`], runs the query that the gateway names and
//! hands the rows back; an absent answer stands for every failure on the way.

use crate::protocol::options::text_of;
use crate::protocol::ConnView;
use crate::protocol::Global;
use crate::protocol::Options;
use crate::protocol::Production;
use crate::protocol::ProductionOperation;
use crate::protocol::ProductionProcess;
use crate::protocol::ProductionService;
use crate::protocol::ProductionView;
use crate::slot::OnceSlot;
use std::sync::Arc;
use vstd::prelude::*;
use vstd::string::StringExecFns;

verus! {

/// Where and as whom to open a session to the engine.
#[derive(Debug, PartialEq, Eq, Clone)]
pub struct ConnectionSettings {
    pub host: String,
    pub port: u16,
    pub super_port: u16,
    pub ns: String,
    pub username: String,
    pub password: String,
}

/// Connection settings as plain values.
pub struct ConnectionSettingsView {
    pub host: Seq<char>,
    pub port: u16,
    pub super_port: u16,
    pub ns: Seq<char>,
    pub username: Seq<char>,
    pub password: Seq<char>,
}

impl View for ConnectionSettings {
    type V = ConnectionSettingsView;

    open spec fn view(&self) -> ConnectionSettingsView {
        ConnectionSettingsView {
            host: self.host@,
            port: self.port,
            super_port: self.super_port,
            ns: self.ns@,
            username: self.username@,
            password: self.password@,
        }
    }
}

impl ConnectionSettingsView {
    /// Nothing that a session needs is missing: host, user, password and
    /// namespace are given and the super port is positive.
    pub open spec fn complete(self) -> bool {
        &&& self.host.len() > 0
        &&& self.username.len() > 0
        &&& self.password.len() > 0
        &&& self.ns.len() > 0
        &&& self.super_port > 0
    }
}

/// The text of an optional field, empty where the field is absent.
pub open spec fn text_or_empty(text: Option<Seq<char>>) -> Seq<char> {
    match text {
        Some(t) => t,
        None => Seq::empty(),
    }
}

/// The number of an optional field, zero where the field is absent.
pub open spec fn port_or_zero(port: Option<u16>) -> u16 {
    match port {
        Some(p) => p,
        None => 0,
    }
}

/// The settings that a reconfiguration asks for, every absent field at its
/// default.
pub open spec fn requested(options: Option<ConnView>) -> ConnectionSettingsView {
    let conn = match options {
        Some(conn) => conn,
        None => ConnView::absent(),
    };
    ConnectionSettingsView {
        host: text_or_empty(conn.host),
        port: port_or_zero(conn.port),
        super_port: port_or_zero(conn.super_port),
        ns: text_or_empty(conn.ns),
        username: text_or_empty(conn.username),
        password: text_or_empty(conn.password),
    }
}

/// A reconfiguration activates a connection when it says so and leaves
/// nothing out.
pub open spec fn activates(options: Option<ConnView>) -> bool {
    &&& options matches Some(conn)
    &&& conn.active == Some(true)
    &&& requested(options).complete()
}

/// The state of a production as the engine names it.
#[derive(Debug, PartialEq, Eq, Clone, Copy)]
pub enum ProductionStatus {
    Running,
    Stopped,
    Suspended,
    Troubled,
    Unknown,
}

impl ProductionStatus {
    /// The status that a state code of the engine stands for.
    pub open spec fn of_code(code: int) -> ProductionStatus {
        if code == 1 {
            ProductionStatus::Running
        } else if code == 2 {
            ProductionStatus::Stopped
        } else if code == 3 {
            ProductionStatus::Suspended
        } else if code == 4 {
            ProductionStatus::Troubled
        } else {
            ProductionStatus::Unknown
        }
    }

    /// The name under which a status is reported.
    pub open spec fn name(self) -> Seq<char> {
        match self {
            ProductionStatus::Running => "Running"@,
            ProductionStatus::Stopped => "Stopped"@,
            ProductionStatus::Suspended => "Suspended"@,
            ProductionStatus::Troubled => "Troubled"@,
            ProductionStatus::Unknown => "Unknown"@,
        }
    }

    /// The status that a state code of the engine stands for.
    pub fn from_code(code: i64) -> (status: Self)
        ensures
            status == Self::of_code(code as int),
    {
        if code == 1 {
            ProductionStatus::Running
        } else if code == 2 {
            ProductionStatus::Stopped
        } else if code == 3 {
            ProductionStatus::Suspended
        } else if code == 4 {
            ProductionStatus::Troubled
        } else {
            ProductionStatus::Unknown
        }
    }

    /// The name under which a status is reported.
    pub fn as_str(&self) -> (name: &'static str)
        ensures
            name@ == self.name(),
    {
        match self {
            ProductionStatus::Running => "Running",
            ProductionStatus::Stopped => "Stopped",
            ProductionStatus::Suspended => "Suspended",
            ProductionStatus::Troubled => "Troubled",
            ProductionStatus::Unknown => "Unknown",
        }
    }
}

/// What the engine answered about its productions: the production that is
/// active now, its state code, and the names of all production classes.
#[derive(Debug, PartialEq, Eq, Clone)]
pub struct ProductionCatalog {
    pub current: String,
    pub state: i64,
    pub names: Vec<String>,
}

/// The engine's answer about its productions as plain values.
pub struct ProductionCatalogView {
    pub current: Seq<char>,
    pub state: int,
    pub names: Seq<Seq<char>>,
}

impl View for ProductionCatalog {
    type V = ProductionCatalogView;

    open spec fn view(&self) -> ProductionCatalogView {
        ProductionCatalogView {
            current: self.current@,
            state: self.state as int,
            names: self.names.deep_view(),
        }
    }
}

/// The engine's answer about its productions, if there is one.
pub open spec fn catalog_of(answer: Option<ProductionCatalog>) -> Option<ProductionCatalogView> {
    match answer {
        Some(catalog) => Some(catalog@),
        None => None,
    }
}

impl ProductionCatalogView {
    /// The status reported for the production `name`: the live status for
    /// the active production, `Stopped` for every other.
    pub open spec fn status_of(self, name: Seq<char>) -> ProductionStatus {
        if name == self.current {
            ProductionStatus::of_code(self.state)
        } else {
            ProductionStatus::Stopped
        }
    }

    /// The record of the production `name`.
    pub open spec fn record(self, name: Seq<char>) -> ProductionView {
        ProductionView { id: name, status: self.status_of(name).name() }
    }

    /// One record for each production class, in the order of the catalog.
    pub open spec fn records(self) -> Seq<ProductionView> {
        Seq::new(self.names.len(), |i: int| self.record(self.names[i]))
    }
}

/// The gateway as plain values.
pub struct GatewayView {
    pub settings: Option<ConnectionSettingsView>,
    pub token: Option<Seq<char>>,
}

impl GatewayView {
    /// A gateway that no reconfiguration has reached.
    pub open spec fn fresh() -> GatewayView {
        GatewayView { settings: None, token: None }
    }

    /// Stored settings are always complete.
    pub open spec fn wf(self) -> bool {
        self.settings matches Some(settings) ==> settings.complete()
    }

    /// The gateway after a reconfiguration: only the first activating one
    /// is kept.
    pub open spec fn reparse(self, options: Option<ConnView>) -> GatewayView {
        if self.settings is None && activates(options) {
            GatewayView { settings: Some(requested(options)), ..self }
        } else {
            self
        }
    }

    /// A minted token is taken when none is cached, settings stand and the
    /// engine handed out a token that is not empty.
    pub open spec fn takes_token(self, minted: Option<Seq<char>>) -> bool {
        &&& self.token is None
        &&& self.settings is Some
        &&& minted matches Some(token)
        &&& token.len() > 0
    }

    /// The gateway after it was offered a minted token.
    pub open spec fn offer_token(self, minted: Option<Seq<char>>) -> GatewayView {
        if self.takes_token(minted) {
            GatewayView { token: minted, ..self }
        } else {
            self
        }
    }

    /// The productions to report for what the engine answered. Without
    /// settings no session can have stood, and without an answer the session
    /// or the query failed: both give the empty list.
    pub open spec fn productions(self, answer: Option<ProductionCatalogView>) -> Seq<
        ProductionView,
    > {
        match answer {
            Some(catalog) if self.settings is Some => catalog.records(),
            _ => Seq::empty(),
        }
    }

    /// The rows to report for what a query answered, under the same rule.
    pub open spec fn rows(self, answer: Option<Seq<Seq<char>>>) -> Seq<Seq<char>> {
        match answer {
            Some(rows) if self.settings is Some => rows,
            _ => Seq::empty(),
        }
    }
}

/// A reconfiguration that is not active, or that leaves out the host, the
/// user, the password or the namespace, or whose super port is not positive,
/// changes nothing: an empty store stays empty and a written store keeps
/// its settings.
pub proof fn lemma_incomplete_reconfiguration_changes_nothing(
    gateway: GatewayView,
    options: Option<ConnView>,
)
    requires
        ({
            let wanted = requested(options);
            ||| options is None
            ||| options->0.active != Some(true)
            ||| wanted.host.len() == 0
            ||| wanted.username.len() == 0
            ||| wanted.password.len() == 0
            ||| wanted.ns.len() == 0
            ||| wanted.super_port == 0
        }),
    ensures
        gateway.reparse(options) == gateway,
{
}

/// Once settings are stored, no reconfiguration changes them, whatever it
/// asks for.
pub proof fn lemma_stored_settings_stay(gateway: GatewayView, options: Option<ConnView>)
    requires
        gateway.settings is Some,
    ensures
        gateway.reparse(options) == gateway,
{
}

/// The first activating reconfiguration fills an empty store with what it
/// asked for, and the store still holds exactly that after any second
/// reconfiguration.
pub proof fn lemma_first_activation_sticks(
    gateway: GatewayView,
    first: Option<ConnView>,
    second: Option<ConnView>,
)
    requires
        gateway.settings is None,
        activates(first),
    ensures
        gateway.reparse(first).settings == Some(requested(first)),
        gateway.reparse(first).reparse(second).settings == Some(requested(first)),
{
}

/// Reconfigurations and offered tokens keep a gateway well formed: what is
/// stored is complete.
pub proof fn lemma_gateway_stays_well_formed(
    gateway: GatewayView,
    options: Option<ConnView>,
    minted: Option<Seq<char>>,
)
    requires
        gateway.wf(),
    ensures
        GatewayView::fresh().wf(),
        gateway.reparse(options).wf(),
        gateway.offer_token(minted).wf(),
{
}

/// A cached token is kept for good: no offer replaces it and no
/// reconfiguration touches it.
pub proof fn lemma_cached_token_stays(
    gateway: GatewayView,
    options: Option<ConnView>,
    minted: Option<Seq<char>>,
)
    ensures
        gateway.reparse(options).token == gateway.token,
        gateway.token is Some ==> gateway.offer_token(minted) == gateway,
        gateway.offer_token(minted).settings == gateway.settings,
{
}

/// The state codes 1, 2, 3 and 4 stand for `Running`, `Stopped`, `Suspended`
/// and `Troubled`; every other code stands for `Unknown`.
pub proof fn lemma_status_of_each_code(code: int)
    ensures
        code == 1 ==> ProductionStatus::of_code(code).name() == "Running"@,
        code == 2 ==> ProductionStatus::of_code(code).name() == "Stopped"@,
        code == 3 ==> ProductionStatus::of_code(code).name() == "Suspended"@,
        code == 4 ==> ProductionStatus::of_code(code).name() == "Troubled"@,
        !(1 <= code <= 4) ==> ProductionStatus::of_code(code).name() == "Unknown"@,
{
}

/// No two statuses are reported under the same name.
pub proof fn lemma_status_names_differ(a: ProductionStatus, b: ProductionStatus)
    requires
        a != b,
    ensures
        a.name() != b.name(),
{
    reveal_strlit("Running");
    reveal_strlit("Stopped");
    reveal_strlit("Suspended");
    reveal_strlit("Troubled");
    reveal_strlit("Unknown");
    assert(a.name().len() != b.name().len() || a.name()[0] != b.name()[0]);
}

/// With settings in place, a catalog of N production classes gives N
/// records, one for each class and in the catalog's order. The record of
/// the active production carries the status of the engine's state code;
/// every other record says `Stopped`. For state code 2 the two cannot be
/// told apart.
pub proof fn lemma_one_record_for_each_production(
    gateway: GatewayView,
    catalog: ProductionCatalogView,
)
    requires
        gateway.settings is Some,
    ensures
        gateway.productions(Some(catalog)).len() == catalog.names.len(),
        forall|i: int|
            0 <= i < catalog.names.len() ==> (#[trigger] gateway.productions(Some(catalog))[i]).id
                == catalog.names[i],
        forall|i: int|
            0 <= i < catalog.names.len() && catalog.names[i] == catalog.current ==> (
            #[trigger] gateway.productions(Some(catalog))[i]).status == ProductionStatus::of_code(
                catalog.state,
            ).name(),
        forall|i: int|
            0 <= i < catalog.names.len() && catalog.names[i] != catalog.current ==> (
            #[trigger] gateway.productions(Some(catalog))[i]).status == "Stopped"@,
        catalog.state == 2 ==> forall|i: int|
            0 <= i < catalog.names.len() ==> (#[trigger] gateway.productions(
                Some(catalog),
            )[i]).status == "Stopped"@,
{
}

/// Where no session can stand, because no settings are stored or because
/// the engine gave no answer, every catalog operation reports nothing.
pub proof fn lemma_no_session_reports_nothing(
    gateway: GatewayView,
    catalog: Option<ProductionCatalogView>,
    rows: Option<Seq<Seq<char>>>,
)
    ensures
        gateway.settings is None ==> gateway.productions(catalog).len() == 0,
        gateway.settings is None ==> gateway.rows(rows).len() == 0,
        gateway.productions(None).len() == 0,
        gateway.rows(None).len() == 0,
{
}

/// The gateway to the engine. It holds what a session is opened with, from
/// the first activating reconfiguration on, and decides what is reported
/// for what the engine answered.
pub struct ConnectionManager<C> {
    client: Arc<C>,
    connection_settings: OnceSlot<ConnectionSettings>,
    token: OnceSlot<String>,
}

impl<C> View for ConnectionManager<C> {
    type V = GatewayView;

    closed spec fn view(&self) -> GatewayView {
        GatewayView {
            settings: match self.connection_settings@ {
                Some(settings) => Some(settings@),
                None => None,
            },
            token: text_of(self.token@),
        }
    }
}

fn owned_or_empty(text: &Option<String>) -> (owned: String)
    ensures
        owned@ == text_or_empty(text_of(*text)),
{
    match text {
        Some(t) => t.clone(),
        None => String::new(),
    }
}

fn number_or_zero(port: &Option<u16>) -> (number: u16)
    ensures
        number == port_or_zero(*port),
{
    match port {
        Some(p) => *p,
        None => 0,
    }
}

impl<C> ConnectionManager<C> {
    #[verifier::type_invariant]
    spec fn settings_are_complete(self) -> bool {
        self@.wf()
    }

    /// A gateway without settings and without a token.
    pub fn new(client: Arc<C>) -> (gateway: Self)
        ensures
            gateway@ == GatewayView::fresh(),
            gateway.client_handle() == client,
    {
        ConnectionManager { client, connection_settings: OnceSlot::new(), token: OnceSlot::new() }
    }

    /// The handle to the editor that the gateway was made with.
    pub closed spec fn client_handle(&self) -> Arc<C> {
        self.client
    }

    /// The handle to the editor, kept for telling it that a session stands.
    pub fn client(&self) -> (client: &Arc<C>)
        ensures
            *client == self.client_handle(),
    {
        &self.client
    }

    /// Takes a reconfiguration. If it is active and complete and no settings
    /// are stored yet, its settings are stored; in every other case the
    /// gateway stays as it is. No session is opened.
    pub fn reparse(&mut self, options: &Options)
        ensures
            final(self)@ == old(self)@.reparse(options@),
            final(self).client_handle() == old(self).client_handle(),
    {
        proof {
            use_type_invariant(&*self);
        }
        match &options.objectscript {
            Some(objectscript) => match &objectscript.conn {
                Some(conn) => {
                    let host = owned_or_empty(&conn.host);
                    let port = number_or_zero(&conn.port);
                    let super_port = number_or_zero(&conn.super_port);
                    let username = owned_or_empty(&conn.username);
                    let password = owned_or_empty(&conn.password);
                    let ns = owned_or_empty(&conn.ns);
                    let wanted = match conn.active {
                        Some(flag) => flag,
                        None => false,
                    };
                    let active = wanted && !host.as_str().is_empty()
                        && !username.as_str().is_empty() && !password.as_str().is_empty()
                        && !ns.as_str().is_empty() && super_port > 0;
                    if active {
                        let _ = self.connection_settings.set(
                            ConnectionSettings { host, port, super_port, ns, username, password },
                        );
                    }
                },
                None => {},
            },
            None => {},
        }
    }

    /// The settings to open a session with, if a reconfiguration has
    /// activated any.
    pub fn settings(&self) -> (settings: Option<&ConnectionSettings>)
        ensures
            match settings {
                Some(s) => self@.settings == Some(s@) && s@.complete(),
                None => self@.settings is None,
            },
    {
        proof {
            use_type_invariant(self);
        }
        self.connection_settings.get()
    }

    /// The session token, minted once and cached for good.
    ///
    /// A cached token is returned whatever `minted` holds. Otherwise `minted`
    /// is what the engine handed out when it was asked for a token, absent
    /// if no session could be opened; it is cached and returned if settings
    /// stand and it is not empty.
    pub fn token(&mut self, minted: Option<String>) -> (token: Option<String>)
        ensures
            final(self)@ == old(self)@.offer_token(text_of(minted)),
            text_of(token) == final(self)@.token,
            final(self).client_handle() == old(self).client_handle(),
    {
        proof {
            use_type_invariant(&*self);
        }
        if let Some(cached) = self.token.get() {
            return Some(cached.clone());
        }
        match minted {
            Some(fresh) => {
                if self.connection_settings.is_set() && !fresh.as_str().is_empty() {
                    let token = fresh.clone();
                    let _ = self.token.set(fresh);
                    Some(token)
                } else {
                    None
                }
            },
            None => None,
        }
    }

    /// The productions of the engine, each with its status.
    ///
    /// `answer` is what the engine reported, absent if no session could be
    /// opened or the query failed. Every production class gives one record,
    /// in the order of the catalog; the active production carries its live
    /// status and every other one `Stopped`, whatever state the engine
    /// holds it in.
    pub fn productions(&self, answer: Option<ProductionCatalog>) -> (list: Vec<Production>)
        ensures
            list.deep_view() == self@.productions(catalog_of(answer)),
            self@.settings is None || answer is None ==> list@.len() == 0,
            self@.settings is Some && answer is Some ==> list@.len() == answer->0.names@.len(),
    {
        let mut list: Vec<Production> = Vec::new();
        if !self.connection_settings.is_set() {
            assert(list.deep_view() =~= Seq::<ProductionView>::empty());
            return list;
        }
        match answer {
            Some(catalog) => {
                let live = ProductionStatus::from_code(catalog.state);
                let mut i: usize = 0;
                while i < catalog.names.len()
                    invariant
                        i <= catalog.names.len(),
                        list.len() == i,
                        live == ProductionStatus::of_code(catalog.state as int),
                        forall|k: int| 0 <= k < i ==> list[k]@ == catalog@.record(catalog.names[k]@),
                    decreases catalog.names.len() - i,
                {
                    let id = catalog.names[i].clone();
                    let status = if id == catalog.current {
                        live
                    } else {
                        ProductionStatus::Stopped
                    };
                    list.push(Production { id, status: status.as_str().to_owned() });
                    i += 1;
                }
                assert(list.deep_view() =~= catalog@.records());
            },
            None => {
                assert(list.deep_view() =~= Seq::<ProductionView>::empty());
            },
        }
        list
    }

    /// The rows that count: those that the engine gave, or none where no
    /// session can have stood.
    fn answered(&self, rows: Option<Vec<String>>) -> (answered: Vec<String>)
        ensures
            answered.deep_view() == self@.rows(rows.deep_view()),
    {
        match rows {
            Some(rows) if self.connection_settings.is_set() => rows,
            _ => {
                let none: Vec<String> = Vec::new();
                assert(none.deep_view() =~= Seq::<Seq<char>>::empty());
                none
            },
        }
    }

    /// The business services of a production: one record for each row that
    /// the query of [`production_services_query`] gave, in their order.
    /// `rows` is absent if no session could be opened or the query failed.
    pub fn production_services(&self, rows: Option<Vec<String>>) -> (list: Vec<ProductionService>)
        ensures
            list.deep_view() == self@.rows(rows.deep_view()),
            self@.settings is None || rows is None ==> list@.len() == 0,
            self@.settings is Some && rows is Some ==> list@.len() == rows->0@.len(),
    {
        let answered = self.answered(rows);
        let mut list: Vec<ProductionService> = Vec::new();
        let mut i: usize = 0;
        while i < answered.len()
            invariant
                i <= answered.len(),
                list.len() == i,
                forall|k: int| 0 <= k < i ==> list[k]@ == answered[k]@,
            decreases answered.len() - i,
        {
            list.push(ProductionService { id: answered[i].clone() });
            i += 1;
        }
        assert(list.deep_view() =~= answered.deep_view());
        list
    }

    /// The business operations of a production: one record for each row
    /// that the query of [`production_operations_query`] gave, in their
    /// order. `rows` is absent if no session could be opened or the query
    /// failed.
    pub fn production_operations(&self, rows: Option<Vec<String>>) -> (list: Vec<
        ProductionOperation,
    >)
        ensures
            list.deep_view() == self@.rows(rows.deep_view()),
            self@.settings is None || rows is None ==> list@.len() == 0,
            self@.settings is Some && rows is Some ==> list@.len() == rows->0@.len(),
    {
        let answered = self.answered(rows);
        let mut list: Vec<ProductionOperation> = Vec::new();
        let mut i: usize = 0;
        while i < answered.len()
            invariant
                i <= answered.len(),
                list.len() == i,
                forall|k: int| 0 <= k < i ==> list[k]@ == answered[k]@,
            decreases answered.len() - i,
        {
            list.push(ProductionOperation { id: answered[i].clone() });
            i += 1;
        }
        assert(list.deep_view() =~= answered.deep_view());
        list
    }

    /// The business processes of a production: one record for each row that
    /// the query of [`production_processes_query`] gave, in their order.
    /// `rows` is absent if no session could be opened or the query failed.
    pub fn production_processes(&self, rows: Option<Vec<String>>) -> (list: Vec<ProductionProcess>)
        ensures
            list.deep_view() == self@.rows(rows.deep_view()),
            self@.settings is None || rows is None ==> list@.len() == 0,
            self@.settings is Some && rows is Some ==> list@.len() == rows->0@.len(),
    {
        let answered = self.answered(rows);
        let mut list: Vec<ProductionProcess> = Vec::new();
        let mut i: usize = 0;
        while i < answered.len()
            invariant
                i <= answered.len(),
                list.len() == i,
                forall|k: int| 0 <= k < i ==> list[k]@ == answered[k]@,
            decreases answered.len() - i,
        {
            list.push(ProductionProcess { id: answered[i].clone() });
            i += 1;
        }
        assert(list.deep_view() =~= answered.deep_view());
        list
    }

    /// The globals of the session's namespace: one record for each row that
    /// the query of [`globals_query`] gave, in their order. `rows` is absent
    /// if no session could be opened or the query failed.
    pub fn globals(&self, rows: Option<Vec<String>>) -> (list: Vec<Global>)
        ensures
            list.deep_view() == self@.rows(rows.deep_view()),
            self@.settings is None || rows is None ==> list@.len() == 0,
            self@.settings is Some && rows is Some ==> list@.len() == rows->0@.len(),
    {
        let answered = self.answered(rows);
        let mut list: Vec<Global> = Vec::new();
        let mut i: usize = 0;
        while i < answered.len()
            invariant
                i <= answered.len(),
                list.len() == i,
                forall|k: int| 0 <= k < i ==> list[k]@ == answered[k]@,
            decreases answered.len() - i,
        {
            list.push(Global { name: answered[i].clone() });
            i += 1;
        }
        assert(list.deep_view() =~= answered.deep_view());
        list
    }
}

/// The query for the names of all production classes: the classes that
/// extend the production base class and are not abstract.
pub const PRODUCTIONS_QUERY: &'static str =
    "select Name from %Dictionary.ClassDefinition where super = 'Ens.Production' and abstract<>1";

/// The query for the distinct names of the globals of the namespace.
pub const GLOBALS_QUERY: &'static str =
    "SELECT DISTINCT '^' || $piece(name,'(',1) Name from %SYS.GlobalQuery_NamespaceList()";

/// The query for the items of a production, up to the production's name.
pub const ITEMS_QUERY_HEAD: &'static str = "select name from ens_config.item where production='";

/// The query for the items of a production, between the production's name
/// and the base class of the items.
pub const ITEMS_QUERY_MIDDLE: &'static str =
    "'\n        and \n        classname in (select name from %dictionary.classdefinition where super='";

/// The query for the items of a production, after the base class.
pub const ITEMS_QUERY_TAIL: &'static str = "')";

/// The base class of business services.
pub const BUSINESS_SERVICE: &'static str = "Ens.BusinessService";

/// The base class of business operations.
pub const BUSINESS_OPERATION: &'static str = "Ens.BusinessOperation";

/// The base class of business processes.
pub const BUSINESS_PROCESS: &'static str = "Ens.BusinessProcess";

/// The text of the query for the configuration items of `production` whose
/// class extends `base`. The production's name stands in the text as it was
/// given, between single quotes.
pub open spec fn items_query(production: Seq<char>, base: Seq<char>) -> Seq<char> {
    ITEMS_QUERY_HEAD@ + production + ITEMS_QUERY_MIDDLE@ + base + ITEMS_QUERY_TAIL@
}

fn items_query_text(production: &str, base: &str) -> (query: String)
    ensures
        query@ == items_query(production@, base@),
{
    let mut query = ITEMS_QUERY_HEAD.to_owned();
    query.append(production);
    query.append(ITEMS_QUERY_MIDDLE);
    query.append(base);
    query.append(ITEMS_QUERY_TAIL);
    query
}

/// The query whose rows [`ConnectionManager::productions`] takes as names.
pub fn productions_query() -> (query: String)
    ensures
        query@ == PRODUCTIONS_QUERY@,
{
    PRODUCTIONS_QUERY.to_owned()
}

/// The query whose rows [`ConnectionManager::production_services`] takes.
///
/// The production's name is put into the text unchanged: a name that holds
/// a single quote changes the query. Callers that take the name from
/// outside have to know this.
pub fn production_services_query(production: &str) -> (query: String)
    ensures
        query@ == items_query(production@, BUSINESS_SERVICE@),
{
    items_query_text(production, BUSINESS_SERVICE)
}

/// The query whose rows [`ConnectionManager::production_operations`] takes.
/// The production's name is put into the text unchanged.
pub fn production_operations_query(production: &str) -> (query: String)
    ensures
        query@ == items_query(production@, BUSINESS_OPERATION@),
{
    items_query_text(production, BUSINESS_OPERATION)
}

/// The query whose rows [`ConnectionManager::production_processes`] takes.
/// The production's name is put into the text unchanged.
pub fn production_processes_query(production: &str) -> (query: String)
    ensures
        query@ == items_query(production@, BUSINESS_PROCESS@),
{
    items_query_text(production, BUSINESS_PROCESS)
}

/// The query whose rows [`ConnectionManager::globals`] takes.
pub fn globals_query() -> (query: String)
    ensures
        query@ == GLOBALS_QUERY@,
{
    GLOBALS_QUERY.to_owned()
}

} // verus!
