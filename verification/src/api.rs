//! The server side: the API gateway's configuration, the gRPC messages and the
//! replies the data service builds, the WebSocket connection registry, and the
//! payment rules.
use vstd::prelude::*;
use crate::json::{JsonModel, JsonValue};
use crate::saas::fresh_uuid;
use crate::text::{concat, decimal, opt_view, owned, push_decimal, push_str, str_equal, strings_view};

verus! {

/// The REST API's settings.
#[derive(Debug)]
pub struct RESTAPIConfig {
    pub enabled: bool,
    pub bind_address: String,
    pub port: u16,
    pub cors_enabled: bool,
}

/// The gRPC API's settings.
#[derive(Debug)]
pub struct GRPCConfig {
    pub enabled: bool,
    pub bind_address: String,
    pub port: u16,
    pub reflection: bool,
}

/// The WebSocket API's settings.
#[derive(Debug)]
pub struct WebSocketConfig {
    pub enabled: bool,
    pub bind_address: String,
    pub port: u16,
    pub max_connections: usize,
}

/// The settings of all APIs.
#[derive(Debug)]
pub struct APIConfig {
    pub rest_api: RESTAPIConfig,
    pub grpc_api: GRPCConfig,
    pub websocket_api: WebSocketConfig,
}

impl Default for APIConfig {
    /// Every API enabled on the loopback address: REST on 8080 with CORS, gRPC on 8082
    /// with reflection, WebSocket on 8083 for up to 1000 connections.
    fn default() -> (c: Self)
        ensures
            c.rest_api.enabled && c.rest_api.bind_address@ == "127.0.0.1"@ && c.rest_api.port == 8080
                && c.rest_api.cors_enabled,
            c.grpc_api.enabled && c.grpc_api.bind_address@ == "127.0.0.1"@ && c.grpc_api.port == 8082
                && c.grpc_api.reflection,
            c.websocket_api.enabled && c.websocket_api.bind_address@ == "127.0.0.1"@
                && c.websocket_api.port == 8083 && c.websocket_api.max_connections == 1000,
    {
        APIConfig {
            rest_api: RESTAPIConfig {
                enabled: true,
                bind_address: owned("127.0.0.1"),
                port: 8080,
                cors_enabled: true,
            },
            grpc_api: GRPCConfig {
                enabled: true,
                bind_address: owned("127.0.0.1"),
                port: 8082,
                reflection: true,
            },
            websocket_api: WebSocketConfig {
                enabled: true,
                bind_address: owned("127.0.0.1"),
                port: 8083,
                max_connections: 1000,
            },
        }
    }
}

/// Which of the gateway's APIs start: those enabled, as (REST, gRPC, WebSocket).
pub fn enabled_apis(config: &APIConfig) -> (r: (bool, bool, bool))
    ensures
        r == (config.rest_api.enabled, config.grpc_api.enabled, config.websocket_api.enabled),
{
    (config.rest_api.enabled, config.grpc_api.enabled, config.websocket_api.enabled)
}

/// The address a server listens on: `host:port`.
pub fn listen_address(bind_address: &str, port: u16) -> (a: String)
    ensures
        a@ == bind_address@ + seq![':'] + decimal(port as nat),
{
    let mut a = owned(bind_address);
    crate::text::push_char(&mut a, ':');
    push_decimal(&mut a, port as u64);
    a
}

/// A request for one document.
#[derive(Debug)]
pub struct GetDocumentRequest {
    pub collection: String,
    pub id: String,
}

/// One document: its JSON bytes, version and metadata entries.
#[derive(Debug)]
pub struct GetDocumentResponse {
    pub data: Vec<u8>,
    pub version: u64,
    pub metadata: Vec<(String, String)>,
}

/// A request to store one document.
#[derive(Debug)]
pub struct PutDocumentRequest {
    pub collection: String,
    pub id: String,
    pub data: Vec<u8>,
    pub metadata: Vec<(String, String)>,
}

/// The reply to a store.
#[derive(Debug)]
pub struct PutDocumentResponse {
    pub success: bool,
    pub version: u64,
}

/// A request to delete one document.
#[derive(Debug)]
pub struct DeleteDocumentRequest {
    pub collection: String,
    pub id: String,
}

/// The reply to a deletion.
#[derive(Debug)]
pub struct DeleteDocumentResponse {
    pub success: bool,
}

/// A query: a JSON filter as bytes (none when empty) and paging.
#[derive(Debug)]
pub struct QueryDocumentsRequest {
    pub collection: String,
    pub filter: Vec<u8>,
    pub limit: Option<u32>,
    pub offset: Option<u32>,
}

/// The reply to a query.
#[derive(Debug)]
pub struct QueryDocumentsResponse {
    pub documents: Vec<DocumentResult>,
    pub total: u64,
}

/// One document of a query's reply.
#[derive(Debug)]
pub struct DocumentResult {
    pub id: String,
    pub data: Vec<u8>,
    pub version: u64,
    pub metadata: Vec<(String, String)>,
}

/// The metadata every reply carries: the content type of JSON.
pub open spec fn json_metadata() -> Seq<(Seq<char>, Seq<char>)> {
    seq![("content_type"@, "application/json"@)]
}

fn json_metadata_entries() -> (m: Vec<(String, String)>)
    ensures
        crate::saas::pairs_view(m@) == json_metadata(),
{
    let m = vec![(owned("content_type"), owned("application/json"))];
    assert(crate::saas::pairs_view(m@) =~= json_metadata());
    m
}

/// The reply carrying one document's bytes: version 1, JSON metadata.
pub fn document_reply(data: Vec<u8>) -> (r: GetDocumentResponse)
    ensures
        r.data@ == data@,
        r.version == 1,
        crate::saas::pairs_view(r.metadata@) == json_metadata(),
{
    GetDocumentResponse { data, version: 1, metadata: json_metadata_entries() }
}

/// The reply to a successful store: version 1.
pub fn stored_reply() -> (r: PutDocumentResponse)
    ensures
        r.success && r.version == 1,
{
    PutDocumentResponse { success: true, version: 1 }
}

/// The reply to a successful deletion.
pub fn deleted_reply() -> (r: DeleteDocumentResponse)
    ensures
        r.success,
{
    DeleteDocumentResponse { success: true }
}

/// The paging of a query, as the query engine takes it.
pub fn query_paging(request: &QueryDocumentsRequest) -> (r: (bool, Option<usize>, Option<usize>))
    ensures
        r.0 == (request.filter@.len() > 0),
        r.1 == match request.limit {
            Some(l) => Some(l as usize),
            None => None::<usize>,
        },
        r.2 == match request.offset {
            Some(o) => Some(o as usize),
            None => None::<usize>,
        },
{
    let limit = match request.limit {
        Some(l) => Some(l as usize),
        None => None,
    };
    let offset = match request.offset {
        Some(o) => Some(o as usize),
        None => None,
    };
    (request.filter.len() > 0, limit, offset)
}

/// The reply to a query: each document's bytes under the ID `doc_<position>`,
/// version 1, JSON metadata, and the total.
pub fn query_reply(documents: Vec<Vec<u8>>, total: usize) -> (r: QueryDocumentsResponse)
    ensures
        r.total == total as u64,
        r.documents@.len() == documents@.len(),
        forall|i: int|
            0 <= i < documents@.len() ==> (#[trigger] r.documents@[i]).id@ == "doc_"@ + decimal(i as nat)
                && r.documents@[i].data@ == documents@[i]@ && r.documents@[i].version == 1
                && crate::saas::pairs_view(r.documents@[i].metadata@) == json_metadata(),
{
    let mut out: Vec<DocumentResult> = Vec::new();
    let mut rest = documents;
    let ghost all = rest@;
    let n = rest.len();
    let mut i: usize = 0;
    assert(rest@ =~= all.skip(0));
    while i < n
        invariant
            n == all.len(),
            i <= n,
            rest@ == all.skip(i as int),
            out@.len() == i,
            forall|k: int|
                0 <= k < i ==> (#[trigger] out@[k]).id@ == "doc_"@ + decimal(k as nat) && out@[k].data@
                    == all[k]@ && out@[k].version == 1 && crate::saas::pairs_view(out@[k].metadata@)
                    == json_metadata(),
        decreases n - i,
    {
        let data = rest.remove(0);
        assert(rest@ =~= all.skip((i + 1) as int));
        let mut id = owned("doc_");
        push_decimal(&mut id, i as u64);
        out.push(DocumentResult { id, data, version: 1, metadata: json_metadata_entries() });
        i = i + 1;
    }
    QueryDocumentsResponse { documents: out, total: total as u64 }
}

/// What happened to a document.
#[derive(Clone, Copy, Debug, PartialEq, Eq, Structural)]
pub enum DocumentAction {
    Created,
    Updated,
    Deleted,
}

/// A request to refresh an access token.
#[derive(Debug)]
pub struct RefreshTokenRequest {
    pub refresh_token: String,
}

/// A subscription of a connection to changes, in a collection or matching a query.
#[derive(Debug)]
pub struct Subscription {
    pub id: String,
    pub collection: Option<String>,
    pub query: Option<JsonValue>,
    pub connection_id: String,
}

/// A live WebSocket connection; times are milliseconds since the epoch.
#[derive(Debug)]
pub struct Connection {
    pub id: String,
    pub subscriptions: Vec<String>,
    pub created_at_ms: u64,
    pub last_activity_ms: u64,
}

/// Counts of the registry, and when its oldest connection opened.
#[derive(Debug, PartialEq, Eq, Structural)]
pub struct ConnectionStats {
    pub active_connections: usize,
    pub total_subscriptions: usize,
    pub oldest_connection_ms: u64,
}

/// The connections and subscriptions of the WebSocket API, each keyed by its ID.
#[derive(Debug)]
pub struct ConnectionManager {
    connections: Vec<Connection>,
    subscriptions: Vec<Subscription>,
}

/// The model of a connection: its ID, opening and last-activity times, and the IDs
/// of its subscriptions.
pub struct ConnectionModel {
    pub id: Seq<char>,
    pub created_at: nat,
    pub last_activity: nat,
    pub subscriptions: Seq<Seq<char>>,
}

/// The model of a subscription: its ID, its connection's, and the collection and
/// query it follows.
pub struct SubscriptionModel {
    pub id: Seq<char>,
    pub connection: Seq<char>,
    pub collection: Option<Seq<char>>,
    pub query: Option<JsonModel>,
}

/// The model of one connection.
pub open spec fn connection_model(c: Connection) -> ConnectionModel {
    ConnectionModel {
        id: c.id@,
        created_at: c.created_at_ms as nat,
        last_activity: c.last_activity_ms as nat,
        subscriptions: strings_view(c.subscriptions@),
    }
}

/// The model of one subscription.
pub open spec fn subscription_model(s: Subscription) -> SubscriptionModel {
    SubscriptionModel {
        id: s.id@,
        connection: s.connection_id@,
        collection: opt_view(s.collection),
        query: match s.query {
            Some(q) => Some(q.model()),
            None => None,
        },
    }
}

/// The models of connections.
pub open spec fn connections_model(cs: Seq<Connection>) -> Seq<ConnectionModel> {
    Seq::new(cs.len(), |i: int| connection_model(cs[i]))
}

/// The models of subscriptions.
pub open spec fn subscriptions_model(ss: Seq<Subscription>) -> Seq<SubscriptionModel> {
    Seq::new(ss.len(), |i: int| subscription_model(ss[i]))
}

/// A connection as it is registered at time `now`: no activity since and no
/// subscriptions.
pub open spec fn fresh_connection(id: Seq<char>, now: nat) -> ConnectionModel {
    ConnectionModel { id, created_at: now, last_activity: now, subscriptions: Seq::empty() }
}

/// The connections without the one named `id`.
pub open spec fn without_connection(cs: Seq<ConnectionModel>, id: Seq<char>) -> Seq<ConnectionModel>
    decreases cs.len(),
{
    if cs.len() == 0 {
        Seq::empty()
    } else {
        without_connection(cs.drop_last(), id) + if cs.last().id == id {
            Seq::empty()
        } else {
            seq![cs.last()]
        }
    }
}

/// The subscriptions that do not belong to connection `id`.
pub open spec fn not_of_connection(ss: Seq<SubscriptionModel>, id: Seq<char>) -> Seq<SubscriptionModel>
    decreases ss.len(),
{
    if ss.len() == 0 {
        Seq::empty()
    } else {
        not_of_connection(ss.drop_last(), id) + if ss.last().connection == id {
            Seq::empty()
        } else {
            seq![ss.last()]
        }
    }
}

/// The position of the first entry with ID `id`, if any.
pub open spec fn position_of(ids: Seq<Seq<char>>, id: Seq<char>) -> Option<int>
    decreases ids.len(),
{
    if ids.len() == 0 {
        None
    } else if ids[0] == id {
        Some(0)
    } else {
        match position_of(ids.drop_first(), id) {
            Some(k) => Some(k + 1),
            None => None,
        }
    }
}

/// `position_of` counted from `i` onwards, when no entry before `i` has the ID.
proof fn lemma_position_from(ids: Seq<Seq<char>>, id: Seq<char>, i: int)
    requires
        0 <= i <= ids.len(),
        forall|j: int| 0 <= j < i ==> ids[j] != id,
    ensures
        position_of(ids, id) == match position_of(ids.skip(i), id) {
            Some(k) => Some(k + i),
            None => None::<int>,
        },
    decreases i,
{
    if i == 0 {
        assert(ids.skip(0) =~= ids);
    } else {
        lemma_position_from(ids.drop_first(), id, i - 1);
        assert(ids.drop_first().skip(i - 1) =~= ids.skip(i));
    }
}

/// Whether no ID occurs twice.
pub open spec fn unique_ids(ids: Seq<Seq<char>>) -> bool {
    forall|i: int, j: int| 0 <= i < j < ids.len() ==> ids[i] != ids[j]
}

/// The IDs of connections.
pub open spec fn connection_ids(cs: Seq<ConnectionModel>) -> Seq<Seq<char>> {
    cs.map_values(|c: ConnectionModel| c.id)
}

/// The IDs of subscriptions.
pub open spec fn subscription_ids(ss: Seq<SubscriptionModel>) -> Seq<Seq<char>> {
    ss.map_values(|s: SubscriptionModel| s.id)
}

/// A registry entry put under its ID: in place of the entry with that ID, else last.
pub open spec fn keyed_insert<T>(entries: Seq<T>, ids: Seq<Seq<char>>, id: Seq<char>, entry: T) -> Seq<T> {
    match position_of(ids, id) {
        Some(i) => entries.update(i, entry),
        None => entries.push(entry),
    }
}

impl ConnectionManager {
    /// The connections, in the order they were added.
    pub closed spec fn connections_view(&self) -> Seq<ConnectionModel> {
        connections_model(self.connections@)
    }

    /// The subscriptions, in the order they were added.
    pub closed spec fn subscriptions_view(&self) -> Seq<SubscriptionModel> {
        subscriptions_model(self.subscriptions@)
    }

    /// An empty registry.
    pub fn new() -> (m: Self)
        ensures
            m.connections_view() == Seq::<ConnectionModel>::empty(),
            m.subscriptions_view() == Seq::<SubscriptionModel>::empty(),
    {
        let m = ConnectionManager { connections: Vec::new(), subscriptions: Vec::new() };
        assert(m.connections_view() =~= Seq::<ConnectionModel>::empty());
        assert(m.subscriptions_view() =~= Seq::<SubscriptionModel>::empty());
        m
    }

    /// Registers a connection opened at `now_ms`, replacing one with the same ID.
    pub fn add_connection(&mut self, connection_id: String, now_ms: u64) -> (r: Result<(), String>)
        ensures
            r is Ok,
            final(self).connections_view() == keyed_insert(
                old(self).connections_view(),
                connection_ids(old(self).connections_view()),
                connection_id@,
                fresh_connection(connection_id@, now_ms as nat),
            ),
            final(self).subscriptions_view() == old(self).subscriptions_view(),
    {
        let ghost cv = self.connections_view();
        let ghost ids = connection_ids(cv);
        let ghost entry = fresh_connection(connection_id@, now_ms as nat);
        let mut i: usize = 0;
        while i < self.connections.len()
            invariant
                i <= self.connections@.len(),
                cv == connections_model(self.connections@),
                ids == connection_ids(cv),
                ids.len() == self.connections@.len(),
                entry == fresh_connection(connection_id@, now_ms as nat),
                self.connections@ == old(self).connections@,
                self.subscriptions@ == old(self).subscriptions@,
                forall|j: int| 0 <= j < i ==> ids[j] != connection_id@,
            decreases self.connections@.len() - i,
        {
            if str_equal(self.connections[i].id.as_str(), connection_id.as_str()) {
                assert(ids[i as int] == connection_id@);
                proof {
                    lemma_position_from(ids, connection_id@, i as int);
                    assert(ids.skip(i as int)[0] == ids[i as int]);
                    assert(ids.skip(i as int).len() > 0);
                    assert(position_of(ids.skip(i as int), connection_id@) == Some(0int));
                    assert(position_of(ids, connection_id@) == Some(i as int));
                }
                let c = Connection {
                    id: connection_id,
                    subscriptions: Vec::new(),
                    created_at_ms: now_ms,
                    last_activity_ms: now_ms,
                };
                let ghost old_conns = self.connections@;
                assert(connection_model(c) =~= entry) by {
                    assert(strings_view(c.subscriptions@) =~= Seq::<Seq<char>>::empty());
                }
                self.connections.set(i, c);
                assert(self.connections@ == old_conns.update(i as int, self.connections@[i as int]));
                assert(keyed_insert(cv, ids, entry.id, entry) == cv.update(i as int, entry));
                assert(self.connections_view() =~= cv.update(i as int, entry));
                return Ok(());
            }
            i = i + 1;
        }
        proof {
            lemma_position_from(ids, connection_id@, ids.len() as int);
            assert(ids.skip(ids.len() as int) =~= Seq::<Seq<char>>::empty());
        }
        let c = Connection {
            id: connection_id,
            subscriptions: Vec::new(),
            created_at_ms: now_ms,
            last_activity_ms: now_ms,
        };
        assert(connection_model(c) =~= entry) by {
            assert(strings_view(c.subscriptions@) =~= Seq::<Seq<char>>::empty());
        }
        self.connections.push(c);
        assert(self.connections_view() =~= cv.push(entry));
        Ok(())
    }

    /// Removes a connection and every subscription it holds.
    pub fn remove_connection(&mut self, connection_id: &str) -> (r: Result<(), String>)
        ensures
            r is Ok,
            final(self).connections_view() == without_connection(old(self).connections_view(), connection_id@),
            final(self).subscriptions_view() == not_of_connection(
                old(self).subscriptions_view(),
                connection_id@,
            ),
    {
        let ghost cv = self.connections_view();
        let mut kept: Vec<Connection> = Vec::new();
        let mut rest: Vec<Connection> = Vec::new();
        std::mem::swap(&mut rest, &mut self.connections);
        let ghost all = rest@;
        let n = rest.len();
        let mut i: usize = 0;
        assert(rest@ =~= all.skip(0));
        assert(connections_model(kept@) =~= without_connection(cv.take(0), connection_id@));
        while i < n
            invariant
                n == all.len(),
                i <= n,
                cv == connections_model(all),
                rest@ == all.skip(i as int),
                connections_model(kept@) == without_connection(cv.take(i as int), connection_id@),
            decreases n - i,
        {
            let c = rest.remove(0);
            assert(rest@ =~= all.skip((i + 1) as int));
            assert(cv.take((i + 1) as int).drop_last() =~= cv.take(i as int));
            let ghost before = connections_model(kept@);
            if !str_equal(c.id.as_str(), connection_id) {
                kept.push(c);
                assert(connections_model(kept@) =~= before.push(cv[i as int]));
            }
            i = i + 1;
        }
        assert(cv.take(n as int) =~= cv);
        self.connections = kept;
        let ghost sv = self.subscriptions_view();
        let mut keep_subs: Vec<Subscription> = Vec::new();
        let mut rest_subs: Vec<Subscription> = Vec::new();
        std::mem::swap(&mut rest_subs, &mut self.subscriptions);
        let ghost all_subs = rest_subs@;
        let m = rest_subs.len();
        let mut j: usize = 0;
        assert(rest_subs@ =~= all_subs.skip(0));
        assert(subscriptions_model(keep_subs@) =~= not_of_connection(sv.take(0), connection_id@));
        while j < m
            invariant
                m == all_subs.len(),
                j <= m,
                sv == subscriptions_model(all_subs),
                rest_subs@ == all_subs.skip(j as int),
                subscriptions_model(keep_subs@) == not_of_connection(sv.take(j as int), connection_id@),
            decreases m - j,
        {
            let s = rest_subs.remove(0);
            assert(rest_subs@ =~= all_subs.skip((j + 1) as int));
            assert(sv.take((j + 1) as int).drop_last() =~= sv.take(j as int));
            let ghost before = subscriptions_model(keep_subs@);
            if !str_equal(s.connection_id.as_str(), connection_id) {
                keep_subs.push(s);
                assert(subscriptions_model(keep_subs@) =~= before.push(sv[j as int]));
            }
            j = j + 1;
        }
        assert(sv.take(m as int) =~= sv);
        self.subscriptions = keep_subs;
        Ok(())
    }

    /// Registers a subscription, replacing one with the same ID.
    pub fn add_subscription(&mut self, subscription: Subscription) -> (r: Result<(), String>)
        ensures
            r is Ok,
            final(self).subscriptions_view() == keyed_insert(
                old(self).subscriptions_view(),
                subscription_ids(old(self).subscriptions_view()),
                subscription.id@,
                subscription_model(subscription),
            ),
            final(self).connections_view() == old(self).connections_view(),
    {
        let ghost sv = self.subscriptions_view();
        let ghost ids = subscription_ids(sv);
        let ghost entry = subscription_model(subscription);
        let mut i: usize = 0;
        while i < self.subscriptions.len()
            invariant
                i <= self.subscriptions@.len(),
                sv == subscriptions_model(self.subscriptions@),
                ids == subscription_ids(sv),
                ids.len() == self.subscriptions@.len(),
                entry == subscription_model(subscription),
                self.subscriptions@ == old(self).subscriptions@,
                self.connections@ == old(self).connections@,
                forall|j: int| 0 <= j < i ==> ids[j] != subscription.id@,
            decreases self.subscriptions@.len() - i,
        {
            if str_equal(self.subscriptions[i].id.as_str(), subscription.id.as_str()) {
                assert(ids[i as int] == subscription.id@);
                proof {
                    lemma_position_from(ids, subscription.id@, i as int);
                    assert(ids.skip(i as int)[0] == ids[i as int]);
                    assert(ids.skip(i as int).len() > 0);
                    assert(position_of(ids.skip(i as int), subscription.id@) == Some(0int));
                    assert(position_of(ids, subscription.id@) == Some(i as int));
                }
                let ghost old_subs = self.subscriptions@;
                self.subscriptions.set(i, subscription);
                assert(keyed_insert(sv, ids, entry.id, entry) == sv.update(i as int, entry));
                assert(self.subscriptions_view() =~= sv.update(i as int, entry));
                return Ok(());
            }
            i = i + 1;
        }
        proof {
            lemma_position_from(ids, subscription.id@, ids.len() as int);
            assert(ids.skip(ids.len() as int) =~= Seq::<Seq<char>>::empty());
        }
        self.subscriptions.push(subscription);
        assert(self.subscriptions_view() =~= sv.push(entry));
        Ok(())
    }

    /// The registry's counts, and the opening time of its oldest connection (`now_ms`
    /// when there is none).
    pub fn get_stats(&self, now_ms: u64) -> (st: ConnectionStats)
        ensures
            st.active_connections == self.connections_view().len(),
            st.total_subscriptions == self.subscriptions_view().len(),
            self.connections_view().len() == 0 ==> st.oldest_connection_ms == now_ms,
            self.connections_view().len() > 0 ==> (exists|i: int|
                0 <= i < self.connections_view().len() && self.connections_view()[i].created_at
                    == st.oldest_connection_ms) && (forall|i: int|
                0 <= i < self.connections_view().len() ==> st.oldest_connection_ms
                    <= #[trigger] self.connections_view()[i].created_at),
    {
        let ghost cv = self.connections_view();
        if self.connections.len() == 0 {
            return ConnectionStats {
                active_connections: 0,
                total_subscriptions: self.subscriptions.len(),
                oldest_connection_ms: now_ms,
            };
        }
        let mut oldest = self.connections[0].created_at_ms;
        assert(cv[0].created_at == oldest);
        let mut i: usize = 1;
        while i < self.connections.len()
            invariant
                1 <= i <= self.connections@.len(),
                cv == connections_model(self.connections@),
                exists|k: int| 0 <= k < i && cv[k].created_at == oldest,
                forall|k: int| 0 <= k < i ==> oldest <= #[trigger] cv[k].created_at,
            decreases self.connections@.len() - i,
        {
            if self.connections[i].created_at_ms < oldest {
                oldest = self.connections[i].created_at_ms;
                assert(cv[i as int].created_at == oldest);
            }
            i = i + 1;
        }
        ConnectionStats {
            active_connections: self.connections.len(),
            total_subscriptions: self.subscriptions.len(),
            oldest_connection_ms: oldest,
        }
    }
}

/// A found position is in range and holds the ID.
proof fn lemma_position_found(ids: Seq<Seq<char>>, id: Seq<char>)
    ensures
        match position_of(ids, id) {
            Some(p) => 0 <= p < ids.len() && ids[p] == id,
            None => true,
        },
    decreases ids.len(),
{
    if ids.len() > 0 && ids[0] != id {
        lemma_position_found(ids.drop_first(), id);
    }
}

/// Registering a subscription: afterwards the registry holds it, and every
/// subscription under another ID is still there.
pub proof fn lemma_subscription_registered(ss: Seq<SubscriptionModel>, s: SubscriptionModel)
    ensures
        keyed_insert(ss, subscription_ids(ss), s.id, s).contains(s),
        forall|t: SubscriptionModel|
            ss.contains(t) && t.id != s.id ==> keyed_insert(ss, subscription_ids(ss), s.id, s).contains(t),
{
    let ids = subscription_ids(ss);
    let r = keyed_insert(ss, ids, s.id, s);
    lemma_position_found(ids, s.id);
    match position_of(ids, s.id) {
        Some(p) => {
            assert(r[p] == s);
            assert forall|t: SubscriptionModel| ss.contains(t) && t.id != s.id implies r.contains(t) by {
                let j = choose|j: int| 0 <= j < ss.len() && ss[j] == t;
                assert(ids[j] == t.id);
                assert(j != p);
                assert(r[j] == t);
            }
        },
        None => {
            assert(r[ss.len() as int] == s);
            assert forall|t: SubscriptionModel| ss.contains(t) && t.id != s.id implies r.contains(t) by {
                let j = choose|j: int| 0 <= j < ss.len() && ss[j] == t;
                assert(r[j] == t);
            }
        },
    }
}

/// Registering a connection: afterwards the registry holds it, and every
/// connection under another ID is still there.
pub proof fn lemma_connection_registered(ss: Seq<ConnectionModel>, s: ConnectionModel)
    ensures
        keyed_insert(ss, connection_ids(ss), s.id, s).contains(s),
        forall|t: ConnectionModel|
            ss.contains(t) && t.id != s.id ==> keyed_insert(ss, connection_ids(ss), s.id, s).contains(t),
{
    let ids = connection_ids(ss);
    let r = keyed_insert(ss, ids, s.id, s);
    lemma_position_found(ids, s.id);
    match position_of(ids, s.id) {
        Some(p) => {
            assert(r[p] == s);
            assert forall|t: ConnectionModel| ss.contains(t) && t.id != s.id implies r.contains(t) by {
                let j = choose|j: int| 0 <= j < ss.len() && ss[j] == t;
                assert(ids[j] == t.id);
                assert(j != p);
                assert(r[j] == t);
            }
        },
        None => {
            assert(r[ss.len() as int] == s);
            assert forall|t: ConnectionModel| ss.contains(t) && t.id != s.id implies r.contains(t) by {
                let j = choose|j: int| 0 <= j < ss.len() && ss[j] == t;
                assert(r[j] == t);
            }
        },
    }
}

/// Once a connection is removed, no remaining subscription belongs to it.
pub proof fn lemma_removal_drops_subscriptions(ss: Seq<SubscriptionModel>, id: Seq<char>)
    ensures
        forall|i: int|
            0 <= i < not_of_connection(ss, id).len() ==> #[trigger] not_of_connection(ss, id)[i].connection
                != id,
    decreases ss.len(),
{
    if ss.len() > 0 {
        lemma_removal_drops_subscriptions(ss.drop_last(), id);
        let prev = not_of_connection(ss.drop_last(), id);
        assert forall|i: int| 0 <= i < not_of_connection(ss, id).len() implies #[trigger] not_of_connection(
            ss,
            id,
        )[i].connection != id by {
            if i < prev.len() {
                assert(not_of_connection(ss, id)[i] == prev[i]);
            }
        }
    }
}

/// Removing a connection keeps every subscription of every other connection.
pub proof fn lemma_removal_keeps_other_subscriptions(ss: Seq<SubscriptionModel>, id: Seq<char>, k: int)
    requires
        0 <= k < ss.len(),
        ss[k].connection != id,
    ensures
        not_of_connection(ss, id).contains(ss[k]),
    decreases ss.len(),
{
    if k < ss.len() - 1 {
        lemma_removal_keeps_other_subscriptions(ss.drop_last(), id, k);
        let prev = not_of_connection(ss.drop_last(), id);
        let j = choose|j: int| 0 <= j < prev.len() && prev[j] == ss[k];
        assert(not_of_connection(ss, id)[j] == ss[k]);
    } else {
        let prev = not_of_connection(ss.drop_last(), id);
        assert(not_of_connection(ss, id)[prev.len() as int] == ss[k]);
    }
}

/// Once a connection is removed, no connection has its ID.
pub proof fn lemma_removal_drops_connection(cs: Seq<ConnectionModel>, id: Seq<char>)
    ensures
        forall|i: int| 0 <= i < without_connection(cs, id).len() ==> #[trigger] without_connection(cs, id)[i].id != id,
    decreases cs.len(),
{
    if cs.len() > 0 {
        lemma_removal_drops_connection(cs.drop_last(), id);
        let prev = without_connection(cs.drop_last(), id);
        assert forall|i: int| 0 <= i < without_connection(cs, id).len() implies #[trigger] without_connection(
            cs,
            id,
        )[i].id != id by {
            if i < prev.len() {
                assert(without_connection(cs, id)[i] == prev[i]);
            }
        }
    }
}

/// An event pushed to WebSocket clients; times are RFC 3339 text.
#[derive(Debug)]
pub enum WebSocketEvent {
    DocumentChanged {
        collection: String,
        document_id: String,
        action: DocumentAction,
        data: Option<JsonValue>,
        timestamp: String,
    },
    QueryUpdate { query_id: String, results: Vec<JsonValue>, count: usize, timestamp: String },
    ConnectionStatus { status: String, message: String },
    Error { code: String, message: String, timestamp: String },
}

/// The real-time API: its settings and its registry of connections and subscriptions.
#[derive(Debug)]
pub struct RealtimeAPI {
    pub config: WebSocketConfig,
    pub connection_manager: ConnectionManager,
}

impl RealtimeAPI {
    /// The connections of the registry.
    pub open spec fn connections_view(&self) -> Seq<ConnectionModel> {
        self.connection_manager.connections_view()
    }

    /// The subscriptions of the registry.
    pub open spec fn subscriptions_view(&self) -> Seq<SubscriptionModel> {
        self.connection_manager.subscriptions_view()
    }

    /// The API with a copy of `config` and an empty registry.
    pub fn new(config: &WebSocketConfig) -> (r: Self)
        ensures
            r.config.enabled == config.enabled,
            r.config.bind_address@ == config.bind_address@,
            r.config.port == config.port,
            r.config.max_connections == config.max_connections,
            r.connections_view() == Seq::<ConnectionModel>::empty(),
            r.subscriptions_view() == Seq::<SubscriptionModel>::empty(),
    {
        RealtimeAPI {
            config: WebSocketConfig {
                enabled: config.enabled,
                bind_address: owned(config.bind_address.as_str()),
                port: config.port,
                max_connections: config.max_connections,
            },
            connection_manager: ConnectionManager::new(),
        }
    }

    /// The event announcing that a document changed, stamped `timestamp`.
    pub fn notify_document_change(
        &self,
        collection: &str,
        document_id: &str,
        action: DocumentAction,
        data: Option<JsonValue>,
        timestamp: String,
    ) -> (e: WebSocketEvent)
        ensures
            e matches WebSocketEvent::DocumentChanged { collection: c, document_id: d, action: a, data: x, timestamp: t }
                && c@ == collection@ && d@ == document_id@ && a == action && x == data && t == timestamp,
    {
        WebSocketEvent::DocumentChanged {
            collection: owned(collection),
            document_id: owned(document_id),
            action,
            data,
            timestamp,
        }
    }

    /// The event carrying new results of query `query_id`, with their count.
    pub fn notify_query_update(&self, query_id: &str, results: Vec<JsonValue>, timestamp: String) -> (e:
        WebSocketEvent)
        ensures
            e matches WebSocketEvent::QueryUpdate { query_id: q, results: r, count: n, timestamp: t }
                && q@ == query_id@ && r@ == results@ && n == results@.len() && t == timestamp,
    {
        let count = results.len();
        WebSocketEvent::QueryUpdate { query_id: owned(query_id), results, count, timestamp }
    }

    /// The registry's counts and the opening time of its oldest connection (`now_ms`
    /// when there is none).
    pub fn get_connection_stats(&self, now_ms: u64) -> (st: ConnectionStats)
        ensures
            st.active_connections == self.connections_view().len(),
            st.total_subscriptions == self.subscriptions_view().len(),
            self.connections_view().len() == 0 ==> st.oldest_connection_ms == now_ms,
            self.connections_view().len() > 0 ==> (exists|i: int|
                0 <= i < self.connections_view().len() && self.connections_view()[i].created_at
                    == st.oldest_connection_ms) && (forall|i: int|
                0 <= i < self.connections_view().len() ==> st.oldest_connection_ms
                    <= #[trigger] self.connections_view()[i].created_at),
    {
        self.connection_manager.get_stats(now_ms)
    }

    /// Subscribes connection `connection_id` under a fresh random identifier, which
    /// it returns; this always succeeds.
    pub fn add_subscription(&mut self, connection_id: String, collection: Option<String>, query: Option<
        JsonValue,
    >) -> (r: Result<String, String>)
        ensures
            r matches Ok(id) && id@.len() == 36 && final(self).subscriptions_view() == keyed_insert(
                old(self).subscriptions_view(),
                subscription_ids(old(self).subscriptions_view()),
                id@,
                SubscriptionModel {
                    id: id@,
                    connection: connection_id@,
                    collection: opt_view(collection),
                    query: match query {
                        Some(q) => Some(q.model()),
                        None => None,
                    },
                },
            ),
            final(self).connections_view() == old(self).connections_view(),
            final(self).config == old(self).config,
    {
        let id = fresh_uuid();
        let subscription = Subscription {
            id: owned(id.as_str()),
            collection,
            query,
            connection_id,
        };
        let _ = self.connection_manager.add_subscription(subscription);
        Ok(id)
    }
}

/// Why a payment request fails: it is refused (HTTP 400), or the service failed
/// to carry it out (HTTP 500).
#[derive(Debug, PartialEq, Eq, Structural)]
pub enum PaymentError {
    BadRequest,
    Internal,
}

/// The service's receiving wallet on a network.
pub open spec fn service_wallet_spec(network: Seq<char>) -> Result<Seq<char>, PaymentError> {
    if network == "tron"@ {
        Ok("TR7NHqjeKQxGTCi8q8ZY4pL8otSzgjLj6t"@)
    } else if network == "solana"@ {
        Ok("EPjFWdd5AufqSSqeM2qN1xzybapC8G4wEGGkZwyTDt1v"@)
    } else {
        Err(PaymentError::BadRequest)
    }
}

/// The service's receiving wallet on a network; other networks are refused.
pub fn get_service_wallet(network: &str) -> (r: Result<String, PaymentError>)
    ensures
        match r {
            Ok(w) => service_wallet_spec(network@) == Ok::<Seq<char>, PaymentError>(w@),
            Err(e) => service_wallet_spec(network@) == Err::<Seq<char>, PaymentError>(e),
        },
{
    if str_equal(network, "tron") {
        Ok(owned("TR7NHqjeKQxGTCi8q8ZY4pL8otSzgjLj6t"))
    } else if str_equal(network, "solana") {
        Ok(owned("EPjFWdd5AufqSSqeM2qN1xzybapC8G4wEGGkZwyTDt1v"))
    } else {
        Err(PaymentError::BadRequest)
    }
}

/// The monthly price of a service in the token's smallest unit (six decimals): 10,
/// 50 or 200 dollars for the starter, professional and enterprise plans, paid in
/// USDT or USDC.
pub open spec fn monthly_price_spec(service: Seq<char>, token: Seq<char>) -> Option<nat> {
    if token != "usdt"@ && token != "usdc"@ {
        None
    } else if service == "starter"@ {
        Some(10_000_000)
    } else if service == "professional"@ {
        Some(50_000_000)
    } else if service == "enterprise"@ {
        Some(200_000_000)
    } else {
        None
    }
}

/// The price of a subscription: the monthly price times the months.
pub fn subscription_price(service: &str, token: &str, months: u32) -> (r: Result<u64, PaymentError>)
    ensures
        match monthly_price_spec(service@, token@) {
            Some(p) => r == Ok::<u64, PaymentError>((p * months) as u64) && p * months <= u64::MAX,
            None => r == Err::<u64, PaymentError>(PaymentError::BadRequest),
        },
{
    let stable = str_equal(token, "usdt") || str_equal(token, "usdc");
    let monthly: u64 = if str_equal(service, "starter") {
        10_000_000
    } else if str_equal(service, "professional") {
        50_000_000
    } else if str_equal(service, "enterprise") {
        200_000_000
    } else {
        return Err(PaymentError::BadRequest);
    };
    if !stable {
        return Err(PaymentError::BadRequest);
    }
    assert(monthly * months <= 200_000_000 * 0xffff_ffff) by (nonlinear_arith)
        requires
            monthly <= 200_000_000,
            months <= 0xffff_ffff,
    ;
    Ok(monthly * months as u64)
}

/// The description of a subscription payment.
pub fn subscription_description(months: u32) -> (d: String)
    ensures
        d@ == "Service subscription for "@ + decimal(months as nat) + " months"@,
{
    let mut d = owned("Service subscription for ");
    push_decimal(&mut d, months as u64);
    push_str(&mut d, " months");
    d
}

/// A request to buy a service subscription.
#[derive(Debug)]
pub struct ServicePurchaseRequest {
    pub wallet_address: String,
    pub network: String,
    pub service_id: String,
    pub token: String,
    pub duration_months: u32,
}

/// A request to create a payment transaction.
#[derive(Debug)]
pub struct CreatePaymentRequest {
    pub from_wallet: String,
    pub network: String,
    pub amount: String,
    pub token: String,
    pub service_id: String,
    pub description: Option<String>,
}

/// The payment that buys a subscription: from the buyer's wallet, on their network,
/// for the subscription's price written in decimal, with a description of its length.
pub fn purchase_payment_request(request: &ServicePurchaseRequest) -> (r: Result<CreatePaymentRequest, PaymentError>)
    ensures
        match monthly_price_spec(request.service_id@, request.token@) {
            Some(p) => r matches Ok(q) && q.from_wallet@ == request.wallet_address@ && q.network@
                == request.network@ && q.amount@ == decimal((p * request.duration_months) as nat) && q.token@
                == request.token@ && q.service_id@ == request.service_id@ && opt_view(q.description) == Some(
                "Service subscription for "@ + decimal(request.duration_months as nat) + " months"@,
            ),
            None => r matches Err(PaymentError::BadRequest),
        },
{
    let total = match subscription_price(request.service_id.as_str(), request.token.as_str(), request.duration_months) {
        Ok(t) => t,
        Err(e) => return Err(e),
    };
    Ok(CreatePaymentRequest {
        from_wallet: request.wallet_address.clone(),
        network: request.network.clone(),
        amount: crate::text::u64_to_decimal(total),
        token: request.token.clone(),
        service_id: request.service_id.clone(),
        description: Some(subscription_description(request.duration_months)),
    })
}

/// The value of a string of decimal digits.
pub open spec fn digits_value(s: Seq<char>) -> nat
    decreases s.len(),
{
    if s.len() == 0 {
        0
    } else {
        (digits_value(s.drop_last()) * 10 + (s.last() as int - '0' as int)) as nat
    }
}

/// Whether every character is an ASCII digit.
pub open spec fn all_digits(s: Seq<char>) -> bool {
    forall|i: int| 0 <= i < s.len() ==> '0' <= #[trigger] s[i] <= '9'
}

/// What `str::parse::<u64>` accepts: an optional `+`, then one or more digits whose
/// value fits in 64 bits; it gives that value.
pub open spec fn parsed_amount(s: Seq<char>) -> Option<nat> {
    let digits = if s.len() > 0 && s[0] == '+' { s.drop_first() } else { s };
    if digits.len() > 0 && all_digits(digits) && digits_value(digits) <= u64::MAX {
        Some(digits_value(digits))
    } else {
        None
    }
}

proof fn lemma_digits_value_grows(s: Seq<char>, i: int)
    requires
        0 <= i <= s.len(),
        all_digits(s),
    ensures
        digits_value(s.take(i)) <= digits_value(s),
    decreases s.len() - i,
{
    if i < s.len() {
        lemma_digits_value_grows(s, i + 1);
        assert(s.take(i + 1).drop_last() =~= s.take(i));
    } else {
        assert(s.take(i) =~= s);
    }
}

/// A decimal rendering is all digits, with the value rendered.
proof fn lemma_decimal_digits(n: nat)
    ensures
        decimal(n).len() > 0,
        all_digits(decimal(n)),
        digits_value(decimal(n)) == n,
    decreases n,
{
    let c = crate::text::digit_char(n % 10);
    assert(c as int == 48 + n % 10) by {
        assert(((48 + n % 10) as u32) as char as int == 48 + n % 10);
    }
    if n >= 10 {
        lemma_decimal_digits(n / 10);
        let s = decimal(n);
        assert(s.drop_last() =~= decimal(n / 10));
        assert(s.last() == c);
        assert('0' as int == 48);
        assert((n / 10) * 10 + n % 10 == n);
        assert(digits_value(s) == (digits_value(s.drop_last()) * 10 + (s.last() as int - '0' as int)) as nat);
        assert forall|i: int| 0 <= i < s.len() implies '0' <= #[trigger] s[i] <= '9' by {
            if i < s.len() - 1 {
                assert(s[i] == decimal(n / 10)[i]);
            }
        }
    } else {
        let s = decimal(n);
        assert(s.drop_last() =~= Seq::<char>::empty());
        assert('0' as int == 48);
        assert(digits_value(s) == (digits_value(s.drop_last()) * 10 + (s.last() as int - '0' as int)) as nat);
    }
}

/// Writing an amount in decimal and reading it back gives the amount: what a purchase
/// puts in its payment request is what the payment endpoint reads.
pub proof fn lemma_amount_round_trip(n: nat)
    requires
        n <= u64::MAX,
    ensures
        parsed_amount(decimal(n)) == Some(n),
{
    lemma_decimal_digits(n);
    assert(decimal(n)[0] != '+');
}

/// A payment amount written in the token's smallest unit, as `str::parse::<u64>` reads it.
pub fn parse_amount(text: &str) -> (r: Option<u64>)
    ensures
        match r {
            Some(v) => parsed_amount(text@) == Some(v as nat),
            None => parsed_amount(text@) is None,
        },
{
    let chars = crate::text::to_chars(text);
    let start: usize = if chars.len() > 0 && chars[0] == '+' { 1 } else { 0 };
    let ghost digits = if text@.len() > 0 && text@[0] == '+' { text@.drop_first() } else { text@ };
    assert(chars@.skip(start as int) =~= digits);
    if start >= chars.len() {
        return None;
    }
    let mut value: u64 = 0;
    let mut i: usize = start;
    while i < chars.len()
        invariant
            chars@ == text@,
            start <= i <= chars@.len(),
            digits == chars@.skip(start as int),
            digits == (if text@.len() > 0 && text@[0] == '+' { text@.drop_first() } else { text@ }),
            forall|k: int| start <= k < i ==> '0' <= #[trigger] chars@[k] <= '9',
            value == digits_value(digits.take(i - start)),
        decreases chars@.len() - i,
    {
        let c = chars[i];
        assert(digits.take(i + 1 - start).drop_last() =~= digits.take(i - start));
        assert(digits.take(i + 1 - start).last() == c);
        if c < '0' || c > '9' {
            assert(!all_digits(digits)) by {
                assert(digits[i - start] == c);
            }
            return None;
        }
        let d = (c as u32 - '0' as u32) as u64;
        if value > (u64::MAX - d) / 10 {
            proof {
                assert(digits_value(digits.take(i + 1 - start)) == value * 10 + d);
                assert(value * 10 + d > u64::MAX) by (nonlinear_arith)
                    requires
                        value > (u64::MAX - d) / 10,
                        d <= 9,
                ;
                if all_digits(digits) {
                    lemma_digits_value_grows(digits, i + 1 - start);
                }
            }
            return None;
        }
        proof {
            assert(value * 10 + d <= u64::MAX) by (nonlinear_arith)
                requires
                    value <= (u64::MAX - d) / 10,
                    d <= 9,
            ;
        }
        value = value * 10 + d;
        i = i + 1;
    }
    assert(digits.take(i - start) =~= digits);
    assert(all_digits(digits)) by {
        assert forall|k: int| 0 <= k < digits.len() implies '0' <= #[trigger] digits[k] <= '9' by {
            assert(digits[k] == chars@[k + start]);
        }
    }
    Some(value)
}

} // verus!
