use std::marker::PhantomData;
use vstd::prelude::*;
use crate::error::APIError;
use crate::error::APIErrorView;
use crate::error::STATUS_METHOD_NOT_ALLOWED;
use crate::json::body_or_internal_error;
use crate::json::decimal_text;
use crate::json::decimal_value;
use crate::json::json_string_text;
use crate::json::lemma_decimal_round_trip;
use crate::json::string_to_json;
use crate::json::u64_to_json;
use crate::request::ChainSnapshot;
use crate::request::ChainState;
use crate::request::Method;
use crate::request::Request;
use crate::request::missing_chain_desc;
use crate::response::APIResult;
use crate::response::ContentType;
use crate::response::Response;
use crate::response::ResponseView;
use crate::response::STATUS_OK;
use crate::response::SuccessView;
use crate::response::envelope;
use crate::response::result_to_response;
use crate::response::result_view;
use crate::response::success_response;
use crate::router::Endpoint;
use crate::router::Route;
use crate::router::RouteError;
use crate::router::RouteErrorView;
use crate::router::RouteTable;
use crate::router::RouteView;
use crate::router::registered_both;
use crate::router::table_result_view;

verus! {

/// A string which uniquely identifies the client implementation and its
/// version, similar to an HTTP user agent.
#[derive(Clone, Debug, PartialEq, Eq)]
pub struct Version(pub String);

impl View for Version {
    type V = Seq<char>;

    open spec fn view(&self) -> Seq<char> {
        self.0@
    }
}

impl From<String> for Version {
    fn from(x: String) -> (version: Version) {
        Version(x)
    }
}

impl vstd::std_specs::convert::FromSpecImpl<String> for Version {
    open spec fn obeys_from_spec() -> bool {
        true
    }

    open spec fn from_spec(x: String) -> Version {
        Version(x)
    }
}

impl Version {
    /// Serializes the identity string as a JSON string.
    pub fn to_json(&self) -> (body: Result<String, APIError>)
        ensures
            body is Ok,
            body->Ok_0@ == json_string_text(self@),
    {
        body_or_internal_error(string_to_json(self.0.as_str()))
    }
}

/// The genesis time configured for the node: the Unix time at which the chain
/// began.
#[derive(Clone, Copy, Debug, PartialEq, Eq)]
pub struct GenesisTime(pub u64);

impl View for GenesisTime {
    type V = nat;

    open spec fn view(&self) -> nat {
        self.0 as nat
    }
}

impl From<u64> for GenesisTime {
    fn from(x: u64) -> (time: GenesisTime) {
        GenesisTime(x)
    }
}

impl vstd::std_specs::convert::FromSpecImpl<u64> for GenesisTime {
    open spec fn obeys_from_spec() -> bool {
        true
    }

    open spec fn from_spec(x: u64) -> GenesisTime {
        GenesisTime(x)
    }
}

impl GenesisTime {
    /// Serializes the time as a JSON number: its decimal numeral.
    pub fn to_json(&self) -> (body: Result<String, APIError>)
        ensures
            body is Ok,
            body->Ok_0@ == decimal_text(self@),
    {
        body_or_internal_error(u64_to_json(self.0))
    }
}

/// Path of the route that reports the client version.
pub open spec fn version_path() -> Seq<char> {
    "/version"@
}

/// Path of the route that reports the genesis time.
pub open spec fn genesis_time_path() -> Seq<char> {
    "/genesis_time"@
}

/// Start of the description of a request with a wrong method.
pub open spec fn invalid_method_prefix() -> Seq<char> {
    "Invalid Method for request to: "@
}

/// Description of a request with a wrong method: it names the request's path.
pub open spec fn invalid_method_desc(path: Seq<char>) -> Seq<char> {
    invalid_method_prefix() + path
}

/// The failure that stands for a request to `path` with a wrong method.
pub open spec fn method_not_allowed(path: Seq<char>) -> APIErrorView {
    APIErrorView::MethodNotAllowed { desc: invalid_method_desc(path) }
}

/// The description of a wrong method is never empty.
pub proof fn lemma_invalid_method_desc_not_empty(path: Seq<char>)
    ensures
        invalid_method_desc(path).len() > 0,
{
    reveal_strlit("Invalid Method for request to: ");
}

/// Checks a request before its handler reads anything: the method must be GET.
/// Any other method is refused as `MethodNotAllowed`, with a description that
/// names the request's path.
pub fn validate_request<C>(req: &Request<C>) -> (outcome: Result<(), APIError>)
    ensures
        req.method == Method::Get ==> outcome is Ok,
        req.method != Method::Get ==> outcome is Err && outcome->Err_0@ == method_not_allowed(
            req.path@,
        ),
{
    if req.method != Method::Get {
        let desc = String::from_str("Invalid Method for request to: ").concat(req.path.as_str());
        return Err(APIError::MethodNotAllowed { desc });
    }
    Ok(())
}

/// What a request for the version is answered with: on GET, status 200 and the
/// JSON text of the identity string; on any other method, `MethodNotAllowed`.
pub open spec fn version_result(method: Method, path: Seq<char>, version: Seq<char>) -> Result<
    SuccessView,
    APIErrorView,
> {
    if method == Method::Get {
        Ok(SuccessView { status: STATUS_OK, body: json_string_text(version) })
    } else {
        Err(method_not_allowed(path))
    }
}

/// What a snapshot's genesis time is answered with: status 200 and the time's
/// decimal numeral.
pub open spec fn genesis_time_success(snapshot: ChainSnapshot) -> Result<
    SuccessView,
    APIErrorView,
> {
    Ok(SuccessView { status: STATUS_OK, body: decimal_text(snapshot.genesis_time as nat) })
}

/// Reports the client's identity string, which the caller reads from the
/// build. The chain state is not touched.
pub fn get_version<C>(req: Request<C>, version: String) -> (result: APIResult)
    ensures
        result_view(result) == version_result(req.method, req.path@, version@),
{
    match validate_request(&req) {
        Err(error) => Err(error),
        Ok(()) => {
            let ver = Version::from(version);
            match ver.to_json() {
                Err(error) => Err(error),
                Ok(body) => Ok(success_response(body)),
            }
        },
    }
}

/// Answers with the genesis time of a snapshot that was taken for the request.
pub fn genesis_time_response(snapshot: ChainSnapshot) -> (result: APIResult)
    ensures
        result_view(result) == genesis_time_success(snapshot),
{
    let time = GenesisTime::from(snapshot.genesis_time);
    match time.to_json() {
        Err(error) => Err(error),
        Ok(body) => Ok(success_response(body)),
    }
}

/// Whether `outcome` answers a request for the genesis time: a wrong method is
/// refused; with the right method, a missing chain-state handle is an internal
/// error, and otherwise the answer is that of a snapshot which the handle may
/// return.
pub open spec fn genesis_time_outcome<C: ChainState>(
    req: Request<C>,
    outcome: Result<SuccessView, APIErrorView>,
) -> bool {
    if req.method != Method::Get {
        outcome == Err::<SuccessView, APIErrorView>(method_not_allowed(req.path@))
    } else if req.chain is None {
        outcome == Err::<SuccessView, APIErrorView>(
            APIErrorView::InternalError { desc: missing_chain_desc() },
        )
    } else {
        exists|snapshot: ChainSnapshot|
            call_ensures(C::current_state, (&req.chain->0,), snapshot) && outcome
                == #[trigger] genesis_time_success(snapshot)
    }
}

/// Reports the genesis time of the current chain state. The request is
/// validated first; only then is the chain-state handle taken from the request
/// and one snapshot read from it. The answer is that of
/// [`genesis_time_response`] for a snapshot that the handle returned.
pub fn get_genesis_time<C: ChainState>(req: Request<C>) -> (result: APIResult)
    ensures
        genesis_time_outcome(req, result_view(result)),
{
    match validate_request(&req) {
        Err(error) => Err(error),
        Ok(()) => match req.chain_state() {
            Err(error) => Err(error),
            Ok(beacon_chain) => {
                let gen_time = {
                    let state = beacon_chain.current_state();
                    state
                };
                genesis_time_response(gen_time)
            },
        },
    }
}

/// Runs the handler of an endpoint and wraps its result for the wire. Any
/// method but GET is answered with status 405 and a plain-text description
/// that is not empty.
pub fn respond<C: ChainState>(endpoint: Endpoint, req: Request<C>, version: String) -> (response:
    Response)
    ensures
        req.method != Method::Get ==> response@ == (ResponseView {
            status: STATUS_METHOD_NOT_ALLOWED,
            content_type: ContentType::PlainText,
            body: invalid_method_desc(req.path@),
        }) && response.body@.len() > 0,
        req.method == Method::Get && endpoint == Endpoint::Version ==> response@ == (ResponseView {
            status: STATUS_OK,
            content_type: ContentType::Json,
            body: json_string_text(version@),
        }),
        req.method == Method::Get && endpoint == Endpoint::GenesisTime && req.chain is None
            ==> response@ == envelope(
            Err(APIErrorView::InternalError { desc: missing_chain_desc() }),
        ),
        req.method == Method::Get && endpoint == Endpoint::GenesisTime && req.chain is Some
            ==> exists|snapshot: ChainSnapshot|
            call_ensures(C::current_state, (&req.chain->0,), snapshot) && response@
                == #[trigger] envelope(genesis_time_success(snapshot)),
{
    proof {
        lemma_invalid_method_desc_not_empty(req.path@);
    }
    let result = match endpoint {
        Endpoint::Version => get_version(req, version),
        Endpoint::GenesisTime => get_genesis_time(req),
    };
    result_to_response(result)
}

/// Two GET requests for the genesis time that carry the same chain-state
/// handle are answered identically, provided the handle has not changed
/// between them: every snapshot that it may return has the same genesis time.
pub proof fn lemma_genesis_time_is_repeatable<C: ChainState>(
    first_req: Request<C>,
    second_req: Request<C>,
    first: Result<SuccessView, APIErrorView>,
    second: Result<SuccessView, APIErrorView>,
)
    requires
        first_req.method == Method::Get,
        second_req.method == Method::Get,
        first_req.chain == second_req.chain,
        genesis_time_outcome(first_req, first),
        genesis_time_outcome(second_req, second),
        first_req.chain is Some ==> forall|a: ChainSnapshot, b: ChainSnapshot|
            #[trigger] call_ensures(C::current_state, (&first_req.chain->0,), a)
                && #[trigger] call_ensures(C::current_state, (&first_req.chain->0,), b)
                ==> a.genesis_time == b.genesis_time,
    ensures
        first == second,
        envelope(first) == envelope(second),
{
    if first_req.chain is Some {
        let a = choose|snapshot: ChainSnapshot|
            call_ensures(C::current_state, (&first_req.chain->0,), snapshot) && first
                == #[trigger] genesis_time_success(snapshot);
        let b = choose|snapshot: ChainSnapshot|
            call_ensures(C::current_state, (&second_req.chain->0,), snapshot) && second
                == #[trigger] genesis_time_success(snapshot);
        assert(a.genesis_time == b.genesis_time);
    }
}

/// A fixed snapshot answers every GET request for the genesis time with
/// status 200 and its own genesis time.
pub proof fn lemma_fixed_snapshot_outcome(
    req: Request<ChainSnapshot>,
    outcome: Result<SuccessView, APIErrorView>,
)
    requires
        req.method == Method::Get,
        req.chain is Some,
        genesis_time_outcome(req, outcome),
    ensures
        outcome == genesis_time_success(req.chain->0),
{
}

/// The body sent for a snapshot reads back as exactly the snapshot's genesis
/// time, so snapshots with different times are answered differently.
pub proof fn lemma_genesis_time_body_reads_back(snapshot: ChainSnapshot)
    ensures
        genesis_time_success(snapshot) is Ok,
        genesis_time_success(snapshot)->Ok_0.status == STATUS_OK,
        decimal_value(genesis_time_success(snapshot)->Ok_0.body) == snapshot.genesis_time,
{
    lemma_decimal_round_trip(snapshot.genesis_time as nat);
}

/// A module that exposes endpoints attaches its routes to the shared table
/// once, at startup.
pub trait APIService {
    /// Adds the module's routes to the table, or fails where the table cannot
    /// take them.
    fn add_routes(&mut self, router_builder: RouteTable) -> Result<RouteTable, RouteError>;
}

/// The module that exposes the node's identity and genesis facts, for a chain
/// state of type `C`.
pub struct BeaconNodeServiceInstance<C> {
    pub marker: PhantomData<C>,
}

impl<C> Clone for BeaconNodeServiceInstance<C> {
    fn clone(&self) -> (copy: Self) {
        BeaconNodeServiceInstance { marker: PhantomData }
    }
}

/// The route that reports the client version.
pub open spec fn version_route() -> RouteView {
    RouteView { method: Method::Get, path: version_path(), handler: Endpoint::Version }
}

/// The route that reports the genesis time.
pub open spec fn genesis_time_route() -> RouteView {
    RouteView { method: Method::Get, path: genesis_time_path(), handler: Endpoint::GenesisTime }
}

/// The table after this module's registration: the version route, then the
/// genesis-time route, each refused if its method and path are taken.
pub open spec fn beacon_node_routes(routes: Seq<RouteView>) -> Result<
    Seq<RouteView>,
    RouteErrorView,
> {
    registered_both(routes, version_route(), genesis_time_route())
}

impl<C> APIService for BeaconNodeServiceInstance<C> {
    /// Registers GET `/version` and GET `/genesis_time`, in this order.
    fn add_routes(&mut self, router_builder: RouteTable) -> (result: Result<
        RouteTable,
        RouteError,
    >)
        ensures
            *final(self) == *old(self),
            table_result_view(result) == beacon_node_routes(router_builder@),
    {
        let version = Route {
            method: Method::Get,
            path: String::from_str("/version"),
            handler: Endpoint::Version,
        };
        let genesis_time = Route {
            method: Method::Get,
            path: String::from_str("/genesis_time"),
            handler: Endpoint::GenesisTime,
        };
        match router_builder.add(version) {
            Err(error) => Err(error),
            Ok(router_builder) => router_builder.add(genesis_time),
        }
    }
}

/// On an empty table the module's registration succeeds and leaves exactly
/// its two routes, which differ in their paths.
pub proof fn lemma_beacon_node_routes_on_empty_table()
    ensures
        beacon_node_routes(Seq::empty()) == Ok::<Seq<RouteView>, RouteErrorView>(
            seq![version_route(), genesis_time_route()],
        ),
{
    reveal_strlit("/version");
    reveal_strlit("/genesis_time");
    let empty = Seq::<RouteView>::empty();
    let one = empty.push(version_route());
    assert(version_path().len() != genesis_time_path().len());
    assert(one.len() == 1);
    assert forall|i: int| 0 <= i < one.len() implies !((#[trigger] one[i]).method == Method::Get
        && one[i].path == genesis_time_path()) by {
        assert(one[i] == version_route());
    }
    assert(one.push(genesis_time_route()) =~= seq![version_route(), genesis_time_route()]);
}

} // verus!
