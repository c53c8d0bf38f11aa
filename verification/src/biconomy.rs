//! The Biconomy data API: its routes, the two shapes of its answers, and the
//! client that looks up a gas tank balance.
//!
//! The client never touches the network. It says which request is to be sent
//! and decides, from what came back, whether the lookup is over. Whoever owns
//! the connection sends the request and hands the answer in as a [`Reply`].
use crate::header::{header_value_accepted, header_value_ok};
use vstd::prelude::*;
use vstd::string::*;

verus! {

/// Where the data API lives.
pub const DATA_API_URL: &'static str = "https://data.biconomy.io/api/v1/dapp";

/// The header that carries the operator's secret.
pub const AUTH_TOKEN_HEADER: &'static str = "authToken";

/// The header that carries the key of the dapp being asked about.
pub const API_KEY_HEADER: &'static str = "apiKey";

/// How many seconds an answer is waited for before the connection counts as
/// failed.
pub const TIMEOUT_SECS: u64 = 10;

/// A route of the Biconomy API.
#[derive(Clone, Copy, Debug, PartialEq, Eq, Structural)]
pub enum API {
    Data(Data),
}

/// The routes of the data API.
#[derive(Clone, Copy, Debug, PartialEq, Eq, Structural)]
pub enum Data {
    UniqueUser,
    UserLimits,
    GasTankBalance,
}

/// The path of a data route, below [`DATA_API_URL`].
pub open spec fn route_path(route: Data) -> Seq<char> {
    match route {
        Data::UniqueUser => "/uniqueUserData"@,
        Data::UserLimits => "/user-limt"@,
        Data::GasTankBalance => "/gas-tank-balance"@,
    }
}

/// The full address of a route.
pub open spec fn endpoint(api: API) -> Seq<char> {
    match api {
        API::Data(route) => DATA_API_URL@ + route_path(route),
    }
}

impl vstd::std_specs::convert::FromSpecImpl<API> for String {
    open spec fn obeys_from_spec() -> bool {
        false
    }

    open spec fn from_spec(item: API) -> String {
        arbitrary()
    }
}

impl From<API> for String {
    /// The address of `item`.
    fn from(item: API) -> (url: String)
        ensures
            url@ == endpoint(item),
    {
        let path = match item {
            API::Data(route) => match route {
                Data::UniqueUser => "/uniqueUserData",
                Data::UserLimits => "/user-limt",
                Data::GasTankBalance => "/gas-tank-balance",
            },
        };
        String::from_str(DATA_API_URL).concat(path)
    }
}

/// The envelope of every answer; alone, the shape in which the API reports an
/// error.
#[derive(Clone, Debug, PartialEq)]
pub struct BiconomyResponse {
    pub code: u16,
    pub message: String,
    pub response_code: u16,
}

/// The state of a gas tank. The balance in standard form is kept as the
/// decimal text in which it is shown.
#[derive(Clone, Debug, PartialEq)]
pub struct DappGasTankData {
    pub effective_balance_in_wei: u128,
    pub effective_balance_in_standard_form: String,
    pub is_below_threshold: bool,
    pub is_in_grace_period: bool,
}

/// The shape in which the API reports a balance.
#[derive(Clone, Debug, PartialEq)]
pub struct GasTankBalanceResponse {
    pub response: BiconomyResponse,
    pub dapp_gas_tank_data: DappGasTankData,
}

/// One header of a request.
#[derive(Clone, Debug, PartialEq)]
pub struct Header {
    pub name: String,
    pub value: String,
}

/// How a request asks.
#[derive(Clone, Copy, Debug, PartialEq, Eq, Structural)]
pub enum Method {
    Get,
}

/// A request, described: how it asks and where, the headers in order, and
/// how many seconds to wait for the answer.
#[derive(Clone, Debug, PartialEq)]
pub struct Request {
    pub method: Method,
    pub url: String,
    pub headers: Vec<Header>,
    pub timeout_secs: u64,
}

/// What a [`Request`] says.
pub struct RequestView {
    pub method: Method,
    pub url: Seq<char>,
    pub headers: Seq<(Seq<char>, Seq<char>)>,
    pub timeout_secs: u64,
}

impl View for Header {
    type V = (Seq<char>, Seq<char>);

    open spec fn view(&self) -> (Seq<char>, Seq<char>) {
        (self.name@, self.value@)
    }
}

impl View for Request {
    type V = RequestView;

    open spec fn view(&self) -> RequestView {
        RequestView {
            method: self.method,
            url: self.url@,
            headers: self.headers@.map_values(|h: Header| h@),
            timeout_secs: self.timeout_secs,
        }
    }
}

/// The request that asks for the balance of the dapp `api_key`, on behalf of
/// the operator `auth_token`.
pub open spec fn balance_request(auth_token: Seq<char>, api_key: Seq<char>) -> RequestView {
    RequestView {
        method: Method::Get,
        url: endpoint(API::Data(Data::GasTankBalance)),
        headers: seq![(AUTH_TOKEN_HEADER@, auth_token), (API_KEY_HEADER@, api_key)],
        timeout_secs: TIMEOUT_SECS,
    }
}

/// The shape that the next answer is decoded as.
#[derive(Clone, Copy, Debug, PartialEq, Eq, Structural)]
pub enum Awaiting {
    /// The first answer: a balance, if it decodes as one.
    Success,
    /// The second answer: the error that the first one stood for.
    Error,
}

/// What came back for a request.
#[derive(Clone, Debug, PartialEq)]
pub enum Reply {
    /// The body decoded as a balance.
    Success(GasTankBalanceResponse),
    /// The body decoded as an error.
    Error(BiconomyResponse),
    /// The body did not decode as the awaited shape.
    Undecodable,
    /// Nothing came back: the connection failed.
    Unreachable,
}

/// Why a lookup ended without an answer of either shape.
#[derive(Clone, Copy, Debug, PartialEq, Eq, Structural)]
pub enum Fault {
    /// The connection failed.
    Unreachable,
    /// The second answer did not decode as an error.
    Undecodable,
}

/// A lookup under way: one request is out, and its answer is awaited.
#[derive(Clone, Debug, PartialEq)]
pub struct Lookup {
    pub request: Request,
    pub awaiting: Awaiting,
}

/// How a lookup goes on after an answer.
#[derive(Debug, PartialEq)]
pub enum Step {
    /// The request of the lookup inside is to be sent.
    Send(Lookup),
    /// The lookup is over, with a balance or with the error the API reported.
    Done(Result<GasTankBalanceResponse, BiconomyResponse>),
    /// The lookup is over and has no answer.
    Failed(Fault),
}

impl Lookup {
    /// How many requests this lookup has sent, the one out now included.
    pub open spec fn requests_sent(self) -> nat {
        match self.awaiting {
            Awaiting::Success => 1,
            Awaiting::Error => 2,
        }
    }

    /// Whether `reply` is an answer in the shape that this lookup awaits.
    pub open spec fn decodes(self, reply: Reply) -> bool {
        match self.awaiting {
            Awaiting::Success => reply is Success,
            Awaiting::Error => reply is Error,
        }
    }

    /// The step that follows `reply`. A balance ends the lookup. A first
    /// answer that is no balance has the same request sent once more, to be
    /// read as an error. A failed connection, or a second answer that is no
    /// error, is a fault.
    pub open spec fn next(self, reply: Reply) -> Step {
        match (self.awaiting, reply) {
            (_, Reply::Unreachable) => Step::Failed(Fault::Unreachable),
            (Awaiting::Success, Reply::Success(balance)) => Step::Done(Ok(balance)),
            (Awaiting::Success, _) => Step::Send(
                Lookup { request: self.request, awaiting: Awaiting::Error },
            ),
            (Awaiting::Error, Reply::Error(error)) => Step::Done(Err(error)),
            (Awaiting::Error, _) => Step::Failed(Fault::Undecodable),
        }
    }

    /// Takes the answer to the request that is out and says how the lookup
    /// goes on.
    pub fn receive(self, reply: Reply) -> (step: Step)
        ensures
            step == self.next(reply),
    {
        match reply {
            Reply::Unreachable => Step::Failed(Fault::Unreachable),
            Reply::Success(balance) => match self.awaiting {
                Awaiting::Success => Step::Done(Ok(balance)),
                Awaiting::Error => Step::Failed(Fault::Undecodable),
            },
            Reply::Error(error) => match self.awaiting {
                Awaiting::Success => Step::Send(
                    Lookup { request: self.request, awaiting: Awaiting::Error },
                ),
                Awaiting::Error => Step::Done(Err(error)),
            },
            Reply::Undecodable => match self.awaiting {
                Awaiting::Success => Step::Send(
                    Lookup { request: self.request, awaiting: Awaiting::Error },
                ),
                Awaiting::Error => Step::Failed(Fault::Undecodable),
            },
        }
    }
}

/// Whether the balance of `api_key` can be asked for on behalf of
/// `auth_token`: the key is not empty, and both are accepted as header values.
pub open spec fn can_ask(auth_token: Seq<char>, api_key: Seq<char>) -> bool {
    api_key.len() > 0 && header_value_ok(auth_token) && header_value_ok(api_key)
}

/// A client of the data API, acting for one operator.
pub struct BiconomyClient {
    auth_token: String,
}

impl BiconomyClient {
    /// The secret that this client authenticates with.
    pub closed spec fn secret(&self) -> Seq<char> {
        self.auth_token@
    }

    /// A client that authenticates with `auth_token`.
    pub fn new(auth_token: &String) -> (client: Self)
        ensures
            client.secret() == auth_token@,
    {
        Self { auth_token: auth_token.clone() }
    }

    /// Whether this client can ask for `api_key`: see [`can_ask`].
    pub open spec fn accepts(&self, api_key: Seq<char>) -> bool {
        can_ask(self.secret(), api_key)
    }

    /// Tests [`Self::accepts`].
    pub fn can_look_up(&self, api_key: &String) -> (ok: bool)
        ensures
            ok == self.accepts(api_key@),
    {
        !api_key.as_str().is_empty() && header_value_accepted(self.auth_token.as_str())
            && header_value_accepted(api_key.as_str())
    }

    /// Begins the lookup of the gas tank balance of the dapp `api_key`: the
    /// first request is to be sent, and a balance is awaited.
    pub fn gas_tank_balance(&self, api_key: &String) -> (lookup: Lookup)
        requires
            self.accepts(api_key@),
        ensures
            lookup.request@ == balance_request(self.secret(), api_key@),
            lookup.awaiting == Awaiting::Success,
    {
        let mut headers: Vec<Header> = Vec::new();
        headers.push(
            Header { name: String::from_str(AUTH_TOKEN_HEADER), value: self.auth_token.clone() },
        );
        headers.push(Header { name: String::from_str(API_KEY_HEADER), value: api_key.clone() });
        let request = Request {
            method: Method::Get,
            url: String::from(API::Data(Data::GasTankBalance)),
            headers,
            timeout_secs: TIMEOUT_SECS,
        };
        assert(request@.headers =~= balance_request(self.auth_token@, api_key@).headers);
        Lookup { request, awaiting: Awaiting::Success }
    }
}

/// A first answer that decodes as a balance ends the lookup with that very
/// balance: no second request is sent.
pub proof fn balance_ends_lookup(lookup: Lookup, balance: GasTankBalanceResponse)
    requires
        lookup.awaiting == Awaiting::Success,
    ensures
        lookup.requests_sent() == 1,
        lookup.next(Reply::Success(balance)) == Step::Done(Ok(balance)),
        !(lookup.next(Reply::Success(balance)) is Send),
{
}

/// A first answer that came in but does not decode as a balance has the same
/// request sent exactly once more: the error decoded from the second answer
/// is the result, and whatever the second answer is, no third request
/// follows.
pub proof fn error_takes_one_more_request(lookup: Lookup, first: Reply, error: BiconomyResponse)
    requires
        lookup.awaiting == Awaiting::Success,
        !(first is Success),
        !(first is Unreachable),
    ensures
        lookup.next(first) is Send,
        lookup.next(first)->Send_0.request == lookup.request,
        lookup.next(first)->Send_0.requests_sent() == 2,
        lookup.next(first)->Send_0.next(Reply::Error(error)) == Step::Done(Err(error)),
        forall|second: Reply| !(#[trigger] lookup.next(first)->Send_0.next(second) is Send),
{
}

/// A lookup ends with a result of either shape only on an answer in the shape
/// that it awaits, and a dead connection ends it without one.
pub proof fn result_needs_awaited_shape(lookup: Lookup, reply: Reply)
    ensures
        lookup.next(reply) is Done <==> lookup.decodes(reply),
        reply is Unreachable ==> lookup.next(reply) == Step::Failed(Fault::Unreachable),
{
}

} // verus!
