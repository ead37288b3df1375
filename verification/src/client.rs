//! The Openfeed client: its settings, its session state, the requests it sends and
//! the decisions it takes on the gateway's replies. The connection itself is a value
//! of type `C` that the client holds; reading and writing it happens around these
//! functions.

use vstd::prelude::*;

use crate::error::{OpenfeedError, OpenfeedResult};
use crate::openfeed::{
    ExchangeRequest, InstrumentRequest, InstrumentTarget, InstrumentType, LoginRequest,
    LogoutRequest, OpenfeedGatewayMessage, OpenfeedGatewayRequest, Service, SubscriptionEntry,
    SubscriptionRequest, SubscriptionTarget, SubscriptionType, RESULT_SUCCESS,
};

verus! {

/// The server a default configuration connects to.
pub open spec fn default_server() -> Seq<char> {
    "openfeed.aws.barchart.com"@
}

/// The client version a login announces.
pub open spec fn client_version() -> Seq<char> {
    "rust-sdk v0"@
}

/// The protocol version a login announces.
pub const PROTOCOL_VERSION: i32 = 1;

/// Settings required for establishing a connection.
/// The server defaults to "openfeed.aws.barchart.com", username and password to empty.
#[derive(Debug)]
pub struct OpenfeedConfig {
    pub username: String,
    pub password: String,
    pub server: String,
}

impl Default for OpenfeedConfig {
    fn default() -> (c: Self)
        ensures
            c.username@ == Seq::<char>::empty(),
            c.password@ == Seq::<char>::empty(),
            c.server@ == default_server(),
    {
        OpenfeedConfig {
            username: String::new(),
            password: String::new(),
            server: String::from_str("openfeed.aws.barchart.com"),
        }
    }
}

impl OpenfeedConfig {
    /// The same settings with this username.
    pub fn username(self, username: String) -> (c: Self)
        ensures
            c.username == username,
            c.password == self.password,
            c.server == self.server,
    {
        OpenfeedConfig { username, password: self.password, server: self.server }
    }

    /// The same settings with this password.
    pub fn password(self, password: String) -> (c: Self)
        ensures
            c.username == self.username,
            c.password == password,
            c.server == self.server,
    {
        OpenfeedConfig { username: self.username, password, server: self.server }
    }

    /// The same settings with this server.
    pub fn server(self, server: String) -> (c: Self)
        ensures
            c.username == self.username,
            c.password == self.password,
            c.server == server,
    {
        OpenfeedConfig { username: self.username, password: self.password, server }
    }
}

/// The outcome of a login, given the first message the feed delivered after the
/// request (`None` when the feed ended first): the session token, or the error.
pub open spec fn login_outcome(reply: Option<OpenfeedResult<OpenfeedGatewayMessage>>) -> OpenfeedResult<String> {
    match reply {
        None => Err(OpenfeedError::StreamClosed()),
        Some(Err(e)) => Err(e),
        Some(Ok(OpenfeedGatewayMessage::LoginResponse(res))) => match res.status {
            Some(status) => if status.result == RESULT_SUCCESS {
                Ok(res.token)
            } else {
                Err(OpenfeedError::InvalidLogin(status.message))
            },
            None => Err(OpenfeedError::DeserializeError()),
        },
        Some(Ok(_)) => Err(OpenfeedError::DeserializeError()),
    }
}

/// What a logout does with one message of the feed it drains: `Ok` to go on reading,
/// or the error it stops with.
pub open spec fn logout_reply_outcome(reply: OpenfeedResult<OpenfeedGatewayMessage>) -> OpenfeedResult<()> {
    match reply {
        Err(e) => Err(e),
        Ok(OpenfeedGatewayMessage::LogoutResponse(res)) => match res.status {
            Some(status) => if status.result == RESULT_SUCCESS {
                Ok(())
            } else {
                Err(OpenfeedError::InvalidLogin(status.message))
            },
            None => Err(OpenfeedError::DeserializeError()),
        },
        Ok(_) => Ok(()),
    }
}

/// A login succeeds exactly when the first message after the request is a login
/// response whose status reports success; the session token is then the one that
/// response carries.
pub proof fn lemma_login_succeeds_iff(reply: Option<OpenfeedResult<OpenfeedGatewayMessage>>)
    ensures
        login_outcome(reply) is Ok <==> (reply matches Some(Ok(OpenfeedGatewayMessage::LoginResponse(res)))
            && res.status matches Some(status) && status.result == RESULT_SUCCESS),
        login_outcome(reply) matches Ok(token) ==> (reply matches Some(
            Ok(OpenfeedGatewayMessage::LoginResponse(res)),
        ) && res.token == token),
{
}

/// A message stops a logout exactly when it is a failed read, or a logout response
/// that carries no status or a status that does not report success.
pub proof fn lemma_logout_stops_iff(reply: OpenfeedResult<OpenfeedGatewayMessage>)
    ensures
        logout_reply_outcome(reply) is Err <==> (reply is Err || (reply matches Ok(
            OpenfeedGatewayMessage::LogoutResponse(res),
        ) && !(res.status matches Some(status) && status.result == RESULT_SUCCESS))),
{
}

/// The numbers of subscription types on the wire.
pub open spec fn subscription_type_numbers(types: Seq<SubscriptionType>) -> Seq<i32> {
    types.map_values(|t: SubscriptionType| t.spec_as_i32())
}

/// The numbers of instrument types on the wire.
pub open spec fn instrument_type_numbers(types: Seq<InstrumentType>) -> Seq<i32> {
    types.map_values(|t: InstrumentType| t.spec_as_i32())
}

/// The numbers sent for a list of subscription or instrument types come in the
/// list's order, one per type, and two positions carry the same number exactly when
/// they name the same type.
pub proof fn lemma_type_numbers_faithful(
    subscription_types: Seq<SubscriptionType>,
    instrument_types: Seq<InstrumentType>,
)
    ensures
        subscription_type_numbers(subscription_types).len() == subscription_types.len(),
        instrument_type_numbers(instrument_types).len() == instrument_types.len(),
        forall|i: int, j: int|
            0 <= i < subscription_types.len() && 0 <= j < subscription_types.len() ==> (
            subscription_type_numbers(subscription_types)[i] == subscription_type_numbers(
                subscription_types,
            )[j] <==> subscription_types[i] == subscription_types[j]),
        forall|i: int, j: int|
            0 <= i < instrument_types.len() && 0 <= j < instrument_types.len() ==> (
            instrument_type_numbers(instrument_types)[i] == instrument_type_numbers(
                instrument_types,
            )[j] <==> instrument_types[i] == instrument_types[j]),
{
    assert forall|i: int, j: int|
        0 <= i < subscription_types.len() && 0 <= j < subscription_types.len() implies (
        subscription_type_numbers(subscription_types)[i] == subscription_type_numbers(
            subscription_types,
        )[j] <==> subscription_types[i] == subscription_types[j]) by {
        crate::openfeed::lemma_subscription_type_numbers(subscription_types[i], subscription_types[j]);
    }
    assert forall|i: int, j: int|
        0 <= i < instrument_types.len() && 0 <= j < instrument_types.len() implies (
        instrument_type_numbers(instrument_types)[i] == instrument_type_numbers(
            instrument_types,
        )[j] <==> instrument_types[i] == instrument_types[j]) by {
        crate::openfeed::lemma_instrument_type_numbers(instrument_types[i], instrument_types[j]);
    }
}

/// `r` is the login request for these settings.
pub open spec fn is_login_request(r: OpenfeedGatewayRequest, config: OpenfeedConfig) -> bool {
    &&& r matches OpenfeedGatewayRequest::LoginRequest(l)
    &&& l.username == config.username
    &&& l.password == config.password
    &&& l.client_version@ == client_version()
    &&& l.protocol_version == PROTOCOL_VERSION
}

/// `r` subscribes to one entry per target, in order, each with the same subscription
/// and instrument types, for the service, under the token.
pub open spec fn is_subscription_request(
    r: OpenfeedGatewayRequest,
    token: String,
    targets: Seq<SubscriptionTarget>,
    subscription_types: Seq<SubscriptionType>,
    instrument_types: Seq<InstrumentType>,
    service: Service,
) -> bool {
    &&& r matches OpenfeedGatewayRequest::SubscriptionRequest(s)
    &&& s.token == token
    &&& s.service == service.spec_as_i32()
    &&& s.requests@.len() == targets.len()
    &&& forall|i: int|
        0 <= i < targets.len() ==> {
            &&& (#[trigger] s.requests@[i]).data == targets[i]
            &&& s.requests@[i].subscription_type@ == subscription_type_numbers(subscription_types)
            &&& s.requests@[i].instrument_type@ == instrument_type_numbers(instrument_types)
        }
}

/// `r` asks for the instrument definitions of the target under the token.
pub open spec fn is_instrument_request(r: OpenfeedGatewayRequest, token: String, target: InstrumentTarget) -> bool {
    &&& r matches OpenfeedGatewayRequest::InstrumentRequest(q)
    &&& q.token == token
    &&& q.request == target
}

/// A client for the Openfeed protocol: its settings, the connection once it is
/// established (a value of type `C`), and the session token once logged in.
pub struct OpenfeedClient<C> {
    config: OpenfeedConfig,
    connection: Option<C>,
    token: Option<String>,
}

impl<C> OpenfeedClient<C> {
    /// The client's settings.
    pub closed spec fn spec_config(&self) -> OpenfeedConfig {
        self.config
    }

    /// The client's connection, once established.
    pub closed spec fn spec_connection(&self) -> Option<C> {
        self.connection
    }

    /// The session token, once logged in.
    pub closed spec fn spec_token(&self) -> Option<String> {
        self.token
    }

    /// A session token is held only together with a connection.
    pub open spec fn token_has_connection(&self) -> bool {
        self.spec_token() is Some ==> self.spec_connection() is Some
    }

    /// A client with these settings, not yet connected nor logged in.
    pub fn new(config: OpenfeedConfig) -> (c: Self)
        ensures
            c.spec_config() == config,
            c.spec_connection() is None,
            c.spec_token() is None,
            c.token_has_connection(),
    {
        OpenfeedClient { config, connection: None, token: None }
    }

    /// The websocket address of the configured server.
    pub fn connection_url(&self) -> (url: String)
        ensures
            url@ == "ws://"@ + self.spec_config().server@ + "/ws"@,
    {
        let mut url = String::from_str("ws://");
        url.append(self.config.server.as_str());
        url.append("/ws");
        url
    }

    /// Holds the newly established connection; the session token, if any, stays.
    pub fn attach_connection(&mut self, connection: C)
        ensures
            final(self).spec_connection() == Some(connection),
            final(self).spec_config() == old(self).spec_config(),
            final(self).spec_token() == old(self).spec_token(),
            final(self).token_has_connection(),
    {
        self.connection = Some(connection);
    }

    /// The login request for the client's settings.
    pub fn login_request(&self) -> (r: OpenfeedGatewayRequest)
        ensures
            is_login_request(r, self.spec_config()),
    {
        OpenfeedGatewayRequest::LoginRequest(
            LoginRequest {
                username: self.config.username.clone(),
                password: self.config.password.clone(),
                client_version: String::from_str("rust-sdk v0"),
                protocol_version: PROTOCOL_VERSION,
            },
        )
    }

    /// Concludes a login from the first message the feed delivered after the request
    /// (`None` when the feed ended first) on the client's connection: on success the
    /// client keeps the session token; otherwise it returns the error and keeps its
    /// former token.
    pub fn complete_login(&mut self, reply: Option<OpenfeedResult<OpenfeedGatewayMessage>>) -> (r:
        OpenfeedResult<()>)
        requires
            old(self).spec_connection() is Some,
        ensures
            match login_outcome(reply) {
                Ok(token) => r is Ok && final(self).spec_token() == Some(token),
                Err(e) => r == Err::<(), OpenfeedError>(e) && final(self).spec_token() == old(
                    self,
                ).spec_token(),
            },
            final(self).spec_config() == old(self).spec_config(),
            final(self).spec_connection() == old(self).spec_connection(),
            final(self).token_has_connection(),
    {
        match reply {
            None => Err(OpenfeedError::StreamClosed()),
            Some(Err(e)) => Err(e),
            Some(Ok(OpenfeedGatewayMessage::LoginResponse(res))) => match res.status {
                Some(status) => {
                    if status.is_success() {
                        self.token = Some(res.token);
                        Ok(())
                    } else {
                        Err(OpenfeedError::InvalidLogin(status.message))
                    }
                },
                None => Err(OpenfeedError::DeserializeError()),
            },
            Some(Ok(_)) => Err(OpenfeedError::DeserializeError()),
        }
    }

    /// The logout request for the current session.
    pub fn logout_request(&self) -> (r: OpenfeedGatewayRequest)
        requires
            self.spec_token() is Some,
        ensures
            r matches OpenfeedGatewayRequest::LogoutRequest(l) && l.token == self.spec_token()->0,
    {
        OpenfeedGatewayRequest::LogoutRequest(LogoutRequest { token: self.token() })
    }

    /// Judges one message of the feed that a logout drains until the server closes
    /// it: a failed logout reply or a malformed one stops the logout with an error,
    /// as does a failed read; any other message is passed over.
    pub fn on_logout_reply(reply: OpenfeedResult<OpenfeedGatewayMessage>) -> (r: OpenfeedResult<()>)
        ensures
            r == logout_reply_outcome(reply),
    {
        match reply {
            Err(e) => Err(e),
            Ok(OpenfeedGatewayMessage::LogoutResponse(res)) => match res.status {
                Some(status) => {
                    if status.is_success() {
                        Ok(())
                    } else {
                        Err(OpenfeedError::InvalidLogin(status.message))
                    }
                },
                None => Err(OpenfeedError::DeserializeError()),
            },
            Ok(_) => Ok(()),
        }
    }

    /// The request that subscribes to the given symbols.
    pub fn subscribe_symbols(
        &self,
        symbols: Vec<String>,
        subscription_types: &[SubscriptionType],
        service: Service,
    ) -> (r: OpenfeedGatewayRequest)
        requires
            self.spec_token() is Some,
        ensures
            is_subscription_request(
                r,
                self.spec_token()->0,
                symbols@.map_values(|s: String| SubscriptionTarget::Symbol(s)),
                subscription_types@,
                Seq::empty(),
                service,
            ),
    {
        let ghost names = symbols@;
        let mut targets: Vec<SubscriptionTarget> = Vec::new();
        for s in it: symbols.into_iter()
            invariant
                it.seq() == names,
                targets@ == it.seq().take(it.index() as int).map_values(
                    |s: String| SubscriptionTarget::Symbol(s),
                ),
        {
            targets.push(SubscriptionTarget::Symbol(s));
        }
        let no_instrument_types: Vec<InstrumentType> = Vec::new();
        self.create_subscription_request(
            targets,
            subscription_types,
            no_instrument_types.as_slice(),
            service,
        )
    }

    /// The request that subscribes to every instrument of the given exchanges.
    pub fn subscribe_exchanges(
        &self,
        exchanges: Vec<String>,
        subscription_types: &[SubscriptionType],
        instrument_types: &[InstrumentType],
        service: Service,
    ) -> (r: OpenfeedGatewayRequest)
        requires
            self.spec_token() is Some,
        ensures
            is_subscription_request(
                r,
                self.spec_token()->0,
                exchanges@.map_values(|s: String| SubscriptionTarget::Exchange(s)),
                subscription_types@,
                instrument_types@,
                service,
            ),
    {
        let ghost names = exchanges@;
        let mut targets: Vec<SubscriptionTarget> = Vec::new();
        for s in it: exchanges.into_iter()
            invariant
                it.seq() == names,
                targets@ == it.seq().take(it.index() as int).map_values(
                    |s: String| SubscriptionTarget::Exchange(s),
                ),
        {
            targets.push(SubscriptionTarget::Exchange(s));
        }
        self.create_subscription_request(targets, subscription_types, instrument_types, service)
    }

    /// The request for the instrument definition of a symbol.
    pub fn request_instrument(&self, symbol: String) -> (r: OpenfeedGatewayRequest)
        requires
            self.spec_token() is Some,
        ensures
            is_instrument_request(r, self.spec_token()->0, InstrumentTarget::Symbol(symbol)),
    {
        self.create_instrument_request(InstrumentTarget::Symbol(symbol))
    }

    /// The request for all instrument definitions of an exchange.
    pub fn request_instruments_for_exchange(&self, exchange: String) -> (r: OpenfeedGatewayRequest)
        requires
            self.spec_token() is Some,
        ensures
            is_instrument_request(r, self.spec_token()->0, InstrumentTarget::Exchange(exchange)),
    {
        self.create_instrument_request(InstrumentTarget::Exchange(exchange))
    }

    /// The request for the available exchanges.
    pub fn request_exchanges(&self) -> (r: OpenfeedGatewayRequest)
        requires
            self.spec_token() is Some,
        ensures
            r matches OpenfeedGatewayRequest::ExchangeRequest(q) && q.token == self.spec_token()->0,
    {
        OpenfeedGatewayRequest::ExchangeRequest(ExchangeRequest { token: self.token() })
    }

    fn create_subscription_request(
        &self,
        targets: Vec<SubscriptionTarget>,
        subscription_types: &[SubscriptionType],
        instrument_types: &[InstrumentType],
        service: Service,
    ) -> (r: OpenfeedGatewayRequest)
        requires
            self.spec_token() is Some,
        ensures
            is_subscription_request(
                r,
                self.spec_token()->0,
                targets@,
                subscription_types@,
                instrument_types@,
                service,
            ),
    {
        let ghost all = targets@;
        let mut requests: Vec<SubscriptionEntry> = Vec::new();
        for data in it: targets.into_iter()
            invariant
                it.seq() == all,
                requests@.len() == it.index(),
                forall|i: int|
                    0 <= i < it.index() ==> {
                        &&& (#[trigger] requests@[i]).data == all[i]
                        &&& requests@[i].subscription_type@ == subscription_type_numbers(
                            subscription_types@,
                        )
                        &&& requests@[i].instrument_type@ == instrument_type_numbers(
                            instrument_types@,
                        )
                    },
        {
            requests.push(
                SubscriptionEntry {
                    data,
                    subscription_type: subscription_type_numbers_of(subscription_types),
                    instrument_type: instrument_type_numbers_of(instrument_types),
                },
            );
        }
        OpenfeedGatewayRequest::SubscriptionRequest(
            SubscriptionRequest { token: self.token(), service: service.as_i32(), requests },
        )
    }

    fn create_instrument_request(&self, request: InstrumentTarget) -> (r: OpenfeedGatewayRequest)
        requires
            self.spec_token() is Some,
        ensures
            is_instrument_request(r, self.spec_token()->0, request),
    {
        OpenfeedGatewayRequest::InstrumentRequest(
            InstrumentRequest { token: self.token(), request },
        )
    }

    /// Whether a connection has been established.
    pub fn is_connected(&self) -> (b: bool)
        ensures
            b == self.spec_connection() is Some,
    {
        self.connection.is_some()
    }

    /// Whether a session token is held.
    pub fn has_token(&self) -> (b: bool)
        ensures
            b == self.spec_token() is Some,
    {
        self.token.is_some()
    }

    /// The established connection; there must be one.
    pub fn connection(&self) -> (c: &C)
        requires
            self.spec_connection() is Some,
        ensures
            *c == self.spec_connection()->0,
    {
        self.connection.as_ref().unwrap()
    }

    /// A copy of the session token; there must be one.
    pub fn token(&self) -> (t: String)
        requires
            self.spec_token() is Some,
        ensures
            t == self.spec_token()->0,
    {
        self.token.as_ref().unwrap().clone()
    }
}

fn subscription_type_numbers_of(types: &[SubscriptionType]) -> (v: Vec<i32>)
    ensures
        v@ == subscription_type_numbers(types@),
{
    let mut v: Vec<i32> = Vec::new();
    let mut i: usize = 0;
    while i < types.len()
        invariant
            i <= types@.len(),
            v@ =~= subscription_type_numbers(types@.take(i as int)),
        decreases types@.len() - i,
    {
        v.push(types[i].as_i32());
        assert(types@.take(i + 1) =~= types@.take(i as int).push(types@[i as int]));
        i = i + 1;
    }
    assert(types@.take(i as int) =~= types@);
    v
}

fn instrument_type_numbers_of(types: &[InstrumentType]) -> (v: Vec<i32>)
    ensures
        v@ == instrument_type_numbers(types@),
{
    let mut v: Vec<i32> = Vec::new();
    let mut i: usize = 0;
    while i < types.len()
        invariant
            i <= types@.len(),
            v@ =~= instrument_type_numbers(types@.take(i as int)),
        decreases types@.len() - i,
    {
        v.push(types[i].as_i32());
        assert(types@.take(i + 1) =~= types@.take(i as int).push(types@[i as int]));
        i = i + 1;
    }
    assert(types@.take(i as int) =~= types@);
    v
}

} // verus!
