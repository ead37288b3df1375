//! The Openfeed gateway messages that the client builds and inspects, held as plain
//! values. Enumerations travel on the wire as their `i32` numbers, as in the
//! protocol's schema.

use vstd::prelude::*;

verus! {

/// The data service a subscription asks for.
#[derive(Clone, Copy, Debug, PartialEq, Eq)]
pub enum Service {
    UnknownService,
    RealTime,
    Delayed,
    RealTimeSnapshot,
    DelayedSnapshot,
    EndOfDay,
}

impl Service {
    /// The number of the service in the protocol's schema.
    pub open spec fn spec_as_i32(self) -> i32 {
        match self {
            Service::UnknownService => 0,
            Service::RealTime => 1,
            Service::Delayed => 2,
            Service::RealTimeSnapshot => 3,
            Service::DelayedSnapshot => 4,
            Service::EndOfDay => 5,
        }
    }

    pub fn as_i32(&self) -> (n: i32)
        ensures
            n == self.spec_as_i32(),
            *self == Service::UnknownService ==> n == 0,
            *self == Service::RealTime ==> n == 1,
            *self == Service::Delayed ==> n == 2,
            *self == Service::RealTimeSnapshot ==> n == 3,
            *self == Service::DelayedSnapshot ==> n == 4,
            *self == Service::EndOfDay ==> n == 5,
    {
        match self {
            Service::UnknownService => 0,
            Service::RealTime => 1,
            Service::Delayed => 2,
            Service::RealTimeSnapshot => 3,
            Service::DelayedSnapshot => 4,
            Service::EndOfDay => 5,
        }
    }
}

/// The kind of market data a subscription asks for.
#[derive(Clone, Copy, Debug, PartialEq, Eq)]
pub enum SubscriptionType {
    All,
    Quote,
    QuoteParticipant,
    DepthPrice,
    DepthOrder,
    Trades,
    CumlativeVolume,
    Ohlc,
    OhlcNonRegular,
    Settlement,
}

impl SubscriptionType {
    /// The number of the subscription type in the protocol's schema.
    pub open spec fn spec_as_i32(self) -> i32 {
        match self {
            SubscriptionType::All => 0,
            SubscriptionType::Quote => 1,
            SubscriptionType::QuoteParticipant => 2,
            SubscriptionType::DepthPrice => 3,
            SubscriptionType::DepthOrder => 4,
            SubscriptionType::Trades => 5,
            SubscriptionType::CumlativeVolume => 6,
            SubscriptionType::Ohlc => 7,
            SubscriptionType::OhlcNonRegular => 8,
            SubscriptionType::Settlement => 9,
        }
    }

    pub fn as_i32(&self) -> (n: i32)
        ensures
            n == self.spec_as_i32(),
            *self == SubscriptionType::All ==> n == 0,
            *self == SubscriptionType::Quote ==> n == 1,
            *self == SubscriptionType::QuoteParticipant ==> n == 2,
            *self == SubscriptionType::DepthPrice ==> n == 3,
            *self == SubscriptionType::DepthOrder ==> n == 4,
            *self == SubscriptionType::Trades ==> n == 5,
            *self == SubscriptionType::CumlativeVolume ==> n == 6,
            *self == SubscriptionType::Ohlc ==> n == 7,
            *self == SubscriptionType::OhlcNonRegular ==> n == 8,
            *self == SubscriptionType::Settlement ==> n == 9,
    {
        match self {
            SubscriptionType::All => 0,
            SubscriptionType::Quote => 1,
            SubscriptionType::QuoteParticipant => 2,
            SubscriptionType::DepthPrice => 3,
            SubscriptionType::DepthOrder => 4,
            SubscriptionType::Trades => 5,
            SubscriptionType::CumlativeVolume => 6,
            SubscriptionType::Ohlc => 7,
            SubscriptionType::OhlcNonRegular => 8,
            SubscriptionType::Settlement => 9,
        }
    }
}

/// The kind of instrument an exchange-wide subscription is narrowed to.
#[derive(Clone, Copy, Debug, PartialEq, Eq)]
pub enum InstrumentType {
    UnknownInstrumentType,
    Forex,
    Index,
    Equity,
    Future,
    Option,
    Spread,
    MutualFund,
    MoneyMarketFund,
    UserDefinedSpread,
    EquityOption,
}

impl InstrumentType {
    /// The number of the instrument type in the protocol's schema.
    pub open spec fn spec_as_i32(self) -> i32 {
        match self {
            InstrumentType::UnknownInstrumentType => 0,
            InstrumentType::Forex => 1,
            InstrumentType::Index => 2,
            InstrumentType::Equity => 3,
            InstrumentType::Future => 4,
            InstrumentType::Option => 5,
            InstrumentType::Spread => 6,
            InstrumentType::MutualFund => 7,
            InstrumentType::MoneyMarketFund => 8,
            InstrumentType::UserDefinedSpread => 9,
            InstrumentType::EquityOption => 10,
        }
    }

    pub fn as_i32(&self) -> (n: i32)
        ensures
            n == self.spec_as_i32(),
            *self == InstrumentType::UnknownInstrumentType ==> n == 0,
            *self == InstrumentType::Forex ==> n == 1,
            *self == InstrumentType::Index ==> n == 2,
            *self == InstrumentType::Equity ==> n == 3,
            *self == InstrumentType::Future ==> n == 4,
            *self == InstrumentType::Option ==> n == 5,
            *self == InstrumentType::Spread ==> n == 6,
            *self == InstrumentType::MutualFund ==> n == 7,
            *self == InstrumentType::MoneyMarketFund ==> n == 8,
            *self == InstrumentType::UserDefinedSpread ==> n == 9,
            *self == InstrumentType::EquityOption ==> n == 10,
    {
        match self {
            InstrumentType::UnknownInstrumentType => 0,
            InstrumentType::Forex => 1,
            InstrumentType::Index => 2,
            InstrumentType::Equity => 3,
            InstrumentType::Future => 4,
            InstrumentType::Option => 5,
            InstrumentType::Spread => 6,
            InstrumentType::MutualFund => 7,
            InstrumentType::MoneyMarketFund => 8,
            InstrumentType::UserDefinedSpread => 9,
            InstrumentType::EquityOption => 10,
        }
    }
}

/// Each service travels as its number in the protocol's schema, and distinct services
/// travel as distinct numbers.
pub proof fn lemma_service_numbers(a: Service, b: Service)
    ensures
        Service::UnknownService.spec_as_i32() == 0,
        Service::RealTime.spec_as_i32() == 1,
        Service::Delayed.spec_as_i32() == 2,
        Service::RealTimeSnapshot.spec_as_i32() == 3,
        Service::DelayedSnapshot.spec_as_i32() == 4,
        Service::EndOfDay.spec_as_i32() == 5,
        0 <= a.spec_as_i32() <= 5,
        a.spec_as_i32() == b.spec_as_i32() <==> a == b,
{
}

/// Each subscription type travels as its number in the protocol's schema, and
/// distinct types travel as distinct numbers.
pub proof fn lemma_subscription_type_numbers(a: SubscriptionType, b: SubscriptionType)
    ensures
        SubscriptionType::All.spec_as_i32() == 0,
        SubscriptionType::Quote.spec_as_i32() == 1,
        SubscriptionType::QuoteParticipant.spec_as_i32() == 2,
        SubscriptionType::DepthPrice.spec_as_i32() == 3,
        SubscriptionType::DepthOrder.spec_as_i32() == 4,
        SubscriptionType::Trades.spec_as_i32() == 5,
        SubscriptionType::CumlativeVolume.spec_as_i32() == 6,
        SubscriptionType::Ohlc.spec_as_i32() == 7,
        SubscriptionType::OhlcNonRegular.spec_as_i32() == 8,
        SubscriptionType::Settlement.spec_as_i32() == 9,
        0 <= a.spec_as_i32() <= 9,
        a.spec_as_i32() == b.spec_as_i32() <==> a == b,
{
}

/// Each instrument type travels as its number in the protocol's schema, and
/// distinct types travel as distinct numbers.
pub proof fn lemma_instrument_type_numbers(a: InstrumentType, b: InstrumentType)
    ensures
        InstrumentType::UnknownInstrumentType.spec_as_i32() == 0,
        InstrumentType::Forex.spec_as_i32() == 1,
        InstrumentType::Index.spec_as_i32() == 2,
        InstrumentType::Equity.spec_as_i32() == 3,
        InstrumentType::Future.spec_as_i32() == 4,
        InstrumentType::Option.spec_as_i32() == 5,
        InstrumentType::Spread.spec_as_i32() == 6,
        InstrumentType::MutualFund.spec_as_i32() == 7,
        InstrumentType::MoneyMarketFund.spec_as_i32() == 8,
        InstrumentType::UserDefinedSpread.spec_as_i32() == 9,
        InstrumentType::EquityOption.spec_as_i32() == 10,
        0 <= a.spec_as_i32() <= 10,
        a.spec_as_i32() == b.spec_as_i32() <==> a == b,
{
}

/// The number of the `SUCCESS` result in the protocol's schema; any other number,
/// known or not, is no success.
pub const RESULT_SUCCESS: i32 = 1;

/// Credentials and client identification sent to open a session.
#[derive(Debug)]
pub struct LoginRequest {
    pub username: String,
    pub password: String,
    pub client_version: String,
    pub protocol_version: i32,
}

/// Closes the session that `token` names.
#[derive(Debug)]
pub struct LogoutRequest {
    pub token: String,
}

/// Asks for the list of available exchanges.
#[derive(Debug)]
pub struct ExchangeRequest {
    pub token: String,
}

/// What one subscription entry is about.
#[derive(Debug)]
pub enum SubscriptionTarget {
    Symbol(String),
    Exchange(String),
}

/// One entry of a subscription request.
#[derive(Debug)]
pub struct SubscriptionEntry {
    pub data: SubscriptionTarget,
    pub subscription_type: Vec<i32>,
    pub instrument_type: Vec<i32>,
}

/// Subscribes to market data for every entry of `requests`.
#[derive(Debug)]
pub struct SubscriptionRequest {
    pub token: String,
    pub service: i32,
    pub requests: Vec<SubscriptionEntry>,
}

/// What an instrument-definition request is about.
#[derive(Debug)]
pub enum InstrumentTarget {
    Symbol(String),
    Exchange(String),
}

/// Asks for instrument definitions.
#[derive(Debug)]
pub struct InstrumentRequest {
    pub token: String,
    pub request: InstrumentTarget,
}

/// A request sent to the gateway.
#[derive(Debug)]
pub enum OpenfeedGatewayRequest {
    LoginRequest(LoginRequest),
    LogoutRequest(LogoutRequest),
    SubscriptionRequest(SubscriptionRequest),
    InstrumentRequest(InstrumentRequest),
    ExchangeRequest(ExchangeRequest),
}

/// The outcome the gateway reports for a request.
#[derive(Debug)]
pub struct Status {
    pub result: i32,
    pub message: String,
}

impl Status {
    /// Whether the gateway reported success.
    pub fn is_success(&self) -> (b: bool)
        ensures
            b == (self.result == RESULT_SUCCESS),
    {
        self.result == RESULT_SUCCESS
    }
}

/// The gateway's reply to a login.
#[derive(Debug)]
pub struct LoginResponse {
    pub status: Option<Status>,
    pub token: String,
}

/// The gateway's reply to a logout.
#[derive(Debug)]
pub struct LogoutResponse {
    pub status: Option<Status>,
}

/// A message received from the gateway, as far as the client's decisions read it:
/// every kind of message other than the two replies is `Other`, as is a message
/// that carries no data.
#[derive(Debug)]
pub enum OpenfeedGatewayMessage {
    LoginResponse(LoginResponse),
    LogoutResponse(LogoutResponse),
    Other,
}

} // verus!
