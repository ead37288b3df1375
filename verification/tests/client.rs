use sdk_rust::client::{OpenfeedClient, OpenfeedConfig};
use sdk_rust::error::OpenfeedError;
use sdk_rust::openfeed::{
    InstrumentTarget, InstrumentType, LoginResponse, LogoutResponse, OpenfeedGatewayMessage,
    OpenfeedGatewayRequest, Service, Status, SubscriptionTarget, SubscriptionType,
};

fn config() -> OpenfeedConfig {
    OpenfeedConfig::default()
        .username("user".to_string())
        .password("pass".to_string())
}

fn login_reply(result: i32, message: &str, token: &str) -> OpenfeedGatewayMessage {
    OpenfeedGatewayMessage::LoginResponse(LoginResponse {
        status: Some(Status { result, message: message.to_string() }),
        token: token.to_string(),
    })
}

fn connected() -> OpenfeedClient<u32> {
    let mut c: OpenfeedClient<u32> = OpenfeedClient::new(config());
    c.attach_connection(7);
    c
}

fn logged_in() -> OpenfeedClient<u32> {
    let mut c = connected();
    assert!(c.complete_login(Some(Ok(login_reply(1, "", "tok-1")))).is_ok());
    c
}

#[test]
fn default_config_points_at_barchart() {
    let c = OpenfeedConfig::default();
    assert_eq!(c.username, "");
    assert_eq!(c.password, "");
    assert_eq!(c.server, "openfeed.aws.barchart.com");
}

#[test]
fn builders_set_one_field_each() {
    let c = OpenfeedConfig::default()
        .username("u".to_string())
        .password("p".to_string())
        .server("example.org".to_string());
    assert_eq!(c.username, "u");
    assert_eq!(c.password, "p");
    assert_eq!(c.server, "example.org");
    let d = c.username("v".to_string());
    assert_eq!(d.username, "v");
    assert_eq!(d.password, "p");
    assert_eq!(d.server, "example.org");
}

#[test]
fn connection_url_wraps_server() {
    let c: OpenfeedClient<()> = OpenfeedClient::new(config().server("host:81".to_string()));
    assert_eq!(c.connection_url(), "ws://host:81/ws");
    let d: OpenfeedClient<()> = OpenfeedClient::new(OpenfeedConfig::default());
    assert_eq!(d.connection_url(), "ws://openfeed.aws.barchart.com/ws");
}

#[test]
fn login_request_carries_credentials() {
    let c: OpenfeedClient<()> = OpenfeedClient::new(config());
    match c.login_request() {
        OpenfeedGatewayRequest::LoginRequest(l) => {
            assert_eq!(l.username, "user");
            assert_eq!(l.password, "pass");
            assert_eq!(l.client_version, "rust-sdk v0");
            assert_eq!(l.protocol_version, 1);
        }
        _ => panic!("not a login request"),
    }
}

#[test]
fn attach_connection_holds_it() {
    let mut c: OpenfeedClient<u32> = OpenfeedClient::new(config());
    c.attach_connection(42);
    assert_eq!(*c.connection(), 42);
}

#[test]
fn successful_login_keeps_token() {
    let c = logged_in();
    assert_eq!(c.token(), "tok-1");
    assert_eq!(*c.connection(), 7);
}

#[test]
fn refused_login_reports_message() {
    let mut c = connected();
    let r = c.complete_login(Some(Ok(login_reply(110, "denied", "x"))));
    assert!(matches!(r, Err(OpenfeedError::InvalidLogin(ref m)) if m == "denied"));
    // an unknown result number is no success either
    let r = c.complete_login(Some(Ok(login_reply(0, "unknown", "x"))));
    assert!(matches!(r, Err(OpenfeedError::InvalidLogin(ref m)) if m == "unknown"));
}

#[test]
fn refused_login_keeps_former_token() {
    let mut c = logged_in();
    let r = c.complete_login(Some(Ok(login_reply(2, "no", "other"))));
    assert!(r.is_err());
    assert_eq!(c.token(), "tok-1");
}

#[test]
fn login_without_reply_is_stream_closed() {
    let mut c = connected();
    assert!(matches!(c.complete_login(None), Err(OpenfeedError::StreamClosed())));
}

#[test]
fn login_with_wrong_reply_is_deserialize_error() {
    let mut c = connected();
    let r = c.complete_login(Some(Ok(OpenfeedGatewayMessage::Other)));
    assert!(matches!(r, Err(OpenfeedError::DeserializeError())));
    let no_status = OpenfeedGatewayMessage::LoginResponse(LoginResponse {
        status: None,
        token: "t".to_string(),
    });
    assert!(matches!(c.complete_login(Some(Ok(no_status))), Err(OpenfeedError::DeserializeError())));
    let logout = OpenfeedGatewayMessage::LogoutResponse(LogoutResponse { status: None });
    assert!(matches!(c.complete_login(Some(Ok(logout))), Err(OpenfeedError::DeserializeError())));
}

#[test]
fn login_read_error_passes_through() {
    let mut c = connected();
    let r = c.complete_login(Some(Err(OpenfeedError::Tungstenite(
        tungstenite::Error::ConnectionClosed,
    ))));
    assert!(matches!(r, Err(OpenfeedError::Tungstenite(tungstenite::Error::ConnectionClosed))));
    let r = c.complete_login(Some(Err(OpenfeedError::NetworkRead())));
    assert!(matches!(r, Err(OpenfeedError::NetworkRead())));
}

#[test]
fn logout_request_uses_token() {
    let c = logged_in();
    match c.logout_request() {
        OpenfeedGatewayRequest::LogoutRequest(l) => assert_eq!(l.token, "tok-1"),
        _ => panic!("not a logout request"),
    }
}

#[test]
fn logout_replies_judged() {
    let ok = OpenfeedGatewayMessage::LogoutResponse(LogoutResponse {
        status: Some(Status { result: 1, message: String::new() }),
    });
    assert!(OpenfeedClient::<u32>::on_logout_reply(Ok(ok)).is_ok());
    let refused = OpenfeedGatewayMessage::LogoutResponse(LogoutResponse {
        status: Some(Status { result: 3, message: "bad token".to_string() }),
    });
    assert!(matches!(
        OpenfeedClient::<u32>::on_logout_reply(Ok(refused)),
        Err(OpenfeedError::InvalidLogin(ref m)) if m == "bad token"
    ));
    let empty = OpenfeedGatewayMessage::LogoutResponse(LogoutResponse { status: None });
    assert!(matches!(
        OpenfeedClient::<u32>::on_logout_reply(Ok(empty)),
        Err(OpenfeedError::DeserializeError())
    ));
    assert!(OpenfeedClient::<u32>::on_logout_reply(Ok(OpenfeedGatewayMessage::Other)).is_ok());
    assert!(OpenfeedClient::<u32>::on_logout_reply(Ok(login_reply(1, "", "t"))).is_ok());
    assert!(matches!(
        OpenfeedClient::<u32>::on_logout_reply(Err(OpenfeedError::FeedActive())),
        Err(OpenfeedError::FeedActive())
    ));
}

#[test]
fn subscribe_symbols_one_entry_per_symbol() {
    let c = logged_in();
    let r = c.subscribe_symbols(
        vec!["GCQ26".to_string(), "GCU26".to_string()],
        &[SubscriptionType::Quote, SubscriptionType::Ohlc],
        Service::RealTime,
    );
    match r {
        OpenfeedGatewayRequest::SubscriptionRequest(s) => {
            assert_eq!(s.token, "tok-1");
            assert_eq!(s.service, 1);
            assert_eq!(s.requests.len(), 2);
            for (entry, name) in s.requests.iter().zip(["GCQ26", "GCU26"]) {
                assert!(matches!(&entry.data, SubscriptionTarget::Symbol(n) if n == name));
                assert_eq!(entry.subscription_type, vec![1, 7]);
                assert!(entry.instrument_type.is_empty());
            }
        }
        _ => panic!("not a subscription request"),
    }
}

#[test]
fn subscribe_exchanges_carries_instrument_types() {
    let c = logged_in();
    let r = c.subscribe_exchanges(
        vec!["NYSE".to_string()],
        &[SubscriptionType::Trades],
        &[InstrumentType::Equity, InstrumentType::Option, InstrumentType::EquityOption],
        Service::Delayed,
    );
    match r {
        OpenfeedGatewayRequest::SubscriptionRequest(s) => {
            assert_eq!(s.service, 2);
            assert_eq!(s.requests.len(), 1);
            assert!(matches!(&s.requests[0].data, SubscriptionTarget::Exchange(n) if n == "NYSE"));
            assert_eq!(s.requests[0].subscription_type, vec![5]);
            assert_eq!(s.requests[0].instrument_type, vec![3, 5, 10]);
        }
        _ => panic!("not a subscription request"),
    }
}

#[test]
fn subscribe_nothing_gives_no_entries() {
    let c = logged_in();
    match c.subscribe_symbols(Vec::new(), &[], Service::EndOfDay) {
        OpenfeedGatewayRequest::SubscriptionRequest(s) => {
            assert_eq!(s.service, 5);
            assert!(s.requests.is_empty());
        }
        _ => panic!("not a subscription request"),
    }
}

#[test]
fn instrument_requests() {
    let c = logged_in();
    match c.request_instrument("ESZ5".to_string()) {
        OpenfeedGatewayRequest::InstrumentRequest(q) => {
            assert_eq!(q.token, "tok-1");
            assert!(matches!(q.request, InstrumentTarget::Symbol(ref s) if s == "ESZ5"));
        }
        _ => panic!("not an instrument request"),
    }
    match c.request_instruments_for_exchange("CME".to_string()) {
        OpenfeedGatewayRequest::InstrumentRequest(q) => {
            assert!(matches!(q.request, InstrumentTarget::Exchange(ref s) if s == "CME"));
        }
        _ => panic!("not an instrument request"),
    }
    match c.request_exchanges() {
        OpenfeedGatewayRequest::ExchangeRequest(q) => assert_eq!(q.token, "tok-1"),
        _ => panic!("not an exchange request"),
    }
}

#[test]
fn enumeration_numbers() {
    assert_eq!(Service::UnknownService.as_i32(), 0);
    assert_eq!(Service::RealTimeSnapshot.as_i32(), 3);
    assert_eq!(SubscriptionType::All.as_i32(), 0);
    assert_eq!(SubscriptionType::Settlement.as_i32(), 9);
    assert_eq!(InstrumentType::Future.as_i32(), 4);
    assert!(Status { result: 1, message: String::new() }.is_success());
    assert!(!Status { result: 0, message: String::new() }.is_success());
}
