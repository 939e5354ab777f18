use ccash_market::auth::{
    known_user_verdict, market_account_action, parse_basic_auth, password_verdict, AuthError,
    MarketAccountAction,
};
use ccash_market::config::{parse_u8, Config};
use ccash_market::state::{AppState, Data};

fn config_with_host(host: &str) -> Config {
    Config { host: host.to_string(), ..Config::default() }
}

#[test]
fn default_config() {
    let c = Config::default();
    assert_eq!(c.get_host(), [127, 0, 0, 1]);
    assert_eq!(c.get_port(), 3000);
    assert_eq!(c.get_ledger_host(), None);
    assert_eq!(c.get_market_username(), "market");
    assert_eq!(c.get_market_password(), "PLEASE CHANGE");
}

#[test]
fn host_parsing_skips_bad_pieces() {
    assert_eq!(config_with_host("10.x.300.4.5.6").get_host(), [10, 4, 5, 6]);
    assert_eq!(config_with_host("+1.2").get_host(), [1, 2, 0, 0]);
    assert_eq!(config_with_host("").get_host(), [0, 0, 0, 0]);
    assert_eq!(config_with_host("0.0.0.0").get_host(), [0, 0, 0, 0]);
    assert_eq!(config_with_host("192.168.001.255").get_host(), [192, 168, 1, 255]);
    assert_eq!(config_with_host("-1..256.7").get_host(), [7, 0, 0, 0]);
}

#[test]
fn byte_parsing() {
    let p = |s: &str| parse_u8(&s.chars().collect());
    assert_eq!(p("255"), Some(255));
    assert_eq!(p("256"), None);
    assert_eq!(p("+7"), Some(7));
    assert_eq!(p("+"), None);
    assert_eq!(p(""), None);
    assert_eq!(p("-0"), None);
    assert_eq!(p("00012"), Some(12));
    assert_eq!(p("1a"), None);
    assert_eq!(p("99999999999999999999"), None);
}

#[test]
fn from_config_and_properties() {
    let mut config = Config::default();
    let state = AppState::from_config(&config, Data::new());
    let props = state.as_properties();
    assert_eq!(props.ledger_host, "Unset");
    assert_eq!(props.market_username, "Unknown");
    config.ledger_host = Some("http://ledger".to_string());
    config.market_username = "shop".to_string();
    let mut state = AppState::from_config(&config, Data::new());
    let id = state.register_market_user();
    assert_eq!(state.market_user_uid, Some(id));
    let props = state.as_properties();
    assert_eq!(props.ledger_host, "http://ledger");
    assert_eq!(props.market_username, "shop");
    assert_eq!(state.get_or_add_user("shop"), id);
    assert_eq!(state.register_market_user(), id);
}

#[test]
fn basic_auth_is_read() {
    let c = parse_basic_auth(Some("Basic YWxpY2U6c2VjcmV0")).unwrap();
    assert_eq!(c.username, "alice");
    assert_eq!(c.password, "secret");
    let c = parse_basic_auth(Some("Basic YTpiOmM=")).unwrap();
    assert_eq!(c.username, "a");
    assert_eq!(c.password, "c");
    let c = parse_basic_auth(Some("Basic bm9jb2xvbg==")).unwrap();
    assert_eq!(c.username, "nocolon");
    assert_eq!(c.password, "nocolon");
    let c = parse_basic_auth(Some("Basic YWxpY2U6Basic c2VjcmV0")).unwrap();
    assert_eq!(c.username, "alice");
    assert_eq!(c.password, "secret");
}

#[test]
fn basic_auth_refusals() {
    assert_eq!(parse_basic_auth(None).err(), Some(AuthError::Unauthorized));
    assert_eq!(parse_basic_auth(Some("Bearer abc")).err(), Some(AuthError::ExpectationFailed));
    assert_eq!(parse_basic_auth(Some("basic YWxpY2U6c2VjcmV0")).err(), Some(AuthError::ExpectationFailed));
    assert_eq!(parse_basic_auth(Some("Basic !!!")).err(), Some(AuthError::ExpectationFailed));
    assert_eq!(parse_basic_auth(Some("Basic //4=")).err(), Some(AuthError::InternalServerError));
}

#[test]
fn ledger_verdicts() {
    assert_eq!(known_user_verdict(Some(false)), Err(AuthError::NotFound));
    assert_eq!(known_user_verdict(Some(true)), Ok(()));
    assert_eq!(known_user_verdict(None), Ok(()));
    assert_eq!(password_verdict(Some(true)), Ok(()));
    assert_eq!(password_verdict(Some(false)), Err(AuthError::NotFound));
    assert_eq!(password_verdict(None), Err(AuthError::NotFound));
    assert_eq!(market_account_action(Some(true)), MarketAccountAction::CheckPassword);
    assert_eq!(market_account_action(Some(false)), MarketAccountAction::Create);
    assert_eq!(market_account_action(None), MarketAccountAction::Create);
}
