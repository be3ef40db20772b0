use backend::credentials::auth_server_token;
use backend::env::{read_env, Lookups};
use backend::graphql_api::{decimal_string, Timestamp, Unit, UsdAmount, UsdPrice};

#[test]
fn server_token_of_plain_credentials() {
    // "client:secret" in Base64
    assert_eq!(auth_server_token("client", "secret"), "Y2xpZW50OnNlY3JldA==");
}

#[test]
fn server_token_percent_encodes_both_parts() {
    // "220047952645783557%40ecommerce1:p%3Ass%2Fw%20rd%C3%A9"
    assert_eq!(
        auth_server_token("220047952645783557@ecommerce1", "p:ss/w rdé"),
        "MjIwMDQ3OTUyNjQ1NzgzNTU3JTQwZWNvbW1lcmNlMTpwJTNBc3MlMkZ3JTIwcmQlQzMlQTk="
    );
}

#[test]
fn server_token_of_empty_credentials() {
    // ":" in Base64
    assert_eq!(auth_server_token("", ""), "Og==");
}

#[test]
fn server_token_keeps_unreserved_characters() {
    // "aZ09-._~:x" in Base64
    assert_eq!(auth_server_token("aZ09-._~", "x"), "YVowOS0uX346eA==");
}

#[test]
fn decimal_strings() {
    assert_eq!(decimal_string(0), "0");
    assert_eq!(decimal_string(7), "7");
    assert_eq!(decimal_string(10), "10");
    assert_eq!(decimal_string(1690402698123), "1690402698123");
    assert_eq!(decimal_string(u64::MAX as u128), u64::MAX.to_string());
    assert_eq!(decimal_string(u128::MAX), u128::MAX.to_string());
    for n in 0..2000u128 {
        assert_eq!(decimal_string(n * 977), (n * 977).to_string());
    }
}

#[test]
fn timestamps_are_decimal_millis() {
    assert_eq!(Timestamp::from(1690402698123u64).as_str(), "1690402698123");
    assert_eq!(Timestamp::from(0u64).as_str(), "0");
    assert_eq!(Timestamp::from(u64::MAX).as_str(), "18446744073709551615");
    assert_eq!(
        Timestamp::from(u128::MAX).as_str(),
        "340282366920938463463374607431768211455"
    );
}

#[test]
fn unit_is_an_empty_string() {
    assert_eq!(Unit::from(()).as_str(), "");
}

#[test]
fn prices_and_amounts_hold_their_text() {
    assert_eq!(UsdPrice::new("41.00".to_string()).as_str(), "41.00");
    assert_eq!(UsdAmount::new("127.00".to_string()).as_str(), "127.00");
}

fn lookups() -> Lookups {
    Lookups {
        redis_uri: Ok("redis://localhost".to_string()),
        auth_base_url: Ok("http://localhost:8091".to_string()),
        auth_project_id: Ok("220047653491179525".to_string()),
        auth_client_id: Ok("client".to_string()),
        auth_client_secret: Ok("secret".to_string()),
        pulsar_url: Ok("pulsar://localhost".to_string()),
    }
}

#[test]
fn env_is_assembled_from_what_was_found() {
    let env = read_env(lookups()).unwrap();
    assert_eq!(env.redis_uri, "redis://localhost");
    assert_eq!(env.auth_base_url, "http://localhost:8091");
    assert_eq!(env.auth_project_id, "220047653491179525");
    assert_eq!(env.auth_client_id, "client");
    assert_eq!(env.auth_client_secret, "secret");
    assert_eq!(env.pulsar_url, "pulsar://localhost");
}

#[test]
fn first_missing_variable_is_reported() {
    let mut found = lookups();
    found.auth_client_id = Err("id not present".to_string());
    found.pulsar_url = Err("pulsar not present".to_string());
    assert_eq!(read_env(found).unwrap_err(), "id not present");
    let mut found = lookups();
    found.pulsar_url = Err("pulsar not present".to_string());
    assert_eq!(read_env(found).unwrap_err(), "pulsar not present");
    let mut found = lookups();
    found.redis_uri = Err("redis not present".to_string());
    found.auth_base_url = Err("url not present".to_string());
    assert_eq!(read_env(found).unwrap_err(), "redis not present");
}

#[test]
fn variable_names() {
    assert_eq!(backend::env::REDIS_URI, "BACKEND_REDIS_URI");
    assert_eq!(backend::env::AUTH_BASE_URL, "BACKEND_AUTH_BASE_URL");
    assert_eq!(backend::env::AUTH_PROJECT_ID, "BACKEND_AUTH_PROJECT_ID");
    assert_eq!(backend::env::AUTH_CLIENT_ID, "BACKEND_AUTH_CLIENT_ID");
    assert_eq!(backend::env::AUTH_CLIENT_SECRET, "BACKEND_AUTH_CLIENT_SECRET");
    assert_eq!(backend::env::PULSAR_URL, "BACKEND_PULSAR_URL");
}
