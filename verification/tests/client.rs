use racher::address::{Address, MAX_URL_BYTES};
use racher::client::{Body, Client, ClientError, Limit, RETRIES};
use racher::routes::internal::{FanoutRequest, JoinRequest, SyncRequest};
use racher::value::Value;

fn url(text: &str) -> Address {
    Address::parse(text).unwrap()
}

#[test]
fn parse_normalises_the_url() {
    let address = url("HTTP://Example.COM:80/a/../b");
    assert_eq!(address.as_str(), "http://example.com/b");
    assert!(!address.cannot_be_a_base());
}

#[test]
fn parse_adds_the_root_path() {
    assert_eq!(url("http://127.0.0.1:9226").as_str(), "http://127.0.0.1:9226/");
}

#[test]
fn parse_refuses_what_is_no_url() {
    assert!(Address::parse("").is_none());
    assert!(Address::parse("127.0.0.1:9226").is_none());
    assert!(Address::parse("/relative/path").is_none());
    assert!(Address::parse("http://").is_none());
}

#[test]
fn parse_tells_opaque_urls() {
    assert!(url("data:text/plain,Stuff").cannot_be_a_base());
    assert!(url("mailto:someone@example.com").cannot_be_a_base());
    assert!(!url("ftp://rms@example.com").cannot_be_a_base());
    assert!(!url("unix:/run/foo.socket").cannot_be_a_base());
}

#[test]
fn loopback_is_the_parsed_default() {
    assert_eq!(Address::loopback(), url("http://127.0.0.1:9226"));
    assert_eq!(Address::loopback().as_str(), "http://127.0.0.1:9226/");
    assert!(!Address::loopback().cannot_be_a_base());
}

#[test]
fn addresses_compare_by_serialization() {
    assert_eq!(url("http://example.com"), url("http://EXAMPLE.com/"));
    assert!(url("http://example.com").same(&url("http://EXAMPLE.com/")));
    assert_ne!(url("http://example.com"), url("https://example.com"));
    assert!(!url("http://example.com").same(&url("http://example.com/a")));
    assert_eq!(url("http://example.com").clone(), url("http://example.com"));
}

#[test]
fn join_appends_an_encoded_segment() {
    let base = url("http://example.net/foo/index.html");
    let longer = base.join("2/100%.png").unwrap();
    assert_eq!(longer.as_str(), "http://example.net/foo/index.html/2%2F100%25.png");
    assert!(!longer.cannot_be_a_base());
    assert_eq!(url("https://example.com").join("a b").unwrap().as_str(), "https://example.com/a%20b");
}

#[test]
fn join_keeps_query_and_fragment_behind_the_path() {
    let base = url("http://example.com/a?q=1#top");
    assert_eq!(base.join("b").unwrap().as_str(), "http://example.com/a/b?q=1#top");
}

#[test]
fn join_of_an_opaque_url_gives_nothing() {
    assert!(url("mailto:someone@example.com").join("x").is_none());
}

#[test]
fn join_of_an_overlong_segment_gives_nothing() {
    let segment = "a".repeat(MAX_URL_BYTES + 1);
    assert!(url("http://example.com").join(&segment).is_none());
    let fits = "a".repeat(1000);
    assert_eq!(url("http://example.com").join(&fits).unwrap().as_str().len(), 1019);
}

#[test]
fn ping_goes_to_the_ping_endpoint() {
    let client = Client::new();
    let call = client.ping(&url("http://10.0.0.1:9226")).unwrap();
    assert_eq!(call.url.as_str(), "http://10.0.0.1:9226/ping");
    assert_eq!(call.body, Body::Empty);
    assert_eq!(client.ping(&url("data:x")).unwrap_err(), ClientError::InvalidUrl);
}

#[test]
fn join_goes_to_the_join_endpoint() {
    let client = Client::new();
    let me = url("http://10.0.0.2:9226");
    let call = client.join(&me, &url("http://10.0.0.1:9226")).unwrap();
    assert_eq!(call.url.as_str(), "http://10.0.0.1:9226/_internal/join");
    assert_eq!(call.body, Body::Join(JoinRequest { host: me.clone() }));
    let refused = client.join(&me, &url("mailto:a@b.c")).unwrap_err();
    assert_eq!(refused, ClientError::InvalidUrl);
    assert_eq!(refused.message(), "invalid url");
}

#[test]
fn sync_goes_to_the_sync_endpoint() {
    let client = Client::new();
    let call = client.sync(&url("http://10.0.0.1:9226"), "secret").unwrap();
    assert_eq!(call.url.as_str(), "http://10.0.0.1:9226/_internal/sync");
    assert_eq!(call.body, Body::Sync(SyncRequest { code: String::from("secret") }));
    assert_eq!(client.sync(&url("mailto:a@b.c"), "secret").unwrap_err(), ClientError::InvalidUrl);
}

#[test]
fn fanout_goes_to_the_fanout_endpoint() {
    let client = Client::new();
    let host = url("http://10.0.0.9:9226");
    let call = client.fanout(&url("http://10.0.0.1:9226"), &host, "secret").unwrap();
    assert_eq!(call.url.as_str(), "http://10.0.0.1:9226/_internal/fanout");
    assert_eq!(
        call.body,
        Body::Fanout(FanoutRequest { code: String::from("secret"), host: host.clone() })
    );
    assert_eq!(
        client.fanout(&url("mailto:a@b.c"), &host, "secret").unwrap_err(),
        ClientError::InvalidUrl
    );
}

#[test]
fn update_goes_to_the_key_below_the_update_endpoint() {
    let client = Client::new();
    let call = client
        .internal_update(&url("http://10.0.0.1:9226"), "some key", &Value::I64(-3))
        .unwrap();
    assert_eq!(call.url.as_str(), "http://10.0.0.1:9226/_internal/update/some%20key");
    assert_eq!(call.body, Body::Update(Value::I64(-3)));
    assert!(client.internal_update(&url("data:x"), "k", &Value::Unit).is_none());
}

#[test]
fn retries_are_used_up_by_failures_only() {
    assert_eq!(Limit(3).retry(true), Some(Limit(2)));
    assert_eq!(Limit(1).retry(true), Some(Limit(0)));
    assert_eq!(Limit(0).retry(true), None);
    assert_eq!(Limit(3).retry(false), None);
    assert_eq!(Limit(0).retry(false), None);
}

#[test]
fn a_call_is_retried_fifty_times() {
    let client = Client::new();
    assert_eq!(RETRIES, 50);
    assert_eq!(client.retries, Limit(50));
    assert_eq!(client.clone().retries, Limit(50));
    let mut attempts = 1;
    let mut limit = client.retries;
    while let Some(left) = limit.retry(true) {
        limit = left;
        attempts += 1;
    }
    assert_eq!(attempts, 51);
}
