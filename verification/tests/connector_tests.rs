use crypto_connector::connector::{
    ConnectError, ConnectPhase, ConnectStep, Connector, Cursor, MAX_RETRY,
};
use crypto_connector::models::{ChannelsData, InstanceServer};
use crypto_connector::resolver::{connection_url, resolve_endpoints};

fn server(endpoint: &str) -> InstanceServer {
    InstanceServer {
        ping_interval: 18000,
        endpoint: endpoint.to_string(),
        protocol: "websocket".to_string(),
        encrypt: true,
        ping_timeout: 10000,
    }
}

fn urls(names: &[&str]) -> Vec<String> {
    names.iter().map(|n| format!("wss://{}/endpoint", n)).collect()
}

/// Drives a connector; attempt number `k` succeeds where `succeeds(k)`.
fn drive(connector: &mut Connector, succeeds: &dyn Fn(usize) -> bool) -> (Vec<usize>, ConnectStep) {
    let mut dialed = Vec::new();
    loop {
        match connector.next_attempt() {
            ConnectStep::Dial { endpoint, url } => {
                assert_eq!(url.as_str(), connector.urls[endpoint].as_str());
                let ok = succeeds(dialed.len());
                dialed.push(endpoint);
                connector.report(ok);
            }
            ConnectStep::Unusable { endpoint } => {
                assert!(connector.urls[endpoint].starts_with("no url"));
                dialed.push(endpoint);
            }
            last => return (dialed, last),
        }
    }
}

#[test]
fn single_server_resolves_to_its_url() {
    let credentials = ChannelsData {
        instance_servers: vec![server("wss://x/endpoint")],
        token: "tok".to_string(),
    };
    assert_eq!(
        resolve_endpoints(&credentials),
        Ok(vec!["wss://x/endpoint?token=tok&[connectId=_crypto-connector]".to_string()])
    );
}

#[test]
fn servers_resolve_in_their_order() {
    let credentials = ChannelsData {
        instance_servers: vec![server("wss://b/e"), server("wss://a/e"), server("wss://c/e")],
        token: "T".to_string(),
    };
    assert_eq!(
        resolve_endpoints(&credentials),
        Ok(vec![
            "wss://b/e?token=T&[connectId=_crypto-connector]".to_string(),
            "wss://a/e?token=T&[connectId=_crypto-connector]".to_string(),
            "wss://c/e?token=T&[connectId=_crypto-connector]".to_string(),
        ])
    );
}

#[test]
fn no_server_is_no_endpoint() {
    let credentials = ChannelsData { instance_servers: vec![], token: "tok".to_string() };
    assert_eq!(resolve_endpoints(&credentials), Err(ConnectError::NoEndpointsAvailable));
}

#[test]
fn connection_url_of_empty_parts() {
    assert_eq!(connection_url("", ""), "?token=&[connectId=_crypto-connector]");
}

#[test]
fn new_connector_starts_at_the_first_endpoint() {
    let connector = Connector::new(urls(&["a", "b"]));
    assert_eq!(connector.cursor, Cursor { pass: 0, index: 0 });
    assert_eq!(connector.phase, ConnectPhase::Trying);
    assert_eq!(connector.urls, urls(&["a", "b"]));
}

#[test]
fn first_success_ends_the_run() {
    let mut connector = Connector::new(urls(&["a", "b", "c"]));
    let (dialed, last) = drive(&mut connector, &|k| k == 1);
    assert_eq!(dialed, vec![0, 1]);
    assert_eq!(last, ConnectStep::Connected { endpoint: 1 });
    assert_eq!(connector.phase, ConnectPhase::Connected);
}

#[test]
fn success_in_a_later_pass() {
    let mut connector = Connector::new(urls(&["a", "b", "c"]));
    let (dialed, last) = drive(&mut connector, &|k| k == 7);
    assert_eq!(dialed, vec![0, 1, 2, 0, 1, 2, 0, 1]);
    assert_eq!(last, ConnectStep::Connected { endpoint: 1 });
    assert_eq!(connector.cursor, Cursor { pass: 2, index: 1 });
}

#[test]
fn nothing_is_dialed_after_success() {
    let mut connector = Connector::new(urls(&["a", "b"]));
    let (_, last) = drive(&mut connector, &|_| true);
    assert_eq!(last, ConnectStep::Connected { endpoint: 0 });
    connector.report(false);
    connector.report(true);
    assert_eq!(connector.next_attempt(), ConnectStep::Connected { endpoint: 0 });
    assert_eq!(connector.cursor, Cursor { pass: 0, index: 0 });
}

#[test]
fn gives_up_after_max_retry_passes() {
    let mut connector = Connector::new(urls(&["a", "b", "c"]));
    let (dialed, last) = drive(&mut connector, &|_| false);
    assert_eq!(MAX_RETRY, 5);
    assert_eq!(dialed, vec![0, 1, 2, 0, 1, 2, 0, 1, 2, 0, 1, 2, 0, 1, 2]);
    assert_eq!(last, ConnectStep::GiveUp(ConnectError::MaxRetryExceeded));
    assert_eq!(connector.cursor, Cursor { pass: 5, index: 0 });
    assert_eq!(connector.phase, ConnectPhase::Failed(ConnectError::MaxRetryExceeded));
    connector.report(true);
    assert_eq!(connector.next_attempt(), ConnectStep::GiveUp(ConnectError::MaxRetryExceeded));
}

#[test]
fn last_attempt_of_the_last_pass_may_succeed() {
    let mut connector = Connector::new(urls(&["a", "b"]));
    let (dialed, last) = drive(&mut connector, &|k| k == 9);
    assert_eq!(dialed.len(), 10);
    assert_eq!(last, ConnectStep::Connected { endpoint: 1 });
}

#[test]
fn empty_list_gives_up_at_once() {
    let mut connector = Connector::new(Vec::new());
    let (dialed, last) = drive(&mut connector, &|_| true);
    assert!(dialed.is_empty());
    assert_eq!(last, ConnectStep::GiveUp(ConnectError::MaxRetryExceeded));
}

#[test]
fn endpoint_that_is_no_url_counts_as_a_failed_attempt() {
    let mut list = urls(&["a"]);
    list.push("no url at all".to_string());
    list.push("wss://c/endpoint".to_string());
    let mut connector = Connector::new(list);
    assert!(matches!(connector.next_attempt(), ConnectStep::Dial { endpoint: 0, .. }));
    connector.report(false);
    assert_eq!(connector.next_attempt(), ConnectStep::Unusable { endpoint: 1 });
    assert_eq!(connector.cursor, Cursor { pass: 0, index: 2 });
    assert_eq!(connector.phase, ConnectPhase::Trying);
    assert!(matches!(connector.next_attempt(), ConnectStep::Dial { endpoint: 2, .. }));
    connector.report(true);
    assert_eq!(connector.next_attempt(), ConnectStep::Connected { endpoint: 2 });
}

#[test]
fn list_without_a_usable_endpoint_is_walked_max_retry_times() {
    let mut connector = Connector::new(vec!["no url 1".to_string(), "no url 2".to_string()]);
    let (tried, last) = drive(&mut connector, &|_| true);
    assert_eq!(tried, vec![0, 1, 0, 1, 0, 1, 0, 1, 0, 1]);
    assert_eq!(last, ConnectStep::GiveUp(ConnectError::MaxRetryExceeded));
}

#[test]
fn unusable_endpoint_is_tried_again_in_each_pass() {
    let mut list = urls(&["a"]);
    list.push("no url at all".to_string());
    let mut connector = Connector::new(list);
    let (tried, last) = drive(&mut connector, &|k| k == 4);
    assert_eq!(tried, vec![0, 1, 0, 1, 0]);
    assert_eq!(last, ConnectStep::Connected { endpoint: 0 });
    assert_eq!(connector.cursor, Cursor { pass: 2, index: 0 });
}

#[test]
fn dial_hands_out_the_parsed_url() {
    let mut connector = Connector::new(vec![
        "wss://x/endpoint?token=tok&[connectId=_crypto-connector]".to_string(),
    ]);
    match connector.next_attempt() {
        ConnectStep::Dial { endpoint, url } => {
            assert_eq!(endpoint, 0);
            assert_eq!(url.scheme(), "wss");
            assert_eq!(url.host_str(), Some("x"));
            assert_eq!(url.path(), "/endpoint");
        }
        other => panic!("unexpected step {:?}", other),
    }
}
