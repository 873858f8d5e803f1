//! Round-trip identity for every request type: `into_request` produces the
//! matching envelope variant carrying the exact input values and the exact
//! reply transport that were supplied.

use crossbeam_channel::bounded;
use std::time::Duration;
use you_have_mail_common::Account;
use you_have_mail_common::AddAccountRequest;
use you_have_mail_common::ApplyProxyRequest;
use you_have_mail_common::GenConfigRequest;
use you_have_mail_common::GetAccountListRequest;
use you_have_mail_common::GetPollIntervalRequest;
use you_have_mail_common::GetProxyRequest;
use you_have_mail_common::LogoutAccountRequest;
use you_have_mail_common::ObserverError;
use you_have_mail_common::ObserverPRC;
use you_have_mail_common::ObserverRequest;
use you_have_mail_common::Proxy;
use you_have_mail_common::ProxyAuth;
use you_have_mail_common::ProxyProtocol;
use you_have_mail_common::RemoveAccountRequest;

fn sample_proxy() -> Proxy {
    Proxy {
        protocol: ProxyProtocol::Socks5,
        auth: Some(ProxyAuth {
            username: "user".to_string(),
            password: "pass".to_string(),
        }),
        url: "proxy.example.com".to_string(),
        port: 1080,
    }
}

#[test]
fn remove_account_round_trip() {
    let (tx, rx) = bounded(1);
    let request = RemoveAccountRequest {
        email: "a@example.com".to_string(),
    };
    match request.into_request(tx) {
        ObserverRequest::RemoveAccount(email, reply) => {
            assert_eq!(email, "a@example.com");
            // The embedded transport is the very channel supplied.
            reply.send(Ok(())).unwrap();
            assert_eq!(rx.recv().unwrap(), Ok(()));
        }
        _ => panic!("wrong envelope variant"),
    }
}

#[test]
fn logout_account_round_trip() {
    let (tx, rx) = bounded(1);
    let request = LogoutAccountRequest {
        email: "b@example.com".to_string(),
    };
    match request.into_request(tx) {
        ObserverRequest::LogoutAccount(email, reply) => {
            assert_eq!(email, "b@example.com");
            reply
                .send(Err(ObserverError::NoSuchAccount("b@example.com".to_string())))
                .unwrap();
            assert_eq!(
                rx.recv().unwrap(),
                Err(ObserverError::NoSuchAccount("b@example.com".to_string()))
            );
        }
        _ => panic!("wrong envelope variant"),
    }
}

#[test]
fn add_account_round_trip() {
    let (tx, rx) = bounded(1);
    let account = Account {
        email: "c@example.com".to_string(),
        backend: "imap".to_string(),
    };
    let request = AddAccountRequest {
        account: account.clone(),
    };
    match request.into_request(tx) {
        ObserverRequest::AddAccount(got, reply) => {
            assert_eq!(got, account);
            reply.send(Ok(())).unwrap();
            assert_eq!(rx.recv().unwrap(), Ok(()));
        }
        _ => panic!("wrong envelope variant"),
    }
}

#[test]
fn get_account_list_round_trip() {
    let (tx, rx) = bounded(1);
    let request = GetAccountListRequest {};
    match request.into_request(tx) {
        ObserverRequest::GetAccounts(reply) => {
            reply.send(Ok(Vec::new())).unwrap();
            assert_eq!(rx.recv().unwrap(), Ok(Vec::new()));
        }
        _ => panic!("wrong envelope variant"),
    }
}

#[test]
fn gen_config_round_trip() {
    let (tx, rx) = bounded(1);
    let request = GenConfigRequest {};
    match request.into_request(tx) {
        ObserverRequest::GenConfig(reply) => {
            reply.send(Ok("config".to_string())).unwrap();
            assert_eq!(rx.recv().unwrap(), Ok("config".to_string()));
        }
        _ => panic!("wrong envelope variant"),
    }
}

#[test]
fn get_poll_interval_round_trip() {
    let (tx, rx) = bounded(1);
    let request = GetPollIntervalRequest {};
    match request.into_request(tx) {
        ObserverRequest::GetPollInterval(reply) => {
            reply.send(Ok(Duration::from_secs(5))).unwrap();
            assert_eq!(rx.recv().unwrap(), Ok(Duration::from_secs(5)));
        }
        _ => panic!("wrong envelope variant"),
    }
}

#[test]
fn apply_proxy_round_trip() {
    let (tx, rx) = bounded(1);
    let request = ApplyProxyRequest {
        email: "d@example.com".to_string(),
        proxy: Some(sample_proxy()),
    };
    match request.into_request(tx) {
        ObserverRequest::ApplyProxy(email, proxy, reply) => {
            assert_eq!(email, "d@example.com");
            assert_eq!(proxy, Some(sample_proxy()));
            reply.send(Ok(())).unwrap();
            assert_eq!(rx.recv().unwrap(), Ok(()));
        }
        _ => panic!("wrong envelope variant"),
    }
}

#[test]
fn apply_proxy_round_trip_clearing() {
    let (tx, _rx) = bounded::<Result<(), ObserverError>>(1);
    let request = ApplyProxyRequest {
        email: "d@example.com".to_string(),
        proxy: None,
    };
    match request.into_request(tx) {
        ObserverRequest::ApplyProxy(email, proxy, _reply) => {
            assert_eq!(email, "d@example.com");
            assert_eq!(proxy, None);
        }
        _ => panic!("wrong envelope variant"),
    }
}

#[test]
fn get_proxy_round_trip() {
    let (tx, rx) = bounded(1);
    let request = GetProxyRequest {
        email: "e@example.com".to_string(),
    };
    match request.into_request(tx) {
        ObserverRequest::GetProxy(email, reply) => {
            assert_eq!(email, "e@example.com");
            reply.send(Ok(Some(sample_proxy()))).unwrap();
            assert_eq!(rx.recv().unwrap(), Ok(Some(sample_proxy())));
        }
        _ => panic!("wrong envelope variant"),
    }
}
