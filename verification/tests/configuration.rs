use qtunnel::config::{Addr, Client, Config, CongestionController, Server};
use qtunnel::connection::Connection;
use qtunnel::server::server_config;
use qtunnel::{other, TunnelError};

fn sample_client() -> Client {
    Client {
        local_addr: String::from("127.0.0.1:7000"),
        remote_addr: String::from("127.0.0.1:4433"),
        domain_name: String::from("localhost"),
        ca_certificate: String::from("ca.pem"),
        congestion_controller: CongestionController::Bbr,
    }
}

fn sample_server() -> Server {
    Server {
        local_addr: String::from("0.0.0.0:4433"),
        remote_addrs: vec![
            Addr::Socket(String::from("127.0.0.1:9000")),
            Addr::Path(String::from("/tmp/echo.sock")),
        ],
        server_cert: String::from("cert.pem"),
        server_key: String::from("key.pem"),
        congestion_controller: CongestionController::Cubic,
    }
}

#[test]
fn a_client_section_alone_is_enough() {
    let cfg = Config::new(Some(sample_client()), None).unwrap();
    assert!(cfg.client.is_some());
    assert!(cfg.server.is_none());
}

#[test]
fn a_server_section_alone_is_enough() {
    let cfg = Config::new(None, Some(sample_server())).unwrap();
    assert!(cfg.client.is_none());
    assert!(cfg.server.is_some());
}

#[test]
fn both_sections_are_kept() {
    let cfg = Config::new(Some(sample_client()), Some(sample_server())).unwrap();
    assert!(cfg.client.is_some());
    assert!(cfg.server.is_some());
}

#[test]
fn neither_section_is_refused() {
    assert_eq!(Config::new(None, None), Err(TunnelError::MissingSection));
}

#[test]
fn the_default_congestion_controller_is_bbr() {
    assert_eq!(CongestionController::default(), CongestionController::Bbr);
}

#[test]
fn other_carries_its_description() {
    assert_eq!(other("boom"), TunnelError::Other(String::from("boom")));
}

#[test]
fn a_garbage_trust_anchor_is_rejected() {
    let r = Connection::new(
        &[1, 2, 3],
        String::from("localhost"),
        String::from("127.0.0.1:4433"),
        CongestionController::Bbr,
    );
    assert!(matches!(r, Err(TunnelError::AddCertFailed)));
}

#[test]
fn garbage_server_credentials_are_rejected() {
    let r = server_config(&[1, 2, 3], &[4, 5, 6], &CongestionController::NewReno);
    assert!(matches!(r, Err(TunnelError::ServerCryptoFailed)));
}
