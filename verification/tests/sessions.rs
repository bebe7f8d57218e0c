use rendezvous_client::action::Action;
use rendezvous_client::attempt::RegistrationAttempt;
use rendezvous_client::discovery::{DiscoveryAction, DiscoverySession};
use rendezvous_client::event::{Event, Registration};
use rendezvous_client::identity::{Address, PeerId};
use rendezvous_client::render::{join_addresses, render_registration, render_registrations};
use rendezvous_client::session::Phase;

const SERVER: &str = "12D3KooWDpJ7As7BWAwRMfu1VU2WCqNjvq387JEYKDBj4kx6nXTN";
const ALICE: &str = "12D3KooWH3uVF6wv47WnArKHk5p6cvgCJEb74UTmxztmQDc298L3";
const BOB: &str = "12D3KooWQYhTNQdmr3ArTeUHRYzFg94BKyTkoWBDWez9kSCVe2Xo";
const SERVER_ADDRESS: &str = "/ip4/127.0.0.1/tcp/62649";

fn peer(text: &str) -> PeerId {
    PeerId::new(text.to_string())
}

fn address(text: &str) -> Address {
    Address::new(text.to_string())
}

fn session() -> DiscoverySession {
    DiscoverySession::new(peer(SERVER), address(SERVER_ADDRESS), "chat".to_string())
}

fn attempt(ttl: Option<u64>) -> RegistrationAttempt {
    RegistrationAttempt::new(peer(SERVER), address(SERVER_ADDRESS), "chat".to_string(), ttl)
}

fn registration(who: &str, addresses: &[&str]) -> Registration {
    Registration {
        peer: peer(who),
        addresses: addresses.iter().map(|a| address(a)).collect(),
        ttl: 7200,
    }
}

fn query() -> DiscoveryAction {
    DiscoveryAction::Discover {
        namespace: Some("chat".to_string()),
        cookie: None,
        limit: None,
        server_peer: peer(SERVER),
    }
}

#[test]
fn discovery_runs_from_dial_to_report() {
    let mut s = session();
    assert_eq!(s.phase(), Phase::Disconnected);
    assert!(!s.is_done());
    assert_eq!(s.target().namespace, "chat");
    assert_eq!(s.target().ttl, None);
    assert_eq!(
        s.start(),
        DiscoveryAction::Dial { peer: peer(SERVER), address: address(SERVER_ADDRESS) }
    );
    assert_eq!(s.phase(), Phase::Dialing);
    assert_eq!(s.start(), DiscoveryAction::Idle);
    assert_eq!(s.on_event(&Event::ConnectionEstablished { peer: peer(SERVER) }), query());
    assert_eq!(s.phase(), Phase::Awaiting);
    let answer = Event::Discovered {
        registrations: vec![
            registration(ALICE, &["/ip4/10.0.0.1/tcp/4001"]),
            registration(BOB, &["/ip4/10.0.0.2/tcp/4001", "/dns4/bob.example/tcp/443"]),
            registration(ALICE, &[]),
        ],
        cookie: vec![9, 9],
    };
    assert_eq!(
        s.on_event(&answer),
        DiscoveryAction::Report {
            lines: vec![
                format!("Discovered peer {} at /ip4/10.0.0.1/tcp/4001", ALICE),
                format!(
                    "Discovered peer {} at /ip4/10.0.0.2/tcp/4001, /dns4/bob.example/tcp/443",
                    BOB
                ),
                format!("Discovered peer {} at ", ALICE),
            ],
        }
    );
    assert!(s.is_done());
    assert_eq!(s.phase(), Phase::Done);
}

#[test]
fn discovery_prints_one_line_for_each_registration() {
    for n in 0..6usize {
        let mut s = session();
        s.start();
        assert_eq!(s.on_event(&Event::ConnectionEstablished { peer: peer(SERVER) }), query());
        let registrations: Vec<Registration> =
            (0..n).map(|_| registration(ALICE, &["/ip4/10.0.0.1/tcp/4001"])).collect();
        match s.on_event(&Event::Discovered { registrations, cookie: vec![] }) {
            DiscoveryAction::Report { lines } => assert_eq!(lines.len(), n),
            other => panic!("no report: {:?}", other),
        }
        assert!(s.is_done());
    }
}

#[test]
fn discovery_stays_over() {
    let mut s = session();
    s.start();
    s.on_event(&Event::ConnectionEstablished { peer: peer(SERVER) });
    s.on_event(&Event::Discovered { registrations: vec![], cookie: vec![] });
    assert!(s.is_done());
    assert_eq!(s.start(), DiscoveryAction::Idle);
    assert_eq!(
        s.on_event(&Event::Discovered {
            registrations: vec![registration(BOB, &["/ip4/10.0.0.2/tcp/1"])],
            cookie: vec![],
        }),
        DiscoveryAction::Idle
    );
    assert_eq!(s.on_event(&Event::ConnectionEstablished { peer: peer(SERVER) }), DiscoveryAction::Idle);
    assert_eq!(s.on_event(&Event::DialFailure { peer: peer(SERVER) }), DiscoveryAction::Idle);
    assert_eq!(
        s.on_event(&Event::ConnectionClosed { peer: peer(SERVER), cause: None }),
        DiscoveryAction::Idle
    );
    assert!(s.is_done());
}

#[test]
fn failed_dial_ends_discovery_without_a_line() {
    let mut s = session();
    s.start();
    assert_eq!(
        s.on_event(&Event::DialFailure { peer: peer(SERVER) }),
        DiscoveryAction::Unreachable { peer: peer(SERVER), address: address(SERVER_ADDRESS) }
    );
    assert!(s.is_done());
    assert_eq!(s.on_event(&Event::ConnectionEstablished { peer: peer(SERVER) }), DiscoveryAction::Idle);
}

#[test]
fn discovery_asks_only_once() {
    let mut s = session();
    s.start();
    assert_eq!(s.on_event(&Event::ConnectionEstablished { peer: peer(SERVER) }), query());
    assert_eq!(s.on_event(&Event::ConnectionEstablished { peer: peer(SERVER) }), DiscoveryAction::Idle);
    assert_eq!(s.on_event(&Event::DialFailure { peer: peer(SERVER) }), DiscoveryAction::Idle);
    assert_eq!(s.phase(), Phase::Awaiting);
}

#[test]
fn discovery_ignores_other_peers_and_other_events() {
    let mut s = session();
    s.start();
    assert_eq!(s.on_event(&Event::ConnectionEstablished { peer: peer(ALICE) }), DiscoveryAction::Idle);
    assert_eq!(s.on_event(&Event::DialFailure { peer: peer(ALICE) }), DiscoveryAction::Idle);
    assert_eq!(
        s.on_event(&Event::Registered {
            namespace: "chat".to_string(),
            ttl: 1,
            server_peer: peer(SERVER),
        }),
        DiscoveryAction::Idle
    );
    assert_eq!(
        s.on_event(&Event::RegisterFailed { reason: "no".to_string() }),
        DiscoveryAction::Idle
    );
    assert_eq!(s.phase(), Phase::Dialing);
}

#[test]
fn connection_without_a_dial_brings_the_query() {
    let mut s = session();
    assert_eq!(s.on_event(&Event::ConnectionEstablished { peer: peer(SERVER) }), query());
    assert_eq!(s.phase(), Phase::Awaiting);
    assert_eq!(s.start(), DiscoveryAction::Idle);
}

#[test]
fn lines_are_written_out_in_full() {
    assert_eq!(
        render_registration(&registration(ALICE, &["/ip4/1.2.3.4/tcp/5"])),
        format!("Discovered peer {} at /ip4/1.2.3.4/tcp/5", ALICE)
    );
    assert_eq!(join_addresses(&vec![]), "");
    assert_eq!(join_addresses(&vec![address("/a")]), "/a");
    assert_eq!(join_addresses(&vec![address("/a"), address("/b"), address("/c")]), "/a, /b, /c");
    assert_eq!(render_registrations(&vec![]), Vec::<String>::new());
    assert_eq!(
        render_registrations(&vec![registration(BOB, &["/x", "/y"]), registration(ALICE, &["/z"])]),
        vec![
            format!("Discovered peer {} at /x, /y", BOB),
            format!("Discovered peer {} at /z", ALICE),
        ]
    );
}

#[test]
fn phases_before_the_request() {
    assert!(Phase::Disconnected.is_before_request());
    assert!(Phase::Dialing.is_before_request());
    assert!(!Phase::Awaiting.is_before_request());
    assert!(!Phase::Done.is_before_request());
}

#[test]
fn attempt_ends_with_the_grant() {
    let mut a = attempt(Some(120));
    assert_eq!(a.phase(), Phase::Disconnected);
    assert_eq!(a.target().ttl, Some(120));
    assert_eq!(a.start(), Action::Dial { peer: peer(SERVER), address: address(SERVER_ADDRESS) });
    assert_eq!(a.start(), Action::Idle);
    assert_eq!(a.on_event(&Event::ConnectionEstablished { peer: peer(ALICE) }), Action::Idle);
    assert_eq!(
        a.on_event(&Event::ConnectionEstablished { peer: peer(SERVER) }),
        Action::Register {
            namespace: "chat".to_string(),
            server_peer: peer(SERVER),
            ttl: Some(120),
        }
    );
    assert_eq!(a.phase(), Phase::Awaiting);
    assert_eq!(a.on_event(&Event::ConnectionEstablished { peer: peer(SERVER) }), Action::Idle);
    assert!(!a.is_done());
    assert_eq!(
        a.on_event(&Event::Registered {
            namespace: "chat".to_string(),
            ttl: 120,
            server_peer: peer(SERVER),
        }),
        Action::Idle
    );
    assert!(a.is_done());
    assert_eq!(a.on_event(&Event::ConnectionEstablished { peer: peer(SERVER) }), Action::Idle);
    assert_eq!(a.start(), Action::Idle);
    assert!(a.is_done());
}

#[test]
fn attempt_ends_with_the_refusal() {
    let mut a = attempt(None);
    a.start();
    assert_eq!(
        a.on_event(&Event::ConnectionEstablished { peer: peer(SERVER) }),
        Action::Register { namespace: "chat".to_string(), server_peer: peer(SERVER), ttl: None }
    );
    assert_eq!(
        a.on_event(&Event::RegisterFailed { reason: "not authorized".to_string() }),
        Action::Idle
    );
    assert!(a.is_done());
}

#[test]
fn attempt_waits_through_everything_else() {
    let mut a = attempt(None);
    a.start();
    assert_eq!(a.on_event(&Event::DialFailure { peer: peer(SERVER) }), Action::Idle);
    assert_eq!(
        a.on_event(&Event::ConnectionClosed { peer: peer(SERVER), cause: None }),
        Action::Idle
    );
    assert_eq!(
        a.on_event(&Event::Discovered { registrations: vec![], cookie: vec![] }),
        Action::Idle
    );
    assert_eq!(a.phase(), Phase::Dialing);
}
