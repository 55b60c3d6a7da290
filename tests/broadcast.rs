use opencode_desktop::broadcast::Broadcast;
use opencode_desktop::resolver::{Endpoint, Failure, Outcome};
use opencode_desktop::server_state::ServerState;

#[test]
fn first_publication_is_what_every_reader_sees() {
    let mut b: Broadcast<u32> = Broadcast::new();
    assert_eq!(b.get(), None);
    assert!(!b.is_published());
    assert!(b.publish(7));
    assert!(!b.publish(9));
    for _ in 0..5 {
        assert_eq!(b.get(), Some(&7));
    }
}

#[test]
fn server_state_take_child_twice() {
    let mut s: ServerState<String> = ServerState::new(Some("child".to_string()));
    assert_eq!(s.take_child(), Some("child".to_string()));
    assert_eq!(s.take_child(), None);
    s.set_child(Some("other".to_string()));
    assert_eq!(s.take_child(), Some("other".to_string()));
}

#[test]
fn server_state_outcome_is_set_once() {
    let mut s: ServerState<u8> = ServerState::new(None);
    assert!(s.outcome_ref().is_none());
    assert!(s.publish(Outcome::Ready(Endpoint::Local { port: 4096 })));
    assert!(!s.publish(Outcome::Failed(Failure::UserCancelled)));
    let got = s.outcome_ref().unwrap();
    assert_eq!(got.status(), Ok(()));
    assert!(matches!(got, Outcome::Ready(Endpoint::Local { port: 4096 })));
}
