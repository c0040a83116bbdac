use netping::client::{ClientAction, ClientEvent, ClientLoop};
use netping::listener::{CloseReason, ListenerAction, ListenerEvent, Phase, Session};
use netping::Transport;

#[test]
fn tcp_echo_bound_three() {
    let mut client = ClientLoop::start(true);
    let mut session = Session::open(Transport::Tcp, Some(3), true);
    let mut client_log: Vec<String> = Vec::new();
    let mut listener_reads = 0;
    let mut listener_action = session.current_action();
    let mut action = client.current_action();
    let mut pending_replies = 0;
    while client_log.len() < 6 {
        match action {
            ClientAction::Announce(n) => client_log.push(format!("ping {}", n)),
            ClientAction::Send => {
                if listener_action == ListenerAction::Receive {
                    listener_reads += 1;
                    listener_action = session.step(ListenerEvent::Received(4));
                    if let ListenerAction::Reply(n) = listener_action {
                        assert_eq!(n, 4);
                        pending_replies += 1;
                        listener_action = session.step(ListenerEvent::Handled);
                    }
                }
            }
            ClientAction::AwaitReply => {
                if pending_replies > 0 {
                    pending_replies -= 1;
                }
            }
            ClientAction::Pause => {}
            ClientAction::Stop => panic!("client stopped"),
        }
        action = client.step(ClientEvent::Done);
    }
    assert_eq!(client_log, vec!["ping 0", "ping 1", "ping 2", "ping 3", "ping 4", "ping 5"]);
    assert_eq!(listener_reads, 3);
    assert_eq!(session.received, 3);
    assert_eq!(session.phase, Phase::Closed(CloseReason::BoundReached));
    assert!(!CloseReason::BoundReached.releases_connection());
}

#[test]
fn udp_log_bound_two() {
    let mut client = ClientLoop::start(false);
    let mut session = Session::open(Transport::Udp, Some(2), false);
    let mut listener_log: Vec<String> = Vec::new();
    let mut listener_action = session.current_action();
    let mut action = client.current_action();
    let mut sends = 0;
    while sends < 5 {
        match action {
            ClientAction::Send => {
                sends += 1;
                if listener_action == ListenerAction::Receive {
                    listener_action = session.step(ListenerEvent::Received(4));
                    if let ListenerAction::Log(n) = listener_action {
                        listener_log.push(format!("read {} bytes from 127.0.0.1:40000", n));
                        listener_action = session.step(ListenerEvent::Handled);
                    }
                }
            }
            ClientAction::AwaitReply => panic!("log-only client waited for a reply"),
            ClientAction::Stop => panic!("client stopped"),
            _ => {}
        }
        action = client.step(ClientEvent::Done);
    }
    assert_eq!(
        listener_log,
        vec!["read 4 bytes from 127.0.0.1:40000", "read 4 bytes from 127.0.0.1:40000"]
    );
    assert_eq!(listener_action, ListenerAction::Stop);
    assert_eq!(session.phase, Phase::Closed(CloseReason::BoundReached));
    assert_eq!(action, ClientAction::Pause);
    assert_eq!(client.step(ClientEvent::Done), ClientAction::Announce(5));
}
