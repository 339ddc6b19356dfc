use whist_browser::network::async_worker::PeerGone;
use whist_browser::network::async_worker::TryRecvError;
use whist_browser::network::async_worker::Worker;
use whist_browser::network::plugin::receive_network_events;
use whist_browser::network::plugin::receive_websocket_responses;
use whist_browser::network::plugin::send_network_events;
use whist_browser::network::plugin::ConnectResult;
use whist_browser::network::plugin::LoginResult;
use whist_browser::network::plugin::NetworkCommand;
use whist_browser::network::plugin::NetworkResponse;
use whist_browser::network::plugin::NetworkResult;
use whist_browser::network::plugin::WebSocketResponse;

fn bridge<I, O>() -> (Worker<I, O>, Worker<O, I>) {
    Worker::spawn(|far| far)
}

#[test]
fn nothing_pending_is_told_at_once() {
    let (mut near, _far) = bridge::<u32, u32>();
    assert_eq!(near.try_recv(), Err(TryRecvError));
    assert_eq!(near.try_recv(), Err(TryRecvError));
}

#[test]
fn a_burst_is_received_in_the_order_it_was_sent() {
    let (mut near, mut far) = bridge::<u32, String>();
    for number in 0..100u32 {
        assert_eq!(near.send(number), Ok(()));
    }
    for number in 0..100u32 {
        assert_eq!(far.try_recv(), Ok(Some(number)));
    }
    assert_eq!(far.try_recv(), Err(TryRecvError));
}

#[test]
fn the_two_directions_do_not_mix() {
    let (mut near, mut far) = bridge::<u32, String>();
    near.send(1).unwrap();
    far.send("one".to_string()).unwrap();
    near.send(2).unwrap();
    far.send("two".to_string()).unwrap();
    assert_eq!(near.try_recv(), Ok(Some("one".to_string())));
    assert_eq!(far.try_recv(), Ok(Some(1)));
    assert_eq!(far.try_recv(), Ok(Some(2)));
    assert_eq!(near.try_recv(), Ok(Some("two".to_string())));
    assert_eq!(near.try_recv(), Err(TryRecvError));
    assert_eq!(far.try_recv(), Err(TryRecvError));
}

#[test]
fn a_closed_and_drained_bridge_stays_closed() {
    let (mut near, mut far) = bridge::<u32, u32>();
    far.send(7).unwrap();
    far.send(8).unwrap();
    drop(far);
    assert_eq!(near.try_recv(), Ok(Some(7)));
    assert_eq!(near.try_recv(), Ok(Some(8)));
    for _ in 0..10 {
        assert_eq!(near.try_recv(), Ok(None));
    }
}

#[test]
fn sending_fails_once_the_other_side_is_gone() {
    let (mut near, far) = bridge::<u32, u32>();
    assert_eq!(near.send(1), Ok(()));
    drop(far);
    assert_eq!(near.send(2), Err(PeerGone));
    assert_eq!(near.send(3), Err(PeerGone));
}

#[test]
fn the_parts_of_a_bridge_are_its_two_ends() {
    let (mut near, far) = bridge::<u32, u32>();
    near.send(5).unwrap();
    let (sender, mut receiver) = far.into_parts();
    assert_eq!(receiver.try_recv(), Ok(5));
    sender.unbounded_send(6).unwrap();
    assert_eq!(near.try_recv(), Ok(Some(6)));
}

#[test]
fn the_commands_of_a_frame_are_sent_in_their_order() {
    let (mut near, mut far) = bridge::<NetworkCommand, NetworkResponse>();
    let sent = send_network_events(
        &mut near,
        vec![
            NetworkCommand::GameReconnect,
            NetworkCommand::GetGameList,
            NetworkCommand::Connect("http://localhost:8080".to_string()),
        ],
    );
    assert_eq!(sent, 3);
    assert_eq!(far.try_recv(), Ok(Some(NetworkCommand::GameReconnect)));
    assert_eq!(far.try_recv(), Ok(Some(NetworkCommand::GetGameList)));
    assert_eq!(
        far.try_recv(),
        Ok(Some(NetworkCommand::Connect(
            "http://localhost:8080".to_string()
        )))
    );
    drop(far);
    assert_eq!(
        send_network_events(
            &mut near,
            vec![NetworkCommand::GetGameList, NetworkCommand::GameReconnect]
        ),
        0
    );
    assert_eq!(send_network_events(&mut near, vec![]), 0);
}

#[test]
fn the_answers_of_a_frame_are_taken_up_to_the_limit() {
    let (mut near, mut far) = bridge::<NetworkCommand, NetworkResponse>();
    assert_eq!(receive_network_events(&mut near, 8), vec![]);
    far.send(NetworkResponse::ConnectSuccess).unwrap();
    far.send(NetworkResponse::LoginSuccess).unwrap();
    far.send(NetworkResponse::ConnectSuccess).unwrap();
    assert_eq!(
        receive_network_events(&mut near, 2),
        vec![
            NetworkResult::Connect(ConnectResult::Success),
            NetworkResult::Login(LoginResult::Success)
        ]
    );
    assert_eq!(receive_network_events(&mut near, 0), vec![]);
    drop(far);
    assert_eq!(
        receive_network_events(&mut near, 8),
        vec![NetworkResult::Connect(ConnectResult::Success)]
    );
    assert_eq!(receive_network_events(&mut near, 8), vec![]);
}

#[test]
fn the_answers_of_the_stream_are_taken_up_to_the_limit() {
    let (mut near, mut far) = bridge::<(), WebSocketResponse>();
    far.send(WebSocketResponse::ConnectSuccess).unwrap();
    far.send(WebSocketResponse::Event("{}".to_string())).unwrap();
    far.send(WebSocketResponse::Error).unwrap();
    assert_eq!(
        receive_websocket_responses(&mut near, 1),
        vec![WebSocketResponse::ConnectSuccess]
    );
    assert_eq!(
        receive_websocket_responses(&mut near, 5),
        vec![
            WebSocketResponse::Event("{}".to_string()),
            WebSocketResponse::Error
        ]
    );
    assert_eq!(receive_websocket_responses(&mut near, 5), vec![]);
}
