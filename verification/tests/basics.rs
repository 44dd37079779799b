use absquic::backend::ecn_code;
use absquic::backend::ecn_codepoint;
use absquic::backend::util::UdpTestAct;
use absquic::backend::util::UdpTestDriver;
use absquic::backend::util::UdpTestEvt;
use absquic::con::Http3MsgBuilder;
use absquic::con::Opaque;
use absquic::connection::wait_connected;
use absquic::connection::ConnectionEvt;
use absquic::error::other_err;
use absquic::error::AqErr;
use absquic::out_chan::OutChan;
use absquic::stream::buf_list::BufList;
use absquic::udp::poll_next;
use absquic::udp::send_task;
use absquic::udp::SendAct;
use absquic::udp::SendCmd;
use absquic::udp::Shutdown;
use absquic::udp::TokioUdpFactory;
use bytes::Bytes;
use quinn_proto::EcnCodepoint;
use std::collections::VecDeque;
use std::task::Poll;

type Evt = ConnectionEvt<u8, u16>;

#[test]
fn every_error_has_its_text() {
    let texts = [
        (AqErr::ChannelClosed, "ChannelClosed"),
        (AqErr::UnexpectedEvent, "UnexpectedEvent"),
        (AqErr::UnexpectedEof, "UnexpectedEOF"),
        (AqErr::SocketDisconnected, "SocketDisconnected"),
        (AqErr::SocketClosed, "SocketClosed"),
        (AqErr::EndpointClosed, "EndpointClosed"),
        (AqErr::ConShutdown, "ConShutdown"),
        (AqErr::ConnectionClosing, "ConnectionClosing"),
        (
            AqErr::UniStreamPending,
            "pending outgoing uni stream already registered, only call open_uni_stream from a single clone of the connection",
        ),
        (
            AqErr::BiStreamPending,
            "pending outgoing bi stream already registered, only call open_bi_stream from a single clone of the connection",
        ),
        (AqErr::UniStreamFailed, "failed to open uni stream"),
        (AqErr::BiStreamFailed, "failed to open bi stream"),
        (AqErr::InvalidConnectionHandle, "InvalidConnectionHandle"),
        (AqErr::CloseImmediate, "CloseImmediate"),
        (AqErr::UdpDriverClosing, "QuinnUdpBackendDriverClosing"),
        (AqErr::EpDriverClosing, "QuinnEpDriverClosing"),
        (AqErr::ConDriverClosing, "QuinnConDriverClosing"),
        (
            AqErr::AwaitingConnectedEnd,
            "awaiting connected, got end of stream",
        ),
        (AqErr::Stopped(0), "0"),
        (AqErr::Stopped(42), "42"),
        (AqErr::Stopped(u64::MAX), "18446744073709551615"),
        (other_err("timed out".to_string()), "timed out"),
    ];
    for (err, text) in texts {
        assert_eq!(err.message(), text);
    }
}

#[test]
fn waiting_for_a_connection() {
    assert!(wait_connected::<u8, u16>(Some(ConnectionEvt::HandshakeDataReady)).is_none());
    assert!(matches!(
        wait_connected::<u8, u16>(Some(ConnectionEvt::Connected)),
        Some(Ok(()))
    ));
    assert!(matches!(
        wait_connected::<u8, u16>(None),
        Some(Err(AqErr::UnexpectedEof))
    ));
    let others: Vec<Evt> = vec![
        ConnectionEvt::Error(AqErr::ConShutdown),
        ConnectionEvt::InUniStream(1),
        ConnectionEvt::InBiStream(2, 1),
        ConnectionEvt::InDatagram(Bytes::from_static(b"x")),
    ];
    for evt in others {
        assert!(matches!(
            wait_connected(Some(evt)),
            Some(Err(AqErr::UnexpectedEvent))
        ));
    }
}

/// What all events of a connection come to for somebody who waits.
fn wait_all(evts: Vec<Evt>) -> Result<(), AqErr> {
    let mut evts: VecDeque<Evt> = evts.into();
    loop {
        if let Some(answer) = wait_connected(evts.pop_front()) {
            return answer;
        }
    }
}

#[test]
fn only_handshake_data_may_come_before_connected() {
    assert!(wait_all(vec![
        ConnectionEvt::HandshakeDataReady,
        ConnectionEvt::HandshakeDataReady,
        ConnectionEvt::Connected,
        ConnectionEvt::InUniStream(1),
    ])
    .is_ok());
    assert!(matches!(
        wait_all(vec![ConnectionEvt::HandshakeDataReady]),
        Err(AqErr::UnexpectedEof)
    ));
    assert!(matches!(
        wait_all(vec![ConnectionEvt::InUniStream(1), ConnectionEvt::Connected]),
        Err(AqErr::UnexpectedEvent)
    ));
}

#[test]
fn http3_messages_are_built_in_order() {
    let msg = Http3MsgBuilder::new().build();
    assert!(msg.headers.is_empty());
    assert!(msg.body.is_empty());
    assert!(msg.reference.is_request());
    assert_eq!(msg.reference, Opaque::default());
    assert_eq!(msg.reference, Opaque(u64::MAX));

    let mut b = Http3MsgBuilder::default();
    b.add_header(b"a".to_vec(), b"1".to_vec());
    b.add_header(b"b".to_vec(), b"2".to_vec());
    b.append_body(Bytes::from_static(b"hello "));
    b.append_body(Bytes::from_static(b"world"));
    b.set_response(Opaque(4));
    let msg = b.build();
    assert_eq!(
        msg.headers,
        vec![
            (b"a".to_vec(), b"1".to_vec()),
            (b"b".to_vec(), b"2".to_vec())
        ]
    );
    assert_eq!(msg.body.concat(), b"hello world".to_vec());
    assert_eq!(msg.reference, Opaque(4));
    assert!(!msg.reference.is_request());
}

#[test]
fn out_chan_hands_out_in_order_and_wakes() {
    let mut chan: OutChan<u8, &str> = OutChan::new(4);
    assert!(chan.poll_recv("first").is_pending());
    assert!(chan.poll_recv("second").is_pending());
    let mut more: VecDeque<u8> = vec![1, 2].into();
    assert_eq!(chan.push_back(&mut more), Some("second"));
    assert!(more.is_empty());
    let mut more: VecDeque<u8> = vec![3].into();
    assert_eq!(chan.push_back(&mut more), None);
    for want in 1..4 {
        assert_eq!(chan.poll_recv("third"), Poll::Ready(Some(want)));
    }
    assert!(chan.poll_recv("third").is_pending());
    assert_eq!(chan.new_data_waker, Some("third"));
}

#[test]
fn shutdown_is_for_good_and_wakes() {
    let mut shutdown: Shutdown<u8> = Shutdown::new();
    assert!(!shutdown.is_shutdown(1));
    assert_eq!(shutdown.waker, Some(1));
    assert_eq!(shutdown.shutdown(), Some(1));
    assert!(shutdown.is_shutdown(2));
    assert_eq!(shutdown.waker, None);
    assert_eq!(shutdown.shutdown(), None);
}

#[test]
fn a_socket_ends_with_its_first_error() {
    let mut shutdown: Shutdown<u8> = Shutdown::new();
    let (got, waker) = poll_next::<u16, (), u8>(&mut shutdown, Poll::Pending);
    assert!(got.is_pending());
    assert_eq!(waker, None);

    let (got, _) = poll_next::<u16, (), u8>(&mut shutdown, Poll::Ready(Ok((80, b"abc".to_vec()))));
    match got {
        Poll::Ready(Some(Ok(pak))) => {
            assert_eq!(pak.addr, 80);
            assert_eq!(pak.data, b"abc".to_vec());
            assert_eq!(pak.ip, None);
            assert_eq!(pak.gso, None);
            assert_eq!(pak.ecn, None);
        }
        _ => panic!("expected a packet"),
    }

    assert!(!shutdown.is_shutdown(7));
    let (got, waker) =
        poll_next::<u16, (), u8>(&mut shutdown, Poll::Ready(Err(AqErr::SocketClosed)));
    assert!(matches!(got, Poll::Ready(Some(Err(AqErr::SocketClosed)))));
    assert_eq!(waker, Some(7));

    let (got, _) = poll_next::<u16, (), u8>(&mut shutdown, Poll::Ready(Ok((80, b"abc".to_vec()))));
    assert!(matches!(got, Poll::Ready(None)));
}

#[test]
fn receive_buffers_have_a_least_size() {
    assert_eq!(TokioUdpFactory::new(1, None).max_udp_size, 65536);
    assert_eq!(TokioUdpFactory::new(1, Some(1500)).max_udp_size, 65536);
    assert_eq!(TokioUdpFactory::new(1, Some(65536)).max_udp_size, 65536);
    assert_eq!(TokioUdpFactory::new(1, Some(70000)).max_udp_size, 70000);
    assert_eq!(TokioUdpFactory::new(9, None).addr, 9);
}

#[test]
fn a_packet_is_delayed_at_most_once() {
    type Cmd = SendCmd<u8, (), (), char>;
    match send_task(Cmd::Pak(1, Some(10), 'a'), 9) {
        SendAct::Delay(10, pak, rsp) => {
            match send_task(Cmd::Pak(pak, None, rsp), 9) {
                SendAct::Send(1, 'a') => (),
                _ => panic!("expected it to go out"),
            };
        }
        _ => panic!("expected a delay"),
    }
    assert!(matches!(
        send_task(Cmd::Pak(1, Some(10), 'a'), 10),
        SendAct::Send(1, 'a')
    ));
    assert!(matches!(
        send_task(Cmd::CloseImmediate(()), 0),
        SendAct::Close(())
    ));
    assert!(matches!(send_task(Cmd::Addr(()), 0), SendAct::LocalAddr(())));
}

#[test]
fn ecn_codepoints_are_the_lowest_two_bits() {
    assert_eq!(ecn_codepoint(None), None);
    assert_eq!(ecn_codepoint(Some(0)), None);
    assert_eq!(ecn_codepoint(Some(1)), Some(EcnCodepoint::Ect1));
    assert_eq!(ecn_codepoint(Some(2)), Some(EcnCodepoint::Ect0));
    assert_eq!(ecn_codepoint(Some(3)), Some(EcnCodepoint::Ce));
    assert_eq!(ecn_codepoint(Some(0b1111_1100)), None);
    assert_eq!(ecn_codepoint(Some(0b1010_1110)), Some(EcnCodepoint::Ect0));
    for bits in 0..=255 {
        let once = ecn_codepoint(Some(bits));
        let code = once.map(ecn_code);
        assert_eq!(code.unwrap_or(0), bits % 4);
        assert_eq!(ecn_codepoint(code), once);
    }
}

#[test]
fn test_driver_sends_receives_and_gives() {
    let mut d: UdpTestDriver<u8, u8> = UdpTestDriver::new();
    assert!(matches!(d.poll(UdpTestEvt::Begin), UdpTestAct::Take(false)));
    d.in_buf.push_back(1);
    assert!(matches!(
        d.poll(UdpTestEvt::Taken(false)),
        UdpTestAct::PollSend
    ));
    assert!(matches!(
        d.poll(UdpTestEvt::Sent(Poll::Pending)),
        UdpTestAct::PollRecv
    ));
    d.in_buf.clear();
    assert!(matches!(
        d.poll(UdpTestEvt::Sent(Poll::Ready(()))),
        UdpTestAct::RegisterAndRecv
    ));
    assert!(matches!(
        d.poll(UdpTestEvt::Received(Poll::Ready(()))),
        UdpTestAct::PollRecv
    ));
    assert!(matches!(
        d.poll(UdpTestEvt::Received(Poll::Pending)),
        UdpTestAct::Give(false)
    ));
    assert!(matches!(
        d.poll(UdpTestEvt::Given(true)),
        UdpTestAct::CheckShutdown
    ));
    d.out_buf.push_back(2);
    assert!(matches!(
        d.poll(UdpTestEvt::Shutdown(false)),
        UdpTestAct::Pend
    ));
    d.out_buf.clear();
    assert!(matches!(
        d.poll(UdpTestEvt::Shutdown(false)),
        UdpTestAct::Exit
    ));
    let mut d: UdpTestDriver<u8, u8> = UdpTestDriver::new();
    assert!(matches!(
        d.poll(UdpTestEvt::Shutdown(true)),
        UdpTestAct::Exit
    ));
}

#[test]
fn buf_list_is_one_run_of_bytes() {
    let mut list = BufList::new();
    assert_eq!(list.remaining(), 0);
    assert!(!list.has_remaining());
    assert!(list.chunk().is_empty());
    list.push_back(Bytes::from_static(b"abc"));
    list.push_back(Bytes::from_static(b"de"));
    list.push_back(Bytes::from_static(b"f"));
    assert_eq!(list.remaining(), 6);
    assert_eq!(list.chunk(), b"abc".as_ref());
    let chunks = list.chunks_vectored(2);
    assert_eq!(chunks, vec![b"abc".as_ref(), b"de".as_ref()]);
    assert_eq!(list.chunks_vectored(9).len(), 3);
    list.advance(1);
    assert_eq!(list.chunk(), b"bc".as_ref());
    list.advance(2);
    assert_eq!(list.chunk(), b"de".as_ref());
    list.advance(0);
    assert_eq!(list.remaining(), 3);
    list.advance(2);
    assert_eq!(list.into_vec(), b"f".to_vec());
}

#[test]
fn buf_list_gives_its_buffers_back() {
    let mut list = BufList::default();
    list.push_back(Bytes::from_static(b"ab"));
    list.push_back(Bytes::from_static(b""));
    let mut iter = list.into_iter();
    assert_eq!(iter.next(), Some(Bytes::from_static(b"ab")));
    assert_eq!(iter.next(), Some(Bytes::new()));
    assert_eq!(iter.next(), None);

    let mut list = BufList::new();
    list.push_back(Bytes::from_static(b"hello "));
    list.push_back(Bytes::from_static(b"world"));
    list.push_back(Bytes::new());
    assert_eq!(list.into_vec(), b"hello world".to_vec());

    for items in [["", "ab", "c"], ["ab", "", "c"], ["ab", "c", ""]] {
        let mut list = BufList::new();
        for item in items {
            list.push_back(Bytes::from_static(item.as_bytes()));
        }
        assert_eq!(list.into_vec(), b"abc".to_vec());
    }
    assert!(BufList::new().into_vec().is_empty());
}

#[test]
fn buf_list_drops_bytes_across_its_buffers() {
    let mut list = BufList::new();
    list.push_back(Bytes::from_static(b"abc"));
    list.push_back(Bytes::from_static(b"de"));
    list.advance(4);
    assert_eq!(list.remaining(), 1);
    assert_eq!(list.chunk(), b"e".as_ref());
    assert_eq!(list.chunks_vectored(9).len(), 1);
}

#[test]
fn buf_list_keeps_an_empty_buffer_behind_the_bytes_dropped() {
    let mut list = BufList::new();
    list.push_back(Bytes::from_static(b""));
    list.push_back(Bytes::from_static(b"ab"));
    list.push_back(Bytes::from_static(b""));
    list.push_back(Bytes::from_static(b"c"));
    list.advance(2);
    assert_eq!(list.chunks_vectored(9), vec![b"".as_ref(), b"c".as_ref()]);
}
