use absquic::backend::UdpBackendCmd;
use absquic::driver::connected;
use absquic::driver::Awaited;
use absquic::driver::ConTimer;
use absquic::driver::ConnectionEvt;
use absquic::driver::DriverAct;
use absquic::driver::DriverDo;
use absquic::driver::DriverEvt;
use absquic::driver::DriverInner;
use absquic::error::AqErr;
use absquic::quinn::proto::ConEvent;
use absquic::quinn::udp_in::PacketMeans;
use absquic::quinn::Wish;
use absquic::quinn_udp::chan_size;
use absquic::quinn_udp::end_round;
use absquic::quinn_udp::CmdAct;
use absquic::quinn_udp::CmdEvt;
use absquic::quinn_udp::CmdHandler;
use absquic::quinn_udp::PacketReader;
use absquic::quinn_udp::PacketSender;
use absquic::quinn_udp::QuinnUdpBackendFactory;
use absquic::quinn_udp::ReaderAct;
use absquic::quinn_udp::ReaderEvt;
use absquic::quinn_udp::Received;
use absquic::quinn_udp::RoundEnd;
use absquic::quinn_udp::SenderAct;
use absquic::quinn_udp::SenderEvt;
use absquic::runtime::ChannelClosed;
use std::task::Poll;
use std::time::Instant;

type Driver = DriverInner<u8, u16>;
type Evt = DriverEvt<u16, char, i8, &'static str>;
type Act = DriverDo<u8, char, i8, &'static str>;

#[test]
fn waiting_until_connected() {
    assert!(matches!(
        connected(Some(ConnectionEvt::HandshakeDataReady)),
        Awaited::Wait
    ));
    assert!(matches!(
        connected(Some(ConnectionEvt::Connected)),
        Awaited::Connected
    ));
    assert!(matches!(
        connected(Some(ConnectionEvt::ConnectionLost(AqErr::ConShutdown))),
        Awaited::Unexpected(ConnectionEvt::ConnectionLost(AqErr::ConShutdown))
    ));
    assert!(matches!(
        connected(None),
        Awaited::End(AqErr::AwaitingConnectedEnd)
    ));
}

#[test]
fn an_idle_driver_rests_safely() {
    let mut d = Driver::new(2);
    assert!(matches!(d.poll(Evt::Begin), Act::PollRecv(16)));
    assert!(matches!(
        d.poll(Evt::Received(Poll::Pending)),
        Act::NextCon
    ));
    assert!(matches!(d.poll(Evt::Con(None)), Act::EpPollTransmit));
    assert!(matches!(d.poll(Evt::Packet(None)), Act::Pend(true)));
}

#[test]
fn packets_are_handled_in_order() {
    let mut d = Driver::new(1);
    d.poll(Evt::Begin);
    d.pending_recv.push_back(1);
    d.pending_recv.push_back(2);
    d.pending_recv.push_back(3);
    assert!(matches!(
        d.poll(Evt::Received(Poll::Ready(Ok(3)))),
        Act::PollRecv(8)
    ));
    assert!(matches!(
        d.poll(Evt::Received(Poll::Pending)),
        Act::HandlePacket(1)
    ));
    assert!(matches!(
        d.poll(Evt::Means(Some(PacketMeans::NewCon(4, 'c')))),
        Act::Register(4, 'c')
    ));
    assert!(matches!(d.poll(Evt::Handled), Act::HandlePacket(2)));
    assert!(matches!(
        d.poll(Evt::Means(Some(PacketMeans::ConEvt(4, "e")))),
        Act::PassOn(4, "e")
    ));
    assert!(matches!(d.poll(Evt::Handled), Act::HandlePacket(3)));
    assert!(matches!(d.poll(Evt::Means(None)), Act::NextCon));
}

#[test]
fn a_failed_socket_ends_the_driver() {
    let mut d = Driver::new(1);
    d.poll(Evt::Begin);
    assert!(matches!(
        d.poll(Evt::Received(Poll::Ready(Err(AqErr::SocketClosed)))),
        Act::Fail(AqErr::SocketClosed)
    ));
}

/// A driver that is about to serve this connection.
fn serving(timer: ConTimer) -> (Driver, Act) {
    let mut d = Driver::new(1);
    d.poll(Evt::Begin);
    d.poll(Evt::Received(Poll::Pending));
    let act = d.poll(Evt::Con(Some(timer)));
    (d, act)
}

#[test]
fn a_connection_is_served_in_order() {
    let (mut d, act) = serving(ConTimer {
        timeout: true,
        scheduled: false,
    });
    assert!(matches!(act, Act::HandleTimeout));
    assert!(matches!(d.poll(Evt::Handled), Act::PollTransmit));
    assert!(matches!(
        d.poll(Evt::Packet(Some(7))),
        Act::PollTransmit
    ));
    assert!(matches!(d.poll(Evt::Packet(None)), Act::PollTimeout));
    let at = Instant::now();
    assert!(matches!(
        d.poll(Evt::Timeout(Some(at))),
        Act::Schedule(when) if when == at
    ));
    assert!(matches!(d.poll(Evt::Handled), Act::PollEpEvt));
    assert!(matches!(
        d.poll(Evt::EpEvt(Some(1))),
        Act::HandleEpEvt(1)
    ));
    assert!(matches!(
        d.poll(Evt::EpAnswer(Some("a"))),
        Act::HandleConEvt("a")
    ));
    assert!(matches!(d.poll(Evt::Handled), Act::PollEpEvt));
    assert!(matches!(d.poll(Evt::EpEvt(None)), Act::PollEvent));
    assert!(matches!(
        d.poll(Evt::Event(Some(ConEvent::HandshakeDataReady))),
        Act::PollEvent
    ));
    assert!(matches!(
        d.poll(Evt::Event(None)),
        Act::DropDatagram
    ));
    assert!(matches!(d.poll(Evt::Datagram(true)), Act::DropDatagram));
    // the answer of the endpoint gives reason to go over it again
    assert!(matches!(d.poll(Evt::Datagram(false)), Act::PollTransmit));
    assert!(matches!(d.poll(Evt::Packet(None)), Act::PollTimeout));
    assert!(matches!(
        d.poll(Evt::Timeout(Some(at))),
        Act::Reschedule(_)
    ));
    d.poll(Evt::Handled);
    assert!(matches!(d.poll(Evt::EpEvt(None)), Act::PollEvent));
    d.poll(Evt::Event(Some(ConEvent::Connected)));
    d.poll(Evt::Event(Some(ConEvent::ConnectionLost("lost".to_string()))));
    d.poll(Evt::Event(None));
    match d.poll(Evt::Datagram(false)) {
        DriverAct::Deliver(evts) => {
            assert_eq!(evts.len(), 3);
            assert!(matches!(evts[0], ConnectionEvt::HandshakeDataReady));
            assert!(matches!(evts[1], ConnectionEvt::Connected));
            assert!(
                matches!(&evts[2], ConnectionEvt::ConnectionLost(err) if err.message() == "lost")
            );
        }
        _ => panic!("expected events"),
    }
    assert!(matches!(d.poll(Evt::Handled), Act::NextCon));
    assert!(matches!(d.poll(Evt::Con(None)), Act::EpPollTransmit));
    assert!(matches!(d.poll(Evt::Packet(Some(8))), Act::EpPollTransmit));
    assert!(matches!(d.poll(Evt::Packet(None)), Act::PollSend));
    d.pending_send.clear();
    assert!(matches!(
        d.poll(Evt::Sent(Poll::Ready(()))),
        Act::Pend(true)
    ));
}

#[test]
fn no_more_packets_wait_than_may() {
    let (mut d, act) = serving(ConTimer {
        timeout: false,
        scheduled: true,
    });
    assert!(matches!(act, Act::PollTransmit));
    for i in 0..8 {
        let act = d.poll(Evt::Packet(Some(i)));
        if i < 7 {
            assert!(matches!(act, Act::PollTransmit));
        } else {
            assert!(matches!(act, Act::PollTimeout));
        }
    }
    assert_eq!(d.pending_send.len(), 8);
    assert!(!d.pend_safe);
    d.poll(Evt::Timeout(None));
    d.poll(Evt::EpEvt(None));
    d.poll(Evt::Event(None));
    assert!(matches!(d.poll(Evt::Datagram(false)), Act::NextCon));
    assert!(matches!(d.poll(Evt::Con(None)), Act::PollSend));
    // packets that stay make another round
    assert!(matches!(
        d.poll(Evt::Sent(Poll::Pending)),
        Act::PollRecv(8)
    ));
}

#[test]
fn a_busy_driver_rests_after_its_rounds() {
    let mut d = Driver::new(1);
    let mut rounds = 0;
    let mut act = d.poll(Evt::Begin);
    loop {
        act = match act {
            Act::PollRecv(_) => {
                rounds += 1;
                d.poll(Evt::Received(Poll::Ready(Ok(0))))
            }
            Act::NextCon => d.poll(Evt::Con(None)),
            Act::EpPollTransmit => d.poll(Evt::Packet(None)),
            Act::Pend(register) => {
                assert!(!register);
                break;
            }
            _ => panic!("expected nothing else"),
        };
    }
    assert_eq!(rounds, 100);
}

fn wish(more_work: bool, want_close: bool) -> Wish {
    Wish {
        more_work,
        want_close,
    }
}

fn factory<A>(
    addr: A,
    max_udp_size: Option<usize>,
) -> (QuinnUdpBackendFactory<A>, impl Fn() -> usize) {
    QuinnUdpBackendFactory::new(addr, max_udp_size, quinn_udp::UdpState::new())
}

#[test]
fn sockets_have_sizes() {
    assert_eq!(chan_size(), quinn_udp::BATCH_SIZE.max(8) * 2);
    assert_eq!(factory(1, None).0.max_udp_size, 65536);
    assert_eq!(factory(1, Some(9)).0.max_udp_size, 65536);
    assert_eq!(factory(1, Some(100_000)).0.max_udp_size, 100_000);
    assert_eq!(factory(7, None).0.addr, 7);
}

#[test]
fn a_udp_backend_comes_with_its_gso_provider() {
    let (udp_backend, max_gso_provider) = factory("localhost", None);
    let max_gso = max_gso_provider();
    assert!(max_gso > 0);
    assert_eq!(max_gso, udp_backend.state.max_gso_segments());
    assert_eq!(max_gso, quinn_udp::UdpState::new().max_gso_segments());
}

#[test]
fn socket_commands_are_taken() {
    let mut h = CmdHandler::new();
    assert!(matches!(h.poll(CmdEvt::<u8>::Next), CmdAct::Recv));
    assert!(matches!(
        h.poll(CmdEvt::Cmd(Poll::Ready(Some(UdpBackendCmd::GetLocalAddress(5))))),
        CmdAct::LocalAddress(5)
    ));
    assert!(matches!(
        h.poll(CmdEvt::<u8>::Cmd(Poll::Pending)),
        CmdAct::Done(Wish {
            more_work: false,
            want_close: false
        })
    ));
    assert!(matches!(
        h.poll(CmdEvt::<u8>::Cmd(Poll::Ready(Some(
            UdpBackendCmd::CloseImmediate
        )))),
        CmdAct::Fail(AqErr::CloseImmediate)
    ));
    h.restart();
    for _ in 0..32 {
        assert!(matches!(h.poll(CmdEvt::<u8>::Next), CmdAct::Recv));
        h.poll(CmdEvt::Cmd(Poll::Ready(Some(UdpBackendCmd::GetLocalAddress(5)))));
    }
    assert!(matches!(
        h.poll(CmdEvt::<u8>::Next),
        CmdAct::Done(Wish {
            more_work: true,
            want_close: false
        })
    ));
    h.restart();
    assert!(matches!(
        h.poll(CmdEvt::<u8>::Cmd(Poll::Ready(None))),
        CmdAct::Done(Wish {
            more_work: false,
            want_close: true
        })
    ));
    h.restart();
    assert!(matches!(
        h.poll(CmdEvt::<u8>::Next),
        CmdAct::Done(Wish {
            more_work: false,
            want_close: true
        })
    ));
}

#[test]
fn packets_are_sent_in_batches() {
    let mut s = PacketSender::new(2);
    assert!(matches!(s.poll(SenderEvt::Next), SenderAct::Recv));
    assert!(matches!(
        s.poll(SenderEvt::Recv(Poll::Ready(Some('a')))),
        SenderAct::Recv
    ));
    assert!(matches!(
        s.poll(SenderEvt::Recv(Poll::Ready(Some('b')))),
        SenderAct::PollSend
    ));
    assert!(matches!(
        s.poll(SenderEvt::Sent(Poll::Pending)),
        SenderAct::Done(Wish {
            more_work: false,
            want_close: false
        })
    ));
    assert!(matches!(s.poll(SenderEvt::Next), SenderAct::PollSend));
    assert!(matches!(
        s.poll(SenderEvt::Sent(Poll::Ready(1))),
        SenderAct::Done(Wish {
            more_work: true,
            want_close: false
        })
    ));
    assert_eq!(s.buffer, vec!['b']);
    assert!(matches!(
        s.poll(SenderEvt::Recv(Poll::Ready(None))),
        SenderAct::PollSend
    ));
    assert!(matches!(
        s.poll(SenderEvt::Sent(Poll::Ready(1))),
        SenderAct::Done(Wish {
            more_work: true,
            want_close: true
        })
    ));
    assert!(matches!(
        s.poll(SenderEvt::Next),
        SenderAct::Done(Wish {
            more_work: false,
            want_close: true
        })
    ));
    let mut s: PacketSender<char> = PacketSender::new(2);
    s.poll(SenderEvt::Next);
    assert!(matches!(
        s.poll(SenderEvt::Recv(Poll::Pending)),
        SenderAct::Done(Wish {
            more_work: false,
            want_close: false
        })
    ));
}

type REvt = ReaderEvt<u8, char>;
type RAct = ReaderAct<u8, char>;

#[test]
fn packets_are_received_with_a_permit_each() {
    let mut r = PacketReader::new(2);
    assert!(matches!(r.poll(REvt::Next), RAct::Acquire));
    assert!(matches!(
        r.poll(REvt::Permit(Poll::Ready(Ok(1)))),
        RAct::Acquire
    ));
    assert!(matches!(
        r.poll(REvt::Permit(Poll::Pending)),
        RAct::Done(Wish {
            more_work: false,
            want_close: false
        })
    ));
    assert!(matches!(
        r.poll(REvt::Permit(Poll::Ready(Ok(2)))),
        RAct::PollRecv
    ));
    assert!(matches!(
        r.poll(REvt::Recv(Poll::Pending)),
        RAct::Done(Wish {
            more_work: false,
            want_close: false
        })
    ));
    assert!(matches!(r.poll(REvt::Next), RAct::PollRecv));
    assert!(matches!(
        r.poll(REvt::Recv(Poll::Ready(Received::ConnectionReset))),
        RAct::Done(Wish {
            more_work: true,
            want_close: false
        })
    ));
    assert!(matches!(
        r.poll(REvt::Recv(Poll::Ready(Received::Failed(AqErr::SocketClosed)))),
        RAct::Fail(AqErr::SocketClosed)
    ));
    match r.poll(REvt::Recv(Poll::Ready(Received::Packets(vec!['a'])))) {
        RAct::Deliver(pairs, wish) => {
            assert_eq!(pairs, vec![(1, 'a')]);
            assert!(wish.more_work && !wish.want_close);
        }
        _ => panic!("expected packets"),
    }
    assert!(matches!(r.poll(REvt::Next), RAct::Acquire));
    r.poll(REvt::Permit(Poll::Ready(Ok(3))));
    match r.poll(REvt::Recv(Poll::Ready(Received::Packets(vec!['b', 'c'])))) {
        RAct::Deliver(pairs, wish) => {
            assert_eq!(pairs, vec![(2, 'b'), (3, 'c')]);
            assert!(wish.more_work && !wish.want_close);
        }
        _ => panic!("expected packets"),
    }
    assert!(matches!(
        r.poll(REvt::Permit(Poll::Ready(Err(ChannelClosed)))),
        RAct::Done(Wish {
            more_work: false,
            want_close: true
        })
    ));
    assert!(matches!(
        r.poll(REvt::Next),
        RAct::Done(Wish {
            more_work: false,
            want_close: true
        })
    ));
}

#[test]
fn a_socket_ends_when_all_its_parts_do() {
    let close = wish(false, true);
    let idle = wish(false, false);
    let busy = wish(true, false);
    assert!(matches!(
        end_round(close, close, close, 0),
        RoundEnd::Fail(AqErr::UdpDriverClosing)
    ));
    assert!(matches!(
        end_round(close, close, idle, 0),
        RoundEnd::Pend(false)
    ));
    assert!(matches!(end_round(busy, close, close, 9), RoundEnd::Again));
    assert!(matches!(
        end_round(close, busy, idle, 10),
        RoundEnd::Pend(true)
    ));
    assert!(matches!(
        end_round(idle, idle, idle, 0),
        RoundEnd::Pend(false)
    ));
}
