use absquic::endpoint::EndpointCmd;
use absquic::error::AqErr;
use absquic::quinn::command::CommandAct;
use absquic::quinn::command::CommandDriver;
use absquic::quinn::command::CommandEvt;
use absquic::quinn::command::EpCmd;
use absquic::quinn::endpoint::EndpointDriver;
use absquic::quinn::endpoint::EpRoundAct;
use absquic::quinn::endpoint::EpRoundEvt;
use absquic::quinn::udp_in::PacketMeans;
use absquic::quinn::udp_in::UdpInAct;
use absquic::quinn::udp_in::UdpInDriver;
use absquic::quinn::udp_in::UdpInEvt;
use absquic::quinn::udp_in::CON_BUF_LIM;
use absquic::quinn::Wish;
use absquic::runtime::ChannelClosed;
use std::task::Poll;

fn wish(more_work: bool, want_close: bool) -> Wish {
    Wish {
        more_work,
        want_close,
    }
}

/// One round after the other, until the driver rests or fails.
fn ep_rounds(rounds: &[([Wish; 3], u128)]) -> (usize, EpRoundAct) {
    let mut d = EndpointDriver::new();
    let mut act = d.poll_inner(EpRoundEvt::Begin);
    for (i, (parts, elapsed)) in rounds.iter().enumerate() {
        assert!(matches!(act, EpRoundAct::Commands));
        assert!(matches!(
            d.poll_inner(EpRoundEvt::Wish(parts[0])),
            EpRoundAct::UdpIn
        ));
        assert!(matches!(
            d.poll_inner(EpRoundEvt::Wish(parts[1])),
            EpRoundAct::Transmit
        ));
        act = d.poll_inner(EpRoundEvt::Wish(parts[2]));
        if let EpRoundAct::CheckTime = act {
            act = d.poll_inner(EpRoundEvt::Elapsed(*elapsed));
        }
        match act {
            EpRoundAct::Commands => (),
            _ => return (i + 1, act),
        }
    }
    panic!("the driver goes on");
}

#[test]
fn an_endpoint_ends_when_all_its_parts_do() {
    let close = wish(false, true);
    let idle = wish(false, false);
    assert!(matches!(
        ep_rounds(&[([close, close, close], 0)]),
        (1, EpRoundAct::Fail(AqErr::EpDriverClosing))
    ));
    for parts in [
        [idle, close, close],
        [close, idle, close],
        [close, close, idle],
    ] {
        assert!(matches!(
            ep_rounds(&[(parts, 0)]),
            (1, EpRoundAct::Pend(false))
        ));
    }
}

#[test]
fn an_endpoint_goes_on_while_there_is_work_and_time() {
    let idle = wish(false, false);
    let busy = wish(true, false);
    assert!(matches!(
        ep_rounds(&[([busy, idle, idle], 9), ([idle, busy, idle], 9), ([idle, idle, idle], 9)]),
        (3, EpRoundAct::Pend(false))
    ));
    assert!(matches!(
        ep_rounds(&[([idle, idle, busy], 10)]),
        (1, EpRoundAct::Pend(true))
    ));
}

type Cmds = CommandDriver<char>;
type CmdEvt = CommandEvt<char, u8, u16, u32, u64, i8>;
type CmdAct = CommandAct<char, u8, u16, u32, u64, i8>;

#[test]
fn commands_are_taken_with_a_permit_for_the_socket() {
    let mut d = Cmds::new();
    assert!(matches!(d.poll(CmdEvt::Next), CmdAct::AcquireUdp));
    assert!(matches!(
        d.poll(CmdEvt::UdpPermit(Poll::Ready(Ok('p')))),
        CmdAct::Recv
    ));
    assert!(matches!(
        d.poll(CmdEvt::Cmd(Poll::Ready(Some(EpCmd::EpEvt(3))))),
        CmdAct::HandleEvent(3)
    ));
    assert!(matches!(d.poll(CmdEvt::Next), CmdAct::Recv));
    assert!(matches!(
        d.poll(CmdEvt::Cmd(Poll::Ready(Some(EpCmd::EpCmd(
            EndpointCmd::GetLocalAddress(7)
        ))))),
        CmdAct::AskUdp('p', 7)
    ));
    assert!(matches!(d.poll(CmdEvt::Next), CmdAct::AcquireUdp));
    assert!(matches!(
        d.poll(CmdEvt::UdpPermit(Poll::Pending)),
        CmdAct::Done(Wish {
            more_work: true,
            want_close: false
        })
    ));
}

#[test]
fn without_a_socket_there_is_no_local_address() {
    let mut d = Cmds::new();
    assert!(matches!(d.poll(CmdEvt::Next), CmdAct::AcquireUdp));
    assert!(matches!(
        d.poll(CmdEvt::UdpPermit(Poll::Ready(Err(ChannelClosed)))),
        CmdAct::Recv
    ));
    assert!(matches!(
        d.poll(CmdEvt::Cmd(Poll::Ready(Some(EpCmd::EpCmd(
            EndpointCmd::GetLocalAddress(7)
        ))))),
        CmdAct::RefuseAddress(7, AqErr::SocketDisconnected)
    ));
    assert!(matches!(d.poll(CmdEvt::Next), CmdAct::Recv));
}

#[test]
fn connecting_is_answered_either_way() {
    let mut d = Cmds::new();
    d.poll(CmdEvt::Next);
    d.poll(CmdEvt::UdpPermit(Poll::Ready(Ok('p'))));
    match d.poll(CmdEvt::Cmd(Poll::Ready(Some(EpCmd::EpCmd(
        EndpointCmd::Connect {
            sender: 1,
            addr: 2,
            server_name: "localhost".to_string(),
        },
    ))))) {
        CmdAct::Connect(1, 2, name) => assert_eq!(name, "localhost"),
        _ => panic!("expected to connect"),
    }
    assert!(matches!(
        d.poll(CmdEvt::Connected(1, Ok(5))),
        CmdAct::Register(1, 5)
    ));
    assert!(matches!(
        d.poll(CmdEvt::Connected(1, Err(AqErr::Other("no".to_string())))),
        CmdAct::RefuseConnect(1, AqErr::Other(_))
    ));
}

#[test]
fn no_more_commands_than_rounds_are_taken() {
    let mut d = Cmds::new();
    let mut taken = 0;
    let mut act = d.poll(CmdEvt::Next);
    let end = loop {
        act = match act {
            CmdAct::AcquireUdp => d.poll(CmdEvt::UdpPermit(Poll::Ready(Ok('p')))),
            CmdAct::Recv => {
                taken += 1;
                d.poll(CmdEvt::Cmd(Poll::Ready(Some(EpCmd::EpEvt(0)))))
            }
            CmdAct::Done(wish) => break wish,
            _ => d.poll(CmdEvt::Next),
        };
    };
    assert_eq!(taken, 32);
    assert!(end.more_work && !end.want_close);

    d.restart();
    assert!(matches!(d.poll(CmdEvt::Next), CmdAct::AcquireUdp));
    assert!(matches!(
        d.poll(CmdEvt::UdpPermit(Poll::Ready(Ok('p')))),
        CmdAct::Recv
    ));
    assert!(matches!(
        d.poll(CmdEvt::Cmd(Poll::Ready(None))),
        CmdAct::Done(Wish {
            more_work: false,
            want_close: true
        })
    ));
    d.restart();
    assert!(matches!(
        d.poll(CmdEvt::Next),
        CmdAct::Done(Wish {
            more_work: false,
            want_close: true
        })
    ));
}

type UdpIn = UdpInDriver<char, u8>;
type InEvt = UdpInEvt<char, u8, &'static str, bool, u32>;
type InAct = UdpInAct<char, u8, &'static str, bool, u32>;

fn receiving() -> UdpIn {
    let mut d = UdpIn::new();
    assert!(matches!(d.poll(InEvt::Next), InAct::Recv));
    d
}

/// A packet comes and means this.
fn packet(d: &mut UdpIn, means: Option<PacketMeans<char, u8>>) -> InAct {
    assert!(matches!(
        d.poll(InEvt::Packet(Poll::Ready(Some(1)))),
        InAct::Handle(1)
    ));
    d.poll(InEvt::Handled(means))
}

#[test]
fn packets_go_to_their_connections() {
    let mut d = receiving();
    assert!(matches!(
        packet(&mut d, Some(PacketMeans::ConEvt(4, 9))),
        InAct::AcquireEvt(4, 9)
    ));
    assert!(matches!(
        d.poll(InEvt::EvtPermit(4, 9, Some(Poll::Ready(Ok(true))))),
        InAct::SendEvt(true, 4, 9)
    ));
    assert!(matches!(d.poll(InEvt::Next), InAct::Recv));
    assert!(matches!(packet(&mut d, None), InAct::Skip));
    assert!(matches!(d.poll(InEvt::Next), InAct::Recv));
    assert!(matches!(
        packet(&mut d, Some(PacketMeans::ConEvt(4, 9))),
        InAct::AcquireEvt(4, 9)
    ));
    assert!(matches!(
        d.poll(InEvt::EvtPermit(4, 9, Some(Poll::Ready(Err(ChannelClosed))))),
        InAct::RemoveCon(4)
    ));
    assert!(matches!(d.poll(InEvt::Next), InAct::Recv));
    assert!(matches!(
        packet(&mut d, Some(PacketMeans::ConEvt(4, 9))),
        InAct::AcquireEvt(4, 9)
    ));
    assert!(matches!(
        d.poll(InEvt::EvtPermit(4, 9, None)),
        InAct::Skip
    ));
    assert!(matches!(d.poll(InEvt::Next), InAct::Recv));
    assert!(matches!(
        d.poll(InEvt::Packet(Poll::Pending)),
        InAct::Done(Wish {
            more_work: true,
            want_close: false
        })
    ));
}

#[test]
fn events_wait_in_order_for_their_connection() {
    let mut d = receiving();
    for (hnd, evt) in [(4, 1), (5, 2), (4, 3)] {
        packet(&mut d, Some(PacketMeans::ConEvt(hnd, evt)));
        assert!(matches!(
            d.poll(InEvt::EvtPermit(hnd, evt, Some(Poll::Pending))),
            InAct::Skip
        ));
        assert!(matches!(d.poll(InEvt::Next), InAct::Recv));
    }
    assert_eq!(d.buffer_space(), CON_BUF_LIM - 3);
    d.restart();
    assert!(matches!(d.poll(InEvt::Next), InAct::AcquireConEvt(4)));
    assert!(matches!(
        d.poll(InEvt::ConEvtPermit(Some(Poll::Ready(Ok(true))))),
        InAct::SendEvt(true, 4, 1)
    ));
    assert!(matches!(d.poll(InEvt::Next), InAct::AcquireConEvt(4)));
    assert!(matches!(
        d.poll(InEvt::ConEvtPermit(Some(Poll::Pending))),
        InAct::AcquireConEvt(5)
    ));
    assert!(matches!(
        d.poll(InEvt::ConEvtPermit(Some(Poll::Ready(Err(ChannelClosed))))),
        InAct::RemoveCon(5)
    ));
    assert!(matches!(d.poll(InEvt::Next), InAct::Recv));
    assert_eq!(d.buffer_space(), CON_BUF_LIM - 1);
    d.restart();
    assert!(matches!(d.poll(InEvt::Next), InAct::AcquireConEvt(4)));
    assert!(matches!(d.poll(InEvt::ConEvtPermit(None)), InAct::Recv));
    assert_eq!(d.buffer_space(), CON_BUF_LIM);
}

#[test]
fn new_connections_wait_for_the_user() {
    let mut d = receiving();
    assert!(matches!(
        packet(&mut d, Some(PacketMeans::NewCon(1, 'a'))),
        InAct::AcquireCon(1, 'a')
    ));
    assert!(matches!(
        d.poll(InEvt::ConPermit(1, 'a', Poll::Pending)),
        InAct::Skip
    ));
    assert!(matches!(d.poll(InEvt::Next), InAct::Recv));
    packet(&mut d, Some(PacketMeans::NewCon(2, 'b')));
    assert!(matches!(
        d.poll(InEvt::ConPermit(2, 'b', Poll::Ready(Ok("go")))),
        InAct::Register("go", 2, 'b')
    ));
    d.restart();
    assert!(matches!(d.poll(InEvt::Next), InAct::AcquireNewCon));
    assert!(matches!(
        d.poll(InEvt::NewConPermit(Poll::Ready(Ok("go")))),
        InAct::Register("go", 1, 'a')
    ));
    assert!(matches!(d.poll(InEvt::Next), InAct::Recv));
}

#[test]
fn without_a_user_and_packets_there_is_nothing_to_do() {
    let mut d = receiving();
    packet(&mut d, Some(PacketMeans::NewCon(1, 'a')));
    assert!(matches!(
        d.poll(InEvt::ConPermit(1, 'a', Poll::Ready(Err(ChannelClosed)))),
        InAct::Skip
    ));
    assert!(matches!(d.poll(InEvt::Next), InAct::Recv));
    assert!(matches!(
        d.poll(InEvt::Packet(Poll::Ready(None))),
        InAct::Done(Wish {
            more_work: true,
            want_close: true
        })
    ));
    d.restart();
    assert!(matches!(
        d.poll(InEvt::Next),
        InAct::Done(Wish {
            more_work: false,
            want_close: true
        })
    ));
}

#[test]
fn no_more_waits_than_may() {
    let mut d = UdpIn::new();
    let mut waiting = 0;
    loop {
        d.restart();
        let mut act = d.poll(InEvt::Next);
        while let InAct::AcquireConEvt(_) = act {
            act = d.poll(InEvt::ConEvtPermit(Some(Poll::Pending)));
        }
        let mut taken = 0;
        while let InAct::Recv = act {
            packet(&mut d, Some(PacketMeans::ConEvt(waiting % 3, 0)));
            d.poll(InEvt::EvtPermit(waiting % 3, 0, Some(Poll::Pending)));
            waiting += 1;
            taken += 1;
            assert!(waiting <= CON_BUF_LIM);
            act = d.poll(InEvt::Next);
        }
        assert!(taken <= 32);
        if taken == 0 {
            break;
        }
    }
    assert_eq!(waiting, 128);
    assert_eq!(d.buffer_space(), 0);
}
