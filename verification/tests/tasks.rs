use absquic::con::ConEvt;
use absquic::con::Header;
use absquic::con::Http3Msg;
use absquic::con::Opaque;
use absquic::error::AqErr;
use absquic::quiche::con::body_part;
use absquic::quiche::con::ConCmd;
use absquic::quiche::con::ConTask;
use absquic::quiche::con::Got;
use absquic::quiche::con::H3Event;
use absquic::quiche::con::TaskAct;
use absquic::quiche::con::TaskEvt;
use absquic::quiche::ep::cid;
use absquic::quiche::ep::EpCmd;
use absquic::quiche::ep::EpTask;
use absquic::quiche::ep::EpTaskAct;
use absquic::quiche::ep::EpTaskEvt;
use absquic::quiche::ep::PakHeader;
use absquic::quiche::ep::UdpTask;
use absquic::quiche::ep::UdpTaskAct;
use absquic::quiche::ep::UdpTaskEvt;
use bytes::Bytes;

#[test]
fn ids_are_the_number_and_a_mark() {
    assert_eq!(
        cid(0x0102),
        vec![2, 1, 0, 0, 0, 0, 0, 0, 0xdb, 0xdb, 0xdb, 0xdb, 0xdb, 0xdb, 0xdb, 0xdb]
    );
    assert_eq!(cid(u64::MAX)[..8], [255; 8]);
    let mut ids: Vec<Vec<u8>> = (0..1000).map(cid).collect();
    ids.sort();
    ids.dedup();
    assert_eq!(ids.len(), 1000);
    assert!(ids.iter().all(|id| id.len() == 16));
}

type Ep = EpTask<&'static str>;
type EpEvt = EpTaskEvt<u8, u16, char, &'static str, bool>;
type EpAct = EpTaskAct<u8, u16, char, &'static str, bool>;

fn hdr(known: bool, initial: bool) -> Option<PakHeader> {
    Some(PakHeader { known, initial })
}

#[test]
fn an_endpoint_accepts_with_room_for_the_event() {
    let mut task = Ep::new();
    assert!(matches!(task.step(EpEvt::Next), EpAct::RecvCmd));
    let cmd = match task.step(EpEvt::Cmd(Some(EpCmd::InPak(Some(Ok(1)))))) {
        EpAct::AcquireEvt(cmd) => cmd,
        _ => panic!("expected to wait for room"),
    };
    assert!(matches!(
        task.step(EpEvt::Guard(cmd, "room")),
        EpAct::Parse(1)
    ));
    assert!(matches!(
        task.step(EpEvt::Parsed(1, hdr(false, true))),
        EpAct::Accept(1, "room")
    ));
    assert!(task.evt_guard.is_none());
    assert!(matches!(
        task.step(EpEvt::Cmd(Some(EpCmd::NewCon(80, 'c')))),
        EpAct::AcquireEvt(EpCmd::NewCon(80, 'c'))
    ));
    assert!(matches!(
        task.step(EpEvt::Guard(EpCmd::NewCon(80, 'c'), "room")),
        EpAct::Connect(80, 'c')
    ));
    assert_eq!(task.evt_guard, Some("room"));
}

#[test]
fn an_endpoint_passes_packets_on() {
    let mut task = Ep::new();
    task.step(EpEvt::Guard(EpCmd::InPak(Some(Ok(1))), "room"));
    assert!(matches!(
        task.step(EpEvt::Parsed(1, hdr(true, true))),
        EpAct::TryAcquire(1)
    ));
    assert!(matches!(
        task.step(EpEvt::ConGuard(1, Some(true))),
        EpAct::Pass(1, true)
    ));
    assert!(matches!(task.step(EpEvt::Passed(true)), EpAct::RecvCmd));
    assert!(matches!(task.step(EpEvt::Passed(false)), EpAct::RemoveCon));
    // a packet that finds no room, belongs to nobody or has no header goes
    assert!(matches!(
        task.step(EpEvt::ConGuard(1, None)),
        EpAct::RecvCmd
    ));
    assert!(matches!(
        task.step(EpEvt::Parsed(1, hdr(false, false))),
        EpAct::RecvCmd
    ));
    assert!(matches!(task.step(EpEvt::Parsed(1, None)), EpAct::RecvCmd));
    assert!(matches!(
        task.step(EpEvt::Cmd(Some(EpCmd::InPak(Some(Err(AqErr::SocketClosed)))))),
        EpAct::RecvCmd
    ));
    assert_eq!(task.evt_guard, Some("room"));
}

#[test]
fn an_endpoint_ends_with_its_socket_or_its_commands() {
    let mut task = Ep::new();
    assert!(matches!(task.step(EpEvt::Cmd(None)), EpAct::End));
    assert!(task.over);
    let mut task = Ep::new();
    assert!(matches!(
        task.step(EpEvt::Guard(EpCmd::InPak(None), "room")),
        EpAct::End
    ));
    assert!(task.over);
}

#[test]
fn the_socket_is_read_only_with_room() {
    let mut task = UdpTask::new();
    assert!(matches!(
        task.step(UdpTaskEvt::<u8, char>::Next),
        UdpTaskAct::Acquire
    ));
    assert!(matches!(
        task.step(UdpTaskEvt::<u8, char>::Guard('g')),
        UdpTaskAct::Recv('g')
    ));
    assert!(matches!(
        task.step(UdpTaskEvt::Came('g', Some(Ok(1)))),
        UdpTaskAct::Send('g', Some(Ok(1)))
    ));
    assert!(matches!(
        task.step(UdpTaskEvt::<u8, char>::Sent(true)),
        UdpTaskAct::Acquire
    ));
    assert!(matches!(
        task.step(UdpTaskEvt::<u8, char>::Sent(false)),
        UdpTaskAct::End
    ));
    assert!(matches!(
        task.step(UdpTaskEvt::<u8, char>::Came('g', None)),
        UdpTaskAct::Send('g', None)
    ));
    assert!(matches!(
        task.step(UdpTaskEvt::<u8, char>::Sent(true)),
        UdpTaskAct::End
    ));
}

type Con = ConTask<u8, u16, char>;
type Evt = TaskEvt<&'static str, u8, u16, char, u64, i8>;
type Act = TaskAct<&'static str, u8, u16, u64, i8, ConEvt>;

fn cmd(cmd: ConCmd<&'static str, char>) -> Evt {
    Evt::Cmd(Some((cmd, 1)))
}

#[test]
fn packets_are_sent_after_each_command_that_may_cause_some() {
    let mut task = Con::new(false);
    assert!(matches!(
        task.step(cmd(ConCmd::InPak("p"))),
        Act::RecvPak("p")
    ));
    assert!(matches!(task.step(Evt::Handled), Act::PollTimeout));
    assert!(matches!(
        task.step(Evt::Timeout(Some(50))),
        Act::Schedule(50, 1)
    ));
    assert!(matches!(task.step(Evt::Handled), Act::AcquireEvt));
    assert!(matches!(task.step(Evt::Guard(2)), Act::CheckEstablished));
    assert!(matches!(task.step(Evt::Established(false)), Act::SendPak));
    assert!(matches!(
        task.step(Evt::Pak(Got::Item(5))),
        Act::Transmit(5)
    ));
    assert!(matches!(task.step(Evt::Handled), Act::SendPak));
    assert!(matches!(task.step(Evt::Pak(Got::Done)), Act::RecvCmd));

    assert!(matches!(task.step(cmd(ConCmd::Timeout)), Act::OnTimeout));
    assert!(matches!(task.step(Evt::Handled), Act::PollTimeout));
    assert!(matches!(task.step(Evt::Timeout(None)), Act::CheckEstablished));
    assert!(matches!(
        task.step(Evt::Established(true)),
        Act::Send(2, ConEvt::Connected)
    ));
    assert!(matches!(task.step(Evt::Sent(false)), Act::SendPak));
    assert!(matches!(task.step(Evt::Pak(Got::Failed)), Act::End));
}

#[test]
fn a_connection_ends_with_its_commands() {
    let mut task = Con::new(true);
    assert!(matches!(task.step(Evt::Cmd(None)), Act::End));
}

/// A task with http3 that asks what happened.
fn with_h3() -> Con {
    let mut task = Con::new(true);
    assert!(matches!(task.step(cmd(ConCmd::Tick)), Act::PollTimeout));
    task.step(Evt::Timeout(None));
    task.step(Evt::Guard(2));
    assert!(matches!(task.step(Evt::Established(true)), Act::OpenH3));
    assert!(matches!(
        task.step(Evt::H3Opened(true)),
        Act::Send(2, ConEvt::Connected)
    ));
    assert!(matches!(task.step(Evt::Sent(true)), Act::AcquireEvt));
    assert!(matches!(task.step(Evt::Guard(3)), Act::PollH3));
    task
}

#[test]
fn without_http3_there_is_nothing_to_poll() {
    let mut task = Con::new(true);
    task.step(cmd(ConCmd::Tick));
    task.step(Evt::Timeout(None));
    task.step(Evt::Guard(2));
    task.step(Evt::Established(true));
    assert!(matches!(
        task.step(Evt::H3Opened(false)),
        Act::Send(2, ConEvt::Connected)
    ));
    assert!(matches!(task.step(Evt::Sent(true)), Act::SendPak));
}

fn headers() -> Vec<Header> {
    vec![(b":status".to_vec(), b"200".to_vec())]
}

#[test]
fn messages_are_put_together() {
    let mut task = with_h3();
    assert!(matches!(
        task.step(Evt::H3(H3Event::Headers(8, headers(), true))),
        Act::PollH3
    ));
    assert!(matches!(
        task.step(Evt::H3(H3Event::Data(8))),
        Act::RecvBody(8)
    ));
    for part in [b"hello ".as_ref(), b"world".as_ref()] {
        assert!(matches!(
            task.step(Evt::Body(Got::Item(Bytes::copy_from_slice(part)))),
            Act::RecvBody(8)
        ));
    }
    assert!(matches!(task.step(Evt::Body(Got::Done)), Act::PollH3));
    match task.step(Evt::H3(H3Event::Finished(8))) {
        Act::Send(3, ConEvt::Http3(msg)) => {
            assert_eq!(msg.headers, headers());
            assert_eq!(msg.body.concat(), b"hello world".to_vec());
            assert_eq!(msg.reference, Opaque(8));
        }
        _ => panic!("expected a message"),
    }
    assert!(task.inbound.is_empty());
    assert!(matches!(task.step(Evt::Sent(true)), Act::AcquireEvt));
    assert!(matches!(task.step(Evt::Guard(4)), Act::PollH3));
    // nothing is told of a stream without headers
    assert!(matches!(
        task.step(Evt::H3(H3Event::Finished(8))),
        Act::PollH3
    ));
}

#[test]
fn a_message_without_a_body_is_complete() {
    let mut task = with_h3();
    match task.step(Evt::H3(H3Event::Headers(8, headers(), false))) {
        Act::Send(3, ConEvt::Http3(msg)) => {
            assert_eq!(msg.headers, headers());
            assert!(msg.body.is_empty());
        }
        _ => panic!("expected a message"),
    }
    assert!(matches!(task.step(Evt::Sent(false)), Act::End));
}

#[test]
fn a_reset_message_is_forgotten() {
    let mut task = with_h3();
    task.step(Evt::H3(H3Event::Headers(8, headers(), true)));
    assert!(matches!(
        task.step(Evt::H3(H3Event::Reset(8))),
        Act::PollH3
    ));
    assert!(task.inbound.is_empty());
    assert!(matches!(task.step(Evt::H3(H3Event::Done)), Act::SendPak));
}

#[test]
fn http3_ends_with_an_error_or_a_farewell() {
    for evt in [H3Event::Failed, H3Event::GoAway] {
        assert!(matches!(with_h3().step(Evt::H3(evt)), Act::End));
    }
    let mut task = with_h3();
    assert!(matches!(
        task.step(Evt::H3(H3Event::Datagram(2))),
        Act::RecvDgram
    ));
    assert!(matches!(task.step(Evt::Dgram(Got::Item(2))), Act::RecvDgram));
    assert!(matches!(task.step(Evt::Dgram(Got::Item(3))), Act::End));
    let mut task = with_h3();
    task.step(Evt::H3(H3Event::Datagram(2)));
    assert!(matches!(task.step(Evt::Dgram(Got::Done)), Act::PollH3));
    task.step(Evt::H3(H3Event::Data(8)));
    assert!(matches!(task.step(Evt::Body(Got::Failed)), Act::End));
}

#[test]
fn requests_wait_and_responses_go_to_their_stream() {
    let mut task = with_h3();
    task.step(Evt::H3(H3Event::Done));
    task.step(Evt::Pak(Got::Done));
    let request = |body: Vec<Bytes>| Http3Msg {
        headers: headers(),
        body,
        reference: Opaque::default(),
    };
    assert!(matches!(
        task.step(cmd(ConCmd::Http3(request(vec![]), 'a'))),
        Act::PollTimeout
    ));
    assert_eq!(task.outbound_wait.len(), 1);
    assert!(matches!(
        task.step(Evt::Timeout(None)),
        Act::SendRequest(true)
    ));
    assert!(matches!(task.step(Evt::RequestBlocked), Act::PollH3));
    // a message alone gives no reason to send packets
    assert!(matches!(task.step(Evt::H3(H3Event::Done)), Act::RecvCmd));

    task.step(cmd(ConCmd::Http3(request(vec![Bytes::new()]), 'b')));
    assert_eq!(task.outbound_wait.len(), 2);
    task.outbound_wait.pop_front();
    assert!(matches!(
        task.step(Evt::Timeout(None)),
        Act::SendRequest(false)
    ));
    task.step(Evt::RequestBlocked);
    task.step(Evt::H3(H3Event::Done));

    let response = Http3Msg {
        headers: headers(),
        body: vec![],
        reference: Opaque(12),
    };
    task.step(cmd(ConCmd::Http3(response, 'c')));
    assert_eq!(task.outbound_wait.len(), 1);
    assert_eq!(task.outbound[&12].reference, Some(12));
    assert_eq!(task.outbound[&12].rsp, 'c');
}

#[test]
fn a_body_part_is_the_front_of_the_buffer() {
    assert_eq!(body_part(b"hello", 2).as_ref(), b"he");
    assert!(body_part(b"hello", 0).is_empty());
    assert_eq!(body_part(b"hello", 5).as_ref(), b"hello");
}
