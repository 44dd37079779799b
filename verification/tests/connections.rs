use absquic::connection::ConnectionCmd;
use absquic::connection::ConnectionEvt;
use absquic::error::AqErr;
use absquic::quinn::connection::ConRoundAct;
use absquic::quinn::connection::ConRoundEvt;
use absquic::quinn::connection::ConnectionDriver;
use absquic::quinn::connection::Timer;
use absquic::quinn::connections::ConInfo;
use absquic::quinn::connections::ConsAct;
use absquic::quinn::connections::ConsEvt;
use absquic::quinn::connections::Disposition;
use absquic::quinn::connections::QuinnDriver;
use absquic::quinn::proto::ConEvent;
use absquic::quinn::proto::ConStreamEvent;
use absquic::quinn::proto::StreamDir;
use absquic::quinn::Wish;
use absquic::runtime::ChannelClosed;
use std::cell::Cell;
use std::future::Future;
use std::pin::Pin;
use std::rc::Rc;
use std::task::Context;
use std::task::Poll;

fn wish(more_work: bool, want_close: bool) -> Wish {
    Wish {
        more_work,
        want_close,
    }
}

/// A round with what its four parts say, from the question for the timer on.
fn con_round(
    d: &mut ConnectionDriver,
    due: bool,
    timeout: Option<u64>,
    parts: [Wish; 4],
    elapsed: u128,
) -> ConRoundAct {
    let mut act = d.poll_inner(ConRoundEvt::Due(due));
    if due {
        assert!(matches!(act, ConRoundAct::HandleTimeout));
        act = d.poll_inner(ConRoundEvt::Handled);
    }
    assert!(matches!(act, ConRoundAct::Commands));
    assert!(matches!(
        d.poll_inner(ConRoundEvt::Wish(parts[0])),
        ConRoundAct::StreamIo
    ));
    assert!(matches!(
        d.poll_inner(ConRoundEvt::Handled),
        ConRoundAct::Transmit
    ));
    assert!(matches!(
        d.poll_inner(ConRoundEvt::Wish(parts[1])),
        ConRoundAct::PollTimeout
    ));
    act = d.poll_inner(ConRoundEvt::Timeout(timeout));
    if let Some(timeout) = timeout {
        assert!(matches!(act, ConRoundAct::SetTimer(time) if time == timeout));
        act = d.poll_inner(ConRoundEvt::Handled);
    }
    assert!(matches!(act, ConRoundAct::EpEvents));
    assert!(matches!(
        d.poll_inner(ConRoundEvt::Wish(parts[2])),
        ConRoundAct::Events
    ));
    act = d.poll_inner(ConRoundEvt::Wish(parts[3]));
    match act {
        ConRoundAct::CheckTime => d.poll_inner(ConRoundEvt::Elapsed(elapsed)),
        act => act,
    }
}

fn begun() -> ConnectionDriver {
    let mut d = ConnectionDriver::new();
    assert!(matches!(
        d.poll_inner(ConRoundEvt::Begin),
        ConRoundAct::CheckTimer
    ));
    d
}

#[test]
fn a_connection_ends_when_all_its_parts_do() {
    let close = wish(false, true);
    assert!(matches!(
        con_round(&mut begun(), true, Some(3), [close; 4], 0),
        ConRoundAct::Fail(AqErr::ConDriverClosing)
    ));
    for i in 0..4 {
        let mut parts = [close; 4];
        parts[i] = wish(false, false);
        assert!(matches!(
            con_round(&mut begun(), false, None, parts, 0),
            ConRoundAct::Pend(false)
        ));
    }
}

#[test]
fn a_connection_goes_on_while_there_is_work_and_time() {
    for i in 0..4 {
        let mut parts = [wish(false, false); 4];
        parts[i] = wish(true, false);
        let mut d = begun();
        assert!(matches!(
            con_round(&mut d, false, None, parts, 9),
            ConRoundAct::CheckTimer
        ));
        assert!(matches!(
            con_round(&mut d, false, None, parts, 10),
            ConRoundAct::Pend(true)
        ));
        assert!(matches!(
            d.poll_inner(ConRoundEvt::Begin),
            ConRoundAct::CheckTimer
        ));
    }
}

/// Completes once told to.
struct Sleep(Rc<Cell<bool>>);

impl Future for Sleep {
    type Output = ();

    fn poll(self: Pin<&mut Self>, _cx: &mut Context<'_>) -> Poll<()> {
        if self.0.get() {
            Poll::Ready(())
        } else {
            Poll::Pending
        }
    }
}

fn sleep() -> (Rc<Cell<bool>>, Sleep) {
    let done = Rc::new(Cell::new(false));
    (done.clone(), Sleep(done))
}

#[test]
fn a_timer_keeps_the_earliest_time() {
    let waker = futures_util::task::noop_waker();
    let mut cx = Context::from_waker(&waker);
    let mut timer = Timer::new();
    assert!(!timer.should_trigger(&mut cx));

    let (late, fut) = sleep();
    assert!(!timer.set_time(&mut cx, 20, fut));
    let (early, fut) = sleep();
    assert!(!timer.set_time(&mut cx, 10, fut));
    let (later, fut) = sleep();
    assert!(!timer.set_time(&mut cx, 30, fut));

    late.set(true);
    later.set(true);
    assert!(!timer.should_trigger(&mut cx));
    early.set(true);
    assert!(timer.should_trigger(&mut cx));
    assert!(!timer.should_trigger(&mut cx));
}

#[test]
fn a_timer_that_is_due_at_once_wakes() {
    let waker = futures_util::task::noop_waker();
    let mut cx = Context::from_waker(&waker);
    let mut timer = Timer::new();
    let (done, fut) = sleep();
    done.set(true);
    assert!(timer.set_time(&mut cx, 10, fut));
    assert!(timer.should_trigger(&mut cx));
    assert!(!timer.should_trigger(&mut cx));
}

#[test]
fn a_timer_takes_only_earlier_times() {
    let waker = futures_util::task::noop_waker();
    let mut cx = Context::from_waker(&waker);
    let mut timer = Timer::new();
    assert!(timer.wants(5));
    let (done, fut) = sleep();
    assert!(!timer.set_time(&mut cx, 5, fut));
    assert!(timer.wants(4));
    assert!(!timer.wants(5));
    assert!(matches!(timer.inner, Some((5, Some(_)))));

    let (later, fut) = sleep();
    later.set(true);
    assert!(!timer.set_time(&mut cx, 6, fut));
    assert!(matches!(timer.inner, Some((5, Some(_)))));
    assert!(!timer.should_trigger(&mut cx));

    done.set(true);
    let (_, fut) = sleep();
    assert!(timer.set_time(&mut cx, 7, fut));
    assert!(matches!(timer.inner, Some((5, None))));
    assert!(timer.should_trigger(&mut cx));
    assert!(timer.inner.is_none());
    assert!(!timer.should_trigger(&mut cx));
}

type Driver = QuinnDriver<u8>;
type Info = ConInfo<u16, u32, char, bool>;
type Evt = ConsEvt<u8, &'static str, char, bool, i8, i16, u16, u32>;
type Act = ConsAct<&'static str, char, bool, i8, i16, u16, u32>;

fn at_cmds(buf_cap: usize, con_count: usize) -> (Driver, Info) {
    let mut d = Driver::new(buf_cap, 0);
    let mut info = Info::new();
    d.start(con_count);
    assert!(matches!(
        d.poll_connections(&mut info, Evt::Begin(false)),
        Act::HandleTimeout
    ));
    assert!(matches!(
        d.poll_connections(&mut info, Evt::Handled),
        Act::RecvCmd
    ));
    (d, info)
}

#[test]
fn a_drained_connection_is_removed_once_all_is_told() {
    let mut d = Driver::new(8, 0);
    d.start(1);
    let mut info = Info::new();
    assert!(matches!(
        d.poll_connections(&mut info, Evt::Begin(true)),
        Act::Remove
    ));
    assert_eq!(d.finish(0), (None, Disposition::MoreWork));

    d.start(1);
    let mut info = Info::new();
    info.evt_send_buf.push_back(ConnectionEvt::Connected);
    assert!(matches!(
        d.poll_connections(&mut info, Evt::Begin(true)),
        Act::HandleTimeout
    ));
}

#[test]
fn requests_for_streams_wait_or_are_refused() {
    let (mut d, mut info) = at_cmds(8, 1);
    assert!(matches!(
        d.poll_connections(
            &mut info,
            Evt::Cmd(Poll::Ready(Some(ConnectionCmd::OpenUniStream('a'))))
        ),
        Act::OpenUni('a')
    ));
    assert!(matches!(
        d.poll_connections(&mut info, Evt::OpenedUni('a', Some(3))),
        Act::IntakeUni('a', 3)
    ));
    assert!(matches!(
        d.poll_connections(&mut info, Evt::Handled),
        Act::RecvCmd
    ));
    assert!(matches!(
        d.poll_connections(&mut info, Evt::OpenedUni('b', None)),
        Act::RecvCmd
    ));
    assert!(matches!(
        d.poll_connections(&mut info, Evt::OpenedUni('c', None)),
        Act::RefuseUni('c', AqErr::UniStreamPending)
    ));
    assert!(matches!(
        d.poll_connections(&mut info, Evt::OpenedBi(true, None)),
        Act::RecvCmd
    ));
    assert!(matches!(
        d.poll_connections(&mut info, Evt::OpenedBi(false, None)),
        Act::RefuseBi(false, AqErr::BiStreamPending)
    ));
    assert!(matches!(
        d.poll_connections(
            &mut info,
            Evt::Cmd(Poll::Ready(Some(ConnectionCmd::GetRemoteAddress("me"))))
        ),
        Act::RemoteAddress("me")
    ));
    info.want_close = true;
    assert!(matches!(
        d.poll_connections(
            &mut info,
            Evt::Cmd(Poll::Ready(Some(ConnectionCmd::OpenUniStream('d'))))
        ),
        Act::RefuseUni('d', AqErr::ConnectionClosing)
    ));
    assert!(matches!(
        d.poll_connections(
            &mut info,
            Evt::Cmd(Poll::Ready(Some(ConnectionCmd::OpenBiStream(true))))
        ),
        Act::RefuseBi(true, AqErr::ConnectionClosing)
    ));
}

/// How many packets a connection may send, of a hundred that it has.
fn packets_sent(buf_cap: usize, con_count: usize, waiting: usize) -> usize {
    let (mut d, mut info) = at_cmds(buf_cap, con_count);
    for _ in 0..waiting {
        d.udp_send_buf.push_back(0);
    }
    let mut sent = 0;
    let mut act = d.poll_connections(&mut info, Evt::Cmd(Poll::Pending));
    while let Act::PollTransmit = act {
        sent += 1;
        act = d.poll_connections(&mut info, Evt::Packet(Some(1)));
    }
    assert!(matches!(act, Act::PollTimeout));
    assert!(d.udp_send_buf.len() <= buf_cap);
    sent
}

#[test]
fn connections_share_the_packets_that_may_wait() {
    assert_eq!(packets_sent(64, 1, 0), 64);
    assert_eq!(packets_sent(64, 2, 0), 32);
    assert_eq!(packets_sent(64, 3, 0), 21);
    assert_eq!(packets_sent(64, 3, 61), 1);
    assert_eq!(packets_sent(64, 100, 0), 1);
    assert_eq!(packets_sent(64, 0, 60), 4);
    assert_eq!(packets_sent(64, 1, 64), 0);
}

fn at_poll(buf_cap: usize) -> (Driver, Info) {
    let (mut d, mut info) = at_cmds(buf_cap, 1);
    d.poll_connections(&mut info, Evt::Cmd(Poll::Pending));
    d.poll_connections(&mut info, Evt::Packet(None));
    assert!(matches!(
        d.poll_connections(&mut info, Evt::Timeout(None)),
        Act::PollEpEvent
    ));
    assert!(matches!(
        d.poll_connections(&mut info, Evt::EpEvent(Some(1))),
        Act::HandleEpEvent(1)
    ));
    assert!(matches!(
        d.poll_connections(&mut info, Evt::Handled),
        Act::PollEpEvent
    ));
    assert!(matches!(
        d.poll_connections(&mut info, Evt::EpEvent(None)),
        Act::PollEvent
    ));
    (d, info)
}

#[test]
fn events_reach_the_user_in_order() {
    let (mut d, mut info) = at_poll(8);
    for evt in [ConEvent::HandshakeDataReady, ConEvent::Connected] {
        assert!(matches!(
            d.poll_connections(&mut info, Evt::Event(Some(evt))),
            Act::PollEvent
        ));
    }
    assert!(matches!(
        d.poll_connections(&mut info, Evt::Event(Some(ConEvent::DatagramReceived))),
        Act::RecvDatagram
    ));
    assert!(matches!(
        d.poll_connections(
            &mut info,
            Evt::Datagram(Some(bytes::Bytes::from_static(b"hi")))
        ),
        Act::PollEvent
    ));
    assert!(matches!(
        d.poll_connections(&mut info, Evt::Event(None)),
        Act::Accept(StreamDir::Uni)
    ));
    assert!(matches!(
        d.poll_connections(&mut info, Evt::InUni(Some(5))),
        Act::Accept(StreamDir::Uni)
    ));
    assert!(matches!(
        d.poll_connections(&mut info, Evt::InUni(None)),
        Act::Accept(StreamDir::Bi)
    ));
    assert!(matches!(
        d.poll_connections(&mut info, Evt::InBi(Some((6, 7)))),
        Act::Accept(StreamDir::Bi)
    ));
    let mut act = d.poll_connections(&mut info, Evt::InBi(None));
    let mut told = Vec::new();
    while let Act::Acquire = act {
        match d.poll_connections(&mut info, Evt::Permit(Poll::Ready(Ok(1)))) {
            Act::Send(1, evt) => told.push(evt),
            _ => panic!("expected to tell the user"),
        }
        act = d.poll_connections(&mut info, Evt::Handled);
    }
    assert!(matches!(act, Act::PollEvent));
    assert!(matches!(told[0], ConnectionEvt::HandshakeDataReady));
    assert!(matches!(told[1], ConnectionEvt::Connected));
    assert!(matches!(&told[2], ConnectionEvt::InDatagram(b) if b.as_ref() == b"hi"));
    assert!(matches!(told[3], ConnectionEvt::InUniStream(5)));
    assert!(matches!(told[4], ConnectionEvt::InBiStream(6, 7)));
    assert_eq!(told.len(), 5);
}

#[test]
fn no_more_events_wait_than_may() {
    let (mut d, mut info) = at_poll(2);
    assert!(matches!(
        d.poll_connections(&mut info, Evt::Event(Some(ConEvent::HandshakeDataReady))),
        Act::PollEvent
    ));
    assert!(matches!(
        d.poll_connections(&mut info, Evt::Event(Some(ConEvent::Connected))),
        Act::Acquire
    ));
    assert_eq!(info.evt_send_buf.len(), 2);
    assert!(matches!(
        d.poll_connections(&mut info, Evt::Permit(Poll::Pending)),
        Act::Streams
    ));
}

#[test]
fn waiting_requests_are_served_when_streams_are_available() {
    let (mut d, mut info) = at_poll(8);
    info.uni_out_buf = Some('a');
    info.bi_buf = Some(true);
    assert!(matches!(
        d.poll_connections(
            &mut info,
            Evt::Event(Some(ConEvent::Stream(ConStreamEvent::Available(
                StreamDir::Uni
            ))))
        ),
        Act::OpenUni('a')
    ));
    assert!(matches!(
        d.poll_connections(&mut info, Evt::OpenedUni('a', None)),
        Act::RefuseUni('a', AqErr::UniStreamFailed)
    ));
    assert!(matches!(
        d.poll_connections(
            &mut info,
            Evt::Event(Some(ConEvent::Stream(ConStreamEvent::Available(
                StreamDir::Bi
            ))))
        ),
        Act::OpenBi(true)
    ));
    assert!(matches!(
        d.poll_connections(&mut info, Evt::OpenedBi(true, None)),
        Act::RefuseBi(true, AqErr::BiStreamFailed)
    ));
    assert!(info.uni_out_buf.is_none());
    assert!(info.bi_buf.is_none());
}

#[test]
fn a_connection_is_closed_once_it_has_no_streams() {
    let (mut d, mut info) = at_poll(8);
    d.poll_connections(
        &mut info,
        Evt::Event(Some(ConEvent::ConnectionLost("timed out".to_string()))),
    );
    assert!(info.want_close);
    assert!(matches!(
        &info.evt_send_buf[0],
        ConnectionEvt::Error(err) if err.message() == "timed out"
    ));
    d.poll_connections(&mut info, Evt::Event(None));
    d.poll_connections(&mut info, Evt::InUni(None));
    assert!(matches!(
        d.poll_connections(&mut info, Evt::InBi(None)),
        Act::Acquire
    ));
    d.poll_connections(&mut info, Evt::Permit(Poll::Ready(Err(ChannelClosed))));
    d.poll_connections(&mut info, Evt::Event(None));
    d.poll_connections(&mut info, Evt::InUni(None));
    assert!(matches!(
        d.poll_connections(&mut info, Evt::InBi(None)),
        Act::Streams
    ));
    assert!(matches!(
        d.poll_connections(&mut info, Evt::StreamsDone(false, true)),
        Act::CheckClosed
    ));
    assert!(matches!(
        d.poll_connections(&mut info, Evt::Closed(false)),
        Act::Close
    ));
    assert!(matches!(
        d.poll_connections(&mut info, Evt::Handled),
        Act::Done
    ));
    d.next_connection();
    assert!(matches!(
        d.poll_connections(&mut info, Evt::Begin(false)),
        Act::HandleTimeout
    ));
}

#[test]
fn waking_up_is_scheduled_for_the_earliest_timeout() {
    let mut d = Driver::new(8, 5);
    d.start(1);
    assert_eq!(d.finish(10), (None, Disposition::PendOk));
    d.earliest = Some(30);
    assert_eq!(d.finish(10), (Some(30), Disposition::PendOk));
    assert_eq!(d.finish(10), (None, Disposition::PendOk));
    d.earliest = Some(20);
    assert_eq!(d.finish(10), (Some(20), Disposition::PendOk));
    d.earliest = Some(25);
    assert_eq!(d.finish(10), (None, Disposition::PendOk));
    assert_eq!(d.finish(25), (None, Disposition::PendOk));
    d.earliest = Some(26);
    d.did_work = true;
    assert_eq!(d.finish(25), (Some(26), Disposition::MoreWork));
}

#[test]
fn the_earliest_timeout_of_all_connections_counts() {
    let mut d = Driver::new(8, 0);
    d.start(3);
    for time in [Some(40), Some(20), None, Some(30)] {
        let mut info = Info::new();
        d.next_connection();
        d.poll_connections(&mut info, Evt::Begin(false));
        d.poll_connections(&mut info, Evt::Handled);
        d.poll_connections(&mut info, Evt::Cmd(Poll::Pending));
        d.poll_connections(&mut info, Evt::Packet(None));
        d.poll_connections(&mut info, Evt::Timeout(time));
    }
    assert_eq!(d.finish(1), (Some(20), Disposition::PendOk));
}
