use absquic::error::AqErr;
use absquic::error::AqResult;
use absquic::quiche::bound_multi_send::BoundMultiSend;
use absquic::rt;
use absquic::rt::MultiSend;
use absquic::rt::Semaphore;
use absquic::runtime;
use absquic::runtime::ChanResult;
use absquic::runtime::ChannelClosed;
use absquic::runtime::MultiSender;
use absquic::runtime::MultiSenderPoll;
use absquic::runtime::OnceSend;
use absquic::runtime::OnceSender;
use absquic::runtime::SpawnHnd;
use absquic::tokio_runtime::TokioRt;
use absquic::util::OneShotKind;
use absquic::util::OneShotPoll;
use absquic::util::OneShotReceiver;
use absquic::util::OneShotSender;
use absquic::util::Receive;
use absquic::util::Receiver;
use std::cell::Cell;
use std::cell::RefCell;
use std::collections::VecDeque;
use std::future::pending;
use std::future::poll_fn;
use std::future::ready;
use std::future::Future;
use std::future::Ready;
use std::pin::Pin;
use std::rc::Rc;
use std::task::Context;
use std::task::Poll;
use std::task::Waker;

fn waker() -> Waker {
    futures_util::task::noop_waker()
}

#[test]
fn tokio_runtime_test_rt_multi_chan() {
    let runtime = tokio::runtime::Builder::new_current_thread()
        .build()
        .unwrap();
    runtime.block_on(async {
        let (s, r) = TokioRt::channel();
        let mut r = Receiver::new(r);
        s.send(42_isize).unwrap();
        assert_eq!(42, poll_fn(|cx| r.poll_recv(cx)).await.unwrap());
    });
}

#[test]
fn tokio_channels_close() {
    let waker = waker();
    let mut cx = Context::from_waker(&waker);
    let (s, mut r) = TokioRt::channel::<u8>();
    assert!(r.poll_next(&mut cx).is_pending());
    s.send(1).unwrap();
    s.send(2).unwrap();
    drop(s);
    assert_eq!(r.poll_next(&mut cx), Poll::Ready(Some(1)));
    assert_eq!(r.poll_next(&mut cx), Poll::Ready(Some(2)));
    assert_eq!(r.poll_next(&mut cx), Poll::Ready(None));

    let (s, r) = TokioRt::channel::<u8>();
    drop(r);
    assert!(matches!(s.send(1), Err(AqErr::ChannelClosed)));
}

#[test]
fn closed_channels_are_an_error() {
    assert!(matches!(ChannelClosed.into_err(), AqErr::ChannelClosed));
}

#[test]
fn spawn_handles_say_what_their_future_says() {
    let waker = waker();
    let mut cx = Context::from_waker(&waker);
    let mut hnd = SpawnHnd::new(ready(Ok(5)));
    assert!(matches!(hnd.poll(&mut cx), Poll::Ready(Ok(5))));
    assert!(hnd.fut.is_none());
    let mut hnd = SpawnHnd::new(pending::<AqResult<u8>>());
    assert!(hnd.poll(&mut cx).is_pending());
    assert!(hnd.fut.is_some());
    let mut hnd = SpawnHnd::new(ready(Err::<(), AqErr>(AqErr::EndpointClosed)));
    assert!(matches!(
        hnd.poll(&mut cx),
        Poll::Ready(Err(AqErr::EndpointClosed))
    ));
}

#[test]
fn once_senders_send_once() {
    let got = Cell::new(0);
    let s = OnceSender::new(|t: u32| got.set(t));
    s.send(42);
    assert_eq!(got.get(), 42);
}

/// A permit for one value in a queue.
struct Permit(Rc<RefCell<Vec<u8>>>);

impl OnceSend<u8> for Permit {
    fn send(self, t: u8) {
        self.0.borrow_mut().push(t);
    }
}

/// Completes at the poll given, counted from one.
struct Slow {
    left: u8,
    gone: bool,
    queue: Rc<RefCell<Vec<u8>>>,
}

impl Future for Slow {
    type Output = ChanResult<Permit>;

    fn poll(mut self: Pin<&mut Self>, _cx: &mut Context<'_>) -> Poll<Self::Output> {
        self.left -= 1;
        if self.left > 0 {
            Poll::Pending
        } else if self.gone {
            Poll::Ready(Err(ChannelClosed))
        } else {
            Poll::Ready(Ok(Permit(self.queue.clone())))
        }
    }
}

struct Chan {
    polls: u8,
    gone: bool,
    asked: Rc<Cell<u8>>,
    queue: Rc<RefCell<Vec<u8>>>,
}

impl runtime::MultiSend<u8> for Chan {
    type Permit = Permit;
    type AcquireFut = Slow;

    fn acquire(&self) -> Slow {
        self.asked.set(self.asked.get() + 1);
        Slow {
            left: self.polls,
            gone: self.gone,
            queue: self.queue.clone(),
        }
    }
}

#[test]
fn a_permit_is_asked_for_once_until_it_comes() {
    let waker = waker();
    let mut cx = Context::from_waker(&waker);
    let asked = Rc::new(Cell::new(0));
    let queue = Rc::new(RefCell::new(Vec::new()));
    let sender = MultiSender::new(Chan {
        polls: 3,
        gone: false,
        asked: asked.clone(),
        queue: queue.clone(),
    });
    let mut send = MultiSenderPoll::new(sender.clone());
    assert!(send.poll_acquire(&mut cx).is_pending());
    assert!(send.poll_acquire(&mut cx).is_pending());
    match send.poll_acquire(&mut cx) {
        Poll::Ready(Ok(permit)) => permit.send(9),
        _ => panic!("expected a permit"),
    }
    assert_eq!(asked.get(), 1);
    assert_eq!(*queue.borrow(), vec![9]);
    assert!(send.poll_acquire(&mut cx).is_pending());
    assert_eq!(asked.get(), 2);
    let _ = send.acquire();
    let _ = send.as_inner().acquire();
    let _ = send.into_inner().acquire();
    assert_eq!(asked.get(), 5);
}

#[test]
fn a_closed_channel_gives_no_permit() {
    let waker = waker();
    let mut cx = Context::from_waker(&waker);
    let sender = MultiSender::new(Chan {
        polls: 1,
        gone: true,
        asked: Rc::new(Cell::new(0)),
        queue: Rc::new(RefCell::new(Vec::new())),
    });
    let mut send = MultiSenderPoll::new(sender);
    assert!(matches!(
        send.poll_acquire(&mut cx),
        Poll::Ready(Err(ChannelClosed))
    ));
    assert!(send.fut.is_none());
}

/// Completes with what the slot holds, once it holds something.
struct Slot(Rc<RefCell<Option<AqResult<OneShotKind<u32, Slot>>>>>);

impl Future for Slot {
    type Output = AqResult<OneShotKind<u32, Slot>>;

    fn poll(self: Pin<&mut Self>, _cx: &mut Context<'_>) -> Poll<Self::Output> {
        match self.0.borrow_mut().take() {
            Some(got) => Poll::Ready(got),
            None => Poll::Pending,
        }
    }
}

type Put = Box<dyn FnOnce(AqResult<OneShotKind<u32, Slot>>)>;

fn one_shot() -> (OneShotSender<u32, Slot, Put>, OneShotReceiver<Slot>) {
    let slot = Rc::new(RefCell::new(None));
    let put = slot.clone();
    let send: Put = Box::new(move |got| *put.borrow_mut() = Some(got));
    (OneShotSender::new(send), OneShotReceiver::new(Slot(slot)))
}

#[test]
fn one_shots_carry_a_value_or_an_error() {
    let waker = waker();
    let mut cx = Context::from_waker(&waker);
    let (s, mut r) = one_shot();
    assert!(matches!(r.poll_recv(&mut cx), OneShotPoll::Pending));
    s.send(Ok(42));
    assert!(matches!(r.poll_recv(&mut cx), OneShotPoll::Ready(Ok(42))));
    assert!(r.recv.is_none());

    let (s, mut r) = one_shot();
    s.send(Err(AqErr::EndpointClosed));
    assert!(matches!(
        r.poll_recv(&mut cx),
        OneShotPoll::Ready(Err(AqErr::EndpointClosed))
    ));
}

#[test]
fn a_one_shot_that_is_never_sent_is_closed() {
    let waker = waker();
    let mut cx = Context::from_waker(&waker);
    let (s, mut r) = one_shot();
    s.close();
    assert!(matches!(
        r.poll_recv(&mut cx),
        OneShotPoll::Ready(Err(AqErr::ChannelClosed))
    ));
    assert!(r.recv.is_none());
}

#[test]
fn one_shots_can_be_forwarded() {
    let waker = waker();
    let mut cx = Context::from_waker(&waker);
    let (s1, r1) = one_shot();
    let (s2, mut r2) = one_shot();
    r1.forward(s2);
    assert!(matches!(r2.poll_recv(&mut cx), OneShotPoll::Again));
    assert!(matches!(r2.poll_recv(&mut cx), OneShotPoll::Pending));
    s1.send(Ok(7));
    assert!(matches!(r2.poll_recv(&mut cx), OneShotPoll::Ready(Ok(7))));

    let (s1, r1) = one_shot();
    let (s2, mut r2) = one_shot();
    s2.forward(r1.into_inner());
    s1.send(Ok(8));
    assert!(matches!(r2.poll_recv(&mut cx), OneShotPoll::Again));
    assert!(matches!(r2.poll_recv(&mut cx), OneShotPoll::Ready(Ok(8))));
}

#[test]
fn a_chain_of_forwarded_one_shots_gives_what_the_last_one_gives() {
    let waker = waker();
    let mut cx = Context::from_waker(&waker);
    let (first, mut r) = one_shot();
    let (second, r2) = one_shot();
    let (third, r3) = one_shot();
    r2.forward(first);
    r3.forward(second);
    assert!(matches!(r.poll_recv(&mut cx), OneShotPoll::Again));
    assert!(matches!(r.poll_recv(&mut cx), OneShotPoll::Again));
    assert!(matches!(r.poll_recv(&mut cx), OneShotPoll::Pending));
    third.send(Err(AqErr::EndpointClosed));
    assert!(matches!(
        r.poll_recv(&mut cx),
        OneShotPoll::Ready(Err(AqErr::EndpointClosed))
    ));
    assert!(r.recv.is_none());
}

struct Queue(VecDeque<u8>);

impl Receive<u8> for Queue {
    fn poll_next(&mut self, _cx: &mut Context<'_>) -> Poll<Option<u8>> {
        Poll::Ready(self.0.pop_front())
    }
}

#[test]
fn receivers_pass_on_what_comes() {
    let waker = waker();
    let mut cx = Context::from_waker(&waker);
    let mut r = Receiver::new(Queue(vec![1, 2].into()));
    assert_eq!(r.poll_recv(&mut cx), Poll::Ready(Some(1)));
    assert_eq!(r.poll_recv(&mut cx), Poll::Ready(Some(2)));
    assert_eq!(r.poll_recv(&mut cx), Poll::Ready(None));
}

/// Gives back its place when it goes away.
struct Guard(Rc<Cell<u8>>);

impl rt::SemaphoreGuard for Guard {}

impl Drop for Guard {
    fn drop(&mut self) {
        self.0.set(self.0.get() + 1);
    }
}

struct Places(Rc<Cell<u8>>);

impl Semaphore for Places {
    type GuardTy = Guard;
    type AcquireFut = Ready<Guard>;

    fn acquire(&self) -> Ready<Guard> {
        ready(self.try_acquire().unwrap())
    }

    fn try_acquire(&self) -> Option<Guard> {
        let left = self.0.get().checked_sub(1)?;
        self.0.set(left);
        Some(Guard(self.0.clone()))
    }
}

#[test]
fn bound_channels_limit_what_is_on_its_way() {
    let waker = waker();
    let mut cx = Context::from_waker(&waker);
    let (s, mut r) = TokioRt::channel();
    let send = BoundMultiSend::new(Places(Rc::new(Cell::new(2))), s);
    let also = send.clone();
    let first = send.try_acquire().unwrap();
    let second = match Pin::new(&mut also.acquire()).poll(&mut cx) {
        Poll::Ready(guard) => guard,
        Poll::Pending => panic!("expected room"),
    };
    assert!(send.try_acquire().is_none());
    send.send('a', first).unwrap();
    also.send('b', second).unwrap();
    match r.poll_next(&mut cx) {
        Poll::Ready(Some(('a', guard))) => drop(guard),
        _ => panic!("expected the first"),
    }
    assert!(send.try_acquire().is_some());
    drop(r);
    let guard = send.try_acquire().unwrap();
    assert!(matches!(send.send('c', guard), Err(AqErr::ChannelClosed)));
}
