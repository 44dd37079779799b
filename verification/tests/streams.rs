use absquic::error::AqErr;
use absquic::error::AqResult;
use absquic::runtime::OnceSend;
use absquic::stream::backend::read_stream_pair;
use absquic::stream::backend::send_outcome;
use absquic::stream::backend::write_stream_pair;
use absquic::stream::backend::Chunk;
use absquic::stream::backend::ReadStreamBackend;
use absquic::stream::backend::WriteCmd;
use absquic::stream::backend::WriteStreamBackend;
use absquic::stream::counter::Counter;
use absquic::stream::counter::CounterAddPermit;
use absquic::stream::counter::Hold;
use absquic::stream::counter::Ledger;
use absquic::stream::write_outcome;
use absquic::stream::ReadStream;
use absquic::stream::WriteStream;
use bytes::Bytes;
use std::future::poll_fn;
use std::sync::Arc;
use std::sync::Mutex;
use std::task::Context;
use std::task::Poll;
use std::task::Waker;

type SharedCounter = Arc<Mutex<Counter<Waker>>>;

struct SharedHold {
    counter: SharedCounter,
    held: usize,
}

fn restore(counter: &SharedCounter, amount: usize) {
    let waker = counter.lock().unwrap().restore(amount);
    if let Some(waker) = waker {
        waker.wake();
    }
}

impl Hold for SharedHold {
    fn give_back(mut self, amount: usize) -> Self {
        self.held -= amount;
        restore(&self.counter, amount);
        self
    }
}

impl Drop for SharedHold {
    fn drop(&mut self) {
        restore(&self.counter, self.held);
    }
}

fn reserve(counter: &SharedCounter, cx: &mut Context<'_>) -> Option<CounterAddPermit<SharedHold>> {
    let amount = counter.lock().unwrap().reserve(cx.waker().clone())?;
    let hold = SharedHold {
        counter: counter.clone(),
        held: amount,
    };
    Some(CounterAddPermit::new(hold, amount))
}

struct Ack(tokio::sync::oneshot::Sender<AqResult<()>>);

impl OnceSend<AqResult<()>> for Ack {
    fn send(self, t: AqResult<()>) {
        let _ = self.0.send(t);
    }
}

type Front = WriteStream<SharedHold, Ack>;
type Back = WriteStreamBackend<SharedHold, Ack>;

fn write_pair(size: usize) -> (SharedCounter, Back, Front) {
    let (counter, back, front) = write_stream_pair(size);
    (Arc::new(Mutex::new(counter)), back, front)
}

fn read_pair(
    size: usize,
) -> (
    SharedCounter,
    ReadStreamBackend<SharedHold>,
    ReadStream<SharedHold>,
) {
    let (counter, back, front) = read_stream_pair(size);
    (Arc::new(Mutex::new(counter)), back, front)
}

async fn write_bytes_all(
    counter: &SharedCounter,
    front: &mut Front,
    data: &mut Bytes,
) -> AqResult<()> {
    while !data.is_empty() {
        poll_fn(|cx| {
            let reserved = reserve(counter, cx);
            front.poll_write_bytes(reserved, data)
        })
        .await?;
    }
    Ok(())
}

async fn recv_all(back: &mut Back) -> Result<Bytes, u64> {
    poll_fn(|cx| match back.poll_recv(cx) {
        Poll::Pending => Poll::Pending,
        Poll::Ready(WriteCmd::Stop(code)) => Poll::Ready(Err(code)),
        Poll::Ready(WriteCmd::Data(mut data)) => {
            let len = data.as_ref().len();
            let out = data.data.split_to(len);
            data.finish();
            Poll::Ready(Ok(out))
        }
    })
    .await
}

async fn read_bytes(
    front: &mut ReadStream<SharedHold>,
    max_len: usize,
) -> Option<AqResult<Bytes>> {
    poll_fn(|cx| front.poll_read_bytes(cx, max_len)).await
}

/// Room in the stream, or the code of a user that is gone.
async fn acquire(
    counter: &SharedCounter,
    back: &mut ReadStreamBackend<SharedHold>,
) -> Result<CounterAddPermit<SharedHold>, u64> {
    poll_fn(|cx| {
        let reserved = reserve(counter, cx);
        match back.poll_acquire(reserved) {
            Poll::Pending => Poll::Pending,
            Poll::Ready(Err(code)) => Poll::Ready(Err(code)),
            Poll::Ready(Ok(permit)) => Poll::Ready(Ok(permit.permit)),
        }
    })
    .await
}

fn runtime() -> tokio::runtime::Runtime {
    tokio::runtime::Builder::new_multi_thread()
        .worker_threads(2)
        .build()
        .unwrap()
}

#[test]
fn write_stream_front_drop() {
    const DATA: &[u8] = b"hello world!";

    let rt = runtime();
    let (counter, mut back, mut front) = write_pair(3);

    let hnd = rt.spawn(async move {
        match write_bytes_all(&counter, &mut front, &mut Bytes::from_static(DATA)).await {
            Ok(_) => (),
            Err(e) => panic!("unexpected err: {:?}", e),
        }
    });

    let mut rdata = Vec::new();

    while rdata.len() < DATA.len() {
        match rt.block_on(recv_all(&mut back)) {
            Ok(data) => rdata.extend_from_slice(&data),
            Err(_) => break,
        }
    }

    assert_eq!(DATA, rdata.as_slice());

    rt.block_on(hnd).unwrap();
}

#[test]
fn write_stream_back_drop() {
    const DATA: &[u8] = b"abc";

    let rt = runtime();
    let (counter, mut back, mut front) = write_pair(3);

    let hnd = rt.spawn(async move {
        loop {
            match write_bytes_all(&counter, &mut front, &mut Bytes::from_static(DATA)).await {
                Ok(_) => (),
                Err(_) => break,
            }
        }
    });

    for _ in 0..3 {
        match rt.block_on(recv_all(&mut back)) {
            Ok(data) => assert_eq!(DATA, data.as_ref()),
            Err(_) => panic!("unexpected stop"),
        }
    }

    drop(back);

    rt.block_on(hnd).unwrap();
}

#[test]
fn read_stream_front_drop() {
    const DATA: &[u8] = b"abc";

    let rt = runtime();
    let (counter, mut back, mut front) = read_pair(3);

    let hnd = rt.spawn(async move {
        loop {
            match acquire(&counter, &mut back).await {
                Ok(permit) => {
                    let sender = absquic::stream::backend::ReadSendPermit {
                        r: &mut back,
                        permit,
                    };
                    let _ = sender.send(Bytes::from_static(DATA));
                }
                Err(_) => break,
            }
        }
    });

    for _ in 0..3 {
        match rt.block_on(read_bytes(&mut front, usize::MAX)) {
            Some(Ok(data)) => {
                assert_eq!(DATA, data.as_ref());
            }
            oth => panic!("unexpected result: {:?}", oth),
        }
    }

    drop(front);

    rt.block_on(hnd).unwrap();
}

#[test]
fn read_stream_back_drop() {
    const DATA: &[u8] = b"hello world!";

    let rt = runtime();
    let (counter, mut back, mut front) = read_pair(3);

    let hnd = rt.spawn(async move {
        let mut to_send = Bytes::from_static(DATA);
        while !to_send.is_empty() {
            let permit = match acquire(&counter, &mut back).await {
                Ok(permit) => permit,
                Err(_) => panic!("unexpected send failure"),
            };
            let sender = absquic::stream::backend::ReadSendPermit {
                r: &mut back,
                permit,
            };
            let max_len = sender.max_len();
            let _ = sender.send(to_send.split_to(max_len));
        }
    });

    let mut rdata = Vec::new();

    while rdata.len() < DATA.len() {
        match rt.block_on(read_bytes(&mut front, usize::MAX)) {
            Some(Ok(data)) => rdata.extend_from_slice(data.as_ref()),
            Some(Err(e)) => panic!("unexpected err: {:?}", e),
            None => break,
        }
    }

    assert_eq!(DATA, rdata.as_slice());

    rt.block_on(hnd).unwrap();
}

fn nothing_waits() -> Waker {
    futures_util::task::noop_waker()
}

/// Notes whether it was woken.
struct Woken(Mutex<bool>);

impl std::task::Wake for Woken {
    fn wake(self: Arc<Self>) {
        *self.0.lock().unwrap() = true;
    }
}

fn woken_waker() -> (Arc<Woken>, Waker) {
    let woken = Arc::new(Woken(Mutex::new(false)));
    (woken.clone(), Waker::from(woken))
}

#[test]
fn counter_reserves_all_and_remembers_who_waits() {
    let mut counter: Counter<u8> = Counter::new(5);
    assert_eq!(counter.reserve(1), Some(5));
    assert_eq!(counter.reserve(2), None);
    assert_eq!(counter.restore(2), Some(2));
    assert_eq!(counter.reserve(3), Some(2));
    assert_eq!(counter.restore(5), None);
    assert_eq!(counter.used, 0);
}

#[test]
fn counter_without_room_gives_none() {
    let mut counter: Counter<u8> = Counter::new(0);
    assert_eq!(counter.reserve(7), None);
    assert_eq!(counter.waker, Some(7));
}

#[test]
fn permit_gives_back_what_it_shrinks_by() {
    let permit = CounterAddPermit::new(Ledger::new(5), 5);
    let permit = permit.downgrade_to(5);
    assert_eq!(permit.len(), 5);
    let permit = permit.downgrade_to(2);
    assert_eq!(permit.len(), 2);
    let hold = permit.into_hold();
    assert_eq!(hold.freed(), 3);
    assert_eq!(hold.settle(), 5);
}

#[test]
fn chunk_cuts_what_the_permit_covers() {
    let mut data = Bytes::from_static(b"hello");
    let chunk = Chunk::cut(CounterAddPermit::new(Ledger::new(2), 2), &mut data);
    let (front, permit) = chunk.into_parts();
    assert_eq!(front.as_ref(), b"he");
    assert_eq!(permit.len(), 2);
    assert_eq!(data.as_ref(), b"llo");

    let chunk = Chunk::cut(CounterAddPermit::new(Ledger::new(10), 10), &mut data);
    let (rest, permit) = chunk.into_parts();
    assert_eq!(rest.as_ref(), b"llo");
    assert_eq!(permit.len(), 3);
    assert_eq!(permit.into_hold().freed(), 7);
    assert!(data.is_empty());
}

#[test]
fn no_room_means_pending_and_nothing_taken() {
    let (_counter, _back, mut front) = write_pair(3);
    let mut data = Bytes::from_static(b"abc");
    assert!(front.poll_write_bytes(None, &mut data).is_pending());
    assert_eq!(data.as_ref(), b"abc");
}

#[test]
fn room_comes_back_byte_by_byte() {
    let waker = nothing_waits();
    let mut cx = Context::from_waker(&waker);
    let (counter, mut back, mut front) = write_pair(4);
    let mut data = Bytes::from_static(b"abcdef");

    let reserved = reserve(&counter, &mut cx);
    assert!(matches!(
        front.poll_write_bytes(reserved, &mut data),
        Poll::Ready(Ok(()))
    ));
    assert_eq!(data.as_ref(), b"ef");
    assert_eq!(counter.lock().unwrap().used, 4);
    assert!(reserve(&counter, &mut cx).is_none());

    match back.poll_recv(&mut cx) {
        Poll::Ready(WriteCmd::Data(mut cmd)) => {
            assert_eq!(cmd.as_ref().as_ref(), b"abcd");
            let _ = cmd.data.split_to(3);
            cmd.finish();
        }
        _ => panic!("expected data"),
    }
    assert_eq!(counter.lock().unwrap().used, 1);

    let reserved = reserve(&counter, &mut cx);
    assert!(matches!(
        front.poll_write_bytes(reserved, &mut data),
        Poll::Ready(Ok(()))
    ));
    assert!(data.is_empty());
    assert_eq!(counter.lock().unwrap().used, 3);

    for want in [b"d".as_ref(), b"ef".as_ref()] {
        match back.poll_recv(&mut cx) {
            Poll::Ready(WriteCmd::Data(mut cmd)) => {
                assert_eq!(cmd.as_ref().as_ref(), want);
                let len = cmd.as_ref().len();
                let _ = cmd.data.split_to(len);
                cmd.finish();
            }
            _ => panic!("expected data"),
        }
    }
    assert_eq!(counter.lock().unwrap().used, 0);
    assert!(back.poll_recv(&mut cx).is_pending());
}

#[test]
fn stop_is_acknowledged_and_remembered() {
    let waker = nothing_waits();
    let mut cx = Context::from_waker(&waker);
    let (_counter, mut back, front) = write_pair(4);
    let (send, mut recv) = tokio::sync::oneshot::channel();
    assert!(front.stop(7, Ack(send)).is_ok());
    assert!(matches!(
        back.poll_recv(&mut cx),
        Poll::Ready(WriteCmd::Stop(7))
    ));
    assert!(matches!(recv.try_recv(), Ok(Ok(()))));
    assert!(matches!(
        back.poll_recv(&mut cx),
        Poll::Ready(WriteCmd::Stop(7))
    ));
}

#[test]
fn dropped_writer_stops_with_zero() {
    let waker = nothing_waits();
    let mut cx = Context::from_waker(&waker);
    let (_counter, mut back, front) = write_pair(4);
    drop(front);
    assert!(matches!(
        back.poll_recv(&mut cx),
        Poll::Ready(WriteCmd::Stop(0))
    ));
}

#[test]
fn write_to_nobody_is_channel_closed() {
    let waker = nothing_waits();
    let mut cx = Context::from_waker(&waker);
    let (counter, back, mut front) = write_pair(4);
    drop(back);
    let reserved = reserve(&counter, &mut cx);
    let mut data = Bytes::from_static(b"ab");
    assert!(matches!(
        front.poll_write_bytes(reserved, &mut data),
        Poll::Ready(Err(AqErr::ChannelClosed))
    ));
    assert_eq!(counter.lock().unwrap().used, 0);
    let (send, _recv) = tokio::sync::oneshot::channel();
    assert!(matches!(front.stop(1, Ack(send)), Err(AqErr::ChannelClosed)));
}

#[test]
fn reads_in_parts_and_of_nothing() {
    let waker = nothing_waits();
    let mut cx = Context::from_waker(&waker);
    let (counter, mut back, mut front) = read_pair(10);

    assert!(back.poll_send(None).is_pending());
    let reserved = reserve(&counter, &mut cx);
    match back.poll_send(reserved) {
        Poll::Ready(permit) => {
            assert_eq!(permit.max_len(), 10);
            assert_eq!(permit.send(Bytes::from_static(b"abcdef")), Ok(()));
        }
        Poll::Pending => panic!("expected room"),
    }
    assert_eq!(counter.lock().unwrap().used, 6);

    match front.poll_read_bytes(&mut cx, 0) {
        Poll::Ready(Some(Ok(b))) => assert!(b.is_empty()),
        _ => panic!("expected nothing"),
    }
    match front.poll_read_bytes(&mut cx, 4) {
        Poll::Ready(Some(Ok(b))) => assert_eq!(b.as_ref(), b"abcd"),
        _ => panic!("expected data"),
    }
    assert_eq!(counter.lock().unwrap().used, 2);
    match front.poll_read_bytes(&mut cx, 4) {
        Poll::Ready(Some(Ok(b))) => assert_eq!(b.as_ref(), b"ef"),
        _ => panic!("expected data"),
    }
    assert_eq!(counter.lock().unwrap().used, 0);
    assert!(front.poll_read_bytes(&mut cx, 4).is_pending());

    back.stop(AqErr::UnexpectedEof);
    assert!(matches!(
        front.poll_read_bytes(&mut cx, 4),
        Poll::Ready(Some(Err(AqErr::UnexpectedEof)))
    ));
    assert!(matches!(
        front.poll_read_bytes(&mut cx, 4),
        Poll::Ready(None)
    ));
}

fn send(counter: &SharedCounter, back: &mut ReadStreamBackend<SharedHold>, data: &'static [u8]) {
    let waker = nothing_waits();
    let mut cx = Context::from_waker(&waker);
    let reserved = reserve(counter, &mut cx);
    match back.poll_send(reserved) {
        Poll::Ready(permit) => assert_eq!(permit.send(Bytes::from_static(data)), Ok(())),
        Poll::Pending => panic!("expected room"),
    }
}

#[test]
fn a_larger_read_after_a_partial_one_is_served() {
    let waker = nothing_waits();
    let mut cx = Context::from_waker(&waker);
    let (counter, mut back, mut front) = read_pair(10);
    send(&counter, &mut back, b"0123456789");
    assert!(reserve(&counter, &mut cx).is_none());

    for (max_len, want, used) in [(3, "012", 7), (5, "34567", 2), (5, "89", 0)] {
        match front.poll_read_bytes(&mut cx, max_len) {
            Poll::Ready(Some(Ok(b))) => assert_eq!(b.as_ref(), want.as_bytes()),
            _ => panic!("expected data"),
        }
        assert_eq!(counter.lock().unwrap().used, used);
    }
    assert!(front.poll_read_bytes(&mut cx, 5).is_pending());
}

#[test]
fn a_partial_read_frees_what_it_read_and_no_more() {
    let waker = nothing_waits();
    let mut cx = Context::from_waker(&waker);
    let (counter, mut back, mut front) = read_pair(10);
    send(&counter, &mut back, b"0123456789");
    match front.poll_read_bytes(&mut cx, 1) {
        Poll::Ready(Some(Ok(b))) => assert_eq!(b.as_ref(), b"0"),
        _ => panic!("expected data"),
    }
    match reserve(&counter, &mut cx) {
        Some(permit) => assert_eq!(permit.len(), 1),
        None => panic!("expected room"),
    };
    send(&counter, &mut back, b"a");
    assert!(reserve(&counter, &mut cx).is_none());

    let mut all = Vec::new();
    drop(back);
    while let Poll::Ready(Some(got)) = front.poll_read_bytes(&mut cx, 4) {
        all.extend_from_slice(&got.unwrap());
    }
    assert_eq!(all, b"123456789a");
    assert_eq!(counter.lock().unwrap().used, 0);
}

#[test]
fn many_bytes_pass_through_a_smaller_buffer() {
    const ALL: usize = 200 * 1024;
    let waker = nothing_waits();
    let mut cx = Context::from_waker(&waker);
    let (counter, mut back, mut front) = read_pair(64 * 1024);
    let data: Vec<u8> = (0..ALL).map(|i| (i % 251) as u8).collect();
    let mut to_send = Bytes::from(data.clone());
    let mut got = Vec::new();
    while got.len() < ALL {
        let reserved = reserve(&counter, &mut cx);
        if !to_send.is_empty() {
            if let Poll::Ready(permit) = back.poll_send(reserved) {
                let len = permit.max_len().min(to_send.len());
                assert_eq!(permit.send(to_send.split_to(len)), Ok(()));
            }
        }
        assert!(counter.lock().unwrap().used <= 64 * 1024);
        match front.poll_read_bytes(&mut cx, 1000) {
            Poll::Ready(Some(Ok(b))) => got.extend_from_slice(&b),
            _ => panic!("expected data"),
        }
    }
    assert!(got == data);
    assert_eq!(counter.lock().unwrap().used, 0);
}

#[test]
fn a_waiting_writer_is_woken_by_the_next_read() {
    let (woken, waker) = woken_waker();
    let mut cx = Context::from_waker(&waker);
    let (counter, mut back, mut front) = read_pair(3);
    send(&counter, &mut back, b"abc");
    assert!(reserve(&counter, &mut cx).is_none());
    assert!(!*woken.0.lock().unwrap());
    match front.poll_read_bytes(&mut cx, 2) {
        Poll::Ready(Some(Ok(b))) => assert_eq!(b.as_ref(), b"ab"),
        _ => panic!("expected data"),
    }
    assert!(*woken.0.lock().unwrap());
    match reserve(&counter, &mut cx) {
        Some(permit) => assert_eq!(permit.len(), 2),
        None => panic!("expected room"),
    };
}

#[test]
fn data_come_before_the_stop_and_the_stop_stays() {
    let waker = nothing_waits();
    let mut cx = Context::from_waker(&waker);
    let (counter, mut back, mut front) = write_pair(4);
    let reserved = reserve(&counter, &mut cx);
    let mut data = Bytes::from_static(b"abc");
    assert!(front.poll_write_bytes(reserved, &mut data).is_ready());
    let (ack, _recv) = tokio::sync::oneshot::channel();
    assert!(front.stop(9, Ack(ack)).is_ok());

    for (pull, want) in [(1, "abc"), (0, "bc"), (2, "bc")] {
        match back.poll_recv(&mut cx) {
            Poll::Ready(WriteCmd::Data(mut cmd)) => {
                assert_eq!(cmd.as_ref().as_ref(), want.as_bytes());
                let _ = cmd.data.split_to(pull);
                cmd.finish();
            }
            _ => panic!("expected data"),
        }
    }
    for _ in 0..3 {
        assert!(matches!(
            back.poll_recv(&mut cx),
            Poll::Ready(WriteCmd::Stop(9))
        ));
    }
}

#[test]
fn a_dropped_reader_leaves_the_code_zero() {
    let waker = nothing_waits();
    let mut cx = Context::from_waker(&waker);
    let (counter, mut back, front) = read_pair(4);
    drop(front);
    let reserved = reserve(&counter, &mut cx);
    match back.poll_send(reserved) {
        Poll::Ready(permit) => assert_eq!(permit.send(Bytes::from_static(b"a")), Err(0)),
        Poll::Pending => panic!("expected room"),
    }
}

#[test]
fn stopped_reader_tells_its_code() {
    let waker = nothing_waits();
    let mut cx = Context::from_waker(&waker);
    let (counter, mut back, front) = read_pair(10);
    let reserved = reserve(&counter, &mut cx);
    front.stop(42);
    match back.poll_acquire(reserved) {
        Poll::Ready(Err(code)) => assert_eq!(code, 42),
        _ => panic!("expected the code"),
    }
    let reserved = reserve(&counter, &mut cx);
    match back.poll_send(reserved) {
        Poll::Ready(permit) => {
            assert_eq!(permit.send(Bytes::from_static(b"a")), Err(42));
        }
        Poll::Pending => panic!("expected room"),
    }
}

#[test]
fn outcomes() {
    assert_eq!(send_outcome(true, 5), Ok(()));
    assert_eq!(send_outcome(false, 5), Err(5));
    assert!(write_outcome(true).is_ok());
    assert!(matches!(write_outcome(false), Err(AqErr::ChannelClosed)));
}

fn ledger_permit(counter: &mut Counter<u8>) -> CounterAddPermit<Ledger> {
    match counter.reserve(0) {
        Some(amount) => CounterAddPermit::new(Ledger::new(amount), amount),
        None => panic!("expected room"),
    }
}

#[test]
fn a_read_sets_the_hold_of_a_chunk_free_with_its_last_byte() {
    let waker = nothing_waits();
    let mut cx = Context::from_waker(&waker);
    let (mut counter, mut back, mut front) = read_stream_pair::<u8, Ledger>(10);
    let permit = ledger_permit(&mut counter);
    assert_eq!(counter.reserve(7), None);
    match back.poll_send(Some(permit)) {
        Poll::Ready(permit) => assert_eq!(permit.send(Bytes::from_static(b"abcd")), Ok(())),
        Poll::Pending => panic!("expected a permit"),
    }

    let (got, freed) = front.poll_read(&mut cx, 0);
    assert!(matches!(got, Poll::Ready(Some(Ok(b))) if b.is_empty()));
    assert!(freed.is_none());
    let (got, freed) = front.poll_read(&mut cx, 3);
    assert!(matches!(got, Poll::Ready(Some(Ok(b))) if b.as_ref() == b"abc"));
    assert!(freed.is_none());
    let (got, freed) = front.poll_read(&mut cx, 3);
    assert!(matches!(got, Poll::Ready(Some(Ok(b))) if b.as_ref() == b"d"));
    let hold = match freed {
        Some(hold) => hold,
        None => panic!("expected the hold"),
    };
    assert_eq!((hold.held(), hold.freed()), (1, 9));

    assert_eq!(counter.used, 10);
    assert_eq!(counter.restore(hold.settle()), Some(7));
    assert_eq!(counter.used, 0);
    let (got, freed) = front.poll_read(&mut cx, 3);
    assert!(got.is_pending() && freed.is_none());
}

#[test]
fn finishing_sets_the_hold_free_once_all_is_pulled_off() {
    let waker = nothing_waits();
    let mut cx = Context::from_waker(&waker);
    let (mut counter, mut back, mut front) = write_stream_pair::<u8, Ledger, Ack>(4);
    let permit = ledger_permit(&mut counter);
    assert_eq!(counter.reserve(9), None);
    let mut data = Bytes::from_static(b"abcdef");
    assert!(matches!(
        front.poll_write_bytes(Some(permit), &mut data),
        Poll::Ready(Ok(()))
    ));

    let hold = match back.poll_recv(&mut cx) {
        Poll::Ready(WriteCmd::Data(mut cmd)) => {
            let _ = cmd.data.split_to(3);
            cmd.finish()
        }
        _ => panic!("expected data"),
    };
    assert!(hold.is_none());
    let hold = match back.poll_recv(&mut cx) {
        Poll::Ready(WriteCmd::Data(mut cmd)) => {
            assert_eq!(cmd.as_ref().as_ref(), b"d");
            let _ = cmd.data.split_to(1);
            cmd.finish()
        }
        _ => panic!("expected data"),
    };
    let hold = match hold {
        Some(hold) => hold,
        None => panic!("expected the hold"),
    };
    assert_eq!((hold.held(), hold.freed()), (1, 3));
    assert_eq!(counter.restore(hold.settle()), Some(9));
    assert_eq!(counter.used, 0);
    assert!(back.poll_recv(&mut cx).is_pending());
}
