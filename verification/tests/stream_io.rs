use absquic::error::AqErr;
use absquic::quinn::drain::DrainAct;
use absquic::quinn::drain::DrainEvt;
use absquic::quinn::drain::ReadDrain;
use absquic::quinn::drain::WriteDrain;
use absquic::quinn::drain::WriteDrainAct;
use absquic::quinn::stream::ChunkRead;
use absquic::quinn::stream::ReadAct;
use absquic::quinn::stream::ReadEnd;
use absquic::quinn::stream::ReadEvt;
use absquic::quinn::stream::StreamInfo;
use absquic::quinn::stream::WriteAct;
use absquic::quinn::stream::WriteCmdKind;
use absquic::quinn::stream::WriteEvt;
use absquic::quinn::stream::WriteResult;
use absquic::quinn::streams::finish_stream;
use absquic::quinn::streams::mark_readable;
use absquic::quinn::streams::mark_writable;
use absquic::quinn::streams::stop_stream;
use absquic::quinn::streams::StreamMap;
use std::cell::RefCell;
use std::rc::Rc;
use std::task::Poll;

type Notes = Rc<RefCell<Vec<String>>>;

struct Back(Notes);

impl ReadEnd for Back {
    fn stop(self, err: AqErr) {
        self.0.borrow_mut().push(err.message());
    }
}

type Info = StreamInfo<Back, u8>;
type Read = ReadEvt<char, u32>;
type Doing = ReadAct<char, u32>;

/// The bound of the codes that quic can carry.
const BOUND: u64 = 1 << 62;

fn both() -> (Notes, Info) {
    let notes: Notes = Rc::default();
    (notes.clone(), Info::bi(4, Back(notes), 9))
}

#[test]
fn streams_begin_with_their_halves() {
    let (notes, info) = both();
    assert_eq!(info.stream_id, 4);
    assert!(info.wants_read() && info.wants_write() && !info.is_gone());
    info.finish();
    assert!(notes.borrow().is_empty());

    let info = Info::uni_out(5, 1);
    assert!(!info.wants_read() && info.wants_write() && !info.is_gone());
    info.stop(1);

    let notes: Notes = Rc::default();
    let info = Info::uni_in(6, Back(notes.clone()));
    assert!(info.wants_read() && !info.wants_write() && !info.is_gone());
    info.stop(11);
    assert_eq!(*notes.borrow(), vec!["11".to_string()]);
}

#[test]
fn reading_goes_on_until_it_has_to_wait() {
    let (notes, mut info) = both();
    assert!(matches!(
        info.read(Read::First(Poll::Ready(Ok('a')))),
        Doing::Open('a')
    ));
    assert!(matches!(info.read(Read::Opened('a', true)), Doing::Next('a')));
    assert!(matches!(
        info.read(Read::Chunk('a', ChunkRead::Data(7))),
        Doing::Send('a', 7)
    ));
    assert!(matches!(
        info.read(Read::More(Poll::Ready(Ok('b')))),
        Doing::Next('b')
    ));
    assert!(matches!(
        info.read(Read::Chunk('b', ChunkRead::Blocked)),
        Doing::Done
    ));
    assert!(!info.wants_read() && info.read.is_some());
    info.set_readable();
    assert!(info.wants_read());
    assert!(matches!(info.read(Read::More(Poll::Pending)), Doing::Done));
    assert!(info.wants_read());
    assert!(matches!(
        info.read(Read::Chunk('c', ChunkRead::End)),
        Doing::Done
    ));
    assert!(!info.wants_read() && info.read.is_none());
    assert!(notes.borrow().is_empty());
}

#[test]
fn reading_fails_and_stops() {
    let (notes, mut info) = both();
    assert!(matches!(
        info.read(Read::Chunk(
            'a',
            ChunkRead::Failed(AqErr::Other("reset".to_string()))
        )),
        Doing::Done
    ));
    assert!(info.read.is_none());
    assert_eq!(*notes.borrow(), vec!["reset".to_string()]);

    for evt in [
        Read::Opened('a', false),
        Read::First(Poll::Ready(Err(BOUND))),
        Read::More(Poll::Ready(Err(u64::MAX))),
    ] {
        let (notes, mut info) = both();
        assert!(matches!(info.read(evt), Doing::Done));
        assert!(info.read.is_none() && info.write.is_some());
        assert!(notes.borrow().is_empty());
    }
    for code in [0, 1, BOUND - 1] {
        for evt in [
            Read::First(Poll::Ready(Err(code))),
            Read::More(Poll::Ready(Err(code))),
        ] {
            let (_, mut info) = both();
            match info.read(evt) {
                Doing::Stop(v) => assert_eq!(v.into_inner(), code),
                _ => panic!("expected to stop"),
            }
            assert!(info.read.is_none());
        }
    }
}

#[test]
fn a_full_reader_keeps_its_stream() {
    for evt in [Read::First(Poll::Pending), Read::More(Poll::Pending)] {
        let (notes, mut info) = both();
        assert!(matches!(info.read(evt), Doing::Done));
        assert!(info.read.is_some() && info.wants_read());
        assert!(notes.borrow().is_empty());
        assert!(matches!(
            info.read(Read::First(Poll::Ready(Ok('a')))),
            Doing::Open('a')
        ));
    }
}

#[test]
fn writing_goes_on_until_it_has_to_wait() {
    let (_, mut info) = both();
    assert!(matches!(
        info.write(WriteEvt::<u8>::Cmd(Poll::Pending)),
        WriteAct::Done
    ));
    assert!(matches!(
        info.write(WriteEvt::Cmd(Poll::Ready(WriteCmdKind::Data('d')))),
        WriteAct::Write('d')
    ));
    assert!(matches!(
        info.write(WriteEvt::Written('d', WriteResult::Wrote(3))),
        WriteAct::Advance('d', 3)
    ));
    assert!(matches!(
        info.write(WriteEvt::Written('d', WriteResult::Blocked)),
        WriteAct::Finish('d')
    ));
    assert!(!info.wants_write() && info.write.is_some());
    info.set_writable();
    assert!(info.wants_write());
    assert!(matches!(
        info.write(WriteEvt::Written('d', WriteResult::Failed)),
        WriteAct::Done
    ));
    assert!(info.write.is_none() && info.read.is_some());
}

#[test]
fn writing_ends_in_order_or_with_a_code() {
    for code in [0, BOUND, u64::MAX] {
        let (_, mut info) = both();
        assert!(matches!(
            info.write(WriteEvt::<u8>::Cmd(Poll::Ready(WriteCmdKind::Stop(code)))),
            WriteAct::End
        ));
        assert!(info.write.is_none());
    }
    for code in [1, BOUND - 1] {
        let (_, mut info) = both();
        match info.write(WriteEvt::<u8>::Cmd(Poll::Ready(WriteCmdKind::Stop(code)))) {
            WriteAct::Reset(v) => assert_eq!(v.into_inner(), code),
            _ => panic!("expected a reset"),
        }
    }
}

#[test]
fn marks_are_for_streams_that_are_there() {
    let notes: Notes = Rc::default();
    let mut streams: StreamMap<Back, u8> = StreamMap::new();
    let mut info = Info::bi(4, Back(notes.clone()), 9);
    info.readable = false;
    info.writable = false;
    streams.insert(4, info);
    mark_readable(&mut streams, 5);
    mark_writable(&mut streams, 5);
    assert!(!streams[&4].readable && !streams[&4].writable);
    mark_readable(&mut streams, 4);
    assert!(streams[&4].readable && !streams[&4].writable);
    mark_writable(&mut streams, 4);
    assert!(streams[&4].readable && streams[&4].writable);
    finish_stream(&mut streams, 5);
    stop_stream(&mut streams, 5, 1);
    assert_eq!(streams.len(), 1);
    stop_stream(&mut streams, 4, 13);
    assert!(streams.is_empty());
    assert_eq!(*notes.borrow(), vec!["13".to_string()]);
    streams.insert(4, Info::bi(4, Back(notes.clone()), 9));
    finish_stream(&mut streams, 4);
    assert!(streams.is_empty());
    assert_eq!(notes.borrow().len(), 1);
}

type Drain = DrainEvt<char, u32>;
type Draining = DrainAct<char, u32>;

#[test]
fn draining_reads_all_there_is() {
    let (notes, mut info) = both();
    let mut d = ReadDrain::new();
    assert!(matches!(d.step(Drain::Opened(true)), Draining::Acquire));
    assert!(matches!(
        d.step(Drain::Permit(Poll::Ready('a'))),
        Draining::Next('a')
    ));
    assert!(matches!(
        d.step(Drain::Chunk('a', ChunkRead::Data(1))),
        Draining::Send('a', 1)
    ));
    assert!(matches!(d.step(Drain::Sent(Ok(()))), Draining::Acquire));
    assert!(matches!(
        d.step(Drain::Permit(Poll::Pending)),
        Draining::Finalize
    ));
    assert!(matches!(d.step(Drain::Finalized(false)), Draining::Done));
    assert!(d.finish(&mut info));
    assert!(info.read.is_some());
    assert!(notes.borrow().is_empty());

    let mut d = ReadDrain::new();
    assert!(matches!(
        d.step(Drain::Chunk('a', ChunkRead::Blocked)),
        Draining::Finalize
    ));
    assert!(matches!(d.step(Drain::Finalized(true)), Draining::Done));
    assert!(d.finish(&mut info));
    let mut d = ReadDrain::new();
    assert!(matches!(d.step(Drain::Finalized(false)), Draining::Done));
    assert!(!d.finish(&mut info));
}

#[test]
fn draining_ends_the_read_half() {
    for evt in [Drain::Opened(false), Drain::Chunk('a', ChunkRead::End)] {
        let (notes, mut info) = both();
        let mut d = ReadDrain::new();
        d.step(evt);
        assert!(d.finish(&mut info));
        assert!(info.read.is_none() && info.write.is_some());
        assert!(notes.borrow().is_empty());
    }

    let (notes, mut info) = both();
    let mut d = ReadDrain::new();
    assert!(matches!(
        d.step(Drain::Chunk(
            'a',
            ChunkRead::Failed(AqErr::Other("reset".to_string()))
        )),
        Draining::Finalize
    ));
    assert!(matches!(d.step(Drain::Finalized(false)), Draining::Done));
    assert!(d.finish(&mut info));
    assert!(info.read.is_none());
    assert_eq!(*notes.borrow(), vec!["reset".to_string()]);

    for (code, told) in [(3, true), (BOUND, false)] {
        let (_, mut info) = both();
        let mut d = ReadDrain::new();
        assert!(matches!(d.step(Drain::Sent(Err(code))), Draining::Finalize));
        match d.step(Drain::Finalized(false)) {
            Draining::Stop(v) => assert!(told && v.into_inner() == code),
            Draining::Done => assert!(!told),
            _ => panic!("expected the end"),
        }
        assert!(!d.finish(&mut info));
        assert!(info.read.is_none());
    }
}

#[test]
fn draining_writes_all_there_is() {
    let (_, mut info) = both();
    let mut d = WriteDrain::new();
    assert!(matches!(
        d.step(WriteEvt::<char>::Cmd(Poll::Pending)),
        WriteDrainAct::Done
    ));
    assert!(!d.finish(&mut info));
    assert!(matches!(
        d.step(WriteEvt::Cmd(Poll::Ready(WriteCmdKind::Data('d')))),
        WriteDrainAct::Write('d')
    ));
    assert!(matches!(
        d.step(WriteEvt::Written('d', WriteResult::Wrote(3))),
        WriteDrainAct::Advance('d', 3)
    ));
    assert!(d.finish(&mut info));
    assert!(info.write.is_some());
    for how in [WriteResult::Blocked, WriteResult::Failed] {
        let (_, mut info) = both();
        let mut d = WriteDrain::new();
        assert!(matches!(
            d.step(WriteEvt::Written('d', how)),
            WriteDrainAct::Done
        ));
        d.finish(&mut info);
        assert!(info.write.is_none());
    }
    for (code, reset) in [(0, false), (5, true), (BOUND, false)] {
        let (_, mut info) = both();
        let mut d = WriteDrain::new();
        match d.step(WriteEvt::<char>::Cmd(Poll::Ready(WriteCmdKind::Stop(code)))) {
            WriteDrainAct::Reset(v) => assert!(reset && v.into_inner() == code),
            WriteDrainAct::End => assert!(!reset),
            _ => panic!("expected the end"),
        }
        assert!(d.finish(&mut info));
        assert!(info.write.is_none());
    }
}
