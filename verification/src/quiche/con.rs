//! The task of one connection: its commands, its http3 messages, its packets.
use crate::buf;
use crate::buf::bytes_copy_from_slice;
use crate::con::ConEvt;
use crate::con::Header;
use crate::con::Http3Msg;
use crate::con::MsgState;
use crate::con::Opaque;
use bytes::Bytes;
use std::collections::HashMap;
use std::collections::VecDeque;
use vstd::prelude::*;

verus! {

broadcast use vstd::std_specs::hash::group_hash_axioms;

/// A message on its way out. `S` takes the word that it is sent.
pub struct H3OutboundProgress<S> {
    /// if this is set, we still need to send the response
    pub reference: Option<u64>,
    /// its headers
    pub headers: Vec<Header>,
    /// its body
    pub body: Vec<Bytes>,
    /// to be told
    pub rsp: S,
}

/// A message on its way in.
pub struct H3InboundProgress {
    /// its headers
    pub headers: Vec<Header>,
    /// as much of its body as has come
    pub body: Vec<Bytes>,
}

/// A message on its way in, as mathematics.
pub struct InState {
    /// its headers
    pub headers: Seq<Header>,
    /// as much of its body as has come
    pub body: Seq<Bytes>,
}

impl View for H3InboundProgress {
    type V = InState;

    open spec fn view(&self) -> InState {
        InState { headers: self.headers@, body: self.body@ }
    }
}

/// What a connection is told. `K` is a packet.
pub enum ConCmd<K, S> {
    /// see what there is to send
    Tick,
    /// the timeout is over
    Timeout,
    /// a packet came
    InPak(K),
    /// send a message
    Http3(Http3Msg, S),
}

/// What happened on the http3 side.
pub enum H3Event {
    /// nothing more
    Done,
    /// it failed
    Failed,
    /// headers came on a stream; whether a body follows
    Headers(u64, Vec<Header>, bool),
    /// a body came on a stream
    Data(u64),
    /// the message on a stream is complete
    Finished(u64),
    /// the stream was reset
    Reset(u64),
    /// a datagram came for a flow
    Datagram(u64),
    /// the other side goes away
    GoAway,
}

/// What came of asking for more.
pub enum Got<O> {
    /// nothing more
    Done,
    /// it failed
    Failed,
    /// this
    Item(O),
}

/// Where the task is.
#[derive(Clone, Copy)]
pub enum TaskPhase {
    /// waits for a command
    Idle,
    /// a command is carried out
    Handling,
    /// waits to hear of the timeout
    Timeout,
    /// the timeout is scheduled
    Schedule,
    /// waits for room to tell the user
    Guard,
    /// waits to hear whether the connection is established
    Established,
    /// http3 is set up
    OpenH3,
    /// the user is told that the connection is established
    Connected,
    /// a request is sent
    Requests,
    /// waits for room to tell the user, with http3
    GuardPoll,
    /// waits to hear what happened on the http3 side
    Poll,
    /// the user is told of a message
    Message,
    /// a body is read from this stream
    Body(u64),
    /// datagrams of this flow are read
    Dgram(u64),
    /// packets are sent
    Send,
    /// over
    Over,
}

/// The task of one connection. `C` and `E` are the guards of commands and
/// events.
pub struct ConTask<C, E, S> {
    /// whether http3 is wanted
    pub want_h3: bool,
    /// whether the connection was established
    pub connected: bool,
    /// whether http3 is set up
    pub h3: bool,
    /// whether there may be packets to send
    pub should_send: bool,
    /// of the command at hand
    pub cmd_guard: Option<C>,
    /// for the next event
    pub evt_guard: Option<E>,
    /// requests that wait to be sent
    pub outbound_wait: VecDeque<H3OutboundProgress<S>>,
    /// messages on their way out, by stream
    pub outbound: HashMap<u64, H3OutboundProgress<S>>,
    /// messages on their way in, by stream
    pub inbound: HashMap<u64, H3InboundProgress>,
    /// where the task is
    pub phase: TaskPhase,
}

/// A `ConTask` as mathematics.
#[verifier::ext_equal]
pub struct TaskState<C, E, S> {
    /// whether http3 is wanted
    pub want_h3: bool,
    /// whether the connection was established
    pub connected: bool,
    /// whether http3 is set up
    pub h3: bool,
    /// whether there may be packets to send
    pub should_send: bool,
    /// of the command at hand
    pub cmd_guard: Option<C>,
    /// for the next event
    pub evt_guard: Option<E>,
    /// requests that wait to be sent
    pub outbound_wait: Seq<H3OutboundProgress<S>>,
    /// messages on their way out, by stream
    pub outbound: Map<u64, H3OutboundProgress<S>>,
    /// messages on their way in, by stream
    pub inbound: Map<u64, InState>,
    /// where the task is
    pub phase: TaskPhase,
}

/// What came of the last action. `T` is a time, `O` a packet to send.
pub enum TaskEvt<K, C, E, S, T, O> {
    /// the next command, if any will come
    Cmd(Option<(ConCmd<K, S>, C)>),
    /// the last action is done
    Handled,
    /// the timeout of the connection, if it has one
    Timeout(Option<T>),
    /// there is room for an event
    Guard(E),
    /// whether the connection is established
    Established(bool),
    /// whether http3 could be set up
    H3Opened(bool),
    /// whether there was somebody to tell
    Sent(bool),
    /// no request can be sent now
    RequestBlocked,
    /// what happened on the http3 side
    H3(H3Event),
    /// a part of the body, if there is more
    Body(Got<Bytes>),
    /// a datagram of this flow, if there is one more
    Dgram(Got<u64>),
    /// a packet to send, if there is one more
    Pak(Got<O>),
}

/// What to do next. `M` is what the user is told.
pub enum TaskAct<K, C, E, T, O, M> {
    /// wait for a command
    RecvCmd,
    /// tell the connection that its timeout is over
    OnTimeout,
    /// let the connection take the packet
    RecvPak(K),
    /// ask the connection for its timeout
    PollTimeout,
    /// have a timeout command sent at this time, under this guard
    Schedule(T, C),
    /// wait for room to tell the user
    AcquireEvt,
    /// ask whether the connection is established
    CheckEstablished,
    /// set http3 up
    OpenH3,
    /// tell the user
    Send(E, M),
    /// send the first request that waits; whether it ends with its headers
    SendRequest(bool),
    /// ask what happened on the http3 side
    PollH3,
    /// read more of the body on this stream
    RecvBody(u64),
    /// read a datagram
    RecvDgram,
    /// ask the connection for a packet to send
    SendPak,
    /// send the packet when it is due
    Transmit(O),
    /// end the task
    End,
}

/// What the user is told, as mathematics.
pub enum Note {
    /// the connection is established
    Connected,
    /// a message came
    Http3(MsgState),
}

/// What the user is told, as mathematics.
pub open spec fn note(evt: ConEvt) -> Note {
    match evt {
        ConEvt::Connected => Note::Connected,
        ConEvt::Http3(msg) => Note::Http3(msg@),
    }
}

impl<K, C, E, T, O> View for TaskAct<K, C, E, T, O, ConEvt> {
    type V = TaskAct<K, C, E, T, O, Note>;

    open spec fn view(&self) -> TaskAct<K, C, E, T, O, Note> {
        match *self {
            TaskAct::RecvCmd => TaskAct::RecvCmd,
            TaskAct::OnTimeout => TaskAct::OnTimeout,
            TaskAct::RecvPak(k) => TaskAct::RecvPak(k),
            TaskAct::PollTimeout => TaskAct::PollTimeout,
            TaskAct::Schedule(t, c) => TaskAct::Schedule(t, c),
            TaskAct::AcquireEvt => TaskAct::AcquireEvt,
            TaskAct::CheckEstablished => TaskAct::CheckEstablished,
            TaskAct::OpenH3 => TaskAct::OpenH3,
            TaskAct::Send(e, m) => TaskAct::Send(e, note(m)),
            TaskAct::SendRequest(fin) => TaskAct::SendRequest(fin),
            TaskAct::PollH3 => TaskAct::PollH3,
            TaskAct::RecvBody(id) => TaskAct::RecvBody(id),
            TaskAct::RecvDgram => TaskAct::RecvDgram,
            TaskAct::SendPak => TaskAct::SendPak,
            TaskAct::Transmit(o) => TaskAct::Transmit(o),
            TaskAct::End => TaskAct::End,
        }
    }
}

/// The messages on their way in, as mathematics.
pub open spec fn inbound_view(m: Map<u64, H3InboundProgress>) -> Map<u64, InState> {
    m.map_values(|i: H3InboundProgress| i@)
}

impl<C, E, S> View for ConTask<C, E, S> {
    type V = TaskState<C, E, S>;

    open spec fn view(&self) -> TaskState<C, E, S> {
        TaskState {
            want_h3: self.want_h3,
            connected: self.connected,
            h3: self.h3,
            should_send: self.should_send,
            cmd_guard: self.cmd_guard,
            evt_guard: self.evt_guard,
            outbound_wait: self.outbound_wait@,
            outbound: self.outbound@,
            inbound: inbound_view(self.inbound@),
            phase: self.phase,
        }
    }
}

/// The task, and what to do next.
pub type TaskNext<K, C, E, S, T, O> = (TaskState<C, E, S>, TaskAct<K, C, E, T, O, Note>);

impl<C, E, S> TaskState<C, E, S> {
    /// The task in another phase.
    pub open spec fn at(self, phase: TaskPhase) -> TaskState<C, E, S> {
        TaskState { phase, ..self }
    }

    /// Done with the command at hand: packets are sent where there may be
    /// some, then the next command is waited for.
    pub open spec fn to_send<K, T, O>(self) -> TaskNext<K, C, E, S, T, O> {
        if self.should_send {
            (self.at(TaskPhase::Send), TaskAct::SendPak)
        } else {
            (self.at(TaskPhase::Idle), TaskAct::RecvCmd)
        }
    }

    /// To what happened on the http3 side, as soon as the user can be told.
    pub open spec fn to_poll<K, T, O>(self) -> TaskNext<K, C, E, S, T, O> {
        if self.evt_guard is None {
            (self.at(TaskPhase::GuardPoll), TaskAct::AcquireEvt)
        } else {
            (self.at(TaskPhase::Poll), TaskAct::PollH3)
        }
    }

    /// To http3, where it is set up: requests that wait come first.
    pub open spec fn to_h3<K, T, O>(self) -> TaskNext<K, C, E, S, T, O> {
        if !self.h3 {
            self.to_send()
        } else if self.outbound_wait.len() > 0 {
            (
                self.at(TaskPhase::Requests),
                TaskAct::SendRequest(self.outbound_wait[0].body@.len() == 0),
            )
        } else {
            self.to_poll()
        }
    }

    /// To whether the connection is established, as soon as the user can be
    /// told.
    pub open spec fn to_established<K, T, O>(self) -> TaskNext<K, C, E, S, T, O> {
        if self.evt_guard is None {
            (self.at(TaskPhase::Guard), TaskAct::AcquireEvt)
        } else if self.connected {
            self.to_h3()
        } else {
            (self.at(TaskPhase::Established), TaskAct::CheckEstablished)
        }
    }

    /// Telling the user.
    pub open spec fn tell<K, T, O>(self, phase: TaskPhase, n: Note) -> TaskNext<K, C, E, S, T, O> {
        (
            TaskState { evt_guard: None, phase, ..self },
            TaskAct::Send(self.evt_guard->0, n),
        )
    }

    /// The end of the task.
    pub open spec fn end<K, T, O>(self) -> TaskNext<K, C, E, S, T, O> {
        (self.at(TaskPhase::Over), TaskAct::End)
    }

    /// What a command means: a message that answers nothing is a request and
    /// waits its turn, any other goes out on the stream that it answers.
    pub open spec fn on_cmd<K, T, O>(self, cmd: ConCmd<K, S>) -> TaskNext<K, C, E, S, T, O> {
        match cmd {
            ConCmd::Tick => (
                TaskState { should_send: true, ..self }.at(TaskPhase::Timeout),
                TaskAct::PollTimeout,
            ),
            ConCmd::Timeout => (
                TaskState { should_send: true, ..self }.at(TaskPhase::Handling),
                TaskAct::OnTimeout,
            ),
            ConCmd::InPak(pak) => (
                TaskState { should_send: true, ..self }.at(TaskPhase::Handling),
                TaskAct::RecvPak(pak),
            ),
            ConCmd::Http3(item, rsp) => if item.reference.spec_is_request() {
                (
                    TaskState {
                        outbound_wait: self.outbound_wait.push(
                            H3OutboundProgress {
                                reference: None,
                                headers: item.headers,
                                body: item.body,
                                rsp,
                            },
                        ),
                        ..self
                    }.at(TaskPhase::Timeout),
                    TaskAct::PollTimeout,
                )
            } else {
                (
                    TaskState {
                        outbound: self.outbound.insert(
                            item.reference.0,
                            H3OutboundProgress {
                                reference: Some(item.reference.0),
                                headers: item.headers,
                                body: item.body,
                                rsp,
                            },
                        ),
                        ..self
                    }.at(TaskPhase::Timeout),
                    TaskAct::PollTimeout,
                )
            },
        }
    }

    /// What an event on the http3 side means.
    pub open spec fn on_h3<K, T, O>(self, evt: H3Event) -> TaskNext<K, C, E, S, T, O> {
        match evt {
            H3Event::Done => self.to_send(),
            H3Event::Failed | H3Event::GoAway => self.end(),
            H3Event::Headers(id, list, true) => TaskState {
                inbound: self.inbound.insert(
                    id,
                    InState { headers: list@, body: Seq::empty() },
                ),
                ..self
            }.to_poll(),
            H3Event::Headers(id, list, false) => self.tell(
                TaskPhase::Message,
                Note::Http3(
                    MsgState { headers: list@, body: Seq::empty(), reference: Opaque(id) },
                ),
            ),
            H3Event::Data(id) => (self.at(TaskPhase::Body(id)), TaskAct::RecvBody(id)),
            H3Event::Finished(id) => if self.inbound.contains_key(id) {
                TaskState { inbound: self.inbound.remove(id), ..self }.tell(
                    TaskPhase::Message,
                    Note::Http3(
                        MsgState {
                            headers: self.inbound[id].headers,
                            body: self.inbound[id].body,
                            reference: Opaque(id),
                        },
                    ),
                )
            } else {
                self.to_poll()
            },
            H3Event::Reset(id) => TaskState {
                inbound: self.inbound.remove(id),
                ..self
            }.to_poll(),
            H3Event::Datagram(flow) => (self.at(TaskPhase::Dgram(flow)), TaskAct::RecvDgram),
        }
    }

    /// The task after a part of a body came: it belongs to the message on its
    /// way in on the stream, if there is one.
    pub open spec fn body_came(self, id: u64, data: Bytes) -> TaskState<C, E, S> {
        if self.inbound.contains_key(id) {
            let item = self.inbound[id];
            TaskState {
                inbound: self.inbound.insert(
                    id,
                    InState { headers: item.headers, body: item.body.push(data) },
                ),
                ..self
            }
        } else {
            self
        }
    }

    /// What the task does next, and the task after that.
    pub open spec fn next<K, T, O>(self, evt: TaskEvt<K, C, E, S, T, O>) -> TaskNext<
        K,
        C,
        E,
        S,
        T,
        O,
    > {
        match evt {
            TaskEvt::Cmd(None) => self.end(),
            TaskEvt::Cmd(Some((cmd, guard))) => TaskState {
                should_send: false,
                cmd_guard: Some(guard),
                ..self
            }.on_cmd(cmd),
            TaskEvt::Handled => match self.phase {
                TaskPhase::Handling => (self.at(TaskPhase::Timeout), TaskAct::PollTimeout),
                TaskPhase::Schedule => self.to_established(),
                _ => self.to_send(),
            },
            TaskEvt::Timeout(Some(time)) => (
                TaskState { cmd_guard: None, ..self }.at(TaskPhase::Schedule),
                TaskAct::Schedule(time, self.cmd_guard->0),
            ),
            TaskEvt::Timeout(None) => self.to_established(),
            TaskEvt::Guard(guard) => if self.phase is Guard {
                TaskState { evt_guard: Some(guard), ..self }.to_established()
            } else {
                TaskState { evt_guard: Some(guard), ..self }.to_poll()
            },
            TaskEvt::Established(false) => self.to_h3(),
            TaskEvt::Established(true) => if self.want_h3 {
                (TaskState { connected: true, ..self }.at(TaskPhase::OpenH3), TaskAct::OpenH3)
            } else {
                TaskState { connected: true, ..self }.tell(TaskPhase::Connected, Note::Connected)
            },
            TaskEvt::H3Opened(opened) => TaskState {
                h3: opened,
                should_send: self.should_send || opened,
                ..self
            }.tell(TaskPhase::Connected, Note::Connected),
            TaskEvt::Sent(ok) => if self.phase is Connected {
                self.to_h3()
            } else if ok {
                self.to_poll()
            } else {
                self.end()
            },
            TaskEvt::RequestBlocked => self.to_poll(),
            TaskEvt::H3(e) => self.on_h3(e),
            TaskEvt::Body(Got::Done) | TaskEvt::Dgram(Got::Done) => self.to_poll(),
            TaskEvt::Body(Got::Failed) | TaskEvt::Dgram(Got::Failed) | TaskEvt::Pak(
                Got::Failed,
            ) => self.end(),
            TaskEvt::Body(Got::Item(data)) => (
                self.body_came(self.phase->Body_0, data),
                TaskAct::RecvBody(self.phase->Body_0),
            ),
            TaskEvt::Dgram(Got::Item(flow)) => if flow == self.phase->Dgram_0 {
                (self, TaskAct::RecvDgram)
            } else {
                self.end()
            },
            TaskEvt::Pak(Got::Done) => (self.at(TaskPhase::Idle), TaskAct::RecvCmd),
            TaskEvt::Pak(Got::Item(pak)) => (self, TaskAct::Transmit(pak)),
        }
    }

    /// Whether the task waits for this event.
    pub open spec fn expects<K, T, O>(self, evt: TaskEvt<K, C, E, S, T, O>) -> bool {
        match self.phase {
            TaskPhase::Idle => evt is Cmd,
            TaskPhase::Handling | TaskPhase::Schedule => evt is Handled,
            TaskPhase::Timeout => evt is Timeout,
            TaskPhase::Guard | TaskPhase::GuardPoll => evt is Guard,
            TaskPhase::Established => evt is Established,
            TaskPhase::OpenH3 => evt is H3Opened,
            TaskPhase::Connected | TaskPhase::Message => evt is Sent,
            TaskPhase::Requests => evt is RequestBlocked,
            TaskPhase::Poll => evt is H3,
            TaskPhase::Body(_) => evt is Body,
            TaskPhase::Dgram(_) => evt is Dgram,
            TaskPhase::Send => evt is Pak || evt is Handled,
            TaskPhase::Over => false,
        }
    }

    /// Whether the task is in order: it holds the guards that it will need,
    /// and http3 is set up only on an established connection.
    pub open spec fn wf(self) -> bool {
        &&& self.h3 ==> self.connected && self.want_h3
        &&& self.phase is Handling || self.phase is Timeout ==> self.cmd_guard is Some
        &&& self.phase is Established || self.phase is OpenH3 || self.phase is Poll
            || self.phase is Body || self.phase is Dgram ==> self.evt_guard is Some
        &&& self.phase is Guard || self.phase is GuardPoll ==> self.evt_guard is None
        &&& self.phase is Established ==> !self.connected
        &&& self.phase is OpenH3 || self.phase is Connected ==> self.connected
        &&& self.phase is OpenH3 ==> self.want_h3
        &&& self.phase is Requests || self.phase is GuardPoll || self.phase is Poll
            || self.phase is Message || self.phase is Body || self.phase is Dgram ==> self.h3
    }
}

/// The law of a connection's task: it stays in order whatever comes; the user
/// is told of messages only on an established connection with http3, and of
/// the connection only once.
pub proof fn law_con_task<K, C, E, S, T, O>(
    task: TaskState<C, E, S>,
    evt: TaskEvt<K, C, E, S, T, O>,
)
    requires
        task.wf(),
        task.expects(evt),
    ensures
        ({
            let (after, act) = task.next(evt);
            &&& after.wf()
            &&& task.connected ==> after.connected
            &&& task.h3 ==> after.h3 || task.phase is OpenH3
            &&& act matches TaskAct::Send(_, Note::Connected) ==> after.connected && (
            !task.connected || task.phase is OpenH3)
            &&& act matches TaskAct::Send(_, Note::Http3(_)) ==> after.connected && after.h3
            &&& act is Send ==> task.evt_guard is Some && after.evt_guard is None
            &&& act is Schedule ==> task.cmd_guard is Some && after.cmd_guard is None
        }),
{
}

/// What comes in on a stream: its headers, parts of its body, and that it is
/// complete.
pub open spec fn stream_run<K, C, E, S, T, O>(
    task: TaskState<C, E, S>,
    id: u64,
    parts: Seq<Bytes>,
) -> TaskState<C, E, S>
    decreases parts.len(),
{
    if parts.len() == 0 {
        task
    } else {
        stream_run::<K, C, E, S, T, O>(task, id, parts.drop_last()).body_came(id, parts.last())
    }
}

/// The law of incoming messages: headers with a body to follow, then parts of
/// the body in any number, then the word that it is complete, give the user
/// one message with those headers and those parts in that order, under the
/// number of the stream.
pub proof fn law_message_assembled<K, C, E, S, T, O>(
    task: TaskState<C, E, S>,
    id: u64,
    headers: Vec<Header>,
    parts: Seq<Bytes>,
)
    requires
        task.evt_guard is Some,
    ensures
        ({
            let begun = task.on_h3::<K, T, O>(H3Event::Headers(id, headers, true)).0;
            let came = stream_run::<K, C, E, S, T, O>(begun, id, parts);
            let (after, act) = came.on_h3::<K, T, O>(H3Event::Finished(id));
            &&& act == TaskAct::<K, C, E, T, O, Note>::Send(
                task.evt_guard->0,
                Note::Http3(MsgState { headers: headers@, body: parts, reference: Opaque(id) }),
            )
            &&& after.inbound == task.inbound.remove(id)
        }),
{
    let begun = task.on_h3::<K, T, O>(H3Event::Headers(id, headers, true)).0;
    lemma_stream_run::<K, C, E, S, T, O>(begun, id, parts);
    let came = stream_run::<K, C, E, S, T, O>(begun, id, parts);
    assert(came.inbound.remove(id) =~= task.inbound.remove(id));
    assert(Seq::<Bytes>::empty() + parts =~= parts);
}

proof fn lemma_stream_run<K, C, E, S, T, O>(
    task: TaskState<C, E, S>,
    id: u64,
    parts: Seq<Bytes>,
)
    requires
        task.inbound.contains_key(id),
    ensures
        stream_run::<K, C, E, S, T, O>(task, id, parts) == (TaskState {
            inbound: task.inbound.insert(
                id,
                InState {
                    headers: task.inbound[id].headers,
                    body: task.inbound[id].body + parts,
                },
            ),
            ..task
        }),
    decreases parts.len(),
{
    if parts.len() == 0 {
        assert(task.inbound[id].body + parts =~= task.inbound[id].body);
        assert(task.inbound =~= task.inbound.insert(id, task.inbound[id]));
    } else {
        lemma_stream_run::<K, C, E, S, T, O>(task, id, parts.drop_last());
        let before = stream_run::<K, C, E, S, T, O>(task, id, parts.drop_last());
        assert((task.inbound[id].body + parts.drop_last()).push(parts.last())
            =~= task.inbound[id].body + parts);
        assert(before.inbound.insert(
            id,
            InState {
                headers: task.inbound[id].headers,
                body: task.inbound[id].body + parts,
            },
        ) =~= task.inbound.insert(
            id,
            InState {
                headers: task.inbound[id].headers,
                body: task.inbound[id].body + parts,
            },
        ));
    }
}

/// The part of a body that was read into the front of a buffer.
pub fn body_part(buf: &[u8], len: usize) -> (r: Bytes)
    requires
        len <= buf@.len(),
    ensures
        buf::bytes_view(r) == buf@.take(len as int),
{
    let part = vstd::slice::slice_subrange(buf, 0, len);
    assert(part@ =~= buf@.take(len as int));
    bytes_copy_from_slice(part)
}

impl<C, E, S> ConTask<C, E, S> {
    /// The task of a new connection.
    pub fn new(want_h3: bool) -> (r: Self)
        ensures
            r@ == (TaskState {
                want_h3,
                connected: false,
                h3: false,
                should_send: false,
                cmd_guard: None::<C>,
                evt_guard: None::<E>,
                outbound_wait: Seq::<H3OutboundProgress<S>>::empty(),
                outbound: Map::<u64, H3OutboundProgress<S>>::empty(),
                inbound: Map::<u64, InState>::empty(),
                phase: TaskPhase::Idle,
            }),
            r@.wf(),
    {
        let r = ConTask {
            want_h3,
            connected: false,
            h3: false,
            should_send: false,
            cmd_guard: None,
            evt_guard: None,
            outbound_wait: VecDeque::new(),
            outbound: HashMap::new(),
            inbound: HashMap::new(),
            phase: TaskPhase::Idle,
        };
        assert(r@.inbound =~= Map::<u64, InState>::empty());
        r
    }

    fn go_send<K, T, O>(&mut self) -> (r: TaskAct<K, C, E, T, O, ConEvt>)
        ensures
            (final(self)@, r@) == old(self)@.to_send::<K, T, O>(),
    {
        if self.should_send {
            self.phase = TaskPhase::Send;
            TaskAct::SendPak
        } else {
            self.phase = TaskPhase::Idle;
            TaskAct::RecvCmd
        }
    }

    fn go_poll<K, T, O>(&mut self) -> (r: TaskAct<K, C, E, T, O, ConEvt>)
        ensures
            (final(self)@, r@) == old(self)@.to_poll::<K, T, O>(),
    {
        if self.evt_guard.is_none() {
            self.phase = TaskPhase::GuardPoll;
            TaskAct::AcquireEvt
        } else {
            self.phase = TaskPhase::Poll;
            TaskAct::PollH3
        }
    }

    fn go_h3<K, T, O>(&mut self) -> (r: TaskAct<K, C, E, T, O, ConEvt>)
        ensures
            (final(self)@, r@) == old(self)@.to_h3::<K, T, O>(),
    {
        if !self.h3 {
            self.go_send()
        } else if self.outbound_wait.len() > 0 {
            self.phase = TaskPhase::Requests;
            TaskAct::SendRequest(self.outbound_wait[0].body.len() == 0)
        } else {
            self.go_poll()
        }
    }

    fn go_established<K, T, O>(&mut self) -> (r: TaskAct<K, C, E, T, O, ConEvt>)
        ensures
            (final(self)@, r@) == old(self)@.to_established::<K, T, O>(),
    {
        if self.evt_guard.is_none() {
            self.phase = TaskPhase::Guard;
            TaskAct::AcquireEvt
        } else if self.connected {
            self.go_h3()
        } else {
            self.phase = TaskPhase::Established;
            TaskAct::CheckEstablished
        }
    }

    fn tell_user<K, T, O>(&mut self, phase: TaskPhase, evt: ConEvt) -> (r: TaskAct<
        K,
        C,
        E,
        T,
        O,
        ConEvt,
    >)
        requires
            old(self).evt_guard is Some,
        ensures
            (final(self)@, r@) == old(self)@.tell::<K, T, O>(phase, note(evt)),
    {
        self.phase = phase;
        let guard = self.evt_guard.take().unwrap();
        TaskAct::Send(guard, evt)
    }

    fn take_cmd<K, T, O>(&mut self, cmd: ConCmd<K, S>) -> (r: TaskAct<K, C, E, T, O, ConEvt>)
        ensures
            (final(self)@, r@) == old(self)@.on_cmd::<K, T, O>(cmd),
    {
        match cmd {
            ConCmd::Tick => {
                self.should_send = true;
                self.phase = TaskPhase::Timeout;
                TaskAct::PollTimeout
            },
            ConCmd::Timeout => {
                self.should_send = true;
                self.phase = TaskPhase::Handling;
                TaskAct::OnTimeout
            },
            ConCmd::InPak(pak) => {
                self.should_send = true;
                self.phase = TaskPhase::Handling;
                TaskAct::RecvPak(pak)
            },
            ConCmd::Http3(item, rsp) => {
                self.phase = TaskPhase::Timeout;
                if item.reference.is_request() {
                    self.outbound_wait.push_back(
                        H3OutboundProgress {
                            reference: None,
                            headers: item.headers,
                            body: item.body,
                            rsp,
                        },
                    );
                } else {
                    self.outbound.insert(
                        item.reference.0,
                        H3OutboundProgress {
                            reference: Some(item.reference.0),
                            headers: item.headers,
                            body: item.body,
                            rsp,
                        },
                    );
                }
                TaskAct::PollTimeout
            },
        }
    }

    fn take_h3<K, T, O>(&mut self, evt: H3Event) -> (r: TaskAct<K, C, E, T, O, ConEvt>)
        requires
            old(self).evt_guard is Some,
        ensures
            (final(self)@, r@) == old(self)@.on_h3::<K, T, O>(evt),
    {
        match evt {
            H3Event::Done => self.go_send(),
            H3Event::Failed | H3Event::GoAway => {
                self.phase = TaskPhase::Over;
                TaskAct::End
            },
            H3Event::Headers(id, list, true) => {
                let item = H3InboundProgress { headers: list, body: Vec::new() };
                self.inbound.insert(id, item);
                assert(item@ == (InState { headers: list@, body: Seq::<Bytes>::empty() }));
                assert(self@.inbound =~= old(self)@.inbound.insert(id, item@));
                self.go_poll()
            },
            H3Event::Headers(id, list, false) => {
                let msg = Http3Msg { headers: list, body: Vec::new(), reference: Opaque(id) };
                assert(msg@.body =~= Seq::<Bytes>::empty());
                self.tell_user(TaskPhase::Message, ConEvt::Http3(msg))
            },
            H3Event::Data(id) => {
                self.phase = TaskPhase::Body(id);
                TaskAct::RecvBody(id)
            },
            H3Event::Finished(id) => {
                match self.inbound.remove(&id) {
                    Some(item) => {
                        assert(self@.inbound =~= old(self)@.inbound.remove(id));
                        let msg = Http3Msg {
                            headers: item.headers,
                            body: item.body,
                            reference: Opaque(id),
                        };
                        self.tell_user(TaskPhase::Message, ConEvt::Http3(msg))
                    },
                    None => {
                        assert(self@.inbound =~= old(self)@.inbound);
                        self.go_poll()
                    },
                }
            },
            H3Event::Reset(id) => {
                self.inbound.remove(&id);
                assert(self@.inbound =~= old(self)@.inbound.remove(id));
                self.go_poll()
            },
            H3Event::Datagram(flow) => {
                self.phase = TaskPhase::Dgram(flow);
                TaskAct::RecvDgram
            },
        }
    }

    fn take_body(&mut self, id: u64, data: Bytes)
        ensures
            final(self)@ == old(self)@.body_came(id, data),
    {
        if let Some(mut item) = self.inbound.remove(&id) {
            item.body.push(data);
            self.inbound.insert(id, item);
            assert(self@.inbound =~= old(self)@.body_came(id, data).inbound);
        } else {
            assert(self@.inbound =~= old(self)@.inbound);
        }
    }

    /// Go one step on in the task.
    pub fn step<K, T, O>(&mut self, evt: TaskEvt<K, C, E, S, T, O>) -> (r: TaskAct<
        K,
        C,
        E,
        T,
        O,
        ConEvt,
    >)
        requires
            old(self)@.wf(),
            old(self)@.expects(evt),
        ensures
            (final(self)@, r@) == old(self)@.next(evt),
            final(self)@.wf(),
    {
        proof {
            law_con_task(self@, evt);
        }
        match evt {
            TaskEvt::Cmd(None) => {
                self.phase = TaskPhase::Over;
                TaskAct::End
            },
            TaskEvt::Cmd(Some((cmd, guard))) => {
                self.should_send = false;
                self.cmd_guard = Some(guard);
                self.take_cmd(cmd)
            },
            TaskEvt::Handled => {
                match self.phase {
                    TaskPhase::Handling => {
                        self.phase = TaskPhase::Timeout;
                        TaskAct::PollTimeout
                    },
                    TaskPhase::Schedule => self.go_established(),
                    _ => self.go_send(),
                }
            },
            TaskEvt::Timeout(Some(time)) => {
                let guard = self.cmd_guard.take().unwrap();
                self.phase = TaskPhase::Schedule;
                TaskAct::Schedule(time, guard)
            },
            TaskEvt::Timeout(None) => self.go_established(),
            TaskEvt::Guard(guard) => {
                self.evt_guard = Some(guard);
                if matches!(self.phase, TaskPhase::Guard) {
                    self.go_established()
                } else {
                    self.go_poll()
                }
            },
            TaskEvt::Established(false) => self.go_h3(),
            TaskEvt::Established(true) => {
                self.connected = true;
                if self.want_h3 {
                    self.phase = TaskPhase::OpenH3;
                    TaskAct::OpenH3
                } else {
                    self.tell_user(TaskPhase::Connected, ConEvt::Connected)
                }
            },
            TaskEvt::H3Opened(opened) => {
                self.h3 = opened;
                self.should_send = self.should_send || opened;
                self.tell_user(TaskPhase::Connected, ConEvt::Connected)
            },
            TaskEvt::Sent(ok) => {
                if matches!(self.phase, TaskPhase::Connected) {
                    self.go_h3()
                } else if ok {
                    self.go_poll()
                } else {
                    self.phase = TaskPhase::Over;
                    TaskAct::End
                }
            },
            TaskEvt::RequestBlocked => self.go_poll(),
            TaskEvt::H3(e) => self.take_h3(e),
            TaskEvt::Body(Got::Done) => self.go_poll(),
            TaskEvt::Dgram(Got::Done) => self.go_poll(),
            TaskEvt::Body(Got::Failed) | TaskEvt::Dgram(Got::Failed) | TaskEvt::Pak(
                Got::Failed,
            ) => {
                self.phase = TaskPhase::Over;
                TaskAct::End
            },
            TaskEvt::Body(Got::Item(data)) => {
                let id: u64 = match self.phase {
                    TaskPhase::Body(id) => id,
                    _ => 0,
                };
                self.take_body(id, data);
                TaskAct::RecvBody(id)
            },
            TaskEvt::Dgram(Got::Item(flow)) => {
                if matches!(self.phase, TaskPhase::Dgram(want) if want == flow) {
                    TaskAct::RecvDgram
                } else {
                    self.phase = TaskPhase::Over;
                    TaskAct::End
                }
            },
            TaskEvt::Pak(Got::Done) => {
                self.phase = TaskPhase::Idle;
                TaskAct::RecvCmd
            },
            TaskEvt::Pak(Got::Item(pak)) => TaskAct::Transmit(pak),
        }
    }
}

/// The law of telling the user: every message that the user is told of carries
/// the number of the stream that it came in on, with the headers that came, and
/// the body that came after them, or an empty one where none follows; the user
/// is told of each message that is complete, and that the connection is
/// established. It takes the guard that the task holds, and only that.
pub proof fn law_user_told<K, C, E, S, T, O>(
    task: TaskState<C, E, S>,
    evt: TaskEvt<K, C, E, S, T, O>,
)
    requires
        task.wf(),
        task.expects(evt),
    ensures
        ({
            let (after, act) = task.next(evt);
            &&& evt matches TaskEvt::H3(H3Event::Headers(id, list, false)) ==> act == TaskAct::<
                K,
                C,
                E,
                T,
                O,
                Note,
            >::Send(
                task.evt_guard->0,
                Note::Http3(
                    MsgState { headers: list@, body: Seq::<Bytes>::empty(), reference: Opaque(id) },
                ),
            )
            &&& evt matches TaskEvt::H3(H3Event::Finished(id)) ==> if task.inbound.contains_key(
                id,
            ) {
                act == TaskAct::<K, C, E, T, O, Note>::Send(
                    task.evt_guard->0,
                    Note::Http3(
                        MsgState {
                            headers: task.inbound[id].headers,
                            body: task.inbound[id].body,
                            reference: Opaque(id),
                        },
                    ),
                )
            } else {
                act is PollH3
            }
            &&& act matches TaskAct::Send(guard, note) ==> {
                &&& task.evt_guard == Some(guard)
                &&& match note {
                    Note::Connected => {
                        ||| evt == TaskEvt::<K, C, E, S, T, O>::Established(true) && !task.want_h3
                        ||| evt is H3Opened
                    },
                    Note::Http3(msg) => {
                        ||| {
                            &&& evt matches TaskEvt::H3(H3Event::Headers(id, list, false))
                            &&& msg.reference == Opaque(id)
                            &&& msg.headers == list@
                            &&& msg.body.len() == 0
                        }
                        ||| {
                            &&& evt matches TaskEvt::H3(H3Event::Finished(id))
                            &&& msg.reference == Opaque(id)
                            &&& task.inbound.contains_key(id)
                            &&& msg.headers == task.inbound[id].headers
                            &&& msg.body == task.inbound[id].body
                        }
                    },
                }
            }
            &&& evt is H3Opened || (evt == TaskEvt::<K, C, E, S, T, O>::Established(true)
                && !task.want_h3) ==> (act matches TaskAct::Send(_, Note::Connected))
            &&& after.evt_guard == if act is Send {
                None
            } else {
                match evt {
                    TaskEvt::Guard(guard) => Some(guard),
                    _ => task.evt_guard,
                }
            }
        }),
{
}

/// The law of messages on their way in: headers that a body follows begin the
/// message of their stream with an empty body; a part of a body comes last in
/// the message of the stream that is read; a message that is complete or reset
/// leaves. No step touches the message of any other stream, and nothing else
/// touches any.
pub proof fn law_inbound<K, C, E, S, T, O>(
    task: TaskState<C, E, S>,
    evt: TaskEvt<K, C, E, S, T, O>,
)
    requires
        task.wf(),
        task.expects(evt),
    ensures
        ({
            let (after, act) = task.next(evt);
            let was = task.inbound;
            let now = after.inbound;
            match evt {
                TaskEvt::H3(H3Event::Headers(id, list, true)) => {
                    &&& now.contains_key(id)
                    &&& now[id].headers == list@
                    &&& now[id].body.len() == 0
                    &&& now.remove(id) == was.remove(id)
                },
                TaskEvt::Body(Got::Item(data)) => {
                    &&& task.phase matches TaskPhase::Body(id)
                    &&& now.dom() == was.dom()
                    &&& now.remove(id) == was.remove(id)
                    &&& was.contains_key(id) ==> {
                        &&& now[id].headers == was[id].headers
                        &&& now[id].body == was[id].body.push(data)
                    }
                },
                TaskEvt::H3(H3Event::Finished(id)) => now == was.remove(id),
                TaskEvt::H3(H3Event::Reset(id)) => now == was.remove(id),
                _ => now == was,
            }
        }),
{
    let was = task.inbound;
    let now = task.next(evt).0.inbound;
    match evt {
        TaskEvt::H3(H3Event::Headers(id, _, true)) => {
            assert(now.remove(id) =~= was.remove(id));
        },
        TaskEvt::H3(H3Event::Finished(id)) => {
            assert(now =~= was.remove(id));
        },
        TaskEvt::Body(Got::Item(_)) => {
            let id = task.phase->Body_0;
            assert(now.dom() =~= was.dom());
            assert(now.remove(id) =~= was.remove(id));
        },
        _ => {},
    }
}

/// The law of messages on their way out: a message under the number of a stream
/// goes out on that stream, whole, and is answered to by who sent it; any other
/// is a request and waits behind those that came before it. Nothing else
/// touches what is on its way out.
pub proof fn law_outbound<K, C, E, S, T, O>(
    task: TaskState<C, E, S>,
    evt: TaskEvt<K, C, E, S, T, O>,
)
    requires
        task.wf(),
        task.expects(evt),
    ensures
        ({
            let (after, act) = task.next(evt);
            let waited = task.outbound_wait;
            let (was, now) = (task.outbound, after.outbound);
            match evt {
                TaskEvt::Cmd(Some((ConCmd::Http3(msg, rsp), _))) => if msg.reference
                    == Opaque(u64::MAX) {
                    &&& now == was
                    &&& after.outbound_wait.len() == waited.len() + 1
                    &&& after.outbound_wait.drop_last() == waited
                    &&& after.outbound_wait.last().reference is None
                    &&& after.outbound_wait.last().headers == msg.headers
                    &&& after.outbound_wait.last().body == msg.body
                    &&& after.outbound_wait.last().rsp == rsp
                } else {
                    let id = msg.reference.0;
                    &&& after.outbound_wait == waited
                    &&& now.contains_key(id)
                    &&& now[id].reference == Some(id)
                    &&& now[id].headers == msg.headers
                    &&& now[id].body == msg.body
                    &&& now[id].rsp == rsp
                    &&& now.remove(id) == was.remove(id)
                },
                _ => now == was && after.outbound_wait == waited,
            }
        }),
{
    if let TaskEvt::Cmd(Some((ConCmd::Http3(msg, rsp), _))) = evt {
        let after = task.next(evt).0;
        if msg.reference == Opaque(u64::MAX) {
            assert(after.outbound_wait.drop_last() =~= task.outbound_wait);
        } else {
            assert(after.outbound.remove(msg.reference.0) =~= task.outbound.remove(
                msg.reference.0,
            ));
        }
    }
}

/// The law of answers: a message that the user sends under the number of one
/// that the user was told of goes out on the stream that this one came in on.
pub proof fn law_answer<K, C, E, S, T, O>(
    task: TaskState<C, E, S>,
    evt: TaskEvt<K, C, E, S, T, O>,
    told: MsgState,
    later: TaskState<C, E, S>,
    msg: Http3Msg,
    rsp: S,
    guard: C,
)
    requires
        task.wf(),
        task.expects(evt),
        task.next(evt).1 matches TaskAct::Send(_, Note::Http3(m)) && m == told,
        told.reference != Opaque(u64::MAX),
        later.wf(),
        later.phase is Idle,
        msg.reference == told.reference,
    ensures
        ({
            let sent = later.next::<K, T, O>(
                TaskEvt::Cmd(Some((ConCmd::Http3(msg, rsp), guard))),
            ).0.outbound;
            &&& evt matches TaskEvt::H3(H3Event::Headers(id, _, _)) ==> {
                &&& sent.contains_key(id)
                &&& sent[id].headers == msg.headers
                &&& sent[id].body == msg.body
                &&& sent[id].rsp == rsp
            }
            &&& evt matches TaskEvt::H3(H3Event::Finished(id)) ==> {
                &&& sent.contains_key(id)
                &&& sent[id].headers == msg.headers
                &&& sent[id].body == msg.body
                &&& sent[id].rsp == rsp
            }
            &&& evt is H3
        }),
{
}

/// The law of commands and packets: a packet that came is handed to the
/// connection, a timeout that is over is told to it, and then the connection is
/// asked for its timeout, which is scheduled for the time that it said, under
/// the guard of the command; a packet to send is sent as it is. Commands are
/// waited for again only where nothing is to be sent, or the connection said
/// that there is nothing more.
pub proof fn law_task_commands<K, C, E, S, T, O>(
    task: TaskState<C, E, S>,
    evt: TaskEvt<K, C, E, S, T, O>,
)
    requires
        task.wf(),
        task.expects(evt),
    ensures
        ({
            let (after, act) = task.next(evt);
            &&& evt matches TaskEvt::Cmd(Some((cmd, guard))) ==> {
                &&& match cmd {
                    ConCmd::InPak(pak) => act == TaskAct::<K, C, E, T, O, Note>::RecvPak(pak),
                    ConCmd::Timeout => act is OnTimeout,
                    _ => act is PollTimeout,
                }
                &&& after.cmd_guard == Some(guard)
                &&& after.should_send <==> !(cmd is Http3)
            }
            &&& act is RecvPak || act is OnTimeout ==> evt is Cmd
            &&& evt is Handled && (task.phase is Handling) ==> act is PollTimeout
            &&& act is PollTimeout ==> evt is Cmd || evt is Handled
            &&& evt matches TaskEvt::Timeout(Some(time)) ==> {
                &&& task.cmd_guard matches Some(guard)
                &&& act == TaskAct::<K, C, E, T, O, Note>::Schedule(time, guard)
            }
            &&& act is Schedule ==> evt is Timeout
            &&& evt matches TaskEvt::Pak(Got::Item(pak)) ==> act == TaskAct::<
                K,
                C,
                E,
                T,
                O,
                Note,
            >::Transmit(pak) && after == task
            &&& act is Transmit ==> evt is Pak
            &&& task.phase is Send && evt is Handled && task.should_send ==> act is SendPak
            &&& act is SendPak ==> after.should_send && after.phase is Send
            &&& act is RecvCmd ==> after.phase is Idle && (!after.should_send || evt == TaskEvt::<
                K,
                C,
                E,
                S,
                T,
                O,
            >::Pak(Got::Done))
            &&& !(evt is Cmd) ==> {
                &&& after.cmd_guard == if act is Schedule {
                    None
                } else {
                    task.cmd_guard
                }
                &&& after.should_send <==> task.should_send || evt == TaskEvt::<
                    K,
                    C,
                    E,
                    S,
                    T,
                    O,
                >::H3Opened(true)
            }
            &&& evt is Pak && (evt != TaskEvt::<K, C, E, S, T, O>::Pak(Got::Failed)) ==> act is RecvCmd
                || act is Transmit
        }),
{
}

/// The law of the end of a task: it ends where no command will come, http3 or
/// the connection failed, the other side goes away, a datagram is of another
/// flow than it was said to be, or the user takes no message; and nowhere else.
pub proof fn law_task_end<K, C, E, S, T, O>(
    task: TaskState<C, E, S>,
    evt: TaskEvt<K, C, E, S, T, O>,
)
    requires
        task.wf(),
        task.expects(evt),
    ensures
        task.next(evt).1 is End <==> match evt {
            TaskEvt::Cmd(cmd) => cmd is None,
            TaskEvt::H3(e) => e is Failed || e is GoAway,
            TaskEvt::Body(got) => got is Failed,
            TaskEvt::Pak(got) => got is Failed,
            TaskEvt::Dgram(Got::Failed) => true,
            TaskEvt::Dgram(Got::Item(flow)) => task.phase != TaskPhase::Dgram(flow),
            TaskEvt::Sent(told) => !told && task.phase is Message,
            _ => false,
        },
        task.next(evt).0.phase is Over <==> task.next(evt).1 is End,
{
}

/// The law of the course of a task: once a command is dealt with and the user
/// can be told, the connection is asked whether it is established until it is;
/// http3 is set up once, where it is wanted; with http3 the requests that wait
/// go out first, in order, and each says whether its headers are all of it;
/// then what happened is asked for until there is no more, a body or the
/// datagrams of a flow are read to their end, and then packets are sent where
/// there may be some.
pub proof fn law_task_course<K, C, E, S, T, O>(
    task: TaskState<C, E, S>,
    evt: TaskEvt<K, C, E, S, T, O>,
)
    requires
        task.wf(),
        task.expects(evt),
    ensures
        ({
            let (after, act) = task.next(evt);
            let dealt = evt == TaskEvt::<K, C, E, S, T, O>::Timeout(None) || task.phase is Schedule
                || task.phase is Guard;
            let more = task.phase is GuardPoll || task.phase is Requests || task.phase is Body
                || task.phase is Dgram || (task.phase is Message || task.phase is Poll) && !(
            evt == TaskEvt::<K, C, E, S, T, O>::H3(H3Event::Done));
            &&& after.want_h3 == task.want_h3
            &&& after.connected <==> task.connected || evt == TaskEvt::<
                K,
                C,
                E,
                S,
                T,
                O,
            >::Established(true)
            &&& after.h3 <==> if evt is H3Opened {
                evt == TaskEvt::<K, C, E, S, T, O>::H3Opened(true)
            } else {
                task.h3
            }
            &&& act is OpenH3 <==> task.want_h3 && evt == TaskEvt::<
                K,
                C,
                E,
                S,
                T,
                O,
            >::Established(true)
            &&& dealt && after.evt_guard is None ==> act is AcquireEvt && after.phase is Guard
            &&& dealt && after.evt_guard is Some && !after.connected ==> act is CheckEstablished
            &&& act is CheckEstablished ==> dealt
            &&& dealt && after.evt_guard is Some && after.connected || task.phase is Connected || evt
                == TaskEvt::<K, C, E, S, T, O>::Established(false) ==> if after.h3 {
                if after.outbound_wait.len() > 0 {
                    act == TaskAct::<K, C, E, T, O, Note>::SendRequest(
                        after.outbound_wait[0].body@.len() == 0,
                    )
                } else if after.evt_guard is Some {
                    act is PollH3
                } else {
                    act is AcquireEvt && after.phase is GuardPoll
                }
            } else {
                act is SendPak || act is RecvCmd
            }
            &&& act is SendRequest ==> after.h3 && after.outbound_wait.len() > 0
            &&& evt matches TaskEvt::H3(H3Event::Data(id)) ==> act == TaskAct::<
                K,
                C,
                E,
                T,
                O,
                Note,
            >::RecvBody(id) && after.phase == TaskPhase::Body(id)
            &&& evt matches TaskEvt::Body(Got::Item(_)) ==> {
                &&& task.phase matches TaskPhase::Body(id)
                &&& act == TaskAct::<K, C, E, T, O, Note>::RecvBody(id)
                &&& after.phase == task.phase
            }
            &&& act is RecvBody ==> evt is Body || evt is H3
            &&& evt matches TaskEvt::H3(H3Event::Datagram(flow)) ==> act is RecvDgram && after.phase
                == TaskPhase::Dgram(flow)
            &&& evt matches TaskEvt::Dgram(Got::Item(flow)) ==> task.phase == TaskPhase::Dgram(flow)
                ==> act is RecvDgram && after.phase == task.phase
            &&& evt matches TaskEvt::Dgram(Got::Done) ==> act is PollH3
            &&& evt matches TaskEvt::Body(Got::Done) ==> act is PollH3
            &&& evt == TaskEvt::<K, C, E, S, T, O>::H3(H3Event::Done) ==> act is SendPak || act is RecvCmd
            &&& evt matches TaskEvt::H3(H3Event::Headers(_, _, true)) ==> act is PollH3
            &&& evt matches TaskEvt::H3(H3Event::Reset(_)) ==> act is PollH3
            &&& task.phase is GuardPoll ==> act is PollH3
            &&& task.phase is Message && !(act is End) ==> if task.evt_guard is Some {
                act is PollH3
            } else {
                act is AcquireEvt && after.phase is GuardPoll
            }
            &&& task.phase is Requests ==> if task.evt_guard is Some {
                act is PollH3
            } else {
                act is AcquireEvt && after.phase is GuardPoll
            }
            &&& more ==> !(act is SendPak || act is RecvCmd)
        }),
{
}

} // verus!
