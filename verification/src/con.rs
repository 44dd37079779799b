//! Http3 messages over a connection
use bytes::Bytes;
use vstd::prelude::*;

verus! {

/// Opaque reference type
#[derive(Debug, Clone, Copy, PartialEq, Eq, PartialOrd, Ord, Hash, Structural)]
pub struct Opaque(pub u64);

impl Default for Opaque {
    /// The reference of a message that answers nothing
    fn default() -> (r: Self)
        ensures
            r == Opaque(u64::MAX),
    {
        Opaque(u64::MAX)
    }
}

impl Opaque {
    /// Whether a message with this reference is a request: it answers nothing.
    pub open spec fn spec_is_request(self) -> bool {
        self.0 == u64::MAX
    }

    /// Whether a message with this reference is a request: it answers nothing.
    pub fn is_request(&self) -> (r: bool)
        ensures
            r == self.spec_is_request(),
    {
        self.0 == u64::MAX
    }
}

/// A header: its name and its value
pub type Header = (Vec<u8>, Vec<u8>);

/// An outgoing http3 request
pub struct Http3MsgBuilder {
    /// the headers so far
    pub headers: Vec<Header>,
    /// the body so far
    pub body: Vec<Bytes>,
    /// what the message answers
    pub reference: Opaque,
}

impl Http3MsgBuilder {
    /// A request without headers or body.
    pub fn new() -> (r: Self)
        ensures
            r.headers@ == Seq::<Header>::empty(),
            r.body@ == Seq::<Bytes>::empty(),
            r.reference.spec_is_request(),
    {
        Http3MsgBuilder { headers: Vec::new(), body: Vec::new(), reference: Opaque::default() }
    }

    /// Finalize this Http3Msg
    pub fn build(self) -> (r: Http3Msg)
        ensures
            r.headers == self.headers,
            r.body == self.body,
            r.reference == self.reference,
    {
        Http3Msg { headers: self.headers, body: self.body, reference: self.reference }
    }

    /// Add a header to the outbound http3 item
    pub fn add_header(&mut self, name: Vec<u8>, value: Vec<u8>)
        ensures
            final(self).headers@ == old(self).headers@.push((name, value)),
            final(self).body == old(self).body,
            final(self).reference == old(self).reference,
    {
        self.headers.push((name, value));
    }

    /// Append body data to the outbound http3 item
    pub fn append_body(&mut self, body: Bytes)
        ensures
            final(self).headers == old(self).headers,
            final(self).body@ == old(self).body@.push(body),
            final(self).reference == old(self).reference,
    {
        self.body.push(body);
    }

    /// If this http3 item is a response, set the opaque reference
    pub fn set_response(&mut self, opaque: Opaque)
        ensures
            final(self).headers == old(self).headers,
            final(self).body == old(self).body,
            final(self).reference == opaque,
    {
        self.reference = opaque;
    }
}

impl Default for Http3MsgBuilder {
    fn default() -> (r: Self)
        ensures
            r.headers@ == Seq::<Header>::empty(),
            r.body@ == Seq::<Bytes>::empty(),
            r.reference.spec_is_request(),
    {
        Http3MsgBuilder::new()
    }
}

/// An incoming http3 request or response
pub struct Http3Msg {
    /// Headers associated with this message
    pub headers: Vec<Header>,
    /// Body (if any) associated with this message
    pub body: Vec<Bytes>,
    /// Opaque reference allowing request / response matching
    pub reference: Opaque,
}

/// An `Http3Msg` as mathematics.
pub struct MsgState {
    /// headers
    pub headers: Seq<Header>,
    /// body
    pub body: Seq<Bytes>,
    /// what it answers
    pub reference: Opaque,
}

impl View for Http3Msg {
    type V = MsgState;

    open spec fn view(&self) -> MsgState {
        MsgState { headers: self.headers@, body: self.body@, reference: self.reference }
    }
}

/// Absquic connection events
pub enum ConEvt {
    /// The connection has been established
    Connected,
    /// An incoming http3 request or response
    Http3(Http3Msg),
}

/// The law of references: a message answers nothing exactly where its reference
/// is the one that a builder begins with; any other is the number of what it
/// answers.
pub proof fn law_reference(reference: Opaque, request: bool)
    requires
        call_ensures(Opaque::is_request, (&reference,), request),
    ensures
        request <==> reference.0 == u64::MAX,
        forall|builder: Http3MsgBuilder| #[trigger]
            call_ensures(Http3MsgBuilder::new, (), builder) ==> builder.reference == Opaque(
                u64::MAX,
            ),
{
}

/// The law of building: what is built holds what was added, headers and parts of
/// the body each in the order in which they were added, and answers what was set
/// last; what one call adds no other touches.
pub proof fn law_builder()
    ensures
        forall|builder: Http3MsgBuilder| #[trigger]
            call_ensures(Http3MsgBuilder::new, (), builder) ==> builder.headers@.len() == 0
                && builder.body@.len() == 0,
        forall|a: &mut Http3MsgBuilder, name: Vec<u8>, value: Vec<u8>| #[trigger]
            call_ensures(Http3MsgBuilder::add_header, (a, name, value), ()) ==> {
                &&& final(a).headers@.drop_last() == a.headers@
                &&& final(a).headers@.len() == a.headers@.len() + 1
                &&& final(a).headers@.last().0 == name
                &&& final(a).headers@.last().1 == value
                &&& final(a).body@ == a.body@
                &&& final(a).reference == a.reference
            },
        forall|a: &mut Http3MsgBuilder, part: Bytes| #[trigger]
            call_ensures(Http3MsgBuilder::append_body, (a, part), ()) ==> {
                &&& final(a).body@.drop_last() == a.body@
                &&& final(a).body@.len() == a.body@.len() + 1
                &&& final(a).body@.last() == part
                &&& final(a).headers@ == a.headers@
                &&& final(a).reference == a.reference
            },
        forall|a: &mut Http3MsgBuilder, reference: Opaque| #[trigger]
            call_ensures(Http3MsgBuilder::set_response, (a, reference), ()) ==> {
                &&& final(a).reference == reference
                &&& final(a).headers@ == a.headers@
                &&& final(a).body@ == a.body@
            },
        forall|builder: Http3MsgBuilder, msg: Http3Msg| #[trigger]
            call_ensures(Http3MsgBuilder::build, (builder,), msg) ==> {
                &&& msg@.headers == builder.headers@
                &&& msg@.body == builder.body@
                &&& msg@.reference == builder.reference
            },
{
    assert forall|a: &mut Http3MsgBuilder, name: Vec<u8>, value: Vec<u8>| #[trigger]
        call_ensures(Http3MsgBuilder::add_header, (a, name, value), ()) implies final(a).headers@.drop_last() == a.headers@ by {
        assert(final(a).headers@.drop_last() =~= a.headers@);
    }
    assert forall|a: &mut Http3MsgBuilder, part: Bytes| #[trigger]
        call_ensures(Http3MsgBuilder::append_body, (a, part), ()) implies final(a).body@.drop_last() == a.body@ by {
        assert(final(a).body@.drop_last() =~= a.body@);
    }
}

} // verus!
