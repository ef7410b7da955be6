//! The decisions of the msgpack-RPC runtime that generated code talks
//! through: numbering requests, remembering those in flight, answering a
//! request, and reading the answer to a call.
use crate::lang::{debug_text, quoted};
use std::collections::HashMap;
use vstd::prelude::*;

verus! {

broadcast use vstd::std_specs::hash::group_hash_axioms;

/// A message of the protocol, with parameters `P`, notification
/// parameters `NP` and results `R`.
#[derive(Debug)]
pub enum Message<P, NP, R> {
    Request { id: u32, params: P },
    Response { id: u32, error: Option<String>, results: Option<R> },
    Notification { params: NP },
}

impl<P, NP, R> Message<P, NP, R> {
    pub fn request(id: u32, params: P) -> (m: Message<P, NP, R>)
        ensures
            m == (Message::<P, NP, R>::Request { id, params }),
    {
        Message::Request { id, params }
    }

    pub fn notification(params: NP) -> (m: Message<P, NP, R>)
        ensures
            m == (Message::<P, NP, R>::Notification { params }),
    {
        Message::Notification { params }
    }

    pub fn response(id: u32, error: Option<String>, results: Option<R>) -> (m: Message<P, NP, R>)
        ensures
            m == (Message::<P, NP, R>::Response { id, error, results }),
    {
        Message::Response { id, error, results }
    }
}

/// Why a call did not give results.
#[derive(Debug)]
pub enum Error {
    /// The answer held results of another method.
    WrongResults,
    /// The answer held neither results nor an error.
    MissingResults,
    /// The answer was not a response.
    WrongMessageType,
    /// The peer answered with this error.
    RemoteError(String),
    /// The call could not be sent or answered; the transport said this.
    TransportError(String),
    /// A task could not be started; this is the executor's error as its
    /// own `{:#?}` writes it.
    SpawnError(String),
}

/// A request sent and not answered yet: its method, and where to hand the
/// answer.
pub struct InFlightRequest<T> {
    pub method: &'static str,
    pub tx: T,
}

/// Request numbering, and the requests in flight by number.
pub struct Queue<T> {
    id: u32,
    in_flight_requests: HashMap<u32, InFlightRequest<T>>,
}

impl<T> Queue<T> {
    /// The number the next request gets.
    pub closed spec fn spec_id(&self) -> u32 {
        self.id
    }

    /// The requests in flight, by number.
    pub closed spec fn requests(&self) -> Map<u32, InFlightRequest<T>> {
        self.in_flight_requests@
    }

    /// Numbering from 0, nothing in flight.
    pub fn new() -> (q: Queue<T>)
        ensures
            q.spec_id() == 0,
            q.requests() == Map::<u32, InFlightRequest<T>>::empty(),
    {
        Queue { id: 0, in_flight_requests: HashMap::new() }
    }

    /// Hands out the next request number.
    pub fn next_id(&mut self) -> (r: u32)
        requires
            old(self).spec_id() < u32::MAX,
        ensures
            r == old(self).spec_id(),
            final(self).spec_id() == old(self).spec_id() + 1,
            final(self).requests() == old(self).requests(),
    {
        let res = self.id;
        self.id = self.id + 1;
        res
    }

    /// Remembers a request as in flight.
    pub fn insert_in_flight(&mut self, id: u32, request: InFlightRequest<T>)
        ensures
            final(self).requests() == old(self).requests().insert(id, request),
            final(self).spec_id() == old(self).spec_id(),
    {
        self.in_flight_requests.insert(id, request);
    }

    /// Forgets the request numbered `id`, handing it back if it was in flight.
    pub fn take_in_flight(&mut self, id: u32) -> (r: Option<InFlightRequest<T>>)
        ensures
            final(self).requests() == old(self).requests().remove(id),
            final(self).spec_id() == old(self).spec_id(),
            match r {
                Some(req) => old(self).requests().contains_key(id) && req == old(self).requests()[id],
                None => !old(self).requests().contains_key(id),
            },
    {
        self.in_flight_requests.remove(&id)
    }

    /// The method of the request numbered `id`, if it is in flight.
    pub fn get_pending(&self, id: u32) -> (r: Option<&'static str>)
        ensures
            r == (if self.requests().contains_key(id) {
                Some(self.requests()[id].method)
            } else {
                None::<&'static str>
            }),
    {
        match self.in_flight_requests.get(&id) {
            Some(req) => Some(req.method),
            None => None,
        }
    }
}

/// What a call gives: the outcome of its transport, then of the answer.
/// An error in the answer wins over results; results go through
/// `downgrade`, which keeps those of the method that was called.
pub fn call_outcome<P, NP, R, RR, D: Fn(R) -> Option<RR>>(
    reply: Result<Message<P, NP, R>, String>,
    downgrade: D,
) -> (r: Result<RR, Error>)
    requires
        forall|x: R| call_requires(downgrade, (x,)),
    ensures
        match reply {
            Err(t) => r == Err::<RR, Error>(Error::TransportError(t)),
            Ok(Message::Response { error: Some(e), .. }) => r == Err::<RR, Error>(
                Error::RemoteError(e),
            ),
            Ok(Message::Response { error: None, results: Some(x), .. }) => match r {
                Ok(v) => call_ensures(downgrade, (x,), Some(v)),
                Err(e) => e == Error::WrongResults && call_ensures(downgrade, (x,), None::<RR>),
            },
            Ok(Message::Response { error: None, results: None, .. }) => r == Err::<RR, Error>(
                Error::MissingResults,
            ),
            Ok(_) => r == Err::<RR, Error>(Error::WrongMessageType),
        },
{
    match reply {
        Ok(m) => match m {
            Message::Response { results, error, .. } => {
                if let Some(error) = error {
                    Err(Error::RemoteError(error))
                } else if let Some(results) = results {
                    match downgrade(results) {
                        Some(v) => Ok(v),
                        None => Err(Error::WrongResults),
                    }
                } else {
                    Err(Error::MissingResults)
                }
            },
            _ => Err(Error::WrongMessageType),
        },
        Err(msg) => Err(Error::TransportError(msg)),
    }
}

/// The `{:#?}` text of a variant that holds a string.
pub open spec fn pretty_tuple(name: Seq<char>, s: Seq<char>) -> Seq<char> {
    name + "(\n    "@ + debug_text(s) + ",\n)"@
}

/// `t` with four blanks before each of its lines: before its first
/// character and before each character that follows a line end.
pub open spec fn padded(t: Seq<char>) -> Seq<char>
    decreases t.len(),
{
    if t.len() == 0 {
        Seq::empty()
    } else {
        padded(t.drop_last()) + (if t.len() == 1 || t[t.len() - 2] == '\n' {
            "    "@
        } else {
            Seq::empty()
        }) + seq![t.last()]
    }
}

fn padded_exec(t: &str) -> (r: String)
    ensures
        r@ == padded(t@),
{
    let n = t.unicode_len();
    let mut r = String::new();
    let mut i: usize = 0;
    let mut at_line_start = true;
    proof {
        reveal_strlit("    ");
    }
    while i < n
        invariant
            i <= n,
            n == t@.len(),
            r@ == padded(t@.subrange(0, i as int)),
            at_line_start == (i == 0 || t@[i - 1] == '\n'),
        decreases n - i,
    {
        let c = t.get_char(i);
        let ghost sub = t@.subrange(0, i + 1);
        assert(sub.drop_last() =~= t@.subrange(0, i as int));
        if at_line_start {
            r.append("    ");
        }
        crate::output::push_char(&mut r, c);
        assert(r@ =~= padded(sub));
        at_line_start = c == '\n';
        i = i + 1;
    }
    assert(t@.subrange(0, n as int) =~= t@);
    r
}

/// The `{:#?}` text of an error: the variant's name, and what it holds on
/// lines of their own: a string quoted, the executor's error as its own
/// text gives it, each line four blanks in.
pub open spec fn error_text(e: Error) -> Seq<char> {
    match e {
        Error::WrongResults => "WrongResults"@,
        Error::MissingResults => "MissingResults"@,
        Error::WrongMessageType => "WrongMessageType"@,
        Error::RemoteError(s) => pretty_tuple("RemoteError"@, s@),
        Error::TransportError(s) => pretty_tuple("TransportError"@, s@),
        Error::SpawnError(s) => "SpawnError(\n"@ + padded(s@) + ",\n)"@,
    }
}

fn pretty_tuple_exec(name: &str, s: &str) -> (r: String)
    ensures
        r@ == pretty_tuple(name@, s@),
{
    let mut r = String::from_str(name);
    r.append("(\n    ");
    let q = quoted(s);
    r.append(q.as_str());
    r.append(",\n)");
    r
}

impl Error {
    /// The error as `{:#?}` writes it.
    pub fn pretty(&self) -> (r: String)
        ensures
            r@ == error_text(*self),
    {
        match self {
            Error::WrongResults => String::from_str("WrongResults"),
            Error::MissingResults => String::from_str("MissingResults"),
            Error::WrongMessageType => String::from_str("WrongMessageType"),
            Error::RemoteError(s) => pretty_tuple_exec("RemoteError", s.as_str()),
            Error::TransportError(s) => pretty_tuple_exec("TransportError", s.as_str()),
            Error::SpawnError(s) => {
                let mut r = String::from_str("SpawnError(\n");
                let p = padded_exec(s.as_str());
                r.append(p.as_str());
                r.append(",\n)");
                r
            },
        }
    }
}

/// The response to the request numbered `id`, given what the handler gave:
/// its results, or its error described as an internal error.
pub fn response_to<P, NP, R>(id: u32, outcome: Result<R, Error>) -> (m: Message<P, NP, R>)
    ensures
        match outcome {
            Ok(results) => m == (Message::<P, NP, R>::Response {
                id,
                results: Some(results),
                error: None,
            }),
            Err(e) => m matches Message::Response { id: mid, results: None, error: Some(text) }
                && mid == id && text@ == "internal error: "@ + error_text(e),
        },
{
    match outcome {
        Ok(results) => Message::Response { id, results: Some(results), error: None },
        Err(error) => {
            let mut text = String::from_str("internal error: ");
            let d = error.pretty();
            text.append(d.as_str());
            Message::Response { id, results: None, error: Some(text) }
        },
    }
}

/// What to do with a message that came in.
pub enum Inbound<P, R, T> {
    /// Run the handler on these parameters, then send `response_to(id, ..)`.
    Handle { id: u32, params: P },
    /// Hand this response to whoever waits for it.
    Deliver { request: InFlightRequest<T>, id: u32, error: Option<String>, results: Option<R> },
    /// A response that no request in flight waits for: nothing to do.
    Drop,
}

/// Decides what an incoming message asks for; a response takes its request
/// out of the queue. Notifications are not handled.
pub fn on_message<P, NP, R, T>(queue: &mut Queue<T>, inbound: Message<P, NP, R>) -> (r: Inbound<P, R, T>)
    requires
        !(inbound is Notification),
    ensures
        match inbound {
            Message::Request { id, params } => r == (Inbound::<P, R, T>::Handle { id, params })
                && *final(queue) == *old(queue),
            Message::Response { id, error, results } => {
                &&& final(queue).requests() == old(queue).requests().remove(id)
                &&& final(queue).spec_id() == old(queue).spec_id()
                &&& if old(queue).requests().contains_key(id) {
                    r == (Inbound::<P, R, T>::Deliver {
                        request: old(queue).requests()[id],
                        id,
                        error,
                        results,
                    })
                } else {
                    r is Drop
                }
            },
            Message::Notification { .. } => false,
        },
{
    match inbound {
        Message::Request { id, params } => Inbound::Handle { id, params },
        Message::Response { id, error, results } => match queue.take_in_flight(id) {
            Some(request) => Inbound::Deliver { request, id, error, results },
            None => Inbound::Drop,
        },
        Message::Notification { .. } => Inbound::Drop,
    }
}

/// One element of a received msgpack-RPC array, as far as the decision
/// on the message depends on it.
#[derive(Debug)]
pub enum Element {
    /// An unsigned integer that fits in 32 bits.
    UInt(u32),
    /// A string.
    Text(String),
    /// Nil.
    Nil,
    /// Anything else: a map, an array, a larger number.
    Other,
}

/// What the leading elements of a message say, before its parameters or
/// results are deserialized by method.
#[derive(Debug)]
pub enum Header {
    /// A request: its number and method; its parameters are the fourth element.
    Request { id: u32, method: String },
    /// A response to a request in flight: its number, its error, and the
    /// method of the request; its results are the fourth element.
    Response { id: u32, error: Option<String>, method: &'static str },
}

/// Why a message was refused.
#[derive(Debug)]
pub enum DecodeError {
    /// The array ended before this element.
    Missing(&'static str),
    /// An element did not have the type its place asks for.
    WrongType,
}

impl DecodeError {
    /// The text a decoding error is reported with.
    pub fn message(&self) -> (r: Option<String>)
        ensures
            match *self {
                DecodeError::Missing(f) => r matches Some(m) && m@ == "invalid msgpack-RPC message: missing "@ + f@,
                DecodeError::WrongType => r is None,
            },
    {
        match self {
            DecodeError::Missing(f) => {
                let mut m = String::from_str("invalid msgpack-RPC message: missing ");
                m.append(f);
                Some(m)
            },
            DecodeError::WrongType => None,
        }
    }
}

pub enum SpecElement {
    UInt(u32),
    Text(Seq<char>),
    Nil,
    Other,
}

pub open spec fn element_view(e: Element) -> SpecElement {
    match e {
        Element::UInt(n) => SpecElement::UInt(n),
        Element::Text(s) => SpecElement::Text(s@),
        Element::Nil => SpecElement::Nil,
        Element::Other => SpecElement::Other,
    }
}

pub open spec fn elements_view(v: Seq<Element>) -> Seq<SpecElement> {
    v.map_values(|e: Element| element_view(e))
}

/// What a message's elements decide: the type (0 for a request, 1 for a
/// response) first, then the number, then the method of a request or the
/// error of a response (nil or a string); a response must answer a request
/// in flight. A missing element is reported by name, in that order.
pub enum SpecHeader {
    Request { id: u32, method: Seq<char> },
    Response { id: u32, error: Option<Seq<char>>, method: Seq<char> },
}

pub open spec fn spec_decode(es: Seq<SpecElement>, pending: Map<u32, Seq<char>>) -> Result<SpecHeader, DecodeError> {
    if es.len() == 0 {
        Err(DecodeError::Missing("type"))
    } else {
        match es[0] {
            SpecElement::UInt(typ) => if es.len() < 2 {
                Err(DecodeError::Missing("id"))
            } else {
                match es[1] {
                    SpecElement::UInt(id) => if typ == 0 {
                        if es.len() < 3 {
                            Err(DecodeError::Missing("method"))
                        } else {
                            match es[2] {
                                SpecElement::Text(m) => if es.len() < 4 {
                                    Err(DecodeError::Missing("params"))
                                } else {
                                    Ok(SpecHeader::Request { id, method: m })
                                },
                                _ => Err(DecodeError::WrongType),
                            }
                        }
                    } else {
                        if es.len() < 3 {
                            Err(DecodeError::Missing("error"))
                        } else {
                            let error = match es[2] {
                                SpecElement::Text(e) => Some(Some(e)),
                                SpecElement::Nil => Some(None),
                                _ => None,
                            };
                            match error {
                                None => Err(DecodeError::WrongType),
                                Some(error) => if !pending.contains_key(id) {
                                    Err(DecodeError::Missing("no such pending request"))
                                } else if es.len() < 4 {
                                    Err(DecodeError::Missing("results"))
                                } else {
                                    Ok(SpecHeader::Response { id, error, method: pending[id] })
                                },
                            }
                        }
                    },
                    _ => Err(DecodeError::WrongType),
                }
            },
            _ => Err(DecodeError::WrongType),
        }
    }
}

/// The type of a message is read first; a number other than 0 (request)
/// or 1 (response) is not handled.
pub open spec fn handled_type(es: Seq<SpecElement>) -> bool {
    es.len() > 0 ==> match es[0] {
        SpecElement::UInt(t) => t <= 1,
        _ => true,
    }
}

pub open spec fn header_view(h: Header) -> SpecHeader {
    match h {
        Header::Request { id, method } => SpecHeader::Request { id, method: method@ },
        Header::Response { id, error, method } => SpecHeader::Response {
            id,
            error: match error {
                Some(e) => Some(e@),
                None => None,
            },
            method: method@,
        },
    }
}

/// The methods of the requests in flight, by number.
pub open spec fn pending_methods<T>(q: Map<u32, InFlightRequest<T>>) -> Map<u32, Seq<char>> {
    Map::new(|id: u32| q.contains_key(id), |id: u32| q[id].method@)
}

/// Decides what a received message is from its leading elements. A type
/// other than a request or a response is not handled.
pub fn decode_header<T>(es: &Vec<Element>, queue: &Queue<T>) -> (r: Result<Header, DecodeError>)
    requires
        handled_type(elements_view(es@)),
    ensures
        match r {
            Ok(h) => spec_decode(elements_view(es@), pending_methods(queue.requests())) == Ok::<SpecHeader, DecodeError>(header_view(h)),
            Err(e) => spec_decode(elements_view(es@), pending_methods(queue.requests())) == Err::<SpecHeader, DecodeError>(e),
        },
{
    let n = es.len();
    if n == 0 {
        return Err(DecodeError::Missing("type"));
    }
    let typ = match &es[0] {
        Element::UInt(t) => *t,
        _ => {
            return Err(DecodeError::WrongType);
        },
    };
    if n < 2 {
        return Err(DecodeError::Missing("id"));
    }
    let id = match &es[1] {
        Element::UInt(i) => *i,
        _ => {
            return Err(DecodeError::WrongType);
        },
    };
    if typ == 0 {
        if n < 3 {
            return Err(DecodeError::Missing("method"));
        }
        let method = match &es[2] {
            Element::Text(m) => m.clone(),
            _ => {
                return Err(DecodeError::WrongType);
            },
        };
        if n < 4 {
            return Err(DecodeError::Missing("params"));
        }
        Ok(Header::Request { id, method })
    } else {
        if n < 3 {
            return Err(DecodeError::Missing("error"));
        }
        let error = match &es[2] {
            Element::Text(e) => Some(e.clone()),
            Element::Nil => None,
            _ => {
                return Err(DecodeError::WrongType);
            },
        };
        let method = match queue.get_pending(id) {
            Some(m) => m,
            None => {
                return Err(DecodeError::Missing("no such pending request"));
            },
        };
        if n < 4 {
            return Err(DecodeError::Missing("results"));
        }
        let h = Header::Response { id, error, method };
        assert(header_view(h) == (SpecHeader::Response { id, error: match error { Some(e) => Some(e@), None => None }, method: method@ }));
        Ok(h)
    }
}

} // verus!
