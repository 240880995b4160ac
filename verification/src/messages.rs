//! The messages of the LSPS protocols.

use vstd::hash_map::StringHashMap;
use vstd::prelude::*;

verus! {

/// The type of the peer message that carries every LSPS message.
pub const LSPS_MESSAGE_TYPE_ID: u16 = 37913;

/// A message as it travels between peers: JSON text.
#[derive(Debug, PartialEq, Eq)]
pub struct RawLSPSMessage {
    pub payload: String,
}

/// The id by which a response names the request that it answers.
#[derive(Debug, PartialEq, Eq)]
pub struct RequestId(pub String);

/// A call of a method of the peer.
#[derive(Debug, PartialEq, Eq)]
pub struct Request {
    pub method: String,
    /// The parameters, as JSON text.
    pub params: String,
}

/// The answer to a call: the result, or the error, as JSON text.
#[derive(Debug, PartialEq, Eq)]
pub enum Response {
    Result(String),
    Error(String),
}

/// A message of the transport protocol LSPS0.
#[derive(Debug, PartialEq, Eq)]
pub enum LSPS0Message {
    Request(RequestId, Request),
    Response(RequestId, Response),
}

/// A message of the channel request protocol LSPS1.
#[derive(Debug, PartialEq, Eq)]
pub enum LSPS1Message {
    Request(RequestId, Request),
    Response(RequestId, Response),
}

/// A message of the just-in-time channel protocol LSPS2.
#[derive(Debug, PartialEq, Eq)]
pub enum LSPS2Message {
    Request(RequestId, Request),
    Response(RequestId, Response),
}

/// A message of one of the protocols.
#[derive(Debug, PartialEq, Eq)]
pub enum LSPSMessage {
    /// The notice that a message could not be understood.
    Invalid,
    LSPS0(LSPS0Message),
    LSPS1(LSPS1Message),
    LSPS2(LSPS2Message),
}

impl LSPSMessage {
    /// The id and the method of a request; nothing for any other message.
    pub open spec fn request_id_and_method(self) -> Option<(Seq<char>, Seq<char>)> {
        match self {
            LSPSMessage::LSPS0(LSPS0Message::Request(id, request)) => Some((id.0@, request.method@)),
            LSPSMessage::LSPS1(LSPS1Message::Request(id, request)) => Some((id.0@, request.method@)),
            LSPSMessage::LSPS2(LSPS2Message::Request(id, request)) => Some((id.0@, request.method@)),
            _ => None,
        }
    }

    /// The id and the method of a request; nothing for any other message.
    pub fn get_request_id_and_method(&self) -> (found: Option<(String, String)>)
        ensures
            match found {
                Some((id, method)) => self.request_id_and_method() == Some((id@, method@)),
                None => self.request_id_and_method() is None,
            },
    {
        match self {
            LSPSMessage::LSPS0(LSPS0Message::Request(id, request)) =>
                Some((id.0.clone(), request.method.clone())),
            LSPSMessage::LSPS1(LSPS1Message::Request(id, request)) =>
                Some((id.0.clone(), request.method.clone())),
            LSPSMessage::LSPS2(LSPS2Message::Request(id, request)) =>
                Some((id.0.clone(), request.method.clone())),
            _ => None,
        }
    }
}

/// The methods of the requests that were sent, by request id. A response does not name the
/// method that it answers; this is where a reader finds it.
pub struct RequestIdMap {
    methods: StringHashMap<String>,
}

impl View for RequestIdMap {
    type V = Map<Seq<char>, Seq<char>>;

    closed spec fn view(&self) -> Map<Seq<char>, Seq<char>> {
        self.methods@.map_values(|method: String| method@)
    }
}

impl RequestIdMap {
    pub fn new() -> (map: RequestIdMap)
        ensures
            map@ == Map::<Seq<char>, Seq<char>>::empty(),
    {
        let map = RequestIdMap { methods: StringHashMap::new() };
        assert(map@ =~= Map::<Seq<char>, Seq<char>>::empty());
        map
    }

    /// Records the method of a request, in place of any earlier one with that id.
    pub fn insert(&mut self, request_id: String, method: String)
        ensures
            final(self)@ == old(self)@.insert(request_id@, method@),
    {
        self.methods.insert(request_id, method);
        assert(self@ =~= old(self)@.insert(request_id@, method@));
    }

    /// The method of the request with the given id.
    pub fn get(&self, request_id: &str) -> (method: Option<&String>)
        ensures
            match method {
                Some(method) => self@.contains_key(request_id@) && method@ == self@[request_id@],
                None => !self@.contains_key(request_id@),
            },
    {
        self.methods.get(request_id)
    }

    /// Forgets the request with the given id, and returns its method.
    pub fn remove(&mut self, request_id: &str) -> (method: Option<String>)
        ensures
            final(self)@ == old(self)@.remove(request_id@),
            match method {
                Some(method) => old(self)@.contains_key(request_id@) && method@ == old(
                    self,
                )@[request_id@],
                None => !old(self)@.contains_key(request_id@),
            },
    {
        let method = match self.methods.get(request_id) {
            Some(method) => Some(method.clone()),
            None => None,
        };
        self.methods.remove(request_id);
        assert(self@ =~= old(self)@.remove(request_id@));
        method
    }
}

} // verus!
