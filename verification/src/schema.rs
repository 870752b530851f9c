//! The records that travel between the client and the service.

use vstd::prelude::*;

verus! {

/// The text that stands for a string field that a message left out.
pub fn default_unknown_string() -> (s: String)
    ensures
        s@ == "unknown"@,
{
    String::from_str("unknown")
}

/// The timestamp of a message that carries none: zero seconds, whose bits in
/// IEEE 754 binary form are all zero.
pub fn default_timestamp() -> (bits: u64)
    ensures
        bits == 0,
{
    0
}

/// The mathematical value of a `RisResponseData`.
pub struct ResponseDataView {
    pub timestamp_bits: u64,
    pub peer: Seq<char>,
    pub peer_asn: Seq<char>,
    pub id: Seq<char>,
    pub host: Seq<char>,
    pub data_type: Seq<char>,
}

/// The data of a message that carries none of its fields.
pub open spec fn default_data_view() -> ResponseDataView {
    ResponseDataView {
        timestamp_bits: 0,
        peer: "unknown"@,
        peer_asn: "unknown"@,
        id: "unknown"@,
        host: "unknown"@,
        data_type: "unknown"@,
    }
}

/// The data portion of a message from the service. The timestamp, seconds
/// since the epoch, is held as the bits of a double-precision number in
/// IEEE 754 binary form.
#[derive(Debug, Clone)]
pub struct RisResponseData {
    timestamp: u64,
    peer: String,
    peer_asn: String,
    id: String,
    host: String,
    data_type: String,
}

impl View for RisResponseData {
    type V = ResponseDataView;

    closed spec fn view(&self) -> ResponseDataView {
        ResponseDataView {
            timestamp_bits: self.timestamp,
            peer: self.peer@,
            peer_asn: self.peer_asn@,
            id: self.id@,
            host: self.host@,
            data_type: self.data_type@,
        }
    }
}

impl Default for RisResponseData {
    fn default() -> (data: RisResponseData)
        ensures
            data@ == default_data_view(),
    {
        RisResponseData {
            timestamp: default_timestamp(),
            peer: default_unknown_string(),
            peer_asn: default_unknown_string(),
            id: default_unknown_string(),
            host: default_unknown_string(),
            data_type: default_unknown_string(),
        }
    }
}

impl RisResponseData {
    /// The data with the given fields.
    pub fn new(
        timestamp_bits: u64,
        peer: String,
        peer_asn: String,
        id: String,
        host: String,
        data_type: String,
    ) -> (data: RisResponseData)
        ensures
            data@ == (ResponseDataView {
                timestamp_bits,
                peer: peer@,
                peer_asn: peer_asn@,
                id: id@,
                host: host@,
                data_type: data_type@,
            }),
    {
        RisResponseData { timestamp: timestamp_bits, peer, peer_asn, id, host, data_type }
    }

    /// The bits of the timestamp.
    pub fn timestamp_bits(&self) -> (bits: u64)
        ensures
            bits == self@.timestamp_bits,
    {
        self.timestamp
    }

    /// The address of the peer that the message came from.
    pub fn peer(&self) -> (s: &String)
        ensures
            s@ == self@.peer,
    {
        &self.peer
    }

    /// The AS number of the peer, as text.
    pub fn peer_asn(&self) -> (s: &String)
        ensures
            s@ == self@.peer_asn,
    {
        &self.peer_asn
    }

    /// The identifier of the message.
    pub fn id(&self) -> (s: &String)
        ensures
            s@ == self@.id,
    {
        &self.id
    }

    /// The collector that saw the message.
    pub fn host(&self) -> (s: &String)
        ensures
            s@ == self@.host,
    {
        &self.host
    }

    /// The kind of BGP message.
    pub fn data_type(&self) -> (s: &String)
        ensures
            s@ == self@.data_type,
    {
        &self.data_type
    }
}

/// The mathematical value of a `RisResponse`.
pub struct ResponseView {
    pub message_type: Seq<char>,
    pub data: ResponseDataView,
}

/// One message from the service.
#[derive(Debug, Clone)]
pub struct RisResponse {
    message_type: String,
    data: RisResponseData,
}

impl View for RisResponse {
    type V = ResponseView;

    closed spec fn view(&self) -> ResponseView {
        ResponseView { message_type: self.message_type@, data: self.data@ }
    }
}

impl RisResponse {
    /// The message of the given kind with the given data.
    pub fn new(message_type: String, data: RisResponseData) -> (response: RisResponse)
        ensures
            response@ == (ResponseView { message_type: message_type@, data: data@ }),
    {
        RisResponse { message_type, data }
    }

    /// The kind of the message.
    pub fn message_type(&self) -> (s: &String)
        ensures
            s@ == self@.message_type,
    {
        &self.message_type
    }

    /// The data of the message.
    pub fn data(&self) -> (d: &RisResponseData)
        ensures
            d@ == self@.data,
    {
        &self.data
    }
}

/// The mathematical value of a `RisRequestData`.
pub struct RequestDataView {
    pub host: Option<Seq<char>>,
    pub data_type: Option<Seq<char>>,
    pub require: Option<Seq<char>>,
    pub path: Option<Seq<u32>>,
}

/// The view of an optional string.
pub open spec fn text_view(s: Option<String>) -> Option<Seq<char>> {
    match s {
        Some(t) => Some(t@),
        None => None,
    }
}

/// The view of an optional AS path.
pub open spec fn path_view(p: Option<Vec<u32>>) -> Option<Seq<u32>> {
    match p {
        Some(v) => Some(v@),
        None => None,
    }
}

/// The filters of a subscription. A field that is `None` puts no constraint
/// on its dimension.
#[derive(Debug, Clone)]
pub struct RisRequestData {
    host: Option<String>,
    data_type: Option<String>,
    require: Option<String>,
    path: Option<Vec<u32>>,
}

impl View for RisRequestData {
    type V = RequestDataView;

    closed spec fn view(&self) -> RequestDataView {
        RequestDataView {
            host: text_view(self.host),
            data_type: text_view(self.data_type),
            require: text_view(self.require),
            path: path_view(self.path),
        }
    }
}

impl RisRequestData {
    /// The filters as given, each passed through unchanged.
    pub fn new(
        host: Option<String>,
        data_type: Option<String>,
        require: Option<String>,
        path: Option<Vec<u32>>,
    ) -> (data: RisRequestData)
        ensures
            data@ == (RequestDataView {
                host: text_view(host),
                data_type: text_view(data_type),
                require: text_view(require),
                path: path_view(path),
            }),
    {
        RisRequestData { host, data_type, require, path }
    }

    /// The collector to hear from, if one is asked for.
    pub fn host(&self) -> (s: &Option<String>)
        ensures
            text_view(*s) == self@.host,
    {
        &self.host
    }

    /// The kind of BGP message to hear of, if one is asked for.
    pub fn data_type(&self) -> (s: &Option<String>)
        ensures
            text_view(*s) == self@.data_type,
    {
        &self.data_type
    }

    /// Whether announcements or withdrawals are required, if either is.
    pub fn require(&self) -> (s: &Option<String>)
        ensures
            text_view(*s) == self@.require,
    {
        &self.require
    }

    /// The AS path to hear of, if one is asked for.
    pub fn path(&self) -> (p: &Option<Vec<u32>>)
        ensures
            path_view(*p) == self@.path,
    {
        &self.path
    }
}

/// The mathematical value of a `RisRequest`.
pub struct RequestView {
    pub message_type: Seq<char>,
    pub data: Option<RequestDataView>,
}

/// The view of optional filters.
pub open spec fn filter_view(d: Option<RisRequestData>) -> Option<RequestDataView> {
    match d {
        Some(f) => Some(f@),
        None => None,
    }
}

/// One message to the service.
#[derive(Debug, Clone)]
pub struct RisRequest {
    message_type: String,
    data: Option<RisRequestData>,
}

impl View for RisRequest {
    type V = RequestView;

    closed spec fn view(&self) -> RequestView {
        RequestView { message_type: self.message_type@, data: filter_view(self.data) }
    }
}

impl RisRequest {
    /// The message of the given kind with the given filters.
    pub fn new(message_type: String, data: Option<RisRequestData>) -> (request: RisRequest)
        ensures
            request@ == (RequestView { message_type: message_type@, data: filter_view(data) }),
    {
        RisRequest { message_type, data }
    }

    /// The request that opens a subscription with the given filters.
    pub fn subscribe(data: RisRequestData) -> (request: RisRequest)
        ensures
            request@ == (RequestView { message_type: "ris_subscribe"@, data: Some(data@) }),
    {
        RisRequest { message_type: String::from_str("ris_subscribe"), data: Some(data) }
    }

    /// The kind of the message.
    pub fn message_type(&self) -> (s: &String)
        ensures
            s@ == self@.message_type,
    {
        &self.message_type
    }

    /// The filters of the message, if it carries any.
    pub fn data(&self) -> (d: &Option<RisRequestData>)
        ensures
            filter_view(*d) == self@.data,
    {
        &self.data
    }
}

} // verus!
