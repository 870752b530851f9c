//! The client: where it connects, and what it sends to subscribe.

use vstd::prelude::*;
use crate::encode::{filter_json, request_json, request_text};
use crate::error::RisError;
use crate::json::{json_string_text, path_array_text};
use crate::schema::{path_view, text_view, RequestDataView, RequestView, RisRequest, RisRequestData};

verus! {

/// The mathematical value of a `RisClient`.
pub struct ClientView {
    pub host: Seq<char>,
    pub client_id: Seq<char>,
}

/// A client of the service: the host it connects to, and the identifier it
/// presents on every connection. It holds no connection.
#[derive(Debug, Clone)]
pub struct RisClient {
    host: String,
    client_id: String,
}

impl View for RisClient {
    type V = ClientView;

    closed spec fn view(&self) -> ClientView {
        ClientView { host: self.host@, client_id: self.client_id@ }
    }
}

/// The mathematical value of a `Subscription`.
pub struct SubscriptionView {
    pub url: Seq<char>,
    pub frame: Seq<char>,
}

/// What opening a stream takes: the URL to connect to, and the one frame to
/// send once the connection stands.
#[derive(Debug, Clone)]
pub struct Subscription {
    url: String,
    frame: String,
}

impl View for Subscription {
    type V = SubscriptionView;

    closed spec fn view(&self) -> SubscriptionView {
        SubscriptionView { url: self.url@, frame: self.frame@ }
    }
}

impl Subscription {
    /// The URL of the secure websocket to open.
    pub fn url(&self) -> (s: &String)
        ensures
            s@ == self@.url,
    {
        &self.url
    }

    /// The subscribe frame, the first and only outbound message.
    pub fn frame(&self) -> (s: &String)
        ensures
            s@ == self@.frame,
    {
        &self.frame
    }
}

/// The URL of the service's websocket for a host and a client identifier.
pub open spec fn connection_url_text(host: Seq<char>, client_id: Seq<char>) -> Seq<char> {
    "wss://"@ + host + "/v1/ws/?client="@ + client_id
}

/// The subscribe request with the given filters.
pub open spec fn subscribe_view(filters: RequestDataView) -> RequestView {
    RequestView { message_type: "ris_subscribe"@, data: Some(filters) }
}

impl RisClient {
    /// A client for the given host that presents the given identifier. The
    /// two strings are stored as they are; this always succeeds.
    pub fn new(host: String, client_id: String) -> (r: Result<RisClient, RisError>)
        ensures
            r matches Ok(c) && c@ == (ClientView { host: host@, client_id: client_id@ }),
    {
        Ok(RisClient { host, client_id })
    }

    /// The client for the public service, with the fixed identifier of this
    /// library.
    pub fn default() -> (r: Result<RisClient, RisError>)
        ensures
            r matches Ok(c) && c@ == (ClientView {
                host: "ris-live.ripe.net"@,
                client_id: "rust-risclient"@,
            }),
    {
        RisClient::new(String::from_str("ris-live.ripe.net"), String::from_str("rust-risclient"))
    }

    /// The host that the client connects to.
    pub fn host(&self) -> (s: &String)
        ensures
            s@ == self@.host,
    {
        &self.host
    }

    /// The identifier that the client presents.
    pub fn client_id(&self) -> (s: &String)
        ensures
            s@ == self@.client_id,
    {
        &self.client_id
    }

    /// The URL that a stream of this client connects to.
    pub fn connection_url(&self) -> (url: String)
        ensures
            url@ == connection_url_text(self@.host, self@.client_id),
    {
        let mut url = String::from_str("wss://");
        url.append(self.host.as_str());
        url.append("/v1/ws/?client=");
        url.append(self.client_id.as_str());
        url
    }

    /// Prepares a stream with the given filters: the URL to connect to and
    /// the subscribe frame, whose filters are the four arguments, each passed
    /// through unchanged. The client itself is left as it was, and nothing is
    /// validated: this succeeds on every input.
    pub fn stream_custom(
        &mut self,
        host: Option<String>,
        data_type: Option<String>,
        require: Option<String>,
        path: Option<Vec<u32>>,
    ) -> (r: Result<Subscription, RisError>)
        ensures
            final(self)@ == old(self)@,
            r is Ok,
            r matches Ok(s) ==> s@ == (SubscriptionView {
                url: connection_url_text(old(self)@.host, old(self)@.client_id),
                frame: request_json(
                    subscribe_view(
                        RequestDataView {
                            host: text_view(host),
                            data_type: text_view(data_type),
                            require: text_view(require),
                            path: path_view(path),
                        },
                    ),
                ),
            }),
    {
        let url = self.connection_url();
        let request = RisRequest::subscribe(RisRequestData::new(host, data_type, require, path));
        match request.encode() {
            Ok(frame) => Ok(Subscription { url, frame }),
            Err(e) => Err(e),
        }
    }

    /// Prepares a stream without filters: `stream_custom` with every filter
    /// absent.
    pub fn stream(&mut self) -> (r: Result<Subscription, RisError>)
        ensures
            final(self)@ == old(self)@,
            r is Ok,
            r matches Ok(s) ==> s@ == (SubscriptionView {
                url: connection_url_text(old(self)@.host, old(self)@.client_id),
                frame: request_json(
                    subscribe_view(
                        RequestDataView { host: None, data_type: None, require: None, path: None },
                    ),
                ),
            }),
    {
        self.stream_custom(None, None, None, None)
    }
}

/// The subscribe frame always carries a `data` object, also where no filter
/// is set: it is then the empty object.
pub proof fn lemma_unfiltered_subscribe_frame()
    ensures
        request_json(
            subscribe_view(
                RequestDataView { host: None, data_type: None, require: None, path: None },
            ),
        ) == "{\"type\":"@ + json_string_text("ris_subscribe"@) + ",\"data\":{}}"@,
{
    let none = RequestDataView { host: None, data_type: None, require: None, path: None };
    crate::encode::lemma_absent_filters_omitted(None, None, None, None);
    crate::encode::lemma_request_with_filters(json_string_text("ris_subscribe"@), "{}"@);
    reveal_strlit(",\"data\":{}}");
    reveal_strlit(",\"data\":");
    reveal_strlit("{}");
    reveal_strlit("}");
    assert(filter_json(none) == "{}"@);
    assert(request_json(subscribe_view(none)) == request_text(
        json_string_text("ris_subscribe"@),
        Some("{}"@),
    ));
    assert("{\"type\":"@ + json_string_text("ris_subscribe"@) + ",\"data\":"@ + "{}"@ + "}"@
        =~= "{\"type\":"@ + json_string_text("ris_subscribe"@) + ",\"data\":{}}"@);
}

/// With only the collector set, the subscribe frame carries a `data` object
/// with the one member `host`.
pub proof fn lemma_host_only_subscribe_frame(host: Seq<char>)
    ensures
        request_json(
            subscribe_view(
                RequestDataView { host: Some(host), data_type: None, require: None, path: None },
            ),
        ) == "{\"type\":"@ + json_string_text("ris_subscribe"@) + ",\"data\":"@ + ("{\"host\":"@
            + json_string_text(host) + "}"@) + "}"@,
{
    let filters = RequestDataView { host: Some(host), data_type: None, require: None, path: None };
    crate::encode::lemma_host_only_filter(host);
    crate::encode::lemma_request_with_filters(
        json_string_text("ris_subscribe"@),
        filter_json(filters),
    );
}

/// With only the AS path set, the subscribe frame carries a `data` object
/// with the one member `path`, the array of the path's numbers.
pub proof fn lemma_path_only_subscribe_frame(path: Seq<u32>)
    ensures
        request_json(
            subscribe_view(
                RequestDataView { host: None, data_type: None, require: None, path: Some(path) },
            ),
        ) == "{\"type\":"@ + json_string_text("ris_subscribe"@) + ",\"data\":"@ + ("{\"path\":"@
            + path_array_text(path) + "}"@) + "}"@,
{
    let filters = RequestDataView { host: None, data_type: None, require: None, path: Some(path) };
    crate::encode::lemma_path_only_filter(path);
    crate::encode::lemma_request_with_filters(
        json_string_text("ris_subscribe"@),
        filter_json(filters),
    );
}

/// The URL of a client is the scheme `wss`, the host, the fixed path and the
/// client identifier as the one query parameter.
pub proof fn lemma_connection_url_parts(host: Seq<char>, client_id: Seq<char>)
    ensures
        ({
            let u = connection_url_text(host, client_id);
            let h = host.len() as int;
            let c = client_id.len() as int;
            &&& u.len() == h + c + 21
            &&& u.subrange(0, 6) == "wss://"@
            &&& u.subrange(6, 6 + h) == host
            &&& u.subrange(6 + h, 21 + h) == "/v1/ws/?client="@
            &&& u.subrange(21 + h, 21 + h + c) == client_id
        }),
{
    reveal_strlit("wss://");
    reveal_strlit("/v1/ws/?client=");
    let u = connection_url_text(host, client_id);
    let h = host.len() as int;
    let c = client_id.len() as int;
    assert(u.subrange(0, 6) =~= "wss://"@);
    assert(u.subrange(6, 6 + h) =~= host);
    assert(u.subrange(6 + h, 21 + h) =~= "/v1/ws/?client="@);
    assert(u.subrange(21 + h, 21 + h + c) =~= client_id);
}

} // verus!
