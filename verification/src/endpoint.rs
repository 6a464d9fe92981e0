//! Peers and the handles through which they are called: a node identity, an
//! endpoint bound to a peer and a service path, and the resolution of a
//! transfer URL into the endpoint that serves it.

use crate::error::TransferError;
use url::Url;
use vstd::prelude::*;
use vstd::string::StringExecFns;

verus! {

/// A parsed URL of the `url` crate, carried as an opaque value.
#[verifier::external_type_specification]
#[verifier::external_body]
pub struct ExUrl(url::Url);

/// The host of a URL as text, if the URL has one: what `Url::host_str`
/// gives. It depends on the URL alone.
pub uninterp spec fn url_host_text(url: Url) -> Option<Seq<char>>;

/// The segments of the path of a URL, in order, if the URL can be a base:
/// what `Url::path_segments` gives. They depend on the URL alone.
pub uninterp spec fn url_segment_texts(url: Url) -> Option<Seq<Seq<char>>>;

/// `Url::host_str`: the host of the URL as text, if it has one. The claim is
/// only that the result is the named host of this URL.
#[verifier::external_body]
pub(crate) fn url_host(url: &Url) -> (host: Option<String>)
    ensures
        opt_string_view(host) == url_host_text(*url),
{
    url.host_str().map(str::to_owned)
}

/// `Url::path_segments`: the segments of the URL's path, in order; `None` for
/// a URL that cannot be a base. The claim is only that the result is the
/// named segments of this URL.
#[verifier::external_body]
pub(crate) fn url_path_segments(url: &Url) -> (segments: Option<Vec<String>>)
    ensures
        opt_string_views(segments) == url_segment_texts(*url),
{
    url.path_segments().map(|segments| segments.map(str::to_owned).collect())
}

/// Service path under which file transfers are served.
pub open spec fn gftp_bus_prefix() -> Seq<char> {
    "/public/gftp/"@
}

/// The identity of a peer: an opaque routing key, never empty.
#[derive(Clone, Debug, PartialEq, Eq, Hash)]
pub struct NodeId {
    text: String,
}

impl View for NodeId {
    type V = Seq<char>;

    closed spec fn view(&self) -> Seq<char> {
        self.text@
    }
}

impl NodeId {
    /// Holds for every value that `parse` hands out.
    pub closed spec fn wf(&self) -> bool {
        self.text@.len() > 0
    }

    /// Reads an identity from its text. Only the empty text is none.
    pub fn parse(text: &str) -> (id: Option<NodeId>)
        ensures
            text@.len() == 0 <==> id is None,
            id matches Some(node) ==> node@ == text@ && node.wf(),
    {
        if text.is_empty() {
            None
        } else {
            Some(NodeId { text: text.to_owned() })
        }
    }

    /// A copy of the identity.
    pub fn duplicate(&self) -> (copy: NodeId)
        ensures
            copy == *self,
    {
        NodeId { text: self.text.clone() }
    }

    /// The identity as text.
    pub fn as_str(&self) -> (text: &str)
        ensures
            text@ == self@,
    {
        self.text.as_str()
    }

    /// Whether both are the same peer.
    pub fn same_as(&self, other: &NodeId) -> (same: bool)
        ensures
            same == (self@ == other@),
    {
        self.text == other.text
    }
}

/// A handle on one service of one peer. Making one touches nothing outside:
/// whether the peer can be reached shows only when the endpoint is used.
#[derive(Clone, Debug, PartialEq, Eq)]
pub struct Endpoint {
    pub node: NodeId,
    pub path: String,
}

/// An endpoint as a mathematical value: the peer and the service path.
pub ghost struct EndpointView {
    pub node: Seq<char>,
    pub path: Seq<char>,
}

impl View for Endpoint {
    type V = EndpointView;

    open spec fn view(&self) -> EndpointView {
        EndpointView { node: self.node@, path: self.path@ }
    }
}

/// The endpoint for a service path on a peer. Never fails and performs no
/// I/O.
pub fn endpoint_for(node: NodeId, service_path: &str) -> (endpoint: Endpoint)
    ensures
        endpoint@ == (EndpointView { node: node@, path: service_path@ }),
        endpoint.node == node,
{
    Endpoint { node, path: service_path.to_owned() }
}

/// The service path of the transfer endpoint of one resource.
pub open spec fn file_bus_path(token: Seq<char>) -> Seq<char> {
    gftp_bus_prefix() + token
}

/// Builds the service path under which the resource with the given token is
/// served.
pub fn file_bus_id(token: &str) -> (path: String)
    ensures
        path@ == file_bus_path(token@),
{
    let prefix = String::from_str("/public/gftp/");
    prefix.concat(token)
}

/// Transfers of different resources never share a service path.
pub proof fn lemma_file_bus_path_injective(a: Seq<char>, b: Seq<char>)
    requires
        file_bus_path(a) == file_bus_path(b),
    ensures
        a == b,
{
    let p = gftp_bus_prefix();
    assert((p + a).skip(p.len() as int) =~= a);
    assert((p + b).skip(p.len() as int) =~= b);
}

/// What a transfer URL of the form `<scheme>://<node-identity>/<resource-token>`
/// resolves to, given its host and the segments of its path: the peer and the
/// token, where both are present and not empty.
pub open spec fn transfer_target_of(host: Option<Seq<char>>, segments: Option<Seq<Seq<char>>>) -> Option<
    (Seq<char>, Seq<char>),
> {
    match (host, segments) {
        (Some(h), Some(list)) => if h.len() > 0 && list.len() > 0 && list[0].len() > 0 {
            Some((h, list[0]))
        } else {
            None
        },
        _ => None,
    }
}

/// Message of the error for a URL that names no peer or no resource.
pub open spec fn invalid_url_message() -> Seq<char> {
    "Invalid gftp URL"@
}

/// Whether the error is the one that `extract_url` gives for a bad URL.
pub open spec fn is_invalid_url(e: TransferError) -> bool {
    e matches TransferError::InvalidUrlError(message) && message@ == invalid_url_message()
}

/// The views of the strings, in order.
pub open spec fn string_views(list: Seq<String>) -> Seq<Seq<char>> {
    list.map_values(|s: String| s@)
}

/// The views of an optional string.
pub open spec fn opt_string_view(text: Option<String>) -> Option<Seq<char>> {
    match text {
        Some(s) => Some(s@),
        None => None,
    }
}

/// The views of an optional list of strings.
pub open spec fn opt_string_views(list: Option<Vec<String>>) -> Option<Seq<Seq<char>>> {
    match list {
        Some(v) => Some(string_views(v@)),
        None => None,
    }
}

/// Resolves the host and path segments of a transfer URL into the peer and
/// the resource token, or the error for an invalid URL.
pub fn transfer_target(host: Option<String>, segments: Option<Vec<String>>) -> (target: Result<
    (NodeId, String),
    TransferError,
>)
    ensures
        match transfer_target_of(opt_string_view(host), opt_string_views(segments)) {
            Some((node, token)) => target matches Ok((id, t)) && id@ == node && id.wf() && t@
                == token,
            None => target matches Err(e) && is_invalid_url(e),
        },
{
    let invalid = TransferError::InvalidUrlError(String::from_str("Invalid gftp URL"));
    let host = match host {
        Some(h) => h,
        None => { return Err(invalid); },
    };
    let mut segments = match segments {
        Some(list) => list,
        None => { return Err(invalid); },
    };
    if segments.len() == 0 {
        return Err(invalid);
    }
    let ghost first = segments@[0];
    let token = segments.swap_remove(0);
    assert(token == first);
    if token.as_str().is_empty() {
        return Err(invalid);
    }
    match NodeId::parse(host.as_str()) {
        Some(id) => Ok((id, token)),
        None => Err(invalid),
    }
}

/// What a transfer URL resolves to: the peer that its host names and the
/// token that the first segment of its path gives, where both are present
/// and not empty.
pub open spec fn url_target(url: Url) -> Option<(Seq<char>, Seq<char>)> {
    transfer_target_of(url_host_text(url), url_segment_texts(url))
}

/// Resolves a transfer URL into the peer that serves the resource and the
/// token that names it: the host of the URL and the first segment of its
/// path. A URL that lacks either, or has an empty one, is invalid.
pub fn extract_url(url: &Url) -> (target: Result<(NodeId, String), TransferError>)
    ensures
        match url_target(*url) {
            Some((node, token)) => target matches Ok((id, t)) && id@ == node && id.wf() && t@
                == token,
            None => target matches Err(e) && is_invalid_url(e),
        },
{
    let host = url_host(url);
    let segments = url_path_segments(url);
    transfer_target(host, segments)
}

} // verus!
