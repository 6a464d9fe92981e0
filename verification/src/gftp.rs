//! The transfer provider for `gftp` URLs: it resolves a URL into the peer's
//! transfer endpoint and sets up the source or the destination for it.

use crate::chunk::DEFAULT_CHUNK_SIZE;
use crate::destination::{destination_initial, DestinationTransfer};
use crate::endpoint::{
    endpoint_for, extract_url, file_bus_id, file_bus_path, is_invalid_url, url_target, Endpoint,
    EndpointView, NodeId,
};
use crate::error::TransferError;
use crate::source::{source_initial, SourceTransfer};
use url::Url;
use vstd::prelude::*;

verus! {

/// Number of chunks that a source fetches ahead unless told otherwise.
pub const DEFAULT_WINDOW: usize = 12;

/// The endpoint that serves the transfer of a URL: the peer that the URL
/// names, at the service path of the resource's token. None for a URL that
/// names no peer or no resource.
pub open spec fn url_endpoint(url: Url) -> Option<EndpointView> {
    match url_target(url) {
        Some((node, token)) => Some(EndpointView { node, path: file_bus_path(token) }),
        None => None,
    }
}

/// Whether `target` is what the URL resolves to: the endpoint that serves its
/// transfer, with a valid peer, or the error for an invalid URL.
pub open spec fn resolves(url: Url, target: Result<Endpoint, TransferError>) -> bool {
    match url_endpoint(url) {
        Some(view) => target matches Ok(endpoint) && endpoint@ == view && endpoint.node.wf(),
        None => target matches Err(e) && is_invalid_url(e),
    }
}

/// The endpoint under which a peer serves the transfer of the resource with
/// the given token.
pub fn gftp_endpoint(node: NodeId, token: &str) -> (endpoint: Endpoint)
    ensures
        endpoint@ == (EndpointView { node: node@, path: file_bus_path(token@) }),
        endpoint.node == node,
{
    let path = file_bus_id(token);
    endpoint_for(node, path.as_str())
}

/// Resolves a transfer URL into the endpoint that serves it: the peer that
/// the URL names, at the service path of the resource's token; or the error
/// for a URL that names no peer or no resource.
pub fn resolve_url(url: &Url) -> (target: Result<Endpoint, TransferError>)
    ensures
        resolves(*url, target),
{
    match extract_url(url) {
        Ok((node, token)) => Ok(gftp_endpoint(node, token.as_str())),
        Err(e) => Err(e),
    }
}

/// Provider of transfers over the bus.
pub struct GftpTransferProvider {
    rx_buffer_sz: usize,
}

impl Default for GftpTransferProvider {
    fn default() -> (provider: GftpTransferProvider)
        ensures
            provider.window_size() == DEFAULT_WINDOW,
    {
        GftpTransferProvider { rx_buffer_sz: DEFAULT_WINDOW }
    }
}

impl GftpTransferProvider {
    /// A provider always has room for at least one chunk in its window.
    #[verifier::type_invariant]
    closed spec fn has_window(&self) -> bool {
        self.rx_buffer_sz > 0
    }

    /// How many chunks the sources of this provider fetch ahead.
    pub closed spec fn window_size(&self) -> usize {
        self.rx_buffer_sz
    }

    /// How many chunks the sources of this provider fetch ahead.
    pub fn window(&self) -> (window: usize)
        ensures
            window == self.window_size(),
    {
        self.rx_buffer_sz
    }

    /// The URL schemes that this provider serves: `gftp` alone.
    pub fn schemes(&self) -> (schemes: Vec<&'static str>)
        ensures
            schemes@.len() == 1,
            schemes@[0]@ == "gftp"@,
    {
        let mut schemes: Vec<&'static str> = Vec::new();
        schemes.push("gftp");
        schemes
    }

    /// A source for the resource that the URL names: not started yet, with
    /// the default chunk size and this provider's window. An invalid URL
    /// shows when the source is started: it fails then.
    pub fn source(&self, url: &Url) -> (source: SourceTransfer)
        ensures
            source.wf(),
            source@ == source_initial(
                source@.target,
                DEFAULT_CHUNK_SIZE as nat,
                self.window_size() as nat,
            ),
            resolves(*url, source@.target),
    {
        proof {
            use_type_invariant(self);
        }
        SourceTransfer::new(resolve_url(url), DEFAULT_CHUNK_SIZE, self.rx_buffer_sz)
    }

    /// A destination for the resource that the URL names: not started yet,
    /// with the default chunk size. An invalid URL shows when the destination
    /// is started: it fails then.
    pub fn destination(&self, url: &Url) -> (destination: DestinationTransfer)
        ensures
            destination.wf(),
            destination@ == destination_initial(destination@.target, DEFAULT_CHUNK_SIZE as nat),
            resolves(*url, destination@.target),
    {
        DestinationTransfer::new(resolve_url(url), 40960)
    }
}

} // verus!
