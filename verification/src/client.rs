//! The rules of the REST client: which request each operation makes, and
//! what each response means. Performing the request is the caller's part.

use vstd::prelude::*;
use vstd::string::*;
use crate::error::{RpcError, RpcErrorView};
use crate::http::{is_success, status_is_success, Method, Request, RequestView, Response};
use crate::json::{error_text, json_u32, parse_u32};
use crate::text::{decimal, decimal_string, lemma_trim_characterized, lemma_trim_unique,
    trim_end_slashes, trim_trailing_slashes, trimmed_len};

verus! {

/// Every request is given this many seconds before it is abandoned.
pub const REQUEST_TIMEOUT_SECS: u64 = 5;

/// A client for one node, identified by the base address of its API.
#[derive(Clone, Debug)]
pub struct AleoRpcClient {
    base_url: String,
}

impl View for AleoRpcClient {
    type V = Seq<char>;

    /// The base address every request starts with.
    closed spec fn view(&self) -> Seq<char> {
        self.base_url@
    }
}

/// Address of one block: `<base>/block/<height>`.
pub open spec fn block_url(base: Seq<char>, height: u32) -> Seq<char> {
    base + "/block/"@ + decimal(height as nat)
}

/// Address of a range of blocks: `<base>/blocks?start=<start>&end=<end>`.
pub open spec fn blocks_url(base: Seq<char>, start: u32, end: u32) -> Seq<char> {
    base + "/blocks?start="@ + decimal(start as nat) + "&end="@ + decimal(end as nat)
}

/// Address of the latest height: `<base>/block/height/latest`.
pub open spec fn latest_height_url(base: Seq<char>) -> Seq<char> {
    base + "/block/height/latest"@
}

/// Address of the latest block: `<base>/block/latest`.
pub open spec fn latest_block_url(base: Seq<char>) -> Seq<char> {
    base + "/block/latest"@
}

/// Address that takes a solution: `<base>/solution/broadcast`.
pub open spec fn broadcast_url(base: Seq<char>) -> Seq<char> {
    base + "/solution/broadcast"@
}

/// A `Get` of `url`, with no body.
pub open spec fn get_of(url: Seq<char>) -> RequestView {
    RequestView { method: Method::Get, url, body: None }
}

/// What a read makes of a response: the body where the status reports
/// success, otherwise a failure holding the address, the status and the body.
pub open spec fn resource_of(url: Seq<char>, status: u16, body: Seq<char>) -> Result<
    Seq<char>,
    RpcErrorView,
> {
    if status_is_success(status) {
        Ok(body)
    } else {
        Err(RpcErrorView::Status { url, status, body })
    }
}

impl AleoRpcClient {
    /// Whether the base address is free of trailing slashes.
    pub open spec fn wf(&self) -> bool {
        trimmed_len(self@) == self@.len()
    }

    /// A client for the node at `base_url`; trailing slashes are dropped.
    pub fn new(base_url: &str) -> (client: Self)
        ensures
            client@ == trim_trailing_slashes(base_url@),
            client.wf(),
    {
        proof {
            lemma_trim_characterized(base_url@);
            let kept = trim_trailing_slashes(base_url@);
            lemma_trim_unique(kept, kept.len());
        }
        AleoRpcClient { base_url: trim_end_slashes(base_url) }
    }

    /// The base address.
    pub fn base_url(&self) -> (base: &str)
        ensures
            base@ == self@,
    {
        self.base_url.as_str()
    }

    fn at(&self, path: &str) -> (url: String)
        ensures
            url@ == self@ + path@,
    {
        let mut url: String = self.base_url.clone();
        url.append(path);
        url
    }

    /// The request that reads the resource at `url`.
    pub fn get_resource(&self, url: &str) -> (request: Request)
        ensures
            request@ == get_of(url@),
    {
        Request { method: Method::Get, url: String::from_str(url), body: None }
    }

    /// The request that reads the block at `block_height`.
    pub fn get_block(&self, block_height: u32) -> (request: Request)
        ensures
            request@ == get_of(block_url(self@, block_height)),
    {
        let mut url: String = self.at("/block/");
        url.append(decimal_string(block_height as u64).as_str());
        self.get_resource(url.as_str())
    }

    /// The request that reads the blocks from `start_height` to `end_height`.
    pub fn get_blocks(&self, start_height: u32, end_height: u32) -> (request: Request)
        ensures
            request@ == get_of(blocks_url(self@, start_height, end_height)),
    {
        let mut url: String = self.at("/blocks?start=");
        url.append(decimal_string(start_height as u64).as_str());
        url.append("&end=");
        url.append(decimal_string(end_height as u64).as_str());
        self.get_resource(url.as_str())
    }

    /// The request that reads the height of the latest block.
    pub fn get_latest_height(&self) -> (request: Request)
        ensures
            request@ == get_of(latest_height_url(self@)),
    {
        let url: String = self.at("/block/height/latest");
        self.get_resource(url.as_str())
    }

    /// The request that reads the latest block.
    pub fn get_latest_block(&self) -> (request: Request)
        ensures
            request@ == get_of(latest_block_url(self@)),
    {
        let url: String = self.at("/block/latest");
        self.get_resource(url.as_str())
    }

    /// The request that submits a solution, given as its JSON text.
    pub fn broadcast_solution(&self, solution: String) -> (request: Request)
        ensures
            request@ == (RequestView {
                method: Method::Post,
                url: broadcast_url(self@),
                body: Some(solution@),
            }),
    {
        Request { method: Method::Post, url: self.at("/solution/broadcast"), body: Some(solution) }
    }
}

/// Reads the response to a `Get`: the body to decode where the status
/// reports success, otherwise the failure.
pub fn resource_body(request: &Request, response: Response) -> (r: Result<String, RpcError>)
    ensures
        match r {
            Ok(body) => resource_of(request.url@, response.status, response.body@) == Ok::<
                Seq<char>,
                RpcErrorView,
            >(body@),
            Err(e) => resource_of(request.url@, response.status, response.body@) == Err::<
                Seq<char>,
                RpcErrorView,
            >(e@),
        },
{
    if is_success(response.status) {
        Ok(response.body)
    } else {
        Err(
            RpcError::Status {
                url: request.url.clone(),
                status: response.status,
                body: response.body,
            },
        )
    }
}

/// Settles a decoded body: the value where decoding succeeded, otherwise a
/// failure that keeps the raw body beside the decoder's complaint.
pub fn decoded<R>(body: String, parsed: Result<R, String>) -> (r: Result<R, RpcError>)
    ensures
        match parsed {
            Ok(value) => r == Ok::<R, RpcError>(value),
            Err(cause) => r is Err && r->Err_0@ == (RpcErrorView::Decode {
                body: body@,
                cause: cause@,
            }),
        },
{
    match parsed {
        Ok(value) => Ok(value),
        Err(cause) => Err(RpcError::Decode { body, cause }),
    }
}

/// Reads the response to `get_latest_height`. A failed status is reported
/// as such; a successful one yields the height its body holds, or a decode
/// failure that carries the body.
pub fn latest_height(request: &Request, response: Response) -> (r: Result<u32, RpcError>)
    ensures
        match r {
            Ok(height) => status_is_success(response.status) && json_u32(response.body@) == Some(
                height,
            ),
            Err(e) => if status_is_success(response.status) {
                &&& json_u32(response.body@) is None
                &&& e@ is Decode
                &&& e@->Decode_body == response.body@
            } else {
                e@ == (RpcErrorView::Status {
                    url: request.url@,
                    status: response.status,
                    body: response.body@,
                })
            },
        },
{
    match resource_body(request, response) {
        Ok(body) => {
            let parsed: Result<u32, String> = match parse_u32(body.as_str()) {
                Ok(height) => Ok(height),
                Err(e) => Err(error_text(&e)),
            };
            decoded(body, parsed)
        },
        Err(e) => Err(e),
    }
}

/// Reads the response to `broadcast_solution`: success carries nothing, a
/// failed status is reported with the address, the status and the body.
pub fn broadcast_outcome(request: &Request, response: Response) -> (r: Result<(), RpcError>)
    ensures
        r is Ok <==> status_is_success(response.status),
        r is Err ==> r->Err_0@ == (RpcErrorView::Status {
            url: request.url@,
            status: response.status,
            body: response.body@,
        }),
{
    match resource_body(request, response) {
        Ok(_) => Ok(()),
        Err(e) => Err(e),
    }
}

/// Whether `url` extends `base` by a path that begins with exactly one
/// slash, `base` itself not ending in one.
pub open spec fn joins_cleanly(base: Seq<char>, url: Seq<char>) -> bool {
    &&& url.len() > base.len() + 1
    &&& url.subrange(0, base.len() as int) == base
    &&& url[base.len() as int] == '/'
    &&& url[base.len() as int + 1] != '/'
    &&& base.len() > 0 ==> url[base.len() - 1] != '/'
}

/// No operation's address has two slashes where the base meets the path,
/// however many slashes the address given to `new` ended in.
pub proof fn lemma_no_double_slash(client: AleoRpcClient, height: u32, start: u32, end: u32)
    requires
        client.wf(),
    ensures
        joins_cleanly(client@, block_url(client@, height)),
        joins_cleanly(client@, blocks_url(client@, start, end)),
        joins_cleanly(client@, latest_height_url(client@)),
        joins_cleanly(client@, latest_block_url(client@)),
        joins_cleanly(client@, broadcast_url(client@)),
{
    let base = client@;
    lemma_trim_characterized(base);
    reveal_strlit("/block/");
    reveal_strlit("/blocks?start=");
    reveal_strlit("&end=");
    reveal_strlit("/block/height/latest");
    reveal_strlit("/block/latest");
    reveal_strlit("/solution/broadcast");
    assert(block_url(base, height).subrange(0, base.len() as int) =~= base);
    assert(blocks_url(base, start, end).subrange(0, base.len() as int) =~= base);
    assert(latest_height_url(base).subrange(0, base.len() as int) =~= base);
    assert(latest_block_url(base).subrange(0, base.len() as int) =~= base);
    assert(broadcast_url(base).subrange(0, base.len() as int) =~= base);
}

} // verus!
