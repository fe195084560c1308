//! The operations of the daemon's control API: for each, the request to
//! send, and what to make of the answer.
//!
//! An operation is carried out in turns. The function named after it plans
//! the request from its arguments and from the address descriptor of the
//! local daemon. The caller sends the request and reports how that went to
//! `Request::on_dispatch`, which says what to do with the body of the
//! answer, or with which error to stop.

use vstd::prelude::*;
use crate::digest::{ContentHash, ContentHashView};
use crate::endpoint::{ipfs_api_url, local_api_url};
use crate::error::Error;
use crate::location::{append_pair, join, url_joined, with_pair};
use crate::multipart::{
    chunk_view,
    is_boundary,
    multipart_boundary,
    EncoderView,
    MultipartEncoder,
    Stage,
};
use crate::path::{IpfsPath, IpfsPathView};
use crate::text::{text_result, text_view};

verus! {

/// The seconds that an upload may take.
pub const ADD_TIMEOUT_SECS: u64 = 600;

/// The method of a request.
#[derive(Debug, Clone, Copy, PartialEq, Eq, Structural)]
pub enum Method {
    Get,
    Post,
}

/// What becomes of the body of an answer.
#[derive(Debug, Clone, Copy, PartialEq, Eq, Structural)]
pub enum BodyUse {
    /// It is decoded as JSON.
    Json,
    /// It is handed to the caller as it arrives.
    Stream,
    /// It is read whole and decoded as text.
    Text,
}

/// A request to the daemon or to the public gateway, and how its answer
/// is to be treated.
#[derive(Debug, PartialEq, Eq)]
pub struct Request {
    pub method: Method,
    pub url: String,
    /// The value of the `Content-Type` header, where the request has a body.
    pub content_type: Option<String>,
    /// The seconds after which the caller gives up, where a limit is set.
    pub timeout_secs: Option<u64>,
    pub body_use: BodyUse,
}

/// What a request holds.
pub ghost struct RequestView {
    pub method: Method,
    pub url: Seq<char>,
    pub content_type: Option<Seq<char>>,
    pub timeout_secs: Option<u64>,
    pub body_use: BodyUse,
}

impl View for Request {
    type V = RequestView;

    open spec fn view(&self) -> RequestView {
        RequestView {
            method: self.method,
            url: self.url@,
            content_type: text_view(self.content_type),
            timeout_secs: self.timeout_secs,
            body_use: self.body_use,
        }
    }
}

/// The base URL of the public gateway, which stands in for the local
/// daemon where an operation can do without it.
pub const PUBLIC_GATEWAY: &'static str = "https://ipfs.io/";

/// The base URL of the public gateway.
pub open spec fn public_gateway() -> Seq<char> {
    PUBLIC_GATEWAY@
}

/// The base URL of the local daemon, where its address descriptor could be
/// read and stands for one.
pub open spec fn local_base(descriptor: Option<Seq<char>>) -> Option<Seq<char>> {
    match descriptor {
        Some(text) => local_api_url(text),
        None => None,
    }
}

/// `url` with one more query pair, where there is a URL.
pub open spec fn and_pair(url: Option<Seq<char>>, name: Seq<char>, value: Seq<char>) -> Option<
    Seq<char>,
> {
    match url {
        Some(url) => with_pair(url, name, value),
        None => None,
    }
}

/// The URL that came about, or the report that it could not be built: a
/// part of it has more than `TEXT_LIMIT` bytes, or the `url` crate refused
/// to join it or to extend it.
pub open spec fn built(url: Option<Seq<char>>) -> Result<Seq<char>, Error> {
    match url {
        Some(url) => Ok(url),
        None => Err(Error::IpfsApiUrlError),
    }
}

/// A `GET` request without a body and without a limit on its time.
pub open spec fn get_request(url: Seq<char>, body_use: BodyUse) -> RequestView {
    RequestView { method: Method::Get, url, content_type: None, timeout_secs: None, body_use }
}

/// The plan of an operation whose URL may have failed to come about: the
/// `GET` request to that URL, or the error that stood in the way of it.
pub open spec fn planned(url: Result<Seq<char>, Error>, body_use: BodyUse) -> Result<
    RequestView,
    Error,
> {
    match url {
        Ok(url) => Ok(get_request(url, body_use)),
        Err(e) => Err(e),
    }
}

/// What a planning function returned, by what the request holds.
pub open spec fn plan_view(r: Result<Request, Error>) -> Result<RequestView, Error> {
    match r {
        Ok(request) => Ok(request@),
        Err(e) => Err(e),
    }
}

/// The view of a descriptor that may be missing.
pub open spec fn descriptor_view(descriptor: Option<&str>) -> Option<Seq<char>> {
    match descriptor {
        Some(text) => Some(text@),
        None => None,
    }
}

/// `url` with one more query pair, where there is a URL.
fn extend(url: Option<String>, name: &str, value: &str) -> (r: Option<String>)
    ensures
        text_view(r) == and_pair(text_view(url), name@, value@),
{
    match url {
        Some(url) => append_pair(url.as_str(), name, value),
        None => None,
    }
}

/// The URL that came about, or the report that it could not be built.
fn build(url: Option<String>) -> (r: Result<String, Error>)
    ensures
        text_result(r) == built(text_view(url)),
{
    match url {
        Some(url) => Ok(url),
        None => Err(Error::IpfsApiUrlError),
    }
}

/// The `GET` request to `url`, where there is a URL.
fn plan(url: Result<String, Error>, body_use: BodyUse) -> (r: Result<Request, Error>)
    ensures
        plan_view(r) == planned(text_result(url), body_use),
{
    match url {
        Ok(url) => Ok(
            Request { method: Method::Get, url, content_type: None, timeout_secs: None, body_use },
        ),
        Err(e) => Err(e),
    }
}

/// The argument that names content by its identifier: `/ipfs/<identifier>`.
pub open spec fn content_arg(cid: ContentHashView) -> Seq<char> {
    "/ipfs/"@ + cid.text()
}

/// The argument that names content by its identifier.
fn content_argument(cid: &ContentHash) -> (r: String)
    ensures
        r@ == content_arg(cid@),
{
    let mut arg = String::from_str("/ipfs/");
    arg.append(cid.to_string().as_str());
    arg
}

/// Where `get` sends its request: to `api/v0/get` at the local daemon,
/// with the content as its argument, or, without a local daemon, to the
/// identifier at the public gateway.
pub open spec fn get_url(cid: ContentHashView, descriptor: Option<Seq<char>>) -> Result<
    Seq<char>,
    Error,
> {
    match local_base(descriptor) {
        Some(base) => built(and_pair(url_joined(base, "api/v0/get"@), "arg"@, content_arg(cid))),
        None => built(url_joined(public_gateway(), cid.text())),
    }
}

/// Plans the request that fetches content. The body of the answer is
/// handed to the caller as it arrives. The plan fails with
/// `IpfsApiUrlError` where the URL cannot be built: the `url` crate
/// refuses it, or the URL or its argument has more than `TEXT_LIMIT`
/// bytes.
pub fn get(cid: &ContentHash, descriptor: Option<&str>) -> (r: Result<Request, Error>)
    ensures
        plan_view(r) == planned(get_url(cid@, descriptor_view(descriptor)), BodyUse::Stream),
{
    let url = match ipfs_api_url(descriptor) {
        Ok(base) => extend(
            join(base.as_str(), "api/v0/get"),
            "arg",
            content_argument(cid).as_str(),
        ),
        Err(_) => join(PUBLIC_GATEWAY, cid.to_string().as_str()),
    };
    plan(build(url), BodyUse::Stream)
}

/// Where `resolve` sends its request: to `api/v0/resolve` at the local
/// daemon, with the path as its argument, or, without a local daemon, to
/// the path at the public gateway.
pub open spec fn resolve_url(path: IpfsPathView, descriptor: Option<Seq<char>>) -> Result<
    Seq<char>,
    Error,
> {
    match local_base(descriptor) {
        Some(base) => built(and_pair(url_joined(base, "api/v0/resolve"@), "arg"@, path.text())),
        None => built(url_joined(public_gateway(), path.text())),
    }
}

/// Plans the request that resolves a path to the identifier of its
/// content. The answer is JSON. The plan fails with `IpfsApiUrlError`
/// where the URL cannot be built: the `url` crate refuses it, or the URL
/// or the path has more than `TEXT_LIMIT` bytes.
pub fn resolve(path: &IpfsPath, descriptor: Option<&str>) -> (r: Result<Request, Error>)
    ensures
        plan_view(r) == planned(resolve_url(path@, descriptor_view(descriptor)), BodyUse::Json),
{
    let text = path.to_string();
    let url = match ipfs_api_url(descriptor) {
        Ok(base) => extend(join(base.as_str(), "api/v0/resolve"), "arg", text.as_str()),
        Err(_) => join(PUBLIC_GATEWAY, text.as_str()),
    };
    plan(build(url), BodyUse::Json)
}

/// Where `ls` sends its request: to `api/v0/ls` at the local daemon, with
/// the name as its argument. There is no listing without a local daemon.
pub open spec fn ls_url(name: Seq<char>, descriptor: Option<Seq<char>>) -> Result<
    Seq<char>,
    Error,
> {
    match local_base(descriptor) {
        Some(base) => built(and_pair(url_joined(base, "api/v0/ls"@), "arg"@, name)),
        None => Err(Error::LocalApiUnavailableError),
    }
}

/// Plans the request that lists what a name holds. The answer is JSON.
/// Without a local daemon the plan fails with `LocalApiUnavailableError`;
/// with one, it fails with `IpfsApiUrlError` where the URL cannot be
/// built: the `url` crate refuses it, or the URL or the name has more
/// than `TEXT_LIMIT` bytes.
pub fn ls(name: &str, descriptor: Option<&str>) -> (r: Result<Request, Error>)
    ensures
        plan_view(r) == planned(ls_url(name@, descriptor_view(descriptor)), BodyUse::Json),
{
    let url = match ipfs_api_url(descriptor) {
        Ok(base) => build(extend(join(base.as_str(), "api/v0/ls"), "arg", name)),
        Err(e) => Err(e),
    };
    plan(url, BodyUse::Json)
}

/// The text of a flag in a query.
pub open spec fn flag_text(flag: bool) -> Seq<char> {
    if flag {
        "true"@
    } else {
        "false"@
    }
}

/// Where `object_patch_link` sends its request: to
/// `api/v0/object/patch/add-link` at the local daemon, with the object to
/// change, the name of the link and the object to link as arguments, in
/// this order, and then the flag. There is no patching without a local
/// daemon.
pub open spec fn object_patch_link_url(
    modify_multihash: ContentHashView,
    name: ContentHashView,
    add_multihash: ContentHashView,
    create: bool,
    descriptor: Option<Seq<char>>,
) -> Result<Seq<char>, Error> {
    match local_base(descriptor) {
        Some(base) => built(
            and_pair(
                and_pair(
                    and_pair(
                        and_pair(
                            url_joined(base, "api/v0/object/patch/add-link"@),
                            "arg"@,
                            modify_multihash.text(),
                        ),
                        "arg"@,
                        name.text(),
                    ),
                    "arg"@,
                    add_multihash.text(),
                ),
                "create"@,
                flag_text(create),
            ),
        ),
        None => Err(Error::LocalApiUnavailableError),
    }
}

/// Plans the request that adds a link to an object. The answer is JSON.
/// Without a local daemon the plan fails with `LocalApiUnavailableError`;
/// with one, it fails with `IpfsApiUrlError` where the URL cannot be
/// built: the `url` crate refuses it, or the URL or one of its arguments
/// has more than `TEXT_LIMIT` bytes.
pub fn object_patch_link(
    modify_multihash: &ContentHash,
    name: &ContentHash,
    add_multihash: &ContentHash,
    create: bool,
    descriptor: Option<&str>,
) -> (r: Result<Request, Error>)
    ensures
        plan_view(r) == planned(
            object_patch_link_url(
                modify_multihash@,
                name@,
                add_multihash@,
                create,
                descriptor_view(descriptor),
            ),
            BodyUse::Json,
        ),
{
    let url = match ipfs_api_url(descriptor) {
        Ok(base) => {
            let url = join(base.as_str(), "api/v0/object/patch/add-link");
            let url = extend(url, "arg", modify_multihash.to_string().as_str());
            let url = extend(url, "arg", name.to_string().as_str());
            let url = extend(url, "arg", add_multihash.to_string().as_str());
            build(
                extend(
                    url,
                    "create",
                    if create {
                        "true"
                    } else {
                        "false"
                    },
                ),
            )
        },
        Err(e) => Err(e),
    };
    plan(url, BodyUse::Json)
}

/// A key of the daemon, under which names are published.
#[derive(Debug, PartialEq, Eq)]
pub struct Key {
    pub name: String,
    pub id: String,
}

/// Where `name_publish` sends its request: to `api/v0/name/publish` at the
/// local daemon, with the content as its argument and then the name of
/// the key, or, without a local daemon, to the identifier at the public
/// gateway.
pub open spec fn name_publish_url(
    cid: ContentHashView,
    key_name: Seq<char>,
    descriptor: Option<Seq<char>>,
) -> Result<Seq<char>, Error> {
    match local_base(descriptor) {
        Some(base) => built(
            and_pair(
                and_pair(url_joined(base, "api/v0/name/publish"@), "arg"@, content_arg(cid)),
                "key"@,
                key_name,
            ),
        ),
        None => built(url_joined(public_gateway(), cid.text())),
    }
}

/// Plans the request that publishes content under a key. The answer is
/// read as text. The plan fails with `IpfsApiUrlError` where the URL
/// cannot be built: the `url` crate refuses it, or the URL, its argument
/// or the name of the key has more than `TEXT_LIMIT` bytes.
pub fn name_publish(cid: &ContentHash, key: &Key, descriptor: Option<&str>) -> (r: Result<
    Request,
    Error,
>)
    ensures
        plan_view(r) == planned(
            name_publish_url(cid@, key.name@, descriptor_view(descriptor)),
            BodyUse::Text,
        ),
{
    let url = match ipfs_api_url(descriptor) {
        Ok(base) => {
            let url = join(base.as_str(), "api/v0/name/publish");
            let url = extend(url, "arg", content_argument(cid).as_str());
            extend(url, "key", key.name.as_str())
        },
        Err(_) => join(PUBLIC_GATEWAY, cid.to_string().as_str()),
    };
    plan(build(url), BodyUse::Text)
}

/// Where `key_list` sends its request: to `api/v0/key/list` at the local
/// daemon. There are no keys without a local daemon.
pub open spec fn key_list_url(descriptor: Option<Seq<char>>) -> Result<Seq<char>, Error> {
    match local_base(descriptor) {
        Some(base) => built(url_joined(base, "api/v0/key/list"@)),
        None => Err(Error::LocalApiUnavailableError),
    }
}

/// Plans the request that lists the keys of the daemon. The answer is
/// JSON. Without a local daemon the plan fails with
/// `LocalApiUnavailableError`; with one, it fails with `IpfsApiUrlError`
/// where the `url` crate refuses to build the URL.
pub fn key_list(descriptor: Option<&str>) -> (r: Result<Request, Error>)
    ensures
        plan_view(r) == planned(key_list_url(descriptor_view(descriptor)), BodyUse::Json),
{
    let url = match ipfs_api_url(descriptor) {
        Ok(base) => build(join(base.as_str(), "api/v0/key/list")),
        Err(e) => Err(e),
    };
    plan(url, BodyUse::Json)
}

/// `mime::MULTIPART_FORM_DATA` as text: `multipart/form-data`.
#[verifier::external_body]
fn form_data_type() -> (r: String)
    ensures
        r@ == "multipart/form-data"@,
{
    mime::MULTIPART_FORM_DATA.to_string()
}

/// The content type of a multipart body with `boundary`.
pub open spec fn form_data_with(boundary: Seq<char>) -> Seq<char> {
    "multipart/form-data"@ + "; boundary="@ + boundary
}

/// Where `add` sends its request: to `api/v0/add` at the local daemon.
/// There is no upload without a local daemon.
pub open spec fn add_url(descriptor: Option<Seq<char>>) -> Result<Seq<char>, Error> {
    match local_base(descriptor) {
        Some(base) => built(url_joined(base, "api/v0/add"@)),
        None => Err(Error::LocalApiUnavailableError),
    }
}

/// An upload: the request, and the encoder that frames the payload as
/// the body of that request.
pub struct Upload {
    pub request: Request,
    pub encoder: MultipartEncoder,
}

/// What an upload holds.
pub ghost struct UploadView {
    pub request: RequestView,
    pub encoder: EncoderView,
}

impl View for Upload {
    type V = UploadView;

    open spec fn view(&self) -> UploadView {
        UploadView { request: self.request@, encoder: self.encoder@ }
    }
}

/// The upload of a payload of the given length under `boundary`, where
/// there is a URL to send it to: a `POST` with the multipart content type,
/// ten minutes to complete and an answer in JSON, and an encoder that has
/// emitted nothing yet.
pub open spec fn planned_upload(
    url: Result<Seq<char>, Error>,
    length: Option<u64>,
    boundary: Seq<char>,
) -> Result<UploadView, Error> {
    match url {
        Ok(url) => Ok(
            UploadView {
                request: RequestView {
                    method: Method::Post,
                    url,
                    content_type: Some(form_data_with(boundary)),
                    timeout_secs: Some(ADD_TIMEOUT_SECS),
                    body_use: BodyUse::Json,
                },
                encoder: EncoderView {
                    length,
                    boundary,
                    stage: Stage::Start,
                    taken: Seq::<u8>::empty(),
                },
            },
        ),
        Err(e) => Err(e),
    }
}

/// What `add` returned, by what the upload holds.
pub open spec fn upload_view(r: Result<Upload, Error>) -> Result<UploadView, Error> {
    match r {
        Ok(upload) => Ok(upload@),
        Err(e) => Err(e),
    }
}

/// The upload to `url` of a payload of the given length under `boundary`.
fn upload_to(url: Result<String, Error>, length: Option<u64>, boundary: &str) -> (r: Result<
    Upload,
    Error,
>)
    ensures
        upload_view(r) == planned_upload(text_result(url), length, boundary@),
{
    match url {
        Ok(url) => {
            let mut content_type = form_data_type();
            content_type.append("; boundary=");
            content_type.append(boundary);
            Ok(
                Upload {
                    request: Request {
                        method: Method::Post,
                        url,
                        content_type: Some(content_type),
                        timeout_secs: Some(ADD_TIMEOUT_SECS),
                        body_use: BodyUse::Json,
                    },
                    encoder: MultipartEncoder::new(length, String::from_str(boundary)),
                },
            )
        },
        Err(e) => Err(e),
    }
}

/// Where `add` sends its request.
fn add_target(descriptor: Option<&str>) -> (r: Result<String, Error>)
    ensures
        text_result(r) == add_url(descriptor_view(descriptor)),
{
    match ipfs_api_url(descriptor) {
        Ok(base) => build(join(base.as_str(), "api/v0/add")),
        Err(e) => Err(e),
    }
}

/// Plans the upload of a payload under a boundary that the caller chose.
/// Without a local daemon the plan fails with `LocalApiUnavailableError`;
/// with one, it fails with `IpfsApiUrlError` where the `url` crate refuses
/// to build the URL.
pub fn add_with_boundary(length: Option<u64>, descriptor: Option<&str>, boundary: &str) -> (r:
    Result<Upload, Error>)
    ensures
        upload_view(r) == planned_upload(
            add_url(descriptor_view(descriptor)),
            length,
            boundary@,
        ),
{
    upload_to(add_target(descriptor), length, boundary)
}

/// Plans the upload of a payload whose length the caller may know: the
/// request, and the encoder for its body under a fresh boundary. Without
/// a local daemon the plan fails with `LocalApiUnavailableError`, and
/// where the `url` crate refuses to build the URL, with `IpfsApiUrlError`.
/// Otherwise the upload is planned unless the operating system gives no
/// entropy for the boundary.
pub fn add(length: Option<u64>, descriptor: Option<&str>) -> (r: Result<Upload, Error>)
    ensures
        match r {
            Ok(upload) => is_boundary(upload@.encoder.boundary) && Ok::<UploadView, Error>(upload@)
                == planned_upload(
                add_url(descriptor_view(descriptor)),
                length,
                upload@.encoder.boundary,
            ),
            Err(e) => match add_url(descriptor_view(descriptor)) {
                Err(cause) => e == cause,
                Ok(_) => e == Error::EntropyUnavailableError,
            },
        },
{
    match add_target(descriptor) {
        Ok(url) => match multipart_boundary() {
            Ok(boundary) => upload_to(Ok(url), length, boundary.as_str()),
            Err(e) => Err(e),
        },
        Err(e) => Err(e),
    }
}

/// Whether a status is in the success range, from 200 up to 299.
pub open spec fn is_success(status: u16) -> bool {
    200 <= status < 300
}

/// How sending a request went.
#[derive(Debug, Clone, Copy, PartialEq, Eq, Structural)]
pub enum Dispatch {
    /// The request could not be sent, or no answer came.
    Failed,
    /// The answer came, with this status.
    Answered(u16),
}

impl RequestView {
    /// What follows the dispatch of the request: a request that could not
    /// be sent ends the operation, and so does an answer with a status
    /// outside the success range, before anything is made of its body.
    /// Otherwise the body of the answer is used as the request says.
    pub open spec fn after_dispatch(self, event: Dispatch) -> Result<BodyUse, Error> {
        match event {
            Dispatch::Failed => Err(Error::IpfsApiSendRequestError),
            Dispatch::Answered(status) => if !is_success(status) {
                Err(Error::IpfsApiResponseError(status))
            } else {
                Ok(self.body_use)
            },
        }
    }
}

impl Request {
    /// The request with a limit of `secs` seconds on the time that it may
    /// take.
    pub fn with_timeout(self, secs: u64) -> (r: Request)
        ensures
            r@ == (RequestView { timeout_secs: Some(secs), ..self@ }),
    {
        Request {
            method: self.method,
            url: self.url,
            content_type: self.content_type,
            timeout_secs: Some(secs),
            body_use: self.body_use,
        }
    }

    /// Decides what follows the dispatch of the request: what to do with
    /// the body of the answer, or the error to stop with.
    pub fn on_dispatch(&self, event: Dispatch) -> (r: Result<BodyUse, Error>)
        ensures
            r == self@.after_dispatch(event),
    {
        match event {
            Dispatch::Failed => Err(Error::IpfsApiSendRequestError),
            Dispatch::Answered(status) => {
                if !(200 <= status && status < 300) {
                    Err(Error::IpfsApiResponseError(status))
                } else {
                    Ok(self.body_use)
                }
            },
        }
    }
}

/// The text that `String::from_utf8_lossy` makes of bytes: each sequence
/// that is not UTF-8 gives a replacement character.
pub uninterp spec fn lossy_text(bytes: Seq<u8>) -> Seq<char>;

/// `String::from_utf8_lossy`: it decodes all bytes, and UTF-8 as it is.
#[verifier::external_body]
fn decode_lossy(bytes: &Vec<u8>) -> (r: String)
    ensures
        r@ == lossy_text(bytes@),
        vstd::utf8::valid_utf8(bytes@) ==> r@ == vstd::utf8::decode_utf8(bytes@),
{
    String::from_utf8_lossy(bytes).into_owned()
}

/// The text of an answer: a body that could not be read ends the
/// operation, any other gives its text.
pub open spec fn text_of_body(body: Option<Seq<u8>>) -> Result<Seq<char>, Error> {
    match body {
        Some(bytes) => Ok(lossy_text(bytes)),
        None => Err(Error::IpfsApiPayloadError),
    }
}

/// Decodes the body of an answer as text, whatever bytes it holds.
/// `body` is `None` where the body could not be read.
pub fn text_body(body: Option<Vec<u8>>) -> (r: Result<String, Error>)
    ensures
        text_result(r) == text_of_body(chunk_view(body)),
        r matches Ok(text) ==> body matches Some(bytes) && (vstd::utf8::valid_utf8(bytes@) ==> text@
            == vstd::utf8::decode_utf8(bytes@)),
{
    match body {
        Some(bytes) => Ok(decode_lossy(&bytes)),
        None => Err(Error::IpfsApiPayloadError),
    }
}

/// The value that the body of an answer decodes to. `decoded` is `None`
/// where the body is not the JSON that the operation expects.
pub fn json_body<T>(decoded: Option<T>) -> (r: Result<T, Error>)
    ensures
        r == match decoded {
            Some(value) => Ok::<T, Error>(value),
            None => Err(Error::IpfsApiJsonPayloadError),
        },
{
    match decoded {
        Some(value) => Ok(value),
        None => Err(Error::IpfsApiJsonPayloadError),
    }
}

/// An answer to `get` with a status outside the success range ends the
/// operation with that status: no body is streamed.
pub proof fn lemma_get_stops_at_failure(
    cid: ContentHashView,
    descriptor: Option<Seq<char>>,
    status: u16,
)
    requires
        !is_success(status),
    ensures
        planned(get_url(cid, descriptor), BodyUse::Stream) matches Ok(request)
            ==> request.after_dispatch(Dispatch::Answered(status)) == Err::<BodyUse, Error>(
            Error::IpfsApiResponseError(status),
        ),
{
}

/// An answer to `add` with a status outside the success range ends the
/// operation with that status: nothing is decoded.
pub proof fn lemma_add_stops_at_failure(
    descriptor: Option<Seq<char>>,
    length: Option<u64>,
    boundary: Seq<char>,
    status: u16,
)
    requires
        !is_success(status),
    ensures
        planned_upload(add_url(descriptor), length, boundary) matches Ok(upload)
            ==> upload.request.after_dispatch(Dispatch::Answered(status)) == Err::<BodyUse, Error>(
            Error::IpfsApiResponseError(status),
        ),
{
}

/// An answer to `name_publish` with a status in the success range is read
/// as text, and the text comes about whatever bytes the body holds.
pub proof fn lemma_publish_text_never_fails(
    cid: ContentHashView,
    key_name: Seq<char>,
    descriptor: Option<Seq<char>>,
    status: u16,
    body: Seq<u8>,
)
    requires
        is_success(status),
    ensures
        planned(name_publish_url(cid, key_name, descriptor), BodyUse::Text) matches Ok(request)
            ==> request.after_dispatch(Dispatch::Answered(status)) == Ok::<BodyUse, Error>(
            BodyUse::Text,
        ),
        text_of_body(Some(body)) == Ok::<Seq<char>, Error>(lossy_text(body)),
{
}

} // verus!
