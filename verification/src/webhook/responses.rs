//! Responses of the deployment server.
//!
//! Status codes:
//! - 200: request received successfully;
//! - 404: the endpoint does not exist;
//! - 440: the polling ID is already registered; 441: it is not registered;
//! - 450 + subcode: the deploy process failed through the request's fault;
//! - 510: the Docker client failed; 511: the Kubernetes client failed;
//! - 550 + subcode: the deploy process failed through the server's fault;
//! - 500: an unknown internal error.

use vstd::prelude::*;

use crate::json::{single_member, JsonValue, JsonView};
use crate::webhook::polling::{spec_polling_id_text, PollingId};

verus! {

/// A response code and its explanation.
#[derive(Debug, Clone, Copy)]
pub struct StatusCode {
    code: u64,
    message: &'static str,
}

pub struct StatusCodeView {
    pub code: u64,
    pub message: Seq<char>,
}

impl View for StatusCode {
    type V = StatusCodeView;

    closed spec fn view(&self) -> StatusCodeView {
        StatusCodeView { code: self.code, message: self.message@ }
    }
}

pub open spec fn status(code: u64, message: Seq<char>) -> StatusCodeView {
    StatusCodeView { code, message }
}

impl StatusCode {
    pub fn code(&self) -> (r: u64)
        ensures
            r == self@.code,
    {
        self.code
    }

    pub fn message(&self) -> (r: &'static str)
        ensures
            r@ == self@.message,
    {
        self.message
    }

    pub fn success() -> (r: StatusCode)
        ensures
            r@ == status(200, "Request received successfully"@),
    {
        StatusCode { code: 200, message: "Request received successfully" }
    }

    pub fn endpoint_no_exist_err() -> (r: StatusCode)
        ensures
            r@ == status(404, "Endpoint is not set up on the server"@),
    {
        StatusCode { code: 404, message: "Endpoint is not set up on the server" }
    }

    pub fn pollid_already_exists_err() -> (r: StatusCode)
        ensures
            r@ == status(440, "Polling ID already exists"@),
    {
        StatusCode { code: 440, message: "Polling ID already exists" }
    }

    pub fn pollid_inval_noexists_err() -> (r: StatusCode)
        ensures
            r@ == status(441, "Polling ID is unregistered"@),
    {
        StatusCode { code: 441, message: "Polling ID is unregistered" }
    }

    pub fn docker_login_err() -> (r: StatusCode)
        ensures
            r@ == status(510, "Failure initializing Docker client"@),
    {
        StatusCode { code: 510, message: "Failure initializing Docker client" }
    }

    pub fn k8scli_login_err() -> (r: StatusCode)
        ensures
            r@ == status(511, "Failure initializing Kubernetes client"@),
    {
        StatusCode { code: 511, message: "Failure initializing Kubernetes client" }
    }

    pub fn unknown_ise() -> (r: StatusCode)
        ensures
            r@ == status(500, "Unknown internal server error"@),
    {
        StatusCode { code: 500, message: "Unknown internal server error" }
    }

    /// A failure of the deploy process that is the server's fault: 550 + subcode.
    pub fn server_deploy_process_err(subcode: u64, message: &'static str) -> (r: StatusCode)
        requires
            subcode <= u64::MAX - 550,
        ensures
            r@ == status((550 + subcode) as u64, message@),
    {
        StatusCode { code: 550 + subcode, message }
    }

    /// A failure of the deploy process that is the request's fault: 450 + subcode.
    pub fn req_deploy_process_err(subcode: u64, message: &'static str) -> (r: StatusCode)
        requires
            subcode <= u64::MAX - 450,
        ensures
            r@ == status((450 + subcode) as u64, message@),
    {
        StatusCode { code: 450 + subcode, message }
    }

    pub fn custom(code: u64, message: &'static str) -> (r: StatusCode)
        ensures
            r@ == status(code, message@),
    {
        StatusCode { code, message }
    }
}

/// The request a response answers.
#[derive(Debug)]
pub struct Metadata {
    polling_id: PollingId,
    chall_name: String,
    endpoint_name: String,
    other_data: Option<JsonValue>,
}

pub struct MetadataView {
    pub polling_id: PollingId,
    pub chall_name: Seq<char>,
    pub endpoint_name: Seq<char>,
    pub other_data: Option<JsonView>,
}

pub open spec fn optional_json_view(o: Option<JsonValue>) -> Option<JsonView> {
    match o {
        Some(j) => Some(j@),
        None => None,
    }
}

impl View for Metadata {
    type V = MetadataView;

    closed spec fn view(&self) -> MetadataView {
        MetadataView {
            polling_id: self.polling_id,
            chall_name: self.chall_name@,
            endpoint_name: self.endpoint_name@,
            other_data: optional_json_view(self.other_data),
        }
    }
}

/// The Unicode uppercase form of a text.
pub uninterp spec fn uppercase(s: Seq<char>) -> Seq<char>;

/// Calls `str::to_uppercase`; the claim is that the result depends on the
/// text alone (named [`uppercase`]).
#[verifier::external_body]
fn to_uppercase(s: &str) -> (r: String)
    ensures
        r@ == uppercase(s@),
{
    s.to_uppercase()
}

/// A request to the deployment server: the endpoint, the deployment it is
/// about, and the challenge.
#[derive(Debug)]
pub struct Deploy {
    _type: String,
    deploy_identifier: PollingId,
    chall_name: String,
}

impl Deploy {
    pub fn new(_type: String, deploy_identifier: PollingId, chall_name: String) -> (r: Deploy)
        ensures
            r.endpoint()@ == _type@,
            r.identifier() == deploy_identifier,
            r.challenge()@ == chall_name@,
    {
        Deploy { _type, deploy_identifier, chall_name }
    }

    pub closed spec fn endpoint(&self) -> String {
        self._type
    }

    pub closed spec fn identifier(&self) -> PollingId {
        self.deploy_identifier
    }

    pub closed spec fn challenge(&self) -> String {
        self.chall_name
    }

    /// The endpoint as the request named it.
    pub fn endpoint_type(&self) -> (r: &str)
        ensures
            r@ == self.endpoint()@,
    {
        self._type.as_str()
    }

    pub fn deploy_identifier(&self) -> (r: PollingId)
        ensures
            r == self.identifier(),
    {
        self.deploy_identifier
    }
}

impl Metadata {
    /// The metadata of a request: its endpoint name is upper-cased, and it
    /// carries no data yet.
    pub fn from_deploy(deploy_input: &Deploy) -> (r: Metadata)
        ensures
            r@ == (MetadataView {
                polling_id: deploy_input.identifier(),
                chall_name: deploy_input.challenge()@,
                endpoint_name: uppercase(deploy_input.endpoint()@),
                other_data: None,
            }),
    {
        Metadata {
            polling_id: deploy_input.deploy_identifier,
            chall_name: deploy_input.chall_name.clone(),
            endpoint_name: to_uppercase(deploy_input._type.as_str()),
            other_data: None,
        }
    }

    pub fn poll_id(&self) -> (r: PollingId)
        ensures
            r == self@.polling_id,
    {
        self.polling_id
    }

    pub fn chall_name(&self) -> (r: &String)
        ensures
            r@ == self@.chall_name,
    {
        &self.chall_name
    }

    pub fn endpoint_name(&self) -> (r: &String)
        ensures
            r@ == self@.endpoint_name,
    {
        &self.endpoint_name
    }

    pub fn other_data(&self) -> (r: Option<&JsonValue>)
        ensures
            match r {
                Some(j) => self@.other_data == Some(j@),
                None => self@.other_data is None,
            },
    {
        match &self.other_data {
            Some(j) => Some(j),
            None => None,
        }
    }

    /// A copy of the metadata.
    pub fn duplicate(&self) -> (r: Metadata)
        ensures
            r@ == self@,
    {
        Metadata {
            polling_id: self.polling_id,
            chall_name: self.chall_name.clone(),
            endpoint_name: self.endpoint_name.clone(),
            other_data: match &self.other_data {
                Some(j) => Some(j.duplicate()),
                None => None,
            },
        }
    }

    /// The same metadata with other data attached.
    pub fn with_other_data(self, other_data: Option<JsonValue>) -> (r: Metadata)
        ensures
            r@ == (MetadataView { other_data: optional_json_view(other_data), ..self@ }),
    {
        Metadata { other_data, ..self }
    }
}

/// A response of the deployment server.
#[derive(Debug)]
pub struct Response {
    pub meta: Metadata,
    pub internal_code: StatusCode,
}

pub struct ResponseView {
    pub meta: MetadataView,
    pub internal_code: StatusCodeView,
}

impl View for Response {
    type V = ResponseView;

    open spec fn view(&self) -> ResponseView {
        ResponseView { meta: self.meta@, internal_code: self.internal_code@ }
    }
}

/// A response about the request described by `meta`, with other data and a status.
pub open spec fn response_view(meta: MetadataView, other_data: Option<JsonView>, code: StatusCodeView) -> ResponseView {
    ResponseView { meta: MetadataView { other_data, ..meta }, internal_code: code }
}

impl Response {
    pub fn duplicate(&self) -> (r: Response)
        ensures
            r@ == self@,
    {
        Response { meta: self.meta.duplicate(), internal_code: self.internal_code }
    }

    /// 200: success, with the given data.
    pub fn success(meta: Metadata, other_data: Option<JsonValue>) -> (r: Response)
        ensures
            r@ == response_view(meta@, optional_json_view(other_data), status(200, "Request received successfully"@)),
    {
        Response { meta: meta.with_other_data(other_data), internal_code: StatusCode::success() }
    }

    /// 404: the endpoint does not exist; the data names it.
    pub fn endpoint_err(bad_endpoint: &str, meta: Metadata) -> (r: Response)
        ensures
            r@ == response_view(
                meta@,
                Some(single_member("bad_endpoint"@, JsonView::Str(bad_endpoint@))),
                status(404, "Endpoint is not set up on the server"@),
            ),
    {
        let data = JsonValue::single("bad_endpoint", JsonValue::string(bad_endpoint));
        Response { meta: meta.with_other_data(Some(data)), internal_code: StatusCode::endpoint_no_exist_err() }
    }

    /// 441: the polling ID is not registered; the data names it.
    pub fn poll_id_doesnt_exist(poll_id: PollingId, meta: Metadata) -> (r: Response)
        ensures
            r@ == response_view(
                meta@,
                Some(single_member("unknown_poll_id"@, JsonView::Str(spec_polling_id_text(poll_id)))),
                status(441, "Polling ID is unregistered"@),
            ),
    {
        let text = poll_id.to_text();
        let data = JsonValue::single("unknown_poll_id", JsonValue::Str(text));
        Response { meta: meta.with_other_data(Some(data)), internal_code: StatusCode::pollid_inval_noexists_err() }
    }

    /// 440: the polling ID is already registered; the data names it and gives
    /// the state of the deployment that holds it (as reported when polled).
    pub fn poll_id_already_in_use(poll_id: PollingId, status_of_in_use: JsonValue, meta: Metadata) -> (r: Response)
        ensures
            r@ == response_view(
                meta@,
                Some(JsonView::Object(seq![
                    ("in_use_poll_id"@, JsonView::Str(spec_polling_id_text(poll_id))),
                    ("status_of_in_use"@, status_of_in_use@),
                ])),
                status(440, "Polling ID already exists"@),
            ),
    {
        let text = poll_id.to_text();
        let mut members: Vec<(String, JsonValue)> = Vec::new();
        members.push(("in_use_poll_id".to_owned(), JsonValue::Str(text)));
        members.push(("status_of_in_use".to_owned(), status_of_in_use));
        proof {
            crate::json::lemma_json_members_view(members@);
            assert(crate::json::json_members_view(members@) =~= seq![
                ("in_use_poll_id"@, JsonView::Str(spec_polling_id_text(poll_id))),
                ("status_of_in_use"@, status_of_in_use@),
            ]);
        }
        let data = JsonValue::Object(members);
        Response { meta: meta.with_other_data(Some(data)), internal_code: StatusCode::pollid_already_exists_err() }
    }

    /// 510: the Docker client failed; the data gives the error.
    pub fn docker_login_err(err: &str, meta: Metadata) -> (r: Response)
        ensures
            r@ == response_view(
                meta@,
                Some(single_member("docker_error"@, JsonView::Str(err@))),
                status(510, "Failure initializing Docker client"@),
            ),
    {
        let data = JsonValue::single("docker_error", JsonValue::string(err));
        Response { meta: meta.with_other_data(Some(data)), internal_code: StatusCode::docker_login_err() }
    }

    /// 511: the Kubernetes client failed; the data gives the error.
    pub fn k8s_login_err(err: &str, meta: Metadata) -> (r: Response)
        ensures
            r@ == response_view(
                meta@,
                Some(single_member("k8s_error"@, JsonView::Str(err@))),
                status(511, "Failure initializing Kubernetes client"@),
            ),
    {
        let data = JsonValue::single("k8s_error", JsonValue::string(err));
        Response { meta: meta.with_other_data(Some(data)), internal_code: StatusCode::k8scli_login_err() }
    }

    /// 550 + subcode: the deploy process failed through the server's fault.
    pub fn server_deploy_process_err(subcode: u64, message: &'static str, other_data: Option<JsonValue>, meta: Metadata) -> (r: Response)
        requires
            subcode <= u64::MAX - 550,
        ensures
            r@ == response_view(meta@, optional_json_view(other_data), status((550 + subcode) as u64, message@)),
    {
        Response {
            meta: meta.with_other_data(other_data),
            internal_code: StatusCode::server_deploy_process_err(subcode, message),
        }
    }

    /// A response with the metadata as given and any status.
    pub fn custom(meta: Metadata, status_code: StatusCode) -> (r: Response)
        ensures
            r@ == (ResponseView { meta: meta@, internal_code: status_code@ }),
    {
        Response { meta, internal_code: status_code }
    }

    /// 500: an unknown internal error; the data describes it.
    pub fn ise(description: &str, meta: Metadata) -> (r: Response)
        ensures
            r@ == response_view(
                meta@,
                Some(single_member("description"@, JsonView::Str(description@))),
                status(500, "Unknown internal server error"@),
            ),
    {
        let data = JsonValue::single("description", JsonValue::string(description));
        Response { meta: meta.with_other_data(Some(data)), internal_code: StatusCode::unknown_ise() }
    }
}

} // verus!
