//! What is sent to the Kubernetes cluster: a challenge's parameters, read
//! from its `chall.yaml`, and the Service, Deployment and Secret objects
//! built from them.

use vstd::prelude::*;

use crate::json::{json_first, json_member, member_from, JsonValue, JsonView};
use crate::paths::{joined_path, path_of};
use crate::text::{chars_of, push_str, string_of};
use crate::yaml::deploy::{
    parse_deploy, spec_parse_deploy, DeployError, DeployErrorView, DeployOptions, DeployTarget, NetworkProtocol,
};
use crate::yaml::parse::{parse_yaml_document, parsed_yaml_document};
use crate::yaml::value::{
    get_type, mapping_get, mapping_lookup, spec_as_mapping, type_of, ValueType, YamlParseError,
};

verus! {

/// How one service of a challenge is run: what it exposes and how many
/// replicas run it.
#[derive(Debug, Clone, Copy)]
pub struct ChallengeParams {
    pub expose: NetworkProtocol,
    pub replicas: u8,
}

/// The services of a challenge: a web service, an admin bot, a netcat-style
/// service, each optional.
#[derive(Debug, Clone, Copy)]
pub struct Deploy {
    pub web: Option<ChallengeParams>,
    pub admin: Option<ChallengeParams>,
    pub nc: Option<ChallengeParams>,
}

/// What the cluster reads of a `chall.yaml`: its `deploy` entry.
#[derive(Debug, Clone, Copy)]
pub struct YamlFile {
    pub deploy: Deploy,
}

pub open spec fn params_of(target: Option<DeployTarget>) -> Option<ChallengeParams> {
    match target {
        Some(t) => Some(ChallengeParams { expose: t.expose, replicas: t.replicas }),
        None => None,
    }
}

pub open spec fn deploy_of(options: DeployOptions) -> Deploy {
    Deploy { web: params_of(options.web), admin: params_of(options.admin), nc: params_of(options.nc) }
}

fn to_params(target: Option<DeployTarget>) -> (r: Option<ChallengeParams>)
    ensures
        r == params_of(target),
{
    match target {
        Some(t) => Some(ChallengeParams { expose: t.expose, replicas: t.replicas }),
        None => None,
    }
}

/// How a `chall.yaml` can fail to give the challenge's parameters.
#[derive(Debug)]
pub enum ChallengeParamsError {
    /// The text is not YAML.
    Unparsable(YamlParseError),
    /// The document is not a mapping.
    NotMapping(ValueType),
    /// The document has no `deploy` entry.
    MissingDeploy,
    /// The `deploy` entry is wrong.
    BadDeploy(DeployError),
}

pub enum ChallengeParamsErrorView {
    Unparsable(Seq<char>),
    NotMapping(ValueType),
    MissingDeploy,
    BadDeploy(DeployErrorView),
}

impl View for ChallengeParamsError {
    type V = ChallengeParamsErrorView;

    open spec fn view(&self) -> ChallengeParamsErrorView {
        match self {
            ChallengeParamsError::Unparsable(e) => ChallengeParamsErrorView::Unparsable(e@),
            ChallengeParamsError::NotMapping(t) => ChallengeParamsErrorView::NotMapping(*t),
            ChallengeParamsError::MissingDeploy => ChallengeParamsErrorView::MissingDeploy,
            ChallengeParamsError::BadDeploy(e) => ChallengeParamsErrorView::BadDeploy(e@),
        }
    }
}

/// How a failure to read a `chall.yaml` is told to the operator: the YAML
/// parser's message, or what is wrong with the document.
pub open spec fn spec_params_message(e: ChallengeParamsErrorView) -> Seq<char> {
    match e {
        ChallengeParamsErrorView::Unparsable(m) => m,
        ChallengeParamsErrorView::NotMapping(t) => "chall.yaml should be a dictionary, not "@ + crate::yaml::value::value_type_text(t.type_enum) + "."@,
        ChallengeParamsErrorView::MissingDeploy => "missing field `deploy`"@,
        ChallengeParamsErrorView::BadDeploy(d) => crate::yaml::messages::spec_deploy_message(d),
    }
}

impl ChallengeParamsError {
    /// The error as told to the operator.
    pub fn message(&self) -> (r: String)
        ensures
            r@ == spec_params_message(self@),
    {
        match self {
            ChallengeParamsError::Unparsable(e) => string_of(chars_of(e.message.as_str()).as_slice()),
            ChallengeParamsError::NotMapping(t) => crate::yaml::messages::framed("chall.yaml should be a dictionary, not ", *t, "."),
            ChallengeParamsError::MissingDeploy => string_of(chars_of("missing field `deploy`").as_slice()),
            ChallengeParamsError::BadDeploy(d) => d.message(),
        }
    }
}

/// What a `chall.yaml` gives the cluster: the parsed document must be a
/// mapping with a `deploy` entry, read as the challenge description reads it.
pub open spec fn spec_read_yaml_file(text: Seq<char>) -> Result<YamlFile, ChallengeParamsErrorView> {
    match parsed_yaml_document(text) {
        Err(e) => Err(ChallengeParamsErrorView::Unparsable(e@)),
        Ok(document) => match spec_as_mapping(document) {
            None => Err(ChallengeParamsErrorView::NotMapping(type_of(document))),
            Some(entries) => match mapping_lookup(entries, "deploy"@) {
                None => Err(ChallengeParamsErrorView::MissingDeploy),
                Some(deploy) => match spec_parse_deploy(deploy) {
                    Err(e) => Err(ChallengeParamsErrorView::BadDeploy(e)),
                    Ok(options) => Ok(YamlFile { deploy: deploy_of(options) }),
                },
            },
        },
    }
}

/// Reads the parameters of a challenge from the text of its `chall.yaml`.
pub fn fetch_challenge_params(yaml_text: &str) -> (r: Result<YamlFile, ChallengeParamsError>)
    ensures
        match r {
            Ok(file) => spec_read_yaml_file(yaml_text@) == Ok::<YamlFile, ChallengeParamsErrorView>(file),
            Err(e) => spec_read_yaml_file(yaml_text@) == Err::<YamlFile, ChallengeParamsErrorView>(e@),
        },
{
    let document = match parse_yaml_document(yaml_text) {
        Ok(document) => document,
        Err(e) => return Err(ChallengeParamsError::Unparsable(e)),
    };
    let entries = match document.as_mapping() {
        Some(entries) => entries,
        None => return Err(ChallengeParamsError::NotMapping(get_type(&document))),
    };
    let deploy = match mapping_get(entries, "deploy") {
        Some(deploy) => deploy,
        None => return Err(ChallengeParamsError::MissingDeploy),
    };
    match parse_deploy(deploy) {
        Ok(options) => Ok(YamlFile {
            deploy: Deploy { web: to_params(options.web), admin: to_params(options.admin), nc: to_params(options.nc) },
        }),
        Err(e) => Err(ChallengeParamsError::BadDeploy(e)),
    }
}

/// Whether a challenge deploys an admin bot and nothing else, which is not
/// supported yet.
pub open spec fn admin_only(deploy: Deploy) -> bool {
    deploy.web is None && deploy.nc is None && deploy.admin is Some
}

/// Tells whether a challenge deploys an admin bot and nothing else. The
/// service for such a challenge cannot be chosen yet: [`choose_params`]
/// leaves it out, and its callers stop there.
pub fn is_admin_only(deploy: &Deploy) -> (r: bool)
    ensures
        r == admin_only(*deploy),
{
    deploy.web.is_none() && deploy.nc.is_none() && deploy.admin.is_some()
}

/// The service the cluster runs for a challenge: the web service if there is
/// one, else the netcat-style service; with neither, the description is
/// wrong.
pub open spec fn spec_choose_params(deploy: Deploy) -> Result<ChallengeParams, Seq<char>> {
    match deploy.web {
        Some(p) => Ok(p),
        None => match deploy.nc {
            Some(p) => Ok(p),
            None => Err("Error creating service schema, check yaml"@),
        },
    }
}

/// Picks the service to run. A challenge with only an admin bot is not
/// supported, and is left out.
pub fn choose_params(deploy: &Deploy) -> (r: Result<ChallengeParams, String>)
    requires
        !admin_only(*deploy),
    ensures
        match (r, spec_choose_params(*deploy)) {
            (Ok(p), Ok(q)) => p == q,
            (Err(e), Err(t)) => e@ == t,
            _ => false,
        },
{
    match deploy.web {
        Some(p) => Ok(p),
        None => match deploy.nc {
            Some(p) => Ok(p),
            None => Err(string_of(chars_of("Error creating service schema, check yaml").as_slice())),
        },
    }
}

/// The name of a challenge's service.
pub open spec fn spec_service_name(name: Seq<char>) -> Seq<char> {
    name + "-service"@
}

pub fn service_name(name: &str) -> (r: String)
    ensures
        r@ == spec_service_name(name@),
{
    let mut out = string_of(chars_of(name).as_slice());
    push_str(&mut out, "-service");
    out
}

pub open spec fn protocol_name(p: NetworkProtocol) -> Seq<char> {
    if p is Tcp { "TCP"@ } else { "UDP"@ }
}

/// The Service object of a challenge: a node port that forwards the exposed
/// port to the challenge's pods.
pub open spec fn spec_service_schema(name: Seq<char>, params: ChallengeParams) -> JsonView {
    let service = spec_service_name(name);
    let port = JsonView::UInt(params.expose.spec_port() as u64);
    JsonView::Object(seq![
        ("apiVersion"@, JsonView::Str("v1"@)),
        ("kind"@, JsonView::Str("Service"@)),
        ("metadata"@, JsonView::Object(seq![
            ("name"@, JsonView::Str(service)),
            ("labels"@, JsonView::Object(seq![("app"@, JsonView::Str(service))])),
        ])),
        ("spec"@, JsonView::Object(seq![
            ("ports"@, JsonView::Array(seq![JsonView::Object(seq![
                ("port"@, port),
                ("targetPort"@, port),
                ("protocol"@, JsonView::Str(protocol_name(params.expose))),
            ])])),
            ("selector"@, JsonView::Object(seq![("app"@, JsonView::Str(name))])),
            ("type"@, JsonView::Str("NodePort"@)),
        ])),
    ])
}

pub fn create_schema_service(name: &str, params: &ChallengeParams) -> (r: JsonValue)
    ensures
        r@ == spec_service_schema(name@, *params),
{
    let service = service_name(name);
    let port = params.expose.port() as u64;
    let metadata = JsonValue::pair(
        "name", JsonValue::string(service.as_str()),
        "labels", JsonValue::single("app", JsonValue::string(service.as_str())),
    );
    let port_entry = JsonValue::triple(
        "port", JsonValue::UInt(port),
        "targetPort", JsonValue::UInt(port),
        "protocol", JsonValue::string(params.expose.protocol()),
    );
    let spec = JsonValue::triple(
        "ports", JsonValue::one_item(port_entry),
        "selector", JsonValue::single("app", JsonValue::string(name)),
        "type", JsonValue::string("NodePort"),
    );
    JsonValue::quad(
        "apiVersion", JsonValue::string("v1"),
        "kind", JsonValue::string("Service"),
        "metadata", metadata,
        "spec", spec,
    )
}

/// The image of a challenge on the registry.
pub open spec fn spec_registry_image(registry_url: Seq<char>, name: Seq<char>) -> Seq<char> {
    joined_path(seq![registry_url, name])
}

/// The Deployment object of a challenge: its replicas, each running the
/// challenge's image from the registry with the exposed port open, pulled
/// with the registry credentials.
pub open spec fn spec_deployment_schema(name: Seq<char>, params: ChallengeParams, registry_url: Seq<char>) -> JsonView {
    let app = JsonView::Object(seq![("app"@, JsonView::Str(name))]);
    JsonView::Object(seq![
        ("apiVersion"@, JsonView::Str("apps/v1"@)),
        ("kind"@, JsonView::Str("Deployment"@)),
        ("metadata"@, JsonView::Object(seq![("name"@, JsonView::Str(name)), ("labels"@, app)])),
        ("spec"@, JsonView::Object(seq![
            ("replicas"@, JsonView::UInt(params.replicas as u64)),
            ("selector"@, JsonView::Object(seq![("matchLabels"@, app)])),
            ("template"@, JsonView::Object(seq![
                ("metadata"@, JsonView::Object(seq![("labels"@, app)])),
                ("spec"@, JsonView::Object(seq![
                    ("containers"@, JsonView::Array(seq![JsonView::Object(seq![
                        ("name"@, JsonView::Str(name)),
                        ("image"@, JsonView::Str(spec_registry_image(registry_url, name))),
                        ("imagePullPolicy"@, JsonView::Str("Always"@)),
                        ("ports"@, JsonView::Array(seq![JsonView::Object(seq![
                            ("containerPort"@, JsonView::UInt(params.expose.spec_port() as u64)),
                            ("protocol"@, JsonView::Str(protocol_name(params.expose))),
                        ])])),
                    ])])),
                    ("imagePullSecrets"@, JsonView::Array(seq![JsonView::Object(seq![
                        ("name"@, JsonView::Str("container-registry-credentials"@)),
                    ])])),
                ])),
            ])),
        ])),
    ])
}

fn app_label(name: &str) -> (r: JsonValue)
    ensures
        r@ == JsonView::Object(seq![("app"@, JsonView::Str(name@))]),
{
    JsonValue::single("app", JsonValue::string(name))
}

pub fn create_schema_deployment(name: &str, chall_params: &ChallengeParams, registry_url: &str) -> (r: JsonValue)
    ensures
        r@ == spec_deployment_schema(name@, *chall_params, registry_url@),
{
    let parts: [&str; 2] = [registry_url, name];
    let image = path_of(parts.as_slice());
    assert(parts@.map_values(|p: &str| p@) =~= seq![registry_url@, name@]);

    let port_entry = JsonValue::pair(
        "containerPort", JsonValue::UInt(chall_params.expose.port() as u64),
        "protocol", JsonValue::string(chall_params.expose.protocol()),
    );
    let container = JsonValue::quad(
        "name", JsonValue::string(name),
        "image", JsonValue::Str(image),
        "imagePullPolicy", JsonValue::string("Always"),
        "ports", JsonValue::one_item(port_entry),
    );
    let pod_spec = JsonValue::pair(
        "containers", JsonValue::one_item(container),
        "imagePullSecrets", JsonValue::one_item(JsonValue::single("name", JsonValue::string("container-registry-credentials"))),
    );
    let template = JsonValue::pair(
        "metadata", JsonValue::single("labels", app_label(name)),
        "spec", pod_spec,
    );
    let spec = JsonValue::triple(
        "replicas", JsonValue::UInt(chall_params.replicas as u64),
        "selector", JsonValue::single("matchLabels", app_label(name)),
        "template", template,
    );
    let metadata = JsonValue::pair("name", JsonValue::string(name), "labels", app_label(name));
    JsonValue::quad(
        "apiVersion", JsonValue::string("apps/v1"),
        "kind", JsonValue::string("Deployment"),
        "metadata", metadata,
        "spec", spec,
    )
}

/// The digit of a six-bit value in the standard base64 alphabet: `A`-`Z`,
/// `a`-`z`, `0`-`9`, `+`, `/`.
pub open spec fn base64_digit(v: int) -> char {
    if v < 26 {
        (65 + v) as char
    } else if v < 52 {
        (97 + (v - 26)) as char
    } else if v < 62 {
        (48 + (v - 52)) as char
    } else if v == 62 {
        '+'
    } else {
        '/'
    }
}

/// Base64 of bytes, standard alphabet, padded: every three bytes give four
/// digits of six bits each; a last one or two bytes give two or three digits
/// (the missing bits zero), then `=` up to four.
pub open spec fn base64_of_bytes(b: Seq<u8>) -> Seq<char>
    decreases b.len(),
{
    if b.len() == 0 {
        Seq::empty()
    } else if b.len() == 1 {
        seq![base64_digit(b[0] as int / 4), base64_digit((b[0] as int % 4) * 16), '=', '=']
    } else if b.len() == 2 {
        seq![
            base64_digit(b[0] as int / 4),
            base64_digit((b[0] as int % 4) * 16 + b[1] as int / 16),
            base64_digit((b[1] as int % 16) * 4),
            '=',
        ]
    } else {
        seq![
            base64_digit(b[0] as int / 4),
            base64_digit((b[0] as int % 4) * 16 + b[1] as int / 16),
            base64_digit((b[1] as int % 16) * 4 + b[2] as int / 64),
            base64_digit(b[2] as int % 64),
        ] + base64_of_bytes(b.skip(3))
    }
}

/// The standard base64 encoding of a text's UTF-8 bytes, with padding.
pub open spec fn base64_of(text: Seq<char>) -> Seq<char> {
    base64_of_bytes(vstd::utf8::encode_utf8(text))
}

/// Calls `base64::encode`, which encodes the text's UTF-8 bytes in base64 with
/// the standard alphabet and padding (its `STANDARD` engine).
#[verifier::external_body]
#[allow(deprecated)]
fn base64_encode(text: &str) -> (r: String)
    ensures
        r@ == base64_of(text@),
{
    base64::encode(text)
}

/// The Docker configuration that lets the cluster log in to the registry.
pub open spec fn spec_dockerconfig(registry_url: Seq<char>, username: Seq<char>, password: Seq<char>) -> Seq<char> {
    "{\"auths\":{\""@ + registry_url + "\":{\"username\":\""@ + username + "\",\"password\":\""@ + password
        + "\",\"auth\":\""@ + base64_of(username + ":"@ + password) + "\"}}}"@
}

pub fn dockerconfig(registry_url: &str, username: &str, password: &str) -> (r: String)
    ensures
        r@ == spec_dockerconfig(registry_url@, username@, password@),
{
    let mut credentials = string_of(chars_of(username).as_slice());
    push_str(&mut credentials, ":");
    push_str(&mut credentials, password);
    let encoded = base64_encode(credentials.as_str());

    let mut out = string_of(chars_of("{\"auths\":{\"").as_slice());
    push_str(&mut out, registry_url);
    push_str(&mut out, "\":{\"username\":\"");
    push_str(&mut out, username);
    push_str(&mut out, "\",\"password\":\"");
    push_str(&mut out, password);
    push_str(&mut out, "\",\"auth\":\"");
    push_str(&mut out, encoded.as_str());
    push_str(&mut out, "\"}}}");
    out
}

/// The Secret object that holds the registry credentials, base64-encoded.
pub open spec fn spec_registry_secret(registry_url: Seq<char>, username: Seq<char>, password: Seq<char>) -> JsonView {
    JsonView::Object(seq![
        ("apiVersion"@, JsonView::Str("v1"@)),
        ("data"@, JsonView::Object(seq![
            (".dockerconfigjson"@, JsonView::Str(base64_of(spec_dockerconfig(registry_url, username, password)))),
        ])),
        ("kind"@, JsonView::Str("Secret"@)),
        ("metadata"@, JsonView::Object(seq![
            ("name"@, JsonView::Str("container-registry-credentials"@)),
            ("namespace"@, JsonView::Str("default"@)),
        ])),
        ("type"@, JsonView::Str("kubernetes.io/dockerconfigjson"@)),
    ])
}

pub fn generate_registry_secret(registry_url: &str, username: &str, password: &str) -> (r: JsonValue)
    ensures
        r@ == spec_registry_secret(registry_url@, username@, password@),
{
    let config = dockerconfig(registry_url, username, password);
    let encoded = base64_encode(config.as_str());
    JsonValue::quint(
        "apiVersion", JsonValue::string("v1"),
        "data", JsonValue::single(".dockerconfigjson", JsonValue::Str(encoded)),
        "kind", JsonValue::string("Secret"),
        "metadata", JsonValue::pair(
            "name", JsonValue::string("container-registry-credentials"),
            "namespace", JsonValue::string("default"),
        ),
        "type", JsonValue::string("kubernetes.io/dockerconfigjson"),
    )
}

/// The port a created service listens on outside the cluster: the node port
/// of its first port. `spec` is the service's spec, if any; in it, the node
/// port of each of its ports, if it has a port list.
pub open spec fn spec_service_port(spec: Option<Option<Seq<Option<i32>>>>) -> Result<i32, Seq<char>> {
    match spec {
        None => Err("No service spec found"@),
        Some(None) => Err("Error retrieving service ports"@),
        Some(Some(ports)) => match ports[0] {
            Some(port) => Ok(port),
            None => Err("Error retrieving service node_port"@),
        },
    }
}

pub open spec fn node_ports_view(spec: Option<Option<Vec<Option<i32>>>>) -> Option<Option<Seq<Option<i32>>>> {
    match spec {
        None => None,
        Some(None) => Some(None),
        Some(Some(ports)) => Some(Some(ports@)),
    }
}

/// Reads the outside port of a created service. A port list that is there
/// but empty is left out.
pub fn service_port(spec: Option<Option<Vec<Option<i32>>>>) -> (r: Result<i32, String>)
    requires
        spec matches Some(Some(ports)) ==> ports@.len() > 0,
    ensures
        match (r, spec_service_port(node_ports_view(spec))) {
            (Ok(p), Ok(q)) => p == q,
            (Err(e), Err(t)) => e@ == t,
            _ => false,
        },
{
    match spec {
        None => Err(string_of(chars_of("No service spec found").as_slice())),
        Some(None) => Err(string_of(chars_of("Error retrieving service ports").as_slice())),
        Some(Some(ports)) => match ports[0] {
            Some(port) => Ok(port),
            None => Err(string_of(chars_of("Error retrieving service node_port").as_slice())),
        },
    }
}

/// How the deletion of a secret is judged: the cluster must answer with a
/// status, and the status must be a success. `status_success` is none where
/// no status came back, else whether it says success.
pub open spec fn spec_secret_deletion(status_success: Option<bool>) -> Result<Seq<char>, Seq<char>> {
    match status_success {
        Some(true) => Ok("Successfully deleted secret"@),
        _ => Err("Error deleting secret"@),
    }
}

pub fn delete_secret_outcome(status_success: Option<bool>) -> (r: Result<String, String>)
    ensures
        match (r, spec_secret_deletion(status_success)) {
            (Ok(m), Ok(t)) => m@ == t,
            (Err(m), Err(t)) => m@ == t,
            _ => false,
        },
{
    match status_success {
        Some(true) => Ok(string_of(chars_of("Successfully deleted secret").as_slice())),
        _ => Err(string_of(chars_of("Error deleting secret").as_slice())),
    }
}

/// The port a Deployment's first container opens.
pub open spec fn container_port(deployment: JsonView) -> Option<JsonView> {
    json_first(json_member(json_first(json_member(json_member(json_member(json_member(
        Some(deployment), "spec"@), "template"@), "spec"@), "containers"@)), "ports"@))
}

/// The first port a Service forwards.
pub open spec fn service_port_entry(service: JsonView) -> Option<JsonView> {
    json_first(json_member(json_member(Some(service), "spec"@), "ports"@))
}

/// A challenge's pods open the port its Service forwards to, with the same
/// protocol: the exposed port, by `TCP` for a TCP exposure and by `UDP` for
/// a UDP one.
pub proof fn lemma_deployment_port_matches_service(name: Seq<char>, params: ChallengeParams, registry_url: Seq<char>)
    ensures
        json_member(container_port(spec_deployment_schema(name, params, registry_url)), "protocol"@)
            == json_member(service_port_entry(spec_service_schema(name, params)), "protocol"@),
        json_member(container_port(spec_deployment_schema(name, params, registry_url)), "protocol"@)
            == Some(JsonView::Str(match params.expose {
                NetworkProtocol::Tcp(_) => "TCP"@,
                NetworkProtocol::Udp(_) => "UDP"@,
            })),
        json_member(container_port(spec_deployment_schema(name, params, registry_url)), "containerPort"@)
            == json_member(service_port_entry(spec_service_schema(name, params)), "targetPort"@),
        json_member(container_port(spec_deployment_schema(name, params, registry_url)), "containerPort"@)
            == Some(JsonView::UInt(params.expose.spec_port() as u64)),
{
    reveal_with_fuel(member_from, 6);
    reveal_strlit("apiVersion");
    reveal_strlit("kind");
    reveal_strlit("metadata");
    reveal_strlit("spec");
    reveal_strlit("replicas");
    reveal_strlit("selector");
    reveal_strlit("template");
    reveal_strlit("containers");
    reveal_strlit("name");
    reveal_strlit("image");
    reveal_strlit("imagePullPolicy");
    reveal_strlit("ports");
    reveal_strlit("containerPort");
    reveal_strlit("protocol");
    reveal_strlit("port");
    reveal_strlit("targetPort");
    reveal_strlit("TCP");
    reveal_strlit("v1");
    reveal_strlit("UDP");
    assert("apiVersion"@ != "spec"@) by {
        assert("apiVersion"@.len() != "spec"@.len());
    }
    assert("metadata"@ != "spec"@) by {
        assert("metadata"@.len() != "spec"@.len());
    }
    assert("port"@ != "protocol"@) by {
        assert("port"@.len() != "protocol"@.len());
    }
    assert("targetPort"@ != "protocol"@) by {
        assert("targetPort"@.len() != "protocol"@.len());
    }
    assert("port"@ != "targetPort"@) by {
        assert("port"@.len() != "targetPort"@.len());
    }
    assert("name"@ != "ports"@) by {
        assert("name"@.len() != "ports"@.len());
    }
    assert("imagePullPolicy"@ != "ports"@) by {
        assert("imagePullPolicy"@.len() != "ports"@.len());
    }
    assert("containerPort"@ != "protocol"@) by {
        assert("containerPort"@.len() != "protocol"@.len());
    }
    assert("kind"@ != "spec"@) by {
        assert("kind"@[0] != "spec"@[0]);
    }
    assert("replicas"@ != "template"@) by {
        assert("replicas"@[0] != "template"@[0]);
    }
    assert("selector"@ != "template"@) by {
        assert("selector"@[0] != "template"@[0]);
    }
    assert("image"@ != "ports"@) by {
        assert("image"@[0] != "ports"@[0]);
    }
}

} // verus!
