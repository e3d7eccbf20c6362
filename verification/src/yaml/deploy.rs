//! How a challenge is deployed: the network services it exposes.

use vstd::prelude::*;

use crate::decimal::{decimal_chars, decimal_digits, lemma_decimal_digits_value, parse_u32, spec_parse_u32};
use crate::text::{chars_eq, chars_of, find_char, first_index_of, lemma_first_index_of, push_str, string_of, sub_chars};
use crate::yaml::value::{
    get_type, mapping_get, mapping_lookup, spec_as_mapping, spec_as_str, spec_as_u64, type_of,
    untag, ValueType, YamlValue,
};

verus! {

/// A network port and the transport protocol served on it.
#[derive(Debug, Clone, Copy, PartialEq, Eq)]
pub enum NetworkProtocol {
    Tcp(u32),
    Udp(u32),
}

impl NetworkProtocol {
    pub open spec fn spec_port(self) -> u32 {
        match self {
            NetworkProtocol::Tcp(n) => n,
            NetworkProtocol::Udp(n) => n,
        }
    }

    pub fn port(&self) -> (r: u32)
        ensures
            r == self.spec_port(),
    {
        match *self {
            NetworkProtocol::Tcp(n) => n,
            NetworkProtocol::Udp(n) => n,
        }
    }

    pub fn is_tcp(&self) -> (r: bool)
        ensures
            r == (*self is Tcp),
    {
        matches!(self, NetworkProtocol::Tcp(_))
    }

    pub fn is_udp(&self) -> (r: bool)
        ensures
            r == (*self is Udp),
    {
        matches!(self, NetworkProtocol::Udp(_))
    }

    /// The protocol's name as Kubernetes spells it.
    pub fn protocol(&self) -> (r: &'static str)
        ensures
            r@ == (if *self is Tcp {
                "TCP"@
            } else {
                "UDP"@
            }),
    {
        match self {
            NetworkProtocol::Tcp(_) => "TCP",
            NetworkProtocol::Udp(_) => "UDP",
        }
    }

    /// The default service: TCP on port 8080.
    pub fn default_protocol() -> (r: NetworkProtocol)
        ensures
            r == NetworkProtocol::Tcp(8080),
    {
        NetworkProtocol::Tcp(8080)
    }

    /// The `<port>/<protocol>` notation, as `Display` writes it.
    pub fn to_text(&self) -> (r: String)
        ensures
            r@ == spec_network_protocol_text(*self),
    {
        let digits = decimal_chars(self.port() as u64);
        let mut out = string_of(digits.as_slice());
        match self {
            NetworkProtocol::Tcp(_) => push_str(&mut out, "/tcp"),
            NetworkProtocol::Udp(_) => push_str(&mut out, "/udp"),
        }
        out
    }
}

/// The `<port>/<protocol>` notation of a service.
pub open spec fn spec_network_protocol_text(p: NetworkProtocol) -> Seq<char> {
    match p {
        NetworkProtocol::Tcp(n) => decimal_digits(n as nat) + "/tcp"@,
        NetworkProtocol::Udp(n) => decimal_digits(n as nat) + "/udp"@,
    }
}

/// How a `<port>/<protocol>` string can be wrong.
#[derive(Debug, Clone, PartialEq)]
pub enum NetProtDeErr {
    NoSlash,
    BadPort(String),
    BadProtocol(String),
}

pub enum NetProtDeErrView {
    NoSlash,
    BadPort(Seq<char>),
    BadProtocol(Seq<char>),
}

impl View for NetProtDeErr {
    type V = NetProtDeErrView;

    open spec fn view(&self) -> NetProtDeErrView {
        match self {
            NetProtDeErr::NoSlash => NetProtDeErrView::NoSlash,
            NetProtDeErr::BadPort(p) => NetProtDeErrView::BadPort(p@),
            NetProtDeErr::BadProtocol(p) => NetProtDeErrView::BadProtocol(p@),
        }
    }
}

/// What reading `<port>/<protocol>` gives: the text before the first `/` is
/// the port, in decimal; the text after it is `tcp` or `udp`.
pub open spec fn spec_parse_network_protocol(s: Seq<char>) -> Result<NetworkProtocol, NetProtDeErrView> {
    match first_index_of(s, '/') {
        None => Err(NetProtDeErrView::NoSlash),
        Some(i) => {
            let port = s.take(i);
            let protocol = s.skip(i + 1);
            match spec_parse_u32(port) {
                None => Err(NetProtDeErrView::BadPort(port)),
                Some(n) => if protocol == "tcp"@ {
                    Ok(NetworkProtocol::Tcp(n))
                } else if protocol == "udp"@ {
                    Ok(NetworkProtocol::Udp(n))
                } else {
                    Err(NetProtDeErrView::BadProtocol(protocol))
                },
            }
        },
    }
}

/// Reads a service written as `<port>/<protocol>`.
pub fn deserialize(text: &str) -> (r: Result<NetworkProtocol, NetProtDeErr>)
    ensures
        match r {
            Ok(p) => spec_parse_network_protocol(text@) == Ok::<NetworkProtocol, NetProtDeErrView>(p),
            Err(e) => spec_parse_network_protocol(text@) == Err::<NetworkProtocol, NetProtDeErrView>(e@),
        },
{
    let chars = chars_of(text);
    let slash = match find_char(chars.as_slice(), '/') {
        Some(i) => i,
        None => return Err(NetProtDeErr::NoSlash),
    };
    proof {
        lemma_first_index_of(chars@, '/');
    }
    let port_chars = sub_chars(chars.as_slice(), 0, slash);
    let protocol_chars = sub_chars(chars.as_slice(), slash + 1, chars.len());
    assert(port_chars@ =~= text@.take(slash as int));
    assert(protocol_chars@ =~= text@.skip(slash + 1));
    let port = match parse_u32(port_chars.as_slice()) {
        Some(n) => n,
        None => return Err(NetProtDeErr::BadPort(string_of(port_chars.as_slice()))),
    };
    let tcp = chars_of("tcp");
    let udp = chars_of("udp");
    if chars_eq(protocol_chars.as_slice(), tcp.as_slice()) {
        Ok(NetworkProtocol::Tcp(port))
    } else if chars_eq(protocol_chars.as_slice(), udp.as_slice()) {
        Ok(NetworkProtocol::Udp(port))
    } else {
        Err(NetProtDeErr::BadProtocol(string_of(protocol_chars.as_slice())))
    }
}

/// Writing a service as `<port>/<protocol>` and reading it back gives the service.
pub proof fn lemma_network_protocol_round_trip(p: NetworkProtocol)
    ensures
        spec_parse_network_protocol(spec_network_protocol_text(p)) == Ok::<NetworkProtocol, NetProtDeErrView>(p),
{
    let n = p.spec_port();
    let digits = decimal_digits(n as nat);
    lemma_decimal_digits_value(n as nat);
    crate::decimal::lemma_parse_u32_of_decimal(n);
    reveal_strlit("/tcp");
    reveal_strlit("/udp");
    reveal_strlit("tcp");
    reveal_strlit("udp");
    let suffix = if p is Tcp { "/tcp"@ } else { "/udp"@ };
    let text = digits + suffix;
    assert(text == spec_network_protocol_text(p));
    lemma_first_index_of(text, '/');
    assert forall|j: int| 0 <= j < digits.len() implies text[j] != '/' by {
        assert(text[j] == digits[j]);
        assert(crate::decimal::is_digit(digits[j]));
    }
    assert(text[digits.len() as int] == '/');
    assert(first_index_of(text, '/') == Some(digits.len() as int));
    assert(text.take(digits.len() as int) =~= digits);
    assert(spec_parse_u32(text.take(digits.len() as int)) == Some(n));
    if p is Tcp {
        assert(text.skip(digits.len() as int + 1) =~= "tcp"@);
    } else {
        assert(text.skip(digits.len() as int + 1) =~= "udp"@);
        assert("udp"@ != "tcp"@) by {
            assert("udp"@[0] != "tcp"@[0]);
        }
    }
}

} // verus!

verus! {

/// One service to deploy: what it exposes and how many replicas run it.
#[derive(Debug, Clone, Copy, PartialEq, Eq)]
pub struct DeployTarget {
    pub expose: NetworkProtocol,
    pub replicas: u8,
}

/// The services a challenge deploys: a web service, an admin bot, and a
/// netcat-style service, each optional.
#[derive(Debug, Clone, Copy, PartialEq, Eq)]
pub struct DeployOptions {
    pub web: Option<DeployTarget>,
    pub admin: Option<DeployTarget>,
    pub nc: Option<DeployTarget>,
}

/// The three kinds of deployment target.
#[derive(Debug, Clone, Copy, PartialEq, Eq)]
pub enum DeployTargetName {
    Web,
    Admin,
    Nc,
}

/// How one deployment target can be wrong.
#[derive(Debug, Clone, PartialEq)]
pub enum DeployTargetError {
    NotMapping(ValueType),
    MissingExpose,
    ExposeNotString(ValueType),
    BadExpose(NetProtDeErr),
    BadReplicas(ValueType),
}

pub enum DeployTargetErrorView {
    NotMapping(ValueType),
    MissingExpose,
    ExposeNotString(ValueType),
    BadExpose(NetProtDeErrView),
    BadReplicas(ValueType),
}

impl View for DeployTargetError {
    type V = DeployTargetErrorView;

    open spec fn view(&self) -> DeployTargetErrorView {
        match self {
            DeployTargetError::NotMapping(t) => DeployTargetErrorView::NotMapping(*t),
            DeployTargetError::MissingExpose => DeployTargetErrorView::MissingExpose,
            DeployTargetError::ExposeNotString(t) => DeployTargetErrorView::ExposeNotString(*t),
            DeployTargetError::BadExpose(e) => DeployTargetErrorView::BadExpose(e@),
            DeployTargetError::BadReplicas(t) => DeployTargetErrorView::BadReplicas(*t),
        }
    }
}

/// How the deploy entry can be wrong.
#[derive(Debug, Clone, PartialEq)]
pub enum DeployError {
    BadBaseType(ValueType),
    Target(DeployTargetName, DeployTargetError),
}

pub enum DeployErrorView {
    BadBaseType(ValueType),
    Target(DeployTargetName, DeployTargetErrorView),
}

impl View for DeployError {
    type V = DeployErrorView;

    open spec fn view(&self) -> DeployErrorView {
        match self {
            DeployError::BadBaseType(t) => DeployErrorView::BadBaseType(*t),
            DeployError::Target(n, e) => DeployErrorView::Target(*n, e@),
        }
    }
}

/// The number of replicas when none is given.
pub open spec fn spec_default_replicas() -> u8 {
    1
}

pub fn default_replicas() -> (r: u8)
    ensures
        r == spec_default_replicas(),
{
    1
}

/// What one target entry gives: a mapping with `expose: <port>/<protocol>`
/// and an optional `replicas` count that fits in a `u8`.
pub open spec fn spec_deploy_target(value: YamlValue) -> Result<DeployTarget, DeployTargetErrorView> {
    match spec_as_mapping(value) {
        None => Err(DeployTargetErrorView::NotMapping(type_of(value))),
        Some(entries) => match mapping_lookup(entries, "expose"@) {
            None => Err(DeployTargetErrorView::MissingExpose),
            Some(expose) => match spec_as_str(expose) {
                None => Err(DeployTargetErrorView::ExposeNotString(type_of(expose))),
                Some(text) => match spec_parse_network_protocol(text) {
                    Err(e) => Err(DeployTargetErrorView::BadExpose(e)),
                    Ok(protocol) => match mapping_lookup(entries, "replicas"@) {
                        None => Ok(DeployTarget { expose: protocol, replicas: spec_default_replicas() }),
                        Some(replicas) => match spec_as_u64(replicas) {
                            Some(n) => if n <= 255 {
                                Ok(DeployTarget { expose: protocol, replicas: n as u8 })
                            } else {
                                Err(DeployTargetErrorView::BadReplicas(type_of(replicas)))
                            },
                            None => Err(DeployTargetErrorView::BadReplicas(type_of(replicas))),
                        },
                    },
                },
            },
        },
    }
}

fn deploy_target(value: &YamlValue) -> (r: Result<DeployTarget, DeployTargetError>)
    ensures
        match r {
            Ok(t) => spec_deploy_target(*value) == Ok::<DeployTarget, DeployTargetErrorView>(t),
            Err(e) => spec_deploy_target(*value) == Err::<DeployTarget, DeployTargetErrorView>(e@),
        },
{
    let entries = match value.as_mapping() {
        Some(entries) => entries,
        None => return Err(DeployTargetError::NotMapping(get_type(value))),
    };
    let expose = match mapping_get(entries, "expose") {
        Some(expose) => expose,
        None => return Err(DeployTargetError::MissingExpose),
    };
    let text = match expose.as_str() {
        Some(text) => text,
        None => return Err(DeployTargetError::ExposeNotString(get_type(expose))),
    };
    let protocol = match deserialize(text.as_str()) {
        Ok(p) => p,
        Err(e) => return Err(DeployTargetError::BadExpose(e)),
    };
    match mapping_get(entries, "replicas") {
        None => Ok(DeployTarget { expose: protocol, replicas: default_replicas() }),
        Some(replicas) => match replicas.as_u64() {
            Some(n) => if n <= 255 {
                Ok(DeployTarget { expose: protocol, replicas: n as u8 })
            } else {
                Err(DeployTargetError::BadReplicas(get_type(replicas)))
            },
            None => Err(DeployTargetError::BadReplicas(get_type(replicas))),
        },
    }
}

/// What an optional target entry gives: absent or null is no target.
pub open spec fn spec_optional_target(entries: Seq<(YamlValue, YamlValue)>, key: Seq<char>) -> Result<
    Option<DeployTarget>,
    DeployTargetErrorView,
> {
    match mapping_lookup(entries, key) {
        None => Ok(None),
        Some(v) => if untag(v) is Null {
            Ok(None)
        } else {
            match spec_deploy_target(v) {
                Ok(t) => Ok(Some(t)),
                Err(e) => Err(e),
            }
        },
    }
}

fn optional_target(entries: &Vec<(YamlValue, YamlValue)>, key: &str) -> (r: Result<
    Option<DeployTarget>,
    DeployTargetError,
>)
    ensures
        match r {
            Ok(t) => spec_optional_target(entries@, key@) == Ok::<
                Option<DeployTarget>,
                DeployTargetErrorView,
            >(t),
            Err(e) => spec_optional_target(entries@, key@) == Err::<
                Option<DeployTarget>,
                DeployTargetErrorView,
            >(e@),
        },
{
    match mapping_get(entries, key) {
        None => Ok(None),
        Some(v) => {
            if let YamlValue::Null = v.untag_ref() {
                Ok(None)
            } else {
                match deploy_target(v) {
                    Ok(t) => Ok(Some(t)),
                    Err(e) => Err(e),
                }
            }
        },
    }
}

/// What reading the deploy entry gives: a mapping with optional `web`,
/// `admin` and `nc` targets, checked in that order.
pub open spec fn spec_parse_deploy(value: YamlValue) -> Result<DeployOptions, DeployErrorView> {
    match spec_as_mapping(value) {
        None => Err(DeployErrorView::BadBaseType(type_of(value))),
        Some(entries) => match spec_optional_target(entries, "web"@) {
            Err(e) => Err(DeployErrorView::Target(DeployTargetName::Web, e)),
            Ok(web) => match spec_optional_target(entries, "admin"@) {
                Err(e) => Err(DeployErrorView::Target(DeployTargetName::Admin, e)),
                Ok(admin) => match spec_optional_target(entries, "nc"@) {
                    Err(e) => Err(DeployErrorView::Target(DeployTargetName::Nc, e)),
                    Ok(nc) => Ok(DeployOptions { web, admin, nc }),
                },
            },
        },
    }
}

/// Reads the deploy entry.
pub fn parse_deploy(value: &YamlValue) -> (r: Result<DeployOptions, DeployError>)
    ensures
        match r {
            Ok(d) => spec_parse_deploy(*value) == Ok::<DeployOptions, DeployErrorView>(d),
            Err(e) => spec_parse_deploy(*value) == Err::<DeployOptions, DeployErrorView>(e@),
        },
{
    let entries = match value.as_mapping() {
        Some(entries) => entries,
        None => return Err(DeployError::BadBaseType(get_type(value))),
    };
    let web = match optional_target(entries, "web") {
        Ok(t) => t,
        Err(e) => return Err(DeployError::Target(DeployTargetName::Web, e)),
    };
    let admin = match optional_target(entries, "admin") {
        Ok(t) => t,
        Err(e) => return Err(DeployError::Target(DeployTargetName::Admin, e)),
    };
    let nc = match optional_target(entries, "nc") {
        Ok(t) => t,
        Err(e) => return Err(DeployError::Target(DeployTargetName::Nc, e)),
    };
    Ok(DeployOptions { web, admin, nc })
}

/// How a target is shown: `Target< <port> (tcp) (<n> replica) >`, with
/// `udp` for UDP and `replicas` for any count but one.
pub open spec fn spec_target_text(t: DeployTarget) -> Seq<char> {
    "Target< "@ + decimal_digits(t.expose.spec_port() as nat) + " "@
        + (if t.expose is Tcp { "(tcp)"@ } else { "(udp)"@ })
        + " ("@ + decimal_digits(t.replicas as nat) + " "@
        + (if t.replicas == 1 { "replica"@ } else { "replicas"@ }) + ") >"@
}

impl DeployTarget {
    pub fn to_text(&self) -> (r: String)
        ensures
            r@ == spec_target_text(*self),
    {
        let mut out = string_of(chars_of("Target< ").as_slice());
        let port = string_of(decimal_chars(self.expose.port() as u64).as_slice());
        push_str(&mut out, port.as_str());
        push_str(&mut out, " ");
        if self.expose.is_tcp() {
            push_str(&mut out, "(tcp)");
        } else {
            push_str(&mut out, "(udp)");
        }
        push_str(&mut out, " (");
        let replicas = string_of(decimal_chars(self.replicas as u64).as_slice());
        push_str(&mut out, replicas.as_str());
        push_str(&mut out, " ");
        if self.replicas == 1 {
            push_str(&mut out, "replica");
        } else {
            push_str(&mut out, "replicas");
        }
        push_str(&mut out, ") >");
        out
    }
}

/// One present target as a `debug_struct` field: `, name: <target>` (without
/// the comma for the first).
pub open spec fn target_field(first: bool, name: Seq<char>, t: Option<DeployTarget>) -> Seq<char> {
    match t {
        Some(target) => (if first { Seq::empty() } else { ", "@ }) + name + ": "@ + spec_target_text(target),
        None => Seq::empty(),
    }
}

/// How the targets are shown: `DeployOptions { web: .., nc: .. }`, present
/// targets only.
pub open spec fn spec_options_text(o: DeployOptions) -> Seq<char> {
    let web = target_field(true, "web"@, o.web);
    let admin = target_field(o.web is None, "admin"@, o.admin);
    let nc = target_field(o.web is None && o.admin is None, "nc"@, o.nc);
    let fields = web + admin + nc;
    if fields.len() == 0 { "DeployOptions"@ } else { "DeployOptions { "@ + fields + " }"@ }
}

fn push_target_field(out: &mut String, first: bool, name: &str, t: Option<DeployTarget>)
    ensures
        final(out)@ == old(out)@ + target_field(first, name@, t),
{
    match t {
        Some(target) => {
            if !first {
                push_str(out, ", ");
            }
            push_str(out, name);
            push_str(out, ": ");
            let text = target.to_text();
            push_str(out, text.as_str());
        },
        None => {
            assert(old(out)@ + Seq::<char>::empty() =~= old(out)@);
        },
    }
}

impl DeployOptions {
    pub fn to_text(&self) -> (r: String)
        ensures
            r@ == spec_options_text(*self),
    {
        let mut fields = String::new();
        push_target_field(&mut fields, true, "web", self.web);
        push_target_field(&mut fields, self.web.is_none(), "admin", self.admin);
        push_target_field(&mut fields, self.web.is_none() && self.admin.is_none(), "nc", self.nc);
        assert(fields@ =~= target_field(true, "web"@, self.web) + target_field(self.web is None, "admin"@, self.admin)
            + target_field(self.web is None && self.admin is None, "nc"@, self.nc));
        let n = chars_of(fields.as_str()).len();
        if n == 0 {
            string_of(chars_of("DeployOptions").as_slice())
        } else {
            let mut out = string_of(chars_of("DeployOptions { ").as_slice());
            push_str(&mut out, fields.as_str());
            push_str(&mut out, " }");
            out
        }
    }
}

} // verus!
