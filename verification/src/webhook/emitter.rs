//! The message that announces a successful deployment to the webhook server,
//! and how the server's answer is judged.

use vstd::prelude::*;

use crate::decimal::{signed_decimal_chars, signed_decimal_digits};
use crate::json::{JsonValue, JsonView};
use crate::text::{chars_of, push_str, string_of};
use crate::webhook::polling::spec_polling_id_text;
use crate::webhook::responses::{Metadata, MetadataView};

verus! {

/// The entries of a list of ports, each in decimal, separated by `, `.
pub open spec fn joined_ports(ports: Seq<i32>) -> Seq<char>
    decreases ports.len(),
{
    if ports.len() == 0 {
        Seq::empty()
    } else if ports.len() == 1 {
        signed_decimal_digits(ports[0] as int)
    } else {
        joined_ports(ports.drop_last()) + ", "@ + signed_decimal_digits(ports.last() as int)
    }
}

/// A list of ports as `{:?}` writes it: `[80, 443]`.
pub open spec fn ports_debug_text(ports: Seq<i32>) -> Seq<char> {
    "["@ + joined_ports(ports) + "]"@
}

/// Writes a list of ports as `{:?}` does.
pub fn ports_text(ports: &[i32]) -> (r: String)
    ensures
        r@ == ports_debug_text(ports@),
{
    let mut joined = String::new();
    let mut i: usize = 0;
    assert(ports@.take(0) =~= Seq::<i32>::empty());
    while i < ports.len()
        invariant
            i <= ports@.len(),
            joined@ == joined_ports(ports@.take(i as int)),
        decreases ports@.len() - i,
    {
        let digits = string_of(signed_decimal_chars(ports[i] as i64).as_slice());
        if i > 0 {
            push_str(&mut joined, ", ");
        }
        push_str(&mut joined, digits.as_str());
        proof {
            let next = ports@.take(i + 1);
            assert(next.drop_last() =~= ports@.take(i as int));
            assert(next.last() == ports@[i as int]);
        }
        i = i + 1;
    }
    assert(ports@.take(ports@.len() as int) =~= ports@);
    let mut out = string_of(chars_of("[").as_slice());
    push_str(&mut out, joined.as_str());
    push_str(&mut out, "]");
    out
}

/// The ports as a JSON array.
pub open spec fn ports_json(ports: Seq<i32>) -> JsonView {
    JsonView::Array(ports.map_values(|v: i32| JsonView::Int(v as i64)))
}

/// The announcement of a successful deployment, for the Discord, frontend
/// and SQL targets.
pub open spec fn success_body(meta: MetadataView, ports: Seq<i32>) -> JsonView {
    let poll = spec_polling_id_text(meta.polling_id);
    JsonView::Object(seq![
        ("_type"@, JsonView::Str("DeploymentSuccess"@)),
        ("targets"@, JsonView::Object(seq![
            ("discord"@, JsonView::Object(seq![
                ("content"@, JsonView::Str("Successfully deployed "@ + meta.chall_name + " on port "@ + ports_debug_text(ports))),
                ("Ports"@, ports_json(ports)),
                ("urgency"@, JsonView::Str("low"@)),
            ])),
            ("frontend"@, JsonView::Object(seq![
                ("PollID"@, JsonView::Str(poll)),
                ("Ports"@, ports_json(ports)),
            ])),
            ("sql"@, JsonView::Object(seq![
                ("query"@, JsonView::Str("INSERT INTO deployments (poll_id, ports) VALUES ("@ + poll + ")"@)),
                ("Ports"@, ports_json(ports)),
            ])),
        ])),
    ])
}

/// Builds the announcement of a successful deployment.
pub fn deployment_success_body(meta: &Metadata, ports: &[i32]) -> (r: JsonValue)
    ensures
        r@ == success_body(meta@, ports@),
{
    let poll = meta.poll_id().to_text();

    let mut content = string_of(chars_of("Successfully deployed ").as_slice());
    push_str(&mut content, meta.chall_name().as_str());
    push_str(&mut content, " on port ");
    let listed = ports_text(ports);
    push_str(&mut content, listed.as_str());
    let discord = JsonValue::triple(
        "content", JsonValue::Str(content),
        "Ports", JsonValue::int_array(ports),
        "urgency", JsonValue::string("low"),
    );

    let frontend = JsonValue::pair("PollID", JsonValue::string(poll.as_str()), "Ports", JsonValue::int_array(ports));

    let mut query = string_of(chars_of("INSERT INTO deployments (poll_id, ports) VALUES (").as_slice());
    push_str(&mut query, poll.as_str());
    push_str(&mut query, ")");
    let sql = JsonValue::pair("query", JsonValue::Str(query), "Ports", JsonValue::int_array(ports));

    let targets = JsonValue::triple("discord", discord, "frontend", frontend, "sql", sql);
    JsonValue::pair("_type", JsonValue::string("DeploymentSuccess"), "targets", targets)
}

/// How the webhook server's answer is judged: a success status (200 to 299)
/// is delivery; another status, or no answer at all, is a failure.
pub open spec fn spec_delivery_outcome(http_status: Option<u16>) -> Result<(), Seq<char>> {
    match http_status {
        Some(code) => if 200 <= code <= 299 {
            Ok(())
        } else {
            Err("Error sending DeploymentSuccess message to webhook server"@)
        },
        None => Err("Error sending DeploymentSuccess message to webhook server"@),
    }
}

/// Judges the webhook server's answer to an announcement.
pub fn delivery_outcome(http_status: Option<u16>) -> (r: Result<(), String>)
    ensures
        match (r, spec_delivery_outcome(http_status)) {
            (Ok(()), Ok(())) => true,
            (Err(e), Err(t)) => e@ == t,
            _ => false,
        },
{
    let delivered = match http_status {
        Some(code) => 200 <= code && code <= 299,
        None => false,
    };
    if delivered {
        Ok(())
    } else {
        Err(string_of(chars_of("Error sending DeploymentSuccess message to webhook server").as_slice()))
    }
}

} // verus!
