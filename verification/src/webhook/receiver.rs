//! The decisions of a deployment: how its stages are recorded, how failures
//! are answered, and how a deletion is reported.

use vstd::prelude::*;

use crate::json::{single_member, JsonValue, JsonView};
use crate::text::{chars_of, push_str, string_of};
use crate::webhook::polling::{
    after_finish, after_register, can_advance, key_of, DeploymentRegistry, DeploymentStatus, DeploymentStatusView,
    PollingId,
};
use crate::webhook::responses::{response_view, status, Metadata, Response, ResponseView};

verus! {

/// A failure to build a challenge, as the builder described it.
#[derive(Debug, Clone)]
pub struct BuildChallengeErr(pub String);

/// The stage of a deployment that failed, with the description of the failure.
#[derive(Debug, Clone)]
pub enum DeployProcessErr {
    Build(String),
    Push(String),
    Pull(String),
    Fetch(String),
    Deploy(String),
}

/// The subcode (added to 550), the status text, and the message prefix of a
/// failed stage, and the description that follows the prefix.
pub open spec fn process_err_parts(err: DeployProcessErr) -> (u64, Seq<char>, Seq<char>, Seq<char>) {
    match err {
        DeployProcessErr::Build(s) => (1, "Error building"@, "Failed to build: "@, s@),
        DeployProcessErr::Push(s) => (2, "Error pushing"@, "Failed to push: "@, s@),
        DeployProcessErr::Pull(s) => (3, "Error pulling"@, "Failed to pull: "@, s@),
        DeployProcessErr::Fetch(s) => (4, "Error fetching"@, "Failed to fetch: "@, s@),
        DeployProcessErr::Deploy(s) => (5, "Error deploying"@, "Failed to deploy: "@, s@),
    }
}

/// The response that reports a failed stage: code 550 plus the stage's
/// subcode, the stage's status text, and a `message` member that says what
/// failed.
pub open spec fn process_err_response(err: DeployProcessErr, meta: crate::webhook::responses::MetadataView) -> ResponseView {
    let (subcode, text, prefix, description) = process_err_parts(err);
    response_view(
        meta,
        Some(single_member("message"@, JsonView::Str(prefix + description))),
        status((550 + subcode) as u64, text),
    )
}

impl DeployProcessErr {
    /// The subcode of the failed stage.
    pub fn subcode(&self) -> (r: u64)
        ensures
            r == process_err_parts(*self).0,
    {
        match self {
            DeployProcessErr::Build(_) => 1,
            DeployProcessErr::Push(_) => 2,
            DeployProcessErr::Pull(_) => 3,
            DeployProcessErr::Fetch(_) => 4,
            DeployProcessErr::Deploy(_) => 5,
        }
    }

    /// `Error building`, `Error pushing`, and so on.
    pub fn status_text(&self) -> (r: &'static str)
        ensures
            r@ == process_err_parts(*self).1,
    {
        match self {
            DeployProcessErr::Build(_) => "Error building",
            DeployProcessErr::Push(_) => "Error pushing",
            DeployProcessErr::Pull(_) => "Error pulling",
            DeployProcessErr::Fetch(_) => "Error fetching",
            DeployProcessErr::Deploy(_) => "Error deploying",
        }
    }

    /// `Failed to build: <description>`, and so on.
    pub fn message(&self) -> (r: String)
        ensures
            r@ == process_err_parts(*self).2 + process_err_parts(*self).3,
    {
        let (prefix, description): (&str, &String) = match self {
            DeployProcessErr::Build(s) => ("Failed to build: ", s),
            DeployProcessErr::Push(s) => ("Failed to push: ", s),
            DeployProcessErr::Pull(s) => ("Failed to pull: ", s),
            DeployProcessErr::Fetch(s) => ("Failed to fetch: ", s),
            DeployProcessErr::Deploy(s) => ("Failed to deploy: ", s),
        };
        let mut out = string_of(chars_of(prefix).as_slice());
        push_str(&mut out, description.as_str());
        out
    }

    /// The response that reports this failure about the request of `meta`.
    pub fn to_response(&self, meta: Metadata) -> (r: Response)
        ensures
            r@ == process_err_response(*self, meta@),
    {
        let data = JsonValue::single("message", JsonValue::Str(self.message()));
        Response::server_deploy_process_err(self.subcode(), self.status_text(), Some(data), meta)
    }
}

/// What the creation of a challenge on the cluster comes to: the ports it
/// listens on, or a deploy failure, also where it listens on no port.
pub open spec fn spec_deploy_outcome(created: Result<Seq<i32>, Seq<char>>) -> Result<Seq<i32>, Seq<char>> {
    match created {
        Ok(ports) => if ports.len() == 0 { Err("No Port(s) Returned"@) } else { Ok(ports) },
        Err(e) => Err(e),
    }
}

/// Judges the result of creating a challenge on the cluster.
pub fn deploy_outcome(created: Result<Vec<i32>, String>) -> (r: Result<Vec<i32>, DeployProcessErr>)
    ensures
        match (r, spec_deploy_outcome(match created { Ok(p) => Ok(p@), Err(e) => Err(e@) })) {
            (Ok(p), Ok(q)) => p@ == q,
            (Err(DeployProcessErr::Deploy(s)), Err(t)) => s@ == t,
            _ => false,
        },
{
    match created {
        Ok(ports) => {
            if ports.len() == 0 {
                Err(DeployProcessErr::Deploy(string_of(chars_of("No Port(s) Returned").as_slice())))
            } else {
                Ok(ports)
            }
        },
        Err(e) => Err(DeployProcessErr::Deploy(e)),
    }
}

/// The stages a deployment runs through, in order.
#[derive(Debug, Clone, Copy, PartialEq, Eq)]
pub enum DeployStage {
    /// Building the image.
    Building,
    /// Pushing the image to the registry.
    Pushing,
    /// Fetching the challenge folder, pulling the image, and creating the
    /// challenge on the cluster.
    Deploying,
}

pub open spec fn spec_next_stage(stage: DeployStage) -> Option<DeployStage> {
    match stage {
        DeployStage::Building => Some(DeployStage::Pushing),
        DeployStage::Pushing => Some(DeployStage::Deploying),
        DeployStage::Deploying => None,
    }
}

/// Asks the registry to move a deployment on to its next step, and says
/// whether the deployment may go on.
pub fn advance_with_fail_log(registry: &mut DeploymentRegistry, polling_id: PollingId) -> (r: bool)
    ensures
        final(registry)@ == old(registry)@,
        r == can_advance(old(registry)@, polling_id, None),
{
    registry.advance_deployment_step(polling_id, None).is_ok()
}

/// Files a deployment that a deploy request starts, as building. Where one is
/// already filed under the identifier, its status is handed back and nothing
/// is to be run.
pub fn spawn_deploy_req(registry: &mut DeploymentRegistry, chall_id: u128, race_lock: u128, now: u64) -> (r: Result<PollingId, DeploymentStatus>)
    ensures
        final(registry)@ == after_register(old(registry)@, PollingId { chall_id, race_lock_id: race_lock }, now),
        match r {
            Ok(id) => id == (PollingId { chall_id, race_lock_id: race_lock })
                && !old(registry)@.dom().contains(key_of(id)),
            Err(current) => old(registry)@.dom().contains((chall_id, race_lock))
                && current@ == old(registry)@[(chall_id, race_lock)],
        },
{
    let polling_id = PollingId::new(chall_id, race_lock);
    match registry.register_chall_deployment(polling_id, now) {
        Ok(()) => Ok(polling_id),
        Err(current) => Err(current),
    }
}

/// Records what a stage of a deployment came to, and says which stage runs
/// next, if any. A failure ends the deployment with the response that reports
/// it; a finished deploy stage ends it with its ports; after building or
/// pushing (whose ports are not read) the deployment goes on where the
/// registry lets it move on.
pub fn record_stage_outcome(
    registry: &mut DeploymentRegistry,
    polling_id: PollingId,
    stage: DeployStage,
    outcome: Result<Vec<i32>, DeployProcessErr>,
    meta: &Metadata,
    now: u64,
) -> (r: Option<DeployStage>)
    ensures
        match outcome {
            Err(e) => {
                &&& final(registry)@ == after_finish(
                    old(registry)@,
                    polling_id,
                    DeploymentStatusView::Failure(now, process_err_response(e, meta@)),
                )
                &&& r is None
            },
            Ok(ports) => if stage == DeployStage::Deploying {
                &&& final(registry)@ == after_finish(old(registry)@, polling_id, DeploymentStatusView::Success(now, ports@))
                &&& r is None
            } else {
                &&& final(registry)@ == old(registry)@
                &&& r == (if can_advance(old(registry)@, polling_id, None) { spec_next_stage(stage) } else { None })
            },
        },
{
    match outcome {
        Err(e) => {
            let response = e.to_response(meta.duplicate());
            let _ = registry.fail_deployment(polling_id, response, now);
            None
        },
        Ok(ports) => {
            match stage {
                DeployStage::Deploying => {
                    let _ = registry.succeed_deployment(polling_id, ports, now);
                    None
                },
                DeployStage::Building => {
                    if advance_with_fail_log(registry, polling_id) {
                        Some(DeployStage::Pushing)
                    } else {
                        None
                    }
                },
                DeployStage::Pushing => {
                    if advance_with_fail_log(registry, polling_id) {
                        Some(DeployStage::Deploying)
                    } else {
                        None
                    }
                },
            }
        },
    }
}

/// The response that reports a deletion: the failure of the cluster step
/// (code 556), else that of the image step (code 557), each with a `message`
/// member that gives the error; or success, with a `message` member that
/// names the deleted challenge.
pub open spec fn spec_deletion_response(
    name: Seq<char>,
    k8s_result: Result<(), Seq<char>>,
    docker_result: Result<(), Seq<char>>,
    meta: crate::webhook::responses::MetadataView,
) -> ResponseView {
    match k8s_result {
        Err(e) => response_view(
            meta,
            Some(single_member("message"@, JsonView::Str(e))),
            status(556, "Error deleting k8s deployment/service"@),
        ),
        Ok(()) => match docker_result {
            Err(e) => response_view(
                meta,
                Some(single_member("message"@, JsonView::Str(e))),
                status(557, "Error deleting docker image"@),
            ),
            Ok(()) => response_view(
                meta,
                Some(single_member("message"@, JsonView::Str("Deleted '"@ + name + "'"@))),
                status(200, "Request received successfully"@),
            ),
        },
    }
}

pub open spec fn unit_result_view(r: Result<(), String>) -> Result<(), Seq<char>> {
    match r {
        Ok(()) => Ok(()),
        Err(e) => Err(e@),
    }
}

/// Answers a delete request, given how deleting the challenge from the
/// cluster went and, where that succeeded, how deleting its image went.
pub fn deletion_response(
    name: &str,
    k8s_result: Result<(), String>,
    docker_result: Result<(), String>,
    meta: Metadata,
) -> (r: Response)
    ensures
        r@ == spec_deletion_response(name@, unit_result_view(k8s_result), unit_result_view(docker_result), meta@),
{
    match k8s_result {
        Err(e) => {
            let data = JsonValue::single("message", JsonValue::Str(e));
            Response::server_deploy_process_err(6, "Error deleting k8s deployment/service", Some(data), meta)
        },
        Ok(()) => match docker_result {
            Err(e) => {
                let data = JsonValue::single("message", JsonValue::Str(e));
                Response::server_deploy_process_err(7, "Error deleting docker image", Some(data), meta)
            },
            Ok(()) => {
                let mut text = string_of(chars_of("Deleted '").as_slice());
                push_str(&mut text, name);
                push_str(&mut text, "'");
                let data = JsonValue::single("message", JsonValue::Str(text));
                Response::success(meta, Some(data))
            },
        },
    }
}

} // verus!
