//! Deployments in flight: their identifiers, their states, and the registry
//! that holds them.

use vstd::prelude::*;

use crate::text::{push_str, string_of, chars_of, find_char, sub_chars, first_index_of, lemma_first_index_of};
use crate::webhook::responses::{Response, ResponseView};

verus! {

/// The hyphenated lowercase text of a UUID.
pub uninterp spec fn uuid_text(value: u128) -> Seq<char>;

/// The UUID that a text denotes, if it denotes one.
pub uninterp spec fn uuid_parse(text: Seq<char>) -> Option<u128>;

/// Calls `uuid::Uuid::from_u128(..).to_string()`. The claims: the text
/// depends on the number alone (named [`uuid_text`]); it is the hyphenated
/// form, with no period in it; and `Uuid::parse_str`, which reads every form
/// the crate writes, reads it back.
#[verifier::external_body]
fn uuid_to_text(value: u128) -> (r: String)
    ensures
        r@ == uuid_text(value),
        !r@.contains('.'),
        uuid_parse(r@) == Some(value),
{
    uuid::Uuid::from_u128(value).to_string()
}

/// Calls `uuid::Uuid::parse_str`; the claim is that the outcome depends on the
/// text alone (named [`uuid_parse`]).
#[verifier::external_body]
fn uuid_from_text(text: &str) -> (r: Option<u128>)
    ensures
        r == uuid_parse(text@),
{
    match uuid::Uuid::parse_str(text) {
        Ok(u) => Some(u.as_u128()),
        Err(_) => None,
    }
}

/// The stage a deployment is in.
#[derive(Debug, Clone, Copy, PartialEq, Eq)]
pub enum DeployStep {
    Building,
    Pushing,
    Pulling,
    Deploying,
}

pub open spec fn spec_step_text(step: DeployStep) -> Seq<char> {
    match step {
        DeployStep::Building => "in_progress:building"@,
        DeployStep::Pushing => "in_progress:pushing"@,
        DeployStep::Pulling => "in_progress:pulling"@,
        DeployStep::Deploying => "in_progress:deploying"@,
    }
}

pub open spec fn spec_next_step(step: DeployStep) -> Option<DeployStep> {
    match step {
        DeployStep::Building => Some(DeployStep::Pushing),
        DeployStep::Pushing => Some(DeployStep::Pulling),
        DeployStep::Pulling => Some(DeployStep::Deploying),
        DeployStep::Deploying => None,
    }
}

impl DeployStep {
    pub fn get_str(&self) -> (r: &'static str)
        ensures
            r@ == spec_step_text(*self),
    {
        match self {
            DeployStep::Building => "in_progress:building",
            DeployStep::Pushing => "in_progress:pushing",
            DeployStep::Pulling => "in_progress:pulling",
            DeployStep::Deploying => "in_progress:deploying",
        }
    }

    /// The stage that follows, if any.
    pub fn next(&self) -> (r: Option<DeployStep>)
        ensures
            r == spec_next_step(*self),
    {
        match self {
            DeployStep::Building => Some(DeployStep::Pushing),
            DeployStep::Pushing => Some(DeployStep::Pulling),
            DeployStep::Pulling => Some(DeployStep::Deploying),
            DeployStep::Deploying => None,
        }
    }
}

/// The identifier of a deployment: the challenge and the request.
#[derive(Debug, Clone, Copy, PartialEq, Eq, Hash)]
pub struct PollingId {
    pub chall_id: u128,
    pub race_lock_id: u128,
}

impl PollingId {
    pub fn new(chall_id: u128, race_lock_id: u128) -> (r: PollingId)
        ensures
            r == (PollingId { chall_id, race_lock_id }),
    {
        PollingId { chall_id, race_lock_id }
    }

    pub fn tup(&self) -> (r: (u128, u128))
        ensures
            r == (self.chall_id, self.race_lock_id),
    {
        (self.chall_id, self.race_lock_id)
    }

    /// `Polling<challenge.request>`, as `Display` writes it.
    pub fn to_text(&self) -> (r: String)
        ensures
            r@ == spec_polling_id_text(*self),
    {
        let mut out = string_of(chars_of("Polling<").as_slice());
        let chall = uuid_to_text(self.chall_id);
        push_str(&mut out, chall.as_str());
        push_str(&mut out, ".");
        let race = uuid_to_text(self.race_lock_id);
        push_str(&mut out, race.as_str());
        push_str(&mut out, ">");
        out
    }
}

pub open spec fn spec_polling_id_text(id: PollingId) -> Seq<char> {
    "Polling<"@ + uuid_text(id.chall_id) + "."@ + uuid_text(id.race_lock_id) + ">"@
}

/// How a `<uuid>.<uuid>` text can fail to name a deployment.
#[derive(Debug, Clone, Copy, PartialEq, Eq)]
pub enum PollingIdTextError {
    /// No period separates the two UUIDs.
    NoPeriod,
    /// The text before the period is not a UUID.
    BadChallId,
    /// The text after the period is not a UUID.
    BadRaceLockId,
    /// Neither part is a UUID.
    BadBoth,
}

/// What reading `<uuid>.<uuid>` gives; the text is split at its first period.
pub open spec fn spec_parse_polling_id(text: Seq<char>) -> Result<PollingId, PollingIdTextError> {
    match first_index_of(text, '.') {
        None => Err(PollingIdTextError::NoPeriod),
        Some(i) => match (uuid_parse(text.take(i)), uuid_parse(text.skip(i + 1))) {
            (Some(c), Some(r)) => Ok(PollingId { chall_id: c, race_lock_id: r }),
            (None, Some(_)) => Err(PollingIdTextError::BadChallId),
            (Some(_), None) => Err(PollingIdTextError::BadRaceLockId),
            (None, None) => Err(PollingIdTextError::BadBoth),
        },
    }
}

/// Reads a deployment identifier written as `<uuid>.<uuid>`.
pub fn parse_polling_id(text: &str) -> (r: Result<PollingId, PollingIdTextError>)
    ensures
        r == spec_parse_polling_id(text@),
{
    let chars = chars_of(text);
    let period = match find_char(chars.as_slice(), '.') {
        Some(i) => i,
        None => return Err(PollingIdTextError::NoPeriod),
    };
    proof {
        lemma_first_index_of(chars@, '.');
    }
    let before = sub_chars(chars.as_slice(), 0, period);
    let after = sub_chars(chars.as_slice(), period + 1, chars.len());
    assert(before@ =~= text@.take(period as int));
    assert(after@ =~= text@.skip(period + 1));
    let before_text = string_of(before.as_slice());
    let after_text = string_of(after.as_slice());
    match (uuid_from_text(before_text.as_str()), uuid_from_text(after_text.as_str())) {
        (Some(c), Some(r)) => Ok(PollingId::new(c, r)),
        (None, Some(_)) => Err(PollingIdTextError::BadChallId),
        (Some(_), None) => Err(PollingIdTextError::BadRaceLockId),
        (None, None) => Err(PollingIdTextError::BadBoth),
    }
}

/// Where a deployment stands. Times are readings of a monotonic clock (in
/// nanoseconds since a starting point the caller chooses).
#[derive(Debug)]
pub enum DeploymentStatus {
    InProgress(u64, DeployStep),
    Success(u64, Vec<i32>),
    Failure(u64, Response),
}

pub enum DeploymentStatusView {
    InProgress(u64, DeployStep),
    Success(u64, Seq<i32>),
    Failure(u64, ResponseView),
}

impl View for DeploymentStatus {
    type V = DeploymentStatusView;

    open spec fn view(&self) -> DeploymentStatusView {
        match self {
            DeploymentStatus::InProgress(t, step) => DeploymentStatusView::InProgress(*t, *step),
            DeploymentStatus::Success(t, ports) => DeploymentStatusView::Success(*t, ports@),
            DeploymentStatus::Failure(t, response) => DeploymentStatusView::Failure(*t, response@),
        }
    }
}

impl DeploymentStatusView {
    pub open spec fn is_finished(self) -> bool {
        !(self is InProgress)
    }

    pub open spec fn last_change(self) -> u64 {
        match self {
            DeploymentStatusView::InProgress(t, _) => t,
            DeploymentStatusView::Success(t, _) => t,
            DeploymentStatusView::Failure(t, _) => t,
        }
    }

    pub open spec fn text(self) -> Seq<char> {
        match self {
            DeploymentStatusView::InProgress(_, step) => spec_step_text(step),
            DeploymentStatusView::Success(_, _) => "success"@,
            DeploymentStatusView::Failure(_, _) => "failure"@,
        }
    }
}

impl DeploymentStatus {
    pub fn duplicate(&self) -> (r: DeploymentStatus)
        ensures
            r@ == self@,
    {
        match self {
            DeploymentStatus::InProgress(t, step) => DeploymentStatus::InProgress(*t, *step),
            DeploymentStatus::Success(t, ports) => {
                let copy = ports.clone();
                assert(copy@ =~= ports@);
                DeploymentStatus::Success(*t, copy)
            },
            DeploymentStatus::Failure(t, response) => DeploymentStatus::Failure(*t, response.duplicate()),
        }
    }

    /// Whether the deployment has ended, well or badly.
    pub fn is_finished(&self) -> (r: bool)
        ensures
            r == self@.is_finished(),
    {
        !matches!(self, DeploymentStatus::InProgress(_, _))
    }

    /// `in_progress:<step>`, `success` or `failure`.
    pub fn get_str(&self) -> (r: &'static str)
        ensures
            r@ == self@.text(),
    {
        match self {
            DeploymentStatus::InProgress(_, step) => step.get_str(),
            DeploymentStatus::Success(_, _) => "success",
            DeploymentStatus::Failure(_, _) => "failure",
        }
    }

    /// When the deployment ended, if it has.
    pub fn finish_time(&self) -> (r: Option<u64>)
        ensures
            r == (if self@.is_finished() { Some(self@.last_change()) } else { None::<u64> }),
    {
        match self {
            DeploymentStatus::Success(t, _) => Some(*t),
            DeploymentStatus::Failure(t, _) => Some(*t),
            DeploymentStatus::InProgress(_, _) => None,
        }
    }

    /// When the current step began, if the deployment is still running.
    pub fn start_time(&self) -> (r: Option<u64>)
        ensures
            r == (if self@.is_finished() { None::<u64> } else { Some(self@.last_change()) }),
    {
        match self {
            DeploymentStatus::InProgress(t, _) => Some(*t),
            _ => None,
        }
    }

    /// When the status last changed.
    pub fn last_change(&self) -> (r: u64)
        ensures
            r == self@.last_change(),
    {
        match self {
            DeploymentStatus::InProgress(t, _) => *t,
            DeploymentStatus::Success(t, _) => *t,
            DeploymentStatus::Failure(t, _) => *t,
        }
    }

    /// The outcome of a finished deployment: its ports, or the failure response.
    pub fn finished_data(&self) -> (r: Option<Result<Vec<i32>, Response>>)
        ensures
            match self@ {
                DeploymentStatusView::InProgress(_, _) => r is None,
                DeploymentStatusView::Success(_, ports) => r matches Some(Ok(p)) && p@ == ports,
                DeploymentStatusView::Failure(_, response) => r matches Some(Err(e)) && e@ == response,
            },
    {
        match self {
            DeploymentStatus::Success(_, ports) => {
                let copy = ports.clone();
                assert(copy@ =~= ports@);
                Some(Ok(copy))
            },
            DeploymentStatus::Failure(_, response) => Some(Err(response.duplicate())),
            DeploymentStatus::InProgress(_, _) => None,
        }
    }
}

#[verifier::external_type_specification]
#[verifier::external_body]
#[verifier::reject_recursive_types(K)]
#[verifier::reject_recursive_types(V)]
pub struct ExCHashMap<K, V>(chashmap::CHashMap<K, V>);

/// The key under which a deployment is filed: its identifier's two UUIDs.
pub type DeploymentKey = (u128, u128);

/// The concurrent map that holds the deployments.
pub type StatusMap = chashmap::CHashMap<DeploymentKey, DeploymentStatus>;

/// What the concurrent map of deployments holds, each status by its view.
pub uninterp spec fn deployments_of(map: StatusMap) -> Map<DeploymentKey, DeploymentStatusView>;

/// A registry with nothing filed.
pub open spec fn no_deployments() -> Map<DeploymentKey, DeploymentStatusView> {
    Map::empty()
}

/// Calls `CHashMap::new`, which makes an empty map.
#[verifier::external_body]
fn registry_new() -> (r: StatusMap)
    ensures
        deployments_of(r) == no_deployments(),
{
    chashmap::CHashMap::new()
}

/// Calls `CHashMap::contains_key`: whether the map holds an entry for the key.
#[verifier::external_body]
fn registry_contains(map: &StatusMap, key: DeploymentKey) -> (r: bool)
    ensures
        r == deployments_of(*map).dom().contains(key),
{
    map.contains_key(&key)
}

/// Calls `CHashMap::remove`, which takes the entry of the key out of the map
/// and hands back its value, if there was one.
#[verifier::external_body]
fn registry_remove(
    map: &mut StatusMap,
    key: DeploymentKey,
) -> (r: Option<DeploymentStatus>)
    ensures
        deployments_of(*final(map)) == deployments_of(*old(map)).remove(key),
        r is Some <==> deployments_of(*old(map)).dom().contains(key),
        r is Some ==> r->0@ == deployments_of(*old(map))[key],
{
    map.remove(&key)
}

/// Calls `CHashMap::insert`, which files the value under the key, replacing
/// and handing back any value that was there.
#[verifier::external_body]
fn registry_insert(
    map: &mut StatusMap,
    key: DeploymentKey,
    value: DeploymentStatus,
) -> (r: Option<DeploymentStatus>)
    ensures
        deployments_of(*final(map)) == deployments_of(*old(map)).insert(key, value@),
        r is Some <==> deployments_of(*old(map)).dom().contains(key),
        r is Some ==> r->0@ == deployments_of(*old(map))[key],
{
    map.insert(key, value)
}

/// The deployments the server knows of, by identifier.
pub struct DeploymentRegistry {
    map: StatusMap,
}

impl View for DeploymentRegistry {
    type V = Map<DeploymentKey, DeploymentStatusView>;

    closed spec fn view(&self) -> Map<DeploymentKey, DeploymentStatusView> {
        deployments_of(self.map)
    }
}

pub open spec fn key_of(id: PollingId) -> DeploymentKey {
    (id.chall_id, id.race_lock_id)
}

/// The registry after a registration.
pub open spec fn after_register(reg: Map<DeploymentKey, DeploymentStatusView>, id: PollingId, now: u64) -> Map<DeploymentKey, DeploymentStatusView> {
    if reg.dom().contains(key_of(id)) {
        reg
    } else {
        reg.insert(key_of(id), DeploymentStatusView::InProgress(now, DeployStep::Building))
    }
}

/// The registry after a status is set, where the identifier is known.
pub open spec fn after_update(reg: Map<DeploymentKey, DeploymentStatusView>, id: PollingId, status: DeploymentStatusView) -> Map<DeploymentKey, DeploymentStatusView> {
    if reg.dom().contains(key_of(id)) {
        reg.insert(key_of(id), status)
    } else {
        reg
    }
}

/// Whether a deployment that is still running can be ended now.
pub open spec fn can_finish(reg: Map<DeploymentKey, DeploymentStatusView>, id: PollingId) -> bool {
    reg.dom().contains(key_of(id)) && !reg[key_of(id)].is_finished()
}

/// The registry after a running deployment is ended with the given status.
pub open spec fn after_finish(reg: Map<DeploymentKey, DeploymentStatusView>, id: PollingId, status: DeploymentStatusView) -> Map<DeploymentKey, DeploymentStatusView> {
    if can_finish(reg, id) {
        reg.insert(key_of(id), status)
    } else {
        reg
    }
}

/// Whether a request to move a deployment on to a step is answered with its
/// status: the deployment is running and there is a step to move to.
pub open spec fn can_advance(reg: Map<DeploymentKey, DeploymentStatusView>, id: PollingId, new_step: Option<DeployStep>) -> bool {
    &&& reg.dom().contains(key_of(id))
    &&& reg[key_of(id)] matches DeploymentStatusView::InProgress(_, step)
    &&& (new_step is Some || spec_next_step(step) is Some)
}

/// What a poll reports.
pub struct PollInfo {
    pub id: PollingId,
    pub status: DeploymentStatus,
    /// The wall-clock time of the poll.
    pub poll_time: u64,
    /// How long ago, on the monotonic clock, the status last changed.
    pub duration_since_last_change: u64,
}

/// The time from `earlier` to `later`, or zero where `earlier` is the later one.
pub open spec fn elapsed(later: u64, earlier: u64) -> u64 {
    if later >= earlier { (later - earlier) as u64 } else { 0 }
}

impl DeploymentRegistry {
    pub fn new() -> (r: DeploymentRegistry)
        ensures
            r@ == no_deployments(),
    {
        DeploymentRegistry { map: registry_new() }
    }

    /// A copy of the status filed under the key, leaving the registry as it was.
    fn peek(&mut self, key: DeploymentKey) -> (r: Option<DeploymentStatus>)
        ensures
            final(self)@ == old(self)@,
            r is Some <==> old(self)@.dom().contains(key),
            r is Some ==> r->0@ == old(self)@[key],
    {
        match registry_remove(&mut self.map, key) {
            Some(current) => {
                let copy = current.duplicate();
                registry_insert(&mut self.map, key, current);
                assert(self@ =~= old(self)@);
                Some(copy)
            },
            None => None,
        }
    }

    /// Files a new deployment as building, unless one is already filed under
    /// the identifier, whose status is then handed back.
    pub fn register_chall_deployment(&mut self, id: PollingId, now: u64) -> (r: Result<(), DeploymentStatus>)
        ensures
            final(self)@ == after_register(old(self)@, id, now),
            match r {
                Ok(()) => !old(self)@.dom().contains(key_of(id)),
                Err(current) => old(self)@.dom().contains(key_of(id)) && current@ == old(self)@[key_of(id)],
            },
    {
        let key = id.tup();
        match self.peek(key) {
            Some(current) => Err(current),
            None => {
                registry_insert(&mut self.map, key, DeploymentStatus::InProgress(now, DeployStep::Building));
                Ok(())
            },
        }
    }

    /// Reports the status of a deployment, or hands the identifier back if
    /// none is filed under it. `now` is the monotonic clock, `poll_time` the
    /// wall clock.
    pub fn poll_deployment(&mut self, id: PollingId, now: u64, poll_time: u64) -> (r: Result<PollInfo, PollingId>)
        ensures
            final(self)@ == old(self)@,
            match r {
                Ok(info) => {
                    &&& old(self)@.dom().contains(key_of(id))
                    &&& info.id == id
                    &&& info.status@ == old(self)@[key_of(id)]
                    &&& info.poll_time == poll_time
                    &&& info.duration_since_last_change == elapsed(now, old(self)@[key_of(id)].last_change())
                },
                Err(e) => !old(self)@.dom().contains(key_of(id)) && e == id,
            },
    {
        match self.peek(id.tup()) {
            Some(status) => {
                let last = status.last_change();
                let duration_since_last_change = if now >= last { now - last } else { 0 };
                Ok(PollInfo { id, status, poll_time, duration_since_last_change })
            },
            None => Err(id),
        }
    }

    /// Sets the status of a filed deployment, whatever it was, and hands a
    /// copy of it back; an unknown identifier is handed back.
    pub fn _update_deployment_state(&mut self, id: PollingId, new_status: DeploymentStatus) -> (r: Result<DeploymentStatus, PollingId>)
        ensures
            final(self)@ == after_update(old(self)@, id, new_status@),
            match r {
                Ok(status) => old(self)@.dom().contains(key_of(id)) && status@ == new_status@,
                Err(e) => !old(self)@.dom().contains(key_of(id)) && e == id,
            },
    {
        let key = id.tup();
        if registry_contains(&self.map, key) {
            let copy = new_status.duplicate();
            registry_insert(&mut self.map, key, new_status);
            Ok(copy)
        } else {
            Err(id)
        }
    }

    /// Answers a request to move a running deployment on to `new_step`, or
    /// else to the step after its current one: it hands back the status as
    /// filed, and the registry is left as it is. The identifier is handed
    /// back where no running deployment is filed under it, or where no step
    /// is given and the current one is the last.
    pub fn advance_deployment_step(&mut self, id: PollingId, new_step: Option<DeployStep>) -> (r: Result<DeploymentStatus, PollingId>)
        ensures
            final(self)@ == old(self)@,
            match r {
                Ok(status) => can_advance(old(self)@, id, new_step) && status@ == old(self)@[key_of(id)],
                Err(e) => !can_advance(old(self)@, id, new_step) && e == id,
            },
    {
        match self.peek(id.tup()) {
            Some(status) => {
                match status {
                    DeploymentStatus::InProgress(_, step) => {
                        let next = match new_step {
                            Some(s) => Some(s),
                            None => step.next(),
                        };
                        match next {
                            Some(_) => Ok(status),
                            None => Err(id),
                        }
                    },
                    _ => Err(id),
                }
            },
            None => Err(id),
        }
    }

    /// Ends a running deployment with a failure response, and hands a copy of
    /// the new status back; an unknown identifier, or one whose deployment has
    /// already ended, is handed back.
    pub fn fail_deployment(&mut self, id: PollingId, response: Response, now: u64) -> (r: Result<DeploymentStatus, PollingId>)
        ensures
            final(self)@ == after_finish(old(self)@, id, DeploymentStatusView::Failure(now, response@)),
            match r {
                Ok(status) => can_finish(old(self)@, id) && status@ == DeploymentStatusView::Failure(now, response@),
                Err(e) => !can_finish(old(self)@, id) && e == id,
            },
    {
        let key = id.tup();
        match self.peek(key) {
            Some(current) => {
                if current.is_finished() {
                    Err(id)
                } else {
                    let status = DeploymentStatus::Failure(now, response);
                    let copy = status.duplicate();
                    registry_insert(&mut self.map, key, status);
                    Ok(copy)
                }
            },
            None => Err(id),
        }
    }

    /// Ends a running deployment with success and the ports it listens on, and
    /// hands a copy of the new status back; an unknown identifier, or one whose
    /// deployment has already ended, is handed back.
    pub fn succeed_deployment(&mut self, id: PollingId, ports: Vec<i32>, now: u64) -> (r: Result<DeploymentStatus, PollingId>)
        ensures
            final(self)@ == after_finish(old(self)@, id, DeploymentStatusView::Success(now, ports@)),
            match r {
                Ok(status) => can_finish(old(self)@, id) && status@ == DeploymentStatusView::Success(now, ports@),
                Err(e) => !can_finish(old(self)@, id) && e == id,
            },
    {
        let key = id.tup();
        match self.peek(key) {
            Some(current) => {
                if current.is_finished() {
                    Err(id)
                } else {
                    let status = DeploymentStatus::Success(now, ports);
                    let copy = status.duplicate();
                    registry_insert(&mut self.map, key, status);
                    Ok(copy)
                }
            },
            None => Err(id),
        }
    }
}

/// A deployment registered under a fresh identifier is reported, when polled,
/// as building since the registration, and registering it again is refused
/// with that status.
pub proof fn lemma_register_then_poll(reg: Map<DeploymentKey, DeploymentStatusView>, id: PollingId, now: u64, later: u64)
    requires
        !reg.dom().contains(key_of(id)),
    ensures
        after_register(reg, id, now).dom().contains(key_of(id)),
        after_register(reg, id, now)[key_of(id)] == DeploymentStatusView::InProgress(now, DeployStep::Building),
        elapsed(later, after_register(reg, id, now)[key_of(id)].last_change()) == elapsed(later, now),
        after_register(after_register(reg, id, now), id, later) == after_register(reg, id, now),
{
}

/// Once filed, a deployment stays filed: no operation takes an entry out.
pub proof fn lemma_filed_stays_filed(
    reg: Map<DeploymentKey, DeploymentStatusView>,
    filed: DeploymentKey,
    id: PollingId,
    now: u64,
    status: DeploymentStatusView,
)
    requires
        reg.dom().contains(filed),
    ensures
        after_register(reg, id, now).dom().contains(filed),
        after_update(reg, id, status).dom().contains(filed),
        after_finish(reg, id, status).dom().contains(filed),
{
}

/// A finished deployment is final: it can be neither ended again nor moved on.
pub proof fn lemma_finished_is_final(
    reg: Map<DeploymentKey, DeploymentStatusView>,
    id: PollingId,
    status: DeploymentStatusView,
    new_step: Option<DeployStep>,
)
    requires
        reg.dom().contains(key_of(id)),
        reg[key_of(id)].is_finished(),
    ensures
        !can_finish(reg, id),
        after_finish(reg, id, status) == reg,
        !can_advance(reg, id, new_step),
{
}

/// Ending a running deployment files the final status, which a poll then reports.
pub proof fn lemma_finish_then_poll(
    reg: Map<DeploymentKey, DeploymentStatusView>,
    id: PollingId,
    status: DeploymentStatusView,
)
    requires
        can_finish(reg, id),
    ensures
        after_finish(reg, id, status).dom().contains(key_of(id)),
        after_finish(reg, id, status)[key_of(id)] == status,
{
}

/// An operation on one deployment leaves every other deployment as it was.
pub proof fn lemma_others_untouched(
    reg: Map<DeploymentKey, DeploymentStatusView>,
    id: PollingId,
    other: DeploymentKey,
    now: u64,
    status: DeploymentStatusView,
)
    requires
        other != key_of(id),
    ensures
        after_register(reg, id, now).dom().contains(other) == reg.dom().contains(other),
        after_update(reg, id, status).dom().contains(other) == reg.dom().contains(other),
        after_finish(reg, id, status).dom().contains(other) == reg.dom().contains(other),
        reg.dom().contains(other) ==> {
            &&& after_register(reg, id, now)[other] == reg[other]
            &&& after_update(reg, id, status)[other] == reg[other]
            &&& after_finish(reg, id, status)[other] == reg[other]
        },
{
}

/// An identifier written as `<uuid>.<uuid>` reads back as itself, whenever
/// each UUID's text reads back and holds no period (as the UUID writer
/// guarantees).
pub proof fn lemma_polling_id_text_reads_back(chall_id: u128, race_lock_id: u128)
    requires
        !uuid_text(chall_id).contains('.'),
        uuid_parse(uuid_text(chall_id)) == Some(chall_id),
        uuid_parse(uuid_text(race_lock_id)) == Some(race_lock_id),
    ensures
        spec_parse_polling_id(uuid_text(chall_id) + "."@ + uuid_text(race_lock_id))
            == Ok::<PollingId, PollingIdTextError>(PollingId { chall_id, race_lock_id }),
{
    reveal_strlit(".");
    let a = uuid_text(chall_id);
    let b = uuid_text(race_lock_id);
    let text = a + "."@ + b;
    lemma_first_index_of(text, '.');
    assert forall|j: int| 0 <= j < a.len() implies text[j] != '.' by {
        assert(text[j] == a[j]);
        if a[j] == '.' {
            assert(a.contains('.'));
        }
    }
    assert(text[a.len() as int] == '.');
    assert(first_index_of(text, '.') == Some(a.len() as int));
    assert(text.take(a.len() as int) =~= a);
    assert(text.skip(a.len() as int + 1) =~= b);
}

/// A status's text tells its kind: it is `success` exactly for a successful
/// deployment, `failure` exactly for a failed one, and `in_progress:`
/// followed by the step for one still running; statuses of different kinds
/// never share a text.
pub proof fn lemma_status_text_tells_kind(s: DeploymentStatusView, other: DeploymentStatusView)
    ensures
        (s.text() == "success"@) <==> s is Success,
        (s.text() == "failure"@) <==> s is Failure,
        s is InProgress ==> s.text().len() > 12 && s.text().take(12) == "in_progress:"@,
        (s is InProgress) != (other is InProgress) || (s is Success) != (other is Success) ==> s.text() != other.text(),
{
    reveal_strlit("success");
    reveal_strlit("failure");
    reveal_strlit("in_progress:");
    reveal_strlit("in_progress:building");
    reveal_strlit("in_progress:pushing");
    reveal_strlit("in_progress:pulling");
    reveal_strlit("in_progress:deploying");
    assert("in_progress:building"@.take(12) =~= "in_progress:"@);
    assert("in_progress:pushing"@.take(12) =~= "in_progress:"@);
    assert("in_progress:pulling"@.take(12) =~= "in_progress:"@);
    assert("in_progress:deploying"@.take(12) =~= "in_progress:"@);
    assert("success"@ != "failure"@) by {
        assert("success"@[0] != "failure"@[0]);
    }
    if s is InProgress {
        assert(s.text() != "success"@) by {
            assert(s.text().len() != "success"@.len());
        }
        assert(s.text() != "failure"@) by {
            assert(s.text().len() != "failure"@.len());
        }
    }
    if other is InProgress {
        assert(other.text().len() > 7);
    }
}

} // verus!
