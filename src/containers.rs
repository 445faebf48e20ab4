use vstd::prelude::*;
use crate::plan::{Call, plan_outcome};
use crate::status::Status;

verus! {

/// The desired state of a container: running (`true`) or stopped (`false`).
#[derive(Clone, Copy, Debug, PartialEq, Eq, Structural)]
pub struct UpdateContainerRequest {
    pub running: bool,
}

/// A call to the container engine, on the container that the request names
/// where the call takes one.
#[derive(Clone, Copy, Debug, PartialEq, Eq, Structural)]
pub enum ContainerAction {
    /// Open a connection to the engine.
    Connect,
    /// List every container, stopped ones included.
    ListAll,
    Inspect,
    Start,
    Stop,
}

pub open spec fn container_call(action: ContainerAction, on_failure: Status) -> Call<ContainerAction> {
    Call { action, on_failure }
}

pub open spec fn list_containers_calls() -> Seq<Call<ContainerAction>> {
    seq![
        container_call(ContainerAction::Connect, Status::InternalServerError),
        container_call(ContainerAction::ListAll, Status::InternalServerError),
    ]
}

pub open spec fn get_container_calls() -> Seq<Call<ContainerAction>> {
    seq![
        container_call(ContainerAction::Connect, Status::InternalServerError),
        container_call(ContainerAction::Inspect, Status::NotFound),
    ]
}

/// Starting for a running request, stopping otherwise, then always inspecting.
pub open spec fn update_container_calls(running: bool) -> Seq<Call<ContainerAction>> {
    seq![
        container_call(ContainerAction::Connect, Status::InternalServerError),
        container_call(
            if running {
                ContainerAction::Start
            } else {
                ContainerAction::Stop
            },
            Status::InternalServerError,
        ),
        container_call(ContainerAction::Inspect, Status::InternalServerError),
    ]
}

/// The calls that listing the containers makes; on success the listing is
/// relayed in the engine's order.
pub fn list_containers_plan() -> (r: Vec<Call<ContainerAction>>)
    ensures
        r@ == list_containers_calls(),
{
    let r = vec![
        Call { action: ContainerAction::Connect, on_failure: Status::InternalServerError },
        Call { action: ContainerAction::ListAll, on_failure: Status::InternalServerError },
    ];
    assert(r@ =~= list_containers_calls());
    r
}

/// The calls that getting one container makes; on success the inspection is
/// relayed.
pub fn get_container_plan() -> (r: Vec<Call<ContainerAction>>)
    ensures
        r@ == get_container_calls(),
{
    let r = vec![
        Call { action: ContainerAction::Connect, on_failure: Status::InternalServerError },
        Call { action: ContainerAction::Inspect, on_failure: Status::NotFound },
    ];
    assert(r@ =~= get_container_calls());
    r
}

/// The calls that bringing a container to the requested state makes; on success
/// the final inspection is relayed.
pub fn update_container_plan(request: &UpdateContainerRequest) -> (r: Vec<Call<ContainerAction>>)
    ensures
        r@ == update_container_calls(request.running),
{
    let change = if request.running {
        ContainerAction::Start
    } else {
        ContainerAction::Stop
    };
    let r = vec![
        Call { action: ContainerAction::Connect, on_failure: Status::InternalServerError },
        Call { action: change, on_failure: Status::InternalServerError },
        Call { action: ContainerAction::Inspect, on_failure: Status::InternalServerError },
    ];
    assert(r@ =~= update_container_calls(request.running));
    r
}

/// Against an engine that does not change between the calls, getting a
/// container that a successful listing returned succeeds: the engine accepted
/// the connection for the listing, and inspects what it listed.
pub proof fn lemma_listed_container_found(fails: spec_fn(ContainerAction) -> bool)
    requires
        plan_outcome(list_containers_calls(), fails) == Status::Success,
        !fails(ContainerAction::Inspect),
    ensures
        plan_outcome(get_container_calls(), fails) == Status::Success,
{
    reveal_with_fuel(plan_outcome, 3);
    assert(list_containers_calls().drop_first().drop_first() =~= Seq::empty());
    assert(get_container_calls().drop_first().drop_first() =~= Seq::empty());
}

/// An update whose start or stop the engine refuses, as it does for a container
/// that does not exist, ends in 500, never in success.
pub proof fn lemma_refused_change_is_server_error(
    running: bool,
    fails: spec_fn(ContainerAction) -> bool,
)
    requires
        fails(
            if running {
                ContainerAction::Start
            } else {
                ContainerAction::Stop
            },
        ),
    ensures
        plan_outcome(update_container_calls(running), fails) == Status::InternalServerError,
{
    reveal_with_fuel(plan_outcome, 3);
}

} // verus!
