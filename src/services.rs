use vstd::prelude::*;
use crate::plan::{Call, plan_outcome};
use crate::status::Status;

verus! {

/// The five operations that a client may ask of a service.
#[derive(Clone, Copy, Debug, PartialEq, Eq, Structural)]
pub enum ServiceCommand {
    Start,
    Stop,
    Restart,
    Enable,
    Disable,
}

#[derive(Clone, Copy, Debug, PartialEq, Eq, Structural)]
pub struct UpdateServiceRequest {
    pub command: ServiceCommand,
}

/// What the gateway reports of one unit, taken fresh from the manager's listing.
#[derive(Debug)]
pub struct ServiceInfo {
    pub name: String,
    pub active_state: String,
    pub sub_state: String,
    pub load_state: String,
}

impl Clone for ServiceInfo {
    fn clone(&self) -> (r: Self)
        ensures
            r == *self,
    {
        ServiceInfo {
            name: self.name.clone(),
            active_state: self.active_state.clone(),
            sub_state: self.sub_state.clone(),
            load_state: self.load_state.clone(),
        }
    }
}

/// A call to the service manager, on the unit that the plan names where the call
/// takes one. Start, stop and restart replace any conflicting job queued for the
/// unit.
#[derive(Clone, Copy, Debug, PartialEq, Eq, Structural)]
pub enum ServiceAction {
    /// Connect to the session bus; fails at once where no session bus address
    /// is configured.
    Connect,
    /// Obtain a handle on the manager.
    CreateManager,
    ListUnits,
    StartUnit,
    StopUnit,
    RestartUnit,
    EnableUnitFile { runtime: bool, force: bool },
    DisableUnitFile { runtime: bool },
}

/// The calls of an operation on one unit, and that unit's full name.
#[derive(Debug)]
pub struct ServicePlan {
    pub unit: String,
    pub calls: Vec<Call<ServiceAction>>,
}

/// The literal suffix `".service"`.
pub open spec fn service_suffix() -> Seq<char> {
    seq!['.', 's', 'e', 'r', 'v', 'i', 'c', 'e']
}

pub open spec fn has_service_suffix(s: Seq<char>) -> bool {
    s.len() >= service_suffix().len() && s.subrange(
        s.len() - service_suffix().len(),
        s.len() as int,
    ) == service_suffix()
}

/// A unit name with `".service"` appended unless it already ends so.
pub open spec fn normalize(s: Seq<char>) -> Seq<char> {
    if has_service_suffix(s) {
        s
    } else {
        s + service_suffix()
    }
}

fn ends_with_service(name: &str) -> (r: bool)
    ensures
        r == has_service_suffix(name@),
{
    let suffix = ".service";
    proof {
        reveal_strlit(".service");
        assert(suffix@ =~= service_suffix());
    }
    let n = name.unicode_len();
    if n < 8 {
        false
    } else {
        String::from_str(name.substring_char(n - 8, n)) == String::from_str(suffix)
    }
}

/// The full unit name for a short or full one.
pub fn normalize_service_name(name: &str) -> (r: String)
    ensures
        r@ == normalize(name@),
{
    let suffix = ".service";
    proof {
        reveal_strlit(".service");
        assert(suffix@ =~= service_suffix());
    }
    if ends_with_service(name) {
        String::from_str(name)
    } else {
        String::from_str(name).concat(suffix)
    }
}

/// Normalizing is idempotent, and its result always carries the suffix.
pub proof fn lemma_normalize_idempotent(s: Seq<char>)
    ensures
        has_service_suffix(normalize(s)),
        normalize(normalize(s)) == normalize(s),
{
    if !has_service_suffix(s) {
        let t = s + service_suffix();
        assert(t.subrange(t.len() - 8, t.len() as int) =~= service_suffix());
    }
}

pub open spec fn is_service(u: ServiceInfo) -> bool {
    has_service_suffix(u.name@)
}

/// The records of a listing whose unit is a service, in the listing's order.
pub fn filter_services(units: Vec<ServiceInfo>) -> (r: Vec<ServiceInfo>)
    ensures
        r@ == units@.filter(|u: ServiceInfo| is_service(u)),
{
    let mut r: Vec<ServiceInfo> = Vec::new();
    let mut i: usize = 0;
    while i < units.len()
        invariant
            i <= units@.len(),
            r@ == units@.subrange(0, i as int).filter(|u: ServiceInfo| is_service(u)),
        decreases units@.len() - i,
    {
        let u = units[i].clone();
        let keep = ends_with_service(u.name.as_str());
        proof {
            reveal(Seq::filter);
            assert(units@.subrange(0, i + 1).drop_last() =~= units@.subrange(0, i as int));
        }
        if keep {
            r.push(u);
        }
        i = i + 1;
    }
    assert(units@.subrange(0, units@.len() as int) =~= units@);
    r
}

/// Whether the listing holds a record for the unit `name`.
pub open spec fn lists_unit(units: Seq<ServiceInfo>, name: Seq<char>) -> bool {
    exists|i: int| 0 <= i < units.len() && #[trigger] units[i].name@ == name
}

/// `r` is what looking up `name` in the listing gives: the first record for that
/// unit, or 404 where the listing holds none.
pub open spec fn found_record(
    units: Seq<ServiceInfo>,
    name: Seq<char>,
    r: Result<ServiceInfo, Status>,
) -> bool {
    &&& (r is Ok <==> lists_unit(units, name))
    &&& (r is Err ==> r == Err::<ServiceInfo, Status>(Status::NotFound))
    &&& (r is Ok ==> exists|i: int|
        0 <= i < units.len() && units[i].name@ == name && r == Ok::<ServiceInfo, Status>(
            #[trigger] units[i],
        ) && forall|j: int| 0 <= j < i ==> units[j].name@ != name)
}

/// The first record of the listing for the unit `name`, or 404 where there is none.
pub fn find_service(units: Vec<ServiceInfo>, name: &str) -> (r: Result<ServiceInfo, Status>)
    ensures
        found_record(units@, name@, r),
{
    let mut pool = units;
    let ghost original = pool@;
    let wanted = String::from_str(name);
    let mut i: usize = 0;
    while i < pool.len()
        invariant
            pool@ == original,
            original == units@,
            i <= pool@.len(),
            wanted@ == name@,
            forall|j: int| 0 <= j < i ==> pool@[j].name@ != name@,
        decreases pool@.len() - i,
    {
        if pool[i].name == wanted {
            let found = pool.remove(i);
            assert(found == original[i as int] && original[i as int].name@ == name@);
            assert(lists_unit(original, name@));
            return Ok(found);
        }
        i = i + 1;
    }
    assert(!lists_unit(original, name@));
    Err(Status::NotFound)
}

pub open spec fn service_call(action: ServiceAction) -> Call<ServiceAction> {
    Call { action, on_failure: Status::InternalServerError }
}

/// Connecting, obtaining the manager and listing the units; each failure is 500.
pub open spec fn listing_calls() -> Seq<Call<ServiceAction>> {
    seq![
        service_call(ServiceAction::Connect),
        service_call(ServiceAction::CreateManager),
        service_call(ServiceAction::ListUnits),
    ]
}

/// The manager call that carries out a command: lifecycle changes replace
/// conflicting jobs; unit files change persistently, enabling by force.
pub open spec fn command_action(command: ServiceCommand) -> ServiceAction {
    match command {
        ServiceCommand::Start => ServiceAction::StartUnit,
        ServiceCommand::Stop => ServiceAction::StopUnit,
        ServiceCommand::Restart => ServiceAction::RestartUnit,
        ServiceCommand::Enable => ServiceAction::EnableUnitFile { runtime: false, force: true },
        ServiceCommand::Disable => ServiceAction::DisableUnitFile { runtime: false },
    }
}

/// Connecting and obtaining the manager, carrying out the command, then listing
/// the units afresh; each failure is 500.
pub open spec fn update_calls(command: ServiceCommand) -> Seq<Call<ServiceAction>> {
    seq![
        service_call(ServiceAction::Connect),
        service_call(ServiceAction::CreateManager),
        service_call(command_action(command)),
        service_call(ServiceAction::ListUnits),
    ]
}

fn listing_plan() -> (r: Vec<Call<ServiceAction>>)
    ensures
        r@ == listing_calls(),
{
    let r = vec![
        Call { action: ServiceAction::Connect, on_failure: Status::InternalServerError },
        Call { action: ServiceAction::CreateManager, on_failure: Status::InternalServerError },
        Call { action: ServiceAction::ListUnits, on_failure: Status::InternalServerError },
    ];
    assert(r@ =~= listing_calls());
    r
}

/// The calls that listing the services makes; on success the listing goes
/// through `filter_services`.
pub fn list_services_plan() -> (r: Vec<Call<ServiceAction>>)
    ensures
        r@ == listing_calls(),
{
    listing_plan()
}

/// The calls that getting one service makes, on its normalized name; on success
/// the listing goes through `find_service` with that name.
pub fn get_service_plan(name: &str) -> (r: ServicePlan)
    ensures
        r.unit@ == normalize(name@),
        r.calls@ == listing_calls(),
{
    ServicePlan { unit: normalize_service_name(name), calls: listing_plan() }
}

/// The calls that carrying out a command on a service makes, on its normalized
/// name; on success the fresh listing goes through `find_service` with that name.
pub fn update_service_plan(name: &str, request: &UpdateServiceRequest) -> (r: ServicePlan)
    ensures
        r.unit@ == normalize(name@),
        r.calls@ == update_calls(request.command),
{
    let action = match request.command {
        ServiceCommand::Start => ServiceAction::StartUnit,
        ServiceCommand::Stop => ServiceAction::StopUnit,
        ServiceCommand::Restart => ServiceAction::RestartUnit,
        ServiceCommand::Enable => ServiceAction::EnableUnitFile { runtime: false, force: true },
        ServiceCommand::Disable => ServiceAction::DisableUnitFile { runtime: false },
    };
    let calls = vec![
        Call { action: ServiceAction::Connect, on_failure: Status::InternalServerError },
        Call { action: ServiceAction::CreateManager, on_failure: Status::InternalServerError },
        Call { action, on_failure: Status::InternalServerError },
        Call { action: ServiceAction::ListUnits, on_failure: Status::InternalServerError },
    ];
    assert(calls@ =~= update_calls(request.command));
    ServicePlan { unit: normalize_service_name(name), calls }
}

/// The status of an operation on one unit whose calls the manager answers as
/// `fails` says and whose listing is `units`.
pub open spec fn service_outcome(
    calls: Seq<Call<ServiceAction>>,
    fails: spec_fn(ServiceAction) -> bool,
    units: Seq<ServiceInfo>,
    unit: Seq<char>,
) -> Status {
    if plan_outcome(calls, fails) != Status::Success {
        plan_outcome(calls, fails)
    } else if lists_unit(units, unit) {
        Status::Success
    } else {
        Status::NotFound
    }
}

/// Getting a service that the manager's listing does not hold answers 404, not
/// 500 or success, whenever the manager is reachable.
pub proof fn lemma_missing_service_not_found(
    name: Seq<char>,
    fails: spec_fn(ServiceAction) -> bool,
    units: Seq<ServiceInfo>,
)
    requires
        plan_outcome(listing_calls(), fails) == Status::Success,
        !lists_unit(units, normalize(name)),
    ensures
        service_outcome(listing_calls(), fails, units, normalize(name)) == Status::NotFound,
        forall|r: Result<ServiceInfo, Status>|
            found_record(units, normalize(name), r) ==> r == Err::<ServiceInfo, Status>(
                Status::NotFound,
            ),
{
}

/// After a start that the manager accepted, with a fresh listing in which every
/// record of the unit shows the state `state` (as a well-behaved manager shows a
/// started unit), both the update and a get of the same name that follows it
/// succeed and report that state.
pub proof fn lemma_started_service_reports_state(
    name: Seq<char>,
    fails: spec_fn(ServiceAction) -> bool,
    units: Seq<ServiceInfo>,
    state: Seq<char>,
)
    requires
        plan_outcome(update_calls(ServiceCommand::Start), fails) == Status::Success,
        lists_unit(units, normalize(name)),
        forall|i: int|
            0 <= i < units.len() && #[trigger] units[i].name@ == normalize(name)
                ==> units[i].active_state@ == state,
    ensures
        update_calls(ServiceCommand::Start)[2].action == ServiceAction::StartUnit,
        service_outcome(update_calls(ServiceCommand::Start), fails, units, normalize(name))
            == Status::Success,
        service_outcome(listing_calls(), fails, units, normalize(name)) == Status::Success,
        forall|r: Result<ServiceInfo, Status>|
            found_record(units, normalize(name), r) ==> r is Ok && r->Ok_0.active_state@
                == state,
{
    reveal_with_fuel(plan_outcome, 5);
}

} // verus!
