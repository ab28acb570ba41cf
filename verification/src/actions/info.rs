//! The info operation: what the platform is, where it answers, and which
//! applications it has launched.

use vstd::prelude::*;
use vstd::string::*;

use crate::errors::{AppError, ErrorView};
use crate::launched_apps::LaunchedApps;
use crate::models::{AccessView, EndpointView, InfoEndpoint, InfoResponse, InfoView};
use crate::text::{decimal, decimal_string, has_prefix, lemma_decimal_injective};

verus! {

/// The endpoints that the info operation lists.
pub open spec fn info_endpoints() -> Seq<EndpointView> {
    seq![
        EndpointView {
            name: "grpc_info_rpc"@,
            value: "/manager.InfoService/Info (InfoRequest -> InfoResponse)"@,
        },
        EndpointView {
            name: "grpc_execute_rpc"@,
            value: "/action.ActionService/Execute (generic action endpoint)"@,
        },
    ]
}

/// The task identifier of an info request served at `millis` milliseconds
/// after the Unix epoch.
pub open spec fn task_id_at(millis: nat) -> Seq<char> {
    "task-"@ + decimal(millis)
}

/// What the info operation reports at `millis` milliseconds after the Unix
/// epoch, with `apps` launched.
pub open spec fn info_at(millis: nat, apps: Seq<AccessView>) -> InfoView {
    InfoView {
        application: "platform-manager"@,
        endpoints: info_endpoints(),
        launched_applications: apps,
        task_id: task_id_at(millis),
    }
}

/// What the info operation answers to `input` when the clock read `clock`:
/// a payload is refused, a clock failure is an execution error, otherwise
/// the report at that time.
pub open spec fn info_outcome(
    input: Seq<u8>,
    clock: Result<nat, Seq<char>>,
    apps: Seq<AccessView>,
) -> Result<InfoView, ErrorView> {
    if input.len() > 0 {
        Err(ErrorView::InvalidPayload)
    } else {
        match clock {
            Ok(millis) => Ok(info_at(millis, apps)),
            Err(text) => Err(ErrorView::Execution(text)),
        }
    }
}

/// The content of a clock reading in milliseconds, or of its failure.
pub open spec fn clock_view(clock: Result<u128, String>) -> Result<nat, Seq<char>> {
    match clock {
        Ok(millis) => Ok(millis as nat),
        Err(text) => Err(text@),
    }
}

/// The content of the result of an info request.
pub open spec fn info_result_view(r: Result<InfoResponse, AppError>) -> Result<InfoView, ErrorView> {
    match r {
        Ok(info) => Ok(info@),
        Err(e) => Err(e@),
    }
}

/// Every task identifier begins with `task-`.
pub proof fn law_task_id_prefix(millis: nat)
    ensures
        has_prefix(task_id_at(millis), "task-"@),
{
    assert(task_id_at(millis).subrange(0, "task-"@.len() as int) =~= "task-"@);
}

/// Info reports served at two different clock readings carry different
/// task identifiers, and each names its reading in decimal after `task-`.
pub proof fn law_task_ids_tell_times_apart(
    a: nat,
    b: nat,
    apps_a: Seq<AccessView>,
    apps_b: Seq<AccessView>,
)
    ensures
        a != b ==> info_at(a, apps_a).task_id != info_at(b, apps_b).task_id,
        info_at(a, apps_a).task_id.skip("task-"@.len() as int) == decimal(a),
        has_prefix(info_at(a, apps_a).task_id, "task-"@),
{
    law_task_id_prefix(a);
    let ta = info_at(a, apps_a).task_id;
    let tb = info_at(b, apps_b).task_id;
    assert(ta.skip("task-"@.len() as int) =~= decimal(a));
    assert(tb.skip("task-"@.len() as int) =~= decimal(b));
    if ta == tb {
        lemma_decimal_injective(a, b);
    }
}

/// The report that the info operation gives for a clock reading lists the
/// platform under its own name, the launched applications as given, and
/// the two endpoints of the info and generic action RPCs, by these names and
/// paths.
pub proof fn law_info_report(millis: nat, apps: Seq<AccessView>)
    ensures
        info_at(millis, apps).application == "platform-manager"@,
        info_at(millis, apps).launched_applications == apps,
        info_at(millis, apps).endpoints.len() == 2,
        info_at(millis, apps).endpoints[0].name == "grpc_info_rpc"@,
        info_at(millis, apps).endpoints[0].value
            == "/manager.InfoService/Info (InfoRequest -> InfoResponse)"@,
        info_at(millis, apps).endpoints[1].name == "grpc_execute_rpc"@,
        info_at(millis, apps).endpoints[1].value
            == "/action.ActionService/Execute (generic action endpoint)"@,
{
}

#[verifier::external_type_specification]
#[verifier::external_body]
pub struct ExSystemTime(std::time::SystemTime);

#[verifier::external_type_specification]
#[verifier::external_body]
pub struct ExSystemTimeError(std::time::SystemTimeError);

/// Calls `SystemTime::now`. The reading depends on the machine's clock, so
/// nothing is stated of it.
#[verifier::external_body]
fn system_time_now() -> std::time::SystemTime {
    std::time::SystemTime::now()
}

/// Calls `SystemTime::duration_since` with `UNIX_EPOCH`. Whether it fails
/// depends on the clock reading, so nothing is stated of the result.
#[verifier::external_body]
fn duration_since_unix_epoch(t: &std::time::SystemTime) -> Result<
    std::time::Duration,
    std::time::SystemTimeError,
> {
    t.duration_since(std::time::UNIX_EPOCH)
}

/// Calls `Duration::as_millis`. A `Duration` is opaque here, so nothing is
/// stated of the number it gives.
#[verifier::external_body]
fn duration_as_millis(d: &std::time::Duration) -> u128 {
    d.as_millis()
}

/// Calls `ToString::to_string` on a `SystemTimeError`. Its text is not
/// stated.
#[verifier::external_body]
fn system_time_error_text(e: &std::time::SystemTimeError) -> String {
    e.to_string()
}

/// Reads the clock: milliseconds since the Unix epoch, or the text of the
/// error where the clock stands before it.
fn unix_millis() -> (r: Result<u128, String>) {
    let now = system_time_now();
    match duration_since_unix_epoch(&now) {
        Ok(elapsed) => Ok(duration_as_millis(&elapsed)),
        Err(e) => Err(system_time_error_text(&e)),
    }
}

/// Reports the platform, its endpoints and its launched applications.
pub struct InfoAction;

impl InfoAction {
    /// The info action.
    pub fn new() -> (r: InfoAction) {
        InfoAction
    }

    /// The report at `millis` milliseconds after the Unix epoch.
    pub fn info_at(&self, millis: u128, apps: &LaunchedApps) -> (r: InfoResponse)
        ensures
            r@ == info_at(millis as nat, apps@),
    {
        let mut endpoints: Vec<InfoEndpoint> = Vec::new();
        endpoints.push(
            InfoEndpoint {
                name: String::from_str("grpc_info_rpc"),
                value: String::from_str("/manager.InfoService/Info (InfoRequest -> InfoResponse)"),
            },
        );
        endpoints.push(
            InfoEndpoint {
                name: String::from_str("grpc_execute_rpc"),
                value: String::from_str("/action.ActionService/Execute (generic action endpoint)"),
            },
        );
        let task_id = String::from_str("task-").concat(decimal_string(millis).as_str());
        let r = InfoResponse {
            application: String::from_str("platform-manager"),
            endpoints,
            launched_applications: apps.list(),
            task_id,
        };
        proof {
            assert(r@.endpoints =~= info_endpoints());
        }
        r
    }

    /// The answer to an info request with payload `input`, given the clock
    /// reading `clock`.
    pub fn info_from_clock(
        &self,
        input: &[u8],
        clock: Result<u128, String>,
        apps: &LaunchedApps,
    ) -> (r: Result<InfoResponse, AppError>)
        ensures
            info_result_view(r) == info_outcome(input@, clock_view(clock), apps@),
    {
        if input.len() > 0 {
            return Err(AppError::InvalidPayload);
        }
        match clock {
            Ok(millis) => Ok(self.info_at(millis, apps)),
            Err(text) => Err(AppError::Execution(text)),
        }
    }

    /// The answer to an info request with payload `input`, at the time the
    /// clock reads now: a payload is refused, otherwise the report lists
    /// `apps`.
    pub fn execute(&self, input: Vec<u8>, apps: &LaunchedApps) -> (r: Result<InfoResponse, AppError>)
        ensures
            exists|clock: Result<nat, Seq<char>>|
                info_result_view(r) == #[trigger] info_outcome(input@, clock, apps@),
    {
        let clock = unix_millis();
        let r = self.info_from_clock(input.as_slice(), clock, apps);
        assert(info_result_view(r) == info_outcome(input@, clock_view(clock), apps@));
        r
    }
}

} // verus!
