//! The service that the RPC endpoints call: it runs the platform's
//! operations on one shared list of launched applications.

use vstd::prelude::*;
use vstd::string::*;

use crate::actions::deploy::{deploy_plan, plan_result_view, DeployAction, DeployPlan};
use crate::actions::deploy_agent::{agent_target, deployed, opt_view, DeployAgentAction};
use crate::actions::info::{info_at, info_outcome, info_result_view, InfoAction};
use crate::actions::{outcome_view, Action};
use crate::errors::{AppError, ErrorView};
use crate::launched_apps::{law_recorded_is_listed, lists, records, LaunchedApps};
use crate::models::{
    accesses_view, AccessView, ApplicationAccess, DeployAgentRequest, DeployAgentResponse,
    DeployRequest, DeployResponse, InfoResponse,
};
use crate::registry::ActionRegistry;
use crate::text::str_equal;

verus! {

/// The error of a request for info through the generic action endpoint.
pub open spec fn info_only_via_rpc() -> ErrorView {
    ErrorView::Execution("action 'info' is available only via Info RPC"@)
}

/// Runs the platform's operations.
pub struct AppService {
    info_action: InfoAction,
    deploy_action: DeployAction,
    deploy_agent_action: DeployAgentAction,
    launched_apps: LaunchedApps,
    registry: ActionRegistry<Box<dyn Action>>,
}

impl AppService {
    /// The applications that the service has launched.
    pub closed spec fn launched(&self) -> Seq<AccessView> {
        self.launched_apps@
    }

    /// The actions that the service runs by name.
    pub closed spec fn actions(&self) -> Map<Seq<char>, Box<dyn Action>> {
        self.registry@
    }

    /// Whether the service's registry is well formed.
    pub closed spec fn wf(&self) -> bool {
        self.registry.wf()
    }

    /// A service with these actions, which starts from `launched_apps` and
    /// runs the actions of `registry` by name.
    pub fn new(
        info_action: InfoAction,
        deploy_action: DeployAction,
        deploy_agent_action: DeployAgentAction,
        launched_apps: LaunchedApps,
        registry: ActionRegistry<Box<dyn Action>>,
    ) -> (r: AppService)
        requires
            registry.wf(),
        ensures
            r.wf(),
            r.launched() == launched_apps@,
            r.actions() == registry@,
    {
        AppService { info_action, deploy_action, deploy_agent_action, launched_apps, registry }
    }

    /// The platform's info now, listing the launched applications.
    pub fn get_info(&self) -> (r: Result<InfoResponse, AppError>)
        ensures
            exists|clock: Result<nat, Seq<char>>|
                info_result_view(r) == #[trigger] info_outcome(Seq::empty(), clock, self.launched()),
    {
        let empty: Vec<u8> = Vec::new();
        let ghost input = empty@;
        let r = self.info_action.execute(empty, &self.launched_apps);
        proof {
            let clock = choose|clock: Result<nat, Seq<char>>|
                info_result_view(r) == #[trigger] info_outcome(input, clock, self.launched_apps@);
            assert(input =~= Seq::<u8>::empty());
            assert(info_result_view(r) == info_outcome(Seq::empty(), clock, self.launched()));
        }
        r
    }

    /// Records the application that an agent deployed, as the deploy-agent
    /// action does.
    pub fn deploy_agent(&mut self, req: &DeployAgentRequest) -> (r: Result<DeployAgentResponse, AppError>)
        requires
            old(self).wf(),
        ensures
            final(self).wf(),
            final(self).actions() == old(self).actions(),
            match agent_target(req.application@, opt_view(req.url)) {
                Err(e) => r matches Err(err) && err@ == e && final(self).launched() == old(
                    self,
                ).launched(),
                Ok((name, url)) => r matches Ok(resp) && resp@ == deployed(
                    name,
                    url,
                    "deploy-agent"@,
                ) && final(self).launched() == records(old(self).launched(), name, url),
            },
    {
        self.deploy_agent_action.deploy(&mut self.launched_apps, req)
    }

    /// What the deploy of `req` does, or why it is refused.
    pub fn plan_deploy(&self, req: &DeployRequest) -> (r: Result<DeployPlan, AppError>)
        ensures
            plan_result_view(r) == deploy_plan(
                req.application@,
                opt_view(req.url),
                opt_view(req.listen),
            ),
    {
        self.deploy_action.plan(req)
    }

    /// Records what `plan` deploys, once its program, if any, answers.
    pub fn finish_deploy(&mut self, plan: &DeployPlan) -> (r: DeployResponse)
        requires
            old(self).wf(),
        ensures
            final(self).wf(),
            final(self).actions() == old(self).actions(),
            r@ == deployed(plan.application@, plan.url@, "deploy"@),
            final(self).launched() == records(old(self).launched(), plan.application@, plan.url@),
    {
        self.deploy_action.finish(&mut self.launched_apps, plan)
    }

    /// Runs the action registered under `name` on `payload`. Info has its
    /// own RPC: a request for it here is refused, whatever is registered.
    pub fn execute(&self, name: &str, payload: Vec<u8>) -> (r: Result<Vec<u8>, AppError>)
        requires
            self.wf(),
        ensures
            name@ == "info"@ ==> outcome_view(r) == Err::<Seq<u8>, ErrorView>(info_only_via_rpc()),
            name@ != "info"@ && !self.actions().contains_key(name@) ==> outcome_view(r) == Err::<
                Seq<u8>,
                ErrorView,
            >(ErrorView::ActionNotFound(name@)),
            name@ != "info"@ && self.actions().contains_key(name@) ==> self.actions()[name@].answers(
                payload@,
                outcome_view(r),
            ),
    {
        if str_equal(name, "info") {
            return Err(AppError::Execution(String::from_str("action 'info' is available only via Info RPC")));
        }
        self.registry.execute(name, payload)
    }

    /// The applications launched so far.
    pub fn launched_applications(&self) -> (r: Vec<ApplicationAccess>)
        ensures
            accesses_view(r@) == self.launched(),
    {
        self.launched_apps.list()
    }
}

/// After an agent's deploy is accepted, the info report, whenever it is
/// served, lists the application at the URL the deploy answered with.
pub proof fn law_deploy_agent_then_info(
    apps: Seq<AccessView>,
    application: Seq<char>,
    url: Option<Seq<char>>,
    millis: nat,
)
    requires
        agent_target(application, url) is Ok,
    ensures
        ({
            let (name, at) = agent_target(application, url)->Ok_0;
            &&& lists(info_at(millis, records(apps, name, at)).launched_applications, name, at)
            &&& deployed(name, at, "deploy-agent"@).application == name
            &&& deployed(name, at, "deploy-agent"@).url == at
        }),
{
    let (name, at) = agent_target(application, url)->Ok_0;
    law_recorded_is_listed(apps, name, at);
}

/// After a deploy is finished, the info report lists the application at the
/// URL of its plan.
pub proof fn law_deploy_then_info(
    apps: Seq<AccessView>,
    application: Seq<char>,
    url: Option<Seq<char>>,
    listen: Option<Seq<char>>,
    millis: nat,
)
    requires
        deploy_plan(application, url, listen) is Ok,
    ensures
        ({
            let plan = deploy_plan(application, url, listen)->Ok_0;
            lists(
                info_at(millis, records(apps, plan.application, plan.url)).launched_applications,
                plan.application,
                plan.url,
            )
        }),
{
    let plan = deploy_plan(application, url, listen)->Ok_0;
    law_recorded_is_listed(apps, plan.application, plan.url);
}

} // verus!
