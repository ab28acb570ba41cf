//! The deploy operation: it records an application at its URL and, where the
//! request says where the application should listen, has it started and
//! probed until it answers.
//!
//! Starting the program and running the probe are left to the caller: this
//! module decides what to start, how to read a probe's failure, when to
//! retry and when to give up, and what the deploy answers.

use vstd::prelude::*;
use vstd::string::*;

use crate::actions::deploy_agent::{default_url, deployed, deployed_message, opt_view};
use crate::errors::{AppError, ErrorView};
use crate::launched_apps::{records, LaunchedApps};
use crate::models::{DeployRequest, DeployResponse};
use crate::text::{has_prefix, starts_with, strip_prefix, trim, trim_str};

verus! {

/// How many times a started application is probed before the deploy fails.
pub const PROBE_MAX_ATTEMPTS: usize = 10;

/// How long to wait between two probes, in milliseconds.
pub const PROBE_RETRY_DELAY_MILLIS: u64 = 250;

/// The environment variable that names the command-line client used for
/// probing.
pub const CLI_PATH_VARIABLE: &'static str = "PLATFORM_MANAGER_CLI_PATH";

/// A text that is given and is not blank, trimmed.
pub open spec fn present(o: Option<Seq<char>>) -> Option<Seq<char>> {
    match o {
        Some(v) => if trim(v).len() > 0 {
            Some(trim(v))
        } else {
            None
        },
        None => None,
    }
}

/// `url` with the scheme `http://` put in front where it has neither
/// `http://` nor `https://`.
pub open spec fn normalized_url(url: Seq<char>) -> Seq<char> {
    if has_prefix(url, "http://"@) || has_prefix(url, "https://"@) {
        url
    } else {
        "http://"@ + url
    }
}

/// The address given to a started application: `listen` without an
/// `http://` or `https://` scheme.
pub open spec fn listen_arg(listen: Seq<char>) -> Seq<char> {
    if has_prefix(listen, "http://"@) {
        listen.skip("http://"@.len() as int)
    } else if has_prefix(listen, "https://"@) {
        listen.skip("https://"@.len() as int)
    } else {
        listen
    }
}

/// The content of a [`Launch`].
pub struct LaunchView {
    pub program: Seq<char>,
    pub listen_arg: Seq<char>,
}

/// The content of a [`DeployPlan`].
pub struct PlanView {
    pub application: Seq<char>,
    pub url: Seq<char>,
    pub launch: Option<LaunchView>,
}

/// What a deploy request asks for, or why it is refused. The name is trimmed
/// and must not be empty. A URL that is given and not blank is normalized;
/// otherwise the URL is `http://` and the listen address, where one is given
/// and not blank, else the default URL. With a listen address the program
/// named like the application is started on it.
pub open spec fn deploy_plan(
    application: Seq<char>,
    url: Option<Seq<char>>,
    listen: Option<Seq<char>>,
) -> Result<PlanView, ErrorView> {
    let name = trim(application);
    if name.len() == 0 {
        Err(ErrorView::InvalidPayload)
    } else {
        let l = present(listen);
        let u = match present(url) {
            Some(u) => normalized_url(u),
            None => match l {
                Some(addr) => "http://"@ + addr,
                None => default_url(name),
            },
        };
        Ok(
            PlanView {
                application: name,
                url: u,
                launch: match l {
                    Some(addr) => Some(LaunchView { program: name, listen_arg: listen_arg(addr) }),
                    None => None,
                },
            },
        )
    }
}

/// The text with which the deploy gives up probing `url` after the failure
/// `last_error`.
pub open spec fn probe_give_up_text(url: Seq<char>, last_error: Seq<char>) -> Seq<char> {
    "failed to validate deployment via info command against '"@ + url + "': "@ + last_error
}

/// How a failed probe run is described: its trimmed error output, or, where
/// that is blank, its exit status.
pub open spec fn probe_failure(stderr: Seq<char>, status: Seq<char>) -> Seq<char> {
    if trim(stderr).len() == 0 {
        "info command exited with "@ + status
    } else {
        trim(stderr)
    }
}

/// The error of a program that could not be started.
pub open spec fn spawn_failure(program: Seq<char>, error: Seq<char>) -> ErrorView {
    ErrorView::Execution("failed to spawn '"@ + program + "': "@ + error)
}

/// A program to start, and the address it is told to listen on.
pub struct Launch {
    pub program: String,
    pub listen_arg: String,
}

/// What a deploy does: the application and URL it records, and the program
/// it starts first, if any.
pub struct DeployPlan {
    pub application: String,
    pub url: String,
    pub launch: Option<Launch>,
}

impl View for DeployPlan {
    type V = PlanView;

    open spec fn view(&self) -> PlanView {
        PlanView {
            application: self.application@,
            url: self.url@,
            launch: match self.launch {
                Some(l) => Some(LaunchView { program: l.program@, listen_arg: l.listen_arg@ }),
                None => None,
            },
        }
    }
}

/// The content of the result of planning a deploy.
pub open spec fn plan_result_view(r: Result<DeployPlan, AppError>) -> Result<PlanView, ErrorView> {
    match r {
        Ok(p) => Ok(p@),
        Err(e) => Err(e@),
    }
}

/// The content of a [`ProbeState`].
pub struct ProbeView {
    pub attempts: nat,
    pub finished: bool,
}

/// The content of a [`ProbeDecision`].
pub enum DecisionView {
    Ready,
    RetryAfter(nat),
    GiveUp(ErrorView),
}

/// The state of the probe after one more run of it, on `server_url`, with
/// outcome `outcome`, and what to do next: a success ends the probing; a
/// failure is retried after the delay until the attempts are used up, and
/// then the deploy fails with the last failure.
pub open spec fn probe_next(
    state: ProbeView,
    server_url: Seq<char>,
    outcome: Result<(), Seq<char>>,
) -> (ProbeView, DecisionView) {
    let attempts = state.attempts + 1;
    match outcome {
        Ok(()) => (ProbeView { attempts, finished: true }, DecisionView::Ready),
        Err(text) => if attempts < PROBE_MAX_ATTEMPTS {
            (
                ProbeView { attempts, finished: false },
                DecisionView::RetryAfter(PROBE_RETRY_DELAY_MILLIS as nat),
            )
        } else {
            (
                ProbeView { attempts, finished: true },
                DecisionView::GiveUp(ErrorView::Execution(probe_give_up_text(server_url, text))),
            )
        },
    }
}

/// The decisions that a probe started after `attempts` runs takes on the
/// failures `texts`, one after the other.
pub open spec fn failure_run(attempts: nat, server_url: Seq<char>, texts: Seq<Seq<char>>) -> Seq<
    DecisionView,
>
    decreases texts.len(),
{
    if texts.len() == 0 {
        Seq::empty()
    } else {
        let step = probe_next(
            ProbeView { attempts, finished: false },
            server_url,
            Err(texts[0]),
        );
        seq![step.1] + failure_run(step.0.attempts, server_url, texts.drop_first())
    }
}

/// What to do after a probe run.
pub enum ProbeDecision {
    /// The application answers; the deploy goes on.
    Ready,
    /// Probe again after this many milliseconds.
    RetryAfter(u64),
    /// Stop the started application; the deploy fails with this error.
    GiveUp(AppError),
}

impl View for ProbeDecision {
    type V = DecisionView;

    open spec fn view(&self) -> DecisionView {
        match self {
            ProbeDecision::Ready => DecisionView::Ready,
            ProbeDecision::RetryAfter(ms) => DecisionView::RetryAfter(*ms as nat),
            ProbeDecision::GiveUp(e) => DecisionView::GiveUp(e@),
        }
    }
}

/// How far the probing of a started application has got.
pub struct ProbeState {
    attempts: usize,
    finished: bool,
}

impl View for ProbeState {
    type V = ProbeView;

    closed spec fn view(&self) -> ProbeView {
        ProbeView { attempts: self.attempts as nat, finished: self.finished }
    }
}

impl ProbeState {
    /// Probing that has not started.
    pub fn new() -> (r: ProbeState)
        ensures
            r@ == (ProbeView { attempts: 0, finished: false }),
    {
        ProbeState { attempts: 0, finished: false }
    }

    /// How many probe runs have been taken into account.
    pub fn attempts(&self) -> (r: usize)
        ensures
            r as nat == self@.attempts,
    {
        self.attempts
    }

    /// Whether the probing has ended, with success or by giving up.
    pub fn is_finished(&self) -> (r: bool)
        ensures
            r == self@.finished,
    {
        self.finished
    }

    /// Takes into account one more probe run on `server_url`, whose outcome
    /// is `outcome` (the failure's description where it failed), and says
    /// what to do next.
    pub fn observe(&mut self, server_url: &str, outcome: Result<(), String>) -> (r: ProbeDecision)
        requires
            !old(self)@.finished,
            old(self)@.attempts < PROBE_MAX_ATTEMPTS,
        ensures
            (final(self)@, r@) == probe_next(
                old(self)@,
                server_url@,
                match outcome {
                    Ok(()) => Ok(()),
                    Err(t) => Err(t@),
                },
            ),
    {
        self.attempts = self.attempts + 1;
        match outcome {
            Ok(()) => {
                self.finished = true;
                ProbeDecision::Ready
            },
            Err(text) => {
                if self.attempts < PROBE_MAX_ATTEMPTS {
                    ProbeDecision::RetryAfter(PROBE_RETRY_DELAY_MILLIS)
                } else {
                    self.finished = true;
                    ProbeDecision::GiveUp(
                        AppError::Execution(
                            String::from_str(
                                "failed to validate deployment via info command against '",
                            ).concat(server_url).concat("': ").concat(text.as_str()),
                        ),
                    )
                }
            },
        }
    }
}

/// The failure description of a probe run that ended with exit status
/// `status` and error output `stderr`.
pub fn probe_failure_text(stderr: &str, status: &str) -> (r: String)
    ensures
        r@ == probe_failure(stderr@, status@),
{
    let trimmed = trim_str(stderr);
    if trimmed.unicode_len() == 0 {
        String::from_str("info command exited with ").concat(status)
    } else {
        String::from_str(trimmed)
    }
}

/// The error of `program` failing to start with `error`.
pub fn spawn_failed(program: &str, error: &str) -> (r: AppError)
    ensures
        r@ == spawn_failure(program@, error@),
{
    AppError::Execution(String::from_str("failed to spawn '").concat(program).concat("': ").concat(error))
}

/// The trimmed text of `o`, where it is given and not blank.
pub fn present_text(o: &Option<String>) -> (r: Option<&str>)
    ensures
        match r {
            Some(t) => present(opt_view(*o)) == Some(t@),
            None => present(opt_view(*o)) is None,
        },
{
    match o {
        Some(v) => {
            let t = trim_str(v.as_str());
            if t.unicode_len() > 0 {
                Some(t)
            } else {
                None
            }
        },
        None => None,
    }
}

/// Why the command-line client used for probing could not be found.
pub enum CliPathProblem {
    /// The running executable could not be determined; the text says why.
    ExecutableUnresolved(String),
    /// The running executable has no directory.
    NoExecutableDirectory,
    /// No client of this file name stands beside the running executable.
    NotFound(String),
}

/// The error that reports `problem`.
pub fn cli_path_error(problem: &CliPathProblem) -> (r: AppError)
    ensures
        r@ == match problem {
            CliPathProblem::ExecutableUnresolved(e) => ErrorView::Execution(
                "failed to resolve current executable: "@ + e@,
            ),
            CliPathProblem::NoExecutableDirectory => ErrorView::Execution(
                "failed to resolve executable directory for info probe"@,
            ),
            CliPathProblem::NotFound(name) => ErrorView::Execution(
                "unable to find '"@ + name@
                    + "' for info probe. Set PLATFORM_MANAGER_CLI_PATH to override"@,
            ),
        },
{
    match problem {
        CliPathProblem::ExecutableUnresolved(e) => AppError::Execution(
            String::from_str("failed to resolve current executable: ").concat(e.as_str()),
        ),
        CliPathProblem::NoExecutableDirectory => AppError::Execution(
            String::from_str("failed to resolve executable directory for info probe"),
        ),
        CliPathProblem::NotFound(name) => AppError::Execution(
            String::from_str("unable to find '").concat(name.as_str()).concat(
                "' for info probe. Set PLATFORM_MANAGER_CLI_PATH to override",
            ),
        ),
    }
}

/// Records applications, starting them where asked.
pub struct DeployAction;

impl DeployAction {
    /// The deploy action.
    pub fn new() -> (r: DeployAction) {
        DeployAction
    }

    /// `url` with `http://` put in front where it has no `http://` or
    /// `https://` scheme.
    pub fn normalize_url(url: &str) -> (r: String)
        ensures
            r@ == normalized_url(url@),
    {
        if starts_with(url, "http://") || starts_with(url, "https://") {
            String::from_str(url)
        } else {
            String::from_str("http://").concat(url)
        }
    }

    /// `listen` without an `http://` or `https://` scheme.
    pub fn to_listen_arg(listen: &str) -> (r: &str)
        ensures
            r@ == listen_arg(listen@),
    {
        match strip_prefix(listen, "http://") {
            Some(rest) => rest,
            None => match strip_prefix(listen, "https://") {
                Some(rest) => rest,
                None => listen,
            },
        }
    }

    /// What `req` asks the deploy to do, or why it is refused.
    pub fn plan(&self, req: &DeployRequest) -> (r: Result<DeployPlan, AppError>)
        ensures
            plan_result_view(r) == deploy_plan(
                req.application@,
                opt_view(req.url),
                opt_view(req.listen),
            ),
    {
        let app_name = trim_str(req.application.as_str());
        if app_name.unicode_len() == 0 {
            return Err(AppError::InvalidPayload);
        }
        let listen = present_text(&req.listen);
        let app_url = match present_text(&req.url) {
            Some(url) => Self::normalize_url(url),
            None => match listen {
                Some(addr) => String::from_str("http://").concat(addr),
                None => String::from_str("http://localhost/").concat(app_name),
            },
        };
        let launch = match listen {
            Some(addr) => Some(
                Launch {
                    program: String::from_str(app_name),
                    listen_arg: String::from_str(Self::to_listen_arg(addr)),
                },
            ),
            None => None,
        };
        Ok(DeployPlan { application: String::from_str(app_name), url: app_url, launch })
    }

    /// Records what `plan` deploys, once its program, if any, answers, and
    /// answers with what it recorded.
    pub fn finish(&self, apps: &mut LaunchedApps, plan: &DeployPlan) -> (r: DeployResponse)
        ensures
            r@ == deployed(plan.application@, plan.url@, "deploy"@),
            final(apps)@ == records(old(apps)@, plan.application@, plan.url@),
    {
        apps.record(plan.application.clone(), plan.url.clone());
        DeployResponse {
            application: plan.application.clone(),
            url: plan.url.clone(),
            status: String::from_str("deployed"),
            message: deployed_message(plan.application.as_str(), "deploy"),
        }
    }
}

proof fn lemma_failure_run(attempts: nat, server_url: Seq<char>, texts: Seq<Seq<char>>)
    ensures
        failure_run(attempts, server_url, texts).len() == texts.len(),
        forall|i: int|
            0 <= i < texts.len() ==> #[trigger] failure_run(attempts, server_url, texts)[i] == if attempts
                + i + 1 < PROBE_MAX_ATTEMPTS {
                DecisionView::RetryAfter(PROBE_RETRY_DELAY_MILLIS as nat)
            } else {
                DecisionView::GiveUp(ErrorView::Execution(probe_give_up_text(server_url, texts[i])))
            },
    decreases texts.len(),
{
    if texts.len() > 0 {
        lemma_failure_run(attempts + 1, server_url, texts.drop_first());
        let run = failure_run(attempts, server_url, texts);
        let rest = failure_run(attempts + 1, server_url, texts.drop_first());
        assert forall|i: int| 0 < i < texts.len() implies run[i] == rest[i - 1] by {}
        assert forall|i: int| 0 < i < texts.len() implies texts.drop_first()[i - 1] == texts[i] by {}
    }
}

/// A started application that never answers is probed exactly
/// `PROBE_MAX_ATTEMPTS` times: every failure but the last is retried after
/// the delay, and the last makes the deploy fail with that failure.
pub proof fn law_probe_gives_up_after_max_attempts(server_url: Seq<char>, texts: Seq<Seq<char>>)
    requires
        texts.len() == PROBE_MAX_ATTEMPTS,
    ensures
        forall|i: int|
            0 <= i < PROBE_MAX_ATTEMPTS - 1 ==> #[trigger] failure_run(0, server_url, texts)[i]
                == DecisionView::RetryAfter(PROBE_RETRY_DELAY_MILLIS as nat),
        failure_run(0, server_url, texts)[PROBE_MAX_ATTEMPTS - 1] == DecisionView::GiveUp(
            ErrorView::Execution(probe_give_up_text(server_url, texts[PROBE_MAX_ATTEMPTS - 1])),
        ),
{
    lemma_failure_run(0, server_url, texts);
}

/// Normalizing a URL twice is normalizing it once.
pub proof fn law_normalize_url_idempotent(url: Seq<char>)
    ensures
        normalized_url(normalized_url(url)) == normalized_url(url),
{
    if !(has_prefix(url, "http://"@) || has_prefix(url, "https://"@)) {
        let n = "http://"@ + url;
        assert(n.subrange(0, "http://"@.len() as int) =~= "http://"@);
        assert(has_prefix(n, "http://"@));
    }
}

/// A probe that succeeds ends the probing, whatever attempt it was.
pub proof fn law_probe_success_is_final(state: ProbeView, server_url: Seq<char>)
    ensures
        probe_next(state, server_url, Ok(())).0.finished,
        probe_next(state, server_url, Ok(())).1 == DecisionView::Ready,
{
}

/// A deploy with no URL, or a blank one, and a listen address that is not
/// blank is planned at `http://` followed by the trimmed listen address,
/// whatever that address looks like; the program named like the application
/// is started on that address, without a leading `http://` or `https://`.
pub proof fn law_deploy_url_from_listen(
    application: Seq<char>,
    url: Option<Seq<char>>,
    listen: Seq<char>,
)
    requires
        trim(application).len() > 0,
        url is None || trim(url->Some_0).len() == 0,
        trim(listen).len() > 0,
    ensures
        deploy_plan(application, url, Some(listen)) is Ok,
        ({
            let plan = deploy_plan(application, url, Some(listen))->Ok_0;
            let addr = trim(listen);
            &&& plan.application == trim(application)
            &&& plan.url == "http://"@ + addr
            &&& plan.launch is Some
            &&& plan.launch->Some_0.program == trim(application)
            &&& !has_prefix(addr, "http://"@) && !has_prefix(addr, "https://"@)
                ==> plan.launch->Some_0.listen_arg == addr
            &&& has_prefix(addr, "http://"@) ==> "http://"@ + plan.launch->Some_0.listen_arg == addr
            &&& has_prefix(addr, "https://"@) ==> "https://"@ + plan.launch->Some_0.listen_arg
                == addr
        }),
{
    let addr = trim(listen);
    reveal_strlit("http://");
    reveal_strlit("https://");
    if has_prefix(addr, "https://"@) {
        assert(addr.subrange(0, 8)[4] == "https://"@[4]);
        assert(addr.subrange(0, 8)[4] == addr[4]);
        assert(addr[4] == 's');
        if has_prefix(addr, "http://"@) {
            assert(addr.subrange(0, 7)[4] == "http://"@[4]);
            assert(addr.subrange(0, 7)[4] == addr[4]);
        }
        assert(addr =~= "https://"@ + addr.skip("https://"@.len() as int));
    } else if has_prefix(addr, "http://"@) {
        assert(addr =~= "http://"@ + addr.skip("http://"@.len() as int));
    }
}

/// A deploy with a URL that is not blank is planned at that URL trimmed,
/// with `http://` put in front only where it has neither `http://` nor
/// `https://`; the listen address does not change it.
pub proof fn law_deploy_url_given(
    application: Seq<char>,
    url: Seq<char>,
    listen: Option<Seq<char>>,
)
    requires
        trim(application).len() > 0,
        trim(url).len() > 0,
    ensures
        deploy_plan(application, Some(url), listen) is Ok,
        (has_prefix(trim(url), "http://"@) || has_prefix(trim(url), "https://"@)) ==> deploy_plan(
            application,
            Some(url),
            listen,
        )->Ok_0.url == trim(url),
        !(has_prefix(trim(url), "http://"@) || has_prefix(trim(url), "https://"@)) ==> deploy_plan(
            application,
            Some(url),
            listen,
        )->Ok_0.url == "http://"@ + trim(url),
{
}

/// A deploy with neither a usable URL nor a usable listen address is
/// recorded at `http://localhost/` and its trimmed name, and starts nothing;
/// a blank name is refused.
pub proof fn law_deploy_default_and_refusal(
    application: Seq<char>,
    url: Option<Seq<char>>,
    listen: Option<Seq<char>>,
)
    ensures
        trim(application).len() == 0 ==> deploy_plan(application, url, listen) == Err::<
            PlanView,
            ErrorView,
        >(ErrorView::InvalidPayload),
        trim(application).len() > 0 && (url is None || trim(url->Some_0).len() == 0) && (
        listen is None || trim(listen->Some_0).len() == 0) ==> (deploy_plan(application, url, listen)
            matches Ok(plan) && plan.url == "http://localhost/"@ + trim(application)
            && plan.launch is None),
{
}

} // verus!
