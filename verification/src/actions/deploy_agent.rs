//! The deploy-agent operation: it records an application that an agent has
//! deployed, at its URL or at a default one.

use vstd::prelude::*;
use vstd::string::*;

use crate::errors::{AppError, ErrorView};
use crate::launched_apps::{records, LaunchedApps};
use crate::models::{DeployAgentRequest, DeployAgentResponse, DeployedView};
use crate::text::{trim, trim_str};

verus! {

/// The content of an optional text.
pub open spec fn opt_view(o: Option<String>) -> Option<Seq<char>> {
    match o {
        Some(s) => Some(s@),
        None => None,
    }
}

/// The URL at which an application answers when its request names none.
pub open spec fn default_url(name: Seq<char>) -> Seq<char> {
    "http://localhost/"@ + name
}

/// The answer that reports `name` deployed at `url` by the operation `by`.
pub open spec fn deployed(name: Seq<char>, url: Seq<char>, by: Seq<char>) -> DeployedView {
    DeployedView {
        application: name,
        url,
        status: "deployed"@,
        message: "application '"@ + name + "' deployed by "@ + by,
    }
}

/// The application name and URL that a deploy-agent request records, or
/// why it is refused: the name is trimmed and must not be empty; a URL that
/// is given is trimmed and must not be empty; without one the default URL
/// applies.
pub open spec fn agent_target(application: Seq<char>, url: Option<Seq<char>>) -> Result<
    (Seq<char>, Seq<char>),
    ErrorView,
> {
    let name = trim(application);
    if name.len() == 0 {
        Err(ErrorView::InvalidPayload)
    } else {
        match url {
            Some(u) => if trim(u).len() == 0 {
                Err(ErrorView::InvalidPayload)
            } else {
                Ok((name, trim(u)))
            },
            None => Ok((name, default_url(name))),
        }
    }
}

/// The text `application '<name>' deployed by <by>`.
pub fn deployed_message(name: &str, by: &str) -> (r: String)
    ensures
        r@ == "application '"@ + name@ + "' deployed by "@ + by@,
{
    String::from_str("application '").concat(name).concat("' deployed by ").concat(by)
}

/// Records applications that an agent has deployed.
pub struct DeployAgentAction;

impl DeployAgentAction {
    /// The deploy-agent action.
    pub fn new() -> (r: DeployAgentAction) {
        DeployAgentAction
    }

    /// Records the application that `req` names at its URL, or at the
    /// default URL where it names none, and answers with what it recorded.
    /// A refused request changes nothing.
    pub fn deploy(&self, apps: &mut LaunchedApps, req: &DeployAgentRequest) -> (r: Result<
        DeployAgentResponse,
        AppError,
    >)
        ensures
            match agent_target(req.application@, opt_view(req.url)) {
                Err(e) => r matches Err(err) && err@ == e && final(apps)@ == old(apps)@,
                Ok((name, url)) => r matches Ok(resp) && resp@ == deployed(
                    name,
                    url,
                    "deploy-agent"@,
                ) && final(apps)@ == records(old(apps)@, name, url),
            },
    {
        let app_name = trim_str(req.application.as_str());
        if app_name.unicode_len() == 0 {
            return Err(AppError::InvalidPayload);
        }
        let app_url = match &req.url {
            Some(url) => {
                let url = trim_str(url.as_str());
                if url.unicode_len() == 0 {
                    return Err(AppError::InvalidPayload);
                }
                String::from_str(url)
            },
            None => String::from_str("http://localhost/").concat(app_name),
        };
        apps.record(String::from_str(app_name), app_url.clone());
        Ok(
            DeployAgentResponse {
                application: String::from_str(app_name),
                url: app_url,
                status: String::from_str("deployed"),
                message: deployed_message(app_name, "deploy-agent"),
            },
        )
    }
}

/// A deploy-agent request with a name and a URL that are not blank records
/// and answers exactly that URL trimmed, whatever its scheme; without a URL
/// it records `http://localhost/` and the trimmed name; a blank name or a
/// blank URL is refused.
pub proof fn law_agent_url(application: Seq<char>, url: Option<Seq<char>>)
    ensures
        trim(application).len() == 0 ==> agent_target(application, url) == Err::<
            (Seq<char>, Seq<char>),
            ErrorView,
        >(ErrorView::InvalidPayload),
        trim(application).len() > 0 && url is Some && trim(url->Some_0).len() > 0
            ==> agent_target(application, url) == Ok::<(Seq<char>, Seq<char>), ErrorView>(
            (trim(application), trim(url->Some_0)),
        ),
        trim(application).len() > 0 && url is Some && trim(url->Some_0).len() == 0
            ==> agent_target(application, url) == Err::<(Seq<char>, Seq<char>), ErrorView>(
            ErrorView::InvalidPayload,
        ),
        trim(application).len() > 0 && url is None ==> agent_target(application, url) == Ok::<
            (Seq<char>, Seq<char>),
            ErrorView,
        >((trim(application), "http://localhost/"@ + trim(application))),
{
}

} // verus!
