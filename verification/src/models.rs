//! The requests and responses of the platform's operations, as plain values.

use vstd::prelude::*;

verus! {

/// What the echo action is asked to repeat.
#[derive(Debug, Clone, PartialEq, Eq)]
pub struct EchoRequest {
    pub message: String,
}

/// What the echo action answers.
#[derive(Debug, Clone, PartialEq, Eq)]
pub struct EchoResponse {
    pub message: String,
}

/// A named endpoint that the platform exposes.
#[derive(Debug, Clone, PartialEq, Eq)]
pub struct InfoEndpoint {
    pub name: String,
    pub value: String,
}

/// An application that the platform has launched, and where it answers.
#[derive(Debug, Clone, PartialEq, Eq)]
pub struct ApplicationAccess {
    pub application: String,
    pub url: String,
}

/// What the info operation reports about the platform.
#[derive(Debug, Clone, PartialEq, Eq)]
pub struct InfoResponse {
    pub application: String,
    pub endpoints: Vec<InfoEndpoint>,
    pub launched_applications: Vec<ApplicationAccess>,
    pub task_id: String,
}

/// A request to deploy an application, possibly by starting it.
#[derive(Debug, Clone, PartialEq, Eq)]
pub struct DeployRequest {
    pub application: String,
    pub url: Option<String>,
    pub listen: Option<String>,
}

/// The answer to a successful deploy.
#[derive(Debug, Clone, PartialEq, Eq)]
pub struct DeployResponse {
    pub application: String,
    pub url: String,
    pub status: String,
    pub message: String,
}

/// A request to record an application deployed by an agent.
#[derive(Debug, Clone, PartialEq, Eq)]
pub struct DeployAgentRequest {
    pub application: String,
    pub url: Option<String>,
}

/// The answer to a successful deploy-agent request.
#[derive(Debug, Clone, PartialEq, Eq)]
pub struct DeployAgentResponse {
    pub application: String,
    pub url: String,
    pub status: String,
    pub message: String,
}

/// The content of an [`InfoEndpoint`].
pub struct EndpointView {
    pub name: Seq<char>,
    pub value: Seq<char>,
}

/// The content of an [`ApplicationAccess`].
pub struct AccessView {
    pub application: Seq<char>,
    pub url: Seq<char>,
}

/// The content of an [`InfoResponse`].
pub struct InfoView {
    pub application: Seq<char>,
    pub endpoints: Seq<EndpointView>,
    pub launched_applications: Seq<AccessView>,
    pub task_id: Seq<char>,
}

/// The content of a deploy or deploy-agent response.
pub struct DeployedView {
    pub application: Seq<char>,
    pub url: Seq<char>,
    pub status: Seq<char>,
    pub message: Seq<char>,
}

impl View for InfoEndpoint {
    type V = EndpointView;

    open spec fn view(&self) -> EndpointView {
        EndpointView { name: self.name@, value: self.value@ }
    }
}

impl View for ApplicationAccess {
    type V = AccessView;

    open spec fn view(&self) -> AccessView {
        AccessView { application: self.application@, url: self.url@ }
    }
}

/// The contents of a list of launched applications.
pub open spec fn accesses_view(v: Seq<ApplicationAccess>) -> Seq<AccessView> {
    v.map_values(|a: ApplicationAccess| a@)
}

/// The contents of a list of endpoints.
pub open spec fn endpoints_view(v: Seq<InfoEndpoint>) -> Seq<EndpointView> {
    v.map_values(|e: InfoEndpoint| e@)
}

impl View for InfoResponse {
    type V = InfoView;

    open spec fn view(&self) -> InfoView {
        InfoView {
            application: self.application@,
            endpoints: endpoints_view(self.endpoints@),
            launched_applications: accesses_view(self.launched_applications@),
            task_id: self.task_id@,
        }
    }
}

impl View for DeployResponse {
    type V = DeployedView;

    open spec fn view(&self) -> DeployedView {
        DeployedView {
            application: self.application@,
            url: self.url@,
            status: self.status@,
            message: self.message@,
        }
    }
}

impl View for DeployAgentResponse {
    type V = DeployedView;

    open spec fn view(&self) -> DeployedView {
        DeployedView {
            application: self.application@,
            url: self.url@,
            status: self.status@,
            message: self.message@,
        }
    }
}

impl ApplicationAccess {
    /// A copy of this entry.
    pub fn duplicate(&self) -> (r: ApplicationAccess)
        ensures
            r@ == self@,
    {
        ApplicationAccess { application: self.application.clone(), url: self.url.clone() }
    }
}

impl InfoEndpoint {
    /// A copy of this endpoint.
    pub fn duplicate(&self) -> (r: InfoEndpoint)
        ensures
            r@ == self@,
    {
        InfoEndpoint { name: self.name.clone(), value: self.value.clone() }
    }
}

} // verus!
