//! The messages of the RPC endpoints, and the mapping between them and the
//! results of the platform's operations.

use vstd::prelude::*;
use vstd::string::*;

use crate::errors::{AppError, ErrorView};
use crate::models::{
    accesses_view, endpoints_view, AccessView, EndpointView, InfoResponse as CoreInfoResponse,
    InfoView,
};

verus! {

/// A request to run the action named `action` on `payload`.
#[derive(Debug, Clone, PartialEq, Eq)]
pub struct ActionRequest {
    pub action: String,
    pub payload: Vec<u8>,
}

/// The answer of the generic action endpoint: the action's bytes, or the
/// text of its error.
#[derive(Debug, Clone, PartialEq, Eq)]
pub struct ActionResponse {
    pub payload: Vec<u8>,
    pub error: String,
}

/// An endpoint as the info RPC reports it.
#[derive(Debug, Clone, PartialEq, Eq)]
pub struct Endpoint {
    pub name: String,
    pub value: String,
}

/// A launched application as the info RPC reports it.
#[derive(Debug, Clone, PartialEq, Eq)]
pub struct LaunchedApplication {
    pub application: String,
    pub url: String,
}

/// The answer of the info RPC: the report, or the text of its error with
/// every other field empty.
#[derive(Debug, Clone, PartialEq, Eq)]
pub struct InfoResponse {
    pub application: String,
    pub endpoints: Vec<Endpoint>,
    pub task_id: String,
    pub error: String,
    pub launched_applications: Vec<LaunchedApplication>,
}

/// The content of an info RPC answer.
pub struct InfoReplyView {
    pub application: Seq<char>,
    pub endpoints: Seq<EndpointView>,
    pub task_id: Seq<char>,
    pub error: Seq<char>,
    pub launched_applications: Seq<AccessView>,
}

impl View for Endpoint {
    type V = EndpointView;

    open spec fn view(&self) -> EndpointView {
        EndpointView { name: self.name@, value: self.value@ }
    }
}

impl View for LaunchedApplication {
    type V = AccessView;

    open spec fn view(&self) -> AccessView {
        AccessView { application: self.application@, url: self.url@ }
    }
}

/// The contents of a list of reported endpoints.
pub open spec fn reply_endpoints(v: Seq<Endpoint>) -> Seq<EndpointView> {
    v.map_values(|e: Endpoint| e@)
}

/// The contents of a list of reported applications.
pub open spec fn reply_launched(v: Seq<LaunchedApplication>) -> Seq<AccessView> {
    v.map_values(|a: LaunchedApplication| a@)
}

impl View for InfoResponse {
    type V = InfoReplyView;

    open spec fn view(&self) -> InfoReplyView {
        InfoReplyView {
            application: self.application@,
            endpoints: reply_endpoints(self.endpoints@),
            task_id: self.task_id@,
            error: self.error@,
            launched_applications: reply_launched(self.launched_applications@),
        }
    }
}

/// The info RPC answer that carries only the error `error`.
pub open spec fn info_error_reply(error: Seq<char>) -> InfoReplyView {
    InfoReplyView {
        application: Seq::empty(),
        endpoints: Seq::empty(),
        task_id: Seq::empty(),
        error,
        launched_applications: Seq::empty(),
    }
}

/// The info RPC answer for the result `res`, where `Ok` holds the reading
/// of the payload: the report, or why the payload could not be read.
pub open spec fn info_reply(res: Result<Result<InfoView, Seq<char>>, ErrorView>) -> InfoReplyView {
    match res {
        Ok(Ok(info)) => InfoReplyView {
            application: info.application,
            endpoints: info.endpoints,
            task_id: info.task_id,
            error: Seq::empty(),
            launched_applications: info.launched_applications,
        },
        Ok(Err(reason)) => info_error_reply("invalid info payload: "@ + reason),
        Err(e) => info_error_reply(e.message()),
    }
}

/// The action name and payload of `req`.
pub fn from_proto(req: ActionRequest) -> (r: (String, Vec<u8>))
    ensures
        r.0@ == req.action@,
        r.1@ == req.payload@,
{
    (req.action, req.payload)
}

/// The answer of the generic action endpoint for `res`: its bytes with an
/// empty error, or an empty payload with the error's text.
pub fn to_proto(res: Result<Vec<u8>, AppError>) -> (r: ActionResponse)
    ensures
        match res {
            Ok(payload) => r.payload@ == payload@ && r.error@ == Seq::<char>::empty(),
            Err(e) => r.payload@ == Seq::<u8>::empty() && r.error@ == e@.message(),
        },
{
    match res {
        Ok(payload) => ActionResponse { payload, error: String::new() },
        Err(e) => ActionResponse { payload: Vec::new(), error: e.message() },
    }
}

fn endpoints_to_proto(info: &CoreInfoResponse) -> (r: Vec<Endpoint>)
    ensures
        reply_endpoints(r@) == endpoints_view(info.endpoints@),
{
    let mut r: Vec<Endpoint> = Vec::new();
    let n = info.endpoints.len();
    let mut i: usize = 0;
    while i < n
        invariant
            n == info.endpoints@.len(),
            i <= n,
            reply_endpoints(r@) =~= endpoints_view(info.endpoints@).subrange(0, i as int),
        decreases n - i,
    {
        let e = Endpoint {
            name: info.endpoints[i].name.clone(),
            value: info.endpoints[i].value.clone(),
        };
        proof {
            assert(reply_endpoints(r@.push(e)) =~= reply_endpoints(r@).push(e@));
            assert(endpoints_view(info.endpoints@).subrange(0, i + 1) =~= endpoints_view(
                info.endpoints@,
            ).subrange(0, i as int).push(info.endpoints@[i as int]@));
        }
        r.push(e);
        i = i + 1;
    }
    assert(endpoints_view(info.endpoints@).subrange(0, n as int) =~= endpoints_view(
        info.endpoints@,
    ));
    r
}

fn launched_to_proto(info: &CoreInfoResponse) -> (r: Vec<LaunchedApplication>)
    ensures
        reply_launched(r@) == accesses_view(info.launched_applications@),
{
    let mut r: Vec<LaunchedApplication> = Vec::new();
    let n = info.launched_applications.len();
    let mut i: usize = 0;
    while i < n
        invariant
            n == info.launched_applications@.len(),
            i <= n,
            reply_launched(r@) =~= accesses_view(info.launched_applications@).subrange(
                0,
                i as int,
            ),
        decreases n - i,
    {
        let a = LaunchedApplication {
            application: info.launched_applications[i].application.clone(),
            url: info.launched_applications[i].url.clone(),
        };
        proof {
            assert(reply_launched(r@.push(a)) =~= reply_launched(r@).push(a@));
            assert(accesses_view(info.launched_applications@).subrange(0, i + 1)
                =~= accesses_view(info.launched_applications@).subrange(0, i as int).push(
                info.launched_applications@[i as int]@,
            ));
        }
        r.push(a);
        i = i + 1;
    }
    assert(accesses_view(info.launched_applications@).subrange(0, n as int) =~= accesses_view(
        info.launched_applications@,
    ));
    r
}

fn info_error(error: String) -> (r: InfoResponse)
    ensures
        r@ == info_error_reply(error@),
{
    let r = InfoResponse {
        application: String::new(),
        endpoints: Vec::new(),
        task_id: String::new(),
        error,
        launched_applications: Vec::new(),
    };
    assert(r@.endpoints =~= Seq::<EndpointView>::empty());
    assert(r@.launched_applications =~= Seq::<AccessView>::empty());
    r
}

/// The content of what `to_info_proto` is given.
pub open spec fn info_result_view(res: Result<Result<CoreInfoResponse, String>, AppError>) -> Result<
    Result<InfoView, Seq<char>>,
    ErrorView,
> {
    match res {
        Ok(Ok(info)) => Ok(Ok(info@)),
        Ok(Err(reason)) => Ok(Err(reason@)),
        Err(e) => Err(e@),
    }
}

/// The answer of the info RPC for `res`. Its `Ok` holds what reading the
/// info payload gave: the report, or the reason it could not be read.
pub fn to_info_proto(res: Result<Result<CoreInfoResponse, String>, AppError>) -> (r: InfoResponse)
    ensures
        r@ == info_reply(info_result_view(res)),
{
    match res {
        Ok(Ok(info)) => {
            let endpoints = endpoints_to_proto(&info);
            let launched_applications = launched_to_proto(&info);
            let r = InfoResponse {
                application: info.application,
                endpoints,
                task_id: info.task_id,
                error: String::new(),
                launched_applications,
            };
            r
        },
        Ok(Err(reason)) => info_error(
            String::from_str("invalid info payload: ").concat(reason.as_str()),
        ),
        Err(e) => info_error(e.message()),
    }
}

/// For a report that was read, the info RPC answer carries no error, the
/// report's application and task identifier, and its endpoints and launched
/// applications one for one: the answer's entry at each place has the name
/// and value (the application and URL) of the report's entry there.
pub proof fn law_info_reply_carries_report(info: CoreInfoResponse, r: InfoResponse)
    requires
        r@ == info_reply(info_result_view(Ok(Ok(info)))),
    ensures
        r.error@.len() == 0,
        r.application@ == info.application@,
        r.task_id@ == info.task_id@,
        r.endpoints@.len() == info.endpoints@.len(),
        forall|i: int|
            0 <= i < r.endpoints@.len() ==> (#[trigger] r.endpoints@[i]).name@
                == info.endpoints@[i].name@ && r.endpoints@[i].value@ == info.endpoints@[i].value@,
        r.launched_applications@.len() == info.launched_applications@.len(),
        forall|i: int|
            0 <= i < r.launched_applications@.len() ==> (
            #[trigger] r.launched_applications@[i]).application@
                == info.launched_applications@[i].application@
                && r.launched_applications@[i].url@ == info.launched_applications@[i].url@,
{
    assert(reply_endpoints(r.endpoints@).len() == r.endpoints@.len());
    assert(endpoints_view(info.endpoints@).len() == info.endpoints@.len());
    assert(reply_launched(r.launched_applications@).len() == r.launched_applications@.len());
    assert(accesses_view(info.launched_applications@).len() == info.launched_applications@.len());
    assert forall|i: int| 0 <= i < r.endpoints@.len() implies (#[trigger] r.endpoints@[i]).name@
        == info.endpoints@[i].name@ && r.endpoints@[i].value@ == info.endpoints@[i].value@ by {
        assert(reply_endpoints(r.endpoints@)[i] == r.endpoints@[i]@);
        assert(endpoints_view(info.endpoints@)[i] == info.endpoints@[i]@);
        assert(reply_endpoints(r.endpoints@)[i] == endpoints_view(info.endpoints@)[i]);
    }
    assert forall|i: int| 0 <= i < r.launched_applications@.len() implies (
    #[trigger] r.launched_applications@[i]).application@
        == info.launched_applications@[i].application@ && r.launched_applications@[i].url@
        == info.launched_applications@[i].url@ by {
        assert(reply_launched(r.launched_applications@)[i] == r.launched_applications@[i]@);
        assert(accesses_view(info.launched_applications@)[i] == info.launched_applications@[i]@);
        assert(reply_launched(r.launched_applications@)[i] == accesses_view(
            info.launched_applications@,
        )[i]);
    }
}

} // verus!
