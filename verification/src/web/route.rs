//! The routes of the service.

use vstd::prelude::*;

verus! {

/// How a request asks.
#[derive(Debug, Clone, Copy, PartialEq, Eq, Structural)]
pub enum Method {
    Get,
    Post,
    Patch,
}

/// What a request asks for.
#[derive(Debug, Clone, Copy, PartialEq, Eq, Structural)]
pub enum Handler {
    ApiLogin,
    AddClient,
    ListClients,
    AddFreelancer,
    ListFreelancers,
    CreateTask,
    ListTasks,
    GetTask,
    SubmitProposal,
    ListProposal,
    GetProposal,
    ApproveProposal,
    AddMilestones,
    ListMilestone,
    SubmitMilestone,
    ListDeals,
    UpdateDeal,
    AddReview,
}

impl Handler {
    /// Whether the request must show a good session. Logging in and
    /// registering are open to all; everything else is guarded.
    pub open spec fn guarded_spec(self) -> bool {
        !(self == Handler::ApiLogin || self == Handler::AddClient || self
            == Handler::AddFreelancer)
    }

    /// Whether the request must show a good session.
    pub fn guarded(&self) -> (guarded: bool)
        ensures
            guarded == self.guarded_spec(),
    {
        match self {
            Handler::ApiLogin | Handler::AddClient | Handler::AddFreelancer => false,
            _ => true,
        }
    }

    /// Whether the request only reads. A request that reads is answered
    /// with "OK", one that writes with "Created"; logging in writes nothing
    /// to the store.
    pub open spec fn reads_spec(self) -> bool {
        self == Handler::ApiLogin || self == Handler::ListClients || self
            == Handler::ListFreelancers || self == Handler::ListTasks || self == Handler::GetTask
            || self == Handler::ListProposal || self == Handler::GetProposal || self
            == Handler::ListMilestone || self == Handler::ListDeals
    }

    /// The status of the answer to a request that went well.
    pub open spec fn success_status_spec(self) -> u16 {
        if self.reads_spec() {
            STATUS_OK
        } else {
            STATUS_CREATED
        }
    }

    /// The status of the answer to a request that went well.
    pub fn success_status(&self) -> (status: u16)
        ensures
            status == self.success_status_spec(),
    {
        match self {
            Handler::ApiLogin
            | Handler::ListClients
            | Handler::ListFreelancers
            | Handler::ListTasks
            | Handler::GetTask
            | Handler::ListProposal
            | Handler::GetProposal
            | Handler::ListMilestone
            | Handler::ListDeals => STATUS_OK,
            _ => STATUS_CREATED,
        }
    }
}

/// "OK".
pub const STATUS_OK: u16 = 200;

/// "Created".
pub const STATUS_CREATED: u16 = 201;

/// One line of the table of routes. In a path, a part that begins with a
/// colon stands for any text, which the request gives.
#[derive(Debug, Clone, Copy, PartialEq, Eq)]
pub struct Route {
    pub method: Method,
    pub path: &'static str,
    pub handler: Handler,
    pub guarded: bool,
}

/// What a [`Route`] holds.
pub struct RouteView {
    pub method: Method,
    pub path: Seq<char>,
    pub handler: Handler,
    pub guarded: bool,
}

impl View for Route {
    type V = RouteView;

    open spec fn view(&self) -> RouteView {
        RouteView {
            method: self.method,
            path: self.path@,
            handler: self.handler,
            guarded: self.guarded,
        }
    }
}

/// What each route of a table holds.
pub open spec fn route_views(routes: Seq<Route>) -> Seq<RouteView> {
    Seq::new(routes.len(), |i: int| routes[i]@)
}

/// The line of the table for a handler.
pub open spec fn route(method: Method, path: Seq<char>, handler: Handler) -> RouteView {
    RouteView { method, path, handler, guarded: handler.guarded_spec() }
}

/// The table of routes.
pub open spec fn routes_spec() -> Seq<RouteView> {
    seq![
        route(Method::Post, "/api/login"@, Handler::ApiLogin),
        route(Method::Post, "/api/client"@, Handler::AddClient),
        route(Method::Get, "/api/client"@, Handler::ListClients),
        route(Method::Post, "/api/freelancer"@, Handler::AddFreelancer),
        route(Method::Get, "/api/freelancer"@, Handler::ListFreelancers),
        route(Method::Post, "/api/task"@, Handler::CreateTask),
        route(Method::Get, "/api/task"@, Handler::ListTasks),
        route(Method::Get, "/api/task/:skill"@, Handler::GetTask),
        route(Method::Post, "/api/proposal"@, Handler::SubmitProposal),
        route(Method::Get, "/api/proposal"@, Handler::ListProposal),
        route(Method::Get, "/api/proposal/:proposal_id"@, Handler::GetProposal),
        route(Method::Patch, "/api/proposal/:proposal_id"@, Handler::ApproveProposal),
        route(Method::Post, "/api/milestone"@, Handler::AddMilestones),
        route(Method::Get, "/api/milestone"@, Handler::ListMilestone),
        route(
            Method::Patch,
            "/api/milestone/:proposal_id/:milestone_id/:link"@,
            Handler::SubmitMilestone,
        ),
        route(Method::Get, "/api/deal"@, Handler::ListDeals),
        route(Method::Patch, "/api/deal/:deal_id/:transacion_id"@, Handler::UpdateDeal),
        route(Method::Post, "/api/review"@, Handler::AddReview),
    ]
}

/// One line of the table, guarded as its handler is.
fn line(method: Method, path: &'static str, handler: Handler) -> (line: Route)
    ensures
        line@ == route(method, path@, handler),
{
    Route { method, path, handler, guarded: handler.guarded() }
}

/// The table of routes: for each, how it is asked for, under which path,
/// what answers it, and whether it is guarded.
pub fn create_router() -> (routes: Vec<Route>)
    ensures
        route_views(routes@) == routes_spec(),
{
    let mut routes: Vec<Route> = Vec::new();
    routes.push(line(Method::Post, "/api/login", Handler::ApiLogin));
    routes.push(line(Method::Post, "/api/client", Handler::AddClient));
    routes.push(line(Method::Get, "/api/client", Handler::ListClients));
    routes.push(line(Method::Post, "/api/freelancer", Handler::AddFreelancer));
    routes.push(line(Method::Get, "/api/freelancer", Handler::ListFreelancers));
    routes.push(line(Method::Post, "/api/task", Handler::CreateTask));
    routes.push(line(Method::Get, "/api/task", Handler::ListTasks));
    routes.push(line(Method::Get, "/api/task/:skill", Handler::GetTask));
    routes.push(line(Method::Post, "/api/proposal", Handler::SubmitProposal));
    routes.push(line(Method::Get, "/api/proposal", Handler::ListProposal));
    routes.push(line(Method::Get, "/api/proposal/:proposal_id", Handler::GetProposal));
    routes.push(line(Method::Patch, "/api/proposal/:proposal_id", Handler::ApproveProposal));
    routes.push(line(Method::Post, "/api/milestone", Handler::AddMilestones));
    routes.push(line(Method::Get, "/api/milestone", Handler::ListMilestone));
    routes.push(
        line(
            Method::Patch,
            "/api/milestone/:proposal_id/:milestone_id/:link",
            Handler::SubmitMilestone,
        ),
    );
    routes.push(line(Method::Get, "/api/deal", Handler::ListDeals));
    routes.push(line(Method::Patch, "/api/deal/:deal_id/:transacion_id", Handler::UpdateDeal));
    routes.push(line(Method::Post, "/api/review", Handler::AddReview));
    assert(route_views(routes@) =~= routes_spec());
    routes
}

} // verus!
