//! From a request to its answer: what each route does, with which status it
//! answers, and how a failure is reported.

use crate::db::{
    add_client_spec, add_freelancer_spec, add_milestones_spec, add_review_spec, api_login_spec,
    approve_proposal_spec, create_task_spec, DB, DBView, get_proposal_spec, init_spec,
    submit_milestone_spec, submit_proposal_spec, update_deal_spec,
};
use crate::error::{ErrorResponse, ErrorResponseView, ErrorView, MyError};
use crate::model::{DealView, MilestoneView, ReviewView};
use crate::response::{
    ClientListResponse, ClientResponseView, DealListResponse, FreelancerListResponse,
    FreelancerResponseView, ListView, MilestoneListResponse, ProposalDealView,
    ProposalDetailedView, ProposalListResponse, ProposalResponseView, SingleClientResponse,
    SingleDealResponse, SingleFreelancerResponse, SingleMilestoneResponse,
    SingleProposalDealResponse, SingleProposalDetailedResponse, SingleProposalResponse,
    SingleReviewResponse, SingleTaskResponse, SingleUserResponse, SingleView, TaskListResponse,
    TaskResponseView, UserResponseView,
};
use crate::schema::{
    CreateClientSchema, CreateClientView, CreateFreelancerSchema, CreateFreelancerView,
    CreateMilestoneSchema, CreateMilestoneView, CreateProposalSchema, CreateProposalView,
    CreateReviewSchema, CreateReviewView, CreateTaskSchema, CreateTaskView, LoginUserSchema,
    LoginUserView,
};
use crate::steps::{
    list_spec, show_client, show_deal, show_freelancer, show_milestone, show_proposal, show_task,
};
use crate::store::{
    answer_views, AnswerView, Collection, FilterView, RequestView, Step, StepView, StoreRequest,
    StoreResponse,
};
use crate::utils::batch_view;
use crate::web::mw_auth::{maybe_str, mw_require_auth, session_spec, STATUS_UNAUTHORIZED};
use crate::web::route::Handler;
use crate::web::token::{
    auth_spec, AuthConfig, AuthCookie, AuthView, cookie_spec, CookieView, generate_auth_cookie,
    maybe_cookie,
};
use vstd::prelude::*;
use vstd::string::*;

verus! {

/// What the service is set up with.
#[derive(Debug, PartialEq, Eq)]
pub struct AppState {
    pub db: DB,
    pub auth: AuthConfig,
}

/// What an [`AppState`] holds.
pub struct AppView {
    pub db: DBView,
    pub auth: AuthView,
}

impl View for AppState {
    type V = AppView;

    open spec fn view(&self) -> AppView {
        AppView { db: self.db@, auth: self.auth@ }
    }
}

/// The configuration that the settings give: an error for the first needed
/// setting that is not there, those of the store first.
pub open spec fn state_spec(settings: Seq<(String, String)>) -> Result<AppView, ErrorView> {
    match (init_spec(settings), auth_spec(settings)) {
        (Err(error), _) => Err(error),
        (Ok(_), Err(error)) => Err(error),
        (Ok(db), Ok(auth)) => Ok(AppView { db, auth }),
    }
}

impl AppState {
    /// Reads the configuration of the service from the settings of the
    /// environment, given as pairs of a name and a value.
    pub fn init(settings: &Vec<(String, String)>) -> (state: Result<AppState, MyError>)
        ensures
            match state_spec(settings@) {
                Ok(expected) => state is Ok && state->Ok_0@ == expected,
                Err(error) => state is Err && state->Err_0@ == error,
            },
    {
        let db = DB::init(settings)?;
        let auth = AuthConfig::init(settings)?;
        Ok(AppState { db, auth })
    }
}

/// What an answer carries.
#[derive(Debug, PartialEq, Eq)]
pub enum Payload<T> {
    /// What was asked for.
    Data(T),
    /// Why it could not be had.
    Fault(ErrorResponse),
    /// Nothing.
    Empty,
}

/// What a [`Payload`] holds.
pub enum PayloadView<V> {
    Data(V),
    Fault(ErrorResponseView),
    Empty,
}

impl<T: View> View for Payload<T> {
    type V = PayloadView<T::V>;

    open spec fn view(&self) -> PayloadView<T::V> {
        match self {
            Payload::Data(shown) => PayloadView::Data(shown@),
            Payload::Fault(fault) => PayloadView::Fault(fault@),
            Payload::Empty => PayloadView::Empty,
        }
    }
}

/// The answer to a request.
#[derive(Debug, PartialEq, Eq)]
pub struct Reply<T> {
    /// The HTTP status.
    pub status: u16,
    /// The session cookie to set, where a session is opened.
    pub cookie: Option<AuthCookie>,
    pub payload: Payload<T>,
}

/// What a [`Reply`] holds.
pub struct ReplyView<V> {
    pub status: u16,
    pub cookie: Option<CookieView>,
    pub payload: PayloadView<V>,
}

impl<T: View> View for Reply<T> {
    type V = ReplyView<T::V>;

    open spec fn view(&self) -> ReplyView<T::V> {
        ReplyView {
            status: self.status,
            cookie: maybe_cookie(self.cookie),
            payload: self.payload@,
        }
    }
}

/// What comes next in the serving of a request: a call to the store, or the
/// answer.
#[derive(Debug, PartialEq)]
pub enum Served<T> {
    Call(StoreRequest),
    Done(Reply<T>),
}

/// What a [`Served`] holds.
pub enum ServedView<V> {
    Call(RequestView),
    Done(ReplyView<V>),
}

impl<T: View> View for Served<T> {
    type V = ServedView<T::V>;

    open spec fn view(&self) -> ServedView<T::V> {
        match self {
            Served::Call(request) => ServedView::Call(request@),
            Served::Done(reply) => ServedView::Done(reply@),
        }
    }
}

/// The answer that reports an error: the status that goes with the error,
/// and a body that says whose fault it is, and what went wrong.
pub open spec fn failure<V>(error: ErrorView) -> ReplyView<V> {
    ReplyView {
        status: error.status_spec(),
        cookie: None,
        payload: PayloadView::Fault(
            ErrorResponseView { status: error.label_spec(), message: error.message_spec() },
        ),
    }
}

/// How a step of an operation is served: a call is passed on; a good end is
/// answered with what it shows, under "OK" for a request that reads and
/// under "Created" for one that writes; a bad end is answered with the
/// report of the error.
pub open spec fn respond<V>(handler: Handler, step: StepView<V>) -> ServedView<V> {
    match step {
        StepView::Call(request) => ServedView::Call(request),
        StepView::Done(Ok(shown)) => ServedView::Done(
            ReplyView {
                status: handler.success_status_spec(),
                cookie: None,
                payload: PayloadView::Data(shown),
            },
        ),
        StepView::Done(Err(error)) => ServedView::Done(failure(error)),
    }
}

/// Serves a step of an operation.
fn reply_to<T: View>(handler: Handler, step: Step<T>) -> (served: Served<T>)
    ensures
        served@ == respond(handler, step@),
{
    match step {
        Step::Call(request) => Served::Call(request),
        Step::Done(Ok(shown)) => Served::Done(
            Reply { status: handler.success_status(), cookie: None, payload: Payload::Data(shown) },
        ),
        Step::Done(Err(error)) => {
            let (status, fault) = error.into_response();
            Served::Done(Reply { status, cookie: None, payload: Payload::Fault(fault) })
        },
    }
}

/// What is said where no token can be made for a session.
pub const NO_TOKEN: &'static str = "Couldn't generate token";

/// The answer where no token can be made for a session.
pub open spec fn no_token<V>() -> ReplyView<V> {
    ReplyView {
        status: crate::error::STATUS_INTERNAL_SERVER_ERROR,
        cookie: None,
        payload: PayloadView::Fault(ErrorResponseView { status: "Error"@, message: NO_TOKEN@ }),
    }
}

/// Opening a session for the user that an answer shows: the answer gets the
/// session cookie of this user, good for a day from `now`. Where it shows no
/// user, the answer is as it was.
pub open spec fn with_session<V>(
    served: ServedView<V>,
    user_id: Option<Seq<char>>,
    auth: AuthView,
    now: u64,
) -> ServedView<V> {
    match (served, user_id) {
        (ServedView::Done(reply), Some(id)) => match cookie_spec(id, None, auth.secret, now) {
            Some(cookie) => ServedView::Done(ReplyView { cookie: Some(cookie), ..reply }),
            None => ServedView::Done(no_token()),
        },
        _ => served,
    }
}

/// Opens a session for the user of the identifier, where there is one.
pub fn when_user_added<T: View>(
    served: Served<T>,
    user_id: Option<String>,
    auth: &AuthConfig,
    now: u64,
) -> (opened: Served<T>)
    ensures
        opened@ == with_session(served@, crate::text::maybe_text(user_id), auth@, now),
{
    match (served, user_id) {
        (Served::Done(reply), Some(id)) => match generate_auth_cookie(
            id,
            None,
            auth.secret.as_str(),
            now,
        ) {
            Some(cookie) => Served::Done(
                Reply { status: reply.status, cookie: Some(cookie), payload: reply.payload },
            ),
            None => Served::Done(
                Reply {
                    status: crate::error::STATUS_INTERNAL_SERVER_ERROR,
                    cookie: None,
                    payload: Payload::Fault(
                        ErrorResponse { status: "Error", message: String::from_str(NO_TOKEN) },
                    ),
                },
            ),
        },
        (served, _) => served,
    }
}

/// A request, once its path and its body have been read.
#[derive(Debug, PartialEq, Eq)]
pub enum Request {
    /// Logs a user in, and opens a session.
    ApiLogin(LoginUserSchema),
    /// Registers a client, and opens a session.
    AddClient(CreateClientSchema),
    /// Lists the clients.
    ListClients,
    /// Registers a freelancer, and opens a session.
    AddFreelancer(CreateFreelancerSchema),
    /// Lists the freelancers.
    ListFreelancers,
    /// Posts a task.
    CreateTask(CreateTaskSchema),
    /// Lists the tasks.
    ListTasks,
    /// Lists the tasks that ask for a skill.
    GetTask(String),
    /// Submits a proposal.
    SubmitProposal(CreateProposalSchema),
    /// Lists the proposals.
    ListProposal,
    /// Shows a proposal with its milestones.
    GetProposal(String),
    /// Accepts a proposal and makes the deal.
    ApproveProposal(String),
    /// Attaches milestones to a proposal.
    AddMilestones(Vec<CreateMilestoneSchema>),
    /// Lists the milestones.
    ListMilestone,
    /// Hands in the deliverable of a milestone.
    SubmitMilestone { proposal_id: String, milestone_id: String, link: String },
    /// Lists the deals.
    ListDeals,
    /// Attaches a settlement address to a deal.
    UpdateDeal { deal_id: String, transaction_id: String },
    /// Leaves a review.
    AddReview(CreateReviewSchema),
}

/// What a [`Request`] holds.
pub enum AskView {
    ApiLogin(LoginUserView),
    AddClient(CreateClientView),
    ListClients,
    AddFreelancer(CreateFreelancerView),
    ListFreelancers,
    CreateTask(CreateTaskView),
    ListTasks,
    GetTask(Seq<char>),
    SubmitProposal(CreateProposalView),
    ListProposal,
    GetProposal(Seq<char>),
    ApproveProposal(Seq<char>),
    AddMilestones(Seq<CreateMilestoneView>),
    ListMilestone,
    SubmitMilestone { proposal_id: Seq<char>, milestone_id: Seq<char>, link: Seq<char> },
    ListDeals,
    UpdateDeal { deal_id: Seq<char>, transaction_id: Seq<char> },
    AddReview(CreateReviewView),
}

impl View for Request {
    type V = AskView;

    open spec fn view(&self) -> AskView {
        match self {
            Request::ApiLogin(body) => AskView::ApiLogin(body@),
            Request::AddClient(body) => AskView::AddClient(body@),
            Request::ListClients => AskView::ListClients,
            Request::AddFreelancer(body) => AskView::AddFreelancer(body@),
            Request::ListFreelancers => AskView::ListFreelancers,
            Request::CreateTask(body) => AskView::CreateTask(body@),
            Request::ListTasks => AskView::ListTasks,
            Request::GetTask(skill) => AskView::GetTask(skill@),
            Request::SubmitProposal(body) => AskView::SubmitProposal(body@),
            Request::ListProposal => AskView::ListProposal,
            Request::GetProposal(proposal_id) => AskView::GetProposal(proposal_id@),
            Request::ApproveProposal(proposal_id) => AskView::ApproveProposal(proposal_id@),
            Request::AddMilestones(body) => AskView::AddMilestones(batch_view(body@)),
            Request::ListMilestone => AskView::ListMilestone,
            Request::SubmitMilestone { proposal_id, milestone_id, link } => AskView::SubmitMilestone { proposal_id: proposal_id@, milestone_id: milestone_id@, link: link@ },
            Request::ListDeals => AskView::ListDeals,
            Request::UpdateDeal { deal_id, transaction_id } => AskView::UpdateDeal { deal_id: deal_id@, transaction_id: transaction_id@ },
            Request::AddReview(body) => AskView::AddReview(body@),
        }
    }
}

impl AskView {
    /// What answers the request.
    pub open spec fn handler(self) -> Handler {
        match self {
            AskView::ApiLogin(_) => Handler::ApiLogin,
            AskView::AddClient(_) => Handler::AddClient,
            AskView::ListClients => Handler::ListClients,
            AskView::AddFreelancer(_) => Handler::AddFreelancer,
            AskView::ListFreelancers => Handler::ListFreelancers,
            AskView::CreateTask(_) => Handler::CreateTask,
            AskView::ListTasks => Handler::ListTasks,
            AskView::GetTask(_) => Handler::GetTask,
            AskView::SubmitProposal(_) => Handler::SubmitProposal,
            AskView::ListProposal => Handler::ListProposal,
            AskView::GetProposal(_) => Handler::GetProposal,
            AskView::ApproveProposal(_) => Handler::ApproveProposal,
            AskView::AddMilestones(_) => Handler::AddMilestones,
            AskView::ListMilestone => Handler::ListMilestone,
            AskView::SubmitMilestone { .. } => Handler::SubmitMilestone,
            AskView::ListDeals => Handler::ListDeals,
            AskView::UpdateDeal { .. } => Handler::UpdateDeal,
            AskView::AddReview(_) => Handler::AddReview,
        }
    }
}

impl Request {
    /// What answers the request.
    pub fn handler(&self) -> (handler: Handler)
        ensures
            handler == self@.handler(),
    {
        match self {
            Request::ApiLogin(_) => Handler::ApiLogin,
            Request::AddClient(_) => Handler::AddClient,
            Request::ListClients => Handler::ListClients,
            Request::AddFreelancer(_) => Handler::AddFreelancer,
            Request::ListFreelancers => Handler::ListFreelancers,
            Request::CreateTask(_) => Handler::CreateTask,
            Request::ListTasks => Handler::ListTasks,
            Request::GetTask(_) => Handler::GetTask,
            Request::SubmitProposal(_) => Handler::SubmitProposal,
            Request::ListProposal => Handler::ListProposal,
            Request::GetProposal(_) => Handler::GetProposal,
            Request::ApproveProposal(_) => Handler::ApproveProposal,
            Request::AddMilestones(_) => Handler::AddMilestones,
            Request::ListMilestone => Handler::ListMilestone,
            Request::SubmitMilestone { .. } => Handler::SubmitMilestone,
            Request::ListDeals => Handler::ListDeals,
            Request::UpdateDeal { .. } => Handler::UpdateDeal,
            Request::AddReview(_) => Handler::AddReview,
        }
    }
}

/// What an answer shows, whatever the request.
#[derive(Debug, PartialEq, Eq)]
pub enum Body {
    User(SingleUserResponse),
    Client(SingleClientResponse),
    Clients(ClientListResponse),
    Freelancer(SingleFreelancerResponse),
    Freelancers(FreelancerListResponse),
    Task(SingleTaskResponse),
    Tasks(TaskListResponse),
    Proposal(SingleProposalResponse),
    Proposals(ProposalListResponse),
    DetailedProposal(SingleProposalDetailedResponse),
    ProposalDeal(SingleProposalDealResponse),
    Milestones(MilestoneListResponse),
    Milestone(SingleMilestoneResponse),
    Deals(DealListResponse),
    Deal(SingleDealResponse),
    Review(SingleReviewResponse),
}

/// What a [`Body`] holds.
pub enum BodyView {
    User(SingleView<UserResponseView>),
    Client(SingleView<ClientResponseView>),
    Clients(ListView<ClientResponseView>),
    Freelancer(SingleView<FreelancerResponseView>),
    Freelancers(ListView<FreelancerResponseView>),
    Task(SingleView<TaskResponseView>),
    Tasks(ListView<TaskResponseView>),
    Proposal(SingleView<ProposalResponseView>),
    Proposals(ListView<ProposalResponseView>),
    DetailedProposal(SingleView<ProposalDetailedView>),
    ProposalDeal(SingleView<ProposalDealView>),
    Milestones(ListView<MilestoneView>),
    Milestone(SingleView<MilestoneView>),
    Deals(ListView<DealView>),
    Deal(SingleView<DealView>),
    Review(SingleView<ReviewView>),
}

impl View for Body {
    type V = BodyView;

    open spec fn view(&self) -> BodyView {
        match self {
            Body::User(shown) => BodyView::User(shown@),
            Body::Client(shown) => BodyView::Client(shown@),
            Body::Clients(shown) => BodyView::Clients(shown@),
            Body::Freelancer(shown) => BodyView::Freelancer(shown@),
            Body::Freelancers(shown) => BodyView::Freelancers(shown@),
            Body::Task(shown) => BodyView::Task(shown@),
            Body::Tasks(shown) => BodyView::Tasks(shown@),
            Body::Proposal(shown) => BodyView::Proposal(shown@),
            Body::Proposals(shown) => BodyView::Proposals(shown@),
            Body::DetailedProposal(shown) => BodyView::DetailedProposal(shown@),
            Body::ProposalDeal(shown) => BodyView::ProposalDeal(shown@),
            Body::Milestones(shown) => BodyView::Milestones(shown@),
            Body::Milestone(shown) => BodyView::Milestone(shown@),
            Body::Deals(shown) => BodyView::Deals(shown@),
            Body::Deal(shown) => BodyView::Deal(shown@),
            Body::Review(shown) => BodyView::Review(shown@),
        }
    }
}

/// The identifier of the user that a step shows, where it ends well.
pub open spec fn user_shown(step: StepView<SingleView<UserResponseView>>) -> Option<Seq<char>> {
    match step {
        StepView::Done(Ok(shown)) => Some(shown.data.id),
        _ => None,
    }
}

/// The identifier of the client that a step shows, where it ends well.
pub open spec fn client_shown(step: StepView<SingleView<ClientResponseView>>) -> Option<Seq<char>> {
    match step {
        StepView::Done(Ok(shown)) => Some(shown.data.user.id),
        _ => None,
    }
}

/// The identifier of the freelancer that a step shows, where it ends well.
pub open spec fn freelancer_shown(step: StepView<SingleView<FreelancerResponseView>>) -> Option<
    Seq<char>,
> {
    match step {
        StepView::Done(Ok(shown)) => Some(shown.data.user.id),
        _ => None,
    }
}

/// Logs a user in, and opens a session.
pub fn api_login_handler(
    app_state: &AppState,
    body: &LoginUserSchema,
    answers: &Vec<StoreResponse>,
    now: u64,
) -> (served: Served<SingleUserResponse>)
    ensures
        served@ == with_session(
            respond(Handler::ApiLogin, api_login_spec(body@, answer_views(answers@))),
            user_shown(api_login_spec(body@, answer_views(answers@))),
            app_state@.auth,
            now,
        ),
{
    let step = app_state.db.api_login(body, answers);
    let user_id = match &step {
        Step::Done(Ok(shown)) => Some(shown.data.user.id.clone()),
        _ => None,
    };
    when_user_added(reply_to(Handler::ApiLogin, step), user_id, &app_state.auth, now)
}

/// Registers a client, and opens a session.
pub fn add_client_handler(
    app_state: &AppState,
    body: &CreateClientSchema,
    answers: &Vec<StoreResponse>,
    now: u64,
) -> (served: Served<SingleClientResponse>)
    ensures
        served@ == with_session(
            respond(Handler::AddClient, add_client_spec(body@, answer_views(answers@))),
            client_shown(add_client_spec(body@, answer_views(answers@))),
            app_state@.auth,
            now,
        ),
{
    let step = app_state.db.add_client(body, answers);
    let user_id = match &step {
        Step::Done(Ok(shown)) => Some(shown.data.client.user.id.clone()),
        _ => None,
    };
    when_user_added(reply_to(Handler::AddClient, step), user_id, &app_state.auth, now)
}

/// Registers a freelancer, and opens a session.
pub fn add_freelancer_handler(
    app_state: &AppState,
    body: &CreateFreelancerSchema,
    answers: &Vec<StoreResponse>,
    now: u64,
) -> (served: Served<SingleFreelancerResponse>)
    ensures
        served@ == with_session(
            respond(Handler::AddFreelancer, add_freelancer_spec(body@, answer_views(answers@))),
            freelancer_shown(add_freelancer_spec(body@, answer_views(answers@))),
            app_state@.auth,
            now,
        ),
{
    let step = app_state.db.add_freelancer(body, answers);
    let user_id = match &step {
        Step::Done(Ok(shown)) => Some(shown.data.freelancer.user.id.clone()),
        _ => None,
    };
    when_user_added(reply_to(Handler::AddFreelancer, step), user_id, &app_state.auth, now)
}



/// Lists the clients.
pub fn list_clients_handler(
    app_state: &AppState,
    answers: &Vec<StoreResponse>,
) -> (served: Served<ClientListResponse>)
    ensures
        served@ == respond(Handler::ListClients, list_spec(Collection::Clients, FilterView::All, show_client(), answer_views(answers@))),
{
    reply_to(Handler::ListClients, app_state.db.fetch_clients(answers))
}


/// Lists the freelancers.
pub fn list_freelancers_handler(
    app_state: &AppState,
    answers: &Vec<StoreResponse>,
) -> (served: Served<FreelancerListResponse>)
    ensures
        served@ == respond(Handler::ListFreelancers, list_spec(Collection::Freelancers, FilterView::All, show_freelancer(), answer_views(answers@))),
{
    reply_to(Handler::ListFreelancers, app_state.db.fetch_freelancers(answers))
}

/// Posts a task.
pub fn create_task_handler(
    app_state: &AppState,
    body: &CreateTaskSchema,
    answers: &Vec<StoreResponse>,
) -> (served: Served<SingleTaskResponse>)
    ensures
        served@ == respond(Handler::CreateTask, create_task_spec(body@, answer_views(answers@))),
{
    reply_to(Handler::CreateTask, app_state.db.create_task(body, answers))
}

/// Lists the tasks.
pub fn list_tasks_handler(
    app_state: &AppState,
    answers: &Vec<StoreResponse>,
) -> (served: Served<TaskListResponse>)
    ensures
        served@ == respond(Handler::ListTasks, list_spec(Collection::Tasks, FilterView::All, show_task(), answer_views(answers@))),
{
    reply_to(Handler::ListTasks, app_state.db.fetch_tasks(answers))
}

/// Lists the tasks that ask for a skill.
pub fn get_task_handler(
    app_state: &AppState,
    skill: &String,
    answers: &Vec<StoreResponse>,
) -> (served: Served<TaskListResponse>)
    ensures
        served@ == respond(Handler::GetTask, list_spec(Collection::Tasks, FilterView::Skill(skill@), show_task(), answer_views(answers@))),
{
    reply_to(Handler::GetTask, app_state.db.get_task(skill.as_str(), answers))
}

/// Submits a proposal.
pub fn submit_proposal_handler(
    app_state: &AppState,
    body: &CreateProposalSchema,
    answers: &Vec<StoreResponse>,
) -> (served: Served<SingleProposalResponse>)
    ensures
        served@ == respond(Handler::SubmitProposal, submit_proposal_spec(body@, answer_views(answers@))),
{
    reply_to(Handler::SubmitProposal, app_state.db.submit_proposal(body, answers))
}

/// Lists the proposals.
pub fn list_proposal_handler(
    app_state: &AppState,
    answers: &Vec<StoreResponse>,
) -> (served: Served<ProposalListResponse>)
    ensures
        served@ == respond(Handler::ListProposal, list_spec(Collection::Proposals, FilterView::All, show_proposal(), answer_views(answers@))),
{
    reply_to(Handler::ListProposal, app_state.db.fetch_proposals(answers))
}

/// Shows a proposal with its milestones.
pub fn get_proposal_handler(
    app_state: &AppState,
    proposal_id: &String,
    answers: &Vec<StoreResponse>,
) -> (served: Served<SingleProposalDetailedResponse>)
    ensures
        served@ == respond(Handler::GetProposal, get_proposal_spec(proposal_id@, answer_views(answers@))),
{
    reply_to(Handler::GetProposal, app_state.db.get_proposal(proposal_id.as_str(), answers))
}

/// Accepts a proposal and makes the deal.
pub fn approve_proposal_handler(
    app_state: &AppState,
    proposal_id: &String,
    answers: &Vec<StoreResponse>,
) -> (served: Served<SingleProposalDealResponse>)
    ensures
        served@ == respond(Handler::ApproveProposal, approve_proposal_spec(proposal_id@, answer_views(answers@))),
{
    reply_to(Handler::ApproveProposal, app_state.db.approve_proposal(proposal_id, answers))
}

/// Attaches milestones to a proposal.
pub fn add_milestones_handler(
    app_state: &AppState,
    body: &Vec<CreateMilestoneSchema>,
    answers: &Vec<StoreResponse>,
) -> (served: Served<SingleProposalResponse>)
    ensures
        served@ == respond(Handler::AddMilestones, add_milestones_spec(batch_view(body@), answer_views(answers@))),
{
    reply_to(Handler::AddMilestones, app_state.db.add_milestones(body, answers))
}

/// Lists the milestones.
pub fn list_milestone_handler(
    app_state: &AppState,
    answers: &Vec<StoreResponse>,
) -> (served: Served<MilestoneListResponse>)
    ensures
        served@ == respond(Handler::ListMilestone, list_spec(Collection::Milestones, FilterView::All, show_milestone(), answer_views(answers@))),
{
    reply_to(Handler::ListMilestone, app_state.db.fetch_milestones(answers))
}

/// Hands in the deliverable of a milestone.
pub fn submit_milestone_handler(
    app_state: &AppState,
    proposal_id: &String,
    milestone_id: &String,
    link: &String,
    answers: &Vec<StoreResponse>,
) -> (served: Served<SingleMilestoneResponse>)
    ensures
        served@ == respond(Handler::SubmitMilestone, submit_milestone_spec(proposal_id@, milestone_id@, link@, answer_views(answers@))),
{
    reply_to(Handler::SubmitMilestone, app_state.db.submit_milestone(proposal_id, milestone_id, link, answers))
}

/// Lists the deals.
pub fn list_deals_handler(
    app_state: &AppState,
    answers: &Vec<StoreResponse>,
) -> (served: Served<DealListResponse>)
    ensures
        served@ == respond(Handler::ListDeals, list_spec(Collection::Deals, FilterView::All, show_deal(), answer_views(answers@))),
{
    reply_to(Handler::ListDeals, app_state.db.fetch_deals(answers))
}

/// Attaches a settlement address to a deal.
pub fn update_deal_handler(
    app_state: &AppState,
    deal_id: &String,
    transaction_id: &String,
    answers: &Vec<StoreResponse>,
) -> (served: Served<SingleDealResponse>)
    ensures
        served@ == respond(Handler::UpdateDeal, update_deal_spec(deal_id@, transaction_id@, answer_views(answers@))),
{
    reply_to(Handler::UpdateDeal, app_state.db.update_deal(deal_id, transaction_id, answers))
}

/// Leaves a review.
pub fn add_review_handler(
    app_state: &AppState,
    body: &CreateReviewSchema,
    answers: &Vec<StoreResponse>,
) -> (served: Served<SingleReviewResponse>)
    ensures
        served@ == respond(Handler::AddReview, add_review_spec(app_state@.db.review_key, body@, answer_views(answers@))),
{
    reply_to(Handler::AddReview, app_state.db.add_review(body, answers))
}

/// The same answer, with what it shows put among the things that any answer
/// can show.
pub open spec fn in_body<V>(served: ServedView<V>, wrap: spec_fn(V) -> BodyView) -> ServedView<
    BodyView,
> {
    match served {
        ServedView::Call(request) => ServedView::Call(request),
        ServedView::Done(reply) => ServedView::Done(
            ReplyView {
                status: reply.status,
                cookie: reply.cookie,
                payload: match reply.payload {
                    PayloadView::Data(shown) => PayloadView::Data(wrap(shown)),
                    PayloadView::Fault(fault) => PayloadView::Fault(fault),
                    PayloadView::Empty => PayloadView::Empty,
                },
            },
        ),
    }
}

/// What the service does with a request that has been let in, given the
/// answers of the store so far.
pub open spec fn handle_spec(state: AppView, ask: AskView, answers: Seq<AnswerView>, now: u64) -> ServedView<
    BodyView,
> {
    match ask {
        AskView::ApiLogin(body) => in_body(
            with_session(
                respond(Handler::ApiLogin, api_login_spec(body, answers)),
                user_shown(api_login_spec(body, answers)),
                state.auth,
                now,
            ),
            |shown: SingleView<UserResponseView>| BodyView::User(shown),
        ),
        AskView::AddClient(body) => in_body(
            with_session(
                respond(Handler::AddClient, add_client_spec(body, answers)),
                client_shown(add_client_spec(body, answers)),
                state.auth,
                now,
            ),
            |shown: SingleView<ClientResponseView>| BodyView::Client(shown),
        ),
        AskView::ListClients => in_body(
            respond(Handler::ListClients, list_spec(Collection::Clients, FilterView::All, show_client(), answers)),
            |shown: ListView<ClientResponseView>| BodyView::Clients(shown),
        ),
        AskView::AddFreelancer(body) => in_body(
            with_session(
                respond(Handler::AddFreelancer, add_freelancer_spec(body, answers)),
                freelancer_shown(add_freelancer_spec(body, answers)),
                state.auth,
                now,
            ),
            |shown: SingleView<FreelancerResponseView>| BodyView::Freelancer(shown),
        ),
        AskView::ListFreelancers => in_body(
            respond(Handler::ListFreelancers, list_spec(Collection::Freelancers, FilterView::All, show_freelancer(), answers)),
            |shown: ListView<FreelancerResponseView>| BodyView::Freelancers(shown),
        ),
        AskView::CreateTask(body) => in_body(
            respond(Handler::CreateTask, create_task_spec(body, answers)),
            |shown: SingleView<TaskResponseView>| BodyView::Task(shown),
        ),
        AskView::ListTasks => in_body(
            respond(Handler::ListTasks, list_spec(Collection::Tasks, FilterView::All, show_task(), answers)),
            |shown: ListView<TaskResponseView>| BodyView::Tasks(shown),
        ),
        AskView::GetTask(skill) => in_body(
            respond(Handler::GetTask, list_spec(Collection::Tasks, FilterView::Skill(skill), show_task(), answers)),
            |shown: ListView<TaskResponseView>| BodyView::Tasks(shown),
        ),
        AskView::SubmitProposal(body) => in_body(
            respond(Handler::SubmitProposal, submit_proposal_spec(body, answers)),
            |shown: SingleView<ProposalResponseView>| BodyView::Proposal(shown),
        ),
        AskView::ListProposal => in_body(
            respond(Handler::ListProposal, list_spec(Collection::Proposals, FilterView::All, show_proposal(), answers)),
            |shown: ListView<ProposalResponseView>| BodyView::Proposals(shown),
        ),
        AskView::GetProposal(proposal_id) => in_body(
            respond(Handler::GetProposal, get_proposal_spec(proposal_id, answers)),
            |shown: SingleView<ProposalDetailedView>| BodyView::DetailedProposal(shown),
        ),
        AskView::ApproveProposal(proposal_id) => in_body(
            respond(Handler::ApproveProposal, approve_proposal_spec(proposal_id, answers)),
            |shown: SingleView<ProposalDealView>| BodyView::ProposalDeal(shown),
        ),
        AskView::AddMilestones(body) => in_body(
            respond(Handler::AddMilestones, add_milestones_spec(body, answers)),
            |shown: SingleView<ProposalResponseView>| BodyView::Proposal(shown),
        ),
        AskView::ListMilestone => in_body(
            respond(Handler::ListMilestone, list_spec(Collection::Milestones, FilterView::All, show_milestone(), answers)),
            |shown: ListView<MilestoneView>| BodyView::Milestones(shown),
        ),
        AskView::SubmitMilestone { proposal_id, milestone_id, link } => in_body(
            respond(Handler::SubmitMilestone, submit_milestone_spec(proposal_id, milestone_id, link, answers)),
            |shown: SingleView<MilestoneView>| BodyView::Milestone(shown),
        ),
        AskView::ListDeals => in_body(
            respond(Handler::ListDeals, list_spec(Collection::Deals, FilterView::All, show_deal(), answers)),
            |shown: ListView<DealView>| BodyView::Deals(shown),
        ),
        AskView::UpdateDeal { deal_id, transaction_id } => in_body(
            respond(Handler::UpdateDeal, update_deal_spec(deal_id, transaction_id, answers)),
            |shown: SingleView<DealView>| BodyView::Deal(shown),
        ),
        AskView::AddReview(body) => in_body(
            respond(Handler::AddReview, add_review_spec(state.db.review_key, body, answers)),
            |shown: SingleView<ReviewView>| BodyView::Review(shown),
        ),
    }
}

/// Serves a request that has been let in.
pub fn handle(app_state: &AppState, request: &Request, answers: &Vec<StoreResponse>, now: u64) -> (served:
    Served<Body>)
    ensures
        served@ == handle_spec(app_state@, request@, answer_views(answers@), now),
{
    match request {
        Request::ApiLogin(body) => match api_login_handler(app_state, body, answers, now) {
            Served::Call(request) => Served::Call(request),
            Served::Done(reply) => Served::Done(
                Reply {
                    status: reply.status,
                    cookie: reply.cookie,
                    payload: match reply.payload {
                        Payload::Data(shown) => Payload::Data(Body::User(shown)),
                        Payload::Fault(fault) => Payload::Fault(fault),
                        Payload::Empty => Payload::Empty,
                    },
                },
            ),
        },
        Request::AddClient(body) => match add_client_handler(app_state, body, answers, now) {
            Served::Call(request) => Served::Call(request),
            Served::Done(reply) => Served::Done(
                Reply {
                    status: reply.status,
                    cookie: reply.cookie,
                    payload: match reply.payload {
                        Payload::Data(shown) => Payload::Data(Body::Client(shown)),
                        Payload::Fault(fault) => Payload::Fault(fault),
                        Payload::Empty => Payload::Empty,
                    },
                },
            ),
        },
        Request::ListClients => match list_clients_handler(app_state, answers) {
            Served::Call(request) => Served::Call(request),
            Served::Done(reply) => Served::Done(
                Reply {
                    status: reply.status,
                    cookie: reply.cookie,
                    payload: match reply.payload {
                        Payload::Data(shown) => Payload::Data(Body::Clients(shown)),
                        Payload::Fault(fault) => Payload::Fault(fault),
                        Payload::Empty => Payload::Empty,
                    },
                },
            ),
        },
        Request::AddFreelancer(body) => match add_freelancer_handler(app_state, body, answers, now) {
            Served::Call(request) => Served::Call(request),
            Served::Done(reply) => Served::Done(
                Reply {
                    status: reply.status,
                    cookie: reply.cookie,
                    payload: match reply.payload {
                        Payload::Data(shown) => Payload::Data(Body::Freelancer(shown)),
                        Payload::Fault(fault) => Payload::Fault(fault),
                        Payload::Empty => Payload::Empty,
                    },
                },
            ),
        },
        Request::ListFreelancers => match list_freelancers_handler(app_state, answers) {
            Served::Call(request) => Served::Call(request),
            Served::Done(reply) => Served::Done(
                Reply {
                    status: reply.status,
                    cookie: reply.cookie,
                    payload: match reply.payload {
                        Payload::Data(shown) => Payload::Data(Body::Freelancers(shown)),
                        Payload::Fault(fault) => Payload::Fault(fault),
                        Payload::Empty => Payload::Empty,
                    },
                },
            ),
        },
        Request::CreateTask(body) => match create_task_handler(app_state, body, answers) {
            Served::Call(request) => Served::Call(request),
            Served::Done(reply) => Served::Done(
                Reply {
                    status: reply.status,
                    cookie: reply.cookie,
                    payload: match reply.payload {
                        Payload::Data(shown) => Payload::Data(Body::Task(shown)),
                        Payload::Fault(fault) => Payload::Fault(fault),
                        Payload::Empty => Payload::Empty,
                    },
                },
            ),
        },
        Request::ListTasks => match list_tasks_handler(app_state, answers) {
            Served::Call(request) => Served::Call(request),
            Served::Done(reply) => Served::Done(
                Reply {
                    status: reply.status,
                    cookie: reply.cookie,
                    payload: match reply.payload {
                        Payload::Data(shown) => Payload::Data(Body::Tasks(shown)),
                        Payload::Fault(fault) => Payload::Fault(fault),
                        Payload::Empty => Payload::Empty,
                    },
                },
            ),
        },
        Request::GetTask(skill) => match get_task_handler(app_state, skill, answers) {
            Served::Call(request) => Served::Call(request),
            Served::Done(reply) => Served::Done(
                Reply {
                    status: reply.status,
                    cookie: reply.cookie,
                    payload: match reply.payload {
                        Payload::Data(shown) => Payload::Data(Body::Tasks(shown)),
                        Payload::Fault(fault) => Payload::Fault(fault),
                        Payload::Empty => Payload::Empty,
                    },
                },
            ),
        },
        Request::SubmitProposal(body) => match submit_proposal_handler(app_state, body, answers) {
            Served::Call(request) => Served::Call(request),
            Served::Done(reply) => Served::Done(
                Reply {
                    status: reply.status,
                    cookie: reply.cookie,
                    payload: match reply.payload {
                        Payload::Data(shown) => Payload::Data(Body::Proposal(shown)),
                        Payload::Fault(fault) => Payload::Fault(fault),
                        Payload::Empty => Payload::Empty,
                    },
                },
            ),
        },
        Request::ListProposal => match list_proposal_handler(app_state, answers) {
            Served::Call(request) => Served::Call(request),
            Served::Done(reply) => Served::Done(
                Reply {
                    status: reply.status,
                    cookie: reply.cookie,
                    payload: match reply.payload {
                        Payload::Data(shown) => Payload::Data(Body::Proposals(shown)),
                        Payload::Fault(fault) => Payload::Fault(fault),
                        Payload::Empty => Payload::Empty,
                    },
                },
            ),
        },
        Request::GetProposal(proposal_id) => match get_proposal_handler(app_state, proposal_id, answers) {
            Served::Call(request) => Served::Call(request),
            Served::Done(reply) => Served::Done(
                Reply {
                    status: reply.status,
                    cookie: reply.cookie,
                    payload: match reply.payload {
                        Payload::Data(shown) => Payload::Data(Body::DetailedProposal(shown)),
                        Payload::Fault(fault) => Payload::Fault(fault),
                        Payload::Empty => Payload::Empty,
                    },
                },
            ),
        },
        Request::ApproveProposal(proposal_id) => match approve_proposal_handler(app_state, proposal_id, answers) {
            Served::Call(request) => Served::Call(request),
            Served::Done(reply) => Served::Done(
                Reply {
                    status: reply.status,
                    cookie: reply.cookie,
                    payload: match reply.payload {
                        Payload::Data(shown) => Payload::Data(Body::ProposalDeal(shown)),
                        Payload::Fault(fault) => Payload::Fault(fault),
                        Payload::Empty => Payload::Empty,
                    },
                },
            ),
        },
        Request::AddMilestones(body) => match add_milestones_handler(app_state, body, answers) {
            Served::Call(request) => Served::Call(request),
            Served::Done(reply) => Served::Done(
                Reply {
                    status: reply.status,
                    cookie: reply.cookie,
                    payload: match reply.payload {
                        Payload::Data(shown) => Payload::Data(Body::Proposal(shown)),
                        Payload::Fault(fault) => Payload::Fault(fault),
                        Payload::Empty => Payload::Empty,
                    },
                },
            ),
        },
        Request::ListMilestone => match list_milestone_handler(app_state, answers) {
            Served::Call(request) => Served::Call(request),
            Served::Done(reply) => Served::Done(
                Reply {
                    status: reply.status,
                    cookie: reply.cookie,
                    payload: match reply.payload {
                        Payload::Data(shown) => Payload::Data(Body::Milestones(shown)),
                        Payload::Fault(fault) => Payload::Fault(fault),
                        Payload::Empty => Payload::Empty,
                    },
                },
            ),
        },
        Request::SubmitMilestone { proposal_id, milestone_id, link } => match submit_milestone_handler(app_state, proposal_id, milestone_id, link, answers) {
            Served::Call(request) => Served::Call(request),
            Served::Done(reply) => Served::Done(
                Reply {
                    status: reply.status,
                    cookie: reply.cookie,
                    payload: match reply.payload {
                        Payload::Data(shown) => Payload::Data(Body::Milestone(shown)),
                        Payload::Fault(fault) => Payload::Fault(fault),
                        Payload::Empty => Payload::Empty,
                    },
                },
            ),
        },
        Request::ListDeals => match list_deals_handler(app_state, answers) {
            Served::Call(request) => Served::Call(request),
            Served::Done(reply) => Served::Done(
                Reply {
                    status: reply.status,
                    cookie: reply.cookie,
                    payload: match reply.payload {
                        Payload::Data(shown) => Payload::Data(Body::Deals(shown)),
                        Payload::Fault(fault) => Payload::Fault(fault),
                        Payload::Empty => Payload::Empty,
                    },
                },
            ),
        },
        Request::UpdateDeal { deal_id, transaction_id } => match update_deal_handler(app_state, deal_id, transaction_id, answers) {
            Served::Call(request) => Served::Call(request),
            Served::Done(reply) => Served::Done(
                Reply {
                    status: reply.status,
                    cookie: reply.cookie,
                    payload: match reply.payload {
                        Payload::Data(shown) => Payload::Data(Body::Deal(shown)),
                        Payload::Fault(fault) => Payload::Fault(fault),
                        Payload::Empty => Payload::Empty,
                    },
                },
            ),
        },
        Request::AddReview(body) => match add_review_handler(app_state, body, answers) {
            Served::Call(request) => Served::Call(request),
            Served::Done(reply) => Served::Done(
                Reply {
                    status: reply.status,
                    cookie: reply.cookie,
                    payload: match reply.payload {
                        Payload::Data(shown) => Payload::Data(Body::Review(shown)),
                        Payload::Fault(fault) => Payload::Fault(fault),
                        Payload::Empty => Payload::Empty,
                    },
                },
            ),
        },
    }
}

/// The answer that turns a request away.
pub open spec fn turned_away<V>() -> ReplyView<V> {
    ReplyView { status: STATUS_UNAUTHORIZED, cookie: None, payload: PayloadView::Empty }
}

/// Whether a request for the handler is let in: one for a guarded route
/// only where it shows a good session.
pub open spec fn gets_in(
    state: AppView,
    handler: Handler,
    cookie: Option<Seq<char>>,
    now: u64,
) -> bool {
    !handler.guarded_spec() || session_spec(cookie, state.auth.secret, state.auth.audience, now)
        is Some
}

/// Decides whether a request is let in, from its route and its session
/// cookie alone: whoever reads requests can ask this before the body of the
/// request is looked at, so that a request without a good session is turned
/// away whatever its body holds. The answer is `None` where the request is
/// let in, and else the answer that turns it away.
pub fn screen(app_state: &AppState, handler: &Handler, cookie: Option<&str>, now: u64) -> (turned:
    Option<Reply<Body>>)
    ensures
        match turned {
            Some(reply) => !gets_in(app_state@, *handler, maybe_str(cookie), now) && reply@
                == turned_away::<BodyView>(),
            None => gets_in(app_state@, *handler, maybe_str(cookie), now),
        },
{
    if handler.guarded() {
        match mw_require_auth(
            cookie,
            app_state.auth.secret.as_str(),
            &app_state.auth.audience,
            now,
        ) {
            Ok(_) => None,
            Err(status) => Some(Reply { status, cookie: None, payload: Payload::Empty }),
        }
    } else {
        None
    }
}

/// What the service does with a request: one for a guarded route is turned
/// away unless it shows a good session; every other is handled.
pub open spec fn serve_spec(
    state: AppView,
    ask: AskView,
    cookie: Option<Seq<char>>,
    answers: Seq<AnswerView>,
    now: u64,
) -> ServedView<BodyView> {
    if !gets_in(state, ask.handler(), cookie, now) {
        ServedView::Done(turned_away())
    } else {
        handle_spec(state, ask, answers, now)
    }
}

/// Serves a request. `cookie` is the value of the session cookie, where the
/// request carries one; `answers` are the answers of the store to the calls
/// made for this request so far; `now` is the time in seconds since 1970.
pub fn serve(
    app_state: &AppState,
    request: &Request,
    cookie: Option<&str>,
    answers: &Vec<StoreResponse>,
    now: u64,
) -> (served: Served<Body>)
    ensures
        served@ == serve_spec(
            app_state@,
            request@,
            maybe_str(cookie),
            answer_views(answers@),
            now,
        ),
{
    let handler = request.handler();
    match screen(app_state, &handler, cookie, now) {
        Some(reply) => Served::Done(reply),
        None => handle(app_state, request, answers, now),
    }
}

} // verus!
