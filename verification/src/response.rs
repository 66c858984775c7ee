//! What the service answers: each entity as it is shown, and the envelopes
//! that carry one of them or a list.

use crate::model::{DealView, MilestoneView, ReviewView};
use crate::text::{copy_texts, texts};
use vstd::prelude::*;

verus! {

/// The word that every successful answer carries.
pub const SUCCESS: &'static str = "Success";

/// A user as the service shows it.
#[derive(Debug, PartialEq, Eq)]
pub struct UserResponse {
    pub id: String,
    pub role: String,
    pub user_name: String,
    pub description: String,
    pub password: String,
}

/// What a [`UserResponse`] holds.
pub struct UserResponseView {
    pub id: Seq<char>,
    pub role: Seq<char>,
    pub user_name: Seq<char>,
    pub description: Seq<char>,
    pub password: Seq<char>,
}

impl View for UserResponse {
    type V = UserResponseView;

    open spec fn view(&self) -> UserResponseView {
        UserResponseView {
            id: self.id@,
            role: self.role@,
            user_name: self.user_name@,
            description: self.description@,
            password: self.password@,
        }
    }
}

impl Clone for UserResponse {
    fn clone(&self) -> (copy: Self)
        ensures
            copy@ == self@,
    {
        UserResponse {
            id: self.id.clone(),
            role: self.role.clone(),
            user_name: self.user_name.clone(),
            description: self.description.clone(),
            password: self.password.clone(),
        }
    }
}

/// A freelancer as the service shows it.
#[derive(Debug, PartialEq, Eq)]
pub struct FreelancerResponse {
    pub user: UserResponse,
    pub skills: Vec<String>,
}

/// What a [`FreelancerResponse`] holds.
pub struct FreelancerResponseView {
    pub user: UserResponseView,
    pub skills: Seq<Seq<char>>,
}

impl View for FreelancerResponse {
    type V = FreelancerResponseView;

    open spec fn view(&self) -> FreelancerResponseView {
        FreelancerResponseView {
            user: self.user@,
            skills: texts(self.skills@),
        }
    }
}

impl Clone for FreelancerResponse {
    fn clone(&self) -> (copy: Self)
        ensures
            copy@ == self@,
    {
        FreelancerResponse {
            user: self.user.clone(),
            skills: copy_texts(&self.skills),
        }
    }
}

/// A client as the service shows it.
#[derive(Debug, PartialEq, Eq)]
pub struct ClientResponse {
    pub user: UserResponse,
    pub tasks_ids: Vec<String>,
}

/// What a [`ClientResponse`] holds.
pub struct ClientResponseView {
    pub user: UserResponseView,
    pub tasks_ids: Seq<Seq<char>>,
}

impl View for ClientResponse {
    type V = ClientResponseView;

    open spec fn view(&self) -> ClientResponseView {
        ClientResponseView {
            user: self.user@,
            tasks_ids: texts(self.tasks_ids@),
        }
    }
}

impl Clone for ClientResponse {
    fn clone(&self) -> (copy: Self)
        ensures
            copy@ == self@,
    {
        ClientResponse {
            user: self.user.clone(),
            tasks_ids: copy_texts(&self.tasks_ids),
        }
    }
}

/// A task as the service shows it.
#[derive(Debug, PartialEq, Eq)]
pub struct TaskResponse {
    pub id: String,
    pub client_id: String,
    pub title: String,
    pub start_time: String,
    pub deadline: String,
    pub description: String,
    pub skills: Vec<String>,
    pub bounty: u16,
    pub proposals_id: Vec<String>,
}

/// What a [`TaskResponse`] holds.
pub struct TaskResponseView {
    pub id: Seq<char>,
    pub client_id: Seq<char>,
    pub title: Seq<char>,
    pub start_time: Seq<char>,
    pub deadline: Seq<char>,
    pub description: Seq<char>,
    pub skills: Seq<Seq<char>>,
    pub bounty: u16,
    pub proposals_id: Seq<Seq<char>>,
}

impl View for TaskResponse {
    type V = TaskResponseView;

    open spec fn view(&self) -> TaskResponseView {
        TaskResponseView {
            id: self.id@,
            client_id: self.client_id@,
            title: self.title@,
            start_time: self.start_time@,
            deadline: self.deadline@,
            description: self.description@,
            skills: texts(self.skills@),
            bounty: self.bounty,
            proposals_id: texts(self.proposals_id@),
        }
    }
}

impl Clone for TaskResponse {
    fn clone(&self) -> (copy: Self)
        ensures
            copy@ == self@,
    {
        TaskResponse {
            id: self.id.clone(),
            client_id: self.client_id.clone(),
            title: self.title.clone(),
            start_time: self.start_time.clone(),
            deadline: self.deadline.clone(),
            description: self.description.clone(),
            skills: copy_texts(&self.skills),
            bounty: self.bounty,
            proposals_id: copy_texts(&self.proposals_id),
        }
    }
}

/// A milestone as the service shows it.
#[derive(Debug, PartialEq, Eq)]
pub struct MilestoneResponse {
    pub id: String,
    pub proposal_id: String,
    pub description: String,
    pub deadline: String,
    pub price: u64,
    pub link: String,
    pub status: String,
}

impl View for MilestoneResponse {
    type V = MilestoneView;

    open spec fn view(&self) -> MilestoneView {
        MilestoneView {
            id: self.id@,
            proposal_id: self.proposal_id@,
            description: self.description@,
            deadline: self.deadline@,
            price: self.price,
            link: self.link@,
            status: self.status@,
        }
    }
}

impl Clone for MilestoneResponse {
    fn clone(&self) -> (copy: Self)
        ensures
            copy@ == self@,
    {
        MilestoneResponse {
            id: self.id.clone(),
            proposal_id: self.proposal_id.clone(),
            description: self.description.clone(),
            deadline: self.deadline.clone(),
            price: self.price,
            link: self.link.clone(),
            status: self.status.clone(),
        }
    }
}

/// A proposal as the service shows it.
#[derive(Debug, PartialEq, Eq)]
pub struct ProposalResponse {
    pub id: String,
    pub client_id: String,
    pub task_id: String,
    pub freelancer_id: String,
    pub milestones_id: Vec<String>,
    pub proposal_price: u64,
    pub accepted: bool,
}

/// What a [`ProposalResponse`] holds.
pub struct ProposalResponseView {
    pub id: Seq<char>,
    pub client_id: Seq<char>,
    pub task_id: Seq<char>,
    pub freelancer_id: Seq<char>,
    pub milestones_id: Seq<Seq<char>>,
    pub proposal_price: u64,
    pub accepted: bool,
}

impl View for ProposalResponse {
    type V = ProposalResponseView;

    open spec fn view(&self) -> ProposalResponseView {
        ProposalResponseView {
            id: self.id@,
            client_id: self.client_id@,
            task_id: self.task_id@,
            freelancer_id: self.freelancer_id@,
            milestones_id: texts(self.milestones_id@),
            proposal_price: self.proposal_price,
            accepted: self.accepted,
        }
    }
}

impl Clone for ProposalResponse {
    fn clone(&self) -> (copy: Self)
        ensures
            copy@ == self@,
    {
        ProposalResponse {
            id: self.id.clone(),
            client_id: self.client_id.clone(),
            task_id: self.task_id.clone(),
            freelancer_id: self.freelancer_id.clone(),
            milestones_id: copy_texts(&self.milestones_id),
            proposal_price: self.proposal_price,
            accepted: self.accepted,
        }
    }
}

/// A deal as the service shows it.
#[derive(Debug, PartialEq, Eq)]
pub struct DealResponse {
    pub id: String,
    pub task_id: String,
    pub proposal_id: String,
    pub freelancer_id: String,
    pub client_id: String,
    pub price: u64,
    pub status: String,
    pub address: String,
}

impl View for DealResponse {
    type V = DealView;

    open spec fn view(&self) -> DealView {
        DealView {
            id: self.id@,
            task_id: self.task_id@,
            proposal_id: self.proposal_id@,
            freelancer_id: self.freelancer_id@,
            client_id: self.client_id@,
            price: self.price,
            status: self.status@,
            address: self.address@,
        }
    }
}

impl Clone for DealResponse {
    fn clone(&self) -> (copy: Self)
        ensures
            copy@ == self@,
    {
        DealResponse {
            id: self.id.clone(),
            task_id: self.task_id.clone(),
            proposal_id: self.proposal_id.clone(),
            freelancer_id: self.freelancer_id.clone(),
            client_id: self.client_id.clone(),
            price: self.price,
            status: self.status.clone(),
            address: self.address.clone(),
        }
    }
}

/// A deal that has no identifier yet.
#[derive(Debug, PartialEq, Eq)]
pub struct PartialDealResponse {
    pub task_id: String,
    pub proposal_id: String,
    pub freelancer_id: String,
    pub client_id: String,
    pub price: u64,
    pub status: String,
    pub address: String,
}

/// What a [`PartialDealResponse`] holds.
pub struct PartialDealView {
    pub task_id: Seq<char>,
    pub proposal_id: Seq<char>,
    pub freelancer_id: Seq<char>,
    pub client_id: Seq<char>,
    pub price: u64,
    pub status: Seq<char>,
    pub address: Seq<char>,
}

impl View for PartialDealResponse {
    type V = PartialDealView;

    open spec fn view(&self) -> PartialDealView {
        PartialDealView {
            task_id: self.task_id@,
            proposal_id: self.proposal_id@,
            freelancer_id: self.freelancer_id@,
            client_id: self.client_id@,
            price: self.price,
            status: self.status@,
            address: self.address@,
        }
    }
}

impl Clone for PartialDealResponse {
    fn clone(&self) -> (copy: Self)
        ensures
            copy@ == self@,
    {
        PartialDealResponse {
            task_id: self.task_id.clone(),
            proposal_id: self.proposal_id.clone(),
            freelancer_id: self.freelancer_id.clone(),
            client_id: self.client_id.clone(),
            price: self.price,
            status: self.status.clone(),
            address: self.address.clone(),
        }
    }
}

/// A review as the service shows it.
#[derive(Debug, PartialEq, Eq)]
pub struct ReviewResponse {
    pub id: String,
    pub client_id: String,
    pub deal_id: String,
    pub freelancer_id: String,
    pub review: String,
    pub stars: u16,
}

impl View for ReviewResponse {
    type V = ReviewView;

    open spec fn view(&self) -> ReviewView {
        ReviewView {
            id: self.id@,
            client_id: self.client_id@,
            deal_id: self.deal_id@,
            freelancer_id: self.freelancer_id@,
            review: self.review@,
            stars: self.stars,
        }
    }
}

impl Clone for ReviewResponse {
    fn clone(&self) -> (copy: Self)
        ensures
            copy@ == self@,
    {
        ReviewResponse {
            id: self.id.clone(),
            client_id: self.client_id.clone(),
            deal_id: self.deal_id.clone(),
            freelancer_id: self.freelancer_id.clone(),
            review: self.review.clone(),
            stars: self.stars,
        }
    }
}

/// A proposal together with its milestones.
#[derive(Debug, PartialEq, Eq)]
pub struct ProposalDetailedResponse {
    pub id: String,
    pub client_id: String,
    pub task_id: String,
    pub freelancer_id: String,
    pub milestones: Vec<MilestoneResponse>,
    pub proposal_price: u64,
    pub accepted: bool,
}

/// What a [`ProposalDetailedResponse`] holds.
pub struct ProposalDetailedView {
    pub id: Seq<char>,
    pub client_id: Seq<char>,
    pub task_id: Seq<char>,
    pub freelancer_id: Seq<char>,
    pub milestones: Seq<MilestoneView>,
    pub proposal_price: u64,
    pub accepted: bool,
}

/// What each milestone of a list holds.
pub open spec fn milestone_views(list: Seq<MilestoneResponse>) -> Seq<MilestoneView> {
    Seq::new(list.len(), |i: int| list[i]@)
}

impl View for ProposalDetailedResponse {
    type V = ProposalDetailedView;

    open spec fn view(&self) -> ProposalDetailedView {
        ProposalDetailedView {
            id: self.id@,
            client_id: self.client_id@,
            task_id: self.task_id@,
            freelancer_id: self.freelancer_id@,
            milestones: milestone_views(self.milestones@),
            proposal_price: self.proposal_price,
            accepted: self.accepted,
        }
    }
}

/// The payload of an answer that shows a user.
#[derive(Debug, PartialEq, Eq)]
pub struct UserData {
    pub user: UserResponse,
}

/// The payload of an answer that shows a client.
#[derive(Debug, PartialEq, Eq)]
pub struct ClientData {
    pub client: ClientResponse,
}

/// The payload of an answer that shows a freelancer.
#[derive(Debug, PartialEq, Eq)]
pub struct FreelancerData {
    pub freelancer: FreelancerResponse,
}

/// The payload of an answer that shows a task.
#[derive(Debug, PartialEq, Eq)]
pub struct TaskData {
    pub task: TaskResponse,
}

/// The payload of an answer that shows a proposal.
#[derive(Debug, PartialEq, Eq)]
pub struct ProposalData {
    pub proposal: ProposalResponse,
}

/// The payload of an answer that shows a proposal with its milestones.
#[derive(Debug, PartialEq, Eq)]
pub struct ProposalDetailedData {
    pub detailed_proposal: ProposalDetailedResponse,
}

/// The payload of an answer that shows a milestone.
#[derive(Debug, PartialEq, Eq)]
pub struct MilestoneData {
    pub milestone: MilestoneResponse,
}

/// The payload of an answer that shows a deal.
#[derive(Debug, PartialEq, Eq)]
pub struct DealData {
    pub deal: DealResponse,
}

/// The payload of an answer that shows a review.
#[derive(Debug, PartialEq, Eq)]
pub struct ReviewData {
    pub review: ReviewResponse,
}

/// The payload of the answer to an acceptance: the proposal and the deal made of it.
#[derive(Debug, PartialEq, Eq)]
pub struct ProposalDealData {
    pub proposal: ProposalResponse,
    pub deal: DealResponse,
}

/// The answer that shows a user.
#[derive(Debug, PartialEq, Eq)]
pub struct SingleUserResponse {
    pub status: &'static str,
    pub data: UserData,
}

/// The answer that shows a client.
#[derive(Debug, PartialEq, Eq)]
pub struct SingleClientResponse {
    pub status: &'static str,
    pub data: ClientData,
}

/// The answer that shows a freelancer.
#[derive(Debug, PartialEq, Eq)]
pub struct SingleFreelancerResponse {
    pub status: &'static str,
    pub data: FreelancerData,
}

/// The answer that shows a task.
#[derive(Debug, PartialEq, Eq)]
pub struct SingleTaskResponse {
    pub status: &'static str,
    pub data: TaskData,
}

/// The answer that shows a proposal.
#[derive(Debug, PartialEq, Eq)]
pub struct SingleProposalResponse {
    pub status: &'static str,
    pub data: ProposalData,
}

/// The answer that shows a proposal with its milestones.
#[derive(Debug, PartialEq, Eq)]
pub struct SingleProposalDetailedResponse {
    pub status: &'static str,
    pub data: ProposalDetailedData,
}

/// The answer that shows a milestone.
#[derive(Debug, PartialEq, Eq)]
pub struct SingleMilestoneResponse {
    pub status: &'static str,
    pub data: MilestoneData,
}

/// The answer that shows an accepted proposal and its deal.
#[derive(Debug, PartialEq, Eq)]
pub struct SingleProposalDealResponse {
    pub status: &'static str,
    pub data: ProposalDealData,
}

/// The answer that shows a deal.
#[derive(Debug, PartialEq, Eq)]
pub struct SingleDealResponse {
    pub status: &'static str,
    pub data: DealData,
}

/// The answer that shows a review.
#[derive(Debug, PartialEq, Eq)]
pub struct SingleReviewResponse {
    pub status: &'static str,
    pub data: ReviewData,
}

/// The answer that lists users; `results` is their number.
#[derive(Debug, PartialEq, Eq)]
pub struct UsersListResponse {
    pub status: &'static str,
    pub results: usize,
    pub users: Vec<UserResponse>,
}

/// The answer that lists clients; `results` is their number.
#[derive(Debug, PartialEq, Eq)]
pub struct ClientListResponse {
    pub status: &'static str,
    pub results: usize,
    pub users: Vec<ClientResponse>,
}

/// The answer that lists freelancers; `results` is their number.
#[derive(Debug, PartialEq, Eq)]
pub struct FreelancerListResponse {
    pub status: &'static str,
    pub results: usize,
    pub users: Vec<FreelancerResponse>,
}

/// The answer that lists tasks; `results` is their number.
#[derive(Debug, PartialEq, Eq)]
pub struct TaskListResponse {
    pub status: &'static str,
    pub results: usize,
    pub tasks: Vec<TaskResponse>,
}

/// The answer that lists proposals; `results` is their number.
#[derive(Debug, PartialEq, Eq)]
pub struct ProposalListResponse {
    pub status: &'static str,
    pub results: usize,
    pub proposals: Vec<ProposalResponse>,
}

/// The answer that lists milestones; `results` is their number.
#[derive(Debug, PartialEq, Eq)]
pub struct MilestoneListResponse {
    pub status: &'static str,
    pub results: usize,
    pub milestones: Vec<MilestoneResponse>,
}

/// The answer that lists deals; `results` is their number.
#[derive(Debug, PartialEq, Eq)]
pub struct DealListResponse {
    pub status: &'static str,
    pub results: usize,
    pub deals: Vec<DealResponse>,
}

/// What an answer that shows one thing holds.
pub struct SingleView<T> {
    pub status: Seq<char>,
    pub data: T,
}

/// What an answer that lists things holds.
pub struct ListView<T> {
    pub status: Seq<char>,
    pub results: usize,
    pub items: Seq<T>,
}

/// The successful answer that shows `data`.
pub open spec fn success<T>(data: T) -> SingleView<T> {
    SingleView { status: SUCCESS@, data }
}

/// The successful answer that lists `items`.
pub open spec fn success_list<T>(items: Seq<T>) -> ListView<T> {
    ListView { status: SUCCESS@, results: items.len() as usize, items }
}

impl View for UserData {
    type V = UserResponseView;

    open spec fn view(&self) -> UserResponseView {
        self.user@
    }
}

impl View for ClientData {
    type V = ClientResponseView;

    open spec fn view(&self) -> ClientResponseView {
        self.client@
    }
}

impl View for FreelancerData {
    type V = FreelancerResponseView;

    open spec fn view(&self) -> FreelancerResponseView {
        self.freelancer@
    }
}

impl View for TaskData {
    type V = TaskResponseView;

    open spec fn view(&self) -> TaskResponseView {
        self.task@
    }
}

impl View for ProposalData {
    type V = ProposalResponseView;

    open spec fn view(&self) -> ProposalResponseView {
        self.proposal@
    }
}

impl View for ProposalDetailedData {
    type V = ProposalDetailedView;

    open spec fn view(&self) -> ProposalDetailedView {
        self.detailed_proposal@
    }
}

impl View for MilestoneData {
    type V = MilestoneView;

    open spec fn view(&self) -> MilestoneView {
        self.milestone@
    }
}

impl View for DealData {
    type V = DealView;

    open spec fn view(&self) -> DealView {
        self.deal@
    }
}

impl View for ReviewData {
    type V = ReviewView;

    open spec fn view(&self) -> ReviewView {
        self.review@
    }
}

/// What the answer to an acceptance holds.
pub struct ProposalDealView {
    pub proposal: ProposalResponseView,
    pub deal: DealView,
}

impl View for ProposalDealData {
    type V = ProposalDealView;

    open spec fn view(&self) -> ProposalDealView {
        ProposalDealView { proposal: self.proposal@, deal: self.deal@ }
    }
}

impl View for SingleUserResponse {
    type V = SingleView<UserResponseView>;

    open spec fn view(&self) -> SingleView<UserResponseView> {
        SingleView { status: self.status@, data: self.data@ }
    }
}

impl View for SingleClientResponse {
    type V = SingleView<ClientResponseView>;

    open spec fn view(&self) -> SingleView<ClientResponseView> {
        SingleView { status: self.status@, data: self.data@ }
    }
}

impl View for SingleFreelancerResponse {
    type V = SingleView<FreelancerResponseView>;

    open spec fn view(&self) -> SingleView<FreelancerResponseView> {
        SingleView { status: self.status@, data: self.data@ }
    }
}

impl View for SingleTaskResponse {
    type V = SingleView<TaskResponseView>;

    open spec fn view(&self) -> SingleView<TaskResponseView> {
        SingleView { status: self.status@, data: self.data@ }
    }
}

impl View for SingleProposalResponse {
    type V = SingleView<ProposalResponseView>;

    open spec fn view(&self) -> SingleView<ProposalResponseView> {
        SingleView { status: self.status@, data: self.data@ }
    }
}

impl View for SingleProposalDetailedResponse {
    type V = SingleView<ProposalDetailedView>;

    open spec fn view(&self) -> SingleView<ProposalDetailedView> {
        SingleView { status: self.status@, data: self.data@ }
    }
}

impl View for SingleMilestoneResponse {
    type V = SingleView<MilestoneView>;

    open spec fn view(&self) -> SingleView<MilestoneView> {
        SingleView { status: self.status@, data: self.data@ }
    }
}

impl View for SingleProposalDealResponse {
    type V = SingleView<ProposalDealView>;

    open spec fn view(&self) -> SingleView<ProposalDealView> {
        SingleView { status: self.status@, data: self.data@ }
    }
}

impl View for SingleDealResponse {
    type V = SingleView<DealView>;

    open spec fn view(&self) -> SingleView<DealView> {
        SingleView { status: self.status@, data: self.data@ }
    }
}

impl View for SingleReviewResponse {
    type V = SingleView<ReviewView>;

    open spec fn view(&self) -> SingleView<ReviewView> {
        SingleView { status: self.status@, data: self.data@ }
    }
}

impl View for UsersListResponse {
    type V = ListView<UserResponseView>;

    open spec fn view(&self) -> ListView<UserResponseView> {
        ListView {
            status: self.status@,
            results: self.results,
            items: Seq::new(self.users@.len(), |i: int| self.users@[i]@),
        }
    }
}

impl View for ClientListResponse {
    type V = ListView<ClientResponseView>;

    open spec fn view(&self) -> ListView<ClientResponseView> {
        ListView {
            status: self.status@,
            results: self.results,
            items: Seq::new(self.users@.len(), |i: int| self.users@[i]@),
        }
    }
}

impl View for FreelancerListResponse {
    type V = ListView<FreelancerResponseView>;

    open spec fn view(&self) -> ListView<FreelancerResponseView> {
        ListView {
            status: self.status@,
            results: self.results,
            items: Seq::new(self.users@.len(), |i: int| self.users@[i]@),
        }
    }
}

impl View for TaskListResponse {
    type V = ListView<TaskResponseView>;

    open spec fn view(&self) -> ListView<TaskResponseView> {
        ListView {
            status: self.status@,
            results: self.results,
            items: Seq::new(self.tasks@.len(), |i: int| self.tasks@[i]@),
        }
    }
}

impl View for ProposalListResponse {
    type V = ListView<ProposalResponseView>;

    open spec fn view(&self) -> ListView<ProposalResponseView> {
        ListView {
            status: self.status@,
            results: self.results,
            items: Seq::new(self.proposals@.len(), |i: int| self.proposals@[i]@),
        }
    }
}

impl View for MilestoneListResponse {
    type V = ListView<MilestoneView>;

    open spec fn view(&self) -> ListView<MilestoneView> {
        ListView {
            status: self.status@,
            results: self.results,
            items: Seq::new(self.milestones@.len(), |i: int| self.milestones@[i]@),
        }
    }
}

impl View for DealListResponse {
    type V = ListView<DealView>;

    open spec fn view(&self) -> ListView<DealView> {
        ListView {
            status: self.status@,
            results: self.results,
            items: Seq::new(self.deals@.len(), |i: int| self.deals@[i]@),
        }
    }
}

} // verus!
