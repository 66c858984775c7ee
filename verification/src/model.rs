//! The documents of the store, one type for each collection.

use crate::text::{copy_maybe_text, copy_maybe_texts, copy_texts, maybe_text, maybe_texts, texts};
use vstd::prelude::*;

verus! {

/// What is stored of every user, whatever the role.
#[derive(Debug, PartialEq, Eq)]
pub struct UserModel {
    pub id: String,
    pub role: String,
    pub user_name: String,
    pub description: Option<String>,
    pub password: String,
}

/// What a [`UserModel`] holds.
pub struct UserView {
    pub id: Seq<char>,
    pub role: Seq<char>,
    pub user_name: Seq<char>,
    pub description: Option<Seq<char>>,
    pub password: Seq<char>,
}

impl View for UserModel {
    type V = UserView;

    open spec fn view(&self) -> UserView {
        UserView {
            id: self.id@,
            role: self.role@,
            user_name: self.user_name@,
            description: maybe_text(self.description),
            password: self.password@,
        }
    }
}

impl Clone for UserModel {
    fn clone(&self) -> (copy: Self)
        ensures
            copy@ == self@,
    {
        UserModel {
            id: self.id.clone(),
            role: self.role.clone(),
            user_name: self.user_name.clone(),
            description: copy_maybe_text(&self.description),
            password: self.password.clone(),
        }
    }
}

/// A stored client: a user who posts tasks.
#[derive(Debug, PartialEq, Eq)]
pub struct ClientModel {
    pub user: UserModel,
    pub tasks_ids: Option<Vec<String>>,
}

/// What a [`ClientModel`] holds.
pub struct ClientView {
    pub user: UserView,
    pub tasks_ids: Option<Seq<Seq<char>>>,
}

impl View for ClientModel {
    type V = ClientView;

    open spec fn view(&self) -> ClientView {
        ClientView {
            user: self.user@,
            tasks_ids: maybe_texts(self.tasks_ids),
        }
    }
}

impl Clone for ClientModel {
    fn clone(&self) -> (copy: Self)
        ensures
            copy@ == self@,
    {
        ClientModel {
            user: self.user.clone(),
            tasks_ids: copy_maybe_texts(&self.tasks_ids),
        }
    }
}

/// A stored freelancer: a user who bids on tasks.
#[derive(Debug, PartialEq, Eq)]
pub struct FreelancerModel {
    pub user: UserModel,
    pub skills: Option<Vec<String>>,
}

/// What a [`FreelancerModel`] holds.
pub struct FreelancerView {
    pub user: UserView,
    pub skills: Option<Seq<Seq<char>>>,
}

impl View for FreelancerModel {
    type V = FreelancerView;

    open spec fn view(&self) -> FreelancerView {
        FreelancerView {
            user: self.user@,
            skills: maybe_texts(self.skills),
        }
    }
}

impl Clone for FreelancerModel {
    fn clone(&self) -> (copy: Self)
        ensures
            copy@ == self@,
    {
        FreelancerModel {
            user: self.user.clone(),
            skills: copy_maybe_texts(&self.skills),
        }
    }
}

/// A stored task.
#[derive(Debug, PartialEq, Eq)]
pub struct TaskModel {
    pub id: String,
    pub client_id: String,
    pub title: String,
    pub start_time: String,
    pub deadline: String,
    pub description: String,
    pub skills: Vec<String>,
    pub bounty: u16,
    pub proposals_id: Option<Vec<String>>,
}

/// What a [`TaskModel`] holds.
pub struct TaskView {
    pub id: Seq<char>,
    pub client_id: Seq<char>,
    pub title: Seq<char>,
    pub start_time: Seq<char>,
    pub deadline: Seq<char>,
    pub description: Seq<char>,
    pub skills: Seq<Seq<char>>,
    pub bounty: u16,
    pub proposals_id: Option<Seq<Seq<char>>>,
}

impl View for TaskModel {
    type V = TaskView;

    open spec fn view(&self) -> TaskView {
        TaskView {
            id: self.id@,
            client_id: self.client_id@,
            title: self.title@,
            start_time: self.start_time@,
            deadline: self.deadline@,
            description: self.description@,
            skills: texts(self.skills@),
            bounty: self.bounty,
            proposals_id: maybe_texts(self.proposals_id),
        }
    }
}

impl Clone for TaskModel {
    fn clone(&self) -> (copy: Self)
        ensures
            copy@ == self@,
    {
        TaskModel {
            id: self.id.clone(),
            client_id: self.client_id.clone(),
            title: self.title.clone(),
            start_time: self.start_time.clone(),
            deadline: self.deadline.clone(),
            description: self.description.clone(),
            skills: copy_texts(&self.skills),
            bounty: self.bounty,
            proposals_id: copy_maybe_texts(&self.proposals_id),
        }
    }
}

/// A stored proposal.
#[derive(Debug, PartialEq, Eq)]
pub struct ProposalModel {
    pub id: String,
    pub client_id: String,
    pub task_id: String,
    pub freelancer_id: String,
    pub milestones_id: Option<Vec<String>>,
    /// The sum of the prices of the milestones, once they are attached.
    pub proposal_price: u64,
    /// Set once, when the client accepts the proposal; never cleared.
    pub accepted: bool,
}

/// What a [`ProposalModel`] holds.
pub struct ProposalView {
    pub id: Seq<char>,
    pub client_id: Seq<char>,
    pub task_id: Seq<char>,
    pub freelancer_id: Seq<char>,
    pub milestones_id: Option<Seq<Seq<char>>>,
    pub proposal_price: u64,
    pub accepted: bool,
}

impl View for ProposalModel {
    type V = ProposalView;

    open spec fn view(&self) -> ProposalView {
        ProposalView {
            id: self.id@,
            client_id: self.client_id@,
            task_id: self.task_id@,
            freelancer_id: self.freelancer_id@,
            milestones_id: maybe_texts(self.milestones_id),
            proposal_price: self.proposal_price,
            accepted: self.accepted,
        }
    }
}

impl Clone for ProposalModel {
    fn clone(&self) -> (copy: Self)
        ensures
            copy@ == self@,
    {
        ProposalModel {
            id: self.id.clone(),
            client_id: self.client_id.clone(),
            task_id: self.task_id.clone(),
            freelancer_id: self.freelancer_id.clone(),
            milestones_id: copy_maybe_texts(&self.milestones_id),
            proposal_price: self.proposal_price,
            accepted: self.accepted,
        }
    }
}

/// A stored milestone.
#[derive(Debug, PartialEq, Eq)]
pub struct MilestoneModel {
    pub id: String,
    pub proposal_id: String,
    pub description: String,
    pub deadline: String,
    pub price: u64,
    /// Where the deliverable can be found; empty until it is submitted.
    pub link: String,
    /// "Initialized", "Submitted" or "Approved".
    pub status: String,
}

/// What a [`MilestoneModel`] holds.
pub struct MilestoneView {
    pub id: Seq<char>,
    pub proposal_id: Seq<char>,
    pub description: Seq<char>,
    pub deadline: Seq<char>,
    pub price: u64,
    pub link: Seq<char>,
    pub status: Seq<char>,
}

impl View for MilestoneModel {
    type V = MilestoneView;

    open spec fn view(&self) -> MilestoneView {
        MilestoneView {
            id: self.id@,
            proposal_id: self.proposal_id@,
            description: self.description@,
            deadline: self.deadline@,
            price: self.price,
            link: self.link@,
            status: self.status@,
        }
    }
}

impl Clone for MilestoneModel {
    fn clone(&self) -> (copy: Self)
        ensures
            copy@ == self@,
    {
        MilestoneModel {
            id: self.id.clone(),
            proposal_id: self.proposal_id.clone(),
            description: self.description.clone(),
            deadline: self.deadline.clone(),
            price: self.price,
            link: self.link.clone(),
            status: self.status.clone(),
        }
    }
}

/// A stored deal.
#[derive(Debug, PartialEq, Eq)]
pub struct DealModel {
    pub id: String,
    pub task_id: String,
    pub proposal_id: String,
    pub freelancer_id: String,
    pub client_id: String,
    /// The price of the proposal at the moment it was accepted.
    pub price: u64,
    pub status: String,
    /// An opaque settlement address; "0x0" until one is attached.
    pub address: String,
}

/// What a [`DealModel`] holds.
pub struct DealView {
    pub id: Seq<char>,
    pub task_id: Seq<char>,
    pub proposal_id: Seq<char>,
    pub freelancer_id: Seq<char>,
    pub client_id: Seq<char>,
    pub price: u64,
    pub status: Seq<char>,
    pub address: Seq<char>,
}

impl View for DealModel {
    type V = DealView;

    open spec fn view(&self) -> DealView {
        DealView {
            id: self.id@,
            task_id: self.task_id@,
            proposal_id: self.proposal_id@,
            freelancer_id: self.freelancer_id@,
            client_id: self.client_id@,
            price: self.price,
            status: self.status@,
            address: self.address@,
        }
    }
}

impl Clone for DealModel {
    fn clone(&self) -> (copy: Self)
        ensures
            copy@ == self@,
    {
        DealModel {
            id: self.id.clone(),
            task_id: self.task_id.clone(),
            proposal_id: self.proposal_id.clone(),
            freelancer_id: self.freelancer_id.clone(),
            client_id: self.client_id.clone(),
            price: self.price,
            status: self.status.clone(),
            address: self.address.clone(),
        }
    }
}

/// A stored review.
#[derive(Debug, PartialEq, Eq)]
pub struct ReviewModel {
    pub id: String,
    pub freelancer_id: String,
    pub client_id: String,
    pub deal_id: String,
    pub review: String,
    pub stars: u16,
}

/// What a [`ReviewModel`] holds.
pub struct ReviewView {
    pub id: Seq<char>,
    pub freelancer_id: Seq<char>,
    pub client_id: Seq<char>,
    pub deal_id: Seq<char>,
    pub review: Seq<char>,
    pub stars: u16,
}

impl View for ReviewModel {
    type V = ReviewView;

    open spec fn view(&self) -> ReviewView {
        ReviewView {
            id: self.id@,
            freelancer_id: self.freelancer_id@,
            client_id: self.client_id@,
            deal_id: self.deal_id@,
            review: self.review@,
            stars: self.stars,
        }
    }
}

impl Clone for ReviewModel {
    fn clone(&self) -> (copy: Self)
        ensures
            copy@ == self@,
    {
        ReviewModel {
            id: self.id.clone(),
            freelancer_id: self.freelancer_id.clone(),
            client_id: self.client_id.clone(),
            deal_id: self.deal_id.clone(),
            review: self.review.clone(),
            stars: self.stars,
        }
    }
}

} // verus!
