//! The bodies of the requests that create or change something.

use crate::text::{copy_maybe_text, copy_maybe_texts, copy_texts, maybe_text, maybe_texts, texts};
use vstd::prelude::*;

verus! {

/// The identifier taken from a path.
#[derive(Debug, PartialEq, Eq)]
pub struct ParamOptions {
    pub id: String,
}

/// What a [`ParamOptions`] holds.
pub struct ParamOptionsView {
    pub id: Seq<char>,
}

impl View for ParamOptions {
    type V = ParamOptionsView;

    open spec fn view(&self) -> ParamOptionsView {
        ParamOptionsView {
            id: self.id@,
        }
    }
}

impl Clone for ParamOptions {
    fn clone(&self) -> (copy: Self)
        ensures
            copy@ == self@,
    {
        ParamOptions {
            id: self.id.clone(),
        }
    }
}

/// What a user sends to log in.
#[derive(Debug, PartialEq, Eq)]
pub struct LoginUserSchema {
    pub user_name: String,
    pub password: String,
    /// Either "client" or "freelancer".
    pub role: String,
}

/// What a [`LoginUserSchema`] holds.
pub struct LoginUserView {
    pub user_name: Seq<char>,
    pub password: Seq<char>,
    pub role: Seq<char>,
}

impl View for LoginUserSchema {
    type V = LoginUserView;

    open spec fn view(&self) -> LoginUserView {
        LoginUserView {
            user_name: self.user_name@,
            password: self.password@,
            role: self.role@,
        }
    }
}

impl Clone for LoginUserSchema {
    fn clone(&self) -> (copy: Self)
        ensures
            copy@ == self@,
    {
        LoginUserSchema {
            user_name: self.user_name.clone(),
            password: self.password.clone(),
            role: self.role.clone(),
        }
    }
}

/// What every new user sends, whatever the role.
#[derive(Debug, PartialEq, Eq)]
pub struct CreateUserSchema {
    pub user_name: String,
    pub description: Option<String>,
    pub password: String,
}

/// What a [`CreateUserSchema`] holds.
pub struct CreateUserView {
    pub user_name: Seq<char>,
    pub description: Option<Seq<char>>,
    pub password: Seq<char>,
}

impl View for CreateUserSchema {
    type V = CreateUserView;

    open spec fn view(&self) -> CreateUserView {
        CreateUserView {
            user_name: self.user_name@,
            description: maybe_text(self.description),
            password: self.password@,
        }
    }
}

impl Clone for CreateUserSchema {
    fn clone(&self) -> (copy: Self)
        ensures
            copy@ == self@,
    {
        CreateUserSchema {
            user_name: self.user_name.clone(),
            description: copy_maybe_text(&self.description),
            password: self.password.clone(),
        }
    }
}

/// What a new client sends.
#[derive(Debug, PartialEq, Eq)]
pub struct CreateClientSchema {
    pub user: CreateUserSchema,
    pub task_ids: Option<Vec<String>>,
}

/// What a [`CreateClientSchema`] holds.
pub struct CreateClientView {
    pub user: CreateUserView,
    pub task_ids: Option<Seq<Seq<char>>>,
}

impl View for CreateClientSchema {
    type V = CreateClientView;

    open spec fn view(&self) -> CreateClientView {
        CreateClientView {
            user: self.user@,
            task_ids: maybe_texts(self.task_ids),
        }
    }
}

impl Clone for CreateClientSchema {
    fn clone(&self) -> (copy: Self)
        ensures
            copy@ == self@,
    {
        CreateClientSchema {
            user: self.user.clone(),
            task_ids: copy_maybe_texts(&self.task_ids),
        }
    }
}

/// What a new freelancer sends.
#[derive(Debug, PartialEq, Eq)]
pub struct CreateFreelancerSchema {
    pub user: CreateUserSchema,
    pub skills: Option<Vec<String>>,
}

/// What a [`CreateFreelancerSchema`] holds.
pub struct CreateFreelancerView {
    pub user: CreateUserView,
    pub skills: Option<Seq<Seq<char>>>,
}

impl View for CreateFreelancerSchema {
    type V = CreateFreelancerView;

    open spec fn view(&self) -> CreateFreelancerView {
        CreateFreelancerView {
            user: self.user@,
            skills: maybe_texts(self.skills),
        }
    }
}

impl Clone for CreateFreelancerSchema {
    fn clone(&self) -> (copy: Self)
        ensures
            copy@ == self@,
    {
        CreateFreelancerSchema {
            user: self.user.clone(),
            skills: copy_maybe_texts(&self.skills),
        }
    }
}

/// What a client sends to post a task.
#[derive(Debug, PartialEq, Eq)]
pub struct CreateTaskSchema {
    pub client_id: String,
    pub title: String,
    pub start_time: String,
    pub deadline: String,
    pub description: String,
    pub skills: Vec<String>,
    pub bounty: u16,
    pub proposals_id: Option<Vec<String>>,
}

/// What a [`CreateTaskSchema`] holds.
pub struct CreateTaskView {
    pub client_id: Seq<char>,
    pub title: Seq<char>,
    pub start_time: Seq<char>,
    pub deadline: Seq<char>,
    pub description: Seq<char>,
    pub skills: Seq<Seq<char>>,
    pub bounty: u16,
    pub proposals_id: Option<Seq<Seq<char>>>,
}

impl View for CreateTaskSchema {
    type V = CreateTaskView;

    open spec fn view(&self) -> CreateTaskView {
        CreateTaskView {
            client_id: self.client_id@,
            title: self.title@,
            start_time: self.start_time@,
            deadline: self.deadline@,
            description: self.description@,
            skills: texts(self.skills@),
            bounty: self.bounty,
            proposals_id: maybe_texts(self.proposals_id),
        }
    }
}

impl Clone for CreateTaskSchema {
    fn clone(&self) -> (copy: Self)
        ensures
            copy@ == self@,
    {
        CreateTaskSchema {
            client_id: self.client_id.clone(),
            title: self.title.clone(),
            start_time: self.start_time.clone(),
            deadline: self.deadline.clone(),
            description: self.description.clone(),
            skills: copy_texts(&self.skills),
            bounty: self.bounty,
            proposals_id: copy_maybe_texts(&self.proposals_id),
        }
    }
}

/// What a freelancer sends to bid on a task.
#[derive(Debug, PartialEq, Eq)]
pub struct CreateProposalSchema {
    pub client_id: String,
    pub task_id: String,
    pub freelancer_id: String,
}

/// What a [`CreateProposalSchema`] holds.
pub struct CreateProposalView {
    pub client_id: Seq<char>,
    pub task_id: Seq<char>,
    pub freelancer_id: Seq<char>,
}

impl View for CreateProposalSchema {
    type V = CreateProposalView;

    open spec fn view(&self) -> CreateProposalView {
        CreateProposalView {
            client_id: self.client_id@,
            task_id: self.task_id@,
            freelancer_id: self.freelancer_id@,
        }
    }
}

impl Clone for CreateProposalSchema {
    fn clone(&self) -> (copy: Self)
        ensures
            copy@ == self@,
    {
        CreateProposalSchema {
            client_id: self.client_id.clone(),
            task_id: self.task_id.clone(),
            freelancer_id: self.freelancer_id.clone(),
        }
    }
}

/// One deliverable of a proposal, as the freelancer sends it.
#[derive(Debug, PartialEq, Eq)]
pub struct CreateMilestoneSchema {
    pub proposal_id: String,
    pub description: String,
    pub deadline: String,
    pub price: u64,
}

/// What a [`CreateMilestoneSchema`] holds.
pub struct CreateMilestoneView {
    pub proposal_id: Seq<char>,
    pub description: Seq<char>,
    pub deadline: Seq<char>,
    pub price: u64,
}

impl View for CreateMilestoneSchema {
    type V = CreateMilestoneView;

    open spec fn view(&self) -> CreateMilestoneView {
        CreateMilestoneView {
            proposal_id: self.proposal_id@,
            description: self.description@,
            deadline: self.deadline@,
            price: self.price,
        }
    }
}

impl Clone for CreateMilestoneSchema {
    fn clone(&self) -> (copy: Self)
        ensures
            copy@ == self@,
    {
        CreateMilestoneSchema {
            proposal_id: self.proposal_id.clone(),
            description: self.description.clone(),
            deadline: self.deadline.clone(),
            price: self.price,
        }
    }
}

/// What a client sends to review a deal.
#[derive(Debug, PartialEq, Eq)]
pub struct CreateReviewSchema {
    pub freelancer_id: String,
    pub client_id: String,
    pub deal_id: String,
    pub review: String,
    pub stars: u16,
}

/// What a [`CreateReviewSchema`] holds.
pub struct CreateReviewView {
    pub freelancer_id: Seq<char>,
    pub client_id: Seq<char>,
    pub deal_id: Seq<char>,
    pub review: Seq<char>,
    pub stars: u16,
}

impl View for CreateReviewSchema {
    type V = CreateReviewView;

    open spec fn view(&self) -> CreateReviewView {
        CreateReviewView {
            freelancer_id: self.freelancer_id@,
            client_id: self.client_id@,
            deal_id: self.deal_id@,
            review: self.review@,
            stars: self.stars,
        }
    }
}

impl Clone for CreateReviewSchema {
    fn clone(&self) -> (copy: Self)
        ensures
            copy@ == self@,
    {
        CreateReviewSchema {
            freelancer_id: self.freelancer_id.clone(),
            client_id: self.client_id.clone(),
            deal_id: self.deal_id.clone(),
            review: self.review.clone(),
            stars: self.stars,
        }
    }
}

} // verus!
