//! Reading a stored document as the record that it describes, and what the
//! documents that the service writes read back as.

use crate::document::{
    field, fields_of, FieldValue, flag_at, has_field, lemma_field_names, number_at, text_at,
    texts_at,
};
use crate::model::{
    ClientModel, ClientView, DealModel, DealView, FreelancerModel, FreelancerView, MilestoneModel,
    MilestoneView, ProposalModel, ProposalView, ReviewModel, ReviewView, TaskModel, TaskView,
    UserModel, UserView,
};
use crate::response::PartialDealView;
use crate::schema::{
    CreateMilestoneView, CreateProposalView, CreateReviewView, CreateTaskView, CreateUserView,
};
use crate::store::{Collection, Record, RecordView};
use crate::text::{maybe_texts, texts};
use crate::utils::{
    client_fields, deal_fields, deal_with_id, freelancer_fields, INITIALIZED, LARGEST_NUMBER,
    milestone_fields, proposal_fields, review_fields, stored_stars, task_fields,
};
use mongodb::bson::Document;
use vstd::prelude::*;
use vstd::string::*;

verus! {

/// The text under `key`, where the fields hold one.
pub open spec fn text_of(fields: Map<Seq<char>, FieldValue>, key: Seq<char>) -> Option<Seq<char>> {
    match field(fields, key) {
        Some(FieldValue::Text(text)) => Some(text),
        _ => None,
    }
}

/// The list of texts under `key`, where the fields hold one.
pub open spec fn texts_of(fields: Map<Seq<char>, FieldValue>, key: Seq<char>) -> Option<
    Seq<Seq<char>>,
> {
    match field(fields, key) {
        Some(FieldValue::Texts(list)) => Some(list),
        _ => None,
    }
}

/// The number under `key`, where the fields hold one that is not negative
/// and not above `most`.
pub open spec fn number_of(fields: Map<Seq<char>, FieldValue>, key: Seq<char>, most: u64) -> Option<
    u64,
> {
    match field(fields, key) {
        Some(FieldValue::Number(n)) => if 0 <= n <= most {
            Some(n as u64)
        } else {
            None
        },
        _ => None,
    }
}

/// The boolean under `key`, where the fields hold one.
pub open spec fn flag_of(fields: Map<Seq<char>, FieldValue>, key: Seq<char>) -> Option<bool> {
    match field(fields, key) {
        Some(FieldValue::Flag(flag)) => Some(flag),
        _ => None,
    }
}

/// Whether `key` is absent, or holds a list of texts.
pub open spec fn texts_if_any(fields: Map<Seq<char>, FieldValue>, key: Seq<char>) -> bool {
    !fields.dom().contains(key) || texts_of(fields, key) is Some
}

/// The number under `key`, where the document holds one that is not
/// negative and not above `most`.
fn read_number(document: &Document, key: &str, most: u64) -> (value: Option<u64>)
    ensures
        value == number_of(fields_of(*document), key@, most),
{
    match number_at(document, key) {
        Some(n) => if 0 <= n && n as u64 <= most {
            Some(n as u64)
        } else {
            None
        },
        None => None,
    }
}

/// A list that may be absent: `Some(None)` where `key` is absent,
/// `Some(Some(list))` where it holds a list of texts, `None` otherwise.
fn read_maybe_texts(document: &Document, key: &str) -> (value: Option<Option<Vec<String>>>)
    ensures
        texts_if_any(fields_of(*document), key@) <==> value is Some,
        value is Some ==> maybe_texts(value->0) == texts_of(fields_of(*document), key@),
{
    if !has_field(document, key) {
        return Some(None);
    }
    match texts_at(document, key) {
        Some(list) => Some(Some(list)),
        None => None,
    }
}

/// The user that the fields describe, if they describe one: identifier,
/// role, name and password must be texts, and so must the description where
/// there is one.
pub open spec fn user_of_fields(fields: Map<Seq<char>, FieldValue>) -> Option<UserView> {
    if text_of(fields, "_id"@) is Some && text_of(fields, "role"@) is Some && text_of(
        fields,
        "user_name"@,
    ) is Some && text_of(fields, "password"@) is Some && (!fields.dom().contains("description"@)
        || text_of(fields, "description"@) is Some) {
        Some(
            UserView {
                id: text_of(fields, "_id"@)->0,
                role: text_of(fields, "role"@)->0,
                user_name: text_of(fields, "user_name"@)->0,
                description: text_of(fields, "description"@),
                password: text_of(fields, "password"@)->0,
            },
        )
    } else {
        None
    }
}

/// Reads what a document holds of a user.
fn read_user(document: &Document) -> (user: Option<UserModel>)
    ensures
        match user_of_fields(fields_of(*document)) {
            Some(expected) => user is Some && user->0@ == expected,
            None => user is None,
        },
{
    let id = text_at(document, "_id")?;
    let role = text_at(document, "role")?;
    let user_name = text_at(document, "user_name")?;
    let password = text_at(document, "password")?;
    let description = text_at(document, "description");
    if description.is_none() && has_field(document, "description") {
        return None;
    }
    Some(UserModel { id, role, user_name, description, password })
}

/// The record of `collection` that the fields describe, if they describe
/// one.
pub open spec fn record_of_fields(collection: Collection, fields: Map<Seq<char>, FieldValue>) -> Option<
    RecordView,
> {
    match collection {
        Collection::Clients => if user_of_fields(fields) is Some && texts_if_any(
            fields,
            "tasks_ids"@,
        ) {
            Some(
                RecordView::Client(
                    ClientView {
                        user: user_of_fields(fields)->0,
                        tasks_ids: texts_of(fields, "tasks_ids"@),
                    },
                ),
            )
        } else {
            None
        },
        Collection::Freelancers => if user_of_fields(fields) is Some && texts_if_any(
            fields,
            "skills"@,
        ) {
            Some(
                RecordView::Freelancer(
                    FreelancerView {
                        user: user_of_fields(fields)->0,
                        skills: texts_of(fields, "skills"@),
                    },
                ),
            )
        } else {
            None
        },
        Collection::Tasks => if text_of(fields, "_id"@) is Some && text_of(fields, "client_id"@)
            is Some && text_of(fields, "title"@) is Some && text_of(fields, "start_time"@) is Some
            && text_of(fields, "deadline"@) is Some && text_of(fields, "description"@) is Some
            && texts_of(fields, "skills"@) is Some && number_of(fields, "bounty"@, 0xffff) is Some
            && texts_if_any(fields, "proposals_id"@) {
            Some(
                RecordView::Task(
                    TaskView {
                        id: text_of(fields, "_id"@)->0,
                        client_id: text_of(fields, "client_id"@)->0,
                        title: text_of(fields, "title"@)->0,
                        start_time: text_of(fields, "start_time"@)->0,
                        deadline: text_of(fields, "deadline"@)->0,
                        description: text_of(fields, "description"@)->0,
                        skills: texts_of(fields, "skills"@)->0,
                        bounty: number_of(fields, "bounty"@, 0xffff)->0 as u16,
                        proposals_id: texts_of(fields, "proposals_id"@),
                    },
                ),
            )
        } else {
            None
        },
        Collection::Proposals => if text_of(fields, "_id"@) is Some && text_of(
            fields,
            "client_id"@,
        ) is Some && text_of(fields, "task_id"@) is Some && text_of(fields, "freelancer_id"@)
            is Some && texts_if_any(fields, "milestones_id"@) && number_of(
            fields,
            "proposal_price"@,
            u64::MAX,
        ) is Some && flag_of(fields, "accepted"@) is Some {
            Some(
                RecordView::Proposal(
                    ProposalView {
                        id: text_of(fields, "_id"@)->0,
                        client_id: text_of(fields, "client_id"@)->0,
                        task_id: text_of(fields, "task_id"@)->0,
                        freelancer_id: text_of(fields, "freelancer_id"@)->0,
                        milestones_id: texts_of(fields, "milestones_id"@),
                        proposal_price: number_of(fields, "proposal_price"@, u64::MAX)->0,
                        accepted: flag_of(fields, "accepted"@)->0,
                    },
                ),
            )
        } else {
            None
        },
        Collection::Milestones => if text_of(fields, "_id"@) is Some && text_of(
            fields,
            "proposal_id"@,
        ) is Some && text_of(fields, "description"@) is Some && text_of(fields, "deadline"@)
            is Some && number_of(fields, "price"@, u64::MAX) is Some && text_of(fields, "link"@)
            is Some && text_of(fields, "status"@) is Some {
            Some(
                RecordView::Milestone(
                    MilestoneView {
                        id: text_of(fields, "_id"@)->0,
                        proposal_id: text_of(fields, "proposal_id"@)->0,
                        description: text_of(fields, "description"@)->0,
                        deadline: text_of(fields, "deadline"@)->0,
                        price: number_of(fields, "price"@, u64::MAX)->0,
                        link: text_of(fields, "link"@)->0,
                        status: text_of(fields, "status"@)->0,
                    },
                ),
            )
        } else {
            None
        },
        Collection::Deals => if text_of(fields, "_id"@) is Some && text_of(fields, "task_id"@)
            is Some && text_of(fields, "proposal_id"@) is Some && text_of(fields, "freelancer_id"@)
            is Some && text_of(fields, "client_id"@) is Some && number_of(
            fields,
            "price"@,
            u64::MAX,
        ) is Some && text_of(fields, "status"@) is Some && text_of(fields, "address"@) is Some {
            Some(
                RecordView::Deal(
                    DealView {
                        id: text_of(fields, "_id"@)->0,
                        task_id: text_of(fields, "task_id"@)->0,
                        proposal_id: text_of(fields, "proposal_id"@)->0,
                        freelancer_id: text_of(fields, "freelancer_id"@)->0,
                        client_id: text_of(fields, "client_id"@)->0,
                        price: number_of(fields, "price"@, u64::MAX)->0,
                        status: text_of(fields, "status"@)->0,
                        address: text_of(fields, "address"@)->0,
                    },
                ),
            )
        } else {
            None
        },
        Collection::Reviews => if text_of(fields, "_id"@) is Some && text_of(
            fields,
            "freelancer_id"@,
        ) is Some && text_of(fields, "client_id"@) is Some && text_of(fields, "deal_id"@) is Some
            && text_of(fields, "review"@) is Some && number_of(fields, "stars"@, 0xffff) is Some {
            Some(
                RecordView::Review(
                    ReviewView {
                        id: text_of(fields, "_id"@)->0,
                        freelancer_id: text_of(fields, "freelancer_id"@)->0,
                        client_id: text_of(fields, "client_id"@)->0,
                        deal_id: text_of(fields, "deal_id"@)->0,
                        review: text_of(fields, "review"@)->0,
                        stars: number_of(fields, "stars"@, 0xffff)->0 as u16,
                    },
                ),
            )
        } else {
            None
        },
    }
}

/// Reads a document as a record of `collection`.
pub fn read_record(collection: Collection, document: &Document) -> (record: Option<Record>)
    ensures
        match record_of_fields(collection, fields_of(*document)) {
            Some(expected) => record is Some && record->0@ == expected,
            None => record is None,
        },
{
    match collection {
        Collection::Clients => {
            let user = read_user(document)?;
            let tasks_ids = read_maybe_texts(document, "tasks_ids")?;
            Some(Record::Client(ClientModel { user, tasks_ids }))
        },
        Collection::Freelancers => {
            let user = read_user(document)?;
            let skills = read_maybe_texts(document, "skills")?;
            Some(Record::Freelancer(FreelancerModel { user, skills }))
        },
        Collection::Tasks => {
            let id = text_at(document, "_id")?;
            let client_id = text_at(document, "client_id")?;
            let title = text_at(document, "title")?;
            let start_time = text_at(document, "start_time")?;
            let deadline = text_at(document, "deadline")?;
            let description = text_at(document, "description")?;
            let skills = texts_at(document, "skills")?;
            let bounty = read_number(document, "bounty", 0xffff)? as u16;
            let proposals_id = read_maybe_texts(document, "proposals_id")?;
            Some(
                Record::Task(
                    TaskModel {
                        id,
                        client_id,
                        title,
                        start_time,
                        deadline,
                        description,
                        skills,
                        bounty,
                        proposals_id,
                    },
                ),
            )
        },
        Collection::Proposals => {
            let id = text_at(document, "_id")?;
            let client_id = text_at(document, "client_id")?;
            let task_id = text_at(document, "task_id")?;
            let freelancer_id = text_at(document, "freelancer_id")?;
            let milestones_id = read_maybe_texts(document, "milestones_id")?;
            let proposal_price = read_number(document, "proposal_price", u64::MAX)?;
            let accepted = flag_at(document, "accepted")?;
            Some(
                Record::Proposal(
                    ProposalModel {
                        id,
                        client_id,
                        task_id,
                        freelancer_id,
                        milestones_id,
                        proposal_price,
                        accepted,
                    },
                ),
            )
        },
        Collection::Milestones => {
            let id = text_at(document, "_id")?;
            let proposal_id = text_at(document, "proposal_id")?;
            let description = text_at(document, "description")?;
            let deadline = text_at(document, "deadline")?;
            let price = read_number(document, "price", u64::MAX)?;
            let link = text_at(document, "link")?;
            let status = text_at(document, "status")?;
            Some(
                Record::Milestone(
                    MilestoneModel { id, proposal_id, description, deadline, price, link, status },
                ),
            )
        },
        Collection::Deals => {
            let id = text_at(document, "_id")?;
            let task_id = text_at(document, "task_id")?;
            let proposal_id = text_at(document, "proposal_id")?;
            let freelancer_id = text_at(document, "freelancer_id")?;
            let client_id = text_at(document, "client_id")?;
            let price = read_number(document, "price", u64::MAX)?;
            let status = text_at(document, "status")?;
            let address = text_at(document, "address")?;
            Some(
                Record::Deal(
                    DealModel {
                        id,
                        task_id,
                        proposal_id,
                        freelancer_id,
                        client_id,
                        price,
                        status,
                        address,
                    },
                ),
            )
        },
        Collection::Reviews => {
            let id = text_at(document, "_id")?;
            let freelancer_id = text_at(document, "freelancer_id")?;
            let client_id = text_at(document, "client_id")?;
            let deal_id = text_at(document, "deal_id")?;
            let review = text_at(document, "review")?;
            let stars = read_number(document, "stars", 0xffff)? as u16;
            Some(Record::Review(ReviewModel { id, freelancer_id, client_id, deal_id, review, stars }))
        },
    }
}

/// The task that is stored for a request under an identifier.
pub open spec fn stored_task(body: CreateTaskView, id: Seq<char>) -> TaskView {
    TaskView {
        id,
        client_id: body.client_id,
        title: body.title,
        start_time: body.start_time,
        deadline: body.deadline,
        description: body.description,
        skills: body.skills,
        bounty: body.bounty,
        proposals_id: body.proposals_id,
    }
}

/// The document of a new task reads back as the task that was sent.
pub proof fn lemma_task_reads_back(body: CreateTaskView, id: Seq<char>)
    ensures
        record_of_fields(Collection::Tasks, task_fields(body, id)) == Some(
            RecordView::Task(stored_task(body, id)),
        ),
{
    lemma_field_names();
}

/// The user that is stored for a request under an identifier, in a role.
pub open spec fn stored_user(
    body: CreateUserView,
    id: Seq<char>,
    description: Seq<char>,
    role: Seq<char>,
) -> UserView {
    UserView {
        id,
        role,
        user_name: body.user_name,
        description: Some(
            match body.description {
                Some(d) => d,
                None => description,
            },
        ),
        password: body.password,
    }
}

/// The document of a new client reads back as the client that was sent.
pub proof fn lemma_client_reads_back(
    body: CreateUserView,
    id: Seq<char>,
    description: Seq<char>,
    task_ids: Seq<Seq<char>>,
)
    ensures
        record_of_fields(Collection::Clients, client_fields(body, id, description, task_ids))
            == Some(
            RecordView::Client(
                ClientView {
                    user: stored_user(body, id, description, "client"@),
                    tasks_ids: Some(task_ids),
                },
            ),
        ),
{
    lemma_field_names();
}

/// The document of a new freelancer reads back as the freelancer that was
/// sent.
pub proof fn lemma_freelancer_reads_back(
    body: CreateUserView,
    id: Seq<char>,
    description: Seq<char>,
    skills: Seq<Seq<char>>,
)
    ensures
        record_of_fields(Collection::Freelancers, freelancer_fields(body, id, description, skills))
            == Some(
            RecordView::Freelancer(
                FreelancerView {
                    user: stored_user(body, id, description, "freelancer"@),
                    skills: Some(skills),
                },
            ),
        ),
{
    lemma_field_names();
}

/// The proposal that is stored for a request under an identifier: not
/// accepted, and without a price.
pub open spec fn stored_proposal(body: CreateProposalView, id: Seq<char>) -> ProposalView {
    ProposalView {
        id,
        client_id: body.client_id,
        task_id: body.task_id,
        freelancer_id: body.freelancer_id,
        milestones_id: None,
        proposal_price: 0,
        accepted: false,
    }
}

/// The document of a new proposal reads back as the proposal that was sent.
pub proof fn lemma_proposal_reads_back(body: CreateProposalView, id: Seq<char>)
    ensures
        record_of_fields(Collection::Proposals, proposal_fields(body, id)) == Some(
            RecordView::Proposal(stored_proposal(body, id)),
        ),
{
    lemma_field_names();
}

/// The document of a new deal reads back as the deal that was made.
pub proof fn lemma_deal_reads_back(deal: PartialDealView, id: Seq<char>)
    requires
        deal.price <= LARGEST_NUMBER,
    ensures
        record_of_fields(Collection::Deals, deal_fields(deal, id)) == Some(
            RecordView::Deal(deal_with_id(id, deal)),
        ),
{
    lemma_field_names();
}

/// The milestone that is stored for a request under an identifier: nothing
/// handed in yet.
pub open spec fn stored_milestone(body: CreateMilestoneView, id: Seq<char>) -> MilestoneView {
    MilestoneView {
        id,
        proposal_id: body.proposal_id,
        description: body.description,
        deadline: body.deadline,
        price: body.price,
        link: Seq::empty(),
        status: INITIALIZED@,
    }
}

/// The document of a new milestone reads back as the milestone that was
/// sent.
pub proof fn lemma_milestone_reads_back(body: CreateMilestoneView, id: Seq<char>)
    requires
        body.price <= LARGEST_NUMBER,
    ensures
        record_of_fields(Collection::Milestones, milestone_fields(body, id)) == Some(
            RecordView::Milestone(stored_milestone(body, id)),
        ),
{
    lemma_field_names();
}

/// The review that is stored for a request under an identifier: with five
/// stars at most.
pub open spec fn stored_review(body: CreateReviewView, id: Seq<char>) -> ReviewView {
    ReviewView {
        id,
        freelancer_id: body.freelancer_id,
        client_id: body.client_id,
        deal_id: body.deal_id,
        review: body.review,
        stars: stored_stars(body.stars),
    }
}

/// The document of a new review reads back as the review that was sent.
pub proof fn lemma_review_reads_back(body: CreateReviewView, id: Seq<char>)
    ensures
        record_of_fields(Collection::Reviews, review_fields(body, id)) == Some(
            RecordView::Review(stored_review(body, id)),
        ),
{
    lemma_field_names();
}

} // verus!
