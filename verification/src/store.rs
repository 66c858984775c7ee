//! What the service asks of the document store, and what the store answers.
//!
//! The service never talks to the store itself. It says which call comes
//! next, and is told the answer.

use crate::document::{
    fields_of, FieldValue, new_document, no_fields, put_flag, put_number, put_text, put_texts,
};
use crate::error::{ErrorView, MyError};
use crate::model::{
    ClientModel, ClientView, DealModel, DealView, FreelancerModel, FreelancerView, MilestoneModel,
    MilestoneView, ProposalModel, ProposalView, ReviewModel, ReviewView, TaskModel, TaskView,
};
use crate::text::{copy_texts, texts};
use crate::utils::SUBMITTED;
use mongodb::bson::Document;
use vstd::prelude::*;
use vstd::string::*;

verus! {

/// The collections of the store.
#[derive(Debug, Clone, Copy, PartialEq, Eq, Structural)]
pub enum Collection {
    Clients,
    Freelancers,
    Tasks,
    Proposals,
    Milestones,
    Deals,
    Reviews,
}

/// Which documents of a collection a call is about.
#[derive(Debug, PartialEq, Eq)]
pub enum Filter {
    /// Every document.
    All,
    /// The document with this identifier.
    Id(String),
    /// The users with this name.
    UserName(String),
    /// The tasks that ask for this skill, written exactly so.
    Skill(String),
    /// The milestones of this proposal.
    Proposal(String),
    /// The milestone with this identifier, if it belongs to this proposal.
    Milestone { proposal_id: String, milestone_id: String },
    /// The proposal with this identifier, if it has not been accepted yet.
    Pending(String),
}

/// What a [`Filter`] holds.
pub enum FilterView {
    All,
    Id(Seq<char>),
    UserName(Seq<char>),
    Skill(Seq<char>),
    Proposal(Seq<char>),
    Milestone { proposal_id: Seq<char>, milestone_id: Seq<char> },
    Pending(Seq<char>),
}

impl View for Filter {
    type V = FilterView;

    open spec fn view(&self) -> FilterView {
        match self {
            Filter::All => FilterView::All,
            Filter::Id(id) => FilterView::Id(id@),
            Filter::UserName(name) => FilterView::UserName(name@),
            Filter::Skill(skill) => FilterView::Skill(skill@),
            Filter::Proposal(id) => FilterView::Proposal(id@),
            Filter::Milestone { proposal_id, milestone_id } => FilterView::Milestone {
                proposal_id: proposal_id@,
                milestone_id: milestone_id@,
            },
            Filter::Pending(id) => FilterView::Pending(id@),
        }
    }
}

impl FilterView {
    /// The fields that a document must hold to pass the filter. A field that
    /// holds a list passes where the list holds the text asked for.
    pub open spec fn fields(self) -> Map<Seq<char>, FieldValue> {
        match self {
            FilterView::All => no_fields(),
            FilterView::Id(id) => no_fields().insert("_id"@, FieldValue::Text(id)),
            FilterView::UserName(name) => no_fields().insert("user_name"@, FieldValue::Text(name)),
            FilterView::Skill(skill) => no_fields().insert("skills"@, FieldValue::Text(skill)),
            FilterView::Proposal(id) => no_fields().insert("proposal_id"@, FieldValue::Text(id)),
            FilterView::Milestone { proposal_id, milestone_id } => no_fields().insert(
                "proposal_id"@,
                FieldValue::Text(proposal_id),
            ).insert("_id"@, FieldValue::Text(milestone_id)),
            FilterView::Pending(id) => no_fields().insert("_id"@, FieldValue::Text(id)).insert(
                "accepted"@,
                FieldValue::Flag(false),
            ),
        }
    }
}

impl Filter {
    /// The filter as the store takes it.
    pub fn document(&self) -> (document: Document)
        ensures
            fields_of(document) == self@.fields(),
    {
        let mut document = new_document();
        match self {
            Filter::All => {},
            Filter::Id(id) => put_text(&mut document, "_id", id.as_str()),
            Filter::UserName(name) => put_text(&mut document, "user_name", name.as_str()),
            Filter::Skill(skill) => put_text(&mut document, "skills", skill.as_str()),
            Filter::Proposal(id) => put_text(&mut document, "proposal_id", id.as_str()),
            Filter::Milestone { proposal_id, milestone_id } => {
                put_text(&mut document, "proposal_id", proposal_id.as_str());
                put_text(&mut document, "_id", milestone_id.as_str());
            },
            Filter::Pending(id) => {
                put_text(&mut document, "_id", id.as_str());
                put_flag(&mut document, "accepted", false);
            },
        }
        document
    }
}

impl Clone for Filter {
    fn clone(&self) -> (copy: Self)
        ensures
            copy@ == self@,
    {
        match self {
            Filter::All => Filter::All,
            Filter::Id(id) => Filter::Id(id.clone()),
            Filter::UserName(name) => Filter::UserName(name.clone()),
            Filter::Skill(skill) => Filter::Skill(skill.clone()),
            Filter::Proposal(id) => Filter::Proposal(id.clone()),
            Filter::Milestone { proposal_id, milestone_id } => Filter::Milestone {
                proposal_id: proposal_id.clone(),
                milestone_id: milestone_id.clone(),
            },
            Filter::Pending(id) => Filter::Pending(id.clone()),
        }
    }
}

/// What a call sets in the document that it finds.
#[derive(Debug, PartialEq, Eq)]
pub enum Update {
    /// Marks a proposal as accepted.
    Accept,
    /// Attaches milestones to a proposal, with the sum of their prices.
    Milestones { ids: Vec<String>, price: i64 },
    /// Attaches a settlement address to a deal.
    Address(String),
    /// Records where the deliverable of a milestone can be found. A link
    /// that is not empty also marks the milestone as submitted.
    Link(String),
    /// Records on a deal which milestone was delivered, and where.
    Delivery { milestone_id: String, link: String },
}

/// What an [`Update`] holds.
pub enum UpdateView {
    Accept,
    Milestones { ids: Seq<Seq<char>>, price: i64 },
    Address(Seq<char>),
    Link(Seq<char>),
    Delivery { milestone_id: Seq<char>, link: Seq<char> },
}

impl View for Update {
    type V = UpdateView;

    open spec fn view(&self) -> UpdateView {
        match self {
            Update::Accept => UpdateView::Accept,
            Update::Milestones { ids, price } => UpdateView::Milestones {
                ids: texts(ids@),
                price: *price,
            },
            Update::Address(address) => UpdateView::Address(address@),
            Update::Link(link) => UpdateView::Link(link@),
            Update::Delivery { milestone_id, link } => UpdateView::Delivery {
                milestone_id: milestone_id@,
                link: link@,
            },
        }
    }
}

impl UpdateView {
    /// The fields that the update sets.
    pub open spec fn fields(self) -> Map<Seq<char>, FieldValue> {
        match self {
            UpdateView::Accept => no_fields().insert("accepted"@, FieldValue::Flag(true)),
            UpdateView::Milestones { ids, price } => no_fields().insert(
                "milestones_id"@,
                FieldValue::Texts(ids),
            ).insert("proposal_price"@, FieldValue::Number(price)),
            UpdateView::Address(address) => no_fields().insert(
                "address"@,
                FieldValue::Text(address),
            ),
            UpdateView::Link(link) => if link.len() == 0 {
                no_fields().insert("link"@, FieldValue::Text(link))
            } else {
                no_fields().insert("link"@, FieldValue::Text(link)).insert(
                    "status"@,
                    FieldValue::Text(SUBMITTED@),
                )
            },
            UpdateView::Delivery { milestone_id, link } => no_fields().insert(
                "milestones"@,
                FieldValue::Text(milestone_id),
            ).insert("link"@, FieldValue::Text(link)),
        }
    }
}

impl Update {
    /// The fields to set, as the store takes them.
    pub fn document(&self) -> (document: Document)
        ensures
            fields_of(document) == self@.fields(),
    {
        let mut document = new_document();
        match self {
            Update::Accept => put_flag(&mut document, "accepted", true),
            Update::Milestones { ids, price } => {
                put_texts(&mut document, "milestones_id", ids);
                put_number(&mut document, "proposal_price", *price);
            },
            Update::Address(address) => put_text(&mut document, "address", address.as_str()),
            Update::Link(link) => {
                put_text(&mut document, "link", link.as_str());
                if link.as_str().unicode_len() != 0 {
                    put_text(&mut document, "status", SUBMITTED);
                }
            },
            Update::Delivery { milestone_id, link } => {
                put_text(&mut document, "milestones", milestone_id.as_str());
                put_text(&mut document, "link", link.as_str());
            },
        }
        document
    }
}

impl Clone for Update {
    fn clone(&self) -> (copy: Self)
        ensures
            copy@ == self@,
    {
        match self {
            Update::Accept => Update::Accept,
            Update::Milestones { ids, price } => Update::Milestones {
                ids: copy_texts(ids),
                price: *price,
            },
            Update::Address(address) => Update::Address(address.clone()),
            Update::Link(link) => Update::Link(link.clone()),
            Update::Delivery { milestone_id, link } => Update::Delivery {
                milestone_id: milestone_id.clone(),
                link: link.clone(),
            },
        }
    }
}

/// A call to the store.
#[derive(Debug, PartialEq)]
pub enum StoreRequest {
    /// How many documents does the collection hold?
    CountDocuments { collection: Collection },
    /// Set aside the next `many` numbers of the collection, in one step: the
    /// answer is how many were set aside before. No two calls are given the
    /// same numbers.
    Reserve { collection: Collection, many: u64 },
    /// See to it that no two documents of the collection agree on all of
    /// `keys`. Asking again changes nothing.
    CreateIndex { collection: Collection, keys: Vec<String> },
    /// Store the document.
    InsertOne { collection: Collection, document: Document },
    /// Store the documents, in their order.
    InsertMany { collection: Collection, documents: Vec<Document> },
    /// The first document that passes the filter.
    FindOne { collection: Collection, filter: Filter },
    /// Every document that passes the filter.
    Find { collection: Collection, filter: Filter },
    /// Change the first document that passes the filter, in one step, and
    /// give it back as it is after the change.
    FindOneAndUpdate { collection: Collection, filter: Filter, update: Update },
}

/// What a [`StoreRequest`] holds.
pub enum RequestView {
    CountDocuments { collection: Collection },
    Reserve { collection: Collection, many: u64 },
    CreateIndex { collection: Collection, keys: Seq<Seq<char>> },
    InsertOne { collection: Collection, fields: Map<Seq<char>, FieldValue> },
    InsertMany { collection: Collection, batch: Seq<Map<Seq<char>, FieldValue>> },
    FindOne { collection: Collection, filter: FilterView },
    Find { collection: Collection, filter: FilterView },
    FindOneAndUpdate { collection: Collection, filter: FilterView, update: UpdateView },
}

/// The fields of each document of a batch.
pub open spec fn batch_fields(documents: Seq<Document>) -> Seq<Map<Seq<char>, FieldValue>> {
    Seq::new(documents.len(), |i: int| fields_of(documents[i]))
}

impl View for StoreRequest {
    type V = RequestView;

    open spec fn view(&self) -> RequestView {
        match self {
            StoreRequest::CountDocuments { collection } => RequestView::CountDocuments {
                collection: *collection,
            },
            StoreRequest::Reserve { collection, many } => RequestView::Reserve {
                collection: *collection,
                many: *many,
            },
            StoreRequest::CreateIndex { collection, keys } => RequestView::CreateIndex {
                collection: *collection,
                keys: texts(keys@),
            },
            StoreRequest::InsertOne { collection, document } => RequestView::InsertOne {
                collection: *collection,
                fields: fields_of(*document),
            },
            StoreRequest::InsertMany { collection, documents } => RequestView::InsertMany {
                collection: *collection,
                batch: batch_fields(documents@),
            },
            StoreRequest::FindOne { collection, filter } => RequestView::FindOne {
                collection: *collection,
                filter: filter@,
            },
            StoreRequest::Find { collection, filter } => RequestView::Find {
                collection: *collection,
                filter: filter@,
            },
            StoreRequest::FindOneAndUpdate {
                collection,
                filter,
                update,
            } => RequestView::FindOneAndUpdate {
                collection: *collection,
                filter: filter@,
                update: update@,
            },
        }
    }
}

/// A document as the store gives it back.
#[derive(Debug, PartialEq, Eq)]
pub enum Record {
    Client(ClientModel),
    Freelancer(FreelancerModel),
    Task(TaskModel),
    Proposal(ProposalModel),
    Milestone(MilestoneModel),
    Deal(DealModel),
    Review(ReviewModel),
}

/// What a [`Record`] holds.
pub enum RecordView {
    Client(ClientView),
    Freelancer(FreelancerView),
    Task(TaskView),
    Proposal(ProposalView),
    Milestone(MilestoneView),
    Deal(DealView),
    Review(ReviewView),
}

impl View for Record {
    type V = RecordView;

    open spec fn view(&self) -> RecordView {
        match self {
            Record::Client(client) => RecordView::Client(client@),
            Record::Freelancer(freelancer) => RecordView::Freelancer(freelancer@),
            Record::Task(task) => RecordView::Task(task@),
            Record::Proposal(proposal) => RecordView::Proposal(proposal@),
            Record::Milestone(milestone) => RecordView::Milestone(milestone@),
            Record::Deal(deal) => RecordView::Deal(deal@),
            Record::Review(review) => RecordView::Review(review@),
        }
    }
}

impl Clone for Record {
    fn clone(&self) -> (copy: Self)
        ensures
            copy@ == self@,
    {
        match self {
            Record::Client(client) => Record::Client(client.clone()),
            Record::Freelancer(freelancer) => Record::Freelancer(freelancer.clone()),
            Record::Task(task) => Record::Task(task.clone()),
            Record::Proposal(proposal) => Record::Proposal(proposal.clone()),
            Record::Milestone(milestone) => Record::Milestone(milestone.clone()),
            Record::Deal(deal) => Record::Deal(deal.clone()),
            Record::Review(review) => Record::Review(review.clone()),
        }
    }
}

/// What each record of a list holds.
pub open spec fn record_views(records: Seq<Record>) -> Seq<RecordView> {
    Seq::new(records.len(), |i: int| records[i]@)
}

/// An answer of the store.
#[derive(Debug, PartialEq, Eq)]
pub enum StoreResponse {
    /// The number of documents.
    Count(u64),
    /// The index is there.
    IndexCreated,
    /// The document was stored; this is its identifier.
    Inserted(String),
    /// The documents were stored; these are their identifiers, in the order
    /// of the documents.
    InsertedMany(Vec<String>),
    /// The document that was found or changed, if there was one.
    One(Option<Record>),
    /// The documents that were found.
    Many(Vec<Record>),
    /// The call failed; this is what the store says of it.
    Failed(String),
}

/// What a [`StoreResponse`] holds.
pub enum AnswerView {
    Count(u64),
    IndexCreated,
    Inserted(Seq<char>),
    InsertedMany(Seq<Seq<char>>),
    One(Option<RecordView>),
    Many(Seq<RecordView>),
    Failed(Seq<char>),
}

impl View for StoreResponse {
    type V = AnswerView;

    open spec fn view(&self) -> AnswerView {
        match self {
            StoreResponse::Count(count) => AnswerView::Count(*count),
            StoreResponse::IndexCreated => AnswerView::IndexCreated,
            StoreResponse::Inserted(id) => AnswerView::Inserted(id@),
            StoreResponse::InsertedMany(ids) => AnswerView::InsertedMany(texts(ids@)),
            StoreResponse::One(record) => AnswerView::One(
                match record {
                    Some(r) => Some(r@),
                    None => None,
                },
            ),
            StoreResponse::Many(records) => AnswerView::Many(record_views(records@)),
            StoreResponse::Failed(detail) => AnswerView::Failed(detail@),
        }
    }
}

/// A list with the same records.
pub fn copy_records(records: &Vec<Record>) -> (copy: Vec<Record>)
    ensures
        record_views(copy@) == record_views(records@),
{
    let mut copy: Vec<Record> = Vec::new();
    let mut i: usize = 0;
    while i < records.len()
        invariant
            i <= records.len(),
            copy.len() == i,
            forall|j: int| 0 <= j < i ==> copy@[j]@ == records@[j]@,
        decreases records.len() - i,
    {
        copy.push(records[i].clone());
        i = i + 1;
    }
    assert(record_views(copy@) =~= record_views(records@));
    copy
}

impl Clone for StoreResponse {
    fn clone(&self) -> (copy: Self)
        ensures
            copy@ == self@,
    {
        match self {
            StoreResponse::Count(count) => StoreResponse::Count(*count),
            StoreResponse::IndexCreated => StoreResponse::IndexCreated,
            StoreResponse::Inserted(id) => StoreResponse::Inserted(id.clone()),
            StoreResponse::InsertedMany(ids) => StoreResponse::InsertedMany(copy_texts(ids)),
            StoreResponse::One(Some(record)) => StoreResponse::One(Some(record.clone())),
            StoreResponse::One(None) => StoreResponse::One(None),
            StoreResponse::Many(records) => StoreResponse::Many(copy_records(records)),
            StoreResponse::Failed(detail) => StoreResponse::Failed(detail.clone()),
        }
    }
}

/// What each answer of a list holds.
pub open spec fn answer_views(answers: Seq<StoreResponse>) -> Seq<AnswerView> {
    Seq::new(answers.len(), |i: int| answers[i]@)
}

/// What comes next in an operation: a call to the store, or the end.
#[derive(Debug, PartialEq)]
pub enum Step<T> {
    /// Make this call, and come back with the answer added to the others.
    Call(StoreRequest),
    /// The operation is over, with this result.
    Done(Result<T, MyError>),
}

/// What a [`Step`] holds.
pub enum StepView<V> {
    Call(RequestView),
    Done(Result<V, ErrorView>),
}

impl<T: View> View for Step<T> {
    type V = StepView<T::V>;

    open spec fn view(&self) -> StepView<T::V> {
        match self {
            Step::Call(request) => StepView::Call(request@),
            Step::Done(Ok(value)) => StepView::Done(Ok(value@)),
            Step::Done(Err(error)) => StepView::Done(Err(error@)),
        }
    }
}

} // verus!
