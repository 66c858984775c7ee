//! A document store in memory, as the service takes its store to be: one
//! call at a time, each done in one step; identifiers unique within a
//! collection; unique indexes kept from the moment they are asked for.
//!
//! It holds the documents in the form in which the service reads them, and
//! only documents that can be read so: a write that would leave a document
//! that cannot be read is refused.

use crate::document::{fields_of, FieldValue};
use crate::error::MyError;
use crate::handler::{
    AppState, AppView, AskView, Body, BodyView, failure, Payload, Reply, ReplyView, Request, serve,
    serve_spec, Served, ServedView,
};
use crate::model::{DealView, MilestoneView, ProposalView, UserModel, UserView};
use crate::reading::{read_record, record_of_fields};
use crate::steps::{DUPLICATE_KEY, unexpected};
use crate::store::{
    answer_views, AnswerView, batch_fields, Collection, Filter, FilterView, Record, record_views,
    RecordView, RequestView, StoreRequest, StoreResponse, Update, UpdateView,
};
use crate::text::{constant_time_eq, copy_texts, same_texts, texts};
use crate::utils::SUBMITTED;
use crate::web::mw_auth::maybe_str;
use mongodb::bson::Document;
use vstd::prelude::*;
use vstd::string::*;

verus! {

/// The text that a stored user holds under `key`.
pub open spec fn user_text(user: UserView, key: Seq<char>) -> Option<Seq<char>> {
    if key == "_id"@ {
        Some(user.id)
    } else if key == "role"@ {
        Some(user.role)
    } else if key == "user_name"@ {
        Some(user.user_name)
    } else if key == "description"@ {
        user.description
    } else if key == "password"@ {
        Some(user.password)
    } else {
        None
    }
}

/// The text that a stored user holds under `key`.
fn text_of_user<'a>(user: &'a UserModel, key: &str) -> (text: Option<&'a String>)
    ensures
        match user_text(user@, key@) {
            Some(expected) => text is Some && text->0@ == expected,
            None => text is None,
        },
{
    if constant_time_eq(key, "_id") {
        Some(&user.id)
    } else if constant_time_eq(key, "role") {
        Some(&user.role)
    } else if constant_time_eq(key, "user_name") {
        Some(&user.user_name)
    } else if constant_time_eq(key, "description") {
        match &user.description {
            Some(description) => Some(description),
            None => None,
        }
    } else if constant_time_eq(key, "password") {
        Some(&user.password)
    } else {
        None
    }
}

impl RecordView {
    /// The collection that holds records of this kind.
    pub open spec fn collection(self) -> Collection {
        match self {
            RecordView::Client(_) => Collection::Clients,
            RecordView::Freelancer(_) => Collection::Freelancers,
            RecordView::Task(_) => Collection::Tasks,
            RecordView::Proposal(_) => Collection::Proposals,
            RecordView::Milestone(_) => Collection::Milestones,
            RecordView::Deal(_) => Collection::Deals,
            RecordView::Review(_) => Collection::Reviews,
        }
    }

    /// The identifier of the record.
    pub open spec fn id(self) -> Seq<char> {
        match self {
            RecordView::Client(client) => client.user.id,
            RecordView::Freelancer(freelancer) => freelancer.user.id,
            RecordView::Task(task) => task.id,
            RecordView::Proposal(proposal) => proposal.id,
            RecordView::Milestone(milestone) => milestone.id,
            RecordView::Deal(deal) => deal.id,
            RecordView::Review(review) => review.id,
        }
    }

    /// The text that the document of the record holds under `key`; none
    /// where it holds no such field, or one that is no text.
    pub open spec fn text(self, key: Seq<char>) -> Option<Seq<char>> {
        match self {
            RecordView::Client(client) => user_text(client.user, key),
            RecordView::Freelancer(freelancer) => user_text(freelancer.user, key),
            RecordView::Task(task) => if key == "_id"@ {
                Some(task.id)
            } else if key == "client_id"@ {
                Some(task.client_id)
            } else if key == "title"@ {
                Some(task.title)
            } else if key == "start_time"@ {
                Some(task.start_time)
            } else if key == "deadline"@ {
                Some(task.deadline)
            } else if key == "description"@ {
                Some(task.description)
            } else {
                None
            },
            RecordView::Proposal(proposal) => if key == "_id"@ {
                Some(proposal.id)
            } else if key == "client_id"@ {
                Some(proposal.client_id)
            } else if key == "task_id"@ {
                Some(proposal.task_id)
            } else if key == "freelancer_id"@ {
                Some(proposal.freelancer_id)
            } else {
                None
            },
            RecordView::Milestone(milestone) => if key == "_id"@ {
                Some(milestone.id)
            } else if key == "proposal_id"@ {
                Some(milestone.proposal_id)
            } else if key == "description"@ {
                Some(milestone.description)
            } else if key == "deadline"@ {
                Some(milestone.deadline)
            } else if key == "link"@ {
                Some(milestone.link)
            } else if key == "status"@ {
                Some(milestone.status)
            } else {
                None
            },
            RecordView::Deal(deal) => if key == "_id"@ {
                Some(deal.id)
            } else if key == "task_id"@ {
                Some(deal.task_id)
            } else if key == "proposal_id"@ {
                Some(deal.proposal_id)
            } else if key == "freelancer_id"@ {
                Some(deal.freelancer_id)
            } else if key == "client_id"@ {
                Some(deal.client_id)
            } else if key == "status"@ {
                Some(deal.status)
            } else if key == "address"@ {
                Some(deal.address)
            } else {
                None
            },
            RecordView::Review(review) => if key == "_id"@ {
                Some(review.id)
            } else if key == "freelancer_id"@ {
                Some(review.freelancer_id)
            } else if key == "client_id"@ {
                Some(review.client_id)
            } else if key == "deal_id"@ {
                Some(review.deal_id)
            } else if key == "review"@ {
                Some(review.review)
            } else {
                None
            },
        }
    }

    /// The skills that the document of the record lists; none where it has
    /// no such list.
    pub open spec fn skills(self) -> Option<Seq<Seq<char>>> {
        match self {
            RecordView::Freelancer(freelancer) => freelancer.skills,
            RecordView::Task(task) => Some(task.skills),
            _ => None,
        }
    }

    /// Whether the record passes the filter: for every field that the filter
    /// names, the document of the record holds the value asked for, or a
    /// list that holds it.
    pub open spec fn passes(self, filter: FilterView) -> bool {
        match filter {
            FilterView::All => true,
            FilterView::Id(id) => self.id() == id,
            FilterView::UserName(name) => self.text("user_name"@) == Some(name),
            FilterView::Skill(skill) => self.skills() is Some && self.skills()->0.contains(skill),
            FilterView::Proposal(id) => self.text("proposal_id"@) == Some(id),
            FilterView::Milestone { proposal_id, milestone_id } => self.text("proposal_id"@)
                == Some(proposal_id) && self.id() == milestone_id,
            FilterView::Pending(id) => self.id() == id && (self matches RecordView::Proposal(
                proposal,
            ) && !proposal.accepted),
        }
    }

    /// The record as the update leaves it: each field that the update names
    /// and that records of this kind have is set, the others are as they
    /// were. None where the record could not be read afterwards.
    pub open spec fn changed(self, update: UpdateView) -> Option<RecordView> {
        match (update, self) {
            (UpdateView::Accept, RecordView::Proposal(proposal)) => Some(
                RecordView::Proposal(ProposalView { accepted: true, ..proposal }),
            ),
            (UpdateView::Milestones { ids, price }, RecordView::Proposal(proposal)) => if price
                < 0 {
                None
            } else {
                Some(
                    RecordView::Proposal(
                        ProposalView {
                            milestones_id: Some(ids),
                            proposal_price: price as u64,
                            ..proposal
                        },
                    ),
                )
            },
            (UpdateView::Address(address), RecordView::Deal(deal)) => Some(
                RecordView::Deal(DealView { address, ..deal }),
            ),
            (UpdateView::Link(link), RecordView::Milestone(milestone)) => Some(
                RecordView::Milestone(
                    MilestoneView {
                        link,
                        status: if link.len() == 0 {
                            milestone.status
                        } else {
                            SUBMITTED@
                        },
                        ..milestone
                    },
                ),
            ),
            (UpdateView::Link(link), RecordView::Deal(deal)) => Some(
                RecordView::Deal(
                    DealView {
                        status: if link.len() == 0 {
                            deal.status
                        } else {
                            SUBMITTED@
                        },
                        ..deal
                    },
                ),
            ),
            (UpdateView::Delivery { milestone_id, link }, RecordView::Milestone(milestone)) => Some(
                RecordView::Milestone(MilestoneView { link, ..milestone }),
            ),
            _ => Some(self),
        }
    }
}

/// Whether the list holds the text.
fn holds(list: &Vec<String>, text: &str) -> (found: bool)
    ensures
        found == texts(list@).contains(text@),
{
    let mut i: usize = 0;
    while i < list.len()
        invariant
            i <= list.len(),
            forall|j: int| 0 <= j < i ==> texts(list@)[j] != text@,
        decreases list.len() - i,
    {
        if constant_time_eq(list[i].as_str(), text) {
            assert(texts(list@)[i as int] == text@);
            return true;
        }
        i = i + 1;
    }
    false
}

/// Whether there is a text, and it is the given one.
fn is_text(text: Option<&String>, wanted: &String) -> (same: bool)
    ensures
        same == (text is Some && text->0@ == wanted@),
{
    match text {
        Some(t) => constant_time_eq(t.as_str(), wanted.as_str()),
        None => false,
    }
}

impl Record {
    /// The collection that holds records of this kind.
    pub fn collection(&self) -> (collection: Collection)
        ensures
            collection == self@.collection(),
    {
        match self {
            Record::Client(_) => Collection::Clients,
            Record::Freelancer(_) => Collection::Freelancers,
            Record::Task(_) => Collection::Tasks,
            Record::Proposal(_) => Collection::Proposals,
            Record::Milestone(_) => Collection::Milestones,
            Record::Deal(_) => Collection::Deals,
            Record::Review(_) => Collection::Reviews,
        }
    }

    /// The identifier of the record.
    pub fn id(&self) -> (id: &String)
        ensures
            id@ == self@.id(),
    {
        match self {
            Record::Client(client) => &client.user.id,
            Record::Freelancer(freelancer) => &freelancer.user.id,
            Record::Task(task) => &task.id,
            Record::Proposal(proposal) => &proposal.id,
            Record::Milestone(milestone) => &milestone.id,
            Record::Deal(deal) => &deal.id,
            Record::Review(review) => &review.id,
        }
    }

    /// The text that the document of the record holds under `key`.
    pub fn text(&self, key: &str) -> (text: Option<&String>)
        ensures
            match self@.text(key@) {
                Some(expected) => text is Some && text->0@ == expected,
                None => text is None,
            },
    {
        match self {
            Record::Client(client) => text_of_user(&client.user, key),
            Record::Freelancer(freelancer) => text_of_user(&freelancer.user, key),
            Record::Task(task) => if constant_time_eq(key, "_id") {
                Some(&task.id)
            } else if constant_time_eq(key, "client_id") {
                Some(&task.client_id)
            } else if constant_time_eq(key, "title") {
                Some(&task.title)
            } else if constant_time_eq(key, "start_time") {
                Some(&task.start_time)
            } else if constant_time_eq(key, "deadline") {
                Some(&task.deadline)
            } else if constant_time_eq(key, "description") {
                Some(&task.description)
            } else {
                None
            },
            Record::Proposal(proposal) => if constant_time_eq(key, "_id") {
                Some(&proposal.id)
            } else if constant_time_eq(key, "client_id") {
                Some(&proposal.client_id)
            } else if constant_time_eq(key, "task_id") {
                Some(&proposal.task_id)
            } else if constant_time_eq(key, "freelancer_id") {
                Some(&proposal.freelancer_id)
            } else {
                None
            },
            Record::Milestone(milestone) => if constant_time_eq(key, "_id") {
                Some(&milestone.id)
            } else if constant_time_eq(key, "proposal_id") {
                Some(&milestone.proposal_id)
            } else if constant_time_eq(key, "description") {
                Some(&milestone.description)
            } else if constant_time_eq(key, "deadline") {
                Some(&milestone.deadline)
            } else if constant_time_eq(key, "link") {
                Some(&milestone.link)
            } else if constant_time_eq(key, "status") {
                Some(&milestone.status)
            } else {
                None
            },
            Record::Deal(deal) => if constant_time_eq(key, "_id") {
                Some(&deal.id)
            } else if constant_time_eq(key, "task_id") {
                Some(&deal.task_id)
            } else if constant_time_eq(key, "proposal_id") {
                Some(&deal.proposal_id)
            } else if constant_time_eq(key, "freelancer_id") {
                Some(&deal.freelancer_id)
            } else if constant_time_eq(key, "client_id") {
                Some(&deal.client_id)
            } else if constant_time_eq(key, "status") {
                Some(&deal.status)
            } else if constant_time_eq(key, "address") {
                Some(&deal.address)
            } else {
                None
            },
            Record::Review(review) => if constant_time_eq(key, "_id") {
                Some(&review.id)
            } else if constant_time_eq(key, "freelancer_id") {
                Some(&review.freelancer_id)
            } else if constant_time_eq(key, "client_id") {
                Some(&review.client_id)
            } else if constant_time_eq(key, "deal_id") {
                Some(&review.deal_id)
            } else if constant_time_eq(key, "review") {
                Some(&review.review)
            } else {
                None
            },
        }
    }

    /// Whether the record passes the filter.
    pub fn passes(&self, filter: &Filter) -> (passes: bool)
        ensures
            passes == self@.passes(filter@),
    {
        match filter {
            Filter::All => true,
            Filter::Id(id) => constant_time_eq(self.id().as_str(), id.as_str()),
            Filter::UserName(name) => is_text(self.text("user_name"), name),
            Filter::Skill(skill) => match self {
                Record::Freelancer(freelancer) => match &freelancer.skills {
                    Some(skills) => holds(skills, skill.as_str()),
                    None => false,
                },
                Record::Task(task) => holds(&task.skills, skill.as_str()),
                _ => false,
            },
            Filter::Proposal(id) => is_text(self.text("proposal_id"), id),
            Filter::Milestone { proposal_id, milestone_id } => is_text(
                self.text("proposal_id"),
                proposal_id,
            ) && constant_time_eq(self.id().as_str(), milestone_id.as_str()),
            Filter::Pending(id) => match self {
                Record::Proposal(proposal) => constant_time_eq(proposal.id.as_str(), id.as_str())
                    && !proposal.accepted,
                _ => false,
            },
        }
    }

    /// The record as the update leaves it; none where the record could not
    /// be read afterwards.
    pub fn changed(&self, update: &Update) -> (changed: Option<Record>)
        ensures
            match self@.changed(update@) {
                Some(expected) => changed is Some && changed->0@ == expected,
                None => changed is None,
            },
    {
        match (update, self) {
            (Update::Accept, Record::Proposal(proposal)) => {
                let mut accepted = proposal.clone();
                accepted.accepted = true;
                Some(Record::Proposal(accepted))
            },
            (Update::Milestones { ids, price }, Record::Proposal(proposal)) => {
                if *price < 0 {
                    return None;
                }
                let mut funded = proposal.clone();
                funded.milestones_id = Some(copy_texts(ids));
                funded.proposal_price = *price as u64;
                Some(Record::Proposal(funded))
            },
            (Update::Address(address), Record::Deal(deal)) => {
                let mut settled = deal.clone();
                settled.address = address.clone();
                Some(Record::Deal(settled))
            },
            (Update::Link(link), Record::Milestone(milestone)) => {
                let mut delivered = milestone.clone();
                delivered.link = link.clone();
                if link.as_str().unicode_len() != 0 {
                    delivered.status = String::from_str(SUBMITTED);
                }
                Some(Record::Milestone(delivered))
            },
            (Update::Link(link), Record::Deal(deal)) => {
                let mut marked = deal.clone();
                if link.as_str().unicode_len() != 0 {
                    marked.status = String::from_str(SUBMITTED);
                }
                Some(Record::Deal(marked))
            },
            (Update::Delivery { milestone_id, link }, Record::Milestone(milestone)) => {
                let mut delivered = milestone.clone();
                delivered.link = link.clone();
                Some(Record::Milestone(delivered))
            },
            _ => Some(self.clone()),
        }
    }
}

/// A rule that no two documents of a collection agree on all of `keys`.
#[derive(Debug, PartialEq, Eq)]
pub struct Index {
    pub collection: Collection,
    pub keys: Vec<String>,
}

/// What an [`Index`] holds.
pub struct IndexView {
    pub collection: Collection,
    pub keys: Seq<Seq<char>>,
}

impl View for Index {
    type V = IndexView;

    open spec fn view(&self) -> IndexView {
        IndexView { collection: self.collection, keys: texts(self.keys@) }
    }
}

/// What each index of a list holds.
pub open spec fn index_views(indexes: Seq<Index>) -> Seq<IndexView> {
    Seq::new(indexes.len(), |i: int| indexes[i]@)
}

/// How many numbers have been set aside for the documents of each
/// collection.
#[derive(Debug, PartialEq, Eq, Clone, Copy)]
pub struct Counters {
    pub clients: u64,
    pub freelancers: u64,
    pub tasks: u64,
    pub proposals: u64,
    pub milestones: u64,
    pub deals: u64,
    pub reviews: u64,
}

impl Counters {
    /// None set aside.
    pub open spec fn none() -> Counters {
        Counters {
            clients: 0,
            freelancers: 0,
            tasks: 0,
            proposals: 0,
            milestones: 0,
            deals: 0,
            reviews: 0,
        }
    }

    /// How many have been set aside for the collection.
    pub open spec fn of(self, collection: Collection) -> u64 {
        match collection {
            Collection::Clients => self.clients,
            Collection::Freelancers => self.freelancers,
            Collection::Tasks => self.tasks,
            Collection::Proposals => self.proposals,
            Collection::Milestones => self.milestones,
            Collection::Deals => self.deals,
            Collection::Reviews => self.reviews,
        }
    }

    /// The same, with `count` set aside for the collection.
    pub open spec fn put(self, collection: Collection, count: u64) -> Counters {
        match collection {
            Collection::Clients => Counters { clients: count, ..self },
            Collection::Freelancers => Counters { freelancers: count, ..self },
            Collection::Tasks => Counters { tasks: count, ..self },
            Collection::Proposals => Counters { proposals: count, ..self },
            Collection::Milestones => Counters { milestones: count, ..self },
            Collection::Deals => Counters { deals: count, ..self },
            Collection::Reviews => Counters { reviews: count, ..self },
        }
    }

    /// None set aside.
    pub fn new() -> (counters: Counters)
        ensures
            counters == Counters::none(),
    {
        Counters {
            clients: 0,
            freelancers: 0,
            tasks: 0,
            proposals: 0,
            milestones: 0,
            deals: 0,
            reviews: 0,
        }
    }

    /// How many have been set aside for the collection.
    pub fn get(&self, collection: Collection) -> (count: u64)
        ensures
            count == self.of(collection),
    {
        match collection {
            Collection::Clients => self.clients,
            Collection::Freelancers => self.freelancers,
            Collection::Tasks => self.tasks,
            Collection::Proposals => self.proposals,
            Collection::Milestones => self.milestones,
            Collection::Deals => self.deals,
            Collection::Reviews => self.reviews,
        }
    }

    /// Sets `count` aside for the collection.
    pub fn set(&mut self, collection: Collection, count: u64)
        ensures
            *final(self) == old(self).put(collection, count),
    {
        match collection {
            Collection::Clients => self.clients = count,
            Collection::Freelancers => self.freelancers = count,
            Collection::Tasks => self.tasks = count,
            Collection::Proposals => self.proposals = count,
            Collection::Milestones => self.milestones = count,
            Collection::Deals => self.deals = count,
            Collection::Reviews => self.reviews = count,
        }
    }
}

/// The store: the documents of each collection in the order in which they
/// were stored, the unique indexes, and the numbers set aside for the
/// documents of each collection.
#[derive(Debug, PartialEq, Eq)]
pub struct MemoryStore {
    pub clients: Vec<Record>,
    pub freelancers: Vec<Record>,
    pub tasks: Vec<Record>,
    pub proposals: Vec<Record>,
    pub milestones: Vec<Record>,
    pub deals: Vec<Record>,
    pub reviews: Vec<Record>,
    pub indexes: Vec<Index>,
    pub reserved: Counters,
}

/// What a [`MemoryStore`] holds.
pub struct StoreView {
    pub clients: Seq<RecordView>,
    pub freelancers: Seq<RecordView>,
    pub tasks: Seq<RecordView>,
    pub proposals: Seq<RecordView>,
    pub milestones: Seq<RecordView>,
    pub deals: Seq<RecordView>,
    pub reviews: Seq<RecordView>,
    pub indexes: Seq<IndexView>,
    pub reserved: Counters,
}

impl View for MemoryStore {
    type V = StoreView;

    open spec fn view(&self) -> StoreView {
        StoreView {
            clients: record_views(self.clients@),
            freelancers: record_views(self.freelancers@),
            tasks: record_views(self.tasks@),
            proposals: record_views(self.proposals@),
            milestones: record_views(self.milestones@),
            deals: record_views(self.deals@),
            reviews: record_views(self.reviews@),
            indexes: index_views(self.indexes@),
            reserved: self.reserved,
        }
    }
}

impl StoreView {
    /// The documents of a collection.
    pub open spec fn records(self, collection: Collection) -> Seq<RecordView> {
        match collection {
            Collection::Clients => self.clients,
            Collection::Freelancers => self.freelancers,
            Collection::Tasks => self.tasks,
            Collection::Proposals => self.proposals,
            Collection::Milestones => self.milestones,
            Collection::Deals => self.deals,
            Collection::Reviews => self.reviews,
        }
    }

    /// The store with other documents in one collection.
    pub open spec fn with_records(self, collection: Collection, records: Seq<RecordView>) -> StoreView {
        match collection {
            Collection::Clients => StoreView { clients: records, ..self },
            Collection::Freelancers => StoreView { freelancers: records, ..self },
            Collection::Tasks => StoreView { tasks: records, ..self },
            Collection::Proposals => StoreView { proposals: records, ..self },
            Collection::Milestones => StoreView { milestones: records, ..self },
            Collection::Deals => StoreView { deals: records, ..self },
            Collection::Reviews => StoreView { reviews: records, ..self },
        }
    }

    /// A store that holds nothing.
    pub open spec fn empty() -> StoreView {
        StoreView {
            clients: Seq::empty(),
            freelancers: Seq::empty(),
            tasks: Seq::empty(),
            proposals: Seq::empty(),
            milestones: Seq::empty(),
            deals: Seq::empty(),
            reviews: Seq::empty(),
            indexes: Seq::empty(),
            reserved: Counters::none(),
        }
    }
}

/// Whether two records agree on every field of `keys`. A field that a record
/// does not have counts as a value of its own.
pub open spec fn agree(a: RecordView, b: RecordView, keys: Seq<Seq<char>>) -> bool {
    forall|k: int| 0 <= k < keys.len() ==> a.text(#[trigger] keys[k]) == b.text(keys[k])
}

/// Whether some index of the collection forbids the two records side by
/// side.
pub open spec fn forbidden(
    a: RecordView,
    b: RecordView,
    collection: Collection,
    indexes: Seq<IndexView>,
) -> bool {
    exists|n: int|
        0 <= n < indexes.len() && (#[trigger] indexes[n]).collection == collection && agree(
            a,
            b,
            indexes[n].keys,
        )
}

/// Whether the two records cannot stand side by side in the collection:
/// they have the same identifier, or an index forbids it.
pub open spec fn clash(
    a: RecordView,
    b: RecordView,
    collection: Collection,
    indexes: Seq<IndexView>,
) -> bool {
    a.id() == b.id() || forbidden(a, b, collection, indexes)
}

/// Whether the record cannot stand beside one of `records`, the one at
/// `except` left aside.
pub open spec fn clashes(
    records: Seq<RecordView>,
    candidate: RecordView,
    except: int,
    collection: Collection,
    indexes: Seq<IndexView>,
) -> bool {
    exists|j: int|
        0 <= j < records.len() && j != except && clash(
            #[trigger] records[j],
            candidate,
            collection,
            indexes,
        )
}

/// Whether two records agree on every field of `keys`.
fn records_agree(a: &Record, b: &Record, keys: &Vec<String>) -> (same: bool)
    ensures
        same == agree(a@, b@, texts(keys@)),
{
    let mut k: usize = 0;
    while k < keys.len()
        invariant
            k <= keys.len(),
            forall|j: int| 0 <= j < k ==> a@.text(#[trigger] texts(keys@)[j]) == b@.text(
                texts(keys@)[j],
            ),
        decreases keys.len() - k,
    {
        let left = a.text(keys[k].as_str());
        let right = b.text(keys[k].as_str());
        let same = match (left, right) {
            (Some(l), Some(r)) => constant_time_eq(l.as_str(), r.as_str()),
            (None, None) => true,
            _ => false,
        };
        if !same {
            assert(a@.text(texts(keys@)[k as int]) != b@.text(texts(keys@)[k as int]));
            return false;
        }
        k = k + 1;
    }
    true
}

/// Whether the two records cannot stand side by side in the collection.
fn records_clash(a: &Record, b: &Record, collection: Collection, indexes: &Vec<Index>) -> (clashing:
    bool)
    ensures
        clashing == clash(a@, b@, collection, index_views(indexes@)),
{
    if constant_time_eq(a.id().as_str(), b.id().as_str()) {
        return true;
    }
    let mut n: usize = 0;
    while n < indexes.len()
        invariant
            n <= indexes.len(),
            forall|j: int|
                0 <= j < n ==> !((#[trigger] index_views(indexes@)[j]).collection == collection
                    && agree(a@, b@, index_views(indexes@)[j].keys)),
        decreases indexes.len() - n,
    {
        if indexes[n].collection == collection && records_agree(a, b, &indexes[n].keys) {
            assert(index_views(indexes@)[n as int].collection == collection);
            return true;
        }
        n = n + 1;
    }
    false
}

/// Whether `candidate` cannot stand beside one of `records`, the one at
/// `except` left aside; `except` past the end leaves none aside.
fn find_clash(
    records: &Vec<Record>,
    candidate: &Record,
    except: usize,
    collection: Collection,
    indexes: &Vec<Index>,
) -> (clashing: bool)
    ensures
        clashing == clashes(
            record_views(records@),
            candidate@,
            except as int,
            collection,
            index_views(indexes@),
        ),
{
    let mut j: usize = 0;
    while j < records.len()
        invariant
            j <= records.len(),
            forall|i: int|
                0 <= i < j && i != except ==> !clash(
                    #[trigger] record_views(records@)[i],
                    candidate@,
                    collection,
                    index_views(indexes@),
                ),
        decreases records.len() - j,
    {
        if j != except && records_clash(&records[j], candidate, collection, indexes) {
            assert(clash(
                record_views(records@)[j as int],
                candidate@,
                collection,
                index_views(indexes@),
            ));
            return true;
        }
        j = j + 1;
    }
    false
}

/// What the store says of a document that it cannot read as a record of the
/// collection.
pub const UNREADABLE: &'static str = "the document cannot be read as one of this collection";

/// What the store says of an empty batch.
pub const NO_DOCUMENTS: &'static str = "No documents provided to insert_many";

/// What the store says of an index without keys.
pub const NO_KEYS: &'static str = "Index keys cannot be empty";

/// What the store says where it has no numbers left to set aside.
pub const NO_NUMBERS: &'static str = "the counter cannot be raised";

/// The position of the first record from `from` on that passes the filter.
pub open spec fn first_passing(records: Seq<RecordView>, filter: FilterView, from: int) -> Option<
    int,
>
    decreases records.len() - from,
{
    if from < 0 || from >= records.len() {
        None
    } else if records[from].passes(filter) {
        Some(from)
    } else {
        first_passing(records, filter, from + 1)
    }
}

/// The records that pass the filter, in their order.
pub open spec fn passing(records: Seq<RecordView>, filter: FilterView) -> Seq<RecordView>
    decreases records.len(),
{
    if records.len() == 0 {
        Seq::empty()
    } else if records.last().passes(filter) {
        passing(records.drop_last(), filter).push(records.last())
    } else {
        passing(records.drop_last(), filter)
    }
}

/// Whether the store has an index on `keys` for the collection.
pub open spec fn has_index(store: StoreView, collection: Collection, keys: Seq<Seq<char>>) -> bool {
    exists|n: int|
        0 <= n < store.indexes.len() && #[trigger] store.indexes[n] == (IndexView {
            collection,
            keys,
        })
}

/// Whether two of the records agree on every field of `keys`.
pub open spec fn some_agree(records: Seq<RecordView>, keys: Seq<Seq<char>>) -> bool {
    exists|i: int, j: int|
        0 <= i < j < records.len() && agree(#[trigger] records[i], #[trigger] records[j], keys)
}

impl StoreView {
    /// Storing one document: it must read as a record of the collection, and
    /// the record must not clash with one that is there.
    pub open spec fn insert(self, collection: Collection, fields: Map<Seq<char>, FieldValue>) -> (
        StoreView,
        AnswerView,
    ) {
        match record_of_fields(collection, fields) {
            None => (self, AnswerView::Failed(UNREADABLE@)),
            Some(record) => if clashes(
                self.records(collection),
                record,
                -1,
                collection,
                self.indexes,
            ) {
                (self, AnswerView::Failed(DUPLICATE_KEY@))
            } else {
                (
                    self.with_records(collection, self.records(collection).push(record)),
                    AnswerView::Inserted(record.id()),
                )
            },
        }
    }

    /// Storing the first `done` documents of a batch, one after the other,
    /// up to the first that is refused: the store afterwards, and the
    /// identifiers stored, or what the store says of the one refused.
    pub open spec fn insert_all(
        self,
        collection: Collection,
        batch: Seq<Map<Seq<char>, FieldValue>>,
        done: int,
    ) -> (StoreView, Result<Seq<Seq<char>>, Seq<char>>)
        decreases done,
    {
        if done <= 0 {
            (self, Ok(Seq::empty()))
        } else {
            let (before, ids) = self.insert_all(collection, batch, done - 1);
            match ids {
                Err(detail) => (before, Err(detail)),
                Ok(ids) => match before.insert(collection, batch[done - 1]) {
                    (after, AnswerView::Inserted(id)) => (after, Ok(ids.push(id))),
                    (after, AnswerView::Failed(detail)) => (after, Err(detail)),
                    (after, _) => (after, Err(UNREADABLE@)),
                },
            }
        }
    }

    /// What a call does to the store, and how the store answers it.
    pub open spec fn perform(self, request: RequestView) -> (StoreView, AnswerView) {
        match request {
            RequestView::CountDocuments { collection } => (
                self,
                AnswerView::Count(self.records(collection).len() as u64),
            ),
            RequestView::Reserve { collection, many } => if self.reserved.of(collection) + many
                > u64::MAX {
                (self, AnswerView::Failed(NO_NUMBERS@))
            } else {
                (
                    StoreView {
                        reserved: self.reserved.put(
                            collection,
                            (self.reserved.of(collection) + many) as u64,
                        ),
                        ..self
                    },
                    AnswerView::Count(self.reserved.of(collection)),
                )
            },
            RequestView::CreateIndex { collection, keys } => if keys.len() == 0 {
                (self, AnswerView::Failed(NO_KEYS@))
            } else if has_index(self, collection, keys) {
                (self, AnswerView::IndexCreated)
            } else if some_agree(self.records(collection), keys) {
                (self, AnswerView::Failed(DUPLICATE_KEY@))
            } else {
                (
                    StoreView {
                        indexes: self.indexes.push(IndexView { collection, keys }),
                        ..self
                    },
                    AnswerView::IndexCreated,
                )
            },
            RequestView::InsertOne { collection, fields } => self.insert(collection, fields),
            RequestView::InsertMany { collection, batch } => if batch.len() == 0 {
                (self, AnswerView::Failed(NO_DOCUMENTS@))
            } else {
                match self.insert_all(collection, batch, batch.len() as int) {
                    (after, Ok(ids)) => (after, AnswerView::InsertedMany(ids)),
                    (after, Err(detail)) => (after, AnswerView::Failed(detail)),
                }
            },
            RequestView::FindOne { collection, filter } => (
                self,
                AnswerView::One(
                    match first_passing(self.records(collection), filter, 0) {
                        Some(at) => Some(self.records(collection)[at]),
                        None => None,
                    },
                ),
            ),
            RequestView::Find { collection, filter } => (
                self,
                AnswerView::Many(passing(self.records(collection), filter)),
            ),
            RequestView::FindOneAndUpdate { collection, filter, update } => match first_passing(
                self.records(collection),
                filter,
                0,
            ) {
                None => (self, AnswerView::One(None)),
                Some(at) => match self.records(collection)[at].changed(update) {
                    None => (self, AnswerView::Failed(UNREADABLE@)),
                    Some(changed) => if clashes(
                        self.records(collection),
                        changed,
                        at,
                        collection,
                        self.indexes,
                    ) {
                        (self, AnswerView::Failed(DUPLICATE_KEY@))
                    } else {
                        (
                            self.with_records(
                                collection,
                                self.records(collection).update(at, changed),
                            ),
                            AnswerView::One(Some(changed)),
                        )
                    },
                },
            },
        }
    }
}

/// The position of the first record that passes the filter.
fn find_first(records: &Vec<Record>, filter: &Filter) -> (at: Option<usize>)
    ensures
        match at {
            Some(i) => i < records.len() && first_passing(record_views(records@), filter@, 0)
                == Some(i as int),
            None => first_passing(record_views(records@), filter@, 0) is None,
        },
{
    let mut i: usize = 0;
    while i < records.len()
        invariant
            i <= records.len(),
            first_passing(record_views(records@), filter@, 0) == first_passing(
                record_views(records@),
                filter@,
                i as int,
            ),
        decreases records.len() - i,
    {
        if records[i].passes(filter) {
            return Some(i);
        }
        i = i + 1;
    }
    None
}

/// Copies of the records that pass the filter.
fn find_all(records: &Vec<Record>, filter: &Filter) -> (found: Vec<Record>)
    ensures
        record_views(found@) == passing(record_views(records@), filter@),
{
    let mut found: Vec<Record> = Vec::new();
    let mut i: usize = 0;
    let ghost all = record_views(records@);
    proof {
        assert(all.take(0) =~= Seq::empty());
        assert(record_views(found@) =~= Seq::empty());
    }
    while i < records.len()
        invariant
            i <= records.len(),
            all == record_views(records@),
            record_views(found@) == passing(all.take(i as int), filter@),
        decreases records.len() - i,
    {
        proof {
            assert(all.take(i + 1).drop_last() =~= all.take(i as int));
            assert(all.take(i + 1).last() == records@[i as int]@);
        }
        if records[i].passes(filter) {
            let copy = records[i].clone();
            proof {
                assert(record_views(found@.push(copy)) =~= record_views(found@).push(copy@));
            }
            found.push(copy);
        }
        i = i + 1;
    }
    proof {
        assert(all.take(records.len() as int) =~= all);
    }
    found
}

/// Whether the record at `at` agrees with an earlier one on every field of
/// `keys`.
fn agrees_with_earlier(records: &Vec<Record>, at: usize, keys: &Vec<String>) -> (found: bool)
    requires
        at < records.len(),
    ensures
        found == exists|i: int|
            0 <= i < at && agree(
                #[trigger] record_views(records@)[i],
                record_views(records@)[at as int],
                texts(keys@),
            ),
{
    let mut i: usize = 0;
    while i < at
        invariant
            i <= at < records.len(),
            forall|j: int|
                0 <= j < i ==> !agree(
                    #[trigger] record_views(records@)[j],
                    record_views(records@)[at as int],
                    texts(keys@),
                ),
        decreases at - i,
    {
        if records_agree(&records[i], &records[at], keys) {
            assert(agree(
                record_views(records@)[i as int],
                record_views(records@)[at as int],
                texts(keys@),
            ));
            return true;
        }
        i = i + 1;
    }
    false
}

/// Whether two of the records agree on every field of `keys`.
fn find_agreeing(records: &Vec<Record>, keys: &Vec<String>) -> (found: bool)
    ensures
        found == some_agree(record_views(records@), texts(keys@)),
{
    let mut j: usize = 0;
    while j < records.len()
        invariant
            j <= records.len(),
            forall|a: int, b: int|
                0 <= a < b < j ==> !agree(
                    #[trigger] record_views(records@)[a],
                    #[trigger] record_views(records@)[b],
                    texts(keys@),
                ),
        decreases records.len() - j,
    {
        if agrees_with_earlier(records, j, keys) {
            return true;
        }
        j = j + 1;
    }
    false
}

/// Whether there is an index on `keys` for the collection.
fn find_index(indexes: &Vec<Index>, collection: Collection, keys: &Vec<String>) -> (found: bool)
    ensures
        found == exists|n: int|
            0 <= n < indexes.len() && #[trigger] index_views(indexes@)[n] == (IndexView {
                collection,
                keys: texts(keys@),
            }),
{
    let mut n: usize = 0;
    while n < indexes.len()
        invariant
            n <= indexes.len(),
            forall|j: int|
                0 <= j < n ==> #[trigger] index_views(indexes@)[j] != (IndexView {
                    collection,
                    keys: texts(keys@),
                }),
        decreases indexes.len() - n,
    {
        if indexes[n].collection == collection && same_texts(&indexes[n].keys, keys) {
            assert(index_views(indexes@)[n as int] == (IndexView {
                collection,
                keys: texts(keys@),
            }));
            return true;
        }
        proof {
            lemma_another_index(index_views(indexes@)[n as int], collection, texts(keys@));
        }
        n = n + 1;
    }
    false
}

/// An index for another collection, or on other keys, is another index.
proof fn lemma_another_index(index: IndexView, collection: Collection, keys: Seq<Seq<char>>)
    requires
        !(index.collection == collection && index.keys == keys),
    ensures
        index != (IndexView { collection, keys }),
{
}

impl MemoryStore {
    /// A store that holds nothing.
    pub fn new() -> (store: MemoryStore)
        ensures
            store@ == StoreView::empty(),
    {
        let store = MemoryStore {
            clients: Vec::new(),
            freelancers: Vec::new(),
            tasks: Vec::new(),
            proposals: Vec::new(),
            milestones: Vec::new(),
            deals: Vec::new(),
            reviews: Vec::new(),
            indexes: Vec::new(),
            reserved: Counters::new(),
        };
        assert(store@.clients =~= Seq::empty());
        assert(store@.freelancers =~= Seq::empty());
        assert(store@.tasks =~= Seq::empty());
        assert(store@.proposals =~= Seq::empty());
        assert(store@.milestones =~= Seq::empty());
        assert(store@.deals =~= Seq::empty());
        assert(store@.reviews =~= Seq::empty());
        assert(store@.indexes =~= Seq::empty());
        store
    }

    /// The documents of a collection.
    pub fn records(&self, collection: Collection) -> (records: &Vec<Record>)
        ensures
            record_views(records@) == self@.records(collection),
    {
        match collection {
            Collection::Clients => &self.clients,
            Collection::Freelancers => &self.freelancers,
            Collection::Tasks => &self.tasks,
            Collection::Proposals => &self.proposals,
            Collection::Milestones => &self.milestones,
            Collection::Deals => &self.deals,
            Collection::Reviews => &self.reviews,
        }
    }

    /// Takes the documents of a collection out of the store, which holds
    /// none in this collection until they are put back.
    fn take(&mut self, collection: Collection) -> (records: Vec<Record>)
        ensures
            record_views(records@) == old(self)@.records(collection),
            final(self)@ == old(self)@.with_records(collection, Seq::empty()),
    {
        let mut records: Vec<Record> = Vec::new();
        assert(record_views(records@) =~= Seq::empty());
        match collection {
            Collection::Clients => std::mem::swap(&mut self.clients, &mut records),
            Collection::Freelancers => std::mem::swap(&mut self.freelancers, &mut records),
            Collection::Tasks => std::mem::swap(&mut self.tasks, &mut records),
            Collection::Proposals => std::mem::swap(&mut self.proposals, &mut records),
            Collection::Milestones => std::mem::swap(&mut self.milestones, &mut records),
            Collection::Deals => std::mem::swap(&mut self.deals, &mut records),
            Collection::Reviews => std::mem::swap(&mut self.reviews, &mut records),
        }
        records
    }

    /// Puts documents into a collection, in place of those that are there.
    fn put(&mut self, collection: Collection, records: Vec<Record>)
        ensures
            final(self)@ == old(self)@.with_records(collection, record_views(records@)),
    {
        match collection {
            Collection::Clients => {
                self.clients = records;
            },
            Collection::Freelancers => {
                self.freelancers = records;
            },
            Collection::Tasks => {
                self.tasks = records;
            },
            Collection::Proposals => {
                self.proposals = records;
            },
            Collection::Milestones => {
                self.milestones = records;
            },
            Collection::Deals => {
                self.deals = records;
            },
            Collection::Reviews => {
                self.reviews = records;
            },
        }
    }

    /// Stores one document.
    fn insert_one(&mut self, collection: Collection, document: &Document) -> (answer:
        StoreResponse)
        ensures
            (final(self)@, answer@) == old(self)@.insert(collection, fields_of(*document)),
    {
        let record = match read_record(collection, document) {
            Some(record) => record,
            None => {
                return StoreResponse::Failed(String::from_str(UNREADABLE));
            },
        };
        let present = self.records(collection);
        let clashing = find_clash(present, &record, usize::MAX, collection, &self.indexes);
        proof {
            let records = self@.records(collection);
            assert(records.len() == present.len());
            assert(clashing == clashes(records, record@, -1, collection, self@.indexes));
        }
        if clashing {
            return StoreResponse::Failed(String::from_str(DUPLICATE_KEY));
        }
        let id = record.id().clone();
        let mut records = self.take(collection);
        proof {
            assert(record_views(records@.push(record)) =~= record_views(records@).push(record@));
        }
        records.push(record);
        self.put(collection, records);
        proof {
            let before = old(self)@;
            let pushed = before.records(collection).push(record@);
            assert(final(self)@ == before.with_records(collection, pushed));
        }
        StoreResponse::Inserted(id)
    }

    /// Stores the documents of a batch one after the other, up to the first
    /// that is refused.
    fn insert_many(&mut self, collection: Collection, documents: &Vec<Document>) -> (answer:
        StoreResponse)
        ensures
            (final(self)@, answer@) == old(self)@.perform(
                RequestView::InsertMany { collection, batch: batch_fields(documents@) },
            ),
    {
        if documents.len() == 0 {
            return StoreResponse::Failed(String::from_str(NO_DOCUMENTS));
        }
        let ghost batch = batch_fields(documents@);
        let mut ids: Vec<String> = Vec::new();
        let mut i: usize = 0;
        proof {
            assert(texts(ids@) =~= Seq::empty());
        }
        while i < documents.len()
            invariant
                i <= documents.len(),
                batch == batch_fields(documents@),
                (self@, Ok::<Seq<Seq<char>>, Seq<char>>(texts(ids@))) == old(self)@.insert_all(
                    collection,
                    batch,
                    i as int,
                ),
            decreases documents.len() - i,
        {
            proof {
                assert(batch[i as int] == fields_of(documents@[i as int]));
            }
            match self.insert_one(collection, &documents[i]) {
                StoreResponse::Inserted(id) => {
                    proof {
                        assert(texts(ids@.push(id)) =~= texts(ids@).push(id@));
                    }
                    ids.push(id);
                },
                StoreResponse::Failed(detail) => {
                    proof {
                        lemma_insert_all_stops(old(self)@, collection, batch, i + 1);
                    }
                    return StoreResponse::Failed(detail);
                },
                _ => {
                    proof {
                        lemma_insert_all_stops(old(self)@, collection, batch, i + 1);
                    }
                    return StoreResponse::Failed(String::from_str(UNREADABLE));
                },
            }
            i = i + 1;
        }
        StoreResponse::InsertedMany(ids)
    }

    /// Sees to it that no two documents of the collection agree on all of
    /// `keys`, from now on.
    fn create_index(&mut self, collection: Collection, keys: &Vec<String>) -> (answer:
        StoreResponse)
        ensures
            (final(self)@, answer@) == old(self)@.perform(
                RequestView::CreateIndex { collection, keys: texts(keys@) },
            ),
    {
        if keys.len() == 0 {
            return StoreResponse::Failed(String::from_str(NO_KEYS));
        }
        if find_index(&self.indexes, collection, keys) {
            return StoreResponse::IndexCreated;
        }
        if find_agreeing(self.records(collection), keys) {
            return StoreResponse::Failed(String::from_str(DUPLICATE_KEY));
        }
        let index = Index { collection, keys: copy_texts(keys) };
        proof {
            assert(index_views(self.indexes@.push(index)) =~= index_views(self.indexes@).push(
                index@,
            ));
        }
        self.indexes.push(index);
        StoreResponse::IndexCreated
    }

    /// Changes the first document that passes the filter, and gives it back
    /// as it is after the change.
    fn find_one_and_update(&mut self, collection: Collection, filter: &Filter, update: &Update) -> (answer:
        StoreResponse)
        ensures
            (final(self)@, answer@) == old(self)@.perform(
                RequestView::FindOneAndUpdate { collection, filter: filter@, update: update@ },
            ),
    {
        let present = self.records(collection);
        let at = match find_first(present, filter) {
            Some(at) => at,
            None => {
                return StoreResponse::One(None);
            },
        };
        let changed = match present[at].changed(update) {
            Some(changed) => changed,
            None => {
                return StoreResponse::Failed(String::from_str(UNREADABLE));
            },
        };
        if find_clash(present, &changed, at, collection, &self.indexes) {
            return StoreResponse::Failed(String::from_str(DUPLICATE_KEY));
        }
        let shown = changed.clone();
        let mut records = self.take(collection);
        proof {
            assert(record_views(records@.update(at as int, changed)) =~= record_views(
                records@,
            ).update(at as int, changed@));
        }
        records.set(at, changed);
        self.put(collection, records);
        proof {
            let before = old(self)@;
            let updated = before.records(collection).update(at as int, changed@);
            assert(final(self)@ == before.with_records(collection, updated));
        }
        StoreResponse::One(Some(shown))
    }

    /// Makes a call, and answers it.
    pub fn perform(&mut self, request: &StoreRequest) -> (answer: StoreResponse)
        ensures
            (final(self)@, answer@) == old(self)@.perform(request@),
    {
        match request {
            StoreRequest::CountDocuments { collection } => {
                let present = self.records(*collection);
                assert(record_views(present@).len() == present.len());
                StoreResponse::Count(present.len() as u64)
            },
            StoreRequest::Reserve { collection, many } => {
                let before = self.reserved.get(*collection);
                if *many > u64::MAX - before {
                    StoreResponse::Failed(String::from_str(NO_NUMBERS))
                } else {
                    self.reserved.set(*collection, before + *many);
                    StoreResponse::Count(before)
                }
            },
            StoreRequest::CreateIndex { collection, keys } => self.create_index(*collection, keys),
            StoreRequest::InsertOne { collection, document } => self.insert_one(
                *collection,
                document,
            ),
            StoreRequest::InsertMany { collection, documents } => self.insert_many(
                *collection,
                documents,
            ),
            StoreRequest::FindOne { collection, filter } => {
                let present = self.records(*collection);
                match find_first(present, filter) {
                    Some(at) => StoreResponse::One(Some(present[at].clone())),
                    None => StoreResponse::One(None),
                }
            },
            StoreRequest::Find { collection, filter } => StoreResponse::Many(
                find_all(self.records(*collection), filter),
            ),
            StoreRequest::FindOneAndUpdate { collection, filter, update } => {
                self.find_one_and_update(*collection, filter, update)
            },
        }
    }
}

/// The most calls that the store makes for one request before it gives up.
pub const MOST_CALLS: usize = 8;

/// What the service does next, as a function of the answers of the store so
/// far.
pub type Script = spec_fn(Seq<AnswerView>) -> ServedView<BodyView>;

/// Running a script against the store, from the answers received so far on:
/// each call that the script asks for is made, and its answer is added to the
/// others, until the script ends. Where it has not ended after `calls` more
/// calls, the request fails.
pub open spec fn run_from(store: StoreView, script: Script, answers: Seq<AnswerView>, calls: nat) -> (
    StoreView,
    ReplyView<BodyView>,
)
    decreases calls,
{
    match script(answers) {
        ServedView::Done(reply) => (store, reply),
        ServedView::Call(request) => if calls == 0 {
            (store, failure(unexpected()))
        } else {
            let (after, answer) = store.perform(request);
            run_from(after, script, answers.push(answer), (calls - 1) as nat)
        },
    }
}

/// What the service does with a request, as a function of the answers of
/// the store so far.
pub open spec fn script_of(state: AppView, ask: AskView, cookie: Option<Seq<char>>, now: u64) -> Script {
    |answers: Seq<AnswerView>| serve_spec(state, ask, cookie, answers, now)
}

/// Serving a request against the store: the store afterwards, and the
/// answer to the request.
pub open spec fn run_spec(
    store: StoreView,
    state: AppView,
    ask: AskView,
    cookie: Option<Seq<char>>,
    now: u64,
) -> (StoreView, ReplyView<BodyView>) {
    run_from(store, script_of(state, ask, cookie, now), Seq::empty(), MOST_CALLS as nat)
}

impl MemoryStore {
    /// Serves a request against this store. `cookie` is the value of the
    /// session cookie, where the request carries one; `now` is the time in
    /// seconds since 1970.
    pub fn run(
        &mut self,
        app_state: &AppState,
        request: &Request,
        cookie: Option<&str>,
        now: u64,
    ) -> (reply: Reply<Body>)
        ensures
            (final(self)@, reply@) == run_spec(
                old(self)@,
                app_state@,
                request@,
                maybe_str(cookie),
                now,
            ),
    {
        let mut answers: Vec<StoreResponse> = Vec::new();
        let mut calls: usize = MOST_CALLS;
        proof {
            assert(answer_views(answers@) =~= Seq::empty());
        }
        loop
            invariant
                calls <= MOST_CALLS,
                run_spec(old(self)@, app_state@, request@, maybe_str(cookie), now) == run_from(
                    self@,
                    script_of(app_state@, request@, maybe_str(cookie), now),
                    answer_views(answers@),
                    calls as nat,
                ),
            decreases calls,
        {
            let call = match serve(app_state, request, cookie, &answers, now) {
                Served::Done(reply) => {
                    return reply;
                },
                Served::Call(call) => call,
            };
            if calls == 0 {
                let (status, fault) = failed().into_response();
                return Reply { status, cookie: None, payload: Payload::Fault(fault) };
            }
            let answer = self.perform(&call);
            proof {
                assert(answer_views(answers@.push(answer)) =~= answer_views(answers@).push(
                    answer@,
                ));
            }
            answers.push(answer);
            calls = calls - 1;
        }
    }
}

/// The error of a request that the service has not answered after the most
/// calls.
fn failed() -> (error: MyError)
    ensures
        error@ == unexpected(),
{
    MyError::MongoError(String::from_str(crate::steps::UNEXPECTED_ANSWER))
}

/// Once a document of the batch has been refused, the rest is not stored.
pub proof fn lemma_insert_all_stops(
    store: StoreView,
    collection: Collection,
    batch: Seq<Map<Seq<char>, FieldValue>>,
    upto: int,
)
    requires
        0 <= upto <= batch.len(),
        store.insert_all(collection, batch, upto).1 is Err,
    ensures
        store.insert_all(collection, batch, batch.len() as int) == store.insert_all(
            collection,
            batch,
            upto,
        ),
    decreases batch.len() - upto,
{
    if upto < batch.len() {
        lemma_insert_all_stops(store, collection, batch, upto + 1);
    }
}

} // verus!
