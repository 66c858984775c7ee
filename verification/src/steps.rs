//! The steps that the operations are made of: counting, storing and reading
//! back, changing, listing; and how a call that fails ends an operation.

use crate::document::FieldValue;
use crate::error::{ErrorView, MyError};
use crate::model::{DealView, MilestoneView, ReviewView};
use crate::response::{
    ClientResponse, ClientResponseView, DealResponse, FreelancerResponse, FreelancerResponseView,
    ListView, MilestoneResponse, ProposalResponse, ProposalResponseView, SingleView, success,
    success_list, TaskResponse, TaskResponseView,
};
use crate::store::{
    answer_views, AnswerView, Collection, Filter, FilterView, Record, record_views, RecordView,
    RequestView, Step, StepView, StoreRequest, StoreResponse, UpdateView,
};
use crate::text::{contains, decimal, decimal_spec, occurs_in, texts};
use crate::utils::{
    doc_to_client_response, doc_to_deal_response, doc_to_freelancer_response,
    doc_to_milestone_response, doc_to_proposal_response, doc_to_task_response, no_description,
    shown_client, shown_freelancer, shown_proposal, shown_task,
};
use mongodb::bson::Document;
use vstd::prelude::*;
use vstd::string::*;

verus! {

/// The words by which the store says that a write would repeat a unique key.
pub const DUPLICATE_KEY: &'static str = "E11000 duplicate key error collection";

/// What is reported when the store gives an answer of another kind than was
/// asked for.
pub const UNEXPECTED_ANSWER: &'static str = "unexpected answer from the store";

/// The error for an answer that is no answer to the call.
pub open spec fn unexpected() -> ErrorView {
    ErrorView::MongoError(UNEXPECTED_ANSWER@)
}

/// The error that ends an operation whose read was not answered as awaited.
pub open spec fn query_failure(answer: AnswerView) -> ErrorView {
    match answer {
        AnswerView::Failed(detail) => ErrorView::MongoQueryError(detail),
        _ => unexpected(),
    }
}

/// The error that ends an operation whose write was not answered as awaited:
/// a repeated key where the store says so, a failed query otherwise.
pub open spec fn write_failure(answer: AnswerView) -> ErrorView {
    match answer {
        AnswerView::Failed(detail) => if occurs_in(detail, DUPLICATE_KEY@) {
            ErrorView::MongoDuplicateError(detail)
        } else {
            ErrorView::MongoQueryError(detail)
        },
        _ => unexpected(),
    }
}

/// The error for an answer that is no answer to the call.
pub(crate) fn unexpected_answer() -> (error: MyError)
    ensures
        error@ == unexpected(),
{
    MyError::MongoError(String::from_str(UNEXPECTED_ANSWER))
}

/// The error that ends an operation whose read was not answered as awaited.
pub(crate) fn failed_query(answer: &StoreResponse) -> (error: MyError)
    ensures
        error@ == query_failure(answer@),
{
    match answer {
        StoreResponse::Failed(detail) => MyError::MongoQueryError(detail.clone()),
        _ => unexpected_answer(),
    }
}

/// The error that ends an operation whose write was not answered as
/// awaited.
pub(crate) fn failed_write(answer: &StoreResponse) -> (error: MyError)
    ensures
        error@ == write_failure(answer@),
{
    match answer {
        StoreResponse::Failed(detail) => if contains(detail.as_str(), DUPLICATE_KEY) {
            MyError::MongoDuplicateError(detail.clone())
        } else {
            MyError::MongoQueryError(detail.clone())
        },
        _ => unexpected_answer(),
    }
}

/// The identifier of the next document of a collection for which `count`
/// numbers have been set aside: `count + 1`, written in decimal. There is
/// none past the largest `u64`.
///
/// The count is not that of the documents: it is what the store answers to
/// [`RequestView::Reserve`], which sets numbers aside in one step, so that
/// no two requests are given the same number, however they are served. Should
/// a document of the identifier be there all the same, the store refuses the
/// new one, and the request ends with [`ErrorView::MongoDuplicateError`]:
/// nothing is overwritten.
pub open spec fn next_id_spec(count: u64) -> Result<Seq<char>, ErrorView> {
    if count < u64::MAX {
        Ok(decimal_spec((count + 1) as nat))
    } else {
        Err(ErrorView::InvalidIDError(decimal_spec(count as nat)))
    }
}

/// The identifier of the next document of a collection for which `count`
/// numbers have been set aside.
pub fn next_id(count: u64) -> (id: Result<String, MyError>)
    ensures
        match next_id_spec(count) {
            Ok(expected) => id is Ok && id->Ok_0@ == expected,
            Err(error) => id is Err && id->Err_0@ == error,
        },
{
    if count < u64::MAX {
        Ok(decimal(count + 1))
    } else {
        Err(MyError::InvalidIDError(decimal(count)))
    }
}

/// Setting aside the next `many` numbers of `collection`, where the answer
/// to this call is the one at `from`: how many were set aside before.
pub open spec fn reserve_spec(
    collection: Collection,
    many: u64,
    answers: Seq<AnswerView>,
    from: int,
) -> StepView<u64> {
    if answers.len() <= from {
        StepView::Call(RequestView::Reserve { collection, many })
    } else {
        match answers[from] {
            AnswerView::Count(count) => StepView::Done(Ok(count)),
            other => StepView::Done(Err(query_failure(other))),
        }
    }
}

/// Sets aside the next `many` numbers of `collection`, where the answer to
/// this call is the one at `from`.
pub(crate) fn reserve(
    collection: Collection,
    many: u64,
    answers: &Vec<StoreResponse>,
    from: usize,
) -> (step: Step<u64>)
    ensures
        step@ == reserve_spec(collection, many, answer_views(answers@), from as int),
{
    if answers.len() <= from {
        return Step::Call(StoreRequest::Reserve { collection, many });
    }
    match &answers[from] {
        StoreResponse::Count(count) => Step::Done(Ok(*count)),
        other => Step::Done(Err(failed_query(other))),
    }
}

/// Storing a document and reading it back, from the answer at `from` on:
/// first the unique index on `keys`, where there are any; then the insert;
/// then a search for the identifier that the insert gave.
pub open spec fn insert_and_read_spec(
    collection: Collection,
    keys: Option<Seq<Seq<char>>>,
    fields: Map<Seq<char>, FieldValue>,
    answers: Seq<AnswerView>,
    from: int,
) -> StepView<RecordView> {
    let inserted = if keys is Some {
        from + 1
    } else {
        from
    };
    if keys is Some && answers.len() <= from {
        StepView::Call(RequestView::CreateIndex { collection, keys: keys->0 })
    } else if keys is Some && !(answers[from] is IndexCreated) {
        StepView::Done(Err(query_failure(answers[from])))
    } else if answers.len() <= inserted {
        StepView::Call(RequestView::InsertOne { collection, fields })
    } else {
        match answers[inserted] {
            AnswerView::Inserted(id) => if answers.len() <= inserted + 1 {
                StepView::Call(RequestView::FindOne { collection, filter: FilterView::Id(id) })
            } else {
                match answers[inserted + 1] {
                    AnswerView::One(Some(record)) => StepView::Done(Ok(record)),
                    AnswerView::One(None) => StepView::Done(Err(ErrorView::NotFoundError(id))),
                    other => StepView::Done(Err(query_failure(other))),
                }
            },
            other => StepView::Done(Err(write_failure(other))),
        }
    }
}

/// Stores a document and reads it back, from the answer at `from` on.
pub(crate) fn insert_and_read(
    collection: Collection,
    keys: Option<Vec<String>>,
    document: Document,
    answers: &Vec<StoreResponse>,
    from: usize,
) -> (step: Step<Record>)
    requires
        from <= 2,
    ensures
        step@ == insert_and_read_spec(
            collection,
            crate::text::maybe_texts(keys),
            crate::document::fields_of(document),
            answer_views(answers@),
            from as int,
        ),
{
    let mut at: usize = from;
    match keys {
        Some(keys) => {
            if answers.len() <= at {
                return Step::Call(StoreRequest::CreateIndex { collection, keys });
            }
            match &answers[at] {
                StoreResponse::IndexCreated => {},
                other => {
                    return Step::Done(Err(failed_query(other)));
                },
            }
            at = at + 1;
        },
        None => {},
    }
    if answers.len() <= at {
        return Step::Call(StoreRequest::InsertOne { collection, document });
    }
    let id = match &answers[at] {
        StoreResponse::Inserted(id) => id,
        other => {
            return Step::Done(Err(failed_write(other)));
        },
    };
    if answers.len() <= at + 1 {
        return Step::Call(StoreRequest::FindOne { collection, filter: Filter::Id(id.clone()) });
    }
    match &answers[at + 1] {
        StoreResponse::One(Some(record)) => Step::Done(Ok(record.clone())),
        StoreResponse::One(None) => Step::Done(Err(MyError::NotFoundError(id.clone()))),
        other => Step::Done(Err(failed_query(other))),
    }
}

/// A list that holds `key` and nothing else.
pub(crate) fn one_key(key: &str) -> (keys: Vec<String>)
    ensures
        texts(keys@) == seq![key@],
{
    let mut keys: Vec<String> = Vec::new();
    keys.push(String::from_str(key));
    assert(texts(keys@) =~= seq![key@]);
    keys
}

/// Shows each record in turn: the list of what is shown, or the error of the
/// first record that cannot be shown.
pub open spec fn shown_all<V>(
    records: Seq<RecordView>,
    show: spec_fn(RecordView) -> Result<V, ErrorView>,
) -> Result<Seq<V>, ErrorView>
    decreases records.len(),
{
    if records.len() == 0 {
        Ok(Seq::empty())
    } else {
        match shown_all(records.drop_last(), show) {
            Err(error) => Err(error),
            Ok(list) => match show(records.last()) {
                Ok(shown) => Ok(list.push(shown)),
                Err(error) => Err(error),
            },
        }
    }
}

/// Once showing has failed, more records do not mend it.
pub proof fn lemma_shown_all_fails<V>(
    records: Seq<RecordView>,
    show: spec_fn(RecordView) -> Result<V, ErrorView>,
    upto: int,
)
    requires
        0 <= upto <= records.len(),
        shown_all(records.take(upto), show) is Err,
    ensures
        shown_all(records, show) == shown_all(records.take(upto), show),
    decreases records.len() - upto,
{
    if upto == records.len() {
        assert(records.take(upto) =~= records);
    } else {
        assert(records.take(upto + 1).drop_last() =~= records.take(upto));
        lemma_shown_all_fails(records, show, upto + 1);
    }
}

/// Listing the documents of `collection` that pass `filter`, each shown by
/// `show`.
pub open spec fn list_spec<V>(
    collection: Collection,
    filter: FilterView,
    show: spec_fn(RecordView) -> Result<V, ErrorView>,
    answers: Seq<AnswerView>,
) -> StepView<ListView<V>> {
    if answers.len() == 0 {
        StepView::Call(RequestView::Find { collection, filter })
    } else {
        match answers[0] {
            AnswerView::Many(records) => match shown_all(records, show) {
                Ok(items) => StepView::Done(Ok(success_list(items))),
                Err(error) => StepView::Done(Err(error)),
            },
            other => StepView::Done(Err(query_failure(other))),
        }
    }
}

/// A record of the tasks as it is shown; a record of another collection is
/// no answer to a call on this one.
pub open spec fn show_task() -> spec_fn(RecordView) -> Result<TaskResponseView, ErrorView> {
    |record: RecordView|
        match record {
            RecordView::Task(task) => Ok(shown_task(task)),
            _ => Err(unexpected()),
        }
}

/// What each task of a list holds.
pub open spec fn task_views(list: Seq<TaskResponse>) -> Seq<TaskResponseView> {
    Seq::new(list.len(), |i: int| list[i]@)
}

/// Shows each record in turn, and stops at the first that cannot be shown.
pub(crate) fn show_tasks(records: &Vec<Record>) -> (shown: Result<Vec<TaskResponse>, MyError>)
    ensures
        match shown_all(record_views(records@), show_task()) {
            Ok(expected) => shown is Ok && task_views(shown->Ok_0@) == expected,
            Err(error) => shown is Err && shown->Err_0@ == error,
        },
{
    let mut list: Vec<TaskResponse> = Vec::new();
    let mut i: usize = 0;
    let ghost all = record_views(records@);
    proof {
        assert(all.take(0) =~= Seq::empty());
        assert(task_views(list@) =~= Seq::empty());
    }
    while i < records.len()
        invariant
            i <= records.len(),
            all == record_views(records@),
            shown_all(all.take(i as int), show_task()) is Ok,
            shown_all(all.take(i as int), show_task())->Ok_0 == task_views(list@),
        decreases records.len() - i,
    {
        proof {
            assert(all.take(i + 1).drop_last() =~= all.take(i as int));
            assert(all.take(i + 1).last() == records@[i as int]@);
        }
        let item = match &records[i] {
            Record::Task(task) => doc_to_task_response(task),
            _ => Err(unexpected_answer()),
        };
        match item {
            Ok(one) => {
                proof {
                    assert(task_views(list@.push(one)) =~= task_views(list@).push(one@));
                }
                list.push(one);
            },
            Err(error) => {
                proof {
                    lemma_shown_all_fails(all, show_task(), i + 1);
                }
                return Err(error);
            },
        }
        i = i + 1;
    }
    proof {
        assert(all.take(records.len() as int) =~= all);
    }
    Ok(list)
}

/// A record of the clients as it is shown. A record of another collection is
/// no answer to a call on this one, and a user without a description cannot
/// be shown.
pub open spec fn show_client() -> spec_fn(RecordView) -> Result<ClientResponseView, ErrorView> {
    |record: RecordView|
        match record {
            RecordView::Client(client) => match shown_client(client) {
                Some(shown) => Ok(shown),
                None => Err(no_description()),
            },
            _ => Err(unexpected()),
        }
}

/// What each client of a list holds.
pub open spec fn client_views(list: Seq<ClientResponse>) -> Seq<ClientResponseView> {
    Seq::new(list.len(), |i: int| list[i]@)
}

/// Shows each record in turn, and stops at the first that cannot be shown.
pub(crate) fn show_clients(records: &Vec<Record>) -> (shown: Result<Vec<ClientResponse>, MyError>)
    ensures
        match shown_all(record_views(records@), show_client()) {
            Ok(expected) => shown is Ok && client_views(shown->Ok_0@) == expected,
            Err(error) => shown is Err && shown->Err_0@ == error,
        },
{
    let mut list: Vec<ClientResponse> = Vec::new();
    let mut i: usize = 0;
    let ghost all = record_views(records@);
    proof {
        assert(all.take(0) =~= Seq::empty());
        assert(client_views(list@) =~= Seq::empty());
    }
    while i < records.len()
        invariant
            i <= records.len(),
            all == record_views(records@),
            shown_all(all.take(i as int), show_client()) is Ok,
            shown_all(all.take(i as int), show_client())->Ok_0 == client_views(list@),
        decreases records.len() - i,
    {
        proof {
            assert(all.take(i + 1).drop_last() =~= all.take(i as int));
            assert(all.take(i + 1).last() == records@[i as int]@);
        }
        let item = match &records[i] {
            Record::Client(client) => doc_to_client_response(client),
            _ => Err(unexpected_answer()),
        };
        match item {
            Ok(one) => {
                proof {
                    assert(client_views(list@.push(one)) =~= client_views(list@).push(one@));
                }
                list.push(one);
            },
            Err(error) => {
                proof {
                    lemma_shown_all_fails(all, show_client(), i + 1);
                }
                return Err(error);
            },
        }
        i = i + 1;
    }
    proof {
        assert(all.take(records.len() as int) =~= all);
    }
    Ok(list)
}

/// A record of the freelancers as it is shown. A record of another collection is
/// no answer to a call on this one, and a user without a description cannot
/// be shown.
pub open spec fn show_freelancer() -> spec_fn(RecordView) -> Result<FreelancerResponseView, ErrorView> {
    |record: RecordView|
        match record {
            RecordView::Freelancer(freelancer) => match shown_freelancer(freelancer) {
                Some(shown) => Ok(shown),
                None => Err(no_description()),
            },
            _ => Err(unexpected()),
        }
}

/// What each freelancer of a list holds.
pub open spec fn freelancer_views(list: Seq<FreelancerResponse>) -> Seq<FreelancerResponseView> {
    Seq::new(list.len(), |i: int| list[i]@)
}

/// Shows each record in turn, and stops at the first that cannot be shown.
pub(crate) fn show_freelancers(records: &Vec<Record>) -> (shown: Result<Vec<FreelancerResponse>, MyError>)
    ensures
        match shown_all(record_views(records@), show_freelancer()) {
            Ok(expected) => shown is Ok && freelancer_views(shown->Ok_0@) == expected,
            Err(error) => shown is Err && shown->Err_0@ == error,
        },
{
    let mut list: Vec<FreelancerResponse> = Vec::new();
    let mut i: usize = 0;
    let ghost all = record_views(records@);
    proof {
        assert(all.take(0) =~= Seq::empty());
        assert(freelancer_views(list@) =~= Seq::empty());
    }
    while i < records.len()
        invariant
            i <= records.len(),
            all == record_views(records@),
            shown_all(all.take(i as int), show_freelancer()) is Ok,
            shown_all(all.take(i as int), show_freelancer())->Ok_0 == freelancer_views(list@),
        decreases records.len() - i,
    {
        proof {
            assert(all.take(i + 1).drop_last() =~= all.take(i as int));
            assert(all.take(i + 1).last() == records@[i as int]@);
        }
        let item = match &records[i] {
            Record::Freelancer(freelancer) => doc_to_freelancer_response(freelancer),
            _ => Err(unexpected_answer()),
        };
        match item {
            Ok(one) => {
                proof {
                    assert(freelancer_views(list@.push(one)) =~= freelancer_views(list@).push(one@));
                }
                list.push(one);
            },
            Err(error) => {
                proof {
                    lemma_shown_all_fails(all, show_freelancer(), i + 1);
                }
                return Err(error);
            },
        }
        i = i + 1;
    }
    proof {
        assert(all.take(records.len() as int) =~= all);
    }
    Ok(list)
}

/// A record of the proposals as it is shown; a record of another collection is
/// no answer to a call on this one.
pub open spec fn show_proposal() -> spec_fn(RecordView) -> Result<ProposalResponseView, ErrorView> {
    |record: RecordView|
        match record {
            RecordView::Proposal(proposal) => Ok(shown_proposal(proposal)),
            _ => Err(unexpected()),
        }
}

/// What each proposal of a list holds.
pub open spec fn proposal_views(list: Seq<ProposalResponse>) -> Seq<ProposalResponseView> {
    Seq::new(list.len(), |i: int| list[i]@)
}

/// Shows each record in turn, and stops at the first that cannot be shown.
pub(crate) fn show_proposals(records: &Vec<Record>) -> (shown: Result<Vec<ProposalResponse>, MyError>)
    ensures
        match shown_all(record_views(records@), show_proposal()) {
            Ok(expected) => shown is Ok && proposal_views(shown->Ok_0@) == expected,
            Err(error) => shown is Err && shown->Err_0@ == error,
        },
{
    let mut list: Vec<ProposalResponse> = Vec::new();
    let mut i: usize = 0;
    let ghost all = record_views(records@);
    proof {
        assert(all.take(0) =~= Seq::empty());
        assert(proposal_views(list@) =~= Seq::empty());
    }
    while i < records.len()
        invariant
            i <= records.len(),
            all == record_views(records@),
            shown_all(all.take(i as int), show_proposal()) is Ok,
            shown_all(all.take(i as int), show_proposal())->Ok_0 == proposal_views(list@),
        decreases records.len() - i,
    {
        proof {
            assert(all.take(i + 1).drop_last() =~= all.take(i as int));
            assert(all.take(i + 1).last() == records@[i as int]@);
        }
        let item = match &records[i] {
            Record::Proposal(proposal) => doc_to_proposal_response(proposal),
            _ => Err(unexpected_answer()),
        };
        match item {
            Ok(one) => {
                proof {
                    assert(proposal_views(list@.push(one)) =~= proposal_views(list@).push(one@));
                }
                list.push(one);
            },
            Err(error) => {
                proof {
                    lemma_shown_all_fails(all, show_proposal(), i + 1);
                }
                return Err(error);
            },
        }
        i = i + 1;
    }
    proof {
        assert(all.take(records.len() as int) =~= all);
    }
    Ok(list)
}

/// A record of the milestones as it is shown; a record of another collection is
/// no answer to a call on this one.
pub open spec fn show_milestone() -> spec_fn(RecordView) -> Result<MilestoneView, ErrorView> {
    |record: RecordView|
        match record {
            RecordView::Milestone(milestone) => Ok(milestone),
            _ => Err(unexpected()),
        }
}

/// What each milestone of a list holds.
pub open spec fn milestone_views(list: Seq<MilestoneResponse>) -> Seq<MilestoneView> {
    Seq::new(list.len(), |i: int| list[i]@)
}

/// Shows each record in turn, and stops at the first that cannot be shown.
pub(crate) fn show_milestones(records: &Vec<Record>) -> (shown: Result<Vec<MilestoneResponse>, MyError>)
    ensures
        match shown_all(record_views(records@), show_milestone()) {
            Ok(expected) => shown is Ok && milestone_views(shown->Ok_0@) == expected,
            Err(error) => shown is Err && shown->Err_0@ == error,
        },
{
    let mut list: Vec<MilestoneResponse> = Vec::new();
    let mut i: usize = 0;
    let ghost all = record_views(records@);
    proof {
        assert(all.take(0) =~= Seq::empty());
        assert(milestone_views(list@) =~= Seq::empty());
    }
    while i < records.len()
        invariant
            i <= records.len(),
            all == record_views(records@),
            shown_all(all.take(i as int), show_milestone()) is Ok,
            shown_all(all.take(i as int), show_milestone())->Ok_0 == milestone_views(list@),
        decreases records.len() - i,
    {
        proof {
            assert(all.take(i + 1).drop_last() =~= all.take(i as int));
            assert(all.take(i + 1).last() == records@[i as int]@);
        }
        let item = match &records[i] {
            Record::Milestone(milestone) => doc_to_milestone_response(milestone),
            _ => Err(unexpected_answer()),
        };
        match item {
            Ok(one) => {
                proof {
                    assert(milestone_views(list@.push(one)) =~= milestone_views(list@).push(one@));
                }
                list.push(one);
            },
            Err(error) => {
                proof {
                    lemma_shown_all_fails(all, show_milestone(), i + 1);
                }
                return Err(error);
            },
        }
        i = i + 1;
    }
    proof {
        assert(all.take(records.len() as int) =~= all);
    }
    Ok(list)
}

/// A record of the deals as it is shown; a record of another collection is
/// no answer to a call on this one.
pub open spec fn show_deal() -> spec_fn(RecordView) -> Result<DealView, ErrorView> {
    |record: RecordView|
        match record {
            RecordView::Deal(deal) => Ok(deal),
            _ => Err(unexpected()),
        }
}

/// What each deal of a list holds.
pub open spec fn deal_views(list: Seq<DealResponse>) -> Seq<DealView> {
    Seq::new(list.len(), |i: int| list[i]@)
}

/// Shows each record in turn, and stops at the first that cannot be shown.
pub(crate) fn show_deals(records: &Vec<Record>) -> (shown: Result<Vec<DealResponse>, MyError>)
    ensures
        match shown_all(record_views(records@), show_deal()) {
            Ok(expected) => shown is Ok && deal_views(shown->Ok_0@) == expected,
            Err(error) => shown is Err && shown->Err_0@ == error,
        },
{
    let mut list: Vec<DealResponse> = Vec::new();
    let mut i: usize = 0;
    let ghost all = record_views(records@);
    proof {
        assert(all.take(0) =~= Seq::empty());
        assert(deal_views(list@) =~= Seq::empty());
    }
    while i < records.len()
        invariant
            i <= records.len(),
            all == record_views(records@),
            shown_all(all.take(i as int), show_deal()) is Ok,
            shown_all(all.take(i as int), show_deal())->Ok_0 == deal_views(list@),
        decreases records.len() - i,
    {
        proof {
            assert(all.take(i + 1).drop_last() =~= all.take(i as int));
            assert(all.take(i + 1).last() == records@[i as int]@);
        }
        let item = match &records[i] {
            Record::Deal(deal) => doc_to_deal_response(deal),
            _ => Err(unexpected_answer()),
        };
        match item {
            Ok(one) => {
                proof {
                    assert(deal_views(list@.push(one)) =~= deal_views(list@).push(one@));
                }
                list.push(one);
            },
            Err(error) => {
                proof {
                    lemma_shown_all_fails(all, show_deal(), i + 1);
                }
                return Err(error);
            },
        }
        i = i + 1;
    }
    proof {
        assert(all.take(records.len() as int) =~= all);
    }
    Ok(list)
}

/// Storing a new document of `collection` and showing it: have a number
/// set aside, store the new document under it, read it back and show it. `fields` gives the fields to store under an identifier, or the
/// reason why they cannot be stored; `keys`, where there are any, are the
/// fields on which no two documents of the collection may agree.
pub open spec fn create_spec<V>(
    collection: Collection,
    keys: Option<Seq<Seq<char>>>,
    fields: spec_fn(Seq<char>) -> Result<Map<Seq<char>, FieldValue>, ErrorView>,
    show: spec_fn(RecordView) -> Result<V, ErrorView>,
    answers: Seq<AnswerView>,
    from: int,
) -> StepView<V> {
    match reserve_spec(collection, 1, answers, from) {
        StepView::Call(request) => StepView::Call(request),
        StepView::Done(Err(error)) => StepView::Done(Err(error)),
        StepView::Done(Ok(count)) => match next_id_spec(count) {
            Err(error) => StepView::Done(Err(error)),
            Ok(id) => match fields(id) {
                Err(error) => StepView::Done(Err(error)),
                Ok(stored) => match insert_and_read_spec(
                    collection,
                    keys,
                    stored,
                    answers,
                    from + 1,
                ) {
                    StepView::Call(request) => StepView::Call(request),
                    StepView::Done(Err(error)) => StepView::Done(Err(error)),
                    StepView::Done(Ok(record)) => match show(record) {
                        Ok(shown) => StepView::Done(Ok(shown)),
                        Err(error) => StepView::Done(Err(error)),
                    },
                },
            },
        },
    }
}

/// The answer that shows `data`, where the step ends well.
pub open spec fn in_envelope<V>(step: StepView<V>) -> StepView<SingleView<V>> {
    match step {
        StepView::Call(request) => StepView::Call(request),
        StepView::Done(Ok(data)) => StepView::Done(Ok(success(data))),
        StepView::Done(Err(error)) => StepView::Done(Err(error)),
    }
}

/// The identifier of the next document of `collection`, where the answer to
/// the setting aside of a number is the one at `from`.
pub(crate) fn allocate(collection: Collection, answers: &Vec<StoreResponse>, from: usize) -> (step: Step<
    String,
>)
    ensures
        step@ == match reserve_spec(collection, 1, answer_views(answers@), from as int) {
            StepView::Call(request) => StepView::Call(request),
            StepView::Done(Err(error)) => StepView::Done(Err(error)),
            StepView::Done(Ok(count)) => match next_id_spec(count) {
                Err(error) => StepView::Done(Err(error)),
                Ok(id) => StepView::Done(Ok(id)),
            },
        },
{
    match reserve(collection, 1, answers, from) {
        Step::Call(request) => Step::Call(request),
        Step::Done(Err(error)) => Step::Done(Err(error)),
        Step::Done(Ok(count)) => Step::Done(next_id(count)),
    }
}

/// The text, or an empty one where there is none.
pub open spec fn text_or_empty(text: Option<Seq<char>>) -> Seq<char> {
    match text {
        Some(t) => t,
        None => Seq::empty(),
    }
}

/// A copy of the text, or an empty text where there is none.
pub(crate) fn copy_or_empty_text(text: &Option<String>) -> (copy: String)
    ensures
        copy@ == text_or_empty(crate::text::maybe_text(*text)),
{
    match text {
        Some(t) => t.clone(),
        None => String::new(),
    }
}

/// A record of the reviews as it is shown.
pub open spec fn show_review() -> spec_fn(RecordView) -> Result<ReviewView, ErrorView> {
    |record: RecordView|
        match record {
            RecordView::Review(review) => Ok(review),
            _ => Err(unexpected()),
        }
}

/// Changing one document and showing it as it is after the change: the
/// first document of `collection` that passes `filter` is changed by
/// `update`. Where none passes, `missing` is reported as not found.
pub open spec fn change_spec<V>(
    collection: Collection,
    filter: FilterView,
    update: UpdateView,
    show: spec_fn(RecordView) -> Result<V, ErrorView>,
    missing: Seq<char>,
    answers: Seq<AnswerView>,
) -> StepView<V> {
    if answers.len() == 0 {
        StepView::Call(RequestView::FindOneAndUpdate { collection, filter, update })
    } else {
        match answers[0] {
            AnswerView::One(Some(record)) => match show(record) {
                Ok(shown) => StepView::Done(Ok(shown)),
                Err(error) => StepView::Done(Err(error)),
            },
            AnswerView::One(None) => StepView::Done(Err(ErrorView::NotFoundError(missing))),
            other => StepView::Done(Err(query_failure(other))),
        }
    }
}

/// The record that answers a change, where there is one; `missing` is
/// reported as not found where the store found nothing to change.
pub(crate) fn changed<'a>(answer: &'a StoreResponse, missing: &String) -> (found: Result<&'a Record, MyError>)
    ensures
        match answer@ {
            AnswerView::One(Some(record)) => found is Ok && found->Ok_0@ == record,
            AnswerView::One(None) => found is Err && found->Err_0@ == ErrorView::NotFoundError(
                missing@,
            ),
            other => found is Err && found->Err_0@ == query_failure(other),
        },
{
    match answer {
        StoreResponse::One(Some(record)) => Ok(record),
        StoreResponse::One(None) => Err(MyError::NotFoundError(missing.clone())),
        other => Err(failed_query(other)),
    }
}

} // verus!
