//! The operations of the service on its store.
//!
//! An operation is a function of what the request holds and of the answers
//! that the store has given so far. It says which call to make next, or how
//! the operation ends. Whoever runs it makes the call, adds the answer to the
//! list, and asks again, until the operation is over. Answers received after
//! the end are not looked at.

use crate::document::FieldValue;
use crate::error::{ErrorView, MyError};
use crate::model::{DealView, MilestoneView, ProposalModel, ProposalView, ReviewView, UserView};
use crate::response::{
    ClientData, ClientListResponse, ClientResponseView, DealData, DealListResponse, DealResponse,
    FreelancerData, FreelancerListResponse, FreelancerResponseView, MilestoneData,
    MilestoneListResponse, PartialDealResponse, PartialDealView, ProposalData, ProposalDealData,
    ProposalDealView, ProposalDetailedData, ProposalDetailedView, ProposalListResponse,
    ProposalResponseView, ReviewData, SingleClientResponse, SingleDealResponse,
    SingleFreelancerResponse, SingleMilestoneResponse, SingleProposalDealResponse,
    SingleProposalDetailedResponse, SingleProposalResponse, SingleReviewResponse,
    SingleTaskResponse, SingleUserResponse, SingleView, SUCCESS, success, TaskData,
    TaskListResponse, TaskResponseView, UserData, UserResponseView,
};
use crate::schema::{
    CreateClientSchema, CreateClientView, CreateFreelancerSchema, CreateFreelancerView,
    CreateMilestoneSchema, CreateMilestoneView, CreateProposalSchema, CreateProposalView,
    CreateReviewSchema, CreateReviewView, CreateTaskSchema, CreateTaskView, LoginUserSchema,
    LoginUserView,
};
use crate::settings::{first_missing, look_up, must_be_set, required, setting};
use crate::steps::{
    allocate, change_spec, changed, client_views, copy_or_empty_text, create_spec, deal_views,
    failed_query, failed_write, freelancer_views, in_envelope, insert_and_read, list_spec,
    milestone_views, one_key, proposal_views, query_failure, reserve, reserve_spec, show_client,
    show_clients, show_deal, show_deals, show_freelancer, show_freelancers, show_milestone,
    show_milestones, show_proposal, show_proposals, show_review, show_task, show_tasks, shown_all,
    task_views, text_or_empty, unexpected, unexpected_answer, write_failure,
};
use crate::store::{
    answer_views, AnswerView, Collection, Filter, FilterView, Record, record_views, RecordView,
    RequestView, Step, StepView, StoreRequest, StoreResponse, Update, UpdateView,
};
use crate::text::{constant_time_eq, copy_texts, decimal_spec, same_texts, texts};
use crate::utils::{
    batch_documents, batch_view, build_client_document, build_deal_document,
    build_freelancer_document, build_milestones_document, build_proposal_document,
    build_review_document, build_task_document, client_fields, copy_or_empty, deal_fields,
    deal_of_proposal, deal_with_id, doc_to_client_response, doc_to_deal_response,
    doc_to_detailed_proposal_response, doc_to_freelancer_response, doc_to_milestone_response,
    doc_to_proposal_and_deal_response, doc_to_proposal_response, doc_to_review_response,
    doc_to_task_response, doc_to_user_response, docs_to_deal_response, freelancer_fields,
    LARGEST_NUMBER, no_description, number_too_large, prices_can_be_stored, proposal_fields,
    review_fields, shown_detailed_proposal, shown_proposal, shown_user, stored_number, task_fields,
    texts_or_none, too_large,
};
use vstd::prelude::*;
use vstd::string::*;

verus! {

/// Where the service keeps its documents.
#[derive(Debug, PartialEq, Eq)]
pub struct DB {
    /// The address of the store.
    pub uri: String,
    /// The name of the database, by which the service also names itself.
    pub database: String,
    pub clients_collection: String,
    pub tasks_collection: String,
    pub freelancers_collection: String,
    pub review_collection: String,
    pub proposals_collection: String,
    pub deals_collection: String,
    pub milestones_collection: String,
    /// The fields on which no two reviews may agree.
    pub review_key: Vec<String>,
}

/// What a [`DB`] holds.
pub struct DBView {
    pub uri: Seq<char>,
    pub database: Seq<char>,
    pub clients_collection: Seq<char>,
    pub tasks_collection: Seq<char>,
    pub freelancers_collection: Seq<char>,
    pub review_collection: Seq<char>,
    pub proposals_collection: Seq<char>,
    pub deals_collection: Seq<char>,
    pub milestones_collection: Seq<char>,
    pub review_key: Seq<Seq<char>>,
}

impl View for DB {
    type V = DBView;

    open spec fn view(&self) -> DBView {
        DBView {
            uri: self.uri@,
            database: self.database@,
            clients_collection: self.clients_collection@,
            tasks_collection: self.tasks_collection@,
            freelancers_collection: self.freelancers_collection@,
            review_collection: self.review_collection@,
            proposals_collection: self.proposals_collection@,
            deals_collection: self.deals_collection@,
            milestones_collection: self.milestones_collection@,
            review_key: texts(self.review_key@),
        }
    }
}

/// The setting that gives the fields on which no two reviews may agree, as a
/// list with commas between the fields.
pub const REVIEW_KEY_SETTING: &'static str = "MONGODB_REVIEW_UNIQUE_KEY";

/// The field on which no two reviews may agree where the settings do not say.
pub const REVIEW_KEY_DEFAULT: &'static str = "deal_id";

/// The names of the settings that must be there, in the order in which they
/// are looked for.
pub open spec fn required_settings() -> Seq<Seq<char>> {
    seq![
        "DATABASE_URL"@,
        "MONGO_INIT_DATABASE"@,
        "MONGODB_CLIENTS_COLLECTION"@,
        "MONGODB_TASKS_COLLECTION"@,
        "MONGODB_FREELANCERS_COLLECTION"@,
        "MONGODB_REVIEW_COLLECTION"@,
        "MONGODB_PROPOSALS_COLLECTION"@,
        "MONGODB_DEALS_COLLECTION"@,
        "MONGODB_MILESTONES_COLLECTION"@,
    ]
}

/// The configuration that the settings give: an error for the first needed
/// setting that is not there.
pub open spec fn init_spec(settings: Seq<(String, String)>) -> Result<DBView, ErrorView> {
    match first_missing(settings, required_settings(), 0) {
        Some(name) => Err(must_be_set(name)),
        None => Ok(
            DBView {
                uri: setting(settings, "DATABASE_URL"@)->0,
                database: setting(settings, "MONGO_INIT_DATABASE"@)->0,
                clients_collection: setting(settings, "MONGODB_CLIENTS_COLLECTION"@)->0,
                tasks_collection: setting(settings, "MONGODB_TASKS_COLLECTION"@)->0,
                freelancers_collection: setting(settings, "MONGODB_FREELANCERS_COLLECTION"@)->0,
                review_collection: setting(settings, "MONGODB_REVIEW_COLLECTION"@)->0,
                proposals_collection: setting(settings, "MONGODB_PROPOSALS_COLLECTION"@)->0,
                deals_collection: setting(settings, "MONGODB_DEALS_COLLECTION"@)->0,
                milestones_collection: setting(settings, "MONGODB_MILESTONES_COLLECTION"@)->0,
                review_key: match setting(settings, REVIEW_KEY_SETTING@) {
                    Some(list) => crate::text::split_spec(list),
                    None => seq![REVIEW_KEY_DEFAULT@],
                },
            },
        ),
    }
}

/// The fields to store of a new client under a given identifier.
pub open spec fn client_document(body: CreateClientView) -> spec_fn(Seq<char>) -> Result<
    Map<Seq<char>, FieldValue>,
    ErrorView,
> {
    |id: Seq<char>|
        Ok(
            client_fields(
                body.user,
                id,
                text_or_empty(body.user.description),
                texts_or_none(body.task_ids),
            ),
        )
}

/// Registering a client: names are unique among clients.
pub open spec fn add_client_spec(body: CreateClientView, answers: Seq<AnswerView>) -> StepView<
    SingleView<ClientResponseView>,
> {
    in_envelope(
        create_spec(
            Collection::Clients,
            Some(seq!["user_name"@]),
            client_document(body),
            show_client(),
            answers,
            0,
        ),
    )
}

/// The fields to store of a new freelancer under a given identifier.
pub open spec fn freelancer_document(body: CreateFreelancerView) -> spec_fn(Seq<char>) -> Result<
    Map<Seq<char>, FieldValue>,
    ErrorView,
> {
    |id: Seq<char>|
        Ok(
            freelancer_fields(
                body.user,
                id,
                text_or_empty(body.user.description),
                texts_or_none(body.skills),
            ),
        )
}

/// Registering a freelancer: names are unique among freelancers.
pub open spec fn add_freelancer_spec(
    body: CreateFreelancerView,
    answers: Seq<AnswerView>,
) -> StepView<SingleView<FreelancerResponseView>> {
    in_envelope(
        create_spec(
            Collection::Freelancers,
            Some(seq!["user_name"@]),
            freelancer_document(body),
            show_freelancer(),
            answers,
            0,
        ),
    )
}

/// The fields to store of a new task under a given identifier.
pub open spec fn task_document(body: CreateTaskView) -> spec_fn(Seq<char>) -> Result<
    Map<Seq<char>, FieldValue>,
    ErrorView,
> {
    |id: Seq<char>| Ok(task_fields(body, id))
}

/// Posting a task: titles are unique.
pub open spec fn create_task_spec(body: CreateTaskView, answers: Seq<AnswerView>) -> StepView<
    SingleView<TaskResponseView>,
> {
    in_envelope(
        create_spec(
            Collection::Tasks,
            Some(seq!["title"@]),
            task_document(body),
            show_task(),
            answers,
            0,
        ),
    )
}

/// The fields to store of a new review under a given identifier.
pub open spec fn review_document(body: CreateReviewView) -> spec_fn(Seq<char>) -> Result<
    Map<Seq<char>, FieldValue>,
    ErrorView,
> {
    |id: Seq<char>| Ok(review_fields(body, id))
}

/// The fields on which the store is asked to keep reviews apart; none where
/// the list is empty.
pub open spec fn review_keys(key: Seq<Seq<char>>) -> Option<Seq<Seq<char>>> {
    if key.len() == 0 {
        None
    } else {
        Some(key)
    }
}

/// Leaving a review: no two reviews agree on all the fields of `key`.
pub open spec fn add_review_spec(
    key: Seq<Seq<char>>,
    body: CreateReviewView,
    answers: Seq<AnswerView>,
) -> StepView<SingleView<ReviewView>> {
    in_envelope(
        create_spec(
            Collection::Reviews,
            review_keys(key),
            review_document(body),
            show_review(),
            answers,
            0,
        ),
    )
}

/// The fields to store of a new proposal under a given identifier.
pub open spec fn proposal_document(body: CreateProposalView) -> spec_fn(Seq<char>) -> Result<
    Map<Seq<char>, FieldValue>,
    ErrorView,
> {
    |id: Seq<char>| Ok(proposal_fields(body, id))
}

/// Submitting a proposal: it is stored without milestones, without a price
/// and not accepted.
pub open spec fn submit_proposal_spec(
    body: CreateProposalView,
    answers: Seq<AnswerView>,
) -> StepView<SingleView<ProposalResponseView>> {
    in_envelope(
        create_spec(
            Collection::Proposals,
            None,
            proposal_document(body),
            show_proposal(),
            answers,
            0,
        ),
    )
}

/// The fields to store of a new deal under a given identifier; an error
/// where no document can hold its price.
pub open spec fn deal_document(deal: PartialDealView) -> spec_fn(Seq<char>) -> Result<
    Map<Seq<char>, FieldValue>,
    ErrorView,
> {
    |id: Seq<char>|
        if deal.price <= LARGEST_NUMBER {
            Ok(deal_fields(deal, id))
        } else {
            Err(number_too_large())
        }
}

/// A deal that has just been stored, as it is shown: under the identifier of
/// the stored deal, everything else as it was asked to be stored.
pub open spec fn show_new_deal(deal: PartialDealView) -> spec_fn(RecordView) -> Result<
    DealView,
    ErrorView,
> {
    |record: RecordView|
        match record {
            RecordView::Deal(stored) => Ok(deal_with_id(stored.id, deal)),
            _ => Err(unexpected()),
        }
}

/// Storing a deal, where the answer to the first call is the one at `from`.
pub open spec fn add_deal_spec(deal: PartialDealView, answers: Seq<AnswerView>, from: int) -> StepView<
    DealView,
> {
    create_spec(
        Collection::Deals,
        None,
        deal_document(deal),
        show_new_deal(deal),
        answers,
        from,
    )
}

/// Attaching a settlement address to a deal.
pub open spec fn update_deal_spec(
    deal_id: Seq<char>,
    transaction_id: Seq<char>,
    answers: Seq<AnswerView>,
) -> StepView<SingleView<DealView>> {
    in_envelope(
        change_spec(
            Collection::Deals,
            FilterView::Id(deal_id),
            UpdateView::Address(transaction_id),
            show_deal(),
            deal_id,
            answers,
        ),
    )
}

/// Handing in the deliverable of a milestone of a proposal. Where the
/// proposal has no such milestone, the proposal is reported as not found.
pub open spec fn submit_milestone_spec(
    proposal_id: Seq<char>,
    milestone_id: Seq<char>,
    link: Seq<char>,
    answers: Seq<AnswerView>,
) -> StepView<SingleView<MilestoneView>> {
    in_envelope(
        change_spec(
            Collection::Milestones,
            FilterView::Milestone { proposal_id, milestone_id },
            UpdateView::Link(link),
            show_milestone(),
            proposal_id,
            answers,
        ),
    )
}

/// Recording on a deal which milestone was delivered, and where.
pub open spec fn submit_milestones_spec(
    deal_id: Seq<char>,
    milestone_id: Seq<char>,
    link: Seq<char>,
    answers: Seq<AnswerView>,
) -> StepView<SingleView<DealView>> {
    in_envelope(
        change_spec(
            Collection::Deals,
            FilterView::Id(deal_id),
            UpdateView::Delivery { milestone_id, link },
            show_deal(),
            deal_id,
            answers,
        ),
    )
}

/// Accepting a proposal. The proposal is marked as accepted in one step, and
/// only if it was not accepted before; then the deal is stored, at the price
/// that the proposal had when it was marked. Where no proposal was marked, a
/// look at the proposals tells whether there is none of this identifier, or
/// one that was accepted before.
pub open spec fn approve_proposal_spec(proposal_id: Seq<char>, answers: Seq<AnswerView>) -> StepView<
    SingleView<ProposalDealView>,
> {
    if answers.len() == 0 {
        StepView::Call(
            RequestView::FindOneAndUpdate {
                collection: Collection::Proposals,
                filter: FilterView::Pending(proposal_id),
                update: UpdateView::Accept,
            },
        )
    } else {
        match answers[0] {
            AnswerView::One(Some(RecordView::Proposal(proposal))) => match add_deal_spec(
                deal_of_proposal(proposal),
                answers,
                1,
            ) {
                StepView::Call(request) => StepView::Call(request),
                StepView::Done(Err(error)) => StepView::Done(Err(error)),
                StepView::Done(Ok(deal)) => StepView::Done(
                    Ok(success(ProposalDealView { proposal: shown_proposal(proposal), deal })),
                ),
            },
            AnswerView::One(Some(_)) => StepView::Done(Err(unexpected())),
            AnswerView::One(None) => if answers.len() == 1 {
                StepView::Call(
                    RequestView::FindOne {
                        collection: Collection::Proposals,
                        filter: FilterView::Id(proposal_id),
                    },
                )
            } else {
                match answers[1] {
                    AnswerView::One(Some(_)) => StepView::Done(
                        Err(ErrorView::MongoDuplicateError(proposal_id)),
                    ),
                    AnswerView::One(None) => StepView::Done(
                        Err(ErrorView::NotFoundError(proposal_id)),
                    ),
                    other => StepView::Done(Err(query_failure(other))),
                }
            },
            other => StepView::Done(Err(query_failure(other))),
        }
    }
}

/// The proposal named by the first milestone of the batch from `from` on
/// that names another proposal than the first milestone of all does.
pub open spec fn other_proposal_from(batch: Seq<CreateMilestoneView>, from: int) -> Option<
    Seq<char>,
>
    decreases batch.len() - from,
{
    if from < 0 || from >= batch.len() {
        None
    } else if batch[from].proposal_id != batch[0].proposal_id {
        Some(batch[from].proposal_id)
    } else {
        other_proposal_from(batch, from + 1)
    }
}

/// The first proposal named in the batch that is not the one that the first
/// milestone names; none where the whole batch is for one proposal.
pub open spec fn other_proposal(batch: Seq<CreateMilestoneView>) -> Option<Seq<char>> {
    other_proposal_from(batch, 0)
}

/// Looks for a milestone of the batch that names another proposal than the
/// first milestone does.
fn find_other_proposal(body: &Vec<CreateMilestoneSchema>) -> (other: Option<String>)
    ensures
        crate::text::maybe_text(other) == other_proposal(batch_view(body@)),
{
    let mut i: usize = 0;
    while i < body.len()
        invariant
            i <= body.len(),
            other_proposal(batch_view(body@)) == other_proposal_from(batch_view(body@), i as int),
        decreases body.len() - i,
    {
        proof {
            assert(batch_view(body@)[i as int] == body@[i as int]@);
            assert(batch_view(body@)[0] == body@[0]@);
        }
        if !constant_time_eq(body[i].proposal_id.as_str(), body[0].proposal_id.as_str()) {
            return Some(body[i].proposal_id.clone());
        }
        i = i + 1;
    }
    None
}

/// The sum of the prices of a batch.
pub open spec fn total_price(batch: Seq<CreateMilestoneView>) -> nat
    decreases batch.len(),
{
    if batch.len() == 0 {
        0
    } else {
        total_price(batch.drop_last()) + batch.last().price as nat
    }
}

/// A part of a batch costs no more than the whole.
pub proof fn lemma_total_price_grows(batch: Seq<CreateMilestoneView>, upto: int)
    requires
        0 <= upto <= batch.len(),
    ensures
        total_price(batch.take(upto)) <= total_price(batch),
    decreases batch.len() - upto,
{
    if upto == batch.len() {
        assert(batch.take(upto) =~= batch);
    } else {
        assert(batch.take(upto + 1).drop_last() =~= batch.take(upto));
        lemma_total_price_grows(batch, upto + 1);
    }
}

/// The sum of the prices of the batch as a document holds it; an error where
/// no document can.
fn sum_prices(body: &Vec<CreateMilestoneSchema>) -> (total: Result<i64, MyError>)
    ensures
        total_price(batch_view(body@)) <= LARGEST_NUMBER ==> total is Ok && total->Ok_0
            == total_price(batch_view(body@)),
        total_price(batch_view(body@)) > LARGEST_NUMBER ==> total is Err && total->Err_0@
            == number_too_large(),
{
    let ghost batch = batch_view(body@);
    let mut total: u64 = 0;
    let mut i: usize = 0;
    proof {
        assert(batch.take(0) =~= Seq::empty());
    }
    while i < body.len()
        invariant
            i <= body.len(),
            batch == batch_view(body@),
            total == total_price(batch.take(i as int)),
            total <= LARGEST_NUMBER,
        decreases body.len() - i,
    {
        proof {
            assert(batch.take(i + 1).drop_last() =~= batch.take(i as int));
            assert(batch.take(i + 1).last() == body@[i as int]@);
            lemma_total_price_grows(batch, i + 1);
        }
        let price: u64 = body[i].price;
        if price > LARGEST_NUMBER - total {
            return Err(too_large());
        }
        total = total + price;
        i = i + 1;
    }
    proof {
        assert(batch.take(body.len() as int) =~= batch);
    }
    stored_number(total)
}

/// The identifiers of the records, in their order.
pub open spec fn ids_of(records: Seq<RecordView>) -> Seq<Seq<char>> {
    Seq::new(records.len(), |i: int| records[i].id())
}

/// Whether the records are the first milestones of the batch, one for one
/// and in their order: each with the description, the deadline and the price
/// of its milestone.
pub open spec fn begins(records: Seq<RecordView>, batch: Seq<CreateMilestoneView>) -> bool {
    &&& records.len() <= batch.len()
    &&& forall|i: int|
        0 <= i < records.len() ==> ((#[trigger] records[i]) matches RecordView::Milestone(stored)
            && stored.description == batch[i].description && stored.deadline == batch[i].deadline
            && stored.price == batch[i].price)
}

/// Whether the records are the milestones of the batch, one for one and in
/// their order.
pub open spec fn same_milestones(records: Seq<RecordView>, batch: Seq<CreateMilestoneView>) -> bool {
    records.len() == batch.len() && begins(records, batch)
}

/// Giving a proposal the identifiers of its milestones and the sum of the
/// prices of the batch, in one step, where the answer to this call is the
/// one at `from`. A sum that no document can hold is an error.
pub open spec fn attach_spec(
    batch: Seq<CreateMilestoneView>,
    ids: Seq<Seq<char>>,
    answers: Seq<AnswerView>,
    from: int,
) -> StepView<SingleView<ProposalResponseView>> {
    if total_price(batch) > LARGEST_NUMBER {
        StepView::Done(Err(number_too_large()))
    } else {
        in_envelope(
            change_spec(
                Collection::Proposals,
                FilterView::Id(batch[0].proposal_id),
                UpdateView::Milestones { ids, price: total_price(batch) as i64 },
                show_proposal(),
                batch[0].proposal_id,
                answers.skip(from),
            ),
        )
    }
}

/// Storing the milestones of a batch that are not stored yet, under
/// identifiers that are set aside for them, and then attaching them all to the
/// proposal: those that were stored before, under the identifiers `kept`, and
/// after them the new ones. The answer to the setting aside of the
/// identifiers is the one at `from`.
pub open spec fn store_rest_spec(
    batch: Seq<CreateMilestoneView>,
    kept: Seq<Seq<char>>,
    answers: Seq<AnswerView>,
    from: int,
) -> StepView<SingleView<ProposalResponseView>> {
    let rest = batch.skip(kept.len() as int);
    match reserve_spec(Collection::Milestones, rest.len() as u64, answers, from) {
        StepView::Call(request) => StepView::Call(request),
        StepView::Done(Err(error)) => StepView::Done(Err(error)),
        StepView::Done(Ok(count)) => if count + rest.len() > u64::MAX {
            StepView::Done(Err(ErrorView::InvalidIDError(decimal_spec(count as nat))))
        } else if !prices_can_be_stored(rest) || total_price(batch) > LARGEST_NUMBER {
            StepView::Done(Err(number_too_large()))
        } else if answers.len() <= from + 1 {
            StepView::Call(
                RequestView::InsertMany {
                    collection: Collection::Milestones,
                    batch: batch_documents(rest, count),
                },
            )
        } else {
            match answers[from + 1] {
                AnswerView::InsertedMany(ids) => attach_spec(batch, kept + ids, answers, from + 2),
                other => StepView::Done(Err(write_failure(other))),
            }
        },
    }
}

/// Whether milestones are attached to the proposal.
pub open spec fn has_milestones(proposal: ProposalView) -> bool {
    proposal.milestones_id matches Some(ids) && ids.len() > 0
}

/// Whether the proposal has the records for its milestones, and the records
/// are the milestones of the batch, and the proposal has the sum of their
/// prices for its price.
pub open spec fn has_batch(
    proposal: ProposalView,
    records: Seq<RecordView>,
    batch: Seq<CreateMilestoneView>,
) -> bool {
    &&& records.len() == batch.len()
    &&& total_price(batch) <= LARGEST_NUMBER
    &&& proposal.milestones_id == Some(ids_of(records))
    &&& proposal.proposal_price == total_price(batch)
}

/// Attaching milestones to a proposal.
///
/// The batch must hold a milestone, and the whole batch must be for one
/// proposal; else the request is at fault, and nothing is asked of the store.
/// The proposal is looked up first: where there is none, nothing is stored.
/// Then the milestones that name the proposal are listed.
///
/// - Where there are none, identifiers are set aside for the batch, the
///   batch is stored under them, and the proposal is given these identifiers
///   and the sum of the prices, in one step.
/// - Where the proposal has milestones attached, and they are those of the
///   batch, the proposal is shown as it is, and nothing is stored again.
/// - Where the proposal has none attached yet, but the first milestones of
///   the batch are stored for it, or all of them, those that are missing are
///   stored, and the proposal is given them all: a request that was cut short
///   is made good by sending it again.
/// - In every other case the request is refused: milestones are attached to
///   a proposal once.
pub open spec fn add_milestones_spec(
    batch: Seq<CreateMilestoneView>,
    answers: Seq<AnswerView>,
) -> StepView<SingleView<ProposalResponseView>> {
    if batch.len() == 0 {
        StepView::Done(Err(ErrorView::InvalidIDError(Seq::empty())))
    } else if other_proposal(batch) is Some {
        StepView::Done(Err(ErrorView::InvalidIDError(other_proposal(batch)->0)))
    } else if answers.len() == 0 {
        StepView::Call(
            RequestView::FindOne {
                collection: Collection::Proposals,
                filter: FilterView::Id(batch[0].proposal_id),
            },
        )
    } else {
        match answers[0] {
            AnswerView::One(Some(RecordView::Proposal(proposal))) => if answers.len() == 1 {
                StepView::Call(
                    RequestView::Find {
                        collection: Collection::Milestones,
                        filter: FilterView::Proposal(batch[0].proposal_id),
                    },
                )
            } else {
                match answers[1] {
                    AnswerView::Many(records) => if !begins(records, batch) {
                        StepView::Done(
                            Err(ErrorView::MongoDuplicateError(batch[0].proposal_id)),
                        )
                    } else if has_milestones(proposal) {
                        if has_batch(proposal, records, batch) {
                            StepView::Done(Ok(success(shown_proposal(proposal))))
                        } else {
                            StepView::Done(
                                Err(ErrorView::MongoDuplicateError(batch[0].proposal_id)),
                            )
                        }
                    } else if records.len() < batch.len() {
                        store_rest_spec(batch, ids_of(records), answers, 2)
                    } else {
                        attach_spec(batch, ids_of(records), answers, 2)
                    },
                    other => StepView::Done(Err(query_failure(other))),
                }
            },
            AnswerView::One(Some(_)) => StepView::Done(Err(unexpected())),
            AnswerView::One(None) => StepView::Done(
                Err(ErrorView::NotFoundError(batch[0].proposal_id)),
            ),
            other => StepView::Done(Err(query_failure(other))),
        }
    }
}

/// The identifiers of the records, in their order.
fn collect_ids(records: &Vec<Record>) -> (ids: Vec<String>)
    ensures
        texts(ids@) == ids_of(record_views(records@)),
{
    let mut ids: Vec<String> = Vec::new();
    let mut i: usize = 0;
    while i < records.len()
        invariant
            i <= records.len(),
            ids.len() == i,
            forall|j: int| 0 <= j < i ==> ids@[j]@ == records@[j]@.id(),
        decreases records.len() - i,
    {
        ids.push(records[i].id().clone());
        i = i + 1;
    }
    assert(texts(ids@) =~= ids_of(record_views(records@)));
    ids
}

/// Whether the records are the first milestones of the batch.
fn are_first_milestones(records: &Vec<Record>, body: &Vec<CreateMilestoneSchema>) -> (first: bool)
    ensures
        first == begins(record_views(records@), batch_view(body@)),
{
    if records.len() > body.len() {
        return false;
    }
    let mut i: usize = 0;
    while i < records.len()
        invariant
            i <= records.len(),
            records.len() <= body.len(),
            forall|j: int|
                0 <= j < i ==> ((#[trigger] record_views(records@)[j])
                    matches RecordView::Milestone(stored) && stored.description == batch_view(
                    body@,
                )[j].description && stored.deadline == batch_view(body@)[j].deadline
                    && stored.price == batch_view(body@)[j].price),
        decreases records.len() - i,
    {
        proof {
            assert(record_views(records@)[i as int] == records@[i as int]@);
            assert(batch_view(body@)[i as int] == body@[i as int]@);
        }
        let same = match &records[i] {
            Record::Milestone(stored) => constant_time_eq(
                stored.description.as_str(),
                body[i].description.as_str(),
            ) && constant_time_eq(stored.deadline.as_str(), body[i].deadline.as_str())
                && stored.price == body[i].price,
            _ => false,
        };
        if !same {
            return false;
        }
        i = i + 1;
    }
    true
}

/// The milestones of the batch from the one at `from` on.
fn rest_of(body: &Vec<CreateMilestoneSchema>, from: usize) -> (rest: Vec<CreateMilestoneSchema>)
    requires
        from <= body.len(),
    ensures
        batch_view(rest@) == batch_view(body@).skip(from as int),
{
    let mut rest: Vec<CreateMilestoneSchema> = Vec::new();
    let mut i: usize = from;
    while i < body.len()
        invariant
            from <= i <= body.len(),
            rest.len() == i - from,
            forall|j: int| 0 <= j < rest.len() ==> (#[trigger] rest@[j])@ == body@[from + j]@,
        decreases body.len() - i,
    {
        rest.push(body[i].clone());
        i = i + 1;
    }
    proof {
        assert(batch_view(rest@) =~= batch_view(body@).skip(from as int));
    }
    rest
}

/// The first list, and after it the second.
fn joined(first: Vec<String>, second: &Vec<String>) -> (all: Vec<String>)
    ensures
        texts(all@) == texts(first@) + texts(second@),
{
    let ghost start = first@;
    let mut all = first;
    let mut i: usize = 0;
    while i < second.len()
        invariant
            i <= second.len(),
            all.len() == start.len() + i,
            forall|j: int| 0 <= j < start.len() ==> (#[trigger] all@[j])@ == start[j]@,
            forall|j: int| 0 <= j < i ==> (#[trigger] all@[start.len() + j])@ == second@[j]@,
        decreases second.len() - i,
    {
        all.push(second[i].clone());
        i = i + 1;
    }
    proof {
        let both = texts(start) + texts(second@);
        assert(texts(all@).len() == both.len());
        assert forall|j: int| 0 <= j < both.len() implies texts(all@)[j] == both[j] by {
            if j >= start.len() {
                assert(all@[start.len() + (j - start.len())]@ == second@[j - start.len()]@);
            }
        }
        assert(texts(all@) =~= both);
    }
    all
}

/// Whether milestones are attached to the proposal.
fn is_funded(proposal: &ProposalModel) -> (funded: bool)
    ensures
        funded == has_milestones(proposal@),
{
    match &proposal.milestones_id {
        Some(ids) => ids.len() > 0,
        None => false,
    }
}

/// Whether the proposal has these milestones and this price already.
fn has_attached(proposal: &ProposalModel, ids: &Vec<String>, price: u64) -> (has: bool)
    ensures
        has == (proposal@.milestones_id == Some(texts(ids@)) && proposal.proposal_price == price),
{
    match &proposal.milestones_id {
        Some(attached) => same_texts(attached, ids) && proposal.proposal_price == price,
        None => false,
    }
}

/// Gives a proposal the identifiers of its milestones and the sum of the
/// prices of the batch, where the answer to this call is the one at `from`.
fn attach(
    body: &Vec<CreateMilestoneSchema>,
    ids: Vec<String>,
    answers: &Vec<StoreResponse>,
    from: usize,
) -> (step: Step<SingleProposalResponse>)
    requires
        body.len() > 0,
        from <= answers.len(),
    ensures
        step@ == attach_spec(
            batch_view(body@),
            texts(ids@),
            answer_views(answers@),
            from as int,
        ),
{
    let price = match sum_prices(body) {
        Ok(price) => price,
        Err(error) => {
            return Step::Done(Err(error));
        },
    };
    let proposal_id = &body[0].proposal_id;
    proof {
        assert(batch_view(body@)[0] == body@[0]@);
        let rest = answer_views(answers@).skip(from as int);
        assert(rest.len() == answers.len() - from);
        if answers.len() > from {
            assert(rest[0] == answers@[from as int]@);
        }
    }
    if answers.len() <= from {
        return Step::Call(
            StoreRequest::FindOneAndUpdate {
                collection: Collection::Proposals,
                filter: Filter::Id(proposal_id.clone()),
                update: Update::Milestones { ids, price },
            },
        );
    }
    match changed(&answers[from], proposal_id) {
        Ok(Record::Proposal(found)) => match doc_to_proposal_response(found) {
            Ok(proposal) => Step::Done(
                Ok(SingleProposalResponse { status: SUCCESS, data: ProposalData { proposal } }),
            ),
            Err(error) => Step::Done(Err(error)),
        },
        Ok(_) => Step::Done(Err(unexpected_answer())),
        Err(error) => Step::Done(Err(error)),
    }
}

/// Stores the milestones of a batch that are not stored yet and attaches
/// them all to the proposal, where the answer to the setting aside of the
/// identifiers is the one at `from`.
fn store_rest(
    body: &Vec<CreateMilestoneSchema>,
    kept: Vec<String>,
    answers: &Vec<StoreResponse>,
    from: usize,
) -> (step: Step<SingleProposalResponse>)
    requires
        body.len() > 0,
        kept.len() <= body.len(),
        from <= 2,
    ensures
        step@ == store_rest_spec(batch_view(body@), texts(kept@), answer_views(answers@), from as int),
{
    let rest = rest_of(body, kept.len());
    let count = match reserve(Collection::Milestones, rest.len() as u64, answers, from) {
        Step::Call(request) => {
            return Step::Call(request);
        },
        Step::Done(Err(error)) => {
            return Step::Done(Err(error));
        },
        Step::Done(Ok(count)) => count,
    };
    let documents = match build_milestones_document(&rest, count) {
        Ok(documents) => documents,
        Err(error) => {
            return Step::Done(Err(error));
        },
    };
    match sum_prices(body) {
        Ok(_) => {},
        Err(error) => {
            return Step::Done(Err(error));
        },
    }
    if answers.len() <= from + 1 {
        return Step::Call(
            StoreRequest::InsertMany { collection: Collection::Milestones, documents },
        );
    }
    match &answers[from + 1] {
        StoreResponse::InsertedMany(ids) => attach(body, joined(kept, ids), answers, from + 2),
        other => Step::Done(Err(failed_write(other))),
    }
}

/// The stored user that a record holds, where the record is of the
/// collection of the role.
pub open spec fn user_of(collection: Collection, record: RecordView) -> Option<UserView> {
    match record {
        RecordView::Client(client) => if collection == Collection::Clients {
            Some(client.user)
        } else {
            None
        },
        RecordView::Freelancer(freelancer) => if collection == Collection::Freelancers {
            Some(freelancer.user)
        } else {
            None
        },
        _ => None,
    }
}

/// The collection that holds the users of a role; none for a role that is
/// neither "client" nor "freelancer".
pub open spec fn collection_of_role(role: Seq<char>) -> Option<Collection> {
    if role == "client"@ {
        Some(Collection::Clients)
    } else if role == "freelancer"@ {
        Some(Collection::Freelancers)
    } else {
        None
    }
}

/// Logging in: the user is looked up by name among the users of the role,
/// and the password sent must be the stored one.
pub open spec fn api_login_spec(body: LoginUserView, answers: Seq<AnswerView>) -> StepView<
    SingleView<UserResponseView>,
> {
    match collection_of_role(body.role) {
        None => StepView::Done(Err(ErrorView::InvalidRoleError)),
        Some(collection) => if answers.len() == 0 {
            StepView::Call(
                RequestView::FindOne { collection, filter: FilterView::UserName(body.user_name) },
            )
        } else {
            match answers[0] {
                AnswerView::One(Some(record)) => match user_of(collection, record) {
                    None => StepView::Done(Err(unexpected())),
                    Some(user) => match shown_user(user) {
                        None => StepView::Done(Err(no_description())),
                        Some(shown) => if shown.password == body.password {
                            StepView::Done(Ok(success(shown)))
                        } else {
                            StepView::Done(Err(ErrorView::InvalidPasswordError))
                        },
                    },
                },
                AnswerView::One(None) => StepView::Done(
                    Err(ErrorView::NotFoundError(body.user_name)),
                ),
                other => StepView::Done(Err(query_failure(other))),
            }
        },
    }
}

/// Showing a proposal with its milestones: the proposal is looked up by its
/// identifier, then the milestones that name it are listed.
pub open spec fn get_proposal_spec(proposal_id: Seq<char>, answers: Seq<AnswerView>) -> StepView<
    SingleView<ProposalDetailedView>,
> {
    if answers.len() == 0 {
        StepView::Call(
            RequestView::FindOne {
                collection: Collection::Proposals,
                filter: FilterView::Id(proposal_id),
            },
        )
    } else {
        match answers[0] {
            AnswerView::One(found) => if answers.len() == 1 {
                StepView::Call(
                    RequestView::Find {
                        collection: Collection::Milestones,
                        filter: FilterView::Proposal(proposal_id),
                    },
                )
            } else {
                match answers[1] {
                    AnswerView::Many(records) => match shown_all(records, show_milestone()) {
                        Err(error) => StepView::Done(Err(error)),
                        Ok(milestones) => match found {
                            Some(RecordView::Proposal(proposal)) => StepView::Done(
                                Ok(success(shown_detailed_proposal(proposal, milestones))),
                            ),
                            Some(_) => StepView::Done(Err(unexpected())),
                            None => StepView::Done(Err(ErrorView::NotFoundError(proposal_id))),
                        },
                    },
                    other => StepView::Done(Err(query_failure(other))),
                }
            },
            other => StepView::Done(Err(query_failure(other))),
        }
    }
}

impl DB {
    /// Reads the configuration from the settings of the environment, given as
    /// pairs of a name and a value.
    pub fn init(settings: &Vec<(String, String)>) -> (db: Result<DB, MyError>)
        ensures
            match init_spec(settings@) {
                Ok(expected) => db is Ok && db->Ok_0@ == expected,
                Err(error) => db is Err && db->Err_0@ == error,
            },
    {
        reveal_with_fuel(first_missing, 10);
        let uri = required(settings, "DATABASE_URL")?;
        let database = required(settings, "MONGO_INIT_DATABASE")?;
        let clients_collection = required(settings, "MONGODB_CLIENTS_COLLECTION")?;
        let tasks_collection = required(settings, "MONGODB_TASKS_COLLECTION")?;
        let freelancers_collection = required(settings, "MONGODB_FREELANCERS_COLLECTION")?;
        let review_collection = required(settings, "MONGODB_REVIEW_COLLECTION")?;
        let proposals_collection = required(settings, "MONGODB_PROPOSALS_COLLECTION")?;
        let deals_collection = required(settings, "MONGODB_DEALS_COLLECTION")?;
        let milestones_collection = required(settings, "MONGODB_MILESTONES_COLLECTION")?;
        let review_key = match look_up(settings, REVIEW_KEY_SETTING) {
            Some(list) => crate::text::split_commas(list.as_str()),
            None => one_key(REVIEW_KEY_DEFAULT),
        };
        Ok(
            DB {
                uri,
                database,
                clients_collection,
                tasks_collection,
                freelancers_collection,
                review_collection,
                proposals_collection,
                deals_collection,
                milestones_collection,
                review_key,
            },
        )
    }

    /// Lists the tasks.
    pub fn fetch_tasks(&self, answers: &Vec<StoreResponse>) -> (step: Step<TaskListResponse>)
        ensures
            step@ == list_spec(
                Collection::Tasks,
                FilterView::All,
                show_task(),
                answer_views(answers@),
            ),
    {
        if answers.len() == 0 {
            return Step::Call(
                StoreRequest::Find { collection: Collection::Tasks, filter: Filter::All },
            );
        }
        let records = match &answers[0] {
            StoreResponse::Many(records) => records,
            other => {
                return Step::Done(Err(failed_query(other)));
            },
        };
        match show_tasks(records) {
            Ok(tasks) => {
                let list = TaskListResponse { status: SUCCESS, results: tasks.len(), tasks };
                assert(list@.items =~= task_views(list.tasks@));
                Step::Done(Ok(list))
            },
            Err(error) => Step::Done(Err(error)),
        }
    }

    /// Lists the clients.
    pub fn fetch_clients(&self, answers: &Vec<StoreResponse>) -> (step: Step<ClientListResponse>)
        ensures
            step@ == list_spec(
                Collection::Clients,
                FilterView::All,
                show_client(),
                answer_views(answers@),
            ),
    {
        if answers.len() == 0 {
            return Step::Call(
                StoreRequest::Find { collection: Collection::Clients, filter: Filter::All },
            );
        }
        let records = match &answers[0] {
            StoreResponse::Many(records) => records,
            other => {
                return Step::Done(Err(failed_query(other)));
            },
        };
        match show_clients(records) {
            Ok(users) => {
                let list = ClientListResponse { status: SUCCESS, results: users.len(), users };
                assert(list@.items =~= client_views(list.users@));
                Step::Done(Ok(list))
            },
            Err(error) => Step::Done(Err(error)),
        }
    }

    /// Lists the freelancers.
    pub fn fetch_freelancers(&self, answers: &Vec<StoreResponse>) -> (step: Step<FreelancerListResponse>)
        ensures
            step@ == list_spec(
                Collection::Freelancers,
                FilterView::All,
                show_freelancer(),
                answer_views(answers@),
            ),
    {
        if answers.len() == 0 {
            return Step::Call(
                StoreRequest::Find { collection: Collection::Freelancers, filter: Filter::All },
            );
        }
        let records = match &answers[0] {
            StoreResponse::Many(records) => records,
            other => {
                return Step::Done(Err(failed_query(other)));
            },
        };
        match show_freelancers(records) {
            Ok(users) => {
                let list = FreelancerListResponse { status: SUCCESS, results: users.len(), users };
                assert(list@.items =~= freelancer_views(list.users@));
                Step::Done(Ok(list))
            },
            Err(error) => Step::Done(Err(error)),
        }
    }

    /// Lists the proposals.
    pub fn fetch_proposals(&self, answers: &Vec<StoreResponse>) -> (step: Step<ProposalListResponse>)
        ensures
            step@ == list_spec(
                Collection::Proposals,
                FilterView::All,
                show_proposal(),
                answer_views(answers@),
            ),
    {
        if answers.len() == 0 {
            return Step::Call(
                StoreRequest::Find { collection: Collection::Proposals, filter: Filter::All },
            );
        }
        let records = match &answers[0] {
            StoreResponse::Many(records) => records,
            other => {
                return Step::Done(Err(failed_query(other)));
            },
        };
        match show_proposals(records) {
            Ok(proposals) => {
                let list = ProposalListResponse { status: SUCCESS, results: proposals.len(), proposals };
                assert(list@.items =~= proposal_views(list.proposals@));
                Step::Done(Ok(list))
            },
            Err(error) => Step::Done(Err(error)),
        }
    }

    /// Lists the milestones.
    pub fn fetch_milestones(&self, answers: &Vec<StoreResponse>) -> (step: Step<MilestoneListResponse>)
        ensures
            step@ == list_spec(
                Collection::Milestones,
                FilterView::All,
                show_milestone(),
                answer_views(answers@),
            ),
    {
        if answers.len() == 0 {
            return Step::Call(
                StoreRequest::Find { collection: Collection::Milestones, filter: Filter::All },
            );
        }
        let records = match &answers[0] {
            StoreResponse::Many(records) => records,
            other => {
                return Step::Done(Err(failed_query(other)));
            },
        };
        match show_milestones(records) {
            Ok(milestones) => {
                let list = MilestoneListResponse { status: SUCCESS, results: milestones.len(), milestones };
                assert(list@.items =~= milestone_views(list.milestones@));
                Step::Done(Ok(list))
            },
            Err(error) => Step::Done(Err(error)),
        }
    }

    /// Lists the deals.
    pub fn fetch_deals(&self, answers: &Vec<StoreResponse>) -> (step: Step<DealListResponse>)
        ensures
            step@ == list_spec(
                Collection::Deals,
                FilterView::All,
                show_deal(),
                answer_views(answers@),
            ),
    {
        if answers.len() == 0 {
            return Step::Call(
                StoreRequest::Find { collection: Collection::Deals, filter: Filter::All },
            );
        }
        let records = match &answers[0] {
            StoreResponse::Many(records) => records,
            other => {
                return Step::Done(Err(failed_query(other)));
            },
        };
        match show_deals(records) {
            Ok(deals) => {
                let list = DealListResponse { status: SUCCESS, results: deals.len(), deals };
                assert(list@.items =~= deal_views(list.deals@));
                Step::Done(Ok(list))
            },
            Err(error) => Step::Done(Err(error)),
        }
    }

    /// Lists the tasks that ask for `skill`, written exactly so.
    pub fn get_task(&self, skill: &str, answers: &Vec<StoreResponse>) -> (step: Step<
        TaskListResponse,
    >)
        ensures
            step@ == list_spec(
                Collection::Tasks,
                FilterView::Skill(skill@),
                show_task(),
                answer_views(answers@),
            ),
    {
        if answers.len() == 0 {
            return Step::Call(
                StoreRequest::Find {
                    collection: Collection::Tasks,
                    filter: Filter::Skill(String::from_str(skill)),
                },
            );
        }
        let records = match &answers[0] {
            StoreResponse::Many(records) => records,
            other => {
                return Step::Done(Err(failed_query(other)));
            },
        };
        match show_tasks(records) {
            Ok(tasks) => {
                let list = TaskListResponse { status: SUCCESS, results: tasks.len(), tasks };
                assert(list@.items =~= task_views(list.tasks@));
                Step::Done(Ok(list))
            },
            Err(error) => Step::Done(Err(error)),
        }
    }

    /// Registers a client.
    pub fn add_client(&self, body: &CreateClientSchema, answers: &Vec<StoreResponse>) -> (step:
        Step<SingleClientResponse>)
        ensures
            step@ == add_client_spec(body@, answer_views(answers@)),
    {
        let id = match allocate(Collection::Clients, answers, 0) {
            Step::Call(request) => {
                return Step::Call(request);
            },
            Step::Done(Err(error)) => {
                return Step::Done(Err(error));
            },
            Step::Done(Ok(id)) => id,
        };
        let description = copy_or_empty_text(&body.user.description);
        let task_ids = copy_or_empty(&body.task_ids);
        let document = match build_client_document(&body.user, id, description, task_ids) {
            Ok(document) => document,
            Err(error) => {
                return Step::Done(Err(error));
            },
        };
        let keys = Some(one_key("user_name"));
        match insert_and_read(Collection::Clients, keys, document, answers, 1) {
            Step::Call(request) => Step::Call(request),
            Step::Done(Err(error)) => Step::Done(Err(error)),
            Step::Done(Ok(Record::Client(found))) => match doc_to_client_response(&found) {
                Ok(client) => Step::Done(
                    Ok(SingleClientResponse { status: SUCCESS, data: ClientData { client } }),
                ),
                Err(error) => Step::Done(Err(error)),
            },
            Step::Done(Ok(_)) => Step::Done(Err(unexpected_answer())),
        }
    }

    /// Registers a freelancer.
    pub fn add_freelancer(
        &self,
        body: &CreateFreelancerSchema,
        answers: &Vec<StoreResponse>,
    ) -> (step: Step<SingleFreelancerResponse>)
        ensures
            step@ == add_freelancer_spec(body@, answer_views(answers@)),
    {
        let id = match allocate(Collection::Freelancers, answers, 0) {
            Step::Call(request) => {
                return Step::Call(request);
            },
            Step::Done(Err(error)) => {
                return Step::Done(Err(error));
            },
            Step::Done(Ok(id)) => id,
        };
        let description = copy_or_empty_text(&body.user.description);
        let skills = copy_or_empty(&body.skills);
        let document = match build_freelancer_document(&body.user, id, description, skills) {
            Ok(document) => document,
            Err(error) => {
                return Step::Done(Err(error));
            },
        };
        let keys = Some(one_key("user_name"));
        match insert_and_read(Collection::Freelancers, keys, document, answers, 1) {
            Step::Call(request) => Step::Call(request),
            Step::Done(Err(error)) => Step::Done(Err(error)),
            Step::Done(Ok(Record::Freelancer(found))) => match doc_to_freelancer_response(
                &found,
            ) {
                Ok(freelancer) => Step::Done(
                    Ok(
                        SingleFreelancerResponse {
                            status: SUCCESS,
                            data: FreelancerData { freelancer },
                        },
                    ),
                ),
                Err(error) => Step::Done(Err(error)),
            },
            Step::Done(Ok(_)) => Step::Done(Err(unexpected_answer())),
        }
    }

    /// Posts a task.
    pub fn create_task(&self, body: &CreateTaskSchema, answers: &Vec<StoreResponse>) -> (step:
        Step<SingleTaskResponse>)
        ensures
            step@ == create_task_spec(body@, answer_views(answers@)),
    {
        let id = match allocate(Collection::Tasks, answers, 0) {
            Step::Call(request) => {
                return Step::Call(request);
            },
            Step::Done(Err(error)) => {
                return Step::Done(Err(error));
            },
            Step::Done(Ok(id)) => id,
        };
        let document = match build_task_document(body, id) {
            Ok(document) => document,
            Err(error) => {
                return Step::Done(Err(error));
            },
        };
        match insert_and_read(Collection::Tasks, Some(one_key("title")), document, answers, 1) {
            Step::Call(request) => Step::Call(request),
            Step::Done(Err(error)) => Step::Done(Err(error)),
            Step::Done(Ok(Record::Task(found))) => match doc_to_task_response(&found) {
                Ok(task) => Step::Done(
                    Ok(SingleTaskResponse { status: SUCCESS, data: TaskData { task } }),
                ),
                Err(error) => Step::Done(Err(error)),
            },
            Step::Done(Ok(_)) => Step::Done(Err(unexpected_answer())),
        }
    }

    /// Leaves a review.
    pub fn add_review(&self, body: &CreateReviewSchema, answers: &Vec<StoreResponse>) -> (step:
        Step<SingleReviewResponse>)
        ensures
            step@ == add_review_spec(texts(self.review_key@), body@, answer_views(answers@)),
    {
        let id = match allocate(Collection::Reviews, answers, 0) {
            Step::Call(request) => {
                return Step::Call(request);
            },
            Step::Done(Err(error)) => {
                return Step::Done(Err(error));
            },
            Step::Done(Ok(id)) => id,
        };
        let document = match build_review_document(body, id) {
            Ok(document) => document,
            Err(error) => {
                return Step::Done(Err(error));
            },
        };
        let keys = if self.review_key.len() == 0 {
            None
        } else {
            Some(crate::text::copy_texts(&self.review_key))
        };
        match insert_and_read(Collection::Reviews, keys, document, answers, 1) {
            Step::Call(request) => Step::Call(request),
            Step::Done(Err(error)) => Step::Done(Err(error)),
            Step::Done(Ok(Record::Review(found))) => match doc_to_review_response(&found) {
                Ok(review) => Step::Done(
                    Ok(SingleReviewResponse { status: SUCCESS, data: ReviewData { review } }),
                ),
                Err(error) => Step::Done(Err(error)),
            },
            Step::Done(Ok(_)) => Step::Done(Err(unexpected_answer())),
        }
    }

    /// Submits a proposal.
    pub fn submit_proposal(
        &self,
        body: &CreateProposalSchema,
        answers: &Vec<StoreResponse>,
    ) -> (step: Step<SingleProposalResponse>)
        ensures
            step@ == submit_proposal_spec(body@, answer_views(answers@)),
    {
        let id = match allocate(Collection::Proposals, answers, 0) {
            Step::Call(request) => {
                return Step::Call(request);
            },
            Step::Done(Err(error)) => {
                return Step::Done(Err(error));
            },
            Step::Done(Ok(id)) => id,
        };
        let document = match build_proposal_document(body, id) {
            Ok(document) => document,
            Err(error) => {
                return Step::Done(Err(error));
            },
        };
        match insert_and_read(Collection::Proposals, None, document, answers, 1) {
            Step::Call(request) => Step::Call(request),
            Step::Done(Err(error)) => Step::Done(Err(error)),
            Step::Done(Ok(Record::Proposal(found))) => match doc_to_proposal_response(&found) {
                Ok(proposal) => Step::Done(
                    Ok(
                        SingleProposalResponse {
                            status: SUCCESS,
                            data: ProposalData { proposal },
                        },
                    ),
                ),
                Err(error) => Step::Done(Err(error)),
            },
            Step::Done(Ok(_)) => Step::Done(Err(unexpected_answer())),
        }
    }

    /// Attaches a settlement address to a deal.
    pub fn update_deal(
        &self,
        deal_id: &String,
        transaction_id: &String,
        answers: &Vec<StoreResponse>,
    ) -> (step: Step<SingleDealResponse>)
        ensures
            step@ == update_deal_spec(deal_id@, transaction_id@, answer_views(answers@)),
    {
        if answers.len() == 0 {
            return Step::Call(
                StoreRequest::FindOneAndUpdate {
                    collection: Collection::Deals,
                    filter: Filter::Id(deal_id.clone()),
                    update: Update::Address(transaction_id.clone()),
                },
            );
        }
        match changed(&answers[0], deal_id) {
            Ok(Record::Deal(found)) => match doc_to_deal_response(found) {
                Ok(deal) => Step::Done(
                    Ok(SingleDealResponse { status: SUCCESS, data: DealData { deal } }),
                ),
                Err(error) => Step::Done(Err(error)),
            },
            Ok(_) => Step::Done(Err(unexpected_answer())),
            Err(error) => Step::Done(Err(error)),
        }
    }

    /// Hands in the deliverable of a milestone.
    pub fn submit_milestone(
        &self,
        proposal_id: &String,
        milestone_id: &String,
        link: &String,
        answers: &Vec<StoreResponse>,
    ) -> (step: Step<SingleMilestoneResponse>)
        ensures
            step@ == submit_milestone_spec(
                proposal_id@,
                milestone_id@,
                link@,
                answer_views(answers@),
            ),
    {
        if answers.len() == 0 {
            return Step::Call(
                StoreRequest::FindOneAndUpdate {
                    collection: Collection::Milestones,
                    filter: Filter::Milestone {
                        proposal_id: proposal_id.clone(),
                        milestone_id: milestone_id.clone(),
                    },
                    update: Update::Link(link.clone()),
                },
            );
        }
        match changed(&answers[0], proposal_id) {
            Ok(Record::Milestone(found)) => match doc_to_milestone_response(found) {
                Ok(milestone) => Step::Done(
                    Ok(
                        SingleMilestoneResponse {
                            status: SUCCESS,
                            data: MilestoneData { milestone },
                        },
                    ),
                ),
                Err(error) => Step::Done(Err(error)),
            },
            Ok(_) => Step::Done(Err(unexpected_answer())),
            Err(error) => Step::Done(Err(error)),
        }
    }

    /// Records on a deal which milestone was delivered, and where.
    pub fn submit_milestones(
        &self,
        deal_id: &String,
        milestone_id: &String,
        link: &String,
        answers: &Vec<StoreResponse>,
    ) -> (step: Step<SingleDealResponse>)
        ensures
            step@ == submit_milestones_spec(
                deal_id@,
                milestone_id@,
                link@,
                answer_views(answers@),
            ),
    {
        if answers.len() == 0 {
            return Step::Call(
                StoreRequest::FindOneAndUpdate {
                    collection: Collection::Deals,
                    filter: Filter::Id(deal_id.clone()),
                    update: Update::Delivery {
                        milestone_id: milestone_id.clone(),
                        link: link.clone(),
                    },
                },
            );
        }
        match changed(&answers[0], deal_id) {
            Ok(Record::Deal(found)) => match doc_to_deal_response(found) {
                Ok(deal) => Step::Done(
                    Ok(SingleDealResponse { status: SUCCESS, data: DealData { deal } }),
                ),
                Err(error) => Step::Done(Err(error)),
            },
            Ok(_) => Step::Done(Err(unexpected_answer())),
            Err(error) => Step::Done(Err(error)),
        }
    }

    /// Accepts a proposal and makes the deal.
    pub fn approve_proposal(&self, proposal_id: &String, answers: &Vec<StoreResponse>) -> (step:
        Step<SingleProposalDealResponse>)
        ensures
            step@ == approve_proposal_spec(proposal_id@, answer_views(answers@)),
    {
        if answers.len() == 0 {
            return Step::Call(
                StoreRequest::FindOneAndUpdate {
                    collection: Collection::Proposals,
                    filter: Filter::Pending(proposal_id.clone()),
                    update: Update::Accept,
                },
            );
        }
        match &answers[0] {
            StoreResponse::One(Some(Record::Proposal(accepted))) => {
                let (proposal, partial_deal) = match doc_to_proposal_and_deal_response(accepted) {
                    Ok(pair) => pair,
                    Err(error) => {
                        return Step::Done(Err(error));
                    },
                };
                match store_deal(&partial_deal, answers, 1) {
                    Step::Call(request) => Step::Call(request),
                    Step::Done(Err(error)) => Step::Done(Err(error)),
                    Step::Done(Ok(deal)) => Step::Done(
                        Ok(
                            SingleProposalDealResponse {
                                status: SUCCESS,
                                data: ProposalDealData { proposal, deal },
                            },
                        ),
                    ),
                }
            },
            StoreResponse::One(Some(_)) => Step::Done(Err(unexpected_answer())),
            StoreResponse::One(None) => {
                if answers.len() == 1 {
                    return Step::Call(
                        StoreRequest::FindOne {
                            collection: Collection::Proposals,
                            filter: Filter::Id(proposal_id.clone()),
                        },
                    );
                }
                match &answers[1] {
                    StoreResponse::One(Some(_)) => Step::Done(
                        Err(MyError::MongoDuplicateError(proposal_id.clone())),
                    ),
                    StoreResponse::One(None) => Step::Done(
                        Err(MyError::NotFoundError(proposal_id.clone())),
                    ),
                    other => Step::Done(Err(failed_query(other))),
                }
            },
            other => Step::Done(Err(failed_query(other))),
        }
    }

    /// Logs a user in.
    pub fn api_login(&self, body: &LoginUserSchema, answers: &Vec<StoreResponse>) -> (step: Step<
        SingleUserResponse,
    >)
        ensures
            step@ == api_login_spec(body@, answer_views(answers@)),
    {
        let collection = if constant_time_eq(body.role.as_str(), "client") {
            Collection::Clients
        } else if constant_time_eq(body.role.as_str(), "freelancer") {
            Collection::Freelancers
        } else {
            return Step::Done(Err(MyError::InvalidRoleError));
        };
        if answers.len() == 0 {
            return Step::Call(
                StoreRequest::FindOne {
                    collection,
                    filter: Filter::UserName(body.user_name.clone()),
                },
            );
        }
        let stored = match &answers[0] {
            StoreResponse::One(Some(Record::Client(client))) => match collection {
                Collection::Clients => &client.user,
                _ => {
                    return Step::Done(Err(unexpected_answer()));
                },
            },
            StoreResponse::One(Some(Record::Freelancer(freelancer))) => match collection {
                Collection::Freelancers => &freelancer.user,
                _ => {
                    return Step::Done(Err(unexpected_answer()));
                },
            },
            StoreResponse::One(Some(_)) => {
                return Step::Done(Err(unexpected_answer()));
            },
            StoreResponse::One(None) => {
                return Step::Done(Err(MyError::NotFoundError(body.user_name.clone())));
            },
            other => {
                return Step::Done(Err(failed_query(other)));
            },
        };
        let user = match doc_to_user_response(stored) {
            Ok(user) => user,
            Err(error) => {
                return Step::Done(Err(error));
            },
        };
        if constant_time_eq(user.password.as_str(), body.password.as_str()) {
            Step::Done(Ok(SingleUserResponse { status: SUCCESS, data: UserData { user } }))
        } else {
            Step::Done(Err(MyError::InvalidPasswordError))
        }
    }

    /// Shows a proposal with its milestones.
    pub fn get_proposal(&self, proposal_id: &str, answers: &Vec<StoreResponse>) -> (step: Step<
        SingleProposalDetailedResponse,
    >)
        ensures
            step@ == get_proposal_spec(proposal_id@, answer_views(answers@)),
    {
        if answers.len() == 0 {
            return Step::Call(
                StoreRequest::FindOne {
                    collection: Collection::Proposals,
                    filter: Filter::Id(String::from_str(proposal_id)),
                },
            );
        }
        let found = match &answers[0] {
            StoreResponse::One(found) => found,
            other => {
                return Step::Done(Err(failed_query(other)));
            },
        };
        if answers.len() == 1 {
            return Step::Call(
                StoreRequest::Find {
                    collection: Collection::Milestones,
                    filter: Filter::Proposal(String::from_str(proposal_id)),
                },
            );
        }
        let records = match &answers[1] {
            StoreResponse::Many(records) => records,
            other => {
                return Step::Done(Err(failed_query(other)));
            },
        };
        let milestones = match show_milestones(records) {
            Ok(milestones) => milestones,
            Err(error) => {
                return Step::Done(Err(error));
            },
        };
        match found {
            Some(Record::Proposal(proposal)) => {
                assert(crate::response::milestone_views(milestones@) =~= milestone_views(
                    milestones@,
                ));
                match doc_to_detailed_proposal_response(proposal, milestones) {
                    Ok(detailed_proposal) => Step::Done(
                        Ok(
                            SingleProposalDetailedResponse {
                                status: SUCCESS,
                                data: ProposalDetailedData { detailed_proposal },
                            },
                        ),
                    ),
                    Err(error) => Step::Done(Err(error)),
                }
            },
            Some(_) => Step::Done(Err(unexpected_answer())),
            None => Step::Done(Err(MyError::NotFoundError(String::from_str(proposal_id)))),
        }
    }

    /// Attaches milestones to a proposal.
    pub fn add_milestones(
        &self,
        body: &Vec<CreateMilestoneSchema>,
        answers: &Vec<StoreResponse>,
    ) -> (step: Step<SingleProposalResponse>)
        ensures
            step@ == add_milestones_spec(batch_view(body@), answer_views(answers@)),
    {
        if body.len() == 0 {
            return Step::Done(Err(MyError::InvalidIDError(String::new())));
        }
        match find_other_proposal(body) {
            Some(other) => {
                return Step::Done(Err(MyError::InvalidIDError(other)));
            },
            None => {},
        }
        let proposal_id = &body[0].proposal_id;
        proof {
            assert(batch_view(body@)[0] == body@[0]@);
        }
        if answers.len() == 0 {
            return Step::Call(
                StoreRequest::FindOne {
                    collection: Collection::Proposals,
                    filter: Filter::Id(proposal_id.clone()),
                },
            );
        }
        let proposal = match &answers[0] {
            StoreResponse::One(Some(Record::Proposal(proposal))) => proposal,
            StoreResponse::One(Some(_)) => {
                return Step::Done(Err(unexpected_answer()));
            },
            StoreResponse::One(None) => {
                return Step::Done(Err(MyError::NotFoundError(proposal_id.clone())));
            },
            other => {
                return Step::Done(Err(failed_query(other)));
            },
        };
        if answers.len() == 1 {
            return Step::Call(
                StoreRequest::Find {
                    collection: Collection::Milestones,
                    filter: Filter::Proposal(proposal_id.clone()),
                },
            );
        }
        let records = match &answers[1] {
            StoreResponse::Many(records) => records,
            other => {
                return Step::Done(Err(failed_query(other)));
            },
        };
        proof {
            assert(record_views(records@).len() == records.len());
        }
        if !are_first_milestones(records, body) {
            return Step::Done(Err(MyError::MongoDuplicateError(proposal_id.clone())));
        }
        let ids = collect_ids(records);
        if is_funded(proposal) {
            let same = records.len() == body.len() && match sum_prices(body) {
                Ok(price) => has_attached(proposal, &ids, price as u64),
                Err(_) => false,
            };
            if !same {
                return Step::Done(Err(MyError::MongoDuplicateError(proposal_id.clone())));
            }
            return match doc_to_proposal_response(proposal) {
                Ok(proposal) => Step::Done(
                    Ok(
                        SingleProposalResponse {
                            status: SUCCESS,
                            data: ProposalData { proposal },
                        },
                    ),
                ),
                Err(error) => Step::Done(Err(error)),
            };
        }
        if records.len() < body.len() {
            return store_rest(body, ids, answers, 2);
        }
        attach(body, ids, answers, 2)
    }

    /// Stores a deal and shows it.
    pub fn add_deal(&self, partial_deal: &PartialDealResponse, answers: &Vec<StoreResponse>) -> (step:
        Step<DealResponse>)
        ensures
            step@ == add_deal_spec(partial_deal@, answer_views(answers@), 0),
    {
        store_deal(partial_deal, answers, 0)
    }
}

/// Stores a deal and shows it, where the answer to the first call is the one
/// at `from`.
fn store_deal(partial_deal: &PartialDealResponse, answers: &Vec<StoreResponse>, from: usize) -> (step:
    Step<DealResponse>)
    requires
        from <= 1,
    ensures
        step@ == add_deal_spec(partial_deal@, answer_views(answers@), from as int),
{
    let id = match allocate(Collection::Deals, answers, from) {
        Step::Call(request) => {
            return Step::Call(request);
        },
        Step::Done(Err(error)) => {
            return Step::Done(Err(error));
        },
        Step::Done(Ok(id)) => id,
    };
    let document = match build_deal_document(id, partial_deal) {
        Ok(document) => document,
        Err(error) => {
            return Step::Done(Err(error));
        },
    };
    match insert_and_read(Collection::Deals, None, document, answers, from + 1) {
        Step::Call(request) => Step::Call(request),
        Step::Done(Err(error)) => Step::Done(Err(error)),
        Step::Done(Ok(Record::Deal(found))) => Step::Done(
            docs_to_deal_response(&found, partial_deal),
        ),
        Step::Done(Ok(_)) => Step::Done(Err(unexpected_answer())),
    }
}

} // verus!
