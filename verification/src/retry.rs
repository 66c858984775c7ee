//! What becomes of a request that asks for what is there already. Attaching
//! the same milestones twice: the second request is answered as the first
//! was, and stores nothing. Attaching other milestones, accepting a proposal
//! twice, registering under a name that is taken, posting under a title that
//! is taken: the request is refused, and no document is stored or changed.
use crate::concurrent::lemma_pending_is_not_accepted;
use crate::conduct::{lemma_add_milestones_is_careful, lemma_one_proposal, let_in, milestones_known};
use crate::db::{
    add_client_spec, add_freelancer_spec, add_milestones_spec, approve_proposal_spec, attach_spec,
    begins, client_document, create_task_spec, freelancer_document, has_batch, has_milestones,
    ids_of, other_proposal, same_milestones, store_rest_spec, task_document, total_price,
};
use crate::document::{FieldValue, lemma_field_names};
use crate::error::ErrorView;
use crate::handler::{AppView, AskView, BodyView, failure, PayloadView, ServedView};
use crate::laws::{
    accepted_proposal, both, consistent, found, Known, lemma_careful_both, lemma_careful_run,
    lemma_first_passing_is_there, lemma_found_stays, lemma_perform_follows,
    lemma_reading_changes_nothing, lemma_reserving_keeps, lemma_run_ends, lemma_with_records,
    names_key, records_kept, run_answers, same_documents, title_key,
};
use crate::memory::{
    agree, clash, first_passing, has_index, IndexView, MOST_CALLS, passing, run_from, run_spec,
    script_of, StoreView,
};
use crate::reading::{
    lemma_client_reads_back, lemma_freelancer_reads_back, lemma_milestone_reads_back,
    lemma_task_reads_back, record_of_fields, stored_milestone,
};
use crate::response::{
    ClientResponseView, FreelancerResponseView, ProposalDealView, ProposalResponseView, SingleView,
    success, TaskResponseView,
};
use crate::runs::{
    attached_known, lemma_accepted_has_its_deal, lemma_attached_goes_on, lemma_run_ends_well,
    lemma_run_is_consistent,
};
use crate::schema::{CreateClientView, CreateFreelancerView, CreateMilestoneView, CreateTaskView};
use crate::steps::{DUPLICATE_KEY, text_or_empty};
use crate::store::{
    AnswerView, Collection, FilterView, RecordView, RequestView, StepView, UpdateView,
};
use crate::text::{decimal_spec, occurs_at};
use crate::utils::{
    batch_documents, LARGEST_NUMBER, milestone_fields, prices_can_be_stored, shown_proposal,
    texts_or_none,
};
use vstd::prelude::*;

verus! {

/// Storing a batch in one collection leaves the others as they are.
pub proof fn lemma_insert_all_elsewhere(
    store: StoreView,
    collection: Collection,
    batch: Seq<Map<Seq<char>, FieldValue>>,
    done: int,
    other: Collection,
)
    requires
        other != collection,
    ensures
        store.insert_all(collection, batch, done).0.records(other) == store.records(other),
    decreases done,
{
    if done > 0 {
        lemma_insert_all_elsewhere(store, collection, batch, done - 1, other);
        let before = store.insert_all(collection, batch, done - 1).0;
        if let Some(record) = record_of_fields(collection, batch[done - 1]) {
            lemma_with_records(before, collection, before.records(collection).push(record));
        }
    }
}

/// The first milestones of a batch as they are stored, under the
/// identifiers that follow `count`.
pub open spec fn stored_batch(batch: Seq<CreateMilestoneView>, count: u64, done: int) -> Seq<
    RecordView,
> {
    Seq::new(
        done as nat,
        |k: int|
            RecordView::Milestone(
                stored_milestone(batch[k], decimal_spec((count + 1 + k) as nat)),
            ),
    )
}

/// Once milestones have been stored for a proposal, the milestones that
/// name the proposal are those that did before, and after them the new ones,
/// in their order and under the identifiers that the store gave.
pub proof fn lemma_batch_is_listed(
    store: StoreView,
    batch: Seq<CreateMilestoneView>,
    count: u64,
    done: int,
    id: Seq<char>,
)
    requires
        prices_can_be_stored(batch),
        0 <= done <= batch.len(),
        forall|k: int| 0 <= k < batch.len() ==> (#[trigger] batch[k]).proposal_id == id,
        store.insert_all(Collection::Milestones, batch_documents(batch, count), done).1 is Ok,
    ensures
        passing(
            store.insert_all(Collection::Milestones, batch_documents(batch, count), done).0.milestones,
            FilterView::Proposal(id),
        ) == passing(store.milestones, FilterView::Proposal(id)) + stored_batch(batch, count, done),
        store.insert_all(Collection::Milestones, batch_documents(batch, count), done).1->Ok_0
            == ids_of(stored_batch(batch, count, done)),
    decreases done,
{
    let documents = batch_documents(batch, count);
    let filter = FilterView::Proposal(id);
    let kept = passing(store.milestones, filter);
    if done == 0 {
        assert(kept =~= kept + stored_batch(batch, count, 0));
        assert(Seq::<Seq<char>>::empty() =~= ids_of(stored_batch(batch, count, 0)));
    } else {
        let (before, earlier) = store.insert_all(Collection::Milestones, documents, done - 1);
        let (after, answer) = before.insert(Collection::Milestones, documents[done - 1]);
        lemma_batch_is_listed(store, batch, count, done - 1, id);
        let new_id = decimal_spec((count + 1 + (done - 1)) as nat);
        let milestone = stored_milestone(batch[done - 1], new_id);
        lemma_milestone_reads_back(batch[done - 1], new_id);
        assert(documents[done - 1] == milestone_fields(batch[done - 1], new_id));
        let record = RecordView::Milestone(milestone);
        assert(answer == AnswerView::Inserted(new_id));
        let old = before.records(Collection::Milestones);
        assert(after.milestones == old.push(record));
        assert(old.push(record).drop_last() =~= old);
        assert(old.push(record).last() == record);
        lemma_field_names();
        assert(record.passes(filter)) by {
            assert(batch[done - 1].proposal_id == id);
        }
        assert(passing(after.milestones, filter) == passing(old, filter).push(record));
        assert((kept + stored_batch(batch, count, done - 1)).push(record) =~= kept + stored_batch(
            batch,
            count,
            done,
        ));
        assert(earlier->Ok_0.push(new_id) =~= ids_of(stored_batch(batch, count, done)));
    }
}

/// When the store is asked to attach milestones to the proposal of an
/// identifier, the milestones are left as they are; and the proposal that
/// the store gives back is then the proposal of this identifier.
pub proof fn lemma_attached_is_found(
    store: StoreView,
    id: Seq<char>,
    update: UpdateView,
)
    ensures
        store.perform(
            RequestView::FindOneAndUpdate {
                collection: Collection::Proposals,
                filter: FilterView::Id(id),
                update,
            },
        ).0.milestones == store.milestones,
        store.perform(
            RequestView::FindOneAndUpdate {
                collection: Collection::Proposals,
                filter: FilterView::Id(id),
                update,
            },
        ).1 matches AnswerView::One(Some(record)) ==> found(
            store.perform(
                RequestView::FindOneAndUpdate {
                    collection: Collection::Proposals,
                    filter: FilterView::Id(id),
                    update,
                },
            ).0.proposals,
            id,
        ) == Some(record),
{
    let request = RequestView::FindOneAndUpdate {
        collection: Collection::Proposals,
        filter: FilterView::Id(id),
        update,
    };
    let (after, answer) = store.perform(request);
    let records = store.records(Collection::Proposals);
    assert(records == store.proposals);
    if let AnswerView::One(Some(record)) = answer {
        lemma_first_passing_is_there(records, FilterView::Id(id), 0);
        let at = first_passing(records, FilterView::Id(id), 0)->0;
        assert(after.proposals == records.update(at, record));
        lemma_with_records(store, Collection::Proposals, records.update(at, record));
        lemma_perform_follows(store, request);
        assert(records_kept(
            store.records(Collection::Proposals),
            after.records(Collection::Proposals),
        ));
        lemma_found_stays(store.proposals, after.proposals, id);
    }
}

/// Whether the store has answered to the attaching of the milestones of the
/// batch.
pub open spec fn is_answered(batch: Seq<CreateMilestoneView>, answers: Seq<AnswerView>) -> bool {
    answers.len() >= 2 && (answers[1] matches AnswerView::Many(records) && (if records.len()
        < batch.len() {
        answers.len() >= 5
    } else {
        answers.len() >= 3
    }))
}

/// What is known of the store while milestones are attached, as long as
/// nobody else is served: the proposal is as the store last gave it, and the
/// milestones that name it are those that the store listed, or those of the
/// batch once the batch is stored.
pub open spec fn settled_known(batch: Seq<CreateMilestoneView>) -> Known {
    |store: StoreView, answers: Seq<AnswerView>|
        {
            let id = batch[0].proposal_id;
            let listed = passing(store.milestones, FilterView::Proposal(id));
            &&& answers.len() > 0 ==> add_milestones_spec(batch, answers.drop_last()) is Call
            &&& answers.len() >= 1 && !is_answered(batch, answers) ==> (
            answers[0] matches AnswerView::One(Some(record)) ==> found(store.proposals, id) == Some(
                record,
            ))
            &&& is_answered(batch, answers) ==> ((if answers[1]->Many_0.len() < batch.len() {
                answers[4]
            } else {
                answers[2]
            }) matches AnswerView::One(Some(record)) ==> found(store.proposals, id) == Some(
                record,
            ))
            &&& answers.len() >= 2 ==> (answers[1] matches AnswerView::Many(records) ==> (
            records.len() >= batch.len() || answers.len() <= 3 ==> listed == records))
            &&& answers.len() >= 4 ==> (answers[1] matches AnswerView::Many(records) ==> (
            records.len() < batch.len() && begins(records, batch) ==> (
            answers[3] matches AnswerView::InsertedMany(ids) ==> same_milestones(listed, batch)
                && ids_of(listed) == ids_of(records) + ids)))
        }
}

/// Whether the store holds the milestones of the batch, and no others, for
/// the proposal that the batch names, and the proposal has them for its
/// milestones and the sum of their prices for its price, and is shown as
/// `shown`.
pub open spec fn holds_batch(
    store: StoreView,
    batch: Seq<CreateMilestoneView>,
    shown: SingleView<ProposalResponseView>,
) -> bool {
    let id = batch[0].proposal_id;
    let listed = passing(store.milestones, FilterView::Proposal(id));
    &&& batch.len() > 0
    &&& other_proposal(batch) is None
    &&& total_price(batch) <= LARGEST_NUMBER
    &&& same_milestones(listed, batch)
    &&& found(store.proposals, id) matches Some(RecordView::Proposal(proposal))
        && proposal.milestones_id == Some(ids_of(listed)) && proposal.proposal_price
        == total_price(batch) && shown == success(shown_proposal(proposal))
}

/// What is known of the store while milestones are attached is still known
/// after the next call, as long as nobody else is served.
proof fn lemma_settled_goes_on(
    store: StoreView,
    state: AppView,
    batch: Seq<CreateMilestoneView>,
    cookie: Option<Seq<char>>,
    now: u64,
    answers: Seq<AnswerView>,
)
    requires
        consistent(store),
        milestones_known(batch)(store, answers),
        settled_known(batch)(store, answers),
        script_of(state, AskView::AddMilestones(batch), cookie, now)(answers) is Call,
    ensures
        settled_known(batch)(
            store.perform(
                script_of(state, AskView::AddMilestones(batch), cookie, now)(answers)->Call_0,
            ).0,
            answers.push(
                store.perform(
                    script_of(state, AskView::AddMilestones(batch), cookie, now)(answers)->Call_0,
                ).1,
            ),
        ),
{
    let script = script_of(state, AskView::AddMilestones(batch), cookie, now);
    let request = script(answers)->Call_0;
    let (after, answer) = store.perform(request);
    let more = answers.push(answer);
    let id = batch[0].proposal_id;
    assert(add_milestones_spec(batch, answers) is Call);
    assert(request == add_milestones_spec(batch, answers)->Call_0);
    assert(more.drop_last() =~= answers);
    assert forall|k: int| 0 <= k < answers.len() implies more[k] == answers[k] by {}
    assert(more[answers.len() as int] == answer);
    assert(store.records(Collection::Proposals) == store.proposals);
    assert(store.records(Collection::Milestones) == store.milestones);
    if answers.len() <= 1 {
        lemma_reading_changes_nothing(store, request);
    } else {
        let records = answers[1]->Many_0;
        if records.len() < batch.len() {
            let rest = batch.skip(records.len() as int);
            assert(request == store_rest_spec(batch, ids_of(records), answers, 2)->Call_0);
            if answers.len() == 2 {
                lemma_reserving_keeps(store, request);
            } else if answers.len() == 3 {
                let count = answers[2]->Count_0;
                let documents = batch_documents(rest, count);
                lemma_insert_all_elsewhere(
                    store,
                    Collection::Milestones,
                    documents,
                    rest.len() as int,
                    Collection::Proposals,
                );
                assert(after.records(Collection::Proposals) == after.proposals);
                if answer is InsertedMany {
                    assert forall|k: int| 0 <= k < rest.len() implies (#[trigger] rest[k]).proposal_id
                        == id by {
                        lemma_one_proposal(batch, 0, records.len() + k);
                    }
                    lemma_batch_is_listed(store, rest, count, rest.len() as int, id);
                    let new = stored_batch(rest, count, rest.len() as int);
                    assert(ids_of(records + new) =~= ids_of(records) + ids_of(new));
                }
            } else {
                let ids = ids_of(records) + answers[3]->InsertedMany_0;
                assert(request == attach_spec(batch, ids, answers, 4)->Call_0);
                assert(answers.skip(4).len() == answers.len() - 4);
                lemma_attached_is_found(
                    store,
                    id,
                    UpdateView::Milestones { ids, price: total_price(batch) as i64 },
                );
            }
        } else {
            assert(request == attach_spec(batch, ids_of(records), answers, 2)->Call_0);
            assert(answers.skip(2).len() == answers.len() - 2);
            lemma_attached_is_found(
                store,
                id,
                UpdateView::Milestones { ids: ids_of(records), price: total_price(batch) as i64 },
            );
        }
    }
}

/// Once milestones have been attached to a proposal, the store holds the
/// milestones of the batch, and no others, for this proposal; and the
/// proposal has them for its milestones, and the sum of their prices for its
/// price, and is the proposal that was shown.
pub proof fn lemma_attached_is_stored(
    store: StoreView,
    state: AppView,
    batch: Seq<CreateMilestoneView>,
    cookie: Option<Seq<char>>,
    now: u64,
)
    requires
        consistent(store),
    ensures
        run_spec(store, state, AskView::AddMilestones(batch), cookie, now).1.payload
            matches PayloadView::Data(BodyView::Proposal(shown)) ==> holds_batch(
            run_spec(store, state, AskView::AddMilestones(batch), cookie, now).0,
            batch,
            shown,
        ) && let_in(state, AskView::AddMilestones(batch), cookie, now) && consistent(
            run_spec(store, state, AskView::AddMilestones(batch), cookie, now).0,
        ),
{
    let ask = AskView::AddMilestones(batch);
    let script = script_of(state, ask, cookie, now);
    let first = milestones_known(batch);
    let second = |store: StoreView, answers: Seq<AnswerView>|
        attached_known(batch)(store, answers) && settled_known(batch)(store, answers);
    lemma_add_milestones_is_careful(state, batch, cookie, now);
    assert forall|store: StoreView, answers: Seq<AnswerView>|
        #![trigger second(store, answers)]
        consistent(store) && first(store, answers) && second(store, answers) && script(answers)
            is Call implies second(
        store.perform(script(answers)->Call_0).0,
        answers.push(store.perform(script(answers)->Call_0).1),
    ) by {
        lemma_attached_goes_on(store, state, batch, cookie, now, answers);
        lemma_settled_goes_on(store, state, batch, cookie, now, answers);
    }
    lemma_careful_both(script, first, second);
    let calls = MOST_CALLS as nat;
    let none = Seq::<AnswerView>::empty();
    lemma_careful_run(store, script, both(first, second), none, calls);
    lemma_run_ends(store, script, none, calls);
    let (after, reply) = run_from(store, script, none, calls);
    let last = run_answers(store, script, none, calls);
    if let PayloadView::Data(BodyView::Proposal(shown)) = reply.payload {
        assert(script(last) == ServedView::Done(reply));
        assert(add_milestones_spec(batch, last) matches StepView::Done(Ok(_)));
        assert(first(after, last));
        assert(second(after, last));
        assert(after.records(Collection::Proposals) == after.proposals);
        let records = last[1]->Many_0;
        let early = last.drop_last();
        if records.len() < batch.len() {
            assert(store_rest_spec(batch, ids_of(records), last, 2) matches StepView::Done(Ok(_)));
            assert(last.skip(4).len() == last.len() - 4);
            assert(last.skip(4)[0] == last[4]);
        } else if add_milestones_spec(batch, last) != attach_spec(batch, ids_of(records), last, 2) {
            if last.len() >= 3 {
                assert(early[0] == last[0]);
                assert(early[1] == last[1]);
                assert(add_milestones_spec(batch, early) is Done);
            }
        } else {
            assert(last.skip(2).len() == last.len() - 2);
            assert(last.skip(2)[0] == last[2]);
        }
    }
}

/// Attaching the same milestones once more, whoever asks and whenever, is
/// answered as it was the first time, and leaves the store as it is: nothing
/// is stored twice.
pub proof fn lemma_same_batch_once_more(
    store: StoreView,
    state: AppView,
    batch: Seq<CreateMilestoneView>,
    cookie: Option<Seq<char>>,
    now: u64,
    session: Option<Seq<char>>,
    later: u64,
)
    requires
        consistent(store),
        run_spec(store, state, AskView::AddMilestones(batch), cookie, now).1.payload is Data,
        let_in(state, AskView::AddMilestones(batch), session, later),
    ensures
        run_spec(
            run_spec(store, state, AskView::AddMilestones(batch), cookie, now).0,
            state,
            AskView::AddMilestones(batch),
            session,
            later,
        ) == run_spec(store, state, AskView::AddMilestones(batch), cookie, now),
{
    let ask = AskView::AddMilestones(batch);
    let (after, reply) = run_spec(store, state, ask, cookie, now);
    lemma_attached_is_stored(store, state, batch, cookie, now);
    lemma_run_ends(store, script_of(state, ask, cookie, now), Seq::empty(), MOST_CALLS as nat);
    let last = run_answers(store, script_of(state, ask, cookie, now), Seq::empty(), MOST_CALLS as nat);
    assert(script_of(state, ask, cookie, now)(last) == ServedView::Done(reply));
    assert(reply.payload is Data);
    let shown = reply.payload->Data_0->Proposal_0;
    assert(holds_batch(after, batch, shown));
    lemma_holding_is_shown(after, state, batch, shown, session, later);
    assert(add_milestones_spec(batch, last) == StepView::Done(Ok(shown)));
}

/// Where the store holds the milestones of a batch for its proposal, and
/// the proposal has them, attaching the batch shows the proposal as it is and
/// leaves the store as it is.
pub proof fn lemma_holding_is_shown(
    store: StoreView,
    state: AppView,
    batch: Seq<CreateMilestoneView>,
    shown: SingleView<ProposalResponseView>,
    session: Option<Seq<char>>,
    later: u64,
)
    requires
        holds_batch(store, batch, shown),
        let_in(state, AskView::AddMilestones(batch), session, later),
    ensures
        run_spec(store, state, AskView::AddMilestones(batch), session, later).0 == store,
        script_of(state, AskView::AddMilestones(batch), session, later)(
            seq![
                AnswerView::One(found(store.proposals, batch[0].proposal_id)),
                AnswerView::Many(
                    passing(store.milestones, FilterView::Proposal(batch[0].proposal_id)),
                ),
            ],
        ) == ServedView::Done(
            run_spec(store, state, AskView::AddMilestones(batch), session, later).1,
        ),
        add_milestones_spec(
            batch,
            seq![
                AnswerView::One(found(store.proposals, batch[0].proposal_id)),
                AnswerView::Many(
                    passing(store.milestones, FilterView::Proposal(batch[0].proposal_id)),
                ),
            ],
        ) == StepView::Done(Ok(shown)),
{
    let ask = AskView::AddMilestones(batch);
    let id = batch[0].proposal_id;
    let script = script_of(state, ask, session, later);
    let none = Seq::<AnswerView>::empty();
    let look = RequestView::FindOne { collection: Collection::Proposals, filter: FilterView::Id(id) };
    let list = RequestView::Find {
        collection: Collection::Milestones,
        filter: FilterView::Proposal(id),
    };
    assert(store.records(Collection::Proposals) == store.proposals);
    assert(store.records(Collection::Milestones) == store.milestones);
    assert(add_milestones_spec(batch, none) == StepView::<
        SingleView<ProposalResponseView>,
    >::Call(look));
    assert(script(none) == ServedView::<BodyView>::Call(look));
    let first = store.perform(look).1;
    assert(first == AnswerView::One(found(store.proposals, id)));
    let one = none.push(first);
    assert(one[0] == first);
    assert(add_milestones_spec(batch, one) == StepView::<
        SingleView<ProposalResponseView>,
    >::Call(list));
    assert(script(one) == ServedView::<BodyView>::Call(list));
    let second = store.perform(list).1;
    let two = one.push(second);
    assert(two[0] == first);
    assert(two[1] == second);
    assert(two =~= seq![first, second]);
    assert(add_milestones_spec(batch, two) == StepView::Done(Ok(shown)));
    assert(script(two) is Done);
    reveal_with_fuel(run_from, 4);
    assert(run_spec(store, state, ask, session, later) == (store, script(two)->Done_0));
}

/// Where there is no proposal of the identifier that a batch names, the
/// request fails as one for something that is not there, and nothing is
/// stored.
pub proof fn lemma_no_proposal_no_milestones(
    store: StoreView,
    state: AppView,
    batch: Seq<CreateMilestoneView>,
    session: Option<Seq<char>>,
    later: u64,
)
    requires
        batch.len() > 0,
        other_proposal(batch) is None,
        found(store.proposals, batch[0].proposal_id) is None,
        let_in(state, AskView::AddMilestones(batch), session, later),
    ensures
        run_spec(store, state, AskView::AddMilestones(batch), session, later) == (
            store,
            failure::<BodyView>(ErrorView::NotFoundError(batch[0].proposal_id)),
        ),
{
    let ask = AskView::AddMilestones(batch);
    let id = batch[0].proposal_id;
    let script = script_of(state, ask, session, later);
    let none = Seq::<AnswerView>::empty();
    let look = RequestView::FindOne { collection: Collection::Proposals, filter: FilterView::Id(id) };
    assert(store.records(Collection::Proposals) == store.proposals);
    assert(add_milestones_spec(batch, none) == StepView::<SingleView<ProposalResponseView>>::Call(
        look,
    ));
    assert(script(none) == ServedView::<BodyView>::Call(look));
    let first = store.perform(look).1;
    let one = none.push(first);
    assert(one[0] == first);
    assert(add_milestones_spec(batch, one) == StepView::<SingleView<ProposalResponseView>>::Done(
        Err(ErrorView::NotFoundError(id)),
    ));
    assert(script(one) == ServedView::Done(failure::<BodyView>(ErrorView::NotFoundError(id))));
    reveal_with_fuel(run_from, 3);
}

/// Where the milestones that are stored for a proposal are not the first of
/// a batch, or milestones are attached to the proposal and they are not
/// those of the batch, attaching the batch is refused, and the store is left
/// as it is: milestones are attached to a proposal once.
pub proof fn lemma_other_batch_is_refused(
    store: StoreView,
    state: AppView,
    batch: Seq<CreateMilestoneView>,
    session: Option<Seq<char>>,
    later: u64,
)
    requires
        batch.len() > 0,
        other_proposal(batch) is None,
        found(store.proposals, batch[0].proposal_id) matches Some(RecordView::Proposal(_)),
        !begins(passing(store.milestones, FilterView::Proposal(batch[0].proposal_id)), batch) || (
        has_milestones(found(store.proposals, batch[0].proposal_id)->0->Proposal_0) && !has_batch(
            found(store.proposals, batch[0].proposal_id)->0->Proposal_0,
            passing(store.milestones, FilterView::Proposal(batch[0].proposal_id)),
            batch,
        )),
        let_in(state, AskView::AddMilestones(batch), session, later),
    ensures
        run_spec(store, state, AskView::AddMilestones(batch), session, later) == (
            store,
            failure::<BodyView>(ErrorView::MongoDuplicateError(batch[0].proposal_id)),
        ),
{
    let ask = AskView::AddMilestones(batch);
    let id = batch[0].proposal_id;
    let script = script_of(state, ask, session, later);
    let none = Seq::<AnswerView>::empty();
    let look = RequestView::FindOne { collection: Collection::Proposals, filter: FilterView::Id(id) };
    let list = RequestView::Find {
        collection: Collection::Milestones,
        filter: FilterView::Proposal(id),
    };
    assert(store.records(Collection::Proposals) == store.proposals);
    assert(store.records(Collection::Milestones) == store.milestones);
    assert(add_milestones_spec(batch, none) == StepView::<SingleView<ProposalResponseView>>::Call(
        look,
    ));
    assert(script(none) == ServedView::<BodyView>::Call(look));
    let first = store.perform(look).1;
    let one = none.push(first);
    assert(one[0] == first);
    assert(add_milestones_spec(batch, one) == StepView::<SingleView<ProposalResponseView>>::Call(
        list,
    ));
    assert(script(one) == ServedView::<BodyView>::Call(list));
    let second = store.perform(list).1;
    let two = one.push(second);
    assert(two[0] == first);
    assert(two[1] == second);
    assert(add_milestones_spec(batch, two) == StepView::<SingleView<ProposalResponseView>>::Done(
        Err(ErrorView::MongoDuplicateError(id)),
    ));
    assert(script(two) == ServedView::Done(
        failure::<BodyView>(ErrorView::MongoDuplicateError(id)),
    ));
    reveal_with_fuel(run_from, 4);
}

/// Accepting a proposal once more, after it has been accepted, is refused:
/// the request fails as one for something that is there already, no deal is
/// stored, and the store is left as it is.
pub proof fn lemma_accepted_once_more(
    store: StoreView,
    state: AppView,
    id: Seq<char>,
    cookie: Option<Seq<char>>,
    now: u64,
    session: Option<Seq<char>>,
    later: u64,
)
    requires
        consistent(store),
        run_spec(store, state, AskView::ApproveProposal(id), cookie, now).1.payload is Data,
        let_in(state, AskView::ApproveProposal(id), session, later),
    ensures
        run_spec(
            run_spec(store, state, AskView::ApproveProposal(id), cookie, now).0,
            state,
            AskView::ApproveProposal(id),
            session,
            later,
        ) == (
            run_spec(store, state, AskView::ApproveProposal(id), cookie, now).0,
            failure::<BodyView>(ErrorView::MongoDuplicateError(id)),
        ),
{
    let ask = AskView::ApproveProposal(id);
    let after = run_spec(store, state, ask, cookie, now).0;
    lemma_accepted_has_its_deal(store, state, id, cookie, now);
    lemma_run_is_consistent(store, state, ask, cookie, now);
    lemma_run_ends_well(store, state, ask, cookie, now);
    assert(run_spec(store, state, ask, cookie, now).1.payload->Data_0 is ProposalDeal);
    assert(accepted_proposal(after.proposals, id));
    let script = script_of(state, ask, session, later);
    let none = Seq::<AnswerView>::empty();
    let mark = RequestView::FindOneAndUpdate {
        collection: Collection::Proposals,
        filter: FilterView::Pending(id),
        update: UpdateView::Accept,
    };
    let look = RequestView::FindOne { collection: Collection::Proposals, filter: FilterView::Id(id) };
    assert(after.records(Collection::Proposals) == after.proposals);
    assert(approve_proposal_spec(id, none) == StepView::<SingleView<ProposalDealView>>::Call(mark));
    assert(script(none) == ServedView::<BodyView>::Call(mark));
    if first_passing(after.proposals, FilterView::Pending(id), 0) is Some {
        lemma_pending_is_not_accepted(after, id);
    }
    let first = after.perform(mark).1;
    assert(first == AnswerView::One(None));
    let one = none.push(first);
    assert(one[0] == first);
    assert(approve_proposal_spec(id, one) == StepView::<SingleView<ProposalDealView>>::Call(look));
    assert(script(one) == ServedView::<BodyView>::Call(look));
    lemma_first_passing_is_there(after.proposals, FilterView::Id(id), 0);
    let i = choose|i: int|
        0 <= i < after.proposals.len() && ((#[trigger] after.proposals[i])
            matches RecordView::Proposal(proposal) && proposal.id == id && proposal.accepted);
    assert(after.proposals[i].passes(FilterView::Id(id)));
    let second = after.perform(look).1;
    let two = one.push(second);
    assert(two[0] == first);
    assert(two[1] == second);
    assert(approve_proposal_spec(id, two) == StepView::<SingleView<ProposalDealView>>::Done(
        Err(ErrorView::MongoDuplicateError(id)),
    ));
    assert(script(two) == ServedView::Done(
        failure::<BodyView>(ErrorView::MongoDuplicateError(id)),
    ));
    reveal_with_fuel(run_from, 4);
}

/// Registering a client under a name that a client has is refused: the
/// request fails as one for something that is there already, and no document
/// is stored or changed.
pub proof fn lemma_taken_name_is_refused(
    store: StoreView,
    state: AppView,
    body: CreateClientView,
    cookie: Option<Seq<char>>,
    now: u64,
)
    requires
        consistent(store),
        store.reserved.of(Collection::Clients) < u64::MAX,
        exists|i: int|
            0 <= i < store.clients.len() && (#[trigger] store.clients[i]).text("user_name"@)
                == Some(body.user.user_name),
    ensures
        run_spec(store, state, AskView::AddClient(body), cookie, now).1 == failure::<BodyView>(
            ErrorView::MongoDuplicateError(DUPLICATE_KEY@),
        ),
        same_documents(store, run_spec(store, state, AskView::AddClient(body), cookie, now).0),
{
    let ask = AskView::AddClient(body);
    let collection = Collection::Clients;
    let script = script_of(state, ask, cookie, now);
    let none = Seq::<AnswerView>::empty();
    let i = choose|i: int|
        0 <= i < store.clients.len() && (#[trigger] store.clients[i]).text("user_name"@)
                == Some(body.user.user_name);
    assert(store.records(collection) == store.clients);
    let reserve = RequestView::Reserve { collection, many: 1 };
    assert(add_client_spec(body, none) == StepView::<SingleView<ClientResponseView>>::Call(
        reserve,
    ));
    assert(script(none) == ServedView::<BodyView>::Call(reserve));
    let (first, counted) = store.perform(reserve);
    lemma_reserving_keeps(store, reserve);
    let new_id = decimal_spec((store.reserved.of(collection) + 1) as nat);
    let one = none.push(counted);
    assert(one[0] == counted);
    let index = RequestView::CreateIndex { collection, keys: names_key() };
    assert(names_key() == seq!["user_name"@]);
    assert(add_client_spec(body, one) == StepView::<SingleView<ClientResponseView>>::Call(
        index,
    ));
    assert(script(one) == ServedView::<BodyView>::Call(index));
    assert(has_index(store, collection, names_key()));
    let n = choose|n: int|
        0 <= n < store.indexes.len() && #[trigger] store.indexes[n] == (IndexView {
            collection,
            keys: names_key(),
        });
    assert(first.indexes[n] == store.indexes[n]);
    assert(has_index(first, collection, names_key()));
    let (second, made) = first.perform(index);
    assert(second == first);
    let two = one.push(made);
    assert(two[0] == counted);
    assert(two[1] == made);
    lemma_client_reads_back(
        body.user,
        new_id,
        text_or_empty(body.user.description),
        texts_or_none(body.task_ids),
    );
    let fields = client_document(body)(new_id)->Ok_0;
    let insert = RequestView::InsertOne { collection, fields };
    assert(add_client_spec(body, two) == StepView::<SingleView<ClientResponseView>>::Call(
        insert,
    ));
    assert(script(two) == ServedView::<BodyView>::Call(insert));
    let record = record_of_fields(collection, fields)->0;
    assert(first.records(collection) == store.clients);
    assert(agree(store.clients[i], record, first.indexes[n].keys)) by {
        assert(first.indexes[n].keys[0] == "user_name"@);
    }
    assert(clash(first.records(collection)[i], record, collection, first.indexes));
    let (third, refused) = second.perform(insert);
    assert(refused == AnswerView::Failed(DUPLICATE_KEY@));
    assert(third == first);
    let three = two.push(refused);
    assert(three[0] == counted);
    assert(three[1] == made);
    assert(three[2] == refused);
    assert(occurs_at(DUPLICATE_KEY@, DUPLICATE_KEY@, 0)) by {
        assert(DUPLICATE_KEY@.subrange(0, DUPLICATE_KEY@.len() as int) =~= DUPLICATE_KEY@);
    }
    assert(add_client_spec(body, three) == StepView::<SingleView<ClientResponseView>>::Done(
        Err(ErrorView::MongoDuplicateError(DUPLICATE_KEY@)),
    ));
    assert(script(three) == ServedView::Done(
        failure::<BodyView>(ErrorView::MongoDuplicateError(DUPLICATE_KEY@)),
    ));
    reveal_with_fuel(run_from, 5);
}

/// Registering a freelancer under a name that a freelancer has is refused:
/// the request fails as one for something that is there already, and no
/// document is stored or changed.
pub proof fn lemma_taken_freelancer_name_is_refused(
    store: StoreView,
    state: AppView,
    body: CreateFreelancerView,
    cookie: Option<Seq<char>>,
    now: u64,
)
    requires
        consistent(store),
        store.reserved.of(Collection::Freelancers) < u64::MAX,
        exists|i: int|
            0 <= i < store.freelancers.len() && (#[trigger] store.freelancers[i]).text("user_name"@)
                == Some(body.user.user_name),
    ensures
        run_spec(store, state, AskView::AddFreelancer(body), cookie, now).1 == failure::<BodyView>(
            ErrorView::MongoDuplicateError(DUPLICATE_KEY@),
        ),
        same_documents(store, run_spec(store, state, AskView::AddFreelancer(body), cookie, now).0),
{
    let ask = AskView::AddFreelancer(body);
    let collection = Collection::Freelancers;
    let script = script_of(state, ask, cookie, now);
    let none = Seq::<AnswerView>::empty();
    let i = choose|i: int|
        0 <= i < store.freelancers.len() && (#[trigger] store.freelancers[i]).text("user_name"@)
                == Some(body.user.user_name);
    assert(store.records(collection) == store.freelancers);
    let reserve = RequestView::Reserve { collection, many: 1 };
    assert(add_freelancer_spec(body, none) == StepView::<SingleView<FreelancerResponseView>>::Call(
        reserve,
    ));
    assert(script(none) == ServedView::<BodyView>::Call(reserve));
    let (first, counted) = store.perform(reserve);
    lemma_reserving_keeps(store, reserve);
    let new_id = decimal_spec((store.reserved.of(collection) + 1) as nat);
    let one = none.push(counted);
    assert(one[0] == counted);
    let index = RequestView::CreateIndex { collection, keys: names_key() };
    assert(names_key() == seq!["user_name"@]);
    assert(add_freelancer_spec(body, one) == StepView::<SingleView<FreelancerResponseView>>::Call(
        index,
    ));
    assert(script(one) == ServedView::<BodyView>::Call(index));
    assert(has_index(store, collection, names_key()));
    let n = choose|n: int|
        0 <= n < store.indexes.len() && #[trigger] store.indexes[n] == (IndexView {
            collection,
            keys: names_key(),
        });
    assert(first.indexes[n] == store.indexes[n]);
    assert(has_index(first, collection, names_key()));
    let (second, made) = first.perform(index);
    assert(second == first);
    let two = one.push(made);
    assert(two[0] == counted);
    assert(two[1] == made);
    lemma_freelancer_reads_back(
        body.user,
        new_id,
        text_or_empty(body.user.description),
        texts_or_none(body.skills),
    );
    let fields = freelancer_document(body)(new_id)->Ok_0;
    let insert = RequestView::InsertOne { collection, fields };
    assert(add_freelancer_spec(body, two) == StepView::<SingleView<FreelancerResponseView>>::Call(
        insert,
    ));
    assert(script(two) == ServedView::<BodyView>::Call(insert));
    let record = record_of_fields(collection, fields)->0;
    assert(first.records(collection) == store.freelancers);
    assert(agree(store.freelancers[i], record, first.indexes[n].keys)) by {
        assert(first.indexes[n].keys[0] == "user_name"@);
    }
    assert(clash(first.records(collection)[i], record, collection, first.indexes));
    let (third, refused) = second.perform(insert);
    assert(refused == AnswerView::Failed(DUPLICATE_KEY@));
    assert(third == first);
    let three = two.push(refused);
    assert(three[0] == counted);
    assert(three[1] == made);
    assert(three[2] == refused);
    assert(occurs_at(DUPLICATE_KEY@, DUPLICATE_KEY@, 0)) by {
        assert(DUPLICATE_KEY@.subrange(0, DUPLICATE_KEY@.len() as int) =~= DUPLICATE_KEY@);
    }
    assert(add_freelancer_spec(body, three) == StepView::<SingleView<FreelancerResponseView>>::Done(
        Err(ErrorView::MongoDuplicateError(DUPLICATE_KEY@)),
    ));
    assert(script(three) == ServedView::Done(
        failure::<BodyView>(ErrorView::MongoDuplicateError(DUPLICATE_KEY@)),
    ));
    reveal_with_fuel(run_from, 5);
}

/// Posting a task under a title that a task has, whoever posted it, is
/// refused: the request fails as one for something that is there already,
/// and no document is stored or changed.
pub proof fn lemma_taken_title_is_refused(
    store: StoreView,
    state: AppView,
    body: CreateTaskView,
    cookie: Option<Seq<char>>,
    now: u64,
)
    requires
        consistent(store),
        let_in(state, AskView::CreateTask(body), cookie, now),
        store.reserved.of(Collection::Tasks) < u64::MAX,
        exists|i: int|
            0 <= i < store.tasks.len() && (#[trigger] store.tasks[i]).text("title"@)
                == Some(body.title),
    ensures
        run_spec(store, state, AskView::CreateTask(body), cookie, now).1 == failure::<BodyView>(
            ErrorView::MongoDuplicateError(DUPLICATE_KEY@),
        ),
        same_documents(store, run_spec(store, state, AskView::CreateTask(body), cookie, now).0),
{
    let ask = AskView::CreateTask(body);
    let collection = Collection::Tasks;
    let script = script_of(state, ask, cookie, now);
    let none = Seq::<AnswerView>::empty();
    let i = choose|i: int|
        0 <= i < store.tasks.len() && (#[trigger] store.tasks[i]).text("title"@)
                == Some(body.title);
    assert(store.records(collection) == store.tasks);
    let reserve = RequestView::Reserve { collection, many: 1 };
    assert(create_task_spec(body, none) == StepView::<SingleView<TaskResponseView>>::Call(
        reserve,
    ));
    assert(script(none) == ServedView::<BodyView>::Call(reserve));
    let (first, counted) = store.perform(reserve);
    lemma_reserving_keeps(store, reserve);
    let new_id = decimal_spec((store.reserved.of(collection) + 1) as nat);
    let one = none.push(counted);
    assert(one[0] == counted);
    let index = RequestView::CreateIndex { collection, keys: title_key() };
    assert(title_key() == seq!["title"@]);
    assert(create_task_spec(body, one) == StepView::<SingleView<TaskResponseView>>::Call(
        index,
    ));
    assert(script(one) == ServedView::<BodyView>::Call(index));
    assert(has_index(store, collection, title_key()));
    let n = choose|n: int|
        0 <= n < store.indexes.len() && #[trigger] store.indexes[n] == (IndexView {
            collection,
            keys: title_key(),
        });
    assert(first.indexes[n] == store.indexes[n]);
    assert(has_index(first, collection, title_key()));
    let (second, made) = first.perform(index);
    assert(second == first);
    let two = one.push(made);
    assert(two[0] == counted);
    assert(two[1] == made);
    lemma_task_reads_back(body, new_id);
    let fields = task_document(body)(new_id)->Ok_0;
    let insert = RequestView::InsertOne { collection, fields };
    assert(create_task_spec(body, two) == StepView::<SingleView<TaskResponseView>>::Call(
        insert,
    ));
    assert(script(two) == ServedView::<BodyView>::Call(insert));
    let record = record_of_fields(collection, fields)->0;
    assert(first.records(collection) == store.tasks);
    assert(agree(store.tasks[i], record, first.indexes[n].keys)) by {
        assert(first.indexes[n].keys[0] == "title"@);
    }
    assert(clash(first.records(collection)[i], record, collection, first.indexes));
    let (third, refused) = second.perform(insert);
    assert(refused == AnswerView::Failed(DUPLICATE_KEY@));
    assert(third == first);
    let three = two.push(refused);
    assert(three[0] == counted);
    assert(three[1] == made);
    assert(three[2] == refused);
    assert(occurs_at(DUPLICATE_KEY@, DUPLICATE_KEY@, 0)) by {
        assert(DUPLICATE_KEY@.subrange(0, DUPLICATE_KEY@.len() as int) =~= DUPLICATE_KEY@);
    }
    assert(create_task_spec(body, three) == StepView::<SingleView<TaskResponseView>>::Done(
        Err(ErrorView::MongoDuplicateError(DUPLICATE_KEY@)),
    ));
    assert(script(three) == ServedView::Done(
        failure::<BodyView>(ErrorView::MongoDuplicateError(DUPLICATE_KEY@)),
    ));
    reveal_with_fuel(run_from, 5);
}

} // verus!
