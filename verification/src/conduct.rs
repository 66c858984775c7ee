//! How the service conducts itself: every call that it asks for does no harm
//! to a store that is as the service leaves it.

use crate::db::{
    add_milestones_spec, approve_proposal_spec, attach_spec, begins, client_document,
    deal_document, freelancer_document, ids_of, other_proposal_from, proposal_document,
    review_document, review_keys, same_milestones, show_new_deal, store_rest_spec, task_document,
    total_price,
};
use crate::document::FieldValue;
use crate::error::ErrorView;
use crate::handler::{AppView, AskView};
use crate::laws::{
    accepted_proposal, careful, consistent, follows, found, ids_differ, Known,
    lemma_accepted_stays, lemma_first_passing_is_there, lemma_index_stays,
    lemma_insert_all_is_sound, lemma_insert_follows, lemma_passing_are_there,
    lemma_perform_follows, lemma_prices_stay, lemma_proposal_stays, lemma_read_is_typed,
    lemma_reading_changes_nothing, lemma_reading_is_careful, lemma_record_is_found,
    lemma_reserving_keeps, lemma_status_words, names_key, nothing_known, price_of, prices_of,
    proposal_exists, reads, records_kept, safe, sound, storable, title_key, typed,
};
use crate::memory::{
    clash, clashes, first_passing, has_index, IndexView, passing, script_of, StoreView,
};
use crate::reading::{
    lemma_deal_reads_back, lemma_milestone_reads_back, lemma_proposal_reads_back, record_of_fields,
    stored_milestone,
};
use crate::schema::{
    CreateClientView, CreateFreelancerView, CreateMilestoneView, CreateProposalView,
    CreateReviewView, CreateTaskView,
};
use crate::steps::{
    change_spec, create_spec, insert_and_read_spec, next_id_spec, show_client, show_deal,
    show_freelancer, show_milestone, show_proposal, show_review, show_task,
};
use crate::store::{AnswerView, Collection, FilterView, RecordView, RequestView, UpdateView};
use crate::text::decimal_spec;
use crate::utils::{batch_documents, deal_of_proposal, milestone_fields, prices_can_be_stored};
use crate::web::mw_auth::session_spec;
use vstd::prelude::*;

verus! {

/// What must hold of a store for a document to be stored in it without harm.
pub type Ready = spec_fn(StoreView) -> bool;

/// What is known of the store while a document is created: where the
/// document waits for an index, that the store is ready for it once the
/// index is there; that the store is ready, else.
pub open spec fn create_known(keys: Option<Seq<Seq<char>>>, ready: Ready, from: int) -> Known {
    |store: StoreView, answers: Seq<AnswerView>|
        if keys is Some {
            answers.len() >= from + 2 && answers[from + 1] is IndexCreated ==> ready(store)
        } else {
            ready(store)
        }
}

/// What is asked of the store to create a document does no harm, where the
/// document may be stored once the store is ready for it.
pub proof fn lemma_create_step<V>(
    store: StoreView,
    collection: Collection,
    keys: Option<Seq<Seq<char>>>,
    fields: spec_fn(Seq<char>) -> Result<Map<Seq<char>, FieldValue>, ErrorView>,
    show: spec_fn(RecordView) -> Result<V, ErrorView>,
    ready: Ready,
    answers: Seq<AnswerView>,
    from: int,
)
    requires
        0 <= from,
        create_known(keys, ready, from)(store, answers),
        create_spec(collection, keys, fields, show, answers, from) is Call,
        forall|id: Seq<char>, later: StoreView|
            #![trigger fields(id), ready(later)]
            ready(later) && fields(id) is Ok ==> storable(later, collection, fields(id)->Ok_0),
        forall|before: StoreView, after: StoreView|
            #![trigger follows(before, after)]
            follows(before, after) && ready(before) ==> ready(after),
        keys is Some ==> forall|before: StoreView|
            #![trigger before.perform(RequestView::CreateIndex { collection, keys: keys->0 })]
            before.perform(RequestView::CreateIndex { collection, keys: keys->0 }).1
                is IndexCreated ==> ready(
                before.perform(RequestView::CreateIndex { collection, keys: keys->0 }).0,
            ),
    ensures
        safe(store, create_spec(collection, keys, fields, show, answers, from)->Call_0),
        create_known(keys, ready, from)(
            store.perform(create_spec(collection, keys, fields, show, answers, from)->Call_0).0,
            answers.push(
                store.perform(create_spec(collection, keys, fields, show, answers, from)->Call_0).1,
            ),
        ),
{
    let request = create_spec(collection, keys, fields, show, answers, from)->Call_0;
    let after = store.perform(request).0;
    let more = answers.push(store.perform(request).1);
    lemma_perform_follows(store, request);
    if answers.len() <= from {
        assert(request == RequestView::Reserve { collection, many: 1 });
        lemma_reserving_keeps(store, request);
    } else {
        let count = answers[from]->Count_0;
        let id = next_id_spec(count)->Ok_0;
        let stored = fields(id)->Ok_0;
        assert(insert_and_read_spec(collection, keys, stored, answers, from + 1) is Call);
        assert(request == insert_and_read_spec(collection, keys, stored, answers, from + 1)->Call_0);
        if keys is Some && answers.len() <= from + 1 {
            assert(request == RequestView::CreateIndex { collection, keys: keys->0 });
            assert(more[from + 1] == store.perform(request).1);
        } else {
            if keys is Some {
                assert(more[from + 1] == answers[from + 1]);
            }
            assert(ready(store));
            assert(follows(store, after));
            if request is InsertOne {
                assert(request == RequestView::InsertOne { collection, fields: stored });
                assert(storable(store, collection, fields(id)->Ok_0));
            }
        }
    }
}

/// The store is ready for anything.
pub open spec fn always() -> Ready {
    |store: StoreView| true
}

/// The store has the index.
pub open spec fn index_ready(collection: Collection, keys: Seq<Seq<char>>) -> Ready {
    |store: StoreView| has_index(store, collection, keys)
}

/// The store has an accepted proposal of the identifier.
pub open spec fn proposal_ready(id: Seq<char>) -> Ready {
    |store: StoreView| accepted_proposal(store.proposals, id)
}

/// An index that the store has made is there, and stays.
pub proof fn lemma_index_ready(collection: Collection, keys: Seq<Seq<char>>)
    ensures
        forall|before: StoreView, after: StoreView|
            #![trigger follows(before, after)]
            follows(before, after) && index_ready(collection, keys)(before) ==> index_ready(
                collection,
                keys,
            )(after),
        forall|before: StoreView|
            #![trigger before.perform(RequestView::CreateIndex { collection, keys })]
            before.perform(RequestView::CreateIndex { collection, keys }).1
                is IndexCreated ==> index_ready(collection, keys)(
                before.perform(RequestView::CreateIndex { collection, keys }).0,
            ),
{
    assert forall|before: StoreView, after: StoreView|
        #![trigger follows(before, after)]
        follows(before, after) && index_ready(collection, keys)(before) implies index_ready(
        collection,
        keys,
    )(after) by {
        lemma_index_stays(before, after, collection, keys);
    }
    assert forall|before: StoreView|
        #![trigger before.perform(RequestView::CreateIndex { collection, keys })]
        before.perform(RequestView::CreateIndex { collection, keys }).1
            is IndexCreated implies index_ready(collection, keys)(
        before.perform(RequestView::CreateIndex { collection, keys }).0,
    ) by {
        let after = before.perform(RequestView::CreateIndex { collection, keys }).0;
        if !has_index(before, collection, keys) {
            assert(after.indexes[before.indexes.len() as int] == (IndexView {
                collection,
                keys,
            }));
        }
    }
}

/// Whether the request is let in: it is for a route that is open to all, or
/// it shows a good session.
pub open spec fn let_in(state: AppView, ask: AskView, cookie: Option<Seq<char>>, now: u64) -> bool {
    !(ask.handler().guarded_spec() && session_spec(
        cookie,
        state.auth.secret,
        state.auth.audience,
        now,
    ) is None)
}

/// Registering a client is careful: the client is stored only under the
/// index on names.
pub proof fn lemma_add_client_is_careful(
    state: AppView,
    body: CreateClientView,
    cookie: Option<Seq<char>>,
    now: u64,
)
    ensures
        careful(
            script_of(state, AskView::AddClient(body), cookie, now),
            create_known(
                Some(names_key()),
                index_ready(Collection::Clients, names_key()),
                0,
            ),
        ),
{
    let script = script_of(state, AskView::AddClient(body), cookie, now);
    let ready = index_ready(Collection::Clients, names_key());
    let known = create_known(Some(names_key()), ready, 0);
    let fields = client_document(body);
    lemma_index_ready(Collection::Clients, names_key());
    assert forall|id: Seq<char>, later: StoreView|
        #![trigger fields(id), ready(later)]
        ready(later) && fields(id) is Ok implies storable(
        later,
        Collection::Clients,
        fields(id)->Ok_0,
    ) by {
        if record_of_fields(Collection::Clients, fields(id)->Ok_0) is Some {
            lemma_read_is_typed(Collection::Clients, fields(id)->Ok_0);
        }
    }
    assert forall|store: StoreView, answers: Seq<AnswerView>|
        consistent(store) && #[trigger] known(store, answers) && script(answers) is Call implies safe(
        store,
        script(answers)->Call_0,
    ) && known(
        store.perform(script(answers)->Call_0).0,
        answers.push(store.perform(script(answers)->Call_0).1),
    ) by {
        lemma_create_step(
            store,
            Collection::Clients,
            Some(names_key()),
            fields,
            show_client(),
            ready,
            answers,
            0,
        );
    }
}

/// Registering a freelancer is careful: the freelancer is stored only under
/// the index on names.
pub proof fn lemma_add_freelancer_is_careful(
    state: AppView,
    body: CreateFreelancerView,
    cookie: Option<Seq<char>>,
    now: u64,
)
    ensures
        careful(
            script_of(state, AskView::AddFreelancer(body), cookie, now),
            create_known(
                Some(names_key()),
                index_ready(Collection::Freelancers, names_key()),
                0,
            ),
        ),
{
    let script = script_of(state, AskView::AddFreelancer(body), cookie, now);
    let ready = index_ready(Collection::Freelancers, names_key());
    let known = create_known(Some(names_key()), ready, 0);
    let fields = freelancer_document(body);
    lemma_index_ready(Collection::Freelancers, names_key());
    assert forall|id: Seq<char>, later: StoreView|
        #![trigger fields(id), ready(later)]
        ready(later) && fields(id) is Ok implies storable(
        later,
        Collection::Freelancers,
        fields(id)->Ok_0,
    ) by {
        if record_of_fields(Collection::Freelancers, fields(id)->Ok_0) is Some {
            lemma_read_is_typed(Collection::Freelancers, fields(id)->Ok_0);
        }
    }
    assert forall|store: StoreView, answers: Seq<AnswerView>|
        consistent(store) && #[trigger] known(store, answers) && script(answers) is Call implies safe(
        store,
        script(answers)->Call_0,
    ) && known(
        store.perform(script(answers)->Call_0).0,
        answers.push(store.perform(script(answers)->Call_0).1),
    ) by {
        lemma_create_step(
            store,
            Collection::Freelancers,
            Some(names_key()),
            fields,
            show_freelancer(),
            ready,
            answers,
            0,
        );
    }
}

/// Posting a task is careful: the task is stored only under the index on
/// titles.
pub proof fn lemma_create_task_is_careful(
    state: AppView,
    body: CreateTaskView,
    cookie: Option<Seq<char>>,
    now: u64,
)
    ensures
        careful(
            script_of(state, AskView::CreateTask(body), cookie, now),
            create_known(Some(title_key()), index_ready(Collection::Tasks, title_key()), 0),
        ),
{
    let script = script_of(state, AskView::CreateTask(body), cookie, now);
    let ready = index_ready(Collection::Tasks, title_key());
    let known = create_known(Some(title_key()), ready, 0);
    let fields = task_document(body);
    lemma_index_ready(Collection::Tasks, title_key());
    assert forall|id: Seq<char>, later: StoreView|
        #![trigger fields(id), ready(later)]
        ready(later) && fields(id) is Ok implies storable(
        later,
        Collection::Tasks,
        fields(id)->Ok_0,
    ) by {
        if record_of_fields(Collection::Tasks, fields(id)->Ok_0) is Some {
            lemma_read_is_typed(Collection::Tasks, fields(id)->Ok_0);
        }
    }
    assert forall|store: StoreView, answers: Seq<AnswerView>|
        consistent(store) && #[trigger] known(store, answers) && script(answers) is Call implies safe(
        store,
        script(answers)->Call_0,
    ) && known(
        store.perform(script(answers)->Call_0).0,
        answers.push(store.perform(script(answers)->Call_0).1),
    ) by {
        lemma_create_step(
            store,
            Collection::Tasks,
            Some(title_key()),
            fields,
            show_task(),
            ready,
            answers,
            0,
        );
    }
}

/// Leaving a review is careful.
pub proof fn lemma_add_review_is_careful(
    state: AppView,
    body: CreateReviewView,
    cookie: Option<Seq<char>>,
    now: u64,
)
    ensures
        careful(
            script_of(state, AskView::AddReview(body), cookie, now),
            create_known(review_keys(state.db.review_key), always(), 0),
        ),
{
    let script = script_of(state, AskView::AddReview(body), cookie, now);
    let keys = review_keys(state.db.review_key);
    let known = create_known(keys, always(), 0);
    let fields = review_document(body);
    assert forall|id: Seq<char>, later: StoreView|
        #![trigger fields(id), always()(later)]
        always()(later) && fields(id) is Ok implies storable(
        later,
        Collection::Reviews,
        fields(id)->Ok_0,
    ) by {
        if record_of_fields(Collection::Reviews, fields(id)->Ok_0) is Some {
            lemma_read_is_typed(Collection::Reviews, fields(id)->Ok_0);
        }
    }
    assert forall|store: StoreView, answers: Seq<AnswerView>|
        consistent(store) && #[trigger] known(store, answers) && script(answers) is Call implies safe(
        store,
        script(answers)->Call_0,
    ) && known(
        store.perform(script(answers)->Call_0).0,
        answers.push(store.perform(script(answers)->Call_0).1),
    ) by {
        lemma_create_step(
            store,
            Collection::Reviews,
            keys,
            fields,
            show_review(),
            always(),
            answers,
            0,
        );
    }
}

/// Submitting a proposal is careful: the proposal is stored without
/// milestones.
pub proof fn lemma_submit_proposal_is_careful(
    state: AppView,
    body: CreateProposalView,
    cookie: Option<Seq<char>>,
    now: u64,
)
    ensures
        careful(
            script_of(state, AskView::SubmitProposal(body), cookie, now),
            create_known(None, always(), 0),
        ),
{
    let script = script_of(state, AskView::SubmitProposal(body), cookie, now);
    let known = create_known(None, always(), 0);
    let fields = proposal_document(body);
    assert forall|id: Seq<char>, later: StoreView|
        #![trigger fields(id), always()(later)]
        always()(later) && fields(id) is Ok implies storable(
        later,
        Collection::Proposals,
        fields(id)->Ok_0,
    ) by {
        lemma_proposal_reads_back(body, id);
    }
    assert forall|store: StoreView, answers: Seq<AnswerView>|
        consistent(store) && #[trigger] known(store, answers) && script(answers) is Call implies safe(
        store,
        script(answers)->Call_0,
    ) && known(
        store.perform(script(answers)->Call_0).0,
        answers.push(store.perform(script(answers)->Call_0).1),
    ) by {
        lemma_create_step(
            store,
            Collection::Proposals,
            None,
            fields,
            show_proposal(),
            always(),
            answers,
            0,
        );
    }
}

/// What is known of the store while a proposal is accepted: once the store
/// has answered with the proposal that it has just marked, the store has an
/// accepted proposal of this identifier.
pub open spec fn approve_known() -> Known {
    |store: StoreView, answers: Seq<AnswerView>|
        answers.len() >= 1 ==> (answers[0] matches AnswerView::One(
            Some(RecordView::Proposal(proposal)),
        ) ==> accepted_proposal(store.proposals, proposal.id))
}

/// Marking a proposal as accepted leaves an accepted proposal of its
/// identifier in the store.
pub proof fn lemma_marked_is_accepted(store: StoreView, id: Seq<char>)
    requires
        typed(store),
    ensures
        store.perform(
            RequestView::FindOneAndUpdate {
                collection: Collection::Proposals,
                filter: FilterView::Pending(id),
                update: UpdateView::Accept,
            },
        ).1 matches AnswerView::One(Some(record)) ==> (record matches RecordView::Proposal(
            proposal,
        ) && proposal.id == id && proposal.accepted && accepted_proposal(
            store.perform(
                RequestView::FindOneAndUpdate {
                    collection: Collection::Proposals,
                    filter: FilterView::Pending(id),
                    update: UpdateView::Accept,
                },
            ).0.proposals,
            id,
        )),
{
    let request = RequestView::FindOneAndUpdate {
        collection: Collection::Proposals,
        filter: FilterView::Pending(id),
        update: UpdateView::Accept,
    };
    let (after, answer) = store.perform(request);
    if let AnswerView::One(Some(record)) = answer {
        let records = store.records(Collection::Proposals);
        lemma_first_passing_is_there(records, FilterView::Pending(id), 0);
        let at = first_passing(records, FilterView::Pending(id), 0)->0;
        assert(after.proposals[at] == record);
    }
}

/// Accepting a proposal is careful: the deal is stored only once the
/// proposal has been marked as accepted.
pub proof fn lemma_approve_proposal_is_careful(
    state: AppView,
    proposal_id: Seq<char>,
    cookie: Option<Seq<char>>,
    now: u64,
)
    ensures
        careful(
            script_of(state, AskView::ApproveProposal(proposal_id), cookie, now),
            approve_known(),
        ),
{
    let script = script_of(state, AskView::ApproveProposal(proposal_id), cookie, now);
    let known = approve_known();
    assert forall|store: StoreView, answers: Seq<AnswerView>|
        consistent(store) && #[trigger] known(store, answers) && script(answers) is Call implies safe(
        store,
        script(answers)->Call_0,
    ) && known(
        store.perform(script(answers)->Call_0).0,
        answers.push(store.perform(script(answers)->Call_0).1),
    ) by {
        let request = script(answers)->Call_0;
        let after = store.perform(request).0;
        let more = answers.push(store.perform(request).1);
        assert(approve_proposal_spec(proposal_id, answers) is Call);
        assert(request == approve_proposal_spec(proposal_id, answers)->Call_0);
        lemma_perform_follows(store, request);
        if answers.len() == 0 {
            lemma_marked_is_accepted(store, proposal_id);
        } else {
            assert(more[0] == answers[0]);
            match answers[0] {
                AnswerView::One(Some(RecordView::Proposal(proposal))) => {
                    let deal = deal_of_proposal(proposal);
                    let ready = proposal_ready(proposal.id);
                    let fields = deal_document(deal);
                    assert forall|id: Seq<char>, later: StoreView|
                        #![trigger fields(id), ready(later)]
                        ready(later) && fields(id) is Ok implies storable(
                        later,
                        Collection::Deals,
                        fields(id)->Ok_0,
                    ) by {
                        lemma_deal_reads_back(deal, id);
                    }
                    assert forall|before: StoreView, later: StoreView|
                        #![trigger follows(before, later)]
                        follows(before, later) && ready(before) implies ready(later) by {
                        assert(records_kept(
                            before.records(Collection::Proposals),
                            later.records(Collection::Proposals),
                        ));
                        lemma_accepted_stays(before.proposals, later.proposals, proposal.id);
                    }
                    lemma_create_step(
                        store,
                        Collection::Deals,
                        None,
                        fields,
                        show_new_deal(deal),
                        ready,
                        answers,
                        1,
                    );
                },
                _ => {
                    lemma_reading_changes_nothing(store, request);
                },
            }
        }
    }
}

/// What is asked of the store to change one document, as the service does
/// but for the attaching of milestones, does no harm.
pub proof fn lemma_change_step<V>(
    store: StoreView,
    collection: Collection,
    filter: FilterView,
    update: UpdateView,
    show: spec_fn(RecordView) -> Result<V, ErrorView>,
    missing: Seq<char>,
    answers: Seq<AnswerView>,
)
    requires
        change_spec(collection, filter, update, show, missing, answers) is Call,
        !(update is Milestones),
        update is Delivery ==> collection != Collection::Milestones,
    ensures
        safe(store, change_spec(collection, filter, update, show, missing, answers)->Call_0),
{
}

/// Attaching an address to a deal is careful.
pub proof fn lemma_update_deal_is_careful(
    state: AppView,
    deal_id: Seq<char>,
    transaction_id: Seq<char>,
    cookie: Option<Seq<char>>,
    now: u64,
)
    ensures
        careful(
            script_of(state, AskView::UpdateDeal { deal_id, transaction_id }, cookie, now),
            nothing_known(),
        ),
{
    let script = script_of(state, AskView::UpdateDeal { deal_id, transaction_id }, cookie, now);
    assert forall|store: StoreView, answers: Seq<AnswerView>|
        consistent(store) && #[trigger] nothing_known()(store, answers) && script(answers)
            is Call implies safe(store, script(answers)->Call_0) && nothing_known()(
        store.perform(script(answers)->Call_0).0,
        answers.push(store.perform(script(answers)->Call_0).1),
    ) by {
        lemma_change_step(
            store,
            Collection::Deals,
            FilterView::Id(deal_id),
            UpdateView::Address(transaction_id),
            show_deal(),
            deal_id,
            answers,
        );
    }
}

/// Handing in the deliverable of a milestone is careful.
pub proof fn lemma_submit_milestone_is_careful(
    state: AppView,
    proposal_id: Seq<char>,
    milestone_id: Seq<char>,
    link: Seq<char>,
    cookie: Option<Seq<char>>,
    now: u64,
)
    ensures
        careful(
            script_of(
                state,
                AskView::SubmitMilestone { proposal_id, milestone_id, link },
                cookie,
                now,
            ),
            nothing_known(),
        ),
{
    let script = script_of(
        state,
        AskView::SubmitMilestone { proposal_id, milestone_id, link },
        cookie,
        now,
    );
    assert forall|store: StoreView, answers: Seq<AnswerView>|
        consistent(store) && #[trigger] nothing_known()(store, answers) && script(answers)
            is Call implies safe(store, script(answers)->Call_0) && nothing_known()(
        store.perform(script(answers)->Call_0).0,
        answers.push(store.perform(script(answers)->Call_0).1),
    ) by {
        lemma_change_step(
            store,
            Collection::Milestones,
            FilterView::Milestone { proposal_id, milestone_id },
            UpdateView::Link(link),
            show_milestone(),
            proposal_id,
            answers,
        );
    }
}

/// The milestones of a batch that have been stored are found under the
/// identifiers that the store gave them, and their prices add up to the price
/// of the part of the batch that was stored.
pub proof fn lemma_batch_is_priced(
    store: StoreView,
    batch: Seq<CreateMilestoneView>,
    count: u64,
    done: int,
)
    requires
        sound(store),
        prices_can_be_stored(batch),
        0 <= done <= batch.len(),
        store.insert_all(Collection::Milestones, batch_documents(batch, count), done).1 is Ok,
    ensures
        store.insert_all(Collection::Milestones, batch_documents(batch, count), done).1->Ok_0.len()
            == done,
        prices_of(
            store.insert_all(Collection::Milestones, batch_documents(batch, count), done).0.milestones,
            store.insert_all(Collection::Milestones, batch_documents(batch, count), done).1->Ok_0,
        ) == Some(total_price(batch.take(done))),
    decreases done,
{
    let documents = batch_documents(batch, count);
    if done == 0 {
        assert(batch.take(0) =~= Seq::empty());
    } else {
        let (before, earlier) = store.insert_all(Collection::Milestones, documents, done - 1);
        let (after, answer) = before.insert(Collection::Milestones, documents[done - 1]);
        lemma_batch_is_priced(store, batch, count, done - 1);
        lemma_insert_all_is_sound(store, Collection::Milestones, documents, done - 1);
        let ids = earlier->Ok_0;
        let id = decimal_spec((count + 1 + (done - 1)) as nat);
        let milestone = stored_milestone(batch[done - 1], id);
        lemma_milestone_reads_back(batch[done - 1], id);
        assert(documents[done - 1] == milestone_fields(batch[done - 1], id));
        let record = RecordView::Milestone(milestone);
        assert(answer == AnswerView::Inserted(id));
        let old = before.records(Collection::Milestones);
        assert(after.milestones == old.push(record));
        lemma_insert_follows(before, Collection::Milestones, documents[done - 1]);
        assert(records_kept(
            before.records(Collection::Milestones),
            after.records(Collection::Milestones),
        ));
        lemma_prices_stay(before.milestones, after.milestones, ids);
        let all = ids.push(id);
        assert(all.drop_last() =~= ids);
        assert(all.last() == id);
        assert(!clashes(old, record, -1, Collection::Milestones, before.indexes));
        assert forall|j: int| 0 <= j < old.len() implies !(#[trigger] after.milestones[j]).passes(
            FilterView::Id(id),
        ) by {
            assert(!clash(old[j], record, Collection::Milestones, before.indexes));
        }
        lemma_first_passing_is_there(after.milestones, FilterView::Id(id), 0);
        assert(after.milestones[old.len() as int] == record);
        assert(first_passing(after.milestones, FilterView::Id(id), 0) == Some(old.len() as int));
        assert(price_of(after.milestones, id) == Some(milestone.price));
        assert(batch.take(done).drop_last() =~= batch.take(done - 1));
        assert(batch.take(done).last() == batch[done - 1]);
    }
}

/// Where no milestone of a batch names another proposal than the first,
/// they all name the same.
pub proof fn lemma_one_proposal(batch: Seq<CreateMilestoneView>, from: int, k: int)
    requires
        0 <= from <= k < batch.len(),
        other_proposal_from(batch, from) is None,
    ensures
        batch[k].proposal_id == batch[0].proposal_id,
    decreases batch.len() - from,
{
    if from < k {
        lemma_one_proposal(batch, from + 1, k);
    }
}

/// Whether the record is one of the records.
pub open spec fn is_among(records: Seq<RecordView>, record: RecordView) -> bool {
    exists|j: int| 0 <= j < records.len() && #[trigger] records[j] == record
}

/// The sum of the prices of two lists of milestones that are there is the
/// sum of the two sums.
pub proof fn lemma_prices_add_up(milestones: Seq<RecordView>, first: Seq<Seq<char>>, second: Seq<Seq<char>>)
    requires
        prices_of(milestones, first) is Some,
        prices_of(milestones, second) is Some,
    ensures
        prices_of(milestones, first + second) == Some(
            prices_of(milestones, first)->0 + prices_of(milestones, second)->0,
        ),
    decreases second.len(),
{
    if second.len() == 0 {
        assert(first + second =~= first);
    } else {
        lemma_prices_add_up(milestones, first, second.drop_last());
        assert((first + second).drop_last() =~= first + second.drop_last());
        assert((first + second).last() == second.last());
    }
}

/// The price of a batch is the price of its first milestones and that of the
/// others.
pub proof fn lemma_total_price_splits(batch: Seq<CreateMilestoneView>, upto: int)
    requires
        0 <= upto <= batch.len(),
    ensures
        total_price(batch) == total_price(batch.take(upto)) + total_price(batch.skip(upto)),
    decreases batch.len(),
{
    if upto == batch.len() {
        assert(batch.take(upto) =~= batch);
        assert(batch.skip(upto) =~= Seq::empty());
    } else {
        lemma_total_price_splits(batch.drop_last(), upto);
        assert(batch.drop_last().take(upto) =~= batch.take(upto));
        assert(batch.drop_last().skip(upto) =~= batch.skip(upto).drop_last());
        assert(batch.skip(upto).last() == batch.last());
    }
}

/// The milestones that the store has listed, where they are the first of a
/// batch, are found under their identifiers, and their prices add up to the
/// price of the part of the batch that they stand for.
pub proof fn lemma_listed_are_priced(
    milestones: Seq<RecordView>,
    records: Seq<RecordView>,
    batch: Seq<CreateMilestoneView>,
    upto: int,
)
    requires
        ids_differ(milestones),
        forall|i: int| 0 <= i < records.len() ==> #[trigger] is_among(milestones, records[i]),
        begins(records, batch),
        0 <= upto <= records.len(),
    ensures
        prices_of(milestones, ids_of(records).take(upto)) == Some(total_price(batch.take(upto))),
    decreases upto,
{
    if upto == 0 {
        assert(batch.take(0) =~= Seq::empty());
    } else {
        lemma_listed_are_priced(milestones, records, batch, upto - 1);
        let ids = ids_of(records).take(upto);
        assert(ids.drop_last() =~= ids_of(records).take(upto - 1));
        assert(ids.last() == records[upto - 1].id());
        assert(is_among(milestones, records[upto - 1]));
        let j = choose|j: int|
            0 <= j < milestones.len() && #[trigger] milestones[j] == records[upto - 1];
        lemma_record_is_found(milestones, j);
        assert(records[upto - 1] is Milestone);
        assert(batch.take(upto).drop_last() =~= batch.take(upto - 1));
        assert(batch.take(upto).last() == batch[upto - 1]);
    }
}

/// What is known of the store while milestones are attached.
///
/// - Once the proposal was found, there is a proposal of its identifier.
/// - Once the store has listed the milestones of the proposal, and they are
///   the first of the batch, they are found under their identifiers, and
///   their prices add up to the price of this part of the batch.
/// - Once the store has answered with the identifiers under which it has
///   stored the rest of the batch, the milestones are found under the
///   identifiers of both, and their prices add up to the price of the batch.
pub open spec fn milestones_known(batch: Seq<CreateMilestoneView>) -> Known {
    |store: StoreView, answers: Seq<AnswerView>|
        {
            &&& answers.len() >= 1 ==> (answers[0] matches AnswerView::One(Some(_))
                ==> proposal_exists(store.proposals, batch[0].proposal_id))
            &&& answers.len() >= 2 ==> (answers[1] matches AnswerView::Many(records) ==> (begins(
                records,
                batch,
            ) ==> prices_of(store.milestones, ids_of(records)) == Some(
                total_price(batch.take(records.len() as int)),
            )))
            &&& answers.len() >= 4 ==> (answers[1] matches AnswerView::Many(records) ==> (
            answers[3] matches AnswerView::InsertedMany(ids) ==> (begins(records, batch)
                && records.len() < batch.len() ==> prices_of(
                store.milestones,
                ids_of(records) + ids,
            ) == Some(total_price(batch)))))
        }
}

/// What is known of the store while milestones are attached is still known
/// of every later store.
pub proof fn lemma_milestones_known_stays(
    batch: Seq<CreateMilestoneView>,
    before: StoreView,
    after: StoreView,
    answers: Seq<AnswerView>,
)
    requires
        follows(before, after),
        milestones_known(batch)(before, answers),
    ensures
        milestones_known(batch)(after, answers),
{
    assert(records_kept(
        before.records(Collection::Milestones),
        after.records(Collection::Milestones),
    ));
    if answers.len() >= 1 && answers[0] matches AnswerView::One(Some(_)) {
        lemma_proposal_stays(before, after, batch[0].proposal_id);
    }
    if answers.len() >= 2 {
        if let AnswerView::Many(records) = answers[1] {
            if begins(records, batch) {
                lemma_prices_stay(before.milestones, after.milestones, ids_of(records));
                if answers.len() >= 4 && records.len() < batch.len() {
                    if let AnswerView::InsertedMany(ids) = answers[3] {
                        lemma_prices_stay(
                            before.milestones,
                            after.milestones,
                            ids_of(records) + ids,
                        );
                    }
                }
            }
        }
    }
}

/// Attaching milestones to a proposal is careful: milestones are stored only
/// for a proposal that was found, and the proposal is given the identifiers
/// and the price only of milestones that are stored, and whose prices add up
/// to this price.
pub proof fn lemma_add_milestones_is_careful(
    state: AppView,
    batch: Seq<CreateMilestoneView>,
    cookie: Option<Seq<char>>,
    now: u64,
)
    ensures
        careful(
            script_of(state, AskView::AddMilestones(batch), cookie, now),
            milestones_known(batch),
        ),
{
    let script = script_of(state, AskView::AddMilestones(batch), cookie, now);
    let known = milestones_known(batch);
    assert forall|store: StoreView, answers: Seq<AnswerView>|
        consistent(store) && #[trigger] known(store, answers) && script(answers) is Call implies safe(
        store,
        script(answers)->Call_0,
    ) && known(
        store.perform(script(answers)->Call_0).0,
        answers.push(store.perform(script(answers)->Call_0).1),
    ) by {
        let request = script(answers)->Call_0;
        let after = store.perform(request).0;
        let answer = store.perform(request).1;
        let more = answers.push(answer);
        let id = batch[0].proposal_id;
        assert(add_milestones_spec(batch, answers) is Call);
        assert(request == add_milestones_spec(batch, answers)->Call_0);
        lemma_perform_follows(store, request);
        lemma_milestones_known_stays(batch, store, after, answers);
        assert(known(after, answers));
        assert forall|k: int| 0 <= k < answers.len() implies more[k] == answers[k] by {}
        assert(more[answers.len() as int] == answer);
        if answers.len() == 0 {
            lemma_reading_changes_nothing(store, request);
            lemma_first_passing_is_there(store.records(Collection::Proposals), FilterView::Id(id), 0);
            assert(store.records(Collection::Proposals) == store.proposals);
        } else if answers.len() == 1 {
            lemma_reading_changes_nothing(store, request);
            let records = passing(store.milestones, FilterView::Proposal(id));
            assert(store.records(Collection::Milestones) == store.milestones);
            assert(answer == AnswerView::Many(records));
            if begins(records, batch) {
                assert forall|i: int| 0 <= i < records.len() implies #[trigger] is_among(
                    store.milestones,
                    records[i],
                ) by {
                    lemma_passing_are_there(store.milestones, FilterView::Proposal(id), i);
                }
                assert(ids_differ(store.records(Collection::Milestones)));
                lemma_listed_are_priced(store.milestones, records, batch, records.len() as int);
                assert(ids_of(records).take(records.len() as int) =~= ids_of(records));
            }
        } else {
            let records = answers[1]->Many_0;
            let kept = ids_of(records);
            if records.len() < batch.len() {
                let rest = batch.skip(records.len() as int);
                assert(request == store_rest_spec(batch, kept, answers, 2)->Call_0);
                if answers.len() == 2 {
                    lemma_reserving_keeps(store, request);
                } else if answers.len() == 3 {
                    let count = answers[2]->Count_0;
                    let documents = batch_documents(rest, count);
                    assert(request == RequestView::InsertMany {
                        collection: Collection::Milestones,
                        batch: documents,
                    });
                    assert forall|k: int| 0 <= k < documents.len() implies storable(
                        store,
                        Collection::Milestones,
                        #[trigger] documents[k],
                    ) by {
                        lemma_milestone_reads_back(rest[k], decimal_spec((count + 1 + k) as nat));
                        lemma_status_words();
                        lemma_one_proposal(batch, 0, records.len() + k);
                    }
                    if answer is InsertedMany {
                        lemma_batch_is_priced(store, rest, count, rest.len() as int);
                        assert(rest.take(rest.len() as int) =~= rest);
                        lemma_prices_add_up(after.milestones, kept, answer->InsertedMany_0);
                        lemma_total_price_splits(batch, records.len() as int);
                    }
                } else {
                    let ids = answers[3]->InsertedMany_0;
                    assert(request == attach_spec(batch, kept + ids, answers, 4)->Call_0);
                    assert(answers.skip(4).len() == answers.len() - 4);
                    assert(answers.len() == 4);
                }
            } else {
                assert(request == attach_spec(batch, kept, answers, 2)->Call_0);
                assert(answers.skip(2).len() == answers.len() - 2);
                assert(answers.len() == 2);
                assert(batch.take(records.len() as int) =~= batch);
            }
        }
    }
}

/// Whether the request only looks things up.
pub open spec fn looks_up(ask: AskView) -> bool {
    ask.handler().reads_spec()
}

/// A request that only looks things up asks the store for nothing but to
/// read.
pub proof fn lemma_looking_up_reads(
    state: AppView,
    ask: AskView,
    cookie: Option<Seq<char>>,
    now: u64,
    answers: Seq<AnswerView>,
)
    requires
        looks_up(ask),
        script_of(state, ask, cookie, now)(answers) is Call,
    ensures
        reads(script_of(state, ask, cookie, now)(answers)->Call_0),
{
}

/// What is known of the store while a request is served.
pub open spec fn known_of(state: AppView, ask: AskView) -> Known {
    match ask {
        AskView::AddClient(_) => create_known(
            Some(names_key()),
            index_ready(Collection::Clients, names_key()),
            0,
        ),
        AskView::AddFreelancer(_) => create_known(
            Some(names_key()),
            index_ready(Collection::Freelancers, names_key()),
            0,
        ),
        AskView::CreateTask(_) => create_known(
            Some(title_key()),
            index_ready(Collection::Tasks, title_key()),
            0,
        ),
        AskView::AddReview(_) => create_known(review_keys(state.db.review_key), always(), 0),
        AskView::SubmitProposal(_) => create_known(None, always(), 0),
        AskView::ApproveProposal(_) => approve_known(),
        AskView::AddMilestones(batch) => milestones_known(batch),
        _ => nothing_known(),
    }
}

/// The service is careful, whatever the request: every call that it asks
/// for does no harm to a store that is as the service leaves it.
pub proof fn lemma_service_is_careful(
    state: AppView,
    ask: AskView,
    cookie: Option<Seq<char>>,
    now: u64,
)
    ensures
        careful(script_of(state, ask, cookie, now), known_of(state, ask)),
        forall|store: StoreView| #[trigger] known_of(state, ask)(store, Seq::empty()),
{
    let script = script_of(state, ask, cookie, now);
    match ask {
        AskView::AddClient(body) => {
            lemma_add_client_is_careful(state, body, cookie, now);
        },
        AskView::AddFreelancer(body) => {
            lemma_add_freelancer_is_careful(state, body, cookie, now);
        },
        AskView::CreateTask(body) => {
            lemma_create_task_is_careful(state, body, cookie, now);
        },
        AskView::AddReview(body) => {
            lemma_add_review_is_careful(state, body, cookie, now);
        },
        AskView::SubmitProposal(body) => {
            lemma_submit_proposal_is_careful(state, body, cookie, now);
        },
        AskView::ApproveProposal(proposal_id) => {
            lemma_approve_proposal_is_careful(state, proposal_id, cookie, now);
        },
        AskView::AddMilestones(batch) => {
            lemma_add_milestones_is_careful(state, batch, cookie, now);
        },
        AskView::UpdateDeal { deal_id, transaction_id } => {
            lemma_update_deal_is_careful(state, deal_id, transaction_id, cookie, now);
        },
        AskView::SubmitMilestone { proposal_id, milestone_id, link } => {
            lemma_submit_milestone_is_careful(
                state,
                proposal_id,
                milestone_id,
                link,
                cookie,
                now,
            );
        },
        _ => {
            assert(looks_up(ask));
            assert forall|answers: Seq<AnswerView>| (#[trigger] script(answers)) is Call implies reads(
                script(answers)->Call_0,
            ) by {
                lemma_looking_up_reads(state, ask, cookie, now, answers);
            }
            lemma_reading_is_careful(script);
        },
    }
}

} // verus!
