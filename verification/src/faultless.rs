//! What becomes of a request when the store reports no fault: it ends well,
//! as long as the numbers are within what a document can hold. And when the
//! store reports none: a client, a freelancer or a task under a name or a
//! title that is not taken is stored and shown.
use crate::conduct::{
    always, approve_known, create_known, index_ready, lemma_add_client_is_careful,
    lemma_add_freelancer_is_careful, lemma_add_milestones_is_careful,
    lemma_approve_proposal_is_careful, lemma_create_task_is_careful,
    lemma_submit_proposal_is_careful, let_in, milestones_known,
};
use crate::db::{
    add_client_spec, add_freelancer_spec, add_milestones_spec, approve_proposal_spec, attach_spec,
    begins, client_document, create_task_spec, deal_document, freelancer_document, has_milestones,
    ids_of, other_proposal, proposal_document, same_milestones, show_new_deal, store_rest_spec,
    task_document, total_price,
};
use crate::document::FieldValue;
use crate::error::ErrorView;
use crate::handler::{AppView, AskView, BodyView, no_token, PayloadView, ServedView};
use crate::laws::{
    both, consistent, found, ids_differ, Known, lemma_careful_both, lemma_careful_run,
    lemma_first_passing_is_there, lemma_reading_changes_nothing, lemma_reserving_keeps,
    lemma_run_ends, lemma_run_uses_its_calls, lemma_with_records, names_key, proposal_exists,
    run_answers, title_key,
};
use crate::memory::{
    agree, clash, first_passing, forbidden, has_index, IndexView, MOST_CALLS, passing, run_from,
    run_spec, script_of, StoreView,
};
use crate::model::ProposalView;
use crate::reading::{
    lemma_client_reads_back, lemma_deal_reads_back, lemma_freelancer_reads_back,
    lemma_proposal_reads_back, lemma_task_reads_back, record_of_fields,
};
use crate::response::{ClientResponseView, FreelancerResponseView, SingleView, TaskResponseView};
use crate::retry::lemma_insert_all_elsewhere;
use crate::runs::{
    deal_known, inserted_at, lemma_added_is_found, lemma_create_ends, lemma_create_run,
    lemma_deal_goes_on, lemma_found_by_id, lemma_run_ends_well, lemma_service_ends, read_known,
    stored_known,
};
use crate::schema::{
    CreateClientView, CreateFreelancerView, CreateMilestoneView, CreateProposalView,
    CreateTaskView,
};
use crate::steps::{
    create_spec, insert_and_read_spec, next_id_spec, show_client, show_freelancer, show_proposal,
    show_task, text_or_empty,
};
use crate::store::{
    AnswerView, Collection, FilterView, RecordView, RequestView, StepView, UpdateView,
};
use crate::text::decimal_spec;
use crate::utils::{
    batch_documents, deal_of_proposal, LARGEST_NUMBER, prices_can_be_stored, texts_or_none,
};
use vstd::prelude::*;

verus! {

/// Whether the store has reported no fault in these answers.
pub open spec fn no_fault(answers: Seq<AnswerView>) -> bool {
    forall|k: int| 0 <= k < answers.len() ==> !((#[trigger] answers[k]) is Failed)
}

/// Whether there is a record, and it is a proposal to which no milestones
/// are attached.
pub open spec fn is_unfunded(record: Option<RecordView>) -> bool {
    record matches Some(RecordView::Proposal(proposal)) && !has_milestones(proposal)
}

/// Whether a record is as it was, or is the proposal of the identifier with
/// nothing changed but its milestones and its price.
pub open spec fn same_but_milestones(before: RecordView, after: RecordView, id: Seq<char>) -> bool {
    after == before || (before matches RecordView::Proposal(old) && old.id == id && after
        == RecordView::Proposal(
        ProposalView {
            milestones_id: after->Proposal_0.milestones_id,
            proposal_price: after->Proposal_0.proposal_price,
            ..old
        },
    ))
}

/// Whether the proposals are as they were, but for the milestones and the
/// price of the proposal of the identifier.
pub open spec fn proposals_kept(before: StoreView, after: StoreView, id: Seq<char>) -> bool {
    &&& after.proposals.len() == before.proposals.len()
    &&& forall|i: int|
        0 <= i < before.proposals.len() ==> same_but_milestones(
            before.proposals[i],
            #[trigger] after.proposals[i],
            id,
        )
}

/// Whether the store has answered with a proposal, or with a fault.
pub open spec fn changed_or_fault(answer: AnswerView) -> bool {
    (answer is One && answer->One_0 is Some && answer->One_0->0 is Proposal) || answer is Failed
}

/// What is known while milestones are attached to a proposal, of the store
/// as it was at first and of the answers: what was read is what the store
/// held at first; the store answers a write with what was written, or with a
/// fault; and the proposals are as they were, but for the milestones and the
/// price of the one proposal.
pub open spec fn answered_known(first: StoreView, batch: Seq<CreateMilestoneView>) -> Known {
    |store: StoreView, answers: Seq<AnswerView>|
        {
            let id = batch[0].proposal_id;
            &&& proposals_kept(first, store, id)
            &&& answers.len() <= 2 ==> store == first
            &&& answers.len() >= 1 ==> answers[0] == AnswerView::One(found(first.proposals, id))
            &&& answers.len() >= 2 && (answers[0] matches AnswerView::One(Some(_))) ==> answers[1]
                == AnswerView::Many(passing(first.milestones, FilterView::Proposal(id)))
            &&& answers.len() >= 3 && (answers[0] matches AnswerView::One(Some(_))) ==> (
            answers[1] is Many && (if answers[1]->Many_0.len() < batch.len() {
                &&& answers[2] is Failed || (answers[2] is Count && answers[2]->Count_0 + ((batch.len()
                    - answers[1]->Many_0.len()) as u64) <= u64::MAX)
                &&& answers.len() >= 4 ==> answers[3] is InsertedMany || answers[3] is Failed
                &&& answers.len() >= 5 ==> changed_or_fault(answers[4])
            } else {
                changed_or_fault(answers[2])
            }))
        }
}

/// The store answers to a change of a proposal that there is with the
/// proposal or with a fault; and the proposals are then as they were, but for
/// the milestones and the price of this proposal.
proof fn lemma_attaching_keeps(store: StoreView, id: Seq<char>, ids: Seq<Seq<char>>, price: i64)
    requires
        consistent(store),
        proposal_exists(store.proposals, id),
    ensures
        ({
            let (after, answer) = store.perform(
                RequestView::FindOneAndUpdate {
                    collection: Collection::Proposals,
                    filter: FilterView::Id(id),
                    update: UpdateView::Milestones { ids, price },
                },
            );
            &&& changed_or_fault(answer)
            &&& proposals_kept(store, after, id)
        }),
{
    let records = store.records(Collection::Proposals);
    assert(records == store.proposals);
    lemma_first_passing_is_there(records, FilterView::Id(id), 0);
    let i = choose|i: int| 0 <= i < records.len() && (#[trigger] records[i]).id() == id;
    assert(records[i].passes(FilterView::Id(id)));
    let at = first_passing(records, FilterView::Id(id), 0)->0;
    assert(records[at].collection() == Collection::Proposals);
    if let Some(changed) = records[at].changed(UpdateView::Milestones { ids, price }) {
        lemma_with_records(store, Collection::Proposals, records.update(at, changed));
    }
}

/// What is known of the store as it was at first is still known after the
/// next call.
proof fn lemma_answered_goes_on(
    first: StoreView,
    store: StoreView,
    state: AppView,
    batch: Seq<CreateMilestoneView>,
    cookie: Option<Seq<char>>,
    now: u64,
    answers: Seq<AnswerView>,
)
    requires
        consistent(store),
        milestones_known(batch)(store, answers),
        answered_known(first, batch)(store, answers),
        script_of(state, AskView::AddMilestones(batch), cookie, now)(answers) is Call,
    ensures
        answered_known(first, batch)(
            store.perform(
                script_of(state, AskView::AddMilestones(batch), cookie, now)(answers)->Call_0,
            ).0,
            answers.push(
                store.perform(
                    script_of(state, AskView::AddMilestones(batch), cookie, now)(answers)->Call_0,
                ).1,
            ),
        ),
{
    let script = script_of(state, AskView::AddMilestones(batch), cookie, now);
    let request = script(answers)->Call_0;
    let (after, answer) = store.perform(request);
    let more = answers.push(answer);
    let id = batch[0].proposal_id;
    assert(add_milestones_spec(batch, answers) is Call);
    assert(request == add_milestones_spec(batch, answers)->Call_0);
    assert forall|k: int| 0 <= k < answers.len() implies more[k] == answers[k] by {}
    assert(more[answers.len() as int] == answer);
    assert(store.records(Collection::Proposals) == store.proposals);
    assert(store.records(Collection::Milestones) == store.milestones);
    if answers.len() <= 1 {
        lemma_reading_changes_nothing(store, request);
    } else {
        let records = answers[1]->Many_0;
        if records.len() < batch.len() {
            assert(request == store_rest_spec(batch, ids_of(records), answers, 2)->Call_0);
            if answers.len() == 2 {
                lemma_reserving_keeps(store, request);
            } else if answers.len() == 3 {
                lemma_insert_all_elsewhere(
                    store,
                    Collection::Milestones,
                    batch_documents(batch.skip(records.len() as int), answers[2]->Count_0),
                    batch.len() - records.len(),
                    Collection::Proposals,
                );
                assert(after.records(Collection::Proposals) == after.proposals);
            } else {
                let ids = ids_of(records) + answers[3]->InsertedMany_0;
                assert(request == attach_spec(batch, ids, answers, 4)->Call_0);
                assert(answers.skip(4).len() == answers.len() - 4);
                lemma_attaching_keeps(store, id, ids, total_price(batch) as i64);
                let after = store.perform(request).0;
                assert forall|i: int| 0 <= i < first.proposals.len() implies same_but_milestones(
                    first.proposals[i],
                    #[trigger] after.proposals[i],
                    id,
                ) by {
                    assert(same_but_milestones(first.proposals[i], store.proposals[i], id));
                    assert(same_but_milestones(store.proposals[i], after.proposals[i], id));
                }
            }
        } else {
            assert(request == attach_spec(batch, ids_of(records), answers, 2)->Call_0);
            assert(answers.skip(2).len() == answers.len() - 2);
            lemma_attaching_keeps(store, id, ids_of(records), total_price(batch) as i64);
        }
    }
}

/// Attaching milestones changes no proposal but the one that the batch
/// names, and of this one nothing but its milestones and its price: whether
/// it is accepted, and its client, its task and its freelancer are as they
/// were. And where the store reports no fault, the request ends well: for a
/// batch of at least one milestone, all for one proposal that there is and
/// that has no milestones attached yet, whether none of the batch are stored
/// for it yet, or the first of them, or all; at prices that a document can
/// hold.
pub proof fn lemma_milestones_get_attached(
    store: StoreView,
    state: AppView,
    batch: Seq<CreateMilestoneView>,
    cookie: Option<Seq<char>>,
    now: u64,
)
    requires
        consistent(store),
    ensures
        proposals_kept(
            store,
            run_spec(store, state, AskView::AddMilestones(batch), cookie, now).0,
            batch[0].proposal_id,
        ),
        ({
            let id = batch[0].proposal_id;
            let listed = passing(store.milestones, FilterView::Proposal(id));
            let script = script_of(state, AskView::AddMilestones(batch), cookie, now);
            &&& let_in(state, AskView::AddMilestones(batch), cookie, now)
            &&& 0 < batch.len() <= u64::MAX
            &&& other_proposal(batch) is None
            &&& is_unfunded(found(store.proposals, id))
            &&& begins(listed, batch)
            &&& prices_can_be_stored(batch)
            &&& total_price(batch) <= LARGEST_NUMBER
            &&& no_fault(run_answers(store, script, Seq::empty(), MOST_CALLS as nat))
        }) ==> run_spec(store, state, AskView::AddMilestones(batch), cookie, now).1.payload
            matches PayloadView::Data(BodyView::Proposal(_)),
{
    let ask = AskView::AddMilestones(batch);
    let id = batch[0].proposal_id;
    let script = script_of(state, ask, cookie, now);
    let first = milestones_known(batch);
    let second = answered_known(store, batch);
    lemma_add_milestones_is_careful(state, batch, cookie, now);
    assert forall|before: StoreView, answers: Seq<AnswerView>|
        #![trigger second(before, answers)]
        consistent(before) && first(before, answers) && second(before, answers) && script(answers)
            is Call implies second(
        before.perform(script(answers)->Call_0).0,
        answers.push(before.perform(script(answers)->Call_0).1),
    ) by {
        lemma_answered_goes_on(store, before, state, batch, cookie, now, answers);
    }
    lemma_careful_both(script, first, second);
    let calls = MOST_CALLS as nat;
    let none = Seq::<AnswerView>::empty();
    lemma_careful_run(store, script, both(first, second), none, calls);
    lemma_run_ends(store, script, none, calls);
    let (after, reply) = run_from(store, script, none, calls);
    let last = run_answers(store, script, none, calls);
    assert(second(after, last));
    let listed = passing(store.milestones, FilterView::Proposal(id));
    if let_in(state, ask, cookie, now) && 0 < batch.len() <= u64::MAX && other_proposal(batch)
        is None
        && is_unfunded(found(store.proposals, id)) && begins(listed, batch) && prices_can_be_stored(
        batch,
    )
        && total_price(batch) <= LARGEST_NUMBER && no_fault(last) {
        if script(last) is Call {
            lemma_run_uses_its_calls(store, script, none, calls);
            lemma_service_ends(state, ask, cookie, now, last);
        }
        assert(script(last) == ServedView::Done(reply));
        assert(add_milestones_spec(batch, last) is Done);
        assert(store.records(Collection::Proposals) == store.proposals);
        lemma_first_passing_is_there(store.proposals, FilterView::Id(id), 0);
        assert(found(store.proposals, id)->0.collection() == Collection::Proposals);
        assert(last.len() >= 2);
        assert(!(last[0] is Failed));
        assert(!(last[1] is Failed));
        if listed.len() < batch.len() {
            assert(store_rest_spec(batch, ids_of(listed), last, 2) is Done);
            assert(last.len() >= 5);
            assert(!(last[2] is Failed));
            assert(!(last[3] is Failed));
            assert(!(last[4] is Failed));
            assert(last.skip(4).len() == last.len() - 4);
            assert(last.skip(4)[0] == last[4]);
            assert(add_milestones_spec(batch, last) matches StepView::Done(Ok(_)));
        } else {
            assert(attach_spec(batch, ids_of(listed), last, 2) is Done);
            assert(last.len() >= 3);
            assert(!(last[2] is Failed));
            assert(last.skip(2).len() == last.len() - 2);
            assert(last.skip(2)[0] == last[2]);
            assert(add_milestones_spec(batch, last) matches StepView::Done(Ok(_)));
        }
    }
}

/// What is known of the answers while a document is created, from the
/// answer at `from` on: the store answers to the setting aside of a number
/// with a count that leaves room for it, or with a fault; it answers the
/// making of an index with the index or with a fault; and it answers the
/// storing of a document with its identifier or with a fault.
pub open spec fn shaped_known(keys: Option<Seq<Seq<char>>>, from: int) -> Known {
    |store: StoreView, answers: Seq<AnswerView>|
        {
            let at = inserted_at(keys, from);
            &&& answers.len() > from ==> answers[from] is Failed || (answers[from] is Count
                && answers[from]->Count_0 < u64::MAX)
            &&& keys is Some && answers.len() > from + 1 ==> answers[from + 1] is IndexCreated
                || answers[from + 1] is Failed
            &&& answers.len() > at ==> answers[at] is Inserted || answers[at] is Failed
        }
}

/// What is known of the answers while a document is created is still known
/// after the next call.
pub proof fn lemma_create_shapes<V>(
    store: StoreView,
    collection: Collection,
    keys: Option<Seq<Seq<char>>>,
    fields: spec_fn(Seq<char>) -> Result<Map<Seq<char>, FieldValue>, ErrorView>,
    show: spec_fn(RecordView) -> Result<V, ErrorView>,
    answers: Seq<AnswerView>,
    from: int,
)
    requires
        0 <= from <= answers.len(),
        create_spec(collection, keys, fields, show, answers, from) is Call,
        shaped_known(keys, from)(store, answers),
    ensures
        shaped_known(keys, from)(
            store.perform(create_spec(collection, keys, fields, show, answers, from)->Call_0).0,
            answers.push(
                store.perform(create_spec(collection, keys, fields, show, answers, from)->Call_0).1,
            ),
        ),
{
    let request = create_spec(collection, keys, fields, show, answers, from)->Call_0;
    let answer = store.perform(request).1;
    let more = answers.push(answer);
    assert forall|k: int| 0 <= k < answers.len() implies more[k] == answers[k] by {}
    assert(more[answers.len() as int] == answer);
    if answers.len() > from {
        let stored = fields(next_id_spec(answers[from]->Count_0)->Ok_0)->Ok_0;
        assert(request == insert_and_read_spec(collection, keys, stored, answers, from + 1)->Call_0);
    }
}

/// The creating of a document ends well where the store has reported no
/// fault, the document can be written, and what it reads as can be shown.
pub proof fn lemma_create_ends_well<V>(
    store: StoreView,
    collection: Collection,
    keys: Option<Seq<Seq<char>>>,
    fields: spec_fn(Seq<char>) -> Result<Map<Seq<char>, FieldValue>, ErrorView>,
    show: spec_fn(RecordView) -> Result<V, ErrorView>,
    answers: Seq<AnswerView>,
    from: int,
)
    requires
        0 <= from,
        shaped_known(keys, from)(store, answers),
        read_known(collection, keys, from)(store, answers),
        stored_known(collection, keys, fields, from)(store, answers),
        create_spec(collection, keys, fields, show, answers, from) is Done,
        no_fault(answers),
        forall|id: Seq<char>| (#[trigger] fields(id)) is Ok,
        forall|id: Seq<char>|
            record_of_fields(collection, (#[trigger] fields(id))->Ok_0) matches Some(record)
                ==> show(record) is Ok,
    ensures
        create_spec(collection, keys, fields, show, answers, from) matches StepView::Done(Ok(_)),
{
    let at = inserted_at(keys, from);
    assert(answers.len() > from);
    assert(!(answers[from] is Failed));
    let id = next_id_spec(answers[from]->Count_0)->Ok_0;
    assert(fields(id) is Ok);
    let stored = fields(id)->Ok_0;
    assert(insert_and_read_spec(collection, keys, stored, answers, from + 1) is Done);
    if keys is Some {
        assert(answers.len() > from + 1);
        assert(!(answers[from + 1] is Failed));
    }
    assert(answers.len() > at);
    assert(!(answers[at] is Failed));
    assert(answers.len() > at + 1);
    let given = answers[at]->Inserted_0;
    assert(answers[at + 1] == AnswerView::One(found(store.records(collection), given)));
}

/// Registering a client ends well where the store reports no fault: the
/// client is shown, unless no token can be made for its session.
pub proof fn lemma_client_gets_registered(
    store: StoreView,
    state: AppView,
    body: CreateClientView,
    cookie: Option<Seq<char>>,
    now: u64,
)
    requires
        consistent(store),
        no_fault(
            run_answers(
                store,
                script_of(state, AskView::AddClient(body), cookie, now),
                Seq::empty(),
                MOST_CALLS as nat,
            ),
        ),
    ensures
        run_spec(store, state, AskView::AddClient(body), cookie, now).1.payload is Data || run_spec(
            store,
            state,
            AskView::AddClient(body),
            cookie,
            now,
        ).1 == no_token::<BodyView>(),
{
    let ask = AskView::AddClient(body);
    let script = script_of(state, ask, cookie, now);
    let keys = Some(names_key());
    let fields = client_document(body);
    let first = create_known(keys, index_ready(Collection::Clients, names_key()), 0);
    let second = shaped_known(keys, 0);
    lemma_add_client_is_careful(state, body, cookie, now);
    lemma_create_run(store, script, first, Collection::Clients, keys, fields, show_client());
    assert forall|before: StoreView, answers: Seq<AnswerView>|
        #![trigger second(before, answers)]
        consistent(before) && first(before, answers) && second(before, answers) && script(answers)
            is Call implies second(
        before.perform(script(answers)->Call_0).0,
        answers.push(before.perform(script(answers)->Call_0).1),
    ) by {
        lemma_create_shapes(
            before,
            Collection::Clients,
            keys,
            fields,
            show_client(),
            answers,
            0,
        );
    }
    lemma_careful_both(script, first, second);
    let calls = MOST_CALLS as nat;
    let none = Seq::<AnswerView>::empty();
    lemma_careful_run(store, script, both(first, second), none, calls);
    lemma_run_ends_well(store, state, ask, cookie, now);
    let (after, reply) = run_from(store, script, none, calls);
    let last = run_answers(store, script, none, calls);
    assert(script(last) == ServedView::Done(reply));
    assert(store.records(Collection::Clients) == store.clients);
    assert forall|id: Seq<char>|
        record_of_fields(Collection::Clients, (#[trigger] fields(id))->Ok_0) matches Some(record)
            ==> show_client()(record) is Ok by {
        lemma_client_reads_back(
            body.user,
            id,
            text_or_empty(body.user.description),
            texts_or_none(body.task_ids),
        );
    }
    lemma_create_ends_well(after, Collection::Clients, keys, fields, show_client(), last, 0);
}

/// Registering a freelancer ends well where the store reports no fault: the
/// freelancer is shown, unless no token can be made for its session. Whether a client has the same name
/// makes no difference: names are kept apart among freelancers only.
pub proof fn lemma_freelancer_gets_registered(
    store: StoreView,
    state: AppView,
    body: CreateFreelancerView,
    cookie: Option<Seq<char>>,
    now: u64,
)
    requires
        consistent(store),
        no_fault(
            run_answers(
                store,
                script_of(state, AskView::AddFreelancer(body), cookie, now),
                Seq::empty(),
                MOST_CALLS as nat,
            ),
        ),
    ensures
        run_spec(store, state, AskView::AddFreelancer(body), cookie, now).1.payload is Data
            || run_spec(store, state, AskView::AddFreelancer(body), cookie, now).1 == no_token::<
            BodyView,
        >(),
{
    let ask = AskView::AddFreelancer(body);
    let script = script_of(state, ask, cookie, now);
    let keys = Some(names_key());
    let fields = freelancer_document(body);
    let first = create_known(keys, index_ready(Collection::Freelancers, names_key()), 0);
    let second = shaped_known(keys, 0);
    lemma_add_freelancer_is_careful(state, body, cookie, now);
    lemma_create_run(store, script, first, Collection::Freelancers, keys, fields, show_freelancer());
    assert forall|before: StoreView, answers: Seq<AnswerView>|
        #![trigger second(before, answers)]
        consistent(before) && first(before, answers) && second(before, answers) && script(answers)
            is Call implies second(
        before.perform(script(answers)->Call_0).0,
        answers.push(before.perform(script(answers)->Call_0).1),
    ) by {
        lemma_create_shapes(
            before,
            Collection::Freelancers,
            keys,
            fields,
            show_freelancer(),
            answers,
            0,
        );
    }
    lemma_careful_both(script, first, second);
    let calls = MOST_CALLS as nat;
    let none = Seq::<AnswerView>::empty();
    lemma_careful_run(store, script, both(first, second), none, calls);
    lemma_run_ends_well(store, state, ask, cookie, now);
    let (after, reply) = run_from(store, script, none, calls);
    let last = run_answers(store, script, none, calls);
    assert(script(last) == ServedView::Done(reply));
    assert(store.records(Collection::Freelancers) == store.freelancers);
    assert forall|id: Seq<char>|
        record_of_fields(Collection::Freelancers, (#[trigger] fields(id))->Ok_0) matches Some(
            record,
        ) ==> show_freelancer()(record) is Ok by {
        lemma_freelancer_reads_back(
            body.user,
            id,
            text_or_empty(body.user.description),
            texts_or_none(body.skills),
        );
    }
    lemma_create_ends_well(
        after,
        Collection::Freelancers,
        keys,
        fields,
        show_freelancer(),
        last,
        0,
    );
}

/// Posting a task ends well where the request is let in and the store
/// reports no fault.
pub proof fn lemma_task_gets_posted(
    store: StoreView,
    state: AppView,
    body: CreateTaskView,
    cookie: Option<Seq<char>>,
    now: u64,
)
    requires
        consistent(store),
        let_in(state, AskView::CreateTask(body), cookie, now),
        no_fault(
            run_answers(
                store,
                script_of(state, AskView::CreateTask(body), cookie, now),
                Seq::empty(),
                MOST_CALLS as nat,
            ),
        ),
    ensures
        run_spec(store, state, AskView::CreateTask(body), cookie, now).1.payload is Data,
{
    let ask = AskView::CreateTask(body);
    let script = script_of(state, ask, cookie, now);
    let keys = Some(title_key());
    let fields = task_document(body);
    let first = create_known(keys, index_ready(Collection::Tasks, title_key()), 0);
    let second = shaped_known(keys, 0);
    lemma_create_task_is_careful(state, body, cookie, now);
    lemma_create_run(store, script, first, Collection::Tasks, keys, fields, show_task());
    assert forall|before: StoreView, answers: Seq<AnswerView>|
        #![trigger second(before, answers)]
        consistent(before) && first(before, answers) && second(before, answers) && script(answers)
            is Call implies second(
        before.perform(script(answers)->Call_0).0,
        answers.push(before.perform(script(answers)->Call_0).1),
    ) by {
        lemma_create_shapes(before, Collection::Tasks, keys, fields, show_task(), answers, 0);
    }
    lemma_careful_both(script, first, second);
    let calls = MOST_CALLS as nat;
    let none = Seq::<AnswerView>::empty();
    lemma_careful_run(store, script, both(first, second), none, calls);
    lemma_run_ends_well(store, state, ask, cookie, now);
    let (after, reply) = run_from(store, script, none, calls);
    let last = run_answers(store, script, none, calls);
    assert(script(last) == ServedView::Done(reply));
    assert(store.records(Collection::Tasks) == store.tasks);
    assert forall|id: Seq<char>|
        record_of_fields(Collection::Tasks, (#[trigger] fields(id))->Ok_0) matches Some(record)
            ==> show_task()(record) is Ok by {
        lemma_task_reads_back(body, id);
    }
    lemma_create_ends_well(after, Collection::Tasks, keys, fields, show_task(), last, 0);
}

/// Submitting a proposal ends well where the request is let in and the
/// store reports no fault.
pub proof fn lemma_proposal_gets_submitted(
    store: StoreView,
    state: AppView,
    body: CreateProposalView,
    cookie: Option<Seq<char>>,
    now: u64,
)
    requires
        consistent(store),
        let_in(state, AskView::SubmitProposal(body), cookie, now),
        no_fault(
            run_answers(
                store,
                script_of(state, AskView::SubmitProposal(body), cookie, now),
                Seq::empty(),
                MOST_CALLS as nat,
            ),
        ),
    ensures
        run_spec(store, state, AskView::SubmitProposal(body), cookie, now).1.payload is Data,
{
    let ask = AskView::SubmitProposal(body);
    let script = script_of(state, ask, cookie, now);
    let keys = None::<Seq<Seq<char>>>;
    let fields = proposal_document(body);
    let first = create_known(keys, always(), 0);
    let second = shaped_known(keys, 0);
    lemma_submit_proposal_is_careful(state, body, cookie, now);
    lemma_create_run(store, script, first, Collection::Proposals, keys, fields, show_proposal());
    assert forall|before: StoreView, answers: Seq<AnswerView>|
        #![trigger second(before, answers)]
        consistent(before) && first(before, answers) && second(before, answers) && script(answers)
            is Call implies second(
        before.perform(script(answers)->Call_0).0,
        answers.push(before.perform(script(answers)->Call_0).1),
    ) by {
        lemma_create_shapes(before, Collection::Proposals, keys, fields, show_proposal(), answers, 0);
    }
    lemma_careful_both(script, first, second);
    let calls = MOST_CALLS as nat;
    let none = Seq::<AnswerView>::empty();
    lemma_careful_run(store, script, both(first, second), none, calls);
    lemma_run_ends_well(store, state, ask, cookie, now);
    let (after, reply) = run_from(store, script, none, calls);
    let last = run_answers(store, script, none, calls);
    assert(script(last) == ServedView::Done(reply));
    assert(store.records(Collection::Proposals) == store.proposals);
    assert forall|id: Seq<char>|
        record_of_fields(Collection::Proposals, (#[trigger] fields(id))->Ok_0) matches Some(record)
            ==> show_proposal()(record) is Ok by {
        lemma_proposal_reads_back(body, id);
    }
    lemma_create_ends_well(after, Collection::Proposals, keys, fields, show_proposal(), last, 0);
}

/// Whether there is a record, and it is a proposal that is not accepted.
pub open spec fn is_pending(record: Option<RecordView>) -> bool {
    record matches Some(RecordView::Proposal(proposal)) && !proposal.accepted
}

/// What is known while a proposal is accepted, of the store as it was at
/// first and of the answers: where the proposal was there and pending, the
/// store answers to the marking with the proposal, at the price that it had,
/// or with a fault; and the deals are those that there were, and after them
/// the deal that was stored.
pub open spec fn accepting_known(first: StoreView, id: Seq<char>) -> Known {
    |store: StoreView, answers: Seq<AnswerView>|
        {
            &&& answers.len() == 0 ==> store == first
            &&& answers.len() >= 1 ==> (is_pending(found(first.proposals, id)) ==> changed_or_fault(
                answers[0],
            ) && (answers[0] is One ==> answers[0]->One_0->0->Proposal_0.proposal_price == found(
                first.proposals,
                id,
            )->0->Proposal_0.proposal_price))
            &&& answers.len() <= 2 || !(answers[2] is Inserted) ==> store.deals == first.deals
            &&& answers.len() >= 3 && answers[2] is Inserted ==> (answers[0] matches AnswerView::One(
                Some(RecordView::Proposal(proposal)),
            ) && (answers[1] matches AnswerView::Count(count) && (next_id_spec(count) matches Ok(
                new_id,
            ) && (deal_document(deal_of_proposal(proposal))(new_id) matches Ok(stored)
                && (record_of_fields(Collection::Deals, stored) matches Some(record)
                && store.deals == first.deals.push(record))))))
            &&& answers.len() >= 1 && (answers[0] matches AnswerView::One(
                Some(RecordView::Proposal(_)),
            )) ==> shaped_known(None, 1)(store, answers)
        }
}

/// What is known of the store as it was at first is still known after the
/// next call, while a proposal is accepted.
proof fn lemma_accepting_goes_on(
    first: StoreView,
    store: StoreView,
    state: AppView,
    id: Seq<char>,
    cookie: Option<Seq<char>>,
    now: u64,
    answers: Seq<AnswerView>,
)
    requires
        consistent(store),
        accepting_known(first, id)(store, answers),
        script_of(state, AskView::ApproveProposal(id), cookie, now)(answers) is Call,
    ensures
        accepting_known(first, id)(
            store.perform(
                script_of(state, AskView::ApproveProposal(id), cookie, now)(answers)->Call_0,
            ).0,
            answers.push(
                store.perform(
                    script_of(state, AskView::ApproveProposal(id), cookie, now)(answers)->Call_0,
                ).1,
            ),
        ),
{
    let script = script_of(state, AskView::ApproveProposal(id), cookie, now);
    let request = script(answers)->Call_0;
    let (after, answer) = store.perform(request);
    let more = answers.push(answer);
    assert(request == approve_proposal_spec(id, answers)->Call_0);
    assert forall|k: int| 0 <= k < answers.len() implies more[k] == answers[k] by {}
    assert(more[answers.len() as int] == answer);
    assert(store.records(Collection::Deals) == store.deals);
    assert(store.records(Collection::Proposals) == store.proposals);
    if answers.len() == 0 {
        let records = store.proposals;
        let pending = FilterView::Pending(id);
        lemma_first_passing_is_there(records, FilterView::Id(id), 0);
        lemma_first_passing_is_there(records, pending, 0);
        if let Some(at) = first_passing(records, pending, 0) {
            assert(records[at].collection() == Collection::Proposals);
            if let Some(changed) = records[at].changed(UpdateView::Accept) {
                lemma_with_records(store, Collection::Proposals, records.update(at, changed));
            }
            if let Some(RecordView::Proposal(found)) = found(records, id) {
                let other = first_passing(records, FilterView::Id(id), 0)->0;
                assert(ids_differ(store.records(Collection::Proposals)));
                if other < at {
                    assert(records[other].id() != records[at].id());
                } else if at < other {
                    assert(records[at].id() != records[other].id());
                }
            }
        } else {
            if let Some(RecordView::Proposal(found)) = found(records, id) {
                if !found.accepted {
                    let other = first_passing(records, FilterView::Id(id), 0)->0;
                    assert(records[other].passes(pending));
                }
            }
        }
        assert(after.records(Collection::Deals) == after.deals);
    } else if let AnswerView::One(Some(RecordView::Proposal(proposal))) = answers[0] {
        let deal = deal_of_proposal(proposal);
        let fields = deal_document(deal);
        assert(request == create_spec(
            Collection::Deals,
            None,
            fields,
            show_new_deal(deal),
            answers,
            1,
        )->Call_0);
        lemma_create_shapes(
            store,
            Collection::Deals,
            None,
            fields,
            show_new_deal(deal),
            answers,
            1,
        );
        if answers.len() == 2 {
            let stored = fields(next_id_spec(answers[1]->Count_0)->Ok_0)->Ok_0;
            assert(request == RequestView::InsertOne {
                collection: Collection::Deals,
                fields: stored,
            });
            if let Some(record) = record_of_fields(Collection::Deals, stored) {
                lemma_with_records(store, Collection::Deals, store.deals.push(record));
            }
        } else if answers.len() == 1 {
            lemma_reserving_keeps(store, request);
        } else {
            lemma_reading_changes_nothing(store, request);
        }
    } else {
        lemma_reading_changes_nothing(store, request);
    }
}

/// Accepting a proposal that is there and pending ends well where the
/// request is let in and the store reports no fault, as long as a document
/// can hold the price. The store then holds
/// the deals that there were, and after them the one deal that is shown.
pub proof fn lemma_proposal_gets_accepted(
    store: StoreView,
    state: AppView,
    id: Seq<char>,
    cookie: Option<Seq<char>>,
    now: u64,
)
    requires
        consistent(store),
        let_in(state, AskView::ApproveProposal(id), cookie, now),
        found(store.proposals, id) matches Some(RecordView::Proposal(pending)) && !pending.accepted
            && pending.proposal_price <= LARGEST_NUMBER,
        no_fault(
            run_answers(
                store,
                script_of(state, AskView::ApproveProposal(id), cookie, now),
                Seq::empty(),
                MOST_CALLS as nat,
            ),
        ),
    ensures
        run_spec(store, state, AskView::ApproveProposal(id), cookie, now).1.payload
            matches PayloadView::Data(BodyView::ProposalDeal(shown)) && run_spec(
            store,
            state,
            AskView::ApproveProposal(id),
            cookie,
            now,
        ).0.deals == store.deals.push(RecordView::Deal(shown.data.deal)),
{
    let ask = AskView::ApproveProposal(id);
    let script = script_of(state, ask, cookie, now);
    let first = approve_known();
    let second = |before: StoreView, answers: Seq<AnswerView>|
        deal_known(id)(before, answers) && accepting_known(store, id)(before, answers);
    lemma_approve_proposal_is_careful(state, id, cookie, now);
    assert forall|before: StoreView, answers: Seq<AnswerView>|
        #![trigger second(before, answers)]
        consistent(before) && first(before, answers) && second(before, answers) && script(answers)
            is Call implies second(
        before.perform(script(answers)->Call_0).0,
        answers.push(before.perform(script(answers)->Call_0).1),
    ) by {
        lemma_deal_goes_on(before, state, id, cookie, now, answers);
        lemma_accepting_goes_on(store, before, state, id, cookie, now, answers);
    }
    lemma_careful_both(script, first, second);
    let calls = MOST_CALLS as nat;
    let none = Seq::<AnswerView>::empty();
    lemma_careful_run(store, script, both(first, second), none, calls);
    lemma_run_ends_well(store, state, ask, cookie, now);
    let (after, reply) = run_from(store, script, none, calls);
    let last = run_answers(store, script, none, calls);
    assert(script(last) == ServedView::Done(reply));
    assert(second(after, last));
    assert(approve_proposal_spec(id, last) is Done);
    assert(last.len() >= 1);
    assert(!(last[0] is Failed));
    let proposal = last[0]->One_0->0->Proposal_0;
    let deal = deal_of_proposal(proposal);
    let fields = deal_document(deal);
    assert(store.records(Collection::Deals) == store.deals);
    assert(after.records(Collection::Deals) == after.deals);
    assert forall|new_id: Seq<char>|
        record_of_fields(Collection::Deals, (#[trigger] fields(new_id))->Ok_0) matches Some(record)
            ==> show_new_deal(deal)(record) is Ok by {
        lemma_deal_reads_back(deal, new_id);
    }
    lemma_create_ends_well(
        after,
        Collection::Deals,
        None,
        fields,
        show_new_deal(deal),
        last,
        1,
    );
    lemma_create_ends(Collection::Deals, None, fields, show_new_deal(deal), last, 1);
    let new_id = next_id_spec(last[1]->Count_0)->Ok_0;
    lemma_deal_reads_back(deal, new_id);
    lemma_found_by_id(after, Collection::Deals, last[2]->Inserted_0);
}

/// Registering a client under a name that no client has ends well, whether a
/// freelancer has this name or not: the client is stored after those that
/// there were, and is shown, unless no token can be made for its session. So
/// one client has this name afterwards, and no more. This is so where there
/// is a number left to set aside, no client has the identifier made of it,
/// and clients are kept apart by their names alone.
pub proof fn lemma_fresh_client_is_registered(
    store: StoreView,
    state: AppView,
    body: CreateClientView,
    cookie: Option<Seq<char>>,
    now: u64,
)
    requires
        consistent(store),
        store.reserved.of(Collection::Clients) < u64::MAX,
        forall|i: int|
            0 <= i < store.clients.len() ==> (#[trigger] store.clients[i]).text("user_name"@) != Some(
                body.user.user_name,
            ),
        forall|i: int|
            0 <= i < store.clients.len() ==> (#[trigger] store.clients[i]).id() != decimal_spec(
                (store.reserved.of(Collection::Clients) + 1) as nat,
            ),
        forall|n: int|
            0 <= n < store.indexes.len() && (#[trigger] store.indexes[n]).collection
                == Collection::Clients ==> store.indexes[n].keys == names_key(),
    ensures
        run_spec(store, state, AskView::AddClient(body), cookie, now).1.payload is Data || run_spec(
            store,
            state,
            AskView::AddClient(body),
            cookie,
            now,
        ).1 == no_token::<BodyView>(),
        run_spec(store, state, AskView::AddClient(body), cookie, now).0.clients == store.clients.push(
            record_of_fields(
                Collection::Clients,
                client_document(body)(
                    decimal_spec((store.reserved.of(Collection::Clients) + 1) as nat),
                )->Ok_0,
            )->0,
        ),
{
    let ask = AskView::AddClient(body);
    let collection = Collection::Clients;
    let keys = names_key();
    let script = script_of(state, ask, cookie, now);
    let none = Seq::<AnswerView>::empty();
    assert(keys == seq!["user_name"@]);
    assert(store.records(collection) == store.clients);
    let reserve = RequestView::Reserve { collection, many: 1 };
    assert(add_client_spec(body, none) == StepView::<SingleView<ClientResponseView>>::Call(reserve));
    assert(script(none) == ServedView::<BodyView>::Call(reserve));
    let (first, counted) = store.perform(reserve);
    lemma_reserving_keeps(store, reserve);
    let new_id = decimal_spec((store.reserved.of(collection) + 1) as nat);
    let one = none.push(counted);
    assert(one[0] == counted);
    let index = RequestView::CreateIndex { collection, keys };
    assert(add_client_spec(body, one) == StepView::<SingleView<ClientResponseView>>::Call(index));
    assert(script(one) == ServedView::<BodyView>::Call(index));
    let (second, made) = first.perform(index);
    assert(first.records(collection) == store.clients);
    if !has_index(first, collection, keys) {
        assert(!has_index(store, collection, keys)) by {
            if has_index(store, collection, keys) {
                let n = choose|n: int|
                    0 <= n < store.indexes.len() && #[trigger] store.indexes[n] == (IndexView {
                        collection,
                        keys,
                    });
                assert(first.indexes[n] == store.indexes[n]);
            }
        }
        assert(store.clients.len() == 0);
    }
    assert(made == AnswerView::IndexCreated);
    assert(second.records(collection) == store.clients);
    assert forall|n: int|
        0 <= n < second.indexes.len() && (#[trigger] second.indexes[n]).collection
            == collection implies second.indexes[n].keys == keys by {
        if n < store.indexes.len() {
            assert(second.indexes[n] == store.indexes[n]);
        }
    }
    let two = one.push(made);
    assert(two[0] == counted);
    assert(two[1] == made);
    lemma_client_reads_back(
        body.user,
        new_id,
        text_or_empty(body.user.description),
        texts_or_none(body.task_ids),
    );
    let fields = client_document(body)(new_id)->Ok_0;
    let insert = RequestView::InsertOne { collection, fields };
    assert(add_client_spec(body, two) == StepView::<SingleView<ClientResponseView>>::Call(insert));
    assert(script(two) == ServedView::<BodyView>::Call(insert));
    let record = record_of_fields(collection, fields)->0;
    assert(record.text("user_name"@) == Some(body.user.user_name));
    assert forall|j: int| 0 <= j < store.clients.len() implies !clash(
        #[trigger] second.records(collection)[j],
        record,
        collection,
        second.indexes,
    ) by {
        if forbidden(store.clients[j], record, collection, second.indexes) {
            let n = choose|n: int|
                0 <= n < second.indexes.len() && (#[trigger] second.indexes[n]).collection
                    == collection && agree(store.clients[j], record, second.indexes[n].keys);
            assert(second.indexes[n].keys[0] == "user_name"@);
        }
    }
    let (third, stored) = second.perform(insert);
    assert(stored == AnswerView::Inserted(new_id));
    lemma_with_records(second, collection, store.clients.push(record));
    let three = two.push(stored);
    assert(three[0] == counted);
    assert(three[1] == made);
    assert(three[2] == stored);
    let look = RequestView::FindOne { collection, filter: FilterView::Id(new_id) };
    assert(add_client_spec(body, three) == StepView::<SingleView<ClientResponseView>>::Call(look));
    assert(script(three) == ServedView::<BodyView>::Call(look));
    lemma_added_is_found(store.clients, record);
    let (fourth, read) = third.perform(look);
    assert(third.records(collection) == store.clients.push(record));
    assert(read == AnswerView::One(Some(record)));
    let four = three.push(read);
    assert(four[0] == counted);
    assert(four[1] == made);
    assert(four[2] == stored);
    assert(four[3] == read);
    assert(add_client_spec(body, four) matches StepView::Done(Ok(_)));
    assert(script(four) is Done);
    reveal_with_fuel(run_from, 6);
    assert(run_spec(store, state, ask, cookie, now) == (third, script(four)->Done_0));
}

/// Registering a freelancer under a name that no freelancer has ends well,
/// whether a client has this name or not: the freelancer is stored after
/// those that there were, and is shown, unless no token can be made for its
/// session. So one freelancer has this name afterwards, and no more. This is
/// so where there is a number left to set aside, no freelancer has the
/// identifier made of it, and freelancers are kept apart by their names
/// alone.
pub proof fn lemma_fresh_freelancer_is_registered(
    store: StoreView,
    state: AppView,
    body: CreateFreelancerView,
    cookie: Option<Seq<char>>,
    now: u64,
)
    requires
        consistent(store),
        store.reserved.of(Collection::Freelancers) < u64::MAX,
        forall|i: int|
            0 <= i < store.freelancers.len() ==> (#[trigger] store.freelancers[i]).text("user_name"@) != Some(
                body.user.user_name,
            ),
        forall|i: int|
            0 <= i < store.freelancers.len() ==> (#[trigger] store.freelancers[i]).id() != decimal_spec(
                (store.reserved.of(Collection::Freelancers) + 1) as nat,
            ),
        forall|n: int|
            0 <= n < store.indexes.len() && (#[trigger] store.indexes[n]).collection
                == Collection::Freelancers ==> store.indexes[n].keys == names_key(),
    ensures
        run_spec(store, state, AskView::AddFreelancer(body), cookie, now).1.payload is Data || run_spec(
            store,
            state,
            AskView::AddFreelancer(body),
            cookie,
            now,
        ).1 == no_token::<BodyView>(),
        run_spec(store, state, AskView::AddFreelancer(body), cookie, now).0.freelancers == store.freelancers.push(
            record_of_fields(
                Collection::Freelancers,
                freelancer_document(body)(
                    decimal_spec((store.reserved.of(Collection::Freelancers) + 1) as nat),
                )->Ok_0,
            )->0,
        ),
{
    let ask = AskView::AddFreelancer(body);
    let collection = Collection::Freelancers;
    let keys = names_key();
    let script = script_of(state, ask, cookie, now);
    let none = Seq::<AnswerView>::empty();
    assert(keys == seq!["user_name"@]);
    assert(store.records(collection) == store.freelancers);
    let reserve = RequestView::Reserve { collection, many: 1 };
    assert(add_freelancer_spec(body, none) == StepView::<SingleView<FreelancerResponseView>>::Call(reserve));
    assert(script(none) == ServedView::<BodyView>::Call(reserve));
    let (first, counted) = store.perform(reserve);
    lemma_reserving_keeps(store, reserve);
    let new_id = decimal_spec((store.reserved.of(collection) + 1) as nat);
    let one = none.push(counted);
    assert(one[0] == counted);
    let index = RequestView::CreateIndex { collection, keys };
    assert(add_freelancer_spec(body, one) == StepView::<SingleView<FreelancerResponseView>>::Call(index));
    assert(script(one) == ServedView::<BodyView>::Call(index));
    let (second, made) = first.perform(index);
    assert(first.records(collection) == store.freelancers);
    if !has_index(first, collection, keys) {
        assert(!has_index(store, collection, keys)) by {
            if has_index(store, collection, keys) {
                let n = choose|n: int|
                    0 <= n < store.indexes.len() && #[trigger] store.indexes[n] == (IndexView {
                        collection,
                        keys,
                    });
                assert(first.indexes[n] == store.indexes[n]);
            }
        }
        assert(store.freelancers.len() == 0);
    }
    assert(made == AnswerView::IndexCreated);
    assert(second.records(collection) == store.freelancers);
    assert forall|n: int|
        0 <= n < second.indexes.len() && (#[trigger] second.indexes[n]).collection
            == collection implies second.indexes[n].keys == keys by {
        if n < store.indexes.len() {
            assert(second.indexes[n] == store.indexes[n]);
        }
    }
    let two = one.push(made);
    assert(two[0] == counted);
    assert(two[1] == made);
    lemma_freelancer_reads_back(
        body.user,
        new_id,
        text_or_empty(body.user.description),
        texts_or_none(body.skills),
    );
    let fields = freelancer_document(body)(new_id)->Ok_0;
    let insert = RequestView::InsertOne { collection, fields };
    assert(add_freelancer_spec(body, two) == StepView::<SingleView<FreelancerResponseView>>::Call(insert));
    assert(script(two) == ServedView::<BodyView>::Call(insert));
    let record = record_of_fields(collection, fields)->0;
    assert(record.text("user_name"@) == Some(body.user.user_name));
    assert forall|j: int| 0 <= j < store.freelancers.len() implies !clash(
        #[trigger] second.records(collection)[j],
        record,
        collection,
        second.indexes,
    ) by {
        if forbidden(store.freelancers[j], record, collection, second.indexes) {
            let n = choose|n: int|
                0 <= n < second.indexes.len() && (#[trigger] second.indexes[n]).collection
                    == collection && agree(store.freelancers[j], record, second.indexes[n].keys);
            assert(second.indexes[n].keys[0] == "user_name"@);
        }
    }
    let (third, stored) = second.perform(insert);
    assert(stored == AnswerView::Inserted(new_id));
    lemma_with_records(second, collection, store.freelancers.push(record));
    let three = two.push(stored);
    assert(three[0] == counted);
    assert(three[1] == made);
    assert(three[2] == stored);
    let look = RequestView::FindOne { collection, filter: FilterView::Id(new_id) };
    assert(add_freelancer_spec(body, three) == StepView::<SingleView<FreelancerResponseView>>::Call(look));
    assert(script(three) == ServedView::<BodyView>::Call(look));
    lemma_added_is_found(store.freelancers, record);
    let (fourth, read) = third.perform(look);
    assert(third.records(collection) == store.freelancers.push(record));
    assert(read == AnswerView::One(Some(record)));
    let four = three.push(read);
    assert(four[0] == counted);
    assert(four[1] == made);
    assert(four[2] == stored);
    assert(four[3] == read);
    assert(add_freelancer_spec(body, four) matches StepView::Done(Ok(_)));
    assert(script(four) is Done);
    reveal_with_fuel(run_from, 6);
    assert(run_spec(store, state, ask, cookie, now) == (third, script(four)->Done_0));
}

/// Posting a task under a title that no task has ends well: the task is
/// stored after those that there were, and is shown. So one task has this
/// title afterwards, and no more. This is so where the request is let in,
/// there is a number left to set aside, no task has the identifier made of
/// it, and tasks are kept apart by their titles alone.
pub proof fn lemma_fresh_task_is_posted(
    store: StoreView,
    state: AppView,
    body: CreateTaskView,
    cookie: Option<Seq<char>>,
    now: u64,
)
    requires
        consistent(store),
        let_in(state, AskView::CreateTask(body), cookie, now),
        store.reserved.of(Collection::Tasks) < u64::MAX,
        forall|i: int|
            0 <= i < store.tasks.len() ==> (#[trigger] store.tasks[i]).text("title"@) != Some(
                body.title,
            ),
        forall|i: int|
            0 <= i < store.tasks.len() ==> (#[trigger] store.tasks[i]).id() != decimal_spec(
                (store.reserved.of(Collection::Tasks) + 1) as nat,
            ),
        forall|n: int|
            0 <= n < store.indexes.len() && (#[trigger] store.indexes[n]).collection
                == Collection::Tasks ==> store.indexes[n].keys == title_key(),
    ensures
        run_spec(store, state, AskView::CreateTask(body), cookie, now).1.payload is Data,
        run_spec(store, state, AskView::CreateTask(body), cookie, now).0.tasks == store.tasks.push(
            record_of_fields(
                Collection::Tasks,
                task_document(body)(
                    decimal_spec((store.reserved.of(Collection::Tasks) + 1) as nat),
                )->Ok_0,
            )->0,
        ),
{
    let ask = AskView::CreateTask(body);
    let collection = Collection::Tasks;
    let keys = title_key();
    let script = script_of(state, ask, cookie, now);
    let none = Seq::<AnswerView>::empty();
    assert(keys == seq!["title"@]);
    assert(store.records(collection) == store.tasks);
    let reserve = RequestView::Reserve { collection, many: 1 };
    assert(create_task_spec(body, none) == StepView::<SingleView<TaskResponseView>>::Call(reserve));
    assert(script(none) == ServedView::<BodyView>::Call(reserve));
    let (first, counted) = store.perform(reserve);
    lemma_reserving_keeps(store, reserve);
    let new_id = decimal_spec((store.reserved.of(collection) + 1) as nat);
    let one = none.push(counted);
    assert(one[0] == counted);
    let index = RequestView::CreateIndex { collection, keys };
    assert(create_task_spec(body, one) == StepView::<SingleView<TaskResponseView>>::Call(index));
    assert(script(one) == ServedView::<BodyView>::Call(index));
    let (second, made) = first.perform(index);
    assert(first.records(collection) == store.tasks);
    if !has_index(first, collection, keys) {
        assert(!has_index(store, collection, keys)) by {
            if has_index(store, collection, keys) {
                let n = choose|n: int|
                    0 <= n < store.indexes.len() && #[trigger] store.indexes[n] == (IndexView {
                        collection,
                        keys,
                    });
                assert(first.indexes[n] == store.indexes[n]);
            }
        }
        assert(store.tasks.len() == 0);
    }
    assert(made == AnswerView::IndexCreated);
    assert(second.records(collection) == store.tasks);
    assert forall|n: int|
        0 <= n < second.indexes.len() && (#[trigger] second.indexes[n]).collection
            == collection implies second.indexes[n].keys == keys by {
        if n < store.indexes.len() {
            assert(second.indexes[n] == store.indexes[n]);
        }
    }
    let two = one.push(made);
    assert(two[0] == counted);
    assert(two[1] == made);
    lemma_task_reads_back(body, new_id);
    let fields = task_document(body)(new_id)->Ok_0;
    let insert = RequestView::InsertOne { collection, fields };
    assert(create_task_spec(body, two) == StepView::<SingleView<TaskResponseView>>::Call(insert));
    assert(script(two) == ServedView::<BodyView>::Call(insert));
    let record = record_of_fields(collection, fields)->0;
    assert(record.text("title"@) == Some(body.title));
    assert forall|j: int| 0 <= j < store.tasks.len() implies !clash(
        #[trigger] second.records(collection)[j],
        record,
        collection,
        second.indexes,
    ) by {
        if forbidden(store.tasks[j], record, collection, second.indexes) {
            let n = choose|n: int|
                0 <= n < second.indexes.len() && (#[trigger] second.indexes[n]).collection
                    == collection && agree(store.tasks[j], record, second.indexes[n].keys);
            assert(second.indexes[n].keys[0] == "title"@);
        }
    }
    let (third, stored) = second.perform(insert);
    assert(stored == AnswerView::Inserted(new_id));
    lemma_with_records(second, collection, store.tasks.push(record));
    let three = two.push(stored);
    assert(three[0] == counted);
    assert(three[1] == made);
    assert(three[2] == stored);
    let look = RequestView::FindOne { collection, filter: FilterView::Id(new_id) };
    assert(create_task_spec(body, three) == StepView::<SingleView<TaskResponseView>>::Call(look));
    assert(script(three) == ServedView::<BodyView>::Call(look));
    lemma_added_is_found(store.tasks, record);
    let (fourth, read) = third.perform(look);
    assert(third.records(collection) == store.tasks.push(record));
    assert(read == AnswerView::One(Some(record)));
    let four = three.push(read);
    assert(four[0] == counted);
    assert(four[1] == made);
    assert(four[2] == stored);
    assert(four[3] == read);
    assert(create_task_spec(body, four) matches StepView::Done(Ok(_)));
    assert(script(four) is Done);
    reveal_with_fuel(run_from, 6);
    assert(run_spec(store, state, ask, cookie, now) == (third, script(four)->Done_0));
}

} // verus!
