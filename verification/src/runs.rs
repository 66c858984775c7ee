//! What holds of the store, and of the answers, when the service serves a
//! request against the store.

use crate::conduct::{
    always, approve_known, create_known, index_ready, known_of, lemma_add_client_is_careful,
    lemma_add_freelancer_is_careful, lemma_add_milestones_is_careful, lemma_add_review_is_careful,
    lemma_approve_proposal_is_careful, lemma_batch_is_priced, lemma_create_task_is_careful,
    lemma_looking_up_reads, lemma_marked_is_accepted, lemma_service_is_careful,
    lemma_submit_proposal_is_careful, let_in, looks_up, milestones_known,
};
use crate::db::{
    add_milestones_spec, api_login_spec, approve_proposal_spec, attach_spec, begins,
    client_document, deal_document, freelancer_document, get_proposal_spec, ids_of,
    proposal_document, review_document, review_keys, show_new_deal, store_rest_spec, task_document,
    total_price,
};
use crate::document::FieldValue;
use crate::error::ErrorView;
use crate::handler::{
    AppView, AskView, BodyView, failure, no_token, PayloadView, ServedView, turned_away,
};
use crate::laws::{
    accepted_proposal, both, careful, consistent, follows, found, ids_differ, kept, Known,
    lemma_careful_both, lemma_careful_run, lemma_first_passing_is_there, lemma_follows_goes_on,
    lemma_follows_itself, lemma_indexed_field_is_unique, lemma_passing_are_there,
    lemma_perform_follows, lemma_perform_is_sound, lemma_reading_changes_nothing,
    lemma_reading_run, lemma_run_ends, lemma_run_follows, lemma_run_uses_its_calls,
    lemma_status_never_falls, lemma_with_records, named, names_key, prices_of, reads, records_kept,
    run_answers, sound, status_rank, title_key, typed,
};
use crate::memory::{
    clash, clashes, first_passing, MOST_CALLS, passing, run_from, run_spec, Script, script_of,
    StoreView,
};
use crate::model::MilestoneView;
use crate::reading::{lemma_client_reads_back, lemma_deal_reads_back, record_of_fields};
use crate::response::{ProposalDetailedView, SingleView, UserResponseView};
use crate::schema::{
    CreateClientView, CreateFreelancerView, CreateMilestoneView, CreateProposalView,
    CreateReviewView, CreateTaskView, LoginUserView,
};
use crate::steps::{
    create_spec, insert_and_read_spec, next_id_spec, show_client, show_freelancer, show_milestone,
    show_proposal, show_review, show_task, shown_all, text_or_empty,
};
use crate::store::{
    AnswerView, Collection, FilterView, RecordView, RequestView, StepView, UpdateView,
};
use crate::utils::{
    deal_of_proposal, INITIALIZED, NO_ADDRESS, shown_client, shown_freelancer, shown_proposal,
    shown_task, texts_or_none,
};
use crate::web::route::STATUS_OK;
use vstd::prelude::*;

verus! {

/// A request that is not let in is turned away, and the store is left as it
/// is.
pub proof fn lemma_turned_away(
    store: StoreView,
    state: AppView,
    ask: AskView,
    cookie: Option<Seq<char>>,
    now: u64,
)
    requires
        !let_in(state, ask, cookie, now),
    ensures
        run_spec(store, state, ask, cookie, now) == (store, turned_away::<BodyView>()),
{
}

/// Whatever request is served against a store that is as the service
/// leaves it, the store is so afterwards: it is in order; clients,
/// freelancers and tasks are stored under the indexes that keep names and
/// titles apart; every proposal that has milestones has the sum of their
/// prices for its price; every deal is the deal of an accepted proposal;
/// every milestone that has a link was submitted; and every milestone names
/// a proposal that there is. Nothing is taken out of the store.
pub proof fn lemma_run_is_consistent(
    store: StoreView,
    state: AppView,
    ask: AskView,
    cookie: Option<Seq<char>>,
    now: u64,
)
    requires
        consistent(store),
    ensures
        consistent(run_spec(store, state, ask, cookie, now).0),
        follows(store, run_spec(store, state, ask, cookie, now).0),
{
    lemma_service_is_careful(state, ask, cookie, now);
    assert(known_of(state, ask)(store, Seq::empty()));
    lemma_careful_run(
        store,
        script_of(state, ask, cookie, now),
        known_of(state, ask),
        Seq::empty(),
        MOST_CALLS as nat,
    );
}

/// A request that only looks things up leaves the store as it is.
pub proof fn lemma_looking_up_changes_nothing(
    store: StoreView,
    state: AppView,
    ask: AskView,
    cookie: Option<Seq<char>>,
    now: u64,
)
    requires
        looks_up(ask),
    ensures
        run_spec(store, state, ask, cookie, now).0 == store,
{
    let script = script_of(state, ask, cookie, now);
    assert forall|answers: Seq<AnswerView>| (#[trigger] script(answers)) is Call implies reads(
        script(answers)->Call_0,
    ) by {
        lemma_looking_up_reads(state, ask, cookie, now, answers);
    }
    lemma_reading_run(store, script, Seq::empty(), MOST_CALLS as nat);
}

/// In a store that is as the service leaves it, no two clients have the
/// same name, no two freelancers have, and no two tasks have the same title.
pub proof fn lemma_names_and_titles_are_unique(store: StoreView, i: int, j: int)
    requires
        consistent(store),
        0 <= i < j,
    ensures
        j < store.clients.len() ==> store.clients[i].text("user_name"@) != store.clients[j].text(
            "user_name"@,
        ),
        j < store.freelancers.len() ==> store.freelancers[i].text("user_name"@)
            != store.freelancers[j].text("user_name"@),
        j < store.tasks.len() ==> store.tasks[i].text("title"@) != store.tasks[j].text("title"@),
{
    if j < store.clients.len() {
        lemma_indexed_field_is_unique(store, Collection::Clients, "user_name"@, i, j);
    }
    if j < store.freelancers.len() {
        lemma_indexed_field_is_unique(store, Collection::Freelancers, "user_name"@, i, j);
    }
    if j < store.tasks.len() {
        lemma_indexed_field_is_unique(store, Collection::Tasks, "title"@, i, j);
    }
}

/// In a store that is as the service leaves it, every deal is the deal of
/// one proposal, and of one only; and this proposal is accepted.
pub proof fn lemma_deal_has_one_proposal(store: StoreView, k: int) -> (at: int)
    requires
        consistent(store),
        0 <= k < store.deals.len(),
    ensures
        0 <= at < store.proposals.len(),
        store.deals[k] matches RecordView::Deal(deal) && (
        store.proposals[at] matches RecordView::Proposal(proposal) && proposal.id
            == deal.proposal_id && proposal.accepted),
        forall|other: int|
            0 <= other < store.proposals.len() && other != at ==> (
            #[trigger] store.proposals[other]).id() != store.deals[k]->Deal_0.proposal_id,
{
    assert(store.records(Collection::Deals)[k].collection() == Collection::Deals);
    let deal = store.deals[k]->Deal_0;
    let at = choose|i: int|
        0 <= i < store.proposals.len() && ((
        #[trigger] store.proposals[i]) matches RecordView::Proposal(proposal) && proposal.id
            == deal.proposal_id && proposal.accepted);
    assert(ids_differ(store.records(Collection::Proposals)));
    assert forall|other: int| 0 <= other < store.proposals.len() && other != at implies (
    #[trigger] store.proposals[other]).id() != deal.proposal_id by {
        if other < at {
            assert(store.proposals[other].id() != store.proposals[at].id());
        } else {
            assert(store.proposals[at].id() != store.proposals[other].id());
        }
    }
    at
}

/// An accepted proposal stays accepted, whatever request is served, and
/// stays at its place under its identifier.
pub proof fn lemma_acceptance_is_for_good(
    store: StoreView,
    state: AppView,
    ask: AskView,
    cookie: Option<Seq<char>>,
    now: u64,
    at: int,
)
    requires
        0 <= at < store.proposals.len(),
        store.proposals[at] matches RecordView::Proposal(proposal) && proposal.accepted,
    ensures
        at < run_spec(store, state, ask, cookie, now).0.proposals.len(),
        run_spec(store, state, ask, cookie, now).0.proposals[at] matches RecordView::Proposal(
            proposal,
        ) && proposal.accepted && proposal.id == store.proposals[at].id(),
{
    let after = run_spec(store, state, ask, cookie, now).0;
    lemma_run_follows(store, script_of(state, ask, cookie, now), Seq::empty(), MOST_CALLS as nat);
    assert(records_kept(
        store.records(Collection::Proposals),
        after.records(Collection::Proposals),
    ));
    assert(kept(store.proposals[at], after.proposals[at]));
}

/// The call that marks a proposal as accepted, if it has not been accepted
/// before.
pub open spec fn mark(proposal_id: Seq<char>) -> RequestView {
    RequestView::FindOneAndUpdate {
        collection: Collection::Proposals,
        filter: FilterView::Pending(proposal_id),
        update: UpdateView::Accept,
    }
}

/// The store after a number of calls, one after the other.
pub open spec fn after_all(store: StoreView, requests: Seq<RequestView>) -> StoreView
    decreases requests.len(),
{
    if requests.len() == 0 {
        store
    } else {
        after_all(store, requests.drop_last()).perform(requests.last()).0
    }
}

/// Whatever calls are made, the store afterwards comes after the one
/// before, and is in order if that one was.
pub proof fn lemma_after_all(store: StoreView, requests: Seq<RequestView>)
    ensures
        follows(store, after_all(store, requests)),
        sound(store) ==> sound(after_all(store, requests)),
    decreases requests.len(),
{
    if requests.len() == 0 {
        lemma_follows_itself(store);
    } else {
        let before = after_all(store, requests.drop_last());
        lemma_after_all(store, requests.drop_last());
        lemma_perform_follows(before, requests.last());
        lemma_follows_goes_on(store, before, before.perform(requests.last()).0);
        if sound(store) {
            lemma_perform_is_sound(before, requests.last());
        }
    }
}

/// A proposal is marked as accepted once at most. Of two requests to accept
/// the same proposal, whatever else is asked of the store between their
/// calls, only the first can find the proposal to mark; the other is answered
/// that there is none.
pub proof fn lemma_marked_once(store: StoreView, proposal_id: Seq<char>, between: Seq<RequestView>)
    requires
        sound(store),
        store.perform(mark(proposal_id)).1 matches AnswerView::One(Some(_)),
    ensures
        after_all(store.perform(mark(proposal_id)).0, between).perform(mark(proposal_id)).1
            == AnswerView::One(None),
        after_all(store.perform(mark(proposal_id)).0, between).perform(mark(proposal_id)).0
            == after_all(store.perform(mark(proposal_id)).0, between),
{
    let marked = store.perform(mark(proposal_id)).0;
    let later = after_all(marked, between);
    lemma_marked_is_accepted(store, proposal_id);
    lemma_perform_is_sound(store, mark(proposal_id));
    lemma_after_all(marked, between);
    let at = choose|i: int|
        0 <= i < marked.proposals.len() && ((
        #[trigger] marked.proposals[i]) matches RecordView::Proposal(proposal) && proposal.id
            == proposal_id && proposal.accepted);
    assert(records_kept(
        marked.records(Collection::Proposals),
        later.records(Collection::Proposals),
    ));
    assert(kept(marked.proposals[at], later.proposals[at]));
    assert(ids_differ(later.records(Collection::Proposals)));
    lemma_first_passing_is_there(later.proposals, FilterView::Pending(proposal_id), 0);
    match first_passing(later.proposals, FilterView::Pending(proposal_id), 0) {
        Some(other) => {
            if other < at {
                assert(later.proposals[other].id() != later.proposals[at].id());
            } else if other > at {
                assert(later.proposals[at].id() != later.proposals[other].id());
            }
        },
        None => {},
    }
}

/// A deal is stored for a proposal only by a request that has just marked
/// the proposal as accepted: the request asks the store to store a deal only
/// after the store has answered its first call with the proposal that it
/// marked.
pub proof fn lemma_deal_needs_mark(proposal_id: Seq<char>, answers: Seq<AnswerView>)
    requires
        approve_proposal_spec(proposal_id, answers) matches StepView::Call(request) && (
        request is InsertOne || request is InsertMany),
    ensures
        answers.len() >= 1,
        answers[0] matches AnswerView::One(Some(RecordView::Proposal(_))),
{
}

/// The place among the answers of the answer to the insert, where a document
/// is created from the answer at `from` on.
pub open spec fn inserted_at(keys: Option<Seq<Seq<char>>>, from: int) -> int {
    if keys is Some {
        from + 2
    } else {
        from + 1
    }
}

/// What is known of the store once a new document has been read back: the
/// store still answers so to whoever asks for the document of this
/// identifier.
pub open spec fn read_known(collection: Collection, keys: Option<Seq<Seq<char>>>, from: int) -> Known {
    |store: StoreView, answers: Seq<AnswerView>|
        answers.len() > inserted_at(keys, from) + 1 ==> (answers[inserted_at(
            keys,
            from,
        )] matches AnswerView::Inserted(id) ==> answers[inserted_at(keys, from) + 1]
            == store.perform(RequestView::FindOne { collection, filter: FilterView::Id(id) }).1)
}

/// While a document is created, what was read back is what the store holds.
pub proof fn lemma_create_reads_back<V>(
    store: StoreView,
    collection: Collection,
    keys: Option<Seq<Seq<char>>>,
    fields: spec_fn(Seq<char>) -> Result<Map<Seq<char>, FieldValue>, ErrorView>,
    show: spec_fn(RecordView) -> Result<V, ErrorView>,
    answers: Seq<AnswerView>,
    from: int,
)
    requires
        0 <= from,
        create_spec(collection, keys, fields, show, answers, from) is Call,
    ensures
        read_known(collection, keys, from)(
            store.perform(create_spec(collection, keys, fields, show, answers, from)->Call_0).0,
            answers.push(
                store.perform(create_spec(collection, keys, fields, show, answers, from)->Call_0).1,
            ),
        ),
{
    let request = create_spec(collection, keys, fields, show, answers, from)->Call_0;
    let more = answers.push(store.perform(request).1);
    let at = inserted_at(keys, from);
    if answers.len() > from {
        let stored = fields(next_id_spec(answers[from]->Count_0)->Ok_0)->Ok_0;
        assert(request == insert_and_read_spec(collection, keys, stored, answers, from + 1)->Call_0);
        if more.len() > at + 1 {
            assert(answers.len() == at + 1);
            assert(more[at] == answers[at]);
        }
    }
}

/// The creating of a document ends well only once the document has been
/// stored and read back; and what is shown is the document that was read
/// back.
pub proof fn lemma_create_ends<V>(
    collection: Collection,
    keys: Option<Seq<Seq<char>>>,
    fields: spec_fn(Seq<char>) -> Result<Map<Seq<char>, FieldValue>, ErrorView>,
    show: spec_fn(RecordView) -> Result<V, ErrorView>,
    answers: Seq<AnswerView>,
    from: int,
)
    requires
        0 <= from,
        create_spec(collection, keys, fields, show, answers, from) matches StepView::Done(Ok(_)),
    ensures
        answers.len() > inserted_at(keys, from) + 1,
        answers[inserted_at(keys, from)] is Inserted,
        answers[inserted_at(keys, from) + 1] matches AnswerView::One(Some(record)) && show(record)
            == Ok::<V, ErrorView>(
            create_spec(collection, keys, fields, show, answers, from)->Done_0->Ok_0,
        ),
{
}

/// What the store answers to who asks for the document of an identifier, if
/// it answers with a document, is a document of this identifier.
pub proof fn lemma_found_by_id(store: StoreView, collection: Collection, id: Seq<char>)
    ensures
        store.perform(RequestView::FindOne { collection, filter: FilterView::Id(id) }).1
            matches AnswerView::One(Some(record)) ==> record.id() == id,
{
    lemma_first_passing_is_there(store.records(collection), FilterView::Id(id), 0);
}

/// A record that has just been added to the end of the records, under an
/// identifier that none of them has, is the record found under its
/// identifier.
pub proof fn lemma_added_is_found(records: Seq<RecordView>, record: RecordView)
    requires
        forall|j: int| 0 <= j < records.len() ==> (#[trigger] records[j]).id() != record.id(),
    ensures
        found(records.push(record), record.id()) == Some(record),
{
    let after = records.push(record);
    let filter = FilterView::Id(record.id());
    assert forall|j: int| 0 <= j < records.len() implies !(#[trigger] after[j]).passes(filter) by {
        assert(after[j] == records[j]);
    }
    lemma_first_passing_is_there(after, filter, 0);
    assert(after[records.len() as int] == record);
}

/// What is known of the store once a new document has been stored: the
/// record found under the identifier that the store gave is the one that the
/// document reads as.
pub open spec fn stored_known(
    collection: Collection,
    keys: Option<Seq<Seq<char>>>,
    fields: spec_fn(Seq<char>) -> Result<Map<Seq<char>, FieldValue>, ErrorView>,
    from: int,
) -> Known {
    |store: StoreView, answers: Seq<AnswerView>|
        answers.len() > inserted_at(keys, from) ==> (answers[inserted_at(
            keys,
            from,
        )] matches AnswerView::Inserted(id) ==> (answers[from] matches AnswerView::Count(count)
            && (next_id_spec(count) matches Ok(new_id) && (fields(new_id) matches Ok(stored)
            && (record_of_fields(collection, stored) is Some && found(
            store.records(collection),
            id,
        ) == record_of_fields(collection, stored))))))
}

/// While a document is created, the record found under the identifier that
/// the store gave is the one that the document reads as.
pub proof fn lemma_create_stores<V>(
    store: StoreView,
    collection: Collection,
    keys: Option<Seq<Seq<char>>>,
    fields: spec_fn(Seq<char>) -> Result<Map<Seq<char>, FieldValue>, ErrorView>,
    show: spec_fn(RecordView) -> Result<V, ErrorView>,
    answers: Seq<AnswerView>,
    from: int,
)
    requires
        0 <= from,
        create_spec(collection, keys, fields, show, answers, from) is Call,
        stored_known(collection, keys, fields, from)(store, answers),
    ensures
        stored_known(collection, keys, fields, from)(
            store.perform(create_spec(collection, keys, fields, show, answers, from)->Call_0).0,
            answers.push(
                store.perform(create_spec(collection, keys, fields, show, answers, from)->Call_0).1,
            ),
        ),
{
    let request = create_spec(collection, keys, fields, show, answers, from)->Call_0;
    let after = store.perform(request).0;
    let more = answers.push(store.perform(request).1);
    let at = inserted_at(keys, from);
    if answers.len() > from {
        let stored = fields(next_id_spec(answers[from]->Count_0)->Ok_0)->Ok_0;
        assert(request == insert_and_read_spec(collection, keys, stored, answers, from + 1)->Call_0);
        assert(more[from] == answers[from]);
        if answers.len() == at {
            assert(request == RequestView::InsertOne { collection, fields: stored });
            if let AnswerView::Inserted(id) = more[at] {
                let record = record_of_fields(collection, stored)->0;
                let records = store.records(collection);
                assert(!clashes(records, record, -1, collection, store.indexes));
                assert forall|j: int| 0 <= j < records.len() implies (#[trigger] records[j]).id()
                    != record.id() by {
                    assert(!clash(records[j], record, collection, store.indexes));
                }
                lemma_added_is_found(records, record);
                lemma_with_records(store, collection, records.push(record));
            }
        } else if answers.len() > at {
            assert(more[at] == answers[at]);
            lemma_reading_changes_nothing(store, request);
        }
    }
}

/// Running a careful script that creates a document: at the end, what was
/// read back is what the store holds, and it is what the document that was
/// stored reads as.
pub proof fn lemma_create_run<V>(
    store: StoreView,
    script: Script,
    first: Known,
    collection: Collection,
    keys: Option<Seq<Seq<char>>>,
    fields: spec_fn(Seq<char>) -> Result<Map<Seq<char>, FieldValue>, ErrorView>,
    show: spec_fn(RecordView) -> Result<V, ErrorView>,
)
    requires
        consistent(store),
        first(store, Seq::<AnswerView>::empty()),
        careful(script, first),
        forall|answers: Seq<AnswerView>|
            (#[trigger] script(answers)) is Call ==> create_spec(
                collection,
                keys,
                fields,
                show,
                answers,
                0,
            ) == StepView::<V>::Call(script(answers)->Call_0),
    ensures
        read_known(collection, keys, 0)(
            run_from(store, script, Seq::empty(), MOST_CALLS as nat).0,
            run_answers(store, script, Seq::empty(), MOST_CALLS as nat),
        ),
        stored_known(collection, keys, fields, 0)(
            run_from(store, script, Seq::empty(), MOST_CALLS as nat).0,
            run_answers(store, script, Seq::empty(), MOST_CALLS as nat),
        ),
        script(run_answers(store, script, Seq::empty(), MOST_CALLS as nat)) matches ServedView::Done(
            reply,
        ) ==> run_from(store, script, Seq::empty(), MOST_CALLS as nat).1 == reply,
        script(run_answers(store, script, Seq::empty(), MOST_CALLS as nat)) is Call ==> run_from(
            store,
            script,
            Seq::empty(),
            MOST_CALLS as nat,
        ).1.payload is Fault,
        consistent(run_from(store, script, Seq::empty(), MOST_CALLS as nat).0),
{
    let second = read_known(collection, keys, 0);
    let third = stored_known(collection, keys, fields, 0);
    assert forall|store: StoreView, answers: Seq<AnswerView>|
        #![trigger second(store, answers)]
        consistent(store) && first(store, answers) && second(store, answers) && script(answers)
            is Call implies second(
        store.perform(script(answers)->Call_0).0,
        answers.push(store.perform(script(answers)->Call_0).1),
    ) by {
        lemma_create_reads_back(store, collection, keys, fields, show, answers, 0);
    }
    lemma_careful_both(script, first, second);
    assert forall|store: StoreView, answers: Seq<AnswerView>|
        #![trigger third(store, answers)]
        consistent(store) && both(first, second)(store, answers) && third(store, answers)
            && script(answers) is Call implies third(
        store.perform(script(answers)->Call_0).0,
        answers.push(store.perform(script(answers)->Call_0).1),
    ) by {
        lemma_create_stores(store, collection, keys, fields, show, answers, 0);
    }
    lemma_careful_both(script, both(first, second), third);
    lemma_careful_run(
        store,
        script,
        both(both(first, second), third),
        Seq::empty(),
        MOST_CALLS as nat,
    );
    lemma_run_ends(store, script, Seq::empty(), MOST_CALLS as nat);
}

/// A task that has been posted is found under its identifier, and is shown
/// as it was shown when it was posted.
pub proof fn lemma_posted_task_is_found(
    store: StoreView,
    state: AppView,
    body: CreateTaskView,
    cookie: Option<Seq<char>>,
    now: u64,
)
    requires
        consistent(store),
    ensures
        run_spec(store, state, AskView::CreateTask(body), cookie, now).1.payload
            matches PayloadView::Data(BodyView::Task(shown)) ==> (run_spec(
            store,
            state,
            AskView::CreateTask(body),
            cookie,
            now,
        ).0.perform(
            RequestView::FindOne {
                collection: Collection::Tasks,
                filter: FilterView::Id(shown.data.id),
            },
        ).1 matches AnswerView::One(Some(RecordView::Task(task))) && shown_task(task) == shown.data),
{
    let script = script_of(state, AskView::CreateTask(body), cookie, now);
    let keys = Some(title_key());
    lemma_create_task_is_careful(state, body, cookie, now);
    lemma_create_run(
        store,
        script,
        create_known(keys, index_ready(Collection::Tasks, title_key()), 0),
        Collection::Tasks,
        keys,
        task_document(body),
        show_task(),
    );
    let (after, reply) = run_from(store, script, Seq::empty(), MOST_CALLS as nat);
    let last = run_answers(store, script, Seq::empty(), MOST_CALLS as nat);
    if let PayloadView::Data(BodyView::Task(shown)) = reply.payload {
        assert(script(last) == ServedView::Done(reply));
        lemma_create_ends(Collection::Tasks, keys, task_document(body), show_task(), last, 0);
        lemma_found_by_id(after, Collection::Tasks, last[2]->Inserted_0);
    }
}

/// A client that has registered is found under its identifier, and is shown
/// as it was shown when it registered.
pub proof fn lemma_new_client_is_found(
    store: StoreView,
    state: AppView,
    body: CreateClientView,
    cookie: Option<Seq<char>>,
    now: u64,
)
    requires
        consistent(store),
    ensures
        run_spec(store, state, AskView::AddClient(body), cookie, now).1.payload
            matches PayloadView::Data(BodyView::Client(shown)) ==> (run_spec(
            store,
            state,
            AskView::AddClient(body),
            cookie,
            now,
        ).0.perform(
            RequestView::FindOne {
                collection: Collection::Clients,
                filter: FilterView::Id(shown.data.user.id),
            },
        ).1 matches AnswerView::One(Some(RecordView::Client(client))) && shown_client(client) == Some(shown.data)),
{
    let script = script_of(state, AskView::AddClient(body), cookie, now);
    let keys = Some(names_key());
    lemma_add_client_is_careful(state, body, cookie, now);
    lemma_create_run(
        store,
        script,
        create_known(keys, index_ready(Collection::Clients, names_key()), 0),
        Collection::Clients,
        keys,
        client_document(body),
        show_client(),
    );
    let (after, reply) = run_from(store, script, Seq::empty(), MOST_CALLS as nat);
    let last = run_answers(store, script, Seq::empty(), MOST_CALLS as nat);
    if let PayloadView::Data(BodyView::Client(shown)) = reply.payload {
        assert(script(last) == ServedView::Done(reply));
        lemma_create_ends(Collection::Clients, keys, client_document(body), show_client(), last, 0);
        lemma_found_by_id(after, Collection::Clients, last[2]->Inserted_0);
    }
}

/// A freelancer that has registered is found under its identifier, and is
/// shown as it was shown when it registered.
pub proof fn lemma_new_freelancer_is_found(
    store: StoreView,
    state: AppView,
    body: CreateFreelancerView,
    cookie: Option<Seq<char>>,
    now: u64,
)
    requires
        consistent(store),
    ensures
        run_spec(store, state, AskView::AddFreelancer(body), cookie, now).1.payload
            matches PayloadView::Data(BodyView::Freelancer(shown)) ==> (run_spec(
            store,
            state,
            AskView::AddFreelancer(body),
            cookie,
            now,
        ).0.perform(
            RequestView::FindOne {
                collection: Collection::Freelancers,
                filter: FilterView::Id(shown.data.user.id),
            },
        ).1 matches AnswerView::One(Some(RecordView::Freelancer(freelancer))) && shown_freelancer(freelancer) == Some(shown.data)),
{
    let script = script_of(state, AskView::AddFreelancer(body), cookie, now);
    let keys = Some(names_key());
    lemma_add_freelancer_is_careful(state, body, cookie, now);
    lemma_create_run(
        store,
        script,
        create_known(keys, index_ready(Collection::Freelancers, names_key()), 0),
        Collection::Freelancers,
        keys,
        freelancer_document(body),
        show_freelancer(),
    );
    let (after, reply) = run_from(store, script, Seq::empty(), MOST_CALLS as nat);
    let last = run_answers(store, script, Seq::empty(), MOST_CALLS as nat);
    if let PayloadView::Data(BodyView::Freelancer(shown)) = reply.payload {
        assert(script(last) == ServedView::Done(reply));
        lemma_create_ends(Collection::Freelancers, keys, freelancer_document(body), show_freelancer(), last, 0);
        lemma_found_by_id(after, Collection::Freelancers, last[2]->Inserted_0);
    }
}

/// A review that has been left is found under its identifier, as it was
/// shown when it was left.
pub proof fn lemma_new_review_is_found(
    store: StoreView,
    state: AppView,
    body: CreateReviewView,
    cookie: Option<Seq<char>>,
    now: u64,
)
    requires
        consistent(store),
    ensures
        run_spec(store, state, AskView::AddReview(body), cookie, now).1.payload
            matches PayloadView::Data(BodyView::Review(shown)) ==> (run_spec(
            store,
            state,
            AskView::AddReview(body),
            cookie,
            now,
        ).0.perform(
            RequestView::FindOne {
                collection: Collection::Reviews,
                filter: FilterView::Id(shown.data.id),
            },
        ).1 matches AnswerView::One(Some(RecordView::Review(review))) && review == shown.data),
{
    let script = script_of(state, AskView::AddReview(body), cookie, now);
    let keys = review_keys(state.db.review_key);
    lemma_add_review_is_careful(state, body, cookie, now);
    lemma_create_run(
        store,
        script,
        create_known(keys, always(), 0),
        Collection::Reviews,
        keys,
        review_document(body),
        show_review(),
    );
    let (after, reply) = run_from(store, script, Seq::empty(), MOST_CALLS as nat);
    let last = run_answers(store, script, Seq::empty(), MOST_CALLS as nat);
    if let PayloadView::Data(BodyView::Review(shown)) = reply.payload {
        assert(script(last) == ServedView::Done(reply));
        lemma_create_ends(Collection::Reviews, keys, review_document(body), show_review(), last, 0);
        lemma_found_by_id(after, Collection::Reviews, last[inserted_at(keys, 0)]->Inserted_0);
    }
}

/// A proposal that has been submitted is found under its identifier, and is
/// shown as it was shown when it was submitted.
pub proof fn lemma_new_proposal_is_found(
    store: StoreView,
    state: AppView,
    body: CreateProposalView,
    cookie: Option<Seq<char>>,
    now: u64,
)
    requires
        consistent(store),
    ensures
        run_spec(store, state, AskView::SubmitProposal(body), cookie, now).1.payload
            matches PayloadView::Data(BodyView::Proposal(shown)) ==> (run_spec(
            store,
            state,
            AskView::SubmitProposal(body),
            cookie,
            now,
        ).0.perform(
            RequestView::FindOne {
                collection: Collection::Proposals,
                filter: FilterView::Id(shown.data.id),
            },
        ).1 matches AnswerView::One(Some(RecordView::Proposal(proposal))) && shown_proposal(proposal) == shown.data),
{
    let script = script_of(state, AskView::SubmitProposal(body), cookie, now);
    let keys = None;
    lemma_submit_proposal_is_careful(state, body, cookie, now);
    lemma_create_run(
        store,
        script,
        create_known(keys, always(), 0),
        Collection::Proposals,
        keys,
        proposal_document(body),
        show_proposal(),
    );
    let (after, reply) = run_from(store, script, Seq::empty(), MOST_CALLS as nat);
    let last = run_answers(store, script, Seq::empty(), MOST_CALLS as nat);
    if let PayloadView::Data(BodyView::Proposal(shown)) = reply.payload {
        assert(script(last) == ServedView::Done(reply));
        lemma_create_ends(Collection::Proposals, keys, proposal_document(body), show_proposal(), last, 0);
        lemma_found_by_id(after, Collection::Proposals, last[1]->Inserted_0);
    }
}

/// A proposal that has been submitted is shown, to whoever asks for it by its
/// identifier with a good session, as it was shown when it was submitted,
/// together with the milestones that name it.
pub proof fn lemma_new_proposal_is_shown(
    store: StoreView,
    state: AppView,
    body: CreateProposalView,
    cookie: Option<Seq<char>>,
    now: u64,
    session: Option<Seq<char>>,
    later: u64,
)
    requires
        consistent(store),
    ensures
        run_spec(store, state, AskView::SubmitProposal(body), cookie, now).1.payload
            matches PayloadView::Data(BodyView::Proposal(shown)) ==> ({
            let after = run_spec(store, state, AskView::SubmitProposal(body), cookie, now).0;
            let ask = AskView::GetProposal(shown.data.id);
            let (last, reply) = run_spec(after, state, ask, session, later);
            let_in(state, ask, session, later) ==> last == after && (reply.payload
                matches PayloadView::Data(BodyView::DetailedProposal(detailed))
                && detailed.data.id == shown.data.id && detailed.data.client_id
                == shown.data.client_id && detailed.data.task_id == shown.data.task_id
                && detailed.data.freelancer_id == shown.data.freelancer_id
                && detailed.data.proposal_price == shown.data.proposal_price
                && detailed.data.accepted == shown.data.accepted && shown_all(
                passing(after.milestones, FilterView::Proposal(shown.data.id)),
                show_milestone(),
            ) == Ok::<Seq<MilestoneView>, ErrorView>(detailed.data.milestones))
        }),
{
    lemma_new_proposal_is_found(store, state, body, cookie, now);
    let (after, created) = run_spec(store, state, AskView::SubmitProposal(body), cookie, now);
    if let PayloadView::Data(BodyView::Proposal(shown)) = created.payload {
        let id = shown.data.id;
        let ask = AskView::GetProposal(id);
        if let_in(state, ask, session, later) {
            lemma_run_is_consistent(store, state, AskView::SubmitProposal(body), cookie, now);
            let script = script_of(state, ask, session, later);
            let none = Seq::<AnswerView>::empty();
            let find = RequestView::FindOne {
                collection: Collection::Proposals,
                filter: FilterView::Id(id),
            };
            let list = RequestView::Find {
                collection: Collection::Milestones,
                filter: FilterView::Proposal(id),
            };
            assert(get_proposal_spec(id, none) == StepView::<
                SingleView<ProposalDetailedView>,
            >::Call(find));
            assert(script(none) == ServedView::<BodyView>::Call(find));
            let one = none.push(after.perform(find).1);
            assert(one[0] == after.perform(find).1);
            assert(get_proposal_spec(id, one) == StepView::<
                SingleView<ProposalDetailedView>,
            >::Call(list));
            assert(script(one) == ServedView::<BodyView>::Call(list));
            let two = one.push(after.perform(list).1);
            assert(two[0] == one[0]);
            assert(two[1] == after.perform(list).1);
            let records = passing(after.milestones, FilterView::Proposal(id));
            assert forall|i: int| 0 <= i < records.len() implies (#[trigger] records[i]).collection()
                == Collection::Milestones by {
                lemma_passing_are_there(after.milestones, FilterView::Proposal(id), i);
                let j = choose|j: int|
                    0 <= j < after.milestones.len() && #[trigger] after.milestones[j] == records[i];
                assert(after.records(Collection::Milestones)[j].collection()
                    == Collection::Milestones);
            }
            lemma_milestones_are_shown(after, records);
            assert(script(two) is Done);
            reveal_with_fuel(run_from, 4);
            assert(run_spec(after, state, ask, session, later) == (after, script(two)->Done_0));
        }
    }
}

/// Milestones of the store can all be shown.
pub proof fn lemma_milestones_are_shown(store: StoreView, records: Seq<RecordView>)
    requires
        forall|i: int|
            0 <= i < records.len() ==> (#[trigger] records[i]).collection()
                == Collection::Milestones,
    ensures
        shown_all(records, show_milestone()) is Ok,
    decreases records.len(),
{
    if records.len() > 0 {
        assert forall|i: int| 0 <= i < records.drop_last().len() implies (
        #[trigger] records.drop_last()[i]).collection() == Collection::Milestones by {
            assert(records.drop_last()[i] == records[i]);
        }
        lemma_milestones_are_shown(store, records.drop_last());
        assert(records.last() == records[records.len() - 1]);
    }
}

/// The request to log in as a client.
pub open spec fn client_login(user_name: Seq<char>, password: Seq<char>) -> AskView {
    AskView::ApiLogin(LoginUserView { user_name, password, role: "client"@ })
}

/// A client that has registered is stored with the name and the password
/// that it sent, and is the client that is found under this name.
pub proof fn lemma_new_client_is_stored(
    store: StoreView,
    state: AppView,
    body: CreateClientView,
    cookie: Option<Seq<char>>,
    now: u64,
)
    requires
        consistent(store),
        run_spec(store, state, AskView::AddClient(body), cookie, now).1.payload is Data,
    ensures
        consistent(run_spec(store, state, AskView::AddClient(body), cookie, now).0),
        run_spec(store, state, AskView::AddClient(body), cookie, now).0.perform(
            RequestView::FindOne {
                collection: Collection::Clients,
                filter: FilterView::UserName(body.user.user_name),
            },
        ).1 matches AnswerView::One(Some(RecordView::Client(client))) && client.user.password
            == body.user.password && client.user.description is Some && client.user.user_name
            == body.user.user_name,
{
    let script = script_of(state, AskView::AddClient(body), cookie, now);
    let keys = Some(names_key());
    let fields = client_document(body);
    lemma_add_client_is_careful(state, body, cookie, now);
    lemma_create_run(
        store,
        script,
        create_known(keys, index_ready(Collection::Clients, names_key()), 0),
        Collection::Clients,
        keys,
        fields,
        show_client(),
    );
    let (after, reply) = run_from(store, script, Seq::empty(), MOST_CALLS as nat);
    let last = run_answers(store, script, Seq::empty(), MOST_CALLS as nat);
    assert(script(last) == ServedView::Done(reply));
    lemma_create_ends(Collection::Clients, keys, fields, show_client(), last, 0);
    let id = last[2]->Inserted_0;
    let new_id = next_id_spec(last[0]->Count_0)->Ok_0;
    lemma_client_reads_back(
        body.user,
        new_id,
        text_or_empty(body.user.description),
        texts_or_none(body.task_ids),
    );
    let records = after.records(Collection::Clients);
    let name = body.user.user_name;
    lemma_first_passing_is_there(records, FilterView::Id(id), 0);
    let at = first_passing(records, FilterView::Id(id), 0)->0;
    assert(records[at].text("user_name"@) == Some(name));
    lemma_first_passing_is_there(records, FilterView::UserName(name), 0);
    match first_passing(records, FilterView::UserName(name), 0) {
        Some(other) => {
            if other < at {
                lemma_indexed_field_is_unique(after, Collection::Clients, "user_name"@, other, at);
            }
        },
        None => {},
    }
}

/// After a client has registered, logging in as this client with the
/// password that it sent goes well, and opens a session, unless no token can
/// be made; and logging in as this client with any other password fails.
/// Either way the store is left as it is.
pub proof fn lemma_login_after_registering(
    store: StoreView,
    state: AppView,
    body: CreateClientView,
    password: Seq<char>,
    cookie: Option<Seq<char>>,
    now: u64,
    shown: Option<Seq<char>>,
    later: u64,
)
    requires
        consistent(store),
        run_spec(store, state, AskView::AddClient(body), cookie, now).1.payload is Data,
    ensures
        ({
            let registered = run_spec(store, state, AskView::AddClient(body), cookie, now).0;
            let (after, reply) = run_spec(
                registered,
                state,
                client_login(body.user.user_name, password),
                shown,
                later,
            );
            &&& after == registered
            &&& password == body.user.password ==> (reply.payload is Data && reply.status
                == STATUS_OK && reply.cookie is Some) || reply == no_token::<BodyView>()
            &&& password != body.user.password ==> reply == failure::<BodyView>(
                ErrorView::InvalidPasswordError,
            )
        }),
{
    let registered = run_spec(store, state, AskView::AddClient(body), cookie, now).0;
    lemma_new_client_is_stored(store, state, body, cookie, now);
    let name = body.user.user_name;
    let ask = client_login(name, password);
    let script = script_of(state, ask, shown, later);
    let request = RequestView::FindOne {
        collection: Collection::Clients,
        filter: FilterView::UserName(name),
    };
    let none = Seq::<AnswerView>::empty();
    assert(api_login_spec(ask->ApiLogin_0, none) == StepView::<
        SingleView<UserResponseView>,
    >::Call(request));
    assert(script(none) == ServedView::<BodyView>::Call(request));
    let answer = registered.perform(request).1;
    let one = none.push(answer);
    assert(one[0] == answer);
    assert(script(one) is Done);
    reveal_with_fuel(run_from, 3);
    assert(run_spec(registered, state, ask, shown, later) == (registered, script(one)->Done_0));
}

/// Every milestone names a proposal that there is, whatever was asked of the
/// service and however it was answered: milestones are stored only once
/// their proposal was found.
pub proof fn lemma_milestones_name_proposals(
    store: StoreView,
    state: AppView,
    ask: AskView,
    cookie: Option<Seq<char>>,
    now: u64,
)
    requires
        consistent(store),
    ensures
        named(run_spec(store, state, ask, cookie, now).0),
{
    lemma_run_is_consistent(store, state, ask, cookie, now);
}

/// What is known of the store while a proposal is accepted, as to the deal:
/// the proposal that the store has marked is the one that was asked for, and
/// is accepted; and the deal that has been stored for it is found under its
/// identifier as it was made.
pub open spec fn deal_known(proposal_id: Seq<char>) -> Known {
    |store: StoreView, answers: Seq<AnswerView>|
        answers.len() >= 1 ==> (answers[0] matches AnswerView::One(
            Some(RecordView::Proposal(proposal)),
        ) ==> proposal.id == proposal_id && proposal.accepted && read_known(
            Collection::Deals,
            None,
            1,
        )(store, answers) && stored_known(
            Collection::Deals,
            None,
            deal_document(deal_of_proposal(proposal)),
            1,
        )(store, answers))
}

/// What is known of the deal while a proposal is accepted is still known
/// after the next call.
pub proof fn lemma_deal_goes_on(
    store: StoreView,
    state: AppView,
    proposal_id: Seq<char>,
    cookie: Option<Seq<char>>,
    now: u64,
    answers: Seq<AnswerView>,
)
    requires
        consistent(store),
        deal_known(proposal_id)(store, answers),
        script_of(state, AskView::ApproveProposal(proposal_id), cookie, now)(answers) is Call,
    ensures
        deal_known(proposal_id)(
            store.perform(
                script_of(state, AskView::ApproveProposal(proposal_id), cookie, now)(
                    answers,
                )->Call_0,
            ).0,
            answers.push(
                store.perform(
                    script_of(state, AskView::ApproveProposal(proposal_id), cookie, now)(
                        answers,
                    )->Call_0,
                ).1,
            ),
        ),
{
    let script = script_of(state, AskView::ApproveProposal(proposal_id), cookie, now);
    let request = script(answers)->Call_0;
    let more = answers.push(store.perform(request).1);
    assert(request == approve_proposal_spec(proposal_id, answers)->Call_0);
    if answers.len() == 0 {
        lemma_marked_is_accepted(store, proposal_id);
    } else {
        assert(more[0] == answers[0]);
        if let AnswerView::One(Some(RecordView::Proposal(proposal))) = answers[0] {
            let deal = deal_of_proposal(proposal);
            lemma_create_reads_back(
                store,
                Collection::Deals,
                None,
                deal_document(deal),
                show_new_deal(deal),
                answers,
                1,
            );
            lemma_create_stores(
                store,
                Collection::Deals,
                None,
                deal_document(deal),
                show_new_deal(deal),
                answers,
                1,
            );
        }
    }
}

/// When a proposal has been accepted, the answer shows the proposal as
/// accepted, and its deal: for this proposal, at the price that the proposal
/// has in the answer, just made and without an address. The deal is found
/// under its identifier as it is shown, and the store has the proposal as an
/// accepted one.
pub proof fn lemma_accepted_has_its_deal(
    store: StoreView,
    state: AppView,
    proposal_id: Seq<char>,
    cookie: Option<Seq<char>>,
    now: u64,
)
    requires
        consistent(store),
    ensures
        run_spec(store, state, AskView::ApproveProposal(proposal_id), cookie, now).1.payload
            matches PayloadView::Data(BodyView::ProposalDeal(shown)) ==> ({
            let after = run_spec(
                store,
                state,
                AskView::ApproveProposal(proposal_id),
                cookie,
                now,
            ).0;
            &&& shown.data.proposal.id == proposal_id
            &&& shown.data.proposal.accepted
            &&& shown.data.deal.proposal_id == proposal_id
            &&& shown.data.deal.price == shown.data.proposal.proposal_price
            &&& shown.data.deal.status == INITIALIZED@
            &&& shown.data.deal.address == NO_ADDRESS@
            &&& accepted_proposal(after.proposals, proposal_id)
            &&& after.perform(
                RequestView::FindOne {
                    collection: Collection::Deals,
                    filter: FilterView::Id(shown.data.deal.id),
                },
            ).1 == AnswerView::One(Some(RecordView::Deal(shown.data.deal)))
        }),
{
    let ask = AskView::ApproveProposal(proposal_id);
    let script = script_of(state, ask, cookie, now);
    let first = approve_known();
    let second = deal_known(proposal_id);
    lemma_approve_proposal_is_careful(state, proposal_id, cookie, now);
    assert forall|store: StoreView, answers: Seq<AnswerView>|
        #![trigger second(store, answers)]
        consistent(store) && first(store, answers) && second(store, answers) && script(answers)
            is Call implies second(
        store.perform(script(answers)->Call_0).0,
        answers.push(store.perform(script(answers)->Call_0).1),
    ) by {
        lemma_deal_goes_on(store, state, proposal_id, cookie, now, answers);
    }
    lemma_careful_both(script, first, second);
    let calls = MOST_CALLS as nat;
    let none = Seq::<AnswerView>::empty();
    lemma_careful_run(store, script, both(first, second), none, calls);
    lemma_run_ends(store, script, none, calls);
    let (after, reply) = run_from(store, script, none, calls);
    let last = run_answers(store, script, none, calls);
    if let PayloadView::Data(BodyView::ProposalDeal(shown)) = reply.payload {
        assert(script(last) == ServedView::Done(reply));
        assert(approve_proposal_spec(proposal_id, last) matches StepView::Done(Ok(_)));
        let proposal = last[0]->One_0->0->Proposal_0;
        let deal = deal_of_proposal(proposal);
        lemma_create_ends(
            Collection::Deals,
            None,
            deal_document(deal),
            show_new_deal(deal),
            last,
            1,
        );
        assert(second(after, last));
        let id = last[2]->Inserted_0;
        let new_id = next_id_spec(last[1]->Count_0)->Ok_0;
        lemma_deal_reads_back(deal, new_id);
        lemma_found_by_id(after, Collection::Deals, id);
        assert(first(after, last));
    }
}

/// Whether the record is the proposal of the identifier, with the given
/// milestones and the given price.
pub open spec fn is_attached(record: RecordView, id: Seq<char>, ids: Seq<Seq<char>>, price: nat) -> bool {
    record matches RecordView::Proposal(proposal) && proposal.id == id && proposal.milestones_id
        == Some(ids) && proposal.proposal_price == price
}

/// What is known of the answers while milestones are attached: the proposal
/// that was found is the one that the batch names; the store gives as many
/// identifiers as it was given milestones to store; and the proposal that it
/// gives back is the one that the batch names, with the identifiers of the
/// milestones of the batch for its milestones and the price of the batch for
/// its price.
pub open spec fn attached_known(batch: Seq<CreateMilestoneView>) -> Known {
    |store: StoreView, answers: Seq<AnswerView>|
        {
            &&& answers.len() >= 1 ==> (answers[0] matches AnswerView::One(Some(record))
                ==> record.id() == batch[0].proposal_id)
            &&& answers.len() >= 3 ==> (answers[1] matches AnswerView::Many(records) ==> (
            records.len() == batch.len() ==> (answers[2] matches AnswerView::One(Some(record))
                ==> is_attached(
                record,
                batch[0].proposal_id,
                ids_of(records),
                total_price(batch),
            ))))
            &&& answers.len() >= 4 ==> (answers[1] matches AnswerView::Many(records) ==> (
            records.len() < batch.len() ==> (answers[3] matches AnswerView::InsertedMany(ids)
                ==> records.len() + ids.len() == batch.len() && (answers.len() >= 5 ==> (
            answers[4] matches AnswerView::One(Some(record)) ==> is_attached(
                record,
                batch[0].proposal_id,
                ids_of(records) + ids,
                total_price(batch),
            ))))))
        }
}

/// The proposal that the store gives back when it is asked to attach
/// milestones to the proposal of an identifier is this proposal, with these
/// milestones and their price.
pub proof fn lemma_attaching_answers(
    store: StoreView,
    id: Seq<char>,
    ids: Seq<Seq<char>>,
    price: i64,
)
    requires
        typed(store),
        0 <= price,
    ensures
        store.perform(
            RequestView::FindOneAndUpdate {
                collection: Collection::Proposals,
                filter: FilterView::Id(id),
                update: UpdateView::Milestones { ids, price },
            },
        ).1 matches AnswerView::One(Some(record)) ==> is_attached(record, id, ids, price as nat),
{
    let records = store.records(Collection::Proposals);
    lemma_first_passing_is_there(records, FilterView::Id(id), 0);
    if let Some(at) = first_passing(records, FilterView::Id(id), 0) {
        assert(records[at].collection() == Collection::Proposals);
    }
}

/// What is known of the answers while milestones are attached is still
/// known after the next call.
pub proof fn lemma_attached_goes_on(
    store: StoreView,
    state: AppView,
    batch: Seq<CreateMilestoneView>,
    cookie: Option<Seq<char>>,
    now: u64,
    answers: Seq<AnswerView>,
)
    requires
        consistent(store),
        milestones_known(batch)(store, answers),
        attached_known(batch)(store, answers),
        script_of(state, AskView::AddMilestones(batch), cookie, now)(answers) is Call,
    ensures
        attached_known(batch)(
            store.perform(
                script_of(state, AskView::AddMilestones(batch), cookie, now)(answers)->Call_0,
            ).0,
            answers.push(
                store.perform(
                    script_of(state, AskView::AddMilestones(batch), cookie, now)(answers)->Call_0,
                ).1,
            ),
        ),
{
    let script = script_of(state, AskView::AddMilestones(batch), cookie, now);
    let request = script(answers)->Call_0;
    let answer = store.perform(request).1;
    let more = answers.push(answer);
    let id = batch[0].proposal_id;
    assert(request == add_milestones_spec(batch, answers)->Call_0);
    assert forall|k: int| 0 <= k < answers.len() implies more[k] == answers[k] by {}
    assert(more[answers.len() as int] == answer);
    if answers.len() == 0 {
        lemma_found_by_id(store, Collection::Proposals, id);
    } else if answers.len() >= 2 {
        let records = answers[1]->Many_0;
        if records.len() < batch.len() {
            let rest = batch.skip(records.len() as int);
            assert(request == store_rest_spec(batch, ids_of(records), answers, 2)->Call_0);
            if answers.len() == 3 {
                if answer is InsertedMany {
                    lemma_batch_is_priced(store, rest, answers[2]->Count_0, rest.len() as int);
                }
            } else if answers.len() >= 4 {
                let ids = ids_of(records) + answers[3]->InsertedMany_0;
                assert(request == attach_spec(batch, ids, answers, 4)->Call_0);
                assert(answers.skip(4).len() == answers.len() - 4);
                lemma_attaching_answers(store, id, ids, total_price(batch) as i64);
            }
        } else {
            assert(request == attach_spec(batch, ids_of(records), answers, 2)->Call_0);
            assert(answers.skip(2).len() == answers.len() - 2);
            lemma_attaching_answers(store, id, ids_of(records), total_price(batch) as i64);
        }
    }
}

/// A proposal to which a batch of milestones has been attached is shown as
/// the proposal that the batch names, with as many milestones as the batch
/// has, and with the sum of their prices for its price; and the milestones
/// that it is shown with are stored, at prices that add up to its price.
pub proof fn lemma_attached_is_priced(
    store: StoreView,
    state: AppView,
    batch: Seq<CreateMilestoneView>,
    cookie: Option<Seq<char>>,
    now: u64,
)
    requires
        consistent(store),
    ensures
        run_spec(store, state, AskView::AddMilestones(batch), cookie, now).1.payload
            matches PayloadView::Data(BodyView::Proposal(shown)) ==> batch.len() > 0
            && shown.data.id == batch[0].proposal_id && shown.data.milestones_id.len()
            == batch.len() && shown.data.proposal_price == total_price(batch) && prices_of(
            run_spec(store, state, AskView::AddMilestones(batch), cookie, now).0.milestones,
            shown.data.milestones_id,
        ) == Some(total_price(batch)),
{
    let ask = AskView::AddMilestones(batch);
    let script = script_of(state, ask, cookie, now);
    let first = milestones_known(batch);
    let second = attached_known(batch);
    lemma_add_milestones_is_careful(state, batch, cookie, now);
    assert forall|store: StoreView, answers: Seq<AnswerView>|
        #![trigger second(store, answers)]
        consistent(store) && first(store, answers) && second(store, answers) && script(answers)
            is Call implies second(
        store.perform(script(answers)->Call_0).0,
        answers.push(store.perform(script(answers)->Call_0).1),
    ) by {
        lemma_attached_goes_on(store, state, batch, cookie, now, answers);
    }
    lemma_careful_both(script, first, second);
    let calls = MOST_CALLS as nat;
    let none = Seq::<AnswerView>::empty();
    lemma_careful_run(store, script, both(first, second), none, calls);
    lemma_run_ends(store, script, none, calls);
    let (after, reply) = run_from(store, script, none, calls);
    let last = run_answers(store, script, none, calls);
    if let PayloadView::Data(BodyView::Proposal(shown)) = reply.payload {
        assert(script(last) == ServedView::Done(reply));
        assert(add_milestones_spec(batch, last) matches StepView::Done(Ok(_)));
        assert(first(after, last));
        assert(second(after, last));
        let records = last[1]->Many_0;
        if records.len() < batch.len() {
            assert(store_rest_spec(batch, ids_of(records), last, 2) matches StepView::Done(Ok(_)));
            assert(last.skip(4).len() == last.len() - 4);
            assert(last.skip(4)[0] == last[4]);
        } else if add_milestones_spec(batch, last) != attach_spec(batch, ids_of(records), last, 2) {
            assert(batch.take(records.len() as int) =~= batch);
        } else {
            assert(batch.take(records.len() as int) =~= batch);
            assert(last.skip(2).len() == last.len() - 2);
            assert(last.skip(2)[0] == last[2]);
        }
    }
}

/// What is known of the store while a request is served, as to the
/// milestones that were there before: none has fallen back.
pub open spec fn risen_known(first: StoreView) -> Known {
    |store: StoreView, answers: Seq<AnswerView>|
        forall|k: int|
            0 <= k < first.milestones.len() ==> k < store.milestones.len() && (
            #[trigger] store.milestones[k] matches RecordView::Milestone(after) && (
            first.milestones[k] matches RecordView::Milestone(before) && status_rank(after.status)
                >= status_rank(before.status)))
}

/// Whatever request is served, no milestone falls back: one that was
/// submitted stays submitted.
pub proof fn lemma_milestones_never_fall_back(
    store: StoreView,
    state: AppView,
    ask: AskView,
    cookie: Option<Seq<char>>,
    now: u64,
    k: int,
)
    requires
        consistent(store),
        0 <= k < store.milestones.len(),
    ensures
        k < run_spec(store, state, ask, cookie, now).0.milestones.len(),
        run_spec(store, state, ask, cookie, now).0.milestones[k] matches RecordView::Milestone(
            after,
        ) && (store.milestones[k] matches RecordView::Milestone(before) && status_rank(after.status)
            >= status_rank(before.status)),
{
    let script = script_of(state, ask, cookie, now);
    let first = known_of(state, ask);
    let second = risen_known(store);
    lemma_service_is_careful(state, ask, cookie, now);
    assert forall|before: StoreView, answers: Seq<AnswerView>|
        #![trigger second(before, answers)]
        consistent(before) && first(before, answers) && second(before, answers) && script(answers)
            is Call implies second(
        before.perform(script(answers)->Call_0).0,
        answers.push(before.perform(script(answers)->Call_0).1),
    ) by {
        let request = script(answers)->Call_0;
        let after = before.perform(request).0;
        assert forall|i: int| 0 <= i < store.milestones.len() implies i < after.milestones.len()
            && (#[trigger] after.milestones[i] matches RecordView::Milestone(new) && (
        store.milestones[i] matches RecordView::Milestone(old) && status_rank(new.status)
            >= status_rank(old.status))) by {
            assert(before.milestones[i] is Milestone);
            lemma_status_never_falls(before, request, i);
        }
    }
    lemma_careful_both(script, first, second);
    assert(first(store, Seq::empty()));
    assert(second(store, Seq::empty())) by {
        assert forall|i: int| 0 <= i < store.milestones.len() implies (
        #[trigger] store.milestones[i]) is Milestone by {
            assert(store.records(Collection::Milestones)[i].collection()
                == Collection::Milestones);
        }
    }
    lemma_careful_run(store, script, both(first, second), Seq::empty(), MOST_CALLS as nat);
}

/// No request asks the store for more than five calls.
pub proof fn lemma_service_ends(
    state: AppView,
    ask: AskView,
    cookie: Option<Seq<char>>,
    now: u64,
    answers: Seq<AnswerView>,
)
    requires
        answers.len() >= 5,
    ensures
        script_of(state, ask, cookie, now)(answers) is Done,
{
    if let AskView::AddMilestones(batch) = ask {
        assert(answers.skip(2).len() == answers.len() - 2);
        assert(answers.skip(4).len() == answers.len() - 4);
    }
}

/// The service answers every request itself: however the store answers, no
/// request is given up for asking the store too often.
pub proof fn lemma_run_ends_well(
    store: StoreView,
    state: AppView,
    ask: AskView,
    cookie: Option<Seq<char>>,
    now: u64,
)
    ensures
        script_of(state, ask, cookie, now)(
            run_answers(store, script_of(state, ask, cookie, now), Seq::empty(), MOST_CALLS as nat),
        ) == ServedView::Done(run_spec(store, state, ask, cookie, now).1),
{
    let script = script_of(state, ask, cookie, now);
    let last = run_answers(store, script, Seq::empty(), MOST_CALLS as nat);
    lemma_run_ends(store, script, Seq::empty(), MOST_CALLS as nat);
    if script(last) is Call {
        lemma_run_uses_its_calls(store, script, Seq::empty(), MOST_CALLS as nat);
        lemma_service_ends(state, ask, cookie, now, last);
    }
}

} // verus!
