//! What holds of the store when requests are served at once: the calls of
//! each request are made one after the other, and between any two of them the
//! calls of other requests may be made.

use crate::conduct::{
    known_of, lemma_marked_is_accepted, lemma_milestones_known_stays, lemma_service_is_careful,
};
use crate::db::{add_milestones_spec, approve_proposal_spec};
use crate::document::FieldValue;
use crate::error::{ErrorView, STATUS_CONFLICT};
use crate::handler::{AppView, AskView, BodyView, serve_spec, ServedView};
use crate::laws::{
    accepted_proposal, consistent, follows, ids_differ, kept, lemma_accepted_stays,
    lemma_empty_store_is_consistent, lemma_first_passing_is_there, lemma_follows_goes_on,
    lemma_follows_itself, lemma_index_stays, lemma_perform_follows, lemma_perform_is_consistent,
    lemma_with_records, records_kept, sound, typed,
};
use crate::memory::{clash, first_passing, script_of, StoreView};
use crate::reading::{lemma_deal_reads_back, record_of_fields};
use crate::steps::{DUPLICATE_KEY, next_id_spec, write_failure};
use crate::store::{AnswerView, Collection, FilterView, RecordView, RequestView};
use crate::text::occurs_at;
use crate::utils::{deal_fields, deal_of_proposal, LARGEST_NUMBER};
use vstd::prelude::*;

verus! {

/// A request that is being served: what was asked, and the answers that the
/// store has given to its calls so far.
pub struct Flight {
    pub state: AppView,
    pub ask: AskView,
    pub cookie: Option<Seq<char>>,
    pub now: u64,
    pub answers: Seq<AnswerView>,
}

impl Flight {
    /// What the service does next for the request.
    pub open spec fn next(self) -> ServedView<BodyView> {
        serve_spec(self.state, self.ask, self.cookie, self.answers, self.now)
    }

    /// The request, with one more answer.
    pub open spec fn answered(self, answer: AnswerView) -> Flight {
        Flight { answers: self.answers.push(answer), ..self }
    }

    /// Whether the request has not been served at all yet.
    pub open spec fn fresh(self) -> bool {
        self.answers.len() == 0
    }

    /// What is known of the store from the answers to the request.
    pub open spec fn known(self, store: StoreView) -> bool {
        known_of(self.state, self.ask)(store, self.answers)
    }
}

/// One turn: the next call of the request at `who` is made, if the request
/// still asks for one.
pub open spec fn turn(store: StoreView, flights: Seq<Flight>, who: int) -> (StoreView, Seq<Flight>) {
    if 0 <= who < flights.len() {
        match flights[who].next() {
            ServedView::Call(request) => (
                store.perform(request).0,
                flights.update(who, flights[who].answered(store.perform(request).1)),
            ),
            ServedView::Done(_) => (store, flights),
        }
    } else {
        (store, flights)
    }
}

/// Turn after turn, in the given order.
pub open spec fn turns(store: StoreView, flights: Seq<Flight>, order: Seq<int>) -> (
    StoreView,
    Seq<Flight>,
)
    decreases order.len(),
{
    if order.len() == 0 {
        (store, flights)
    } else {
        let (before, served) = turns(store, flights, order.drop_last());
        turn(before, served, order.last())
    }
}

/// What is known of the store from the answers to each request holds.
pub open spec fn all_known(store: StoreView, flights: Seq<Flight>) -> bool {
    forall|i: int| 0 <= i < flights.len() ==> (#[trigger] flights[i]).known(store)
}

/// What is known of a store from the answers to a request is known of every
/// store that comes after.
pub proof fn lemma_known_stays(flight: Flight, before: StoreView, after: StoreView)
    requires
        follows(before, after),
        flight.known(before),
    ensures
        flight.known(after),
{
    assert(records_kept(
        before.records(Collection::Proposals),
        after.records(Collection::Proposals),
    ));
    assert(records_kept(
        before.records(Collection::Milestones),
        after.records(Collection::Milestones),
    ));
    match flight.ask {
        AskView::AddClient(_) => {
            if flight.answers.len() >= 2 && flight.answers[1] is IndexCreated {
                lemma_index_stays(
                    before,
                    after,
                    Collection::Clients,
                    crate::laws::names_key(),
                );
            }
        },
        AskView::AddFreelancer(_) => {
            if flight.answers.len() >= 2 && flight.answers[1] is IndexCreated {
                lemma_index_stays(
                    before,
                    after,
                    Collection::Freelancers,
                    crate::laws::names_key(),
                );
            }
        },
        AskView::CreateTask(_) => {
            if flight.answers.len() >= 2 && flight.answers[1] is IndexCreated {
                lemma_index_stays(before, after, Collection::Tasks, crate::laws::title_key());
            }
        },
        AskView::ApproveProposal(_) => {
            if flight.answers.len() >= 1 {
                if let AnswerView::One(Some(RecordView::Proposal(proposal))) = flight.answers[0] {
                    lemma_accepted_stays(before.proposals, after.proposals, proposal.id);
                }
            }
        },
        AskView::AddMilestones(batch) => {
            lemma_milestones_known_stays(batch, before, after, flight.answers);
        },
        _ => {},
    }
}

/// A turn leaves the store as the service leaves it, takes nothing out of
/// it, and leaves what is known of it from the answers to each request.
pub proof fn lemma_turn_is_consistent(store: StoreView, flights: Seq<Flight>, who: int)
    requires
        consistent(store),
        all_known(store, flights),
    ensures
        consistent(turn(store, flights, who).0),
        follows(store, turn(store, flights, who).0),
        all_known(turn(store, flights, who).0, turn(store, flights, who).1),
        turn(store, flights, who).1.len() == flights.len(),
{
    lemma_follows_itself(store);
    if 0 <= who < flights.len() {
        let flight = flights[who];
        if let ServedView::Call(request) = flight.next() {
            let (after, served) = turn(store, flights, who);
            let script = script_of(flight.state, flight.ask, flight.cookie, flight.now);
            let known = known_of(flight.state, flight.ask);
            lemma_service_is_careful(flight.state, flight.ask, flight.cookie, flight.now);
            assert(flight.known(store));
            assert(known(store, flight.answers));
            assert(script(flight.answers) == flight.next());
            lemma_perform_is_consistent(store, request);
            lemma_perform_follows(store, request);
            assert forall|i: int| 0 <= i < served.len() implies (#[trigger] served[i]).known(
                after,
            ) by {
                if i != who {
                    assert(flights[i].known(store));
                    lemma_known_stays(flights[i], store, after);
                }
            }
        }
    }
}

/// However the calls of requests follow one another, a store that is as the
/// service leaves it stays so, and nothing is taken out of it.
pub proof fn lemma_turns_are_consistent(store: StoreView, flights: Seq<Flight>, order: Seq<int>)
    requires
        consistent(store),
        all_known(store, flights),
    ensures
        consistent(turns(store, flights, order).0),
        follows(store, turns(store, flights, order).0),
        all_known(turns(store, flights, order).0, turns(store, flights, order).1),
        turns(store, flights, order).1.len() == flights.len(),
    decreases order.len(),
{
    if order.len() == 0 {
        lemma_follows_itself(store);
    } else {
        lemma_turns_are_consistent(store, flights, order.drop_last());
        let (before, served) = turns(store, flights, order.drop_last());
        lemma_turn_is_consistent(before, served, order.last());
        lemma_follows_goes_on(store, before, turn(before, served, order.last()).0);
    }
}

/// Of a request that has not been served at all yet, nothing is known that
/// could fail to hold.
pub proof fn lemma_fresh_is_known(store: StoreView, flights: Seq<Flight>)
    requires
        forall|i: int| 0 <= i < flights.len() ==> (#[trigger] flights[i]).fresh(),
    ensures
        all_known(store, flights),
{
    assert forall|i: int| 0 <= i < flights.len() implies (#[trigger] flights[i]).known(store) by {
        let flight = flights[i];
        lemma_service_is_careful(flight.state, flight.ask, flight.cookie, flight.now);
        assert(flight.answers =~= Seq::empty());
        assert(known_of(flight.state, flight.ask)(store, Seq::empty()));
    }
}

/// Whether a call stores documents in the collection.
pub open spec fn stores_in(request: RequestView, collection: Collection) -> bool {
    match request {
        RequestView::InsertOne { collection: into, .. } => into == collection,
        RequestView::InsertMany { collection: into, .. } => into == collection,
        _ => false,
    }
}

/// Storing a batch in one collection leaves as many records in every other.
pub proof fn lemma_insert_all_keeps_len(
    store: StoreView,
    into: Collection,
    batch: Seq<Map<Seq<char>, FieldValue>>,
    done: int,
    collection: Collection,
)
    requires
        into != collection,
        done <= batch.len(),
    ensures
        store.insert_all(into, batch, done).0.records(collection) == store.records(collection),
    decreases done,
{
    if done > 0 {
        lemma_insert_all_keeps_len(store, into, batch, done - 1, collection);
        let before = store.insert_all(into, batch, done - 1).0;
        if before.insert(into, batch[done - 1]).0 != before {
            let record = record_of_fields(into, batch[done - 1])->0;
            lemma_with_records(before, into, before.records(into).push(record));
        }
    }
}

/// A call that stores nothing in a collection leaves as many records in it.
pub proof fn lemma_perform_keeps_len(store: StoreView, request: RequestView, collection: Collection)
    requires
        !stores_in(request, collection),
    ensures
        store.perform(request).0.records(collection).len() == store.records(collection).len(),
{
    let after = store.perform(request).0;
    match request {
        RequestView::InsertOne { collection: into, fields } => {
            if after != store {
                let record = record_of_fields(into, fields)->0;
                lemma_with_records(store, into, store.records(into).push(record));
            }
        },
        RequestView::InsertMany { collection: into, batch } => {
            lemma_insert_all_keeps_len(store, into, batch, batch.len() as int, collection);
        },
        RequestView::FindOneAndUpdate { collection: into, filter, update } => {
            if after != store {
                lemma_first_passing_is_there(store.records(into), filter, 0);
                let at = first_passing(store.records(into), filter, 0)->0;
                let changed = store.records(into)[at].changed(update)->0;
                lemma_with_records(store, into, store.records(into).update(at, changed));
            }
        },
        _ => {},
    }
}

/// Whether the deal at `k` is a deal of the proposal.
pub open spec fn deal_of(store: StoreView, k: int, proposal_id: Seq<char>) -> bool {
    0 <= k < store.deals.len() && (store.deals[k] matches RecordView::Deal(deal)
        && deal.proposal_id == proposal_id)
}

/// Whether the request has marked the proposal as accepted, and may still
/// store the deal: the store has answered its first call with the proposal,
/// and has not answered the storing of the deal yet.
pub open spec fn holds_mark(flight: Flight, proposal_id: Seq<char>) -> bool {
    flight.ask == AskView::ApproveProposal(proposal_id) && 1 <= flight.answers.len() <= 2
        && flight.answers[0] matches AnswerView::One(Some(RecordView::Proposal(_)))
}

/// The proposal that the store has marked for a request is the one that the
/// request asked for.
pub open spec fn well_marked(flight: Flight) -> bool {
    flight.ask matches AskView::ApproveProposal(proposal_id) ==> (flight.answers.len() >= 1 ==> (
    flight.answers[0] matches AnswerView::One(Some(RecordView::Proposal(proposal)))
        ==> proposal.id == proposal_id))
}

/// No proposal has two deals, nor a deal and a request that may still store
/// one, nor two requests that may; and a request may still store the deal
/// only of a proposal that is accepted.
pub open spec fn one_deal_each(store: StoreView, flights: Seq<Flight>) -> bool {
    &&& forall|i: int| 0 <= i < flights.len() ==> well_marked(#[trigger] flights[i])
    &&& forall|i: int, j: int, id: Seq<char>|
        0 <= i < j < flights.len() ==> !(#[trigger] holds_mark(flights[i], id)
            && #[trigger] holds_mark(flights[j], id))
    &&& forall|i: int, k: int, id: Seq<char>|
        0 <= i < flights.len() ==> !(#[trigger] holds_mark(flights[i], id) && #[trigger] deal_of(
            store,
            k,
            id,
        ))
    &&& forall|k: int, l: int, id: Seq<char>|
        k < l ==> !(#[trigger] deal_of(store, k, id) && #[trigger] deal_of(store, l, id))
    &&& forall|i: int, id: Seq<char>|
        0 <= i < flights.len() && #[trigger] holds_mark(flights[i], id) ==> accepted_proposal(
            store.proposals,
            id,
        )
}

/// What the only call is that stores a deal: the one that a request to
/// accept a proposal makes third, for the proposal that the store has marked
/// for it.
pub proof fn lemma_who_stores_deals(flight: Flight)
    requires
        flight.next() matches ServedView::Call(request) && stores_in(request, Collection::Deals),
    ensures
        flight.ask is ApproveProposal,
        flight.answers.len() == 2,
        flight.answers[0] matches AnswerView::One(Some(RecordView::Proposal(proposal)))
            && proposal.proposal_price <= LARGEST_NUMBER && flight.answers[1] is Count
            && next_id_spec(flight.answers[1]->Count_0) is Ok && flight.next()->Call_0
            == (RequestView::InsertOne {
            collection: Collection::Deals,
            fields: deal_fields(
                deal_of_proposal(proposal),
                next_id_spec(flight.answers[1]->Count_0)->Ok_0,
            ),
        }),
{
    let request = flight.next()->Call_0;
    match flight.ask {
        AskView::ApproveProposal(proposal_id) => {
            assert(request == approve_proposal_spec(proposal_id, flight.answers)->Call_0);
        },
        AskView::AddMilestones(batch) => {
            assert(request == add_milestones_spec(batch, flight.answers)->Call_0);
        },
        _ => {},
    }
}

/// A proposal that is found pending is not accepted, in a store that is in
/// order.
pub proof fn lemma_pending_is_not_accepted(store: StoreView, proposal_id: Seq<char>)
    requires
        sound(store),
        first_passing(store.proposals, FilterView::Pending(proposal_id), 0) is Some,
    ensures
        !accepted_proposal(store.proposals, proposal_id),
{
    lemma_first_passing_is_there(store.proposals, FilterView::Pending(proposal_id), 0);
    let at = first_passing(store.proposals, FilterView::Pending(proposal_id), 0)->0;
    assert(ids_differ(store.records(Collection::Proposals)));
    if accepted_proposal(store.proposals, proposal_id) {
        let i = choose|i: int|
            0 <= i < store.proposals.len() && ((
            #[trigger] store.proposals[i]) matches RecordView::Proposal(proposal) && proposal.id
                == proposal_id && proposal.accepted);
        if i < at {
            assert(store.proposals[i].id() != store.proposals[at].id());
        } else if at < i {
            assert(store.proposals[at].id() != store.proposals[i].id());
        }
    }
}

/// A call that stores nothing among the deals leaves every deal the deal of
/// the proposal of which it was one, and makes no other.
pub proof fn lemma_deals_stay(store: StoreView, request: RequestView, k: int, id: Seq<char>)
    requires
        typed(store),
        !stores_in(request, Collection::Deals),
    ensures
        deal_of(store.perform(request).0, k, id) == deal_of(store, k, id),
{
    let after = store.perform(request).0;
    lemma_perform_keeps_len(store, request, Collection::Deals);
    lemma_perform_follows(store, request);
    assert(records_kept(store.records(Collection::Deals), after.records(Collection::Deals)));
    if 0 <= k < store.deals.len() {
        assert(kept(store.deals[k], after.deals[k]));
        assert(store.records(Collection::Deals)[k].collection() == Collection::Deals);
    }
}

/// A turn leaves every proposal with one deal at most.
pub proof fn lemma_turn_keeps_one_deal_each(store: StoreView, flights: Seq<Flight>, who: int)
    requires
        consistent(store),
        all_known(store, flights),
        one_deal_each(store, flights),
    ensures
        one_deal_each(turn(store, flights, who).0, turn(store, flights, who).1),
{
    if 0 <= who < flights.len() {
        let flight = flights[who];
        if let ServedView::Call(request) = flight.next() {
            let (after, served) = turn(store, flights, who);
            let answer = store.perform(request).1;
            let moved = flight.answered(answer);
            lemma_perform_follows(store, request);
            assert(records_kept(
                store.records(Collection::Proposals),
                after.records(Collection::Proposals),
            ));
            assert(moved.answers.len() == flight.answers.len() + 1);
            if flight.answers.len() >= 1 {
                assert(moved.answers[0] == flight.answers[0]);
            }
            // what the turn does to the deals, and to who may still store one
            let stores = stores_in(request, Collection::Deals);
            let marks = flight.ask is ApproveProposal && flight.answers.len() == 0;
            if stores {
                lemma_who_stores_deals(flight);
                let proposal = flight.answers[0]->One_0->0->Proposal_0;
                let id = proposal.id;
                assert(well_marked(flight));
                assert(holds_mark(flight, id));
                let new_id = next_id_spec(flight.answers[1]->Count_0)->Ok_0;
                lemma_deal_reads_back(deal_of_proposal(proposal), new_id);
                let fields = deal_fields(deal_of_proposal(proposal), new_id);
                if after != store {
                    lemma_with_records(
                        store,
                        Collection::Deals,
                        store.deals.push(record_of_fields(Collection::Deals, fields)->0),
                    );
                }
                assert forall|k: int, other: Seq<char>| #[trigger]
                    deal_of(after, k, other) implies deal_of(store, k, other) || (other == id && k
                    == store.deals.len()) by {}
                assert forall|k: int| !deal_of(store, k, id) by {
                    assert(!(holds_mark(flights[who], id) && deal_of(store, k, id)));
                }
            } else {
                assert forall|k: int, other: Seq<char>|
                    deal_of(after, k, other) == #[trigger] deal_of(store, k, other) by {
                    lemma_deals_stay(store, request, k, other);
                }
            }
            if marks {
                let id = flight.ask->ApproveProposal_0;
                assert(request == approve_proposal_spec(id, flight.answers)->Call_0);
                lemma_marked_is_accepted(store, id);
                if answer matches AnswerView::One(Some(_)) {
                    lemma_pending_is_not_accepted(store, id);
                    assert forall|i: int| 0 <= i < flights.len() implies !#[trigger] holds_mark(
                        flights[i],
                        id,
                    ) by {}
                    assert forall|k: int| !deal_of(store, k, id) by {
                        if deal_of(store, k, id) {
                            assert(store.deals[k] is Deal);
                        }
                    }
                }
            }
            assert forall|i: int, id: Seq<char>|
                0 <= i < served.len() && i != who implies #[trigger] holds_mark(served[i], id)
                == holds_mark(flights[i], id) by {}
            assert forall|id: Seq<char>| #[trigger]
                holds_mark(moved, id) implies holds_mark(flight, id) || (marks && flight.ask
                == AskView::ApproveProposal(id) && answer matches AnswerView::One(Some(_))) by {}
            assert forall|id: Seq<char>| stores implies !#[trigger] holds_mark(moved, id) by {}
            assert forall|i: int| 0 <= i < served.len() implies well_marked(
                #[trigger] served[i],
            ) by {
                assert(well_marked(flights[i]));
            }
            assert forall|i: int, id: Seq<char>|
                0 <= i < served.len() && #[trigger] holds_mark(
                    served[i],
                    id,
                ) implies accepted_proposal(after.proposals, id) by {
                if holds_mark(flights[i], id) {
                    lemma_accepted_stays(store.proposals, after.proposals, id);
                }
            }
            assert forall|i: int, j: int, id: Seq<char>| 0 <= i < j < served.len() implies !(
            #[trigger] holds_mark(served[i], id) && #[trigger] holds_mark(served[j], id)) by {
                if holds_mark(served[i], id) && holds_mark(served[j], id) {
                    assert(!(holds_mark(flights[i], id) && holds_mark(flights[j], id)));
                }
            }
            assert forall|i: int, k: int, id: Seq<char>| 0 <= i < served.len() implies !(
            #[trigger] holds_mark(served[i], id) && #[trigger] deal_of(after, k, id)) by {
                if holds_mark(served[i], id) && deal_of(after, k, id) {
                    assert(!(holds_mark(flights[i], id) && deal_of(store, k, id)));
                    if stores && i != who {
                        assert(!(holds_mark(flights[i], id) && holds_mark(flights[who], id)));
                        assert(!(holds_mark(flights[who], id) && holds_mark(flights[i], id)));
                    }
                }
            }
            assert forall|k: int, l: int, id: Seq<char>| k < l implies !(#[trigger] deal_of(
                after,
                k,
                id,
            ) && #[trigger] deal_of(after, l, id)) by {
                if deal_of(after, k, id) && deal_of(after, l, id) {
                    assert(!(deal_of(store, k, id) && deal_of(store, l, id)));
                }
            }
        }
    }
}

/// However the calls of requests follow one another, no proposal ever has
/// more than one deal, as long as none had before the requests were served.
/// In particular, of the requests that accept one proposal at once, one at
/// most stores a deal.
pub proof fn lemma_one_deal_each(store: StoreView, flights: Seq<Flight>, order: Seq<int>)
    requires
        consistent(store),
        all_known(store, flights),
        one_deal_each(store, flights),
    ensures
        one_deal_each(turns(store, flights, order).0, turns(store, flights, order).1),
        forall|k: int, l: int, id: Seq<char>|
            k < l ==> !(#[trigger] deal_of(turns(store, flights, order).0, k, id)
                && #[trigger] deal_of(turns(store, flights, order).0, l, id)),
    decreases order.len(),
{
    if order.len() > 0 {
        lemma_one_deal_each(store, flights, order.drop_last());
        lemma_turns_are_consistent(store, flights, order.drop_last());
        let (before, served) = turns(store, flights, order.drop_last());
        lemma_turn_keeps_one_deal_each(before, served, order.last());
    }
}

/// Before any request is served, an empty store has no proposal with more
/// than one deal, nor a request that may store one.
pub proof fn lemma_one_deal_each_at_first(flights: Seq<Flight>)
    requires
        forall|i: int| 0 <= i < flights.len() ==> (#[trigger] flights[i]).fresh(),
    ensures
        one_deal_each(StoreView::empty(), flights),
{
}

/// Whatever requests are served against a store that held nothing at first,
/// and however their calls follow one another, the store is as the service
/// leaves it, and no proposal has more than one deal.
pub proof fn lemma_served_from_nothing(flights: Seq<Flight>, order: Seq<int>)
    requires
        forall|i: int| 0 <= i < flights.len() ==> (#[trigger] flights[i]).fresh(),
    ensures
        consistent(turns(StoreView::empty(), flights, order).0),
        forall|k: int, l: int, id: Seq<char>|
            k < l ==> !(#[trigger] deal_of(turns(StoreView::empty(), flights, order).0, k, id)
                && #[trigger] deal_of(turns(StoreView::empty(), flights, order).0, l, id)),
{
    let store = StoreView::empty();
    lemma_empty_store_is_consistent();
    lemma_fresh_is_known(store, flights);
    lemma_one_deal_each_at_first(flights);
    lemma_turns_are_consistent(store, flights, order);
    lemma_one_deal_each(store, flights, order);
}

/// The numbers that were set aside for a request by the answer at `k`: the
/// collection, the number before the first of them, and the last of them.
/// None where that answer was to another call, or no numbers were given.
pub open spec fn set_aside(flight: Flight, k: int) -> Option<(Collection, int, int)> {
    if 0 <= k < flight.answers.len() {
        match (
            serve_spec(flight.state, flight.ask, flight.cookie, flight.answers.take(k), flight.now),
            flight.answers[k],
        ) {
            (
                ServedView::Call(RequestView::Reserve { collection, many }),
                AnswerView::Count(count),
            ) => Some((collection, count as int, count + many)),
            _ => None,
        }
    } else {
        None
    }
}

/// Whether the numbers that were set aside for the requests are apart: no
/// number was set aside twice, for two requests or for one, and none is past
/// what the store has set aside.
pub open spec fn numbers_apart(store: StoreView, flights: Seq<Flight>) -> bool {
    &&& forall|i: int, k: int|
        0 <= i < flights.len() ==> ((#[trigger] set_aside(flights[i], k)) matches Some(given)
            ==> given.2 <= store.reserved.of(given.0))
    &&& forall|i: int, k: int, j: int, l: int|
        0 <= i < flights.len() && 0 <= j < flights.len() && (i != j || k != l) ==> ((
        #[trigger] set_aside(flights[i], k)) matches Some(one) ==> ((#[trigger] set_aside(
            flights[j],
            l,
        )) matches Some(other) ==> (one.0 == other.0 ==> one.2 <= other.1 || other.2 <= one.1)))
}

/// What was set aside for a request by its earlier answers is not changed by
/// one more answer.
proof fn lemma_set_aside_stays(flight: Flight, answer: AnswerView, k: int)
    requires
        k < flight.answers.len(),
    ensures
        set_aside(flight.answered(answer), k) == set_aside(flight, k),
{
    if 0 <= k {
        assert(flight.answers.push(answer).take(k) =~= flight.answers.take(k));
    }
}

/// A turn leaves the numbers that were set aside for the requests apart.
pub proof fn lemma_turn_keeps_numbers_apart(store: StoreView, flights: Seq<Flight>, who: int)
    requires
        numbers_apart(store, flights),
    ensures
        numbers_apart(turn(store, flights, who).0, turn(store, flights, who).1),
{
    if 0 <= who < flights.len() {
        let flight = flights[who];
        if let ServedView::Call(request) = flight.next() {
            let (after, served) = turn(store, flights, who);
            let answer = store.perform(request).1;
            let at = flight.answers.len() as int;
            lemma_perform_follows(store, request);
            assert(flight.answers.push(answer).take(at) =~= flight.answers);
            assert forall|i: int, k: int| 0 <= i < served.len() implies (#[trigger] set_aside(
                served[i],
                k,
            ) matches Some(given) ==> given.2 <= after.reserved.of(given.0) && (i != who || k != at
                ==> set_aside(served[i], k) == set_aside(flights[i], k)) && (i == who && k == at
                ==> given.1 == store.reserved.of(given.0))) by {
                if i == who && k < at {
                    lemma_set_aside_stays(flight, answer, k);
                }
                if let Some(given) = set_aside(served[i], k) {
                    assert(store.reserved.of(given.0) <= after.reserved.of(given.0));
                }
            }
            assert forall|i: int, k: int, j: int, l: int|
                0 <= i < served.len() && 0 <= j < served.len() && (i != j || k != l) implies ((
            #[trigger] set_aside(served[i], k)) matches Some(one) ==> ((#[trigger] set_aside(
                served[j],
                l,
            )) matches Some(other) ==> (one.0 == other.0 ==> one.2 <= other.1 || other.2
                <= one.1))) by {
                if i == who && k < at {
                    lemma_set_aside_stays(flight, answer, k);
                }
                if j == who && l < at {
                    lemma_set_aside_stays(flight, answer, l);
                }
                if (i == who && k == at) {
                    assert(set_aside(served[j], l) == set_aside(flights[j], l));
                } else if (j == who && l == at) {
                    assert(set_aside(served[i], k) == set_aside(flights[i], k));
                } else {
                    assert(set_aside(served[i], k) == set_aside(flights[i], k));
                    assert(set_aside(served[j], l) == set_aside(flights[j], l));
                }
            }
        }
    }
}

/// However the calls of requests follow one another, no number is set aside
/// twice: the identifiers of the documents that two requests store in one
/// collection are made of different numbers, and so are those of the
/// documents that one request stores.
pub proof fn lemma_numbers_stay_apart(store: StoreView, flights: Seq<Flight>, order: Seq<int>)
    requires
        numbers_apart(store, flights),
    ensures
        numbers_apart(turns(store, flights, order).0, turns(store, flights, order).1),
    decreases order.len(),
{
    if order.len() > 0 {
        lemma_numbers_stay_apart(store, flights, order.drop_last());
        let (before, served) = turns(store, flights, order.drop_last());
        lemma_turn_keeps_numbers_apart(before, served, order.last());
    }
}

/// Whatever requests are served from their beginning, in whatever store and
/// however their calls follow one another, no number is set aside twice.
pub proof fn lemma_numbers_are_apart(store: StoreView, flights: Seq<Flight>, order: Seq<int>)
    requires
        forall|i: int| 0 <= i < flights.len() ==> (#[trigger] flights[i]).fresh(),
    ensures
        numbers_apart(turns(store, flights, order).0, turns(store, flights, order).1),
{
    lemma_numbers_stay_apart(store, flights, order);
}

/// No two calls are given the same numbers: once numbers have been set
/// aside for the documents of a collection, whoever asks afterwards, whatever
/// else the store was asked in between, is given numbers past them. So two
/// requests never make the same identifier, however they are served.
pub proof fn lemma_numbers_are_given_once(
    before: StoreView,
    later: StoreView,
    collection: Collection,
    first: u64,
    second: u64,
)
    requires
        follows(before.perform(RequestView::Reserve { collection, many: first }).0, later),
    ensures
        before.perform(RequestView::Reserve { collection, many: first }).1 matches AnswerView::Count(
            one,
        ) ==> (later.perform(RequestView::Reserve { collection, many: second }).1
            matches AnswerView::Count(other) ==> one + first <= other),
        !(before.perform(RequestView::Reserve { collection, many: first }).1 is Count)
            ==> before.perform(RequestView::Reserve { collection, many: first }).0 == before,
{
    let middle = before.perform(RequestView::Reserve { collection, many: first }).0;
    assert(middle.reserved.of(collection) <= later.reserved.of(collection));
}

/// Should a document of an identifier be there all the same, because it was
/// stored without a number being set aside for it, the store takes no other
/// of this identifier: whoever writes one afterwards is refused in the words
/// of a repeated key, and the store is left as it is. The operation then ends
/// with the error of a repeated key, which is answered as a conflict: nothing
/// is overwritten, and the request can be sent again.
pub proof fn lemma_second_of_an_identifier_is_refused(
    before: StoreView,
    later: StoreView,
    collection: Collection,
    first: Map<Seq<char>, FieldValue>,
    second: Map<Seq<char>, FieldValue>,
)
    requires
        before.insert(collection, first).1 is Inserted,
        follows(before.insert(collection, first).0, later),
        record_of_fields(collection, second) matches Some(record) && AnswerView::Inserted(
            record.id(),
        ) == before.insert(collection, first).1,
    ensures
        later.perform(RequestView::InsertOne { collection, fields: second }) == (
            later,
            AnswerView::Failed(DUPLICATE_KEY@),
        ),
        write_failure(AnswerView::Failed(DUPLICATE_KEY@)) == ErrorView::MongoDuplicateError(
            DUPLICATE_KEY@,
        ),
        ErrorView::MongoDuplicateError(DUPLICATE_KEY@).status_spec() == STATUS_CONFLICT,
{
    let taken = record_of_fields(collection, first)->0;
    let records = before.records(collection);
    let middle = before.insert(collection, first).0;
    lemma_with_records(before, collection, records.push(taken));
    let at = records.len() as int;
    assert(middle.records(collection)[at] == taken);
    assert(records_kept(middle.records(collection), later.records(collection)));
    assert(kept(middle.records(collection)[at], later.records(collection)[at]));
    let candidate = record_of_fields(collection, second)->0;
    assert(clash(later.records(collection)[at], candidate, collection, later.indexes));
    assert(occurs_at(DUPLICATE_KEY@, DUPLICATE_KEY@, 0)) by {
        assert(DUPLICATE_KEY@.subrange(0, DUPLICATE_KEY@.len() as int) =~= DUPLICATE_KEY@);
    }
}

} // verus!
