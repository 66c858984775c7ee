//! What holds of the store whatever is asked of it, and what holds of it as
//! long as only the service writes to it.

use crate::document::FieldValue;
use crate::handler::{BodyView, failure, ServedView};
use crate::memory::{
    agree, clash, clashes, first_passing, forbidden, has_index, IndexView, passing, run_from,
    Script, some_agree, StoreView,
};
use crate::reading::record_of_fields;
use crate::steps::unexpected;
use crate::store::{AnswerView, Collection, FilterView, RecordView, RequestView, UpdateView};
use crate::utils::{INITIALIZED, SUBMITTED};
use vstd::prelude::*;

verus! {

/// Every record is in the collection of its kind.
pub open spec fn typed(store: StoreView) -> bool {
    forall|collection: Collection, i: int|
        0 <= i < store.records(collection).len() ==> (#[trigger] store.records(
            collection,
        )[i]).collection() == collection
}

/// No two of the records have the same identifier.
pub open spec fn ids_differ(records: Seq<RecordView>) -> bool {
    forall|i: int, j: int|
        0 <= i < j < records.len() ==> (#[trigger] records[i]).id() != (#[trigger] records[j]).id()
}

/// Every index of the store holds: no two records of its collection agree
/// on all its keys.
pub open spec fn indexes_hold(store: StoreView) -> bool {
    forall|n: int|
        0 <= n < store.indexes.len() ==> !some_agree(
            store.records((#[trigger] store.indexes[n]).collection),
            store.indexes[n].keys,
        )
}

/// The store is in order: records are where they belong, identifiers are
/// unique within each collection, and the indexes hold.
pub open spec fn sound(store: StoreView) -> bool {
    &&& typed(store)
    &&& forall|collection: Collection| ids_differ(#[trigger] store.records(collection))
    &&& indexes_hold(store)
}

/// What a record is for good, once it is stored: its kind and its
/// identifier; the price of a milestone; the proposal and the price of a
/// deal; and that a proposal is accepted.
pub open spec fn kept(before: RecordView, after: RecordView) -> bool {
    &&& after.collection() == before.collection()
    &&& after.id() == before.id()
    &&& match (before, after) {
        (RecordView::Proposal(old), RecordView::Proposal(new)) => old.accepted ==> new.accepted,
        (RecordView::Milestone(old), RecordView::Milestone(new)) => new.price == old.price
            && new.proposal_id == old.proposal_id,
        (RecordView::Deal(old), RecordView::Deal(new)) => new.price == old.price
            && new.proposal_id == old.proposal_id,
        _ => true,
    }
}

/// `after` holds every record of `before`, at its place, with what it is for
/// good.
pub open spec fn records_kept(before: Seq<RecordView>, after: Seq<RecordView>) -> bool {
    &&& before.len() <= after.len()
    &&& forall|i: int| 0 <= i < before.len() ==> kept(before[i], #[trigger] after[i])
}

/// The store `after` comes after `before`: nothing was taken out of any
/// collection or moved, every record is still what it is for good, every
/// index is still there, and no number that was set aside is given out
/// again.
pub open spec fn follows(before: StoreView, after: StoreView) -> bool {
    &&& forall|collection: Collection|
        records_kept(before.records(collection), #[trigger] after.records(collection))
    &&& before.indexes.len() <= after.indexes.len()
    &&& forall|n: int| 0 <= n < before.indexes.len() ==> #[trigger] after.indexes[n] == before.indexes[n]
    &&& forall|collection: Collection|
        before.reserved.of(collection) <= #[trigger] after.reserved.of(collection)
}

/// A change leaves a record what it is for good.
pub proof fn lemma_change_keeps(record: RecordView, update: UpdateView)
    requires
        record.changed(update) is Some,
    ensures
        kept(record, record.changed(update)->0),
{
}

/// A document that reads as a record of a collection reads as one of the
/// kind of the collection.
pub proof fn lemma_read_is_typed(collection: Collection, fields: Map<Seq<char>, FieldValue>)
    requires
        record_of_fields(collection, fields) is Some,
    ensures
        record_of_fields(collection, fields)->0.collection() == collection,
{
}

/// Storing one document takes nothing out of the store.
pub proof fn lemma_insert_follows(
    store: StoreView,
    collection: Collection,
    fields: Map<Seq<char>, FieldValue>,
)
    ensures
        follows(store, store.insert(collection, fields).0),
{
    let after = store.insert(collection, fields).0;
    assert forall|c: Collection| records_kept(store.records(c), #[trigger] after.records(c)) by {
        assert forall|i: int| 0 <= i < store.records(c).len() implies kept(
            store.records(c)[i],
            #[trigger] after.records(c)[i],
        ) by {}
    }
}

/// Coming after goes on: what comes after what comes after, comes after.
pub proof fn lemma_follows_goes_on(first: StoreView, second: StoreView, third: StoreView)
    requires
        follows(first, second),
        follows(second, third),
    ensures
        follows(first, third),
{
    assert forall|c: Collection| records_kept(first.records(c), #[trigger] third.records(c)) by {
        assert(records_kept(first.records(c), second.records(c)));
        assert(records_kept(second.records(c), third.records(c)));
        assert forall|i: int| 0 <= i < first.records(c).len() implies kept(
            first.records(c)[i],
            #[trigger] third.records(c)[i],
        ) by {
            assert(kept(first.records(c)[i], second.records(c)[i]));
            assert(kept(second.records(c)[i], third.records(c)[i]));
        }
    }
    assert forall|n: int| 0 <= n < first.indexes.len() implies #[trigger] third.indexes[n]
        == first.indexes[n] by {
        assert(second.indexes[n] == first.indexes[n]);
    }
}

/// Storing a batch takes nothing out of the store.
pub proof fn lemma_insert_all_follows(
    store: StoreView,
    collection: Collection,
    batch: Seq<Map<Seq<char>, FieldValue>>,
    done: int,
)
    requires
        done <= batch.len(),
    ensures
        follows(store, store.insert_all(collection, batch, done).0),
    decreases done,
{
    if done <= 0 {
        lemma_follows_itself(store);
    } else {
        lemma_insert_all_follows(store, collection, batch, done - 1);
        let before = store.insert_all(collection, batch, done - 1).0;
        lemma_insert_follows(before, collection, batch[done - 1]);
        lemma_follows_goes_on(store, before, before.insert(collection, batch[done - 1]).0);
        lemma_follows_itself(before);
    }
}

/// A store comes after itself.
pub proof fn lemma_follows_itself(store: StoreView)
    ensures
        follows(store, store),
{
    assert forall|c: Collection| records_kept(store.records(c), #[trigger] store.records(c)) by {}
}

/// Whatever is asked of the store, nothing is taken out of it or moved,
/// every record stays what it is for good, and every index stays. In
/// particular, an accepted proposal stays accepted.
pub proof fn lemma_perform_follows(store: StoreView, request: RequestView)
    ensures
        follows(store, store.perform(request).0),
{
    let after = store.perform(request).0;
    match request {
        RequestView::InsertOne { collection, fields } => {
            lemma_insert_follows(store, collection, fields);
        },
        RequestView::InsertMany { collection, batch } => {
            lemma_insert_all_follows(store, collection, batch, batch.len() as int);
            lemma_follows_itself(store);
        },
        RequestView::FindOneAndUpdate { collection, filter, update } => {
            lemma_follows_itself(store);
            match first_passing(store.records(collection), filter, 0) {
                Some(at) => {
                    lemma_first_passing_is_there(store.records(collection), filter, 0);
                    if store.records(collection)[at].changed(update) is Some {
                        lemma_change_keeps(store.records(collection)[at], update);
                    }
                    assert forall|c: Collection|
                        records_kept(store.records(c), #[trigger] after.records(c)) by {
                        assert forall|i: int| 0 <= i < store.records(c).len() implies kept(
                            store.records(c)[i],
                            #[trigger] after.records(c)[i],
                        ) by {}
                    }
                },
                None => {},
            }
        },
        _ => {
            lemma_follows_itself(store);
        },
    }
}

/// The first record that passes a filter is one of the records, passes the
/// filter, and none before it does.
pub proof fn lemma_first_passing_is_there(records: Seq<RecordView>, filter: FilterView, from: int)
    requires
        0 <= from,
    ensures
        match first_passing(records, filter, from) {
            Some(at) => from <= at < records.len() && records[at].passes(filter) && forall|i: int|
                from <= i < at ==> !(#[trigger] records[i]).passes(filter),
            None => forall|i: int|
                from <= i < records.len() ==> !(#[trigger] records[i]).passes(filter),
        },
    decreases records.len() - from,
{
    if from < records.len() && !records[from].passes(filter) {
        lemma_first_passing_is_there(records, filter, from + 1);
    }
}

/// Every record passes the filter that asks for nothing.
pub proof fn lemma_all_pass(records: Seq<RecordView>)
    ensures
        passing(records, FilterView::All) == records,
    decreases records.len(),
{
    if records.len() > 0 {
        lemma_all_pass(records.drop_last());
        assert(records.drop_last().push(records.last()) =~= records);
    }
}

/// Asked for every document of a collection, the store answers with every
/// one, in the order in which they were stored, and stays as it is.
pub proof fn lemma_listing_is_whole(store: StoreView, collection: Collection)
    ensures
        store.perform(RequestView::Find { collection, filter: FilterView::All }) == (
            store,
            AnswerView::Many(store.records(collection)),
        ),
{
    lemma_all_pass(store.records(collection));
}

/// Agreeing does not depend on which record is named first.
pub proof fn lemma_agree_both_ways(a: RecordView, b: RecordView, keys: Seq<Seq<char>>)
    ensures
        agree(a, b, keys) == agree(b, a, keys),
{
    if agree(a, b, keys) {
        assert forall|k: int| 0 <= k < keys.len() implies b.text(#[trigger] keys[k]) == a.text(
            keys[k],
        ) by {}
    }
    if agree(b, a, keys) {
        assert forall|k: int| 0 <= k < keys.len() implies a.text(#[trigger] keys[k]) == b.text(
            keys[k],
        ) by {}
    }
}

/// Putting other records into one collection leaves the others as they
/// are.
pub proof fn lemma_with_records(store: StoreView, collection: Collection, records: Seq<RecordView>)
    ensures
        store.with_records(collection, records).records(collection) == records,
        store.with_records(collection, records).indexes == store.indexes,
        forall|other: Collection|
            other != collection ==> #[trigger] store.with_records(collection, records).records(
                other,
            ) == store.records(other),
{
}

/// A store that is in order is in order after one more document is stored,
/// or refused.
pub proof fn lemma_insert_is_sound(
    store: StoreView,
    collection: Collection,
    fields: Map<Seq<char>, FieldValue>,
)
    requires
        sound(store),
    ensures
        sound(store.insert(collection, fields).0),
{
    let after = store.insert(collection, fields).0;
    if after != store {
        let record = record_of_fields(collection, fields)->0;
        let before = store.records(collection);
        let records = before.push(record);
        lemma_with_records(store, collection, records);
        lemma_read_is_typed(collection, fields);
        assert(!clashes(before, record, -1, collection, store.indexes));
        assert forall|i: int| 0 <= i < before.len() implies !clash(
            #[trigger] before[i],
            record,
            collection,
            store.indexes,
        ) by {}
        assert forall|c: Collection, i: int| 0 <= i < after.records(c).len() implies (
        #[trigger] after.records(c)[i]).collection() == c by {
            if c == collection {
                if i < before.len() {
                    assert(store.records(c)[i].collection() == c);
                }
            } else {
                assert(store.records(c)[i].collection() == c);
            }
        }
        assert forall|c: Collection| ids_differ(#[trigger] after.records(c)) by {
            assert(ids_differ(store.records(c)));
            if c == collection {
                assert forall|i: int, j: int| 0 <= i < j < records.len() implies (
                #[trigger] records[i]).id() != (#[trigger] records[j]).id() by {
                    if j < before.len() {
                        assert(before[i].id() != before[j].id());
                    } else {
                        assert(!clash(before[i], record, collection, store.indexes));
                    }
                }
            }
        }
        assert forall|n: int| 0 <= n < after.indexes.len() implies !some_agree(
            after.records((#[trigger] after.indexes[n]).collection),
            after.indexes[n].keys,
        ) by {
            let index = store.indexes[n];
            assert(!some_agree(store.records(index.collection), index.keys));
            if index.collection == collection {
                assert forall|i: int, j: int| 0 <= i < j < records.len() implies !agree(
                    #[trigger] records[i],
                    #[trigger] records[j],
                    index.keys,
                ) by {
                    if j < before.len() {
                        assert(!agree(before[i], before[j], index.keys));
                    } else {
                        assert(!clash(before[i], record, collection, store.indexes));
                        assert(!forbidden(before[i], record, collection, store.indexes));
                    }
                }
            }
        }
    }
}

/// A store that is in order is in order after a batch is stored, as far as
/// it is.
pub proof fn lemma_insert_all_is_sound(
    store: StoreView,
    collection: Collection,
    batch: Seq<Map<Seq<char>, FieldValue>>,
    done: int,
)
    requires
        sound(store),
        done <= batch.len(),
    ensures
        sound(store.insert_all(collection, batch, done).0),
    decreases done,
{
    if done > 0 {
        lemma_insert_all_is_sound(store, collection, batch, done - 1);
        lemma_insert_is_sound(
            store.insert_all(collection, batch, done - 1).0,
            collection,
            batch[done - 1],
        );
    }
}

/// A store that is in order is in order after a change, or its refusal.
pub proof fn lemma_change_is_sound(
    store: StoreView,
    collection: Collection,
    filter: FilterView,
    update: UpdateView,
)
    requires
        sound(store),
    ensures
        sound(store.perform(RequestView::FindOneAndUpdate { collection, filter, update }).0),
{
    let after = store.perform(RequestView::FindOneAndUpdate { collection, filter, update }).0;
    if after != store {
        let before = store.records(collection);
        lemma_first_passing_is_there(before, filter, 0);
        let at = first_passing(before, filter, 0)->0;
        let changed = before[at].changed(update)->0;
        let records = before.update(at, changed);
        lemma_with_records(store, collection, records);
        lemma_change_keeps(before[at], update);
        assert(!clashes(before, changed, at, collection, store.indexes));
        assert forall|i: int| 0 <= i < before.len() && i != at implies !clash(
            #[trigger] before[i],
            changed,
            collection,
            store.indexes,
        ) by {}
        assert forall|c: Collection, i: int| 0 <= i < after.records(c).len() implies (
        #[trigger] after.records(c)[i]).collection() == c by {
            assert(store.records(c)[i].collection() == c);
        }
        assert forall|c: Collection| ids_differ(#[trigger] after.records(c)) by {
            assert(ids_differ(store.records(c)));
            if c == collection {
                assert forall|i: int, j: int| 0 <= i < j < records.len() implies (
                #[trigger] records[i]).id() != (#[trigger] records[j]).id() by {
                    assert(before[i].id() != before[j].id());
                }
            }
        }
        assert forall|n: int| 0 <= n < after.indexes.len() implies !some_agree(
            after.records((#[trigger] after.indexes[n]).collection),
            after.indexes[n].keys,
        ) by {
            let index = store.indexes[n];
            assert(!some_agree(store.records(index.collection), index.keys));
            if index.collection == collection {
                assert forall|i: int, j: int| 0 <= i < j < records.len() implies !agree(
                    #[trigger] records[i],
                    #[trigger] records[j],
                    index.keys,
                ) by {
                    if i == at {
                        assert(!clash(before[j], changed, collection, store.indexes));
                        assert(!forbidden(before[j], changed, collection, store.indexes));
                        lemma_agree_both_ways(changed, before[j], index.keys);
                    } else if j == at {
                        assert(!clash(before[i], changed, collection, store.indexes));
                        assert(!forbidden(before[i], changed, collection, store.indexes));
                    } else {
                        assert(!agree(before[i], before[j], index.keys));
                    }
                }
            }
        }
    }
}

/// Whatever is asked of the store, no milestone falls back: one that was
/// submitted stays so. This holds of a store in which no milestone is further
/// than submitted, as the service leaves it.
pub proof fn lemma_status_never_falls(store: StoreView, request: RequestView, k: int)
    requires
        typed(store),
        delivered(store),
        0 <= k < store.milestones.len(),
    ensures
        k < store.perform(request).0.milestones.len(),
        store.perform(request).0.milestones[k] matches RecordView::Milestone(after) && (
        store.milestones[k] matches RecordView::Milestone(before) && status_rank(after.status)
            >= status_rank(before.status)),
{
    let after = store.perform(request).0;
    lemma_perform_follows(store, request);
    lemma_status_words();
    assert(records_kept(
        store.records(Collection::Milestones),
        after.records(Collection::Milestones),
    ));
    assert(kept(store.milestones[k], after.milestones[k]));
    assert(store.records(Collection::Milestones)[k].collection() == Collection::Milestones);
    assert(handed_in(store.milestones[k]));
    match request {
        RequestView::InsertOne { collection, fields } => {
            if after != store {
                lemma_with_records(
                    store,
                    collection,
                    store.records(collection).push(record_of_fields(collection, fields)->0),
                );
            }
        },
        RequestView::InsertMany { collection, batch } => {
            lemma_insert_all_keeps(store, collection, batch, batch.len() as int, k);
        },
        RequestView::FindOneAndUpdate { collection, filter, update } => {
            if after != store {
                lemma_first_passing_is_there(store.records(collection), filter, 0);
                let at = first_passing(store.records(collection), filter, 0)->0;
                lemma_with_records(
                    store,
                    collection,
                    store.records(collection).update(
                        at,
                        store.records(collection)[at].changed(update)->0,
                    ),
                );
            }
        },
        _ => {},
    }
}

/// Storing a batch leaves every milestone that was there as it was.
pub proof fn lemma_insert_all_keeps(
    store: StoreView,
    collection: Collection,
    batch: Seq<Map<Seq<char>, FieldValue>>,
    done: int,
    k: int,
)
    requires
        done <= batch.len(),
        0 <= k < store.milestones.len(),
    ensures
        k < store.insert_all(collection, batch, done).0.milestones.len(),
        store.insert_all(collection, batch, done).0.milestones[k] == store.milestones[k],
    decreases done,
{
    if done > 0 {
        lemma_insert_all_keeps(store, collection, batch, done - 1, k);
        let before = store.insert_all(collection, batch, done - 1).0;
        if before.insert(collection, batch[done - 1]).0 != before {
            lemma_with_records(
                before,
                collection,
                before.records(collection).push(
                    record_of_fields(collection, batch[done - 1])->0,
                ),
            );
        }
    }
}

/// Whatever is asked of a store that is in order, it is in order
/// afterwards: records are where they belong, identifiers are unique within
/// each collection, and no two records agree on all the keys of an index. In
/// particular, no two clients have the same name once names are indexed, and
/// no two tasks the same title.
pub proof fn lemma_perform_is_sound(store: StoreView, request: RequestView)
    requires
        sound(store),
    ensures
        sound(store.perform(request).0),
{
    let after = store.perform(request).0;
    match request {
        RequestView::Reserve { .. } => {
            lemma_reserving_keeps(store, request);
        },
        RequestView::CreateIndex { collection, keys } => {
            if after != store {
                assert forall|c: Collection, i: int| 0 <= i < after.records(c).len() implies (
                #[trigger] after.records(c)[i]).collection() == c by {
                    assert(store.records(c)[i].collection() == c);
                }
                assert forall|c: Collection| ids_differ(#[trigger] after.records(c)) by {
                    assert(ids_differ(store.records(c)));
                }
                assert forall|n: int| 0 <= n < after.indexes.len() implies !some_agree(
                    after.records((#[trigger] after.indexes[n]).collection),
                    after.indexes[n].keys,
                ) by {
                    if n < store.indexes.len() {
                        assert(!some_agree(
                            store.records(store.indexes[n].collection),
                            store.indexes[n].keys,
                        ));
                    }
                }
            }
        },
        RequestView::InsertOne { collection, fields } => {
            lemma_insert_is_sound(store, collection, fields);
        },
        RequestView::InsertMany { collection, batch } => {
            lemma_insert_all_is_sound(store, collection, batch, batch.len() as int);
        },
        RequestView::FindOneAndUpdate { collection, filter, update } => {
            lemma_change_is_sound(store, collection, filter, update);
        },
        _ => {},
    }
}

/// In a store that is in order and has an index on one field of a
/// collection, no two records of the collection hold the same text in this
/// field.
pub proof fn lemma_indexed_field_is_unique(
    store: StoreView,
    collection: Collection,
    key: Seq<char>,
    i: int,
    j: int,
)
    requires
        sound(store),
        has_index(store, collection, seq![key]),
        0 <= i < j < store.records(collection).len(),
    ensures
        store.records(collection)[i].text(key) != store.records(collection)[j].text(key),
{
    let n = choose|n: int|
        0 <= n < store.indexes.len() && #[trigger] store.indexes[n] == (IndexView {
            collection,
            keys: seq![key],
        });
    assert(!some_agree(store.records(store.indexes[n].collection), store.indexes[n].keys));
    let records = store.records(collection);
    if records[i].text(key) == records[j].text(key) {
        assert forall|k: int| 0 <= k < seq![key].len() implies records[i].text(
            #[trigger] seq![key][k],
        ) == records[j].text(seq![key][k]) by {}
        assert(agree(records[i], records[j], seq![key]));
    }
}

/// The records that pass a filter are records of the collection.
pub proof fn lemma_passing_are_there(records: Seq<RecordView>, filter: FilterView, i: int)
    requires
        0 <= i < passing(records, filter).len(),
    ensures
        exists|j: int| 0 <= j < records.len() && #[trigger] records[j] == passing(records, filter)[i],
    decreases records.len(),
{
    if records.len() > 0 {
        let rest = passing(records.drop_last(), filter);
        if i < rest.len() {
            lemma_passing_are_there(records.drop_last(), filter, i);
            let j = choose|j: int|
                0 <= j < records.drop_last().len() && #[trigger] records.drop_last()[j] == rest[i];
            assert(records[j] == passing(records, filter)[i]);
        } else {
            assert(records[records.len() - 1] == passing(records, filter)[i]);
        }
    }
}

/// A record of a collection in which no two have the same identifier is the
/// one found under its identifier.
pub proof fn lemma_record_is_found(records: Seq<RecordView>, j: int)
    requires
        ids_differ(records),
        0 <= j < records.len(),
    ensures
        found(records, records[j].id()) == Some(records[j]),
{
    lemma_first_passing_is_there(records, FilterView::Id(records[j].id()), 0);
    assert(records[j].passes(FilterView::Id(records[j].id())));
}

/// The record of the given identifier: the first that has it.
pub open spec fn found(records: Seq<RecordView>, id: Seq<char>) -> Option<RecordView> {
    match first_passing(records, FilterView::Id(id), 0) {
        Some(at) => Some(records[at]),
        None => None,
    }
}

/// The price of the milestone of the given identifier, where there is one.
pub open spec fn price_of(milestones: Seq<RecordView>, id: Seq<char>) -> Option<u64> {
    match found(milestones, id) {
        Some(RecordView::Milestone(milestone)) => Some(milestone.price),
        _ => None,
    }
}

/// The sum of the prices of the milestones of the given identifiers, where
/// there is a milestone for each.
pub open spec fn prices_of(milestones: Seq<RecordView>, ids: Seq<Seq<char>>) -> Option<nat>
    decreases ids.len(),
{
    if ids.len() == 0 {
        Some(0)
    } else {
        match (prices_of(milestones, ids.drop_last()), price_of(milestones, ids.last())) {
            (Some(sum), Some(price)) => Some(sum + price as nat),
            _ => None,
        }
    }
}

/// A proposal that has milestones has their prices for its price.
pub open spec fn proposal_is_priced(milestones: Seq<RecordView>, record: RecordView) -> bool {
    record matches RecordView::Proposal(proposal) ==> (proposal.milestones_id matches Some(ids)
        ==> (ids.len() > 0 ==> prices_of(milestones, ids) == Some(proposal.proposal_price as nat)))
}

/// Every proposal that has milestones has the sum of their prices for its
/// price.
pub open spec fn priced(store: StoreView) -> bool {
    forall|i: int|
        0 <= i < store.proposals.len() ==> proposal_is_priced(
            store.milestones,
            #[trigger] store.proposals[i],
        )
}

/// Whether there is an accepted proposal of the given identifier.
pub open spec fn accepted_proposal(proposals: Seq<RecordView>, id: Seq<char>) -> bool {
    exists|i: int|
        0 <= i < proposals.len() && ((#[trigger] proposals[i]) matches RecordView::Proposal(
            proposal,
        ) && proposal.id == id && proposal.accepted)
}

/// Every deal is the deal of an accepted proposal.
pub open spec fn dealt(store: StoreView) -> bool {
    forall|k: int|
        0 <= k < store.deals.len() ==> ((#[trigger] store.deals[k]) matches RecordView::Deal(deal)
            ==> accepted_proposal(store.proposals, deal.proposal_id))
}

/// How far a milestone has come: 0 where nothing was handed in, 1 where the
/// deliverable was submitted, 2 where it was approved.
pub open spec fn status_rank(status: Seq<char>) -> nat {
    if status == SUBMITTED@ {
        1
    } else if status == "Approved"@ {
        2
    } else {
        0
    }
}

/// A milestone that has a link was submitted; and no milestone is further
/// than submitted, since nothing that the service does approves one.
pub open spec fn handed_in(record: RecordView) -> bool {
    record matches RecordView::Milestone(milestone) ==> (milestone.link.len() > 0 ==> status_rank(
        milestone.status,
    ) >= 1) && status_rank(milestone.status) <= 1
}

/// The words for the states of a milestone differ.
pub proof fn lemma_status_words()
    ensures
        status_rank(INITIALIZED@) == 0,
        status_rank(SUBMITTED@) == 1,
        status_rank("Approved"@) == 2,
{
    reveal_strlit("Initialized");
    reveal_strlit("Submitted");
    reveal_strlit("Approved");
    assert(INITIALIZED@.len() == 11);
    assert(SUBMITTED@.len() == 9);
    assert("Approved"@.len() == 8);
}

/// Every milestone that has a link was submitted, and none is further.
pub open spec fn delivered(store: StoreView) -> bool {
    forall|k: int| 0 <= k < store.milestones.len() ==> handed_in(#[trigger] store.milestones[k])
}

/// Whether there is a proposal of the identifier.
pub open spec fn proposal_exists(proposals: Seq<RecordView>, id: Seq<char>) -> bool {
    exists|i: int| 0 <= i < proposals.len() && (#[trigger] proposals[i]).id() == id
}

/// Every milestone names a proposal that there is.
pub open spec fn named(store: StoreView) -> bool {
    forall|k: int|
        0 <= k < store.milestones.len() ==> ((
        #[trigger] store.milestones[k]) matches RecordView::Milestone(milestone)
            ==> proposal_exists(store.proposals, milestone.proposal_id))
}

/// A proposal that there is stays.
pub proof fn lemma_proposal_stays(before: StoreView, after: StoreView, id: Seq<char>)
    requires
        follows(before, after),
        proposal_exists(before.proposals, id),
    ensures
        proposal_exists(after.proposals, id),
{
    let i = choose|i: int| 0 <= i < before.proposals.len() && (#[trigger] before.proposals[i]).id() == id;
    assert(records_kept(
        before.records(Collection::Proposals),
        after.records(Collection::Proposals),
    ));
    assert(kept(before.proposals[i], after.proposals[i]));
}

/// The key of the index that keeps the names of users apart.
pub open spec fn names_key() -> Seq<Seq<char>> {
    seq!["user_name"@]
}

/// The key of the index that keeps the titles of tasks apart.
pub open spec fn title_key() -> Seq<Seq<char>> {
    seq!["title"@]
}

/// Clients and freelancers are stored under an index on their names, and
/// tasks under an index on their titles.
pub open spec fn indexed(store: StoreView) -> bool {
    &&& store.clients.len() > 0 ==> has_index(store, Collection::Clients, names_key())
    &&& store.freelancers.len() > 0 ==> has_index(store, Collection::Freelancers, names_key())
    &&& store.tasks.len() > 0 ==> has_index(store, Collection::Tasks, title_key())
}

/// The store is as the service leaves it: in order; under the indexes on
/// names and titles; every proposal with milestones priced at their sum;
/// every deal the deal of an accepted proposal; every milestone with a link
/// submitted, and none further; every milestone with a proposal.
pub open spec fn consistent(store: StoreView) -> bool {
    &&& sound(store)
    &&& indexed(store)
    &&& priced(store)
    &&& dealt(store)
    &&& delivered(store)
    &&& named(store)
}

/// A store that holds nothing is as the service leaves it.
pub proof fn lemma_empty_store_is_consistent()
    ensures
        consistent(StoreView::empty()),
{
    let store = StoreView::empty();
    assert forall|collection: Collection| ids_differ(#[trigger] store.records(collection)) by {}
}

/// Whether a record may be stored without harm: a user or a task only under
/// the index that keeps names or titles apart; a proposal only without
/// milestones; a milestone only for a proposal that there is, and only
/// where a link means that it was submitted; a deal only for an accepted
/// proposal.
pub open spec fn insertable(store: StoreView, record: RecordView) -> bool {
    match record {
        RecordView::Client(_) => has_index(store, Collection::Clients, names_key()),
        RecordView::Freelancer(_) => has_index(store, Collection::Freelancers, names_key()),
        RecordView::Task(_) => has_index(store, Collection::Tasks, title_key()),
        RecordView::Proposal(proposal) => proposal.milestones_id is None,
        RecordView::Milestone(milestone) => handed_in(record) && proposal_exists(
            store.proposals,
            milestone.proposal_id,
        ),
        RecordView::Deal(deal) => accepted_proposal(store.proposals, deal.proposal_id),
        RecordView::Review(_) => true,
    }
}

/// Whether the fields may be stored in the collection without harm.
pub open spec fn storable(store: StoreView, collection: Collection, fields: Map<Seq<char>, FieldValue>) -> bool {
    record_of_fields(collection, fields) matches Some(record) ==> insertable(store, record)
}

/// Whether a call does no harm to a store that is as the service leaves it.
/// Reading does none, nor does an index. A document does none where it may
/// be stored. A change does none, but for two: milestones are attached to a
/// proposal only with the sum of their prices, and a delivery is recorded on
/// a deal only.
pub open spec fn safe(store: StoreView, request: RequestView) -> bool {
    match request {
        RequestView::InsertOne { collection, fields } => storable(store, collection, fields),
        RequestView::InsertMany { collection, batch } => forall|k: int|
            0 <= k < batch.len() ==> storable(store, collection, #[trigger] batch[k]),
        RequestView::FindOneAndUpdate { collection, filter, update } => match update {
            UpdateView::Milestones { ids, price } => collection == Collection::Proposals ==> (
            ids.len() > 0 ==> 0 <= price && prices_of(store.milestones, ids) == Some(
                price as nat,
            )),
            UpdateView::Delivery { .. } => collection != Collection::Milestones,
            _ => true,
        },
        _ => true,
    }
}

/// The place of a record of a given identifier stays what it is.
pub proof fn lemma_found_stays(before: Seq<RecordView>, after: Seq<RecordView>, id: Seq<char>)
    requires
        records_kept(before, after),
        found(before, id) is Some,
    ensures
        first_passing(after, FilterView::Id(id), 0) == first_passing(before, FilterView::Id(id), 0),
        kept(found(before, id)->0, found(after, id)->0),
{
    lemma_first_passing_is_there(before, FilterView::Id(id), 0);
    lemma_first_passing_is_there(after, FilterView::Id(id), 0);
    let at = first_passing(before, FilterView::Id(id), 0)->0;
    assert(kept(before[at], after[at]));
    assert(after[at].passes(FilterView::Id(id)));
    match first_passing(after, FilterView::Id(id), 0) {
        Some(other) => {
            if other < at {
                assert(kept(before[other], after[other]));
                assert(before[other].passes(FilterView::Id(id)));
            }
        },
        None => {},
    }
}

/// The prices of milestones that are there stay what they are.
pub proof fn lemma_prices_stay(before: Seq<RecordView>, after: Seq<RecordView>, ids: Seq<Seq<char>>)
    requires
        records_kept(before, after),
        prices_of(before, ids) is Some,
    ensures
        prices_of(after, ids) == prices_of(before, ids),
    decreases ids.len(),
{
    if ids.len() > 0 {
        lemma_prices_stay(before, after, ids.drop_last());
        lemma_found_stays(before, after, ids.last());
    }
}

/// An accepted proposal stays one.
pub proof fn lemma_accepted_stays(before: Seq<RecordView>, after: Seq<RecordView>, id: Seq<char>)
    requires
        records_kept(before, after),
        accepted_proposal(before, id),
    ensures
        accepted_proposal(after, id),
{
    let i = choose|i: int|
        0 <= i < before.len() && ((#[trigger] before[i]) matches RecordView::Proposal(proposal)
            && proposal.id == id && proposal.accepted);
    assert(kept(before[i], after[i]));
}

/// What may be stored without harm may still be stored so later.
pub proof fn lemma_insertable_stays(before: StoreView, after: StoreView, record: RecordView)
    requires
        follows(before, after),
        insertable(before, record),
    ensures
        insertable(after, record),
{
    match record {
        RecordView::Client(_) => {
            lemma_index_stays(before, after, Collection::Clients, names_key());
        },
        RecordView::Freelancer(_) => {
            lemma_index_stays(before, after, Collection::Freelancers, names_key());
        },
        RecordView::Task(_) => {
            lemma_index_stays(before, after, Collection::Tasks, title_key());
        },
        RecordView::Deal(deal) => {
            assert(records_kept(
                before.records(Collection::Proposals),
                after.records(Collection::Proposals),
            ));
            lemma_accepted_stays(before.proposals, after.proposals, deal.proposal_id);
        },
        RecordView::Milestone(milestone) => {
            lemma_proposal_stays(before, after, milestone.proposal_id);
        },
        _ => {},
    }
}

/// An index that is there stays.
pub proof fn lemma_index_stays(
    before: StoreView,
    after: StoreView,
    collection: Collection,
    keys: Seq<Seq<char>>,
)
    requires
        follows(before, after),
        has_index(before, collection, keys),
    ensures
        has_index(after, collection, keys),
{
    let n = choose|n: int|
        0 <= n < before.indexes.len() && #[trigger] before.indexes[n] == (IndexView {
            collection,
            keys,
        });
    assert(after.indexes[n] == before.indexes[n]);
}

/// A store that is as the service leaves it is so after a document that
/// may be stored without harm is stored, or refused.
pub proof fn lemma_insert_is_consistent(
    store: StoreView,
    collection: Collection,
    fields: Map<Seq<char>, FieldValue>,
)
    requires
        consistent(store),
        storable(store, collection, fields),
    ensures
        consistent(store.insert(collection, fields).0),
{
    let after = store.insert(collection, fields).0;
    lemma_insert_is_sound(store, collection, fields);
    if after != store {
        let record = record_of_fields(collection, fields)->0;
        let records = store.records(collection).push(record);
        lemma_with_records(store, collection, records);
        lemma_read_is_typed(collection, fields);
        lemma_insert_follows(store, collection, fields);
        assert(records_kept(
            store.records(Collection::Milestones),
            after.records(Collection::Milestones),
        ));
        assert(records_kept(
            store.records(Collection::Proposals),
            after.records(Collection::Proposals),
        ));
        assert(after.records(Collection::Clients) == after.clients);
        assert(after.records(Collection::Freelancers) == after.freelancers);
        assert(after.records(Collection::Tasks) == after.tasks);
        assert(after.records(Collection::Deals) == after.deals);
        assert(after.records(Collection::Reviews) == after.reviews);
        assert(indexed(after)) by {
            if collection == Collection::Clients {
                lemma_index_stays(store, after, Collection::Clients, names_key());
            } else if store.clients.len() > 0 {
                lemma_index_stays(store, after, Collection::Clients, names_key());
            }
            if collection == Collection::Freelancers {
                lemma_index_stays(store, after, Collection::Freelancers, names_key());
            } else if store.freelancers.len() > 0 {
                lemma_index_stays(store, after, Collection::Freelancers, names_key());
            }
            if collection == Collection::Tasks {
                lemma_index_stays(store, after, Collection::Tasks, title_key());
            } else if store.tasks.len() > 0 {
                lemma_index_stays(store, after, Collection::Tasks, title_key());
            }
        }
        assert forall|i: int| 0 <= i < after.proposals.len() implies proposal_is_priced(
            after.milestones,
            #[trigger] after.proposals[i],
        ) by {
            if i < store.proposals.len() {
                assert(proposal_is_priced(store.milestones, store.proposals[i]));
                assert(after.proposals[i] == store.proposals[i]);
                if let RecordView::Proposal(proposal) = store.proposals[i] {
                    if let Some(ids) = proposal.milestones_id {
                        if ids.len() > 0 {
                            lemma_prices_stay(store.milestones, after.milestones, ids);
                        }
                    }
                }
            }
        }
        assert forall|k: int| 0 <= k < after.deals.len() implies ((
        #[trigger] after.deals[k]) matches RecordView::Deal(deal) ==> accepted_proposal(
            after.proposals,
            deal.proposal_id,
        )) by {
            if let RecordView::Deal(deal) = after.deals[k] {
                if k < store.deals.len() {
                    assert(after.deals[k] == store.deals[k]);
                }
                lemma_accepted_stays(store.proposals, after.proposals, deal.proposal_id);
            }
        }
        assert forall|k: int| 0 <= k < after.milestones.len() implies handed_in(
            #[trigger] after.milestones[k],
        ) by {
            if k < store.milestones.len() {
                assert(after.milestones[k] == store.milestones[k]);
            }
        }
        assert forall|k: int| 0 <= k < after.milestones.len() implies ((
        #[trigger] after.milestones[k]) matches RecordView::Milestone(milestone)
            ==> proposal_exists(after.proposals, milestone.proposal_id)) by {
            if let RecordView::Milestone(milestone) = after.milestones[k] {
                if k < store.milestones.len() {
                    assert(after.milestones[k] == store.milestones[k]);
                }
                lemma_proposal_stays(store, after, milestone.proposal_id);
            }
        }
    }
}

/// A store that is as the service leaves it is so after a batch of
/// documents that may be stored without harm is stored, as far as it is.
pub proof fn lemma_insert_all_is_consistent(
    store: StoreView,
    collection: Collection,
    batch: Seq<Map<Seq<char>, FieldValue>>,
    done: int,
)
    requires
        consistent(store),
        done <= batch.len(),
        forall|k: int| 0 <= k < batch.len() ==> storable(store, collection, #[trigger] batch[k]),
    ensures
        consistent(store.insert_all(collection, batch, done).0),
    decreases done,
{
    if done > 0 {
        lemma_insert_all_is_consistent(store, collection, batch, done - 1);
        let before = store.insert_all(collection, batch, done - 1).0;
        lemma_insert_all_follows(store, collection, batch, done - 1);
        assert(storable(store, collection, batch[done - 1]));
        if let Some(record) = record_of_fields(collection, batch[done - 1]) {
            lemma_insertable_stays(store, before, record);
        }
        lemma_insert_is_consistent(before, collection, batch[done - 1]);
    }
}

/// A store that is as the service leaves it is so after a change that does
/// no harm, or its refusal.
pub proof fn lemma_change_is_consistent(
    store: StoreView,
    collection: Collection,
    filter: FilterView,
    update: UpdateView,
)
    requires
        consistent(store),
        safe(store, RequestView::FindOneAndUpdate { collection, filter, update }),
    ensures
        consistent(store.perform(RequestView::FindOneAndUpdate { collection, filter, update }).0),
{
    let request = RequestView::FindOneAndUpdate { collection, filter, update };
    let after = store.perform(request).0;
    lemma_change_is_sound(store, collection, filter, update);
    if after != store {
        let before = store.records(collection);
        lemma_first_passing_is_there(before, filter, 0);
        let at = first_passing(before, filter, 0)->0;
        let changed = before[at].changed(update)->0;
        let records = before.update(at, changed);
        lemma_with_records(store, collection, records);
        lemma_change_keeps(before[at], update);
        lemma_perform_follows(store, request);
        assert(before[at].collection() == collection);
        assert(records_kept(
            store.records(Collection::Milestones),
            after.records(Collection::Milestones),
        ));
        assert(records_kept(
            store.records(Collection::Proposals),
            after.records(Collection::Proposals),
        ));
        assert(after.records(Collection::Clients) == after.clients);
        assert(after.records(Collection::Freelancers) == after.freelancers);
        assert(after.records(Collection::Tasks) == after.tasks);
        assert(after.records(Collection::Deals) == after.deals);
        assert(after.records(Collection::Reviews) == after.reviews);
        assert(indexed(after)) by {
            if store.clients.len() > 0 {
                lemma_index_stays(store, after, Collection::Clients, names_key());
            }
            if store.freelancers.len() > 0 {
                lemma_index_stays(store, after, Collection::Freelancers, names_key());
            }
            if store.tasks.len() > 0 {
                lemma_index_stays(store, after, Collection::Tasks, title_key());
            }
        }
        assert forall|i: int| 0 <= i < after.proposals.len() implies proposal_is_priced(
            after.milestones,
            #[trigger] after.proposals[i],
        ) by {
            assert(proposal_is_priced(store.milestones, store.proposals[i]));
            if collection == Collection::Proposals && i == at {
                assert(after.milestones == store.milestones);
            } else {
                assert(after.proposals[i] == store.proposals[i]);
                if let RecordView::Proposal(proposal) = store.proposals[i] {
                    if let Some(ids) = proposal.milestones_id {
                        if ids.len() > 0 {
                            lemma_prices_stay(store.milestones, after.milestones, ids);
                        }
                    }
                }
            }
        }
        assert forall|k: int| 0 <= k < after.deals.len() implies ((
        #[trigger] after.deals[k]) matches RecordView::Deal(deal) ==> accepted_proposal(
            after.proposals,
            deal.proposal_id,
        )) by {
            if let RecordView::Deal(deal) = after.deals[k] {
                assert(kept(store.deals[k], after.deals[k])) by {
                    assert(records_kept(
                        store.records(Collection::Deals),
                        after.records(Collection::Deals),
                    ));
                }
                lemma_accepted_stays(store.proposals, after.proposals, deal.proposal_id);
            }
        }
        assert forall|k: int| 0 <= k < after.milestones.len() implies handed_in(
            #[trigger] after.milestones[k],
        ) by {
            lemma_status_words();
            assert(handed_in(store.milestones[k]));
            if !(collection == Collection::Milestones && k == at) {
                assert(after.milestones[k] == store.milestones[k]);
            }
        }
        assert forall|k: int| 0 <= k < after.milestones.len() implies ((
        #[trigger] after.milestones[k]) matches RecordView::Milestone(milestone)
            ==> proposal_exists(after.proposals, milestone.proposal_id)) by {
            assert(kept(store.milestones[k], after.milestones[k]));
            assert(store.records(Collection::Milestones)[k].collection()
                == Collection::Milestones);
            if let RecordView::Milestone(milestone) = after.milestones[k] {
                lemma_proposal_stays(store, after, milestone.proposal_id);
            }
        }
    }
}

/// A store that is as the service leaves it is so after any call that does
/// no harm.
pub proof fn lemma_perform_is_consistent(store: StoreView, request: RequestView)
    requires
        consistent(store),
        safe(store, request),
    ensures
        consistent(store.perform(request).0),
{
    let after = store.perform(request).0;
    match request {
        RequestView::Reserve { .. } => {
            lemma_reserving_keeps(store, request);
        },
        RequestView::CreateIndex { collection, keys } => {
            lemma_perform_is_sound(store, request);
            lemma_perform_follows(store, request);
            if store.clients.len() > 0 {
                lemma_index_stays(store, after, Collection::Clients, names_key());
            }
            if store.freelancers.len() > 0 {
                lemma_index_stays(store, after, Collection::Freelancers, names_key());
            }
            if store.tasks.len() > 0 {
                lemma_index_stays(store, after, Collection::Tasks, title_key());
            }
        },
        RequestView::InsertOne { collection, fields } => {
            lemma_insert_is_consistent(store, collection, fields);
        },
        RequestView::InsertMany { collection, batch } => {
            lemma_insert_all_is_consistent(store, collection, batch, batch.len() as int);
        },
        RequestView::FindOneAndUpdate { collection, filter, update } => {
            lemma_change_is_consistent(store, collection, filter, update);
        },
        _ => {},
    }
}

/// What is known of the store from the answers that it has given so far.
pub type Known = spec_fn(StoreView, Seq<AnswerView>) -> bool;

/// A script is careful where every call that it asks for does no harm to
/// the store in which it is made, as far as the store is as the service
/// leaves it and what is known of it holds; and what is known still holds
/// after the call.
pub open spec fn careful(script: Script, known: Known) -> bool {
    forall|store: StoreView, answers: Seq<AnswerView>|
        consistent(store) && #[trigger] known(store, answers) && script(answers) is Call ==> safe(
            store,
            script(answers)->Call_0,
        ) && known(
            store.perform(script(answers)->Call_0).0,
            answers.push(store.perform(script(answers)->Call_0).1),
        )
}

/// All the answers of the store by the end of a run.
pub open spec fn run_answers(store: StoreView, script: Script, answers: Seq<AnswerView>, calls: nat) -> Seq<
    AnswerView,
>
    decreases calls,
{
    match script(answers) {
        ServedView::Done(_) => answers,
        ServedView::Call(request) => if calls == 0 {
            answers
        } else {
            let (after, answer) = store.perform(request);
            run_answers(after, script, answers.push(answer), (calls - 1) as nat)
        },
    }
}

/// A run ends with what the script makes of all the answers, unless the
/// script still asks for a call when no more are made.
pub proof fn lemma_run_ends(store: StoreView, script: Script, answers: Seq<AnswerView>, calls: nat)
    ensures
        script(run_answers(store, script, answers, calls)) matches ServedView::Done(reply)
            ==> run_from(store, script, answers, calls).1 == reply,
        script(run_answers(store, script, answers, calls)) is Call ==> run_from(
            store,
            script,
            answers,
            calls,
        ).1 == failure::<BodyView>(unexpected()),
    decreases calls,
{
    match script(answers) {
        ServedView::Call(request) => {
            if calls > 0 {
                let (after, answer) = store.perform(request);
                lemma_run_ends(after, script, answers.push(answer), (calls - 1) as nat);
            }
        },
        ServedView::Done(_) => {},
    }
}

/// A run that ends while the script still asks for a call has made all the
/// calls that it may.
pub proof fn lemma_run_uses_its_calls(
    store: StoreView,
    script: Script,
    answers: Seq<AnswerView>,
    calls: nat,
)
    requires
        script(run_answers(store, script, answers, calls)) is Call,
    ensures
        run_answers(store, script, answers, calls).len() == answers.len() + calls,
    decreases calls,
{
    match script(answers) {
        ServedView::Call(request) => {
            if calls > 0 {
                let (after, answer) = store.perform(request);
                lemma_run_uses_its_calls(after, script, answers.push(answer), (calls - 1) as nat);
            }
        },
        ServedView::Done(_) => {},
    }
}

/// Running a careful script leaves the store as the service leaves it, and
/// takes nothing out of it; and what is known of the store holds at the end.
pub proof fn lemma_careful_run(
    store: StoreView,
    script: Script,
    known: Known,
    answers: Seq<AnswerView>,
    calls: nat,
)
    requires
        consistent(store),
        known(store, answers),
        careful(script, known),
    ensures
        consistent(run_from(store, script, answers, calls).0),
        follows(store, run_from(store, script, answers, calls).0),
        known(
            run_from(store, script, answers, calls).0,
            run_answers(store, script, answers, calls),
        ),
    decreases calls,
{
    lemma_follows_itself(store);
    match script(answers) {
        ServedView::Call(request) => {
            if calls > 0 {
                let (after, answer) = store.perform(request);
                lemma_perform_is_consistent(store, request);
                lemma_perform_follows(store, request);
                lemma_careful_run(after, script, known, answers.push(answer), (calls - 1) as nat);
                lemma_follows_goes_on(
                    store,
                    after,
                    run_from(after, script, answers.push(answer), (calls - 1) as nat).0,
                );
            }
        },
        ServedView::Done(_) => {},
    }
}

/// Whatever is served, nothing is taken out of the store or moved, and every
/// record stays what it is for good.
pub proof fn lemma_run_follows(store: StoreView, script: Script, answers: Seq<AnswerView>, calls: nat)
    ensures
        follows(store, run_from(store, script, answers, calls).0),
    decreases calls,
{
    lemma_follows_itself(store);
    match script(answers) {
        ServedView::Call(request) => {
            if calls > 0 {
                let (after, answer) = store.perform(request);
                lemma_perform_follows(store, request);
                lemma_run_follows(after, script, answers.push(answer), (calls - 1) as nat);
                lemma_follows_goes_on(
                    store,
                    after,
                    run_from(after, script, answers.push(answer), (calls - 1) as nat).0,
                );
            }
        },
        ServedView::Done(_) => {},
    }
}

/// Whatever is served to a store that is in order, the store is in order
/// afterwards.
pub proof fn lemma_run_is_sound(store: StoreView, script: Script, answers: Seq<AnswerView>, calls: nat)
    requires
        sound(store),
    ensures
        sound(run_from(store, script, answers, calls).0),
    decreases calls,
{
    match script(answers) {
        ServedView::Call(request) => {
            if calls > 0 {
                let (after, answer) = store.perform(request);
                lemma_perform_is_sound(store, request);
                lemma_run_is_sound(after, script, answers.push(answer), (calls - 1) as nat);
            }
        },
        ServedView::Done(_) => {},
    }
}

/// Both are known.
pub open spec fn both(first: Known, second: Known) -> Known {
    |store: StoreView, answers: Seq<AnswerView>| first(store, answers) && second(store, answers)
}

/// A script that is careful with what is known is careful with more that is
/// known, where this still holds after each of its calls.
pub proof fn lemma_careful_both(script: Script, first: Known, second: Known)
    requires
        careful(script, first),
        forall|store: StoreView, answers: Seq<AnswerView>|
            #![trigger second(store, answers)]
            consistent(store) && first(store, answers) && second(store, answers) && script(answers)
                is Call ==> second(
                store.perform(script(answers)->Call_0).0,
                answers.push(store.perform(script(answers)->Call_0).1),
            ),
    ensures
        careful(script, both(first, second)),
{
    let known = both(first, second);
    assert forall|store: StoreView, answers: Seq<AnswerView>|
        consistent(store) && #[trigger] known(store, answers) && script(answers) is Call implies safe(
        store,
        script(answers)->Call_0,
    ) && known(
        store.perform(script(answers)->Call_0).0,
        answers.push(store.perform(script(answers)->Call_0).1),
    ) by {
        assert(first(store, answers));
        assert(second(store, answers));
    }
}

/// Nothing is known.
pub open spec fn nothing_known() -> Known {
    |store: StoreView, answers: Seq<AnswerView>| true
}

/// Whether two stores hold the same documents under the same indexes.
pub open spec fn same_documents(before: StoreView, after: StoreView) -> bool {
    &&& after.clients == before.clients
    &&& after.freelancers == before.freelancers
    &&& after.tasks == before.tasks
    &&& after.proposals == before.proposals
    &&& after.milestones == before.milestones
    &&& after.deals == before.deals
    &&& after.reviews == before.reviews
    &&& after.indexes == before.indexes
}

/// Setting numbers aside changes no document and no index, and does no
/// harm.
pub proof fn lemma_reserving_keeps(store: StoreView, request: RequestView)
    requires
        request is Reserve,
    ensures
        same_documents(store, store.perform(request).0),
        follows(store, store.perform(request).0),
        safe(store, request),
        sound(store) ==> sound(store.perform(request).0),
        consistent(store) ==> consistent(store.perform(request).0),
{
    let after = store.perform(request).0;
    assert forall|collection: Collection| #[trigger]
        after.records(collection) == store.records(collection) by {}
    assert forall|collection: Collection, keys: Seq<Seq<char>>| #[trigger]
        has_index(after, collection, keys) == has_index(store, collection, keys) by {}
    lemma_follows_itself(store);
    if sound(store) {
        assert forall|collection: Collection| ids_differ(#[trigger] after.records(collection)) by {
            assert(ids_differ(store.records(collection)));
        }
    }
}

/// Whether a call only reads.
pub open spec fn reads(request: RequestView) -> bool {
    request is CountDocuments || request is FindOne || request is Find
}

/// A call that only reads leaves the store as it is.
pub proof fn lemma_reading_changes_nothing(store: StoreView, request: RequestView)
    requires
        reads(request),
    ensures
        store.perform(request).0 == store,
        safe(store, request),
{
}

/// A script that only reads is careful.
pub proof fn lemma_reading_is_careful(script: Script)
    requires
        forall|answers: Seq<AnswerView>|
            (#[trigger] script(answers)) is Call ==> reads(script(answers)->Call_0),
    ensures
        careful(script, nothing_known()),
{
    assert forall|store: StoreView, answers: Seq<AnswerView>|
        consistent(store) && #[trigger] nothing_known()(store, answers) && script(answers)
            is Call implies safe(store, script(answers)->Call_0) && nothing_known()(
        store.perform(script(answers)->Call_0).0,
        answers.push(store.perform(script(answers)->Call_0).1),
    ) by {
        lemma_reading_changes_nothing(store, script(answers)->Call_0);
    }
}

/// A script that only reads leaves the store as it is.
pub proof fn lemma_reading_run(store: StoreView, script: Script, answers: Seq<AnswerView>, calls: nat)
    requires
        forall|answers: Seq<AnswerView>|
            (#[trigger] script(answers)) is Call ==> reads(script(answers)->Call_0),
    ensures
        run_from(store, script, answers, calls).0 == store,
    decreases calls,
{
    match script(answers) {
        ServedView::Call(request) => {
            if calls > 0 {
                lemma_reading_changes_nothing(store, request);
                lemma_reading_run(
                    store,
                    script,
                    answers.push(store.perform(request).1),
                    (calls - 1) as nat,
                );
            }
        },
        ServedView::Done(_) => {},
    }
}

} // verus!
