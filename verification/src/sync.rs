//! The delta protocol: asking for what changed, and merging the answer.
//!
//! A listing answers with records and with the server knowledge it was made
//! at. Handing that number back as the cursor of the next request for the
//! same scope makes the next answer hold only what changed since. A record
//! with `deleted` set is an instruction to drop its id; any other record
//! replaces what was held under its id. A [`Replica`] keeps the ids that are
//! live and the cursor to send next.

use crate::client::{cursor_parameter, filters, with_query};
use crate::envelope::{
    knowledge_missing, knowledge_required, require_knowledge, Expect, Failure, Operation, Reply,
};
use crate::models::{
    Account, AccountsResponse, CategoriesResponse, Category, CategoryGroup,
    CategoryGroupWithCategories, HybridTransaction, HybridTransactionsResponse, MonthDetail,
    MonthSummariesResponse, MonthSummary, Payee, PayeeLocation, PayeeLocationsResponse,
    PayeesResponse, ScheduledSubTransaction, ScheduledTransactionDetail,
    ScheduledTransactionSummary, ScheduledTransactionsResponse, SubTransaction, TransactionDetail,
    TransactionSummary, TransactionsResponse,
};
use crate::text::{same, views};
use vstd::prelude::*;

verus! {

/// A record as the delta protocol sees it: the key it is held under and
/// whether it has been deleted.
pub trait Record {
    /// The key the record is held under.
    spec fn key(&self) -> Seq<char>;

    /// Whether the record says that its key is to be dropped.
    spec fn gone(&self) -> bool;

    /// The key the record is held under.
    fn id(&self) -> (id: &String)
        ensures
            id@ == self.key(),
    ;

    /// Whether the record says that its key is to be dropped.
    fn is_deleted(&self) -> (deleted: bool)
        ensures
            deleted == self.gone(),
    ;
}

impl Record for Account {
    open spec fn key(&self) -> Seq<char> {
        self.id@
    }

    open spec fn gone(&self) -> bool {
        self.deleted
    }

    fn id(&self) -> (id: &String) {
        &self.id
    }

    fn is_deleted(&self) -> (deleted: bool) {
        self.deleted
    }
}

impl Record for CategoryGroup {
    open spec fn key(&self) -> Seq<char> {
        self.id@
    }

    open spec fn gone(&self) -> bool {
        self.deleted
    }

    fn id(&self) -> (id: &String) {
        &self.id
    }

    fn is_deleted(&self) -> (deleted: bool) {
        self.deleted
    }
}

impl Record for CategoryGroupWithCategories {
    open spec fn key(&self) -> Seq<char> {
        self.id@
    }

    open spec fn gone(&self) -> bool {
        self.deleted
    }

    fn id(&self) -> (id: &String) {
        &self.id
    }

    fn is_deleted(&self) -> (deleted: bool) {
        self.deleted
    }
}

impl Record for Category {
    open spec fn key(&self) -> Seq<char> {
        self.id@
    }

    open spec fn gone(&self) -> bool {
        self.deleted
    }

    fn id(&self) -> (id: &String) {
        &self.id
    }

    fn is_deleted(&self) -> (deleted: bool) {
        self.deleted
    }
}

impl Record for Payee {
    open spec fn key(&self) -> Seq<char> {
        self.id@
    }

    open spec fn gone(&self) -> bool {
        self.deleted
    }

    fn id(&self) -> (id: &String) {
        &self.id
    }

    fn is_deleted(&self) -> (deleted: bool) {
        self.deleted
    }
}

impl Record for PayeeLocation {
    open spec fn key(&self) -> Seq<char> {
        self.id@
    }

    open spec fn gone(&self) -> bool {
        self.deleted
    }

    fn id(&self) -> (id: &String) {
        &self.id
    }

    fn is_deleted(&self) -> (deleted: bool) {
        self.deleted
    }
}

impl Record for TransactionSummary {
    open spec fn key(&self) -> Seq<char> {
        self.id@
    }

    open spec fn gone(&self) -> bool {
        self.deleted
    }

    fn id(&self) -> (id: &String) {
        &self.id
    }

    fn is_deleted(&self) -> (deleted: bool) {
        self.deleted
    }
}

impl Record for TransactionDetail {
    open spec fn key(&self) -> Seq<char> {
        self.id@
    }

    open spec fn gone(&self) -> bool {
        self.deleted
    }

    fn id(&self) -> (id: &String) {
        &self.id
    }

    fn is_deleted(&self) -> (deleted: bool) {
        self.deleted
    }
}

impl Record for HybridTransaction {
    open spec fn key(&self) -> Seq<char> {
        self.id@
    }

    open spec fn gone(&self) -> bool {
        self.deleted
    }

    fn id(&self) -> (id: &String) {
        &self.id
    }

    fn is_deleted(&self) -> (deleted: bool) {
        self.deleted
    }
}

impl Record for SubTransaction {
    open spec fn key(&self) -> Seq<char> {
        self.id@
    }

    open spec fn gone(&self) -> bool {
        self.deleted
    }

    fn id(&self) -> (id: &String) {
        &self.id
    }

    fn is_deleted(&self) -> (deleted: bool) {
        self.deleted
    }
}

impl Record for ScheduledTransactionSummary {
    open spec fn key(&self) -> Seq<char> {
        self.id@
    }

    open spec fn gone(&self) -> bool {
        self.deleted
    }

    fn id(&self) -> (id: &String) {
        &self.id
    }

    fn is_deleted(&self) -> (deleted: bool) {
        self.deleted
    }
}

impl Record for ScheduledTransactionDetail {
    open spec fn key(&self) -> Seq<char> {
        self.id@
    }

    open spec fn gone(&self) -> bool {
        self.deleted
    }

    fn id(&self) -> (id: &String) {
        &self.id
    }

    fn is_deleted(&self) -> (deleted: bool) {
        self.deleted
    }
}

impl Record for ScheduledSubTransaction {
    open spec fn key(&self) -> Seq<char> {
        self.id@
    }

    open spec fn gone(&self) -> bool {
        self.deleted
    }

    fn id(&self) -> (id: &String) {
        &self.id
    }

    fn is_deleted(&self) -> (deleted: bool) {
        self.deleted
    }
}

impl Record for MonthSummary {
    open spec fn key(&self) -> Seq<char> {
        self.month@
    }

    open spec fn gone(&self) -> bool {
        self.deleted
    }

    fn id(&self) -> (id: &String) {
        &self.month
    }

    fn is_deleted(&self) -> (deleted: bool) {
        self.deleted
    }
}

impl Record for MonthDetail {
    open spec fn key(&self) -> Seq<char> {
        self.month@
    }

    open spec fn gone(&self) -> bool {
        self.deleted
    }

    fn id(&self) -> (id: &String) {
        &self.month
    }

    fn is_deleted(&self) -> (deleted: bool) {
        self.deleted
    }
}

/// The keys of the records whose deleted flag is `gone`, in the order of
/// the records.
pub open spec fn keys_where<R: Record>(records: Seq<R>, gone: bool) -> Seq<Seq<char>>
    decreases records.len(),
{
    if records.len() == 0 {
        Seq::empty()
    } else if records.last().gone() == gone {
        keys_where(records.drop_last(), gone).push(records.last().key())
    } else {
        keys_where(records.drop_last(), gone)
    }
}

/// What a listing asks of a replica: the ids to hold, the ids to drop, and
/// the server knowledge to send as the next cursor, where the listing carried
/// one.
#[derive(Debug, Clone, PartialEq, Eq)]
pub struct Delta {
    pub upserted: Vec<String>,
    pub removed: Vec<String>,
    pub server_knowledge: Option<i64>,
}

/// Whether `delta` is what `records`, listed at `server_knowledge`, ask of a
/// replica.
pub open spec fn is_delta_of<R: Record>(
    delta: Delta,
    records: Seq<R>,
    server_knowledge: Option<i64>,
) -> bool {
    &&& views(delta.upserted@) == keys_where(records, false)
    &&& views(delta.removed@) == keys_where(records, true)
    &&& delta.server_knowledge == server_knowledge
}

/// Appends to `ids` the keys of the records whose deleted flag is `gone`.
fn collect_keys<R: Record>(ids: &mut Vec<String>, records: &Vec<R>, gone: bool)
    ensures
        views(final(ids)@) == views(old(ids)@) + keys_where(records@, gone),
{
    let mut i: usize = 0;
    while i < records.len()
        invariant
            i <= records.len(),
            views(ids@) == views(old(ids)@) + keys_where(records@.take(i as int), gone),
        decreases records.len() - i,
    {
        let ghost before = records@.take(i as int);
        let ghost after = records@.take(i + 1);
        proof {
            assert(after.drop_last() =~= before);
            assert(after.last() == records@[i as int]);
        }
        let ghost held = ids@;
        if records[i].is_deleted() == gone {
            let id = records[i].id().clone();
            ids.push(id);
            assert(views(ids@) =~= views(held).push(records@[i as int].key()));
        }
        assert(views(ids@) =~= views(old(ids)@) + keys_where(after, gone));
        i += 1;
    }
    assert(records@.take(records.len() as int) =~= records@);
}

/// What `records`, listed at `server_knowledge`, ask of a replica.
pub fn delta_of<R: Record>(records: &Vec<R>, server_knowledge: Option<i64>) -> (delta: Delta)
    ensures
        is_delta_of(delta, records@, server_knowledge),
{
    let mut upserted: Vec<String> = Vec::new();
    let mut removed: Vec<String> = Vec::new();
    collect_keys(&mut upserted, records, false);
    collect_keys(&mut removed, records, true);
    assert(views(upserted@) =~= keys_where(records@, false));
    assert(views(removed@) =~= keys_where(records@, true));
    Delta { upserted, removed, server_knowledge }
}

/// The position of `id` among `ids`, if it is held.
fn position_of(ids: &Vec<String>, id: &str) -> (found: Option<usize>)
    ensures
        found is Some <==> views(ids@).contains(id@),
        found matches Some(at) ==> at < ids.len() && views(ids@)[at as int] == id@,
{
    let mut i: usize = 0;
    while i < ids.len()
        invariant
            i <= ids.len(),
            forall|j: int| 0 <= j < i ==> ids@[j]@ != id@,
        decreases ids.len() - i,
    {
        if same(ids[i].as_str(), id) {
            assert(views(ids@)[i as int] == id@);
            return Some(i);
        }
        i += 1;
    }
    assert forall|j: int| 0 <= j < views(ids@).len() implies views(ids@)[j] != id@ by {
        assert(views(ids@)[j] == ids@[j]@);
    }
    None
}

/// Holds `id` from now on.
fn hold(ids: &mut Vec<String>, id: &String)
    requires
        views(old(ids)@).no_duplicates(),
    ensures
        views(final(ids)@).no_duplicates(),
        views(final(ids)@).to_set() == views(old(ids)@).to_set().insert(id@),
{
    if position_of(ids, id.as_str()).is_none() {
        let ghost before = views(ids@);
        ids.push(id.clone());
        proof {
            assert(views(ids@) =~= before.push(id@));
            assert forall|i: int, j: int|
                0 <= i < views(ids@).len() && 0 <= j < views(ids@).len() && i != j implies views(
                ids@,
            )[i] != views(ids@)[j] by {
                if i < before.len() {
                    assert(before[i] == views(ids@)[i]);
                    assert(before.contains(before[i]));
                }
                if j < before.len() {
                    assert(before[j] == views(ids@)[j]);
                    assert(before.contains(before[j]));
                }
            }
            before.lemma_push_to_set_commute(id@);
        }
    } else {
        proof {
            assert(views(ids@).to_set().contains(id@));
            assert(views(ids@).to_set().insert(id@) =~= views(ids@).to_set());
        }
    }
}

/// A position at which a sequence holds a value it contains.
proof fn position_of_witness(held: Seq<Seq<char>>, id: Seq<char>) -> (at: int)
    requires
        held.contains(id),
    ensures
        0 <= at < held.len(),
        held[at] == id,
{
    choose|at: int| 0 <= at < held.len() && held[at] == id
}

/// Holds `id` no longer.
fn drop_id(ids: &mut Vec<String>, id: &String)
    requires
        views(old(ids)@).no_duplicates(),
    ensures
        views(final(ids)@).no_duplicates(),
        views(final(ids)@).to_set() == views(old(ids)@).to_set().remove(id@),
{
    match position_of(ids, id.as_str()) {
        Some(at) => {
            let ghost before = views(ids@);
            ids.remove(at);
            proof {
                let after = views(ids@);
                assert(after =~= before.remove(at as int));
                assert forall|i: int, j: int|
                    0 <= i < after.len() && 0 <= j < after.len() && i != j implies after[i]
                    != after[j] by {
                    let from_i = if i < at { i } else { i + 1 };
                    let from_j = if j < at { j } else { j + 1 };
                    assert(after[i] == before[from_i]);
                    assert(after[j] == before[from_j]);
                }
                assert forall|key: Seq<char>| #[trigger]
                    after.contains(key) <==> (before.contains(key) && key != id@) by {
                    if after.contains(key) {
                        let i = position_of_witness(after, key);
                        let from_i = if i < at { i } else { i + 1 };
                        assert(before[from_i] == key);
                        assert(before.contains(key));
                        assert(from_i != at);
                    }
                    if before.contains(key) && key != id@ {
                        let i = position_of_witness(before, key);
                        let to_i = if i < at { i } else { i - 1 };
                        assert(after[to_i] == key);
                        assert(after.contains(key));
                    }
                }
                assert(after.to_set() =~= before.to_set().remove(id@));
            }
        },
        None => {
            proof {
                assert(views(ids@).to_set().remove(id@) =~= views(ids@).to_set());
            }
        },
    }
}

/// The keys a replica holds after it has dropped `removed` and then come to
/// hold `upserted`.
pub open spec fn merged(
    live: Set<Seq<char>>,
    upserted: Seq<Seq<char>>,
    removed: Seq<Seq<char>>,
) -> Set<Seq<char>> {
    live.difference(removed.to_set()).union(upserted.to_set())
}

/// The cursor to send after a listing: the server knowledge the listing
/// carried, or the cursor as it was where it carried none.
pub open spec fn advanced(cursor: Option<i64>, server_knowledge: Option<i64>) -> Option<i64> {
    match server_knowledge {
        Some(knowledge) => Some(knowledge),
        None => cursor,
    }
}

/// The ids of one resource scope that are live, and the cursor to send with
/// the next listing request for that scope.
#[derive(Debug)]
pub struct Replica {
    ids: Vec<String>,
    cursor: Option<i64>,
}

impl Replica {
    #[verifier::type_invariant]
    spec fn distinct(&self) -> bool {
        views(self.ids@).no_duplicates()
    }

    /// The ids that are live.
    pub closed spec fn live(&self) -> Set<Seq<char>> {
        views(self.ids@).to_set()
    }

    /// The cursor to send next: nothing before the first listing, then the
    /// server knowledge of the latest listing that was merged.
    pub closed spec fn knowledge(&self) -> Option<i64> {
        self.cursor
    }

    /// A replica that holds nothing and has seen no listing.
    pub fn new() -> (replica: Replica)
        ensures
            replica.live() == Set::<Seq<char>>::empty(),
            replica.knowledge() == None::<i64>,
    {
        let replica = Replica { ids: Vec::new(), cursor: None };
        assert(views(replica.ids@).to_set() =~= Set::<Seq<char>>::empty());
        replica
    }

    /// The cursor to send with the next listing request.
    pub fn cursor(&self) -> (cursor: Option<i64>)
        ensures
            cursor == self.knowledge(),
    {
        self.cursor
    }

    /// The number of ids that are live.
    pub fn len(&self) -> (count: usize)
        ensures
            count == self.live().len(),
    {
        proof {
            use_type_invariant(self);
            views(self.ids@).unique_seq_to_set();
        }
        self.ids.len()
    }

    /// Whether `id` is live.
    pub fn contains(&self, id: &str) -> (held: bool)
        ensures
            held == self.live().contains(id@),
    {
        position_of(&self.ids, id).is_some()
    }

    /// Stores `server_knowledge` as the cursor to send next.
    pub fn advance(&mut self, server_knowledge: i64)
        ensures
            final(self).knowledge() == Some(server_knowledge),
            final(self).live() == old(self).live(),
    {
        proof {
            use_type_invariant(&*self);
        }
        self.cursor = Some(server_knowledge);
    }

    /// Merges a listing: drops the ids it reports as deleted, holds the ids
    /// of its other records, and stores its server knowledge, where it has
    /// one, as the cursor to send next.
    pub fn apply(&mut self, delta: &Delta)
        ensures
            final(self).live() == merged(
                old(self).live(),
                views(delta.upserted@),
                views(delta.removed@),
            ),
            final(self).knowledge() == advanced(old(self).knowledge(), delta.server_knowledge),
    {
        proof {
            use_type_invariant(&*self);
        }
        let ghost start = views(self.ids@).to_set();
        let mut ids: Vec<String> = Vec::new();
        std::mem::swap(&mut self.ids, &mut ids);
        let mut i: usize = 0;
        while i < delta.removed.len()
            invariant
                i <= delta.removed.len(),
                views(ids@).no_duplicates(),
                views(ids@).to_set() == start.difference(
                    views(delta.removed@).take(i as int).to_set(),
                ),
            decreases delta.removed.len() - i,
        {
            let ghost done = views(delta.removed@).take(i as int);
            let ghost next = views(delta.removed@).take(i + 1);
            drop_id(&mut ids, &delta.removed[i]);
            proof {
                assert(next =~= done.push(delta.removed@[i as int]@));
                done.lemma_push_to_set_commute(delta.removed@[i as int]@);
                assert(views(ids@).to_set() =~= start.difference(next.to_set()));
            }
            i += 1;
        }
        assert(views(delta.removed@).take(delta.removed.len() as int) =~= views(delta.removed@));
        let ghost middle = views(ids@).to_set();
        let mut j: usize = 0;
        while j < delta.upserted.len()
            invariant
                j <= delta.upserted.len(),
                views(ids@).no_duplicates(),
                views(ids@).to_set() == middle.union(
                    views(delta.upserted@).take(j as int).to_set(),
                ),
            decreases delta.upserted.len() - j,
        {
            let ghost done = views(delta.upserted@).take(j as int);
            let ghost next = views(delta.upserted@).take(j + 1);
            hold(&mut ids, &delta.upserted[j]);
            proof {
                assert(next =~= done.push(delta.upserted@[j as int]@));
                done.lemma_push_to_set_commute(delta.upserted@[j as int]@);
                assert(views(ids@).to_set() =~= middle.union(next.to_set()));
            }
            j += 1;
        }
        assert(views(delta.upserted@).take(delta.upserted.len() as int) =~= views(
            delta.upserted@,
        ));
        self.ids = ids;
        if let Some(knowledge) = delta.server_knowledge {
            self.cursor = Some(knowledge);
        }
    }
}

impl AccountsResponse {
    /// What the listing asks of a replica of the accounts.
    pub fn delta(&self) -> (delta: Delta)
        ensures
            is_delta_of(delta, self.data.accounts@, Some(self.data.server_knowledge)),
    {
        delta_of(&self.data.accounts, Some(self.data.server_knowledge))
    }
}

impl PayeesResponse {
    /// What the listing asks of a replica of the payees.
    pub fn delta(&self) -> (delta: Delta)
        ensures
            is_delta_of(delta, self.data.payees@, Some(self.data.server_knowledge)),
    {
        delta_of(&self.data.payees, Some(self.data.server_knowledge))
    }
}

impl PayeeLocationsResponse {
    /// Whether `result` is what the listing, come as `reply` to `operation`,
    /// asks of a replica of the payee locations: the protocol violation where
    /// the operation takes the cursor and the listing carries no server
    /// knowledge, and the delta of its records otherwise.
    pub open spec fn asks(&self, operation: Operation, reply: Reply, result: Result<
        Delta,
        Failure,
    >) -> bool {
        if operation.takes_cursor() && self.data.server_knowledge is None {
            &&& result matches Err(Failure::Protocol(violation))
            &&& violation.operation == operation
            &&& violation.status == reply.status
            &&& violation.expected == Expect::Payload
            &&& violation.detail@ == knowledge_missing()
        } else {
            result matches Ok(delta) && is_delta_of(
                delta,
                self.data.payee_locations@,
                self.data.server_knowledge,
            )
        }
    }

    /// What the listing, come as `reply` to `operation`, asks of a replica of
    /// the payee locations. The listing of a budget takes the cursor and has
    /// to carry server knowledge; the listing of one payee carries none, and
    /// leaves the cursor where it is.
    pub fn delta(&self, operation: Operation, reply: &Reply) -> (result: Result<Delta, Failure>)
        ensures
            self.asks(operation, *reply, result),
            result is Ok <==> !operation.takes_cursor() || self.data.server_knowledge is Some,
            operation.takes_cursor() ==> (result matches Ok(delta) ==> delta.server_knowledge
                is Some),
    {
        match require_knowledge(operation, reply, self.data.server_knowledge) {
            Ok(knowledge) => Ok(delta_of(&self.data.payee_locations, knowledge)),
            Err(failure) => Err(failure),
        }
    }
}

impl TransactionsResponse {
    /// What the listing asks of a replica of the transactions.
    pub fn delta(&self) -> (delta: Delta)
        ensures
            is_delta_of(delta, self.data.transactions@, Some(self.data.server_knowledge)),
    {
        delta_of(&self.data.transactions, Some(self.data.server_knowledge))
    }
}

impl HybridTransactionsResponse {
    /// What the listing asks of a replica of the hybrid entries.
    pub fn delta(&self) -> (delta: Delta)
        ensures
            is_delta_of(delta, self.data.transactions@, Some(self.data.server_knowledge)),
    {
        delta_of(&self.data.transactions, Some(self.data.server_knowledge))
    }
}

impl ScheduledTransactionsResponse {
    /// What the listing asks of a replica of the scheduled transactions.
    pub fn delta(&self) -> (delta: Delta)
        ensures
            is_delta_of(delta, self.data.scheduled_transactions@, Some(self.data.server_knowledge)),
    {
        delta_of(&self.data.scheduled_transactions, Some(self.data.server_knowledge))
    }
}

impl MonthSummariesResponse {
    /// What the listing asks of a replica of the months.
    pub fn delta(&self) -> (delta: Delta)
        ensures
            is_delta_of(delta, self.data.months@, Some(self.data.server_knowledge)),
    {
        delta_of(&self.data.months, Some(self.data.server_knowledge))
    }
}

/// The keys of the categories of `groups` whose deleted flag is `gone`, group
/// by group, in the order of the listing.
pub open spec fn category_keys(groups: Seq<CategoryGroupWithCategories>, gone: bool) -> Seq<
    Seq<char>,
>
    decreases groups.len(),
{
    if groups.len() == 0 {
        Seq::empty()
    } else {
        category_keys(groups.drop_last(), gone) + keys_where(groups.last().categories@, gone)
    }
}

/// The keys of the categories of `groups` whose deleted flag is `gone`.
fn collect_category_keys(groups: &Vec<CategoryGroupWithCategories>, gone: bool) -> (ids: Vec<
    String,
>)
    ensures
        views(ids@) == category_keys(groups@, gone),
{
    let mut ids: Vec<String> = Vec::new();
    let mut i: usize = 0;
    while i < groups.len()
        invariant
            i <= groups.len(),
            views(ids@) == category_keys(groups@.take(i as int), gone),
        decreases groups.len() - i,
    {
        proof {
            assert(groups@.take(i + 1).drop_last() =~= groups@.take(i as int));
            assert(groups@.take(i + 1).last() == groups@[i as int]);
        }
        collect_keys(&mut ids, &groups[i].categories, gone);
        i += 1;
    }
    assert(groups@.take(groups.len() as int) =~= groups@);
    ids
}

impl CategoriesResponse {
    /// What the listing asks of a replica of the category groups.
    pub fn group_delta(&self) -> (delta: Delta)
        ensures
            is_delta_of(delta, self.data.category_groups@, Some(self.data.server_knowledge)),
    {
        delta_of(&self.data.category_groups, Some(self.data.server_knowledge))
    }

    /// What the listing asks of a replica of the categories: every category
    /// of every group counts by its own deleted flag.
    pub fn category_delta(&self) -> (delta: Delta)
        ensures
            views(delta.upserted@) == category_keys(self.data.category_groups@, false),
            views(delta.removed@) == category_keys(self.data.category_groups@, true),
            delta.server_knowledge == Some(self.data.server_knowledge),
    {
        let upserted = collect_category_keys(&self.data.category_groups, false);
        let removed = collect_category_keys(&self.data.category_groups, true);
        Delta { upserted, removed, server_knowledge: Some(self.data.server_knowledge) }
    }
}

/// A listing loses no record: each record's key is among the keys to drop if
/// the record is deleted and among the keys to hold if it is not, and the two
/// lists together are as long as the listing.
pub proof fn lemma_every_record_counts<R: Record>(records: Seq<R>)
    ensures
        keys_where(records, true).len() + keys_where(records, false).len() == records.len(),
        forall|i: int|
            0 <= i < records.len() ==> keys_where(records, (#[trigger] records[i]).gone()).contains(
                records[i].key(),
            ),
        forall|key: Seq<char>, gone: bool| #[trigger]
            keys_where(records, gone).contains(key) ==> exists|i: int|
                0 <= i < records.len() && (#[trigger] records[i]).key() == key && records[i].gone()
                    == gone,
    decreases records.len(),
{
    if records.len() > 0 {
        let front = records.drop_last();
        let last = records.last();
        lemma_every_record_counts(front);
        assert forall|i: int| 0 <= i < records.len() implies keys_where(
            records,
            (#[trigger] records[i]).gone(),
        ).contains(records[i].key()) by {
            let gone = records[i].gone();
            let kept = keys_where(front, gone);
            if i < front.len() {
                assert(front[i] == records[i]);
                let at = choose|at: int| 0 <= at < kept.len() && kept[at] == records[i].key();
                assert(keys_where(records, gone)[at] == records[i].key());
            } else {
                assert(keys_where(records, gone) == kept.push(last.key()));
                assert(keys_where(records, gone)[kept.len() as int] == last.key());
            }
        }
        assert forall|key: Seq<char>, gone: bool| #[trigger]
            keys_where(records, gone).contains(key) implies exists|i: int|
            0 <= i < records.len() && (#[trigger] records[i]).key() == key && records[i].gone()
                == gone by {
            let all = keys_where(records, gone);
            let kept = keys_where(front, gone);
            let at = choose|at: int| 0 <= at < all.len() && all[at] == key;
            if at < kept.len() {
                assert(kept[at] == key);
                assert(kept.contains(key));
                let i = choose|i: int|
                    0 <= i < front.len() && (#[trigger] front[i]).key() == key && front[i].gone()
                        == gone;
                assert(records[i] == front[i]);
            } else {
                assert(records[records.len() - 1] == last);
            }
        }
    }
}

/// After a merge a key that the listing reports as deleted, and not also as
/// present, is not live; a key that it reports as present is live; and any
/// other key is live exactly if it was before.
pub proof fn lemma_merge_follows_flags(
    live: Set<Seq<char>>,
    upserted: Seq<Seq<char>>,
    removed: Seq<Seq<char>>,
    key: Seq<char>,
)
    ensures
        upserted.contains(key) ==> merged(live, upserted, removed).contains(key),
        removed.contains(key) && !upserted.contains(key) ==> !merged(
            live,
            upserted,
            removed,
        ).contains(key),
        !removed.contains(key) && !upserted.contains(key) ==> (merged(
            live,
            upserted,
            removed,
        ).contains(key) <==> live.contains(key)),
{
}

/// The records of a listing can be merged in any order: where no key is
/// reported both ways, holding first and dropping afterwards gives what
/// dropping first and holding afterwards gives, and the outcome depends on
/// which keys are reported, not on where in the listing they stand.
pub proof fn lemma_merge_order_irrelevant(
    live: Set<Seq<char>>,
    upserted: Seq<Seq<char>>,
    removed: Seq<Seq<char>>,
    upserted_again: Seq<Seq<char>>,
    removed_again: Seq<Seq<char>>,
)
    requires
        upserted.to_set() == upserted_again.to_set(),
        removed.to_set() == removed_again.to_set(),
    ensures
        merged(live, upserted, removed) == merged(live, upserted_again, removed_again),
        upserted.to_set().disjoint(removed.to_set()) ==> merged(live, upserted, removed)
            == live.union(upserted.to_set()).difference(removed.to_set()),
{
    if upserted.to_set().disjoint(removed.to_set()) {
        assert(merged(live, upserted, removed) =~= live.union(upserted.to_set()).difference(
            removed.to_set(),
        ));
    }
}

/// The cursor round trip: whatever cursor a listing was asked with, once its
/// answer is merged the next request for the same path carries exactly the
/// server knowledge of that answer, as the only parameter where no filter is
/// set.
pub proof fn lemma_next_request_carries_knowledge(
    path: Seq<char>,
    cursor: Option<i64>,
    server_knowledge: i64,
)
    ensures
        advanced(cursor, Some(server_knowledge)) == Some(server_knowledge),
        with_query(path, filters(None, None, advanced(cursor, Some(server_knowledge)))) == path
            + "?"@ + cursor_parameter(server_knowledge),
{
    let parameters = filters(None, None, Some(server_knowledge));
    assert(parameters =~= seq![cursor_parameter(server_knowledge)]);
}

/// A listing that takes the cursor always moves it: where its server
/// knowledge passes the check, there is one, and it is the cursor to send
/// next, whatever the cursor was.
pub proof fn lemma_cursor_listing_moves_cursor(
    operation: Operation,
    reply: Reply,
    knowledge: Option<i64>,
    checked: Result<Option<i64>, Failure>,
    cursor: Option<i64>,
)
    requires
        operation.takes_cursor(),
        knowledge_required(operation, reply, knowledge, checked),
    ensures
        checked is Ok <==> knowledge is Some,
        checked matches Ok(found) ==> found is Some && advanced(cursor, found) == found,
{
}

} // verus!
