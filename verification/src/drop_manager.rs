//! The presenter's file-drop state and what each request does to it.

use vstd::prelude::*;

use crate::file_drop::{
    after, binding_valid, decided_grant, disabled_grant, label_spec, paste_text, AcceptFileDrop,
    AdvanceFileTransfer, BindingEntry, BindingKey, CancelFileDrop, ConsentState, DropRejection,
    FileDropAccepted, FileDropBinding, FileDropBindingState, FileDropDestination, FileDropGrant,
    FileDropOffer, FileDropRefusal, FileDropState, FileDropStatus, FileDropTuple, FileResult,
    FileResultCode, FileSource, FileTransferAdvanced, FileTransferOpen, LocalDropDisposition,
    OfferEntry, OwnedId, Scope, TransferEntry, FILE_DROP_RESULT_RETENTION_US,
};
use crate::file_drop::{add_delay, label, local_paste_text, validate_binding};
use crate::identity::{SessionIdentity, SurfaceIdentity};
use crate::table::{
    changed, count_where, entries_distinct, kept, keys_where, lemma_count_where, lemma_pointwise,
    EntryTest, Table, TableKey,
};

verus! {

/// Bindings, offers and transfers of every session.
pub struct FileDropManager {
    pub bindings: Table<BindingKey, BindingEntry>,
    pub offers: Table<OwnedId, OfferEntry>,
    pub transfers: Table<OwnedId, TransferEntry>,
    pub binding_epochs: Table<BindingKey, (FileDropBinding, FileDropGrant)>,
    pub next_drop_id: u64,
    pub next_activation: u64,
    pub grant_generations: Table<SessionIdentity, u64>,
    pub cancellations: Vec<(SessionIdentity, CancelFileDrop)>,
    /// Sources whose reading must stop.
    pub released: Vec<u64>,
    /// Texts to paste for drops that reached a shell.
    pub pending_pastes: Vec<String>,
}

/// The drop a transfer belongs to.
pub open spec fn drop_of(key: OwnedId, transfer: TransferEntry) -> OwnedId {
    OwnedId { session: key.session, id: transfer.drop_id }
}

/// The transfer an offer was accepted as.
pub open spec fn transfer_of(key: OwnedId, transfer_id: u64) -> OwnedId {
    OwnedId { session: key.session, id: transfer_id }
}

/// Every transfer belongs to an offer that names it, on the same surface.
pub open spec fn transfers_linked(
    offers: Map<OwnedId, OfferEntry>,
    transfers: Map<OwnedId, TransferEntry>,
) -> bool {
    forall|key: OwnedId| #[trigger]
        transfers.contains_key(key) ==> {
            let owner = drop_of(key, transfers[key]);
            &&& offers.contains_key(owner)
            &&& offers[owner].transfer == Some(key.id)
            &&& offers[owner].binding.context_id == transfers[key].context_id
            &&& offers[owner].binding.surface_id == transfers[key].surface_id
        }
}

/// Every accepted offer has its transfer.
pub open spec fn offers_linked(
    offers: Map<OwnedId, OfferEntry>,
    transfers: Map<OwnedId, TransferEntry>,
) -> bool {
    forall|key: OwnedId| #[trigger]
        offers.contains_key(key) ==> (offers[key].transfer matches Some(id) ==> {
            &&& transfers.contains_key(transfer_of(key, id))
            &&& transfers[transfer_of(key, id)].drop_id == key.id
        })
}

/// Offers are filed under their own drop IDs, none of which is above the last one given out.
pub open spec fn offers_numbered(offers: Map<OwnedId, OfferEntry>, next_drop_id: u64) -> bool {
    forall|key: OwnedId| #[trigger]
        offers.contains_key(key) ==> key.id <= next_drop_id && offers[key].binding.drop_id == key.id
}

/// Bindings are filed under their own surfaces, and each was activated at a moment of its own.
pub open spec fn bindings_ordered(
    bindings: Map<BindingKey, BindingEntry>,
    next_activation: u64,
) -> bool {
    &&& forall|key: BindingKey| #[trigger]
        bindings.contains_key(key) ==> {
            &&& bindings[key].activation <= next_activation
            &&& bindings[key].binding.context_id == key.context_id
            &&& bindings[key].binding.surface_id == key.surface_id
        }
    &&& forall|left: BindingKey, right: BindingKey|
        #![trigger bindings.contains_key(left), bindings.contains_key(right)]
        bindings.contains_key(left) && bindings.contains_key(right) && left != right
            ==> bindings[left].activation != bindings[right].activation
}

/// A finished or cancelled offer that is no longer kept.
pub open spec fn retired(offer: OfferEntry, now_us: u64) -> bool {
    offer.terminal_deadline_us matches Some(deadline) && deadline <= now_us
}

/// An offer nobody accepted in time, or whose transfer nobody opened in time.
pub open spec fn timed_out(
    key: OwnedId,
    offer: OfferEntry,
    transfers: Map<OwnedId, TransferEntry>,
    now_us: u64,
) -> bool {
    &&& !offer.cancelled
    &&& offer.terminal is None
    &&& match offer.transfer {
        None => offer.deadline_us <= now_us,
        Some(id) => {
            let transfer = transfers[transfer_of(key, id)];
            transfers.contains_key(transfer_of(key, id)) && !transfer.active && transfer.deadline_us
                <= now_us
        },
    }
}

/// When a result that ends now is forgotten.
pub open spec fn retention(now_us: u64) -> Option<u64> {
    if now_us + FILE_DROP_RESULT_RETENTION_US <= u64::MAX {
        Some((now_us + FILE_DROP_RESULT_RETENTION_US) as u64)
    } else {
        None
    }
}

/// An offer that is cancelled now.
pub open spec fn cancelled_offer(offer: OfferEntry, now_us: u64) -> OfferEntry {
    OfferEntry {
        source: None,
        cancelled: true,
        terminal_deadline_us: retention(now_us),
        ..offer
    }
}

/// The offers that are still known at a moment.
pub open spec fn expired_offers(
    offers: Map<OwnedId, OfferEntry>,
    transfers: Map<OwnedId, TransferEntry>,
    now_us: u64,
) -> Map<OwnedId, OfferEntry> {
    Map::new(
        |key: OwnedId| offers.contains_key(key) && !retired(offers[key], now_us),
        |key: OwnedId|
            if timed_out(key, offers[key], transfers, now_us) {
                cancelled_offer(offers[key], now_us)
            } else {
                offers[key]
            },
    )
}

/// The transfers that are still known at a moment: those whose offers are.
pub open spec fn expired_transfers(
    offers: Map<OwnedId, OfferEntry>,
    transfers: Map<OwnedId, TransferEntry>,
    now_us: u64,
) -> Map<OwnedId, TransferEntry> {
    Map::new(
        |key: OwnedId|
            transfers.contains_key(key) && !retired(
                offers[drop_of(key, transfers[key])],
                now_us,
            ),
        |key: OwnedId| transfers[key],
    )
}

/// What a session is told of an offer that timed out.
pub open spec fn timeout_notice(key: OwnedId, offer: OfferEntry) -> (SessionIdentity, CancelFileDrop) {
    (key.session, CancelFileDrop { binding: offer.binding, reason: 1 })
}

/// Whether a known offer times out now.
pub open spec fn times_out_now(
    key: OwnedId,
    offers: Map<OwnedId, OfferEntry>,
    transfers: Map<OwnedId, TransferEntry>,
    now_us: u64,
) -> bool {
    &&& offers.contains_key(key)
    &&& !retired(offers[key], now_us)
    &&& timed_out(key, offers[key], transfers, now_us)
}

/// The offers that time out now.
pub open spec fn overdue(
    offers: Map<OwnedId, OfferEntry>,
    transfers: Map<OwnedId, TransferEntry>,
    now_us: u64,
) -> Set<OwnedId> {
    Set::new(|key: OwnedId| times_out_now(key, offers, transfers, now_us))
}

/// Whether a list holds the chosen offers, each once.
pub open spec fn lists(keys: Seq<OwnedId>, chosen: Set<OwnedId>) -> bool {
    &&& keys.no_duplicates()
    &&& forall|key: OwnedId|
        #![trigger keys.contains(key)]
        #![trigger chosen.contains(key)]
        keys.contains(key) <==> chosen.contains(key)
}

/// What is said of listed offers that time out.
pub open spec fn timeout_notices(
    keys: Seq<OwnedId>,
    offers: Map<OwnedId, OfferEntry>,
) -> Seq<(SessionIdentity, CancelFileDrop)> {
    keys.map_values(|key: OwnedId| timeout_notice(key, offers[key]))
}

/// The handles of the sources of listed offers.
pub open spec fn handles_of(keys: Seq<OwnedId>, offers: Map<OwnedId, OfferEntry>) -> Seq<u64> {
    keys.map_values(|key: OwnedId| offers[key].source->Some_0.handle)
}

/// Whether a list of notices is another one with those of the offers that time out now behind it,
/// one for each.
pub open spec fn notices_extended(
    before: Seq<(SessionIdentity, CancelFileDrop)>,
    later: Seq<(SessionIdentity, CancelFileDrop)>,
    offers: Map<OwnedId, OfferEntry>,
    transfers: Map<OwnedId, TransferEntry>,
    now_us: u64,
) -> bool {
    exists|keys: Seq<OwnedId>| #[trigger]
        lists(keys, overdue(offers, transfers, now_us)) && later == before + timeout_notices(
            keys,
            offers,
        )
}

/// Whether a list of released handles is another one with those of the chosen offers behind it, one
/// for each.
pub open spec fn released_extended(
    before: Seq<u64>,
    later: Seq<u64>,
    offers: Map<OwnedId, OfferEntry>,
    chosen: Set<OwnedId>,
) -> bool {
    exists|keys: Seq<OwnedId>| #[trigger]
        lists(keys, chosen) && later == before + handles_of(keys, offers)
}

/// The offers that are forgotten or time out now and still had a source.
pub open spec fn freed_by_expiry(
    offers: Map<OwnedId, OfferEntry>,
    transfers: Map<OwnedId, TransferEntry>,
    now_us: u64,
) -> Set<OwnedId> {
    Set::new(
        |key: OwnedId|
            offers.contains_key(key) && offers[key].source is Some && (retired(
                offers[key],
                now_us,
            ) || timed_out(key, offers[key], transfers, now_us)),
    )
}

/// The offers that are forgotten now and still had a source.
pub open spec fn freed_by_retirement(offers: Map<OwnedId, OfferEntry>, now_us: u64) -> Set<OwnedId> {
    Set::new(
        |key: OwnedId|
            offers.contains_key(key) && offers[key].source is Some && retired(offers[key], now_us),
    )
}

/// The offers that time out now and still had a source.
pub open spec fn freed_by_timeout(
    offers: Map<OwnedId, OfferEntry>,
    transfers: Map<OwnedId, TransferEntry>,
    now_us: u64,
) -> Set<OwnedId> {
    Set::new(
        |key: OwnedId|
            offers.contains_key(key) && offers[key].source is Some && timed_out(
                key,
                offers[key],
                transfers,
                now_us,
            ),
    )
}

/// Whether what expired was told and released: a notice for each offer that timed out, and the
/// handle of each source that nobody will read any more, behind what was there.
pub open spec fn expiry_noted(before: FileDropManager, after: FileDropManager, now_us: u64) -> bool {
    &&& notices_extended(
        before.cancellations@,
        after.cancellations@,
        before.offers@,
        before.transfers@,
        now_us,
    )
    &&& released_extended(
        before.released@,
        after.released@,
        before.offers@,
        freed_by_expiry(before.offers@, before.transfers@, now_us),
    )
}

/// The keys of the chosen entries, in order.
spec fn keys_among(entries: Seq<(OwnedId, OfferEntry)>, chosen: Set<OwnedId>) -> Seq<OwnedId>
    decreases entries.len(),
{
    if entries.len() == 0 {
        Seq::empty()
    } else {
        let front = keys_among(entries.drop_last(), chosen);
        if chosen.contains(entries.last().0) {
            front.push(entries.last().0)
        } else {
            front
        }
    }
}

/// The keys of the chosen entries of a table occur once each.
proof fn lemma_keys_among(entries: Seq<(OwnedId, OfferEntry)>, chosen: Set<OwnedId>)
    requires
        entries_distinct(entries),
    ensures
        keys_among(entries, chosen).no_duplicates(),
        forall|key: OwnedId| #[trigger]
            keys_among(entries, chosen).contains(key) ==> chosen.contains(key) && exists|i: int|
                0 <= i < entries.len() && (#[trigger] entries[i]).0 == key,
        forall|i: int|
            0 <= i < entries.len() && chosen.contains((#[trigger] entries[i]).0) ==> keys_among(
                entries,
                chosen,
            ).contains(entries[i].0),
    decreases entries.len(),
{
    if entries.len() > 0 {
        let shorter = entries.drop_last();
        let last = entries.last().0;
        let front = keys_among(shorter, chosen);
        let keys = keys_among(entries, chosen);
        assert forall|i: int, j: int| 0 <= i < j < shorter.len() implies (#[trigger] shorter[i]).0
            != (#[trigger] shorter[j]).0 by {
            assert(entries[i].0 != entries[j].0);
        }
        lemma_keys_among(shorter, chosen);
        assert forall|key: OwnedId| #[trigger] front.contains(key) implies key != last by {
            let i = choose|i: int| 0 <= i < shorter.len() && (#[trigger] shorter[i]).0 == key;
            assert(entries[i].0 != entries[entries.len() - 1].0);
        }
        if chosen.contains(last) {
            assert(keys[front.len() as int] == last);
        }
        assert forall|key: OwnedId| #[trigger] keys.contains(key) implies chosen.contains(key)
            && exists|i: int| 0 <= i < entries.len() && (#[trigger] entries[i]).0 == key by {
            let j = choose|j: int| 0 <= j < keys.len() && keys[j] == key;
            if j < front.len() {
                assert(front[j] == key);
                assert(front.contains(key));
                let i = choose|i: int| 0 <= i < shorter.len() && (#[trigger] shorter[i]).0 == key;
                assert(entries[i].0 == key);
            } else {
                assert(entries[entries.len() - 1].0 == key);
            }
        }
        assert forall|i: int|
            0 <= i < entries.len() && chosen.contains((#[trigger] entries[i]).0) implies keys.contains(
            entries[i].0,
        ) by {
            if i < shorter.len() {
                assert(shorter[i] == entries[i]);
                assert(front.contains(entries[i].0));
                let j = choose|j: int| 0 <= j < front.len() && front[j] == entries[i].0;
                assert(keys[j] == entries[i].0);
            }
        }
        assert forall|i: int, j: int| 0 <= i < keys.len() && 0 <= j < keys.len() && i
            != j implies keys[i] != keys[j] by {
            if i < front.len() {
                assert(front.contains(front[i]));
            }
            if j < front.len() {
                assert(front.contains(front[j]));
            }
        }
    }
}

/// The keys of the chosen entries of a table are the chosen offers, where all of those are known.
proof fn lemma_lists(offers: Table<OwnedId, OfferEntry>, chosen: Set<OwnedId>)
    requires
        offers.wf(),
        forall|key: OwnedId| #[trigger] chosen.contains(key) ==> offers@.contains_key(key),
    ensures
        lists(keys_among(offers.entries@, chosen), chosen),
{
    lemma_keys_among(offers.entries@, chosen);
    let keys = keys_among(offers.entries@, chosen);
    assert forall|key: OwnedId| chosen.contains(key) implies #[trigger] keys.contains(key) by {
        assert(offers@.contains_key(key));
        let i = choose|i: int|
            0 <= i < offers.entries@.len() && (#[trigger] offers.entries@[i]).0 == key;
        assert(keys.contains(offers.entries@[i].0));
    }
}

/// Two lists of different offers, one behind the other, hold what each of them holds.
proof fn lemma_lists_joined(
    left: Seq<OwnedId>,
    first: Set<OwnedId>,
    right: Seq<OwnedId>,
    second: Set<OwnedId>,
    all: Set<OwnedId>,
)
    requires
        lists(left, first),
        lists(right, second),
        forall|key: OwnedId| #[trigger]
            all.contains(key) <==> first.contains(key) || second.contains(key),
        forall|key: OwnedId| #[trigger] first.contains(key) ==> !second.contains(key),
    ensures
        lists(left + right, all),
{
    let both = left + right;
    assert forall|key: OwnedId| #[trigger] both.contains(key) <==> all.contains(key) by {
        if both.contains(key) {
            let i = choose|i: int| 0 <= i < both.len() && both[i] == key;
            if i < left.len() {
                assert(left[i] == key);
                assert(left.contains(key));
            } else {
                assert(right[i - left.len()] == key);
                assert(right.contains(key));
            }
        }
        if first.contains(key) {
            assert(left.contains(key));
            let i = choose|i: int| 0 <= i < left.len() && left[i] == key;
            assert(both[i] == key);
        }
        if second.contains(key) {
            assert(right.contains(key));
            let i = choose|i: int| 0 <= i < right.len() && right[i] == key;
            assert(both[left.len() + i] == key);
        }
    }
    assert forall|i: int, j: int| 0 <= i < both.len() && 0 <= j < both.len() && i
        != j implies both[i] != both[j] by {
        if i < left.len() {
            assert(left.contains(left[i]));
        } else {
            assert(right.contains(right[i - left.len()]));
        }
        if j < left.len() {
            assert(left.contains(left[j]));
        } else {
            assert(right.contains(right[j - left.len()]));
        }
    }
}

/// One more entry adds its handle where it is chosen.
proof fn lemma_handles_step(
    offers: Table<OwnedId, OfferEntry>,
    chosen: Set<OwnedId>,
    index: int,
)
    requires
        0 <= index < offers.entries@.len(),
    ensures
        ({
            let earlier = keys_among(offers.entries@.take(index), chosen);
            let keys = keys_among(offers.entries@.take(index + 1), chosen);
            let key = offers.entries@[index].0;
            if chosen.contains(key) {
                &&& keys == earlier.push(key)
                &&& handles_of(keys, offers@) == handles_of(earlier, offers@).push(
                    offers@[key].source->Some_0.handle,
                )
                &&& timeout_notices(keys, offers@) == timeout_notices(earlier, offers@).push(
                    timeout_notice(key, offers@[key]),
                )
            } else {
                keys == earlier
            }
        }),
{
    let entries = offers.entries@;
    let earlier = keys_among(entries.take(index), chosen);
    let keys = keys_among(entries.take(index + 1), chosen);
    assert(entries.take(index + 1).drop_last() =~= entries.take(index));
    if chosen.contains(entries[index].0) {
        assert(handles_of(keys, offers@) =~= handles_of(earlier, offers@).push(
            offers@[entries[index].0].source->Some_0.handle,
        ));
        assert(timeout_notices(keys, offers@) =~= timeout_notices(earlier, offers@).push(
            timeout_notice(entries[index].0, offers@[entries[index].0]),
        ));
    }
}

/// No entry, no handle.
proof fn lemma_handles_none(offers: Table<OwnedId, OfferEntry>, chosen: Set<OwnedId>)
    ensures
        keys_among(offers.entries@.take(0), chosen) == Seq::<OwnedId>::empty(),
        handles_of(keys_among(offers.entries@.take(0), chosen), offers@) == Seq::<u64>::empty(),
        timeout_notices(keys_among(offers.entries@.take(0), chosen), offers@) == Seq::<
            (SessionIdentity, CancelFileDrop),
        >::empty(),
{
    let keys = keys_among(offers.entries@.take(0), chosen);
    assert(keys =~= Seq::<OwnedId>::empty());
    assert(handles_of(keys, offers@) =~= Seq::<u64>::empty());
    assert(timeout_notices(keys, offers@) =~= Seq::<(SessionIdentity, CancelFileDrop)>::empty());
}

/// Whether some listed offer was accepted as this transfer.
pub open spec fn accepted_among(
    key: OwnedId,
    owners: Seq<OwnedId>,
    offers: Map<OwnedId, OfferEntry>,
) -> bool {
    exists|owner: OwnedId| #[trigger]
        owners.contains(owner) && owner.session == key.session && offers[owner].transfer == Some(
            key.id,
        )
}

impl FileDropManager {
    /// The state every request finds and leaves.
    pub open spec fn wf(&self) -> bool {
        &&& self.tables_wf()
        &&& transfers_linked(self.offers@, self.transfers@)
        &&& offers_linked(self.offers@, self.transfers@)
        &&& offers_numbered(self.offers@, self.next_drop_id)
        &&& bindings_ordered(self.bindings@, self.next_activation)
        &&& grants_counted(self.binding_epochs@, self.grant_generations@)
    }

    /// No key occurs twice in any table.
    pub open spec fn tables_wf(&self) -> bool {
        &&& self.bindings.wf()
        &&& self.offers.wf()
        &&& self.transfers.wf()
        &&& self.binding_epochs.wf()
        &&& self.grant_generations.wf()
    }

    /// Nothing bound, offered, or transferred.
    pub fn new() -> (r: Self)
        ensures
            r.wf(),
            r.bindings@ == Map::<BindingKey, BindingEntry>::empty(),
            r.offers@ == Map::<OwnedId, OfferEntry>::empty(),
            r.transfers@ == Map::<OwnedId, TransferEntry>::empty(),
            r.binding_epochs@ == Map::<BindingKey, (FileDropBinding, FileDropGrant)>::empty(),
            r.grant_generations@ == Map::<SessionIdentity, u64>::empty(),
            r.next_drop_id == 0,
            r.next_activation == 0,
            r.cancellations@.len() == 0,
            r.released@.len() == 0,
            r.pending_pastes@.len() == 0,
    {
        FileDropManager {
            bindings: Table::new(),
            offers: Table::new(),
            transfers: Table::new(),
            binding_epochs: Table::new(),
            next_drop_id: 0,
            next_activation: 0,
            grant_generations: Table::new(),
            cancellations: Vec::new(),
            released: Vec::new(),
            pending_pastes: Vec::new(),
        }
    }

    /// Forget what ended long enough ago, and cancel what nobody took up in time.
    pub fn expire(&mut self, now_us: u64)
        requires
            old(self).wf(),
        ensures
            final(self).wf(),
            final(self).offers@ == expired_offers(old(self).offers@, old(self).transfers@, now_us),
            final(self).transfers@ == expired_transfers(
                old(self).offers@,
                old(self).transfers@,
                now_us,
            ),
            final(self).bindings == old(self).bindings,
            final(self).binding_epochs == old(self).binding_epochs,
            final(self).next_drop_id == old(self).next_drop_id,
            final(self).next_activation == old(self).next_activation,
            final(self).grant_generations == old(self).grant_generations,
            final(self).pending_pastes == old(self).pending_pastes,
            expiry_noted(*old(self), *final(self), now_us),
    {
        self.forget_retired(now_us);
        let ghost middle = *self;
        self.cancel_timed_out(now_us);
        proof {
            let offers = old(self).offers@;
            let transfers = old(self).transfers@;
            assert(self.offers@ =~= expired_offers(offers, transfers, now_us));
            let first = freed_by_retirement(offers, now_us);
            let second = freed_by_timeout(middle.offers@, middle.transfers@, now_us);
            let all = freed_by_expiry(offers, transfers, now_us);
            assert forall|key: OwnedId| #[trigger] middle.offers@.contains_key(key) implies timed_out(
                key,
                middle.offers@[key],
                middle.transfers@,
                now_us,
            ) == timed_out(key, offers[key], transfers, now_us) by {
                assert(offers.contains_key(key));
                if let Some(id) = offers[key].transfer {
                    assert(drop_of(transfer_of(key, id), transfers[transfer_of(key, id)]) == key);
                }
            }
            assert(overdue(middle.offers@, middle.transfers@, now_us) =~= overdue(
                offers,
                transfers,
                now_us,
            ));
            let told = choose|keys: Seq<OwnedId>| #[trigger]
                lists(keys, overdue(middle.offers@, middle.transfers@, now_us))
                    && self.cancellations@ == middle.cancellations@ + timeout_notices(
                    keys,
                    middle.offers@,
                );
            assert forall|i: int| 0 <= i < told.len() implies middle.offers@[#[trigger] told[i]]
                == offers[told[i]] by {
                assert(told.contains(told[i]));
            }
            assert(timeout_notices(told, middle.offers@) =~= timeout_notices(told, offers));
            let left = choose|keys: Seq<OwnedId>| #[trigger]
                lists(keys, first) && middle.released@ == old(self).released@ + handles_of(
                    keys,
                    offers,
                );
            let right = choose|keys: Seq<OwnedId>| #[trigger]
                lists(keys, second) && self.released@ == middle.released@ + handles_of(
                    keys,
                    middle.offers@,
                );
            let both = left + right;
            assert forall|i: int| 0 <= i < right.len() implies middle.offers@[#[trigger] right[i]]
                == offers[right[i]] by {
                assert(right.contains(right[i]));
            }
            assert(handles_of(both, offers) =~= handles_of(left, offers) + handles_of(
                right,
                middle.offers@,
            ));
            assert(self.released@ =~= old(self).released@ + handles_of(both, offers));
            lemma_lists_joined(left, first, right, second, all);
        }
    }

    /// Forget every retired offer together with its transfer.
    fn forget_retired(&mut self, now_us: u64)
        requires
            old(self).wf(),
        ensures
            final(self).wf(),
            final(self).offers@ == Map::new(
                |key: OwnedId| old(self).offers@.contains_key(key) && !retired(
                    old(self).offers@[key],
                    now_us,
                ),
                |key: OwnedId| old(self).offers@[key],
            ),
            final(self).transfers@ == expired_transfers(
                old(self).offers@,
                old(self).transfers@,
                now_us,
            ),
            final(self).bindings == old(self).bindings,
            final(self).binding_epochs == old(self).binding_epochs,
            final(self).next_drop_id == old(self).next_drop_id,
            final(self).next_activation == old(self).next_activation,
            final(self).grant_generations == old(self).grant_generations,
            final(self).pending_pastes == old(self).pending_pastes,
            final(self).cancellations@ == old(self).cancellations@,
            released_extended(
                old(self).released@,
                final(self).released@,
                old(self).offers@,
                freed_by_retirement(old(self).offers@, now_us),
            ),
    {
        let ghost freed = freed_by_retirement(self.offers@, now_us);
        proof {
            lemma_handles_none(self.offers, freed);
        }
        let mut doomed: Vec<OwnedId> = Vec::new();
        let mut doomed_transfers: Vec<OwnedId> = Vec::new();
        let mut index: usize = 0;
        while index < self.offers.entries.len()
            invariant
                self.wf(),
                *self == (FileDropManager { released: self.released, ..*old(self) }),
                index <= self.offers.entries@.len(),
                freed == freed_by_retirement(self.offers@, now_us),
                self.released@ == old(self).released@ + handles_of(
                    keys_among(self.offers.entries@.take(index as int), freed),
                    self.offers@,
                ),
                forall|key: OwnedId| #[trigger]
                    doomed@.contains(key) ==> self.offers@.contains_key(key) && retired(
                        self.offers@[key],
                        now_us,
                    ),
                forall|i: int|
                    0 <= i < index && retired(#[trigger] self.offers.entries@[i].1, now_us)
                        ==> doomed@.contains(self.offers.entries@[i].0),
                forall|key: OwnedId| #[trigger]
                    doomed_transfers@.contains(key) ==> accepted_among(
                        key,
                        doomed@,
                        self.offers@,
                    ),
                forall|owner: OwnedId| #[trigger]
                    doomed@.contains(owner) ==> (self.offers@[owner].transfer matches Some(id)
                        ==> doomed_transfers@.contains(transfer_of(owner, id))),
            decreases self.offers.entries@.len() - index,
        {
            let key = self.offers.entries[index].0;
            let ghost earlier = doomed@;
            let ghost earlier_transfers = doomed_transfers@;
            proof {
                self.offers.lemma_entry(index as int);
                lemma_handles_step(self.offers, freed, index as int);
            }
            let expired = match self.offers.entries[index].1.terminal_deadline_us {
                Some(deadline) => deadline <= now_us,
                None => false,
            };
            if expired {
                doomed.push(key);
                assert(doomed@[earlier.len() as int] == key);
                assert forall|k: OwnedId| #[trigger] doomed@.contains(k) implies earlier.contains(k)
                    || k == key by {
                    let i = choose|i: int| 0 <= i < doomed@.len() && doomed@[i] == k;
                    if i < earlier.len() {
                        assert(earlier[i] == k);
                    }
                }
                assert forall|k: OwnedId| earlier.contains(k) implies #[trigger] doomed@.contains(k) by {
                    let i = choose|i: int| 0 <= i < earlier.len() && earlier[i] == k;
                    assert(doomed@[i] == k);
                }
                let transfer = self.offers.entries[index].1.transfer;
                if let Some(id) = transfer {
                    let transfer_key = OwnedId { session: key.session, id };
                    doomed_transfers.push(transfer_key);
                    assert(doomed_transfers@[earlier_transfers.len() as int] == transfer_key);
                    assert forall|k: OwnedId| #[trigger]
                        doomed_transfers@.contains(k) implies earlier_transfers.contains(k) || k
                        == transfer_key by {
                        let i = choose|i: int|
                            0 <= i < doomed_transfers@.len() && doomed_transfers@[i] == k;
                        if i < earlier_transfers.len() {
                            assert(earlier_transfers[i] == k);
                        }
                    }
                    assert forall|k: OwnedId| earlier_transfers.contains(k) implies #[trigger]
                    doomed_transfers@.contains(k) by {
                        let i = choose|i: int|
                            0 <= i < earlier_transfers.len() && earlier_transfers[i] == k;
                        assert(doomed_transfers@[i] == k);
                    }
                    assert(doomed@.contains(key));
                    assert(accepted_among(transfer_key, doomed@, self.offers@));
                }
                assert forall|k: OwnedId| #[trigger]
                    doomed_transfers@.contains(k) implies accepted_among(
                    k,
                    doomed@,
                    self.offers@,
                ) by {
                    if earlier_transfers.contains(k) {
                        assert(accepted_among(k, earlier, self.offers@));
                        let owner = choose|owner: OwnedId| #[trigger]
                            earlier.contains(owner) && owner.session == k.session
                                && self.offers@[owner].transfer == Some(k.id);
                        assert(doomed@.contains(owner));
                    }
                }
                if let Some(source) = &self.offers.entries[index].1.source {
                    let handle = source.handle;
                    self.released.push(handle);
                }
            }
            index = index + 1;
        }
        let ghost middle = *self;
        self.offers.remove_all(&doomed);
        self.transfers.remove_all(&doomed_transfers);
        proof {
            let offers = middle.offers@;
            let transfers = middle.transfers@;
            assert(middle.offers.entries@.take(index as int) =~= middle.offers.entries@);
            lemma_lists(middle.offers, freed);
            assert forall|key: OwnedId| #[trigger]
                offers.contains_key(key) && retired(offers[key], now_us) implies doomed@.contains(
                key,
            ) by {
                let i = choose|i: int|
                    0 <= i < middle.offers.entries@.len() && (
                    #[trigger] middle.offers.entries@[i]).0 == key;
                middle.offers.lemma_entry(i);
            }
            assert(self.offers@ =~= Map::new(
                |key: OwnedId| offers.contains_key(key) && !retired(offers[key], now_us),
                |key: OwnedId| offers[key],
            ));
            assert forall|key: OwnedId| #[trigger] transfers.contains_key(key) implies (
            doomed_transfers@.contains(key) <==> retired(
                offers[drop_of(key, transfers[key])],
                now_us,
            )) by {
                let owner = drop_of(key, transfers[key]);
                if doomed_transfers@.contains(key) {
                    assert(accepted_among(key, doomed@, offers));
                    let other = choose|other: OwnedId| #[trigger]
                        doomed@.contains(other) && other.session == key.session
                            && offers[other].transfer == Some(key.id);
                    assert(offers.contains_key(other));
                    assert(transfer_of(other, key.id) == key);
                    assert(other == owner);
                }
                if retired(offers[owner], now_us) {
                    assert(doomed@.contains(owner));
                    assert(transfer_of(owner, key.id) == key);
                }
            }
            assert(self.transfers@ =~= expired_transfers(offers, transfers, now_us));
            assert forall|key: OwnedId| #[trigger] self.offers@.contains_key(key) implies (
            self.offers@[key].transfer matches Some(id) ==> {
                &&& self.transfers@.contains_key(transfer_of(key, id))
                &&& self.transfers@[transfer_of(key, id)].drop_id == key.id
            }) by {
                assert(offers.contains_key(key));
            }
        }
    }

    /// Cancel every offer that times out now.
    fn cancel_timed_out(&mut self, now_us: u64)
        requires
            old(self).wf(),
            forall|key: OwnedId| #[trigger]
                old(self).offers@.contains_key(key) ==> !retired(old(self).offers@[key], now_us),
        ensures
            final(self).wf(),
            final(self).offers@ == changed(
                old(self).offers@,
                |key: OwnedId, offer: OfferEntry|
                    if timed_out(key, offer, old(self).transfers@, now_us) {
                        cancelled_offer(offer, now_us)
                    } else {
                        offer
                    },
            ),
            final(self).transfers == old(self).transfers,
            final(self).bindings == old(self).bindings,
            final(self).binding_epochs == old(self).binding_epochs,
            final(self).next_drop_id == old(self).next_drop_id,
            final(self).next_activation == old(self).next_activation,
            final(self).grant_generations == old(self).grant_generations,
            final(self).pending_pastes == old(self).pending_pastes,
            notices_extended(
                old(self).cancellations@,
                final(self).cancellations@,
                old(self).offers@,
                old(self).transfers@,
                now_us,
            ),
            released_extended(
                old(self).released@,
                final(self).released@,
                old(self).offers@,
                freed_by_timeout(old(self).offers@, old(self).transfers@, now_us),
            ),
    {
        let ghost before = *self;
        let ghost late = overdue(self.offers@, self.transfers@, now_us);
        let ghost freed = freed_by_timeout(self.offers@, self.transfers@, now_us);
        proof {
            lemma_handles_none(self.offers, late);
            lemma_handles_none(self.offers, freed);
        }
        let ghost step = |key: OwnedId, offer: OfferEntry|
            if timed_out(key, offer, before.transfers@, now_us) {
                cancelled_offer(offer, now_us)
            } else {
                offer
            };
        let mut index: usize = 0;
        while index < self.offers.entries.len()
            invariant
                before.wf(),
                before == *old(self),
                late == overdue(before.offers@, before.transfers@, now_us),
                freed == freed_by_timeout(before.offers@, before.transfers@, now_us),
                step == (|key: OwnedId, offer: OfferEntry|
                    if timed_out(key, offer, before.transfers@, now_us) {
                        cancelled_offer(offer, now_us)
                    } else {
                        offer
                    }),
                forall|key: OwnedId| #[trigger]
                    before.offers@.contains_key(key) ==> !retired(before.offers@[key], now_us),
                *self == (FileDropManager {
                    offers: self.offers,
                    released: self.released,
                    cancellations: self.cancellations,
                    ..before
                }),
                index <= self.offers.entries@.len(),
                self.offers.entries@.len() == before.offers.entries@.len(),
                forall|i: int|
                    0 <= i < index ==> #[trigger] self.offers.entries@[i] == (
                        before.offers.entries@[i].0,
                        step(before.offers.entries@[i].0, before.offers.entries@[i].1),
                    ),
                forall|i: int|
                    index <= i < self.offers.entries@.len() ==> #[trigger] self.offers.entries@[i]
                        == before.offers.entries@[i],
                self.released@ == before.released@ + handles_of(
                    keys_among(before.offers.entries@.take(index as int), freed),
                    before.offers@,
                ),
                self.cancellations@ == before.cancellations@ + timeout_notices(
                    keys_among(before.offers.entries@.take(index as int), late),
                    before.offers@,
                ),
            decreases self.offers.entries@.len() - index,
        {
            let key = self.offers.entries[index].0;
            proof {
                before.offers.lemma_entry(index as int);
                lemma_handles_step(before.offers, late, index as int);
                lemma_handles_step(before.offers, freed, index as int);
                assert(self.offers.entries@[index as int] == before.offers.entries@[index as int]);
            }
            if self.times_out(index, now_us) {
                let binding = self.offers.entries[index].1.binding;
                if let Some(source) = &self.offers.entries[index].1.source {
                    let handle = source.handle;
                    self.released.push(handle);
                }
                let slot = &mut self.offers.entries[index].1;
                slot.source = None;
                slot.cancelled = true;
                slot.terminal_deadline_us = now_us.checked_add(FILE_DROP_RESULT_RETENTION_US);
                self.cancellations.push((key.session, CancelFileDrop { binding, reason: 1 }));
            }
            index = index + 1;
        }
        proof {
            lemma_pointwise(before.offers.entries@, self.offers.entries@, step);
            assert(before.offers.entries@.take(index as int) =~= before.offers.entries@);
            lemma_lists(before.offers, late);
            lemma_lists(before.offers, freed);
            assert forall|key: OwnedId| #[trigger] self.transfers@.contains_key(key) implies {
                let owner = drop_of(key, self.transfers@[key]);
                &&& self.offers@.contains_key(owner)
                &&& self.offers@[owner].transfer == Some(key.id)
                &&& self.offers@[owner].binding.context_id == self.transfers@[key].context_id
                &&& self.offers@[owner].binding.surface_id == self.transfers@[key].surface_id
            } by {
                assert(before.transfers@.contains_key(key));
            }
            assert forall|key: OwnedId| #[trigger] self.offers@.contains_key(key) implies (
            self.offers@[key].transfer matches Some(id) ==> {
                &&& self.transfers@.contains_key(transfer_of(key, id))
                &&& self.transfers@[transfer_of(key, id)].drop_id == key.id
            }) by {
                assert(before.offers@.contains_key(key));
            }
        }
    }

    /// Whether the offer at this index times out now.
    fn times_out(&self, index: usize, now_us: u64) -> (r: bool)
        requires
            self.transfers.wf(),
            index < self.offers.entries@.len(),
        ensures
            r == timed_out(
                self.offers.entries@[index as int].0,
                self.offers.entries@[index as int].1,
                self.transfers@,
                now_us,
            ),
    {
        let key = self.offers.entries[index].0;
        let offer = &self.offers.entries[index].1;
        if offer.cancelled || offer.terminal.is_some() {
            return false;
        }
        match offer.transfer {
            None => offer.deadline_us <= now_us,
            Some(id) => match self.transfers.get(&OwnedId { session: key.session, id }) {
                Some(transfer) => !transfer.active && transfer.deadline_us <= now_us,
                None => false,
            },
        }
    }
}


/// Whether a binding lies in a session's scope.
pub open spec fn binding_in(session: SessionIdentity, scope: Scope, key: BindingKey) -> bool {
    key.session == session && scope.covers(key.context_id, key.surface_id)
}

/// Whether an offer lies in a session's scope.
pub open spec fn offer_in(
    session: SessionIdentity,
    scope: Scope,
    key: OwnedId,
    offer: OfferEntry,
) -> bool {
    key.session == session && scope.covers(offer.binding.context_id, offer.binding.surface_id)
}

/// Whether a transfer lies in a session's scope.
pub open spec fn transfer_in(
    session: SessionIdentity,
    scope: Scope,
    key: OwnedId,
    transfer: TransferEntry,
) -> bool {
    key.session == session && scope.covers(transfer.context_id, transfer.surface_id)
}

/// The bindings outside a session's scope.
pub open spec fn bindings_outside<T>(
    bindings: Map<BindingKey, T>,
    session: SessionIdentity,
    scope: Scope,
) -> Map<BindingKey, T> {
    kept(bindings, |key: BindingKey, entry: T| binding_in(session, scope, key))
}

/// The offers outside a session's scope.
pub open spec fn offers_outside(
    offers: Map<OwnedId, OfferEntry>,
    session: SessionIdentity,
    scope: Scope,
) -> Map<OwnedId, OfferEntry> {
    kept(offers, |key: OwnedId, offer: OfferEntry| offer_in(session, scope, key, offer))
}

/// The transfers outside a session's scope.
pub open spec fn transfers_outside(
    transfers: Map<OwnedId, TransferEntry>,
    session: SessionIdentity,
    scope: Scope,
) -> Map<OwnedId, TransferEntry> {
    kept(
        transfers,
        |key: OwnedId, transfer: TransferEntry| transfer_in(session, scope, key, transfer),
    )
}

/// The notices outside a session's scope, in order.
pub open spec fn notices_outside(
    notices: Seq<(SessionIdentity, CancelFileDrop)>,
    session: SessionIdentity,
    scope: Scope,
) -> Seq<(SessionIdentity, CancelFileDrop)>
    decreases notices.len(),
{
    if notices.len() == 0 {
        notices
    } else {
        let front = notices_outside(notices.drop_last(), session, scope);
        let (owner, notice) = notices.last();
        if owner == session && scope.covers(notice.binding.context_id, notice.binding.surface_id) {
            front
        } else {
            front.push((owner, notice))
        }
    }
}

/// The offers in a session's scope that still had a source.
pub open spec fn freed_in_scope(
    offers: Map<OwnedId, OfferEntry>,
    session: SessionIdentity,
    scope: Scope,
) -> Set<OwnedId> {
    Set::new(
        |key: OwnedId|
            offers.contains_key(key) && offers[key].source is Some && offer_in(
                session,
                scope,
                key,
                offers[key],
            ),
    )
}

/// Whether a list of released handles is another one with those of the sources in a session's scope
/// behind it.
pub open spec fn scope_released(
    before: Seq<u64>,
    later: Seq<u64>,
    offers: Map<OwnedId, OfferEntry>,
    session: SessionIdentity,
    scope: Scope,
) -> bool {
    released_extended(before, later, offers, freed_in_scope(offers, session, scope))
}

/// What lies in a session's scope.
pub struct Owned<'a, 'b> {
    pub session: SessionIdentity,
    pub scope: &'a Scope<'b>,
}

impl<'a, 'b, T> EntryTest<BindingKey, T> for Owned<'a, 'b> {
    open spec fn holds(&self, key: BindingKey, value: T) -> bool {
        binding_in(self.session, *self.scope, key)
    }

    fn test(&self, key: &BindingKey, value: &T) -> (r: bool) {
        key.session.same(&self.session) && self.scope.includes(key.context_id, key.surface_id)
    }
}

impl<'a, 'b> EntryTest<OwnedId, OfferEntry> for Owned<'a, 'b> {
    open spec fn holds(&self, key: OwnedId, value: OfferEntry) -> bool {
        offer_in(self.session, *self.scope, key, value)
    }

    fn test(&self, key: &OwnedId, value: &OfferEntry) -> (r: bool) {
        key.session.same(&self.session) && self.scope.includes(
            value.binding.context_id,
            value.binding.surface_id,
        )
    }
}

impl<'a, 'b> EntryTest<OwnedId, TransferEntry> for Owned<'a, 'b> {
    open spec fn holds(&self, key: OwnedId, value: TransferEntry) -> bool {
        transfer_in(self.session, *self.scope, key, value)
    }

    fn test(&self, key: &OwnedId, value: &TransferEntry) -> (r: bool) {
        key.session.same(&self.session) && self.scope.includes(value.context_id, value.surface_id)
    }
}

/// Whether everything about drops on some surfaces of a session is gone, and nothing else.
pub open spec fn drops_removed(
    before: FileDropManager,
    after: FileDropManager,
    session: SessionIdentity,
    scope: Scope,
) -> bool {
    &&& after.bindings@ == bindings_outside(before.bindings@, session, scope)
    &&& after.binding_epochs@ == bindings_outside(before.binding_epochs@, session, scope)
    &&& after.offers@ == offers_outside(before.offers@, session, scope)
    &&& after.transfers@ == transfers_outside(before.transfers@, session, scope)
    &&& after.cancellations@ == notices_outside(before.cancellations@, session, scope)
    &&& scope_released(before.released@, after.released@, before.offers@, session, scope)
    &&& after.next_drop_id == before.next_drop_id
    &&& after.next_activation == before.next_activation
    &&& after.pending_pastes == before.pending_pastes
}

impl FileDropManager {
    /// Take away the bindings, offers and transfers of a session's scope.
    fn drop_scope(&mut self, session: SessionIdentity, scope: &Scope)
        requires
            old(self).wf(),
        ensures
            final(self).wf(),
            final(self).bindings@ == bindings_outside(old(self).bindings@, session, *scope),
            final(self).offers@ == offers_outside(old(self).offers@, session, *scope),
            final(self).transfers@ == transfers_outside(old(self).transfers@, session, *scope),
            scope_released(
                old(self).released@,
                final(self).released@,
                old(self).offers@,
                session,
                *scope,
            ),
            final(self).binding_epochs == old(self).binding_epochs,
            final(self).next_drop_id == old(self).next_drop_id,
            final(self).next_activation == old(self).next_activation,
            final(self).grant_generations == old(self).grant_generations,
            final(self).cancellations == old(self).cancellations,
            final(self).pending_pastes == old(self).pending_pastes,
    {
        let ghost freed = freed_in_scope(self.offers@, session, *scope);
        proof {
            lemma_handles_none(self.offers, freed);
        }
        let mut index: usize = 0;
        while index < self.offers.entries.len()
            invariant
                self.wf(),
                *self == (FileDropManager { released: self.released, ..*old(self) }),
                index <= self.offers.entries@.len(),
                freed == freed_in_scope(self.offers@, session, *scope),
                self.released@ == old(self).released@ + handles_of(
                    keys_among(self.offers.entries@.take(index as int), freed),
                    self.offers@,
                ),
            decreases self.offers.entries@.len() - index,
        {
            proof {
                self.offers.lemma_entry(index as int);
                lemma_handles_step(self.offers, freed, index as int);
            }
            let owner = self.offers.entries[index].0.session;
            let binding = self.offers.entries[index].1.binding;
            if owner.same(&session) && scope.includes(binding.context_id, binding.surface_id) {
                if let Some(source) = &self.offers.entries[index].1.source {
                    let handle = source.handle;
                    self.released.push(handle);
                }
            }
            index = index + 1;
        }
        let ghost middle = *self;
        let owned = Owned { session, scope };
        self.bindings.remove_where(&owned);
        self.offers.remove_where(&owned);
        self.transfers.remove_where(&owned);
        proof {
            assert(self.bindings@ =~= bindings_outside(middle.bindings@, session, *scope));
            assert(self.offers@ =~= offers_outside(middle.offers@, session, *scope));
            assert(self.transfers@ =~= transfers_outside(middle.transfers@, session, *scope));
        }
        proof {
            assert(middle.offers.entries@.take(index as int) =~= middle.offers.entries@);
            lemma_lists(middle.offers, freed);
            assert forall|key: OwnedId| #[trigger] self.transfers@.contains_key(key) implies {
                let owner = drop_of(key, self.transfers@[key]);
                &&& self.offers@.contains_key(owner)
                &&& self.offers@[owner].transfer == Some(key.id)
                &&& self.offers@[owner].binding.context_id == self.transfers@[key].context_id
                &&& self.offers@[owner].binding.surface_id == self.transfers@[key].surface_id
            } by {
                assert(middle.transfers@.contains_key(key));
                assert(middle.offers@.contains_key(drop_of(key, middle.transfers@[key])));
            }
            assert forall|key: OwnedId| #[trigger] self.offers@.contains_key(key) implies (
            self.offers@[key].transfer matches Some(id) ==> {
                &&& self.transfers@.contains_key(transfer_of(key, id))
                &&& self.transfers@[transfer_of(key, id)].drop_id == key.id
            }) by {
                assert(middle.offers@.contains_key(key));
                if let Some(id) = middle.offers@[key].transfer {
                    let transfer = transfer_of(key, id);
                    assert(middle.transfers@.contains_key(transfer));
                    assert(drop_of(transfer, middle.transfers@[transfer]) == key);
                }
            }
        }
    }

    /// Take away everything of a session's scope, its epochs and notices too.
    fn forget_scope(&mut self, session: SessionIdentity, scope: &Scope)
        requires
            old(self).wf(),
        ensures
            final(self).wf(),
            final(self).bindings@ == bindings_outside(old(self).bindings@, session, *scope),
            final(self).binding_epochs@ == bindings_outside(
                old(self).binding_epochs@,
                session,
                *scope,
            ),
            final(self).offers@ == offers_outside(old(self).offers@, session, *scope),
            final(self).transfers@ == transfers_outside(old(self).transfers@, session, *scope),
            final(self).cancellations@ == notices_outside(
                old(self).cancellations@,
                session,
                *scope,
            ),
            scope_released(
                old(self).released@,
                final(self).released@,
                old(self).offers@,
                session,
                *scope,
            ),
            final(self).next_drop_id == old(self).next_drop_id,
            final(self).next_activation == old(self).next_activation,
            final(self).grant_generations == old(self).grant_generations,
            final(self).pending_pastes == old(self).pending_pastes,
    {
        self.drop_scope(session, scope);
        let ghost epochs = self.binding_epochs@;
        self.binding_epochs.remove_where(&Owned { session, scope });
        assert(self.binding_epochs@ =~= bindings_outside(epochs, session, *scope));
        let mut remaining: Vec<(SessionIdentity, CancelFileDrop)> = Vec::new();
        let mut index: usize = 0;
        let ghost notices = self.cancellations@;
        assert(notices.take(0) =~= Seq::<(SessionIdentity, CancelFileDrop)>::empty());
        while index < self.cancellations.len()
            invariant
                index <= notices.len(),
                self.cancellations@ == notices,
                remaining@ == notices_outside(notices.take(index as int), session, *scope),
            decreases notices.len() - index,
        {
            let (owner, notice) = self.cancellations[index];
            assert(notices.take(index + 1).drop_last() =~= notices.take(index as int));
            if !(owner.same(&session) && scope.includes(
                notice.binding.context_id,
                notice.binding.surface_id,
            )) {
                remaining.push((owner, notice));
            }
            index = index + 1;
        }
        assert(notices.take(index as int) =~= notices);
        self.cancellations = remaining;
    }

    /// Forget a session that has gone.
    pub fn remove_session(&mut self, session: SessionIdentity)
        requires
            old(self).wf(),
        ensures
            final(self).wf(),
            drops_removed(*old(self), *final(self), session, Scope::Session),
            final(self).grant_generations@ == old(self).grant_generations@.remove(session),
    {
        self.forget_scope(session, &Scope::Session);
        self.grant_generations.remove(&session);
    }

    /// Forget some contexts of a session.
    pub fn remove_contexts(&mut self, session: SessionIdentity, contexts: &Vec<u64>)
        requires
            old(self).wf(),
        ensures
            final(self).wf(),
            drops_removed(*old(self), *final(self), session, Scope::Contexts(contexts)),
            final(self).grant_generations == old(self).grant_generations,
    {
        self.forget_scope(session, &Scope::Contexts(contexts));
    }

    /// Forget one surface of a session.
    pub fn remove_surface(&mut self, session: SessionIdentity, context_id: u64, surface_id: u64)
        requires
            old(self).wf(),
        ensures
            final(self).wf(),
            drops_removed(*old(self), *final(self), session, Scope::Surface(context_id, surface_id)),
            final(self).grant_generations == old(self).grant_generations,
    {
        self.forget_scope(session, &Scope::Surface(context_id, surface_id));
    }
}


/// The bindings after every consent was withdrawn.
pub open spec fn unconfirmed(bindings: Map<BindingKey, BindingEntry>) -> Map<
    BindingKey,
    BindingEntry,
> {
    changed(
        bindings,
        |key: BindingKey, entry: BindingEntry| BindingEntry {
            consent: ConsentState::Unconfirmed,
            ..entry
        },
    )
}

/// The binding key a producer's request names.
pub open spec fn requested_key(session: SessionIdentity, binding: FileDropBinding) -> BindingKey {
    BindingKey { session, context_id: binding.context_id, surface_id: binding.surface_id }
}

/// The grant generation a session was last given.
pub open spec fn last_generation(
    generations: Map<SessionIdentity, u64>,
    session: SessionIdentity,
) -> u64 {
    if generations.contains_key(session) {
        generations[session]
    } else {
        0
    }
}

/// No remembered grant is of a later generation than its session was last given.
pub open spec fn grants_counted(
    epochs: Map<BindingKey, (FileDropBinding, FileDropGrant)>,
    generations: Map<SessionIdentity, u64>,
) -> bool {
    forall|key: BindingKey| #[trigger]
        epochs.contains_key(key) ==> epochs[key].1.grant_generation <= last_generation(
            generations,
            key.session,
        )
}

/// What a request to bind is answered.
pub open spec fn binding_answer(
    manager: FileDropManager,
    session: SessionIdentity,
    binding: FileDropBinding,
    allow: bool,
) -> Result<FileDropGrant, FileDropRefusal> {
    let key = requested_key(session, binding);
    let (previous, reply) = manager.binding_epochs@[key];
    let generation = last_generation(manager.grant_generations@, session);
    if !binding_valid(binding) {
        Err(FileDropRefusal::InvalidBinding)
    } else if manager.binding_epochs@.contains_key(key) && binding.producer_epoch
        < previous.producer_epoch {
        Err(FileDropRefusal::StaleEpoch)
    } else if manager.binding_epochs@.contains_key(key) && binding.producer_epoch
        == previous.producer_epoch {
        if binding == previous {
            Ok(reply)
        } else {
            Err(FileDropRefusal::ReusedEpoch)
        }
    } else if binding.destination is None {
        Ok(disabled_grant(binding))
    } else if generation == u64::MAX {
        Err(FileDropRefusal::GrantGenerationExhausted)
    } else if allow && manager.next_activation == u64::MAX {
        Err(FileDropRefusal::ActivationExhausted)
    } else {
        Ok(decided_grant(binding, (generation + 1) as u64, allow))
    }
}

/// Whether a request to bind repeats the last one, or is refused for its own fields or epoch.
pub open spec fn binding_settled(
    manager: FileDropManager,
    session: SessionIdentity,
    binding: FileDropBinding,
) -> bool {
    let key = requested_key(session, binding);
    ||| !binding_valid(binding)
    ||| manager.binding_epochs@.contains_key(key) && binding.producer_epoch
        <= manager.binding_epochs@[key].0.producer_epoch
}

/// The binding a drop hits directly: one for its very surface and generation.
pub open spec fn hit_binding(
    bindings: Map<BindingKey, BindingEntry>,
    hit: Option<(SurfaceIdentity, u64)>,
) -> Option<BindingKey> {
    match hit {
        Some((surface, generation)) => {
            let key = BindingKey {
                session: surface.context.session,
                context_id: surface.context.context_id,
                surface_id: surface.surface_id,
            };
            if bindings.contains_key(key) && bindings[key].binding.surface_generation == generation
                && bindings[key].grant.state == FileDropBindingState::Enabled {
                Some(key)
            } else {
                None
            }
        },
        None => None,
    }
}

/// Whether a binding is the target-wide one that was activated last.
pub open spec fn latest_target_wide(
    bindings: Map<BindingKey, BindingEntry>,
    key: BindingKey,
) -> bool {
    &&& bindings.contains_key(key)
    &&& bindings[key].binding.surface_id == 0
    &&& forall|other: BindingKey| #[trigger]
        bindings.contains_key(other) && bindings[other].binding.surface_id == 0
            ==> bindings[other].activation <= bindings[key].activation
}

/// The binding a drop goes to: the one it hits, else the latest target-wide one.
pub open spec fn effective_key(
    bindings: Map<BindingKey, BindingEntry>,
    hit: Option<(SurfaceIdentity, u64)>,
) -> Option<BindingKey> {
    if hit_binding(bindings, hit) is Some {
        hit_binding(bindings, hit)
    } else if exists|key: BindingKey| latest_target_wide(bindings, key) {
        Some(choose|key: BindingKey| latest_target_wide(bindings, key))
    } else {
        None
    }
}

/// Only one target-wide binding was activated last.
proof fn lemma_latest_unique(
    bindings: Map<BindingKey, BindingEntry>,
    next_activation: u64,
    left: BindingKey,
    right: BindingKey,
)
    requires
        bindings_ordered(bindings, next_activation),
        latest_target_wide(bindings, left),
        latest_target_wide(bindings, right),
    ensures
        left == right,
{
    assert(bindings.contains_key(left) && bindings.contains_key(right));
}

/// What a hover over a target says.
pub open spec fn hover_text(
    bindings: Map<BindingKey, BindingEntry>,
    hit: Option<(SurfaceIdentity, u64)>,
) -> Option<Seq<char>> {
    match effective_key(bindings, hit) {
        Some(key) => match bindings[key].binding.destination {
            Some(destination) => Some(label_spec(Some(destination))),
            None => None,
        },
        None => None,
    }
}

/// What becomes of a request to bind.
pub open spec fn binding_set(
    before: FileDropManager,
    after: FileDropManager,
    session: SessionIdentity,
    binding: FileDropBinding,
    allow: bool,
    outcome: Result<FileDropGrant, FileDropRefusal>,
) -> bool {
    &&& outcome == binding_answer(before, session, binding, allow)
    &&& binding_settled(before, session, binding) || outcome == Err::<
        FileDropGrant,
        FileDropRefusal,
    >(FileDropRefusal::GrantGenerationExhausted) ==> after == before
    &&& !binding_settled(before, session, binding) && binding.destination is None ==> {
        let scope = Scope::Surface(binding.context_id, binding.surface_id);
        &&& after.bindings@ == unconfirmed(
            bindings_outside(before.bindings@, session, scope),
        )
        &&& after.offers@ == offers_outside(before.offers@, session, scope)
        &&& after.transfers@ == transfers_outside(
            before.transfers@,
            session,
            scope,
        )
        &&& scope_released(before.released@, after.released@, before.offers@, session, scope)
        &&& after.binding_epochs@ == before.binding_epochs@.insert(
            requested_key(session, binding),
            (binding, disabled_grant(binding)),
        )
        &&& after.grant_generations == before.grant_generations
        &&& after.next_activation == before.next_activation
    }
    &&& !binding_settled(before, session, binding) && binding.destination is Some
        && last_generation(before.grant_generations@, session) < u64::MAX ==> {
        let key = requested_key(session, binding);
        let generation = (last_generation(before.grant_generations@, session)
            + 1) as u64;
        let fresh = unconfirmed(before.bindings@);
        &&& after.offers == before.offers
        &&& after.transfers == before.transfers
        &&& after.released == before.released
        &&& after.grant_generations@ == before.grant_generations@.insert(
            session,
            generation,
        )
        &&& outcome matches Ok(reply) ==> after.binding_epochs@ == before.binding_epochs@.insert(key, (binding, reply))
        &&& outcome is Err ==> after.binding_epochs == before.binding_epochs
        &&& after.next_activation == before.next_activation + (if allow && outcome is Ok {
            1int
        } else {
            0int
        })
        &&& after.bindings@ == (if !allow {
            before.bindings@
        } else {
            match outcome {
                Ok(reply) => fresh.insert(
                    key,
                    BindingEntry {
                        binding,
                        grant: reply,
                        activation: after.next_activation,
                        consent: ConsentState::Unconfirmed,
                    },
                ),
                Err(_) => fresh,
            }
        })
    }
    &&& after.next_drop_id == before.next_drop_id
    &&& after.cancellations == before.cancellations
    &&& after.pending_pastes == before.pending_pastes
}

impl FileDropManager {
    /// Withdraw every consent.
    fn reset_consent(&mut self)
        requires
            old(self).wf(),
        ensures
            final(self).wf(),
            *final(self) == (FileDropManager { bindings: final(self).bindings, ..*old(self) }),
            final(self).bindings@ == unconfirmed(old(self).bindings@),
    {
        let ghost before = *self;
        let ghost step = |key: BindingKey, entry: BindingEntry| BindingEntry {
            consent: ConsentState::Unconfirmed,
            ..entry
        };
        let mut index: usize = 0;
        while index < self.bindings.entries.len()
            invariant
                before.wf(),
                step == (|key: BindingKey, entry: BindingEntry| BindingEntry {
                    consent: ConsentState::Unconfirmed,
                    ..entry
                }),
                *self == (FileDropManager { bindings: self.bindings, ..before }),
                index <= self.bindings.entries@.len(),
                self.bindings.entries@.len() == before.bindings.entries@.len(),
                forall|i: int|
                    0 <= i < index ==> #[trigger] self.bindings.entries@[i] == (
                        before.bindings.entries@[i].0,
                        step(before.bindings.entries@[i].0, before.bindings.entries@[i].1),
                    ),
                forall|i: int|
                    index <= i < self.bindings.entries@.len()
                        ==> #[trigger] self.bindings.entries@[i] == before.bindings.entries@[i],
            decreases self.bindings.entries@.len() - index,
        {
            let slot = &mut self.bindings.entries[index].1;
            slot.consent = ConsentState::Unconfirmed;
            index = index + 1;
        }
        proof {
            lemma_pointwise(before.bindings.entries@, self.bindings.entries@, step);
            assert forall|key: BindingKey| #[trigger] self.bindings@.contains_key(key) implies {
                &&& self.bindings@[key].activation <= self.next_activation
                &&& self.bindings@[key].binding.context_id == key.context_id
                &&& self.bindings@[key].binding.surface_id == key.surface_id
            } by {
                assert(before.bindings@.contains_key(key));
            }
            assert forall|left: BindingKey, right: BindingKey|
                #![trigger self.bindings@.contains_key(left), self.bindings@.contains_key(right)]
                self.bindings@.contains_key(left) && self.bindings@.contains_key(right) && left
                    != right implies self.bindings@[left].activation
                != self.bindings@[right].activation by {
                assert(before.bindings@.contains_key(left) && before.bindings@.contains_key(right));
            }
        }
    }

    /// Bind a surface, or a whole target, to a destination.
    ///
    /// An exact repeat of the last request gets the same answer and changes nothing. A new epoch
    /// withdraws every consent, whoever gave it, unless the request is denied.
    pub fn set_binding(&mut self, session: SessionIdentity, binding: FileDropBinding, allow: bool) -> (r:
        Result<FileDropGrant, FileDropRefusal>)
        requires
            old(self).wf(),
        ensures
            final(self).wf(),
            binding_set(*old(self), *final(self), session, binding, allow, r),
    {
        if !validate_binding(&binding) {
            return Err(FileDropRefusal::InvalidBinding);
        }
        let key = BindingKey {
            session,
            context_id: binding.context_id,
            surface_id: binding.surface_id,
        };
        if let Some(known) = self.binding_epochs.get(&key) {
            let previous = known.0;
            let reply = known.1;
            if binding.producer_epoch < previous.producer_epoch {
                return Err(FileDropRefusal::StaleEpoch);
            }
            if binding.producer_epoch == previous.producer_epoch {
                return if binding == previous {
                    Ok(reply)
                } else {
                    Err(FileDropRefusal::ReusedEpoch)
                };
            }
        }
        if binding.destination.is_none() {
            self.drop_scope(session, &Scope::Surface(binding.context_id, binding.surface_id));
            self.reset_consent();
            let reply = FileDropGrant {
                producer_epoch: binding.producer_epoch,
                grant_generation: 0,
                context_id: binding.context_id,
                surface_id: binding.surface_id,
                surface_generation: binding.surface_generation,
                state: FileDropBindingState::Disabled,
                destination: None,
                maximum_file_bytes: 0,
                maximum_pending_offers: 0,
                maximum_active_transfers: 0,
                maximum_record_body: 0,
                acceptance_timeout_us: 0,
                idle_timeout_us: 0,
                reason: 0,
            };
            self.binding_epochs.insert(key, (binding, reply));
            return Ok(reply);
        }
        let last: u64 = match self.grant_generations.get(&session) {
            Some(generation) => *generation,
            None => 0,
        };
        if last == u64::MAX {
            return Err(FileDropRefusal::GrantGenerationExhausted);
        }
        let generation: u64 = last + 1;
        self.grant_generations.insert(session, generation);
        let reply = FileDropGrant {
            producer_epoch: binding.producer_epoch,
            grant_generation: generation,
            context_id: binding.context_id,
            surface_id: binding.surface_id,
            surface_generation: binding.surface_generation,
            state: if allow {
                FileDropBindingState::Enabled
            } else {
                FileDropBindingState::Denied
            },
            destination: binding.destination,
            maximum_file_bytes: binding.maximum_file_bytes,
            maximum_pending_offers: binding.maximum_pending_offers,
            maximum_active_transfers: binding.maximum_active_transfers,
            maximum_record_body: binding.maximum_record_body,
            acceptance_timeout_us: binding.acceptance_timeout_us,
            idle_timeout_us: binding.idle_timeout_us,
            reason: if allow {
                0
            } else {
                1
            },
        };
        if allow {
            self.reset_consent();
            if self.next_activation == u64::MAX {
                return Err(FileDropRefusal::ActivationExhausted);
            }
            self.next_activation = self.next_activation + 1;
            let ghost fresh = self.bindings@;
            self.bindings.insert(
                key,
                BindingEntry {
                    binding,
                    grant: reply,
                    activation: self.next_activation,
                    consent: ConsentState::Unconfirmed,
                },
            );
            assert(bindings_ordered(self.bindings@, self.next_activation)) by {
                assert forall|left: BindingKey, right: BindingKey|
                    #![trigger self.bindings@.contains_key(left), self.bindings@.contains_key(right)]
                    self.bindings@.contains_key(left) && self.bindings@.contains_key(right) && left
                        != right implies self.bindings@[left].activation
                    != self.bindings@[right].activation by {
                    if left != key {
                        assert(fresh.contains_key(left));
                    }
                    if right != key {
                        assert(fresh.contains_key(right));
                    }
                }
                assert forall|k: BindingKey| #[trigger] self.bindings@.contains_key(k) implies {
                    &&& self.bindings@[k].activation <= self.next_activation
                    &&& self.bindings@[k].binding.context_id == k.context_id
                    &&& self.bindings@[k].binding.surface_id == k.surface_id
                } by {
                    if k != key {
                        assert(fresh.contains_key(k));
                    }
                }
            }
        }
        self.binding_epochs.insert(key, (binding, reply));
        Ok(reply)
    }

    /// The binding a drop goes to.
    pub fn effective_binding_key(&self, hit: Option<(SurfaceIdentity, u64)>) -> (r: Option<
        BindingKey,
    >)
        requires
            self.wf(),
        ensures
            r == effective_key(self.bindings@, hit),
            r matches Some(key) ==> self.bindings@.contains_key(key),
    {
        if let Some((surface, generation)) = hit {
            let key = BindingKey {
                session: surface.context.session,
                context_id: surface.context.context_id,
                surface_id: surface.surface_id,
            };
            if let Some(entry) = self.bindings.get(&key) {
                if entry.binding.surface_generation == generation && entry.grant.state
                    == FileDropBindingState::Enabled {
                    return Some(key);
                }
            }
        }
        let mut best: Option<usize> = None;
        let mut index: usize = 0;
        while index < self.bindings.entries.len()
            invariant
                self.wf(),
                index <= self.bindings.entries@.len(),
                best matches Some(at) ==> at < index
                    && self.bindings.entries@[at as int].1.binding.surface_id == 0,
                forall|i: int|
                    0 <= i < index && (#[trigger] self.bindings.entries@[i]).1.binding.surface_id
                        == 0 ==> (best matches Some(at) && self.bindings.entries@[i].1.activation
                        <= self.bindings.entries@[at as int].1.activation),
            decreases self.bindings.entries@.len() - index,
        {
            let entry = self.bindings.entries[index].1;
            if entry.binding.surface_id == 0 {
                match best {
                    None => {
                        best = Some(index);
                    },
                    Some(at) => {
                        if self.bindings.entries[at].1.activation <= entry.activation {
                            best = Some(index);
                        }
                    },
                }
            }
            index = index + 1;
        }
        match best {
            Some(at) => {
                let key = self.bindings.entries[at].0;
                proof {
                    self.bindings.lemma_entry(at as int);
                    assert forall|other: BindingKey| #[trigger]
                        self.bindings@.contains_key(other)
                            && self.bindings@[other].binding.surface_id == 0 implies self.bindings@[other].activation
                        <= self.bindings@[key].activation by {
                        let i = choose|i: int|
                            0 <= i < self.bindings.entries@.len() && (
                            #[trigger] self.bindings.entries@[i]).0 == other;
                        self.bindings.lemma_entry(i);
                    }
                    assert(latest_target_wide(self.bindings@, key));
                    let chosen = choose|other: BindingKey| latest_target_wide(self.bindings@, other);
                    lemma_latest_unique(self.bindings@, self.next_activation, key, chosen);
                }
                Some(key)
            },
            None => {
                proof {
                    if exists|other: BindingKey| latest_target_wide(self.bindings@, other) {
                        let other = choose|other: BindingKey|
                            latest_target_wide(self.bindings@, other);
                        let i = choose|i: int|
                            0 <= i < self.bindings.entries@.len() && (
                            #[trigger] self.bindings.entries@[i]).0 == other;
                        self.bindings.lemma_entry(i);
                        assert(false);
                    }
                }
                None
            },
        }
    }

    /// What a hover over a target says.
    pub fn hover_label(&self, hit: Option<(SurfaceIdentity, u64)>) -> (r: Option<&'static str>)
        requires
            self.wf(),
        ensures
            match r {
                Some(text) => hover_text(self.bindings@, hit) == Some(text@),
                None => hover_text(self.bindings@, hit) is None,
            },
    {
        let key = match self.effective_binding_key(hit) {
            Some(key) => key,
            None => {
                return None;
            },
        };
        match self.bindings.get(&key) {
            Some(entry) => match entry.binding.destination {
                Some(destination) => Some(label(Some(destination))),
                None => None,
            },
            None => None,
        }
    }
}


/// Whether an offer is still waiting for an answer from the producer of a binding.
pub open spec fn awaits_answer(key: BindingKey, id: OwnedId, offer: OfferEntry) -> bool {
    &&& id.session == key.session
    &&& offer.binding.context_id == key.context_id
    &&& offer.binding.surface_id == key.surface_id
    &&& offer.transfer is None
    &&& offer.terminal is None
    &&& !offer.cancelled
}

/// How many offers wait for an answer from the producer of a binding.
pub open spec fn pending_offers(offers: Map<OwnedId, OfferEntry>, key: BindingKey) -> nat {
    keys_where(offers, |id: OwnedId, offer: OfferEntry| awaits_answer(key, id, offer)).len()
}

/// What a local drop on a binding becomes, by the file, the consent, and what is pending.
pub open spec fn drop_verdict(
    manager: FileDropManager,
    offers: Map<OwnedId, OfferEntry>,
    key: BindingKey,
    source: Option<FileSource>,
) -> LocalDropVerdict {
    let entry = manager.bindings@[key];
    match source {
        None => LocalDropVerdict::Rejected(DropRejection::NotARegularFile),
        Some(file) => if file.length > entry.grant.maximum_file_bytes {
            LocalDropVerdict::Rejected(DropRejection::TooLarge)
        } else if entry.consent is Unconfirmed {
            LocalDropVerdict::ConsentRequired
        } else if pending_offers(offers, key) >= entry.grant.maximum_pending_offers {
            LocalDropVerdict::Rejected(DropRejection::TooManyPending)
        } else if manager.next_drop_id == u64::MAX {
            LocalDropVerdict::Rejected(DropRejection::IdsExhausted)
        } else {
            LocalDropVerdict::Offered
        },
    }
}

/// What becomes of a local drop on a binding.
pub enum LocalDropVerdict {
    ConsentRequired,
    Offered,
    Rejected(DropRejection),
}

/// The consent a drop leaves behind. The first drop of a file that fits only asks; the next one
/// confirms.
pub open spec fn consent_after(entry: BindingEntry, source: Option<FileSource>) -> ConsentState {
    match source {
        Some(file) if file.length <= entry.grant.maximum_file_bytes => match entry.consent {
            ConsentState::Unconfirmed => ConsentState::ConfirmOnNextDrop,
            _ => ConsentState::Confirmed,
        },
        _ => entry.consent,
    }
}

/// The identity of a drop on a binding.
pub open spec fn drop_tuple(entry: BindingEntry, drop_id: u64) -> FileDropTuple {
    FileDropTuple {
        producer_epoch: entry.binding.producer_epoch,
        grant_generation: entry.grant.grant_generation,
        context_id: entry.binding.context_id,
        surface_id: entry.binding.surface_id,
        surface_generation: entry.binding.surface_generation,
        drop_id,
    }
}

impl FileDropManager {
    /// How many offers wait for an answer from the producer of a binding.
    fn count_pending(&self, key: &BindingKey) -> (r: usize)
        requires
            self.wf(),
        ensures
            r == pending_offers(self.offers@, *key),
    {
        let ghost condition = |id: OwnedId, offer: OfferEntry| awaits_answer(*key, id, offer);
        let mut count: usize = 0;
        let mut index: usize = 0;
        while index < self.offers.entries.len()
            invariant
                index <= self.offers.entries@.len(),
                condition == (|id: OwnedId, offer: OfferEntry| awaits_answer(*key, id, offer)),
                count == count_where(self.offers.entries@.take(index as int), condition),
                count <= index,
            decreases self.offers.entries@.len() - index,
        {
            let id = self.offers.entries[index].0;
            let offer = &self.offers.entries[index].1;
            assert(self.offers.entries@.take(index + 1).drop_last()
                =~= self.offers.entries@.take(index as int));
            if id.session.same(&key.session) && offer.binding.context_id == key.context_id
                && offer.binding.surface_id == key.surface_id && offer.transfer.is_none()
                && offer.terminal.is_none() && !offer.cancelled {
                count = count + 1;
            }
            index = index + 1;
        }
        proof {
            assert(self.offers.entries@.take(index as int) =~= self.offers.entries@);
            lemma_count_where(self.offers.entries@, condition);
        }
        count
    }

    /// Offer a local file to the binding it was dropped on.
    ///
    /// `source` is the opened file, or nothing where it is no regular file. The first drop on a
    /// binding only asks for consent; the next one confirms and offers.
    pub fn offer_local_file(
        &mut self,
        source: Option<FileSource>,
        hit: Option<(SurfaceIdentity, u64)>,
        now_us: u64,
    ) -> (r: (LocalDropDisposition, Option<(SessionIdentity, FileDropOffer)>))
        requires
            old(self).wf(),
        ensures
            final(self).wf(),
            final(self).transfers@ == expired_transfers(
                old(self).offers@,
                old(self).transfers@,
                now_us,
            ),
            final(self).binding_epochs == old(self).binding_epochs,
            final(self).grant_generations == old(self).grant_generations,
            final(self).next_activation == old(self).next_activation,
            final(self).pending_pastes == old(self).pending_pastes,
            expiry_noted(*old(self), *final(self), now_us),
            ({
                let offers = expired_offers(old(self).offers@, old(self).transfers@, now_us);
                match effective_key(old(self).bindings@, hit) {
                    None => {
                        &&& r.0 is NoBinding
                        &&& r.1 is None
                        &&& final(self).offers@ == offers
                        &&& final(self).bindings == old(self).bindings
                        &&& final(self).next_drop_id == old(self).next_drop_id
                    },
                    Some(key) => {
                        let entry = old(self).bindings@[key];
                        let verdict = drop_verdict(*old(self), offers, key, source);
                        let drop_id = (old(self).next_drop_id + 1) as u64;
                        let tuple = drop_tuple(entry, drop_id);
                        &&& final(self).bindings@ == old(self).bindings@.insert(
                            key,
                            BindingEntry { consent: consent_after(entry, source), ..entry },
                        )
                        &&& match verdict {
                            LocalDropVerdict::ConsentRequired => r.0 matches
                                LocalDropDisposition::ConsentRequired(text) && text@
                                == label_spec(entry.binding.destination),
                            LocalDropVerdict::Rejected(reason) => r.0
                                == LocalDropDisposition::Rejected(reason),
                            LocalDropVerdict::Offered => r.0 is Offered,
                        }
                        &&& verdict is Offered ==> {
                            &&& r.1 matches Some((session, offer)) && session == key.session
                                && offer.binding == tuple && offer.suggested_name@
                                == source.unwrap().suggested_name@ && offer.declared_length
                                == source.unwrap().length
                            &&& final(self).next_drop_id == drop_id
                            &&& final(self).offers@ == offers.insert(
                                OwnedId { session: key.session, id: drop_id },
                                OfferEntry {
                                    binding: tuple,
                                    source,
                                    deadline_us: after(now_us, entry.grant.acceptance_timeout_us),
                                    transfer: None,
                                    terminal: None,
                                    cancelled: false,
                                    terminal_deadline_us: None,
                                },
                            )
                        }
                        &&& !(verdict is Offered) ==> {
                            &&& r.1 is None
                            &&& final(self).offers@ == offers
                            &&& final(self).next_drop_id == old(self).next_drop_id
                        }
                    },
                }
            }),
    {
        self.expire(now_us);
        let key = match self.effective_binding_key(hit) {
            Some(key) => key,
            None => {
                return (LocalDropDisposition::NoBinding, None);
            },
        };
        let ghost before = *self;
        let entry: BindingEntry = match self.bindings.get(&key) {
            Some(entry) => *entry,
            None => {
                return (LocalDropDisposition::NoBinding, None);
            },
        };
        assert(before.bindings@ =~= before.bindings@.insert(key, entry));
        let file = match source {
            Some(file) => file,
            None => {
                return (LocalDropDisposition::Rejected(DropRejection::NotARegularFile), None);
            },
        };
        if file.length > entry.grant.maximum_file_bytes {
            return (LocalDropDisposition::Rejected(DropRejection::TooLarge), None);
        }
        let consent = match entry.consent {
            ConsentState::Unconfirmed => ConsentState::ConfirmOnNextDrop,
            _ => ConsentState::Confirmed,
        };
        self.bindings.insert(key, BindingEntry { consent, ..entry });
        proof {
            assert forall|left: BindingKey, right: BindingKey|
                #![trigger self.bindings@.contains_key(left), self.bindings@.contains_key(right)]
                self.bindings@.contains_key(left) && self.bindings@.contains_key(right) && left
                    != right implies self.bindings@[left].activation
                != self.bindings@[right].activation by {
                assert(before.bindings@.contains_key(left) && before.bindings@.contains_key(right));
            }
            assert forall|k: BindingKey| #[trigger] self.bindings@.contains_key(k) implies {
                &&& self.bindings@[k].activation <= self.next_activation
                &&& self.bindings@[k].binding.context_id == k.context_id
                &&& self.bindings@[k].binding.surface_id == k.surface_id
            } by {
                assert(before.bindings@.contains_key(k));
            }
        }
        if entry.consent == ConsentState::Unconfirmed {
            return (
                LocalDropDisposition::ConsentRequired(label(entry.binding.destination)),
                None,
            );
        }
        let pending = self.count_pending(&key);
        if pending as u64 >= entry.grant.maximum_pending_offers {
            return (LocalDropDisposition::Rejected(DropRejection::TooManyPending), None);
        }
        if self.next_drop_id == u64::MAX {
            return (LocalDropDisposition::Rejected(DropRejection::IdsExhausted), None);
        }
        self.next_drop_id = self.next_drop_id + 1;
        let tuple = FileDropTuple {
            producer_epoch: entry.binding.producer_epoch,
            grant_generation: entry.grant.grant_generation,
            context_id: entry.binding.context_id,
            surface_id: entry.binding.surface_id,
            surface_generation: entry.binding.surface_generation,
            drop_id: self.next_drop_id,
        };
        let offer = FileDropOffer {
            binding: tuple,
            suggested_name: file.suggested_name.clone(),
            declared_length: file.length,
        };
        let id = OwnedId { session: key.session, id: self.next_drop_id };
        let ghost earlier = self.offers@;
        self.offers.insert(
            id,
            OfferEntry {
                binding: tuple,
                source: Some(file),
                deadline_us: add_delay(now_us, entry.grant.acceptance_timeout_us),
                transfer: None,
                terminal: None,
                cancelled: false,
                terminal_deadline_us: None,
            },
        );
        proof {
            assert(!earlier.contains_key(id));
            assert forall|k: OwnedId| #[trigger] self.transfers@.contains_key(k) implies {
                let owner = drop_of(k, self.transfers@[k]);
                &&& self.offers@.contains_key(owner)
                &&& self.offers@[owner].transfer == Some(k.id)
                &&& self.offers@[owner].binding.context_id == self.transfers@[k].context_id
                &&& self.offers@[owner].binding.surface_id == self.transfers@[k].surface_id
            } by {
                assert(earlier.contains_key(drop_of(k, self.transfers@[k])));
            }
            assert forall|k: OwnedId| #[trigger] self.offers@.contains_key(k) implies (
            self.offers@[k].transfer matches Some(t) ==> {
                &&& self.transfers@.contains_key(transfer_of(k, t))
                &&& self.transfers@[transfer_of(k, t)].drop_id == k.id
            }) by {
                if k != id {
                    assert(earlier.contains_key(k));
                }
            }
            assert forall|k: OwnedId| #[trigger] self.offers@.contains_key(k) implies k.id
                <= self.next_drop_id && self.offers@[k].binding.drop_id == k.id by {
                if k != id {
                    assert(earlier.contains_key(k));
                }
            }
        }
        (LocalDropDisposition::Offered, Some((key.session, offer)))
    }
}

/// Whether a transfer of a surface still runs: its offer is neither cancelled nor finished.
pub open spec fn transfer_running(
    session: SessionIdentity,
    context_id: u64,
    surface_id: u64,
    offers: Map<OwnedId, OfferEntry>,
    key: OwnedId,
    transfer: TransferEntry,
) -> bool {
    let owner = OwnedId { session, id: transfer.drop_id };
    &&& key.session == session
    &&& transfer.context_id == context_id
    &&& transfer.surface_id == surface_id
    &&& offers.contains_key(owner)
    &&& !offers[owner].cancelled
    &&& offers[owner].terminal is None
}

/// How many transfers of a surface still run.
pub open spec fn running_transfers(
    session: SessionIdentity,
    context_id: u64,
    surface_id: u64,
    offers: Map<OwnedId, OfferEntry>,
    transfers: Map<OwnedId, TransferEntry>,
) -> nat {
    keys_where(
        transfers,
        |key: OwnedId, transfer: TransferEntry|
            transfer_running(session, context_id, surface_id, offers, key, transfer),
    ).len()
}

/// What an acceptance is answered.
pub open spec fn acceptance_answer(
    bindings: Map<BindingKey, BindingEntry>,
    offers: Map<OwnedId, OfferEntry>,
    transfers: Map<OwnedId, TransferEntry>,
    session: SessionIdentity,
    acceptance: AcceptFileDrop,
) -> Result<FileDropAccepted, FileDropRefusal> {
    let owner = OwnedId { session, id: acceptance.binding.drop_id };
    let offer = offers[owner];
    let key = BindingKey {
        session,
        context_id: acceptance.binding.context_id,
        surface_id: acceptance.binding.surface_id,
    };
    let grant = bindings[key].grant;
    let accepted = FileDropAccepted {
        drop_id: acceptance.binding.drop_id,
        transfer_id: acceptance.transfer_id,
        transfer_generation: acceptance.transfer_generation,
        open_timeout_us: grant.idle_timeout_us,
    };
    if !offers.contains_key(owner) {
        Err(FileDropRefusal::OfferAbsent)
    } else if offer.binding != acceptance.binding {
        Err(FileDropRefusal::StaleAcceptance)
    } else if offer.cancelled || offer.terminal is Some {
        Err(FileDropRefusal::AlreadyTerminal)
    } else if offer.transfer matches Some(id) && id != acceptance.transfer_id {
        Err(FileDropRefusal::AlreadyAccepted)
    } else if !bindings.contains_key(key) {
        Err(FileDropRefusal::BindingGone)
    } else if offer.transfer is Some {
        Ok(accepted)
    } else if running_transfers(
        session,
        acceptance.binding.context_id,
        acceptance.binding.surface_id,
        offers,
        transfers,
    ) >= grant.maximum_active_transfers {
        Err(FileDropRefusal::TransferLimit)
    } else if acceptance.maximum_record_body > grant.maximum_record_body {
        Err(FileDropRefusal::RecordLimit)
    } else if transfers.contains_key(OwnedId { session, id: acceptance.transfer_id }) {
        Err(FileDropRefusal::TransferLive)
    } else {
        Ok(accepted)
    }
}

/// The transfer a fresh acceptance makes.
pub open spec fn accepted_transfer(
    acceptance: AcceptFileDrop,
    idle_timeout_us: u64,
    now_us: u64,
) -> TransferEntry {
    TransferEntry {
        drop_id: acceptance.binding.drop_id,
        context_id: acceptance.binding.context_id,
        surface_id: acceptance.binding.surface_id,
        generation: acceptance.transfer_generation,
        committed_offset: 0,
        maximum_record_body: acceptance.maximum_record_body,
        maximum_body_bytes: acceptance.initial_maximum_body_bytes,
        maximum_records: acceptance.initial_maximum_records,
        active: false,
        deadline_us: after(now_us, idle_timeout_us),
    }
}

/// What becomes of an acceptance.
pub open spec fn drop_accepted(
    before: FileDropManager,
    after: FileDropManager,
    session: SessionIdentity,
    acceptance: AcceptFileDrop,
    now_us: u64,
    outcome: Result<FileDropAccepted, FileDropRefusal>,
) -> bool {
    &&& after.bindings == before.bindings
    &&& after.binding_epochs == before.binding_epochs
    &&& after.next_drop_id == before.next_drop_id
    &&& after.next_activation == before.next_activation
    &&& after.grant_generations == before.grant_generations
    &&& after.pending_pastes == before.pending_pastes
    &&& expiry_noted(before, after, now_us)
    &&& ({
        let offers = expired_offers(before.offers@, before.transfers@, now_us);
        let transfers = expired_transfers(before.offers@, before.transfers@, now_us);
        let owner = OwnedId { session, id: acceptance.binding.drop_id };
        let fresh = outcome is Ok && offers[owner].transfer is None;
        &&& outcome == acceptance_answer(
            before.bindings@,
            offers,
            transfers,
            session,
            acceptance,
        )
        &&& after.offers@ == (if fresh {
            offers.insert(
                owner,
                OfferEntry { transfer: Some(acceptance.transfer_id), ..offers[owner] },
            )
        } else {
            offers
        })
        &&& after.transfers@ == (if fresh {
            transfers.insert(
                OwnedId { session, id: acceptance.transfer_id },
                accepted_transfer(acceptance, outcome->Ok_0.open_timeout_us, now_us),
            )
        } else {
            transfers
        })
    })
}

impl FileDropManager {
    fn count_running(&self, session: &SessionIdentity, context_id: u64, surface_id: u64) -> (r: usize)
        requires
            self.wf(),
        ensures
            r == running_transfers(
                *session,
                context_id,
                surface_id,
                self.offers@,
                self.transfers@,
            ),
    {
        let ghost condition = |key: OwnedId, transfer: TransferEntry|
            transfer_running(*session, context_id, surface_id, self.offers@, key, transfer);
        let mut count: usize = 0;
        let mut index: usize = 0;
        while index < self.transfers.entries.len()
            invariant
                self.wf(),
                index <= self.transfers.entries@.len(),
                condition == (|key: OwnedId, transfer: TransferEntry|
                    transfer_running(*session, context_id, surface_id, self.offers@, key, transfer)),
                count == count_where(self.transfers.entries@.take(index as int), condition),
                count <= index,
            decreases self.transfers.entries@.len() - index,
        {
            let key = self.transfers.entries[index].0;
            let transfer = self.transfers.entries[index].1;
            assert(self.transfers.entries@.take(index + 1).drop_last()
                =~= self.transfers.entries@.take(index as int));
            if key.session.same(session) && transfer.context_id == context_id
                && transfer.surface_id == surface_id {
                if let Some(offer) = self.offers.get(
                    &OwnedId { session: *session, id: transfer.drop_id },
                ) {
                    if !offer.cancelled && offer.terminal.is_none() {
                        count = count + 1;
                    }
                }
            }
            index = index + 1;
        }
        proof {
            assert(self.transfers.entries@.take(index as int) =~= self.transfers.entries@);
            lemma_count_where(self.transfers.entries@, condition);
        }
        count
    }

    /// Accept an offer as a transfer. Repeating an acceptance gets the same answer.
    pub fn accept(&mut self, session: SessionIdentity, acceptance: AcceptFileDrop, now_us: u64) -> (r:
        Result<FileDropAccepted, FileDropRefusal>)
        requires
            old(self).wf(),
        ensures
            final(self).wf(),
            drop_accepted(*old(self), *final(self), session, acceptance, now_us, r),
    {
        self.expire(now_us);
        let owner = OwnedId { session, id: acceptance.binding.drop_id };
        let (offer_binding, finished, transfer) = match self.offers.get(&owner) {
            Some(offer) => (
                offer.binding,
                offer.cancelled || offer.terminal.is_some(),
                offer.transfer,
            ),
            None => {
                return Err(FileDropRefusal::OfferAbsent);
            },
        };
        if offer_binding != acceptance.binding {
            return Err(FileDropRefusal::StaleAcceptance);
        }
        if finished {
            return Err(FileDropRefusal::AlreadyTerminal);
        }
        let key = BindingKey {
            session,
            context_id: acceptance.binding.context_id,
            surface_id: acceptance.binding.surface_id,
        };
        if let Some(transfer_id) = transfer {
            if transfer_id != acceptance.transfer_id {
                return Err(FileDropRefusal::AlreadyAccepted);
            }
            return match self.bindings.get(&key) {
                Some(binding) => Ok(
                    FileDropAccepted {
                        drop_id: acceptance.binding.drop_id,
                        transfer_id,
                        transfer_generation: acceptance.transfer_generation,
                        open_timeout_us: binding.grant.idle_timeout_us,
                    },
                ),
                None => Err(FileDropRefusal::BindingGone),
            };
        }
        let grant = match self.bindings.get(&key) {
            Some(binding) => binding.grant,
            None => {
                return Err(FileDropRefusal::BindingGone);
            },
        };
        let running = self.count_running(
            &session,
            acceptance.binding.context_id,
            acceptance.binding.surface_id,
        );
        if running as u64 >= grant.maximum_active_transfers {
            return Err(FileDropRefusal::TransferLimit);
        }
        if acceptance.maximum_record_body > grant.maximum_record_body {
            return Err(FileDropRefusal::RecordLimit);
        }
        let transfer_key = OwnedId { session, id: acceptance.transfer_id };
        if self.transfers.contains(&transfer_key) {
            return Err(FileDropRefusal::TransferLive);
        }
        let ghost before = *self;
        if let Some(offer) = self.offers.get_mut(&owner) {
            offer.transfer = Some(acceptance.transfer_id);
        }
        self.transfers.insert(
            transfer_key,
            TransferEntry {
                drop_id: acceptance.binding.drop_id,
                context_id: acceptance.binding.context_id,
                surface_id: acceptance.binding.surface_id,
                generation: acceptance.transfer_generation,
                committed_offset: 0,
                maximum_record_body: acceptance.maximum_record_body,
                maximum_body_bytes: acceptance.initial_maximum_body_bytes,
                maximum_records: acceptance.initial_maximum_records,
                active: false,
                deadline_us: add_delay(now_us, grant.idle_timeout_us),
            },
        );
        proof {
            assert forall|k: OwnedId| #[trigger] self.transfers@.contains_key(k) implies {
                let drop = drop_of(k, self.transfers@[k]);
                &&& self.offers@.contains_key(drop)
                &&& self.offers@[drop].transfer == Some(k.id)
                &&& self.offers@[drop].binding.context_id == self.transfers@[k].context_id
                &&& self.offers@[drop].binding.surface_id == self.transfers@[k].surface_id
            } by {
                if k != transfer_key {
                    assert(before.transfers@.contains_key(k));
                    assert(before.offers@.contains_key(drop_of(k, before.transfers@[k])));
                }
            }
            assert forall|k: OwnedId| #[trigger] self.offers@.contains_key(k) implies (
            self.offers@[k].transfer matches Some(t) ==> {
                &&& self.transfers@.contains_key(transfer_of(k, t))
                &&& self.transfers@[transfer_of(k, t)].drop_id == k.id
            }) by {
                if k != owner {
                    assert(before.offers@.contains_key(k));
                }
            }
            assert forall|k: OwnedId| #[trigger] self.offers@.contains_key(k) implies k.id
                <= self.next_drop_id && self.offers@[k].binding.drop_id == k.id by {
                assert(before.offers@.contains_key(k));
            }
        }
        Ok(
            FileDropAccepted {
                drop_id: acceptance.binding.drop_id,
                transfer_id: acceptance.transfer_id,
                transfer_generation: acceptance.transfer_generation,
                open_timeout_us: grant.idle_timeout_us,
            },
        )
    }
}


/// Whether two tables of offers differ in nothing but sources, results and deadlines.
pub open spec fn same_offers(left: Map<OwnedId, OfferEntry>, right: Map<OwnedId, OfferEntry>) -> bool {
    &&& left.dom() == right.dom()
    &&& forall|key: OwnedId| #[trigger]
        left.contains_key(key) ==> left[key].binding == right[key].binding && left[key].transfer
            == right[key].transfer
}

/// Whether two tables of transfers are of the same drops.
pub open spec fn same_transfers(
    left: Map<OwnedId, TransferEntry>,
    right: Map<OwnedId, TransferEntry>,
) -> bool {
    &&& left.dom() == right.dom()
    &&& forall|key: OwnedId| #[trigger]
        left.contains_key(key) ==> left[key].drop_id == right[key].drop_id && left[key].context_id
            == right[key].context_id && left[key].surface_id == right[key].surface_id
}

proof fn lemma_links_kept(
    offers: Map<OwnedId, OfferEntry>,
    transfers: Map<OwnedId, TransferEntry>,
    later_offers: Map<OwnedId, OfferEntry>,
    later_transfers: Map<OwnedId, TransferEntry>,
    next_drop_id: u64,
)
    requires
        transfers_linked(offers, transfers),
        offers_linked(offers, transfers),
        offers_numbered(offers, next_drop_id),
        same_offers(offers, later_offers),
        same_transfers(transfers, later_transfers),
    ensures
        transfers_linked(later_offers, later_transfers),
        offers_linked(later_offers, later_transfers),
        offers_numbered(later_offers, next_drop_id),
{
    assert forall|key: OwnedId| #[trigger] later_transfers.contains_key(key) implies {
        let owner = drop_of(key, later_transfers[key]);
        &&& later_offers.contains_key(owner)
        &&& later_offers[owner].transfer == Some(key.id)
        &&& later_offers[owner].binding.context_id == later_transfers[key].context_id
        &&& later_offers[owner].binding.surface_id == later_transfers[key].surface_id
    } by {
        assert(transfers.contains_key(key));
        assert(offers.contains_key(drop_of(key, transfers[key])));
    }
    assert forall|key: OwnedId| #[trigger] later_offers.contains_key(key) implies (
    later_offers[key].transfer matches Some(id) ==> {
        &&& later_transfers.contains_key(transfer_of(key, id))
        &&& later_transfers[transfer_of(key, id)].drop_id == key.id
    }) by {
        assert(offers.contains_key(key));
        if let Some(id) = offers[key].transfer {
            assert(transfers.contains_key(transfer_of(key, id)));
        }
    }
    assert forall|key: OwnedId| #[trigger] later_offers.contains_key(key) implies key.id
        <= next_drop_id && later_offers[key].binding.drop_id == key.id by {
        assert(offers.contains_key(key));
    }
}

/// Why an advance is refused before anything changes, if it is.
pub open spec fn advance_refusal(
    offers: Map<OwnedId, OfferEntry>,
    transfers: Map<OwnedId, TransferEntry>,
    session: SessionIdentity,
    advance: AdvanceFileTransfer,
) -> Option<FileDropRefusal> {
    let key = OwnedId { session, id: advance.transfer_id };
    let transfer = transfers[key];
    let source = offers[drop_of(key, transfer)].source;
    if !transfers.contains_key(key) {
        Some(FileDropRefusal::TransferAbsent)
    } else if transfer.context_id != advance.context_id || transfer.surface_id
        != advance.surface_id || transfer.drop_id != advance.drop_id || transfer.generation
        != advance.expected_generation {
        Some(FileDropRefusal::StaleAdvance)
    } else if transfer.generation == u64::MAX {
        Some(FileDropRefusal::TransferGenerationExhausted)
    } else if advance.new_generation != transfer.generation + 1 {
        Some(FileDropRefusal::StaleAdvance)
    } else if source is None {
        Some(FileDropRefusal::OfferTerminal)
    } else if advance.committed_offset > source.unwrap().length {
        Some(FileDropRefusal::StaleAdvance)
    } else {
        None
    }
}

/// The transfer an advance makes of another, still without a new deadline.
pub open spec fn advanced_transfer(
    transfer: TransferEntry,
    advance: AdvanceFileTransfer,
) -> TransferEntry {
    TransferEntry {
        generation: advance.new_generation,
        committed_offset: advance.committed_offset,
        maximum_body_bytes: advance.maximum_body_bytes,
        maximum_records: advance.maximum_records,
        active: false,
        ..transfer
    }
}

/// The offer whose source only the new generation may read.
pub open spec fn readdressed_offer(offer: OfferEntry, generation: u64) -> OfferEntry {
    OfferEntry {
        source: match offer.source {
            Some(source) => Some(FileSource { generation, ..source }),
            None => None,
        },
        ..offer
    }
}

/// The binding a transfer runs under.
pub open spec fn transfer_binding(session: SessionIdentity, transfer: TransferEntry) -> BindingKey {
    BindingKey { session, context_id: transfer.context_id, surface_id: transfer.surface_id }
}

/// What becomes of a wish to continue a transfer.
pub open spec fn transfer_advanced(
    before: FileDropManager,
    after: FileDropManager,
    session: SessionIdentity,
    advance: AdvanceFileTransfer,
    now_us: u64,
    outcome: Result<FileTransferAdvanced, FileDropRefusal>,
) -> bool {
    &&& after == (FileDropManager {
        offers: after.offers,
        transfers: after.transfers,
        ..before
    })
    &&& match advance_refusal(before.offers@, before.transfers@, session, advance) {
        Some(refusal) => {
            &&& outcome == Err::<FileTransferAdvanced, FileDropRefusal>(refusal)
            &&& after == before
        },
        None => {
            let key = OwnedId { session, id: advance.transfer_id };
            let transfer = before.transfers@[key];
            let owner = drop_of(key, transfer);
            let binding = transfer_binding(session, transfer);
            let idle = before.bindings@[binding].grant.idle_timeout_us;
            let bound = before.bindings@.contains_key(binding);
            &&& after.offers@ == before.offers@.insert(
                owner,
                readdressed_offer(before.offers@[owner], advance.new_generation),
            )
            &&& after.transfers@ == before.transfers@.insert(
                key,
                if bound {
                    TransferEntry {
                        deadline_us: crate::file_drop::after(now_us, idle),
                        ..advanced_transfer(transfer, advance)
                    }
                } else {
                    advanced_transfer(transfer, advance)
                },
            )
            &&& outcome == (if bound {
                Ok(
                    FileTransferAdvanced {
                        transfer_id: advance.transfer_id,
                        generation: advance.new_generation,
                        committed_offset: advance.committed_offset,
                        open_timeout_us: idle,
                    },
                )
            } else {
                Err::<FileTransferAdvanced, FileDropRefusal>(FileDropRefusal::BindingGone)
            })
        },
    }
}

/// What becomes of a cancellation.
pub open spec fn drop_cancelled(
    before: FileDropManager,
    after: FileDropManager,
    session: SessionIdentity,
    cancellation: CancelFileDrop,
    now_us: u64,
    outcome: Result<(), FileDropRefusal>,
) -> bool {
    &&& after == (FileDropManager {
        offers: after.offers,
        transfers: after.transfers,
        released: after.released,
        ..before
    })
    &&& ({
        let owner = OwnedId { session, id: cancellation.binding.drop_id };
        let offer = before.offers@[owner];
        &&& outcome == (if !before.offers@.contains_key(owner) {
            Err::<(), FileDropRefusal>(FileDropRefusal::OfferAbsent)
        } else if offer.binding != cancellation.binding {
            Err(FileDropRefusal::StaleCancellation)
        } else {
            Ok(())
        })
        &&& outcome is Err ==> after == before
        &&& outcome is Ok ==> {
            &&& after.offers@ == before.offers@.insert(
                owner,
                cancelled_offer(offer, now_us),
            )
            &&& after.transfers@ == (match offer.transfer {
                Some(id) => before.transfers@.insert(
                    transfer_of(owner, id),
                    TransferEntry {
                        active: false,
                        ..before.transfers@[transfer_of(owner, id)]
                    },
                ),
                None => before.transfers@,
            })
            &&& after.released@ == (match offer.source {
                Some(source) => before.released@.push(source.handle),
                None => before.released@,
            })
        }
    })
}

impl FileDropManager {
    /// Continue a transfer as its next generation. Workers of the old generation may no longer read
    /// the source.
    pub fn advance(&mut self, session: SessionIdentity, advance: AdvanceFileTransfer, now_us: u64) -> (r:
        Result<FileTransferAdvanced, FileDropRefusal>)
        requires
            old(self).wf(),
        ensures
            final(self).wf(),
            transfer_advanced(*old(self), *final(self), session, advance, now_us, r),
    {
        let key = OwnedId { session, id: advance.transfer_id };
        let transfer: TransferEntry = match self.transfers.get(&key) {
            Some(transfer) => *transfer,
            None => {
                return Err(FileDropRefusal::TransferAbsent);
            },
        };
        if transfer.context_id != advance.context_id || transfer.surface_id != advance.surface_id
            || transfer.drop_id != advance.drop_id || transfer.generation
            != advance.expected_generation {
            return Err(FileDropRefusal::StaleAdvance);
        }
        if transfer.generation == u64::MAX {
            return Err(FileDropRefusal::TransferGenerationExhausted);
        }
        if advance.new_generation != transfer.generation + 1 {
            return Err(FileDropRefusal::StaleAdvance);
        }
        let owner = OwnedId { session, id: transfer.drop_id };
        let length: u64 = match self.offers.get(&owner) {
            Some(offer) => match &offer.source {
                Some(source) => source.length,
                None => {
                    return Err(FileDropRefusal::OfferTerminal);
                },
            },
            None => {
                return Err(FileDropRefusal::OfferTerminal);
            },
        };
        if advance.committed_offset > length {
            return Err(FileDropRefusal::StaleAdvance);
        }
        let ghost before = *self;
        let binding = BindingKey {
            session,
            context_id: transfer.context_id,
            surface_id: transfer.surface_id,
        };
        let idle: Option<u64> = match self.bindings.get(&binding) {
            Some(entry) => Some(entry.grant.idle_timeout_us),
            None => None,
        };
        let deadline_us: u64 = match idle {
            Some(idle_timeout_us) => add_delay(now_us, idle_timeout_us),
            None => transfer.deadline_us,
        };
        if let Some(offer) = self.offers.get_mut(&owner) {
            if let Some(source) = &mut offer.source {
                source.generation = advance.new_generation;
            }
        }
        self.transfers.insert(
            key,
            TransferEntry {
                generation: advance.new_generation,
                committed_offset: advance.committed_offset,
                maximum_body_bytes: advance.maximum_body_bytes,
                maximum_records: advance.maximum_records,
                active: false,
                deadline_us,
                ..transfer
            },
        );
        proof {
            assert(before.offers@.contains_key(owner));
            assert(self.offers@.dom() =~= before.offers@.dom());
            assert(self.transfers@.dom() =~= before.transfers@.dom());
            lemma_links_kept(
                before.offers@,
                before.transfers@,
                self.offers@,
                self.transfers@,
                self.next_drop_id,
            );
        }
        match idle {
            Some(open_timeout_us) => Ok(
                FileTransferAdvanced {
                    transfer_id: advance.transfer_id,
                    generation: advance.new_generation,
                    committed_offset: advance.committed_offset,
                    open_timeout_us,
                },
            ),
            None => Err(FileDropRefusal::BindingGone),
        }
    }

    /// Cancel a drop at its producer's wish.
    pub fn cancel(&mut self, session: SessionIdentity, cancellation: CancelFileDrop, now_us: u64) -> (r:
        Result<(), FileDropRefusal>)
        requires
            old(self).wf(),
        ensures
            final(self).wf(),
            drop_cancelled(*old(self), *final(self), session, cancellation, now_us, r),
    {
        let owner = OwnedId { session, id: cancellation.binding.drop_id };
        let ghost before = *self;
        let (binding, transfer) = match self.offers.get(&owner) {
            Some(offer) => (offer.binding, offer.transfer),
            None => {
                return Err(FileDropRefusal::OfferAbsent);
            },
        };
        if binding != cancellation.binding {
            return Err(FileDropRefusal::StaleCancellation);
        }
        if let Some(id) = transfer {
            let transfer_key = OwnedId { session, id };
            assert(transfer_key == transfer_of(owner, id));
            if let Some(entry) = self.transfers.get_mut(&transfer_key) {
                entry.active = false;
            }
        }
        if let Some(offer) = self.offers.get_mut(&owner) {
            if let Some(source) = &offer.source {
                self.released.push(source.handle);
            }
            offer.source = None;
            offer.cancelled = true;
            offer.terminal_deadline_us = now_us.checked_add(FILE_DROP_RESULT_RETENTION_US);
        }
        proof {
            assert(self.offers@.dom() =~= before.offers@.dom());
            assert(self.transfers@.dom() =~= before.transfers@.dom());
            lemma_links_kept(
                before.offers@,
                before.transfers@,
                self.offers@,
                self.transfers@,
                self.next_drop_id,
            );
        }
        Ok(())
    }
}

/// What a query for a drop is answered, but for the name.
pub open spec fn drop_state(offer: OfferEntry, transfer: Option<TransferEntry>) -> FileDropState {
    match offer.terminal {
        Some(result) => if result.result.is_committed() {
            FileDropState::Committed
        } else if result.result is Cancelled {
            FileDropState::Cancelled
        } else {
            FileDropState::Failed
        },
        None => if offer.cancelled {
            FileDropState::Cancelled
        } else {
            match transfer {
                None => FileDropState::Offered,
                Some(entry) => if entry.active {
                    FileDropState::Transferring
                } else {
                    FileDropState::Accepted
                },
            }
        },
    }
}

/// The transfer an offer was accepted as, where there is one.
pub open spec fn offer_transfer(
    key: OwnedId,
    offer: OfferEntry,
    transfers: Map<OwnedId, TransferEntry>,
) -> Option<TransferEntry> {
    match offer.transfer {
        Some(id) if transfers.contains_key(transfer_of(key, id)) => Some(
            transfers[transfer_of(key, id)],
        ),
        _ => None,
    }
}

/// Whether a status tells of an offer what there is to tell.
pub open spec fn status_of(
    status: FileDropStatus,
    key: OwnedId,
    offer: OfferEntry,
    transfers: Map<OwnedId, TransferEntry>,
) -> bool {
    let transfer = offer_transfer(key, offer, transfers);
    &&& status.drop_id == key.id
    &&& status.state == drop_state(offer, transfer)
    &&& match offer.terminal {
        Some(result) => {
            &&& status.transfer_id == result.transfer_id
            &&& status.generation == result.transfer_generation
            &&& status.committed_offset == result.committed_length
            &&& status.result == Some(result.result)
            &&& status.final_name@ == result.final_name@
        },
        None => {
            &&& status.transfer_id == (match offer.transfer {
                Some(id) => id,
                None => 0,
            })
            &&& status.generation == (match transfer {
                Some(entry) => entry.generation,
                None => 0,
            })
            &&& status.committed_offset == (match transfer {
                Some(entry) => entry.committed_offset,
                None => 0,
            })
            &&& status.result == (if offer.cancelled {
                Some(FileResultCode::Cancelled)
            } else {
                None
            })
            &&& status.final_name@ == Seq::<char>::empty()
        },
    }
}

/// What becomes of a query.
pub open spec fn drop_told(
    before: FileDropManager,
    after: FileDropManager,
    session: SessionIdentity,
    drop_id: u64,
    now_us: u64,
    outcome: Result<FileDropStatus, FileDropRefusal>,
) -> bool {
    &&& after.offers@ == expired_offers(before.offers@, before.transfers@, now_us)
    &&& after.transfers@ == expired_transfers(
        before.offers@,
        before.transfers@,
        now_us,
    )
    &&& after.bindings == before.bindings
    &&& after.binding_epochs == before.binding_epochs
    &&& after.next_drop_id == before.next_drop_id
    &&& after.next_activation == before.next_activation
    &&& after.grant_generations == before.grant_generations
    &&& after.pending_pastes == before.pending_pastes
    &&& expiry_noted(before, after, now_us)
    &&& ({
        let key = OwnedId { session, id: drop_id };
        match outcome {
            Ok(status) => after.offers@.contains_key(key) && status_of(
                status,
                key,
                after.offers@[key],
                after.transfers@,
            ),
            Err(refusal) => refusal == FileDropRefusal::OfferAbsent && !after.offers@.contains_key(key),
        }
    })
}

impl FileDropManager {
    /// Tell where a drop stands.
    pub fn status(&mut self, session: SessionIdentity, drop_id: u64, now_us: u64) -> (r: Result<
        FileDropStatus,
        FileDropRefusal,
    >)
        requires
            old(self).wf(),
        ensures
            final(self).wf(),
            drop_told(*old(self), *final(self), session, drop_id, now_us, r),
            r matches Ok(status) ==> status.drop_id == drop_id && (status.state is Committed ==> (
            status.result == Some(FileResultCode::Committed) || status.result == Some(
                FileResultCode::AlreadyCommitted,
            ))) && (status.state is Failed <==> (status.result == Some(FileResultCode::Rejected)
                || status.result == Some(FileResultCode::HashMismatch) || status.result == Some(
                FileResultCode::IoError,
            ))),
    {
        self.expire(now_us);
        let key = OwnedId { session, id: drop_id };
        let offer = match self.offers.get(&key) {
            Some(offer) => offer,
            None => {
                return Err(FileDropRefusal::OfferAbsent);
            },
        };
        if let Some(result) = &offer.terminal {
            let state = if result.result.committed() {
                FileDropState::Committed
            } else if result.result == FileResultCode::Cancelled {
                FileDropState::Cancelled
            } else {
                FileDropState::Failed
            };
            return Ok(
                FileDropStatus {
                    drop_id,
                    state,
                    transfer_id: result.transfer_id,
                    generation: result.transfer_generation,
                    committed_offset: result.committed_length,
                    result: Some(result.result),
                    final_name: result.final_name.clone(),
                },
            );
        }
        let transfer: Option<TransferEntry> = match offer.transfer {
            Some(id) => match self.transfers.get(&OwnedId { session, id }) {
                Some(transfer) => Some(*transfer),
                None => None,
            },
            None => None,
        };
        let state = if offer.cancelled {
            FileDropState::Cancelled
        } else {
            match transfer {
                None => FileDropState::Offered,
                Some(entry) => if entry.active {
                    FileDropState::Transferring
                } else {
                    FileDropState::Accepted
                },
            }
        };
        let (generation, committed_offset): (u64, u64) = match transfer {
            Some(entry) => (entry.generation, entry.committed_offset),
            None => (0, 0),
        };
        Ok(
            FileDropStatus {
                drop_id,
                state,
                transfer_id: match offer.transfer {
                    Some(id) => id,
                    None => 0,
                },
                generation,
                committed_offset,
                result: if offer.cancelled {
                    Some(FileResultCode::Cancelled)
                } else {
                    None
                },
                final_name: String::new(),
            },
        )
    }
}

/// Why a transfer's connection may not open, if it may not.
pub open spec fn open_refusal(
    offers: Map<OwnedId, OfferEntry>,
    transfers: Map<OwnedId, TransferEntry>,
    session: SessionIdentity,
    open: FileTransferOpen,
) -> Option<FileDropRefusal> {
    let transfer = transfers[OwnedId { session, id: open.transfer_id }];
    let owner = OwnedId { session, id: open.drop_id };
    let binding = offers[owner].binding;
    if !transfers.contains_key(OwnedId { session, id: open.transfer_id }) {
        Some(FileDropRefusal::TransferAbsent)
    } else if transfer.context_id != open.context_id || transfer.surface_id != open.surface_id
        || transfer.drop_id != open.drop_id || transfer.generation != open.transfer_generation
        || transfer.committed_offset != open.resume_offset || transfer.maximum_record_body
        != open.maximum_record_body || transfer.maximum_body_bytes != open.maximum_body_bytes
        || transfer.maximum_records != open.maximum_records || transfer.active {
        Some(FileDropRefusal::OpenMismatch)
    } else if !offers.contains_key(owner) {
        Some(FileDropRefusal::OfferAbsent)
    } else if binding.producer_epoch != open.producer_epoch || binding.grant_generation
        != open.grant_generation || binding.surface_generation != open.surface_generation {
        Some(FileDropRefusal::StaleOpen)
    } else if offers[owner].cancelled || offers[owner].terminal is Some {
        Some(FileDropRefusal::OfferTerminal)
    } else {
        None
    }
}

/// Whether the connection of a transfer was started, or why it was not.
pub open spec fn transfer_begun(
    before: FileDropManager,
    after: FileDropManager,
    session: SessionIdentity,
    open: FileTransferOpen,
    now_us: u64,
    outcome: Result<(u64, u64), FileDropRefusal>,
) -> bool {
    let offers = expired_offers(before.offers@, before.transfers@, now_us);
    let transfers = expired_transfers(before.offers@, before.transfers@, now_us);
    let key = OwnedId { session, id: open.transfer_id };
    &&& after.offers@ == offers
    &&& after.bindings == before.bindings
    &&& after.binding_epochs == before.binding_epochs
    &&& after.next_drop_id == before.next_drop_id
    &&& after.next_activation == before.next_activation
    &&& after.grant_generations == before.grant_generations
    &&& after.pending_pastes == before.pending_pastes
    &&& expiry_noted(before, after, now_us)
    &&& match open_refusal(offers, transfers, session, open) {
        Some(refusal) => outcome == Err::<(u64, u64), FileDropRefusal>(refusal)
            && after.transfers@ == transfers,
        None => after.transfers@ == transfers.insert(
            key,
            TransferEntry { active: true, ..transfers[key] },
        ) && outcome == (match offers[OwnedId { session, id: open.drop_id }].source {
            Some(source) => Ok::<(u64, u64), FileDropRefusal>((source.handle, source.length)),
            None => Err(FileDropRefusal::SourceGone),
        }),
    }
}

impl FileDropManager {
    /// Start the connection of an accepted transfer, and return the handle and length of its
    /// source.
    pub fn begin_transfer(&mut self, session: SessionIdentity, open: &FileTransferOpen, now_us: u64) -> (r:
        Result<(u64, u64), FileDropRefusal>)
        requires
            old(self).wf(),
        ensures
            final(self).wf(),
            transfer_begun(*old(self), *final(self), session, *open, now_us, r),
    {
        self.expire(now_us);
        let ghost before = *self;
        let key = OwnedId { session, id: open.transfer_id };
        let transfer: TransferEntry = match self.transfers.get(&key) {
            Some(transfer) => *transfer,
            None => {
                return Err(FileDropRefusal::TransferAbsent);
            },
        };
        if transfer.context_id != open.context_id || transfer.surface_id != open.surface_id
            || transfer.drop_id != open.drop_id || transfer.generation != open.transfer_generation
            || transfer.committed_offset != open.resume_offset || transfer.maximum_record_body
            != open.maximum_record_body || transfer.maximum_body_bytes != open.maximum_body_bytes
            || transfer.maximum_records != open.maximum_records || transfer.active {
            return Err(FileDropRefusal::OpenMismatch);
        }
        let (binding, finished, source): (FileDropTuple, bool, Option<(u64, u64)>) =
            match self.offers.get(&OwnedId { session, id: open.drop_id }) {
            Some(offer) => (
                offer.binding,
                offer.cancelled || offer.terminal.is_some(),
                match &offer.source {
                    Some(source) => Some((source.handle, source.length)),
                    None => None,
                },
            ),
            None => {
                return Err(FileDropRefusal::OfferAbsent);
            },
        };
        if binding.producer_epoch != open.producer_epoch || binding.grant_generation
            != open.grant_generation || binding.surface_generation != open.surface_generation {
            return Err(FileDropRefusal::StaleOpen);
        }
        if finished {
            return Err(FileDropRefusal::OfferTerminal);
        }
        self.transfers.insert(key, TransferEntry { active: true, ..transfer });
        proof {
            assert(self.transfers@.dom() =~= before.transfers@.dom());
            lemma_links_kept(
                before.offers@,
                before.transfers@,
                self.offers@,
                self.transfers@,
                self.next_drop_id,
            );
        }
        match source {
            Some(found) => Ok(found),
            None => Err(FileDropRefusal::SourceGone),
        }
    }

    /// How long the connection of a transfer may stay idle.
    pub fn binding_idle_timeout(&self, session: SessionIdentity, transfer_id: u64) -> (r: Option<u64>)
        requires
            self.wf(),
        ensures
            ({
                let key = OwnedId { session, id: transfer_id };
                let binding = transfer_binding(session, self.transfers@[key]);
                r == (if self.transfers@.contains_key(key) && self.bindings@.contains_key(binding) {
                    Some(self.bindings@[binding].grant.idle_timeout_us)
                } else {
                    None
                })
            }),
    {
        match self.transfers.get(&OwnedId { session, id: transfer_id }) {
            Some(transfer) => match self.bindings.get(
                &BindingKey {
                    session,
                    context_id: transfer.context_id,
                    surface_id: transfer.surface_id,
                },
            ) {
                Some(binding) => Some(binding.grant.idle_timeout_us),
                None => None,
            },
            None => None,
        }
    }
}

/// Whether a report is about the generation a transfer is at.
pub open spec fn report_current(
    transfers: Map<OwnedId, TransferEntry>,
    session: SessionIdentity,
    result: FileResult,
) -> bool {
    let key = OwnedId { session, id: result.transfer_id };
    transfers.contains_key(key) && transfers[key].generation == result.transfer_generation
}

/// The text to paste once a file reached a shell: its path, where the producer may tell it.
pub open spec fn reported_paste(
    bindings: Map<BindingKey, BindingEntry>,
    binding: BindingKey,
    result: FileResult,
    path_negotiated: bool,
) -> Option<Seq<char>> {
    match result.committed_path {
        Some(path) if path_negotiated && result.result.is_committed() && bindings.contains_key(
            binding,
        ) && bindings[binding].binding.destination == Some(FileDropDestination::ShellCwd) => Some(
            paste_text(path@),
        ),
        _ => None,
    }
}

impl FileDropManager {
    /// Note how a transfer ended. A report on an older generation changes nothing.
    pub fn finish_transfer(
        &mut self,
        session: SessionIdentity,
        result: FileResult,
        path_negotiated: bool,
        now_us: u64,
    )
        requires
            old(self).wf(),
        ensures
            final(self).wf(),
            *final(self) == (FileDropManager {
                offers: final(self).offers,
                transfers: final(self).transfers,
                pending_pastes: final(self).pending_pastes,
                ..*old(self)
            }),
            !report_current(old(self).transfers@, session, result) ==> *final(self) == *old(self),
            report_current(old(self).transfers@, session, result) ==> {
                let key = OwnedId { session, id: result.transfer_id };
                let transfer = old(self).transfers@[key];
                let owner = drop_of(key, transfer);
                &&& final(self).transfers@ == old(self).transfers@.insert(
                    key,
                    TransferEntry {
                        active: false,
                        committed_offset: result.committed_length,
                        ..transfer
                    },
                )
                &&& final(self).offers@ == old(self).offers@.insert(
                    owner,
                    OfferEntry {
                        source: None,
                        terminal: Some(result),
                        terminal_deadline_us: retention(now_us),
                        ..old(self).offers@[owner]
                    },
                )
                &&& match reported_paste(
                    old(self).bindings@,
                    transfer_binding(session, transfer),
                    result,
                    path_negotiated,
                ) {
                    Some(text) => final(self).pending_pastes@.len() == old(self).pending_pastes@.len() + 1 && final(self).pending_pastes@.drop_last() == old(self).pending_pastes@ && final(self).pending_pastes@.last()@ == text,
                    None => final(self).pending_pastes@ == old(self).pending_pastes@,
                }
            },
    {
        let key = OwnedId { session, id: result.transfer_id };
        let transfer: TransferEntry = match self.transfers.get(&key) {
            Some(transfer) => *transfer,
            None => {
                return;
            },
        };
        if transfer.generation != result.transfer_generation {
            return;
        }
        let ghost before = *self;
        let owner = OwnedId { session, id: transfer.drop_id };
        assert(owner == drop_of(key, transfer));
        let shell = match self.bindings.get(
            &BindingKey {
                session,
                context_id: transfer.context_id,
                surface_id: transfer.surface_id,
            },
        ) {
            Some(entry) => entry.binding.destination == Some(FileDropDestination::ShellCwd),
            None => false,
        };
        if shell && path_negotiated && result.result.committed() {
            if let Some(path) = &result.committed_path {
                self.pending_pastes.push(local_paste_text(path.as_str()));
                assert(self.pending_pastes@.drop_last() =~= before.pending_pastes@);
            }
        }
        self.transfers.insert(
            key,
            TransferEntry { active: false, committed_offset: result.committed_length, ..transfer },
        );
        if let Some(offer) = self.offers.get_mut(&owner) {
            offer.source = None;
            offer.terminal = Some(result);
            offer.terminal_deadline_us = now_us.checked_add(FILE_DROP_RESULT_RETENTION_US);
        }
        proof {
            assert(before.offers@.contains_key(owner));
            assert(self.offers@.dom() =~= before.offers@.dom());
            assert(self.transfers@.dom() =~= before.transfers@.dom());
            lemma_links_kept(
                before.offers@,
                before.transfers@,
                self.offers@,
                self.transfers@,
                self.next_drop_id,
            );
        }
    }

    /// Note that the connection of a transfer was lost. The loss of an older generation's
    /// connection changes nothing.
    pub fn connection_lost(
        &mut self,
        session: SessionIdentity,
        transfer_id: u64,
        generation: u64,
        now_us: u64,
    )
        requires
            old(self).wf(),
        ensures
            final(self).wf(),
            *final(self) == (FileDropManager { transfers: final(self).transfers, ..*old(self) }),
            ({
                let key = OwnedId { session, id: transfer_id };
                let transfer = old(self).transfers@[key];
                let binding = transfer_binding(session, transfer);
                final(self).transfers@ == (if old(self).transfers@.contains_key(key)
                    && transfer.generation == generation {
                    old(self).transfers@.insert(
                        key,
                        TransferEntry {
                            active: false,
                            deadline_us: if old(self).bindings@.contains_key(binding) {
                                after(now_us, old(self).bindings@[binding].grant.idle_timeout_us)
                            } else {
                                transfer.deadline_us
                            },
                            ..transfer
                        },
                    )
                } else {
                    old(self).transfers@
                })
            }),
    {
        let key = OwnedId { session, id: transfer_id };
        let transfer: TransferEntry = match self.transfers.get(&key) {
            Some(transfer) => *transfer,
            None => {
                return;
            },
        };
        if transfer.generation != generation {
            return;
        }
        let ghost before = *self;
        let deadline_us: u64 = match self.bindings.get(
            &BindingKey {
                session,
                context_id: transfer.context_id,
                surface_id: transfer.surface_id,
            },
        ) {
            Some(binding) => add_delay(now_us, binding.grant.idle_timeout_us),
            None => transfer.deadline_us,
        };
        self.transfers.insert(key, TransferEntry { active: false, deadline_us, ..transfer });
        proof {
            assert(self.transfers@.dom() =~= before.transfers@.dom());
            lemma_links_kept(
                before.offers@,
                before.transfers@,
                self.offers@,
                self.transfers@,
                self.next_drop_id,
            );
        }
    }

    /// Take the texts to paste.
    pub fn take_pending_pastes(&mut self) -> (r: Vec<String>)
        requires
            old(self).wf(),
        ensures
            final(self).wf(),
            r == old(self).pending_pastes,
            *final(self) == (FileDropManager {
                pending_pastes: final(self).pending_pastes,
                ..*old(self)
            }),
            final(self).pending_pastes@.len() == 0,
    {
        let mut taken: Vec<String> = Vec::new();
        std::mem::swap(&mut taken, &mut self.pending_pastes);
        taken
    }
}


/// When something happens to an offer by itself: it is forgotten, or it times out.
pub open spec fn offer_deadline(
    key: OwnedId,
    offer: OfferEntry,
    transfers: Map<OwnedId, TransferEntry>,
) -> Option<u64> {
    match offer.terminal_deadline_us {
        Some(deadline) => Some(deadline),
        None => match offer.transfer {
            None => Some(offer.deadline_us),
            Some(id) => {
                let transfer = transfers[transfer_of(key, id)];
                if transfers.contains_key(transfer_of(key, id)) && !transfer.active {
                    Some(transfer.deadline_us)
                } else {
                    None
                }
            },
        },
    }
}

/// The notices to one session, in order.
pub open spec fn notices_to(
    notices: Seq<(SessionIdentity, CancelFileDrop)>,
    session: SessionIdentity,
) -> Seq<CancelFileDrop>
    decreases notices.len(),
{
    if notices.len() == 0 {
        seq![]
    } else {
        let front = notices_to(notices.drop_last(), session);
        if notices.last().0 == session {
            front.push(notices.last().1)
        } else {
            front
        }
    }
}

impl FileDropManager {
    /// The next moment at which something happens to a session's drops by itself.
    pub fn next_deadline(&self, session: SessionIdentity) -> (r: Option<u64>)
        requires
            self.wf(),
        ensures
            forall|key: OwnedId| #[trigger]
                self.offers@.contains_key(key) && key.session == session ==> (offer_deadline(
                    key,
                    self.offers@[key],
                    self.transfers@,
                ) matches Some(deadline) ==> (r matches Some(first) && first <= deadline)),
            r matches Some(first) ==> exists|key: OwnedId| #[trigger]
                self.offers@.contains_key(key) && key.session == session && offer_deadline(
                    key,
                    self.offers@[key],
                    self.transfers@,
                ) == Some(first),
    {
        let mut first: Option<u64> = None;
        let mut index: usize = 0;
        while index < self.offers.entries.len()
            invariant
                self.wf(),
                index <= self.offers.entries@.len(),
                forall|i: int|
                    0 <= i < index && (#[trigger] self.offers.entries@[i]).0.session == session ==> (
                    offer_deadline(
                        self.offers.entries@[i].0,
                        self.offers.entries@[i].1,
                        self.transfers@,
                    ) matches Some(deadline) ==> (first matches Some(least) && least <= deadline)),
                first matches Some(least) ==> exists|key: OwnedId| #[trigger]
                    self.offers@.contains_key(key) && key.session == session && offer_deadline(
                        key,
                        self.offers@[key],
                        self.transfers@,
                    ) == Some(least),
            decreases self.offers.entries@.len() - index,
        {
            let key = self.offers.entries[index].0;
            proof {
                self.offers.lemma_entry(index as int);
            }
            if key.session.same(&session) {
                let offer = &self.offers.entries[index].1;
                let deadline: Option<u64> = match offer.terminal_deadline_us {
                    Some(deadline) => Some(deadline),
                    None => match offer.transfer {
                        None => Some(offer.deadline_us),
                        Some(id) => match self.transfers.get(&OwnedId { session, id }) {
                            Some(transfer) => if transfer.active {
                                None
                            } else {
                                Some(transfer.deadline_us)
                            },
                            None => None,
                        },
                    },
                };
                assert(deadline == offer_deadline(key, *offer, self.transfers@));
                if let Some(moment) = deadline {
                    let earlier = match first {
                        Some(least) => moment < least,
                        None => true,
                    };
                    if earlier {
                        first = Some(moment);
                        assert(self.offers@.contains_key(key));
                    }
                }
            }
            index = index + 1;
        }
        proof {
            assert forall|key: OwnedId| #[trigger]
                self.offers@.contains_key(key) && key.session == session implies (offer_deadline(
                key,
                self.offers@[key],
                self.transfers@,
            ) matches Some(deadline) ==> (first matches Some(least) && least <= deadline)) by {
                let i = choose|i: int|
                    0 <= i < self.offers.entries@.len() && (#[trigger] self.offers.entries@[i]).0
                        == key;
                self.offers.lemma_entry(i);
            }
        }
        first
    }

    /// Expire what is due, and take the notices to a session.
    pub fn service_timeouts(&mut self, session: SessionIdentity, now_us: u64) -> (r: Vec<
        CancelFileDrop,
    >)
        requires
            old(self).wf(),
        ensures
            final(self).wf(),
            final(self).offers@ == expired_offers(old(self).offers@, old(self).transfers@, now_us),
            final(self).transfers@ == expired_transfers(
                old(self).offers@,
                old(self).transfers@,
                now_us,
            ),
            exists|notices: Seq<(SessionIdentity, CancelFileDrop)>| #[trigger]
                notices_extended(
                    old(self).cancellations@,
                    notices,
                    old(self).offers@,
                    old(self).transfers@,
                    now_us,
                ) && r@ == notices_to(notices, session) && final(self).cancellations@
                    == notices_outside(notices, session, Scope::Session),
            final(self).bindings == old(self).bindings,
            final(self).binding_epochs == old(self).binding_epochs,
            final(self).next_drop_id == old(self).next_drop_id,
            final(self).next_activation == old(self).next_activation,
            final(self).grant_generations == old(self).grant_generations,
            final(self).pending_pastes == old(self).pending_pastes,
            released_extended(
                old(self).released@,
                final(self).released@,
                old(self).offers@,
                freed_by_expiry(old(self).offers@, old(self).transfers@, now_us),
            ),
    {
        self.expire(now_us);
        let ghost notices = self.cancellations@;
        assert(notices_extended(
            old(self).cancellations@,
            notices,
            old(self).offers@,
            old(self).transfers@,
            now_us,
        ));
        let mut matched: Vec<CancelFileDrop> = Vec::new();
        let mut remaining: Vec<(SessionIdentity, CancelFileDrop)> = Vec::new();
        let mut index: usize = 0;
        assert(notices.take(0) =~= Seq::<(SessionIdentity, CancelFileDrop)>::empty());
        while index < self.cancellations.len()
            invariant
                index <= notices.len(),
                self.cancellations@ == notices,
                matched@ == notices_to(notices.take(index as int), session),
                remaining@ == notices_outside(
                    notices.take(index as int),
                    session,
                    Scope::Session,
                ),
            decreases notices.len() - index,
        {
            let (owner, notice) = self.cancellations[index];
            assert(notices.take(index + 1).drop_last() =~= notices.take(index as int));
            if owner.same(&session) {
                matched.push(notice);
            } else {
                remaining.push((owner, notice));
            }
            index = index + 1;
        }
        assert(notices.take(index as int) =~= notices);
        self.cancellations = remaining;
        matched
    }
}

/// Cleaning up one session leaves every binding, offer and transfer of every other session as it
/// was, and leaves none of its own.
pub proof fn session_cleanup_is_owner_scoped(
    manager: FileDropManager,
    session: SessionIdentity,
    binding: BindingKey,
    id: OwnedId,
)
    ensures
        ({
            let bindings = bindings_outside(manager.bindings@, session, Scope::Session);
            let offers = offers_outside(manager.offers@, session, Scope::Session);
            let transfers = transfers_outside(manager.transfers@, session, Scope::Session);
            &&& binding.session == session ==> !bindings.contains_key(binding)
            &&& id.session == session ==> !offers.contains_key(id) && !transfers.contains_key(id)
            &&& binding.session != session ==> bindings.contains_key(binding)
                == manager.bindings@.contains_key(binding) && (bindings.contains_key(binding)
                ==> bindings[binding] == manager.bindings@[binding])
            &&& id.session != session ==> offers.contains_key(id) == manager.offers@.contains_key(
                id,
            ) && (offers.contains_key(id) ==> offers[id] == manager.offers@[id])
            &&& id.session != session ==> transfers.contains_key(id)
                == manager.transfers@.contains_key(id) && (transfers.contains_key(id)
                ==> transfers[id] == manager.transfers@[id])
        }),
{
}

/// A live transfer always has the offer it was accepted from, on the same surface and under the
/// same session, and that offer names no other transfer.
pub proof fn every_transfer_has_its_offer(manager: FileDropManager, key: OwnedId)
    requires
        manager.wf(),
        manager.transfers@.contains_key(key),
    ensures
        ({
            let owner = drop_of(key, manager.transfers@[key]);
            &&& manager.offers@.contains_key(owner)
            &&& owner.session == key.session
            &&& manager.offers@[owner].transfer == Some(key.id)
            &&& manager.offers@[owner].binding.context_id == manager.transfers@[key].context_id
            &&& manager.offers@[owner].binding.surface_id == manager.transfers@[key].surface_id
        }),
{
}

/// Repeating the last binding request of a surface is harmless: it gets the answer of the first,
/// whatever the presenter would allow by now.
pub proof fn a_repeated_binding_gets_its_first_answer(
    manager: FileDropManager,
    session: SessionIdentity,
    binding: FileDropBinding,
    reply: FileDropGrant,
    allow: bool,
)
    requires
        binding_valid(binding),
        manager.binding_epochs@.contains_key(requested_key(session, binding)),
        manager.binding_epochs@[requested_key(session, binding)] == (binding, reply),
    ensures
        binding_answer(manager, session, binding, allow) == Ok::<FileDropGrant, FileDropRefusal>(
            reply,
        ),
        binding_settled(manager, session, binding),
{
}

/// Whether a call leaves what a session was granted in force: it is any call but the one that forgets
/// the session.
pub open spec fn session_kept(
    before: FileDropManager,
    after: FileDropManager,
    session: SessionIdentity,
) -> bool {
    ||| after.grant_generations@ == before.grant_generations@
    ||| exists|
        owner: SessionIdentity,
        binding: FileDropBinding,
        allow: bool,
        outcome: Result<FileDropGrant, FileDropRefusal>,
    | #[trigger]
        binding_set(before, after, owner, binding, allow, outcome)
    ||| exists|owner: SessionIdentity|
        owner != session && after.grant_generations@ == #[trigger] before.grant_generations@.remove(
            owner,
        )
}

/// Whether a call leaves the last binding of a surface as it is: it binds nothing, it is refused, it
/// binds another surface, or it forgets what lies elsewhere.
pub open spec fn surface_kept(
    before: FileDropManager,
    after: FileDropManager,
    key: BindingKey,
) -> bool {
    &&& session_kept(before, after, key.session)
    &&& {
        ||| after.binding_epochs@ == before.binding_epochs@
        ||| exists|
            owner: SessionIdentity,
            binding: FileDropBinding,
            allow: bool,
            outcome: Result<FileDropGrant, FileDropRefusal>,
        | #[trigger]
            binding_set(before, after, owner, binding, allow, outcome) && (outcome is Err
                || requested_key(owner, binding) != key)
        ||| exists|owner: SessionIdentity, scope: Scope| #[trigger]
            drops_removed(before, after, owner, scope) && !binding_in(owner, scope, key)
    }
}

/// A session's generations are not counted back.
proof fn lemma_generations_grow(history: Seq<FileDropManager>, session: SessionIdentity)
    requires
        history.len() > 0,
        forall|i: int|
            0 <= i < history.len() - 1 ==> session_kept(
                #[trigger] history[i],
                history[i + 1],
                session,
            ),
    ensures
        last_generation(history[0].grant_generations@, session) <= last_generation(
            history.last().grant_generations@,
            session,
        ),
    decreases history.len(),
{
    if history.len() > 1 {
        let shorter = history.drop_last();
        assert forall|i: int| 0 <= i < shorter.len() - 1 implies session_kept(
            #[trigger] shorter[i],
            shorter[i + 1],
            session,
        ) by {
            assert(session_kept(history[i], history[i + 1], session));
        }
        lemma_generations_grow(shorter, session);
        let i = history.len() - 2;
        assert(session_kept(history[i], history[i + 1], session));
    }
}

/// The last binding of a surface stays until the surface is bound anew or forgotten.
proof fn lemma_epoch_stays(
    history: Seq<FileDropManager>,
    key: BindingKey,
    known: (FileDropBinding, FileDropGrant),
)
    requires
        history.len() > 0,
        history[0].binding_epochs@.contains_key(key),
        history[0].binding_epochs@[key] == known,
        forall|i: int|
            0 <= i < history.len() - 1 ==> surface_kept(#[trigger] history[i], history[i + 1], key),
    ensures
        history.last().binding_epochs@.contains_key(key),
        history.last().binding_epochs@[key] == known,
    decreases history.len(),
{
    if history.len() > 1 {
        let shorter = history.drop_last();
        assert forall|i: int| 0 <= i < shorter.len() - 1 implies surface_kept(
            #[trigger] shorter[i],
            shorter[i + 1],
            key,
        ) by {
            assert(surface_kept(history[i], history[i + 1], key));
        }
        lemma_epoch_stays(shorter, key, known);
        let i = history.len() - 2;
        assert(surface_kept(history[i], history[i + 1], key));
    }
}

/// A new grant is of a later generation than every grant its session was given before, on whatever
/// surface, and whatever calls came between the two but the one that forgets the session.
pub proof fn a_new_grant_outranks_every_earlier_one(
    start: FileDropManager,
    history: Seq<FileDropManager>,
    after: FileDropManager,
    session: SessionIdentity,
    earlier: FileDropBinding,
    earlier_allow: bool,
    given: FileDropGrant,
    later: FileDropBinding,
    later_allow: bool,
    outcome: Result<FileDropGrant, FileDropRefusal>,
)
    requires
        start.wf(),
        history.len() > 0,
        binding_set(start, history[0], session, earlier, earlier_allow, Ok(given)),
        forall|i: int|
            0 <= i < history.len() - 1 ==> session_kept(
                #[trigger] history[i],
                history[i + 1],
                session,
            ),
        binding_set(history.last(), after, session, later, later_allow, outcome),
        !binding_settled(history.last(), session, later),
        later.destination is Some,
    ensures
        outcome matches Ok(grant) ==> grant.grant_generation > given.grant_generation,
{
    lemma_generations_grow(history, session);
}

/// The last grant of a surface decides what a request to bind it again is answered, whatever calls
/// came between that left the surface alone: an earlier epoch is stale, the same epoch with other
/// fields is reused, and both change nothing; the same request gets the same grant and changes
/// nothing, whatever the presenter would allow by now; a later epoch that is granted gets a later
/// generation.
pub proof fn the_last_grant_of_a_surface_decides(
    start: FileDropManager,
    history: Seq<FileDropManager>,
    after: FileDropManager,
    session: SessionIdentity,
    earlier: FileDropBinding,
    earlier_allow: bool,
    given: FileDropGrant,
    later: FileDropBinding,
    later_allow: bool,
    outcome: Result<FileDropGrant, FileDropRefusal>,
)
    requires
        start.wf(),
        history.len() > 0,
        binding_set(start, history[0], session, earlier, earlier_allow, Ok(given)),
        forall|i: int|
            0 <= i < history.len() - 1 ==> surface_kept(
                #[trigger] history[i],
                history[i + 1],
                requested_key(session, earlier),
            ),
        binding_set(history.last(), after, session, later, later_allow, outcome),
        requested_key(session, later) == requested_key(session, earlier),
        binding_valid(later),
    ensures
        later.producer_epoch < earlier.producer_epoch ==> outcome == Err::<
            FileDropGrant,
            FileDropRefusal,
        >(FileDropRefusal::StaleEpoch) && after == history.last(),
        later.producer_epoch == earlier.producer_epoch && later != earlier ==> outcome == Err::<
            FileDropGrant,
            FileDropRefusal,
        >(FileDropRefusal::ReusedEpoch) && after == history.last(),
        later == earlier ==> outcome == Ok::<FileDropGrant, FileDropRefusal>(given) && after
            == history.last(),
        later.producer_epoch > earlier.producer_epoch && later.destination is Some ==> (
        outcome matches Ok(grant) ==> grant.grant_generation > given.grant_generation),
{
    let key = requested_key(session, earlier);
    lemma_epoch_stays(history, key, (earlier, given));
    assert forall|i: int| 0 <= i < history.len() - 1 implies session_kept(
        #[trigger] history[i],
        history[i + 1],
        session,
    ) by {
        assert(surface_kept(history[i], history[i + 1], key));
    }
    lemma_generations_grow(history, session);
}

/// Expiring a second time at the same moment changes nothing more, as long as results are kept for
/// some time.
pub proof fn expiry_is_idempotent(
    offers: Map<OwnedId, OfferEntry>,
    transfers: Map<OwnedId, TransferEntry>,
    now_us: u64,
)
    requires
        transfers_linked(offers, transfers),
    ensures
        ({
            let once = expired_offers(offers, transfers, now_us);
            let kept_transfers = expired_transfers(offers, transfers, now_us);
            &&& expired_offers(once, kept_transfers, now_us) == once
            &&& expired_transfers(once, kept_transfers, now_us) == kept_transfers
        }),
{
    let once = expired_offers(offers, transfers, now_us);
    let kept_transfers = expired_transfers(offers, transfers, now_us);
    assert(expired_offers(once, kept_transfers, now_us) =~= once);
    assert forall|key: OwnedId| #[trigger] kept_transfers.contains_key(key) implies !retired(
        once[drop_of(key, kept_transfers[key])],
        now_us,
    ) by {
        assert(transfers.contains_key(key));
        assert(offers.contains_key(drop_of(key, transfers[key])));
        assert(once.contains_key(drop_of(key, transfers[key])));
    }
    assert(expired_transfers(once, kept_transfers, now_us) =~= kept_transfers);
}

/// Once a transfer was advanced, reports and losses of its older generation change nothing.
pub proof fn an_advanced_transfer_ignores_its_old_generation(
    transfers: Map<OwnedId, TransferEntry>,
    session: SessionIdentity,
    advance: AdvanceFileTransfer,
    result: FileResult,
)
    requires
        transfers.contains_key(OwnedId { session, id: advance.transfer_id }),
        advance.new_generation == advance.expected_generation + 1,
        result.transfer_id == advance.transfer_id,
        result.transfer_generation == advance.expected_generation,
    ensures
        ({
            let key = OwnedId { session, id: advance.transfer_id };
            let later = transfers.insert(key, advanced_transfer(transfers[key], advance));
            !report_current(later, session, result)
        }),
{
}

/// A drop is told as it ended: committed only where its transfer's result is that the file is at
/// its destination, cancelled where the result says so, and failed for every other result. A drop
/// that has not ended is never told as committed or failed.
pub proof fn a_drop_is_told_as_it_ended(
    manager: &mut FileDropManager,
    session: SessionIdentity,
    drop_id: u64,
    now_us: u64,
    r: Result<FileDropStatus, FileDropRefusal>,
)
    requires
        call_ensures(FileDropManager::status, (manager, session, drop_id, now_us), r),
    ensures
        r is Ok <==> final(manager).offers@.contains_key(OwnedId { session, id: drop_id }),
        r matches Ok(status) ==> ({
            let offer = final(manager).offers@[OwnedId { session, id: drop_id }];
            &&& status.drop_id == drop_id
            &&& offer.terminal matches Some(result) ==> {
                &&& status.result == Some(result.result)
                &&& status.transfer_id == result.transfer_id
                &&& status.generation == result.transfer_generation
                &&& status.committed_offset == result.committed_length
                &&& status.final_name@ == result.final_name@
                &&& status.state is Committed <==> (result.result is Committed
                    || result.result is AlreadyCommitted)
                &&& status.state is Cancelled <==> result.result is Cancelled
                &&& status.state is Failed <==> (result.result is Rejected
                    || result.result is HashMismatch || result.result is IoError)
            }
            &&& offer.terminal is None ==> {
                &&& !(status.state is Committed) && !(status.state is Failed)
                &&& status.state is Cancelled <==> offer.cancelled
                &&& status.state is Offered ==> !offer.cancelled
                &&& offer.transfer is None && !offer.cancelled ==> status.state is Offered
                    && status.transfer_id == 0
                &&& status.result is Some <==> offer.cancelled
                &&& offer.transfer matches Some(id) ==> status.transfer_id == id
            }
        }),
{
}

/// What a producer reports of a transfer is what a query tells afterwards, while the result is
/// kept.
pub proof fn a_reported_result_is_told(
    manager: &mut FileDropManager,
    session: SessionIdentity,
    result: FileResult,
    path_negotiated: bool,
    reported_us: u64,
    later: &mut FileDropManager,
    now_us: u64,
    r: Result<FileDropStatus, FileDropRefusal>,
)
    requires
        old(manager).wf(),
        old(manager).transfers@.contains_key(OwnedId { session, id: result.transfer_id }),
        old(manager).transfers@[OwnedId { session, id: result.transfer_id }].generation
            == result.transfer_generation,
        call_ensures(
            FileDropManager::finish_transfer,
            (manager, session, result, path_negotiated, reported_us),
            (),
        ),
        *final(manager) == *old(later),
        call_ensures(
            FileDropManager::status,
            (
                later,
                session,
                old(manager).transfers@[OwnedId { session, id: result.transfer_id }].drop_id,
                now_us,
            ),
            r,
        ),
    ensures
        now_us < reported_us + 60_000_000 ==> r is Ok,
        now_us >= reported_us + 60_000_000 ==> r is Err,
        r matches Ok(status) ==> {
            &&& status.result == Some(result.result)
            &&& status.transfer_id == result.transfer_id
            &&& status.committed_offset == result.committed_length
            &&& status.final_name@ == result.final_name@
            &&& status.state is Committed <==> (result.result is Committed
                || result.result is AlreadyCommitted)
            &&& status.state is Cancelled <==> result.result is Cancelled
        },
{
    let key = OwnedId { session, id: result.transfer_id };
    assert(report_current(old(manager).transfers@, session, result));
    let owner = drop_of(key, old(manager).transfers@[key]);
    assert(final(manager).offers@.contains_key(owner));
}

/// Nothing happens to a drop by itself before its own deadline: no offer is forgotten and none is
/// cancelled while every deadline of it is still to come.
pub proof fn nothing_expires_before_its_time(
    manager: &mut FileDropManager,
    now_us: u64,
    key: OwnedId,
)
    requires
        old(manager).wf(),
        call_ensures(FileDropManager::expire, (manager, now_us), ()),
        old(manager).offers@.contains_key(key),
    ensures
        ({
            let offer = old(manager).offers@[key];
            let open = !offer.cancelled && offer.terminal is None;
            let forgotten = offer.terminal_deadline_us matches Some(deadline) && deadline <= now_us;
            &&& final(manager).offers@.contains_key(key) <==> !forgotten
            &&& !forgotten && !open ==> final(manager).offers@[key] == offer
            &&& !forgotten && open && offer.transfer is None ==> {
                &&& now_us < offer.deadline_us ==> final(manager).offers@[key] == offer
                &&& now_us >= offer.deadline_us ==> final(manager).offers@[key].cancelled && final(manager).offers@[key].source is None
            }
            &&& !forgotten && open && (offer.transfer matches Some(id) && old(manager).transfers@[transfer_of(key, id)].active) ==> final(manager).offers@[key] == offer
            &&& !forgotten ==> final(manager).offers@[key].binding == offer.binding && final(manager).offers@[key].transfer == offer.transfer && final(manager).offers@[key].terminal
                == offer.terminal
        }),
{
}

/// Until the next deadline of a session, no time that passes changes any of its drops.
pub proof fn nothing_happens_before_the_next_deadline(
    manager: &FileDropManager,
    session: SessionIdentity,
    r: Option<u64>,
    now_us: u64,
    key: OwnedId,
)
    requires
        manager.wf(),
        call_ensures(FileDropManager::next_deadline, (manager, session), r),
        r matches Some(first) ==> now_us < first,
        manager.offers@.contains_key(key),
        key.session == session,
        manager.offers@[key].terminal_deadline_us is Some ==> manager.offers@[key].cancelled
            || manager.offers@[key].terminal is Some,
    ensures
        expired_offers(manager.offers@, manager.transfers@, now_us).contains_key(key),
        expired_offers(manager.offers@, manager.transfers@, now_us)[key] == manager.offers@[key],
{
}

/// A drop goes to the binding of the very surface that it hits, where that is in force and of the
/// same generation; otherwise to the binding for the whole target that was activated last; and
/// nowhere where there is none.
pub proof fn a_drop_goes_to_what_it_hits(
    manager: &FileDropManager,
    hit: Option<(SurfaceIdentity, u64)>,
    r: Option<BindingKey>,
    other: BindingKey,
)
    requires
        manager.wf(),
        call_ensures(FileDropManager::effective_binding_key, (manager, hit), r),
        manager.bindings@.contains_key(other),
    ensures
        r matches Some(key) ==> {
            &&& manager.bindings@.contains_key(key)
            &&& key.surface_id == 0 || (hit matches Some((surface, generation)) && key.surface_id
                == surface.surface_id && key.context_id == surface.context.context_id && key.session
                == surface.context.session && manager.bindings@[key].binding.surface_generation
                == generation && manager.bindings@[key].grant.state is Enabled)
        },
        (hit matches Some((surface, generation)) && other.session == surface.context.session
            && other.context_id == surface.context.context_id && other.surface_id
            == surface.surface_id && manager.bindings@[other].binding.surface_generation
            == generation && manager.bindings@[other].grant.state is Enabled) ==> r == Some(other),
        hit is None && other.surface_id == 0 ==> (r matches Some(key)
            && manager.bindings@[key].activation >= manager.bindings@[other].activation),
        hit is None && r == Some(other) ==> other.surface_id == 0,
{
    let bindings = manager.bindings@;
    if hit_binding(bindings, hit) is None {
        if other.surface_id == 0 {
            assert(bindings[other].binding.surface_id == 0);
            lemma_latest_exists(manager.bindings, other);
        }
        if exists|key: BindingKey| latest_target_wide(bindings, key) {
            let key = choose|key: BindingKey| latest_target_wide(bindings, key);
            assert(bindings.contains_key(key));
            assert(bindings[key].binding.surface_id == key.surface_id);
        }
    }
}

/// Among the target-wide bindings of a table one was activated last.
proof fn lemma_latest_exists(bindings: Table<BindingKey, BindingEntry>, some: BindingKey)
    requires
        bindings.wf(),
        bindings@.contains_key(some),
        bindings@[some].binding.surface_id == 0,
    ensures
        exists|key: BindingKey| latest_target_wide(bindings@, key),
    decreases u64::MAX - bindings@[some].activation,
{
    if !latest_target_wide(bindings@, some) {
        let later = choose|other: BindingKey| #[trigger]
            bindings@.contains_key(other) && bindings@[other].binding.surface_id == 0
                && bindings@[other].activation > bindings@[some].activation;
        lemma_latest_exists(bindings, later);
    }
}

/// A local file is offered only to a producer whose binding the user has agreed to, which it fits,
/// and which has fewer offers pending than it was granted. The first drop of a file that fits only
/// asks, and the next one of such a file is no longer asked about.
pub proof fn a_first_drop_only_asks(
    manager: &mut FileDropManager,
    source: Option<FileSource>,
    hit: Option<(SurfaceIdentity, u64)>,
    now_us: u64,
    r: (LocalDropDisposition, Option<(SessionIdentity, FileDropOffer)>),
    key: BindingKey,
)
    requires
        old(manager).wf(),
        call_ensures(FileDropManager::offer_local_file, (manager, source, hit, now_us), r),
        effective_key(old(manager).bindings@, hit) == Some(key),
        old(manager).bindings@.contains_key(key),
    ensures
        ({
            let entry = old(manager).bindings@[key];
            let fits = source matches Some(file) && file.length <= entry.grant.maximum_file_bytes;
            &&& entry.consent is Unconfirmed ==> !(r.0 is Offered) && r.1 is None
            &&& entry.consent is Unconfirmed && fits ==> r.0 is ConsentRequired && final(manager).bindings@[key].consent is ConfirmOnNextDrop
            &&& !(entry.consent is Unconfirmed) && fits ==> final(manager).bindings@[key].consent is Confirmed && !(r.0 is ConsentRequired)
            &&& !fits ==> r.0 is Rejected && final(manager).bindings@[key].consent == entry.consent
            &&& r.0 is Offered ==> fits
            &&& r.1 is Some <==> r.0 is Offered
            &&& r.1 matches Some((session, offer)) ==> {
                &&& session == key.session
                &&& source matches Some(file) && offer.declared_length == file.length
                    && offer.suggested_name@ == file.suggested_name@
                &&& offer.binding.context_id == key.context_id && offer.binding.surface_id
                    == key.surface_id
                &&& offer.binding.producer_epoch == entry.binding.producer_epoch
                &&& offer.binding.grant_generation == entry.grant.grant_generation
                &&& offer.binding.surface_generation == entry.binding.surface_generation
                &&& !old(manager).offers@.contains_key(
                    OwnedId { session, id: offer.binding.drop_id },
                )
                &&& final(manager).offers@.contains_key(
                    OwnedId { session, id: offer.binding.drop_id },
                )
                &&& pending_offers(
                    expired_offers(old(manager).offers@, old(manager).transfers@, now_us),
                    key,
                ) < entry.grant.maximum_pending_offers
            }
        }),
{
    let fresh = OwnedId { session: key.session, id: (old(manager).next_drop_id + 1) as u64 };
    assert(old(manager).next_drop_id < u64::MAX ==> !old(manager).offers@.contains_key(fresh));
}

/// A transfer is made only of the offer that the acceptance names, in full, while that is open, and
/// only within the limits of its grant. Accepting it again gets the same answer and makes no second
/// transfer; accepting it as another transfer is refused.
pub proof fn an_offer_is_accepted_once(
    manager: &mut FileDropManager,
    session: SessionIdentity,
    acceptance: AcceptFileDrop,
    now_us: u64,
    r: Result<FileDropAccepted, FileDropRefusal>,
)
    requires
        old(manager).wf(),
        call_ensures(FileDropManager::accept, (manager, session, acceptance, now_us), r),
    ensures
        r matches Ok(accepted) ==> ({
            let owner = OwnedId { session, id: acceptance.binding.drop_id };
            let key = BindingKey {
                session,
                context_id: acceptance.binding.context_id,
                surface_id: acceptance.binding.surface_id,
            };
            let before = old(manager).offers@[owner];
            let offer = final(manager).offers@[owner];
            let transfer = final(manager).transfers@[OwnedId {
                session,
                id: acceptance.transfer_id,
            }];
            &&& old(manager).offers@.contains_key(owner) && final(manager).offers@.contains_key(
                owner,
            )
            &&& before.binding == acceptance.binding
            &&& !offer.cancelled && offer.terminal is None
            &&& offer.transfer == Some(acceptance.transfer_id)
            &&& before.transfer is None || before.transfer == Some(acceptance.transfer_id)
            &&& accepted.drop_id == acceptance.binding.drop_id
            &&& accepted.transfer_id == acceptance.transfer_id
            &&& accepted.transfer_generation == acceptance.transfer_generation
            &&& final(manager).bindings@.contains_key(key) && accepted.open_timeout_us == final(manager).bindings@[key].grant.idle_timeout_us
            &&& before.transfer is None ==> {
                &&& transfer.drop_id == acceptance.binding.drop_id
                &&& transfer.generation == acceptance.transfer_generation
                &&& transfer.committed_offset == 0
                &&& !transfer.active
                &&& transfer.maximum_record_body == acceptance.maximum_record_body
                &&& transfer.maximum_body_bytes == acceptance.initial_maximum_body_bytes
                &&& transfer.maximum_records == acceptance.initial_maximum_records
                &&& acceptance.maximum_record_body <= final(manager).bindings@[key].grant.maximum_record_body
                &&& !old(manager).transfers@.contains_key(
                    OwnedId { session, id: acceptance.transfer_id },
                ) || retired(
                    old(manager).offers@[drop_of(
                        OwnedId { session, id: acceptance.transfer_id },
                        old(manager).transfers@[OwnedId { session, id: acceptance.transfer_id }],
                    )],
                    now_us,
                )
            }
        }),
        r is Err ==> final(manager).offers@ == expired_offers(
            old(manager).offers@,
            old(manager).transfers@,
            now_us,
        ) && final(manager).transfers@ == expired_transfers(
            old(manager).offers@,
            old(manager).transfers@,
            now_us,
        ),
{
    let owner = OwnedId { session, id: acceptance.binding.drop_id };
    if r is Ok {
        let before = old(manager).offers@[owner];
        assert(old(manager).offers@.contains_key(owner));
        assert(!timed_out(owner, before, old(manager).transfers@, now_us));
    }
}

/// A transfer is continued only by the very next generation, and only from an offset that its
/// source has; afterwards only that generation may read the source, and a connection has to be
/// opened anew.
pub proof fn an_advance_is_to_the_next_generation(
    manager: &mut FileDropManager,
    session: SessionIdentity,
    advance: AdvanceFileTransfer,
    now_us: u64,
    r: Result<FileTransferAdvanced, FileDropRefusal>,
)
    requires
        old(manager).wf(),
        call_ensures(FileDropManager::advance, (manager, session, advance, now_us), r),
    ensures
        r matches Ok(advanced) ==> ({
            let key = OwnedId { session, id: advance.transfer_id };
            let before = old(manager).transfers@[key];
            let transfer = final(manager).transfers@[key];
            let owner = OwnedId { session, id: advance.drop_id };
            &&& old(manager).transfers@.contains_key(key)
            &&& before.drop_id == advance.drop_id
            &&& before.context_id == advance.context_id && before.surface_id == advance.surface_id
            &&& before.generation == advance.expected_generation
            &&& transfer.generation == before.generation + 1
            &&& advance.new_generation == advance.expected_generation + 1
            &&& advanced.generation == transfer.generation
            &&& advanced.transfer_id == advance.transfer_id
            &&& advanced.committed_offset == advance.committed_offset
            &&& transfer.committed_offset == advance.committed_offset
            &&& transfer.maximum_body_bytes == advance.maximum_body_bytes
            &&& transfer.maximum_records == advance.maximum_records
            &&& transfer.maximum_record_body == before.maximum_record_body
            &&& !transfer.active
            &&& old(manager).offers@[owner].source matches Some(source) && advance.committed_offset
                <= source.length
            &&& final(manager).offers@[owner].source matches Some(source) && source.generation
                == transfer.generation
        }),
        r is Err && r != Err::<FileTransferAdvanced, FileDropRefusal>(FileDropRefusal::BindingGone)
            ==> *final(manager) == *old(manager),
{
}

/// A connection carries the transfer that it opens, and no other: it agrees with it in every field,
/// and no second connection is opened while it is up. It reads the source of the drop.
pub proof fn a_connection_opens_its_own_transfer(
    manager: &mut FileDropManager,
    session: SessionIdentity,
    open: &FileTransferOpen,
    now_us: u64,
    r: Result<(u64, u64), FileDropRefusal>,
    again: &mut FileDropManager,
    second: Result<(u64, u64), FileDropRefusal>,
)
    requires
        old(manager).wf(),
        call_ensures(FileDropManager::begin_transfer, (manager, session, open, now_us), r),
        *final(manager) == *old(again),
        call_ensures(FileDropManager::begin_transfer, (again, session, open, now_us), second),
    ensures
        r is Ok ==> second is Err,
        r matches Ok((handle, length)) ==> ({
            let key = OwnedId { session, id: open.transfer_id };
            let owner = OwnedId { session, id: open.drop_id };
            let before = old(manager).transfers@[key];
            let offer = old(manager).offers@[owner];
            &&& old(manager).transfers@.contains_key(key) && !before.active
            &&& final(manager).transfers@[key].active
            &&& before.drop_id == open.drop_id && before.generation == open.transfer_generation
                && before.committed_offset == open.resume_offset
            &&& before.context_id == open.context_id && before.surface_id == open.surface_id
            &&& before.maximum_record_body == open.maximum_record_body && before.maximum_body_bytes
                == open.maximum_body_bytes && before.maximum_records == open.maximum_records
            &&& old(manager).offers@.contains_key(owner)
            &&& offer.binding.producer_epoch == open.producer_epoch
            &&& offer.binding.grant_generation == open.grant_generation
            &&& offer.binding.surface_generation == open.surface_generation
            &&& !offer.cancelled && offer.terminal is None
            &&& offer.source matches Some(source) && source.handle == handle && source.length
                == length
        }),
{
    let key = OwnedId { session, id: open.transfer_id };
    let owner = OwnedId { session, id: open.drop_id };
    if r is Ok {
        assert(old(manager).offers@.contains_key(owner));
        assert(final(manager).transfers@.contains_key(key));
    }
}

/// A cancelled drop loses its source and is told as cancelled, and its connection is down. Only the
/// drop that the cancellation names in full is cancelled.
pub proof fn a_cancelled_drop_is_told_as_cancelled(
    manager: &mut FileDropManager,
    session: SessionIdentity,
    cancellation: CancelFileDrop,
    cancelled_us: u64,
    r: Result<(), FileDropRefusal>,
    later: &mut FileDropManager,
    now_us: u64,
    told: Result<FileDropStatus, FileDropRefusal>,
)
    requires
        old(manager).wf(),
        call_ensures(FileDropManager::cancel, (manager, session, cancellation, cancelled_us), r),
        *final(manager) == *old(later),
        call_ensures(
            FileDropManager::status,
            (later, session, cancellation.binding.drop_id, now_us),
            told,
        ),
    ensures
        ({
            let owner = OwnedId { session, id: cancellation.binding.drop_id };
            let offer = old(manager).offers@[owner];
            &&& r is Ok <==> old(manager).offers@.contains_key(owner) && offer.binding
                == cancellation.binding
            &&& r is Ok ==> final(manager).offers@[owner].source is None
            &&& r is Ok ==> (offer.transfer matches Some(id) ==> !final(manager).transfers@[OwnedId { session, id }].active)
            &&& r is Ok && offer.terminal is None && told is Ok ==> told->Ok_0.state is Cancelled
                && told->Ok_0.result == Some(FileResultCode::Cancelled)
            &&& r is Ok && now_us < cancelled_us + 60_000_000 ==> told is Ok
            &&& r is Err ==> *final(manager) == *old(manager)
        }),
{
}

/// A path is pasted only where the file reached a shell's directory, the producer may tell the
/// path, and it told one; nothing is pasted twice.
pub proof fn a_path_is_pasted_only_for_a_committed_file(
    manager: &mut FileDropManager,
    session: SessionIdentity,
    result: FileResult,
    path_negotiated: bool,
    now_us: u64,
)
    requires
        old(manager).wf(),
        call_ensures(
            FileDropManager::finish_transfer,
            (manager, session, result, path_negotiated, now_us),
            (),
        ),
    ensures
        final(manager).pending_pastes@ == old(manager).pending_pastes@ || (path_negotiated && (
        result.result is Committed || result.result is AlreadyCommitted)
            && result.committed_path is Some && final(manager).pending_pastes@.len() == old(manager).pending_pastes@.len() + 1 && final(manager).pending_pastes@.last()@
            == result.committed_path->Some_0@.push(' ')),
        ({
            let key = OwnedId { session, id: result.transfer_id };
            let transfer = old(manager).transfers@[key];
            let binding = BindingKey {
                session,
                context_id: transfer.context_id,
                surface_id: transfer.surface_id,
            };
            old(manager).transfers@.contains_key(key) && transfer.generation
                == result.transfer_generation && path_negotiated && (result.result is Committed
                || result.result is AlreadyCommitted) && result.committed_path is Some && old(manager).bindings@.contains_key(binding) && old(manager).bindings@[binding].binding.destination == Some(FileDropDestination::ShellCwd)
                ==> final(manager).pending_pastes@.len() == old(manager).pending_pastes@.len() + 1
        }),
{
}

/// Once the connection of a transfer is lost, the transfer may be opened anew until the idle time
/// of its grant is over. The loss of an older connection changes nothing.
pub proof fn a_lost_connection_may_be_opened_anew(
    manager: &mut FileDropManager,
    session: SessionIdentity,
    transfer_id: u64,
    generation: u64,
    now_us: u64,
)
    requires
        old(manager).wf(),
        call_ensures(
            FileDropManager::connection_lost,
            (manager, session, transfer_id, generation, now_us),
            (),
        ),
    ensures
        ({
            let key = OwnedId { session, id: transfer_id };
            let before = old(manager).transfers@[key];
            let transfer = final(manager).transfers@[key];
            let binding = BindingKey {
                session,
                context_id: before.context_id,
                surface_id: before.surface_id,
            };
            let known = old(manager).transfers@.contains_key(key);
            &&& !known || before.generation != generation ==> final(manager).transfers@ == old(manager).transfers@
            &&& known && before.generation == generation ==> {
                &&& !transfer.active
                &&& transfer.generation == before.generation
                &&& transfer.committed_offset == before.committed_offset
                &&& old(manager).bindings@.contains_key(binding) && now_us + old(manager).bindings@[binding].grant.idle_timeout_us <= u64::MAX ==> transfer.deadline_us
                    == now_us + old(manager).bindings@[binding].grant.idle_timeout_us
            }
            &&& final(manager).offers == old(manager).offers
        }),
{
}

/// What a session is granted is an answer to its own request: no destination turns a binding off,
/// a presenter that does not allow it denies it, and a grant that is in force is of a later
/// generation than every one before. An epoch that is past, or used for other fields, is refused.
pub proof fn a_binding_is_granted_as_it_was_asked(
    manager: &mut FileDropManager,
    session: SessionIdentity,
    binding: FileDropBinding,
    allow: bool,
    r: Result<FileDropGrant, FileDropRefusal>,
)
    requires
        old(manager).wf(),
        call_ensures(FileDropManager::set_binding, (manager, session, binding, allow), r),
    ensures
        ({
            let key = BindingKey {
                session,
                context_id: binding.context_id,
                surface_id: binding.surface_id,
            };
            let known = old(manager).binding_epochs@.contains_key(key);
            let previous = old(manager).binding_epochs@[key].0;
            &&& !binding_valid(binding) ==> r is Err
            &&& known && binding.producer_epoch < previous.producer_epoch ==> r is Err
            &&& known && binding.producer_epoch == previous.producer_epoch && binding != previous
                ==> r is Err
            &&& r is Err ==> final(manager).binding_epochs@ == old(manager).binding_epochs@
            &&& r is Ok && (!known || previous.producer_epoch < binding.producer_epoch) ==> {
                let grant = r->Ok_0;
                &&& grant.producer_epoch == binding.producer_epoch
                &&& grant.context_id == binding.context_id && grant.surface_id == binding.surface_id
                &&& grant.surface_generation == binding.surface_generation
                &&& grant.state is Disabled <==> binding.destination is None
                &&& grant.state is Enabled <==> binding.destination is Some && allow
                &&& grant.state is Denied <==> binding.destination is Some && !allow
                &&& binding.destination is Some ==> grant.destination == binding.destination
                    && grant.maximum_file_bytes == binding.maximum_file_bytes
                    && grant.maximum_pending_offers == binding.maximum_pending_offers
                    && grant.maximum_active_transfers == binding.maximum_active_transfers
                    && grant.maximum_record_body == binding.maximum_record_body
                    && grant.idle_timeout_us == binding.idle_timeout_us
                    && grant.acceptance_timeout_us == binding.acceptance_timeout_us
                &&& grant.state is Enabled ==> final(manager).bindings@.contains_key(key) && final(manager).bindings@[key].grant == grant && final(manager).bindings@[key].binding == binding
                    && final(manager).bindings@[key].consent is Unconfirmed
                &&& grant.state is Disabled ==> !final(manager).bindings@.contains_key(key)
                &&& final(manager).binding_epochs@[key] == (binding, grant)
            }
        }),
{
}

/// What is taken away with contexts is what lies in one of them, of this session. Everything else
/// stays as it was.
pub proof fn contexts_take_their_drops_along(
    manager: &mut FileDropManager,
    session: SessionIdentity,
    contexts: &Vec<u64>,
    binding: BindingKey,
    drop: OwnedId,
)
    requires
        call_ensures(FileDropManager::remove_contexts, (manager, session, contexts), ()),
    ensures
        final(manager).bindings@.contains_key(binding) <==> old(manager).bindings@.contains_key(binding)
            && !(binding.session == session && contexts@.contains(binding.context_id)),
        final(manager).bindings@.contains_key(binding) ==> final(manager).bindings@[binding] == old(manager).bindings@[binding],
        final(manager).offers@.contains_key(drop) <==> old(manager).offers@.contains_key(drop) && !(
        drop.session == session && contexts@.contains(old(manager).offers@[drop].binding.context_id)),
        final(manager).offers@.contains_key(drop) ==> final(manager).offers@[drop] == old(manager).offers@[drop],
        final(manager).transfers@.contains_key(drop) <==> old(manager).transfers@.contains_key(drop) && !(
        drop.session == session && contexts@.contains(old(manager).transfers@[drop].context_id)),
        final(manager).pending_pastes == old(manager).pending_pastes,
{
}

/// What is taken away with a surface is what was bound to that surface, of this session. Everything
/// else stays as it was.
pub proof fn a_surface_takes_its_drops_along(
    manager: &mut FileDropManager,
    session: SessionIdentity,
    context_id: u64,
    surface_id: u64,
    binding: BindingKey,
    drop: OwnedId,
)
    requires
        call_ensures(FileDropManager::remove_surface, (manager, session, context_id, surface_id), ()),
    ensures
        final(manager).bindings@.contains_key(binding) <==> old(manager).bindings@.contains_key(binding)
            && !(binding.session == session && binding.context_id == context_id
            && binding.surface_id == surface_id),
        final(manager).bindings@.contains_key(binding) ==> final(manager).bindings@[binding] == old(manager).bindings@[binding],
        final(manager).offers@.contains_key(drop) <==> old(manager).offers@.contains_key(drop) && !(
        drop.session == session && old(manager).offers@[drop].binding.context_id == context_id && old(manager).offers@[drop].binding.surface_id == surface_id),
        final(manager).transfers@.contains_key(drop) <==> old(manager).transfers@.contains_key(drop) && !(
        drop.session == session && old(manager).transfers@[drop].context_id == context_id && old(manager).transfers@[drop].surface_id == surface_id),
        final(manager).pending_pastes == old(manager).pending_pastes,
{
}

/// A file that hovers is told where it would go: nowhere where nothing takes it, and otherwise to what
/// the binding that takes it names.
pub proof fn a_hovering_file_is_told_where_it_would_go(
    manager: &FileDropManager,
    hit: Option<(SurfaceIdentity, u64)>,
    r: Option<&'static str>,
)
    requires
        call_ensures(FileDropManager::hover_label, (manager, hit), r),
    ensures
        effective_key(manager.bindings@, hit) is None ==> r is None,
        effective_key(manager.bindings@, hit) matches Some(key) ==> match manager.bindings@[key].binding.destination {
            None => r is None,
            Some(FileDropDestination::ShellCwd) => r is Some && r->0@ == "Copy to remote shell"@,
            Some(FileDropDestination::DesktopFolder) => r is Some && r->0@ == "Copy to remote desktop"@,
        },
{
}

/// What is to be pasted is handed out once.
pub proof fn a_paste_is_handed_out_once(
    manager: &mut FileDropManager,
    again: &mut FileDropManager,
    first: Vec<String>,
    second: Vec<String>,
)
    requires
        call_ensures(FileDropManager::take_pending_pastes, (manager,), first),
        *old(again) == *final(manager),
        call_ensures(FileDropManager::take_pending_pastes, (again,), second),
    ensures
        first@ == old(manager).pending_pastes@,
        second@.len() == 0,
        final(again).offers == old(manager).offers,
{
}

/// A session is handed its own notices, each of them, and nobody else's. The others are kept.
pub proof fn a_session_gets_its_own_notices(
    notices: Seq<(SessionIdentity, CancelFileDrop)>,
    session: SessionIdentity,
)
    ensures
        forall|i: int|
            0 <= i < notices.len() && (#[trigger] notices[i]).0 == session ==> notices_to(
                notices,
                session,
            ).contains(notices[i].1),
        forall|i: int|
            0 <= i < notices.len() && (#[trigger] notices[i]).0 != session ==> notices_outside(
                notices,
                session,
                Scope::Session,
            ).contains(notices[i]),
        forall|i: int|
            0 <= i < notices_outside(notices, session, Scope::Session).len() ==> (
            #[trigger] notices_outside(notices, session, Scope::Session)[i]).0 != session,
        notices_to(notices, session).len() + notices_outside(notices, session, Scope::Session).len()
            == notices.len(),
    decreases notices.len(),
{
    if notices.len() > 0 {
        let earlier = notices.drop_last();
        a_session_gets_its_own_notices(earlier, session);
        let front = notices_to(earlier, session);
        let rest = notices_outside(earlier, session, Scope::Session);
        let got = notices_to(notices, session);
        let left = notices_outside(notices, session, Scope::Session);
        assert forall|i: int| 0 <= i < notices.len() && (#[trigger] notices[i]).0 == session implies
            got.contains(notices[i].1) by {
            if i < earlier.len() {
                assert(earlier[i] == notices[i]);
                assert(front.contains(notices[i].1));
                let j = front.index_of(notices[i].1);
                assert(got[j] == notices[i].1);
            } else {
                assert(got[got.len() - 1] == notices[i].1);
            }
        }
        assert forall|i: int| 0 <= i < notices.len() && (#[trigger] notices[i]).0 != session implies
            left.contains(notices[i]) by {
            if i < earlier.len() {
                assert(earlier[i] == notices[i]);
                assert(rest.contains(notices[i]));
                let j = rest.index_of(notices[i]);
                assert(left[j] == notices[i]);
            } else {
                assert(left[left.len() - 1] == notices[i]);
            }
        }
        assert forall|i: int| 0 <= i < left.len() implies (#[trigger] left[i]).0 != session by {
            if i < rest.len() {
                assert(left[i] == rest[i]);
            }
        }
    }
}

/// A drop that runs out of time is told to its own session, under its own name, as timed out.
pub proof fn a_timed_out_drop_is_told_to_its_session(key: OwnedId, offer: OfferEntry)
    ensures
        timeout_notice(key, offer).0 == key.session,
        timeout_notice(key, offer).1.binding == offer.binding,
        timeout_notice(key, offer).1.reason == 1,
{
}

} // verus!
