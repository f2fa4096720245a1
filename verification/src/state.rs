//! The state machine of a single lot, stated over views.
//!
//! Each transition is a pair of spec functions: one says when the transition
//! is legal, the other what the lot is afterwards. The executable methods of
//! `Upl` are proved against them.

use crate::luhn::spec_valid_id;
use crate::time::Timestamp;
use crate::upl::{
    CreatedBy, DepreciationView, HistoryEventView, HistoryItemView, KindView, LocationView,
    LockView, UplView,
};
use crate::vat::{lemma_share_is_close, lemma_share_of_all, round_div, spec_share, VAT};
use vstd::prelude::*;

verus! {

/// Whether a lot held by `lock` may move to `to`: an unlocked lot moves
/// anywhere but to discard, a lot locked to a cart or a delivery moves only
/// into that cart or delivery, and a lot under inventory moves only to
/// discard.
pub open spec fn spec_can_move(lock: LockView, to: LocationView) -> bool {
    match to {
        LocationView::Stock(_) => lock is NoLock,
        LocationView::Delivery(id) => match lock {
            LockView::NoLock => true,
            LockView::Delivery(own) => own == id,
            _ => false,
        },
        LocationView::Cart(id) => match lock {
            LockView::NoLock => true,
            LockView::Cart(own) => own == id,
            _ => false,
        },
        LocationView::Discard(_) => lock is Inventory,
    }
}

/// The identifiers of `ids` that are not `id`, in their order.
pub open spec fn without(ids: Seq<Seq<char>>, id: Seq<char>) -> Seq<Seq<char>>
    decreases ids.len(),
{
    if ids.len() == 0 {
        ids
    } else if ids.last() == id {
        without(ids.drop_last(), id)
    } else {
        without(ids.drop_last(), id).push(ids.last())
    }
}

/// Whether every identifier of the list is valid.
pub open spec fn all_valid_ids(ids: Seq<Seq<char>>) -> bool {
    forall|i: int| 0 <= i < ids.len() ==> spec_valid_id(#[trigger] ids[i])
}

impl UplView {
    /// Whether anything holds the lot.
    pub open spec fn has_lock(self) -> bool {
        !(self.lock is NoLock)
    }

    /// The stock-keeping unit of the lot.
    pub open spec fn sku(self) -> u32 {
        match self.kind {
            KindView::Sku { sku } => sku,
            KindView::BulkSku { sku, .. } => sku,
            KindView::OpenedSku { sku, .. } => sku,
            KindView::DerivedProduct { derived_from_sku, .. } => derived_from_sku,
        }
    }

    /// How many units the lot holds: the pieces of a bulk, else one.
    pub open spec fn pieces(self) -> u32 {
        match self.kind {
            KindView::BulkSku { upl_pieces, .. } => upl_pieces,
            _ => 1,
        }
    }

    /// Whether the lot is in its original package.
    pub open spec fn is_original(self) -> bool {
        self.kind is Sku || self.kind is BulkSku
    }

    /// Whether something can be portioned out of the lot: a single unit whose
    /// stock-keeping unit is divisible into more than one sub-unit, or an
    /// opened lot of which more than one sub-unit remains.
    pub open spec fn is_divisible(self) -> bool {
        match self.kind {
            KindView::Sku { .. } => self.sku_divisible_amount > 1 && self.sku_divisible,
            KindView::BulkSku { .. } => false,
            KindView::OpenedSku { amount, .. } => amount > 1,
            KindView::DerivedProduct { .. } => false,
        }
    }

    /// The amount that can still be portioned out, for a single unit and for
    /// an opened lot.
    pub open spec fn divisible_amount(self) -> Option<u32> {
        match self.kind {
            KindView::Sku { .. } => Some(self.sku_divisible_amount),
            KindView::BulkSku { .. } => None,
            KindView::OpenedSku { amount, .. } => Some(amount),
            KindView::DerivedProduct { .. } => None,
        }
    }

    /// Whether the amounts of the kind are in order: a bulk holds two units
    /// or more, and of an opened lot and of a portion there is one sub-unit
    /// or more.
    pub open spec fn kind_in_order(self) -> bool {
        match self.kind {
            KindView::Sku { .. } => true,
            KindView::BulkSku { upl_pieces, .. } => upl_pieces >= 2,
            KindView::OpenedSku { amount, .. } => amount >= 1,
            KindView::DerivedProduct { amount, .. } => amount >= 1,
        }
    }

    /// The net retail price that the lot has by its kind: the price of the
    /// stock-keeping unit, or, for an opened lot and for a portion, the share
    /// of it that belongs to the amount.
    pub open spec fn expected_price_net(self) -> u32 {
        match self.kind {
            KindView::Sku { .. } => self.sku_price_net,
            KindView::BulkSku { .. } => self.sku_price_net,
            KindView::OpenedSku { amount, .. } => spec_share(
                amount,
                self.sku_divisible_amount,
                self.sku_price_net,
            ),
            KindView::DerivedProduct { amount, .. } => spec_share(
                amount,
                self.sku_divisible_amount,
                self.sku_price_net,
            ),
        }
    }

    /// The procurement price that the lot has by its kind, by the same rule
    /// as the net retail price.
    pub open spec fn expected_procurement_net_price(self) -> u32 {
        match self.kind {
            KindView::Sku { .. } => self.procurement_net_price_sku,
            KindView::BulkSku { .. } => self.procurement_net_price_sku,
            KindView::OpenedSku { amount, .. } => spec_share(
                amount,
                self.sku_divisible_amount,
                self.procurement_net_price_sku,
            ),
            KindView::DerivedProduct { amount, .. } => spec_share(
                amount,
                self.sku_divisible_amount,
                self.procurement_net_price_sku,
            ),
        }
    }

    /// The lot with its four derived prices computed anew.
    pub open spec fn recalculated(self) -> UplView {
        let price_net = self.expected_price_net();
        let procurement_net_price = self.expected_procurement_net_price();
        UplView {
            price_net,
            price_gross: self.vat.spec_gross(price_net),
            procurement_net_price,
            margin_net: (price_net - procurement_net_price) as i64,
            ..self
        }
    }

    /// Whether the derived prices of the lot are what its kind, amount,
    /// prices and tax class give: the gross price is the net price with tax,
    /// and the margin is the net price less the procurement price.
    pub open spec fn priced(self) -> bool {
        &&& self.price_net == self.expected_price_net()
        &&& self.procurement_net_price == self.expected_procurement_net_price()
        &&& self.price_gross == self.vat.spec_gross(self.price_net)
        &&& self.margin_net == self.price_net - self.procurement_net_price
    }

    /// The lot with one more entry at the end of its history.
    pub open spec fn logged(
        self,
        event: HistoryEventView,
        by: CreatedBy,
        at: Timestamp,
    ) -> UplView {
        UplView {
            history: self.history.push(HistoryItemView { event, created_at: at, created_by: by }),
            ..self
        }
    }

    /// The kind of a new lot: an opened lot with `piece` as the remaining
    /// amount, a bulk of `piece` units where that is more than one, else a
    /// single unit.
    pub open spec fn initial_kind(sku: u32, piece: u32, is_opened: bool) -> KindView {
        if is_opened {
            KindView::OpenedSku { sku, amount: piece, successors: Seq::empty() }
        } else if piece > 1 {
            KindView::BulkSku { sku, upl_pieces: piece }
        } else {
            KindView::Sku { sku }
        }
    }

    /// A new lot, created by `created_by` at the instant `at`: where it was
    /// put, unlocked, not depreciated, with its creation as the one entry of
    /// its history and with its prices computed.
    pub open spec fn created(
        id: Seq<char>,
        product_id: u32,
        product_unit: Seq<char>,
        sku: u32,
        piece: u32,
        sku_divisible_amount: u32,
        sku_divisible: bool,
        sku_price_net: u32,
        vat: VAT,
        procurement_id: u32,
        procurement_net_price_sku: u32,
        location: LocationView,
        best_before: Option<Timestamp>,
        is_opened: bool,
        created_by: u32,
        at: Timestamp,
    ) -> UplView {
        UplView {
            id,
            product_id,
            sku_divisible_amount,
            product_unit,
            kind: UplView::initial_kind(sku, piece, is_opened),
            procurement_id,
            procurement_net_price: 0,
            procurement_net_price_sku,
            margin_net: 0,
            location,
            depreciation: None,
            best_before,
            sku_divisible,
            sku_price_net,
            price_net: 0,
            vat,
            price_gross: 0,
            lock: LockView::NoLock,
            history: seq![
                HistoryItemView {
                    event: HistoryEventView::Created,
                    created_at: at,
                    created_by: CreatedBy::Uid(created_by),
                },
            ],
            created_at: at,
            created_by,
        }.recalculated()
    }

    /// The lot that stands for no lot: a single unit of stock-keeping unit
    /// zero in stock zero, with no identifier, no prices and no history.
    pub open spec fn blank(at: Timestamp) -> UplView {
        UplView {
            id: Seq::empty(),
            product_id: 0,
            sku_divisible_amount: 1,
            product_unit: Seq::empty(),
            kind: KindView::Sku { sku: 0 },
            procurement_id: 0,
            procurement_net_price: 0,
            procurement_net_price_sku: 0,
            margin_net: 0,
            location: LocationView::Stock(0),
            depreciation: None,
            best_before: None,
            sku_divisible: false,
            sku_price_net: 0,
            price_net: 0,
            vat: VAT::_27,
            price_gross: 0,
            lock: LockView::NoLock,
            history: Seq::empty(),
            created_at: at,
            created_by: 0,
        }
    }

    /// Whether the lot may move to `to`.
    pub open spec fn can_move(self, to: LocationView) -> bool {
        spec_can_move(self.lock, to)
    }

    /// The lot after a move to `to`: it is there, the move is logged, and the
    /// lock is released by the software.
    pub open spec fn moved(self, to: LocationView, by: u32, at: Timestamp) -> UplView {
        UplView { location: to, ..self }.logged(
            HistoryEventView::Moved { from: self.location, to },
            CreatedBy::Uid(by),
            at,
        ).force_unlocked(at)
    }

    /// Whether the lot can take a lock: nothing holds it.
    pub open spec fn can_lock(self) -> bool {
        self.lock is NoLock
    }

    /// The lot after it was locked by `lock`.
    pub open spec fn locked(self, lock: LockView, by: u32, at: Timestamp) -> UplView {
        UplView { lock, ..self }.logged(HistoryEventView::Locked { to: lock }, CreatedBy::Uid(by), at)
    }

    /// The lot after a user released its lock.
    pub open spec fn unlocked(self, by: u32, at: Timestamp) -> UplView {
        UplView { lock: LockView::NoLock, ..self }.logged(
            HistoryEventView::Unlocked,
            CreatedBy::Uid(by),
            at,
        )
    }

    /// The lot after the software released its lock.
    pub open spec fn force_unlocked(self, at: Timestamp) -> UplView {
        UplView { lock: LockView::NoLock, ..self }.logged(
            HistoryEventView::Unlocked,
            CreatedBy::Technical,
            at,
        )
    }

    /// The lot after `by` set the price of its stock-keeping unit and its tax
    /// class.
    pub open spec fn repriced(
        self,
        sku_price_net: u32,
        vat: VAT,
        by: CreatedBy,
        at: Timestamp,
    ) -> UplView {
        UplView { sku_price_net, vat, ..self }.recalculated().logged(
            HistoryEventView::PriceChanged { sku_price_net, vat },
            by,
            at,
        )
    }

    /// The lot after it was marked as depreciated.
    pub open spec fn depreciated(
        self,
        depreciation_id: u32,
        comment: Seq<char>,
        by: u32,
        at: Timestamp,
    ) -> UplView {
        UplView {
            depreciation: Some(
                DepreciationView {
                    depreciation_id,
                    net_retail_price: None,
                    margin_net: None,
                    comment,
                },
            ),
            ..self
        }.logged(
            HistoryEventView::SetDeprecated { depreciation_id, comment },
            CreatedBy::Uid(by),
            at,
        )
    }

    /// The lot after its depreciation was taken off.
    pub open spec fn undepreciated(self, by: u32, at: Timestamp) -> UplView {
        UplView { depreciation: None, ..self }.logged(
            HistoryEventView::DeprecationRemoved,
            CreatedBy::Uid(by),
            at,
        )
    }

    /// The margin at a special price: the price less the procurement price of
    /// the lot.
    pub open spec fn special_margin(self, net_retail_price: Option<u32>) -> Option<i64> {
        match net_retail_price {
            Some(price) => Some((price - self.procurement_net_price) as i64),
            None => None,
        }
    }

    /// The depreciated lot after its special price was set or cleared.
    pub open spec fn with_depreciation_price(
        self,
        net_retail_price: Option<u32>,
        by: u32,
        at: Timestamp,
    ) -> UplView
        recommends
            self.depreciation is Some,
    {
        UplView {
            depreciation: Some(
                DepreciationView {
                    net_retail_price,
                    margin_net: self.special_margin(net_retail_price),
                    ..self.depreciation->0
                },
            ),
            ..self
        }.logged(
            HistoryEventView::SetDepreciatedPrice { retail_net_price: net_retail_price },
            CreatedBy::Uid(by),
            at,
        )
    }

    /// The lot after its best-before date was set or cleared.
    pub open spec fn with_best_before(
        self,
        best_before: Option<Timestamp>,
        by: u32,
        at: Timestamp,
    ) -> UplView {
        UplView { best_before, ..self }.logged(
            HistoryEventView::BestBeforeUpdated { to: best_before },
            CreatedBy::Uid(by),
            at,
        )
    }

    /// Whether `piece` units can be split off into a lot with the identifier
    /// `new_id`: the lot is an unlocked bulk of more than `piece` units,
    /// `piece` is not zero and the identifier is valid.
    pub open spec fn can_split(self, new_id: Seq<char>, piece: u32) -> bool {
        &&& piece != 0
        &&& !self.has_lock()
        &&& spec_valid_id(new_id)
        &&& self.kind matches KindView::BulkSku { upl_pieces, .. }
        &&& upl_pieces > piece
    }

    /// The bulk after `piece` units were split off.
    pub open spec fn split_parent(
        self,
        new_id: Seq<char>,
        piece: u32,
        by: u32,
        at: Timestamp,
    ) -> UplView
        recommends
            self.can_split(new_id, piece),
    {
        UplView {
            kind: KindView::BulkSku {
                sku: self.sku(),
                upl_pieces: (self.pieces() - piece) as u32,
            },
            ..self
        }.recalculated().logged(
            HistoryEventView::Split { new_upl_id: new_id },
            CreatedBy::Uid(by),
            at,
        )
    }

    /// The lot that was split off: the bulk as it was, under the new
    /// identifier, as a single unit or as a bulk of `piece` units.
    pub open spec fn split_child(self, new_id: Seq<char>, piece: u32) -> UplView {
        UplView {
            id: new_id,
            kind: if piece == 1 {
                KindView::Sku { sku: self.sku() }
            } else {
                KindView::BulkSku { sku: self.sku(), upl_pieces: piece }
            },
            ..self
        }.recalculated()
    }

    /// Whether one unit can be split off for each of the identifiers: all of
    /// them are valid and the lot is an unlocked bulk of more units than
    /// there are identifiers.
    pub open spec fn can_split_bulk(self, new_ids: Seq<Seq<char>>) -> bool {
        &&& all_valid_ids(new_ids)
        &&& !self.has_lock()
        &&& self.kind matches KindView::BulkSku { upl_pieces, .. }
        &&& upl_pieces > new_ids.len()
    }

    /// The bulk after one unit was split off for each identifier in turn.
    pub open spec fn split_bulk_parent(
        self,
        new_ids: Seq<Seq<char>>,
        by: u32,
        at: Timestamp,
    ) -> UplView
        decreases new_ids.len(),
    {
        if new_ids.len() == 0 {
            self
        } else {
            self.split_bulk_parent(new_ids.drop_last(), by, at).split_parent(
                new_ids.last(),
                1,
                by,
                at,
            )
        }
    }

    /// The lots that were split off, one for each identifier in turn.
    pub open spec fn split_bulk_children(
        self,
        new_ids: Seq<Seq<char>>,
        by: u32,
        at: Timestamp,
    ) -> Seq<UplView>
        decreases new_ids.len(),
    {
        if new_ids.len() == 0 {
            Seq::empty()
        } else {
            self.split_bulk_children(new_ids.drop_last(), by, at).push(
                self.split_bulk_parent(new_ids.drop_last(), by, at).split_child(new_ids.last(), 1),
            )
        }
    }

    /// Whether the lot can be opened: an unlocked single unit of a divisible
    /// stock-keeping unit with more than one sub-unit.
    pub open spec fn can_open(self) -> bool {
        &&& self.kind is Sku
        &&& self.sku_divisible
        &&& self.sku_divisible_amount > 1
        &&& !self.has_lock()
    }

    /// The lot after its package was opened: all of it remains.
    pub open spec fn opened(self, at: Timestamp) -> UplView {
        UplView {
            kind: KindView::OpenedSku {
                sku: self.sku(),
                amount: self.sku_divisible_amount,
                successors: Seq::empty(),
            },
            ..self
        }.recalculated().logged(HistoryEventView::Opened, CreatedBy::Technical, at)
    }

    /// Whether the lot can be closed: an unlocked opened lot of which all
    /// remains.
    pub open spec fn can_close(self) -> bool {
        &&& !self.has_lock()
        &&& self.kind matches KindView::OpenedSku { amount, .. }
        &&& amount == self.sku_divisible_amount
    }

    /// The lot after its package was closed: a single unit again.
    pub open spec fn closed(self, at: Timestamp) -> UplView {
        UplView { kind: KindView::Sku { sku: self.sku() }, ..self }.recalculated().logged(
            HistoryEventView::Closed,
            CreatedBy::Technical,
            at,
        )
    }

    /// Whether `amount` sub-units can be portioned out into a lot with the
    /// identifier `new_id`: the lot is unlocked and opened, more than
    /// `amount` remains, `amount` is not zero and the identifier is valid.
    pub open spec fn can_divide(self, new_id: Seq<char>, amount: u32) -> bool {
        &&& amount != 0
        &&& !self.has_lock()
        &&& spec_valid_id(new_id)
        &&& self.kind matches KindView::OpenedSku { amount: remaining, .. }
        &&& remaining > amount
    }

    /// The opened lot after `amount` sub-units were portioned out.
    pub open spec fn divide_parent(
        self,
        new_id: Seq<char>,
        amount: u32,
        by: u32,
        at: Timestamp,
    ) -> UplView
        recommends
            self.can_divide(new_id, amount),
    {
        UplView {
            kind: KindView::OpenedSku {
                sku: self.sku(),
                amount: (self.kind->OpenedSku_amount - amount) as u32,
                successors: self.kind->OpenedSku_successors.push(new_id),
            },
            ..self
        }.recalculated().logged(
            HistoryEventView::Divided { new_upl_id: new_id, requested_amount: amount },
            CreatedBy::Uid(by),
            at,
        )
    }

    /// The portion that came out of the opened lot: the lot as it was, under
    /// the new identifier, created now by `by`, as a portion of `amount`
    /// sub-units that points back to the opened lot.
    pub open spec fn divide_child(
        self,
        new_id: Seq<char>,
        amount: u32,
        by: u32,
        at: Timestamp,
    ) -> UplView {
        UplView {
            id: new_id,
            created_by: by,
            created_at: at,
            kind: KindView::DerivedProduct {
                derived_from: self.id,
                derived_from_sku: self.sku(),
                amount,
            },
            ..self
        }.recalculated()
    }

    /// Whether the portion `child` can go back into the lot: the lot is
    /// opened, the portion came out of it, and neither is depreciated or
    /// locked.
    pub open spec fn can_merge(self, child: UplView) -> bool {
        &&& self.depreciation is None
        &&& child.depreciation is None
        &&& !self.has_lock()
        &&& !child.has_lock()
        &&& self.kind is OpenedSku
        &&& child.kind matches KindView::DerivedProduct { derived_from, .. }
        &&& derived_from == self.id
    }

    /// Whether the amount of the portion `child` and what remains of the lot
    /// fit together in 32 bits.
    pub open spec fn merge_fits(self, child: UplView) -> bool
        recommends
            self.can_merge(child),
    {
        self.kind->OpenedSku_amount + child.kind->DerivedProduct_amount <= u32::MAX
    }

    /// The opened lot after the portion `child` went back into it: the amount
    /// of the portion remains again, and the portion is no successor any
    /// more.
    pub open spec fn merged(self, child: UplView, by: u32, at: Timestamp) -> UplView
        recommends
            self.can_merge(child),
            self.merge_fits(child),
    {
        UplView {
            kind: KindView::OpenedSku {
                sku: self.sku(),
                amount: (self.kind->OpenedSku_amount + child.kind->DerivedProduct_amount) as u32,
                successors: without(self.kind->OpenedSku_successors, child.id),
            },
            ..self
        }.recalculated().logged(
            HistoryEventView::Merged { upl_id: child.id, amount: child.kind->DerivedProduct_amount },
            CreatedBy::Uid(by),
            at,
        )
    }

    /// Whether the lot can be sold as sound goods on the day of `now`: it is
    /// unlocked, not depreciated, in its original package, and its
    /// best-before date, if it has one, is not on an earlier day.
    pub open spec fn healthy_at(self, now: Timestamp) -> bool {
        &&& !self.has_lock()
        &&& self.depreciation is None
        &&& self.is_original()
        &&& match self.best_before {
            Some(best_before) => best_before.spec_on_or_after_day_of(now),
            None => true,
        }
    }

    /// The special net price of a depreciated lot, if one is set.
    pub open spec fn special_price_net(self) -> Option<u32> {
        match self.depreciation {
            Some(d) => d.net_retail_price,
            None => None,
        }
    }

    /// The net price at which the lot is sold: the special price where one is
    /// set, else the net retail price.
    pub open spec fn retail_price_net(self) -> u32 {
        match self.special_price_net() {
            Some(price) => price,
            None => self.price_net,
        }
    }

    /// The gross price at which the lot is sold.
    pub open spec fn retail_price_gross(self) -> u32 {
        match self.special_price_net() {
            Some(price) => self.vat.spec_gross(price),
            None => self.price_gross,
        }
    }

    /// The lot after it came back from the archive, held by `lock`.
    pub open spec fn restored(self, lock: LockView, by: u32, at: Timestamp) -> UplView {
        UplView { lock, ..self }.logged(HistoryEventView::Restored, CreatedBy::Uid(by), at)
    }

    /// The archived lot: the move to the archive is logged.
    pub open spec fn archived(self, at: Timestamp) -> UplView {
        self.logged(HistoryEventView::Archived, CreatedBy::Technical, at)
    }
}

/// What is left of a list of identifiers without `id` holds the identifiers
/// of the list that are not `id`.
pub proof fn lemma_without_contains(ids: Seq<Seq<char>>, id: Seq<char>, other: Seq<char>)
    ensures
        without(ids, id).contains(other) <==> (other != id && ids.contains(other)),
    decreases ids.len(),
{
    if ids.len() > 0 {
        let front = ids.drop_last();
        let rest = without(front, id);
        lemma_without_contains(front, id, other);
        if ids.contains(other) && other != id {
            let i = choose|i: int| 0 <= i < ids.len() && ids[i] == other;
            if i < front.len() {
                assert(front[i] == other);
                assert(front.contains(other));
                let j = choose|j: int| 0 <= j < rest.len() && rest[j] == other;
                assert(without(ids, id)[j] == other);
            } else {
                assert(without(ids, id).last() == other);
            }
        }
        if without(ids, id).contains(other) {
            let j = choose|j: int| 0 <= j < without(ids, id).len() && without(ids, id)[j] == other;
            if j < rest.len() {
                assert(rest[j] == other);
                assert(rest.contains(other));
                let i = choose|i: int| 0 <= i < front.len() && front[i] == other;
                assert(ids[i] == other);
            } else {
                assert(ids[ids.len() - 1] == other);
            }
        }
    }
}

/// The prices of an opened lot follow the remaining amount: as long as the
/// rounded share fits in 32 bits, the net price of the lot is within one unit
/// of `remaining * sku_price_net / sku_divisible_amount`, and its procurement
/// price within one unit of the same share of the procurement price of the
/// stock-keeping unit. Multiplied out by the divisible amount, twice the
/// distance is at most the divisible amount: the prices are off by half a
/// unit at most.
pub proof fn law_opened_prices_follow_amount(lot: UplView)
    requires
        lot.priced(),
        lot.kind is OpenedSku,
        lot.sku_divisible_amount > 0,
        round_div(
            lot.kind->OpenedSku_amount as nat * lot.sku_price_net as nat,
            lot.sku_divisible_amount as nat,
        ) <= u32::MAX,
        round_div(
            lot.kind->OpenedSku_amount as nat * lot.procurement_net_price_sku as nat,
            lot.sku_divisible_amount as nat,
        ) <= u32::MAX,
    ensures
        ({
            let remaining = lot.kind->OpenedSku_amount as int;
            let whole = lot.sku_divisible_amount as int;
            let exact_price = remaining * lot.sku_price_net;
            let exact_cost = remaining * lot.procurement_net_price_sku;
            &&& 2 * (lot.price_net * whole - exact_price) <= whole
            &&& 2 * (exact_price - lot.price_net * whole) <= whole
            &&& 2 * (lot.procurement_net_price * whole - exact_cost) <= whole
            &&& 2 * (exact_cost - lot.procurement_net_price * whole) <= whole
        }),
{
    lemma_share_is_close(lot.kind->OpenedSku_amount, lot.sku_divisible_amount, lot.sku_price_net);
    lemma_share_is_close(
        lot.kind->OpenedSku_amount,
        lot.sku_divisible_amount,
        lot.procurement_net_price_sku,
    );
}

/// Opening a lot, portioning an amount out of it and putting the portion back
/// leaves an opened lot of which all remains and which has no successor. The
/// history has grown by the three events and lost nothing.
pub proof fn law_divide_merge_round_trip(
    lot: UplView,
    new_id: Seq<char>,
    amount: u32,
    by: u32,
    opened_at: Timestamp,
    divided_at: Timestamp,
    merged_at: Timestamp,
)
    requires
        lot.can_open(),
        lot.depreciation is None,
        lot.opened(opened_at).can_divide(new_id, amount),
    ensures
        ({
            let opened = lot.opened(opened_at);
            let parent = opened.divide_parent(new_id, amount, by, divided_at);
            let child = opened.divide_child(new_id, amount, by, divided_at);
            let merged = parent.merged(child, by, merged_at);
            &&& parent.can_merge(child)
            &&& parent.merge_fits(child)
            &&& merged.kind == (KindView::OpenedSku {
                sku: lot.sku(),
                amount: lot.sku_divisible_amount,
                successors: Seq::empty(),
            })
            &&& merged.price_net == lot.sku_price_net
            &&& merged.history.len() == lot.history.len() + 3
            &&& merged.history.take(lot.history.len() as int) == lot.history
            &&& merged.history[lot.history.len() as int].event == HistoryEventView::Opened
            &&& merged.history[lot.history.len() as int + 1].event == (HistoryEventView::Divided {
                new_upl_id: new_id,
                requested_amount: amount,
            })
            &&& merged.history[lot.history.len() as int + 2].event == (HistoryEventView::Merged {
                upl_id: new_id,
                amount,
            })
        }),
{
    let opened = lot.opened(opened_at);
    let parent = opened.divide_parent(new_id, amount, by, divided_at);
    let child = opened.divide_child(new_id, amount, by, divided_at);
    let merged = parent.merged(child, by, merged_at);
    let empty = Seq::<Seq<char>>::empty();
    assert(without(empty.push(new_id), new_id) =~= empty) by {
        assert(empty.push(new_id).drop_last() =~= empty);
        reveal_with_fuel(without, 2);
    }
    lemma_share_of_all(lot.sku_divisible_amount, lot.sku_price_net);
    assert(merged.history.take(lot.history.len() as int) =~= lot.history);
}

/// After a portion went back into its opened lot, the lot has no successor
/// with the identifier of the portion, and every other successor is kept.
pub proof fn law_merge_forgets_the_portion(lot: UplView, child: UplView, by: u32, at: Timestamp)
    requires
        lot.can_merge(child),
    ensures
        !lot.merged(child, by, at).kind->OpenedSku_successors.contains(child.id),
        forall|other: Seq<char>|
            other != child.id ==> (lot.merged(child, by, at).kind->OpenedSku_successors.contains(
                other,
            ) <==> lot.kind->OpenedSku_successors.contains(other)),
{
    let successors = lot.kind->OpenedSku_successors;
    lemma_without_contains(successors, child.id, child.id);
    assert forall|other: Seq<char>| other != child.id implies (without(
        successors,
        child.id,
    ).contains(other) <==> successors.contains(other)) by {
        lemma_without_contains(successors, child.id, other);
    }
}

/// A lot that was locked cannot be locked again: the second lock is refused,
/// whatever it is.
pub proof fn law_second_lock_is_refused(lot: UplView, lock: LockView, by: u32, at: Timestamp)
    requires
        lot.can_lock(),
        !(lock is NoLock),
    ensures
        !lot.locked(lock, by, at).can_lock(),
{
}

/// A locked lot moves only where its lock allows: into the cart or the
/// delivery that it is locked to, or, under inventory, to discard. An
/// unlocked lot moves anywhere but to discard.
pub proof fn law_move_follows_lock(lot: UplView, to: LocationView)
    ensures
        lot.lock matches LockView::Cart(cart) ==> (lot.can_move(to) <==> to == LocationView::Cart(
            cart,
        )),
        lot.lock matches LockView::Delivery(delivery) ==> (lot.can_move(to) <==> to
            == LocationView::Delivery(delivery)),
        lot.lock is Inventory ==> (lot.can_move(to) <==> to is Discard),
        lot.lock is NoLock ==> (lot.can_move(to) <==> !(to is Discard)),
{
}

/// A move consumes the lock: after it nothing holds the lot, and the lot is
/// where it was moved to.
pub proof fn law_move_consumes_lock(lot: UplView, to: LocationView, by: u32, at: Timestamp)
    ensures
        lot.moved(to, by, at).lock is NoLock,
        lot.moved(to, by, at).location == to,
{
}

/// Every transition keeps the prices of a lot in order: where the gross price
/// was the net price with tax and the margin the net price less the
/// procurement price before, they are so afterwards. The transitions that
/// change the kind, the amount or the price of the lot compute the prices
/// anew, so that they are in order afterwards whatever they were before.
pub proof fn law_prices_hold_after_every_transition(
    lot: UplView,
    other: UplView,
    to: LocationView,
    lock: LockView,
    id: Seq<char>,
    text: Seq<char>,
    amount: u32,
    price: Option<u32>,
    date: Option<Timestamp>,
    vat: VAT,
    by: u32,
    at: Timestamp,
)
    ensures
        lot.recalculated().priced(),
        lot.priced() ==> {
            &&& lot.moved(to, by, at).priced()
            &&& lot.locked(lock, by, at).priced()
            &&& lot.unlocked(by, at).priced()
            &&& lot.force_unlocked(at).priced()
            &&& lot.depreciated(amount, text, by, at).priced()
            &&& lot.undepreciated(by, at).priced()
            &&& lot.with_depreciation_price(price, by, at).priced()
            &&& lot.with_best_before(date, by, at).priced()
            &&& lot.archived(at).priced()
            &&& lot.restored(lock, by, at).priced()
        },
        lot.repriced(amount, vat, CreatedBy::Uid(by), at).priced(),
        lot.split_parent(id, amount, by, at).priced(),
        lot.split_child(id, amount).priced(),
        lot.opened(at).priced(),
        lot.closed(at).priced(),
        lot.divide_parent(id, amount, by, at).priced(),
        lot.divide_child(id, amount, by, at).priced(),
        lot.merged(other, by, at).priced(),
{
}

/// Splitting pieces off a bulk loses none: the pieces of the bulk before are
/// the pieces that it keeps and the pieces of the new lot.
pub proof fn law_split_conserves_pieces(
    lot: UplView,
    new_id: Seq<char>,
    piece: u32,
    by: u32,
    at: Timestamp,
)
    requires
        lot.can_split(new_id, piece),
    ensures
        lot.pieces() == lot.split_parent(new_id, piece, by, at).pieces() + lot.split_child(
            new_id,
            piece,
        ).pieces(),
{
}

/// The transitions keep the amounts of the kind in order, with one
/// exception: a bulk of which all units but one were split off stays a bulk,
/// of one unit. A new lot is in order unless it is created opened with
/// nothing in it.
pub proof fn law_kinds_stay_in_order(
    lot: UplView,
    child: UplView,
    new_id: Seq<char>,
    amount: u32,
    by: u32,
    at: Timestamp,
)
    requires
        lot.kind_in_order(),
        child.kind_in_order(),
    ensures
        lot.can_open() ==> lot.opened(at).kind_in_order(),
        lot.can_close() ==> lot.closed(at).kind_in_order(),
        lot.can_divide(new_id, amount) ==> lot.divide_parent(new_id, amount, by, at).kind_in_order()
            && lot.divide_child(new_id, amount, by, at).kind_in_order(),
        lot.can_merge(child) && lot.merge_fits(child) ==> lot.merged(
            child,
            by,
            at,
        ).kind_in_order(),
        lot.can_split(new_id, amount) ==> lot.split_child(new_id, amount).kind_in_order(),
        lot.can_split(new_id, amount) && lot.pieces() - amount >= 2 ==> lot.split_parent(
            new_id,
            amount,
            by,
            at,
        ).kind_in_order(),
        forall|sku: u32, piece: u32, is_opened: bool|
            (is_opened ==> piece >= 1) ==> (UplView {
                kind: #[trigger] UplView::initial_kind(sku, piece, is_opened),
                ..lot
            }).kind_in_order(),
{
}

} // verus!
