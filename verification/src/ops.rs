//! The operations on a single lot.
//!
//! An operation that writes the time into the lot exists twice: the form
//! whose name ends in `_at` takes the instant as an argument and says exactly
//! what the lot is afterwards; the form without it reads the clock and says
//! that the lot is what the first form makes of it at some instant.

use crate::luhn::{is_valid_id, spec_valid_id};
use crate::prelude::{ServiceError, ServiceResult};
use crate::state::{all_valid_ids, spec_can_move, without};
use crate::text::{lemma_views_push, views};
use crate::time::{now, Timestamp};
use crate::upl::{
    CreatedBy, Depreciation, HistoryItemView, Kind, Location, Lock, Upl, UplHistoryEvent,
    UplHistoryItem, UplMethods, UplView,
};
use crate::vat::{share, VAT};
use vstd::prelude::*;

verus! {

impl Upl {
    /// A new lot at the instant `at`. The identifier has to be valid; the kind
    /// follows from `is_opened` and `piece`.
    pub fn new_at(
        upl_id: String,
        product_id: u32,
        product_unit: String,
        sku: u32,
        piece: u32,
        sku_divisible_amount: u32,
        sku_divisible: bool,
        sku_price_net: u32,
        sku_vat: VAT,
        procurement_id: u32,
        procurement_net_price_sku: u32,
        location: Location,
        best_before: Option<Timestamp>,
        is_opened: bool,
        created_by: u32,
        at: Timestamp,
    ) -> (r: ServiceResult<Upl>)
        ensures
            r is Ok <==> spec_valid_id(upl_id@),
            r matches Ok(upl) ==> upl@ == UplView::created(
                upl_id@,
                product_id,
                product_unit@,
                sku,
                piece,
                sku_divisible_amount,
                sku_divisible,
                sku_price_net,
                sku_vat,
                procurement_id,
                procurement_net_price_sku,
                location@,
                best_before,
                is_opened,
                created_by,
                at,
            ),
            r matches Err(e) ==> e is BadRequest,
    {
        if !is_valid_id(upl_id.as_str()) {
            return Err(ServiceError::bad_request("A megadott UPL ID nem valid!"));
        }
        let kind = if is_opened {
            let successors: Vec<String> = Vec::new();
            assert(views(successors@) =~= Seq::<Seq<char>>::empty());
            Kind::OpenedSku { sku, amount: piece, successors }
        } else if piece > 1 {
            Kind::BulkSku { sku, upl_pieces: piece }
        } else {
            Kind::Sku { sku }
        };
        let mut history: Vec<UplHistoryItem> = Vec::new();
        let created = UplHistoryItem::at(CreatedBy::Uid(created_by), UplHistoryEvent::Created, at);
        history.push(created);
        assert(views(history@) =~= seq![created@]);
        let mut upl = Upl {
            id: upl_id,
            product_id,
            sku_divisible_amount,
            product_unit,
            kind,
            procurement_id,
            procurement_net_price: 0,
            procurement_net_price_sku,
            margin_net: 0,
            location,
            depreciation: None,
            best_before,
            sku_divisible,
            sku_price_net,
            price_net: 0,
            vat: sku_vat,
            price_gross: 0,
            lock: Lock::NoLock,
            history,
            created_at: at,
            created_by,
        };
        upl.recalculate_prices();
        Ok(upl)
    }

    /// Appends the entry for `event`, caused by `by` at `at`, to the history.
    pub(crate) fn log(&mut self, event: UplHistoryEvent, by: CreatedBy, at: Timestamp)
        ensures
            final(self)@ == old(self)@.logged(event@, by, at),
    {
        self.set_history(UplHistoryItem::at(by, event, at));
    }

    /// Moves the lot to `to` at the instant `at`, where its lock allows that;
    /// the move consumes the lock.
    pub fn move_upl_at(
        &mut self,
        to: Location,
        created_by: u32,
        at: Timestamp,
    ) -> (r: ServiceResult<()>)
        ensures
            r is Ok <==> old(self)@.can_move(to@),
            r is Ok ==> final(self)@ == old(self)@.moved(to@, created_by, at),
            r is Ok && old(self)@.priced() ==> final(self)@.priced(),
            r matches Err(e) ==> e is BadRequest && final(self)@ == old(self)@,
    {
        if !self.can_move(&to) {
            return Err(ServiceError::bad_request("Cannot move to target location"));
        }
        let from = self.location.clone();
        self.location = to.clone();
        self.log(UplHistoryEvent::Moved { from, to }, CreatedBy::Uid(created_by), at);
        self.unlock_forced_at(at);
        Ok(())
    }

    /// Locks the lot at the instant `at`, where nothing holds it yet.
    pub fn lock_at(&mut self, lock: Lock, created_by: u32, at: Timestamp) -> (r: ServiceResult<()>)
        ensures
            r is Ok <==> old(self)@.can_lock(),
            r is Ok ==> final(self)@ == old(self)@.locked(lock@, created_by, at),
            r is Ok && old(self)@.priced() ==> final(self)@.priced(),
            r matches Err(e) ==> e is BadRequest && final(self)@ == old(self)@,
    {
        if !self.can_lock() {
            return Err(ServiceError::bad_request("Cannot lock! Already locked!"));
        }
        self.lock = lock.clone();
        self.log(UplHistoryEvent::Locked { to: lock }, CreatedBy::Uid(created_by), at);
        Ok(())
    }

    /// Releases the lock of the lot at the instant `at`, where `lock` is the
    /// lock that holds it.
    pub fn unlock_at(
        &mut self,
        lock: Lock,
        created_by: u32,
        at: Timestamp,
    ) -> (r: ServiceResult<()>)
        ensures
            r is Ok <==> old(self)@.lock == lock@,
            r is Ok ==> final(self)@ == old(self)@.unlocked(created_by, at),
            r is Ok && old(self)@.priced() ==> final(self)@.priced(),
            r matches Err(e) ==> e is BadRequest && final(self)@ == old(self)@,
    {
        if self.lock == lock {
            self.lock = Lock::NoLock;
            self.log(UplHistoryEvent::Unlocked, CreatedBy::Uid(created_by), at);
            Ok(())
        } else {
            Err(
                ServiceError::bad_request(
                    "A kért UPL zárolása nem fololdható. Nem megfelelő a forrás zárlat!",
                ),
            )
        }
    }

    /// Releases whatever holds the lot, at the instant `at`.
    pub fn unlock_forced_at(&mut self, at: Timestamp)
        ensures
            final(self)@ == old(self)@.force_unlocked(at),
            old(self)@.priced() ==> final(self)@.priced(),
    {
        self.lock = Lock::NoLock;
        self.log(UplHistoryEvent::Unlocked, CreatedBy::Technical, at);
    }

    /// Sets the net price of the stock-keeping unit and the tax class at the
    /// instant `at`, on behalf of `by`, and computes the prices of the lot
    /// anew.
    pub fn set_price_by_at(
        &mut self,
        sku_net_price: u32,
        sku_vat: VAT,
        by: CreatedBy,
        at: Timestamp,
    )
        ensures
            final(self)@ == old(self)@.repriced(sku_net_price, sku_vat, by, at),
            final(self)@.priced(),
    {
        self.sku_price_net = sku_net_price;
        self.vat = sku_vat;
        self.recalculate_prices();
        self.log(
            UplHistoryEvent::PriceChanged { sku_price_net: sku_net_price, vat: sku_vat },
            by,
            at,
        );
    }

    /// Sets the net price of the stock-keeping unit and the tax class at the
    /// instant `at`, and computes the prices of the lot anew.
    pub fn set_price_at(
        &mut self,
        sku_net_price: u32,
        sku_vat: VAT,
        at: Timestamp,
    ) -> (r: ServiceResult<()>)
        ensures
            r is Ok,
            final(self)@ == old(self)@.repriced(sku_net_price, sku_vat, CreatedBy::Technical, at),
            final(self)@.priced(),
    {
        self.set_price_by_at(sku_net_price, sku_vat, CreatedBy::Technical, at);
        Ok(())
    }

    /// Marks the lot as depreciated at the instant `at`, where it is not yet.
    pub fn set_depreciation_at(
        &mut self,
        depreciation_id: u32,
        comment: String,
        created_by: u32,
        at: Timestamp,
    ) -> (r: ServiceResult<()>)
        ensures
            r is Ok <==> old(self)@.depreciation is None,
            r is Ok ==> final(self)@ == old(self)@.depreciated(
                depreciation_id,
                comment@,
                created_by,
                at,
            ),
            r is Ok && old(self)@.priced() ==> final(self)@.priced(),
            r matches Err(e) ==> e is BadRequest && final(self)@ == old(self)@,
    {
        if self.depreciation.is_some() {
            return Err(ServiceError::bad_request("A termék már selejtezett!"));
        }
        self.depreciation = Some(Depreciation::new(depreciation_id, comment.clone()));
        self.log(
            UplHistoryEvent::SetDeprecated { depreciation_id, comment },
            CreatedBy::Uid(created_by),
            at,
        );
        Ok(())
    }

    /// Takes the depreciation off the lot at the instant `at`, where it has one.
    pub fn remove_deprecation_at(
        &mut self,
        created_by: u32,
        at: Timestamp,
    ) -> (r: ServiceResult<()>)
        ensures
            r is Ok <==> old(self)@.depreciation is Some,
            r is Ok ==> final(self)@ == old(self)@.undepreciated(created_by, at),
            r is Ok && old(self)@.priced() ==> final(self)@.priced(),
            r matches Err(e) ==> e is BadRequest && final(self)@ == old(self)@,
    {
        if self.depreciation.is_none() {
            return Err(ServiceError::bad_request("A UPL nem selejtezett!"));
        }
        self.depreciation = None;
        self.log(UplHistoryEvent::DeprecationRemoved, CreatedBy::Uid(created_by), at);
        Ok(())
    }

    /// Sets or clears the special net price of the depreciated lot at the
    /// instant `at`; the margin at the special price is the price less the
    /// procurement price of the lot.
    pub fn set_depreciation_price_at(
        &mut self,
        net_retail_price: Option<u32>,
        created_by: u32,
        at: Timestamp,
    ) -> (r: ServiceResult<()>)
        ensures
            r is Ok <==> old(self)@.depreciation is Some,
            r is Ok ==> final(self)@ == old(self)@.with_depreciation_price(
                net_retail_price,
                created_by,
                at,
            ),
            r is Ok && old(self)@.priced() ==> final(self)@.priced(),
            r matches Err(e) ==> e is BadRequest && final(self)@ == old(self)@,
    {
        let margin: Option<i64> = match net_retail_price {
            Some(price) => Some(price as i64 - self.procurement_net_price as i64),
            None => None,
        };
        match &self.depreciation {
            Some(d) => {
                let mut depreciation = d.clone();
                depreciation.set_price(net_retail_price, margin);
                self.depreciation = Some(depreciation);
            },
            None => {
                return Err(ServiceError::bad_request("UPL is not depreciated!"));
            },
        }
        self.log(
            UplHistoryEvent::SetDepreciatedPrice { retail_net_price: net_retail_price },
            CreatedBy::Uid(created_by),
            at,
        );
        Ok(())
    }

    /// Sets or clears the best-before date at the instant `at`.
    pub fn set_best_before_at(
        &mut self,
        best_before: Option<Timestamp>,
        created_by: u32,
        at: Timestamp,
    )
        ensures
            final(self)@ == old(self)@.with_best_before(best_before, created_by, at),
            old(self)@.priced() ==> final(self)@.priced(),
    {
        self.best_before = best_before;
        self.log(
            UplHistoryEvent::BestBeforeUpdated { to: best_before },
            CreatedBy::Uid(created_by),
            at,
        );
    }

    /// Whether the lot can be sold as sound goods on the day of `today`.
    pub fn is_available_healthy_at(&self, today: &Timestamp) -> (is: bool)
        ensures
            is == self@.healthy_at(*today),
    {
        !self.has_lock() && self.depreciation.is_none() && self.is_original() && match &self.best_before {
            Some(best_before) => best_before.on_or_after_day_of(today),
            None => true,
        }
    }
}

/// The identifiers of `ids` that are not `id`, in their order.
fn remove_id(ids: &Vec<String>, id: &String) -> (rest: Vec<String>)
    ensures
        views(rest@) == without(views(ids@), id@),
{
    let mut rest: Vec<String> = Vec::new();
    let mut k: usize = 0;
    assert(views(ids@.take(0)) =~= Seq::<Seq<char>>::empty());
    assert(views(rest@) =~= Seq::<Seq<char>>::empty());
    while k < ids.len()
        invariant
            k <= ids.len(),
            views(rest@) == without(views(ids@.take(k as int)), id@),
        decreases ids.len() - k,
    {
        proof {
            let next = views(ids@.take(k + 1));
            assert(next.drop_last() =~= views(ids@.take(k as int)));
            assert(next.last() == ids@[k as int]@);
        }
        if !(ids[k] == *id) {
            proof {
                lemma_views_push(rest@, ids@[k as int]);
            }
            rest.push(ids[k].clone());
        }
        k += 1;
    }
    assert(ids@.take(k as int) =~= ids@);
    rest
}

/// Whether every identifier of the list is valid.
fn all_ids_valid(ids: &Vec<String>) -> (valid: bool)
    ensures
        valid == all_valid_ids(views(ids@)),
{
    let mut k: usize = 0;
    while k < ids.len()
        invariant
            k <= ids.len(),
            forall|i: int| 0 <= i < k ==> spec_valid_id(#[trigger] views(ids@)[i]),
        decreases ids.len() - k,
    {
        if !is_valid_id(ids[k].as_str()) {
            assert(!spec_valid_id(views(ids@)[k as int]));
            return false;
        }
        k += 1;
    }
    true
}

impl Upl {
    /// Splits `piece` units off the bulk at the instant `at` and returns them
    /// as a lot of their own with the identifier `new_upl_id`, which the
    /// caller has to store.
    pub fn split_at(
        &mut self,
        new_upl_id: String,
        piece: u32,
        created_by: u32,
        at: Timestamp,
    ) -> (r: ServiceResult<Upl>)
        ensures
            r is Ok <==> old(self)@.can_split(new_upl_id@, piece),
            r matches Ok(child) ==> {
                &&& final(self)@ == old(self)@.split_parent(new_upl_id@, piece, created_by, at)
                &&& child@ == old(self)@.split_child(new_upl_id@, piece)
                &&& old(self)@.pieces() == final(self)@.pieces() + child@.pieces()
                &&& final(self)@.priced()
                &&& child@.priced()
            },
            r matches Err(e) ==> e is BadRequest && final(self)@ == old(self)@,
    {
        if piece == 0 {
            return Err(ServiceError::bad_request("Az új UPL mennyiség nem lehet 0!"));
        }
        if self.has_lock() {
            return Err(
                ServiceError::bad_request("A termékből nem tudunk leválasztani, mivel zárolva van!"),
            );
        }
        if !is_valid_id(new_upl_id.as_str()) {
            return Err(ServiceError::bad_request("Az új UPL ID invalid!"));
        }
        let (sku, pieces): (u32, u32) = match &self.kind {
            Kind::BulkSku { sku, upl_pieces } => (*sku, *upl_pieces),
            _ => {
                return Err(
                    ServiceError::bad_request(
                        "Az adott UPL-t nem lehet szét választani, nem tömeges UPL!",
                    ),
                );
            },
        };
        if pieces <= piece {
            return Err(
                ServiceError::bad_request("A gyüjtő mérete nem nagyobb, mint a kért mennyiség!"),
            );
        }
        let mut child = self.clone();
        child.id = new_upl_id.clone();
        child.kind = if piece == 1 {
            Kind::Sku { sku }
        } else {
            Kind::BulkSku { sku, upl_pieces: piece }
        };
        child.recalculate_prices();
        self.kind = Kind::BulkSku { sku, upl_pieces: pieces - piece };
        self.recalculate_prices();
        self.log(UplHistoryEvent::Split { new_upl_id }, CreatedBy::Uid(created_by), at);
        Ok(child)
    }

    /// Splits one unit off the bulk for each of the identifiers, at the
    /// instant `at`, and returns the new lots in the order of the identifiers.
    pub fn split_bulk_at(
        &mut self,
        new_upl_ids: Vec<String>,
        created_by: u32,
        at: Timestamp,
    ) -> (r: ServiceResult<Vec<Upl>>)
        ensures
            r is Ok <==> old(self)@.can_split_bulk(views(new_upl_ids@)),
            r matches Ok(children) ==> {
                &&& final(self)@ == old(self)@.split_bulk_parent(
                    views(new_upl_ids@),
                    created_by,
                    at,
                )
                &&& views(children@) == old(self)@.split_bulk_children(
                    views(new_upl_ids@),
                    created_by,
                    at,
                )
                &&& children@.len() == new_upl_ids@.len()
                &&& old(self)@.pieces() == final(self)@.pieces() + children@.len()
            },
            r matches Err(e) ==> e is BadRequest && final(self)@ == old(self)@,
    {
        if !all_ids_valid(&new_upl_ids) {
            return Err(ServiceError::bad_request("Az alábbi új UPL ID invalid!"));
        }
        if self.has_lock() {
            return Err(
                ServiceError::bad_request("A termékből nem tudunk szétválasztani, mivel zárolva van!"),
            );
        }
        let pieces: u32 = match &self.kind {
            Kind::BulkSku { upl_pieces, .. } => *upl_pieces,
            _ => {
                return Err(ServiceError::bad_request("A kért UPL nem szétválasztható!"));
            },
        };
        if pieces as usize <= new_upl_ids.len() {
            return Err(
                ServiceError::bad_request(
                    "A UPL nem elég nagy, hogy a kért mennyiséget leválasszuk róla!",
                ),
            );
        }
        let ghost ids = views(new_upl_ids@);
        let mut children: Vec<Upl> = Vec::new();
        let mut k: usize = 0;
        assert(ids.take(0) =~= Seq::<Seq<char>>::empty());
        assert(views(children@) =~= Seq::<UplView>::empty());
        while k < new_upl_ids.len()
            invariant
                k <= new_upl_ids.len() < pieces,
                ids == views(new_upl_ids@),
                all_valid_ids(ids),
                old(self)@.kind is BulkSku,
                old(self)@.pieces() == pieces,
                !self@.has_lock(),
                self@.kind is BulkSku,
                self@.pieces() == pieces - k,
                self@ == old(self)@.split_bulk_parent(ids.take(k as int), created_by, at),
                views(children@) == old(self)@.split_bulk_children(ids.take(k as int), created_by, at),
                children@.len() == k,
            decreases new_upl_ids.len() - k,
        {
            proof {
                assert(ids.take(k + 1).drop_last() =~= ids.take(k as int));
                assert(ids.take(k + 1).last() == ids[k as int]);
                assert(spec_valid_id(ids[k as int]));
            }
            let ghost before = children@;
            let child = match self.split_at(new_upl_ids[k].clone(), 1, created_by, at) {
                Ok(child) => child,
                Err(e) => {
                    return Err(e);
                },
            };
            proof {
                lemma_views_push(before, child);
            }
            children.push(child);
            k += 1;
        }
        assert(ids.take(k as int) =~= ids);
        Ok(children)
    }

    /// Opens the package of the lot at the instant `at`: all of the unit
    /// remains and can be portioned out.
    pub fn open_at(&mut self, at: Timestamp) -> (r: ServiceResult<()>)
        ensures
            r is Ok <==> old(self)@.can_open(),
            r is Ok ==> final(self)@ == old(self)@.opened(at) && final(self)@.priced(),
            r matches Err(e) ==> e is BadRequest && final(self)@ == old(self)@,
    {
        if !self.is_divisible() {
            return Err(
                ServiceError::bad_request(
                    "A kért UPL nem mérhető ki, így nem bontható meg! Vagy nem kimérhető a SKU, vagy a kimérhető mennyiség 1, ami nem elgendő.",
                ),
            );
        }
        if self.has_lock() {
            return Err(
                ServiceError::bad_request("A terméket nem tudjuk megnyitni, mivel zárolva van!"),
            );
        }
        let sku: u32 = match &self.kind {
            Kind::Sku { sku } => *sku,
            _ => {
                return Err(
                    ServiceError::bad_request(
                        "A kért terméket nem lehet megbontani, mert vagy gyüjtő, vagy már bontott.",
                    ),
                );
            },
        };
        let successors: Vec<String> = Vec::new();
        assert(views(successors@) =~= Seq::<Seq<char>>::empty());
        self.kind = Kind::OpenedSku { sku, amount: self.sku_divisible_amount, successors };
        self.recalculate_prices();
        self.log(UplHistoryEvent::Opened, CreatedBy::Technical, at);
        Ok(())
    }

    /// Closes the package of the opened lot at the instant `at`, where
    /// nothing was portioned out of it.
    pub fn close_at(&mut self, at: Timestamp) -> (r: ServiceResult<()>)
        ensures
            r is Ok <==> old(self)@.can_close(),
            r is Ok ==> final(self)@ == old(self)@.closed(at) && final(self)@.priced(),
            r matches Err(e) ==> e is BadRequest && final(self)@ == old(self)@,
    {
        if self.has_lock() {
            return Err(
                ServiceError::bad_request("A terméket nem tudjuk lezárni, mivel zárolva van!"),
            );
        }
        let (sku, amount): (u32, u32) = match &self.kind {
            Kind::OpenedSku { sku, amount, .. } => (*sku, *amount),
            _ => {
                return Err(
                    ServiceError::bad_request("A kért nem bontott termék, így nem lehet vissza zárni."),
                );
            },
        };
        if amount != self.sku_divisible_amount {
            return Err(
                ServiceError::bad_request("A termékből már kimértek, így nem zárható vissza."),
            );
        }
        self.kind = Kind::Sku { sku };
        self.recalculate_prices();
        self.log(UplHistoryEvent::Closed, CreatedBy::Technical, at);
        Ok(())
    }

    /// Portions `requested_amount` sub-units out of the opened lot at the
    /// instant `at` and returns them as a lot of their own with the
    /// identifier `new_upl_id`, which the caller has to store.
    pub fn divide_at(
        &mut self,
        new_upl_id: String,
        requested_amount: u32,
        created_by: u32,
        at: Timestamp,
    ) -> (r: ServiceResult<Upl>)
        ensures
            r is Ok <==> old(self)@.can_divide(new_upl_id@, requested_amount),
            r matches Ok(child) ==> {
                &&& final(self)@ == old(self)@.divide_parent(
                    new_upl_id@,
                    requested_amount,
                    created_by,
                    at,
                )
                &&& child@ == old(self)@.divide_child(new_upl_id@, requested_amount, created_by, at)
                &&& final(self)@.priced()
                &&& child@.priced()
            },
            r matches Err(e) ==> e is BadRequest && final(self)@ == old(self)@,
    {
        if requested_amount == 0 {
            return Err(ServiceError::bad_request("Nem lehet 0 egységet kimérni!"));
        }
        if self.has_lock() {
            return Err(
                ServiceError::bad_request("A termékből nem tudunk kimérni, mivel zárolva van!"),
            );
        }
        if !is_valid_id(new_upl_id.as_str()) {
            return Err(ServiceError::bad_request("Az új UPL id invalid!"));
        }
        let (sku, remaining, mut successors): (u32, u32, Vec<String>) = match &self.kind {
            Kind::OpenedSku { sku, amount, successors } => (
                *sku,
                *amount,
                crate::text::clone_strings(successors),
            ),
            _ => {
                return Err(
                    ServiceError::bad_request(
                        "A kért termék nem mérhető ki! Csak bontott termék mérhető ki!",
                    ),
                );
            },
        };
        if remaining <= requested_amount {
            return Err(ServiceError::bad_request("A kért termék túl kicsi a kívánt mértékhez!"));
        }
        let mut child = self.clone();
        child.id = new_upl_id.clone();
        child.created_by = created_by;
        child.created_at = at;
        child.kind = Kind::DerivedProduct {
            derived_from: self.id.clone(),
            derived_from_sku: sku,
            amount: requested_amount,
        };
        child.recalculate_prices();
        proof {
            lemma_views_push(successors@, new_upl_id);
        }
        successors.push(new_upl_id.clone());
        self.kind = Kind::OpenedSku { sku, amount: remaining - requested_amount, successors };
        self.recalculate_prices();
        self.log(
            UplHistoryEvent::Divided { new_upl_id, requested_amount },
            CreatedBy::Uid(created_by),
            at,
        );
        Ok(child)
    }

    /// Puts the portion `upl_to_merge` back into the opened lot at the instant
    /// `at`. The caller has to take the portion out of the registry.
    pub fn merge_at(
        &mut self,
        upl_to_merge: Upl,
        created_by: u32,
        at: Timestamp,
    ) -> (r: ServiceResult<()>)
        ensures
            r is Ok <==> old(self)@.can_merge(upl_to_merge@) && old(self)@.merge_fits(upl_to_merge@),
            r is Ok ==> final(self)@ == old(self)@.merged(upl_to_merge@, created_by, at)
                && final(self)@.priced(),
            r matches Err(e) ==> final(self)@ == old(self)@,
            r matches Err(e) ==> (e is BadRequest <==> !old(self)@.can_merge(upl_to_merge@)),
            r matches Err(e) ==> (e is InternalError <==> old(self)@.can_merge(upl_to_merge@)),
    {
        if self.is_depreciated() {
            return Err(
                ServiceError::bad_request(
                    "A szülő UPL selejtezett. Selejtezett termékbe nem tudunk vissza tenni",
                ),
            );
        }
        if upl_to_merge.is_depreciated() {
            return Err(
                ServiceError::bad_request("A kért UPL selejtezett, nem tehető vissza!"),
            );
        }
        if self.has_lock() {
            return Err(
                ServiceError::bad_request(
                    "Nem tehetjük vissza a terméket, mert a szülő termék zárolva van!",
                ),
            );
        }
        if upl_to_merge.has_lock() {
            return Err(
                ServiceError::bad_request("Nem tehetjük vissza a terméket, mert az zárolva van!"),
            );
        }
        let (sku, remaining, successors): (u32, u32, Vec<String>) = match &self.kind {
            Kind::OpenedSku { sku, amount, successors } => match &upl_to_merge.kind {
                Kind::DerivedProduct { derived_from, amount: child_amount, .. } => {
                    if !(self.id == *derived_from) {
                        return Err(
                            ServiceError::bad_request("A kért UPL nem tehető vissza másik szülőbe!"),
                        );
                    }
                    if *child_amount > u32::MAX - *amount {
                        return Err(
                            ServiceError::internal_error(
                                "A visszatett mennyiség nem fér el a szülő UPL-ben!",
                            ),
                        );
                    }
                    (*sku, *amount + *child_amount, remove_id(successors, &upl_to_merge.id))
                },
                _ => {
                    return Err(
                        ServiceError::bad_request("A kért UPL nem kimért UPL, nem tehető vissza!"),
                    );
                },
            },
            _ => {
                return Err(ServiceError::bad_request("A cél UPL nem nyitott termék!"));
            },
        };
        let amount: u32 = match &upl_to_merge.kind {
            Kind::DerivedProduct { amount, .. } => *amount,
            _ => 0,
        };
        self.kind = Kind::OpenedSku { sku, amount: remaining, successors };
        self.recalculate_prices();
        self.log(
            UplHistoryEvent::Merged { upl_id: upl_to_merge.id, amount },
            CreatedBy::Uid(created_by),
            at,
        );
        Ok(())
    }
}

impl UplMethods for Upl {
    /// A new lot, created now.
    fn new(
        upl_id: String,
        product_id: u32,
        product_unit: String,
        sku: u32,
        piece: u32,
        sku_divisible_amount: u32,
        sku_divisible: bool,
        sku_price_net: u32,
        sku_vat: VAT,
        procurement_id: u32,
        procurement_net_price_sku: u32,
        location: Location,
        best_before: Option<Timestamp>,
        is_opened: bool,
        created_by: u32,
    ) -> (r: ServiceResult<Upl>)
        ensures
            r is Ok <==> spec_valid_id(upl_id@),
            r matches Ok(upl) ==> exists|at: Timestamp|
                upl@ == UplView::created(
                    upl_id@,
                    product_id,
                    product_unit@,
                    sku,
                    piece,
                    sku_divisible_amount,
                    sku_divisible,
                    sku_price_net,
                    sku_vat,
                    procurement_id,
                    procurement_net_price_sku,
                    location@,
                    best_before,
                    is_opened,
                    created_by,
                    at,
                ),
            r matches Ok(upl) ==> upl@.priced(),
            r matches Err(e) ==> e is BadRequest,
    {
        Upl::new_at(
            upl_id,
            product_id,
            product_unit,
            sku,
            piece,
            sku_divisible_amount,
            sku_divisible,
            sku_price_net,
            sku_vat,
            procurement_id,
            procurement_net_price_sku,
            location,
            best_before,
            is_opened,
            created_by,
            now(),
        )
    }

    /// The identifier of the lot.
    fn get_upl_id(&self) -> (id: &str)
        ensures
            id@ == self@.id,
    {
        self.id.as_str()
    }

    /// The product that the lot belongs to.
    fn get_product_id(&self) -> (id: u32)
        ensures
            id == self@.product_id,
    {
        self.product_id
    }

    /// The stock-keeping unit of the lot.
    fn get_sku(&self) -> (sku: u32)
        ensures
            sku == self@.sku(),
    {
        match &self.kind {
            Kind::Sku { sku } => *sku,
            Kind::BulkSku { sku, .. } => *sku,
            Kind::OpenedSku { sku, .. } => *sku,
            Kind::DerivedProduct { derived_from_sku, .. } => *derived_from_sku,
        }
    }

    /// What the lot physically is.
    fn get_kind(&self) -> (kind: &Kind)
        ensures
            kind@ == self@.kind,
    {
        &self.kind
    }

    /// The procurement that brought the lot.
    fn get_procurement_id(&self) -> (id: u32)
        ensures
            id == self@.procurement_id,
    {
        self.procurement_id
    }

    /// The part of the purchase price that belongs to the lot.
    fn get_procurement_net_price(&self) -> (price: u32)
        ensures
            price == self@.procurement_net_price,
    {
        self.procurement_net_price
    }

    /// Whether the lot may move to `to`, which depends on its lock alone.
    fn can_move(&self, to: &Location) -> (can: bool)
        ensures
            can == self@.can_move(to@),
            can == spec_can_move(self@.lock, to@),
    {
        match to {
            Location::Stock(_) => match &self.lock {
                Lock::NoLock => true,
                _ => false,
            },
            Location::Delivery(id) => match &self.lock {
                Lock::Delivery(own) => *id == *own,
                Lock::NoLock => true,
                _ => false,
            },
            Location::Cart(id) => match &self.lock {
                Lock::Cart(own) => *id == *own,
                Lock::NoLock => true,
                _ => false,
            },
            Location::Discard(_) => match &self.lock {
                Lock::Inventory(_) => true,
                _ => false,
            },
        }
    }

    /// Where the lot is.
    fn get_location(&self) -> (location: &Location)
        ensures
            location@ == self@.location,
    {
        &self.location
    }

    /// Appends an entry to the history of the lot.
    fn set_history(&mut self, event: UplHistoryItem)
        ensures
            final(self)@ == (UplView { history: old(self)@.history.push(event@), ..old(self)@ }),
            old(self)@.priced() ==> final(self)@.priced(),
    {
        proof {
            lemma_views_push(self.history@, event);
        }
        self.history.push(event);
    }

    /// Moves the lot to `to` now, where its lock allows that.
    fn move_upl(&mut self, to: Location, created_by: u32) -> (r: ServiceResult<()>)
        ensures
            r is Ok <==> old(self)@.can_move(to@),
            r is Ok ==> exists|at: Timestamp| final(self)@ == old(self)@.moved(to@, created_by, at),
            r is Ok && old(self)@.priced() ==> final(self)@.priced(),
            r matches Err(e) ==> e is BadRequest && final(self)@ == old(self)@,
    {
        self.move_upl_at(to, created_by, now())
    }

    /// Whether anything holds the lot.
    fn has_lock(&self) -> (has: bool)
        ensures
            has == self@.has_lock(),
    {
        match self.lock {
            Lock::NoLock => false,
            _ => true,
        }
    }

    /// What holds the lot.
    fn get_lock(&self) -> (lock: &Lock)
        ensures
            lock@ == self@.lock,
    {
        &self.lock
    }

    /// Whether the lot can take a lock: only where nothing holds it.
    fn can_lock(&self) -> (can: bool)
        ensures
            can == self@.can_lock(),
    {
        self.get_lock().is_none()
    }

    /// Locks the lot now, where nothing holds it yet.
    fn lock(&mut self, lock: Lock, created_by: u32) -> (r: ServiceResult<()>)
        ensures
            r is Ok <==> old(self)@.can_lock(),
            r is Ok ==> exists|at: Timestamp|
                final(self)@ == old(self)@.locked(lock@, created_by, at),
            r is Ok && old(self)@.priced() ==> final(self)@.priced(),
            r matches Err(e) ==> e is BadRequest && final(self)@ == old(self)@,
    {
        self.lock_at(lock, created_by, now())
    }

    /// Releases the lock of the lot now, where `lock` is the lock that holds it.
    fn unlock(&mut self, lock: Lock, created_by: u32) -> (r: ServiceResult<()>)
        ensures
            r is Ok <==> old(self)@.lock == lock@,
            r is Ok ==> exists|at: Timestamp| final(self)@ == old(self)@.unlocked(created_by, at),
            r is Ok && old(self)@.priced() ==> final(self)@.priced(),
            r matches Err(e) ==> e is BadRequest && final(self)@ == old(self)@,
    {
        self.unlock_at(lock, created_by, now())
    }

    /// Releases whatever holds the lot, now.
    fn unlock_forced(&mut self)
        ensures
            exists|at: Timestamp| final(self)@ == old(self)@.force_unlocked(at),
            old(self)@.priced() ==> final(self)@.priced(),
    {
        self.unlock_forced_at(now())
    }

    /// Computes the net price, the gross price, the procurement price and the
    /// margin of the lot anew from its kind, its amount, the prices of its
    /// stock-keeping unit and its tax class.
    fn recalculate_prices(&mut self)
        ensures
            final(self)@ == old(self)@.recalculated(),
            final(self)@.priced(),
    {
        let (price_net, procurement_net_price): (u32, u32) = match &self.kind {
            Kind::Sku { .. } => (self.sku_price_net, self.procurement_net_price_sku),
            Kind::BulkSku { .. } => (self.sku_price_net, self.procurement_net_price_sku),
            Kind::OpenedSku { amount, .. } => (
                share(*amount, self.sku_divisible_amount, self.sku_price_net),
                share(*amount, self.sku_divisible_amount, self.procurement_net_price_sku),
            ),
            Kind::DerivedProduct { amount, .. } => (
                share(*amount, self.sku_divisible_amount, self.sku_price_net),
                share(*amount, self.sku_divisible_amount, self.procurement_net_price_sku),
            ),
        };
        self.price_net = price_net;
        self.price_gross = self.vat.gross(price_net);
        self.procurement_net_price = procurement_net_price;
        self.margin_net = price_net as i64 - procurement_net_price as i64;
    }

    /// Sets the net price of the stock-keeping unit and the tax class now.
    fn set_price(&mut self, sku_net_price: u32, sku_vat: VAT) -> (r: ServiceResult<()>)
        ensures
            r is Ok,
            exists|at: Timestamp|
                final(self)@ == old(self)@.repriced(sku_net_price, sku_vat, CreatedBy::Technical, at),
            final(self)@.priced(),
    {
        self.set_price_at(sku_net_price, sku_vat, now())
    }

    /// Marks the lot as depreciated now, where it is not yet.
    fn set_depreciation(
        &mut self,
        depreciation_id: u32,
        comment: String,
        created_by: u32,
    ) -> (r: ServiceResult<()>)
        ensures
            r is Ok <==> old(self)@.depreciation is None,
            r is Ok ==> exists|at: Timestamp|
                final(self)@ == old(self)@.depreciated(depreciation_id, comment@, created_by, at),
            r is Ok && old(self)@.priced() ==> final(self)@.priced(),
            r matches Err(e) ==> e is BadRequest && final(self)@ == old(self)@,
    {
        self.set_depreciation_at(depreciation_id, comment, created_by, now())
    }

    /// Takes the depreciation off the lot now, where it has one.
    fn remove_deprecation(&mut self, created_by: u32) -> (r: ServiceResult<()>)
        ensures
            r is Ok <==> old(self)@.depreciation is Some,
            r is Ok ==> exists|at: Timestamp| final(self)@ == old(self)@.undepreciated(created_by, at),
            r is Ok && old(self)@.priced() ==> final(self)@.priced(),
            r matches Err(e) ==> e is BadRequest && final(self)@ == old(self)@,
    {
        self.remove_deprecation_at(created_by, now())
    }

    /// Sets or clears the special net price of the depreciated lot now.
    fn set_depreciation_price(
        &mut self,
        net_retail_price: Option<u32>,
        created_by: u32,
    ) -> (r: ServiceResult<()>)
        ensures
            r is Ok <==> old(self)@.depreciation is Some,
            r is Ok ==> exists|at: Timestamp|
                final(self)@ == old(self)@.with_depreciation_price(net_retail_price, created_by, at),
            r is Ok && old(self)@.priced() ==> final(self)@.priced(),
            r matches Err(e) ==> e is BadRequest && final(self)@ == old(self)@,
    {
        self.set_depreciation_price_at(net_retail_price, created_by, now())
    }

    /// Whether the lot is depreciated.
    fn is_depreciated(&self) -> (is: bool)
        ensures
            is == (self@.depreciation is Some),
    {
        self.depreciation.is_some()
    }

    /// The id of the depreciation record, if the lot is depreciated.
    fn get_depreciation_id(&self) -> (id: Option<u32>)
        ensures
            id == match self@.depreciation {
                Some(d) => Some(d.depreciation_id),
                None => None,
            },
    {
        match &self.depreciation {
            Some(d) => Some(d.depreciation_id),
            None => None,
        }
    }

    /// Why the lot was depreciated, if it is.
    fn get_depreciation_comment(&self) -> (comment: Option<&String>)
        ensures
            match self@.depreciation {
                Some(d) => comment matches Some(c) && c@ == d.comment,
                None => comment is None,
            },
    {
        match &self.depreciation {
            Some(d) => Some(&d.comment),
            None => None,
        }
    }

    /// The special net price of the lot, if it is depreciated and has one.
    fn get_depreciation_price(&self) -> (price: Option<u32>)
        ensures
            price == self@.special_price_net(),
    {
        match &self.depreciation {
            Some(d) => d.net_retail_price,
            None => None,
        }
    }

    /// The best-before date of the lot, if it has one.
    fn get_best_before(&self) -> (best_before: Option<Timestamp>)
        ensures
            best_before == self@.best_before,
    {
        self.best_before
    }

    /// Sets or clears the best-before date now.
    fn set_best_before(&mut self, best_before: Option<Timestamp>, created_by: u32)
        ensures
            exists|at: Timestamp|
                final(self)@ == old(self)@.with_best_before(best_before, created_by, at),
            old(self)@.priced() ==> final(self)@.priced(),
    {
        self.set_best_before_at(best_before, created_by, now())
    }

    /// Whether the lot is in its original package: a single unit or a bulk.
    fn is_original(&self) -> (is: bool)
        ensures
            is == self@.is_original(),
    {
        match &self.kind {
            Kind::Sku { .. } => true,
            Kind::BulkSku { .. } => true,
            _ => false,
        }
    }

    /// Whether the lot is a bulk.
    fn is_bulk(&self) -> (is: bool)
        ensures
            is == (self@.kind is BulkSku),
    {
        match &self.kind {
            Kind::BulkSku { .. } => true,
            _ => false,
        }
    }

    /// How many units the lot holds: the pieces of a bulk, else one.
    fn get_upl_piece(&self) -> (pieces: u32)
        ensures
            pieces == self@.pieces(),
    {
        match &self.kind {
            Kind::BulkSku { upl_pieces, .. } => *upl_pieces,
            _ => 1,
        }
    }

    /// Whether something can be portioned out of the lot.
    fn is_divisible(&self) -> (is: bool)
        ensures
            is == self@.is_divisible(),
    {
        match &self.kind {
            Kind::Sku { .. } => (self.sku_divisible_amount > 1) && self.sku_divisible,
            Kind::BulkSku { .. } => false,
            Kind::OpenedSku { amount, .. } => *amount > 1,
            Kind::DerivedProduct { .. } => false,
        }
    }

    /// The amount that can still be portioned out of a single unit or an
    /// opened lot.
    fn get_divisible_amount(&self) -> (amount: Option<u32>)
        ensures
            amount == self@.divisible_amount(),
    {
        match &self.kind {
            Kind::Sku { .. } => Some(self.sku_divisible_amount),
            Kind::BulkSku { .. } => None,
            Kind::OpenedSku { amount, .. } => Some(*amount),
            Kind::DerivedProduct { .. } => None,
        }
    }

    /// The history of the lot, oldest entry first.
    fn get_history(&self) -> (history: &Vec<UplHistoryItem>)
        ensures
            views(history@) == self@.history,
    {
        &self.history
    }

    /// When the lot was created.
    fn get_created_at(&self) -> (at: Timestamp)
        ensures
            at == self@.created_at,
    {
        self.created_at
    }

    /// The user who created the lot.
    fn get_created_by(&self) -> (by: u32)
        ensures
            by == self@.created_by,
    {
        self.created_by
    }

    /// Whether the lot can be put into a cart: nothing holds it.
    fn is_available(&self) -> (is: bool)
        ensures
            is == !self@.has_lock(),
    {
        !self.has_lock()
    }

    /// Whether the lot can be sold as sound goods today.
    fn is_available_healthy(&self) -> (is: bool)
        ensures
            exists|today: Timestamp| is == self@.healthy_at(today),
            self@.best_before is None ==> is == (!self@.has_lock() && self@.depreciation is None
                && self@.is_original()),
    {
        let today = now();
        self.is_available_healthy_at(&today)
    }

    /// The net price at which the lot is sold: the special price of a
    /// depreciated lot where one is set, else the net retail price.
    fn get_upl_net_price(&self) -> (price: u32)
        ensures
            price == self@.retail_price_net(),
    {
        match self.get_depreciation_price() {
            Some(price) => price,
            None => self.price_net,
        }
    }

    /// The gross price at which the lot is sold.
    fn get_upl_gross_price(&self) -> (price: u32)
        ensures
            price == self@.retail_price_gross(),
    {
        match self.get_depreciation_price() {
            Some(price) => self.vat.gross(price),
            None => self.price_gross,
        }
    }

    /// The tax class of the lot.
    fn get_upl_vat(&self) -> (vat: VAT)
        ensures
            vat == self@.vat,
    {
        self.vat
    }

    /// Whether the lot has a special price.
    fn get_upl_has_special_price(&self) -> (has: bool)
        ensures
            has == (self@.special_price_net() is Some),
    {
        self.get_depreciation_price().is_some()
    }

    /// The special net price of the lot, if it has one.
    fn get_upl_special_price_net(&self) -> (price: Option<u32>)
        ensures
            price == self@.special_price_net(),
    {
        self.get_depreciation_price()
    }

    /// The net margin of the lot at its special price, if it has one.
    fn get_upl_special_price_margin(&self) -> (margin: Option<i64>)
        ensures
            margin == match self@.depreciation {
                Some(d) => d.margin_net,
                None => None,
            },
    {
        match &self.depreciation {
            Some(d) => d.margin_net,
            None => None,
        }
    }

    /// Sets whether the stock-keeping unit of the lot may be portioned out.
    fn set_divisible(&mut self, divisible: bool)
        ensures
            final(self)@ == (UplView { sku_divisible: divisible, ..old(self)@ }),
            old(self)@.priced() ==> final(self)@.priced(),
    {
        self.sku_divisible = divisible;
    }

    /// Sets the unit in which the product of the lot is shown.
    fn set_product_unit(&mut self, unit: String)
        ensures
            final(self)@ == (UplView { product_unit: unit@, ..old(self)@ }),
            old(self)@.priced() ==> final(self)@.priced(),
    {
        self.product_unit = unit;
    }

    /// Splits `piece` units off the bulk now.
    fn split(&mut self, new_upl_id: String, piece: u32, created_by: u32) -> (r: ServiceResult<Upl>)
        ensures
            r is Ok <==> old(self)@.can_split(new_upl_id@, piece),
            r matches Ok(child) ==> {
                &&& exists|at: Timestamp|
                    final(self)@ == old(self)@.split_parent(new_upl_id@, piece, created_by, at)
                &&& child@ == old(self)@.split_child(new_upl_id@, piece)
                &&& old(self)@.pieces() == final(self)@.pieces() + child@.pieces()
                &&& final(self)@.priced()
                &&& child@.priced()
            },
            r matches Err(e) ==> e is BadRequest && final(self)@ == old(self)@,
    {
        self.split_at(new_upl_id, piece, created_by, now())
    }

    /// Splits one unit off the bulk for each of the identifiers, now.
    fn split_bulk(
        &mut self,
        new_upl_ids: Vec<String>,
        created_by: u32,
    ) -> (r: ServiceResult<Vec<Upl>>)
        ensures
            r is Ok <==> old(self)@.can_split_bulk(views(new_upl_ids@)),
            r matches Ok(children) ==> {
                &&& exists|at: Timestamp|
                    {
                        &&& final(self)@ == old(self)@.split_bulk_parent(
                            views(new_upl_ids@),
                            created_by,
                            at,
                        )
                        &&& views(children@) == old(self)@.split_bulk_children(
                            views(new_upl_ids@),
                            created_by,
                            at,
                        )
                    }
                &&& children@.len() == new_upl_ids@.len()
                &&& old(self)@.pieces() == final(self)@.pieces() + children@.len()
            },
            r matches Err(e) ==> e is BadRequest && final(self)@ == old(self)@,
    {
        self.split_bulk_at(new_upl_ids, created_by, now())
    }

    /// Opens the package of the lot now.
    fn open(&mut self) -> (r: ServiceResult<()>)
        ensures
            r is Ok <==> old(self)@.can_open(),
            r is Ok ==> final(self)@.priced() && exists|at: Timestamp|
                final(self)@ == old(self)@.opened(at),
            r matches Err(e) ==> e is BadRequest && final(self)@ == old(self)@,
    {
        self.open_at(now())
    }

    /// Closes the package of the opened lot now.
    fn close(&mut self) -> (r: ServiceResult<()>)
        ensures
            r is Ok <==> old(self)@.can_close(),
            r is Ok ==> final(self)@.priced() && exists|at: Timestamp|
                final(self)@ == old(self)@.closed(at),
            r matches Err(e) ==> e is BadRequest && final(self)@ == old(self)@,
    {
        self.close_at(now())
    }

    /// Portions `requested_amount` sub-units out of the opened lot now.
    fn divide(
        &mut self,
        new_upl_id: String,
        requested_amount: u32,
        created_by: u32,
    ) -> (r: ServiceResult<Upl>)
        ensures
            r is Ok <==> old(self)@.can_divide(new_upl_id@, requested_amount),
            r matches Ok(child) ==> {
                &&& exists|at: Timestamp|
                    {
                        &&& final(self)@ == old(self)@.divide_parent(
                            new_upl_id@,
                            requested_amount,
                            created_by,
                            at,
                        )
                        &&& child@ == old(self)@.divide_child(
                            new_upl_id@,
                            requested_amount,
                            created_by,
                            at,
                        )
                    }
                &&& final(self)@.priced()
                &&& child@.priced()
            },
            r matches Err(e) ==> e is BadRequest && final(self)@ == old(self)@,
    {
        self.divide_at(new_upl_id, requested_amount, created_by, now())
    }

    /// Puts the portion `upl_to_merge` back into the opened lot now.
    fn merge(&mut self, upl_to_merge: Upl, created_by: u32) -> (r: ServiceResult<()>)
        ensures
            r is Ok <==> old(self)@.can_merge(upl_to_merge@) && old(self)@.merge_fits(upl_to_merge@),
            r is Ok ==> final(self)@.priced() && exists|at: Timestamp|
                final(self)@ == old(self)@.merged(upl_to_merge@, created_by, at),
            r matches Err(e) ==> final(self)@ == old(self)@,
            r matches Err(e) ==> (e is BadRequest <==> !old(self)@.can_merge(upl_to_merge@)),
            r matches Err(e) ==> (e is InternalError <==> old(self)@.can_merge(upl_to_merge@)),
    {
        self.merge_at(upl_to_merge, created_by, now())
    }
}

impl Default for Upl {
    /// The lot that stands for no lot, created now.
    fn default() -> (upl: Self)
        ensures
            exists|at: Timestamp| upl@ == UplView::blank(at),
    {
        let history: Vec<UplHistoryItem> = Vec::new();
        assert(views(history@) =~= Seq::<HistoryItemView>::empty());
        let at = now();
        let upl = Upl {
            id: String::new(),
            product_id: 0,
            sku_divisible_amount: 1,
            product_unit: String::new(),
            kind: Kind::Sku { sku: 0 },
            procurement_id: 0,
            procurement_net_price: 0,
            procurement_net_price_sku: 0,
            margin_net: 0,
            location: Location::Stock(0),
            depreciation: None,
            best_before: None,
            sku_divisible: false,
            sku_price_net: 0,
            price_net: 0,
            vat: VAT::_27,
            price_gross: 0,
            lock: Lock::NoLock,
            history,
            created_at: at,
            created_by: 0,
        };
        assert(upl@ == UplView::blank(at));
        upl
    }
}

} // verus!
