//! The operations of the registry on many lots at once: setting the price or
//! the divisibility of a stock-keeping unit, closing a cart or an inventory
//! check, creating lots in bulk, and moving a lot to the archive and back.

use crate::luhn::spec_valid_id;
use crate::obj::{UplNew, UplNewView, UplObj};
use crate::prelude::{ServiceError, ServiceResult};
use crate::registry::{holds_id, lemma_index_unique, lot_of, position, RegistryView, UplService};
use crate::service::spec_best_before;
use crate::text::{lemma_views_push, views};
use crate::time::{now, Timestamp};
use crate::upl::{
    CreatedBy, Location, LocationView, Lock, LockView, UplHistoryEvent, UplMethods, UplView,
};
use crate::vat::VAT;
use vstd::prelude::*;

verus! {

/// The lots with the price of the stock-keeping unit `sku` set in each lot of
/// that unit.
pub open spec fn repriced_where(
    lots: Seq<UplView>,
    sku: u32,
    net_price: u32,
    vat: VAT,
    by: CreatedBy,
    at: Timestamp,
) -> Seq<UplView> {
    Seq::new(
        lots.len(),
        |i: int|
            if lots[i].sku() == sku {
                lots[i].repriced(net_price, vat, by, at)
            } else {
                lots[i]
            },
    )
}

/// The lots with the divisibility of the stock-keeping unit `sku` set in each
/// lot of that unit.
pub open spec fn divisible_where(lots: Seq<UplView>, sku: u32, divisible: bool) -> Seq<UplView> {
    Seq::new(
        lots.len(),
        |i: int|
            if lots[i].sku() == sku {
                UplView { sku_divisible: divisible, ..lots[i] }
            } else {
                lots[i]
            },
    )
}

/// The lots with the lock released by `by` in each lot that is locked to the
/// inventory check `inventory_id`.
pub open spec fn inventory_closed(lots: Seq<UplView>, inventory_id: u32, by: u32, at: Timestamp) -> Seq<
    UplView,
> {
    Seq::new(
        lots.len(),
        |i: int|
            if lots[i].lock == LockView::Inventory(inventory_id) {
                lots[i].unlocked(by, at)
            } else {
                lots[i]
            },
    )
}

/// The lots with the unit set in which the product `product_id` is shown, in
/// each lot of that product.
pub open spec fn unit_set_where(lots: Seq<UplView>, product_id: u32, unit: Seq<char>) -> Seq<
    UplView,
> {
    Seq::new(
        lots.len(),
        |i: int|
            if lots[i].product_id == product_id {
                UplView { product_unit: unit, ..lots[i] }
            } else {
                lots[i]
            },
    )
}

/// Whether a lot leaves inventory when the cart `cart` is closed: it is
/// locked to the cart, or it is in the cart already.
pub open spec fn leaves_with_cart(lot: UplView, cart: Seq<char>) -> bool {
    lot.lock == LockView::Cart(cart) || lot.location == LocationView::Cart(cart)
}

/// What the archive keeps of a lot that leaves with the cart `cart`: a lot
/// that is locked to the cart is moved into it, which releases the lock;
/// then the lot is archived.
pub open spec fn sold(lot: UplView, cart: Seq<char>, by: u32, at: Timestamp) -> UplView {
    if lot.lock == LockView::Cart(cart) {
        lot.moved(LocationView::Cart(cart), by, at).archived(at)
    } else {
        lot.archived(at)
    }
}

/// The lots that stay in inventory when the cart `cart` is closed, in their
/// order.
pub open spec fn staying(lots: Seq<UplView>, cart: Seq<char>) -> Seq<UplView>
    decreases lots.len(),
{
    if lots.len() == 0 {
        Seq::empty()
    } else if leaves_with_cart(lots.last(), cart) {
        staying(lots.drop_last(), cart)
    } else {
        staying(lots.drop_last(), cart).push(lots.last())
    }
}

/// What the archive gets when the cart `cart` is closed: the lots that leave
/// with the cart, in their order, as they are sold.
pub open spec fn leaving(lots: Seq<UplView>, cart: Seq<char>, by: u32, at: Timestamp) -> Seq<
    UplView,
>
    decreases lots.len(),
{
    if lots.len() == 0 {
        Seq::empty()
    } else if leaves_with_cart(lots.last(), cart) {
        leaving(lots.drop_last(), cart, by, at).push(sold(lots.last(), cart, by, at))
    } else {
        leaving(lots.drop_last(), cart, by, at)
    }
}

/// No lot that stays when a cart is closed is locked to the cart or in it,
/// and every lot that stays was there before.
pub proof fn law_nothing_of_the_cart_stays(lots: Seq<UplView>, cart: Seq<char>)
    ensures
        forall|i: int|
            0 <= i < staying(lots, cart).len() ==> !leaves_with_cart(
                #[trigger] staying(lots, cart)[i],
                cart,
            ) && lots.contains(staying(lots, cart)[i]),
    decreases lots.len(),
{
    if lots.len() > 0 {
        let front = lots.drop_last();
        law_nothing_of_the_cart_stays(front, cart);
        assert forall|i: int| 0 <= i < staying(lots, cart).len() implies !leaves_with_cart(
            #[trigger] staying(lots, cart)[i],
            cart,
        ) && lots.contains(staying(lots, cart)[i]) by {
            if i < staying(front, cart).len() {
                let lot = staying(front, cart)[i];
                assert(front.contains(lot));
                let j = choose|j: int| 0 <= j < front.len() && front[j] == lot;
                assert(lots[j] == lot);
            } else {
                assert(lots[lots.len() - 1] == staying(lots, cart)[i]);
            }
        }
    }
}

/// Every lot that is locked to a cart or in it when the cart is closed is in
/// what the archive gets: under its identifier the archive keeps the lot in
/// the cart, and with no lock if the lot was locked to the cart or unlocked.
pub proof fn law_all_of_the_cart_is_archived(
    lots: Seq<UplView>,
    cart: Seq<char>,
    by: u32,
    at: Timestamp,
    j: int,
)
    requires
        0 <= j < lots.len(),
        leaves_with_cart(lots[j], cart),
    ensures
        exists|k: int|
            0 <= k < leaving(lots, cart, by, at).len() && {
                let kept = #[trigger] leaving(lots, cart, by, at)[k];
                &&& kept == sold(lots[j], cart, by, at)
                &&& kept.id == lots[j].id
                &&& kept.location == LocationView::Cart(cart)
                &&& (lots[j].lock == LockView::Cart(cart) || lots[j].lock is NoLock)
                    ==> kept.lock is NoLock
            },
    decreases lots.len(),
{
    let front = lots.drop_last();
    if j == lots.len() - 1 {
        let k = leaving(front, cart, by, at).len() as int;
        assert(leaving(lots, cart, by, at)[k] == sold(lots[j], cart, by, at));
    } else {
        law_all_of_the_cart_is_archived(front, cart, by, at, j);
        let k = choose|k: int|
            0 <= k < leaving(front, cart, by, at).len() && (#[trigger] leaving(
                front,
                cart,
                by,
                at,
            )[k]) == sold(front[j], cart, by, at);
        assert(leaving(lots, cart, by, at)[k] == sold(lots[j], cart, by, at));
    }
}

/// Whether the request to create a lot is accepted by a registry: its
/// best-before date is a date or empty, its tax class is one, its identifier
/// is valid and not stored yet.
pub open spec fn is_accepted(registry: RegistryView, request: UplNewView) -> bool {
    &&& spec_best_before(request.best_before) is Some
    &&& VAT::spec_from_str(request.sku_vat) is Some
    &&& spec_valid_id(request.upl_id)
    &&& !registry.holds(request.upl_id)
}

/// The registry after the request was handled: with the new lot where the
/// request is accepted, else as it was.
pub open spec fn created_one(
    registry: RegistryView,
    request: UplNewView,
    at: Timestamp,
) -> RegistryView {
    if is_accepted(registry, request) {
        registry.inserted(
            request.lot(
                spec_best_before(request.best_before)->0,
                VAT::spec_from_str(request.sku_vat)->0,
                at,
            ),
        )
    } else {
        registry
    }
}

/// The registry after the requests were handled one after the other.
pub open spec fn created_all(
    registry: RegistryView,
    requests: Seq<UplNewView>,
    at: Timestamp,
) -> RegistryView
    decreases requests.len(),
{
    if requests.len() == 0 {
        registry
    } else {
        created_one(created_all(registry, requests.drop_last(), at), requests.last(), at)
    }
}

/// The identifiers of the requests that were accepted, in their order.
pub open spec fn accepted_ids(
    registry: RegistryView,
    requests: Seq<UplNewView>,
    at: Timestamp,
) -> Seq<Seq<char>>
    decreases requests.len(),
{
    if requests.len() == 0 {
        Seq::empty()
    } else if is_accepted(created_all(registry, requests.drop_last(), at), requests.last()) {
        accepted_ids(registry, requests.drop_last(), at).push(requests.last().upl_id)
    } else {
        accepted_ids(registry, requests.drop_last(), at)
    }
}

/// What bringing the archived lot with the identifier `id` back makes of the
/// registry `before`, where the lot comes back held by `lock`: it leaves the
/// archive, is a further active lot with that lock, and is shown.
pub open spec fn restore_outcome(
    before: RegistryView,
    after: RegistryView,
    id: Seq<char>,
    lock: LockView,
    by: u32,
    at: Timestamp,
    obj: UplObj,
) -> bool {
    let lot = lot_of(before.archive, id).restored(lock, by, at);
    &&& obj@ == lot.shown(at)
    &&& after == (RegistryView {
        active: before.active.push(lot),
        archive: before.archive.remove(crate::registry::index_of(before.archive, id)),
    })
}

impl UplService {
    /// Sets the net price and the tax class of the stock-keeping unit `sku`
    /// in every active lot of that unit, at the instant `at`. The request is
    /// refused, and no lot changed, where `vat` names no tax class or where
    /// `gross_price` is not the gross price of `net_price`.
    pub fn set_sku_price_at(
        &mut self,
        sku: u32,
        net_price: u32,
        vat: &str,
        gross_price: u32,
        created_by: CreatedBy,
        at: Timestamp,
    ) -> (r: ServiceResult<()>)
        requires
            old(self).wf(),
        ensures
            final(self).wf(),
            r is Ok <==> (VAT::spec_from_str(vat@) matches Some(class) && class.spec_gross(net_price)
                == gross_price),
            r is Ok ==> final(self)@ == (RegistryView {
                active: repriced_where(
                    old(self)@.active,
                    sku,
                    net_price,
                    VAT::spec_from_str(vat@)->0,
                    created_by,
                    at,
                ),
                archive: old(self)@.archive,
            }),
            r matches Err(e) ==> e is BadRequest && final(self)@ == old(self)@,
    {
        let class = match VAT::from_str(vat) {
            Ok(class) => class,
            Err(msg) => {
                return Err(ServiceError::BadRequest(msg));
            },
        };
        if class.gross(net_price) != gross_price {
            return Err(ServiceError::bad_request("A nettó * áfa != bruttó"));
        }
        let ghost before = self@;
        let mut k: usize = 0;
        while k < self.upls().len()
            invariant
                self.wf(),
                self@.archive == before.archive,
                self@.active.len() == before.active.len(),
                k <= self@.active.len(),
                forall|i: int|
                    0 <= i < k ==> self@.active[i] == repriced_where(
                        before.active,
                        sku,
                        net_price,
                        class,
                        created_by,
                        at,
                    )[i],
                forall|i: int| k <= i < before.active.len() ==> self@.active[i] == before.active[i],
            decreases self@.active.len() - k,
        {
            if self.upls()[k].get_sku() == sku {
                let mut lot = self.upls()[k].clone();
                lot.set_price_by_at(net_price, class, created_by, at);
                self.replace_active(k, lot);
            }
            k += 1;
        }
        assert(self@.active =~= repriced_where(
            before.active,
            sku,
            net_price,
            class,
            created_by,
            at,
        ));
        Ok(())
    }

    /// Sets the net price and the tax class of the stock-keeping unit `sku`
    /// in every active lot of that unit, now.
    pub fn set_sku_price(
        &mut self,
        sku: u32,
        net_price: u32,
        vat: &str,
        gross_price: u32,
        created_by: CreatedBy,
    ) -> (r: ServiceResult<()>)
        requires
            old(self).wf(),
        ensures
            final(self).wf(),
            r is Ok <==> (VAT::spec_from_str(vat@) matches Some(class) && class.spec_gross(net_price)
                == gross_price),
            r is Ok ==> exists|at: Timestamp|
                final(self)@ == (RegistryView {
                    active: repriced_where(
                        old(self)@.active,
                        sku,
                        net_price,
                        VAT::spec_from_str(vat@)->0,
                        created_by,
                        at,
                    ),
                    archive: old(self)@.archive,
                }),
            r matches Err(e) ==> e is BadRequest && final(self)@ == old(self)@,
    {
        self.set_sku_price_at(sku, net_price, vat, gross_price, created_by, now())
    }

    /// Sets whether the stock-keeping unit `sku` may be portioned out, in
    /// every active lot of that unit.
    pub fn set_sku_divisible(&mut self, sku: u32, divisible: bool) -> (r: ServiceResult<()>)
        requires
            old(self).wf(),
        ensures
            final(self).wf(),
            r is Ok,
            final(self)@ == (RegistryView {
                active: divisible_where(old(self)@.active, sku, divisible),
                archive: old(self)@.archive,
            }),
    {
        let ghost before = self@;
        let mut k: usize = 0;
        while k < self.upls().len()
            invariant
                self.wf(),
                self@.archive == before.archive,
                self@.active.len() == before.active.len(),
                k <= self@.active.len(),
                forall|i: int|
                    0 <= i < k ==> self@.active[i] == divisible_where(before.active, sku, divisible)[i],
                forall|i: int| k <= i < before.active.len() ==> self@.active[i] == before.active[i],
            decreases self@.active.len() - k,
        {
            if self.upls()[k].get_sku() == sku {
                let mut lot = self.upls()[k].clone();
                lot.set_divisible(divisible);
                self.replace_active(k, lot);
            }
            k += 1;
        }
        assert(self@.active =~= divisible_where(before.active, sku, divisible));
        Ok(())
    }

    /// Sets the unit in which the product `product_id` is shown, in every
    /// active lot of that product.
    pub fn set_product_unit(&mut self, product_id: u32, unit: &str) -> (r: ServiceResult<()>)
        requires
            old(self).wf(),
        ensures
            final(self).wf(),
            r is Ok,
            final(self)@ == (RegistryView {
                active: unit_set_where(old(self)@.active, product_id, unit@),
                archive: old(self)@.archive,
            }),
    {
        let ghost before = self@;
        let mut k: usize = 0;
        while k < self.upls().len()
            invariant
                self.wf(),
                self@.archive == before.archive,
                self@.active.len() == before.active.len(),
                k <= self@.active.len(),
                forall|i: int|
                    0 <= i < k ==> self@.active[i] == unit_set_where(
                        before.active,
                        product_id,
                        unit@,
                    )[i],
                forall|i: int| k <= i < before.active.len() ==> self@.active[i] == before.active[i],
            decreases self@.active.len() - k,
        {
            if self.upls()[k].get_product_id() == product_id {
                let mut lot = self.upls()[k].clone();
                lot.set_product_unit(unit.to_owned());
                self.replace_active(k, lot);
            }
            k += 1;
        }
        assert(self@.active =~= unit_set_where(before.active, product_id, unit@));
        Ok(())
    }

    /// Closes the inventory check `inventory_id` at the instant `at`: every
    /// active lot that is locked to it is released, whatever the lock
    /// discipline says, and stays where it is.
    pub fn close_inventory_at(
        &mut self,
        inventory_id: u32,
        created_by: u32,
        at: Timestamp,
    ) -> (r: ServiceResult<()>)
        requires
            old(self).wf(),
        ensures
            final(self).wf(),
            r is Ok,
            final(self)@ == (RegistryView {
                active: inventory_closed(old(self)@.active, inventory_id, created_by, at),
                archive: old(self)@.archive,
            }),
            forall|i: int|
                0 <= i < final(self)@.active.len() ==> (#[trigger] final(self)@.active[i]).lock
                    != LockView::Inventory(inventory_id),
    {
        let ghost before = self@;
        let mut k: usize = 0;
        while k < self.upls().len()
            invariant
                self.wf(),
                self@.archive == before.archive,
                self@.active.len() == before.active.len(),
                k <= self@.active.len(),
                forall|i: int|
                    0 <= i < k ==> self@.active[i] == inventory_closed(
                        before.active,
                        inventory_id,
                        created_by,
                        at,
                    )[i],
                forall|i: int| k <= i < before.active.len() ==> self@.active[i] == before.active[i],
            decreases self@.active.len() - k,
        {
            let held = match &self.upls()[k].lock {
                Lock::Inventory(id) => *id == inventory_id,
                _ => false,
            };
            if held {
                let mut lot = self.upls()[k].clone();
                let _ = lot.unlock_at(Lock::Inventory(inventory_id), created_by, at);
                self.replace_active(k, lot);
            }
            k += 1;
        }
        assert(self@.active =~= inventory_closed(before.active, inventory_id, created_by, at));
        Ok(())
    }

    /// Closes the inventory check `inventory_id` now.
    pub fn close_inventory(&mut self, inventory_id: u32, created_by: u32) -> (r: ServiceResult<()>)
        requires
            old(self).wf(),
        ensures
            final(self).wf(),
            r is Ok,
            exists|at: Timestamp|
                final(self)@ == (RegistryView {
                    active: inventory_closed(old(self)@.active, inventory_id, created_by, at),
                    archive: old(self)@.archive,
                }),
            forall|i: int|
                0 <= i < final(self)@.active.len() ==> (#[trigger] final(self)@.active[i]).lock
                    != LockView::Inventory(inventory_id),
    {
        self.close_inventory_at(inventory_id, created_by, now())
    }

    /// Closes the cart `cart_id` at the instant `at`: every active lot that
    /// is locked to the cart moves into it, which releases the lock, and
    /// every lot that is then in the cart leaves the active lots for the
    /// archive.
    pub fn close_cart_at(
        &mut self,
        cart_id: &str,
        created_by: u32,
        at: Timestamp,
    ) -> (r: ServiceResult<()>)
        requires
            old(self).wf(),
        ensures
            final(self).wf(),
            r is Ok,
            final(self)@.active == staying(old(self)@.active, cart_id@),
            final(self)@.archive == old(self)@.archive + leaving(
                old(self)@.active,
                cart_id@,
                created_by,
                at,
            ),
            forall|i: int|
                0 <= i < final(self)@.active.len() ==> !leaves_with_cart(
                    #[trigger] final(self)@.active[i],
                    cart_id@,
                ),
            forall|j: int|
                0 <= j < old(self)@.active.len() && leaves_with_cart(
                    #[trigger] old(self)@.active[j],
                    cart_id@,
                ) ==> {
                    &&& !holds_id(final(self)@.active, old(self)@.active[j].id)
                    &&& holds_id(final(self)@.archive, old(self)@.active[j].id)
                    &&& lot_of(final(self)@.archive, old(self)@.active[j].id) == sold(
                        old(self)@.active[j],
                        cart_id@,
                        created_by,
                        at,
                    )
                },
    {
        let cart = cart_id.to_owned();
        let ghost before = self@;
        let ghost mut done: int = 0;
        let mut i: usize = 0;
        proof {
            assert(before.active.take(0) =~= Seq::<UplView>::empty());
            assert(before.active.skip(0) =~= before.active);
            assert(self@.active =~= staying(before.active.take(0), cart@) + before.active.skip(0));
            assert(self@.archive =~= before.archive + leaving(
                before.active.take(0),
                cart@,
                created_by,
                at,
            ));
        }
        while i < self.upls().len()
            invariant
                self.wf(),
                cart@ == cart_id@,
                0 <= done <= before.active.len(),
                i == staying(before.active.take(done), cart@).len(),
                self@.active == staying(before.active.take(done), cart@) + before.active.skip(done),
                self@.archive == before.archive + leaving(
                    before.active.take(done),
                    cart@,
                    created_by,
                    at,
                ),
            decreases before.active.len() - done,
        {
            proof {
                let next = before.active.take(done + 1);
                assert(next.drop_last() =~= before.active.take(done));
                assert(next.last() == before.active[done]);
                assert(self@.active[i as int] == before.active.skip(done)[0]);
            }
            let locked_to_cart = match &self.upls()[i].lock {
                Lock::Cart(id) => *id == cart,
                _ => false,
            };
            let in_cart = match &self.upls()[i].location {
                Location::Cart(id) => *id == cart,
                _ => false,
            };
            if locked_to_cart || in_cart {
                let ghost kept = self@.active;
                let mut lot = self.remove_active(i);
                if locked_to_cart {
                    let _ = lot.move_upl_at(Location::Cart(cart.clone()), created_by, at);
                }
                lot.log(UplHistoryEvent::Archived, CreatedBy::Technical, at);
                self.push_archive(lot);
                proof {
                    assert(kept.remove(i as int) =~= staying(before.active.take(done + 1), cart@)
                        + before.active.skip(done + 1));
                    assert(self@.archive =~= before.archive + leaving(
                        before.active.take(done + 1),
                        cart@,
                        created_by,
                        at,
                    ));
                }
            } else {
                proof {
                    assert(self@.active =~= staying(before.active.take(done + 1), cart@)
                        + before.active.skip(done + 1));
                }
                i += 1;
            }
            proof {
                done = done + 1;
            }
        }
        proof {
            assert(before.active.take(done) =~= before.active);
            assert(self@.active =~= staying(before.active, cart@));
            law_nothing_of_the_cart_stays(before.active, cart@);
            assert forall|j: int|
                0 <= j < before.active.len() && leaves_with_cart(
                    #[trigger] before.active[j],
                    cart@,
                ) implies {
                &&& !holds_id(self@.active, before.active[j].id)
                &&& holds_id(self@.archive, before.active[j].id)
                &&& lot_of(self@.archive, before.active[j].id) == sold(
                    before.active[j],
                    cart@,
                    created_by,
                    at,
                )
            } by {
                let id = before.active[j].id;
                law_all_of_the_cart_is_archived(before.active, cart@, created_by, at, j);
                let sent = leaving(before.active, cart@, created_by, at);
                let k = choose|k: int|
                    0 <= k < sent.len() && (#[trigger] sent[k]) == sold(
                        before.active[j],
                        cart@,
                        created_by,
                        at,
                    );
                let m = before.archive.len() + k;
                assert(self@.archive[m] == sent[k]);
                lemma_index_unique(self@.archive, id, m);
                if holds_id(self@.active, id) {
                    let a = choose|a: int| 0 <= a < self@.active.len() && (#[trigger] self@.active[a]).id == id;
                    assert(self@.active[a].id != self@.archive[m].id);
                }
            }
        }
        Ok(())
    }

    /// Closes the cart `cart_id` now.
    pub fn close_cart(&mut self, cart_id: &str, created_by: u32) -> (r: ServiceResult<()>)
        requires
            old(self).wf(),
        ensures
            final(self).wf(),
            r is Ok,
            final(self)@.active == staying(old(self)@.active, cart_id@),
            exists|at: Timestamp|
                final(self)@.archive == old(self)@.archive + leaving(
                    old(self)@.active,
                    cart_id@,
                    created_by,
                    at,
                ),
            forall|i: int|
                0 <= i < final(self)@.active.len() ==> !leaves_with_cart(
                    #[trigger] final(self)@.active[i],
                    cart_id@,
                ),
            forall|j: int|
                0 <= j < old(self)@.active.len() && leaves_with_cart(
                    #[trigger] old(self)@.active[j],
                    cart_id@,
                ) ==> {
                    &&& !holds_id(final(self)@.active, old(self)@.active[j].id)
                    &&& holds_id(final(self)@.archive, old(self)@.active[j].id)
                    &&& lot_of(final(self)@.archive, old(self)@.active[j].id).location
                        == LocationView::Cart(cart_id@)
                    &&& (old(self)@.active[j].lock == LockView::Cart(cart_id@) || old(
                        self,
                    )@.active[j].lock is NoLock) ==> lot_of(
                        final(self)@.archive,
                        old(self)@.active[j].id,
                    ).lock is NoLock
                },
    {
        self.close_cart_at(cart_id, created_by, now())
    }

    /// Handles the requests to create a lot one after the other at the
    /// instant `at`, and returns the identifiers of the lots that were
    /// created. A request that is refused changes nothing and does not stop
    /// the others.
    pub fn create_new_bulk_at(
        &mut self,
        requests: &Vec<UplNew>,
        at: Timestamp,
    ) -> (ids: Vec<String>)
        requires
            old(self).wf(),
        ensures
            final(self).wf(),
            final(self)@ == created_all(old(self)@, views(requests@), at),
            views(ids@) == accepted_ids(old(self)@, views(requests@), at),
    {
        let ghost before = self@;
        let mut ids: Vec<String> = Vec::new();
        let mut k: usize = 0;
        proof {
            assert(views(requests@).take(0) =~= Seq::<UplNewView>::empty());
            assert(views(ids@) =~= Seq::<Seq<char>>::empty());
        }
        while k < requests.len()
            invariant
                self.wf(),
                k <= requests.len(),
                self@ == created_all(before, views(requests@).take(k as int), at),
                views(ids@) == accepted_ids(before, views(requests@).take(k as int), at),
            decreases requests.len() - k,
        {
            proof {
                let next = views(requests@).take(k + 1);
                assert(next.drop_last() =~= views(requests@).take(k as int));
                assert(next.last() == requests@[k as int]@);
            }
            match self.create_new_at(requests[k].clone(), at) {
                Ok(obj) => {
                    proof {
                        lemma_views_push(ids@, obj.id);
                    }
                    ids.push(obj.id);
                },
                Err(_) => {},
            }
            k += 1;
        }
        assert(views(requests@).take(k as int) =~= views(requests@));
        ids
    }

    /// Handles the requests to create a lot one after the other now.
    pub fn create_new_bulk(&mut self, requests: &Vec<UplNew>) -> (ids: Vec<String>)
        requires
            old(self).wf(),
        ensures
            final(self).wf(),
            exists|at: Timestamp|
                {
                    &&& final(self)@ == created_all(old(self)@, views(requests@), at)
                    &&& views(ids@) == accepted_ids(old(self)@, views(requests@), at)
                },
    {
        self.create_new_bulk_at(requests, now())
    }

    /// Moves the active lot with the identifier `upl_id` to the archive, at
    /// the instant `at`.
    pub fn archive_upl_at(&mut self, upl_id: &str, at: Timestamp) -> (r: ServiceResult<()>)
        requires
            old(self).wf(),
        ensures
            final(self).wf(),
            r is Ok <==> holds_id(old(self)@.active, upl_id@),
            r is Ok ==> final(self)@ == (RegistryView {
                active: old(self)@.removed(upl_id@).active,
                archive: old(self)@.archive.push(lot_of(old(self)@.active, upl_id@).archived(at)),
            }),
            r matches Err(e) ==> e is NotFound && final(self)@ == old(self)@,
    {
        let i = match self.locate(upl_id) {
            Ok(i) => i,
            Err(e) => {
                return Err(e);
            },
        };
        let mut lot = self.remove_active(i);
        lot.log(UplHistoryEvent::Archived, CreatedBy::Technical, at);
        self.push_archive(lot);
        Ok(())
    }

    /// Moves the active lot with the identifier `upl_id` to the archive, now.
    pub fn archive_upl(&mut self, upl_id: &str) -> (r: ServiceResult<()>)
        requires
            old(self).wf(),
        ensures
            final(self).wf(),
            r is Ok <==> holds_id(old(self)@.active, upl_id@),
            r is Ok ==> exists|at: Timestamp|
                final(self)@ == (RegistryView {
                    active: old(self)@.removed(upl_id@).active,
                    archive: old(self)@.archive.push(
                        lot_of(old(self)@.active, upl_id@).archived(at),
                    ),
                }),
            r matches Err(e) ==> e is NotFound && final(self)@ == old(self)@,
    {
        self.archive_upl_at(upl_id, now())
    }

    /// Brings the archived lot with the identifier `upl_id` back among the
    /// active lots at the instant `at`, held by `lock`, and shows it. A lot
    /// comes back only under a lock.
    pub fn restore_at(
        &mut self,
        upl_id: &str,
        lock: Lock,
        created_by: u32,
        at: Timestamp,
    ) -> (r: ServiceResult<UplObj>)
        requires
            old(self).wf(),
        ensures
            final(self).wf(),
            r is Ok <==> holds_id(old(self)@.archive, upl_id@) && !(lock@ is NoLock),
            r matches Ok(obj) ==> restore_outcome(
                old(self)@,
                final(self)@,
                upl_id@,
                lock@,
                created_by,
                at,
                obj,
            ),
            r matches Err(e) ==> final(self)@ == old(self)@,
            r matches Err(e) ==> (e is NotFound <==> !holds_id(old(self)@.archive, upl_id@)),
            r matches Err(e) ==> (e is BadRequest <==> holds_id(old(self)@.archive, upl_id@)),
    {
        let key = upl_id.to_owned();
        let i = match position(self.archive(), &key) {
            Some(i) => i,
            None => {
                return Err(
                    ServiceError::not_found("A keresett UPL nem található az archívumban!"),
                );
            },
        };
        if lock.is_none() {
            return Err(ServiceError::bad_request("A UPL csak zárolással állítható vissza!"));
        }
        proof {
            lemma_index_unique(self@.archive, upl_id@, i as int);
        }
        let mut lot = self.remove_archived(i);
        lot.lock = lock;
        lot.log(UplHistoryEvent::Restored, CreatedBy::Uid(created_by), at);
        let obj = UplObj::from_at(&lot, &at);
        self.push_active(lot);
        Ok(obj)
    }

    /// Brings the archived lot with the identifier `upl_id` back among the
    /// active lots now, held by `lock`.
    pub fn restore(
        &mut self,
        upl_id: &str,
        lock: Lock,
        created_by: u32,
    ) -> (r: ServiceResult<UplObj>)
        requires
            old(self).wf(),
        ensures
            final(self).wf(),
            r is Ok <==> holds_id(old(self)@.archive, upl_id@) && !(lock@ is NoLock),
            r matches Ok(obj) ==> exists|at: Timestamp|
                restore_outcome(old(self)@, final(self)@, upl_id@, lock@, created_by, at, obj),
            r matches Err(e) ==> final(self)@ == old(self)@,
            r matches Err(e) ==> (e is NotFound <==> !holds_id(old(self)@.archive, upl_id@)),
            r matches Err(e) ==> (e is BadRequest <==> holds_id(old(self)@.archive, upl_id@)),
    {
        self.restore_at(upl_id, lock, created_by, now())
    }
}

/// No identifier is stored in both collections of a well-formed registry.
pub proof fn law_collections_are_disjoint(registry: RegistryView, id: Seq<char>)
    requires
        registry.wf(),
    ensures
        !(holds_id(registry.active, id) && holds_id(registry.archive, id)),
{
    if holds_id(registry.active, id) && holds_id(registry.archive, id) {
        let i = choose|i: int| 0 <= i < registry.active.len() && (#[trigger] registry.active[i]).id == id;
        let j = choose|j: int|
            0 <= j < registry.archive.len() && (#[trigger] registry.archive[j]).id == id;
        assert(registry.active[i].id != registry.archive[j].id);
    }
}

} // verus!
