//! The operations of the registry on one lot: creating it, reading it and
//! every transition of its state machine, each found by the identifier of
//! the lot.
//!
//! An operation either succeeds and changes the one lot, or fails and leaves
//! the registry as it was. As with the lot itself, the form whose name ends
//! in `_at` takes the instant of the operation as an argument.

use crate::luhn::spec_valid_id;
use crate::obj::{UplNew, UplNewView, UplObj};
use crate::prelude::{ServiceError, ServiceResult};
use crate::registry::{
    holds_id, lemma_index_unique, lemma_update_keeps_ids, lot_of, position, RegistryView, UplService,
};
use crate::time::{now, parse_rfc3339, spec_parse_rfc3339, Timestamp};
use crate::upl::{Kind, Location, Lock, LockView, Upl, UplView};
use crate::vat::VAT;
use vstd::prelude::*;

verus! {

/// What an operation on the lot with the identifier `id` makes of the
/// registry `before`, where the operation is legal for the lot if `legal`
/// holds and makes `next` of it: without the lot nothing is found, an illegal
/// operation is a bad request, and both leave the registry as it was; a legal
/// one puts `next` in the place of the lot and shows it.
pub open spec fn single_lot_outcome(
    before: RegistryView,
    after: RegistryView,
    id: Seq<char>,
    legal: bool,
    next: UplView,
    today: Timestamp,
    r: ServiceResult<UplObj>,
) -> bool {
    if !holds_id(before.active, id) {
        r matches Err(e) && e is NotFound && after == before
    } else if !legal {
        r matches Err(e) && e is BadRequest && after == before
    } else {
        r matches Ok(obj) && obj@ == next.shown(today) && after == before.with_active(next)
    }
}

/// What marking the lot with the identifier `id` as depreciated makes of the
/// registry: legal for a lot that is not depreciated yet.
pub open spec fn depreciate_outcome(
    before: RegistryView,
    after: RegistryView,
    id: Seq<char>,
    depreciation_id: u32,
    comment: Seq<char>,
    by: u32,
    at: Timestamp,
    r: ServiceResult<UplObj>,
) -> bool {
    let lot = lot_of(before.active, id);
    single_lot_outcome(
        before,
        after,
        id,
        lot.depreciation is None,
        lot.depreciated(depreciation_id, comment, by, at),
        at,
        r,
    )
}

/// What taking the depreciation off the lot with the identifier `id` makes of
/// the registry: legal for a depreciated lot.
pub open spec fn undepreciate_outcome(
    before: RegistryView,
    after: RegistryView,
    id: Seq<char>,
    by: u32,
    at: Timestamp,
    r: ServiceResult<UplObj>,
) -> bool {
    let lot = lot_of(before.active, id);
    single_lot_outcome(
        before,
        after,
        id,
        lot.depreciation is Some,
        lot.undepreciated(by, at),
        at,
        r,
    )
}

/// What setting or clearing the special price of the lot with the identifier
/// `id` makes of the registry: legal for a depreciated lot.
pub open spec fn special_price_outcome(
    before: RegistryView,
    after: RegistryView,
    id: Seq<char>,
    price: Option<u32>,
    by: u32,
    at: Timestamp,
    r: ServiceResult<UplObj>,
) -> bool {
    let lot = lot_of(before.active, id);
    single_lot_outcome(
        before,
        after,
        id,
        lot.depreciation is Some,
        lot.with_depreciation_price(price, by, at),
        at,
        r,
    )
}

/// What locking the lot with the identifier `id` by `lock` makes of the
/// registry: legal for a lot that nothing holds.
pub open spec fn lock_outcome(
    before: RegistryView,
    after: RegistryView,
    id: Seq<char>,
    lock: LockView,
    by: u32,
    at: Timestamp,
    r: ServiceResult<UplObj>,
) -> bool {
    let lot = lot_of(before.active, id);
    single_lot_outcome(before, after, id, lot.can_lock(), lot.locked(lock, by, at), at, r)
}

/// What releasing the lot with the identifier `id` from `lock` makes of the
/// registry: legal for a lot that this lock holds.
pub open spec fn release_outcome(
    before: RegistryView,
    after: RegistryView,
    id: Seq<char>,
    lock: LockView,
    by: u32,
    at: Timestamp,
    r: ServiceResult<UplObj>,
) -> bool {
    let lot = lot_of(before.active, id);
    single_lot_outcome(before, after, id, lot.lock == lock, lot.unlocked(by, at), at, r)
}

/// What opening the lot with the identifier `id` makes of the registry.
pub open spec fn open_outcome(
    before: RegistryView,
    after: RegistryView,
    id: Seq<char>,
    at: Timestamp,
    r: ServiceResult<UplObj>,
) -> bool {
    let lot = lot_of(before.active, id);
    single_lot_outcome(before, after, id, lot.can_open(), lot.opened(at), at, r)
}

/// What closing the lot with the identifier `id` makes of the registry.
pub open spec fn close_outcome(
    before: RegistryView,
    after: RegistryView,
    id: Seq<char>,
    at: Timestamp,
    r: ServiceResult<UplObj>,
) -> bool {
    let lot = lot_of(before.active, id);
    single_lot_outcome(before, after, id, lot.can_close(), lot.closed(at), at, r)
}

/// What setting or clearing the best-before date of the lot with the
/// identifier `id` makes of the registry: legal for every lot.
pub open spec fn best_before_outcome(
    before: RegistryView,
    after: RegistryView,
    id: Seq<char>,
    best_before: Option<Timestamp>,
    by: u32,
    at: Timestamp,
    r: ServiceResult<UplObj>,
) -> bool {
    let lot = lot_of(before.active, id);
    single_lot_outcome(
        before,
        after,
        id,
        true,
        lot.with_best_before(best_before, by, at),
        at,
        r,
    )
}

/// What a best-before date in a request means: the empty string stands for
/// no date, an RFC 3339 string for its instant, and anything else for
/// nothing.
pub open spec fn spec_best_before(text: Seq<char>) -> Option<Option<Timestamp>> {
    if text.len() == 0 {
        Some(None)
    } else {
        match spec_parse_rfc3339(text) {
            Some(at) => Some(Some(at)),
            None => None,
        }
    }
}

/// The best-before date that a request gives: none for the empty string, the
/// instant of an RFC 3339 string, and a bad request for anything else.
pub fn read_best_before(text: &str) -> (r: ServiceResult<Option<Timestamp>>)
    ensures
        match spec_best_before(text@) {
            Some(best_before) => r == Ok::<Option<Timestamp>, ServiceError>(best_before),
            None => r matches Err(e) && e is BadRequest,
        },
{
    if text.is_empty() {
        Ok(None)
    } else {
        match parse_rfc3339(text) {
            Some(at) => Ok(Some(at)),
            None => Err(ServiceError::bad_request("A megadott dátum invalid!")),
        }
    }
}

/// What creating the lot of `request` makes of the registry `before`, where
/// `best_before` is the best-before date that the request gives: a tax class
/// that is none, or an identifier that is not valid, is a bad request; an
/// identifier that is stored already is refused as existing; all of these
/// leave the registry as it was. Else the new lot is a further active lot,
/// and it is shown.
pub open spec fn create_outcome(
    before: RegistryView,
    after: RegistryView,
    request: UplNewView,
    best_before: Option<Timestamp>,
    at: Timestamp,
    r: ServiceResult<UplObj>,
) -> bool {
    match VAT::spec_from_str(request.sku_vat) {
        None => r matches Err(e) && e is BadRequest && after == before,
        Some(vat) => {
            let lot = request.lot(best_before, vat, at);
            if !spec_valid_id(request.upl_id) {
                r matches Err(e) && e is BadRequest && after == before
            } else if before.holds(request.upl_id) {
                r matches Err(e) && e is AlreadyExists && after == before
            } else {
                r matches Ok(obj) && obj@ == lot.shown(at) && after == before.inserted(lot)
            }
        },
    }
}

/// What splitting `piece` units off the bulk with the identifier `id` makes
/// of the registry `before`: without the bulk nothing is found, an illegal
/// split is a bad request, a new identifier that is stored already is
/// refused as existing, and all of these leave the registry as it was. Else
/// the bulk has lost the units, the new lot is a further active lot, and the
/// bulk is shown.
pub open spec fn split_outcome(
    before: RegistryView,
    after: RegistryView,
    id: Seq<char>,
    new_id: Seq<char>,
    piece: u32,
    by: u32,
    at: Timestamp,
    r: ServiceResult<UplObj>,
) -> bool {
    let lot = lot_of(before.active, id);
    if !holds_id(before.active, id) {
        r matches Err(e) && e is NotFound && after == before
    } else if !lot.can_split(new_id, piece) {
        r matches Err(e) && e is BadRequest && after == before
    } else if before.holds(new_id) {
        r matches Err(e) && e is AlreadyExists && after == before
    } else {
        &&& r matches Ok(obj)
        &&& obj@ == lot.split_parent(new_id, piece, by, at).shown(at)
        &&& after == before.with_active(lot.split_parent(new_id, piece, by, at)).inserted(
            lot.split_child(new_id, piece),
        )
    }
}

/// What portioning `amount` sub-units out of the opened lot with the
/// identifier `id` makes of the registry `before`; as `split_outcome`.
pub open spec fn divide_outcome(
    before: RegistryView,
    after: RegistryView,
    id: Seq<char>,
    new_id: Seq<char>,
    amount: u32,
    by: u32,
    at: Timestamp,
    r: ServiceResult<UplObj>,
) -> bool {
    let lot = lot_of(before.active, id);
    if !holds_id(before.active, id) {
        r matches Err(e) && e is NotFound && after == before
    } else if !lot.can_divide(new_id, amount) {
        r matches Err(e) && e is BadRequest && after == before
    } else if before.holds(new_id) {
        r matches Err(e) && e is AlreadyExists && after == before
    } else {
        &&& r matches Ok(obj)
        &&& obj@ == lot.divide_parent(new_id, amount, by, at).shown(at)
        &&& after == before.with_active(lot.divide_parent(new_id, amount, by, at)).inserted(
            lot.divide_child(new_id, amount, by, at),
        )
    }
}

/// What putting the portion with the identifier `id` back into its opened
/// lot makes of the registry `before`: the portion and the lot that it came
/// out of have to be active lots, else nothing is found; a lot that is no
/// portion, or a merge that is not legal, is a bad request; amounts that do
/// not fit together are an internal error; all of these leave the registry
/// as it was. Else the opened lot has the amount back and the portion is
/// gone.
pub open spec fn merge_back_outcome(
    before: RegistryView,
    after: RegistryView,
    id: Seq<char>,
    by: u32,
    at: Timestamp,
    r: ServiceResult<()>,
) -> bool {
    let child = lot_of(before.active, id);
    if !holds_id(before.active, id) {
        r matches Err(e) && e is NotFound && after == before
    } else if !(child.kind is DerivedProduct) {
        r matches Err(e) && e is BadRequest && after == before
    } else {
        let parent_id = child.kind->DerivedProduct_derived_from;
        let parent = lot_of(before.active, parent_id);
        if !holds_id(before.active, parent_id) {
            r matches Err(e) && e is NotFound && after == before
        } else if !parent.can_merge(child) {
            r matches Err(e) && e is BadRequest && after == before
        } else if !parent.merge_fits(child) {
            r matches Err(e) && e is InternalError && after == before
        } else {
            r is Ok && after == before.with_active(parent.merged(child, by, at)).removed(id)
        }
    }
}

impl UplService {
    /// The position of the active lot with the identifier `id`.
    pub(crate) fn locate(&self, id: &str) -> (r: ServiceResult<usize>)
        requires
            self.wf(),
        ensures
            r is Ok <==> holds_id(self@.active, id@),
            r matches Ok(i) ==> i < self@.active.len() && self@.active[i as int] == lot_of(
                self@.active,
                id@,
            ) && self@.active[i as int].id == id@,
            r matches Err(e) ==> e is NotFound,
    {
        let key = id.to_owned();
        match position(self.upls(), &key) {
            Some(i) => {
                proof {
                    lemma_index_unique(self@.active, id@, i as int);
                }
                Ok(i)
            },
            None => Err(ServiceError::not_found("A keresett UPL nem található!")),
        }
    }

    /// Puts `lot` in the place of the active lot at position `i` and shows it.
    pub(crate) fn commit(&mut self, i: usize, lot: Upl, today: &Timestamp) -> (obj: UplObj)
        requires
            old(self).wf(),
            i < old(self)@.active.len(),
            lot@.id == old(self)@.active[i as int].id,
        ensures
            final(self).wf(),
            final(self)@ == old(self)@.with_active(lot@),
            obj@ == lot@.shown(*today),
    {
        let obj = UplObj::from_at(&lot, today);
        self.replace_active(i, lot);
        obj
    }

    /// What the registry shows of the active lot with the identifier `upl_id`
    /// on the day of `today`.
    pub fn get_by_id_at(&self, upl_id: &str, today: Timestamp) -> (r: ServiceResult<UplObj>)
        requires
            self.wf(),
        ensures
            r is Ok <==> holds_id(self@.active, upl_id@),
            r matches Ok(obj) ==> obj@ == lot_of(self@.active, upl_id@).shown(today),
            r matches Err(e) ==> e is NotFound,
    {
        let i = match self.locate(upl_id) {
            Ok(i) => i,
            Err(e) => {
                return Err(e);
            },
        };
        Ok(UplObj::from_at(&self.upls()[i], &today))
    }

    /// What the registry shows of the active lot with the identifier `upl_id`
    /// today.
    pub fn get_by_id(&self, upl_id: &str) -> (r: ServiceResult<UplObj>)
        requires
            self.wf(),
        ensures
            r is Ok <==> holds_id(self@.active, upl_id@),
            r matches Ok(obj) ==> exists|today: Timestamp|
                obj@ == lot_of(self@.active, upl_id@).shown(today),
            r matches Err(e) ==> e is NotFound,
    {
        self.get_by_id_at(upl_id, now())
    }

    /// What the registry shows of the archived lot with the identifier
    /// `upl_id` on the day of `today`: the lot, marked as archived.
    pub fn get_by_id_archive_at(&self, upl_id: &str, today: Timestamp) -> (r: ServiceResult<UplObj>)
        requires
            self.wf(),
        ensures
            r is Ok <==> holds_id(self@.archive, upl_id@),
            r matches Ok(obj) ==> obj@ == lot_of(self@.archive, upl_id@).shown_archived(today),
            r matches Ok(obj) ==> obj.is_archived,
            r matches Err(e) ==> e is NotFound,
    {
        let key = upl_id.to_owned();
        match position(self.archive(), &key) {
            Some(i) => {
                proof {
                    lemma_index_unique(self@.archive, upl_id@, i as int);
                }
                let mut obj = UplObj::from_at(&self.archive()[i], &today);
                obj.is_archived = true;
                Ok(obj)
            },
            None => Err(ServiceError::not_found("A keresett UPL nem található az archívumban!")),
        }
    }

    /// What the registry shows of the archived lot with the identifier
    /// `upl_id` today.
    pub fn get_by_id_archive(&self, upl_id: &str) -> (r: ServiceResult<UplObj>)
        requires
            self.wf(),
        ensures
            r is Ok <==> holds_id(self@.archive, upl_id@),
            r matches Ok(obj) ==> obj.is_archived && exists|today: Timestamp|
                obj@ == lot_of(self@.archive, upl_id@).shown_archived(today),
            r matches Err(e) ==> e is NotFound,
    {
        self.get_by_id_archive_at(upl_id, now())
    }

    /// Marks the lot as depreciated, at the instant `at`.
    pub fn set_depreciation_at(
        &mut self,
        upl: &str,
        depreciation_id: u32,
        depreciation_comment: String,
        created_by: u32,
        at: Timestamp,
    ) -> (r: ServiceResult<UplObj>)
        requires
            old(self).wf(),
        ensures
            final(self).wf(),
            depreciate_outcome(
                old(self)@,
                final(self)@,
                upl@,
                depreciation_id,
                depreciation_comment@,
                created_by,
                at,
                r,
            ),
    {
        let i = match self.locate(upl) {
            Ok(i) => i,
            Err(e) => {
                return Err(e);
            },
        };
        let mut lot = self.upls()[i].clone();
        match lot.set_depreciation_at(depreciation_id, depreciation_comment, created_by, at) {
            Ok(()) => {},
            Err(e) => {
                return Err(e);
            },
        }
        Ok(self.commit(i, lot, &at))
    }

    /// Marks the lot as depreciated, now.
    pub fn set_depreciation(
        &mut self,
        upl: &str,
        depreciation_id: u32,
        depreciation_comment: String,
        created_by: u32,
    ) -> (r: ServiceResult<UplObj>)
        requires
            old(self).wf(),
        ensures
            final(self).wf(),
            exists|at: Timestamp|
                depreciate_outcome(
                    old(self)@,
                    final(self)@,
                    upl@,
                    depreciation_id,
                    depreciation_comment@,
                    created_by,
                    at,
                    r,
                ),
    {
        self.set_depreciation_at(upl, depreciation_id, depreciation_comment, created_by, now())
    }

    /// Takes the depreciation off the lot, at the instant `at`.
    pub fn remove_depreciation_at(
        &mut self,
        upl: &str,
        created_by: u32,
        at: Timestamp,
    ) -> (r: ServiceResult<UplObj>)
        requires
            old(self).wf(),
        ensures
            final(self).wf(),
            undepreciate_outcome(
                old(self)@,
                final(self)@,
                upl@,
                created_by,
                at,
                r,
            ),
    {
        let i = match self.locate(upl) {
            Ok(i) => i,
            Err(e) => {
                return Err(e);
            },
        };
        let mut lot = self.upls()[i].clone();
        match lot.remove_deprecation_at(created_by, at) {
            Ok(()) => {},
            Err(e) => {
                return Err(e);
            },
        }
        Ok(self.commit(i, lot, &at))
    }

    /// Takes the depreciation off the lot, now.
    pub fn remove_depreciation(
        &mut self,
        upl: &str,
        created_by: u32,
    ) -> (r: ServiceResult<UplObj>)
        requires
            old(self).wf(),
        ensures
            final(self).wf(),
            exists|at: Timestamp|
                undepreciate_outcome(
                    old(self)@,
                    final(self)@,
                    upl@,
                    created_by,
                    at,
                    r,
                ),
    {
        self.remove_depreciation_at(upl, created_by, now())
    }

    /// Sets the special net price of the depreciated lot, at the instant `at`.
    pub fn set_depreciation_price_at(
        &mut self,
        upl: &str,
        depreciation_net_price: u32,
        created_by: u32,
        at: Timestamp,
    ) -> (r: ServiceResult<UplObj>)
        requires
            old(self).wf(),
        ensures
            final(self).wf(),
            special_price_outcome(
                old(self)@,
                final(self)@,
                upl@,
                Some(depreciation_net_price),
                created_by,
                at,
                r,
            ),
    {
        let i = match self.locate(upl) {
            Ok(i) => i,
            Err(e) => {
                return Err(e);
            },
        };
        let mut lot = self.upls()[i].clone();
        match lot.set_depreciation_price_at(Some(depreciation_net_price), created_by, at) {
            Ok(()) => {},
            Err(e) => {
                return Err(e);
            },
        }
        Ok(self.commit(i, lot, &at))
    }

    /// Sets the special net price of the depreciated lot, now.
    pub fn set_depreciation_price(
        &mut self,
        upl: &str,
        depreciation_net_price: u32,
        created_by: u32,
    ) -> (r: ServiceResult<UplObj>)
        requires
            old(self).wf(),
        ensures
            final(self).wf(),
            exists|at: Timestamp|
                special_price_outcome(
                    old(self)@,
                    final(self)@,
                    upl@,
                    Some(depreciation_net_price),
                    created_by,
                    at,
                    r,
                ),
    {
        self.set_depreciation_price_at(upl, depreciation_net_price, created_by, now())
    }

    /// Clears the special net price of the depreciated lot, at the instant `at`.
    pub fn remove_deprecation_price_at(
        &mut self,
        upl: &str,
        created_by: u32,
        at: Timestamp,
    ) -> (r: ServiceResult<UplObj>)
        requires
            old(self).wf(),
        ensures
            final(self).wf(),
            special_price_outcome(
                old(self)@,
                final(self)@,
                upl@,
                None,
                created_by,
                at,
                r,
            ),
    {
        let i = match self.locate(upl) {
            Ok(i) => i,
            Err(e) => {
                return Err(e);
            },
        };
        let mut lot = self.upls()[i].clone();
        match lot.set_depreciation_price_at(None, created_by, at) {
            Ok(()) => {},
            Err(e) => {
                return Err(e);
            },
        }
        Ok(self.commit(i, lot, &at))
    }

    /// Clears the special net price of the depreciated lot, now.
    pub fn remove_deprecation_price(
        &mut self,
        upl: &str,
        created_by: u32,
    ) -> (r: ServiceResult<UplObj>)
        requires
            old(self).wf(),
        ensures
            final(self).wf(),
            exists|at: Timestamp|
                special_price_outcome(
                    old(self)@,
                    final(self)@,
                    upl@,
                    None,
                    created_by,
                    at,
                    r,
                ),
    {
        self.remove_deprecation_price_at(upl, created_by, now())
    }

    /// Locks the lot to the cart `cart_id`, at the instant `at`.
    pub fn lock_to_cart_at(
        &mut self,
        upl: &str,
        cart_id: String,
        created_by: u32,
        at: Timestamp,
    ) -> (r: ServiceResult<UplObj>)
        requires
            old(self).wf(),
        ensures
            final(self).wf(),
            lock_outcome(
                old(self)@,
                final(self)@,
                upl@,
                LockView::Cart(cart_id@),
                created_by,
                at,
                r,
            ),
    {
        let i = match self.locate(upl) {
            Ok(i) => i,
            Err(e) => {
                return Err(e);
            },
        };
        let mut lot = self.upls()[i].clone();
        match lot.lock_at(Lock::Cart(cart_id), created_by, at) {
            Ok(()) => {},
            Err(e) => {
                return Err(e);
            },
        }
        Ok(self.commit(i, lot, &at))
    }

    /// Locks the lot to the cart `cart_id`, now.
    pub fn lock_to_cart(
        &mut self,
        upl: &str,
        cart_id: String,
        created_by: u32,
    ) -> (r: ServiceResult<UplObj>)
        requires
            old(self).wf(),
        ensures
            final(self).wf(),
            exists|at: Timestamp|
                lock_outcome(
                    old(self)@,
                    final(self)@,
                    upl@,
                    LockView::Cart(cart_id@),
                    created_by,
                    at,
                    r,
                ),
    {
        self.lock_to_cart_at(upl, cart_id, created_by, now())
    }

    /// Releases the lot from the cart `cart_id`, where it is locked to that cart, at the instant `at`.
    pub fn release_lock_from_cart_at(
        &mut self,
        upl: &str,
        cart_id: String,
        created_by: u32,
        at: Timestamp,
    ) -> (r: ServiceResult<UplObj>)
        requires
            old(self).wf(),
        ensures
            final(self).wf(),
            release_outcome(
                old(self)@,
                final(self)@,
                upl@,
                LockView::Cart(cart_id@),
                created_by,
                at,
                r,
            ),
    {
        let i = match self.locate(upl) {
            Ok(i) => i,
            Err(e) => {
                return Err(e);
            },
        };
        let mut lot = self.upls()[i].clone();
        match lot.unlock_at(Lock::Cart(cart_id), created_by, at) {
            Ok(()) => {},
            Err(e) => {
                return Err(e);
            },
        }
        Ok(self.commit(i, lot, &at))
    }

    /// Releases the lot from the cart `cart_id`, where it is locked to that cart, now.
    pub fn release_lock_from_cart(
        &mut self,
        upl: &str,
        cart_id: String,
        created_by: u32,
    ) -> (r: ServiceResult<UplObj>)
        requires
            old(self).wf(),
        ensures
            final(self).wf(),
            exists|at: Timestamp|
                release_outcome(
                    old(self)@,
                    final(self)@,
                    upl@,
                    LockView::Cart(cart_id@),
                    created_by,
                    at,
                    r,
                ),
    {
        self.release_lock_from_cart_at(upl, cart_id, created_by, now())
    }

    /// Locks the lot to the inventory check `inventory_id`, at the instant `at`.
    pub fn lock_to_inventory_at(
        &mut self,
        upl: &str,
        inventory_id: u32,
        created_by: u32,
        at: Timestamp,
    ) -> (r: ServiceResult<UplObj>)
        requires
            old(self).wf(),
        ensures
            final(self).wf(),
            lock_outcome(
                old(self)@,
                final(self)@,
                upl@,
                LockView::Inventory(inventory_id),
                created_by,
                at,
                r,
            ),
    {
        let i = match self.locate(upl) {
            Ok(i) => i,
            Err(e) => {
                return Err(e);
            },
        };
        let mut lot = self.upls()[i].clone();
        match lot.lock_at(Lock::Inventory(inventory_id), created_by, at) {
            Ok(()) => {},
            Err(e) => {
                return Err(e);
            },
        }
        Ok(self.commit(i, lot, &at))
    }

    /// Locks the lot to the inventory check `inventory_id`, now.
    pub fn lock_to_inventory(
        &mut self,
        upl: &str,
        inventory_id: u32,
        created_by: u32,
    ) -> (r: ServiceResult<UplObj>)
        requires
            old(self).wf(),
        ensures
            final(self).wf(),
            exists|at: Timestamp|
                lock_outcome(
                    old(self)@,
                    final(self)@,
                    upl@,
                    LockView::Inventory(inventory_id),
                    created_by,
                    at,
                    r,
                ),
    {
        self.lock_to_inventory_at(upl, inventory_id, created_by, now())
    }

    /// Releases the lot from the inventory check `inventory_id`, where it is locked to
    /// that check, at the instant `at`.
    pub fn release_lock_from_inventory_at(
        &mut self,
        upl: &str,
        inventory_id: u32,
        created_by: u32,
        at: Timestamp,
    ) -> (r: ServiceResult<UplObj>)
        requires
            old(self).wf(),
        ensures
            final(self).wf(),
            release_outcome(
                old(self)@,
                final(self)@,
                upl@,
                LockView::Inventory(inventory_id),
                created_by,
                at,
                r,
            ),
    {
        let i = match self.locate(upl) {
            Ok(i) => i,
            Err(e) => {
                return Err(e);
            },
        };
        let mut lot = self.upls()[i].clone();
        match lot.unlock_at(Lock::Inventory(inventory_id), created_by, at) {
            Ok(()) => {},
            Err(e) => {
                return Err(e);
            },
        }
        Ok(self.commit(i, lot, &at))
    }

    /// Releases the lot from the inventory check `inventory_id`, where it is locked to
    /// that check, now.
    pub fn release_lock_from_inventory(
        &mut self,
        upl: &str,
        inventory_id: u32,
        created_by: u32,
    ) -> (r: ServiceResult<UplObj>)
        requires
            old(self).wf(),
        ensures
            final(self).wf(),
            exists|at: Timestamp|
                release_outcome(
                    old(self)@,
                    final(self)@,
                    upl@,
                    LockView::Inventory(inventory_id),
                    created_by,
                    at,
                    r,
                ),
    {
        self.release_lock_from_inventory_at(upl, inventory_id, created_by, now())
    }

    /// Opens the package of the lot, at the instant `at`.
    pub fn open_upl_at(&mut self, upl: &str, at: Timestamp) -> (r: ServiceResult<UplObj>)
        requires
            old(self).wf(),
        ensures
            final(self).wf(),
            open_outcome(
                old(self)@,
                final(self)@,
                upl@,
                at,
                r,
            ),
    {
        let i = match self.locate(upl) {
            Ok(i) => i,
            Err(e) => {
                return Err(e);
            },
        };
        let mut lot = self.upls()[i].clone();
        match lot.open_at(at) {
            Ok(()) => {},
            Err(e) => {
                return Err(e);
            },
        }
        Ok(self.commit(i, lot, &at))
    }

    /// Opens the package of the lot, now.
    pub fn open_upl(&mut self, upl: &str) -> (r: ServiceResult<UplObj>)
        requires
            old(self).wf(),
        ensures
            final(self).wf(),
            exists|at: Timestamp|
                open_outcome(
                    old(self)@,
                    final(self)@,
                    upl@,
                    at,
                    r,
                ),
    {
        self.open_upl_at(upl, now())
    }

    /// Closes the package of the opened lot, at the instant `at`.
    pub fn close_upl_at(&mut self, upl: &str, at: Timestamp) -> (r: ServiceResult<UplObj>)
        requires
            old(self).wf(),
        ensures
            final(self).wf(),
            close_outcome(
                old(self)@,
                final(self)@,
                upl@,
                at,
                r,
            ),
    {
        let i = match self.locate(upl) {
            Ok(i) => i,
            Err(e) => {
                return Err(e);
            },
        };
        let mut lot = self.upls()[i].clone();
        match lot.close_at(at) {
            Ok(()) => {},
            Err(e) => {
                return Err(e);
            },
        }
        Ok(self.commit(i, lot, &at))
    }

    /// Closes the package of the opened lot, now.
    pub fn close_upl(&mut self, upl: &str) -> (r: ServiceResult<UplObj>)
        requires
            old(self).wf(),
        ensures
            final(self).wf(),
            exists|at: Timestamp|
                close_outcome(
                    old(self)@,
                    final(self)@,
                    upl@,
                    at,
                    r,
                ),
    {
        self.close_upl_at(upl, now())
    }

    /// Sets or clears the best-before date of the lot at the instant `at`.
    pub fn set_best_before_to_at(
        &mut self,
        upl: &str,
        best_before: Option<Timestamp>,
        created_by: u32,
        at: Timestamp,
    ) -> (r: ServiceResult<UplObj>)
        requires
            old(self).wf(),
        ensures
            final(self).wf(),
            best_before_outcome(old(self)@, final(self)@, upl@, best_before, created_by, at, r),
    {
        let i = match self.locate(upl) {
            Ok(i) => i,
            Err(e) => {
                return Err(e);
            },
        };
        let mut lot = self.upls()[i].clone();
        lot.set_best_before_at(best_before, created_by, at);
        Ok(self.commit(i, lot, &at))
    }

    /// Sets the best-before date of the lot to the date that `best_before`
    /// writes, or clears it where `best_before` is empty, at the instant `at`.
    /// A string that is no date is refused before the lot is looked up.
    pub fn set_best_before_at(
        &mut self,
        upl: &str,
        best_before: &str,
        created_by: u32,
        at: Timestamp,
    ) -> (r: ServiceResult<UplObj>)
        requires
            old(self).wf(),
        ensures
            final(self).wf(),
            match spec_best_before(best_before@) {
                Some(date) => best_before_outcome(
                    old(self)@,
                    final(self)@,
                    upl@,
                    date,
                    created_by,
                    at,
                    r,
                ),
                None => r matches Err(e) && e is BadRequest && final(self)@ == old(self)@,
            },
    {
        let date = match read_best_before(best_before) {
            Ok(date) => date,
            Err(e) => {
                return Err(e);
            },
        };
        self.set_best_before_to_at(upl, date, created_by, at)
    }

    /// Sets or clears the best-before date of the lot now.
    pub fn set_best_before(
        &mut self,
        upl: &str,
        best_before: &str,
        created_by: u32,
    ) -> (r: ServiceResult<UplObj>)
        requires
            old(self).wf(),
        ensures
            final(self).wf(),
            match spec_best_before(best_before@) {
                Some(date) => exists|at: Timestamp|
                    best_before_outcome(
                        old(self)@,
                        final(self)@,
                        upl@,
                        date,
                        created_by,
                        at,
                        r,
                    ),
                None => r matches Err(e) && e is BadRequest && final(self)@ == old(self)@,
            },
    {
        self.set_best_before_at(upl, best_before, created_by, now())
    }

    /// Creates the lot of the request `r` at the instant `at`, with
    /// `best_before` as its best-before date, and stores it as an active lot.
    pub fn create_new_with_at(
        &mut self,
        r: UplNew,
        best_before: Option<Timestamp>,
        at: Timestamp,
    ) -> (res: ServiceResult<UplObj>)
        requires
            old(self).wf(),
        ensures
            final(self).wf(),
            create_outcome(old(self)@, final(self)@, r@, best_before, at, res),
    {
        let vat = match VAT::from_str(r.sku_vat.as_str()) {
            Ok(vat) => vat,
            Err(msg) => {
                return Err(ServiceError::BadRequest(msg));
            },
        };
        let lot = match Upl::new_at(
            r.upl_id,
            r.product_id,
            r.product_unit,
            r.sku,
            r.piece,
            r.sku_divisible_amount,
            r.sku_divisible,
            r.sku_net_price,
            vat,
            r.procurement_id,
            r.procurement_net_price_sku,
            Location::Stock(r.stock_id),
            best_before,
            r.is_opened,
            r.created_by,
            at,
        ) {
            Ok(lot) => lot,
            Err(e) => {
                return Err(e);
            },
        };
        let obj = UplObj::from_at(&lot, &at);
        match self.insert(lot) {
            Ok(()) => Ok(obj),
            Err(e) => Err(e),
        }
    }

    /// Creates the lot of the request `r` at the instant `at` and stores it as
    /// an active lot. A best-before date that is no date is a bad request.
    pub fn create_new_at(&mut self, r: UplNew, at: Timestamp) -> (res: ServiceResult<UplObj>)
        requires
            old(self).wf(),
        ensures
            final(self).wf(),
            match spec_best_before(r@.best_before) {
                Some(best_before) => create_outcome(
                    old(self)@,
                    final(self)@,
                    r@,
                    best_before,
                    at,
                    res,
                ),
                None => res matches Err(e) && e is BadRequest && final(self)@ == old(self)@,
            },
    {
        let best_before = match read_best_before(r.best_before.as_str()) {
            Ok(best_before) => best_before,
            Err(e) => {
                return Err(e);
            },
        };
        self.create_new_with_at(r, best_before, at)
    }

    /// Creates the lot of the request `r` now and stores it as an active lot.
    pub fn create_new(&mut self, r: UplNew) -> (res: ServiceResult<UplObj>)
        requires
            old(self).wf(),
        ensures
            final(self).wf(),
            match spec_best_before(r@.best_before) {
                Some(best_before) => exists|at: Timestamp|
                    create_outcome(old(self)@, final(self)@, r@, best_before, at, res),
                None => res matches Err(e) && e is BadRequest && final(self)@ == old(self)@,
            },
    {
        self.create_new_at(r, now())
    }

    /// Splits `piece` units off the bulk with the identifier `upl` at the
    /// instant `at`, stores them as the active lot `new_upl`, and shows the
    /// bulk.
    pub fn split_at(
        &mut self,
        upl: &str,
        new_upl: String,
        piece: u32,
        created_by: u32,
        at: Timestamp,
    ) -> (r: ServiceResult<UplObj>)
        requires
            old(self).wf(),
        ensures
            final(self).wf(),
            split_outcome(old(self)@, final(self)@, upl@, new_upl@, piece, created_by, at, r),
    {
        let i = match self.locate(upl) {
            Ok(i) => i,
            Err(e) => {
                return Err(e);
            },
        };
        let mut lot = self.upls()[i].clone();
        let child = match lot.split_at(new_upl.clone(), piece, created_by, at) {
            Ok(child) => child,
            Err(e) => {
                return Err(e);
            },
        };
        if self.contains(new_upl.as_str()) {
            return Err(ServiceError::already_exist("A megadott új UPL ID már létezik!"));
        }
        proof {
            lemma_update_keeps_ids(self@.active, i as int, lot@, new_upl@);
        }
        let obj = self.commit(i, lot, &at);
        self.push_active(child);
        Ok(obj)
    }

    /// Splits `piece` units off the bulk with the identifier `upl` now.
    pub fn split(
        &mut self,
        upl: &str,
        new_upl: String,
        piece: u32,
        created_by: u32,
    ) -> (r: ServiceResult<UplObj>)
        requires
            old(self).wf(),
        ensures
            final(self).wf(),
            exists|at: Timestamp|
                split_outcome(old(self)@, final(self)@, upl@, new_upl@, piece, created_by, at, r),
    {
        self.split_at(upl, new_upl, piece, created_by, now())
    }

    /// Portions `requested_amount` sub-units out of the opened lot with the
    /// identifier `upl` at the instant `at`, stores them as the active lot
    /// `new_upl`, and shows the opened lot.
    pub fn divide_at(
        &mut self,
        upl: &str,
        new_upl: String,
        requested_amount: u32,
        created_by: u32,
        at: Timestamp,
    ) -> (r: ServiceResult<UplObj>)
        requires
            old(self).wf(),
        ensures
            final(self).wf(),
            divide_outcome(
                old(self)@,
                final(self)@,
                upl@,
                new_upl@,
                requested_amount,
                created_by,
                at,
                r,
            ),
    {
        let i = match self.locate(upl) {
            Ok(i) => i,
            Err(e) => {
                return Err(e);
            },
        };
        let mut lot = self.upls()[i].clone();
        let child = match lot.divide_at(new_upl.clone(), requested_amount, created_by, at) {
            Ok(child) => child,
            Err(e) => {
                return Err(e);
            },
        };
        if self.contains(new_upl.as_str()) {
            return Err(ServiceError::already_exist("A megadott új UPL ID már létezik!"));
        }
        proof {
            lemma_update_keeps_ids(self@.active, i as int, lot@, new_upl@);
        }
        let obj = self.commit(i, lot, &at);
        self.push_active(child);
        Ok(obj)
    }

    /// Portions `requested_amount` sub-units out of the opened lot with the
    /// identifier `upl` now.
    pub fn divide(
        &mut self,
        upl: &str,
        new_upl: String,
        requested_amount: u32,
        created_by: u32,
    ) -> (r: ServiceResult<UplObj>)
        requires
            old(self).wf(),
        ensures
            final(self).wf(),
            exists|at: Timestamp|
                divide_outcome(
                    old(self)@,
                    final(self)@,
                    upl@,
                    new_upl@,
                    requested_amount,
                    created_by,
                    at,
                    r,
                ),
    {
        self.divide_at(upl, new_upl, requested_amount, created_by, now())
    }

    /// Puts the portion with the identifier `upl_to_merge_back` back into the
    /// opened lot that it came out of, at the instant `at`, and takes the
    /// portion out of the registry.
    pub fn merge_back_at(
        &mut self,
        upl_to_merge_back: &str,
        created_by: u32,
        at: Timestamp,
    ) -> (r: ServiceResult<()>)
        requires
            old(self).wf(),
        ensures
            final(self).wf(),
            merge_back_outcome(old(self)@, final(self)@, upl_to_merge_back@, created_by, at, r),
    {
        let c = match self.locate(upl_to_merge_back) {
            Ok(c) => c,
            Err(e) => {
                return Err(e);
            },
        };
        let child = self.upls()[c].clone();
        let p = match &child.kind {
            Kind::DerivedProduct { derived_from, .. } => match self.locate(derived_from.as_str()) {
                Ok(p) => p,
                Err(e) => {
                    return Err(e);
                },
            },
            _ => {
                return Err(
                    ServiceError::bad_request("A kért UPL nem kimért termék, így nem tehető vissza!"),
                );
            },
        };
        let mut parent = self.upls()[p].clone();
        match parent.merge_at(child, created_by, at) {
            Ok(()) => {},
            Err(e) => {
                return Err(e);
            },
        }
        let ghost before = self@;
        self.replace_active(p, parent);
        proof {
            assert(self@.active[c as int] == before.active[c as int]);
            lemma_index_unique(self@.active, upl_to_merge_back@, c as int);
        }
        let _ = self.remove_active(c);
        Ok(())
    }

    /// Puts the portion with the identifier `upl_to_merge_back` back into the
    /// opened lot that it came out of, now.
    pub fn merge_back(&mut self, upl_to_merge_back: &str, created_by: u32) -> (r: ServiceResult<()>)
        requires
            old(self).wf(),
        ensures
            final(self).wf(),
            exists|at: Timestamp|
                merge_back_outcome(
                    old(self)@,
                    final(self)@,
                    upl_to_merge_back@,
                    created_by,
                    at,
                    r,
                ),
    {
        self.merge_back_at(upl_to_merge_back, created_by, now())
    }
}

} // verus!
