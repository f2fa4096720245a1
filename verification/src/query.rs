//! The scans of the active lots. Every scan walks all active lots and gives
//! its result in the order in which the lots are stored.

use crate::obj::{UplObj, UplObjView};
use crate::registry::UplService;
use crate::text::{lemma_views_push, views};
use crate::time::{now, Timestamp};
use crate::upl::{Location, LocationView, UplMethods, UplView};
use vstd::prelude::*;

verus! {

/// The identifiers of the lots of the product `product_id`, in the order of
/// the lots.
pub open spec fn ids_of_product(lots: Seq<UplView>, product_id: u32) -> Seq<Seq<char>>
    decreases lots.len(),
{
    if lots.len() == 0 {
        Seq::empty()
    } else if lots.last().product_id == product_id {
        ids_of_product(lots.drop_last(), product_id).push(lots.last().id)
    } else {
        ids_of_product(lots.drop_last(), product_id)
    }
}

/// Whether a lot is asked for: it has the stock-keeping unit `sku`, where one
/// is given, and is at `location`, where one is given.
pub open spec fn is_selected(
    lot: UplView,
    sku: Option<u32>,
    location: Option<LocationView>,
) -> bool {
    &&& sku matches Some(sku) ==> lot.sku() == sku
    &&& location matches Some(location) ==> lot.location == location
}

/// The identifiers of the lots that are asked for, in the order of the lots.
pub open spec fn selected_ids(
    lots: Seq<UplView>,
    sku: Option<u32>,
    location: Option<LocationView>,
) -> Seq<Seq<char>>
    decreases lots.len(),
{
    if lots.len() == 0 {
        Seq::empty()
    } else if is_selected(lots.last(), sku, location) {
        selected_ids(lots.drop_last(), sku, location).push(lots.last().id)
    } else {
        selected_ids(lots.drop_last(), sku, location)
    }
}

/// What is shown of the lots whose identifier is among `ids`, in the order of
/// the lots.
pub open spec fn shown_among(lots: Seq<UplView>, ids: Seq<Seq<char>>, today: Timestamp) -> Seq<
    UplObjView,
>
    decreases lots.len(),
{
    if lots.len() == 0 {
        Seq::empty()
    } else if ids.contains(lots.last().id) {
        shown_among(lots.drop_last(), ids, today).push(lots.last().shown(today))
    } else {
        shown_among(lots.drop_last(), ids, today)
    }
}

/// The view of an optional location.
pub open spec fn location_view(location: Option<&Location>) -> Option<LocationView> {
    match location {
        Some(location) => Some(location@),
        None => None,
    }
}

/// Whether `id` is among `ids`.
fn is_among(ids: &Vec<String>, id: &String) -> (among: bool)
    ensures
        among == views(ids@).contains(id@),
{
    let mut k: usize = 0;
    while k < ids.len()
        invariant
            k <= ids.len(),
            forall|i: int| 0 <= i < k ==> views(ids@)[i] != id@,
        decreases ids.len() - k,
    {
        if ids[k] == *id {
            assert(views(ids@)[k as int] == id@);
            return true;
        }
        k += 1;
    }
    false
}

impl UplService {
    /// The identifiers of the active lots that have the stock-keeping unit
    /// `sku`, where one is given, and are at `location`, where one is given.
    pub fn select_ids(&self, sku: Option<u32>, location: Option<&Location>) -> (ids: Vec<String>)
        ensures
            views(ids@) == selected_ids(self@.active, sku, location_view(location)),
    {
        let lots = self.upls();
        let mut ids: Vec<String> = Vec::new();
        let mut k: usize = 0;
        assert(views(ids@) =~= Seq::<Seq<char>>::empty());
        assert(views(lots@).take(0) =~= Seq::<UplView>::empty());
        while k < lots.len()
            invariant
                k <= lots.len(),
                views(ids@) == selected_ids(views(lots@).take(k as int), sku, location_view(location)),
            decreases lots.len() - k,
        {
            proof {
                let next = views(lots@).take(k + 1);
                assert(next.drop_last() =~= views(lots@).take(k as int));
                assert(next.last() == lots@[k as int]@);
            }
            let lot = &lots[k];
            let sku_fits = match sku {
                Some(sku) => lot.get_sku() == sku,
                None => true,
            };
            let location_fits = match location {
                Some(location) => lot.location == *location,
                None => true,
            };
            if sku_fits && location_fits {
                proof {
                    lemma_views_push(ids@, lot.id);
                }
                ids.push(lot.id.clone());
            }
            k += 1;
        }
        assert(views(lots@).take(k as int) =~= views(lots@));
        ids
    }

    /// The identifiers of the active lots of the product `product_id`.
    pub fn get_by_product(&self, product_id: u32) -> (ids: Vec<String>)
        ensures
            views(ids@) == ids_of_product(self@.active, product_id),
    {
        let lots = self.upls();
        let mut ids: Vec<String> = Vec::new();
        let mut k: usize = 0;
        assert(views(ids@) =~= Seq::<Seq<char>>::empty());
        assert(views(lots@).take(0) =~= Seq::<UplView>::empty());
        while k < lots.len()
            invariant
                k <= lots.len(),
                views(ids@) == ids_of_product(views(lots@).take(k as int), product_id),
            decreases lots.len() - k,
        {
            proof {
                let next = views(lots@).take(k + 1);
                assert(next.drop_last() =~= views(lots@).take(k as int));
                assert(next.last() == lots@[k as int]@);
            }
            if lots[k].get_product_id() == product_id {
                proof {
                    lemma_views_push(ids@, lots[k as int].id);
                }
                ids.push(lots[k].id.clone());
            }
            k += 1;
        }
        assert(views(lots@).take(k as int) =~= views(lots@));
        ids
    }

    /// The identifiers of the active lots of the stock-keeping unit `sku`.
    pub fn get_by_sku(&self, sku: u32) -> (ids: Vec<String>)
        ensures
            views(ids@) == selected_ids(self@.active, Some(sku), None),
    {
        self.select_ids(Some(sku), None)
    }

    /// The identifiers of the active lots of the stock-keeping unit `sku` at
    /// `location`.
    pub fn get_by_sku_and_location(&self, sku: u32, location: &Location) -> (ids: Vec<String>)
        ensures
            views(ids@) == selected_ids(self@.active, Some(sku), Some(location@)),
    {
        self.select_ids(Some(sku), Some(location))
    }

    /// The identifiers of the active lots at `location`.
    pub fn get_by_location(&self, location: &Location) -> (ids: Vec<String>)
        ensures
            views(ids@) == selected_ids(self@.active, None, Some(location@)),
    {
        self.select_ids(None, Some(location))
    }

    /// What the registry shows, on the day of `today`, of the active lots
    /// whose identifier is among `upl_ids`.
    pub fn get_bulk_at(&self, upl_ids: &Vec<String>, today: Timestamp) -> (objs: Vec<UplObj>)
        ensures
            views(objs@) == shown_among(self@.active, views(upl_ids@), today),
    {
        let lots = self.upls();
        let mut objs: Vec<UplObj> = Vec::new();
        let mut k: usize = 0;
        assert(views(objs@) =~= Seq::<UplObjView>::empty());
        assert(views(lots@).take(0) =~= Seq::<UplView>::empty());
        while k < lots.len()
            invariant
                k <= lots.len(),
                views(objs@) == shown_among(views(lots@).take(k as int), views(upl_ids@), today),
            decreases lots.len() - k,
        {
            proof {
                let next = views(lots@).take(k + 1);
                assert(next.drop_last() =~= views(lots@).take(k as int));
                assert(next.last() == lots@[k as int]@);
            }
            if is_among(upl_ids, &lots[k].id) {
                let obj = UplObj::from_at(&lots[k], &today);
                proof {
                    lemma_views_push(objs@, obj);
                }
                objs.push(obj);
            }
            k += 1;
        }
        assert(views(lots@).take(k as int) =~= views(lots@));
        objs
    }

    /// What the registry shows today of the active lots whose identifier is
    /// among `upl_ids`.
    pub fn get_bulk(&self, upl_ids: &Vec<String>) -> (objs: Vec<UplObj>)
        ensures
            exists|today: Timestamp|
                views(objs@) == shown_among(self@.active, views(upl_ids@), today),
    {
        self.get_bulk_at(upl_ids, now())
    }
}

} // verus!
