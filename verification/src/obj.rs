//! What the registry takes to create a lot and what it shows of a lot.

use crate::time::{now, Timestamp};
use crate::upl::{
    Kind, KindView, Location, LocationView, Lock, LockView, Upl, UplMethods, UplView,
};
use crate::vat::VAT;
use vstd::prelude::*;

verus! {

/// The request to create a lot.
#[derive(Debug)]
pub struct UplNew {
    /// The identifier of the new lot.
    pub upl_id: String,
    pub product_id: u32,
    pub product_unit: String,
    pub sku: u32,
    /// The units of a bulk, or the remaining amount of an opened lot.
    pub piece: u32,
    pub sku_divisible_amount: u32,
    pub sku_divisible: bool,
    pub sku_net_price: u32,
    /// The name of the tax class.
    pub sku_vat: String,
    pub procurement_id: u32,
    pub procurement_net_price_sku: u32,
    /// The stock that the lot is put in.
    pub stock_id: u32,
    /// The best-before date as an RFC 3339 string; empty where there is none.
    pub best_before: String,
    pub is_opened: bool,
    pub created_by: u32,
}

/// The view of a `UplNew`.
pub struct UplNewView {
    pub upl_id: Seq<char>,
    pub product_id: u32,
    pub product_unit: Seq<char>,
    pub sku: u32,
    pub piece: u32,
    pub sku_divisible_amount: u32,
    pub sku_divisible: bool,
    pub sku_net_price: u32,
    pub sku_vat: Seq<char>,
    pub procurement_id: u32,
    pub procurement_net_price_sku: u32,
    pub stock_id: u32,
    pub best_before: Seq<char>,
    pub is_opened: bool,
    pub created_by: u32,
}

impl View for UplNew {
    type V = UplNewView;

    open spec fn view(&self) -> UplNewView {
        UplNewView {
            upl_id: self.upl_id@,
            product_id: self.product_id,
            product_unit: self.product_unit@,
            sku: self.sku,
            piece: self.piece,
            sku_divisible_amount: self.sku_divisible_amount,
            sku_divisible: self.sku_divisible,
            sku_net_price: self.sku_net_price,
            sku_vat: self.sku_vat@,
            procurement_id: self.procurement_id,
            procurement_net_price_sku: self.procurement_net_price_sku,
            stock_id: self.stock_id,
            best_before: self.best_before@,
            is_opened: self.is_opened,
            created_by: self.created_by,
        }
    }
}

impl Clone for UplNew {
    fn clone(&self) -> (copy: Self)
        ensures
            copy@ == self@,
    {
        UplNew {
            upl_id: self.upl_id.clone(),
            product_id: self.product_id,
            product_unit: self.product_unit.clone(),
            sku: self.sku,
            piece: self.piece,
            sku_divisible_amount: self.sku_divisible_amount,
            sku_divisible: self.sku_divisible,
            sku_net_price: self.sku_net_price,
            sku_vat: self.sku_vat.clone(),
            procurement_id: self.procurement_id,
            procurement_net_price_sku: self.procurement_net_price_sku,
            stock_id: self.stock_id,
            best_before: self.best_before.clone(),
            is_opened: self.is_opened,
            created_by: self.created_by,
        }
    }
}

impl UplNewView {
    /// The lot that the request asks for, with the best-before date and the
    /// tax class that its strings stand for, created at the instant `at`: a
    /// new lot in the stock that the request names.
    pub open spec fn lot(self, best_before: Option<Timestamp>, vat: VAT, at: Timestamp) -> UplView {
        UplView::created(
            self.upl_id,
            self.product_id,
            self.product_unit,
            self.sku,
            self.piece,
            self.sku_divisible_amount,
            self.sku_divisible,
            self.sku_net_price,
            vat,
            self.procurement_id,
            self.procurement_net_price_sku,
            LocationView::Stock(self.stock_id),
            best_before,
            self.is_opened,
            self.created_by,
            at,
        )
    }
}

/// The depreciation of a lot as the registry shows it.
#[derive(Debug)]
pub struct DepreciationObj {
    pub depreciation_id: u32,
    pub depreciation_comment: String,
}

/// The view of a `DepreciationObj`.
pub struct DepreciationObjView {
    pub depreciation_id: u32,
    pub depreciation_comment: Seq<char>,
}

impl View for DepreciationObj {
    type V = DepreciationObjView;

    open spec fn view(&self) -> DepreciationObjView {
        DepreciationObjView {
            depreciation_id: self.depreciation_id,
            depreciation_comment: self.depreciation_comment@,
        }
    }
}

/// The view of an optional `DepreciationObj`.
pub open spec fn depreciation_obj_view(d: Option<DepreciationObj>) -> Option<DepreciationObjView> {
    match d {
        Some(d) => Some(d@),
        None => None,
    }
}

/// A lot as the registry shows it: its data, and what follows from them on
/// the day it is shown.
#[derive(Debug)]
pub struct UplObj {
    pub id: String,
    pub product_id: u32,
    pub sku_id: u32,
    pub product_unit: String,
    pub kind: Kind,
    /// How many units the lot holds.
    pub upl_piece: u32,
    /// The amount that can still be portioned out; zero where none can.
    pub sku_divisible_amount: u32,
    pub has_special_price: bool,
    /// Whether the lot can be sold as sound goods.
    pub is_healty: bool,
    pub best_before: Option<Timestamp>,
    pub depreciation: Option<DepreciationObj>,
    pub procurement_id: u32,
    pub procurement_net_price: u32,
    pub procurement_net_price_sku: u32,
    pub is_divisible: bool,
    pub vat: VAT,
    /// The net price at which the lot is sold.
    pub price_net: u32,
    /// The gross price at which the lot is sold.
    pub price_gross: u32,
    /// The net margin at the price at which the lot is sold.
    pub margin_net: i64,
    pub lock: Lock,
    pub location: Location,
    /// Whether the lot was read from the archive.
    pub is_archived: bool,
    pub created_by: u32,
    pub created_at: Timestamp,
}

/// The view of a `UplObj`.
pub struct UplObjView {
    pub id: Seq<char>,
    pub product_id: u32,
    pub sku_id: u32,
    pub product_unit: Seq<char>,
    pub kind: KindView,
    pub upl_piece: u32,
    pub sku_divisible_amount: u32,
    pub has_special_price: bool,
    pub is_healty: bool,
    pub best_before: Option<Timestamp>,
    pub depreciation: Option<DepreciationObjView>,
    pub procurement_id: u32,
    pub procurement_net_price: u32,
    pub procurement_net_price_sku: u32,
    pub is_divisible: bool,
    pub vat: VAT,
    pub price_net: u32,
    pub price_gross: u32,
    pub margin_net: i64,
    pub lock: LockView,
    pub location: LocationView,
    pub is_archived: bool,
    pub created_by: u32,
    pub created_at: Timestamp,
}

impl View for UplObj {
    type V = UplObjView;

    open spec fn view(&self) -> UplObjView {
        UplObjView {
            id: self.id@,
            product_id: self.product_id,
            sku_id: self.sku_id,
            product_unit: self.product_unit@,
            kind: self.kind@,
            upl_piece: self.upl_piece,
            sku_divisible_amount: self.sku_divisible_amount,
            has_special_price: self.has_special_price,
            is_healty: self.is_healty,
            best_before: self.best_before,
            depreciation: depreciation_obj_view(self.depreciation),
            procurement_id: self.procurement_id,
            procurement_net_price: self.procurement_net_price,
            procurement_net_price_sku: self.procurement_net_price_sku,
            is_divisible: self.is_divisible,
            vat: self.vat,
            price_net: self.price_net,
            price_gross: self.price_gross,
            margin_net: self.margin_net,
            lock: self.lock@,
            location: self.location@,
            is_archived: self.is_archived,
            created_by: self.created_by,
            created_at: self.created_at,
        }
    }
}

impl UplView {
    /// The net margin at the price at which the lot is sold: the margin at
    /// the special price where one is recorded, else the margin of the lot.
    pub open spec fn retail_margin_net(self) -> i64 {
        match self.depreciation {
            Some(d) => match d.margin_net {
                Some(margin) => margin,
                None => self.margin_net,
            },
            None => self.margin_net,
        }
    }

    /// What the registry shows of the lot on the day of `today`, as a lot of
    /// the active collection.
    pub open spec fn shown(self, today: Timestamp) -> UplObjView {
        UplObjView {
            id: self.id,
            product_id: self.product_id,
            sku_id: self.sku(),
            product_unit: self.product_unit,
            kind: self.kind,
            upl_piece: self.pieces(),
            sku_divisible_amount: match self.divisible_amount() {
                Some(amount) => amount,
                None => 0,
            },
            has_special_price: self.special_price_net() is Some,
            is_healty: self.healthy_at(today),
            best_before: self.best_before,
            depreciation: match self.depreciation {
                Some(d) => Some(
                    DepreciationObjView {
                        depreciation_id: d.depreciation_id,
                        depreciation_comment: d.comment,
                    },
                ),
                None => None,
            },
            procurement_id: self.procurement_id,
            procurement_net_price: self.procurement_net_price,
            procurement_net_price_sku: self.procurement_net_price_sku,
            is_divisible: self.is_divisible(),
            vat: self.vat,
            price_net: self.retail_price_net(),
            price_gross: self.retail_price_gross(),
            margin_net: self.retail_margin_net(),
            lock: self.lock,
            location: self.location,
            is_archived: false,
            created_by: self.created_by,
            created_at: self.created_at,
        }
    }

    /// What the registry shows of the lot on the day of `today`, as a lot of
    /// the archive.
    pub open spec fn shown_archived(self, today: Timestamp) -> UplObjView {
        UplObjView { is_archived: true, ..self.shown(today) }
    }
}

impl UplObj {
    /// What the registry shows of `upl` on the day of `today`.
    pub fn from_at(upl: &Upl, today: &Timestamp) -> (obj: UplObj)
        ensures
            obj@ == upl@.shown(*today),
    {
        UplObj {
            id: upl.id.clone(),
            product_id: upl.product_id,
            sku_id: upl.get_sku(),
            product_unit: upl.product_unit.clone(),
            kind: upl.kind.clone(),
            upl_piece: upl.get_upl_piece(),
            sku_divisible_amount: match upl.get_divisible_amount() {
                Some(amount) => amount,
                None => 0,
            },
            has_special_price: upl.get_upl_has_special_price(),
            is_healty: upl.is_available_healthy_at(today),
            best_before: upl.best_before,
            depreciation: match &upl.depreciation {
                Some(d) => Some(
                    DepreciationObj {
                        depreciation_id: d.depreciation_id,
                        depreciation_comment: d.comment.clone(),
                    },
                ),
                None => None,
            },
            procurement_id: upl.procurement_id,
            procurement_net_price: upl.procurement_net_price,
            procurement_net_price_sku: upl.procurement_net_price_sku,
            is_divisible: upl.is_divisible(),
            vat: upl.vat,
            price_net: upl.get_upl_net_price(),
            price_gross: upl.get_upl_gross_price(),
            margin_net: match upl.get_upl_special_price_margin() {
                Some(margin) => margin,
                None => upl.margin_net,
            },
            lock: upl.lock.clone(),
            location: upl.location.clone(),
            is_archived: false,
            created_by: upl.created_by,
            created_at: upl.created_at,
        }
    }

    /// What the registry shows of `upl` today.
    pub fn from(upl: Upl) -> (obj: UplObj)
        ensures
            exists|today: Timestamp| obj@ == upl@.shown(today),
    {
        let today = now();
        UplObj::from_at(&upl, &today)
    }
}

} // verus!
