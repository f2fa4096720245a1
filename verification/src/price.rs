//! The retail price of a stock-keeping unit and the history of its changes.

use crate::time::{now, Timestamp};
use crate::vat::VAT;
use vstd::prelude::*;
use vstd::string::StringExecFns;

verus! {

/// One retail price of a stock-keeping unit, as it was set.
#[derive(Debug, Clone, Copy, PartialEq, Eq, Structural)]
pub struct HistoryItem {
    pub net_retail_price: u32,
    pub vat: VAT,
    pub gross_retail_price: u32,
    /// The user who set the price.
    pub created_by: u32,
    /// When the price was set.
    pub created_at: Timestamp,
}

impl HistoryItem {
    /// The entry for a price that `created_by` set now.
    pub fn new(
        net_retail_price: u32,
        vat: VAT,
        gross_retail_price: u32,
        created_by: u32,
    ) -> (item: Self)
        ensures
            item.net_retail_price == net_retail_price,
            item.vat == vat,
            item.gross_retail_price == gross_retail_price,
            item.created_by == created_by,
    {
        HistoryItem { net_retail_price, vat, gross_retail_price, created_by, created_at: now() }
    }
}

impl Default for HistoryItem {
    fn default() -> (item: Self)
        ensures
            item.net_retail_price == 0,
            item.vat == VAT::_27,
            item.gross_retail_price == 0,
            item.created_by == 0,
    {
        HistoryItem::new(0, VAT::_27, 0, 0)
    }
}

/// The retail price of a stock-keeping unit.
#[derive(Debug)]
pub struct Sku {
    pub sku: u32,
    pub net_retail_price: u32,
    pub vat: VAT,
    pub gross_retail_price: u32,
    /// The prices that were set, oldest first.
    pub history: Vec<HistoryItem>,
}

/// The view of a `Sku`.
pub struct SkuView {
    pub sku: u32,
    pub net_retail_price: u32,
    pub vat: VAT,
    pub gross_retail_price: u32,
    pub history: Seq<HistoryItem>,
}

impl View for Sku {
    type V = SkuView;

    open spec fn view(&self) -> SkuView {
        SkuView {
            sku: self.sku,
            net_retail_price: self.net_retail_price,
            vat: self.vat,
            gross_retail_price: self.gross_retail_price,
            history: self.history@,
        }
    }
}

impl SkuView {
    /// The stock-keeping unit after the price was set at the instant `at`.
    pub open spec fn priced(
        self,
        net_retail_price: u32,
        vat: VAT,
        gross_retail_price: u32,
        created_by: u32,
        at: Timestamp,
    ) -> SkuView {
        SkuView {
            net_retail_price,
            vat,
            gross_retail_price,
            history: self.history.push(
                HistoryItem {
                    net_retail_price,
                    vat,
                    gross_retail_price,
                    created_by,
                    created_at: at,
                },
            ),
            ..self
        }
    }
}

impl Default for Sku {
    fn default() -> (sku: Self)
        ensures
            sku@ == (SkuView {
                sku: 0,
                net_retail_price: 0,
                vat: VAT::_27,
                gross_retail_price: 0,
                history: Seq::empty(),
            }),
    {
        Sku { sku: 0, net_retail_price: 0, vat: VAT::_27, gross_retail_price: 0, history: Vec::new() }
    }
}

impl Sku {
    /// The stock-keeping unit `sku` without a price.
    pub fn new(sku: u32) -> (r: Self)
        ensures
            r@ == (SkuView {
                sku,
                net_retail_price: 0,
                vat: VAT::_27,
                gross_retail_price: 0,
                history: Seq::empty(),
            }),
    {
        Sku { sku, net_retail_price: 0, vat: VAT::_27, gross_retail_price: 0, history: Vec::new() }
    }

    /// Sets the price at the instant `at`. The price is refused where the
    /// gross price is not the net price with tax.
    pub fn set_price_at(
        &mut self,
        net_retail_price: u32,
        vat: VAT,
        gross_retail_price: u32,
        created_by: u32,
        at: Timestamp,
    ) -> (r: Result<(), String>)
        ensures
            r is Ok <==> vat.spec_gross(net_retail_price) == gross_retail_price,
            r is Ok ==> final(self)@ == old(self)@.priced(
                net_retail_price,
                vat,
                gross_retail_price,
                created_by,
                at,
            ),
            r is Err ==> final(self)@ == old(self)@,
    {
        if vat.gross(net_retail_price) != gross_retail_price {
            return Err(
                String::from_str(
                    "Ár hiba! A megadott nettó ár * ÁFA nem egyezik meg a bruttó árral!",
                ),
            );
        }
        self.net_retail_price = net_retail_price;
        self.vat = vat;
        self.gross_retail_price = gross_retail_price;
        self.history.push(
            HistoryItem { net_retail_price, vat, gross_retail_price, created_by, created_at: at },
        );
        Ok(())
    }

    /// Sets the price now.
    pub fn set_price(
        &mut self,
        net_retail_price: u32,
        vat: VAT,
        gross_retail_price: u32,
        created_by: u32,
    ) -> (r: Result<(), String>)
        ensures
            r is Ok <==> vat.spec_gross(net_retail_price) == gross_retail_price,
            r is Ok ==> exists|at: Timestamp|
                final(self)@ == old(self)@.priced(
                    net_retail_price,
                    vat,
                    gross_retail_price,
                    created_by,
                    at,
                ),
            r is Err ==> final(self)@ == old(self)@,
    {
        self.set_price_at(net_retail_price, vat, gross_retail_price, created_by, now())
    }

    /// The id of the stock-keeping unit.
    pub fn get_id(&self) -> (id: &u32)
        ensures
            *id == self.sku,
    {
        &self.sku
    }
}

} // verus!
