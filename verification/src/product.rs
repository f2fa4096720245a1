//! A product of the catalogue and the stock-keeping units that belong to it.

use crate::quantity::Unit;
use crate::time::{now, Timestamp};
use vstd::prelude::*;

verus! {

/// A product of the catalogue.
#[derive(Debug)]
pub struct Product {
    pub product_id: u32,
    pub name: String,
    pub description: String,
    /// The unit in which the product is counted.
    pub unit: Unit,
    /// Whether the product is no longer procured.
    pub discontinued: bool,
    /// Whether a best-before date has to be given at procurement.
    pub perishable: bool,
    /// The stock-keeping units of the product.
    pub skus: Vec<u32>,
    pub created_by: u32,
    pub created_at: Timestamp,
}

/// The view of a `Product`.
pub struct ProductView {
    pub product_id: u32,
    pub name: Seq<char>,
    pub description: Seq<char>,
    pub unit: Unit,
    pub discontinued: bool,
    pub perishable: bool,
    pub skus: Seq<u32>,
    pub created_by: u32,
    pub created_at: Timestamp,
}

impl View for Product {
    type V = ProductView;

    open spec fn view(&self) -> ProductView {
        ProductView {
            product_id: self.product_id,
            name: self.name@,
            description: self.description@,
            unit: self.unit,
            discontinued: self.discontinued,
            perishable: self.perishable,
            skus: self.skus@,
            created_by: self.created_by,
            created_at: self.created_at,
        }
    }
}

impl ProductView {
    /// A new product, created at the instant `at`: procured, not perishable,
    /// without stock-keeping units.
    pub open spec fn created(
        product_id: u32,
        name: Seq<char>,
        description: Seq<char>,
        unit: Unit,
        created_by: u32,
        at: Timestamp,
    ) -> ProductView {
        ProductView {
            product_id,
            name,
            description,
            unit,
            discontinued: false,
            perishable: false,
            skus: Seq::empty(),
            created_by,
            created_at: at,
        }
    }
}

impl Clone for Product {
    fn clone(&self) -> (copy: Self)
        ensures
            copy@ == self@,
    {
        Product {
            product_id: self.product_id,
            name: self.name.clone(),
            description: self.description.clone(),
            unit: self.unit,
            discontinued: self.discontinued,
            perishable: self.perishable,
            skus: self.skus.clone(),
            created_by: self.created_by,
            created_at: self.created_at,
        }
    }
}

impl Product {
    /// A new product, created at the instant `at`.
    pub fn new_at(
        product_id: u32,
        name: String,
        description: String,
        unit: Unit,
        created_by: u32,
        at: Timestamp,
    ) -> (product: Self)
        ensures
            product@ == ProductView::created(
                product_id,
                name@,
                description@,
                unit,
                created_by,
                at,
            ),
    {
        Product {
            product_id,
            name,
            description,
            unit,
            discontinued: false,
            perishable: false,
            skus: Vec::new(),
            created_by,
            created_at: at,
        }
    }

    /// A new product, created now.
    pub fn new(product_id: u32, name: String, description: String, unit: Unit, created_by: u32) -> (product:
        Self)
        ensures
            exists|at: Timestamp|
                product@ == ProductView::created(
                    product_id,
                    name@,
                    description@,
                    unit,
                    created_by,
                    at,
                ),
    {
        Product::new_at(product_id, name, description, unit, created_by, now())
    }

    /// Sets the name, the description and the unit of the product.
    pub fn update(&mut self, name: String, description: String, unit: Unit)
        ensures
            final(self)@ == (ProductView {
                name: name@,
                description: description@,
                unit,
                ..old(self)@
            }),
    {
        self.name = name;
        self.description = description;
        self.unit = unit;
    }

    /// Adds a stock-keeping unit to the product.
    pub fn add_sku(&mut self, sku: u32)
        ensures
            final(self)@ == (ProductView { skus: old(self)@.skus.push(sku), ..old(self)@ }),
    {
        self.skus.push(sku);
    }

    /// Sets whether the product is no longer procured.
    pub fn set_discontinued(&mut self, discontinued: bool)
        ensures
            final(self)@ == (ProductView { discontinued, ..old(self)@ }),
    {
        self.discontinued = discontinued;
    }

    /// Sets whether a best-before date has to be given at procurement.
    pub fn set_perishable(&mut self, perishable: bool)
        ensures
            final(self)@ == (ProductView { perishable, ..old(self)@ }),
    {
        self.perishable = perishable;
    }

    /// The id of the product.
    pub fn get_id(&self) -> (id: &u32)
        ensures
            *id == self.product_id,
    {
        &self.product_id
    }
}

impl Default for Product {
    /// The product that stands for no product, counted in millilitres and
    /// created now.
    fn default() -> (product: Self)
        ensures
            exists|at: Timestamp|
                product@ == ProductView::created(
                    0,
                    Seq::empty(),
                    Seq::empty(),
                    Unit::Milliliter,
                    0,
                    at,
                ),
    {
        let at = now();
        let product = Product::new_at(0, String::new(), String::new(), Unit::Milliliter, 0, at);
        assert(product@ == ProductView::created(
            0,
            Seq::empty(),
            Seq::empty(),
            Unit::Milliliter,
            0,
            at,
        ));
        product
    }
}

} // verus!
