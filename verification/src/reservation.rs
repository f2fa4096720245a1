//! Reservations of a cart: an amount of a stock-keeping unit, or of a
//! divided product, that is set aside for the cart.

use vstd::prelude::*;

verus! {

/// Where a reservation holds.
#[derive(Debug, Clone, Copy, PartialEq, Eq, Structural)]
pub enum Scope {
    /// In the stock with this id.
    Local(u32),
    /// Over all locations.
    Global,
}

impl Default for Scope {
    fn default() -> (scope: Self)
        ensures
            scope == Scope::Global,
    {
        Scope::Global
    }
}

/// What is reserved.
#[derive(Debug, Clone, Copy, PartialEq, Eq, Structural)]
pub enum Subject {
    /// Units of the stock-keeping unit with this id.
    Sku(u32),
    /// An amount of the divided product with this id.
    DividedProduct(u32),
}

impl Default for Subject {
    fn default() -> (subject: Self)
        ensures
            subject == Subject::Sku(0),
    {
        Subject::Sku(0)
    }
}

/// A reservation of a cart.
#[derive(Debug, Clone, Copy, PartialEq, Eq, Structural)]
pub struct Reservation {
    /// The cart that owns the reservation.
    pub cart_id: u32,
    /// What is reserved.
    pub subject: Subject,
    /// Where the reservation holds.
    pub scope: Scope,
    /// The amount that is reserved.
    pub reserved_amount: u32,
    /// The amount that was taken already.
    pub already_taken: u32,
}

impl Default for Reservation {
    fn default() -> (reservation: Self)
        ensures
            reservation == (Reservation {
                cart_id: 0,
                subject: Subject::Sku(0),
                scope: Scope::Global,
                reserved_amount: 0,
                already_taken: 0,
            }),
    {
        Reservation {
            cart_id: 0,
            subject: Subject::Sku(0),
            scope: Scope::Global,
            reserved_amount: 0,
            already_taken: 0,
        }
    }
}

/// What a reservation offers.
pub trait ReservationMethods: Sized {
    /// A reservation of which nothing is taken yet.
    fn new(cart_id: u32, subject: Subject, scope: Scope, reserved_amount: u32) -> Self;

    /// The cart that owns the reservation.
    fn get_cart_id(&self) -> &u32;

    /// What is reserved.
    fn get_subject(&self) -> &Subject;

    /// Where the reservation holds.
    fn get_scope(&self) -> &Scope;

    /// The amount that is reserved.
    fn get_amount_reserved(&self) -> &u32;

    /// The amount that was taken already.
    fn get_amount_taken(&self) -> &u32;

    /// Sets the amount that is reserved.
    fn set_amount_reserved(&mut self, amount: u32);

    /// Sets the amount that was taken already.
    fn set_amount_taken(&mut self, amount: u32);
}

impl ReservationMethods for Reservation {
    fn new(
        cart_id: u32,
        subject: Subject,
        scope: Scope,
        reserved_amount: u32,
    ) -> (reservation: Self)
        ensures
            reservation == (Reservation {
                cart_id,
                subject,
                scope,
                reserved_amount,
                already_taken: 0,
            }),
    {
        Reservation { cart_id, subject, scope, reserved_amount, already_taken: 0 }
    }

    fn get_cart_id(&self) -> (id: &u32)
        ensures
            *id == self.cart_id,
    {
        &self.cart_id
    }

    fn get_subject(&self) -> (subject: &Subject)
        ensures
            *subject == self.subject,
    {
        &self.subject
    }

    fn get_scope(&self) -> (scope: &Scope)
        ensures
            *scope == self.scope,
    {
        &self.scope
    }

    fn get_amount_reserved(&self) -> (amount: &u32)
        ensures
            *amount == self.reserved_amount,
    {
        &self.reserved_amount
    }

    fn get_amount_taken(&self) -> (amount: &u32)
        ensures
            *amount == self.already_taken,
    {
        &self.already_taken
    }

    fn set_amount_reserved(&mut self, amount: u32)
        ensures
            *final(self) == (Reservation { reserved_amount: amount, ..*old(self) }),
    {
        self.reserved_amount = amount;
    }

    fn set_amount_taken(&mut self, amount: u32)
        ensures
            *final(self) == (Reservation { already_taken: amount, ..*old(self) }),
    {
        self.already_taken = amount;
    }
}

} // verus!
