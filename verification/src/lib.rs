//! Registry of unique product lots: identifiers with check digits, the state
//! machine of a single lot, and the keyed collections that hold the lots.

pub mod id;
pub mod luhn;
pub mod prelude;
pub mod quantity;
pub mod text;
pub mod time;
pub mod vat;
pub mod upl;
pub mod state;
pub mod ops;
pub mod obj;
pub mod registry;
pub mod service;
pub mod query;
pub mod bulk;
pub mod info;
pub mod reservation;
pub mod price;
pub mod product;
pub mod index;
