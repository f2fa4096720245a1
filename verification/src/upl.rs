//! The data of a unique product lot, and the mathematical view of each type.
//!
//! A view holds what a value holds, with every string as a sequence of
//! characters and every list as a sequence. The rules of the lot's state
//! machine are stated over views.

use crate::prelude::ServiceResult;
use crate::text::{clone_strings, lemma_views_push, views};
use crate::time::Timestamp;
use crate::vat::VAT;
use vstd::prelude::*;
use vstd::std_specs::cmp::PartialEqSpecImpl;

verus! {

/// Who caused an event.
#[derive(Debug, Clone, Copy, PartialEq, Eq, Structural)]
pub enum CreatedBy {
    /// A user, by id.
    Uid(u32),
    /// The software itself.
    Technical,
}

impl Default for CreatedBy {
    fn default() -> (by: Self)
        ensures
            by == CreatedBy::Technical,
    {
        CreatedBy::Technical
    }
}

/// Where a lot is.
#[derive(Debug)]
pub enum Location {
    /// In the stock with this id.
    Stock(u32),
    /// In the delivery with this id.
    Delivery(u32),
    /// In the cart with this id: sold.
    Cart(String),
    /// Discarded under this id.
    Discard(u32),
}

/// The view of a `Location`.
pub enum LocationView {
    Stock(u32),
    Delivery(u32),
    Cart(Seq<char>),
    Discard(u32),
}

impl View for Location {
    type V = LocationView;

    open spec fn view(&self) -> LocationView {
        match self {
            Location::Stock(id) => LocationView::Stock(*id),
            Location::Delivery(id) => LocationView::Delivery(*id),
            Location::Cart(id) => LocationView::Cart(id@),
            Location::Discard(id) => LocationView::Discard(*id),
        }
    }
}

impl Clone for Location {
    fn clone(&self) -> (copy: Self)
        ensures
            copy@ == self@,
    {
        match self {
            Location::Stock(id) => Location::Stock(*id),
            Location::Delivery(id) => Location::Delivery(*id),
            Location::Cart(id) => Location::Cart(id.clone()),
            Location::Discard(id) => Location::Discard(*id),
        }
    }
}

impl PartialEq for Location {
    fn eq(&self, other: &Self) -> (same: bool) {
        match self {
            Location::Stock(a) => match other {
                Location::Stock(b) => *a == *b,
                _ => false,
            },
            Location::Delivery(a) => match other {
                Location::Delivery(b) => *a == *b,
                _ => false,
            },
            Location::Cart(a) => match other {
                Location::Cart(b) => *a == *b,
                _ => false,
            },
            Location::Discard(a) => match other {
                Location::Discard(b) => *a == *b,
                _ => false,
            },
        }
    }
}

impl PartialEqSpecImpl for Location {
    open spec fn obeys_eq_spec() -> bool {
        true
    }

    open spec fn eq_spec(&self, other: &Self) -> bool {
        self@ == other@
    }
}

impl Default for Location {
    fn default() -> (location: Self)
        ensures
            location@ == LocationView::Stock(0),
    {
        Location::Stock(0)
    }
}

/// What holds a lot in place.
#[derive(Debug)]
pub enum Lock {
    /// The lot is reserved for the cart with this id.
    Cart(String),
    /// The lot is picked for the delivery with this id.
    Delivery(u32),
    /// The lot is under the inventory check with this id.
    Inventory(u32),
    /// Nothing holds the lot.
    NoLock,
}

/// The view of a `Lock`.
pub enum LockView {
    Cart(Seq<char>),
    Delivery(u32),
    Inventory(u32),
    NoLock,
}

impl View for Lock {
    type V = LockView;

    open spec fn view(&self) -> LockView {
        match self {
            Lock::Cart(id) => LockView::Cart(id@),
            Lock::Delivery(id) => LockView::Delivery(*id),
            Lock::Inventory(id) => LockView::Inventory(*id),
            Lock::NoLock => LockView::NoLock,
        }
    }
}

impl Clone for Lock {
    fn clone(&self) -> (copy: Self)
        ensures
            copy@ == self@,
    {
        match self {
            Lock::Cart(id) => Lock::Cart(id.clone()),
            Lock::Delivery(id) => Lock::Delivery(*id),
            Lock::Inventory(id) => Lock::Inventory(*id),
            Lock::NoLock => Lock::NoLock,
        }
    }
}

impl PartialEq for Lock {
    fn eq(&self, other: &Self) -> (same: bool) {
        match self {
            Lock::Cart(a) => match other {
                Lock::Cart(b) => *a == *b,
                _ => false,
            },
            Lock::Delivery(a) => match other {
                Lock::Delivery(b) => *a == *b,
                _ => false,
            },
            Lock::Inventory(a) => match other {
                Lock::Inventory(b) => *a == *b,
                _ => false,
            },
            Lock::NoLock => match other {
                Lock::NoLock => true,
                _ => false,
            },
        }
    }
}

impl PartialEqSpecImpl for Lock {
    open spec fn obeys_eq_spec() -> bool {
        true
    }

    open spec fn eq_spec(&self, other: &Self) -> bool {
        self@ == other@
    }
}

impl Default for Lock {
    fn default() -> (lock: Self)
        ensures
            lock@ == LockView::NoLock,
    {
        Lock::NoLock
    }
}

impl Lock {
    /// Whether nothing holds the lot.
    pub fn is_none(&self) -> (none: bool)
        ensures
            none == (self@ is NoLock),
    {
        match self {
            Lock::NoLock => true,
            _ => false,
        }
    }
}

/// What a lot physically is.
#[derive(Debug)]
pub enum Kind {
    /// One unit of a stock-keeping unit, unopened.
    Sku { sku: u32 },
    /// Several unopened units of one stock-keeping unit under one identifier.
    BulkSku { sku: u32, upl_pieces: u32 },
    /// A unit whose package is open; `amount` of it remains, and `successors`
    /// are the lots that were portioned out of it.
    OpenedSku { sku: u32, amount: u32, successors: Vec<String> },
    /// A portion that came out of the opened lot `derived_from`.
    DerivedProduct { derived_from: String, derived_from_sku: u32, amount: u32 },
}

/// The view of a `Kind`.
pub enum KindView {
    Sku { sku: u32 },
    BulkSku { sku: u32, upl_pieces: u32 },
    OpenedSku { sku: u32, amount: u32, successors: Seq<Seq<char>> },
    DerivedProduct { derived_from: Seq<char>, derived_from_sku: u32, amount: u32 },
}

impl View for Kind {
    type V = KindView;

    open spec fn view(&self) -> KindView {
        match self {
            Kind::Sku { sku } => KindView::Sku { sku: *sku },
            Kind::BulkSku { sku, upl_pieces } => KindView::BulkSku {
                sku: *sku,
                upl_pieces: *upl_pieces,
            },
            Kind::OpenedSku { sku, amount, successors } => KindView::OpenedSku {
                sku: *sku,
                amount: *amount,
                successors: views(successors@),
            },
            Kind::DerivedProduct { derived_from, derived_from_sku, amount } => {
                KindView::DerivedProduct {
                    derived_from: derived_from@,
                    derived_from_sku: *derived_from_sku,
                    amount: *amount,
                }
            },
        }
    }
}

impl Clone for Kind {
    fn clone(&self) -> (copy: Self)
        ensures
            copy@ == self@,
    {
        match self {
            Kind::Sku { sku } => Kind::Sku { sku: *sku },
            Kind::BulkSku { sku, upl_pieces } => Kind::BulkSku {
                sku: *sku,
                upl_pieces: *upl_pieces,
            },
            Kind::OpenedSku { sku, amount, successors } => Kind::OpenedSku {
                sku: *sku,
                amount: *amount,
                successors: clone_strings(successors),
            },
            Kind::DerivedProduct { derived_from, derived_from_sku, amount } => {
                Kind::DerivedProduct {
                    derived_from: derived_from.clone(),
                    derived_from_sku: *derived_from_sku,
                    amount: *amount,
                }
            },
        }
    }
}

impl Default for Kind {
    fn default() -> (kind: Self)
        ensures
            kind@ == (KindView::Sku { sku: 0 }),
    {
        Kind::Sku { sku: 0 }
    }
}

/// The mark-down of a damaged lot.
#[derive(Debug)]
pub struct Depreciation {
    /// The id of the depreciation record.
    pub depreciation_id: u32,
    /// The special net retail price, if one is set.
    pub net_retail_price: Option<u32>,
    /// The net margin at the special price, if one is set.
    pub margin_net: Option<i64>,
    /// Why the lot was depreciated.
    pub comment: String,
}

/// The view of a `Depreciation`.
pub struct DepreciationView {
    pub depreciation_id: u32,
    pub net_retail_price: Option<u32>,
    pub margin_net: Option<i64>,
    pub comment: Seq<char>,
}

impl View for Depreciation {
    type V = DepreciationView;

    open spec fn view(&self) -> DepreciationView {
        DepreciationView {
            depreciation_id: self.depreciation_id,
            net_retail_price: self.net_retail_price,
            margin_net: self.margin_net,
            comment: self.comment@,
        }
    }
}

impl Clone for Depreciation {
    fn clone(&self) -> (copy: Self)
        ensures
            copy@ == self@,
    {
        Depreciation {
            depreciation_id: self.depreciation_id,
            net_retail_price: self.net_retail_price,
            margin_net: self.margin_net,
            comment: self.comment.clone(),
        }
    }
}

impl Depreciation {
    /// A depreciation without a special price.
    pub fn new(depreciation_id: u32, comment: String) -> (d: Self)
        ensures
            d@ == (DepreciationView {
                depreciation_id,
                net_retail_price: None,
                margin_net: None,
                comment: comment@,
            }),
    {
        Depreciation { depreciation_id, net_retail_price: None, margin_net: None, comment }
    }

    /// Sets or clears the special price and the margin that goes with it.
    pub fn set_price(&mut self, net_retail_price: Option<u32>, margin_net: Option<i64>)
        ensures
            final(self)@ == (DepreciationView { net_retail_price, margin_net, ..old(self)@ }),
    {
        self.net_retail_price = net_retail_price;
        self.margin_net = margin_net;
    }
}

/// The view of an optional depreciation.
pub open spec fn depreciation_view(d: Option<Depreciation>) -> Option<DepreciationView> {
    match d {
        Some(d) => Some(d@),
        None => None,
    }
}

/// What happened to a lot.
#[derive(Debug)]
#[allow(inconsistent_fields)]
pub enum UplHistoryEvent {
    /// The lot was created.
    Created,
    /// The lot was moved to the archive.
    Archived,
    /// The lot was moved from one location to another.
    Moved { from: Location, to: Location },
    /// The best-before date was set or cleared.
    BestBeforeUpdated { to: Option<Timestamp> },
    /// The lot was locked.
    Locked { to: Lock },
    /// The lock of the lot was released.
    Unlocked,
    /// The lot was marked as depreciated.
    SetDeprecated { depreciation_id: u32, comment: String },
    /// The depreciation was taken off the lot.
    DeprecationRemoved,
    /// The special price of the depreciated lot was set or cleared.
    SetDepreciatedPrice { retail_net_price: Option<u32> },
    /// Pieces of the bulk were split off into a new lot.
    Split { new_upl_id: String },
    /// An amount of the opened lot was portioned out into a new lot.
    Divided { new_upl_id: String, requested_amount: u32 },
    /// The package of the lot was opened.
    Opened,
    /// The package of the lot was closed again.
    Closed,
    /// A portion came back into the opened lot.
    Merged { upl_id: String, amount: u32 },
    /// The price of the stock-keeping unit or its tax class changed.
    PriceChanged { sku_price_net: u32, vat: VAT },
    /// The lot came back from the archive.
    Restored,
    /// No event.
    NoEvent,
}

/// The view of a `UplHistoryEvent`.
#[allow(inconsistent_fields)]
pub enum HistoryEventView {
    Created,
    Archived,
    Moved { from: LocationView, to: LocationView },
    BestBeforeUpdated { to: Option<Timestamp> },
    Locked { to: LockView },
    Unlocked,
    SetDeprecated { depreciation_id: u32, comment: Seq<char> },
    DeprecationRemoved,
    SetDepreciatedPrice { retail_net_price: Option<u32> },
    Split { new_upl_id: Seq<char> },
    Divided { new_upl_id: Seq<char>, requested_amount: u32 },
    Opened,
    Closed,
    Merged { upl_id: Seq<char>, amount: u32 },
    PriceChanged { sku_price_net: u32, vat: VAT },
    Restored,
    NoEvent,
}

impl View for UplHistoryEvent {
    type V = HistoryEventView;

    open spec fn view(&self) -> HistoryEventView {
        match self {
            UplHistoryEvent::Created => HistoryEventView::Created,
            UplHistoryEvent::Archived => HistoryEventView::Archived,
            UplHistoryEvent::Moved { from, to } => HistoryEventView::Moved { from: from@, to: to@ },
            UplHistoryEvent::BestBeforeUpdated { to } => HistoryEventView::BestBeforeUpdated {
                to: *to,
            },
            UplHistoryEvent::Locked { to } => HistoryEventView::Locked { to: to@ },
            UplHistoryEvent::Unlocked => HistoryEventView::Unlocked,
            UplHistoryEvent::SetDeprecated { depreciation_id, comment } => {
                HistoryEventView::SetDeprecated {
                    depreciation_id: *depreciation_id,
                    comment: comment@,
                }
            },
            UplHistoryEvent::DeprecationRemoved => HistoryEventView::DeprecationRemoved,
            UplHistoryEvent::SetDepreciatedPrice { retail_net_price } => {
                HistoryEventView::SetDepreciatedPrice { retail_net_price: *retail_net_price }
            },
            UplHistoryEvent::Split { new_upl_id } => HistoryEventView::Split {
                new_upl_id: new_upl_id@,
            },
            UplHistoryEvent::Divided { new_upl_id, requested_amount } => {
                HistoryEventView::Divided {
                    new_upl_id: new_upl_id@,
                    requested_amount: *requested_amount,
                }
            },
            UplHistoryEvent::Opened => HistoryEventView::Opened,
            UplHistoryEvent::Closed => HistoryEventView::Closed,
            UplHistoryEvent::Merged { upl_id, amount } => HistoryEventView::Merged {
                upl_id: upl_id@,
                amount: *amount,
            },
            UplHistoryEvent::PriceChanged { sku_price_net, vat } => {
                HistoryEventView::PriceChanged { sku_price_net: *sku_price_net, vat: *vat }
            },
            UplHistoryEvent::Restored => HistoryEventView::Restored,
            UplHistoryEvent::NoEvent => HistoryEventView::NoEvent,
        }
    }
}

impl Clone for UplHistoryEvent {
    fn clone(&self) -> (copy: Self)
        ensures
            copy@ == self@,
    {
        match self {
            UplHistoryEvent::Created => UplHistoryEvent::Created,
            UplHistoryEvent::Archived => UplHistoryEvent::Archived,
            UplHistoryEvent::Moved { from, to } => UplHistoryEvent::Moved {
                from: from.clone(),
                to: to.clone(),
            },
            UplHistoryEvent::BestBeforeUpdated { to } => UplHistoryEvent::BestBeforeUpdated {
                to: *to,
            },
            UplHistoryEvent::Locked { to } => UplHistoryEvent::Locked { to: to.clone() },
            UplHistoryEvent::Unlocked => UplHistoryEvent::Unlocked,
            UplHistoryEvent::SetDeprecated { depreciation_id, comment } => {
                UplHistoryEvent::SetDeprecated {
                    depreciation_id: *depreciation_id,
                    comment: comment.clone(),
                }
            },
            UplHistoryEvent::DeprecationRemoved => UplHistoryEvent::DeprecationRemoved,
            UplHistoryEvent::SetDepreciatedPrice { retail_net_price } => {
                UplHistoryEvent::SetDepreciatedPrice { retail_net_price: *retail_net_price }
            },
            UplHistoryEvent::Split { new_upl_id } => UplHistoryEvent::Split {
                new_upl_id: new_upl_id.clone(),
            },
            UplHistoryEvent::Divided { new_upl_id, requested_amount } => {
                UplHistoryEvent::Divided {
                    new_upl_id: new_upl_id.clone(),
                    requested_amount: *requested_amount,
                }
            },
            UplHistoryEvent::Opened => UplHistoryEvent::Opened,
            UplHistoryEvent::Closed => UplHistoryEvent::Closed,
            UplHistoryEvent::Merged { upl_id, amount } => UplHistoryEvent::Merged {
                upl_id: upl_id.clone(),
                amount: *amount,
            },
            UplHistoryEvent::PriceChanged { sku_price_net, vat } => {
                UplHistoryEvent::PriceChanged { sku_price_net: *sku_price_net, vat: *vat }
            },
            UplHistoryEvent::Restored => UplHistoryEvent::Restored,
            UplHistoryEvent::NoEvent => UplHistoryEvent::NoEvent,
        }
    }
}

impl Default for UplHistoryEvent {
    fn default() -> (event: Self)
        ensures
            event@ == HistoryEventView::NoEvent,
    {
        UplHistoryEvent::NoEvent
    }
}

/// One entry of a lot's history.
#[derive(Debug)]
pub struct UplHistoryItem {
    /// What happened.
    pub event: UplHistoryEvent,
    /// When it happened.
    pub created_at: Timestamp,
    /// Who caused it.
    pub created_by: CreatedBy,
}

/// The view of a `UplHistoryItem`.
pub struct HistoryItemView {
    pub event: HistoryEventView,
    pub created_at: Timestamp,
    pub created_by: CreatedBy,
}

impl View for UplHistoryItem {
    type V = HistoryItemView;

    open spec fn view(&self) -> HistoryItemView {
        HistoryItemView {
            event: self.event@,
            created_at: self.created_at,
            created_by: self.created_by,
        }
    }
}

impl Clone for UplHistoryItem {
    fn clone(&self) -> (copy: Self)
        ensures
            copy@ == self@,
    {
        UplHistoryItem {
            event: self.event.clone(),
            created_at: self.created_at,
            created_by: self.created_by,
        }
    }
}

impl UplHistoryItem {
    /// The entry for `event`, caused by `created_by` at the instant `at`.
    pub fn at(created_by: CreatedBy, event: UplHistoryEvent, at: Timestamp) -> (item: Self)
        ensures
            item@ == (HistoryItemView { event: event@, created_at: at, created_by }),
    {
        UplHistoryItem { event, created_at: at, created_by }
    }

    /// The entry for `event`, caused by `created_by` now.
    pub fn new(created_by: CreatedBy, event: UplHistoryEvent) -> (item: Self)
        ensures
            item@.event == event@,
            item@.created_by == created_by,
    {
        UplHistoryItem::at(created_by, event, crate::time::now())
    }
}

impl Default for UplHistoryItem {
    fn default() -> (item: Self)
        ensures
            item@.event == HistoryEventView::NoEvent,
            item@.created_by == CreatedBy::Technical,
    {
        UplHistoryItem::new(CreatedBy::Technical, UplHistoryEvent::NoEvent)
    }
}

/// A copy of a history.
pub fn clone_history(items: &Vec<UplHistoryItem>) -> (copy: Vec<UplHistoryItem>)
    ensures
        views(copy@) == views(items@),
{
    let mut copy: Vec<UplHistoryItem> = Vec::new();
    let mut k: usize = 0;
    while k < items.len()
        invariant
            k <= items.len(),
            views(copy@) == views(items@.take(k as int)),
        decreases items.len() - k,
    {
        let ghost before = copy@;
        let item = items[k].clone();
        copy.push(item);
        proof {
            lemma_views_push(before, item);
            lemma_views_push(items@.take(k as int), items@[k as int]);
            assert(items@.take(k + 1) =~= items@.take(k as int).push(items@[k as int]));
        }
        k += 1;
    }
    assert(items@.take(k as int) =~= items@);
    copy
}

/// A unique product lot: one physical occurrence of a stock-keeping unit.
#[derive(Debug)]
pub struct Upl {
    /// The identifier of the lot.
    pub id: String,
    /// The product that the lot belongs to.
    pub product_id: u32,
    /// How many sub-units one unit of the stock-keeping unit holds; one where
    /// it cannot be divided.
    pub sku_divisible_amount: u32,
    /// The unit in which the product is shown.
    pub product_unit: String,
    /// What the lot physically is.
    pub kind: Kind,
    /// The procurement that brought the lot.
    pub procurement_id: u32,
    /// The part of the purchase price that belongs to this lot.
    pub procurement_net_price: u32,
    /// The net price at which one unit of the stock-keeping unit was bought.
    pub procurement_net_price_sku: u32,
    /// The net retail price less the procurement price of the lot.
    pub margin_net: i64,
    /// Where the lot is.
    pub location: Location,
    /// The mark-down of the lot, if it is depreciated.
    pub depreciation: Option<Depreciation>,
    /// The best-before date of perishable goods.
    pub best_before: Option<Timestamp>,
    /// Whether the stock-keeping unit may be portioned out.
    pub sku_divisible: bool,
    /// The net retail price of one unit of the stock-keeping unit.
    pub sku_price_net: u32,
    /// The net retail price of the lot.
    pub price_net: u32,
    /// The tax class of the stock-keeping unit.
    pub vat: VAT,
    /// The gross retail price of the lot.
    pub price_gross: u32,
    /// What holds the lot in place.
    pub lock: Lock,
    /// What happened to the lot, oldest first.
    pub history: Vec<UplHistoryItem>,
    /// When the lot was created.
    pub created_at: Timestamp,
    /// The user who created the lot.
    pub created_by: u32,
}

/// The view of a `Upl`.
pub struct UplView {
    pub id: Seq<char>,
    pub product_id: u32,
    pub sku_divisible_amount: u32,
    pub product_unit: Seq<char>,
    pub kind: KindView,
    pub procurement_id: u32,
    pub procurement_net_price: u32,
    pub procurement_net_price_sku: u32,
    pub margin_net: i64,
    pub location: LocationView,
    pub depreciation: Option<DepreciationView>,
    pub best_before: Option<Timestamp>,
    pub sku_divisible: bool,
    pub sku_price_net: u32,
    pub price_net: u32,
    pub vat: VAT,
    pub price_gross: u32,
    pub lock: LockView,
    pub history: Seq<HistoryItemView>,
    pub created_at: Timestamp,
    pub created_by: u32,
}

impl View for Upl {
    type V = UplView;

    open spec fn view(&self) -> UplView {
        UplView {
            id: self.id@,
            product_id: self.product_id,
            sku_divisible_amount: self.sku_divisible_amount,
            product_unit: self.product_unit@,
            kind: self.kind@,
            procurement_id: self.procurement_id,
            procurement_net_price: self.procurement_net_price,
            procurement_net_price_sku: self.procurement_net_price_sku,
            margin_net: self.margin_net,
            location: self.location@,
            depreciation: depreciation_view(self.depreciation),
            best_before: self.best_before,
            sku_divisible: self.sku_divisible,
            sku_price_net: self.sku_price_net,
            price_net: self.price_net,
            vat: self.vat,
            price_gross: self.price_gross,
            lock: self.lock@,
            history: views(self.history@),
            created_at: self.created_at,
            created_by: self.created_by,
        }
    }
}

impl Clone for Upl {
    fn clone(&self) -> (copy: Self)
        ensures
            copy@ == self@,
    {
        Upl {
            id: self.id.clone(),
            product_id: self.product_id,
            sku_divisible_amount: self.sku_divisible_amount,
            product_unit: self.product_unit.clone(),
            kind: self.kind.clone(),
            procurement_id: self.procurement_id,
            procurement_net_price: self.procurement_net_price,
            procurement_net_price_sku: self.procurement_net_price_sku,
            margin_net: self.margin_net,
            location: self.location.clone(),
            depreciation: match &self.depreciation {
                Some(d) => Some(d.clone()),
                None => None,
            },
            best_before: self.best_before,
            sku_divisible: self.sku_divisible,
            sku_price_net: self.sku_price_net,
            price_net: self.price_net,
            vat: self.vat,
            price_gross: self.price_gross,
            lock: self.lock.clone(),
            history: clone_history(&self.history),
            created_at: self.created_at,
            created_by: self.created_by,
        }
    }
}

/// The operations on a single lot that read the clock of the machine, and the
/// questions that a lot answers.
pub trait UplMethods: Sized {
    /// A new lot, created now.
    fn new(
        upl_id: String,
        product_id: u32,
        product_unit: String,
        sku: u32,
        piece: u32,
        sku_divisible_amount: u32,
        sku_divisible: bool,
        sku_price_net: u32,
        sku_vat: VAT,
        procurement_id: u32,
        procurement_net_price_sku: u32,
        location: Location,
        best_before: Option<Timestamp>,
        is_opened: bool,
        created_by: u32,
    ) -> ServiceResult<Self>;

    /// The identifier of the lot.
    fn get_upl_id(&self) -> &str;

    /// The product that the lot belongs to.
    fn get_product_id(&self) -> u32;

    /// The stock-keeping unit of the lot.
    fn get_sku(&self) -> u32;

    /// What the lot physically is.
    fn get_kind(&self) -> &Kind;

    /// The procurement that brought the lot.
    fn get_procurement_id(&self) -> u32;

    /// The part of the purchase price that belongs to the lot.
    fn get_procurement_net_price(&self) -> u32;

    /// Whether the lot may move to `to`, which depends on its lock alone.
    fn can_move(&self, to: &Location) -> bool;

    /// Where the lot is.
    fn get_location(&self) -> &Location;

    /// Appends an entry to the history of the lot.
    fn set_history(&mut self, event: UplHistoryItem);

    /// Moves the lot to `to` now, where its lock allows that.
    fn move_upl(&mut self, to: Location, created_by: u32) -> ServiceResult<()>;

    /// Whether anything holds the lot.
    fn has_lock(&self) -> bool;

    /// What holds the lot.
    fn get_lock(&self) -> &Lock;

    /// Whether the lot can take a lock: only where nothing holds it.
    fn can_lock(&self) -> bool;

    /// Locks the lot now, where nothing holds it yet.
    fn lock(&mut self, lock: Lock, created_by: u32) -> ServiceResult<()>;

    /// Releases the lock of the lot now, where `lock` is the lock that holds it.
    fn unlock(&mut self, lock: Lock, created_by: u32) -> ServiceResult<()>;

    /// Releases whatever holds the lot, now.
    fn unlock_forced(&mut self);

    /// Computes the net price, the gross price, the procurement price and the
    /// margin of the lot anew from its kind, its amount, the prices of its
    /// stock-keeping unit and its tax class.
    fn recalculate_prices(&mut self);

    /// Sets the net price of the stock-keeping unit and the tax class now.
    fn set_price(&mut self, sku_net_price: u32, sku_vat: VAT) -> ServiceResult<()>;

    /// Marks the lot as depreciated now, where it is not yet.
    fn set_depreciation(
        &mut self,
        depreciation_id: u32,
        comment: String,
        created_by: u32,
    ) -> ServiceResult<()>;

    /// Takes the depreciation off the lot now, where it has one.
    fn remove_deprecation(&mut self, created_by: u32) -> ServiceResult<()>;

    /// Sets or clears the special net price of the depreciated lot now.
    fn set_depreciation_price(
        &mut self,
        net_retail_price: Option<u32>,
        created_by: u32,
    ) -> ServiceResult<()>;

    /// Whether the lot is depreciated.
    fn is_depreciated(&self) -> bool;

    /// The id of the depreciation record, if the lot is depreciated.
    fn get_depreciation_id(&self) -> Option<u32>;

    /// Why the lot was depreciated, if it is.
    fn get_depreciation_comment(&self) -> Option<&String>;

    /// The special net price of the lot, if it is depreciated and has one.
    fn get_depreciation_price(&self) -> Option<u32>;

    /// The best-before date of the lot, if it has one.
    fn get_best_before(&self) -> Option<Timestamp>;

    /// Sets or clears the best-before date now.
    fn set_best_before(&mut self, best_before: Option<Timestamp>, created_by: u32);

    /// Whether the lot is in its original package: a single unit or a bulk.
    fn is_original(&self) -> bool;

    /// Whether the lot is a bulk.
    fn is_bulk(&self) -> bool;

    /// How many units the lot holds: the pieces of a bulk, else one.
    fn get_upl_piece(&self) -> u32;

    /// Whether something can be portioned out of the lot.
    fn is_divisible(&self) -> bool;

    /// The amount that can still be portioned out of a single unit or an
    /// opened lot.
    fn get_divisible_amount(&self) -> Option<u32>;

    /// The history of the lot, oldest entry first.
    fn get_history(&self) -> &Vec<UplHistoryItem>;

    /// When the lot was created.
    fn get_created_at(&self) -> Timestamp;

    /// The user who created the lot.
    fn get_created_by(&self) -> u32;

    /// Whether the lot can be put into a cart: nothing holds it.
    fn is_available(&self) -> bool;

    /// Whether the lot can be sold as sound goods today.
    fn is_available_healthy(&self) -> bool;

    /// The net price at which the lot is sold: the special price of a
    /// depreciated lot where one is set, else the net retail price.
    fn get_upl_net_price(&self) -> u32;

    /// The gross price at which the lot is sold.
    fn get_upl_gross_price(&self) -> u32;

    /// The tax class of the lot.
    fn get_upl_vat(&self) -> VAT;

    /// Whether the lot has a special price.
    fn get_upl_has_special_price(&self) -> bool;

    /// The special net price of the lot, if it has one.
    fn get_upl_special_price_net(&self) -> Option<u32>;

    /// The net margin of the lot at its special price, if it has one.
    fn get_upl_special_price_margin(&self) -> Option<i64>;

    /// Sets whether the stock-keeping unit of the lot may be portioned out.
    fn set_divisible(&mut self, divisible: bool);

    /// Sets the unit in which the product of the lot is shown.
    fn set_product_unit(&mut self, unit: String);

    /// Splits `piece` units off the bulk now.
    fn split(&mut self, new_upl_id: String, piece: u32, created_by: u32) -> ServiceResult<Upl>;

    /// Splits one unit off the bulk for each of the identifiers, now.
    fn split_bulk(
        &mut self,
        new_upl_ids: Vec<String>,
        created_by: u32,
    ) -> ServiceResult<Vec<Upl>>;

    /// Opens the package of the lot now.
    fn open(&mut self) -> ServiceResult<()>;

    /// Closes the package of the opened lot now.
    fn close(&mut self) -> ServiceResult<()>;

    /// Portions `requested_amount` sub-units out of the opened lot now.
    fn divide(
        &mut self,
        new_upl_id: String,
        requested_amount: u32,
        created_by: u32,
    ) -> ServiceResult<Upl>;

    /// Puts the portion `upl_to_merge` back into the opened lot now.
    fn merge(&mut self, upl_to_merge: Upl, created_by: u32) -> ServiceResult<()>;
}

} // verus!
