//! How many units of a stock-keeping unit each stock holds, and how many of
//! them can be sold as sound goods.

use crate::prelude::{ServiceError, ServiceResult};
use crate::registry::UplService;
use crate::text::views;
use crate::time::{now, Timestamp};
use crate::upl::{Location, LocationView, UplMethods, UplView};
use std::collections::HashMap;
use vstd::prelude::*;

verus! {

/// The units of a stock-keeping unit in one stock.
#[derive(Debug, Clone, Copy, PartialEq, Eq, Structural)]
pub struct StockInfo {
    /// All units.
    pub total: u32,
    /// The units that can be sold as sound goods.
    pub healthy: u32,
}

/// The units of a stock-keeping unit in each stock that holds any.
#[derive(Debug)]
pub struct LocationInfoResponse {
    /// The stock-keeping unit.
    pub sku: u32,
    /// The units by the id of the stock.
    pub stocks: HashMap<u32, StockInfo>,
}

/// The view of a `LocationInfoResponse`.
pub struct LocationInfoView {
    pub sku: u32,
    pub stocks: Map<u32, StockInfo>,
}

impl View for LocationInfoResponse {
    type V = LocationInfoView;

    open spec fn view(&self) -> LocationInfoView {
        LocationInfoView { sku: self.sku, stocks: self.stocks@ }
    }
}

/// The units of a stock-keeping unit in one stock, as numbers without bound.
pub struct StockTotals {
    pub total: nat,
    pub healthy: nat,
}

/// The stock in which a lot counts for the stock-keeping unit `sku`: the
/// stock where it is, if it is of that unit and in a stock.
pub open spec fn counted_in(lot: UplView, sku: u32) -> Option<u32> {
    match lot.location {
        LocationView::Stock(stock) => if lot.sku() == sku {
            Some(stock)
        } else {
            None
        },
        _ => None,
    }
}

/// The units of the stock-keeping unit `sku` by stock: each lot of the unit
/// that is in a stock adds its pieces to the total of that stock, and to the
/// sound units if it can be sold as sound goods on the day of `today`.
pub open spec fn stock_totals(lots: Seq<UplView>, sku: u32, today: Timestamp) -> Map<
    u32,
    StockTotals,
>
    decreases lots.len(),
{
    if lots.len() == 0 {
        Map::empty()
    } else {
        let before = stock_totals(lots.drop_last(), sku, today);
        let lot = lots.last();
        match counted_in(lot, sku) {
            Some(stock) => {
                let so_far = if before.contains_key(stock) {
                    before[stock]
                } else {
                    StockTotals { total: 0, healthy: 0 }
                };
                before.insert(
                    stock,
                    StockTotals {
                        total: so_far.total + lot.pieces() as nat,
                        healthy: so_far.healthy + if lot.healthy_at(today) {
                            lot.pieces() as nat
                        } else {
                            0nat
                        },
                    },
                )
            },
            None => before,
        }
    }
}

/// Whether any lot counts for the stock-keeping unit `sku`.
pub open spec fn is_stocked(lots: Seq<UplView>, sku: u32) -> bool {
    exists|i: int| 0 <= i < lots.len() && counted_in(#[trigger] lots[i], sku) is Some
}

/// Whether the total of every stock fits in 32 bits.
pub open spec fn totals_fit(totals: Map<u32, StockTotals>) -> bool {
    forall|stock: u32| totals.contains_key(stock) ==> (#[trigger] totals[stock]).total <= u32::MAX
}

/// Whether the counts by stock are the totals by stock.
pub open spec fn shows_totals(stocks: Map<u32, StockInfo>, totals: Map<u32, StockTotals>) -> bool {
    &&& stocks.dom() == totals.dom()
    &&& forall|stock: u32| #[trigger]
        totals.contains_key(stock) ==> stocks[stock].total == totals[stock].total
            && stocks[stock].healthy == totals[stock].healthy
}

/// The sound units of a stock are among its units.
pub proof fn lemma_healthy_within_total(lots: Seq<UplView>, sku: u32, today: Timestamp)
    ensures
        forall|stock: u32| #[trigger]
            stock_totals(lots, sku, today).contains_key(stock) ==> stock_totals(
                lots,
                sku,
                today,
            )[stock].healthy <= stock_totals(lots, sku, today)[stock].total,
    decreases lots.len(),
{
    if lots.len() > 0 {
        let before = stock_totals(lots.drop_last(), sku, today);
        let after = stock_totals(lots, sku, today);
        lemma_healthy_within_total(lots.drop_last(), sku, today);
        assert forall|stock: u32| #[trigger] after.contains_key(stock) implies after[stock].healthy
            <= after[stock].total by {
            if counted_in(lots.last(), sku) == Some(stock) {
                if before.contains_key(stock) {
                    assert(before[stock].healthy <= before[stock].total);
                }
            } else {
                assert(before.contains_key(stock));
                assert(after[stock] == before[stock]);
            }
        }
    }
}

/// The totals only grow as further lots are counted.
pub proof fn lemma_totals_grow(lots: Seq<UplView>, sku: u32, today: Timestamp, k: int)
    requires
        0 <= k <= lots.len(),
    ensures
        forall|stock: u32| #[trigger]
            stock_totals(lots.take(k), sku, today).contains_key(stock) ==> stock_totals(
                lots,
                sku,
                today,
            ).contains_key(stock) && stock_totals(lots.take(k), sku, today)[stock].total
                <= stock_totals(lots, sku, today)[stock].total,
    decreases lots.len() - k,
{
    if k == lots.len() {
        assert(lots.take(k) =~= lots);
    } else {
        lemma_totals_grow(lots, sku, today, k + 1);
        assert(lots.take(k + 1).drop_last() =~= lots.take(k));
        let low = stock_totals(lots.take(k), sku, today);
        let mid = stock_totals(lots.take(k + 1), sku, today);
        let high = stock_totals(lots, sku, today);
        assert forall|stock: u32| #[trigger] low.contains_key(stock) implies high.contains_key(
            stock,
        ) && low[stock].total <= high[stock].total by {
            assert(mid.contains_key(stock));
            assert(low[stock].total <= mid[stock].total);
            assert(high.contains_key(stock) && mid[stock].total <= high[stock].total);
        }
    }
}

/// What is reported for the stock-keeping units of a request, in the order of
/// the request: one entry for each unit that has units in some stock; a unit
/// that is asked for twice is reported once.
pub open spec fn reported_skus(lots: Seq<UplView>, skus: Seq<u32>) -> Seq<u32>
    decreases skus.len(),
{
    if skus.len() == 0 {
        Seq::empty()
    } else if !skus.drop_last().contains(skus.last()) && is_stocked(lots, skus.last()) {
        reported_skus(lots, skus.drop_last()).push(skus.last())
    } else {
        reported_skus(lots, skus.drop_last())
    }
}

/// Whether the reports are those of the stock-keeping units `skus`, one for
/// each in their order.
pub open spec fn reports_of(
    infos: Seq<LocationInfoResponse>,
    lots: Seq<UplView>,
    skus: Seq<u32>,
    today: Timestamp,
) -> bool {
    &&& infos.len() == skus.len()
    &&& forall|i: int|
        0 <= i < infos.len() ==> (#[trigger] infos[i])@.sku == skus[i] && shows_totals(
            infos[i]@.stocks,
            stock_totals(lots, skus[i], today),
        )
}

/// Whether the totals of each of the stock-keeping units fit in 32 bits.
pub open spec fn all_totals_fit(lots: Seq<UplView>, skus: Seq<u32>, today: Timestamp) -> bool {
    forall|i: int| 0 <= i < skus.len() ==> totals_fit(stock_totals(lots, #[trigger] skus[i], today))
}

impl UplService {
    /// Whether any active lot of the stock-keeping unit `sku` is in a stock.
    pub fn has_stock(&self, sku: u32) -> (stocked: bool)
        ensures
            stocked == is_stocked(self@.active, sku),
    {
        let lots = self.upls();
        let mut k: usize = 0;
        while k < lots.len()
            invariant
                k <= lots.len(),
                views(lots@) == self@.active,
                forall|i: int| 0 <= i < k ==> counted_in(#[trigger] views(lots@)[i], sku) is None,
            decreases lots.len() - k,
        {
            if lots[k].get_sku() == sku {
                match &lots[k].location {
                    Location::Stock(_) => {
                        assert(counted_in(views(lots@)[k as int], sku) is Some);
                        return true;
                    },
                    _ => {},
                }
            }
            k += 1;
        }
        false
    }

    /// The units by stock of each of the stock-keeping units `skus`, on the
    /// day of `today`: one report for each unit that has units in some
    /// stock, in the order in which the units are asked for, and one only for
    /// a unit that is asked for twice.
    pub fn get_location_info_bulk_at(
        &self,
        skus: &Vec<u32>,
        today: Timestamp,
    ) -> (r: ServiceResult<Vec<LocationInfoResponse>>)
        ensures
            r is Ok <==> all_totals_fit(self@.active, skus@, today),
            r matches Ok(infos) ==> reports_of(
                infos@,
                self@.active,
                reported_skus(self@.active, skus@),
                today,
            ),
            r matches Err(e) ==> e is InternalError,
    {
        let mut infos: Vec<LocationInfoResponse> = Vec::new();
        let mut k: usize = 0;
        assert(skus@.take(0) =~= Seq::<u32>::empty());
        while k < skus.len()
            invariant
                k <= skus.len(),
                all_totals_fit(self@.active, skus@.take(k as int), today),
                reports_of(
                    infos@,
                    self@.active,
                    reported_skus(self@.active, skus@.take(k as int)),
                    today,
                ),
            decreases skus.len() - k,
        {
            let sku = skus[k];
            proof {
                let next = skus@.take(k + 1);
                assert(next.drop_last() =~= skus@.take(k as int));
                assert(next.last() == sku);
            }
            let info = match self.get_location_info_at(sku, today) {
                Ok(info) => info,
                Err(e) => {
                    assert(!totals_fit(stock_totals(self@.active, skus@[k as int], today)));
                    return Err(e);
                },
            };
            let mut seen = false;
            let mut j: usize = 0;
            while j < k
                invariant
                    j <= k < skus.len(),
                    sku == skus@[k as int],
                    seen == skus@.take(j as int).contains(sku),
                decreases k - j,
            {
                proof {
                    let before = skus@.take(j as int);
                    let after = skus@.take(j + 1);
                    assert(after =~= before.push(skus@[j as int]));
                    if before.contains(sku) {
                        let i = choose|i: int| 0 <= i < before.len() && before[i] == sku;
                        assert(after[i] == sku);
                    }
                    if skus@[j as int] == sku {
                        assert(after[j as int] == sku);
                    }
                    if after.contains(sku) && skus@[j as int] != sku {
                        let i = choose|i: int| 0 <= i < after.len() && after[i] == sku;
                        assert(before[i] == sku);
                    }
                }
                if skus[j] == sku {
                    seen = true;
                }
                j += 1;
            }
            proof {
                let done = skus@.take(k as int);
                let next = skus@.take(k + 1);
                assert forall|i: int| 0 <= i < next.len() implies totals_fit(
                    stock_totals(self@.active, #[trigger] next[i], today),
                ) by {
                    if i < k {
                        assert(next[i] == done[i]);
                    }
                }
            }
            if !seen && self.has_stock(sku) {
                infos.push(info);
            }
            k += 1;
        }
        proof {
            assert(skus@.take(k as int) =~= skus@);
        }
        Ok(infos)
    }

    /// The units by stock of each of the stock-keeping units `skus`, today.
    pub fn get_location_info_bulk(
        &self,
        skus: &Vec<u32>,
    ) -> (r: ServiceResult<Vec<LocationInfoResponse>>)
        ensures
            exists|today: Timestamp|
                {
                    &&& r is Ok <==> all_totals_fit(self@.active, skus@, today)
                    &&& r matches Ok(infos) ==> reports_of(
                        infos@,
                        self@.active,
                        reported_skus(self@.active, skus@),
                        today,
                    )
                },
            r matches Err(e) ==> e is InternalError,
    {
        self.get_location_info_bulk_at(skus, now())
    }

    /// The units of the stock-keeping unit `sku` by stock, on the day of
    /// `today`. A total that does not fit in 32 bits is an internal error.
    pub fn get_location_info_at(
        &self,
        sku: u32,
        today: Timestamp,
    ) -> (r: ServiceResult<LocationInfoResponse>)
        ensures
            r is Ok <==> totals_fit(stock_totals(self@.active, sku, today)),
            r matches Ok(info) ==> info@.sku == sku && shows_totals(
                info@.stocks,
                stock_totals(self@.active, sku, today),
            ),
            r matches Err(e) ==> e is InternalError,
    {
        broadcast use vstd::std_specs::hash::group_hash_axioms;

        let lots = self.upls();
        let mut stocks: HashMap<u32, StockInfo> = HashMap::new();
        let mut k: usize = 0;
        proof {
            assert(views(lots@).take(0) =~= Seq::<UplView>::empty());
            assert(stocks@.dom() =~= Map::<u32, StockTotals>::empty().dom());
        }
        while k < lots.len()
            invariant
                k <= lots.len(),
                views(lots@) == self@.active,
                shows_totals(stocks@, stock_totals(views(lots@).take(k as int), sku, today)),
            decreases lots.len() - k,
        {
            let ghost done = views(lots@).take(k as int);
            let ghost next = views(lots@).take(k + 1);
            proof {
                assert(next.drop_last() =~= done);
                assert(next.last() == lots@[k as int]@);
                lemma_healthy_within_total(done, sku, today);
            }
            let lot = &lots[k];
            if lot.get_sku() == sku {
                match &lot.location {
                    Location::Stock(stock) => {
                        let so_far = match stocks.get(stock) {
                            Some(info) => *info,
                            None => StockInfo { total: 0, healthy: 0 },
                        };
                        let pieces = lot.get_upl_piece();
                        if pieces > u32::MAX - so_far.total {
                            proof {
                                lemma_totals_grow(views(lots@), sku, today, k + 1);
                                assert(stock_totals(next, sku, today).contains_key(*stock));
                                assert(stock_totals(next, sku, today)[*stock].total > u32::MAX);
                                let full = stock_totals(views(lots@), sku, today);
                                assert(full.contains_key(*stock));
                                assert(full[*stock].total > u32::MAX);
                                assert(!totals_fit(full));
                            }
                            return Err(
                                ServiceError::internal_error(
                                    "A készlet darabszáma nem ábrázolható!",
                                ),
                            );
                        }
                        let healthy = if lot.is_available_healthy_at(&today) {
                            so_far.healthy + pieces
                        } else {
                            so_far.healthy
                        };
                        stocks.insert(*stock, StockInfo { total: so_far.total + pieces, healthy });
                        proof {
                            assert(stocks@.dom() =~= stock_totals(next, sku, today).dom());
                        }
                    },
                    _ => {},
                }
            }
            k += 1;
        }
        proof {
            assert(views(lots@).take(k as int) =~= views(lots@));
        }
        Ok(LocationInfoResponse { sku, stocks })
    }

    /// The units of the stock-keeping unit `sku` by stock, today.
    pub fn get_location_info(&self, sku: u32) -> (r: ServiceResult<LocationInfoResponse>)
        ensures
            exists|today: Timestamp|
                {
                    &&& r is Ok <==> totals_fit(stock_totals(self@.active, sku, today))
                    &&& r matches Ok(info) ==> info@.sku == sku && shows_totals(
                        info@.stocks,
                        stock_totals(self@.active, sku, today),
                    )
                },
            r matches Err(e) ==> e is InternalError,
    {
        self.get_location_info_at(sku, now())
    }
}

} // verus!
