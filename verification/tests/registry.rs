use upl_microservice::info::StockInfo;
use upl_microservice::luhn::new_upl_id;
use upl_microservice::obj::{UplNew, UplObj};
use upl_microservice::prelude::ServiceError;
use upl_microservice::registry::UplService;
use upl_microservice::time::Timestamp;
use upl_microservice::upl::{CreatedBy, Kind, Location, Lock, Upl, UplHistoryEvent, UplMethods};
use upl_microservice::vat::VAT;

const T0: Timestamp = Timestamp {
    secs: 1_600_000_000,
    nanos: 0,
};
const T1: Timestamp = Timestamp {
    secs: 1_600_090_000,
    nanos: 0,
};

fn request(id: &str, sku: u32, piece: u32, stock_id: u32) -> UplNew {
    UplNew {
        upl_id: id.to_string(),
        product_id: 1,
        product_unit: "ml".to_string(),
        sku,
        piece,
        sku_divisible_amount: 1000,
        sku_divisible: true,
        sku_net_price: 1000,
        sku_vat: "27".to_string(),
        procurement_id: 1,
        procurement_net_price_sku: 600,
        stock_id,
        best_before: String::new(),
        is_opened: false,
        created_by: 1,
    }
}

fn lot(id: &str, sku: u32, piece: u32) -> Upl {
    Upl::new_at(
        id.to_string(),
        1,
        "ml".to_string(),
        sku,
        piece,
        1000,
        true,
        1000,
        VAT::_27,
        1,
        600,
        Location::Stock(1),
        None,
        false,
        1,
        T0,
    )
    .unwrap()
}

/// Lots 181 (sku 7, stock 1), 263 (sku 7, stock 2, bulk of 3), 345 (sku 8, stock 1).
fn three_lots() -> UplService {
    let mut registry = UplService::new();
    registry.create_new_at(request("181", 7, 1, 1), T0).unwrap();
    registry.create_new_at(request("263", 7, 3, 2), T0).unwrap();
    registry.create_new_at(request("345", 8, 1, 1), T0).unwrap();
    registry
}

fn ids(registry: &UplService) -> Vec<String> {
    registry.upls().iter().map(|u| u.id.clone()).collect()
}

fn archived_ids(registry: &UplService) -> Vec<String> {
    registry.archive().iter().map(|u| u.id.clone()).collect()
}

fn is_not_found<T: std::fmt::Debug>(r: Result<T, ServiceError>) -> bool {
    matches!(r, Err(ServiceError::NotFound(_)))
}

fn is_bad_request<T: std::fmt::Debug>(r: Result<T, ServiceError>) -> bool {
    matches!(r, Err(ServiceError::BadRequest(_)))
}

fn is_already_exists<T: std::fmt::Debug>(r: Result<T, ServiceError>) -> bool {
    matches!(r, Err(ServiceError::AlreadyExists(_)))
}

/// No identifier occurs twice in a collection or in both.
fn assert_disjoint(registry: &UplService) {
    let mut all = ids(registry);
    all.extend(archived_ids(registry));
    let mut seen = std::collections::HashSet::new();
    for id in all {
        assert!(seen.insert(id.clone()), "{} occurs twice", id);
    }
}

#[test]
fn insert_get_remove() {
    let mut registry = UplService::new();
    assert!(registry.upls().is_empty());
    assert!(registry.archive().is_empty());
    registry.insert(lot("181", 7, 1)).unwrap();
    registry.insert(lot("263", 7, 1)).unwrap();
    assert!(is_already_exists(registry.insert(lot("181", 9, 4))));
    assert_eq!(ids(&registry), ["181", "263"]);
    assert!(registry.contains("181"));
    assert!(!registry.contains("345"));
    assert_eq!(registry.get("263").unwrap().id, "263");
    assert!(is_not_found(registry.get("345")));
    assert!(is_not_found(registry.get_archived("181")));
    let removed = registry.remove("181").unwrap();
    assert_eq!(removed.id, "181");
    assert!(is_not_found(registry.remove("181")));
    assert_eq!(ids(&registry), ["263"]);
    registry.insert(removed).unwrap();
    assert_eq!(ids(&registry), ["263", "181"]);
}

#[test]
fn insert_refuses_an_id_of_the_archive() {
    let mut registry = three_lots();
    registry.archive_upl_at("181", T1).unwrap();
    assert!(is_already_exists(registry.insert(lot("181", 7, 1))));
    assert!(is_already_exists(
        registry.create_new_at(request("181", 7, 1, 1), T1)
    ));
    assert!(registry.contains("181"));
    assert_disjoint(&registry);
}

#[test]
fn init_checks_the_stored_lots() {
    let registry = UplService::init(
        vec![lot("181", 7, 1), lot("263", 7, 1)],
        vec![lot("345", 7, 1)],
    )
    .unwrap();
    assert_eq!(ids(&registry), ["181", "263"]);
    assert_eq!(archived_ids(&registry), ["345"]);
    let twice = UplService::init(vec![lot("181", 7, 1), lot("181", 8, 1)], vec![]);
    assert!(matches!(twice, Err(ServiceError::InternalError(_))));
    let twice = UplService::init(
        vec![],
        vec![lot("181", 7, 1), lot("263", 7, 1), lot("181", 8, 1)],
    );
    assert!(matches!(twice, Err(ServiceError::InternalError(_))));
    let both = UplService::init(
        vec![lot("263", 7, 1), lot("181", 7, 1)],
        vec![lot("181", 8, 1)],
    );
    assert!(matches!(both, Err(ServiceError::InternalError(_))));
    assert!(UplService::init(vec![], vec![]).is_ok());
}

#[test]
fn create_new_shows_the_lot() {
    let mut registry = UplService::new();
    let mut r = request("181", 7, 4, 3);
    r.best_before = "2021-03-04T05:06:07Z".to_string();
    let obj: UplObj = registry.create_new_at(r, T0).unwrap();
    assert_eq!(obj.id, "181");
    assert_eq!(obj.sku_id, 7);
    assert_eq!(obj.upl_piece, 4);
    assert_eq!(obj.location, Location::Stock(3));
    assert_eq!(obj.lock, Lock::NoLock);
    assert_eq!(
        obj.best_before,
        Some(Timestamp {
            secs: 1_614_834_367,
            nanos: 0
        })
    );
    assert!(obj.is_healty);
    assert!(!obj.is_divisible);
    assert_eq!(obj.sku_divisible_amount, 0);
    assert!(!obj.has_special_price);
    assert!(!obj.is_archived);
    assert_eq!(obj.vat, VAT::_27);
    assert_eq!(
        (obj.price_net, obj.price_gross, obj.margin_net),
        (1000, 1270, 400)
    );
    assert_eq!(obj.created_at, T0);
    assert_eq!(ids(&registry), ["181"]);
    // the day after the best-before date
    let later = Timestamp {
        secs: 1_614_834_367 + 86_400,
        nanos: 0,
    };
    assert!(!registry.get_by_id_at("181", later).unwrap().is_healty);
}

#[test]
fn create_new_is_refused() {
    let mut registry = UplService::new();
    let mut bad_date = request("181", 7, 1, 1);
    bad_date.best_before = "yesterday".to_string();
    assert!(is_bad_request(registry.create_new_at(bad_date, T0)));
    let mut bad_vat = request("181", 7, 1, 1);
    bad_vat.sku_vat = "19".to_string();
    assert!(is_bad_request(registry.create_new_at(bad_vat, T0)));
    assert!(is_bad_request(
        registry.create_new_at(request("182", 7, 1, 1), T0)
    ));
    assert!(is_bad_request(registry.create_new(request("", 7, 1, 1))));
    assert!(registry.upls().is_empty());
    registry.create_new(request("181", 7, 1, 1)).unwrap();
    assert!(is_already_exists(
        registry.create_new(request("181", 8, 1, 1))
    ));
    assert_eq!(registry.get("181").unwrap().get_sku(), 7);
    assert!(
        registry
            .create_new_with_at(request("263", 7, 1, 1), Some(T1), T0)
            .unwrap()
            .best_before
            == Some(T1)
    );
}

#[test]
fn create_new_bulk_skips_what_is_refused() {
    let mut registry = UplService::new();
    let mut bad_vat = request("345", 7, 1, 1);
    bad_vat.sku_vat = "x".to_string();
    let requests = vec![
        request("181", 7, 1, 1),
        request("119", 7, 1, 1),
        request("263", 7, 1, 1),
        request("181", 9, 1, 1),
        bad_vat,
        request("427", 7, 2, 1),
    ];
    let accepted = registry.create_new_bulk_at(&requests, T0);
    assert_eq!(accepted, ["181", "263", "427"]);
    assert_eq!(ids(&registry), ["181", "263", "427"]);
    assert_eq!(registry.get("181").unwrap().get_sku(), 7);
    assert!(registry.create_new_bulk(&vec![]).is_empty());
    assert_eq!(
        registry.create_new_bulk(&vec![request("345", 1, 1, 1)]),
        ["345"]
    );
}

#[test]
fn scans() {
    let mut registry = three_lots();
    registry
        .lock_to_cart_at("345", "c9".to_string(), 1, T0)
        .unwrap();
    let mut moved = registry.remove("345").unwrap();
    moved
        .move_upl_at(Location::Cart("c8".to_string()), 1, T0)
        .unwrap_err();
    moved
        .move_upl_at(Location::Cart("c9".to_string()), 1, T0)
        .unwrap();
    registry.insert(moved).unwrap();

    assert_eq!(registry.get_by_sku(7), ["181", "263"]);
    assert_eq!(registry.get_by_sku(8), ["345"]);
    assert!(registry.get_by_sku(9).is_empty());
    assert_eq!(registry.get_by_location(&Location::Stock(1)), ["181"]);
    assert_eq!(registry.get_by_location(&Location::Stock(2)), ["263"]);
    assert_eq!(
        registry.get_by_location(&Location::Cart("c9".to_string())),
        ["345"]
    );
    assert!(registry
        .get_by_location(&Location::Cart("c8".to_string()))
        .is_empty());
    assert!(registry.get_by_location(&Location::Delivery(1)).is_empty());
    assert_eq!(
        registry.get_by_sku_and_location(7, &Location::Stock(2)),
        ["263"]
    );
    assert!(registry
        .get_by_sku_and_location(8, &Location::Stock(1))
        .is_empty());
    assert_eq!(registry.select_ids(None, None), ["181", "263", "345"]);
}

#[test]
fn get_bulk_keeps_the_order_of_the_registry() {
    let registry = three_lots();
    let asked = vec![
        "345".to_string(),
        "999".to_string(),
        "181".to_string(),
        "345".to_string(),
    ];
    let shown = registry.get_bulk_at(&asked, T0);
    assert_eq!(
        shown.iter().map(|o| o.id.as_str()).collect::<Vec<_>>(),
        ["181", "345"]
    );
    assert_eq!(shown[1].sku_id, 8);
    assert_eq!(registry.get_bulk(&asked).len(), 2);
    assert!(registry.get_bulk(&vec![]).is_empty());
}

#[test]
fn lock_and_release() {
    let mut registry = three_lots();
    let locked = registry
        .lock_to_cart_at("181", "c1".to_string(), 4, T1)
        .unwrap();
    assert_eq!(locked.lock, Lock::Cart("c1".to_string()));
    assert!(!locked.is_healty);
    assert!(is_bad_request(registry.lock_to_cart(
        "181",
        "c2".to_string(),
        4
    )));
    assert!(is_bad_request(registry.lock_to_inventory("181", 3, 4)));
    assert!(is_not_found(registry.lock_to_cart(
        "999",
        "c1".to_string(),
        4
    )));
    assert!(is_bad_request(registry.release_lock_from_cart_at(
        "181",
        "c2".to_string(),
        4,
        T1
    )));
    assert!(is_bad_request(
        registry.release_lock_from_inventory("181", 1, 4)
    ));
    assert!(is_bad_request(registry.release_lock_from_cart(
        "263",
        "c1".to_string(),
        4
    )));
    assert!(is_not_found(registry.release_lock_from_cart(
        "999",
        "c1".to_string(),
        4
    )));
    let released = registry
        .release_lock_from_cart("181", "c1".to_string(), 4)
        .unwrap();
    assert_eq!(released.lock, Lock::NoLock);
    assert_eq!(registry.get("181").unwrap().history.len(), 3);
    let held = registry.lock_to_inventory_at("263", 3, 4, T1).unwrap();
    assert_eq!(held.lock, Lock::Inventory(3));
    assert!(is_bad_request(
        registry.release_lock_from_inventory_at("263", 4, 4, T1)
    ));
    assert_eq!(
        registry
            .release_lock_from_inventory_at("263", 3, 4, T1)
            .unwrap()
            .lock,
        Lock::NoLock
    );
    assert_eq!(ids(&registry), ["181", "263", "345"]);
}

#[test]
fn depreciation_through_the_registry() {
    let mut registry = three_lots();
    assert!(is_bad_request(
        registry.set_depreciation_price_at("181", 500, 1, T1)
    ));
    assert!(is_bad_request(registry.remove_depreciation("181", 1)));
    assert!(is_bad_request(registry.remove_deprecation_price("181", 1)));
    assert!(is_not_found(registry.set_depreciation(
        "999",
        1,
        "x".to_string(),
        1
    )));
    let marked = registry
        .set_depreciation_at("181", 6, "dented".to_string(), 1, T1)
        .unwrap();
    let d = marked.depreciation.unwrap();
    assert_eq!(
        (d.depreciation_id, d.depreciation_comment.as_str()),
        (6, "dented")
    );
    assert!(!marked.is_healty);
    assert!(is_bad_request(registry.set_depreciation(
        "181",
        7,
        "again".to_string(),
        1
    )));
    let priced = registry.set_depreciation_price("181", 500, 1).unwrap();
    assert!(priced.has_special_price);
    assert_eq!(
        (priced.price_net, priced.price_gross, priced.margin_net),
        (500, 635, -100)
    );
    assert_eq!(registry.get("181").unwrap().price_net, 1000);
    let plain = registry.remove_deprecation_price_at("181", 1, T1).unwrap();
    assert!(!plain.has_special_price);
    assert_eq!(
        (plain.price_net, plain.price_gross, plain.margin_net),
        (1000, 1270, 400)
    );
    let sound = registry.remove_depreciation_at("181", 1, T1).unwrap();
    assert!(sound.depreciation.is_none());
    assert!(sound.is_healty);
}

#[test]
fn best_before_through_the_registry() {
    let mut registry = three_lots();
    let dated = registry
        .set_best_before_at("181", "2020-09-13T12:26:40Z", 1, T0)
        .unwrap();
    assert_eq!(dated.best_before, Some(T0));
    assert!(dated.is_healty);
    assert!(!registry.get_by_id_at("181", T1).unwrap().is_healty);
    // a string that is no date is refused before the lot is looked up
    assert!(is_bad_request(
        registry.set_best_before_at("999", "soon", 1, T0)
    ));
    assert!(is_bad_request(registry.set_best_before("181", "soon", 1)));
    assert!(is_not_found(registry.set_best_before("999", "", 1)));
    assert_eq!(registry.get("181").unwrap().best_before, Some(T0));
    let cleared = registry.set_best_before("181", "", 1).unwrap();
    assert_eq!(cleared.best_before, None);
    let set = registry
        .set_best_before_to_at("181", Some(T1), 1, T0)
        .unwrap();
    assert_eq!(set.best_before, Some(T1));
}

#[test]
fn split_and_divide_leave_the_registry_as_it_was_on_error() {
    let mut registry = three_lots();
    let before = format!("{:?}", registry.upls());
    assert!(is_not_found(registry.split_at(
        "999",
        "427".to_string(),
        1,
        1,
        T1
    )));
    assert!(is_bad_request(registry.split_at(
        "181",
        "427".to_string(),
        1,
        1,
        T1
    )));
    assert!(is_bad_request(registry.split_at(
        "263",
        "427".to_string(),
        3,
        1,
        T1
    )));
    assert!(is_bad_request(registry.split_at(
        "263",
        "428".to_string(),
        1,
        1,
        T1
    )));
    assert!(is_already_exists(registry.split_at(
        "263",
        "345".to_string(),
        1,
        1,
        T1
    )));
    assert!(is_already_exists(registry.split(
        "263",
        "263".to_string(),
        1,
        1
    )));
    assert!(is_not_found(registry.divide_at(
        "999",
        "427".to_string(),
        1,
        1,
        T1
    )));
    assert!(is_bad_request(registry.divide_at(
        "181",
        "427".to_string(),
        1,
        1,
        T1
    )));
    assert_eq!(format!("{:?}", registry.upls()), before);

    registry.open_upl("181").unwrap();
    let opened = format!("{:?}", registry.upls());
    assert!(is_already_exists(registry.divide_at(
        "181",
        "345".to_string(),
        1,
        1,
        T1
    )));
    assert!(is_bad_request(registry.divide(
        "181",
        "427".to_string(),
        1000,
        1
    )));
    assert_eq!(format!("{:?}", registry.upls()), opened);
    registry.divide("181", "427".to_string(), 10, 1).unwrap();
    registry.split("263", "590".to_string(), 2, 1).unwrap();
    assert_eq!(ids(&registry), ["181", "263", "345", "427", "590"]);
    assert_disjoint(&registry);
}

#[test]
fn open_and_close_through_the_registry() {
    let mut registry = three_lots();
    assert!(is_not_found(registry.open_upl("999")));
    assert!(is_not_found(registry.close_upl_at("999", T1)));
    assert!(is_bad_request(registry.open_upl_at("263", T1)));
    assert!(is_bad_request(registry.close_upl("181")));
    let opened = registry.open_upl_at("181", T1).unwrap();
    assert!(opened.is_divisible);
    assert_eq!(opened.sku_divisible_amount, 1000);
    assert!(!opened.is_healty);
    let closed = registry.close_upl("181").unwrap();
    assert!(matches!(closed.kind, Kind::Sku { sku: 7 }));
}

#[test]
fn merge_back_errors() {
    let mut registry = three_lots();
    assert!(is_not_found(registry.merge_back_at("999", 1, T1)));
    assert!(is_bad_request(registry.merge_back_at("181", 1, T1)));
    registry.open_upl_at("181", T1).unwrap();
    registry
        .divide_at("181", "427".to_string(), 100, 1, T1)
        .unwrap();
    registry
        .lock_to_cart_at("427", "c".to_string(), 1, T1)
        .unwrap();
    let before = format!("{:?}", registry.upls());
    assert!(is_bad_request(registry.merge_back("427", 1)));
    assert_eq!(format!("{:?}", registry.upls()), before);
    registry
        .release_lock_from_cart_at("427", "c".to_string(), 1, T1)
        .unwrap();
    // without the opened lot nothing is found
    let parent = registry.remove("181").unwrap();
    assert!(is_not_found(registry.merge_back("427", 1)));
    registry.insert(parent).unwrap();
    registry.merge_back("427", 1).unwrap();
    assert_eq!(ids(&registry), ["263", "345", "181"]);
    assert!(matches!(
        registry.get("181").unwrap().kind,
        Kind::OpenedSku { amount: 1000, .. }
    ));
}

#[test]
fn set_sku_price_reprices_the_lots_of_the_unit() {
    let mut registry = three_lots();
    registry.open_upl_at("181", T0).unwrap();
    registry
        .divide_at("181", "427".to_string(), 250, 1, T0)
        .unwrap();
    registry
        .set_sku_price_at(7, 2000, "5", 2100, CreatedBy::Uid(6), T1)
        .unwrap();
    let opened = registry.get("181").unwrap();
    assert_eq!(
        (opened.sku_price_net, opened.price_net, opened.price_gross),
        (2000, 1500, 1575)
    );
    assert_eq!(opened.vat, VAT::_5);
    assert_eq!(opened.margin_net, 1050);
    assert!(matches!(
        opened.history.last().unwrap().event,
        UplHistoryEvent::PriceChanged {
            sku_price_net: 2000,
            vat: VAT::_5
        }
    ));
    assert_eq!(opened.history.last().unwrap().created_by, CreatedBy::Uid(6));
    let portion = registry.get("427").unwrap();
    assert_eq!((portion.price_net, portion.price_gross), (500, 525));
    let bulk = registry.get("263").unwrap();
    assert_eq!((bulk.price_net, bulk.price_gross), (2000, 2100));
    let other = registry.get("345").unwrap();
    assert_eq!(
        (other.sku_price_net, other.price_net, other.price_gross),
        (1000, 1000, 1270)
    );
    assert_eq!(other.history.len(), 1);

    assert!(is_bad_request(registry.set_sku_price_at(
        7,
        2000,
        "5",
        2101,
        CreatedBy::Uid(6),
        T1
    )));
    assert!(is_bad_request(registry.set_sku_price(
        7,
        2000,
        "6",
        2100,
        CreatedBy::Technical
    )));
    assert_eq!(registry.get("263").unwrap().history.len(), 2);
    registry
        .set_sku_price(99, 1, "AAM", 1, CreatedBy::Technical)
        .unwrap();
}

#[test]
fn set_sku_divisible_marks_the_lots_of_the_unit() {
    let mut registry = three_lots();
    registry.set_sku_divisible(7, false).unwrap();
    assert!(!registry.get("181").unwrap().sku_divisible);
    assert!(!registry.get("263").unwrap().sku_divisible);
    assert!(registry.get("345").unwrap().sku_divisible);
    assert!(is_bad_request(registry.open_upl("181")));
    registry.set_sku_divisible(7, true).unwrap();
    assert!(registry.open_upl("181").is_ok());
}

#[test]
fn close_cart_takes_what_is_locked_to_the_cart_or_in_it() {
    let mut registry = three_lots();
    registry.create_new_at(request("427", 7, 1, 1), T0).unwrap();
    registry.create_new_at(request("590", 7, 1, 1), T0).unwrap();
    registry
        .lock_to_cart_at("181", "c1".to_string(), 1, T0)
        .unwrap();
    registry
        .lock_to_cart_at("345", "c2".to_string(), 1, T0)
        .unwrap();
    registry.lock_to_inventory_at("590", 4, 1, T0).unwrap();
    // 427 is in the cart already, without a lock
    let mut there = registry.remove("427").unwrap();
    there
        .move_upl_at(Location::Cart("c1".to_string()), 1, T0)
        .unwrap();
    registry.insert(there).unwrap();

    registry.close_cart_at("c1", 5, T1).unwrap();
    assert_eq!(ids(&registry), ["263", "345", "590"]);
    assert_eq!(archived_ids(&registry), ["181", "427"]);
    assert_disjoint(&registry);
    for lot in registry.upls() {
        assert_ne!(lot.lock, Lock::Cart("c1".to_string()));
        assert_ne!(lot.location, Location::Cart("c1".to_string()));
    }
    let sold = registry.get_archived("181").unwrap();
    assert_eq!(sold.location, Location::Cart("c1".to_string()));
    assert_eq!(sold.lock, Lock::NoLock);
    let events: Vec<String> = sold
        .history
        .iter()
        .map(|h| format!("{:?}", h.event))
        .collect();
    assert_eq!(events.len(), 5);
    assert!(events[2].starts_with("Moved"));
    assert_eq!(events[3], "Unlocked");
    assert_eq!(events[4], "Archived");
    assert_eq!(sold.history[2].created_by, CreatedBy::Uid(5));
    assert_eq!(sold.history[4].created_at, T1);
    let there = registry.get_archived("427").unwrap();
    assert!(matches!(
        there.history.last().unwrap().event,
        UplHistoryEvent::Archived
    ));
    assert_eq!(
        registry.get("345").unwrap().lock,
        Lock::Cart("c2".to_string())
    );

    // closing again, or closing a cart that nothing is in, changes nothing
    registry.close_cart("c1", 5).unwrap();
    registry.close_cart("c7", 5).unwrap();
    assert_eq!(ids(&registry), ["263", "345", "590"]);
    assert_eq!(archived_ids(&registry), ["181", "427"]);
}

#[test]
fn close_cart_keeps_a_foreign_lock_of_a_lot_in_the_cart() {
    let mut registry = UplService::new();
    registry.create_new_at(request("181", 7, 1, 1), T0).unwrap();
    let mut there = registry.remove("181").unwrap();
    there
        .move_upl_at(Location::Cart("c1".to_string()), 1, T0)
        .unwrap();
    there.lock_at(Lock::Inventory(4), 1, T0).unwrap();
    registry.insert(there).unwrap();
    registry.close_cart_at("c1", 1, T1).unwrap();
    let kept = registry.get_archived("181").unwrap();
    assert_eq!(kept.location, Location::Cart("c1".to_string()));
    assert_eq!(kept.lock, Lock::Inventory(4));
}

#[test]
fn close_inventory_releases_the_lots_of_the_check() {
    let mut registry = three_lots();
    registry.lock_to_inventory_at("181", 4, 1, T0).unwrap();
    registry.lock_to_inventory_at("263", 5, 1, T0).unwrap();
    registry
        .lock_to_cart_at("345", "c".to_string(), 1, T0)
        .unwrap();
    registry.close_inventory_at(4, 6, T1).unwrap();
    let released = registry.get("181").unwrap();
    assert_eq!(released.lock, Lock::NoLock);
    assert_eq!(released.location, Location::Stock(1));
    assert!(matches!(
        released.history.last().unwrap().event,
        UplHistoryEvent::Unlocked
    ));
    assert_eq!(
        released.history.last().unwrap().created_by,
        CreatedBy::Uid(6)
    );
    assert_eq!(registry.get("263").unwrap().lock, Lock::Inventory(5));
    assert_eq!(
        registry.get("345").unwrap().lock,
        Lock::Cart("c".to_string())
    );
    registry.close_inventory(5, 1).unwrap();
    assert_eq!(registry.get("263").unwrap().lock, Lock::NoLock);
    assert_eq!(registry.get("181").unwrap().history.len(), 3);
}

#[test]
fn archive_and_restore() {
    let mut registry = three_lots();
    assert!(is_not_found(registry.archive_upl("999")));
    registry.archive_upl_at("263", T1).unwrap();
    assert_eq!(ids(&registry), ["181", "345"]);
    assert_eq!(archived_ids(&registry), ["263"]);
    assert!(is_not_found(registry.archive_upl("263")));
    assert!(
        registry
            .get_by_id_archive_at("263", T1)
            .unwrap()
            .is_archived
    );

    assert!(is_not_found(registry.restore_at(
        "181",
        Lock::Inventory(1),
        1,
        T1
    )));
    assert!(is_bad_request(registry.restore_at(
        "263",
        Lock::NoLock,
        1,
        T1
    )));
    assert_eq!(archived_ids(&registry), ["263"]);
    let back = registry
        .restore_at("263", Lock::Inventory(2), 8, T1)
        .unwrap();
    assert_eq!(back.lock, Lock::Inventory(2));
    assert!(!back.is_archived);
    assert_eq!(ids(&registry), ["181", "345", "263"]);
    assert!(registry.archive().is_empty());
    let lot = registry.get("263").unwrap();
    let events: Vec<String> = lot
        .history
        .iter()
        .map(|h| format!("{:?}", h.event))
        .collect();
    assert_eq!(events, ["Created", "Archived", "Restored"]);
    assert_eq!(lot.history[2].created_by, CreatedBy::Uid(8));
    registry.archive_upl("181").unwrap();
    assert!(registry
        .restore("181", Lock::Cart("c".to_string()), 1)
        .is_ok());
    assert_disjoint(&registry);
}

#[test]
fn location_info_counts_units_by_stock() {
    let mut registry = three_lots();
    registry
        .create_new_at(request("427", 7, 10, 1), T0)
        .unwrap();
    registry.create_new_at(request("590", 7, 2, 2), T0).unwrap();
    registry
        .lock_to_cart_at("427", "c".to_string(), 1, T0)
        .unwrap();
    registry
        .set_depreciation_at("590", 1, String::new(), 1, T0)
        .unwrap();
    registry.create_new_at(request("672", 7, 5, 9), T0).unwrap();
    let mut gone = registry.remove("672").unwrap();
    gone.move_upl_at(Location::Delivery(1), 1, T0).unwrap();
    registry.insert(gone).unwrap();

    let info = registry.get_location_info_at(7, T0).unwrap();
    assert_eq!(info.sku, 7);
    assert_eq!(info.stocks.len(), 2);
    assert_eq!(
        info.stocks[&1],
        StockInfo {
            total: 11,
            healthy: 1
        }
    );
    assert_eq!(
        info.stocks[&2],
        StockInfo {
            total: 5,
            healthy: 3
        }
    );
    let other = registry.get_location_info(8).unwrap();
    assert_eq!(other.stocks.len(), 1);
    assert_eq!(
        other.stocks[&1],
        StockInfo {
            total: 1,
            healthy: 1
        }
    );
    let none = registry.get_location_info(9).unwrap();
    assert_eq!(none.sku, 9);
    assert!(none.stocks.is_empty());
    assert!(registry.has_stock(7));
    assert!(!registry.has_stock(9));
}

#[test]
fn location_info_counts_health_by_the_day() {
    let mut registry = UplService::new();
    let mut dated = request("181", 7, 4, 1);
    dated.best_before = "2020-09-13T12:26:40Z".to_string();
    registry.create_new_at(dated, T0).unwrap();
    assert_eq!(
        registry.get_location_info_at(7, T0).unwrap().stocks[&1],
        StockInfo {
            total: 4,
            healthy: 4
        }
    );
    assert_eq!(
        registry.get_location_info_at(7, T1).unwrap().stocks[&1],
        StockInfo {
            total: 4,
            healthy: 0
        }
    );
}

#[test]
fn location_info_bulk_reports_each_stocked_unit_once() {
    let registry = three_lots();
    let infos = registry
        .get_location_info_bulk_at(&vec![8, 9, 7, 8], T0)
        .unwrap();
    assert_eq!(infos.iter().map(|i| i.sku).collect::<Vec<_>>(), [8, 7]);
    assert_eq!(
        infos[0].stocks[&1],
        StockInfo {
            total: 1,
            healthy: 1
        }
    );
    assert_eq!(
        infos[1].stocks[&1],
        StockInfo {
            total: 1,
            healthy: 1
        }
    );
    assert_eq!(
        infos[1].stocks[&2],
        StockInfo {
            total: 3,
            healthy: 3
        }
    );
    assert!(registry.get_location_info_bulk(&vec![]).unwrap().is_empty());
    assert!(registry
        .get_location_info_bulk(&vec![9])
        .unwrap()
        .is_empty());
}

#[test]
fn location_info_total_that_does_not_fit_is_an_internal_error() {
    let mut registry = UplService::new();
    registry
        .create_new_at(request("181", 7, u32::MAX, 1), T0)
        .unwrap();
    assert_eq!(
        registry.get_location_info_at(7, T0).unwrap().stocks[&1].total,
        u32::MAX
    );
    registry.create_new_at(request("263", 7, 1, 1), T0).unwrap();
    assert!(matches!(
        registry.get_location_info_at(7, T0),
        Err(ServiceError::InternalError(_))
    ));
    assert!(matches!(
        registry.get_location_info_bulk_at(&vec![8, 7], T0),
        Err(ServiceError::InternalError(_))
    ));
    assert!(registry
        .get_location_info_bulk_at(&vec![8], T0)
        .unwrap()
        .is_empty());
}

#[test]
fn uplobj_from_shows_the_lot_today() {
    let shown = UplObj::from(lot("181", 7, 1));
    assert_eq!(shown.id, "181");
    assert!(shown.is_healty);
    assert!(shown.is_divisible);
    assert_eq!(shown.sku_divisible_amount, 1000);
    let past = Timestamp { secs: 0, nanos: 0 };
    let mut old = lot("181", 7, 1);
    old.set_best_before_at(Some(past), 1, T0);
    assert!(!UplObj::from(old).is_healty);
}

#[test]
fn registry_ids_stay_disjoint() {
    let mut registry = UplService::new();
    let mut made: Vec<String> = Vec::new();
    for n in 1..40u64 {
        let id = new_upl_id(n);
        registry
            .create_new_at(request(&id, (n % 3) as u32, 1 + (n % 4) as u32, 1), T0)
            .unwrap();
        made.push(id);
    }
    for (n, id) in made.iter().enumerate() {
        match n % 5 {
            0 => {
                registry
                    .lock_to_cart_at(id, "c1".to_string(), 1, T0)
                    .unwrap();
            }
            1 => {
                registry.archive_upl_at(id, T0).unwrap();
            }
            2 => {
                let _ = registry.split_at(id, new_upl_id(1000 + n as u64), 1, 1, T0);
            }
            _ => {}
        }
        assert_disjoint(&registry);
    }
    registry.close_cart_at("c1", 1, T1).unwrap();
    assert_disjoint(&registry);
    for id in &made {
        let active = registry.get(id).is_ok();
        let archived = registry.get_archived(id).is_ok();
        assert!(active != archived, "{}", id);
        if archived {
            let _ = registry.restore_at(id, Lock::Inventory(1), 1, T1);
        }
        assert_disjoint(&registry);
    }
}

#[test]
fn product_scan_and_unit() {
    let mut registry = three_lots();
    let mut other = request("427", 7, 1, 1);
    other.product_id = 2;
    registry.create_new_at(other, T0).unwrap();
    assert_eq!(registry.get_by_product(1), ["181", "263", "345"]);
    assert_eq!(registry.get_by_product(2), ["427"]);
    assert!(registry.get_by_product(3).is_empty());
    registry.set_product_unit(1, "g").unwrap();
    registry.set_product_unit(3, "kg").unwrap();
    assert_eq!(registry.get("345").unwrap().product_unit, "g");
    assert_eq!(registry.get("181").unwrap().product_unit, "g");
    assert_eq!(registry.get("427").unwrap().product_unit, "ml");
    assert_eq!(registry.get("181").unwrap().history.len(), 1);
}

#[test]
fn update_replaces_the_stored_lot() {
    let mut registry = three_lots();
    let mut changed = registry.get("263").unwrap();
    changed.set_product_unit("kg".to_string());
    registry.update(changed).unwrap();
    assert_eq!(registry.get("263").unwrap().product_unit, "kg");
    assert_eq!(ids(&registry), ["181", "263", "345"]);
    assert!(is_not_found(registry.update(lot("427", 7, 1))));
    assert_eq!(ids(&registry), ["181", "263", "345"]);
}
