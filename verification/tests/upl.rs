use upl_microservice::luhn::new_upl_id;
use upl_microservice::prelude::ServiceError;
use upl_microservice::time::Timestamp;
use upl_microservice::upl::{
    CreatedBy, Depreciation, Kind, Location, Lock, Upl, UplHistoryEvent, UplHistoryItem, UplMethods,
};
use upl_microservice::vat::VAT;

const T0: Timestamp = Timestamp {
    secs: 1_600_000_000,
    nanos: 0,
};
const T1: Timestamp = Timestamp {
    secs: 1_600_000_100,
    nanos: 5,
};

fn lot(id: &str, piece: u32, is_opened: bool) -> Upl {
    Upl::new_at(
        id.to_string(),
        11,
        "ml".to_string(),
        7,
        piece,
        1000,
        true,
        1000,
        VAT::_27,
        3,
        600,
        Location::Stock(1),
        None,
        is_opened,
        9,
        T0,
    )
    .unwrap()
}

fn is_bad_request<T: std::fmt::Debug>(r: Result<T, ServiceError>) -> bool {
    matches!(r, Err(ServiceError::BadRequest(_)))
}

#[test]
fn new_lot_has_its_kind_from_piece_and_opened() {
    let single = lot("181", 1, false);
    assert!(matches!(single.kind, Kind::Sku { sku: 7 }));
    let zero = lot("181", 0, false);
    assert!(matches!(zero.kind, Kind::Sku { sku: 7 }));
    let bulk = lot("181", 5, false);
    assert!(matches!(
        bulk.kind,
        Kind::BulkSku {
            sku: 7,
            upl_pieces: 5
        }
    ));
    let opened = lot("181", 400, true);
    match &opened.kind {
        Kind::OpenedSku {
            sku,
            amount,
            successors,
        } => {
            assert_eq!((*sku, *amount), (7, 400));
            assert!(successors.is_empty());
        }
        other => panic!("{:?}", other),
    }
}

#[test]
fn new_lot_is_unlocked_priced_and_logged() {
    let single = lot("181", 1, false);
    assert_eq!(single.id, "181");
    assert_eq!(single.product_id, 11);
    assert_eq!(single.product_unit, "ml");
    assert_eq!(single.location, Location::Stock(1));
    assert_eq!(single.lock, Lock::NoLock);
    assert!(single.depreciation.is_none());
    assert_eq!(single.price_net, 1000);
    assert_eq!(single.price_gross, 1270);
    assert_eq!(single.procurement_net_price, 600);
    assert_eq!(single.margin_net, 400);
    assert_eq!(single.created_at, T0);
    assert_eq!(single.created_by, 9);
    assert_eq!(single.history.len(), 1);
    assert!(matches!(single.history[0].event, UplHistoryEvent::Created));
    assert_eq!(single.history[0].created_by, CreatedBy::Uid(9));
    assert_eq!(single.history[0].created_at, T0);
}

#[test]
fn new_opened_lot_has_proportional_prices() {
    let opened = lot("181", 400, true);
    assert_eq!(opened.price_net, 400);
    assert_eq!(opened.price_gross, 508);
    assert_eq!(opened.procurement_net_price, 240);
    assert_eq!(opened.margin_net, 160);
}

#[test]
fn new_lot_needs_a_valid_id() {
    for id in [
        "",
        "119",
        "228",
        "18",
        "1810",
        "b5",
        "+181",
        " 181",
        "181 ",
        "99999999999999999999999",
    ] {
        let r = Upl::new_at(
            id.to_string(),
            1,
            "db".to_string(),
            1,
            1,
            1,
            false,
            1,
            VAT::_27,
            1,
            1,
            Location::Stock(1),
            None,
            false,
            1,
            T0,
        );
        assert!(is_bad_request(r), "{:?}", id);
    }
    assert!(Upl::new(
        "0181".to_string(),
        1,
        "db".to_string(),
        1,
        1,
        1,
        false,
        1,
        VAT::_27,
        1,
        1,
        Location::Stock(1),
        None,
        false,
        1
    )
    .is_ok());
}

#[test]
fn new_reads_the_clock() {
    let made = Upl::new(
        "181".to_string(),
        1,
        "db".to_string(),
        1,
        1,
        1,
        false,
        1,
        VAT::_27,
        1,
        1,
        Location::Stock(1),
        None,
        false,
        1,
    )
    .unwrap();
    // Later than the first of January 2020.
    assert!(made.created_at.secs > 1_577_836_800);
    assert!(made.created_at.nanos < 2_000_000_000);
    assert_eq!(made.history[0].created_at, made.created_at);
}

#[test]
fn margin_may_be_negative() {
    let cheap = Upl::new_at(
        "181".to_string(),
        1,
        "db".to_string(),
        1,
        1,
        1,
        false,
        100,
        VAT::_27,
        1,
        250,
        Location::Stock(1),
        None,
        false,
        1,
        T0,
    )
    .unwrap();
    assert_eq!(cheap.price_net, 100);
    assert_eq!(cheap.procurement_net_price, 250);
    assert_eq!(cheap.margin_net, -150);
}

#[test]
fn move_follows_the_lock() {
    let stock = Location::Stock(2);
    let delivery = Location::Delivery(5);
    let other_delivery = Location::Delivery(6);
    let cart = Location::Cart("c1".to_string());
    let other_cart = Location::Cart("c2".to_string());
    let discard = Location::Discard(1);

    let mut unlocked = lot("181", 1, false);
    assert!(unlocked.can_move(&stock));
    assert!(unlocked.can_move(&delivery));
    assert!(unlocked.can_move(&cart));
    assert!(!unlocked.can_move(&discard));

    unlocked.lock = Lock::Cart("c1".to_string());
    assert!(!unlocked.can_move(&stock));
    assert!(!unlocked.can_move(&delivery));
    assert!(unlocked.can_move(&cart));
    assert!(!unlocked.can_move(&other_cart));
    assert!(!unlocked.can_move(&discard));

    unlocked.lock = Lock::Delivery(5);
    assert!(!unlocked.can_move(&stock));
    assert!(unlocked.can_move(&delivery));
    assert!(!unlocked.can_move(&other_delivery));
    assert!(!unlocked.can_move(&cart));
    assert!(!unlocked.can_move(&discard));

    unlocked.lock = Lock::Inventory(4);
    assert!(!unlocked.can_move(&stock));
    assert!(!unlocked.can_move(&delivery));
    assert!(!unlocked.can_move(&cart));
    assert!(unlocked.can_move(&discard));
}

#[test]
fn move_consumes_the_lock_and_logs_twice() {
    let mut l = lot("181", 1, false);
    l.lock_at(Lock::Cart("c1".to_string()), 2, T0).unwrap();
    l.move_upl_at(Location::Cart("c1".to_string()), 3, T1)
        .unwrap();
    assert_eq!(l.location, Location::Cart("c1".to_string()));
    assert_eq!(l.lock, Lock::NoLock);
    assert_eq!(l.history.len(), 4);
    match &l.history[2] {
        UplHistoryItem {
            event: UplHistoryEvent::Moved { from, to },
            created_at,
            created_by,
        } => {
            assert_eq!(*from, Location::Stock(1));
            assert_eq!(*to, Location::Cart("c1".to_string()));
            assert_eq!(*created_at, T1);
            assert_eq!(*created_by, CreatedBy::Uid(3));
        }
        other => panic!("{:?}", other),
    }
    assert!(matches!(l.history[3].event, UplHistoryEvent::Unlocked));
    assert_eq!(l.history[3].created_by, CreatedBy::Technical);
    assert_eq!(l.price_net, 1000);
    assert_eq!(l.price_gross, 1270);
}

#[test]
fn illegal_move_changes_nothing() {
    let mut l = lot("181", 1, false);
    l.lock_at(Lock::Inventory(4), 2, T0).unwrap();
    assert!(is_bad_request(l.move_upl_at(Location::Stock(2), 1, T1)));
    assert!(is_bad_request(
        l.move_upl(Location::Cart("c1".to_string()), 1)
    ));
    assert_eq!(l.location, Location::Stock(1));
    assert_eq!(l.lock, Lock::Inventory(4));
    assert_eq!(l.history.len(), 2);
    assert!(l.move_upl(Location::Discard(8), 1).is_ok());
    assert_eq!(l.location, Location::Discard(8));
}

#[test]
fn lock_discipline() {
    let mut l = lot("181", 1, false);
    assert!(l.can_lock());
    assert!(!l.has_lock());
    assert!(l.is_available());
    l.lock_at(Lock::Cart("c1".to_string()), 2, T0).unwrap();
    assert!(!l.can_lock());
    assert!(l.has_lock());
    assert!(!l.is_available());
    assert_eq!(*l.get_lock(), Lock::Cart("c1".to_string()));
    assert!(
        matches!(&l.history[1].event, UplHistoryEvent::Locked { to } if *to == Lock::Cart("c1".to_string()))
    );
    // a second lock is refused, whatever it is
    assert!(is_bad_request(l.lock_at(
        Lock::Cart("c1".to_string()),
        2,
        T1
    )));
    assert!(is_bad_request(l.lock_at(Lock::Inventory(1), 2, T1)));
    assert!(is_bad_request(l.lock(Lock::Delivery(1), 2)));
    // only the lock that holds the lot releases it
    assert!(is_bad_request(l.unlock_at(
        Lock::Cart("c2".to_string()),
        2,
        T1
    )));
    assert!(is_bad_request(l.unlock_at(Lock::NoLock, 2, T1)));
    assert!(is_bad_request(l.unlock(Lock::Inventory(1), 2)));
    assert_eq!(l.history.len(), 2);
    l.unlock_at(Lock::Cart("c1".to_string()), 5, T1).unwrap();
    assert_eq!(l.lock, Lock::NoLock);
    assert!(matches!(l.history[2].event, UplHistoryEvent::Unlocked));
    assert_eq!(l.history[2].created_by, CreatedBy::Uid(5));
    l.lock(Lock::Delivery(3), 2).unwrap();
    l.unlock_forced_at(T1);
    assert_eq!(l.lock, Lock::NoLock);
    assert_eq!(l.history[4].created_by, CreatedBy::Technical);
    l.unlock_forced();
    assert_eq!(l.history.len(), 6);
}

#[test]
fn lock_is_none_only_for_no_lock() {
    assert!(Lock::NoLock.is_none());
    assert!(!Lock::Cart("c".to_string()).is_none());
    assert!(!Lock::Delivery(0).is_none());
    assert!(!Lock::Inventory(0).is_none());
    assert_eq!(Lock::default(), Lock::NoLock);
    assert_eq!(Location::default(), Location::Stock(0));
    assert!(matches!(Kind::default(), Kind::Sku { sku: 0 }));
    assert_eq!(CreatedBy::default(), CreatedBy::Technical);
    assert!(matches!(
        UplHistoryEvent::default(),
        UplHistoryEvent::NoEvent
    ));
}

#[test]
fn set_price_recalculates() {
    let mut opened = lot("181", 400, true);
    opened.set_price_at(500, VAT::_5, T1).unwrap();
    assert_eq!(opened.sku_price_net, 500);
    assert_eq!(opened.vat, VAT::_5);
    assert_eq!(opened.price_net, 200);
    assert_eq!(opened.price_gross, 210);
    assert_eq!(opened.procurement_net_price, 240);
    assert_eq!(opened.margin_net, -40);
    assert!(matches!(
        opened.history[1].event,
        UplHistoryEvent::PriceChanged {
            sku_price_net: 500,
            vat: VAT::_5
        }
    ));
    assert_eq!(opened.history[1].created_by, CreatedBy::Technical);
    opened.set_price(1000, VAT::_27).unwrap();
    assert_eq!(opened.price_net, 400);
    opened.set_price_by_at(2000, VAT::AAM, CreatedBy::Uid(4), T1);
    assert_eq!(opened.price_net, 800);
    assert_eq!(opened.price_gross, 800);
    assert_eq!(opened.history[3].created_by, CreatedBy::Uid(4));
}

#[test]
fn recalculate_prices_restores_the_invariant() {
    let mut l = lot("181", 3, false);
    l.price_net = 1;
    l.price_gross = 2;
    l.procurement_net_price = 3;
    l.margin_net = 4;
    l.recalculate_prices();
    assert_eq!(l.price_net, 1000);
    assert_eq!(l.price_gross, 1270);
    assert_eq!(l.procurement_net_price, 600);
    assert_eq!(l.margin_net, 400);
}

#[test]
fn depreciation_and_special_price() {
    let mut l = lot("181", 1, false);
    assert!(!l.is_depreciated());
    assert!(is_bad_request(l.remove_deprecation_at(1, T1)));
    assert!(is_bad_request(l.set_depreciation_price_at(Some(10), 1, T1)));
    assert!(is_bad_request(l.set_depreciation_price(None, 1)));
    assert_eq!(l.history.len(), 1);

    l.set_depreciation_at(77, "torn".to_string(), 2, T1)
        .unwrap();
    assert!(l.is_depreciated());
    assert_eq!(l.get_depreciation_id(), Some(77));
    assert_eq!(l.get_depreciation_comment().unwrap(), "torn");
    assert_eq!(l.get_depreciation_price(), None);
    assert!(!l.get_upl_has_special_price());
    assert_eq!(l.get_upl_net_price(), 1000);
    assert_eq!(l.get_upl_gross_price(), 1270);
    assert_eq!(l.get_upl_special_price_margin(), None);
    assert!(matches!(
        &l.history[1].event,
        UplHistoryEvent::SetDeprecated { depreciation_id: 77, comment } if comment == "torn"
    ));
    assert!(is_bad_request(l.set_depreciation_at(
        78,
        "again".to_string(),
        2,
        T1
    )));
    assert!(is_bad_request(l.set_depreciation(
        78,
        "again".to_string(),
        2
    )));

    l.set_depreciation_price_at(Some(500), 2, T1).unwrap();
    assert!(l.get_upl_has_special_price());
    assert_eq!(l.get_upl_special_price_net(), Some(500));
    assert_eq!(l.get_upl_special_price_margin(), Some(-100));
    assert_eq!(l.get_upl_net_price(), 500);
    assert_eq!(l.get_upl_gross_price(), 635);
    // the base prices are kept
    assert_eq!(l.price_net, 1000);
    assert_eq!(l.price_gross, 1270);
    assert!(matches!(
        l.history[2].event,
        UplHistoryEvent::SetDepreciatedPrice {
            retail_net_price: Some(500)
        }
    ));

    l.set_depreciation_price(None, 2).unwrap();
    assert_eq!(l.get_upl_special_price_net(), None);
    assert_eq!(l.get_upl_special_price_margin(), None);
    assert_eq!(l.get_upl_net_price(), 1000);

    l.remove_deprecation(2).unwrap();
    assert!(!l.is_depreciated());
    assert_eq!(l.get_depreciation_id(), None);
    assert!(l.get_depreciation_comment().is_none());
    assert!(matches!(
        l.history[4].event,
        UplHistoryEvent::DeprecationRemoved
    ));
}

#[test]
fn depreciation_record() {
    let mut d = Depreciation::new(5, "wet".to_string());
    assert_eq!(d.depreciation_id, 5);
    assert_eq!(d.comment, "wet");
    assert_eq!(d.net_retail_price, None);
    assert_eq!(d.margin_net, None);
    d.set_price(Some(9), Some(-3));
    assert_eq!(d.net_retail_price, Some(9));
    assert_eq!(d.margin_net, Some(-3));
    let copy = d.clone();
    assert_eq!(copy.comment, "wet");
    assert_eq!(copy.margin_net, Some(-3));
}

#[test]
fn best_before_and_health() {
    let mut l = lot("181", 1, false);
    let noon = Timestamp {
        secs: 10 * 86_400 + 12 * 3_600,
        nanos: 0,
    };
    let same_day_morning = Timestamp {
        secs: 10 * 86_400 + 60,
        nanos: 0,
    };
    let next_day = Timestamp {
        secs: 11 * 86_400,
        nanos: 0,
    };
    assert!(l.is_available_healthy_at(&noon));
    assert!(l.is_available_healthy());
    l.set_best_before_at(Some(same_day_morning), 2, T1);
    assert_eq!(l.get_best_before(), Some(same_day_morning));
    assert!(matches!(
        l.history[1].event,
        UplHistoryEvent::BestBeforeUpdated { to: Some(t) } if t == same_day_morning
    ));
    // sound until the end of the day of the date
    assert!(l.is_available_healthy_at(&noon));
    assert!(!l.is_available_healthy_at(&next_day));
    // the date above is long past
    assert!(!l.is_available_healthy());
    l.set_best_before(None, 2);
    assert_eq!(l.get_best_before(), None);
    assert!(l.is_available_healthy_at(&next_day));

    l.lock_at(Lock::Inventory(1), 1, T1).unwrap();
    assert!(!l.is_available_healthy_at(&noon));
    l.unlock_forced_at(T1);
    l.set_depreciation_at(1, String::new(), 1, T1).unwrap();
    assert!(!l.is_available_healthy_at(&noon));
    l.remove_deprecation_at(1, T1).unwrap();
    assert!(l.is_available_healthy_at(&noon));
    assert!(lot("181", 4, false).is_available_healthy_at(&noon));
    assert!(!lot("181", 4, true).is_available_healthy_at(&noon));
}

#[test]
fn split_conserves_the_pieces() {
    let mut bulk = lot("181", 5, false);
    let child = bulk.split_at("263".to_string(), 2, 4, T1).unwrap();
    assert!(matches!(
        bulk.kind,
        Kind::BulkSku {
            sku: 7,
            upl_pieces: 3
        }
    ));
    assert!(matches!(
        child.kind,
        Kind::BulkSku {
            sku: 7,
            upl_pieces: 2
        }
    ));
    assert_eq!(bulk.get_upl_piece() + child.get_upl_piece(), 5);
    assert_eq!(child.id, "263");
    assert_eq!(bulk.id, "181");
    assert_eq!(child.history.len(), 1);
    assert_eq!(bulk.history.len(), 2);
    assert!(
        matches!(&bulk.history[1].event, UplHistoryEvent::Split { new_upl_id } if new_upl_id == "263")
    );
    assert_eq!(bulk.history[1].created_by, CreatedBy::Uid(4));
    assert_eq!((child.price_net, child.price_gross), (1000, 1270));
    assert_eq!((bulk.price_net, bulk.price_gross), (1000, 1270));

    let single = bulk.split("427".to_string(), 1, 4).unwrap();
    assert!(matches!(single.kind, Kind::Sku { sku: 7 }));
    assert!(matches!(
        bulk.kind,
        Kind::BulkSku {
            sku: 7,
            upl_pieces: 2
        }
    ));
    let last = bulk.split_at("345".to_string(), 1, 4, T1).unwrap();
    assert_eq!(last.get_upl_piece(), 1);
    assert_eq!(bulk.get_upl_piece(), 1);
    assert!(bulk.is_bulk());
}

#[test]
fn split_is_refused() {
    let mut bulk = lot("181", 5, false);
    assert!(is_bad_request(bulk.split_at("263".to_string(), 0, 4, T1)));
    assert!(is_bad_request(bulk.split_at("263".to_string(), 5, 4, T1)));
    assert!(is_bad_request(bulk.split_at("263".to_string(), 6, 4, T1)));
    assert!(is_bad_request(bulk.split_at("228".to_string(), 1, 4, T1)));
    assert!(is_bad_request(bulk.split("".to_string(), 1, 4)));
    bulk.lock_at(Lock::Cart("c".to_string()), 1, T1).unwrap();
    assert!(is_bad_request(bulk.split_at("263".to_string(), 1, 4, T1)));
    assert!(matches!(
        bulk.kind,
        Kind::BulkSku {
            sku: 7,
            upl_pieces: 5
        }
    ));
    assert_eq!(bulk.history.len(), 2);
    let mut single = lot("181", 1, false);
    assert!(is_bad_request(single.split_at("263".to_string(), 1, 4, T1)));
    let mut opened = lot("181", 10, true);
    assert!(is_bad_request(opened.split_at("263".to_string(), 1, 4, T1)));
}

#[test]
fn split_bulk_gives_one_unit_for_each_id() {
    let mut bulk = lot("181", 5, false);
    let ids = vec![new_upl_id(2), new_upl_id(3), new_upl_id(4)];
    let children = bulk.split_bulk_at(ids.clone(), 4, T1).unwrap();
    assert_eq!(children.len(), 3);
    for (child, id) in children.iter().zip(&ids) {
        assert_eq!(child.id, *id);
        assert!(matches!(child.kind, Kind::Sku { sku: 7 }));
        assert_eq!(child.price_net, 1000);
    }
    // each new lot copies the bulk as it was when the lot was split off
    assert_eq!(children[0].history.len(), 1);
    assert_eq!(children[1].history.len(), 2);
    assert_eq!(children[2].history.len(), 3);
    assert!(matches!(
        bulk.kind,
        Kind::BulkSku {
            sku: 7,
            upl_pieces: 2
        }
    ));
    assert_eq!(bulk.history.len(), 4);
    assert!(bulk.split_bulk(vec![], 4).unwrap().is_empty());
    assert_eq!(bulk.history.len(), 4);
}

#[test]
fn split_bulk_is_refused() {
    let mut bulk = lot("181", 3, false);
    let three = vec![new_upl_id(2), new_upl_id(3), new_upl_id(4)];
    assert!(is_bad_request(bulk.split_bulk_at(three, 4, T1)));
    assert!(is_bad_request(bulk.split_bulk_at(
        vec![new_upl_id(2), "119".to_string()],
        4,
        T1
    )));
    assert!(is_bad_request(lot("181", 1, false).split_bulk_at(
        vec![],
        4,
        T1
    )));
    bulk.lock_at(Lock::Delivery(1), 1, T1).unwrap();
    assert!(is_bad_request(bulk.split_bulk(vec![new_upl_id(2)], 4)));
    assert!(matches!(
        bulk.kind,
        Kind::BulkSku {
            sku: 7,
            upl_pieces: 3
        }
    ));
    assert_eq!(bulk.history.len(), 2);
}

#[test]
fn open_and_close() {
    let mut l = lot("181", 1, false);
    assert!(l.is_divisible());
    assert_eq!(l.get_divisible_amount(), Some(1000));
    assert!(is_bad_request(l.close_at(T1)));
    l.open_at(T1).unwrap();
    match &l.kind {
        Kind::OpenedSku {
            sku: 7,
            amount: 1000,
            successors,
        } => assert!(successors.is_empty()),
        other => panic!("{:?}", other),
    }
    assert!(!l.is_original());
    assert_eq!(l.price_net, 1000);
    assert_eq!(l.procurement_net_price, 600);
    assert!(matches!(l.history[1].event, UplHistoryEvent::Opened));
    assert!(is_bad_request(l.open_at(T1)));
    assert!(is_bad_request(l.open()));
    l.close_at(T1).unwrap();
    assert!(matches!(l.kind, Kind::Sku { sku: 7 }));
    assert!(matches!(l.history[2].event, UplHistoryEvent::Closed));
    l.open().unwrap();
    l.close().unwrap();
    assert_eq!(l.history.len(), 5);
}

#[test]
fn open_is_refused() {
    let mut locked = lot("181", 1, false);
    locked.lock_at(Lock::Cart("c".to_string()), 1, T1).unwrap();
    assert!(is_bad_request(locked.open_at(T1)));
    let mut plain = lot("181", 1, false);
    plain.set_divisible(false);
    assert!(!plain.is_divisible());
    assert!(is_bad_request(plain.open_at(T1)));
    plain.set_divisible(true);
    plain.sku_divisible_amount = 1;
    assert!(is_bad_request(plain.open_at(T1)));
    assert!(is_bad_request(lot("181", 2, false).open_at(T1)));
    assert!(!lot("181", 2, false).is_divisible());
    assert_eq!(lot("181", 2, false).get_divisible_amount(), None);
}

#[test]
fn close_is_refused_once_something_was_portioned_out() {
    let mut l = lot("181", 1, false);
    l.open_at(T1).unwrap();
    let child = l.divide_at("263".to_string(), 1, 1, T1).unwrap();
    assert!(is_bad_request(l.close_at(T1)));
    l.merge_at(child, 1, T1).unwrap();
    l.lock_at(Lock::Inventory(1), 1, T1).unwrap();
    assert!(is_bad_request(l.close_at(T1)));
    l.unlock_forced_at(T1);
    assert!(l.close().is_ok());
}

#[test]
fn divide_and_merge_round_trip() {
    let mut parent = lot("181", 1, false);
    parent.open_at(T0).unwrap();
    let child = parent.divide_at("263".to_string(), 250, 4, T1).unwrap();
    match &parent.kind {
        Kind::OpenedSku {
            sku: 7,
            amount: 750,
            successors,
        } => assert_eq!(successors, &["263"]),
        other => panic!("{:?}", other),
    }
    assert_eq!(
        (
            parent.price_net,
            parent.procurement_net_price,
            parent.margin_net
        ),
        (750, 450, 300)
    );
    assert_eq!(parent.price_gross, 953);
    match &child.kind {
        Kind::DerivedProduct {
            derived_from,
            derived_from_sku: 7,
            amount: 250,
        } => {
            assert_eq!(derived_from, "181")
        }
        other => panic!("{:?}", other),
    }
    assert_eq!(child.id, "263");
    assert_eq!(child.created_by, 4);
    assert_eq!(child.created_at, T1);
    assert_eq!(
        (
            child.price_net,
            child.procurement_net_price,
            child.margin_net
        ),
        (250, 150, 100)
    );
    assert_eq!(child.price_gross, 318);
    assert_eq!(child.get_sku(), 7);
    assert!(!child.is_divisible());
    assert_eq!(child.get_divisible_amount(), None);
    assert!(matches!(
        &parent.history[2].event,
        UplHistoryEvent::Divided { new_upl_id, requested_amount: 250 } if new_upl_id == "263"
    ));

    parent.merge_at(child, 5, T1).unwrap();
    match &parent.kind {
        Kind::OpenedSku {
            sku: 7,
            amount: 1000,
            successors,
        } => assert!(successors.is_empty()),
        other => panic!("{:?}", other),
    }
    assert_eq!(parent.price_net, 1000);
    assert_eq!(parent.procurement_net_price, 600);
    assert_eq!(parent.history.len(), 4);
    assert!(matches!(parent.history[1].event, UplHistoryEvent::Opened));
    assert!(matches!(
        &parent.history[3].event,
        UplHistoryEvent::Merged { upl_id, amount: 250 } if upl_id == "263"
    ));
    assert_eq!(parent.history[3].created_by, CreatedBy::Uid(5));
}

#[test]
fn merge_keeps_the_other_successors() {
    let mut parent = lot("181", 1, false);
    parent.open_at(T0).unwrap();
    let a = parent.divide_at("263".to_string(), 100, 4, T1).unwrap();
    let b = parent.divide("345".to_string(), 200, 4).unwrap();
    let c = parent.divide_at("427".to_string(), 300, 4, T1).unwrap();
    parent.merge(b, 4).unwrap();
    match &parent.kind {
        Kind::OpenedSku {
            amount: 600,
            successors,
            ..
        } => assert_eq!(successors, &["263", "427"]),
        other => panic!("{:?}", other),
    }
    assert_eq!(a.get_upl_piece(), 1);
    assert_eq!(c.price_net, 300);
}

#[test]
fn divide_is_refused() {
    let mut parent = lot("181", 1, false);
    assert!(is_bad_request(parent.divide_at(
        "263".to_string(),
        1,
        4,
        T1
    )));
    parent.open_at(T0).unwrap();
    assert!(is_bad_request(parent.divide_at(
        "263".to_string(),
        0,
        4,
        T1
    )));
    assert!(is_bad_request(parent.divide_at(
        "263".to_string(),
        1000,
        4,
        T1
    )));
    assert!(is_bad_request(parent.divide_at(
        "263".to_string(),
        1001,
        4,
        T1
    )));
    assert!(is_bad_request(parent.divide_at(
        "446".to_string(),
        1,
        4,
        T1
    )));
    parent.lock_at(Lock::Cart("c".to_string()), 1, T1).unwrap();
    assert!(is_bad_request(parent.divide("263".to_string(), 1, 4)));
    assert!(matches!(parent.kind, Kind::OpenedSku { amount: 1000, .. }));
    parent.unlock_forced_at(T1);
    let child = parent.divide_at("263".to_string(), 999, 4, T1).unwrap();
    assert_eq!(child.price_net, 999);
    assert!(matches!(parent.kind, Kind::OpenedSku { amount: 1, .. }));
    assert!(!parent.is_divisible());
    let mut portion = child;
    assert!(is_bad_request(portion.divide_at(
        "345".to_string(),
        1,
        4,
        T1
    )));
}

#[test]
fn merge_is_refused() {
    let mut parent = lot("181", 1, false);
    parent.open_at(T0).unwrap();
    let child = parent.divide_at("263".to_string(), 250, 4, T1).unwrap();

    let mut stranger = lot("345", 1, false);
    stranger.open_at(T0).unwrap();
    assert!(is_bad_request(stranger.merge_at(child.clone(), 4, T1)));
    assert!(is_bad_request(parent.merge_at(lot("345", 1, false), 4, T1)));
    assert!(is_bad_request(lot("181", 1, false).merge_at(
        child.clone(),
        4,
        T1
    )));

    let mut locked_child = child.clone();
    locked_child
        .lock_at(Lock::Cart("c".to_string()), 1, T1)
        .unwrap();
    assert!(is_bad_request(parent.merge_at(locked_child, 4, T1)));
    let mut damaged_child = child.clone();
    damaged_child
        .set_depreciation_at(1, String::new(), 1, T1)
        .unwrap();
    assert!(is_bad_request(parent.merge_at(damaged_child, 4, T1)));

    let mut locked = parent.clone();
    locked.lock_at(Lock::Inventory(1), 1, T1).unwrap();
    assert!(is_bad_request(locked.merge_at(child.clone(), 4, T1)));
    let mut damaged = parent.clone();
    damaged
        .set_depreciation_at(1, String::new(), 1, T1)
        .unwrap();
    assert!(is_bad_request(damaged.merge(child.clone(), 4)));

    assert!(matches!(parent.kind, Kind::OpenedSku { amount: 750, .. }));
    assert_eq!(parent.history.len(), 3);
}

#[test]
fn merge_that_does_not_fit_is_an_internal_error() {
    let mut parent = lot("181", u32::MAX, true);
    let mut child = lot("263", 1, false);
    child.kind = Kind::DerivedProduct {
        derived_from: "181".to_string(),
        derived_from_sku: 7,
        amount: 1,
    };
    match parent.merge_at(child, 1, T1) {
        Err(ServiceError::InternalError(_)) => {}
        other => panic!("{:?}", other),
    }
    assert!(matches!(
        parent.kind,
        Kind::OpenedSku {
            amount: u32::MAX,
            ..
        }
    ));
}

#[test]
fn getters_and_setters() {
    let mut l = lot("181", 5, false);
    assert_eq!(l.get_upl_id(), "181");
    assert_eq!(l.get_product_id(), 11);
    assert_eq!(l.get_sku(), 7);
    assert!(matches!(l.get_kind(), Kind::BulkSku { .. }));
    assert_eq!(l.get_procurement_id(), 3);
    assert_eq!(l.get_procurement_net_price(), 600);
    assert_eq!(*l.get_location(), Location::Stock(1));
    assert!(l.is_original());
    assert!(l.is_bulk());
    assert_eq!(l.get_upl_piece(), 5);
    assert_eq!(l.get_created_at(), T0);
    assert_eq!(l.get_created_by(), 9);
    assert_eq!(l.get_upl_vat(), VAT::_27);
    assert_eq!(l.get_history().len(), 1);
    l.set_product_unit("g".to_string());
    assert_eq!(l.product_unit, "g");
    l.set_history(UplHistoryItem::at(
        CreatedBy::Technical,
        UplHistoryEvent::Archived,
        T1,
    ));
    assert_eq!(l.get_history().len(), 2);
    assert!(matches!(l.history[1].event, UplHistoryEvent::Archived));
    let item = UplHistoryItem::new(CreatedBy::Uid(3), UplHistoryEvent::Unlocked);
    assert_eq!(item.created_by, CreatedBy::Uid(3));
    assert!(item.created_at.secs > 1_577_836_800);
    let nothing = UplHistoryItem::default();
    assert!(matches!(nothing.event, UplHistoryEvent::NoEvent));
    assert_eq!(nothing.created_by, CreatedBy::Technical);
}

#[test]
fn default_lot() {
    let l = Upl::default();
    assert_eq!(l.id, "");
    assert_eq!(l.sku_divisible_amount, 1);
    assert!(matches!(l.kind, Kind::Sku { sku: 0 }));
    assert_eq!(l.location, Location::Stock(0));
    assert_eq!(l.lock, Lock::NoLock);
    assert_eq!(l.vat, VAT::_27);
    assert!(l.history.is_empty());
    assert!(!l.sku_divisible);
    assert!(l.created_at.secs > 1_577_836_800);
}

#[test]
fn clone_copies_everything() {
    let mut l = lot("181", 1, false);
    l.open_at(T0).unwrap();
    let _ = l.divide_at("263".to_string(), 10, 1, T1).unwrap();
    l.set_depreciation_at(4, "x".to_string(), 1, T1).unwrap();
    let copy = l.clone();
    assert_eq!(format!("{:?}", copy), format!("{:?}", l));
}

#[test]
fn opened_prices_follow_the_amount() {
    // divisible into 7 sub-units; price 100, bought for 55
    for remaining in 0..=7u32 {
        let l = Upl::new_at(
            "181".to_string(),
            1,
            "db".to_string(),
            1,
            remaining,
            7,
            true,
            100,
            VAT::_27,
            1,
            55,
            Location::Stock(1),
            None,
            true,
            1,
            T0,
        )
        .unwrap();
        let exact_price = remaining as i64 * 100;
        let exact_cost = remaining as i64 * 55;
        assert!((l.price_net as i64 * 7 - exact_price).abs() * 2 <= 7);
        assert!((l.procurement_net_price as i64 * 7 - exact_cost).abs() * 2 <= 7);
        assert_eq!(l.price_gross, VAT::_27.gross(l.price_net));
        assert_eq!(
            l.margin_net,
            l.price_net as i64 - l.procurement_net_price as i64
        );
    }
    let third = Upl::new_at(
        "181".to_string(),
        1,
        "db".to_string(),
        1,
        1,
        3,
        true,
        100,
        VAT::_27,
        1,
        50,
        Location::Stock(1),
        None,
        true,
        1,
        T0,
    )
    .unwrap();
    assert_eq!(
        (
            third.price_net,
            third.procurement_net_price,
            third.margin_net
        ),
        (33, 17, 16)
    );
    assert_eq!(third.price_gross, 42);
}

#[test]
fn opened_lot_without_sub_units_has_capped_prices() {
    let l = Upl::new_at(
        "181".to_string(),
        1,
        "db".to_string(),
        1,
        5,
        0,
        true,
        100,
        VAT::_27,
        1,
        0,
        Location::Stock(1),
        None,
        true,
        1,
        T0,
    )
    .unwrap();
    assert_eq!(l.price_net, u32::MAX);
    assert_eq!(l.price_gross, u32::MAX);
    assert_eq!(l.procurement_net_price, 0);
    assert_eq!(l.margin_net, u32::MAX as i64);
}
