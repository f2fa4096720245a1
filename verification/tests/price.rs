use upl_microservice::price::{HistoryItem, Sku};
use upl_microservice::time::Timestamp;
use upl_microservice::vat::VAT;

const T0: Timestamp = Timestamp {
    secs: 1_600_000_000,
    nanos: 0,
};

#[test]
fn sku_price_is_set_with_its_history() {
    let mut sku = Sku::new(7);
    assert_eq!(*sku.get_id(), 7);
    assert_eq!((sku.net_retail_price, sku.gross_retail_price), (0, 0));
    assert_eq!(sku.vat, VAT::_27);
    assert!(sku.history.is_empty());
    sku.set_price_at(1000, VAT::_27, 1270, 3, T0).unwrap();
    assert_eq!((sku.net_retail_price, sku.gross_retail_price), (1000, 1270));
    assert_eq!(
        sku.history,
        [HistoryItem {
            net_retail_price: 1000,
            vat: VAT::_27,
            gross_retail_price: 1270,
            created_by: 3,
            created_at: T0
        }]
    );
    sku.set_price(200, VAT::_5, 210, 4).unwrap();
    assert_eq!(sku.vat, VAT::_5);
    assert_eq!(sku.history.len(), 2);
    assert_eq!(sku.history[1].created_by, 4);
    assert!(sku.history[1].created_at.secs > 1_577_836_800);
}

#[test]
fn sku_price_with_a_wrong_gross_is_refused() {
    let mut sku = Sku::new(7);
    sku.set_price_at(1000, VAT::_27, 1270, 3, T0).unwrap();
    assert!(sku.set_price_at(1000, VAT::_27, 1200, 3, T0).is_err());
    assert!(sku.set_price(1000, VAT::_5, 1270, 3).is_err());
    assert_eq!((sku.net_retail_price, sku.gross_retail_price), (1000, 1270));
    assert_eq!(sku.history.len(), 1);
}

#[test]
fn sku_price_defaults() {
    let sku = Sku::default();
    assert_eq!(sku.sku, 0);
    assert!(sku.history.is_empty());
    let item = HistoryItem::default();
    assert_eq!(
        (
            item.net_retail_price,
            item.gross_retail_price,
            item.created_by
        ),
        (0, 0, 0)
    );
    assert_eq!(item.vat, VAT::_27);
    let made = HistoryItem::new(1, VAT::AAM, 1, 9);
    assert_eq!(
        (
            made.net_retail_price,
            made.gross_retail_price,
            made.created_by
        ),
        (1, 1, 9)
    );
}
