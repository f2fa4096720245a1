use upl_microservice::vat::{share, VAT};

#[test]
fn gross_price_is_net_price_with_tax_rounded() {
    assert_eq!(VAT::_27.gross(100), 127);
    assert_eq!(VAT::_27.gross(1000), 1270);
    assert_eq!(VAT::_27.gross(0), 0);
    assert_eq!(VAT::_27.gross(1), 1);
    assert_eq!(VAT::_27.gross(2), 3);
    assert_eq!(VAT::_18.gross(3), 4);
    assert_eq!(VAT::_18.gross(100), 118);
    assert_eq!(VAT::_5.gross(100), 105);
    assert_eq!(VAT::AAM.gross(77), 77);
    assert_eq!(VAT::FAD.gross(77), 77);
    assert_eq!(VAT::TAM.gross(77), 77);
}

#[test]
fn gross_price_rounds_a_half_up() {
    // 10 * 1.05 = 10.5
    assert_eq!(VAT::_5.gross(10), 11);
    // 50 * 1.27 = 63.5
    assert_eq!(VAT::_27.gross(50), 64);
    // 9 * 1.05 = 9.45
    assert_eq!(VAT::_5.gross(9), 9);
}

#[test]
fn gross_price_is_capped() {
    assert_eq!(VAT::_27.gross(u32::MAX), u32::MAX);
    assert_eq!(VAT::AAM.gross(u32::MAX), u32::MAX);
    assert_eq!(VAT::_5.gross(4_090_445_044), u32::MAX);
}

#[test]
fn share_is_the_rounded_proportion() {
    assert_eq!(share(750, 1000, 1000), 750);
    assert_eq!(share(250, 1000, 1000), 250);
    assert_eq!(share(750, 1000, 600), 450);
    assert_eq!(share(250, 1000, 600), 150);
    assert_eq!(share(1, 3, 100), 33);
    assert_eq!(share(2, 3, 100), 67);
    assert_eq!(share(1, 2, 1), 1);
    assert_eq!(share(1, 4, 1), 0);
    assert_eq!(share(0, 7, 100), 0);
    assert_eq!(share(7, 7, 123), 123);
    assert_eq!(share(u32::MAX, u32::MAX, u32::MAX), u32::MAX);
}

#[test]
fn share_is_capped_and_defined_without_a_whole() {
    assert_eq!(share(u32::MAX, 1, u32::MAX), u32::MAX);
    assert_eq!(share(3, 1, 2_000_000_000), u32::MAX);
    assert_eq!(share(5, 0, 10), u32::MAX);
    assert_eq!(share(0, 0, 10), 0);
    assert_eq!(share(5, 0, 0), 0);
}

#[test]
fn vat_from_str_and_back() {
    assert_eq!(VAT::from_str("AAM").unwrap(), VAT::AAM);
    assert_eq!(VAT::from_str("aam").unwrap(), VAT::AAM);
    assert_eq!(VAT::from_str("FAD").unwrap(), VAT::FAD);
    assert_eq!(VAT::from_str("fad").unwrap(), VAT::FAD);
    assert_eq!(VAT::from_str("TAM").unwrap(), VAT::TAM);
    assert_eq!(VAT::from_str("tam").unwrap(), VAT::TAM);
    assert_eq!(VAT::from_str("5").unwrap(), VAT::_5);
    assert_eq!(VAT::from_str("18").unwrap(), VAT::_18);
    assert_eq!(VAT::from_str("27").unwrap(), VAT::_27);
    assert!(VAT::from_str("").is_err());
    assert!(VAT::from_str("27%").is_err());
    assert!(VAT::from_str("Aam").is_err());
    for vat in [VAT::AAM, VAT::FAD, VAT::TAM, VAT::_5, VAT::_18, VAT::_27] {
        assert_eq!(VAT::from_str(&vat.to_string()).unwrap(), vat);
    }
    assert_eq!(VAT::_27.to_string(), "27");
    assert_eq!(VAT::default(), VAT::_27);
}

#[test]
fn vat_percent() {
    assert_eq!(VAT::AAM.percent(), 100);
    assert_eq!(VAT::_5.percent(), 105);
    assert_eq!(VAT::_18.percent(), 118);
    assert_eq!(VAT::_27.percent(), 127);
}

#[test]
fn vat_from_str_error_names_the_classes() {
    assert_eq!(
        VAT::from_str("19").unwrap_err(),
        "Nem megfelelő Áfa formátum! 5, 18, 27, AAM, TAM, FAD"
    );
}
