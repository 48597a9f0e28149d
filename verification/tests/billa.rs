use pricevista::error::Error;
use pricevista::providers::billa::{
    BillaBadge, BillaDepositType, BillaPackageLabel, BillaPromotionTag, BillaPromotionType,
    BillaVolumeLabel,
};

#[test]
fn every_badge_code_is_read() {
    let table = [
        ("gs-amabio", BillaBadge::AMAMark),
        ("gs-aoc", BillaBadge::AOCMark),
        ("gs-aop", BillaBadge::AOPMark),
        ("gs-argeheu", BillaBadge::ArgeMark),
        ("gs-asc", BillaBadge::ASCMark),
        ("gs-bio", BillaBadge::BioMark),
        ("gs-demeter", BillaBadge::DemeterMark),
        ("gs-doc", BillaBadge::DOCMark),
        ("gs-dop", BillaBadge::DOPMark),
        ("gs-eubio", BillaBadge::EUBioMark),
        ("gs-fairzumtier", BillaBadge::FairZumTier),
        ("gs-fsc", BillaBadge::FSCMark),
        ("gs-ft", BillaBadge::FairTradeMark),
        ("gs-gentech", BillaBadge::GenTechMark),
        ("gs-gga", BillaBadge::PGIMark),
        ("gs-gta", BillaBadge::TSGMark),
        ("gs-gu", BillaBadge::PDOMark),
        ("gs-msc", BillaBadge::MSCMark),
        ("gs-proplan", BillaBadge::ProPlanMark),
        ("gs-rainfor", BillaBadge::RainforestMark),
        ("gs-utz", BillaBadge::UTZCertifiedMark),
        ("gs-vegan", BillaBadge::VeganMark),
        ("homecountry", BillaBadge::AustrianProduct),
        ("pp-bio", BillaBadge::BioProduct),
        ("kuehlung", BillaBadge::CooledProduct),
        ("tiefkuehlung", BillaBadge::DeepFrozenProduct),
        ("pp-glutenfr", BillaBadge::GlutenFreeProduct),
        ("pp-lakto", BillaBadge::LactoseFreeProduct),
        ("eg-neu", BillaBadge::NewProduct),
        ("pp-vegan", BillaBadge::VeganProduct),
        ("pp-veget", BillaBadge::VegetarianProduct),
    ];
    for (code, badge) in table {
        assert_eq!(BillaBadge::from_code(code), badge, "{}", code);
        assert!(badge.is_known());
    }
}

#[test]
fn unknown_badge_codes_give_unknown() {
    for code in ["", "gs-", "GS-BIO", "gs-bio ", "bio", "gs-biox", "pp-veg"] {
        assert_eq!(BillaBadge::from_code(code), BillaBadge::Unknown, "{:?}", code);
    }
    assert!(!BillaBadge::Unknown.is_known());
}

#[test]
fn deposit_types_are_read() {
    assert_eq!(BillaDepositType::from_code("ONEWAY"), BillaDepositType::Oneway);
    assert_eq!(BillaDepositType::from_code("REUSABLE"), BillaDepositType::Reusable);
    assert_eq!(BillaDepositType::from_code("oneway"), BillaDepositType::Unknown);
    assert_eq!(BillaDepositType::from_code("REFILLABLE"), BillaDepositType::Unknown);
    assert!(BillaDepositType::Oneway.is_known());
    assert!(!BillaDepositType::Unknown.is_known());
}

#[test]
fn promotion_types_are_read() {
    assert_eq!(BillaPromotionType::from_code("FROM"), BillaPromotionType::From);
    assert_eq!(BillaPromotionType::from_code("PER_SET_OF"), BillaPromotionType::PerSetOf);
    assert_eq!(BillaPromotionType::from_code("PerSetOf"), BillaPromotionType::Unknown);
    assert_eq!(BillaPromotionType::from_code(""), BillaPromotionType::Unknown);
    assert!(!BillaPromotionType::Unknown.is_known());
}

#[test]
fn package_labels_are_read_by_short_and_long_form() {
    let table = [
        ("bd", BillaPackageLabel::Bunch),
        ("Bund", BillaPackageLabel::Bunch),
        ("be", BillaPackageLabel::Cup),
        ("Becher", BillaPackageLabel::Cup),
        ("bl", BillaPackageLabel::Blister),
        ("Blister", BillaPackageLabel::Blister),
        ("br", BillaPackageLabel::Letter),
        ("Brief", BillaPackageLabel::Letter),
        ("bt", BillaPackageLabel::Bag),
        ("Beutel", BillaPackageLabel::Bag),
        ("bx", BillaPackageLabel::Box),
        ("gk", BillaPackageLabel::Box),
        ("sc", BillaPackageLabel::Box),
        ("Box", BillaPackageLabel::Box),
        ("Geschenkkarton", BillaPackageLabel::Box),
        ("Schachtel", BillaPackageLabel::Box),
        ("ct", BillaPackageLabel::TinCan),
        ("Blechdose (ITA)", BillaPackageLabel::TinCan),
        ("ds", BillaPackageLabel::Can),
        ("Dose", BillaPackageLabel::Can),
        ("fl", BillaPackageLabel::Bottle),
        ("Flasche", BillaPackageLabel::Bottle),
        ("gl", BillaPackageLabel::Glas),
        ("Glas", BillaPackageLabel::Glas),
        ("ka", BillaPackageLabel::Canister),
        ("Kanister", BillaPackageLabel::Canister),
        ("kb", BillaPackageLabel::Basket),
        ("Korb", BillaPackageLabel::Basket),
        ("kg", BillaPackageLabel::Kilogram),
        ("Kilo", BillaPackageLabel::Kilogram),
        ("ki", BillaPackageLabel::Crate),
        ("Kiste", BillaPackageLabel::Crate),
        ("kt", BillaPackageLabel::Carton),
        ("Karton", BillaPackageLabel::Carton),
        ("ku", BillaPackageLabel::Bucket),
        ("K\u{fc}bel", BillaPackageLabel::Bucket),
        ("ne", BillaPackageLabel::Net),
        ("nt", BillaPackageLabel::Net),
        ("Netz", BillaPackageLabel::Net),
        ("pa", BillaPackageLabel::Package),
        ("pk", BillaPackageLabel::Package),
        ("pt", BillaPackageLabel::Package),
        ("Packung", BillaPackageLabel::Package),
        ("Paket", BillaPackageLabel::Package),
        ("pl", BillaPackageLabel::Slice),
        ("Scheibe(SLK)", BillaPackageLabel::Slice),
        ("rg", BillaPackageLabel::Bar),
        ("Riegel", BillaPackageLabel::Bar),
        ("rl", BillaPackageLabel::Roll),
        ("Rolle", BillaPackageLabel::Roll),
        ("sa", BillaPackageLabel::Sack),
        ("Sack", BillaPackageLabel::Sack),
        ("se", BillaPackageLabel::Tray),
        ("ta", BillaPackageLabel::Tray),
        ("Schale", BillaPackageLabel::Tray),
        ("Tasse", BillaPackageLabel::Tray),
        ("sp", BillaPackageLabel::Spray),
        ("Spray", BillaPackageLabel::Spray),
        ("st", BillaPackageLabel::Piece),
        ("St\u{fc}ck", BillaPackageLabel::Piece),
        ("tb", BillaPackageLabel::Tube),
        ("Tube", BillaPackageLabel::Tube),
        ("tf", BillaPackageLabel::ChocolateBar),
        ("tu", BillaPackageLabel::ChocolateBar),
        ("Tafel", BillaPackageLabel::ChocolateBar),
        ("tg", BillaPackageLabel::Jar),
        ("Tiegel", BillaPackageLabel::Jar),
        ("zz", BillaPackageLabel::Unknown),
        ("Kubel", BillaPackageLabel::Unknown),
        ("", BillaPackageLabel::Unknown),
    ];
    for (code, label) in table {
        assert_eq!(BillaPackageLabel::from_code(code), label, "{}", code);
    }
}

#[test]
fn volume_labels_are_read_by_short_and_long_form() {
    let table = [
        ("bd", BillaVolumeLabel::Bunch),
        ("Bund", BillaVolumeLabel::Bunch),
        ("bl", BillaVolumeLabel::Sheet),
        ("Blatt", BillaVolumeLabel::Sheet),
        ("bt", BillaVolumeLabel::Bag),
        ("Beutel", BillaVolumeLabel::Bag),
        ("cm", BillaVolumeLabel::Centimetre),
        ("Zentimeter", BillaVolumeLabel::Centimetre),
        ("gr", BillaVolumeLabel::Gram),
        ("g", BillaVolumeLabel::Gram),
        ("Gramm", BillaVolumeLabel::Gram),
        ("kg", BillaVolumeLabel::Kilogram),
        ("Kilogramm", BillaVolumeLabel::Kilogram),
        ("lt", BillaVolumeLabel::Litre),
        ("liter", BillaVolumeLabel::Litre),
        ("Liter", BillaVolumeLabel::Litre),
        ("ml", BillaVolumeLabel::Millilitre),
        ("Milliliter", BillaVolumeLabel::Millilitre),
        ("mt", BillaVolumeLabel::Metre),
        ("m", BillaVolumeLabel::Metre),
        ("Meter", BillaVolumeLabel::Metre),
        ("pa", BillaVolumeLabel::Pair),
        ("Paar", BillaVolumeLabel::Pair),
        ("pk", BillaVolumeLabel::Package),
        ("Packung", BillaVolumeLabel::Package),
        ("pt", BillaVolumeLabel::Portion),
        ("Portion", BillaVolumeLabel::Portion),
        ("rl", BillaVolumeLabel::Roll),
        ("Rollen", BillaVolumeLabel::Roll),
        ("st", BillaVolumeLabel::Piece),
        ("stk", BillaVolumeLabel::Piece),
        ("St\u{fc}ck", BillaVolumeLabel::Piece),
        ("tb", BillaVolumeLabel::Teabag),
        ("Teebeutel", BillaVolumeLabel::Teabag),
        ("wg", BillaVolumeLabel::Washload),
        ("Waschgang", BillaVolumeLabel::Washload),
        ("Kilo", BillaVolumeLabel::Unknown),
        ("LITER", BillaVolumeLabel::Unknown),
    ];
    for (code, label) in table {
        assert_eq!(BillaVolumeLabel::from_code(code), label, "{}", code);
    }
    assert!(!BillaVolumeLabel::Unknown.is_known());
    assert!(!BillaPackageLabel::Unknown.is_known());
}

fn tag(code: &str) -> BillaPromotionTag {
    BillaPromotionTag::from_code(code).unwrap()
}

#[test]
fn promotion_tags_are_read() {
    assert_eq!(tag("pt-kurant"), BillaPromotionTag::Kurant);
    assert_eq!(tag("pt-multi"), BillaPromotionTag::Multi);
    assert_eq!(tag("pt-abverkauf"), BillaPromotionTag::Discount);
    assert_eq!(tag("pt-aktion"), BillaPromotionTag::Discount);
    assert_eq!(tag("pt-extrem"), BillaPromotionTag::Discount);
    assert_eq!(tag("pt-satterrabatt"), BillaPromotionTag::Discount);
    assert_eq!(tag("pt-1plus1"), BillaPromotionTag::Bogo(1, 1));
    assert_eq!(tag("pt-2plus1"), BillaPromotionTag::Bogo(2, 1));
    assert_eq!(tag("pt-10plus2"), BillaPromotionTag::Bogo(10, 2));
    assert_eq!(tag("pt-+3plus+4"), BillaPromotionTag::Bogo(3, 4));
    assert_eq!(tag("pt-4294967295plus0"), BillaPromotionTag::Bogo(u32::MAX, 0));
}

#[test]
fn promotion_tags_that_are_not_known_give_unknown() {
    assert_eq!(tag("pt-"), BillaPromotionTag::Unknown);
    assert_eq!(tag("pt-neu"), BillaPromotionTag::Unknown);
    assert_eq!(tag("pt-Kurant"), BillaPromotionTag::Unknown);
    assert_eq!(tag("pt-plus"), BillaPromotionTag::Unknown);
    assert_eq!(tag("pt-2plus"), BillaPromotionTag::Unknown);
    assert_eq!(tag("pt-plus1"), BillaPromotionTag::Unknown);
    assert_eq!(tag("pt-2plusx"), BillaPromotionTag::Unknown);
    assert_eq!(tag("pt-2 plus 1"), BillaPromotionTag::Unknown);
    assert_eq!(tag("pt--2plus1"), BillaPromotionTag::Unknown);
    assert_eq!(tag("pt-4294967296plus1"), BillaPromotionTag::Unknown);
    assert_eq!(tag("pt-1plus2plus3"), BillaPromotionTag::Unknown);
    assert_eq!(tag("pt-1plusplus3"), BillaPromotionTag::Unknown);
}

#[test]
fn codes_without_the_prefix_are_no_promotion_tags() {
    for code in ["", "pt", "kurant", "PT-kurant", "xpt-kurant", " pt-kurant", "2plus1"] {
        match BillaPromotionTag::from_code(code) {
            Err(Error::Schema(text)) => assert_eq!(text, "Invalid Billa promotion tag"),
            other => panic!("{:?} gave {:?}", code, other),
        }
    }
}

#[test]
fn extract_bogo_reads_both_numbers() {
    assert_eq!(BillaPromotionTag::extract_bogo("2plus1"), BillaPromotionTag::Bogo(2, 1));
    assert_eq!(BillaPromotionTag::extract_bogo("007plus010"), BillaPromotionTag::Bogo(7, 10));
    assert_eq!(BillaPromotionTag::extract_bogo("plus"), BillaPromotionTag::Unknown);
    assert_eq!(BillaPromotionTag::extract_bogo("aplusb"), BillaPromotionTag::Unknown);
    assert_eq!(BillaPromotionTag::extract_bogo("1plus-1"), BillaPromotionTag::Unknown);
    assert_eq!(BillaPromotionTag::extract_bogo(""), BillaPromotionTag::Unknown);
    assert_eq!(BillaPromotionTag::extract_bogo("21"), BillaPromotionTag::Unknown);
    assert_eq!(BillaPromotionTag::extract_bogo("2plu1"), BillaPromotionTag::Unknown);
    assert_eq!(BillaPromotionTag::extract_bogo("1plus2plus3"), BillaPromotionTag::Unknown);
    assert_eq!(BillaPromotionTag::extract_bogo("1plusplus"), BillaPromotionTag::Unknown);
}

#[test]
fn bogo_numbers_are_read_as_std_reads_them() {
    for left in ["", "0", "+", "+0", "-0", "12", "012", "4294967295", "4294967296", " 1", "1 ", "١"]
    {
        for right in ["3", "", "+7", "99999999999"] {
            let term = format!("{}plus{}", left, right);
            let expected = match (left.parse::<u32>(), right.parse::<u32>()) {
                (Ok(buy), Ok(free)) => BillaPromotionTag::Bogo(buy, free),
                _ => BillaPromotionTag::Unknown,
            };
            assert_eq!(BillaPromotionTag::extract_bogo(&term), expected, "{:?}", term);
        }
    }
}

#[test]
fn badge_codes_of_a_product_are_read_in_their_places() {
    let codes =
        vec![String::from("gs-bio"), String::from("gs-notyetknown"), String::from("pp-vegan")];
    assert_eq!(
        BillaBadge::from_codes(&codes),
        vec![BillaBadge::BioMark, BillaBadge::Unknown, BillaBadge::VeganProduct]
    );
    assert_eq!(
        BillaBadge::from_codes(&vec![String::from("gs-notyetknown")]),
        vec![BillaBadge::Unknown]
    );
    assert_eq!(BillaBadge::from_codes(&vec![]), vec![]);
}
