use strafe::category::{categories, classify, Category};

#[test]
fn classify_is_total_and_round_trips_every_byte() {
    for b in 0..=255u8 {
        let cat = classify(b);
        assert_eq!(cat.code_of(), b);
    }
}

#[test]
fn known_categories_round_trip_through_their_codes() {
    for cat in categories() {
        assert_eq!(classify(cat.code_of()), cat);
    }
}

#[test]
fn known_codes_classify_to_known_variants() {
    assert_eq!(classify(62), Category::Move);
    assert_eq!(classify(63), Category::Stop);
    assert_eq!(classify(67), Category::Attack);
    assert_eq!(classify(71), Category::AttackMove);
    assert_eq!(classify(66), Category::Capture);
    assert_eq!(classify(65), Category::BuildStructure);
    assert_eq!(classify(68), Category::ReinforceUnit);
    assert_eq!(classify(69), Category::Upgrade);
    assert_eq!(classify(72), Category::Ability);
    assert_eq!(classify(78), Category::Retreat);
    assert_eq!(classify(3), Category::BuildSquad);
    assert_eq!(classify(5), Category::CancelProduction);
}

#[test]
fn unmapped_codes_fall_back_carrying_the_code_verbatim() {
    assert_eq!(classify(0xFE), Category::Unknown(0xFE));
    assert_eq!(classify(0), Category::Unknown(0));
    assert_eq!(classify(0xFE).code_of(), 0xFE);
}

#[test]
fn no_two_known_variants_share_a_code() {
    let cats = categories();
    for (i, a) in cats.iter().enumerate() {
        for (j, b) in cats.iter().enumerate() {
            if i != j {
                assert_ne!(a.code_of(), b.code_of());
            }
        }
    }
}

#[test]
fn enumeration_is_stable_and_excludes_the_fallback() {
    let cats = categories();
    assert_eq!(cats.len(), 12);
    assert_eq!(cats[0], Category::Move);
    assert_eq!(cats[11], Category::CancelProduction);
    for cat in cats {
        assert!(!matches!(cat, Category::Unknown(_)));
    }
}

#[test]
fn names_are_non_empty_text() {
    for cat in categories() {
        assert!(!cat.name_of().is_empty());
    }
    assert_eq!(Category::Move.name_of(), "Move");
    assert_eq!(Category::Unknown(0xFE).name_of(), "Unknown");
    assert_eq!(Category::Move.name_len(), 4);
}
