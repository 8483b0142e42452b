use meso::error::DecodeError;
use meso::hazard::{HazardKind, RiskCategory, RiskValue};
use meso::risk_codec::{Feature, FeatureCollection, RiskCodec};

fn payload(codes: &[i32]) -> FeatureCollection {
    FeatureCollection { features: Some(codes.iter().map(|dn| Feature { dn: Some(*dn) }).collect()) }
}

#[test]
fn categorical_codes_decode_to_ordered_categories() {
    let expected = [
        (2, RiskCategory::Thunderstorms, "THUNDERSTORMS"),
        (3, RiskCategory::Marginal, "MARGINAL"),
        (4, RiskCategory::Slight, "SLIGHT"),
        (5, RiskCategory::Enhanced, "ENHANCED"),
        (6, RiskCategory::Moderate, "MODERATE"),
        (7, RiskCategory::High, "HIGH"),
    ];
    for (dn, category, label) in expected {
        let risk = RiskCodec::decode(&payload(&[dn]), HazardKind::Categorical);
        assert_eq!(risk, Ok(RiskValue::Categorical(category)));
        assert_eq!(category.code(), dn);
        assert_eq!(category.label(), label);
        assert_eq!(RiskCategory::from_code(dn), Some(category));
    }
}

#[test]
fn categories_are_ordered_by_code() {
    assert!(RiskCategory::High.at_least(&RiskCategory::Moderate));
    assert!(RiskCategory::Slight.at_least(&RiskCategory::Slight));
    assert!(!RiskCategory::Thunderstorms.at_least(&RiskCategory::Marginal));
}

#[test]
fn no_feature_is_zero_percent_for_probabilistic_kinds() {
    for kind in [HazardKind::Tornado, HazardKind::Wind, HazardKind::Hail] {
        assert_eq!(RiskCodec::decode(&payload(&[]), kind), Ok(RiskValue::Percentage(0)));
    }
}

#[test]
fn no_feature_is_no_category_for_categorical_kind() {
    assert_eq!(RiskCodec::decode(&payload(&[]), HazardKind::Categorical), Ok(RiskValue::NoRisk));
}

#[test]
fn unknown_categorical_code_is_rejected() {
    assert_eq!(
        RiskCodec::decode(&payload(&[99]), HazardKind::Categorical),
        Err(DecodeError::UnknownCategory(99))
    );
    for dn in [0, 1, 8, -3, i32::MAX, i32::MIN] {
        assert_eq!(
            RiskCodec::decode(&payload(&[dn]), HazardKind::Categorical),
            Err(DecodeError::UnknownCategory(dn))
        );
        assert_eq!(RiskCategory::from_code(dn), None);
    }
}

#[test]
fn first_feature_wins() {
    assert_eq!(RiskCodec::decode(&payload(&[15, 30]), HazardKind::Tornado), Ok(RiskValue::Percentage(15)));
    assert_eq!(
        RiskCodec::decode(&payload(&[4, 99]), HazardKind::Categorical),
        Ok(RiskValue::Categorical(RiskCategory::Slight))
    );
    assert_eq!(
        RiskCodec::decode(&payload(&[99, 4]), HazardKind::Categorical),
        Err(DecodeError::UnknownCategory(99))
    );
}

#[test]
fn percentage_out_of_range_passes_through() {
    assert_eq!(RiskCodec::decode(&payload(&[-5]), HazardKind::Wind), Ok(RiskValue::Percentage(-5)));
    assert_eq!(RiskCodec::decode(&payload(&[250]), HazardKind::Hail), Ok(RiskValue::Percentage(250)));
    assert_eq!(RiskCodec::decode(&payload(&[100]), HazardKind::Tornado), Ok(RiskValue::Percentage(100)));
}

#[test]
fn probabilistic_kinds_never_give_a_category() {
    for kind in [HazardKind::Tornado, HazardKind::Wind, HazardKind::Hail] {
        for dn in 0..10 {
            assert_eq!(RiskCodec::decode(&payload(&[dn]), kind), Ok(RiskValue::Percentage(dn)));
        }
    }
}

#[test]
fn missing_features_is_malformed() {
    let envelope = FeatureCollection { features: None };
    for kind in HazardKind::all() {
        assert_eq!(RiskCodec::decode(&envelope, kind), Err(DecodeError::Malformed));
    }
}

#[test]
fn feature_without_integer_code_is_malformed() {
    let first = FeatureCollection { features: Some(vec![Feature { dn: None }]) };
    let later = FeatureCollection { features: Some(vec![Feature { dn: Some(4) }, Feature { dn: None }]) };
    for kind in HazardKind::all() {
        assert_eq!(RiskCodec::decode(&first, kind), Err(DecodeError::Malformed));
        assert_eq!(RiskCodec::decode(&later, kind), Err(DecodeError::Malformed));
    }
}

#[test]
fn hazard_kinds_have_fixed_layers_and_labels() {
    let expected = [
        (HazardKind::Categorical, 1, "1", "categorical"),
        (HazardKind::Tornado, 3, "3", "tornado"),
        (HazardKind::Wind, 5, "5", "wind"),
        (HazardKind::Hail, 7, "7", "hail"),
    ];
    for (kind, layer, text, label) in expected {
        assert_eq!(kind.layer_id(), layer);
        assert_eq!(kind.layer_text(), text);
        assert_eq!(kind.layer_id().to_string(), kind.layer_text());
        assert_eq!(kind.label(), label);
    }
    assert_eq!(
        HazardKind::all(),
        [HazardKind::Categorical, HazardKind::Tornado, HazardKind::Wind, HazardKind::Hail]
    );
}
