use pico_proof_marketplace::text::{push_decimal, push_two_digits, same_text};
use pico_proof_marketplace::{ExportFormat, MarketError, Ratio};

#[test]
fn ratio_compares_as_a_fraction() {
    let third = Ratio::of(1, 3);
    let half = Ratio::of(1, 2);
    let two_quarters = Ratio::of(2, 4);
    assert!(third.is_less_than(&half));
    assert!(!half.is_less_than(&third));
    assert!(!half.is_less_than(&two_quarters));
    assert!(half.has_same_value(&two_quarters));
    assert!(!half.has_same_value(&third));
    assert!(half.is_at_least(&two_quarters));
    assert!(half.is_at_least(&third));
    assert!(!third.is_at_least(&half));
    assert_ne!(half, two_quarters);
}

#[test]
fn ratio_without_denominator_is_zero() {
    let nothing = Ratio::of(7, 0);
    assert!(nothing.has_same_value(&Ratio::zero()));
    assert!(nothing.has_same_value(&Ratio::of(0, 5)));
    assert!(nothing.is_less_than(&Ratio::of(1, u64::MAX)));
    assert!(!Ratio::of(1, u64::MAX).is_less_than(&nothing));
    assert_eq!(nothing.to_percent_hundredths(), 0);
    assert_eq!(Ratio::zero(), Ratio { numerator: 0, denominator: 1 });
}

#[test]
fn ratio_comparison_does_not_overflow() {
    let big = Ratio::of(u64::MAX, u64::MAX);
    let almost = Ratio::of(u64::MAX - 1, u64::MAX);
    assert!(almost.is_less_than(&big));
    assert!(big.has_same_value(&Ratio::of(1, 1)));
    assert!(Ratio::of(u64::MAX, 1).is_at_least(&big));
}

#[test]
fn ratio_percentage_is_rounded_to_hundredths() {
    assert_eq!(Ratio::of(1, 3).to_percent_hundredths(), 3333);
    assert_eq!(Ratio::of(2, 3).to_percent_hundredths(), 6667);
    assert_eq!(Ratio::of(1, 1).to_percent_hundredths(), 10000);
    assert_eq!(Ratio::of(1244, 1250).to_percent_hundredths(), 9952);
    assert_eq!(Ratio::of(1, 20000).to_percent_hundredths(), 1);
    assert_eq!(Ratio::of(1, 20001).to_percent_hundredths(), 0);
    assert_eq!(Ratio::of(u64::MAX, 1).to_percent_hundredths(), 10000 * (u64::MAX as u128));
}

#[test]
fn decimal_text_of_numbers() {
    let mut out = String::from("n=");
    push_decimal(&mut out, 0);
    out.push(',');
    push_decimal(&mut out, 7);
    out.push(',');
    push_decimal(&mut out, 1203);
    out.push(',');
    push_decimal(&mut out, u128::MAX);
    assert_eq!(out, format!("n=0,7,1203,{}", u128::MAX));
    let mut two = String::new();
    push_two_digits(&mut two, 0);
    push_two_digits(&mut two, 5);
    push_two_digits(&mut two, 42);
    push_two_digits(&mut two, 123);
    assert_eq!(two, "000542123");
}

#[test]
fn same_text_compares_contents() {
    assert!(same_text("", ""));
    assert!(same_text("koalabear", "koalabear"));
    assert!(!same_text("koalabear", "koalabeer"));
    assert!(!same_text("koalabear", "koalabea"));
    assert!(!same_text("a", ""));
    assert!(same_text("prüfer ✓", "prüfer ✓"));
    assert!(!same_text("prüfer", "prufer"));
}

#[test]
fn export_formats_are_named() {
    assert_eq!(ExportFormat::parse("json"), Some(ExportFormat::Json));
    assert_eq!(ExportFormat::parse("csv"), Some(ExportFormat::Csv));
    assert_eq!(ExportFormat::parse("xml"), None);
    assert_eq!(ExportFormat::parse("JSON"), None);
    assert_eq!(ExportFormat::parse(""), None);
}

#[test]
fn errors_are_keyed_by_their_category() {
    let all = [
        (MarketError::InvalidDeadline, "InvalidDeadline"),
        (MarketError::EmptyInput, "EmptyInput"),
        (MarketError::NoEligibleProver, "NoEligibleProver"),
        (MarketError::EmptyProof, "EmptyProof"),
        (MarketError::NoBackends, "NoBackends"),
        (MarketError::EstimateTooLong, "EstimateTooLong"),
        (MarketError::NotFound, "NotFound"),
        (MarketError::RequestClosed, "RequestClosed"),
        (MarketError::RequestNotInProgress, "RequestNotInProgress"),
        (MarketError::InvalidState, "InvalidState"),
        (MarketError::Unauthorized, "Unauthorized"),
        (MarketError::AlreadyRegistered, "AlreadyRegistered"),
    ];
    for (error, name) in all {
        assert_eq!(error.as_str(), name);
        assert_eq!(error.message(), name);
    }
}
