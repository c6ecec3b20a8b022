//! Facts with field-level evidence.

use gearwit::evidence::{EvidenceClass, ObservedFact};

#[test]
fn known_fact_preserves_field_level_evidence() {
    let fact = ObservedFact::known("held", EvidenceClass::SelfDeclared);

    assert_eq!(
        fact.as_known(),
        Some((&"held", EvidenceClass::SelfDeclared))
    );
    assert!(!fact.is_unknown());
}

#[test]
fn unknown_fact_cannot_carry_a_value() {
    let fact = ObservedFact::<&str>::unknown();

    assert_eq!(fact.as_known(), None);
    assert!(fact.is_unknown());
}
