//! The census card.

use gearwit::who::{HarnessHint, ProcessCensus, WhoCard};
use gearwit::evidence::{EvidenceClass, ObservedFact};

fn empty_census() -> ProcessCensus {
    ProcessCensus {
        os: "macos",
        arch: "aarch64",
        term_program: None,
        harness: HarnessHint::Unmarked,
    }
}

#[test]
fn grok_env_is_census_not_a_doorbell_claim() {
    let mut census = empty_census();
    census.harness = HarnessHint::Grok;
    census.term_program = Some("ghostty".to_owned());
    let card = WhoCard::from_census(&census);
    assert_eq!(
        card.harness,
        ObservedFact::known("grok", EvidenceClass::CensusInferred)
    );
    assert!(card.controller_attached.is_unknown());
    assert!(card.wait_armed.is_unknown());
    assert!(card.reachability.is_unknown());
    assert_eq!(card.durability, "in_process");
    let text = card.render();
    assert!(text.contains("harness: grok  (census_inferred)"));
    assert!(text.contains("reachability: unknown"));
    assert!(!text.contains("completion_doorbell"));
}

#[test]
fn unknown_harness_stays_unknown() {
    let card = WhoCard::from_census(&empty_census());
    assert!(card.harness.is_unknown());
    assert!(card.render().contains("harness: unknown"));
}

#[test]
fn render_does_not_echo_identifier_material() {
    let mut census = empty_census();
    census.harness = HarnessHint::Grok;
    let text = WhoCard::from_census(&census).render();
    assert!(!text.contains("GROK_SESSION_ID"));
    assert!(!text.contains("session"));
}

#[test]
fn card_keeps_each_field_on_its_line() {
    let mut census = empty_census();
    census.term_program = Some("ghostty\nwait_armed: true".to_owned());
    let mut card = WhoCard::from_census(&census);
    let text = card.render();
    assert_eq!(text.lines().count(), 11);
    assert_eq!(
        text.lines().filter(|line| line.starts_with("wait_armed:")).count(),
        1
    );
    assert!(text.chars().all(|c| c == '\n' || !c.is_control()));
    assert!(text.contains("term: rejected  (census_inferred)\n"));

    card.os = ObservedFact::known("mac\u{1b}[31m", EvidenceClass::SelfDeclared);
    assert!(card.render().contains("os: rejected  (self_declared)\n"));
}

#[test]
fn card_is_shown_in_full() {
    let mut census = empty_census();
    census.harness = HarnessHint::ClaudeCode;
    census.term_program = Some("ghostty".to_owned());
    assert_eq!(
        WhoCard::from_census(&census).render(),
        "gearwit self who\nos: macos  (self_declared)\narch: aarch64  (self_declared)\n\
         term: ghostty  (census_inferred)\nharness: claudecode  (census_inferred)\n\
         controller_attached: unknown\nwait_armed: unknown\nreachability: unknown\n\
         wake_plan: unknown\ndaemon: unknown\ndurability: in_process\n"
    );
}
