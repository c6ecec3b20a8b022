//! Facts with the evidence that supports them.

use vstd::prelude::*;
use vstd::string::*;

verus! {

/// The evidence supporting a known observation.
///
/// This is a classification, not a numeric confidence score. Callers must not
/// promote one field because another field on the same seat has stronger
/// evidence.
#[derive(Clone, Copy, Debug, Hash, PartialEq, Eq, Structural)]
pub enum EvidenceClass {
    /// A live controller binding and lease prove the observation.
    ControllerProven,
    /// The seat explicitly declared the observation.
    SelfDeclared,
    /// Host census or another indirect source inferred the observation.
    CensusInferred,
}

impl EvidenceClass {
    /// The stable token.
    pub open spec fn token(self) -> Seq<char> {
        match self {
            EvidenceClass::ControllerProven => "controller_proven"@,
            EvidenceClass::SelfDeclared => "self_declared"@,
            EvidenceClass::CensusInferred => "census_inferred"@,
        }
    }

    /// Stable token for local faces.
    pub fn as_str(self) -> (token: &'static str)
        ensures
            token@ == self.token(),
    {
        match self {
            EvidenceClass::ControllerProven => "controller_proven",
            EvidenceClass::SelfDeclared => "self_declared",
            EvidenceClass::CensusInferred => "census_inferred",
        }
    }
}

/// A fact that is either known with field-level evidence or explicitly
/// unknown.
#[derive(Clone, Debug, Hash, PartialEq, Eq)]
pub enum ObservedFact<T> {
    /// The value and the evidence supporting this specific field.
    Known {
        /// Observed value.
        value: T,
        /// Evidence for this value.
        evidence: EvidenceClass,
    },
    /// No value is currently supportable.
    Unknown,
}

impl<T> ObservedFact<T> {
    /// Construct a known fact with its field-level evidence.
    pub fn known(value: T, evidence: EvidenceClass) -> (fact: ObservedFact<T>)
        ensures
            fact == (ObservedFact::Known { value, evidence }),
    {
        ObservedFact::Known { value, evidence }
    }

    /// Construct an explicitly unknown fact.
    pub fn unknown() -> (fact: ObservedFact<T>)
        ensures
            fact == ObservedFact::<T>::Unknown,
    {
        ObservedFact::Unknown
    }

    /// Borrow a known value without discarding its evidence.
    pub fn as_known(&self) -> (known: Option<(&T, EvidenceClass)>)
        ensures
            match known {
                Some((value, evidence)) => *self == (ObservedFact::Known {
                    value: *value,
                    evidence,
                }),
                None => *self is Unknown,
            },
    {
        match self {
            ObservedFact::Known { value, evidence } => Some((value, *evidence)),
            ObservedFact::Unknown => None,
        }
    }

    /// Report whether this fact is explicitly unknown.
    pub fn is_unknown(&self) -> (unknown: bool)
        ensures
            unknown == (*self is Unknown),
    {
        matches!(self, ObservedFact::Unknown)
    }
}

/// How a fact is shown: its value and evidence, or that it is unknown.
pub open spec fn fact_text(value: Option<(Seq<char>, EvidenceClass)>) -> Seq<char> {
    match value {
        Some((value, evidence)) => value + "  ("@ + evidence.token() + ")"@,
        None => "unknown"@,
    }
}

/// Shows a fact whose value has the given text.
pub fn format_observed_fact(value: Option<(&str, EvidenceClass)>) -> (text: String)
    ensures
        text@ == fact_text(
            match value {
                Some((value, evidence)) => Some((value@, evidence)),
                None => None,
            },
        ),
{
    match value {
        Some((value, evidence)) => {
            let mut text = value.to_owned();
            text.append("  (");
            text.append(evidence.as_str());
            text.append(")");
            text
        },
        None => "unknown".to_owned(),
    }
}

} // verus!
