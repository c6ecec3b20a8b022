//! Census-safe `self who` card.
//!
//! Native session identifiers, controller endpoints, pids, and host paths stay
//! off this face. Environment variables are treated as untrusted census.

use crate::evidence;
use crate::evidence::{format_observed_fact, EvidenceClass, ObservedFact};
use crate::sanitize;
use crate::sanitize::{paste_field, MAX_ID, MAX_TERM};
use vstd::prelude::*;
use vstd::string::*;

verus! {

/// How a matching event can reach a seat, as text.
#[derive(Clone, Debug, PartialEq, Eq)]
pub struct Reachability(pub String);

/// A planned wake action, as text.
#[derive(Clone, Debug, PartialEq, Eq)]
pub struct WakePlan(pub String);

/// Process-visible harness marker. Presence only; no native identifiers.
#[derive(Clone, Copy, Debug, PartialEq, Eq, Structural)]
pub enum HarnessHint {
    /// No recognized harness environment marker.
    Unmarked,
    /// Grok marker present (`GROK_SESSION_ID` or `GROK_AGENT`).
    Grok,
    /// Codex marker present (`CODEX_THREAD_ID` or `CODEX_SESSION_ID`).
    Codex,
    /// `CLAUDECODE` marker present.
    ClaudeCode,
    /// `OPENCODE` or `OPENCODE_PID` marker present.
    OpenCode,
}

/// Which harness markers are set and not empty.
#[derive(Clone, Copy, Debug, PartialEq, Eq, Structural)]
pub struct HarnessMarkers {
    pub grok: bool,
    pub codex: bool,
    pub claude_code: bool,
    pub open_code: bool,
}

/// The first harness whose marker is set, in a fixed order.
pub fn detect_harness_hint(markers: HarnessMarkers) -> (hint: HarnessHint)
    ensures
        hint == if markers.grok {
            HarnessHint::Grok
        } else if markers.codex {
            HarnessHint::Codex
        } else if markers.claude_code {
            HarnessHint::ClaudeCode
        } else if markers.open_code {
            HarnessHint::OpenCode
        } else {
            HarnessHint::Unmarked
        },
{
    if markers.grok {
        HarnessHint::Grok
    } else if markers.codex {
        HarnessHint::Codex
    } else if markers.claude_code {
        HarnessHint::ClaudeCode
    } else if markers.open_code {
        HarnessHint::OpenCode
    } else {
        HarnessHint::Unmarked
    }
}

/// Process-visible hints used to classify a seat. Not identifier material.
#[derive(Clone, Debug, PartialEq, Eq)]
pub struct ProcessCensus {
    /// Operating system.
    pub os: &'static str,
    /// CPU architecture.
    pub arch: &'static str,
    /// `TERM_PROGRAM` when set and non-empty.
    pub term_program: Option<String>,
    /// First matching harness marker.
    pub harness: HarnessHint,
}

/// Field-level census card for the calling process.
#[derive(Clone, Debug, PartialEq, Eq)]
pub struct WhoCard {
    /// Operating system token.
    pub os: ObservedFact<&'static str>,
    /// CPU architecture token.
    pub arch: ObservedFact<&'static str>,
    /// Terminal program name when the host exported one.
    pub term: ObservedFact<String>,
    /// Harness family when an env marker is present.
    pub harness: ObservedFact<&'static str>,
    /// Controller attachment. Unknown unless a host proof exists.
    pub controller_attached: ObservedFact<bool>,
    /// Whether this process currently holds an armed wait.
    pub wait_armed: ObservedFact<bool>,
    /// How a matching event can reach this seat.
    pub reachability: ObservedFact<Reachability>,
    /// Planned wake action, if any.
    pub wake_plan: ObservedFact<WakePlan>,
    /// Local daemon observation for this command.
    pub daemon: ObservedFact<&'static str>,
    /// Durability of this command's own observation path.
    pub durability: &'static str,
}

/// What a fact about a token says.
pub open spec fn token_fact(fact: ObservedFact<&'static str>) -> Option<
    (Seq<char>, EvidenceClass),
> {
    match fact {
        ObservedFact::Known { value, evidence } => Some((value@, evidence)),
        ObservedFact::Unknown => None,
    }
}

/// What a fact about a text says.
pub open spec fn text_fact(fact: ObservedFact<String>) -> Option<(Seq<char>, EvidenceClass)> {
    match fact {
        ObservedFact::Known { value, evidence } => Some((value@, evidence)),
        ObservedFact::Unknown => None,
    }
}

/// What a fact about a yes or no says.
pub open spec fn flag_fact(fact: ObservedFact<bool>) -> Option<(Seq<char>, EvidenceClass)> {
    match fact {
        ObservedFact::Known { value, evidence } => Some(
            (
                if value {
                    "true"@
                } else {
                    "false"@
                },
                evidence,
            ),
        ),
        ObservedFact::Unknown => None,
    }
}

/// What a fact about reachability says.
pub open spec fn reach_fact(fact: ObservedFact<Reachability>) -> Option<
    (Seq<char>, EvidenceClass),
> {
    match fact {
        ObservedFact::Known { value, evidence } => Some((value.0@, evidence)),
        ObservedFact::Unknown => None,
    }
}

/// What a fact about a wake plan says.
pub open spec fn plan_fact(fact: ObservedFact<WakePlan>) -> Option<(Seq<char>, EvidenceClass)> {
    match fact {
        ObservedFact::Known { value, evidence } => Some((value.0@, evidence)),
        ObservedFact::Unknown => None,
    }
}

/// The token of a harness.
pub open spec fn harness_token(hint: HarnessHint) -> Option<Seq<char>> {
    match hint {
        HarnessHint::Grok => Some("grok"@),
        HarnessHint::Codex => Some("codex"@),
        HarnessHint::ClaudeCode => Some("claudecode"@),
        HarnessHint::OpenCode => Some("opencode"@),
        HarnessHint::Unmarked => None,
    }
}

/// A fact that the census inferred.
pub open spec fn inferred(token: Option<Seq<char>>) -> Option<(Seq<char>, EvidenceClass)> {
    match token {
        Some(token) => Some((token, EvidenceClass::CensusInferred)),
        None => None,
    }
}

fn classify_harness(hint: HarnessHint) -> (fact: ObservedFact<&'static str>)
    ensures
        token_fact(fact) == inferred(harness_token(hint)),
{
    match hint {
        HarnessHint::Grok => ObservedFact::known("grok", EvidenceClass::CensusInferred),
        HarnessHint::Codex => ObservedFact::known("codex", EvidenceClass::CensusInferred),
        HarnessHint::ClaudeCode => {
            ObservedFact::known("claudecode", EvidenceClass::CensusInferred)
        },
        HarnessHint::OpenCode => ObservedFact::known("opencode", EvidenceClass::CensusInferred),
        HarnessHint::Unmarked => ObservedFact::unknown(),
    }
}

impl WhoCard {
    /// Build a card from process census. Does not claim wait or controller state.
    pub fn from_census(census: &ProcessCensus) -> (card: WhoCard)
        ensures
            token_fact(card.os) == Some((census.os@, EvidenceClass::SelfDeclared)),
            token_fact(card.arch) == Some((census.arch@, EvidenceClass::SelfDeclared)),
            text_fact(card.term) == inferred(
                match census.term_program {
                    Some(term) => Some(term@),
                    None => None,
                },
            ),
            token_fact(card.harness) == inferred(harness_token(census.harness)),
            card.controller_attached is Unknown,
            card.wait_armed is Unknown,
            card.reachability is Unknown,
            card.wake_plan is Unknown,
            card.daemon is Unknown,
            card.durability@ == "in_process"@,
    {
        WhoCard {
            os: ObservedFact::known(census.os, EvidenceClass::SelfDeclared),
            arch: ObservedFact::known(census.arch, EvidenceClass::SelfDeclared),
            term: match &census.term_program {
                Some(term) => ObservedFact::known(term.clone(), EvidenceClass::CensusInferred),
                None => ObservedFact::unknown(),
            },
            harness: classify_harness(census.harness),
            controller_attached: ObservedFact::unknown(),
            wait_armed: ObservedFact::unknown(),
            reachability: ObservedFact::unknown(),
            wake_plan: ObservedFact::unknown(),
            daemon: ObservedFact::unknown(),
            durability: "in_process",
        }
    }

    /// The lines of the card, without their line ends.
    pub open spec fn lines(self) -> Seq<Seq<char>> {
        seq![
            "gearwit self who"@,
            "os: "@ + shown(token_fact(self.os), MAX_ID),
            "arch: "@ + shown(token_fact(self.arch), MAX_ID),
            "term: "@ + shown(text_fact(self.term), MAX_TERM),
            "harness: "@ + shown(token_fact(self.harness), MAX_ID),
            "controller_attached: "@ + evidence::fact_text(flag_fact(self.controller_attached)),
            "wait_armed: "@ + evidence::fact_text(flag_fact(self.wait_armed)),
            "reachability: "@ + shown(reach_fact(self.reachability), MAX_ID),
            "wake_plan: "@ + shown(plan_fact(self.wake_plan), MAX_ID),
            "daemon: "@ + shown(token_fact(self.daemon), MAX_ID),
            "durability: "@ + sanitize::pasted(self.durability@, MAX_ID),
        ]
    }

    /// The card as text.
    pub open spec fn text(self) -> Seq<char> {
        ended(self.lines())
    }

    /// Render a paste-safe text card. Not a public wire protocol.
    pub fn render(&self) -> (text: String)
        ensures
            text@ == self.text(),
    {
        let ghost lines = self.lines();
        let mut text = String::new();
        assert(text@ =~= ended(lines.take(0)));
        proof {
            reveal_strlit("");
            assert("gearwit self who"@ + ""@ =~= lines[0]);
        }
        push_line(&mut text, "gearwit self who", "", Ghost(lines), Ghost(0));
        push_line(&mut text, "os: ", show_token(&self.os).as_str(), Ghost(lines), Ghost(1));
        push_line(&mut text, "arch: ", show_token(&self.arch).as_str(), Ghost(lines), Ghost(2));
        let term = match &self.term {
            ObservedFact::Known { value, evidence } => Some((value.as_str(), *evidence)),
            ObservedFact::Unknown => None,
        };
        push_line(&mut text, "term: ", show(term, MAX_TERM).as_str(), Ghost(lines), Ghost(3));
        let harness = show_token(&self.harness);
        push_line(&mut text, "harness: ", harness.as_str(), Ghost(lines), Ghost(4));
        push_line(
            &mut text,
            "controller_attached: ",
            show_flag(&self.controller_attached).as_str(),
            Ghost(lines),
            Ghost(5),
        );
        push_line(
            &mut text,
            "wait_armed: ",
            show_flag(&self.wait_armed).as_str(),
            Ghost(lines),
            Ghost(6),
        );
        let reach = match &self.reachability {
            ObservedFact::Known { value, evidence } => Some((value.0.as_str(), *evidence)),
            ObservedFact::Unknown => None,
        };
        let reach = show(reach, MAX_ID);
        push_line(&mut text, "reachability: ", reach.as_str(), Ghost(lines), Ghost(7));
        let plan = match &self.wake_plan {
            ObservedFact::Known { value, evidence } => Some((value.0.as_str(), *evidence)),
            ObservedFact::Unknown => None,
        };
        push_line(&mut text, "wake_plan: ", show(plan, MAX_ID).as_str(), Ghost(lines), Ghost(8));
        push_line(&mut text, "daemon: ", show_token(&self.daemon).as_str(), Ghost(lines), Ghost(9));
        push_line(
            &mut text,
            "durability: ",
            paste_field(self.durability, MAX_ID).as_str(),
            Ghost(lines),
            Ghost(10),
        );
        assert(lines.take(11) =~= lines);
        text
    }
}

/// Lines one after the other, each with its line end.
pub open spec fn ended(lines: Seq<Seq<char>>) -> Seq<char>
    decreases lines.len(),
{
    if lines.len() == 0 {
        Seq::empty()
    } else {
        ended(lines.drop_last()) + lines.last() + "\n"@
    }
}

/// How a fact is shown on a paste-safe face.
pub open spec fn shown(fact: Option<(Seq<char>, EvidenceClass)>, max: usize) -> Seq<char> {
    evidence::fact_text(
        match fact {
            Some((value, evidence)) => Some((sanitize::pasted(value, max), evidence)),
            None => None,
        },
    )
}

fn push_line(
    text: &mut String,
    label: &str,
    value: &str,
    Ghost(lines): Ghost<Seq<Seq<char>>>,
    Ghost(at): Ghost<int>,
)
    requires
        0 <= at < lines.len(),
        old(text)@ == ended(lines.take(at)),
        lines[at] == label@ + value@,
    ensures
        final(text)@ == ended(lines.take(at + 1)),
{
    text.append(label);
    text.append(value);
    text.append("\n");
    proof {
        assert(lines.take(at + 1).drop_last() =~= lines.take(at));
        assert(lines.take(at + 1).last() == lines[at]);
        assert(text@ =~= ended(lines.take(at)) + lines[at] + "\n"@);
    }
}

fn show(fact: Option<(&str, EvidenceClass)>, max: usize) -> (text: String)
    ensures
        text@ == shown(
            match fact {
                Some((value, evidence)) => Some((value@, evidence)),
                None => None,
            },
            max,
        ),
{
    match fact {
        Some((value, evidence)) => format_observed_fact(
            Some((paste_field(value, max).as_str(), evidence)),
        ),
        None => format_observed_fact(None),
    }
}

fn show_token(fact: &ObservedFact<&'static str>) -> (text: String)
    ensures
        text@ == shown(token_fact(*fact), MAX_ID),
{
    match fact {
        ObservedFact::Known { value, evidence } => show(Some((*value, *evidence)), MAX_ID),
        ObservedFact::Unknown => show(None, MAX_ID),
    }
}

fn show_flag(fact: &ObservedFact<bool>) -> (text: String)
    ensures
        text@ == evidence::fact_text(flag_fact(*fact)),
{
    match fact {
        ObservedFact::Known { value, evidence } => {
            let word = if *value {
                "true"
            } else {
                "false"
            };
            format_observed_fact(Some((word, *evidence)))
        },
        ObservedFact::Unknown => format_observed_fact(None),
    }
}

/// A text without control characters.
pub open spec fn plain(text: Seq<char>) -> bool {
    forall|i: int| 0 <= i < text.len() ==> !sanitize::control(#[trigger] text[i])
}

proof fn fact_is_plain(fact: Option<(Seq<char>, EvidenceClass)>)
    requires
        fact matches Some((value, _)) ==> plain(value),
    ensures
        plain(evidence::fact_text(fact)),
{
    reveal_strlit("  (");
    reveal_strlit(")");
    reveal_strlit("unknown");
    reveal_strlit("controller_proven");
    reveal_strlit("self_declared");
    reveal_strlit("census_inferred");
}

proof fn shown_is_plain(fact: Option<(Seq<char>, EvidenceClass)>, max: usize)
    ensures
        plain(shown(fact, max)),
{
    if let Some((value, evidence)) = fact {
        assert forall|i: int| 0 <= i < sanitize::pasted(value, max).len() implies
            !sanitize::control(#[trigger] sanitize::pasted(value, max)[i]) by {
            sanitize::pasted_field_stays_on_its_line(value, max, i);
        }
        fact_is_plain(Some((sanitize::pasted(value, max), evidence)));
    } else {
        fact_is_plain(None);
    }
}

/// The card is paste-safe: whatever it is given, it has its eleven lines, no
/// line holds a control character, and only one says whether a wait is armed.
pub proof fn card_is_paste_safe(card: WhoCard, at: int)
    requires
        0 <= at < card.lines().len(),
    ensures
        card.lines().len() == 11,
        card.text() == ended(card.lines()),
        plain(card.lines()[at]),
        "wait_armed:"@.is_prefix_of(card.lines()[at]) <==> at == 6,
{
    reveal_strlit("gearwit self who");
    reveal_strlit("os: ");
    reveal_strlit("arch: ");
    reveal_strlit("term: ");
    reveal_strlit("harness: ");
    reveal_strlit("controller_attached: ");
    reveal_strlit("wait_armed: ");
    reveal_strlit("reachability: ");
    reveal_strlit("wake_plan: ");
    reveal_strlit("daemon: ");
    reveal_strlit("durability: ");
    reveal_strlit("wait_armed:");
    reveal_strlit("true");
    reveal_strlit("false");
    shown_is_plain(token_fact(card.os), MAX_ID);
    shown_is_plain(token_fact(card.arch), MAX_ID);
    shown_is_plain(text_fact(card.term), MAX_TERM);
    shown_is_plain(token_fact(card.harness), MAX_ID);
    fact_is_plain(flag_fact(card.controller_attached));
    fact_is_plain(flag_fact(card.wait_armed));
    shown_is_plain(reach_fact(card.reachability), MAX_ID);
    shown_is_plain(plan_fact(card.wake_plan), MAX_ID);
    shown_is_plain(token_fact(card.daemon), MAX_ID);
    let durability = sanitize::pasted(card.durability@, MAX_ID);
    assert forall|i: int| 0 <= i < durability.len() implies !sanitize::control(
        #[trigger] durability[i],
    ) by {
        sanitize::pasted_field_stays_on_its_line(card.durability@, MAX_ID, i);
    }
    let label = "wait_armed:"@;
    let line = card.lines()[at];
    assert(label[0] == 'w' && label[2] == 'i');
    if label.is_prefix_of(line) {
        assert(line.take(11)[0] == line[0] && line.take(11)[2] == line[2]);
        assert(line[0] == 'w' && line[2] == 'i');
    }
    if at == 6 {
        assert(line.take(11) =~= label);
    }
}

} // verus!
