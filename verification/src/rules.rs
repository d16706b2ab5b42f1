//! Detector rules: what each one looks for, how serious a match is, and the
//! catalog key under which its message is kept.

use crate::catalog::Catalog;
use crate::pattern::{regex_is_match, Pattern};
use crate::text::{
    all_occur_in, any_occurs_in, contains, contains_all, contains_any, literal_views, occurs_in,
};
use vstd::prelude::*;

verus! {

/// How serious a recognised condition is.
#[derive(Clone, Copy, Debug, PartialEq, Eq, Structural)]
pub enum Severity {
    /// The more urgent of the two markers.
    High,
    /// The less urgent of the two markers.
    Medium,
}

/// What a rule searches the text for.
#[derive(Debug)]
pub enum Trigger {
    /// One literal that must occur.
    Literal(&'static str),
    /// Several literals, one of which must occur.
    AnyOf(Vec<&'static str>),
    /// Several literals, each of which must occur, anywhere and in any order.
    AllOf(Vec<&'static str>),
    /// A compiled pattern that must find a match.
    Pattern(Pattern),
}

/// The mathematical content of a [`Trigger`].
pub enum TriggerView {
    Literal(Seq<char>),
    AnyOf(Seq<Seq<char>>),
    AllOf(Seq<Seq<char>>),
    Pattern(Seq<char>),
}

impl View for Trigger {
    type V = TriggerView;

    open spec fn view(&self) -> TriggerView {
        match self {
            Trigger::Literal(literal) => TriggerView::Literal(literal@),
            Trigger::AnyOf(literals) => TriggerView::AnyOf(literal_views(literals@)),
            Trigger::AllOf(literals) => TriggerView::AllOf(literal_views(literals@)),
            Trigger::Pattern(pattern) => TriggerView::Pattern(pattern@),
        }
    }
}

impl TriggerView {
    /// Whether the trigger is present in `text`. Matching is case-sensitive
    /// and looks at the text as a whole.
    pub open spec fn fires(self, text: Seq<char>) -> bool {
        match self {
            TriggerView::Literal(literal) => occurs_in(literal, text),
            TriggerView::AnyOf(literals) => any_occurs_in(literals, text),
            TriggerView::AllOf(literals) => all_occur_in(literals, text),
            TriggerView::Pattern(pattern) => regex_is_match(pattern, text),
        }
    }
}

impl Trigger {
    /// Searches `text` for the trigger.
    pub fn fires(&self, text: &str) -> (fired: bool)
        ensures
            fired == self@.fires(text@),
    {
        match self {
            Trigger::Literal(literal) => contains(text, literal),
            Trigger::AnyOf(literals) => contains_any(text, literals.as_slice()),
            Trigger::AllOf(literals) => contains_all(text, literals.as_slice()),
            Trigger::Pattern(pattern) => pattern.is_match(text),
        }
    }
}

/// What a rule reports, as a value of the model: a severity and a catalog key.
pub open spec fn hit_view(hit: Option<(Severity, &str)>) -> Option<(Severity, Seq<char>)> {
    match hit {
        Some((severity, key)) => Some((severity, key@)),
        None => None,
    }
}

/// A finding as a value of the model: a severity and a message.
pub open spec fn finding_view(finding: (Severity, String)) -> (Severity, Seq<char>) {
    (finding.0, finding.1@)
}

/// An optional finding as a value of the model.
pub open spec fn outcome_view(outcome: Option<(Severity, String)>) -> Option<
    (Severity, Seq<char>),
> {
    match outcome {
        Some(finding) => Some(finding_view(finding)),
        None => None,
    }
}

/// What becomes of a rule's report once its key is looked up in `catalog`: the
/// severity with the catalog's message, or nothing where the rule reported
/// nothing or the catalog has no entry for the key.
pub open spec fn resolution(
    catalog: Map<Seq<char>, Seq<char>>,
    hit: Option<(Severity, Seq<char>)>,
) -> Option<(Severity, Seq<char>)> {
    match hit {
        Some((severity, key)) => if catalog.contains_key(key) {
            Some((severity, catalog[key]))
        } else {
            None
        },
        None => None,
    }
}

/// Resolves what a rule reported into a finding. A rule that reported nothing
/// yields nothing, and so does one whose key the catalog lacks: such a rule
/// stays silent rather than yield a finding without its message.
pub fn resolve(catalog: &Catalog, hit: Option<(Severity, &str)>) -> (outcome: Option<
    (Severity, String),
>)
    ensures
        outcome_view(outcome) == resolution(catalog@, hit_view(hit)),
{
    match hit {
        Some((severity, key)) => match catalog.lookup(key) {
            Some(message) => Some((severity, message.to_owned())),
            None => None,
        },
        None => None,
    }
}

/// A detector rule: a trigger, the severity of a match, and the key of the
/// catalog entry that explains it.
#[derive(Debug)]
pub struct Rule {
    trigger: Trigger,
    severity: Severity,
    key: &'static str,
}

/// The mathematical content of a [`Rule`].
pub struct RuleView {
    pub trigger: TriggerView,
    pub severity: Severity,
    pub key: Seq<char>,
}

impl RuleView {
    /// What the rule reports once it is known whether its trigger was found.
    pub open spec fn report(self, fired: bool) -> Option<(Severity, Seq<char>)> {
        if fired {
            Some((self.severity, self.key))
        } else {
            None
        }
    }

    /// What the rule reports on `text`: its severity and catalog key where
    /// the trigger is present, nothing where it is not. A rule reports at
    /// most once, however often its trigger occurs.
    pub open spec fn hit(self, text: Seq<char>) -> Option<(Severity, Seq<char>)> {
        self.report(self.trigger.fires(text))
    }

    /// The finding that the rule contributes on `text` when its key is
    /// resolved through `catalog`, if any.
    pub open spec fn outcome(self, catalog: Map<Seq<char>, Seq<char>>, text: Seq<char>) -> Option<
        (Severity, Seq<char>),
    > {
        resolution(catalog, self.hit(text))
    }
}

impl View for Rule {
    type V = RuleView;

    closed spec fn view(&self) -> RuleView {
        RuleView { trigger: self.trigger@, severity: self.severity, key: self.key@ }
    }
}

impl Rule {
    /// The rule that looks for `trigger` and reports `severity` under `key`.
    pub(crate) fn new(trigger: Trigger, severity: Severity, key: &'static str) -> (rule: Rule)
        ensures
            rule@ == (RuleView { trigger: trigger@, severity, key: key@ }),
    {
        Rule { trigger, severity, key }
    }

    /// What the rule reports once it is known whether its trigger was found:
    /// its severity and catalog key if it was, nothing if it was not.
    pub fn report(&self, fired: bool) -> (hit: Option<(Severity, &'static str)>)
        ensures
            hit_view(hit) == self@.report(fired),
    {
        if fired {
            Some((self.severity, self.key))
        } else {
            None
        }
    }

    /// Runs the rule on `text`. The answer depends on the text alone.
    pub fn evaluate(&self, text: &str) -> (hit: Option<(Severity, &'static str)>)
        ensures
            hit_view(hit) == self@.hit(text@),
    {
        self.report(self.trigger.fires(text))
    }

    /// Runs the rule on `text` and resolves its key through `catalog`.
    pub fn respond(&self, catalog: &Catalog, text: &str) -> (outcome: Option<(Severity, String)>)
        ensures
            outcome_view(outcome) == self@.outcome(catalog@, text@),
    {
        resolve(catalog, self.evaluate(text))
    }
}

} // verus!
