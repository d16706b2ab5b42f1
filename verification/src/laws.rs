//! What holds of every evaluation, stated over the model and proved.

use crate::engine::{evaluation, finding_views};
use crate::rules::{finding_view, RuleView, Severity, TriggerView};
use crate::signatures::{
    spec_fabric_api_missing, spec_one_seventeen_plus_java_too_old,
    spec_pixel_format_not_accelerated_win10, standard_rules, FABRIC_WANTS_JAVA_16,
    FABRIC_WANTS_JAVA_17, PIXEL_FORMAT_NOT_ACCELERATED, REQUIRED_MOD_NOT_FOUND, REQUIRES_FABRIC,
    UNSUPPORTED_CLASS_VERSION, WINDOWS_10,
};
use crate::text::{occurs_at, occurs_in};
use vstd::prelude::*;

verus! {

/// The positions in `rules` of the rules that contribute a finding on `text`,
/// in increasing order.
pub open spec fn contributors(
    rules: Seq<RuleView>,
    catalog: Map<Seq<char>, Seq<char>>,
    text: Seq<char>,
) -> Seq<int>
    decreases rules.len(),
{
    if rules.len() == 0 {
        Seq::empty()
    } else {
        let earlier = contributors(rules.drop_last(), catalog, text);
        if rules.last().outcome(catalog, text) is Some {
            earlier.push(rules.len() - 1)
        } else {
            earlier
        }
    }
}

/// A conjunction is not met by a part of it. Where one literal of a
/// conjunction is missing from the text, the rule does not fire: it reports
/// nothing and contributes nothing, whichever of its other literals are
/// present.
pub proof fn lemma_conjunction_needs_every_literal(
    rule: RuleView,
    literals: Seq<Seq<char>>,
    missing: int,
    catalog: Map<Seq<char>, Seq<char>>,
    text: Seq<char>,
)
    requires
        rule.trigger == TriggerView::AllOf(literals),
        0 <= missing < literals.len(),
        !occurs_in(literals[missing], text),
    ensures
        !rule.trigger.fires(text),
        rule.hit(text) is None,
        rule.outcome(catalog, text) is None,
{
}

/// A literal fires wherever it stands: a text made of anything, then the
/// literal, then anything holds the literal. With nothing before and nothing
/// after, this is the literal in isolation.
pub proof fn lemma_literal_found_wherever_it_stands(
    literal: Seq<char>,
    before: Seq<char>,
    after: Seq<char>,
)
    ensures
        occurs_in(literal, before + literal + after),
        TriggerView::Literal(literal).fires(before + literal + after),
{
    let text = before + literal + after;
    let at = before.len() as int;
    assert(text.subrange(at, at + literal.len()) =~= literal);
    assert(occurs_at(literal, text, at));
}

/// A text holds no literal longer than itself. In particular the empty text
/// holds no literal but the empty one.
pub proof fn lemma_text_holds_nothing_longer(literal: Seq<char>, text: Seq<char>)
    requires
        literal.len() > text.len(),
    ensures
        !occurs_in(literal, text),
        !TriggerView::Literal(literal).fires(text),
{
}

/// The rules of the standard set that look for several literals, in plain
/// terms: each of the two conjunctions fires exactly when both of its
/// literals occur, and the alternative fires exactly when at least one of its
/// three literals occurs.
pub proof fn lemma_standard_combinations(text: Seq<char>)
    ensures
        spec_pixel_format_not_accelerated_win10().trigger.fires(text) <==> occurs_in(
            PIXEL_FORMAT_NOT_ACCELERATED@,
            text,
        ) && occurs_in(WINDOWS_10@, text),
        spec_fabric_api_missing().trigger.fires(text) <==> occurs_in(REQUIRED_MOD_NOT_FOUND@, text)
            && occurs_in(REQUIRES_FABRIC@, text),
        spec_one_seventeen_plus_java_too_old().trigger.fires(text) <==> occurs_in(
            UNSUPPORTED_CLASS_VERSION@,
            text,
        ) || occurs_in(FABRIC_WANTS_JAVA_16@, text) || occurs_in(FABRIC_WANTS_JAVA_17@, text),
{
}

/// Findings come in the order of the rules. The findings of an evaluation
/// are the outcomes of the contributing rules, one finding for each, and the
/// contributing rules are all the rules that have an outcome, each once, in
/// the order in which the rule set lists them. So no rule yields more than
/// one finding, and of two findings the earlier comes from the earlier rule.
pub proof fn lemma_findings_follow_rule_order(
    rules: Seq<RuleView>,
    catalog: Map<Seq<char>, Seq<char>>,
    text: Seq<char>,
)
    ensures
        evaluation(rules, catalog, text).len() == contributors(rules, catalog, text).len(),
        evaluation(rules, catalog, text).len() <= rules.len(),
        forall|k: int|
            0 <= k < contributors(rules, catalog, text).len() ==> {
                let at = #[trigger] contributors(rules, catalog, text)[k];
                &&& 0 <= at < rules.len()
                &&& rules[at].outcome(catalog, text) == Some(evaluation(rules, catalog, text)[k])
            },
        forall|j: int, k: int|
            0 <= j < k < contributors(rules, catalog, text).len() ==> contributors(
                rules,
                catalog,
                text,
            )[j] < contributors(rules, catalog, text)[k],
        forall|i: int|
            0 <= i < rules.len() && (#[trigger] rules[i]).outcome(catalog, text) is Some
                ==> contributors(rules, catalog, text).contains(i),
    decreases rules.len(),
{
    if rules.len() > 0 {
        let earlier = rules.drop_last();
        lemma_findings_follow_rule_order(earlier, catalog, text);
        let from = contributors(rules, catalog, text);
        let from_earlier = contributors(earlier, catalog, text);
        assert forall|i: int|
            0 <= i < rules.len() && (#[trigger] rules[i]).outcome(catalog, text) is Some implies from.contains(
            i,
        ) by {
            if i < rules.len() - 1 {
                assert(earlier[i] == rules[i]);
                let k = choose|k: int| 0 <= k < from_earlier.len() && from_earlier[k] == i;
                assert(from[k] == i);
            } else {
                assert(from[from.len() - 1] == i);
            }
        }
    }
}

/// Rules do not look at one another. The findings of two lists of rules run
/// one after the other are the findings of the first list followed by those of
/// the second: what a rule contributes is the same whatever stands before or
/// after it.
pub proof fn lemma_rules_are_independent(
    first: Seq<RuleView>,
    second: Seq<RuleView>,
    catalog: Map<Seq<char>, Seq<char>>,
    text: Seq<char>,
)
    ensures
        evaluation(first + second, catalog, text) == evaluation(first, catalog, text) + evaluation(
            second,
            catalog,
            text,
        ),
    decreases second.len(),
{
    if second.len() > 0 {
        lemma_rules_are_independent(first, second.drop_last(), catalog, text);
        assert((first + second).drop_last() =~= first + second.drop_last());
    }
}

/// Evaluation is repeatable: two results of evaluating the same text with
/// the same catalog hold the same findings, severity for severity and message
/// for message.
pub proof fn lemma_same_input_same_findings(
    first: Seq<(Severity, String)>,
    second: Seq<(Severity, String)>,
    catalog: Map<Seq<char>, Seq<char>>,
    text: Seq<char>,
)
    requires
        finding_views(first) == evaluation(standard_rules(), catalog, text),
        finding_views(second) == evaluation(standard_rules(), catalog, text),
    ensures
        first.len() == second.len(),
        forall|k: int|
            0 <= k < first.len() ==> first[k].0 == second[k].0 && first[k].1@ == second[k].1@,
{
    assert(finding_views(first).len() == first.len());
    assert(finding_views(second).len() == second.len());
    assert forall|k: int| 0 <= k < first.len() implies first[k].0 == second[k].0 && first[k].1@
        == second[k].1@ by {
        assert(finding_view(first[k]) == finding_views(first)[k]);
        assert(finding_view(second[k]) == finding_views(second)[k]);
    }
}

/// Taking a key out of the catalog touches the rules of that key and no
/// other: a rule of that key contributes nothing any more, and every other
/// rule contributes what it did before.
pub proof fn lemma_removed_key_silences_its_rule(
    rule: RuleView,
    key: Seq<char>,
    catalog: Map<Seq<char>, Seq<char>>,
    text: Seq<char>,
)
    ensures
        rule.key == key ==> rule.outcome(catalog.remove(key), text) is None,
        rule.key != key ==> rule.outcome(catalog.remove(key), text) == rule.outcome(catalog, text),
{
}

/// Taking a key out of the catalog is to the findings as taking the rules of
/// that key out of the rule set: their findings go, and the findings of all
/// other rules stay as they were and where they were.
pub proof fn lemma_removed_key_silences_only_its_rules(
    rules: Seq<RuleView>,
    key: Seq<char>,
    catalog: Map<Seq<char>, Seq<char>>,
    text: Seq<char>,
)
    ensures
        evaluation(rules, catalog.remove(key), text) == evaluation(
            rules.filter(|rule: RuleView| rule.key != key),
            catalog,
            text,
        ),
    decreases rules.len(),
{
    reveal(Seq::filter);
    if rules.len() > 0 {
        lemma_removed_key_silences_only_its_rules(rules.drop_last(), key, catalog, text);
        lemma_removed_key_silences_its_rule(rules.last(), key, catalog, text);
        let others = |rule: RuleView| rule.key != key;
        if others(rules.last()) {
            let kept = rules.drop_last().filter(others).push(rules.last());
            assert(kept.drop_last() =~= rules.drop_last().filter(others));
        }
    }
}

} // verus!
