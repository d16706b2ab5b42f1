//! The rule engine: the fixed rule set, run in order against one text.

use crate::catalog::Catalog;
use crate::pattern::{Pattern, PatternError};
use crate::rules::{finding_view, Rule, RuleView, Severity};
use crate::signatures::{
    fabric_api_missing, forge_too_new_java, id_range_exceeded, intel_graphics_icd_dll,
    java_architecture, m1_failed_to_find_service_port, macos_too_new_java,
    multimc_in_onedrive_managed_folder, multimc_in_program_files,
    one_seventeen_plus_java_too_old, out_of_memory_error, pixel_format_not_accelerated_win10,
    shadermod_optifine_conflict, standard_rules, CLOUD_SYNCED_FOLDER, GRAPHICS_DRIVER_MODULE,
};
use vstd::prelude::*;

verus! {

/// The findings of `rules` on `text`, with keys resolved through `catalog`:
/// the outcome of every rule that has one, in the order of the rules. No rule
/// looks at what another found, nothing is reordered, and equal findings of
/// different rules all stay.
pub open spec fn evaluation(
    rules: Seq<RuleView>,
    catalog: Map<Seq<char>, Seq<char>>,
    text: Seq<char>,
) -> Seq<(Severity, Seq<char>)> {
    rules.filter_map(|rule: RuleView| rule.outcome(catalog, text))
}

/// The mathematical content of a list of rules.
pub open spec fn rule_views(rules: Seq<Rule>) -> Seq<RuleView> {
    rules.map_values(|rule: Rule| rule@)
}

/// The mathematical content of a list of findings.
pub open spec fn finding_views(findings: Seq<(Severity, String)>) -> Seq<(Severity, Seq<char>)> {
    findings.map_values(|finding: (Severity, String)| finding_view(finding))
}

/// The rule set, ready to run, together with the catalog that its rules
/// resolve their keys through. Patterns are compiled when the engine is made
/// and are kept for as long as it lives; nothing in it changes afterwards.
pub struct Engine {
    rules: Vec<Rule>,
    catalog: Catalog,
}

impl Engine {
    /// The rules of the engine, in the order in which it runs them.
    pub closed spec fn rules(&self) -> Seq<RuleView> {
        rule_views(self.rules@)
    }

    /// The mapping of the engine's catalog.
    pub closed spec fn catalog(&self) -> Map<Seq<char>, Seq<char>> {
        self.catalog@
    }

    /// Every engine holds the standard rule set, and no other.
    #[verifier::type_invariant]
    spec fn holds_standard_rules(self) -> bool {
        self.rules() == standard_rules()
    }

    /// Makes the engine from `catalog` and the compiled forms of the two
    /// patterns that the rule set uses.
    pub fn with_patterns(
        catalog: Catalog,
        cloud_synced_folder: Pattern,
        graphics_driver_module: Pattern,
    ) -> (engine: Engine)
        requires
            cloud_synced_folder@ == CLOUD_SYNCED_FOLDER@,
            graphics_driver_module@ == GRAPHICS_DRIVER_MODULE@,
        ensures
            engine.rules() == standard_rules(),
            engine.catalog() == catalog@,
    {
        let mut rules: Vec<Rule> = Vec::new();
        rules.push(multimc_in_program_files());
        rules.push(macos_too_new_java());
        rules.push(multimc_in_onedrive_managed_folder(cloud_synced_folder));
        rules.push(forge_too_new_java());
        rules.push(one_seventeen_plus_java_too_old());
        rules.push(m1_failed_to_find_service_port());
        rules.push(pixel_format_not_accelerated_win10());
        rules.push(intel_graphics_icd_dll(graphics_driver_module));
        rules.push(id_range_exceeded());
        rules.push(out_of_memory_error());
        rules.push(shadermod_optifine_conflict());
        rules.push(fabric_api_missing());
        rules.push(java_architecture());
        assert(rule_views(rules@) =~= standard_rules());
        Engine { rules, catalog }
    }

    /// Compiles the patterns of the rule set and makes the engine from them
    /// and `catalog`. A pattern that does not compile leaves no engine: the
    /// error names the pattern.
    pub fn new(catalog: Catalog) -> (outcome: Result<Engine, PatternError>)
        ensures
            match outcome {
                Ok(engine) => engine.rules() == standard_rules() && engine.catalog() == catalog@,
                Err(error) => error.pattern@ == CLOUD_SYNCED_FOLDER@ || error.pattern@
                    == GRAPHICS_DRIVER_MODULE@,
            },
    {
        let cloud_synced_folder = match Pattern::new(CLOUD_SYNCED_FOLDER) {
            Ok(pattern) => pattern,
            Err(error) => {
                return Err(error);
            },
        };
        let graphics_driver_module = match Pattern::new(GRAPHICS_DRIVER_MODULE) {
            Ok(pattern) => pattern,
            Err(error) => {
                return Err(error);
            },
        };
        Ok(Engine::with_patterns(catalog, cloud_synced_folder, graphics_driver_module))
    }
}

/// Runs every rule of the engine against `input`, in their fixed order, and
/// collects the findings of those that fire and whose key the catalog
/// resolves. The result may be empty; no input is an error.
pub fn common_mistakes(engine: &Engine, input: &str) -> (findings: Vec<(Severity, String)>)
    ensures
        finding_views(findings@) == evaluation(standard_rules(), engine.catalog(), input@),
{
    proof {
        use_type_invariant(engine);
    }
    let ghost rules = rule_views(engine.rules@);
    let mut findings: Vec<(Severity, String)> = Vec::new();
    let mut i: usize = 0;
    while i < engine.rules.len()
        invariant
            i <= engine.rules.len(),
            rules == rule_views(engine.rules@),
            finding_views(findings@) == evaluation(rules.take(i as int), engine.catalog(), input@),
        decreases engine.rules.len() - i,
    {
        let outcome = engine.rules[i].respond(&engine.catalog, input);
        proof {
            rules.lemma_filter_map_take_succ(
                |rule: RuleView| rule.outcome(engine.catalog(), input@),
                i as int,
            );
        }
        if let Some(finding) = outcome {
            findings.push(finding);
        }
        i += 1;
    }
    assert(rules.take(i as int) =~= rules);
    findings
}

} // verus!
