use background_cat::signatures::{CLOUD_SYNCED_FOLDER, GRAPHICS_DRIVER_MODULE};
use background_cat::pattern::Pattern;
use background_cat::{common_mistakes, Catalog, Engine, Severity};

const ENTRIES: &[(&str, &str)] = &[
    ("program-files", "program files"),
    ("macos-java-too-new", "macos java"),
    ("multimc-in-onedrive", "onedrive"),
    ("use-java-8", "java 8"),
    ("use-java-17", "java 17"),
    ("apple-silicon-incompatible-forge", "apple silicon"),
    ("unsupported-intel-gpu", "intel gpu"),
    ("id-limit", "id limit"),
    ("out-of-memory", "memory"),
    ("optifine-and-shadermod", "shaders"),
    ("missing-fabric-api", "fabric api"),
    ("32-bit-java", "architecture"),
];

const EVERYTHING: &str = "Your Java architecture is not matching your system architecture.\n\
net.fabricmc.loader.discovery.ModResolutionException: Could not find required mod: a requires {fabric @ [*]}\n\
java.lang.RuntimeException: Shaders Mod detected. Please remove it, OptiFine has built-in support for shaders.\n\
java.lang.OutOfMemoryError\n\
java.lang.RuntimeException: Invalid id 4096 - maximum id range exceeded.\n\
C  [ig9icd64.dll+0x1a2b3]\n\
org.lwjgl.LWJGLException: Pixel format not accelerated\n\
Operating System: Windows 10\n\
java.lang.IllegalStateException: GLFW error before init: [0x10008]Cocoa: Failed to find service port for display\n\
fabric requires {java @ [>=16]}\n\
java.lang.ClassCastException: class jdk.internal.loader.ClassLoaders$AppClassLoader cannot be cast to class java.net.URLClassLoader\n\
Terminating app due to uncaught exception 'NSInternalInconsistencyException', reason: 'NSWindow drag regions should only be invalidated on the Main Thread!'\n\
Minecraft folder is:\nC:/Program Files/MultiMC/OneDrive\n";

fn engine_with(entries: &[(&str, &str)]) -> Engine {
    Engine::new(Catalog::build(entries)).expect("the patterns of the rule set compile")
}

fn finding(severity: Severity, message: &str) -> (Severity, String) {
    (severity, message.to_string())
}

fn all_findings() -> Vec<(Severity, String)> {
    vec![
        finding(Severity::High, "program files"),
        finding(Severity::High, "macos java"),
        finding(Severity::Medium, "onedrive"),
        finding(Severity::High, "java 8"),
        finding(Severity::High, "java 17"),
        finding(Severity::High, "apple silicon"),
        finding(Severity::Medium, "intel gpu"),
        finding(Severity::Medium, "intel gpu"),
        finding(Severity::High, "id limit"),
        finding(Severity::High, "memory"),
        finding(Severity::High, "shaders"),
        finding(Severity::High, "fabric api"),
        finding(Severity::Medium, "architecture"),
    ]
}

#[test]
fn every_rule_fires_in_rule_order_whatever_the_text_order() {
    let findings = common_mistakes(&engine_with(ENTRIES), EVERYTHING);
    assert_eq!(findings, all_findings());
}

#[test]
fn two_rules_fire_in_rule_order() {
    let log = "java.lang.OutOfMemoryError\nMinecraft folder is:\nC:/Program Files (x86)/MultiMC\n";
    let findings = common_mistakes(&engine_with(ENTRIES), log);
    assert_eq!(
        findings,
        vec![finding(Severity::High, "program files"), finding(Severity::High, "memory")]
    );
}

#[test]
fn equal_findings_of_two_rules_both_stay() {
    let log = "C  [ig4icd32.dll+0xbeef]\nOperating System: Windows 10\norg.lwjgl.LWJGLException: Pixel format not accelerated";
    let findings = common_mistakes(&engine_with(ENTRIES), log);
    assert_eq!(
        findings,
        vec![finding(Severity::Medium, "intel gpu"), finding(Severity::Medium, "intel gpu")]
    );
}

#[test]
fn a_trigger_that_occurs_twice_gives_one_finding() {
    let log = "java.lang.OutOfMemoryError\njava.lang.OutOfMemoryError\njava.lang.OutOfMemoryError";
    let findings = common_mistakes(&engine_with(ENTRIES), log);
    assert_eq!(findings, vec![finding(Severity::High, "memory")]);
}

#[test]
fn evaluating_twice_gives_the_same_findings() {
    let engine = engine_with(ENTRIES);
    let first = common_mistakes(&engine, EVERYTHING);
    let second = common_mistakes(&engine, EVERYTHING);
    assert_eq!(first, second);
    let third = common_mistakes(&engine, "java.lang.OutOfMemoryError");
    let fourth = common_mistakes(&engine, "java.lang.OutOfMemoryError");
    assert_eq!(third, fourth);
    assert_eq!(common_mistakes(&engine, EVERYTHING), first);
}

#[test]
fn two_engines_of_equal_catalogs_agree() {
    let first = common_mistakes(&engine_with(ENTRIES), EVERYTHING);
    let second = common_mistakes(&engine_with(ENTRIES), EVERYTHING);
    assert_eq!(first, second);
}

#[test]
fn a_key_missing_from_the_catalog_silences_its_rule_only() {
    let without: Vec<(&str, &str)> =
        ENTRIES.iter().copied().filter(|entry| entry.0 != "out-of-memory").collect();
    let findings = common_mistakes(&engine_with(&without), EVERYTHING);
    let expected: Vec<(Severity, String)> =
        all_findings().into_iter().filter(|finding| finding.1 != "memory").collect();
    assert_eq!(findings.len(), 12);
    assert_eq!(findings, expected);
}

#[test]
fn a_shared_key_missing_from_the_catalog_silences_both_of_its_rules() {
    let without: Vec<(&str, &str)> =
        ENTRIES.iter().copied().filter(|entry| entry.0 != "unsupported-intel-gpu").collect();
    let findings = common_mistakes(&engine_with(&without), EVERYTHING);
    let expected: Vec<(Severity, String)> =
        all_findings().into_iter().filter(|finding| finding.1 != "intel gpu").collect();
    assert_eq!(findings.len(), 11);
    assert_eq!(findings, expected);
}

#[test]
fn an_empty_catalog_silences_every_rule() {
    let findings = common_mistakes(&engine_with(&[]), EVERYTHING);
    assert_eq!(findings, vec![]);
}

#[test]
fn an_empty_message_is_a_finding() {
    let findings =
        common_mistakes(&engine_with(&[("out-of-memory", "")]), "java.lang.OutOfMemoryError");
    assert_eq!(findings, vec![finding(Severity::High, "")]);
}

#[test]
fn entries_that_no_rule_names_change_nothing() {
    let mut entries: Vec<(&str, &str)> = ENTRIES.to_vec();
    entries.push(("unused-key", "never shown"));
    let findings = common_mistakes(&engine_with(&entries), EVERYTHING);
    assert_eq!(findings, all_findings());
}

#[test]
fn matching_is_case_sensitive() {
    let findings = common_mistakes(&engine_with(ENTRIES), "JAVA.LANG.OUTOFMEMORYERROR");
    assert_eq!(findings, vec![]);
    let findings = common_mistakes(&engine_with(ENTRIES), "java.lang.outofmemoryerror");
    assert_eq!(findings, vec![]);
}

#[test]
fn a_large_input_is_searched_to_its_end() {
    let mut log = String::new();
    for line in 0..20000 {
        log.push_str("[INFO] tick ");
        log.push_str(&line.to_string());
        log.push('\n');
    }
    log.push_str("Your Java architecture is not matching your system architecture.");
    let findings = common_mistakes(&engine_with(ENTRIES), &log);
    assert_eq!(findings, vec![finding(Severity::Medium, "architecture")]);
}

#[test]
fn text_beyond_ascii_is_searched_like_any_other() {
    let log = "Журнал запуска — 起動ログ ✓\njava.lang.OutOfMemoryError\n‼ конец";
    let findings = common_mistakes(&engine_with(ENTRIES), log);
    assert_eq!(findings, vec![finding(Severity::High, "memory")]);
}

#[test]
fn an_engine_made_from_compiled_patterns_is_the_same_engine() {
    let cloud = Pattern::new(CLOUD_SYNCED_FOLDER).expect("it compiles");
    let driver = Pattern::new(GRAPHICS_DRIVER_MODULE).expect("it compiles");
    let engine = Engine::with_patterns(Catalog::build(ENTRIES), cloud, driver);
    assert_eq!(common_mistakes(&engine, EVERYTHING), all_findings());
    assert_eq!(common_mistakes(&engine, ""), vec![]);
    assert_eq!(
        common_mistakes(&engine, "Minecraft folder is:\nC:/Users/alice/OneDrive"),
        common_mistakes(&engine_with(ENTRIES), "Minecraft folder is:\nC:/Users/alice/OneDrive")
    );
}

#[test]
fn the_engine_is_ready_as_soon_as_it_is_made() {
    assert!(Engine::new(Catalog::build(ENTRIES)).is_ok());
    assert!(Engine::new(Catalog::build(&[])).is_ok());
}
