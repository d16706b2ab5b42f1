use background_cat::{common_mistakes, Catalog, Engine, Severity};
use regex::Regex;

const ENTRIES: &[(&str, &str)] = &[
    ("program-files", "program files"),
    ("macos-java-too-new", "macos java"),
    ("multimc-in-onedrive", "onedrive"),
    ("use-java-8", "java 8"),
    ("use-java-17", "java 17"),
    ("apple-silicon-incompatible-forge", "apple silicon"),
    ("unsupported-intel-gpu", "intel gpu"),
    ("id-limit", "id limit"),
    ("out-of-memory", "memory"),
    ("optifine-and-shadermod", "shaders"),
    ("missing-fabric-api", "fabric api"),
    ("32-bit-java", "architecture"),
];

const PIECES: &[&str] = &[
    "Minecraft folder is:\nC:/Program Files",
    "Minecraft folder is:\nC:/Program Files (x86)/MultiMC\n",
    "Minecraft folder is:\nD:/MultiMC\n",
    "Minecraft folder is:\n",
    "C:/Program Files",
    "Terminating app due to uncaught exception 'NSInternalInconsistencyException', reason: 'NSWindow drag regions should only be invalidated on the Main Thread!'",
    "Terminating app due to uncaught exception 'NSInternalInconsistencyException'",
    "Minecraft folder is:\nC:/Users/alice/OneDrive\n",
    "Minecraft folder is:\nC:/Users/alice/Documents\n",
    "Minecraft folder is:\nC:/Users/OneDrive\n",
    "C:/Users/alice/OneDrive\n",
    "/bob/carol/OneDrive",
    "java.lang.ClassCastException: class jdk.internal.loader.ClassLoaders$AppClassLoader cannot be cast to class java.net.URLClassLoader",
    "java.lang.ClassCastException: class jdk.internal.loader.ClassLoaders$AppClassLoader",
    "java.lang.UnsupportedClassVersionError: net/minecraft/client/main/Main",
    "java.lang.UnsupportedClassVersionError: ",
    "fabric requires {java @ [>=16]}",
    "fabric requires {java @ [>=17]}",
    "fabric requires {java @ [>=1",
    "java.lang.IllegalStateException: GLFW error before init: [0x10008]Cocoa: Failed to find service port for display",
    "GLFW error before init",
    "org.lwjgl.LWJGLException: Pixel format not accelerated",
    "Operating System: Windows 10",
    "Operating System: Windows 1",
    "Operating System: ",
    "C  [ig9icd64.dll+0x1a2b3]",
    "C  [ig75icd32.dll+0x0]",
    "C  [ig9icd64.dll+0x",
    "C  [igicd64.dll+0x1a2b3]",
    "java.lang.RuntimeException: Invalid id 4096 - maximum id range exceeded.",
    "java.lang.RuntimeException: ",
    "java.lang.OutOfMemoryError",
    "java.lang.",
    "java.lang.RuntimeException: Shaders Mod detected. Please remove it, OptiFine has built-in support for shaders.",
    "Shaders Mod detected.",
    "net.fabricmc.loader.discovery.ModResolutionException: Could not find required mod:",
    "requires {fabric @",
    " a requires {fabric @ [*]}",
    "requires {",
    "Your Java architecture is not matching your system architecture.",
    "Your Java architecture is matching your system architecture.",
    "",
    "\n",
    "0",
    "]",
    " [>=16]}",
    "Ünïcödé — текст ✓",
];

struct Direct {
    folder: Regex,
    driver: Regex,
}

impl Direct {
    fn new() -> Direct {
        Direct {
            folder: Regex::new(r"Minecraft folder is:\nC:/.+/.+/OneDrive").unwrap(),
            driver: Regex::new(r"C  \[(ig[0-9]+icd[0-9]+\.dll)\+(0x[0-9a-f]+)\]").unwrap(),
        }
    }

    fn search(&self, log: &str) -> Vec<(Severity, String)> {
        let mut found: Vec<(Severity, &str)> = Vec::new();
        if log.contains("Minecraft folder is:\nC:/Program Files") {
            found.push((Severity::High, "program files"));
        }
        if log.contains(r#"Terminating app due to uncaught exception 'NSInternalInconsistencyException', reason: 'NSWindow drag regions should only be invalidated on the Main Thread!'"#) {
            found.push((Severity::High, "macos java"));
        }
        if self.folder.is_match(log) {
            found.push((Severity::Medium, "onedrive"));
        }
        if log.contains("java.lang.ClassCastException: class jdk.internal.loader.ClassLoaders$AppClassLoader cannot be cast to class java.net.URLClassLoader") {
            found.push((Severity::High, "java 8"));
        }
        if log.contains("java.lang.UnsupportedClassVersionError: net/minecraft/client/main/Main")
            || log.contains("fabric requires {java @ [>=16]}")
            || log.contains("fabric requires {java @ [>=17]}")
        {
            found.push((Severity::High, "java 17"));
        }
        if log.contains("java.lang.IllegalStateException: GLFW error before init: [0x10008]Cocoa: Failed to find service port for display") {
            found.push((Severity::High, "apple silicon"));
        }
        if log.contains("org.lwjgl.LWJGLException: Pixel format not accelerated")
            && log.contains("Operating System: Windows 10")
        {
            found.push((Severity::Medium, "intel gpu"));
        }
        if self.driver.is_match(log) {
            found.push((Severity::Medium, "intel gpu"));
        }
        if log.contains("java.lang.RuntimeException: Invalid id 4096 - maximum id range exceeded.") {
            found.push((Severity::High, "id limit"));
        }
        if log.contains("java.lang.OutOfMemoryError") {
            found.push((Severity::High, "memory"));
        }
        if log.contains("java.lang.RuntimeException: Shaders Mod detected. Please remove it, OptiFine has built-in support for shaders.") {
            found.push((Severity::High, "shaders"));
        }
        if log.contains("net.fabricmc.loader.discovery.ModResolutionException: Could not find required mod:")
            && log.contains("requires {fabric @")
        {
            found.push((Severity::High, "fabric api"));
        }
        if log.contains("Your Java architecture is not matching your system architecture.") {
            found.push((Severity::Medium, "architecture"));
        }
        found.into_iter().map(|(severity, message)| (severity, message.to_string())).collect()
    }
}

fn engine() -> Engine {
    Engine::new(Catalog::build(ENTRIES)).expect("the patterns of the rule set compile")
}

#[test]
fn every_piece_alone_agrees_with_a_direct_search() {
    let engine = engine();
    let direct = Direct::new();
    for piece in PIECES {
        assert_eq!(common_mistakes(&engine, piece), direct.search(piece), "on {:?}", piece);
    }
}

#[test]
fn every_two_pieces_agree_with_a_direct_search() {
    let engine = engine();
    let direct = Direct::new();
    let mut fired = 0;
    for first in PIECES {
        for second in PIECES {
            let joined = format!("{}{}", first, second);
            let findings = common_mistakes(&engine, &joined);
            fired += findings.len();
            assert_eq!(findings, direct.search(&joined), "on {:?}", joined);
            let lines = format!("{}\n{}", first, second);
            assert_eq!(common_mistakes(&engine, &lines), direct.search(&lines), "on {:?}", lines);
        }
    }
    assert!(fired > 1000);
}

#[test]
fn mixed_logs_agree_with_a_direct_search() {
    let engine = engine();
    let direct = Direct::new();
    let mut state: u64 = 0x2545_f491_4f6c_dd1d;
    let mut most = 0;
    for _ in 0..3000 {
        let mut log = String::new();
        state = state.wrapping_mul(6364136223846793005).wrapping_add(1442695040888963407);
        let pieces = 1 + (state >> 60) as usize;
        for _ in 0..pieces {
            state = state.wrapping_mul(6364136223846793005).wrapping_add(1442695040888963407);
            log.push_str(PIECES[(state >> 33) as usize % PIECES.len()]);
            if state & 1 == 1 {
                log.push('\n');
            }
        }
        let findings = common_mistakes(&engine, &log);
        most = most.max(findings.len());
        assert_eq!(findings, direct.search(&log), "on {:?}", log);
    }
    assert!(most >= 5);
}
