//! The known failure signatures: the literals and patterns that betray each
//! problem, the rule for each, and the rule set made of them.

use crate::pattern::Pattern;
use crate::rules::{Rule, RuleView, Severity, Trigger, TriggerView};
use crate::text::literal_views;
use vstd::prelude::*;

verus! {

/// The launcher announces its data folder, and it lies under the system's
/// program folder.
pub const PROGRAM_FILES_FOLDER: &'static str = "Minecraft folder is:\nC:/Program Files";

/// The windowing system's exception about drag regions invalidated off the
/// main thread.
pub const WINDOW_DRAG_REGIONS: &'static str =
    "Terminating app due to uncaught exception 'NSInternalInconsistencyException', reason: 'NSWindow drag regions should only be invalidated on the Main Thread!'";

/// A pattern: the launcher announces its data folder, and it lies at least two
/// levels below the drive's root in a folder whose name begins with that of
/// the cloud-sync service.
pub const CLOUD_SYNCED_FOLDER: &'static str = r"Minecraft folder is:\nC:/.+/.+/OneDrive";

/// The application class loader cannot be cast to a URL class loader.
pub const CLASS_LOADER_CAST: &'static str =
    "java.lang.ClassCastException: class jdk.internal.loader.ClassLoaders$AppClassLoader cannot be cast to class java.net.URLClassLoader";

/// The game's main class is of a version that the runtime does not support.
pub const UNSUPPORTED_CLASS_VERSION: &'static str =
    "java.lang.UnsupportedClassVersionError: net/minecraft/client/main/Main";

/// The mod loader asks for a runtime of version 16 at least.
pub const FABRIC_WANTS_JAVA_16: &'static str = "fabric requires {java @ [>=16]}";

/// The mod loader asks for a runtime of version 17 at least.
pub const FABRIC_WANTS_JAVA_17: &'static str = "fabric requires {java @ [>=17]}";

/// The windowing library found no service port for the display.
pub const SERVICE_PORT_NOT_FOUND: &'static str =
    "java.lang.IllegalStateException: GLFW error before init: [0x10008]Cocoa: Failed to find service port for display";

/// The graphics library found no accelerated pixel format.
pub const PIXEL_FORMAT_NOT_ACCELERATED: &'static str =
    "org.lwjgl.LWJGLException: Pixel format not accelerated";

/// The log names the operating system on which a missing accelerated pixel
/// format points to an unsupported graphics adapter.
pub const WINDOWS_10: &'static str = "Operating System: Windows 10";

/// A pattern: a native frame of a crash report, inside the graphics driver's
/// module, at a hexadecimal offset.
pub const GRAPHICS_DRIVER_MODULE: &'static str = r"C  \[(ig[0-9]+icd[0-9]+\.dll)\+(0x[0-9a-f]+)\]";

/// The game was asked for an id beyond its range.
pub const ID_RANGE_EXCEEDED: &'static str =
    "java.lang.RuntimeException: Invalid id 4096 - maximum id range exceeded.";

/// The runtime's out-of-memory error.
pub const OUT_OF_MEMORY: &'static str = "java.lang.OutOfMemoryError";

/// One shader add-on refuses to run beside the other.
pub const SHADERS_MOD_DETECTED: &'static str =
    "java.lang.RuntimeException: Shaders Mod detected. Please remove it, OptiFine has built-in support for shaders.";

/// The mod loader could not find a mod that another requires.
pub const REQUIRED_MOD_NOT_FOUND: &'static str =
    "net.fabricmc.loader.discovery.ModResolutionException: Could not find required mod:";

/// The requirement that was not met is one on the loader's programming
/// interface.
pub const REQUIRES_FABRIC: &'static str = "requires {fabric @";

/// The launcher's warning that runtime and system differ in architecture.
pub const ARCHITECTURE_MISMATCH: &'static str =
    "Your Java architecture is not matching your system architecture.";

/// The key of the entry that says: move the launcher out of the program folder.
pub const KEY_PROGRAM_FILES: &'static str = "program-files";

/// The key of the entry that says: use an older runtime on this system.
pub const KEY_MACOS_JAVA_TOO_NEW: &'static str = "macos-java-too-new";

/// The key of the entry that says: move the launcher out of the synced folder.
pub const KEY_MULTIMC_IN_ONEDRIVE: &'static str = "multimc-in-onedrive";

/// The key of the entry that says: use the older runtime that the mod framework needs.
pub const KEY_USE_JAVA_8: &'static str = "use-java-8";

/// The key of the entry that says: use the newer runtime that the game needs.
pub const KEY_USE_JAVA_17: &'static str = "use-java-17";

/// The key of the entry that says: the mod framework does not run on this processor.
pub const KEY_APPLE_SILICON_INCOMPATIBLE_FORGE: &'static str = "apple-silicon-incompatible-forge";

/// The key of the entry that says: the graphics adapter is not supported.
pub const KEY_UNSUPPORTED_INTEL_GPU: &'static str = "unsupported-intel-gpu";

/// The key of the entry that says: the id range is used up.
pub const KEY_ID_LIMIT: &'static str = "id-limit";

/// The key of the entry that says: give the game more memory.
pub const KEY_OUT_OF_MEMORY: &'static str = "out-of-memory";

/// The key of the entry that says: remove one of the two shader add-ons.
pub const KEY_OPTIFINE_AND_SHADERMOD: &'static str = "optifine-and-shadermod";

/// The key of the entry that says: install the loader's programming interface.
pub const KEY_MISSING_FABRIC_API: &'static str = "missing-fabric-api";

/// The key of the entry that says: install a runtime of the system's architecture.
pub const KEY_32_BIT_JAVA: &'static str = "32-bit-java";

/// The launcher keeps its data under the system's program folder.
pub open spec fn spec_multimc_in_program_files() -> RuleView {
    RuleView {
        trigger: TriggerView::Literal(PROGRAM_FILES_FOLDER@),
        severity: Severity::High,
        key: KEY_PROGRAM_FILES@,
    }
}

/// The rule that [`spec_multimc_in_program_files`] describes.
pub fn multimc_in_program_files() -> (rule: Rule)
    ensures
        rule@ == spec_multimc_in_program_files(),
{
    Rule::new(Trigger::Literal(PROGRAM_FILES_FOLDER), Severity::High, KEY_PROGRAM_FILES)
}

/// The windowing system ended the game with the exception that a too recent
/// runtime provokes.
pub open spec fn spec_macos_too_new_java() -> RuleView {
    RuleView {
        trigger: TriggerView::Literal(WINDOW_DRAG_REGIONS@),
        severity: Severity::High,
        key: KEY_MACOS_JAVA_TOO_NEW@,
    }
}

/// The rule that [`spec_macos_too_new_java`] describes.
pub fn macos_too_new_java() -> (rule: Rule)
    ensures
        rule@ == spec_macos_too_new_java(),
{
    Rule::new(Trigger::Literal(WINDOW_DRAG_REGIONS), Severity::High, KEY_MACOS_JAVA_TOO_NEW)
}

/// The launcher keeps its data in a folder that a cloud-sync service manages.
pub open spec fn spec_multimc_in_onedrive_managed_folder() -> RuleView {
    RuleView {
        trigger: TriggerView::Pattern(CLOUD_SYNCED_FOLDER@),
        severity: Severity::Medium,
        key: KEY_MULTIMC_IN_ONEDRIVE@,
    }
}

/// The rule that [`spec_multimc_in_onedrive_managed_folder`] describes, around the
/// compiled form of its pattern.
pub fn multimc_in_onedrive_managed_folder(pattern: Pattern) -> (rule: Rule)
    requires
        pattern@ == CLOUD_SYNCED_FOLDER@,
    ensures
        rule@ == spec_multimc_in_onedrive_managed_folder(),
{
    Rule::new(Trigger::Pattern(pattern), Severity::Medium, KEY_MULTIMC_IN_ONEDRIVE)
}

/// The class loader cannot be cast as the mod framework expects: the runtime is
/// too recent for it.
pub open spec fn spec_forge_too_new_java() -> RuleView {
    RuleView {
        trigger: TriggerView::Literal(CLASS_LOADER_CAST@),
        severity: Severity::High,
        key: KEY_USE_JAVA_8@,
    }
}

/// The rule that [`spec_forge_too_new_java`] describes.
pub fn forge_too_new_java() -> (rule: Rule)
    ensures
        rule@ == spec_forge_too_new_java(),
{
    Rule::new(Trigger::Literal(CLASS_LOADER_CAST), Severity::High, KEY_USE_JAVA_8)
}

/// The game's classes are of a version the runtime does not support, or the mod
/// loader asks for a more recent runtime: any one of the three signatures is
/// enough.
pub open spec fn spec_one_seventeen_plus_java_too_old() -> RuleView {
    RuleView {
        trigger: TriggerView::AnyOf(
            seq![UNSUPPORTED_CLASS_VERSION@, FABRIC_WANTS_JAVA_16@, FABRIC_WANTS_JAVA_17@],
        ),
        severity: Severity::High,
        key: KEY_USE_JAVA_17@,
    }
}

/// The rule that [`spec_one_seventeen_plus_java_too_old`] describes.
pub fn one_seventeen_plus_java_too_old() -> (rule: Rule)
    ensures
        rule@ == spec_one_seventeen_plus_java_too_old(),
{
    let literals: Vec<&'static str> =
        vec![UNSUPPORTED_CLASS_VERSION, FABRIC_WANTS_JAVA_16, FABRIC_WANTS_JAVA_17];
    assert(literal_views(literals@) =~= seq![
        UNSUPPORTED_CLASS_VERSION@,
        FABRIC_WANTS_JAVA_16@,
        FABRIC_WANTS_JAVA_17@,
    ]);
    Rule::new(Trigger::AnyOf(literals), Severity::High, KEY_USE_JAVA_17)
}

/// The windowing library found no service port for the display when it started.
pub open spec fn spec_m1_failed_to_find_service_port() -> RuleView {
    RuleView {
        trigger: TriggerView::Literal(SERVICE_PORT_NOT_FOUND@),
        severity: Severity::High,
        key: KEY_APPLE_SILICON_INCOMPATIBLE_FORGE@,
    }
}

/// The rule that [`spec_m1_failed_to_find_service_port`] describes.
pub fn m1_failed_to_find_service_port() -> (rule: Rule)
    ensures
        rule@ == spec_m1_failed_to_find_service_port(),
{
    Rule::new(
        Trigger::Literal(SERVICE_PORT_NOT_FOUND),
        Severity::High,
        KEY_APPLE_SILICON_INCOMPATIBLE_FORGE,
    )
}

/// The pixel format is not accelerated, and the operating system is the one on
/// which that points to an unsupported graphics adapter: both signatures must be
/// present.
pub open spec fn spec_pixel_format_not_accelerated_win10() -> RuleView {
    RuleView {
        trigger: TriggerView::AllOf(seq![PIXEL_FORMAT_NOT_ACCELERATED@, WINDOWS_10@]),
        severity: Severity::Medium,
        key: KEY_UNSUPPORTED_INTEL_GPU@,
    }
}

/// The rule that [`spec_pixel_format_not_accelerated_win10`] describes.
pub fn pixel_format_not_accelerated_win10() -> (rule: Rule)
    ensures
        rule@ == spec_pixel_format_not_accelerated_win10(),
{
    let literals: Vec<&'static str> = vec![PIXEL_FORMAT_NOT_ACCELERATED, WINDOWS_10];
    assert(literal_views(literals@) =~= seq![PIXEL_FORMAT_NOT_ACCELERATED@, WINDOWS_10@]);
    Rule::new(Trigger::AllOf(literals), Severity::Medium, KEY_UNSUPPORTED_INTEL_GPU)
}

/// A crash report names a frame inside the graphics driver's module.
pub open spec fn spec_intel_graphics_icd_dll() -> RuleView {
    RuleView {
        trigger: TriggerView::Pattern(GRAPHICS_DRIVER_MODULE@),
        severity: Severity::Medium,
        key: KEY_UNSUPPORTED_INTEL_GPU@,
    }
}

/// The rule that [`spec_intel_graphics_icd_dll`] describes, around the
/// compiled form of its pattern.
pub fn intel_graphics_icd_dll(pattern: Pattern) -> (rule: Rule)
    requires
        pattern@ == GRAPHICS_DRIVER_MODULE@,
    ensures
        rule@ == spec_intel_graphics_icd_dll(),
{
    Rule::new(Trigger::Pattern(pattern), Severity::Medium, KEY_UNSUPPORTED_INTEL_GPU)
}

/// The game ran out of ids for its content.
pub open spec fn spec_id_range_exceeded() -> RuleView {
    RuleView {
        trigger: TriggerView::Literal(ID_RANGE_EXCEEDED@),
        severity: Severity::High,
        key: KEY_ID_LIMIT@,
    }
}

/// The rule that [`spec_id_range_exceeded`] describes.
pub fn id_range_exceeded() -> (rule: Rule)
    ensures
        rule@ == spec_id_range_exceeded(),
{
    Rule::new(Trigger::Literal(ID_RANGE_EXCEEDED), Severity::High, KEY_ID_LIMIT)
}

/// The runtime ran out of memory.
pub open spec fn spec_out_of_memory_error() -> RuleView {
    RuleView {
        trigger: TriggerView::Literal(OUT_OF_MEMORY@),
        severity: Severity::High,
        key: KEY_OUT_OF_MEMORY@,
    }
}

/// The rule that [`spec_out_of_memory_error`] describes.
pub fn out_of_memory_error() -> (rule: Rule)
    ensures
        rule@ == spec_out_of_memory_error(),
{
    Rule::new(Trigger::Literal(OUT_OF_MEMORY), Severity::High, KEY_OUT_OF_MEMORY)
}

/// Two add-ons that both provide shaders are installed together.
pub open spec fn spec_shadermod_optifine_conflict() -> RuleView {
    RuleView {
        trigger: TriggerView::Literal(SHADERS_MOD_DETECTED@),
        severity: Severity::High,
        key: KEY_OPTIFINE_AND_SHADERMOD@,
    }
}

/// The rule that [`spec_shadermod_optifine_conflict`] describes.
pub fn shadermod_optifine_conflict() -> (rule: Rule)
    ensures
        rule@ == spec_shadermod_optifine_conflict(),
{
    Rule::new(Trigger::Literal(SHADERS_MOD_DETECTED), Severity::High, KEY_OPTIFINE_AND_SHADERMOD)
}

/// The mod loader could not find a required mod, and the requirement named is the
/// loader's own programming interface: both signatures must be present.
pub open spec fn spec_fabric_api_missing() -> RuleView {
    RuleView {
        trigger: TriggerView::AllOf(seq![REQUIRED_MOD_NOT_FOUND@, REQUIRES_FABRIC@]),
        severity: Severity::High,
        key: KEY_MISSING_FABRIC_API@,
    }
}

/// The rule that [`spec_fabric_api_missing`] describes.
pub fn fabric_api_missing() -> (rule: Rule)
    ensures
        rule@ == spec_fabric_api_missing(),
{
    let literals: Vec<&'static str> = vec![REQUIRED_MOD_NOT_FOUND, REQUIRES_FABRIC];
    assert(literal_views(literals@) =~= seq![REQUIRED_MOD_NOT_FOUND@, REQUIRES_FABRIC@]);
    Rule::new(Trigger::AllOf(literals), Severity::High, KEY_MISSING_FABRIC_API)
}

/// The runtime's processor architecture is not the system's.
pub open spec fn spec_java_architecture() -> RuleView {
    RuleView {
        trigger: TriggerView::Literal(ARCHITECTURE_MISMATCH@),
        severity: Severity::Medium,
        key: KEY_32_BIT_JAVA@,
    }
}

/// The rule that [`spec_java_architecture`] describes.
pub fn java_architecture() -> (rule: Rule)
    ensures
        rule@ == spec_java_architecture(),
{
    Rule::new(Trigger::Literal(ARCHITECTURE_MISMATCH), Severity::Medium, KEY_32_BIT_JAVA)
}

/// The rule set, in the order in which the rules are run and their findings
/// reported.
pub open spec fn standard_rules() -> Seq<RuleView> {
    seq![
        spec_multimc_in_program_files(),
        spec_macos_too_new_java(),
        spec_multimc_in_onedrive_managed_folder(),
        spec_forge_too_new_java(),
        spec_one_seventeen_plus_java_too_old(),
        spec_m1_failed_to_find_service_port(),
        spec_pixel_format_not_accelerated_win10(),
        spec_intel_graphics_icd_dll(),
        spec_id_range_exceeded(),
        spec_out_of_memory_error(),
        spec_shadermod_optifine_conflict(),
        spec_fabric_api_missing(),
        spec_java_architecture(),
    ]
}

} // verus!
