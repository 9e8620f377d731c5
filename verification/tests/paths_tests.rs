use panpan::paths::artifact_path;
use panpan::paths::bundle_file_name;
use panpan::paths::bundle_path;
use panpan::paths::engine_module_reference;
use panpan::paths::engine_reference_from;
use panpan::paths::jni_libs_dir;
use panpan::paths::packaging_task_name;
use panpan::paths::placed_library_path;
use panpan::paths::profile_name;
use panpan::paths::profiled_bundle_path;
use panpan::paths::project_root_index;
use panpan::paths::replace_backslashes;
use panpan::paths::runner_binary_path;

#[test]
fn artifact_paths_are_deterministic() {
    assert_eq!(
        artifact_path("/work/game", "aarch64-linux-android", false),
        "/work/game/target/aarch64-linux-android/debug/libpanpan_jni.so"
    );
    assert_eq!(
        artifact_path("/work/game", "armv7-linux-androideabi", true),
        "/work/game/target/armv7-linux-androideabi/release/libpanpan_jni.so"
    );
}

#[test]
fn placement_paths_follow_the_template_layout() {
    let dir = jni_libs_dir("android", "arm64-v8a");
    assert_eq!(dir, "android/app/src/main/jniLibs/arm64-v8a");
    assert_eq!(placed_library_path(&dir), "android/app/src/main/jniLibs/arm64-v8a/libpanpan.so");
}

#[test]
fn bundle_paths() {
    assert_eq!(bundle_path("android"), "android/app/build/outputs/apk/debug/app-debug.apk");
    assert_eq!(
        profiled_bundle_path("android", false),
        "android/app/build/outputs/apk/debug/app-debug.apk"
    );
    assert_eq!(
        profiled_bundle_path("android", true),
        "android/app/build/outputs/apk/release/app-release-unsigned.apk"
    );
}

#[test]
fn profile_and_task_names() {
    assert_eq!(profile_name(true), "release");
    assert_eq!(profile_name(false), "debug");
    assert_eq!(packaging_task_name(true), "assembleRelease");
    assert_eq!(packaging_task_name(false), "assembleDebug");
    assert_eq!(bundle_file_name(true), "app-release-unsigned.apk");
    assert_eq!(bundle_file_name(false), "app-debug.apk");
}

#[test]
fn runner_binary_paths() {
    assert_eq!(
        runner_binary_path("/r", false, "panpan_desktop_runner.exe"),
        "/r/target/debug/panpan_desktop_runner.exe"
    );
    assert_eq!(runner_binary_path("/r", true, "demo_runner"), "/r/target/release/demo_runner");
}

#[test]
fn backslashes_become_forward_slashes() {
    assert_eq!(replace_backslashes("a\\b\\c"), "a/b/c");
    assert_eq!(replace_backslashes("already/fine"), "already/fine");
    assert_eq!(replace_backslashes(""), "");
    assert_eq!(replace_backslashes("\\\\"), "//");
}

#[test]
fn engine_module_reference_computes_a_relative_path() {
    let r = engine_module_reference(Some("/work/panpan"), "/work/game/target/panpan_jni");
    assert_eq!(r, Some("../../../panpan".to_string()));
    assert_eq!(engine_module_reference(None, "/anywhere"), None);
}

#[test]
fn engine_reference_prefers_the_relative_path() {
    let r = engine_reference_from(Some("..\\..\\panpan".to_string()), "C:\\work\\panpan");
    assert_eq!(r, "../../panpan");
}

#[test]
fn engine_reference_falls_back_when_no_relative_path_exists() {
    let r = engine_reference_from(None, "C:\\work\\panpan");
    assert_eq!(r, "C:/work/panpan");
    assert_eq!(engine_reference_from(None, "/work/panpan"), "/work/panpan");
}

#[test]
fn engine_module_reference_falls_back_to_the_module_path() {
    // A relative module path against an absolute base has no relative
    // form; the reference falls back to the module path itself.
    let r = engine_module_reference(Some("panpan"), "/abs/base");
    assert_eq!(r, Some("panpan".to_string()));
}

#[test]
fn project_root_probing_takes_the_first_hit() {
    assert_eq!(project_root_index(&vec![false, true, true]), Some(1));
    assert_eq!(project_root_index(&vec![true]), Some(0));
    assert_eq!(project_root_index(&vec![false, false]), None);
    assert_eq!(project_root_index(&vec![]), None);
}
