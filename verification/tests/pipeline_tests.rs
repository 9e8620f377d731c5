use panpan::discovery::parse_exportable_functions;
use panpan::paths::artifact_path;
use panpan::paths::jni_libs_dir;
use panpan::paths::placed_library_path;
use panpan::pipeline::target_profiles;
use panpan::pipeline::Action;
use panpan::pipeline::Pipeline;
use panpan::pipeline::Stage;
use panpan::pipeline::StageError;
use panpan::pipeline::StageEvent;
use panpan::placement::FileStore;

#[test]
fn profiles_are_the_fixed_ordered_table() {
    let profiles = target_profiles();
    assert_eq!(profiles.len(), 2);
    assert_eq!(profiles[0].abi, "arm64-v8a");
    assert_eq!(profiles[0].triple, "aarch64-linux-android");
    assert_eq!(profiles[1].abi, "armeabi-v7a");
    assert_eq!(profiles[1].triple, "armv7-linux-androideabi");
}

#[test]
fn full_run_succeeds_with_two_libraries_and_a_bundle() {
    // A module exporting all three entry points: discovery finds them,
    // both architectures build and place, packaging succeeds.
    let src = "pub fn init() {}\npub fn resize(w: i32, h: i32) {}\npub fn render() {}\n";
    let fns = parse_exportable_functions(src);
    assert_eq!(fns, vec!["init", "resize", "render"]);

    let profiles = target_profiles();
    let mut p = Pipeline::new(profiles.len(), false);
    assert_eq!(p.next_action(), Action::RunDiscovery);
    p.step(StageEvent::Discovered { entry_file_found: true });
    assert_eq!(p.next_action(), Action::WriteBridge);
    p.step(StageEvent::Generated { write_ok: true });
    assert_eq!(p.next_action(), Action::RunToolchain { index: 0 });
    p.step(StageEvent::Built { exit_ok: true });
    assert_eq!(p.next_action(), Action::RunToolchain { index: 1 });
    p.step(StageEvent::Built { exit_ok: true });

    let mut store = FileStore::new();
    for i in 0..profiles.len() {
        assert_eq!(p.next_action(), Action::PlaceArtifact { index: i });
        let dest = placed_library_path(&jni_libs_dir("android", &profiles[i].abi));
        store.place(dest, vec![i as u8]);
        p.step(StageEvent::Placed { artifact_present: true });
    }
    assert_eq!(p.next_action(), Action::RunPackager);
    p.step(StageEvent::Packaged { exit_ok: true });
    assert_eq!(p.next_action(), Action::Stop { success: true });
    assert_eq!(p.placed, 2);
    assert_eq!(p.warnings, 0);
    assert!(store.lookup("android/app/src/main/jniLibs/arm64-v8a/libpanpan.so").is_some());
    assert!(store.lookup("android/app/src/main/jniLibs/armeabi-v7a/libpanpan.so").is_some());
}

#[test]
fn render_only_module_still_reaches_a_bundle() {
    let src = "pub fn render() {}\n";
    let fns = parse_exportable_functions(src);
    let bridge = panpan::bridge::generate_librs_with_opengl("solo", &fns);
    assert!(bridge.contains("solo::render();"));
    assert!(bridge.contains("// No init() function found in user crate"));
    assert!(bridge.contains("// No resize() function found in user crate"));

    let mut p = Pipeline::new(2, false);
    p.step(StageEvent::Discovered { entry_file_found: true });
    p.step(StageEvent::Generated { write_ok: true });
    p.step(StageEvent::Built { exit_ok: true });
    p.step(StageEvent::Built { exit_ok: true });
    p.step(StageEvent::Placed { artifact_present: true });
    p.step(StageEvent::Placed { artifact_present: true });
    p.step(StageEvent::Packaged { exit_ok: true });
    assert_eq!(p.next_action(), Action::Stop { success: true });
}

#[test]
fn first_toolchain_failure_aborts_before_second_build_and_packaging() {
    let mut p = Pipeline::new(2, false);
    p.step(StageEvent::Discovered { entry_file_found: true });
    p.step(StageEvent::Generated { write_ok: true });
    assert_eq!(p.next_action(), Action::RunToolchain { index: 0 });
    p.step(StageEvent::Built { exit_ok: false });
    assert_eq!(p.stage, Stage::Failed { error: StageError::Toolchain { index: 0 } });
    assert_eq!(p.next_action(), Action::Stop { success: false });
    // Nothing was placed: no architecture library and no bundle.
    assert_eq!(p.placed, 0);
}

#[test]
fn missing_artifact_logs_one_warning_and_packaging_still_runs() {
    let profiles = target_profiles();
    let mut p = Pipeline::new(profiles.len(), false);
    p.step(StageEvent::Discovered { entry_file_found: true });
    p.step(StageEvent::Generated { write_ok: true });
    p.step(StageEvent::Built { exit_ok: true });
    p.step(StageEvent::Built { exit_ok: true });

    let mut store = FileStore::new();
    // The first architecture's artifact is present and is placed; the
    // second is absent at its deterministic path.
    let built = artifact_path("/work/game", &profiles[0].triple, false);
    assert_eq!(built, "/work/game/target/aarch64-linux-android/debug/libpanpan_jni.so");
    let dest = placed_library_path(&jni_libs_dir("android", &profiles[0].abi));
    store.place(dest, vec![1, 2, 3]);
    p.step(StageEvent::Placed { artifact_present: true });
    p.step(StageEvent::Placed { artifact_present: false });
    assert_eq!(p.warnings, 1);
    assert_eq!(p.placed, 1);

    assert_eq!(p.next_action(), Action::RunPackager);
    p.step(StageEvent::Packaged { exit_ok: true });
    assert_eq!(p.next_action(), Action::Stop { success: true });
    // The bundle tree holds only the present architecture's library.
    assert!(store.lookup("android/app/src/main/jniLibs/arm64-v8a/libpanpan.so").is_some());
    assert!(store.lookup("android/app/src/main/jniLibs/armeabi-v7a/libpanpan.so").is_none());
}

#[test]
fn missing_entry_file_fails_before_generation() {
    let mut p = Pipeline::new(2, false);
    p.step(StageEvent::Discovered { entry_file_found: false });
    assert_eq!(p.stage, Stage::Failed { error: StageError::MissingEntryFile });
    assert_eq!(p.next_action(), Action::Stop { success: false });
}

#[test]
fn generation_write_failure_is_fatal() {
    let mut p = Pipeline::new(2, false);
    p.step(StageEvent::Discovered { entry_file_found: true });
    p.step(StageEvent::Generated { write_ok: false });
    assert_eq!(p.stage, Stage::Failed { error: StageError::GenerationWrite });
}

#[test]
fn packaging_failure_is_fatal() {
    let mut p = Pipeline::new(0, false);
    p.step(StageEvent::Discovered { entry_file_found: true });
    p.step(StageEvent::Generated { write_ok: true });
    assert_eq!(p.next_action(), Action::RunPackager);
    p.step(StageEvent::Packaged { exit_ok: false });
    assert_eq!(p.stage, Stage::Failed { error: StageError::Packaging });
    assert_eq!(p.next_action(), Action::Stop { success: false });
}

#[test]
fn deploy_failure_does_not_invalidate_the_bundle() {
    let mut p = Pipeline::new(0, true);
    p.step(StageEvent::Discovered { entry_file_found: true });
    p.step(StageEvent::Generated { write_ok: true });
    p.step(StageEvent::Packaged { exit_ok: true });
    assert_eq!(p.next_action(), Action::RunDeployer);
    p.step(StageEvent::Deployed { exit_ok: false });
    assert_eq!(p.stage, Stage::Succeeded);
    assert!(p.deploy_failed);
    assert_eq!(p.next_action(), Action::Stop { success: true });
}
