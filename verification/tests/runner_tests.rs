use panpan::runner::engine_dep_line;
use panpan::runner::generate_bridge_cargo_toml;
use panpan::runner::generate_bridge_project;
use panpan::runner::generate_runner_cargo_toml;
use panpan::runner::generate_runner_main;
use panpan::runner::RUNNER_MAIN_SEG_A;
use panpan::runner::RUNNER_MAIN_SEG_B;
use panpan::runner::RUNNER_MAIN_SEG_C;
use panpan::runner::RUNNER_MAIN_SEG_D;
use panpan::runner::RUNNER_MAIN_SEG_E;

#[test]
fn runner_main_splices_module_name_four_times() {
    let out = generate_runner_main("my_game");
    let expected = format!(
        "{RUNNER_MAIN_SEG_A}my_game{RUNNER_MAIN_SEG_B}my_game{RUNNER_MAIN_SEG_C}my_game{RUNNER_MAIN_SEG_D}my_game{RUNNER_MAIN_SEG_E}"
    );
    assert_eq!(out, expected);
    assert!(out.contains("my_game::init();"));
    assert!(out.contains("my_game::render();"));
    assert_eq!(out.matches("my_game::resize(").count(), 2);
}

#[test]
fn runner_main_is_deterministic() {
    assert_eq!(generate_runner_main("g"), generate_runner_main("g"));
}

#[test]
fn runner_manifest_names_the_module() {
    let out = generate_runner_cargo_toml("my_game");
    assert!(out.starts_with("[package]\nname = \"panpan_desktop_runner\""));
    assert!(out.contains("my_game = { path = \"../..\" }"));
    assert!(out.contains("winit = \"0.30.12\""));
}

#[test]
fn engine_dep_line_wraps_the_path() {
    let p = "../../panpan".to_string();
    assert_eq!(engine_dep_line(Some(&p)), "panpan = { path = \"../../panpan\" }\n");
    assert_eq!(engine_dep_line(None), "");
}

#[test]
fn bridge_manifest_embeds_dependency_line() {
    let dep = "panpan = { path = \"../../panpan\" }\n";
    let out = generate_bridge_cargo_toml("demo_game", dep);
    assert!(out.starts_with("[package]\nname = \"panpan_jni\""));
    assert!(out.contains("jni = \"0.21\""));
    assert!(out.contains(dep));
    assert!(out.ends_with("demo_game = { path = \"../..\" }\n"));
}

#[test]
fn bridge_manifest_without_engine_module() {
    let out = generate_bridge_cargo_toml("demo_game", "");
    assert!(!out.contains("panpan = { path"));
    assert!(out.ends_with("demo_game = { path = \"../..\" }\n"));
}

#[test]
fn whole_bridge_project_is_assembled() {
    let fns = vec!["render".to_string()];
    let engine_ref = "../../panpan".to_string();
    let project = generate_bridge_project("demo_game", &fns, Some(&engine_ref));
    assert!(project.cargo_toml.contains("panpan = { path = \"../../panpan\" }"));
    assert!(project.lib_rs.contains("demo_game::render();"));

    let bare = generate_bridge_project("demo_game", &fns, None);
    assert!(!bare.cargo_toml.contains("panpan = { path"));
    assert_eq!(bare.lib_rs, project.lib_rs);
}
