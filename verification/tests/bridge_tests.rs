use panpan::bridge::generate_librs_with_opengl;
use panpan::bridge::BRIDGE_FRAGMENT_SHADER_BLOCK;
use panpan::bridge::BRIDGE_LOGGING_BLOCK;
use panpan::bridge::BRIDGE_NATIVE_INIT_BLOCK;
use panpan::bridge::BRIDGE_NATIVE_RENDER_BLOCK;
use panpan::bridge::BRIDGE_NATIVE_RESIZE_BLOCK;
use panpan::bridge::BRIDGE_RUNTIME;
use panpan::bridge::BRIDGE_VERTEX_SHADER_BLOCK;
use panpan::bridge::CALL_INIT;
use panpan::bridge::CALL_RENDER;
use panpan::bridge::CALL_RESIZE;
use panpan::bridge::FORWARD_INIT_CLOSE;
use panpan::bridge::FORWARD_INIT_OPEN;
use panpan::bridge::FORWARD_RENDER_CLOSE;
use panpan::bridge::FORWARD_RENDER_OPEN;
use panpan::bridge::FORWARD_RESIZE_CLOSE;
use panpan::bridge::FORWARD_RESIZE_OPEN;
use panpan::bridge::STUB_INIT;
use panpan::bridge::STUB_RENDER;
use panpan::bridge::STUB_RESIZE;
use panpan::bridge::SYMBOL_CLOSE;
use panpan::bridge::SYMBOL_CLOSE_LAST;

fn strings(names: &[&str]) -> Vec<String> {
    names.iter().map(|s| s.to_string()).collect()
}

#[test]
fn full_module_bridge_is_exact() {
    let fns = strings(&["init", "resize", "render"]);
    let out = generate_librs_with_opengl("demo_game", &fns);
    let expected = format!(
        "{BRIDGE_RUNTIME}{BRIDGE_VERTEX_SHADER_BLOCK}{BRIDGE_FRAGMENT_SHADER_BLOCK}{BRIDGE_LOGGING_BLOCK}\
{FORWARD_INIT_OPEN}demo_game{FORWARD_INIT_CLOSE}\
{FORWARD_RESIZE_OPEN}demo_game{FORWARD_RESIZE_CLOSE}\
{FORWARD_RENDER_OPEN}demo_game{FORWARD_RENDER_CLOSE}\
{BRIDGE_NATIVE_INIT_BLOCK}{CALL_INIT}{SYMBOL_CLOSE}\
{BRIDGE_NATIVE_RESIZE_BLOCK}{CALL_RESIZE}{SYMBOL_CLOSE}\
{BRIDGE_NATIVE_RENDER_BLOCK}{CALL_RENDER}{SYMBOL_CLOSE_LAST}"
    );
    assert_eq!(out, expected);
}

#[test]
fn render_only_bridge_has_one_forwarder_and_two_stubs() {
    let fns = strings(&["render", "something_else"]);
    let out = generate_librs_with_opengl("mini", &fns);
    assert_eq!(out.matches("pub extern \"C\" fn panpan_user_").count(), 1);
    assert!(out.contains("pub extern \"C\" fn panpan_user_render()"));
    assert!(out.contains("mini::render();"));
    assert!(out.contains(STUB_INIT));
    assert!(out.contains(STUB_RESIZE));
    assert!(!out.contains(CALL_INIT));
    assert!(!out.contains("panpan_user_resize(width as i32, height as i32);"));
    assert!(out.contains(CALL_RENDER));
    // The absent entry points are never referenced: the output stands
    // on its own as a loadable unit.
    assert!(!out.contains("panpan_user_init"));
    assert!(!out.contains("panpan_user_resize"));
}

#[test]
fn native_symbols_guard_graphics_setup_once() {
    let out = generate_librs_with_opengl("demo", &strings(&["init", "resize", "render"]));
    // One one-shot flag guards the platform graphics setup, beside the
    // logger's own.
    assert!(out.contains("static INIT_GRAPHICS: Once = Once::new();"));
    assert!(out.contains("INIT_GRAPHICS.call_once(|| unsafe {"));
    assert_eq!(out.matches(".call_once(").count(), 2);
    // The setup appears once, inside the guard, and every native entry
    // symbol runs the guarded setup before forwarding.
    assert_eq!(out.matches("gl::load_with(").count(), 1);
    assert_eq!(out.matches("    ensure_graphics();\n").count(), 3);
}

#[test]
fn empty_module_bridge_is_all_stubs() {
    let fns = strings(&[]);
    let out = generate_librs_with_opengl("bare", &fns);
    assert_eq!(out.matches("pub extern \"C\" fn panpan_user_").count(), 0);
    assert!(out.contains(STUB_INIT));
    assert!(out.contains(STUB_RESIZE));
    assert!(out.contains(STUB_RENDER));
    assert!(!out.contains("bare::"));
}

#[test]
fn generation_is_deterministic_across_ordering_and_repeats() {
    let a = strings(&["init", "render", "resize"]);
    let b = strings(&["resize", "resize", "render", "init", "init"]);
    let out_a = generate_librs_with_opengl("same_mod", &a);
    let out_b = generate_librs_with_opengl("same_mod", &b);
    assert_eq!(out_a, out_b);
}

#[test]
fn module_name_is_spliced_into_forwarders() {
    let fns = strings(&["init"]);
    let out = generate_librs_with_opengl("named_mod", &fns);
    assert!(out.contains("named_mod::init();"));
    let other = generate_librs_with_opengl("other_mod", &fns);
    assert_ne!(out, other);
}

#[test]
fn bridge_embeds_renderer_and_shaders() {
    let out = generate_librs_with_opengl("demo", &strings(&["render"]));
    assert!(out.contains("struct TextRenderer"));
    assert!(out.contains("const VERTEX_SHADER"));
    assert!(out.contains("const FRAGMENT_SHADER"));
    assert!(out.contains("fn load_font_atlas"));
    assert!(out.contains("Java_com_lucidum_panpan_MainActivity_nativeInit"));
    assert!(out.contains("Java_com_lucidum_panpan_MainActivity_nativeResize"));
    assert!(out.contains("Java_com_lucidum_panpan_MainActivity_nativeRender"));
}
