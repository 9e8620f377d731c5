//! Desktop runner generation: synthesizes a small host program that
//! opens a window, creates a graphics context, and forwards the window
//! lifecycle to a game module's entry points; and the manifests of the
//! two generated projects (the desktop runner and the native bridge).
//! All of it is pure text assembly: equal inputs give identical output.

use vstd::prelude::*;
use vstd::string::StringExecFns;

verus! {

/// Desktop runner source up to the first splice of the module name
/// (the call of its init entry point).
pub const RUNNER_MAIN_SEG_A: &'static str = r#"
use winit::application::ApplicationHandler;
use winit::event::WindowEvent;
use winit::event_loop::{ActiveEventLoop, ControlFlow, EventLoop};
use winit::window::{Window, WindowId, WindowAttributes};
use glutin::config::ConfigTemplateBuilder;
use glutin::context::{ContextApi, ContextAttributesBuilder, PossiblyCurrentContext, Version};
use glutin::display::{Display, GetGlDisplay};
use glutin::prelude::*;
use glutin::surface::{Surface, SurfaceAttributesBuilder, WindowSurface};
use glutin_winit::DisplayBuilder;
use raw_window_handle::HasWindowHandle;
use std::num::NonZeroU32;

struct App {
    window: Option<Window>,
    gl_context: Option<PossiblyCurrentContext>,
    gl_surface: Option<Surface<WindowSurface>>,
    gl_display: Option<Display>,
}

impl App {
    fn new() -> Self {
        Self {
            window: None,
            gl_context: None,
            gl_surface: None,
            gl_display: None,
        }
    }
}

impl ApplicationHandler for App {
    fn resumed(&mut self, event_loop: &ActiveEventLoop) {
        if self.window.is_some() {
            return;
        }

        let window_attributes = WindowAttributes::default()
            .with_title("PanPan Demo")
            .with_inner_size(winit::dpi::LogicalSize::new(800.0, 600.0));

        let template = ConfigTemplateBuilder::new()
            .with_alpha_size(8)
            .with_transparency(false);

        let display_builder = DisplayBuilder::new();

        let (window, gl_config) = display_builder
            .build(event_loop, template, |configs| {
                configs
                    .reduce(|accum, config| {
                        if config.num_samples() > accum.num_samples() {
                            config
                        } else {
                            accum
                        }
                    })
                    .unwrap()
            })
            .unwrap();

        let window = window.unwrap_or_else(|| {
            event_loop.create_window(window_attributes).unwrap()
        });

        let gl_display = gl_config.display();

        let raw_window_handle = window.window_handle().unwrap().as_raw();

        let context_attributes = ContextAttributesBuilder::new()
            .with_context_api(ContextApi::OpenGl(Some(Version::new(3, 3))))
            .build(Some(raw_window_handle));

        let not_current_gl_context = unsafe {
            gl_display
                .create_context(&gl_config, &context_attributes)
                .unwrap()
        };

        let size = window.inner_size();
        let width = NonZeroU32::new(size.width).unwrap();
        let height = NonZeroU32::new(size.height).unwrap();

        let attrs = SurfaceAttributesBuilder::<WindowSurface>::new().build(
            raw_window_handle,
            width,
            height,
        );

        let gl_surface = unsafe {
            gl_display
                .create_window_surface(&gl_config, &attrs)
                .unwrap()
        };

        let gl_context = not_current_gl_context.make_current(&gl_surface).unwrap();

        let gl = unsafe {
            glow::Context::from_loader_function(|s| {
                gl_display.get_proc_address(&std::ffi::CString::new(s).unwrap())
            })
        };

        println!("OpenGL context created");

        // Initialize panpan with the GL context
        panpan::init(Some(gl));
        println!("Panpan initialized");

        // Call user's init
        "#;

/// Runner source between the init call and the initial resize call.
pub const RUNNER_MAIN_SEG_B: &'static str = r#"::init();
        println!("User init complete");

        // Initial resize
        "#;

/// Runner source between the initial resize call and the resize call of
/// the window event handler.
pub const RUNNER_MAIN_SEG_C: &'static str = r#"::resize(size.width as i32, size.height as i32);
        println!("Window size: {}x{}", size.width, size.height);

        self.window = Some(window);
        self.gl_context = Some(gl_context);
        self.gl_surface = Some(gl_surface);
        self.gl_display = Some(gl_display);
    }

    fn window_event(&mut self, event_loop: &ActiveEventLoop, _window_id: WindowId, event: WindowEvent) {
        match event {
            WindowEvent::CloseRequested => {
                event_loop.exit();
            }
            WindowEvent::Resized(size) => {
                println!("Resized: {}x{}", size.width, size.height);
                if let (Some(gl_surface), Some(gl_context)) = (&self.gl_surface, &self.gl_context) {
                    let width = NonZeroU32::new(size.width).unwrap_or(NonZeroU32::new(1).unwrap());
                    let height = NonZeroU32::new(size.height).unwrap_or(NonZeroU32::new(1).unwrap());
                    gl_surface.resize(gl_context, width, height);
                    "#;

/// Runner source between the resize call and the render call.
pub const RUNNER_MAIN_SEG_D: &'static str = r#"::resize(size.width as i32, size.height as i32);
                }
            }
            WindowEvent::RedrawRequested => {
                "#;

/// Runner source after the last splice of the module name.
pub const RUNNER_MAIN_SEG_E: &'static str = r#"::render();
                if let (Some(gl_surface), Some(gl_context)) = (&self.gl_surface, &self.gl_context) {
                    gl_surface.swap_buffers(gl_context).unwrap();
                }
                if let Some(window) = &self.window {
                    window.request_redraw();
                }
            }
            _ => {}
        }
    }

    fn about_to_wait(&mut self, _event_loop: &ActiveEventLoop) {
        if let Some(window) = &self.window {
            window.request_redraw();
        }
    }
}

fn main() {
    println!("Starting PanPan Desktop Runner...");

    let event_loop = EventLoop::new().unwrap();
    event_loop.set_control_flow(ControlFlow::Poll);

    let mut app = App::new();
    event_loop.run_app(&mut app).unwrap();
}
"#;

/// Manifest of the generated desktop runner project, up to the line
/// that names the game module as a dependency.
pub const RUNNER_TOML_OPEN: &'static str = "[package]\nname = \"panpan_desktop_runner\"\nversion = \"0.1.0\"\nedition = \"2021\"\n\n[dependencies]\n";

/// Rest of the runner manifest, after the game module's name.
pub const RUNNER_TOML_CLOSE: &'static str = " = { path = \"../..\" }\npanpan = { path = \"../../../panpan\", features = [\"desktop\"] }\nwinit = \"0.30.12\"\nglutin = \"0.32.3\"\nglutin-winit = \"0.5\"\nraw-window-handle = \"0.6\"\nglow = \"0.16.0\"\n";

/// Manifest of the generated bridge project, up to the spliced
/// engine-module dependency line and the game module's name.
pub const BRIDGE_TOML_OPEN: &'static str = "[package]\nname = \"panpan_jni\"\nversion = \"0.1.0\"\nedition = \"2021\"\n\n[lib]\ncrate-type = [\"cdylib\"]\n\n[dependencies]\njni = \"0.21\"\ngl = \"0.14\"\nandroid_logger = \"0.13\"\nlog = \"0.4\"\n";

/// Rest of the bridge manifest, after the game module's name.
pub const BRIDGE_TOML_CLOSE: &'static str = " = { path = \"../..\" }\n";

/// Opening of the engine-module dependency line of the bridge manifest.
pub const ENGINE_DEP_OPEN: &'static str = "panpan = { path = \"";

/// Close of the engine-module dependency line.
pub const ENGINE_DEP_CLOSE: &'static str = "\" }\n";

/// The generated desktop runner source for a module: the fixed host
/// program with the module's name spliced in at its four forwarding
/// call sites (init, the initial resize, the event-driven resize, and
/// render).
pub open spec fn runner_main_source(module: Seq<char>) -> Seq<char> {
    RUNNER_MAIN_SEG_A@ + module + RUNNER_MAIN_SEG_B@ + module + RUNNER_MAIN_SEG_C@ + module
        + RUNNER_MAIN_SEG_D@ + module + RUNNER_MAIN_SEG_E@
}

/// Synthesizes the desktop runner source for the module named
/// `crate_name`.
pub fn generate_runner_main(crate_name: &str) -> (r: String)
    ensures
        r@ == runner_main_source(crate_name@),
{
    let mut code = String::new();
    code.append(RUNNER_MAIN_SEG_A);
    code.append(crate_name);
    code.append(RUNNER_MAIN_SEG_B);
    code.append(crate_name);
    code.append(RUNNER_MAIN_SEG_C);
    code.append(crate_name);
    code.append(RUNNER_MAIN_SEG_D);
    code.append(crate_name);
    code.append(RUNNER_MAIN_SEG_E);
    proof {
        assert(code@ =~= runner_main_source(crate_name@));
    }
    code
}

/// The manifest text of the generated desktop runner project.
pub open spec fn runner_cargo_toml_text(module: Seq<char>) -> Seq<char> {
    RUNNER_TOML_OPEN@ + module + RUNNER_TOML_CLOSE@
}

/// Synthesizes the manifest of the generated desktop runner project,
/// which depends on the game module by relative path.
pub fn generate_runner_cargo_toml(crate_name: &str) -> (r: String)
    ensures
        r@ == runner_cargo_toml_text(crate_name@),
{
    let mut s = String::new();
    s.append(RUNNER_TOML_OPEN);
    s.append(crate_name);
    s.append(RUNNER_TOML_CLOSE);
    proof {
        assert(s@ =~= runner_cargo_toml_text(crate_name@));
    }
    s
}

/// The engine-module dependency line of the bridge manifest, for a
/// given relative path text.
pub open spec fn engine_dep_line_text(rel_path: Seq<char>) -> Seq<char> {
    ENGINE_DEP_OPEN@ + rel_path + ENGINE_DEP_CLOSE@
}

/// Builds the engine-module dependency line for the path the bridge
/// manifest refers to the engine module by; empty when no engine
/// module is present beside the game module, so that the bridge
/// manifest simply omits the dependency.
pub fn engine_dep_line(rel_path: Option<&String>) -> (r: String)
    ensures
        match rel_path {
            Some(p) => r@ == engine_dep_line_text(p@),
            None => r@ == Seq::<char>::empty(),
        },
{
    match rel_path {
        Some(p) => {
            let mut s = String::new();
            s.append(ENGINE_DEP_OPEN);
            s.append(p.as_str());
            s.append(ENGINE_DEP_CLOSE);
            proof {
                assert(s@ =~= engine_dep_line_text(p@));
            }
            s
        },
        None => String::new(),
    }
}

/// The manifest text of the generated bridge project: its fixed
/// dependencies, then the engine-module dependency line (or nothing),
/// then the game module as a dependency by relative path.
pub open spec fn bridge_cargo_toml_text(module: Seq<char>, engine_dep: Seq<char>) -> Seq<char> {
    BRIDGE_TOML_OPEN@ + engine_dep + module + BRIDGE_TOML_CLOSE@
}

/// Synthesizes the manifest of the generated bridge project.
pub fn generate_bridge_cargo_toml(crate_name: &str, engine_dep: &str) -> (r: String)
    ensures
        r@ == bridge_cargo_toml_text(crate_name@, engine_dep@),
{
    let mut s = String::new();
    s.append(BRIDGE_TOML_OPEN);
    s.append(engine_dep);
    s.append(crate_name);
    s.append(BRIDGE_TOML_CLOSE);
    proof {
        assert(s@ =~= bridge_cargo_toml_text(crate_name@, engine_dep@));
    }
    s
}

/// The two generated files of the bridge project: its manifest and its
/// source.
pub struct GeneratedProject {
    pub cargo_toml: String,
    pub lib_rs: String,
}

/// Synthesizes the whole bridge project for a module: the bridge source
/// for the entry points discovery found, and the project manifest, with
/// the engine-module dependency line spliced in when an engine module
/// reference is at hand.
pub fn generate_bridge_project(
    crate_name: &str,
    fns: &Vec<String>,
    engine_ref: Option<&String>,
) -> (r: GeneratedProject)
    ensures
        r.lib_rs@ == crate::bridge::bridge_source_of(
            crate::bridge::BridgeSpec { module_id: crate_name@, entry_points: fns.deep_view() },
        ),
        r.cargo_toml@ == bridge_cargo_toml_text(
            crate_name@,
            match engine_ref {
                Some(p) => engine_dep_line_text(p@),
                None => Seq::<char>::empty(),
            },
        ),
{
    let dep = engine_dep_line(engine_ref);
    let cargo_toml = generate_bridge_cargo_toml(crate_name, dep.as_str());
    let lib_rs = crate::bridge::generate_librs_with_opengl(crate_name, fns);
    GeneratedProject { cargo_toml, lib_rs }
}

} // verus!
