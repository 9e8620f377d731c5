//! Bridge source generation: synthesizes, as one self-contained source
//! unit, the native bridge a mobile runtime loads for a game module. The
//! output embeds a minimal glyph-atlas text renderer (shader sources,
//! vertex buffer setup, procedural bitmap atlas), one forwarding function
//! per entry point the module exposes (a commented stub where one is
//! absent, so an incomplete module still yields a loadable bridge), and
//! the three platform-convention native entry symbols, each of which
//! performs the platform graphics setup exactly once on first call,
//! guarded by a one-shot flag, before forwarding.
//!
//! Generation is a pure function of the module identifier and the set of
//! discovered entry points: equal inputs give byte-identical output.

use vstd::prelude::*;
use vstd::string::StringExecFns;

verus! {

/// Embedded text renderer of the generated bridge: imports, shared state,
/// glyph-atlas builder and draw routine.
pub const BRIDGE_RUNTIME: &'static str = r#"
use jni::objects::JClass;
use jni::sys::jint;
use jni::JNIEnv;
use std::ffi::CString;
use std::sync::{Mutex, Once};

// OpenGL function loader
extern "C" {
    fn eglGetProcAddress(procname: *const std::os::raw::c_char) -> *const std::os::raw::c_void;
}

// Global text renderer
static TEXT_RENDERER: Mutex<Option<TextRenderer>> = Mutex::new(None);
static mut SCREEN_WIDTH: f32 = 800.0;
static mut SCREEN_HEIGHT: f32 = 600.0;

struct TextRenderer {
    shader_program: u32,
    vao: u32,
    vbo: u32,
    texture: u32,
}

impl TextRenderer {
    fn new() -> Self {
        unsafe {
            let vs = Self::compile_shader(VERTEX_SHADER, gl::VERTEX_SHADER);
            let fs = Self::compile_shader(FRAGMENT_SHADER, gl::FRAGMENT_SHADER);
            let program = gl::CreateProgram();
            gl::AttachShader(program, vs);
            gl::AttachShader(program, fs);
            gl::LinkProgram(program);
            gl::DeleteShader(vs);
            gl::DeleteShader(fs);

            let mut vao = 0;
            let mut vbo = 0;
            gl::GenVertexArrays(1, &mut vao);
            gl::GenBuffers(1, &mut vbo);
            gl::BindVertexArray(vao);
            gl::BindBuffer(gl::ARRAY_BUFFER, vbo);
            gl::BufferData(
                gl::ARRAY_BUFFER,
                (6 * 4 * std::mem::size_of::<f32>()) as isize,
                std::ptr::null(),
                gl::DYNAMIC_DRAW,
            );
            gl::EnableVertexAttribArray(0);
            gl::VertexAttribPointer(
                0,
                4,
                gl::FLOAT,
                gl::FALSE,
                (4 * std::mem::size_of::<f32>()) as i32,
                std::ptr::null(),
            );
            gl::BindBuffer(gl::ARRAY_BUFFER, 0);
            gl::BindVertexArray(0);

            let mut texture = 0;
            gl::GenTextures(1, &mut texture);
            gl::BindTexture(gl::TEXTURE_2D, texture);
            gl::TexParameteri(gl::TEXTURE_2D, gl::TEXTURE_WRAP_S, gl::CLAMP_TO_EDGE as i32);
            gl::TexParameteri(gl::TEXTURE_2D, gl::TEXTURE_WRAP_T, gl::CLAMP_TO_EDGE as i32);
            gl::TexParameteri(gl::TEXTURE_2D, gl::TEXTURE_MIN_FILTER, gl::NEAREST as i32);
            gl::TexParameteri(gl::TEXTURE_2D, gl::TEXTURE_MAG_FILTER, gl::NEAREST as i32);

            Self::load_font_atlas(texture);
            Self { shader_program: program, vao, vbo, texture }
        }
    }

    unsafe fn compile_shader(src: &str, ty: u32) -> u32 {
        let shader = gl::CreateShader(ty);
        let c_str = CString::new(src.as_bytes()).unwrap();
        gl::ShaderSource(shader, 1, &c_str.as_ptr(), std::ptr::null());
        gl::CompileShader(shader);
        shader
    }

    unsafe fn load_font_atlas(texture: u32) {
        const W: usize = 128;
        const H: usize = 48;
        let mut atlas = vec![0u8; W * H];

        for ch in 0..96 {
            let cx = (ch % 16) * 8;
            let cy = (ch / 16) * 8;
            for y in 1..7 {
                for x in 1..7 {
                    atlas[(cy + y) * W + (cx + x)] = 255;
                }
            }
        }

        gl::BindTexture(gl::TEXTURE_2D, texture);
        gl::TexImage2D(
            gl::TEXTURE_2D,
            0,
            gl::RED as i32,
            W as i32,
            H as i32,
            0,
            gl::RED,
            gl::UNSIGNED_BYTE,
            atlas.as_ptr() as *const _,
        );
    }

    fn render(&mut self, text: &str, x: f32, y: f32, scale: f32, color: [f32; 4], sw: f32, sh: f32) {
        unsafe {
            gl::Enable(gl::BLEND);
            gl::BlendFunc(gl::SRC_ALPHA, gl::ONE_MINUS_SRC_ALPHA);
            gl::UseProgram(self.shader_program);

            let color_loc = gl::GetUniformLocation(
                self.shader_program,
                CString::new("textColor").unwrap().as_ptr()
            );
            gl::Uniform4f(color_loc, color[0], color[1], color[2], color[3]);

            let proj_loc = gl::GetUniformLocation(
                self.shader_program,
                CString::new("projection").unwrap().as_ptr()
            );
            let proj = [
                2.0/sw, 0.0,    0.0, 0.0,
                0.0,  -2.0/sh, 0.0, 0.0,
                0.0,   0.0,   -1.0, 0.0,
                -1.0,  1.0,    0.0, 1.0,
            ];
            gl::UniformMatrix4fv(proj_loc, 1, gl::FALSE, proj.as_ptr());

            gl::ActiveTexture(gl::TEXTURE0);
            gl::BindTexture(gl::TEXTURE_2D, self.texture);
            gl::BindVertexArray(self.vao);

            let cw = 8.0 * scale;
            let ch = 8.0 * scale;

            for (i, c) in text.chars().enumerate() {
                let code = c as i32;
                if code < 32 || code > 127 { continue; }
                let idx = code - 32;
                let tx = (idx % 16) as f32 / 16.0;
                let ty = (idx / 16) as f32 / 6.0;
                let tw = 1.0 / 16.0;
                let th = 1.0 / 6.0;

                let xp = x + (i as f32) * cw;
                let yp = y;

                let verts: [f32; 24] = [
                    xp, yp+ch, tx,    ty,
                    xp, yp,    tx,    ty+th,
                    xp+cw, yp, tx+tw, ty+th,

                    xp, yp+ch, tx,    ty,
                    xp+cw, yp, tx+tw, ty+th,
                    xp+cw, yp+ch, tx+tw, ty,
                ];

                gl::BindBuffer(gl::ARRAY_BUFFER, self.vbo);
                gl::BufferSubData(
                    gl::ARRAY_BUFFER,
                    0,
                    (verts.len() * std::mem::size_of::<f32>()) as isize,
                    verts.as_ptr() as *const _
                );
                gl::DrawArrays(gl::TRIANGLES, 0, 6);
            }

            gl::BindVertexArray(0);
            gl::BindTexture(gl::TEXTURE_2D, 0);
            gl::Disable(gl::BLEND);
        }
    }
}
"#;

/// Vertex shader constant embedded in the generated bridge.
pub const BRIDGE_VERTEX_SHADER_BLOCK: &'static str = r####"
const VERTEX_SHADER: &str = r###"#version 300 es
layout (location = 0) in vec4 vertex;
out vec2 TexCoords;
uniform mat4 projection;
void main() {
    gl_Position = projection * vec4(vertex.xy, 0.0, 1.0);
    TexCoords = vertex.zw;
}
"###;

"####;

/// Fragment shader constant embedded in the generated bridge.
pub const BRIDGE_FRAGMENT_SHADER_BLOCK: &'static str = r####"const FRAGMENT_SHADER: &str = r###"#version 300 es
precision mediump float;
in vec2 TexCoords;
out vec4 color;
uniform sampler2D text;
uniform vec4 textColor;
void main() {
    float alpha = texture(text, TexCoords).r;
    color = vec4(textColor.rgb, textColor.a * alpha);
}
"###;

"####;

/// One-shot logging setup of the generated bridge.
pub const BRIDGE_LOGGING_BLOCK: &'static str = r#"
static INIT_LOGGER: Once = Once::new();

fn init_logging() {
    INIT_LOGGER.call_once(|| {
        android_logger::init_once(
            android_logger::Config::default()
                .with_max_level(log::LevelFilter::Debug)
                .with_tag("PanPan")
        );
    });
}

// Wrapper functions to call user code
"#;

/// Text-draw entry symbol, the one-shot platform graphics setup every
/// native entry symbol runs first, and the opening of the native init
/// symbol, up to the point where the forwarding call (or its stub) is
/// spliced in.
pub const BRIDGE_NATIVE_INIT_BLOCK: &'static str = r#"
#[no_mangle]
pub extern "C" fn panpan_draw_text(
    text_ptr: *const u8,
    text_len: usize,
    x: f32,
    y: f32,
    scale: f32,
    red: f32,
    green: f32,
    blue: f32,
    alpha: f32,
) {
    let text = unsafe {
        std::str::from_utf8_unchecked(std::slice::from_raw_parts(text_ptr, text_len))
    };
    
    if let Ok(mut renderer) = TEXT_RENDERER.lock() {
        if let Some(ref mut r) = *renderer {
            unsafe {
                r.render(text, x, y, scale, [red, green, blue, alpha], SCREEN_WIDTH, SCREEN_HEIGHT);
            }
        }
    }
}

// One-shot platform graphics setup: whichever native entry symbol is
// called first loads the GL functions, sets the clear state and builds
// the text renderer, exactly once for the process.
static INIT_GRAPHICS: Once = Once::new();

fn ensure_graphics() {
    INIT_GRAPHICS.call_once(|| unsafe {
        gl::load_with(|s| {
            let c_str = CString::new(s).unwrap();
            eglGetProcAddress(c_str.as_ptr()) as *const _
        });

        gl::ClearColor(0.1, 0.2, 0.3, 1.0);
        gl::Enable(gl::DEPTH_TEST);
        gl::DepthFunc(gl::LEQUAL);

        if let Ok(mut renderer) = TEXT_RENDERER.lock() {
            *renderer = Some(TextRenderer::new());
        }
    });
}

// JNI ENTRYPOINTS -------------------------------------------------------

#[no_mangle]
pub extern "C" fn Java_com_lucidum_panpan_MainActivity_nativeInit(_env: JNIEnv, _class: JClass) {
    init_logging();
    ensure_graphics();
"#;

/// Opening of the native resize symbol (which runs the one-shot
/// graphics setup first), up to the splice point.
pub const BRIDGE_NATIVE_RESIZE_BLOCK: &'static str = r#"#[no_mangle]
pub extern "C" fn Java_com_lucidum_panpan_MainActivity_nativeResize(_env: JNIEnv, _class: JClass, width: jint, height: jint) {
    ensure_graphics();
    unsafe {
        gl::Viewport(0, 0, width, height);
        SCREEN_WIDTH = width as f32;
        SCREEN_HEIGHT = height as f32;
    }
"#;

/// Opening of the native render symbol (which runs the one-shot
/// graphics setup first), up to the splice point.
pub const BRIDGE_NATIVE_RENDER_BLOCK: &'static str = r#"#[no_mangle]
pub extern "C" fn Java_com_lucidum_panpan_MainActivity_nativeRender(_env: JNIEnv, _class: JClass) {
    ensure_graphics();
    unsafe {
        gl::Clear(gl::COLOR_BUFFER_BIT | gl::DEPTH_BUFFER_BIT);
    }
"#;

/// Opening of a forwarding function for the init entry point; the
/// module identifier is spliced in after it.
pub const FORWARD_INIT_OPEN: &'static str = "#[no_mangle]\npub extern \"C\" fn panpan_user_init() {\n    ";

/// Close of the init forwarding function.
pub const FORWARD_INIT_CLOSE: &'static str = "::init();\n}\n\n";

/// Opening of a forwarding function for the resize entry point.
pub const FORWARD_RESIZE_OPEN: &'static str = "#[no_mangle]\npub extern \"C\" fn panpan_user_resize(width: i32, height: i32) {\n    ";

/// Close of the resize forwarding function.
pub const FORWARD_RESIZE_CLOSE: &'static str = "::resize(width, height);\n}\n\n";

/// Opening of a forwarding function for the render entry point.
pub const FORWARD_RENDER_OPEN: &'static str = "#[no_mangle]\npub extern \"C\" fn panpan_user_render() {\n    ";

/// Close of the render forwarding function.
pub const FORWARD_RENDER_CLOSE: &'static str = "::render();\n}\n\n";

/// Call spliced into the native init symbol when the module has init.
pub const CALL_INIT: &'static str = "    panpan_user_init();\n";

/// Commented stub spliced in when the module has no init.
pub const STUB_INIT: &'static str = "    // No init() function found in user crate\n";

/// Call spliced into the native resize symbol when the module has resize.
pub const CALL_RESIZE: &'static str = "    panpan_user_resize(width as i32, height as i32);\n    panpan::panpan_internal_set_screen_size(width as i32, height as i32);\n";

/// Commented stub spliced in when the module has no resize.
pub const STUB_RESIZE: &'static str = "    // No resize() function found in user crate\n";

/// Call spliced into the native render symbol when the module has render.
pub const CALL_RENDER: &'static str = "    panpan_user_render();\n";

/// Commented stub spliced in when the module has no render.
pub const STUB_RENDER: &'static str = "    // No render() function found in user crate\n";

/// Close of a native entry symbol followed by a blank line.
pub const SYMBOL_CLOSE: &'static str = "}\n\n";

/// Close of the last native entry symbol.
pub const SYMBOL_CLOSE_LAST: &'static str = "}\n";

/// The generation input: a module identifier together with the set of
/// entry points discovery found for it. The generated bridge source is
/// a function of this value alone.
pub struct BridgeSpec {
    pub module_id: Seq<char>,
    pub entry_points: Seq<Seq<char>>,
}

/// The forwarding functions of the bridge: one per recognized entry
/// point the module exposes, each forwarding to the module's own
/// function of the same name.
pub open spec fn forwarders_text(module: Seq<char>, has_init: bool, has_resize: bool, has_render: bool) -> Seq<char> {
    (if has_init {
        FORWARD_INIT_OPEN@ + module + FORWARD_INIT_CLOSE@
    } else {
        Seq::empty()
    }) + (if has_resize {
        FORWARD_RESIZE_OPEN@ + module + FORWARD_RESIZE_CLOSE@
    } else {
        Seq::empty()
    }) + (if has_render {
        FORWARD_RENDER_OPEN@ + module + FORWARD_RENDER_CLOSE@
    } else {
        Seq::empty()
    })
}

/// The whole generated bridge source for a module, given which of the
/// three recognized entry points it exposes: the embedded renderer, the
/// shader constants, the logging setup, the forwarding functions, and
/// the three native entry symbols, each running the one-shot graphics
/// setup and then splicing in either a forwarding call or a commented
/// stub.
pub open spec fn bridge_source(module: Seq<char>, has_init: bool, has_resize: bool, has_render: bool) -> Seq<char> {
    BRIDGE_RUNTIME@ + BRIDGE_VERTEX_SHADER_BLOCK@ + BRIDGE_FRAGMENT_SHADER_BLOCK@
        + BRIDGE_LOGGING_BLOCK@ + forwarders_text(module, has_init, has_resize, has_render)
        + BRIDGE_NATIVE_INIT_BLOCK@ + (if has_init {
        CALL_INIT@
    } else {
        STUB_INIT@
    }) + SYMBOL_CLOSE@ + BRIDGE_NATIVE_RESIZE_BLOCK@ + (if has_resize {
        CALL_RESIZE@
    } else {
        STUB_RESIZE@
    }) + SYMBOL_CLOSE@ + BRIDGE_NATIVE_RENDER_BLOCK@ + (if has_render {
        CALL_RENDER@
    } else {
        STUB_RENDER@
    }) + SYMBOL_CLOSE_LAST@
}

/// The generated bridge source for a spec: which entry points are
/// present is set membership in the discovered entry-point names.
pub open spec fn bridge_source_of(spec: BridgeSpec) -> Seq<char> {
    bridge_source(
        spec.module_id,
        spec.entry_points.contains("init"@),
        spec.entry_points.contains("resize"@),
        spec.entry_points.contains("render"@),
    )
}

/// Generation is pure: two specs with the same module identifier and
/// the same entry-point sets yield byte-identical bridge source, however
/// the discovered names are ordered or repeated.
pub proof fn lemma_generation_deterministic(s1: BridgeSpec, s2: BridgeSpec)
    requires
        s1.module_id == s2.module_id,
        s1.entry_points.to_set() == s2.entry_points.to_set(),
    ensures
        bridge_source_of(s1) == bridge_source_of(s2),
{
    assert(s1.entry_points.to_set().contains("init"@) == s1.entry_points.contains("init"@));
    assert(s2.entry_points.to_set().contains("init"@) == s2.entry_points.contains("init"@));
    assert(s1.entry_points.to_set().contains("resize"@) == s1.entry_points.contains("resize"@));
    assert(s2.entry_points.to_set().contains("resize"@) == s2.entry_points.contains("resize"@));
    assert(s1.entry_points.to_set().contains("render"@) == s1.entry_points.contains("render"@));
    assert(s2.entry_points.to_set().contains("render"@) == s2.entry_points.contains("render"@));
}

/// What the bridge emits for one recognized entry point: a real
/// forwarding function, or a commented stub.
#[derive(Clone, Copy, PartialEq, Eq, Structural, Debug)]
pub enum EntryEmission {
    Forward,
    Stub,
}

/// The bridge's emission plan, one element per recognized entry point,
/// in the fixed order init, resize, render.
pub open spec fn bridge_plan(has_init: bool, has_resize: bool, has_render: bool) -> Seq<EntryEmission> {
    seq![
        if has_init { EntryEmission::Forward } else { EntryEmission::Stub },
        if has_resize { EntryEmission::Forward } else { EntryEmission::Stub },
        if has_render { EntryEmission::Forward } else { EntryEmission::Stub },
    ]
}

/// A module that exposes only render gets exactly one forwarding
/// function and two commented stubs: its plan is stub, stub, forward,
/// its forwarder section holds the render forwarder alone, and the
/// whole output is the fixed blocks with that one forwarder and the two
/// stub comments spliced in — the absent entry points are never called,
/// so the bridge stays a loadable unit on its own.
pub proof fn lemma_render_only_bridge(spec: BridgeSpec)
    requires
        spec.entry_points.contains("render"@),
        !spec.entry_points.contains("init"@),
        !spec.entry_points.contains("resize"@),
    ensures
        bridge_plan(false, false, true) =~= seq![
            EntryEmission::Stub,
            EntryEmission::Stub,
            EntryEmission::Forward,
        ],
        bridge_plan(false, false, true).filter(|e: EntryEmission| e is Forward).len() == 1,
        bridge_plan(false, false, true).filter(|e: EntryEmission| e is Stub).len() == 2,
        forwarders_text(spec.module_id, false, false, true) =~= FORWARD_RENDER_OPEN@
            + spec.module_id + FORWARD_RENDER_CLOSE@,
        bridge_source_of(spec) == bridge_source(spec.module_id, false, false, true),
        bridge_source_of(spec) =~= BRIDGE_RUNTIME@ + BRIDGE_VERTEX_SHADER_BLOCK@
            + BRIDGE_FRAGMENT_SHADER_BLOCK@ + BRIDGE_LOGGING_BLOCK@ + (FORWARD_RENDER_OPEN@
            + spec.module_id + FORWARD_RENDER_CLOSE@) + BRIDGE_NATIVE_INIT_BLOCK@ + STUB_INIT@
            + SYMBOL_CLOSE@ + BRIDGE_NATIVE_RESIZE_BLOCK@ + STUB_RESIZE@ + SYMBOL_CLOSE@
            + BRIDGE_NATIVE_RENDER_BLOCK@ + CALL_RENDER@ + SYMBOL_CLOSE_LAST@,
{
    reveal_with_fuel(Seq::filter, 5);
    assert(bridge_plan(false, false, true).filter(|e: EntryEmission| e is Forward) =~= seq![
        EntryEmission::Forward,
    ]);
    assert(bridge_plan(false, false, true).filter(|e: EntryEmission| e is Stub) =~= seq![
        EntryEmission::Stub,
        EntryEmission::Stub,
    ]);
}

/// Whether the discovered names hold `name`.
pub fn contains_name(fns: &Vec<String>, name: &str) -> (r: bool)
    ensures
        r == fns.deep_view().contains(name@),
{
    let name_s = String::from_str(name);
    let n = fns.len();
    let mut k: usize = 0;
    let mut found = false;
    while k < n
        invariant
            k <= n,
            n == fns@.len(),
            name_s@ == name@,
            found == exists|j: int| 0 <= j < k && fns@[j]@ == name@,
        decreases n - k,
    {
        if fns[k].eq(&name_s) {
            found = true;
        }
        k += 1;
    }
    proof {
        assert(fns.deep_view().len() == fns@.len());
        assert forall|j: int| 0 <= j < fns@.len() implies fns.deep_view()[j] == fns@[j]@ by {}
        if found {
            let j = choose|j: int| 0 <= j < fns@.len() && fns@[j]@ == name@;
            assert(fns.deep_view()[j] == name@);
            assert(fns.deep_view().contains(name@));
        } else if fns.deep_view().contains(name@) {
            let j = choose|j: int| 0 <= j < fns.deep_view().len() && fns.deep_view()[j] == name@;
            assert(fns@[j]@ == name@);
        }
    }
    found
}

/// Synthesizes the complete bridge source for the module named
/// `crate_name`, forwarding to each of the recognized entry points that
/// `fns` holds and emitting a commented stub for each it lacks.
#[verifier::rlimit(100)]
pub fn generate_librs_with_opengl(crate_name: &str, fns: &Vec<String>) -> (r: String)
    ensures
        r@ == bridge_source_of(
            BridgeSpec { module_id: crate_name@, entry_points: fns.deep_view() },
        ),
{
    let has_init = contains_name(fns, "init");
    let has_resize = contains_name(fns, "resize");
    let has_render = contains_name(fns, "render");

    let mut code = String::new();
    code.append(BRIDGE_RUNTIME);
    code.append(BRIDGE_VERTEX_SHADER_BLOCK);
    code.append(BRIDGE_FRAGMENT_SHADER_BLOCK);
    code.append(BRIDGE_LOGGING_BLOCK);
    if has_init {
        code.append(FORWARD_INIT_OPEN);
        code.append(crate_name);
        code.append(FORWARD_INIT_CLOSE);
    }
    if has_resize {
        code.append(FORWARD_RESIZE_OPEN);
        code.append(crate_name);
        code.append(FORWARD_RESIZE_CLOSE);
    }
    if has_render {
        code.append(FORWARD_RENDER_OPEN);
        code.append(crate_name);
        code.append(FORWARD_RENDER_CLOSE);
    }
    code.append(BRIDGE_NATIVE_INIT_BLOCK);
    if has_init {
        code.append(CALL_INIT);
    } else {
        code.append(STUB_INIT);
    }
    code.append(SYMBOL_CLOSE);
    code.append(BRIDGE_NATIVE_RESIZE_BLOCK);
    if has_resize {
        code.append(CALL_RESIZE);
    } else {
        code.append(STUB_RESIZE);
    }
    code.append(SYMBOL_CLOSE);
    code.append(BRIDGE_NATIVE_RENDER_BLOCK);
    if has_render {
        code.append(CALL_RENDER);
    } else {
        code.append(STUB_RENDER);
    }
    code.append(SYMBOL_CLOSE_LAST);
    proof {
        assert(code@ =~= bridge_source(crate_name@, has_init, has_resize, has_render));
    }
    code
}

} // verus!
