//! The engine context: an explicit object that carries what the engine
//! tracks between calls — the screen size, the rendering backend's
//! readiness and viewport, the drawing commands it has issued, and the
//! input events it forwards to the game's registered handlers. Callers
//! pass the context through; there is no process-wide mutable state.

use vstd::prelude::*;

verus! {

/// A drawing command the engine hands to the rendering backend.
#[derive(Clone, Copy, PartialEq, Eq, Structural, Debug)]
pub enum RenderCommand {
    /// Clear the screen with the engine's background color.
    Clear,
}

/// An input event the engine forwards to the game's handlers.
#[derive(Clone, Copy, PartialEq, Eq, Structural, Debug)]
pub enum EngineEvent {
    /// The touch with this identifier ended.
    TouchUp { id: i32 },
}

/// The engine's state for one run: screen size, backend readiness,
/// viewport, issued commands, and forwarded input events.
pub struct Engine {
    pub screen_width: i32,
    pub screen_height: i32,
    pub viewport_width: i32,
    pub viewport_height: i32,
    pub renderer_ready: bool,
    pub handlers_installed: bool,
    pub commands: Vec<RenderCommand>,
    pub events: Vec<EngineEvent>,
}

impl Engine {
    /// A fresh engine context; `renderer_ready` says whether a
    /// rendering backend was handed over at startup.
    pub fn new(renderer_ready: bool) -> (r: Engine)
        ensures
            r.screen_width == 0,
            r.screen_height == 0,
            r.viewport_width == 800,
            r.viewport_height == 600,
            r.renderer_ready == renderer_ready,
            !r.handlers_installed,
            r.commands@ == Seq::<RenderCommand>::empty(),
            r.events@ == Seq::<EngineEvent>::empty(),
    {
        Engine {
            screen_width: 0,
            screen_height: 0,
            viewport_width: 800,
            viewport_height: 600,
            renderer_ready,
            handlers_installed: false,
            commands: Vec::new(),
            events: Vec::new(),
        }
    }

    /// Marks the game's touch handlers as registered: from here on,
    /// touch events are forwarded.
    pub fn install_touch_handlers(&mut self)
        ensures
            *final(self) == (Engine { handlers_installed: true, ..*old(self) }),
    {
        self.handlers_installed = true;
    }
}

/// The screen size the engine last recorded.
pub fn get_screen_size(eng: &Engine) -> (r: (i32, i32))
    ensures
        r.0 == eng.screen_width,
        r.1 == eng.screen_height,
{
    (eng.screen_width, eng.screen_height)
}

/// Records the screen size.
pub fn set_screen_size(eng: &mut Engine, width: i32, height: i32)
    ensures
        *final(eng) == (Engine { screen_width: width, screen_height: height, ..*old(eng) }),
{
    eng.screen_width = width;
    eng.screen_height = height;
}

/// A resize notification: the engine records the new screen size; the
/// backend's viewport is left to the runner's own resize path.
pub fn resize(eng: &mut Engine, w: i32, h: i32)
    ensures
        *final(eng) == (Engine { screen_width: w, screen_height: h, ..*old(eng) }),
{
    set_screen_size(eng, w, h);
}

/// A frame render: when a rendering backend is ready, the engine issues
/// exactly one clear command; without one it issues nothing.
pub fn render(eng: &mut Engine)
    ensures
        old(eng).renderer_ready ==> final(eng).commands@ == old(eng).commands@.push(
            RenderCommand::Clear,
        ),
        !old(eng).renderer_ready ==> final(eng).commands@ == old(eng).commands@,
        *final(eng) == (Engine { commands: final(eng).commands, ..*old(eng) }),
{
    if eng.renderer_ready {
        eng.commands.push(RenderCommand::Clear);
    }
}

/// The runner's own resize path: when a rendering backend is ready,
/// its viewport is set to the new size.
pub fn __internal_resize(eng: &mut Engine, width: i32, height: i32)
    ensures
        old(eng).renderer_ready ==> *final(eng) == (Engine {
            viewport_width: width,
            viewport_height: height,
            ..*old(eng)
        }),
        !old(eng).renderer_ready ==> *final(eng) == *old(eng),
{
    if eng.renderer_ready {
        eng.viewport_width = width;
        eng.viewport_height = height;
    }
}

/// A touch ended: forwarded to the game exactly when handlers are
/// registered, dropped otherwise.
pub fn touch_up(eng: &mut Engine, id: i32)
    ensures
        old(eng).handlers_installed ==> final(eng).events@ == old(eng).events@.push(
            EngineEvent::TouchUp { id },
        ),
        !old(eng).handlers_installed ==> final(eng).events@ == old(eng).events@,
        *final(eng) == (Engine { events: final(eng).events, ..*old(eng) }),
{
    if eng.handlers_installed {
        eng.events.push(EngineEvent::TouchUp { id });
    }
}

} // verus!
