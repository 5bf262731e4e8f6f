//! The overlay controller: the one owner of the indicator's presentation
//! state. It turns commands from the watchers into requests to the
//! presentation surface and decides what a redraw puts on the screen.
//!
//! The controller never touches the window system. The caller owns the
//! window and its pixel buffer, performs the requests that the controller
//! hands back and reports window events to it.

use vstd::prelude::*;
use crate::config::{Config, LayerConfig};

verus! {

/// A command for the overlay controller, sent by the watchers through the
/// event loop.
#[derive(Debug, Clone, Copy, PartialEq, Eq)]
pub enum CustomEventLoopEvent {
    /// Draw the window again.
    Redraw,
    /// Show the window in this red, green, blue colour.
    SetColor(u8, u8, u8),
    /// The cursor is at this absolute screen position.
    SetPos(i32, i32),
    /// Hide the window.
    SetHide,
}

/// A request to the presentation surface.
#[derive(Debug, Clone, Copy, PartialEq, Eq)]
pub enum SurfaceAction {
    /// Make the window visible or invisible.
    SetVisible(bool),
    /// Move the window's outer origin to this logical position.
    SetOuterPosition(i64, i64),
    /// Ask the window system for a redraw.
    RequestRedraw,
}

/// How the window is to be created.
#[derive(Debug, Clone, Copy, PartialEq, Eq)]
pub struct WindowAttributes {
    /// Inner width in logical pixels.
    pub width: u32,
    /// Inner height in logical pixels.
    pub height: u32,
    /// Whether the window has an alpha channel.
    pub transparent: bool,
    /// Whether the window stays above all others.
    pub always_on_top: bool,
    /// Whether the window is visible from the start.
    pub visible: bool,
    /// Whether the window is kept out of the task bar.
    pub skip_taskbar: bool,
    /// Whether the window has a border and a title bar.
    pub decorations: bool,
}

/// What the window system reports to the controller.
#[derive(Debug, Clone, Copy, PartialEq, Eq)]
pub enum WindowNotice {
    /// The user asked to close the window.
    CloseRequested,
    /// The window with the identifier `window` has to be drawn. `width` and
    /// `height` are the current inner size of the controller's window in
    /// physical pixels, both 0 while it has none.
    RedrawRequested { window: u64, width: u32, height: u32 },
    /// Any other window event.
    Other,
}

/// What the caller does in answer to a window event.
#[derive(Debug, Clone, Copy, PartialEq, Eq)]
pub enum WindowReaction {
    /// Leave the event loop.
    Exit,
    /// Resize the pixel buffer to `width` by `height`, both positive, set
    /// every pixel to `pixel` and present the buffer.
    Present { width: u32, height: u32, pixel: u32 },
    /// Do nothing.
    Ignore,
}

/// The packed form of a colour: red in bits 16 to 23, green in bits 8 to
/// 15, blue in bits 0 to 7, the top byte zero.
pub open spec fn packed(color: (u8, u8, u8)) -> u32 {
    (color.0 as int * 0x1_0000 + color.1 as int * 0x100 + color.2 as int) as u32
}

/// Packs a colour into one pixel: `blue | (green << 8) | (red << 16)`.
pub fn pack_color(color: (u8, u8, u8)) -> (pixel: u32)
    ensures
        pixel == packed(color),
        pixel == (color.2 as u32) | ((color.1 as u32) << 8) | ((color.0 as u32) << 16),
{
    let r: u32 = color.0 as u32;
    let g: u32 = color.1 as u32;
    let b: u32 = color.2 as u32;
    assert((b | (g << 8) | (r << 16)) == r * 0x1_0000 + g * 0x100 + b) by (bit_vector)
        requires
            r < 0x100,
            g < 0x100,
            b < 0x100,
    ;
    b | (g << 8) | (r << 16)
}

/// Sets every pixel of the buffer to `pixel`.
pub fn fill(buffer: &mut [u32], pixel: u32)
    ensures
        final(buffer)@.len() == old(buffer)@.len(),
        forall|i: int| 0 <= i < final(buffer)@.len() ==> final(buffer)@[i] == pixel,
{
    let n: usize = buffer.len();
    let mut i: usize = 0;
    while i < n
        invariant
            i <= n,
            buffer@.len() == n,
            forall|j: int| 0 <= j < i ==> buffer@[j] == pixel,
        decreases n - i,
    {
        buffer[i] = pixel;
        i += 1;
    }
}

/// The controller's state as the contracts see it.
pub struct OverlayState {
    /// The colour on show, or `None` while the window is hidden.
    pub show: Option<(u8, u8, u8)>,
    /// The identifier of the controller's window, or `None` until the
    /// window and its surface exist.
    pub window: Option<u64>,
    /// The layer table of the configuration.
    pub layers: Seq<LayerConfig>,
    /// The configured window size.
    pub size: (u32, u32),
    /// The configured offset of the window from the cursor.
    pub offset: (i32, i32),
}

impl OverlayState {
    /// Whether the window and its surface exist.
    pub open spec fn has_surface(self) -> bool {
        self.window is Some
    }

    /// A colour is on show only once the surface exists.
    pub open spec fn wf(self) -> bool {
        self.show is Some ==> self.has_surface()
    }

    /// Whether the window is hidden.
    pub open spec fn is_hidden(self) -> bool {
        self.show is None
    }

    /// The state after a command. Until the surface exists every command is
    /// dropped.
    pub open spec fn apply(self, event: CustomEventLoopEvent) -> OverlayState {
        if !self.has_surface() {
            self
        } else {
            match event {
                CustomEventLoopEvent::SetColor(r, g, b) => OverlayState {
                    show: Some((r, g, b)),
                    ..self
                },
                CustomEventLoopEvent::SetHide => OverlayState { show: None, ..self },
                CustomEventLoopEvent::SetPos(_, _) | CustomEventLoopEvent::Redraw => self,
            }
        }
    }

    /// The requests that a command puts to the surface, in order. Every
    /// command that is not dropped ends with a redraw request.
    pub open spec fn actions(self, event: CustomEventLoopEvent) -> Seq<SurfaceAction> {
        if !self.has_surface() {
            Seq::empty()
        } else {
            match event {
                CustomEventLoopEvent::Redraw => seq![SurfaceAction::RequestRedraw],
                CustomEventLoopEvent::SetColor(_, _, _) => seq![
                    SurfaceAction::SetVisible(true),
                    SurfaceAction::RequestRedraw,
                ],
                CustomEventLoopEvent::SetPos(x, y) => seq![
                    SurfaceAction::SetOuterPosition(
                        (x + self.offset.0) as i64,
                        (y + self.offset.1) as i64,
                    ),
                    SurfaceAction::RequestRedraw,
                ],
                CustomEventLoopEvent::SetHide => seq![
                    SurfaceAction::SetVisible(false),
                    SurfaceAction::RequestRedraw,
                ],
            }
        }
    }

    /// The attributes of the window that shows this state: borderless,
    /// opaque, above all other windows, out of the task bar, of the
    /// configured size and visible exactly if a colour is on show.
    pub open spec fn window_attributes(self) -> WindowAttributes {
        WindowAttributes {
            width: self.size.0,
            height: self.size.1,
            transparent: false,
            always_on_top: true,
            visible: self.show is Some,
            skip_taskbar: true,
            decorations: false,
        }
    }

    /// The answer to a window event. A redraw presents a frame only for the
    /// controller's own window, while a colour is on show and the window has
    /// a positive width and height.
    pub open spec fn reaction(self, notice: WindowNotice) -> WindowReaction {
        match notice {
            WindowNotice::CloseRequested => WindowReaction::Exit,
            WindowNotice::RedrawRequested { window, width, height } => {
                if self.window == Some(window) && self.show is Some && width != 0 && height != 0 {
                    WindowReaction::Present { width, height, pixel: packed(self.show->0) }
                } else {
                    WindowReaction::Ignore
                }
            },
            WindowNotice::Other => WindowReaction::Ignore,
        }
    }
}

/// The overlay controller.
pub struct App {
    show: Option<(u8, u8, u8)>,
    window: Option<u64>,
    config: Config,
}

impl View for App {
    type V = OverlayState;

    closed spec fn view(&self) -> OverlayState {
        OverlayState {
            show: self.show,
            window: self.window,
            layers: self.config.layers@,
            size: self.config.size,
            offset: self.config.offset,
        }
    }
}

impl App {
    #[verifier::type_invariant]
    spec fn inv(self) -> bool {
        self.show is Some ==> self.window is Some
    }

    /// A controller with nothing on show and no surface yet.
    pub fn new(config: Config) -> (app: App)
        ensures
            app@ == (OverlayState {
                show: None,
                window: None,
                layers: config.layers@,
                size: config.size,
                offset: config.offset,
            }),
            app@.wf(),
    {
        App { show: None, window: None, config }
    }

    /// The colour on show, or `None` while the window is hidden.
    pub fn show(&self) -> (show: Option<(u8, u8, u8)>)
        ensures
            show == self@.show,
            self@.wf(),
    {
        proof {
            use_type_invariant(self);
        }
        self.show
    }

    /// The identifier of the controller's window, or `None` until the
    /// window and its surface exist.
    pub fn window(&self) -> (window: Option<u64>)
        ensures
            window == self@.window,
    {
        self.window
    }

    /// Whether the window and its surface exist.
    pub fn has_surface(&self) -> (has_surface: bool)
        ensures
            has_surface == self@.has_surface(),
    {
        self.window.is_some()
    }

    /// The configuration that the controller was made with.
    pub fn config(&self) -> (config: &Config)
        ensures
            config.layers@ == self@.layers,
            config.size == self@.size,
            config.offset == self@.offset,
    {
        &self.config
    }

    /// The event loop is ready for a window. Returns the attributes to
    /// create it with: borderless, opaque, above all other windows, out of
    /// the task bar, of the configured size, and visible exactly if a colour
    /// is on show.
    pub fn resumed(&self) -> (attributes: WindowAttributes)
        ensures
            attributes == self@.window_attributes(),
    {
        WindowAttributes {
            width: self.config.size.0,
            height: self.config.size.1,
            transparent: false,
            always_on_top: true,
            visible: self.show.is_some(),
            skip_taskbar: true,
            decorations: false,
        }
    }

    /// The window with the identifier `window` and its surface exist. From
    /// now on the controller acts on commands and draws that window.
    pub fn attach(&mut self, window: u64)
        ensures
            final(self)@ == (OverlayState { window: Some(window), ..old(self)@ }),
            final(self)@.wf(),
    {
        self.window = Some(window);
    }

    /// Applies a command and returns the requests to put to the surface, in
    /// order. `SetColor` shows the window in the colour, `SetHide` hides it,
    /// `SetPos` moves it to the cursor position plus the configured offset;
    /// each ends with a redraw request. Without a surface the command is
    /// dropped.
    pub fn user_event(&mut self, event: CustomEventLoopEvent) -> (actions: Vec<SurfaceAction>)
        ensures
            final(self)@ == old(self)@.apply(event),
            actions@ == old(self)@.actions(event),
            final(self)@.wf(),
    {
        proof {
            use_type_invariant(&*self);
        }
        let mut actions: Vec<SurfaceAction> = Vec::new();
        if self.window.is_some() {
            match event {
                CustomEventLoopEvent::Redraw => {},
                CustomEventLoopEvent::SetColor(r, g, b) => {
                    actions.push(SurfaceAction::SetVisible(true));
                    self.show = Some((r, g, b));
                },
                CustomEventLoopEvent::SetPos(x, y) => {
                    actions.push(
                        SurfaceAction::SetOuterPosition(
                            x as i64 + self.config.offset.0 as i64,
                            y as i64 + self.config.offset.1 as i64,
                        ),
                    );
                },
                CustomEventLoopEvent::SetHide => {
                    actions.push(SurfaceAction::SetVisible(false));
                    self.show = None;
                },
            }
            actions.push(SurfaceAction::RequestRedraw);
        }
        actions
    }

    /// Decides what a window event leads to: a close request ends the event
    /// loop; a redraw of the controller's own window presents a frame in the
    /// colour on show, unless the window is hidden or has no area.
    pub fn window_event(&self, notice: WindowNotice) -> (reaction: WindowReaction)
        ensures
            reaction == self@.reaction(notice),
    {
        match notice {
            WindowNotice::CloseRequested => WindowReaction::Exit,
            WindowNotice::RedrawRequested { window, width, height } => {
                match (self.window, self.show) {
                    (Some(own), Some(color)) => {
                        if own == window && width != 0 && height != 0 {
                            WindowReaction::Present { width, height, pixel: pack_color(color) }
                        } else {
                            WindowReaction::Ignore
                        }
                    },
                    _ => WindowReaction::Ignore,
                }
            },
            WindowNotice::Other => WindowReaction::Ignore,
        }
    }
}

/// Whether the window is visible after a run of requests, given whether it
/// was before: the last `SetVisible` decides.
pub open spec fn visible_after(visible: bool, actions: Seq<SurfaceAction>) -> bool
    decreases actions.len(),
{
    if actions.len() == 0 {
        visible
    } else {
        match actions.last() {
            SurfaceAction::SetVisible(v) => v,
            _ => visible_after(visible, actions.drop_last()),
        }
    }
}

/// Showing a colour twice in a row leaves the controller as showing it once
/// does.
pub proof fn lemma_set_color_idempotent(state: OverlayState, r: u8, g: u8, b: u8)
    ensures
        state.apply(CustomEventLoopEvent::SetColor(r, g, b)).apply(
            CustomEventLoopEvent::SetColor(r, g, b),
        ) == state.apply(CustomEventLoopEvent::SetColor(r, g, b)),
{
}

/// Once the surface exists, hiding and then showing a colour ends with that
/// colour on show, whatever was on show before.
pub proof fn lemma_hide_then_set_color(state: OverlayState, r: u8, g: u8, b: u8)
    requires
        state.has_surface(),
    ensures
        state.apply(CustomEventLoopEvent::SetHide).apply(
            CustomEventLoopEvent::SetColor(r, g, b),
        ).show == Some((r, g, b)),
{
}

/// Showing a colour and then hiding ends with the window hidden, whatever
/// was on show before.
pub proof fn lemma_set_color_then_hide(state: OverlayState, r: u8, g: u8, b: u8)
    requires
        state.wf(),
    ensures
        state.apply(CustomEventLoopEvent::SetColor(r, g, b)).apply(
            CustomEventLoopEvent::SetHide,
        ).is_hidden(),
{
}

/// The window is hidden exactly while no colour is on show: it is created
/// so, and the requests of every command keep it so.
pub proof fn lemma_visible_iff_shown(state: OverlayState, event: CustomEventLoopEvent)
    requires
        state.wf(),
    ensures
        state.window_attributes().visible == !state.is_hidden(),
        visible_after(!state.is_hidden(), state.actions(event)) == !state.apply(
            event,
        ).is_hidden(),
        state.apply(event).wf(),
{
    reveal_with_fuel(visible_after, 3);
}

} // verus!
