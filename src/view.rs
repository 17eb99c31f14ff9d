use crate::angle::{wrap, FULL_TURN, HALF_TURN};
use crate::texture::TextureLayout;
use vstd::prelude::*;

verus! {

/// One rotation key press, in turn units: 0.1 radian.
pub const ROTATION_STEP: i64 = 68356529;

/// Bound on the zoom exponent either way; `1.01` raised to it stays a
/// positive, finite single-precision number.
pub const MAX_ZOOM: i32 = 8000;

/// A keyboard key, as far as the view tells keys apart.
#[derive(Clone, Copy, Debug, PartialEq, Eq, Structural)]
pub enum Key {
    ArrowLeft,
    ArrowRight,
    ArrowUp,
    ArrowDown,
    Other,
}

/// A mouse button, as far as the view tells buttons apart.
#[derive(Clone, Copy, Debug, PartialEq, Eq, Structural)]
pub enum MouseButton {
    Left,
    Other,
}

/// An input event, already decoded from the window system.
#[derive(Clone, Copy, Debug, PartialEq, Eq, Structural)]
pub enum InputEvent {
    CloseRequested,
    Keyboard { key: Key, pressed: bool },
    CursorMoved { x: i32, y: i32 },
    MouseWheel { amount: i32 },
    MouseInput { button: MouseButton, pressed: bool },
    RedrawRequested,
    Other,
}

/// What the host loop does after an event.
#[derive(Clone, Copy, Debug, PartialEq, Eq, Structural)]
pub enum Response {
    /// Nothing visible changed.
    Nothing,
    /// The image changed: ask the window for a redraw.
    RequestRedraw,
    /// Render a frame now and present it.
    Draw,
    /// Leave the event loop.
    Exit,
}

/// `v` held to `[lo, hi]`.
pub open spec fn clamp(v: int, lo: int, hi: int) -> int {
    if v < lo {
        lo
    } else if v > hi {
        hi
    } else {
        v
    }
}

/// Zoom exponent after scrolling by `amount`.
pub open spec fn zoom_after(zoom: int, amount: int) -> int {
    clamp(zoom + amount, -MAX_ZOOM, MAX_ZOOM as int)
}

/// One pan offset component after moving by `delta` pixels.
pub open spec fn pan_after(pan: int, delta: int) -> int {
    clamp(pan + delta, i32::MIN as int, i32::MAX as int)
}

/// Camera state and the layout of the texture it looks at.
///
/// The zoom scale is `1.01` raised to `zoom`. Rotations are in turn units,
/// the azimuth one in `[0, FULL_TURN)`, the declination one in `[0, HALF_TURN)`.
pub struct App {
    pub title: String,
    pub zoom: i32,
    pub pan_x: i32,
    pub pan_y: i32,
    pub drag: bool,
    pub cursor_x: i32,
    pub cursor_y: i32,
    pub rot_azimuth: i64,
    pub rot_declination: i64,
    pub layout: TextureLayout,
}

impl App {
    pub open spec fn wf(&self) -> bool {
        &&& -MAX_ZOOM <= self.zoom <= MAX_ZOOM
        &&& 0 <= self.rot_azimuth < FULL_TURN
        &&& 0 <= self.rot_declination < HALF_TURN
    }

    /// Rotation after pressing `key`: `(azimuth, declination)`.
    pub open spec fn rotation_after(&self, key: Key) -> (int, int) {
        let (a, d) = (self.rot_azimuth as int, self.rot_declination as int);
        match key {
            Key::ArrowLeft => (wrap(a - ROTATION_STEP, FULL_TURN as int), d),
            Key::ArrowRight => (wrap(a + ROTATION_STEP, FULL_TURN as int), d),
            Key::ArrowUp => (a, wrap(d - ROTATION_STEP, HALF_TURN as int)),
            Key::ArrowDown => (a, wrap(d + ROTATION_STEP, HALF_TURN as int)),
            Key::Other => (a, d),
        }
    }

    /// A view at scale 1, with no pan and no rotation.
    pub fn new(title: String, data_offset: u32, data_width: u32, data_height: u32) -> (app: App)
        ensures
            app.wf(),
            app.title == title,
            app.zoom == 0,
            app.pan_x == 0 && app.pan_y == 0,
            !app.drag,
            app.cursor_x == 0 && app.cursor_y == 0,
            app.rot_azimuth == 0 && app.rot_declination == 0,
            app.layout == (TextureLayout {
                data_offset,
                width: data_width,
                height: data_height,
            }),
    {
        App {
            title,
            zoom: 0,
            pan_x: 0,
            pan_y: 0,
            drag: false,
            cursor_x: 0,
            cursor_y: 0,
            rot_azimuth: 0,
            rot_declination: 0,
            layout: TextureLayout { data_offset, width: data_width, height: data_height },
        }
    }

    /// Rotates by one step for an arrow key; returns whether the view changed
    /// (false for any other key).
    pub fn press_key(&mut self, key: Key) -> (redraw: bool)
        requires
            old(self).wf(),
        ensures
            final(self).wf(),
            (final(self).rot_azimuth as int, final(self).rot_declination as int)
                == old(self).rotation_after(key),
            redraw == (key != Key::Other),
            final(self).title == old(self).title,
            final(self).zoom == old(self).zoom,
            final(self).pan_x == old(self).pan_x && final(self).pan_y == old(self).pan_y,
            final(self).drag == old(self).drag,
            final(self).cursor_x == old(self).cursor_x && final(self).cursor_y == old(self).cursor_y,
            final(self).layout == old(self).layout,
    {
        match key {
            Key::ArrowLeft => {
                self.rot_azimuth = crate::angle::normalize_azimuth(
                    self.rot_azimuth - ROTATION_STEP,
                );
            },
            Key::ArrowRight => {
                self.rot_azimuth = crate::angle::normalize_azimuth(
                    self.rot_azimuth + ROTATION_STEP,
                );
            },
            Key::ArrowUp => {
                self.rot_declination = crate::angle::normalize_declination(
                    self.rot_declination - ROTATION_STEP,
                );
            },
            Key::ArrowDown => {
                self.rot_declination = crate::angle::normalize_declination(
                    self.rot_declination + ROTATION_STEP,
                );
            },
            Key::Other => {
                return false;
            },
        }
        true
    }

    /// Zooms by `amount` scroll steps: the scale is multiplied by `1.01^amount`,
    /// the exponent held to `[-MAX_ZOOM, MAX_ZOOM]`. Always asks for a redraw.
    pub fn scroll(&mut self, amount: i32) -> (redraw: bool)
        requires
            old(self).wf(),
        ensures
            final(self).wf(),
            final(self).zoom == zoom_after(old(self).zoom as int, amount as int),
            redraw,
            final(self).title == old(self).title,
            final(self).pan_x == old(self).pan_x && final(self).pan_y == old(self).pan_y,
            final(self).drag == old(self).drag,
            final(self).cursor_x == old(self).cursor_x && final(self).cursor_y == old(self).cursor_y,
            final(self).rot_azimuth == old(self).rot_azimuth,
            final(self).rot_declination == old(self).rot_declination,
            final(self).layout == old(self).layout,
    {
        let z: i64 = self.zoom as i64 + amount as i64;
        self.zoom = if z < -(MAX_ZOOM as i64) {
            -MAX_ZOOM
        } else if z > MAX_ZOOM as i64 {
            MAX_ZOOM
        } else {
            z as i32
        };
        true
    }

    /// Moves the pan offset by `(dx, dy)` pixels, each component held to the
    /// range of `i32`.
    pub fn pan_by(&mut self, dx: i64, dy: i64)
        ensures
            final(self).pan_x == pan_after(old(self).pan_x as int, dx as int),
            final(self).pan_y == pan_after(old(self).pan_y as int, dy as int),
            final(self).title == old(self).title,
            final(self).zoom == old(self).zoom,
            final(self).drag == old(self).drag,
            final(self).cursor_x == old(self).cursor_x && final(self).cursor_y == old(self).cursor_y,
            final(self).rot_azimuth == old(self).rot_azimuth,
            final(self).rot_declination == old(self).rot_declination,
            final(self).layout == old(self).layout,
    {
        self.pan_x = clamp_to_i32(self.pan_x as i128 + dx as i128);
        self.pan_y = clamp_to_i32(self.pan_y as i128 + dy as i128);
    }

    /// Records the cursor at `(x, y)`. While dragging, the pan offset follows
    /// the cursor's move and a redraw is asked for; otherwise nothing else
    /// changes.
    pub fn cursor_moved(&mut self, x: i32, y: i32) -> (redraw: bool)
        requires
            old(self).wf(),
        ensures
            final(self).wf(),
            final(self).cursor_x == x && final(self).cursor_y == y,
            redraw == old(self).drag,
            old(self).drag ==> final(self).pan_x == pan_after(
                old(self).pan_x as int,
                x - old(self).cursor_x,
            ) && final(self).pan_y == pan_after(old(self).pan_y as int, y - old(self).cursor_y),
            !old(self).drag ==> final(self).pan_x == old(self).pan_x && final(self).pan_y == old(
                self,
            ).pan_y,
            final(self).title == old(self).title,
            final(self).zoom == old(self).zoom,
            final(self).drag == old(self).drag,
            final(self).rot_azimuth == old(self).rot_azimuth,
            final(self).rot_declination == old(self).rot_declination,
            final(self).layout == old(self).layout,
    {
        let dx: i64 = x as i64 - self.cursor_x as i64;
        let dy: i64 = y as i64 - self.cursor_y as i64;
        self.cursor_x = x;
        self.cursor_y = y;
        if self.drag {
            self.pan_by(dx, dy);
        }
        self.drag
    }

    /// A left button press starts dragging and its release ends it; other
    /// buttons are ignored. Never asks for a redraw.
    pub fn mouse_input(&mut self, button: MouseButton, pressed: bool) -> (redraw: bool)
        requires
            old(self).wf(),
        ensures
            final(self).wf(),
            final(self).drag == (if button == MouseButton::Left {
                pressed
            } else {
                old(self).drag
            }),
            !redraw,
            final(self).title == old(self).title,
            final(self).zoom == old(self).zoom,
            final(self).pan_x == old(self).pan_x && final(self).pan_y == old(self).pan_y,
            final(self).cursor_x == old(self).cursor_x && final(self).cursor_y == old(self).cursor_y,
            final(self).rot_azimuth == old(self).rot_azimuth,
            final(self).rot_declination == old(self).rot_declination,
            final(self).layout == old(self).layout,
    {
        if button == MouseButton::Left {
            self.drag = pressed;
        }
        false
    }

    /// The state after `event`.
    pub open spec fn after_event(self, event: InputEvent) -> App {
        match event {
            InputEvent::Keyboard { key, pressed } => if pressed {
                App {
                    rot_azimuth: self.rotation_after(key).0 as i64,
                    rot_declination: self.rotation_after(key).1 as i64,
                    ..self
                }
            } else {
                self
            },
            InputEvent::CursorMoved { x, y } => App {
                cursor_x: x,
                cursor_y: y,
                pan_x: if self.drag {
                    pan_after(self.pan_x as int, x - self.cursor_x) as i32
                } else {
                    self.pan_x
                },
                pan_y: if self.drag {
                    pan_after(self.pan_y as int, y - self.cursor_y) as i32
                } else {
                    self.pan_y
                },
                ..self
            },
            InputEvent::MouseWheel { amount } => App {
                zoom: zoom_after(self.zoom as int, amount as int) as i32,
                ..self
            },
            InputEvent::MouseInput { button, pressed } => if button == MouseButton::Left {
                App { drag: pressed, ..self }
            } else {
                self
            },
            _ => self,
        }
    }

    /// What the host loop does after `event`.
    pub open spec fn response_to(self, event: InputEvent) -> Response {
        match event {
            InputEvent::CloseRequested => Response::Exit,
            InputEvent::Keyboard { key, pressed } => if pressed && key != Key::Other {
                Response::RequestRedraw
            } else {
                Response::Nothing
            },
            InputEvent::CursorMoved { .. } => if self.drag {
                Response::RequestRedraw
            } else {
                Response::Nothing
            },
            InputEvent::MouseWheel { .. } => Response::RequestRedraw,
            InputEvent::RedrawRequested => Response::Draw,
            _ => Response::Nothing,
        }
    }

    /// Applies one input event to the camera and says what the host loop
    /// does next.
    pub fn window_event(&mut self, event: InputEvent) -> (r: Response)
        requires
            old(self).wf(),
        ensures
            final(self).wf(),
            *final(self) == old(self).after_event(event),
            r == old(self).response_to(event),
    {
        let redraw = match event {
            InputEvent::CloseRequested => {
                return Response::Exit;
            },
            InputEvent::RedrawRequested => {
                return Response::Draw;
            },
            InputEvent::Keyboard { key, pressed } => pressed && self.press_key(key),
            InputEvent::CursorMoved { x, y } => self.cursor_moved(x, y),
            InputEvent::MouseWheel { amount } => self.scroll(amount),
            InputEvent::MouseInput { button, pressed } => self.mouse_input(button, pressed),
            InputEvent::Other => false,
        };
        if redraw {
            Response::RequestRedraw
        } else {
            Response::Nothing
        }
    }
}

/// `v` held to the range of `i32`.
fn clamp_to_i32(v: i128) -> (r: i32)
    ensures
        r == clamp(v as int, i32::MIN as int, i32::MAX as int),
{
    if v < i32::MIN as i128 {
        i32::MIN
    } else if v > i32::MAX as i128 {
        i32::MAX
    } else {
        v as i32
    }
}

} // verus!

verus! {

/// Two scrolls add up: scrolling by `a` then by `b`, in either order, gives
/// the zoom of one scroll by `a + b`, as long as no step reaches the bound.
pub proof fn lemma_zoom_composes(zoom: int, a: int, b: int)
    requires
        -MAX_ZOOM <= zoom <= MAX_ZOOM,
        -MAX_ZOOM <= zoom + a <= MAX_ZOOM,
        -MAX_ZOOM <= zoom + b <= MAX_ZOOM,
        -MAX_ZOOM <= zoom + a + b <= MAX_ZOOM,
    ensures
        zoom_after(zoom_after(zoom, a), b) == zoom_after(zoom, a + b),
        zoom_after(zoom_after(zoom, b), a) == zoom_after(zoom, a + b),
{
}

/// Panning is additive and commutative: moving by `d1` then `d2` gives the
/// same offset as `d2` then `d1`, and as one move by `d1 + d2`, as long as no
/// step leaves the range of `i32`.
pub proof fn lemma_pan_commutes(pan: int, d1: int, d2: int)
    requires
        i32::MIN <= pan + d1 <= i32::MAX,
        i32::MIN <= pan + d2 <= i32::MAX,
        i32::MIN <= pan + d1 + d2 <= i32::MAX,
    ensures
        pan_after(pan_after(pan, d1), d2) == pan_after(pan_after(pan, d2), d1),
        pan_after(pan_after(pan, d1), d2) == pan_after(pan, d1 + d2),
{
}

/// A rotation step followed by the opposite step restores the rotation exactly.
pub proof fn lemma_rotation_steps_cancel(app: App)
    requires
        app.wf(),
    ensures
        app.after_event(InputEvent::Keyboard { key: Key::ArrowRight, pressed: true }).after_event(
            InputEvent::Keyboard { key: Key::ArrowLeft, pressed: true },
        ) == app,
        app.after_event(InputEvent::Keyboard { key: Key::ArrowLeft, pressed: true }).after_event(
            InputEvent::Keyboard { key: Key::ArrowRight, pressed: true },
        ) == app,
        app.after_event(InputEvent::Keyboard { key: Key::ArrowDown, pressed: true }).after_event(
            InputEvent::Keyboard { key: Key::ArrowUp, pressed: true },
        ) == app,
        app.after_event(InputEvent::Keyboard { key: Key::ArrowUp, pressed: true }).after_event(
            InputEvent::Keyboard { key: Key::ArrowDown, pressed: true },
        ) == app,
{
    lemma_step_cancels(app.rot_azimuth as int, FULL_TURN as int);
    lemma_step_cancels(app.rot_declination as int, HALF_TURN as int);
}

/// Within `[0, period)`, a wrapped step and the wrapped opposite step cancel.
proof fn lemma_step_cancels(a: int, period: int)
    requires
        0 <= a < period,
        ROTATION_STEP < period,
    ensures
        wrap(wrap(a + ROTATION_STEP, period) - ROTATION_STEP, period) == a,
        wrap(wrap(a - ROTATION_STEP, period) + ROTATION_STEP, period) == a,
{
    let s = ROTATION_STEP as int;
    vstd::arithmetic::div_mod::lemma_add_mod_noop(a + s, -s, period);
    vstd::arithmetic::div_mod::lemma_add_mod_noop(a - s, s, period);
    vstd::arithmetic::div_mod::lemma_mod_twice(a + s, period);
    vstd::arithmetic::div_mod::lemma_mod_twice(a - s, period);
    vstd::arithmetic::div_mod::lemma_add_mod_noop((a + s) % period, -s, period);
    vstd::arithmetic::div_mod::lemma_add_mod_noop((a - s) % period, s, period);
    vstd::arithmetic::div_mod::lemma_small_mod(s as nat, period as nat);
    vstd::arithmetic::div_mod::lemma_small_mod(a as nat, period as nat);
}

} // verus!
