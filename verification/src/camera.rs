//! Input state of a free-flying camera.
//!
//! A [`CameraController`] works in two phases. Between two frames the host
//! feeds it events (`process_keyboard`, `process_mouse`, `process_scroll`).
//! Once per frame the host calls `take_motion`, which hands out what has to be
//! integrated into the camera pose and clears what lasts one frame only.
//!
//! The controller is generic over the scalar type `S` of the host's pointer
//! samples. It never computes with a sample: it decides which samples are
//! kept, and by which integer factor the host multiplies each.
use vstd::prelude::*;

verus! {

/// Physical keys, as far as the camera tells them apart.
#[derive(Clone, Copy, Debug, PartialEq, Eq)]
pub enum KeyCode {
    KeyW,
    KeyA,
    KeyS,
    KeyD,
    ArrowUp,
    ArrowDown,
    ArrowLeft,
    ArrowRight,
    ShiftLeft,
    ControlLeft,
    /// Any key without a camera binding.
    Other,
}

/// Whether a key went down or came up.
#[derive(Clone, Copy, Debug, PartialEq, Eq)]
pub enum ElementState {
    Pressed,
    Released,
}

/// The six movement directions a key can drive.
#[derive(Clone, Copy, Debug, PartialEq, Eq)]
pub enum Direction {
    Forward,
    Backward,
    Left,
    Right,
    Up,
    Down,
}

/// The direction that `key` drives, if it has a camera binding.
pub open spec fn binding(key: KeyCode) -> Option<Direction> {
    match key {
        KeyCode::KeyW | KeyCode::ArrowUp => Some(Direction::Forward),
        KeyCode::KeyS | KeyCode::ArrowDown => Some(Direction::Backward),
        KeyCode::KeyA | KeyCode::ArrowLeft => Some(Direction::Left),
        KeyCode::KeyD | KeyCode::ArrowRight => Some(Direction::Right),
        KeyCode::ShiftLeft => Some(Direction::Up),
        KeyCode::ControlLeft => Some(Direction::Down),
        KeyCode::Other => None,
    }
}

/// Looks up the direction that `key` drives.
pub fn key_binding(key: KeyCode) -> (d: Option<Direction>)
    ensures
        d == binding(key),
{
    match key {
        KeyCode::KeyW | KeyCode::ArrowUp => Some(Direction::Forward),
        KeyCode::KeyS | KeyCode::ArrowDown => Some(Direction::Backward),
        KeyCode::KeyA | KeyCode::ArrowLeft => Some(Direction::Left),
        KeyCode::KeyD | KeyCode::ArrowRight => Some(Direction::Right),
        KeyCode::ShiftLeft => Some(Direction::Up),
        KeyCode::ControlLeft => Some(Direction::Down),
        KeyCode::Other => None,
    }
}

/// Factor of a scrolled line: a line counts for 100 units, and scrolling is
/// inverted.
pub const LINE_SCROLL_FACTOR: i32 = -100;

/// Factor of a scrolled pixel: scrolling is inverted.
pub const PIXEL_SCROLL_FACTOR: i32 = -1;

/// Factor of horizontal pointer motion in the yaw.
pub const YAW_FACTOR: i32 = 1;

/// Factor of vertical pointer motion in the pitch: moving the pointer up
/// looks up.
pub const PITCH_FACTOR: i32 = -1;

/// A scroll event in one of the two shapes a windowing system reports.
#[derive(Clone, Copy, Debug, PartialEq)]
pub enum MouseScrollDelta<S> {
    /// Scrolled lines: horizontal, then vertical.
    LineDelta(S, S),
    /// Scrolled pixels, vertical.
    PixelDelta(S),
}

/// A sample and the integer factor by which the host multiplies it.
#[derive(Clone, Copy, Debug, PartialEq)]
pub struct Scaled<S> {
    pub factor: i32,
    pub sample: S,
}

/// What one frame contributes to the camera pose.
///
/// `forward`, `right` and `up` are -1, 0 or 1: the net state of the two keys
/// of each axis. `yaw`, `pitch` and `dolly` are absent when no pointer sample
/// arrived since the frame before; an absent sample contributes nothing.
#[derive(Clone, Copy, Debug, PartialEq)]
pub struct Motion<S> {
    pub forward: i8,
    pub right: i8,
    pub up: i8,
    pub yaw: Option<Scaled<S>>,
    pub pitch: Option<Scaled<S>>,
    pub dolly: Option<Scaled<S>>,
}

/// The net state of an axis: 1 if only the positive key is held, -1 if only
/// the negative key is held, 0 otherwise.
pub open spec fn net(positive: bool, negative: bool) -> int {
    (if positive { 1int } else { 0int }) - (if negative { 1int } else { 0int })
}

/// The scroll sample that `delta` leaves pending: the vertical amount with
/// the factor of its unit.
pub open spec fn normalized_scroll<S>(delta: MouseScrollDelta<S>) -> Scaled<S> {
    match delta {
        MouseScrollDelta::LineDelta(_, lines) => Scaled { factor: LINE_SCROLL_FACTOR, sample: lines },
        MouseScrollDelta::PixelDelta(pixels) => Scaled { factor: PIXEL_SCROLL_FACTOR, sample: pixels },
    }
}

/// The mathematical state of a controller.
pub struct ControllerView<S> {
    /// The directions whose key is held down.
    pub held: Set<Direction>,
    /// Horizontal pointer motion since the last frame, if any.
    pub rotate_horizontal: Option<S>,
    /// Vertical pointer motion since the last frame, if any.
    pub rotate_vertical: Option<S>,
    /// Scroll since the last frame, if any.
    pub scroll: Option<Scaled<S>>,
    pub speed: S,
    pub sensitivity: S,
}

impl<S> ControllerView<S> {
    /// The state of a fresh controller.
    pub open spec fn initial(speed: S, sensitivity: S) -> Self {
        ControllerView {
            held: Set::empty(),
            rotate_horizontal: None,
            rotate_vertical: None,
            scroll: None,
            speed,
            sensitivity,
        }
    }

    /// The state after a key event.
    pub open spec fn with_key(self, key: KeyCode, state: ElementState) -> Self {
        match binding(key) {
            Some(d) => ControllerView {
                held: if state is Pressed { self.held.insert(d) } else { self.held.remove(d) },
                ..self
            },
            None => self,
        }
    }

    /// The state after a pointer motion event.
    pub open spec fn with_mouse(self, dx: S, dy: S) -> Self {
        ControllerView { rotate_horizontal: Some(dx), rotate_vertical: Some(dy), ..self }
    }

    /// The state after a scroll event.
    pub open spec fn with_scroll(self, delta: MouseScrollDelta<S>) -> Self {
        ControllerView { scroll: Some(normalized_scroll(delta)), ..self }
    }

    /// What the next frame integrates.
    pub open spec fn motion(self) -> Motion<S> {
        Motion {
            forward: net(self.held.contains(Direction::Forward), self.held.contains(Direction::Backward)) as i8,
            right: net(self.held.contains(Direction::Right), self.held.contains(Direction::Left)) as i8,
            up: net(self.held.contains(Direction::Up), self.held.contains(Direction::Down)) as i8,
            yaw: match self.rotate_horizontal {
                Some(dx) => Some(Scaled { factor: YAW_FACTOR, sample: dx }),
                None => None,
            },
            pitch: match self.rotate_vertical {
                Some(dy) => Some(Scaled { factor: PITCH_FACTOR, sample: dy }),
                None => None,
            },
            dolly: self.scroll,
        }
    }

    /// The state after a frame: held keys stay, pointer samples are gone.
    pub open spec fn drained(self) -> Self {
        ControllerView { rotate_horizontal: None, rotate_vertical: None, scroll: None, ..self }
    }
}

/// Accumulates input between frames and hands it out once per frame.
#[derive(Debug)]
pub struct CameraController<S> {
    amount_left: bool,
    amount_right: bool,
    amount_forward: bool,
    amount_backward: bool,
    amount_up: bool,
    amount_down: bool,
    rotate_horizontal: Option<S>,
    rotate_vertical: Option<S>,
    scroll: Option<Scaled<S>>,
    pub speed: S,
    sensitivity: S,
}

impl<S> View for CameraController<S> {
    type V = ControllerView<S>;

    closed spec fn view(&self) -> ControllerView<S> {
        ControllerView {
            held: Set::new(
                |d: Direction|
                    match d {
                        Direction::Forward => self.amount_forward,
                        Direction::Backward => self.amount_backward,
                        Direction::Left => self.amount_left,
                        Direction::Right => self.amount_right,
                        Direction::Up => self.amount_up,
                        Direction::Down => self.amount_down,
                    },
            ),
            rotate_horizontal: self.rotate_horizontal,
            rotate_vertical: self.rotate_vertical,
            scroll: self.scroll,
            speed: self.speed,
            sensitivity: self.sensitivity,
        }
    }
}

impl<S: Copy> CameraController<S> {
    /// A controller with no key held and no pointer sample pending.
    pub fn new(speed: S, sensitivity: S) -> (c: Self)
        ensures
            c@ == ControllerView::initial(speed, sensitivity),
    {
        let c = CameraController {
            amount_left: false,
            amount_right: false,
            amount_forward: false,
            amount_backward: false,
            amount_up: false,
            amount_down: false,
            rotate_horizontal: None,
            rotate_vertical: None,
            scroll: None,
            speed,
            sensitivity,
        };
        assert(c@.held =~= Set::empty());
        c
    }

    /// Records a key event. Returns whether the key has a camera binding; an
    /// unbound key changes nothing.
    pub fn process_keyboard(&mut self, key: KeyCode, state: ElementState) -> (handled: bool)
        ensures
            handled == (binding(key) is Some),
            final(self)@ == old(self)@.with_key(key, state),
    {
        let pressed = match state {
            ElementState::Pressed => true,
            ElementState::Released => false,
        };
        match key_binding(key) {
            Some(direction) => {
                match direction {
                    Direction::Forward => self.amount_forward = pressed,
                    Direction::Backward => self.amount_backward = pressed,
                    Direction::Left => self.amount_left = pressed,
                    Direction::Right => self.amount_right = pressed,
                    Direction::Up => self.amount_up = pressed,
                    Direction::Down => self.amount_down = pressed,
                }
                assert(self@.held =~= old(self)@.with_key(key, state).held);
                true
            },
            None => false,
        }
    }

    /// Records a pointer motion. It replaces a motion that is still pending:
    /// of several calls between two frames only the last one counts.
    pub fn process_mouse(&mut self, mouse_dx: S, mouse_dy: S)
        ensures
            final(self)@ == old(self)@.with_mouse(mouse_dx, mouse_dy),
    {
        self.rotate_horizontal = Some(mouse_dx);
        self.rotate_vertical = Some(mouse_dy);
    }

    /// Records a scroll event, replacing one that is still pending.
    pub fn process_scroll(&mut self, delta: &MouseScrollDelta<S>)
        ensures
            final(self)@ == old(self)@.with_scroll(*delta),
    {
        self.scroll = Some(
            match delta {
                MouseScrollDelta::LineDelta(_, scroll) => Scaled { factor: LINE_SCROLL_FACTOR, sample: *scroll },
                MouseScrollDelta::PixelDelta(scroll) => Scaled { factor: PIXEL_SCROLL_FACTOR, sample: *scroll },
            },
        );
    }

    /// Ends a frame: returns what the host integrates into the camera pose,
    /// and clears the pending pointer samples. Held keys stay held.
    pub fn take_motion(&mut self) -> (m: Motion<S>)
        ensures
            m == old(self)@.motion(),
            final(self)@ == old(self)@.drained(),
    {
        let m = Motion {
            forward: axis(self.amount_forward, self.amount_backward),
            right: axis(self.amount_right, self.amount_left),
            up: axis(self.amount_up, self.amount_down),
            yaw: match self.rotate_horizontal {
                Some(dx) => Some(Scaled { factor: YAW_FACTOR, sample: dx }),
                None => None,
            },
            pitch: match self.rotate_vertical {
                Some(dy) => Some(Scaled { factor: PITCH_FACTOR, sample: dy }),
                None => None,
            },
            dolly: self.scroll,
        };
        self.scroll = None;
        self.rotate_horizontal = None;
        self.rotate_vertical = None;
        m
    }
}

/// Computes the net state of an axis from its two keys.
pub fn axis(positive: bool, negative: bool) -> (a: i8)
    ensures
        a == net(positive, negative),
{
    if positive == negative {
        0
    } else if positive {
        1
    } else {
        -1
    }
}

impl<S: Copy> CameraController<S> {
    /// Whether the key of direction `d` is held down.
    pub fn is_held(&self, d: Direction) -> (held: bool)
        ensures
            held == self@.held.contains(d),
    {
        match d {
            Direction::Forward => self.amount_forward,
            Direction::Backward => self.amount_backward,
            Direction::Left => self.amount_left,
            Direction::Right => self.amount_right,
            Direction::Up => self.amount_up,
            Direction::Down => self.amount_down,
        }
    }

    /// The pending pointer motion: horizontal, then vertical.
    pub fn pending_rotation(&self) -> (r: (Option<S>, Option<S>))
        ensures
            r == (self@.rotate_horizontal, self@.rotate_vertical),
    {
        (self.rotate_horizontal, self.rotate_vertical)
    }

    /// The pending scroll.
    pub fn pending_scroll(&self) -> (r: Option<Scaled<S>>)
        ensures
            r == self@.scroll,
    {
        self.scroll
    }

    /// Changes the speed, as the public field `speed` lets a host do, and
    /// says what that does to the state: nothing else changes.
    pub fn set_speed(&mut self, speed: S)
        ensures
            final(self)@ == (ControllerView { speed, ..old(self)@ }),
    {
        self.speed = speed;
    }

    /// The factor that the host applies to pointer input.
    pub fn sensitivity(&self) -> (r: S)
        ensures
            r == self@.sensitivity,
    {
        self.sensitivity
    }
}

impl<S> ControllerView<S> {
    /// The state after `n` frames without an event in between.
    pub open spec fn after_frames(self, n: nat) -> Self
        decreases n,
    {
        if n == 0 {
            self
        } else {
            self.drained().after_frames((n - 1) as nat)
        }
    }

    /// A frame consumes the pointer samples: the frame after it, with no
    /// event in between, has no yaw, pitch or dolly to integrate, however
    /// the first frame went.
    pub proof fn lemma_samples_last_one_frame(self)
        ensures
            self.drained().motion().yaw is None,
            self.drained().motion().pitch is None,
            self.drained().motion().dolly is None,
            self.drained().drained() == self.drained(),
    {
    }

    /// A held key stays held over any number of frames: each of them moves
    /// the camera along the same axes as the first.
    pub proof fn lemma_held_keys_persist(self, n: nat)
        ensures
            self.after_frames(n).held == self.held,
            self.after_frames(n).motion().forward == self.motion().forward,
            self.after_frames(n).motion().right == self.motion().right,
            self.after_frames(n).motion().up == self.motion().up,
            self.after_frames(n).speed == self.speed,
            self.after_frames(n).sensitivity == self.sensitivity,
        decreases n,
    {
        if n > 0 {
            self.drained().lemma_held_keys_persist((n - 1) as nat);
        }
    }

    /// Pressing a bound key makes the next frame move along its direction,
    /// unless the opposite key is held too; releasing it again restores the
    /// axes of a state in which it was not held.
    pub proof fn lemma_key_drives_axis(self, key: KeyCode)
        requires
            binding(key) is Some,
        ensures
            self.with_key(key, ElementState::Pressed).held.contains(binding(key)->0),
            !self.with_key(key, ElementState::Released).held.contains(binding(key)->0),
            !self.held.contains(binding(key)->0) ==> self.with_key(key, ElementState::Pressed).with_key(
                key,
                ElementState::Released,
            ).held == self.held,
            forall|d: Direction|
                d != binding(key)->0 ==> (#[trigger] self.with_key(key, ElementState::Pressed).held.contains(d)
                    == self.held.contains(d)),
    {
        let d = binding(key)->0;
        if !self.held.contains(d) {
            assert(self.held.insert(d).remove(d) =~= self.held);
        }
    }

    /// Key events never touch the pointer samples, and pointer events never
    /// touch the keys.
    pub proof fn lemma_keys_and_samples_are_independent(
        self,
        key: KeyCode,
        state: ElementState,
        dx: S,
        dy: S,
        delta: MouseScrollDelta<S>,
    )
        ensures
            self.with_key(key, state).rotate_horizontal == self.rotate_horizontal,
            self.with_key(key, state).rotate_vertical == self.rotate_vertical,
            self.with_key(key, state).scroll == self.scroll,
            self.with_mouse(dx, dy).held == self.held,
            self.with_mouse(dx, dy).scroll == self.scroll,
            self.with_scroll(delta).held == self.held,
            self.with_scroll(delta).rotate_horizontal == self.rotate_horizontal,
            self.with_scroll(delta).rotate_vertical == self.rotate_vertical,
    {
    }

    /// Pointer events overwrite: of two motions, or two scrolls, before a
    /// frame, only the second one is integrated.
    pub proof fn lemma_last_sample_wins(
        self,
        dx1: S,
        dy1: S,
        dx2: S,
        dy2: S,
        first: MouseScrollDelta<S>,
        second: MouseScrollDelta<S>,
    )
        ensures
            self.with_mouse(dx1, dy1).with_mouse(dx2, dy2) == self.with_mouse(dx2, dy2),
            self.with_scroll(first).with_scroll(second) == self.with_scroll(second),
    {
    }

    /// The net state of each axis is -1, 0 or 1, and the factor of a pending
    /// scroll is that of its unit.
    pub proof fn lemma_motion_is_bounded(self)
        ensures
            -1 <= self.motion().forward <= 1,
            -1 <= self.motion().right <= 1,
            -1 <= self.motion().up <= 1,
            self.motion().yaw matches Some(y) ==> y.factor == YAW_FACTOR,
            self.motion().pitch matches Some(p) ==> p.factor == PITCH_FACTOR,
    {
    }
}

/// The lens of the camera: the viewport it renders to, and the parameters of
/// its perspective. The aspect ratio is `width / height`.
#[derive(Clone, Copy, Debug, PartialEq)]
pub struct Projection<S> {
    width: u32,
    height: u32,
    fov_y: S,
    z_near: S,
    z_far: S,
}

/// The mathematical state of a projection.
pub struct ProjectionView<S> {
    pub width: u32,
    pub height: u32,
    pub fov_y: S,
    pub z_near: S,
    pub z_far: S,
}

impl<S> ProjectionView<S> {
    /// Whether two projections have the same aspect ratio, as a fraction.
    pub open spec fn same_aspect(self, other: Self) -> bool {
        self.width * other.height == other.width * self.height
    }

    /// Whether two projections have the same field of view and clip planes.
    pub open spec fn same_lens(self, other: Self) -> bool {
        self.fov_y == other.fov_y && self.z_near == other.z_near && self.z_far == other.z_far
    }

    /// The state after the viewport changed.
    pub open spec fn resized(self, width: u32, height: u32) -> Self {
        ProjectionView { width, height, ..self }
    }

    /// A resize leaves the field of view and the clip planes alone; one to
    /// a viewport of the same proportions leaves the aspect ratio alone as
    /// well. Of two resizes only the second one shows.
    pub proof fn lemma_resize_changes_viewport_only(self, width: u32, height: u32, width2: u32, height2: u32)
        ensures
            self.resized(width, height).same_lens(self),
            width * self.height == self.width * height ==> self.resized(width, height).same_aspect(self),
            self.resized(self.width, self.height) == self,
            self.resized(width, height).resized(width2, height2) == self.resized(width2, height2),
    {
    }
}

impl<S> View for Projection<S> {
    type V = ProjectionView<S>;

    closed spec fn view(&self) -> ProjectionView<S> {
        ProjectionView {
            width: self.width,
            height: self.height,
            fov_y: self.fov_y,
            z_near: self.z_near,
            z_far: self.z_far,
        }
    }
}

impl<S: Copy> Projection<S> {
    /// A projection onto a viewport of `width` by `height` pixels. A zero
    /// `height` is stored like any other: it leaves the projection without a
    /// finite aspect ratio.
    pub fn new(width: u32, height: u32, fov_y: S, z_near: S, z_far: S) -> (p: Self)
        ensures
            p@ == (ProjectionView { width, height, fov_y, z_near, z_far }),
    {
        Projection { width, height, fov_y, z_near, z_far }
    }

    /// Follows a change of the viewport. The field of view and the clip
    /// planes stay as they are.
    pub fn resize(&mut self, width: u32, height: u32)
        ensures
            final(self)@ == old(self)@.resized(width, height),
    {
        self.width = width;
        self.height = height;
    }

    /// The viewport: width, then height.
    pub fn viewport(&self) -> (r: (u32, u32))
        ensures
            r == (self@.width, self@.height),
    {
        (self.width, self.height)
    }

    /// The vertical field of view.
    pub fn fov_y(&self) -> (r: S)
        ensures
            r == self@.fov_y,
    {
        self.fov_y
    }

    /// The near clip plane.
    pub fn z_near(&self) -> (r: S)
        ensures
            r == self@.z_near,
    {
        self.z_near
    }

    /// The far clip plane.
    pub fn z_far(&self) -> (r: S)
        ensures
            r == self@.z_far,
    {
        self.z_far
    }
}

} // verus!
