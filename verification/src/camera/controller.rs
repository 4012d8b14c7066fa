//! Input that has arrived and has not moved the camera yet.
//!
//! Events come in bursts; the camera moves once a frame. Between two frames
//! the controller keeps which directions are held and queues every mouse
//! motion and every turn of the wheel. A tick takes all of it out, so that
//! each motion and each turn moves the camera once.

use vstd::prelude::*;
use crate::camera::Camera;
use crate::input::{ElementState, Key, MouseDelta, MouseScrollDelta};
use crate::time::Duration;

verus! {

/// A direction of travel.
#[derive(Clone, Copy, Debug, PartialEq, Eq, Structural)]
pub enum Direction {
    Forward,
    Backward,
    Left,
    Right,
    Up,
    Down,
}

/// The direction a key stands for, if it stands for one.
pub open spec fn spec_direction_of(key: Key) -> Option<Direction> {
    match key {
        Key::W | Key::Up => Some(Direction::Forward),
        Key::S | Key::Down => Some(Direction::Backward),
        Key::A | Key::Left => Some(Direction::Left),
        Key::D | Key::Right => Some(Direction::Right),
        Key::Space => Some(Direction::Up),
        Key::LShift => Some(Direction::Down),
        Key::Escape | Key::Other => None,
    }
}

#[verifier::when_used_as_spec(spec_direction_of)]
pub fn direction_of(key: Key) -> (direction: Option<Direction>)
    ensures
        direction == spec_direction_of(key),
{
    match key {
        Key::W | Key::Up => Some(Direction::Forward),
        Key::S | Key::Down => Some(Direction::Backward),
        Key::A | Key::Left => Some(Direction::Left),
        Key::D | Key::Right => Some(Direction::Right),
        Key::Space => Some(Direction::Up),
        Key::LShift => Some(Direction::Down),
        Key::Escape | Key::Other => None,
    }
}

/// The directions that are held.
#[derive(Clone, Copy, Debug, PartialEq, Eq, Structural)]
pub struct Held {
    pub forward: bool,
    pub backward: bool,
    pub left: bool,
    pub right: bool,
    pub up: bool,
    pub down: bool,
}

impl Held {
    /// `self` with `direction` held or let go.
    pub open spec fn with(self, direction: Direction, held: bool) -> Held {
        match direction {
            Direction::Forward => Held { forward: held, ..self },
            Direction::Backward => Held { backward: held, ..self },
            Direction::Left => Held { left: held, ..self },
            Direction::Right => Held { right: held, ..self },
            Direction::Up => Held { up: held, ..self },
            Direction::Down => Held { down: held, ..self },
        }
    }
}

/// Travel along one axis: 1 while only the positive direction is held, -1
/// while only the negative one is, 0 otherwise.
pub open spec fn spec_axis(positive: bool, negative: bool) -> i8 {
    if positive && !negative {
        1i8
    } else if negative && !positive {
        -1i8
    } else {
        0i8
    }
}

#[verifier::when_used_as_spec(spec_axis)]
pub fn axis(positive: bool, negative: bool) -> (travel: i8)
    ensures
        travel == spec_axis(positive, negative),
{
    if positive && !negative {
        1
    } else if negative && !positive {
        -1
    } else {
        0
    }
}

/// What a controller holds, as mathematics.
pub struct ControllerView {
    pub held: Held,
    /// Mouse motions since the last tick, oldest first.
    pub look: Seq<MouseDelta>,
    /// Turns of the wheel since the last tick, oldest first.
    pub scroll: Seq<MouseScrollDelta>,
    pub speed: u32,
    pub sensitivity: u32,
}

impl ControllerView {
    /// The controller after a key went down or came up.
    pub open spec fn after_key(self, key: Key, state: ElementState) -> ControllerView {
        match spec_direction_of(key) {
            Some(direction) => ControllerView {
                held: self.held.with(direction, state == ElementState::Pressed),
                ..self
            },
            None => self,
        }
    }

    /// The controller after a motion of the mouse.
    pub open spec fn after_mouse(self, delta: MouseDelta) -> ControllerView {
        ControllerView { look: self.look.push(delta), ..self }
    }

    /// The controller after every motion of `deltas`, in order.
    pub open spec fn after_mice(self, deltas: Seq<MouseDelta>) -> ControllerView
        decreases deltas.len(),
    {
        if deltas.len() == 0 {
            self
        } else {
            self.after_mice(deltas.drop_last()).after_mouse(deltas.last())
        }
    }

    /// The controller after a turn of the wheel.
    pub open spec fn after_scroll(self, delta: MouseScrollDelta) -> ControllerView {
        ControllerView { scroll: self.scroll.push(delta), ..self }
    }

    /// The controller after a tick: nothing is queued, what is held stays
    /// held.
    pub open spec fn after_tick(self) -> ControllerView {
        ControllerView { look: Seq::empty(), scroll: Seq::empty(), ..self }
    }

    /// Nothing is queued.
    pub open spec fn is_drained(self) -> bool {
        self.look.len() == 0 && self.scroll.len() == 0
    }
}

/// What one tick moves the camera by: where the camera stands, for how long
/// to travel along each axis and how fast, and every mouse motion and turn
/// of the wheel to apply. Forward and right are taken along the camera's
/// yaw alone; up is the world's vertical.
#[derive(Debug, PartialEq, Eq)]
pub struct CameraStep {
    pub camera: Camera,
    pub elapsed: Duration,
    /// 1 forward, -1 backward.
    pub forward: i8,
    /// 1 to the right, -1 to the left.
    pub right: i8,
    /// 1 up, -1 down.
    pub up: i8,
    /// Mouse motions to apply, oldest first: horizontal motion turns the
    /// yaw, vertical motion the pitch, each scaled by `sensitivity`.
    pub look: Vec<MouseDelta>,
    /// Turns of the wheel to apply, oldest first.
    pub scroll: Vec<MouseScrollDelta>,
    /// Distance per second, a 32-bit float in its bits.
    pub speed: u32,
    /// Radians per unit of mouse motion, a 32-bit float in its bits.
    pub sensitivity: u32,
}

impl CameraStep {
    /// The step that a tick of `elapsed` takes out of a controller for
    /// `camera`.
    pub open spec fn is_tick_of(&self, controller: ControllerView, camera: Camera, elapsed: Duration)
        -> bool {
        &&& self.camera == camera
        &&& self.elapsed == elapsed
        &&& self.forward == spec_axis(controller.held.forward, controller.held.backward)
        &&& self.right == spec_axis(controller.held.right, controller.held.left)
        &&& self.up == spec_axis(controller.held.up, controller.held.down)
        &&& self.look@ == controller.look
        &&& self.scroll@ == controller.scroll
        &&& self.speed == controller.speed
        &&& self.sensitivity == controller.sensitivity
    }
}

/// Keeps what the input asks of the camera until the next tick.
#[derive(Debug)]
pub struct CameraController {
    held: Held,
    look: Vec<MouseDelta>,
    scroll: Vec<MouseScrollDelta>,
    speed: u32,
    sensitivity: u32,
}

impl View for CameraController {
    type V = ControllerView;

    closed spec fn view(&self) -> ControllerView {
        ControllerView {
            held: self.held,
            look: self.look@,
            scroll: self.scroll@,
            speed: self.speed,
            sensitivity: self.sensitivity,
        }
    }
}

impl CameraController {
    /// A controller with nothing held and nothing queued.
    pub fn new(speed: u32, sensitivity: u32) -> (controller: Self)
        ensures
            controller@ == (ControllerView {
                held: Held {
                    forward: false,
                    backward: false,
                    left: false,
                    right: false,
                    up: false,
                    down: false,
                },
                look: Seq::empty(),
                scroll: Seq::empty(),
                speed,
                sensitivity,
            }),
    {
        CameraController {
            held: Held {
                forward: false,
                backward: false,
                left: false,
                right: false,
                up: false,
                down: false,
            },
            look: Vec::new(),
            scroll: Vec::new(),
            speed,
            sensitivity,
        }
    }

    /// Records that a key went down or came up. Returns whether the key
    /// stands for a direction; any other key leaves the controller as it is.
    pub fn process_keyboard(&mut self, key: Key, state: ElementState) -> (recognized: bool)
        ensures
            recognized == spec_direction_of(key).is_some(),
            final(self)@ == old(self)@.after_key(key, state),
            !recognized ==> *final(self) == *old(self),
    {
        let held: bool = match state {
            ElementState::Pressed => true,
            ElementState::Released => false,
        };
        match direction_of(key) {
            Some(Direction::Forward) => {
                self.held.forward = held;
                true
            },
            Some(Direction::Backward) => {
                self.held.backward = held;
                true
            },
            Some(Direction::Left) => {
                self.held.left = held;
                true
            },
            Some(Direction::Right) => {
                self.held.right = held;
                true
            },
            Some(Direction::Up) => {
                self.held.up = held;
                true
            },
            Some(Direction::Down) => {
                self.held.down = held;
                true
            },
            None => false,
        }
    }

    /// Queues a motion of the mouse.
    pub fn process_mouse(&mut self, mouse_dx: u64, mouse_dy: u64)
        ensures
            final(self)@ == old(self)@.after_mouse(MouseDelta { dx: mouse_dx, dy: mouse_dy }),
    {
        self.look.push(MouseDelta { dx: mouse_dx, dy: mouse_dy });
    }

    /// Queues a turn of the wheel.
    pub fn process_scroll(&mut self, delta: &MouseScrollDelta)
        ensures
            final(self)@ == old(self)@.after_scroll(*delta),
    {
        self.scroll.push(*delta);
    }

    /// One tick: hands out everything that has arrived since the last tick
    /// as the step to move `camera` by, and forgets it. What is held stays
    /// held.
    pub fn update_camera(&mut self, camera: &Camera, elapsed: Duration) -> (step: CameraStep)
        ensures
            step.is_tick_of(old(self)@, *camera, elapsed),
            final(self)@ == old(self)@.after_tick(),
    {
        let mut look: Vec<MouseDelta> = Vec::new();
        let mut scroll: Vec<MouseScrollDelta> = Vec::new();
        std::mem::swap(&mut self.look, &mut look);
        std::mem::swap(&mut self.scroll, &mut scroll);
        CameraStep {
            camera: *camera,
            elapsed,
            forward: axis(self.held.forward, self.held.backward),
            right: axis(self.held.right, self.held.left),
            up: axis(self.held.up, self.held.down),
            look,
            scroll,
            speed: self.speed,
            sensitivity: self.sensitivity,
        }
    }
}

/// However many motions of the mouse arrive before a tick, the tick hands
/// out exactly those motions, each once and in their order; a second tick
/// with no input in between hands out none.
pub proof fn lemma_single_application(
    start: ControllerView,
    deltas: Seq<MouseDelta>,
    camera: Camera,
    elapsed: Duration,
    first: CameraStep,
    second: CameraStep,
)
    requires
        start.look.len() == 0,
        first.is_tick_of(start.after_mice(deltas), camera, elapsed),
        second.is_tick_of(start.after_mice(deltas).after_tick(), camera, elapsed),
    ensures
        first.look@ == deltas,
        second.look@.len() == 0,
        second.scroll@.len() == 0,
        start.after_mice(deltas).after_tick().is_drained(),
        start.after_mice(deltas).after_tick().after_tick() == start.after_mice(deltas).after_tick(),
{
    lemma_after_mice(start, deltas);
}

/// Motions of the mouse queue up behind what is queued and change nothing
/// else.
pub proof fn lemma_after_mice(start: ControllerView, deltas: Seq<MouseDelta>)
    ensures
        start.after_mice(deltas) == (ControllerView { look: start.look + deltas, ..start }),
    decreases deltas.len(),
{
    if deltas.len() == 0 {
        assert(start.look + deltas =~= start.look);
    } else {
        lemma_after_mice(start, deltas.drop_last());
        assert((start.look + deltas.drop_last()).push(deltas.last()) =~= start.look + deltas);
    }
}

} // verus!
