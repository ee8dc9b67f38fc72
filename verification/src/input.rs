//! What a frame does with the window's events: the table of held keys, the
//! directions the camera moves in, and the requests that keys and resizes
//! lead to.
//!
//! Key codes are the windowing layer's; this module never interprets them. The
//! host says which codes it binds to which action.

use crate::codes;
use crate::command::GlCommand;
use vstd::prelude::*;

verus! {

/// Whether a context of version `major.minor` offers what the renderer needs,
/// which is version 3.3 or later.
pub fn supports_renderer(major: u64, minor: u64) -> (supported: bool)
    ensures
        supported == (major > 3 || (major == 3 && minor >= 3)),
{
    !(major < 3 || (major == 3 && minor < 3))
}

/// A direction of camera movement.
#[derive(Clone, Copy, Debug, PartialEq, Eq, Structural)]
pub enum Direction {
    Forward,
    Left,
    Backward,
    Right,
    Up,
    Down,
}

/// One of the three axes that the camera moves along.
#[derive(Clone, Copy, Debug, PartialEq, Eq, Structural)]
pub enum Axis {
    /// The viewing direction.
    Forward,
    /// The unit vector to the right: the normalised cross product of the
    /// viewing direction and the up vector.
    Right,
    /// The up vector.
    Up,
}

/// The axis that a direction moves along.
pub open spec fn axis_of(direction: Direction) -> Axis {
    match direction {
        Direction::Forward | Direction::Backward => Axis::Forward,
        Direction::Left | Direction::Right => Axis::Right,
        Direction::Up | Direction::Down => Axis::Up,
    }
}

/// Whether a direction moves along its axis (1) or against it (-1).
pub open spec fn sign_of(direction: Direction) -> int {
    match direction {
        Direction::Forward | Direction::Right | Direction::Up => 1,
        Direction::Backward | Direction::Left | Direction::Down => -1,
    }
}

impl Direction {
    /// The axis that this direction moves along.
    pub fn axis(&self) -> (axis: Axis)
        ensures
            axis == axis_of(*self),
    {
        match self {
            Direction::Forward | Direction::Backward => Axis::Forward,
            Direction::Left | Direction::Right => Axis::Right,
            Direction::Up | Direction::Down => Axis::Up,
        }
    }

    /// 1 where this direction moves along its axis, -1 where against it.
    pub fn sign(&self) -> (sign: i8)
        ensures
            sign == sign_of(*self),
    {
        match self {
            Direction::Forward | Direction::Right | Direction::Up => 1,
            Direction::Backward | Direction::Left | Direction::Down => -1,
        }
    }
}

/// Which keys are held, by key code. Codes at or beyond the capacity are not
/// tracked: they always read as released.
#[derive(Debug)]
pub struct KeyStates {
    held: Vec<bool>,
}

impl KeyStates {
    /// The number of key codes that the table tracks.
    pub closed spec fn capacity(&self) -> nat {
        self.held@.len()
    }

    /// Whether the key with code `key` is held.
    pub closed spec fn is_held(&self, key: usize) -> bool {
        key < self.held@.len() && self.held@[key as int]
    }

    /// A table for the codes below `capacity`, with every key released.
    pub fn new(capacity: usize) -> (keys: KeyStates)
        ensures
            keys.capacity() == capacity,
            forall|key: usize| !keys.is_held(key),
    {
        let mut held: Vec<bool> = Vec::new();
        let mut i: usize = 0;
        while i < capacity
            invariant
                i <= capacity,
                held@.len() == i,
                forall|k: int| 0 <= k < i ==> !held@[k],
            decreases capacity - i,
        {
            held.push(false);
            i += 1;
        }
        KeyStates { held }
    }

    /// Records a key transition: the key is held from a press until its
    /// release. Every other key stays as it was.
    pub fn record(&mut self, key: usize, pressed: bool)
        ensures
            final(self).capacity() == old(self).capacity(),
            forall|k: usize|
                final(self).is_held(k) == if k == key && key < old(self).capacity() {
                    pressed
                } else {
                    old(self).is_held(k)
                },
    {
        if key < self.held.len() {
            self.held[key] = pressed;
        }
    }

    /// Whether the key with code `key` is held.
    pub fn held(&self, key: usize) -> (held: bool)
        ensures
            held == self.is_held(key),
    {
        key < self.held.len() && self.held[key]
    }
}

/// The key codes that the host binds to the actions of a frame.
#[derive(Clone, Copy, Debug, PartialEq, Eq, Structural)]
pub struct KeyBindings {
    pub forward: usize,
    pub left: usize,
    pub backward: usize,
    pub right: usize,
    pub up: usize,
    pub down: usize,
    pub polygon_mode: usize,
    pub close: usize,
}

/// The key code that `bindings` gives to a direction.
pub open spec fn key_for(bindings: KeyBindings, direction: Direction) -> usize {
    match direction {
        Direction::Forward => bindings.forward,
        Direction::Left => bindings.left,
        Direction::Backward => bindings.backward,
        Direction::Right => bindings.right,
        Direction::Up => bindings.up,
        Direction::Down => bindings.down,
    }
}

/// `direction` alone where `held`, nothing otherwise.
pub open spec fn when_held(held: bool, direction: Direction) -> Seq<Direction> {
    if held {
        seq![direction]
    } else {
        Seq::empty()
    }
}

/// The directions whose keys are held, in the order in which a frame applies
/// them: forward, left, backward, right, up, down.
pub open spec fn held_directions(keys: KeyStates, bindings: KeyBindings) -> Seq<Direction> {
    let forward = when_held(keys.is_held(bindings.forward), Direction::Forward);
    let left = when_held(keys.is_held(bindings.left), Direction::Left);
    let backward = when_held(keys.is_held(bindings.backward), Direction::Backward);
    let right = when_held(keys.is_held(bindings.right), Direction::Right);
    let up = when_held(keys.is_held(bindings.up), Direction::Up);
    let down = when_held(keys.is_held(bindings.down), Direction::Down);
    forward + left + backward + right + up + down
}

/// Appending a direction that `directions` lacks, where its key is held,
/// adds that direction and nothing else, and repeats nothing.
proof fn lemma_append_when_held(directions: Seq<Direction>, held: bool, direction: Direction)
    requires
        directions.no_duplicates(),
        !directions.contains(direction),
    ensures
        (directions + when_held(held, direction)).no_duplicates(),
        (directions + when_held(held, direction)).len() <= directions.len() + 1,
        forall|x: Direction|
            (directions + when_held(held, direction)).contains(x) <==> directions.contains(x) || (
            held && x == direction),
{
    let longer = directions + when_held(held, direction);
    if held {
        assert(longer =~= directions.push(direction));
        assert(longer[directions.len() as int] == direction);
        assert forall|x: Direction| directions.contains(x) implies longer.contains(x) by {
            let i = choose|i: int| 0 <= i < directions.len() && directions[i] == x;
            assert(longer[i] == x);
        }
    } else {
        assert(longer =~= directions);
    }
}

/// A direction is applied in a frame exactly when its key is held, and no
/// direction is applied twice.
pub proof fn lemma_held_directions(keys: KeyStates, bindings: KeyBindings, direction: Direction)
    ensures
        held_directions(keys, bindings).contains(direction) <==> keys.is_held(
            key_for(bindings, direction),
        ),
        held_directions(keys, bindings).no_duplicates(),
        held_directions(keys, bindings).len() <= 6,
{
    let none = Seq::<Direction>::empty();
    let one = none + when_held(keys.is_held(bindings.forward), Direction::Forward);
    let two = one + when_held(keys.is_held(bindings.left), Direction::Left);
    let three = two + when_held(keys.is_held(bindings.backward), Direction::Backward);
    let four = three + when_held(keys.is_held(bindings.right), Direction::Right);
    let five = four + when_held(keys.is_held(bindings.up), Direction::Up);
    let six = five + when_held(keys.is_held(bindings.down), Direction::Down);
    lemma_append_when_held(none, keys.is_held(bindings.forward), Direction::Forward);
    lemma_append_when_held(one, keys.is_held(bindings.left), Direction::Left);
    lemma_append_when_held(two, keys.is_held(bindings.backward), Direction::Backward);
    lemma_append_when_held(three, keys.is_held(bindings.right), Direction::Right);
    lemma_append_when_held(four, keys.is_held(bindings.up), Direction::Up);
    lemma_append_when_held(five, keys.is_held(bindings.down), Direction::Down);
    assert(!none.contains(direction));
    assert(one.contains(direction) <==> keys.is_held(bindings.forward) && direction
        == Direction::Forward);
    assert(two.contains(direction) <==> one.contains(direction) || (keys.is_held(bindings.left)
        && direction == Direction::Left));
    assert(three.contains(direction) <==> two.contains(direction) || (keys.is_held(
        bindings.backward,
    ) && direction == Direction::Backward));
    assert(four.contains(direction) <==> three.contains(direction) || (keys.is_held(
        bindings.right,
    ) && direction == Direction::Right));
    assert(five.contains(direction) <==> four.contains(direction) || (keys.is_held(bindings.up)
        && direction == Direction::Up));
    assert(six.contains(direction) <==> five.contains(direction) || (keys.is_held(bindings.down)
        && direction == Direction::Down));
    assert(one =~= when_held(keys.is_held(bindings.forward), Direction::Forward));
    assert(six == held_directions(keys, bindings));
}

/// The polygon mode that follows `mode` in the cycle fill, line, point; none
/// for a code that is no polygon mode.
pub open spec fn next_polygon_mode(mode: u32) -> Option<u32> {
    if mode == codes::FILL {
        Some(codes::LINE)
    } else if mode == codes::LINE {
        Some(codes::POINT)
    } else if mode == codes::POINT {
        Some(codes::FILL)
    } else {
        None
    }
}

/// Three steps through the cycle of polygon modes lead back to the start.
pub proof fn lemma_polygon_modes_cycle(mode: u32)
    requires
        next_polygon_mode(mode) is Some,
    ensures
        next_polygon_mode(mode)->Some_0 != mode,
        next_polygon_mode(next_polygon_mode(mode)->Some_0) is Some,
        next_polygon_mode(next_polygon_mode(next_polygon_mode(mode)->Some_0)->Some_0) == Some(mode),
{
}

/// The request that switches from the polygon mode `current`, as the driver
/// reports it, to the next one in the cycle; none where `current` is no
/// polygon mode.
pub fn cycle_polygon_mode(current: u32) -> (command: Option<GlCommand>)
    ensures
        command == match next_polygon_mode(current) {
            Some(mode) => Some(GlCommand::PolygonMode { face: codes::FRONT_AND_BACK, mode }),
            None => None,
        },
{
    let mode = if current == codes::gl_fill() {
        codes::gl_line()
    } else if current == codes::gl_line() {
        codes::gl_point()
    } else if current == codes::gl_point() {
        codes::gl_fill()
    } else {
        return None;
    };
    Some(GlCommand::PolygonMode { face: codes::gl_front_and_back(), mode })
}

/// The request that makes the whole framebuffer of the given size drawable.
pub fn viewport_for(width: i32, height: i32) -> (command: GlCommand)
    ensures
        command == (GlCommand::Viewport { x: 0, y: 0, width, height }),
{
    GlCommand::Viewport { x: 0, y: 0, width, height }
}

/// An event of the window, without the payloads that only the host reads.
#[derive(Clone, Copy, Debug, PartialEq, Eq, Structural)]
pub enum WindowEvent {
    /// A key was pressed (or repeats), or was released.
    Key { key: usize, pressed: bool },
    /// The pointer was sampled at a new position.
    CursorMoved,
    /// The wheel was scrolled.
    Scrolled,
    /// The framebuffer was resized.
    Resized { width: i32, height: i32 },
    /// Anything else.
    Other,
}

/// The input of one frame: the held keys and whether the pointer has been
/// sampled at all, which persist from frame to frame, and whether the pointer
/// moved or the wheel scrolled during this frame.
///
/// The pointer is reported by position, so its first sample tells where it
/// is, not how far it moved: it counts as no motion.
#[derive(Debug)]
pub struct FrameInput {
    keys: KeyStates,
    pointer_seen: bool,
    pointer_moved: bool,
    scrolled: bool,
}

/// What a frame does once its events are in.
#[derive(Debug, PartialEq, Eq)]
pub struct FrameActions {
    /// The directions to move the camera in, in order.
    pub directions: Vec<Direction>,
    /// Whether to switch to the next polygon mode.
    pub cycle_polygon_mode: bool,
    /// Whether to close the window.
    pub close: bool,
    /// Whether to turn the camera by the pointer's motion.
    pub look: bool,
    /// Whether to zoom by the wheel's motion.
    pub zoom: bool,
}

impl FrameInput {
    /// The held keys.
    pub closed spec fn keys(&self) -> KeyStates {
        self.keys
    }

    /// Whether the pointer has been sampled since startup.
    pub closed spec fn pointer_seen(&self) -> bool {
        self.pointer_seen
    }

    /// Whether the pointer moved during this frame: whether a sample came in
    /// that was not the first since startup.
    pub closed spec fn pointer_moved(&self) -> bool {
        self.pointer_moved
    }

    /// Whether the wheel was scrolled during this frame.
    pub closed spec fn scrolled(&self) -> bool {
        self.scrolled
    }

    /// The input before any event: `capacity` key codes are tracked, no key
    /// is held, the pointer has not been sampled, nothing moved.
    pub fn new(capacity: usize) -> (input: FrameInput)
        ensures
            input.keys().capacity() == capacity,
            forall|key: usize| !input.keys().is_held(key),
            !input.pointer_seen(),
            !input.pointer_moved(),
            !input.scrolled(),
    {
        FrameInput {
            keys: KeyStates::new(capacity),
            pointer_seen: false,
            pointer_moved: false,
            scrolled: false,
        }
    }

    /// Starts a frame: the held keys stay, and so does whether the pointer
    /// has been sampled; the pointer and the wheel have not moved yet.
    pub fn begin_frame(&mut self)
        ensures
            final(self).keys() == old(self).keys(),
            final(self).pointer_seen() == old(self).pointer_seen(),
            !final(self).pointer_moved(),
            !final(self).scrolled(),
    {
        self.pointer_moved = false;
        self.scrolled = false;
    }

    /// Takes in one event. A key event updates the table of held keys. A
    /// pointer sample counts as motion in this frame unless it is the first
    /// since startup. A wheel event is noted for this frame, and a resize
    /// leads to the request that adapts the viewport. No other event changes
    /// anything.
    pub fn handle(&mut self, event: WindowEvent) -> (command: Option<GlCommand>)
        ensures
            final(self).keys().capacity() == old(self).keys().capacity(),
            forall|k: usize|
                final(self).keys().is_held(k) == match event {
                    WindowEvent::Key { key, pressed } if k == key && key < old(
                        self,
                    ).keys().capacity() => pressed,
                    _ => old(self).keys().is_held(k),
                },
            final(self).pointer_seen() == (old(self).pointer_seen() || event is CursorMoved),
            final(self).pointer_moved() == (old(self).pointer_moved() || (event is CursorMoved
                && old(self).pointer_seen())),
            final(self).scrolled() == (old(self).scrolled() || event is Scrolled),
            command == match event {
                WindowEvent::Resized { width, height } => Some(
                    GlCommand::Viewport { x: 0, y: 0, width, height },
                ),
                _ => None,
            },
    {
        match event {
            WindowEvent::Key { key, pressed } => {
                self.keys.record(key, pressed);
                None
            },
            WindowEvent::CursorMoved => {
                if self.pointer_seen {
                    self.pointer_moved = true;
                }
                self.pointer_seen = true;
                None
            },
            WindowEvent::Scrolled => {
                self.scrolled = true;
                None
            },
            WindowEvent::Resized { width, height } => Some(viewport_for(width, height)),
            WindowEvent::Other => None,
        }
    }

    /// What the frame does, given the host's key bindings.
    pub fn actions(&self, bindings: &KeyBindings) -> (actions: FrameActions)
        ensures
            actions.directions@ == held_directions(self.keys(), *bindings),
            actions.cycle_polygon_mode == self.keys().is_held(bindings.polygon_mode),
            actions.close == self.keys().is_held(bindings.close),
            actions.look == self.pointer_moved(),
            actions.zoom == self.scrolled(),
    {
        let mut directions: Vec<Direction> = Vec::new();
        if self.keys.held(bindings.forward) {
            directions.push(Direction::Forward);
        }
        let ghost one = directions@;
        if self.keys.held(bindings.left) {
            directions.push(Direction::Left);
        }
        let ghost two = directions@;
        if self.keys.held(bindings.backward) {
            directions.push(Direction::Backward);
        }
        let ghost three = directions@;
        if self.keys.held(bindings.right) {
            directions.push(Direction::Right);
        }
        let ghost four = directions@;
        if self.keys.held(bindings.up) {
            directions.push(Direction::Up);
        }
        let ghost five = directions@;
        if self.keys.held(bindings.down) {
            directions.push(Direction::Down);
        }
        proof {
            let keys = self.keys;
            assert(one =~= when_held(keys.is_held(bindings.forward), Direction::Forward));
            assert(two =~= one + when_held(keys.is_held(bindings.left), Direction::Left));
            assert(three =~= two + when_held(keys.is_held(bindings.backward), Direction::Backward));
            assert(four =~= three + when_held(keys.is_held(bindings.right), Direction::Right));
            assert(five =~= four + when_held(keys.is_held(bindings.up), Direction::Up));
            assert(directions@ =~= five + when_held(keys.is_held(bindings.down), Direction::Down));
        }
        FrameActions {
            directions,
            cycle_polygon_mode: self.keys.held(bindings.polygon_mode),
            close: self.keys.held(bindings.close),
            look: self.pointer_moved,
            zoom: self.scrolled,
        }
    }
}

} // verus!
