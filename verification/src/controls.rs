//! Keyboard and mouse input: which command a key press is, and the camera
//! controller's record of which movement keys are held.
use vstd::prelude::*;

verus! {

/// The keys the controls tell apart; every other key is `Other`.
#[derive(Clone, Copy, Debug, PartialEq, Eq, Structural)]
pub enum Key {
    Escape,
    KeyV,
    KeyO,
    KeyF,
    F11,
    Space,
    ShiftLeft,
    KeyW,
    KeyA,
    KeyS,
    KeyD,
    ArrowUp,
    ArrowLeft,
    ArrowDown,
    ArrowRight,
    Other,
}

/// The mouse buttons the controls tell apart.
#[derive(Clone, Copy, Debug, PartialEq, Eq, Structural)]
pub enum MouseButton {
    Left,
    Right,
    Middle,
    Other,
}

/// What a key event asks of the application.
#[derive(Clone, Copy, Debug, PartialEq, Eq, Structural)]
pub enum KeyCommand {
    /// Close the application.
    Exit,
    /// Compare the GPU heightmap with the CPU baseline.
    Verify,
    /// Switch to the next pipeline.
    NextPipeline,
    /// Enter or leave fullscreen.
    ToggleFullscreen,
    /// Hand the event to the camera controller.
    Camera,
}

/// The six directions the camera moves in.
#[derive(Clone, Copy, Debug, PartialEq, Eq, Structural)]
pub enum Direction {
    Forward,
    Backward,
    Left,
    Right,
    Up,
    Down,
}

/// The input state of the camera controller: which movement keys are held,
/// and whether mouse look is on.
#[derive(Clone, Copy, Debug, PartialEq, Eq, Structural)]
pub struct CameraController {
    pub forward: bool,
    pub backward: bool,
    pub left: bool,
    pub right: bool,
    pub up: bool,
    pub down: bool,
    pub mouse_look_active: bool,
}

/// The command of a key event.
pub open spec fn route_key_spec(key: Key, is_pressed: bool) -> KeyCommand {
    if !is_pressed {
        KeyCommand::Camera
    } else {
        match key {
            Key::Escape => KeyCommand::Exit,
            Key::KeyV => KeyCommand::Verify,
            Key::KeyO => KeyCommand::NextPipeline,
            Key::F11 | Key::KeyF => KeyCommand::ToggleFullscreen,
            _ => KeyCommand::Camera,
        }
    }
}

/// The direction a key moves the camera in, if it is a movement key.
pub open spec fn key_direction(key: Key) -> Option<Direction> {
    match key {
        Key::Space => Some(Direction::Up),
        Key::ShiftLeft => Some(Direction::Down),
        Key::KeyW | Key::ArrowUp => Some(Direction::Forward),
        Key::KeyA | Key::ArrowLeft => Some(Direction::Left),
        Key::KeyS | Key::ArrowDown => Some(Direction::Backward),
        Key::KeyD | Key::ArrowRight => Some(Direction::Right),
        _ => None,
    }
}

/// `held - opposite` as -1, 0 or 1.
pub open spec fn axis(held: bool, opposite: bool) -> int {
    (if held { 1int } else { 0int }) - (if opposite { 1int } else { 0int })
}

fn axis_value(held: bool, opposite: bool) -> (v: i8)
    ensures
        v == axis(held, opposite),
{
    let a: i8 = if held { 1 } else { 0 };
    let b: i8 = if opposite { 1 } else { 0 };
    a - b
}

/// What a key event routes to: the command it triggers.
pub fn route_key(key: Key, is_pressed: bool) -> (c: KeyCommand)
    ensures
        c == route_key_spec(key, is_pressed),
{
    if !is_pressed {
        return KeyCommand::Camera;
    }
    match key {
        Key::Escape => KeyCommand::Exit,
        Key::KeyV => KeyCommand::Verify,
        Key::KeyO => KeyCommand::NextPipeline,
        Key::F11 | Key::KeyF => KeyCommand::ToggleFullscreen,
        _ => KeyCommand::Camera,
    }
}

impl CameraController {
    /// Whether movement in direction `d` is held.
    pub open spec fn holds(self, d: Direction) -> bool {
        match d {
            Direction::Forward => self.forward,
            Direction::Backward => self.backward,
            Direction::Left => self.left,
            Direction::Right => self.right,
            Direction::Up => self.up,
            Direction::Down => self.down,
        }
    }

    /// The state after a key event.
    pub open spec fn after_key(self, key: Key, is_pressed: bool) -> Self {
        match key_direction(key) {
            None => self,
            Some(Direction::Forward) => Self { forward: is_pressed, ..self },
            Some(Direction::Backward) => Self { backward: is_pressed, ..self },
            Some(Direction::Left) => Self { left: is_pressed, ..self },
            Some(Direction::Right) => Self { right: is_pressed, ..self },
            Some(Direction::Up) => Self { up: is_pressed, ..self },
            Some(Direction::Down) => Self { down: is_pressed, ..self },
        }
    }

    /// No key held, mouse look off.
    pub fn new() -> (c: Self)
        ensures
            forall|d: Direction| !c.holds(d),
            !c.mouse_look_active,
    {
        CameraController {
            forward: false,
            backward: false,
            left: false,
            right: false,
            up: false,
            down: false,
            mouse_look_active: false,
        }
    }

    /// Records a key event; returns true if the key was a movement key and
    /// was consumed.
    pub fn handle_key(&mut self, key: Key, is_pressed: bool) -> (consumed: bool)
        ensures
            consumed == key_direction(key) is Some,
            *final(self) == old(self).after_key(key, is_pressed),
    {
        match key {
            Key::Space => {
                self.up = is_pressed;
                true
            },
            Key::ShiftLeft => {
                self.down = is_pressed;
                true
            },
            Key::KeyW | Key::ArrowUp => {
                self.forward = is_pressed;
                true
            },
            Key::KeyA | Key::ArrowLeft => {
                self.left = is_pressed;
                true
            },
            Key::KeyS | Key::ArrowDown => {
                self.backward = is_pressed;
                true
            },
            Key::KeyD | Key::ArrowRight => {
                self.right = is_pressed;
                true
            },
            _ => false,
        }
    }

    /// Records a mouse button event: the right button turns mouse look on
    /// while it is held. Returns true if the event changed whether the
    /// cursor is grabbed (the right button), false otherwise.
    pub fn handle_mouse_button(&mut self, button: MouseButton, pressed: bool) -> (grab_changed:
        bool)
        ensures
            grab_changed == (button == MouseButton::Right),
            final(self).mouse_look_active == (if button == MouseButton::Right {
                pressed
            } else {
                old(self).mouse_look_active
            }),
            final(self).forward == old(self).forward,
            final(self).backward == old(self).backward,
            final(self).left == old(self).left,
            final(self).right == old(self).right,
            final(self).up == old(self).up,
            final(self).down == old(self).down,
    {
        if button == MouseButton::Right {
            self.mouse_look_active = pressed;
            true
        } else {
            false
        }
    }

    /// The movement along the camera's horizontal forward axis, its right
    /// axis and the vertical axis, each -1, 0 or 1.
    pub fn movement_axes(&self) -> (a: (i8, i8, i8))
        ensures
            a.0 == axis(self.forward, self.backward),
            a.1 == axis(self.right, self.left),
            a.2 == axis(self.up, self.down),
    {
        (
            axis_value(self.forward, self.backward),
            axis_value(self.right, self.left),
            axis_value(self.up, self.down),
        )
    }
}

/// A key event changes at most the direction of that key: every other
/// direction and mouse look stay as they were, and the key's own direction
/// is then held exactly when the key is pressed.
pub proof fn lemma_key_changes_only_its_direction(c: CameraController, key: Key, is_pressed: bool, d: Direction)
    ensures
        key_direction(key) == Some(d) ==> c.after_key(key, is_pressed).holds(d) == is_pressed,
        key_direction(key) != Some(d) ==> c.after_key(key, is_pressed).holds(d) == c.holds(d),
        c.after_key(key, is_pressed).mouse_look_active == c.mouse_look_active,
{
}

/// Pressing and then releasing a key leaves its direction released, whatever
/// came before; repeating an event changes nothing more.
pub proof fn lemma_press_release(c: CameraController, key: Key)
    ensures
        key_direction(key) matches Some(d) ==> !c.after_key(key, true).after_key(key, false).holds(
            d,
        ),
        c.after_key(key, true).after_key(key, true) == c.after_key(key, true),
        c.after_key(key, false).after_key(key, false) == c.after_key(key, false),
{
}

/// Events of keys for different directions commute.
pub proof fn lemma_keys_commute(c: CameraController, k1: Key, p1: bool, k2: Key, p2: bool)
    requires
        key_direction(k1) != key_direction(k2) || key_direction(k1) is None,
    ensures
        c.after_key(k1, p1).after_key(k2, p2) == c.after_key(k2, p2).after_key(k1, p1),
{
}

/// Each arrow key moves the camera like its WASD twin: up and W forward,
/// down and S backward, left and A left, right and D right; space moves up
/// and left shift down. A key event on an arrow leaves the controller in the
/// same state as the same event on its twin.
pub proof fn lemma_arrows_match_wasd(c: CameraController, is_pressed: bool)
    ensures
        key_direction(Key::KeyW) == Some(Direction::Forward),
        key_direction(Key::KeyS) == Some(Direction::Backward),
        key_direction(Key::KeyA) == Some(Direction::Left),
        key_direction(Key::KeyD) == Some(Direction::Right),
        key_direction(Key::Space) == Some(Direction::Up),
        key_direction(Key::ShiftLeft) == Some(Direction::Down),
        key_direction(Key::ArrowUp) == key_direction(Key::KeyW),
        key_direction(Key::ArrowDown) == key_direction(Key::KeyS),
        key_direction(Key::ArrowLeft) == key_direction(Key::KeyA),
        key_direction(Key::ArrowRight) == key_direction(Key::KeyD),
        c.after_key(Key::ArrowUp, is_pressed) == c.after_key(Key::KeyW, is_pressed),
        c.after_key(Key::ArrowDown, is_pressed) == c.after_key(Key::KeyS, is_pressed),
        c.after_key(Key::ArrowLeft, is_pressed) == c.after_key(Key::KeyA, is_pressed),
        c.after_key(Key::ArrowRight, is_pressed) == c.after_key(Key::KeyD, is_pressed),
{
}

/// Holding exactly one movement key moves the camera along that key's own
/// axis and sign: forward (W, up arrow) is +1 on the first axis, backward
/// (S, down arrow) -1; right (D, right arrow) +1 on the second, left (A,
/// left arrow) -1; space +1 on the third, left shift -1.
pub proof fn lemma_single_key_axes(key: Key)
    ensures
        ({
            let c = CameraController {
                forward: false,
                backward: false,
                left: false,
                right: false,
                up: false,
                down: false,
                mouse_look_active: false,
            }.after_key(key, true);
            &&& (key == Key::KeyW || key == Key::ArrowUp) ==> axis(c.forward, c.backward) == 1
                && axis(c.right, c.left) == 0 && axis(c.up, c.down) == 0
            &&& (key == Key::KeyS || key == Key::ArrowDown) ==> axis(c.forward, c.backward) == -1
                && axis(c.right, c.left) == 0 && axis(c.up, c.down) == 0
            &&& (key == Key::KeyD || key == Key::ArrowRight) ==> axis(c.forward, c.backward) == 0
                && axis(c.right, c.left) == 1 && axis(c.up, c.down) == 0
            &&& (key == Key::KeyA || key == Key::ArrowLeft) ==> axis(c.forward, c.backward) == 0
                && axis(c.right, c.left) == -1 && axis(c.up, c.down) == 0
            &&& key == Key::Space ==> axis(c.forward, c.backward) == 0 && axis(c.right, c.left)
                == 0 && axis(c.up, c.down) == 1
            &&& key == Key::ShiftLeft ==> axis(c.forward, c.backward) == 0 && axis(c.right, c.left)
                == 0 && axis(c.up, c.down) == -1
        }),
{
}

/// Every movement key reaches the camera controller, pressed or released;
/// a released key never triggers an application command.
pub proof fn lemma_movement_keys_reach_camera(key: Key, is_pressed: bool)
    ensures
        key_direction(key) is Some ==> route_key_spec(key, is_pressed) == KeyCommand::Camera,
        !is_pressed ==> route_key_spec(key, is_pressed) == KeyCommand::Camera,
{
}

} // verus!
