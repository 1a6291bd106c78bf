//! The camera as it is configured, the keys that fly it, and the fixed
//! matrix that fits the projection's depth range to the GPU's.

use crate::ratio::Ratio;
use vstd::prelude::*;

verus! {

/// The keys that the renderer knows by name.
#[derive(Clone, Copy, Debug, PartialEq, Eq, Structural)]
pub enum VirtualKeyCode {
    Q,
    E,
    W,
    S,
    A,
    D,
    Up,
    Down,
    Left,
    Right,
    Space,
    T,
    R,
    Escape,
    Other,
}

/// Whether a key went down or up.
#[derive(Clone, Copy, Debug, PartialEq, Eq, Structural)]
pub enum ElementState {
    Pressed,
    Released,
}

/// A key going down or up. A key without a name has no key code.
#[derive(Clone, Copy, Debug, PartialEq, Eq)]
pub struct KeyboardInput {
    pub state: ElementState,
    pub virtual_keycode: Option<VirtualKeyCode>,
}

/// What the window reports, as far as the renderer reacts to it.
#[derive(Clone, Copy, Debug, PartialEq, Eq)]
pub enum WindowEvent {
    KeyboardInput { input: KeyboardInput },
    /// The cursor moved; where to is the caller's to know.
    CursorMoved,
    Resized { width: u32, height: u32 },
    ScaleFactorChanged { width: u32, height: u32 },
    CloseRequested,
    Other,
}

/// The camera as it is set up: where it stands and looks, and its lens.
/// The eye is where the camera starts; the caller moves it.
#[derive(Clone, Copy, Debug, PartialEq, Eq)]
pub struct Camera {
    pub eye: [Ratio; 3],
    pub target: [Ratio; 3],
    pub up: [Ratio; 3],
    /// The width and the height whose quotient is the aspect ratio.
    pub aspect: (u32, u32),
    /// The vertical field of view in degrees.
    pub fovy: Ratio,
    pub znear: Ratio,
    pub zfar: Ratio,
}

/// The camera for a surface of the given size: five units in front of the
/// origin on the z axis, looking at the origin, with the y axis up, a field
/// of view of 45 degrees, and a depth range from a tenth to a hundred.
pub open spec fn is_default_camera(camera: Camera, sc_width: u32, sc_height: u32) -> bool {
    &&& camera.eye@ == seq![Ratio::whole(0), Ratio::whole(0), Ratio::whole(5)]
    &&& camera.target@ == seq![Ratio::whole(0), Ratio::whole(0), Ratio::whole(0)]
    &&& camera.up@ == seq![Ratio::whole(0), Ratio::whole(1), Ratio::whole(0)]
    &&& camera.aspect == (sc_width, sc_height)
    &&& camera.fovy == Ratio::whole(45)
    &&& camera.znear == (Ratio { num: 1, den: 10 })
    &&& camera.zfar == Ratio::whole(100)
}

impl Camera {
    /// The camera in its default pose for a surface of the given size.
    pub fn new(sc_width: u32, sc_height: u32) -> (camera: Camera)
        ensures
            is_default_camera(camera, sc_width, sc_height),
    {
        let zero = Ratio { num: 0, den: 1 };
        let one = Ratio { num: 1, den: 1 };
        let camera = Camera {
            eye: [zero, zero, Ratio { num: 5, den: 1 }],
            target: [zero, zero, zero],
            up: [zero, one, zero],
            aspect: (sc_width, sc_height),
            fovy: Ratio { num: 45, den: 1 },
            znear: Ratio { num: 1, den: 10 },
            zfar: Ratio { num: 100, den: 1 },
        };
        assert(camera.eye@ =~= seq![Ratio::whole(0), Ratio::whole(0), Ratio::whole(5)]);
        assert(camera.target@ =~= seq![Ratio::whole(0), Ratio::whole(0), Ratio::whole(0)]);
        assert(camera.up@ =~= seq![Ratio::whole(0), Ratio::whole(1), Ratio::whole(0)]);
        camera
    }
}

/// The entries of the clip-space matrix in halves, column by column.
pub const CLIP_HALVES: [[i32; 4]; 4] = [[2, 0, 0, 0], [0, 2, 0, 0], [0, 0, 1, 0], [0, 0, 1, 2]];

/// Twice the entry in row `r` and column `c` of the clip-space matrix.
pub open spec fn clip_half(r: int, c: int) -> int {
    CLIP_HALVES@[c]@[r] as int
}

/// Twice component `r` of the clip-space matrix applied to `(x, y, z, w)`.
pub open spec fn clip_row(r: int, x: int, y: int, z: int, w: int) -> int {
    clip_half(r, 0) * x + clip_half(r, 1) * y + clip_half(r, 2) * z + clip_half(r, 3) * w
}

/// The clip-space matrix is the identity but for the row of the depth,
/// which holds a half in the column of the depth and a half in the last
/// column. So it keeps `x`, `y` and `w`, and sends the depth `z` to
/// `(z + w) / 2`: depths from `-w` to `w` go to depths from 0 to `w`.
pub proof fn clip_matrix_properties(x: int, y: int, z: int, w: int)
    ensures
        forall|r: int, c: int|
            0 <= r < 4 && 0 <= c < 4 ==> #[trigger] clip_half(r, c) == (if r == c {
                if r == 2 {
                    1int
                } else {
                    2int
                }
            } else if r == 2 && c == 3 {
                1int
            } else {
                0int
            }),
        clip_row(0, x, y, z, w) == 2 * x,
        clip_row(1, x, y, z, w) == 2 * y,
        clip_row(2, x, y, z, w) == z + w,
        clip_row(3, x, y, z, w) == 2 * w,
        -w <= z <= w ==> 0 <= clip_row(2, x, y, z, w) <= clip_row(3, x, y, z, w),
{
    assert(CLIP_HALVES@[0]@ =~= seq![2i32, 0, 0, 0]);
    assert(CLIP_HALVES@[1]@ =~= seq![0i32, 2, 0, 0]);
    assert(CLIP_HALVES@[2]@ =~= seq![0i32, 0, 1, 0]);
    assert(CLIP_HALVES@[3]@ =~= seq![0i32, 0, 1, 2]);
    assert forall|r: int| 0 <= r < 4 implies #[trigger] clip_row(r, x, y, z, w) == (if r == 0 {
        2 * x
    } else if r == 1 {
        2 * y
    } else if r == 2 {
        z + w
    } else {
        2 * w
    }) by {
        let (a, b, c, d) = (clip_half(r, 0), clip_half(r, 1), clip_half(r, 2), clip_half(r, 3));
        assert(a * x + b * y + c * z + d * w == clip_row(r, x, y, z, w));
        if r == 0 {
            assert(a == 2 && b == 0 && c == 0 && d == 0);
        } else if r == 1 {
            assert(a == 0 && b == 2 && c == 0 && d == 0);
        } else if r == 2 {
            assert(a == 0 && b == 0 && c == 1 && d == 1);
        } else {
            assert(a == 0 && b == 0 && c == 0 && d == 2);
        }
        assert(a * x + b * y + c * z + d * w == (if r == 0 {
            2 * x
        } else if r == 1 {
            2 * y
        } else if r == 2 {
            z + w
        } else {
            2 * w
        })) by (nonlinear_arith)
            requires
                r == 0 ==> a == 2 && b == 0 && c == 0 && d == 0,
                r == 1 ==> a == 0 && b == 2 && c == 0 && d == 0,
                r == 2 ==> a == 0 && b == 0 && c == 1 && d == 1,
                r != 0 && r != 1 && r != 2 ==> a == 0 && b == 0 && c == 0 && d == 2,
        ;
    }
    assert(clip_row(0, x, y, z, w) == 2 * x);
    assert(clip_row(1, x, y, z, w) == 2 * y);
    assert(clip_row(2, x, y, z, w) == z + w);
    assert(clip_row(3, x, y, z, w) == 2 * w);
}

/// The keys that fly the camera, and how far a step goes.
#[derive(Clone, Copy, Debug, PartialEq, Eq, Structural)]
pub struct CameraController {
    pub speed: Ratio,
    pub is_up_pressed: bool,
    pub is_down_pressed: bool,
    pub is_forward_pressed: bool,
    pub is_backward_pressed: bool,
    pub is_left_pressed: bool,
    pub is_right_pressed: bool,
}

/// The controller after a key with a meaning went down or up: the flag of
/// the key says whether it is down. `Q` is up, `E` is down, `W` and the up
/// arrow are forward, `S` and the down arrow are backward, `A` and the
/// left arrow are left, `D` and the right arrow are right.
pub open spec fn after_key(
    controller: CameraController,
    keycode: VirtualKeyCode,
    pressed: bool,
) -> CameraController {
    match keycode {
        VirtualKeyCode::Q => CameraController { is_up_pressed: pressed, ..controller },
        VirtualKeyCode::E => CameraController { is_down_pressed: pressed, ..controller },
        VirtualKeyCode::W | VirtualKeyCode::Up => CameraController {
            is_forward_pressed: pressed,
            ..controller
        },
        VirtualKeyCode::S | VirtualKeyCode::Down => CameraController {
            is_backward_pressed: pressed,
            ..controller
        },
        VirtualKeyCode::A | VirtualKeyCode::Left => CameraController {
            is_left_pressed: pressed,
            ..controller
        },
        VirtualKeyCode::D | VirtualKeyCode::Right => CameraController {
            is_right_pressed: pressed,
            ..controller
        },
        _ => controller,
    }
}

/// Whether a key flies the camera.
pub open spec fn is_flight_key(keycode: VirtualKeyCode) -> bool {
    match keycode {
        VirtualKeyCode::Q
        | VirtualKeyCode::E
        | VirtualKeyCode::W
        | VirtualKeyCode::Up
        | VirtualKeyCode::S
        | VirtualKeyCode::Down
        | VirtualKeyCode::A
        | VirtualKeyCode::Left
        | VirtualKeyCode::D
        | VirtualKeyCode::Right => true,
        _ => false,
    }
}

/// The key of an event that flies the camera, if it is one.
pub open spec fn flight_key(event: WindowEvent) -> Option<(VirtualKeyCode, bool)> {
    match event {
        WindowEvent::KeyboardInput {
            input: KeyboardInput { state, virtual_keycode: Some(keycode) },
        } => if is_flight_key(keycode) {
            Some((keycode, state == ElementState::Pressed))
        } else {
            None
        },
        _ => None,
    }
}

/// A step of the eye, as long as the controller's speed says.
#[derive(Clone, Copy, Debug, PartialEq, Eq, Structural)]
pub enum Step {
    /// Along the unit vector from the eye to the target.
    Forward,
    /// Against that vector.
    Backward,
    /// Along the cross product of that vector and the camera's up vector.
    Right,
    /// Against that cross product.
    Left,
}

/// `step` if `pressed`, else nothing.
pub open spec fn step_if(pressed: bool, step: Step) -> Seq<Step> {
    if pressed {
        seq![step]
    } else {
        Seq::empty()
    }
}

/// The steps of one update: forward, backward, right, left, each if its
/// key is down.
pub open spec fn steps(controller: CameraController) -> Seq<Step> {
    step_if(controller.is_forward_pressed, Step::Forward) + step_if(
        controller.is_backward_pressed,
        Step::Backward,
    ) + step_if(controller.is_right_pressed, Step::Right) + step_if(
        controller.is_left_pressed,
        Step::Left,
    )
}

impl CameraController {
    /// A controller with no key down.
    pub fn new(speed: Ratio) -> (controller: CameraController)
        ensures
            controller == (CameraController {
                speed,
                is_up_pressed: false,
                is_down_pressed: false,
                is_forward_pressed: false,
                is_backward_pressed: false,
                is_left_pressed: false,
                is_right_pressed: false,
            }),
    {
        CameraController {
            speed,
            is_up_pressed: false,
            is_down_pressed: false,
            is_forward_pressed: false,
            is_backward_pressed: false,
            is_left_pressed: false,
            is_right_pressed: false,
        }
    }

    /// Takes note of a key that flies the camera and says whether the
    /// event was one.
    pub fn process_events(&mut self, event: &WindowEvent) -> (consumed: bool)
        ensures
            consumed == flight_key(*event) is Some,
            *final(self) == (match flight_key(*event) {
                Some((keycode, pressed)) => after_key(*old(self), keycode, pressed),
                None => *old(self),
            }),
    {
        match event {
            WindowEvent::KeyboardInput {
                input: KeyboardInput { state, virtual_keycode: Some(keycode) },
            } => {
                let pressed = match state {
                    ElementState::Pressed => true,
                    ElementState::Released => false,
                };
                match keycode {
                    VirtualKeyCode::Q => {
                        self.is_up_pressed = pressed;
                        true
                    },
                    VirtualKeyCode::E => {
                        self.is_down_pressed = pressed;
                        true
                    },
                    VirtualKeyCode::W | VirtualKeyCode::Up => {
                        self.is_forward_pressed = pressed;
                        true
                    },
                    VirtualKeyCode::S | VirtualKeyCode::Down => {
                        self.is_backward_pressed = pressed;
                        true
                    },
                    VirtualKeyCode::A | VirtualKeyCode::Left => {
                        self.is_left_pressed = pressed;
                        true
                    },
                    VirtualKeyCode::D | VirtualKeyCode::Right => {
                        self.is_right_pressed = pressed;
                        true
                    },
                    _ => false,
                }
            },
            _ => false,
        }
    }

    /// The steps that move the eye in one update. The two directions are
    /// those of the camera before the first step.
    pub fn update_camera(&self) -> (moves: Vec<Step>)
        ensures
            moves@ == steps(*self),
    {
        let mut moves: Vec<Step> = Vec::new();
        if self.is_forward_pressed {
            moves.push(Step::Forward);
        }
        if self.is_backward_pressed {
            moves.push(Step::Backward);
        }
        if self.is_right_pressed {
            moves.push(Step::Right);
        }
        if self.is_left_pressed {
            moves.push(Step::Left);
        }
        assert(moves@ =~= steps(*self));
        moves
    }
}

} // verus!
