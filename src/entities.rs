use vstd::prelude::*;
use crate::geometry::{Pose, Vec2, MILLIS_PER_UNIT};
use crate::input::{Key, KeyInput};

verus! {

/// How far one tick of a held arrow key moves the camera: one world unit.
pub const PAN_STEP: i64 = MILLIS_PER_UNIT;

/// How far one tick of a held rotation key turns the camera: 0.1 radian.
pub const ROTATION_STEP: i64 = 100;

/// The player's fixed scale, in thousandths: 64 by 32 world units.
pub const PLAYER_SCALE_X: i64 = 64 * MILLIS_PER_UNIT;
pub const PLAYER_SCALE_Y: i64 = 32 * MILLIS_PER_UNIT;

/// The camera entity: position in thousandths of a unit, rotation about the
/// viewing axis in milliradians.
#[derive(Clone, Copy, Debug, PartialEq, Eq, Structural)]
pub struct Camera {
    pub position: Vec2,
    pub rotation: i64,
}

impl View for Camera {
    type V = Pose;

    open spec fn view(&self) -> Pose {
        Pose { x: self.position.x as int, y: self.position.y as int, rotation: self.rotation as int }
    }
}

/// The player sprite: position and scale in thousandths of a unit.
#[derive(Clone, Copy, Debug, PartialEq, Eq, Structural)]
pub struct Player {
    pub position: Vec2,
    pub scale: Vec2,
}

/// The player as it is spawned, and as it stays: at the origin, 64 by 32 units.
pub open spec fn initial_player() -> Player {
    Player {
        position: Vec2 { x: 0, y: 0 },
        scale: Vec2 { x: PLAYER_SCALE_X, y: PLAYER_SCALE_Y },
    }
}

/// One step of `amount` in the direction that `plus` and `minus` pull, which
/// cancel out when both are held.
pub open spec fn axis_step(plus: bool, minus: bool, amount: int) -> int {
    (if plus { amount } else { 0 }) - (if minus { amount } else { 0 })
}

/// The camera after one tick of keyboard input: each held arrow key moves it
/// one unit along its axis and each held rotation key turns it 0.1 radian.
pub open spec fn keyboard_step(p: Pose, input: KeyInput) -> Pose {
    Pose {
        x: p.x + axis_step(input.right, input.left, PAN_STEP as int),
        y: p.y + axis_step(input.up, input.down, PAN_STEP as int),
        rotation: p.rotation + axis_step(
            input.rotate_positive,
            input.rotate_negative,
            ROTATION_STEP as int,
        ),
    }
}

/// The camera after one tick at `velocity`: the position gains the velocity,
/// the rotation stays.
pub open spec fn velocity_step(p: Pose, velocity: Vec2) -> Pose {
    Pose { x: p.x + velocity.x, y: p.y + velocity.y, rotation: p.rotation }
}

/// Spawns a camera at the origin, not rotated.
pub fn add_camera(cameras: &mut Vec<Camera>)
    ensures
        final(cameras)@ == old(cameras)@.push(Camera { position: Vec2 { x: 0, y: 0 }, rotation: 0 }),
{
    cameras.push(Camera { position: Vec2::zero(), rotation: 0 });
}

/// Spawns the player at the origin with its fixed scale.
pub fn add_player(players: &mut Vec<Player>)
    ensures
        final(players)@ == old(players)@.push(initial_player()),
{
    players.push(
        Player { position: Vec2::zero(), scale: Vec2::new(PLAYER_SCALE_X, PLAYER_SCALE_Y) },
    );
}

/// The signed step along one axis, as `axis_step` gives it.
fn signed_step(plus: bool, minus: bool, amount: i64) -> (r: i64)
    requires
        0 <= amount,
    ensures
        r == axis_step(plus, minus, amount as int),
{
    let mut r: i64 = 0;
    if plus {
        r = r + amount;
    }
    if minus {
        r = r - amount;
    }
    r
}

/// The camera moved by `(dx, dy)` and turned by `turn`, or `None` where a sum would
/// not fit in an `i64`.
fn shifted(camera: &Camera, dx: i64, dy: i64, turn: i64) -> (r: Option<Camera>)
    ensures
        r is Some <==> (Pose {
            x: camera@.x + dx,
            y: camera@.y + dy,
            rotation: camera@.rotation + turn,
        }).fits(),
        r matches Some(c) ==> c@ == (Pose {
            x: camera@.x + dx,
            y: camera@.y + dy,
            rotation: camera@.rotation + turn,
        }),
{
    match (
        camera.position.x.checked_add(dx),
        camera.position.y.checked_add(dy),
        camera.rotation.checked_add(turn),
    ) {
        (Some(x), Some(y), Some(rotation)) => Some(Camera { position: Vec2 { x, y }, rotation }),
        _ => None,
    }
}

/// The camera after one tick with `input` held, or `None` where its pose
/// would not fit in `i64`s.
pub fn keyboard_pose(camera: &Camera, input: &KeyInput) -> (r: Option<Camera>)
    ensures
        r is Some <==> keyboard_step(camera@, *input).fits(),
        r matches Some(c) ==> c@ == keyboard_step(camera@, *input),
{
    let dx = signed_step(input.pressed(Key::Right), input.pressed(Key::Left), PAN_STEP);
    let dy = signed_step(input.pressed(Key::Up), input.pressed(Key::Down), PAN_STEP);
    let turn = signed_step(
        input.pressed(Key::RotatePositive),
        input.pressed(Key::RotateNegative),
        ROTATION_STEP,
    );
    shifted(camera, dx, dy, turn)
}

/// The camera after one tick at `velocity`, or `None` where its position
/// would not fit in `i64`s.
pub fn velocity_pose(camera: &Camera, velocity: Vec2) -> (r: Option<Camera>)
    ensures
        r is Some <==> velocity_step(camera@, velocity).fits(),
        r matches Some(c) ==> c@ == velocity_step(camera@, velocity),
{
    shifted(camera, velocity.x, velocity.y, 0)
}

/// Moves and turns the one camera as the held keys ask.
pub fn respond_to_keyboard(cameras: &mut Vec<Camera>, input: &KeyInput)
    requires
        old(cameras).len() == 1,
        keyboard_step(old(cameras)@[0]@, *input).fits(),
    ensures
        final(cameras).len() == 1,
        final(cameras)@[0]@ == keyboard_step(old(cameras)@[0]@, *input),
{
    if let Some(camera) = keyboard_pose(&cameras[0], input) {
        cameras.set(0, camera);
    }
}

/// Moves the one camera by `velocity`.
pub fn move_camera(cameras: &mut Vec<Camera>, velocity: Vec2)
    requires
        old(cameras).len() == 1,
        velocity_step(old(cameras)@[0]@, velocity).fits(),
    ensures
        final(cameras).len() == 1,
        final(cameras)@[0]@ == velocity_step(old(cameras)@[0]@, velocity),
{
    if let Some(camera) = velocity_pose(&cameras[0], velocity) {
        cameras.set(0, camera);
    }
}

} // verus!
