use vstd::prelude::*;
use crate::entities::{axis_step, initial_player, PAN_STEP, ROTATION_STEP};
use crate::geometry::{Pose, Vec2};
use crate::input::{Key, KeyInput};
use crate::scene::{next_scene, run, CameraControl, Scene};

verus! {

/// One tick keeps a well-formed scene well-formed and never changes what
/// drives its camera.
pub proof fn lemma_next_scene_wf(s: Scene, input: KeyInput)
    requires
        s.wf(),
    ensures
        next_scene(s, input).wf(),
        next_scene(s, input).control == s.control,
{
    if s.control.is_some() && !s.started {
        assert(next_scene(s, input).players =~= seq![initial_player()]);
    }
}

/// Any number of ticks keeps a well-formed scene well-formed.
pub proof fn lemma_run_wf(s: Scene, inputs: Seq<KeyInput>)
    requires
        s.wf(),
    ensures
        run(s, inputs).wf(),
        run(s, inputs).control == s.control,
    decreases inputs.len(),
{
    if inputs.len() > 0 {
        lemma_run_wf(s, inputs.drop_last());
        lemma_next_scene_wf(run(s, inputs.drop_last()), inputs.last());
    }
}

/// A set-up scene has run its startup procedure once one tick has run.
pub proof fn lemma_run_starts(control: CameraControl, inputs: Seq<KeyInput>)
    requires
        inputs.len() >= 1,
    ensures
        run(Scene::created(control), inputs).started,
    decreases inputs.len(),
{
    let s = Scene::created(control);
    if inputs.len() == 1 {
        assert(run(s, inputs.drop_last()) == s);
    } else {
        lemma_run_starts(control, inputs.drop_last());
    }
}

/// From the first tick on, a set-up scene holds exactly one camera and
/// exactly one player.
pub proof fn law_one_camera_one_player(control: CameraControl, inputs: Seq<KeyInput>)
    requires
        inputs.len() >= 1,
    ensures
        run(Scene::created(control), inputs).cameras.len() == 1,
        run(Scene::created(control), inputs).players.len() == 1,
{
    lemma_run_wf(Scene::created(control), inputs);
    lemma_run_starts(control, inputs);
}

/// From the first tick on, however many ticks follow, the player stands at
/// the origin with a scale of 64 by 32 units.
pub proof fn law_player_stays_put(control: CameraControl, inputs: Seq<KeyInput>)
    requires
        inputs.len() >= 1,
    ensures
        run(Scene::created(control), inputs).players == seq![initial_player()],
        initial_player().position == (Vec2 { x: 0, y: 0 }),
        initial_player().scale == (Vec2 { x: 64_000, y: 32_000 }),
{
    lemma_run_wf(Scene::created(control), inputs);
    lemma_run_starts(control, inputs);
}

/// At a constant velocity the camera stands at the origin after the first
/// tick, which spawns it, and has moved by the velocity once for each tick
/// after that.
pub proof fn law_constant_velocity(velocity: Vec2, inputs: Seq<KeyInput>)
    requires
        inputs.len() >= 1,
    ensures
        run(Scene::created(CameraControl::Velocity(velocity)), inputs).cameras == seq![
            Pose {
                x: (inputs.len() - 1) * velocity.x,
                y: (inputs.len() - 1) * velocity.y,
                rotation: 0,
            },
        ],
    decreases inputs.len(),
{
    let s = Scene::created(CameraControl::Velocity(velocity));
    let n = inputs.len() - 1;
    if n == 0 {
        assert(run(s, inputs.drop_last()) == s);
        assert(run(s, inputs).cameras =~= seq![Pose::origin()]);
    } else {
        let m = n - 1;
        law_constant_velocity(velocity, inputs.drop_last());
        lemma_run_starts(CameraControl::Velocity(velocity), inputs.drop_last());
        lemma_run_wf(s, inputs.drop_last());
        let prev = run(s, inputs.drop_last());
        assert(prev.cameras[0] == Pose { x: m * velocity.x, y: m * velocity.y, rotation: 0 });
        assert(run(s, inputs) == next_scene(prev, inputs.last()));
        assert((m + 1) * velocity.x == m * velocity.x + velocity.x) by (nonlinear_arith);
        assert((m + 1) * velocity.y == m * velocity.y + velocity.y) by (nonlinear_arith);
        assert(run(s, inputs).cameras =~= seq![
            Pose { x: n * velocity.x, y: n * velocity.y, rotation: 0 },
        ]);
    }
}

/// At zero velocity the camera stays at the origin, however many ticks run.
pub proof fn law_still_camera_stays_at_origin(inputs: Seq<KeyInput>)
    requires
        inputs.len() >= 1,
    ensures
        run(Scene::created(CameraControl::Velocity(Vec2 { x: 0, y: 0 })), inputs).cameras
            == seq![Pose::origin()],
{
    law_constant_velocity(Vec2 { x: 0, y: 0 }, inputs);
    assert((inputs.len() - 1) * 0 == 0);
}

/// Under keyboard control, a tick in which no key is held changes nothing.
pub proof fn lemma_idle_tick(s: Scene, k: KeyInput)
    requires
        s.wf(),
        s.started,
        s.control == Some(CameraControl::Keyboard),
        k.is_idle(),
    ensures
        next_scene(s, k) == s,
{
    assert(!k.is_pressed(Key::Right));
    assert(!k.is_pressed(Key::Left));
    assert(!k.is_pressed(Key::Up));
    assert(!k.is_pressed(Key::Down));
    assert(!k.is_pressed(Key::RotateNegative));
    assert(!k.is_pressed(Key::RotatePositive));
    assert(next_scene(s, k).cameras =~= s.cameras);
}

/// Under keyboard control, ticks in which no key is held change nothing.
pub proof fn law_idle_keys_change_nothing(s: Scene, inputs: Seq<KeyInput>)
    requires
        s.wf(),
        s.started,
        s.control == Some(CameraControl::Keyboard),
        forall|i: int| 0 <= i < inputs.len() ==> (#[trigger] inputs[i]).is_idle(),
    ensures
        run(s, inputs) == s,
    decreases inputs.len(),
{
    if inputs.len() > 0 {
        law_idle_keys_change_nothing(s, inputs.drop_last());
        assert(inputs.last() == inputs[inputs.len() - 1]);
        lemma_idle_tick(s, inputs.last());
    }
}

/// In a keyboard-driven scene in which no key is ever held, the camera stands
/// at the origin, not rotated, from the first tick on.
pub proof fn law_idle_camera_stays_at_origin(inputs: Seq<KeyInput>)
    requires
        inputs.len() >= 1,
        forall|i: int| 0 <= i < inputs.len() ==> (#[trigger] inputs[i]).is_idle(),
    ensures
        run(Scene::created(CameraControl::Keyboard), inputs).cameras == seq![Pose::origin()],
    decreases inputs.len(),
{
    let s = Scene::created(CameraControl::Keyboard);
    if inputs.len() == 1 {
        assert(run(s, inputs.drop_last()) == s);
        assert(run(s, inputs).cameras =~= seq![Pose::origin()]);
    } else {
        let rest = inputs.drop_last();
        assert(forall|i: int| 0 <= i < rest.len() ==> #[trigger] rest[i] == inputs[i]);
        law_idle_camera_stays_at_origin(rest);
        lemma_run_wf(s, rest);
        lemma_run_starts(CameraControl::Keyboard, rest);
        assert(inputs.last() == inputs[inputs.len() - 1]);
        lemma_idle_tick(run(s, rest), inputs.last());
    }
}

/// The same keys held for `n` ticks in a row.
pub open spec fn held(input: KeyInput, n: nat) -> Seq<KeyInput> {
    Seq::new(n, |i: int| input)
}

/// Under keyboard control, holding the same keys for `n` ticks moves and
/// turns the camera `n` times as far as one tick does.
pub proof fn law_held_keys_accumulate(s: Scene, input: KeyInput, n: nat)
    requires
        s.wf(),
        s.started,
        s.control == Some(CameraControl::Keyboard),
    ensures
        run(s, held(input, n)).cameras == seq![
            Pose {
                x: s.cameras[0].x + n * axis_step(input.right, input.left, PAN_STEP as int),
                y: s.cameras[0].y + n * axis_step(input.up, input.down, PAN_STEP as int),
                rotation: s.cameras[0].rotation + n * axis_step(
                    input.rotate_positive,
                    input.rotate_negative,
                    ROTATION_STEP as int,
                ),
            },
        ],
    decreases n,
{
    let inputs = held(input, n);
    let dx = axis_step(input.right, input.left, PAN_STEP as int);
    let dy = axis_step(input.up, input.down, PAN_STEP as int);
    let dr = axis_step(input.rotate_positive, input.rotate_negative, ROTATION_STEP as int);
    if n == 0 {
        assert(run(s, inputs) == s);
        assert(n * dx == 0 && n * dy == 0 && n * dr == 0) by (nonlinear_arith)
            requires n == 0;
        assert(s.cameras =~= seq![s.cameras[0]]);
    } else {
        let m = (n - 1) as nat;
        law_held_keys_accumulate(s, input, m);
        assert(inputs.drop_last() =~= held(input, m));
        lemma_run_wf(s, inputs.drop_last());
        let prev = run(s, inputs.drop_last());
        assert(inputs.last() == input);
        assert(run(s, inputs) == next_scene(prev, input));
        assert(prev.started);
        assert(m * dx + dx == n * dx) by (nonlinear_arith)
            requires m + 1 == n;
        assert(m * dy + dy == n * dy) by (nonlinear_arith)
            requires m + 1 == n;
        assert(m * dr + dr == n * dr) by (nonlinear_arith)
            requires m + 1 == n;
        assert(run(s, inputs).cameras =~= seq![
            Pose { x: s.cameras[0].x + n * dx, y: s.cameras[0].y + n * dy,
                rotation: s.cameras[0].rotation + n * dr },
        ]);
    }
}

/// A scene with nothing registered stays empty, whatever ticks run.
pub proof fn law_empty_scene_stays_empty(inputs: Seq<KeyInput>)
    ensures
        run(Scene::empty(), inputs) == Scene::empty(),
        run(Scene::empty(), inputs).cameras.len() == 0,
    decreases inputs.len(),
{
    if inputs.len() > 0 {
        law_empty_scene_stays_empty(inputs.drop_last());
    }
}

} // verus!
