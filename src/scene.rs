use vstd::prelude::*;
use crate::entities::{
    add_camera, add_player, initial_player, keyboard_pose, keyboard_step, move_camera,
    respond_to_keyboard, velocity_pose, velocity_step, Camera, Player,
};
use crate::geometry::{Pose, Vec2};
use crate::input::KeyInput;

verus! {

/// What drives the camera from the second tick on.
#[derive(Clone, Copy, Debug, PartialEq, Eq, Structural)]
pub enum CameraControl {
    /// The camera moves by this vector every tick.
    Velocity(Vec2),
    /// The camera follows the held keys.
    Keyboard,
}

/// The abstract state of a scene.
pub struct Scene {
    /// `None` for a scene with no startup and no per-tick procedure.
    pub control: Option<CameraControl>,
    /// Whether the startup procedure has run.
    pub started: bool,
    pub cameras: Seq<Pose>,
    pub players: Seq<Player>,
}

impl Scene {
    /// A scene that nothing has been registered in and no entity exists in.
    pub open spec fn empty() -> Scene {
        Scene { control: None, started: false, cameras: Seq::empty(), players: Seq::empty() }
    }

    /// A scene set up with `control`, before its first tick.
    pub open spec fn created(control: CameraControl) -> Scene {
        Scene {
            control: Some(control),
            started: false,
            cameras: Seq::empty(),
            players: Seq::empty(),
        }
    }

    /// Before startup no entity exists; after it exactly one camera and the
    /// one player, unchanged since it was spawned.
    pub open spec fn wf(self) -> bool {
        if self.started {
            &&& self.control.is_some()
            &&& self.cameras.len() == 1
            &&& self.players == seq![initial_player()]
        } else {
            &&& self.cameras.len() == 0
            &&& self.players.len() == 0
        }
    }

    /// Every camera's pose can be stored.
    pub open spec fn fits(self) -> bool {
        forall|i: int| 0 <= i < self.cameras.len() ==> #[trigger] self.cameras[i].fits()
    }
}

/// A camera's pose after one tick under `control`.
pub open spec fn camera_step(control: CameraControl, p: Pose, input: KeyInput) -> Pose {
    match control {
        CameraControl::Velocity(v) => velocity_step(p, v),
        CameraControl::Keyboard => keyboard_step(p, input),
    }
}

/// One tick: the first one of a set-up scene spawns the camera and the
/// player; every later one steps the camera. A scene with nothing registered
/// stays as it is.
pub open spec fn next_scene(s: Scene, input: KeyInput) -> Scene {
    match s.control {
        None => s,
        Some(control) => if !s.started {
            Scene {
                started: true,
                cameras: s.cameras.push(Pose::origin()),
                players: s.players.push(initial_player()),
                ..s
            }
        } else {
            Scene { cameras: s.cameras.map_values(|p: Pose| camera_step(control, p, input)), ..s }
        },
    }
}

/// The scene after one tick for each input of `inputs`, in order.
pub open spec fn run(s: Scene, inputs: Seq<KeyInput>) -> Scene
    decreases inputs.len(),
{
    if inputs.len() == 0 {
        s
    } else {
        next_scene(run(s, inputs.drop_last()), inputs.last())
    }
}

/// A scene that holds the entities, the startup procedure and the per-tick
/// procedure, and runs them one tick at a time.
pub struct App {
    cameras: Vec<Camera>,
    players: Vec<Player>,
    control: Option<CameraControl>,
    started: bool,
}

impl View for App {
    type V = Scene;

    closed spec fn view(&self) -> Scene {
        Scene {
            control: self.control,
            started: self.started,
            cameras: self.cameras@.map_values(|c: Camera| c@),
            players: self.players@,
        }
    }
}

impl App {
    pub open spec fn wf(&self) -> bool {
        self@.wf()
    }

    /// A scene with no entities and nothing registered.
    pub fn new() -> (r: App)
        ensures
            r.wf(),
            r@ == Scene::empty(),
    {
        let r = App { cameras: Vec::new(), players: Vec::new(), control: None, started: false };
        assert(r@.cameras =~= Seq::<Pose>::empty());
        r
    }

    /// A scene whose camera follows `control` once the first tick has spawned
    /// the entities.
    pub fn with_control(control: CameraControl) -> (r: App)
        ensures
            r.wf(),
            r@ == Scene::created(control),
    {
        let r = App {
            cameras: Vec::new(),
            players: Vec::new(),
            control: Some(control),
            started: false,
        };
        assert(r@.cameras =~= Seq::<Pose>::empty());
        r
    }

    /// Whether the next tick with `input` keeps every pose storable.
    pub fn can_update(&self, input: &KeyInput) -> (r: bool)
        requires
            self.wf(),
        ensures
            r == next_scene(self@, *input).fits(),
    {
        let ghost next = next_scene(self@, *input);
        match self.control {
            None => {
                assert(self@.cameras.len() == 0);
                true
            },
            Some(control) => {
                if !self.started {
                    assert(next.cameras =~= seq![Pose::origin()]);
                    true
                } else {
                    let camera = self.cameras[0];
                    assert(next.cameras[0] == camera_step(control, camera@, *input));
                    let step = match control {
                        CameraControl::Velocity(v) => velocity_pose(&camera, v),
                        CameraControl::Keyboard => keyboard_pose(&camera, input),
                    };
                    step.is_some()
                }
            },
        }
    }

    /// Runs one tick: on the first one the startup procedure spawns the camera
    /// and the player, on every later one the camera steps under its control.
    pub fn update(&mut self, input: &KeyInput)
        requires
            old(self).wf(),
            next_scene(old(self)@, *input).fits(),
        ensures
            final(self).wf(),
            final(self)@ == next_scene(old(self)@, *input),
    {
        let ghost before = self@;
        match self.control {
            None => {},
            Some(control) => {
                if !self.started {
                    add_camera(&mut self.cameras);
                    add_player(&mut self.players);
                    self.started = true;
                    assert(self@.cameras =~= before.cameras.push(Pose::origin()));
                    assert(self@.players =~= seq![initial_player()]);
                } else {
                    let ghost next = next_scene(before, *input);
                    assert(before.cameras[0] == self.cameras@[0]@);
                    assert(next.cameras[0] == camera_step(control, before.cameras[0], *input));
                    assert(next.cameras[0].fits());
                    match control {
                        CameraControl::Velocity(v) => move_camera(&mut self.cameras, v),
                        CameraControl::Keyboard => respond_to_keyboard(&mut self.cameras, input),
                    }
                    assert(self@.cameras =~= before.cameras.map_values(
                        |p: Pose| camera_step(control, p, *input),
                    ));
                }
            },
        }
    }

    pub fn count_n_cameras(&self) -> (r: usize)
        ensures
            r == self@.cameras.len(),
    {
        self.cameras.len()
    }

    pub fn get_camera_position(&self) -> (r: Vec2)
        requires
            self@.cameras.len() == 1,
        ensures
            r.x == self@.cameras[0].x,
            r.y == self@.cameras[0].y,
    {
        self.cameras[0].position
    }

    pub fn get_camera_rotation(&self) -> (r: i64)
        requires
            self@.cameras.len() == 1,
        ensures
            r == self@.cameras[0].rotation,
    {
        self.cameras[0].rotation
    }

    pub fn get_player_position(&self) -> (r: Vec2)
        requires
            self@.players.len() == 1,
        ensures
            r == self@.players[0].position,
    {
        self.players[0].position
    }

    pub fn get_player_scale(&self) -> (r: Vec2)
        requires
            self@.players.len() == 1,
        ensures
            r == self@.players[0].scale,
    {
        self.players[0].scale
    }
}

/// A scene whose camera follows the keyboard, before its first tick.
pub fn create_app() -> (r: App)
    ensures
        r.wf(),
        r@ == Scene::created(CameraControl::Keyboard),
{
    App::with_control(CameraControl::Keyboard)
}

/// A scene whose camera moves by `velocity` every tick after the first,
/// before its first tick.
pub fn create_app_with_velocity(velocity: Vec2) -> (r: App)
    ensures
        r.wf(),
        r@ == Scene::created(CameraControl::Velocity(velocity)),
{
    App::with_control(CameraControl::Velocity(velocity))
}


} // verus!
