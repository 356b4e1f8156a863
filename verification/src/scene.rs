//! The scene: a registry of entities with at most one controlled entity and
//! at most one camera, and the frame pipeline that runs over it.

use crate::fixed::SCALE;
use crate::follow::{followed, move_camera, FollowMode};
use crate::input::{accelerated, move_cube, steering_axes, world_axis_x, ControlScheme, Keys};
use crate::integrator::{damped, integrate, Body, BodyView, Damping, FRICTION};
use crate::look::{
    mouse_look, LookState, LookView, MouseMotion, Orientation, OrientationView, WindowSize,
};
use crate::settings::MouseMovementSettings;
use crate::vector::{Axes, AxesView, Vec3, Vec3View};
use vstd::prelude::*;

verus! {

/// The place of an entity in the registry. Entities are never removed, so an
/// identifier stays good for the life of the scene.
#[derive(Clone, Copy, Debug, PartialEq, Eq, Structural)]
pub struct EntityId(pub usize);

/// The mathematical value of an [`Entity`].
pub struct EntityView {
    pub position: Vec3View,
    pub orientation: OrientationView,
    pub velocity: Option<Vec3View>,
}

impl EntityView {
    /// The entity after one step of the integrator; one without a velocity
    /// does not move.
    pub open spec fn stepped(self, damping: Damping) -> EntityView {
        match self.velocity {
            Some(velocity) => {
                let body = BodyView { position: self.position, velocity }.stepped(damping);
                EntityView {
                    position: body.position,
                    orientation: self.orientation,
                    velocity: Some(body.velocity),
                }
            },
            None => self,
        }
    }
}

/// One record of the registry.
#[derive(Clone, Copy, Debug, PartialEq, Eq)]
pub struct Entity {
    pub position: Vec3,
    pub orientation: Orientation,
    /// Present on the entities that move.
    pub velocity: Option<Vec3>,
}

impl View for Entity {
    type V = EntityView;

    open spec fn view(&self) -> EntityView {
        EntityView {
            position: self.position@,
            orientation: self.orientation@,
            velocity: match self.velocity {
                Some(v) => Some(v@),
                None => None,
            },
        }
    }
}

/// The variants of the rules that a scene runs under.
#[derive(Clone, Copy, Debug, PartialEq, Eq, Structural)]
pub struct Rules {
    pub scheme: ControlScheme,
    pub follow: FollowMode,
    pub damping: Damping,
}

impl Rules {
    /// Whether no rule reads the controlled entity's local axes.
    pub open spec fn world_bound(self) -> bool {
        self.scheme == ControlScheme::WorldAxis && self.follow is World
    }
}

impl Default for Rules {
    /// Keys push along the entity's own axes, the camera chases the entity,
    /// and friction has a dead zone.
    fn default() -> (r: Self)
        ensures
            r.scheme == ControlScheme::OrientationRelative,
            r.follow == FollowMode::chase(),
            r.damping == Damping::Deadzone,
    {
        Rules {
            scheme: ControlScheme::OrientationRelative,
            follow: FollowMode::chase(),
            damping: Damping::Deadzone,
        }
    }
}

/// Why an entity could not be added to a scene.
#[derive(Clone, Copy, Debug, PartialEq, Eq, Structural)]
pub enum SceneError {
    /// The scene already has its controlled entity.
    CubeExists,
    /// The scene already has its camera.
    CameraExists,
}

/// The mathematical value of a [`Scene`].
pub struct SceneView {
    pub entities: Seq<EntityView>,
    /// Where the controlled entity stands in `entities`, if there is one.
    pub cube: Option<int>,
    /// Where the camera stands in `entities`, if there is one.
    pub camera: Option<int>,
    pub look: LookView,
    pub settings: MouseMovementSettings,
    pub rules: Rules,
}

impl SceneView {
    /// What holds of every scene: the controlled entity and the camera, where
    /// present, are two different entities of the registry, the controlled
    /// entity has a velocity, and the pitch is within its limits.
    pub open spec fn wf(self) -> bool {
        &&& self.cube matches Some(c) ==> 0 <= c < self.entities.len()
            && self.entities[c].velocity is Some
        &&& self.camera matches Some(k) ==> 0 <= k < self.entities.len()
        &&& self.cube is Some && self.camera is Some ==> self.cube->0 != self.camera->0
        &&& self.look.upright()
    }

    /// A scene with no entities.
    pub open spec fn empty(settings: MouseMovementSettings, rules: Rules) -> SceneView {
        SceneView {
            entities: Seq::empty(),
            cube: None,
            camera: None,
            look: LookView { pitch: 0, yaw: 0 },
            settings,
            rules,
        }
    }

    /// The scene with one more entity at the end of the registry.
    pub open spec fn with_entity(self, entity: EntityView) -> SceneView {
        SceneView { entities: self.entities.push(entity), ..self }
    }

    /// The scene with one more entity, which is the controlled one.
    pub open spec fn with_cube(self, entity: EntityView) -> SceneView {
        SceneView {
            entities: self.entities.push(entity),
            cube: Some(self.entities.len() as int),
            ..self
        }
    }

    /// The scene with one more entity, which is the camera.
    pub open spec fn with_camera(self, entity: EntityView) -> SceneView {
        SceneView {
            entities: self.entities.push(entity),
            camera: Some(self.entities.len() as int),
            ..self
        }
    }

    /// Whether the scene has both its controlled entity and its camera.
    pub open spec fn complete(self) -> bool {
        self.cube is Some && self.camera is Some
    }

    /// The scene after the input mapper: the keys have acted on the velocity
    /// of the controlled entity; a scene without one is left as it is.
    pub open spec fn steered(self, keys: Keys, axes: AxesView) -> SceneView {
        match self.cube {
            Some(c) => SceneView {
                entities: self.entities.update(
                    c,
                    EntityView {
                        velocity: Some(
                            accelerated(
                                self.entities[c].velocity.unwrap(),
                                keys,
                                steering_axes(self.rules.scheme, axes),
                            ),
                        ),
                        ..self.entities[c]
                    },
                ),
                ..self
            },
            None => self,
        }
    }

    /// The look state after the look controller has run on `motions`.
    pub open spec fn next_look(
        self,
        motions: Seq<MouseMotion>,
        locked: bool,
        window: WindowSize,
    ) -> LookView {
        self.look.looked(motions, locked, self.settings.sensitivity as int, window.scale())
    }

    /// The scene after the look controller: the look state has taken the
    /// motions in, the camera has its yaw and pitch, and the controlled
    /// entity its yaw alone.
    pub open spec fn looked(
        self,
        motions: Seq<MouseMotion>,
        locked: bool,
        window: WindowSize,
    ) -> SceneView
        recommends
            self.wf(),
            self.complete(),
    {
        let look = self.next_look(motions, locked, window);
        let c = self.cube.unwrap();
        let k = self.camera.unwrap();
        SceneView {
            look,
            entities: self.entities.update(
                c,
                EntityView { orientation: look.cube_orientation(), ..self.entities[c] },
            ).update(k, EntityView { orientation: look.camera_orientation(), ..self.entities[k] }),
            ..self
        }
    }

    /// The scene after the follow controller: the camera stands at its offset
    /// from the controlled entity and has that entity's velocity.
    pub open spec fn followed(self, axes: AxesView) -> SceneView
        recommends
            self.wf(),
            self.complete(),
    {
        let c = self.cube.unwrap();
        let k = self.camera.unwrap();
        let body = followed(
            BodyView {
                position: self.entities[c].position,
                velocity: self.entities[c].velocity.unwrap(),
            },
            self.rules.follow,
            axes,
        );
        SceneView {
            entities: self.entities.update(
                k,
                EntityView {
                    position: body.position,
                    orientation: self.entities[k].orientation,
                    velocity: Some(body.velocity),
                },
            ),
            ..self
        }
    }

    /// The scene after the integrator: every entity has made one step.
    pub open spec fn integrated(self) -> SceneView {
        SceneView {
            entities: self.entities.map_values(|e: EntityView| e.stepped(self.rules.damping)),
            ..self
        }
    }

    /// The scene after the first half of a frame: input mapper, then look
    /// controller.
    pub open spec fn begun(
        self,
        keys: Keys,
        axes: AxesView,
        motions: Seq<MouseMotion>,
        locked: bool,
        window: WindowSize,
    ) -> SceneView {
        self.steered(keys, axes).looked(motions, locked, window)
    }

    /// The scene after the second half of a frame: follow controller, then
    /// integrator.
    pub open spec fn finished(self, axes: AxesView) -> SceneView {
        self.followed(axes).integrated()
    }

    /// The scene after a whole frame under rules that read no local axes.
    pub open spec fn ticked(
        self,
        keys: Keys,
        motions: Seq<MouseMotion>,
        locked: bool,
        window: WindowSize,
    ) -> SceneView {
        self.begun(keys, AxesView::identity(), motions, locked, window).finished(
            AxesView::identity(),
        )
    }
}

/// A registry of entities and the state of the look controller.
pub struct Scene {
    entities: Vec<Entity>,
    cube: Option<usize>,
    camera: Option<usize>,
    look: LookState,
    settings: MouseMovementSettings,
    rules: Rules,
}

impl View for Scene {
    type V = SceneView;

    closed spec fn view(&self) -> SceneView {
        SceneView {
            entities: self.entities@.map_values(|e: Entity| e@),
            cube: match self.cube {
                Some(c) => Some(c as int),
                None => None,
            },
            camera: match self.camera {
                Some(k) => Some(k as int),
                None => None,
            },
            look: self.look@,
            settings: self.settings,
            rules: self.rules,
        }
    }
}

impl Scene {
    /// A scene with no entities, looking level and straight ahead.
    pub fn new(settings: MouseMovementSettings, rules: Rules) -> (r: Scene)
        ensures
            r@ == SceneView::empty(settings, rules),
            r@.wf(),
    {
        let r = Scene {
            entities: Vec::new(),
            cube: None,
            camera: None,
            look: LookState { pitch: 0, yaw: 0 },
            settings,
            rules,
        };
        assert(r@.entities =~= Seq::empty());
        r
    }

    /// Adds an entity that is neither the controlled one nor the camera.
    pub fn spawn(&mut self, entity: Entity) -> (id: EntityId)
        requires
            old(self)@.wf(),
        ensures
            id.0 == old(self)@.entities.len(),
            final(self)@ == old(self)@.with_entity(entity@),
            final(self)@.wf(),
    {
        let id = EntityId(self.entities.len());
        self.entities.push(entity);
        assert(self@.entities =~= old(self)@.entities.push(entity@));
        id
    }

    /// Adds the controlled entity, unless the scene has one already.
    pub fn spawn_cube(&mut self, position: Vec3, orientation: Orientation, velocity: Vec3) -> (r:
        Result<EntityId, SceneError>)
        requires
            old(self)@.wf(),
        ensures
            final(self)@.wf(),
            old(self)@.cube is None ==> r == Ok::<EntityId, SceneError>(
                EntityId(old(self)@.entities.len() as usize),
            ) && final(self)@ == old(self)@.with_cube(
                EntityView {
                    position: position@,
                    orientation: orientation@,
                    velocity: Some(velocity@),
                },
            ),
            old(self)@.cube is Some ==> r == Err::<EntityId, SceneError>(SceneError::CubeExists)
                && final(self)@ == old(self)@,
    {
        if self.cube.is_some() {
            return Err(SceneError::CubeExists);
        }
        let index: usize = self.entities.len();
        self.entities.push(Entity { position, orientation, velocity: Some(velocity) });
        self.cube = Some(index);
        assert(self@.entities =~= old(self)@.entities.push(
            EntityView { position: position@, orientation: orientation@, velocity: Some(velocity@) },
        ));
        Ok(EntityId(index))
    }

    /// Adds the camera, unless the scene has one already.
    pub fn spawn_camera(
        &mut self,
        position: Vec3,
        orientation: Orientation,
        velocity: Option<Vec3>,
    ) -> (r: Result<EntityId, SceneError>)
        requires
            old(self)@.wf(),
        ensures
            final(self)@.wf(),
            old(self)@.camera is None ==> r == Ok::<EntityId, SceneError>(
                EntityId(old(self)@.entities.len() as usize),
            ) && final(self)@ == old(self)@.with_camera(
                (Entity { position, orientation, velocity })@,
            ),
            old(self)@.camera is Some ==> r == Err::<EntityId, SceneError>(
                SceneError::CameraExists,
            ) && final(self)@ == old(self)@,
    {
        if self.camera.is_some() {
            return Err(SceneError::CameraExists);
        }
        let index: usize = self.entities.len();
        let entity = Entity { position, orientation, velocity };
        self.entities.push(entity);
        self.camera = Some(index);
        assert(self@.entities =~= old(self)@.entities.push(entity@));
        Ok(EntityId(index))
    }

    /// The number of entities.
    pub fn len(&self) -> (n: usize)
        ensures
            n == self@.entities.len(),
    {
        self.entities.len()
    }

    /// The controlled entity, if the scene has one.
    pub fn cube(&self) -> (r: Option<EntityId>)
        ensures
            match r {
                Some(id) => self@.cube == Some(id.0 as int),
                None => self@.cube is None,
            },
    {
        match self.cube {
            Some(c) => Some(EntityId(c)),
            None => None,
        }
    }

    /// The camera, if the scene has one.
    pub fn camera(&self) -> (r: Option<EntityId>)
        ensures
            match r {
                Some(id) => self@.camera == Some(id.0 as int),
                None => self@.camera is None,
            },
    {
        match self.camera {
            Some(k) => Some(EntityId(k)),
            None => None,
        }
    }

    /// The entity that `id` names, if it names one of this scene.
    pub fn entity(&self, id: EntityId) -> (r: Option<Entity>)
        ensures
            match r {
                Some(e) => id.0 < self@.entities.len() && e@ == self@.entities[id.0 as int],
                None => id.0 >= self@.entities.len(),
            },
    {
        if id.0 < self.entities.len() {
            Some(self.entities[id.0])
        } else {
            None
        }
    }

    /// Whether the scene has both its controlled entity and its camera, as
    /// the look and follow controllers need it.
    pub fn is_complete(&self) -> (r: bool)
        ensures
            r == self@.complete(),
    {
        self.cube.is_some() && self.camera.is_some()
    }

    /// The state of the look controller.
    pub fn look(&self) -> (r: LookState)
        ensures
            r@ == self@.look,
    {
        self.look
    }

    /// The settings the scene was made with.
    pub fn settings(&self) -> (r: MouseMovementSettings)
        ensures
            r == self@.settings,
    {
        self.settings
    }

    /// The rules the scene was made with.
    pub fn rules(&self) -> (r: Rules)
        ensures
            r == self@.rules,
    {
        self.rules
    }

    /// The input mapper: lets the keys act on the velocity of the controlled
    /// entity. `axes` are that entity's local axes.
    pub fn move_cube(&mut self, keys: Keys, axes: &Axes)
        requires
            old(self)@.wf(),
        ensures
            final(self)@.wf(),
            final(self)@ == old(self)@.steered(keys, axes@),
            !keys.any() ==> final(self)@ == old(self)@,
    {
        if let Some(c) = self.cube {
            let entity: Entity = self.entities[c];
            if let Some(v) = entity.velocity {
                let mut velocity: Vec3 = v;
                move_cube(&mut velocity, keys, self.rules.scheme, axes);
                let moved = Entity {
                    position: entity.position,
                    orientation: entity.orientation,
                    velocity: Some(velocity),
                };
                self.entities.set(c, moved);
                assert(self@.entities =~= old(self)@.entities.update(c as int, moved@));
                assert(!keys.any() ==> self@.entities =~= old(self)@.entities);
            }
        }
    }

    /// The look controller: takes the queued motions out of `events`, turns
    /// the look state by them while the cursor is locked, and gives the
    /// camera its yaw and pitch and the controlled entity its yaw.
    pub fn mouse_look(&mut self, events: &mut Vec<MouseMotion>, locked: bool, window: WindowSize)
        requires
            old(self)@.wf(),
            old(self)@.complete(),
        ensures
            final(self)@.wf(),
            final(self)@ == old(self)@.looked(old(events)@, locked, window),
            final(self)@.look.upright(),
            final(events)@.len() == 0,
    {
        mouse_look(&mut self.look, &self.settings, events, locked, window);
        let c: usize = self.cube.unwrap();
        let k: usize = self.camera.unwrap();
        let cube: Entity = self.entities[c];
        let turned_cube = Entity {
            position: cube.position,
            orientation: self.look.cube_orientation(),
            velocity: cube.velocity,
        };
        self.entities.set(c, turned_cube);
        let camera: Entity = self.entities[k];
        let turned_camera = Entity {
            position: camera.position,
            orientation: self.look.camera_orientation(),
            velocity: camera.velocity,
        };
        self.entities.set(k, turned_camera);
        assert(self@.entities =~= old(self)@.entities.update(c as int, turned_cube@).update(
            k as int,
            turned_camera@,
        ));
    }

    /// The follow controller: puts the camera at its offset from the
    /// controlled entity and gives it that entity's velocity. `axes` are the
    /// controlled entity's local axes.
    pub fn move_camera(&mut self, axes: &Axes)
        requires
            old(self)@.wf(),
            old(self)@.complete(),
        ensures
            final(self)@.wf(),
            final(self)@ == old(self)@.followed(axes@),
    {
        let c: usize = self.cube.unwrap();
        let k: usize = self.camera.unwrap();
        let cube: Entity = self.entities[c];
        let camera: Entity = self.entities[k];
        let target = Body { position: cube.position, velocity: cube.velocity.unwrap() };
        let mut body = Body { position: camera.position, velocity: target.velocity };
        move_camera(&mut body, &target, self.rules.follow, axes);
        let moved = Entity {
            position: body.position,
            orientation: camera.orientation,
            velocity: Some(body.velocity),
        };
        self.entities.set(k, moved);
        assert(self@.entities =~= old(self)@.entities.update(k as int, moved@));
    }

    /// The integrator: advances every entity that has a velocity by one step.
    pub fn apply_velocity(&mut self)
        requires
            old(self)@.wf(),
        ensures
            final(self)@.wf(),
            final(self)@ == old(self)@.integrated(),
    {
        let damping: Damping = self.rules.damping;
        let n: usize = self.entities.len();
        let mut i: usize = 0;
        while i < n
            invariant
                i <= n,
                self.entities.len() == n,
                old(self).entities.len() == n,
                self.cube == old(self).cube,
                self.camera == old(self).camera,
                self.look == old(self).look,
                self.settings == old(self).settings,
                self.rules == old(self).rules,
                damping == self.rules.damping,
                forall|j: int| 0 <= j < i ==> (#[trigger] self.entities[j])@ == old(
                    self,
                ).entities[j]@.stepped(damping),
                forall|j: int| i <= j < n ==> #[trigger] self.entities[j] == old(self).entities[j],
            decreases n - i,
        {
            let entity: Entity = self.entities[i];
            if let Some(velocity) = entity.velocity {
                let body = integrate(Body { position: entity.position, velocity }, damping);
                self.entities.set(
                    i,
                    Entity {
                        position: body.position,
                        orientation: entity.orientation,
                        velocity: Some(body.velocity),
                    },
                );
            }
            i += 1;
        }
        assert(self@.entities =~= old(self)@.integrated().entities);
    }

    /// The first half of a frame: the input mapper, then the look controller.
    ///
    /// `axes` are the local axes of the controlled entity as the frame
    /// starts. Returns the orientation that entity has now; the second half
    /// of the frame wants the local axes that go with it.
    pub fn begin_frame(
        &mut self,
        keys: Keys,
        axes: &Axes,
        events: &mut Vec<MouseMotion>,
        locked: bool,
        window: WindowSize,
    ) -> (heading: Orientation)
        requires
            old(self)@.wf(),
            old(self)@.complete(),
        ensures
            final(self)@.wf(),
            final(self)@ == old(self)@.begun(keys, axes@, old(events)@, locked, window),
            final(events)@.len() == 0,
            heading@ == final(self)@.look.cube_orientation(),
    {
        self.move_cube(keys, axes);
        self.mouse_look(events, locked, window);
        self.look.cube_orientation()
    }

    /// The second half of a frame: the follow controller, then the
    /// integrator.
    ///
    /// `axes` are the local axes of the controlled entity under the
    /// orientation that the first half gave it.
    pub fn end_frame(&mut self, axes: &Axes)
        requires
            old(self)@.wf(),
            old(self)@.complete(),
        ensures
            final(self)@.wf(),
            final(self)@ == old(self)@.finished(axes@),
    {
        self.move_camera(axes);
        self.apply_velocity();
    }

    /// A whole frame, in the one order that is right: input mapper, look
    /// controller, follow controller, integrator.
    ///
    /// For scenes whose rules read no local axes; the others run the two
    /// halves and hand in the axes between them.
    pub fn tick(
        &mut self,
        keys: Keys,
        events: &mut Vec<MouseMotion>,
        locked: bool,
        window: WindowSize,
    )
        requires
            old(self)@.wf(),
            old(self)@.complete(),
            old(self)@.rules.world_bound(),
        ensures
            final(self)@.wf(),
            final(self)@ == old(self)@.ticked(keys, old(events)@, locked, window),
            final(events)@.len() == 0,
    {
        let world: Axes = Axes::identity();
        let _ = self.begin_frame(keys, &world, events, locked, window);
        self.end_frame(&world);
    }
}

/// Under rules that read no local axes, the input mapper and the follow
/// controller give the same scene whatever axes they are handed.
pub proof fn world_bound_ignores_axes(scene: SceneView, keys: Keys, a: AxesView, b: AxesView)
    requires
        scene.rules.world_bound(),
    ensures
        scene.steered(keys, a) == scene.steered(keys, b),
        scene.followed(a) == scene.followed(b),
{
}

/// The input mapper and the look controller may run in either order: handed
/// the same axes, they leave the same scene.
pub proof fn input_and_look_commute(
    scene: SceneView,
    keys: Keys,
    axes: AxesView,
    motions: Seq<MouseMotion>,
    locked: bool,
    window: WindowSize,
)
    requires
        scene.wf(),
        scene.complete(),
    ensures
        scene.steered(keys, axes).looked(motions, locked, window) == scene.looked(
            motions,
            locked,
            window,
        ).steered(keys, axes),
{
    let first = scene.steered(keys, axes).looked(motions, locked, window);
    let second = scene.looked(motions, locked, window).steered(keys, axes);
    assert(first.entities =~= second.entities);
}

/// While the cursor is not locked, the look controller leaves yaw and pitch
/// as they were, however many motions were queued.
pub proof fn free_cursor_keeps_look(scene: SceneView, motions: Seq<MouseMotion>, window: WindowSize)
    requires
        scene.wf(),
    ensures
        scene.looked(motions, false, window).look == scene.look,
{
}

/// Nothing caps a velocity: a key held down outruns friction. Under the
/// world-axis scheme, a frame with the right key down leaves a velocity that
/// already points right larger than it found it, by what the key adds less
/// what friction takes, as long as the sum can be held.
pub proof fn held_key_outruns_friction(v: int, keys: Keys, damping: Damping)
    requires
        keys.right,
        !keys.left,
        0 <= v,
        v + SCALE <= i64::MAX,
    ensures
        damped(world_axis_x(v, keys), damping) == v + SCALE - FRICTION,
        damped(world_axis_x(v, keys), damping) > v,
{
}

/// Every stage of the frame keeps the registry as long as it was, and keeps
/// the controlled entity and the camera where they were.
pub proof fn stages_keep_registry(
    scene: SceneView,
    keys: Keys,
    axes: AxesView,
    motions: Seq<MouseMotion>,
    locked: bool,
    window: WindowSize,
)
    requires
        scene.wf(),
        scene.complete(),
    ensures
        same_registry(scene, scene.steered(keys, axes)),
        same_registry(scene, scene.looked(motions, locked, window)),
        same_registry(scene, scene.followed(axes)),
        same_registry(scene, scene.integrated()),
{
}

/// Whether two scenes have as many entities, the same controlled entity and
/// the same camera, and both are well formed.
pub open spec fn same_registry(before: SceneView, after: SceneView) -> bool {
    &&& after.wf()
    &&& after.entities.len() == before.entities.len()
    &&& after.cube == before.cube
    &&& after.camera == before.camera
    &&& after.rules == before.rules
    &&& after.settings == before.settings
}

} // verus!
