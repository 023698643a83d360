//! The scene as a plan: which entities exist at startup, and where.

use vstd::prelude::*;

use crate::first_person::{scene_controller, FirstPersonCamera};
use crate::fixed::{tenths, Fixed};

verus! {

/// Three coordinates: a point, an offset or a direction.
#[derive(Clone, Copy, Debug, PartialEq, Eq, Structural)]
pub struct Vector3 {
    pub x: Fixed,
    pub y: Fixed,
    pub z: Fixed,
}

/// The vector with the coordinates `x / 10`, `y / 10` and `z / 10`.
pub open spec fn at_tenths(x: int, y: int, z: int) -> Vector3 {
    Vector3 { x: tenths(x), y: tenths(y), z: tenths(z) }
}

/// How an entity is turned, said without trigonometry.
#[derive(Clone, Copy, Debug, PartialEq, Eq, Structural)]
pub enum Orientation {
    /// Not turned at all.
    Identity,
    /// Turned about the X axis by `turns` quarter turns; a negative count
    /// turns the other way.
    QuarterTurnsAboutX { turns: i8 },
    /// Turned so that it faces `target` from where it stands, with `up` as
    /// the upward direction.
    LookingAt { target: Vector3, up: Vector3 },
}

/// Where an entity stands and how it is turned.
#[derive(Clone, Copy, Debug, PartialEq, Eq, Structural)]
pub struct Transform {
    pub translation: Vector3,
    pub rotation: Orientation,
}

/// The colour of a material.
#[derive(Clone, Copy, Debug, PartialEq, Eq, Structural)]
pub enum Color {
    White,
    Blue,
}

/// A mesh that is loaded from a file.
#[derive(Clone, Copy, Debug, PartialEq, Eq, Structural)]
pub enum ModelAsset {
    Skull,
    Ram,
    Sheep,
}

/// What an entity is, and what it is made with.
#[derive(Clone, Copy, Debug, PartialEq, Eq)]
pub enum EntityKind {
    /// A flat disc of one colour.
    GroundPlane { radius: Fixed, color: Color },
    /// A cube of one colour.
    Cube { side: Fixed, color: Color },
    /// A mesh that appears once its file has been loaded.
    Model { asset: ModelAsset },
    /// A light that shines from one point.
    PointLight { shadows: bool },
    /// The camera; `controller` is set when the player steers it.
    Camera { controller: Option<FirstPersonCamera> },
}

/// One entity of the scene.
#[derive(Clone, Copy, Debug, PartialEq, Eq)]
pub struct Entity {
    pub kind: EntityKind,
    pub transform: Transform,
}

/// What an entity is, and no more.
#[derive(Clone, Copy, Debug, PartialEq, Eq, Structural)]
pub enum Role {
    GroundPlane,
    Cube,
    Model,
    PointLight,
    Camera,
}

/// Which of the optional parts the scene has.
#[derive(Clone, Copy, Debug, PartialEq, Eq, Structural)]
pub struct SceneOptions {
    /// A blue unit cube standing on the ground.
    pub cube: bool,
    /// The three imported meshes.
    pub models: bool,
    /// Whether the player steers the camera.
    pub first_person: bool,
}

/// The world origin.
pub open spec fn origin() -> Vector3 {
    at_tenths(0, 0, 0)
}

/// The direction of the Y axis, which is up.
pub open spec fn unit_y() -> Vector3 {
    at_tenths(0, 10, 0)
}

/// A transform that only places: it does not turn.
pub open spec fn placed_at(translation: Vector3) -> Transform {
    Transform { translation, rotation: Orientation::Identity }
}

/// The ground: a white disc of radius 4 at the origin, laid flat by a
/// quarter turn backwards about the X axis.
pub open spec fn ground_plane() -> Entity {
    Entity {
        kind: EntityKind::GroundPlane { radius: tenths(40), color: Color::White },
        transform: Transform {
            translation: origin(),
            rotation: Orientation::QuarterTurnsAboutX { turns: -1i8 },
        },
    }
}

/// The cube: blue, with sides of length 1, standing on the ground.
pub open spec fn cube() -> Entity {
    Entity {
        kind: EntityKind::Cube { side: tenths(10), color: Color::Blue },
        transform: placed_at(at_tenths(0, 5, 0)),
    }
}

/// Where each imported mesh stands.
pub open spec fn model_offset(asset: ModelAsset) -> Vector3 {
    match asset {
        ModelAsset::Skull => at_tenths(5, 0, -10),
        ModelAsset::Ram => at_tenths(15, 0, -50),
        ModelAsset::Sheep => at_tenths(-15, 0, -30),
    }
}

/// The entity that shows the mesh `asset`.
pub open spec fn model(asset: ModelAsset) -> Entity {
    Entity { kind: EntityKind::Model { asset }, transform: placed_at(model_offset(asset)) }
}

/// The light: at (4, 8, 4), casting shadows.
pub open spec fn point_light() -> Entity {
    Entity {
        kind: EntityKind::PointLight { shadows: true },
        transform: placed_at(at_tenths(40, 80, 40)),
    }
}

/// The camera: at (-2.5, 4.5, 9), looking at the origin with Y up. A
/// first-person camera carries the scene's controller settings.
pub open spec fn camera(first_person: bool) -> Entity {
    Entity {
        kind: EntityKind::Camera {
            controller: if first_person {
                Some(scene_controller())
            } else {
                None
            },
        },
        transform: Transform {
            translation: at_tenths(-25, 45, 90),
            rotation: Orientation::LookingAt { target: origin(), up: unit_y() },
        },
    }
}

/// The three imported meshes, or nothing.
pub open spec fn models_of(present: bool) -> Seq<Entity> {
    if present {
        seq![model(ModelAsset::Skull), model(ModelAsset::Ram), model(ModelAsset::Sheep)]
    } else {
        Seq::empty()
    }
}

/// The cube, or nothing.
pub open spec fn cube_of(present: bool) -> Seq<Entity> {
    if present {
        seq![cube()]
    } else {
        Seq::empty()
    }
}

/// The entities of the scene in the order in which they are made: the
/// ground, then the optional cube and meshes, then the light and the camera.
pub open spec fn scene_of(options: SceneOptions) -> Seq<Entity> {
    seq![ground_plane()] + cube_of(options.cube) + models_of(options.models) + seq![
        point_light(),
        camera(options.first_person),
    ]
}

/// What the entity `entity` is, and no more.
pub open spec fn role_of(entity: Entity) -> Role {
    match entity.kind {
        EntityKind::GroundPlane { .. } => Role::GroundPlane,
        EntityKind::Cube { .. } => Role::Cube,
        EntityKind::Model { .. } => Role::Model,
        EntityKind::PointLight { .. } => Role::PointLight,
        EntityKind::Camera { .. } => Role::Camera,
    }
}

/// How many entities of `scene` have the role `role`.
pub open spec fn count_of(scene: Seq<Entity>, role: Role) -> nat
    decreases scene.len(),
{
    if scene.len() == 0 {
        0
    } else {
        count_of(scene.drop_last(), role) + if role_of(scene.last()) == role {
            1nat
        } else {
            0nat
        }
    }
}

/// The file name of each mesh, without directory and extension.
pub open spec fn asset_name(asset: ModelAsset) -> Seq<char> {
    match asset {
        ModelAsset::Skull => "skull"@,
        ModelAsset::Ram => "ram"@,
        ModelAsset::Sheep => "sheep"@,
    }
}

/// The path of the file that holds the mesh: `glb/`, its name, `.glb`.
pub open spec fn asset_file(asset: ModelAsset) -> Seq<char> {
    "glb/"@ + asset_name(asset) + ".glb"@
}

/// The path of the scene to show for the mesh: the first one in its file.
pub open spec fn asset_scene(asset: ModelAsset) -> Seq<char> {
    asset_file(asset) + "#Scene0"@
}

impl Vector3 {
    /// The vector with the coordinates `x / 10`, `y / 10` and `z / 10`.
    pub fn from_tenths(x: i32, y: i32, z: i32) -> (v: Vector3)
        ensures
            v == at_tenths(x as int, y as int, z as int),
    {
        Vector3 { x: Fixed::from_tenths(x), y: Fixed::from_tenths(y), z: Fixed::from_tenths(z) }
    }
}

impl Transform {
    /// The transform that places at `translation` without turning.
    pub fn from_translation(translation: Vector3) -> (t: Transform)
        ensures
            t == placed_at(translation),
    {
        Transform { translation, rotation: Orientation::Identity }
    }
}

impl ModelAsset {
    /// The path of the file that holds the mesh, below the asset directory.
    pub fn file_path(self) -> (path: &'static str)
        ensures
            path@ == asset_file(self),
    {
        proof {
            reveal_strlit("glb/");
            reveal_strlit(".glb");
            reveal_strlit("skull");
            reveal_strlit("ram");
            reveal_strlit("sheep");
            reveal_strlit("glb/skull.glb");
            reveal_strlit("glb/ram.glb");
            reveal_strlit("glb/sheep.glb");
        }
        match self {
            ModelAsset::Skull => {
                assert("glb/skull.glb"@ =~= asset_file(ModelAsset::Skull));
                "glb/skull.glb"
            },
            ModelAsset::Ram => {
                assert("glb/ram.glb"@ =~= asset_file(ModelAsset::Ram));
                "glb/ram.glb"
            },
            ModelAsset::Sheep => {
                assert("glb/sheep.glb"@ =~= asset_file(ModelAsset::Sheep));
                "glb/sheep.glb"
            },
        }
    }

    /// The path to ask the asset server for when the mesh is to be shown:
    /// the first scene of the file.
    pub fn scene_path(self) -> (path: &'static str)
        ensures
            path@ == asset_scene(self),
    {
        proof {
            reveal_strlit("glb/");
            reveal_strlit(".glb");
            reveal_strlit("#Scene0");
            reveal_strlit("skull");
            reveal_strlit("ram");
            reveal_strlit("sheep");
            reveal_strlit("glb/skull.glb#Scene0");
            reveal_strlit("glb/ram.glb#Scene0");
            reveal_strlit("glb/sheep.glb#Scene0");
        }
        match self {
            ModelAsset::Skull => {
                assert("glb/skull.glb#Scene0"@ =~= asset_scene(ModelAsset::Skull));
                "glb/skull.glb#Scene0"
            },
            ModelAsset::Ram => {
                assert("glb/ram.glb#Scene0"@ =~= asset_scene(ModelAsset::Ram));
                "glb/ram.glb#Scene0"
            },
            ModelAsset::Sheep => {
                assert("glb/sheep.glb#Scene0"@ =~= asset_scene(ModelAsset::Sheep));
                "glb/sheep.glb#Scene0"
            },
        }
    }
}

/// The asset that the program asks for at startup and keeps for its whole
/// run.
#[derive(Clone, Copy, Debug, PartialEq, Eq, Structural)]
pub struct MyAssetPack(pub ModelAsset);

/// Names the asset to load at startup: the skull.
pub fn load_gltf() -> (pack: MyAssetPack)
    ensures
        pack.0 == ModelAsset::Skull,
{
    MyAssetPack(ModelAsset::Skull)
}

impl Entity {
    /// What the entity is, and no more.
    pub fn role(&self) -> (role: Role)
        ensures
            role == role_of(*self),
    {
        match self.kind {
            EntityKind::GroundPlane { .. } => Role::GroundPlane,
            EntityKind::Cube { .. } => Role::Cube,
            EntityKind::Model { .. } => Role::Model,
            EntityKind::PointLight { .. } => Role::PointLight,
            EntityKind::Camera { .. } => Role::Camera,
        }
    }
}

/// Counting over two lists laid end to end adds up.
proof fn lemma_count_of_concat(a: Seq<Entity>, b: Seq<Entity>, role: Role)
    ensures
        count_of(a + b, role) == count_of(a, role) + count_of(b, role),
    decreases b.len(),
{
    if b.len() == 0 {
        assert(a + b =~= a);
    } else {
        assert((a + b).drop_last() =~= a + b.drop_last());
        assert((a + b).last() == b.last());
        lemma_count_of_concat(a, b.drop_last(), role);
    }
}

/// Counts the entities of `scene` that have the role `role`.
pub fn count_role(scene: &Vec<Entity>, role: Role) -> (count: usize)
    ensures
        count == count_of(scene@, role),
{
    let mut count: usize = 0;
    let mut i: usize = 0;
    while i < scene.len()
        invariant
            i <= scene.len(),
            count <= i,
            count == count_of(scene@.take(i as int), role),
        decreases scene.len() - i,
    {
        assert(scene@.take(i + 1).drop_last() =~= scene@.take(i as int));
        assert(scene@.take(i + 1).last() == scene@[i as int]);
        if scene[i].role() == role {
            count = count + 1;
        }
        i = i + 1;
    }
    assert(scene@.take(i as int) =~= scene@);
    count
}

/// Whichever optional parts are chosen, the scene holds exactly one ground
/// plane, one light and one camera, each as the plan describes it; it holds
/// the cube and the three meshes exactly when they are asked for.
pub proof fn scene_census(options: SceneOptions)
    ensures
        count_of(scene_of(options), Role::GroundPlane) == 1,
        count_of(scene_of(options), Role::PointLight) == 1,
        count_of(scene_of(options), Role::Camera) == 1,
        count_of(scene_of(options), Role::Cube) == if options.cube { 1nat } else { 0nat },
        count_of(scene_of(options), Role::Model) == if options.models { 3nat } else { 0nat },
        forall|i: int|
            0 <= i < scene_of(options).len() ==> match role_of(#[trigger] scene_of(options)[i]) {
                Role::GroundPlane => scene_of(options)[i] == ground_plane(),
                Role::PointLight => scene_of(options)[i] == point_light(),
                Role::Camera => scene_of(options)[i] == camera(options.first_person),
                Role::Cube => scene_of(options)[i] == cube(),
                Role::Model => exists|asset: ModelAsset| scene_of(options)[i] == model(asset),
            },
{
    let head = seq![ground_plane()];
    let tail = seq![point_light(), camera(options.first_person)];
    let cubes = cube_of(options.cube);
    let models = models_of(options.models);
    reveal_with_fuel(count_of, 4);
    assert forall|role: Role|
        count_of(scene_of(options), role) == count_of(head, role) + count_of(cubes, role)
            + count_of(models, role) + count_of(tail, role) by {
        lemma_count_of_concat(head, cubes, role);
        lemma_count_of_concat(head + cubes, models, role);
        lemma_count_of_concat(head + cubes + models, tail, role);
    }
}

/// Builds the scene: the list of entities to create at startup.
pub fn setup(options: SceneOptions) -> (scene: Vec<Entity>)
    ensures
        scene@ == scene_of(options),
        count_of(scene@, Role::GroundPlane) == 1,
        count_of(scene@, Role::PointLight) == 1,
        count_of(scene@, Role::Camera) == 1,
{
    proof {
        scene_census(options);
    }
    let mut scene: Vec<Entity> = Vec::new();
    scene.push(
        Entity {
            kind: EntityKind::GroundPlane { radius: Fixed::from_tenths(40), color: Color::White },
            transform: Transform {
                translation: Vector3::from_tenths(0, 0, 0),
                rotation: Orientation::QuarterTurnsAboutX { turns: -1 },
            },
        },
    );
    if options.cube {
        scene.push(
            Entity {
                kind: EntityKind::Cube { side: Fixed::from_tenths(10), color: Color::Blue },
                transform: Transform::from_translation(Vector3::from_tenths(0, 5, 0)),
            },
        );
    }
    if options.models {
        scene.push(
            Entity {
                kind: EntityKind::Model { asset: ModelAsset::Skull },
                transform: Transform::from_translation(Vector3::from_tenths(5, 0, -10)),
            },
        );
        scene.push(
            Entity {
                kind: EntityKind::Model { asset: ModelAsset::Ram },
                transform: Transform::from_translation(Vector3::from_tenths(15, 0, -50)),
            },
        );
        scene.push(
            Entity {
                kind: EntityKind::Model { asset: ModelAsset::Sheep },
                transform: Transform::from_translation(Vector3::from_tenths(-15, 0, -30)),
            },
        );
    }
    scene.push(
        Entity {
            kind: EntityKind::PointLight { shadows: true },
            transform: Transform::from_translation(Vector3::from_tenths(40, 80, 40)),
        },
    );
    let controller = if options.first_person {
        Some(
            FirstPersonCamera {
                speed: Fixed::from_tenths(50),
                sensitivity: Fixed::from_tenths(1),
            },
        )
    } else {
        None
    };
    scene.push(
        Entity {
            kind: EntityKind::Camera { controller },
            transform: Transform {
                translation: Vector3::from_tenths(-25, 45, 90),
                rotation: Orientation::LookingAt {
                    target: Vector3::from_tenths(0, 0, 0),
                    up: Vector3::from_tenths(0, 10, 0),
                },
            },
        },
    );
    assert(scene@ =~= scene_of(options));
    scene
}

} // verus!
