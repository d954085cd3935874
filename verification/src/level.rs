//! Level rotation and the reading of a level's objects: which gameplay
//! entity each map object becomes, what each collision object does, and
//! which ambience a level gets.
use vstd::prelude::*;
use crate::actor::BlockKind;

verus! {

/// Number of levels in the rotation.
pub const LEVEL_COUNT: usize = 2;

/// The level rotation, in play order.
pub open spec fn level_name_of(index: int) -> Seq<char> {
    if index % (LEVEL_COUNT as int) == 0 {
        "forest-1"@
    } else {
        "forest"@
    }
}

/// Whether two strings are equal.
pub fn str_eq(a: &str, b: &str) -> (r: bool)
    ensures
        r == (a@ == b@),
{
    a.to_owned() == b.to_owned()
}

/// The level currently loaded.
#[derive(Debug, Clone, Copy, PartialEq, Eq, Structural)]
pub struct CurrentLevel {
    pub index: usize,
}

impl Default for CurrentLevel {
    fn default() -> (r: Self)
        ensures
            r.index == 0,
    {
        CurrentLevel { index: 0 }
    }
}

impl CurrentLevel {
    /// The loaded level's name; indices wrap around the rotation.
    pub fn name(&self) -> (r: &'static str)
        ensures
            r@ == level_name_of(self.index as int),
    {
        if self.index % LEVEL_COUNT == 0 {
            "forest-1"
        } else {
            "forest"
        }
    }

    /// Loads level `requested`, wrapping it into the rotation. Returns the
    /// index loaded.
    pub fn load(&mut self, requested: usize) -> (r: usize)
        ensures
            r == requested % LEVEL_COUNT,
            final(self).index == r,
    {
        self.index = requested % LEVEL_COUNT;
        self.index
    }

    /// The level to load after this one: the next in the rotation, wrapping
    /// back to the first rather than ending the game.
    pub fn next_index(&self) -> (r: usize)
        requires
            self.index < usize::MAX,
        ensures
            r == (self.index + 1) % (LEVEL_COUNT as int),
    {
        (self.index + 1) % LEVEL_COUNT
    }
}

/// Advancing through the rotation visits every level and comes back to the
/// start after as many advances as there are levels.
pub proof fn law_rotation_wraps(index: int)
    requires
        0 <= index,
    ensures
        (index + 1) % (LEVEL_COUNT as int) < LEVEL_COUNT,
        level_name_of(index + LEVEL_COUNT as int) == level_name_of(index),
        level_name_of(index + 1) != level_name_of(index),
{
    reveal_strlit("forest-1");
    reveal_strlit("forest");
    assert("forest-1"@.len() != "forest"@.len());
}

/// What a map's object layer holds, selected by the layer's name.
#[derive(Debug, Clone, Copy, PartialEq, Eq, Structural)]
pub enum LayerRole {
    /// Gameplay entities: the player, enemies, items, objects.
    SpawnPoints,
    /// Collision blocks.
    Collisions,
    /// Anything else is not read.
    Ignored,
}

/// The role of an object layer named `name`.
pub open spec fn layer_role_of(name: Seq<char>) -> LayerRole {
    if name == "SpawnPoints"@ {
        LayerRole::SpawnPoints
    } else if name == "Collisions"@ {
        LayerRole::Collisions
    } else {
        LayerRole::Ignored
    }
}

/// Classifies an object layer by its name.
pub fn layer_role(name: &str) -> (r: LayerRole)
    ensures
        r == layer_role_of(name@),
{
    if str_eq(name, "SpawnPoints") {
        LayerRole::SpawnPoints
    } else if str_eq(name, "Collisions") {
        LayerRole::Collisions
    } else {
        LayerRole::Ignored
    }
}

/// The gameplay entity a map object of the `SpawnPoints` layer becomes,
/// selected by the object's class.
#[derive(Debug, Clone, Copy, PartialEq, Eq, Structural)]
pub enum SpawnKind {
    Player,
    Collectable,
    Bat,
    YellowMob,
    RedMob,
    Checkpoint,
    Bomb,
    Torch,
    Trigger,
    Escalator,
    FallingPlatform,
    Actionable,
    /// A class with no gameplay meaning; an empty class is not reported.
    Unknown,
}

/// The spawn kind of an object class.
pub open spec fn spawn_kind_of(class: Seq<char>) -> SpawnKind {
    if class == "Player"@ {
        SpawnKind::Player
    } else if class == "Collectable"@ {
        SpawnKind::Collectable
    } else if class == "Bat"@ {
        SpawnKind::Bat
    } else if class == "YellowMob"@ {
        SpawnKind::YellowMob
    } else if class == "RedMob"@ {
        SpawnKind::RedMob
    } else if class == "Checkpoint"@ {
        SpawnKind::Checkpoint
    } else if class == "Bomb"@ {
        SpawnKind::Bomb
    } else if class == "Torch"@ {
        SpawnKind::Torch
    } else if class == "Trigger"@ {
        SpawnKind::Trigger
    } else if class == "Escalator"@ {
        SpawnKind::Escalator
    } else if class == "FallingPlatform"@ {
        SpawnKind::FallingPlatform
    } else if class == "Actionable"@ {
        SpawnKind::Actionable
    } else {
        SpawnKind::Unknown
    }
}

/// Classifies a `SpawnPoints` object by its class.
pub fn spawn_kind(class: &str) -> (r: SpawnKind)
    ensures
        r == spawn_kind_of(class@),
{
    if str_eq(class, "Player") {
        SpawnKind::Player
    } else if str_eq(class, "Collectable") {
        SpawnKind::Collectable
    } else if str_eq(class, "Bat") {
        SpawnKind::Bat
    } else if str_eq(class, "YellowMob") {
        SpawnKind::YellowMob
    } else if str_eq(class, "RedMob") {
        SpawnKind::RedMob
    } else if str_eq(class, "Checkpoint") {
        SpawnKind::Checkpoint
    } else if str_eq(class, "Bomb") {
        SpawnKind::Bomb
    } else if str_eq(class, "Torch") {
        SpawnKind::Torch
    } else if str_eq(class, "Trigger") {
        SpawnKind::Trigger
    } else if str_eq(class, "Escalator") {
        SpawnKind::Escalator
    } else if str_eq(class, "FallingPlatform") {
        SpawnKind::FallingPlatform
    } else if str_eq(class, "Actionable") {
        SpawnKind::Actionable
    } else {
        SpawnKind::Unknown
    }
}

/// The block kind of a `Collisions` object class; any other class is solid.
pub open spec fn block_kind_of(class: Seq<char>) -> BlockKind {
    if class == "Platform"@ {
        BlockKind::Platform
    } else if class == "QuickSand"@ {
        BlockKind::QuickSand
    } else if class == "Wall"@ {
        BlockKind::Wall
    } else {
        BlockKind::Solid
    }
}

/// Classifies a `Collisions` object by its class.
pub fn block_kind(class: &str) -> (r: BlockKind)
    ensures
        r == block_kind_of(class@),
{
    if str_eq(class, "Platform") {
        BlockKind::Platform
    } else if str_eq(class, "QuickSand") {
        BlockKind::QuickSand
    } else if str_eq(class, "Wall") {
        BlockKind::Wall
    } else {
        BlockKind::Solid
    }
}

/// What an `Actionable` object is built as, selected by its `type`
/// property; its name is the id a trigger matches against.
#[derive(Debug, Clone, Copy, PartialEq, Eq, Structural)]
pub enum ActionableType {
    Torch,
    Wall,
    /// Missing or unhandled `type`: nothing is built.
    Unhandled,
}

/// The actionable type selected by a `type` property.
pub open spec fn actionable_type_of(ty: Option<Seq<char>>) -> ActionableType {
    match ty {
        Some(t) => if t == "Torch"@ {
            ActionableType::Torch
        } else if t == "Wall"@ {
            ActionableType::Wall
        } else {
            ActionableType::Unhandled
        },
        None => ActionableType::Unhandled,
    }
}

/// Classifies an `Actionable` object by its `type` property, if it has one.
pub fn actionable_type(ty: Option<&str>) -> (r: ActionableType)
    ensures
        r == actionable_type_of(match ty {
            Some(t) => Some(t@),
            None => None,
        }),
{
    match ty {
        Some(t) => {
            if str_eq(t, "Torch") {
                ActionableType::Torch
            } else if str_eq(t, "Wall") {
                ActionableType::Wall
            } else {
                ActionableType::Unhandled
            }
        },
        None => ActionableType::Unhandled,
    }
}

/// The atmospheric emitters a level gets, keyed by its name.
#[derive(Debug, Clone, Copy, PartialEq, Eq, Structural)]
pub enum Ambience {
    /// This many fireflies wandering the level.
    Fireflies(u32),
    /// This many recycled rain drops.
    Rain(u32),
    Still,
}

/// The ambience of a level name.
pub open spec fn ambience_of(name: Seq<char>) -> Ambience {
    if name == "forest"@ {
        Ambience::Fireflies(24)
    } else if name == "forest-1"@ {
        Ambience::Rain(48)
    } else {
        Ambience::Still
    }
}

/// The ambience spawned with a level: fireflies in the forest, rain on its
/// outskirts, nothing elsewhere.
pub fn ambience(level_name: &str) -> (r: Ambience)
    ensures
        r == ambience_of(level_name@),
{
    if str_eq(level_name, "forest") {
        Ambience::Fireflies(24)
    } else if str_eq(level_name, "forest-1") {
        Ambience::Rain(48)
    } else {
        Ambience::Still
    }
}


/// Each named block class gives the kind of the same name, and exactly the
/// classes with none of those names are solid.
pub proof fn law_block_class_names_its_kind(class: Seq<char>)
    ensures
        (block_kind_of(class) == BlockKind::Platform) <==> class == "Platform"@,
        (block_kind_of(class) == BlockKind::QuickSand) <==> class == "QuickSand"@,
        (block_kind_of(class) == BlockKind::Wall) <==> class == "Wall"@,
        (block_kind_of(class) == BlockKind::Solid) <==> (class != "Platform"@ && class != "QuickSand"@ && class
            != "Wall"@),
{
    reveal_strlit("Platform");
    reveal_strlit("QuickSand");
    reveal_strlit("Wall");
    assert("Platform"@.len() == 8);
    assert("QuickSand"@.len() == 9);
    assert("Wall"@.len() == 4);
}


/// Each gameplay class spawns the entity of the same name, and exactly the
/// classes with none of those names are unknown.
pub proof fn law_spawn_class_names_its_kind(class: Seq<char>)
    ensures
        (spawn_kind_of(class) == SpawnKind::Player) <==> class == "Player"@,
        (spawn_kind_of(class) == SpawnKind::Collectable) <==> class == "Collectable"@,
        (spawn_kind_of(class) == SpawnKind::Bat) <==> class == "Bat"@,
        (spawn_kind_of(class) == SpawnKind::YellowMob) <==> class == "YellowMob"@,
        (spawn_kind_of(class) == SpawnKind::RedMob) <==> class == "RedMob"@,
        (spawn_kind_of(class) == SpawnKind::Checkpoint) <==> class == "Checkpoint"@,
        (spawn_kind_of(class) == SpawnKind::Bomb) <==> class == "Bomb"@,
        (spawn_kind_of(class) == SpawnKind::Torch) <==> class == "Torch"@,
        (spawn_kind_of(class) == SpawnKind::Trigger) <==> class == "Trigger"@,
        (spawn_kind_of(class) == SpawnKind::Escalator) <==> class == "Escalator"@,
        (spawn_kind_of(class) == SpawnKind::FallingPlatform) <==> class == "FallingPlatform"@,
        (spawn_kind_of(class) == SpawnKind::Actionable) <==> class == "Actionable"@,
        (spawn_kind_of(class) == SpawnKind::Unknown) <==> (class != "Player"@ && class != "Collectable"@ && class != "Bat"@ && class != "YellowMob"@ && class != "RedMob"@ && class != "Checkpoint"@ && class != "Bomb"@ && class != "Torch"@ && class != "Trigger"@ && class != "Escalator"@ && class != "FallingPlatform"@ && class != "Actionable"@),
{
    reveal_strlit("Player");
    reveal_strlit("Collectable");
    reveal_strlit("Bat");
    reveal_strlit("YellowMob");
    reveal_strlit("RedMob");
    reveal_strlit("Checkpoint");
    reveal_strlit("Bomb");
    reveal_strlit("Torch");
    reveal_strlit("Trigger");
    reveal_strlit("Escalator");
    reveal_strlit("FallingPlatform");
    reveal_strlit("Actionable");
    assert("Player"@.len() == 6);
    assert("Collectable"@.len() == 11);
    assert("Bat"@.len() == 3);
    assert("YellowMob"@.len() == 9);
    assert("RedMob"@.len() == 6);
    assert("Checkpoint"@.len() == 10);
    assert("Bomb"@.len() == 4);
    assert("Torch"@.len() == 5);
    assert("Trigger"@.len() == 7);
    assert("Escalator"@.len() == 9);
    assert("FallingPlatform"@.len() == 15);
    assert("Actionable"@.len() == 10);
    assert("Player"@[0] != "RedMob"@[0]);
    assert("YellowMob"@[0] != "Escalator"@[0]);
    assert("Checkpoint"@[0] != "Actionable"@[0]);
}

/// Only the layer named `SpawnPoints` spawns entities and only the one named
/// `Collisions` holds blocks; every other layer is ignored.
pub proof fn law_layer_name_names_its_role(name: Seq<char>)
    ensures
        (layer_role_of(name) == LayerRole::SpawnPoints) <==> name == "SpawnPoints"@,
        (layer_role_of(name) == LayerRole::Collisions) <==> name == "Collisions"@,
        (layer_role_of(name) == LayerRole::Ignored) <==> (name != "SpawnPoints"@ && name != "Collisions"@),
{
    reveal_strlit("SpawnPoints");
    reveal_strlit("Collisions");
    assert("SpawnPoints"@.len() == 11);
    assert("Collisions"@.len() == 10);
}

/// An actionable builds a torch exactly when its type is `Torch` and a wall
/// exactly when it is `Wall`; a missing or other type builds nothing.
pub proof fn law_actionable_type_names_what_is_built(ty: Option<Seq<char>>)
    ensures
        (actionable_type_of(ty) == ActionableType::Torch) <==> ty == Some("Torch"@),
        (actionable_type_of(ty) == ActionableType::Wall) <==> ty == Some("Wall"@),
        ty is None ==> actionable_type_of(ty) == ActionableType::Unhandled,
{
    reveal_strlit("Torch");
    reveal_strlit("Wall");
    assert("Torch"@.len() == 5);
    assert("Wall"@.len() == 4);
}

/// Fireflies come only to the forest and rain only to its outskirts; every
/// other level is still. The forest's fireflies and the outskirts' rain are
/// never absent.
pub proof fn law_ambience_by_level(name: Seq<char>)
    ensures
        (ambience_of(name) is Fireflies) <==> name == "forest"@,
        (ambience_of(name) is Rain) <==> name == "forest-1"@,
        ambience_of(name) matches Ambience::Fireflies(n) ==> n > 0,
        ambience_of(name) matches Ambience::Rain(n) ==> n > 0,
{
    reveal_strlit("forest");
    reveal_strlit("forest-1");
    assert("forest"@.len() == 6);
    assert("forest-1"@.len() == 8);
}

} // verus!
