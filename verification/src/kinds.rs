//! How the editor's entity kinds (`mesh:cube`, `light:spot`, ...) and
//! primitive mesh names decide what gets spawned.
use vstd::prelude::*;

use crate::id_map::{is_light_kind, light_kind};
use crate::text::text_eq;

verus! {

/// A procedural mesh.
#[derive(Clone, Copy, Debug, PartialEq, Eq)]
pub enum Primitive {
    Cube,
    Plane,
}

/// The procedural mesh a primitive name names, if any.
pub open spec fn primitive_of(name: Seq<char>) -> Option<Primitive> {
    if name == "cube"@ {
        Some(Primitive::Cube)
    } else if name == "plane"@ {
        Some(Primitive::Plane)
    } else {
        None
    }
}

/// Parse a primitive mesh name (`"cube"` or `"plane"`).
pub fn primitive_for(name: &str) -> (r: Option<Primitive>)
    ensures
        r == primitive_of(name@),
{
    if text_eq(name, "cube") {
        Some(Primitive::Cube)
    } else if text_eq(name, "plane") {
        Some(Primitive::Plane)
    } else {
        None
    }
}

/// The name a primitive is stored under on its entity.
pub open spec fn primitive_text(p: Primitive) -> Seq<char> {
    match p {
        Primitive::Cube => "cube"@,
        Primitive::Plane => "plane"@,
    }
}

/// The name of a primitive.
pub fn primitive_name(p: Primitive) -> (r: &'static str)
    ensures
        r@ == primitive_text(p),
{
    match p {
        Primitive::Cube => "cube",
        Primitive::Plane => "plane",
    }
}

/// What an entity of a given editor kind is spawned as.
#[derive(Clone, Copy, Debug, PartialEq, Eq)]
pub enum EntityKind {
    Mesh(Primitive),
    Light,
    Atmosphere,
    Empty,
    Unknown,
}

/// The spawn shape of an editor kind; unknown kinds spawn an empty entity
/// (with a warning).
pub open spec fn entity_kind_of(kind: Seq<char>) -> EntityKind {
    if kind == "mesh:cube"@ {
        EntityKind::Mesh(Primitive::Cube)
    } else if kind == "mesh:plane"@ {
        EntityKind::Mesh(Primitive::Plane)
    } else if is_light_kind(kind) {
        EntityKind::Light
    } else if kind == "sky:atmosphere"@ {
        EntityKind::Atmosphere
    } else if kind == "actor:empty"@ {
        EntityKind::Empty
    } else {
        EntityKind::Unknown
    }
}

/// Classify an editor kind.
pub fn entity_kind(kind: &str) -> (r: EntityKind)
    ensures
        r == entity_kind_of(kind@),
{
    if text_eq(kind, "mesh:cube") {
        EntityKind::Mesh(Primitive::Cube)
    } else if text_eq(kind, "mesh:plane") {
        EntityKind::Mesh(Primitive::Plane)
    } else if light_kind(kind) {
        EntityKind::Light
    } else if text_eq(kind, "sky:atmosphere") {
        EntityKind::Atmosphere
    } else if text_eq(kind, "actor:empty") {
        EntityKind::Empty
    } else {
        EntityKind::Unknown
    }
}

/// A light entity's type.
#[derive(Clone, Copy, Debug, PartialEq, Eq)]
pub enum LightKind {
    Directional,
    Point,
    Spot,
    Rect,
    Unknown,
}

/// The light type of a light kind; other kinds spawn an empty entity.
pub open spec fn light_kind_of(kind: Seq<char>) -> LightKind {
    if kind == "light:directional"@ {
        LightKind::Directional
    } else if kind == "light:point"@ {
        LightKind::Point
    } else if kind == "light:spot"@ {
        LightKind::Spot
    } else if kind == "light:rect"@ {
        LightKind::Rect
    } else {
        LightKind::Unknown
    }
}

/// Classify a light kind.
pub fn light_type(kind: &str) -> (r: LightKind)
    ensures
        r == light_kind_of(kind@),
{
    if text_eq(kind, "light:directional") {
        LightKind::Directional
    } else if text_eq(kind, "light:point") {
        LightKind::Point
    } else if text_eq(kind, "light:spot") {
        LightKind::Spot
    } else if text_eq(kind, "light:rect") {
        LightKind::Rect
    } else {
        LightKind::Unknown
    }
}

/// The shadow-map setting a light gets: what the editor asks for, else on
/// for directional lights and off for point and spot lights. Rect lights (and
/// unknown kinds) take no setting.
pub open spec fn shadows_of(kind: LightKind, requested: Option<bool>) -> Option<bool> {
    match kind {
        LightKind::Directional => Some(
            match requested {
                Some(b) => b,
                None => true,
            },
        ),
        LightKind::Point | LightKind::Spot => Some(
            match requested {
                Some(b) => b,
                None => false,
            },
        ),
        _ => None,
    }
}

/// The shadow-map setting of a light of `kind`.
pub fn light_shadows(kind: LightKind, requested: Option<bool>) -> (r: Option<bool>)
    ensures
        r == shadows_of(kind, requested),
{
    match kind {
        LightKind::Directional => Some(
            match requested {
                Some(b) => b,
                None => true,
            },
        ),
        LightKind::Point | LightKind::Spot => Some(
            match requested {
                Some(b) => b,
                None => false,
            },
        ),
        _ => None,
    }
}

} // verus!
