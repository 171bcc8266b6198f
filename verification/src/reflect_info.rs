//! What the editor learns of the reflected type registry: which registered
//! types it may add to an entity, their short names, the names of their
//! kinds, and which primitive an opaque field value is read as.
use vstd::prelude::*;

use crate::text::{contains_text, last_path_segment, last_segment, text_eq, texts};

verus! {

/// A registered type as the listing reads it.
#[derive(Clone, Debug)]
pub struct RegisteredType {
    pub type_path: String,
    pub is_component: bool,
    pub is_resource: bool,
}

/// One listed component type: its full path and its short name.
#[derive(Clone, Debug)]
pub struct ComponentType {
    pub type_path: String,
    pub short_name: String,
}

/// `s` holds the character `c`.
pub open spec fn has_char(s: Seq<char>, c: char) -> bool {
    exists|i: int| 0 <= i < s.len() && s[i] == c
}

/// The text holds the character `c`.
pub fn text_has_char(s: &str, c: char) -> (r: bool)
    ensures
        r == has_char(s@, c),
{
    let n = s.unicode_len();
    let mut i: usize = 0;
    while i < n
        invariant
            n == s@.len(),
            i <= n,
            forall|j: int| 0 <= j < i ==> s@[j] != c,
        decreases n - i,
    {
        if s.get_char(i) == c {
            return true;
        }
        i = i + 1;
    }
    false
}

/// The editor may add the type to an entity: a component that is not also a
/// resource and whose path names no generic type.
pub open spec fn is_addable(t: RegisteredType) -> bool {
    &&& t.is_component
    &&& !t.is_resource
    &&& !has_char(t.type_path@, '<')
    &&& !has_char(t.type_path@, '>')
}

/// The listed entries for the registered types, in registry order.
pub open spec fn listing(types: Seq<RegisteredType>) -> Seq<(Seq<char>, Seq<char>)>
    decreases types.len(),
{
    if types.len() == 0 {
        Seq::empty()
    } else {
        let rest = listing(types.drop_last());
        let t = types.last();
        if is_addable(t) {
            rest.push((t.type_path@, last_segment(t.type_path@)))
        } else {
            rest
        }
    }
}

/// The (path, short name) texts of listed component types.
pub open spec fn listed_texts(v: Seq<ComponentType>) -> Seq<(Seq<char>, Seq<char>)> {
    v.map_values(|c: ComponentType| (c.type_path@, c.short_name@))
}

/// The component types the editor may add, with their short names.
pub fn listed_component_types(types: &Vec<RegisteredType>) -> (r: Vec<ComponentType>)
    ensures
        listed_texts(r@) == listing(types@),
{
    let mut out: Vec<ComponentType> = Vec::new();
    let mut i: usize = 0;
    while i < types.len()
        invariant
            i <= types.len(),
            listed_texts(out@) == listing(types@.take(i as int)),
        decreases types.len() - i,
    {
        let t = &types[i];
        proof {
            assert(types@.take(i + 1).drop_last() =~= types@.take(i as int));
            assert(types@.take(i + 1).last() == *t);
        }
        let addable = t.is_component && !t.is_resource && !text_has_char(t.type_path.as_str(), '<')
            && !text_has_char(t.type_path.as_str(), '>');
        if addable {
            let entry = ComponentType {
                type_path: t.type_path.clone(),
                short_name: last_path_segment(t.type_path.as_str()),
            };
            out.push(entry);
        }
        assert(listed_texts(out@) =~= listing(types@.take(i + 1)));
        i = i + 1;
    }
    assert(types@.take(types@.len() as int) =~= types@);
    out
}

/// The short name of a type path: its last `::` segment.
pub fn short_name(type_path: &str) -> (r: String)
    ensures
        r@ == last_segment(type_path@),
{
    last_path_segment(type_path)
}

/// The shape of a reflected type.
#[derive(Clone, Copy, Debug, PartialEq, Eq)]
pub enum TypeKind {
    Struct,
    TupleStruct,
    Tuple,
    List,
    Array,
    MapKind,
    SetKind,
    Enum,
    Opaque,
}

/// The name the editor shows for a kind.
pub open spec fn kind_text(k: TypeKind) -> Seq<char> {
    match k {
        TypeKind::Struct => "struct"@,
        TypeKind::TupleStruct => "tuple_struct"@,
        TypeKind::Tuple => "tuple"@,
        TypeKind::List => "list"@,
        TypeKind::Array => "array"@,
        TypeKind::MapKind => "map"@,
        TypeKind::SetKind => "set"@,
        TypeKind::Enum => "enum"@,
        TypeKind::Opaque => "opaque"@,
    }
}

/// The name of a kind.
pub fn kind_str(k: TypeKind) -> (r: &'static str)
    ensures
        r@ == kind_text(k),
{
    match k {
        TypeKind::Struct => "struct",
        TypeKind::TupleStruct => "tuple_struct",
        TypeKind::Tuple => "tuple",
        TypeKind::List => "list",
        TypeKind::Array => "array",
        TypeKind::MapKind => "map",
        TypeKind::SetKind => "set",
        TypeKind::Enum => "enum",
        TypeKind::Opaque => "opaque",
    }
}

/// The type path and kind name of a field: those of its type when known,
/// else an empty path and `"unknown"`.
pub fn field_type_description(field: &Option<(String, TypeKind)>) -> (r: (String, String))
    ensures
        match field {
            Some((path, kind)) => r.0@ == path@ && r.1@ == kind_text(*kind),
            None => r.0@ == Seq::<char>::empty() && r.1@ == "unknown"@,
        },
{
    match field {
        Some((path, kind)) => (path.clone(), String::from_str(kind_str(*kind))),
        None => (String::new(), String::from_str("unknown")),
    }
}

/// The primitive an opaque field value is read as.
#[derive(Clone, Copy, Debug, PartialEq, Eq)]
pub enum OpaqueKind {
    F32,
    F64,
    I32,
    U32,
    Bool,
    Text,
}

/// The primitive of an opaque type path, if it is one the editor can set.
pub open spec fn opaque_kind_of(type_path: Seq<char>) -> Option<OpaqueKind> {
    if type_path == "f32"@ {
        Some(OpaqueKind::F32)
    } else if type_path == "f64"@ {
        Some(OpaqueKind::F64)
    } else if type_path == "i32"@ {
        Some(OpaqueKind::I32)
    } else if type_path == "u32"@ {
        Some(OpaqueKind::U32)
    } else if type_path == "bool"@ {
        Some(OpaqueKind::Bool)
    } else if type_path == "alloc::string::String"@ || type_path == "String"@ {
        Some(OpaqueKind::Text)
    } else {
        None
    }
}

/// The primitive an opaque type path is read as.
pub fn opaque_kind(type_path: &str) -> (r: Option<OpaqueKind>)
    ensures
        r == opaque_kind_of(type_path@),
{
    if text_eq(type_path, "f32") {
        Some(OpaqueKind::F32)
    } else if text_eq(type_path, "f64") {
        Some(OpaqueKind::F64)
    } else if text_eq(type_path, "i32") {
        Some(OpaqueKind::I32)
    } else if text_eq(type_path, "u32") {
        Some(OpaqueKind::U32)
    } else if text_eq(type_path, "bool") {
        Some(OpaqueKind::Bool)
    } else if text_eq(type_path, "alloc::string::String") || text_eq(type_path, "String") {
        Some(OpaqueKind::Text)
    } else {
        None
    }
}

/// A unit variant authored by name exists on the enum.
pub fn variant_known(variant_names: &Vec<String>, name: &str) -> (r: bool)
    ensures
        r == texts(variant_names@).contains(name@),
{
    contains_text(variant_names, name)
}

/// The Rust type path of each primitive the editor can set.
pub open spec fn primitive_type_path(k: OpaqueKind) -> Seq<char> {
    match k {
        OpaqueKind::F32 => "f32"@,
        OpaqueKind::F64 => "f64"@,
        OpaqueKind::I32 => "i32"@,
        OpaqueKind::U32 => "u32"@,
        OpaqueKind::Bool => "bool"@,
        OpaqueKind::Text => "alloc::string::String"@,
    }
}

/// Every primitive the editor can set is read from its own type path: the
/// type path of each primitive (`f32`, `f64`, `i32`, `u32`, `bool`, and
/// `alloc::string::String` or its short form `String` for text) reads as that
/// primitive, so a field of any of these types is set from the editor's JSON.
pub proof fn law_each_primitive_reads_from_its_type_path(k: OpaqueKind)
    ensures
        opaque_kind_of(primitive_type_path(k)) == Some(k),
        opaque_kind_of("String"@) == Some(OpaqueKind::Text),
{
    reveal_strlit("f32");
    reveal_strlit("f64");
    reveal_strlit("i32");
    reveal_strlit("u32");
    reveal_strlit("bool");
    reveal_strlit("alloc::string::String");
    reveal_strlit("String");
    assert("f32"@[1] != "f64"@[1]);
    assert("f32"@[0] != "i32"@[0] && "f32"@[0] != "u32"@[0] && "f64"@[0] != "i32"@[0] && "f64"@[0] != "u32"@[0]);
    assert("i32"@[0] != "u32"@[0]);
    assert("bool"@.len() != "f32"@.len());
    assert("alloc::string::String"@.len() != "f32"@.len() && "alloc::string::String"@.len() != "bool"@.len());
    assert("String"@.len() != "f32"@.len() && "String"@.len() != "bool"@.len());
    assert("String"@.len() != "alloc::string::String"@.len());
}

} // verus!
