//! The registry of named scene factories: a later registration under a name
//! replaces the earlier one, and a lookup finds the factory last registered.
//! Which scene a renderer gets when no factory has its name.
use vstd::prelude::*;

use crate::text::text_eq;

verus! {

/// The built-in scene a scene name selects when no factory is registered
/// under it.
#[derive(Clone, Copy, Debug, PartialEq, Eq)]
pub enum BuiltinScene {
    Cube,
    Particles,
    ShaderPlayground,
}

/// `"particles"` and `"shader_playground"` name their scenes; any other name
/// falls back to the cube.
pub open spec fn builtin_scene_of(name: Seq<char>) -> BuiltinScene {
    if name == "particles"@ {
        BuiltinScene::Particles
    } else if name == "shader_playground"@ {
        BuiltinScene::ShaderPlayground
    } else {
        BuiltinScene::Cube
    }
}

/// The built-in scene for a scene name.
pub fn builtin_scene(name: &str) -> (r: BuiltinScene)
    ensures
        r == builtin_scene_of(name@),
{
    if text_eq(name, "particles") {
        BuiltinScene::Particles
    } else if text_eq(name, "shader_playground") {
        BuiltinScene::ShaderPlayground
    } else {
        BuiltinScene::Cube
    }
}

/// The scene name of a scene code of the C export `engine_create`:
/// 2 is particles, 3 the shader playground, anything else the cube.
pub open spec fn scene_name_of_code(code: u8) -> Seq<char> {
    if code == 2 {
        "particles"@
    } else if code == 3 {
        "shader_playground"@
    } else {
        "cube"@
    }
}

/// The scene name for a scene code.
pub fn scene_name_for_code(code: u8) -> (r: &'static str)
    ensures
        r@ == scene_name_of_code(code),
{
    if code == 2 {
        "particles"
    } else if code == 3 {
        "shader_playground"
    } else {
        "cube"
    }
}

/// Named scene factories. `F` is the factory type.
pub struct SceneRegistry<F> {
    entries: Vec<(String, F)>,
    named: Ghost<Map<Seq<char>, F>>,
}

/// `v` lists `m`: names unique, each entry in `m`, each name of `m` listed.
pub open spec fn lists_factories<F>(v: Seq<(String, F)>, m: Map<Seq<char>, F>) -> bool {
    &&& forall|i: int, j: int| 0 <= i < j < v.len() ==> #[trigger] v[i].0@ != #[trigger] v[j].0@
    &&& forall|i: int| 0 <= i < v.len() ==> m.contains_key(#[trigger] v[i].0@) && m[v[i].0@] == v[i].1
    &&& forall|k: Seq<char>| #[trigger] m.contains_key(k) ==> exists|i: int| 0 <= i < v.len() && v[i].0@ == k
}

impl<F> SceneRegistry<F> {
    /// The listed entries and the map they stand for agree.
    #[verifier::type_invariant]
    spec fn wf(&self) -> bool {
        lists_factories(self.entries@, self.named@)
    }

    /// The registered factories by name.
    pub closed spec fn view(&self) -> Map<Seq<char>, F> {
        self.named@
    }

    /// No factory registered.
    pub fn new() -> (r: Self)
        ensures
            r@ == Map::<Seq<char>, F>::empty(),
    {
        SceneRegistry { entries: Vec::new(), named: Ghost(Map::empty()) }
    }

    fn position(&self, name: &str) -> (r: Option<usize>)
        ensures
            match r {
                Some(i) => i < self.entries@.len() && self.entries@[i as int].0@ == name@,
                None => !self@.contains_key(name@),
            },
    {
        proof {
            use_type_invariant(self);
        }
        let mut i: usize = 0;
        while i < self.entries.len()
            invariant
                lists_factories(self.entries@, self.named@),
                i <= self.entries@.len(),
                forall|j: int| 0 <= j < i ==> self.entries@[j].0@ != name@,
            decreases self.entries.len() - i,
        {
            if text_eq(self.entries[i].0.as_str(), name) {
                return Some(i);
            }
            i = i + 1;
        }
        None
    }

    /// Register `factory` under `name`, replacing an earlier one.
    pub fn register_scene(&mut self, name: String, factory: F)
        ensures
            final(self)@ == old(self)@.insert(name@, factory),
    {
        proof {
            use_type_invariant(&*self);
        }
        let pos = self.position(name.as_str());
        let mut taken = SceneRegistry::new();
        std::mem::swap(self, &mut taken);
        proof {
            use_type_invariant(&taken);
        }
        let SceneRegistry { entries: mut entries, named } = taken;
        let ghost m = named@.insert(name@, factory);
        let ghost old_v = entries@;
        match pos {
            Some(i) => {
                entries.set(i, (name, factory));
                proof {
                    assert forall|k: Seq<char>| #[trigger] m.contains_key(k) implies exists|j: int|
                        0 <= j < entries@.len() && entries@[j].0@ == k by {
                        if k != entries@[i as int].0@ {
                            let j = choose|j: int| 0 <= j < old_v.len() && old_v[j].0@ == k;
                            assert(entries@[j].0@ == k);
                        }
                    }
                }
            },
            None => {
                entries.push((name, factory));
                proof {
                    let n = old_v.len() as int;
                    assert forall|k: Seq<char>| #[trigger] m.contains_key(k) implies exists|j: int|
                        0 <= j < entries@.len() && entries@[j].0@ == k by {
                        if k != entries@[n].0@ {
                            let j = choose|j: int| 0 <= j < old_v.len() && old_v[j].0@ == k;
                            assert(entries@[j].0@ == k);
                        }
                    }
                }
            },
        }
        *self = SceneRegistry { entries, named: Ghost(m) };
    }

    /// The factory registered under `name`, if any.
    pub fn scene_from_registry(&self, name: &str) -> (r: Option<&F>)
        ensures
            match r {
                Some(f) => self@.contains_key(name@) && *f == self@[name@],
                None => !self@.contains_key(name@),
            },
    {
        proof {
            use_type_invariant(self);
        }
        match self.position(name) {
            Some(i) => Some(&self.entries[i].1),
            None => None,
        }
    }

    /// Where the scene named `name` comes from: a registered factory takes
    /// priority, and without one the name selects a built-in scene.
    pub fn scene_for_type(&self, name: &str) -> (r: SceneSource<'_, F>)
        ensures
            match r {
                SceneSource::Registered(f) => self@.contains_key(name@) && *f == self@[name@],
                SceneSource::Builtin(b) => !self@.contains_key(name@) && b == builtin_scene_of(name@),
            },
    {
        match self.scene_from_registry(name) {
            Some(f) => SceneSource::Registered(f),
            None => SceneSource::Builtin(builtin_scene(name)),
        }
    }
}

/// Where a renderer's scene comes from.
pub enum SceneSource<'a, F> {
    /// A factory registered under the scene's name.
    Registered(&'a F),
    /// A built-in scene.
    Builtin(BuiltinScene),
}

/// A lookup finds the factory most recently registered under the name, and a
/// registration leaves the other names' factories alone.
pub proof fn law_lookup_after_register<F>(m: Map<Seq<char>, F>, name: Seq<char>, factory: F, other: Seq<char>)
    requires
        other != name,
    ensures
        m.insert(name, factory).contains_key(name),
        m.insert(name, factory)[name] == factory,
        m.insert(name, factory).contains_key(other) == m.contains_key(other),
        m.contains_key(other) ==> m.insert(name, factory)[other] == m[other],
{
}

} // verus!
