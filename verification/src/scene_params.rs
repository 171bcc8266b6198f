//! The runtime parameters of the built-in scenes (cube, particles, shader
//! playground): which named parameter each scene knows, what a write changes,
//! and what `reset_scene` restores. Float parameters are carried as their
//! IEEE-754 bit patterns (`u32`); the scenes only store and read them back.
use vstd::prelude::*;

use crate::scene_registry::{builtin_scene_of, BuiltinScene, SceneRegistry, SceneSource};
use crate::text::text_eq;

verus! {

/// Bit pattern of `0.0f32`.
pub const ZERO_BITS: u32 = 0x0;
/// Bit pattern of `1.0f32`.
pub const ONE_BITS: u32 = 0x3f80_0000;
/// Bit pattern of `1.2f32`, the cube's default rotation speed.
pub const CUBE_SPEED_BITS: u32 = 0x3f99_999a;
/// Bit pattern of `14.0f32`, the default particle size.
pub const POINT_SIZE_BITS: u32 = 0x4160_0000;
/// Bit pattern of `2.4f32`, the playground's default noise scale.
pub const NOISE_SCALE_BITS: u32 = 0x4019_999a;

/// Particles in the particle field.
pub const PARTICLE_COUNT: u32 = 2000;
/// Vertices of one particle: a quad of two triangles.
pub const VERTICES_PER_PARTICLE: u32 = 6;

/// The number of vertices the particle field draws: one quad per particle.
pub fn particle_vertex_count() -> (r: u32)
    ensures
        r == PARTICLE_COUNT * VERTICES_PER_PARTICLE,
        r == 12000,
{
    PARTICLE_COUNT * VERTICES_PER_PARTICLE
}

/// The cube's default colour (1.0, 0.9, 0.1, 1.0).
pub open spec fn cube_color_default() -> [u32; 4] {
    [ONE_BITS, 0x3f66_6666u32, 0x3dcc_cccdu32, ONE_BITS]
}

/// The first particle colour's default (1.0, 0.4, 0.1, 1.0).
pub open spec fn color1_default() -> [u32; 4] {
    [ONE_BITS, 0x3ecc_cccdu32, 0x3dcc_cccdu32, ONE_BITS]
}

/// The second particle colour's default (0.1, 0.6, 1.0, 1.0).
pub open spec fn color2_default() -> [u32; 4] {
    [0x3dcc_cccdu32, 0x3f19_999au32, ONE_BITS, ONE_BITS]
}

/// The playground's default pointer (0.5, 0.5, 0.0, 1.0).
pub open spec fn pointer_default() -> [u32; 4] {
    [0x3f00_0000u32, 0x3f00_0000u32, ZERO_BITS, ONE_BITS]
}

/// The playground's default primary colour (1.0, 0.46, 0.16, 1.0).
pub open spec fn primary_default() -> [u32; 4] {
    [ONE_BITS, 0x3eeb_851fu32, 0x3e23_d70au32, ONE_BITS]
}

/// The playground's default secondary colour (0.14, 0.77, 1.0, 1.0).
pub open spec fn secondary_default() -> [u32; 4] {
    [0x3e0f_5c29u32, 0x3f45_1eb8u32, ONE_BITS, ONE_BITS]
}

/// Parameters of the spinning cube.
#[derive(Clone, Copy, Debug, PartialEq, Eq)]
pub struct CubeParams {
    pub rotation_enabled: bool,
    pub rotation_speed: u32,
    pub angle: u32,
    pub cube_color: [u32; 4],
}

/// Parameters of the particle field.
#[derive(Clone, Copy, Debug, PartialEq, Eq)]
pub struct ParticlesParams {
    pub time: u32,
    pub point_size: u32,
    pub motion_scale: u32,
    pub color1: [u32; 4],
    pub color2: [u32; 4],
}

/// Parameters of the shader playground.
#[derive(Clone, Copy, Debug, PartialEq, Eq)]
pub struct PlaygroundParams {
    pub time: u32,
    pub speed: u32,
    pub noise_scale: u32,
    pub distortion: u32,
    pub pointer: [u32; 4],
    pub primary_color: [u32; 4],
    pub secondary_color: [u32; 4],
}

/// The parameters of a built-in scene.
#[derive(Clone, Copy, Debug, PartialEq, Eq)]
pub enum SceneParams {
    Cube(CubeParams),
    Particles(ParticlesParams),
    ShaderPlayground(PlaygroundParams),
    /// A scene built by a registered factory: its parameters belong to that
    /// scene's own implementation, so none is kept here.
    Custom,
}

/// The cube as created and as `reset_scene` leaves it.
pub open spec fn cube_defaults() -> CubeParams {
    CubeParams {
        rotation_enabled: true,
        rotation_speed: CUBE_SPEED_BITS,
        angle: ZERO_BITS,
        cube_color: cube_color_default(),
    }
}

/// The particle field as created and as `reset_scene` leaves it.
pub open spec fn particles_defaults() -> ParticlesParams {
    ParticlesParams {
        time: ZERO_BITS,
        point_size: POINT_SIZE_BITS,
        motion_scale: ONE_BITS,
        color1: color1_default(),
        color2: color2_default(),
    }
}

/// The playground as created and as `reset_scene` leaves it.
pub open spec fn playground_defaults() -> PlaygroundParams {
    PlaygroundParams {
        time: ZERO_BITS,
        speed: ONE_BITS,
        noise_scale: NOISE_SCALE_BITS,
        distortion: ONE_BITS,
        pointer: pointer_default(),
        primary_color: primary_default(),
        secondary_color: secondary_default(),
    }
}

/// The parameters a built-in scene starts with.
pub open spec fn scene_defaults(scene: BuiltinScene) -> SceneParams {
    match scene {
        BuiltinScene::Cube => SceneParams::Cube(cube_defaults()),
        BuiltinScene::Particles => SceneParams::Particles(particles_defaults()),
        BuiltinScene::ShaderPlayground => SceneParams::ShaderPlayground(playground_defaults()),
    }
}

/// A float parameter written: the cube knows `rotation_speed` and `angle`,
/// the particles `point_size`, `motion_scale` and `time`, the playground
/// `speed`, `noise_scale`, `distortion` and `time`; other keys change nothing.
pub open spec fn float_applied(p: SceneParams, key: Seq<char>, v: u32) -> SceneParams {
    match p {
        SceneParams::Cube(c) => SceneParams::Cube(
            if key == "rotation_speed"@ {
                CubeParams { rotation_speed: v, ..c }
            } else if key == "angle"@ {
                CubeParams { angle: v, ..c }
            } else {
                c
            },
        ),
        SceneParams::Particles(q) => SceneParams::Particles(
            if key == "point_size"@ {
                ParticlesParams { point_size: v, ..q }
            } else if key == "motion_scale"@ {
                ParticlesParams { motion_scale: v, ..q }
            } else if key == "time"@ {
                ParticlesParams { time: v, ..q }
            } else {
                q
            },
        ),
        SceneParams::ShaderPlayground(g) => SceneParams::ShaderPlayground(
            if key == "speed"@ {
                PlaygroundParams { speed: v, ..g }
            } else if key == "noise_scale"@ {
                PlaygroundParams { noise_scale: v, ..g }
            } else if key == "distortion"@ {
                PlaygroundParams { distortion: v, ..g }
            } else if key == "time"@ {
                PlaygroundParams { time: v, ..g }
            } else {
                g
            },
        ),
        SceneParams::Custom => p,
    }
}

/// A boolean parameter written: only the cube knows one, `rotation_enabled`.
pub open spec fn bool_applied(p: SceneParams, key: Seq<char>, v: bool) -> SceneParams {
    match p {
        SceneParams::Cube(c) => if key == "rotation_enabled"@ {
            SceneParams::Cube(CubeParams { rotation_enabled: v, ..c })
        } else {
            p
        },
        _ => p,
    }
}

/// A four-component parameter written: the cube knows `cube_color`, the
/// particles `color1` and `color2`, the playground `primary_color`,
/// `secondary_color` and `pointer`.
pub open spec fn vec4_applied(p: SceneParams, key: Seq<char>, v: [u32; 4]) -> SceneParams {
    match p {
        SceneParams::Cube(c) => if key == "cube_color"@ {
            SceneParams::Cube(CubeParams { cube_color: v, ..c })
        } else {
            p
        },
        SceneParams::Particles(q) => SceneParams::Particles(
            if key == "color1"@ {
                ParticlesParams { color1: v, ..q }
            } else if key == "color2"@ {
                ParticlesParams { color2: v, ..q }
            } else {
                q
            },
        ),
        SceneParams::ShaderPlayground(g) => SceneParams::ShaderPlayground(
            if key == "primary_color"@ {
                PlaygroundParams { primary_color: v, ..g }
            } else if key == "secondary_color"@ {
                PlaygroundParams { secondary_color: v, ..g }
            } else if key == "pointer"@ {
                PlaygroundParams { pointer: v, ..g }
            } else {
                g
            },
        ),
        SceneParams::Custom => p,
    }
}

/// A command run: `reset_scene` restores the scene's defaults, other
/// commands change nothing.
pub open spec fn scene_command_applied(p: SceneParams, command: Seq<char>) -> SceneParams {
    if command == "reset_scene"@ {
        match p {
            SceneParams::Cube(_) => SceneParams::Cube(cube_defaults()),
            SceneParams::Particles(_) => SceneParams::Particles(particles_defaults()),
            SceneParams::ShaderPlayground(_) => SceneParams::ShaderPlayground(playground_defaults()),
            SceneParams::Custom => SceneParams::Custom,
        }
    } else {
        p
    }
}

/// The built-in scene the parameters belong to.
pub open spec fn scene_of(p: SceneParams) -> Option<BuiltinScene> {
    match p {
        SceneParams::Cube(_) => Some(BuiltinScene::Cube),
        SceneParams::Particles(_) => Some(BuiltinScene::Particles),
        SceneParams::ShaderPlayground(_) => Some(BuiltinScene::ShaderPlayground),
        SceneParams::Custom => None,
    }
}

/// The parameters a scene starts with again on `reset_scene`: a built-in
/// scene's defaults; a custom scene keeps none here.
pub open spec fn scene_reset(p: SceneParams) -> SceneParams {
    match scene_of(p) {
        Some(b) => scene_defaults(b),
        None => SceneParams::Custom,
    }
}

/// The parameters a renderer's scene starts with: none kept for a scene name
/// registered with a factory (the registry is consulted first), else the
/// defaults of the built-in scene the name selects.
pub open spec fn scene_params_for(registered: bool, name: Seq<char>) -> SceneParams {
    if registered {
        SceneParams::Custom
    } else {
        scene_defaults(builtin_scene_of(name))
    }
}

/// The scene's clock (the cube's angle, the others' time) advances this
/// frame: the renderer's animation runs and, for the cube, rotation is enabled.
pub open spec fn advances(p: SceneParams, animation_running: bool) -> bool {
    match p {
        SceneParams::Cube(c) => animation_running && c.rotation_enabled,
        _ => animation_running,
    }
}

/// The scene with its clock (the cube's angle, the others' time) set to `v`.
pub open spec fn clock_set(p: SceneParams, v: u32) -> SceneParams {
    match p {
        SceneParams::Cube(c) => SceneParams::Cube(CubeParams { angle: v, ..c }),
        SceneParams::Particles(q) => SceneParams::Particles(ParticlesParams { time: v, ..q }),
        SceneParams::ShaderPlayground(g) => SceneParams::ShaderPlayground(PlaygroundParams { time: v, ..g }),
        SceneParams::Custom => p,
    }
}

/// The value of a float parameter the scene knows, `None` for a key it does
/// not know.
pub open spec fn float_param(p: SceneParams, key: Seq<char>) -> Option<u32> {
    match p {
        SceneParams::Cube(c) => if key == "rotation_speed"@ {
            Some(c.rotation_speed)
        } else if key == "angle"@ {
            Some(c.angle)
        } else {
            None
        },
        SceneParams::Particles(q) => if key == "point_size"@ {
            Some(q.point_size)
        } else if key == "motion_scale"@ {
            Some(q.motion_scale)
        } else if key == "time"@ {
            Some(q.time)
        } else {
            None
        },
        SceneParams::ShaderPlayground(g) => if key == "speed"@ {
            Some(g.speed)
        } else if key == "noise_scale"@ {
            Some(g.noise_scale)
        } else if key == "distortion"@ {
            Some(g.distortion)
        } else if key == "time"@ {
            Some(g.time)
        } else {
            None
        },
        SceneParams::Custom => None,
    }
}

/// The value of a four-component parameter the scene knows, `None` for a key
/// it does not know.
pub open spec fn vec4_param(p: SceneParams, key: Seq<char>) -> Option<[u32; 4]> {
    match p {
        SceneParams::Cube(c) => if key == "cube_color"@ {
            Some(c.cube_color)
        } else {
            None
        },
        SceneParams::Particles(q) => if key == "color1"@ {
            Some(q.color1)
        } else if key == "color2"@ {
            Some(q.color2)
        } else {
            None
        },
        SceneParams::ShaderPlayground(g) => if key == "primary_color"@ {
            Some(g.primary_color)
        } else if key == "secondary_color"@ {
            Some(g.secondary_color)
        } else if key == "pointer"@ {
            Some(g.pointer)
        } else {
            None
        },
        SceneParams::Custom => None,
    }
}

/// A float parameter write is read back under its key and leaves every other
/// parameter as it was; a key the scene does not know changes nothing.
pub proof fn law_float_param_reads_back(p: SceneParams, key: Seq<char>, other: Seq<char>, v: u32)
    ensures
        float_param(p, key) is Some ==> float_param(float_applied(p, key, v), key) == Some(v),
        other != key ==> float_param(float_applied(p, key, v), other) == float_param(p, other),
        vec4_param(float_applied(p, key, v), other) == vec4_param(p, other),
        float_param(p, key) is None ==> float_applied(p, key, v) == p,
        scene_of(float_applied(p, key, v)) == scene_of(p),
{
}

/// A four-component parameter write is read back under its key and leaves
/// every other parameter as it was; a key the scene does not know changes
/// nothing.
pub proof fn law_vec4_param_reads_back(p: SceneParams, key: Seq<char>, other: Seq<char>, v: [u32; 4])
    ensures
        vec4_param(p, key) is Some ==> vec4_param(vec4_applied(p, key, v), key) == Some(v),
        other != key ==> vec4_param(vec4_applied(p, key, v), other) == vec4_param(p, other),
        float_param(vec4_applied(p, key, v), other) == float_param(p, other),
        vec4_param(p, key) is None ==> vec4_applied(p, key, v) == p,
        scene_of(vec4_applied(p, key, v)) == scene_of(p),
{
}

/// Of two writes to the same parameter the later one stands.
pub proof fn law_last_write_wins(p: SceneParams, key: Seq<char>, a: u32, b: u32, x: [u32; 4], y: [u32; 4])
    ensures
        float_applied(float_applied(p, key, a), key, b) == float_applied(p, key, b),
        vec4_applied(vec4_applied(p, key, x), key, y) == vec4_applied(p, key, y),
{
}

/// `reset_scene` brings any state of a scene back to the parameters the scene
/// starts with, whatever was written before; running it twice is running it
/// once.
pub proof fn law_reset_restores_defaults(p: SceneParams)
    ensures
        scene_command_applied(p, "reset_scene"@) == scene_reset(p),
        scene_command_applied(scene_command_applied(p, "reset_scene"@), "reset_scene"@) == scene_command_applied(p, "reset_scene"@),
{
}

/// The scene clock runs exactly while the animation runs: a stopped animation
/// advances no scene, and a running one advances every scene (the particles,
/// the shader playground, custom scenes) except a cube whose rotation is
/// disabled. Advancing sets the cube's angle, or the other scenes' time, to
/// the new clock and keeps the scene's kind.
pub proof fn law_running_animation_advances_clock(p: SceneParams, clock: u32)
    ensures
        !advances(p, false),
        !(p matches SceneParams::Cube(c) && !c.rotation_enabled) ==> advances(p, true),
        p matches SceneParams::Cube(c) ==> (advances(p, true) == c.rotation_enabled),
        p is Cube ==> (clock_set(p, clock) matches SceneParams::Cube(c) && c.angle == clock),
        p is Particles ==> (clock_set(p, clock) matches SceneParams::Particles(q) && q.time == clock),
        p is ShaderPlayground ==> (clock_set(p, clock) matches SceneParams::ShaderPlayground(g) && g.time == clock),
{
}

impl CubeParams {
    /// The cube's parameters as created.
    pub fn new() -> (r: CubeParams)
        ensures
            r == cube_defaults(),
    {
        CubeParams {
            rotation_enabled: true,
            rotation_speed: CUBE_SPEED_BITS,
            angle: ZERO_BITS,
            cube_color: [ONE_BITS, 0x3f66_6666, 0x3dcc_cccd, ONE_BITS],
        }
    }
}

impl ParticlesParams {
    /// The particle field's parameters as created.
    pub fn new() -> (r: ParticlesParams)
        ensures
            r == particles_defaults(),
    {
        ParticlesParams {
            time: ZERO_BITS,
            point_size: POINT_SIZE_BITS,
            motion_scale: ONE_BITS,
            color1: [ONE_BITS, 0x3ecc_cccd, 0x3dcc_cccd, ONE_BITS],
            color2: [0x3dcc_cccd, 0x3f19_999a, ONE_BITS, ONE_BITS],
        }
    }
}

impl PlaygroundParams {
    /// The playground's parameters as created.
    pub fn new() -> (r: PlaygroundParams)
        ensures
            r == playground_defaults(),
    {
        PlaygroundParams {
            time: ZERO_BITS,
            speed: ONE_BITS,
            noise_scale: NOISE_SCALE_BITS,
            distortion: ONE_BITS,
            pointer: [0x3f00_0000, 0x3f00_0000, ZERO_BITS, ONE_BITS],
            primary_color: [ONE_BITS, 0x3eeb_851f, 0x3e23_d70a, ONE_BITS],
            secondary_color: [0x3e0f_5c29, 0x3f45_1eb8, ONE_BITS, ONE_BITS],
        }
    }
}

impl SceneParams {
    /// The parameters a built-in scene starts with.
    pub fn for_scene(scene: BuiltinScene) -> (r: SceneParams)
        ensures
            r == scene_defaults(scene),
    {
        match scene {
            BuiltinScene::Cube => SceneParams::Cube(CubeParams::new()),
            BuiltinScene::Particles => SceneParams::Particles(ParticlesParams::new()),
            BuiltinScene::ShaderPlayground => SceneParams::ShaderPlayground(PlaygroundParams::new()),
        }
    }

    /// The parameters the scene named `name` starts with: a name registered
    /// with a factory takes priority and keeps none here; any other name
    /// selects a built-in scene's defaults.
    pub fn for_name<F>(registry: &SceneRegistry<F>, name: &str) -> (r: SceneParams)
        ensures
            r == scene_params_for(registry@.contains_key(name@), name@),
    {
        match registry.scene_for_type(name) {
            SceneSource::Registered(_) => SceneParams::Custom,
            SceneSource::Builtin(b) => SceneParams::for_scene(b),
        }
    }

    /// Write a float parameter (its bit pattern).
    pub fn set_float_param(&mut self, key: &str, value: u32)
        ensures
            *final(self) == float_applied(*old(self), key@, value),
    {
        match self {
            SceneParams::Cube(c) => {
                if text_eq(key, "rotation_speed") {
                    c.rotation_speed = value;
                } else if text_eq(key, "angle") {
                    c.angle = value;
                }
            },
            SceneParams::Particles(q) => {
                if text_eq(key, "point_size") {
                    q.point_size = value;
                } else if text_eq(key, "motion_scale") {
                    q.motion_scale = value;
                } else if text_eq(key, "time") {
                    q.time = value;
                }
            },
            SceneParams::ShaderPlayground(g) => {
                if text_eq(key, "speed") {
                    g.speed = value;
                } else if text_eq(key, "noise_scale") {
                    g.noise_scale = value;
                } else if text_eq(key, "distortion") {
                    g.distortion = value;
                } else if text_eq(key, "time") {
                    g.time = value;
                }
            },
            SceneParams::Custom => {},
        }
    }

    /// Write a boolean parameter.
    pub fn set_bool_param(&mut self, key: &str, value: bool)
        ensures
            *final(self) == bool_applied(*old(self), key@, value),
    {
        match self {
            SceneParams::Cube(c) => {
                if text_eq(key, "rotation_enabled") {
                    c.rotation_enabled = value;
                }
            },
            _ => {},
        }
    }

    /// Write a four-component parameter (bit patterns).
    pub fn set_vec4_param(&mut self, key: &str, value: [u32; 4])
        ensures
            *final(self) == vec4_applied(*old(self), key@, value),
    {
        match self {
            SceneParams::Cube(c) => {
                if text_eq(key, "cube_color") {
                    c.cube_color = value;
                }
            },
            SceneParams::Particles(q) => {
                if text_eq(key, "color1") {
                    q.color1 = value;
                } else if text_eq(key, "color2") {
                    q.color2 = value;
                }
            },
            SceneParams::ShaderPlayground(g) => {
                if text_eq(key, "primary_color") {
                    g.primary_color = value;
                } else if text_eq(key, "secondary_color") {
                    g.secondary_color = value;
                } else if text_eq(key, "pointer") {
                    g.pointer = value;
                }
            },
            SceneParams::Custom => {},
        }
    }

    /// Run a named command; the built-in scenes know `reset_scene`, and every
    /// command succeeds.
    pub fn invoke_command(&mut self, command: &str, payload: &str) -> (r: Result<(), String>)
        ensures
            *final(self) == scene_command_applied(*old(self), command@),
            r == Ok::<(), String>(()),
    {
        if text_eq(command, "reset_scene") {
            match self {
                SceneParams::Cube(c) => {
                    *c = CubeParams::new();
                },
                SceneParams::Particles(q) => {
                    *q = ParticlesParams::new();
                },
                SceneParams::ShaderPlayground(g) => {
                    *g = PlaygroundParams::new();
                },
                SceneParams::Custom => {},
            }
        }
        Ok(())
    }

    /// Whether this frame advances the scene's clock; the advance itself
    /// (clock plus frame time times speed) is float arithmetic of the renderer.
    pub fn animates(&self, animation_running: bool) -> (r: bool)
        ensures
            r == advances(*self, animation_running),
    {
        match self {
            SceneParams::Cube(c) => animation_running && c.rotation_enabled,
            _ => animation_running,
        }
    }
    /// Set the scene's clock (the cube's angle, the others' time).
    pub fn set_clock(&mut self, v: u32)
        ensures
            *final(self) == clock_set(*old(self), v),
    {
        match self {
            SceneParams::Cube(c) => {
                c.angle = v;
            },
            SceneParams::Particles(q) => {
                q.time = v;
            },
            SceneParams::ShaderPlayground(g) => {
                g.time = v;
            },
            SceneParams::Custom => {},
        }
    }
}

} // verus!
