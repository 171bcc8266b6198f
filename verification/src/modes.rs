//! Editor modes: the transform gizmo mode, the viewport view mode, and the
//! play state machine that snapshots the authored scene on entering play and
//! restores it on leaving.
use vstd::prelude::*;

use crate::text::text_eq;

verus! {

/// Transform gizmo interaction mode.
#[derive(Clone, Copy, Debug, PartialEq, Eq)]
pub enum GizmoMode {
    Off,
    Translate,
    Rotate,
    Scale,
}

/// The gizmo mode a mode name selects; unknown names select no gizmo.
pub open spec fn gizmo_mode_of(s: Seq<char>) -> GizmoMode {
    if s == "translate"@ {
        GizmoMode::Translate
    } else if s == "rotate"@ {
        GizmoMode::Rotate
    } else if s == "scale"@ {
        GizmoMode::Scale
    } else {
        GizmoMode::Off
    }
}

impl GizmoMode {
    /// Parse `"translate"`, `"rotate"` or `"scale"`; anything else turns the gizmo off.
    pub fn from_str(s: &str) -> (r: GizmoMode)
        ensures
            r == gizmo_mode_of(s@),
    {
        if text_eq(s, "translate") {
            GizmoMode::Translate
        } else if text_eq(s, "rotate") {
            GizmoMode::Rotate
        } else if text_eq(s, "scale") {
            GizmoMode::Scale
        } else {
            GizmoMode::Off
        }
    }
}

/// Viewport shading mode.
#[derive(Clone, Copy, Debug, PartialEq, Eq)]
pub enum ViewMode {
    Lit,
    Unlit,
    Wireframe,
}

/// The view mode a mode name selects, if it names one.
pub open spec fn view_mode_of(s: Seq<char>) -> Option<ViewMode> {
    if s == "Lit"@ {
        Some(ViewMode::Lit)
    } else if s == "Unlit"@ {
        Some(ViewMode::Unlit)
    } else if s == "Wireframe"@ {
        Some(ViewMode::Wireframe)
    } else {
        None
    }
}

/// What a view mode sets on the world: the global wireframe overlay and the
/// unlit flag of every material.
#[derive(Clone, Copy, Debug, PartialEq, Eq)]
pub struct ViewSettings {
    pub wireframe: bool,
    pub unlit: bool,
}

impl ViewMode {
    /// Parse `"Lit"`, `"Unlit"` or `"Wireframe"`.
    pub fn from_str(s: &str) -> (r: Option<ViewMode>)
        ensures
            r == view_mode_of(s@),
    {
        if text_eq(s, "Lit") {
            Some(ViewMode::Lit)
        } else if text_eq(s, "Unlit") {
            Some(ViewMode::Unlit)
        } else if text_eq(s, "Wireframe") {
            Some(ViewMode::Wireframe)
        } else {
            None
        }
    }

    /// Lit shades normally; Unlit turns every material unlit; Wireframe
    /// shades normally with the global wireframe overlay on.
    pub fn settings(self) -> (r: ViewSettings)
        ensures
            r.wireframe == (self == ViewMode::Wireframe),
            r.unlit == (self == ViewMode::Unlit),
    {
        ViewSettings {
            wireframe: match self {
                ViewMode::Wireframe => true,
                _ => false,
            },
            unlit: match self {
                ViewMode::Unlit => true,
                _ => false,
            },
        }
    }
}

/// The world settings a view mode name asks for; `None` leaves the world as
/// it is (an unknown name).
pub fn view_settings_for(mode: &str) -> (r: Option<ViewSettings>)
    ensures
        match view_mode_of(mode@) {
            Some(vm) => r == Some(
                ViewSettings { wireframe: vm == ViewMode::Wireframe, unlit: vm == ViewMode::Unlit },
            ),
            None => r is None,
        },
{
    match ViewMode::from_str(mode) {
        Some(vm) => Some(vm.settings()),
        None => None,
    }
}

/// Whether the editor is authoring the scene or running it.
#[derive(Clone, Copy, Debug, PartialEq, Eq)]
pub enum PlayMode {
    Editing,
    Playing,
}

/// A play-mode request by name.
#[derive(Clone, Copy, Debug, PartialEq, Eq)]
pub enum PlayRequest {
    Enter,
    Exit,
    Unknown,
}

/// The request a play-mode name makes: `"play"` enters, `"edit"` exits.
pub open spec fn play_request_of(s: Seq<char>) -> PlayRequest {
    if s == "play"@ {
        PlayRequest::Enter
    } else if s == "edit"@ {
        PlayRequest::Exit
    } else {
        PlayRequest::Unknown
    }
}

/// Parse a play-mode name.
pub fn play_request(mode: &str) -> (r: PlayRequest)
    ensures
        r == play_request_of(mode@),
{
    if text_eq(mode, "play") {
        PlayRequest::Enter
    } else if text_eq(mode, "edit") {
        PlayRequest::Exit
    } else {
        PlayRequest::Unknown
    }
}

/// The editor's play mode and the authored-scene snapshot taken on entering
/// play.
pub struct PlayState {
    pub mode: PlayMode,
    pub snapshot: Option<String>,
}

/// The state after an attempt to enter play with the given snapshot outcome:
/// play begins only from editing and with a snapshot.
pub open spec fn state_after_enter(s: PlayState, snapshot: Result<String, String>) -> PlayState {
    match (s.mode, snapshot) {
        (PlayMode::Editing, Ok(snap)) => PlayState { mode: PlayMode::Playing, snapshot: Some(snap) },
        _ => s,
    }
}

/// Play began: the state was editing and the snapshot was taken.
pub open spec fn play_began(s: PlayState, snapshot: Result<String, String>) -> bool {
    s.mode == PlayMode::Editing && snapshot is Ok
}

/// The state after leaving play: editing with no snapshot kept.
pub open spec fn state_after_exit(s: PlayState) -> PlayState {
    match s.mode {
        PlayMode::Playing => PlayState { mode: PlayMode::Editing, snapshot: None },
        PlayMode::Editing => s,
    }
}

/// What leaving play hands back to restore: nothing when not playing, else
/// the kept snapshot (if any).
pub open spec fn restore_on_exit(s: PlayState) -> Option<Option<String>> {
    match s.mode {
        PlayMode::Playing => Some(s.snapshot),
        PlayMode::Editing => None,
    }
}

impl PlayState {
    /// Editing, with no snapshot.
    pub fn new() -> (r: PlayState)
        ensures
            r.mode == PlayMode::Editing,
            r.snapshot is None,
    {
        PlayState { mode: PlayMode::Editing, snapshot: None }
    }

    /// The editor is running the scene.
    pub fn is_playing(&self) -> (r: bool)
        ensures
            r == (self.mode == PlayMode::Playing),
    {
        match self.mode {
            PlayMode::Playing => true,
            PlayMode::Editing => false,
        }
    }

    /// Enter play with the snapshot of the authored scene (or the error that
    /// taking it gave). Returns whether play began, in which case physics
    /// bodies are attached and the simulation resumed. Already playing, or a
    /// failed snapshot, changes nothing.
    pub fn enter_play(&mut self, snapshot: Result<String, String>) -> (entered: bool)
        ensures
            *final(self) == state_after_enter(*old(self), snapshot),
            entered == play_began(*old(self), snapshot),
    {
        if self.is_playing() {
            return false;
        }
        match snapshot {
            Ok(s) => {
                self.snapshot = Some(s);
                self.mode = PlayMode::Playing;
                true
            },
            Err(_) => false,
        }
    }

    /// Leave play: `None` when not playing (nothing happens); otherwise the
    /// state returns to editing and the snapshot to restore is handed back
    /// (`Some(None)` when there is none).
    pub fn exit_play(&mut self) -> (restore: Option<Option<String>>)
        ensures
            *final(self) == state_after_exit(*old(self)),
            restore == restore_on_exit(*old(self)),
    {
        if !self.is_playing() {
            return None;
        }
        let snapshot = self.snapshot.take();
        self.mode = PlayMode::Editing;
        Some(snapshot)
    }
}

/// Entering play from editing with a snapshot and then leaving play hands
/// that same snapshot back for restoring, and leaves the editor editing with
/// no snapshot kept.
pub proof fn law_play_then_stop_restores(s: PlayState, snapshot: String)
    requires
        s.mode == PlayMode::Editing,
    ensures
        play_began(s, Ok(snapshot)),
        restore_on_exit(state_after_enter(s, Ok(snapshot))) == Some(Some(snapshot)),
        state_after_exit(state_after_enter(s, Ok(snapshot))) == (PlayState { mode: PlayMode::Editing, snapshot: None }),
{
}

/// Entering play while playing, and leaving play while editing, change nothing.
pub proof fn law_repeated_requests_are_idle(s: PlayState, snapshot: Result<String, String>)
    ensures
        s.mode == PlayMode::Playing ==> state_after_enter(s, snapshot) == s && !play_began(s, snapshot),
        s.mode == PlayMode::Editing ==> state_after_exit(s) == s && restore_on_exit(s) is None,
{
}

/// A failed snapshot keeps the editor editing.
pub proof fn law_failed_snapshot_stays_editing(s: PlayState, error: String)
    requires
        s.mode == PlayMode::Editing,
    ensures
        state_after_enter(s, Err(error)) == s,
        !play_began(s, Err(error)),
{
}

} // verus!
