//! Editor states, the run conditions of the editor's system sets, and what the
//! editor loads on start.
use vstd::prelude::*;
use vstd::string::StringExecFns;

verus! {

/// Whether the editor is editing a scene or playing it.
#[derive(Clone, Copy, Debug, PartialEq, Eq, Structural)]
pub enum EditorState {
    Editor,
    Game,
}

/// The editor's two system sets.
#[derive(Clone, Copy, Debug, PartialEq, Eq, Structural)]
pub enum EditorSet {
    Editor,
    Game,
}

/// The schedules in which the editor's sets are configured.
#[derive(Clone, Copy, Debug, PartialEq, Eq, Structural)]
pub enum EditorSchedule {
    PreUpdate,
    Update,
    PostUpdate,
}

/// The state in which the systems of `set` run.
pub open spec fn state_of_set(set: EditorSet) -> EditorState {
    match set {
        EditorSet::Editor => EditorState::Editor,
        EditorSet::Game => EditorState::Game,
    }
}

/// Whether the systems of `set` run while the editor is in `state`.
pub fn set_runs_in(set: EditorSet, state: EditorState) -> (r: bool)
    ensures
        r == (state_of_set(set) == state),
{
    match set {
        EditorSet::Editor => state == EditorState::Editor,
        EditorSet::Game => state == EditorState::Game,
    }
}

/// One configuration of a system set.
#[derive(Clone, Copy, Debug, PartialEq, Eq, Structural)]
pub enum SetConfig {
    /// In `schedule`, the global undo set is part of `set`.
    UndoWithin { schedule: EditorSchedule, set: EditorSet },
    /// In `schedule`, `set` runs only while the editor is in `state`.
    RunIf { schedule: EditorSchedule, set: EditorSet, state: EditorState },
}

/// The condition that `set` runs in `schedule` only in its own state.
pub open spec fn own_state(schedule: EditorSchedule, set: EditorSet) -> SetConfig {
    SetConfig::RunIf { schedule, set, state: state_of_set(set) }
}

/// All configurations of the editor's sets: undo runs with the editor's
/// systems after the update, and in every schedule each set runs only in
/// its own state.
pub open spec fn editor_set_configs() -> Seq<SetConfig> {
    seq![
        SetConfig::UndoWithin { schedule: EditorSchedule::PostUpdate, set: EditorSet::Editor },
        own_state(EditorSchedule::PreUpdate, EditorSet::Game),
        own_state(EditorSchedule::Update, EditorSet::Game),
        own_state(EditorSchedule::PostUpdate, EditorSet::Game),
        own_state(EditorSchedule::PreUpdate, EditorSet::Editor),
        own_state(EditorSchedule::Update, EditorSet::Editor),
        own_state(EditorSchedule::PostUpdate, EditorSet::Editor),
    ]
}

fn own_state_condition(schedule: EditorSchedule, set: EditorSet) -> (r: SetConfig)
    ensures
        r == own_state(schedule, set),
{
    let state = match set {
        EditorSet::Editor => EditorState::Editor,
        EditorSet::Game => EditorState::Game,
    };
    SetConfig::RunIf { schedule, set, state }
}

/// The configurations that the editor applies to its system sets.
pub fn editor_sets() -> (r: Vec<SetConfig>)
    ensures
        r@ == editor_set_configs(),
{
    let mut r: Vec<SetConfig> = Vec::new();
    r.push(SetConfig::UndoWithin { schedule: EditorSchedule::PostUpdate, set: EditorSet::Editor });
    r.push(own_state_condition(EditorSchedule::PreUpdate, EditorSet::Game));
    r.push(own_state_condition(EditorSchedule::Update, EditorSet::Game));
    r.push(own_state_condition(EditorSchedule::PostUpdate, EditorSet::Game));
    r.push(own_state_condition(EditorSchedule::PreUpdate, EditorSet::Editor));
    r.push(own_state_condition(EditorSchedule::Update, EditorSet::Editor));
    r.push(own_state_condition(EditorSchedule::PostUpdate, EditorSet::Editor));
    assert(r@ =~= editor_set_configs());
    r
}

/// Where the editor saves and loads its prefab.
#[derive(Clone, Debug, PartialEq, Eq)]
pub enum PrefabPath {
    /// A scene file, named without its extension.
    File(String),
    /// The in-memory cache.
    MemoryCache,
}

/// What the editor loads when it starts.
#[derive(Clone, Debug, PartialEq, Eq)]
pub enum LoadPlan {
    /// Nothing: no save path is configured.
    Nothing,
    /// The scene asset at this path.
    SceneFile(String),
    /// The scene held in the in-memory cache.
    FromCache,
}

/// Extension of a saved scene file.
pub const SCENE_EXTENSION: &'static str = ".scn.ron";

/// What to load on start for the configured save path: nothing without a
/// path, the scene file named by the path with its extension, or the
/// cached scene.
pub fn load_on_start(path: &Option<PrefabPath>) -> (r: LoadPlan)
    ensures
        match path {
            None => r == LoadPlan::Nothing,
            Some(PrefabPath::File(p)) => match r {
                LoadPlan::SceneFile(f) => f@ == p@ + SCENE_EXTENSION@,
                _ => false,
            },
            Some(PrefabPath::MemoryCache) => r == LoadPlan::FromCache,
        },
{
    match path {
        None => LoadPlan::Nothing,
        Some(PrefabPath::File(p)) => LoadPlan::SceneFile(p.clone().concat(SCENE_EXTENSION)),
        Some(PrefabPath::MemoryCache) => LoadPlan::FromCache,
    }
}

} // verus!
