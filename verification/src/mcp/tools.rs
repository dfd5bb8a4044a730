//! The requests of the asset tools, and the outputs of the editor, scene,
//! component, prefab and settings tools as the bridge's replies give them.
use vstd::prelude::*;

use std::collections::HashMap;

use crate::mcp::assets::{nonempty, nonempty_text};

verus! {

/// Import of assets.
#[derive(Debug, Clone)]
pub struct UnityAssetsImportRequest {
    pub paths: Vec<String>,
    pub recursive: Option<bool>,
    pub auto_refresh: Option<bool>,
    pub timeout_secs: Option<u64>,
}

/// Move of an asset.
#[derive(Debug, Clone)]
pub struct UnityAssetsMoveRequest {
    pub from_path: String,
    pub to_path: String,
    pub timeout_secs: Option<u64>,
}

/// Delete of assets.
#[derive(Debug, Clone)]
pub struct UnityAssetsDeleteRequest {
    pub paths: Vec<String>,
    pub soft: Option<bool>,
    pub timeout_secs: Option<u64>,
}

/// Refresh of the asset database.
#[derive(Debug, Clone)]
pub struct UnityAssetsRefreshRequest {
    pub force: Option<bool>,
    pub timeout_secs: Option<u64>,
}

/// GUIDs to look up.
#[derive(Debug, Clone)]
pub struct UnityAssetsGuidToPathRequest {
    pub guids: Vec<String>,
    pub timeout_secs: Option<u64>,
}

/// Paths to look up.
#[derive(Debug, Clone)]
pub struct UnityAssetsPathToGuidRequest {
    pub paths: Vec<String>,
    pub timeout_secs: Option<u64>,
}

/// Paths found for GUIDs.
#[derive(Debug, Clone)]
pub struct GuidToPathOutput {
    pub mapping: HashMap<String, String>,
}

/// GUIDs found for paths.
#[derive(Debug, Clone)]
pub struct PathToGuidOutput {
    pub mapping: HashMap<String, String>,
}

/// Output of adding a component.
#[derive(Debug, Clone)]
pub struct ComponentAddOutput {
    pub ok: bool,
    pub message: Option<String>,
}

/// The components of a game object.
#[derive(Debug, Clone)]
pub struct GetComponentsOutput {
    pub components: Vec<String>,
}

/// Output of removing a component.
#[derive(Debug, Clone)]
pub struct ComponentRemoveOutput {
    pub ok: bool,
    pub message: Option<String>,
}

/// Output of running a menu item.
#[derive(Debug, Clone)]
pub struct ExecuteMenuItemOutput {
    pub ok: bool,
    pub message: Option<String>,
}

/// Output of focusing a window.
#[derive(Debug, Clone)]
pub struct FocusWindowOutput {
    pub ok: bool,
}

/// Output of creating a prefab.
#[derive(Debug, Clone)]
pub struct PrefabCreateOutput {
    pub ok: bool,
    pub guid: Option<String>,
    pub message: Option<String>,
}

/// Output of updating a prefab.
#[derive(Debug, Clone)]
pub struct PrefabUpdateOutput {
    pub ok: bool,
    pub message: Option<String>,
}

/// Output of applying prefab overrides.
#[derive(Debug, Clone)]
pub struct PrefabApplyOverridesOutput {
    pub ok: bool,
    pub message: Option<String>,
}

/// Project settings read.
#[derive(Debug, Clone)]
pub struct GetProjectSettingsOutput {
    pub settings: HashMap<String, String>,
}

/// Output of writing project settings.
#[derive(Debug, Clone)]
pub struct SetProjectSettingsOutput {
    pub ok: bool,
}

/// Output of a scene operation.
#[derive(Debug, Clone)]
pub struct SceneOpOutput {
    pub ok: bool,
}

/// The open scenes and the active one.
#[derive(Debug, Clone)]
pub struct OpenScenesOutput {
    pub scenes: Vec<String>,
    pub active_scene: Option<String>,
}

/// Output of adding a component: an empty message is left out.
pub fn component_add_output(ok: bool, message: String) -> (r: ComponentAddOutput)
    ensures
        r.ok == ok && r.message == nonempty(message),
{
    ComponentAddOutput { ok, message: nonempty_text(message) }
}

/// Output of removing a component: an empty message is left out.
pub fn component_remove_output(ok: bool, message: String) -> (r: ComponentRemoveOutput)
    ensures
        r.ok == ok && r.message == nonempty(message),
{
    ComponentRemoveOutput { ok, message: nonempty_text(message) }
}

/// Output of running a menu item: an empty message is left out.
pub fn menu_item_output(ok: bool, message: String) -> (r: ExecuteMenuItemOutput)
    ensures
        r.ok == ok && r.message == nonempty(message),
{
    ExecuteMenuItemOutput { ok, message: nonempty_text(message) }
}

/// Output of creating a prefab: an empty GUID or message is left out.
pub fn prefab_create_output(ok: bool, guid: String, message: String) -> (r: PrefabCreateOutput)
    ensures
        r.ok == ok && r.guid == nonempty(guid) && r.message == nonempty(message),
{
    PrefabCreateOutput { ok, guid: nonempty_text(guid), message: nonempty_text(message) }
}

/// Output of updating a prefab: an empty message is left out.
pub fn prefab_update_output(ok: bool, message: String) -> (r: PrefabUpdateOutput)
    ensures
        r.ok == ok && r.message == nonempty(message),
{
    PrefabUpdateOutput { ok, message: nonempty_text(message) }
}

/// Output of applying prefab overrides: an empty message is left out.
pub fn prefab_apply_overrides_output(ok: bool, message: String) -> (r: PrefabApplyOverridesOutput)
    ensures
        r.ok == ok && r.message == nonempty(message),
{
    PrefabApplyOverridesOutput { ok, message: nonempty_text(message) }
}

/// The open scenes: an empty active scene is left out.
pub fn open_scenes_output(scenes: Vec<String>, active_scene: String) -> (r: OpenScenesOutput)
    ensures
        r.scenes == scenes && r.active_scene == nonempty(active_scene),
{
    OpenScenesOutput { scenes, active_scene: nonempty_text(active_scene) }
}

} // verus!
