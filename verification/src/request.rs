//! The requests the client can put to the application, as plain data.
//!
//! The caller turns a [`Request`] into the wire form and sends it; the
//! library only says which request, and with which values.

use vstd::prelude::*;
use crate::units::{Scalar, Span};

verus! {

/// How an injected value combines with the current one.
#[derive(Debug, Clone, Copy, PartialEq, Eq, Structural)]
pub enum InjectMode {
    /// Replace the current value.
    Replace,
    /// Add to the current value.
    Add,
}

/// One value to inject into a parameter.
#[derive(Debug, Clone, PartialEq, Eq)]
pub struct ParameterValue {
    pub id: String,
    pub value: Scalar,
    pub weight: Option<Scalar>,
}

/// The colour to tint with.
#[derive(Debug, Clone, Copy, PartialEq, Eq, Structural)]
pub struct ColorTint {
    pub color_r: u8,
    pub color_g: u8,
    pub color_b: u8,
    pub color_a: u8,
    pub mix_with_scene_lighting_color: Option<Scalar>,
    pub jeb_: bool,
}

/// Which art meshes a tint applies to.
#[derive(Debug, Clone, PartialEq, Eq)]
pub struct ArtMeshMatcher {
    pub tint_all: bool,
    pub art_mesh_number: Vec<i32>,
    pub name_exact: Vec<String>,
    pub name_contains: Vec<String>,
    pub tag_exact: Vec<String>,
    pub tag_contains: Vec<String>,
}

/// The value of a physics override: a whole number for the base value, a
/// real number for a group's multiplier.
#[derive(Debug, Clone, Copy, PartialEq, Eq, Structural)]
pub enum OverrideValue {
    Base(u8),
    Multiplier(Scalar),
}

/// One physics override.
#[derive(Debug, Clone, PartialEq, Eq)]
pub struct PhysicsOverride {
    /// The physics group; empty for a base value, which has none.
    pub id: String,
    pub value: OverrideValue,
    /// Whether the override sets the base value of the whole model.
    pub set_base_value: bool,
    /// How long the override lasts.
    pub override_seconds: Span,
}

/// One item movement.
#[derive(Debug, Clone, PartialEq, Eq)]
pub struct ItemToMove {
    pub item_instance_id: String,
    pub time_in_seconds: Span,
    pub fade_mode: String,
    pub position_x: Option<i32>,
    pub position_y: Option<i32>,
    pub size: Option<Scalar>,
    pub rotation: Option<i32>,
    pub order: Option<i32>,
    pub set_flip: bool,
    pub flip: bool,
    pub user_can_stop: bool,
}

/// The event to subscribe to, with the settings of the subscription.
#[derive(Debug, Clone, PartialEq, Eq)]
pub enum EventConfig {
    Test { test_message_for_event: String },
    ModelLoaded { model_id: Vec<String> },
    TrackingStatusChanged,
    BackgroundChanged,
    ModelConfigChanged,
    ModelMoved,
    ModelOutline { draw: bool },
}

/// A request to the application.
#[derive(Debug, Clone, PartialEq, Eq)]
pub enum Request {
    ApiState,
    VtsFolderInfo,
    Statistics,
    SceneColorOverlayInfo,
    FaceFound,
    ParameterCreation {
        parameter_name: String,
        explanation: Option<String>,
        min: Scalar,
        max: Scalar,
        default_value: Scalar,
    },
    ParameterValue { name: String },
    Live2DParameterList,
    InputParameterList,
    ParameterDeletion { parameter_name: String },
    InjectParameterData {
        face_found: bool,
        mode: InjectMode,
        parameter_values: Vec<ParameterValue>,
    },
    HotkeysInCurrentModel { model_id: Option<String>, live2d_item_file_name: Option<String> },
    HotkeyTrigger { hotkey_id: String, item_instance_id: Option<String> },
    ArtMeshList,
    ColorTint { color_tint: ColorTint, art_mesh_matcher: ArtMeshMatcher },
    ArtMeshSelection {
        text_override: Option<String>,
        help_override: Option<String>,
        requested_art_mesh_count: i32,
        active_art_meshes: Vec<String>,
    },
    AvailableModels,
    CurrentModel,
    ModelLoad { model_id: String },
    MoveModel {
        /// The duration of the movement in milliseconds, fractions dropped.
        time_in_millis: u128,
        values_are_relative_to_model: bool,
        position_x: Option<Scalar>,
        position_y: Option<Scalar>,
        rotation: Option<Scalar>,
        size: Option<Scalar>,
    },
    ExpressionState { details: bool, expression_file: Option<String> },
    ExpressionActivation { expression_file: String, active: bool },
    NdiConfig {
        set_new_config: bool,
        ndi_active: Option<bool>,
        use_ndi5: Option<bool>,
        use_custom_resolution: Option<bool>,
        custom_width_ndi: Option<i32>,
        custom_height_ndi: Option<i32>,
    },
    GetCurrentModelPhysics,
    SetCurrentModelPhysics {
        strength_overrides: Vec<PhysicsOverride>,
        wind_overrides: Vec<PhysicsOverride>,
    },
    ItemList {
        include_available_spots: bool,
        include_item_instances_in_scene: bool,
        include_available_item_files: bool,
        only_items_with_file_name: Option<String>,
        only_items_with_instance_id: Option<String>,
    },
    ItemLoad {
        file_name: String,
        position_x: Scalar,
        position_y: Scalar,
        size: Scalar,
        rotation: i32,
        fade_time: Scalar,
        order: Option<i32>,
        fail_if_order_taken: bool,
        smoothing: Scalar,
        censored: bool,
        flipped: bool,
        locked: bool,
        unload_when_plugin_disconnects: bool,
    },
    ItemUnload {
        unload_all_in_scene: bool,
        unload_all_loaded_by_this_plugin: bool,
        allow_unloading_items_loaded_by_user_or_other_plugins: bool,
        instance_ids: Vec<String>,
        file_names: Vec<String>,
    },
    ItemMove { items_to_move: Vec<ItemToMove> },
    ItemAnimationControl {
        item_instance_id: String,
        framerate: Option<Scalar>,
        frame: Option<i32>,
        brightness: Option<Scalar>,
        opacity: Option<Scalar>,
        set_auto_stop_frames: bool,
        auto_stop_frames: Vec<i32>,
        set_animation_play_state: bool,
        animation_play_state: bool,
    },
    EventSubscription { config: EventConfig },
}

} // verus!
