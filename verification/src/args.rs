//! The commands a user can give, one value per invocation, and the small
//! parsers for the values that are read from text.

use vstd::prelude::*;
use crate::config::Config;
use crate::units::{Scalar, Span};

verus! {

/// What one invocation was asked to do.
#[derive(Debug, Clone, PartialEq, Eq)]
pub struct Args {
    /// Where the connection record is kept, when the default place is not
    /// wanted.
    pub config_file: Option<String>,
    /// Print results on one line instead of indented.
    pub compact: bool,
    pub command: Command,
}

/// Every intent the client understands.
#[derive(Debug, Clone, PartialEq, Eq)]
pub enum Command {
    /// Actions on this program's own connection record.
    Config(ConfigCommand),
    /// The current state of the API.
    State,
    /// Application statistics.
    Stats,
    /// The application's folders.
    Folders,
    /// Actions on parameters.
    Params(ParamsCommand),
    /// Actions on hotkeys.
    Hotkeys(HotkeysCommand),
    /// Actions on art meshes.
    Artmeshes(ArtmeshesCommand),
    /// Actions on models.
    Models(ModelsCommand),
    /// Scene colour overlay information.
    SceneColors,
    /// Whether the tracker currently sees a face.
    FaceFound,
    /// Actions on expressions.
    Expressions(ExpressionsCommand),
    /// Actions on the NDI output.
    Ndi(NdiCommand),
    /// Actions on physics.
    Physics(PhysicsCommand),
    /// Actions on items.
    Items(ItemsCommand),
    /// Subscriptions to pushed events.
    Events(EventsCommand),
}

impl Command {
    /// True for the commands that open a standing feed of events and so
    /// keep the connection until the process is interrupted.
    pub fn is_event_subscription(&self) -> (r: bool)
        ensures
            r == (*self is Events),
    {
        match self {
            Command::Events(_) => true,
            _ => false,
        }
    }
}

#[derive(Debug, Clone, PartialEq, Eq)]
pub enum ConfigCommand {
    /// Ask the application for permissions and write the record.
    Init(Config),
    /// Show the record.
    Show,
    /// Show where the record is kept.
    Path,
}

#[derive(Debug, Clone, PartialEq, Eq)]
pub enum ParamsCommand {
    /// The value of one parameter.
    Get { name: String },
    /// Create a custom parameter.
    Create(CreateParam),
    /// Set the value of a custom parameter for a moment.
    Inject(InjectParam),
    /// Delete a custom parameter.
    Delete { name: String },
    /// All input parameters of the current model.
    ListInputs,
    /// All Live2D parameters of the current model.
    ListLive2D,
}

#[derive(Debug, Clone, PartialEq, Eq)]
pub struct CreateParam {
    pub name: String,
    pub default: Scalar,
    pub min: Scalar,
    pub max: Scalar,
    pub explanation: Option<String>,
}

#[derive(Debug, Clone, PartialEq, Eq)]
pub struct InjectParam {
    pub id: String,
    pub value: Scalar,
    pub weight: Option<Scalar>,
    pub face_found: bool,
    /// Add to the current value instead of replacing it.
    pub add: bool,
}

#[derive(Debug, Clone, PartialEq, Eq)]
pub enum HotkeysCommand {
    /// The hotkeys of a model or of a Live2D item.
    List { model_id: Option<String>, live2d_file: Option<String> },
    /// Trigger a hotkey, chosen by identifier or by name.
    Trigger(TriggerHotkey),
}

#[derive(Debug, Clone, PartialEq, Eq)]
pub struct TriggerHotkey {
    /// The hotkey's identifier.
    pub id: Option<String>,
    /// The hotkey's name: the first hotkey listed under it is triggered.
    pub name: Option<String>,
    /// The item instance to trigger the hotkey for.
    pub item: Option<String>,
}

#[derive(Debug, Clone, PartialEq, Eq)]
pub enum ArtmeshesCommand {
    /// The art meshes of the current model.
    List,
    /// Tint the art meshes that match.
    Tint(Tint),
    /// Let the user pick art meshes.
    Select {
        set_text: Option<String>,
        set_help: Option<String>,
        count: Option<i32>,
        preselect: Vec<String>,
    },
}

#[derive(Debug, Clone, PartialEq, Eq)]
pub enum ExpressionsCommand {
    /// The state of the expressions.
    List { details: bool, file: Option<String> },
    /// Switch an expression on.
    Activate { file: String },
    /// Switch an expression off.
    Deactivate { file: String },
}

#[derive(Debug, Clone, PartialEq, Eq)]
pub struct Tint {
    /// Cycle through the rainbow instead of a fixed colour.
    pub rainbow: bool,
    /// How much of the scene lighting colour to mix in, from 0 to 1.
    pub mix_scene_lighting: Option<Scalar>,
    pub color: HexColor,
    /// Match every art mesh.
    pub all: bool,
    pub art_mesh_number: Vec<i32>,
    pub name_exact: Vec<String>,
    pub name_contains: Vec<String>,
    pub tag_exact: Vec<String>,
    pub tag_contains: Vec<String>,
    /// How long the tint should last. The application drops the tint when
    /// the client disconnects, so the client stays for this long.
    pub duration: Span,
}

/// A colour with its opacity, one byte a channel.
#[derive(Debug, Clone, Copy, PartialEq, Eq, Structural)]
pub struct HexColor {
    pub r: u8,
    pub g: u8,
    pub b: u8,
    pub a: u8,
}

#[derive(Debug, Clone, PartialEq, Eq)]
pub enum ModelsCommand {
    /// The models that can be loaded.
    List,
    /// The model now loaded.
    Current,
    /// Load a model, chosen by identifier or by name.
    Load { id: Option<String>, name: Option<String> },
    /// Move the current model.
    Move(MoveModel),
}

#[derive(Debug, Clone, PartialEq, Eq)]
pub struct MoveModel {
    /// How long the movement takes.
    pub duration: Span,
    /// Whether the values are offsets from where the model is now.
    pub relative: bool,
    pub x: Option<Scalar>,
    pub y: Option<Scalar>,
    pub rotation: Option<Scalar>,
    pub size: Option<Scalar>,
}

#[derive(Debug, Clone, PartialEq, Eq)]
pub enum NdiCommand {
    /// Show the NDI settings.
    GetConfig,
    /// Change the NDI settings.
    SetConfig(NdiSetConfig),
}

#[derive(Debug, Clone, PartialEq, Eq)]
pub struct NdiSetConfig {
    pub active: Option<bool>,
    pub use_ndi5: Option<bool>,
    pub use_custom_resolution: Option<bool>,
    pub width: Option<i32>,
    pub height: Option<i32>,
}

#[derive(Debug, Clone, PartialEq, Eq)]
pub enum PhysicsCommand {
    /// The physics settings of the current model.
    Get,
    /// Override one physics setting.
    SetPhysics(SetPhysicsCommand),
}

#[derive(Debug, Clone, PartialEq, Eq)]
pub enum SetPhysicsCommand {
    /// Override the base value.
    Base(SetBasePhysicsConfig),
    /// Override the multiplier of one group.
    Multiplier(SetMultiplierPhysicsConfig),
}

impl SetPhysicsCommand {
    /// The dimension named by the command, whichever override it carries.
    pub open spec fn spec_kind(&self) -> StrengthOrWind {
        match *self {
            SetPhysicsCommand::Base(conf) => conf.kind,
            SetPhysicsCommand::Multiplier(conf) => conf.kind,
        }
    }

    /// The dimension the override is for.
    pub fn kind(&self) -> (r: &StrengthOrWind)
        ensures
            *r == self.spec_kind(),
    {
        match self {
            SetPhysicsCommand::Base(conf) => &conf.kind,
            SetPhysicsCommand::Multiplier(conf) => &conf.kind,
        }
    }
}

#[derive(Debug, Clone, PartialEq, Eq)]
pub enum ItemsCommand {
    /// List items.
    List {
        spots: bool,
        instances: bool,
        files: bool,
        with_file_name: Option<String>,
        with_instance_id: Option<String>,
    },
    /// Put an item into the scene.
    Load(ItemLoadCommand),
    /// Take items out of the scene.
    Unload(ItemUnloadCommand),
    /// Move an item.
    Move(ItemMoveCommand),
    /// Control an item's animation.
    Animation(ItemAnimationCommand),
}

#[derive(Debug, Clone, PartialEq, Eq)]
pub struct ItemLoadCommand {
    pub file_name: String,
    pub x: Scalar,
    pub y: Scalar,
    pub size: Scalar,
    /// Rotation, in degrees.
    pub rotation: i32,
    /// Fade time, in seconds.
    pub fade_time: Scalar,
    pub order: Option<i32>,
    /// Fail when `order` is taken instead of picking the next free one.
    pub fail_if_order_taken: bool,
    pub smoothing: Scalar,
    pub censored: bool,
    pub flipped: bool,
    pub locked: bool,
}

#[derive(Debug, Clone, PartialEq, Eq)]
pub struct ItemUnloadCommand {
    /// Unload every item in the scene.
    pub all: bool,
    /// Unload every item this client loaded.
    pub from_this_plugin: bool,
    /// Allow unloading what the user or other clients loaded.
    pub from_other_plugins: bool,
    pub id: Vec<String>,
    pub file: Vec<String>,
}

#[derive(Debug, Clone, PartialEq, Eq)]
pub struct ItemMoveCommand {
    pub id: String,
    pub duration: Span,
    /// The easing of the movement, by its name on the wire.
    pub fade_mode: String,
    pub x: Option<i32>,
    pub y: Option<i32>,
    pub size: Option<Scalar>,
    pub rotation: Option<i32>,
    pub order: Option<i32>,
    pub set_flip: bool,
    pub flip: bool,
    pub user_can_stop: bool,
}

#[derive(Debug, Clone, PartialEq, Eq)]
pub struct ItemAnimationCommand {
    pub item_instance_id: String,
    pub framerate: Option<Scalar>,
    /// Jump to this frame, counted from zero.
    pub frame: Option<i32>,
    pub brightness: Option<Scalar>,
    pub opacity: Option<Scalar>,
    /// Frames on which the animation stops by itself.
    pub stop_frame: Vec<i32>,
    /// Forget the frames on which the animation stops by itself.
    pub reset_stop_frames: bool,
    pub play: bool,
    pub stop: bool,
}

/// One of the two physics dimensions an override can target.
#[derive(Debug, Copy, Clone, PartialEq, Eq, Structural)]
pub enum StrengthOrWind {
    Strength,
    Wind,
}

#[derive(Debug, Clone, PartialEq, Eq)]
pub struct SetBasePhysicsConfig {
    pub kind: StrengthOrWind,
    /// The base value, meant to lie between 0 and 100.
    pub value: u8,
    /// How long the override lasts.
    pub duration: Span,
}

#[derive(Debug, Clone, PartialEq, Eq)]
pub struct SetMultiplierPhysicsConfig {
    pub kind: StrengthOrWind,
    /// The multiplier, meant to lie between 0 and 2.
    pub value: Scalar,
    /// The physics group.
    pub id: String,
    /// How long the override lasts.
    pub duration: Span,
}

#[derive(Debug, Clone, PartialEq, Eq)]
pub enum EventsCommand {
    /// The test event.
    Test { message: String },
    /// A model was loaded or unloaded; `model_id` narrows it to some models.
    ModelLoaded { model_id: Vec<String> },
    /// Face or hand tracking was found or lost.
    TrackingStatusChanged {  },
    /// The background changed.
    BackgroundChanged {  },
    /// The user changed the settings of the loaded model.
    ModelConfigChanged {  },
    /// The model moved.
    ModelMoved {  },
    /// The model's outline, when it changes.
    ModelOutline { draw: bool },
}

} // verus!
