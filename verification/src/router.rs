//! From a command to the requests it stands for.
//!
//! Routing never sends anything. It answers with a [`Plan`]: the request to
//! send, whether its response is shown, and what has to happen around it (a
//! listing to fetch first, a wait to keep afterwards). Where a command
//! cannot be routed, it says so before any request exists.

use vstd::prelude::*;
use vstd::string::StringExecFns;
use crate::args::{
    ArtmeshesCommand, Command, ConfigCommand, EventsCommand, ExpressionsCommand, HotkeysCommand,
    ItemsCommand, ModelsCommand, NdiCommand, ParamsCommand, PhysicsCommand, SetPhysicsCommand,
    StrengthOrWind,
};
use crate::request::{
    ArtMeshMatcher, ColorTint, EventConfig, InjectMode, ItemToMove, OverrideValue, ParameterValue,
    PhysicsOverride, Request,
};
use crate::resolve::{find_first, first_match, Listed, Resource};
use crate::units::Span;

verus! {

/// A failure of the connection, as the transport reported it.
#[derive(Debug, Clone, PartialEq, Eq)]
pub struct TransportError {
    pub message: String,
}

/// Why a command could not be carried out.
#[derive(Debug, Clone, PartialEq, Eq)]
pub enum RouterError {
    /// A resource had to be named by identifier or by name, and neither was
    /// given.
    AmbiguousOrMissingSelector,
    /// The listing holds no record under the name.
    NameNotFound { resource: Resource, name: String },
    /// The transport failed; the failure is passed on as it came.
    Transport(TransportError),
}

impl RouterError {
    /// The text of the message.
    pub open spec fn text(&self) -> Seq<char> {
        match *self {
            RouterError::AmbiguousOrMissingSelector => "either `id` or `name` must be specified"@,
            RouterError::NameNotFound { resource: Resource::Hotkey, name } =>
                "no hotkey found with name `"@ + name@ + "`"@,
            RouterError::NameNotFound { resource: Resource::Model, name } =>
                "no model found with name `"@ + name@ + "`"@,
            RouterError::Transport(e) => e.message@,
        }
    }

    /// The message shown to the user.
    pub fn message(&self) -> (r: String)
        ensures
            r@ == self.text(),
    {
        match self {
            RouterError::AmbiguousOrMissingSelector => {
                "either `id` or `name` must be specified".to_owned()
            },
            RouterError::NameNotFound { resource, name } => {
                let head = match resource {
                    Resource::Hotkey => "no hotkey found with name `".to_owned(),
                    Resource::Model => "no model found with name `".to_owned(),
                };
                head.concat(name.as_str()).concat("`")
            },
            RouterError::Transport(e) => e.message.clone(),
        }
    }
}

/// Output that needs no request.
#[derive(Debug, Clone, Copy, PartialEq, Eq, Structural)]
pub enum Local {
    /// Show the connection record.
    ShowConfig,
    /// Show where the connection record is kept.
    ShowPath,
}

/// What has to be done for one command.
#[derive(Debug, Clone, PartialEq, Eq)]
pub enum Plan {
    /// Nothing is sent.
    Local(Local),
    /// Send one request; show its response where `print` is set.
    Send { request: Request, print: bool },
    /// Send a tint, show its response, then stay connected as
    /// [`tint_hold`] says for the response's count of matched art meshes.
    Tint { request: Request, hold: Span },
    /// Send `listing`, then hand the hotkeys it returns to
    /// [`resume_hotkey_trigger`].
    FindHotkey { listing: Request, name: String, item: Option<String> },
    /// Send `listing`, then hand the models it returns to
    /// [`resume_model_load`].
    FindModel { listing: Request, name: String },
}

/// The plan that sends `request` and shows the response.
pub open spec fn printed(request: Request) -> Plan {
    Plan::Send { request, print: true }
}

/// The plan that sends `request` and shows nothing.
pub open spec fn quiet(request: Request) -> Plan {
    Plan::Send { request, print: false }
}

/// The listing request that a lookup of a hotkey by name starts with: the
/// hotkeys of the current model.
pub open spec fn hotkey_listing() -> Request {
    Request::HotkeysInCurrentModel { model_id: None, live2d_item_file_name: None }
}

// ---------------------------------------------------------------------------
// Parameters

/// What [`handle_params_command`] answers.
pub open spec fn params_plan(command: ParamsCommand, plan: Plan) -> bool {
    match command {
        ParamsCommand::Create(req) => plan == printed(
            Request::ParameterCreation {
                parameter_name: req.name,
                explanation: req.explanation,
                min: req.min,
                max: req.max,
                default_value: req.default,
            },
        ),
        ParamsCommand::Get { name } => plan == printed(Request::ParameterValue { name }),
        ParamsCommand::ListLive2D => plan == printed(Request::Live2DParameterList),
        ParamsCommand::ListInputs => plan == printed(Request::InputParameterList),
        ParamsCommand::Delete { name } => plan == printed(
            Request::ParameterDeletion { parameter_name: name },
        ),
        ParamsCommand::Inject(req) => {
            &&& plan matches Plan::Send {
                request: Request::InjectParameterData { face_found, mode, parameter_values },
                print: true,
            }
            &&& face_found == req.face_found
            &&& mode == if req.add {
                InjectMode::Add
            } else {
                InjectMode::Replace
            }
            &&& parameter_values@ == seq![
                ParameterValue { id: req.id, value: req.value, weight: req.weight },
            ]
        },
    }
}

/// Routes a parameter command: one request each, its response shown. An
/// injection carries exactly one value.
pub fn handle_params_command(command: ParamsCommand) -> (plan: Plan)
    ensures
        params_plan(command, plan),
{
    match command {
        ParamsCommand::Create(req) => Plan::Send {
            request: Request::ParameterCreation {
                parameter_name: req.name,
                explanation: req.explanation,
                min: req.min,
                max: req.max,
                default_value: req.default,
            },
            print: true,
        },
        ParamsCommand::Get { name } => Plan::Send {
            request: Request::ParameterValue { name },
            print: true,
        },
        ParamsCommand::ListLive2D => Plan::Send {
            request: Request::Live2DParameterList,
            print: true,
        },
        ParamsCommand::ListInputs => Plan::Send {
            request: Request::InputParameterList,
            print: true,
        },
        ParamsCommand::Delete { name } => Plan::Send {
            request: Request::ParameterDeletion { parameter_name: name },
            print: true,
        },
        ParamsCommand::Inject(req) => {
            let mode = if req.add {
                InjectMode::Add
            } else {
                InjectMode::Replace
            };
            let mut parameter_values: Vec<ParameterValue> = Vec::new();
            parameter_values.push(
                ParameterValue { id: req.id, value: req.value, weight: req.weight },
            );
            Plan::Send {
                request: Request::InjectParameterData {
                    face_found: req.face_found,
                    mode,
                    parameter_values,
                },
                print: true,
            }
        },
    }
}

// ---------------------------------------------------------------------------
// Selecting by identifier or by name

/// What a lookup by name comes to, given what the listing request brought:
/// a transport failure is passed on unchanged; otherwise the identifier of
/// the first record under the name, or `NameNotFound`.
pub open spec fn resolved(
    reply: Result<Vec<Listed>, TransportError>,
    resource: Resource,
    name: String,
    id: Result<String, RouterError>,
) -> bool {
    match reply {
        Err(e) => id == Err::<String, RouterError>(RouterError::Transport(e)),
        Ok(listing) => match first_match(listing@, name@) {
            Some(i) => id == Ok::<String, RouterError>(listing@[i].id),
            None => id == Err::<String, RouterError>(RouterError::NameNotFound { resource, name }),
        },
    }
}

/// Picks the identifier for `name` out of the reply to a listing request.
pub fn resolve_name(
    reply: Result<Vec<Listed>, TransportError>,
    resource: Resource,
    name: String,
) -> (id: Result<String, RouterError>)
    ensures
        resolved(reply, resource, name, id),
{
    match reply {
        Err(e) => Err(RouterError::Transport(e)),
        Ok(listing) => match find_first(&listing, &name) {
            Some(i) => Ok(listing[i].id.clone()),
            None => Err(RouterError::NameNotFound { resource, name }),
        },
    }
}

/// How a command points at a resource: by its identifier, or by its
/// display name, which has to be looked up.
#[derive(Debug, Clone, PartialEq, Eq)]
pub enum Selector {
    Id(String),
    Name(String),
}

/// The selector that a pair of optional identifier and name stands for:
/// the identifier where there is one, else the name, and an error where
/// there is neither.
pub open spec fn selected(id: Option<String>, name: Option<String>) -> Result<
    Selector,
    RouterError,
> {
    match id {
        Some(id) => Ok(Selector::Id(id)),
        None => match name {
            Some(name) => Ok(Selector::Name(name)),
            None => Err(RouterError::AmbiguousOrMissingSelector),
        },
    }
}

/// Settles how a resource is pointed at. Fails exactly when neither an
/// identifier nor a name is given.
pub fn select(id: Option<String>, name: Option<String>) -> (r: Result<Selector, RouterError>)
    ensures
        r == selected(id, name),
        r is Err <==> id.is_none() && name.is_none(),
{
    match id {
        Some(id) => Ok(Selector::Id(id)),
        None => match name {
            Some(name) => Ok(Selector::Name(name)),
            None => Err(RouterError::AmbiguousOrMissingSelector),
        },
    }
}

// ---------------------------------------------------------------------------
// Hotkeys

/// What [`handle_hotkeys_command`] answers.
pub open spec fn hotkeys_plan(command: HotkeysCommand) -> Result<Plan, RouterError> {
    match command {
        HotkeysCommand::List { model_id, live2d_file } => Ok(
            printed(
                Request::HotkeysInCurrentModel { model_id, live2d_item_file_name: live2d_file },
            ),
        ),
        HotkeysCommand::Trigger(req) => match selected(req.id, req.name) {
            Ok(Selector::Id(id)) => Ok(
                printed(Request::HotkeyTrigger { hotkey_id: id, item_instance_id: req.item }),
            ),
            Ok(Selector::Name(name)) => Ok(
                Plan::FindHotkey { listing: hotkey_listing(), name, item: req.item },
            ),
            Err(e) => Err(e),
        },
    }
}

/// Routes a hotkey command. A trigger by identifier is one request; a
/// trigger by name starts with the listing of the current model's hotkeys;
/// a trigger with neither is refused.
pub fn handle_hotkeys_command(command: HotkeysCommand) -> (r: Result<Plan, RouterError>)
    ensures
        r == hotkeys_plan(command),
{
    match command {
        HotkeysCommand::List { model_id, live2d_file } => Ok(
            Plan::Send {
                request: Request::HotkeysInCurrentModel {
                    model_id,
                    live2d_item_file_name: live2d_file,
                },
                print: true,
            },
        ),
        HotkeysCommand::Trigger(req) => match select(req.id, req.name) {
            Ok(Selector::Id(id)) => Ok(
                Plan::Send {
                    request: Request::HotkeyTrigger { hotkey_id: id, item_instance_id: req.item },
                    print: true,
                },
            ),
            Ok(Selector::Name(name)) => Ok(
                Plan::FindHotkey {
                    listing: Request::HotkeysInCurrentModel {
                        model_id: None,
                        live2d_item_file_name: None,
                    },
                    name,
                    item: req.item,
                },
            ),
            Err(e) => Err(e),
        },
    }
}

/// The second half of a trigger by name: from the reply to the listing
/// request to the trigger request, for the first hotkey under the name.
pub fn resume_hotkey_trigger(
    reply: Result<Vec<Listed>, TransportError>,
    name: String,
    item: Option<String>,
) -> (r: Result<Request, RouterError>)
    ensures
        match reply {
            Err(e) => r == Err::<Request, RouterError>(RouterError::Transport(e)),
            Ok(listing) => match first_match(listing@, name@) {
                Some(i) => r == Ok::<Request, RouterError>(
                    Request::HotkeyTrigger { hotkey_id: listing@[i].id, item_instance_id: item },
                ),
                None => r == Err::<Request, RouterError>(
                    RouterError::NameNotFound { resource: Resource::Hotkey, name },
                ),
            },
        },
{
    match resolve_name(reply, Resource::Hotkey, name) {
        Ok(hotkey_id) => Ok(Request::HotkeyTrigger { hotkey_id, item_instance_id: item }),
        Err(e) => Err(e),
    }
}

// ---------------------------------------------------------------------------
// Art meshes

/// How long to stay connected after a tint: the whole of `duration` when
/// the tint matched at least one art mesh, not at all when it matched none.
pub fn tint_hold(matched_art_meshes: i32, duration: Span) -> (hold: Option<Span>)
    ensures
        matched_art_meshes > 0 ==> hold == Some(duration),
        matched_art_meshes <= 0 ==> hold.is_none(),
{
    if matched_art_meshes > 0 {
        Some(duration)
    } else {
        None
    }
}

/// What [`handle_artmeshes_command`] answers.
pub open spec fn artmeshes_plan(command: ArtmeshesCommand) -> Plan {
    match command {
        ArtmeshesCommand::List => printed(Request::ArtMeshList),
        ArtmeshesCommand::Tint(req) => Plan::Tint {
            request: Request::ColorTint {
                color_tint: ColorTint {
                    color_r: req.color.r,
                    color_g: req.color.g,
                    color_b: req.color.b,
                    color_a: req.color.a,
                    mix_with_scene_lighting_color: req.mix_scene_lighting,
                    jeb_: req.rainbow,
                },
                art_mesh_matcher: ArtMeshMatcher {
                    tint_all: req.all,
                    art_mesh_number: req.art_mesh_number,
                    name_exact: req.name_exact,
                    name_contains: req.name_contains,
                    tag_exact: req.tag_exact,
                    tag_contains: req.tag_contains,
                },
            },
            hold: req.duration,
        },
        ArtmeshesCommand::Select { set_text, set_help, count, preselect } => printed(
            Request::ArtMeshSelection {
                text_override: set_text,
                help_override: set_help,
                requested_art_mesh_count: match count {
                    Some(n) => n,
                    None => 0,
                },
                active_art_meshes: preselect,
            },
        ),
    }
}

/// Routes an art mesh command. A tint comes with the time to stay
/// connected afterwards; a selection without a count asks for any number.
pub fn handle_artmeshes_command(command: ArtmeshesCommand) -> (plan: Plan)
    ensures
        plan == artmeshes_plan(command),
{
    match command {
        ArtmeshesCommand::List => Plan::Send { request: Request::ArtMeshList, print: true },
        ArtmeshesCommand::Tint(req) => Plan::Tint {
            request: Request::ColorTint {
                color_tint: ColorTint {
                    color_r: req.color.r,
                    color_g: req.color.g,
                    color_b: req.color.b,
                    color_a: req.color.a,
                    mix_with_scene_lighting_color: req.mix_scene_lighting,
                    jeb_: req.rainbow,
                },
                art_mesh_matcher: ArtMeshMatcher {
                    tint_all: req.all,
                    art_mesh_number: req.art_mesh_number,
                    name_exact: req.name_exact,
                    name_contains: req.name_contains,
                    tag_exact: req.tag_exact,
                    tag_contains: req.tag_contains,
                },
            },
            hold: req.duration,
        },
        ArtmeshesCommand::Select { set_text, set_help, count, preselect } => {
            let requested_art_mesh_count: i32 = match count {
                Some(n) => n,
                None => 0,
            };
            Plan::Send {
                request: Request::ArtMeshSelection {
                    text_override: set_text,
                    help_override: set_help,
                    requested_art_mesh_count,
                    active_art_meshes: preselect,
                },
                print: true,
            }
        },
    }
}

// ---------------------------------------------------------------------------
// Models

/// What [`handle_models_command`] answers.
pub open spec fn models_plan(command: ModelsCommand) -> Result<Plan, RouterError> {
    match command {
        ModelsCommand::List => Ok(printed(Request::AvailableModels)),
        ModelsCommand::Current => Ok(printed(Request::CurrentModel)),
        ModelsCommand::Load { id, name } => match selected(id, name) {
            Ok(Selector::Id(id)) => Ok(printed(Request::ModelLoad { model_id: id })),
            Ok(Selector::Name(name)) => Ok(
                Plan::FindModel { listing: Request::AvailableModels, name },
            ),
            Err(e) => Err(e),
        },
        ModelsCommand::Move(req) => Ok(
            printed(
                Request::MoveModel {
                    time_in_millis: req.duration.whole_millis() as u128,
                    values_are_relative_to_model: req.relative,
                    position_x: req.x,
                    position_y: req.y,
                    rotation: req.rotation,
                    size: req.size,
                },
            ),
        ),
    }
}

/// Routes a model command. A load by identifier is one request; a load by
/// name starts with the listing of the available models; a load with
/// neither is refused. A move gives its duration in whole milliseconds.
pub fn handle_models_command(command: ModelsCommand) -> (r: Result<Plan, RouterError>)
    ensures
        r == models_plan(command),
{
    match command {
        ModelsCommand::List => Ok(Plan::Send { request: Request::AvailableModels, print: true }),
        ModelsCommand::Current => Ok(Plan::Send { request: Request::CurrentModel, print: true }),
        ModelsCommand::Load { id, name } => match select(id, name) {
            Ok(Selector::Id(id)) => Ok(
                Plan::Send { request: Request::ModelLoad { model_id: id }, print: true },
            ),
            Ok(Selector::Name(name)) => Ok(
                Plan::FindModel { listing: Request::AvailableModels, name },
            ),
            Err(e) => Err(e),
        },
        ModelsCommand::Move(req) => Ok(
            Plan::Send {
                request: Request::MoveModel {
                    time_in_millis: req.duration.as_millis(),
                    values_are_relative_to_model: req.relative,
                    position_x: req.x,
                    position_y: req.y,
                    rotation: req.rotation,
                    size: req.size,
                },
                print: true,
            },
        ),
    }
}

/// The second half of a load by name: from the reply to the listing
/// request to the load request, for the first model under the name.
pub fn resume_model_load(reply: Result<Vec<Listed>, TransportError>, name: String) -> (r: Result<
    Request,
    RouterError,
>)
    ensures
        match reply {
            Err(e) => r == Err::<Request, RouterError>(RouterError::Transport(e)),
            Ok(listing) => match first_match(listing@, name@) {
                Some(i) => r == Ok::<Request, RouterError>(
                    Request::ModelLoad { model_id: listing@[i].id },
                ),
                None => r == Err::<Request, RouterError>(
                    RouterError::NameNotFound { resource: Resource::Model, name },
                ),
            },
        },
{
    match resolve_name(reply, Resource::Model, name) {
        Ok(model_id) => Ok(Request::ModelLoad { model_id }),
        Err(e) => Err(e),
    }
}

// ---------------------------------------------------------------------------
// Expressions

/// What [`handle_expressions_command`] answers.
pub open spec fn expressions_plan(command: ExpressionsCommand) -> Plan {
    match command {
        ExpressionsCommand::List { details, file } => printed(
            Request::ExpressionState { details, expression_file: file },
        ),
        ExpressionsCommand::Activate { file } => printed(
            Request::ExpressionActivation { expression_file: file, active: true },
        ),
        ExpressionsCommand::Deactivate { file } => printed(
            Request::ExpressionActivation { expression_file: file, active: false },
        ),
    }
}

/// Routes an expression command: one request each, its response shown.
pub fn handle_expressions_command(command: ExpressionsCommand) -> (plan: Plan)
    ensures
        plan == expressions_plan(command),
{
    match command {
        ExpressionsCommand::List { details, file } => Plan::Send {
            request: Request::ExpressionState { details, expression_file: file },
            print: true,
        },
        ExpressionsCommand::Activate { file } => Plan::Send {
            request: Request::ExpressionActivation { expression_file: file, active: true },
            print: true,
        },
        ExpressionsCommand::Deactivate { file } => Plan::Send {
            request: Request::ExpressionActivation { expression_file: file, active: false },
            print: true,
        },
    }
}

// ---------------------------------------------------------------------------
// NDI

/// What [`handle_ndi_command`] answers.
pub open spec fn ndi_plan(command: NdiCommand) -> Plan {
    match command {
        NdiCommand::GetConfig => printed(
            Request::NdiConfig {
                set_new_config: false,
                ndi_active: None,
                use_ndi5: None,
                use_custom_resolution: None,
                custom_width_ndi: None,
                custom_height_ndi: None,
            },
        ),
        NdiCommand::SetConfig(value) => printed(
            Request::NdiConfig {
                set_new_config: true,
                ndi_active: value.active,
                use_ndi5: value.use_ndi5,
                use_custom_resolution: value.use_custom_resolution,
                custom_width_ndi: value.width,
                custom_height_ndi: value.height,
            },
        ),
    }
}

/// Routes an NDI command. Reading the settings is the same request as
/// changing them, with nothing set and the flag to change them off.
pub fn handle_ndi_command(command: NdiCommand) -> (plan: Plan)
    ensures
        plan == ndi_plan(command),
{
    match command {
        NdiCommand::GetConfig => Plan::Send {
            request: Request::NdiConfig {
                set_new_config: false,
                ndi_active: None,
                use_ndi5: None,
                use_custom_resolution: None,
                custom_width_ndi: None,
                custom_height_ndi: None,
            },
            print: true,
        },
        NdiCommand::SetConfig(value) => Plan::Send {
            request: Request::NdiConfig {
                set_new_config: true,
                ndi_active: value.active,
                use_ndi5: value.use_ndi5,
                use_custom_resolution: value.use_custom_resolution,
                custom_width_ndi: value.width,
                custom_height_ndi: value.height,
            },
            print: true,
        },
    }
}

// ---------------------------------------------------------------------------
// Physics

/// `o` is the override that `command` asks for. A base value has no group
/// and is flagged as the base value; a multiplier carries its group.
pub open spec fn is_override_of(command: SetPhysicsCommand, o: PhysicsOverride) -> bool {
    match command {
        SetPhysicsCommand::Base(base) => {
            &&& o.id@ == Seq::<char>::empty()
            &&& o.value == OverrideValue::Base(base.value)
            &&& o.set_base_value
            &&& o.override_seconds == base.duration
        },
        SetPhysicsCommand::Multiplier(mult) => {
            &&& o.id == mult.id
            &&& o.value == OverrideValue::Multiplier(mult.value)
            &&& !o.set_base_value
            &&& o.override_seconds == mult.duration
        },
    }
}

/// What [`handle_physics_command`] answers. A change carries one override,
/// in the list of the dimension it is for; the other list is empty.
pub open spec fn physics_plan(command: PhysicsCommand, plan: Plan) -> bool {
    match command {
        PhysicsCommand::Get => plan == printed(Request::GetCurrentModelPhysics),
        PhysicsCommand::SetPhysics(value) => {
            &&& plan matches Plan::Send {
                request: Request::SetCurrentModelPhysics { strength_overrides, wind_overrides },
                print: true,
            }
            &&& match value.spec_kind() {
                StrengthOrWind::Strength => {
                    &&& strength_overrides@.len() == 1
                    &&& is_override_of(value, strength_overrides@[0])
                    &&& wind_overrides@.len() == 0
                },
                StrengthOrWind::Wind => {
                    &&& wind_overrides@.len() == 1
                    &&& is_override_of(value, wind_overrides@[0])
                    &&& strength_overrides@.len() == 0
                },
            }
        },
    }
}

/// Routes a physics command.
pub fn handle_physics_command(command: PhysicsCommand) -> (plan: Plan)
    ensures
        physics_plan(command, plan),
{
    match command {
        PhysicsCommand::Get => Plan::Send { request: Request::GetCurrentModelPhysics, print: true },
        PhysicsCommand::SetPhysics(value) => {
            let kind = *value.kind();
            let physics = match value {
                SetPhysicsCommand::Base(base) => PhysicsOverride {
                    id: String::new(),
                    value: OverrideValue::Base(base.value),
                    set_base_value: true,
                    override_seconds: base.duration,
                },
                SetPhysicsCommand::Multiplier(mult) => PhysicsOverride {
                    id: mult.id,
                    value: OverrideValue::Multiplier(mult.value),
                    set_base_value: false,
                    override_seconds: mult.duration,
                },
            };
            let mut strength_overrides: Vec<PhysicsOverride> = Vec::new();
            let mut wind_overrides: Vec<PhysicsOverride> = Vec::new();
            match kind {
                StrengthOrWind::Strength => {
                    strength_overrides.push(physics);
                },
                StrengthOrWind::Wind => {
                    wind_overrides.push(physics);
                },
            }
            Plan::Send {
                request: Request::SetCurrentModelPhysics { strength_overrides, wind_overrides },
                print: true,
            }
        },
    }
}

// ---------------------------------------------------------------------------
// Items

/// What an animation command says about playing: `None` leaves the
/// animation as it is, `Some(true)` plays it, `Some(false)` stops it.
/// Where both flags are set, playing wins.
pub open spec fn play_state(play: bool, stop: bool) -> Option<bool> {
    if play {
        Some(true)
    } else if stop {
        Some(false)
    } else {
        None
    }
}

/// What an animation command says about the frames the animation stops on
/// by itself: `None` leaves them as they are, `Some` replaces them. A reset
/// replaces them by none, whatever frames were given beside it.
pub open spec fn stop_frames(frames: Seq<i32>, reset: bool) -> Option<Seq<i32>> {
    if reset {
        Some(Seq::empty())
    } else if frames.len() > 0 {
        Some(frames)
    } else {
        None
    }
}

/// What [`handle_items_command`] answers.
pub open spec fn items_plan(command: ItemsCommand, plan: Plan) -> bool {
    match command {
        ItemsCommand::List { spots, instances, files, with_file_name, with_instance_id } => plan
            == printed(
            Request::ItemList {
                include_available_spots: spots,
                include_item_instances_in_scene: instances,
                include_available_item_files: files,
                only_items_with_file_name: with_file_name,
                only_items_with_instance_id: with_instance_id,
            },
        ),
        ItemsCommand::Load(value) => plan == printed(
            Request::ItemLoad {
                file_name: value.file_name,
                position_x: value.x,
                position_y: value.y,
                size: value.size,
                rotation: value.rotation,
                fade_time: value.fade_time,
                order: value.order,
                fail_if_order_taken: value.fail_if_order_taken,
                smoothing: value.smoothing,
                censored: value.censored,
                flipped: value.flipped,
                locked: value.locked,
                unload_when_plugin_disconnects: false,
            },
        ),
        ItemsCommand::Unload(value) => plan == printed(
            Request::ItemUnload {
                unload_all_in_scene: value.all,
                unload_all_loaded_by_this_plugin: value.from_this_plugin,
                allow_unloading_items_loaded_by_user_or_other_plugins: value.from_other_plugins,
                instance_ids: value.id,
                file_names: value.file,
            },
        ),
        ItemsCommand::Move(value) => {
            &&& plan matches Plan::Send { request: Request::ItemMove { items_to_move }, print: true }
            &&& items_to_move@ == seq![
                ItemToMove {
                    item_instance_id: value.id,
                    time_in_seconds: value.duration,
                    fade_mode: value.fade_mode,
                    position_x: value.x,
                    position_y: value.y,
                    size: value.size,
                    rotation: value.rotation,
                    order: value.order,
                    set_flip: value.set_flip,
                    flip: value.flip,
                    user_can_stop: value.user_can_stop,
                },
            ]
        },
        ItemsCommand::Animation(value) => {
            &&& plan matches Plan::Send {
                request: Request::ItemAnimationControl {
                    item_instance_id,
                    framerate,
                    frame,
                    brightness,
                    opacity,
                    set_auto_stop_frames,
                    auto_stop_frames,
                    set_animation_play_state,
                    animation_play_state,
                },
                print: true,
            }
            &&& item_instance_id == value.item_instance_id
            &&& framerate == value.framerate
            &&& frame == value.frame
            &&& brightness == value.brightness
            &&& opacity == value.opacity
            &&& match stop_frames(value.stop_frame@, value.reset_stop_frames) {
                Some(frames) => set_auto_stop_frames && auto_stop_frames@ == frames,
                None => !set_auto_stop_frames && auto_stop_frames@.len() == 0,
            }
            &&& match play_state(value.play, value.stop) {
                Some(state) => set_animation_play_state && animation_play_state == state,
                None => !set_animation_play_state && animation_play_state,
            }
        },
    }
}

/// Routes an item command: one request each, its response shown.
///
/// An item loaded here stays when the client disconnects. A move carries
/// exactly one item. For an animation, the request says apart whether the
/// play state and the stop frames are to change and what they change to.
pub fn handle_items_command(command: ItemsCommand) -> (plan: Plan)
    ensures
        items_plan(command, plan),
{
    match command {
        ItemsCommand::List { spots, instances, files, with_file_name, with_instance_id } => {
            Plan::Send {
                request: Request::ItemList {
                    include_available_spots: spots,
                    include_item_instances_in_scene: instances,
                    include_available_item_files: files,
                    only_items_with_file_name: with_file_name,
                    only_items_with_instance_id: with_instance_id,
                },
                print: true,
            }
        },
        ItemsCommand::Load(value) => Plan::Send {
            request: Request::ItemLoad {
                file_name: value.file_name,
                position_x: value.x,
                position_y: value.y,
                size: value.size,
                rotation: value.rotation,
                fade_time: value.fade_time,
                order: value.order,
                fail_if_order_taken: value.fail_if_order_taken,
                smoothing: value.smoothing,
                censored: value.censored,
                flipped: value.flipped,
                locked: value.locked,
                unload_when_plugin_disconnects: false,
            },
            print: true,
        },
        ItemsCommand::Unload(value) => Plan::Send {
            request: Request::ItemUnload {
                unload_all_in_scene: value.all,
                unload_all_loaded_by_this_plugin: value.from_this_plugin,
                allow_unloading_items_loaded_by_user_or_other_plugins: value.from_other_plugins,
                instance_ids: value.id,
                file_names: value.file,
            },
            print: true,
        },
        ItemsCommand::Move(value) => {
            let item = ItemToMove {
                item_instance_id: value.id,
                time_in_seconds: value.duration,
                fade_mode: value.fade_mode,
                position_x: value.x,
                position_y: value.y,
                size: value.size,
                rotation: value.rotation,
                order: value.order,
                set_flip: value.set_flip,
                flip: value.flip,
                user_can_stop: value.user_can_stop,
            };
            let mut items_to_move: Vec<ItemToMove> = Vec::new();
            items_to_move.push(item);
            Plan::Send { request: Request::ItemMove { items_to_move }, print: true }
        },
        ItemsCommand::Animation(value) => {
            let animation_play_state = value.play || !value.stop;
            let set_auto_stop_frames = value.stop_frame.len() > 0 || value.reset_stop_frames;
            let auto_stop_frames: Vec<i32> = if value.reset_stop_frames {
                Vec::new()
            } else {
                value.stop_frame
            };
            Plan::Send {
                request: Request::ItemAnimationControl {
                    item_instance_id: value.item_instance_id,
                    framerate: value.framerate,
                    frame: value.frame,
                    brightness: value.brightness,
                    opacity: value.opacity,
                    set_auto_stop_frames,
                    auto_stop_frames,
                    set_animation_play_state: value.play || value.stop,
                    animation_play_state,
                },
                print: true,
            }
        },
    }
}

// ---------------------------------------------------------------------------
// Events

/// The subscription that an event command asks for.
pub open spec fn event_config(command: EventsCommand) -> EventConfig {
    match command {
        EventsCommand::Test { message } => EventConfig::Test { test_message_for_event: message },
        EventsCommand::ModelLoaded { model_id } => EventConfig::ModelLoaded { model_id },
        EventsCommand::TrackingStatusChanged {  } => EventConfig::TrackingStatusChanged,
        EventsCommand::BackgroundChanged {  } => EventConfig::BackgroundChanged,
        EventsCommand::ModelConfigChanged {  } => EventConfig::ModelConfigChanged,
        EventsCommand::ModelMoved {  } => EventConfig::ModelMoved,
        EventsCommand::ModelOutline { draw } => EventConfig::ModelOutline { draw },
    }
}

/// Routes an event command: one subscription request. Its response is not
/// shown; what is shown are the events that follow.
pub fn handle_events_command(command: EventsCommand) -> (plan: Plan)
    ensures
        plan == quiet(Request::EventSubscription { config: event_config(command) }),
{
    let config = match command {
        EventsCommand::Test { message } => EventConfig::Test { test_message_for_event: message },
        EventsCommand::ModelLoaded { model_id } => EventConfig::ModelLoaded { model_id },
        EventsCommand::TrackingStatusChanged {  } => EventConfig::TrackingStatusChanged,
        EventsCommand::BackgroundChanged {  } => EventConfig::BackgroundChanged,
        EventsCommand::ModelConfigChanged {  } => EventConfig::ModelConfigChanged,
        EventsCommand::ModelMoved {  } => EventConfig::ModelMoved,
        EventsCommand::ModelOutline { draw } => EventConfig::ModelOutline { draw },
    };
    Plan::Send { request: Request::EventSubscription { config }, print: false }
}

// ---------------------------------------------------------------------------
// The whole command

/// What [`handle_config_command`] answers.
pub open spec fn config_plan(command: ConfigCommand) -> Plan {
    match command {
        ConfigCommand::Init(_) => quiet(Request::Statistics),
        ConfigCommand::Show => Plan::Local(Local::ShowConfig),
        ConfigCommand::Path => Plan::Local(Local::ShowPath),
    }
}

/// Routes a command on the connection record. Initialising sends one
/// request, so that the application asks its user for permission; the
/// response is not shown. The other two send nothing.
pub fn handle_config_command(command: ConfigCommand) -> (plan: Plan)
    ensures
        plan == config_plan(command),
{
    match command {
        ConfigCommand::Init(_) => Plan::Send { request: Request::Statistics, print: false },
        ConfigCommand::Show => Plan::Local(Local::ShowConfig),
        ConfigCommand::Path => Plan::Local(Local::ShowPath),
    }
}

/// What [`route`] answers: for each kind of command, what its own handler
/// answers.
pub open spec fn routed(command: Command, r: Result<Plan, RouterError>) -> bool {
    match command {
        Command::Config(c) => r == Ok::<Plan, RouterError>(config_plan(c)),
        Command::State => r == Ok::<Plan, RouterError>(printed(Request::ApiState)),
        Command::Folders => r == Ok::<Plan, RouterError>(printed(Request::VtsFolderInfo)),
        Command::Stats => r == Ok::<Plan, RouterError>(printed(Request::Statistics)),
        Command::SceneColors => r == Ok::<Plan, RouterError>(
            printed(Request::SceneColorOverlayInfo),
        ),
        Command::FaceFound => r == Ok::<Plan, RouterError>(printed(Request::FaceFound)),
        Command::Params(c) => r matches Ok(plan) && params_plan(c, plan),
        Command::Hotkeys(c) => r == hotkeys_plan(c),
        Command::Artmeshes(c) => r == Ok::<Plan, RouterError>(artmeshes_plan(c)),
        Command::Models(c) => r == models_plan(c),
        Command::Expressions(c) => r == Ok::<Plan, RouterError>(expressions_plan(c)),
        Command::Ndi(c) => r == Ok::<Plan, RouterError>(ndi_plan(c)),
        Command::Physics(c) => r matches Ok(plan) && physics_plan(c, plan),
        Command::Items(c) => r matches Ok(plan) && items_plan(c, plan),
        Command::Events(c) => r == Ok::<Plan, RouterError>(
            quiet(Request::EventSubscription { config: event_config(c) }),
        ),
    }
}

/// A command that has to name a resource and names none: a hotkey trigger
/// or a model load with neither identifier nor name.
pub open spec fn lacks_selector(command: Command) -> bool {
    match command {
        Command::Hotkeys(HotkeysCommand::Trigger(req)) => req.id.is_none() && req.name.is_none(),
        Command::Models(ModelsCommand::Load { id, name }) => id.is_none() && name.is_none(),
        _ => false,
    }
}

/// Routes a command to its plan. Fails, before any request is made, exactly
/// for a command that lacks its selector.
pub fn route(command: Command) -> (r: Result<Plan, RouterError>)
    ensures
        routed(command, r),
        lacks_selector(command) <==> r is Err,
        r is Err ==> r == Err::<Plan, RouterError>(RouterError::AmbiguousOrMissingSelector),
{
    match command {
        Command::Config(c) => Ok(handle_config_command(c)),
        Command::State => Ok(Plan::Send { request: Request::ApiState, print: true }),
        Command::Folders => Ok(Plan::Send { request: Request::VtsFolderInfo, print: true }),
        Command::Stats => Ok(Plan::Send { request: Request::Statistics, print: true }),
        Command::SceneColors => Ok(
            Plan::Send { request: Request::SceneColorOverlayInfo, print: true },
        ),
        Command::FaceFound => Ok(Plan::Send { request: Request::FaceFound, print: true }),
        Command::Params(c) => Ok(handle_params_command(c)),
        Command::Hotkeys(c) => handle_hotkeys_command(c),
        Command::Artmeshes(c) => Ok(handle_artmeshes_command(c)),
        Command::Models(c) => handle_models_command(c),
        Command::Expressions(c) => Ok(handle_expressions_command(c)),
        Command::Ndi(c) => Ok(handle_ndi_command(c)),
        Command::Physics(c) => Ok(handle_physics_command(c)),
        Command::Items(c) => Ok(handle_items_command(c)),
        Command::Events(c) => Ok(handle_events_command(c)),
    }
}

/// A lookup by name that finds nothing fails with `NameNotFound`, and with
/// nothing else: in particular not with a transport failure, which comes
/// only from a failed listing request.
pub proof fn law_no_match_is_name_not_found(
    listing: Vec<Listed>,
    resource: Resource,
    name: String,
    id: Result<String, RouterError>,
)
    requires
        resolved(Ok(listing), resource, name, id),
        !crate::resolve::has_match(listing@, name@),
    ensures
        id == Err::<String, RouterError>(RouterError::NameNotFound { resource, name }),
        !(id matches Err(RouterError::Transport(_))),
{
    crate::resolve::lemma_first_match(listing@, name@);
}

/// Where several records of a listing carry the name, a lookup returns the
/// identifier of the one that comes first.
pub proof fn law_duplicate_names_resolve_to_first(
    listing: Vec<Listed>,
    resource: Resource,
    name: String,
    id: Result<String, RouterError>,
    i: int,
)
    requires
        resolved(Ok(listing), resource, name, id),
        crate::resolve::is_first_match(listing@, name@, i),
    ensures
        id == Ok::<String, RouterError>(listing@[i].id),
{
    crate::resolve::lemma_first_match(listing@, name@);
}

} // verus!
