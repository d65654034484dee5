use vtubestudio_cli::args::{
    ArtmeshesCommand, Command, ConfigCommand, CreateParam, EventsCommand, ExpressionsCommand,
    HexColor, HotkeysCommand, InjectParam, ItemAnimationCommand, ItemLoadCommand, ItemMoveCommand,
    ItemUnloadCommand, ItemsCommand, ModelsCommand, MoveModel, NdiCommand, NdiSetConfig,
    ParamsCommand, PhysicsCommand, SetBasePhysicsConfig, SetMultiplierPhysicsConfig,
    SetPhysicsCommand, StrengthOrWind, Tint, TriggerHotkey,
};
use vtubestudio_cli::config::Config;
use vtubestudio_cli::request::{
    ArtMeshMatcher, ColorTint, EventConfig, InjectMode, ItemToMove, OverrideValue, ParameterValue,
    PhysicsOverride, Request,
};
use vtubestudio_cli::resolve::{find_first, Listed, Resource};
use vtubestudio_cli::router::{
    handle_artmeshes_command, handle_config_command, handle_events_command,
    handle_expressions_command, handle_hotkeys_command, handle_items_command,
    handle_models_command, handle_ndi_command, handle_params_command, handle_physics_command,
    resolve_name, resume_hotkey_trigger, resume_model_load, route, select, tint_hold, Local, Plan,
    RouterError, Selector, TransportError,
};
use vtubestudio_cli::units::{Scalar, Span};

fn num(x: f64) -> Scalar {
    Scalar { bits: x.to_bits() }
}

fn s(text: &str) -> String {
    text.to_string()
}

fn listed(id: &str, name: &str) -> Listed {
    Listed { id: s(id), name: s(name) }
}

fn printed(request: Request) -> Plan {
    Plan::Send { request, print: true }
}

fn animation(stop_frame: Vec<i32>, reset: bool, play: bool, stop: bool) -> ItemsCommand {
    ItemsCommand::Animation(ItemAnimationCommand {
        item_instance_id: s("item1"),
        framerate: Some(num(30.0)),
        frame: Some(4),
        brightness: None,
        opacity: Some(num(0.5)),
        stop_frame,
        reset_stop_frames: reset,
        play,
        stop,
    })
}

fn animation_flags(plan: Plan) -> (bool, Vec<i32>, bool, bool) {
    match plan {
        Plan::Send {
            request:
                Request::ItemAnimationControl {
                    set_auto_stop_frames,
                    auto_stop_frames,
                    set_animation_play_state,
                    animation_play_state,
                    ..
                },
            print: true,
        } => (set_auto_stop_frames, auto_stop_frames, set_animation_play_state, animation_play_state),
        other => panic!("unexpected plan {:?}", other),
    }
}

#[test]
fn model_load_by_name_takes_first_alice() {
    let listing = vec![listed("a1", "Alice"), listed("a2", "Alice")];
    assert_eq!(
        resume_model_load(Ok(listing), s("Alice")),
        Ok(Request::ModelLoad { model_id: s("a1") })
    );
}

#[test]
fn duplicate_names_resolve_to_first_occurrence() {
    let listing = vec![
        listed("x0", "Bob"),
        listed("x1", "Carol"),
        listed("x2", "Bob"),
        listed("x3", "Carol"),
        listed("x4", "Carol"),
    ];
    assert_eq!(find_first(&listing, &s("Carol")), Some(1));
    assert_eq!(find_first(&listing, &s("Bob")), Some(0));
    assert_eq!(resolve_name(Ok(listing.clone()), Resource::Model, s("Carol")), Ok(s("x1")));
    assert_eq!(resolve_name(Ok(listing), Resource::Hotkey, s("Bob")), Ok(s("x0")));
}

#[test]
fn resolution_finds_last_record() {
    let listing = vec![listed("a", "one"), listed("b", "two"), listed("c", "three")];
    assert_eq!(find_first(&listing, &s("three")), Some(2));
    assert_eq!(resolve_name(Ok(listing), Resource::Model, s("three")), Ok(s("c")));
}

#[test]
fn resolution_is_case_sensitive_and_exact() {
    let listing = vec![listed("a", "alice"), listed("b", "Alice "), listed("c", "Alic")];
    assert_eq!(find_first(&listing, &s("Alice")), None);
    assert_eq!(
        resolve_name(Ok(listing), Resource::Model, s("Alice")),
        Err(RouterError::NameNotFound { resource: Resource::Model, name: s("Alice") })
    );
}

#[test]
fn resolution_on_empty_listing_is_name_not_found() {
    assert_eq!(
        resume_hotkey_trigger(Ok(vec![]), s("Wave"), None),
        Err(RouterError::NameNotFound { resource: Resource::Hotkey, name: s("Wave") })
    );
    assert_eq!(
        resume_model_load(Ok(vec![]), s("Alice")),
        Err(RouterError::NameNotFound { resource: Resource::Model, name: s("Alice") })
    );
}

#[test]
fn failed_listing_passes_transport_error_on() {
    let e = TransportError { message: s("connection reset") };
    assert_eq!(
        resume_hotkey_trigger(Err(e.clone()), s("Wave"), None),
        Err(RouterError::Transport(e.clone()))
    );
    assert_eq!(resume_model_load(Err(e.clone()), s("Alice")), Err(RouterError::Transport(e.clone())));
    assert_eq!(
        resolve_name(Err(e.clone()), Resource::Model, s("Alice")),
        Err(RouterError::Transport(e))
    );
}

#[test]
fn hotkey_trigger_by_name_keeps_item() {
    let listing = vec![listed("h1", "Blink"), listed("h2", "Wave"), listed("h3", "Wave")];
    assert_eq!(
        resume_hotkey_trigger(Ok(listing), s("Wave"), Some(s("item7"))),
        Ok(Request::HotkeyTrigger { hotkey_id: s("h2"), item_instance_id: Some(s("item7")) })
    );
}

#[test]
fn router_error_messages() {
    assert_eq!(
        RouterError::AmbiguousOrMissingSelector.message(),
        "either `id` or `name` must be specified"
    );
    assert_eq!(
        RouterError::NameNotFound { resource: Resource::Hotkey, name: s("Wave") }.message(),
        "no hotkey found with name `Wave`"
    );
    assert_eq!(
        RouterError::NameNotFound { resource: Resource::Model, name: s("Alice") }.message(),
        "no model found with name `Alice`"
    );
    assert_eq!(
        RouterError::Transport(TransportError { message: s("timed out") }).message(),
        "timed out"
    );
}

#[test]
fn hotkey_trigger_without_selector_is_refused() {
    let req = TriggerHotkey { id: None, name: None, item: Some(s("item7")) };
    assert_eq!(
        handle_hotkeys_command(HotkeysCommand::Trigger(req.clone())),
        Err(RouterError::AmbiguousOrMissingSelector)
    );
    assert_eq!(
        route(Command::Hotkeys(HotkeysCommand::Trigger(req))),
        Err(RouterError::AmbiguousOrMissingSelector)
    );
}

#[test]
fn model_load_without_selector_is_refused() {
    assert_eq!(
        handle_models_command(ModelsCommand::Load { id: None, name: None }),
        Err(RouterError::AmbiguousOrMissingSelector)
    );
    assert_eq!(
        route(Command::Models(ModelsCommand::Load { id: None, name: None })),
        Err(RouterError::AmbiguousOrMissingSelector)
    );
}

#[test]
fn hotkey_trigger_by_id_is_one_request() {
    let req = TriggerHotkey { id: Some(s("h9")), name: None, item: None };
    assert_eq!(
        handle_hotkeys_command(HotkeysCommand::Trigger(req)),
        Ok(printed(Request::HotkeyTrigger { hotkey_id: s("h9"), item_instance_id: None }))
    );
}

#[test]
fn hotkey_trigger_prefers_id_over_name() {
    let req = TriggerHotkey { id: Some(s("h9")), name: Some(s("Wave")), item: None };
    assert_eq!(
        handle_hotkeys_command(HotkeysCommand::Trigger(req)),
        Ok(printed(Request::HotkeyTrigger { hotkey_id: s("h9"), item_instance_id: None }))
    );
}

#[test]
fn hotkey_trigger_by_name_lists_first() {
    let req = TriggerHotkey { id: None, name: Some(s("Wave")), item: Some(s("i")) };
    assert_eq!(
        handle_hotkeys_command(HotkeysCommand::Trigger(req)),
        Ok(Plan::FindHotkey {
            listing: Request::HotkeysInCurrentModel { model_id: None, live2d_item_file_name: None },
            name: s("Wave"),
            item: Some(s("i")),
        })
    );
}

#[test]
fn hotkey_list_passes_filters() {
    assert_eq!(
        handle_hotkeys_command(HotkeysCommand::List {
            model_id: Some(s("m")),
            live2d_file: Some(s("f.json")),
        }),
        Ok(printed(Request::HotkeysInCurrentModel {
            model_id: Some(s("m")),
            live2d_item_file_name: Some(s("f.json")),
        }))
    );
}

#[test]
fn model_commands() {
    assert_eq!(handle_models_command(ModelsCommand::List), Ok(printed(Request::AvailableModels)));
    assert_eq!(handle_models_command(ModelsCommand::Current), Ok(printed(Request::CurrentModel)));
    assert_eq!(
        handle_models_command(ModelsCommand::Load { id: Some(s("m1")), name: None }),
        Ok(printed(Request::ModelLoad { model_id: s("m1") }))
    );
    assert_eq!(
        handle_models_command(ModelsCommand::Load { id: None, name: Some(s("Alice")) }),
        Ok(Plan::FindModel { listing: Request::AvailableModels, name: s("Alice") })
    );
}

#[test]
fn model_move_gives_whole_millis() {
    let req = MoveModel {
        duration: Span { secs: 1, nanos: 500_900_000 },
        relative: true,
        x: Some(num(0.25)),
        y: None,
        rotation: Some(num(-90.0)),
        size: None,
    };
    assert_eq!(
        handle_models_command(ModelsCommand::Move(req)),
        Ok(printed(Request::MoveModel {
            time_in_millis: 1500,
            values_are_relative_to_model: true,
            position_x: Some(num(0.25)),
            position_y: None,
            rotation: Some(num(-90.0)),
            size: None,
        }))
    );
}

#[test]
fn physics_multiplier_for_wind() {
    let command = PhysicsCommand::SetPhysics(SetPhysicsCommand::Multiplier(
        SetMultiplierPhysicsConfig {
            kind: StrengthOrWind::Wind,
            value: num(0.8),
            id: s("g1"),
            duration: Span { secs: 1, nanos: 0 },
        },
    ));
    let plan = handle_physics_command(command);
    match plan {
        Plan::Send {
            request: Request::SetCurrentModelPhysics { strength_overrides, wind_overrides },
            print: true,
        } => {
            assert!(strength_overrides.is_empty());
            assert_eq!(wind_overrides.len(), 1);
            let o = &wind_overrides[0];
            assert_eq!(o.id, "g1");
            assert!(!o.set_base_value);
            match o.value {
                OverrideValue::Multiplier(v) => assert_eq!(f64::from_bits(v.bits), 0.8),
                other => panic!("unexpected value {:?}", other),
            }
            let seconds = o.override_seconds.secs as f64 + o.override_seconds.nanos as f64 / 1e9;
            assert_eq!(seconds, 1.0);
        }
        other => panic!("unexpected plan {:?}", other),
    }
}

#[test]
fn physics_base_for_strength() {
    let command = PhysicsCommand::SetPhysics(SetPhysicsCommand::Base(SetBasePhysicsConfig {
        kind: StrengthOrWind::Strength,
        value: 70,
        duration: Span { secs: 0, nanos: 500_000_000 },
    }));
    assert_eq!(
        handle_physics_command(command),
        printed(Request::SetCurrentModelPhysics {
            strength_overrides: vec![PhysicsOverride {
                id: String::new(),
                value: OverrideValue::Base(70),
                set_base_value: true,
                override_seconds: Span { secs: 0, nanos: 500_000_000 },
            }],
            wind_overrides: vec![],
        })
    );
}

#[test]
fn physics_base_for_wind_and_multiplier_for_strength() {
    let base = SetPhysicsCommand::Base(SetBasePhysicsConfig {
        kind: StrengthOrWind::Wind,
        value: 0,
        duration: Span { secs: 5, nanos: 0 },
    });
    assert_eq!(*base.kind(), StrengthOrWind::Wind);
    assert_eq!(
        handle_physics_command(PhysicsCommand::SetPhysics(base)),
        printed(Request::SetCurrentModelPhysics {
            strength_overrides: vec![],
            wind_overrides: vec![PhysicsOverride {
                id: String::new(),
                value: OverrideValue::Base(0),
                set_base_value: true,
                override_seconds: Span { secs: 5, nanos: 0 },
            }],
        })
    );
    let mult = SetPhysicsCommand::Multiplier(SetMultiplierPhysicsConfig {
        kind: StrengthOrWind::Strength,
        value: num(2.0),
        id: s("hair"),
        duration: Span { secs: 2, nanos: 0 },
    });
    assert_eq!(*mult.kind(), StrengthOrWind::Strength);
    assert_eq!(
        handle_physics_command(PhysicsCommand::SetPhysics(mult)),
        printed(Request::SetCurrentModelPhysics {
            strength_overrides: vec![PhysicsOverride {
                id: s("hair"),
                value: OverrideValue::Multiplier(num(2.0)),
                set_base_value: false,
                override_seconds: Span { secs: 2, nanos: 0 },
            }],
            wind_overrides: vec![],
        })
    );
}

#[test]
fn physics_get() {
    assert_eq!(
        handle_physics_command(PhysicsCommand::Get),
        printed(Request::GetCurrentModelPhysics)
    );
}

#[test]
fn tint_hold_only_when_something_matched() {
    let d = Span { secs: 5, nanos: 0 };
    assert_eq!(tint_hold(0, d), None);
    assert_eq!(tint_hold(1, d), Some(d));
    assert_eq!(tint_hold(12, d), Some(d));
    assert_eq!(tint_hold(-1, d), None);
    assert_eq!(tint_hold(i32::MAX, d), Some(d));
}

#[test]
fn tint_request_and_hold() {
    let tint = Tint {
        rainbow: true,
        mix_scene_lighting: Some(num(0.5)),
        color: HexColor::from_str("#ff000080").unwrap(),
        all: false,
        art_mesh_number: vec![1, 2],
        name_exact: vec![s("eye")],
        name_contains: vec![],
        tag_exact: vec![s("t")],
        tag_contains: vec![s("u"), s("v")],
        duration: Span { secs: 90, nanos: 0 },
    };
    assert_eq!(
        handle_artmeshes_command(ArtmeshesCommand::Tint(tint)),
        Plan::Tint {
            request: Request::ColorTint {
                color_tint: ColorTint {
                    color_r: 255,
                    color_g: 0,
                    color_b: 0,
                    color_a: 128,
                    mix_with_scene_lighting_color: Some(num(0.5)),
                    jeb_: true,
                },
                art_mesh_matcher: ArtMeshMatcher {
                    tint_all: false,
                    art_mesh_number: vec![1, 2],
                    name_exact: vec![s("eye")],
                    name_contains: vec![],
                    tag_exact: vec![s("t")],
                    tag_contains: vec![s("u"), s("v")],
                },
            },
            hold: Span { secs: 90, nanos: 0 },
        }
    );
}

#[test]
fn artmesh_list_and_select() {
    assert_eq!(handle_artmeshes_command(ArtmeshesCommand::List), printed(Request::ArtMeshList));
    assert_eq!(
        handle_artmeshes_command(ArtmeshesCommand::Select {
            set_text: Some(s("pick")),
            set_help: None,
            count: None,
            preselect: vec![s("a")],
        }),
        printed(Request::ArtMeshSelection {
            text_override: Some(s("pick")),
            help_override: None,
            requested_art_mesh_count: 0,
            active_art_meshes: vec![s("a")],
        })
    );
    assert_eq!(
        handle_artmeshes_command(ArtmeshesCommand::Select {
            set_text: None,
            set_help: Some(s("help")),
            count: Some(3),
            preselect: vec![],
        }),
        printed(Request::ArtMeshSelection {
            text_override: None,
            help_override: Some(s("help")),
            requested_art_mesh_count: 3,
            active_art_meshes: vec![],
        })
    );
}

#[test]
fn params_commands() {
    assert_eq!(
        handle_params_command(ParamsCommand::Get { name: s("p") }),
        printed(Request::ParameterValue { name: s("p") })
    );
    assert_eq!(
        handle_params_command(ParamsCommand::Delete { name: s("p") }),
        printed(Request::ParameterDeletion { parameter_name: s("p") })
    );
    assert_eq!(
        handle_params_command(ParamsCommand::ListInputs),
        printed(Request::InputParameterList)
    );
    assert_eq!(
        handle_params_command(ParamsCommand::ListLive2D),
        printed(Request::Live2DParameterList)
    );
    assert_eq!(
        handle_params_command(ParamsCommand::Create(CreateParam {
            name: s("p"),
            default: num(1.0),
            min: num(-5.0),
            max: num(100.0),
            explanation: Some(s("why")),
        })),
        printed(Request::ParameterCreation {
            parameter_name: s("p"),
            explanation: Some(s("why")),
            min: num(-5.0),
            max: num(100.0),
            default_value: num(1.0),
        })
    );
}

#[test]
fn params_inject_modes() {
    let inject = |add: bool| {
        handle_params_command(ParamsCommand::Inject(InjectParam {
            id: s("p"),
            value: num(0.25),
            weight: Some(num(0.5)),
            face_found: true,
            add,
        }))
    };
    let expect = |mode: InjectMode| {
        printed(Request::InjectParameterData {
            face_found: true,
            mode,
            parameter_values: vec![ParameterValue {
                id: s("p"),
                value: num(0.25),
                weight: Some(num(0.5)),
            }],
        })
    };
    assert_eq!(inject(true), expect(InjectMode::Add));
    assert_eq!(inject(false), expect(InjectMode::Replace));
}

#[test]
fn expressions_commands() {
    assert_eq!(
        handle_expressions_command(ExpressionsCommand::List { details: true, file: None }),
        printed(Request::ExpressionState { details: true, expression_file: None })
    );
    assert_eq!(
        handle_expressions_command(ExpressionsCommand::Activate { file: s("a.exp3.json") }),
        printed(Request::ExpressionActivation { expression_file: s("a.exp3.json"), active: true })
    );
    assert_eq!(
        handle_expressions_command(ExpressionsCommand::Deactivate { file: s("a.exp3.json") }),
        printed(Request::ExpressionActivation {
            expression_file: s("a.exp3.json"),
            active: false,
        })
    );
}

#[test]
fn ndi_commands() {
    assert_eq!(
        handle_ndi_command(NdiCommand::GetConfig),
        printed(Request::NdiConfig {
            set_new_config: false,
            ndi_active: None,
            use_ndi5: None,
            use_custom_resolution: None,
            custom_width_ndi: None,
            custom_height_ndi: None,
        })
    );
    assert_eq!(
        handle_ndi_command(NdiCommand::SetConfig(NdiSetConfig {
            active: Some(true),
            use_ndi5: Some(false),
            use_custom_resolution: None,
            width: Some(1024),
            height: Some(512),
        })),
        printed(Request::NdiConfig {
            set_new_config: true,
            ndi_active: Some(true),
            use_ndi5: Some(false),
            use_custom_resolution: None,
            custom_width_ndi: Some(1024),
            custom_height_ndi: Some(512),
        })
    );
}

#[test]
fn items_list_load_unload() {
    assert_eq!(
        handle_items_command(ItemsCommand::List {
            spots: true,
            instances: false,
            files: true,
            with_file_name: Some(s("f")),
            with_instance_id: None,
        }),
        printed(Request::ItemList {
            include_available_spots: true,
            include_item_instances_in_scene: false,
            include_available_item_files: true,
            only_items_with_file_name: Some(s("f")),
            only_items_with_instance_id: None,
        })
    );
    assert_eq!(
        handle_items_command(ItemsCommand::Load(ItemLoadCommand {
            file_name: s("hat.png"),
            x: num(0.0),
            y: num(0.5),
            size: num(0.32),
            rotation: 90,
            fade_time: num(0.0),
            order: Some(3),
            fail_if_order_taken: true,
            smoothing: num(0.0),
            censored: false,
            flipped: true,
            locked: false,
        })),
        printed(Request::ItemLoad {
            file_name: s("hat.png"),
            position_x: num(0.0),
            position_y: num(0.5),
            size: num(0.32),
            rotation: 90,
            fade_time: num(0.0),
            order: Some(3),
            fail_if_order_taken: true,
            smoothing: num(0.0),
            censored: false,
            flipped: true,
            locked: false,
            unload_when_plugin_disconnects: false,
        })
    );
    assert_eq!(
        handle_items_command(ItemsCommand::Unload(ItemUnloadCommand {
            all: false,
            from_this_plugin: true,
            from_other_plugins: false,
            id: vec![s("i1"), s("i2")],
            file: vec![],
        })),
        printed(Request::ItemUnload {
            unload_all_in_scene: false,
            unload_all_loaded_by_this_plugin: true,
            allow_unloading_items_loaded_by_user_or_other_plugins: false,
            instance_ids: vec![s("i1"), s("i2")],
            file_names: vec![],
        })
    );
}

#[test]
fn items_move_carries_one_item() {
    assert_eq!(
        handle_items_command(ItemsCommand::Move(ItemMoveCommand {
            id: s("i1"),
            duration: Span { secs: 0, nanos: 250_000_000 },
            fade_mode: s("easeOut"),
            x: Some(1),
            y: Some(-2),
            size: Some(num(0.4)),
            rotation: None,
            order: Some(7),
            set_flip: true,
            flip: false,
            user_can_stop: true,
        })),
        printed(Request::ItemMove {
            items_to_move: vec![ItemToMove {
                item_instance_id: s("i1"),
                time_in_seconds: Span { secs: 0, nanos: 250_000_000 },
                fade_mode: s("easeOut"),
                position_x: Some(1),
                position_y: Some(-2),
                size: Some(num(0.4)),
                rotation: None,
                order: Some(7),
                set_flip: true,
                flip: false,
                user_can_stop: true,
            }],
        })
    );
}

#[test]
fn animation_passes_plain_fields() {
    assert_eq!(
        handle_items_command(animation(vec![], false, false, false)),
        printed(Request::ItemAnimationControl {
            item_instance_id: s("item1"),
            framerate: Some(num(30.0)),
            frame: Some(4),
            brightness: None,
            opacity: Some(num(0.5)),
            set_auto_stop_frames: false,
            auto_stop_frames: vec![],
            set_animation_play_state: false,
            animation_play_state: true,
        })
    );
}

#[test]
fn animation_play_and_stop_are_told_apart() {
    let play = animation_flags(handle_items_command(animation(vec![], false, true, false)));
    assert_eq!((play.2, play.3), (true, true));
    let stop = animation_flags(handle_items_command(animation(vec![], false, false, true)));
    assert_eq!((stop.2, stop.3), (true, false));
    let neither = animation_flags(handle_items_command(animation(vec![], false, false, false)));
    assert_eq!((neither.2, neither.3), (false, true));
    let both = animation_flags(handle_items_command(animation(vec![], false, true, true)));
    assert_eq!((both.2, both.3), (true, true));
}

#[test]
fn animation_stop_frames_reset_and_list() {
    let listed = animation_flags(handle_items_command(animation(vec![3, 9], false, false, false)));
    assert_eq!((listed.0, listed.1), (true, vec![3, 9]));
    let reset = animation_flags(handle_items_command(animation(vec![], true, false, false)));
    assert_eq!((reset.0, reset.1), (true, vec![]));
    let reset_wins = animation_flags(handle_items_command(animation(vec![3], true, false, false)));
    assert_eq!((reset_wins.0, reset_wins.1), (true, vec![]));
    let untouched = animation_flags(handle_items_command(animation(vec![], false, false, false)));
    assert_eq!((untouched.0, untouched.1), (false, vec![]));
}

#[test]
fn events_subscribe_quietly() {
    let quiet = |config: EventConfig| Plan::Send {
        request: Request::EventSubscription { config },
        print: false,
    };
    assert_eq!(
        handle_events_command(EventsCommand::Test { message: s("hi") }),
        quiet(EventConfig::Test { test_message_for_event: s("hi") })
    );
    assert_eq!(
        handle_events_command(EventsCommand::ModelLoaded { model_id: vec![s("m")] }),
        quiet(EventConfig::ModelLoaded { model_id: vec![s("m")] })
    );
    assert_eq!(
        handle_events_command(EventsCommand::TrackingStatusChanged {}),
        quiet(EventConfig::TrackingStatusChanged)
    );
    assert_eq!(
        handle_events_command(EventsCommand::BackgroundChanged {}),
        quiet(EventConfig::BackgroundChanged)
    );
    assert_eq!(
        handle_events_command(EventsCommand::ModelConfigChanged {}),
        quiet(EventConfig::ModelConfigChanged)
    );
    assert_eq!(
        handle_events_command(EventsCommand::ModelMoved {}),
        quiet(EventConfig::ModelMoved)
    );
    assert_eq!(
        handle_events_command(EventsCommand::ModelOutline { draw: true }),
        quiet(EventConfig::ModelOutline { draw: true })
    );
}

#[test]
fn config_commands() {
    assert_eq!(
        handle_config_command(ConfigCommand::Init(Config::standard())),
        Plan::Send { request: Request::Statistics, print: false }
    );
    assert_eq!(handle_config_command(ConfigCommand::Show), Plan::Local(Local::ShowConfig));
    assert_eq!(handle_config_command(ConfigCommand::Path), Plan::Local(Local::ShowPath));
}

#[test]
fn route_plain_queries() {
    assert_eq!(route(Command::State), Ok(printed(Request::ApiState)));
    assert_eq!(route(Command::Stats), Ok(printed(Request::Statistics)));
    assert_eq!(route(Command::Folders), Ok(printed(Request::VtsFolderInfo)));
    assert_eq!(route(Command::SceneColors), Ok(printed(Request::SceneColorOverlayInfo)));
    assert_eq!(route(Command::FaceFound), Ok(printed(Request::FaceFound)));
}

#[test]
fn route_goes_through_each_handler() {
    assert_eq!(
        route(Command::Config(ConfigCommand::Show)),
        Ok(Plan::Local(Local::ShowConfig))
    );
    assert_eq!(
        route(Command::Params(ParamsCommand::ListInputs)),
        Ok(printed(Request::InputParameterList))
    );
    assert_eq!(
        route(Command::Hotkeys(HotkeysCommand::List { model_id: None, live2d_file: None })),
        Ok(printed(Request::HotkeysInCurrentModel { model_id: None, live2d_item_file_name: None }))
    );
    assert_eq!(
        route(Command::Artmeshes(ArtmeshesCommand::List)),
        Ok(printed(Request::ArtMeshList))
    );
    assert_eq!(route(Command::Models(ModelsCommand::Current)), Ok(printed(Request::CurrentModel)));
    assert_eq!(
        route(Command::Expressions(ExpressionsCommand::Activate { file: s("e") })),
        Ok(printed(Request::ExpressionActivation { expression_file: s("e"), active: true }))
    );
    assert_eq!(
        route(Command::Ndi(NdiCommand::GetConfig)),
        Ok(handle_ndi_command(NdiCommand::GetConfig))
    );
    assert_eq!(
        route(Command::Physics(PhysicsCommand::Get)),
        Ok(printed(Request::GetCurrentModelPhysics))
    );
    assert_eq!(
        route(Command::Items(animation(vec![1], false, true, false))),
        Ok(handle_items_command(animation(vec![1], false, true, false)))
    );
    assert_eq!(
        route(Command::Events(EventsCommand::ModelMoved {})),
        Ok(Plan::Send {
            request: Request::EventSubscription { config: EventConfig::ModelMoved },
            print: false,
        })
    );
}

#[test]
fn select_by_id_name_or_neither() {
    assert_eq!(select(Some(s("i")), None), Ok(Selector::Id(s("i"))));
    assert_eq!(select(None, Some(s("n"))), Ok(Selector::Name(s("n"))));
    assert_eq!(select(Some(s("i")), Some(s("n"))), Ok(Selector::Id(s("i"))));
    assert_eq!(select(None, None), Err(RouterError::AmbiguousOrMissingSelector));
    assert_eq!(select(Some(String::new()), None), Ok(Selector::Id(String::new())));
}
