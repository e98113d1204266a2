use seishin2d::actions::{
    GameplayInput, InputActionConfig, InputActions, InputConfig,
};
use seishin2d::application::{
    App, GameConfig, LogLevel, LoggingProjectConfig, ProjectConfig, RootConfig,
    WindowProjectConfig,
};
use seishin2d::asset_path::{AssetError, AssetPath, AssetRoot, IoErrorKind, RootProbe};
use seishin2d::assets::AssetLoader;
use seishin2d::dialogue::{
    default_dialogue_ref, interaction_start, open_character_dialogue, CharacterData,
    CharacterDialogueData, DialogueData, DialogueState,
};
use seishin2d::engine::EntityId;
use seishin2d::input::{InputState, KeyCode};
use seishin2d::paths::{
    PathDiagnosticError, PathError, ProjectPaths, VirtualPath, VirtualScheme,
};
use seishin2d::project::{asset_path_for, Assets, GameError, Resources};
use image::{codecs::png::PngEncoder, ColorType, ImageEncoder};
use seishin2d::render::{parse_clear_color, ClearColor, RenderError, TextureData, TextureId};
use seishin2d::world::{EntityRecord, World};

fn paths() -> ProjectPaths {
    ProjectPaths::new(
        "/project/assets".to_string(),
        "/project/resources".to_string(),
        "/user/seishin2d".to_string(),
    )
}

fn record(name: Option<&str>, tags: &[&str], data: &[(&str, &str)]) -> EntityRecord<u32> {
    EntityRecord {
        name: name.map(|n| n.to_string()),
        tags: tags.iter().map(|t| t.to_string()).collect(),
        data_refs: data
            .iter()
            .map(|(k, v)| (k.to_string(), v.to_string()))
            .collect(),
        custom_components: Vec::new(),
        payload: 0,
    }
}

#[test]
fn virtual_paths_resolve_under_distinct_roots() {
    let paths = paths();

    assert_eq!(
        paths
            .resolve_asset("asset://sprites/player.png")
            .expect("asset path"),
        "/project/assets/sprites/player.png"
    );
    assert_eq!(
        paths
            .resolve_resource("res://scenes/main.scene.toml")
            .expect("resource path"),
        "/project/resources/scenes/main.scene.toml"
    );
    assert_eq!(
        paths.resolve_user("user://save_001.dat").expect("user path"),
        "/user/seishin2d/save_001.dat"
    );

    assert!(paths.resolve_asset("res://sprites/player.png").is_err());
    assert!(paths
        .resolve_resource("asset://scenes/main.scene.toml")
        .is_err());
}

#[test]
fn virtual_path_errors_name_the_mistake() {
    let paths = paths();

    assert_eq!(
        paths.resolve_asset("res://sprites/player.png"),
        Err(PathError::AssetSchemeExpected {
            requested: "res://sprites/player.png".to_string(),
            relative: "sprites/player.png".to_string(),
        })
    );
    assert_eq!(
        paths.resolve_resource("scenes/main.toml"),
        Err(PathError::ResourceSchemeMissing {
            requested: "scenes/main.toml".to_string()
        })
    );
    assert_eq!(
        paths.resolve_user("asset://x"),
        Err(PathError::UserSchemeMissing {
            requested: "asset://x".to_string()
        })
    );
    assert_eq!(
        paths.resolve_asset("ftp://x"),
        Err(PathError::UnsupportedScheme {
            requested: "ftp://x".to_string()
        })
    );
    assert_eq!(
        paths.resolve_resource("res://../secret.toml"),
        Err(PathError::Asset(AssetError::PathTraversalRejected(
            "../secret.toml".to_string()
        )))
    );
    assert_eq!(
        paths.resolve_asset("sprites/hero.png").expect("scheme-less asset"),
        "/project/assets/sprites/hero.png"
    );
    assert_eq!(
        PathError::AssetSchemeExpected {
            requested: "res://a.png".to_string(),
            relative: "a.png".to_string()
        }
        .message(),
        "possible wrong scheme: you used res://a.png. Sprites, audio, video, and fonts are assets. Try asset://a.png"
    );
    let parsed = VirtualPath::parse("user://save.dat").expect("parsed");
    assert_eq!(parsed.scheme, VirtualScheme::User);
    assert_eq!(parsed.relative_path(), "save.dat");
}

#[test]
fn diagnostics_report_requested_resolved_and_root() {
    let d = PathDiagnosticError::asset(
        "asset://a.png".to_string(),
        "/p/assets/a.png".to_string(),
        "/p/assets",
        "asset file was not found: /p/assets/a.png".to_string(),
    );

    assert_eq!(
        d.message(),
        "Asset not found or could not be loaded: asset://a.png\n\nResolved path:\n  /p/assets/a.png\n\nConfigured asset root:\n  /p/assets\n\nSuggestions:\n  - Check if the file exists.\n  - Check Seishin.toml root configuration.\n  - Use asset:// for images, audio, video, and fonts.\n  - Use res:// for resources/configuration/scene files.\n\nCause: asset file was not found: /p/assets/a.png"
    );
}

#[test]
fn input_actions_map_button_just_pressed_from_named_keys() {
    let config = InputConfig {
        actions: vec![(
            "interact".to_string(),
            InputActionConfig::Button {
                keys: vec!["Space".to_string(), "Enter".to_string()],
            },
        )],
    };
    let actions = InputActions::from_config(config);
    let mut input = InputState::default();

    input.press(KeyCode::Enter);

    assert!(actions.button_pressed(&input, "interact"));
    assert!(actions.button_just_pressed(&input, "interact"));
    assert!(!actions.button_just_released(&input, "interact"));
}

#[test]
fn input_actions_map_axis2d_from_named_keys() {
    let config = InputConfig {
        actions: vec![(
            "move".to_string(),
            InputActionConfig::Axis2d {
                left: vec!["ArrowLeft".to_string(), "KeyA".to_string()],
                right: vec!["ArrowRight".to_string(), "KeyD".to_string()],
                up: vec!["ArrowUp".to_string(), "KeyW".to_string()],
                down: vec!["ArrowDown".to_string(), "KeyS".to_string()],
            },
        )],
    };
    let actions = InputActions::from_config(config);
    let mut input = InputState::default();

    input.press(KeyCode::KeyD);
    input.press(KeyCode::KeyW);

    assert_eq!(actions.axis2d(&input, "move"), (1, -1));
    assert_eq!(actions.axis2d(&input, "missing"), (0, 0));
}

#[test]
fn later_action_entries_replace_earlier_ones() {
    let config = InputConfig {
        actions: vec![
            (
                "jump".to_string(),
                InputActionConfig::Button {
                    keys: vec!["Space".to_string()],
                },
            ),
            (
                "jump".to_string(),
                InputActionConfig::Button {
                    keys: vec!["Enter".to_string()],
                },
            ),
        ],
    };
    let actions = InputActions::from_config(config);
    let mut input = InputState::default();
    input.press(KeyCode::Space);

    assert!(!actions.button_pressed(&input, "jump"));
    input.press(KeyCode::Enter);
    assert!(actions.button_pressed(&input, "jump"));
    let gameplay = GameplayInput::new(&input, &actions);
    assert!(gameplay.pressed("jump"));
    assert!(gameplay.pressed(KeyCode::Space));
    assert!(!gameplay.pressed(KeyCode::Escape));
    assert_eq!(gameplay.axis2d("jump"), (0, 0));
}

#[test]
fn world_queries_non_renderable_entities() {
    let mut world: World<u32> = World::new();
    let entity = world.spawn_scene_entity(record(Some("Trigger"), &["trigger"], &[]));

    assert_eq!(world.entity_by_name("Trigger"), Some(entity));
    assert_eq!(world.first_with_tag("trigger"), Some(entity));
    assert_eq!(world.entity_by_name("Nobody"), None);
    assert_eq!(world.first_with_tag("npc"), None);
}

#[test]
fn world_entities_with_tag_come_in_id_order() {
    let mut world: World<u32> = World::new();
    let a = world.spawn_scene_entity(record(Some("A"), &["npc"], &[]));
    let _b = world.spawn_scene_entity(record(Some("B"), &["player"], &[]));
    let c = world.spawn_scene_entity(record(
        Some("Merchant"),
        &["npc", "interactable"],
        &[("character", "res://data/characters/merchant.toml")],
    ));

    assert_eq!(a, EntityId::new(1));
    assert_eq!(world.entities_with_tag("npc"), vec![a, c]);
    assert_eq!(world.first_interactable(), Some(c));
    assert_eq!(
        world.data_ref(c, "character"),
        Some("res://data/characters/merchant.toml")
    );
    assert_eq!(world.name(c), Some("Merchant"));
    assert!(world.set_payload(c, 5));
    assert_eq!(world.payload(c), Some(&5));
    assert!(!world.set_payload(EntityId::new(99), 1));
    assert_eq!(world.entity_ids().len(), 3);
}

#[test]
fn dialogue_opens_and_closes() {
    let mut dialogue = DialogueState::new();
    assert!(!dialogue.is_active());

    dialogue.open(
        "Merchant".to_string(),
        DialogueData {
            id: "merchant_intro".to_string(),
            text: "Welcome".to_string(),
        },
    );
    assert!(dialogue.is_active());
    assert_eq!(dialogue.active().expect("shown").speaker, "Merchant");

    dialogue.advance_or_close();
    assert!(!dialogue.is_active());
}

#[test]
fn interact_opens_dialogue_of_first_interactable_character() {
    let mut world: World<u32> = World::new();
    world.spawn_scene_entity(record(
        Some("Merchant"),
        &["interactable"],
        &[("character", "res://data/characters/merchant.toml")],
    ));
    let actions = InputActions::from_config(InputConfig {
        actions: vec![(
            "interact".to_string(),
            InputActionConfig::Button {
                keys: vec!["Space".to_string()],
            },
        )],
    });
    let mut input = InputState::default();
    let mut dialogue = DialogueState::new();

    let idle = GameplayInput::new(&input, &actions);
    assert_eq!(interaction_start(&idle, &mut dialogue, &world), None);

    input.press(KeyCode::Space);
    let pressed = GameplayInput::new(&input, &actions);
    let target = interaction_start(&pressed, &mut dialogue, &world);
    assert_eq!(
        target.as_deref(),
        Some("res://data/characters/merchant.toml")
    );

    let character = CharacterData {
        id: "merchant".to_string(),
        display_name: "Merchant".to_string(),
        sprite: None,
        dialogue: Some(CharacterDialogueData {
            default: "res://data/dialogue/merchant_intro.toml".to_string(),
        }),
    };
    assert_eq!(
        default_dialogue_ref(&character),
        Some("res://data/dialogue/merchant_intro.toml")
    );
    open_character_dialogue(
        &mut dialogue,
        character,
        DialogueData {
            id: "merchant_intro".to_string(),
            text: "Welcome to the prototype village".to_string(),
        },
    );
    assert!(dialogue.is_active());

    assert_eq!(interaction_start(&pressed, &mut dialogue, &world), None);
    assert!(!dialogue.is_active());
}

#[test]
fn app_defaults_and_builders() {
    let app = App::new("Demo")
        .window_size(800, 600)
        .target_fps(30)
        .asset_root("art")
        .clear_color(ClearColor::cornflower())
        .log_level(LogLevel::Debug);

    assert_eq!(app.title(), "Demo");
    assert_eq!((app.width(), app.height()), (800, 600));
    assert_eq!(app.frame_rate(), 30);
    assert_eq!(app.asset_dir(), "art");
    assert_eq!(app.resource_dir(), "resources");
    assert_eq!(app.user_dir(), "user");
    assert_eq!(app.main_scene(), None);
    assert_eq!(app.background(), ClearColor::cornflower());
    assert!(app.logging_enabled());
    assert_eq!(app.log_filter(), "debug");

    let plain = App::new("Plain");
    assert_eq!((plain.width(), plain.height(), plain.frame_rate()), (1280, 720, 60));
    assert_eq!(plain.background(), ClearColor::black());
    assert!(!plain.logging_enabled());
    assert_eq!(plain.log_filter(), "info");
    assert_eq!(LogLevel::Trace.as_filter(), "trace");
}

#[test]
fn project_config_fills_missing_values_with_defaults() {
    let project = ProjectConfig {
        game: Some(GameConfig {
            name: Some("Village".to_string()),
            main_scene: Some("res://scenes/main.scene.toml".to_string()),
        }),
        window: Some(WindowProjectConfig {
            width: None,
            height: Some(480),
            target_fps: None,
            clear_color: Some("CornflowerBlue".to_string()),
        }),
        resources: None,
        assets: Some(RootConfig {
            root: Some("art".to_string()),
        }),
        user: None,
        logging: Some(LoggingProjectConfig {
            default_filter: None,
        }),
        input: None,
    };
    let app = App::from_project_config(project, "/games/village");

    assert_eq!(app.title(), "Village");
    assert_eq!((app.width(), app.height(), app.frame_rate()), (1280, 480, 60));
    assert_eq!(app.asset_dir(), "/games/village/art");
    assert_eq!(app.resource_dir(), "/games/village/resources");
    assert_eq!(app.user_dir(), "/games/village/user");
    assert_eq!(app.main_scene(), Some("res://scenes/main.scene.toml"));
    assert_eq!(app.background(), ClearColor::cornflower());
    assert!(app.logging_enabled());
    assert_eq!(app.log_filter(), "info");

    let empty = App::from_project_config(ProjectConfig::default(), "/g");
    assert_eq!(empty.title(), "seishin2d");
    assert_eq!(empty.background(), ClearColor::black());
    let paths = empty.project_paths();
    assert_eq!(paths.asset_root, "/g/assets");
}

#[test]
fn clear_color_names_ignore_ascii_case() {
    assert_eq!(parse_clear_color("BLACK"), Some(ClearColor::black()));
    assert_eq!(parse_clear_color("cornflower"), Some(ClearColor::cornflower()));
    assert_eq!(parse_clear_color("red"), None);
}

#[test]
fn dialogue_resources_load_from_character_data() {
    let resources = Resources::new(paths());

    assert_eq!(
        resources
            .resource_file("res://data/characters/merchant.toml")
            .expect("resolved"),
        "/project/resources/data/characters/merchant.toml"
    );
    let character = resources
        .character(
            "res://data/characters/merchant.toml",
            Ok(CharacterData {
                id: "merchant".to_string(),
                display_name: "Merchant".to_string(),
                sprite: None,
                dialogue: Some(CharacterDialogueData {
                    default: "res://data/dialogue/merchant_intro.toml".to_string(),
                }),
            }),
        )
        .expect("merchant character");
    let dialogue_path = character
        .dialogue
        .as_ref()
        .expect("dialogue ref")
        .default
        .as_str();
    let dialogue = resources
        .dialogue(
            dialogue_path,
            Ok(DialogueData {
                id: "merchant_intro".to_string(),
                text: "Welcome to the prototype village.".to_string(),
            }),
        )
        .expect("dialogue data");

    assert_eq!(character.display_name, "Merchant");
    assert_eq!(dialogue.id, "merchant_intro");
    assert!(dialogue.text.contains("prototype village"));

    let failed = resources
        .dialogue("res://data/dialogue/missing.toml", Err("entity not found".to_string()))
        .expect_err("missing dialogue");
    match failed {
        GameError::Diagnostic(d) => {
            assert_eq!(d.resolved, "/project/resources/data/dialogue/missing.toml");
            assert_eq!(d.root, "/project/resources");
            assert_eq!(d.cause, "entity not found");
        }
        other => panic!("unexpected error {other:?}"),
    }
    assert!(matches!(
        resources.dialogue("asset://x.toml", Ok(DialogueData {
            id: String::new(),
            text: String::new()
        })),
        Err(GameError::Path(PathError::ResourceSchemeExpected { .. }))
    ));
}

#[test]
fn textures_get_fresh_ids_and_checked_data() {
    let root = AssetRoot::new("/game/assets", RootProbe::Verbatim).expect("root");
    let mut assets = Assets::new(root);
    let loader = AssetLoader::new(AssetRoot::new("/game/assets", RootProbe::Verbatim).expect("root"));
    let image = || {
        loader
            .load_image("/game/assets/a.png".to_string(), Ok(png_1x1()))
            .expect("decoded")
    };

    let first = assets.load_texture("asset://a.png", Ok(image())).expect("texture");
    let second = assets.texture("a.png", Ok(image())).expect("texture");
    assert_eq!(first.id(), TextureId::new(1));
    assert_eq!(second.id(), TextureId::new(2));
    assert_eq!(first.data().width(), 1);
    assert_eq!(first.data().pixels_rgba8(), &[0, 255, 0, 255]);

    let missing = assets
        .load_texture("asset://gone.png", Err(AssetError::NotFound("/game/assets/gone.png".to_string())))
        .expect_err("missing");
    match missing {
        GameError::Diagnostic(d) => {
            assert_eq!(d.requested, "asset://gone.png");
            assert_eq!(d.resolved, "/game/assets/gone.png");
            assert_eq!(d.cause, "asset file was not found: /game/assets/gone.png");
        }
        other => panic!("unexpected error {other:?}"),
    }
    assert!(matches!(
        assets.load_texture("res://a.png", Ok(image())),
        Err(GameError::Path(PathError::AssetSchemeExpected { .. }))
    ));
    let third = assets.load_texture("a.png", Ok(image())).expect("texture");
    assert_eq!(third.id(), TextureId::new(3));
    assert!(asset_path_for("../x.png").is_err());
    assert_eq!(asset_path_for("asset://./x.png").expect("ok").as_str(), "x.png");
    let _ = IoErrorKind::NotFound;
}

#[test]
fn texture_data_must_fit_its_size() {
    let ok = TextureData::rgba8(TextureId::new(7), 1, 1, vec![255, 255, 255, 255]).expect("valid");
    assert_eq!(ok.id(), TextureId::new(7));
    assert!(matches!(
        TextureData::rgba8(TextureId::new(7), 0, 1, vec![]),
        Err(RenderError::InvalidTextureData { .. })
    ));
    let short = TextureData::rgba8(TextureId::new(8), 2, 2, vec![0; 15]).expect_err("short");
    assert_eq!(
        short.message(),
        "invalid texture data for texture 8: RGBA8 pixel data must hold width * height * 4 bytes"
    );
    assert_eq!(
        RenderError::MissingTexture(TextureId::new(12345)).message(),
        "sprite referenced unknown texture 12345"
    );
}

fn png_1x1() -> Vec<u8> {
    let mut bytes = Vec::new();
    PngEncoder::new(&mut bytes)
        .write_image(&[0, 255, 0, 255], 1, 1, ColorType::Rgba8)
        .expect("encode png fixture");
    bytes
}

#[test]
fn asset_path_type_is_exported() {
    let p = AssetPath::new("a/b.png").expect("ok");
    assert_eq!(p.as_path(), "a/b.png");
}

#[test]
fn resolved_paths_start_with_their_root() {
    use_starts_with();
}

fn use_starts_with() {
    let paths = paths();
    for requested in ["asset://a/./b.png", "sprites//x.png", "asset://."] {
        let resolved = paths.resolve_asset(requested).expect("resolves");
        assert!(seishin2d::asset_path::starts_with_path(&resolved, "/project/assets"));
    }
    let resolved = paths.resolve_resource("res://data/x.toml").expect("resolves");
    assert!(seishin2d::asset_path::starts_with_path(&resolved, "/project/resources"));
}

#[test]
fn loaded_texture_data_carries_the_texture_id() {
    let mut assets = Assets::new(AssetRoot::new("/game/assets", RootProbe::Verbatim).expect("root"));
    let loader = AssetLoader::new(AssetRoot::new("/game/assets", RootProbe::Verbatim).expect("root"));
    for k in 1..=3u64 {
        let image = loader
            .load_image("/game/assets/a.png".to_string(), Ok(png_1x1()))
            .expect("decoded");
        let texture = assets.load_texture("asset://a.png", Ok(image)).expect("texture");
        assert_eq!(texture.id(), TextureId::new(k));
        assert_eq!(texture.data().id(), texture.id());
    }
}
