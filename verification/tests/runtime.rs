use seishin2d::engine::{Engine, EngineConfig, EngineError, EngineResult};
use seishin2d::platform::{
    manifest_asset_paths, discover_project_file, ensure_readable_file, project_candidate, validate_main_scene,
    web_buffer_bytes, web_path, web_status, web_text_bytes, WebCache,
};
use seishin2d::asset_path::{AssetError, IoErrorKind};
use seishin2d::paths::ProjectPaths;
use seishin2d::project::GameError;
use seishin2d::render::{
    check_sprite_textures, surface_plan, ClearColor, FramePlan, RenderContext, RenderError,
    SurfaceAcquire, Texture, TextureData, TextureId,
};
use seishin2d::runtime::{
    DesktopLoop, DesktopRuntimeError, HeadlessAction, HeadlessRun, HeadlessRunConfig,
    LoopAction, LoopEvent, WindowConfig, WindowSize,
};
use seishin2d::scene::{
    ComponentRegistry, EntityBlueprint, MainSceneState, PrefabComponent, SceneEntityConfig,
};
use seishin2d::world::World;

#[derive(Debug, Clone, Copy, PartialEq, Eq)]
enum Event {
    Ready,
    Update,
    Shutdown,
}

struct CountingGame {
    events: Vec<Event>,
    updates: u64,
    frames: Vec<u64>,
    deltas: Vec<f32>,
}

impl CountingGame {
    fn new() -> Self {
        CountingGame {
            events: Vec::new(),
            updates: 0,
            frames: Vec::new(),
            deltas: Vec::new(),
        }
    }
}

fn run_headless(
    engine: &mut Engine,
    game: &mut CountingGame,
    run: HeadlessRunConfig,
    fps: u32,
) -> EngineResult<()> {
    let delta = 1.0 / fps as f32;
    let mut headless = HeadlessRun::new(run);
    let mut action = headless.start();
    loop {
        let outcome = match action {
            HeadlessAction::CallReady => {
                game.events.push(Event::Ready);
                Ok(())
            }
            HeadlessAction::CallUpdate { frame } => {
                game.events.push(Event::Update);
                game.updates += 1;
                game.frames.push(frame);
                game.deltas.push(delta);
                Ok(())
            }
            HeadlessAction::CallShutdown => {
                game.events.push(Event::Shutdown);
                Ok(())
            }
            HeadlessAction::Finish(result) => return result,
        };
        action = headless.resume(engine, delta.is_finite() && delta >= 0.0, outcome);
    }
}

#[test]
fn headless_runtime_advances_expected_frames() {
    let mut engine = Engine::new(EngineConfig::default()).unwrap();
    let mut game = CountingGame::new();

    run_headless(&mut engine, &mut game, HeadlessRunConfig { frames: 3 }, 60).unwrap();

    assert_eq!(engine.frame(), 3);
    assert_eq!(game.updates, 3);
    assert_eq!(
        game.events,
        vec![
            Event::Ready,
            Event::Update,
            Event::Update,
            Event::Update,
            Event::Shutdown
        ]
    );
}

#[test]
fn zero_frame_headless_run_is_ready_then_shutdown_only() {
    let mut engine = Engine::new(EngineConfig::default()).unwrap();
    let mut game = CountingGame::new();

    run_headless(&mut engine, &mut game, HeadlessRunConfig { frames: 0 }, 60).unwrap();

    assert_eq!(engine.frame(), 0);
    assert_eq!(game.updates, 0);
    assert_eq!(game.events, vec![Event::Ready, Event::Shutdown]);
}

#[test]
fn headless_runtime_produces_deterministic_update_contexts() {
    let mut engine = Engine::new(EngineConfig::default()).unwrap();
    let mut game = CountingGame::new();

    run_headless(&mut engine, &mut game, HeadlessRunConfig { frames: 3 }, 120).unwrap();

    assert_eq!(
        game.events,
        vec![
            Event::Ready,
            Event::Update,
            Event::Update,
            Event::Update,
            Event::Shutdown
        ]
    );
    assert_eq!(game.frames, vec![1, 2, 3]);
    assert_eq!(game.deltas, vec![1.0 / 120.0; 3]);
}

#[test]
fn headless_failures_end_the_run_without_shutdown() {
    let mut engine = Engine::new(EngineConfig::default()).unwrap();
    let mut run = HeadlessRun::new(HeadlessRunConfig { frames: 2 });
    assert_eq!(run.start(), HeadlessAction::CallReady);
    assert_eq!(
        run.resume(&mut engine, true, Ok(())),
        HeadlessAction::CallUpdate { frame: 1 }
    );
    let failure = EngineError::Runtime("update failed".to_string());
    assert_eq!(
        run.resume(&mut engine, true, Err(failure.clone())),
        HeadlessAction::Finish(Err(failure))
    );
    assert_eq!(engine.frame(), 1);

    let mut engine = Engine::new(EngineConfig::default()).unwrap();
    let mut run = HeadlessRun::new(HeadlessRunConfig { frames: 2 });
    run.start();
    assert_eq!(
        run.resume(&mut engine, false, Ok(())),
        HeadlessAction::Finish(Err(EngineError::InvalidDeltaTime))
    );
    assert_eq!(engine.frame(), 0);
}

#[test]
fn desktop_loop_runs_frames_until_close_then_shuts_down_once() {
    let mut state = DesktopLoop::new();
    assert_eq!(state.step(LoopEvent::ReadyFinished(Ok(()))), LoopAction::Continue);

    assert_eq!(
        state.step(LoopEvent::FrameDue { escape_requested: false }),
        LoopAction::RunFrame
    );
    assert_eq!(state.step(LoopEvent::FrameFinished(Ok(()))), LoopAction::EndFrame);
    assert_eq!(state.step(LoopEvent::CloseRequested), LoopAction::Continue);
    assert_eq!(
        state.step(LoopEvent::FrameDue { escape_requested: false }),
        LoopAction::CallShutdown
    );
    assert_eq!(state.step(LoopEvent::ShutdownFinished(Ok(()))), LoopAction::Exit);
    assert_eq!(state.step(LoopEvent::LoopExiting), LoopAction::Continue);
    assert_eq!(
        state.step(LoopEvent::FrameDue { escape_requested: true }),
        LoopAction::Exit
    );
    assert!(state.finish().is_ok());
}

#[test]
fn desktop_loop_reports_the_first_error() {
    let mut state = DesktopLoop::new();
    assert_eq!(state.step(LoopEvent::ReadyFinished(Ok(()))), LoopAction::Continue);
    let frame_error = DesktopRuntimeError::Engine(EngineError::InvalidDeltaTime);

    assert_eq!(
        state.step(LoopEvent::FrameDue { escape_requested: false }),
        LoopAction::RunFrame
    );
    assert_eq!(
        state.step(LoopEvent::FrameFinished(Err(frame_error.clone()))),
        LoopAction::CallShutdown
    );
    assert_eq!(
        state.step(LoopEvent::ShutdownFinished(Err(EngineError::Runtime(
            "shutdown failed".to_string()
        )))),
        LoopAction::Exit
    );
    assert_eq!(state.step(LoopEvent::LoopExiting), LoopAction::Continue);
    assert_eq!(state.finish(), Err(frame_error));
}

#[test]
fn desktop_loop_escape_and_loop_exit_paths() {
    let mut state = DesktopLoop::new();
    assert_eq!(state.step(LoopEvent::ReadyFinished(Ok(()))), LoopAction::Continue);
    assert_eq!(
        state.step(LoopEvent::FrameDue { escape_requested: true }),
        LoopAction::CallShutdown
    );
    assert_eq!(
        state.step(LoopEvent::FrameDue { escape_requested: false }),
        LoopAction::Continue
    );
    let failure = EngineError::Runtime("save failed".to_string());
    assert_eq!(
        state.step(LoopEvent::ShutdownFinished(Err(failure.clone()))),
        LoopAction::Exit
    );
    assert_eq!(state.finish(), Err(DesktopRuntimeError::Engine(failure)));

    let mut state = DesktopLoop::new();
    assert_eq!(state.step(LoopEvent::ReadyFinished(Ok(()))), LoopAction::Continue);
    assert_eq!(state.step(LoopEvent::LoopExiting), LoopAction::CallShutdown);
    assert_eq!(state.step(LoopEvent::ShutdownFinished(Ok(()))), LoopAction::Continue);
    assert_eq!(state.step(LoopEvent::LoopExiting), LoopAction::Continue);
    assert!(state.finish().is_ok());
    assert_eq!(
        DesktopRuntimeError::Os("no display".to_string()).message(),
        "os error: no display"
    );
}

#[test]
fn window_configuration_defaults() {
    let config = WindowConfig::default();
    assert_eq!(config.title, "seishin2d");
    assert_eq!(config.size, WindowSize::new(1280, 720));
    let custom = WindowConfig::new("Demo", 640, 360);
    assert_eq!(custom.size.width, 640);
}

#[test]
fn project_discovery_prefers_nearest_ancestor() {
    let ancestors = vec![
        (project_candidate("/a/b"), false),
        (project_candidate("/a"), true),
        (project_candidate("/"), true),
    ];
    assert_eq!(
        discover_project_file(&ancestors, &Vec::new()),
        Ok("/a/Seishin.toml".to_string())
    );

    let none = vec![(project_candidate("/a"), false)];
    let one = vec![
        ("/a/examples/x/Seishin.toml".to_string(), false),
        ("/a/examples/y/Seishin.toml".to_string(), true),
    ];
    assert_eq!(
        discover_project_file(&none, &one),
        Ok("/a/examples/y/Seishin.toml".to_string())
    );
    assert!(matches!(
        discover_project_file(&none, &Vec::new()),
        Err(GameError::Message(_))
    ));
    let two = vec![
        ("/a/examples/x/Seishin.toml".to_string(), true),
        ("/a/examples/y/Seishin.toml".to_string(), true),
    ];
    assert_eq!(
        discover_project_file(&none, &two),
        Err(GameError::Message(
            "multiple Seishin.toml files found; use App::from_project(path)".to_string()
        ))
    );
}

#[test]
fn main_scene_must_exist() {
    let paths = ProjectPaths::new(
        "/p/assets".to_string(),
        "/p/resources".to_string(),
        "/p/user".to_string(),
    );
    assert!(validate_main_scene("res://scenes/main.scene.toml", &paths, true).is_ok());
    match validate_main_scene("res://scenes/main.scene.toml", &paths, false) {
        Err(GameError::Diagnostic(d)) => {
            assert_eq!(d.resolved, "/p/resources/scenes/main.scene.toml");
            assert_eq!(d.cause, "main scene file not found");
        }
        other => panic!("unexpected {other:?}"),
    }
    assert!(matches!(
        validate_main_scene("scenes/main.scene.toml", &paths, true),
        Err(GameError::Path(_))
    ));
    assert_eq!(ensure_readable_file(false), Err(IoErrorKind::NotFound));
    assert_eq!(ensure_readable_file(true), Ok(()));
}

#[test]
fn web_caches_serve_preloaded_files() {
    let mut texts: WebCache<String> = WebCache::new();
    texts.insert("res/a.toml".to_string(), "one".to_string());
    texts.insert("res/a.toml".to_string(), "two".to_string());
    assert_eq!(texts.read_to_string("res\\a.toml"), Ok("two".to_string()));
    assert_eq!(texts.read_to_string("res/b.toml"), Err(IoErrorKind::NotFound));
    assert_eq!(web_path("a\\b\\c"), "a/b/c");

    let mut bytes: WebCache<Vec<u8>> = WebCache::new();
    bytes.insert("assets/x.png".to_string(), vec![1, 2, 3]);
    assert_eq!(bytes.read_bytes("assets/x.png"), Ok(vec![1, 2, 3]));
    assert_eq!(
        bytes.read_bytes("assets/y.png"),
        Err(AssetError::NotFound("assets/y.png".to_string()))
    );
}

#[test]
fn render_context_collects_a_frame() {
    let mut ctx: RenderContext<u8, u32> = RenderContext::new(ClearColor::black(), 0);
    let texture = Texture::new(
        TextureData::rgba8(TextureId::new(7), 1, 1, vec![255, 255, 255, 255]).expect("valid"),
    );
    ctx.texture(&texture);
    ctx.sprite(42);
    ctx.camera(3);
    ctx.clear(ClearColor::cornflower());

    assert_eq!(ctx.textures().len(), 1);
    assert_eq!(ctx.textures()[0].id(), TextureId::new(7));
    assert_eq!(ctx.sprites(), &[42]);
    assert_eq!(*ctx.camera_ref(), 3);
    assert_eq!(ctx.clear_color(), ClearColor::cornflower());
    ctx.reset();
    assert!(ctx.sprites().is_empty());
    assert!(ctx.textures().is_empty());
}

#[test]
fn unknown_scene_component_reports_clear_error() {
    let registry: ComponentRegistry<u8> = ComponentRegistry::new();
    let blueprint = EntityBlueprint::new(
        Some("Player".to_string()),
        Some(vec!["player".to_string()]),
        vec![("PlayerController".to_string(), ())],
    );

    let error = blueprint
        .validate_custom_components(&registry)
        .expect_err("unregistered PlayerController must fail");

    match error {
        GameError::Message(m) => assert!(m.contains("unknown component type 'PlayerController'")),
        other => panic!("unexpected {other:?}"),
    }
}

#[test]
fn scene_entries_override_prefab_fields() {
    let mut registry: ComponentRegistry<u8> = ComponentRegistry::new();
    assert!(registry.register(" ", 0).is_err());
    assert!(registry.register("PlayerController", 1).is_ok());
    assert!(registry.register("Wander", 2).is_ok());
    assert!(registry.contains("PlayerController"));
    assert_eq!(registry.factory("Wander").ok(), Some(&2));
    assert!(registry.factory("Nope").is_err());

    let mut blueprint = EntityBlueprint::new(
        Some("Prefab".to_string()),
        Some(vec!["npc".to_string()]),
        vec![("Wander".to_string(), 10u32), ("PlayerController".to_string(), 11)],
    );
    blueprint.apply_scene(SceneEntityConfig {
        name: Some("Player".to_string()),
        tags: None,
        data: Some(vec![(
            "character".to_string(),
            "res://data/characters/player.toml".to_string(),
        )]),
        components: vec![("Wander".to_string(), 20)],
    });
    assert!(blueprint.validate_custom_components(&registry).is_ok());

    let paths = ProjectPaths::new(
        "/p/assets".to_string(),
        "/p/resources".to_string(),
        "/p/user".to_string(),
    );
    assert!(blueprint.validate_data_refs(&paths, &vec![true]).is_ok());
    assert!(matches!(
        blueprint.validate_data_refs(&paths, &vec![false]),
        Err(GameError::Diagnostic(_))
    ));

    let (record, components) = blueprint.into_parts(0u8);
    assert_eq!(record.name.as_deref(), Some("Player"));
    assert_eq!(record.tags, vec!["npc".to_string()]);
    assert_eq!(
        record.custom_components,
        vec!["PlayerController".to_string(), "Wander".to_string()]
    );
    assert_eq!(components[1], ("Wander".to_string(), 20));

    let mut world: World<u8> = World::new();
    let player = world.spawn_scene_entity(record);
    assert!(world.has_custom_component(player, "Wander"));
    assert_eq!(
        world.data_ref(player, "character"),
        Some("res://data/characters/player.toml")
    );
}

#[test]
fn asset_manifest_lists_trimmed_non_blank_lines() {
    assert_eq!(
        manifest_asset_paths("assets/a.png\n\n  assets/b.wav \r\n\t\nassets/c.png"),
        vec![
            "assets/a.png".to_string(),
            "assets/b.wav".to_string(),
            "assets/c.png".to_string()
        ]
    );
    assert!(manifest_asset_paths("").is_empty());
    assert!(manifest_asset_paths(" \n \n").is_empty());
}

fn prefab_entry(key: &str, kind: Option<&str>, config: u32) -> PrefabComponent<u32> {
    PrefabComponent {
        key: key.to_string(),
        value: None,
        values: None,
        kind: kind.map(|k| k.to_string()),
        config,
    }
}

#[test]
fn prefab_tables_become_blueprint_parts() {
    let mut name = prefab_entry("name", None, 0);
    name.value = Some("player".to_string());
    let mut tags = prefab_entry("tags", None, 0);
    tags.values = Some(vec!["hero".to_string(), "blue".to_string()]);
    let blueprint = EntityBlueprint::from_prefab(vec![
        prefab_entry("health", Some("Health"), 1),
        name,
        prefab_entry("transform", Some("Transform"), 2),
        prefab_entry("sprite", Some("Sprite"), 3),
        tags,
        prefab_entry("note", None, 4),
        prefab_entry("speed", Some("Speed"), 5),
        prefab_entry("health_bonus", Some("Health"), 6),
    ]);
    assert_eq!(blueprint.name, Some("player".to_string()));
    assert_eq!(blueprint.tags, Some(vec!["hero".to_string(), "blue".to_string()]));
    assert!(blueprint.data_refs.is_empty());
    assert_eq!(
        blueprint.components,
        vec![
            ("Health".to_string(), 1),
            ("Speed".to_string(), 5),
            ("Health".to_string(), 6)
        ]
    );
}

#[test]
fn later_prefab_name_and_tags_tables_win() {
    let mut first = prefab_entry("name", None, 0);
    first.value = Some("a".to_string());
    let second = prefab_entry("name", None, 0);
    let mut tags = prefab_entry("tags", None, 0);
    tags.values = Some(vec!["x".to_string()]);
    let blueprint = EntityBlueprint::from_prefab(vec![first, tags, second]);
    assert_eq!(blueprint.name, None);
    assert_eq!(blueprint.tags, Some(vec!["x".to_string()]));
    assert!(blueprint.components.is_empty());
    let empty: EntityBlueprint<u32> = EntityBlueprint::from_prefab(Vec::new());
    assert_eq!(empty.name, None);
    assert_eq!(empty.tags, None);
    assert!(empty.components.is_empty());
}

#[test]
fn desktop_loop_waits_for_ready_and_stops_when_it_fails() {
    let mut state = DesktopLoop::new();
    assert_eq!(
        state.step(LoopEvent::FrameDue { escape_requested: false }),
        LoopAction::Continue
    );
    assert_eq!(state.step(LoopEvent::LoopExiting), LoopAction::Continue);
    let failure = EngineError::Runtime("ready failed".to_string());
    assert_eq!(state.step(LoopEvent::ReadyFinished(Err(failure.clone()))), LoopAction::Exit);
    assert_eq!(state.step(LoopEvent::ReadyFinished(Ok(()))), LoopAction::Continue);
    assert_eq!(
        state.step(LoopEvent::FrameDue { escape_requested: false }),
        LoopAction::Continue
    );
    assert_eq!(state.step(LoopEvent::LoopExiting), LoopAction::Continue);
    assert_eq!(state.finish(), Err(DesktopRuntimeError::Engine(failure)));

    let mut state = DesktopLoop::new();
    assert_eq!(state.step(LoopEvent::ReadyFinished(Ok(()))), LoopAction::Continue);
    assert_eq!(state.step(LoopEvent::ReadyFinished(Ok(()))), LoopAction::Continue);
    assert_eq!(
        state.step(LoopEvent::FrameDue { escape_requested: false }),
        LoopAction::RunFrame
    );
    assert_eq!(state.step(LoopEvent::FrameFinished(Ok(()))), LoopAction::EndFrame);
    assert_eq!(state.step(LoopEvent::LoopExiting), LoopAction::CallShutdown);
    assert_eq!(state.step(LoopEvent::ShutdownFinished(Ok(()))), LoopAction::Continue);
    assert_eq!(
        state.step(LoopEvent::FrameDue { escape_requested: false }),
        LoopAction::Exit
    );
    assert!(state.finish().is_ok());
}

#[test]
fn main_scene_is_loaded_once() {
    let mut state = MainSceneState::new(Some("res://scenes/main.toml".to_string()));
    assert_eq!(state.pending(), Some("res://scenes/main.toml".to_string()));
    // A failed load marks nothing, so the scene is still to be loaded.
    assert_eq!(state.pending(), Some("res://scenes/main.toml".to_string()));
    state.mark_loaded();
    assert_eq!(state.pending(), None);
    state.mark_loaded();
    assert_eq!(state.pending(), None);

    let none = MainSceneState::new(None);
    assert_eq!(none.pending(), None);
}

#[test]
fn web_responses_map_status_and_body() {
    assert_eq!(web_status("assets/a.png", Some(200)), Ok(()));
    assert_eq!(web_status("assets/a.png", Some(299)), Ok(()));
    assert_eq!(
        web_status("assets/a.png", Some(404)),
        Err(AssetError::NotFound("assets/a.png".to_string()))
    );
    let other = Err(AssetError::Io {
        path: "assets/a.png".to_string(),
        kind: IoErrorKind::Other,
    });
    assert_eq!(web_status("assets/a.png", Some(500)), other);
    assert_eq!(web_status("assets/a.png", Some(300)), other);
    assert_eq!(web_status("assets/a.png", None), other);

    assert_eq!(
        web_text_bytes("a.bin", Some(200), Ok(Some(vec![0xF7FF, 0x0041, 0x0100]))),
        Ok(vec![0xFF, 0x41, 0x00])
    );
    assert_eq!(
        web_text_bytes("a.bin", Some(200), Ok(None)),
        Err(AssetError::Io {
            path: "a.bin".to_string(),
            kind: IoErrorKind::UnexpectedEof
        })
    );
    assert_eq!(
        web_text_bytes("a.bin", Some(200), Err(())),
        Err(AssetError::Io {
            path: "a.bin".to_string(),
            kind: IoErrorKind::Other
        })
    );
    assert_eq!(
        web_text_bytes("a.bin", Some(404), Ok(Some(vec![1]))),
        Err(AssetError::NotFound("a.bin".to_string()))
    );
    assert_eq!(web_buffer_bytes("a.bin", Some(204), Ok(vec![1, 2, 3])), Ok(vec![1, 2, 3]));
    assert_eq!(
        web_buffer_bytes("a.bin", Some(201), Err(())),
        Err(AssetError::Io {
            path: "a.bin".to_string(),
            kind: IoErrorKind::Other
        })
    );
    assert_eq!(
        web_buffer_bytes("a.bin", None, Ok(vec![1])),
        Err(AssetError::Io {
            path: "a.bin".to_string(),
            kind: IoErrorKind::Other
        })
    );
}

#[test]
fn frames_follow_the_surface_and_need_known_textures() {
    assert_eq!(surface_plan(SurfaceAcquire::Acquired), Ok(FramePlan::Draw));
    assert_eq!(surface_plan(SurfaceAcquire::Lost), Ok(FramePlan::Reconfigure));
    assert_eq!(surface_plan(SurfaceAcquire::Outdated), Ok(FramePlan::Reconfigure));
    assert_eq!(surface_plan(SurfaceAcquire::Timeout), Ok(FramePlan::Skip));
    assert_eq!(
        surface_plan(SurfaceAcquire::OutOfMemory),
        Err(RenderError::SurfaceOutOfMemory)
    );

    let known = vec![TextureId::new(0), TextureId::new(1), TextureId::new(2)];
    assert_eq!(check_sprite_textures(&known, &Vec::new()), Ok(()));
    assert_eq!(
        check_sprite_textures(&known, &vec![TextureId::new(2), TextureId::new(0), TextureId::new(2)]),
        Ok(())
    );
    assert_eq!(
        check_sprite_textures(&known, &vec![TextureId::new(1), TextureId::new(5), TextureId::new(7)]),
        Err(RenderError::MissingTexture(TextureId::new(5)))
    );
}
