use seishin2d::engine::{Engine, EngineConfig, EngineError, EntityId};
use seishin2d::ffi::{create_engine, engine_config_from_ffi, FfiAppName, SeishinStatus};

fn delta_is_valid(delta: f32) -> bool {
    delta.is_finite() && delta >= 0.0
}

#[test]
fn entity_id_round_trips_raw_value() {
    let entity = EntityId::new(42);

    assert_eq!(entity.raw(), 42);
}

#[test]
fn config_rejects_empty_app_name() {
    let result = Engine::new(EngineConfig {
        app_name: " ".to_string(),
        target_fps: 60,
    });

    assert!(matches!(result, Err(EngineError::InvalidConfig(_))));
}

#[test]
fn engine_advances_frames() {
    let mut engine = Engine::new(EngineConfig::default()).unwrap();

    let frame = engine.tick(delta_is_valid(1.0 / 60.0)).unwrap();

    assert_eq!(engine.frame(), 1);
    assert_eq!(frame, 1);
}

#[test]
fn tick_rejects_invalid_delta_time() {
    let mut engine = Engine::new(EngineConfig::default()).unwrap();

    assert_eq!(
        engine.tick(delta_is_valid(f32::NAN)),
        Err(EngineError::InvalidDeltaTime)
    );
    assert_eq!(
        engine.tick(delta_is_valid(-0.1)),
        Err(EngineError::InvalidDeltaTime)
    );
    assert_eq!(engine.frame(), 0);
}

#[test]
fn config_rejects_zero_target_fps_with_message() {
    let result = Engine::new(EngineConfig::new("game").with_target_fps(0));

    assert_eq!(
        result.err(),
        Some(EngineError::InvalidConfig(
            "target_fps must be greater than zero".to_string()
        ))
    );
}

#[test]
fn default_engine_config_is_valid() {
    let config = EngineConfig::default();

    assert_eq!(config.app_name, "seishin game");
    assert_eq!(config.target_fps, 60);
    assert!(config.validate().is_ok());
}

#[test]
fn engine_errors_render_their_messages() {
    assert_eq!(
        EngineError::InvalidConfig("x".to_string()).message(),
        "invalid engine config: x"
    );
    assert_eq!(
        EngineError::InvalidDeltaTime.message(),
        "delta time must be finite and non-negative"
    );
    assert_eq!(
        EngineError::Runtime("boom".to_string()).message(),
        "runtime error: boom"
    );
}

#[test]
fn ffi_engine_can_create_tick_report_frame_and_destroy() {
    let mut engine = match create_engine(FfiAppName::Text("ffi test".to_string()), 60) {
        Ok(engine) => engine,
        Err(status) => panic!("create failed: {status:?}"),
    };

    assert_eq!(engine.tick(delta_is_valid(1.0 / 60.0)), SeishinStatus::Success);
    assert_eq!(engine.frame(), 1);
}

#[test]
fn ffi_rejects_invalid_config() {
    assert_eq!(
        create_engine(FfiAppName::Text(" ".to_string()), 60).err(),
        Some(SeishinStatus::InvalidArgument)
    );
    assert_eq!(
        create_engine(FfiAppName::Null, 0).err(),
        Some(SeishinStatus::InvalidArgument)
    );
}

#[test]
fn ffi_rejects_invalid_delta_time() {
    let mut engine = match create_engine(FfiAppName::Text("ffi test".to_string()), 60) {
        Ok(engine) => engine,
        Err(status) => panic!("create failed: {status:?}"),
    };

    assert_eq!(
        engine.tick(delta_is_valid(f32::NAN)),
        SeishinStatus::InvalidArgument
    );
    assert_eq!(
        engine.tick(delta_is_valid(-0.1)),
        SeishinStatus::InvalidArgument
    );
    assert_eq!(engine.frame(), 0);
}

#[test]
fn ffi_null_name_uses_default_and_bad_utf8_is_refused() {
    let config = engine_config_from_ffi(FfiAppName::Null, 30).expect("config");
    assert_eq!(config.app_name, "seishin game");
    assert_eq!(config.target_fps, 30);
    assert!(engine_config_from_ffi(FfiAppName::InvalidUtf8, 30).is_none());
    assert_eq!(
        create_engine(FfiAppName::InvalidUtf8, 60).err(),
        Some(SeishinStatus::InvalidArgument)
    );
    let engine = create_engine(FfiAppName::Null, 60).expect("default engine");
    assert_eq!(engine.frame(), 0);
}

#[test]
fn kth_tick_reports_start_frame_plus_k() {
    let mut engine = Engine::new(EngineConfig::default()).unwrap();
    engine.tick(true).unwrap();
    engine.tick(true).unwrap();
    let start = engine.frame();
    for k in 1..=5u64 {
        assert_eq!(engine.tick(true), Ok(start + k));
    }
    assert_eq!(engine.tick(false), Err(EngineError::InvalidDeltaTime));
    assert_eq!(engine.frame(), start + 5);
}
