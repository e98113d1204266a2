use image::{codecs::png::PngEncoder, ColorType, ImageEncoder};
use seishin2d::asset_path::{
    asset_root, canonical_asset_path, join_paths, starts_with_path, AssetError, AssetPath,
    AssetRoot, FileProbe, IoErrorKind, RootProbe,
};
use seishin2d::assets::{decode_image, AssetHandle, AssetLoader, ImageAsset};
use seishin2d::audio::{
    resolve_sound_asset, AudioCommand, AudioError, AudioSkipReason, AudioSystem,
    PlaybackResult, SoundAsset,
};

fn valid_png_bytes() -> Vec<u8> {
    let mut bytes = Vec::new();
    PngEncoder::new(&mut bytes)
        .write_image(&[255, 0, 0, 255], 1, 1, ColorType::Rgba8)
        .expect("encode png fixture");
    bytes
}

fn root(path: &str) -> AssetRoot {
    AssetRoot::new(
        path,
        RootProbe::Canonical {
            path: path.to_string(),
            is_dir: true,
        },
    )
    .expect("asset root")
}

#[test]
fn asset_paths_are_normalized_without_leaving_root() {
    let path = AssetPath::new("sprites/./player.png").expect("valid asset path");

    assert_eq!(path.as_str(), "sprites/player.png");
}

#[test]
fn asset_paths_reject_parent_directory_traversal() {
    let error = AssetPath::new("../secrets.png").expect_err("parent traversal must fail");

    assert_eq!(
        error,
        AssetError::PathTraversalRejected("../secrets.png".to_string())
    );
}

#[test]
fn asset_paths_reject_absolute_paths() {
    let absolute_path = "/tmp/seishin2d_assets_test/outside.png".to_string();

    let error = AssetPath::new(&absolute_path).expect_err("absolute paths must fail");

    assert_eq!(error, AssetError::AbsolutePathRejected(absolute_path));
}

#[test]
fn asset_path_normal_form_collapses_separators_and_backslashes() {
    assert_eq!(
        AssetPath::new("a//b/./c").expect("valid").as_str(),
        "a/b/c"
    );
    assert_eq!(
        AssetPath::new("sprites\\player.png").expect("valid").as_str(),
        "sprites/player.png"
    );
    assert_eq!(AssetPath::new("").expect("valid").as_str(), ".");
    assert_eq!(AssetPath::new("./.").expect("valid").as_path(), ".");
    assert!(AssetPath::new("a/b/../c").is_err());
}

#[test]
fn typed_asset_handles_keep_stable_ids() {
    let handle = AssetHandle::<ImageAsset>::from_id(42);

    assert_eq!(handle.id(), 42);
}

#[test]
fn asset_root_requires_a_directory() {
    assert_eq!(
        asset_root("assets", RootProbe::Unresolvable),
        Err(AssetError::InvalidAssetRoot("assets".to_string()))
    );
    assert_eq!(
        asset_root(
            "assets",
            RootProbe::Canonical {
                path: "/game/assets".to_string(),
                is_dir: false
            }
        ),
        Err(AssetError::InvalidAssetRoot("/game/assets".to_string()))
    );
    assert_eq!(
        asset_root("assets", RootProbe::Verbatim),
        Ok("assets".to_string())
    );
    let root = root("/game/assets");
    assert_eq!(root.path(), "/game/assets");
}

#[test]
fn resolving_joins_root_and_path() {
    let root = root("/game/assets");
    let path = AssetPath::new("sprites/player.png").expect("valid");

    assert_eq!(root.resolve(&path), "/game/assets/sprites/player.png");
    assert_eq!(join_paths("/game/", "x.png"), "/game/x.png");
    assert_eq!(join_paths("/game", "/etc/passwd"), "/etc/passwd");
}

#[test]
fn path_prefixes_compare_by_component() {
    assert!(starts_with_path("/game/assets/a.png", "/game/assets"));
    assert!(starts_with_path("/game/assets", "/game/assets/"));
    assert!(!starts_with_path("/game/assets2/a.png", "/game/assets"));
    assert!(!starts_with_path("/game", "/game/assets"));
}

#[test]
fn canonical_paths_must_stay_under_the_root() {
    assert_eq!(
        canonical_asset_path("/game/assets", "/game/assets/a.png".to_string(), FileProbe::Missing),
        Err(AssetError::NotFound("/game/assets/a.png".to_string()))
    );
    assert_eq!(
        canonical_asset_path(
            "/game/assets",
            "/game/assets/link.png".to_string(),
            FileProbe::Canonical("/etc/secret.png".to_string())
        ),
        Err(AssetError::PathOutsideRoot("/etc/secret.png".to_string()))
    );
    assert_eq!(
        canonical_asset_path(
            "/game/assets",
            "/game/assets/a.png".to_string(),
            FileProbe::Canonical("/game/assets/a.png".to_string())
        ),
        Ok("/game/assets/a.png".to_string())
    );
    assert_eq!(
        canonical_asset_path(
            "/game/assets",
            "/game/assets/a.png".to_string(),
            FileProbe::Unreadable(IoErrorKind::PermissionDenied)
        ),
        Err(AssetError::Io {
            path: "/game/assets/a.png".to_string(),
            kind: IoErrorKind::PermissionDenied
        })
    );
}

#[test]
fn valid_image_file_under_root_loads_without_gpu_dependencies() {
    let loader = AssetLoader::new(root("/game/assets"));
    let asset_path = AssetPath::new("sprites/player.png").expect("asset path");
    let disk_path = loader
        .resolve_existing_path(
            &asset_path,
            FileProbe::Canonical("/game/assets/sprites/player.png".to_string()),
        )
        .expect("resolved");

    let image = loader
        .load_image(disk_path, Ok(valid_png_bytes()))
        .expect("image should load");

    assert_eq!(image.width(), 1);
    assert_eq!(image.height(), 1);
    assert_eq!(image.pixels_rgba8().len(), 4);
    assert_eq!(image.pixels_rgba8(), &[255, 0, 0, 255]);
}

#[test]
fn missing_files_return_controlled_error() {
    let loader = AssetLoader::new(root("/game/assets"));
    let asset_path = AssetPath::new("sprites/missing.png").expect("asset path");
    let expected_path = "/game/assets/sprites/missing.png".to_string();

    let error = loader
        .resolve_existing_path(&asset_path, FileProbe::Missing)
        .expect_err("missing file must fail");

    assert_eq!(error, AssetError::NotFound(expected_path.clone()));
    assert_eq!(
        loader
            .load_image(expected_path.clone(), Err(IoErrorKind::NotFound))
            .expect_err("read failure"),
        AssetError::NotFound(expected_path)
    );
}

#[test]
fn invalid_image_bytes_return_controlled_decode_error() {
    let loader = AssetLoader::new(root("/game/assets"));
    let expected_path = "/game/assets/sprites/corrupt.png".to_string();

    let error = loader
        .load_image(expected_path.clone(), Ok(b"not a png".to_vec()))
        .expect_err("decode must fail");

    assert_eq!(error, AssetError::ImageDecode(expected_path));
    assert!(decode_image("x.png", &[]).is_err());
}

#[test]
fn asset_errors_render_their_messages() {
    assert_eq!(
        AssetError::NotFound("a.png".to_string()).message(),
        "asset file was not found: a.png"
    );
    assert_eq!(
        AssetError::Io {
            path: "a.png".to_string(),
            kind: IoErrorKind::PermissionDenied
        }
        .message(),
        "failed to access asset file a.png: permission denied"
    );
    assert_eq!(
        AssetError::PathTraversalRejected("../x".to_string()).message(),
        "asset path traversal is not allowed: ../x"
    );
}

#[test]
fn unloaded_sound_playback_is_skipped() {
    let audio = AudioSystem::without_backend("test backend disabled".to_string());
    let sound = AssetHandle::from_id(99);

    assert_eq!(
        audio.play_sound(sound, PlaybackResult::Started),
        PlaybackResult::Skipped(AudioSkipReason::SoundNotLoaded(sound))
    );
}

#[test]
fn audio_command_can_reference_loaded_sound_handle() {
    let command = AudioCommand::PlaySound {
        sound: AssetHandle::from_id(7),
    };

    assert_eq!(
        command,
        AudioCommand::PlaySound {
            sound: AssetHandle::from_id(7)
        }
    );
}

#[test]
fn disabled_audio_loads_existing_asset_but_skips_playback() {
    let root = root("/game/assets");
    let path = AssetPath::new("audio/beep.wav").expect("asset path");
    let resolved = resolve_sound_asset(
        &root,
        &path,
        FileProbe::Canonical("/game/assets/audio/beep.wav".to_string()),
    );
    let mut audio = AudioSystem::without_backend("no audio device".to_string());

    let sound = audio
        .load_sound(resolved, Err(AudioError::Decode {
            path: "unused".to_string(),
            reason: "backend is disabled".to_string(),
        }))
        .expect("sound registered");

    assert_eq!(sound.id(), 1);
    assert_eq!(
        audio.play_sound(sound, PlaybackResult::Started),
        PlaybackResult::Skipped(AudioSkipReason::BackendUnavailable(
            "no audio device".to_string()
        ))
    );
}

#[test]
fn missing_sound_asset_returns_controlled_error() {
    let root = root("/game/assets");
    let path = AssetPath::new("audio/missing.wav").expect("asset path");
    let expected_path = "/game/assets/audio/missing.wav".to_string();
    let mut audio = AudioSystem::without_backend("test backend disabled".to_string());

    let error = audio
        .load_sound(resolve_sound_asset(&root, &path, FileProbe::Missing), Ok(()))
        .expect_err("missing file fails");

    assert_eq!(error, AudioError::Asset(AssetError::NotFound(expected_path)));
    assert_eq!(audio.next_sound_id(), 1);
}

#[test]
fn available_backend_plays_loaded_sounds_and_reports_load_failures() {
    let mut audio = AudioSystem::new(Ok(()));
    assert!(audio.is_backend_available());
    assert_eq!(audio.backend_error(), None);

    let first = audio
        .load_sound(Ok("/a/one.wav".to_string()), Ok(()))
        .expect("loaded");
    let failure = AudioError::Decode {
        path: "/a/two.wav".to_string(),
        reason: "bad header".to_string(),
    };
    assert_eq!(
        audio.load_sound(Ok("/a/two.wav".to_string()), Err(failure.clone())),
        Err(failure.clone())
    );
    let third = audio
        .load_sound(Ok("/a/three.wav".to_string()), Ok(()))
        .expect("loaded");

    assert_eq!(first.id(), 1);
    assert_eq!(third.id(), 3);
    assert!(audio.should_play(first));
    assert!(!audio.should_play(AssetHandle::from_id(2)));
    assert_eq!(
        audio.play_sound(first, PlaybackResult::Started),
        PlaybackResult::Started
    );
    assert_eq!(
        failure.message(),
        "failed to decode audio /a/two.wav: bad header"
    );
}

#[test]
fn failed_backend_keeps_its_message() {
    let audio = AudioSystem::new(Err("no device".to_string()));
    assert!(!audio.is_backend_available());
    assert_eq!(audio.backend_error(), Some("no device"));
}

#[test]
fn normal_forms_are_stable_for_slash_paths() {
    for raw in ["sprites/./player.png", "a//b", "./x/y/", "ui/icons/../", ".", "a\\\\b", "x\\.\\y"] {
        if let Ok(path) = AssetPath::new(raw) {
            let again = AssetPath::new(path.as_str()).expect("normal form is accepted");
            assert_eq!(again.as_str(), path.as_str());
            assert!(!again.as_str().starts_with('/'));
        }
    }
}

#[test]
fn backslash_separated_parent_pieces_are_rejected() {
    assert_eq!(
        AssetPath::new("a\\..\\..\\etc"),
        Err(AssetError::PathTraversalRejected("a\\..\\..\\etc".to_string()))
    );
    assert_eq!(
        AssetPath::new("..\\x"),
        Err(AssetError::PathTraversalRejected("..\\x".to_string()))
    );
    assert_eq!(
        AssetPath::new("\\etc\\passwd"),
        Err(AssetError::AbsolutePathRejected("\\etc\\passwd".to_string()))
    );
    assert_eq!(
        AssetPath::new("a\\\\b").expect("valid").as_str(),
        "a/b"
    );
}

#[test]
fn decoded_images_hold_four_bytes_per_pixel() {
    let mut rgb = Vec::new();
    PngEncoder::new(&mut rgb)
        .write_image(&[10, 20, 30, 40, 50, 60, 70, 80, 90, 1, 2, 3, 4, 5, 6, 7, 8, 9], 3, 2, ColorType::Rgb8)
        .expect("encode png fixture");
    let image = decode_image("grid.png", &rgb).expect("decoded");
    assert_eq!(image.width(), 3);
    assert_eq!(image.height(), 2);
    assert_eq!(image.pixels_rgba8().len(), 3 * 2 * 4);
    assert_eq!(&image.pixels_rgba8()[0..8], &[10, 20, 30, 255, 40, 50, 60, 255]);

    let rgba = decode_image("one.png", &valid_png_bytes()).expect("decoded");
    assert_eq!(rgba.pixels_rgba8(), &[255, 0, 0, 255]);
}

#[test]
fn sound_handles_increase_and_stay_loaded() {
    let mut audio = AudioSystem::new(Ok(()));
    let mut handles = Vec::new();
    for name in ["a", "b", "c"] {
        assert_eq!(
            audio.load_sound(
                Err(AssetError::NotFound(format!("/a/{name}-missing.wav"))),
                Ok(())
            ),
            Err(AudioError::Asset(AssetError::NotFound(format!("/a/{name}-missing.wav"))))
        );
        handles.push(
            audio
                .load_sound(Ok(format!("/a/{name}.wav")), Ok(()))
                .expect("loaded"),
        );
    }
    assert_eq!(handles.iter().map(|h| h.id()).collect::<Vec<_>>(), vec![1, 2, 3]);
    for handle in &handles {
        assert!(audio.should_play(*handle));
        assert_eq!(
            audio.play_sound(*handle, PlaybackResult::Started),
            PlaybackResult::Started
        );
    }
}
