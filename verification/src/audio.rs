//! The audio facade: sound registration and playback decisions, degrading to
//! silence when no audio backend is available.
use vstd::prelude::*;
use crate::asset_path::{
    asset_error_text, canonical_asset_path, join_path, resolved_file, AssetError, AssetPath, AssetRoot, FileProbe,
};
use crate::assets::AssetHandle;
use crate::text::{append_str, owned};

verus! {

/// The asset kind of sounds.
#[derive(Debug, Clone, Copy, PartialEq, Eq)]
pub struct SoundAsset;

/// Commands a game can issue to the audio system.
#[derive(Debug, Clone, PartialEq, Eq)]
pub enum AudioCommand {
    LoadSound { path: AssetPath },
    PlaySound { sound: AssetHandle<SoundAsset> },
}

/// The outcome of a playback request.
#[derive(Debug, Clone, PartialEq, Eq)]
pub enum PlaybackResult {
    Started,
    Skipped(AudioSkipReason),
}

/// Why a playback request produced no sound.
#[derive(Debug, Clone, PartialEq, Eq)]
pub enum AudioSkipReason {
    BackendUnavailable(String),
    SoundNotLoaded(AssetHandle<SoundAsset>),
    PlaybackFailed(String),
}

/// Errors of sound loading.
#[derive(Debug, Clone, PartialEq, Eq)]
pub enum AudioError {
    Asset(AssetError),
    Decode { path: String, reason: String },
}

impl From<AssetError> for AudioError {
    fn from(error: AssetError) -> (r: Self) {
        AudioError::Asset(error)
    }
}

impl vstd::std_specs::convert::FromSpecImpl<AssetError> for AudioError {
    open spec fn obeys_from_spec() -> bool {
        true
    }

    open spec fn from_spec(error: AssetError) -> Self {
        AudioError::Asset(error)
    }
}

/// The text of an audio error.
pub open spec fn audio_error_text(e: AudioError) -> Seq<char> {
    match e {
        AudioError::Asset(a) => asset_error_text(a),
        AudioError::Decode { path, reason } => "failed to decode audio "@ + path@ + ": "@
            + reason@,
    }
}

impl AudioError {
    /// The text shown for this error.
    pub fn message(&self) -> (s: String)
        ensures
            s@ == audio_error_text(*self),
    {
        match self {
            AudioError::Asset(a) => a.message(),
            AudioError::Decode { path, reason } => {
                let mut s = owned("failed to decode audio ");
                append_str(&mut s, path.as_str());
                append_str(&mut s, ": ");
                append_str(&mut s, reason.as_str());
                s
            },
        }
    }
}

/// The reason reported when the backend is missing and gave no message.
pub open spec fn unavailable_message() -> Seq<char> {
    "audio backend is unavailable"@
}

/// Bookkeeping of loaded sounds and of the backend's availability.
pub struct AudioSystem {
    backend_available: bool,
    backend_error: Option<String>,
    next_sound_id: u64,
    loaded_sounds: Vec<u64>,
}

impl AudioSystem {
    /// Whether a backend was created.
    pub closed spec fn spec_backend_available(&self) -> bool {
        self.backend_available
    }

    /// The message of the backend failure, if any.
    pub closed spec fn spec_backend_error(&self) -> Option<Seq<char>> {
        match self.backend_error {
            Some(e) => Some(e@),
            None => None,
        }
    }

    /// The id the next loaded sound receives.
    pub closed spec fn spec_next_id(&self) -> u64 {
        self.next_sound_id
    }

    /// The ids of the sounds loaded so far.
    pub closed spec fn loaded(&self) -> Set<u64> {
        self.loaded_sounds@.to_set()
    }

    /// Every loaded id was handed out before the next one: `0 < id < next`.
    pub closed spec fn wf(&self) -> bool {
        &&& self.next_sound_id >= 1
        &&& forall|i: int|
            0 <= i < self.loaded_sounds@.len() ==> 1 <= #[trigger] self.loaded_sounds@[i]
                < self.next_sound_id
    }

    /// An audio system for the outcome of creating the backend: `Ok` when a
    /// backend exists, the failure message otherwise.
    pub fn new(backend: Result<(), String>) -> (audio: Self)
        ensures
            audio.wf(),
            audio.spec_next_id() == 1,
            audio.loaded() == Set::<u64>::empty(),
            match backend {
                Ok(()) => audio.spec_backend_available() && audio.spec_backend_error() is None,
                Err(e) => !audio.spec_backend_available() && audio.spec_backend_error() == Some(
                    e@,
                ),
            },
    {
        match backend {
            Ok(()) => {
                let audio = AudioSystem {
                    backend_available: true,
                    backend_error: None,
                    next_sound_id: 1,
                    loaded_sounds: Vec::new(),
                };
                assert(audio.loaded_sounds@.to_set() =~= Set::<u64>::empty());
                audio
            },
            Err(error) => Self::without_backend(error),
        }
    }

    /// A silent audio system that remembers why no backend exists.
    pub fn without_backend(reason: String) -> (audio: Self)
        ensures
            audio.wf(),
            audio.spec_next_id() == 1,
            audio.loaded() == Set::<u64>::empty(),
            !audio.spec_backend_available(),
            audio.spec_backend_error() == Some(reason@),
    {
        let audio = AudioSystem {
            backend_available: false,
            backend_error: Some(reason),
            next_sound_id: 1,
            loaded_sounds: Vec::new(),
        };
        assert(audio.loaded_sounds@.to_set() =~= Set::<u64>::empty());
        audio
    }

    pub fn is_backend_available(&self) -> (r: bool)
        ensures
            r == self.spec_backend_available(),
    {
        self.backend_available
    }

    pub fn backend_error(&self) -> (r: Option<&str>)
        ensures
            match (r, self.spec_backend_error()) {
                (Some(s), Some(e)) => s@ == e,
                (None, None) => true,
                _ => false,
            },
    {
        match &self.backend_error {
            Some(e) => Some(e.as_str()),
            None => None,
        }
    }

    /// The id the next successful load will hand out.
    pub fn next_sound_id(&self) -> (id: u64)
        ensures
            id == self.spec_next_id(),
    {
        self.next_sound_id
    }

    fn is_loaded(&self, id: u64) -> (r: bool)
        ensures
            r == self.loaded().contains(id),
    {
        let mut i: usize = 0;
        while i < self.loaded_sounds.len()
            invariant
                i <= self.loaded_sounds.len(),
                forall|j: int| 0 <= j < i ==> self.loaded_sounds@[j] != id,
            decreases self.loaded_sounds.len() - i,
        {
            if self.loaded_sounds[i] == id {
                assert(self.loaded_sounds@.to_set().contains(self.loaded_sounds@[i as int]));
                return true;
            }
            i = i + 1;
        }
        assert(!self.loaded_sounds@.contains(id));
        false
    }

    /// Registers a sound. `resolved` is the file the sound path resolved to
    /// (or why it did not); `backend_load` is what the backend reported when
    /// asked to load that file under the next id, and matters only when a
    /// backend exists. A failed resolution changes nothing; otherwise the next
    /// id is consumed, and the sound counts as loaded unless the backend
    /// refused it.
    pub fn load_sound(
        &mut self,
        resolved: Result<String, AssetError>,
        backend_load: Result<(), AudioError>,
    ) -> (r: Result<AssetHandle<SoundAsset>, AudioError>)
        requires
            old(self).wf(),
            old(self).spec_next_id() < u64::MAX,
        ensures
            final(self).wf(),
            final(self).spec_backend_available() == old(self).spec_backend_available(),
            final(self).spec_backend_error() == old(self).spec_backend_error(),
            old(self).loaded().subset_of(final(self).loaded()),
            r matches Ok(h) ==> final(self).loaded().contains(h@),
            match resolved {
                Err(e) => r == Err::<AssetHandle<SoundAsset>, AudioError>(AudioError::Asset(e))
                    && final(self).spec_next_id() == old(self).spec_next_id()
                    && final(self).loaded() == old(self).loaded(),
                Ok(_) => final(self).spec_next_id() == old(self).spec_next_id() + 1 && (
                if old(self).spec_backend_available() && backend_load is Err {
                    r == Err::<AssetHandle<SoundAsset>, AudioError>(backend_load->Err_0)
                        && final(self).loaded() == old(self).loaded()
                } else {
                    (r matches Ok(h) && h@ == old(self).spec_next_id()) && final(self).loaded()
                        == old(self).loaded().insert(old(self).spec_next_id())
                }),
            },
    {
        if let Err(e) = resolved {
            return Err(AudioError::Asset(e));
        }
        let id = self.next_sound_id;
        self.next_sound_id = self.next_sound_id + 1;
        if self.backend_available {
            if let Err(e) = backend_load {
                return Err(e);
            }
        }
        let ghost before = self.loaded_sounds@;
        self.loaded_sounds.push(id);
        proof {
            Seq::lemma_to_set_insert_commutes(before, id);
            assert(self.loaded_sounds@ =~= before + seq![id]);
        }
        Ok(AssetHandle::from_id(id))
    }

    /// Whether the backend should be asked to play `sound`: the sound is
    /// loaded and a backend exists.
    pub fn should_play(&self, sound: AssetHandle<SoundAsset>) -> (r: bool)
        ensures
            r == (self.loaded().contains(sound@) && self.spec_backend_available()),
    {
        self.is_loaded(sound.id()) && self.backend_available
    }

    /// The result of a playback request: unloaded sounds are skipped, a
    /// missing backend skips with its failure message, and otherwise the
    /// backend's own report `backend_playback` is returned.
    pub fn play_sound(
        &self,
        sound: AssetHandle<SoundAsset>,
        backend_playback: PlaybackResult,
    ) -> (r: PlaybackResult)
        ensures
            !self.loaded().contains(sound@) ==> (r matches PlaybackResult::Skipped(
                AudioSkipReason::SoundNotLoaded(h),
            ) && h@ == sound@),
            self.loaded().contains(sound@) && !self.spec_backend_available() ==> (
            r matches PlaybackResult::Skipped(AudioSkipReason::BackendUnavailable(m)) && m@
                == match self.spec_backend_error() {
                Some(e) => e,
                None => unavailable_message(),
            }),
            self.loaded().contains(sound@) && self.spec_backend_available() ==> r
                == backend_playback,
    {
        if !self.is_loaded(sound.id()) {
            return PlaybackResult::Skipped(AudioSkipReason::SoundNotLoaded(sound));
        }
        if self.backend_available {
            return backend_playback;
        }
        let reason = match &self.backend_error {
            Some(e) => e.clone(),
            None => crate::text::owned("audio backend is unavailable"),
        };
        PlaybackResult::Skipped(AudioSkipReason::BackendUnavailable(reason))
    }
}

/// The file a sound path resolves to under `root`, as the asset loader
/// checks it (see `canonical_asset_path`).
pub fn resolve_sound_asset(root: &AssetRoot, asset_path: &AssetPath, probe: FileProbe) -> (r:
    Result<String, AssetError>)
    ensures
        resolved_file(root@, join_path(root@, asset_path@), probe, r),
{
    let joined = root.resolve(asset_path);
    canonical_asset_path(root.path(), joined, probe)
}

} // verus!
