//! Engine configuration, lifecycle and stable entity identifiers.
use vstd::prelude::*;
use crate::text::{append_str, is_blank, is_blank_text, owned};

verus! {

/// Errors reported by the engine core.
#[derive(Debug, Clone, PartialEq, Eq)]
pub enum EngineError {
    InvalidConfig(String),
    InvalidDeltaTime,
    Runtime(String),
}

/// The text of an engine error.
pub open spec fn engine_error_text(e: EngineError) -> Seq<char> {
    match e {
        EngineError::InvalidConfig(m) => "invalid engine config: "@ + m@,
        EngineError::InvalidDeltaTime => "delta time must be finite and non-negative"@,
        EngineError::Runtime(m) => "runtime error: "@ + m@,
    }
}

impl EngineError {
    /// The text shown for this error.
    pub fn message(&self) -> (s: String)
        ensures
            s@ == engine_error_text(*self),
    {
        match self {
            EngineError::InvalidConfig(m) => {
                let mut s = owned("invalid engine config: ");
                append_str(&mut s, m.as_str());
                s
            },
            EngineError::InvalidDeltaTime => owned("delta time must be finite and non-negative"),
            EngineError::Runtime(m) => {
                let mut s = owned("runtime error: ");
                append_str(&mut s, m.as_str());
                s
            },
        }
    }
}

/// Result type of the engine core.
pub type EngineResult<T> = Result<T, EngineError>;

/// A stable, engine-owned entity identifier.
#[derive(Debug, Clone, Copy, PartialEq, Eq, PartialOrd, Ord, Hash, Structural)]
pub struct EntityId(u64);

impl View for EntityId {
    type V = u64;

    closed spec fn view(&self) -> u64 {
        self.0
    }
}

/// Ids with the same raw value are the same id.
pub broadcast proof fn lemma_entity_id_view_injective(a: EntityId, b: EntityId)
    ensures
        #[trigger] a@ == #[trigger] b@ ==> a == b,
{
}

impl EntityId {
    pub fn new(raw: u64) -> (id: Self)
        ensures
            id@ == raw,
    {
        EntityId(raw)
    }

    pub fn raw(self) -> (raw: u64)
        ensures
            raw == self@,
    {
        self.0
    }
}

/// The name given to an engine whose configuration names none.
pub open spec fn default_app_name() -> Seq<char> {
    "seishin game"@
}

/// The message of the error for a blank application name.
pub open spec fn empty_name_message() -> Seq<char> {
    "app_name cannot be empty"@
}

/// The message of the error for a zero frame rate.
pub open spec fn zero_fps_message() -> Seq<char> {
    "target_fps must be greater than zero"@
}

/// Engine start-up configuration.
#[derive(Debug, Clone, PartialEq, Eq)]
pub struct EngineConfig {
    pub app_name: String,
    pub target_fps: u32,
}

impl EngineConfig {
    /// A configuration is accepted when its name has a non-whitespace
    /// character and its frame rate is positive.
    pub open spec fn is_valid(&self) -> bool {
        !is_blank_text(self.app_name@) && self.target_fps > 0
    }

    /// The outcome of `validate` on this configuration.
    pub open spec fn validation(&self) -> Result<(), Seq<char>> {
        if is_blank_text(self.app_name@) {
            Err(empty_name_message())
        } else if self.target_fps == 0 {
            Err(zero_fps_message())
        } else {
            Ok(())
        }
    }

    /// A configuration named `app_name` running at 60 frames per second.
    pub fn new(app_name: &str) -> (config: Self)
        ensures
            config.app_name@ == app_name@,
            config.target_fps == 60,
    {
        EngineConfig { app_name: owned(app_name), target_fps: 60 }
    }

    pub fn with_target_fps(self, target_fps: u32) -> (config: Self)
        ensures
            config.app_name == self.app_name,
            config.target_fps == target_fps,
    {
        let mut config = self;
        config.target_fps = target_fps;
        config
    }

    /// Checks the name first, then the frame rate.
    pub fn validate(&self) -> (r: EngineResult<()>)
        ensures
            r is Ok <==> self.is_valid(),
            match (r, self.validation()) {
                (Ok(()), Ok(())) => true,
                (Err(EngineError::InvalidConfig(m)), Err(expected)) => m@ == expected,
                _ => false,
            },
    {
        if is_blank(self.app_name.as_str()) {
            return Err(EngineError::InvalidConfig(owned("app_name cannot be empty")));
        }
        if self.target_fps == 0 {
            return Err(EngineError::InvalidConfig(owned("target_fps must be greater than zero")));
        }
        Ok(())
    }
}

impl Default for EngineConfig {
    fn default() -> (config: Self)
        ensures
            config.app_name@ == default_app_name(),
            config.target_fps == 60,
    {
        EngineConfig { app_name: owned("seishin game"), target_fps: 60 }
    }
}

/// A running engine: its configuration and the number of frames advanced.
#[derive(Debug)]
pub struct Engine {
    config: EngineConfig,
    frame: u64,
}

impl Engine {
    /// The configuration the engine was created with.
    pub closed spec fn spec_config(&self) -> EngineConfig {
        self.config
    }

    /// The number of frames the engine has advanced.
    pub closed spec fn frames(&self) -> u64 {
        self.frame
    }

    /// Creates an engine at frame zero when `config` validates.
    pub fn new(config: EngineConfig) -> (r: EngineResult<Self>)
        ensures
            r is Ok <==> config.is_valid(),
            r matches Ok(engine) ==> engine.spec_config() == config && engine.frames() == 0,
            r matches Err(e) ==> (match (e, config.validation()) {
                (EngineError::InvalidConfig(m), Err(expected)) => m@ == expected,
                _ => false,
            }),
    {
        match config.validate() {
            Ok(()) => Ok(Engine { config, frame: 0 }),
            Err(e) => Err(e),
        }
    }

    pub fn config(&self) -> (c: &EngineConfig)
        ensures
            *c == self.spec_config(),
    {
        &self.config
    }

    pub fn frame(&self) -> (f: u64)
        ensures
            f == self.frames(),
    {
        self.frame
    }

    /// Advances one frame when the frame's time step is usable (finite and
    /// not negative, which the caller decides); otherwise reports
    /// `InvalidDeltaTime` and leaves the frame count alone. Returns the new
    /// frame number.
    pub fn tick(&mut self, delta_is_valid: bool) -> (r: EngineResult<u64>)
        requires
            delta_is_valid ==> old(self).frames() < u64::MAX,
        ensures
            final(self).spec_config() == old(self).spec_config(),
            delta_is_valid ==> r == Ok::<u64, EngineError>((old(self).frames() + 1) as u64)
                && final(self).frames() == old(self).frames() + 1,
            !delta_is_valid ==> r == Err::<u64, EngineError>(EngineError::InvalidDeltaTime)
                && final(self).frames() == old(self).frames(),
    {
        if !delta_is_valid {
            return Err(EngineError::InvalidDeltaTime);
        }
        self.frame = self.frame + 1;
        Ok(self.frame)
    }
}

} // verus!
