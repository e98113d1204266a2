//! The decisions behind the C ABI boundary: which status each engine call
//! reports. Pointer handling and panic containment stay with the host shim.
use vstd::prelude::*;
use crate::engine::{default_app_name, Engine, EngineConfig, EngineError};
use crate::text::owned;

verus! {

/// Status codes returned across the C ABI.
#[derive(Debug, Clone, Copy, PartialEq, Eq, Structural)]
pub enum SeishinStatus {
    Success,
    NullPointer,
    InvalidArgument,
    Panic,
}

/// The application name handed over the boundary, as the host read it.
#[derive(Debug, Clone, PartialEq, Eq)]
pub enum FfiAppName {
    /// The name pointer was null: the default name is used.
    Null,
    /// The name was not valid UTF-8.
    InvalidUtf8,
    /// The name text.
    Text(String),
}

/// The opaque engine handle owned by C callers.
pub struct SeishinEngine {
    pub engine: Engine,
}

impl SeishinEngine {
    pub fn new(engine: Engine) -> (handle: Self)
        ensures
            handle.engine == engine,
    {
        SeishinEngine { engine }
    }

    /// Advances the engine by one frame; a refused time step is reported as
    /// `InvalidArgument` and leaves the frame count unchanged.
    pub fn tick(&mut self, delta_is_valid: bool) -> (status: SeishinStatus)
        requires
            delta_is_valid ==> old(self).engine.frames() < u64::MAX,
        ensures
            final(self).engine.spec_config() == old(self).engine.spec_config(),
            delta_is_valid ==> status == SeishinStatus::Success && final(self).engine.frames()
                == old(self).engine.frames() + 1,
            !delta_is_valid ==> status == SeishinStatus::InvalidArgument
                && final(self).engine.frames() == old(self).engine.frames(),
    {
        match self.engine.tick(delta_is_valid) {
            Ok(_) => SeishinStatus::Success,
            Err(_) => SeishinStatus::InvalidArgument,
        }
    }

    /// The current frame count.
    pub fn frame(&self) -> (f: u64)
        ensures
            f == self.engine.frames(),
    {
        self.engine.frame()
    }
}

/// The configuration described by a name and frame rate read over the
/// boundary: `None` when the name is not valid UTF-8.
pub fn engine_config_from_ffi(app_name: FfiAppName, target_fps: u32) -> (r: Option<EngineConfig>)
    ensures
        match app_name {
            FfiAppName::InvalidUtf8 => r is None,
            FfiAppName::Null => r matches Some(c) && c.app_name@ == default_app_name()
                && c.target_fps == target_fps,
            FfiAppName::Text(name) => r matches Some(c) && c.app_name == name && c.target_fps
                == target_fps,
        },
{
    let name = match app_name {
        FfiAppName::Null => owned("seishin game"),
        FfiAppName::InvalidUtf8 => {
            return None;
        },
        FfiAppName::Text(name) => name,
    };
    Some(EngineConfig { app_name: name, target_fps })
}

/// Creates an engine handle: `InvalidArgument` when the name is unreadable or
/// the configuration does not validate.
pub fn create_engine(app_name: FfiAppName, target_fps: u32) -> (r: Result<
    SeishinEngine,
    SeishinStatus,
>)
    ensures
        match app_name {
            FfiAppName::InvalidUtf8 => r == Err::<SeishinEngine, SeishinStatus>(
                SeishinStatus::InvalidArgument,
            ),
            FfiAppName::Null => {
                (target_fps > 0 ==> (r matches Ok(h) && h.engine.frames() == 0
                    && h.engine.spec_config().app_name@ == default_app_name()
                    && h.engine.spec_config().target_fps == target_fps)) && (target_fps == 0
                    ==> r == Err::<SeishinEngine, SeishinStatus>(SeishinStatus::InvalidArgument))
            },
            FfiAppName::Text(name) => {
                let c = EngineConfig { app_name: name, target_fps };
                (c.is_valid() ==> (r matches Ok(h) && h.engine.frames() == 0
                    && h.engine.spec_config() == c)) && (!c.is_valid() ==> r == Err::<
                    SeishinEngine,
                    SeishinStatus,
                >(SeishinStatus::InvalidArgument))
            },
        },
{
    let config = match engine_config_from_ffi(app_name, target_fps) {
        Some(config) => config,
        None => {
            return Err(SeishinStatus::InvalidArgument);
        },
    };
    proof {
        reveal_strlit("seishin game");
        assert(!crate::text::is_unicode_whitespace(default_app_name()[0]));
    }
    match Engine::new(config) {
        Ok(engine) => Ok(SeishinEngine::new(engine)),
        Err(_) => Err(SeishinStatus::InvalidArgument),
    }
}

} // verus!
