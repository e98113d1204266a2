//! Application settings: the builder a game starts from, the settings a
//! `Seishin.toml` project file provides, logging levels, and the decisions
//! taken while locating a project and its main scene.
use vstd::prelude::*;
use crate::actions::{InputActions, InputConfig};
use crate::asset_path::join_path;
use crate::asset_path::join_paths;
use crate::paths::{
    rejects_as, resolved_under, PathDiagnosticError, PathDiagnosticKind, ProjectPaths,
    VirtualScheme,
};
use crate::project::{GameError, GameResult};
use crate::render::{black_spec, clear_color_named, parse_clear_color, ClearColor};
use crate::text::{copy_string, owned};

verus! {

/// How much the engine logs.
#[derive(Debug, Clone, Copy, PartialEq, Eq, Structural)]
pub enum LogLevel {
    Error,
    Warn,
    Info,
    Debug,
    Trace,
}

/// The log filter directive of a level.
pub open spec fn log_filter(level: LogLevel) -> Seq<char> {
    match level {
        LogLevel::Error => "error"@,
        LogLevel::Warn => "warn"@,
        LogLevel::Info => "info"@,
        LogLevel::Debug => "debug"@,
        LogLevel::Trace => "trace"@,
    }
}

impl LogLevel {
    pub fn as_filter(self) -> (s: &'static str)
        ensures
            s@ == log_filter(self),
    {
        match self {
            LogLevel::Error => "error",
            LogLevel::Warn => "warn",
            LogLevel::Info => "info",
            LogLevel::Debug => "debug",
            LogLevel::Trace => "trace",
        }
    }
}

/// Whether logging is installed, and the filter used when the environment
/// sets none.
#[derive(Debug, Clone, PartialEq, Eq)]
pub struct LoggingConfig {
    pub enabled: bool,
    pub default_filter: String,
}

impl LoggingConfig {
    /// Logging off, with the `info` filter.
    pub fn new() -> (c: Self)
        ensures
            !c.enabled,
            c.default_filter@ == "info"@,
    {
        LoggingConfig { enabled: false, default_filter: owned("info") }
    }
}

impl Default for LoggingConfig {
    fn default() -> (c: Self)
        ensures
            !c.enabled,
            c.default_filter@ == "info"@,
    {
        LoggingConfig::new()
    }
}

/// The `[game]` table of a project file.
#[derive(Debug, Clone, Default)]
pub struct GameConfig {
    pub name: Option<String>,
    pub main_scene: Option<String>,
}

/// The `[window]` table of a project file.
#[derive(Debug, Clone, Default)]
pub struct WindowProjectConfig {
    pub width: Option<u32>,
    pub height: Option<u32>,
    pub target_fps: Option<u32>,
    pub clear_color: Option<String>,
}

/// A `[assets]`, `[resources]` or `[user]` table: the directory, relative to
/// the project file.
#[derive(Debug, Clone, Default)]
pub struct RootConfig {
    pub root: Option<String>,
}

/// The `[logging]` table of a project file.
#[derive(Debug, Clone, Default)]
pub struct LoggingProjectConfig {
    pub default_filter: Option<String>,
}

/// A `Seishin.toml` project file.
#[derive(Debug, Clone, Default)]
pub struct ProjectConfig {
    pub game: Option<GameConfig>,
    pub window: Option<WindowProjectConfig>,
    pub resources: Option<RootConfig>,
    pub assets: Option<RootConfig>,
    pub user: Option<RootConfig>,
    pub logging: Option<LoggingProjectConfig>,
    pub input: Option<InputConfig>,
}

/// The text of an optional string, or `default` when it is absent.
pub open spec fn text_or(s: Option<String>, default: Seq<char>) -> Seq<char> {
    match s {
        Some(t) => t@,
        None => default,
    }
}

/// The configured root of an optional table, or `default`.
pub open spec fn root_or(c: Option<RootConfig>, default: Seq<char>) -> Seq<char> {
    match c {
        Some(r) => text_or(r.root, default),
        None => default,
    }
}

/// A game's application settings, built up before it runs.
#[derive(Debug)]
pub struct App {
    title: String,
    width: u32,
    height: u32,
    target_fps: u32,
    asset_root: String,
    resource_root: String,
    user_root: String,
    main_scene: Option<String>,
    clear_color: ClearColor,
    logging: LoggingConfig,
    input_actions: InputActions,
}

impl App {
    pub closed spec fn spec_title(&self) -> Seq<char> {
        self.title@
    }

    pub closed spec fn spec_width(&self) -> u32 {
        self.width
    }

    pub closed spec fn spec_height(&self) -> u32 {
        self.height
    }

    pub closed spec fn spec_target_fps(&self) -> u32 {
        self.target_fps
    }

    pub closed spec fn spec_asset_root(&self) -> Seq<char> {
        self.asset_root@
    }

    pub closed spec fn spec_resource_root(&self) -> Seq<char> {
        self.resource_root@
    }

    pub closed spec fn spec_user_root(&self) -> Seq<char> {
        self.user_root@
    }

    pub closed spec fn spec_main_scene(&self) -> Option<Seq<char>> {
        match self.main_scene {
            Some(s) => Some(s@),
            None => None,
        }
    }

    pub closed spec fn spec_clear_color(&self) -> ClearColor {
        self.clear_color
    }

    pub closed spec fn spec_logging_enabled(&self) -> bool {
        self.logging.enabled
    }

    pub closed spec fn spec_log_filter(&self) -> Seq<char> {
        self.logging.default_filter@
    }

    pub closed spec fn spec_input_actions(&self) -> InputActions {
        self.input_actions
    }

    /// Whether `other` has the same settings as `self` in every respect but
    /// the ones a builder method changes.
    pub open spec fn same_but_size(&self, other: &App) -> bool {
        &&& self.spec_title() == other.spec_title()
        &&& self.spec_target_fps() == other.spec_target_fps()
        &&& self.spec_asset_root() == other.spec_asset_root()
        &&& self.spec_resource_root() == other.spec_resource_root()
        &&& self.spec_user_root() == other.spec_user_root()
        &&& self.spec_main_scene() == other.spec_main_scene()
        &&& self.spec_clear_color() == other.spec_clear_color()
        &&& self.spec_logging_enabled() == other.spec_logging_enabled()
        &&& self.spec_log_filter() == other.spec_log_filter()
        &&& self.spec_input_actions() == other.spec_input_actions()
    }

    /// The defaults: a 1280 x 720 window at 60 frames per second, the
    /// `assets`, `resources` and `user` roots, no main scene, a black clear
    /// colour, logging off and no input actions.
    pub fn new(title: &str) -> (app: Self)
        ensures
            app.spec_title() == title@,
            app.spec_width() == 1280,
            app.spec_height() == 720,
            app.spec_target_fps() == 60,
            app.spec_asset_root() == "assets"@,
            app.spec_resource_root() == "resources"@,
            app.spec_user_root() == "user"@,
            app.spec_main_scene() is None,
            app.spec_clear_color() == black_spec(),
            !app.spec_logging_enabled(),
            app.spec_log_filter() == "info"@,
            forall|name: Seq<char>| #[trigger] app.spec_input_actions().action_named(name) is None,
    {
        App {
            title: owned(title),
            width: 1280,
            height: 720,
            target_fps: 60,
            asset_root: owned("assets"),
            resource_root: owned("resources"),
            user_root: owned("user"),
            main_scene: None,
            clear_color: ClearColor::black(),
            logging: LoggingConfig::new(),
            input_actions: InputActions::new(),
        }
    }

    pub fn window_size(self, width: u32, height: u32) -> (app: Self)
        ensures
            app.spec_width() == width,
            app.spec_height() == height,
            app.same_but_size(&self),
    {
        let mut app = self;
        app.width = width;
        app.height = height;
        app
    }

    pub fn target_fps(self, target_fps: u32) -> (app: Self)
        ensures
            app.spec_target_fps() == target_fps,
            app.spec_width() == self.spec_width(),
            app.spec_height() == self.spec_height(),
            app.spec_title() == self.spec_title(),
            app.spec_asset_root() == self.spec_asset_root(),
            app.spec_resource_root() == self.spec_resource_root(),
            app.spec_user_root() == self.spec_user_root(),
            app.spec_main_scene() == self.spec_main_scene(),
            app.spec_clear_color() == self.spec_clear_color(),
            app.spec_logging_enabled() == self.spec_logging_enabled(),
            app.spec_log_filter() == self.spec_log_filter(),
            app.spec_input_actions() == self.spec_input_actions(),
    {
        let mut app = self;
        app.target_fps = target_fps;
        app
    }

    pub fn asset_root(self, asset_root: &str) -> (app: Self)
        ensures
            app.spec_asset_root() == asset_root@,
            app.spec_width() == self.spec_width(),
            app.spec_height() == self.spec_height(),
            app.spec_title() == self.spec_title(),
            app.spec_target_fps() == self.spec_target_fps(),
            app.spec_resource_root() == self.spec_resource_root(),
            app.spec_user_root() == self.spec_user_root(),
            app.spec_main_scene() == self.spec_main_scene(),
            app.spec_clear_color() == self.spec_clear_color(),
            app.spec_logging_enabled() == self.spec_logging_enabled(),
            app.spec_log_filter() == self.spec_log_filter(),
            app.spec_input_actions() == self.spec_input_actions(),
    {
        let mut app = self;
        app.asset_root = owned(asset_root);
        app
    }

    pub fn resource_root(self, resource_root: &str) -> (app: Self)
        ensures
            app.spec_resource_root() == resource_root@,
            app.spec_width() == self.spec_width(),
            app.spec_height() == self.spec_height(),
            app.spec_title() == self.spec_title(),
            app.spec_target_fps() == self.spec_target_fps(),
            app.spec_asset_root() == self.spec_asset_root(),
            app.spec_user_root() == self.spec_user_root(),
            app.spec_main_scene() == self.spec_main_scene(),
            app.spec_clear_color() == self.spec_clear_color(),
            app.spec_logging_enabled() == self.spec_logging_enabled(),
            app.spec_log_filter() == self.spec_log_filter(),
            app.spec_input_actions() == self.spec_input_actions(),
    {
        let mut app = self;
        app.resource_root = owned(resource_root);
        app
    }

    pub fn clear_color(self, clear_color: ClearColor) -> (app: Self)
        ensures
            app.spec_clear_color() == clear_color,
            app.spec_width() == self.spec_width(),
            app.spec_height() == self.spec_height(),
            app.spec_title() == self.spec_title(),
            app.spec_target_fps() == self.spec_target_fps(),
            app.spec_asset_root() == self.spec_asset_root(),
            app.spec_resource_root() == self.spec_resource_root(),
            app.spec_user_root() == self.spec_user_root(),
            app.spec_main_scene() == self.spec_main_scene(),
            app.spec_logging_enabled() == self.spec_logging_enabled(),
            app.spec_log_filter() == self.spec_log_filter(),
            app.spec_input_actions() == self.spec_input_actions(),
    {
        let mut app = self;
        app.clear_color = clear_color;
        app
    }

    /// Turns logging on, keeping the default filter.
    pub fn with_default_logging(self) -> (app: Self)
        ensures
            app.spec_logging_enabled(),
            app.spec_log_filter() == self.spec_log_filter(),
            app.spec_width() == self.spec_width(),
            app.spec_height() == self.spec_height(),
            app.spec_title() == self.spec_title(),
            app.spec_target_fps() == self.spec_target_fps(),
            app.spec_asset_root() == self.spec_asset_root(),
            app.spec_resource_root() == self.spec_resource_root(),
            app.spec_user_root() == self.spec_user_root(),
            app.spec_main_scene() == self.spec_main_scene(),
            app.spec_clear_color() == self.spec_clear_color(),
            app.spec_input_actions() == self.spec_input_actions(),
    {
        let mut app = self;
        app.logging.enabled = true;
        app
    }

    /// Turns logging on with the filter of `level`.
    pub fn log_level(self, level: LogLevel) -> (app: Self)
        ensures
            app.spec_logging_enabled(),
            app.spec_log_filter() == log_filter(level),
            app.spec_width() == self.spec_width(),
            app.spec_height() == self.spec_height(),
            app.spec_title() == self.spec_title(),
            app.spec_target_fps() == self.spec_target_fps(),
            app.spec_asset_root() == self.spec_asset_root(),
            app.spec_resource_root() == self.spec_resource_root(),
            app.spec_user_root() == self.spec_user_root(),
            app.spec_main_scene() == self.spec_main_scene(),
            app.spec_clear_color() == self.spec_clear_color(),
            app.spec_input_actions() == self.spec_input_actions(),
    {
        let mut app = self;
        app.logging.enabled = true;
        app.logging.default_filter = owned(level.as_filter());
        app
    }

    /// The settings of a project file found in `project_dir`: each missing
    /// value takes its default (`seishin2d`, 1280 x 720, 60 frames per
    /// second, black, the `info` filter); the roots are resolved against the
    /// project directory, logging is on, and unknown clear colour names fall
    /// back to black.
    pub fn from_project_config(project: ProjectConfig, project_dir: &str) -> (app: Self)
        ensures
            app.spec_title() == text_or(
                match project.game {
                    Some(g) => g.name,
                    None => None,
                },
                "seishin2d"@,
            ),
            app.spec_width() == match project.window {
                Some(w) => match w.width {
                    Some(v) => v,
                    None => 1280u32,
                },
                None => 1280u32,
            },
            app.spec_height() == match project.window {
                Some(w) => match w.height {
                    Some(v) => v,
                    None => 720u32,
                },
                None => 720u32,
            },
            app.spec_target_fps() == match project.window {
                Some(w) => match w.target_fps {
                    Some(v) => v,
                    None => 60u32,
                },
                None => 60u32,
            },
            app.spec_asset_root() == join_path(project_dir@, root_or(project.assets, "assets"@)),
            app.spec_resource_root() == join_path(
                project_dir@,
                root_or(project.resources, "resources"@),
            ),
            app.spec_user_root() == join_path(project_dir@, root_or(project.user, "user"@)),
            app.spec_main_scene() == match project.game {
                Some(g) => match g.main_scene {
                    Some(s) => Some(s@),
                    None => None,
                },
                None => None,
            },
            app.spec_clear_color() == match project.window {
                Some(w) => match w.clear_color {
                    Some(name) => match clear_color_named(name@) {
                        Some(c) => c,
                        None => black_spec(),
                    },
                    None => black_spec(),
                },
                None => black_spec(),
            },
            app.spec_logging_enabled(),
            app.spec_log_filter() == match project.logging {
                Some(l) => text_or(l.default_filter, "info"@),
                None => "info"@,
            },
            match project.input {
                Some(config) => forall|name: Seq<char>|
                    #[trigger] app.spec_input_actions().describes(config, name),
                None => forall|name: Seq<char>|
                    #[trigger] app.spec_input_actions().action_named(name) is None,
            },
    {
        let ProjectConfig { game, window, resources, assets, user, logging, input } = project;
        let (title, main_scene) = match game {
            Some(g) => {
                let title = match g.name {
                    Some(n) => n,
                    None => owned("seishin2d"),
                };
                (title, g.main_scene)
            },
            None => (owned("seishin2d"), None),
        };
        let (width, height, target_fps, clear_color) = match window {
            Some(w) => {
                let width = match w.width {
                    Some(v) => v,
                    None => 1280,
                };
                let height = match w.height {
                    Some(v) => v,
                    None => 720,
                };
                let target_fps = match w.target_fps {
                    Some(v) => v,
                    None => 60,
                };
                let clear_color = match w.clear_color {
                    Some(name) => match parse_clear_color(name.as_str()) {
                        Some(c) => c,
                        None => ClearColor::black(),
                    },
                    None => ClearColor::black(),
                };
                (width, height, target_fps, clear_color)
            },
            None => (1280, 720, 60, ClearColor::black()),
        };
        let asset_root = join_paths(project_dir, root_text(assets, "assets").as_str());
        let resource_root = join_paths(project_dir, root_text(resources, "resources").as_str());
        let user_root = join_paths(project_dir, root_text(user, "user").as_str());
        let default_filter = match logging {
            Some(l) => match l.default_filter {
                Some(f) => f,
                None => owned("info"),
            },
            None => owned("info"),
        };
        let input_actions = match input {
            Some(config) => InputActions::from_config(config),
            None => InputActions::new(),
        };
        App {
            title,
            width,
            height,
            target_fps,
            asset_root,
            resource_root,
            user_root,
            main_scene,
            clear_color,
            logging: LoggingConfig { enabled: true, default_filter },
            input_actions,
        }
    }

    pub fn title(&self) -> (s: &str)
        ensures
            s@ == self.spec_title(),
    {
        self.title.as_str()
    }

    pub fn width(&self) -> (w: u32)
        ensures
            w == self.spec_width(),
    {
        self.width
    }

    pub fn height(&self) -> (h: u32)
        ensures
            h == self.spec_height(),
    {
        self.height
    }

    pub fn frame_rate(&self) -> (f: u32)
        ensures
            f == self.spec_target_fps(),
    {
        self.target_fps
    }

    pub fn asset_dir(&self) -> (s: &str)
        ensures
            s@ == self.spec_asset_root(),
    {
        self.asset_root.as_str()
    }

    pub fn resource_dir(&self) -> (s: &str)
        ensures
            s@ == self.spec_resource_root(),
    {
        self.resource_root.as_str()
    }

    pub fn user_dir(&self) -> (s: &str)
        ensures
            s@ == self.spec_user_root(),
    {
        self.user_root.as_str()
    }

    pub fn main_scene(&self) -> (s: Option<&str>)
        ensures
            match s {
                Some(t) => self.spec_main_scene() == Some(t@),
                None => self.spec_main_scene() is None,
            },
    {
        match &self.main_scene {
            Some(s) => Some(s.as_str()),
            None => None,
        }
    }

    pub fn background(&self) -> (c: ClearColor)
        ensures
            c == self.spec_clear_color(),
    {
        self.clear_color
    }

    pub fn logging_enabled(&self) -> (b: bool)
        ensures
            b == self.spec_logging_enabled(),
    {
        self.logging.enabled
    }

    pub fn log_filter(&self) -> (s: &str)
        ensures
            s@ == self.spec_log_filter(),
    {
        self.logging.default_filter.as_str()
    }

    pub fn input_actions(&self) -> (a: &InputActions)
        ensures
            *a == self.spec_input_actions(),
    {
        &self.input_actions
    }

    /// The project's three roots.
    pub fn project_paths(&self) -> (p: ProjectPaths)
        ensures
            p.asset_root@ == self.spec_asset_root(),
            p.resource_root@ == self.spec_resource_root(),
            p.user_root@ == self.spec_user_root(),
    {
        ProjectPaths::new(
            copy_string(&self.asset_root),
            copy_string(&self.resource_root),
            copy_string(&self.user_root),
        )
    }
}

/// The configured root of an optional table, or `default`.
fn root_text(c: Option<RootConfig>, default: &str) -> (s: String)
    ensures
        s@ == root_or(c, default@),
{
    match c {
        Some(r) => match r.root {
            Some(t) => t,
            None => owned(default),
        },
        None => owned(default),
    }
}

} // verus!
