//! The configuration file: its contents, where it lies and how it is read.

use vstd::prelude::*;

use crate::animations::AnimationsConfig;
use crate::colors::ColorBrushConfig;
use crate::config_reload::{request_config_reload, ReloadAction, ReloadControl};
use crate::effects::EffectsConfig;
use crate::float_bits::{FloatBits, EIGHT_BITS, FOUR_BITS, MINUS_ONE_BITS, ZERO_BITS};
use crate::komorebi::KomorebiColorsConfig;
use crate::render_backend::RenderBackendConfig;

verus! {

pub fn serde_default_u64<const V: u64>() -> (value: u64)
    ensures
        value == V,
{
    V
}

/// The default of a signed setting. No such default is negative.
pub fn serde_default_i32<const V: u32>() -> (value: i32)
    requires
        V <= i32::MAX,
    ensures
        value == V,
{
    V as i32
}

pub fn serde_default_bool<const V: bool>() -> (value: bool)
    ensures
        value == V,
{
    V
}

#[derive(Debug, Clone, Copy, PartialEq, Eq, Structural)]
pub enum MatchKind {
    Title,
    Class,
    Process,
}

#[derive(Debug, Clone, Copy, PartialEq, Eq, Structural)]
pub enum MatchStrategy {
    Equals,
    Contains,
    Regex,
}

/// A border width before it is scaled to the monitor.
#[derive(Debug, Clone, Copy, PartialEq)]
pub struct WidthConfig {
    pub width: FloatBits,
}

impl Default for WidthConfig {
    /// No width at all.
    fn default() -> (config: Self)
        ensures
            config.width.bits == ZERO_BITS,
    {
        WidthConfig { width: FloatBits { bits: ZERO_BITS } }
    }
}

impl WidthConfig {
    pub fn new(width: FloatBits) -> (config: Self)
        ensures
            config.width == width,
    {
        WidthConfig { width }
    }

    /// The width where the configuration gives none.
    pub fn serde_default() -> (config: Self)
        ensures
            config.width.bits == FOUR_BITS,
    {
        WidthConfig { width: FloatBits { bits: FOUR_BITS } }
    }
}

/// How far a border stands off each side of its window.
#[derive(Debug, Clone, Copy, PartialEq, Eq, Structural)]
pub struct Offset {
    pub top: i32,
    pub left: i32,
    pub right: i32,
    pub bottom: i32,
}

impl Default for Offset {
    fn default() -> (offsets: Self)
        ensures
            offsets == (Offset { top: 0, left: 0, right: 0, bottom: 0 }),
    {
        Offset { top: 0, left: 0, right: 0, bottom: 0 }
    }
}

impl Offset {
    pub fn new(offset: i32) -> (offsets: Self)
        ensures
            offsets == (Offset { top: offset, left: offset, right: offset, bottom: offset }),
    {
        Offset { top: offset, left: offset, right: offset, bottom: offset }
    }
}

#[derive(Debug, Clone, Copy, PartialEq, Eq, Structural)]
pub enum OffsetConfig {
    Uniform(i32),
    PerSide(Offset),
}

impl Default for OffsetConfig {
    fn default() -> (config: Self)
        ensures
            config == OffsetConfig::Uniform(0),
    {
        OffsetConfig::Uniform(0)
    }
}

impl OffsetConfig {
    pub fn new(offset: i32) -> (config: Self)
        ensures
            config == OffsetConfig::Uniform(offset),
    {
        OffsetConfig::Uniform(offset)
    }

    /// The offset where the configuration gives none.
    pub fn serde_default() -> (config: Self)
        ensures
            config == OffsetConfig::Uniform((-1) as i32),
    {
        OffsetConfig::Uniform(-1)
    }

    /// The offset of each side before scaling.
    pub open spec fn unscaled(self) -> Offset {
        match self {
            OffsetConfig::Uniform(offset) => Offset {
                top: offset,
                left: offset,
                right: offset,
                bottom: offset,
            },
            OffsetConfig::PerSide(offset) => offset,
        }
    }

    /// The offset of each side, scaled by `scale`.
    pub fn to_offset<F: Fn(i32) -> i32>(&self, scale: F) -> (offset: Offset)
        requires
            forall|value: i32| call_requires(scale, (value,)),
        ensures
            call_ensures(scale, (self.unscaled().top,), offset.top),
            call_ensures(scale, (self.unscaled().left,), offset.left),
            call_ensures(scale, (self.unscaled().right,), offset.right),
            call_ensures(scale, (self.unscaled().bottom,), offset.bottom),
    {
        match *self {
            OffsetConfig::Uniform(offset) => Offset::new(scale(offset)),
            OffsetConfig::PerSide(offset) => Offset {
                top: scale(offset.top),
                left: scale(offset.left),
                right: scale(offset.right),
                bottom: scale(offset.bottom),
            },
        }
    }
}

#[derive(Debug, Clone, Copy, PartialEq)]
pub enum RadiusConfig {
    Auto,
    Square,
    Round,
    RoundSmall,
    Custom(FloatBits),
}

impl Default for RadiusConfig {
    fn default() -> (config: Self)
        ensures
            config == RadiusConfig::Auto,
    {
        RadiusConfig::Auto
    }
}

/// A corner radius before it is adjusted to monitor and border width.
#[derive(Debug, Clone, Copy, PartialEq)]
pub enum RadiusBasis {
    /// Square corners, nothing to adjust.
    Zero,
    Adjusted(FloatBits),
}

/// How the window manager is told to round a window's corners.
pub const DWMWCP_DEFAULT: i32 = 0;

pub const DWMWCP_DONOTROUND: i32 = 1;

pub const DWMWCP_ROUND: i32 = 2;

pub const DWMWCP_ROUNDSMALL: i32 = 3;

impl RadiusConfig {
    /// Whether the radius follows the window. A custom radius of -1 has always meant that too.
    pub open spec fn follows_window(self) -> bool {
        match self {
            RadiusConfig::Auto => true,
            RadiusConfig::Custom(radius) => radius.bits == MINUS_ONE_BITS,
            _ => false,
        }
    }

    pub fn is_auto(&self) -> (auto: bool)
        ensures
            auto == self.follows_window(),
    {
        match self {
            RadiusConfig::Auto => true,
            RadiusConfig::Custom(radius) => radius.bits == MINUS_ONE_BITS,
            _ => false,
        }
    }

    pub open spec fn basis(self, corner_preference: Option<i32>, is_windows_11: bool) -> RadiusBasis {
        let eight = RadiusBasis::Adjusted(FloatBits { bits: EIGHT_BITS });
        let four = RadiusBasis::Adjusted(FloatBits { bits: FOUR_BITS });
        if self.follows_window() {
            let preference = match corner_preference {
                Some(preference) => preference,
                None => DWMWCP_DEFAULT,
            };
            if preference == DWMWCP_ROUND || (preference == DWMWCP_DEFAULT && is_windows_11) {
                eight
            } else if preference == DWMWCP_ROUNDSMALL {
                four
            } else {
                RadiusBasis::Zero
            }
        } else {
            match self {
                RadiusConfig::Round => eight,
                RadiusConfig::RoundSmall => four,
                RadiusConfig::Custom(radius) => RadiusBasis::Adjusted(radius),
                _ => RadiusBasis::Zero,
            }
        }
    }

    /// The radius to start from. `corner_preference` is what the window manager says of the tracked
    /// window; older systems say nothing.
    pub fn to_radius(&self, corner_preference: Option<i32>, is_windows_11: bool) -> (basis:
        RadiusBasis)
        ensures
            basis == self.basis(corner_preference, is_windows_11),
    {
        if self.is_auto() {
            let preference: i32 = match corner_preference {
                Some(preference) => preference,
                None => DWMWCP_DEFAULT,
            };
            return if preference == DWMWCP_DEFAULT {
                if is_windows_11 {
                    RadiusBasis::Adjusted(FloatBits { bits: EIGHT_BITS })
                } else {
                    RadiusBasis::Zero
                }
            } else if preference == DWMWCP_DONOTROUND {
                RadiusBasis::Zero
            } else if preference == DWMWCP_ROUND {
                RadiusBasis::Adjusted(FloatBits { bits: EIGHT_BITS })
            } else if preference == DWMWCP_ROUNDSMALL {
                RadiusBasis::Adjusted(FloatBits { bits: FOUR_BITS })
            } else {
                RadiusBasis::Zero
            };
        }
        match self {
            RadiusConfig::Round => RadiusBasis::Adjusted(FloatBits { bits: EIGHT_BITS }),
            RadiusConfig::RoundSmall => RadiusBasis::Adjusted(FloatBits { bits: FOUR_BITS }),
            RadiusConfig::Custom(radius) => RadiusBasis::Adjusted(*radius),
            _ => RadiusBasis::Zero,
        }
    }
}

#[derive(Debug, Clone, Copy, PartialEq, Eq, Structural)]
pub enum EnableMode {
    Auto,
    Bool(bool),
}

impl Default for EnableMode {
    fn default() -> (mode: Self)
        ensures
            mode == EnableMode::Auto,
    {
        EnableMode::Auto
    }
}

#[derive(Debug, Clone, Copy, PartialEq, Eq, Structural)]
pub enum ZOrderMode {
    AboveWindow,
    BelowWindow,
}

impl Default for ZOrderMode {
    fn default() -> (mode: Self)
        ensures
            mode == ZOrderMode::AboveWindow,
    {
        ZOrderMode::AboveWindow
    }
}

/// Settings for every window that no rule overrides.
#[derive(Debug, Clone, PartialEq)]
pub struct Global {
    pub border_width: WidthConfig,
    pub border_offset: OffsetConfig,
    pub border_radius: RadiusConfig,
    pub border_z_order: ZOrderMode,
    pub follow_native_border: bool,
    pub active_color: ColorBrushConfig,
    pub inactive_color: ColorBrushConfig,
    pub komorebi_colors: KomorebiColorsConfig,
    pub animations: AnimationsConfig,
    pub effects: EffectsConfig,
    pub initialize_delay: u64,
    pub unminimize_delay: u64,
}

impl Global {
    /// Whether all but width and offset is at its default: every switch off, every delay zero.
    pub open spec fn is_plain(self) -> bool {
        &&& self.border_radius == RadiusConfig::Auto
        &&& self.border_z_order == ZOrderMode::AboveWindow
        &&& !self.follow_native_border
        &&& self.active_color.is_default()
        &&& self.inactive_color.is_default()
        &&& self.komorebi_colors == (KomorebiColorsConfig {
            stack_color: None,
            monocle_color: None,
            floating_color: None,
            enabled: false,
        })
        &&& self.animations.is_default()
        &&& self.effects.text@ == "null"@
        &&& self.initialize_delay == 0
        &&& self.unminimize_delay == 0
    }

    /// Whether these are the settings to fall back to. Their borders have no width and stand where
    /// the window does.
    pub open spec fn is_default(self) -> bool {
        &&& self.border_width.width.bits == ZERO_BITS
        &&& self.border_offset == OffsetConfig::Uniform(0)
        &&& self.is_plain()
    }
}

impl Default for Global {
    fn default() -> (global: Self)
        ensures
            global.is_default(),
    {
        Global {
            border_width: WidthConfig::default(),
            border_offset: OffsetConfig::default(),
            border_radius: RadiusConfig::default(),
            border_z_order: ZOrderMode::default(),
            follow_native_border: false,
            active_color: ColorBrushConfig::default(),
            inactive_color: ColorBrushConfig::default(),
            komorebi_colors: KomorebiColorsConfig::default(),
            animations: AnimationsConfig::default(),
            effects: EffectsConfig::default(),
            initialize_delay: 0,
            unminimize_delay: 0,
        }
    }
}

/// The global settings of a file that has none. Its borders can be seen, unlike those of a file that
/// cannot be read.
pub fn serde_default_global() -> (global: Global)
    ensures
        global.border_width.width.bits == FOUR_BITS,
        global.border_offset == OffsetConfig::Uniform((-1) as i32),
        global.is_plain(),
{
    Global {
        border_width: WidthConfig::serde_default(),
        border_offset: OffsetConfig::serde_default(),
        ..Global::default()
    }
}

/// Settings for the windows that a rule matches.
#[derive(Debug, Clone, PartialEq)]
pub struct WindowRule {
    pub kind: Option<MatchKind>,
    pub name: Option<String>,
    pub strategy: Option<MatchStrategy>,
    pub border_width: Option<WidthConfig>,
    pub border_offset: Option<OffsetConfig>,
    pub border_radius: Option<RadiusConfig>,
    pub border_z_order: Option<ZOrderMode>,
    pub follow_native_border: Option<bool>,
    pub active_color: Option<ColorBrushConfig>,
    pub inactive_color: Option<ColorBrushConfig>,
    pub komorebi_colors: Option<KomorebiColorsConfig>,
    pub animations: Option<AnimationsConfig>,
    pub effects: Option<EffectsConfig>,
    pub initialize_delay: Option<u64>,
    pub unminimize_delay: Option<u64>,
    pub enabled: Option<EnableMode>,
}

impl Default for WindowRule {
    /// A rule that matches nothing and changes nothing.
    fn default() -> (rule: Self)
        ensures
            rule == (WindowRule {
                kind: None,
                name: None,
                strategy: None,
                border_width: None,
                border_offset: None,
                border_radius: None,
                border_z_order: None,
                follow_native_border: None,
                active_color: None,
                inactive_color: None,
                komorebi_colors: None,
                animations: None,
                effects: None,
                initialize_delay: None,
                unminimize_delay: None,
                enabled: None,
            }),
    {
        WindowRule {
            kind: None,
            name: None,
            strategy: None,
            border_width: None,
            border_offset: None,
            border_radius: None,
            border_z_order: None,
            follow_native_border: None,
            active_color: None,
            inactive_color: None,
            komorebi_colors: None,
            animations: None,
            effects: None,
            initialize_delay: None,
            unminimize_delay: None,
            enabled: None,
        }
    }
}

impl WindowRule {
    pub open spec fn wants_komorebi(self) -> bool {
        self.komorebi_colors matches Some(colors) && colors.enabled
    }

    pub open spec fn has_theme_aware_color(self) -> bool {
        self.active_color is Some && self.active_color->0 is ThemeAware || (self.inactive_color
            is Some && self.inactive_color->0 is ThemeAware)
    }
}

#[derive(Debug, Clone, PartialEq)]
pub struct Config {
    pub watch_config_changes: bool,
    pub enable_logging: bool,
    pub enable_ipc_server: bool,
    pub render_backend: RenderBackendConfig,
    pub global: Global,
    pub window_rules: Vec<WindowRule>,
}

impl Default for Config {
    /// The configuration to fall back to where the file cannot be read.
    fn default() -> (config: Self)
        ensures
            config.is_default(),
    {
        Config {
            watch_config_changes: false,
            enable_logging: false,
            enable_ipc_server: false,
            render_backend: RenderBackendConfig::default(),
            global: Global::default(),
            window_rules: Vec::new(),
        }
    }
}

/// What became of an attempt to read the configuration again.
#[derive(Debug)]
pub struct ReloadOutcome {
    pub config: Config,
    /// A file that was not understood must not stop the watcher that will see it mended.
    pub parsed_successfully: bool,
    pub error: Option<String>,
}

/// Whether this is what becomes of an attempt to read the configuration.
pub open spec fn goes_on_with(created: Result<Config, String>, outcome: ReloadOutcome) -> bool {
    match created {
        Ok(config) => outcome.config == config && outcome.parsed_successfully && outcome.error
            is None,
        Err(message) => outcome.config.is_default() && !outcome.parsed_successfully
            && outcome.error == Some(message),
    }
}

/// Whether the configuration lies in this directory, given what the environment names.
pub open spec fn lies_in(
    config_home: Option<String>,
    home: Option<String>,
    dir: Option<Vec<String>>,
) -> bool {
    match (config_home, home) {
        (Some(config_home), _) => dir matches Some(dir) && dir@.len() == 1 && dir@[0]@
            == config_home@,
        (None, Some(home)) => dir matches Some(dir) && dir@.len() == 3 && dir@[0]@ == home@
            && dir@[1]@ == ".config"@ && dir@[2]@ == "tacky-borders"@,
        (None, None) => dir is None,
    }
}

impl Config {
    /// Whether this is the configuration to fall back to: every switch off, no rules, and borders
    /// without width.
    pub open spec fn is_default(self) -> bool {
        &&& !self.watch_config_changes
        &&& !self.enable_logging
        &&& !self.enable_ipc_server
        &&& self.render_backend == RenderBackendConfig::V2
        &&& self.global.is_default()
        &&& self.window_rules@.len() == 0
    }

    /// Whether any window gets its colors from komorebi.
    pub open spec fn uses_komorebi(self) -> bool {
        self.global.komorebi_colors.enabled || exists|i: int|
            0 <= i < self.window_rules@.len() && (#[trigger] self.window_rules@[i]).wants_komorebi()
    }

    /// Whether any window has a color that changes with the theme.
    pub open spec fn follows_theme(self) -> bool {
        self.global.active_color is ThemeAware || self.global.inactive_color is ThemeAware
            || exists|i: int|
            0 <= i < self.window_rules@.len() && (
            #[trigger] self.window_rules@[i]).has_theme_aware_color()
    }

    /// The directory of the configuration, as path components: what the environment names, or the
    /// usual place under the home directory.
    pub fn get_dir(config_home: Option<String>, home: Option<String>) -> (dir: Option<Vec<String>>)
        ensures
            lies_in(config_home, home, dir),
            match (config_home, home) {
                (Some(config_home), _) => dir matches Some(dir) && dir@.len() == 1 && dir@[0]@
                    == config_home@,
                (None, Some(home)) => dir matches Some(dir) && dir@.len() == 3 && dir@[0]@ == home@
                    && dir@[1]@ == ".config"@ && dir@[2]@ == "tacky-borders"@,
                (None, None) => dir is None,
            },
    {
        let mut dir: Vec<String> = Vec::new();
        match config_home {
            Some(config_home) => {
                dir.push(config_home);
                Some(dir)
            },
            None => match home {
                Some(home) => {
                    dir.push(home);
                    dir.push(".config".to_owned());
                    dir.push("tacky-borders".to_owned());
                    Some(dir)
                },
                None => None,
            },
        }
    }

    /// The configuration to go on with. Where reading failed, that is the default.
    pub fn reload_with_status(created: Result<Config, String>) -> (outcome: ReloadOutcome)
        ensures
            goes_on_with(created, outcome),
            match created {
                Ok(config) => outcome.config == config && outcome.parsed_successfully
                    && outcome.error is None,
                Err(message) => outcome.config.is_default() && !outcome.parsed_successfully
                    && outcome.error == Some(message),
            },
    {
        match created {
            Ok(config) => ReloadOutcome { config, parsed_successfully: true, error: None },
            Err(message) => ReloadOutcome {
                config: Config::default(),
                parsed_successfully: false,
                error: Some(message),
            },
        }
    }

    /// Asks for the configuration to be read again.
    pub fn reload(control: &mut ReloadControl) -> (action: ReloadAction)
        requires
            old(control).wf(),
        ensures
            final(control).wf(),
            (*final(control), action) == old(control).after_request(),
    {
        request_config_reload(control)
    }

    pub fn is_config_watcher_enabled(&self) -> (enabled: bool)
        ensures
            enabled == self.watch_config_changes,
    {
        self.watch_config_changes
    }

    pub fn is_komorebi_integration_enabled(&self) -> (enabled: bool)
        ensures
            enabled == self.uses_komorebi(),
            enabled == (self.global.komorebi_colors.enabled || exists|i: int|
                0 <= i < self.window_rules@.len() && (
                #[trigger] self.window_rules@[i]).wants_komorebi()),
    {
        if self.global.komorebi_colors.enabled {
            return true;
        }
        for i in 0..self.window_rules.len()
            invariant
                forall|j: int|
                    0 <= j < i ==> !(#[trigger] self.window_rules@[j]).wants_komorebi(),
        {
            if let Some(colors) = &self.window_rules[i].komorebi_colors {
                if colors.enabled {
                    assert(self.window_rules@[i as int].wants_komorebi());
                    return true;
                }
            }
        }
        false
    }

    pub fn is_theme_aware_enabled(&self) -> (enabled: bool)
        ensures
            enabled == self.follows_theme(),
            enabled == (self.global.active_color is ThemeAware || self.global.inactive_color
                is ThemeAware || exists|i: int|
                0 <= i < self.window_rules@.len() && (
                #[trigger] self.window_rules@[i]).has_theme_aware_color()),
    {
        if Self::is_color_theme_aware(&self.global.active_color) || Self::is_color_theme_aware(
            &self.global.inactive_color,
        ) {
            return true;
        }
        for i in 0..self.window_rules.len()
            invariant
                forall|j: int|
                    0 <= j < i ==> !(#[trigger] self.window_rules@[j]).has_theme_aware_color(),
        {
            let active = match &self.window_rules[i].active_color {
                Some(color) => Self::is_color_theme_aware(color),
                None => false,
            };
            let inactive = match &self.window_rules[i].inactive_color {
                Some(color) => Self::is_color_theme_aware(color),
                None => false,
            };
            if active || inactive {
                assert(self.window_rules@[i as int].has_theme_aware_color());
                return true;
            }
        }
        false
    }

    pub fn is_color_theme_aware(config: &ColorBrushConfig) -> (aware: bool)
        ensures
            aware == (*config is ThemeAware),
    {
        matches!(config, ColorBrushConfig::ThemeAware(_))
    }

    pub fn is_ipc_server_enabled(&self) -> (enabled: bool)
        ensures
            enabled == self.enable_ipc_server,
    {
        self.enable_ipc_server
    }
}

/// How often a missing or empty file is looked at again before that is taken for the truth. Editors
/// that save leave such a gap.
pub const LOAD_RETRIES: u8 = 2;

/// How long to wait before looking again, in milliseconds.
pub const LOAD_RETRY_DELAY_MS: u64 = 20;

/// How far the reading of the configuration file has come.
#[derive(Debug, Clone, Copy, PartialEq, Eq, Structural)]
pub enum LoadStep {
    Checking { retries: u8 },
    WritingDefault,
    Reading { retries: u8 },
    Parsing,
}

#[derive(Debug, Clone, Copy, PartialEq, Eq, Structural)]
pub enum LoadAction {
    CheckExists { delay_ms: u64 },
    WriteDefault,
    Read { delay_ms: u64 },
    Parse,
}

impl LoadStep {
    pub fn start() -> (step: (Self, LoadAction))
        ensures
            step == (
                LoadStep::Checking { retries: LOAD_RETRIES },
                LoadAction::CheckExists { delay_ms: 0 },
            ),
    {
        (LoadStep::Checking { retries: LOAD_RETRIES }, LoadAction::CheckExists { delay_ms: 0 })
    }

    pub open spec fn after_check(self, exists: bool) -> (Self, LoadAction) {
        if exists {
            (LoadStep::Reading { retries: LOAD_RETRIES }, LoadAction::Read { delay_ms: 0 })
        } else if self->Checking_retries > 0 {
            (
                LoadStep::Checking { retries: (self->Checking_retries - 1) as u8 },
                LoadAction::CheckExists { delay_ms: LOAD_RETRY_DELAY_MS },
            )
        } else {
            (LoadStep::WritingDefault, LoadAction::WriteDefault)
        }
    }

    /// The next step once it is known whether the file is there.
    pub fn checked(self, exists: bool) -> (step: (Self, LoadAction))
        requires
            self is Checking,
        ensures
            step == self.after_check(exists),
    {
        let retries: u8 = match self {
            LoadStep::Checking { retries } => retries,
            _ => 0,
        };
        if exists {
            (LoadStep::Reading { retries: LOAD_RETRIES }, LoadAction::Read { delay_ms: 0 })
        } else if retries > 0 {
            (
                LoadStep::Checking { retries: retries - 1 },
                LoadAction::CheckExists { delay_ms: LOAD_RETRY_DELAY_MS },
            )
        } else {
            (LoadStep::WritingDefault, LoadAction::WriteDefault)
        }
    }

    pub open spec fn after_write() -> (Self, LoadAction) {
        (LoadStep::Reading { retries: LOAD_RETRIES }, LoadAction::Read { delay_ms: 0 })
    }

    /// The next step once the default file has been written.
    pub fn written(self) -> (step: (Self, LoadAction))
        requires
            self is WritingDefault,
        ensures
            step == Self::after_write(),
    {
        (LoadStep::Reading { retries: LOAD_RETRIES }, LoadAction::Read { delay_ms: 0 })
    }

    pub open spec fn after_read(self, is_empty: bool) -> (Self, LoadAction) {
        if is_empty && self->Reading_retries > 0 {
            (
                LoadStep::Reading { retries: (self->Reading_retries - 1) as u8 },
                LoadAction::Read { delay_ms: LOAD_RETRY_DELAY_MS },
            )
        } else {
            (LoadStep::Parsing, LoadAction::Parse)
        }
    }

    /// The next step once the file has been read.
    pub fn read(self, is_empty: bool) -> (step: (Self, LoadAction))
        requires
            self is Reading,
        ensures
            step == self.after_read(is_empty),
    {
        let retries: u8 = match self {
            LoadStep::Reading { retries } => retries,
            _ => 0,
        };
        if is_empty && retries > 0 {
            (
                LoadStep::Reading { retries: retries - 1 },
                LoadAction::Read { delay_ms: LOAD_RETRY_DELAY_MS },
            )
        } else {
            (LoadStep::Parsing, LoadAction::Parse)
        }
    }

    /// How many steps are left at most until the file is parsed.
    pub open spec fn steps_left(self) -> int {
        match self {
            LoadStep::Checking { retries } => retries + LOAD_RETRIES + 3,
            LoadStep::WritingDefault => LOAD_RETRIES + 2,
            LoadStep::Reading { retries } => retries + 1,
            LoadStep::Parsing => 0,
        }
    }
}

/// Whatever the file system answers, reading comes to an end: every answer leaves fewer steps.
pub proof fn law_loading_comes_to_an_end(step: LoadStep, answer: bool)
    ensures
        step is Checking ==> step.after_check(answer).0.steps_left() < step.steps_left(),
        step is WritingDefault ==> LoadStep::after_write().0.steps_left() < step.steps_left(),
        step is Reading ==> step.after_read(answer).0.steps_left() < step.steps_left(),
        step.steps_left() >= 0,
        step.steps_left() == 0 <==> step is Parsing,
{
}

/// A file that is there is never written over, and the first look at it that finds something in it
/// is the last.
pub proof fn law_present_file_is_read_as_it_is(step: LoadStep)
    ensures
        step.after_check(true).1 == (LoadAction::Read { delay_ms: 0 }),
        step.after_read(false) == (LoadStep::Parsing, LoadAction::Parse),
{
}

/// The global settings or any one rule suffice for komorebi to be asked, and for the theme to be
/// watched; where neither calls for it, it is not done.
pub proof fn law_one_rule_suffices_for_a_service(config: Config)
    ensures
        config.global.komorebi_colors.enabled ==> config.uses_komorebi(),
        forall|i: int|
            0 <= i < config.window_rules@.len() ==> (
            #[trigger] config.window_rules@[i].komorebi_colors matches Some(colors) ==> colors.enabled
                ==> config.uses_komorebi()),
        config.uses_komorebi() && !config.global.komorebi_colors.enabled ==> exists|i: int|
            0 <= i < config.window_rules@.len() && (
            #[trigger] config.window_rules@[i].komorebi_colors matches Some(colors)
                && colors.enabled),
        config.global.active_color is ThemeAware ==> config.follows_theme(),
        config.global.inactive_color is ThemeAware ==> config.follows_theme(),
        forall|i: int|
            0 <= i < config.window_rules@.len() ==> (
            #[trigger] config.window_rules@[i].active_color matches Some(color) ==> color
                is ThemeAware ==> config.follows_theme()),
        forall|i: int|
            0 <= i < config.window_rules@.len() ==> (
            #[trigger] config.window_rules@[i].inactive_color matches Some(color) ==> color
                is ThemeAware ==> config.follows_theme()),
        config.follows_theme() && config.global.active_color is Plain
            && config.global.inactive_color is Plain ==> exists|i: int|
            0 <= i < config.window_rules@.len() && ((
            #[trigger] config.window_rules@[i].active_color matches Some(color) && color
                is ThemeAware) || (config.window_rules@[i].inactive_color matches Some(color)
                && color is ThemeAware)),
{
    assert forall|i: int| 0 <= i < config.window_rules@.len() implies (
    #[trigger] config.window_rules@[i].komorebi_colors matches Some(colors) ==> colors.enabled
        ==> config.uses_komorebi()) by {
        let rule = config.window_rules@[i];
        if rule.komorebi_colors is Some && rule.komorebi_colors->0.enabled {
            assert(config.window_rules@[i].wants_komorebi());
        }
    }
    assert forall|i: int| 0 <= i < config.window_rules@.len() implies (
    #[trigger] config.window_rules@[i].active_color matches Some(color) ==> color is ThemeAware
        ==> config.follows_theme()) by {
        let rule = config.window_rules@[i];
        if rule.active_color is Some && rule.active_color->0 is ThemeAware {
            assert(config.window_rules@[i].has_theme_aware_color());
        }
    }
    assert forall|i: int| 0 <= i < config.window_rules@.len() implies (
    #[trigger] config.window_rules@[i].inactive_color matches Some(color) ==> color is ThemeAware
        ==> config.follows_theme()) by {
        let rule = config.window_rules@[i];
        if rule.inactive_color is Some && rule.inactive_color->0 is ThemeAware {
            assert(config.window_rules@[i].has_theme_aware_color());
        }
    }
    if config.uses_komorebi() && !config.global.komorebi_colors.enabled {
        let i = choose|i: int|
            0 <= i < config.window_rules@.len() && (
            #[trigger] config.window_rules@[i]).wants_komorebi();
        assert(config.window_rules@[i].komorebi_colors matches Some(colors) && colors.enabled);
    }
    if config.follows_theme() && config.global.active_color is Plain && config.global.inactive_color
        is Plain {
        let i = choose|i: int|
            0 <= i < config.window_rules@.len() && (
            #[trigger] config.window_rules@[i]).has_theme_aware_color();
        assert((config.window_rules@[i].active_color matches Some(color) && color is ThemeAware)
            || (config.window_rules@[i].inactive_color matches Some(color) && color is ThemeAware));
    }
}

/// One number stands for all four sides; four numbers stand each for its own.
pub proof fn law_offsets_have_four_sides(value: i32, sides: Offset)
    ensures
        OffsetConfig::Uniform(value).unscaled() == OffsetConfig::PerSide(
            Offset { top: value, left: value, right: value, bottom: value },
        ).unscaled(),
        OffsetConfig::Uniform(value).unscaled().top == value,
        OffsetConfig::PerSide(sides).unscaled() == sides,
{
}

/// A radius of its own is taken as it is, but for -1, which means the same as `Auto`; the named ones
/// go by their name whatever the window manager says. `Auto` follows the window manager: rounded for
/// its preference to round, half as much for rounding a little, square for not rounding; and where it
/// has no preference, or says nothing, rounded on the newer system and square on the older one.
pub proof fn law_radius_follows_window_or_name(
    radius: FloatBits,
    corner_preference: Option<i32>,
    is_windows_11: bool,
)
    ensures
        ({
            let eight = RadiusBasis::Adjusted(FloatBits { bits: 0x4100_0000 });
            let four = RadiusBasis::Adjusted(FloatBits { bits: 0x4080_0000 });
            let automatic = RadiusConfig::Auto.basis(corner_preference, is_windows_11);
            let custom = RadiusConfig::Custom(radius).basis(corner_preference, is_windows_11);
            &&& radius.bits == 0xbf80_0000 ==> custom == automatic
            &&& radius.bits != 0xbf80_0000 ==> custom == RadiusBasis::Adjusted(radius)
            &&& RadiusConfig::Round.basis(corner_preference, is_windows_11) == eight
            &&& RadiusConfig::RoundSmall.basis(corner_preference, is_windows_11) == four
            &&& RadiusConfig::Square.basis(corner_preference, is_windows_11) == RadiusBasis::Zero
            &&& corner_preference is None ==> automatic == RadiusConfig::Auto.basis(
                Some(0),
                is_windows_11,
            )
            &&& corner_preference == Some(0i32) ==> automatic == (if is_windows_11 {
                eight
            } else {
                RadiusBasis::Zero
            })
            &&& corner_preference == Some(1i32) ==> automatic == RadiusBasis::Zero
            &&& corner_preference == Some(2i32) ==> automatic == eight
            &&& corner_preference == Some(3i32) ==> automatic == four
            &&& corner_preference matches Some(other) ==> (other < 0 || other > 3 ==> automatic
                == RadiusBasis::Zero)
        }),
        RadiusConfig::Auto.follows_window(),
        RadiusConfig::Custom(radius).follows_window() <==> radius.bits == 0xbf80_0000,
        !RadiusConfig::Square.follows_window(),
        !RadiusConfig::Round.follows_window(),
        !RadiusConfig::RoundSmall.follows_window(),
{
}

/// A missing file is looked for again, twenty milliseconds later, as often as there are retries
/// left, and is written only then; a file that is there, or has just been written, is read at once.
/// An empty file is read again in the same way, and then taken as it is.
pub proof fn law_loading_waits_before_it_gives_up(retries: u8, exists: bool, is_empty: bool)
    ensures
        ({
            let (step, action) = LoadStep::Checking { retries }.after_check(exists);
            &&& action is WriteDefault <==> !exists && retries == 0
            &&& action is WriteDefault <==> step is WritingDefault
            &&& action is Read <==> exists
            &&& step is Reading <==> exists
            &&& !exists && retries > 0 ==> action == (LoadAction::CheckExists { delay_ms: 20 })
                && step == (LoadStep::Checking { retries: (retries - 1) as u8 })
            &&& exists ==> step == (LoadStep::Reading { retries: 2 }) && action == (
            LoadAction::Read { delay_ms: 0 })
        }),
        LoadStep::after_write() == (
            LoadStep::Reading { retries: 2 },
            LoadAction::Read { delay_ms: 0 },
        ),
        ({
            let (step, action) = LoadStep::Reading { retries }.after_read(is_empty);
            &&& action is Parse <==> !is_empty || retries == 0
            &&& action is Parse <==> step is Parsing
            &&& !(action is Parse) ==> action == (LoadAction::Read { delay_ms: 20 }) && step == (
            LoadStep::Reading { retries: (retries - 1) as u8 })
        }),
{
}

/// The settings to fall back to draw nothing and ask for nothing: no width, no offset, no switch, no
/// delay, no rule, no animation.
pub proof fn law_fallback_asks_for_nothing(config: Config)
    requires
        config.is_default(),
    ensures
        config.global.border_width.width.bits == 0,
        config.global.border_offset.unscaled() == (Offset { top: 0, left: 0, right: 0, bottom: 0 }),
        config.global.border_radius is Auto,
        config.global.border_z_order is AboveWindow,
        !config.global.follow_native_border,
        config.global.initialize_delay == 0,
        config.global.unminimize_delay == 0,
        config.global.animations.active@.len() == 0,
        config.global.animations.inactive@.len() == 0,
        !config.global.animations.enabled,
        config.global.active_color is Plain,
        config.global.inactive_color is Plain,
        !config.uses_komorebi(),
        !config.follows_theme(),
        !config.watch_config_changes,
        !config.enable_ipc_server,
        !config.enable_logging,
        config.window_rules@.len() == 0,
{
}

/// A configuration that could be read is the one to go on with, and is reported as read; otherwise
/// the one to go on with draws nothing, and the message is kept. Exactly one of the two happens.
pub proof fn law_unreadable_files_fall_back(
    created: Result<Config, String>,
    outcome: ReloadOutcome,
)
    requires
        goes_on_with(created, outcome),
    ensures
        outcome.parsed_successfully <==> created is Ok,
        outcome.error is None <==> created is Ok,
        created matches Ok(config) ==> outcome.config == config,
        created matches Err(message) ==> outcome.error == Some(message)
            && outcome.config.global.border_width.width.bits == 0
            && outcome.config.window_rules@.len() == 0 && !outcome.config.watch_config_changes,
{
}

/// The directory that the environment names comes before the home directory, whatever that is. Under
/// the home directory it is the last of three parts. Without either there is none.
pub proof fn law_named_directory_comes_first(
    config_home: Option<String>,
    home: Option<String>,
    other_home: Option<String>,
    dir: Option<Vec<String>>,
)
    requires
        lies_in(config_home, home, dir),
    ensures
        dir is None <==> config_home is None && home is None,
        config_home is Some ==> lies_in(config_home, other_home, dir),
        config_home matches Some(named) ==> dir->0@.len() == 1 && dir->0@[0]@ == named@,
        config_home is None ==> (home matches Some(named) ==> dir->0@.len() == 3 && dir->0@[0]@
            == named@ && dir->0@[1]@ == ".config"@ && dir->0@[2]@ == "tacky-borders"@),
{
}

} // verus!
