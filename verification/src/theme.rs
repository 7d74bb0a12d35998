//! Following the system's light or dark theme.

use vstd::prelude::*;

use crate::config_watcher::{WAIT_OBJECT_0, WAIT_OBJECT_1, WAIT_TIMEOUT};

verus! {

pub const WAIT_ABANDONED_0: u32 = 128;

pub const WAIT_ABANDONED_1: u32 = 129;

pub const WAIT_FAILED: u32 = 0xffff_ffff;

/// How long a change of theme may take to settle, in milliseconds.
pub const THEME_SETTLE_MS: u32 = 200;

/// Whether a setting, if there is one, means the light theme.
pub open spec fn light_theme(stored: Option<u32>) -> bool {
    stored == Some(1u32)
}

/// Whether the system uses its light theme. `stored` is the system's setting, if it could be read;
/// without one the theme is dark.
pub fn is_light_theme(stored: Option<u32>) -> (light: bool)
    ensures
        light == light_theme(stored),
        light == (stored == Some(1u32)),
{
    match stored {
        Some(value) => value == 1,
        None => false,
    }
}

/// What the theme watcher is doing.
#[derive(Debug, Clone, Copy, PartialEq, Eq, Structural)]
pub enum ThemePhase {
    /// Asking the system to report changes of the setting.
    Registering,
    /// Waiting for a change or for the stop signal.
    Waiting,
    /// Reading the setting.
    Reading,
    /// Giving the new theme time to settle, or waiting for the stop signal.
    Settling,
    Stopped,
}

#[derive(Debug, Clone, Copy, PartialEq, Eq, Structural)]
pub struct ThemeWatcher {
    /// Whether the theme was light when last looked at.
    pub last_theme: bool,
    pub phase: ThemePhase,
}

impl ThemeWatcher {
    pub open spec fn after_registration(self, succeeded: bool) -> Self {
        ThemeWatcher {
            phase: if succeeded {
                ThemePhase::Waiting
            } else {
                ThemePhase::Stopped
            },
            ..self
        }
    }

    pub open spec fn after_wait(self, wait_result: u32) -> Self {
        ThemeWatcher {
            phase: if wait_result == WAIT_OBJECT_1 || wait_result == WAIT_ABANDONED_0 || wait_result
                == WAIT_ABANDONED_1 || wait_result == WAIT_FAILED {
                ThemePhase::Stopped
            } else {
                ThemePhase::Reading
            },
            ..self
        }
    }

    pub open spec fn after_read(self, is_light: bool) -> Self {
        ThemeWatcher {
            last_theme: is_light,
            phase: if is_light != self.last_theme {
                ThemePhase::Settling
            } else {
                ThemePhase::Registering
            },
        }
    }

    /// The watcher after the wait for the theme to settle, and whether borders follow the theme.
    pub open spec fn after_settling(self, wait_result: u32) -> (Self, bool) {
        let reload = wait_result == WAIT_TIMEOUT;
        (
            ThemeWatcher {
                phase: if reload {
                    ThemePhase::Registering
                } else {
                    ThemePhase::Stopped
                },
                ..self
            },
            reload,
        )
    }

    pub fn new(is_light: bool) -> (watcher: Self)
        ensures
            watcher == (ThemeWatcher { last_theme: is_light, phase: ThemePhase::Registering }),
    {
        ThemeWatcher { last_theme: is_light, phase: ThemePhase::Registering }
    }

    /// The system has taken the request for reports, or refused it.
    pub fn registered(&mut self, succeeded: bool)
        requires
            old(self).phase == ThemePhase::Registering,
        ensures
            *final(self) == old(self).after_registration(succeeded),
            *final(self) == (ThemeWatcher {
                phase: if succeeded {
                    ThemePhase::Waiting
                } else {
                    ThemePhase::Stopped
                },
                ..*old(self)
            }),
    {
        self.phase = if succeeded {
            ThemePhase::Waiting
        } else {
            ThemePhase::Stopped
        };
    }

    /// The wait for a change (first object) or the stop signal (second object) has ended.
    pub fn waited(&mut self, wait_result: u32)
        requires
            old(self).phase == ThemePhase::Waiting,
        ensures
            *final(self) == old(self).after_wait(wait_result),
    {
        self.phase = if wait_result == WAIT_OBJECT_1 {
            ThemePhase::Stopped
        } else if wait_result == WAIT_ABANDONED_0 || wait_result == WAIT_ABANDONED_1 || wait_result
            == WAIT_FAILED {
            ThemePhase::Stopped
        } else {
            ThemePhase::Reading
        };
    }

    /// The setting has been read. Other settings may have changed without the theme.
    pub fn theme_read(&mut self, is_light: bool)
        requires
            old(self).phase == ThemePhase::Reading,
        ensures
            *final(self) == old(self).after_read(is_light),
    {
        if is_light != self.last_theme {
            self.last_theme = is_light;
            self.phase = ThemePhase::Settling;
        } else {
            self.phase = ThemePhase::Registering;
        }
    }

    /// The wait for the stop signal has ended. Says whether borders are to be reloaded: only where
    /// it ran into its timeout, so that nothing is reloaded once the end has begun.
    pub fn settled(&mut self, wait_result: u32) -> (reload: bool)
        requires
            old(self).phase == ThemePhase::Settling,
        ensures
            (*final(self), reload) == old(self).after_settling(wait_result),
    {
        if wait_result == WAIT_OBJECT_0 {
            self.phase = ThemePhase::Stopped;
            return false;
        }
        if wait_result != WAIT_TIMEOUT {
            self.phase = ThemePhase::Stopped;
            return false;
        }
        self.phase = ThemePhase::Registering;
        true
    }
}

/// The stop signal ends the watcher from either wait, and no reload comes after it.
pub proof fn law_stop_signal_ends_theme_watcher(watcher: ThemeWatcher)
    ensures
        watcher.after_wait(WAIT_OBJECT_1).phase == ThemePhase::Stopped,
        watcher.after_settling(WAIT_OBJECT_0).0.phase == ThemePhase::Stopped,
        !watcher.after_settling(WAIT_OBJECT_0).1,
{
}

/// A report leads to a reload only if it comes with another theme than the one last seen. A second
/// report of the same theme does not.
pub proof fn law_only_another_theme_reloads(watcher: ThemeWatcher, is_light: bool)
    ensures
        watcher.after_read(is_light).phase == ThemePhase::Settling <==> is_light
            != watcher.last_theme,
        watcher.after_read(is_light).after_read(is_light).phase == ThemePhase::Registering,
{
}

/// The wait for a change ends the watcher on the stop signal and on every failure, and on nothing
/// else; what was last seen stays. The setting that is read is remembered. The wait for the theme to
/// settle leads to a reload exactly if it ran into its timeout, and ends the watcher otherwise.
pub proof fn law_theme_watcher_goes_on_until_stopped(
    watcher: ThemeWatcher,
    wait_result: u32,
    is_light: bool,
)
    ensures
        watcher.after_wait(wait_result).phase == ThemePhase::Reading
            || watcher.after_wait(wait_result).phase == ThemePhase::Stopped,
        watcher.after_wait(wait_result).phase == ThemePhase::Stopped <==> wait_result == 1
            || wait_result == 0x80 || wait_result == 0x81 || wait_result == u32::MAX,
        watcher.after_wait(wait_result).last_theme == watcher.last_theme,
        watcher.after_read(is_light).last_theme == is_light,
        watcher.after_read(is_light).phase == ThemePhase::Settling || watcher.after_read(
            is_light,
        ).phase == ThemePhase::Registering,
        watcher.after_settling(wait_result).1 <==> wait_result == 0x102,
        watcher.after_settling(wait_result).0.phase == ThemePhase::Registering <==> wait_result
            == 0x102,
        wait_result != 0x102 ==> watcher.after_settling(wait_result).0.phase == ThemePhase::Stopped,
        watcher.after_settling(wait_result).0.last_theme == watcher.last_theme,
{
}

/// One setting means the light theme, every other one and none the dark theme. The watcher waits for
/// changes exactly if the system has agreed to report them.
pub proof fn law_one_setting_means_light(
    stored: Option<u32>,
    watcher: ThemeWatcher,
    succeeded: bool,
)
    ensures
        light_theme(stored) ==> stored is Some && stored->0 == 1,
        stored is None ==> !light_theme(stored),
        light_theme(Some(1)),
        !light_theme(Some(0)),
        watcher.after_registration(succeeded).phase is Waiting <==> succeeded,
        watcher.after_registration(succeeded).phase is Stopped <==> !succeeded,
        watcher.after_registration(succeeded).last_theme == watcher.last_theme,
{
}

} // verus!
