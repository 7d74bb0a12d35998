//! The settings of one border.

use vstd::prelude::*;

use crate::animations::{AnimationsConfig, AnimationsConfigView};
use crate::colors::ColorBrushConfig;
use crate::config::{Global, OffsetConfig, RadiusConfig, WidthConfig, WindowRule, ZOrderMode};
use crate::effects::EffectsConfig;
use crate::render_backend::RenderBackendConfig;

verus! {

/// What the rule that applies and the global settings come to.
#[derive(Debug, Clone, PartialEq)]
pub struct BorderConfig {
    pub render_backend: RenderBackendConfig,
    pub width: WidthConfig,
    pub offset: OffsetConfig,
    pub radius: RadiusConfig,
    pub z_order: ZOrderMode,
    pub follow_native_border: bool,
    pub active_color: ColorBrushConfig,
    pub inactive_color: ColorBrushConfig,
    pub animations: AnimationsConfig,
    pub effects: EffectsConfig,
    pub initialize_delay: u64,
    pub unminimize_delay: u64,
}

/// The rule's own setting, or the global one where the rule has none.
pub open spec fn setting<T>(own: Option<T>, global: T) -> T {
    match own {
        Some(value) => value,
        None => global,
    }
}

/// Whether these are the settings that a rule and the global settings come to.
pub open spec fn resolved(
    rule: WindowRule,
    global: Global,
    render_backend: RenderBackendConfig,
    is_initial_window: bool,
    config: BorderConfig,
) -> bool {
    &&& config.render_backend == render_backend
    &&& config.width == setting(rule.border_width, global.border_width)
    &&& config.offset == setting(rule.border_offset, global.border_offset)
    &&& config.radius == setting(rule.border_radius, global.border_radius)
    &&& config.z_order == setting(rule.border_z_order, global.border_z_order)
    &&& config.follow_native_border == setting(
        rule.follow_native_border,
        global.follow_native_border,
    )
    &&& config.active_color == setting(rule.active_color, global.active_color)
    &&& config.inactive_color == setting(rule.inactive_color, global.inactive_color)
    &&& config.animations@ == animations_setting(rule, global)
    &&& config.effects == setting(rule.effects, global.effects)
    &&& config.initialize_delay == (if is_initial_window {
        0
    } else {
        setting(rule.initialize_delay, global.initialize_delay)
    })
    &&& config.unminimize_delay == setting(rule.unminimize_delay, global.unminimize_delay)
}

/// How far a border window reaches beyond its border, given what each effect needs.
pub open spec fn padding_for(
    render_backend: RenderBackendConfig,
    active_paddings: Seq<i32>,
    inactive_paddings: Seq<i32>,
) -> i32 {
    match render_backend {
        RenderBackendConfig::V2 => if largest(active_paddings) > largest(inactive_paddings) {
            largest(active_paddings)
        } else {
            largest(inactive_paddings)
        },
        RenderBackendConfig::Legacy => 0,
    }
}

/// The animations a rule leads to.
pub open spec fn animations_setting(rule: WindowRule, global: Global) -> AnimationsConfigView {
    match rule.animations {
        Some(animations) => animations@,
        None => global.animations@,
    }
}

/// The largest number of a list, zero for an empty one.
pub open spec fn largest(numbers: Seq<i32>) -> i32
    decreases numbers.len(),
{
    if numbers.len() == 0 {
        0
    } else if numbers.len() == 1 {
        numbers[0]
    } else if largest(numbers.drop_last()) > numbers.last() {
        largest(numbers.drop_last())
    } else {
        numbers.last()
    }
}

fn max_padding(paddings: &Vec<i32>) -> (max: i32)
    ensures
        max == largest(paddings@),
{
    if paddings.len() == 0 {
        return 0;
    }
    let mut max: i32 = paddings[0];
    assert(paddings@.take(1) =~= seq![paddings@[0]]);
    for i in 1..paddings.len()
        invariant
            1 <= i <= paddings@.len(),
            max == largest(paddings@.take(i as int)),
    {
        assert(paddings@.take(i + 1).drop_last() =~= paddings@.take(i as int));
        if paddings[i] >= max {
            max = paddings[i];
        }
    }
    assert(paddings@.take(paddings@.len() as int) =~= paddings@);
    max
}

impl BorderConfig {
    /// Settings for a window. A window that was open from the start gets its border without delay.
    pub fn resolve(
        window_rule: &WindowRule,
        global: &Global,
        render_backend: RenderBackendConfig,
        is_initial_window: bool,
    ) -> (config: Self)
        ensures
            resolved(*window_rule, *global, render_backend, is_initial_window, config),
            config.render_backend == render_backend,
            config.width == setting(window_rule.border_width, global.border_width),
            config.offset == setting(window_rule.border_offset, global.border_offset),
            config.radius == setting(window_rule.border_radius, global.border_radius),
            config.z_order == setting(window_rule.border_z_order, global.border_z_order),
            config.follow_native_border == setting(
                window_rule.follow_native_border,
                global.follow_native_border,
            ),
            config.active_color == setting(window_rule.active_color, global.active_color),
            config.inactive_color == setting(window_rule.inactive_color, global.inactive_color),
            config.animations@ == animations_setting(*window_rule, *global),
            config.effects == setting(window_rule.effects, global.effects),
            config.initialize_delay == (if is_initial_window {
                0
            } else {
                setting(window_rule.initialize_delay, global.initialize_delay)
            }),
            config.unminimize_delay == setting(
                window_rule.unminimize_delay,
                global.unminimize_delay,
            ),
    {
        BorderConfig {
            render_backend,
            width: match window_rule.border_width {
                Some(width) => width,
                None => global.border_width,
            },
            offset: match window_rule.border_offset {
                Some(offset) => offset,
                None => global.border_offset,
            },
            radius: match window_rule.border_radius {
                Some(radius) => radius,
                None => global.border_radius,
            },
            z_order: match window_rule.border_z_order {
                Some(z_order) => z_order,
                None => global.border_z_order,
            },
            follow_native_border: match window_rule.follow_native_border {
                Some(follow) => follow,
                None => global.follow_native_border,
            },
            active_color: match &window_rule.active_color {
                Some(color) => color.clone(),
                None => global.active_color.clone(),
            },
            inactive_color: match &window_rule.inactive_color {
                Some(color) => color.clone(),
                None => global.inactive_color.clone(),
            },
            animations: match &window_rule.animations {
                Some(animations) => animations.clone(),
                None => global.animations.clone(),
            },
            effects: match &window_rule.effects {
                Some(effects) => effects.clone(),
                None => global.effects.clone(),
            },
            initialize_delay: if is_initial_window {
                0
            } else {
                match window_rule.initialize_delay {
                    Some(delay) => delay,
                    None => global.initialize_delay,
                }
            },
            unminimize_delay: match window_rule.unminimize_delay {
                Some(delay) => delay,
                None => global.unminimize_delay,
            },
        }
    }

    pub fn is_radius_auto(&self) -> (auto: bool)
        ensures
            auto == self.radius.follows_window(),
    {
        self.radius.is_auto()
    }

    /// How far the border window has to reach beyond the border, so that no effect is cut off. The
    /// arguments are what each effect needs in the active and in the inactive state.
    pub fn border_padding(
        &self,
        active_paddings: &Vec<i32>,
        inactive_paddings: &Vec<i32>,
    ) -> (padding: i32)
        ensures
            padding == padding_for(self.render_backend, active_paddings@, inactive_paddings@),
            padding == (match self.render_backend {
                RenderBackendConfig::V2 => if largest(active_paddings@) > largest(
                    inactive_paddings@,
                ) {
                    largest(active_paddings@)
                } else {
                    largest(inactive_paddings@)
                },
                RenderBackendConfig::Legacy => 0,
            }),
    {
        match self.render_backend {
            RenderBackendConfig::V2 => {
                let active: i32 = max_padding(active_paddings);
                let inactive: i32 = max_padding(inactive_paddings);
                if active > inactive {
                    active
                } else {
                    inactive
                }
            },
            RenderBackendConfig::Legacy => 0,
        }
    }
}

/// The largest number is one of the list, and none is larger.
pub proof fn law_largest_is_the_maximum(numbers: Seq<i32>)
    requires
        numbers.len() > 0,
    ensures
        numbers.contains(largest(numbers)),
        forall|i: int| 0 <= i < numbers.len() ==> #[trigger] numbers[i] <= largest(numbers),
    decreases numbers.len(),
{
    if numbers.len() == 1 {
        assert(numbers[0] == largest(numbers));
    } else {
        let shorter = numbers.drop_last();
        law_largest_is_the_maximum(shorter);
        let at = choose|at: int| 0 <= at < shorter.len() && shorter[at] == largest(shorter);
        assert(numbers[at] == largest(shorter));
        assert(numbers[numbers.len() - 1] == numbers.last());
        assert forall|i: int| 0 <= i < numbers.len() implies #[trigger] numbers[i] <= largest(
            numbers,
        ) by {
            if i < shorter.len() {
                assert(shorter[i] == numbers[i]);
            }
        }
    }
}

/// Each setting is the rule's own where the rule has one, and the global one where it has none. A
/// window that was open from the start waits for nothing; the renderer is the one that was given.
pub proof fn law_rules_override_global_settings(
    rule: WindowRule,
    global: Global,
    render_backend: RenderBackendConfig,
    is_initial_window: bool,
    config: BorderConfig,
)
    requires
        resolved(rule, global, render_backend, is_initial_window, config),
    ensures
        config.render_backend == render_backend,
        rule.border_width is Some ==> Some(config.width) == rule.border_width,
        rule.border_width is None ==> config.width == global.border_width,
        rule.border_offset is Some ==> Some(config.offset) == rule.border_offset,
        rule.border_offset is None ==> config.offset == global.border_offset,
        rule.border_radius is Some ==> Some(config.radius) == rule.border_radius,
        rule.border_radius is None ==> config.radius == global.border_radius,
        rule.border_z_order is Some ==> Some(config.z_order) == rule.border_z_order,
        rule.border_z_order is None ==> config.z_order == global.border_z_order,
        rule.follow_native_border is Some ==> Some(config.follow_native_border)
            == rule.follow_native_border,
        rule.follow_native_border is None ==> config.follow_native_border
            == global.follow_native_border,
        rule.active_color is Some ==> Some(config.active_color) == rule.active_color,
        rule.active_color is None ==> config.active_color == global.active_color,
        rule.inactive_color is Some ==> Some(config.inactive_color) == rule.inactive_color,
        rule.inactive_color is None ==> config.inactive_color == global.inactive_color,
        rule.animations matches Some(own) ==> config.animations.active@ == own.active@
            && config.animations.inactive@ == own.inactive@ && config.animations.fps == own.fps
            && config.animations.enabled == own.enabled,
        rule.animations is None ==> config.animations.active@ == global.animations.active@
            && config.animations.inactive@ == global.animations.inactive@ && config.animations.fps
            == global.animations.fps && config.animations.enabled == global.animations.enabled,
        rule.effects is Some ==> Some(config.effects) == rule.effects,
        rule.effects is None ==> config.effects == global.effects,
        is_initial_window ==> config.initialize_delay == 0,
        !is_initial_window && rule.initialize_delay is Some ==> Some(config.initialize_delay)
            == rule.initialize_delay,
        !is_initial_window && rule.initialize_delay is None ==> config.initialize_delay
            == global.initialize_delay,
        rule.unminimize_delay is Some ==> Some(config.unminimize_delay) == rule.unminimize_delay,
        rule.unminimize_delay is None ==> config.unminimize_delay == global.unminimize_delay,
{
}

/// With a renderer that draws effects the border window has room for each of them, in either state,
/// and no more than the one that needs most; without any effect, or with a renderer that draws none,
/// it has no room to spare.
pub proof fn law_padding_fits_every_effect(
    active_paddings: Seq<i32>,
    inactive_paddings: Seq<i32>,
)
    ensures
        ({
            let padding = padding_for(RenderBackendConfig::V2, active_paddings, inactive_paddings);
            &&& forall|i: int|
                0 <= i < active_paddings.len() ==> #[trigger] active_paddings[i] <= padding
            &&& forall|i: int|
                0 <= i < inactive_paddings.len() ==> #[trigger] inactive_paddings[i] <= padding
            &&& padding == 0 || active_paddings.contains(padding) || inactive_paddings.contains(
                padding,
            )
            &&& active_paddings.len() == 0 || inactive_paddings.len() == 0 ==> padding >= 0
            &&& padding == padding_for(
                RenderBackendConfig::V2,
                inactive_paddings,
                active_paddings,
            )
        }),
        padding_for(RenderBackendConfig::Legacy, active_paddings, inactive_paddings) == 0,
{
    if active_paddings.len() > 0 {
        law_largest_is_the_maximum(active_paddings);
    }
    if inactive_paddings.len() > 0 {
        law_largest_is_the_maximum(inactive_paddings);
    }
}

} // verus!
