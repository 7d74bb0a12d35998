//! Border animations: what the configuration asks for, and what is animated.

use vstd::prelude::*;

use crate::float_bits::{
    FloatBits, EIGHTEEN_HUNDRED_BITS, ONE_BITS, TWO_HUNDRED_BITS, ZERO_BITS,
};

verus! {

/// Whether the tracked window has the focus.
#[derive(Debug, Clone, Copy, PartialEq, Eq, Structural)]
pub enum WindowState {
    Active,
    Inactive,
}

#[derive(Debug, Clone, Copy, PartialEq, Eq, Structural)]
pub enum AnimType {
    Spiral,
    ReverseSpiral,
    Fade,
}

#[derive(Debug, Clone, Copy, PartialEq)]
pub enum AnimEasing {
    Linear,
    EaseIn,
    EaseInSine,
    EaseInQuad,
    EaseInCubic,
    EaseInQuart,
    EaseInQuint,
    EaseInExpo,
    EaseInCirc,
    EaseInBack,
    EaseOut,
    EaseOutSine,
    EaseOutQuad,
    EaseOutCubic,
    EaseOutQuart,
    EaseOutQuint,
    EaseOutExpo,
    EaseOutCirc,
    EaseOutBack,
    EaseInOut,
    EaseInOutSine,
    EaseInOutQuad,
    EaseInOutCubic,
    EaseInOutQuart,
    EaseInOutQuint,
    EaseInOutExpo,
    EaseInOutCirc,
    EaseInOutBack,
    CubicBezier([FloatBits; 4]),
}

/// The control points of a cubic Bezier curve: the named curves in hundredths, a configured one as
/// it was written.
#[derive(Debug, Clone, Copy, PartialEq)]
pub enum ControlPoints {
    Hundredths([i16; 4]),
    Exact([FloatBits; 4]),
}

/// The control points of a named curve, in hundredths.
pub open spec fn named_points(easing: AnimEasing) -> Seq<i16> {
    match easing {
        AnimEasing::Linear => seq![0, 0, 100, 100],
        AnimEasing::EaseIn => seq![42, 0, 100, 100],
        AnimEasing::EaseInSine => seq![12, 0, 39, 0],
        AnimEasing::EaseInQuad => seq![11, 0, 50, 0],
        AnimEasing::EaseInCubic => seq![32, 0, 67, 0],
        AnimEasing::EaseInQuart => seq![50, 0, 75, 0],
        AnimEasing::EaseInQuint => seq![64, 0, 78, 0],
        AnimEasing::EaseInExpo => seq![70, 0, 84, 0],
        AnimEasing::EaseInCirc => seq![55, 0, 100, 45],
        AnimEasing::EaseInBack => seq![36, 0, 66, (-56) as i16],
        AnimEasing::EaseOut => seq![0, 0, 58, 100],
        AnimEasing::EaseOutSine => seq![61, 100, 88, 100],
        AnimEasing::EaseOutQuad => seq![50, 100, 89, 100],
        AnimEasing::EaseOutCubic => seq![33, 100, 68, 100],
        AnimEasing::EaseOutQuart => seq![25, 100, 50, 100],
        AnimEasing::EaseOutQuint => seq![22, 100, 36, 100],
        AnimEasing::EaseOutExpo => seq![16, 100, 30, 100],
        AnimEasing::EaseOutCirc => seq![0, 55, 45, 100],
        AnimEasing::EaseOutBack => seq![34, 156, 64, 100],
        AnimEasing::EaseInOut => seq![42, 0, 58, 100],
        AnimEasing::EaseInOutSine => seq![37, 0, 63, 100],
        AnimEasing::EaseInOutQuad => seq![45, 0, 55, 100],
        AnimEasing::EaseInOutCubic => seq![65, 0, 35, 100],
        AnimEasing::EaseInOutQuart => seq![76, 0, 24, 100],
        AnimEasing::EaseInOutQuint => seq![83, 0, 17, 100],
        AnimEasing::EaseInOutExpo => seq![87, 0, 13, 100],
        AnimEasing::EaseInOutCirc => seq![85, 0, 15, 100],
        AnimEasing::EaseInOutBack => seq![68, (-60) as i16, 32, 160],
        AnimEasing::CubicBezier(_) => Seq::empty(),
    }
}

impl Default for AnimEasing {
    fn default() -> (easing: Self)
        ensures
            easing == AnimEasing::Linear,
    {
        AnimEasing::Linear
    }
}

impl AnimEasing {
    pub fn to_points(self) -> (points: ControlPoints)
        ensures
            match (self, points) {
                (AnimEasing::CubicBezier(own), ControlPoints::Exact(given)) => given == own,
                (AnimEasing::CubicBezier(_), ControlPoints::Hundredths(_)) => false,
                (_, ControlPoints::Hundredths(given)) => given@ == named_points(self),
                (_, ControlPoints::Exact(_)) => false,
            },
    {
        let points: [i16; 4] = match self {
            AnimEasing::Linear => [0, 0, 100, 100],
            AnimEasing::EaseIn => [42, 0, 100, 100],
            AnimEasing::EaseInSine => [12, 0, 39, 0],
            AnimEasing::EaseInQuad => [11, 0, 50, 0],
            AnimEasing::EaseInCubic => [32, 0, 67, 0],
            AnimEasing::EaseInQuart => [50, 0, 75, 0],
            AnimEasing::EaseInQuint => [64, 0, 78, 0],
            AnimEasing::EaseInExpo => [70, 0, 84, 0],
            AnimEasing::EaseInCirc => [55, 0, 100, 45],
            AnimEasing::EaseInBack => [36, 0, 66, -56],
            AnimEasing::EaseOut => [0, 0, 58, 100],
            AnimEasing::EaseOutSine => [61, 100, 88, 100],
            AnimEasing::EaseOutQuad => [50, 100, 89, 100],
            AnimEasing::EaseOutCubic => [33, 100, 68, 100],
            AnimEasing::EaseOutQuart => [25, 100, 50, 100],
            AnimEasing::EaseOutQuint => [22, 100, 36, 100],
            AnimEasing::EaseOutExpo => [16, 100, 30, 100],
            AnimEasing::EaseOutCirc => [0, 55, 45, 100],
            AnimEasing::EaseOutBack => [34, 156, 64, 100],
            AnimEasing::EaseInOut => [42, 0, 58, 100],
            AnimEasing::EaseInOutSine => [37, 0, 63, 100],
            AnimEasing::EaseInOutQuad => [45, 0, 55, 100],
            AnimEasing::EaseInOutCubic => [65, 0, 35, 100],
            AnimEasing::EaseInOutQuart => [76, 0, 24, 100],
            AnimEasing::EaseInOutQuint => [83, 0, 17, 100],
            AnimEasing::EaseInOutExpo => [87, 0, 13, 100],
            AnimEasing::EaseInOutCirc => [85, 0, 15, 100],
            AnimEasing::EaseInOutBack => [68, -60, 32, 160],
            AnimEasing::CubicBezier(points) => return ControlPoints::Exact(points),
        };
        assert(points@ =~= named_points(self));
        ControlPoints::Hundredths(points)
    }
}

#[derive(Debug, Clone, Copy, PartialEq)]
pub struct AnimParamsConfig {
    pub anim_type: AnimType,
    /// In milliseconds.
    pub duration: Option<FloatBits>,
    pub easing: Option<AnimEasing>,
}

/// An animation that is ready to run, its curve still given by its control points.
#[derive(Debug, Clone, Copy, PartialEq)]
pub struct AnimParams {
    pub anim_type: AnimType,
    /// In milliseconds.
    pub duration: FloatBits,
    pub easing: ControlPoints,
}

impl AnimParamsConfig {
    /// How long the animation takes where the configuration does not say.
    pub open spec fn usual_duration(self) -> u32 {
        match self.anim_type {
            AnimType::Spiral | AnimType::ReverseSpiral => EIGHTEEN_HUNDRED_BITS,
            AnimType::Fade => TWO_HUNDRED_BITS,
        }
    }

    pub open spec fn resolves_to(self, params: AnimParams) -> bool {
        &&& params.anim_type == self.anim_type
        &&& params.duration == (match self.duration {
            Some(duration) => duration,
            None => FloatBits { bits: self.usual_duration() },
        })
        &&& match self.easing {
            Some(AnimEasing::CubicBezier(own)) => params.easing == ControlPoints::Exact(own),
            Some(easing) => params.easing matches ControlPoints::Hundredths(points) && points@
                == named_points(easing),
            None => params.easing matches ControlPoints::Hundredths(points) && points@
                == named_points(AnimEasing::Linear),
        }
    }

    pub fn to_anim_params(&self) -> (params: AnimParams)
        ensures
            self.resolves_to(params),
    {
        let duration = match self.duration {
            Some(duration) => duration,
            None => match self.anim_type {
                AnimType::Spiral | AnimType::ReverseSpiral => FloatBits {
                    bits: EIGHTEEN_HUNDRED_BITS,
                },
                AnimType::Fade => FloatBits { bits: TWO_HUNDRED_BITS },
            },
        };
        let easing = match self.easing {
            Some(easing) => easing,
            None => AnimEasing::default(),
        };
        AnimParams { anim_type: self.anim_type, duration, easing: easing.to_points() }
    }
}

#[derive(Debug, PartialEq)]
pub struct AnimationsConfig {
    pub active: Vec<AnimParamsConfig>,
    pub inactive: Vec<AnimParamsConfig>,
    pub fps: i32,
    pub enabled: bool,
}

/// What an `AnimationsConfig` holds.
pub struct AnimationsConfigView {
    pub active: Seq<AnimParamsConfig>,
    pub inactive: Seq<AnimParamsConfig>,
    pub fps: i32,
    pub enabled: bool,
}

impl View for AnimationsConfig {
    type V = AnimationsConfigView;

    open spec fn view(&self) -> AnimationsConfigView {
        AnimationsConfigView {
            active: self.active@,
            inactive: self.inactive@,
            fps: self.fps,
            enabled: self.enabled,
        }
    }
}

impl Default for AnimationsConfig {
    /// No animations, and switched off.
    fn default() -> (config: Self)
        ensures
            config.is_default(),
    {
        AnimationsConfig { active: Vec::new(), inactive: Vec::new(), fps: 0, enabled: false }
    }
}

fn copy_params(params: &Vec<AnimParamsConfig>) -> (copy: Vec<AnimParamsConfig>)
    ensures
        copy@ == params@,
{
    let mut copy: Vec<AnimParamsConfig> = Vec::new();
    for i in 0..params.len()
        invariant
            copy@ == params@.take(i as int),
    {
        copy.push(params[i]);
    }
    assert(params@.take(params@.len() as int) =~= params@);
    copy
}

impl Clone for AnimationsConfig {
    fn clone(&self) -> (copy: Self)
        ensures
            copy@ == self@,
    {
        AnimationsConfig {
            active: copy_params(&self.active),
            inactive: copy_params(&self.inactive),
            fps: self.fps,
            enabled: self.enabled,
        }
    }
}

fn resolve_params(configs: &Vec<AnimParamsConfig>) -> (params: Vec<AnimParams>)
    ensures
        params@.len() == configs@.len(),
        forall|i: int| 0 <= i < params@.len() ==> #[trigger] configs@[i].resolves_to(params@[i]),
{
    let mut params: Vec<AnimParams> = Vec::new();
    for i in 0..configs.len()
        invariant
            params@.len() == i,
            forall|j: int| 0 <= j < i ==> #[trigger] configs@[j].resolves_to(params@[j]),
    {
        params.push(configs[i].to_anim_params());
    }
    params
}

impl AnimationsConfig {
    pub open spec fn is_default(self) -> bool {
        &&& self.active@.len() == 0
        &&& self.inactive@.len() == 0
        &&& self.fps == 0
        &&& !self.enabled
    }

    /// Whether these are the animations to run. There are none where animations are switched off.
    pub open spec fn resolves_to(&self, animations: Animations) -> bool {
        &&& animations.fade_progress == (FloatBits { bits: ZERO_BITS })
        &&& animations.spiral_progress == (FloatBits { bits: ZERO_BITS })
        &&& if self.enabled {
            &&& animations.fps == self.fps
            &&& animations.active@.len() == self.active@.len()
            &&& animations.inactive@.len() == self.inactive@.len()
            &&& forall|i: int|
                0 <= i < self.active@.len() ==> #[trigger] self.active@[i].resolves_to(
                    animations.active@[i],
                )
            &&& forall|i: int|
                0 <= i < self.inactive@.len() ==> #[trigger] self.inactive@[i].resolves_to(
                    animations.inactive@[i],
                )
        } else {
            &&& animations.fps == 0
            &&& animations.active@.len() == 0
            &&& animations.inactive@.len() == 0
        }
    }

    /// The animations to run, from their beginning.
    pub fn to_animations(&self) -> (animations: Animations)
        ensures
            self.resolves_to(animations),
    {
        if self.enabled {
            Animations {
                active: resolve_params(&self.active),
                inactive: resolve_params(&self.inactive),
                fps: self.fps,
                fade_progress: FloatBits { bits: ZERO_BITS },
                spiral_progress: FloatBits { bits: ZERO_BITS },
            }
        } else {
            Animations::default()
        }
    }
}

/// The animations of one border and how far they have come.
#[derive(Debug, PartialEq)]
pub struct Animations {
    pub active: Vec<AnimParams>,
    pub inactive: Vec<AnimParams>,
    pub fps: i32,
    pub fade_progress: FloatBits,
    pub spiral_progress: FloatBits,
}

impl Default for Animations {
    fn default() -> (animations: Self)
        ensures
            animations.active@.len() == 0,
            animations.inactive@.len() == 0,
            animations.fps == 0,
            animations.fade_progress == (FloatBits { bits: ZERO_BITS }),
            animations.spiral_progress == (FloatBits { bits: ZERO_BITS }),
    {
        Animations {
            active: Vec::new(),
            inactive: Vec::new(),
            fps: 0,
            fade_progress: FloatBits { bits: ZERO_BITS },
            spiral_progress: FloatBits { bits: ZERO_BITS },
        }
    }
}

impl Animations {
    pub open spec fn current(&self, window_state: WindowState) -> Seq<AnimParams> {
        match window_state {
            WindowState::Active => self.active@,
            WindowState::Inactive => self.inactive@,
        }
    }

    /// The animations that run while the window is in this state.
    pub fn get_current(&self, window_state: WindowState) -> (params: &Vec<AnimParams>)
        ensures
            params@ == self.current(window_state),
    {
        match window_state {
            WindowState::Active => &self.active,
            WindowState::Inactive => &self.inactive,
        }
    }

    pub fn is_enabled(&self) -> (enabled: bool)
        ensures
            enabled == (self.active@.len() > 0 || self.inactive@.len() > 0),
    {
        self.active.len() > 0 || self.inactive.len() > 0
    }

    /// Frames per second, at least one.
    pub fn fps(&self) -> (fps: u32)
        ensures
            fps == frame_rate(self.fps),
            fps == (if self.fps < 1 {
                1
            } else {
                self.fps
            }),
    {
        if self.fps < 1 {
            1
        } else {
            self.fps as u32
        }
    }

    /// Puts the fade where it ends in this state.
    pub fn update_fade_progress(&mut self, window_state: WindowState)
        ensures
            final(self).fade_progress == settled_fade(window_state),
            final(self).fade_progress == (FloatBits {
                bits: if window_state == WindowState::Active {
                    ONE_BITS
                } else {
                    ZERO_BITS
                },
            }),
            final(self).active == old(self).active,
            final(self).inactive == old(self).inactive,
            final(self).fps == old(self).fps,
            final(self).spiral_progress == old(self).spiral_progress,
    {
        self.fade_progress = match window_state {
            WindowState::Active => FloatBits { bits: ONE_BITS },
            WindowState::Inactive => FloatBits { bits: ZERO_BITS },
        };
    }
}

pub trait AnimVec {
    spec fn has_type(&self, anim_type: AnimType) -> bool;

    fn contains_type(&self, anim_type: AnimType) -> (found: bool)
        ensures
            found == self.has_type(anim_type),
    ;
}

impl AnimVec for Vec<AnimParams> {
    open spec fn has_type(&self, anim_type: AnimType) -> bool {
        exists|i: int| 0 <= i < self@.len() && (#[trigger] self@[i]).anim_type == anim_type
    }

    fn contains_type(&self, anim_type: AnimType) -> (found: bool) {
        for i in 0..self.len()
            invariant
                forall|j: int| 0 <= j < i ==> (#[trigger] self@[j]).anim_type != anim_type,
        {
            if self[i].anim_type == anim_type {
                return true;
            }
        }
        false
    }
}

/// Whether one curve is another one run backwards: its points are the other's, in reverse order and
/// seen from the far corner.
pub open spec fn mirrored(one: AnimEasing, other: AnimEasing) -> bool {
    let from = named_points(one);
    let to = named_points(other);
    &&& from.len() == 4
    &&& to.len() == 4
    &&& to[0] == 100 - from[2]
    &&& to[1] == 100 - from[3]
    &&& to[2] == 100 - from[0]
    &&& to[3] == 100 - from[1]
}

/// Each curve that eases out is the one of the same name that eases in, run backwards; each that
/// does both, and the straight line, is the same in either direction.
pub proof fn law_easing_curves_mirror_each_other()
    ensures
        mirrored(AnimEasing::Linear, AnimEasing::Linear),
        mirrored(AnimEasing::EaseIn, AnimEasing::EaseOut),
        mirrored(AnimEasing::EaseInSine, AnimEasing::EaseOutSine),
        mirrored(AnimEasing::EaseInQuad, AnimEasing::EaseOutQuad),
        mirrored(AnimEasing::EaseInCubic, AnimEasing::EaseOutCubic),
        mirrored(AnimEasing::EaseInQuart, AnimEasing::EaseOutQuart),
        mirrored(AnimEasing::EaseInQuint, AnimEasing::EaseOutQuint),
        mirrored(AnimEasing::EaseInExpo, AnimEasing::EaseOutExpo),
        mirrored(AnimEasing::EaseInCirc, AnimEasing::EaseOutCirc),
        mirrored(AnimEasing::EaseInBack, AnimEasing::EaseOutBack),
        mirrored(AnimEasing::EaseInOut, AnimEasing::EaseInOut),
        mirrored(AnimEasing::EaseInOutSine, AnimEasing::EaseInOutSine),
        mirrored(AnimEasing::EaseInOutQuad, AnimEasing::EaseInOutQuad),
        mirrored(AnimEasing::EaseInOutCubic, AnimEasing::EaseInOutCubic),
        mirrored(AnimEasing::EaseInOutQuart, AnimEasing::EaseInOutQuart),
        mirrored(AnimEasing::EaseInOutQuint, AnimEasing::EaseInOutQuint),
        mirrored(AnimEasing::EaseInOutExpo, AnimEasing::EaseInOutExpo),
        mirrored(AnimEasing::EaseInOutCirc, AnimEasing::EaseInOutCirc),
        mirrored(AnimEasing::EaseInOutBack, AnimEasing::EaseInOutBack),
{
}

/// A named curve never runs back in time, and no two of them are the same.
pub proof fn law_named_curves_are_curves_of_their_own(one: AnimEasing, other: AnimEasing)
    requires
        one !is CubicBezier,
        other !is CubicBezier,
    ensures
        named_points(one).len() == 4,
        0 <= named_points(one)[0] <= 100,
        0 <= named_points(one)[2] <= 100,
        named_points(one) == named_points(other) ==> one == other,
{
    let mine = named_points(one);
    let theirs = named_points(other);
    if mine == theirs {
        assert(mine[0] == theirs[0] && mine[1] == theirs[1] && mine[2] == theirs[2] && mine[3]
            == theirs[3]);
    }
}

/// An animation keeps its type, and the duration and the curve that it was given. Where it was given
/// none it takes 1800 milliseconds for a turn and 200 for a fade, and runs evenly.
pub proof fn law_animations_keep_what_they_are_given(config: AnimParamsConfig, params: AnimParams)
    requires
        config.resolves_to(params),
    ensures
        params.anim_type == config.anim_type,
        config.duration matches Some(duration) ==> params.duration == duration,
        config.duration is None && config.anim_type is Fade ==> params.duration.bits == 0x4348_0000,
        config.duration is None && config.anim_type !is Fade ==> params.duration.bits
            == 0x44e1_0000,
        config.easing matches Some(AnimEasing::CubicBezier(own)) ==> params.easing
            == ControlPoints::Exact(own),
        config.easing is None ==> (AnimParamsConfig {
            easing: Some(AnimEasing::Linear),
            ..config
        }).resolves_to(params),
        !(config.easing is Some && config.easing->0 is CubicBezier) ==> params.easing
            is Hundredths,
        params.easing matches ControlPoints::Hundredths(points) ==> (config.easing matches Some(
            easing,
        ) ==> points@ == named_points(easing)),
        params.easing matches ControlPoints::Hundredths(points) ==> (config.easing is None
            ==> points@ == seq![0i16, 0i16, 100i16, 100i16]),
{
}

/// Animations that are switched off are none. Those that are switched on are all there, in their
/// order, in the state that they were configured for, and start at their beginning.
pub proof fn law_switched_off_animations_are_none(config: AnimationsConfig, animations: Animations)
    requires
        config.resolves_to(animations),
    ensures
        animations.fade_progress.bits == 0,
        animations.spiral_progress.bits == 0,
        !config.enabled ==> animations.current(WindowState::Active).len() == 0
            && animations.current(WindowState::Inactive).len() == 0 && animations.fps == 0,
        config.enabled ==> {
            &&& animations.fps == config.fps
            &&& animations.current(WindowState::Active).len() == config.active@.len()
            &&& animations.current(WindowState::Inactive).len() == config.inactive@.len()
            &&& forall|i: int|
                0 <= i < config.active@.len() ==> (#[trigger] animations.current(
                    WindowState::Active,
                )[i]).anim_type == config.active@[i].anim_type
            &&& forall|i: int|
                0 <= i < config.inactive@.len() ==> (#[trigger] animations.current(
                    WindowState::Inactive,
                )[i]).anim_type == config.inactive@[i].anim_type
        },
{
    if config.enabled {
        assert forall|i: int| 0 <= i < config.active@.len() implies (#[trigger] animations.current(
            WindowState::Active,
        )[i]).anim_type == config.active@[i].anim_type by {
            assert(config.active@[i].resolves_to(animations.active@[i]));
        }
        assert forall|i: int| 0 <= i < config.inactive@.len() implies (#[trigger] animations.current(
            WindowState::Inactive,
        )[i]).anim_type == config.inactive@[i].anim_type by {
            assert(config.inactive@[i].resolves_to(animations.inactive@[i]));
        }
    }
}

/// The frame rate that a configured one comes to.
pub open spec fn frame_rate(fps: i32) -> u32 {
    if fps < 1 {
        1
    } else {
        fps as u32
    }
}

/// How far a fade has come once it has settled in this state.
pub open spec fn settled_fade(window_state: WindowState) -> FloatBits {
    FloatBits {
        bits: if window_state == WindowState::Active {
            ONE_BITS
        } else {
            ZERO_BITS
        },
    }
}

/// There is at least one frame per second, a positive rate is kept as it is, and a higher one never
/// comes to less. A fade settles at one end for an active window and at the other for an inactive one.
pub proof fn law_frame_rates_are_kept(fps: i32, higher: i32)
    requires
        fps <= higher,
    ensures
        1 <= frame_rate(fps) <= frame_rate(higher),
        fps >= 1 ==> frame_rate(fps) == fps,
        fps < 1 ==> frame_rate(fps) == 1,
        settled_fade(WindowState::Active).bits == 0x3f80_0000,
        settled_fade(WindowState::Inactive).bits == 0,
{
}

/// A list of animations has a type exactly if one of them is of that type, wherever it stands.
pub proof fn law_types_are_found_anywhere(animations: Vec<AnimParams>, anim_type: AnimType, at: int)
    ensures
        0 <= at < animations@.len() && animations@[at].anim_type == anim_type
            ==> animations.has_type(anim_type),
        animations@.len() == 0 ==> !animations.has_type(anim_type),
        (forall|i: int|
            0 <= i < animations@.len() ==> (#[trigger] animations@[i]).anim_type != anim_type)
            ==> !animations.has_type(anim_type),
{
}

/// The default is to animate nothing, in either state, and to be switched off.
pub proof fn law_default_animates_nothing(config: AnimationsConfig, animations: Animations)
    requires
        config.is_default(),
        config.resolves_to(animations),
    ensures
        config.active@.len() == 0,
        config.inactive@.len() == 0,
        !config.enabled,
        animations.current(WindowState::Active).len() == 0,
        animations.current(WindowState::Inactive).len() == 0,
        animations.fps == 0,
{
}

} // verus!
