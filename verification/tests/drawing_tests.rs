use tacky_borders::animations::{
    AnimEasing, AnimParams, AnimParamsConfig, AnimType, AnimVec, AnimationsConfig, Animations,
    ControlPoints, WindowState,
};
use tacky_borders::border_drawer::{
    animate_step, AnimatePass, AnimateStep, BorderDrawer, BrushFacts, ColorRole, DrawOp, InitOp,
    ReleaseOp, RenderError, RenderFacts, RenderTarget, Shape,
};
use tacky_borders::float_bits::FloatBits;
use tacky_borders::render_backend::RenderBackend;

fn bits(value: f32) -> FloatBits {
    FloatBits {
        bits: value.to_bits(),
    }
}

fn brush(opacity: f32) -> BrushFacts {
    BrushFacts {
        opacity: Some(bits(opacity)),
        is_gradient: false,
        ready: true,
    }
}

fn facts() -> RenderFacts {
    RenderFacts {
        window_state: WindowState::Active,
        active: brush(1.0),
        inactive: brush(0.0),
        effects_apply: false,
        has_border_bitmap: true,
        has_mask_bitmap: true,
        has_command_list: true,
        stroke_radius: bits(8.0),
        outer_radius: bits(10.0),
        inner_radius: bits(0.0),
    }
}

fn drawer(backend: RenderBackend) -> BorderDrawer {
    let mut drawer = BorderDrawer::default();
    drawer.init(backend);
    drawer
}

const ROUNDED: Shape = Shape::RoundedRectangle;

#[test]
fn numbers_compare_as_numbers() {
    assert_eq!(bits(0.0), bits(-0.0));
    assert!(bits(f32::NAN) != bits(f32::NAN));
    assert_eq!(bits(f32::INFINITY), bits(f32::INFINITY));
    assert!(bits(f32::INFINITY) != bits(f32::NEG_INFINITY));
    assert!(bits(1.0) != bits(-1.0));
    for value in [1.0, f32::MIN_POSITIVE, f32::INFINITY, 1e-45] {
        assert!(bits(value).is_positive());
        assert!(!bits(-value).is_positive());
    }
    for value in [0.0, -0.0, f32::NAN, -f32::NAN] {
        assert!(!bits(value).is_positive());
    }
}

#[test]
fn legacy_renderer_strokes_the_visible_color() {
    let mut drawer = drawer(RenderBackend::Legacy);
    assert_eq!(
        drawer.render(&facts(), 5),
        vec![
            DrawOp::BeginDraw,
            DrawOp::Clear,
            DrawOp::Stroke {
                color: ColorRole::Active,
                shape: ROUNDED
            },
            DrawOp::FinishDraw,
        ]
    );
    assert_eq!(drawer.last_render_time, Some(5));
}

#[test]
fn own_color_is_drawn_over_the_other_one() {
    let mut drawer = drawer(RenderBackend::V2);
    let faded = RenderFacts {
        active: BrushFacts {
            is_gradient: true,
            ..brush(0.4)
        },
        inactive: brush(0.6),
        stroke_radius: bits(0.0),
        ..facts()
    };
    assert_eq!(
        drawer.render(&faded, 0),
        vec![
            DrawOp::EnterMultithread,
            DrawOp::BeginSurface,
            DrawOp::CreateTargetBitmap,
            DrawOp::SetTarget(RenderTarget::Display),
            DrawOp::BeginDraw,
            DrawOp::Clear,
            DrawOp::Stroke {
                color: ColorRole::Inactive,
                shape: Shape::Rectangle
            },
            DrawOp::UpdateGradient(ColorRole::Active),
            DrawOp::Stroke {
                color: ColorRole::Active,
                shape: Shape::Rectangle
            },
            DrawOp::FinishDraw,
            DrawOp::FinishSurface,
            DrawOp::Commit,
            DrawOp::LeaveMultithread,
        ]
    );
    let inactive = RenderFacts {
        window_state: WindowState::Inactive,
        ..faded
    };
    let ops = drawer.render(&inactive, 0);
    assert_eq!(ops[6], DrawOp::UpdateGradient(ColorRole::Active));
    assert_eq!(
        ops[8],
        DrawOp::Stroke {
            color: ColorRole::Inactive,
            shape: Shape::Rectangle
        }
    );
}

#[test]
fn effects_are_composed_from_border_and_mask() {
    let mut drawer = drawer(RenderBackend::V2);
    let with_effects = RenderFacts {
        effects_apply: true,
        ..facts()
    };
    assert_eq!(
        drawer.render(&with_effects, 0),
        vec![
            DrawOp::SetTarget(RenderTarget::Border),
            DrawOp::BeginDraw,
            DrawOp::Clear,
            DrawOp::FillOuter {
                color: ColorRole::Active,
                shape: ROUNDED
            },
            DrawOp::FinishDraw,
            DrawOp::SetTarget(RenderTarget::Mask),
            DrawOp::CreateOpaqueBrush,
            DrawOp::BeginDraw,
            DrawOp::Clear,
            DrawOp::FillInner {
                shape: Shape::Rectangle
            },
            DrawOp::FinishDraw,
            DrawOp::EnterMultithread,
            DrawOp::BeginSurface,
            DrawOp::CreateTargetBitmap,
            DrawOp::SetTarget(RenderTarget::Display),
            DrawOp::BeginDraw,
            DrawOp::Clear,
            DrawOp::DrawCommandList,
            DrawOp::FinishDraw,
            DrawOp::FinishSurface,
            DrawOp::Commit,
            DrawOp::LeaveMultithread,
        ]
    );
}

#[test]
fn drawings_fail_where_something_is_missing() {
    let fails = |backend: RenderBackend, facts: RenderFacts| {
        let ops = drawer(backend).render(&facts, 0);
        match ops[ops.len() - 1] {
            DrawOp::Fail(error) => Some((ops.len(), error)),
            _ => None,
        }
    };
    let effects = RenderFacts {
        effects_apply: true,
        ..facts()
    };
    assert_eq!(
        fails(RenderBackend::Absent, facts()),
        Some((1, RenderError::NoBackend))
    );
    assert_eq!(
        fails(
            RenderBackend::V2,
            RenderFacts {
                has_border_bitmap: false,
                ..effects
            }
        ),
        Some((1, RenderError::NoBorderBitmap))
    );
    assert_eq!(
        fails(
            RenderBackend::V2,
            RenderFacts {
                has_mask_bitmap: false,
                ..effects
            }
        ),
        Some((6, RenderError::NoMaskBitmap))
    );
    assert_eq!(
        fails(
            RenderBackend::V2,
            RenderFacts {
                has_command_list: false,
                ..effects
            }
        ),
        Some((16, RenderError::NoCommandList))
    );
    let unknown = BrushFacts {
        opacity: None,
        ..brush(1.0)
    };
    assert_eq!(
        fails(
            RenderBackend::Legacy,
            RenderFacts {
                inactive: unknown,
                ..facts()
            }
        ),
        Some((3, RenderError::UnknownOpacity))
    );
    assert_eq!(
        fails(
            RenderBackend::Legacy,
            RenderFacts {
                active: unknown,
                inactive: brush(0.5),
                ..facts()
            }
        ),
        Some((4, RenderError::UnknownOpacity))
    );
    assert_eq!(fails(RenderBackend::V2, effects), None);
}

#[test]
fn brush_that_is_not_ready_is_passed_over() {
    let ops = drawer(RenderBackend::Legacy).render(
        &RenderFacts {
            active: BrushFacts {
                ready: false,
                is_gradient: true,
                ..brush(1.0)
            },
            ..facts()
        },
        0,
    );
    assert_eq!(
        ops,
        vec![
            DrawOp::BeginDraw,
            DrawOp::Clear,
            DrawOp::UpdateGradient(ColorRole::Active),
            DrawOp::FinishDraw,
        ]
    );
}

#[test]
fn drawer_creates_and_releases_its_resources() {
    let mut drawer = BorderDrawer::default();
    assert_eq!(
        drawer.init(RenderBackend::V2),
        vec![
            InitOp::InitBrush(ColorRole::Active),
            InitOp::InitBrush(ColorRole::Inactive),
            InitOp::InitCommandLists,
        ]
    );
    assert_eq!(drawer.resize_renderer(), vec![InitOp::InitCommandLists]);
    assert_eq!(
        drawer.uninit(),
        vec![
            ReleaseOp::DropBackend,
            ReleaseOp::TakeBrush(ColorRole::Active),
            ReleaseOp::TakeBrush(ColorRole::Inactive),
            ReleaseOp::TakeCommandList(ColorRole::Active),
            ReleaseOp::TakeCommandList(ColorRole::Inactive),
        ]
    );
    assert_eq!(drawer.render_backend, RenderBackend::Absent);
    assert_eq!(drawer.init(RenderBackend::Legacy).len(), 2);
    assert_eq!(drawer.resize_renderer(), Vec::new());
    assert_eq!(
        drawer.init(RenderBackend::Absent),
        vec![InitOp::Fail(RenderError::NoBackend)]
    );
}

#[test]
fn fade_goes_on_until_both_colors_have_arrived() {
    let step = |state, active: f32, inactive: f32| {
        animate_step(AnimType::Fade, state, Some(bits(active)), Some(bits(inactive)))
    };
    assert_eq!(step(WindowState::Active, 1.0, 0.0), AnimateStep::Rest);
    assert_eq!(step(WindowState::Active, 1.0, -0.0), AnimateStep::Rest);
    assert_eq!(step(WindowState::Active, 0.9, 0.0), AnimateStep::Fade);
    assert_eq!(step(WindowState::Active, 1.0, 0.1), AnimateStep::Fade);
    assert_eq!(step(WindowState::Inactive, 0.0, 1.0), AnimateStep::Rest);
    assert_eq!(step(WindowState::Inactive, 1.0, 0.0), AnimateStep::Fade);
    assert_eq!(
        animate_step(AnimType::Fade, WindowState::Active, None, None),
        AnimateStep::Fail(RenderError::UnknownOpacity)
    );
    assert_eq!(
        animate_step(AnimType::Fade, WindowState::Active, Some(bits(1.0)), None),
        AnimateStep::Fail(RenderError::UnknownOpacity)
    );
    assert_eq!(
        animate_step(AnimType::Fade, WindowState::Active, Some(bits(0.5)), None),
        AnimateStep::Fade
    );
    assert_eq!(
        animate_step(AnimType::ReverseSpiral, WindowState::Active, None, None),
        AnimateStep::Spiral
    );
}

fn params(anim_type: AnimType) -> AnimParams {
    AnimParamsConfig {
        anim_type,
        duration: None,
        easing: None,
    }
    .to_anim_params()
}

#[test]
fn pass_gives_every_animation_its_turn() {
    let mut animations = Animations::default();
    animations.active = vec![params(AnimType::Fade), params(AnimType::Spiral)];
    let mut pass = AnimatePass::start();
    let next = pass.next_animation(
        &animations,
        WindowState::Active,
        Some(bits(1.0)),
        Some(bits(0.0)),
    );
    assert_eq!(next, Some((params(AnimType::Fade), AnimateStep::Rest)));
    let mut drawer = BorderDrawer::default();
    assert!(!drawer.finish_animate(pass, true, 7));
    assert_eq!(drawer.last_anim_time, Some(7));
    assert_eq!(drawer.last_render_time, None);
    let next = pass.next_animation(&animations, WindowState::Active, None, None);
    assert_eq!(next, Some((params(AnimType::Spiral), AnimateStep::Spiral)));
    assert!(drawer.finish_animate(pass, true, 8));
    assert!(!drawer.finish_animate(pass, false, 9));
    assert_eq!(drawer.last_anim_time, Some(9));
    let next = pass.next_animation(&animations, WindowState::Active, None, None);
    assert_eq!(next, None);
    assert_eq!(pass.done, 2);
}

#[test]
fn clocks_start_when_first_looked_at() {
    let mut drawer = BorderDrawer::default();
    assert_eq!(drawer.begin_animate(100), (0, 0));
    assert_eq!(drawer.begin_animate(150), (50, 50));
    drawer.reset_animation_clock(140);
    assert_eq!(drawer.begin_animate(150), (10, 50));
    assert_eq!(drawer.begin_animate(50), (0, 0));
}

#[test]
fn disabled_animations_are_none() {
    let spiral = AnimParamsConfig {
        anim_type: AnimType::Spiral,
        duration: None,
        easing: Some(AnimEasing::EaseInBack),
    };
    let fade = AnimParamsConfig {
        anim_type: AnimType::Fade,
        duration: Some(bits(75.0)),
        easing: Some(AnimEasing::CubicBezier([
            bits(0.1),
            bits(0.2),
            bits(0.3),
            bits(0.4),
        ])),
    };
    let mut config = AnimationsConfig {
        active: vec![spiral],
        inactive: vec![fade, spiral],
        fps: 30,
        enabled: true,
    };
    let animations = config.to_animations();
    assert_eq!(animations.fps(), 30);
    assert!(animations.is_enabled());
    assert_eq!(
        animations.active,
        vec![AnimParams {
            anim_type: AnimType::Spiral,
            duration: bits(1800.0),
            easing: ControlPoints::Hundredths([36, 0, 66, -56]),
        }]
    );
    assert_eq!(
        animations.get_current(WindowState::Inactive)[0],
        AnimParams {
            anim_type: AnimType::Fade,
            duration: bits(75.0),
            easing: ControlPoints::Exact([bits(0.1), bits(0.2), bits(0.3), bits(0.4)]),
        }
    );
    assert!(animations.inactive.contains_type(AnimType::Fade));
    assert!(!animations.active.contains_type(AnimType::Fade));

    config.enabled = false;
    let animations = config.to_animations();
    assert!(!animations.is_enabled());
    assert_eq!(animations.fps(), 1);
    assert_eq!(config.clone(), config);
}

#[test]
fn usual_durations_and_curves() {
    assert_eq!(params(AnimType::Fade).duration, bits(200.0));
    assert_eq!(params(AnimType::ReverseSpiral).duration, bits(1800.0));
    assert_eq!(
        params(AnimType::Fade).easing,
        ControlPoints::Hundredths([0, 0, 100, 100])
    );
    for (easing, points) in [
        (AnimEasing::Linear, [0, 0, 100, 100]),
        (AnimEasing::EaseIn, [42, 0, 100, 100]),
        (AnimEasing::EaseInCirc, [55, 0, 100, 45]),
        (AnimEasing::EaseOutBack, [34, 156, 64, 100]),
        (AnimEasing::EaseInOutBack, [68, -60, 32, 160]),
        (AnimEasing::EaseInOutQuint, [83, 0, 17, 100]),
    ] {
        assert_eq!(easing.to_points(), ControlPoints::Hundredths(points));
    }
}

#[test]
fn fade_progress_jumps_to_its_end() {
    let mut drawer = BorderDrawer::default();
    drawer.animations.update_fade_progress(WindowState::Active);
    assert_eq!(drawer.animations.fade_progress, bits(1.0));
    drawer.animations.update_fade_progress(WindowState::Inactive);
    assert_eq!(drawer.animations.fade_progress, bits(0.0));
    assert!(!drawer.animations_enabled());
    assert_eq!(drawer.animation_fps(), 1);
}
