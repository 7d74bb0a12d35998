//! What a border draws, operation by operation.
//!
//! A drawing is a list of operations. They are carried out in order, up to the first that fails;
//! what an operation has begun then ends with it.

use vstd::prelude::*;

use crate::animations::{AnimParams, AnimType, Animations, WindowState};
use crate::border_config::BorderConfig;
use crate::float_bits::{FloatBits, ONE_BITS, ZERO_BITS};
use crate::render_backend::RenderBackend;

verus! {

/// One of the two colors of a border.
#[derive(Debug, Clone, Copy, PartialEq, Eq, Structural)]
pub enum ColorRole {
    Active,
    Inactive,
}

/// What is known of the brush of a color.
#[derive(Debug, Clone, Copy, PartialEq)]
pub struct BrushFacts {
    /// Its opacity, where that can be told.
    pub opacity: Option<FloatBits>,
    pub is_gradient: bool,
    /// Whether the brush has been created.
    pub ready: bool,
}

/// What is known when a border is to be drawn.
#[derive(Debug, Clone, Copy, PartialEq)]
pub struct RenderFacts {
    pub window_state: WindowState,
    pub active: BrushFacts,
    pub inactive: BrushFacts,
    /// Whether effects apply in this window state.
    pub effects_apply: bool,
    pub has_border_bitmap: bool,
    pub has_mask_bitmap: bool,
    pub has_command_list: bool,
    /// The corner radius of the line that the stroke follows.
    pub stroke_radius: FloatBits,
    /// The corner radius of the border's outer edge.
    pub outer_radius: FloatBits,
    /// The corner radius of the border's inner edge.
    pub inner_radius: FloatBits,
}

#[derive(Debug, Clone, Copy, PartialEq, Eq, Structural)]
pub enum RenderTarget {
    Border,
    Mask,
    Display,
}

#[derive(Debug, Clone, Copy, PartialEq, Eq, Structural)]
pub enum Shape {
    Rectangle,
    RoundedRectangle,
}

#[derive(Debug, Clone, Copy, PartialEq, Eq, Structural)]
pub enum RenderError {
    NoBackend,
    UnknownOpacity,
    NoBorderBitmap,
    NoMaskBitmap,
    NoCommandList,
}

#[derive(Debug, Clone, Copy, PartialEq, Eq, Structural)]
pub enum DrawOp {
    /// Take the lock that renderers on several threads share.
    EnterMultithread,
    LeaveMultithread,
    /// Open the surface that the display shows.
    BeginSurface,
    FinishSurface,
    CreateTargetBitmap,
    SetTarget(RenderTarget),
    CreateOpaqueBrush,
    BeginDraw,
    Clear,
    /// Fit a gradient to the border's bounds.
    UpdateGradient(ColorRole),
    /// Draw the border's line in a color.
    Stroke { color: ColorRole, shape: Shape },
    /// Fill up to the border's outer edge with a color.
    FillOuter { color: ColorRole, shape: Shape },
    /// Fill up to the border's inner edge, opaquely.
    FillInner { shape: Shape },
    /// Draw border, mask and effects together.
    DrawCommandList,
    FinishDraw,
    Commit,
    Fail(RenderError),
}

/// Corners without a radius are drawn as a plain rectangle.
pub open spec fn shape_with(radius: FloatBits) -> Shape {
    if radius.same_number(FloatBits { bits: ZERO_BITS }) {
        Shape::Rectangle
    } else {
        Shape::RoundedRectangle
    }
}

fn shape_for(radius: FloatBits) -> (shape: Shape)
    ensures
        shape == shape_with(radius),
{
    if radius.equals(FloatBits { bits: ZERO_BITS }) {
        Shape::Rectangle
    } else {
        Shape::RoundedRectangle
    }
}

/// How a color is put down.
#[derive(Debug, Clone, Copy, PartialEq, Eq, Structural)]
pub enum Paint {
    Stroke(Shape),
    FillOuter(Shape),
}

impl Paint {
    pub open spec fn op(self, color: ColorRole) -> DrawOp {
        match self {
            Paint::Stroke(shape) => DrawOp::Stroke { color, shape },
            Paint::FillOuter(shape) => DrawOp::FillOuter { color, shape },
        }
    }

    fn with(self, color: ColorRole) -> (op: DrawOp)
        ensures
            op == self.op(color),
    {
        match self {
            Paint::Stroke(shape) => DrawOp::Stroke { color, shape },
            Paint::FillOuter(shape) => DrawOp::FillOuter { color, shape },
        }
    }
}

impl RenderFacts {
    pub open spec fn brush(self, color: ColorRole) -> BrushFacts {
        match color {
            ColorRole::Active => self.active,
            ColorRole::Inactive => self.inactive,
        }
    }

    /// The color that is drawn last, over the other one.
    pub open spec fn top(self) -> ColorRole {
        match self.window_state {
            WindowState::Active => ColorRole::Active,
            WindowState::Inactive => ColorRole::Inactive,
        }
    }

    pub open spec fn bottom(self) -> ColorRole {
        match self.window_state {
            WindowState::Active => ColorRole::Inactive,
            WindowState::Inactive => ColorRole::Active,
        }
    }

    /// A color that can be seen, put down if its brush is there.
    pub open spec fn layer(self, color: ColorRole, paint: Paint) -> Seq<DrawOp> {
        let brush = self.brush(color);
        if brush.opacity->0.above_zero() {
            (if brush.is_gradient {
                seq![DrawOp::UpdateGradient(color)]
            } else {
                Seq::empty()
            }) + (if brush.ready {
                seq![paint.op(color)]
            } else {
                Seq::empty()
            })
        } else {
            Seq::empty()
        }
    }

    /// Both colors, one over the other, and then `rest`. A color whose opacity cannot be told ends
    /// the drawing.
    pub open spec fn layers(self, paint: Paint, rest: Seq<DrawOp>) -> Seq<DrawOp> {
        let fail = seq![DrawOp::Fail(RenderError::UnknownOpacity)];
        if self.brush(self.bottom()).opacity is None {
            fail
        } else if self.brush(self.top()).opacity is None {
            self.layer(self.bottom(), paint) + fail
        } else {
            self.layer(self.bottom(), paint) + self.layer(self.top(), paint) + rest
        }
    }

    pub open spec fn legacy_plan(self) -> Seq<DrawOp> {
        seq![DrawOp::BeginDraw, DrawOp::Clear] + self.layers(
            Paint::Stroke(shape_with(self.stroke_radius)),
            seq![DrawOp::FinishDraw],
        )
    }

    pub open spec fn v2_plan(self) -> Seq<DrawOp> {
        open_display() + seq![DrawOp::BeginDraw, DrawOp::Clear] + self.layers(
            Paint::Stroke(shape_with(self.stroke_radius)),
            present(),
        )
    }

    /// The border is filled, its inside is masked out, and both go to the display with the effects.
    pub open spec fn effects_plan(self) -> Seq<DrawOp> {
        if !self.has_border_bitmap {
            seq![DrawOp::Fail(RenderError::NoBorderBitmap)]
        } else {
            seq![DrawOp::SetTarget(RenderTarget::Border), DrawOp::BeginDraw, DrawOp::Clear]
                + self.layers(
                Paint::FillOuter(shape_with(self.outer_radius)),
                seq![DrawOp::FinishDraw] + self.mask_plan(),
            )
        }
    }

    pub open spec fn mask_plan(self) -> Seq<DrawOp> {
        if !self.has_mask_bitmap {
            seq![DrawOp::Fail(RenderError::NoMaskBitmap)]
        } else {
            seq![
                DrawOp::SetTarget(RenderTarget::Mask),
                DrawOp::CreateOpaqueBrush,
                DrawOp::BeginDraw,
                DrawOp::Clear,
                DrawOp::FillInner { shape: shape_with(self.inner_radius) },
                DrawOp::FinishDraw,
            ] + open_display() + self.compose_plan()
        }
    }

    pub open spec fn compose_plan(self) -> Seq<DrawOp> {
        if !self.has_command_list {
            seq![DrawOp::Fail(RenderError::NoCommandList)]
        } else {
            seq![DrawOp::BeginDraw, DrawOp::Clear, DrawOp::DrawCommandList] + present()
        }
    }

    pub open spec fn plan(self, backend: RenderBackend) -> Seq<DrawOp> {
        match backend {
            RenderBackend::V2 => if self.effects_apply {
                self.effects_plan()
            } else {
                self.v2_plan()
            },
            RenderBackend::Legacy => self.legacy_plan(),
            RenderBackend::Absent => seq![DrawOp::Fail(RenderError::NoBackend)],
        }
    }
}

/// The display's surface becomes the target.
pub open spec fn open_display() -> Seq<DrawOp> {
    seq![
        DrawOp::EnterMultithread,
        DrawOp::BeginSurface,
        DrawOp::CreateTargetBitmap,
        DrawOp::SetTarget(RenderTarget::Display),
    ]
}

/// What was drawn is shown.
pub open spec fn present() -> Seq<DrawOp> {
    seq![DrawOp::FinishDraw, DrawOp::FinishSurface, DrawOp::Commit, DrawOp::LeaveMultithread]
}

fn push_open_display(ops: &mut Vec<DrawOp>)
    ensures
        final(ops)@ == old(ops)@ + open_display(),
{
    ops.push(DrawOp::EnterMultithread);
    ops.push(DrawOp::BeginSurface);
    ops.push(DrawOp::CreateTargetBitmap);
    ops.push(DrawOp::SetTarget(RenderTarget::Display));
    assert(ops@ =~= old(ops)@ + open_display());
}

fn push_present(ops: &mut Vec<DrawOp>)
    ensures
        final(ops)@ == old(ops)@ + present(),
{
    ops.push(DrawOp::FinishDraw);
    ops.push(DrawOp::FinishSurface);
    ops.push(DrawOp::Commit);
    ops.push(DrawOp::LeaveMultithread);
    assert(ops@ =~= old(ops)@ + present());
}

/// Adds one color. Says whether the drawing goes on.
fn push_layer(ops: &mut Vec<DrawOp>, facts: &RenderFacts, color: ColorRole, paint: Paint) -> (goes_on:
    bool)
    ensures
        goes_on == (facts.brush(color).opacity is Some),
        final(ops)@ == old(ops)@ + (if goes_on {
            facts.layer(color, paint)
        } else {
            seq![DrawOp::Fail(RenderError::UnknownOpacity)]
        }),
{
    let brush = match color {
        ColorRole::Active => facts.active,
        ColorRole::Inactive => facts.inactive,
    };
    let opacity = match brush.opacity {
        Some(opacity) => opacity,
        None => {
            ops.push(DrawOp::Fail(RenderError::UnknownOpacity));
            assert(ops@ =~= old(ops)@ + seq![DrawOp::Fail(RenderError::UnknownOpacity)]);
            return false;
        },
    };
    if opacity.is_positive() {
        if brush.is_gradient {
            ops.push(DrawOp::UpdateGradient(color));
        }
        if brush.ready {
            ops.push(paint.with(color));
        }
    }
    assert(ops@ =~= old(ops)@ + facts.layer(color, paint));
    true
}

/// Adds both colors. Says whether the drawing goes on.
fn push_layers(ops: &mut Vec<DrawOp>, facts: &RenderFacts, paint: Paint) -> (goes_on: bool)
    ensures
        goes_on == (facts.active.opacity is Some && facts.inactive.opacity is Some),
        forall|rest: Seq<DrawOp>|
            final(ops)@ + (if goes_on {
                rest
            } else {
                Seq::empty()
            }) == old(ops)@ + #[trigger] facts.layers(paint, rest),
{
    let (bottom, top) = match facts.window_state {
        WindowState::Active => (ColorRole::Inactive, ColorRole::Active),
        WindowState::Inactive => (ColorRole::Active, ColorRole::Inactive),
    };
    let goes_on = push_layer(ops, facts, bottom, paint) && push_layer(ops, facts, top, paint);
    assert forall|rest: Seq<DrawOp>|
        ops@ + (if goes_on {
            rest
        } else {
            Seq::empty()
        }) == old(ops)@ + #[trigger] facts.layers(paint, rest) by {
        assert(ops@ + (if goes_on {
            rest
        } else {
            Seq::empty()
        }) =~= old(ops)@ + facts.layers(paint, rest));
    }
    goes_on
}

fn render_legacy(facts: &RenderFacts) -> (ops: Vec<DrawOp>)
    ensures
        ops@ == facts.legacy_plan(),
{
    let mut ops: Vec<DrawOp> = Vec::new();
    ops.push(DrawOp::BeginDraw);
    ops.push(DrawOp::Clear);
    let paint = Paint::Stroke(shape_for(facts.stroke_radius));
    let ghost start = ops@;
    let goes_on = push_layers(&mut ops, facts, paint);
    let ghost drawn = ops@;
    if goes_on {
        ops.push(DrawOp::FinishDraw);
    }
    proof {
        let rest = seq![DrawOp::FinishDraw];
        assert(start =~= seq![DrawOp::BeginDraw, DrawOp::Clear]);
        assert(drawn + (if goes_on {
            rest
        } else {
            Seq::empty()
        }) == start + facts.layers(paint, rest));
        assert(ops@ =~= facts.legacy_plan());
    }
    ops
}

fn render_v2(facts: &RenderFacts) -> (ops: Vec<DrawOp>)
    ensures
        ops@ == facts.v2_plan(),
{
    let mut ops: Vec<DrawOp> = Vec::new();
    push_open_display(&mut ops);
    ops.push(DrawOp::BeginDraw);
    ops.push(DrawOp::Clear);
    let paint = Paint::Stroke(shape_for(facts.stroke_radius));
    let ghost start = ops@;
    let goes_on = push_layers(&mut ops, facts, paint);
    let ghost drawn = ops@;
    if goes_on {
        push_present(&mut ops);
    }
    proof {
        assert(start =~= open_display() + seq![DrawOp::BeginDraw, DrawOp::Clear]);
        assert(drawn + (if goes_on {
            present()
        } else {
            Seq::empty()
        }) == start + facts.layers(paint, present()));
        assert(ops@ =~= facts.v2_plan());
    }
    ops
}

fn render_v2_with_effects(facts: &RenderFacts) -> (ops: Vec<DrawOp>)
    ensures
        ops@ == facts.effects_plan(),
{
    let mut ops: Vec<DrawOp> = Vec::new();
    if !facts.has_border_bitmap {
        ops.push(DrawOp::Fail(RenderError::NoBorderBitmap));
        assert(ops@ =~= facts.effects_plan());
        return ops;
    }
    ops.push(DrawOp::SetTarget(RenderTarget::Border));
    ops.push(DrawOp::BeginDraw);
    ops.push(DrawOp::Clear);
    let paint = Paint::FillOuter(shape_for(facts.outer_radius));
    let ghost start = ops@;
    let goes_on = push_layers(&mut ops, facts, paint);
    let ghost drawn = ops@;
    if goes_on {
        ops.push(DrawOp::FinishDraw);
        push_mask_and_composition(&mut ops, facts);
    }
    proof {
        let rest = seq![DrawOp::FinishDraw] + facts.mask_plan();
        assert(start =~= seq![
            DrawOp::SetTarget(RenderTarget::Border),
            DrawOp::BeginDraw,
            DrawOp::Clear,
        ]);
        assert(drawn + (if goes_on {
            rest
        } else {
            Seq::empty()
        }) == start + facts.layers(paint, rest));
        assert(ops@ =~= facts.effects_plan());
    }
    ops
}

fn push_mask_and_composition(ops: &mut Vec<DrawOp>, facts: &RenderFacts)
    ensures
        final(ops)@ == old(ops)@ + facts.mask_plan(),
{
    if !facts.has_mask_bitmap {
        ops.push(DrawOp::Fail(RenderError::NoMaskBitmap));
        assert(ops@ =~= old(ops)@ + facts.mask_plan());
        return ;
    }
    ops.push(DrawOp::SetTarget(RenderTarget::Mask));
    ops.push(DrawOp::CreateOpaqueBrush);
    ops.push(DrawOp::BeginDraw);
    ops.push(DrawOp::Clear);
    ops.push(DrawOp::FillInner { shape: shape_for(facts.inner_radius) });
    ops.push(DrawOp::FinishDraw);
    push_open_display(ops);
    if !facts.has_command_list {
        ops.push(DrawOp::Fail(RenderError::NoCommandList));
        assert(ops@ =~= old(ops)@ + facts.mask_plan());
        return ;
    }
    ops.push(DrawOp::BeginDraw);
    ops.push(DrawOp::Clear);
    ops.push(DrawOp::DrawCommandList);
    push_present(ops);
    assert(ops@ =~= old(ops)@ + facts.mask_plan());
}

/// Something to create before a border can draw.
#[derive(Debug, Clone, Copy, PartialEq, Eq, Structural)]
pub enum InitOp {
    InitBrush(ColorRole),
    InitCommandLists,
    Fail(RenderError),
}

/// Something to let go of.
#[derive(Debug, Clone, Copy, PartialEq, Eq, Structural)]
pub enum ReleaseOp {
    DropBackend,
    TakeBrush(ColorRole),
    TakeCommandList(ColorRole),
}

/// What one animation does in one step.
#[derive(Debug, Clone, Copy, PartialEq, Eq, Structural)]
pub enum AnimateStep {
    Spiral,
    Fade,
    /// The fade has arrived.
    Rest,
    Fail(RenderError),
}

/// The opacities at which a fade has arrived: that of the active color, then the other.
pub open spec fn faded(window_state: WindowState) -> (FloatBits, FloatBits) {
    match window_state {
        WindowState::Active => (FloatBits { bits: ONE_BITS }, FloatBits { bits: ZERO_BITS }),
        WindowState::Inactive => (FloatBits { bits: ZERO_BITS }, FloatBits { bits: ONE_BITS }),
    }
}

/// What an animation does next. A spiral always turns; a fade goes on until both colors have the
/// opacity that they end with. The second color is looked at only where the first has arrived.
pub open spec fn step_of(
    anim_type: AnimType,
    window_state: WindowState,
    active_opacity: Option<FloatBits>,
    inactive_opacity: Option<FloatBits>,
) -> AnimateStep {
    match anim_type {
        AnimType::Spiral | AnimType::ReverseSpiral => AnimateStep::Spiral,
        AnimType::Fade => match active_opacity {
            None => AnimateStep::Fail(RenderError::UnknownOpacity),
            Some(active) => if !active.same_number(faded(window_state).0) {
                AnimateStep::Fade
            } else {
                match inactive_opacity {
                    None => AnimateStep::Fail(RenderError::UnknownOpacity),
                    Some(inactive) => if inactive.same_number(faded(window_state).1) {
                        AnimateStep::Rest
                    } else {
                        AnimateStep::Fade
                    },
                }
            },
        },
    }
}

pub fn animate_step(
    anim_type: AnimType,
    window_state: WindowState,
    active_opacity: Option<FloatBits>,
    inactive_opacity: Option<FloatBits>,
) -> (step: AnimateStep)
    ensures
        step == step_of(anim_type, window_state, active_opacity, inactive_opacity),
{
    match anim_type {
        AnimType::Spiral | AnimType::ReverseSpiral => AnimateStep::Spiral,
        AnimType::Fade => {
            let (active_end, inactive_end) = match window_state {
                WindowState::Active => (FloatBits { bits: ONE_BITS }, FloatBits { bits: ZERO_BITS }),
                WindowState::Inactive => (
                    FloatBits { bits: ZERO_BITS },
                    FloatBits { bits: ONE_BITS },
                ),
            };
            match active_opacity {
                None => AnimateStep::Fail(RenderError::UnknownOpacity),
                Some(active) => if !active.equals(active_end) {
                    AnimateStep::Fade
                } else {
                    match inactive_opacity {
                        None => AnimateStep::Fail(RenderError::UnknownOpacity),
                        Some(inactive) => if inactive.equals(inactive_end) {
                            AnimateStep::Rest
                        } else {
                            AnimateStep::Fade
                        },
                    }
                },
            }
        },
    }
}

/// Whether a step changes what is to be seen.
fn step_updates(step: AnimateStep) -> (updates: bool)
    ensures
        updates == (step == AnimateStep::Spiral || step == AnimateStep::Fade),
{
    matches!(step, AnimateStep::Spiral | AnimateStep::Fade)
}

/// One pass over the animations of a border.
#[derive(Debug, Clone, Copy, PartialEq, Eq, Structural)]
pub struct AnimatePass {
    /// How many animations have had their turn.
    pub done: usize,
    /// Whether any of them changed what is to be seen.
    pub update: bool,
}

impl AnimatePass {
    /// The pass once one more animation has had its turn.
    pub open spec fn after_step(self, step: AnimateStep) -> Self {
        AnimatePass {
            done: (self.done + 1) as usize,
            update: self.update || step == AnimateStep::Spiral || step == AnimateStep::Fade,
        }
    }

    pub fn start() -> (pass: Self)
        ensures
            pass == (AnimatePass { done: 0, update: false }),
    {
        AnimatePass { done: 0, update: false }
    }

    /// The next animation and what it does, given the opacities that the colors have by now. `None`
    /// once all have had their turn.
    pub fn next_animation(
        &mut self,
        animations: &Animations,
        window_state: WindowState,
        active_opacity: Option<FloatBits>,
        inactive_opacity: Option<FloatBits>,
    ) -> (next: Option<(AnimParams, AnimateStep)>)
        ensures
            match next {
                Some((params, step)) => {
                    &&& old(self).done < animations.current(window_state).len()
                    &&& params == animations.current(window_state)[old(self).done as int]
                    &&& step == step_of(
                        params.anim_type,
                        window_state,
                        active_opacity,
                        inactive_opacity,
                    )
                    &&& *final(self) == (AnimatePass {
                        done: (old(self).done + 1) as usize,
                        update: old(self).update || step == AnimateStep::Spiral || step
                            == AnimateStep::Fade,
                    })
                },
                None => old(self).done >= animations.current(window_state).len() && *final(self)
                    == *old(self),
            },
            next matches Some((params, step)) ==> *final(self) == old(self).after_step(step),
    {
        let current = animations.get_current(window_state);
        if self.done >= current.len() {
            return None;
        }
        let params: AnimParams = current[self.done];
        let step = animate_step(params.anim_type, window_state, active_opacity, inactive_opacity);
        self.done = self.done + 1;
        if step_updates(step) {
            self.update = true;
        }
        Some((params, step))
    }
}

/// Whether a pass that has come to its end leads to a drawing.
pub open spec fn draws_after(pass: AnimatePass, frame_due: bool) -> bool {
    pass.update && frame_due
}

/// What has to be created along with a renderer.
pub open spec fn created_with(backend: RenderBackend) -> Seq<InitOp> {
    match backend {
        RenderBackend::Absent => seq![InitOp::Fail(RenderError::NoBackend)],
        RenderBackend::V2 => seq![
            InitOp::InitBrush(ColorRole::Active),
            InitOp::InitBrush(ColorRole::Inactive),
            InitOp::InitCommandLists,
        ],
        RenderBackend::Legacy => seq![
            InitOp::InitBrush(ColorRole::Active),
            InitOp::InitBrush(ColorRole::Inactive),
        ],
    }
}

/// What has to be created anew once the renderer has taken on another size.
pub open spec fn created_anew(backend: RenderBackend) -> Seq<InitOp> {
    if backend == RenderBackend::V2 {
        seq![InitOp::InitCommandLists]
    } else {
        Seq::empty()
    }
}

/// What is let go of along with the renderer.
pub open spec fn released() -> Seq<ReleaseOp> {
    seq![
        ReleaseOp::DropBackend,
        ReleaseOp::TakeBrush(ColorRole::Active),
        ReleaseOp::TakeBrush(ColorRole::Inactive),
        ReleaseOp::TakeCommandList(ColorRole::Active),
        ReleaseOp::TakeCommandList(ColorRole::Inactive),
    ]
}

/// The drawing side of one border. Times are nanoseconds of a monotonic clock.
#[derive(Debug)]
pub struct BorderDrawer {
    pub stroke_width: i32,
    pub render_backend: RenderBackend,
    pub animations: Animations,
    pub last_render_time: Option<u64>,
    pub last_anim_time: Option<u64>,
}

impl Default for BorderDrawer {
    fn default() -> (drawer: Self)
        ensures
            drawer.stroke_width == 0,
            drawer.render_backend == RenderBackend::Absent,
            drawer.animations.active@.len() == 0,
            drawer.animations.inactive@.len() == 0,
            drawer.animations.fps == 0,
            drawer.last_render_time is None,
            drawer.last_anim_time is None,
    {
        BorderDrawer {
            stroke_width: 0,
            render_backend: RenderBackend::Absent,
            animations: Animations::default(),
            last_render_time: None,
            last_anim_time: None,
        }
    }
}

/// The time since `*clock`, which starts now where it has not started.
fn elapsed_since(clock: &mut Option<u64>, now: u64) -> (elapsed: u64)
    ensures
        *final(clock) == Some(
            match *old(clock) {
                Some(since) => since,
                None => now,
            },
        ),
        elapsed == (match *old(clock) {
            Some(since) => crate::coalescing::elapsed_ns(since, now),
            None => 0,
        }),
{
    let since: u64 = match *clock {
        Some(since) => since,
        None => now,
    };
    *clock = Some(since);
    now.saturating_sub(since)
}

impl BorderDrawer {
    /// Takes over what the settings say of line and animations. `stroke_width` is the configured
    /// width, scaled to the monitor.
    pub fn configure_appearance(&mut self, config: &BorderConfig, stroke_width: i32)
        ensures
            config.animations.resolves_to(final(self).animations),
            *final(self) == (BorderDrawer {
                stroke_width,
                animations: final(self).animations,
                ..*old(self)
            }),
    {
        self.stroke_width = stroke_width;
        self.animations = config.animations.to_animations();
    }

    /// Takes in the renderer that was created and says what has to be created with it. The renderer
    /// held before is gone by then.
    pub fn init(&mut self, created: RenderBackend) -> (ops: Vec<InitOp>)
        ensures
            *final(self) == (BorderDrawer { render_backend: created, ..*old(self) }),
            ops@ == created_with(created),
            ops@ == (match created {
                RenderBackend::Absent => seq![InitOp::Fail(RenderError::NoBackend)],
                RenderBackend::V2 => seq![
                    InitOp::InitBrush(ColorRole::Active),
                    InitOp::InitBrush(ColorRole::Inactive),
                    InitOp::InitCommandLists,
                ],
                RenderBackend::Legacy => seq![
                    InitOp::InitBrush(ColorRole::Active),
                    InitOp::InitBrush(ColorRole::Inactive),
                ],
            }),
    {
        self.render_backend = created;
        let mut ops: Vec<InitOp> = Vec::new();
        if matches!(created, RenderBackend::Absent) {
            ops.push(InitOp::Fail(RenderError::NoBackend));
            assert(ops@ =~= seq![InitOp::Fail(RenderError::NoBackend)]);
            return ops;
        }
        ops.push(InitOp::InitBrush(ColorRole::Active));
        ops.push(InitOp::InitBrush(ColorRole::Inactive));
        assert(ops@ =~= seq![
            InitOp::InitBrush(ColorRole::Active),
            InitOp::InitBrush(ColorRole::Inactive),
        ]);
        if created.supports_effects() {
            ops.push(InitOp::InitCommandLists);
            assert(ops@ =~= seq![
                InitOp::InitBrush(ColorRole::Active),
                InitOp::InitBrush(ColorRole::Inactive),
                InitOp::InitCommandLists,
            ]);
        }
        ops
    }

    /// Lets go of the renderer and of all that was created with it.
    pub fn uninit(&mut self) -> (ops: Vec<ReleaseOp>)
        ensures
            *final(self) == (BorderDrawer { render_backend: RenderBackend::Absent, ..*old(self) }),
            ops@ == released(),
            ops@ == seq![
                ReleaseOp::DropBackend,
                ReleaseOp::TakeBrush(ColorRole::Active),
                ReleaseOp::TakeBrush(ColorRole::Inactive),
                ReleaseOp::TakeCommandList(ColorRole::Active),
                ReleaseOp::TakeCommandList(ColorRole::Inactive),
            ],
    {
        self.render_backend = RenderBackend::Absent;
        let mut ops: Vec<ReleaseOp> = Vec::new();
        ops.push(ReleaseOp::DropBackend);
        ops.push(ReleaseOp::TakeBrush(ColorRole::Active));
        ops.push(ReleaseOp::TakeBrush(ColorRole::Inactive));
        ops.push(ReleaseOp::TakeCommandList(ColorRole::Active));
        ops.push(ReleaseOp::TakeCommandList(ColorRole::Inactive));
        assert(ops@ =~= seq![
            ReleaseOp::DropBackend,
            ReleaseOp::TakeBrush(ColorRole::Active),
            ReleaseOp::TakeBrush(ColorRole::Inactive),
            ReleaseOp::TakeCommandList(ColorRole::Active),
            ReleaseOp::TakeCommandList(ColorRole::Inactive),
        ]);
        ops
    }

    /// What has to be created anew once the renderer has taken on another size.
    pub fn resize_renderer(&self) -> (ops: Vec<InitOp>)
        ensures
            ops@ == created_anew(self.render_backend),
            ops@ == (if self.render_backend == RenderBackend::V2 {
                seq![InitOp::InitCommandLists]
            } else {
                Seq::empty()
            }),
    {
        let mut ops: Vec<InitOp> = Vec::new();
        if self.render_backend.supports_effects() {
            ops.push(InitOp::InitCommandLists);
        }
        assert(ops@ =~= (if self.render_backend == RenderBackend::V2 {
            seq![InitOp::InitCommandLists]
        } else {
            Seq::empty()
        }));
        ops
    }

    /// What to draw now.
    pub fn render(&mut self, facts: &RenderFacts, now: u64) -> (ops: Vec<DrawOp>)
        ensures
            *final(self) == (BorderDrawer { last_render_time: Some(now), ..*old(self) }),
            ops@ == facts.plan(old(self).render_backend),
    {
        self.last_render_time = Some(now);
        match self.render_backend {
            RenderBackend::V2 => if facts.effects_apply {
                render_v2_with_effects(facts)
            } else {
                render_v2(facts)
            },
            RenderBackend::Legacy => render_legacy(facts),
            RenderBackend::Absent => {
                let mut ops: Vec<DrawOp> = Vec::new();
                ops.push(DrawOp::Fail(RenderError::NoBackend));
                assert(ops@ =~= seq![DrawOp::Fail(RenderError::NoBackend)]);
                ops
            },
        }
    }

    pub fn animations_enabled(&self) -> (enabled: bool)
        ensures
            enabled == (self.animations.active@.len() > 0 || self.animations.inactive@.len() > 0),
    {
        self.animations.is_enabled()
    }

    pub fn animation_fps(&self) -> (fps: u32)
        ensures
            fps == (if self.animations.fps < 1 {
                1
            } else {
                self.animations.fps
            }),
    {
        self.animations.fps()
    }

    pub fn reset_animation_clock(&mut self, now: u64)
        ensures
            *final(self) == (BorderDrawer { last_anim_time: Some(now), ..*old(self) }),
    {
        self.last_anim_time = Some(now);
    }

    /// How long ago the last animation step and the last drawing were. A clock that has not started
    /// starts now.
    pub fn begin_animate(&mut self, now: u64) -> (elapsed: (u64, u64))
        ensures
            *final(self) == (BorderDrawer {
                last_anim_time: final(self).last_anim_time,
                last_render_time: final(self).last_render_time,
                ..*old(self)
            }),
            match old(self).last_anim_time {
                Some(since) => final(self).last_anim_time == Some(since) && elapsed.0
                    == crate::coalescing::elapsed_ns(since, now),
                None => final(self).last_anim_time == Some(now) && elapsed.0 == 0,
            },
            match old(self).last_render_time {
                Some(since) => final(self).last_render_time == Some(since) && elapsed.1
                    == crate::coalescing::elapsed_ns(since, now),
                None => final(self).last_render_time == Some(now) && elapsed.1 == 0,
            },
    {
        let anim_elapsed: u64 = elapsed_since(&mut self.last_anim_time, now);
        let render_elapsed: u64 = elapsed_since(&mut self.last_render_time, now);
        (anim_elapsed, render_elapsed)
    }

    /// All animations have had their turn: their clock starts anew. Says whether to draw, which is
    /// where something has changed and the next frame is due. A pass that failed does not come to
    /// this, so its clock runs on.
    pub fn finish_animate(&mut self, pass: AnimatePass, frame_due: bool, now: u64) -> (draw: bool)
        ensures
            *final(self) == (BorderDrawer { last_anim_time: Some(now), ..*old(self) }),
            draw == draws_after(pass, frame_due),
            draw == (pass.update && frame_due),
    {
        self.reset_animation_clock(now);
        pass.update && frame_due
    }
}

/// A drawing that can fail says so at its end: nothing follows a failure.
pub open spec fn fails_only_at_end(ops: Seq<DrawOp>) -> bool {
    forall|i: int| 0 <= i < ops.len() - 1 ==> !(#[trigger] ops[i] is Fail)
}

/// Whether an operation puts down this color.
pub open spec fn puts_down(op: DrawOp, color: ColorRole) -> bool {
    match op {
        DrawOp::Stroke { color: put, .. } => put == color,
        DrawOp::FillOuter { color: put, .. } => put == color,
        _ => false,
    }
}

/// Whether operations neither fail nor put down a color.
pub open spec fn neutral(ops: Seq<DrawOp>) -> bool {
    forall|i: int|
        0 <= i < ops.len() ==> !(#[trigger] ops[i] is Fail) && !(ops[i] is Stroke) && !(
        ops[i] is FillOuter)
}

/// Whether operations may stand behind the colors: no color, and a failure at most at the end.
pub open spec fn closing(ops: Seq<DrawOp>) -> bool {
    &&& ops.len() > 0
    &&& forall|i: int|
        0 <= i < ops.len() ==> !(#[trigger] ops[i] is Stroke) && !(ops[i] is FillOuter) && (
        ops[i] is Fail ==> i == ops.len() - 1)
}

proof fn lemma_neutral_then_closing(a: Seq<DrawOp>, b: Seq<DrawOp>)
    requires
        neutral(a),
        closing(b),
    ensures
        closing(a + b),
        (a + b).last() == b.last(),
{
    let ops = a + b;
    assert forall|i: int| 0 <= i < ops.len() implies !(#[trigger] ops[i] is Stroke) && !(
    ops[i] is FillOuter) && (ops[i] is Fail ==> i == ops.len() - 1) by {
        if i < a.len() {
            assert(ops[i] == a[i]);
        } else {
            assert(ops[i] == b[i - a.len()]);
        }
    }
}

proof fn lemma_layer(facts: RenderFacts, color: ColorRole, paint: Paint)
    ensures
        ({
            let ops = facts.layer(color, paint);
            forall|i: int|
                0 <= i < ops.len() ==> {
                    &&& !(#[trigger] ops[i] is Fail)
                    &&& forall|other: ColorRole| #[trigger]
                        puts_down(ops[i], other) ==> other == color
                            && facts.brush(color).opacity->0.above_zero()
                }
        }),
{
}

/// What holds of a drawing that consists of an opening, the two colors and a closing.
proof fn lemma_layers(facts: RenderFacts, paint: Paint, opening: Seq<DrawOp>, rest: Seq<DrawOp>)
    requires
        neutral(opening),
        closing(rest),
    ensures
        ({
            let ops = opening + facts.layers(paint, rest);
            &&& ops.len() > 0
            &&& fails_only_at_end(ops)
            &&& ops.last() is Fail || ops.last() == rest.last()
            &&& forall|i: int, color: ColorRole|
                #![trigger puts_down(ops[i], color)]
                0 <= i < ops.len() && puts_down(ops[i], color) ==> {
                    let below = facts.layer(facts.bottom(), paint).len();
                    &&& facts.brush(color).opacity is Some
                    &&& facts.brush(color).opacity->0.above_zero()
                    &&& color == facts.bottom() ==> i < opening.len() + below
                    &&& color == facts.top() ==> i >= opening.len() + below
                }
        }),
{
    let bottom = facts.layer(facts.bottom(), paint);
    let top = facts.layer(facts.top(), paint);
    let fail = seq![DrawOp::Fail(RenderError::UnknownOpacity)];
    lemma_layer(facts, facts.bottom(), paint);
    lemma_layer(facts, facts.top(), paint);
    let ops = opening + facts.layers(paint, rest);
    if facts.brush(facts.bottom()).opacity is None {
        assert forall|i: int| 0 <= i < ops.len() implies #[trigger] ops[i] == (if i < opening.len() {
            opening[i]
        } else {
            fail[i - opening.len()]
        }) by {}
    } else if facts.brush(facts.top()).opacity is None {
        assert forall|i: int| 0 <= i < ops.len() implies #[trigger] ops[i] == (if i < opening.len() {
            opening[i]
        } else if i < opening.len() + bottom.len() {
            bottom[i - opening.len()]
        } else {
            fail[i - opening.len() - bottom.len()]
        }) by {}
    } else {
        assert forall|i: int| 0 <= i < ops.len() implies #[trigger] ops[i] == (if i < opening.len() {
            opening[i]
        } else if i < opening.len() + bottom.len() {
            bottom[i - opening.len()]
        } else if i < opening.len() + bottom.len() + top.len() {
            top[i - opening.len() - bottom.len()]
        } else {
            rest[i - opening.len() - bottom.len() - top.len()]
        }) by {}
    }
}

proof fn lemma_mask_closes(facts: RenderFacts)
    ensures
        closing(facts.mask_plan()),
        facts.mask_plan().last() is Fail || facts.mask_plan().last() == DrawOp::LeaveMultithread,
{
    let mask = seq![
        DrawOp::SetTarget(RenderTarget::Mask),
        DrawOp::CreateOpaqueBrush,
        DrawOp::BeginDraw,
        DrawOp::Clear,
        DrawOp::FillInner { shape: shape_with(facts.inner_radius) },
        DrawOp::FinishDraw,
    ];
    let compose = seq![DrawOp::BeginDraw, DrawOp::Clear, DrawOp::DrawCommandList];
    assert(closing(present()));
    assert(neutral(compose));
    lemma_neutral_then_closing(compose, present());
    assert(closing(facts.compose_plan()));
    assert(neutral(open_display()));
    lemma_neutral_then_closing(open_display(), facts.compose_plan());
    assert(neutral(mask));
    lemma_neutral_then_closing(mask, open_display() + facts.compose_plan());
    assert(mask + open_display() + facts.compose_plan() =~= mask + (open_display()
        + facts.compose_plan()));
}

/// What every drawing has in common: which colors it puts down and in which order, and how it ends.
pub open spec fn orderly(facts: RenderFacts, backend: RenderBackend) -> bool {
    let ops = facts.plan(backend);
    &&& ops.len() > 0
    &&& fails_only_at_end(ops)
    &&& ops.last() is Fail || ops.last() == (match backend {
        RenderBackend::Legacy => DrawOp::FinishDraw,
        _ => DrawOp::LeaveMultithread,
    })
    &&& forall|i: int, color: ColorRole|
        #![trigger puts_down(ops[i], color)]
        0 <= i < ops.len() && puts_down(ops[i], color) ==> facts.brush(color).opacity is Some
            && facts.brush(color).opacity->0.above_zero()
    &&& forall|i: int, j: int|
        #![trigger puts_down(ops[i], facts.bottom()), puts_down(ops[j], facts.top())]
        0 <= i < ops.len() && 0 <= j < ops.len() && puts_down(ops[i], facts.bottom()) && puts_down(
            ops[j],
            facts.top(),
        ) ==> i < j
}

/// Whatever is drawn and however: a failure is the last operation, and a drawing without one is
/// shown; a color that cannot be seen is not put down; and the color of the window's own state lies
/// on top of the other one.
pub proof fn law_drawings_are_orderly(facts: RenderFacts, backend: RenderBackend)
    ensures
        orderly(facts, backend),
{
    match backend {
        RenderBackend::V2 => {
            if facts.effects_apply {
                if facts.has_border_bitmap {
                    let opening = seq![
                        DrawOp::SetTarget(RenderTarget::Border),
                        DrawOp::BeginDraw,
                        DrawOp::Clear,
                    ];
                    lemma_mask_closes(facts);
                    assert(neutral(seq![DrawOp::FinishDraw]));
                    lemma_neutral_then_closing(seq![DrawOp::FinishDraw], facts.mask_plan());
                    lemma_layers(
                        facts,
                        Paint::FillOuter(shape_with(facts.outer_radius)),
                        opening,
                        seq![DrawOp::FinishDraw] + facts.mask_plan(),
                    );
                }
            } else {
                let opening = open_display() + seq![DrawOp::BeginDraw, DrawOp::Clear];
                assert(neutral(opening));
                assert(closing(present()));
                lemma_layers(
                    facts,
                    Paint::Stroke(shape_with(facts.stroke_radius)),
                    opening,
                    present(),
                );
            }
        },
        RenderBackend::Legacy => {
            let opening = seq![DrawOp::BeginDraw, DrawOp::Clear];
            lemma_layers(
                facts,
                Paint::Stroke(shape_with(facts.stroke_radius)),
                opening,
                seq![DrawOp::FinishDraw],
            );
        },
        RenderBackend::Absent => {},
    }
}

} // verus!
