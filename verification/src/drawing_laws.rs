//! What every drawing shows, whatever renderer carries it out, and how animations come to rest.

use vstd::prelude::*;

use crate::animations::{AnimType, WindowState};
use crate::border_drawer::{
    AnimatePass, AnimateStep, BrushFacts, ColorRole, DrawOp, InitOp, Paint, ReleaseOp, RenderError,
    RenderFacts, RenderTarget, Shape,
};
use crate::float_bits::FloatBits;
use crate::render_backend::RenderBackend;

verus! {

/// Whether a drawing puts down a color with the operation at `at`, and with no other.
pub open spec fn put_down_only_at(ops: Seq<DrawOp>, color: ColorRole, at: int) -> bool {
    &&& 0 <= at < ops.len()
    &&& crate::border_drawer::puts_down(ops[at], color)
    &&& forall|i: int|
        0 <= i < ops.len() && #[trigger] crate::border_drawer::puts_down(ops[i], color) ==> i == at
}

/// Whether a drawing does not touch a color.
pub open spec fn untouched(ops: Seq<DrawOp>, color: ColorRole) -> bool {
    forall|i: int|
        0 <= i < ops.len() ==> !crate::border_drawer::puts_down(#[trigger] ops[i], color) && ops[i]
            != DrawOp::UpdateGradient(color)
}

proof fn lemma_untouched_sum(a: Seq<DrawOp>, b: Seq<DrawOp>, color: ColorRole)
    requires
        untouched(a, color),
        untouched(b, color),
    ensures
        untouched(a + b, color),
{
    let ops = a + b;
    assert forall|i: int| 0 <= i < ops.len() implies !crate::border_drawer::puts_down(
        #[trigger] ops[i],
        color,
    ) && ops[i] != DrawOp::UpdateGradient(color) by {
        if i < a.len() {
            assert(ops[i] == a[i]);
        } else {
            assert(ops[i] == b[i - a.len()]);
        }
    }
}

/// What a drawing does with a color that it can tell the opacity of: nothing where it cannot be
/// seen; otherwise its gradient is fitted once, if it has one, directly before the color is put down
/// once, if its brush is there.
pub open spec fn drawn_once(
    ops: Seq<DrawOp>,
    color: ColorRole,
    brush: BrushFacts,
    expected: DrawOp,
) -> bool {
    let visible = brush.opacity is Some && 0 < brush.opacity->0.bits <= 0x7f80_0000;
    &&& !visible ==> untouched(ops, color)
    &&& visible && brush.ready ==> exists|at: int|
        {
            &&& #[trigger] put_down_only_at(ops, color, at)
            &&& ops[at] == expected
            &&& brush.is_gradient ==> at > 0 && ops[at - 1] == DrawOp::UpdateGradient(color)
        }
    &&& visible && !brush.ready ==> forall|i: int|
        0 <= i < ops.len() ==> !crate::border_drawer::puts_down(#[trigger] ops[i], color)
    &&& visible ==> (ops.contains(DrawOp::UpdateGradient(color)) <==> brush.is_gradient)
}

proof fn lemma_drawn_once(
    facts: RenderFacts,
    paint: Paint,
    color: ColorRole,
    before: Seq<DrawOp>,
    after: Seq<DrawOp>,
)
    requires
        facts.brush(color).opacity is Some,
        untouched(before, color),
        untouched(after, color),
    ensures
        drawn_once(
            before + facts.layer(color, paint) + after,
            color,
            facts.brush(color),
            paint.op(color),
        ),
{
    let brush = facts.brush(color);
    let layer = facts.layer(color, paint);
    let ops = before + layer + after;
    let gradient = DrawOp::UpdateGradient(color);
    let visible = 0 < brush.opacity->0.bits <= 0x7f80_0000;
    assert forall|i: int| 0 <= i < ops.len() implies #[trigger] ops[i] == (if i < before.len() {
        before[i]
    } else if i < before.len() + layer.len() {
        layer[i - before.len()]
    } else {
        after[i - before.len() - layer.len()]
    }) by {}
    let at = before.len() + (if brush.is_gradient {
        1int
    } else {
        0
    });
    if visible && brush.ready {
        assert(ops[at] == paint.op(color));
        assert(put_down_only_at(ops, color, at));
    }
    if visible && brush.is_gradient {
        assert(ops[before.len() as int] == gradient);
    }
}

proof fn lemma_other_layer(facts: RenderFacts, paint: Paint, color: ColorRole, other: ColorRole)
    requires
        color != other,
    ensures
        untouched(facts.layer(other, paint), color),
{
}

proof fn lemma_both_drawn_once(
    facts: RenderFacts,
    paint: Paint,
    color: ColorRole,
    opening: Seq<DrawOp>,
    rest: Seq<DrawOp>,
)
    requires
        facts.active.opacity is Some,
        facts.inactive.opacity is Some,
        untouched(opening, color),
        untouched(rest, color),
    ensures
        drawn_once(
            opening + facts.layers(paint, rest),
            color,
            facts.brush(color),
            paint.op(color),
        ),
{
    let below = facts.layer(facts.bottom(), paint);
    let above = facts.layer(facts.top(), paint);
    let ops = opening + facts.layers(paint, rest);
    if color == facts.bottom() {
        lemma_other_layer(facts, paint, color, facts.top());
        lemma_untouched_sum(above, rest, color);
        lemma_drawn_once(facts, paint, color, opening, above + rest);
        assert(ops =~= opening + below + (above + rest));
    } else {
        lemma_other_layer(facts, paint, color, facts.bottom());
        lemma_untouched_sum(opening, below, color);
        lemma_drawn_once(facts, paint, color, opening + below, rest);
        assert(ops =~= (opening + below) + above + rest);
    }
}

proof fn lemma_mask_leaves_colors(facts: RenderFacts, color: ColorRole)
    ensures
        untouched(seq![DrawOp::FinishDraw] + facts.mask_plan(), color),
{
    let mask = seq![
        DrawOp::SetTarget(RenderTarget::Mask),
        DrawOp::CreateOpaqueBrush,
        DrawOp::BeginDraw,
        DrawOp::Clear,
        DrawOp::FillInner { shape: crate::border_drawer::shape_with(facts.inner_radius) },
        DrawOp::FinishDraw,
    ];
    let compose = seq![DrawOp::BeginDraw, DrawOp::Clear, DrawOp::DrawCommandList];
    assert(untouched(mask, color));
    assert(untouched(compose, color));
    assert(untouched(crate::border_drawer::present(), color));
    assert(untouched(crate::border_drawer::open_display(), color));
    lemma_untouched_sum(compose, crate::border_drawer::present(), color);
    assert(untouched(facts.compose_plan(), color));
    lemma_untouched_sum(mask, crate::border_drawer::open_display(), color);
    lemma_untouched_sum(mask + crate::border_drawer::open_display(), facts.compose_plan(), color);
    assert(untouched(seq![DrawOp::FinishDraw], color));
    lemma_untouched_sum(seq![DrawOp::FinishDraw], facts.mask_plan(), color);
}

/// The shape of corners with this radius: rounded wherever the radius is not zero.
pub open spec fn corners(radius: FloatBits) -> Shape {
    if radius.bits == 0 || radius.bits == 0x8000_0000 {
        Shape::Rectangle
    } else {
        Shape::RoundedRectangle
    }
}

/// Whatever the renderer and whatever state the window is in, a drawing that does not fail puts down
/// each color that can be seen and whose brush is there, with exactly one operation: a line along
/// the border, or with effects a fill up to its outer edge. A color that cannot be seen is not
/// touched, and a gradient is fitted directly before it is used.
pub proof fn law_each_visible_color_is_drawn_once(facts: RenderFacts, backend: RenderBackend)
    requires
        backend != RenderBackend::Absent,
        !(facts.plan(backend).last() is Fail),
    ensures
        ({
            let ops = facts.plan(backend);
            let fills = backend == RenderBackend::V2 && facts.effects_apply;
            let put = |color: ColorRole|
                if fills {
                    DrawOp::FillOuter { color, shape: corners(facts.outer_radius) }
                } else {
                    DrawOp::Stroke { color, shape: corners(facts.stroke_radius) }
                };
            &&& drawn_once(ops, ColorRole::Active, facts.active, put(ColorRole::Active))
            &&& drawn_once(ops, ColorRole::Inactive, facts.inactive, put(ColorRole::Inactive))
        }),
{
    law_drawings_fail_for_a_reason(facts, backend);
    law_known_colors_are_drawn_before_a_failure(facts, backend);
}

/// The same holds of a drawing that fails later, once both colors are behind it: for want of a mask,
/// or of what puts border, mask and effects together.
pub proof fn law_known_colors_are_drawn_before_a_failure(
    facts: RenderFacts,
    backend: RenderBackend,
)
    requires
        backend != RenderBackend::Absent,
        facts.active.opacity is Some,
        facts.inactive.opacity is Some,
        backend == RenderBackend::V2 && facts.effects_apply ==> facts.has_border_bitmap,
    ensures
        ({
            let ops = facts.plan(backend);
            let fills = backend == RenderBackend::V2 && facts.effects_apply;
            let put = |color: ColorRole|
                if fills {
                    DrawOp::FillOuter { color, shape: corners(facts.outer_radius) }
                } else {
                    DrawOp::Stroke { color, shape: corners(facts.stroke_radius) }
                };
            &&& drawn_once(ops, ColorRole::Active, facts.active, put(ColorRole::Active))
            &&& drawn_once(ops, ColorRole::Inactive, facts.inactive, put(ColorRole::Inactive))
        }),
{
    let ops = facts.plan(backend);
    lemma_corners(facts.stroke_radius);
    lemma_corners(facts.outer_radius);
    let stroke = Paint::Stroke(crate::border_drawer::shape_with(facts.stroke_radius));
    let fill = Paint::FillOuter(crate::border_drawer::shape_with(facts.outer_radius));
    let colors = seq![ColorRole::Active, ColorRole::Inactive];
    assert forall|i: int| 0 <= i < 2 implies {
        let color = #[trigger] colors[i];
        drawn_once(
            ops,
            color,
            facts.brush(color),
            if backend == RenderBackend::V2 && facts.effects_apply {
                fill.op(color)
            } else {
                stroke.op(color)
            },
        )
    } by {
        let color = colors[i];
        match backend {
            RenderBackend::Legacy => {
                let opening = seq![DrawOp::BeginDraw, DrawOp::Clear];
                lemma_both_drawn_once(facts, stroke, color, opening, seq![DrawOp::FinishDraw]);
            },
            RenderBackend::V2 => if facts.effects_apply {
                let opening = seq![
                    DrawOp::SetTarget(RenderTarget::Border),
                    DrawOp::BeginDraw,
                    DrawOp::Clear,
                ];
                lemma_mask_leaves_colors(facts, color);
                lemma_both_drawn_once(
                    facts,
                    fill,
                    color,
                    opening,
                    seq![DrawOp::FinishDraw] + facts.mask_plan(),
                );
            } else {
                let opening = crate::border_drawer::open_display() + seq![
                    DrawOp::BeginDraw,
                    DrawOp::Clear,
                ];
                lemma_both_drawn_once(facts, stroke, color, opening, crate::border_drawer::present());
            },
            RenderBackend::Absent => {},
        }
    }
    assert(colors[0] == ColorRole::Active && colors[1] == ColorRole::Inactive);
}

proof fn lemma_corners(radius: FloatBits)
    ensures
        crate::border_drawer::shape_with(radius) == corners(radius),
{
}

/// A drawing fails exactly where there is no renderer, where the opacity of a color cannot be told,
/// or where effects apply and one of the three things that they need is missing; and it says which.
pub proof fn law_drawings_fail_for_a_reason(facts: RenderFacts, backend: RenderBackend)
    ensures
        ({
            let ops = facts.plan(backend);
            let effects = backend == RenderBackend::V2 && facts.effects_apply;
            let unknown = facts.active.opacity is None || facts.inactive.opacity is None;
            let absent = backend == RenderBackend::Absent;
            &&& ops.len() > 0
            &&& ops.last() is Fail <==> absent || unknown || (effects && !(facts.has_border_bitmap
                && facts.has_mask_bitmap && facts.has_command_list))
            &&& ops.last() == DrawOp::Fail(RenderError::NoBackend) <==> absent
            &&& ops.last() == DrawOp::Fail(RenderError::NoBorderBitmap) <==> effects
                && !facts.has_border_bitmap
            &&& ops.last() == DrawOp::Fail(RenderError::UnknownOpacity) <==> !absent && unknown && (
            effects ==> facts.has_border_bitmap)
            &&& ops.last() == DrawOp::Fail(RenderError::NoMaskBitmap) <==> effects && !unknown
                && facts.has_border_bitmap && !facts.has_mask_bitmap
            &&& ops.last() == DrawOp::Fail(RenderError::NoCommandList) <==> effects && !unknown
                && facts.has_border_bitmap && facts.has_mask_bitmap && !facts.has_command_list
        }),
{
    let stroke = Paint::Stroke(crate::border_drawer::shape_with(facts.stroke_radius));
    let fill = Paint::FillOuter(crate::border_drawer::shape_with(facts.outer_radius));
    match backend {
        RenderBackend::Legacy => {
            lemma_last_of_layers(
                facts,
                stroke,
                seq![DrawOp::BeginDraw, DrawOp::Clear],
                seq![DrawOp::FinishDraw],
            );
        },
        RenderBackend::V2 => if facts.effects_apply {
            lemma_last_of_mask(facts);
            lemma_last_of_layers(
                facts,
                fill,
                seq![DrawOp::SetTarget(RenderTarget::Border), DrawOp::BeginDraw, DrawOp::Clear],
                seq![DrawOp::FinishDraw] + facts.mask_plan(),
            );
        } else {
            lemma_last_of_layers(
                facts,
                stroke,
                crate::border_drawer::open_display() + seq![DrawOp::BeginDraw, DrawOp::Clear],
                crate::border_drawer::present(),
            );
        },
        RenderBackend::Absent => {},
    }
}

proof fn lemma_last_of_layers(
    facts: RenderFacts,
    paint: Paint,
    opening: Seq<DrawOp>,
    rest: Seq<DrawOp>,
)
    requires
        rest.len() > 0,
    ensures
        ({
            let ops = opening + facts.layers(paint, rest);
            &&& ops.len() > 0
            &&& ops.last() == (if facts.active.opacity is None || facts.inactive.opacity is None {
                DrawOp::Fail(RenderError::UnknownOpacity)
            } else {
                rest.last()
            })
        }),
{
}

proof fn lemma_last_of_mask(facts: RenderFacts)
    ensures
        ({
            let ops = seq![DrawOp::FinishDraw] + facts.mask_plan();
            &&& facts.mask_plan().len() > 0
            &&& ops.last() == facts.mask_plan().last()
            &&& ops.last() == (if !facts.has_mask_bitmap {
                DrawOp::Fail(RenderError::NoMaskBitmap)
            } else if !facts.has_command_list {
                DrawOp::Fail(RenderError::NoCommandList)
            } else {
                DrawOp::LeaveMultithread
            })
        }),
{
}

/// A drawing without effects starts on a cleared surface and ends by showing it. The display's
/// surface is only ever touched under the lock that renderers share, which is taken first and given
/// back last. Between the two stand the colors and nothing else.
pub proof fn law_plain_drawings_are_framed(facts: RenderFacts)
    requires
        facts.active.opacity is Some,
        facts.inactive.opacity is Some,
    ensures
        ({
            let ops = facts.plan(RenderBackend::Legacy);
            &&& ops.len() >= 3
            &&& ops[0] is BeginDraw
            &&& ops[1] is Clear
            &&& ops.last() is FinishDraw
            &&& forall|i: int|
                2 <= i < ops.len() - 1 ==> #[trigger] ops[i] is Stroke || ops[i] is UpdateGradient
        }),
        !facts.effects_apply ==> {
            let ops = facts.plan(RenderBackend::V2);
            let end = ops.len() as int;
            &&& end >= 10
            &&& ops[0] is EnterMultithread
            &&& ops[1] is BeginSurface
            &&& ops[2] is CreateTargetBitmap
            &&& ops[3] == DrawOp::SetTarget(RenderTarget::Display)
            &&& ops[4] is BeginDraw
            &&& ops[5] is Clear
            &&& ops[end - 4] is FinishDraw
            &&& ops[end - 3] is FinishSurface
            &&& ops[end - 2] is Commit
            &&& ops[end - 1] is LeaveMultithread
            &&& forall|i: int|
                6 <= i < end - 4 ==> #[trigger] ops[i] is Stroke || ops[i] is UpdateGradient
        },
{
}

/// How a drawing with effects goes on once the border is filled.
#[verifier::opaque]
pub open spec fn masked_and_shown(inner: Shape) -> Seq<DrawOp> {
    seq![
        DrawOp::FinishDraw,
        DrawOp::SetTarget(RenderTarget::Mask),
        DrawOp::CreateOpaqueBrush,
        DrawOp::BeginDraw,
        DrawOp::Clear,
        DrawOp::FillInner { shape: inner },
        DrawOp::FinishDraw,
        DrawOp::EnterMultithread,
        DrawOp::BeginSurface,
        DrawOp::CreateTargetBitmap,
        DrawOp::SetTarget(RenderTarget::Display),
        DrawOp::BeginDraw,
        DrawOp::Clear,
        DrawOp::DrawCommandList,
        DrawOp::FinishDraw,
        DrawOp::FinishSurface,
        DrawOp::Commit,
        DrawOp::LeaveMultithread,
    ]
}

/// A drawing with effects fills the border, masks its inside with the shape of the inner edge, and
/// shows both together with the effects.
pub proof fn law_effect_drawings_are_framed(facts: RenderFacts)
    requires
        facts.active.opacity is Some,
        facts.inactive.opacity is Some,
        facts.effects_apply,
        facts.has_border_bitmap,
        facts.has_mask_bitmap,
        facts.has_command_list,
    ensures
        ({
            let ops = facts.plan(RenderBackend::V2);
            let start = ops.len() - 18;
            &&& start >= 3
            &&& ops.take(3) == seq![
                DrawOp::SetTarget(RenderTarget::Border),
                DrawOp::BeginDraw,
                DrawOp::Clear,
            ]
            &&& forall|i: int|
                3 <= i < start ==> #[trigger] ops[i] is FillOuter || ops[i] is UpdateGradient
            &&& ops.skip(start) == masked_and_shown(corners(facts.inner_radius))
        }),
{
    let opening = seq![DrawOp::SetTarget(RenderTarget::Border), DrawOp::BeginDraw, DrawOp::Clear];
    let paint = Paint::FillOuter(crate::border_drawer::shape_with(facts.outer_radius));
    let below = facts.layer(facts.bottom(), paint);
    let above = facts.layer(facts.top(), paint);
    lemma_mask_written_out(facts);
    lemma_fills_only(facts, facts.bottom(), paint);
    lemma_fills_only(facts, facts.top(), paint);
    lemma_frame(
        opening,
        below,
        above,
        masked_and_shown(corners(facts.inner_radius)),
        facts.plan(RenderBackend::V2),
    );
}

proof fn lemma_fills_only(facts: RenderFacts, color: ColorRole, paint: Paint)
    requires
        paint is FillOuter,
    ensures
        forall|i: int|
            0 <= i < facts.layer(color, paint).len() ==> #[trigger] facts.layer(color, paint)[i]
                is FillOuter || facts.layer(color, paint)[i] is UpdateGradient,
{
}

proof fn lemma_mask_written_out(facts: RenderFacts)
    requires
        facts.has_mask_bitmap,
        facts.has_command_list,
    ensures
        seq![DrawOp::FinishDraw] + facts.mask_plan() == masked_and_shown(
            corners(facts.inner_radius),
        ),
        masked_and_shown(corners(facts.inner_radius)).len() == 18,
{
    reveal(masked_and_shown);
    lemma_corners(facts.inner_radius);
    let compose = seq![DrawOp::BeginDraw, DrawOp::Clear, DrawOp::DrawCommandList]
        + crate::border_drawer::present();
    assert(compose =~= seq![
        DrawOp::BeginDraw,
        DrawOp::Clear,
        DrawOp::DrawCommandList,
        DrawOp::FinishDraw,
        DrawOp::FinishSurface,
        DrawOp::Commit,
        DrawOp::LeaveMultithread,
    ]);
    assert(facts.mask_plan().len() == 17);
    assert(seq![DrawOp::FinishDraw] + facts.mask_plan() =~= masked_and_shown(
        corners(facts.inner_radius),
    ));
}

proof fn lemma_frame(
    opening: Seq<DrawOp>,
    below: Seq<DrawOp>,
    above: Seq<DrawOp>,
    rest: Seq<DrawOp>,
    ops: Seq<DrawOp>,
)
    requires
        ops == opening + (below + above + rest),
    ensures
        ops.len() == opening.len() + below.len() + above.len() + rest.len(),
        ops.take(opening.len() as int) == opening,
        ops.skip(ops.len() - rest.len()) == rest,
        forall|i: int|
            opening.len() <= i < ops.len() - rest.len() ==> #[trigger] ops[i] == (if i
                < opening.len() + below.len() {
                below[i - opening.len()]
            } else {
                above[i - opening.len() - below.len()]
            }),
{
    assert(ops.take(opening.len() as int) =~= opening);
    assert(ops.skip(ops.len() - rest.len()) =~= rest);
}

/// The color of the window's own state lies over the other one, wherever both are put down.
pub proof fn law_own_color_lies_on_top(
    facts: RenderFacts,
    backend: RenderBackend,
    active_at: int,
    inactive_at: int,
)
    requires
        0 <= active_at < facts.plan(backend).len(),
        0 <= inactive_at < facts.plan(backend).len(),
        crate::border_drawer::puts_down(facts.plan(backend)[active_at], ColorRole::Active),
        crate::border_drawer::puts_down(facts.plan(backend)[inactive_at], ColorRole::Inactive),
    ensures
        facts.window_state is Active <==> inactive_at < active_at,
        facts.window_state is Inactive <==> active_at < inactive_at,
{
    crate::border_drawer::law_drawings_are_orderly(facts, backend);
}

/// A spiral turns in every step, whatever the colors. A fade rests exactly where the color of the
/// window's own state is fully opaque and the other one cannot be seen; as long as it can tell that
/// they are not there yet it goes on; and it fails where it cannot tell.
pub proof fn law_fades_end_with_the_own_color(
    anim_type: AnimType,
    window_state: WindowState,
    active: Option<FloatBits>,
    inactive: Option<FloatBits>,
)
    ensures
        ({
            let step = crate::border_drawer::step_of(anim_type, window_state, active, inactive);
            let opaque = |opacity: FloatBits| opacity.bits == 0x3f80_0000;
            let gone = |opacity: FloatBits| opacity.bits == 0 || opacity.bits == 0x8000_0000;
            let active_there = active is Some && (if window_state is Active {
                opaque(active->0)
            } else {
                gone(active->0)
            });
            let inactive_there = inactive is Some && (if window_state is Active {
                gone(inactive->0)
            } else {
                opaque(inactive->0)
            });
            &&& anim_type !is Fade <==> step is Spiral
            &&& anim_type is Fade ==> {
                &&& step is Rest <==> active_there && inactive_there
                &&& step is Fail <==> active is None || (active_there && inactive is None)
                &&& step is Fail ==> step == AnimateStep::Fail(RenderError::UnknownOpacity)
                &&& step is Fade <==> active is Some && !(active_there && (inactive is None
                    || inactive_there))
            }
        }),
{
}

/// With a renderer a brush is made for each color, and with one that can draw effects also what they
/// need, which is all that another size makes stale. Without one the start fails, and nothing is made.
pub proof fn law_renderers_come_with_brushes(backend: RenderBackend, color: ColorRole)
    ensures
        ({
            let made = crate::border_drawer::created_with(backend);
            let anew = crate::border_drawer::created_anew(backend);
            &&& made.contains(InitOp::InitBrush(color)) <==> backend !is Absent
            &&& made.contains(InitOp::InitCommandLists) <==> backend is V2
            &&& made.contains(InitOp::Fail(RenderError::NoBackend)) <==> backend is Absent
            &&& made.len() == (match backend {
                RenderBackend::Absent => 1int,
                RenderBackend::Legacy => 2,
                RenderBackend::V2 => 3,
            })
            &&& anew.contains(InitOp::InitCommandLists) <==> backend is V2
            &&& anew.len() == (if backend is V2 {
                1int
            } else {
                0
            })
            &&& backend is V2 ==> made.last() is InitCommandLists
        }),
{
    let made = crate::border_drawer::created_with(backend);
    let anew = crate::border_drawer::created_anew(backend);
    if backend !is Absent {
        assert(made[0] == InitOp::InitBrush(ColorRole::Active));
        assert(made[1] == InitOp::InitBrush(ColorRole::Inactive));
    } else {
        assert(made[0] == InitOp::Fail(RenderError::NoBackend));
    }
    if backend is V2 {
        assert(made[2] == InitOp::InitCommandLists);
        assert(anew[0] == InitOp::InitCommandLists);
    }
}

/// The renderer goes first, and with it everything that was made for it: of each color its brush and
/// what effects need. Nothing is let go of twice.
pub proof fn law_everything_is_let_go_of(color: ColorRole)
    ensures
        ({
            let ops = crate::border_drawer::released();
            &&& ops.len() == 5
            &&& ops[0] is DropBackend
            &&& ops.contains(ReleaseOp::TakeBrush(color))
            &&& ops.contains(ReleaseOp::TakeCommandList(color))
            &&& ops.no_duplicates()
        }),
{
    let ops = crate::border_drawer::released();
    assert(ops[1] == ReleaseOp::TakeBrush(ColorRole::Active));
    assert(ops[2] == ReleaseOp::TakeBrush(ColorRole::Inactive));
    assert(ops[3] == ReleaseOp::TakeCommandList(ColorRole::Active));
    assert(ops[4] == ReleaseOp::TakeCommandList(ColorRole::Inactive));
}

/// A pass over the animations leads to a drawing exactly if one of its steps changed something and
/// the next frame is due. A step that rests or fails changes nothing, and no later step undoes a
/// change.
pub proof fn law_changes_are_drawn_when_due(pass: AnimatePass, step: AnimateStep, frame_due: bool)
    requires
        pass.done < usize::MAX,
    ensures
        pass.after_step(step).done == pass.done + 1,
        pass.after_step(step).update <==> pass.update || step is Spiral || step is Fade,
        pass.update ==> pass.after_step(step).update,
        crate::border_drawer::draws_after(pass, false) == false,
        crate::border_drawer::draws_after(pass, true) == pass.update,
{
}

/// Where the opacity of the lower color cannot be told, no color is touched. Where only that of the
/// upper one cannot, the lower one is drawn as ever before the drawing fails, and the upper one is
/// not touched.
pub proof fn law_unknown_colors_end_the_drawing(facts: RenderFacts, backend: RenderBackend)
    requires
        backend != RenderBackend::Absent,
        backend == RenderBackend::V2 && facts.effects_apply ==> facts.has_border_bitmap,
    ensures
        ({
            let ops = facts.plan(backend);
            let fills = backend == RenderBackend::V2 && facts.effects_apply;
            let (lower, lower_brush, upper, upper_brush) = match facts.window_state {
                WindowState::Active => (
                    ColorRole::Inactive,
                    facts.inactive,
                    ColorRole::Active,
                    facts.active,
                ),
                WindowState::Inactive => (
                    ColorRole::Active,
                    facts.active,
                    ColorRole::Inactive,
                    facts.inactive,
                ),
            };
            let put = if fills {
                DrawOp::FillOuter { color: lower, shape: corners(facts.outer_radius) }
            } else {
                DrawOp::Stroke { color: lower, shape: corners(facts.stroke_radius) }
            };
            &&& lower_brush.opacity is None ==> untouched(ops, lower) && untouched(ops, upper)
            &&& lower_brush.opacity is Some && upper_brush.opacity is None ==> drawn_once(
                ops,
                lower,
                lower_brush,
                put,
            ) && untouched(ops, upper)
        }),
{
    lemma_corners(facts.stroke_radius);
    lemma_corners(facts.outer_radius);
    let stroke = Paint::Stroke(crate::border_drawer::shape_with(facts.stroke_radius));
    let fill = Paint::FillOuter(crate::border_drawer::shape_with(facts.outer_radius));
    match backend {
        RenderBackend::Legacy => {
            lemma_unknown(
                facts,
                stroke,
                seq![DrawOp::BeginDraw, DrawOp::Clear],
                seq![DrawOp::FinishDraw],
            );
        },
        RenderBackend::V2 => if facts.effects_apply {
            lemma_unknown(
                facts,
                fill,
                seq![DrawOp::SetTarget(RenderTarget::Border), DrawOp::BeginDraw, DrawOp::Clear],
                seq![DrawOp::FinishDraw] + facts.mask_plan(),
            );
        } else {
            lemma_unknown(
                facts,
                stroke,
                crate::border_drawer::open_display() + seq![DrawOp::BeginDraw, DrawOp::Clear],
                crate::border_drawer::present(),
            );
        },
        RenderBackend::Absent => {},
    }
}

proof fn lemma_unknown(
    facts: RenderFacts,
    paint: Paint,
    opening: Seq<DrawOp>,
    rest: Seq<DrawOp>,
)
    requires
        untouched(opening, ColorRole::Active),
        untouched(opening, ColorRole::Inactive),
    ensures
        ({
            let ops = opening + facts.layers(paint, rest);
            let lower = facts.bottom();
            let upper = facts.top();
            &&& facts.brush(lower).opacity is None ==> untouched(ops, lower) && untouched(
                ops,
                upper,
            )
            &&& facts.brush(lower).opacity is Some && facts.brush(upper).opacity is None
                ==> drawn_once(ops, lower, facts.brush(lower), paint.op(lower)) && untouched(
                ops,
                upper,
            )
        }),
{
    let lower = facts.bottom();
    let upper = facts.top();
    let fail = seq![DrawOp::Fail(RenderError::UnknownOpacity)];
    let ops = opening + facts.layers(paint, rest);
    assert(untouched(fail, lower));
    assert(untouched(fail, upper));
    if facts.brush(lower).opacity is None {
        lemma_untouched_sum(opening, fail, lower);
        lemma_untouched_sum(opening, fail, upper);
    } else if facts.brush(upper).opacity is None {
        let below = facts.layer(lower, paint);
        lemma_drawn_once(facts, paint, lower, opening, fail);
        assert(ops =~= opening + below + fail);
        lemma_other_layer(facts, paint, upper, lower);
        lemma_untouched_sum(opening, below, upper);
        lemma_untouched_sum(opening + below, fail, upper);
    }
}

} // verus!
