//! Text as lines and file names bring it.

use vstd::prelude::*;
use vstd::string::StrSliceExecFns;

verus! {

/// Whether a character has the Unicode property `White_Space`.
pub open spec fn white_space(c: char) -> bool {
    let point = c as u32;
    ||| 0x9 <= point <= 0xd
    ||| point == 0x20
    ||| point == 0x85
    ||| point == 0xa0
    ||| point == 0x1680
    ||| 0x2000 <= point <= 0x200a
    ||| point == 0x2028
    ||| point == 0x2029
    ||| point == 0x202f
    ||| point == 0x205f
    ||| point == 0x3000
}

fn is_white_space(c: char) -> (white: bool)
    ensures
        white == white_space(c),
{
    let point: u32 = c as u32;
    (0x9 <= point && point <= 0xd) || point == 0x20 || point == 0x85 || point == 0xa0 || point
        == 0x1680 || (0x2000 <= point && point <= 0x200a) || point == 0x2028 || point == 0x2029
        || point == 0x202f || point == 0x205f || point == 0x3000
}

/// Text without the white space at its start.
pub open spec fn trimmed_start(text: Seq<char>) -> Seq<char>
    decreases text.len(),
{
    if text.len() > 0 && white_space(text[0]) {
        trimmed_start(text.drop_first())
    } else {
        text
    }
}

/// Text without the white space at its end.
pub open spec fn trimmed_end(text: Seq<char>) -> Seq<char>
    decreases text.len(),
{
    if text.len() > 0 && white_space(text.last()) {
        trimmed_end(text.drop_last())
    } else {
        text
    }
}

pub fn trim_end(text: &str) -> (trimmed: &str)
    ensures
        trimmed@ == trimmed_end(text@),
{
    let mut end: usize = text.unicode_len();
    assert(text@.take(end as int) =~= text@);
    while end > 0 && is_white_space(text.get_char(end - 1))
        invariant
            end <= text@.len(),
            trimmed_end(text@) == trimmed_end(text@.take(end as int)),
        decreases end,
    {
        assert(text@.take(end as int).drop_last() =~= text@.take(end - 1));
        end -= 1;
    }
    assert(end > 0 ==> text@.take(end as int).last() == text@[end - 1]);
    assert(text@.subrange(0, end as int) =~= text@.take(end as int));
    text.substring_char(0, end)
}

pub fn trim_start(text: &str) -> (trimmed: &str)
    ensures
        trimmed@ == trimmed_start(text@),
{
    let len: usize = text.unicode_len();
    let mut start: usize = 0;
    assert(text@.skip(0) =~= text@);
    while start < len && is_white_space(text.get_char(start))
        invariant
            start <= len == text@.len(),
            trimmed_start(text@) == trimmed_start(text@.skip(start as int)),
        decreases len - start,
    {
        assert(text@.skip(start as int).drop_first() =~= text@.skip(start + 1));
        start += 1;
    }
    assert(start < len ==> text@.skip(start as int)[0] == text@[start as int]);
    assert(text@.subrange(start as int, len as int) =~= text@.skip(start as int));
    text.substring_char(start, len)
}

/// Text without the white space around it.
pub fn trim(text: &str) -> (trimmed: &str)
    ensures
        trimmed@ == trimmed_end(trimmed_start(text@)),
{
    trim_end(trim_start(text))
}

/// Trimmed text neither starts nor ends with white space, and trimming it again changes nothing.
pub proof fn law_trimming_is_done_once(text: Seq<char>)
    ensures
        ({
            let trimmed = trimmed_end(trimmed_start(text));
            &&& trimmed.len() > 0 ==> !white_space(trimmed[0]) && !white_space(trimmed.last())
            &&& trimmed_end(trimmed_start(trimmed)) == trimmed
        }),
{
    lemma_trimmed_start(text);
    lemma_trimmed_end(trimmed_start(text));
}

proof fn lemma_trimmed_start(text: Seq<char>)
    ensures
        trimmed_start(text).len() > 0 ==> !white_space(trimmed_start(text)[0]),
    decreases text.len(),
{
    if text.len() > 0 && white_space(text[0]) {
        lemma_trimmed_start(text.drop_first());
    }
}

proof fn lemma_trimmed_end(text: Seq<char>)
    ensures
        trimmed_end(text).len() > 0 ==> !white_space(trimmed_end(text).last())
            && trimmed_end(text)[0] == text[0],
    decreases text.len(),
{
    if text.len() > 0 && white_space(text.last()) {
        lemma_trimmed_end(text.drop_last());
    }
}

/// What stands for an unpaired surrogate.
pub const REPLACEMENT: u32 = 0xfffd;

pub open spec fn high_surrogate(unit: u16) -> bool {
    0xd800 <= unit < 0xdc00
}

pub open spec fn low_surrogate(unit: u16) -> bool {
    0xdc00 <= unit < 0xe000
}

/// The code point that a pair of surrogates stands for.
pub open spec fn paired(high: u16, low: u16) -> u32 {
    (0x10000 + (high - 0xd800) * 0x400 + (low - 0xdc00)) as u32
}

/// The code points that UTF-16 units stand for. An unpaired surrogate stands for the replacement
/// character.
pub open spec fn code_points(units: Seq<u16>) -> Seq<u32>
    decreases units.len(),
{
    if units.len() == 0 {
        Seq::empty()
    } else if high_surrogate(units[0]) && units.len() > 1 && low_surrogate(units[1]) {
        seq![paired(units[0], units[1])] + code_points(units.skip(2))
    } else if high_surrogate(units[0]) || low_surrogate(units[0]) {
        seq![REPLACEMENT] + code_points(units.drop_first())
    } else {
        seq![units[0] as u32] + code_points(units.drop_first())
    }
}

pub open spec fn scalar_values(text: Seq<char>) -> Seq<u32> {
    Seq::new(text.len(), |i: int| text[i] as u32)
}

/// Decodes UTF-16 units.
pub fn decode_utf16_lossy(units: &Vec<u16>) -> (points: Vec<u32>)
    ensures
        points@ == code_points(units@),
{
    let mut points: Vec<u32> = Vec::new();
    let count: usize = units.len();
    let mut at: usize = 0;
    assert(units@.skip(0) =~= units@);
    while at < count
        invariant
            at <= count == units@.len(),
            code_points(units@) == points@ + code_points(units@.skip(at as int)),
        decreases count - at,
    {
        let ghost rest = units@.skip(at as int);
        let ghost before = points@;
        let unit: u16 = units[at];
        assert(rest[0] == unit);
        let is_high = 0xd800 <= unit && unit < 0xdc00;
        let is_low = 0xdc00 <= unit && unit < 0xe000;
        let next_is_low = at + 1 < count && 0xdc00 <= units[at + 1] && units[at + 1] < 0xe000;
        assert(at + 1 < count ==> rest[1] == units@[at + 1]);
        if is_high && next_is_low {
            let high: u32 = unit as u32 - 0xd800;
            let low: u32 = units[at + 1] as u32 - 0xdc00;
            points.push(0x10000 + high * 0x400 + low);
            assert(rest.skip(2) =~= units@.skip(at + 2));
            at += 2;
        } else {
            if is_high || is_low {
                points.push(REPLACEMENT);
            } else {
                points.push(unit as u32);
            }
            assert(rest.drop_first() =~= units@.skip(at + 1));
            at += 1;
        }
        assert(points@ + code_points(units@.skip(at as int)) =~= before + code_points(rest));
    }
    assert(code_points(units@.skip(count as int)) =~= Seq::empty());
    assert(points@ =~= code_points(units@));
    points
}

/// Whether code points spell a text.
pub fn spells(points: &Vec<u32>, text: &str) -> (same: bool)
    ensures
        same == (points@ == scalar_values(text@)),
{
    let count: usize = points.len();
    if text.unicode_len() != count {
        assert(points@.len() != scalar_values(text@).len());
        return false;
    }
    for i in 0..count
        invariant
            count == points@.len() == text@.len(),
            forall|j: int| 0 <= j < i ==> points@[j] == text@[j] as u32,
    {
        if points[i] != text.get_char(i) as u32 {
            assert(points@[i as int] != scalar_values(text@)[i as int]);
            return false;
        }
    }
    assert(points@ =~= scalar_values(text@));
    true
}

/// White space is what Unicode lists as such: the ASCII controls from tab to carriage return, the
/// space, and twenty others.
pub proof fn law_white_space_is_listed(c: char)
    ensures
        white_space(c) <==> seq![
            0x9u32,
            0xa,
            0xb,
            0xc,
            0xd,
            0x20,
            0x85,
            0xa0,
            0x1680,
            0x2000,
            0x2001,
            0x2002,
            0x2003,
            0x2004,
            0x2005,
            0x2006,
            0x2007,
            0x2008,
            0x2009,
            0x200a,
            0x2028,
            0x2029,
            0x202f,
            0x205f,
            0x3000,
        ].contains(c as u32),
{
    let listed = seq![
        0x9u32,
        0xa,
        0xb,
        0xc,
        0xd,
        0x20,
        0x85,
        0xa0,
        0x1680,
        0x2000,
        0x2001,
        0x2002,
        0x2003,
        0x2004,
        0x2005,
        0x2006,
        0x2007,
        0x2008,
        0x2009,
        0x200a,
        0x2028,
        0x2029,
        0x202f,
        0x205f,
        0x3000,
    ];
    let point = c as u32;
    if white_space(c) {
        let at: int = if point <= 0xd {
            point - 9
        } else if point == 0x20 {
            5
        } else if point == 0x85 {
            6
        } else if point == 0xa0 {
            7
        } else if point == 0x1680 {
            8
        } else if point <= 0x200a {
            point - 0x2000 + 9
        } else if point == 0x2028 {
            20
        } else if point == 0x2029 {
            21
        } else if point == 0x202f {
            22
        } else if point == 0x205f {
            23
        } else {
            24
        };
        assert(listed[at] == point);
    }
}

/// Trimming takes white space off both ends and nothing else: what is left is the text between, and
/// where there is nothing but white space, nothing is left.
pub proof fn law_trimming_takes_white_space_only(text: Seq<char>)
    ensures
        exists|start: int, end: int|
            {
                &&& 0 <= start <= end <= text.len()
                &&& trimmed_end(trimmed_start(text)) == #[trigger] text.subrange(start, end)
                &&& forall|i: int| 0 <= i < start ==> white_space(#[trigger] text[i])
                &&& forall|i: int| end <= i < text.len() ==> white_space(#[trigger] text[i])
            },
        (forall|i: int| 0 <= i < text.len() ==> white_space(#[trigger] text[i])) ==> trimmed_end(
            trimmed_start(text),
        ).len() == 0,
{
    lemma_start_is_a_suffix(text);
    let start = choose|start: int|
        0 <= start <= text.len() && trimmed_start(text) == #[trigger] text.skip(start) && forall|
            i: int,
        |
            0 <= i < start ==> white_space(#[trigger] text[i]);
    let rest = text.skip(start);
    lemma_end_is_a_prefix(rest);
    let kept = choose|kept: int|
        0 <= kept <= rest.len() && trimmed_end(rest) == #[trigger] rest.take(kept) && forall|i: int|
            kept <= i < rest.len() ==> white_space(#[trigger] rest[i]);
    assert(rest.take(kept) =~= text.subrange(start, start + kept));
    assert forall|i: int| start + kept <= i < text.len() implies white_space(#[trigger] text[i]) by {
        assert(rest[i - start] == text[i]);
    }
    if forall|i: int| 0 <= i < text.len() ==> white_space(#[trigger] text[i]) {
        law_trimming_is_done_once(text);
        let trimmed = trimmed_end(trimmed_start(text));
        if trimmed.len() > 0 {
            assert(trimmed[0] == text[start]);
        }
    }
}

proof fn lemma_start_is_a_suffix(text: Seq<char>)
    ensures
        exists|start: int|
            0 <= start <= text.len() && trimmed_start(text) == #[trigger] text.skip(start)
                && forall|i: int| 0 <= i < start ==> white_space(#[trigger] text[i]),
    decreases text.len(),
{
    if text.len() > 0 && white_space(text[0]) {
        let rest = text.drop_first();
        lemma_start_is_a_suffix(rest);
        let start = choose|start: int|
            0 <= start <= rest.len() && trimmed_start(rest) == #[trigger] rest.skip(start)
                && forall|i: int| 0 <= i < start ==> white_space(#[trigger] rest[i]);
        assert(rest.skip(start) =~= text.skip(start + 1));
        assert forall|i: int| 0 <= i < start + 1 implies white_space(#[trigger] text[i]) by {
            if i > 0 {
                assert(rest[i - 1] == text[i]);
            }
        }
    } else {
        assert(text.skip(0) =~= text);
    }
}

proof fn lemma_end_is_a_prefix(text: Seq<char>)
    ensures
        exists|kept: int|
            0 <= kept <= text.len() && trimmed_end(text) == #[trigger] text.take(kept) && forall|
                i: int,
            |
                kept <= i < text.len() ==> white_space(#[trigger] text[i]),
    decreases text.len(),
{
    if text.len() > 0 && white_space(text.last()) {
        let rest = text.drop_last();
        lemma_end_is_a_prefix(rest);
        let kept = choose|kept: int|
            0 <= kept <= rest.len() && trimmed_end(rest) == #[trigger] rest.take(kept) && forall|
                i: int,
            |
                kept <= i < rest.len() ==> white_space(#[trigger] rest[i]);
        assert(rest.take(kept) =~= text.take(kept));
        assert forall|i: int| kept <= i < text.len() implies white_space(#[trigger] text[i]) by {
            if i < rest.len() {
                assert(rest[i] == text[i]);
            }
        }
    } else {
        assert(text.take(text.len() as int) =~= text);
    }
}

/// The UTF-16 units that code points are written with.
pub open spec fn utf16_units(points: Seq<u32>) -> Seq<u16>
    decreases points.len(),
{
    if points.len() == 0 {
        Seq::empty()
    } else if points[0] < 0x10000 {
        seq![points[0] as u16] + utf16_units(points.drop_first())
    } else {
        seq![
            (0xd800 + (points[0] - 0x10000) / 0x400) as u16,
            (0xdc00 + (points[0] - 0x10000) % 0x400) as u16,
        ] + utf16_units(points.drop_first())
    }
}

/// Text that is written in UTF-16 reads back as it was.
pub proof fn law_utf16_reads_back(points: Seq<u32>)
    requires
        forall|i: int|
            0 <= i < points.len() ==> #[trigger] points[i] < 0xd800 || 0xe000 <= points[i]
                < 0x110000,
    ensures
        code_points(utf16_units(points)) == points,
    decreases points.len(),
{
    if points.len() > 0 {
        let rest = points.drop_first();
        assert forall|i: int| 0 <= i < rest.len() implies #[trigger] rest[i] < 0xd800 || 0xe000
            <= rest[i] < 0x110000 by {
            assert(rest[i] == points[i + 1]);
        }
        law_utf16_reads_back(rest);
        let units = utf16_units(points);
        let first = points[0];
        if first < 0x10000 {
            assert(units[0] == first);
            assert(units.drop_first() =~= utf16_units(rest));
            assert(code_points(units) =~= points);
        } else {
            let high = (first - 0x10000) / 0x400;
            let low = (first - 0x10000) % 0x400;
            assert(units[0] == 0xd800 + high && units[1] == 0xdc00 + low);
            assert(units.skip(2) =~= utf16_units(rest));
            assert(paired(units[0], units[1]) == first);
            assert(code_points(units) =~= points);
        }
    } else {
        assert(code_points(utf16_units(points)) =~= points);
    }
}

/// A surrogate without its partner reads as the replacement character, and costs only itself: what
/// follows reads as it would alone.
pub proof fn law_lone_surrogates_are_replaced(units: Seq<u16>)
    requires
        units.len() > 0,
        0xd800 <= units[0] < 0xe000,
        units[0] >= 0xdc00 || units.len() == 1 || !(0xdc00 <= units[1] < 0xe000),
    ensures
        code_points(units) == seq![0xfffdu32] + code_points(units.drop_first()),
{
}

} // verus!
