//! Screen layout: compositor outputs become screens with desktop rectangles
//! whose origin is the top-left corner of the whole desktop, ordered by
//! position then name and numbered in that order.
use vstd::prelude::*;
use crate::geometry::{FrameRate, PixelSize, ScreenId};

verus! {

/// How a screen's contents are rotated or flipped on the desktop, clockwise.
#[derive(Debug, Clone, Copy, PartialEq, Eq, Hash, Structural)]
pub enum ScreenTransform {
    Normal,
    Rotate90,
    Rotate180,
    Rotate270,
    Flipped,
    Flipped90,
    Flipped180,
    Flipped270,
}

/// An output transform as compositors report it: counter-clockwise.
#[derive(Debug, Clone, Copy, PartialEq, Eq, Hash, Structural)]
pub enum OutputTransform {
    Normal,
    Rotate90,
    Rotate180,
    Rotate270,
    Flipped,
    Flipped90,
    Flipped180,
    Flipped270,
}

/// The clockwise screen transform of a counter-clockwise output transform.
pub open spec fn spec_screen_transform(t: OutputTransform) -> ScreenTransform {
    match t {
        OutputTransform::Normal => ScreenTransform::Normal,
        OutputTransform::Rotate90 => ScreenTransform::Rotate270,
        OutputTransform::Rotate180 => ScreenTransform::Rotate180,
        OutputTransform::Rotate270 => ScreenTransform::Rotate90,
        OutputTransform::Flipped => ScreenTransform::Flipped,
        OutputTransform::Flipped90 => ScreenTransform::Flipped270,
        OutputTransform::Flipped180 => ScreenTransform::Flipped180,
        OutputTransform::Flipped270 => ScreenTransform::Flipped90,
    }
}

/// The screen transform of an output transform.
pub fn screen_transform(t: OutputTransform) -> (r: ScreenTransform)
    ensures
        r == spec_screen_transform(t),
{
    match t {
        OutputTransform::Normal => ScreenTransform::Normal,
        OutputTransform::Rotate90 => ScreenTransform::Rotate270,
        OutputTransform::Rotate180 => ScreenTransform::Rotate180,
        OutputTransform::Rotate270 => ScreenTransform::Rotate90,
        OutputTransform::Flipped => ScreenTransform::Flipped,
        OutputTransform::Flipped90 => ScreenTransform::Flipped270,
        OutputTransform::Flipped180 => ScreenTransform::Flipped180,
        OutputTransform::Flipped270 => ScreenTransform::Flipped90,
    }
}

/// Whether a transform swaps the width and the height of a screen.
pub open spec fn spec_is_quarter_turn(t: ScreenTransform) -> bool {
    t == ScreenTransform::Rotate90 || t == ScreenTransform::Rotate270 || t
        == ScreenTransform::Flipped90 || t == ScreenTransform::Flipped270
}

/// Whether `t` turns the screen by a quarter, swapping its width and height.
pub fn is_quarter_turn(t: ScreenTransform) -> (r: bool)
    ensures
        r == spec_is_quarter_turn(t),
{
    match t {
        ScreenTransform::Rotate90 | ScreenTransform::Rotate270 | ScreenTransform::Flipped90
        | ScreenTransform::Flipped270 => true,
        _ => false,
    }
}

/// A rectangle of the desktop in logical pixels.
#[derive(Debug, Clone, Copy, PartialEq, Eq, Hash, Structural)]
pub struct ScreenRect {
    pub x: u32,
    pub y: u32,
    pub width: u32,
    pub height: u32,
}

/// An output the compositor maps onto the desktop, at a logical position that
/// may be negative.
#[derive(Debug, Clone)]
pub struct PlacedOutput {
    pub name: String,
    pub x: i32,
    pub y: i32,
    pub width: u32,
    pub height: u32,
}

/// A screen of the arranged layout: its identifier, the index of the output
/// it was made from, and its desktop rectangle.
#[derive(Debug, Clone, Copy, PartialEq, Eq)]
pub struct ArrangedScreen {
    pub id: ScreenId,
    pub source: usize,
    pub rect: ScreenRect,
}

/// Whether character sequence `a` sorts before `b`: at the first position
/// where they differ the character of `a` is smaller, or `a` is a proper
/// prefix of `b`.
pub open spec fn spec_name_lt(a: Seq<char>, b: Seq<char>) -> bool {
    exists|k: int|
        #![trigger a.take(k), b.take(k)]
        0 <= k <= a.len() && k <= b.len() && a.take(k) == b.take(k) && ((k < a.len() && k < b.len()
            && (a[k] as int) < (b[k] as int)) || (k == a.len() && k < b.len()))
}

proof fn lemma_name_lt_irreflexive(a: Seq<char>)
    ensures
        !spec_name_lt(a, a),
{
}

proof fn lemma_name_lt_transitive(a: Seq<char>, b: Seq<char>, c: Seq<char>)
    requires
        spec_name_lt(a, b),
        spec_name_lt(b, c),
    ensures
        spec_name_lt(a, c),
{
    let k1 = choose|k: int|
        #![trigger a.take(k), b.take(k)]
        0 <= k <= a.len() && k <= b.len() && a.take(k) == b.take(k) && ((k < a.len() && k < b.len()
            && (a[k] as int) < (b[k] as int)) || (k == a.len() && k < b.len()));
    let k2 = choose|k: int|
        #![trigger b.take(k), c.take(k)]
        0 <= k <= b.len() && k <= c.len() && b.take(k) == c.take(k) && ((k < b.len() && k < c.len()
            && (b[k] as int) < (c[k] as int)) || (k == b.len() && k < c.len()));
    let k = if k1 <= k2 { k1 } else { k2 };
    assert(a.take(k) =~= c.take(k)) by {
        assert forall|j: int| 0 <= j < k implies a.take(k)[j] == c.take(k)[j] by {
            assert(a.take(k1)[j] == b.take(k1)[j]);
            assert(b.take(k2)[j] == c.take(k2)[j]);
        }
    }
    if k1 < k2 {
        assert(b[k1] == c[k1]) by {
            assert(b.take(k2)[k1] == c.take(k2)[k1]);
        }
    } else if k2 < k1 {
        assert(a[k2] == b[k2]) by {
            assert(a.take(k1)[k2] == b.take(k1)[k2]);
        }
    }
    assert(a.take(k) == c.take(k));
}

proof fn lemma_name_lt_total(a: Seq<char>, b: Seq<char>)
    ensures
        a == b || spec_name_lt(a, b) || spec_name_lt(b, a),
{
    if a != b {
        let m = if a.len() <= b.len() { a.len() as int } else { b.len() as int };
        if a.take(m) == b.take(m) {
            if a.len() == b.len() {
                assert(a =~= a.take(m));
                assert(b =~= b.take(m));
            }
            assert(a.take(m) == b.take(m));
        } else {
            if forall|k: int| 0 <= k < m ==> a.take(m)[k] == b.take(m)[k] {
                assert(a.take(m) =~= b.take(m));
            }
            let k = choose|k: int| 0 <= k < m && a.take(m)[k] != b.take(m)[k];
            assert(a[k] != b[k]);
            lemma_first_difference(a, b, k);
        }
    }
}

proof fn lemma_first_difference(a: Seq<char>, b: Seq<char>, k: int)
    requires
        0 <= k < a.len(),
        k < b.len(),
        a[k] != b[k],
    ensures
        spec_name_lt(a, b) || spec_name_lt(b, a),
    decreases k,
{
    if a.take(k) == b.take(k) {
        if (a[k] as int) < (b[k] as int) {
            assert(a.take(k) == b.take(k));
        } else {
            assert((a[k] as int) != (b[k] as int));
            assert((b[k] as int) < (a[k] as int));
            assert(b.take(k) == a.take(k));
        }
    } else {
        if forall|j: int| 0 <= j < k ==> a.take(k)[j] == b.take(k)[j] {
            assert(a.take(k) =~= b.take(k));
        }
        let j = choose|j: int| 0 <= j < k && a.take(k)[j] != b.take(k)[j];
        assert(a[j] != b[j]);
        lemma_first_difference(a, b, j);
    }
}

/// Whether output `a` comes before output `b`: by x, then y, then name.
pub open spec fn spec_output_lt(ax: i32, ay: i32, an: Seq<char>, bx: i32, by: i32, bn: Seq<char>) -> bool {
    ax < bx || (ax == bx && ay < by) || (ax == bx && ay == by && spec_name_lt(an, bn))
}

/// Whether output `i` of `outputs` is placed before output `j` in the layout:
/// it sorts before it, or they sort equal and `i` came first.
pub open spec fn spec_placed_before(outputs: Seq<PlacedOutput>, i: int, j: int) -> bool {
    let a = outputs[i];
    let b = outputs[j];
    spec_output_lt(a.x, a.y, a.name@, b.x, b.y, b.name@) || (a.x == b.x && a.y == b.y && a.name@
        == b.name@ && i < j)
}

proof fn lemma_placed_before_order(outputs: Seq<PlacedOutput>, i: int, j: int, k: int)
    ensures
        !spec_placed_before(outputs, i, i),
        i != j ==> spec_placed_before(outputs, i, j) || spec_placed_before(outputs, j, i),
        spec_placed_before(outputs, i, j) ==> !spec_placed_before(outputs, j, i),
        spec_placed_before(outputs, i, j) && spec_placed_before(outputs, j, k)
            ==> spec_placed_before(outputs, i, k),
{
    let a = outputs[i];
    let b = outputs[j];
    let c = outputs[k];
    lemma_name_lt_irreflexive(a.name@);
    lemma_name_lt_total(a.name@, b.name@);
    if spec_name_lt(a.name@, b.name@) && spec_name_lt(b.name@, a.name@) {
        lemma_name_lt_transitive(a.name@, b.name@, a.name@);
    }
    if spec_name_lt(a.name@, b.name@) && spec_name_lt(b.name@, c.name@) {
        lemma_name_lt_transitive(a.name@, b.name@, c.name@);
    }
}

/// Whether `name` sorts before `other`, character by character.
pub fn name_lt(name: &str, other: &str) -> (r: bool)
    ensures
        r == spec_name_lt(name@, other@),
{
    let a_len = name.unicode_len();
    let b_len = other.unicode_len();
    let mut k: usize = 0;
    while k < a_len && k < b_len
        invariant
            a_len == name@.len(),
            b_len == other@.len(),
            k <= a_len,
            k <= b_len,
            name@.take(k as int) == other@.take(k as int),
        decreases a_len - k,
    {
        let ca = name.get_char(k);
        let cb = other.get_char(k);
        if ca != cb {
            let r = (ca as u32) < (cb as u32);
            proof {
                assert(r == ((ca as int) < (cb as int)));
                if r {
                    assert(name@.take(k as int) == other@.take(k as int));
                } else {
                    assert(!spec_name_lt(name@, other@)) by {
                        if spec_name_lt(name@, other@) {
                            let j = choose|j: int|
                                #![trigger name@.take(j), other@.take(j)]
                                0 <= j <= name@.len() && j <= other@.len() && name@.take(j)
                                    == other@.take(j) && ((j < name@.len() && j < other@.len()
                                    && (name@[j] as int) < (other@[j] as int)) || (j == name@.len()
                                    && j < other@.len()));
                            if j < k {
                                assert(name@.take(k as int)[j] == other@.take(k as int)[j]);
                            } else if j > k {
                                assert(name@.take(j)[k as int] == other@.take(j)[k as int]);
                            }
                        }
                    }
                }
            }
            return r;
        }
        assert(name@.take(k as int + 1) =~= name@.take(k as int).push(ca));
        assert(other@.take(k as int + 1) =~= other@.take(k as int).push(cb));
        k = k + 1;
    }
    let r = k == a_len && k < b_len;
    proof {
        if r {
            assert(name@.take(k as int) == other@.take(k as int));
        } else {
            assert(!spec_name_lt(name@, other@)) by {
                if spec_name_lt(name@, other@) {
                    let j = choose|j: int|
                        #![trigger name@.take(j), other@.take(j)]
                        0 <= j <= name@.len() && j <= other@.len() && name@.take(j) == other@.take(j)
                            && ((j < name@.len() && j < other@.len() && (name@[j] as int)
                            < (other@[j] as int)) || (j == name@.len() && j < other@.len()));
                    if j < k {
                        assert(name@.take(k as int)[j] == other@.take(k as int)[j]);
                    }
                }
            }
        }
    }
    r
}

/// Whether output `a` sorts before output `b`: by x, then y, then name.
pub fn output_lt(a: &PlacedOutput, b: &PlacedOutput) -> (r: bool)
    ensures
        r == spec_output_lt(a.x, a.y, a.name@, b.x, b.y, b.name@),
{
    if a.x != b.x {
        return a.x < b.x;
    }
    if a.y != b.y {
        return a.y < b.y;
    }
    name_lt(a.name.as_str(), b.name.as_str())
}

/// Why outputs cannot be arranged into screens.
#[derive(Debug, Clone, Copy, PartialEq, Eq)]
pub enum LayoutError {
    /// More outputs than screen identifiers are allowed.
    TooManyScreens { count: usize },
}

/// The smallest x coordinate of the first `n` outputs (0 when there are none).
pub open spec fn spec_min_x(outputs: Seq<PlacedOutput>, n: int) -> int
    decreases n,
{
    if n <= 0 {
        0
    } else if n == 1 {
        outputs[0].x as int
    } else {
        let rest = spec_min_x(outputs, n - 1);
        if (outputs[n - 1].x as int) < rest { outputs[n - 1].x as int } else { rest }
    }
}

/// The smallest y coordinate of the first `n` outputs (0 when there are none).
pub open spec fn spec_min_y(outputs: Seq<PlacedOutput>, n: int) -> int
    decreases n,
{
    if n <= 0 {
        0
    } else if n == 1 {
        outputs[0].y as int
    } else {
        let rest = spec_min_y(outputs, n - 1);
        if (outputs[n - 1].y as int) < rest { outputs[n - 1].y as int } else { rest }
    }
}

proof fn lemma_min_bounds(outputs: Seq<PlacedOutput>, n: int)
    requires
        1 <= n <= outputs.len(),
    ensures
        forall|i: int| 0 <= i < n ==> spec_min_x(outputs, n) <= #[trigger] outputs[i].x,
        forall|i: int| 0 <= i < n ==> spec_min_y(outputs, n) <= #[trigger] outputs[i].y,
        i32::MIN <= spec_min_x(outputs, n) <= i32::MAX,
        i32::MIN <= spec_min_y(outputs, n) <= i32::MAX,
    decreases n,
{
    if n > 1 {
        lemma_min_bounds(outputs, n - 1);
    }
}

/// The rectangle of an output relative to the desktop origin (`min_x`, `min_y`).
pub open spec fn spec_normalized_rect(o: PlacedOutput, min_x: int, min_y: int) -> ScreenRect {
    ScreenRect { x: (o.x - min_x) as u32, y: (o.y - min_y) as u32, width: o.width, height: o.height }
}

/// Whether `screens` is the layout of `outputs`: one screen per output, in
/// layout order, numbered from 0, each at its output's normalized rectangle.
pub open spec fn spec_is_arrangement(outputs: Seq<PlacedOutput>, screens: Seq<ArrangedScreen>) -> bool {
    let min_x = spec_min_x(outputs, outputs.len() as int);
    let min_y = spec_min_y(outputs, outputs.len() as int);
    &&& screens.len() == outputs.len()
    &&& forall|i: int|
        0 <= i < screens.len() ==> {
            &&& (#[trigger] screens[i]).id == ScreenId(i as u8)
            &&& screens[i].source < outputs.len()
            &&& screens[i].rect == spec_normalized_rect(outputs[screens[i].source as int], min_x, min_y)
        }
    &&& forall|i: int, j: int|
        0 <= i < j < screens.len() ==> spec_placed_before(
            outputs,
            #[trigger] screens[i].source as int,
            #[trigger] screens[j].source as int,
        )
    &&& forall|k: int| 0 <= k < outputs.len() ==> #[trigger] spec_has_source(screens, k)
}

/// Whether some screen was made from output `k`.
pub open spec fn spec_has_source(screens: Seq<ArrangedScreen>, k: int) -> bool {
    exists|i: int| 0 <= i < screens.len() && #[trigger] screens[i].source == k
}

/// Whether `order` lists index `k` among its first `n` entries.
pub open spec fn spec_lists(order: Seq<usize>, n: int, k: int) -> bool {
    exists|a: int| 0 <= a < n && #[trigger] order[a] == k
}

/// Arranges outputs into screens: positions become relative to the top-left
/// corner of the desktop, screens are ordered by x, then y, then output name
/// (outputs that tie keep their order), and numbered in that order. Fails when
/// there are more than `max_screens` outputs.
pub fn arrange_screens(outputs: &[PlacedOutput], max_screens: usize) -> (r: Result<
    Vec<ArrangedScreen>,
    LayoutError,
>)
    requires
        max_screens <= 256,
    ensures
        match r {
            Ok(screens) => outputs@.len() <= max_screens && spec_is_arrangement(outputs@, screens@),
            Err(LayoutError::TooManyScreens { count }) => count == outputs@.len() && count
                > max_screens,
        },
{
    let n = outputs.len();
    if n > max_screens {
        return Err(LayoutError::TooManyScreens { count: n });
    }
    if n == 0 {
        let empty: Vec<ArrangedScreen> = Vec::new();
        return Ok(empty);
    }
    let ghost os = outputs@;
    let mut min_x: i32 = outputs[0].x;
    let mut min_y: i32 = outputs[0].y;
    let mut m: usize = 1;
    while m < n
        invariant
            1 <= m <= n,
            n == os.len(),
            os == outputs@,
            min_x == spec_min_x(os, m as int),
            min_y == spec_min_y(os, m as int),
        decreases n - m,
    {
        if outputs[m].x < min_x {
            min_x = outputs[m].x;
        }
        if outputs[m].y < min_y {
            min_y = outputs[m].y;
        }
        m = m + 1;
    }
    proof {
        lemma_min_bounds(os, n as int);
    }

    let mut order: Vec<usize> = Vec::new();
    let mut i: usize = 0;
    while i < n
        invariant
            i <= n,
            n == os.len(),
            os == outputs@,
            order@.len() == i,
            forall|a: int| 0 <= a < i ==> #[trigger] order@[a] < i,
            forall|a: int, b: int|
                0 <= a < b < i ==> spec_placed_before(os, #[trigger] order@[a] as int, #[trigger] order@[b] as int),
            forall|k: int| 0 <= k < i ==> #[trigger] spec_lists(order@, i as int, k),
        decreases n - i,
    {
        let mut pos: usize = 0;
        while pos < order.len() && !output_lt(&outputs[i], &outputs[order[pos]])
            invariant
                pos <= order@.len(),
                order@.len() == i,
                i < n,
                n == os.len(),
                os == outputs@,
                forall|a: int| 0 <= a < i ==> #[trigger] order@[a] < i,
                forall|a: int| 0 <= a < pos ==> spec_placed_before(os, #[trigger] order@[a] as int, i as int),
            decreases i - pos,
        {
            proof {
                let a = order@[pos as int] as int;
                lemma_placed_before_order(os, a, i as int, a);
                lemma_name_lt_total(os[a].name@, os[i as int].name@);
            }
            pos = pos + 1;
        }
        proof {
            assert forall|b: int| pos <= b < i implies spec_placed_before(os, i as int, #[trigger] order@[b] as int) by {
                let first = order@[pos as int] as int;
                lemma_placed_before_order(os, i as int, first, order@[b] as int);
                if b > pos {
                    assert(spec_placed_before(os, order@[pos as int] as int, order@[b] as int));
                }
            }
        }
        let ghost old_order = order@;
        order.insert(pos, i);
        proof {
            assert(order@ == old_order.insert(pos as int, i));
            assert forall|a: int, b: int|
                0 <= a < b < i + 1 implies spec_placed_before(os, #[trigger] order@[a] as int, #[trigger] order@[b] as int) by {
                if b < pos {
                    assert(order@[a] == old_order[a] && order@[b] == old_order[b]);
                } else if b == pos {
                    assert(order@[a] == old_order[a]);
                } else if a < pos {
                    assert(order@[a] == old_order[a] && order@[b] == old_order[b - 1]);
                    lemma_placed_before_order(os, old_order[a] as int, i as int, old_order[b - 1] as int);
                } else if a == pos {
                    assert(order@[b] == old_order[b - 1]);
                } else {
                    assert(order@[a] == old_order[a - 1] && order@[b] == old_order[b - 1]);
                }
            }
            assert forall|k: int| 0 <= k < i + 1 implies #[trigger] spec_lists(order@, i + 1, k) by {
                if k == i {
                    assert(order@[pos as int] == i);
                } else {
                    assert(spec_lists(old_order, i as int, k));
                    let a = choose|a: int| 0 <= a < i && #[trigger] old_order[a] == k;
                    if a < pos {
                        assert(order@[a] == k);
                    } else {
                        assert(order@[a + 1] == k);
                    }
                }
            }
        }
        i = i + 1;
    }

    let mut screens: Vec<ArrangedScreen> = Vec::new();
    let mut s: usize = 0;
    while s < n
        invariant
            s <= n,
            n == os.len(),
            n <= max_screens,
            max_screens <= 256,
            os == outputs@,
            order@.len() == n,
            min_x == spec_min_x(os, n as int),
            min_y == spec_min_y(os, n as int),
            forall|a: int| 0 <= a < n ==> #[trigger] order@[a] < n,
            forall|k: int| 0 <= k < n ==> #[trigger] spec_lists(order@, n as int, k),
            forall|a: int, b: int|
                0 <= a < b < n ==> spec_placed_before(os, #[trigger] order@[a] as int, #[trigger] order@[b] as int),
            forall|k: int| 0 <= k < n ==> min_x <= #[trigger] os[k].x,
            forall|k: int| 0 <= k < n ==> min_y <= #[trigger] os[k].y,
            screens@.len() == s,
            forall|t: int|
                0 <= t < s ==> {
                    &&& (#[trigger] screens@[t]).id == ScreenId(t as u8)
                    &&& screens@[t].source == order@[t]
                    &&& screens@[t].rect == spec_normalized_rect(os[order@[t] as int], min_x as int, min_y as int)
                },
        decreases n - s,
    {
        let o = &outputs[order[s]];
        let rect = ScreenRect {
            x: (o.x as i64 - min_x as i64) as u32,
            y: (o.y as i64 - min_y as i64) as u32,
            width: o.width,
            height: o.height,
        };
        screens.push(ArrangedScreen { id: ScreenId(s as u8), source: order[s], rect });
        s = s + 1;
    }
    proof {
        assert forall|k: int| 0 <= k < n implies #[trigger] spec_has_source(screens@, k) by {
            assert(spec_lists(order@, n as int, k));
            let a = choose|a: int| 0 <= a < n && #[trigger] order@[a] == k;
            assert(screens@[a].source == k);
        }
    }
    Ok(screens)
}

/// An output as the niri compositor reports it: its logical placement if it
/// is mapped, the index of its current mode, and the size of every mode.
#[derive(Debug, Clone)]
pub struct NiriOutputInfo {
    pub name: String,
    pub logical: Option<NiriLogicalOutput>,
    pub current_mode: Option<usize>,
    pub mode_sizes: Vec<(u16, u16)>,
}

/// The logical placement of a mapped niri output.
#[derive(Debug, Clone, Copy, PartialEq, Eq)]
pub struct NiriLogicalOutput {
    pub x: i32,
    pub y: i32,
    pub width: u32,
    pub height: u32,
    pub transform: OutputTransform,
}

/// A mapped niri output: the index of the output it came from, its placement
/// on the desktop, its mode resolution and its screen transform.
#[derive(Debug, Clone)]
pub struct MappedOutput {
    pub source: usize,
    pub placed: PlacedOutput,
    pub resolution: PixelSize,
    pub transform: ScreenTransform,
}

/// Why niri's outputs cannot become screens.
#[derive(Debug, Clone, Copy, PartialEq, Eq)]
pub enum NiriLayoutError {
    /// A mapped output has no current mode.
    MissingCurrentMode { output: usize },
    /// The current mode index of a mapped output is out of range.
    InvalidCurrentMode { output: usize, mode: usize },
}

/// The problem with output `o`, if it is mapped and its current mode is not
/// one of its modes.
pub open spec fn spec_niri_output_error(o: NiriOutputInfo, index: int) -> Option<NiriLayoutError> {
    if o.logical is None {
        None
    } else if o.current_mode is None {
        Some(NiriLayoutError::MissingCurrentMode { output: index as usize })
    } else if o.current_mode->0 >= o.mode_sizes@.len() {
        Some(NiriLayoutError::InvalidCurrentMode { output: index as usize, mode: o.current_mode->0 })
    } else {
        None
    }
}

/// The first problem among the outputs from index `from` on.
pub open spec fn spec_first_niri_error(outputs: Seq<NiriOutputInfo>, from: int) -> Option<NiriLayoutError>
    decreases outputs.len() - from,
{
    if from < 0 || from >= outputs.len() {
        None
    } else {
        match spec_niri_output_error(outputs[from], from) {
            Some(e) => Some(e),
            None => spec_first_niri_error(outputs, from + 1),
        }
    }
}

proof fn lemma_first_niri_error_skips(outputs: Seq<NiriOutputInfo>, from: int, to: int)
    requires
        0 <= from <= to <= outputs.len(),
        forall|j: int| from <= j < to ==> (#[trigger] spec_niri_output_error(outputs[j], j)) is None,
    ensures
        spec_first_niri_error(outputs, from) == spec_first_niri_error(outputs, to),
    decreases to - from,
{
    if from < to {
        lemma_first_niri_error_skips(outputs, from + 1, to);
    }
}

/// Whether `m` is the mapping of the mapped output `o`.
pub open spec fn spec_maps_output(m: MappedOutput, o: NiriOutputInfo) -> bool {
    let logical = o.logical->0;
    let mode = o.mode_sizes@[o.current_mode->0 as int];
    &&& o.logical is Some
    &&& o.current_mode is Some
    &&& o.current_mode->0 < o.mode_sizes@.len()
    &&& m.placed.name@ == o.name@
    &&& m.placed.x == logical.x
    &&& m.placed.y == logical.y
    &&& m.placed.width == logical.width
    &&& m.placed.height == logical.height
    &&& m.resolution == PixelSize { width: mode.0 as u32, height: mode.1 as u32 }
    &&& m.transform == spec_screen_transform(logical.transform)
}

/// The mapped outputs, in order: outputs without a logical placement are
/// disabled and left out; each kept output gets the size of its current mode.
pub fn niri_mapped_outputs(outputs: &[NiriOutputInfo]) -> (r: Result<Vec<MappedOutput>, NiriLayoutError>)
    ensures
        match r {
            Ok(mapped) => {
                &&& spec_first_niri_error(outputs@, 0) is None
                &&& forall|i: int|
                    0 <= i < mapped@.len() ==> {
                        let m = #[trigger] mapped@[i];
                        &&& m.source < outputs@.len()
                        &&& spec_maps_output(m, outputs@[m.source as int])
                    }
                &&& forall|i: int, j: int|
                    0 <= i < j < mapped@.len() ==> #[trigger] mapped@[i].source < #[trigger] mapped@[j].source
                &&& forall|k: int|
                    0 <= k < outputs@.len() && (#[trigger] outputs@[k]).logical is Some ==> exists|i: int|
                        0 <= i < mapped@.len() && #[trigger] mapped@[i].source == k
            },
            Err(e) => spec_first_niri_error(outputs@, 0) == Some(e),
        },
{
    let mut mapped: Vec<MappedOutput> = Vec::new();
    let mut k: usize = 0;
    while k < outputs.len()
        invariant
            k <= outputs@.len(),
            forall|j: int| 0 <= j < k ==> (#[trigger] spec_niri_output_error(outputs@[j], j)) is None,
            forall|i: int|
                0 <= i < mapped@.len() ==> {
                    let m = #[trigger] mapped@[i];
                    &&& m.source < k
                    &&& spec_maps_output(m, outputs@[m.source as int])
                },
            forall|i: int, j: int|
                0 <= i < j < mapped@.len() ==> #[trigger] mapped@[i].source < #[trigger] mapped@[j].source,
            forall|kk: int|
                0 <= kk < k && (#[trigger] outputs@[kk]).logical is Some ==> exists|i: int|
                    0 <= i < mapped@.len() && #[trigger] mapped@[i].source == kk,
        decreases outputs@.len() - k,
    {
        let o = &outputs[k];
        match o.logical {
            None => {},
            Some(logical) => {
                let mode_index = match o.current_mode {
                    Some(m) => m,
                    None => {
                        proof {
                            lemma_first_niri_error_skips(outputs@, 0, k as int);
                        }
                        return Err(NiriLayoutError::MissingCurrentMode { output: k });
                    },
                };
                if mode_index >= o.mode_sizes.len() {
                    proof {
                        lemma_first_niri_error_skips(outputs@, 0, k as int);
                    }
                    return Err(NiriLayoutError::InvalidCurrentMode { output: k, mode: mode_index });
                }
                let mode = o.mode_sizes[mode_index];
                let name = o.name.clone();
                let ghost before = mapped@;
                assert(name@ == o.name@);
                mapped.push(
                    MappedOutput {
                        source: k,
                        placed: PlacedOutput {
                            name,
                            x: logical.x,
                            y: logical.y,
                            width: logical.width,
                            height: logical.height,
                        },
                        resolution: PixelSize { width: mode.0 as u32, height: mode.1 as u32 },
                        transform: screen_transform(logical.transform),
                    },
                );
                proof {
                    assert forall|kk: int|
                        0 <= kk < k + 1 && (#[trigger] outputs@[kk]).logical is Some implies exists|i: int|
                            0 <= i < mapped@.len() && #[trigger] mapped@[i].source == kk by {
                        if kk == k {
                            assert(mapped@[before.len() as int].source == kk);
                        } else {
                            let i = choose|i: int| 0 <= i < before.len() && #[trigger] before[i].source == kk;
                            assert(mapped@[i].source == kk);
                        }
                    }
                }
            },
        }
        k = k + 1;
    }
    proof {
        lemma_first_niri_error_skips(outputs@, 0, outputs@.len() as int);
    }
    Ok(mapped)
}

/// An output as GNOME reports it over Wayland.
#[derive(Debug)]
pub struct GnomeOutputInfo {
    pub name: String,
    pub mode_width: i32,
    pub mode_height: i32,
    pub refresh_rate_millihertz: i32,
    pub logical_position: (i32, i32),
    pub logical_size: Option<(i32, i32)>,
    pub integer_scale: i32,
    /// The output transform; `None` when the compositor sent one this client
    /// does not know.
    pub transform: Option<OutputTransform>,
}

/// Why a GNOME output cannot become a screen.
#[derive(Debug, Clone, Copy, PartialEq, Eq)]
pub enum GnomeOutputError {
    InvalidModeWidth,
    InvalidModeHeight,
    ZeroSizedMode,
    InvalidRefreshRate,
    UnknownTransform,
    InvalidLogicalWidth,
    InvalidLogicalHeight,
    ZeroSizedLogicalMode,
    InvalidScale,
}

/// What a GNOME output contributes to its screen apart from the scale factor:
/// mode resolution, refresh rate, transform, the mode size after the
/// transform, and the logical size on the desktop.
#[derive(Debug, Clone, Copy, PartialEq, Eq)]
pub struct GnomeScreenGeometry {
    pub resolution: PixelSize,
    pub frame_rate: FrameRate,
    pub transform: ScreenTransform,
    pub transformed_size: (u32, u32),
    pub logical_size: (u32, u32),
}

/// `n / d` rounded up.
pub open spec fn spec_div_ceil(n: int, d: int) -> int {
    (n + d - 1) / d
}

/// The logical size of an output: the reported one when there is one, else the
/// transformed mode size divided by the integer scale, rounded up.
pub open spec fn spec_logical_size(
    logical_size: Option<(i32, i32)>,
    integer_scale: i32,
    transformed: (u32, u32),
) -> Result<(u32, u32), GnomeOutputError> {
    match logical_size {
        Some((w, h)) => if w < 0 {
            Err(GnomeOutputError::InvalidLogicalWidth)
        } else if h < 0 {
            Err(GnomeOutputError::InvalidLogicalHeight)
        } else if w == 0 || h == 0 {
            Err(GnomeOutputError::ZeroSizedLogicalMode)
        } else {
            Ok((w as u32, h as u32))
        },
        None => if integer_scale <= 0 {
            Err(GnomeOutputError::InvalidScale)
        } else {
            Ok(
                (
                    spec_div_ceil(transformed.0 as int, integer_scale as int) as u32,
                    spec_div_ceil(transformed.1 as int, integer_scale as int) as u32,
                ),
            )
        },
    }
}

/// The logical size of a GNOME output; see `spec_logical_size`.
pub fn logical_size(
    reported: Option<(i32, i32)>,
    integer_scale: i32,
    transformed: (u32, u32),
) -> (r: Result<(u32, u32), GnomeOutputError>)
    ensures
        r == spec_logical_size(reported, integer_scale, transformed),
{
    match reported {
        Some((w, h)) => {
            if w < 0 {
                return Err(GnomeOutputError::InvalidLogicalWidth);
            }
            if h < 0 {
                return Err(GnomeOutputError::InvalidLogicalHeight);
            }
            if w == 0 || h == 0 {
                return Err(GnomeOutputError::ZeroSizedLogicalMode);
            }
            Ok((w as u32, h as u32))
        },
        None => {
            if integer_scale <= 0 {
                return Err(GnomeOutputError::InvalidScale);
            }
            let scale = integer_scale as u64;
            let tw = transformed.0 as u64;
            let th = transformed.1 as u64;
            let w: u64 = (tw + scale - 1) / scale;
            let h: u64 = (th + scale - 1) / scale;
            assert(w <= tw) by (nonlinear_arith)
                requires
                    scale >= 1,
                    w as int == (tw + scale - 1) / (scale as int),
            ;
            assert(h <= th) by (nonlinear_arith)
                requires
                    scale >= 1,
                    h as int == (th + scale - 1) / (scale as int),
            ;
            Ok((w as u32, h as u32))
        },
    }
}

/// Everything about a GNOME output's screen that is checked before its scale
/// factor, in checking order.
pub open spec fn spec_gnome_output_geometry(o: GnomeOutputInfo) -> Result<GnomeScreenGeometry, GnomeOutputError> {
    if o.mode_width < 0 {
        Err(GnomeOutputError::InvalidModeWidth)
    } else if o.mode_height < 0 {
        Err(GnomeOutputError::InvalidModeHeight)
    } else if o.mode_width == 0 || o.mode_height == 0 {
        Err(GnomeOutputError::ZeroSizedMode)
    } else if o.refresh_rate_millihertz <= 0 {
        Err(GnomeOutputError::InvalidRefreshRate)
    } else if o.transform is None {
        Err(GnomeOutputError::UnknownTransform)
    } else {
        let transform = spec_screen_transform(o.transform->0);
        let mode = (o.mode_width as u32, o.mode_height as u32);
        let transformed = if spec_is_quarter_turn(transform) { (mode.1, mode.0) } else { mode };
        match spec_logical_size(o.logical_size, o.integer_scale, transformed) {
            Err(e) => Err(e),
            Ok(logical) => Ok(
                GnomeScreenGeometry {
                    resolution: PixelSize { width: mode.0, height: mode.1 },
                    frame_rate: FrameRate {
                        numerator: o.refresh_rate_millihertz as u32,
                        denominator: 1000,
                    },
                    transform,
                    transformed_size: transformed,
                    logical_size: logical,
                },
            ),
        }
    }
}

/// The resolution, refresh rate, transform and logical size of a GNOME output.
pub fn gnome_output_geometry(o: &GnomeOutputInfo) -> (r: Result<GnomeScreenGeometry, GnomeOutputError>)
    ensures
        r == spec_gnome_output_geometry(*o),
{
    if o.mode_width < 0 {
        return Err(GnomeOutputError::InvalidModeWidth);
    }
    if o.mode_height < 0 {
        return Err(GnomeOutputError::InvalidModeHeight);
    }
    let width = o.mode_width as u32;
    let height = o.mode_height as u32;
    if width == 0 || height == 0 {
        return Err(GnomeOutputError::ZeroSizedMode);
    }
    if o.refresh_rate_millihertz < 0 {
        return Err(GnomeOutputError::InvalidRefreshRate);
    }
    let frame_rate = match FrameRate::new(o.refresh_rate_millihertz as u32, 1000) {
        Some(rate) => rate,
        None => return Err(GnomeOutputError::InvalidRefreshRate),
    };
    let transform = match o.transform {
        Some(t) => screen_transform(t),
        None => return Err(GnomeOutputError::UnknownTransform),
    };
    let transformed = if is_quarter_turn(transform) { (height, width) } else { (width, height) };
    let logical = match logical_size(o.logical_size, o.integer_scale, transformed) {
        Ok(size) => size,
        Err(e) => return Err(e),
    };
    Ok(
        GnomeScreenGeometry {
            resolution: PixelSize { width, height },
            frame_rate,
            transform,
            transformed_size: transformed,
            logical_size: logical,
        },
    )
}


/// How many counter-clockwise quarter turns an output transform is, and
/// whether it mirrors.
pub open spec fn output_quarter_turns(t: OutputTransform) -> int {
    match t {
        OutputTransform::Normal | OutputTransform::Flipped => 0,
        OutputTransform::Rotate90 | OutputTransform::Flipped90 => 1,
        OutputTransform::Rotate180 | OutputTransform::Flipped180 => 2,
        OutputTransform::Rotate270 | OutputTransform::Flipped270 => 3,
    }
}

pub open spec fn output_flipped(t: OutputTransform) -> bool {
    match t {
        OutputTransform::Flipped | OutputTransform::Flipped90 | OutputTransform::Flipped180
        | OutputTransform::Flipped270 => true,
        _ => false,
    }
}

/// How many clockwise quarter turns a screen transform is, and whether it
/// mirrors.
pub open spec fn screen_quarter_turns(t: ScreenTransform) -> int {
    match t {
        ScreenTransform::Normal | ScreenTransform::Flipped => 0,
        ScreenTransform::Rotate90 | ScreenTransform::Flipped90 => 1,
        ScreenTransform::Rotate180 | ScreenTransform::Flipped180 => 2,
        ScreenTransform::Rotate270 | ScreenTransform::Flipped270 => 3,
    }
}

pub open spec fn screen_flipped(t: ScreenTransform) -> bool {
    match t {
        ScreenTransform::Flipped | ScreenTransform::Flipped90 | ScreenTransform::Flipped180
        | ScreenTransform::Flipped270 => true,
        _ => false,
    }
}

/// A screen is turned clockwise by what its output is turned counter-clockwise
/// (a quarter turn one way is three quarter turns the other, a half turn is a
/// half turn), and it mirrors exactly when the output does.
pub proof fn screen_transform_turns_the_other_way(t: OutputTransform)
    ensures
        screen_quarter_turns(spec_screen_transform(t)) == (4 - output_quarter_turns(t)) % 4,
        screen_flipped(spec_screen_transform(t)) == output_flipped(t),
{
}

/// Different output transforms give different screen transforms; in
/// particular only an untransformed output gives an untransformed screen.
pub proof fn screen_transform_is_injective(a: OutputTransform, b: OutputTransform)
    ensures
        spec_screen_transform(a) == spec_screen_transform(b) ==> a == b,
        spec_screen_transform(a) == ScreenTransform::Normal <==> a == OutputTransform::Normal,
{
}

} // verus!
