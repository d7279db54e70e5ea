//! Rectangles, and the splitting of a rectangle into strips.
//!
//! The sizes of the strips are chosen by a constraint solver that is not
//! verified. Nothing it answers is used before [`check_tiles`] has accepted
//! it: [`Layout::split`] hands out only strips that fill the area exactly.

use ratatui::layout as solver;
use vstd::prelude::*;

verus! {

/// A rectangle of terminal cells.
#[derive(Clone, Copy, Debug, PartialEq, Eq, Structural, Hash)]
pub struct Rect {
    pub x: u16,
    pub y: u16,
    pub width: u16,
    pub height: u16,
}

/// The axis along which an area is split.
#[derive(Clone, Copy, Debug, PartialEq, Eq, Structural, Hash)]
pub enum Direction {
    Horizontal,
    Vertical,
}

/// What is asked of the size of one strip.
#[derive(Clone, Copy, Debug, PartialEq, Eq, Structural, Hash)]
pub enum Constraint {
    /// Exactly this many cells.
    Length(u16),
    /// At least this many cells.
    Min(u16),
    /// This share of the area, in percent.
    Percentage(u16),
}

/// A request to split an area: the axis, the margin left free on every side,
/// and one constraint per strip.
#[derive(Debug)]
pub struct Layout {
    pub direction: Direction,
    pub margin: u16,
    pub constraints: Vec<Constraint>,
}

impl Default for Rect {
    fn default() -> (r: Rect)
        ensures
            r == Rect::zero(),
    {
        Rect { x: 0, y: 0, width: 0, height: 0 }
    }
}

impl Rect {
    /// The empty rectangle at the origin.
    pub open spec fn zero() -> Rect {
        Rect { x: 0, y: 0, width: 0, height: 0 }
    }

    /// The first column right of the rectangle.
    pub open spec fn right(self) -> int {
        self.x + self.width
    }

    /// The first row below the rectangle.
    pub open spec fn bottom(self) -> int {
        self.y + self.height
    }

    /// The number of cells.
    pub open spec fn area(self) -> int {
        self.width * self.height
    }

    /// Whether the cell in column `cx`, row `cy` lies in the rectangle.
    pub open spec fn contains(self, cx: int, cy: int) -> bool {
        self.x <= cx < self.right() && self.y <= cy < self.bottom()
    }

    /// Whether every cell of the rectangle lies in `outer`.
    pub open spec fn within(self, outer: Rect) -> bool {
        forall|cx: int, cy: int| self.contains(cx, cy) ==> outer.contains(cx, cy)
    }

    /// Whether the two rectangles share no cell.
    pub open spec fn disjoint(self, other: Rect) -> bool {
        forall|cx: int, cy: int| !(self.contains(cx, cy) && other.contains(cx, cy))
    }

    /// Where the rectangle starts along `direction`.
    pub open spec fn start(self, direction: Direction) -> int {
        match direction {
            Direction::Horizontal => self.x as int,
            Direction::Vertical => self.y as int,
        }
    }

    /// How far the rectangle extends along `direction`.
    pub open spec fn extent(self, direction: Direction) -> int {
        match direction {
            Direction::Horizontal => self.width as int,
            Direction::Vertical => self.height as int,
        }
    }

    /// Where the rectangle ends along `direction`.
    pub open spec fn end(self, direction: Direction) -> int {
        self.start(direction) + self.extent(direction)
    }

    /// Whether the two rectangles have the same position and size across
    /// `direction`.
    pub open spec fn same_across(self, direction: Direction, other: Rect) -> bool {
        match direction {
            Direction::Horizontal => self.y == other.y && self.height == other.height,
            Direction::Vertical => self.x == other.x && self.width == other.width,
        }
    }

    /// The rectangle that is left when `margin` cells are taken off every
    /// side; the empty rectangle at the origin when the margins do not fit.
    pub open spec fn inner_spec(self, margin: u16) -> Rect {
        let doubled: int = if 2 * margin > u16::MAX {
            u16::MAX as int
        } else {
            2 * margin
        };
        if self.width < doubled || self.height < doubled {
            Rect::zero()
        } else {
            Rect {
                x: if self.x + margin > u16::MAX {
                    u16::MAX
                } else {
                    (self.x + margin) as u16
                },
                y: if self.y + margin > u16::MAX {
                    u16::MAX
                } else {
                    (self.y + margin) as u16
                },
                width: (self.width - doubled) as u16,
                height: (self.height - doubled) as u16,
            }
        }
    }

    /// A rectangle from its position and size.
    pub fn new(x: u16, y: u16, width: u16, height: u16) -> (r: Rect)
        ensures
            r == (Rect { x, y, width, height }),
    {
        Rect { x, y, width, height }
    }

    /// Whether the rectangle has no cell.
    pub fn is_empty(&self) -> (r: bool)
        ensures
            r == (self.area() == 0),
    {
        assert(self.area() == 0 <==> (self.width == 0 || self.height == 0)) by (nonlinear_arith)
            requires
                self.area() == self.width * self.height,
                self.width >= 0,
                self.height >= 0,
        ;
        self.width == 0 || self.height == 0
    }

    /// The rectangle inside this one with `margin` cells left free on every
    /// side.
    pub fn inner(&self, margin: u16) -> (r: Rect)
        ensures
            r == self.inner_spec(margin),
    {
        let doubled: u16 = margin.saturating_add(margin);
        if self.width < doubled || self.height < doubled {
            Rect { x: 0, y: 0, width: 0, height: 0 }
        } else {
            Rect {
                x: self.x.saturating_add(margin),
                y: self.y.saturating_add(margin),
                width: self.width - doubled,
                height: self.height - doubled,
            }
        }
    }
}

/// Where piece `i` of `pieces` has to start: where `whole` starts for the
/// first piece, where the piece before it ends for any other. For the index
/// one past the last piece this is where the pieces end.
pub open spec fn edge(direction: Direction, pieces: Seq<Rect>, whole: Rect, i: int) -> int {
    if i <= 0 {
        whole.start(direction)
    } else {
        pieces[i - 1].end(direction)
    }
}

/// Whether piece `i` spans `whole` across `direction` and starts at its edge.
pub open spec fn fits(direction: Direction, pieces: Seq<Rect>, whole: Rect, i: int) -> bool {
    &&& pieces[i].same_across(direction, whole)
    &&& pieces[i].start(direction) == edge(direction, pieces, whole, i)
}

/// Whether `pieces`, laid end to end along `direction`, fill `whole` exactly:
/// the first starts where `whole` starts, each next one starts where the one
/// before it ends, the last ends where `whole` ends, and across `direction`
/// each spans `whole`.
pub open spec fn tiles(direction: Direction, pieces: Seq<Rect>, whole: Rect) -> bool {
    &&& forall|i: int| 0 <= i < pieces.len() ==> #[trigger] fits(direction, pieces, whole, i)
    &&& edge(direction, pieces, whole, pieces.len() as int) == whole.end(direction)
}

/// The cells of the first `k` of `pieces`, counted together.
pub open spec fn area_upto(pieces: Seq<Rect>, k: int) -> int
    decreases k,
{
    if k <= 0 {
        0
    } else {
        area_upto(pieces, k - 1) + pieces[k - 1].area()
    }
}

/// The cells of all `pieces`, counted together.
pub open spec fn total_area(pieces: Seq<Rect>) -> int {
    area_upto(pieces, pieces.len() as int)
}

/// In a tiling a later piece starts no earlier than an earlier one ends.
pub proof fn lemma_tiles_ordered(
    direction: Direction,
    pieces: Seq<Rect>,
    whole: Rect,
    i: int,
    j: int,
)
    requires
        tiles(direction, pieces, whole),
        0 <= i < j < pieces.len(),
    ensures
        pieces[i].end(direction) <= pieces[j].start(direction),
    decreases j - i,
{
    if j > i + 1 {
        lemma_tiles_ordered(direction, pieces, whole, i, j - 1);
    }
    assert(fits(direction, pieces, whole, j));
}

/// Every piece of a tiling starts and ends inside the whole.
pub proof fn lemma_tiles_bounded(direction: Direction, pieces: Seq<Rect>, whole: Rect, i: int)
    requires
        tiles(direction, pieces, whole),
        0 <= i < pieces.len(),
    ensures
        whole.start(direction) <= pieces[i].start(direction),
        pieces[i].end(direction) <= whole.end(direction),
{
    let n = pieces.len() as int;
    assert(fits(direction, pieces, whole, 0));
    if i > 0 {
        lemma_tiles_ordered(direction, pieces, whole, 0, i);
    }
    if i < n - 1 {
        lemma_tiles_ordered(direction, pieces, whole, i, n - 1);
    }
}

/// Every piece of a tiling lies within the whole.
pub proof fn lemma_tiles_within(direction: Direction, pieces: Seq<Rect>, whole: Rect, i: int)
    requires
        tiles(direction, pieces, whole),
        0 <= i < pieces.len(),
    ensures
        pieces[i].within(whole),
{
    lemma_tiles_bounded(direction, pieces, whole, i);
    assert(fits(direction, pieces, whole, i));
}

/// Two different pieces of a tiling share no cell.
pub proof fn lemma_tiles_disjoint(
    direction: Direction,
    pieces: Seq<Rect>,
    whole: Rect,
    i: int,
    j: int,
)
    requires
        tiles(direction, pieces, whole),
        0 <= i < pieces.len(),
        0 <= j < pieces.len(),
        i != j,
    ensures
        pieces[i].disjoint(pieces[j]),
{
    if i < j {
        lemma_tiles_ordered(direction, pieces, whole, i, j);
    } else {
        lemma_tiles_ordered(direction, pieces, whole, j, i);
    }
    assert(fits(direction, pieces, whole, i));
    assert(fits(direction, pieces, whole, j));
}

proof fn lemma_tiles_cover_from(
    direction: Direction,
    pieces: Seq<Rect>,
    whole: Rect,
    c: int,
    i: int,
) -> (j: int)
    requires
        tiles(direction, pieces, whole),
        0 <= i < pieces.len(),
        pieces[i].start(direction) <= c < whole.end(direction),
    ensures
        i <= j < pieces.len(),
        pieces[j].start(direction) <= c < pieces[j].end(direction),
    decreases pieces.len() - i,
{
    if c < pieces[i].end(direction) {
        i
    } else {
        assert(i + 1 < pieces.len() ==> fits(direction, pieces, whole, i + 1));
        lemma_tiles_cover_from(direction, pieces, whole, c, i + 1)
    }
}

/// Every cell of the whole lies in some piece of a tiling.
pub proof fn lemma_tiles_cover(
    direction: Direction,
    pieces: Seq<Rect>,
    whole: Rect,
    cx: int,
    cy: int,
) -> (j: int)
    requires
        tiles(direction, pieces, whole),
        whole.contains(cx, cy),
    ensures
        0 <= j < pieces.len(),
        pieces[j].contains(cx, cy),
{
    let c = match direction {
        Direction::Horizontal => cx,
        Direction::Vertical => cy,
    };
    assert(pieces.len() > 0 ==> fits(direction, pieces, whole, 0));
    let j = lemma_tiles_cover_from(direction, pieces, whole, c, 0);
    assert(fits(direction, pieces, whole, j));
    j
}

proof fn lemma_tiles_area_upto(direction: Direction, pieces: Seq<Rect>, whole: Rect, k: int)
    requires
        tiles(direction, pieces, whole),
        0 <= k <= pieces.len(),
    ensures
        direction == Direction::Horizontal ==> area_upto(pieces, k) == (edge(
            direction,
            pieces,
            whole,
            k,
        ) - whole.start(direction)) * whole.height,
        direction == Direction::Vertical ==> area_upto(pieces, k) == whole.width * (edge(
            direction,
            pieces,
            whole,
            k,
        ) - whole.start(direction)),
    decreases k,
{
    let h = whole.height as int;
    let w = whole.width as int;
    if k > 0 {
        lemma_tiles_area_upto(direction, pieces, whole, k - 1);
        assert(fits(direction, pieces, whole, k - 1));
        let before = edge(direction, pieces, whole, k - 1) - whole.start(direction);
        let piece = pieces[k - 1];
        let extent = piece.extent(direction);
        assert(edge(direction, pieces, whole, k) - whole.start(direction) == before + extent);
        assert(area_upto(pieces, k) == area_upto(pieces, k - 1) + piece.area());
        match direction {
            Direction::Horizontal => {
                assert(piece.area() == extent * h);
                assert(before * h + extent * h == (before + extent) * h) by (nonlinear_arith);
            },
            Direction::Vertical => {
                assert(piece.area() == w * extent);
                assert(w * before + w * extent == w * (before + extent)) by (nonlinear_arith);
            },
        }
    } else {
        assert(0 * h == 0) by (nonlinear_arith);
        assert(w * 0 == 0) by (nonlinear_arith);
    }
}

/// The pieces of a tiling have together as many cells as the whole.
pub proof fn lemma_tiles_area(direction: Direction, pieces: Seq<Rect>, whole: Rect)
    requires
        tiles(direction, pieces, whole),
    ensures
        total_area(pieces) == whole.area(),
{
    lemma_tiles_area_upto(direction, pieces, whole, pieces.len() as int);
}

/// Decides whether `pieces` fill `whole` along `direction`.
pub fn check_tiles(direction: Direction, pieces: &Vec<Rect>, whole: Rect) -> (ok: bool)
    ensures
        ok == tiles(direction, pieces@, whole),
{
    let (start, extent): (u16, u16) = match direction {
        Direction::Horizontal => (whole.x, whole.width),
        Direction::Vertical => (whole.y, whole.height),
    };
    let mut reached: u32 = start as u32;
    let mut i: usize = 0;
    while i < pieces.len()
        invariant
            0 <= i <= pieces.len(),
            forall|k: int| 0 <= k < i ==> #[trigger] fits(direction, pieces@, whole, k),
            reached == edge(direction, pieces@, whole, i as int),
        decreases pieces.len() - i,
    {
        let piece = pieces[i];
        let (across, piece_start, piece_extent): (bool, u16, u16) = match direction {
            Direction::Horizontal => (
                piece.y == whole.y && piece.height == whole.height,
                piece.x,
                piece.width,
            ),
            Direction::Vertical => (
                piece.x == whole.x && piece.width == whole.width,
                piece.y,
                piece.height,
            ),
        };
        if !across || piece_start as u32 != reached {
            assert(!fits(direction, pieces@, whole, i as int));
            return false;
        }
        reached = piece_start as u32 + piece_extent as u32;
        i += 1;
    }
    reached == start as u32 + extent as u32
}

/// Asks the constraint solver of `ratatui` for the strips of `area`, through
/// `ratatui::layout::Layout::split`.
///
/// Claimed of every answer, as the solver's conversion of its solution into
/// rectangles shows: there is one strip per constraint, and across the
/// direction of the split each strip has the position and size of the area
/// inside the margin. Nothing is claimed of where a strip starts or how far
/// it extends along the direction.
#[verifier::external_body]
fn solve(layout: &Layout, area: Rect) -> (pieces: Vec<Rect>)
    ensures
        pieces@.len() == layout.constraints@.len(),
        forall|i: int|
            0 <= i < pieces@.len() ==> (#[trigger] pieces@[i]).same_across(
                layout.direction,
                area.inner_spec(layout.margin),
            ),
{
    let direction = match layout.direction {
        Direction::Horizontal => solver::Direction::Horizontal,
        Direction::Vertical => solver::Direction::Vertical,
    };
    let constraints = layout.constraints.iter().map(|c| match *c {
        Constraint::Length(n) => solver::Constraint::Length(n),
        Constraint::Min(n) => solver::Constraint::Min(n),
        Constraint::Percentage(p) => solver::Constraint::Percentage(p),
    });
    let area = solver::Rect { x: area.x, y: area.y, width: area.width, height: area.height };
    let strips = solver::Layout::new(direction, constraints).margin(layout.margin).split(area);
    strips.iter().map(|r| Rect::new(r.x, r.y, r.width, r.height)).collect()
}

impl Layout {
    /// A request to split along `direction`, without margin.
    pub fn new(direction: Direction, constraints: Vec<Constraint>) -> (l: Layout)
        ensures
            l.direction == direction,
            l.margin == 0,
            l.constraints == constraints,
    {
        Layout { direction, margin: 0, constraints }
    }

    /// A request to split into rows.
    pub fn vertical(constraints: Vec<Constraint>) -> (l: Layout)
        ensures
            l.direction == Direction::Vertical,
            l.margin == 0,
            l.constraints == constraints,
    {
        Layout::new(Direction::Vertical, constraints)
    }

    /// A request to split into columns.
    pub fn horizontal(constraints: Vec<Constraint>) -> (l: Layout)
        ensures
            l.direction == Direction::Horizontal,
            l.margin == 0,
            l.constraints == constraints,
    {
        Layout::new(Direction::Horizontal, constraints)
    }

    /// The same request with `margin` cells left free on every side.
    pub fn margin(self, margin: u16) -> (l: Layout)
        ensures
            l.direction == self.direction,
            l.margin == margin,
            l.constraints == self.constraints,
    {
        Layout { direction: self.direction, margin, constraints: self.constraints }
    }

    /// Splits `area` into one strip per constraint.
    ///
    /// The sizes are the solver's. Whatever it answers, strips are handed out
    /// only if they fill the area inside the margin exactly; otherwise the
    /// result is `None`.
    ///
    /// Where no strip is asked for, the solver has nothing to decide: the
    /// empty list of strips is handed out if the area inside the margin has
    /// no extent along the direction, and nothing is handed out if it has.
    pub fn split(&self, area: Rect) -> (r: Option<Vec<Rect>>)
        ensures
            r matches Some(pieces) ==> {
                &&& pieces@.len() == self.constraints@.len()
                &&& tiles(self.direction, pieces@, area.inner_spec(self.margin))
            },
            self.constraints@.len() == 0 ==> (r is Some <==> area.inner_spec(self.margin).extent(
                self.direction,
            ) == 0),
    {
        let pieces = solve(self, area);
        accept(self.direction, pieces, area.inner(self.margin))
    }

    /// Splits `area` into one strip per constraint, and lets the strips
    /// leave room between them and behind them.
    ///
    /// The sizes are the solver's. Whatever it answers, strips are handed out
    /// only if they lie in order within the area inside the margin;
    /// otherwise the result is `None`. Where no strip is asked for, the
    /// solver has nothing to decide, and the empty list is handed out.
    pub fn split_within(&self, area: Rect) -> (r: Option<Vec<Rect>>)
        ensures
            r matches Some(pieces) ==> {
                &&& pieces@.len() == self.constraints@.len()
                &&& lined_up(self.direction, pieces@, area.inner_spec(self.margin))
            },
            self.constraints@.len() == 0 ==> r is Some,
    {
        let pieces = solve(self, area);
        accept_within(self.direction, pieces, area.inner(self.margin))
    }
}

/// Whether piece `i` spans `whole` across `direction` and starts no earlier
/// than its edge.
pub open spec fn follows(direction: Direction, pieces: Seq<Rect>, whole: Rect, i: int) -> bool {
    &&& pieces[i].same_across(direction, whole)
    &&& pieces[i].start(direction) >= edge(direction, pieces, whole, i)
}

/// Whether `pieces` lie in order within `whole` along `direction`: the
/// first starts no earlier than `whole`, each next one no earlier than the
/// one before it ends, the last ends no later than `whole`, and across
/// `direction` each spans `whole`. Room may be left between them.
pub open spec fn lined_up(direction: Direction, pieces: Seq<Rect>, whole: Rect) -> bool {
    &&& forall|i: int| 0 <= i < pieces.len() ==> #[trigger] follows(direction, pieces, whole, i)
    &&& edge(direction, pieces, whole, pieces.len() as int) <= whole.end(direction)
}

/// Pieces that fill the whole lie in order within it.
pub proof fn lemma_tiles_lined_up(direction: Direction, pieces: Seq<Rect>, whole: Rect)
    requires
        tiles(direction, pieces, whole),
    ensures
        lined_up(direction, pieces, whole),
{
    assert forall|i: int| 0 <= i < pieces.len() implies #[trigger] follows(
        direction,
        pieces,
        whole,
        i,
    ) by {
        assert(fits(direction, pieces, whole, i));
    }
}

/// Of pieces that lie in order a later one starts no earlier than an
/// earlier one ends.
pub proof fn lemma_lined_up_ordered(
    direction: Direction,
    pieces: Seq<Rect>,
    whole: Rect,
    i: int,
    j: int,
)
    requires
        lined_up(direction, pieces, whole),
        0 <= i < j < pieces.len(),
    ensures
        pieces[i].end(direction) <= pieces[j].start(direction),
    decreases j - i,
{
    if j > i + 1 {
        lemma_lined_up_ordered(direction, pieces, whole, i, j - 1);
    }
    assert(follows(direction, pieces, whole, j));
}

/// Every piece of pieces that lie in order lies within the whole.
pub proof fn lemma_lined_up_within(direction: Direction, pieces: Seq<Rect>, whole: Rect, i: int)
    requires
        lined_up(direction, pieces, whole),
        0 <= i < pieces.len(),
    ensures
        pieces[i].within(whole),
{
    let n = pieces.len() as int;
    assert(follows(direction, pieces, whole, 0));
    assert(follows(direction, pieces, whole, i));
    if i > 0 {
        lemma_lined_up_ordered(direction, pieces, whole, 0, i);
    }
    if i < n - 1 {
        lemma_lined_up_ordered(direction, pieces, whole, i, n - 1);
    }
}

/// Two different pieces of pieces that lie in order share no cell.
pub proof fn lemma_lined_up_disjoint(
    direction: Direction,
    pieces: Seq<Rect>,
    whole: Rect,
    i: int,
    j: int,
)
    requires
        lined_up(direction, pieces, whole),
        0 <= i < pieces.len(),
        0 <= j < pieces.len(),
        i != j,
    ensures
        pieces[i].disjoint(pieces[j]),
{
    if i < j {
        lemma_lined_up_ordered(direction, pieces, whole, i, j);
    } else {
        lemma_lined_up_ordered(direction, pieces, whole, j, i);
    }
    assert(follows(direction, pieces, whole, i));
    assert(follows(direction, pieces, whole, j));
}

/// Decides whether `pieces` lie in order within `whole` along `direction`.
pub fn check_lined_up(direction: Direction, pieces: &Vec<Rect>, whole: Rect) -> (ok: bool)
    ensures
        ok == lined_up(direction, pieces@, whole),
{
    let (start, extent): (u16, u16) = match direction {
        Direction::Horizontal => (whole.x, whole.width),
        Direction::Vertical => (whole.y, whole.height),
    };
    let mut reached: u32 = start as u32;
    let mut i: usize = 0;
    while i < pieces.len()
        invariant
            0 <= i <= pieces.len(),
            forall|k: int| 0 <= k < i ==> #[trigger] follows(direction, pieces@, whole, k),
            reached == edge(direction, pieces@, whole, i as int),
        decreases pieces.len() - i,
    {
        let piece = pieces[i];
        let (across, piece_start, piece_extent): (bool, u16, u16) = match direction {
            Direction::Horizontal => (
                piece.y == whole.y && piece.height == whole.height,
                piece.x,
                piece.width,
            ),
            Direction::Vertical => (
                piece.x == whole.x && piece.width == whole.width,
                piece.y,
                piece.height,
            ),
        };
        if !across || (piece_start as u32) < reached {
            assert(!follows(direction, pieces@, whole, i as int));
            return false;
        }
        reached = piece_start as u32 + piece_extent as u32;
        i += 1;
    }
    reached <= start as u32 + extent as u32
}

/// Hands `pieces` on if and only if they lie in order within `whole` along
/// `direction`.
pub fn accept_within(direction: Direction, pieces: Vec<Rect>, whole: Rect) -> (r: Option<
    Vec<Rect>,
>)
    ensures
        match r {
            Some(accepted) => accepted == pieces && lined_up(direction, pieces@, whole),
            None => !lined_up(direction, pieces@, whole),
        },
{
    if check_lined_up(direction, &pieces, whole) {
        Some(pieces)
    } else {
        None
    }
}

/// Hands `pieces` on if and only if they fill `whole` along `direction`.
pub fn accept(direction: Direction, pieces: Vec<Rect>, whole: Rect) -> (r: Option<Vec<Rect>>)
    ensures
        match r {
            Some(accepted) => accepted == pieces && tiles(direction, pieces@, whole),
            None => !tiles(direction, pieces@, whole),
        },
{
    if check_tiles(direction, &pieces, whole) {
        Some(pieces)
    } else {
        None
    }
}

} // verus!
