//! The partition of the terminal frame into the regions of the screen.
//!
//! The frame, less a margin, is split into a header row, a body and a footer
//! row. The body is split into a navigation column and a content column, and
//! the content column into an auxiliary slot, a primary slot and a slot for
//! the dialog, one above the other. The auxiliary slot and the dialog's have
//! rows only while their panels are shown. Each of the six slots belongs to
//! one component.
//!
//! The sizes are asked of the constraint solver ([`propose`]). Its answer is
//! taken where it is a valid assignment for the frame; where it is not, the
//! regions are computed directly from the frame's size ([`canonical`]). So
//! [`arrange`] gives a valid assignment for every size, whatever the solver
//! answers. The [`LayoutEngine`] keeps the assignment of the current frame
//! and asks again only when the size of the terminal or the visibility of a
//! panel has changed.

use crate::layout::{
    check_tiles, fits, lemma_tiles_area, lemma_tiles_cover, lemma_tiles_disjoint,
    lemma_tiles_within, tiles, total_area, Constraint, Direction, Layout, Rect,
};
use vstd::prelude::*;

verus! {

/// Cells left free on every side of the frame.
pub const MARGIN: u16 = 1;

/// Rows of the header.
pub const HEADER_HEIGHT: u16 = 1;

/// Rows of the footer.
pub const FOOTER_HEIGHT: u16 = 1;

/// Rows that the body asks for at least.
pub const BODY_MIN_HEIGHT: u16 = 10;

/// The navigation column's share of the body's width, in percent.
pub const NAVIGATION_SHARE: u16 = 30;

/// Rows of the auxiliary slot while its panel is shown.
pub const AUXILIARY_HEIGHT: u16 = 3;

/// Rows of the dialog's slot while the dialog is shown.
pub const DIALOG_HEIGHT: u16 = 6;

/// Rows that the primary slot asks for at least.
pub const PRIMARY_MIN_HEIGHT: u16 = 1;

/// The least usable height at which header, body and footer all get the
/// rows they ask for.
pub const SUPPORTED_HEIGHT: u16 = 12;

/// A place on the screen that a component can occupy.
#[derive(Clone, Copy, Debug, PartialEq, Eq, Structural, Hash)]
pub enum Slot {
    Header,
    Navigation,
    Auxiliary,
    Primary,
    Dialog,
    Footer,
}

/// The regions of one frame.
///
/// `body` and `content` are the intermediate regions; the six others are
/// the slots that components draw into.
#[derive(Clone, Copy, Debug, PartialEq, Eq, Structural, Hash)]
pub struct LayoutAssignment {
    pub header: Rect,
    pub body: Rect,
    pub navigation: Rect,
    pub content: Rect,
    pub auxiliary: Rect,
    pub primary: Rect,
    pub dialog: Rect,
    pub footer: Rect,
}

/// The frame of a terminal of the given size, at the origin.
pub open spec fn frame(width: u16, height: u16) -> Rect {
    Rect { x: 0, y: 0, width, height }
}

/// The part of the frame inside the margin.
pub open spec fn usable(width: u16, height: u16) -> Rect {
    frame(width, height).inner_spec(MARGIN)
}

/// The rows that a panel asks for: all of them while it is shown, none
/// while it is hidden.
pub open spec fn wanted(visible: bool, rows: u16) -> u16 {
    if visible {
        rows
    } else {
        0
    }
}

/// What is asked of the solver for the rows of the frame: a header of one
/// row, a body of ten rows or more, a footer of one row, inside the margin.
pub open spec fn rows_asked() -> Seq<Constraint> {
    seq![
        Constraint::Length(HEADER_HEIGHT),
        Constraint::Min(BODY_MIN_HEIGHT),
        Constraint::Length(FOOTER_HEIGHT),
    ]
}

/// What is asked of the solver for the columns of the body: thirty parts in
/// a hundred for the navigation, seventy for the content.
pub open spec fn columns_asked() -> Seq<Constraint> {
    seq![
        Constraint::Percentage(NAVIGATION_SHARE),
        Constraint::Percentage((100 - NAVIGATION_SHARE) as u16),
    ]
}

/// What is asked of the solver for the rows of the content column: the rows
/// of the auxiliary panel, one row or more for the primary slot, the rows
/// of the dialog.
pub open spec fn stack_asked(aux_visible: bool, dialog_visible: bool) -> Seq<Constraint> {
    seq![
        Constraint::Length(wanted(aux_visible, AUXILIARY_HEIGHT)),
        Constraint::Min(PRIMARY_MIN_HEIGHT),
        Constraint::Length(wanted(dialog_visible, DIALOG_HEIGHT)),
    ]
}

/// The request for the rows of the frame.
pub fn rows_request() -> (l: Layout)
    ensures
        l.direction == Direction::Vertical,
        l.margin == MARGIN,
        l.constraints@ == rows_asked(),
{
    let constraints = vec![
        Constraint::Length(HEADER_HEIGHT),
        Constraint::Min(BODY_MIN_HEIGHT),
        Constraint::Length(FOOTER_HEIGHT),
    ];
    assert(constraints@ =~= rows_asked());
    Layout::vertical(constraints).margin(MARGIN)
}

/// The request for the columns of the body.
pub fn columns_request() -> (l: Layout)
    ensures
        l.direction == Direction::Horizontal,
        l.margin == 0,
        l.constraints@ == columns_asked(),
{
    let content_share: u16 = 100 - NAVIGATION_SHARE;
    let constraints = vec![
        Constraint::Percentage(NAVIGATION_SHARE),
        Constraint::Percentage(content_share),
    ];
    assert(constraints@ =~= columns_asked());
    Layout::horizontal(constraints)
}

/// The request for the rows of the content column.
pub fn stack_request(aux_visible: bool, dialog_visible: bool) -> (l: Layout)
    ensures
        l.direction == Direction::Vertical,
        l.margin == 0,
        l.constraints@ == stack_asked(aux_visible, dialog_visible),
{
    let aux_rows: u16 = if aux_visible {
        AUXILIARY_HEIGHT
    } else {
        0
    };
    let dialog_rows: u16 = if dialog_visible {
        DIALOG_HEIGHT
    } else {
        0
    };
    let constraints = vec![
        Constraint::Length(aux_rows),
        Constraint::Min(PRIMARY_MIN_HEIGHT),
        Constraint::Length(dialog_rows),
    ];
    assert(constraints@ =~= stack_asked(aux_visible, dialog_visible));
    Layout::vertical(constraints)
}

impl LayoutAssignment {
    /// The region of a slot.
    pub open spec fn region_spec(self, slot: Slot) -> Rect {
        match slot {
            Slot::Header => self.header,
            Slot::Navigation => self.navigation,
            Slot::Auxiliary => self.auxiliary,
            Slot::Primary => self.primary,
            Slot::Dialog => self.dialog,
            Slot::Footer => self.footer,
        }
    }

    /// Whether the regions are laid out as the screen is built: header, body
    /// and footer are rows that fill `whole`; navigation and content are
    /// columns that fill the body; the auxiliary slot, the primary slot and
    /// the dialog's slot are rows that fill the content column.
    pub open spec fn fills(self, whole: Rect) -> bool {
        &&& tiles(Direction::Vertical, seq![self.header, self.body, self.footer], whole)
        &&& tiles(Direction::Horizontal, seq![self.navigation, self.content], self.body)
        &&& tiles(
            Direction::Vertical,
            seq![self.auxiliary, self.primary, self.dialog],
            self.content,
        )
    }

    /// Whether the assignment is a valid one for `whole`: the regions are
    /// laid out as the screen is built, a hidden panel has no row, and where
    /// `whole` is high enough, header and footer have their fixed height.
    pub open spec fn meets(self, whole: Rect, aux_visible: bool, dialog_visible: bool) -> bool {
        &&& self.fills(whole)
        &&& !aux_visible ==> self.auxiliary.height == 0
        &&& !dialog_visible ==> self.dialog.height == 0
        &&& whole.height >= SUPPORTED_HEIGHT ==> self.header.height == HEADER_HEIGHT
            && self.footer.height == FOOTER_HEIGHT
    }

    /// Whether the six slots partition `whole`: each lies within it, no two
    /// share a cell, every cell of `whole` lies in one of them, and together
    /// they have as many cells as `whole`.
    pub open spec fn partitions(self, whole: Rect) -> bool {
        &&& forall|s: Slot| (#[trigger] self.region_spec(s)).within(whole)
        &&& forall|s: Slot, t: Slot|
            s != t ==> (#[trigger] self.region_spec(s)).disjoint(#[trigger] self.region_spec(t))
        &&& forall|cx: int, cy: int|
            whole.contains(cx, cy) ==> exists|s: Slot|
                (#[trigger] self.region_spec(s)).contains(cx, cy)
        &&& self.header.area() + self.navigation.area() + self.auxiliary.area()
            + self.primary.area() + self.dialog.area() + self.footer.area() == whole.area()
    }

    /// The region of a slot.
    pub fn region(&self, slot: Slot) -> (r: Rect)
        ensures
            r == self.region_spec(slot),
    {
        match slot {
            Slot::Header => self.header,
            Slot::Navigation => self.navigation,
            Slot::Auxiliary => self.auxiliary,
            Slot::Primary => self.primary,
            Slot::Dialog => self.dialog,
            Slot::Footer => self.footer,
        }
    }

    /// Decides whether the assignment is a valid one for `whole`.
    pub fn check(&self, whole: Rect, aux_visible: bool, dialog_visible: bool) -> (ok: bool)
        ensures
            ok == self.meets(whole, aux_visible, dialog_visible),
    {
        let rows = vec![self.header, self.body, self.footer];
        let columns = vec![self.navigation, self.content];
        let stack = vec![self.auxiliary, self.primary, self.dialog];
        assert(rows@ =~= seq![self.header, self.body, self.footer]);
        assert(columns@ =~= seq![self.navigation, self.content]);
        assert(stack@ =~= seq![self.auxiliary, self.primary, self.dialog]);
        check_tiles(Direction::Vertical, &rows, whole) && check_tiles(
            Direction::Horizontal,
            &columns,
            self.body,
        ) && check_tiles(Direction::Vertical, &stack, self.content) && (aux_visible
            || self.auxiliary.height == 0) && (dialog_visible || self.dialog.height == 0) && (
        whole.height < SUPPORTED_HEIGHT || (self.header.height == HEADER_HEIGHT
            && self.footer.height == FOOTER_HEIGHT))
    }
}

/// Regions that are laid out as the screen is built partition the whole.
pub proof fn lemma_fills_partitions(l: LayoutAssignment, whole: Rect)
    requires
        l.fills(whole),
    ensures
        l.partitions(whole),
{
    let v = Direction::Vertical;
    let h = Direction::Horizontal;
    let rows = seq![l.header, l.body, l.footer];
    let columns = seq![l.navigation, l.content];
    let stack = seq![l.auxiliary, l.primary, l.dialog];
    lemma_tiles_within(v, rows, whole, 0);
    lemma_tiles_within(v, rows, whole, 1);
    lemma_tiles_within(v, rows, whole, 2);
    lemma_tiles_within(h, columns, l.body, 0);
    lemma_tiles_within(h, columns, l.body, 1);
    lemma_tiles_within(v, stack, l.content, 0);
    lemma_tiles_within(v, stack, l.content, 1);
    lemma_tiles_within(v, stack, l.content, 2);
    assert forall|s: Slot| (#[trigger] l.region_spec(s)).within(whole) by {
        let r = l.region_spec(s);
        assert forall|cx: int, cy: int| r.contains(cx, cy) implies whole.contains(cx, cy) by {
            match s {
                Slot::Header | Slot::Footer => {},
                Slot::Navigation => {
                    assert(l.body.contains(cx, cy));
                },
                Slot::Auxiliary | Slot::Primary | Slot::Dialog => {
                    assert(l.content.contains(cx, cy));
                    assert(l.body.contains(cx, cy));
                },
            }
        }
    }
    assert forall|s: Slot, t: Slot| s != t implies (#[trigger] l.region_spec(s)).disjoint(
        #[trigger] l.region_spec(t),
    ) by {
        let a = l.region_spec(s);
        let b = l.region_spec(t);
        assert forall|cx: int, cy: int| !(a.contains(cx, cy) && b.contains(cx, cy)) by {
            if a.contains(cx, cy) && b.contains(cx, cy) {
                lemma_in_one_slot(l, whole, s, cx, cy);
                lemma_in_one_slot(l, whole, t, cx, cy);
            }
        }
    }
    assert forall|cx: int, cy: int| whole.contains(cx, cy) implies exists|s: Slot|
        (#[trigger] l.region_spec(s)).contains(cx, cy) by {
        let i = lemma_tiles_cover(v, rows, whole, cx, cy);
        if i == 0 {
            assert(l.region_spec(Slot::Header).contains(cx, cy));
        } else if i == 2 {
            assert(l.region_spec(Slot::Footer).contains(cx, cy));
        } else {
            let j = lemma_tiles_cover(h, columns, l.body, cx, cy);
            if j == 0 {
                assert(l.region_spec(Slot::Navigation).contains(cx, cy));
            } else {
                let k = lemma_tiles_cover(v, stack, l.content, cx, cy);
                if k == 0 {
                    assert(l.region_spec(Slot::Auxiliary).contains(cx, cy));
                } else if k == 1 {
                    assert(l.region_spec(Slot::Primary).contains(cx, cy));
                } else {
                    assert(l.region_spec(Slot::Dialog).contains(cx, cy));
                }
            }
        }
    }
    lemma_tiles_area(v, rows, whole);
    lemma_tiles_area(h, columns, l.body);
    lemma_tiles_area(v, stack, l.content);
    reveal_with_fuel(crate::layout::area_upto, 4);
    assert(total_area(rows) == l.header.area() + l.body.area() + l.footer.area());
    assert(total_area(columns) == l.navigation.area() + l.content.area());
    assert(total_area(stack) == l.auxiliary.area() + l.primary.area() + l.dialog.area());
}

/// A cell of a slot's region lies in the regions that enclose the slot and
/// in none beside them.
proof fn lemma_in_one_slot(l: LayoutAssignment, whole: Rect, s: Slot, cx: int, cy: int)
    requires
        l.fills(whole),
        l.region_spec(s).contains(cx, cy),
    ensures
        l.header.contains(cx, cy) <==> s == Slot::Header,
        l.footer.contains(cx, cy) <==> s == Slot::Footer,
        l.navigation.contains(cx, cy) <==> s == Slot::Navigation,
        l.auxiliary.contains(cx, cy) <==> s == Slot::Auxiliary,
        l.primary.contains(cx, cy) <==> s == Slot::Primary,
        l.dialog.contains(cx, cy) <==> s == Slot::Dialog,
{
    let v = Direction::Vertical;
    let h = Direction::Horizontal;
    let rows = seq![l.header, l.body, l.footer];
    let columns = seq![l.navigation, l.content];
    let stack = seq![l.auxiliary, l.primary, l.dialog];
    lemma_tiles_within(h, columns, l.body, 0);
    lemma_tiles_within(h, columns, l.body, 1);
    lemma_tiles_within(v, stack, l.content, 0);
    lemma_tiles_within(v, stack, l.content, 1);
    lemma_tiles_within(v, stack, l.content, 2);
    lemma_tiles_disjoint(v, rows, whole, 0, 1);
    lemma_tiles_disjoint(v, rows, whole, 0, 2);
    lemma_tiles_disjoint(v, rows, whole, 1, 2);
    lemma_tiles_disjoint(h, columns, l.body, 0, 1);
    lemma_tiles_disjoint(v, stack, l.content, 0, 1);
    lemma_tiles_disjoint(v, stack, l.content, 0, 2);
    lemma_tiles_disjoint(v, stack, l.content, 1, 2);
    if l.navigation.contains(cx, cy) {
        assert(l.body.contains(cx, cy));
    }
    if l.auxiliary.contains(cx, cy) || l.primary.contains(cx, cy) || l.dialog.contains(cx, cy) {
        assert(l.content.contains(cx, cy));
        assert(l.body.contains(cx, cy));
    }
}

/// The assignment that is used where the solver offers none that is valid:
/// rows and columns computed directly from the size of `whole`.
///
/// The body takes up to [`BODY_MIN_HEIGHT`] rows before header and footer
/// take theirs; the primary slot takes its row before the auxiliary slot,
/// and the auxiliary slot its rows before the dialog.
pub open spec fn canonical_spec(whole: Rect, aux_visible: bool, dialog_visible: bool) -> LayoutAssignment {
    let spare: int = if whole.height > BODY_MIN_HEIGHT {
        whole.height - BODY_MIN_HEIGHT
    } else {
        0
    };
    let header_h: int = if spare >= 1 {
        1
    } else {
        0
    };
    let footer_h: int = if spare >= 2 {
        1
    } else {
        0
    };
    let body_h: int = whole.height - header_h - footer_h;
    let nav_w: int = (whole.width * NAVIGATION_SHARE + 50) / 100;
    let free: int = if body_h >= PRIMARY_MIN_HEIGHT {
        body_h - PRIMARY_MIN_HEIGHT
    } else {
        0
    };
    let aux_h: int = if wanted(aux_visible, AUXILIARY_HEIGHT) <= free {
        wanted(aux_visible, AUXILIARY_HEIGHT) as int
    } else {
        free
    };
    let dialog_h: int = if wanted(dialog_visible, DIALOG_HEIGHT) <= free - aux_h {
        wanted(dialog_visible, DIALOG_HEIGHT) as int
    } else {
        free - aux_h
    };
    let primary_h: int = body_h - aux_h - dialog_h;
    let body_y: int = whole.y + header_h;
    let content_x: int = whole.x + nav_w;
    let content_w: int = whole.width - nav_w;
    LayoutAssignment {
        header: Rect { x: whole.x, y: whole.y, width: whole.width, height: header_h as u16 },
        body: Rect { x: whole.x, y: body_y as u16, width: whole.width, height: body_h as u16 },
        navigation: Rect { x: whole.x, y: body_y as u16, width: nav_w as u16, height: body_h as u16 },
        content: Rect {
            x: content_x as u16,
            y: body_y as u16,
            width: content_w as u16,
            height: body_h as u16,
        },
        auxiliary: Rect {
            x: content_x as u16,
            y: body_y as u16,
            width: content_w as u16,
            height: aux_h as u16,
        },
        primary: Rect {
            x: content_x as u16,
            y: (body_y + aux_h) as u16,
            width: content_w as u16,
            height: primary_h as u16,
        },
        dialog: Rect {
            x: content_x as u16,
            y: (body_y + aux_h + primary_h) as u16,
            width: content_w as u16,
            height: dialog_h as u16,
        },
        footer: Rect {
            x: whole.x,
            y: (body_y + body_h) as u16,
            width: whole.width,
            height: footer_h as u16,
        },
    }
}

/// The directly computed assignment is a valid one.
pub proof fn lemma_canonical_meets(whole: Rect, aux_visible: bool, dialog_visible: bool)
    requires
        whole.right() <= u16::MAX,
        whole.bottom() <= u16::MAX,
    ensures
        canonical_spec(whole, aux_visible, dialog_visible).meets(
            whole,
            aux_visible,
            dialog_visible,
        ),
{
    let l = canonical_spec(whole, aux_visible, dialog_visible);
    let v = Direction::Vertical;
    let h = Direction::Horizontal;
    let rows = seq![l.header, l.body, l.footer];
    let columns = seq![l.navigation, l.content];
    let stack = seq![l.auxiliary, l.primary, l.dialog];
    assert forall|i: int| 0 <= i < rows.len() implies #[trigger] fits(v, rows, whole, i) by {
        if i == 0 {
        } else if i == 1 {
        } else {
        }
    }
    assert forall|i: int| 0 <= i < columns.len() implies #[trigger] fits(h, columns, l.body, i) by {
        if i == 0 {
        } else {
        }
    }
    assert forall|i: int| 0 <= i < stack.len() implies #[trigger] fits(v, stack, l.content, i) by {
        if i == 0 {
        } else if i == 1 {
        } else {
        }
    }
}

/// Computes the assignment that is used where the solver offers none that
/// is valid.
pub fn canonical(whole: Rect, aux_visible: bool, dialog_visible: bool) -> (l: LayoutAssignment)
    requires
        whole.right() <= u16::MAX,
        whole.bottom() <= u16::MAX,
    ensures
        l == canonical_spec(whole, aux_visible, dialog_visible),
        l.meets(whole, aux_visible, dialog_visible),
{
    let spare: u16 = if whole.height > BODY_MIN_HEIGHT {
        whole.height - BODY_MIN_HEIGHT
    } else {
        0
    };
    let header_h: u16 = if spare >= 1 {
        1
    } else {
        0
    };
    let footer_h: u16 = if spare >= 2 {
        1
    } else {
        0
    };
    let body_h: u16 = whole.height - header_h - footer_h;
    assert(NAVIGATION_SHARE == 30);
    let scaled: u32 = (whole.width as u32 * 30 + 50) / 100;
    assert(scaled <= whole.width);
    let nav_w: u16 = scaled as u16;
    let free: u16 = if body_h >= PRIMARY_MIN_HEIGHT {
        body_h - PRIMARY_MIN_HEIGHT
    } else {
        0
    };
    let aux_want: u16 = if aux_visible {
        AUXILIARY_HEIGHT
    } else {
        0
    };
    let dialog_want: u16 = if dialog_visible {
        DIALOG_HEIGHT
    } else {
        0
    };
    let aux_h: u16 = if aux_want <= free {
        aux_want
    } else {
        free
    };
    let dialog_h: u16 = if dialog_want <= free - aux_h {
        dialog_want
    } else {
        free - aux_h
    };
    let primary_h: u16 = body_h - aux_h - dialog_h;
    let body_y: u16 = whole.y + header_h;
    let content_x: u16 = whole.x + nav_w;
    let content_w: u16 = whole.width - nav_w;
    proof {
        lemma_canonical_meets(whole, aux_visible, dialog_visible);
    }
    LayoutAssignment {
        header: Rect { x: whole.x, y: whole.y, width: whole.width, height: header_h },
        body: Rect { x: whole.x, y: body_y, width: whole.width, height: body_h },
        navigation: Rect { x: whole.x, y: body_y, width: nav_w, height: body_h },
        content: Rect { x: content_x, y: body_y, width: content_w, height: body_h },
        auxiliary: Rect { x: content_x, y: body_y, width: content_w, height: aux_h },
        primary: Rect { x: content_x, y: body_y + aux_h, width: content_w, height: primary_h },
        dialog: Rect {
            x: content_x,
            y: body_y + aux_h + primary_h,
            width: content_w,
            height: dialog_h,
        },
        footer: Rect { x: whole.x, y: body_y + body_h, width: whole.width, height: footer_h },
    }
}

/// Asks the solver for the regions of `frame`: for its rows by
/// [`rows_request`], for the columns of the body by [`columns_request`],
/// for the rows of the content column by [`stack_request`].
///
/// Whatever the solver answers, an assignment is returned only if each of
/// the three splits filled its area, so that the regions are laid out as the
/// screen is built.
pub fn propose(frame: Rect, aux_visible: bool, dialog_visible: bool) -> (r: Option<
    LayoutAssignment,
>)
    ensures
        r matches Some(l) ==> l.fills(frame.inner_spec(MARGIN)),
{
    let rows = match rows_request().split(frame) {
        Some(rows) => rows,
        None => {
            return None;
        },
    };
    let body = rows[1];
    let columns = match columns_request().split(body) {
        Some(columns) => columns,
        None => {
            return None;
        },
    };
    let content = columns[1];
    let stack = match stack_request(aux_visible, dialog_visible).split(content) {
        Some(stack) => stack,
        None => {
            return None;
        },
    };
    let l = LayoutAssignment {
        header: rows[0],
        body,
        navigation: columns[0],
        content,
        auxiliary: stack[0],
        primary: stack[1],
        dialog: stack[2],
        footer: rows[2],
    };
    proof {
        assert(body.inner_spec(0) == body);
        assert(content.inner_spec(0) == content);
        assert(rows@ =~= seq![l.header, l.body, l.footer]);
        assert(columns@ =~= seq![l.navigation, l.content]);
        assert(stack@ =~= seq![l.auxiliary, l.primary, l.dialog]);
    }
    Some(l)
}

/// The assignment for `whole`, given what the solver proposed: the proposal
/// where it is a valid assignment, the directly computed one otherwise.
pub open spec fn settle_spec(
    proposal: Option<LayoutAssignment>,
    whole: Rect,
    aux_visible: bool,
    dialog_visible: bool,
) -> LayoutAssignment {
    match proposal {
        Some(l) if l.meets(whole, aux_visible, dialog_visible) => l,
        _ => canonical_spec(whole, aux_visible, dialog_visible),
    }
}

/// Chooses between the solver's proposal and the directly computed
/// assignment.
pub fn settle(
    proposal: Option<LayoutAssignment>,
    whole: Rect,
    aux_visible: bool,
    dialog_visible: bool,
) -> (l: LayoutAssignment)
    requires
        whole.right() <= u16::MAX,
        whole.bottom() <= u16::MAX,
    ensures
        l == settle_spec(proposal, whole, aux_visible, dialog_visible),
        l.meets(whole, aux_visible, dialog_visible),
{
    match proposal {
        Some(l) => {
            if l.check(whole, aux_visible, dialog_visible) {
                l
            } else {
                canonical(whole, aux_visible, dialog_visible)
            }
        },
        None => canonical(whole, aux_visible, dialog_visible),
    }
}

/// The regions of a terminal of the given size.
///
/// For every size the result is a valid assignment for the usable part of
/// the frame, and its six slots partition that part.
pub fn arrange(width: u16, height: u16, aux_visible: bool, dialog_visible: bool) -> (l:
    LayoutAssignment)
    ensures
        l.meets(usable(width, height), aux_visible, dialog_visible),
        l.partitions(usable(width, height)),
{
    let frame = Rect { x: 0, y: 0, width, height };
    let whole = frame.inner(MARGIN);
    let proposal = propose(frame, aux_visible, dialog_visible);
    let l = settle(proposal, whole, aux_visible, dialog_visible);
    proof {
        lemma_fills_partitions(l, whole);
    }
    l
}

/// The layout of the current frame, kept until the terminal's size or the
/// visibility of a panel changes.
pub struct LayoutEngine {
    width: u16,
    height: u16,
    aux_visible: bool,
    dialog_visible: bool,
    assignment: LayoutAssignment,
}

impl LayoutEngine {
    #[verifier::type_invariant]
    spec fn valid(self) -> bool {
        self.assignment.meets(
            usable(self.width, self.height),
            self.aux_visible,
            self.dialog_visible,
        )
    }

    /// The terminal's width that the layout was computed for.
    pub closed spec fn spec_width(&self) -> u16 {
        self.width
    }

    /// The terminal's height that the layout was computed for.
    pub closed spec fn spec_height(&self) -> u16 {
        self.height
    }

    /// The visibility of the auxiliary panel that the layout was computed
    /// for.
    pub closed spec fn spec_aux_visible(&self) -> bool {
        self.aux_visible
    }

    /// The visibility of the dialog that the layout was computed for.
    pub closed spec fn spec_dialog_visible(&self) -> bool {
        self.dialog_visible
    }

    /// The regions of the current frame.
    pub closed spec fn spec_assignment(&self) -> LayoutAssignment {
        self.assignment
    }

    /// Whether the layout was computed for this size and visibility.
    pub open spec fn covers(
        &self,
        width: u16,
        height: u16,
        aux_visible: bool,
        dialog_visible: bool,
    ) -> bool {
        &&& self.spec_width() == width
        &&& self.spec_height() == height
        &&& self.spec_aux_visible() == aux_visible
        &&& self.spec_dialog_visible() == dialog_visible
    }

    /// Whether the two layouts were computed for the same size and
    /// visibility.
    pub open spec fn same_key(&self, other: LayoutEngine) -> bool {
        self.covers(
            other.spec_width(),
            other.spec_height(),
            other.spec_aux_visible(),
            other.spec_dialog_visible(),
        )
    }

    /// Whether `l` is the layout's assignment, and as such a valid
    /// assignment for the size and visibility of the layout, whose slots
    /// partition the usable part of the frame.
    pub open spec fn holds(&self, l: LayoutAssignment) -> bool {
        &&& l == self.spec_assignment()
        &&& l.meets(
            usable(self.spec_width(), self.spec_height()),
            self.spec_aux_visible(),
            self.spec_dialog_visible(),
        )
        &&& l.partitions(usable(self.spec_width(), self.spec_height()))
    }

    /// The layout of a terminal of the given size.
    pub fn new(width: u16, height: u16, aux_visible: bool, dialog_visible: bool) -> (e:
        LayoutEngine)
        ensures
            e.covers(width, height, aux_visible, dialog_visible),
    {
        LayoutEngine {
            width,
            height,
            aux_visible,
            dialog_visible,
            assignment: arrange(width, height, aux_visible, dialog_visible),
        }
    }

    /// Brings the layout up to date with the terminal's size and the
    /// visibility of the panels, and tells whether it was recomputed.
    ///
    /// The layout is recomputed only when one of them changed: the same
    /// size and visibility leave the assignment as it is.
    pub fn update(
        &mut self,
        width: u16,
        height: u16,
        aux_visible: bool,
        dialog_visible: bool,
    ) -> (recomputed: bool)
        ensures
            final(self).covers(width, height, aux_visible, dialog_visible),
            recomputed == !old(self).covers(width, height, aux_visible, dialog_visible),
            !recomputed ==> *final(self) == *old(self),
    {
        if self.width == width && self.height == height && self.aux_visible == aux_visible
            && self.dialog_visible == dialog_visible {
            false
        } else {
            let assignment = arrange(width, height, aux_visible, dialog_visible);
            *self = LayoutEngine { width, height, aux_visible, dialog_visible, assignment };
            true
        }
    }

    /// Computes the layout anew for the size and visibility that it has.
    ///
    /// Whatever the solver answers this time, the regions after it are a
    /// valid assignment for that size and visibility, and their slots
    /// partition the usable part of the frame. They may be the regions that
    /// were there: the solver may answer as it did before.
    pub fn recompute(&mut self)
        ensures
            final(self).same_key(*old(self)),
            final(self).holds(final(self).spec_assignment()),
    {
        let assignment = arrange(self.width, self.height, self.aux_visible, self.dialog_visible);
        *self = LayoutEngine {
            width: self.width,
            height: self.height,
            aux_visible: self.aux_visible,
            dialog_visible: self.dialog_visible,
            assignment,
        };
    }

    /// The terminal's width that the layout was computed for.
    #[verifier::when_used_as_spec(spec_width)]
    pub fn width(&self) -> (r: u16)
        ensures
            r == self.spec_width(),
    {
        self.width
    }

    /// The terminal's height that the layout was computed for.
    #[verifier::when_used_as_spec(spec_height)]
    pub fn height(&self) -> (r: u16)
        ensures
            r == self.spec_height(),
    {
        self.height
    }

    /// The visibility of the auxiliary panel that the layout was computed
    /// for.
    #[verifier::when_used_as_spec(spec_aux_visible)]
    pub fn aux_visible(&self) -> (r: bool)
        ensures
            r == self.spec_aux_visible(),
    {
        self.aux_visible
    }

    /// The visibility of the dialog that the layout was computed for.
    #[verifier::when_used_as_spec(spec_dialog_visible)]
    pub fn dialog_visible(&self) -> (r: bool)
        ensures
            r == self.spec_dialog_visible(),
    {
        self.dialog_visible
    }

    /// The regions of the current frame: a valid assignment for the usable
    /// part of the frame, whose six slots partition that part.
    #[verifier::when_used_as_spec(spec_assignment)]
    pub fn assignment(&self) -> (l: LayoutAssignment)
        ensures
            self.holds(l),
    {
        proof {
            use_type_invariant(self);
            lemma_fills_partitions(self.assignment, usable(self.width, self.height));
        }
        self.assignment
    }
}

} // verus!
