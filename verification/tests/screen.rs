use neviraller::layout::{accept, check_tiles, Constraint, Direction, Rect};
use neviraller::screen::{
    arrange, canonical, columns_request, propose, rows_request, settle, stack_request,
    LayoutAssignment, LayoutEngine, Slot,
};

fn overlap(a: Rect, b: Rect) -> bool {
    let (ax, ay, aw, ah) = (a.x as u32, a.y as u32, a.width as u32, a.height as u32);
    let (bx, by, bw, bh) = (b.x as u32, b.y as u32, b.width as u32, b.height as u32);
    aw > 0 && ah > 0 && bw > 0 && bh > 0 && ax < bx + bw && bx < ax + aw && ay < by + bh
        && by < ay + ah
}

fn area(r: Rect) -> u32 {
    r.width as u32 * r.height as u32
}

fn slots(l: &LayoutAssignment) -> Vec<Rect> {
    vec![
        l.region(Slot::Header),
        l.region(Slot::Navigation),
        l.region(Slot::Auxiliary),
        l.region(Slot::Primary),
        l.region(Slot::Dialog),
        l.region(Slot::Footer),
    ]
}

#[test]
fn slots_partition_the_usable_frame_for_many_sizes() {
    for aux in [false, true] {
        for w in (0u16..200).step_by(7) {
            for h in (0u16..80).step_by(3) {
                let l = arrange(w, h, aux, false);
                let whole = Rect::new(0, 0, w, h).inner(1);
                let s = slots(&l);
                let mut sum = 0;
                for (i, a) in s.iter().enumerate() {
                    sum += area(*a);
                    if area(*a) > 0 {
                        assert!(a.x >= whole.x && a.y >= whole.y);
                        assert!(a.x + a.width <= whole.x + whole.width);
                        assert!(a.y + a.height <= whole.y + whole.height);
                    }
                    for b in s.iter().skip(i + 1) {
                        assert!(!overlap(*a, *b), "{:?} and {:?} at {}x{}", a, b, w, h);
                    }
                }
                assert_eq!(sum, area(whole), "at {}x{}", w, h);
                assert!(l.check(whole, aux, false));
                if !aux {
                    assert_eq!(l.auxiliary.height, 0);
                }
                assert_eq!(l.dialog.height, 0);
                let asking = arrange(w, h, aux, true);
                assert!(asking.check(whole, aux, true));
                let t = slots(&asking);
                let total: u32 = t.iter().map(|r| area(*r)).sum();
                assert_eq!(total, area(whole), "with the dialog at {}x{}", w, h);
                for (i, a) in t.iter().enumerate() {
                    for b in t.iter().skip(i + 1) {
                        assert!(!overlap(*a, *b), "{:?} and {:?} at {}x{}", a, b, w, h);
                    }
                }
                if whole.height >= 12 {
                    assert_eq!(l.header.height, 1);
                    assert_eq!(l.footer.height, 1);
                }
            }
        }
    }
}

#[test]
fn solver_and_direct_computation_agree_on_supported_sizes() {
    for aux in [false, true] {
        for w in [3u16, 10, 37, 80, 81, 100, 132, 255] {
            for h in [14u16, 15, 18, 24, 25, 50, 100] {
                let whole = Rect::new(0, 0, w, h).inner(1);
                assert_eq!(arrange(w, h, aux, false), canonical(whole, aux, false), "at {}x{}", w, h);
                assert_eq!(arrange(w, h, aux, true), canonical(whole, aux, true), "at {}x{}", w, h);
            }
        }
    }
}

#[test]
fn direct_computation_on_a_standard_terminal() {
    let l = canonical(Rect::new(1, 1, 78, 22), true, false);
    assert_eq!(l.header, Rect::new(1, 1, 78, 1));
    assert_eq!(l.body, Rect::new(1, 2, 78, 20));
    assert_eq!(l.footer, Rect::new(1, 22, 78, 1));
    assert_eq!(l.navigation, Rect::new(1, 2, 23, 20));
    assert_eq!(l.content, Rect::new(24, 2, 55, 20));
    assert_eq!(l.auxiliary, Rect::new(24, 2, 55, 3));
    assert_eq!(l.primary, Rect::new(24, 5, 55, 17));
}

#[test]
fn direct_computation_on_small_frames() {
    let l = canonical(Rect::new(1, 1, 5, 11), true, false);
    assert_eq!(l.header.height, 1);
    assert_eq!(l.body.height, 10);
    assert_eq!(l.footer.height, 0);
    assert_eq!(l.navigation.width, 2);
    let l = canonical(Rect::new(1, 1, 5, 3), true, false);
    assert_eq!(l.header.height, 0);
    assert_eq!(l.body.height, 3);
    assert_eq!(l.auxiliary.height, 2);
    assert_eq!(l.primary.height, 1);
    let l = canonical(Rect::new(0, 0, 0, 0), true, false);
    assert_eq!(l.primary, Rect::new(0, 0, 0, 0));
    assert!(l.check(Rect::new(0, 0, 0, 0), true, false));
}

#[test]
fn invalid_proposal_is_replaced() {
    let whole = Rect::new(1, 1, 78, 22);
    let good = canonical(whole, false, false);
    assert_eq!(settle(Some(good), whole, false, false), good);
    let mut overlapping = good;
    overlapping.navigation.width += 1;
    assert!(!overlapping.check(whole, false, false));
    assert_eq!(settle(Some(overlapping), whole, false, false), good);
    let mut tall_header = good;
    tall_header.header.height = 2;
    tall_header.body.y += 1;
    tall_header.body.height -= 1;
    tall_header.navigation.y += 1;
    tall_header.navigation.height -= 1;
    tall_header.content.y += 1;
    tall_header.content.height -= 1;
    tall_header.auxiliary.y += 1;
    tall_header.primary.y += 1;
    tall_header.primary.height -= 1;
    tall_header.dialog.y = good.dialog.y;
    assert!(!tall_header.check(whole, false, false));
    assert_eq!(settle(Some(tall_header), whole, false, false), good);
    let shown = canonical(whole, true, false);
    assert!(!shown.check(whole, false, false));
    assert_eq!(settle(Some(shown), whole, false, false), good);
    assert_eq!(settle(None, whole, true, false), shown);
}

#[test]
fn proposal_of_the_solver_fills_the_frame() {
    let l = propose(Rect::new(0, 0, 80, 24), true, false).expect("the solver's strips fill the frame");
    assert!(l.check(Rect::new(1, 1, 78, 22), true, false));
}

#[test]
fn strips_are_accepted_only_if_they_fill_the_area() {
    let whole = Rect::new(2, 3, 10, 4);
    let good = vec![Rect::new(2, 3, 4, 4), Rect::new(6, 3, 0, 4), Rect::new(6, 3, 6, 4)];
    assert_eq!(accept(Direction::Horizontal, good.clone(), whole), Some(good.clone()));
    assert!(!check_tiles(Direction::Vertical, &good, whole));
    let gap = vec![Rect::new(2, 3, 4, 4), Rect::new(7, 3, 5, 4)];
    assert_eq!(accept(Direction::Horizontal, gap, whole), None);
    let short = vec![Rect::new(2, 3, 4, 4)];
    assert_eq!(accept(Direction::Horizontal, short, whole), None);
    let shifted = vec![Rect::new(2, 4, 10, 4)];
    assert_eq!(accept(Direction::Horizontal, shifted, whole), None);
    assert_eq!(accept(Direction::Vertical, Vec::new(), Rect::new(0, 0, 5, 0)), Some(Vec::new()));
    assert_eq!(accept(Direction::Vertical, Vec::new(), Rect::new(0, 0, 5, 1)), None);
}

#[test]
fn inner_rectangle() {
    assert_eq!(Rect::new(0, 0, 80, 24).inner(1), Rect::new(1, 1, 78, 22));
    assert_eq!(Rect::new(5, 6, 2, 2).inner(1), Rect::new(6, 7, 0, 0));
    assert_eq!(Rect::new(5, 6, 1, 9).inner(1), Rect::new(0, 0, 0, 0));
    assert_eq!(Rect::new(5, 6, 7, 8).inner(0), Rect::new(5, 6, 7, 8));
    assert_eq!(Rect::default(), Rect::new(0, 0, 0, 0));
    assert!(Rect::new(3, 3, 0, 9).is_empty());
    assert!(!Rect::new(3, 3, 1, 1).is_empty());
}

#[test]
fn engine_recomputes_when_the_panel_appears() {
    let mut engine = LayoutEngine::new(80, 24, false, false);
    assert_eq!(engine.assignment().auxiliary.height, 0);
    assert!(engine.update(80, 24, true, false));
    assert!(engine.aux_visible());
    assert_eq!(engine.assignment().auxiliary.height, 3);
    assert!(!engine.update(80, 24, true, false));
    engine.recompute();
    assert_eq!(engine.assignment(), arrange(80, 24, true, false));
    assert_eq!((engine.width(), engine.height()), (80, 24));
}

#[test]
fn dialog_has_rows_of_its_own_while_it_is_shown() {
    let l = canonical(Rect::new(1, 1, 78, 22), true, true);
    assert_eq!(l.auxiliary, Rect::new(24, 2, 55, 3));
    assert_eq!(l.primary, Rect::new(24, 5, 55, 11));
    assert_eq!(l.dialog, Rect::new(24, 16, 55, 6));
    let hidden = canonical(Rect::new(1, 1, 78, 22), false, false);
    assert_eq!(hidden.primary, Rect::new(24, 2, 55, 20));
    assert_eq!(hidden.dialog, Rect::new(24, 22, 55, 0));
    let small = canonical(Rect::new(1, 1, 5, 6), true, true);
    assert_eq!(small.auxiliary.height, 3);
    assert_eq!(small.dialog.height, 2);
    assert_eq!(small.primary.height, 1);
    assert!(!l.check(Rect::new(1, 1, 78, 22), true, false));
    assert_eq!(arrange(80, 24, true, true), l);
}

#[test]
fn requests_to_the_solver() {
    let rows = rows_request();
    assert_eq!(rows.direction, Direction::Vertical);
    assert_eq!(rows.margin, 1);
    assert_eq!(
        rows.constraints,
        vec![Constraint::Length(1), Constraint::Min(10), Constraint::Length(1)]
    );
    let columns = columns_request();
    assert_eq!(columns.direction, Direction::Horizontal);
    assert_eq!(columns.margin, 0);
    assert_eq!(columns.constraints, vec![Constraint::Percentage(30), Constraint::Percentage(70)]);
    let stack = stack_request(true, false);
    assert_eq!(stack.direction, Direction::Vertical);
    assert_eq!(
        stack.constraints,
        vec![Constraint::Length(3), Constraint::Min(1), Constraint::Length(0)]
    );
    assert_eq!(
        stack_request(false, true).constraints,
        vec![Constraint::Length(0), Constraint::Min(1), Constraint::Length(6)]
    );
}
