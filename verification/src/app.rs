//! The event loop's decisions.
//!
//! The loop itself, which waits for the terminal and draws, stands outside
//! this library. It hands each event to [`App::handle_event`], then calls
//! [`App::step`] until the bus is empty, performing the effect that each
//! step returns, and at last asks [`App::after_drain`] how to go on.
//!
//! One step takes the action that has waited longest, lets it change the
//! state of the run, and delivers it to every component in order. What a
//! component emits on delivery is put at the end of the bus.

use crate::action::{views, Action, ActionView};
use crate::bus::ActionBus;
use crate::components::footer::Footer;
use crate::components::header::Header;
use crate::components::info::{Info, InfoView};
use crate::components::input::{Button, Input, InputView};
use crate::components::menu::{default_items_spec, default_menu_items, Menu, MenuView};
use crate::components::progress::ProgressBar;
use crate::components::{
    add_message, open_dialog, set_progress, shows_dialog, shows_progress, update_spec, Component,
    ComponentId, ComponentView,
};
use crate::config::{KeyBindings, Table};
use crate::event::Event;
use crate::keys::Key;
use crate::layout::Rect;
use crate::mode::Mode;
use crate::screen::{LayoutAssignment, LayoutEngine};
use crate::state::{lemma_single_key_fires, resolve_spec, view_of, AppState};
use vstd::prelude::*;

verus! {

broadcast use vstd::string::group_string_axioms;

/// The steps of an installation after its first.
pub const TOTAL_STEPS: u8 = 10;

/// The application: the state of the run, the key map, the components, the
/// bus and the layout.
pub struct App {
    state: AppState,
    bindings: KeyBindings,
    components: Vec<Component>,
    bus: ActionBus,
    layout: LayoutEngine,
    job: Option<u8>,
}

/// The mathematical value of an [`App`], less its layout.
pub struct AppModel {
    pub should_quit: bool,
    pub should_suspend: bool,
    pub mode: Mode,
    pub pending: Seq<Key>,
    pub bindings: Table,
    pub components: Seq<ComponentView>,
    pub bus: Seq<ActionView>,
    /// The next step of the running installation, if one runs.
    pub job: Option<u8>,
}

/// What the loop has to do after a step.
#[derive(Clone, Copy, Debug, PartialEq, Eq, Structural)]
pub enum Effect {
    /// Nothing.
    Nothing,
    /// Draw every component into its region.
    Draw(LayoutAssignment),
    /// Take the terminal again, then draw every component into its region.
    Reacquire(LayoutAssignment),
    /// Find out which version can be installed, and send what was found as
    /// a message.
    CheckVersion,
}

/// An [`Effect`] without its regions.
#[derive(Clone, Copy, Debug, PartialEq, Eq, Structural)]
pub enum EffectKind {
    Nothing,
    Draw,
    Reacquire,
    CheckVersion,
}

/// How the loop goes on after the bus was emptied.
#[derive(Clone, Copy, Debug, PartialEq, Eq, Structural)]
pub enum Control {
    /// Wait for the next event.
    Continue,
    /// Give the terminal up, then go on; the action to resume is queued.
    Suspend,
    /// Restore the terminal and end.
    Stop,
}

/// The state of the lifecycle.
#[derive(Clone, Copy, Debug, PartialEq, Eq, Structural)]
pub enum Lifecycle {
    Running,
    Suspended,
    Terminating,
}

impl Effect {
    /// The effect without its regions.
    pub open spec fn kind(self) -> EffectKind {
        match self {
            Effect::Nothing => EffectKind::Nothing,
            Effect::Draw(_) => EffectKind::Draw,
            Effect::Reacquire(_) => EffectKind::Reacquire,
            Effect::CheckVersion => EffectKind::CheckVersion,
        }
    }
}

/// The views of a sequence of components, in order.
pub open spec fn cviews(components: Seq<Component>) -> Seq<ComponentView> {
    components.map_values(|c: Component| c@)
}

/// Whether component `i` is the first with identity `id`.
pub open spec fn is_first(cs: Seq<ComponentView>, id: ComponentId, i: int) -> bool {
    &&& 0 <= i < cs.len()
    &&& cs[i].id() == id
    &&& forall|k: int| 0 <= k < i ==> (#[trigger] cs[k]).id() != id
}

/// The index of the first component with identity `id`.
pub open spec fn first_of(cs: Seq<ComponentView>, id: ComponentId) -> Option<int> {
    if exists|i: int| is_first(cs, id, i) {
        Some(choose|i: int| is_first(cs, id, i))
    } else {
        None
    }
}

/// The components after `message` was added to the first status display.
pub open spec fn with_status(cs: Seq<ComponentView>, message: Seq<char>) -> Seq<ComponentView> {
    match first_of(cs, ComponentId::Info) {
        Some(i) => cs.update(i, add_message(cs[i], message)),
        None => cs,
    }
}

/// The components after the first progress indicator was set to `percent`.
pub open spec fn with_progress(cs: Seq<ComponentView>, percent: u8) -> Seq<ComponentView> {
    match first_of(cs, ComponentId::Progress) {
        Some(i) => cs.update(i, set_progress(cs[i], percent)),
        None => cs,
    }
}

/// The components after the first dialog was opened.
pub open spec fn with_dialog_shown(cs: Seq<ComponentView>) -> Seq<ComponentView> {
    match first_of(cs, ComponentId::Input) {
        Some(i) => cs.update(i, open_dialog(cs[i])),
        None => cs,
    }
}

/// Whether the auxiliary panel is shown: whether the first progress
/// indicator is visible.
pub open spec fn aux_visible(cs: Seq<ComponentView>) -> bool {
    match first_of(cs, ComponentId::Progress) {
        Some(i) => shows_progress(cs[i]),
        None => false,
    }
}

/// Whether the dialog is shown: whether the first dialog is visible.
pub open spec fn dialog_visible(cs: Seq<ComponentView>) -> bool {
    match first_of(cs, ComponentId::Input) {
        Some(i) => shows_dialog(cs[i]),
        None => false,
    }
}

/// The region of component `i` in `layout`: the region of its slot where
/// it is the first component of its identity, and no cell where it is not,
/// so that no region is handed to two components.
pub open spec fn region_at_spec(cs: Seq<ComponentView>, layout: LayoutAssignment, i: int) -> Rect {
    if 0 <= i < cs.len() && first_of(cs, cs[i].id()) == Some(i) {
        layout.region_spec(cs[i].id().slot_spec())
    } else {
        Rect::zero()
    }
}

/// Each region is assigned to one component: in a layout whose slots
/// partition the frame, the regions of two different components share no
/// cell.
pub proof fn lemma_regions_apart(
    cs: Seq<ComponentView>,
    layout: LayoutAssignment,
    whole: Rect,
    i: int,
    j: int,
)
    requires
        layout.partitions(whole),
        i != j,
    ensures
        region_at_spec(cs, layout, i).disjoint(region_at_spec(cs, layout, j)),
{
    let a = region_at_spec(cs, layout, i);
    let b = region_at_spec(cs, layout, j);
    if a != Rect::zero() && b != Rect::zero() {
        assert(cs[i].id() != cs[j].id());
        ComponentId::lemma_slots_differ(cs[i].id(), cs[j].id());
        assert(layout.region_spec(cs[i].id().slot_spec()).disjoint(
            layout.region_spec(cs[j].id().slot_spec()),
        ));
    }
}

/// The identities of those among the first `k` components whose region in
/// `layout` has no cell.
pub open spec fn without_room(cs: Seq<ComponentView>, layout: LayoutAssignment, k: int) -> Seq<
    ComponentId,
>
    decreases k,
{
    if k <= 0 {
        Seq::empty()
    } else if region_at_spec(cs, layout, k - 1).area() == 0 {
        without_room(cs, layout, k - 1).push(cs[k - 1].id())
    } else {
        without_room(cs, layout, k - 1)
    }
}

/// The progress, in percent, that step `step` of an installation shows.
pub open spec fn percent_at(step: u8) -> u8 {
    if step >= TOTAL_STEPS {
        100
    } else {
        (step * 10) as u8
    }
}

/// What delivering `action` to each of `cs` in order yields: the components
/// after it, and the actions that they emitted, in the order of the
/// components.
pub open spec fn broadcast_spec(cs: Seq<ComponentView>, action: ActionView) -> (
    Seq<ComponentView>,
    Seq<ActionView>,
)
    decreases cs.len(),
{
    if cs.len() == 0 {
        (Seq::empty(), Seq::empty())
    } else {
        let (front, emitted) = broadcast_spec(cs.drop_last(), action);
        let (last, said) = update_spec(cs.last(), action);
        (
            front.push(last),
            match said {
                Some(a) => emitted.push(a),
                None => emitted,
            },
        )
    }
}

/// What `action` does to the run before it is delivered to the components,
/// and what the loop has to do for it.
///
/// A tick clears the pending keys and, unless the run is ending, performs
/// the next step of a running installation: the progress is shown, a
/// request to draw is queued, and after the last step the success is
/// reported. `Quit`, `Suspend` and `Resume` set the flags of the lifecycle.
/// A request to install starts an installation unless one runs. The other
/// commands of the domain report in the status display.
pub open spec fn absorb_spec(m: AppModel, action: ActionView) -> (AppModel, EffectKind) {
    match action {
        ActionView::Tick => {
            let cleared = AppModel { pending: Seq::empty(), ..m };
            match m.job {
                Some(step) if !m.should_quit => {
                    let shown = with_progress(m.components, percent_at(step));
                    if step >= TOTAL_STEPS {
                        (
                            AppModel {
                                components: with_status(
                                    shown,
                                    "Neovim Nightly installed successfully."@,
                                ),
                                bus: m.bus.push(ActionView::Render),
                                job: None,
                                ..cleared
                            },
                            EffectKind::Nothing,
                        )
                    } else {
                        (
                            AppModel {
                                components: shown,
                                bus: m.bus.push(ActionView::Render),
                                job: Some((step + 1) as u8),
                                ..cleared
                            },
                            EffectKind::Nothing,
                        )
                    }
                },
                _ => (cleared, EffectKind::Nothing),
            }
        },
        ActionView::Quit => (AppModel { should_quit: true, ..m }, EffectKind::Nothing),
        ActionView::Suspend => (AppModel { should_suspend: true, ..m }, EffectKind::Nothing),
        ActionView::Resume => (AppModel { should_suspend: false, ..m }, EffectKind::Reacquire),
        ActionView::Render => (m, EffectKind::Draw),
        ActionView::Resize(_, _) => (m, EffectKind::Draw),
        ActionView::InstallNeovimNightly => if m.job is None {
            (
                AppModel {
                    components: with_status(m.components, "Installing Neovim Nightly..."@),
                    job: Some(0u8),
                    ..m
                },
                EffectKind::CheckVersion,
            )
        } else {
            (m, EffectKind::Nothing)
        },
        ActionView::InstallNeviraide => (
            AppModel { components: with_status(m.components, "NEVIRAIDE"@), ..m },
            EffectKind::Nothing,
        ),
        ActionView::CheckDeps => (
            AppModel {
                components: with_status(m.components, "All dependencies are up to date"@),
                ..m
            },
            EffectKind::Nothing,
        ),
        ActionView::Test => (
            AppModel {
                components: with_dialog_shown(with_status(m.components, "Test for test"@)),
                ..m
            },
            EffectKind::Nothing,
        ),
        _ => (m, EffectKind::Nothing),
    }
}

/// What processing `action` does to a run whose bus holds the actions that
/// wait behind it: the action changes the state of the run, then it is
/// delivered to every component, and what the components emit is put at the
/// end of the bus.
pub open spec fn apply_spec(m: AppModel, action: ActionView) -> (AppModel, EffectKind) {
    let (absorbed, kind) = absorb_spec(m, action);
    let (components, emitted) = broadcast_spec(absorbed.components, action);
    (AppModel { components, bus: absorbed.bus + emitted, ..absorbed }, kind)
}

/// What one step does to a run on whose bus an action waits.
pub open spec fn step_spec(m: AppModel) -> (AppModel, EffectKind) {
    apply_spec(AppModel { bus: m.bus.drop_first(), ..m }, m.bus[0])
}

/// What an event does to the run: a key is resolved and what it yields is
/// queued; a request to draw, a resize, a tick and a request to quit are
/// queued as actions; every other event is passed over.
pub open spec fn handle_event_spec(m: AppModel, event: Event) -> AppModel {
    match event {
        Event::Key(key) => {
            let (pending, yielded) = resolve_spec(m.bindings, m.mode, m.pending, key);
            AppModel {
                pending,
                bus: match yielded {
                    Some(a) => m.bus.push(a),
                    None => m.bus,
                },
                ..m
            }
        },
        Event::Resize(w, h) => AppModel { bus: m.bus.push(ActionView::Resize(w, h)), ..m },
        Event::Render => AppModel { bus: m.bus.push(ActionView::Render), ..m },
        Event::Tick => AppModel { bus: m.bus.push(ActionView::Tick), ..m },
        Event::Quit => AppModel { bus: m.bus.push(ActionView::Quit), ..m },
        _ => m,
    }
}

/// The state of the lifecycle: ending once a request to quit was processed,
/// else suspended while a request to suspend is not yet answered by one to
/// resume, else running.
pub open spec fn lifecycle_spec(m: AppModel) -> Lifecycle {
    if m.should_quit {
        Lifecycle::Terminating
    } else if m.should_suspend {
        Lifecycle::Suspended
    } else {
        Lifecycle::Running
    }
}

/// How the loop goes on after the bus was emptied, and the run then: a
/// suspended run queues the action that resumes it.
pub open spec fn after_drain_spec(m: AppModel) -> (AppModel, Control) {
    match lifecycle_spec(m) {
        Lifecycle::Terminating => (m, Control::Stop),
        Lifecycle::Suspended => (
            AppModel { bus: m.bus.push(ActionView::Resume), ..m },
            Control::Suspend,
        ),
        Lifecycle::Running => (m, Control::Continue),
    }
}


/// Whether no component reacts to `action`.
pub open spec fn inert(action: ActionView) -> bool {
    match action {
        ActionView::Prev | ActionView::Next | ActionView::Select => false,
        ActionView::Error(_) | ActionView::LogMessage(_) => false,
        _ => true,
    }
}

/// Delivery keeps the number of components, and each component after it is
/// what the action alone made of it.
pub proof fn lemma_broadcast_pointwise(cs: Seq<ComponentView>, action: ActionView)
    ensures
        broadcast_spec(cs, action).0.len() == cs.len(),
        forall|i: int|
            0 <= i < cs.len() ==> (#[trigger] broadcast_spec(cs, action).0[i]) == update_spec(
                cs[i],
                action,
            ).0,
    decreases cs.len(),
{
    if cs.len() > 0 {
        lemma_broadcast_pointwise(cs.drop_last(), action);
        assert forall|i: int| 0 <= i < cs.len() implies (#[trigger] broadcast_spec(
            cs,
            action,
        ).0[i]) == update_spec(cs[i], action).0 by {
            if i < cs.len() - 1 {
                assert(cs.drop_last()[i] == cs[i]);
                assert(broadcast_spec(cs, action).0[i] == broadcast_spec(cs.drop_last(), action).0[i]);
            }
        }
    }
}

/// Whatever is emitted on delivery was emitted by one of the components.
pub proof fn lemma_broadcast_emitted(cs: Seq<ComponentView>, action: ActionView, k: int) -> (i:
    int)
    requires
        0 <= k < broadcast_spec(cs, action).1.len(),
    ensures
        0 <= i < cs.len(),
        update_spec(cs[i], action).1 == Some(broadcast_spec(cs, action).1[k]),
    decreases cs.len(),
{
    let (front, emitted) = broadcast_spec(cs.drop_last(), action);
    if k < emitted.len() {
        let i = lemma_broadcast_emitted(cs.drop_last(), action, k);
        assert(cs.drop_last()[i] == cs[i]);
        i
    } else {
        cs.len() - 1
    }
}

/// A component ignores every action that is not meant for it: it stays as
/// it is and emits nothing.
pub proof fn lemma_inert_ignored(c: ComponentView, action: ActionView)
    requires
        inert(action),
    ensures
        update_spec(c, action) == (c, None::<ActionView>),
{
}

/// An action to which no component reacts leaves all components as they
/// are, and nothing is emitted.
pub proof fn lemma_broadcast_inert(cs: Seq<ComponentView>, action: ActionView)
    requires
        inert(action),
    ensures
        broadcast_spec(cs, action) == (cs, Seq::<ActionView>::empty()),
    decreases cs.len(),
{
    if cs.len() > 0 {
        lemma_broadcast_inert(cs.drop_last(), action);
        lemma_inert_ignored(cs.last(), action);
        assert(cs.drop_last().push(cs.last()) =~= cs);
    }
}

/// Suspending and resuming leave the run as it was: the mode, every
/// component, the pending keys, the waiting actions and a running
/// installation are the same after the two actions as before, and the run
/// is not suspended.
pub proof fn lemma_suspend_resume_round_trip(m: AppModel)
    ensures
        ({
            let suspended = apply_spec(m, ActionView::Suspend).0;
            let resumed = apply_spec(suspended, ActionView::Resume).0;
            &&& suspended.should_suspend
            &&& suspended.mode == m.mode
            &&& suspended.components == m.components
            &&& resumed == AppModel { should_suspend: false, ..m }
        }),
{
    lemma_broadcast_inert(m.components, ActionView::Suspend);
    lemma_broadcast_inert(m.components, ActionView::Resume);
    assert(m.bus + Seq::<ActionView>::empty() =~= m.bus);
}

/// The whole cycle of a suspension, as the loop runs it: the request to
/// suspend is processed, the emptied bus makes the loop give up the
/// terminal and queues the request to resume, and processing that makes the
/// loop take the terminal again. The run is then as it was before, with an
/// empty bus.
pub proof fn lemma_suspension_cycle(m: AppModel)
    requires
        m.bus == seq![ActionView::Suspend],
        !m.should_quit,
    ensures
        ({
            let (suspended, first) = step_spec(m);
            let (waiting, control) = after_drain_spec(suspended);
            let (resumed, second) = step_spec(waiting);
            &&& first == EffectKind::Nothing
            &&& lifecycle_spec(suspended) == Lifecycle::Suspended
            &&& control == Control::Suspend
            &&& second == EffectKind::Reacquire
            &&& resumed == AppModel { should_suspend: false, bus: Seq::empty(), ..m }
            &&& lifecycle_spec(resumed) == Lifecycle::Running
        }),
{
    let start = AppModel { bus: m.bus.drop_first(), ..m };
    assert(m.bus.drop_first() =~= Seq::<ActionView>::empty());
    lemma_suspend_resume_round_trip(start);
    lemma_broadcast_inert(m.components, ActionView::Suspend);
    lemma_broadcast_inert(m.components, ActionView::Resume);
    let (suspended, first) = step_spec(m);
    assert(suspended.bus =~= Seq::<ActionView>::empty());
    let (waiting, control) = after_drain_spec(suspended);
    assert(waiting.bus =~= seq![ActionView::Resume]);
    assert(waiting.bus.drop_first() =~= Seq::<ActionView>::empty());
    let (resumed, second) = step_spec(waiting);
    assert(resumed.bus =~= Seq::<ActionView>::empty());
}

/// What is emitted while an action is processed waits behind everything
/// that waited already, and is delivered to no component in that step.
///
/// In one step the first waiting action changes the run and is delivered
/// once to each component: each component after the step is what that
/// action alone made of it. The actions that waited behind it keep their
/// places at the head of the bus. Behind them stands what the step queued:
/// first what the change of the run queued, then what the components
/// emitted, each such action emitted by one of them on delivery.
pub proof fn lemma_emitted_actions_wait(m: AppModel)
    requires
        m.bus.len() > 0,
    ensures
        ({
            let taken = m.bus[0];
            let behind = m.bus.drop_first();
            let absorbed = absorb_spec(AppModel { bus: behind, ..m }, taken).0;
            let after = step_spec(m).0;
            &&& after.components.len() == absorbed.components.len()
            &&& forall|i: int|
                0 <= i < after.components.len() ==> (#[trigger] after.components[i])
                    == update_spec(absorbed.components[i], taken).0
            &&& behind.len() <= absorbed.bus.len() <= after.bus.len()
            &&& after.bus.take(behind.len() as int) == behind
            &&& forall|j: int|
                absorbed.bus.len() <= j < after.bus.len() ==> exists|i: int|
                    0 <= i < absorbed.components.len() && #[trigger] update_spec(
                        absorbed.components[i],
                        taken,
                    ).1 == Some(#[trigger] after.bus[j])
        }),
{
    let taken = m.bus[0];
    let behind = m.bus.drop_first();
    let absorbed = absorb_spec(AppModel { bus: behind, ..m }, taken).0;
    let after = step_spec(m).0;
    lemma_broadcast_pointwise(absorbed.components, taken);
    let emitted = broadcast_spec(absorbed.components, taken).1;
    assert(absorbed.bus.len() >= behind.len() && absorbed.bus.take(behind.len() as int) =~= behind);
    assert((absorbed.bus + emitted).take(behind.len() as int) =~= behind);
    assert forall|j: int| absorbed.bus.len() <= j < after.bus.len() implies exists|i: int|
        0 <= i < absorbed.components.len() && #[trigger] update_spec(
            absorbed.components[i],
            taken,
        ).1 == Some(#[trigger] after.bus[j]) by {
        let i = lemma_broadcast_emitted(absorbed.components, taken, j - absorbed.bus.len());
        assert(update_spec(absorbed.components[i], taken).1 == Some(after.bus[j]));
    }
}

/// A resize and a request to draw change nothing in the run: they only
/// ask for the frame to be drawn. So the visibility of the auxiliary panel
/// is the same after the action as before, and the same resize twice in a
/// row asks the layout twice for the same size and visibility.
pub proof fn lemma_drawing_changes_nothing(m: AppModel, action: ActionView)
    requires
        action is Resize || action is Render,
    ensures
        apply_spec(m, action) == (m, EffectKind::Draw),
{
    lemma_broadcast_inert(m.components, action);
    assert(m.bus + Seq::<ActionView>::empty() =~= m.bus);
}

/// An upper bound on the steps that an action causes in a run of `n`
/// components: the step that processes it and one for each action that this
/// step can queue.
pub open spec fn weight(action: ActionView, n: nat) -> nat {
    match action {
        ActionView::Select => n + 1,
        ActionView::Tick => 2,
        _ => 1,
    }
}

/// An upper bound on the steps that it takes to empty the bus of a run of
/// `n` components.
pub open spec fn work(bus: Seq<ActionView>, n: nat) -> nat
    decreases bus.len(),
{
    if bus.len() == 0 {
        0
    } else {
        work(bus.drop_last(), n) + weight(bus.last(), n)
    }
}

/// The work of two queues put together is the work of both.
pub proof fn lemma_work_concat(a: Seq<ActionView>, b: Seq<ActionView>, n: nat)
    ensures
        work(a + b, n) == work(a, n) + work(b, n),
    decreases b.len(),
{
    if b.len() == 0 {
        assert(a + b =~= a);
    } else {
        lemma_work_concat(a, b.drop_last(), n);
        assert((a + b).drop_last() =~= a + b.drop_last());
        assert((a + b).last() == b.last());
    }
}

/// What the components emit on the delivery of one action causes no more
/// work than the action was given credit for: only the choice of a menu
/// entry makes a component emit, each component emits at most one action,
/// and what it emits makes no component emit again.
pub proof fn lemma_emitted_work(cs: Seq<ComponentView>, action: ActionView, n: nat)
    ensures
        work(broadcast_spec(cs, action).1, n) <= (if action is Select {
            cs.len()
        } else {
            0
        }),
    decreases cs.len(),
{
    if cs.len() > 0 {
        lemma_emitted_work(cs.drop_last(), action, n);
        let emitted = broadcast_spec(cs.drop_last(), action).1;
        match update_spec(cs.last(), action).1 {
            Some(said) => {
                assert(emitted.push(said).drop_last() =~= emitted);
                assert(weight(said, n) == 1);
            },
            None => {},
        }
    }
}

/// Every step takes work off the bus: a drain of the bus ends after no
/// more steps than [`work`] counts, for what a step queues is paid for by
/// the action that it takes.
pub proof fn lemma_step_reduces_work(m: AppModel)
    requires
        m.bus.len() > 0,
    ensures
        step_spec(m).0.components.len() == m.components.len(),
        work(step_spec(m).0.bus, m.components.len()) < work(m.bus, m.components.len()),
{
    let n = m.components.len();
    let taken = m.bus[0];
    let behind = m.bus.drop_first();
    let absorbed = absorb_spec(AppModel { bus: behind, ..m }, taken).0;
    assert(absorbed.components.len() == n);
    lemma_broadcast_pointwise(absorbed.components, taken);
    lemma_emitted_work(absorbed.components, taken, n);
    let emitted = broadcast_spec(absorbed.components, taken).1;
    lemma_work_concat(absorbed.bus, emitted, n);
    assert(m.bus =~= seq![taken] + behind);
    lemma_work_concat(seq![taken], behind, n);
    assert(work(seq![taken], n) == weight(taken, n)) by {
        assert(seq![taken].drop_last() =~= Seq::<ActionView>::empty());
        reveal_with_fuel(work, 2);
    }
    if absorbed.bus != behind {
        assert(taken is Tick);
        assert(absorbed.bus == behind.push(ActionView::Render));
        assert(behind.push(ActionView::Render).drop_last() =~= behind);
    }
}

/// The transitions of the lifecycle: a request to quit ends the run, a
/// running run is suspended by a request to suspend, a suspended run is
/// resumed by a request to resume, and nothing leads out of the end.
pub open spec fn transition(state: Lifecycle, action: ActionView) -> Lifecycle {
    match (state, action) {
        (Lifecycle::Terminating, _) => Lifecycle::Terminating,
        (_, ActionView::Quit) => Lifecycle::Terminating,
        (Lifecycle::Running, ActionView::Suspend) => Lifecycle::Suspended,
        (Lifecycle::Suspended, ActionView::Resume) => Lifecycle::Running,
        _ => state,
    }
}

/// The lifecycle of a run moves by its transitions alone: its state after
/// an action was processed is the transition of its state before.
pub proof fn lemma_lifecycle_follows_transitions(m: AppModel, action: ActionView)
    ensures
        lifecycle_spec(apply_spec(m, action).0) == transition(lifecycle_spec(m), action),
{
}

/// A run that is ending stays ending: no action leads out of it, and the
/// loop is told to stop.
pub proof fn lemma_terminating_is_final(m: AppModel, action: ActionView)
    requires
        lifecycle_spec(m) == Lifecycle::Terminating,
    ensures
        lifecycle_spec(apply_spec(m, action).0) == Lifecycle::Terminating,
        after_drain_spec(m) == (m, Control::Stop),
{
}

/// The index of the first component with a given identity is what
/// [`first_of`] names.
pub proof fn lemma_first_of(cs: Seq<ComponentView>, id: ComponentId, i: int)
    requires
        is_first(cs, id, i),
    ensures
        first_of(cs, id) == Some(i),
{
    let j = choose|j: int| is_first(cs, id, j);
    if i < j {
        assert(cs[i].id() != id);
    } else if j < i {
        assert(cs[j].id() != id);
    }
}

/// Where no component has a given identity, [`first_of`] names none.
pub proof fn lemma_first_of_none(cs: Seq<ComponentView>, id: ComponentId)
    requires
        forall|k: int| 0 <= k < cs.len() ==> (#[trigger] cs[k]).id() != id,
    ensures
        first_of(cs, id) is None,
{
    if exists|i: int| is_first(cs, id, i) {
        let i = choose|i: int| is_first(cs, id, i);
        assert(cs[i].id() != id);
    }
}


/// The views of the components that a new application has.
pub open spec fn standard_components() -> Seq<ComponentView> {
    seq![
        ComponentView::Header("NEVIRALLER"@),
        ComponentView::Menu(MenuView { items: default_items_spec(), selected: 0 }),
        ComponentView::Progress(ProgressBar { percent: 0, visible: false }),
        ComponentView::Info(InfoView { title: " Info component "@, content: Seq::empty() }),
        ComponentView::Input(
            InputView {
                title: " Your choise "@,
                input: Seq::empty(),
                selected_button: Some(Button::Yes),
                visible: false,
            },
        ),
        ComponentView::Footer("© 2024 RAprogramm"@),
    ]
}

impl View for App {
    type V = AppModel;

    closed spec fn view(&self) -> AppModel {
        AppModel {
            should_quit: self.state.should_quit,
            should_suspend: self.state.should_suspend,
            mode: self.state.mode,
            pending: self.state.pending_key_sequence@,
            bindings: self.bindings@,
            components: cviews(self.components@),
            bus: self.bus.waiting(),
            job: self.job,
        }
    }
}

impl App {
    /// The layout that the application keeps.
    pub closed spec fn engine(&self) -> LayoutEngine {
        self.layout
    }

    /// The components, as they are held.
    pub closed spec fn held(&self) -> Seq<Component> {
        self.components@
    }

    /// Whether `l` is the layout that the application keeps, computed for
    /// the visibility that the auxiliary panel and the dialog have: a valid
    /// assignment for the usable part of the frame, whose slots partition
    /// that part.
    pub open spec fn drawn(&self, l: LayoutAssignment) -> bool {
        &&& self.engine().holds(l)
        &&& self.engine().spec_aux_visible() == aux_visible(self@.components)
        &&& self.engine().spec_dialog_visible() == dialog_visible(self@.components)
    }

    /// An application with the standard components, for a terminal whose
    /// size is not yet known.
    pub fn new(bindings: KeyBindings) -> (app: App)
        ensures
            app@ == (AppModel {
                should_quit: false,
                should_suspend: false,
                mode: Mode::Home,
                pending: Seq::empty(),
                bindings: bindings@,
                components: standard_components(),
                bus: Seq::empty(),
                job: None,
            }),
            app.engine().covers(0, 0, false, false),
    {
        let components = vec![
            Component::Header(Header::new("NEVIRALLER")),
            Component::Menu(Menu::new(default_menu_items())),
            Component::Progress(ProgressBar::new()),
            Component::Info(Info::new(" Info component ")),
            Component::Input(Input::new(" Your choise ")),
            Component::Footer(Footer::new("© 2024 RAprogramm")),
        ];
        proof {
            assert(cviews(components@) =~= standard_components());
            lemma_first_of_none(cviews(Seq::<Component>::empty()), ComponentId::Progress);
            lemma_first_of_none(cviews(Seq::<Component>::empty()), ComponentId::Input);
        }
        let app = App::with_components(bindings, Vec::new(), 0, 0);
        App { components, ..app }
    }

    /// An application with the given components, for a terminal of the
    /// given size.
    pub fn with_components(
        bindings: KeyBindings,
        components: Vec<Component>,
        width: u16,
        height: u16,
    ) -> (app: App)
        ensures
            app@ == (AppModel {
                should_quit: false,
                should_suspend: false,
                mode: Mode::Home,
                pending: Seq::empty(),
                bindings: bindings@,
                components: cviews(components@),
                bus: Seq::empty(),
                job: None,
            }),
            app.held() == components@,
            app.engine().covers(
                width,
                height,
                aux_visible(cviews(components@)),
                dialog_visible(cviews(components@)),
            ),
    {
        let mut app = App {
            state: AppState::new(),
            bindings,
            components,
            bus: ActionBus::new(),
            layout: LayoutEngine::new(width, height, false, false),
            job: None,
        };
        assert(app.bus.waiting() =~= Seq::<ActionView>::empty());
        let shown = app.aux_visible();
        let asking = app.dialog_visible();
        app.layout.update(width, height, shown, asking);
        app
    }

    /// The index of the first component with identity `id`.
    pub fn find(&self, id: ComponentId) -> (r: Option<usize>)
        ensures
            match r {
                Some(i) => first_of(self@.components, id) == Some(i as int),
                None => first_of(self@.components, id) is None,
            },
    {
        let mut i: usize = 0;
        while i < self.components.len()
            invariant
                0 <= i <= self.components.len(),
                forall|k: int| 0 <= k < i ==> (#[trigger] cviews(self.components@)[k]).id() != id,
            decreases self.components.len() - i,
        {
            if self.components[i].id() == id {
                proof {
                    lemma_first_of(cviews(self.components@), id, i as int);
                }
                return Some(i);
            }
            i += 1;
        }
        proof {
            lemma_first_of_none(cviews(self.components@), id);
        }
        None
    }

    /// Whether the auxiliary panel is shown.
    pub fn aux_visible(&self) -> (r: bool)
        ensures
            r == aux_visible(self@.components),
    {
        match self.find(ComponentId::Progress) {
            Some(i) => self.components[i].shows_progress(),
            None => false,
        }
    }

    /// Whether the dialog is shown.
    pub fn dialog_visible(&self) -> (r: bool)
        ensures
            r == dialog_visible(self@.components),
    {
        match self.find(ComponentId::Input) {
            Some(i) => self.components[i].shows_dialog(),
            None => false,
        }
    }

    /// Adds `message` to the log of the first status display.
    fn add_status(&mut self, message: &str)
        ensures
            final(self)@ == (AppModel {
                components: with_status(old(self)@.components, message@),
                ..old(self)@
            }),
            final(self).engine() == old(self).engine(),
    {
        match self.find(ComponentId::Info) {
            Some(i) => {
                self.components[i].add_message(message);
                assert(cviews(self.components@) =~= with_status(
                    cviews(old(self).components@),
                    message@,
                ));
            },
            None => {},
        }
    }

    /// Sets the first progress indicator to `percent`.
    fn show_progress(&mut self, percent: u8)
        ensures
            final(self)@ == (AppModel {
                components: with_progress(old(self)@.components, percent),
                ..old(self)@
            }),
            final(self).engine() == old(self).engine(),
    {
        match self.find(ComponentId::Progress) {
            Some(i) => {
                let _ = self.components[i].set_progress(percent);
                assert(cviews(self.components@) =~= with_progress(
                    cviews(old(self).components@),
                    percent,
                ));
            },
            None => {},
        }
    }

    /// Opens the first dialog.
    fn show_dialog(&mut self)
        ensures
            final(self)@ == (AppModel {
                components: with_dialog_shown(old(self)@.components),
                ..old(self)@
            }),
            final(self).engine() == old(self).engine(),
    {
        match self.find(ComponentId::Input) {
            Some(i) => {
                self.components[i].open_dialog();
                assert(cviews(self.components@) =~= with_dialog_shown(
                    cviews(old(self).components@),
                ));
            },
            None => {},
        }
    }

    /// Puts `action` at the end of the bus.
    pub fn send(&mut self, action: Action)
        ensures
            final(self)@ == (AppModel { bus: old(self)@.bus.push(action@), ..old(self)@ }),
            final(self).engine() == old(self).engine(),
            final(self).held() == old(self).held(),
    {
        let ghost before = self.bus@;
        self.bus.send(action);
        assert(views(before.push(action)) =~= views(before).push(action@));
    }

    /// Records the progress that outside work reports, and queues the
    /// request to draw it.
    pub fn report_progress(&mut self, percent: u8)
        ensures
            final(self)@ == (AppModel {
                components: with_progress(old(self)@.components, percent),
                bus: old(self)@.bus.push(ActionView::Render),
                ..old(self)@
            }),
            final(self).engine() == old(self).engine(),
    {
        self.show_progress(percent);
        self.send(Action::Render);
    }

    /// Resolves one key press in the current mode and queues the action that
    /// it yields.
    ///
    /// A key that is bound alone yields its action at once, whatever is
    /// pending and whatever longer sequences are bound, and leaves nothing
    /// pending.
    pub fn handle_key_event(&mut self, key: Key)
        ensures
            final(self)@ == handle_event_spec(old(self)@, Event::Key(key)),
            old(self)@.bindings.contains_key((old(self)@.mode, seq![key])) ==> final(self)@ == (
            AppModel {
                pending: Seq::empty(),
                bus: old(self)@.bus.push(old(self)@.bindings[(old(self)@.mode, seq![key])]),
                ..old(self)@
            }),
            final(self).engine() == old(self).engine(),
            final(self).held() == old(self).held(),
    {
        proof {
            if self@.bindings.contains_key((self@.mode, seq![key])) {
                lemma_single_key_fires(self@.bindings, self@.mode, self@.pending, key);
            }
        }
        match self.state.resolve_key(&self.bindings, key) {
            Some(action) => {
                self.send(action);
            },
            None => {},
        }
    }

    /// Takes in one event of the terminal.
    pub fn handle_event(&mut self, event: Event)
        ensures
            final(self)@ == handle_event_spec(old(self)@, event),
            final(self).engine() == old(self).engine(),
            final(self).held() == old(self).held(),
    {
        match event {
            Event::Key(key) => {
                self.handle_key_event(key);
            },
            Event::Resize(w, h) => {
                self.send(Action::Resize(w, h));
            },
            Event::Render => {
                self.send(Action::Render);
            },
            Event::Tick => {
                self.send(Action::Tick);
            },
            Event::Quit => {
                self.send(Action::Quit);
            },
            _ => {},
        }
    }

    /// Lets `action` change the state of the run.
    fn absorb(&mut self, action: &Action) -> (kind: EffectKind)
        ensures
            (final(self)@, kind) == absorb_spec(old(self)@, action@),
            final(self).engine() == old(self).engine(),
    {
        match action {
            Action::Tick => {
                self.state.tick();
                match self.job {
                    Some(step) => {
                        if !self.state.should_quit {
                            if step >= TOTAL_STEPS {
                                self.show_progress(100);
                                self.send(Action::Render);
                                self.add_status("Neovim Nightly installed successfully.");
                                self.job = None;
                            } else {
                                self.show_progress(step * 10);
                                self.send(Action::Render);
                                self.job = Some(step + 1);
                            }
                        }
                    },
                    None => {},
                }
                EffectKind::Nothing
            },
            Action::Quit => {
                self.state.should_quit = true;
                EffectKind::Nothing
            },
            Action::Suspend => {
                self.state.should_suspend = true;
                EffectKind::Nothing
            },
            Action::Resume => {
                self.state.should_suspend = false;
                EffectKind::Reacquire
            },
            Action::Render => EffectKind::Draw,
            Action::Resize(_, _) => EffectKind::Draw,
            Action::InstallNeovimNightly => {
                if self.job.is_none() {
                    self.add_status("Installing Neovim Nightly...");
                    self.job = Some(0);
                    EffectKind::CheckVersion
                } else {
                    EffectKind::Nothing
                }
            },
            Action::InstallNeviraide => {
                self.add_status("NEVIRAIDE");
                EffectKind::Nothing
            },
            Action::CheckDeps => {
                self.add_status("All dependencies are up to date");
                EffectKind::Nothing
            },
            Action::Test => {
                self.add_status("Test for test");
                self.show_dialog();
                EffectKind::Nothing
            },
            _ => EffectKind::Nothing,
        }
    }

    /// Delivers `action` to every component in order and queues what they
    /// emit.
    fn broadcast(&mut self, action: &Action)
        ensures
            final(self)@ == (AppModel {
                components: broadcast_spec(old(self)@.components, action@).0,
                bus: old(self)@.bus + broadcast_spec(old(self)@.components, action@).1,
                ..old(self)@
            }),
            final(self).engine() == old(self).engine(),
    {
        let ghost before = cviews(self.components@);
        let ghost waiting = self.bus.waiting();
        let n = self.components.len();
        let mut i: usize = 0;
        proof {
            assert(before.take(0) =~= Seq::<ComponentView>::empty());
            assert(waiting + Seq::<ActionView>::empty() =~= waiting);
        }
        while i < n
            invariant
                0 <= i <= n,
                n == self.components.len(),
                n == before.len(),
                cviews(self.components@).take(i as int) == broadcast_spec(
                    before.take(i as int),
                    action@,
                ).0,
                cviews(self.components@).skip(i as int) == before.skip(i as int),
                self.bus.waiting() == waiting + broadcast_spec(before.take(i as int), action@).1,
                self.state == old(self).state,
                self.bindings == old(self).bindings,
                self.layout == old(self).layout,
                self.job == old(self).job,
            decreases n - i,
        {
            let ghost held = cviews(self.components@);
            let ghost queued = self.bus@;
            let emitted = self.components[i].update(action.clone());
            proof {
                let now = cviews(self.components@);
                assert(held[i as int] == before.skip(i as int)[0]);
                assert(before.take(i + 1).drop_last() =~= before.take(i as int));
                assert(before.take(i + 1).last() == before[i as int]);
                assert(now.take(i + 1) =~= held.take(i as int).push(now[i as int]));
                assert(now.skip(i + 1) =~= held.skip(i as int).drop_first());
                assert(before.skip(i + 1) =~= before.skip(i as int).drop_first());
            }
            match emitted {
                Some(said) => {
                    self.bus.send(said);
                    proof {
                        assert(views(queued.push(said)) =~= views(queued).push(said@));
                        let so_far = broadcast_spec(before.take(i as int), action@).1;
                        assert((waiting + so_far).push(said@) =~= waiting + so_far.push(said@));
                    }
                },
                None => {},
            }
            i += 1;
        }
        proof {
            assert(before.take(n as int) =~= before);
            assert(cviews(self.components@).take(n as int) =~= cviews(self.components@));
        }
    }

    /// Processes the action that has waited longest, and returns what the
    /// loop has to do for it; `None` where no action waits.
    ///
    /// A request to draw and a resize bring the layout up to date: with the
    /// size that the resize names, or else the size that the layout has,
    /// and with the visibility of the auxiliary panel and of the dialog.
    /// The layout is
    /// recomputed only where one of them changed, so that the same resize
    /// twice in a row yields the same regions both times. Resuming computes
    /// the layout anew in any case.
    pub fn step(&mut self) -> (r: Option<Effect>)
        ensures
            old(self)@.bus.len() == 0 ==> r is None && final(self)@ == old(self)@,
            old(self)@.bus.len() == 0 ==> final(self).engine() == old(self).engine(),
            old(self)@.bus.len() > 0 ==> r is Some && (final(self)@, r->0.kind()) == step_spec(
                old(self)@,
            ),
            r matches Some(Effect::Nothing) ==> final(self).engine() == old(self).engine(),
            r matches Some(Effect::CheckVersion) ==> final(self).engine() == old(self).engine(),
            r matches Some(Effect::Draw(l)) ==> {
                &&& final(self).drawn(l)
                &&& final(self).engine().spec_width() == (match old(self)@.bus[0] {
                    ActionView::Resize(w, _) => w,
                    _ => old(self).engine().spec_width(),
                })
                &&& final(self).engine().spec_height() == (match old(self)@.bus[0] {
                    ActionView::Resize(_, h) => h,
                    _ => old(self).engine().spec_height(),
                })
                &&& final(self).engine().same_key(old(self).engine()) ==> final(self).engine()
                    == old(self).engine()
            },
            r matches Some(Effect::Reacquire(l)) ==> {
                &&& final(self).drawn(l)
                &&& final(self).engine().spec_width() == old(self).engine().spec_width()
                &&& final(self).engine().spec_height() == old(self).engine().spec_height()
            },
    {
        let ghost before = self.bus@;
        let action = match self.bus.try_recv() {
            Some(action) => action,
            None => {
                assert(self.bus.waiting() =~= Seq::<ActionView>::empty());
                return None;
            },
        };
        proof {
            assert(views(before.drop_first()) =~= views(before).drop_first());
        }
        let kind = self.absorb(&action);
        self.broadcast(&action);
        let shown = self.aux_visible();
        let asking = self.dialog_visible();
        let effect = match kind {
            EffectKind::Nothing => Effect::Nothing,
            EffectKind::CheckVersion => Effect::CheckVersion,
            EffectKind::Draw => {
                match action {
                    Action::Resize(w, h) => {
                        self.layout.update(w, h, shown, asking);
                    },
                    _ => {
                        let w = self.layout.width();
                        let h = self.layout.height();
                        self.layout.update(w, h, shown, asking);
                    },
                }
                Effect::Draw(self.layout.assignment())
            },
            EffectKind::Reacquire => {
                let w = self.layout.width();
                let h = self.layout.height();
                self.layout.update(w, h, shown, asking);
                self.layout.recompute();
                Effect::Reacquire(self.layout.assignment())
            },
        };
        Some(effect)
    }

    /// Sets every component up for the region that it is assigned in the
    /// layout as it was last computed, and returns the identities of those
    /// whose region has no cell: of a component that is not the first of
    /// its identity, and of one whose slot has no cell in this frame. Such a component is passed over; the run
    /// goes on, and no component is changed.
    pub fn init_components(&mut self) -> (passed_over: Vec<ComponentId>)
        ensures
            final(self)@ == old(self)@,
            final(self).engine() == old(self).engine(),
            passed_over@ == without_room(
                old(self)@.components,
                old(self).engine().spec_assignment(),
                old(self)@.components.len() as int,
            ),
    {
        let layout = self.layout.assignment();
        let ghost before = cviews(self.components@);
        let mut passed_over: Vec<ComponentId> = Vec::new();
        let n = self.components.len();
        let mut i: usize = 0;
        while i < n
            invariant
                0 <= i <= n,
                n == self.components.len(),
                cviews(self.components@) == before,
                passed_over@ == without_room(before, layout, i as int),
                layout == self.layout.spec_assignment(),
                self.state == old(self).state,
                self.bindings == old(self).bindings,
                self.bus == old(self).bus,
                self.layout == old(self).layout,
                self.job == old(self).job,
            decreases n - i,
        {
            let id = self.components[i].id();
            let region = self.region_at(i);
            assert(region == region_at_spec(before, layout, i as int));
            assert(id == before[i as int].id());
            let outcome = self.components[i].init(region);
            assert(cviews(self.components@) =~= before);
            if outcome.is_err() {
                passed_over.push(id);
            }
            i += 1;
        }
        passed_over
    }

    /// Tells the loop how to go on once the bus is empty. A suspended run
    /// queues the action that resumes it.
    pub fn after_drain(&mut self) -> (control: Control)
        ensures
            (final(self)@, control) == after_drain_spec(old(self)@),
            final(self).engine() == old(self).engine(),
    {
        if self.state.should_quit {
            Control::Stop
        } else if self.state.should_suspend {
            self.send(Action::Resume);
            Control::Suspend
        } else {
            Control::Continue
        }
    }

    /// The state of the lifecycle.
    pub fn lifecycle(&self) -> (r: Lifecycle)
        ensures
            r == lifecycle_spec(self@),
    {
        if self.state.should_quit {
            Lifecycle::Terminating
        } else if self.state.should_suspend {
            Lifecycle::Suspended
        } else {
            Lifecycle::Running
        }
    }

    /// The state of the run.
    pub fn state(&self) -> (r: &AppState)
        ensures
            r.should_quit == self@.should_quit,
            r.should_suspend == self@.should_suspend,
            r.mode == self@.mode,
            r.pending_key_sequence@ == self@.pending,
    {
        &self.state
    }

    /// The components, in the order in which actions are delivered to them.
    pub fn components(&self) -> (r: &Vec<Component>)
        ensures
            r@ == self.held(),
            cviews(r@) == self@.components,
    {
        &self.components
    }

    /// The bus.
    pub fn bus(&self) -> (r: &ActionBus)
        ensures
            r.waiting() == self@.bus,
    {
        &self.bus
    }

    /// The key map.
    pub fn bindings(&self) -> (r: &KeyBindings)
        ensures
            r@ == self@.bindings,
    {
        &self.bindings
    }

    /// The next step of the running installation, if one runs.
    pub fn job(&self) -> (r: Option<u8>)
        ensures
            r == self@.job,
    {
        self.job
    }

    /// The number of actions that wait on the bus.
    pub fn waiting(&self) -> (n: usize)
        ensures
            n == self@.bus.len(),
    {
        self.bus.len()
    }

    /// The regions of the frame as they were last computed: a valid
    /// assignment for the usable part of the frame, whose slots partition
    /// that part.
    pub fn layout(&self) -> (l: LayoutAssignment)
        ensures
            self.engine().holds(l),
    {
        self.layout.assignment()
    }

    /// The region that the component at place `index` occupies in the frame
    /// as it was last computed: the region of its slot, if it is the first
    /// component of its identity; no cell otherwise, and past the last
    /// component. No region is handed to two components.
    pub fn region_at(&self, index: usize) -> (r: Rect)
        ensures
            r == region_at_spec(self@.components, self.engine().spec_assignment(), index as int),
    {
        if index < self.components.len() {
            let id = self.components[index].id();
            match self.find(id) {
                Some(first) => {
                    if first == index {
                        return self.layout.assignment().region(id.slot());
                    }
                },
                None => {},
            }
        }
        Rect { x: 0, y: 0, width: 0, height: 0 }
    }

    /// The region that the component with identity `id` occupies in the
    /// frame as it was last computed.
    pub fn region_of(&self, id: ComponentId) -> (r: crate::layout::Rect)
        ensures
            r == self.engine().spec_assignment().region_spec(id.slot_spec()),
    {
        self.layout.assignment().region(id.slot())
    }
}

} // verus!
