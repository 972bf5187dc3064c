//! The session state machine: the menu loop and its sub-dialogues.
//!
//! A session starts at the menu with an empty store. Each prompt reply is an
//! [`Event`]; [`Session::step`] consumes one event, moves to the next phase,
//! mutates the store where the dialogue completed, and reports what there is
//! to announce. The front end renders the prompt that the current [`Phase`]
//! names, performs the announcements, and stops at [`Phase::Done`].
//!
//! A reply of the wrong kind for the current prompt — which a front end that
//! prompts by phase never produces — counts as an empty reply.

use crate::menu::{menu_choice, MainMenu};
use crate::store::{Bill, Bills};
use vstd::prelude::*;

verus! {

/// A reply handed to the session: one line from the reader (`None` for an
/// empty line), or one outcome of the amount dialogue (`None` for a
/// cancelled one).
pub enum Event {
    Line(Option<String>),
    Amount(Option<u64>),
}

/// The mathematical value of an [`Event`].
pub enum EventView {
    Line(Option<Seq<char>>),
    Amount(Option<u64>),
}

impl View for Event {
    type V = EventView;

    open spec fn view(&self) -> EventView {
        match self {
            Event::Line(o) => EventView::Line(o.deep_view()),
            Event::Amount(o) => EventView::Amount(*o),
        }
    }
}

/// Where the session stands: which prompt its reply will answer.
pub enum Phase {
    /// At the menu, awaiting a selection token.
    Menu,
    /// Adding: awaiting the bill's name.
    AddName,
    /// Adding: awaiting the amount for the named bill.
    AddAmount(String),
    /// Removing: awaiting the name to remove.
    RemoveName,
    /// Updating: awaiting the name to update.
    UpdateName,
    /// Updating: awaiting the new amount for the named bill.
    UpdateAmount(String),
    /// The session has ended.
    Done,
}

/// The mathematical value of a [`Phase`].
pub enum PhaseView {
    Menu,
    AddName,
    AddAmount(Seq<char>),
    RemoveName,
    UpdateName,
    UpdateAmount(Seq<char>),
    Done,
}

impl View for Phase {
    type V = PhaseView;

    open spec fn view(&self) -> PhaseView {
        match self {
            Phase::Menu => PhaseView::Menu,
            Phase::AddName => PhaseView::AddName,
            Phase::AddAmount(n) => PhaseView::AddAmount(n@),
            Phase::RemoveName => PhaseView::RemoveName,
            Phase::UpdateName => PhaseView::UpdateName,
            Phase::UpdateAmount(n) => PhaseView::UpdateAmount(n@),
            Phase::Done => PhaseView::Done,
        }
    }
}

/// What a step may announce, for the front end to render.
#[derive(Clone, Copy, Debug, PartialEq, Eq)]
pub enum Notice {
    /// A bill was written.
    BillAdded,
    /// The current bills are to be shown.
    Listed,
    /// The named bill existed and was removed.
    BillRemoved,
    /// No bill carried the name to remove.
    BillNotRemoved,
    /// The named bill's amount was replaced.
    BillUpdated,
    /// No bill carried the name to update.
    BillNotFound,
}

/// The mathematical value of a [`Session`]: its store's mapping and its
/// phase.
pub struct SessionView {
    pub bills: Map<Seq<char>, u64>,
    pub phase: PhaseView,
}

/// The value of a fresh session: an empty store, at the menu.
pub open spec fn initial_view() -> SessionView {
    SessionView { bills: Map::<Seq<char>, u64>::empty(), phase: PhaseView::Menu }
}

/// One transition of the session: the state after consuming `ev` in state
/// `s`, with what it announces. An empty (or wrong-kind) reply ends the
/// session at the menu and aborts a dialogue back to the menu, never
/// touching the store; an unrecognized selection token ends the session.
pub open spec fn step_spec(s: SessionView, ev: EventView) -> (SessionView, Option<Notice>) {
    match s.phase {
        PhaseView::Menu => match ev {
            EventView::Line(Some(t)) => match menu_choice(t) {
                Some(MainMenu::AddBill) => (
                    SessionView { bills: s.bills, phase: PhaseView::AddName },
                    None,
                ),
                Some(MainMenu::ViewBills) => (
                    SessionView { bills: s.bills, phase: PhaseView::Menu },
                    Some(Notice::Listed),
                ),
                Some(MainMenu::RemoveBill) => (
                    SessionView { bills: s.bills, phase: PhaseView::RemoveName },
                    None,
                ),
                Some(MainMenu::UpdateBill) => (
                    SessionView { bills: s.bills, phase: PhaseView::UpdateName },
                    None,
                ),
                None => (SessionView { bills: s.bills, phase: PhaseView::Done }, None),
            },
            _ => (SessionView { bills: s.bills, phase: PhaseView::Done }, None),
        },
        PhaseView::AddName => match ev {
            EventView::Line(Some(t)) => (
                SessionView { bills: s.bills, phase: PhaseView::AddAmount(t) },
                None,
            ),
            _ => (SessionView { bills: s.bills, phase: PhaseView::Menu }, None),
        },
        PhaseView::AddAmount(n) => match ev {
            EventView::Amount(Some(a)) => (
                SessionView { bills: s.bills.insert(n, a), phase: PhaseView::Menu },
                Some(Notice::BillAdded),
            ),
            _ => (SessionView { bills: s.bills, phase: PhaseView::Menu }, None),
        },
        PhaseView::RemoveName => match ev {
            EventView::Line(Some(t)) => if s.bills.contains_key(t) {
                (
                    SessionView { bills: s.bills.remove(t), phase: PhaseView::Menu },
                    Some(Notice::BillRemoved),
                )
            } else {
                (
                    SessionView { bills: s.bills, phase: PhaseView::Menu },
                    Some(Notice::BillNotRemoved),
                )
            },
            _ => (SessionView { bills: s.bills, phase: PhaseView::Menu }, None),
        },
        PhaseView::UpdateName => match ev {
            EventView::Line(Some(t)) => (
                SessionView { bills: s.bills, phase: PhaseView::UpdateAmount(t) },
                None,
            ),
            _ => (SessionView { bills: s.bills, phase: PhaseView::Menu }, None),
        },
        PhaseView::UpdateAmount(n) => match ev {
            EventView::Amount(Some(a)) => if s.bills.contains_key(n) {
                (
                    SessionView { bills: s.bills.insert(n, a), phase: PhaseView::Menu },
                    Some(Notice::BillUpdated),
                )
            } else {
                (
                    SessionView { bills: s.bills, phase: PhaseView::Menu },
                    Some(Notice::BillNotFound),
                )
            },
            _ => (SessionView { bills: s.bills, phase: PhaseView::Menu }, None),
        },
        PhaseView::Done => (SessionView { bills: s.bills, phase: PhaseView::Done }, None),
    }
}

/// An interactive session over its store and phase.
pub struct Session {
    bills: Bills,
    phase: Phase,
}

impl View for Session {
    type V = SessionView;

    closed spec fn view(&self) -> SessionView {
        SessionView { bills: self.bills@, phase: self.phase@ }
    }
}

impl Session {
    /// Validity of the session: its store is valid.
    pub closed spec fn wf(&self) -> bool {
        self.bills.wf()
    }

    /// A fresh session: empty store, at the menu.
    pub fn new() -> (s: Session)
        ensures
            s.wf(),
            s@ == initial_view(),
    {
        Session { bills: Bills::new(), phase: Phase::Menu }
    }

    /// The current phase, which names the prompt to render next.
    pub fn phase(&self) -> (p: &Phase)
        ensures
            p@ == self@.phase,
    {
        &self.phase
    }

    /// The store, for rendering listings.
    pub fn bills(&self) -> (b: &Bills)
        requires
            self.wf(),
        ensures
            b.wf(),
            b@ == self@.bills,
    {
        &self.bills
    }

    /// Consume one reply: exactly the transition that [`step_spec`] gives.
    pub fn step(&mut self, ev: &Event) -> (notice: Option<Notice>)
        requires
            old(self).wf(),
        ensures
            final(self).wf(),
            (final(self)@, notice) == step_spec(old(self)@, ev@),
    {
        let mut ph = Phase::Menu;
        core::mem::swap(&mut ph, &mut self.phase);
        match (ph, ev) {
            (Phase::Menu, Event::Line(opt)) => match opt {
                Some(t) => match MainMenu::from_str(t.as_str()) {
                    Some(MainMenu::AddBill) => {
                        self.phase = Phase::AddName;
                        None
                    },
                    Some(MainMenu::ViewBills) => {
                        self.phase = Phase::Menu;
                        Some(Notice::Listed)
                    },
                    Some(MainMenu::RemoveBill) => {
                        self.phase = Phase::RemoveName;
                        None
                    },
                    Some(MainMenu::UpdateBill) => {
                        self.phase = Phase::UpdateName;
                        None
                    },
                    None => {
                        self.phase = Phase::Done;
                        None
                    },
                },
                None => {
                    self.phase = Phase::Done;
                    None
                },
            },
            (Phase::Menu, Event::Amount(_)) => {
                self.phase = Phase::Done;
                None
            },
            (Phase::AddName, Event::Line(Some(t))) => {
                self.phase = Phase::AddAmount(t.clone());
                None
            },
            (Phase::AddName, _) => {
                self.phase = Phase::Menu;
                None
            },
            (Phase::AddAmount(n), Event::Amount(Some(a))) => {
                self.bills.add(Bill { name: n, amount: *a });
                self.phase = Phase::Menu;
                Some(Notice::BillAdded)
            },
            (Phase::AddAmount(_), _) => {
                self.phase = Phase::Menu;
                None
            },
            (Phase::RemoveName, Event::Line(Some(t))) => {
                let removed = self.bills.remove(t.as_str());
                self.phase = Phase::Menu;
                if removed {
                    Some(Notice::BillRemoved)
                } else {
                    Some(Notice::BillNotRemoved)
                }
            },
            (Phase::RemoveName, _) => {
                self.phase = Phase::Menu;
                None
            },
            (Phase::UpdateName, Event::Line(Some(t))) => {
                self.phase = Phase::UpdateAmount(t.clone());
                None
            },
            (Phase::UpdateName, _) => {
                self.phase = Phase::Menu;
                None
            },
            (Phase::UpdateAmount(n), Event::Amount(Some(a))) => {
                let updated = self.bills.update(n.as_str(), *a);
                self.phase = Phase::Menu;
                if updated {
                    Some(Notice::BillUpdated)
                } else {
                    Some(Notice::BillNotFound)
                }
            },
            (Phase::UpdateAmount(_), _) => {
                self.phase = Phase::Menu;
                None
            },
            (Phase::Done, _) => {
                self.phase = Phase::Done;
                None
            },
        }
    }
}

/// The values of a sequence of events.
pub open spec fn event_views(evs: Seq<Event>) -> Seq<EventView> {
    evs.map_values(|e: Event| e@)
}

/// The state after a session consumes the events `evs` from state `s`, one
/// [`step_spec`] transition each. The ended session absorbs what remains.
pub open spec fn run_spec(s: SessionView, evs: Seq<EventView>) -> SessionView
    decreases evs.len(),
{
    if evs.len() == 0 {
        s
    } else {
        run_spec(step_spec(s, evs[0]).0, evs.drop_first())
    }
}

/// An empty reply — at whichever prompt, the menu's included — is a
/// cancellation: it announces nothing and leaves the store exactly as it
/// was. A reply of the wrong kind counts the same.
pub open spec fn is_cancellation(ev: EventView) -> bool {
    ev == EventView::Line(None::<Seq<char>>) || ev == EventView::Amount(None::<u64>)
}

/// Law: a cancellation never changes the store and never announces.
pub proof fn lemma_cancellation_preserves_store(s: SessionView, ev: EventView)
    requires
        is_cancellation(ev),
    ensures
        step_spec(s, ev).0.bills == s.bills,
        step_spec(s, ev).1 == None::<Notice>,
{
}

/// Run a whole session over a script of replies, starting from an empty
/// store at the menu: the store that remains is the one that [`run_spec`]
/// folds the script to. Replies after the session has ended change nothing.
pub fn run_program(events: Vec<Event>) -> (bills: Bills)
    ensures
        bills.wf(),
        bills@ == run_spec(initial_view(), event_views(events@)).bills,
{
    let mut session = Session::new();
    let mut i: usize = 0;
    proof {
        assert(event_views(events@).skip(0) =~= event_views(events@));
    }
    while i < events.len()
        invariant
            i <= events@.len(),
            session.wf(),
            run_spec(initial_view(), event_views(events@)) == run_spec(
                session@,
                event_views(events@).skip(i as int),
            ),
        decreases events@.len() - i,
    {
        let ghost pre = session@;
        let ghost evs = event_views(events@).skip(i as int);
        let _ = session.step(&events[i]);
        proof {
            assert(evs.len() > 0);
            assert(evs[0] == events@[i as int]@);
            assert(evs.drop_first() =~= event_views(events@).skip(i as int + 1));
        }
        i += 1;
    }
    proof {
        assert(event_views(events@).skip(i as int) =~= Seq::<EventView>::empty());
    }
    session.bills
}

} // verus!
