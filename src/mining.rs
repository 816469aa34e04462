//! The extraction/sell loop as a state machine.
//!
//! The loop keeps one ship mining: it extracts, waits out the cooldowns the
//! game service reports, checks the hold after each successful extraction,
//! and once the hold is full docks and sells every unreserved slot whole.
//! The machine decides; the caller performs each action it returns and
//! hands the result back as the next event.

use vstd::prelude::*;
use crate::cargo::{Cargo, ReservedGoods, SellOrder, orders_view, plan_orders, sell_plan};
use crate::extraction::ExtractionOutcome;

verus! {

/// Where the loop stands.
#[derive(Debug, PartialEq, Eq, Structural, Clone, Copy)]
pub enum Phase {
    /// An extraction command is outstanding.
    Extracting,
    /// The loop is suspended for a cooldown.
    CoolingDown,
    /// The hold is being fetched.
    CheckingCargo,
    /// A dock command is outstanding.
    Docking,
    /// A sale is outstanding.
    Selling,
}

/// What the caller reports back after performing an action.
#[derive(Debug)]
pub enum Event {
    /// The extraction command came back with this outcome.
    Extraction(ExtractionOutcome),
    /// The requested suspension is over.
    CooldownElapsed,
    /// The hold as fetched.
    CargoFetched(Cargo),
    /// The dock command was sent.
    Docked,
    /// The sale was sent.
    Sold,
}

/// What the caller must do next.
#[derive(Debug)]
pub enum Action {
    /// Send an extraction command.
    Extract,
    /// Suspend for this many seconds.
    Sleep(u64),
    /// Fetch the hold.
    FetchCargo,
    /// Dock the ship.
    Dock,
    /// Sell these units of this good.
    Sell(SellOrder),
}

/// The loop's state: its phase, its policy, and while docking or selling
/// the sales still owed, of which the first `next` have been issued.
#[derive(Debug)]
pub struct MiningLoop {
    pub phase: Phase,
    pub reserved: ReservedGoods,
    pub orders: Vec<SellOrder>,
    pub next: usize,
}

/// The abstract state of the loop: its phase, the sales of the current sell
/// phase, and how many of them have been issued.
pub type LoopState = (Phase, Seq<SellOrder>, int);

/// The state of a loop about to extract, with no sales held.
pub open spec fn idle() -> LoopState {
    (Phase::Extracting, Seq::<SellOrder>::empty(), 0)
}

/// One transition of the loop: from state `s`, under `reserved`, the event
/// `e` leads to the returned state and action.
pub open spec fn transition(s: LoopState, reserved: ReservedGoods, e: Event) -> (LoopState, Action) {
    match e {
        Event::Extraction(ExtractionOutcome::Extracted) => (
            (Phase::CheckingCargo, s.1, s.2),
            Action::FetchCargo,
        ),
        Event::Extraction(ExtractionOutcome::Throttled { seconds }) => if seconds > 0 {
            ((Phase::CoolingDown, s.1, s.2), Action::Sleep(seconds))
        } else {
            (s, Action::Extract)
        },
        Event::Extraction(ExtractionOutcome::Failed { .. }) => (s, Action::Extract),
        Event::CooldownElapsed => (idle(), Action::Extract),
        Event::CargoFetched(c) => if c.full() {
            ((Phase::Docking, plan_orders(c.inventory@, reserved), 0), Action::Dock)
        } else {
            (idle(), Action::Extract)
        },
        Event::Docked | Event::Sold => if s.2 < s.1.len() {
            ((Phase::Selling, s.1, s.2 + 1), Action::Sell(s.1[s.2]))
        } else {
            (idle(), Action::Extract)
        },
    }
}

/// The loop run over a sequence of events: the final state and the actions
/// returned, one per event.
pub open spec fn run(s: LoopState, reserved: ReservedGoods, events: Seq<Event>) -> (
    LoopState,
    Seq<Action>,
)
    decreases events.len(),
{
    if events.len() == 0 {
        (s, seq![])
    } else {
        let (s1, a) = transition(s, reserved, events[0]);
        let (s2, rest) = run(s1, reserved, events.drop_first());
        (s2, seq![a] + rest)
    }
}

proof fn lemma_run_cons(s: LoopState, reserved: ReservedGoods, e: Event, events: Seq<Event>)
    ensures
        run(s, reserved, seq![e] + events) == ({
            let (s1, a) = transition(s, reserved, e);
            let (s2, rest) = run(s1, reserved, events);
            (s2, seq![a] + rest)
        }),
{
    assert((seq![e] + events).drop_first() =~= events);
}

/// `n` reports of a finished sale.
pub open spec fn sold_events(n: nat) -> Seq<Event> {
    Seq::new(n, |i: int| Event::Sold)
}

/// One sale action per order, in order.
pub open spec fn sell_actions(orders: Seq<SellOrder>) -> Seq<Action> {
    orders.map_values(|o: SellOrder| Action::Sell(o))
}

proof fn lemma_selling_run(p: Phase, plan: Seq<SellOrder>, k: int, reserved: ReservedGoods)
    requires
        0 <= k <= plan.len(),
    ensures
        run((p, plan, k), reserved, sold_events((plan.len() - k + 1) as nat)) == (
            idle(),
            sell_actions(plan.subrange(k, plan.len() as int)) + seq![Action::Extract],
        ),
    decreases plan.len() - k,
{
    let n = (plan.len() - k + 1) as nat;
    let events = sold_events(n);
    assert(events =~= seq![Event::Sold] + sold_events((n - 1) as nat));
    lemma_run_cons((p, plan, k), reserved, Event::Sold, sold_events((n - 1) as nat));
    if k < plan.len() {
        lemma_selling_run(Phase::Selling, plan, k + 1, reserved);
        assert(sell_actions(plan.subrange(k, plan.len() as int)) =~= seq![Action::Sell(plan[k])]
            + sell_actions(plan.subrange(k + 1, plan.len() as int)));
        assert(seq![Action::Sell(plan[k])] + (sell_actions(plan.subrange(k + 1, plan.len() as int))
            + seq![Action::Extract]) =~= sell_actions(plan.subrange(k, plan.len() as int))
            + seq![Action::Extract]);
    } else {
        assert(sold_events(0) =~= Seq::<Event>::empty());
        assert(sell_actions(plan.subrange(k, plan.len() as int)) =~= Seq::<Action>::empty());
        assert(seq![Action::Extract] + Seq::<Action>::empty() =~= Seq::<Action>::empty()
            + seq![Action::Extract]);
    }
}

/// Three successful extractions whose holds are not full, not full, and
/// full: the loop checks the hold after each, docks exactly once after the
/// third, sells each order of the full hold's plan exactly once and in
/// order, and then extracts again, back in its initial state. No suspension
/// and no other dock or sale occurs.
pub proof fn lemma_three_cycles(c1: Cargo, c2: Cargo, c3: Cargo, reserved: ReservedGoods)
    requires
        !c1.full(),
        !c2.full(),
        c3.full(),
    ensures
        ({
            let plan = plan_orders(c3.inventory@, reserved);
            let events = seq![
                Event::Extraction(ExtractionOutcome::Extracted),
                Event::CargoFetched(c1),
                Event::Extraction(ExtractionOutcome::Extracted),
                Event::CargoFetched(c2),
                Event::Extraction(ExtractionOutcome::Extracted),
                Event::CargoFetched(c3),
                Event::Docked,
            ] + sold_events(plan.len());
            run(idle(), reserved, events) == (
                idle(),
                seq![
                    Action::FetchCargo,
                    Action::Extract,
                    Action::FetchCargo,
                    Action::Extract,
                    Action::FetchCargo,
                    Action::Dock,
                ] + sell_actions(plan) + seq![Action::Extract],
            )
        }),
{
    let plan = plan_orders(c3.inventory@, reserved);
    let x = Event::Extraction(ExtractionOutcome::Extracted);
    let tail0 = sold_events(plan.len());
    let tail1 = seq![Event::Docked] + tail0;
    let tail2 = seq![Event::CargoFetched(c3)] + tail1;
    let tail3 = seq![x] + tail2;
    let tail4 = seq![Event::CargoFetched(c2)] + tail3;
    let tail5 = seq![x] + tail4;
    let tail6 = seq![Event::CargoFetched(c1)] + tail5;
    let events = seq![x] + tail6;
    assert(events =~= seq![
        Event::Extraction(ExtractionOutcome::Extracted),
        Event::CargoFetched(c1),
        Event::Extraction(ExtractionOutcome::Extracted),
        Event::CargoFetched(c2),
        Event::Extraction(ExtractionOutcome::Extracted),
        Event::CargoFetched(c3),
        Event::Docked,
    ] + tail0);
    let checking = (Phase::CheckingCargo, Seq::<SellOrder>::empty(), 0int);
    let docking = (Phase::Docking, plan, 0int);
    lemma_run_cons(idle(), reserved, x, tail6);
    lemma_run_cons(checking, reserved, Event::CargoFetched(c1), tail5);
    lemma_run_cons(idle(), reserved, x, tail4);
    lemma_run_cons(checking, reserved, Event::CargoFetched(c2), tail3);
    lemma_run_cons(idle(), reserved, x, tail2);
    lemma_run_cons(checking, reserved, Event::CargoFetched(c3), tail1);
    lemma_run_cons(docking, reserved, Event::Docked, tail0);
    let sells = run(docking, reserved, tail1).1;
    if plan.len() > 0 {
        lemma_selling_run(Phase::Selling, plan, 1, reserved);
        assert(plan.subrange(1, plan.len() as int) =~= plan.drop_first());
        assert(sell_actions(plan) =~= seq![Action::Sell(plan[0])] + sell_actions(plan.drop_first()));
        assert(sells =~= sell_actions(plan) + seq![Action::Extract]);
    } else {
        assert(tail0 =~= Seq::<Event>::empty());
        assert(sell_actions(plan) =~= Seq::<Action>::empty());
        assert(sells =~= sell_actions(plan) + seq![Action::Extract]);
    }
    assert(run(idle(), reserved, events).1 =~= seq![
        Action::FetchCargo,
        Action::Extract,
        Action::FetchCargo,
        Action::Extract,
        Action::FetchCargo,
        Action::Dock,
    ] + sell_actions(plan) + seq![Action::Extract]);
}

impl MiningLoop {
    /// The loop's abstract state.
    pub open spec fn state(&self) -> LoopState {
        (self.phase, self.orders@, self.next as int)
    }

    /// The sales of the current sell phase.
    pub open spec fn pending(&self) -> Seq<(Seq<char>, u32)> {
        orders_view(self.orders@)
    }

    /// The state's invariant: sales are held only while docking or
    /// selling, and while selling at least one has been issued.
    pub open spec fn wf(&self) -> bool {
        &&& (self.phase == Phase::Selling ==> 0 < self.next <= self.orders@.len())
        &&& (self.phase != Phase::Selling ==> self.next == 0)
        &&& (self.phase != Phase::Docking && self.phase != Phase::Selling) ==> self.orders@.len() == 0
    }

    /// The one kind of event that each phase waits for.
    pub open spec fn accepts(&self, e: Event) -> bool {
        match self.phase {
            Phase::Extracting => e is Extraction,
            Phase::CoolingDown => e is CooldownElapsed,
            Phase::CheckingCargo => e is CargoFetched,
            Phase::Docking => e is Docked,
            Phase::Selling => e is Sold,
        }
    }

    /// A loop about to extract, selling under `reserved`. Its first action
    /// is `Action::Extract`.
    pub fn new(reserved: ReservedGoods) -> (r: MiningLoop)
        ensures
            r.wf(),
            r.phase == Phase::Extracting,
            r.reserved == reserved,
    {
        MiningLoop { phase: Phase::Extracting, reserved, orders: Vec::new(), next: 0 }
    }

    /// Whether `e` is the event the current phase waits for.
    pub fn accepts_event(&self, e: &Event) -> (r: bool)
        ensures
            r == self.accepts(*e),
    {
        match self.phase {
            Phase::Extracting => matches!(e, Event::Extraction(_)),
            Phase::CoolingDown => matches!(e, Event::CooldownElapsed),
            Phase::CheckingCargo => matches!(e, Event::CargoFetched(_)),
            Phase::Docking => matches!(e, Event::Docked),
            Phase::Selling => matches!(e, Event::Sold),
        }
    }

    fn resume_extraction(&mut self) -> (action: Action)
        ensures
            final(self).phase == Phase::Extracting,
            final(self).state() == idle(),
            final(self).reserved == old(self).reserved,
            action == Action::Extract,
    {
        self.phase = Phase::Extracting;
        self.orders = Vec::new();
        self.next = 0;
        Action::Extract
    }

    /// Takes the result of the last action and returns the next one.
    ///
    /// A successful extraction leads to a cargo check; a cooldown of `s > 0`
    /// seconds to a suspension of exactly `s` seconds and then a new
    /// extraction; a zero cooldown or any other failure to an immediate new
    /// extraction. A hold whose units equal its capacity leads to one dock
    /// and then one sale per unreserved slot, in inventory order; any other
    /// hold back to extracting.
    pub fn step(&mut self, event: Event) -> (action: Action)
        requires
            old(self).wf(),
            old(self).accepts(event),
        ensures
            final(self).wf(),
            final(self).reserved == old(self).reserved,
            (final(self).state(), action) == transition(old(self).state(), old(self).reserved, event),
            event matches Event::Extraction(ExtractionOutcome::Extracted) ==> final(self).phase
                == Phase::CheckingCargo && action == Action::FetchCargo,
            event matches Event::Extraction(ExtractionOutcome::Throttled { seconds }) ==> if seconds
                > 0 {
                final(self).phase == Phase::CoolingDown && action == Action::Sleep(seconds)
            } else {
                final(self).phase == Phase::Extracting && action == Action::Extract
            },
            event matches Event::Extraction(ExtractionOutcome::Failed { .. }) ==> final(self).phase
                == Phase::Extracting && action == Action::Extract,
            event is CooldownElapsed ==> final(self).phase == Phase::Extracting && action
                == Action::Extract,
            event matches Event::CargoFetched(c) ==> if c.full() {
                &&& final(self).phase == Phase::Docking
                &&& final(self).pending() == sell_plan(c.inventory@, old(self).reserved)
                &&& action == Action::Dock
            } else {
                final(self).phase == Phase::Extracting && action == Action::Extract
            },
            event is Docked ==> if old(self).orders@.len() > 0 {
                &&& final(self).phase == Phase::Selling
                &&& final(self).pending() == old(self).pending()
                &&& final(self).next == 1
                &&& action == Action::Sell(old(self).orders@[0])
            } else {
                final(self).phase == Phase::Extracting && action == Action::Extract
            },
            event is Sold ==> if old(self).next < old(self).orders@.len() {
                &&& final(self).phase == Phase::Selling
                &&& final(self).pending() == old(self).pending()
                &&& final(self).next == old(self).next + 1
                &&& action == Action::Sell(old(self).orders@[old(self).next as int])
            } else {
                final(self).phase == Phase::Extracting && action == Action::Extract
            },
    {
        match event {
            Event::Extraction(outcome) => match outcome {
                ExtractionOutcome::Extracted => {
                    self.phase = Phase::CheckingCargo;
                    Action::FetchCargo
                },
                ExtractionOutcome::Throttled { seconds } => {
                    if seconds > 0 {
                        self.phase = Phase::CoolingDown;
                        Action::Sleep(seconds)
                    } else {
                        Action::Extract
                    }
                },
                ExtractionOutcome::Failed { .. } => Action::Extract,
            },
            Event::CooldownElapsed => self.resume_extraction(),
            Event::CargoFetched(cargo) => {
                if cargo.is_full() {
                    self.orders = cargo.sell_orders(&self.reserved);
                    self.next = 0;
                    self.phase = Phase::Docking;
                    Action::Dock
                } else {
                    self.resume_extraction()
                }
            },
            Event::Docked | Event::Sold => {
                if self.next < self.orders.len() {
                    let order = self.orders[self.next].duplicate();
                    self.next = self.next + 1;
                    self.phase = Phase::Selling;
                    Action::Sell(order)
                } else {
                    self.resume_extraction()
                }
            },
        }
    }
}

/// While a cooldown runs the loop waits for nothing but its end: no dock,
/// sale, cargo check or extraction is taken until the suspension is over.
pub proof fn lemma_cooldown_admits_only_its_end(m: MiningLoop, e: Event)
    requires
        m.wf(),
        m.phase == Phase::CoolingDown,
        m.accepts(e),
    ensures
        e is CooldownElapsed,
{
}

} // verus!
