//! Cargo snapshots, the reserved-goods policy, and the sell plan drawn from a
//! full hold.

use vstd::prelude::*;
use vstd::string::*;

verus! {

/// One cargo slot category of a ship at fetch time.
#[derive(Debug)]
pub struct CargoObject {
    pub description: String,
    pub name: String,
    pub symbol: String,
    pub units: u32,
}

/// A ship's cargo hold as fetched from the game service.
#[derive(Debug)]
pub struct Cargo {
    pub capacity: u32,
    pub inventory: Vec<CargoObject>,
}

/// The envelope in which the game service returns a cargo hold.
#[derive(Debug)]
pub struct GetCargoResponse {
    pub data: Cargo,
}

/// Sum of the units held over a sequence of cargo slots.
pub open spec fn units_sum(inv: Seq<CargoObject>) -> int
    decreases inv.len(),
{
    if inv.len() == 0 {
        0
    } else {
        units_sum(inv.drop_last()) + inv.last().units
    }
}

/// A prefix of the inventory never holds more units than the whole.
pub proof fn lemma_prefix_sum_le(inv: Seq<CargoObject>, i: int)
    requires
        0 <= i <= inv.len(),
    ensures
        0 <= units_sum(inv.take(i)) <= units_sum(inv),
    decreases inv.len(),
{
    if inv.len() > 0 {
        if i == inv.len() {
            assert(inv.take(i) =~= inv);
            lemma_prefix_sum_le(inv.drop_last(), i - 1);
            assert(inv.drop_last().take(i - 1) =~= inv.drop_last());
        } else {
            lemma_prefix_sum_le(inv.drop_last(), i);
            assert(inv.drop_last().take(i) =~= inv.take(i));
        }
    }
}

proof fn lemma_take_step(inv: Seq<CargoObject>, i: int)
    requires
        0 <= i < inv.len(),
    ensures
        units_sum(inv.take(i + 1)) == units_sum(inv.take(i)) + inv[i].units,
{
    assert(inv.take(i + 1).drop_last() =~= inv.take(i));
}

impl Cargo {
    /// Total units held.
    pub open spec fn total(&self) -> int {
        units_sum(self.inventory@)
    }

    /// The hold's invariant: never more units than its capacity.
    pub open spec fn within_capacity(&self) -> bool {
        self.total() <= self.capacity
    }

    /// The hold is full when the units held equal the capacity exactly.
    pub open spec fn full(&self) -> bool {
        self.total() == self.capacity
    }

    /// Walks the inventory; `Some(total)` while the running sum stays within
    /// capacity, `None` as soon as it exceeds it.
    fn bounded_total(&self) -> (r: Option<u32>)
        ensures
            r is Some <==> self.within_capacity(),
            r matches Some(t) ==> t == self.total(),
    {
        let mut acc: u64 = 0;
        let mut i: usize = 0;
        while i < self.inventory.len()
            invariant
                0 <= i <= self.inventory@.len(),
                acc == units_sum(self.inventory@.take(i as int)),
                acc <= self.capacity,
            decreases self.inventory@.len() - i,
        {
            proof {
                lemma_take_step(self.inventory@, i as int);
            }
            acc = acc + self.inventory[i].units as u64;
            i = i + 1;
            if acc > self.capacity as u64 {
                proof {
                    lemma_prefix_sum_le(self.inventory@, i as int);
                }
                return None;
            }
        }
        assert(self.inventory@.take(i as int) =~= self.inventory@);
        Some(acc as u32)
    }

    /// Whether the snapshot keeps the hold's invariant.
    pub fn is_within_capacity(&self) -> (r: bool)
        ensures
            r == self.within_capacity(),
    {
        self.bounded_total().is_some()
    }

    /// Total units held, for a snapshot that keeps the invariant.
    pub fn total_units(&self) -> (r: u32)
        requires
            self.within_capacity(),
        ensures
            r == self.total(),
    {
        match self.bounded_total() {
            Some(t) => t,
            None => 0,
        }
    }

    /// Whether the hold is full: units held equal capacity exactly.
    pub fn is_full(&self) -> (r: bool)
        ensures
            r == self.full(),
    {
        match self.bounded_total() {
            Some(t) => t == self.capacity,
            None => false,
        }
    }
}


/// A sale of one good: its symbol and how many units to sell.
#[derive(Debug)]
pub struct SellOrder {
    pub symbol: String,
    pub units: u32,
}

impl SellOrder {
    pub open spec fn view(&self) -> (Seq<char>, u32) {
        (self.symbol@, self.units)
    }

    /// A field-by-field copy.
    pub fn duplicate(&self) -> (r: SellOrder)
        ensures
            r == *self,
    {
        SellOrder { symbol: self.symbol.clone(), units: self.units }
    }
}

/// The goods that must never be sold automatically.
#[derive(Debug)]
pub struct ReservedGoods {
    pub symbols: Vec<String>,
}

/// The symbol of the one good that the standard policy keeps aboard.
pub open spec fn kept_ore() -> Seq<char> {
    "COPPER_ORE"@
}

impl ReservedGoods {
    /// Whether `s` is one of the reserved symbols.
    pub open spec fn reserves(&self, s: Seq<char>) -> bool {
        exists|i: int| 0 <= i < self.symbols@.len() && #[trigger] self.symbols@[i]@ == s
    }

    /// A policy reserving exactly the given symbols.
    pub fn new(symbols: Vec<String>) -> (r: ReservedGoods)
        ensures
            r.symbols@ == symbols@,
    {
        ReservedGoods { symbols }
    }

    /// The standard policy: copper ore is kept, everything else is sold.
    pub fn standard() -> (r: ReservedGoods)
        ensures
            forall|s: Seq<char>| r.reserves(s) <==> s == kept_ore(),
    {
        let mut symbols: Vec<String> = Vec::new();
        symbols.push(String::from_str("COPPER_ORE"));
        let r = ReservedGoods { symbols };
        assert(r.reserves(kept_ore())) by {
            reveal_strlit("COPPER_ORE");
            assert(r.symbols@[0]@ == kept_ore());
        }
        r
    }

    /// Whether `symbol` is reserved.
    pub fn contains(&self, symbol: &String) -> (r: bool)
        ensures
            r == self.reserves(symbol@),
    {
        let mut i: usize = 0;
        while i < self.symbols.len()
            invariant
                0 <= i <= self.symbols@.len(),
                forall|j: int| 0 <= j < i ==> self.symbols@[j]@ != symbol@,
            decreases self.symbols@.len() - i,
        {
            if self.symbols[i] == *symbol {
                return true;
            }
            i = i + 1;
        }
        false
    }
}

/// The sales owed for an inventory: one per slot whose symbol is not
/// reserved, selling all of its units, in inventory order.
pub open spec fn sell_plan(inv: Seq<CargoObject>, reserved: ReservedGoods) -> Seq<(Seq<char>, u32)>
    decreases inv.len(),
{
    if inv.len() == 0 {
        seq![]
    } else {
        let rest = sell_plan(inv.drop_last(), reserved);
        let c = inv.last();
        if reserved.reserves(c.symbol@) {
            rest
        } else {
            rest.push((c.symbol@, c.units))
        }
    }
}

/// The sell plan as orders: one per slot whose symbol is not reserved,
/// carrying the slot's symbol and all its units, in inventory order.
pub open spec fn plan_orders(inv: Seq<CargoObject>, reserved: ReservedGoods) -> Seq<SellOrder>
    decreases inv.len(),
{
    if inv.len() == 0 {
        seq![]
    } else {
        let rest = plan_orders(inv.drop_last(), reserved);
        let c = inv.last();
        if reserved.reserves(c.symbol@) {
            rest
        } else {
            rest.push(SellOrder { symbol: c.symbol, units: c.units })
        }
    }
}

/// The orders of the plan have the plan's symbols and units.
pub proof fn lemma_plan_orders_view(inv: Seq<CargoObject>, reserved: ReservedGoods)
    ensures
        orders_view(plan_orders(inv, reserved)) == sell_plan(inv, reserved),
    decreases inv.len(),
{
    if inv.len() > 0 {
        lemma_plan_orders_view(inv.drop_last(), reserved);
        let rest = plan_orders(inv.drop_last(), reserved);
        let c = inv.last();
        if !reserved.reserves(c.symbol@) {
            assert(orders_view(rest.push(SellOrder { symbol: c.symbol, units: c.units }))
                =~= orders_view(rest).push((c.symbol@, c.units)));
        }
    }
}

/// The abstract value of a list of sell orders.
pub open spec fn orders_view(orders: Seq<SellOrder>) -> Seq<(Seq<char>, u32)> {
    orders.map_values(|o: SellOrder| o.view())
}

/// The sell plan sells nothing reserved, and sells every unreserved slot
/// whole: each slot that is not reserved appears in the plan with all its
/// units, and every entry of the plan comes from such a slot.
pub proof fn lemma_sell_plan_exact(inv: Seq<CargoObject>, reserved: ReservedGoods)
    ensures
        forall|k: int|
            0 <= k < sell_plan(inv, reserved).len() ==> !reserved.reserves(
                (#[trigger] sell_plan(inv, reserved)[k]).0,
            ),
        forall|k: int|
            0 <= k < sell_plan(inv, reserved).len() ==> exists|j: int|
                0 <= j < inv.len() && (#[trigger] sell_plan(inv, reserved)[k]) == (
                inv[j].symbol@,
                inv[j].units,
            ),
        forall|j: int|
            0 <= j < inv.len() && !reserved.reserves(#[trigger] inv[j].symbol@) ==> sell_plan(
                inv,
                reserved,
            ).contains((inv[j].symbol@, inv[j].units)),
    decreases inv.len(),
{
    if inv.len() > 0 {
        let pre = inv.drop_last();
        lemma_sell_plan_exact(pre, reserved);
        let rest = sell_plan(pre, reserved);
        let plan = sell_plan(inv, reserved);
        assert forall|k: int| 0 <= k < plan.len() implies exists|j: int|
            0 <= j < inv.len() && #[trigger] plan[k] == (inv[j].symbol@, inv[j].units) by {
            if k < rest.len() {
                assert(plan[k] == rest[k]);
                let j = choose|j: int| 0 <= j < pre.len() && rest[k] == (pre[j].symbol@, pre[j].units);
                assert(inv[j] == pre[j]);
            } else {
                assert(plan[k] == (inv[inv.len() - 1].symbol@, inv[inv.len() - 1].units));
            }
        }
        assert forall|j: int| 0 <= j < inv.len() && !reserved.reserves(#[trigger] inv[j].symbol@)
            implies plan.contains((inv[j].symbol@, inv[j].units)) by {
            if j < pre.len() {
                assert(inv[j] == pre[j]);
                let k = choose|k: int| 0 <= k < rest.len() && rest[k] == (pre[j].symbol@, pre[j].units);
                assert(plan[k] == rest[k]);
            } else {
                assert(plan[plan.len() - 1] == (inv[j].symbol@, inv[j].units));
            }
        }
    }
}

impl Cargo {
    /// The sales to make from this hold under `reserved`: every slot that
    /// is not reserved, sold whole, in inventory order.
    pub fn sell_orders(&self, reserved: &ReservedGoods) -> (r: Vec<SellOrder>)
        ensures
            r@ == plan_orders(self.inventory@, *reserved),
            orders_view(r@) == sell_plan(self.inventory@, *reserved),
    {
        let mut out: Vec<SellOrder> = Vec::new();
        let mut i: usize = 0;
        while i < self.inventory.len()
            invariant
                0 <= i <= self.inventory@.len(),
                out@ == plan_orders(self.inventory@.take(i as int), *reserved),
            decreases self.inventory@.len() - i,
        {
            let c = &self.inventory[i];
            proof {
                assert(self.inventory@.take(i + 1).drop_last() =~= self.inventory@.take(i as int));
            }
            if !reserved.contains(&c.symbol) {
                let o = SellOrder { symbol: c.symbol.clone(), units: c.units };
                out.push(o);
            }
            i = i + 1;
        }
        assert(self.inventory@.take(i as int) =~= self.inventory@);
        proof {
            lemma_plan_orders_view(self.inventory@, *reserved);
        }
        out
    }
}

} // verus!
