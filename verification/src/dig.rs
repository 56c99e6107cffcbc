//! The extraction simulation: the capability interfaces of the three record
//! types taking part in a dig, the derived tool metrics, and `try_dig`
//! itself.
//!
//! A tool's effective price and efficiency are pure functions of its catalog
//! entry and its condition, computed on every read and never stored. A dig
//! wears the tool and the worker by one point each (floored at 0), extracts
//! at most 1% of the deposit scaled by the two efficiency multipliers, and
//! never extracts more than the deposit holds. The wear comes first: the tool
//! is degraded and persisted, and the yield is then computed from the
//! condition the tool is left with.
//!
//! `try_dig` takes the whole store by `&mut` for its full duration, so the
//! tool, worker and resource writes of one dig form a single critical
//! section: two digs can never interleave, and a lost update cannot occur.

use crate::db::{
    DataBase, Master, ResourcesAsTable, ToolAsTable, ToolMasterAsTable, WorkerAsTable,
};
use crate::records::{Gold, Resource, Tool, ToolBody, ToolMaster, WorkStats, Worker};
use crate::table::{has_key, key_at, lemma_key_at, spec_find};
use vstd::prelude::*;

verus! {

/// A catalog field scaled by a condition percentage: `value * attrition /
/// 100`, saturating at `u32::MAX` (the product only exceeds it for a
/// condition above 100 points).
pub open spec fn spec_scaled(value: u32, attrition: u32) -> u32 {
    if value * attrition / 100 > u32::MAX {
        u32::MAX
    } else {
        (value * attrition / 100) as u32
    }
}

/// The effective efficiency of a tool at condition `attrition` whose catalog
/// entry is `entry`: the catalog efficiency scaled by the condition. A tool
/// with no catalog entry works as a bare generic tool, at efficiency 1.
pub open spec fn spec_effective_efficiency(entry: Option<ToolMaster>, attrition: u32) -> u32 {
    match entry {
        Some(m) => spec_scaled(m.efficiency, attrition),
        None => 1,
    }
}

/// The effective price of a tool at condition `attrition` whose catalog entry
/// is `entry`: the catalog price scaled by the condition. A tool with no
/// catalog entry is worth nothing.
pub open spec fn spec_effective_price(entry: Option<ToolMaster>, attrition: u32) -> u32 {
    match entry {
        Some(m) => spec_scaled(m.price, attrition),
        None => 0,
    }
}

/// One point of wear: a counter drops by one, floored at 0. It stays at 0
/// once it gets there; in particular a fully worn tool is not reset to full
/// condition.
pub open spec fn spec_worn(x: u32) -> u32 {
    if x > 0 {
        (x - 1) as u32
    } else {
        0
    }
}

/// Wear applied `n` times over: each step drops the counter by one point,
/// floored at 0.
pub open spec fn spec_worn_times(x: u32, n: nat) -> u32
    decreases n,
{
    if n == 0 {
        x
    } else {
        spec_worn(spec_worn_times(x, (n - 1) as nat))
    }
}

/// Digs against one worker id cannot interleave: each holds the store by
/// `&mut` for its whole duration, and each dig that finds the worker
/// persisted leaves it at one point of wear below the health it was read
/// with. A run of `n` such digs therefore leaves the worker's health at
/// `x - n`, floored at 0 — no decrement is ever lost and none goes below the
/// floor.
pub proof fn lemma_repeated_wear_floor(x: u32, n: nat)
    ensures
        spec_worn_times(x, n) == if n >= x {
            0u32
        } else {
            (x - n) as u32
        },
    decreases n,
{
    if n > 0 {
        lemma_repeated_wear_floor(x, (n - 1) as nat);
    }
}

/// The tool a worker's reference resolves to in the store: `None` both for a
/// worker with no tool reference and for a dangling reference.
pub open spec fn spec_worker_tool(db: DataBase, w: Worker) -> Option<Tool> {
    match w.tool_id {
        Some(tid) => spec_find(db.tools@, tid),
        None => None,
    }
}

/// The tool-efficiency multiplier of a dig: the resolved tool's effective
/// efficiency at the condition the dig's own wear leaves it with (the tool is
/// degraded and persisted before the yield is computed), or 1 when the
/// worker's reference resolves to no persisted tool at computation time.
pub open spec fn spec_dig_tool_efficiency(catalog: Master, db: DataBase, w: Worker) -> u32 {
    match spec_worker_tool(db, w) {
        Some(t) => spec_effective_efficiency(
            spec_find(catalog.tools@, t.master_id),
            spec_worn(t.attrition_rate),
        ),
        None => 1,
    }
}

/// What one dig extracts from a deposit: at most 1% of the deposit, scaled by
/// the tool multiplier and the worker multiplier (health in full hundreds),
/// and clamped so it never exceeds the deposit itself.
pub open spec fn spec_dig_amount(deposit: u32, tool_eff: u32, health: u32) -> u32 {
    let raw = (deposit / 100) * tool_eff * (health / 100);
    if raw > deposit {
        deposit
    } else {
        raw as u32
    }
}

/// The tool as a dig leaves it: one point of wear, everything else kept.
pub open spec fn spec_degraded(t: Tool) -> Tool {
    Tool { id: t.id, attrition_rate: spec_worn(t.attrition_rate), master_id: t.master_id }
}

/// The id of the tool the worker is left holding after a dig: the tool its
/// reference resolved to, or the freshly created default tool.
pub open spec fn spec_dig_tool_id(db0: DataBase, db1: DataBase, w: Worker) -> u32 {
    match spec_worker_tool(db0, w) {
        Some(t) => t.id,
        None => db1.tools@.last().id,
    }
}

/// Effective price and efficiency are functions of the catalog entry and the
/// condition alone: equal inputs give equal results, so reading either twice
/// without an intervening mutation yields identical values.
pub proof fn lemma_effective_metrics_pure(
    e1: Option<ToolMaster>,
    e2: Option<ToolMaster>,
    a1: u32,
    a2: u32,
)
    requires
        e1 == e2,
        a1 == a2,
    ensures
        spec_effective_price(e1, a1) == spec_effective_price(e2, a2),
        spec_effective_efficiency(e1, a1) == spec_effective_efficiency(e2, a2),
{
}

/// No dig drives a guarded quantity below zero: what a dig extracts never
/// exceeds the deposit, so the remaining deposit never underflows, and worn
/// health and worn condition are floored at zero.
pub proof fn lemma_dig_floors(deposit: u32, tool_eff: u32, health: u32, attrition: u32)
    ensures
        spec_dig_amount(deposit, tool_eff, health) <= deposit,
        deposit - spec_dig_amount(deposit, tool_eff, health) >= 0,
        spec_worn(health) >= 0,
        spec_worn(attrition) >= 0,
{
    assert((deposit / 100) * tool_eff * (health / 100) >= 0) by (nonlinear_arith);
}

/// A catalog field scaled by a condition percentage, saturating at
/// `u32::MAX`.
fn scaled(value: u32, attrition: u32) -> (r: u32)
    ensures
        r == spec_scaled(value, attrition),
{
    proof {
        assert((value as int) * (attrition as int) <= 0xffff_ffff * 0xffff_ffff)
            by (nonlinear_arith)
            requires
                value <= 0xffff_ffff,
                attrition <= 0xffff_ffff,
        ;
    }
    let wide: u64 = (value as u64) * (attrition as u64);
    let q: u64 = wide / 100;
    if q > u32::MAX as u64 {
        u32::MAX
    } else {
        q as u32
    }
}

/// What a worker can do: read its fields, resolve its tool in the store, and
/// give its efficiency multiplier.
pub trait WorkerLike: Sized {
    /// The worker's id.
    fn id(&self) -> u32;

    /// The worker's name.
    fn name(&self) -> String;

    /// The worker's health, in points.
    fn health(&self) -> u32;

    /// The tool the worker's reference resolves to in the store, if any.
    fn tool(&self, db: &DataBase) -> Option<Tool>;

    /// The worker's efficiency multiplier: health in full hundreds.
    fn efficiency(&self) -> u32;
}

impl WorkerLike for Worker {
    fn id(&self) -> (r: u32)
        ensures
            r == self.id,
    {
        self.id
    }

    fn name(&self) -> (r: String)
        ensures
            r == self.name,
    {
        self.name.clone()
    }

    fn health(&self) -> (r: u32)
        ensures
            r == self.health,
    {
        self.health
    }

    fn tool(&self, db: &DataBase) -> (r: Option<Tool>)
        ensures
            r == spec_worker_tool(*db, *self),
    {
        match self.tool_id {
            Some(tid) => db.find_tool_by_id(tid),
            None => None,
        }
    }

    fn efficiency(&self) -> (r: u32)
        ensures
            r == self.health / 100,
    {
        self.health / 100
    }
}

/// What a tool can do: read its fields and give its derived metrics against
/// the catalog.
pub trait ToolLike: Sized {
    /// The tool's id.
    fn id(&self) -> u32;

    /// The tool's condition percentage.
    fn attrition_rate(&self) -> u32;

    /// The tool's effective price: catalog price scaled by condition.
    fn price(&self, catalog: &Master) -> u32;

    /// The archetype's name, or "unknown" for a tool with no catalog entry.
    fn name(&self, catalog: &Master) -> String;

    /// The tool's effective efficiency: catalog efficiency scaled by
    /// condition.
    fn efficiency(&self, catalog: &Master) -> u32;
}

impl ToolLike for Tool {
    fn id(&self) -> (r: u32)
        ensures
            r == self.id,
    {
        self.id
    }

    fn attrition_rate(&self) -> (r: u32)
        ensures
            r == self.attrition_rate,
    {
        self.attrition_rate
    }

    fn price(&self, catalog: &Master) -> (r: u32)
        ensures
            r == spec_effective_price(
                spec_find(catalog.tools@, self.master_id),
                self.attrition_rate,
            ),
    {
        match catalog.find_tool_master_by_id(self.master_id) {
            Some(m) => scaled(m.price, self.attrition_rate),
            None => 0,
        }
    }

    fn name(&self, catalog: &Master) -> (r: String)
        ensures
            (match spec_find(catalog.tools@, self.master_id) {
                Some(m) => r == m.name,
                None => r@ == "unknown"@,
            }),
    {
        match catalog.find_tool_master_by_id(self.master_id) {
            Some(m) => m.name,
            None => "unknown".to_owned(),
        }
    }

    fn efficiency(&self, catalog: &Master) -> (r: u32)
        ensures
            r == spec_effective_efficiency(
                spec_find(catalog.tools@, self.master_id),
                self.attrition_rate,
            ),
    {
        match catalog.find_tool_master_by_id(self.master_id) {
            Some(m) => scaled(m.efficiency, self.attrition_rate),
            None => 1,
        }
    }
}

/// What a resource can do: be dug.
pub trait ResourceLike: Sized {
    /// One extraction against this resource by `worker`, reading and writing
    /// the store and consulting the catalog. The store is held exclusively
    /// for the whole operation, so a dig is atomic.
    fn try_dig(&mut self, db: &mut DataBase, catalog: &Master, worker: &Worker) -> (r: WorkStats)
        requires
            old(db).wf(),
            old(db).tools@.len() <= u32::MAX,
    ;
}

impl ResourceLike for Resource {
    fn try_dig(&mut self, db: &mut DataBase, catalog: &Master, worker: &Worker) -> (r: WorkStats)
        ensures
            final(db).wf(),
            final(self).id == old(self).id,
            r.gold.amount == spec_dig_amount(
                old(self).deposit_amount,
                spec_dig_tool_efficiency(*catalog, *old(db), *worker),
                worker.health,
            ),
            r.gold.amount <= old(self).deposit_amount,
            final(self).deposit_amount == old(self).deposit_amount - r.gold.amount,
            (match spec_worker_tool(*old(db), *worker) {
                Some(t) => final(db).tools@ == old(db).tools@.update(
                    key_at(old(db).tools@, t.id),
                    spec_degraded(t),
                ),
                None => {
                    let created = final(db).tools@.last();
                    &&& final(db).tools@.len() == old(db).tools@.len() + 1
                    &&& final(db).tools@ == old(db).tools@.push(created)
                    &&& created.attrition_rate == 100
                    &&& created.master_id == 0
                    &&& !has_key(old(db).tools@, created.id)
                },
            }),
            ({
                let nw = (Worker {
                    id: worker.id,
                    name: worker.name,
                    health: spec_worn(worker.health),
                    tool_id: Some(spec_dig_tool_id(*old(db), *final(db), *worker)),
                });
                &&& has_key(old(db).workers@, worker.id) ==> final(db).workers@ == old(
                    db,
                ).workers@.update(key_at(old(db).workers@, worker.id), nw) && r.worker == nw
                &&& !has_key(old(db).workers@, worker.id) ==> final(db).workers@ == old(db).workers@
                    && r.worker == *worker
            }),
            has_key(old(db).resources@, old(self).id) ==> final(db).resources@ == old(
                db,
            ).resources@.update(key_at(old(db).resources@, old(self).id), *final(self)),
            !has_key(old(db).resources@, old(self).id) ==> final(db).resources@ == old(
                db,
            ).resources@,
    {
        let resolved = worker.tool(db);
        let (tool_eff, held_tool_id): (u32, u32) = match resolved {
            Some(t) => {
                proof {
                    match worker.tool_id {
                        Some(tid) => lemma_key_at(db.tools@, tid),
                        None => (),
                    }
                }
                let worn_tool = Tool {
                    id: t.id,
                    attrition_rate: if t.attrition_rate > 0 {
                        t.attrition_rate - 1
                    } else {
                        0
                    },
                    master_id: t.master_id,
                };
                db.update_tool(t.id, worn_tool);
                (worn_tool.efficiency(catalog), t.id)
            },
            None => {
                let created = db.create_tool(ToolBody { attrition_rate: 100, master_id: 0 });
                (1u32, created.id)
            },
        };
        let max_extractable = self.deposit_amount / 100;
        let worker_eff = worker.efficiency();
        proof {
            assert((max_extractable as int) * (tool_eff as int) <= 0xffff_ffff * 0xffff_ffff)
                by (nonlinear_arith)
                requires
                    max_extractable <= 0xffff_ffff,
                    tool_eff <= 0xffff_ffff,
            ;
            assert((max_extractable as int) * (tool_eff as int) * (worker_eff as int)
                <= 0xffff_ffff * 0xffff_ffff * 0xffff_ffff)
                by (nonlinear_arith)
                requires
                    max_extractable <= 0xffff_ffff,
                    tool_eff <= 0xffff_ffff,
                    worker_eff <= 0xffff_ffff,
            ;
        }
        let wide: u128 = (max_extractable as u128) * (tool_eff as u128) * (worker_eff as u128);
        let amount: u32 = if wide > (self.deposit_amount as u128) {
            self.deposit_amount
        } else {
            wide as u32
        };
        self.deposit_amount = self.deposit_amount - amount;
        let new_health = if worker.health() > 0 {
            worker.health() - 1
        } else {
            0
        };
        let updated = db.update_worker(
            worker.id,
            Worker {
                id: worker.id,
                name: worker.name(),
                health: new_health,
                tool_id: Some(held_tool_id),
            },
        );
        let out_worker = match updated {
            Some(w) => w,
            None => Worker {
                id: worker.id,
                name: worker.name(),
                health: worker.health,
                tool_id: worker.tool_id,
            },
        };
        db.update_resource(self.id, Resource { id: self.id, deposit_amount: self.deposit_amount });
        WorkStats { worker: out_worker, gold: Gold { amount } }
    }
}

} // verus!
