//! The store: `DataBase` owns the three mutable record tables (resources,
//! workers, tools) and `Master` owns the append-only tool catalog. Both are
//! plain values, constructed by the driver and passed by reference to every
//! operation; a `&mut` borrow of the store is the critical section.
//!
//! Ids are chosen by retrying random generation until no collision exists, so
//! each `create_*` asks for a table that still has a free key (at most
//! `u32::MAX` records); with every key taken no fresh id exists at all.
//! `update_*` never inserts on a miss: it returns `None` and leaves the table
//! unchanged.

use crate::records::{
    Resource, ResourceBody, Tool, ToolBody, ToolMaster, ToolMasterBody, Worker, WorkerBody,
};
use crate::table::{
    fresh_key, has_key, key_at, key_index, lemma_unique_push, lemma_unique_update, spec_find,
    unique_keys,
};
use vstd::prelude::*;

verus! {

/// The three mutable tables of the world.
#[derive(Debug)]
pub struct DataBase {
    pub resources: Vec<Resource>,
    pub workers: Vec<Worker>,
    pub tools: Vec<Tool>,
}

/// The tool catalog: reference data, append-only once seeded.
#[derive(Debug)]
pub struct Master {
    pub tools: Vec<ToolMaster>,
}

impl DataBase {
    /// Every table keeps its keys pairwise distinct.
    pub open spec fn wf(self) -> bool {
        unique_keys(self.resources@) && unique_keys(self.workers@) && unique_keys(self.tools@)
    }

    /// An empty store.
    pub fn new() -> (r: DataBase)
        ensures
            r.wf(),
            r.resources@.len() == 0,
            r.workers@.len() == 0,
            r.tools@.len() == 0,
    {
        DataBase { resources: Vec::new(), workers: Vec::new(), tools: Vec::new() }
    }
}

impl Master {
    /// The catalog keeps its keys pairwise distinct.
    pub open spec fn wf(self) -> bool {
        unique_keys(self.tools@)
    }

    /// An empty catalog.
    pub fn new() -> (r: Master)
        ensures
            r.wf(),
            r.tools@.len() == 0,
    {
        Master { tools: Vec::new() }
    }
}

/// The resource table operations.
pub trait ResourcesAsTable: Sized {
    /// The resource rows, in insertion order.
    spec fn resource_rows(self) -> Seq<Resource>;

    /// Files `item` under a fresh id and returns the new record.
    fn create_resource(&mut self, item: ResourceBody) -> (r: Resource)
        requires
            unique_keys(old(self).resource_rows()),
            old(self).resource_rows().len() <= u32::MAX,
        ensures
            !has_key(old(self).resource_rows(), r.id),
            final(self).resource_rows() == old(self).resource_rows().push(r),
            unique_keys(final(self).resource_rows()),
            r.deposit_amount == item.deposit_amount,
    ;

    /// A copy of the record with this id, or `None` if the id is absent.
    fn find_resource_by_id(&self, id: u32) -> (r: Option<Resource>)
        ensures
            r == spec_find(self.resource_rows(), id),
    ;

    /// Replaces the whole record with this id and returns the new value, or
    /// returns `None` and leaves the table unchanged if the id is absent.
    fn update_resource(&mut self, id: u32, item: Resource) -> (r: Option<Resource>)
        requires
            item.id == id,
        ensures
            !has_key(old(self).resource_rows(), id) ==> r is None && final(self).resource_rows() == old(
                self,
            ).resource_rows(),
            has_key(old(self).resource_rows(), id) ==> r == Some(item) && final(self).resource_rows()
                == old(self).resource_rows().update(
                key_at(old(self).resource_rows(), id),
                item,
            ),
            unique_keys(old(self).resource_rows()) ==> unique_keys(final(self).resource_rows()),
    ;
}

impl ResourcesAsTable for DataBase {
    open spec fn resource_rows(self) -> Seq<Resource> {
        self.resources@
    }

    fn create_resource(&mut self, item: ResourceBody) -> (r: Resource)
        ensures
            final(self).workers@ == old(self).workers@,
            final(self).tools@ == old(self).tools@,
    {
        let id = fresh_key(&self.resources);
        let rec = Resource { id, deposit_amount: item.deposit_amount };
        proof {
            lemma_unique_push(self.resources@, rec);
        }
        self.resources.push(rec);
        rec
    }

    fn find_resource_by_id(&self, id: u32) -> (r: Option<Resource>) {
        match key_index(&self.resources, id) {
            Some(i) => Some(self.resources[i]),
            None => None,
        }
    }

    fn update_resource(&mut self, id: u32, item: Resource) -> (r: Option<Resource>)
        ensures
            final(self).workers@ == old(self).workers@,
            final(self).tools@ == old(self).tools@,
    {
        match key_index(&self.resources, id) {
            Some(i) => {
                proof {
                    if unique_keys(self.resources@) {
                        lemma_unique_update(self.resources@, i as int, item);
                    }
                }
                self.resources[i] = item;
                Some(item)
            },
            None => None,
        }
    }
}

/// The worker table operations.
pub trait WorkerAsTable: Sized {
    /// The worker rows, in insertion order.
    spec fn worker_rows(self) -> Seq<Worker>;

    /// Files `item` under a fresh id and returns the new record.
    fn create_worker(&mut self, item: WorkerBody) -> (r: Worker)
        requires
            unique_keys(old(self).worker_rows()),
            old(self).worker_rows().len() <= u32::MAX,
        ensures
            !has_key(old(self).worker_rows(), r.id),
            final(self).worker_rows() == old(self).worker_rows().push(r),
            unique_keys(final(self).worker_rows()),
            r.name == item.name,
            r.health == item.health,
            r.tool_id == item.tool_id,
    ;

    /// A copy of the record with this id, or `None` if the id is absent.
    fn find_worker_by_id(&self, id: u32) -> (r: Option<Worker>)
        ensures
            r == spec_find(self.worker_rows(), id),
    ;

    /// Replaces the whole record with this id and returns the new value, or
    /// returns `None` and leaves the table unchanged if the id is absent.
    fn update_worker(&mut self, id: u32, item: Worker) -> (r: Option<Worker>)
        requires
            item.id == id,
        ensures
            !has_key(old(self).worker_rows(), id) ==> r is None && final(self).worker_rows() == old(
                self,
            ).worker_rows(),
            has_key(old(self).worker_rows(), id) ==> r == Some(item) && final(self).worker_rows() == old(
                self,
            ).worker_rows().update(key_at(old(self).worker_rows(), id), item),
            unique_keys(old(self).worker_rows()) ==> unique_keys(final(self).worker_rows()),
    ;
}

impl WorkerAsTable for DataBase {
    open spec fn worker_rows(self) -> Seq<Worker> {
        self.workers@
    }

    fn create_worker(&mut self, item: WorkerBody) -> (r: Worker)
        ensures
            final(self).resources@ == old(self).resources@,
            final(self).tools@ == old(self).tools@,
    {
        let id = fresh_key(&self.workers);
        let rec = Worker { id, name: item.name, health: item.health, tool_id: item.tool_id };
        let ret = Worker {
            id: rec.id,
            name: rec.name.clone(),
            health: rec.health,
            tool_id: rec.tool_id,
        };
        proof {
            lemma_unique_push(self.workers@, rec);
        }
        self.workers.push(rec);
        ret
    }

    fn find_worker_by_id(&self, id: u32) -> (r: Option<Worker>) {
        match key_index(&self.workers, id) {
            Some(i) => {
                let w = &self.workers[i];
                Some(Worker { id: w.id, name: w.name.clone(), health: w.health, tool_id: w.tool_id })
            },
            None => None,
        }
    }

    fn update_worker(&mut self, id: u32, item: Worker) -> (r: Option<Worker>)
        ensures
            final(self).resources@ == old(self).resources@,
            final(self).tools@ == old(self).tools@,
    {
        match key_index(&self.workers, id) {
            Some(i) => {
                let ret = Worker {
                    id: item.id,
                    name: item.name.clone(),
                    health: item.health,
                    tool_id: item.tool_id,
                };
                proof {
                    if unique_keys(self.workers@) {
                        lemma_unique_update(self.workers@, i as int, item);
                    }
                }
                self.workers[i] = item;
                Some(ret)
            },
            None => None,
        }
    }
}

/// The tool table operations.
pub trait ToolAsTable: Sized {
    /// The tool rows, in insertion order.
    spec fn tool_rows(self) -> Seq<Tool>;

    /// Files `item` under a fresh id and returns the new record.
    fn create_tool(&mut self, item: ToolBody) -> (r: Tool)
        requires
            unique_keys(old(self).tool_rows()),
            old(self).tool_rows().len() <= u32::MAX,
        ensures
            !has_key(old(self).tool_rows(), r.id),
            final(self).tool_rows() == old(self).tool_rows().push(r),
            unique_keys(final(self).tool_rows()),
            r.attrition_rate == item.attrition_rate,
            r.master_id == item.master_id,
    ;

    /// A copy of the record with this id, or `None` if the id is absent.
    fn find_tool_by_id(&self, id: u32) -> (r: Option<Tool>)
        ensures
            r == spec_find(self.tool_rows(), id),
    ;

    /// Replaces the whole record with this id and returns the new value, or
    /// returns `None` and leaves the table unchanged if the id is absent.
    fn update_tool(&mut self, id: u32, item: Tool) -> (r: Option<Tool>)
        requires
            item.id == id,
        ensures
            !has_key(old(self).tool_rows(), id) ==> r is None && final(self).tool_rows() == old(
                self,
            ).tool_rows(),
            has_key(old(self).tool_rows(), id) ==> r == Some(item) && final(self).tool_rows() == old(
                self,
            ).tool_rows().update(key_at(old(self).tool_rows(), id), item),
            unique_keys(old(self).tool_rows()) ==> unique_keys(final(self).tool_rows()),
    ;
}

impl ToolAsTable for DataBase {
    open spec fn tool_rows(self) -> Seq<Tool> {
        self.tools@
    }

    fn create_tool(&mut self, item: ToolBody) -> (r: Tool)
        ensures
            final(self).resources@ == old(self).resources@,
            final(self).workers@ == old(self).workers@,
    {
        let id = fresh_key(&self.tools);
        let rec = Tool { id, attrition_rate: item.attrition_rate, master_id: item.master_id };
        proof {
            lemma_unique_push(self.tools@, rec);
        }
        self.tools.push(rec);
        rec
    }

    fn find_tool_by_id(&self, id: u32) -> (r: Option<Tool>) {
        match key_index(&self.tools, id) {
            Some(i) => Some(self.tools[i]),
            None => None,
        }
    }

    fn update_tool(&mut self, id: u32, item: Tool) -> (r: Option<Tool>)
        ensures
            final(self).resources@ == old(self).resources@,
            final(self).workers@ == old(self).workers@,
    {
        match key_index(&self.tools, id) {
            Some(i) => {
                proof {
                    if unique_keys(self.tools@) {
                        lemma_unique_update(self.tools@, i as int, item);
                    }
                }
                self.tools[i] = item;
                Some(item)
            },
            None => None,
        }
    }
}

/// The catalog operations: entries are created and looked up, never changed.
pub trait ToolMasterAsTable: Sized {
    /// The catalog rows, in insertion order.
    spec fn tool_master_rows(self) -> Seq<ToolMaster>;

    /// Files `item` under a fresh id and returns the new record.
    fn create_tool_master(&mut self, item: ToolMasterBody) -> (r: ToolMaster)
        requires
            unique_keys(old(self).tool_master_rows()),
            old(self).tool_master_rows().len() <= u32::MAX,
        ensures
            !has_key(old(self).tool_master_rows(), r.id),
            final(self).tool_master_rows() == old(self).tool_master_rows().push(r),
            unique_keys(final(self).tool_master_rows()),
            r.name == item.name,
            r.price == item.price,
            r.efficiency == item.efficiency,
    ;

    /// A copy of the record with this id, or `None` if the id is absent.
    fn find_tool_master_by_id(&self, id: u32) -> (r: Option<ToolMaster>)
        ensures
            r == spec_find(self.tool_master_rows(), id),
    ;
}

impl ToolMasterAsTable for Master {
    open spec fn tool_master_rows(self) -> Seq<ToolMaster> {
        self.tools@
    }

    fn create_tool_master(&mut self, item: ToolMasterBody) -> (r: ToolMaster) {
        let id = fresh_key(&self.tools);
        let rec = ToolMaster { id, name: item.name, price: item.price, efficiency: item.efficiency };
        let ret = ToolMaster {
            id: rec.id,
            name: rec.name.clone(),
            price: rec.price,
            efficiency: rec.efficiency,
        };
        proof {
            lemma_unique_push(self.tools@, rec);
        }
        self.tools.push(rec);
        ret
    }

    fn find_tool_master_by_id(&self, id: u32) -> (r: Option<ToolMaster>) {
        match key_index(&self.tools, id) {
            Some(i) => {
                let m = &self.tools[i];
                Some(ToolMaster {
                    id: m.id,
                    name: m.name.clone(),
                    price: m.price,
                    efficiency: m.efficiency,
                })
            },
            None => None,
        }
    }
}

} // verus!
