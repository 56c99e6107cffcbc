//! The record types of the store: a `Resource` with its remaining deposit, a
//! `Worker` with health and an optional reference to a `Tool`, a wearing
//! `Tool` instance, and the immutable `ToolMaster` catalog entry it is an
//! instance of. Each `create_*` operation takes the matching `*Body`, the
//! record without its id.

use crate::table::Keyed;
use vstd::prelude::*;

verus! {

/// A site holding extractable value. `deposit_amount` is what is left.
#[derive(Debug, Clone, Copy)]
pub struct Resource {
    pub id: u32,
    pub deposit_amount: u32,
}

/// What a caller supplies to create a `Resource`.
#[derive(Debug, Clone)]
pub struct ResourceBody {
    pub deposit_amount: u32,
}

/// A worker. `tool_id` is a lookup key only: the worker does not own the
/// tool, and the reference may dangle.
#[derive(Debug, Clone)]
pub struct Worker {
    pub id: u32,
    pub name: String,
    pub health: u32,
    pub tool_id: Option<u32>,
}

/// What a caller supplies to create a `Worker`.
#[derive(Debug, Clone)]
pub struct WorkerBody {
    pub name: String,
    pub health: u32,
    pub tool_id: Option<u32>,
}

/// A physical, wearing instance of a catalog archetype. `attrition_rate` is
/// the condition percentage, full at 100, floored at 0; `master_id` refers to
/// the `ToolMaster` describing the archetype, and may dangle.
#[derive(Debug, Clone, Copy)]
pub struct Tool {
    pub id: u32,
    pub attrition_rate: u32,
    pub master_id: u32,
}

/// What a caller supplies to create a `Tool`.
#[derive(Debug, Clone)]
pub struct ToolBody {
    pub attrition_rate: u32,
    pub master_id: u32,
}

/// A catalog entry describing a tool archetype at full condition.
#[derive(Debug, Clone)]
pub struct ToolMaster {
    pub id: u32,
    pub name: String,
    pub price: u32,
    pub efficiency: u32,
}

/// What a caller supplies to create a `ToolMaster`.
#[derive(Debug, Clone)]
pub struct ToolMasterBody {
    pub name: String,
    pub price: u32,
    pub efficiency: u32,
}

/// Value produced by one extraction.
#[derive(Debug, Clone, Copy)]
pub struct Gold {
    pub amount: u32,
}

/// What a dig returns: the worker as it stands after the dig, and the gold
/// produced.
#[derive(Debug, Clone)]
pub struct WorkStats {
    pub worker: Worker,
    pub gold: Gold,
}

impl Keyed for Resource {
    open spec fn key(self) -> u32 {
        self.id
    }

    fn key_of(&self) -> u32 {
        self.id
    }
}

impl Keyed for Worker {
    open spec fn key(self) -> u32 {
        self.id
    }

    fn key_of(&self) -> u32 {
        self.id
    }
}

impl Keyed for Tool {
    open spec fn key(self) -> u32 {
        self.id
    }

    fn key_of(&self) -> u32 {
        self.id
    }
}

impl Keyed for ToolMaster {
    open spec fn key(self) -> u32 {
        self.id
    }

    fn key_of(&self) -> u32 {
        self.id
    }
}

} // verus!
