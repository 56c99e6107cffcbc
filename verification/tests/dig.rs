use sample_app::db::{
    DataBase, Master, ResourcesAsTable, ToolAsTable, ToolMasterAsTable, WorkerAsTable,
};
use sample_app::dig::{ResourceLike, ToolLike, WorkerLike};
use sample_app::records::{ResourceBody, ToolBody, ToolMasterBody, Worker, WorkerBody};

#[test]
fn effective_metrics_are_pure() {
    let mut master = Master::new();
    let m = master.create_tool_master(ToolMasterBody {
        name: String::from("drill"),
        price: 150,
        efficiency: 100,
    });
    let mut db = DataBase::new();
    let t = db.create_tool(ToolBody { attrition_rate: 99, master_id: m.id });
    // catalog value * attrition / 100, rounded down
    assert_eq!(t.price(&master), 148);
    assert_eq!(t.efficiency(&master), 99);
    // reading twice without an intervening mutation yields identical results
    let p1 = t.price(&master);
    let p2 = t.price(&master);
    assert_eq!(p1, p2);
    let e1 = t.efficiency(&master);
    let e2 = t.efficiency(&master);
    assert_eq!(e1, e2);
}

#[test]
fn tool_defaults_without_catalog_entry() {
    let master = Master::new();
    let mut db = DataBase::new();
    let t = db.create_tool(ToolBody { attrition_rate: 100, master_id: 0 });
    assert_eq!(t.price(&master), 0);
    assert_eq!(t.efficiency(&master), 1);
    assert_eq!(t.name(&master), "unknown");
}

#[test]
fn scenario_full_tool_wears_by_one_dig() {
    let mut master = Master::new();
    let m = master.create_tool_master(ToolMasterBody {
        name: String::from("drill"),
        price: 100,
        efficiency: 100,
    });
    let mut db = DataBase::new();
    let t = db.create_tool(ToolBody { attrition_rate: 100, master_id: m.id });
    assert_eq!(t.price(&master), 100);
    assert_eq!(t.efficiency(&master), 100);
    let w = db.create_worker(WorkerBody {
        name: String::from("miner"),
        health: 100,
        tool_id: Some(t.id),
    });
    let mut r = db.create_resource(ResourceBody { deposit_amount: 50000 });
    r.try_dig(&mut db, &master, &w);
    let worn = db.find_tool_by_id(t.id).unwrap();
    assert_eq!(worn.attrition_rate, 99);
    assert_eq!(worn.efficiency(&master), 99);
    assert_eq!(worn.price(&master), 99);
}

#[test]
fn scenario_dig_accounts_for_extracted_gold() {
    let mut master = Master::new();
    let m = master.create_tool_master(ToolMasterBody {
        name: String::from("drill"),
        price: 100,
        efficiency: 100,
    });
    let mut db = DataBase::new();
    let t = db.create_tool(ToolBody { attrition_rate: 100, master_id: m.id });
    let w = db.create_worker(WorkerBody {
        name: String::from("miner"),
        health: 100,
        tool_id: Some(t.id),
    });
    let mut r = db.create_resource(ResourceBody { deposit_amount: 50000 });
    let before = r.deposit_amount;
    let stats = r.try_dig(&mut db, &master, &w);
    assert_eq!(stats.gold.amount, before - r.deposit_amount);
    assert_eq!(stats.worker.health(), 99);
    // 1% of the deposit, times the tool's efficiency at its worn condition
    // (100 * 99 / 100 = 99), times worker efficiency 1
    assert_eq!(stats.gold.amount, 49500);
    assert_eq!(r.deposit_amount, 500);
    assert_eq!(db.find_resource_by_id(r.id).unwrap().deposit_amount, 500);
}

#[test]
fn repeated_digs_drain_health_to_floor() {
    // try_dig holds the store exclusively for its whole duration, so digs
    // against one worker id are serialized and none of them is lost.
    let master = Master::new();
    let mut db = DataBase::new();
    let w = db.create_worker(WorkerBody {
        name: String::from("miner"),
        health: 100,
        tool_id: None,
    });
    let mut r = db.create_resource(ResourceBody { deposit_amount: 500000 });
    for _ in 0..30 {
        let current = db.find_worker_by_id(w.id).unwrap();
        r.try_dig(&mut db, &master, &current);
    }
    assert_eq!(db.find_worker_by_id(w.id).unwrap().health(), 70);
    for _ in 30..150 {
        let current = db.find_worker_by_id(w.id).unwrap();
        r.try_dig(&mut db, &master, &current);
    }
    // floored at 0: max(0, 100 - 150)
    assert_eq!(db.find_worker_by_id(w.id).unwrap().health(), 0);
}

#[test]
fn dig_floors_stay_nonnegative() {
    let master = Master::new();
    let mut db = DataBase::new();
    let w = db.create_worker(WorkerBody {
        name: String::from("miner"),
        health: 100,
        tool_id: None,
    });
    let mut r = db.create_resource(ResourceBody { deposit_amount: 500000 });
    for _ in 0..150 {
        let current = db.find_worker_by_id(w.id).unwrap();
        let stats = r.try_dig(&mut db, &master, &current);
        assert!(stats.gold.amount <= 500000);
    }
    let after = db.find_worker_by_id(w.id).unwrap();
    assert_eq!(after.health(), 0);
    // the tool the first dig created has worn all the way down and stays
    // at 0, not reset to full condition
    let tool = db.find_tool_by_id(after.tool_id.unwrap()).unwrap();
    assert_eq!(tool.attrition_rate(), 0);
    // the first dig had no tool yet (multiplier 1) and full health: it took
    // 1% of 500000; every later dig had health below 100, a multiplier of 0
    assert_eq!(r.deposit_amount, 495000);
    assert_eq!(db.find_resource_by_id(r.id).unwrap().deposit_amount, 495000);
}

#[test]
fn dig_with_no_tool_creates_default() {
    let master = Master::new();
    let mut db = DataBase::new();
    let w = db.create_worker(WorkerBody {
        name: String::from("miner"),
        health: 100,
        tool_id: None,
    });
    let mut r = db.create_resource(ResourceBody { deposit_amount: 10000 });
    let stats = r.try_dig(&mut db, &master, &w);
    assert_eq!(db.tools.len(), 1);
    let tid = stats.worker.tool_id.expect("worker was not handed the new tool");
    let t = db.find_tool_by_id(tid).unwrap();
    assert_eq!(t.attrition_rate, 100);
    assert_eq!(t.master_id, 0);
    // the created tool is not linked to the worker until the dig ends, so
    // the dig itself ran at the default multiplier of 1
    assert_eq!(stats.gold.amount, 100);
}

#[test]
fn dig_with_dangling_tool_reference_creates_default() {
    let master = Master::new();
    let mut db = DataBase::new();
    let t = db.create_tool(ToolBody { attrition_rate: 100, master_id: 0 });
    let dangling: u32 = if t.id == 0 { 1 } else { 0 };
    let w = db.create_worker(WorkerBody {
        name: String::from("miner"),
        health: 100,
        tool_id: Some(dangling),
    });
    let mut r = db.create_resource(ResourceBody { deposit_amount: 10000 });
    let stats = r.try_dig(&mut db, &master, &w);
    // the dangling reference resolved to nothing, so a fresh default tool
    // was created and handed to the worker
    assert_eq!(db.tools.len(), 2);
    let tid = stats.worker.tool_id.unwrap();
    let held = db.find_tool_by_id(tid).unwrap();
    assert_eq!(held.attrition_rate, 100);
    assert_eq!(held.master_id, 0);
}

#[test]
fn dig_on_unpersisted_worker_returns_input() {
    let master = Master::new();
    let mut db = DataBase::new();
    let stray = Worker { id: 12345, name: String::from("ghost"), health: 50, tool_id: None };
    let mut r = db.create_resource(ResourceBody { deposit_amount: 10000 });
    let stats = r.try_dig(&mut db, &master, &stray);
    // the worker update found nothing to update: the input comes back
    assert_eq!(stats.worker.id(), 12345);
    assert_eq!(stats.worker.health(), 50);
    assert_eq!(stats.worker.tool_id, None);
    assert_eq!(db.workers.len(), 0);
    // the synthesized default tool was still persisted
    assert_eq!(db.tools.len(), 1);
}

#[test]
fn dig_on_empty_deposit_yields_nothing() {
    let master = Master::new();
    let mut db = DataBase::new();
    let w = db.create_worker(WorkerBody {
        name: String::from("miner"),
        health: 100,
        tool_id: None,
    });
    let mut r = db.create_resource(ResourceBody { deposit_amount: 0 });
    let stats = r.try_dig(&mut db, &master, &w);
    assert_eq!(stats.gold.amount, 0);
    assert_eq!(r.deposit_amount, 0);
    assert_eq!(stats.worker.health(), 99);
}

#[test]
fn dig_with_exhausted_worker_stays_at_floor() {
    let master = Master::new();
    let mut db = DataBase::new();
    let w = db.create_worker(WorkerBody {
        name: String::from("miner"),
        health: 0,
        tool_id: None,
    });
    let mut r = db.create_resource(ResourceBody { deposit_amount: 10000 });
    let stats = r.try_dig(&mut db, &master, &w);
    assert_eq!(stats.worker.health(), 0);
    assert_eq!(stats.gold.amount, 0);
    assert_eq!(r.deposit_amount, 10000);
}
