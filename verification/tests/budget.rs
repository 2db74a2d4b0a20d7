use vision_memory::budget::{BudgetArbiter, ComponentBudget, MemoryMode};

#[test]
fn test_mode_thresholds() {
    let mut arbiter = BudgetArbiter::new(100);

    arbiter.update_component(String::from("capture"), 80, 60, 1);
    let status = arbiter.status();
    assert_eq!(status.total_used_mb, 60);
    assert_eq!(status.mode, MemoryMode::Normal);

    arbiter.update_component(String::from("capture"), 110, 100, 1);
    let status = arbiter.status();
    assert_eq!(status.total_used_mb, 100);
    assert_eq!(status.mode, MemoryMode::Elevated);

    arbiter.update_component(String::from("capture"), 160, 150, 1);
    let status = arbiter.status();
    assert_eq!(status.total_used_mb, 150);
    assert_eq!(status.mode, MemoryMode::Critical);
}

#[test]
fn test_mode_boundaries_exact() {
    let mut arbiter = BudgetArbiter::new(100);

    // At exactly the normal limit the mode is still normal.
    arbiter.update_component(String::from("gpu"), 100, 80, 2);
    assert_eq!(arbiter.status().mode, MemoryMode::Normal);

    // One megabyte past it, elevated.
    arbiter.update_component(String::from("gpu"), 100, 81, 2);
    assert_eq!(arbiter.status().mode, MemoryMode::Elevated);

    // At exactly the elevated limit, still elevated; past it, critical.
    arbiter.update_component(String::from("gpu"), 130, 120, 2);
    assert_eq!(arbiter.status().mode, MemoryMode::Elevated);
    arbiter.update_component(String::from("gpu"), 130, 121, 2);
    assert_eq!(arbiter.status().mode, MemoryMode::Critical);
}

#[test]
fn test_totals_aggregate_components() {
    let mut arbiter = BudgetArbiter::new(1200);

    arbiter.update_component(String::from("capture"), 300, 120, 1);
    arbiter.update_component(String::from("processing"), 400, 250, 2);
    arbiter.update_component(String::from("gpu"), 200, 90, 3);

    let status = arbiter.status();
    assert_eq!(status.total_budget_mb, 1200);
    assert_eq!(status.total_allocated_mb, 900);
    assert_eq!(status.total_used_mb, 460);
    assert_eq!(status.components.len(), 3);

    // A refresh replaces the line of the same name rather than adding one.
    arbiter.update_component(String::from("processing"), 400, 300, 2);
    let status = arbiter.status();
    assert_eq!(status.total_used_mb, 510);
    assert_eq!(status.components.len(), 3);
}

#[test]
fn test_utilization_percent() {
    let low = ComponentBudget {
        name: String::from("capture"),
        allocated_mb: 200,
        used_mb: 50,
        priority: 1,
    };
    assert_eq!(low.utilization_percent(), 25);

    let over = ComponentBudget {
        name: String::from("gpu"),
        allocated_mb: 100,
        used_mb: 150,
        priority: 2,
    };
    assert_eq!(over.utilization_percent(), 150);

    let idle = ComponentBudget {
        name: String::from("spare"),
        allocated_mb: 0,
        used_mb: 0,
        priority: 3,
    };
    assert_eq!(idle.utilization_percent(), 0);
}

#[test]
fn test_reclaim_order_by_priority() {
    let mut arbiter = BudgetArbiter::new(100);
    arbiter.update_component(String::from("capture"), 50, 40, 5);
    arbiter.update_component(String::from("processing"), 50, 40, 1);
    arbiter.update_component(String::from("gpu"), 50, 40, 3);

    let order = arbiter.reclaim_order();
    assert_eq!(order.len(), 3);
    assert_eq!(order[0].name, "processing");
    assert_eq!(order[0].priority, 1);
    assert_eq!(order[1].name, "gpu");
    assert_eq!(order[2].name, "capture");
}

#[test]
fn test_empty_arbiter_is_normal() {
    let arbiter = BudgetArbiter::new(0);
    let status = arbiter.status();
    assert_eq!(status.total_allocated_mb, 0);
    assert_eq!(status.total_used_mb, 0);
    assert_eq!(status.mode, MemoryMode::Normal);
    assert!(status.components.is_empty());
}
