use maint::{DataStore, Date};

fn in_memory_datastore() -> DataStore {
    DataStore::open_in_memory().unwrap()
}

#[test]
fn test_init() {
    let ds = in_memory_datastore();
    assert!(ds.table_exists("customer").unwrap());
    assert!(ds.table_exists("contract").unwrap());
    assert!(ds.table_exists("request").unwrap());
    assert!(ds.table_exists("work").unwrap());
}

#[test]
fn test_customer() {
    let mut ds = in_memory_datastore();
    let nrow = ds.add_customer("test customer").unwrap();
    assert_eq!(1, nrow);
    let customers = ds.list_customer().unwrap();
    let customer = &customers[0];
    assert_eq!(1, customer.id);
    assert_eq!("test customer", customer.name);
}

#[test]
fn test_contract() {
    let mut ds = in_memory_datastore();
    let nrow = ds
        .add_contract(
            1,
            &Date::parse_iso("2025-01-01").unwrap(),
            &Date::parse_iso("2025-12-31").unwrap(),
            10,
        )
        .unwrap();
    assert_eq!(1, nrow);
    let contracts = ds.list_contract().unwrap();
    let contract = &contracts[0];
    assert_eq!(1, contract.id);
    assert_eq!(1, contract.customer_id);
    assert_eq!(Date::from_ymd(2025, 1, 1).unwrap(), contract.start_date);
    assert_eq!(Date::from_ymd(2025, 12, 31).unwrap(), contract.end_date);
    assert_eq!(10, contract.total_points);
}

#[test]
fn test_request() {
    let mut ds = in_memory_datastore();
    let nrow = ds
        .add_request(1, "desc", &Date::parse_iso("2025-01-01").unwrap())
        .unwrap();
    assert_eq!(1, nrow);
    let requests = ds.list_request().unwrap();
    let request = &requests[0];
    assert_eq!(1, request.id);
    assert_eq!(1, request.contract_id);
    assert_eq!("desc", request.description);
    assert_eq!(Date::from_ymd(2025, 1, 1).unwrap(), request.request_date);
}

#[test]
fn test_work() {
    let mut ds = in_memory_datastore();
    let nrow = ds
        .add_work(1, "worker", "desc", 1, &Date::parse_iso("2025-01-01").unwrap())
        .unwrap();
    assert_eq!(1, nrow);
    let work_entries = ds.list_work().unwrap();
    let work_entry = &work_entries[0];
    assert_eq!(1, work_entry.id);
    assert_eq!(1, work_entry.request_id);
    assert_eq!("worker", work_entry.worker);
    assert_eq!("desc", work_entry.description);
    assert_eq!(1, work_entry.points_used);
    assert_eq!(Date::from_ymd(2025, 1, 1).unwrap(), work_entry.work_date);
}

#[test]
fn test_cumulative_usage() {
    let mut ds = in_memory_datastore();
    ds.add_contract(
        1,
        &Date::parse_iso("2025-01-01").unwrap(),
        &Date::parse_iso("2025-12-31").unwrap(),
        12,
    )
    .unwrap();
    ds.add_customer("customer1").unwrap();
    ds.add_request(1, "req1", &Date::parse_iso("2025-01-01").unwrap())
        .unwrap();
    ds.add_request(1, "req2", &Date::parse_iso("2025-12-31").unwrap())
        .unwrap();
    ds.add_work(1, "alice", "work1", 1, &Date::parse_iso("2025-01-01").unwrap())
        .unwrap();
    ds.add_work(1, "alice", "work1-2", 2, &Date::parse_iso("2025-01-10").unwrap())
        .unwrap();
    ds.add_work(2, "alice", "work2", 3, &Date::parse_iso("2025-12-31").unwrap())
        .unwrap();
    let v = ds.usage(1).unwrap();
    let v = v.cumulative_usage;
    assert_eq!(v.len(), 3);
    assert_eq!(v[0].cumulative_points_used, 1);
    assert_eq!(v[1].cumulative_points_used, 3);
    assert_eq!(v[2].cumulative_points_used, 6);
}
