use maint::{Cli, Command, Contract, ContractRow, Customer, DataStore, Date, Error, Output};

fn store() -> DataStore {
    DataStore::open_in_memory().unwrap()
}

fn date(s: &str) -> Date {
    Date::parse_iso(s).unwrap()
}

#[test]
fn date_parse_valid() {
    assert_eq!(date("2025-01-31"), Date { year: 2025, month: 1, day: 31 });
    assert_eq!(date("0007-04-05"), Date { year: 7, month: 4, day: 5 });
    assert_eq!(date("2024-02-29"), Date { year: 2024, month: 2, day: 29 });
    assert_eq!(date("2000-02-29"), Date { year: 2000, month: 2, day: 29 });
}

#[test]
fn date_parse_invalid() {
    assert!(Date::parse_iso("2023-02-29").is_none());
    assert!(Date::parse_iso("1900-02-29").is_none());
    assert!(Date::parse_iso("2025-13-01").is_none());
    assert!(Date::parse_iso("2025-04-31").is_none());
    assert!(Date::parse_iso("2025-00-10").is_none());
    assert!(Date::parse_iso("2025-1-1").is_none());
    assert!(Date::parse_iso("2025/01/01").is_none());
    assert!(Date::parse_iso("garbage").is_none());
    assert!(Date::parse_iso("").is_none());
}

#[test]
fn date_format_round_trip() {
    let d = Date::from_ymd(7, 4, 5).unwrap();
    assert_eq!(d.to_iso(), "0007-04-05");
    let d = Date::from_ymd(2025, 12, 31).unwrap();
    assert_eq!(d.to_iso(), "2025-12-31");
    assert_eq!(Date::parse_iso(&d.to_iso()).unwrap(), d);
    assert!(Date::from_ymd(10000, 1, 1).is_none());
    assert!(Date::from_ymd(2025, 2, 30).is_none());
}

#[test]
fn contract_row_bad_date_is_invalid_date() {
    let row = ContractRow {
        id: 1,
        customer_id: 1,
        start_date: String::from("not-a-date"),
        end_date: String::from("2025-12-31"),
        total_points: 5,
    };
    assert!(matches!(Contract::from_row(&row), Err(Error::InvalidDate)));
}

#[test]
fn get_missing_ids_not_found() {
    let ds = store();
    assert!(matches!(ds.get_customer(1), Err(Error::NotFound)));
    assert!(matches!(ds.get_contract(1), Err(Error::NotFound)));
    assert!(matches!(ds.get_request(1), Err(Error::NotFound)));
    assert!(matches!(ds.get_work(1), Err(Error::NotFound)));
}

#[test]
fn usage_missing_contract_not_found() {
    let ds = store();
    assert!(matches!(ds.usage(7), Err(Error::NotFound)));
}

#[test]
fn add_then_get_customer() {
    let mut ds = store();
    ds.add_customer("first").unwrap();
    ds.add_customer("second").unwrap();
    let c = ds.get_customer(2).unwrap();
    assert_eq!(c.id, 2);
    assert_eq!(c.name, "second");
}

#[test]
fn save_unknown_id_returns_zero_and_changes_nothing() {
    let mut ds = store();
    ds.add_customer("kept").unwrap();
    let n = ds
        .save_customer(Customer { id: 99, name: String::from("ghost") })
        .unwrap();
    assert_eq!(n, 0);
    let customers = ds.list_customer().unwrap();
    assert_eq!(customers.len(), 1);
    assert_eq!(customers[0].name, "kept");
}

#[test]
fn save_existing_id_replaces_every_field() {
    let mut ds = store();
    ds.add_contract(1, &date("2025-01-01"), &date("2025-12-31"), 10)
        .unwrap();
    let n = ds
        .save_contract(Contract {
            id: 1,
            customer_id: 2,
            start_date: date("2026-03-01"),
            end_date: date("2026-09-30"),
            total_points: 42,
        })
        .unwrap();
    assert_eq!(n, 1);
    let c = ds.get_contract(1).unwrap();
    assert_eq!(c.customer_id, 2);
    assert_eq!(c.start_date, date("2026-03-01"));
    assert_eq!(c.end_date, date("2026-09-30"));
    assert_eq!(c.total_points, 42);
}

#[test]
fn usage_no_requests_is_empty_success() {
    let mut ds = store();
    ds.add_contract(1, &date("2025-01-01"), &date("2025-12-31"), 10)
        .unwrap();
    let u = ds.usage(1).unwrap();
    assert_eq!(u.total_points, 10);
    assert_eq!(u.start_date, date("2025-01-01"));
    assert_eq!(u.end_date, date("2025-12-31"));
    assert!(u.cumulative_usage.is_empty());
}

#[test]
fn usage_out_of_window_request_contributes_nothing() {
    let mut ds = store();
    ds.add_contract(1, &date("2025-01-01"), &date("2025-12-31"), 10)
        .unwrap();
    ds.add_request(1, "too early", &date("2024-12-31")).unwrap();
    ds.add_request(1, "too late", &date("2026-01-01")).unwrap();
    ds.add_work(1, "alice", "lots", 5, &date("2025-06-01")).unwrap();
    ds.add_work(2, "bob", "more", 7, &date("2025-06-02")).unwrap();
    let u = ds.usage(1).unwrap();
    assert!(u.cumulative_usage.is_empty());
}

#[test]
fn usage_orders_by_request_then_work_date() {
    let mut ds = store();
    ds.add_contract(1, &date("2025-01-01"), &date("2025-12-31"), 100)
        .unwrap();
    ds.add_request(1, "later request", &date("2025-06-01")).unwrap();
    ds.add_request(1, "earlier request", &date("2025-02-01")).unwrap();
    ds.add_work(1, "alice", "w1", 1, &date("2025-07-05")).unwrap();
    ds.add_work(1, "alice", "w2", 2, &date("2025-07-01")).unwrap();
    ds.add_work(2, "bob", "w3", 4, &date("2025-03-01")).unwrap();
    let u = ds.usage(1).unwrap();
    let rows = u.cumulative_usage;
    assert_eq!(rows.len(), 3);
    assert_eq!(rows[0].work_description, "w3");
    assert_eq!(rows[0].cumulative_points_used, 4);
    assert_eq!(rows[1].work_description, "w2");
    assert_eq!(rows[1].cumulative_points_used, 6);
    assert_eq!(rows[2].work_description, "w1");
    assert_eq!(rows[2].cumulative_points_used, 7);
}

#[test]
fn usage_other_contract_excluded() {
    let mut ds = store();
    ds.add_contract(1, &date("2025-01-01"), &date("2025-12-31"), 10)
        .unwrap();
    ds.add_contract(1, &date("2025-01-01"), &date("2025-12-31"), 10)
        .unwrap();
    ds.add_request(2, "other contract", &date("2025-06-01")).unwrap();
    ds.add_work(1, "alice", "w", 3, &date("2025-06-02")).unwrap();
    let u = ds.usage(1).unwrap();
    assert!(u.cumulative_usage.is_empty());
    let u2 = ds.usage(2).unwrap();
    assert_eq!(u2.cumulative_usage.len(), 1);
    assert_eq!(u2.cumulative_usage[0].cumulative_points_used, 3);
}

#[test]
fn usage_overflow_reported() {
    let mut ds = store();
    ds.add_contract(1, &date("2025-01-01"), &date("2025-12-31"), 10)
        .unwrap();
    ds.add_request(1, "big", &date("2025-06-01")).unwrap();
    ds.add_work(1, "alice", "huge", 3_000_000_000, &date("2025-06-02"))
        .unwrap();
    ds.add_work(1, "alice", "huge again", 3_000_000_000, &date("2025-06-03"))
        .unwrap();
    assert!(matches!(ds.usage(1), Err(Error::Overflow)));
}

#[test]
fn cli_add_and_list() {
    let mut ds = store();
    let add = Cli { command: Command::AddCustomer { name: String::from("via cli") } };
    match add.run(&mut ds).unwrap() {
        Output::Rows(n) => assert_eq!(n, 1),
        _ => panic!("expected a row count"),
    }
    let list = Cli { command: Command::ListCustomers };
    match list.run(&mut ds).unwrap() {
        Output::Customers(v) => {
            assert_eq!(v.len(), 1);
            assert_eq!(v[0].name, "via cli");
        },
        _ => panic!("expected a customer listing"),
    }
}

#[test]
fn cli_edit_reattaches_identifier() {
    let mut ds = store();
    ds.add_customer("before").unwrap();
    let edit = Cli {
        command: Command::EditCustomer {
            id: 1,
            edited: Customer { id: 77, name: String::from("renamed") },
        },
    };
    match edit.run(&mut ds).unwrap() {
        Output::Rows(n) => assert_eq!(n, 1),
        _ => panic!("expected a row count"),
    }
    let c = ds.get_customer(1).unwrap();
    assert_eq!(c.id, 1);
    assert_eq!(c.name, "renamed");
    assert!(matches!(ds.get_customer(77), Err(Error::NotFound)));
}

#[test]
fn cli_show_usage() {
    let mut ds = store();
    ds.add_contract(1, &date("2025-01-01"), &date("2025-12-31"), 12)
        .unwrap();
    ds.add_request(1, "req", &date("2025-05-01")).unwrap();
    ds.add_work(1, "alice", "w", 5, &date("2025-05-02")).unwrap();
    let show = Cli { command: Command::ShowUsage { contract_id: 1 } };
    match show.run(&mut ds).unwrap() {
        Output::Usage(u) => {
            assert_eq!(u.total_points, 12);
            assert_eq!(u.cumulative_usage.len(), 1);
            assert_eq!(u.cumulative_usage[0].points_used, 5);
            assert_eq!(u.cumulative_usage[0].cumulative_points_used, 5);
            assert_eq!(u.cumulative_usage[0].worker, "alice");
            assert_eq!(u.cumulative_usage[0].request_date, date("2025-05-01"));
            assert_eq!(u.cumulative_usage[0].work_date, date("2025-05-02"));
        },
        _ => panic!("expected a usage ledger"),
    }
}

#[test]
fn usage_from_tables_pure_pipeline() {
    let contract = Contract {
        id: 1,
        customer_id: 1,
        start_date: date("2025-01-01"),
        end_date: date("2025-12-31"),
        total_points: 12,
    };
    let req_rows = vec![
        maint::RequestRow {
            id: 1,
            contract_id: 1,
            description: String::from("req1"),
            request_date: String::from("2025-01-01"),
        },
        maint::RequestRow {
            id: 2,
            contract_id: 1,
            description: String::from("req2"),
            request_date: String::from("2025-12-31"),
        },
    ];
    let work_rows = vec![
        maint::WorkRow {
            id: 1,
            request_id: 1,
            worker: String::from("alice"),
            description: String::from("work1"),
            points_used: 1,
            work_date: String::from("2025-01-01"),
        },
        maint::WorkRow {
            id: 2,
            request_id: 1,
            worker: String::from("alice"),
            description: String::from("work1-2"),
            points_used: 2,
            work_date: String::from("2025-01-10"),
        },
        maint::WorkRow {
            id: 3,
            request_id: 2,
            worker: String::from("alice"),
            description: String::from("work2"),
            points_used: 3,
            work_date: String::from("2025-12-31"),
        },
    ];
    let ledger = maint::usage::usage_from_tables(&contract, &req_rows, &work_rows).unwrap();
    assert_eq!(ledger.len(), 3);
    assert_eq!(ledger[0].cumulative_points_used, 1);
    assert_eq!(ledger[1].cumulative_points_used, 3);
    assert_eq!(ledger[2].cumulative_points_used, 6);
    assert_eq!(ledger[0].request_description, "req1");
    assert_eq!(ledger[2].worker, "alice");
    assert_eq!(ledger[2].work_description, "work2");
    assert_eq!(ledger[2].request_date, date("2025-12-31"));
}
