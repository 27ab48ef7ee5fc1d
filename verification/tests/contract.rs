use cosmwasm_std::attr;
use local_cnt::contract::{execute, increment, instantiate, migrate, query, query_state};
use local_cnt::digits::to_dec_string;
use local_cnt::error::ContractError;
use local_cnt::msg::{CountResponse, ExecuteMsg, InstantiateMsg, MigrateMsg, QueryMsg};
use local_cnt::state::Store;

pub const ALICE_ADDR: &str = "juno1gjqnuhv52pd2a7ets2vhw9w9qa9knyhyqd4qeg";

fn get_instance(
    count: u8,
    addr: &str,
) -> (Store, Result<cosmwasm_std::Response, ContractError>) {
    let mut store = Store::new();
    let msg = InstantiateMsg { count };
    let res = instantiate(&mut store, addr.to_string(), msg);
    (store, res)
}

#[test]
fn test_init() {
    let (_, res) = get_instance(42, ALICE_ADDR);

    assert_eq!(
        res.unwrap().attributes,
        vec![
            attr("method", "instantiate"),
            attr("owner", ALICE_ADDR.to_string()),
            attr("count", "42")
        ]
    )
}

#[test]
fn test_increment() {
    let (mut store, _) = get_instance(42, ALICE_ADDR);
    let msg = ExecuteMsg::Increment {};
    let inc_res = execute(&mut store, msg);

    assert_eq!(
        inc_res.unwrap().attributes,
        vec![
            attr("method", "increment"),
            attr("owner", ALICE_ADDR.to_string()),
            attr("count", "43")
        ]
    )
}

#[test]
fn test_set() {
    let (mut store, _) = get_instance(42, ALICE_ADDR);
    let msg = ExecuteMsg::SetCount { count: 45 };
    let set_res = execute(&mut store, msg);

    assert_eq!(
        set_res.unwrap().attributes,
        vec![
            attr("method", "set"),
            attr("owner", ALICE_ADDR.to_string()),
            attr("count", "45")
        ]
    )
}

#[test]
fn test_query() {
    let (store, _) = get_instance(42, ALICE_ADDR);
    let msg = QueryMsg::GetCount {};
    let res = query(&store, msg).unwrap();

    assert_eq!(res.count, 42);
}

#[test]
fn test_full_scenario() {
    let mut store = Store::new();

    let res = instantiate(&mut store, "A".to_string(), InstantiateMsg { count: 42 }).unwrap();
    assert_eq!(
        res.attributes,
        vec![
            attr("method", "instantiate"),
            attr("owner", "A"),
            attr("count", "42")
        ]
    );

    let res = execute(&mut store, ExecuteMsg::Increment {}).unwrap();
    assert_eq!(
        res.attributes,
        vec![
            attr("method", "increment"),
            attr("owner", "A"),
            attr("count", "43")
        ]
    );

    let res = execute(&mut store, ExecuteMsg::SetCount { count: 45 }).unwrap();
    assert_eq!(
        res.attributes,
        vec![attr("method", "set"), attr("owner", "A"), attr("count", "45")]
    );

    let res = query(&store, QueryMsg::GetCount {}).unwrap();
    assert_eq!(res, CountResponse { count: 45 });
}

#[test]
fn test_init_records_owner_and_count() {
    for count in [0u8, 1, 254, 255] {
        let (store, res) = get_instance(count, "owner-id");
        let attrs = res.unwrap().attributes;
        assert_eq!(attrs[1], attr("owner", "owner-id"));
        assert_eq!(query_state(&store).unwrap().count, count);
    }
}

#[test]
fn test_increment_until_max() {
    let (mut store, _) = get_instance(0, ALICE_ADDR);
    for expected in 1u16..=255 {
        let res = increment(&mut store).unwrap();
        assert_eq!(res.attributes[2], attr("count", expected.to_string()));
    }
    assert_eq!(query_state(&store).unwrap().count, 255);
}

#[test]
fn test_increment_overflow() {
    let (mut store, _) = get_instance(255, ALICE_ADDR);
    let res = execute(&mut store, ExecuteMsg::Increment {});
    assert_eq!(res.unwrap_err(), ContractError::Overflow);
    assert_eq!(query_state(&store).unwrap().count, 255);
}

#[test]
fn test_set_regardless_of_prior_count() {
    for prior in [0u8, 42, 255] {
        for v in [0u8, 1, 200, 255] {
            let (mut store, _) = get_instance(prior, ALICE_ADDR);
            let res = local_cnt::contract::set(&mut store, v).unwrap();
            assert_eq!(res.attributes[2], attr("count", v.to_string()));
            assert_eq!(query_state(&store).unwrap().count, v);
        }
    }
}

#[test]
fn test_not_found_before_init() {
    let mut store = Store::new();
    assert_eq!(
        execute(&mut store, ExecuteMsg::Increment {}).unwrap_err(),
        ContractError::NotFound
    );
    assert_eq!(
        execute(&mut store, ExecuteMsg::SetCount { count: 7 }).unwrap_err(),
        ContractError::NotFound
    );
    assert_eq!(
        query(&store, QueryMsg::GetCount {}).unwrap_err(),
        ContractError::NotFound
    );
}

#[test]
fn test_already_initialized() {
    let (mut store, _) = get_instance(42, ALICE_ADDR);
    let res = instantiate(&mut store, "someone-else".to_string(), InstantiateMsg { count: 7 });
    assert_eq!(res.unwrap_err(), ContractError::AlreadyInitialized);
    assert_eq!(query_state(&store).unwrap().count, 42);
}

#[test]
fn test_migrate_reports_version() {
    let res = migrate(MigrateMsg {}).unwrap();
    assert_eq!(
        res.attributes,
        vec![attr("method", "migrate"), attr("version", "0.1.0")]
    );
}

#[test]
fn test_decimal_rendering() {
    for (n, s) in [
        (0u8, "0"),
        (7, "7"),
        (9, "9"),
        (10, "10"),
        (42, "42"),
        (99, "99"),
        (100, "100"),
        (101, "101"),
        (250, "250"),
        (255, "255"),
    ] {
        assert_eq!(to_dec_string(n), s);
    }
}
