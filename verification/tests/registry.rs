use ibc_reflect_send::coin::{clone_coins, Coin};
use ibc_reflect_send::lexical::precedes;
use ibc_reflect_send::msg::AccountInfo;
use ibc_reflect_send::state::{clone_addr, AccountData, Registry, Store};

fn record(time: u64, addr: &str) -> AccountData {
    AccountData {
        last_update_time: time,
        remote_addr: Some(addr.to_string()),
        remote_balance: vec![Coin::new(time as u128, "uatom")],
    }
}

#[test]
fn precedes_is_the_order_of_the_bytes() {
    assert!(precedes("a", "b"));
    assert!(!precedes("b", "a"));
    assert!(!precedes("a", "a"));
    assert!(!precedes("", ""));
    assert!(precedes("", "a"));
    assert!(!precedes("a", ""));
    assert!(precedes("channel-1", "channel-10"));
    assert!(precedes("channel-10", "channel-2"));
    assert!(!precedes("channel-2", "channel-10"));
    assert!(precedes("Z", "a"));
    assert!(precedes("z", "é"));
    assert!(precedes("é", "€"));
    for (a, b) in [("x", "y"), ("ab", "abc"), ("é", "z"), ("", "0"), ("same", "same")] {
        assert_eq!(a < b, precedes(a, b));
        assert_eq!(b < a, precedes(b, a));
    }
}

#[test]
fn registry_keeps_one_record_for_each_channel() {
    let mut registry = Registry::new();
    assert!(registry.load("channel-1").is_none());
    assert!(!registry.contains("channel-1"));
    assert!(registry.range().is_empty());

    registry.save("channel-2".to_string(), record(2, "two"));
    registry.save("channel-1".to_string(), record(1, "one"));
    registry.save("channel-3".to_string(), record(3, "three"));
    assert!(registry.contains("channel-1"));
    assert_eq!(Some("one".to_string()), registry.load("channel-1").unwrap().remote_addr);
    assert_eq!(2, registry.load("channel-2").unwrap().last_update_time);
    assert!(registry.load("channel-4").is_none());

    // a second save replaces the record
    registry.save("channel-2".to_string(), record(20, "twenty"));
    assert_eq!(20, registry.load("channel-2").unwrap().last_update_time);
    let ids: Vec<&str> = registry.range().iter().map(|e| e.channel_id.as_str()).collect();
    assert_eq!(vec!["channel-1", "channel-2", "channel-3"], ids);

    registry.remove("channel-1");
    registry.remove("channel-9");
    assert!(registry.load("channel-1").is_none());
    let ids: Vec<&str> = registry.range().iter().map(|e| e.channel_id.as_str()).collect();
    assert_eq!(vec!["channel-2", "channel-3"], ids);
    registry.remove("channel-3");
    registry.remove("channel-2");
    assert!(registry.range().is_empty());
}

#[test]
fn copies_are_equal_to_what_they_copy() {
    let data = record(7, "seven");
    let copy = data.clone();
    assert_eq!(7, copy.last_update_time);
    assert_eq!(Some("seven".to_string()), copy.remote_addr);
    assert_eq!(vec![Coin::new(7, "uatom")], copy.remote_balance);
    assert_eq!(None, clone_addr(&None));
    assert_eq!(Some("x".to_string()), clone_addr(&Some("x".to_string())));
    let coins = vec![Coin::new(1, "a"), Coin::new(u128::MAX, "b")];
    assert_eq!(coins, clone_coins(&coins));
    assert!(clone_coins(&[].to_vec()).is_empty());
    let fresh = AccountData::default();
    assert_eq!(0, fresh.last_update_time);
    assert_eq!(None, fresh.remote_addr);
    assert!(fresh.remote_balance.is_empty());
}

#[test]
fn account_info_joins_channel_and_record() {
    let info = AccountInfo::convert("channel-7".to_string(), record(7, "seven"));
    assert_eq!(
        info,
        AccountInfo {
            channel_id: "channel-7".to_string(),
            last_update_time: 7,
            remote_addr: Some("seven".to_string()),
            remote_balance: vec![Coin::new(7, "uatom")],
        }
    );
}

#[test]
fn new_store_has_no_channel() {
    let store = Store::new("admin".to_string());
    assert_eq!("admin", store.config.admin);
    assert!(store.accounts.range().is_empty());
}
