use rocks::address::IpAddress;
use rocks::configuration::{Configuration, User};

#[test]
fn account_line_splits_at_colons() {
    let u = User::parse_account("alice:5f4dcc3b");
    assert_eq!(u.username(), "alice");
    assert_eq!(u.password_hash(), "5f4dcc3b");
    let u = User::parse_account("bob:hash:extra");
    assert_eq!(u.username(), "bob");
    assert_eq!(u.password_hash(), "hash");
    let u = User::parse_account(":");
    assert_eq!(u.username(), "");
    assert_eq!(u.password_hash(), "");
    let u = User::parse_account("ünï:cödé");
    assert_eq!(u.username(), "ünï");
    assert_eq!(u.password_hash(), "cödé");
}

#[test]
fn accounts_in_order() {
    let lines = vec!["a:1".to_string(), "b:2".to_string()];
    let users = Configuration::get_accounts(&lines);
    assert_eq!(users.len(), 2);
    assert_eq!(users[0].username(), "a");
    assert_eq!(users[1].password_hash(), "2");
}

#[test]
fn whitelist_stops_at_first_bad_line() {
    let entries = vec![Some(IpAddress::V4(0x7f00_0001)), Some(IpAddress::V6(1)), None, Some(IpAddress::V4(2))];
    let ips = Configuration::get_whitelisted_ips(&entries);
    assert_eq!(ips, vec![IpAddress::V4(0x7f00_0001), IpAddress::V6(1)]);
    assert_eq!(Configuration::get_whitelisted_ips(&vec![]), vec![]);
    assert_eq!(Configuration::get_whitelisted_ips(&vec![None, Some(IpAddress::V4(3))]), vec![]);
}

#[test]
fn accept_whitelist_entry_appends_or_stops() {
    let mut ips = Vec::new();
    assert!(Configuration::accept_whitelist_entry(&mut ips, Some(IpAddress::V4(9))));
    assert!(!Configuration::accept_whitelist_entry(&mut ips, None));
    assert_eq!(ips, vec![IpAddress::V4(9)]);
}

#[test]
fn parsed_configuration_listens_on_default() {
    let parsed = Configuration::parse_configuration(vec![IpAddress::V4(5)], vec![User::parse_account("u:p")]);
    let c = Configuration::new(parsed);
    assert_eq!(c.whitelisted_ips, vec![IpAddress::V4(5)]);
    assert_eq!(c.user_accounts.len(), 1);
    assert_eq!(c.listen_ip, "127.0.0.1");
    assert_eq!(c.listen_port, 1080);
}

#[test]
fn failed_parse_falls_back_to_defaults() {
    let c = Configuration::new(Err("unreadable".to_string()));
    assert!(c.whitelisted_ips.is_empty());
    assert!(c.user_accounts.is_empty());
    assert_eq!(c.listen_ip, "127.0.0.1");
    assert_eq!(c.listen_port, 1080);
}
