// The end-to-end protocol tests: one request line in, one wire string out,
// against a store that lives across the requests of each test.

use yocto::server::handle_line;
use yocto::store::Store;
use yocto::SEP;

fn send(store: &mut Store, request: String) -> String {
    handle_line(&request, SEP, store)
}

fn assert_error(response: String) {
    let split: Vec<&str> = response.split(SEP).collect();
    if split[0] != "ERR" {
        panic!("No ERR code sent.");
    }
    if split.len() < 2 {
        panic!("No error message sent.");
    }
}

fn assert_ok(response: String, with_value: Option<String>) {
    let split: Vec<&str> = response.split(SEP).collect();
    if split[0] != "OK" {
        panic!("No OK code sent.");
    }
    if let Some(value) = with_value {
        assert_eq!(value, split[1]);
    } else {
        assert_eq!(split.len(), 1);
    }
}

#[test]
fn invalid_command() {
    let mut store = Store::new();
    let res = send(&mut store, "ABCDE".to_string());
    assert_error(res);
}

#[test]
fn invalid_number_args_1() {
    let mut store = Store::new();
    let res = send(&mut store, format!("GET{}key{}value", SEP, SEP));
    assert_error(res);
}

#[test]
fn invalid_number_args_2() {
    let mut store = Store::new();
    let res = send(&mut store, format!("INSERT{}key", SEP));
    assert_error(res);
}

#[test]
fn unknown_key() {
    let mut store = Store::new();
    let res = send(&mut store, format!("GET{}key", SEP));
    assert_eq!(res, format!("ERR{}Key not found: key", SEP));
}

#[test]
fn insert() {
    let mut store = Store::new();
    let res = send(&mut store, format!("INSERT{}key{}value", SEP, SEP));
    assert_ok(res, None);
}

#[test]
fn insert_retain() {
    let mut store = Store::new();
    let _ = send(&mut store, format!("INSERT{}key{}value", SEP, SEP));
    let res = send(&mut store, format!("GET{}key", SEP));
    assert_ok(res, Some("value".to_string()));
}

#[test]
fn insert_retain_spaces() {
    let mut store = Store::new();
    let _ = send(&mut store, format!("INSERT{}ke y{}valu e", SEP, SEP));
    let res = send(&mut store, format!("GET{}ke y", SEP));
    assert_ok(res, Some("valu e".to_string()));
}

#[test]
fn replace_return_old() {
    let mut store = Store::new();
    let _ = send(&mut store, format!("INSERT{}key{}value", SEP, SEP));
    let res = send(&mut store, format!("INSERT{}key{}new_value", SEP, SEP));
    assert_ok(res, Some("value".to_string()));
}

#[test]
fn replace_retain() {
    let mut store = Store::new();
    let _ = send(&mut store, format!("INSERT{}key{}value", SEP, SEP));
    let _ = send(&mut store, format!("INSERT{}key{}new_value", SEP, SEP));
    let res = send(&mut store, format!("GET{}key", SEP));
    assert_ok(res, Some("new_value".to_string()));
}

#[test]
fn remove() {
    let mut store = Store::new();
    let _ = send(&mut store, format!("INSERT{}key{}value", SEP, SEP));
    let res = send(&mut store, format!("REMOVE{}key", SEP));
    assert_ok(res, Some("value".to_string()));
}

#[test]
fn remove_unknown() {
    let mut store = Store::new();
    let res = send(&mut store, format!("REMOVE{}key", SEP));
    assert_error(res);
}

#[test]
fn clear() {
    let mut store = Store::new();
    let _ = send(&mut store, format!("INSERT{}key{}value", SEP, SEP));
    let res = send(&mut store, format!("GET{}key", SEP));
    assert_ok(res, Some("value".to_string()));
}

#[test]
fn test() {
    let mut store = Store::new();
    let res = send(&mut store, "TEST".to_string());
    assert_error(res);
}

#[test]
fn contains_before_and_after() {
    let mut store = Store::new();
    let res = send(&mut store, format!("CONTAINS{}key", SEP));
    assert_ok(res, Some("FALSE".to_string()));
    let _ = send(&mut store, format!("INSERT{}key{}value", SEP, SEP));
    let res = send(&mut store, format!("CONTAINS{}key", SEP));
    assert_ok(res, Some("TRUE".to_string()));
}

#[test]
fn clear_empties_the_store() {
    let mut store = Store::new();
    let _ = send(&mut store, format!("INSERT{}a{}1", SEP, SEP));
    let _ = send(&mut store, format!("INSERT{}b{}2", SEP, SEP));
    let res = send(&mut store, "CLEAR".to_string());
    assert_ok(res, None);
    let res = send(&mut store, format!("GET{}a", SEP));
    assert_eq!(res, format!("ERR{}Key not found: a", SEP));
    let res = send(&mut store, format!("GET{}b", SEP));
    assert_eq!(res, format!("ERR{}Key not found: b", SEP));
}

#[test]
fn remove_twice() {
    let mut store = Store::new();
    let _ = send(&mut store, format!("INSERT{}key{}value", SEP, SEP));
    let res = send(&mut store, format!("REMOVE{}key", SEP));
    assert_eq!(res, format!("OK{}value", SEP));
    let res = send(&mut store, format!("REMOVE{}key", SEP));
    assert_eq!(res, format!("ERR{}Key not found: key", SEP));
}

#[test]
fn empty_request_line() {
    let mut store = Store::new();
    let res = send(&mut store, String::new());
    assert_eq!(res, format!("ERR{}Unable to parse command", SEP));
}

#[test]
fn wrong_arity_is_a_parse_error() {
    let mut store = Store::new();
    let res = send(&mut store, format!("GET{}key{}extra", SEP, SEP));
    assert_eq!(res, format!("ERR{}Unable to parse command", SEP));
    let res = send(&mut store, format!("CLEAR{}extra", SEP));
    assert_eq!(res, format!("ERR{}Unable to parse command", SEP));
    let res = send(&mut store, format!("CONTAINS{}a{}b", SEP, SEP));
    assert_eq!(res, format!("ERR{}Unable to parse command", SEP));
    let res = send(&mut store, format!("REMOVE{}a{}b", SEP, SEP));
    assert_eq!(res, format!("ERR{}Unable to parse command", SEP));
    let res = send(&mut store, format!("INSERT{}a{}b{}c", SEP, SEP, SEP));
    assert_eq!(res, format!("ERR{}Unable to parse command", SEP));
}

#[test]
fn parse_failure_never_mutates() {
    let mut store = Store::new();
    let _ = send(&mut store, format!("INSERT{}key{}value", SEP, SEP));
    let _ = send(&mut store, format!("INSERT{}key", SEP));
    let _ = send(&mut store, "NONSENSE".to_string());
    let res = send(&mut store, format!("GET{}key", SEP));
    assert_ok(res, Some("value".to_string()));
}

#[test]
fn trailing_nul_padding_is_stripped() {
    let mut store = Store::new();
    let padded = format!("INSERT{}key{}value\0\0\0", SEP, SEP);
    let res = send(&mut store, padded);
    assert_ok(res, None);
    let res = send(&mut store, format!("GET{}key\0\0", SEP));
    assert_ok(res, Some("value".to_string()));
}

#[test]
fn distinct_keys_all_retrievable() {
    let mut store = Store::new();
    for i in 0..32 {
        let res = send(&mut store, format!("INSERT{}key{}{}value{}", SEP, i, SEP, i));
        assert_ok(res, None);
    }
    for i in 0..32 {
        let res = send(&mut store, format!("GET{}key{}", SEP, i));
        assert_ok(res, Some(format!("value{}", i)));
    }
}
