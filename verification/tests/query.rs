use pve_api_types::query::{add_query_arg, add_query_arg_string_list, add_query_bool};

#[test]
fn bool_parameters_switch_separator() {
    let mut query = String::from("/api2/extjs/nodes/pve/qemu");
    let mut sep = '?';
    add_query_bool(&mut query, &mut sep, "full", None);
    assert_eq!(query, "/api2/extjs/nodes/pve/qemu");
    assert_eq!(sep, '?');
    add_query_bool(&mut query, &mut sep, "full", Some(true));
    assert_eq!(sep, '&');
    add_query_bool(&mut query, &mut sep, "history", Some(false));
    assert_eq!(query, "/api2/extjs/nodes/pve/qemu?full=1&history=0");
}

#[test]
fn string_parameter_is_percent_encoded() {
    let mut query = String::new();
    let mut sep = '?';
    add_query_arg(&mut query, &mut sep, "target", &Some("foo bar?".to_string()));
    assert_eq!(query, "?target=foo%20bar%3F");
    assert_eq!(sep, '&');
    add_query_arg(&mut query, &mut sep, "snapshot", &None);
    assert_eq!(query, "?target=foo%20bar%3F");
}

#[test]
fn percent_encoding_covers_every_non_alphanumeric_byte() {
    let mut query = String::new();
    let mut sep = '&';
    add_query_arg(&mut query, &mut sep, "x", &Some("aZ09-_.~/ä".to_string()));
    assert_eq!(query, "&x=aZ09%2D%5F%2E%7E%2F%C3%A4");
}

#[test]
fn string_list_entries_are_joined_by_nul() {
    let mut query = String::from("/path");
    let mut sep = '?';
    let list = Some(vec!["images".to_string(), "iso file".to_string(), "backup".to_string()]);
    add_query_arg_string_list(&mut query, &mut sep, "content", &list);
    assert_eq!(query, "/path?content=images%00iso%20file%00backup");
    assert_eq!(sep, '&');
}

#[test]
fn string_list_edge_cases() {
    let mut query = String::new();
    let mut sep = '?';
    add_query_arg_string_list(&mut query, &mut sep, "content", &None);
    assert_eq!(query, "");
    assert_eq!(sep, '?');
    add_query_arg_string_list(&mut query, &mut sep, "content", &Some(vec![]));
    assert_eq!(query, "?content=");
    add_query_arg_string_list(&mut query, &mut sep, "one", &Some(vec!["a".to_string()]));
    assert_eq!(query, "?content=&one=a");
}

#[test]
fn encoded_values_cannot_break_the_query() {
    let mut query = String::new();
    let mut sep = '?';
    add_query_arg(&mut query, &mut sep, "v", &Some("a&b=c#d?e%".to_string()));
    assert_eq!(query, "?v=a%26b%3Dc%23d%3Fe%25");
    let value = &query["?v=".len()..];
    assert!(value.chars().all(|c| c.is_ascii_alphanumeric() || c == '%'));
}

#[test]
fn separator_stays_when_no_parameter_has_a_value() {
    let mut query = String::from("/p");
    let mut sep = '?';
    add_query_bool(&mut query, &mut sep, "a", None);
    add_query_bool(&mut query, &mut sep, "b", None);
    assert_eq!((query.as_str(), sep), ("/p", '?'));
    add_query_bool(&mut query, &mut sep, "c", Some(false));
    add_query_bool(&mut query, &mut sep, "d", None);
    add_query_bool(&mut query, &mut sep, "e", Some(true));
    assert_eq!((query.as_str(), sep), ("/p?c=0&e=1", '&'));
}

fn percent_decode(s: &str) -> Vec<u8> {
    let b = s.as_bytes();
    let mut out = Vec::new();
    let mut i = 0;
    while i < b.len() {
        if b[i] == b'%' && i + 2 < b.len() {
            let hex = std::str::from_utf8(&b[i + 1..i + 3]).unwrap();
            out.push(u8::from_str_radix(hex, 16).unwrap());
            i += 3;
        } else {
            out.push(b[i]);
            i += 1;
        }
    }
    out
}

#[test]
fn string_list_decodes_to_nul_separated_entries() {
    let mut query = String::new();
    let mut sep = '?';
    let entries = vec!["iso".to_string(), "a b/ü".to_string(), String::new()];
    add_query_arg_string_list(&mut query, &mut sep, "l", &Some(entries.clone()));
    let value = &query["?l=".len()..];
    let decoded = percent_decode(value);
    let parts: Vec<String> = decoded
        .split(|b| *b == 0)
        .map(|p| String::from_utf8(p.to_vec()).unwrap())
        .collect();
    assert_eq!(parts, entries);
}
