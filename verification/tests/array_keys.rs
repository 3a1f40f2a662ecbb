use pve_api_types::array_keys::{array_index, array_key, PropertyArray};

#[test]
fn keys_are_prefix_and_decimal_index() {
    assert_eq!(array_key("net", 0), "net0");
    assert_eq!(array_key("unused", 255), "unused255");
}

#[test]
fn indices_are_read_back() {
    assert_eq!(array_index("net", "net0", 32), Some(0));
    assert_eq!(array_index("net", "net31", 32), Some(31));
    for i in 0..256 {
        assert_eq!(array_index("mp", &array_key("mp", i), 256), Some(i));
    }
}

#[test]
fn other_keys_are_not_indices() {
    assert_eq!(array_index("net", "net32", 32), None);
    assert_eq!(array_index("net", "net", 32), None);
    assert_eq!(array_index("net", "net01", 32), None);
    assert_eq!(array_index("net", "net1a", 32), None);
    assert_eq!(array_index("net", "netx", 32), None);
    assert_eq!(array_index("net", "scsi0", 32), None);
    assert_eq!(array_index("net", "nat0", 32), None);
    assert_eq!(array_index("net", "net+1", 32), None);
    assert_eq!(array_index("net", "net0", 0), None);
    assert_eq!(array_index("net", "net99999999999999999999999", 32), None);
    assert_eq!(array_index("x", "x18446744073709551615", usize::MAX), None);
}

#[test]
fn property_array_holds_entries_below_its_count() {
    let mut net = PropertyArray::new(4);
    assert_eq!(net.count(), 4);
    assert_eq!(net.get(0), None);
    assert_eq!(net.insert(2, "virtio=AA:BB".to_string()), Ok(None));
    assert_eq!(net.get(2).map(String::as_str), Some("virtio=AA:BB"));
    assert_eq!(
        net.insert(2, "e1000=CC:DD".to_string()),
        Ok(Some("virtio=AA:BB".to_string()))
    );
    assert_eq!(net.get(2).map(String::as_str), Some("e1000=CC:DD"));
    assert_eq!(net.insert(4, "x".to_string()), Err("x".to_string()));
    assert_eq!(net.get(4), None);
    assert_eq!(net.remove(2), Some("e1000=CC:DD".to_string()));
    assert_eq!(net.get(2), None);
    assert_eq!(net.remove(9), None);
}
