use nut_hid_device::backports::{
    chars_from_utf16le_lossy, decode_utf16_lossy, from_utf16le_lossy, units_of,
};
use nut_hid_device::properties::{
    devprop_nuthid_guid, get_comp_key, CompKey, Guid, PropertiesStore, PropertyStore,
    DEVPROP_NUTHID_KEY_HOST, DEVPROP_NUTHID_KEY_PORT,
};
use nut_hid_device::wdf::{
    wdf_device_query_property_string, wdf_device_query_property_u32, Status, DEVPROP_TYPE_STRING,
    DEVPROP_TYPE_UINT32,
};

fn wide(text: &str) -> Vec<u8> {
    let mut bytes = Vec::new();
    for unit in text.encode_utf16() {
        bytes.extend_from_slice(&unit.to_le_bytes());
    }
    bytes
}

#[test]
fn bytes_pair_up_low_byte_first() {
    assert_eq!(units_of(&[]), Vec::<u16>::new());
    assert_eq!(units_of(&[0x34]), Vec::<u16>::new());
    assert_eq!(units_of(&[0x34, 0x12]), vec![0x1234]);
    assert_eq!(units_of(&[0x34, 0x12, 0xff]), vec![0x1234]);
    assert_eq!(units_of(&[0x00, 0xff, 0xff, 0x00]), vec![0xff00, 0x00ff]);
}

#[test]
fn utf16_is_read() {
    assert_eq!(from_utf16le_lossy(&[]), "");
    assert_eq!(from_utf16le_lossy(&wide("localhost")), "localhost");
    assert_eq!(from_utf16le_lossy(&wide("žluťoučký 🐎 kůň")), "žluťoučký 🐎 kůň");
    assert_eq!(from_utf16le_lossy(&[0x3d, 0xd8, 0x0b, 0xdd]), "\u{1F50B}");
    assert_eq!(decode_utf16_lossy(&vec![0xdbff, 0xdfff]), vec!['\u{10ffff}']);
    assert_eq!(decode_utf16_lossy(&vec![0xd800, 0xdc00]), vec!['\u{10000}']);
    assert_eq!(decode_utf16_lossy(&vec![0xd7ff, 0xe000]), vec!['\u{d7ff}', '\u{e000}']);
}

#[test]
fn broken_utf16_is_replaced() {
    assert_eq!(from_utf16le_lossy(&[0x61]), "\u{FFFD}");
    assert_eq!(from_utf16le_lossy(&[0x61, 0x00, 0x62]), "a\u{FFFD}");
    assert_eq!(decode_utf16_lossy(&vec![0xd800]), vec!['\u{FFFD}']);
    assert_eq!(decode_utf16_lossy(&vec![0xdc00]), vec!['\u{FFFD}']);
    assert_eq!(decode_utf16_lossy(&vec![0xdc00, 0xd800]), vec!['\u{FFFD}', '\u{FFFD}']);
    assert_eq!(decode_utf16_lossy(&vec![0xd800, 0x61]), vec!['\u{FFFD}', 'a']);
    assert_eq!(
        decode_utf16_lossy(&vec![0xd800, 0xd83d, 0xdd0b, 0xdd0b]),
        vec!['\u{FFFD}', '\u{1F50B}', '\u{FFFD}']
    );
    let units = vec![0xd834, 0xdd1e, 0x006d, 0x0075, 0xd800, 0x0069, 0x0063];
    assert_eq!(
        decode_utf16_lossy(&units).into_iter().collect::<String>(),
        String::from_utf16_lossy(&units)
    );
    assert_eq!(chars_from_utf16le_lossy(&[0x00, 0xd8, 0x01]), vec!['\u{FFFD}', '\u{FFFD}']);
}

#[test]
fn string_property_ends_at_its_first_zero() {
    let mut data = wide("dummy");
    data.extend_from_slice(&[0, 0]);
    assert_eq!(
        wdf_device_query_property_string(&data, DEVPROP_TYPE_STRING),
        Ok("dummy".to_string())
    );
    data.extend_from_slice(&wide("rest"));
    data.extend_from_slice(&[0, 0]);
    assert_eq!(
        wdf_device_query_property_string(&data, DEVPROP_TYPE_STRING),
        Ok("dummy".to_string())
    );
    assert_eq!(
        wdf_device_query_property_string(&[0, 0], DEVPROP_TYPE_STRING),
        Ok(String::new())
    );
    assert_eq!(
        wdf_device_query_property_string(&[0x61, 0, 0, 0, 0x62], 0x12),
        Ok("a".to_string())
    );
}

#[test]
fn string_property_without_zero_is_bad_data() {
    assert_eq!(
        wdf_device_query_property_string(&wide("dummy"), DEVPROP_TYPE_STRING),
        Err(Status::BadData)
    );
    assert_eq!(wdf_device_query_property_string(&[], DEVPROP_TYPE_STRING), Err(Status::BadData));
    assert_eq!(wdf_device_query_property_string(&[0], DEVPROP_TYPE_STRING), Err(Status::BadData));
}

#[test]
fn property_of_another_type_is_bad_data() {
    let mut data = wide("dummy");
    data.extend_from_slice(&[0, 0]);
    assert_eq!(
        wdf_device_query_property_string(&data, DEVPROP_TYPE_UINT32),
        Err(Status::BadData)
    );
    assert_eq!(wdf_device_query_property_string(&data, 0), Err(Status::BadData));
    assert_eq!(
        wdf_device_query_property_u32(&[1, 2, 3, 4], DEVPROP_TYPE_STRING),
        Err(Status::BadData)
    );
}

#[test]
fn number_property_is_read_lowest_byte_first() {
    assert_eq!(wdf_device_query_property_u32(&[0xa5, 0x0d, 0, 0], DEVPROP_TYPE_UINT32), Ok(3493));
    assert_eq!(
        wdf_device_query_property_u32(&[0x78, 0x56, 0x34, 0x12], 0x07),
        Ok(0x1234_5678)
    );
    assert_eq!(
        wdf_device_query_property_u32(&[0xff, 0xff, 0xff, 0xff], DEVPROP_TYPE_UINT32),
        Ok(u32::MAX)
    );
}

#[test]
fn number_property_has_four_bytes() {
    for data in [&[][..], &[1], &[1, 2, 3], &[1, 2, 3, 4, 5]] {
        assert_eq!(
            wdf_device_query_property_u32(data, DEVPROP_TYPE_UINT32),
            Err(Status::BadData)
        );
    }
}

#[test]
fn property_keys() {
    let guid = devprop_nuthid_guid();
    assert_eq!(
        guid,
        Guid {
            data1: 0x53c0d411,
            data2: 0xcfb1,
            data3: 0x4d29,
            data4: [0x8f, 0x81, 0xe7, 0x05, 0xf3, 0xac, 0x17, 0xa1],
        }
    );
    assert_eq!(DEVPROP_NUTHID_KEY_HOST, 2);
    assert_eq!(DEVPROP_NUTHID_KEY_PORT, 3);
    assert_eq!(
        get_comp_key(guid, 7),
        CompKey {
            store: PropertyStore::System,
            fmtid: guid,
            pid: 7,
        }
    );
}

#[test]
fn properties_are_kept_in_order() {
    let guid = devprop_nuthid_guid();
    let mut store = PropertiesStore::new();
    assert!(store.get().is_empty());
    store.add_string(guid, DEVPROP_NUTHID_KEY_HOST, "localhost");
    store.add_string(guid, 4, "dummy");
    store.add_u32(guid, DEVPROP_NUTHID_KEY_PORT, 3493);
    let properties = store.get();
    assert_eq!(properties.len(), 3);

    assert_eq!(properties[0].comp_key, get_comp_key(guid, 2));
    assert_eq!(properties[0].property_type, DEVPROP_TYPE_STRING);
    let mut host = wide("localhost");
    host.extend_from_slice(&[0, 0]);
    assert_eq!(properties[0].buffer, host);
    assert_eq!(properties[0].buffer.len(), 20);

    assert_eq!(properties[1].comp_key.pid, 4);
    assert_eq!(properties[1].buffer, [0x64, 0, 0x75, 0, 0x6d, 0, 0x6d, 0, 0x79, 0, 0, 0]);

    assert_eq!(properties[2].comp_key, get_comp_key(guid, 3));
    assert_eq!(properties[2].property_type, DEVPROP_TYPE_UINT32);
    assert_eq!(properties[2].buffer, [0xa5, 0x0d, 0x00, 0x00]);
}

#[test]
fn string_property_has_one_zero_at_its_end() {
    let guid = devprop_nuthid_guid();
    let mut store = PropertiesStore::new();
    store.add_string(guid, 1, "");
    store.add_string(guid, 1, "ab\0");
    store.add_string(guid, 1, "\0");
    store.add_string(guid, 1, "\u{1F50B}");
    let properties = store.get();
    assert_eq!(properties[0].buffer, [0, 0]);
    assert_eq!(properties[1].buffer, [0x61, 0, 0x62, 0, 0, 0]);
    assert_eq!(properties[2].buffer, [0, 0]);
    assert_eq!(properties[3].buffer, [0x3d, 0xd8, 0x0b, 0xdd, 0, 0]);
}

#[test]
fn zero_inside_a_string_is_not_accepted() {
    assert!(PropertiesStore::accepts(""));
    assert!(PropertiesStore::accepts("localhost"));
    assert!(PropertiesStore::accepts("localhost\0"));
    assert!(PropertiesStore::accepts("\0"));
    assert!(!PropertiesStore::accepts("local\0host"));
    assert!(!PropertiesStore::accepts("\0localhost"));
    assert!(!PropertiesStore::accepts("localhost\0\0"));
}

#[test]
fn stored_configuration_is_read_back() {
    let guid = devprop_nuthid_guid();
    for (host, port, backend) in [
        ("localhost", 3493u32, "dummy"),
        ("ups.example.org", 0, "nut"),
        ("2001:db8::1", u32::MAX, "mini"),
        ("hôte-é\u{1F50B}", 70000, ""),
    ] {
        let mut store = PropertiesStore::new();
        store.add_string(guid, 2, host);
        store.add_string(guid, 4, backend);
        store.add_u32(guid, 3, port);
        let properties = store.get();
        assert_eq!(
            wdf_device_query_property_string(&properties[0].buffer, properties[0].property_type),
            Ok(host.to_string())
        );
        assert_eq!(
            wdf_device_query_property_string(&properties[1].buffer, properties[1].property_type),
            Ok(backend.to_string())
        );
        assert_eq!(
            wdf_device_query_property_u32(&properties[2].buffer, properties[2].property_type),
            Ok(port)
        );
    }
}
