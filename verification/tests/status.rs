use nut_hid_device::status::{
    is_whitespace, struct_to_vec, Identification, Packed, PresentStatus, TokenSet,
};

fn encoded(ups_status: &str, charger: &str) -> Vec<u8> {
    struct_to_vec(PresentStatus::from_status(ups_status, charger))
}

#[test]
fn present_status() {
    let status = PresentStatus {
        discharging: true,
        shutdown_imminent: true,
        ..Default::default()
    };

    let data = struct_to_vec(status);

    assert_eq!(data, [0x02, 0x08]);
}

#[test]
fn present_status_to_bytes() {
    let status = PresentStatus {
        discharging: true,
        shutdown_imminent: true,
        ..Default::default()
    };

    let data = struct_to_vec(status);

    assert_eq!(data, [0x02, 0x08]);
}

#[test]
fn present_status_from_status() {
    let status = PresentStatus::from_status("CHRG DISCHRG OL", "");
    assert_eq!(
        status,
        PresentStatus {
            charging: true,
            discharging: true,
            ac_present: true,
            battery_present: true,
            ..Default::default()
        }
    );

    let status = PresentStatus::from_status("OL", "");
    assert_eq!(
        status,
        PresentStatus {
            ac_present: true,
            battery_present: true,
            ..Default::default()
        }
    );

    let status = PresentStatus::from_status("OL RB", "charging");
    assert_eq!(
        status,
        PresentStatus {
            charging: true,
            ac_present: true,
            need_replacement: true,
            battery_present: true,
            ..Default::default()
        }
    );

    let status = PresentStatus::from_status("OB OVER", "discharging");
    assert_eq!(
        status,
        PresentStatus {
            discharging: true,
            ac_present: false,
            overload: true,
            battery_present: true,
            ..Default::default()
        }
    );
}

#[test]
fn dummy_identification() {
    let value = Identification {
        i_product: 1,
        i_manufacturer: 2,
        i_serial: 3,
        ..Default::default()
    };

    let data = struct_to_vec(value);

    assert_eq!(data, [0x01, 0x02, 0x03]);
}

#[test]
fn nut_identification() {
    let value = Identification {
        i_product: 1,
        i_manufacturer: 2,
        i_serial: 3,
        ..Default::default()
    };

    let data = struct_to_vec(value);

    assert_eq!(data, [0x01, 0x02, 0x03]);
}

#[test]
fn default_status_has_no_flag() {
    let status = PresentStatus::default();
    assert_eq!(status.to_bits(), 0);
    assert_eq!(struct_to_vec(status), [0x00, 0x00]);
}

#[test]
fn every_flag_has_its_bit() {
    let flags: Vec<(PresentStatus, u16)> = vec![
        (PresentStatus { charging: true, ..Default::default() }, 0x0001),
        (PresentStatus { discharging: true, ..Default::default() }, 0x0002),
        (PresentStatus { ac_present: true, ..Default::default() }, 0x0004),
        (PresentStatus { battery_present: true, ..Default::default() }, 0x0008),
        (PresentStatus { below_remaining_capacity_limit: true, ..Default::default() }, 0x0010),
        (PresentStatus { remaining_time_limit_expired: true, ..Default::default() }, 0x0020),
        (PresentStatus { need_replacement: true, ..Default::default() }, 0x0040),
        (PresentStatus { voltage_not_regulated: true, ..Default::default() }, 0x0080),
        (PresentStatus { fully_charged: true, ..Default::default() }, 0x0100),
        (PresentStatus { fully_discharged: true, ..Default::default() }, 0x0200),
        (PresentStatus { shutdown_requested: true, ..Default::default() }, 0x0400),
        (PresentStatus { shutdown_imminent: true, ..Default::default() }, 0x0800),
        (PresentStatus { communication_lost: true, ..Default::default() }, 0x1000),
        (PresentStatus { overload: true, ..Default::default() }, 0x2000),
        (PresentStatus { unused1: true, ..Default::default() }, 0x4000),
        (PresentStatus { unused2: true, ..Default::default() }, 0x8000),
    ];
    for (status, bits) in flags {
        assert_eq!(status.to_bits(), bits);
        assert_eq!(status.pack(), vec![(bits & 0xff) as u8, (bits >> 8) as u8]);
    }
}

#[test]
fn all_flags_fill_both_bytes() {
    let status = PresentStatus {
        charging: true,
        discharging: true,
        ac_present: true,
        battery_present: true,
        below_remaining_capacity_limit: true,
        remaining_time_limit_expired: true,
        need_replacement: true,
        voltage_not_regulated: true,
        fully_charged: true,
        fully_discharged: true,
        shutdown_requested: true,
        shutdown_imminent: true,
        communication_lost: true,
        overload: true,
        unused1: true,
        unused2: true,
    };
    assert_eq!(status.to_bits(), 0xffff);
    assert_eq!(struct_to_vec(status), [0xff, 0xff]);
}

#[test]
fn low_byte_comes_first() {
    let status = PresentStatus {
        charging: true,
        ac_present: true,
        overload: true,
        ..Default::default()
    };
    assert_eq!(status.to_bits(), 0x2005);
    assert_eq!(struct_to_vec(status), [0x05, 0x20]);
}

#[test]
fn online_status_bytes() {
    assert_eq!(encoded("OL", ""), [0x0c, 0x00]);
}

#[test]
fn order_of_tokens_does_not_matter() {
    let orders = [
        "CHRG OL RB",
        "CHRG RB OL",
        "OL CHRG RB",
        "OL RB CHRG",
        "RB CHRG OL",
        "RB OL CHRG",
    ];
    let expected = PresentStatus {
        charging: true,
        ac_present: true,
        need_replacement: true,
        battery_present: true,
        ..Default::default()
    };
    for order in orders {
        assert_eq!(PresentStatus::from_status(order, ""), expected);
        assert_eq!(encoded(order, ""), [0x4d, 0x00]);
    }
}

#[test]
fn repeated_tokens_count_once() {
    assert_eq!(
        PresentStatus::from_status("OL OL LB OL", ""),
        PresentStatus::from_status("LB OL", "")
    );
}

#[test]
fn spaces_between_tokens_do_not_count() {
    assert_eq!(
        PresentStatus::from_status("  OL   HB ", ""),
        PresentStatus::from_status("OL HB", "")
    );
}

#[test]
fn empty_status_is_lost_communication() {
    let expected = PresentStatus {
        communication_lost: true,
        battery_present: true,
        ..Default::default()
    };
    assert_eq!(PresentStatus::from_status("", ""), expected);
    assert_eq!(encoded("", ""), [0x08, 0x10]);
}

#[test]
fn status_of_spaces_has_no_token() {
    let expected = PresentStatus {
        communication_lost: true,
        battery_present: true,
        ..Default::default()
    };
    assert_eq!(PresentStatus::from_status(" ", ""), expected);
    assert_eq!(PresentStatus::from_status("   ", ""), expected);
}

#[test]
fn off_and_wait_are_lost_communication() {
    assert!(PresentStatus::from_status("OFF", "").communication_lost);
    assert!(PresentStatus::from_status("OL WAIT", "").communication_lost);
    assert!(!PresentStatus::from_status("OL", "").communication_lost);
}

#[test]
fn bypass_means_no_battery() {
    let status = PresentStatus::from_status("OL BYPASS", "");
    assert_eq!(
        status,
        PresentStatus {
            ac_present: true,
            battery_present: false,
            ..Default::default()
        }
    );
}

#[test]
fn battery_levels() {
    let status = PresentStatus::from_status("OB LB", "");
    assert_eq!(
        status,
        PresentStatus {
            below_remaining_capacity_limit: true,
            battery_present: true,
            ..Default::default()
        }
    );
    let status = PresentStatus::from_status("OL HB", "");
    assert_eq!(
        status,
        PresentStatus {
            ac_present: true,
            fully_charged: true,
            battery_present: true,
            ..Default::default()
        }
    );
}

#[test]
fn unknown_tokens_are_ignored() {
    assert_eq!(
        PresentStatus::from_status("OL TRIM FSD", ""),
        PresentStatus::from_status("OL", "")
    );
}

#[test]
fn a_token_is_a_whole_word() {
    let status = PresentStatus::from_status("OLD CHRGX XOVER", "");
    assert_eq!(
        status,
        PresentStatus {
            battery_present: true,
            ..Default::default()
        }
    );
}

#[test]
fn tokens_are_case_sensitive() {
    let status = PresentStatus::from_status("ol chrg", "Charging");
    assert_eq!(
        status,
        PresentStatus {
            battery_present: true,
            ..Default::default()
        }
    );
}

#[test]
fn charger_status_alone_sets_the_flags() {
    assert!(PresentStatus::from_status("OL", "charging").charging);
    assert!(!PresentStatus::from_status("OL", "charging").discharging);
    assert!(PresentStatus::from_status("OL", "discharging").discharging);
    assert!(!PresentStatus::from_status("OL", "discharging").charging);
    assert!(!PresentStatus::from_status("OL", "resting").charging);
    assert!(!PresentStatus::from_status("OL", "charging ").charging);
}

#[test]
fn remaining_time_limit_is_never_set() {
    for status in ["", "OL", "OB LB", "CHRG DISCHRG OL BYPASS LB RB HB OFF WAIT OVER"] {
        let encoded = PresentStatus::from_status(status, "charging");
        assert!(!encoded.remaining_time_limit_expired);
        assert!(!encoded.voltage_not_regulated);
        assert!(!encoded.fully_discharged);
        assert!(!encoded.shutdown_requested);
        assert!(!encoded.shutdown_imminent);
        assert!(!encoded.unused1);
        assert!(!encoded.unused2);
    }
}

#[test]
fn all_known_tokens() {
    let status =
        PresentStatus::from_status("CHRG DISCHRG OL BYPASS LB RB HB OFF WAIT OVER", "");
    assert_eq!(
        status,
        PresentStatus {
            charging: true,
            discharging: true,
            ac_present: true,
            battery_present: false,
            below_remaining_capacity_limit: true,
            need_replacement: true,
            fully_charged: true,
            communication_lost: true,
            overload: true,
            ..Default::default()
        }
    );
    assert_eq!(struct_to_vec(status), [0x57, 0x31]);
}

#[test]
fn token_set_lookup() {
    let tokens = TokenSet::parse("OL  CHRG");
    assert!(tokens.contains("OL"));
    assert!(tokens.contains("CHRG"));
    assert!(!tokens.contains("O"));
    assert!(!tokens.contains("OL "));
    assert!(!tokens.contains(""));
    assert!(!tokens.contains("OL  CHRG"));
    assert!(!tokens.is_empty());
    assert!(TokenSet::parse("").is_empty());
    assert!(TokenSet::parse("  ").is_empty());
    assert!(!TokenSet::parse(" x ").is_empty());
}

#[test]
fn any_white_space_separates_tokens() {
    let tokens = TokenSet::parse("OL\tCHRG\nLB\r\nRB\u{00A0}HB\u{3000}OVER");
    for word in ["OL", "CHRG", "LB", "RB", "HB", "OVER"] {
        assert!(tokens.contains(word), "{:?}", word);
    }
    assert!(!tokens.contains("OL\tCHRG"));
    assert!(!tokens.contains(""));
    assert_eq!(
        PresentStatus::from_status("OL\tCHRG\n", ""),
        PresentStatus::from_status("OL CHRG", "")
    );
    assert!(TokenSet::parse(" \t\r\n").is_empty());
    assert!(PresentStatus::from_status("\n", "").communication_lost);
}

#[test]
fn white_space_is_what_unicode_calls_so() {
    for code in 0..=0x10ffffu32 {
        if let Some(c) = char::from_u32(code) {
            assert_eq!(is_whitespace(c), c.is_whitespace(), "{:x}", code);
        }
    }
}

#[test]
fn other_separators_are_part_of_a_token() {
    let tokens = TokenSet::parse("OL,CHRG;LB\u{200B}RB");
    assert!(tokens.contains("OL,CHRG;LB\u{200B}RB"));
    assert!(!tokens.contains("OL"));
}

#[test]
fn identification_keeps_field_order() {
    let value = Identification {
        i_product: 2,
        i_manufacturer: 1,
        i_serial: 3,
    };
    assert_eq!(value.pack(), [0x02, 0x01, 0x03]);
    assert_eq!(struct_to_vec(Identification::default()), [0, 0, 0]);
}
