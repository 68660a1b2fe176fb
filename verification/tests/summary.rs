use sfp_driver::alarms::Alert;
use sfp_driver::alarms::Severity;
use sfp_driver::alarms::decode_alerts;
use sfp_driver::summary::decode_diag;
use sfp_driver::summary::decode_info;

#[test]
fn info_decoder_extracts_fixed_fields() {
    let mut data = vec![0u8; 256];
    data[0] = 0x03;
    data[1] = 0x04;
    data[2] = 0x07;
    for i in 3..11 {
        data[i] = i as u8;
    }
    data[12] = 0x0d;
    data[13] = 0x02;
    data[14] = 10; // 10 km on single-mode fiber
    data[15] = 100;
    data[16] = 55;
    data[17] = 30;
    data[18] = 7;
    data[19] = 50;
    for (i, b) in b"VENDOR NAME     ".iter().enumerate() {
        data[20 + i] = *b;
    }
    for (i, b) in b"PART-NUMBER-0001".iter().enumerate() {
        data[40 + i] = *b;
    }
    for (i, b) in b"A1B2".iter().enumerate() {
        data[56 + i] = *b;
    }
    for (i, b) in b"SERIAL-NO-000042".iter().enumerate() {
        data[68 + i] = *b;
    }
    for (i, b) in b"20052201".iter().enumerate() {
        data[84 + i] = *b;
    }
    data[60] = 0x05;
    data[61] = 0x1e;
    data[64] = 0x10;
    data[65] = 0b0011_1010;
    data[66] = 95;
    data[67] = 5;
    data[92] = 0b0101_0100;
    data[93] = 0x80;
    data[94] = 0x01;
    let r = decode_info(&data);
    assert_eq!(r.device_type, 0x03);
    assert_eq!(r.extended_type, 0x04);
    assert_eq!(r.connector, 0x07);
    assert_eq!(r.transceiver, vec![3, 4, 5, 6, 7, 8, 9, 10]);
    assert_eq!(r.bit_rate, 0x0d);
    assert_eq!(r.rate_select, 0x02);
    assert_eq!(r.length_smf_km, 10);
    assert_eq!(r.length_smf, 100);
    assert_eq!(r.length_om2, 55);
    assert_eq!(r.length_om1, 30);
    assert_eq!(r.length_copper, 7);
    assert_eq!(r.length_mmf, 50);
    assert_eq!(r.vendor, b"VENDOR NAME     ".to_vec());
    assert_eq!(r.part_number, b"PART-NUMBER-0001".to_vec());
    assert_eq!(r.revision, b"A1B2".to_vec());
    assert_eq!(r.serial_number, b"SERIAL-NO-000042".to_vec());
    assert_eq!(r.date_code, b"20052201".to_vec());
    assert_eq!(r.wavelength, 1310);
    assert_eq!(r.optional_signals, vec![0x10, 0b0011_1010]);
    assert!(r.rate_select_implemented);
    assert!(r.tx_disable_implemented);
    assert!(r.tx_fault_implemented);
    assert!(r.los_implemented);
    assert_eq!(r.link_margin_min, 5);
    assert_eq!(r.link_margin_max, 95);
    assert_eq!(r.monitoring, 0b0101_0100);
    assert!(r.external_calibration);
    assert!(r.address_change_required);
    assert_eq!(r.enhanced_options, 0x80);
    assert_eq!(r.compliance, 0x01);
}

#[test]
fn diag_decoder_extracts_threshold_rows() {
    let mut diag = vec![0u8; 256];
    // Temperature thresholds: high alarm 70.0 C, low alarm -10.0 C,
    // high warning 65.0 C, low warning -5.0 C.
    diag[0] = 0x46;
    diag[1] = 0x00;
    diag[2] = 0xf6;
    diag[3] = 0x00;
    diag[4] = 0x41;
    diag[5] = 0x00;
    diag[6] = 0xfb;
    diag[7] = 0x00;
    // Voltage thresholds: high alarm 3.6 V, low alarm 3.0 V.
    diag[8] = 0x8c;
    diag[9] = 0xa0;
    diag[10] = 0x75;
    diag[11] = 0x30;
    let r = decode_diag(&diag);
    assert_eq!(r.alarm_high.temperature as f32 / 256.0, 70.0);
    assert_eq!(r.alarm_low.temperature as f32 / 256.0, -10.0);
    assert_eq!(r.warning_high.temperature as f32 / 256.0, 65.0);
    assert_eq!(r.warning_low.temperature as f32 / 256.0, -5.0);
    assert_eq!(r.alarm_high.voltage as f32 / 1_000_000.0, 3.6);
    assert_eq!(r.alarm_low.voltage as f32 / 1_000_000.0, 3.0);
}

#[test]
fn diag_decoder_extracts_condition_flags() {
    let mut diag = vec![0u8; 256];
    // Alarms: conditions 0 and 9; warnings: conditions 1 and 8.
    diag[112] = 0b1000_0000;
    diag[113] = 0b0100_0000;
    diag[116] = 0b0100_0000;
    diag[117] = 0b1000_0000;
    let r = decode_diag(&diag);
    let mut expected_alarms = vec![false; 10];
    expected_alarms[0] = true;
    expected_alarms[9] = true;
    let mut expected_warnings = vec![false; 10];
    expected_warnings[1] = true;
    expected_warnings[8] = true;
    assert_eq!(r.alarms, expected_alarms);
    assert_eq!(r.warnings, expected_warnings);
}

#[test]
fn alert_list_follows_condition_order() {
    let mut diag = vec![0u8; 256];
    // Alarm on condition 9 (rx-power-high), warning on conditions 1 and 8.
    diag[113] = 0b0100_0000;
    diag[116] = 0b0100_0000;
    diag[117] = 0b1000_0000;
    let alerts = decode_alerts(&diag);
    assert_eq!(
        alerts,
        vec![
            Alert { condition: 1, severity: Severity::Warning },
            Alert { condition: 8, severity: Severity::Warning },
            Alert { condition: 9, severity: Severity::Alarm },
        ]
    );
}

#[test]
fn all_alarm_bits_give_ten_alarm_entries() {
    let mut diag = vec![0u8; 256];
    diag[112] = 0xff;
    diag[113] = 0b1100_0000;
    diag[116] = 0xff;
    diag[117] = 0b1100_0000;
    let alerts = decode_alerts(&diag);
    assert_eq!(alerts.len(), 10);
    for (i, a) in alerts.iter().enumerate() {
        assert_eq!(a.condition, i as u8);
        assert!(matches!(a.severity, Severity::Alarm));
    }
}

#[test]
fn empty_page_gives_no_alerts() {
    let diag = vec![0u8; 256];
    assert_eq!(decode_alerts(&diag), vec![]);
}
