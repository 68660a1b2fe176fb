use sfp_driver::Error;
use sfp_driver::Phase;
use sfp_driver::SFP;
use sfp_driver::SimBus;
use sfp_driver::alarms::Alert;
use sfp_driver::alarms::Severity;

fn info_image(monitoring: u8, compliance: u8) -> Vec<u8> {
    let mut v = vec![0u8; 256];
    v[0] = 0x03; // SFP
    v[2] = 0x07; // LC connector
    v[12] = 0x0d; // 1300 MBit/s
    for (i, b) in b"ACME OPTICS     ".iter().enumerate() {
        v[20 + i] = *b;
    }
    v[60] = 0x05; // 1310 nm wavelength
    v[61] = 0x1e;
    v[92] = monitoring;
    v[94] = compliance;
    v
}

fn diag_image() -> Vec<u8> {
    let mut v = vec![0u8; 256];
    // Live values at offset 96: temperature 25.5 C, voltage 0.32 V,
    // bias 0.5 mA, tx power 1.0 mW, rx power 0.4660 mW.
    v[96] = 0x19;
    v[97] = 0x80;
    v[98] = 0x0c;
    v[99] = 0x80;
    v[100] = 0x00;
    v[101] = 0xfa;
    v[102] = 0x27;
    v[103] = 0x10;
    v[104] = 0x12;
    v[105] = 0x34;
    v[110] = 0b1010_0101;
    v
}

#[test]
fn new_fetches_both_pages() {
    let info = info_image(0b0100_0000, 0);
    let diag = diag_image();
    let mut bus = SimBus::new(info.clone(), diag.clone(), true, 8);
    let sfp = SFP::new(&mut bus, 0).unwrap();
    let (data, cached_diag) = sfp.print_all();
    assert_eq!(data, info);
    assert_eq!(cached_diag, diag);
}

#[test]
fn gate_skips_diag_fetch_regardless_of_compliance() {
    // Bit 2 of byte 92 set (address change required): the diagnostic fetch
    // must be skipped even though the compliance byte is non-zero.
    let info = info_image(0b0000_0100, 0x05);
    let mut bus = SimBus::new(info, diag_image(), true, 8);
    let mut sfp = SFP::new(&mut bus, 0).unwrap();
    let (_, cached_diag) = sfp.print_all();
    assert_eq!(cached_diag, vec![0u8; 256]);
    assert_eq!(sfp.read_diagnostic_data(&mut bus), Err(Error::DiagnosticsUnavailable));
}

#[test]
fn gate_passes_on_compliance_byte_alone() {
    // Bit 6 of byte 92 clear but compliance byte non-zero: fetch attempted.
    let info = info_image(0b0000_0000, 0x05);
    let diag = diag_image();
    let mut bus = SimBus::new(info, diag.clone(), true, 8);
    let sfp = SFP::new(&mut bus, 0).unwrap();
    assert_eq!(sfp.print_all().1, diag);
}

#[test]
fn probe_failure_is_module_not_present() {
    let mut bus = SimBus::new(info_image(0b0100_0000, 0), diag_image(), false, 8);
    let r = SFP::new(&mut bus, 0);
    assert_eq!(r.err().unwrap(), Error::ModuleNotPresent);
}

#[test]
fn select_activates_exactly_the_indexed_port() {
    for index in 0..8u8 {
        // A module wired to switch bit 8 + index answers the probe.
        let mut bus = SimBus::new(info_image(0b0100_0000, 0), diag_image(), true, 8 + index);
        assert!(SFP::new(&mut bus, index).is_ok());
        // Wired to any other bit, the selection mask misses it.
        let other = 8 + (index + 1) % 8;
        let mut bus = SimBus::new(info_image(0b0100_0000, 0), diag_image(), true, other);
        assert_eq!(SFP::new(&mut bus, index).err().unwrap(), Error::ModuleNotPresent);
    }
}

#[test]
fn broken_switch_is_a_select_bus_error() {
    let mut bus = SimBus::new(info_image(0b0100_0000, 0), diag_image(), true, 8);
    bus.break_switch();
    assert_eq!(SFP::new(&mut bus, 0).err().unwrap(), Error::Bus(Phase::Select));
}

#[test]
fn check_ack_reports_presence() {
    let mut bus = SimBus::new(info_image(0b0100_0000, 0), diag_image(), true, 8);
    let sfp = SFP::new(&mut bus, 0).unwrap();
    assert_eq!(sfp.check_ack(&mut bus), Ok(true));
}

#[test]
fn partial_refresh_updates_only_the_live_block() {
    let info = info_image(0b0100_0000, 0);
    let diag = diag_image();
    let mut bus = SimBus::new(info, diag.clone(), true, 8);
    let mut sfp = SFP::new(&mut bus, 0).unwrap();
    // The module's readings drift after the full fetch, inside and outside
    // the live-value block.
    bus.set_diag_byte(95, 0xaa);
    bus.set_diag_byte(96, 0x42);
    bus.set_diag_byte(117, 0x43);
    bus.set_diag_byte(118, 0x44);
    let live = sfp.read_diagnostic_data(&mut bus).unwrap();
    assert_eq!(live.len(), 22);
    assert_eq!(live[0], 0x42);
    let cached = sfp.print_all().1;
    // Bytes inside [96, 118) follow the refresh; all others keep the value
    // of the prior full fetch.
    assert_eq!(cached[96], 0x42);
    assert_eq!(cached[117], 0x43);
    assert_eq!(cached[95], diag[95]);
    assert_eq!(cached[118], diag[118]);
    for k in 0..96 {
        assert_eq!(cached[k], diag[k]);
    }
    for k in 118..256 {
        assert_eq!(cached[k], diag[k]);
    }
}

#[test]
fn alarm_takes_precedence_over_warning() {
    let info = info_image(0b0100_0000, 0);
    let mut diag = diag_image();
    // Temperature-high alarm and temperature-high warning both set.
    diag[112] = 0b1000_0000;
    diag[116] = 0b1000_0000;
    // Voltage-high warning alone (condition 2, bit 5 of the warning byte).
    diag[116] |= 0b0010_0000;
    let mut bus = SimBus::new(info, diag, true, 8);
    let sfp = SFP::new(&mut bus, 0).unwrap();
    let alerts = sfp.print_alarms();
    assert_eq!(
        alerts,
        vec![
            Alert { condition: 0, severity: Severity::Alarm },
            Alert { condition: 2, severity: Severity::Warning },
        ]
    );
}

#[test]
fn no_flags_no_alerts() {
    let mut bus = SimBus::new(info_image(0b0100_0000, 0), diag_image(), true, 8);
    let sfp = SFP::new(&mut bus, 0).unwrap();
    assert_eq!(sfp.print_alarms(), vec![]);
}

#[test]
fn dump_refreshes_the_cached_page() {
    let info = info_image(0b0100_0000, 0);
    let mut bus = SimBus::new(info, diag_image(), true, 8);
    let mut sfp = SFP::new(&mut bus, 0).unwrap();
    bus.set_diag_byte(0, 0x46);
    let page = sfp.dump_diag(&mut bus).unwrap();
    assert_eq!(page[0], 0x46);
    assert_eq!(sfp.print_all().1, page);
}

#[test]
fn summary_decodes_identification_and_live_values() {
    let info = info_image(0b0100_0000, 0);
    let mut bus = SimBus::new(info, diag_image(), true, 8);
    let sfp = SFP::new(&mut bus, 0).unwrap();
    let (ident, diag) = sfp.print_some();
    assert_eq!(ident.device_type, 0x03);
    assert_eq!(ident.connector, 0x07);
    assert_eq!(ident.bit_rate, 0x0d);
    assert_eq!(ident.vendor, b"ACME OPTICS     ".to_vec());
    assert_eq!(ident.wavelength, 1310);
    assert_eq!(ident.monitoring, 0b0100_0000);
    assert!(!ident.external_calibration);
    assert!(!ident.address_change_required);
    let diag = diag.unwrap();
    assert_eq!(diag.value.temperature, 25 * 256 + 128);
    assert_eq!(diag.value.voltage, 320_000);
    assert_eq!(diag.value.bias, 500);
    assert_eq!(diag.value.tx_power, 1_000_000);
    assert_eq!(diag.value.rx_power, 466_000);
    assert_eq!(diag.status, 0b1010_0101);
    assert!(diag.tx_disable);
    assert!(!diag.soft_tx_disable);
    assert!(diag.rate_select_1);
    assert!(!diag.rate_select_0);
    assert!(!diag.soft_rate_select_0);
    assert!(diag.tx_fault);
    assert!(!diag.rx_los);
    assert!(diag.data_not_ready);
}

#[test]
fn summary_omits_diagnostics_when_unavailable() {
    let info = info_image(0b0000_0100, 0x05);
    let mut bus = SimBus::new(info, diag_image(), true, 8);
    let sfp = SFP::new(&mut bus, 0).unwrap();
    let (_, diag) = sfp.print_some();
    assert!(diag.is_none());
}
