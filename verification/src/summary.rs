//! Structured decoding of the two cached memory pages: the fixed
//! identification fields of the module-information page, and the thresholds,
//! live values and status bits of the diagnostic page.
//!
//! Byte ranges that hold fixed-width ASCII text (vendor, part number,
//! revision, serial number, date code) are handed out as raw byte buffers;
//! rendering them as text is presentation, not decoding.

use crate::alarms::alarm_flag;
use crate::alarms::warning_flag;
use crate::codec::current_convert;
use crate::codec::current_value;
use crate::codec::power_convert;
use crate::codec::power_value;
use crate::codec::temperature_convert;
use crate::codec::temperature_value;
use crate::codec::voltage_convert;
use crate::codec::voltage_value;
use crate::codec::word_value;
use vstd::prelude::*;

verus! {

/// Converted readings for the five diagnostic channels: temperature in
/// units of 1/256 degree Celsius, supply voltage in microvolts, transmit
/// bias current in microamperes, and transmit and receive optical power in
/// nanowatts.
pub struct ChannelReadings {
    pub temperature: i32,
    pub voltage: u32,
    pub bias: u32,
    pub tx_power: u32,
    pub rx_power: u32,
}

/// The readings decode the 2-byte big-endian fields of the diagnostic page
/// at the given per-channel byte offsets.
pub open spec fn readings_match(
    r: ChannelReadings,
    diag: Seq<u8>,
    t: int,
    v: int,
    b: int,
    tp: int,
    rp: int,
) -> bool {
    &&& r.temperature == temperature_value(diag[t], diag[t + 1])
    &&& r.voltage == voltage_value(diag[v], diag[v + 1])
    &&& r.bias == current_value(diag[b], diag[b + 1])
    &&& r.tx_power == power_value(diag[tp], diag[tp + 1])
    &&& r.rx_power == power_value(diag[rp], diag[rp + 1])
}

/// Decode the five channels of one threshold or live-value row of the
/// diagnostic page.
fn read_channels(diag: &Vec<u8>, t: usize, v: usize, b: usize, tp: usize, rp: usize) -> (r:
    ChannelReadings)
    requires
        diag.len() == 256,
        t + 1 < 256,
        v + 1 < 256,
        b + 1 < 256,
        tp + 1 < 256,
        rp + 1 < 256,
    ensures
        readings_match(r, diag@, t as int, v as int, b as int, tp as int, rp as int),
{
    ChannelReadings {
        temperature: temperature_convert(diag[t], diag[t + 1]),
        voltage: voltage_convert(diag[v], diag[v + 1]),
        bias: current_convert(diag[b], diag[b + 1]),
        tx_power: power_convert(diag[tp], diag[tp + 1]),
        rx_power: power_convert(diag[rp], diag[rp + 1]),
    }
}

/// The fixed identification fields of the module-information page.
pub struct InfoSummary {
    /// Device type, byte 0.
    pub device_type: u8,
    /// Extended device type, byte 1.
    pub extended_type: u8,
    /// Connector type, byte 2.
    pub connector: u8,
    /// Transceiver compliance bit fields, bytes 3..11.
    pub transceiver: Vec<u8>,
    /// Nominal bit rate in units of 100 MBit/s, byte 12.
    pub bit_rate: u8,
    /// Rate-select identifier, byte 13.
    pub rate_select: u8,
    /// Supported length on 9/125 um single-mode fiber in km, byte 14.
    pub length_smf_km: u8,
    /// Supported length on 9/125 um single-mode fiber in units of 100 m, byte 15.
    pub length_smf: u8,
    /// Supported length on 50/125 um OM2 fiber in units of 10 m, byte 16.
    pub length_om2: u8,
    /// Supported length on 62.5/125 um OM1 fiber in units of 10 m, byte 17.
    pub length_om1: u8,
    /// Supported length on copper cable in m, byte 18.
    pub length_copper: u8,
    /// Supported length on 50/125 um fiber in units of 10 m, byte 19.
    pub length_mmf: u8,
    /// Vendor name, fixed-width ASCII, bytes 20..36.
    pub vendor: Vec<u8>,
    /// Part number, fixed-width ASCII, bytes 40..56.
    pub part_number: Vec<u8>,
    /// Revision, fixed-width ASCII, bytes 56..60.
    pub revision: Vec<u8>,
    /// Serial number, fixed-width ASCII, bytes 68..84.
    pub serial_number: Vec<u8>,
    /// Date code, fixed-width ASCII, bytes 84..92.
    pub date_code: Vec<u8>,
    /// Laser wavelength in nm, big-endian bytes 60..62.
    pub wavelength: u16,
    /// Optional-signal support bit fields, bytes 64..66.
    pub optional_signals: Vec<u8>,
    /// Bit 5 of byte 65.
    pub rate_select_implemented: bool,
    /// Bit 4 of byte 65.
    pub tx_disable_implemented: bool,
    /// Bit 3 of byte 65.
    pub tx_fault_implemented: bool,
    /// Bit 1 of byte 65.
    pub los_implemented: bool,
    /// Lower link-margin bound in percent, byte 67.
    pub link_margin_min: u8,
    /// Upper link-margin bound in percent, byte 66.
    pub link_margin_max: u8,
    /// Diagnostic-monitoring capability bits, byte 92.
    pub monitoring: u8,
    /// Bit 4 of byte 92: readings use external calibration.
    pub external_calibration: bool,
    /// Bit 2 of byte 92: diagnostics require an address change.
    pub address_change_required: bool,
    /// Enhanced-options bits, byte 93.
    pub enhanced_options: u8,
    /// Compliance byte, byte 94.
    pub compliance: u8,
}

/// The summary fields are exactly the fixed sub-fields of the
/// module-information page.
pub open spec fn info_matches(r: InfoSummary, data: Seq<u8>) -> bool {
    &&& r.device_type == data[0]
    &&& r.extended_type == data[1]
    &&& r.connector == data[2]
    &&& r.transceiver@ == data.subrange(3, 11)
    &&& r.bit_rate == data[12]
    &&& r.rate_select == data[13]
    &&& r.length_smf_km == data[14]
    &&& r.length_smf == data[15]
    &&& r.length_om2 == data[16]
    &&& r.length_om1 == data[17]
    &&& r.length_copper == data[18]
    &&& r.length_mmf == data[19]
    &&& r.vendor@ == data.subrange(20, 36)
    &&& r.part_number@ == data.subrange(40, 56)
    &&& r.revision@ == data.subrange(56, 60)
    &&& r.serial_number@ == data.subrange(68, 84)
    &&& r.date_code@ == data.subrange(84, 92)
    &&& r.wavelength == word_value(data[60], data[61])
    &&& r.optional_signals@ == data.subrange(64, 66)
    &&& r.rate_select_implemented == ((data[65] >> 5u8) & 1 == 1)
    &&& r.tx_disable_implemented == ((data[65] >> 4u8) & 1 == 1)
    &&& r.tx_fault_implemented == ((data[65] >> 3u8) & 1 == 1)
    &&& r.los_implemented == ((data[65] >> 1u8) & 1 == 1)
    &&& r.link_margin_min == data[67]
    &&& r.link_margin_max == data[66]
    &&& r.monitoring == data[92]
    &&& r.external_calibration == ((data[92] >> 4u8) & 1 == 1)
    &&& r.address_change_required == ((data[92] >> 2u8) & 1 == 1)
    &&& r.enhanced_options == data[93]
    &&& r.compliance == data[94]
}

/// The decoded diagnostic page: the four threshold rows and the live-value
/// row for the five channels, the status/control bits of byte 110, and the
/// raw alarm and warning flags of the ten conditions.
pub struct DiagSummary {
    /// High-alarm thresholds.
    pub alarm_high: ChannelReadings,
    /// High-warning thresholds.
    pub warning_high: ChannelReadings,
    /// Live values, offsets 96..106.
    pub value: ChannelReadings,
    /// Low-warning thresholds.
    pub warning_low: ChannelReadings,
    /// Low-alarm thresholds.
    pub alarm_low: ChannelReadings,
    /// Status/control byte 110.
    pub status: u8,
    /// Bit 7 of byte 110.
    pub tx_disable: bool,
    /// Bit 6 of byte 110.
    pub soft_tx_disable: bool,
    /// Bit 5 of byte 110.
    pub rate_select_1: bool,
    /// Bit 4 of byte 110.
    pub rate_select_0: bool,
    /// Bit 3 of byte 110.
    pub soft_rate_select_0: bool,
    /// Bit 2 of byte 110.
    pub tx_fault: bool,
    /// Bit 1 of byte 110.
    pub rx_los: bool,
    /// Bit 0 of byte 110.
    pub data_not_ready: bool,
    /// Alarm flag of each of the ten conditions, in condition order.
    pub alarms: Vec<bool>,
    /// Warning flag of each of the ten conditions, in condition order.
    pub warnings: Vec<bool>,
}

/// The summary decodes the threshold rows, the live values, the status bits
/// and the alarm and warning flags of the diagnostic page.
pub open spec fn diag_matches(r: DiagSummary, diag: Seq<u8>) -> bool {
    &&& readings_match(r.alarm_high, diag, 0, 8, 16, 24, 32)
    &&& readings_match(r.warning_high, diag, 4, 12, 20, 28, 36)
    &&& readings_match(r.value, diag, 96, 98, 100, 102, 104)
    &&& readings_match(r.warning_low, diag, 6, 14, 22, 30, 38)
    &&& readings_match(r.alarm_low, diag, 2, 10, 18, 26, 34)
    &&& r.status == diag[110]
    &&& r.tx_disable == ((diag[110] >> 7u8) & 1 == 1)
    &&& r.soft_tx_disable == ((diag[110] >> 6u8) & 1 == 1)
    &&& r.rate_select_1 == ((diag[110] >> 5u8) & 1 == 1)
    &&& r.rate_select_0 == ((diag[110] >> 4u8) & 1 == 1)
    &&& r.soft_rate_select_0 == ((diag[110] >> 3u8) & 1 == 1)
    &&& r.tx_fault == ((diag[110] >> 2u8) & 1 == 1)
    &&& r.rx_los == ((diag[110] >> 1u8) & 1 == 1)
    &&& r.data_not_ready == (diag[110] & 1 == 1)
    &&& r.alarms.len() == 10
    &&& r.warnings.len() == 10
    &&& forall|i: int| 0 <= i < 10 ==> r.alarms@[i] == alarm_flag(diag, i)
    &&& forall|i: int| 0 <= i < 10 ==> r.warnings@[i] == warning_flag(diag, i)
}

/// A fresh copy of the byte range `[from, to)` of a page.
fn bytes_range(v: &Vec<u8>, from: usize, to: usize) -> (r: Vec<u8>)
    requires
        from <= to,
        to <= v.len(),
    ensures
        r@ == v@.subrange(from as int, to as int),
{
    let mut r: Vec<u8> = Vec::new();
    let mut i: usize = from;
    while i < to
        invariant
            from <= i <= to,
            to <= v.len(),
            r@ == v@.subrange(from as int, i as int),
        decreases to - i,
    {
        r.push(v[i]);
        proof {
            assert(r@ =~= v@.subrange(from as int, (i + 1) as int));
        }
        i = i + 1;
    }
    r
}

/// Decode the ten per-condition flag bits rooted at `base`: condition `i`
/// is bit `7 - i % 8` of byte `base + i / 8`.
fn decode_flag_bits(diag: &Vec<u8>, base: usize) -> (r: Vec<bool>)
    requires
        diag.len() == 256,
        base <= 254,
    ensures
        r.len() == 10,
        forall|i: int|
            0 <= i < 10 ==> r@[i] == ((diag@[base + i / 8] >> ((7 - i % 8) as u8)) & 1 == 1),
{
    let mut r: Vec<bool> = Vec::new();
    let mut i: usize = 0;
    while i < 10
        invariant
            diag.len() == 256,
            base <= 254,
            i <= 10,
            r.len() == i,
            forall|k: int|
                0 <= k < i ==> r@[k] == ((diag@[base + k / 8] >> ((7 - k % 8) as u8)) & 1 == 1),
        decreases 10 - i,
    {
        let register: usize = i / 8;
        let bit: u8 = 7 - (i % 8) as u8;
        r.push((diag[base + register] >> bit) & 1 == 1);
        i = i + 1;
    }
    r
}

/// Decode the fixed identification fields of a module-information page.
pub fn decode_info(data: &Vec<u8>) -> (r: InfoSummary)
    requires
        data.len() == 256,
    ensures
        info_matches(r, data@),
{
    InfoSummary {
        device_type: data[0],
        extended_type: data[1],
        connector: data[2],
        transceiver: bytes_range(data, 3, 11),
        bit_rate: data[12],
        rate_select: data[13],
        length_smf_km: data[14],
        length_smf: data[15],
        length_om2: data[16],
        length_om1: data[17],
        length_copper: data[18],
        length_mmf: data[19],
        vendor: bytes_range(data, 20, 36),
        part_number: bytes_range(data, 40, 56),
        revision: bytes_range(data, 56, 60),
        serial_number: bytes_range(data, 68, 84),
        date_code: bytes_range(data, 84, 92),
        wavelength: data[60] as u16 * 256 + data[61] as u16,
        optional_signals: bytes_range(data, 64, 66),
        rate_select_implemented: (data[65] >> 5u8) & 1 == 1,
        tx_disable_implemented: (data[65] >> 4u8) & 1 == 1,
        tx_fault_implemented: (data[65] >> 3u8) & 1 == 1,
        los_implemented: (data[65] >> 1u8) & 1 == 1,
        link_margin_min: data[67],
        link_margin_max: data[66],
        monitoring: data[92],
        external_calibration: (data[92] >> 4u8) & 1 == 1,
        address_change_required: (data[92] >> 2u8) & 1 == 1,
        enhanced_options: data[93],
        compliance: data[94],
    }
}

/// Decode the thresholds, live values, status bits and condition flags of a
/// diagnostic page.
pub fn decode_diag(diag: &Vec<u8>) -> (r: DiagSummary)
    requires
        diag.len() == 256,
    ensures
        diag_matches(r, diag@),
{
    DiagSummary {
        alarm_high: read_channels(diag, 0, 8, 16, 24, 32),
        warning_high: read_channels(diag, 4, 12, 20, 28, 36),
        value: read_channels(diag, 96, 98, 100, 102, 104),
        warning_low: read_channels(diag, 6, 14, 22, 30, 38),
        alarm_low: read_channels(diag, 2, 10, 18, 26, 34),
        status: diag[110],
        tx_disable: (diag[110] >> 7u8) & 1 == 1,
        soft_tx_disable: (diag[110] >> 6u8) & 1 == 1,
        rate_select_1: (diag[110] >> 5u8) & 1 == 1,
        rate_select_0: (diag[110] >> 4u8) & 1 == 1,
        soft_rate_select_0: (diag[110] >> 3u8) & 1 == 1,
        tx_fault: (diag[110] >> 2u8) & 1 == 1,
        rx_los: (diag[110] >> 1u8) & 1 == 1,
        data_not_ready: diag[110] & 1 == 1,
        alarms: decode_flag_bits(diag, 112),
        warnings: decode_flag_bits(diag, 116),
    }
}

} // verus!
