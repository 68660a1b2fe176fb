use sfp_driver::codec::current_convert;
use sfp_driver::codec::current_encode;
use sfp_driver::codec::power_convert;
use sfp_driver::codec::power_encode;
use sfp_driver::codec::temperature_convert;
use sfp_driver::codec::temperature_encode;
use sfp_driver::codec::voltage_convert;
use sfp_driver::codec::voltage_encode;

#[test]
fn temperature_quarter_degree_example() {
    // Raw bytes [0x19, 0x80] encode 25 + 128/256 = 25.50 degrees Celsius.
    let t = temperature_convert(0x19, 0x80);
    assert_eq!(t, 25 * 256 + 128);
    assert_eq!(t as f32 / 256.0, 25.50);
}

#[test]
fn temperature_negative_values() {
    // The high byte is signed: 0xff sign-extends to -1.
    assert_eq!(temperature_convert(0xff, 0x80), -128);
    assert_eq!(temperature_convert(0xff, 0x80) as f32 / 256.0, -0.5);
    assert_eq!(temperature_convert(0x80, 0x00), -32768);
    assert_eq!(temperature_convert(0x7f, 0xff), 32767);
    assert_eq!(temperature_convert(0x00, 0x00), 0);
}

#[test]
fn temperature_round_trip_bytes() {
    for (b0, b1) in [(0x19u8, 0x80u8), (0xff, 0x80), (0x00, 0x00), (0x80, 0x00), (0x7f, 0xff)] {
        let t = temperature_convert(b0, b1);
        assert_eq!(temperature_encode(t), (b0, b1));
    }
}

#[test]
fn voltage_sanity_values() {
    // Raw bytes [0x0c, 0x80] encode (12 * 256 + 128) / 10000 = 0.3200 V.
    let uv = voltage_convert(0x0c, 0x80);
    assert_eq!(uv, 320_000);
    assert_eq!(uv as f32 / 1_000_000.0, 0.32);
    // Boundary values of the 16-bit raw field.
    assert_eq!(voltage_convert(0x00, 0x00), 0);
    assert_eq!(voltage_convert(0xff, 0xff), 6_553_500);
    assert_eq!(voltage_convert(0xff, 0xff) as f32 / 1_000_000.0, 6.5535);
}

#[test]
fn voltage_round_trip_bytes() {
    for (b0, b1) in [(0x0cu8, 0x80u8), (0x00, 0x00), (0xff, 0xff), (0x12, 0x34)] {
        let uv = voltage_convert(b0, b1);
        assert_eq!(voltage_encode(uv), (b0, b1));
    }
}

#[test]
fn current_conversion_and_round_trip() {
    // Raw 250 is 250 / 500 = 0.5 mA, that is 500 uA.
    let ua = current_convert(0x00, 0xfa);
    assert_eq!(ua, 500);
    assert_eq!(ua as f32 / 1000.0, 0.5);
    assert_eq!(current_convert(0xff, 0xff), 131_070);
    for (b0, b1) in [(0x00u8, 0xfau8), (0x00, 0x00), (0xff, 0xff), (0xab, 0xcd)] {
        let ua = current_convert(b0, b1);
        assert_eq!(current_encode(ua), (b0, b1));
    }
}

#[test]
fn power_conversion_and_round_trip() {
    // Raw 10000 is 1.0 mW, that is 1_000_000 nW.
    let nw = power_convert(0x27, 0x10);
    assert_eq!(nw, 1_000_000);
    assert_eq!(nw as f32 / 1_000_000.0, 1.0);
    assert_eq!(power_convert(0xff, 0xff), 6_553_500);
    for (b0, b1) in [(0x27u8, 0x10u8), (0x00, 0x00), (0xff, 0xff), (0x01, 0x02)] {
        let nw = power_convert(b0, b1);
        assert_eq!(power_encode(nw), (b0, b1));
    }
}
