use fusionsolar_rs::api::response::device_type::from_u64;
use fusionsolar_rs::model::{DeviceTypeId, Quantity, SupportedDeviceTypeId, STRING_INVERTER};
use fusionsolar_rs::text::decimal_text;

#[test]
fn from_u64_knows_string_inverters() {
    assert_eq!(
        DeviceTypeId::SupportedDeviceTypeId(SupportedDeviceTypeId::StringInverter),
        from_u64(1)
    );
    assert_eq!(1, STRING_INVERTER);
}

#[test]
fn from_u64_keeps_unknown_codes() {
    assert_eq!(DeviceTypeId::UnsupportedDeviceTypeId(0), from_u64(0));
    assert_eq!(DeviceTypeId::UnsupportedDeviceTypeId(2), from_u64(2));
    assert_eq!(DeviceTypeId::UnsupportedDeviceTypeId(u64::MAX), from_u64(u64::MAX));
}

#[test]
fn device_type_code_round_trips() {
    for code in [0u64, 1, 2, 38, 47, 62, 407, u64::MAX] {
        assert_eq!(code, from_u64(code).code());
        assert_eq!(code == 1, from_u64(code).is_supported());
    }
}

#[test]
fn quantity_thousandfold_shifts_the_scale() {
    let plain = Quantity::plain("0.005".to_string());
    assert_eq!("0.005", plain.numeral);
    assert_eq!(0, plain.scale);
    let kilo = plain.thousandfold();
    assert_eq!("0.005", kilo.numeral);
    assert_eq!(3, kilo.scale);
    let value = kilo.numeral.parse::<f64>().unwrap() * 10f64.powi(kilo.scale as i32);
    assert_eq!(5.0, value);
}

#[test]
fn decimal_text_writes_numerals() {
    assert_eq!("0", decimal_text(0));
    assert_eq!("7", decimal_text(7));
    assert_eq!("10", decimal_text(10));
    assert_eq!("12", decimal_text(12));
    assert_eq!("1000000012345678", decimal_text(1000000012345678));
    assert_eq!("9876543210", decimal_text(9876543210));
    assert_eq!("18446744073709551615", decimal_text(u64::MAX));
}

#[test]
fn decimal_text_agrees_with_display() {
    for n in [1u64, 9, 11, 99, 100, 101, 4096, 65535, 1 << 40, u64::MAX - 1] {
        assert_eq!(n.to_string(), decimal_text(n));
    }
}
