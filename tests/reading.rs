use aranet::reading::{DecodeError, Device, Humidity, Radiation, Reading, ReadingError};

/// A field in thousandths of a unit, as a float in that unit.
fn in_units(v: Option<Result<u32, ReadingError>>, per_unit: f32) -> Option<Result<f32, ReadingError>> {
    v.map(|r| r.map(|x| x as f32 / per_unit))
}

#[test]
fn test_co2_reading() {
    let raw = vec![
        0x21, 0x2c, 0x05, 0x01, 0x00, 0x0c, 0x01, 0x01, 0xf0, 0x02, 0xc4, 0x01, 0xcd, 0x27,
        0x38, 0x3c, 0x01, 0x3c, 0x00, 0x0d, 0x00, 0x5d,
    ];

    let reading = Reading::try_from(raw.as_slice()).unwrap();
    assert_eq!(reading.device, Device::Aranet4);
    assert_eq!(reading.co2, Some(Ok(752)));
    assert_eq!(reading.radon, None);
    assert_eq!(reading.radiation, None);
    assert_eq!(reading.raw_temperature, Some(Ok(452)));
    assert_eq!(reading.raw_pressure, Some(Ok(10189)));
    assert_eq!(reading.raw_humidity, Some(Ok(Humidity::V1(56))));
    assert_eq!(reading.battery, 60);
    assert_eq!(reading.interval, 60);
    assert_eq!(reading.age, 13);

    assert_eq!(in_units(reading.celsius_milli(), 1000.0), Some(Ok(22.6)));
    assert_eq!(in_units(reading.fahrenheit_milli(), 1000.0), Some(Ok(72.68)));
    assert_eq!(in_units(reading.pressure_pa(), 100.0), Some(Ok(1018.9)));
}

#[test]
fn test_radon_reading() {
    let raw = vec![
        0x03, 0x21, 0x04, 0x09, 0x01, 0x00, 0x00, 0x00, 0x18, 0x00, 0x4c, 0x01, 0x50, 0x27,
        0x35, 0x02, 0x00, 0x64, 0x01, 0x58, 0x02, 0x41, 0x01, 0x45,
    ];

    let reading = Reading::try_from(raw.as_slice()).unwrap();
    assert_eq!(reading.device, Device::AranetRadon);
    assert_eq!(reading.co2, None);
    assert_eq!(reading.radon, Some(Ok(24)));
    assert_eq!(reading.radiation, None);
    assert_eq!(reading.raw_temperature, Some(Ok(332)));
    assert_eq!(reading.raw_pressure, Some(Ok(10064)));
    assert_eq!(reading.raw_humidity, Some(Ok(Humidity::V2(565))));
    assert_eq!(reading.battery, 100);
    assert_eq!(reading.interval, 600);
    assert_eq!(reading.age, 321);

    assert_eq!(in_units(reading.celsius_milli(), 1000.0), Some(Ok(16.6)));
    assert_eq!(in_units(reading.fahrenheit_milli(), 1000.0), Some(Ok(61.88)));
    assert_eq!(in_units(reading.pressure_pa(), 100.0), Some(Ok(1006.4)));
}

#[test]
fn test_radiation_reading() {
    let raw = vec![
        0x02, 0x21, 0x01, 0x09, 0x01, 0x00, 0x35, 0x00, 0x00, 0x00, 0xe4, 0x0c, 0x00, 0x00,
        0x3c, 0x00, 0x00, 0x64, 0x00, 0x3c, 0x00, 0x05, 0x00, 0x37,
    ];

    let reading = Reading::try_from(raw.as_slice()).unwrap();
    assert_eq!(reading.device, Device::AranetRadiation);
    assert_eq!(reading.co2, None);
    assert_eq!(reading.radon, None);
    assert_eq!(
        reading.radiation,
        Some(Radiation {
            raw_total: 53,
            raw_duration: 3300,
            raw_rate: 60,
        })
    );
    assert_eq!(reading.raw_temperature, None);
    assert_eq!(reading.raw_pressure, None);
    assert_eq!(reading.raw_humidity, None);
    assert_eq!(reading.battery, 100);
    assert_eq!(reading.interval, 60);
    assert_eq!(reading.age, 5);

    assert_eq!(in_units(reading.celsius_milli(), 1000.0), None);
    assert_eq!(in_units(reading.fahrenheit_milli(), 1000.0), None);
    assert_eq!(in_units(reading.pressure_pa(), 100.0), None);
}

#[test]
fn test_short() {
    let raw = vec![
        0x21, 0x2c, 0x05, 0x01, 0x00, 0x0c, 0x01, 0x01, 0xf0, 0x02, 0xc4, 0x01, 0xcd, 0x27,
        0x38, 0x3c, 0x01, 0x3c, 0x00, 0x0d,
    ];

    assert!(Reading::try_from(raw.as_slice()).is_err());
}

#[test]
fn test_invalid_co2() {
    let raw = vec![
        0x21, 0x2c, 0x05, 0x01, 0x00, 0x0c, 0x01, 0x01, 0xff, 0xff, 0xc4, 0x01, 0xcd, 0x27,
        0x38, 0x3c, 0x01, 0x3c, 0x00, 0x0d, 0x00, 0x5d,
    ];

    let reading = Reading::try_from(raw.as_slice()).unwrap();
    assert_eq!(reading.device, Device::Aranet4);
    assert_eq!(reading.co2, Some(Err(ReadingError::Invalid)));
    assert_eq!(reading.radon, None);
    assert_eq!(reading.radiation, None);
    assert_eq!(reading.raw_temperature, Some(Ok(452)));
    assert_eq!(reading.raw_pressure, Some(Ok(10189)));
    assert_eq!(reading.raw_humidity, Some(Ok(Humidity::V1(56))));
    assert_eq!(reading.battery, 60);
    assert_eq!(reading.interval, 60);
    assert_eq!(reading.age, 13);
}

#[test]
fn test_invalid_radon() {
    let raw = vec![
        0x03, 0x21, 0x04, 0x09, 0x01, 0x00, 0x00, 0x00, 0xFF, 0xFF, 0x4c, 0x01, 0x50, 0x27,
        0x35, 0x02, 0x00, 0x64, 0x01, 0x58, 0x02, 0x41, 0x01, 0x45,
    ];

    let reading = Reading::try_from(raw.as_slice()).unwrap();
    assert_eq!(reading.device, Device::AranetRadon);
    assert_eq!(reading.co2, None);
    assert_eq!(reading.radon, Some(Err(ReadingError::Invalid)));
    assert_eq!(reading.radiation, None);
    assert_eq!(reading.raw_temperature, Some(Ok(332)));
    assert_eq!(reading.raw_pressure, Some(Ok(10064)));
    assert_eq!(reading.raw_humidity, Some(Ok(Humidity::V2(565))));
    assert_eq!(reading.battery, 100);
    assert_eq!(reading.interval, 600);
    assert_eq!(reading.age, 321);

    assert_eq!(in_units(reading.celsius_milli(), 1000.0), Some(Ok(16.6)));
    assert_eq!(in_units(reading.fahrenheit_milli(), 1000.0), Some(Ok(61.88)));
    assert_eq!(in_units(reading.pressure_pa(), 100.0), Some(Ok(1006.4)));
}

#[test]
fn test_invalid_radon_nodata() {
    let raw = vec![
        0x03, 0x21, 0x04, 0x09, 0x01, 0x00, 0x00, 0x00, 0x01, 0x1F, 0x4c, 0x01, 0x50, 0x27,
        0x35, 0x02, 0x00, 0x64, 0x01, 0x58, 0x02, 0x41, 0x01, 0x45,
    ];

    let reading = Reading::try_from(raw.as_slice()).unwrap();
    assert_eq!(reading.device, Device::AranetRadon);
    assert_eq!(reading.co2, None);
    assert_eq!(reading.radon, Some(Err(ReadingError::NoData)));
    assert_eq!(reading.radiation, None);
    assert_eq!(reading.raw_temperature, Some(Ok(332)));
    assert_eq!(reading.raw_pressure, Some(Ok(10064)));
    assert_eq!(reading.raw_humidity, Some(Ok(Humidity::V2(565))));
    assert_eq!(reading.battery, 100);
    assert_eq!(reading.interval, 600);
    assert_eq!(reading.age, 321);

    assert_eq!(in_units(reading.celsius_milli(), 1000.0), Some(Ok(16.6)));
    assert_eq!(in_units(reading.fahrenheit_milli(), 1000.0), Some(Ok(61.88)));
    assert_eq!(in_units(reading.pressure_pa(), 100.0), Some(Ok(1006.4)));
}

#[test]
fn test_invalid_radon_highhumidity() {
    let raw = vec![
        0x03, 0x21, 0x04, 0x09, 0x01, 0x00, 0x00, 0x00, 0x02, 0x1F, 0x4c, 0x01, 0x50, 0x27,
        0x35, 0x02, 0x00, 0x64, 0x01, 0x58, 0x02, 0x41, 0x01, 0x45,
    ];

    let reading = Reading::try_from(raw.as_slice()).unwrap();
    assert_eq!(reading.device, Device::AranetRadon);
    assert_eq!(reading.co2, None);
    assert_eq!(reading.radon, Some(Err(ReadingError::HighHumidity)));
    assert_eq!(reading.radiation, None);
    assert_eq!(reading.raw_temperature, Some(Ok(332)));
    assert_eq!(reading.raw_pressure, Some(Ok(10064)));
    assert_eq!(reading.raw_humidity, Some(Ok(Humidity::V2(565))));
    assert_eq!(reading.battery, 100);
    assert_eq!(reading.interval, 600);
    assert_eq!(reading.age, 321);

    assert_eq!(in_units(reading.celsius_milli(), 1000.0), Some(Ok(16.6)));
    assert_eq!(in_units(reading.fahrenheit_milli(), 1000.0), Some(Ok(61.88)));
    assert_eq!(in_units(reading.pressure_pa(), 100.0), Some(Ok(1006.4)));
}

#[test]
fn test_invalid_raw_temperature() {
    let raw = vec![
        0x21, 0x2c, 0x05, 0x01, 0x00, 0x0c, 0x01, 0x01, 0xf0, 0x02, 0xff, 0xff, 0xcd, 0x27,
        0x38, 0x3c, 0x01, 0x3c, 0x00, 0x0d, 0x00, 0x5d,
    ];

    let reading = Reading::try_from(raw.as_slice()).unwrap();
    assert_eq!(reading.device, Device::Aranet4);
    assert_eq!(reading.co2, Some(Ok(752)));
    assert_eq!(reading.radon, None);
    assert_eq!(reading.radiation, None);
    assert_eq!(reading.raw_temperature, Some(Err(ReadingError::Invalid)));
    assert_eq!(in_units(reading.celsius_milli(), 1000.0), Some(Err(ReadingError::Invalid)));
    assert_eq!(in_units(reading.fahrenheit_milli(), 1000.0), Some(Err(ReadingError::Invalid)));
    assert_eq!(reading.raw_pressure, Some(Ok(10189)));
    assert_eq!(reading.raw_humidity, Some(Ok(Humidity::V1(56))));
    assert_eq!(reading.battery, 60);
    assert_eq!(reading.interval, 60);
    assert_eq!(reading.age, 13);
}

#[test]
fn test_invalid_pressure() {
    let raw = vec![
        0x21, 0x2c, 0x05, 0x01, 0x00, 0x0c, 0x01, 0x01, 0xf0, 0x02, 0xc4, 0x01, 0xff, 0xff,
        0x38, 0x3c, 0x01, 0x3c, 0x00, 0x0d, 0x00, 0x5d,
    ];

    let reading = Reading::try_from(raw.as_slice()).unwrap();
    assert_eq!(reading.device, Device::Aranet4);
    assert_eq!(reading.co2, Some(Ok(752)));
    assert_eq!(reading.radon, None);
    assert_eq!(reading.radiation, None);
    assert_eq!(reading.raw_temperature, Some(Ok(452)));
    assert_eq!(reading.raw_pressure, Some(Err(ReadingError::Invalid)));
    assert_eq!(in_units(reading.pressure_pa(), 100.0), Some(Err(ReadingError::Invalid)));
    assert_eq!(reading.raw_humidity, Some(Ok(Humidity::V1(56))));
    assert_eq!(reading.battery, 60);
    assert_eq!(reading.interval, 60);
    assert_eq!(reading.age, 13);
}

#[test]
fn test_invalid_humidity() {
    let raw = vec![
        0x21, 0x2c, 0x05, 0x01, 0x00, 0x0c, 0x01, 0x01, 0xf0, 0x02, 0xc4, 0x01, 0xcd, 0x27,
        0xff, 0x3c, 0x01, 0x3c, 0x00, 0x0d, 0x00, 0x5d,
    ];

    let reading = Reading::try_from(raw.as_slice()).unwrap();
    assert_eq!(reading.device, Device::Aranet4);
    assert_eq!(reading.co2, Some(Ok(752)));
    assert_eq!(reading.radon, None);
    assert_eq!(reading.radiation, None);
    assert_eq!(reading.raw_temperature, Some(Ok(452)));
    assert_eq!(reading.raw_pressure, Some(Ok(10189)));
    assert_eq!(reading.raw_humidity, Some(Err(ReadingError::Invalid)));
    assert_eq!(reading.battery, 60);
    assert_eq!(reading.interval, 60);
    assert_eq!(reading.age, 13);
}
