use gx21m15::{
    config_write_command, get_temperature_hysteresis_bytes_from_value,
    get_temperature_hysteresis_value_from_bytes, get_temperature_value_from_bytes,
    threshold_write_command, Gx21m15Config, OsFailQueueSize, Register, Temperature,
};

#[test]
fn threshold_round_trip_all_half_degrees() {
    // Every exact multiple of 0.5 degrees in range survives encode/decode.
    let mut eighths: i16 = -1024;
    while eighths <= 1020 {
        let bytes = get_temperature_hysteresis_bytes_from_value(Temperature::from_eighths(eighths));
        let back = get_temperature_hysteresis_value_from_bytes(bytes);
        assert_eq!(back.eighths, eighths);
        eighths += 4;
    }
}

#[test]
fn threshold_sign_symmetry() {
    // decode(encode(-v)) == -decode(encode(v)) for every non-zero magnitude.
    let mut eighths: i16 = 1;
    while eighths <= 1023 {
        let pos = get_temperature_hysteresis_value_from_bytes(
            get_temperature_hysteresis_bytes_from_value(Temperature::from_eighths(eighths)),
        );
        let neg = get_temperature_hysteresis_value_from_bytes(
            get_temperature_hysteresis_bytes_from_value(Temperature::from_eighths(-eighths)),
        );
        assert_eq!(neg.eighths, -pos.eighths);
        eighths += 1;
    }
}

#[test]
fn threshold_fractional_presence() {
    // Any non-zero fractional remainder encodes as a full half degree:
    // 25.25 degrees (202 eighths) encodes exactly like 25.5 degrees.
    let quarter = get_temperature_hysteresis_bytes_from_value(Temperature::from_eighths(202));
    let half = get_temperature_hysteresis_bytes_from_value(Temperature::from_eighths(204));
    assert_eq!(quarter, half);
    assert_eq!(quarter, [0x19, 0x80]);
}

#[test]
fn main_decode_boundaries() {
    let cases: [(u16, i16); 5] = [
        (0x3F8, 1016),  // 127.0
        (0x3E8, 1000),  // 125.0
        (0x000, 0),     // 0.0
        (0x7FF, -1),    // -0.125
        (0x648, -440),  // -55.0
    ];
    for (field, eighths) in cases {
        let bytes = (field << 5).to_be_bytes();
        assert_eq!(get_temperature_value_from_bytes(bytes).eighths, eighths);
    }
}

#[test]
fn threshold_decode_boundaries() {
    let cases: [(u16, i16); 4] = [
        (0x0FA, 1000),  // 125.0
        (0x000, 0),     // 0.0
        (0x1FF, -4),    // -0.5
        (0x192, -440),  // -55.0
    ];
    for (field, eighths) in cases {
        let bytes = (field << 7).to_be_bytes();
        assert_eq!(get_temperature_hysteresis_value_from_bytes(bytes).eighths, eighths);
    }
}

#[test]
fn decode_ignores_padding_bits() {
    // The low five (main) and seven (threshold) bits are padding.
    let clean = get_temperature_value_from_bytes([0x19, 0x40]);
    let dirty = get_temperature_value_from_bytes([0x19, 0x5F]);
    assert_eq!(clean.eighths, dirty.eighths);

    let clean = get_temperature_hysteresis_value_from_bytes([0x19, 0x80]);
    let dirty = get_temperature_hysteresis_value_from_bytes([0x19, 0xFF]);
    assert_eq!(clean.eighths, dirty.eighths);
}

fn queue_sizes() -> [OsFailQueueSize; 4] {
    [
        OsFailQueueSize::One,
        OsFailQueueSize::Two,
        OsFailQueueSize::Four,
        OsFailQueueSize::Eight,
    ]
}

#[test]
fn config_defaults_to_zero() {
    let config = Gx21m15Config::new();
    assert_eq!(config.build(), 0);
    assert!(!config.get_shutdown());
    assert!(!config.get_os_mode());
    assert!(!config.get_os_polarity());
    assert_eq!(config.get_os_fail_queue_size(), OsFailQueueSize::One);
}

#[test]
fn config_set_get_round_trip() {
    for size in queue_sizes() {
        let mut config = Gx21m15Config::new();
        config.set_os_fail_queue_size(size);
        assert_eq!(config.get_os_fail_queue_size(), size);
    }
    for value in [false, true] {
        let mut config = Gx21m15Config::new();
        config.set_os_polarity(value);
        assert_eq!(config.get_os_polarity(), value);

        let mut config = Gx21m15Config::new();
        config.set_os_mode(value);
        assert_eq!(config.get_os_mode(), value);

        let mut config = Gx21m15Config::new();
        config.set_shutdown(value);
        assert_eq!(config.get_shutdown(), value);
    }
}

#[test]
fn config_fields_independent() {
    // Over all 32 field combinations, each setter leaves the other three
    // fields as they were.
    for size in queue_sizes() {
        for polarity in [false, true] {
            for mode in [false, true] {
                for shutdown in [false, true] {
                    let mut config = Gx21m15Config::new();
                    config.set_os_fail_queue_size(size);
                    config.set_os_polarity(polarity);
                    config.set_os_mode(mode);
                    config.set_shutdown(shutdown);
                    assert_eq!(config.get_os_fail_queue_size(), size);
                    assert_eq!(config.get_os_polarity(), polarity);
                    assert_eq!(config.get_os_mode(), mode);
                    assert_eq!(config.get_shutdown(), shutdown);

                    // Setting one field again touches none of the others.
                    let before = config.build();
                    config.set_os_fail_queue_size(size);
                    assert_eq!(config.build(), before);
                    config.set_os_polarity(polarity);
                    assert_eq!(config.build(), before);
                    config.set_os_mode(mode);
                    assert_eq!(config.build(), before);
                    config.set_shutdown(shutdown);
                    assert_eq!(config.build(), before);
                }
            }
        }
    }
}

#[test]
fn config_byte_round_trip() {
    for byte in 0u8..=0x1F {
        let config = Gx21m15Config::from_byte(byte);
        assert_eq!(config.build(), byte);
    }
}

#[test]
fn register_addresses() {
    assert_eq!(Register::Temperature.address(), 0x00);
    assert_eq!(Register::Config.address(), 0x01);
    assert_eq!(Register::TemperatureHysteresis.address(), 0x02);
    assert_eq!(Register::TemperatureOverShutdown.address(), 0x03);
}

#[test]
fn write_commands() {
    let mut config = Gx21m15Config::new();
    config.set_shutdown(true);
    config.set_os_fail_queue_size(OsFailQueueSize::Four);
    assert_eq!(config_write_command(&config), [0x01, 0b0001_0001]);

    // -55.0 degrees: field 0x192, big-endian word 0xC900.
    let command =
        threshold_write_command(Register::TemperatureHysteresis, Temperature::from_eighths(-440));
    assert_eq!(command, [0x02, 0xC9, 0x00]);

    let command = threshold_write_command(
        Register::TemperatureOverShutdown,
        Temperature::from_degrees(125),
    );
    assert_eq!(command, [0x03, 0x7D, 0x00]);
}

#[test]
fn temperature_constructors() {
    assert_eq!(Temperature::from_eighths(-7).eighths, -7);
    assert_eq!(Temperature::from_degrees(-55).eighths, -440);
    assert_eq!(Temperature::from_degrees(127).eighths, 1016);
}
