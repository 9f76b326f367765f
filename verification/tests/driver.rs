use serial_tool::config::{DataBits, Parity, StopBits};

#[test]
fn data_bits_count_as_the_driver_counts_them() {
    assert_eq!(DataBits::Five.bits(), u8::from(tokio_serial::DataBits::Five));
    assert_eq!(DataBits::Six.bits(), u8::from(tokio_serial::DataBits::Six));
    assert_eq!(DataBits::Seven.bits(), u8::from(tokio_serial::DataBits::Seven));
    assert_eq!(DataBits::Eight.bits(), u8::from(tokio_serial::DataBits::Eight));
    for n in 0..=255u8 {
        let ours = DataBits::from_bits(n).map(|bits| bits.bits());
        let theirs = tokio_serial::DataBits::try_from(n).ok().map(u8::from);
        assert_eq!(ours, theirs);
    }
}

#[test]
fn stop_bits_count_as_the_driver_counts_them() {
    assert_eq!(StopBits::One.bits(), u8::from(tokio_serial::StopBits::One));
    assert_eq!(StopBits::Two.bits(), u8::from(tokio_serial::StopBits::Two));
    for n in 0..=255u8 {
        let ours = StopBits::from_bits(n).map(|bits| bits.bits());
        let theirs = tokio_serial::StopBits::try_from(n).ok().map(u8::from);
        assert_eq!(ours, theirs);
    }
}

#[test]
fn parity_modes_are_named_as_the_driver_names_them() {
    assert_eq!(Parity::NoParity.name(), tokio_serial::Parity::None.to_string());
    assert_eq!(Parity::Odd.name(), tokio_serial::Parity::Odd.to_string());
    assert_eq!(Parity::Even.name(), tokio_serial::Parity::Even.to_string());
}
