use serial_tool::loader::default_baud_list;
use serial_tool::config::{DataBits, Parity, PortConfig, StopBits};
use serial_tool::token::ShutdownToken;

#[test]
fn data_bits_are_five_to_eight() {
    assert_eq!(DataBits::Five.bits(), 5);
    assert_eq!(DataBits::Six.bits(), 6);
    assert_eq!(DataBits::Seven.bits(), 7);
    assert_eq!(DataBits::Eight.bits(), 8);
    assert_eq!(DataBits::from_bits(5), Some(DataBits::Five));
    assert_eq!(DataBits::from_bits(6), Some(DataBits::Six));
    assert_eq!(DataBits::from_bits(7), Some(DataBits::Seven));
    assert_eq!(DataBits::from_bits(8), Some(DataBits::Eight));
    assert_eq!(DataBits::from_bits(0), None);
    assert_eq!(DataBits::from_bits(4), None);
    assert_eq!(DataBits::from_bits(9), None);
    assert_eq!(DataBits::from_bits(255), None);
}

#[test]
fn stop_bits_are_one_or_two() {
    assert_eq!(StopBits::One.bits(), 1);
    assert_eq!(StopBits::Two.bits(), 2);
    assert_eq!(StopBits::from_bits(1), Some(StopBits::One));
    assert_eq!(StopBits::from_bits(2), Some(StopBits::Two));
    assert_eq!(StopBits::from_bits(0), None);
    assert_eq!(StopBits::from_bits(3), None);
}

#[test]
fn parity_modes_have_names() {
    assert_eq!(Parity::NoParity.name(), "None");
    assert_eq!(Parity::Odd.name(), "Odd");
    assert_eq!(Parity::Even.name(), "Even");
}

#[test]
fn a_configuration_holds_what_it_was_made_with() {
    let config = PortConfig::new("/dev/ttyUSB0", 57600, DataBits::Seven, StopBits::Two, Parity::Odd);
    assert_eq!(config.port_name, "/dev/ttyUSB0");
    assert_eq!(config.baud, 57600);
    assert_eq!(config.data_bits, DataBits::Seven);
    assert_eq!(config.stop_bits, StopBits::Two);
    assert_eq!(config.parity, Parity::Odd);
    assert_eq!(config.clone(), config);
}

#[test]
fn a_configuration_is_valid_with_a_permitted_rate() {
    let rates = default_baud_list();
    for rate in rates.iter() {
        let config = PortConfig::new("sim0", *rate, DataBits::Eight, StopBits::One, Parity::NoParity);
        assert!(config.is_valid(&rates));
    }
    let config = PortConfig::new("sim0", 9601, DataBits::Eight, StopBits::One, Parity::NoParity);
    assert!(!config.is_valid(&rates));
    assert!(!config.is_valid(&Vec::new()));
    assert!(config.is_valid(&vec![1, 9601]));
    assert!(config.is_valid(&vec![9601, 1]));
}

#[test]
fn a_token_is_fired_once_and_for_all() {
    let mut token = ShutdownToken::new(7);
    assert_eq!(token.generation(), 7);
    assert!(!token.is_fired());
    token.fire();
    assert!(token.is_fired());
    assert_eq!(token.generation(), 7);
    let once = token;
    token.fire();
    assert!(token.is_fired());
    assert_eq!(token.generation(), 7);
    assert_eq!(token, once);
    assert_ne!(token, ShutdownToken::new(7));
}
