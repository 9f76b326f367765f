use serial_tool::loader::default_baud_list;
use serial_tool::config::{DataBits, Parity, PortConfig, StopBits};
use serial_tool::ui::{Command, MainUi, PortEntry, PortKind};

fn ports() -> Vec<PortEntry> {
    vec![
        PortEntry::new("/dev/ttyS0", PortKind::Unknown),
        PortEntry::new("/dev/ttyUSB0", PortKind::Usb),
        PortEntry::new("/dev/rfcomm0", PortKind::Bluetooth),
    ]
}

#[test]
fn the_panel_starts_with_the_usual_settings() {
    let panel = MainUi::new(ports(), default_baud_list());
    assert!(panel.en_connect());
    assert_eq!(panel.button_label(), "connection");
    assert_eq!(*panel.selected_port(), PortEntry::new("Select Port", PortKind::Unknown));
    assert_eq!(*panel.selected_port(), PortEntry::unselected());
    assert_eq!(
        panel.config(),
        PortConfig::new("Select Port", 115200, DataBits::Eight, StopBits::One, Parity::NoParity)
    );
    assert_eq!(*panel.serial_list(), ports());
    assert_eq!(*panel.baud_list(), default_baud_list());
}

#[test]
fn a_press_without_a_known_port_does_nothing() {
    let mut panel = MainUi::new(ports(), default_baud_list());
    assert_eq!(panel.press(), None);
    assert!(panel.en_connect());
    assert!(panel.select_port(0));
    assert_eq!(panel.press(), None);
    assert!(panel.en_connect());
    assert_eq!(panel.button_label(), "connection");
}

#[test]
fn a_press_connects_and_the_next_disconnects() {
    let mut panel = MainUi::new(ports(), default_baud_list());
    assert!(panel.select_port(1));
    assert!(panel.select_baud(0));
    assert!(panel.select_data_bits(DataBits::Seven));
    assert!(panel.select_stop_bits(StopBits::Two));
    assert!(panel.select_parity(Parity::Even));
    let expected = PortConfig::new("/dev/ttyUSB0", 9600, DataBits::Seven, StopBits::Two, Parity::Even);
    assert_eq!(panel.config(), expected);
    assert_eq!(panel.press(), Some(Command::Connect(expected)));
    assert!(!panel.en_connect());
    assert_eq!(panel.button_label(), "disconnection");
    assert_eq!(panel.press(), Some(Command::Disconnect));
    assert!(panel.en_connect());
    assert_eq!(panel.button_label(), "connection");
}

#[test]
fn a_press_does_not_connect_at_a_rate_that_is_not_permitted() {
    let mut panel = MainUi::new(ports(), vec![300, 1200]);
    assert!(panel.select_port(2));
    assert_eq!(panel.config().baud, 115200);
    assert_eq!(panel.press(), None);
    assert!(panel.en_connect());
    assert!(panel.select_baud(1));
    assert_eq!(
        panel.press(),
        Some(Command::Connect(PortConfig::new(
            "/dev/rfcomm0",
            1200,
            DataBits::Eight,
            StopBits::One,
            Parity::NoParity
        )))
    );
}

#[test]
fn choices_are_fixed_while_the_button_disconnects() {
    let mut panel = MainUi::new(ports(), default_baud_list());
    assert!(panel.select_port(1));
    assert!(panel.press().is_some());
    let before = panel.config();
    assert!(!panel.select_port(2));
    assert!(!panel.select_baud(3));
    assert!(!panel.select_data_bits(DataBits::Five));
    assert!(!panel.select_stop_bits(StopBits::Two));
    assert!(!panel.select_parity(Parity::Odd));
    assert!(!panel.refresh(Vec::new()));
    assert_eq!(panel.config(), before);
    assert_eq!(*panel.serial_list(), ports());
}

#[test]
fn a_choice_beyond_the_list_is_not_made() {
    let mut panel = MainUi::new(ports(), default_baud_list());
    assert!(!panel.select_port(3));
    assert!(!panel.select_baud(15));
    assert!(panel.select_baud(14));
    assert_eq!(panel.config().baud, 1500000);
    assert_eq!(*panel.selected_port(), PortEntry::unselected());
}

#[test]
fn the_list_of_ports_can_be_replaced() {
    let mut panel = MainUi::new(Vec::new(), default_baud_list());
    assert!(!panel.select_port(0));
    assert!(panel.refresh(ports()));
    assert_eq!(*panel.serial_list(), ports());
    assert!(panel.select_port(1));
    assert_eq!(*panel.selected_port(), PortEntry::new("/dev/ttyUSB0", PortKind::Usb));
    assert!(panel.refresh(Vec::new()));
    assert_eq!(*panel.selected_port(), PortEntry::new("/dev/ttyUSB0", PortKind::Usb));
}

#[test]
fn the_button_follows_the_connection() {
    let mut panel = MainUi::new(ports(), default_baud_list());
    assert!(panel.select_port(1));
    assert!(panel.press().is_some());
    assert!(!panel.en_connect());
    panel.set_connected(false);
    assert!(panel.en_connect());
    assert_eq!(panel.button_label(), "connection");
    panel.set_connected(true);
    assert!(!panel.en_connect());
    assert_eq!(panel.button_label(), "disconnection");
}
