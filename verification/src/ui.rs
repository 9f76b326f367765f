//! What the control panel holds and decides: the lists to choose from, the choices
//! made, and what a press of its button asks for.

use crate::config::{DataBits, Parity, PortConfig, PortConfigView, StopBits};
use vstd::prelude::*;

verus! {

/// The baud rate that is chosen at the start.
pub const INITIAL_BAUD: u32 = 115200;

/// What kind of device a candidate port is.
#[derive(Debug, Clone, Copy, PartialEq, Eq, Structural)]
pub enum PortKind {
    Usb,
    Pci,
    Bluetooth,
    Unknown,
}

/// A candidate port: its name and its kind.
#[derive(Debug, PartialEq, Eq)]
pub struct PortEntry {
    pub name: String,
    pub kind: PortKind,
}

/// The mathematical content of a [`PortEntry`].
pub struct PortEntryView {
    pub name: Seq<char>,
    pub kind: PortKind,
}

impl View for PortEntry {
    type V = PortEntryView;

    open spec fn view(&self) -> PortEntryView {
        PortEntryView { name: self.name@, kind: self.kind }
    }
}

impl Clone for PortEntry {
    fn clone(&self) -> (copy: PortEntry)
        ensures
            copy@ == self@,
    {
        PortEntry { name: self.name.clone(), kind: self.kind }
    }
}

impl PortEntry {
    /// A candidate port.
    pub fn new(name: &str, kind: PortKind) -> (entry: PortEntry)
        ensures
            entry@ == (PortEntryView { name: name@, kind }),
    {
        PortEntry { name: name.to_owned(), kind }
    }

    /// The entry that stands for "no port chosen yet".
    pub fn unselected() -> (entry: PortEntry)
        ensures
            entry@ == PortEntryView::unselected(),
    {
        PortEntry { name: "Select Port".to_owned(), kind: PortKind::Unknown }
    }
}

impl PortEntryView {
    /// The entry that stands for "no port chosen yet".
    pub open spec fn unselected() -> PortEntryView {
        PortEntryView { name: "Select Port"@, kind: PortKind::Unknown }
    }
}

/// The candidate ports of a list, by their content.
pub open spec fn entries(ports: Seq<PortEntry>) -> Seq<PortEntryView> {
    ports.map_values(|port: PortEntry| port@)
}

/// What a press of the button asks for.
#[derive(Debug, PartialEq, Eq)]
pub enum Command {
    /// Open a connection with this configuration.
    Connect(PortConfig),
    /// Shut the connection down.
    Disconnect,
}

/// The mathematical content of a [`Command`].
pub enum CommandView {
    Connect(PortConfigView),
    Disconnect,
}

impl View for Command {
    type V = CommandView;

    open spec fn view(&self) -> CommandView {
        match *self {
            Command::Connect(config) => CommandView::Connect(config@),
            Command::Disconnect => CommandView::Disconnect,
        }
    }
}

/// The state of the control panel.
#[derive(Debug)]
pub struct MainUi {
    serial_list: Vec<PortEntry>,
    baud_list: Vec<u32>,
    selected_port: PortEntry,
    selected_baud: u32,
    selected_data_bits: DataBits,
    selected_stop_bits: StopBits,
    selected_parity: Parity,
    en_connect: bool,
}

/// The mathematical content of a [`MainUi`].
pub struct MainUiView {
    /// The ports to choose from.
    pub serial_list: Seq<PortEntryView>,
    /// The permitted baud rates.
    pub baud_list: Seq<u32>,
    pub selected_port: PortEntryView,
    pub selected_baud: u32,
    pub selected_data_bits: DataBits,
    pub selected_stop_bits: StopBits,
    pub selected_parity: Parity,
    /// Whether the button connects; the choices can be changed only while it does.
    pub en_connect: bool,
}

impl View for MainUi {
    type V = MainUiView;

    closed spec fn view(&self) -> MainUiView {
        MainUiView {
            serial_list: entries(self.serial_list@),
            baud_list: self.baud_list@,
            selected_port: self.selected_port@,
            selected_baud: self.selected_baud,
            selected_data_bits: self.selected_data_bits,
            selected_stop_bits: self.selected_stop_bits,
            selected_parity: self.selected_parity,
            en_connect: self.en_connect,
        }
    }
}

impl MainUiView {
    /// The panel at the start: no port chosen, 115200 baud, eight data bits, one stop
    /// bit, no parity, and a button that connects.
    pub open spec fn initial(serial_list: Seq<PortEntryView>, baud_list: Seq<u32>) -> MainUiView {
        MainUiView {
            serial_list,
            baud_list,
            selected_port: PortEntryView::unselected(),
            selected_baud: INITIAL_BAUD,
            selected_data_bits: DataBits::Eight,
            selected_stop_bits: StopBits::One,
            selected_parity: Parity::NoParity,
            en_connect: true,
        }
    }

    /// The configuration that the choices make.
    pub open spec fn config(self) -> PortConfigView {
        PortConfigView {
            port_name: self.selected_port.name,
            baud: self.selected_baud,
            data_bits: self.selected_data_bits,
            stop_bits: self.selected_stop_bits,
            parity: self.selected_parity,
        }
    }

    /// The panel after the list of ports was replaced; it can be replaced only while
    /// the button connects.
    pub open spec fn refreshed(self, serial_list: Seq<PortEntryView>) -> MainUiView {
        if self.en_connect {
            MainUiView { serial_list, ..self }
        } else {
            self
        }
    }

    /// The panel after the port at `index` of the list was chosen; a choice can be
    /// made only while the button connects, and only of what the list holds.
    pub open spec fn port_selected(self, index: int) -> MainUiView {
        if self.en_connect && 0 <= index < self.serial_list.len() {
            MainUiView { selected_port: self.serial_list[index], ..self }
        } else {
            self
        }
    }

    /// The panel after the baud rate at `index` of the list was chosen.
    pub open spec fn baud_selected(self, index: int) -> MainUiView {
        if self.en_connect && 0 <= index < self.baud_list.len() {
            MainUiView { selected_baud: self.baud_list[index], ..self }
        } else {
            self
        }
    }

    /// The panel after a number of data bits was chosen.
    pub open spec fn data_bits_selected(self, data_bits: DataBits) -> MainUiView {
        if self.en_connect {
            MainUiView { selected_data_bits: data_bits, ..self }
        } else {
            self
        }
    }

    /// The panel after a number of stop bits was chosen.
    pub open spec fn stop_bits_selected(self, stop_bits: StopBits) -> MainUiView {
        if self.en_connect {
            MainUiView { selected_stop_bits: stop_bits, ..self }
        } else {
            self
        }
    }

    /// The panel after a parity mode was chosen.
    pub open spec fn parity_selected(self, parity: Parity) -> MainUiView {
        if self.en_connect {
            MainUiView { selected_parity: parity, ..self }
        } else {
            self
        }
    }

    /// The panel with a button that follows the connection: it connects while there
    /// is none.
    pub open spec fn following(self, connected: bool) -> MainUiView {
        MainUiView { en_connect: !connected, ..self }
    }

    /// Whether a press of the button has an effect: a port of a known kind is chosen,
    /// and a button that connects has a permitted baud rate to connect with.
    pub open spec fn armed(self) -> bool {
        self.selected_port.kind != PortKind::Unknown && (self.en_connect ==> self.config().valid(
            self.baud_list,
        ))
    }

    /// The panel after a press of the button: the button changes over if the press
    /// has an effect.
    pub open spec fn pressed(self) -> MainUiView {
        if self.armed() {
            MainUiView { en_connect: !self.en_connect, ..self }
        } else {
            self
        }
    }

    /// The text on the button.
    pub open spec fn button_label(self) -> Seq<char> {
        if self.en_connect {
            "connection"@
        } else {
            "disconnection"@
        }
    }

    /// What a press of the button asks for.
    pub open spec fn command(self) -> Option<CommandView> {
        if !self.armed() {
            None
        } else if self.en_connect {
            Some(CommandView::Connect(self.config()))
        } else {
            Some(CommandView::Disconnect)
        }
    }
}

impl MainUi {
    /// The panel at the start, with the lists to choose from.
    pub fn new(serial_list: Vec<PortEntry>, baud_list: Vec<u32>) -> (panel: MainUi)
        ensures
            panel@ == MainUiView::initial(entries(serial_list@), baud_list@),
    {
        MainUi {
            serial_list,
            baud_list,
            selected_port: PortEntry::unselected(),
            selected_baud: INITIAL_BAUD,
            selected_data_bits: DataBits::Eight,
            selected_stop_bits: StopBits::One,
            selected_parity: Parity::NoParity,
            en_connect: true,
        }
    }

    /// Whether the button connects.
    pub fn en_connect(&self) -> (enabled: bool)
        ensures
            enabled == self@.en_connect,
    {
        self.en_connect
    }

    /// The ports to choose from.
    pub fn serial_list(&self) -> (list: &Vec<PortEntry>)
        ensures
            entries(list@) == self@.serial_list,
    {
        &self.serial_list
    }

    /// The permitted baud rates.
    pub fn baud_list(&self) -> (list: &Vec<u32>)
        ensures
            list@ == self@.baud_list,
    {
        &self.baud_list
    }

    /// The port that is chosen.
    pub fn selected_port(&self) -> (port: &PortEntry)
        ensures
            port@ == self@.selected_port,
    {
        &self.selected_port
    }

    /// The configuration that the choices make.
    pub fn config(&self) -> (config: PortConfig)
        ensures
            config@ == self@.config(),
    {
        PortConfig {
            port_name: self.selected_port.name.clone(),
            baud: self.selected_baud,
            data_bits: self.selected_data_bits,
            stop_bits: self.selected_stop_bits,
            parity: self.selected_parity,
        }
    }

    /// The text on the button.
    pub fn button_label(&self) -> (label: &'static str)
        ensures
            label@ == self@.button_label(),
    {
        if self.en_connect {
            "connection"
        } else {
            "disconnection"
        }
    }

    /// Replaces the list of ports, while the button connects. The result says whether
    /// the list was replaced.
    pub fn refresh(&mut self, serial_list: Vec<PortEntry>) -> (done: bool)
        ensures
            done == old(self)@.en_connect,
            final(self)@ == old(self)@.refreshed(entries(serial_list@)),
    {
        if self.en_connect {
            self.serial_list = serial_list;
            true
        } else {
            false
        }
    }

    /// Chooses the port at `index` of the list, while the button connects. The result
    /// says whether the choice was made.
    pub fn select_port(&mut self, index: usize) -> (done: bool)
        ensures
            done == (old(self)@.en_connect && index < old(self)@.serial_list.len()),
            final(self)@ == old(self)@.port_selected(index as int),
    {
        if self.en_connect && index < self.serial_list.len() {
            self.selected_port = self.serial_list[index].clone();
            true
        } else {
            false
        }
    }

    /// Chooses the baud rate at `index` of the list, while the button connects. The
    /// result says whether the choice was made.
    pub fn select_baud(&mut self, index: usize) -> (done: bool)
        ensures
            done == (old(self)@.en_connect && index < old(self)@.baud_list.len()),
            final(self)@ == old(self)@.baud_selected(index as int),
    {
        if self.en_connect && index < self.baud_list.len() {
            self.selected_baud = self.baud_list[index];
            true
        } else {
            false
        }
    }

    /// Chooses the number of data bits, while the button connects. The result says
    /// whether the choice was made.
    pub fn select_data_bits(&mut self, data_bits: DataBits) -> (done: bool)
        ensures
            done == old(self)@.en_connect,
            final(self)@ == old(self)@.data_bits_selected(data_bits),
    {
        if self.en_connect {
            self.selected_data_bits = data_bits;
            true
        } else {
            false
        }
    }

    /// Chooses the number of stop bits, while the button connects. The result says
    /// whether the choice was made.
    pub fn select_stop_bits(&mut self, stop_bits: StopBits) -> (done: bool)
        ensures
            done == old(self)@.en_connect,
            final(self)@ == old(self)@.stop_bits_selected(stop_bits),
    {
        if self.en_connect {
            self.selected_stop_bits = stop_bits;
            true
        } else {
            false
        }
    }

    /// Chooses the parity mode, while the button connects. The result says whether the
    /// choice was made.
    pub fn select_parity(&mut self, parity: Parity) -> (done: bool)
        ensures
            done == old(self)@.en_connect,
            final(self)@ == old(self)@.parity_selected(parity),
    {
        if self.en_connect {
            self.selected_parity = parity;
            true
        } else {
            false
        }
    }

    /// Takes a press of the button.
    ///
    /// The press has an effect only if a port of a known kind is chosen and, for a
    /// button that connects, the chosen baud rate is a permitted one. Then the button
    /// changes over, and the result is what the press asks for.
    pub fn press(&mut self) -> (command: Option<Command>)
        ensures
            final(self)@ == old(self)@.pressed(),
            command is Some <==> old(self)@.command() is Some,
            command matches Some(asked) ==> Some(asked@) == old(self)@.command(),
    {
        if self.selected_port.kind == PortKind::Unknown {
            return None;
        }
        if self.en_connect {
            let config = self.config();
            if !config.is_valid(self.baud_list.as_slice()) {
                return None;
            }
            self.en_connect = false;
            Some(Command::Connect(config))
        } else {
            self.en_connect = true;
            Some(Command::Disconnect)
        }
    }

    /// Makes the button follow the connection: it connects while there is none.
    pub fn set_connected(&mut self, connected: bool)
        ensures
            final(self)@ == old(self)@.following(connected),
    {
        self.en_connect = !connected;
    }
}

} // verus!
