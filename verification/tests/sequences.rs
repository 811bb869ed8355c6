use ssd1677::basic_display::{BasicDisplay, Dimensions, DisplayUpdateMode, Rotation};
use ssd1677::config::{Builder, Config};
use ssd1677::interface::DisplayInterface;

#[derive(Debug, Clone, PartialEq)]
enum Sent {
    Command(u8),
    Data(Vec<u8>),
    Reset(u8),
    BusyWait,
}

use Sent::{BusyWait, Command, Data, Reset};

#[derive(Debug, PartialEq)]
struct Fault(usize);

struct Bus {
    log: Vec<Sent>,
    transfers: usize,
    fail_at: Option<usize>,
}

impl Bus {
    fn new() -> Self {
        Bus { log: Vec::new(), transfers: 0, fail_at: None }
    }

    fn failing_at(transfer: usize) -> Self {
        Bus { log: Vec::new(), transfers: 0, fail_at: Some(transfer) }
    }

    fn transfer(&mut self, sent: Sent) -> Result<(), Fault> {
        let index = self.transfers;
        self.transfers += 1;
        if self.fail_at == Some(index) {
            return Err(Fault(index));
        }
        self.log.push(sent);
        Ok(())
    }
}

impl DisplayInterface for Bus {
    type Error = Fault;

    fn send_command(&mut self, command: u8) -> Result<(), Fault> {
        self.transfer(Command(command))
    }

    fn send_data(&mut self, data: &[u8]) -> Result<(), Fault> {
        self.transfer(Data(data.to_vec()))
    }

    fn reset(&mut self, delay_ms: u8) {
        self.log.push(Reset(delay_ms));
    }

    fn busy_wait(&mut self) {
        self.log.push(BusyWait);
    }
}

fn config(rows: u16, cols: u16) -> Config {
    Builder::new()
        .dimensions(Dimensions { rows, cols })
        .rotation(Rotation::Rotate0)
        .auto_update(false)
        .build()
        .expect("valid dimensions")
}

fn init_of_480_by_800() -> Vec<Sent> {
    vec![
        Command(0x47),
        Data(vec![0xF7]),
        Command(0x46),
        Data(vec![0xF7]),
        Command(0x01),
        Data(vec![0xDF]),
        Data(vec![0x01]),
        Data(vec![0x02]),
        Command(0x11),
        Data(vec![0x03]),
        Command(0x44),
        Data(vec![0x00, 0x00, 0x1F, 0x03]),
        Command(0x45),
        Data(vec![0x00, 0x00, 0xDF, 0x01]),
        Command(0x3C),
        Data(vec![0x01]),
        Command(0x18),
        Data(vec![0x80]),
        Command(0x22),
        Data(vec![0xFF]),
        Command(0x20),
        BusyWait,
        BusyWait,
    ]
}

fn commands_of(log: &[Sent]) -> Vec<u8> {
    let mut commands = Vec::new();
    for sent in log {
        if let Command(command) = sent {
            commands.push(*command);
        }
    }
    commands
}

#[test]
fn a_new_display_has_sent_nothing_and_is_not_initialized() {
    let display = BasicDisplay::new(Bus::new(), config(480, 800));
    assert!(!display.is_initialized());
    assert_eq!(display.interface().log, vec![]);
    assert_eq!(display.rows(), 480);
    assert_eq!(display.cols(), 800);
    assert_eq!(display.rotation(), Rotation::Rotate0);
    assert!(!display.config().auto_update());
}

#[test]
fn init_sends_its_register_writes_in_order() {
    let mut display = BasicDisplay::new(Bus::new(), config(480, 800));
    display.init().expect("the bus does not fail");
    assert!(display.is_initialized());
    assert_eq!(display.interface().log, init_of_480_by_800());
    assert_eq!(
        commands_of(&display.interface().log),
        vec![0x47, 0x46, 0x01, 0x11, 0x44, 0x45, 0x3C, 0x18, 0x22, 0x20]
    );
}

#[test]
fn init_of_another_size_changes_line_count_and_windows_only() {
    let mut small = BasicDisplay::new(Bus::new(), config(200, 400));
    small.init().expect("the bus does not fail");
    let small = &small.interface().log;
    let large = init_of_480_by_800();
    assert_eq!(small.len(), large.len());
    for position in 0..large.len() {
        if [5, 6, 11, 13].contains(&position) {
            assert_ne!(small[position], large[position]);
            assert!(matches!(small[position], Data(_)));
        } else {
            assert_eq!(small[position], large[position]);
        }
    }
    assert_eq!(small[5], Data(vec![0xC7]));
    assert_eq!(small[6], Data(vec![0x00]));
    assert_eq!(small[11], Data(vec![0x00, 0x00, 0x8F, 0x01]));
    assert_eq!(small[13], Data(vec![0x00, 0x00, 0xC7, 0x00]));
    assert_eq!(commands_of(small), commands_of(&large));
}

#[test]
fn init_of_the_smallest_panel() {
    let mut display = BasicDisplay::new(Bus::new(), config(1, 8));
    display.init().expect("the bus does not fail");
    let log = &display.interface().log;
    assert_eq!(log[5], Data(vec![0x00]));
    assert_eq!(log[6], Data(vec![0x00]));
    assert_eq!(log[11], Data(vec![0x00, 0x00, 0x07, 0x00]));
    assert_eq!(log[13], Data(vec![0x00, 0x00, 0x00, 0x00]));
}

#[test]
fn reset_resets_hardware_then_software_then_initializes() {
    let mut display = BasicDisplay::new(Bus::new(), config(480, 800));
    display.reset().expect("the bus does not fail");
    assert!(display.is_initialized());
    let mut expected = vec![Reset(10), Command(0x12), BusyWait, BusyWait];
    expected.extend(init_of_480_by_800());
    assert_eq!(display.interface().log, expected);
}

#[test]
fn update_of_the_black_and_white_plane_never_writes_red_ram() {
    let mut display = BasicDisplay::new(Bus::new(), config(480, 800));
    display.init().expect("the bus does not fail");
    let before = display.interface().log.len();
    let buffer = vec![0xA5u8; 48000];
    display
        .update(Some(&buffer), None, DisplayUpdateMode::Slow)
        .expect("the bus does not fail");
    assert!(display.is_initialized());
    let sent = &display.interface().log[before..];
    assert_eq!(
        sent,
        &[
            Command(0x4E),
            Data(vec![0x00, 0x00]),
            Command(0x4F),
            Data(vec![0x00, 0x00]),
            Command(0x24),
            Data(buffer.clone()),
            Command(0x22),
            Data(vec![0xF7]),
            Command(0x20),
            BusyWait,
        ]
    );
    assert!(!sent.contains(&Command(0x26)));
}

#[test]
fn update_of_both_planes_writes_black_and_white_first() {
    let mut display = BasicDisplay::new(Bus::new(), config(8, 8));
    display.init().expect("the bus does not fail");
    let before = display.interface().log.len();
    display
        .update(Some(&[1, 2, 3, 4, 5, 6, 7, 8]), Some(&[9; 8]), DisplayUpdateMode::Fast)
        .expect("the bus does not fail");
    assert_eq!(
        &display.interface().log[before..],
        &[
            Command(0x4E),
            Data(vec![0x00, 0x00]),
            Command(0x4F),
            Data(vec![0x00, 0x00]),
            Command(0x24),
            Data(vec![1, 2, 3, 4, 5, 6, 7, 8]),
            Command(0x4E),
            Data(vec![0x00, 0x00]),
            Command(0x4F),
            Data(vec![0x00, 0x00]),
            Command(0x26),
            Data(vec![9; 8]),
            Command(0x22),
            Data(vec![0xFF]),
            Command(0x20),
            BusyWait,
        ]
    );
}

#[test]
fn update_of_the_red_plane_only() {
    let mut display = BasicDisplay::new(Bus::new(), config(8, 8));
    display.init().expect("the bus does not fail");
    let before = display.interface().log.len();
    display
        .update(None, Some(&[7; 8]), DisplayUpdateMode::Slow)
        .expect("the bus does not fail");
    assert_eq!(
        &display.interface().log[before..],
        &[
            Command(0x4E),
            Data(vec![0x00, 0x00]),
            Command(0x4F),
            Data(vec![0x00, 0x00]),
            Command(0x26),
            Data(vec![7; 8]),
            Command(0x22),
            Data(vec![0xF7]),
            Command(0x20),
            BusyWait,
        ]
    );
}

#[test]
fn update_without_planes_only_refreshes() {
    let mut display = BasicDisplay::new(Bus::new(), config(480, 800));
    display.init().expect("the bus does not fail");
    let before = display.interface().log.len();
    display
        .update(None, None, DisplayUpdateMode::Fast)
        .expect("the bus does not fail");
    assert_eq!(
        &display.interface().log[before..],
        &[Command(0x22), Data(vec![0xFF]), Command(0x20), BusyWait]
    );
}

#[test]
fn update_mode_bytes() {
    assert_eq!(DisplayUpdateMode::Fast.bits(), 0xFF);
    assert_eq!(DisplayUpdateMode::Slow.bits(), 0xF7);
}

#[test]
fn init_stops_at_the_first_failure() {
    let full = init_of_480_by_800();
    let transfers: Vec<Sent> = full
        .iter()
        .filter(|sent| matches!(sent, Command(_) | Data(_)))
        .cloned()
        .collect();
    for failing in 0..transfers.len() {
        let mut display = BasicDisplay::new(Bus::failing_at(failing), config(480, 800));
        assert_eq!(display.init(), Err(Fault(failing)));
        assert!(!display.is_initialized());
        assert_eq!(display.interface().log, transfers[..failing].to_vec());
        assert_eq!(display.interface().transfers, failing + 1);
    }
}

#[test]
fn reset_stops_at_the_first_failure() {
    let mut display = BasicDisplay::new(Bus::failing_at(0), config(480, 800));
    assert_eq!(display.reset(), Err(Fault(0)));
    assert!(!display.is_initialized());
    assert_eq!(display.interface().log, vec![Reset(10)]);

    let mut display = BasicDisplay::new(Bus::failing_at(3), config(480, 800));
    assert_eq!(display.reset(), Err(Fault(3)));
    assert!(!display.is_initialized());
    assert_eq!(
        display.interface().log,
        vec![
            Reset(10),
            Command(0x12),
            BusyWait,
            BusyWait,
            Command(0x47),
            Data(vec![0xF7]),
        ]
    );
}

#[test]
fn a_failed_update_leaves_the_display_uninitialized_until_reset() {
    let mut display = BasicDisplay::new(Bus::failing_at(24), config(480, 800));
    display.init().expect("the failure comes later");
    assert!(display.is_initialized());
    let before = display.interface().log.len();
    let result = display.update(Some(&[0; 48000]), None, DisplayUpdateMode::Slow);
    assert_eq!(result, Err(Fault(24)));
    assert!(!display.is_initialized());
    assert_eq!(
        &display.interface().log[before..],
        &[Command(0x4E), Data(vec![0x00, 0x00]), Command(0x4F)]
    );
    display.reset().expect("the bus works again");
    assert!(display.is_initialized());
}
