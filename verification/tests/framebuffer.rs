use ssd1677::basic_display::{BasicDisplay, Dimensions, DisplayUpdateMode, Rotation};
use ssd1677::config::{Builder, Config};
use ssd1677::display::{Display, Pixel};
use ssd1677::interface::DisplayInterface;

#[derive(Debug, Clone, PartialEq)]
enum Sent {
    Command(u8),
    Data(Vec<u8>),
    Reset(u8),
    BusyWait,
}

use Sent::{BusyWait, Command, Data, Reset};

#[derive(Debug, PartialEq)]
struct Fault(usize);

struct Bus {
    log: Vec<Sent>,
    transfers: usize,
    fail_at: Option<usize>,
}

impl Bus {
    fn new() -> Self {
        Bus { log: Vec::new(), transfers: 0, fail_at: None }
    }

    fn failing_at(transfer: usize) -> Self {
        Bus { log: Vec::new(), transfers: 0, fail_at: Some(transfer) }
    }

    fn transfer(&mut self, sent: Sent) -> Result<(), Fault> {
        let index = self.transfers;
        self.transfers += 1;
        if self.fail_at == Some(index) {
            return Err(Fault(index));
        }
        self.log.push(sent);
        Ok(())
    }
}

impl DisplayInterface for Bus {
    type Error = Fault;

    fn send_command(&mut self, command: u8) -> Result<(), Fault> {
        self.transfer(Command(command))
    }

    fn send_data(&mut self, data: &[u8]) -> Result<(), Fault> {
        self.transfer(Data(data.to_vec()))
    }

    fn reset(&mut self, delay_ms: u8) {
        self.log.push(Reset(delay_ms));
    }

    fn busy_wait(&mut self) {
        self.log.push(BusyWait);
    }
}

fn config(rows: u16, cols: u16, rotation: Rotation, auto_update: bool) -> Config {
    Builder::new()
        .dimensions(Dimensions { rows, cols })
        .rotation(rotation)
        .auto_update(auto_update)
        .build()
        .expect("valid dimensions")
}

fn display(rows: u16, cols: u16, rotation: Rotation, fill: u8) -> Display<Bus> {
    let len = rows as usize * cols as usize / 8;
    Display::new(Bus::new(), vec![fill; len], config(rows, cols, rotation, false))
}

fn log_of(display: &Display<Bus>) -> &Vec<Sent> {
    &display.basic_display().interface().log
}

#[test]
fn a_pixel_switched_on_clears_its_bit() {
    let mut display = display(480, 800, Rotation::Rotate0, 0xFF);
    display.set_pixel(0, 0, true);
    assert_eq!(display.buffer()[0], 0x7F);
    display.set_pixel(7, 0, true);
    assert_eq!(display.buffer()[0], 0x7E);
    display.set_pixel(8, 0, true);
    assert_eq!(display.buffer()[1], 0x7F);
    assert!(display.buffer()[2..].iter().all(|byte| *byte == 0xFF));
    assert_eq!(display.buffer().len(), 48000);
}

#[test]
fn a_pixel_switched_off_sets_its_bit() {
    let mut display = display(480, 800, Rotation::Rotate0, 0x00);
    display.set_pixel(0, 0, false);
    assert_eq!(display.buffer()[0], 0x80);
    display.set_pixel(13, 2, false);
    assert_eq!(display.buffer()[201], 0x04);
    display.set_pixel(799, 479, false);
    assert_eq!(display.buffer()[47999], 0x01);
    let set: u32 = display.buffer().iter().map(|byte| byte.count_ones()).sum();
    assert_eq!(set, 3);
}

#[test]
fn switching_a_pixel_keeps_the_other_bits_of_its_byte() {
    let mut display = display(8, 16, Rotation::Rotate0, 0b1010_0101);
    display.set_pixel(1, 0, true);
    assert_eq!(display.buffer()[0], 0b1010_0101);
    display.set_pixel(0, 0, true);
    assert_eq!(display.buffer()[0], 0b0010_0101);
    display.set_pixel(1, 0, false);
    assert_eq!(display.buffer()[0], 0b0110_0101);
    display.set_pixel(7, 0, false);
    assert_eq!(display.buffer()[0], 0b0110_0101);
    assert!(display.buffer()[1..].iter().all(|byte| *byte == 0b1010_0101));
}

#[test]
fn switching_a_pixel_twice_is_the_same_as_once() {
    let mut display = display(8, 16, Rotation::Rotate180, 0x3C);
    display.set_pixel(3, 5, true);
    let once = display.buffer().to_vec();
    display.set_pixel(3, 5, true);
    assert_eq!(display.buffer(), &once[..]);
}

#[test]
fn pixels_of_a_rotated_display_go_through_the_rotation() {
    let mut display = display(480, 800, Rotation::Rotate270, 0xFF);
    display.set_pixel(0, 0, true);
    assert_eq!(display.buffer()[47900], 0x7F);
    display.set_pixel(479, 799, true);
    assert_eq!(display.buffer()[99], 0xFE);

    let mut display = self::display(480, 800, Rotation::Rotate90, 0xFF);
    display.set_pixel(0, 0, true);
    assert_eq!(display.buffer()[99], 0xFE);

    let mut display = self::display(480, 800, Rotation::Rotate180, 0xFF);
    display.set_pixel(0, 0, true);
    assert_eq!(display.buffer()[47999], 0xFE);
}

#[test]
fn set_pixel_does_not_touch_the_controller() {
    let mut display = display(8, 16, Rotation::Rotate0, 0xFF);
    display.set_pixel(3, 3, true);
    assert_eq!(log_of(&display), &vec![]);
    assert!(!display.is_initialized());
}

#[test]
fn clear_fills_with_dark_or_light_pixels() {
    let mut display = display(480, 800, Rotation::Rotate0, 0x5A);
    display.clear(true);
    assert_eq!(display.buffer().len(), 48000);
    assert!(display.buffer().iter().all(|byte| *byte == 0x00));
    display.clear(false);
    assert_eq!(display.buffer().len(), 48000);
    assert!(display.buffer().iter().all(|byte| *byte == 0xFF));
    assert_eq!(log_of(&display), &vec![]);
}

#[test]
fn size_swaps_the_sides_for_quarter_turns() {
    assert_eq!(display(480, 800, Rotation::Rotate0, 0).size(), (800, 480));
    assert_eq!(display(480, 800, Rotation::Rotate90, 0).size(), (480, 800));
    assert_eq!(display(480, 800, Rotation::Rotate180, 0).size(), (800, 480));
    assert_eq!(display(480, 800, Rotation::Rotate270, 0).size(), (480, 800));
}

#[test]
fn display_forwards_the_geometry_of_its_panel() {
    let display = display(480, 800, Rotation::Rotate90, 0);
    assert_eq!(display.rows(), 480);
    assert_eq!(display.cols(), 800);
    assert_eq!(display.rotation(), Rotation::Rotate90);
}

#[test]
fn draw_iter_leaves_out_pixels_outside_the_image() {
    let mut display = display(8, 16, Rotation::Rotate0, 0xFF);
    display.draw_iter(&[
        Pixel { x: 0, y: 0, on: true },
        Pixel { x: -1, y: 0, on: true },
        Pixel { x: 0, y: -1, on: true },
        Pixel { x: 16, y: 0, on: true },
        Pixel { x: 0, y: 8, on: true },
        Pixel { x: i32::MIN, y: i32::MAX, on: true },
        Pixel { x: 15, y: 7, on: true },
    ]);
    let mut expected = vec![0xFFu8; 16];
    expected[0] = 0x7F;
    expected[15] = 0xFE;
    assert_eq!(display.buffer(), &expected[..]);
}

#[test]
fn draw_iter_clips_against_the_rotated_image() {
    let mut display = display(8, 16, Rotation::Rotate90, 0xFF);
    display.draw_iter(&[
        Pixel { x: 7, y: 15, on: true },
        Pixel { x: 8, y: 0, on: true },
        Pixel { x: 15, y: 7, on: true },
    ]);
    let mut expected = vec![0xFFu8; 16];
    expected[14] = 0x7F;
    assert_eq!(display.buffer(), &expected[..]);
}

#[test]
fn draw_iter_draws_in_order() {
    let mut display = display(8, 16, Rotation::Rotate0, 0xFF);
    display.draw_iter(&[
        Pixel { x: 2, y: 1, on: true },
        Pixel { x: 2, y: 1, on: false },
        Pixel { x: 3, y: 1, on: false },
        Pixel { x: 3, y: 1, on: true },
    ]);
    assert_eq!(display.buffer()[2], 0b1110_1111);
}

#[test]
fn draw_iter_without_automatic_refresh_does_not_touch_the_controller() {
    let mut display = display(8, 16, Rotation::Rotate0, 0xFF);
    display.reset().expect("the bus does not fail");
    let before = log_of(&display).len();
    display.draw_iter(&[Pixel { x: 0, y: 0, on: true }]);
    assert_eq!(log_of(&display).len(), before);
    assert!(display.is_initialized());
}

#[test]
fn draw_iter_with_automatic_refresh_writes_the_buffer_with_the_fast_waveform() {
    let mut display = Display::new(
        Bus::new(),
        vec![0xFF; 16],
        config(8, 16, Rotation::Rotate0, true),
    );
    display.reset().expect("the bus does not fail");
    let before = log_of(&display).len();
    display.draw_iter(&[Pixel { x: 0, y: 0, on: true }]);
    let mut buffer = vec![0xFFu8; 16];
    buffer[0] = 0x7F;
    assert_eq!(
        &log_of(&display)[before..],
        &[
            Command(0x4E),
            Data(vec![0x00, 0x00]),
            Command(0x4F),
            Data(vec![0x00, 0x00]),
            Command(0x24),
            Data(buffer),
            Command(0x22),
            Data(vec![0xFF]),
            Command(0x20),
            BusyWait,
        ]
    );
    assert!(display.is_initialized());
}

#[test]
fn draw_iter_before_initialization_only_draws() {
    let mut display = Display::new(
        Bus::new(),
        vec![0xFF; 16],
        config(8, 16, Rotation::Rotate0, true),
    );
    display.draw_iter(&[Pixel { x: 0, y: 0, on: true }]);
    assert_eq!(display.buffer()[0], 0x7F);
    assert_eq!(log_of(&display), &vec![]);
    assert!(!display.is_initialized());
}

#[test]
fn draw_iter_swallows_a_failed_refresh_but_drops_initialization() {
    let mut display = Display::new(
        Bus::failing_at(25),
        vec![0xFF; 16],
        config(8, 16, Rotation::Rotate0, true),
    );
    display.init().expect("the failure comes later");
    let before = log_of(&display).len();
    display.draw_iter(&[Pixel { x: 1, y: 0, on: true }]);
    assert_eq!(display.buffer()[0], 0xBF);
    assert!(!display.is_initialized());
    assert_eq!(
        &log_of(&display)[before..],
        &[Command(0x4E), Data(vec![0x00, 0x00]), Command(0x4F), Data(vec![0x00, 0x00])]
    );
    display.draw_iter(&[Pixel { x: 2, y: 0, on: true }]);
    assert_eq!(display.buffer()[0], 0x9F);
    assert_eq!(log_of(&display).len(), before + 4);
}

#[test]
fn update_writes_the_framebuffer_to_the_black_and_white_plane() {
    let mut display = display(8, 16, Rotation::Rotate0, 0xFF);
    display.init().expect("the bus does not fail");
    display.set_pixel(15, 7, true);
    let before = log_of(&display).len();
    display
        .update(DisplayUpdateMode::Slow)
        .expect("the bus does not fail");
    let mut buffer = vec![0xFFu8; 16];
    buffer[15] = 0xFE;
    assert_eq!(
        &log_of(&display)[before..],
        &[
            Command(0x4E),
            Data(vec![0x00, 0x00]),
            Command(0x4F),
            Data(vec![0x00, 0x00]),
            Command(0x24),
            Data(buffer.clone()),
            Command(0x22),
            Data(vec![0xF7]),
            Command(0x20),
            BusyWait,
        ]
    );
    assert_eq!(display.buffer(), &buffer[..]);
}

#[test]
fn a_basic_display_can_be_given_a_framebuffer() {
    let basic = BasicDisplay::new(Bus::new(), config(8, 16, Rotation::Rotate0, false));
    let mut display = Display::from_basic_display(basic, vec![0x00; 16]);
    display.set_pixel(0, 0, false);
    assert_eq!(display.buffer()[0], 0x80);
    display.reset().expect("the bus does not fail");
    assert!(display.is_initialized());
    assert_eq!(log_of(&display)[0], Reset(10));
}

#[test]
fn a_display_gives_its_parts_back() {
    let mut display = display(8, 16, Rotation::Rotate0, 0xFF);
    display.reset().expect("the bus does not fail");
    display.set_pixel(0, 0, true);
    let (basic, buffer) = display.release();
    assert_eq!(buffer[0], 0x7F);
    assert_eq!(buffer.len(), 16);
    assert!(basic.is_initialized());
    let bus = basic.release();
    assert_eq!(bus.log[0], Reset(10));
    assert_eq!(bus.transfers, 22);
}
