//! The controller's commands and their options.
//!
//! Every command is one command byte followed by its data bytes. For each
//! command a spec function gives the requests it consists of; the method of
//! [`DisplayCommands`] hands exactly those requests to the transport, in
//! order, and stops at the first one that fails.
use crate::interface::{
    attempt, completed, stopped_short, Attempt, DisplayInterface, Request, RESET_DELAY_MS,
};
use vstd::prelude::*;

verus! {

/// Axis along which the RAM address counter moves first while image data is
/// written.
#[derive(Clone, Copy, Debug, PartialEq, Eq, Structural)]
pub enum IncrementAxis {
    /// X direction.
    Horizontal,
    /// Y direction.
    Vertical,
}

/// Direction in which the RAM address counters move while image data is
/// written.
#[derive(Clone, Copy, Debug, PartialEq, Eq, Structural)]
pub enum DataEntryMode {
    DecrementXDecrementY,
    IncrementXDecrementY,
    DecrementXIncrementY,
    IncrementXIncrementY,
}

/// Temperature sensor that selects the waveform.
#[derive(Clone, Copy, Debug, PartialEq, Eq, Structural)]
pub enum TemperatureSensor {
    Internal,
    External,
}

/// How the content of one RAM plane enters a refresh.
#[derive(Clone, Copy, Debug, PartialEq, Eq, Structural)]
pub enum RamOption {
    Normal,
    Bypass,
    Invert,
}

/// Sleep state of the controller.
#[derive(Clone, Copy, Debug, PartialEq, Eq, Structural)]
pub enum DeepSleepMode {
    /// Not sleeping.
    Normal,
    /// Deep sleep with RAM preserved.
    PreserveRAM,
    /// Deep sleep with RAM discarded.
    DiscardRAM,
}

/// Inrush current limit of the booster.
#[derive(Clone, Copy, Debug, PartialEq, Eq, Structural)]
pub enum BoosterInrush {
    Level1,
    Level2,
}

/// What drives the border of the panel.
#[derive(Clone, Copy, Debug, PartialEq, Eq, Structural)]
pub enum WaveformVDBOption {
    /// The transition chosen by [`VDBGSTransitionSetting`].
    Transition,
    /// The fixed level chosen by [`VDBFixedLevelSetting`].
    Fixed,
    VCOM,
    /// High impedance; the controller's value after power-on.
    HiZ,
}

/// Fixed level of the border.
#[derive(Clone, Copy, Debug, PartialEq, Eq, Structural)]
pub enum VDBFixedLevelSetting {
    /// The controller's value after power-on.
    VSS,
    VSH1,
    VSL,
    VSH2,
}

/// Transition of the border.
#[derive(Clone, Copy, Debug, PartialEq, Eq, Structural)]
pub enum VDBGSTransitionSetting {
    /// The controller's value after power-on.
    LUT0,
    LUT1,
    LUT2,
    LUT3,
}

impl IncrementAxis {
    /// The register code of this option.
    pub open spec fn spec_bits(self) -> u8 {
        match self {
            IncrementAxis::Horizontal => 0b0,
            IncrementAxis::Vertical => 0b1,
        }
    }

    /// The register code of this option.
    #[verifier::when_used_as_spec(spec_bits)]
    pub fn bits(self) -> (b: u8)
        ensures
            b == self.spec_bits(),
    {
        match self {
            IncrementAxis::Horizontal => 0b0,
            IncrementAxis::Vertical => 0b1,
        }
    }
}

impl DataEntryMode {
    /// The register code of this option.
    pub open spec fn spec_bits(self) -> u8 {
        match self {
            DataEntryMode::DecrementXDecrementY => 0b00,
            DataEntryMode::IncrementXDecrementY => 0b01,
            DataEntryMode::DecrementXIncrementY => 0b10,
            DataEntryMode::IncrementXIncrementY => 0b11,
        }
    }

    /// The register code of this option.
    #[verifier::when_used_as_spec(spec_bits)]
    pub fn bits(self) -> (b: u8)
        ensures
            b == self.spec_bits(),
    {
        match self {
            DataEntryMode::DecrementXDecrementY => 0b00,
            DataEntryMode::IncrementXDecrementY => 0b01,
            DataEntryMode::DecrementXIncrementY => 0b10,
            DataEntryMode::IncrementXIncrementY => 0b11,
        }
    }
}

impl TemperatureSensor {
    /// The register code of this option.
    pub open spec fn spec_bits(self) -> u8 {
        match self {
            TemperatureSensor::Internal => 0x80,
            TemperatureSensor::External => 48,
        }
    }

    /// The register code of this option.
    #[verifier::when_used_as_spec(spec_bits)]
    pub fn bits(self) -> (b: u8)
        ensures
            b == self.spec_bits(),
    {
        match self {
            TemperatureSensor::Internal => 0x80,
            TemperatureSensor::External => 48,
        }
    }
}

impl RamOption {
    /// The register code of this option.
    pub open spec fn spec_bits(self) -> u8 {
        match self {
            RamOption::Normal => 0b0000,
            RamOption::Bypass => 0b0100,
            RamOption::Invert => 0b1000,
        }
    }

    /// The register code of this option.
    #[verifier::when_used_as_spec(spec_bits)]
    pub fn bits(self) -> (b: u8)
        ensures
            b == self.spec_bits(),
    {
        match self {
            RamOption::Normal => 0b0000,
            RamOption::Bypass => 0b0100,
            RamOption::Invert => 0b1000,
        }
    }
}

impl BoosterInrush {
    /// The register code of this option.
    pub open spec fn spec_bits(self) -> u8 {
        match self {
            BoosterInrush::Level1 => 0x40,
            BoosterInrush::Level2 => 0x80,
        }
    }

    /// The register code of this option.
    #[verifier::when_used_as_spec(spec_bits)]
    pub fn bits(self) -> (b: u8)
        ensures
            b == self.spec_bits(),
    {
        match self {
            BoosterInrush::Level1 => 0x40,
            BoosterInrush::Level2 => 0x80,
        }
    }
}

impl WaveformVDBOption {
    /// The register code of this option.
    pub open spec fn spec_bits(self) -> u8 {
        match self {
            WaveformVDBOption::Transition => 0b00,
            WaveformVDBOption::Fixed => 0b01,
            WaveformVDBOption::VCOM => 0b10,
            WaveformVDBOption::HiZ => 0b11,
        }
    }

    /// The register code of this option.
    #[verifier::when_used_as_spec(spec_bits)]
    pub fn bits(self) -> (b: u8)
        ensures
            b == self.spec_bits(),
    {
        match self {
            WaveformVDBOption::Transition => 0b00,
            WaveformVDBOption::Fixed => 0b01,
            WaveformVDBOption::VCOM => 0b10,
            WaveformVDBOption::HiZ => 0b11,
        }
    }
}

impl VDBFixedLevelSetting {
    /// The register code of this option.
    pub open spec fn spec_bits(self) -> u8 {
        match self {
            VDBFixedLevelSetting::VSS => 0b00,
            VDBFixedLevelSetting::VSH1 => 0b01,
            VDBFixedLevelSetting::VSL => 0b10,
            VDBFixedLevelSetting::VSH2 => 0b11,
        }
    }

    /// The register code of this option.
    #[verifier::when_used_as_spec(spec_bits)]
    pub fn bits(self) -> (b: u8)
        ensures
            b == self.spec_bits(),
    {
        match self {
            VDBFixedLevelSetting::VSS => 0b00,
            VDBFixedLevelSetting::VSH1 => 0b01,
            VDBFixedLevelSetting::VSL => 0b10,
            VDBFixedLevelSetting::VSH2 => 0b11,
        }
    }
}

impl VDBGSTransitionSetting {
    /// The register code of this option.
    pub open spec fn spec_bits(self) -> u8 {
        match self {
            VDBGSTransitionSetting::LUT0 => 0b00,
            VDBGSTransitionSetting::LUT1 => 0b01,
            VDBGSTransitionSetting::LUT2 => 0b10,
            VDBGSTransitionSetting::LUT3 => 0b11,
        }
    }

    /// The register code of this option.
    #[verifier::when_used_as_spec(spec_bits)]
    pub fn bits(self) -> (b: u8)
        ensures
            b == self.spec_bits(),
    {
        match self {
            VDBGSTransitionSetting::LUT0 => 0b00,
            VDBGSTransitionSetting::LUT1 => 0b01,
            VDBGSTransitionSetting::LUT2 => 0b10,
            VDBGSTransitionSetting::LUT3 => 0b11,
        }
    }
}

/// Low byte of a 16-bit value.
pub open spec fn low_byte(value: u16) -> u8 {
    (value % 256) as u8
}

/// High byte of a 16-bit value.
pub open spec fn high_byte(value: u16) -> u8 {
    (value / 256) as u8
}

/// The two bytes of a 16-bit value, low byte first.
pub open spec fn le_bytes(value: u16) -> Seq<u8> {
    seq![low_byte(value), high_byte(value)]
}

/// The data byte of the data-entry-mode command: the axis in bit 2, the
/// counting directions in bits 1 and 0.
pub open spec fn data_entry_mode_byte(mode: DataEntryMode, axis: IncrementAxis) -> u8 {
    (axis.spec_bits() * 4 + mode.spec_bits()) as u8
}

/// The data byte of the first update-option command: the option of the red
/// plane in the high four bits, that of the black-and-white plane in the low
/// four.
pub open spec fn update_option1_byte(black_and_white: RamOption, red: RamOption) -> u8 {
    (red.spec_bits() * 16 + black_and_white.spec_bits()) as u8
}

/// The data byte of the border-waveform command: the source of the border in
/// bits 7 and 6, its fixed level in bits 5 and 4, its transition in bits 1
/// and 0.
pub open spec fn border_waveform_byte(
    vdb: WaveformVDBOption,
    fixed_level: VDBFixedLevelSetting,
    transition: VDBGSTransitionSetting,
) -> u8 {
    (vdb.spec_bits() * 64 + fixed_level.spec_bits() * 16 + transition.spec_bits()) as u8
}

/// The register code of a gate driving voltage given in millivolts.
///
/// The controller supports 12 V to 20 V in steps of 0.5 V, with codes that
/// count up from `0x07`. Every other voltage gets code `0x00`, which the
/// controller reads as its power-on value.
pub open spec fn gate_voltage_code(millivolts: u32) -> u8 {
    if 12_000 <= millivolts <= 20_000 && millivolts % 500 == 0 {
        (0x07 + (millivolts - 12_000) / 500) as u8
    } else {
        0x00
    }
}

/// The data bytes of a RAM window command: the start address, then the end
/// address cut down to its low ten bits, each low byte first.
pub open spec fn ram_window_data(start: u16, end: u16) -> Seq<u8> {
    le_bytes(start) + le_bytes((end % 1024) as u16)
}

/// A command byte followed by its data bytes.
pub open spec fn command_requests(opcode: u8, data: Seq<u8>) -> Seq<Request> {
    seq![Request::Command(opcode), Request::Data(data)]
}

/// Requests of [`DisplayCommands::set_driver_output_control`].
pub open spec fn driver_output_control_requests(max_gate_lines: u16, scanning: u8) -> Seq<Request> {
    command_requests(0x01, le_bytes(max_gate_lines).push(scanning))
}

/// Requests of [`DisplayCommands::set_driver_output_control_from_width`]:
/// one less than the number of gate lines, one byte per transfer, then the
/// scanning byte.
pub open spec fn driver_output_control_from_width_requests(width: u16) -> Seq<Request> {
    seq![
        Request::Command(0x01),
        Request::Data(seq![low_byte((width - 1) as u16)]),
        Request::Data(seq![high_byte((width - 1) as u16)]),
        Request::Data(seq![0x02u8]),
    ]
}

/// Requests of [`DisplayCommands::set_data_entry_mode`].
pub open spec fn data_entry_mode_requests(mode: DataEntryMode, axis: IncrementAxis) -> Seq<
    Request,
> {
    command_requests(0x11, seq![data_entry_mode_byte(mode, axis)])
}

/// Requests of [`DisplayCommands::write_ram_black_and_white`].
pub open spec fn write_ram_black_and_white_requests(data: Seq<u8>) -> Seq<Request> {
    command_requests(0x24, data)
}

/// Requests of [`DisplayCommands::write_ram_red`].
pub open spec fn write_ram_red_requests(data: Seq<u8>) -> Seq<Request> {
    command_requests(0x26, data)
}

/// Requests of [`DisplayCommands::auto_write_ram_red_regular_pattern`].
pub open spec fn auto_write_ram_red_requests(value: u8) -> Seq<Request> {
    command_requests(0x46, seq![value])
}

/// Requests of
/// [`DisplayCommands::auto_write_ram_black_and_white_regular_pattern`].
pub open spec fn auto_write_ram_black_and_white_requests(value: u8) -> Seq<Request> {
    command_requests(0x47, seq![value])
}

/// Requests of [`DisplayCommands::set_ram_x_count`].
pub open spec fn ram_x_count_requests(offset: u16) -> Seq<Request> {
    command_requests(0x4E, le_bytes(offset))
}

/// Requests of [`DisplayCommands::set_ram_y_count`].
pub open spec fn ram_y_count_requests(offset: u16) -> Seq<Request> {
    command_requests(0x4F, le_bytes(offset))
}

/// Requests of [`DisplayCommands::refresh_display`].
pub open spec fn refresh_display_requests() -> Seq<Request> {
    seq![Request::Command(0x20), Request::BusyWait]
}

/// Requests of [`DisplayCommands::set_ram_x_address`].
pub open spec fn ram_x_address_requests(start: u16, end: u16) -> Seq<Request> {
    command_requests(0x44, ram_window_data(start, end))
}

/// Requests of [`DisplayCommands::set_ram_y_address`].
pub open spec fn ram_y_address_requests(start: u16, end: u16) -> Seq<Request> {
    command_requests(0x45, ram_window_data(start, end))
}

/// Requests of [`DisplayCommands::set_ram_address_based_on_size`]: the X
/// window spans `height` addresses, the Y window `width` addresses.
pub open spec fn ram_address_based_on_size_requests(width: u16, height: u16) -> Seq<Request> {
    ram_x_address_requests(0, (height - 1) as u16) + ram_y_address_requests(0, (width - 1) as u16)
}

/// Requests of [`DisplayCommands::nop`].
pub open spec fn nop_requests() -> Seq<Request> {
    seq![Request::Command(0x7F)]
}

/// Requests of [`DisplayCommands::set_gate_driving_voltage`].
pub open spec fn gate_driving_voltage_requests(millivolts: u32) -> Seq<Request> {
    command_requests(0x03, seq![gate_voltage_code(millivolts)])
}

/// Requests of [`DisplayCommands::update_display_option1`].
pub open spec fn update_display_option1_requests(
    black_and_white: RamOption,
    red: RamOption,
) -> Seq<Request> {
    command_requests(0x21, seq![update_option1_byte(black_and_white, red)])
}

/// Requests of [`DisplayCommands::update_display_option2`].
pub open spec fn update_display_option2_requests(option: u8) -> Seq<Request> {
    command_requests(0x22, seq![option])
}

/// Requests of [`DisplayCommands::reset_hardware`].
pub open spec fn reset_hardware_requests() -> Seq<Request> {
    seq![Request::Reset(RESET_DELAY_MS)]
}

/// Requests of [`DisplayCommands::reset_software`].
pub open spec fn reset_software_requests() -> Seq<Request> {
    seq![Request::Command(0x12), Request::BusyWait]
}

/// Requests of [`DisplayCommands::set_border_waveform_control`].
pub open spec fn border_waveform_control_requests(
    vdb: WaveformVDBOption,
    fixed_level: VDBFixedLevelSetting,
    transition: VDBGSTransitionSetting,
) -> Seq<Request> {
    command_requests(0x3C, seq![border_waveform_byte(vdb, fixed_level, transition)])
}

/// Requests of [`DisplayCommands::set_temperature_sensor`].
pub open spec fn temperature_sensor_requests(sensor: TemperatureSensor) -> Seq<Request> {
    command_requests(0x18, seq![sensor.spec_bits()])
}

/// Requests of [`DisplayCommands::set_booster_soft_start_control`].
pub open spec fn booster_soft_start_control_requests(inrush: BoosterInrush) -> Seq<Request> {
    command_requests(0x0C, seq![0xAEu8, 0xC7u8, 0xC3u8, 0xC0u8, inrush.spec_bits()])
}

/// What a sequence of requests leaves in the record: all of `planned` when
/// it succeeded, a part of `planned` that ends in a failure when it failed.
pub open spec fn carried_out<E>(
    r: Result<(), E>,
    before: Seq<Attempt>,
    after: Seq<Attempt>,
    planned: Seq<Request>,
) -> bool {
    match r {
        Ok(_) => completed(before, after, planned),
        Err(_) => stopped_short(before, after, planned),
    }
}

/// Carrying out a plan part by part carries out the plan: if the first
/// `done` requests of `planned` were completed, and the part that follows
/// them is carried out next, then either that part is completed as well, or
/// the plan as a whole has stopped short.
pub proof fn carried_out_in_parts<E>(
    r: Result<(), E>,
    start: Seq<Attempt>,
    before: Seq<Attempt>,
    after: Seq<Attempt>,
    planned: Seq<Request>,
    done: int,
    part: Seq<Request>,
)
    requires
        0 <= done,
        done + part.len() <= planned.len(),
        planned.subrange(done, done + part.len()) == part,
        completed(start, before, planned.take(done)),
        carried_out(r, before, after, part),
    ensures
        r is Ok ==> completed(start, after, planned.take(done + part.len())),
        r is Err ==> stopped_short(start, after, planned),
{
    assert forall|i: int| 0 <= i < part.len() implies planned[done + i] == part[i] by {
        assert(planned.subrange(done, done + part.len())[i] == part[i]);
    }
}

/// Looks up the register code of a gate driving voltage given in
/// millivolts.
pub fn gate_driving_voltage_code(millivolts: u32) -> (code: u8)
    ensures
        code == gate_voltage_code(millivolts),
{
    match millivolts {
        12_000 => 0x07,
        12_500 => 0x08,
        13_000 => 0x09,
        13_500 => 0x0A,
        14_000 => 0x0B,
        14_500 => 0x0C,
        15_000 => 0x0D,
        15_500 => 0x0E,
        16_000 => 0x0F,
        16_500 => 0x10,
        17_000 => 0x11,
        17_500 => 0x12,
        18_000 => 0x13,
        18_500 => 0x14,
        19_000 => 0x15,
        19_500 => 0x16,
        20_000 => 0x17,
        _ => 0x00,
    }
}

/// The register writes of the controller.
///
/// No method retries: each request is handed to the transport once, and the
/// first failure ends the method with that failure.
pub trait DisplayCommands {
    /// Failure of a transfer.
    type Error;

    /// Every request handed to the transport so far with its outcome, oldest
    /// first.
    spec fn history(&self) -> Seq<Attempt>;

    /// Sends a command byte.
    fn send_command(&mut self, command: u8) -> (r: Result<(), Self::Error>)
        ensures
            final(self).history() == old(self).history().push(
                attempt(Request::Command(command), r is Ok),
            ),
    ;

    /// Sends the data bytes of the last command.
    fn send_data(&mut self, data: &[u8]) -> (r: Result<(), Self::Error>)
        ensures
            final(self).history() == old(self).history().push(
                attempt(Request::Data(data@), r is Ok),
            ),
    ;

    /// Resets the controller through its reset line, with a settle time of
    /// `delay_ms` milliseconds after each edge.
    fn reset(&mut self, delay_ms: u8)
        ensures
            final(self).history() == old(self).history().push(
                attempt(Request::Reset(delay_ms), true),
            ),
    ;

    /// Blocks until the controller no longer reports busy.
    fn busy_wait(&mut self)
        ensures
            final(self).history() == old(self).history().push(attempt(Request::BusyWait, true)),
    ;

    /// Sends a command byte and then its data bytes.
    fn command(&mut self, opcode: u8, data: &[u8]) -> (r: Result<(), Self::Error>)
        ensures
            carried_out(
                r,
                old(self).history(),
                final(self).history(),
                command_requests(opcode, data@),
            ),
    {
        self.send_command(opcode)?;
        self.send_data(data)
    }

    /// Sets the number of gate lines, and the scanning sequence and
    /// direction.
    fn set_driver_output_control(&mut self, max_gate_lines: u16, scanning: u8) -> (r: Result<
        (),
        Self::Error,
    >)
        ensures
            carried_out(
                r,
                old(self).history(),
                final(self).history(),
                driver_output_control_requests(max_gate_lines, scanning),
            ),
    {
        let data: [u8; 3] = [(max_gate_lines % 256) as u8, (max_gate_lines / 256) as u8, scanning];
        assert(data@ =~= le_bytes(max_gate_lines).push(scanning));
        self.command(0x01, &data)
    }

    /// Sets the number of gate lines of a panel with `width` of them, with
    /// the scanning sequence that the panel maker's example code uses.
    fn set_driver_output_control_from_width(&mut self, width: u16) -> (r: Result<(), Self::Error>)
        requires
            width >= 1,
        ensures
            carried_out(
                r,
                old(self).history(),
                final(self).history(),
                driver_output_control_from_width_requests(width),
            ),
    {
        let last: u16 = width - 1;
        let low: [u8; 1] = [(last % 256) as u8];
        let high: [u8; 1] = [(last / 256) as u8];
        let scanning: [u8; 1] = [0x02];
        assert(low@ =~= seq![low_byte(last)]);
        assert(high@ =~= seq![high_byte(last)]);
        assert(scanning@ =~= seq![0x02u8]);
        self.send_command(0x01)?;
        self.send_data(&low)?;
        self.send_data(&high)?;
        self.send_data(&scanning)
    }

    /// Sets the direction in which the RAM address counters move.
    fn set_data_entry_mode(&mut self, data_entry_mode: DataEntryMode, increment_axis: IncrementAxis)
        -> (r: Result<(), Self::Error>)
        ensures
            carried_out(
                r,
                old(self).history(),
                final(self).history(),
                data_entry_mode_requests(data_entry_mode, increment_axis),
            ),
    {
        let axis: u8 = increment_axis.bits();
        let mode: u8 = data_entry_mode.bits();
        assert((axis << 2u8) | mode == axis * 4 + mode) by (bit_vector)
            requires
                axis <= 1,
                mode <= 3,
        ;
        let data: [u8; 1] = [(axis << 2u8) | mode];
        assert(data@ =~= seq![data_entry_mode_byte(data_entry_mode, increment_axis)]);
        self.command(0x11, &data)
    }

    /// Writes `data` to the black-and-white RAM plane, from the current
    /// position of the address counters on.
    fn write_ram_black_and_white(&mut self, data: &[u8]) -> (r: Result<(), Self::Error>)
        ensures
            carried_out(
                r,
                old(self).history(),
                final(self).history(),
                write_ram_black_and_white_requests(data@),
            ),
    {
        self.command(0x24, data)
    }

    /// Writes `data` to the red RAM plane, from the current position of the
    /// address counters on.
    fn write_ram_red(&mut self, data: &[u8]) -> (r: Result<(), Self::Error>)
        ensures
            carried_out(
                r,
                old(self).history(),
                final(self).history(),
                write_ram_red_requests(data@),
            ),
    {
        self.command(0x26, data)
    }

    /// Fills the red RAM plane with one byte.
    fn auto_write_ram_red_regular_pattern(&mut self, value: u8) -> (r: Result<(), Self::Error>)
        ensures
            carried_out(
                r,
                old(self).history(),
                final(self).history(),
                auto_write_ram_red_requests(value),
            ),
    {
        let data: [u8; 1] = [value];
        assert(data@ =~= seq![value]);
        self.command(0x46, &data)
    }

    /// Fills the black-and-white RAM plane with one byte.
    fn auto_write_ram_black_and_white_regular_pattern(&mut self, value: u8) -> (r: Result<
        (),
        Self::Error,
    >)
        ensures
            carried_out(
                r,
                old(self).history(),
                final(self).history(),
                auto_write_ram_black_and_white_requests(value),
            ),
    {
        let data: [u8; 1] = [value];
        assert(data@ =~= seq![value]);
        self.command(0x47, &data)
    }

    /// Sets the X address counter.
    fn set_ram_x_count(&mut self, offset: u16) -> (r: Result<(), Self::Error>)
        ensures
            carried_out(
                r,
                old(self).history(),
                final(self).history(),
                ram_x_count_requests(offset),
            ),
    {
        let data: [u8; 2] = [(offset % 256) as u8, (offset / 256) as u8];
        assert(data@ =~= le_bytes(offset));
        self.command(0x4E, &data)
    }

    /// Sets the Y address counter.
    fn set_ram_y_count(&mut self, offset: u16) -> (r: Result<(), Self::Error>)
        ensures
            carried_out(
                r,
                old(self).history(),
                final(self).history(),
                ram_y_count_requests(offset),
            ),
    {
        let data: [u8; 2] = [(offset % 256) as u8, (offset / 256) as u8];
        assert(data@ =~= le_bytes(offset));
        self.command(0x4F, &data)
    }

    /// Starts a refresh of the panel and waits until it is over.
    fn refresh_display(&mut self) -> (r: Result<(), Self::Error>)
        ensures
            carried_out(
                r,
                old(self).history(),
                final(self).history(),
                refresh_display_requests(),
            ),
    {
        self.send_command(0x20)?;
        self.busy_wait();
        Ok(())
    }

    /// Sets the first and last X address of the RAM window. Only the low ten
    /// bits of `end` reach the controller.
    fn set_ram_x_address(&mut self, start: u16, end: u16) -> (r: Result<(), Self::Error>)
        ensures
            carried_out(
                r,
                old(self).history(),
                final(self).history(),
                ram_x_address_requests(start, end),
            ),
    {
        let end: u16 = end % 1024;
        let data: [u8; 4] = [
            (start % 256) as u8,
            (start / 256) as u8,
            (end % 256) as u8,
            (end / 256) as u8,
        ];
        assert(data@ =~= le_bytes(start) + le_bytes(end));
        self.command(0x44, &data)
    }

    /// Sets the first and last Y address of the RAM window. Only the low ten
    /// bits of `end` reach the controller.
    fn set_ram_y_address(&mut self, start: u16, end: u16) -> (r: Result<(), Self::Error>)
        ensures
            carried_out(
                r,
                old(self).history(),
                final(self).history(),
                ram_y_address_requests(start, end),
            ),
    {
        let end: u16 = end % 1024;
        let data: [u8; 4] = [
            (start % 256) as u8,
            (start / 256) as u8,
            (end % 256) as u8,
            (end / 256) as u8,
        ];
        assert(data@ =~= le_bytes(start) + le_bytes(end));
        self.command(0x45, &data)
    }

    /// Opens the RAM window over a whole panel: X addresses `0` to
    /// `height - 1`, Y addresses `0` to `width - 1`.
    fn set_ram_address_based_on_size(&mut self, width: u16, height: u16) -> (r: Result<
        (),
        Self::Error,
    >)
        requires
            width >= 1,
            height >= 1,
        ensures
            carried_out(
                r,
                old(self).history(),
                final(self).history(),
                ram_address_based_on_size_requests(width, height),
            ),
    {
        self.set_ram_x_address(0, height - 1)?;
        self.set_ram_y_address(0, width - 1)
    }

    /// Does nothing; ends a RAM write or read.
    fn nop(&mut self) -> (r: Result<(), Self::Error>)
        ensures
            carried_out(r, old(self).history(), final(self).history(), nop_requests()),
    {
        self.send_command(0x7F)
    }

    /// Sets the driving voltage of the gates, given in millivolts. A voltage that the
    /// controller does not support selects its power-on value.
    fn set_gate_driving_voltage(&mut self, millivolts: u32) -> (r: Result<(), Self::Error>)
        ensures
            carried_out(
                r,
                old(self).history(),
                final(self).history(),
                gate_driving_voltage_requests(millivolts),
            ),
    {
        let data: [u8; 1] = [gate_driving_voltage_code(millivolts)];
        assert(data@ =~= seq![gate_voltage_code(millivolts)]);
        self.command(0x03, &data)
    }

    /// Chooses how the content of each RAM plane enters a refresh.
    fn update_display_option1(&mut self, black_and_white_option: RamOption, red_option: RamOption)
        -> (r: Result<(), Self::Error>)
        ensures
            carried_out(
                r,
                old(self).history(),
                final(self).history(),
                update_display_option1_requests(black_and_white_option, red_option),
            ),
    {
        let red: u8 = red_option.bits();
        let black_and_white: u8 = black_and_white_option.bits();
        assert(((red & 0b1111) << 4u8) | (black_and_white & 0b1111) == red * 16 + black_and_white)
            by (bit_vector)
            requires
                red <= 15,
                black_and_white <= 15,
        ;
        let data: [u8; 1] = [((red & 0b1111) << 4u8) | (black_and_white & 0b1111)];
        assert(data@ =~= seq![update_option1_byte(black_and_white_option, red_option)]);
        self.command(0x21, &data)
    }

    /// Chooses the sequence of a refresh.
    fn update_display_option2(&mut self, option: u8) -> (r: Result<(), Self::Error>)
        ensures
            carried_out(
                r,
                old(self).history(),
                final(self).history(),
                update_display_option2_requests(option),
            ),
    {
        let data: [u8; 1] = [option];
        assert(data@ =~= seq![option]);
        self.command(0x22, &data)
    }

    /// Resets the controller through its reset line, with a settle time of
    /// [`RESET_DELAY_MS`] after each edge.
    fn reset_hardware(&mut self)
        ensures
            completed(old(self).history(), final(self).history(), reset_hardware_requests()),
    {
        self.reset(RESET_DELAY_MS);
    }

    /// Resets every setting but the sleep mode to its power-on value and
    /// waits until the controller is done. The RAM keeps its content.
    fn reset_software(&mut self) -> (r: Result<(), Self::Error>)
        ensures
            carried_out(
                r,
                old(self).history(),
                final(self).history(),
                reset_software_requests(),
            ),
    {
        self.send_command(0x12)?;
        self.busy_wait();
        Ok(())
    }

    /// Chooses what drives the border of the panel.
    fn set_border_waveform_control(
        &mut self,
        vdb_option: WaveformVDBOption,
        fixed_level_setting: VDBFixedLevelSetting,
        transition_setting: VDBGSTransitionSetting,
    ) -> (r: Result<(), Self::Error>)
        ensures
            carried_out(
                r,
                old(self).history(),
                final(self).history(),
                border_waveform_control_requests(
                    vdb_option,
                    fixed_level_setting,
                    transition_setting,
                ),
            ),
    {
        let vdb: u8 = vdb_option.bits();
        let fixed_level: u8 = fixed_level_setting.bits();
        let transition: u8 = transition_setting.bits();
        assert((vdb << 6u8) | (fixed_level << 4u8) | transition == vdb * 64 + fixed_level * 16
            + transition) by (bit_vector)
            requires
                vdb <= 3,
                fixed_level <= 3,
                transition <= 3,
        ;
        let data: [u8; 1] = [(vdb << 6u8) | (fixed_level << 4u8) | transition];
        assert(data@ =~= seq![
            border_waveform_byte(vdb_option, fixed_level_setting, transition_setting),
        ]);
        self.command(0x3C, &data)
    }

    /// Chooses the temperature sensor.
    fn set_temperature_sensor(&mut self, sensor: TemperatureSensor) -> (r: Result<(), Self::Error>)
        ensures
            carried_out(
                r,
                old(self).history(),
                final(self).history(),
                temperature_sensor_requests(sensor),
            ),
    {
        let data: [u8; 1] = [sensor.bits()];
        assert(data@ =~= seq![sensor.spec_bits()]);
        self.command(0x18, &data)
    }

    /// Sets the inrush current limit of the booster.
    fn set_booster_soft_start_control(&mut self, inrush: BoosterInrush) -> (r: Result<
        (),
        Self::Error,
    >)
        ensures
            carried_out(
                r,
                old(self).history(),
                final(self).history(),
                booster_soft_start_control_requests(inrush),
            ),
    {
        let data: [u8; 5] = [0xAE, 0xC7, 0xC3, 0xC0, inrush.bits()];
        assert(data@ =~= seq![0xAEu8, 0xC7u8, 0xC3u8, 0xC0u8, inrush.spec_bits()]);
        self.command(0x0C, &data)
    }
}

/// A transport together with the record of the requests handed to it.
///
/// This is the only place where the driver calls a transport, and the only
/// place where the record grows: each request is passed on as it is, once,
/// and is appended to the record with the outcome that the transport reports.
pub struct Recorded<I> {
    interface: I,
    record: Ghost<Seq<Attempt>>,
}

impl<I: DisplayInterface> Recorded<I> {
    /// The transport itself.
    pub closed spec fn spec_interface(&self) -> I {
        self.interface
    }

    /// Starts an empty record for `interface`.
    pub fn new(interface: I) -> (recorded: Self)
        ensures
            recorded.history() == Seq::<Attempt>::empty(),
            recorded.spec_interface() == interface,
    {
        Recorded { interface, record: Ghost(Seq::empty()) }
    }

    /// The transport itself.
    pub fn interface(&self) -> (interface: &I)
        ensures
            *interface == self.spec_interface(),
    {
        &self.interface
    }

    /// Gives the transport back and drops the record.
    pub fn release(self) -> (interface: I)
        ensures
            interface == self.spec_interface(),
    {
        self.interface
    }
}

impl<I: DisplayInterface> DisplayCommands for Recorded<I> {
    type Error = I::Error;

    closed spec fn history(&self) -> Seq<Attempt> {
        self.record@
    }

    /// Passes the command byte on and records the request with its outcome.
    fn send_command(&mut self, command: u8) -> (r: Result<(), I::Error>) {
        let r = self.interface.send_command(command);
        proof {
            self.record@ = self.record@.push(attempt(Request::Command(command), r is Ok));
        }
        r
    }

    /// Passes the data bytes on and records the request with its outcome.
    fn send_data(&mut self, data: &[u8]) -> (r: Result<(), I::Error>) {
        let r = self.interface.send_data(data);
        proof {
            self.record@ = self.record@.push(attempt(Request::Data(data@), r is Ok));
        }
        r
    }

    /// Passes the reset on and records it.
    fn reset(&mut self, delay_ms: u8) {
        self.interface.reset(delay_ms);
        proof {
            self.record@ = self.record@.push(attempt(Request::Reset(delay_ms), true));
        }
    }

    /// Passes the wait on and records it.
    fn busy_wait(&mut self) {
        self.interface.busy_wait();
        proof {
            self.record@ = self.record@.push(attempt(Request::BusyWait, true));
        }
    }
}

} // verus!
