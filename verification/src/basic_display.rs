//! Panel geometry and the controller's reset, initialization and refresh
//! sequences.
//!
//! A controller is usable only after its initialization sequence has run to
//! the end. [`BasicDisplay`] keeps track of that: a refresh asks for an
//! initialized controller, and any failure of the transport leaves the
//! controller uninitialized until the next successful [`BasicDisplay::reset`]
//! or [`BasicDisplay::init`].
use crate::command::{
    auto_write_ram_black_and_white_requests, auto_write_ram_red_requests,
    border_waveform_control_requests, carried_out, carried_out_in_parts,
    data_entry_mode_requests, driver_output_control_from_width_requests, high_byte, low_byte,
    ram_address_based_on_size_requests, ram_window_data, ram_x_count_requests,
    ram_y_count_requests, refresh_display_requests, reset_hardware_requests,
    reset_software_requests, temperature_sensor_requests, update_display_option2_requests,
    write_ram_black_and_white_requests, write_ram_red_requests, DataEntryMode, DisplayCommands,
    IncrementAxis, Recorded, TemperatureSensor, VDBFixedLevelSetting, VDBGSTransitionSetting,
    WaveformVDBOption,
};
use crate::config::Config;
use crate::interface::{attempts, Attempt, DisplayInterface, Request};
use vstd::prelude::*;

verus! {

/// Largest number of gate outputs (rows) the controller can drive.
pub const MAX_GATE_OUTPUTS: u16 = 680;

/// Largest number of source outputs (columns) the controller can drive.
pub const MAX_SOURCE_OUTPUTS: u16 = 960;

/// Native size of a panel, in pixels.
#[derive(Clone, Copy, Debug, PartialEq, Eq, Structural)]
pub struct Dimensions {
    /// Number of rows; at most [`MAX_GATE_OUTPUTS`].
    pub rows: u16,
    /// Number of columns; at most [`MAX_SOURCE_OUTPUTS`] and a multiple of 8,
    /// so that every row of the packed framebuffer is a whole number of bytes.
    pub cols: u16,
}

impl Dimensions {
    /// The controller can drive a panel of this size.
    pub open spec fn valid(self) -> bool {
        &&& self.rows <= MAX_GATE_OUTPUTS
        &&& self.cols <= MAX_SOURCE_OUTPUTS
        &&& self.cols % 8 == 0
    }

    /// Number of bytes in a framebuffer that holds one bit per pixel.
    pub open spec fn buffer_len(self) -> nat {
        (self.rows as nat * self.cols as nat) / 8
    }

    /// Decides [`Dimensions::valid`].
    pub fn is_valid(&self) -> (ok: bool)
        ensures
            ok == self.valid(),
    {
        self.rows <= MAX_GATE_OUTPUTS && self.cols <= MAX_SOURCE_OUTPUTS && self.cols % 8 == 0
    }
}

/// Orientation of the logical image relative to the panel's native scan
/// order.
#[derive(Clone, Copy, Debug, PartialEq, Eq, Structural)]
pub enum Rotation {
    /// No rotation.
    Rotate0,
    /// Rotated by 90 degrees.
    Rotate90,
    /// Rotated by 180 degrees.
    Rotate180,
    /// Rotated by 270 degrees.
    Rotate270,
}

impl Default for Rotation {
    /// The default is no rotation.
    fn default() -> (r: Self)
        ensures
            r == Rotation::Rotate0,
    {
        Rotation::Rotate0
    }
}

/// Waveform used for a refresh.
///
/// `Slow` clears the panel fully and leaves a crisp image; `Fast` is quicker
/// but may leave ghosting.
#[derive(Clone, Copy, Debug, PartialEq, Eq, Structural)]
pub enum DisplayUpdateMode {
    /// Quick refresh that can struggle to clear pixels.
    Fast,
    /// Full refresh.
    Slow,
}

impl DisplayUpdateMode {
    /// The byte written to the update-option register for this mode.
    pub open spec fn spec_bits(self) -> u8 {
        match self {
            DisplayUpdateMode::Fast => 0xFF,
            DisplayUpdateMode::Slow => 0xF7,
        }
    }

    /// The byte written to the update-option register for this mode.
    #[verifier::when_used_as_spec(spec_bits)]
    pub fn bits(self) -> (b: u8)
        ensures
            b == self.spec_bits(),
    {
        match self {
            DisplayUpdateMode::Fast => 0xFF,
            DisplayUpdateMode::Slow => 0xF7,
        }
    }
}

/// Byte that [`BasicDisplay::init`] fills both RAM planes with.
pub const RAM_FILL_PATTERN: u8 = 0xF7;

/// Update option that loads the waveform table from the controller's
/// one-time-programmable memory.
pub const LOAD_WAVEFORM_OPTION: u8 = 0xFF;

/// Requests of [`BasicDisplay::init`] for a panel of the given size.
pub open spec fn init_requests(dimensions: Dimensions) -> Seq<Request> {
    auto_write_ram_black_and_white_requests(RAM_FILL_PATTERN) + auto_write_ram_red_requests(
        RAM_FILL_PATTERN,
    ) + driver_output_control_from_width_requests(dimensions.rows) + data_entry_mode_requests(
        DataEntryMode::IncrementXIncrementY,
        IncrementAxis::Horizontal,
    ) + ram_address_based_on_size_requests(dimensions.rows, dimensions.cols)
        + border_waveform_control_requests(
        WaveformVDBOption::Transition,
        VDBFixedLevelSetting::VSS,
        VDBGSTransitionSetting::LUT1,
    ) + temperature_sensor_requests(TemperatureSensor::Internal) + update_display_option2_requests(
        LOAD_WAVEFORM_OPTION,
    ) + refresh_display_requests() + seq![Request::BusyWait]
}

/// Requests of [`BasicDisplay::reset`] for a panel of the given size: a
/// hardware reset, a software reset, a wait, and the initialization.
pub open spec fn reset_requests(dimensions: Dimensions) -> Seq<Request> {
    reset_hardware_requests() + reset_software_requests() + seq![Request::BusyWait] + init_requests(
        dimensions,
    )
}

/// Requests that write the black-and-white plane in
/// [`BasicDisplay::update`]: both address counters go back to 0, then the
/// buffer is written. Nothing is sent if no buffer is given.
pub open spec fn black_and_white_plane_requests(buffer: Option<Seq<u8>>) -> Seq<Request> {
    match buffer {
        Some(data) => ram_x_count_requests(0) + ram_y_count_requests(0)
            + write_ram_black_and_white_requests(data),
        None => Seq::empty(),
    }
}

/// Requests that write the red plane in [`BasicDisplay::update`]: both
/// address counters go back to 0, then the buffer is written. Nothing is sent
/// if no buffer is given.
pub open spec fn red_plane_requests(buffer: Option<Seq<u8>>) -> Seq<Request> {
    match buffer {
        Some(data) => ram_x_count_requests(0) + ram_y_count_requests(0) + write_ram_red_requests(
            data,
        ),
        None => Seq::empty(),
    }
}

/// Requests of [`BasicDisplay::update`]: the black-and-white plane, the red
/// plane, the update option of the mode, and the refresh.
pub open spec fn update_requests(
    bw_buffer: Option<Seq<u8>>,
    red_buffer: Option<Seq<u8>>,
    update_mode: DisplayUpdateMode,
) -> Seq<Request> {
    black_and_white_plane_requests(bw_buffer) + red_plane_requests(red_buffer)
        + update_display_option2_requests(update_mode.spec_bits()) + refresh_display_requests()
}

/// The bytes of a plane buffer, if one is given.
pub open spec fn plane_view(buffer: Option<&[u8]>) -> Option<Seq<u8>> {
    match buffer {
        Some(data) => Some(data@),
        None => None,
    }
}

/// The requests of an initialization, written out: register writes in a
/// fixed order, each a command byte with its data, then a refresh and a final
/// wait.
pub proof fn init_requests_written_out(dimensions: Dimensions)
    requires
        dimensions.valid(),
        dimensions.rows >= 1,
        dimensions.cols >= 1,
    ensures
        init_requests(dimensions) == seq![
            Request::Command(0x47),
            Request::Data(seq![0xF7u8]),
            Request::Command(0x46),
            Request::Data(seq![0xF7u8]),
            Request::Command(0x01),
            Request::Data(seq![low_byte((dimensions.rows - 1) as u16)]),
            Request::Data(seq![high_byte((dimensions.rows - 1) as u16)]),
            Request::Data(seq![0x02u8]),
            Request::Command(0x11),
            Request::Data(seq![0x03u8]),
            Request::Command(0x44),
            Request::Data(
                seq![
                    0x00u8,
                    0x00u8,
                    low_byte((dimensions.cols - 1) as u16),
                    high_byte((dimensions.cols - 1) as u16),
                ],
            ),
            Request::Command(0x45),
            Request::Data(
                seq![
                    0x00u8,
                    0x00u8,
                    low_byte((dimensions.rows - 1) as u16),
                    high_byte((dimensions.rows - 1) as u16),
                ],
            ),
            Request::Command(0x3C),
            Request::Data(seq![0x01u8]),
            Request::Command(0x18),
            Request::Data(seq![0x80u8]),
            Request::Command(0x22),
            Request::Data(seq![0xFFu8]),
            Request::Command(0x20),
            Request::BusyWait,
            Request::BusyWait,
        ],
{
    let cols_end = (dimensions.cols - 1) as u16;
    let rows_end = (dimensions.rows - 1) as u16;
    assert(ram_window_data(0, cols_end) =~= seq![
        0x00u8,
        0x00u8,
        low_byte(cols_end),
        high_byte(cols_end),
    ]);
    assert(ram_window_data(0, rows_end) =~= seq![
        0x00u8,
        0x00u8,
        low_byte(rows_end),
        high_byte(rows_end),
    ]);
}

/// Position, among the requests of an initialization, of a data transfer
/// whose bytes depend on the size of the panel: the two bytes of the number
/// of gate lines, and the two RAM windows.
pub open spec fn carries_geometry(position: int) -> bool {
    position == 5 || position == 6 || position == 11 || position == 13
}

/// Panels of different sizes are initialized by the same commands in the
/// same order. Only the number of gate lines, which follows command `0x01`,
/// and the RAM windows, which follow commands `0x44` and `0x45`, depend on the
/// size.
pub proof fn init_requests_differ_in_geometry_only(a: Dimensions, b: Dimensions)
    ensures
        init_requests(a).len() == init_requests(b).len() == 23,
        forall|i: int|
            0 <= i < 23 && !carries_geometry(i) ==> #[trigger] init_requests(a)[i] == init_requests(
                b,
            )[i],
        forall|i: int|
            0 <= i < 23 && carries_geometry(i) ==> #[trigger] init_requests(a)[i] is Data
                && init_requests(b)[i] is Data,
        init_requests(a)[4] == Request::Command(0x01),
        init_requests(a)[10] == Request::Command(0x44),
        init_requests(a)[12] == Request::Command(0x45),
{
}

/// The requests of a refresh that writes the black-and-white plane only,
/// written out: both address counters go back to 0, the buffer is written to
/// the black-and-white RAM, the mode is set, and the panel is refreshed. The
/// command that writes the red RAM, `0x26`, is not among them.
pub proof fn update_requests_of_black_and_white_plane(
    buffer: Seq<u8>,
    update_mode: DisplayUpdateMode,
)
    ensures
        update_requests(Some(buffer), None, update_mode) == seq![
            Request::Command(0x4E),
            Request::Data(seq![0x00u8, 0x00u8]),
            Request::Command(0x4F),
            Request::Data(seq![0x00u8, 0x00u8]),
            Request::Command(0x24),
            Request::Data(buffer),
            Request::Command(0x22),
            Request::Data(seq![update_mode.spec_bits()]),
            Request::Command(0x20),
            Request::BusyWait,
        ],
        DisplayUpdateMode::Slow.spec_bits() == 0xF7,
        DisplayUpdateMode::Fast.spec_bits() == 0xFF,
        forall|i: int|
            0 <= i < update_requests(Some(buffer), None, update_mode).len()
                ==> #[trigger] update_requests(Some(buffer), None, update_mode)[i]
                != Request::Command(0x26),
{
}

/// A refresh without any plane sets the mode and refreshes the panel, and
/// nothing else.
pub proof fn update_requests_without_planes(update_mode: DisplayUpdateMode)
    ensures
        update_requests(None, None, update_mode) == seq![
            Request::Command(0x22),
            Request::Data(seq![update_mode.spec_bits()]),
            Request::Command(0x20),
            Request::BusyWait,
        ],
{
}

/// `plan` holds the steps of an initialization of a panel of the given size,
/// each at its place.
spec fn init_layout(plan: Seq<Request>, dimensions: Dimensions) -> bool {
    &&& plan.len() == 23
    &&& plan.subrange(0, 2) =~= auto_write_ram_black_and_white_requests(RAM_FILL_PATTERN)
    &&& plan.subrange(2, 4) =~= auto_write_ram_red_requests(RAM_FILL_PATTERN)
    &&& plan.subrange(4, 8) =~= driver_output_control_from_width_requests(dimensions.rows)
    &&& plan.subrange(8, 10) =~= data_entry_mode_requests(
        DataEntryMode::IncrementXIncrementY,
        IncrementAxis::Horizontal,
    )
    &&& plan.subrange(10, 14) =~= ram_address_based_on_size_requests(
        dimensions.rows,
        dimensions.cols,
    )
    &&& plan.subrange(14, 16) =~= border_waveform_control_requests(
        WaveformVDBOption::Transition,
        VDBFixedLevelSetting::VSS,
        VDBGSTransitionSetting::LUT1,
    )
    &&& plan.subrange(16, 18) =~= temperature_sensor_requests(TemperatureSensor::Internal)
    &&& plan.subrange(18, 20) =~= update_display_option2_requests(LOAD_WAVEFORM_OPTION)
    &&& plan.subrange(20, 22) =~= refresh_display_requests()
    &&& plan[22] == Request::BusyWait
}

/// Where each step of an initialization lies among its requests.
proof fn lemma_init_layout(dimensions: Dimensions)
    ensures
        init_layout(init_requests(dimensions), dimensions),
{
}

/// Number of requests that write one plane of a refresh.
spec fn plane_requests_len(buffer: Option<Seq<u8>>) -> int {
    if buffer is Some {
        6
    } else {
        0
    }
}

/// `plan` holds the steps of a refresh, each at its place.
spec fn update_layout(
    plan: Seq<Request>,
    bw_buffer: Option<Seq<u8>>,
    red_buffer: Option<Seq<u8>>,
    update_mode: DisplayUpdateMode,
) -> bool {
    let bw = plane_requests_len(bw_buffer);
    let red = plane_requests_len(red_buffer);
    &&& plan.len() == bw + red + 4
    &&& bw_buffer matches Some(data) ==> {
        &&& plan.subrange(0, 2) =~= ram_x_count_requests(0)
        &&& plan.subrange(2, 4) =~= ram_y_count_requests(0)
        &&& plan.subrange(4, 6) =~= write_ram_black_and_white_requests(data)
    }
    &&& red_buffer matches Some(data) ==> {
        &&& plan.subrange(bw, bw + 2) =~= ram_x_count_requests(0)
        &&& plan.subrange(bw + 2, bw + 4) =~= ram_y_count_requests(0)
        &&& plan.subrange(bw + 4, bw + 6) =~= write_ram_red_requests(data)
    }
    &&& plan.subrange(bw + red, bw + red + 2) =~= update_display_option2_requests(
        update_mode.spec_bits(),
    )
    &&& plan.subrange(bw + red + 2, bw + red + 4) =~= refresh_display_requests()
}

/// Where each step of a refresh lies among its requests.
proof fn lemma_update_layout(
    bw_buffer: Option<Seq<u8>>,
    red_buffer: Option<Seq<u8>>,
    update_mode: DisplayUpdateMode,
)
    ensures
        update_layout(
            update_requests(bw_buffer, red_buffer, update_mode),
            bw_buffer,
            red_buffer,
            update_mode,
        ),
{
}

/// A controller behind a transport, with the configuration of its panel.
pub struct BasicDisplay<I: DisplayInterface> {
    interface: Recorded<I>,
    config: Config,
    initialized: bool,
}

impl<I: DisplayInterface> BasicDisplay<I> {
    /// Every request handed to the transport of this display so far with its
    /// outcome, oldest first.
    pub closed spec fn history(&self) -> Seq<Attempt> {
        self.interface.history()
    }

    /// The configuration of the panel.
    pub closed spec fn spec_config(&self) -> Config {
        self.config
    }

    /// The initialization sequence has run to its end, and no request has
    /// failed since.
    pub closed spec fn spec_is_initialized(&self) -> bool {
        self.initialized
    }

    /// The transport itself.
    pub closed spec fn spec_interface(&self) -> I {
        self.interface.spec_interface()
    }

    /// Native dimensions of the panel.
    pub open spec fn dimensions(&self) -> Dimensions {
        self.spec_config().spec_dimensions()
    }

    /// A display that has not been reset yet.
    pub fn new(interface: I, config: Config) -> (display: Self)
        ensures
            display.spec_config() == config,
            display.spec_interface() == interface,
            display.history() == Seq::<Attempt>::empty(),
            !display.spec_is_initialized(),
    {
        BasicDisplay { interface: Recorded::new(interface), config, initialized: false }
    }

    /// Resets the controller and initializes it. This wakes a controller from
    /// deep sleep and is the way back from any failure.
    ///
    /// Sends [`reset_requests`]; stops at the first request that fails and
    /// returns its error.
    pub fn reset(&mut self) -> (r: Result<(), I::Error>)
        requires
            old(self).dimensions().rows >= 1,
            old(self).dimensions().cols >= 1,
        ensures
            final(self).spec_config() == old(self).spec_config(),
            carried_out(
                r,
                old(self).history(),
                final(self).history(),
                reset_requests(old(self).dimensions()),
            ),
            final(self).spec_is_initialized() <==> r is Ok,
    {
        self.initialized = false;
        self.interface.reset_hardware();
        self.interface.reset_software()?;
        self.interface.busy_wait();
        self.init()
    }

    /// Initializes the controller: fills both RAM planes, sets the number of
    /// gate lines, the data entry mode, the RAM window, the border waveform
    /// and the temperature sensor, loads the waveform table, refreshes once
    /// and waits.
    ///
    /// Sends [`init_requests`]; stops at the first request that fails and
    /// returns its error.
    pub fn init(&mut self) -> (r: Result<(), I::Error>)
        requires
            old(self).dimensions().rows >= 1,
            old(self).dimensions().cols >= 1,
        ensures
            final(self).spec_config() == old(self).spec_config(),
            carried_out(
                r,
                old(self).history(),
                final(self).history(),
                init_requests(old(self).dimensions()),
            ),
            final(self).spec_is_initialized() <==> r is Ok,
    {
        self.initialized = false;
        let dimensions = self.config.dimensions();
        let ghost start = self.interface.history();
        let ghost plan = init_requests(dimensions);
        let ghost mut seen = start;
        proof {
            lemma_init_layout(dimensions);
            assert(plan.take(0) =~= Seq::<Request>::empty());
        }

        let r = self.interface.auto_write_ram_black_and_white_regular_pattern(RAM_FILL_PATTERN);
        proof {
            let part = auto_write_ram_black_and_white_requests(RAM_FILL_PATTERN);
            carried_out_in_parts(r, start, seen, self.interface.history(), plan, 0, part);
            seen = self.interface.history();
        }
        r?;

        let r = self.interface.auto_write_ram_red_regular_pattern(RAM_FILL_PATTERN);
        proof {
            let part = auto_write_ram_red_requests(RAM_FILL_PATTERN);
            carried_out_in_parts(r, start, seen, self.interface.history(), plan, 2, part);
            seen = self.interface.history();
        }
        r?;

        let r = self.interface.set_driver_output_control_from_width(dimensions.rows);
        proof {
            let part = driver_output_control_from_width_requests(dimensions.rows);
            carried_out_in_parts(r, start, seen, self.interface.history(), plan, 4, part);
            seen = self.interface.history();
        }
        r?;

        let r = self.interface.set_data_entry_mode(
            DataEntryMode::IncrementXIncrementY,
            IncrementAxis::Horizontal,
        );
        proof {
            let part = data_entry_mode_requests(
                DataEntryMode::IncrementXIncrementY,
                IncrementAxis::Horizontal,
            );
            carried_out_in_parts(r, start, seen, self.interface.history(), plan, 8, part);
            seen = self.interface.history();
        }
        r?;

        let r = self.interface.set_ram_address_based_on_size(dimensions.rows, dimensions.cols);
        proof {
            let part = ram_address_based_on_size_requests(dimensions.rows, dimensions.cols);
            carried_out_in_parts(r, start, seen, self.interface.history(), plan, 10, part);
            seen = self.interface.history();
        }
        r?;

        let r = self.interface.set_border_waveform_control(
            WaveformVDBOption::Transition,
            VDBFixedLevelSetting::VSS,
            VDBGSTransitionSetting::LUT1,
        );
        proof {
            let part = border_waveform_control_requests(
                WaveformVDBOption::Transition,
                VDBFixedLevelSetting::VSS,
                VDBGSTransitionSetting::LUT1,
            );
            carried_out_in_parts(r, start, seen, self.interface.history(), plan, 14, part);
            seen = self.interface.history();
        }
        r?;

        let r = self.interface.set_temperature_sensor(TemperatureSensor::Internal);
        proof {
            let part = temperature_sensor_requests(TemperatureSensor::Internal);
            carried_out_in_parts(r, start, seen, self.interface.history(), plan, 16, part);
            seen = self.interface.history();
        }
        r?;

        let r = self.interface.update_display_option2(LOAD_WAVEFORM_OPTION);
        proof {
            let part = update_display_option2_requests(LOAD_WAVEFORM_OPTION);
            carried_out_in_parts(r, start, seen, self.interface.history(), plan, 18, part);
            seen = self.interface.history();
        }
        r?;

        let r = self.interface.refresh_display();
        proof {
            let part = refresh_display_requests();
            carried_out_in_parts(r, start, seen, self.interface.history(), plan, 20, part);
            seen = self.interface.history();
        }
        r?;

        self.interface.busy_wait();
        proof {
            assert(self.interface.history() =~= start + attempts(plan, 23, false));
        }
        self.initialized = true;
        Ok(())
    }

    /// Writes the given planes to the controller's RAM and refreshes the
    /// panel with the waveform of `update_mode`. A plane that is not given
    /// keeps its content; with no plane at all the panel is only refreshed.
    ///
    /// Sends [`update_requests`]; stops at the first request that fails and
    /// returns its error.
    pub fn update(
        &mut self,
        bw_buffer: Option<&[u8]>,
        red_buffer: Option<&[u8]>,
        update_mode: DisplayUpdateMode,
    ) -> (r: Result<(), I::Error>)
        requires
            old(self).spec_is_initialized(),
        ensures
            final(self).spec_config() == old(self).spec_config(),
            carried_out(
                r,
                old(self).history(),
                final(self).history(),
                update_requests(plane_view(bw_buffer), plane_view(red_buffer), update_mode),
            ),
            final(self).spec_is_initialized() <==> r is Ok,
    {
        self.initialized = false;
        let ghost start = self.interface.history();
        let ghost plan = update_requests(
            plane_view(bw_buffer),
            plane_view(red_buffer),
            update_mode,
        );
        let ghost mut seen = start;
        let ghost mut done: int = 0;
        proof {
            lemma_update_layout(plane_view(bw_buffer), plane_view(red_buffer), update_mode);
            assert(plan.take(0) =~= Seq::<Request>::empty());
        }

        if let Some(buffer) = bw_buffer {
            let r = self.interface.set_ram_x_count(0);
            proof {
                let part = ram_x_count_requests(0);
                carried_out_in_parts(r, start, seen, self.interface.history(), plan, 0, part);
                seen = self.interface.history();
            }
            r?;

            let r = self.interface.set_ram_y_count(0);
            proof {
                let part = ram_y_count_requests(0);
                carried_out_in_parts(r, start, seen, self.interface.history(), plan, 2, part);
                seen = self.interface.history();
            }
            r?;

            let r = self.interface.write_ram_black_and_white(buffer);
            proof {
                let part = write_ram_black_and_white_requests(buffer@);
                carried_out_in_parts(r, start, seen, self.interface.history(), plan, 4, part);
                seen = self.interface.history();
                done = 6;
            }
            r?;
        }
        if let Some(buffer) = red_buffer {
            let r = self.interface.set_ram_x_count(0);
            proof {
                let part = ram_x_count_requests(0);
                carried_out_in_parts(r, start, seen, self.interface.history(), plan, done, part);
                seen = self.interface.history();
            }
            r?;

            let r = self.interface.set_ram_y_count(0);
            proof {
                let part = ram_y_count_requests(0);
                carried_out_in_parts(
                    r,
                    start,
                    seen,
                    self.interface.history(),
                    plan,
                    done + 2,
                    part,
                );
                seen = self.interface.history();
            }
            r?;

            let r = self.interface.write_ram_red(buffer);
            proof {
                let part = write_ram_red_requests(buffer@);
                carried_out_in_parts(
                    r,
                    start,
                    seen,
                    self.interface.history(),
                    plan,
                    done + 4,
                    part,
                );
                seen = self.interface.history();
                done = done + 6;
            }
            r?;
        }
        let r = self.interface.update_display_option2(update_mode.bits());
        proof {
            let part = update_display_option2_requests(update_mode.spec_bits());
            carried_out_in_parts(r, start, seen, self.interface.history(), plan, done, part);
            seen = self.interface.history();
        }
        r?;

        let r = self.interface.refresh_display();
        proof {
            let part = refresh_display_requests();
            carried_out_in_parts(r, start, seen, self.interface.history(), plan, done + 2, part);
            assert(plan.take(done + 4) =~= plan);
        }
        r?;

        self.initialized = true;
        Ok(())
    }

    /// Whether the controller is initialized, so that [`BasicDisplay::update`]
    /// may be called.
    #[verifier::when_used_as_spec(spec_is_initialized)]
    pub fn is_initialized(&self) -> (initialized: bool)
        ensures
            initialized == self.spec_is_initialized(),
    {
        self.initialized
    }

    /// The configuration of the panel.
    pub fn config(&self) -> (config: &Config)
        ensures
            *config == self.spec_config(),
    {
        &self.config
    }

    /// The transport itself.
    pub fn interface(&self) -> (interface: &I)
        ensures
            *interface == self.spec_interface(),
    {
        self.interface.interface()
    }

    /// Gives the transport back.
    pub fn release(self) -> (interface: I)
        ensures
            interface == self.spec_interface(),
    {
        self.interface.release()
    }

    /// Number of rows of the panel.
    pub fn rows(&self) -> (rows: u16)
        ensures
            rows == self.dimensions().rows,
    {
        self.config.dimensions().rows
    }

    /// Number of columns of the panel.
    pub fn cols(&self) -> (cols: u16)
        ensures
            cols == self.dimensions().cols,
    {
        self.config.dimensions().cols
    }

    /// Rotation of the logical image.
    pub fn rotation(&self) -> (rotation: Rotation)
        ensures
            rotation == self.spec_config().spec_rotation(),
    {
        self.config.rotation()
    }
}

} // verus!
