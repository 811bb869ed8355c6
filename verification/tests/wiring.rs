use ssd1677::error::SSD1677Error;
use ssd1677::interface::{
    busy_wait_steps, reset_steps, send_command_steps, send_data_steps, still_busy, WireStep,
    MAX_TRANSFER_LEN,
};

fn writes_of(steps: &[WireStep]) -> Vec<(usize, usize)> {
    let mut writes = Vec::new();
    for step in steps {
        if let WireStep::Write { start, end } = step {
            writes.push((*start, *end));
        }
    }
    writes
}

#[test]
fn a_command_selects_command_mode_writes_one_byte_and_waits() {
    assert_eq!(
        send_command_steps(),
        vec![
            WireStep::SelectData { high: false },
            WireStep::Write { start: 0, end: 1 },
            WireStep::AwaitIdle,
        ]
    );
}

#[test]
fn short_data_goes_out_in_one_transfer() {
    assert_eq!(
        send_data_steps(5),
        vec![
            WireStep::SelectData { high: true },
            WireStep::Write { start: 0, end: 5 },
            WireStep::AwaitIdle,
        ]
    );
    assert_eq!(writes_of(&send_data_steps(1)), vec![(0, 1)]);
    assert_eq!(writes_of(&send_data_steps(4095)), vec![(0, 4095)]);
    assert_eq!(writes_of(&send_data_steps(4096)), vec![(0, 4096)]);
}

#[test]
fn empty_data_needs_no_transfer() {
    assert_eq!(
        send_data_steps(0),
        vec![WireStep::SelectData { high: true }, WireStep::AwaitIdle]
    );
}

#[test]
fn long_data_is_cut_into_transfers_of_4096_bytes() {
    assert_eq!(MAX_TRANSFER_LEN, 4096);
    assert_eq!(writes_of(&send_data_steps(4097)), vec![(0, 4096), (4096, 4097)]);
    assert_eq!(
        writes_of(&send_data_steps(8192)),
        vec![(0, 4096), (4096, 8192)]
    );
    assert_eq!(
        send_data_steps(10000),
        vec![
            WireStep::SelectData { high: true },
            WireStep::Write { start: 0, end: 4096 },
            WireStep::Write { start: 4096, end: 8192 },
            WireStep::Write { start: 8192, end: 10000 },
            WireStep::AwaitIdle,
        ]
    );
}

#[test]
fn the_transfers_of_a_framebuffer_tile_it() {
    let steps = send_data_steps(48000);
    let writes = writes_of(&steps);
    assert_eq!(writes.len(), 12);
    assert_eq!(steps.len(), 14);
    let mut next = 0;
    for (start, end) in writes {
        assert_eq!(start, next);
        assert!(end > start);
        assert!(end - start <= MAX_TRANSFER_LEN);
        next = end;
    }
    assert_eq!(next, 48000);
}

#[test]
fn a_reset_pulls_the_line_low_then_high_and_waits_after_each_edge() {
    assert_eq!(
        reset_steps(10),
        vec![
            WireStep::ResetLine { high: false },
            WireStep::Delay { ms: 10 },
            WireStep::ResetLine { high: true },
            WireStep::Delay { ms: 10 },
        ]
    );
    assert_eq!(reset_steps(0)[1], WireStep::Delay { ms: 0 });
    assert_eq!(reset_steps(255)[3], WireStep::Delay { ms: 255 });
}

#[test]
fn a_wait_only_polls_the_busy_line() {
    assert_eq!(busy_wait_steps(), vec![WireStep::AwaitIdle]);
}

#[test]
fn the_controller_is_busy_while_the_line_reads_high() {
    assert!(still_busy::<()>(&Ok(true)));
    assert!(!still_busy::<()>(&Ok(false)));
}

#[test]
fn a_failed_reading_of_the_busy_line_counts_as_idle() {
    assert!(!still_busy(&Err::<bool, u8>(3)));
    assert!(!still_busy(&Err::<bool, SSD1677Error>(SSD1677Error::SetPinError)));
}
