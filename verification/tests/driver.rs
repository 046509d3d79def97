use epd4in2_v2::{
    new_binary_buffer, new_gray2_buffer, Action, BorderWaveform, BufferView, Command,
    DisplaySimple, Epd4In2V2, PinState, Point, Rectangle, RefreshMode, Size, StateReady, Step,
};

/// What the hardware was asked to do.
#[derive(Debug, Clone, PartialEq)]
enum Log {
    Reset(PinState),
    Delay(u32),
    Send(u8, Vec<u8>),
}

fn log(action: &Action) -> Log {
    match action {
        Action::SetReset(level) => Log::Reset(*level),
        Action::DelayMs(ms) => Log::Delay(*ms),
        Action::Send(command, payload) => {
            Log::Send(command.register(), payload.as_slice().to_vec())
        }
    }
}

/// Performs an operation; the action with the number `failing` fails.
fn perform<T>(step: Step<T>, failing: Option<usize>) -> (Vec<Log>, Result<T, String>) {
    let mut logs = Vec::new();
    let mut step = step;
    loop {
        match step {
            Step::Finished(outcome) => return (logs, Ok(outcome)),
            Step::Perform(action, waiting) => {
                let result = if failing == Some(logs.len()) {
                    Err(format!("action {} failed", logs.len()))
                } else {
                    Ok(())
                };
                logs.push(log(&action));
                match waiting.resume(result) {
                    Ok(next) => step = next,
                    Err(error) => return (logs, Err(error)),
                }
            }
        }
    }
}

fn complete<T>(step: Step<T>) -> (Vec<Log>, T) {
    let (logs, result) = perform(step, None);
    (logs, result.unwrap())
}

fn send(register: u8, data: &[u8]) -> Log {
    Log::Send(register, data.to_vec())
}

fn ready(mode: RefreshMode) -> Epd4In2V2<u8, StateReady> {
    complete(Epd4In2V2::new(1u8).init(mode)).1
}

fn change_mode(epd: &mut Epd4In2V2<u8, StateReady>, mode: RefreshMode) -> Vec<Log> {
    let (logs, state) = complete(epd.set_refresh_mode(mode));
    epd.settle(state);
    logs
}

fn reset_pulse() -> Vec<Log> {
    vec![
        Log::Reset(PinState::High),
        Log::Delay(100),
        Log::Reset(PinState::Low),
        Log::Delay(2),
        Log::Reset(PinState::High),
        Log::Delay(100),
    ]
}

fn whole_window() -> Vec<Log> {
    vec![
        send(0x11, &[0b11]),
        send(0x44, &[0x00, 0x31]),
        send(0x45, &[0x00, 0x00, 0x2B, 0x01]),
        send(0x4E, &[0x00]),
        send(0x4F, &[0x00, 0x00]),
    ]
}

fn joined(parts: &[Vec<Log>]) -> Vec<Log> {
    parts.concat()
}

fn full(border: u8) -> Vec<Log> {
    let start = vec![send(0x12, &[]), send(0x21, &[0x40, 0x00]), send(0x3C, &[border])];
    joined(&[start, whole_window()])
}

fn partial(border: u8) -> Vec<Log> {
    let start = vec![send(0x12, &[]), send(0x3C, &[border]), send(0x21, &[0x00, 0x00])];
    joined(&[start, whole_window()])
}

fn fast(border: u8) -> Vec<Log> {
    let start = vec![
        send(0x12, &[]),
        send(0x21, &[0x40, 0x00]),
        send(0x3C, &[border]),
        send(0x1A, &[0x6E]),
        send(0x22, &[0x91]),
        send(0x20, &[]),
    ];
    joined(&[start, whole_window()])
}

fn area(x: i32, y: i32, width: u32, height: u32) -> Rectangle {
    Rectangle { top_left: Point { x, y }, size: Size { width, height } }
}

fn part(window: Rectangle, bytes: &[u8]) -> BufferView<'_, 1, 1> {
    BufferView { window, data: [bytes] }
}

#[test]
fn init_resets_and_configures_full() {
    let (logs, epd) = complete(Epd4In2V2::new(1u8).init(RefreshMode::Full));
    assert_eq!(logs, joined(&[reset_pulse(), full(0x05)]));
    assert_eq!(complete(epd.update_display()).0, vec![send(0x22, &[0xF7]), send(0x20, &[])]);
}

#[test]
fn init_configures_fast() {
    let (logs, _) = complete(Epd4In2V2::new(1u8).init(RefreshMode::Fast));
    assert_eq!(logs, joined(&[reset_pulse(), fast(0x05)]));
}

#[test]
fn init_configures_partial() {
    let (logs, _) = complete(Epd4In2V2::new(1u8).init(RefreshMode::Partial));
    assert_eq!(logs, joined(&[reset_pulse(), partial(0x80)]));
}

#[test]
fn init_configures_gray2() {
    let (logs, _) = complete(Epd4In2V2::new(1u8).init(RefreshMode::Gray2));
    assert_eq!(logs.len(), 6 + 9 + 5);
    assert_eq!(logs[6..10], [
        send(0x12, &[]),
        send(0x21, &[0x00, 0x00]),
        send(0x3C, &[0x03]),
        send(0x0C, &[0x8B, 0x9C, 0xA4, 0x0F]),
    ]);
    match &logs[10] {
        Log::Send(register, lut) => {
            assert_eq!(*register, 0x32);
            assert_eq!(lut.len(), 227);
            assert_eq!(lut[..8], [0x01, 0x0A, 0x1B, 0x0F, 0x03, 0x01, 0x01, 0x05]);
            assert_eq!(lut[224..], [0x02, 0x00, 0x00]);
        }
        other => panic!("{:?}", other),
    }
    assert_eq!(logs[11..15], [
        send(0x3F, &[0x07]),
        send(0x03, &[0x17]),
        send(0x04, &[0x41, 0xA8, 0x32]),
        send(0x2C, &[0x30]),
    ]);
    assert_eq!(logs[15..].to_vec(), whole_window());
}

#[test]
fn gray2_table_is_sent_whole() {
    let (logs, _) = complete(Epd4In2V2::new(1u8).init(RefreshMode::Gray2));
    let mut table = Vec::new();
    for entry in &logs[10..15] {
        if let Log::Send(_, bytes) = entry {
            table.extend_from_slice(bytes);
        }
    }
    assert_eq!(table, epd4in2_v2::script::LUT_GRAY2.to_vec());
}

#[test]
fn init_again_from_ready() {
    let (logs, epd) = complete(ready(RefreshMode::Full).init(RefreshMode::Partial));
    assert_eq!(logs, joined(&[reset_pulse(), partial(0x80)]));
    assert_eq!(complete(epd.update_display()).0[0], send(0x22, &[0xFF]));
}

#[test]
fn mode_change_to_the_same_mode_sends_nothing() {
    for mode in [RefreshMode::Fast, RefreshMode::Full, RefreshMode::Partial, RefreshMode::Gray2] {
        let epd = ready(mode);
        assert!(matches!(epd.set_refresh_mode(mode), Step::Finished(_)));
    }
}

#[test]
fn mode_change_takes_effect_when_it_is_complete() {
    let mut epd = ready(RefreshMode::Fast);
    assert_eq!(complete(epd.update_display()).0[0], send(0x22, &[0xC7]));
    assert_eq!(change_mode(&mut epd, RefreshMode::Full), full(0x05));
    assert_eq!(complete(epd.update_display()).0[0], send(0x22, &[0xF7]));
}

#[test]
fn mode_change_that_fails_keeps_the_old_mode() {
    let epd = ready(RefreshMode::Fast);
    let expected = partial(0x80);
    for failing in 0..expected.len() {
        let (logs, result) = perform(epd.set_refresh_mode(RefreshMode::Partial), Some(failing));
        assert_eq!(logs, expected[..failing + 1].to_vec());
        assert_eq!(result.unwrap_err(), format!("action {} failed", failing));
    }
    assert_eq!(complete(epd.update_display()).0[0], send(0x22, &[0xC7]));
}

#[test]
fn init_stops_at_the_first_error() {
    let expected = joined(&[reset_pulse(), full(0x05)]);
    for failing in 0..expected.len() {
        let step = Epd4In2V2::new(1u8).init(RefreshMode::Full);
        let (logs, result) = perform(step, Some(failing));
        assert_eq!(logs, expected[..failing + 1].to_vec());
        assert!(result.is_err());
    }
}

#[test]
fn border_override_is_applied_and_kept() {
    let mut epd = ready(RefreshMode::Partial);
    assert_eq!(
        complete(epd.set_border_waveform(BorderWaveform::Black)).0,
        vec![send(0x3C, &[0x50])]
    );
    assert_eq!(change_mode(&mut epd, RefreshMode::Full), full(0x50));
    assert_eq!(
        complete(epd.set_border_waveform(BorderWaveform::White)).0,
        vec![send(0x3C, &[0x60])]
    );
    assert_eq!(change_mode(&mut epd, RefreshMode::Fast), fast(0x60));
    assert_eq!(
        complete(epd.set_border_waveform(BorderWaveform::Default)).0,
        vec![send(0x3C, &[0x05])]
    );
    assert_eq!(change_mode(&mut epd, RefreshMode::Partial), partial(0x80));
}

#[test]
fn border_override_outlives_a_failed_command() {
    let mut epd = ready(RefreshMode::Full);
    let (_, result) = perform(epd.set_border_waveform(BorderWaveform::White), Some(0));
    assert!(result.is_err());
    assert_eq!(change_mode(&mut epd, RefreshMode::Partial), partial(0x60));
}

#[test]
fn sleep_and_wake_restore_the_configuration() {
    let mut epd = ready(RefreshMode::Partial);
    complete(epd.set_border_waveform(BorderWaveform::Black));
    let (logs, asleep) = complete(epd.sleep());
    assert_eq!(logs, vec![send(0x10, &[0x01])]);
    let (logs, epd) = complete(asleep.wake());
    assert_eq!(logs, joined(&[reset_pulse(), partial(0x50)]));
    assert_eq!(complete(epd.update_display()).0[0], send(0x22, &[0xFF]));
}

#[test]
fn wake_without_a_mode_only_resets() {
    let (logs, asleep) = complete(Epd4In2V2::new(1u8).sleep());
    assert_eq!(logs, vec![send(0x10, &[0x01])]);
    let (logs, epd) = complete(asleep.wake());
    assert_eq!(logs, reset_pulse());
    assert_eq!(complete(epd.init(RefreshMode::Full)).0, joined(&[reset_pulse(), full(0x05)]));
}

#[test]
fn reset_keeps_the_state() {
    let (logs, epd) = complete(ready(RefreshMode::Gray2).reset());
    assert_eq!(logs, reset_pulse());
    assert_eq!(complete(epd.update_display()).0[0], send(0x22, &[0xCF]));
    let (_, asleep) = complete(epd.sleep());
    let (logs, epd) = complete(asleep.reset());
    assert_eq!(logs, reset_pulse());
    assert_eq!(complete(epd.update_display()).0[0], send(0x22, &[0xCF]));
}

#[test]
fn hardware_travels_with_the_driver() {
    let mut epd = Epd4In2V2::new(41u8);
    *epd.hw_mut() += 1;
    let mut step = epd.init(RefreshMode::Full);
    let mut epd = loop {
        match step {
            Step::Finished(epd) => break epd,
            Step::Perform(_, mut waiting) => {
                *waiting.hw_mut() += 1;
                step = waiting.resume::<()>(Ok(())).unwrap();
            }
        }
    };
    assert_eq!(*epd.hw_mut(), 42 + 14);
}

#[test]
fn send_passes_the_data_on() {
    let epd = Epd4In2V2::new(1u8);
    let (logs, ()) = complete(epd.send(Command::WriteVcom, &[1, 2, 3]));
    assert_eq!(logs, vec![send(0x2C, &[1, 2, 3])]);
}

#[test]
fn window_of_the_whole_display() {
    let epd = ready(RefreshMode::Full);
    let (logs, ()) = complete(epd.set_window(area(0, 0, 400, 300)));
    assert_eq!(logs, whole_window()[1..3].to_vec());
    let (logs, ()) = complete(epd.set_cursor(Point { x: 0, y: 0 }));
    assert_eq!(logs, whole_window()[3..].to_vec());
}

#[test]
fn window_of_a_part() {
    let epd = ready(RefreshMode::Full);
    let (logs, ()) = complete(epd.set_window(area(16, 257, 32, 10)));
    assert_eq!(logs, vec![send(0x44, &[2, 5]), send(0x45, &[0x01, 0x01, 0x0A, 0x01])]);
    let (logs, ()) = complete(epd.set_cursor(Point { x: 16, y: 257 }));
    assert_eq!(logs, vec![send(0x4E, &[2]), send(0x4F, &[0x01, 0x01])]);
}

#[test]
fn window_takes_whole_groups_of_columns() {
    let epd = ready(RefreshMode::Full);
    let (first_32, ()) = complete(epd.set_window(area(0, 0, 32, 1)));
    let (first_25, ()) = complete(epd.set_window(area(0, 0, 25, 1)));
    assert_eq!(first_32[0], send(0x44, &[0, 3]));
    assert_eq!(first_32, first_25);
}

#[test]
fn window_outside_the_display_wraps() {
    let epd = ready(RefreshMode::Full);
    let (logs, ()) = complete(epd.set_window(area(-8, -1, 8, 1)));
    assert_eq!(logs, vec![send(0x44, &[0xFF, 0xFF]), send(0x45, &[0xFF, 0xFF, 0xFF, 0xFF])]);
    let (logs, ()) = complete(epd.set_window(area(i32::MAX, i32::MAX, 2, u32::MAX)));
    assert_eq!(logs, vec![send(0x44, &[0xFF, 0x00]), send(0x45, &[0xFF, 0xFF, 0xFD, 0xFF])]);
    let (logs, ()) = complete(epd.set_cursor(Point { x: -9, y: 65536 + 3 }));
    assert_eq!(logs, vec![send(0x4E, &[0xFE]), send(0x4F, &[0x03, 0x00])]);
}

#[test]
fn alignment() {
    assert!(area(0, 0, 400, 300).is_byte_aligned());
    assert!(area(-8, 0, 16, 300).is_byte_aligned());
    assert!(!area(-8, 0, 8, 300).is_byte_aligned());
    assert!(area(8, 5, 24, 1).is_byte_aligned());
    assert!(!area(8, 5, 20, 1).is_byte_aligned());
    assert!(!area(4, 0, 8, 1).is_byte_aligned());
    assert!(!area(4, 0, 4, 1).is_byte_aligned());
    assert!(!area(0, 0, 25, 1).is_byte_aligned());
    assert!(!area(0, 0, 0, 1).is_byte_aligned());
    assert!(!area(2147483640, 0, 8, 1).is_byte_aligned());
    assert!(!area(0, i32::MAX, 8, 1).is_byte_aligned());
    assert!(Point { x: -16, y: 3 }.is_byte_aligned());
    assert!(!Point { x: -15, y: 3 }.is_byte_aligned());
}

#[test]
fn framebuffer_goes_to_both_planes_unless_partial() {
    let part = part(area(8, 2, 8, 2), &[0xAA, 0x55]);
    let address = vec![
        send(0x44, &[1, 1]),
        send(0x45, &[2, 0, 3, 0]),
        send(0x4E, &[1]),
        send(0x4F, &[2, 0]),
    ];
    for mode in [RefreshMode::Fast, RefreshMode::Full, RefreshMode::Gray2] {
        let (logs, ()) = complete(ready(mode).write_framebuffer(part));
        let planes = vec![send(0x24, &[0xAA, 0x55]), send(0x26, &[0xAA, 0x55])];
        assert_eq!(logs, joined(&[address.clone(), planes]));
    }
    let epd = ready(RefreshMode::Partial);
    let (logs, ()) = complete(epd.write_framebuffer(part));
    assert_eq!(logs, joined(&[address.clone(), vec![send(0x24, &[0xAA, 0x55])]]));
    let (logs, ()) = complete(epd.write_base_framebuffer(part));
    assert_eq!(logs, joined(&[address, vec![send(0x26, &[0xAA, 0x55])]]));
}

#[test]
fn display_framebuffer_writes_and_updates() {
    let buffer = new_binary_buffer();
    let epd = ready(RefreshMode::Fast);
    let (written, ()) = complete(epd.write_framebuffer(buffer.as_view()));
    let (updated, ()) = complete(epd.update_display());
    let (shown, ()) = complete(epd.display_framebuffer(buffer.as_view()));
    assert_eq!(shown, joined(&[written, updated]));
    assert_eq!(shown[4], send(0x24, &[0; 15000]));
    assert_eq!(shown[5], send(0x26, &[0; 15000]));
}

#[test]
fn partial_update_then_base_leaves_both_planes_alike() {
    let part = part(area(0, 0, 8, 1), &[0x0F]);
    let epd = ready(RefreshMode::Partial);
    let (shown, ()) = complete(epd.display_framebuffer(part));
    let (base, ()) = complete(epd.write_base_framebuffer(part));
    let logs = joined(&[shown, base]);
    let last = |register: u8| {
        logs.iter().rev().find_map(|entry| match entry {
            Log::Send(sent, data) if *sent == register => Some(data.clone()),
            _ => None,
        })
    };
    assert_eq!(last(0x24), Some(vec![0x0F]));
    assert_eq!(last(0x26), Some(vec![0x0F]));
}

#[test]
fn gray_framebuffer_splits_into_planes() {
    let mut buffer = new_gray2_buffer();
    buffer.set_pixel(Point { x: 0, y: 0 }, 1);
    buffer.set_pixel(Point { x: 1, y: 0 }, 2);
    buffer.set_pixel(Point { x: 2, y: 0 }, 3);
    let epd = ready(RefreshMode::Gray2);
    let (written, ()) = complete(epd.write_framebuffer(buffer.as_view()));
    let (shown, ()) = complete(epd.display_framebuffer(buffer.as_view()));
    assert_eq!(written.len(), 6);
    assert_eq!(written[..4], whole_window()[1..]);
    match (&written[4], &written[5]) {
        (Log::Send(0x24, low), Log::Send(0x26, high)) => {
            assert_eq!((low.len(), high.len()), (15000, 15000));
            assert_eq!((low[0], high[0]), (0xA0, 0x60));
        }
        other => panic!("{:?}", other),
    }
    let update = vec![send(0x22, &[0xCF]), send(0x20, &[])];
    assert_eq!(shown, joined(&[written, update]));
}

/// The data last sent with each command since the last reset.
fn settings(logs: &[Log]) -> std::collections::BTreeMap<u8, Vec<u8>> {
    let mut settings: std::collections::BTreeMap<u8, Vec<u8>> = Default::default();
    for entry in logs {
        match entry {
            Log::Reset(PinState::Low) | Log::Send(0x10, _) => settings.clear(),
            // A software reset leaves the framebuffers alone.
            Log::Send(0x12, _) => settings.retain(|register, _| [0x24, 0x26].contains(register)),
            Log::Send(register, data) => {
                settings.insert(*register, data.clone());
            }
            _ => {}
        }
    }
    settings
}

#[test]
fn settings_stay_in_step_with_the_driver() {
    let buffer = new_binary_buffer();
    let (mut logs, mut epd) = complete(Epd4In2V2::new(1u8).init(RefreshMode::Gray2));
    logs.extend(change_mode(&mut epd, RefreshMode::Fast));
    assert_eq!(settings(&logs), settings(&fast(0x05)));
    logs.extend(complete(epd.set_border_waveform(BorderWaveform::White)).0);
    assert_eq!(settings(&logs), settings(&fast(0x60)));
    logs.extend(complete(epd.display_framebuffer(buffer.as_view())).0);
    assert_eq!(settings(&logs)[&0x21], [0x40, 0x00]);
    assert_eq!(settings(&logs)[&0x3C], [0x60]);
    assert_eq!(settings(&logs)[&0x1A], [0x6E]);
    let (sent, asleep) = complete(epd.sleep());
    logs.extend(sent);
    assert!(settings(&logs).is_empty());
    logs.extend(complete(asleep.wake()).0);
    assert_eq!(settings(&logs), settings(&fast(0x60)));
}

#[test]
fn activation_follows_its_setting() {
    for mode in [RefreshMode::Fast, RefreshMode::Full, RefreshMode::Partial, RefreshMode::Gray2] {
        let (mut logs, epd) = complete(Epd4In2V2::new(1u8).init(mode));
        logs.extend(complete(epd.update_display()).0);
        logs.extend(complete(epd.display_framebuffer(part(area(0, 0, 8, 1), &[0x3C]))).0);
        let (sent, asleep) = complete(epd.sleep());
        logs.extend(sent);
        let (sent, mut epd) = complete(asleep.wake());
        logs.extend(sent);
        for new_mode in [RefreshMode::Full, RefreshMode::Fast, RefreshMode::Gray2] {
            logs.extend(change_mode(&mut epd, new_mode));
        }
        assert!(logs.iter().any(|entry| matches!(entry, Log::Send(0x20, _))));
        for (i, entry) in logs.iter().enumerate() {
            if matches!(entry, Log::Send(0x20, _)) {
                assert!(matches!(logs[i - 1], Log::Send(0x22, _)));
            }
        }
    }
}

#[test]
fn fast_refresh_leaves_the_base_ready_for_partial_updates() {
    let image = part(area(0, 0, 8, 1), &[0x3C]);
    let mut epd = ready(RefreshMode::Fast);
    let (mut logs, ()) = complete(epd.display_framebuffer(image));
    logs.extend(change_mode(&mut epd, RefreshMode::Partial));
    assert_eq!(settings(&logs)[&0x24], [0x3C]);
    assert_eq!(settings(&logs)[&0x26], [0x3C]);
    let next = part(area(0, 0, 8, 1), &[0xC3]);
    logs.extend(complete(epd.display_framebuffer(next)).0);
    assert_eq!(settings(&logs)[&0x24], [0xC3]);
    assert_eq!(settings(&logs)[&0x26], [0x3C]);
}
