use retro_relay::audio_relay::AudioHandler;
use retro_relay::audio_relay::AudioRelay;
use retro_relay::frame_relay::FrameRelay;
use retro_relay::input_map::apply_event;
use retro_relay::input_map::apply_hat;
use retro_relay::input_map::sdl_to_snes;
use retro_relay::input_map::HatState;
use retro_relay::input_map::HostEvent;
use retro_relay::input_table::get_input_state;
use retro_relay::input_table::InputTable;

fn drain_all(relay: &mut AudioRelay) -> Vec<i16> {
    let n = relay.len();
    let mut out = vec![0i16; n];
    let written = relay.pull(&mut out, n);
    assert_eq!(written, n);
    out
}

#[test]
fn audio_fifo_across_interleaved_pushes_and_pulls() {
    let mut relay = AudioRelay::new();
    let first = vec![1i16, 2, 3, 4];
    let second = vec![5i16, 6];
    assert_eq!(relay.push(Some(&first), 2), 2);

    let mut out = vec![0i16; 3];
    assert_eq!(relay.pull(&mut out, 3), 3);
    assert_eq!(out, vec![1, 2, 3]);

    assert_eq!(relay.push(Some(&second), 1), 1);
    let mut rest = vec![0i16; 3];
    assert_eq!(relay.pull(&mut rest, 3), 3);
    assert_eq!(rest, vec![4, 5, 6]);
    assert_eq!(relay.len(), 0);
}

#[test]
fn audio_underflow_returns_only_what_is_queued() {
    let mut relay = AudioRelay::new();
    let samples = vec![10i16, -20];
    assert_eq!(relay.push(Some(&samples), 1), 1);

    let mut out = vec![99i16; 5];
    let written = relay.pull(&mut out, 5);
    assert_eq!(written, 2);
    assert_eq!(out[0], 10);
    assert_eq!(out[1], -20);
    // The unfilled tail is untouched; the caller treats it as silence.
    assert_eq!(&out[2..], &[99, 99, 99]);
    assert_eq!(relay.len(), 0);
}

#[test]
fn audio_push_without_buffer_is_a_no_op() {
    let mut relay = AudioRelay::new();
    assert_eq!(relay.push(None, 7), 0);
    assert_eq!(relay.len(), 0);
}

#[test]
fn audio_handler_fills_the_device_buffer_from_the_head() {
    let mut relay = AudioRelay::new();
    let samples = vec![3i16, 1, 4, 1];
    relay.push(Some(&samples), 2);
    let mut handler = AudioHandler::new(relay);

    let mut device_buffer = vec![0i16; 2];
    assert_eq!(handler.callback(&mut device_buffer), 2);
    assert_eq!(device_buffer, vec![3, 1]);

    let mut next_buffer = vec![7i16; 4];
    assert_eq!(handler.callback(&mut next_buffer), 2);
    assert_eq!(&next_buffer[..2], &[4, 1]);
    assert_eq!(&next_buffer[2..], &[7, 7]);
}

#[test]
fn frame_consume_before_any_publish_is_empty() {
    let relay = FrameRelay::new();
    assert!(relay.consume().is_none());
}

#[test]
fn frame_fidelity_after_publish() {
    let mut relay = FrameRelay::new();
    let buffer: Vec<u8> = (0..64).map(|b| b as u8).collect();
    relay.publish(&buffer, 4, 4, 16);

    let snapshot = relay.consume().expect("a frame was published");
    assert_eq!(snapshot.data, buffer);
    assert_eq!(snapshot.width, 4);
    assert_eq!(snapshot.height, 4);
    assert_eq!(snapshot.stride, 16);
}

#[test]
fn frame_snapshot_is_isolated_from_later_publishes() {
    let mut relay = FrameRelay::new();
    let first: Vec<u8> = vec![1, 2, 3, 4];
    relay.publish(&first, 2, 1, 4);
    let held = relay.consume().expect("a frame was published");

    let second: Vec<u8> = vec![9, 9];
    relay.publish(&second, 1, 1, 2);

    assert_eq!(held.data, vec![1, 2, 3, 4]);
    assert_eq!(held.width, 2);
    assert_eq!(held.stride, 4);

    let current = relay.consume().expect("a frame was published");
    assert_eq!(current.data, vec![9, 9]);
    assert_eq!(current.width, 1);
}

#[test]
fn frame_refresh_without_buffer_keeps_the_previous_frame() {
    let mut relay = FrameRelay::new();
    let buffer: Vec<u8> = vec![8, 7];
    relay.publish(&buffer, 1, 1, 2);
    relay.on_video_refresh(None, 5, 5, 5);

    let snapshot = relay.consume().expect("a frame was published");
    assert_eq!(snapshot.data, vec![8, 7]);
    assert_eq!(snapshot.width, 1);
}

#[test]
fn input_table_defaults_and_updates() {
    let mut table = InputTable::new();
    assert_eq!(table.get(0, 1, 0, 4), 0);
    assert_eq!(get_input_state(&table, 3, 2, 1, 0), 0);

    table.set(0, 1, 0, 4, 1);
    assert_eq!(table.get(0, 1, 0, 4), 1);
    // Setting one key never changes another key's value.
    assert_eq!(table.get(0, 1, 0, 5), 0);
    assert_eq!(table.get(1, 1, 0, 4), 0);

    table.set(0, 1, 0, 4, 0);
    assert_eq!(table.get(0, 1, 0, 4), 0);

    table.set(0, 1, 0, 9, -5);
    assert_eq!(get_input_state(&table, 0, 1, 0, 9), -5);
}

#[test]
fn button_index_maps_to_logical_id() {
    assert_eq!(sdl_to_snes(0), 0); // B
    assert_eq!(sdl_to_snes(1), 8); // A
    assert_eq!(sdl_to_snes(2), 1); // Y
    assert_eq!(sdl_to_snes(3), 9); // X
    assert_eq!(sdl_to_snes(4), 10); // L
    assert_eq!(sdl_to_snes(5), 11); // R
    assert_eq!(sdl_to_snes(6), 2); // SELECT
    assert_eq!(sdl_to_snes(7), 3); // START
    // Out-of-range indices pass through as their own id.
    assert_eq!(sdl_to_snes(8), 8);
    assert_eq!(sdl_to_snes(200), 200);
}

fn direction_levels(table: &InputTable) -> (i16, i16, i16, i16) {
    (
        table.get(0, 1, 0, 4),
        table.get(0, 1, 0, 5),
        table.get(0, 1, 0, 6),
        table.get(0, 1, 0, 7),
    )
}

#[test]
fn hat_centered_clears_all_four_directions() {
    let mut table = InputTable::new();
    apply_hat(&mut table, HatState::RightUp);
    apply_hat(&mut table, HatState::Centered);
    assert_eq!(direction_levels(&table), (0, 0, 0, 0));
}

#[test]
fn hat_up_sets_only_up() {
    let mut table = InputTable::new();
    apply_hat(&mut table, HatState::Up);
    assert_eq!(direction_levels(&table), (1, 0, 0, 0));
}

#[test]
fn hat_right_up_sets_up_and_right() {
    let mut table = InputTable::new();
    apply_hat(&mut table, HatState::RightUp);
    assert_eq!(direction_levels(&table), (1, 0, 0, 1));
}

#[test]
fn hat_events_overwrite_the_whole_batch() {
    let mut table = InputTable::new();
    apply_hat(&mut table, HatState::LeftDown);
    assert_eq!(direction_levels(&table), (0, 1, 1, 0));
    apply_hat(&mut table, HatState::Right);
    assert_eq!(direction_levels(&table), (0, 0, 0, 1));
    apply_hat(&mut table, HatState::Down);
    assert_eq!(direction_levels(&table), (0, 1, 0, 0));
    apply_hat(&mut table, HatState::Left);
    assert_eq!(direction_levels(&table), (0, 0, 1, 0));
}

#[test]
fn events_write_button_edges_into_the_table() {
    let mut table = InputTable::new();
    apply_event(&mut table, &HostEvent::ButtonDown { button_idx: 1 });
    assert_eq!(table.get(0, 1, 0, 8), 1); // A pressed
    apply_event(&mut table, &HostEvent::ButtonUp { button_idx: 1 });
    assert_eq!(table.get(0, 1, 0, 8), 0); // A released
    apply_event(&mut table, &HostEvent::HatMotion { state: HatState::Up });
    assert_eq!(table.get(0, 1, 0, 4), 1);
    apply_event(&mut table, &HostEvent::Other);
    assert_eq!(table.get(0, 1, 0, 4), 1);
}
