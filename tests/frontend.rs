use chippy_frontend::audio::{choose_buffer_size, configure_output, produce_sample, BufferSize};
use chippy_frontend::display::{next_action, Display, KeyEdge, KeyPoll, LoopAction, LoopEvent, SurfaceSize};
use chippy_frontend::keymap::{press_key, release_key, KeyOverrideSet, Keymap};
use chippy_frontend::fake_core::FakeCore;
use chippy_frontend::rom::ROM;
use chippy_frontend::{Core, SyncModes};

const KEY_X: u32 = 88;

fn keymap_of_four() -> Keymap {
    Keymap::new(&[10, 20, 30, KEY_X])
}

fn no_input(n: usize) -> Vec<KeyPoll> {
    vec![KeyPoll { just_pressed: false, held: false }; n]
}

#[test]
fn audio_locked_runs_instructions_until_a_sample() {
    let mut core = FakeCore::new(64, 32, 10);
    let r = produce_sample(&mut core, SyncModes::AudioCallback);
    assert_eq!(r, Some(0));
    assert_eq!(core.instructions_run(), 10);
    assert_eq!(core.get_sample_queue_length(), 0);
}

#[test]
fn audio_locked_takes_waiting_sample_without_instructions() {
    let mut core = FakeCore::new(64, 32, 10);
    core.run_frame();
    core.run_frame();
    core.run_frame();
    let r = produce_sample(&mut core, SyncModes::AudioCallback);
    assert_eq!(r, Some(0));
    assert_eq!(core.instructions_run(), 0);
    assert_eq!(core.get_sample_queue_length(), 2);
}

#[test]
fn frame_locked_drains_and_is_silent() {
    let mut core = FakeCore::new(64, 32, 10);
    for _ in 0..5 {
        core.run_frame();
    }
    assert_eq!(core.get_sample_queue_length(), 5);
    let r = produce_sample(&mut core, SyncModes::VSync);
    assert_eq!(r, None);
    assert_eq!(core.get_sample_queue_length(), 0);
    assert_eq!(core.instructions_run(), 0);
    let r = produce_sample(&mut core, SyncModes::VSync);
    assert_eq!(r, None);
}

#[test]
fn one_second_of_audio_at_44100_hz() {
    let mut core = FakeCore::new(64, 32, 10);
    configure_output(&mut core, 44100, 1);
    for k in 0..44100u32 {
        assert_eq!(produce_sample(&mut core, SyncModes::AudioCallback), Some(k));
    }
    assert_eq!(core.instructions_run(), 441000);
}

#[test]
fn vsync_runs_one_frame_per_tick() {
    let mut core = FakeCore::new(64, 32, 10);
    let display = Display::new(&core, keymap_of_four(), SyncModes::VSync);
    let overrides = KeyOverrideSet::new();
    for _ in 0..60 {
        display.apply_input(&mut core, &overrides, &no_input(4));
        assert_eq!(produce_sample(&mut core, SyncModes::VSync), None);
    }
    assert_eq!(core.frames_run(), 60);
    assert_eq!(core.instructions_run(), 0);
    assert_eq!(core.get_sample_queue_length(), 0);
}

#[test]
fn audio_callback_mode_runs_no_frame_on_input() {
    let mut core = FakeCore::new(64, 32, 10);
    let display = Display::new(&core, keymap_of_four(), SyncModes::AudioCallback);
    display.apply_input(&mut core, &KeyOverrideSet::new(), &no_input(4));
    assert_eq!(core.frames_run(), 0);
}

#[test]
fn forced_key_is_pressed_then_released() {
    let mut core = FakeCore::new(64, 32, 10);
    let display = Display::new(&core, keymap_of_four(), SyncModes::AudioCallback);
    let mut overrides = KeyOverrideSet::new();
    press_key(&mut overrides, KEY_X);
    let edges = display.apply_input(&mut core, &overrides, &no_input(4));
    assert!(core.get_key_pressed(3));
    assert_eq!(edges, vec![KeyEdge::Pressed(3)]);
    release_key(&mut overrides, KEY_X);
    let edges = display.apply_input(&mut core, &overrides, &no_input(4));
    assert!(!core.get_key_pressed(3));
    assert_eq!(edges, vec![KeyEdge::Released(3)]);
}

#[test]
fn forced_key_wins_over_polling() {
    let mut core = FakeCore::new(64, 32, 10);
    let display = Display::new(&core, keymap_of_four(), SyncModes::AudioCallback);
    let mut overrides = KeyOverrideSet::new();
    press_key(&mut overrides, 20);
    let polls = vec![
        KeyPoll { just_pressed: true, held: false },
        KeyPoll { just_pressed: false, held: false },
        KeyPoll { just_pressed: false, held: true },
        KeyPoll { just_pressed: false, held: false },
    ];
    let edges = display.apply_input(&mut core, &overrides, &polls);
    let states: Vec<bool> = (0..4).map(|i| core.get_key_pressed(i)).collect();
    assert_eq!(states, vec![true, true, true, false]);
    assert_eq!(edges, vec![KeyEdge::Pressed(0), KeyEdge::Pressed(1), KeyEdge::Pressed(2)]);
    for _ in 0..3 {
        display.apply_input(&mut core, &overrides, &no_input(4));
        assert!(core.get_key_pressed(1));
    }
}

#[test]
fn steady_keys_give_no_edges() {
    let mut core = FakeCore::new(64, 32, 10);
    let display = Display::new(&core, keymap_of_four(), SyncModes::AudioCallback);
    let overrides = KeyOverrideSet::new();
    let held = vec![KeyPoll { just_pressed: false, held: true }; 4];
    let edges = display.apply_input(&mut core, &overrides, &held);
    assert_eq!(edges.len(), 4);
    let edges = display.apply_input(&mut core, &overrides, &held);
    assert!(edges.is_empty());
    let edges = display.apply_input(&mut core, &overrides, &no_input(4));
    assert_eq!(
        edges,
        vec![KeyEdge::Released(0), KeyEdge::Released(1), KeyEdge::Released(2), KeyEdge::Released(3)]
    );
    let edges = display.apply_input(&mut core, &overrides, &no_input(4));
    assert!(edges.is_empty());
}

#[test]
fn override_set_is_a_set() {
    let mut overrides = KeyOverrideSet::new();
    assert!(!overrides.contains(KEY_X));
    press_key(&mut overrides, KEY_X);
    press_key(&mut overrides, KEY_X);
    press_key(&mut overrides, 7);
    assert!(overrides.contains(KEY_X));
    release_key(&mut overrides, KEY_X);
    assert!(!overrides.contains(KEY_X));
    assert!(overrides.contains(7));
    release_key(&mut overrides, 99);
    assert!(overrides.contains(7));
}

#[test]
fn buffer_size_is_at_least_512() {
    assert_eq!(choose_buffer_size(Some(256)), BufferSize::Fixed(512));
    assert_eq!(choose_buffer_size(Some(512)), BufferSize::Fixed(512));
    assert_eq!(choose_buffer_size(Some(2048)), BufferSize::Fixed(2048));
    assert_eq!(choose_buffer_size(None), BufferSize::Default);
}

#[test]
fn loop_decisions() {
    assert_eq!(next_action(LoopEvent::RedrawRequested), LoopAction::Render);
    assert_eq!(next_action(LoopEvent::Presented { ok: true }), LoopAction::Wait);
    assert_eq!(next_action(LoopEvent::Presented { ok: false }), LoopAction::Exit);
    let size = SurfaceSize { width: 640, height: 320 };
    assert_eq!(
        next_action(LoopEvent::InputBatch { close_requested: true, exit_key_pressed: false, resized: Some(size) }),
        LoopAction::Exit
    );
    assert_eq!(
        next_action(LoopEvent::InputBatch { close_requested: false, exit_key_pressed: true, resized: None }),
        LoopAction::Exit
    );
    assert_eq!(
        next_action(LoopEvent::InputBatch { close_requested: false, exit_key_pressed: false, resized: Some(size) }),
        LoopAction::ResizeSurface(size)
    );
    assert_eq!(
        next_action(LoopEvent::InputBatch { close_requested: false, exit_key_pressed: false, resized: None }),
        LoopAction::ApplyInput
    );
    assert_eq!(next_action(LoopEvent::SurfaceResized { ok: true }), LoopAction::ApplyInput);
    assert_eq!(next_action(LoopEvent::SurfaceResized { ok: false }), LoopAction::Exit);
}

#[test]
fn keymap_keeps_order() {
    let keymap = keymap_of_four();
    assert_eq!(keymap.get_keys(), vec![10, 20, 30, KEY_X]);
    assert_eq!(keymap.length(), 4);
    assert_eq!(keymap.at(3), KEY_X);
    let decoded = Keymap::from_js(vec![Some(5), None, Some(6)]);
    assert_eq!(decoded.get_keys(), vec![5, 6]);
}

#[test]
fn rom_holds_bytes() {
    let rom = ROM::new(vec![0x12, 0x00, 0xa2]);
    assert_eq!(rom.get_rom(), vec![0x12, 0x00, 0xa2]);
    let decoded = ROM::from_js(vec![None, Some(0xff), None, Some(0x01)]);
    assert_eq!(decoded.get_rom(), vec![0xff, 0x01]);
}

#[test]
fn output_is_configured() {
    let mut core = FakeCore::new(64, 32, 10);
    configure_output(&mut core, 48000, 2);
    assert_eq!(core.sample_rate(), 48000);
    assert_eq!(core.channels(), 2);
}

#[test]
fn display_takes_core_size() {
    let core = FakeCore::new(64, 32, 10);
    let display = Display::new(&core, keymap_of_four(), SyncModes::default());
    assert_eq!(display.width, 64);
    assert_eq!(display.height, 32);
    assert_eq!(display.sync_mode, SyncModes::AudioCallback);
}

#[test]
fn audio_locked_sample_numbers_follow_the_queue() {
    let mut core = FakeCore::new(64, 32, 3);
    core.run_frame();
    assert_eq!(produce_sample(&mut core, SyncModes::AudioCallback), Some(0));
    assert_eq!(core.instructions_run(), 0);
    assert_eq!(produce_sample(&mut core, SyncModes::AudioCallback), Some(1));
    assert_eq!(core.instructions_run(), 3);
    assert_eq!(core.get_sample_queue_length(), 0);
}

#[test]
fn key_beyond_the_known_ones_can_be_pressed() {
    let mut core = FakeCore::new(64, 32, 10);
    assert!(!core.get_key_pressed(20));
    core.press_key(20);
    assert!(core.get_key_pressed(20));
    assert!(!core.get_key_pressed(19));
    core.release_key(20);
    assert!(!core.get_key_pressed(20));
}
