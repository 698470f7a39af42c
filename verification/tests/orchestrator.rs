use retro_relay::audio_relay::AudioRelay;
use retro_relay::frame_relay::FrameRelay;
use retro_relay::input_map::HostEvent;
use retro_relay::input_table::InputTable;
use retro_relay::orchestrator::handle_environment;
use retro_relay::orchestrator::EngineCall;
use retro_relay::orchestrator::Orchestrator;
use retro_relay::orchestrator::Phase;
use retro_relay::orchestrator::ShutdownStep;
use retro_relay::orchestrator::TickOutcome;

#[test]
fn startup_enters_running_even_without_a_loaded_asset() {
    let mut orch = Orchestrator::new();
    assert_eq!(orch.phase, Phase::Idle);
    orch.start(false);
    assert_eq!(orch.phase, Phase::Running);
}

#[test]
fn one_tick_relays_the_frame_and_the_audio_batch() {
    let mut orch = Orchestrator::new();
    orch.start(true);
    let mut table = InputTable::new();
    let mut frame = FrameRelay::new();
    let mut audio = AudioRelay::new();

    let pixels: Vec<u8> = (0..64).map(|b| b as u8).collect();
    let samples: Vec<i16> = (0..20).map(|s| s as i16).collect();
    let calls = vec![
        EngineCall::VideoRefresh { data: Some(pixels.clone()), width: 4, height: 4, pitch: 16 },
        EngineCall::AudioSampleBatch { samples: Some(samples.clone()), frames: 10 },
    ];

    let outcome = orch.tick(&mut table, &mut frame, &mut audio, &vec![], &calls);
    assert_eq!(outcome, TickOutcome::Continue);
    assert_eq!(orch.phase, Phase::Running);

    let snapshot = frame.consume().expect("the step published a frame");
    assert_eq!(snapshot.width, 4);
    assert_eq!(snapshot.height, 4);
    assert_eq!(snapshot.stride, 16);
    assert_eq!(snapshot.data, pixels);

    assert_eq!(audio.len(), 20);
    let mut out = vec![0i16; 20];
    assert_eq!(audio.pull(&mut out, 20), 20);
    assert_eq!(out, samples);
}

#[test]
fn engine_callbacks_other_than_video_and_batch_change_nothing() {
    let mut orch = Orchestrator::new();
    orch.start(true);
    let mut table = InputTable::new();
    let mut frame = FrameRelay::new();
    let mut audio = AudioRelay::new();

    let calls = vec![
        EngineCall::AudioSample { left: 1, right: -1 },
        EngineCall::InputPoll,
        EngineCall::Environment { command: 10 },
        EngineCall::VideoRefresh { data: None, width: 4, height: 4, pitch: 16 },
        EngineCall::AudioSampleBatch { samples: None, frames: 10 },
    ];
    let outcome = orch.tick(&mut table, &mut frame, &mut audio, &vec![], &calls);
    assert_eq!(outcome, TickOutcome::Continue);
    assert!(frame.consume().is_none());
    assert_eq!(audio.len(), 0);
}

#[test]
fn quit_stops_pumping_and_runs_shutdown_once() {
    let mut orch = Orchestrator::new();
    orch.start(true);
    let mut table = InputTable::new();
    let mut frame = FrameRelay::new();
    let mut audio = AudioRelay::new();

    let events = vec![
        HostEvent::ButtonDown { button_idx: 0 },
        HostEvent::Quit,
        HostEvent::ButtonDown { button_idx: 1 },
    ];
    let samples = vec![1i16, 2];
    let calls = vec![EngineCall::AudioSampleBatch { samples: Some(samples), frames: 1 }];

    let outcome = orch.tick(&mut table, &mut frame, &mut audio, &events, &calls);
    assert_eq!(outcome, TickOutcome::Shutdown);
    assert_eq!(orch.phase, Phase::ShuttingDown);

    // Events before the quit were applied; events after it were not, and the
    // engine was not stepped.
    assert_eq!(table.get(0, 1, 0, 0), 1); // B, from the first event
    assert_eq!(table.get(0, 1, 0, 8), 0); // A, after the quit: never applied
    assert_eq!(audio.len(), 0);
    assert!(frame.consume().is_none());

    let steps = orch.shutdown();
    assert_eq!(steps, vec![ShutdownStep::UnloadAsset, ShutdownStep::DeinitEngine]);
    assert_eq!(orch.phase, Phase::Terminated);
}

#[test]
fn environment_recognizes_no_command() {
    assert!(!handle_environment(0));
    assert!(!handle_environment(10)); // pixel-format negotiation included
    assert!(!handle_environment(u32::MAX));
}
