//! The state machine that drives the engine one step per tick.
//!
//! Phases run Idle → Running → ShuttingDown → Terminated. Each Running tick
//! pumps host events into the input table (a quit request ends pumping and
//! asks for shutdown), lets the engine step once — during which it may invoke
//! the video, audio and input callbacks any number of times, including zero —
//! and then renders the latest frame snapshot. Shutdown unloads the asset and
//! deinitializes the engine, exactly once each, in that order; no tick runs
//! after that.

use vstd::prelude::*;
use crate::audio_relay::AudioRelay;
use crate::frame_relay::FrameRelay;
use crate::frame_relay::SnapshotModel;
use crate::input_map::HostEvent;
use crate::input_map::apply_event;
use crate::input_map::event_applied;
use crate::input_table::InputTable;

verus! {

/// Lifecycle phase of the frontend.
#[derive(Clone, Copy, PartialEq, Eq, Structural, Debug)]
pub enum Phase {
    Idle,
    Running,
    ShuttingDown,
    Terminated,
}

/// What one tick asks the host loop to do next: keep ticking, or run the
/// shutdown sequence and exit.
#[derive(Clone, Copy, PartialEq, Eq, Structural, Debug)]
pub enum TickOutcome {
    Continue,
    Shutdown,
}

/// One action of the shutdown sequence, in the order the host must perform
/// them against the engine.
#[derive(Clone, Copy, PartialEq, Eq, Structural, Debug)]
pub enum ShutdownStep {
    UnloadAsset,
    DeinitEngine,
}

/// One callback invocation the engine makes during a step, with its payload
/// already marshaled into owned values. An absent buffer stands for an
/// invalid reference handed to the callback, a recoverable no-op.
pub enum EngineCall {
    VideoRefresh { data: Option<Vec<u8>>, width: u32, height: u32, pitch: usize },
    AudioSampleBatch { samples: Option<Vec<i16>>, frames: usize },
    AudioSample { left: i16, right: i16 },
    InputPoll,
    Environment { command: u32 },
}

/// A callback payload covers what its dimensions claim: a video buffer holds
/// exactly `pitch` bytes per row, an audio batch exactly two samples per
/// frame.
pub open spec fn call_sized(call: EngineCall) -> bool {
    match call {
        EngineCall::VideoRefresh { data, width: _, height, pitch } => data matches Some(d)
            ==> d@.len() == (pitch as int) * (height as int),
        EngineCall::AudioSampleBatch { samples, frames } => samples matches Some(s)
            ==> s@.len() == 2 * frames,
        _ => true,
    }
}

/// The frame slot and audio queue after one engine callback: a video refresh
/// replaces the frame snapshot, an audio batch appends at the queue's tail,
/// and every other callback — the single-sample handler, the input poll, an
/// environment query — changes neither.
pub open spec fn call_applied(
    frame: Option<SnapshotModel>,
    audio: Seq<i16>,
    call: EngineCall,
) -> (Option<SnapshotModel>, Seq<i16>) {
    match call {
        EngineCall::VideoRefresh { data, width, height, pitch } => match data {
            Some(d) => (
                Some(SnapshotModel { data: d@, width, height, stride: pitch }),
                audio,
            ),
            None => (frame, audio),
        },
        EngineCall::AudioSampleBatch { samples, frames: _ } => match samples {
            Some(s) => (frame, audio + s@),
            None => (frame, audio),
        },
        _ => (frame, audio),
    }
}

/// The frame slot and audio queue after a whole step's callbacks, in order.
pub open spec fn calls_applied(
    frame: Option<SnapshotModel>,
    audio: Seq<i16>,
    calls: Seq<EngineCall>,
) -> (Option<SnapshotModel>, Seq<i16>)
    decreases calls.len(),
{
    if calls.len() == 0 {
        (frame, audio)
    } else {
        let once = call_applied(frame, audio, calls[0]);
        calls_applied(once.0, once.1, calls.drop_first())
    }
}

/// The input table and quit flag after pumping host events in order: events
/// are applied until the first quit request; the quit request itself and
/// everything after it change no level, and the flag reports whether a quit
/// was seen.
pub open spec fn pump_outcome(
    levels: Map<(u32, u32, u32, u32), i16>,
    events: Seq<HostEvent>,
) -> (Map<(u32, u32, u32, u32), i16>, bool)
    decreases events.len(),
{
    if events.len() == 0 {
        (levels, false)
    } else if events[0] is Quit {
        (levels, true)
    } else {
        pump_outcome(event_applied(levels, events[0]), events.drop_first())
    }
}

/// Apply one engine callback to the relays it writes.
pub fn apply_engine_call(frame: &mut FrameRelay, audio: &mut AudioRelay, call: &EngineCall)
    requires
        call_sized(*call),
    ensures
        final(frame)@ == call_applied(old(frame)@, old(audio)@, *call).0,
        final(audio)@ == call_applied(old(frame)@, old(audio)@, *call).1,
{
    match call {
        EngineCall::VideoRefresh { data, width, height, pitch } => {
            frame.on_video_refresh(data.as_ref(), *width, *height, *pitch);
        },
        EngineCall::AudioSampleBatch { samples, frames } => {
            let _accepted: usize = audio.push(samples.as_ref(), *frames);
        },
        EngineCall::AudioSample { left: _, right: _ } => (),
        EngineCall::InputPoll => (),
        EngineCall::Environment { command: _ } => (),
    }
}

/// The environment query handler: no command is recognized, so every query
/// returns false and has no side effect.
pub fn handle_environment(command: u32) -> (recognized: bool)
    ensures
        !recognized,
{
    match command {
        _ => false,
    }
}

/// The orchestration state machine.
pub struct Orchestrator {
    /// Current lifecycle phase.
    pub phase: Phase,
}

impl Orchestrator {
    /// A fresh frontend, not yet started.
    pub fn new() -> (orch: Orchestrator)
        ensures
            orch.phase == Phase::Idle,
    {
        Orchestrator { phase: Phase::Idle }
    }

    /// Enter the Running phase once the host has initialized the engine,
    /// registered the callbacks, attempted the asset load and opened the
    /// output device. A failed asset load is degraded-but-continuing: the
    /// engine is stepped regardless, so Running is entered either way.
    /// (A failed device or surface acquisition is fatal and must abort
    /// before this is called.)
    pub fn start(&mut self, asset_loaded: bool)
        requires
            old(self).phase == Phase::Idle,
        ensures
            final(self).phase == Phase::Running,
    {
        let _ = asset_loaded;
        self.phase = Phase::Running;
    }

    /// Pump one tick's host events into the input table, in order, stopping
    /// at the first quit request. Reports whether a quit was seen; if so, the
    /// orchestrator is ShuttingDown and no further events were applied.
    pub fn pump_events(
        &mut self,
        table: &mut InputTable,
        events: &Vec<HostEvent>,
    ) -> (quit: bool)
        requires
            old(self).phase == Phase::Running,
            old(table).wf(),
        ensures
            final(table).wf(),
            final(table)@ == pump_outcome(old(table)@, events@).0,
            quit == pump_outcome(old(table)@, events@).1,
            final(self).phase == if quit {
                Phase::ShuttingDown
            } else {
                Phase::Running
            },
    {
        let n = events.len();
        let mut i: usize = 0;
        proof {
            assert(events@.skip(0) =~= events@);
        }
        while i < n
            invariant
                i <= n,
                n == events@.len(),
                table.wf(),
                self.phase == Phase::Running,
                pump_outcome(old(table)@, events@) == pump_outcome(
                    table@,
                    events@.skip(i as int),
                ),
            decreases n - i,
        {
            proof {
                assert(events@.skip(i as int)[0] == events@[i as int]);
                assert(events@.skip(i as int).drop_first() =~= events@.skip(i + 1));
            }
            let event = &events[i];
            match event {
                HostEvent::Quit => {
                    self.phase = Phase::ShuttingDown;
                    return true;
                },
                _ => {
                    apply_event(table, event);
                },
            }
            i = i + 1;
        }
        proof {
            assert(events@.skip(n as int).len() == 0);
        }
        false
    }

    /// One tick of the Running loop: pump host events, and — unless a quit
    /// request was seen — let the engine step once, applying its callbacks to
    /// the relays in order. On a quit the engine is not stepped, the relays
    /// are untouched, and the host must run the shutdown sequence instead of
    /// ticking again; the host renders the latest frame snapshot after a
    /// Continue outcome.
    pub fn tick(
        &mut self,
        table: &mut InputTable,
        frame: &mut FrameRelay,
        audio: &mut AudioRelay,
        events: &Vec<HostEvent>,
        calls: &Vec<EngineCall>,
    ) -> (outcome: TickOutcome)
        requires
            old(self).phase == Phase::Running,
            old(table).wf(),
            forall|i: int| 0 <= i < calls@.len() ==> call_sized(calls@[i]),
        ensures
            final(table).wf(),
            final(table)@ == pump_outcome(old(table)@, events@).0,
            pump_outcome(old(table)@, events@).1 ==> outcome == TickOutcome::Shutdown
                && final(self).phase == Phase::ShuttingDown && final(frame)@ == old(frame)@
                && final(audio)@ == old(audio)@,
            !pump_outcome(old(table)@, events@).1 ==> outcome == TickOutcome::Continue
                && final(self).phase == Phase::Running && final(frame)@ == calls_applied(
                old(frame)@,
                old(audio)@,
                calls@,
            ).0 && final(audio)@ == calls_applied(old(frame)@, old(audio)@, calls@).1,
    {
        let quit = self.pump_events(table, events);
        if quit {
            return TickOutcome::Shutdown;
        }
        let n = calls.len();
        let mut i: usize = 0;
        proof {
            assert(calls@.skip(0) =~= calls@);
        }
        while i < n
            invariant
                i <= n,
                n == calls@.len(),
                forall|j: int| 0 <= j < calls@.len() ==> call_sized(calls@[j]),
                calls_applied(old(frame)@, old(audio)@, calls@) == calls_applied(
                    frame@,
                    audio@,
                    calls@.skip(i as int),
                ),
            decreases n - i,
        {
            proof {
                assert(calls@.skip(i as int)[0] == calls@[i as int]);
                assert(calls@.skip(i as int).drop_first() =~= calls@.skip(i + 1));
            }
            apply_engine_call(frame, audio, &calls[i]);
            i = i + 1;
        }
        proof {
            assert(calls@.skip(n as int).len() == 0);
        }
        TickOutcome::Continue
    }

    /// The shutdown sequence: exactly one asset unload followed by exactly
    /// one engine deinit. It runs from ShuttingDown only and leaves the
    /// orchestrator Terminated, where neither a tick nor a second shutdown
    /// can run; the host then exits with a success status.
    pub fn shutdown(&mut self) -> (steps: Vec<ShutdownStep>)
        requires
            old(self).phase == Phase::ShuttingDown,
        ensures
            final(self).phase == Phase::Terminated,
            steps@ == seq![ShutdownStep::UnloadAsset, ShutdownStep::DeinitEngine],
    {
        self.phase = Phase::Terminated;
        let mut steps: Vec<ShutdownStep> = Vec::new();
        steps.push(ShutdownStep::UnloadAsset);
        steps.push(ShutdownStep::DeinitEngine);
        proof {
            assert(steps@ =~= seq![ShutdownStep::UnloadAsset, ShutdownStep::DeinitEngine]);
        }
        steps
    }
}

/// Quit law: pumping reports a quit exactly when the tick's host events hold
/// a quit request. With `tick`'s contract this pins the shutdown behaviour:
/// a quit event observed during pumping gives the Shutdown outcome and the
/// ShuttingDown phase, from which `shutdown` — callable exactly once, since
/// it leaves the Terminated phase that no tick or shutdown accepts — performs
/// one asset unload followed by one engine deinit.
pub proof fn lemma_quit_detected(
    levels: Map<(u32, u32, u32, u32), i16>,
    events: Seq<HostEvent>,
)
    ensures
        pump_outcome(levels, events).1 <==> exists|i: int|
            0 <= i < events.len() && events[i] is Quit,
    decreases events.len(),
{
    if events.len() == 0 {
    } else if events[0] is Quit {
        assert(0 <= 0 < events.len() && events[0] is Quit);
    } else {
        lemma_quit_detected(event_applied(levels, events[0]), events.drop_first());
        if pump_outcome(levels, events).1 {
            let w = choose|i: int|
                0 <= i < events.drop_first().len() && events.drop_first()[i] is Quit;
            assert(events[w + 1] == events.drop_first()[w]);
            assert(0 <= w + 1 < events.len() && events[w + 1] is Quit);
        }
        if exists|i: int| 0 <= i < events.len() && events[i] is Quit {
            let w = choose|i: int| 0 <= i < events.len() && events[i] is Quit;
            assert(w >= 1);
            assert(events.drop_first()[w - 1] == events[w]);
            assert(0 <= w - 1 < events.drop_first().len() && events.drop_first()[w - 1] is Quit);
        }
    }
}

} // verus!
