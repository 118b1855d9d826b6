use vstd::prelude::*;
use crate::machine::gameboy::{CycleInfo, Gameboy, GameboyView, initial_gameboy, reports_step};
use crate::machine::bus::BusView;
use crate::machine::joypad::{JoypadState, JoypadView};

verus! {

/// Whether the emulation runs freely, is paused, has just been restarted, or runs a given
/// number of steps.
#[derive(Clone, Copy, Debug)]
pub enum CycleState {
    Unpaused,
    Paused,
    Restarted,
    Step(usize),
}

/// A request from the user interface.
#[derive(Clone, Copy, Debug)]
pub enum Command {
    Pause,
    Unpause,
    TogglePause,
    Restart,
    Step(usize),
    UpdateJoypad(JoypadState),
}

/// The state after a command: a step request starts stepping from a pause and adds to the steps
/// left while stepping, and is ignored otherwise.
pub open spec fn next_state(state: CycleState, command: Command) -> CycleState {
    match command {
        Command::Pause => CycleState::Paused,
        Command::Unpause => CycleState::Unpaused,
        Command::TogglePause => match state {
            CycleState::Paused => CycleState::Unpaused,
            _ => CycleState::Paused,
        },
        Command::Restart => CycleState::Restarted,
        Command::Step(s) => match state {
            CycleState::Paused => CycleState::Step(s),
            CycleState::Step(current) => CycleState::Step((current + s) as usize),
            _ => state,
        },
        Command::UpdateJoypad(_) => state,
    }
}

/// The console after a command: the joypad takes the new buttons, a restart resets the console
/// (keeping the cartridge and the boot ROM), and other commands leave it as it is.
pub open spec fn command_effect(gameboy: GameboyView, command: Command) -> GameboyView {
    match command {
        Command::UpdateJoypad(buttons) => GameboyView {
            bus: BusView { joypad: JoypadView { buttons, ..gameboy.bus.joypad }, ..gameboy.bus },
            ..gameboy
        },
        Command::Restart => GameboyView {
            bus: BusView {
                cartridge: gameboy.bus.cartridge,
                ..initial_gameboy(gameboy.bus.boot_rom).bus
            },
            ..initial_gameboy(gameboy.bus.boot_rom)
        },
        _ => gameboy,
    }
}

/// The step count cannot overflow.
pub open spec fn command_allowed(state: CycleState, command: Command) -> bool {
    match (state, command) {
        (CycleState::Step(current), Command::Step(s)) => current + s <= usize::MAX,
        _ => true,
    }
}

/// Applies a command to the console and returns the new state.
pub fn handle_command(gameboy: &mut Gameboy, state: CycleState, command: Command) -> (next: CycleState)
    requires
        old(gameboy)@.bus.inv(),
        command_allowed(state, command),
    ensures
        next == next_state(state, command),
        final(gameboy)@ == command_effect(old(gameboy)@, command),
        final(gameboy)@.bus.inv(),
{
    match command {
        Command::UpdateJoypad(joypad_state) => {
            gameboy.update_joypad_state(joypad_state);
            state
        },
        Command::Pause => CycleState::Paused,
        Command::Unpause => CycleState::Unpaused,
        Command::TogglePause => {
            if let CycleState::Paused = state {
                CycleState::Unpaused
            } else {
                CycleState::Paused
            }
        },
        Command::Restart => {
            gameboy.restart();
            CycleState::Restarted
        },
        Command::Step(s) => match state {
            CycleState::Paused => CycleState::Step(s),
            CycleState::Step(current_steps) => CycleState::Step(current_steps + s),
            _ => state,
        },
    }
}

/// The console and the frame flag after up to `remaining` steps: stepping stops when no steps
/// are left, or when a frame is ready that has not been rendered yet. A step taken while no
/// frame is ready clears the rendered flag first.
pub open spec fn run_steps_spec(gameboy: GameboyView, remaining: nat, frame_rendered: bool) -> (
    GameboyView,
    nat,
    bool,
)
    decreases remaining,
{
    if remaining > 0 && (!gameboy.frame_ready() || frame_rendered) {
        let rendered = if !gameboy.frame_ready() && frame_rendered { false } else { frame_rendered };
        run_steps_spec(gameboy.step(), (remaining - 1) as nat, rendered)
    } else {
        (gameboy, remaining, frame_rendered)
    }
}

/// The console from which the last step of such a run is taken, if the run takes one.
pub open spec fn last_step_from(gameboy: GameboyView, remaining: nat, frame_rendered: bool) -> Option<
    GameboyView,
>
    decreases remaining,
{
    if remaining > 0 && (!gameboy.frame_ready() || frame_rendered) {
        let rendered = if !gameboy.frame_ready() && frame_rendered { false } else { frame_rendered };
        match last_step_from(gameboy.step(), (remaining - 1) as nat, rendered) {
            Some(before) => Some(before),
            None => Some(gameboy),
        }
    } else {
        None
    }
}

/// The information of a run reports its last step, and there is information exactly when
/// there is a last step.
pub open spec fn reports_last_step(info: Option<CycleInfo>, last: Option<GameboyView>) -> bool {
    match (info, last) {
        (Some(info), Some(before)) => reports_step(info, before),
        (None, None) => true,
        _ => false,
    }
}

/// What a run of steps did: the steps left, the frame flag, and the information of the last
/// step taken, if any.
pub struct StepRun {
    pub remaining_steps: usize,
    pub frame_rendered: bool,
    pub cycle_info: Option<CycleInfo>,
}

/// Runs up to `remaining_steps` steps of the console, stopping at a frame that is ready and not
/// yet rendered.
pub fn run_steps(gameboy: &mut Gameboy, remaining_steps: usize, frame_rendered: bool) -> (run: StepRun)
    requires
        old(gameboy)@.bus.inv(),
    ensures
        ({
            let (after, remaining, rendered) = run_steps_spec(
                old(gameboy)@,
                remaining_steps as nat,
                frame_rendered,
            );
            &&& final(gameboy)@ == after
            &&& run.remaining_steps == remaining
            &&& run.frame_rendered == rendered
            &&& (run.cycle_info is Some <==> remaining < remaining_steps)
        }),
        reports_last_step(
            run.cycle_info,
            last_step_from(old(gameboy)@, remaining_steps as nat, frame_rendered),
        ),
        final(gameboy)@.bus.inv(),
{
    let mut remaining = remaining_steps;
    let mut rendered = frame_rendered;
    let mut cycle_info: Option<CycleInfo> = None;
    let ghost mut previous: Option<GameboyView> = None;

    while remaining > 0 && (!gameboy.frame_ready() || rendered)
        invariant
            gameboy@.bus.inv(),
            remaining <= remaining_steps,
            cycle_info is Some <==> remaining < remaining_steps,
            run_steps_spec(gameboy@, remaining as nat, rendered) == run_steps_spec(
                old(gameboy)@,
                remaining_steps as nat,
                frame_rendered,
            ),
            (match last_step_from(gameboy@, remaining as nat, rendered) {
                Some(before) => Some(before),
                None => previous,
            }) == last_step_from(old(gameboy)@, remaining_steps as nat, frame_rendered),
            cycle_info is Some <==> previous is Some,
            cycle_info matches Some(info) ==> reports_step(info, previous->0),
        decreases remaining,
    {
        let ghost before = gameboy@;
        if !gameboy.frame_ready() && rendered {
            rendered = false;
        }

        cycle_info = Some(gameboy.cycle());
        remaining -= 1;
        proof {
            previous = Some(before);
        }
    }

    StepRun { remaining_steps: remaining, frame_rendered: rendered, cycle_info }
}

/// What one pass of the main loop did: the new state and frame flag, the information of the last
/// step taken (the frame to show, when there is one), and whether the display must be reset
/// after a restart.
pub struct Advance {
    pub state: CycleState,
    pub frame_rendered: bool,
    pub cycle_info: Option<CycleInfo>,
    pub reinitialise: bool,
}

/// The state and frame flag after a run of steps, `run` being what `run_steps_spec` gives for
/// it: a frame that was stepped to is shown, so the flag is set then.
pub open spec fn after_run(run: (GameboyView, nat, bool), started: nat) -> (nat, bool) {
    let (_, remaining, rendered) = run;
    (remaining, if remaining < started { true } else { rendered })
}

/// One pass of the main loop in a given state. Running freely steps until a new frame is ready
/// (at most `usize::MAX` steps); stepping runs the steps left, and pauses once none are left; a
/// restart asks for the display to be reset and pauses; a pause does nothing.
pub fn run_cycle_state(gameboy: &mut Gameboy, state: CycleState, frame_rendered: bool) -> (advance: Advance)
    requires
        old(gameboy)@.bus.inv(),
    ensures
        final(gameboy)@.bus.inv(),
        match state {
            CycleState::Unpaused => {
                let run = run_steps_spec(old(gameboy)@, usize::MAX as nat, frame_rendered);
                &&& final(gameboy)@ == run.0
                &&& advance.state == CycleState::Unpaused
                &&& advance.frame_rendered == after_run(run, usize::MAX as nat).1
                &&& (advance.cycle_info is Some <==> run.1 < usize::MAX)
                &&& reports_last_step(
                    advance.cycle_info,
                    last_step_from(old(gameboy)@, usize::MAX as nat, frame_rendered),
                )
                &&& !advance.reinitialise
            },
            CycleState::Step(steps) => {
                let run = run_steps_spec(old(gameboy)@, steps as nat, frame_rendered);
                &&& final(gameboy)@ == run.0
                &&& advance.state == (if run.1 == 0 {
                    CycleState::Paused
                } else {
                    CycleState::Step(run.1 as usize)
                })
                &&& advance.frame_rendered == after_run(run, steps as nat).1
                &&& (advance.cycle_info is Some <==> run.1 < steps)
                &&& reports_last_step(
                    advance.cycle_info,
                    last_step_from(old(gameboy)@, steps as nat, frame_rendered),
                )
                &&& !advance.reinitialise
            },
            CycleState::Restarted => {
                &&& final(gameboy)@ == old(gameboy)@
                &&& advance.state == CycleState::Paused
                &&& advance.frame_rendered == frame_rendered
                &&& advance.cycle_info is None
                &&& advance.reinitialise
            },
            CycleState::Paused => {
                &&& final(gameboy)@ == old(gameboy)@
                &&& advance.state == CycleState::Paused
                &&& advance.frame_rendered == frame_rendered
                &&& advance.cycle_info is None
                &&& !advance.reinitialise
            },
        },
{
    match state {
        CycleState::Unpaused => {
            let run = run_steps(gameboy, usize::MAX, frame_rendered);
            let rendered = if run.cycle_info.is_some() { true } else { run.frame_rendered };
            Advance {
                state: CycleState::Unpaused,
                frame_rendered: rendered,
                cycle_info: run.cycle_info,
                reinitialise: false,
            }
        },
        CycleState::Restarted => Advance {
            state: CycleState::Paused,
            frame_rendered,
            cycle_info: None,
            reinitialise: true,
        },
        CycleState::Step(remaining_steps) => {
            let run = run_steps(gameboy, remaining_steps, frame_rendered);
            let rendered = if run.cycle_info.is_some() { true } else { run.frame_rendered };
            let next = if run.remaining_steps == 0 {
                CycleState::Paused
            } else {
                CycleState::Step(run.remaining_steps)
            };
            Advance { state: next, frame_rendered: rendered, cycle_info: run.cycle_info, reinitialise: false }
        },
        CycleState::Paused => Advance {
            state: CycleState::Paused,
            frame_rendered,
            cycle_info: None,
            reinitialise: false,
        },
    }
}

} // verus!
