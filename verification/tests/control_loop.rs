use vim_clutch::action::{Action, Level};
use vim_clutch::control::{react, ControlLoop, Iteration};
use vim_clutch::machine::Transition;
use vim_clutch::report::{KeyboardReport, KEY_ESC, KEY_I};
use vim_clutch::switch::SwitchState;

use vim_clutch::switch::SwitchState::{Pressed, Released};

/// What a driver would have done over a run: the events it saw, the
/// indicator level after each pass, and the reports it sent.
struct Run {
    events: Vec<Transition>,
    levels: Vec<Level>,
    reports: Vec<KeyboardReport>,
    waits: Vec<u8>,
    state: SwitchState,
}

fn drive(first: SwitchState, readings: &[SwitchState]) -> Run {
    let mut control = ControlLoop::new(first);
    let mut level = Level::Low;
    let mut run = Run {
        events: Vec::new(),
        levels: Vec::new(),
        reports: Vec::new(),
        waits: Vec::new(),
        state: first,
    };
    for reading in readings {
        let pass = control.iterate(*reading);
        run.events.push(pass.transition);
        if let Some(actions) = pass.actions {
            for action in actions {
                match action {
                    Action::SetIndicator(to) => level = to,
                    Action::SendReport(report) => run.reports.push(report),
                    Action::Wait(ms) => run.waits.push(ms),
                }
            }
        }
        run.levels.push(level);
    }
    run.state = control.previous();
    run
}

fn i_down() -> KeyboardReport {
    KeyboardReport {
        modifier: 0,
        reserved: 0,
        leds: 0,
        keycodes: [0x0c, 0, 0, 0, 0, 0],
    }
}

fn esc_down() -> KeyboardReport {
    KeyboardReport {
        modifier: 0,
        reserved: 0,
        leds: 0,
        keycodes: [0x29, 0, 0, 0, 0, 0],
    }
}

fn all_up() -> KeyboardReport {
    KeyboardReport {
        modifier: 0,
        reserved: 0,
        leds: 0,
        keycodes: [0; 6],
    }
}

#[test]
fn react_to_entered_insert() {
    assert_eq!(
        react(Transition::EnteredInsert),
        Some([
            Action::SetIndicator(Level::High),
            Action::SendReport(i_down()),
            Action::Wait(10),
            Action::SendReport(all_up()),
            Action::Wait(10),
        ])
    );
}

#[test]
fn react_to_entered_normal() {
    assert_eq!(
        react(Transition::EnteredNormal),
        Some([
            Action::SetIndicator(Level::Low),
            Action::SendReport(esc_down()),
            Action::Wait(10),
            Action::SendReport(all_up()),
            Action::Wait(10),
        ])
    );
}

#[test]
fn react_to_unchanged_is_nothing() {
    assert_eq!(react(Transition::Unchanged), None);
}

#[test]
fn iterate_reports_transition_and_plan() {
    let mut control = ControlLoop::new(Released);
    assert_eq!(
        control.iterate(Released),
        Iteration {
            transition: Transition::Unchanged,
            actions: None,
        }
    );
    assert_eq!(
        control.iterate(Pressed),
        Iteration {
            transition: Transition::EnteredInsert,
            actions: react(Transition::EnteredInsert),
        }
    );
    assert_eq!(control.previous(), Pressed);
    assert_eq!(
        control.iterate(Released),
        Iteration {
            transition: Transition::EnteredNormal,
            actions: react(Transition::EnteredNormal),
        }
    );
    assert_eq!(control.previous(), Released);
}

#[test]
fn scenario_press_hold_release() {
    let samples = [Released, Released, Pressed, Pressed, Released];
    let run = drive(samples[0], &samples[1..]);
    assert_eq!(
        run.events,
        vec![
            Transition::Unchanged,
            Transition::EnteredInsert,
            Transition::Unchanged,
            Transition::EnteredNormal,
        ]
    );
    assert_eq!(
        run.levels,
        vec![Level::Low, Level::High, Level::High, Level::Low]
    );
    assert_eq!(
        run.reports,
        vec![i_down(), all_up(), esc_down(), all_up()]
    );
    assert_eq!(run.waits, vec![10, 10, 10, 10]);
}

#[test]
fn scenario_two_presses_without_release() {
    let samples = [Released, Pressed, Pressed];
    let run = drive(samples[0], &samples[1..]);
    assert_eq!(
        run.events,
        vec![Transition::EnteredInsert, Transition::Unchanged]
    );
    assert_eq!(run.reports, vec![i_down(), all_up()]);
}

#[test]
fn boundary_switch_held_at_startup() {
    let run = drive(Pressed, &[Pressed]);
    assert_eq!(run.events, vec![Transition::Unchanged]);
    assert_eq!(run.reports, Vec::<KeyboardReport>::new());
    assert_eq!(run.levels, vec![Level::Low]);
}

#[test]
fn switch_held_at_startup_then_released_sends_escape() {
    let run = drive(Pressed, &[Pressed, Pressed, Released]);
    assert_eq!(
        run.events,
        vec![
            Transition::Unchanged,
            Transition::Unchanged,
            Transition::EnteredNormal,
        ]
    );
    assert_eq!(run.reports, vec![esc_down(), all_up()]);
    assert_eq!(run.levels, vec![Level::Low, Level::Low, Level::Low]);
}

#[test]
fn round_trip_press_then_release() {
    let run = drive(Released, &[Pressed, Released]);
    assert_eq!(
        run.reports,
        vec![i_down(), all_up(), esc_down(), all_up()]
    );
    assert_eq!(run.state, Released);
    assert_eq!(run.levels.last(), Some(&Level::Low));
}

#[test]
fn round_trip_release_then_press() {
    let run = drive(Pressed, &[Released, Pressed]);
    assert_eq!(
        run.reports,
        vec![esc_down(), all_up(), i_down(), all_up()]
    );
    assert_eq!(run.state, Pressed);
    assert_eq!(run.levels.last(), Some(&Level::High));
}

#[test]
fn round_trip_with_dwell_sends_two_pairs() {
    for away in 1..6usize {
        for back in 1..6usize {
            let mut readings: Vec<SwitchState> = vec![Pressed; away];
            readings.extend(vec![Released; back]);
            let run = drive(Released, &readings);
            assert_eq!(
                run.reports,
                vec![i_down(), all_up(), esc_down(), all_up()]
            );
            let fired = run
                .events
                .iter()
                .filter(|event| **event != Transition::Unchanged)
                .count();
            assert_eq!(fired, 2);
        }
    }
}

#[test]
fn events_fire_exactly_where_readings_differ() {
    // Every run of eight readings from either starting state.
    for first in [Pressed, Released] {
        for bits in 0..256u32 {
            let readings: Vec<SwitchState> = (0..8u32)
                .map(|i| SwitchState::from_pin_low(bits >> i & 1 == 1))
                .collect();
            let run = drive(first, &readings);
            let mut previous = first;
            let mut edges: usize = 0;
            for (reading, event) in readings.iter().zip(run.events.iter()) {
                assert_eq!(*event != Transition::Unchanged, previous != *reading);
                if previous != *reading {
                    edges += 1;
                }
                previous = *reading;
            }
            assert_eq!(run.reports.len(), 2 * edges);
            assert_eq!(run.waits.len(), 2 * edges);
        }
    }
}

#[test]
fn each_edge_is_followed_by_its_key_pair() {
    for first in [Pressed, Released] {
        for bits in 0..256u32 {
            let readings: Vec<SwitchState> = (0..8u32)
                .map(|i| SwitchState::from_pin_low(bits >> i & 1 == 1))
                .collect();
            let mut control = ControlLoop::new(first);
            let mut level = Level::Low;
            for reading in readings {
                let pass = control.iterate(reading);
                let sent: Vec<KeyboardReport> = pass
                    .actions
                    .iter()
                    .flatten()
                    .filter_map(|action| match action {
                        Action::SendReport(report) => Some(*report),
                        _ => None,
                    })
                    .collect();
                for action in pass.actions.iter().flatten() {
                    if let Action::SetIndicator(to) = action {
                        level = *to;
                    }
                }
                match pass.transition {
                    Transition::EnteredInsert => {
                        assert_eq!(sent, vec![KeyboardReport::key_down(KEY_I), all_up()]);
                        assert_eq!(level, Level::High);
                    }
                    Transition::EnteredNormal => {
                        assert_eq!(sent, vec![KeyboardReport::key_down(KEY_ESC), all_up()]);
                        assert_eq!(level, Level::Low);
                    }
                    Transition::Unchanged => {
                        assert!(sent.is_empty());
                    }
                }
            }
        }
    }
}

#[test]
fn indicator_is_unchanged_without_an_edge() {
    let run = drive(Released, &[Pressed, Pressed, Pressed, Released, Released]);
    assert_eq!(
        run.levels,
        vec![
            Level::High,
            Level::High,
            Level::High,
            Level::Low,
            Level::Low,
        ]
    );
}
