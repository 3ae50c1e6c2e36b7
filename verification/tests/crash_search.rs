use simulation::crash::{
    crash_has_happened, crash_reason, first_step, next_step, simulation_end_time, CrashInfo,
    CrashType, Phase, SearchStep,
};

const SEC: u128 = 1_000_000_000;

fn run_search(roots: [Option<u128>; 3], reaction_time: u128, car_b_stop_time: u128) -> (Option<CrashInfo>, usize) {
    let mut step = first_step();
    let mut asked = 0;
    loop {
        match step {
            SearchStep::Solve(phase) => {
                let root = roots[asked];
                asked += 1;
                step = next_step(phase, root, reaction_time, car_b_stop_time);
            }
            SearchStep::Finished(info) => return (info, asked),
        }
    }
}

#[test]
fn first_step_solves_before_reaction() {
    assert_eq!(first_step(), SearchStep::Solve(Phase::BeforeReaction));
}

#[test]
fn root_before_reaction_is_a_crash() {
    let step = next_step(Phase::BeforeReaction, Some(SEC), 2 * SEC, 4 * SEC);
    assert_eq!(
        step,
        SearchStep::Finished(Some(CrashInfo { time: SEC, crash_type: CrashType::CrashBeforeReaction }))
    );
}

#[test]
fn root_at_reaction_goes_to_next_phase() {
    let step = next_step(Phase::BeforeReaction, Some(2 * SEC), 2 * SEC, 4 * SEC);
    assert_eq!(
        step,
        SearchStep::Solve(Phase::AfterReactionBeforeCarBStops { car_b_already_stopped: false })
    );
}

#[test]
fn no_root_before_reaction_tells_whether_car_b_stopped() {
    let step = next_step(Phase::BeforeReaction, None, 3 * SEC, 2 * SEC);
    assert_eq!(
        step,
        SearchStep::Solve(Phase::AfterReactionBeforeCarBStops { car_b_already_stopped: true })
    );
}

#[test]
fn root_while_car_b_brakes_counts_from_reaction() {
    let phase = Phase::AfterReactionBeforeCarBStops { car_b_already_stopped: false };
    let step = next_step(phase, Some(SEC), 2 * SEC, 4 * SEC);
    assert_eq!(
        step,
        SearchStep::Finished(Some(CrashInfo {
            time: 3 * SEC,
            crash_type: CrashType::CrashAfterReactionBeforeCarBStops
        }))
    );
}

#[test]
fn root_after_car_b_stops_moves_on() {
    let phase = Phase::AfterReactionBeforeCarBStops { car_b_already_stopped: false };
    let step = next_step(phase, Some(2 * SEC), 2 * SEC, 4 * SEC);
    assert_eq!(step, SearchStep::Solve(Phase::AfterReactionAfterCarBStops));
}

#[test]
fn last_phase_finishes() {
    let step = next_step(Phase::AfterReactionAfterCarBStops, Some(5 * SEC), 2 * SEC, 4 * SEC);
    assert_eq!(
        step,
        SearchStep::Finished(Some(CrashInfo {
            time: 7 * SEC,
            crash_type: CrashType::CrashAfterReactionAfterCarBStops
        }))
    );
    let step = next_step(Phase::AfterReactionAfterCarBStops, None, 2 * SEC, 4 * SEC);
    assert_eq!(step, SearchStep::Finished(None));
}

#[test]
fn search_stops_at_first_phase_that_crashes() {
    let (info, asked) = run_search([Some(SEC), Some(0), Some(0)], 2 * SEC, 4 * SEC);
    assert_eq!(asked, 1);
    assert_eq!(info.unwrap().crash_type, CrashType::CrashBeforeReaction);
}

#[test]
fn search_without_crash_asks_three_phases() {
    let (info, asked) = run_search([None, Some(10 * SEC), None], 2 * SEC, 4 * SEC);
    assert_eq!(asked, 3);
    assert_eq!(info, None);
}

#[test]
fn search_finds_crash_after_car_b_stops() {
    let (info, asked) = run_search([Some(5 * SEC), Some(3 * SEC), Some(4 * SEC)], 2 * SEC, 4 * SEC);
    assert_eq!(asked, 3);
    assert_eq!(
        info,
        Some(CrashInfo { time: 6 * SEC, crash_type: CrashType::CrashAfterReactionAfterCarBStops })
    );
}

#[test]
fn end_time_is_crash_time_or_later_stop() {
    let crash = Some(CrashInfo { time: 3 * SEC, crash_type: CrashType::CrashBeforeReaction });
    assert_eq!(simulation_end_time(crash, 7 * SEC, 5 * SEC), 3 * SEC);
    assert_eq!(simulation_end_time(None, 7 * SEC, 5 * SEC), 7 * SEC);
    assert_eq!(simulation_end_time(None, 4 * SEC, 5 * SEC), 5 * SEC);
}

#[test]
fn crash_happens_at_its_time() {
    let crash = Some(CrashInfo { time: 3 * SEC, crash_type: CrashType::CrashBeforeReaction });
    assert!(!crash_has_happened(3 * SEC - 1, crash));
    assert!(crash_has_happened(3 * SEC, crash));
    assert!(crash_has_happened(4 * SEC, crash));
    assert!(!crash_has_happened(4 * SEC, None));
}

#[test]
fn crash_reasons() {
    assert_eq!(
        crash_reason(CrashType::CrashBeforeReaction),
        "car a crashed into car b before car a reacted"
    );
    assert_eq!(
        crash_reason(CrashType::CrashAfterReactionBeforeCarBStops),
        "car a started braking, but it was too late"
    );
    assert_eq!(
        crash_reason(CrashType::CrashAfterReactionAfterCarBStops),
        "car b came to a stop and car a crashed into it"
    );
}
