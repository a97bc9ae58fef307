use pocket_web_backend::sweeper::{SweeperAction, SweeperEvent, SweeperState};

#[test]
fn sweeper_starts_once_and_stops_on_next_tick() {
    let s = SweeperState::new();
    let (s, a) = s.next(SweeperEvent::Tick);
    assert_eq!(a, SweeperAction::Idle);
    let (s, a) = s.next(SweeperEvent::Start);
    assert_eq!(a, SweeperAction::SpawnLoop);
    let (s, a) = s.next(SweeperEvent::Start);
    assert_eq!(a, SweeperAction::Idle);
    let (s, a) = s.next(SweeperEvent::Tick);
    assert_eq!(a, SweeperAction::Sweep);
    assert_eq!(s.ticks, 1);
    let (s, a) = s.next(SweeperEvent::Stop);
    assert_eq!(a, SweeperAction::SignalAndJoin);
    let (s, a) = s.next(SweeperEvent::Tick);
    assert_eq!(a, SweeperAction::Exit);
    assert!(!s.running);
    let (_, a) = s.next(SweeperEvent::Stop);
    assert_eq!(a, SweeperAction::Idle);
}
