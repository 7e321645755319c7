use auditorium::player::{ActiveSong, PlayerState, StartStep};

fn running() -> ActiveSong {
    let mut p = ActiveSong::new();
    assert_eq!(p.start(), StartStep::Spawn);
    assert_eq!(p.state(), PlayerState::Starting);
    p.spawn_finished(true);
    assert_eq!(p.state(), PlayerState::Running);
    p
}

#[test]
fn natural_exit_is_dead_natural() {
    let mut p = running();
    assert_eq!(p.poll(false), PlayerState::Running);
    assert_eq!(p.poll(true), PlayerState::DeadNatural);
    assert!(!p.marked_dead());
}

#[test]
fn poll_after_kill_is_dead_killed() {
    let mut p = running();
    assert!(p.try_kill());
    p.kill_finished(true);
    assert_eq!(p.poll(true), PlayerState::DeadKilled);
}

#[test]
fn kill_wins_over_a_concurrent_exit() {
    let mut p = running();
    assert!(p.try_kill());
    // the process had already begun exiting on its own
    assert_eq!(p.poll(true), PlayerState::DeadKilled);
    p.kill_finished(true);
    assert_eq!(p.state(), PlayerState::DeadKilled);
}

#[test]
fn start_while_running_kills_first() {
    let mut p = running();
    assert_eq!(p.start(), StartStep::KillFirst);
    assert_eq!(p.state(), PlayerState::Running);
    assert!(p.has_process());
    p.kill_finished(true);
    assert!(!p.has_process());
    assert_eq!(p.start(), StartStep::Spawn);
    assert_eq!(p.state(), PlayerState::Starting);
}

#[test]
fn failed_kill_keeps_the_process() {
    let mut p = running();
    assert!(p.try_kill());
    p.kill_finished(false);
    assert_eq!(p.state(), PlayerState::Running);
    assert_eq!(p.start(), StartStep::KillFirst);
}

#[test]
fn failed_spawn_leaves_no_process() {
    let mut p = ActiveSong::new();
    assert_eq!(p.start(), StartStep::Spawn);
    p.spawn_finished(false);
    assert_eq!(p.state(), PlayerState::Idle);
    assert!(!p.has_process());
}

#[test]
fn kill_without_process_is_immediate() {
    let mut p = ActiveSong::new();
    assert!(!p.try_kill());
    assert_eq!(p.state(), PlayerState::DeadKilled);
    p.retire();
    assert_eq!(p.state(), PlayerState::Idle);
    assert!(!p.marked_dead());
}
