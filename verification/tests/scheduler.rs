use hunter_sim::events::{Action, Event, EventQueue};

fn ev(time: u64, priority: u8, action: Action) -> Event {
    Event { time, priority, action }
}

#[test]
fn pop_drains_in_ascending_time_order() {
    let mut q = EventQueue::new();
    q.push(ev(30, 1, Action::HunterAttack));
    q.push(ev(10, 2, Action::EnemyAttack));
    q.push(ev(20, 3, Action::Regen));
    assert_eq!(q.pop().unwrap().time, 10);
    assert_eq!(q.pop().unwrap().time, 20);
    assert_eq!(q.pop().unwrap().time, 30);
    assert!(q.pop().is_none());
}

#[test]
fn equal_times_drain_in_ascending_priority() {
    let mut q = EventQueue::new();
    q.push(ev(5, 3, Action::Regen));
    q.push(ev(5, 1, Action::HunterAttack));
    q.push(ev(5, 2, Action::EnemyAttack));
    assert_eq!(q.pop().unwrap().action, Action::HunterAttack);
    assert_eq!(q.pop().unwrap().action, Action::EnemyAttack);
    assert_eq!(q.pop().unwrap().action, Action::Regen);
}

#[test]
fn fully_equal_keys_drain_in_push_order() {
    let mut q = EventQueue::new();
    q.push(ev(5, 2, Action::EnemyAttack));
    q.push(ev(5, 2, Action::EnemySpecial));
    assert_eq!(q.pop().unwrap().action, Action::EnemyAttack);
    assert_eq!(q.pop().unwrap().action, Action::EnemySpecial);
}

#[test]
fn clear_empties_the_queue() {
    let mut q = EventQueue::new();
    q.push(ev(1, 1, Action::Regen));
    q.push(ev(2, 1, Action::Regen));
    assert_eq!(q.len(), 2);
    q.clear();
    assert_eq!(q.len(), 0);
    assert!(q.pop().is_none());
}

#[test]
fn popped_times_never_decrease() {
    let mut q = EventQueue::new();
    let times = [44u64, 2, 19, 2, 100, 7, 56, 3];
    for (i, &t) in times.iter().enumerate() {
        q.push(ev(t, (i % 3) as u8, Action::Regen));
    }
    let mut last = 0u64;
    while let Some(e) = q.pop() {
        assert!(e.time >= last);
        last = e.time;
    }
}
