use amuseing::queue::{Queue, RepeatMode};

#[test]
fn queue_iteration_all_test() {
    let mut queue: Queue<u32> = Queue::new(RepeatMode::All);
    queue.extend(vec![1, 2, 3]);
    assert_eq!(queue.next_item(), Some(&1));
    assert_eq!(queue.next_item(), Some(&2));
    assert_eq!(queue.next_item(), Some(&3));
    assert_eq!(queue.next_item(), Some(&1));
    assert_eq!(queue.next_item(), Some(&2));
}

#[test]
fn queue_iteration_off_test() {
    let mut queue: Queue<u32> = Queue::new(RepeatMode::Off);
    queue.extend(vec![1, 2, 3]);
    assert_eq!(queue.next_item(), Some(&1));
    assert_eq!(queue.next_item(), Some(&2));
    assert_eq!(queue.next_item(), Some(&3));
    assert_eq!(queue.next_item(), None);
    assert_eq!(queue.next_item(), None);
}

#[test]
fn queue_iteration_single_test() {
    let mut queue: Queue<u32> = Queue::new(RepeatMode::Single);
    queue.extend(vec![1, 2, 3]);
    assert_eq!(queue.next_item(), Some(&1));
    assert_eq!(queue.next_item(), Some(&1));
    assert_eq!(queue.next_item(), Some(&1));
}

#[test]
fn queue_test_skip() {
    let items: Vec<u32> = vec![1, 5, 3, 7, 8, 6, 9, 4];
    let mut queue = Queue::new(RepeatMode::Off);
    queue.extend(items);
    queue.skip(2);
    assert_eq!(queue.next_item(), Some(&3));
    queue.skip(1);
    assert_eq!(queue.next_item(), Some(&8));
}

#[test]
fn test_push() {
    let mut queue = Queue::new(RepeatMode::Off);
    queue.extend(vec![]);
    queue.push(6);
    queue.push(4);
    assert_eq!(queue.items(), &[6, 4]);
}

#[test]
fn test_remove() {
    let mut queue = Queue::new(RepeatMode::Off);
    queue.extend(vec![1, 6, 3, 9, 2]);
    queue.jump(0).unwrap();
    queue.remove(3);
    assert_eq!(queue.items(), &[1, 6, 3, 2]);
    queue.jump(2).unwrap();
    queue.remove(0);
    assert_eq!(queue.items(), &[6, 3, 2]);
    assert_eq!(queue.index(), 1);
}

fn abc(mode: RepeatMode) -> Queue<char> {
    let mut q = Queue::new(mode);
    q.extend(vec!['A', 'B', 'C']);
    q
}

#[test]
fn repeat_all_traversal_seven_calls() {
    let mut q = abc(RepeatMode::All);
    let mut got = Vec::new();
    for _ in 0..7 {
        got.push(*q.next_item().unwrap());
    }
    assert_eq!(got, vec!['A', 'B', 'C', 'A', 'B', 'C', 'A']);
}

#[test]
fn all_mode_two_full_cycles() {
    let mut q = abc(RepeatMode::All);
    let mut got = Vec::new();
    for _ in 0..6 {
        got.push(*q.next_item().unwrap());
    }
    assert_eq!(got, vec!['A', 'B', 'C', 'A', 'B', 'C']);
}

#[test]
fn single_mode_ignores_edits_elsewhere() {
    let mut q = abc(RepeatMode::Single);
    q.jump(1).unwrap();
    assert_eq!(q.next_item(), Some(&'B'));
    q.items_mut()[0] = 'Z';
    q.items_mut()[2] = 'Y';
    assert_eq!(q.next_item(), Some(&'B'));
    assert_eq!(q.next_item(), Some(&'B'));
    assert_eq!(q.index(), 1);
}

#[test]
fn single_mode_past_end_returns_none_and_keeps_cursor() {
    let mut q = abc(RepeatMode::Single);
    q.jump(3).unwrap();
    assert_eq!(q.next_item(), None);
    assert_eq!(q.index(), 3);
}

#[test]
fn off_mode_runs_out_after_len_calls() {
    let mut q = abc(RepeatMode::Off);
    for _ in 0..3 {
        assert!(q.next_item().is_some());
    }
    for _ in 0..4 {
        assert_eq!(q.next_item(), None);
    }
    assert_eq!(q.index(), 3);
    q.jump(0).unwrap();
    assert_eq!(q.next_item(), Some(&'A'));
}

#[test]
fn jump_then_next_returns_that_item() {
    let mut q = abc(RepeatMode::Off);
    q.next_item();
    q.jump(2).unwrap();
    assert_eq!(q.next_item(), Some(&'C'));
    q.jump(3).unwrap();
    assert_eq!(q.next_item(), None);
}

#[test]
fn jump_to_len_returns_none_in_every_mode() {
    for mode in [RepeatMode::Off, RepeatMode::Single, RepeatMode::All] {
        let mut q = abc(mode);
        q.next_item();
        q.jump(3).unwrap();
        assert_eq!(q.next_item(), None);
        assert_eq!(q.index(), 3);
    }
}

#[test]
fn set_repeat_mode_keeps_cursor() {
    let mut q = abc(RepeatMode::All);
    q.next_item();
    q.next_item();
    q.set_repeat_mode(RepeatMode::Single);
    assert_eq!(q.repeat_mode, RepeatMode::Single);
    assert_eq!(q.next_item(), Some(&'B'));
    q.set_repeat_mode(RepeatMode::Off);
    assert_eq!(q.next_item(), Some(&'C'));
    assert_eq!(q.next_item(), None);
}

#[test]
fn jump_past_len_is_out_of_bounds() {
    let mut q = abc(RepeatMode::Off);
    let r = q.jump(4);
    assert_eq!(r, Err(amuseing::errors::OutOfBoundsError::High { value: 4, max: 3 }));
    assert_eq!(q.index(), 0);
}

#[test]
fn skips_add_up() {
    let mut one = abc(RepeatMode::All);
    one.next_item();
    one.skip(1);
    one.skip(3);
    let mut sum = abc(RepeatMode::All);
    sum.next_item();
    sum.skip(4);
    assert_eq!(one.index(), sum.index());
    assert_eq!(one.next_item(), sum.next_item());
}

#[test]
fn skip_in_off_mode_stops_at_end() {
    let mut q = abc(RepeatMode::Off);
    q.skip(10);
    assert_eq!(q.index(), 3);
    assert_eq!(q.next_item(), None);
    let mut e: Queue<u8> = Queue::new(RepeatMode::All);
    e.skip(5);
    assert_eq!(e.index(), 0);
}

#[test]
fn remove_before_cursor_keeps_current() {
    let mut q = abc(RepeatMode::Off);
    q.jump(2).unwrap();
    assert_eq!(q.current(), Some(&'C'));
    q.remove(0);
    assert_eq!(q.current(), Some(&'C'));
    assert_eq!(q.index(), 1);
}

#[test]
fn insert_at_or_before_cursor_keeps_current() {
    let mut q = abc(RepeatMode::Off);
    q.jump(1).unwrap();
    q.insert(1, 'X');
    assert_eq!(q.current(), Some(&'B'));
    q.insert(3, 'Y');
    assert_eq!(q.current(), Some(&'B'));
    assert_eq!(q.items(), &['A', 'X', 'B', 'Y', 'C']);
}

#[test]
fn rewind_wraps_from_start() {
    let mut q = abc(RepeatMode::Off);
    q.rewind(1);
    assert_eq!(q.index(), 2);
    assert_eq!(q.next_item(), Some(&'C'));
    q.rewind(1);
    assert_eq!(q.next_item(), Some(&'B'));
}

#[test]
fn rewind_to_previous_song_scenario() {
    let mut q = abc(RepeatMode::All);
    q.next_item();
    assert_eq!(q.next_item(), Some(&'B'));
    q.rewind(1);
    assert_eq!(q.index(), 0);
    assert_eq!(q.next_item(), Some(&'A'));
}

#[test]
fn clear_empties_and_resets() {
    let mut q = abc(RepeatMode::All);
    q.next_item();
    q.next_item();
    q.clear();
    assert!(q.is_empty());
    assert_eq!(q.index(), 0);
    assert_eq!(q.next_item(), None);
    q.push('Q');
    assert_eq!(q.next_item(), Some(&'Q'));
}

#[test]
fn repeat_mode_cycle_and_names() {
    assert_eq!(RepeatMode::All.next(), RepeatMode::Single);
    assert_eq!(RepeatMode::Single.next(), RepeatMode::Off);
    assert_eq!(RepeatMode::Off.next(), RepeatMode::All);
    assert_eq!(RepeatMode::Off.as_str(), "off");
    assert_eq!(RepeatMode::Single.as_str(), "one");
    assert_eq!(RepeatMode::All.as_str(), "all");
}
