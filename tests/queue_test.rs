use amuseing::player::{Queue, RepeatMode};

#[test]
fn test_iteration_single() {
    let items: Vec<u8> = vec![7, 1, 3];
    let mode = RepeatMode::Single;
    let mut q = Queue::new(items, 0, mode);
    assert_eq!(Some(&7), q.next());
    assert_eq!(Some(&7), q.next());
    assert_eq!(Some(&7), q.next());
}

#[test]
fn test_iteration_all() {
    let items: Vec<u8> = vec![7, 1, 3];
    let mode = RepeatMode::All;
    let mut q = Queue::new(items, 0, mode);
    assert_eq!(Some(&7), q.next());
    assert_eq!(Some(&1), q.next());
    assert_eq!(Some(&3), q.next());
    assert_eq!(Some(&7), q.next());
    assert_eq!(Some(&1), q.next());
}

#[test]
fn test_iteration_off() {
    let items: Vec<u8> = vec![7, 1, 3];
    let mode = RepeatMode::Off;
    let mut q = Queue::new(items, 0, mode);
    assert_eq!(Some(&7), q.next());
    assert_eq!(Some(&1), q.next());
    assert_eq!(Some(&3), q.next());
    assert_eq!(None, q.next());
    assert_eq!(None, q.next());
}

#[test]
fn test_changing_mode() {
    let items: Vec<u8> = vec![7, 1, 3, 4];
    let mut q = Queue::new(items, 0, RepeatMode::All);
    assert_eq!(Some(&7), q.next());
    assert_eq!(Some(&1), q.next());

    q.repeat_mode = RepeatMode::Single;
    assert_eq!(Some(&1), q.next());
    assert_eq!(Some(&1), q.next());

    q.repeat_mode = RepeatMode::Off;
    assert_eq!(Some(&3), q.next());
    assert_eq!(Some(&4), q.next());
    assert_eq!(None, q.next());
}

#[test]
fn test_peek() {
    let items: Vec<u8> = vec![7, 1, 3, 4];
    let mut q = Queue::new(items, 2, RepeatMode::All);
    assert_eq!(Some(&3), q.peek());

    q.next();
    assert_eq!(Some(&4), q.peek());
}

#[test]
fn queue_test_test_skip() {
    let items: Vec<u8> = vec![7, 1, 3, 4];
    let mut q = Queue::new(items.clone(), 0, RepeatMode::All);
    q.skip(2);
    assert_eq!(Some(&3), q.peek());

    let mut q = Queue::new(items.clone(), 0, RepeatMode::All);
    q.next();
    q.skip(2);

    assert_eq!(Some(&4), q.peek());
    let mut q = Queue::new(items.clone(), 0, RepeatMode::All);
    q.next();
    q.skip(1);
    q.skip(1);
    assert_eq!(Some(&4), q.peek());
}

#[test]
fn test_jump() {
    let items: Vec<u8> = vec![7, 1, 3, 4];
    let mut q = Queue::new(items, 0, RepeatMode::All);

    q.next();
    q.jump(2);
    assert_eq!(Some(&3), q.peek());
}

#[test]
fn plain_queue_peek_at_last_item_wraps_in_all_mode() {
    let mut q = Queue::new(vec![7u8, 1, 3], 2, RepeatMode::All);
    assert_eq!(Some(&3), q.next());
    assert_eq!(Some(&7), q.peek());
    assert_eq!(Some(&7), q.next());
}

#[test]
fn plain_queue_next_mut_edits_the_item() {
    let mut q = Queue::new(vec![7u8, 1, 3], 0, RepeatMode::Off);
    if let Some(x) = q.next_mut() {
        *x = 9;
    }
    assert_eq!(q.items, vec![9, 1, 3]);
    if let Some(x) = q.peek_mut() {
        *x = 5;
    }
    assert_eq!(q.items, vec![9, 5, 3]);
    assert_eq!(*q.index(), 0);
    *q.index_mut() = 1;
    assert_eq!(Some(&3), q.next());
}

#[test]
fn plain_queue_jump_wraps_and_empty_queue_is_empty() {
    let mut q = Queue::new(vec![7u8, 1, 3], 0, RepeatMode::Off);
    q.jump(4);
    assert_eq!(*q.index(), 1);
    assert_eq!(Some(&1), q.next());
    let mut e: Queue<u8> = Queue::default();
    assert_eq!(None, e.next());
    let mut f: Queue<u8> = Queue::from(vec![2, 4]);
    assert_eq!(Some(&2), f.next());
}

#[test]
fn plain_queue_shuffle_moves_current_to_front() {
    let mut q = Queue::new(vec![1u32, 2, 3, 4, 5, 6], 3, RepeatMode::Off);
    let mut rng = rand::thread_rng();
    q.shuffle(&mut rng);
    assert_eq!(q.items[0], 4);
    let mut sorted = q.items.clone();
    sorted.sort();
    assert_eq!(sorted, vec![1, 2, 3, 4, 5, 6]);
}

#[test]
fn plain_queue_set_repeat_mode() {
    let mut q = Queue::new(vec![7u8, 1, 3, 4], 0, RepeatMode::All);
    assert_eq!(Some(&7), q.next());
    assert_eq!(Some(&1), q.next());
    q.set_repeat_mode(RepeatMode::Single);
    assert_eq!(q.repeat_mode, RepeatMode::Single);
    assert_eq!(Some(&1), q.next());
    q.set_repeat_mode(RepeatMode::Off);
    assert_eq!(Some(&3), q.next());
    assert_eq!(Some(&4), q.next());
    assert_eq!(None, q.next());
}
