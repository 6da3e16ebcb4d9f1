use omango_util::backoff::Backoff;
use omango_util::lock::RwSpinlock;

#[allow(unused_variables)]
#[test]
fn test_read_unlock() {
    let m = RwSpinlock::<i32>::new(0);
    {
        let r1 = m.read();
        {
            let r2 = m.read();
            let r2 = m.read();
            assert!(m.try_write().is_none());
        }
        assert!(m.try_write().is_none());
    }
    assert!(m.try_write().is_some());
}

#[allow(unused_variables)]
#[test]
fn test_write_unlock() {
    let m = RwSpinlock::<i32>::new(0);
    {
        let w1 = m.write();
        assert!(m.try_read().is_none());
    }
    assert!(m.try_read().is_some());
}

#[test]
fn test_rwlock_unsized() {
    let rw: &RwSpinlock<[i32; 3]> = &RwSpinlock::new([1, 2, 3]);
    {
        let b = &mut *rw.write().unwrap();
        b[0] = 4;
        b[2] = 5;
    }
    let comp: &[i32] = &[4, 2, 5];
    assert_eq!(&*rw.read().unwrap(), comp);
}

#[allow(clippy::assertions_on_constants)]
#[test]
fn test_rwlock_try_write() {
    let lock = RwSpinlock::new(0isize);
    let read_guard = lock.read();

    let write_result = lock.try_write();
    match write_result {
        None => (),
        Some(_) => assert!(
            false,
            "try_write should not succeed while read_guard is in scope"
        ),
    }

    drop(read_guard);
}

#[test]
fn test_rw_try_read() {
    let m = RwSpinlock::new(0);
    std::mem::forget(m.write());
    assert!(m.try_read().is_none());
}

#[test]
fn written_value_is_read_back() {
    let lock = RwSpinlock::new(0);
    {
        let mut guard = lock.write().unwrap();
        *guard = 10;
    }
    let guard = lock.read().unwrap();
    assert_eq!(*guard, 10);
}

#[test]
fn new_lock_holds_its_value_and_is_free() {
    let lock = RwSpinlock::new(String::from("payload"));
    assert_eq!(&*lock.read().unwrap(), "payload");
    assert!(lock.try_write().is_some());
    assert!(lock.try_read().is_some());
}

#[test]
fn reader_blocks_writer_until_released() {
    let lock = RwSpinlock::new(7u8);
    let reader = lock.read().unwrap();
    assert!(lock.try_write().is_none());
    assert_eq!(*reader, 7);
    drop(reader);
    let writer = lock.try_write();
    assert!(writer.is_some());
    assert_eq!(*writer.unwrap(), 7);
}

#[test]
fn leaked_write_guard_keeps_the_lock_for_good() {
    let lock = RwSpinlock::new(1u64);
    std::mem::forget(lock.write().unwrap());
    for _ in 0..1000 {
        assert!(lock.try_read().is_none());
        assert!(lock.try_write().is_none());
    }
}

#[test]
fn leaked_read_guard_keeps_writers_out_and_lets_readers_in() {
    let lock = RwSpinlock::new(1u64);
    std::mem::forget(lock.read().unwrap());
    for _ in 0..100 {
        assert!(lock.try_write().is_none());
        assert_eq!(*lock.read().unwrap(), 1);
        assert!(lock.try_read().is_some());
    }
}

#[test]
fn both_writes_are_seen_together() {
    let lock = RwSpinlock::new([0u32; 8]);
    {
        let mut guard = lock.write().unwrap();
        guard[1] = 11;
        guard[6] = 66;
    }
    let guard = lock.read().unwrap();
    assert_eq!(*guard, [0, 11, 0, 0, 0, 0, 66, 0]);
    let other = lock.read().unwrap();
    assert_eq!((other[1], other[6]), (11, 66));
}

#[test]
fn many_readers_coexist() {
    let lock = RwSpinlock::new(5i32);
    let mut guards = Vec::new();
    for held in 0..200 {
        guards.push(lock.read().unwrap());
        assert!(lock.try_write().is_none());
        assert_eq!(guards.len(), held + 1);
    }
    for guard in &guards {
        assert_eq!(**guard, 5);
    }
    while let Some(guard) = guards.pop() {
        assert!(lock.try_write().is_none());
        drop(guard);
    }
    assert!(lock.try_write().is_some());
}

#[test]
fn try_read_shares_with_readers() {
    let lock = RwSpinlock::new(3i8);
    let first = lock.try_read().unwrap();
    let second = lock.try_read().unwrap();
    let third = lock.read().unwrap();
    assert_eq!((*first, *second, *third), (3, 3, 3));
    assert!(lock.try_write().is_none());
}

#[test]
fn writer_excludes_everyone() {
    let lock = RwSpinlock::new(0u16);
    let mut writer = lock.write().unwrap();
    for round in 0..50 {
        assert!(lock.try_read().is_none());
        assert!(lock.try_write().is_none());
        *writer = round;
    }
    assert_eq!(*writer, 49);
    drop(writer);
    assert_eq!(*lock.read().unwrap(), 49);
}

#[test]
fn try_write_guard_excludes_everyone() {
    let lock = RwSpinlock::new(0u16);
    let writer = lock.try_write().unwrap();
    assert!(lock.try_read().is_none());
    assert!(lock.try_write().is_none());
    drop(writer);
    assert!(lock.try_read().is_some());
}

#[test]
fn last_release_frees_the_lock() {
    let lock = RwSpinlock::new(());
    let first = lock.read().unwrap();
    let second = lock.read().unwrap();
    drop(first);
    assert!(lock.try_write().is_none());
    drop(second);
    let writer = lock.try_write();
    assert!(writer.is_some());
    drop(writer);
    assert!(lock.try_write().is_some());
}

#[test]
fn refused_attempts_leave_no_trace() {
    let lock = RwSpinlock::new(0u32);
    let writer = lock.write().unwrap();
    for _ in 0..10_000 {
        assert!(lock.try_read().is_none());
    }
    drop(writer);
    assert!(lock.try_write().is_some());

    let reader = lock.read().unwrap();
    for _ in 0..10_000 {
        assert!(lock.try_write().is_none());
    }
    drop(reader);
    assert!(lock.try_write().is_some());
}

#[test]
fn write_after_write() {
    let lock = RwSpinlock::new(Vec::new());
    for round in 0..100u32 {
        lock.write().unwrap().push(round);
    }
    assert_eq!(lock.read().unwrap().len(), 100);
    assert_eq!(lock.read().unwrap()[99], 99);
}

#[test]
fn guards_of_two_locks_do_not_meet() {
    let left = RwSpinlock::new(1);
    let right = RwSpinlock::new(2);
    let writer = left.write().unwrap();
    assert!(right.try_write().is_some());
    assert_eq!(*right.read().unwrap(), 2);
    assert_eq!(*writer, 1);
}

fn shareable<T: Send + Sync>(_: &T) {}

#[test]
fn lock_can_be_shared_between_threads() {
    let lock = std::sync::Arc::new(RwSpinlock::new(vec![1u8, 2, 3]));
    shareable(&lock);
    let other = std::sync::Arc::clone(&lock);
    other.write().unwrap().push(4);
    assert_eq!(*lock.read().unwrap(), vec![1, 2, 3, 4]);
}

#[test]
fn waiting_acquisitions_succeed_on_a_free_lock() {
    let lock = RwSpinlock::new(0u8);
    assert!(lock.write().is_some());
    assert!(lock.read().is_some());
    let first = lock.read();
    let second = lock.read();
    assert!(first.is_some() && second.is_some());
}

#[test]
fn waiting_gives_up_when_patience_is_used_up() {
    let lock = RwSpinlock::new(0u8);
    std::mem::forget(lock.write());

    let mut backoff = Backoff::with_patience(5);
    assert!(lock.write_within(&mut backoff).is_none());
    assert!(backoff.is_completed());

    let mut backoff = Backoff::with_patience(5);
    assert!(lock.read_within(&mut backoff).is_none());
    assert!(backoff.is_completed());

    let mut backoff = Backoff::with_patience(0);
    assert!(lock.write_within(&mut backoff).is_none());
    assert!(backoff.is_completed());
}

#[test]
fn waiting_needs_no_patience_on_a_free_lock() {
    let lock = RwSpinlock::new(3u8);
    let mut backoff = Backoff::with_patience(0);
    let reader = lock.read_within(&mut backoff);
    assert_eq!(*reader.unwrap(), 3);
    let mut backoff = Backoff::with_patience(7);
    let writer = lock.write_within(&mut backoff);
    assert!(writer.is_some());
    assert!(!backoff.is_completed());
    assert_eq!(backoff.pauses(), 1);
}

#[test]
fn a_reader_does_not_wait_for_readers_but_a_writer_does() {
    let lock = RwSpinlock::new(3u8);
    let held = lock.read().unwrap();
    let mut backoff = Backoff::with_patience(4);
    assert!(lock.read_within(&mut backoff).is_some());
    assert_eq!(backoff.pauses(), 1);
    assert!(lock.write_within(&mut backoff).is_none());
    assert!(backoff.is_completed());
    assert_eq!(backoff.pauses(), 16);
    drop(held);
    assert!(lock.write().is_some());
}
