use mwcas::atomic::{Bits, Word};
use mwcas::mwcas::{classify_install, Entry, InstallOutcome};
use mwcas::sequence_number::SeqNumber;
use mwcas::thread_local::ThreadId;
use mwcas::{cas2, cas_n, Atomic, Mcas};

#[test]
fn uncontended_success() {
    let m = Mcas::new(16);
    let reg = m.register().unwrap();
    let tid = reg.thread_id();
    let a = Atomic::new(&m, 0usize).unwrap();
    let b = Atomic::new(&m, 0usize).unwrap();

    assert!(cas2(&m, tid, &a, &b, 0, 0, 7, 9));
    assert_eq!(a.load(&m, tid), 7);
    assert_eq!(b.load(&m, tid), 9);
    m.deregister(reg);
}

#[test]
fn failure_on_second_word() {
    let m = Mcas::new(16);
    let reg = m.register().unwrap();
    let tid = reg.thread_id();
    let a = Atomic::new(&m, 0usize).unwrap();
    let b = Atomic::new(&m, 5usize).unwrap();

    assert!(!cas2(&m, tid, &a, &b, 0, 0, 7, 9));
    assert_eq!(a.load(&m, tid), 0);
    assert_eq!(b.load(&m, tid), 5);
    m.deregister(reg);
}

#[test]
fn reattempt_after_stale_expected() {
    let m = Mcas::new(16);
    let reg = m.register().unwrap();
    let tid = reg.thread_id();
    let a = Atomic::new(&m, 0usize).unwrap();
    let b = Atomic::new(&m, 0usize).unwrap();

    assert!(cas2(&m, tid, &a, &b, 0, 0, 7, 9));
    assert!(!cas2(&m, tid, &a, &b, 0, 0, 1, 1));
    assert_eq!(a.load(&m, tid), 7);
    assert_eq!(b.load(&m, tid), 9);
    m.deregister(reg);
}

#[test]
fn same_cell_twice() {
    let m = Mcas::new(16);
    let reg = m.register().unwrap();
    let tid = reg.thread_id();
    let a = Atomic::new(&m, 0usize).unwrap();

    assert!(cas2(&m, tid, &a, &a, 0, 0, 7, 7));
    assert_eq!(a.load(&m, tid), 7);

    assert!(!cas2(&m, tid, &a, &a, 0, 0, 3, 3));
    assert_eq!(a.load(&m, tid), 7);
    m.deregister(reg);
}

#[test]
fn cas_n_three_words() {
    let m = Mcas::new(16);
    let reg = m.register().unwrap();
    let tid = reg.thread_id();
    let cells = vec![
        Atomic::new(&m, 1usize).unwrap(),
        Atomic::new(&m, 2usize).unwrap(),
        Atomic::new(&m, 3usize).unwrap(),
    ];

    assert!(cas_n(&m, tid, &cells, &[1, 2, 3], &[10, 20, 30]));
    assert_eq!(cells[0].load(&m, tid), 10);
    assert_eq!(cells[1].load(&m, tid), 20);
    assert_eq!(cells[2].load(&m, tid), 30);

    assert!(!cas_n(&m, tid, &cells, &[10, 2, 30], &[0, 0, 0]));
    assert_eq!(cells[0].load(&m, tid), 10);
    assert_eq!(cells[1].load(&m, tid), 20);
    assert_eq!(cells[2].load(&m, tid), 30);
    m.deregister(reg);
}

#[test]
fn help_is_idempotent() {
    let m = Mcas::new(16);
    let reg = m.register().unwrap();
    let tid = reg.thread_id();
    let a = Atomic::new(&m, 0usize).unwrap();
    let b = Atomic::new(&m, 0usize).unwrap();

    let mut entries = vec![
        Entry { addr: a.index(), exp: 0usize.to_bits(), new: 7usize.to_bits() },
        Entry { addr: b.index(), exp: 0usize.to_bits(), new: 9usize.to_bits() },
    ];
    let descriptor_ptr = m.make_descriptor(tid, &mut entries);
    assert!(m.help(tid, descriptor_ptr, false));
    for _ in 0..8 {
        assert!(m.help(tid, descriptor_ptr, true));
        assert_eq!(a.load(&m, tid), 7);
        assert_eq!(b.load(&m, tid), 9);
    }

    let mut entries = vec![
        Entry { addr: a.index(), exp: 0usize.to_bits(), new: 1usize.to_bits() },
        Entry { addr: b.index(), exp: 0usize.to_bits(), new: 1usize.to_bits() },
    ];
    let failing_ptr = m.make_descriptor(tid, &mut entries);
    assert!(!m.help(tid, failing_ptr, false));
    for _ in 0..8 {
        assert!(!m.help(tid, failing_ptr, true));
        assert_eq!(a.load(&m, tid), 7);
        assert_eq!(b.load(&m, tid), 9);
    }
    m.deregister(reg);
}

#[test]
fn entries_are_sorted_by_address() {
    let m = Mcas::new(16);
    let reg = m.register().unwrap();
    let tid = reg.thread_id();
    let a = Atomic::new(&m, 0usize).unwrap();
    let b = Atomic::new(&m, 0usize).unwrap();

    let mut entries = vec![
        Entry { addr: b.index(), exp: 0usize.to_bits(), new: 9usize.to_bits() },
        Entry { addr: a.index(), exp: 0usize.to_bits(), new: 7usize.to_bits() },
    ];
    let descriptor_ptr = m.make_descriptor(tid, &mut entries);
    assert!(entries[0].addr <= entries[1].addr);
    assert_eq!(entries[0].addr, a.index());
    assert_eq!(entries[1].addr, b.index());
    assert!(m.help(tid, descriptor_ptr, false));
    assert_eq!(a.load(&m, tid), 7);
    assert_eq!(b.load(&m, tid), 9);
    m.deregister(reg);
}

#[test]
fn install_outcome_classification() {
    let descriptor_ptr = Bits::new_descriptor_ptr(
        ThreadId::from_u16(4),
        SeqNumber::from_usize(9),
    )
    .with_mark(2);
    let other_ptr = Bits::new_descriptor_ptr(ThreadId::from_u16(5), SeqNumber::from_usize(1))
        .with_mark(2);
    let expected = 7usize.to_bits();
    let other_value = 8usize.to_bits();

    assert!(matches!(
        classify_install(descriptor_ptr, expected, descriptor_ptr),
        InstallOutcome::Installed
    ));
    assert!(matches!(
        classify_install(expected, expected, descriptor_ptr),
        InstallOutcome::Installed
    ));
    assert!(matches!(
        classify_install(other_ptr, expected, descriptor_ptr),
        InstallOutcome::Blocked
    ));
    assert!(matches!(
        classify_install(other_value, expected, descriptor_ptr),
        InstallOutcome::Mismatch
    ));
}

#[test]
fn arena_exhaustion_yields_none() {
    let m = Mcas::new(1);
    let a = Atomic::new(&m, 3usize).unwrap();
    assert!(Atomic::new(&m, 4usize).is_none());
    let reg = m.register().unwrap();
    let tid = reg.thread_id();
    assert_eq!(a.load(&m, tid), 3);
    m.deregister(reg);
}

#[test]
fn registry_reuses_released_ids() {
    let m = Mcas::new(1);
    let first = m.register().unwrap();
    let second = m.register().unwrap();
    assert_ne!(first.thread_id(), second.thread_id());
    let first_id = first.thread_id();
    m.deregister(first);
    let third = m.register().unwrap();
    assert_eq!(third.thread_id(), first_id);
    m.deregister(second);
    m.deregister(third);
}

#[test]
fn registry_exhaustion_yields_none() {
    let m = Mcas::new(1);
    let mut regs = Vec::new();
    for _ in 0..1024 {
        regs.push(m.register().unwrap());
    }
    assert!(m.register().is_none());
    for reg in regs {
        m.deregister(reg);
    }
    assert!(m.register().is_some());
}

#[test]
fn counter_race() {
    let m = Mcas::new(16);
    let a = Atomic::new(&m, 0usize).unwrap();
    let b = Atomic::new(&m, 0usize).unwrap();
    let threads = 8;
    let iterations = 100_000;

    crossbeam_utils::thread::scope(|s| {
        for _ in 0..threads {
            s.spawn(|_| {
                let reg = m.register().unwrap();
                let tid = reg.thread_id();
                let mut done = 0;
                while done < iterations {
                    let curr_a = a.load(&m, tid);
                    let curr_b = b.load(&m, tid);
                    if cas2(&m, tid, &a, &b, curr_a, curr_b, curr_a + 1, curr_b + 1) {
                        done += 1;
                    }
                }
                m.deregister(reg);
            });
        }
    })
    .unwrap();

    let reg = m.register().unwrap();
    let tid = reg.thread_id();
    assert_eq!(a.load(&m, tid), threads * iterations);
    assert_eq!(b.load(&m, tid), threads * iterations);
    m.deregister(reg);
}

#[test]
fn cross_address_contention() {
    let size = 24_000;
    let m = &Mcas::new(size);
    let mut cells = Vec::with_capacity(size);
    for _ in 0..size {
        cells.push(Atomic::new(&m, 0usize).unwrap());
    }
    let cells = &cells;
    let threads = 24;
    let iterations = 20_000;

    let mut totals: Vec<usize> = Vec::new();
    crossbeam_utils::thread::scope(|s| {
        let mut handles = Vec::new();
        for t in 0..threads {
            handles.push(s.spawn(move |_| {
                let reg = m.register().unwrap();
                let tid = reg.thread_id();
                let mut state: u64 = 0x9e37_79b9_7f4a_7c15 ^ (t as u64);
                let mut successes = 0usize;
                for _ in 0..iterations {
                    state = state
                        .wrapping_mul(6364136223846793005)
                        .wrapping_add(1442695040888963407);
                    let i = (state >> 33) as usize % cells.len();
                    state = state
                        .wrapping_mul(6364136223846793005)
                        .wrapping_add(1442695040888963407);
                    let j = (state >> 33) as usize % cells.len();
                    if i == j {
                        continue;
                    }
                    let x = &cells[i];
                    let y = &cells[j];
                    let curr_x = x.load(&m, tid);
                    let curr_y = y.load(&m, tid);
                    if cas2(&m, tid, x, y, curr_x, curr_y, curr_x + 1, curr_y + 1) {
                        successes += 1;
                    }
                }
                m.deregister(reg);
                successes
            }));
        }
        for h in handles {
            totals.push(h.join().unwrap());
        }
    })
    .unwrap();

    let total_successes: usize = totals.iter().sum();
    let reg = m.register().unwrap();
    let tid = reg.thread_id();
    let mut sum = 0usize;
    for cell in cells {
        sum += cell.load(&m, tid);
    }
    assert_eq!(sum, 2 * total_successes);
    m.deregister(reg);
}

#[test]
fn load_during_operation_sees_only_values() {
    let m = Mcas::new(16);
    let a = Atomic::new(&m, 0usize).unwrap();
    let b = Atomic::new(&m, 0usize).unwrap();
    let rounds = 20_000;

    crossbeam_utils::thread::scope(|s| {
        for _ in 0..2 {
            s.spawn(|_| {
                let reg = m.register().unwrap();
                let tid = reg.thread_id();
                for k in 0..rounds {
                    let x = k % 2;
                    cas2(&m, tid, &a, &b, x, x, 1 - x, 1 - x);
                }
                m.deregister(reg);
            });
        }
        s.spawn(|_| {
            let reg = m.register().unwrap();
            let tid = reg.thread_id();
            for _ in 0..(4 * rounds) {
                let v = a.load(&m, tid);
                assert!(v == 0 || v == 1);
                let w = b.load(&m, tid);
                assert!(w == 0 || w == 1);
            }
            m.deregister(reg);
        });
    })
    .unwrap();
}
