use interloc::AllocAction;
use interloc::AllocInfo;
use interloc::AllocMonitor;
use interloc::Layout;
use interloc::StatsMonitor;
use interloc::ThreadMonitor;

#[test]
fn alloc_then_dealloc_of_same_block() {
    let l = Layout::from_size_align(64, 8);
    let s = AllocInfo::new()
        .after_call(l, AllocAction::Alloc)
        .after_call(l, AllocAction::Dealloc { ptr: 4096 });
    assert_eq!(s.alloc, 1);
    assert_eq!(s.dealloc, 1);
    assert_eq!(s.realloc, 0);
    assert_eq!(s.bytes_alloc, 64);
    assert_eq!(s.bytes_dealloc, 64);
}

#[test]
fn realloc_counts_both_sizes() {
    let old = Layout::from_size_align(32, 8);
    let s = AllocInfo::new().after_call(old, AllocAction::Realloc { ptr: 4096, new_size: 96 });
    assert_eq!(s.realloc, 1);
    assert_eq!(s.bytes_alloc, 96);
    assert_eq!(s.bytes_dealloc, 32);
    assert_eq!(s.alloc, 0);
    assert_eq!(s.dealloc, 0);
}

#[test]
fn result_events_change_no_counter() {
    let l = Layout::from_size_align(128, 16);
    let z = AllocInfo::new();
    assert_eq!(z.after_call(l, AllocAction::AllocResult { ptr: 4096 }), z);
    assert_eq!(z.after_call(l, AllocAction::AllocZeroedResult { ptr: 4096 }), z);
    assert_eq!(z.after_call(l, AllocAction::DeallocResult), z);
    assert_eq!(z.after_call(l, AllocAction::ReallocResult { ptr: 4096, new_size: 8 }), z);
}

#[test]
fn sequence_totals_add_up() {
    let a = Layout::from_size_align(10, 2);
    let b = Layout::from_size_align(30, 4);
    let s = AllocInfo::new()
        .after_call(a, AllocAction::Alloc)
        .after_call(a, AllocAction::AllocResult { ptr: 8 })
        .after_call(b, AllocAction::AllocZeroed)
        .after_call(b, AllocAction::AllocZeroedResult { ptr: 16 })
        .after_call(a, AllocAction::Dealloc { ptr: 8 })
        .after_call(a, AllocAction::DeallocResult)
        .after_call(b, AllocAction::Realloc { ptr: 16, new_size: 50 })
        .after_call(b, AllocAction::ReallocResult { ptr: 16, new_size: 50 });
    assert_eq!(s.alloc, 2);
    assert_eq!(s.dealloc, 1);
    assert_eq!(s.realloc, 1);
    assert_eq!(s.bytes_alloc, 10 + 30 + 50);
    assert_eq!(s.bytes_dealloc, 10 + 30);
}

#[test]
fn delta_between_two_reads() {
    let l = Layout::from_size_align(24, 8);
    let mut m = ThreadMonitor::new();
    let me: u64 = 1;
    m.monitor(me, l, AllocAction::Alloc);
    let before = m.info(me);
    m.monitor(me, l, AllocAction::Alloc);
    m.monitor(me, l, AllocAction::Dealloc { ptr: 32 });
    let after = m.info(me);
    let delta = after.relative_to(&before);
    assert_eq!(delta.alloc, 1);
    assert_eq!(delta.dealloc, 1);
    assert_eq!(delta.realloc, 0);
    assert_eq!(delta.bytes_alloc, 24);
    assert_eq!(delta.bytes_dealloc, 24);
}

#[test]
fn relative_to_of_equal_snapshots_is_zero() {
    let l = Layout::from_size_align(24, 8);
    let s = AllocInfo::new().after_call(l, AllocAction::Alloc);
    assert_eq!(s.relative_to(&s), AllocInfo::new());
}

#[test]
fn thread_slots_are_isolated() {
    let l = Layout::from_size_align(64, 8);
    let mut m = ThreadMonitor::new();
    let a: u64 = 1;
    let b: u64 = 2;
    let b_before = m.info(b);
    m.monitor(a, l, AllocAction::Alloc);
    m.monitor(a, l, AllocAction::AllocResult { ptr: 4096 });
    assert_eq!(m.info(b), b_before);
    assert_eq!(m.info(b), AllocInfo::new());
    assert_eq!(m.info(a).alloc, 1);
}

#[test]
fn thread_read_is_idempotent() {
    let l = Layout::from_size_align(8, 8);
    let mut m = ThreadMonitor::new();
    let me: u64 = 9;
    m.monitor(me, l, AllocAction::Alloc);
    assert_eq!(m.info(me), m.info(me));
}

#[test]
fn stats_read_is_idempotent() {
    let l = Layout::from_size_align(8, 8);
    let m = StatsMonitor::new();
    m.monitor(l, AllocAction::Alloc);
    assert_eq!(m.info(), m.info());
}

#[test]
fn stats_monitor_starts_at_zero() {
    let m = StatsMonitor::new();
    assert_eq!(m.info(), AllocInfo::new());
}

#[test]
fn stats_overwrite_then_read_round_trips() {
    let m = StatsMonitor::new();
    let s = AllocInfo { alloc: 3, dealloc: 2, realloc: 1, bytes_alloc: 300, bytes_dealloc: 200 };
    m.write_info(s);
    assert_eq!(m.info(), s);
}

#[test]
fn stats_observe_accumulates_sequentially() {
    let l = Layout::from_size_align(16, 8);
    let m = StatsMonitor::new();
    let rounds: usize = 3;
    let per_round: usize = 4;
    for _ in 0..rounds {
        for _ in 0..per_round {
            m.monitor(l, AllocAction::Alloc);
        }
    }
    // With no concurrent interference every update lands, so the count
    // reaches the upper bound that holds for any interleaving.
    assert_eq!(m.info().alloc, rounds * per_round);
    assert_eq!(m.info().bytes_alloc, rounds * per_round * 16);
}

#[test]
fn stats_observe_read_write_gap_can_lose_updates() {
    // The shared aggregator's observe is read-then-overwrite under two
    // independent lock acquisitions. This replays the racy interleaving of
    // two observers: both read the same prior snapshot, each computes its
    // own update, and the second overwrite clobbers the first.
    let l = Layout::from_size_align(16, 8);
    let m = StatsMonitor::new();
    let first_read = m.info();
    let second_read = m.info();
    m.write_info(first_read.after_call(l, AllocAction::Alloc));
    m.write_info(second_read.after_call(l, AllocAction::Alloc));
    assert_eq!(m.info().alloc, 1);
    assert!(m.info().alloc < 2);
}

#[test]
fn saturating_sticks_at_the_largest_word() {
    let l = Layout::from_size_align(16, 8);
    let near_full = AllocInfo {
        alloc: usize::MAX,
        dealloc: 0,
        realloc: 0,
        bytes_alloc: usize::MAX - 10,
        bytes_dealloc: 0,
    };
    let s = near_full.saturating_after_call(l, AllocAction::Alloc);
    assert_eq!(s.alloc, usize::MAX);
    assert_eq!(s.bytes_alloc, usize::MAX);
    assert_eq!(s.dealloc, 0);
}

#[test]
fn saturating_agrees_with_exact_when_small() {
    let l = Layout::from_size_align(40, 8);
    let z = AllocInfo::new();
    assert_eq!(
        z.saturating_after_call(l, AllocAction::Alloc),
        z.after_call(l, AllocAction::Alloc)
    );
}

#[test]
fn thread_write_info_overwrites_only_that_slot() {
    let mut m = ThreadMonitor::new();
    let a: u64 = 5;
    let b: u64 = 6;
    let s = AllocInfo { alloc: 1, dealloc: 2, realloc: 3, bytes_alloc: 4, bytes_dealloc: 5 };
    m.write_info(a, s);
    assert_eq!(m.info(a), s);
    assert_eq!(m.info(b), AllocInfo::new());
}
