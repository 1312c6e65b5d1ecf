use vortex_layout::legacy_writer::{
    copy_stats, pruning_stats, LayoutStrategy, LegacyStatsLayoutOptions, LegacyStatsStrategy, LegacyStatsWrite, Performer, Role, Stat,
    WriteStep, WrittenLayout, DEFAULT_BLOCK_SIZE, DEFAULT_MAX_VARIABLE_LENGTH_STATISTICS_SIZE,
};
use vortex_layout::sequence::SequencePointer;

struct Fixed(u64);

impl LayoutStrategy for Fixed {
    fn spec_buffered_bytes(&self) -> u64 {
        self.0
    }

    fn buffered_bytes(&self) -> u64 {
        self.0
    }
}

fn path(p: SequencePointer) -> Vec<usize> {
    p.downgrade().path().clone()
}

#[test]
fn default_options() {
    let o = LegacyStatsLayoutOptions::default_with_parallelism(Some(6));
    assert_eq!(o.block_size, 8192);
    assert_eq!(o.block_size, DEFAULT_BLOCK_SIZE);
    assert_eq!(o.max_variable_length_statistics_size, 64);
    assert_eq!(o.max_variable_length_statistics_size, DEFAULT_MAX_VARIABLE_LENGTH_STATISTICS_SIZE);
    assert_eq!(o.concurrency, 6);
    assert_eq!(o.stats, pruning_stats());
    assert_eq!(o.stats, vec![Stat::Min, Stat::Max, Stat::Sum, Stat::NullCount, Stat::NaNCount]);
    let o = LegacyStatsLayoutOptions::default_with_parallelism(None);
    assert_eq!(o.concurrency, 1);
}

#[test]
fn buffered_bytes_adds_children() {
    let s = LegacyStatsStrategy::new(Fixed(10), Fixed(32), LegacyStatsLayoutOptions::default_with_parallelism(None));
    assert_eq!(s.buffered_bytes(), 42);
    let s = LegacyStatsStrategy::new(Fixed(u64::MAX), Fixed(2), LegacyStatsLayoutOptions::default_with_parallelism(None));
    assert_eq!(s.buffered_bytes(), 1);
    assert_eq!(s.child().0, u64::MAX);
    assert_eq!(s.stats().0, 2);
    assert_eq!(s.options().block_size, 8192);
}

#[test]
fn write_without_stats_returns_data_layout() {
    let s = LegacyStatsStrategy::new(Fixed(0), Fixed(0), LegacyStatsLayoutOptions::default_with_parallelism(None));
    let (mut w, step) = s.begin_write::<&str>(SequencePointer::root());
    match step {
        WriteStep::WriteData { via, eof, stats, max_variable_length_statistics_size, concurrency } => {
            assert_eq!(via, Role::Child);
            assert_eq!(path(eof), vec![0, 0]);
            assert_eq!(stats, pruning_stats());
            assert_eq!(max_variable_length_statistics_size, 64);
            assert_eq!(concurrency, 1);
        }
        _ => panic!("expected the data step"),
    }
    match w.on_data_written("data", None) {
        WriteStep::Finish(WrittenLayout::DataOnly(l)) => assert_eq!(l, "data"),
        _ => panic!("expected the data layout alone"),
    }
}

#[test]
fn write_with_stats_orders_children() {
    let options = LegacyStatsLayoutOptions {
        block_size: 100,
        stats: vec![Stat::Min, Stat::Max],
        max_variable_length_statistics_size: 8,
        concurrency: 3,
    };
    let (mut w, step) = LegacyStatsWrite::<u32>::start(&options, SequencePointer::root());
    let data_eof = match step {
        WriteStep::WriteData { via, eof, stats, max_variable_length_statistics_size, concurrency } => {
            assert_eq!(via, Role::Child);
            assert_eq!(stats, vec![Stat::Min, Stat::Max]);
            assert_eq!((max_variable_length_statistics_size, concurrency), (8, 3));
            eof.downgrade()
        }
        _ => panic!("expected the data step"),
    };
    let (stream_eof, eof) = match w.on_data_written(1, Some(vec![Stat::Min, Stat::Max])) {
        WriteStep::WriteZones { via, stream_eof, eof } => {
            assert_eq!(via, Role::Stats);
            (stream_eof.downgrade(), eof.downgrade())
        }
        _ => panic!("expected the zone step"),
    };
    assert_eq!(data_eof.path(), &vec![0, 0]);
    assert_eq!(stream_eof.path(), &vec![1, 0]);
    assert_eq!(eof.path(), &vec![2]);
    assert!(data_eof.precedes(&stream_eof));
    assert!(stream_eof.precedes(&eof));
    assert!(!eof.precedes(&data_eof));
    match w.on_zones_written(2) {
        WriteStep::Finish(WrittenLayout::Zoned { data, zones, block_size, present_stats }) => {
            assert_eq!((data, zones, block_size), (1, 2, 100));
            assert_eq!(present_stats, vec![Stat::Min, Stat::Max]);
        }
        _ => panic!("expected the zoned layout"),
    }
}

#[test]
fn sequence_pointer_operations() {
    let mut p = SequencePointer::root();
    let first = p.advance();
    assert_eq!(first.path(), &vec![0]);
    let child = p.split_off();
    assert_eq!(path(child), vec![1, 0]);
    let (a, b) = p.split();
    let a = a.downgrade();
    let b = b.downgrade();
    assert_eq!(a.path(), &vec![2, 0]);
    assert_eq!(b.path(), &vec![3]);
    assert!(first.precedes(&a));
    assert!(a.precedes(&b));
    assert!(!b.precedes(&a));
    assert!(!a.precedes(&a));
    let deeper = b.descend().downgrade();
    assert_eq!(deeper.path(), &vec![3, 0]);
}

#[test]
fn steps_are_performed_by_their_strategies() {
    let s = LegacyStatsStrategy::new(Fixed(7), Fixed(9), LegacyStatsLayoutOptions::default_with_parallelism(None));
    match s.performer(Role::Child) {
        Performer::Child(c) => assert_eq!(c.0, 7),
        Performer::Stats(_) => panic!("the data step belongs to the data strategy"),
    }
    match s.performer(Role::Stats) {
        Performer::Stats(z) => assert_eq!(z.0, 9),
        Performer::Child(_) => panic!("the zone step belongs to the zone-table strategy"),
    }
}

#[test]
fn copied_statistics_are_equal() {
    let stats = vec![Stat::NullCount, Stat::IsSorted, Stat::NullCount];
    assert_eq!(copy_stats(&stats), stats);
    assert_eq!(copy_stats(&Vec::new()), Vec::<Stat>::new());
}
