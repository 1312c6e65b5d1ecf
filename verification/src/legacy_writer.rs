//! The writer of legacy zoned-statistics layouts: its options, its combination
//! of a data strategy with a zone-table strategy, and the order of the steps that
//! writing a stream takes.
//!
//! Writing a stream runs as a state machine. The caller performs each step that
//! the machine returns (writing the data child, then, when statistics were
//! collected, the zone table) and hands back what came of it. The data child is
//! written under a pointer split off first, so that everything it writes comes
//! before the zone table, which in turn comes before what the zone child writes.

use vstd::prelude::*;

use crate::sequence::{lex_less, next_sibling, reachable_from, lemma_split_off_orders, SequencePointer};

verus! {

/// A statistic that can be recorded for every zone of a column.
#[derive(Clone, Copy, Debug, PartialEq, Eq, Structural)]
pub enum Stat {
    IsConstant,
    IsSorted,
    IsStrictSorted,
    Max,
    Min,
    Sum,
    NullCount,
    UncompressedSizeInBytes,
    NaNCount,
}

/// The statistics used to prune zones: minimum, maximum, sum, null count and NaN count.
pub open spec fn spec_pruning_stats() -> Seq<Stat> {
    seq![Stat::Min, Stat::Max, Stat::Sum, Stat::NullCount, Stat::NaNCount]
}

/// The statistics used to prune zones.
pub fn pruning_stats() -> (r: Vec<Stat>)
    ensures
        r@ == spec_pruning_stats(),
{
    let mut r: Vec<Stat> = Vec::new();
    r.push(Stat::Min);
    r.push(Stat::Max);
    r.push(Stat::Sum);
    r.push(Stat::NullCount);
    r.push(Stat::NaNCount);
    assert(r@ =~= spec_pruning_stats());
    r
}

/// A copy of a list of statistics.
pub fn copy_stats(stats: &Vec<Stat>) -> (r: Vec<Stat>)
    ensures
        r@ == stats@,
{
    let mut r: Vec<Stat> = Vec::new();
    let mut i: usize = 0;
    while i < stats.len()
        invariant
            i <= stats.len(),
            r@ == stats@.take(i as int),
        decreases stats.len() - i,
    {
        r.push(stats[i]);
        i += 1;
        assert(r@ =~= stats@.take(i as int));
    }
    assert(stats@.take(stats.len() as int) =~= stats@);
    r
}

/// Number of rows in each zone unless configured otherwise.
pub const DEFAULT_BLOCK_SIZE: usize = 8192;

/// Byte length to which variable-length minima and maxima are cut unless configured otherwise.
pub const DEFAULT_MAX_VARIABLE_LENGTH_STATISTICS_SIZE: usize = 64;

/// Configuration for writing the legacy zoned-statistics layout.
pub struct LegacyStatsLayoutOptions {
    /// The number of rows represented by each zone (never zero).
    pub block_size: usize,
    /// The statistics to collect for each zone.
    pub stats: Vec<Stat>,
    /// Maximum byte length of variable-length min/max statistics.
    pub max_variable_length_statistics_size: usize,
    /// Number of zones whose statistics may be computed concurrently (never zero).
    pub concurrency: usize,
}

impl LegacyStatsLayoutOptions {
    /// Block size and concurrency are not zero.
    pub open spec fn wf(&self) -> bool {
        self.block_size > 0 && self.concurrency > 0
    }

    /// The default options, given the parallelism that the machine offers
    /// (`None` when it could not be determined, in which case one zone at a time
    /// is computed): blocks of `DEFAULT_BLOCK_SIZE` rows, the pruning statistics,
    /// `DEFAULT_MAX_VARIABLE_LENGTH_STATISTICS_SIZE` bytes for variable-length
    /// statistics.
    pub fn default_with_parallelism(available_parallelism: Option<usize>) -> (o: LegacyStatsLayoutOptions)
        requires
            available_parallelism != Some(0usize),
        ensures
            o.wf(),
            o.block_size == DEFAULT_BLOCK_SIZE,
            o.stats@ == spec_pruning_stats(),
            o.max_variable_length_statistics_size == DEFAULT_MAX_VARIABLE_LENGTH_STATISTICS_SIZE,
            o.concurrency == match available_parallelism {
                Some(n) => n,
                None => 1usize,
            },
    {
        let concurrency = match available_parallelism {
            Some(n) => n,
            None => 1,
        };
        LegacyStatsLayoutOptions {
            block_size: DEFAULT_BLOCK_SIZE,
            stats: pruning_stats(),
            max_variable_length_statistics_size: DEFAULT_MAX_VARIABLE_LENGTH_STATISTICS_SIZE,
            concurrency,
        }
    }
}

/// A strategy that lays out a stream of arrays.
pub trait LayoutStrategy {
    /// The number of bytes this strategy holds buffered and not yet written.
    spec fn spec_buffered_bytes(&self) -> u64;

    /// The number of bytes this strategy holds buffered and not yet written.
    fn buffered_bytes(&self) -> (r: u64)
        ensures
            r == self.spec_buffered_bytes(),
    ;
}

/// The sum of two byte counts, wrapping around at 2^64.
pub open spec fn wrapped_sum(a: u64, b: u64) -> u64 {
    if a + b > u64::MAX {
        (a + b - 0x1_0000_0000_0000_0000int) as u64
    } else {
        (a + b) as u64
    }
}

/// A layout strategy that writes the data through one child strategy and a table
/// of per-zone statistics through another.
pub struct LegacyStatsStrategy<C, S> {
    child: C,
    stats: S,
    options: LegacyStatsLayoutOptions,
}

impl<C, S> LegacyStatsStrategy<C, S> {
    /// The options of a strategy have non-zero block size and concurrency.
    #[verifier::type_invariant]
    spec fn inv(self) -> bool {
        self.options.wf()
    }

    pub closed spec fn spec_child(&self) -> C {
        self.child
    }

    pub closed spec fn spec_stats(&self) -> S {
        self.stats
    }

    pub closed spec fn spec_options(&self) -> LegacyStatsLayoutOptions {
        self.options
    }

    /// A legacy-statistics writer with separate strategies for the data and for
    /// the zone table.
    pub fn new(child: C, stats: S, options: LegacyStatsLayoutOptions) -> (r: LegacyStatsStrategy<C, S>)
        requires
            options.wf(),
        ensures
            r.spec_child() == child,
            r.spec_stats() == stats,
            r.spec_options() == options,
    {
        LegacyStatsStrategy { child, stats, options }
    }

    /// The strategy that writes the data.
    pub fn child(&self) -> (r: &C)
        ensures
            *r == self.spec_child(),
    {
        &self.child
    }

    /// The strategy that writes the zone table.
    pub fn stats(&self) -> (r: &S)
        ensures
            *r == self.spec_stats(),
    {
        &self.stats
    }

    /// The options this writer was made with.
    pub fn options(&self) -> (r: &LegacyStatsLayoutOptions)
        ensures
            *r == self.spec_options(),
            r.wf(),
    {
        proof {
            use_type_invariant(self);
        }
        &self.options
    }

    /// Starts writing a stream whose parts are ordered under `eof`.
    pub fn begin_write<L>(&self, eof: SequencePointer) -> (r: (LegacyStatsWrite<L>, WriteStep<L>))
        requires
            eof@.len() >= 1,
            eof@.last() + 2 <= usize::MAX,
        ensures
            r.0.awaiting_data(),
            r.0.spec_block_size() == self.spec_options().block_size,
            r.0.spec_remaining() == next_sibling(eof@),
            r.1 matches WriteStep::WriteData { via, eof: data_eof, stats, max_variable_length_statistics_size, concurrency }
                && via == Role::Child && data_eof@ == eof@.push(0) && stats@ == self.spec_options().stats@
                && max_variable_length_statistics_size == self.spec_options().max_variable_length_statistics_size
                && concurrency == self.spec_options().concurrency,
    {
        proof {
            use_type_invariant(self);
        }
        LegacyStatsWrite::start(&self.options, eof)
    }
}

impl<C: LayoutStrategy, S: LayoutStrategy> LayoutStrategy for LegacyStatsStrategy<C, S> {
    open spec fn spec_buffered_bytes(&self) -> u64 {
        wrapped_sum(self.spec_child().spec_buffered_bytes(), self.spec_stats().spec_buffered_bytes())
    }

    /// The bytes buffered by the data strategy plus those buffered by the
    /// zone-table strategy (wrapping around at 2^64).
    fn buffered_bytes(&self) -> (r: u64)
        ensures
            r as int == (self.spec_child().spec_buffered_bytes() as int
                + self.spec_stats().spec_buffered_bytes() as int) % 0x1_0000_0000_0000_0000int,
    {
        proof {
            lemma_buffered_bytes_is_sum(self);
        }
        let a = self.child.buffered_bytes();
        let b = self.stats.buffered_bytes();
        a.wrapping_add(b)
    }
}

/// Which of the two strategies of a `LegacyStatsStrategy` performs a step.
#[derive(Clone, Copy, Debug, PartialEq, Eq, Structural)]
pub enum Role {
    /// The strategy that writes the data.
    Child,
    /// The strategy that writes the zone table.
    Stats,
}

/// The strategy that performs a step.
pub enum Performer<'a, C, S> {
    Child(&'a C),
    Stats(&'a S),
}

impl<C, S> LegacyStatsStrategy<C, S> {
    /// The strategy that performs a step of role `role`: the data strategy for
    /// `Role::Child`, the zone-table strategy for `Role::Stats`.
    pub fn performer(&self, role: Role) -> (r: Performer<'_, C, S>)
        ensures
            role == Role::Child ==> (r matches Performer::Child(c) && *c == self.spec_child()),
            role == Role::Stats ==> (r matches Performer::Stats(z) && *z == self.spec_stats()),
    {
        match role {
            Role::Child => Performer::Child(&self.child),
            Role::Stats => Performer::Stats(&self.stats),
        }
    }
}

/// The bytes a legacy-statistics strategy holds buffered are those of its data
/// strategy plus those of its zone-table strategy, modulo 2^64, whatever the two are.
pub proof fn lemma_buffered_bytes_is_sum<C: LayoutStrategy, S: LayoutStrategy>(s: &LegacyStatsStrategy<C, S>)
    ensures
        s.spec_buffered_bytes() as int == (s.spec_child().spec_buffered_bytes() as int
            + s.spec_stats().spec_buffered_bytes() as int) % 0x1_0000_0000_0000_0000int,
{
    let a = s.spec_child().spec_buffered_bytes() as int;
    let b = s.spec_stats().spec_buffered_bytes() as int;
    let m = 0x1_0000_0000_0000_0000int;
    if a + b > u64::MAX {
        assert((a + b) % m == a + b - m) by {
            vstd::arithmetic::div_mod::lemma_fundamental_div_mod_converse(a + b, m, 1, a + b - m);
        }
    } else {
        assert((a + b) % m == a + b) by {
            vstd::arithmetic::div_mod::lemma_small_mod((a + b) as nat, m as nat);
        }
    }
}

/// What was written: the data layout alone, or the data layout with its zone table.
pub enum WrittenLayout<L> {
    /// No statistics were collected.
    DataOnly(L),
    /// The data layout, the zone table's layout, the rows per zone and the
    /// statistics that the zone table holds. Assembling these into the stored
    /// layout, which checks them and can fail, is left to the caller.
    Zoned { data: L, zones: L, block_size: usize, present_stats: Vec<Stat> },
}

/// The next step of writing a stream.
pub enum WriteStep<L> {
    /// Write the data stream through the strategy `via` (always the data strategy,
    /// `Role::Child`) under `eof`, passing the chunks on unchanged and collecting,
    /// with up to `concurrency` chunks computed at once, the statistics `stats` (with
    /// variable-length minima and maxima cut to `max_variable_length_statistics_size`
    /// bytes) of
    /// statistics of every chunk in stream order; then report the data layout and
    /// the statistics collected (`LegacyStatsWrite::on_data_written`).
    WriteData {
        via: Role,
        eof: SequencePointer,
        stats: Vec<Stat>,
        max_variable_length_statistics_size: usize,
        concurrency: usize,
    },
    /// Write the zone table through the strategy `via` (always the zone-table
    /// strategy, `Role::Stats`): the table's stream is
    /// sequenced under `stream_eof` and the strategy writes under `eof`; then report
    /// the zone layout (`LegacyStatsWrite::on_zones_written`).
    WriteZones { via: Role, stream_eof: SequencePointer, eof: SequencePointer },
    /// The layout is complete.
    Finish(WrittenLayout<L>),
}

enum Phase<L> {
    AwaitingData { eof: SequencePointer },
    AwaitingZones { data: L, present_stats: Vec<Stat> },
    Finished,
}

/// The state of writing one stream.
pub struct LegacyStatsWrite<L> {
    phase: Phase<L>,
    block_size: usize,
}

impl<L> LegacyStatsWrite<L> {
    /// The data stream is to be written; the remaining pointer can still split twice.
    pub closed spec fn awaiting_data(&self) -> bool {
        &&& self.phase matches Phase::AwaitingData { eof }
        &&& eof@.len() >= 1
        &&& eof@.last() < usize::MAX
    }

    /// The zone table is to be written.
    pub closed spec fn awaiting_zones(&self) -> bool {
        self.phase is AwaitingZones
    }

    /// The layout is complete.
    pub closed spec fn finished(&self) -> bool {
        self.phase is Finished
    }

    /// The pointer held back for what follows the data.
    pub closed spec fn spec_remaining(&self) -> Seq<usize> {
        match self.phase {
            Phase::AwaitingData { eof } => eof@,
            _ => Seq::empty(),
        }
    }

    /// The data layout written so far.
    pub closed spec fn spec_data(&self) -> L {
        match self.phase {
            Phase::AwaitingZones { data, .. } => data,
            _ => arbitrary(),
        }
    }

    /// The statistics that the zone table holds.
    pub closed spec fn spec_present_stats(&self) -> Seq<Stat> {
        match self.phase {
            Phase::AwaitingZones { present_stats, .. } => present_stats@,
            _ => Seq::empty(),
        }
    }

    pub closed spec fn spec_block_size(&self) -> usize {
        self.block_size
    }

    /// The phases of a write exclude one another: once finished it awaits neither
    /// the data nor the zone table, and it never awaits both.
    pub proof fn lemma_phases_exclusive(&self)
        ensures
            self.finished() ==> !self.awaiting_data() && !self.awaiting_zones(),
            self.awaiting_data() ==> !self.awaiting_zones(),
    {
    }

    /// Starts writing with `options`: the data goes under a pointer split off from
    /// `eof`, collecting the statistics and the byte limit of `options` with the
    /// concurrency of `options`; the rest of `eof` is kept for the zone table.
    pub fn start(options: &LegacyStatsLayoutOptions, eof: SequencePointer) -> (r: (LegacyStatsWrite<L>, WriteStep<L>))
        requires
            options.wf(),
            eof@.len() >= 1,
            eof@.last() + 2 <= usize::MAX,
        ensures
            r.0.awaiting_data(),
            r.0.spec_block_size() == options.block_size,
            r.0.spec_remaining() == next_sibling(eof@),
            r.1 matches WriteStep::WriteData { via, eof: data_eof, stats, max_variable_length_statistics_size, concurrency }
                && via == Role::Child && data_eof@ == eof@.push(0) && stats@ == options.stats@
                && max_variable_length_statistics_size == options.max_variable_length_statistics_size
                && concurrency == options.concurrency,
    {
        let mut eof = eof;
        let data_eof = eof.split_off();
        let stats = copy_stats(&options.stats);
        (
            LegacyStatsWrite { phase: Phase::AwaitingData { eof }, block_size: options.block_size },
            WriteStep::WriteData {
                via: Role::Child,
                eof: data_eof,
                stats,
                max_variable_length_statistics_size: options.max_variable_length_statistics_size,
                concurrency: options.concurrency,
            },
        )
    }

    /// The data was written as `data`; `zone_stats` holds the statistics that the
    /// zone table records, or `None` when no statistics were collected. Without
    /// statistics the data layout is the result; otherwise the zone table is written
    /// next, its stream under a pointer split off from the remaining one and the
    /// zone strategy under what is left.
    pub fn on_data_written(&mut self, data: L, zone_stats: Option<Vec<Stat>>) -> (step: WriteStep<L>)
        requires
            old(self).awaiting_data(),
        ensures
            final(self).spec_block_size() == old(self).spec_block_size(),
            match zone_stats {
                None => {
                    &&& final(self).finished()
                    &&& step == WriteStep::Finish(WrittenLayout::DataOnly(data))
                },
                Some(present) => {
                    &&& final(self).awaiting_zones()
                    &&& final(self).spec_data() == data
                    &&& final(self).spec_present_stats() == present@
                    &&& step matches WriteStep::WriteZones { via, stream_eof, eof }
                    &&& via == Role::Stats
                    &&& stream_eof@ == old(self).spec_remaining().push(0)
                    &&& eof@ == next_sibling(old(self).spec_remaining())
                },
            },
    {
        let mut phase = Phase::Finished;
        std::mem::swap(&mut phase, &mut self.phase);
        match phase {
            Phase::AwaitingData { eof } => {
                match zone_stats {
                    None => WriteStep::Finish(WrittenLayout::DataOnly(data)),
                    Some(present_stats) => {
                        let mut eof = eof;
                        let stream_eof = eof.split_off();
                        self.phase = Phase::AwaitingZones { data, present_stats };
                        WriteStep::WriteZones { via: Role::Stats, stream_eof, eof }
                    },
                }
            },
            // Not reached: the precondition fixes the phase.
            _ => WriteStep::Finish(WrittenLayout::DataOnly(data)),
        }
    }

    /// The zone table was written as `zones`: the result is the zoned layout of the
    /// data, the zone table, the block size and the statistics present. Building the
    /// stored layout from these parts, which may refuse them, is the caller's.
    pub fn on_zones_written(&mut self, zones: L) -> (step: WriteStep<L>)
        requires
            old(self).awaiting_zones(),
        ensures
            final(self).finished(),
            step matches WriteStep::Finish(WrittenLayout::Zoned { data, zones: z, block_size, present_stats })
                && data == old(self).spec_data() && z == zones && block_size == old(self).spec_block_size()
                && present_stats@ == old(self).spec_present_stats(),
    {
        let mut phase = Phase::Finished;
        std::mem::swap(&mut phase, &mut self.phase);
        match phase {
            Phase::AwaitingZones { data, present_stats } => {
                WriteStep::Finish(WrittenLayout::Zoned { data, zones, block_size: self.block_size, present_stats })
            },
            // Not reached: the precondition fixes the phase.
            _ => WriteStep::Finish(WrittenLayout::DataOnly(zones)),
        }
    }
}

/// Of a write started under `eof`: every identifier written by the data strategy
/// comes before every identifier of the zone table's stream, which come before
/// every identifier written by the zone-table strategy. The bound on the last
/// counter of `eof` is the one under which the writer can split it twice.
pub proof fn lemma_data_precedes_zones(eof: Seq<usize>, data_id: Seq<usize>, table_id: Seq<usize>, zone_id: Seq<usize>)
    requires
        eof.len() >= 1,
        eof.last() + 2 <= usize::MAX,
        reachable_from(eof.push(0), data_id),
        reachable_from(next_sibling(eof).push(0), table_id),
        reachable_from(next_sibling(next_sibling(eof)), zone_id),
    ensures
        lex_less(data_id, table_id),
        lex_less(table_id, zone_id),
        lex_less(data_id, zone_id),
{
    let rest = next_sibling(eof);
    assert(rest.len() == eof.len());
    assert(rest.last() == eof.last() + 1);
    lemma_split_off_orders(rest, table_id, zone_id);
    lemma_split_off_orders(eof, data_id, table_id);
    lemma_split_off_orders(eof, data_id, zone_id);
}

} // verus!
