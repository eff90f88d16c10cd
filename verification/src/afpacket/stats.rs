//! Ring statistics: the two records that the kernel fills in, and the one
//! value that both decode to.

use crate::afpacket::kernel::{field, field_of};
use vstd::prelude::*;
use vstd::std_specs::convert::FromSpecImpl;

verus! {

/// The number of 32-bit counters in the older statistics record.
pub const STATS_WORDS: usize = 2;

/// The number of 32-bit counters in the newer statistics record.
pub const STATS_V3_WORDS: usize = 3;

/// The counters of a ring since they were last read. Reading them resets
/// them in the kernel, so two reads never report the same packet twice.
#[derive(Debug, Clone, Copy, PartialEq, Eq, Structural)]
pub struct Statistics {
    pub packets: u32,
    pub drops: u32,
    /// Zero unless the ring runs under version 3.
    pub queue_freezes: u32,
}

/// The statistics record of version 3: three 32-bit counters, in this order.
#[derive(Debug, Clone, Copy, PartialEq, Eq, Structural)]
pub struct TPacketV3Stats {
    pub tp_packets: u32,
    pub tp_drops: u32,
    pub tp_freeze_q_cnt: u32,
}

/// The statistics record of versions 1 and 2: two 32-bit counters, in this
/// order.
#[derive(Debug, Clone, Copy, PartialEq, Eq, Structural)]
pub struct TPacketStats {
    pub tp_packets: u32,
    pub tp_drops: u32,
}

impl Default for TPacketV3Stats {
    fn default() -> (stats: TPacketV3Stats)
        ensures
            stats == (TPacketV3Stats { tp_packets: 0, tp_drops: 0, tp_freeze_q_cnt: 0 }),
    {
        TPacketV3Stats { tp_packets: 0, tp_drops: 0, tp_freeze_q_cnt: 0 }
    }
}

impl Default for TPacketStats {
    fn default() -> (stats: TPacketStats)
        ensures
            stats == (TPacketStats { tp_packets: 0, tp_drops: 0 }),
    {
        TPacketStats { tp_packets: 0, tp_drops: 0 }
    }
}

impl TPacketV3Stats {
    /// The record whose counters are the first three fields of `words`, in
    /// the order in which the kernel writes them. A counter that `words`
    /// does not reach is zero.
    pub open spec fn of_words(words: Seq<u32>) -> TPacketV3Stats {
        TPacketV3Stats {
            tp_packets: field(words, 0),
            tp_drops: field(words, 1),
            tp_freeze_q_cnt: field(words, 2),
        }
    }

    /// Reads the record out of the fields that the kernel filled.
    pub fn from_words(words: &[u32]) -> (stats: TPacketV3Stats)
        ensures
            stats == Self::of_words(words@),
    {
        TPacketV3Stats {
            tp_packets: field_of(words, 0),
            tp_drops: field_of(words, 1),
            tp_freeze_q_cnt: field_of(words, 2),
        }
    }
}

impl TPacketStats {
    /// The record whose counters are the first two fields of `words`, in
    /// the order in which the kernel writes them. A counter that `words`
    /// does not reach is zero.
    pub open spec fn of_words(words: Seq<u32>) -> TPacketStats {
        TPacketStats { tp_packets: field(words, 0), tp_drops: field(words, 1) }
    }

    /// Reads the record out of the fields that the kernel filled.
    pub fn from_words(words: &[u32]) -> (stats: TPacketStats)
        ensures
            stats == Self::of_words(words@),
    {
        TPacketStats { tp_packets: field_of(words, 0), tp_drops: field_of(words, 1) }
    }
}

impl From<TPacketV3Stats> for Statistics {
    fn from(stats: TPacketV3Stats) -> (decoded: Statistics)
        ensures
            decoded == (Statistics {
                packets: stats.tp_packets,
                drops: stats.tp_drops,
                queue_freezes: stats.tp_freeze_q_cnt,
            }),
    {
        Statistics {
            packets: stats.tp_packets,
            drops: stats.tp_drops,
            queue_freezes: stats.tp_freeze_q_cnt,
        }
    }
}

impl FromSpecImpl<TPacketV3Stats> for Statistics {
    open spec fn obeys_from_spec() -> bool {
        true
    }

    /// Each counter is copied as it is.
    open spec fn from_spec(stats: TPacketV3Stats) -> Statistics {
        Statistics {
            packets: stats.tp_packets,
            drops: stats.tp_drops,
            queue_freezes: stats.tp_freeze_q_cnt,
        }
    }
}

impl From<TPacketStats> for Statistics {
    fn from(stats: TPacketStats) -> (decoded: Statistics)
        ensures
            decoded == (Statistics {
                packets: stats.tp_packets,
                drops: stats.tp_drops,
                queue_freezes: 0,
            }),
    {
        Statistics { packets: stats.tp_packets, drops: stats.tp_drops, queue_freezes: 0 }
    }
}

impl FromSpecImpl<TPacketStats> for Statistics {
    open spec fn obeys_from_spec() -> bool {
        true
    }

    /// The two counters are copied as they are; the older record counts no
    /// queue freezes, so that counter is zero.
    open spec fn from_spec(stats: TPacketStats) -> Statistics {
        Statistics { packets: stats.tp_packets, drops: stats.tp_drops, queue_freezes: 0 }
    }
}

} // verus!
