//! The event descriptor: what the operating system is told about one event.

use vstd::prelude::*;

verus! {

/// Read-format bit that asks for the total time the event was enabled.
pub const PERF_FORMAT_TOTAL_TIME_ENABLED: u64 = 1;

/// Read-format bit that asks for the total time the event was running.
pub const PERF_FORMAT_TOTAL_TIME_RUNNING: u64 = 2;

/// The read format every session asks for: both time totals next to the count,
/// so that a count taken under multiplexing can always be scaled.
pub const TIMING_READ_FORMAT: u64 = 3;

/// The flags of a descriptor, one named field each.
#[derive(Debug, Clone, Copy, PartialEq, Eq, Structural)]
pub struct EventFlags {
    /// The counter starts out stopped.
    pub disabled: bool,
    /// Counters of child tasks feed into this one.
    pub inherit: bool,
    /// The counter must always be on the hardware.
    pub pinned: bool,
    /// The counter wants the hardware unit to itself.
    pub exclusive: bool,
    /// Do not count in user mode.
    pub exclude_user: bool,
    /// Do not count in kernel mode.
    pub exclude_kernel: bool,
    /// Do not count in the hypervisor.
    pub exclude_hv: bool,
    /// Do not count in the host.
    pub exclude_host: bool,
    /// Do not count in a guest.
    pub exclude_guest: bool,
    /// `sample` of the descriptor is a frequency, not a period.
    pub freq: bool,
    /// How precisely a sample's instruction pointer is wanted.
    pub precise_ip: u8,
}

/// The description of one event, as the encoding library resolved it from a name.
///
/// It is valid only on the host on which it was resolved.
#[derive(Debug, Clone, Copy, PartialEq, Eq, Structural)]
pub struct EventDescriptor {
    /// The kind of event source.
    pub event_type: u32,
    /// The event selector.
    pub config: u64,
    /// The first extension word of the selector.
    pub config1: u64,
    /// The sampling period, or the sampling frequency where `flags.freq` is set.
    pub sample: u64,
    /// Which values a read returns next to the count.
    pub read_format: u64,
    pub flags: EventFlags,
}

impl EventDescriptor {
    /// The descriptor as a new session takes it over: it asks for both time
    /// totals, starts out stopped, inherits as the caller chose, and counts
    /// kernel mode too. Everything else is as the encoding library left it.
    pub open spec fn prepared(self, inherit: bool) -> EventDescriptor {
        EventDescriptor {
            read_format: TIMING_READ_FORMAT,
            flags: EventFlags {
                disabled: true,
                inherit: inherit,
                exclude_kernel: false,
                ..self.flags
            },
            ..self
        }
    }

    /// What holds of the descriptor of every session: it asks for both time
    /// totals and starts out stopped.
    pub open spec fn is_prepared(self) -> bool {
        self.read_format == TIMING_READ_FORMAT && self.flags.disabled
    }

    /// Computes `prepared`.
    pub fn prepare(self, inherit: bool) -> (d: EventDescriptor)
        ensures
            d == self.prepared(inherit),
            d.is_prepared(),
    {
        let read_format: u64 = PERF_FORMAT_TOTAL_TIME_ENABLED | PERF_FORMAT_TOTAL_TIME_RUNNING;
        assert(1u64 | 2u64 == 3u64) by (bit_vector);
        let mut d = self;
        d.read_format = read_format;
        d.flags.disabled = true;
        d.flags.inherit = inherit;
        d.flags.exclude_kernel = false;
        d
    }

    /// The descriptor with its exclude-kernel flag replaced.
    pub open spec fn with_exclude_kernel(self, on: bool) -> EventDescriptor {
        EventDescriptor { flags: EventFlags { exclude_kernel: on, ..self.flags }, ..self }
    }
}

/// The read format of a prepared descriptor holds both time bits and no other.
pub proof fn lemma_timing_read_format()
    ensures
        TIMING_READ_FORMAT == PERF_FORMAT_TOTAL_TIME_ENABLED | PERF_FORMAT_TOTAL_TIME_RUNNING,
        TIMING_READ_FORMAT & PERF_FORMAT_TOTAL_TIME_ENABLED == PERF_FORMAT_TOTAL_TIME_ENABLED,
        TIMING_READ_FORMAT & PERF_FORMAT_TOTAL_TIME_RUNNING == PERF_FORMAT_TOTAL_TIME_RUNNING,
        TIMING_READ_FORMAT & !(PERF_FORMAT_TOTAL_TIME_ENABLED | PERF_FORMAT_TOTAL_TIME_RUNNING) == 0,
{
    assert(1u64 | 2u64 == 3u64) by (bit_vector);
    assert(3u64 & 1u64 == 1u64) by (bit_vector);
    assert(3u64 & 2u64 == 2u64) by (bit_vector);
    assert(3u64 & !(1u64 | 2u64) == 0u64) by (bit_vector);
}

} // verus!
