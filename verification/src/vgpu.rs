//! vGPU scheduler record assemblers.
//!
//! The scheduler records carry a payload whose shape — not just its value —
//! depends on a sibling mode field: when adaptive round-robin scheduling is
//! active the same eight bytes of storage hold an averaging factor and a
//! timeslice, otherwise a timeslice alone. The selector here branches on the
//! mode before reading any payload byte.

use crate::bytes::{spec_u32_le, u32_pair_to_le, read_u32_le};
use crate::error::NvmlError;
use crate::values::RawUnion;
use vstd::prelude::*;

verus! {

/// The mode value with which the boundary marks adaptive round-robin
/// scheduling active, selecting the extended payload shape.
pub const ARR_MODE_ACTIVE: u32 = 2;

/// The raw scheduler capabilities record.
#[derive(Debug, Clone, PartialEq, Eq)]
pub struct RawVgpuSchedulerCapabilities {
    pub supported_schedulers: Vec<u32>,
    pub max_timeslice: u32,
    pub min_timeslice: u32,
    pub is_arr_mode_supported: u32,
    pub max_frequency_for_arr: u32,
    pub min_frequency_for_arr: u32,
    pub max_avg_factor_for_arr: u32,
    pub min_avg_factor_for_arr: u32,
}

/// vGPU scheduler capabilities.
#[derive(Debug, Clone, PartialEq, Eq)]
pub struct VgpuSchedulerCapabilities {
    /// Whether adaptive round-robin mode is supported.
    pub is_arr_mode_supported: bool,
    /// Maximum averaging factor for adaptive round-robin mode.
    pub max_avg_factor_for_arr: u32,
    /// Maximum frequency for adaptive round-robin mode.
    pub max_freq_for_arr: u32,
    /// Maximum timeslice value in ns.
    pub max_time_slice: u32,
    /// Minimum averaging factor for adaptive round-robin mode.
    pub min_avg_factor_for_arr: u32,
    /// Minimum frequency for adaptive round-robin mode.
    pub min_freq_for_arr: u32,
    /// Minimum timeslice value in ns.
    pub min_time_slice: u32,
    /// The supported scheduler policies.
    pub supported_schedulers: Vec<u32>,
}

impl VgpuSchedulerCapabilities {
    /// Decodes a raw capabilities record: any nonzero support flag counts as
    /// supported; the scheduler list carries over in full.
    pub fn from_c(raw: &RawVgpuSchedulerCapabilities) -> (r: VgpuSchedulerCapabilities)
        ensures
            r.is_arr_mode_supported == (raw.is_arr_mode_supported > 0),
            r.max_avg_factor_for_arr == raw.max_avg_factor_for_arr,
            r.max_freq_for_arr == raw.max_frequency_for_arr,
            r.max_time_slice == raw.max_timeslice,
            r.min_avg_factor_for_arr == raw.min_avg_factor_for_arr,
            r.min_freq_for_arr == raw.min_frequency_for_arr,
            r.min_time_slice == raw.min_timeslice,
            r.supported_schedulers@ == raw.supported_schedulers@,
    {
        let n: usize = raw.supported_schedulers.len();
        let mut supported_schedulers: Vec<u32> = Vec::new();
        let mut i: usize = 0;
        while i < n
            invariant
                0 <= i <= n,
                n == raw.supported_schedulers@.len(),
                supported_schedulers@ == raw.supported_schedulers@.take(i as int),
            decreases n - i,
        {
            supported_schedulers.push(raw.supported_schedulers[i]);
            proof {
                assert(supported_schedulers@ =~= raw.supported_schedulers@.take(i + 1));
            }
            i = i + 1;
        }
        proof {
            assert(supported_schedulers@ =~= raw.supported_schedulers@);
        }
        VgpuSchedulerCapabilities {
            is_arr_mode_supported: raw.is_arr_mode_supported > 0,
            max_avg_factor_for_arr: raw.max_avg_factor_for_arr,
            max_freq_for_arr: raw.max_frequency_for_arr,
            max_time_slice: raw.max_timeslice,
            min_avg_factor_for_arr: raw.min_avg_factor_for_arr,
            min_freq_for_arr: raw.min_frequency_for_arr,
            min_time_slice: raw.min_timeslice,
            supported_schedulers,
        }
    }
}

/// The raw vGPU version range record.
#[derive(Debug, Clone, Copy, PartialEq, Eq, Structural)]
pub struct RawVgpuVersion {
    pub min_version: u32,
    pub max_version: u32,
}

/// A vGPU version range.
#[derive(Debug, Clone, Copy, PartialEq, Eq, Structural)]
pub struct VgpuVersion {
    /// Minimum vGPU version.
    pub min: u32,
    /// Maximum vGPU version.
    pub max: u32,
}

impl VgpuVersion {
    /// Decodes a raw version range; both bounds carry over unchanged.
    pub fn from_c(raw: &RawVgpuVersion) -> (r: VgpuVersion)
        ensures
            r.min == raw.min_version,
            r.max == raw.max_version,
    {
        VgpuVersion { min: raw.min_version, max: raw.max_version }
    }

    /// Re-encodes the range for the boundary; both bounds carry over
    /// unchanged.
    pub fn as_c(&self) -> (r: RawVgpuVersion)
        ensures
            r.min_version == self.min,
            r.max_version == self.max,
    {
        RawVgpuVersion { min_version: self.min, max_version: self.max }
    }
}

/// Scheduler parameters as decoded from the mode-dependent payload.
#[derive(Debug, Clone, Copy, PartialEq, Eq, Structural)]
pub struct VgpuSchedulerParams {
    /// The averaging factor; present only when the mode field says adaptive
    /// round-robin scheduling is active.
    pub avg_factor: Option<u32>,
    /// The timeslice in ns.
    pub timeslice: u32,
}

/// The parameters stored in eight bytes of payload storage when read under
/// the given scheduler mode. Only `ARR_MODE_ACTIVE` selects the extended
/// shape (averaging factor, then timeslice); every other mode value falls
/// back to the base shape (timeslice alone), since the boundary defines no
/// explicit "unknown" arm for this field — a documented ambiguity kept as
/// found rather than turned into an error.
pub open spec fn spec_sched_params(arr_mode: u32, b: Seq<u8>) -> VgpuSchedulerParams {
    if arr_mode == ARR_MODE_ACTIVE {
        VgpuSchedulerParams {
            avg_factor: Some(spec_u32_le(b, 0) as u32),
            timeslice: spec_u32_le(b, 4) as u32,
        }
    } else {
        VgpuSchedulerParams { avg_factor: None, timeslice: spec_u32_le(b, 0) as u32 }
    }
}

impl VgpuSchedulerParams {
    /// Reads the payload shape selected by `arr_mode` out of `storage`. The
    /// mode is inspected before any payload byte.
    pub fn from_mode_and_union(arr_mode: u32, storage: &RawUnion) -> (r: VgpuSchedulerParams)
        requires
            storage.wf(),
        ensures
            r == spec_sched_params(arr_mode, storage.bytes@),
    {
        if arr_mode == ARR_MODE_ACTIVE {
            VgpuSchedulerParams {
                avg_factor: Some(read_u32_le(&storage.bytes, 0)),
                timeslice: read_u32_le(&storage.bytes, 4),
            }
        } else {
            VgpuSchedulerParams { avg_factor: None, timeslice: read_u32_le(&storage.bytes, 0) }
        }
    }
}

/// The raw scheduler log entry record.
#[derive(Debug, Clone, Copy, PartialEq, Eq, Structural)]
pub struct RawVgpuSchedulerLogEntry {
    pub timestamp: u64,
    pub time_run_total: u64,
    pub time_run: u64,
    pub sw_runlist_id: u32,
    pub target_time_slice: u64,
    pub cumulative_preemption_time: u64,
}

/// One vGPU scheduler log entry.
#[derive(Debug, Clone, Copy, PartialEq, Eq, Structural)]
pub struct VgpuSchedulerLogEntry {
    /// Timestamp when the software runlist was preempted, in ns.
    pub timestamp: u64,
    /// Total time this runlist has run, in ns.
    pub time_run_total: u64,
    /// Time this runlist ran before preemption, in ns.
    pub time_run: u64,
    /// Runlist ID.
    pub sw_runlist_id: u32,
    /// Timeslice after deduction.
    pub target_time_slice: u64,
    /// Preemption time for this runlist, in ns.
    pub cumulative_preemption_time: u64,
}

/// What decoding one raw log entry yields: every field carried over
/// unchanged.
pub open spec fn spec_log_entry(raw: RawVgpuSchedulerLogEntry) -> VgpuSchedulerLogEntry {
    VgpuSchedulerLogEntry {
        timestamp: raw.timestamp,
        time_run_total: raw.time_run_total,
        time_run: raw.time_run,
        sw_runlist_id: raw.sw_runlist_id,
        target_time_slice: raw.target_time_slice,
        cumulative_preemption_time: raw.cumulative_preemption_time,
    }
}

impl VgpuSchedulerLogEntry {
    /// Decodes a raw log entry.
    pub fn from_c(raw: &RawVgpuSchedulerLogEntry) -> (r: VgpuSchedulerLogEntry)
        ensures
            r == spec_log_entry(*raw),
    {
        VgpuSchedulerLogEntry {
            timestamp: raw.timestamp,
            time_run_total: raw.time_run_total,
            time_run: raw.time_run,
            sw_runlist_id: raw.sw_runlist_id,
            target_time_slice: raw.target_time_slice,
            cumulative_preemption_time: raw.cumulative_preemption_time,
        }
    }
}

/// The raw scheduler log record: a fixed entry array paired with the count
/// of valid leading entries, plus the mode-dependent parameter payload.
#[derive(Debug, Clone, PartialEq, Eq)]
pub struct RawVgpuSchedulerLog {
    pub engine_id: u32,
    pub scheduler_policy: u32,
    pub arr_mode: u32,
    pub scheduler_params: RawUnion,
    /// Number of valid leading entries of `log_entries`.
    pub entries_count: u32,
    /// The fixed log entry array.
    pub log_entries: Vec<RawVgpuSchedulerLogEntry>,
}

/// A vGPU scheduler log.
#[derive(Debug, Clone, PartialEq, Eq)]
pub struct VgpuSchedulerLog {
    /// Engine whose software runlists were fetched.
    pub engine_id: u32,
    /// Scheduler policy.
    pub scheduler_policy: u32,
    /// Adaptive round-robin scheduler mode.
    pub arr_mode: u32,
    pub scheduler_params: VgpuSchedulerParams,
    /// Number of log entries fetched during the call.
    pub entries_count: u32,
    /// The fetched log entries.
    pub entries: Vec<VgpuSchedulerLogEntry>,
}

impl VgpuSchedulerLog {
    /// Decodes a raw scheduler log: exactly the first `entries_count` array
    /// entries, in order, and the parameter payload under the record's own
    /// mode field. Fails with `InvalidValue`, before decoding any entry,
    /// when the count exceeds the array's capacity.
    pub fn try_from(raw: &RawVgpuSchedulerLog) -> (r: Result<VgpuSchedulerLog, NvmlError>)
        requires
            raw.scheduler_params.wf(),
        ensures
            raw.entries_count as int > raw.log_entries@.len() ==> r == Err::<
                VgpuSchedulerLog,
                NvmlError,
            >(NvmlError::InvalidValue),
            raw.entries_count as int <= raw.log_entries@.len() ==> (r matches Ok(log)
                && log.engine_id == raw.engine_id && log.scheduler_policy == raw.scheduler_policy
                && log.arr_mode == raw.arr_mode && log.scheduler_params == spec_sched_params(
                raw.arr_mode,
                raw.scheduler_params.bytes@,
            ) && log.entries_count == raw.entries_count && log.entries@ == raw.log_entries@.take(
                raw.entries_count as int,
            ).map_values(|e: RawVgpuSchedulerLogEntry| spec_log_entry(e))),
    {
        let count: usize = raw.entries_count as usize;
        if count > raw.log_entries.len() {
            return Err(NvmlError::InvalidValue);
        }
        let mut entries: Vec<VgpuSchedulerLogEntry> = Vec::new();
        let mut i: usize = 0;
        while i < count
            invariant
                0 <= i <= count <= raw.log_entries@.len(),
                entries@ == raw.log_entries@.take(i as int).map_values(
                    |e: RawVgpuSchedulerLogEntry| spec_log_entry(e),
                ),
            decreases count - i,
        {
            entries.push(VgpuSchedulerLogEntry::from_c(&raw.log_entries[i]));
            proof {
                assert(entries@ =~= raw.log_entries@.take(i + 1).map_values(
                    |e: RawVgpuSchedulerLogEntry| spec_log_entry(e),
                ));
            }
            i = i + 1;
        }
        let scheduler_params = VgpuSchedulerParams::from_mode_and_union(
            raw.arr_mode,
            &raw.scheduler_params,
        );
        Ok(
            VgpuSchedulerLog {
                engine_id: raw.engine_id,
                scheduler_policy: raw.scheduler_policy,
                arr_mode: raw.arr_mode,
                scheduler_params,
                entries_count: raw.entries_count,
                entries,
            },
        )
    }
}

/// The raw scheduler state query record.
#[derive(Debug, Clone, Copy, PartialEq, Eq, Structural)]
pub struct RawVgpuSchedulerGetState {
    pub scheduler_policy: u32,
    pub arr_mode: u32,
}

/// The vGPU scheduler state as queried from the boundary.
#[derive(Debug, Clone, Copy, PartialEq, Eq, Structural)]
pub struct VgpuSchedulerGetState {
    /// Adaptive round-robin scheduler mode.
    pub arr_mode: u32,
    /// Scheduler policy.
    pub scheduler_policy: u32,
}

impl VgpuSchedulerGetState {
    /// Decodes a raw scheduler state record; every field carries over
    /// unchanged.
    pub fn from_c(raw: &RawVgpuSchedulerGetState) -> (r: VgpuSchedulerGetState)
        ensures
            r.arr_mode == raw.arr_mode,
            r.scheduler_policy == raw.scheduler_policy,
    {
        VgpuSchedulerGetState { arr_mode: raw.arr_mode, scheduler_policy: raw.scheduler_policy }
    }
}

/// Scheduler parameters to submit to the boundary.
#[derive(Debug, Clone, Copy, PartialEq, Eq, Structural)]
pub struct VgpuSchedulerSetParams {
    /// Averaging factor compensating the timeslice, for adaptive
    /// round-robin mode; absent to request the base payload shape.
    pub avg_factor: Option<u32>,
    /// Frequency for adaptive mode (when `avg_factor` is set), or the
    /// timeslice in ns for each software runlist otherwise.
    pub frequency_or_timeslice: u32,
}

impl VgpuSchedulerSetParams {
    /// Re-encodes these parameters into fresh payload storage: with an
    /// averaging factor the extended shape (factor, then frequency), else
    /// the base shape (timeslice, then zero padding).
    pub fn as_c(&self) -> (r: RawUnion)
        ensures
            r.wf(),
            self.avg_factor matches Some(a) ==> spec_u32_le(r.bytes@, 0) == a && spec_u32_le(
                r.bytes@,
                4,
            ) == self.frequency_or_timeslice,
            self.avg_factor is None ==> spec_u32_le(r.bytes@, 0) == self.frequency_or_timeslice
                && spec_u32_le(r.bytes@, 4) == 0,
    {
        match self.avg_factor {
            Some(a) => RawUnion { bytes: u32_pair_to_le(a, self.frequency_or_timeslice) },
            None => RawUnion { bytes: u32_pair_to_le(self.frequency_or_timeslice, 0) },
        }
    }
}

/// The raw scheduler state submission record.
#[derive(Debug, Clone, PartialEq, Eq)]
pub struct RawVgpuSchedulerSetState {
    pub scheduler_policy: u32,
    pub enable_arr_mode: u32,
    pub scheduler_params: RawUnion,
}

/// A vGPU scheduler state to submit to the boundary.
#[derive(Debug, Clone, Copy, PartialEq, Eq, Structural)]
pub struct VgpuSchedulerSetState {
    pub scheduler_policy: u32,
    pub enable_arr_mode: u32,
    pub scheduler_params: VgpuSchedulerSetParams,
}

impl VgpuSchedulerSetState {
    /// Re-encodes this state for the boundary: the plain fields carry over
    /// and the parameters encode as in `VgpuSchedulerSetParams::as_c`.
    pub fn as_c(&self) -> (r: RawVgpuSchedulerSetState)
        ensures
            r.scheduler_policy == self.scheduler_policy,
            r.enable_arr_mode == self.enable_arr_mode,
            r.scheduler_params.wf(),
            self.scheduler_params.avg_factor matches Some(a) ==> spec_u32_le(
                r.scheduler_params.bytes@,
                0,
            ) == a && spec_u32_le(r.scheduler_params.bytes@, 4)
                == self.scheduler_params.frequency_or_timeslice,
            self.scheduler_params.avg_factor is None ==> spec_u32_le(r.scheduler_params.bytes@, 0)
                == self.scheduler_params.frequency_or_timeslice && spec_u32_le(
                r.scheduler_params.bytes@,
                4,
            ) == 0,
    {
        RawVgpuSchedulerSetState {
            scheduler_policy: self.scheduler_policy,
            enable_arr_mode: self.enable_arr_mode,
            scheduler_params: self.scheduler_params.as_c(),
        }
    }
}

} // verus!
