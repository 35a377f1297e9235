//! Device record assemblers.
//!
//! Each domain type below pairs with a raw record type that mirrors the
//! boundary's fixed layout as plain values. Decoding walks the raw record's
//! fields through the field codecs and either returns a fully validated
//! owned value or the first validation error in field order; a reverse
//! encoder exists only for the record types that are re-submitted to the
//! boundary.

use crate::enums::{Clock, EncoderType, FbcSessionType, PerformanceState, SampleValueType};
use crate::error::NvmlError;
use crate::flags::FbcFlags;
use crate::sentinel::{decode_u32_field, decode_u64_field, ABSENT_HANDLE, VALUE_NOT_AVAILABLE_U32,
    VALUE_NOT_AVAILABLE_U64};
use crate::strbuf::{decode_string_buffer, encode_string_buffer, spec_decode, spec_encode};
use crate::values::{spec_sample_value, FieldId, FirmwareVersion, RawUnion, SampleValue};
use vstd::prelude::*;

verus! {

/// The capacity of a raw PCI bus identifier buffer.
pub const PCI_BUS_ID_BUFFER_SIZE: usize = 32;

/// The capacity of the legacy PCI bus identifier buffer.
pub const PCI_BUS_ID_LEGACY_BUFFER_SIZE: usize = 16;

/// The raw PCI information record as the boundary lays it out: the bus
/// identifier is a fixed-capacity, zero-terminated text buffer.
#[derive(Debug, Clone, PartialEq, Eq)]
pub struct RawPciInfo {
    /// The legacy-format bus identifier buffer; not interpreted here.
    pub bus_id_legacy: Vec<u8>,
    pub domain: u32,
    pub bus: u32,
    pub device: u32,
    pub pci_device_id: u32,
    pub pci_sub_system_id: u32,
    /// The bus identifier buffer, `PCI_BUS_ID_BUFFER_SIZE` bytes.
    pub bus_id: Vec<u8>,
}

/// PCI information about a GPU device.
#[derive(Debug, Clone, PartialEq, Eq, Hash)]
pub struct PciInfo {
    /// The bus on which the device resides, 0 to 0xff.
    pub bus: u32,
    /// The PCI identifier.
    pub bus_id: String,
    /// The device's ID on the bus, 0 to 31.
    pub device: u32,
    /// The PCI domain on which the device's bus resides, 0 to 0xffff.
    pub domain: u32,
    /// The combined 16-bit device ID and 16-bit vendor ID.
    pub pci_device_id: u32,
    /// The 32-bit sub-system device ID; absent when the caller says the
    /// boundary left the field indeterminate.
    pub pci_sub_system_id: Option<u32>,
}

impl PciInfo {
    /// Decodes a raw PCI record. Passing `false` for `sub_sys_id_present`
    /// marks the sub-system ID field indeterminate and leaves it absent.
    /// Fails with `InvalidEncoding` when the bus identifier buffer does not
    /// hold well-formed text.
    pub fn try_from(raw: &RawPciInfo, sub_sys_id_present: bool) -> (r: Result<PciInfo, NvmlError>)
        ensures
            r is Ok <==> spec_decode(raw.bus_id@) is Ok,
            r matches Ok(p) ==> p.bus == raw.bus && p.device == raw.device && p.domain
                == raw.domain && p.pci_device_id == raw.pci_device_id && spec_decode(raw.bus_id@)
                == Ok::<Seq<char>, NvmlError>(p.bus_id@) && p.pci_sub_system_id == (
            if sub_sys_id_present {
                Some(raw.pci_sub_system_id)
            } else {
                None::<u32>
            }),
            r matches Err(e) ==> e == NvmlError::InvalidEncoding,
    {
        let bus_id = match decode_string_buffer(&raw.bus_id) {
            Ok(s) => s,
            Err(e) => {
                return Err(e);
            },
        };
        Ok(
            PciInfo {
                bus: raw.bus,
                bus_id,
                device: raw.device,
                domain: raw.domain,
                pci_device_id: raw.pci_device_id,
                pci_sub_system_id: if sub_sys_id_present {
                    Some(raw.pci_sub_system_id)
                } else {
                    None
                },
            },
        )
    }

    /// Re-encodes this record for the boundary. Fails with `InvalidValue`
    /// when the bus identifier holds an embedded zero byte and with
    /// `ValueTooLarge` when it cannot fit its buffer with a terminator;
    /// an absent sub-system ID is encoded as zero.
    pub fn try_as_c(&self) -> (r: Result<RawPciInfo, NvmlError>)
        ensures
            r is Ok <==> spec_encode(self.bus_id@, PCI_BUS_ID_BUFFER_SIZE) is Ok,
            r matches Ok(c) ==> c.bus == self.bus && c.device == self.device && c.domain
                == self.domain && c.pci_device_id == self.pci_device_id && c.pci_sub_system_id == (
            match self.pci_sub_system_id {
                Some(v) => v,
                None => 0u32,
            }) && spec_encode(self.bus_id@, PCI_BUS_ID_BUFFER_SIZE) == Ok::<Seq<u8>, NvmlError>(
                c.bus_id@,
            ) && c.bus_id_legacy@ == Seq::new(
                PCI_BUS_ID_LEGACY_BUFFER_SIZE as nat,
                |i: int| 0u8,
            ),
            r matches Err(e) ==> spec_encode(self.bus_id@, PCI_BUS_ID_BUFFER_SIZE) == Err::<
                Seq<u8>,
                NvmlError,
            >(e),
    {
        let bus_id = match encode_string_buffer(self.bus_id.as_str(), PCI_BUS_ID_BUFFER_SIZE) {
            Ok(v) => v,
            Err(e) => {
                return Err(e);
            },
        };
        Ok(
            RawPciInfo {
                bus_id_legacy: crate::bytes::zeroed_bytes(PCI_BUS_ID_LEGACY_BUFFER_SIZE),
                domain: self.domain,
                bus: self.bus,
                device: self.device,
                pci_device_id: self.pci_device_id,
                pci_sub_system_id: match self.pci_sub_system_id {
                    Some(v) => v,
                    None => 0,
                },
                bus_id,
            },
        )
    }
}

/// The raw BAR1 memory record.
#[derive(Debug, Clone, Copy, PartialEq, Eq, Structural)]
pub struct RawBar1Memory {
    pub bar1_free: u64,
    pub bar1_total: u64,
    pub bar1_used: u64,
}

/// BAR1 memory allocation information for a device, in bytes.
#[derive(Debug, Clone, Copy, PartialEq, Eq, Hash, Structural)]
pub struct BAR1MemoryInfo {
    /// Unallocated.
    pub free: u64,
    /// Total memory.
    pub total: u64,
    /// Allocated.
    pub used: u64,
}

impl BAR1MemoryInfo {
    /// Decodes a raw BAR1 memory record; every field carries over unchanged.
    pub fn from_c(raw: &RawBar1Memory) -> (r: BAR1MemoryInfo)
        ensures
            r.free == raw.bar1_free,
            r.total == raw.bar1_total,
            r.used == raw.bar1_used,
    {
        BAR1MemoryInfo { free: raw.bar1_free, total: raw.bar1_total, used: raw.bar1_used }
    }
}

/// The raw memory information record (second ABI revision).
#[derive(Debug, Clone, Copy, PartialEq, Eq, Structural)]
pub struct RawMemory {
    pub version: u32,
    pub total: u64,
    pub reserved: u64,
    pub free: u64,
    pub used: u64,
}

/// Memory allocation information for a device, in bytes.
#[derive(Debug, Clone, Copy, PartialEq, Eq, Hash, Structural)]
pub struct MemoryInfo {
    /// Unallocated FB memory.
    pub free: u64,
    /// Reserved FB memory.
    pub reserved: u64,
    /// Total installed FB memory.
    pub total: u64,
    /// Allocated FB memory.
    pub used: u64,
    /// Record layout version reported by the boundary.
    pub version: u32,
}

impl MemoryInfo {
    /// Decodes a raw memory record; every field carries over unchanged.
    pub fn from_c(raw: &RawMemory) -> (r: MemoryInfo)
        ensures
            r.free == raw.free,
            r.reserved == raw.reserved,
            r.total == raw.total,
            r.used == raw.used,
            r.version == raw.version,
    {
        MemoryInfo {
            free: raw.free,
            reserved: raw.reserved,
            total: raw.total,
            used: raw.used,
            version: raw.version,
        }
    }
}

/// The raw utilization record.
#[derive(Debug, Clone, Copy, PartialEq, Eq, Structural)]
pub struct RawUtilization {
    pub gpu: u32,
    pub memory: u32,
}

/// Utilization information for a device over the past sample period.
#[derive(Debug, Clone, Copy, PartialEq, Eq, Hash, Structural)]
pub struct Utilization {
    /// Percent of time one or more kernels was executing on the GPU.
    pub gpu: u32,
    /// Percent of time device memory was being read or written.
    pub memory: u32,
}

impl Utilization {
    /// Decodes a raw utilization record; every field carries over unchanged.
    pub fn from_c(raw: &RawUtilization) -> (r: Utilization)
        ensures
            r.gpu == raw.gpu,
            r.memory == raw.memory,
    {
        Utilization { gpu: raw.gpu, memory: raw.memory }
    }
}

/// The raw violation time record.
#[derive(Debug, Clone, Copy, PartialEq, Eq, Structural)]
pub struct RawViolationTime {
    pub reference_time: u64,
    pub violation_time: u64,
}

/// Performance policy violation status data.
#[derive(Debug, Clone, Copy, PartialEq, Eq, Hash, Structural)]
pub struct ViolationTime {
    /// CPU timestamp in microseconds.
    pub reference_time: u64,
    /// Violation time in nanoseconds.
    pub violation_time: u64,
}

impl ViolationTime {
    /// Decodes a raw violation time record; every field carries over
    /// unchanged.
    pub fn from_c(raw: &RawViolationTime) -> (r: ViolationTime)
        ensures
            r.reference_time == raw.reference_time,
            r.violation_time == raw.violation_time,
    {
        ViolationTime {
            reference_time: raw.reference_time,
            violation_time: raw.violation_time,
        }
    }
}

/// The raw ECC error counts record.
#[derive(Debug, Clone, Copy, PartialEq, Eq, Structural)]
pub struct RawEccErrorCounts {
    pub device_memory: u64,
    pub l1_cache: u64,
    pub l2_cache: u64,
    pub register_file: u64,
}

/// Detailed ECC error counts for a device.
#[derive(Debug, Clone, Copy, PartialEq, Eq, Hash, Structural)]
pub struct EccErrorCounts {
    pub device_memory: u64,
    pub l1_cache: u64,
    pub l2_cache: u64,
    pub register_file: u64,
}

impl EccErrorCounts {
    /// Decodes a raw ECC error counts record; every field carries over
    /// unchanged.
    pub fn from_c(raw: &RawEccErrorCounts) -> (r: EccErrorCounts)
        ensures
            r.device_memory == raw.device_memory,
            r.l1_cache == raw.l1_cache,
            r.l2_cache == raw.l2_cache,
            r.register_file == raw.register_file,
    {
        EccErrorCounts {
            device_memory: raw.device_memory,
            l1_cache: raw.l1_cache,
            l2_cache: raw.l2_cache,
            register_file: raw.register_file,
        }
    }
}

/// The raw compute process record.
#[derive(Debug, Clone, Copy, PartialEq, Eq, Structural)]
pub struct RawProcessInfo {
    pub pid: u32,
    pub used_gpu_memory: u64,
    pub gpu_instance_id: u32,
    pub compute_instance_id: u32,
}

/// Information about a compute process running on the GPU.
#[derive(Debug, Clone, Copy, PartialEq, Eq, Hash, Structural)]
pub struct ProcessInfo {
    /// Process ID.
    pub pid: u32,
    /// Amount of used GPU memory in bytes.
    pub used_gpu_memory: crate::values::UsedGpuMemory,
    /// The ID of the GPU instance the process runs on; absent unless
    /// multi-instance mode is enabled on the device.
    pub gpu_instance_id: Option<u32>,
    /// The ID of the compute instance the process runs on; absent unless
    /// multi-instance mode is enabled on the device.
    pub compute_instance_id: Option<u32>,
}

impl ProcessInfo {
    /// Decodes a raw process record: the instance IDs use the all-ones
    /// "not available" sentinel, the memory field its own 64-bit sentinel.
    pub fn from_c(raw: &RawProcessInfo) -> (r: ProcessInfo)
        ensures
            r.pid == raw.pid,
            r.used_gpu_memory == crate::values::UsedGpuMemory::spec_from(raw.used_gpu_memory),
            r.gpu_instance_id == (if raw.gpu_instance_id == VALUE_NOT_AVAILABLE_U32 {
                None::<u32>
            } else {
                Some(raw.gpu_instance_id)
            }),
            r.compute_instance_id == (if raw.compute_instance_id == VALUE_NOT_AVAILABLE_U32 {
                None::<u32>
            } else {
                Some(raw.compute_instance_id)
            }),
    {
        ProcessInfo {
            pid: raw.pid,
            used_gpu_memory: crate::values::UsedGpuMemory::from_c(raw.used_gpu_memory),
            gpu_instance_id: decode_u32_field(raw.gpu_instance_id, VALUE_NOT_AVAILABLE_U32),
            compute_instance_id: decode_u32_field(
                raw.compute_instance_id,
                VALUE_NOT_AVAILABLE_U32,
            ),
        }
    }
}

/// The raw accounting statistics record.
#[derive(Debug, Clone, Copy, PartialEq, Eq, Structural)]
pub struct RawAccountingStats {
    pub gpu_utilization: u32,
    pub memory_utilization: u32,
    pub max_memory_usage: u64,
    pub time: u64,
    pub start_time: u64,
    pub is_running: u32,
}

/// Accounting statistics for a process.
#[derive(Debug, Clone, Copy, PartialEq, Eq, Hash, Structural)]
pub struct AccountingStats {
    /// Percent of the process's lifetime during which one or more kernels
    /// was executing on the GPU; absent when utilization rates are not
    /// supported.
    pub gpu_utilization: Option<u32>,
    /// Whether the process is running.
    pub is_running: bool,
    /// Max total memory in bytes ever allocated by the process; absent when
    /// used memory reporting is not supported.
    pub max_memory_usage: Option<u64>,
    /// Percent of the process's lifetime during which device memory was
    /// being read or written; absent when utilization rates are not
    /// supported.
    pub memory_utilization: Option<u32>,
    /// CPU timestamp of the process start, in microseconds.
    pub start_time: u64,
    /// Time in milliseconds during which the compute context was active.
    pub time: u64,
}

impl AccountingStats {
    /// Decodes a raw accounting record: the utilization and memory fields
    /// use the "not available" sentinel at their own widths; any nonzero
    /// running flag counts as running.
    pub fn from_c(raw: &RawAccountingStats) -> (r: AccountingStats)
        ensures
            r.gpu_utilization == (if raw.gpu_utilization == VALUE_NOT_AVAILABLE_U32 {
                None::<u32>
            } else {
                Some(raw.gpu_utilization)
            }),
            r.is_running == (raw.is_running != 0),
            r.max_memory_usage == (if raw.max_memory_usage == VALUE_NOT_AVAILABLE_U64 {
                None::<u64>
            } else {
                Some(raw.max_memory_usage)
            }),
            r.memory_utilization == (if raw.memory_utilization == VALUE_NOT_AVAILABLE_U32 {
                None::<u32>
            } else {
                Some(raw.memory_utilization)
            }),
            r.start_time == raw.start_time,
            r.time == raw.time,
    {
        AccountingStats {
            gpu_utilization: decode_u32_field(raw.gpu_utilization, VALUE_NOT_AVAILABLE_U32),
            is_running: raw.is_running != 0,
            max_memory_usage: decode_u64_field(raw.max_memory_usage, VALUE_NOT_AVAILABLE_U64),
            memory_utilization: decode_u32_field(raw.memory_utilization, VALUE_NOT_AVAILABLE_U32),
            start_time: raw.start_time,
            time: raw.time,
        }
    }
}

/// The raw per-process utilization sample record.
#[derive(Debug, Clone, Copy, PartialEq, Eq, Structural)]
pub struct RawProcessUtilizationSample {
    pub pid: u32,
    pub time_stamp: u64,
    pub sm_util: u32,
    pub mem_util: u32,
    pub enc_util: u32,
    pub dec_util: u32,
}

/// Utilization of one process over a sample period.
#[derive(Debug, Clone, Copy, PartialEq, Eq, Hash, Structural)]
pub struct ProcessUtilizationSample {
    pub pid: u32,
    /// CPU timestamp in microseconds.
    pub timestamp: u64,
    /// SM (3D / compute) utilization.
    pub sm_util: u32,
    /// Frame buffer memory utilization.
    pub mem_util: u32,
    /// Encoder utilization.
    pub enc_util: u32,
    /// Decoder utilization.
    pub dec_util: u32,
}

impl ProcessUtilizationSample {
    /// Decodes a raw per-process utilization sample; every field carries
    /// over unchanged.
    pub fn from_c(raw: &RawProcessUtilizationSample) -> (r: ProcessUtilizationSample)
        ensures
            r.pid == raw.pid,
            r.timestamp == raw.time_stamp,
            r.sm_util == raw.sm_util,
            r.mem_util == raw.mem_util,
            r.enc_util == raw.enc_util,
            r.dec_util == raw.dec_util,
    {
        ProcessUtilizationSample {
            pid: raw.pid,
            timestamp: raw.time_stamp,
            sm_util: raw.sm_util,
            mem_util: raw.mem_util,
            enc_util: raw.enc_util,
            dec_util: raw.dec_util,
        }
    }
}

/// The raw frame buffer capture statistics record.
#[derive(Debug, Clone, Copy, PartialEq, Eq, Structural)]
pub struct RawFbcStats {
    pub sessions_count: u32,
    pub average_fps: u32,
    pub average_latency: u32,
}

/// Global frame buffer capture session statistics.
#[derive(Debug, Clone, Copy, PartialEq, Eq, Structural)]
pub struct FbcStats {
    /// The total number of sessions.
    pub sessions_count: u32,
    /// Moving average of new frames captured per second, all sessions.
    pub average_fps: u32,
    /// Moving average of new frame capture latency in microseconds, all
    /// sessions.
    pub average_latency: u32,
}

impl FbcStats {
    /// Decodes a raw capture statistics record; every field carries over
    /// unchanged.
    pub fn from_c(raw: &RawFbcStats) -> (r: FbcStats)
        ensures
            r.sessions_count == raw.sessions_count,
            r.average_fps == raw.average_fps,
            r.average_latency == raw.average_latency,
    {
        FbcStats {
            sessions_count: raw.sessions_count,
            average_fps: raw.average_fps,
            average_latency: raw.average_latency,
        }
    }
}

/// The raw device attributes record.
#[derive(Debug, Clone, Copy, PartialEq, Eq, Structural)]
pub struct RawDeviceAttributes {
    pub multiprocessor_count: u32,
    pub shared_copy_engine_count: u32,
    pub shared_decoder_count: u32,
    pub shared_encoder_count: u32,
    pub shared_jpeg_count: u32,
    pub shared_ofa_count: u32,
    pub gpu_instance_slice_count: u32,
    pub compute_instance_slice_count: u32,
    pub memory_size_mb: u64,
}

/// Hardware-level attributes of a GPU device.
#[derive(Debug, Clone, Copy, PartialEq, Eq, Hash, Structural)]
pub struct DeviceAttributes {
    /// Streaming multiprocessor count.
    pub multiprocessor_count: u32,
    /// Shared copy engine count.
    pub shared_copy_engine_count: u32,
    /// Shared decoder count.
    pub shared_decoder_count: u32,
    /// Shared encoder count.
    pub shared_encoder_count: u32,
    /// Shared JPEG count.
    pub shared_jpeg_count: u32,
    /// Shared OFA count.
    pub shared_ofa_count: u32,
    /// GPU instance slice count.
    pub gpu_instance_slice_count: u32,
    /// Compute instance slice count.
    pub compute_instance_slice_count: u32,
    /// Device memory size in MB.
    pub memory_size_mb: u64,
}

impl DeviceAttributes {
    /// Decodes a raw device attributes record; every field carries over
    /// unchanged.
    pub fn from_c(raw: &RawDeviceAttributes) -> (r: DeviceAttributes)
        ensures
            r.multiprocessor_count == raw.multiprocessor_count,
            r.shared_copy_engine_count == raw.shared_copy_engine_count,
            r.shared_decoder_count == raw.shared_decoder_count,
            r.shared_encoder_count == raw.shared_encoder_count,
            r.shared_jpeg_count == raw.shared_jpeg_count,
            r.shared_ofa_count == raw.shared_ofa_count,
            r.gpu_instance_slice_count == raw.gpu_instance_slice_count,
            r.compute_instance_slice_count == raw.compute_instance_slice_count,
            r.memory_size_mb == raw.memory_size_mb,
    {
        DeviceAttributes {
            multiprocessor_count: raw.multiprocessor_count,
            shared_copy_engine_count: raw.shared_copy_engine_count,
            shared_decoder_count: raw.shared_decoder_count,
            shared_encoder_count: raw.shared_encoder_count,
            shared_jpeg_count: raw.shared_jpeg_count,
            shared_ofa_count: raw.shared_ofa_count,
            gpu_instance_slice_count: raw.gpu_instance_slice_count,
            compute_instance_slice_count: raw.compute_instance_slice_count,
            memory_size_mb: raw.memory_size_mb,
        }
    }
}

/// The raw fan speed record.
#[derive(Debug, Clone, Copy, PartialEq, Eq, Structural)]
pub struct RawFanSpeedInfo {
    pub version: u32,
    pub fan: u32,
    pub speed: u32,
}

/// Fan speed information.
#[derive(Debug, Clone, Copy, PartialEq, Eq, Hash, Structural)]
pub struct FanSpeedInfo {
    /// Record layout version reported by the boundary.
    pub version: u32,
    /// The fan index.
    pub fan: u32,
    /// The fan speed in RPM.
    pub speed: u32,
}

impl FanSpeedInfo {
    /// Decodes a raw fan speed record; every field carries over unchanged.
    pub fn from_c(raw: &RawFanSpeedInfo) -> (r: FanSpeedInfo)
        ensures
            r.version == raw.version,
            r.fan == raw.fan,
            r.speed == raw.speed,
    {
        FanSpeedInfo { version: raw.version, fan: raw.fan, speed: raw.speed }
    }
}

/// The raw GPU instance placement record.
#[derive(Debug, Clone, Copy, PartialEq, Eq, Structural)]
pub struct RawGpuInstancePlacement {
    pub start: u32,
    pub size: u32,
}

/// A multi-instance GPU profile placement.
#[derive(Debug, Clone, Copy, PartialEq, Eq, Structural)]
pub struct GpuInstancePlacement {
    /// Memory slices occupied.
    pub size: u32,
    /// Index of the first occupied memory slice (inclusive).
    pub start: u32,
}

impl GpuInstancePlacement {
    /// Decodes a raw placement record; every field carries over unchanged.
    pub fn from_c(raw: &RawGpuInstancePlacement) -> (r: GpuInstancePlacement)
        ensures
            r.size == raw.size,
            r.start == raw.start,
    {
        GpuInstancePlacement { size: raw.size, start: raw.start }
    }
}

/// The raw bridge chip record: a firmware version and a chip type tag.
#[derive(Debug, Clone, Copy, PartialEq, Eq, Structural)]
pub struct RawBridgeChipInfo {
    pub chip_type: u32,
    pub fw_version: u32,
}

/// Information about one bridge chip.
#[derive(Debug, Clone, Copy, PartialEq, Eq, Hash, Structural)]
pub struct BridgeChipInfo {
    pub fw_version: FirmwareVersion,
    pub chip_type: crate::enums::BridgeChip,
}

/// What decoding one raw bridge chip record yields: the validated chip type
/// with its firmware version, or `UnexpectedVariant` for an unknown type.
pub open spec fn spec_chip(raw: RawBridgeChipInfo) -> Result<BridgeChipInfo, NvmlError> {
    match crate::enums::BridgeChip::spec_from(raw.chip_type) {
        Ok(t) => Ok(
            BridgeChipInfo { fw_version: FirmwareVersion::spec_from(raw.fw_version), chip_type: t },
        ),
        Err(e) => Err(e),
    }
}

impl BridgeChipInfo {
    /// Decodes a raw bridge chip record.
    pub fn try_from(raw: &RawBridgeChipInfo) -> (r: Result<BridgeChipInfo, NvmlError>)
        ensures
            r == spec_chip(*raw),
    {
        match crate::enums::BridgeChip::try_from(raw.chip_type) {
            Ok(t) => Ok(
                BridgeChipInfo { fw_version: FirmwareVersion::from_c(raw.fw_version), chip_type: t },
            ),
            Err(e) => Err(e),
        }
    }
}

/// What decoding a sequence of raw bridge chip records yields: every record
/// decoded in order, or the first error in array order — never a partial
/// sequence.
pub open spec fn spec_decode_chips(s: Seq<RawBridgeChipInfo>) -> Result<
    Seq<BridgeChipInfo>,
    NvmlError,
>
    decreases s.len(),
{
    if s.len() == 0 {
        Ok(Seq::empty())
    } else {
        match spec_decode_chips(s.drop_last()) {
            Ok(p) => match spec_chip(s.last()) {
                Ok(c) => Ok(p.push(c)),
                Err(e) => Err(e),
            },
            Err(e) => Err(e),
        }
    }
}

/// A sequence of individually decodable records decodes as a whole, to their
/// elementwise decodings.
pub proof fn lemma_decode_chips_all_ok(s: Seq<RawBridgeChipInfo>)
    requires
        forall|j: int| 0 <= j < s.len() ==> spec_chip(#[trigger] s[j]) is Ok,
    ensures
        spec_decode_chips(s) matches Ok(cs) && cs.len() == s.len() && (forall|j: int|
            0 <= j < s.len() ==> Ok::<BridgeChipInfo, NvmlError>(#[trigger] cs[j]) == spec_chip(
                s[j],
            )),
    decreases s.len(),
{
    if s.len() == 0 {
    } else {
        lemma_decode_chips_all_ok(s.drop_last());
    }
}

/// Once some prefix of a sequence fails to decode, every longer prefix fails
/// with the same error.
pub proof fn lemma_decode_chips_error_extends(s: Seq<RawBridgeChipInfo>, i: int, m: int, e: NvmlError)
    requires
        0 <= i < m <= s.len(),
        spec_decode_chips(s.take(i)) is Ok,
        spec_chip(s[i]) == Err::<BridgeChipInfo, NvmlError>(e),
    ensures
        spec_decode_chips(s.take(m)) == Err::<Seq<BridgeChipInfo>, NvmlError>(e),
    decreases m - i,
{
    if m == i + 1 {
        assert(s.take(m).drop_last() =~= s.take(i));
        assert(s.take(m).last() == s[i]);
    } else {
        lemma_decode_chips_error_extends(s, i, m - 1, e);
        assert(s.take(m).drop_last() =~= s.take(m - 1));
    }
}

/// The capacity the boundary declares for a bridge chip hierarchy array.
pub const BRIDGE_CHIP_HIERARCHY_CAPACITY: usize = 128;

/// The raw bridge chip hierarchy record: a fixed array of chip records
/// paired with the count of valid leading entries.
#[derive(Debug, Clone, PartialEq, Eq)]
pub struct RawBridgeChipHierarchy {
    /// Number of valid leading entries of `chips`.
    pub bridge_count: u8,
    /// The fixed chip record array.
    pub chips: Vec<RawBridgeChipInfo>,
}

/// The hierarchy of bridge chips on the board. The immediate bridge is at
/// index 0 of `chips_hierarchy`, its parent at index 1, and so forth.
#[derive(Debug, Clone, PartialEq, Eq, Hash)]
pub struct BridgeChipHierarchy {
    /// Hierarchy of bridge chips on the board.
    pub chips_hierarchy: Vec<BridgeChipInfo>,
    /// Number of bridge chips on the board.
    pub chip_count: u8,
}

impl BridgeChipHierarchy {
    /// Decodes a raw hierarchy record: exactly the first `bridge_count`
    /// array entries, in order. Fails with `InvalidValue`, before decoding
    /// any entry, when the count exceeds the array's capacity; otherwise
    /// fails with the first entry error in array order, never returning a
    /// partial hierarchy.
    pub fn try_from(raw: &RawBridgeChipHierarchy) -> (r: Result<BridgeChipHierarchy, NvmlError>)
        ensures
            raw.bridge_count as int > raw.chips@.len() ==> r == Err::<
                BridgeChipHierarchy,
                NvmlError,
            >(NvmlError::InvalidValue),
            raw.bridge_count as int <= raw.chips@.len() ==> (r is Ok <==> spec_decode_chips(
                raw.chips@.take(raw.bridge_count as int),
            ) is Ok),
            raw.bridge_count as int <= raw.chips@.len() ==> (r matches Ok(h) ==> Ok::<
                Seq<BridgeChipInfo>,
                NvmlError,
            >(h.chips_hierarchy@) == spec_decode_chips(raw.chips@.take(raw.bridge_count as int))
                && h.chip_count == raw.bridge_count),
            raw.bridge_count as int <= raw.chips@.len() ==> (r matches Err(e) ==> spec_decode_chips(
                raw.chips@.take(raw.bridge_count as int),
            ) == Err::<Seq<BridgeChipInfo>, NvmlError>(e)),
    {
        let count: usize = raw.bridge_count as usize;
        if count > raw.chips.len() {
            return Err(NvmlError::InvalidValue);
        }
        let ghost all = raw.chips@.take(count as int);
        let mut chips: Vec<BridgeChipInfo> = Vec::new();
        let mut i: usize = 0;
        while i < count
            invariant
                0 <= i <= count <= raw.chips@.len(),
                count == raw.bridge_count as usize,
                all == raw.chips@.take(count as int),
                spec_decode_chips(raw.chips@.take(i as int)) == Ok::<
                    Seq<BridgeChipInfo>,
                    NvmlError,
                >(chips@),
            decreases count - i,
        {
            match BridgeChipInfo::try_from(&raw.chips[i]) {
                Ok(c) => {
                    chips.push(c);
                },
                Err(e) => {
                    proof {
                        lemma_decode_chips_error_extends(
                            raw.chips@,
                            i as int,
                            count as int,
                            e,
                        );
                    }
                    return Err(e);
                },
            }
            proof {
                assert(raw.chips@.take(i + 1).drop_last() =~= raw.chips@.take(i as int));
                assert(raw.chips@.take(i + 1).last() == raw.chips@[i as int]);
            }
            i = i + 1;
        }
        Ok(BridgeChipHierarchy { chips_hierarchy: chips, chip_count: raw.bridge_count })
    }
}

/// The raw encoder session record.
#[derive(Debug, Clone, Copy, PartialEq, Eq, Structural)]
pub struct RawEncoderSessionInfo {
    pub session_id: u32,
    pub pid: u32,
    pub vgpu_instance: u32,
    pub codec_type: u32,
    pub h_resolution: u32,
    pub v_resolution: u32,
    pub average_fps: u32,
    pub average_latency: u32,
}

/// Information about an encoder session.
#[derive(Debug, Clone, Copy, PartialEq, Eq, Hash, Structural)]
pub struct EncoderSessionInfo {
    /// Unique ID for this session.
    pub session_id: u32,
    /// The ID of the process that owns this session.
    pub pid: u32,
    /// The ID of the vGPU instance that owns this session, if applicable;
    /// the boundary encodes "none" as zero.
    pub vgpu_instance: Option<u32>,
    pub codec_type: EncoderType,
    /// Current horizontal encoding resolution.
    pub hres: u32,
    /// Current vertical encoding resolution.
    pub vres: u32,
    /// Moving average encode frames per second.
    pub average_fps: u32,
    /// Moving average encode latency in microseconds.
    pub average_latency: u32,
}

impl EncoderSessionInfo {
    /// Decodes a raw encoder session record: the codec tag must be a known
    /// encoder type; the vGPU instance uses the zero "no handle" sentinel.
    pub fn try_from(raw: &RawEncoderSessionInfo) -> (r: Result<EncoderSessionInfo, NvmlError>)
        ensures
            r is Ok <==> EncoderType::spec_from(raw.codec_type) is Ok,
            r matches Ok(s) ==> s.session_id == raw.session_id && s.pid == raw.pid
                && s.vgpu_instance == (if raw.vgpu_instance == ABSENT_HANDLE {
                None::<u32>
            } else {
                Some(raw.vgpu_instance)
            }) && EncoderType::spec_from(raw.codec_type) == Ok::<EncoderType, NvmlError>(
                s.codec_type,
            ) && s.hres == raw.h_resolution && s.vres == raw.v_resolution && s.average_fps
                == raw.average_fps && s.average_latency == raw.average_latency,
            r matches Err(e) ==> EncoderType::spec_from(raw.codec_type) == Err::<
                EncoderType,
                NvmlError,
            >(e),
    {
        let codec_type = match EncoderType::try_from(raw.codec_type) {
            Ok(t) => t,
            Err(e) => {
                return Err(e);
            },
        };
        Ok(
            EncoderSessionInfo {
                session_id: raw.session_id,
                pid: raw.pid,
                vgpu_instance: decode_u32_field(raw.vgpu_instance, ABSENT_HANDLE),
                codec_type,
                hres: raw.h_resolution,
                vres: raw.v_resolution,
                average_fps: raw.average_fps,
                average_latency: raw.average_latency,
            },
        )
    }
}

/// The raw sample record: a timestamp and eight bytes of union storage.
#[derive(Debug, Clone, PartialEq, Eq)]
pub struct RawSample {
    pub time_stamp: u64,
    pub sample_value: RawUnion,
}

/// A sample of one monitored value at one point in time.
#[derive(Debug, Clone, Copy, PartialEq, Eq, Structural)]
pub struct Sample {
    /// CPU timestamp in microseconds.
    pub timestamp: u64,
    pub value: SampleValue,
}

impl Sample {
    /// Given a tag and raw union storage, returns the sample holding the
    /// union arm the tag names. The tag arrives already validated, so no
    /// unrecognized discriminant can reach the payload bytes.
    pub fn from_tag_and_struct(tag: &SampleValueType, struct_: &RawSample) -> (r: Sample)
        requires
            struct_.sample_value.wf(),
        ensures
            r.timestamp == struct_.time_stamp,
            r.value == spec_sample_value(*tag, struct_.sample_value.bytes@),
    {
        Sample {
            timestamp: struct_.time_stamp,
            value: SampleValue::from_tag_and_union(tag, &struct_.sample_value),
        }
    }
}

/// The raw per-field value record: identification, a status code reported by
/// the boundary for this field alone, a value type tag and the value's raw
/// union storage.
#[derive(Debug, Clone, PartialEq, Eq)]
pub struct RawFieldValue {
    pub field_id: u32,
    pub timestamp: i64,
    pub latency_usec: i64,
    pub value_type: u32,
    pub nvml_return: u32,
    pub value: RawUnion,
}

/// One field retrieval result.
///
/// `value` is itself a `Result`: the boundary reports per-field retrieval
/// failures independently of record retrieval, so an unavailable field is
/// contained here rather than failing the record.
#[derive(Debug, Clone, Copy, PartialEq, Eq)]
pub struct FieldValueSample {
    /// The field this sample is for.
    pub field: FieldId,
    /// This sample's CPU timestamp in microseconds (Unix time).
    pub timestamp: i64,
    /// How long this field value took to update, in microseconds.
    pub latency: i64,
    /// The sampled value, or the boundary's per-field failure.
    pub value: Result<SampleValue, NvmlError>,
}

/// What decoding one raw field value record yields. A nonzero status is
/// contained as a `FieldUnavailable` payload without touching the value's
/// type tag or storage; with a zero status the tag is validated before any
/// payload byte is read, and an unknown tag fails the whole record.
pub open spec fn spec_field_value(raw: RawFieldValue) -> Result<FieldValueSample, NvmlError> {
    if raw.nvml_return != 0 {
        Ok(
            FieldValueSample {
                field: FieldId(raw.field_id),
                timestamp: raw.timestamp,
                latency: raw.latency_usec,
                value: Err(NvmlError::FieldUnavailable { raw_status: raw.nvml_return }),
            },
        )
    } else {
        match SampleValueType::spec_from(raw.value_type) {
            Ok(t) => Ok(
                FieldValueSample {
                    field: FieldId(raw.field_id),
                    timestamp: raw.timestamp,
                    latency: raw.latency_usec,
                    value: Ok(spec_sample_value(t, raw.value.bytes@)),
                },
            ),
            Err(e) => Err(e),
        }
    }
}

impl FieldValueSample {
    /// Decodes a raw field value record.
    pub fn try_from(raw: &RawFieldValue) -> (r: Result<FieldValueSample, NvmlError>)
        requires
            raw.value.wf(),
        ensures
            r == spec_field_value(*raw),
    {
        if raw.nvml_return != 0 {
            return Ok(
                FieldValueSample {
                    field: FieldId(raw.field_id),
                    timestamp: raw.timestamp,
                    latency: raw.latency_usec,
                    value: Err(NvmlError::FieldUnavailable { raw_status: raw.nvml_return }),
                },
            );
        }
        let tag = match SampleValueType::try_from(raw.value_type) {
            Ok(t) => t,
            Err(e) => {
                return Err(e);
            },
        };
        Ok(
            FieldValueSample {
                field: FieldId(raw.field_id),
                timestamp: raw.timestamp,
                latency: raw.latency_usec,
                value: Ok(SampleValue::from_tag_and_union(&tag, &raw.value)),
            },
        )
    }
}

/// What decoding a batch of raw field value records yields: every record
/// decoded in order, or the first structural error in batch order. Per-field
/// retrieval failures are contained inside their own entries and never fail
/// the batch.
pub open spec fn spec_field_values(s: Seq<RawFieldValue>) -> Result<
    Seq<FieldValueSample>,
    NvmlError,
>
    decreases s.len(),
{
    if s.len() == 0 {
        Ok(Seq::empty())
    } else {
        match spec_field_values(s.drop_last()) {
            Ok(p) => match spec_field_value(s.last()) {
                Ok(v) => Ok(p.push(v)),
                Err(e) => Err(e),
            },
            Err(e) => Err(e),
        }
    }
}

/// Once some prefix of a batch fails to decode, every longer prefix fails
/// with the same error.
pub proof fn lemma_field_values_error_extends(s: Seq<RawFieldValue>, i: int, m: int, e: NvmlError)
    requires
        0 <= i < m <= s.len(),
        spec_field_values(s.take(i)) is Ok,
        spec_field_value(s[i]) == Err::<FieldValueSample, NvmlError>(e),
    ensures
        spec_field_values(s.take(m)) == Err::<Seq<FieldValueSample>, NvmlError>(e),
    decreases m - i,
{
    if m == i + 1 {
        assert(s.take(m).drop_last() =~= s.take(i));
        assert(s.take(m).last() == s[i]);
    } else {
        lemma_field_values_error_extends(s, i, m - 1, e);
        assert(s.take(m).drop_last() =~= s.take(m - 1));
    }
}

/// A batch whose records all decode individually decodes as a whole, to the
/// elementwise decodings.
pub proof fn lemma_field_values_all_ok(s: Seq<RawFieldValue>)
    requires
        forall|j: int| 0 <= j < s.len() ==> spec_field_value(#[trigger] s[j]) is Ok,
    ensures
        spec_field_values(s) matches Ok(vs) && vs.len() == s.len() && (forall|j: int|
            0 <= j < s.len() ==> Ok::<FieldValueSample, NvmlError>(#[trigger] vs[j])
                == spec_field_value(s[j])),
    decreases s.len(),
{
    if s.len() == 0 {
    } else {
        lemma_field_values_all_ok(s.drop_last());
    }
}

/// Decodes a batch of raw field value records, in order, failing fast on the
/// first structural error; a per-field retrieval failure stays contained in
/// its own entry.
pub fn decode_field_values(raws: &Vec<RawFieldValue>) -> (r: Result<Vec<FieldValueSample>, NvmlError>)
    requires
        forall|j: int| 0 <= j < raws@.len() ==> (#[trigger] raws@[j]).value.wf(),
    ensures
        r is Ok <==> spec_field_values(raws@) is Ok,
        r matches Ok(vs) ==> spec_field_values(raws@) == Ok::<Seq<FieldValueSample>, NvmlError>(
            vs@,
        ),
        r matches Err(e) ==> spec_field_values(raws@) == Err::<Seq<FieldValueSample>, NvmlError>(
            e,
        ),
{
    let n: usize = raws.len();
    let mut out: Vec<FieldValueSample> = Vec::new();
    let mut i: usize = 0;
    while i < n
        invariant
            0 <= i <= n,
            n == raws@.len(),
            forall|j: int| 0 <= j < raws@.len() ==> (#[trigger] raws@[j]).value.wf(),
            spec_field_values(raws@.take(i as int)) == Ok::<
                Seq<FieldValueSample>,
                NvmlError,
            >(out@),
        decreases n - i,
    {
        match FieldValueSample::try_from(&raws[i]) {
            Ok(v) => {
                out.push(v);
            },
            Err(e) => {
                proof {
                    lemma_field_values_error_extends(raws@, i as int, n as int, e);
                    assert(raws@.take(n as int) =~= raws@);
                }
                return Err(e);
            },
        }
        proof {
            assert(raws@.take(i + 1).drop_last() =~= raws@.take(i as int));
            assert(raws@.take(i + 1).last() == raws@[i as int]);
        }
        i = i + 1;
    }
    proof {
        assert(raws@.take(n as int) =~= raws@);
    }
    Ok(out)
}

/// The raw frame buffer capture session record.
#[derive(Debug, Clone, Copy, PartialEq, Eq, Structural)]
pub struct RawFbcSessionInfo {
    pub session_id: u32,
    pub pid: u32,
    pub vgpu_instance: u32,
    pub display_ordinal: u32,
    pub session_type: u32,
    pub session_flags: u32,
    pub h_max_resolution: u32,
    pub v_max_resolution: u32,
    pub h_resolution: u32,
    pub v_resolution: u32,
    pub average_fps: u32,
    pub average_latency: u32,
}

/// Information about a frame buffer capture session.
#[derive(Debug, Clone, Copy, PartialEq, Eq, Structural)]
pub struct FbcSessionInfo {
    /// Unique session ID.
    pub session_id: u32,
    /// The ID of the process that owns this session.
    pub pid: u32,
    /// The ID of the vGPU instance that owns this session, if applicable;
    /// the boundary encodes "none" as zero.
    pub vgpu_instance: Option<u32>,
    /// The identifier of the display this session runs on.
    pub display_ordinal: u32,
    /// The type of this session.
    pub session_type: FbcSessionType,
    /// The validated session flags.
    pub session_flags: FbcFlags,
    /// The maximum horizontal resolution supported by this session.
    pub hres_max: u32,
    /// The maximum vertical resolution supported by this session.
    pub vres_max: u32,
    /// The horizontal resolution requested in the capture call.
    pub hres: u32,
    /// The vertical resolution requested in the capture call.
    pub vres: u32,
    /// Moving average of new frames captured per second for this session.
    pub average_fps: u32,
    /// Moving average of new frame capture latency in microseconds for this
    /// session.
    pub average_latency: u32,
}

impl FbcSessionInfo {
    /// Decodes a raw capture session record: the session type tag must be
    /// known and the flag word must hold only known bits; the session type
    /// is validated first.
    pub fn try_from(raw: &RawFbcSessionInfo) -> (r: Result<FbcSessionInfo, NvmlError>)
        ensures
            r is Ok <==> (FbcSessionType::spec_from(raw.session_type) is Ok
                && FbcFlags::spec_valid_bits(raw.session_flags)),
            r matches Ok(s) ==> s.session_id == raw.session_id && s.pid == raw.pid
                && s.vgpu_instance == (if raw.vgpu_instance == ABSENT_HANDLE {
                None::<u32>
            } else {
                Some(raw.vgpu_instance)
            }) && s.display_ordinal == raw.display_ordinal && FbcSessionType::spec_from(
                raw.session_type,
            ) == Ok::<FbcSessionType, NvmlError>(s.session_type) && s.session_flags.spec_bits()
                == raw.session_flags && s.hres_max == raw.h_max_resolution && s.vres_max
                == raw.v_max_resolution && s.hres == raw.h_resolution && s.vres == raw.v_resolution
                && s.average_fps == raw.average_fps && s.average_latency == raw.average_latency,
            r matches Err(e) ==> (match FbcSessionType::spec_from(raw.session_type) {
                Err(te) => e == te,
                Ok(_) => !FbcFlags::spec_valid_bits(raw.session_flags) && e
                    == NvmlError::UnrecognizedBits { raw_value: raw.session_flags },
            }),
    {
        let session_type = match FbcSessionType::try_from(raw.session_type) {
            Ok(t) => t,
            Err(e) => {
                return Err(e);
            },
        };
        let session_flags = match FbcFlags::from_bits(raw.session_flags) {
            Some(f) => f,
            None => {
                return Err(NvmlError::UnrecognizedBits { raw_value: raw.session_flags });
            },
        };
        Ok(
            FbcSessionInfo {
                session_id: raw.session_id,
                pid: raw.pid,
                vgpu_instance: decode_u32_field(raw.vgpu_instance, ABSENT_HANDLE),
                display_ordinal: raw.display_ordinal,
                session_type,
                session_flags,
                hres_max: raw.h_max_resolution,
                vres_max: raw.v_max_resolution,
                hres: raw.h_resolution,
                vres: raw.v_resolution,
                average_fps: raw.average_fps,
                average_latency: raw.average_latency,
            },
        )
    }
}

/// The raw clock offset record.
#[derive(Debug, Clone, Copy, PartialEq, Eq, Structural)]
pub struct RawClockOffset {
    pub version: u32,
    pub clock_type: u32,
    pub pstate: u32,
    pub clock_offset_mhz: i32,
    pub min_clock_offset_mhz: i32,
    pub max_clock_offset_mhz: i32,
}

/// A clock offset for one clock domain in one performance state.
#[derive(Debug, Clone, Copy, PartialEq, Eq, Structural)]
pub struct ClockOffset {
    /// Record layout version reported by the boundary.
    pub version: u32,
    pub clock_type: Clock,
    pub state: PerformanceState,
    pub clock_offset_mhz: i32,
    pub min_clock_offset_mhz: i32,
    pub max_clock_offset_mhz: i32,
}

impl ClockOffset {
    /// Decodes a raw clock offset record: both the clock domain tag and the
    /// performance state tag must be known; the clock domain is validated
    /// first.
    pub fn try_from(raw: &RawClockOffset) -> (r: Result<ClockOffset, NvmlError>)
        ensures
            r is Ok <==> (Clock::spec_from(raw.clock_type) is Ok && PerformanceState::spec_from(
                raw.pstate,
            ) is Ok),
            r matches Ok(c) ==> c.version == raw.version && Clock::spec_from(raw.clock_type)
                == Ok::<Clock, NvmlError>(c.clock_type) && PerformanceState::spec_from(raw.pstate)
                == Ok::<PerformanceState, NvmlError>(c.state) && c.clock_offset_mhz
                == raw.clock_offset_mhz && c.min_clock_offset_mhz == raw.min_clock_offset_mhz
                && c.max_clock_offset_mhz == raw.max_clock_offset_mhz,
            r matches Err(e) ==> (match Clock::spec_from(raw.clock_type) {
                Err(ce) => e == ce,
                Ok(_) => PerformanceState::spec_from(raw.pstate) == Err::<
                    PerformanceState,
                    NvmlError,
                >(e),
            }),
    {
        let clock_type = match Clock::try_from(raw.clock_type) {
            Ok(t) => t,
            Err(e) => {
                return Err(e);
            },
        };
        let state = match PerformanceState::try_from(raw.pstate) {
            Ok(s) => s,
            Err(e) => {
                return Err(e);
            },
        };
        Ok(
            ClockOffset {
                version: raw.version,
                clock_type,
                state,
                clock_offset_mhz: raw.clock_offset_mhz,
                min_clock_offset_mhz: raw.min_clock_offset_mhz,
                max_clock_offset_mhz: raw.max_clock_offset_mhz,
            },
        )
    }
}

} // verus!
