use nvml_wrapper::device::{AccountingStats, BAR1MemoryInfo, BridgeChipHierarchy, BridgeChipInfo,
    ClockOffset, DeviceAttributes, EccErrorCounts, EncoderSessionInfo, FanSpeedInfo,
    FbcSessionInfo, FbcStats, FieldValueSample, GpuInstancePlacement, MemoryInfo, PciInfo,
    ProcessInfo, ProcessUtilizationSample, RawAccountingStats, RawBar1Memory,
    RawBridgeChipHierarchy, RawBridgeChipInfo, RawClockOffset, RawDeviceAttributes,
    RawEccErrorCounts, RawEncoderSessionInfo, RawFanSpeedInfo, RawFbcSessionInfo, RawFbcStats,
    RawFieldValue, RawGpuInstancePlacement, RawMemory, RawPciInfo, RawProcessInfo,
    RawProcessUtilizationSample, RawSample, RawUtilization, RawViolationTime, Sample, Utilization,
    ViolationTime, decode_field_values};
use nvml_wrapper::enums::{BridgeChip, Clock, EncoderType, FbcSessionType, PerformanceState,
    SampleValueType};
use nvml_wrapper::error::NvmlError;
use nvml_wrapper::values::{FieldId, FirmwareVersion, RawUnion, SampleValue, UsedGpuMemory};

fn pci_buffer(text: &str) -> Vec<u8> {
    let mut v = text.as_bytes().to_vec();
    while v.len() < 32 {
        v.push(0);
    }
    v
}

#[test]
fn pci_info_decode() {
    let raw = RawPciInfo {
        bus_id_legacy: vec![0; 16],
        domain: 0x10,
        bus: 0x20,
        device: 5,
        pci_device_id: 0x1DB6_10DE,
        pci_sub_system_id: 0x1234_10DE,
        bus_id: pci_buffer("00000010:20:05.0"),
    };
    let p = PciInfo::try_from(&raw, true).expect("valid record");
    assert_eq!(p.bus, 0x20);
    assert_eq!(p.bus_id, "00000010:20:05.0");
    assert_eq!(p.device, 5);
    assert_eq!(p.domain, 0x10);
    assert_eq!(p.pci_device_id, 0x1DB6_10DE);
    assert_eq!(p.pci_sub_system_id, Some(0x1234_10DE));

    let without = PciInfo::try_from(&raw, false).expect("valid record");
    assert_eq!(without.pci_sub_system_id, None);
}

#[test]
fn pci_info_decode_invalid_text() {
    let mut bus_id = vec![0xFFu8, 0xFE];
    bus_id.resize(32, 0);
    let raw = RawPciInfo {
        bus_id_legacy: vec![0; 16],
        domain: 0,
        bus: 0,
        device: 0,
        pci_device_id: 0,
        pci_sub_system_id: 0,
        bus_id,
    };
    assert_eq!(PciInfo::try_from(&raw, true), Err(NvmlError::InvalidEncoding));
}

#[test]
fn pci_info_round_trip() {
    let p = PciInfo {
        bus: 0x20,
        bus_id: "00000010:20:05.0".to_string(),
        device: 5,
        domain: 0x10,
        pci_device_id: 0x1DB6_10DE,
        pci_sub_system_id: Some(0x1234_10DE),
    };
    let raw = p.try_as_c().expect("encodes");
    assert_eq!(raw.bus_id, pci_buffer("00000010:20:05.0"));
    assert_eq!(raw.bus_id_legacy, vec![0; 16]);
    assert_eq!(raw.pci_sub_system_id, 0x1234_10DE);
    let back = PciInfo::try_from(&raw, true).expect("decodes");
    assert_eq!(back, p);
}

#[test]
fn pci_info_encode_absent_sub_system_id_is_zero() {
    let p = PciInfo {
        bus: 1,
        bus_id: "x".to_string(),
        device: 2,
        domain: 3,
        pci_device_id: 4,
        pci_sub_system_id: None,
    };
    let raw = p.try_as_c().expect("encodes");
    assert_eq!(raw.pci_sub_system_id, 0);
}

#[test]
fn pci_info_encode_too_long_fails() {
    let p = PciInfo {
        bus: 0,
        bus_id: "a".repeat(32),
        device: 0,
        domain: 0,
        pci_device_id: 0,
        pci_sub_system_id: None,
    };
    assert_eq!(p.try_as_c(), Err(NvmlError::ValueTooLarge { max_len: 32, actual_len: 33 }));
}

#[test]
fn pci_info_encode_embedded_nul_fails() {
    let p = PciInfo {
        bus: 0,
        bus_id: "a\0b".to_string(),
        device: 0,
        domain: 0,
        pci_device_id: 0,
        pci_sub_system_id: None,
    };
    assert_eq!(p.try_as_c(), Err(NvmlError::InvalidValue));
}

#[test]
fn plain_records_copy_fields() {
    let b = BAR1MemoryInfo::from_c(&RawBar1Memory { bar1_free: 1, bar1_total: 2, bar1_used: 3 });
    assert_eq!((b.free, b.total, b.used), (1, 2, 3));

    let m = MemoryInfo::from_c(&RawMemory { version: 2, total: 10, reserved: 1, free: 5, used: 4 });
    assert_eq!((m.version, m.total, m.reserved, m.free, m.used), (2, 10, 1, 5, 4));

    let u = Utilization::from_c(&RawUtilization { gpu: 55, memory: 44 });
    assert_eq!((u.gpu, u.memory), (55, 44));

    let v = ViolationTime::from_c(&RawViolationTime { reference_time: 9, violation_time: 8 });
    assert_eq!((v.reference_time, v.violation_time), (9, 8));

    let e = EccErrorCounts::from_c(&RawEccErrorCounts {
        device_memory: 1,
        l1_cache: 2,
        l2_cache: 3,
        register_file: 4,
    });
    assert_eq!((e.device_memory, e.l1_cache, e.l2_cache, e.register_file), (1, 2, 3, 4));

    let s = ProcessUtilizationSample::from_c(&RawProcessUtilizationSample {
        pid: 7,
        time_stamp: 100,
        sm_util: 1,
        mem_util: 2,
        enc_util: 3,
        dec_util: 4,
    });
    assert_eq!((s.pid, s.timestamp, s.sm_util, s.mem_util, s.enc_util, s.dec_util),
        (7, 100, 1, 2, 3, 4));

    let f = FbcStats::from_c(&RawFbcStats {
        sessions_count: 3,
        average_fps: 60,
        average_latency: 1000,
    });
    assert_eq!((f.sessions_count, f.average_fps, f.average_latency), (3, 60, 1000));

    let d = DeviceAttributes::from_c(&RawDeviceAttributes {
        multiprocessor_count: 1,
        shared_copy_engine_count: 2,
        shared_decoder_count: 3,
        shared_encoder_count: 4,
        shared_jpeg_count: 5,
        shared_ofa_count: 6,
        gpu_instance_slice_count: 7,
        compute_instance_slice_count: 8,
        memory_size_mb: 9,
    });
    assert_eq!(d.multiprocessor_count, 1);
    assert_eq!(d.memory_size_mb, 9);

    let fan = FanSpeedInfo::from_c(&RawFanSpeedInfo { version: 1, fan: 0, speed: 1500 });
    assert_eq!((fan.version, fan.fan, fan.speed), (1, 0, 1500));

    let g = GpuInstancePlacement::from_c(&RawGpuInstancePlacement { start: 2, size: 4 });
    assert_eq!((g.start, g.size), (2, 4));
}

#[test]
fn process_info_sentinels() {
    let raw = RawProcessInfo {
        pid: 11,
        used_gpu_memory: 4096,
        gpu_instance_id: 0xFFFF_FFFF,
        compute_instance_id: 3,
    };
    let p = ProcessInfo::from_c(&raw);
    assert_eq!(p.pid, 11);
    assert_eq!(p.used_gpu_memory, UsedGpuMemory::Used(4096));
    assert_eq!(p.gpu_instance_id, None);
    assert_eq!(p.compute_instance_id, Some(3));

    let unavailable = ProcessInfo::from_c(&RawProcessInfo {
        pid: 11,
        used_gpu_memory: u64::MAX,
        gpu_instance_id: 1,
        compute_instance_id: 0xFFFF_FFFF,
    });
    assert_eq!(unavailable.used_gpu_memory, UsedGpuMemory::Unavailable);
    assert_eq!(unavailable.gpu_instance_id, Some(1));
    assert_eq!(unavailable.compute_instance_id, None);
}

#[test]
fn accounting_stats_sentinels_and_running_flag() {
    let raw = RawAccountingStats {
        gpu_utilization: 0xFFFF_FFFF,
        memory_utilization: 25,
        max_memory_usage: u64::MAX,
        time: 77,
        start_time: 66,
        is_running: 0,
    };
    let a = AccountingStats::from_c(&raw);
    assert_eq!(a.gpu_utilization, None);
    assert_eq!(a.memory_utilization, Some(25));
    assert_eq!(a.max_memory_usage, None);
    assert_eq!(a.start_time, 66);
    assert_eq!(a.time, 77);
    assert!(!a.is_running);

    let running = AccountingStats::from_c(&RawAccountingStats { is_running: 1, ..raw });
    assert!(running.is_running);
    // Anything nonzero counts as running, not an error.
    let odd = AccountingStats::from_c(&RawAccountingStats { is_running: 7, ..raw });
    assert!(odd.is_running);
}

#[test]
fn bridge_chip_decode() {
    let plx = BridgeChipInfo::try_from(&RawBridgeChipInfo { chip_type: 0, fw_version: 0 })
        .expect("known type");
    assert_eq!(plx.chip_type, BridgeChip::Plx);
    assert_eq!(plx.fw_version, FirmwareVersion::Unknown);

    let bro4 = BridgeChipInfo::try_from(&RawBridgeChipInfo { chip_type: 1, fw_version: 0x0305 })
        .expect("known type");
    assert_eq!(bro4.chip_type, BridgeChip::Bro4);
    assert_eq!(bro4.fw_version, FirmwareVersion::Plx(0x0305));

    assert_eq!(BridgeChipInfo::try_from(&RawBridgeChipInfo { chip_type: 5, fw_version: 0 }),
        Err(NvmlError::UnexpectedVariant { raw_tag: 5 }));
}

fn chip(t: u32) -> RawBridgeChipInfo {
    RawBridgeChipInfo { chip_type: t, fw_version: 1 }
}

#[test]
fn bridge_hierarchy_decodes_count_entries() {
    let mut chips = vec![chip(0), chip(1), chip(0)];
    chips.resize(128, chip(5)); // entries past the count must never be read
    let raw = RawBridgeChipHierarchy { bridge_count: 3, chips };
    let h = BridgeChipHierarchy::try_from(&raw).expect("valid record");
    assert_eq!(h.chip_count, 3);
    assert_eq!(h.chips_hierarchy.len(), 3);
    assert_eq!(h.chips_hierarchy[1].chip_type, BridgeChip::Bro4);
}

#[test]
fn bridge_hierarchy_count_over_capacity_fails() {
    let raw = RawBridgeChipHierarchy { bridge_count: 129, chips: vec![chip(0); 128] };
    assert_eq!(BridgeChipHierarchy::try_from(&raw), Err(NvmlError::InvalidValue));
}

#[test]
fn bridge_hierarchy_fail_fast_reports_first_error() {
    // Five entries; the third fails to decode.
    let chips = vec![chip(0), chip(1), chip(9), chip(7), chip(0)];
    let raw = RawBridgeChipHierarchy { bridge_count: 5, chips };
    assert_eq!(BridgeChipHierarchy::try_from(&raw),
        Err(NvmlError::UnexpectedVariant { raw_tag: 9 }));
}

#[test]
fn encoder_session_decode() {
    let raw = RawEncoderSessionInfo {
        session_id: 1,
        pid: 2,
        vgpu_instance: 0,
        codec_type: 1,
        h_resolution: 1920,
        v_resolution: 1080,
        average_fps: 30,
        average_latency: 500,
    };
    let s = EncoderSessionInfo::try_from(&raw).expect("known codec");
    assert_eq!(s.session_id, 1);
    assert_eq!(s.pid, 2);
    assert_eq!(s.vgpu_instance, None);
    assert_eq!(s.codec_type, EncoderType::Hevc);
    assert_eq!((s.hres, s.vres), (1920, 1080));
    assert_eq!((s.average_fps, s.average_latency), (30, 500));

    let with_vgpu = EncoderSessionInfo::try_from(&RawEncoderSessionInfo {
        vgpu_instance: 9,
        codec_type: 0,
        ..raw
    })
    .expect("known codec");
    assert_eq!(with_vgpu.vgpu_instance, Some(9));
    assert_eq!(with_vgpu.codec_type, EncoderType::H264);

    assert_eq!(EncoderSessionInfo::try_from(&RawEncoderSessionInfo { codec_type: 3, ..raw }),
        Err(NvmlError::UnexpectedVariant { raw_tag: 3 }));
}

fn union_of(bytes: [u8; 8]) -> RawUnion {
    RawUnion::new(bytes.to_vec()).expect("eight bytes")
}

#[test]
fn sample_decodes_arm_named_by_tag() {
    let storage = union_of([0x78, 0x56, 0x34, 0x12, 0xEF, 0xCD, 0xAB, 0x90]);
    let raw = RawSample { time_stamp: 42, sample_value: storage };

    let s = Sample::from_tag_and_struct(&SampleValueType::UnsignedInt, &raw);
    assert_eq!(s.timestamp, 42);
    assert_eq!(s.value, SampleValue::UnsignedInt(0x1234_5678));

    let s = Sample::from_tag_and_struct(&SampleValueType::UnsignedLongLong, &raw);
    assert_eq!(s.value, SampleValue::UnsignedLongLong(0x90AB_CDEF_1234_5678));

    let s = Sample::from_tag_and_struct(&SampleValueType::UnsignedLong, &raw);
    assert_eq!(s.value, SampleValue::UnsignedLong(0x90AB_CDEF_1234_5678));

    let neg = RawSample {
        time_stamp: 42,
        sample_value: union_of([0xFF; 8]),
    };
    let s = Sample::from_tag_and_struct(&SampleValueType::SignedLongLong, &neg);
    assert_eq!(s.value, SampleValue::SignedLongLong(-1));
    let s = Sample::from_tag_and_struct(&SampleValueType::SignedInt, &neg);
    assert_eq!(s.value, SampleValue::SignedInt(-1));

    let pi_bits = std::f64::consts::PI.to_bits().to_le_bytes();
    let dbl = RawSample { time_stamp: 42, sample_value: union_of(pi_bits) };
    let s = Sample::from_tag_and_struct(&SampleValueType::Double, &dbl);
    assert_eq!(s.value, SampleValue::Double(std::f64::consts::PI.to_bits()));
}

fn field_raw(status: u32, value_type: u32, bytes: [u8; 8]) -> RawFieldValue {
    RawFieldValue {
        field_id: 10,
        timestamp: 1000,
        latency_usec: 5,
        value_type,
        nvml_return: status,
        value: union_of(bytes),
    }
}

#[test]
fn field_value_contains_per_field_failure() {
    let sample = FieldValueSample::try_from(&field_raw(3, 1, [9, 0, 0, 0, 0, 0, 0, 0]))
        .expect("record itself decodes");
    assert_eq!(sample.field, FieldId(10));
    assert_eq!(sample.timestamp, 1000);
    assert_eq!(sample.latency, 5);
    assert_eq!(sample.value, Err(NvmlError::FieldUnavailable { raw_status: 3 }));
}

#[test]
fn field_value_unknown_tag_never_reads_payload() {
    // Payload bytes deliberately hold a pattern that would decode to
    // nonsense under any arm; only the tag decides the outcome.
    let r = FieldValueSample::try_from(&field_raw(0, 99, [0xDE, 0xAD, 0xBE, 0xEF, 0xDE, 0xAD,
        0xBE, 0xEF]));
    assert_eq!(r, Err(NvmlError::UnexpectedVariant { raw_tag: 99 }));
}

#[test]
fn field_value_success() {
    let sample = FieldValueSample::try_from(&field_raw(0, 1, [7, 0, 0, 0, 0, 0, 0, 0]))
        .expect("valid record");
    assert_eq!(sample.value, Ok(SampleValue::UnsignedInt(7)));
}

#[test]
fn field_value_batch_contains_failures_per_entry() {
    let raws = vec![
        field_raw(0, 1, [1, 0, 0, 0, 0, 0, 0, 0]),
        field_raw(13, 1, [0xAA; 8]),
        field_raw(0, 3, [2, 0, 0, 0, 0, 0, 0, 0]),
    ];
    let samples = decode_field_values(&raws).expect("batch decodes");
    assert_eq!(samples.len(), 3);
    assert_eq!(samples[0].value, Ok(SampleValue::UnsignedInt(1)));
    assert_eq!(samples[1].value, Err(NvmlError::FieldUnavailable { raw_status: 13 }));
    assert_eq!(samples[2].value, Ok(SampleValue::UnsignedLongLong(2)));
}

#[test]
fn field_value_batch_fails_fast_on_structural_error() {
    let raws = vec![
        field_raw(0, 1, [1, 0, 0, 0, 0, 0, 0, 0]),
        field_raw(0, 77, [0; 8]),
        field_raw(0, 88, [0; 8]),
    ];
    assert_eq!(decode_field_values(&raws), Err(NvmlError::UnexpectedVariant { raw_tag: 77 }));
}

#[test]
fn fbc_session_decode() {
    let raw = RawFbcSessionInfo {
        session_id: 1,
        pid: 2,
        vgpu_instance: 0,
        display_ordinal: 3,
        session_type: 2,
        session_flags: 0x03,
        h_max_resolution: 3840,
        v_max_resolution: 2160,
        h_resolution: 1920,
        v_resolution: 1080,
        average_fps: 60,
        average_latency: 100,
    };
    let s = FbcSessionInfo::try_from(&raw).expect("valid record");
    assert_eq!(s.session_type, FbcSessionType::Cuda);
    assert_eq!(s.session_flags.bits(), 0x03);
    assert_eq!(s.vgpu_instance, None);
    assert_eq!((s.hres_max, s.vres_max, s.hres, s.vres), (3840, 2160, 1920, 1080));

    assert_eq!(FbcSessionInfo::try_from(&RawFbcSessionInfo { session_flags: 0x20, ..raw }),
        Err(NvmlError::UnrecognizedBits { raw_value: 0x20 }));
    assert_eq!(FbcSessionInfo::try_from(&RawFbcSessionInfo { session_type: 9, ..raw }),
        Err(NvmlError::UnexpectedVariant { raw_tag: 9 }));
    // With both fields bad, the session type is validated first.
    assert_eq!(FbcSessionInfo::try_from(&RawFbcSessionInfo {
        session_type: 9,
        session_flags: 0x20,
        ..raw
    }),
        Err(NvmlError::UnexpectedVariant { raw_tag: 9 }));
}

#[test]
fn clock_offset_decode() {
    let raw = RawClockOffset {
        version: 1,
        clock_type: 2,
        pstate: 32,
        clock_offset_mhz: -50,
        min_clock_offset_mhz: -200,
        max_clock_offset_mhz: 200,
    };
    let c = ClockOffset::try_from(&raw).expect("valid record");
    assert_eq!(c.clock_type, Clock::Memory);
    assert_eq!(c.state, PerformanceState::Unknown);
    assert_eq!(c.clock_offset_mhz, -50);
    assert_eq!(c.min_clock_offset_mhz, -200);
    assert_eq!(c.max_clock_offset_mhz, 200);

    assert_eq!(ClockOffset::try_from(&RawClockOffset { clock_type: 7, ..raw }),
        Err(NvmlError::UnexpectedVariant { raw_tag: 7 }));
    assert_eq!(ClockOffset::try_from(&RawClockOffset { pstate: 20, ..raw }),
        Err(NvmlError::UnexpectedVariant { raw_tag: 20 }));
}

#[test]
fn enum_tags_round_trip() {
    for v in 0..2u32 {
        assert_eq!(BridgeChip::try_from(v).expect("known").as_c(), v);
        assert_eq!(EncoderType::try_from(v).expect("known").as_c(), v);
    }
    for v in 0..5u32 {
        assert_eq!(FbcSessionType::try_from(v).expect("known").as_c(), v);
    }
    for v in 0..4u32 {
        assert_eq!(Clock::try_from(v).expect("known").as_c(), v);
    }
    for v in 0..16u32 {
        assert_eq!(PerformanceState::try_from(v).expect("known").as_c(), v);
    }
    assert_eq!(PerformanceState::try_from(32).expect("known").as_c(), 32);
    assert_eq!(PerformanceState::try_from(16), Err(NvmlError::UnexpectedVariant { raw_tag: 16 }));
    for v in 0..6u32 {
        assert_eq!(SampleValueType::try_from(v).expect("known").as_c(), v);
    }
    assert_eq!(SampleValueType::try_from(6), Err(NvmlError::UnexpectedVariant { raw_tag: 6 }));
}
