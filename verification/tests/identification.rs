use kernel::cpu::cpuid::{
    get_cpuid_supported, identify, setup, FeatureDescriptor, IdentificationState, LeafRegisters,
    QueryLeaf, RegisterSlot, Responses, SetupAction, SetupEvent,
};
use kernel::cpu::features::Feature;
use kernel::cpu::vendor::{decode_text, decode_vendor, decode_vendor_ascii, vendor_has_extended_info};

const INTEL_LEAF0: LeafRegisters =
    LeafRegisters { eax: 0x16, ebx: 0x756e_6547, ecx: 0x6c65_746e, edx: 0x4965_6e69 };
const AMD_LEAF0: LeafRegisters =
    LeafRegisters { eax: 0x0d, ebx: 0x6874_7541, ecx: 0x444d_4163, edx: 0x6974_6e65 };
const ZERO: LeafRegisters = LeafRegisters { eax: 0, ebx: 0, ecx: 0, edx: 0 };

fn intel() -> Responses {
    Responses {
        supported: true,
        vendor: INTEL_LEAF0,
        processor_info: LeafRegisters {
            eax: 0x0003_06a9,
            ebx: 0x0010_0800,
            ecx: 0x7fba_e3ff,
            edx: 0xbfeb_fbff,
        },
        extended_features: LeafRegisters { eax: 0, ebx: 0x0000_0281, ecx: 0, edx: 0 },
        extended_processor_info: LeafRegisters {
            eax: 0,
            ebx: 0,
            ecx: 0x0000_0001,
            edx: 0x2810_0800,
        },
    }
}

fn amd() -> Responses {
    Responses {
        supported: true,
        vendor: AMD_LEAF0,
        processor_info: LeafRegisters {
            eax: 0x0060_0f12,
            ebx: 0x0208_0800,
            ecx: 0x1e98_220b,
            edx: 0x178b_fbff,
        },
        extended_features: ZERO,
        extended_processor_info: LeafRegisters {
            eax: 0x0060_0f12,
            ebx: 0x1000_0000,
            ecx: 0x01eb_bfff,
            edx: 0x2fd3_fbff,
        },
    }
}

/// Drives the setup sequence as the kernel does, answering each action from
/// `hw`, and records the actions that were asked for.
fn drive(state: &mut IdentificationState, hw: &Responses) -> Vec<SetupAction> {
    let mut asked = vec![SetupAction::Probe];
    let mut action = setup(state, SetupEvent::Probed(hw.supported));
    while action != SetupAction::Done {
        asked.push(action);
        let event = match action {
            SetupAction::Probe => SetupEvent::Probed(hw.supported),
            SetupAction::QueryVendor => SetupEvent::Answered(hw.vendor),
            SetupAction::Query(leaf) => SetupEvent::Answered(hw.leaf(leaf)),
            SetupAction::Done => unreachable!(),
        };
        action = setup(state, event);
        assert!(asked.len() <= 5);
    }
    asked
}

#[test]
fn vendor_string_of_genuine_intel() {
    let vendor = decode_vendor(0x756e_6547, 0x4965_6e69, 0x6c65_746e);
    assert_eq!(&vendor, b"GenuineIntel");
}

#[test]
fn vendor_string_of_authentic_amd() {
    let vendor = decode_vendor(AMD_LEAF0.ebx, AMD_LEAF0.edx, AMD_LEAF0.ecx);
    assert_eq!(&vendor, b"AuthenticAMD");
}

#[test]
fn vendor_string_takes_each_register_lowest_byte_first() {
    let vendor = decode_vendor(0x0403_0201, 0x0807_0605, 0x0c0b_0a09);
    assert_eq!(vendor, [1, 2, 3, 4, 5, 6, 7, 8, 9, 10, 11, 12]);
}

#[test]
fn vendor_string_of_zero_registers_is_zero() {
    assert_eq!(decode_vendor(0, 0, 0), [0u8; 12]);
}

#[test]
fn text_of_no_registers_is_empty() {
    assert_eq!(decode_text(&[]), Vec::<u8>::new());
}

#[test]
fn text_of_the_vendor_registers_is_the_vendor_string() {
    assert_eq!(decode_text(&[0x756e_6547, 0x4965_6e69, 0x6c65_746e]), b"GenuineIntel".to_vec());
    assert_eq!(decode_text(&[0x0403_0201]), vec![1, 2, 3, 4]);
}

#[test]
fn text_of_the_brand_registers() {
    // Leaves 0x8000_0002 to 0x8000_0004, each as eax, ebx, ecx, edx.
    let registers = [
        0x6574_6e49, 0x2952_286c, 0x726f_4320, 0x4d54_2865, 0x3769_2029, 0x3737_332d,
        0x5043_2030, 0x2040_2055, 0x3034_2e33, 0x007a_4847, 0x0000_0000, 0x0000_0000,
    ];
    let text = decode_text(&registers);
    assert_eq!(text.len(), 48);
    assert_eq!(&text[..39], b"Intel(R) Core(TM) i7-3770 CPU @ 3.40GHz");
    assert_eq!(&text[39..], [0u8; 9]);
}

#[test]
fn validating_decoder_accepts_ascii() {
    assert_eq!(decode_vendor_ascii(0x756e_6547, 0x4965_6e69, 0x6c65_746e), Some(*b"GenuineIntel"));
    assert_eq!(decode_vendor_ascii(0x7f7f_7f7f, 0, 0x7f00_0000).map(|v| v[0]), Some(0x7f));
}

#[test]
fn validating_decoder_rejects_a_high_byte_anywhere() {
    assert_eq!(decode_vendor_ascii(0x756e_6580, 0x4965_6e69, 0x6c65_746e), None);
    assert_eq!(decode_vendor_ascii(0x756e_6547, 0x4965_ff69, 0x6c65_746e), None);
    assert_eq!(decode_vendor_ascii(0x756e_6547, 0x4965_6e69, 0x8065_746e), None);
}

#[test]
fn extended_info_is_meaningful_for_amd_only() {
    assert!(vendor_has_extended_info(b"AuthenticAMD"));
    assert!(vendor_has_extended_info(b"AMDisbetter!"));
    assert!(!vendor_has_extended_info(b"GenuineIntel"));
    assert!(!vendor_has_extended_info(b"AuthenticAMd"));
    assert!(!vendor_has_extended_info(&[0u8; 12]));
}

#[test]
fn probe_looks_at_the_identification_bit_only() {
    assert!(get_cpuid_supported(0x0000_0002, 0x0020_0002));
    assert!(get_cpuid_supported(0x0020_0202, 0x0000_0202));
    assert!(!get_cpuid_supported(0x0000_0202, 0x0000_0202));
    assert!(!get_cpuid_supported(0x0020_0202, 0x0020_0202));
    assert!(!get_cpuid_supported(0x0000_0000, 0xffdf_ffff));
}

#[test]
fn new_cache_reports_nothing() {
    let state = IdentificationState::new();
    assert_eq!(state.pending(), SetupAction::Probe);
    assert!(!state.is_supported());
    assert_eq!(state.vendor(), [0u8; 12]);
    assert_eq!(state.max_leaf(), 0);
    assert_eq!(state.raw(QueryLeaf::ProcessorInfo), None);
    assert!(!state.has_feature(Feature::Fpu.descriptor()));
}

#[test]
fn unsupported_processor_ends_the_sequence_at_once() {
    let mut state = IdentificationState::new();
    let action = setup(&mut state, SetupEvent::Probed(false));
    assert_eq!(action, SetupAction::Done);
    assert_eq!(state.pending(), SetupAction::Done);
    assert!(!state.is_supported());
    assert_eq!(state.vendor(), [0u8; 12]);
    for feature in ALL_FEATURES {
        assert!(!state.has_feature(feature.descriptor()));
    }
}

#[test]
fn unsupported_processor_ignores_registers() {
    let mut state = IdentificationState::new();
    setup(&mut state, SetupEvent::Probed(false));
    let before = state;
    let action = setup(&mut state, SetupEvent::Answered(INTEL_LEAF0));
    assert_eq!(action, SetupAction::Done);
    assert_eq!(state, before);
    assert_eq!(state.vendor(), [0u8; 12]);
    assert!(!state.has_feature(Feature::Sse3.descriptor()));
}

#[test]
fn registers_before_the_probe_change_nothing() {
    let mut state = IdentificationState::new();
    let action = setup(&mut state, SetupEvent::Answered(INTEL_LEAF0));
    assert_eq!(action, SetupAction::Probe);
    assert_eq!(state, IdentificationState::new());
}

#[test]
fn sequence_on_intel_queries_leaves_1_and_7() {
    let mut state = IdentificationState::new();
    let asked = drive(&mut state, &intel());
    assert_eq!(
        asked,
        vec![
            SetupAction::Probe,
            SetupAction::QueryVendor,
            SetupAction::Query(QueryLeaf::ProcessorInfo),
            SetupAction::Query(QueryLeaf::ExtendedFeatures),
        ]
    );
    assert!(state.is_supported());
    assert_eq!(&state.vendor(), b"GenuineIntel");
    assert_eq!(state.max_leaf(), 0x16);
    assert_eq!(state.raw(QueryLeaf::ProcessorInfo), Some(intel().processor_info));
    assert_eq!(state.raw(QueryLeaf::ExtendedFeatures), Some(intel().extended_features));
    assert_eq!(state.raw(QueryLeaf::ExtendedProcessorInfo), None);
}

#[test]
fn sequence_on_amd_queries_the_extended_leaf() {
    let mut state = IdentificationState::new();
    let asked = drive(&mut state, &amd());
    assert_eq!(
        asked,
        vec![
            SetupAction::Probe,
            SetupAction::QueryVendor,
            SetupAction::Query(QueryLeaf::ProcessorInfo),
            SetupAction::Query(QueryLeaf::ExtendedFeatures),
            SetupAction::Query(QueryLeaf::ExtendedProcessorInfo),
        ]
    );
    assert_eq!(&state.vendor(), b"AuthenticAMD");
    assert_eq!(state.raw(QueryLeaf::ExtendedProcessorInfo), Some(amd().extended_processor_info));
    assert!(state.has_feature(Feature::AmdSvm.descriptor()));
    assert!(state.has_feature(Feature::AmdLm.descriptor()));
    assert!(!state.has_feature(Feature::Amd3dnow.descriptor()));
}

#[test]
fn sequence_skips_leaf_7_below_it() {
    let mut hw = amd();
    hw.vendor.eax = 6;
    let mut state = IdentificationState::new();
    let asked = drive(&mut state, &hw);
    assert_eq!(
        asked,
        vec![
            SetupAction::Probe,
            SetupAction::QueryVendor,
            SetupAction::Query(QueryLeaf::ProcessorInfo),
            SetupAction::Query(QueryLeaf::ExtendedProcessorInfo),
        ]
    );
    assert_eq!(state.raw(QueryLeaf::ExtendedFeatures), None);
    assert!(!state.has_feature(Feature::Avx2.descriptor()));
}

#[test]
fn sequence_stops_after_leaf_0_when_no_leaf_follows() {
    let mut hw = amd();
    hw.vendor.eax = 0;
    let mut state = IdentificationState::new();
    let asked = drive(&mut state, &hw);
    assert_eq!(asked, vec![SetupAction::Probe, SetupAction::QueryVendor]);
    assert!(state.is_supported());
    assert_eq!(&state.vendor(), b"AuthenticAMD");
    assert_eq!(state.max_leaf(), 0);
    assert_eq!(state.raw(QueryLeaf::ProcessorInfo), None);
    assert_eq!(state.raw(QueryLeaf::ExtendedProcessorInfo), None);
    for feature in ALL_FEATURES {
        assert!(!state.has_feature(feature.descriptor()));
    }
}

#[test]
fn leaf_7_is_queried_from_exactly_7_on() {
    let mut hw = intel();
    hw.vendor.eax = 7;
    let mut state = IdentificationState::new();
    drive(&mut state, &hw);
    assert_eq!(state.raw(QueryLeaf::ExtendedFeatures), Some(hw.extended_features));
    hw.vendor.eax = 1;
    drive(&mut state, &hw);
    assert_eq!(state.raw(QueryLeaf::ProcessorInfo), Some(hw.processor_info));
    assert_eq!(state.raw(QueryLeaf::ExtendedFeatures), None);
}

#[test]
fn second_setup_changes_nothing() {
    for hw in [intel(), amd(), Responses { supported: false, ..intel() }] {
        let mut state = IdentificationState::new();
        drive(&mut state, &hw);
        let first = state;
        drive(&mut state, &hw);
        assert_eq!(state, first);
        assert_eq!(state.vendor(), first.vendor());
        for feature in ALL_FEATURES {
            let d = feature.descriptor();
            assert_eq!(state.has_feature(d), first.has_feature(d));
        }
    }
}

#[test]
fn setup_on_other_hardware_forgets_the_first() {
    let mut state = IdentificationState::new();
    drive(&mut state, &amd());
    drive(&mut state, &Responses { supported: false, ..amd() });
    assert_eq!(state, identify(&Responses { supported: false, ..intel() }));
    assert!(!state.is_supported());
    assert_eq!(state.vendor(), [0u8; 12]);
    assert_eq!(state.raw(QueryLeaf::ProcessorInfo), None);
}

#[test]
fn identify_agrees_with_the_driven_sequence() {
    for hw in [intel(), amd(), Responses { supported: false, ..amd() }] {
        let mut state = IdentificationState::new();
        drive(&mut state, &hw);
        assert_eq!(identify(&hw), state);
        assert_eq!(identify(&hw).pending(), SetupAction::Done);
    }
}

#[test]
fn has_feature_tests_the_mask_in_the_recorded_register() {
    for hw in [intel(), amd()] {
        let state = identify(&hw);
        for feature in ALL_FEATURES {
            let d = feature.descriptor();
            let expected = match state.raw(d.leaf) {
                Some(regs) => regs.register(d.slot) & d.mask != 0,
                None => false,
            };
            assert_eq!(state.has_feature(d), expected, "{:?}", feature);
        }
    }
}

#[test]
fn has_feature_on_known_flags() {
    let state = identify(&intel());
    assert!(state.has_feature(Feature::Sse3.descriptor()));
    assert!(state.has_feature(Feature::Avx.descriptor()));
    assert!(state.has_feature(Feature::Fpu.descriptor()));
    assert!(!state.has_feature(Feature::Hypervisor.descriptor()));
    assert!(!state.has_feature(Feature::Ia64.descriptor()));
    assert!(state.has_feature(Feature::Fsgsbase.descriptor()));
    assert!(state.has_feature(Feature::Smep.descriptor()));
    assert!(!state.has_feature(Feature::Avx2.descriptor()));
    assert!(state.has_feature(Feature::Family.descriptor()));
    // The extended leaf is not queried on this vendor.
    assert!(!state.has_feature(Feature::AmdLahfLm.descriptor()));
}

#[test]
fn has_feature_takes_any_descriptor() {
    let state = identify(&intel());
    let none = FeatureDescriptor { leaf: QueryLeaf::ProcessorInfo, slot: RegisterSlot::Ebx, mask: 0 };
    assert!(!state.has_feature(none));
    let ebx = FeatureDescriptor {
        leaf: QueryLeaf::ProcessorInfo,
        slot: RegisterSlot::Ebx,
        mask: 0x0000_0800,
    };
    assert!(state.has_feature(ebx));
}

#[test]
fn avx_bit_round_trip() {
    let avx = Feature::Avx.descriptor();
    assert_eq!(avx.leaf, QueryLeaf::ProcessorInfo);
    assert_eq!(avx.slot, RegisterSlot::Ecx);
    assert_eq!(avx.mask, 1 << 28);
    let set = LeafRegisters { ecx: 1 << 28, ..ZERO };
    assert!(avx.query(set));
    assert!(identify(&Responses { processor_info: set, ..intel() }).has_feature(avx));
    let cleared = LeafRegisters { ecx: 0, ..ZERO };
    assert!(!avx.query(cleared));
    assert!(!identify(&Responses { processor_info: cleared, ..intel() }).has_feature(avx));
    let all_but = LeafRegisters { eax: !0, ebx: !0, ecx: !(1 << 28), edx: !0 };
    assert!(!avx.query(all_but));
}

#[test]
fn every_row_round_trips_whatever_else_is_set() {
    let full = LeafRegisters { eax: !0, ebx: !0, ecx: !0, edx: !0 };
    for feature in ALL_FEATURES {
        let d = feature.descriptor();
        for background in [ZERO, full, intel().processor_info] {
            let set = d.set_in(background);
            let cleared = d.clear_in(background);
            assert!(d.query(set), "{:?}", feature);
            assert!(!d.query(cleared), "{:?}", feature);
            assert_eq!(set.register(d.slot), background.register(d.slot) | d.mask);
            assert_eq!(cleared.register(d.slot), background.register(d.slot) & !d.mask);
            for other in ALL_FEATURES {
                let o = other.descriptor();
                if o.slot != d.slot || o.mask & d.mask == 0 {
                    assert_eq!(o.query(set), o.query(background));
                    assert_eq!(o.query(cleared), o.query(background));
                }
            }
        }
    }
}

#[test]
fn set_and_clear_touch_one_register() {
    let d = Feature::Avx2.descriptor();
    let regs = LeafRegisters { eax: 1, ebx: 2, ecx: 3, edx: 4 };
    assert_eq!(d.set_in(regs), LeafRegisters { eax: 1, ebx: 2 | (1 << 5), ecx: 3, edx: 4 });
    assert_eq!(d.clear_in(d.set_in(regs)), regs);
    assert_eq!(regs.with_register(RegisterSlot::Edx, 9), LeafRegisters { edx: 9, ..regs });
    assert_eq!(regs.with_register(RegisterSlot::Eax, 9), LeafRegisters { eax: 9, ..regs });
}

#[test]
fn leaf_numbers() {
    assert_eq!(QueryLeaf::ProcessorInfo.number(), 1);
    assert_eq!(QueryLeaf::ExtendedFeatures.number(), 7);
    assert_eq!(QueryLeaf::ExtendedProcessorInfo.number(), 0x8000_0001);
}

#[test]
fn table_rows() {
    assert_eq!(
        Feature::Stepping.descriptor(),
        FeatureDescriptor { leaf: QueryLeaf::ProcessorInfo, slot: RegisterSlot::Eax, mask: 0xf }
    );
    assert_eq!(
        Feature::ExtendedFamily.descriptor(),
        FeatureDescriptor {
            leaf: QueryLeaf::ProcessorInfo,
            slot: RegisterSlot::Eax,
            mask: 0x0ff0_0000
        }
    );
    assert_eq!(
        Feature::Pbe.descriptor(),
        FeatureDescriptor { leaf: QueryLeaf::ProcessorInfo, slot: RegisterSlot::Edx, mask: 1 << 31 }
    );
    assert_eq!(
        Feature::Avx512vbmi.descriptor(),
        FeatureDescriptor {
            leaf: QueryLeaf::ExtendedFeatures,
            slot: RegisterSlot::Ecx,
            mask: 1 << 1
        }
    );
    assert_eq!(
        Feature::AmdSvm.descriptor(),
        FeatureDescriptor {
            leaf: QueryLeaf::ExtendedProcessorInfo,
            slot: RegisterSlot::Ecx,
            mask: 1 << 2
        }
    );
    assert_eq!(Feature::AmdWdt.descriptor().mask, 1 << 13);
    assert_eq!(Feature::AmdFma4.descriptor().mask, 1 << 16);
}

#[test]
fn table_masks_are_set_and_unique_in_their_register() {
    assert_eq!(ALL_FEATURES.len(), 147);
    for (i, a) in ALL_FEATURES.iter().enumerate() {
        let da = a.descriptor();
        assert_ne!(da.mask, 0, "{:?}", a);
        for b in &ALL_FEATURES[i + 1..] {
            assert_ne!(a, b);
            let db = b.descriptor();
            if da.leaf == db.leaf && da.slot == db.slot {
                assert_eq!(da.mask & db.mask, 0, "{:?} {:?}", a, b);
            }
        }
    }
}

const ALL_FEATURES: [Feature; 147] = [
    Feature::Stepping, Feature::Model, Feature::Family, Feature::ProcessorType,
    Feature::ExtendedModel, Feature::ExtendedFamily, Feature::Sse3, Feature::Pclmul,
    Feature::Dtes64, Feature::Monitor, Feature::DsCpl, Feature::Vmx, Feature::Smx, Feature::Est,
    Feature::Tm2, Feature::Ssse3, Feature::Cid, Feature::Fma, Feature::Cx16, Feature::Etprd,
    Feature::Pdcm, Feature::Pcid, Feature::Dca, Feature::Sse41, Feature::Sse42, Feature::X2apic,
    Feature::Movbe, Feature::Popcnt, Feature::TscDeadline, Feature::Aes, Feature::Xsave,
    Feature::Osxsave, Feature::Avx, Feature::F16c, Feature::Rdrnd, Feature::Hypervisor,
    Feature::Fpu, Feature::Vme, Feature::De, Feature::Pse, Feature::Tsc, Feature::Msr,
    Feature::Pae, Feature::Mce, Feature::Cx8, Feature::Apic, Feature::Sep, Feature::Mtrr,
    Feature::Pge, Feature::Mca, Feature::Cmov, Feature::Pat, Feature::Pse36, Feature::Psn,
    Feature::Clf, Feature::Dtes, Feature::Acpi, Feature::Mmx, Feature::Fxsr, Feature::Sse,
    Feature::Sse2, Feature::Ss, Feature::Htt, Feature::Tm1, Feature::Ia64, Feature::Pbe,
    Feature::Fsgsbase, Feature::Bmi1, Feature::Hle, Feature::Avx2, Feature::Smep, Feature::Bmi2,
    Feature::Erms, Feature::Invpcid, Feature::Rtm, Feature::Mpx, Feature::Avx512f,
    Feature::Avx512dq, Feature::Rdseed, Feature::Adx, Feature::Smap, Feature::Avx512ifma,
    Feature::Pcommit, Feature::Clflushopt, Feature::Clwb, Feature::IntelPt, Feature::Avx512pf,
    Feature::Avx512er, Feature::Avx512cd, Feature::Sha, Feature::Avx512bw, Feature::Avx512vl,
    Feature::Prefetchwt1, Feature::Avx512vbmi, Feature::AmdFpu, Feature::AmdVme, Feature::AmdDe,
    Feature::AmdPse, Feature::AmdTsc, Feature::AmdMsr, Feature::AmdPae, Feature::AmdMce,
    Feature::AmdCx8, Feature::AmdApic, Feature::AmdSyscall, Feature::AmdMtrr, Feature::AmdPge,
    Feature::AmdMca, Feature::AmdCmov, Feature::AmdPat, Feature::AmdPse36, Feature::AmdMp,
    Feature::AmdNx, Feature::AmdMmxext, Feature::AmdMmx, Feature::AmdFxsr, Feature::AmdFxsrOpt,
    Feature::AmdPdpe1gb, Feature::AmdRdtscp, Feature::AmdLm, Feature::Amd3dnowext,
    Feature::Amd3dnow, Feature::AmdLahfLm, Feature::AmdCmpLegacy, Feature::AmdSvm,
    Feature::AmdExtapic, Feature::AmdCr8Legacy, Feature::AmdAbm, Feature::AmdSse4a,
    Feature::AmdMisalignsse, Feature::Amd3dnowprefetch, Feature::AmdOsvw, Feature::AmdIbs,
    Feature::AmdXop, Feature::AmdSkinit, Feature::AmdWdt, Feature::AmdLwp, Feature::AmdFma4,
    Feature::AmdTce, Feature::AmdNodeidMsr, Feature::AmdTbm, Feature::AmdTopoext,
    Feature::AmdPerfctrCore, Feature::AmdPerfctrNb, Feature::AmdDbx, Feature::AmdPerftsc,
    Feature::AmdPcxL2i,
];
