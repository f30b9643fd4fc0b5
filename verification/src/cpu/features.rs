//! The feature table: one row for each named capability, giving the leaf
//! that reports it, the register of that leaf and the bits of that register.
//!
//! The table is data. A capability is added by adding a name and its row;
//! the lookup in `cpuid` does not change.

use crate::cpu::cpuid::{FeatureDescriptor, QueryLeaf, RegisterSlot};
use vstd::prelude::*;

verus! {

/// The capabilities that the table names.
#[derive(Clone, Copy, Debug, PartialEq, Eq, Structural)]
pub enum Feature {
    // Processor signature fields: leaf 1, `eax`.
    Stepping,
    Model,
    Family,
    ProcessorType,
    ExtendedModel,
    ExtendedFamily,
    // Standard feature flags: leaf 1, `ecx`.
    Sse3,
    Pclmul,
    Dtes64,
    Monitor,
    DsCpl,
    Vmx,
    Smx,
    Est,
    Tm2,
    Ssse3,
    Cid,
    Fma,
    Cx16,
    Etprd,
    Pdcm,
    Pcid,
    Dca,
    Sse41,
    Sse42,
    X2apic,
    Movbe,
    Popcnt,
    TscDeadline,
    Aes,
    Xsave,
    Osxsave,
    Avx,
    F16c,
    Rdrnd,
    Hypervisor,
    // Standard feature flags: leaf 1, `edx`.
    Fpu,
    Vme,
    De,
    Pse,
    Tsc,
    Msr,
    Pae,
    Mce,
    Cx8,
    Apic,
    Sep,
    Mtrr,
    Pge,
    Mca,
    Cmov,
    Pat,
    Pse36,
    Psn,
    Clf,
    Dtes,
    Acpi,
    Mmx,
    Fxsr,
    Sse,
    Sse2,
    Ss,
    Htt,
    Tm1,
    Ia64,
    Pbe,
    // Structured extended feature flags: leaf 7, `ebx`.
    Fsgsbase,
    Bmi1,
    Hle,
    Avx2,
    Smep,
    Bmi2,
    Erms,
    Invpcid,
    Rtm,
    Mpx,
    Avx512f,
    Avx512dq,
    Rdseed,
    Adx,
    Smap,
    Avx512ifma,
    Pcommit,
    Clflushopt,
    Clwb,
    IntelPt,
    Avx512pf,
    Avx512er,
    Avx512cd,
    Sha,
    Avx512bw,
    Avx512vl,
    // Structured extended feature flags: leaf 7, `ecx`.
    Prefetchwt1,
    Avx512vbmi,
    // AMD feature flags: leaf `0x8000_0001`, `edx`. Several repeat a flag of leaf 1 and are told apart by their names.
    AmdFpu,
    AmdVme,
    AmdDe,
    AmdPse,
    AmdTsc,
    AmdMsr,
    AmdPae,
    AmdMce,
    AmdCx8,
    AmdApic,
    AmdSyscall,
    AmdMtrr,
    AmdPge,
    AmdMca,
    AmdCmov,
    AmdPat,
    AmdPse36,
    AmdMp,
    AmdNx,
    AmdMmxext,
    AmdMmx,
    AmdFxsr,
    AmdFxsrOpt,
    AmdPdpe1gb,
    AmdRdtscp,
    AmdLm,
    Amd3dnowext,
    Amd3dnow,
    // AMD feature flags: leaf `0x8000_0001`, `ecx`.
    AmdLahfLm,
    AmdCmpLegacy,
    AmdSvm,
    AmdExtapic,
    AmdCr8Legacy,
    AmdAbm,
    AmdSse4a,
    AmdMisalignsse,
    Amd3dnowprefetch,
    AmdOsvw,
    AmdIbs,
    AmdXop,
    AmdSkinit,
    AmdWdt,
    AmdLwp,
    AmdFma4,
    AmdTce,
    AmdNodeidMsr,
    AmdTbm,
    AmdTopoext,
    AmdPerfctrCore,
    AmdPerfctrNb,
    AmdDbx,
    AmdPerftsc,
    AmdPcxL2i,
}

/// A row of the table.
pub open spec fn spec_row(leaf: QueryLeaf, slot: RegisterSlot, mask: u32) -> FeatureDescriptor {
    FeatureDescriptor { leaf, slot, mask }
}

/// A row of the table.
#[verifier::when_used_as_spec(spec_row)]
pub fn row(leaf: QueryLeaf, slot: RegisterSlot, mask: u32) -> (d: FeatureDescriptor)
    ensures
        d == spec_row(leaf, slot, mask),
{
    FeatureDescriptor { leaf, slot, mask }
}

impl Feature {
    /// The row of the table for this capability.
    pub open spec fn spec_descriptor(self) -> FeatureDescriptor {
        match self {
            // Processor signature fields: leaf 1, `eax`.
            Feature::Stepping => row(QueryLeaf::ProcessorInfo, RegisterSlot::Eax, 0x0000_000f),
            Feature::Model => row(QueryLeaf::ProcessorInfo, RegisterSlot::Eax, 0x0000_00f0),
            Feature::Family => row(QueryLeaf::ProcessorInfo, RegisterSlot::Eax, 0x0000_0f00),
            Feature::ProcessorType => row(QueryLeaf::ProcessorInfo, RegisterSlot::Eax, 0x0000_3000),
            Feature::ExtendedModel => row(QueryLeaf::ProcessorInfo, RegisterSlot::Eax, 0x000f_0000),
            Feature::ExtendedFamily => row(QueryLeaf::ProcessorInfo, RegisterSlot::Eax, 0x0ff0_0000),
            // Standard feature flags: leaf 1, `ecx`.
            Feature::Sse3 => row(QueryLeaf::ProcessorInfo, RegisterSlot::Ecx, 0x0000_0001),
            Feature::Pclmul => row(QueryLeaf::ProcessorInfo, RegisterSlot::Ecx, 0x0000_0002),
            Feature::Dtes64 => row(QueryLeaf::ProcessorInfo, RegisterSlot::Ecx, 0x0000_0004),
            Feature::Monitor => row(QueryLeaf::ProcessorInfo, RegisterSlot::Ecx, 0x0000_0008),
            Feature::DsCpl => row(QueryLeaf::ProcessorInfo, RegisterSlot::Ecx, 0x0000_0010),
            Feature::Vmx => row(QueryLeaf::ProcessorInfo, RegisterSlot::Ecx, 0x0000_0020),
            Feature::Smx => row(QueryLeaf::ProcessorInfo, RegisterSlot::Ecx, 0x0000_0040),
            Feature::Est => row(QueryLeaf::ProcessorInfo, RegisterSlot::Ecx, 0x0000_0080),
            Feature::Tm2 => row(QueryLeaf::ProcessorInfo, RegisterSlot::Ecx, 0x0000_0100),
            Feature::Ssse3 => row(QueryLeaf::ProcessorInfo, RegisterSlot::Ecx, 0x0000_0200),
            Feature::Cid => row(QueryLeaf::ProcessorInfo, RegisterSlot::Ecx, 0x0000_0400),
            Feature::Fma => row(QueryLeaf::ProcessorInfo, RegisterSlot::Ecx, 0x0000_1000),
            Feature::Cx16 => row(QueryLeaf::ProcessorInfo, RegisterSlot::Ecx, 0x0000_2000),
            Feature::Etprd => row(QueryLeaf::ProcessorInfo, RegisterSlot::Ecx, 0x0000_4000),
            Feature::Pdcm => row(QueryLeaf::ProcessorInfo, RegisterSlot::Ecx, 0x0000_8000),
            Feature::Pcid => row(QueryLeaf::ProcessorInfo, RegisterSlot::Ecx, 0x0002_0000),
            Feature::Dca => row(QueryLeaf::ProcessorInfo, RegisterSlot::Ecx, 0x0004_0000),
            Feature::Sse41 => row(QueryLeaf::ProcessorInfo, RegisterSlot::Ecx, 0x0008_0000),
            Feature::Sse42 => row(QueryLeaf::ProcessorInfo, RegisterSlot::Ecx, 0x0010_0000),
            Feature::X2apic => row(QueryLeaf::ProcessorInfo, RegisterSlot::Ecx, 0x0020_0000),
            Feature::Movbe => row(QueryLeaf::ProcessorInfo, RegisterSlot::Ecx, 0x0040_0000),
            Feature::Popcnt => row(QueryLeaf::ProcessorInfo, RegisterSlot::Ecx, 0x0080_0000),
            Feature::TscDeadline => row(QueryLeaf::ProcessorInfo, RegisterSlot::Ecx, 0x0100_0000),
            Feature::Aes => row(QueryLeaf::ProcessorInfo, RegisterSlot::Ecx, 0x0200_0000),
            Feature::Xsave => row(QueryLeaf::ProcessorInfo, RegisterSlot::Ecx, 0x0400_0000),
            Feature::Osxsave => row(QueryLeaf::ProcessorInfo, RegisterSlot::Ecx, 0x0800_0000),
            Feature::Avx => row(QueryLeaf::ProcessorInfo, RegisterSlot::Ecx, 0x1000_0000),
            Feature::F16c => row(QueryLeaf::ProcessorInfo, RegisterSlot::Ecx, 0x2000_0000),
            Feature::Rdrnd => row(QueryLeaf::ProcessorInfo, RegisterSlot::Ecx, 0x4000_0000),
            Feature::Hypervisor => row(QueryLeaf::ProcessorInfo, RegisterSlot::Ecx, 0x8000_0000),
            // Standard feature flags: leaf 1, `edx`.
            Feature::Fpu => row(QueryLeaf::ProcessorInfo, RegisterSlot::Edx, 0x0000_0001),
            Feature::Vme => row(QueryLeaf::ProcessorInfo, RegisterSlot::Edx, 0x0000_0002),
            Feature::De => row(QueryLeaf::ProcessorInfo, RegisterSlot::Edx, 0x0000_0004),
            Feature::Pse => row(QueryLeaf::ProcessorInfo, RegisterSlot::Edx, 0x0000_0008),
            Feature::Tsc => row(QueryLeaf::ProcessorInfo, RegisterSlot::Edx, 0x0000_0010),
            Feature::Msr => row(QueryLeaf::ProcessorInfo, RegisterSlot::Edx, 0x0000_0020),
            Feature::Pae => row(QueryLeaf::ProcessorInfo, RegisterSlot::Edx, 0x0000_0040),
            Feature::Mce => row(QueryLeaf::ProcessorInfo, RegisterSlot::Edx, 0x0000_0080),
            Feature::Cx8 => row(QueryLeaf::ProcessorInfo, RegisterSlot::Edx, 0x0000_0100),
            Feature::Apic => row(QueryLeaf::ProcessorInfo, RegisterSlot::Edx, 0x0000_0200),
            Feature::Sep => row(QueryLeaf::ProcessorInfo, RegisterSlot::Edx, 0x0000_0800),
            Feature::Mtrr => row(QueryLeaf::ProcessorInfo, RegisterSlot::Edx, 0x0000_1000),
            Feature::Pge => row(QueryLeaf::ProcessorInfo, RegisterSlot::Edx, 0x0000_2000),
            Feature::Mca => row(QueryLeaf::ProcessorInfo, RegisterSlot::Edx, 0x0000_4000),
            Feature::Cmov => row(QueryLeaf::ProcessorInfo, RegisterSlot::Edx, 0x0000_8000),
            Feature::Pat => row(QueryLeaf::ProcessorInfo, RegisterSlot::Edx, 0x0001_0000),
            Feature::Pse36 => row(QueryLeaf::ProcessorInfo, RegisterSlot::Edx, 0x0002_0000),
            Feature::Psn => row(QueryLeaf::ProcessorInfo, RegisterSlot::Edx, 0x0004_0000),
            Feature::Clf => row(QueryLeaf::ProcessorInfo, RegisterSlot::Edx, 0x0008_0000),
            Feature::Dtes => row(QueryLeaf::ProcessorInfo, RegisterSlot::Edx, 0x0020_0000),
            Feature::Acpi => row(QueryLeaf::ProcessorInfo, RegisterSlot::Edx, 0x0040_0000),
            Feature::Mmx => row(QueryLeaf::ProcessorInfo, RegisterSlot::Edx, 0x0080_0000),
            Feature::Fxsr => row(QueryLeaf::ProcessorInfo, RegisterSlot::Edx, 0x0100_0000),
            Feature::Sse => row(QueryLeaf::ProcessorInfo, RegisterSlot::Edx, 0x0200_0000),
            Feature::Sse2 => row(QueryLeaf::ProcessorInfo, RegisterSlot::Edx, 0x0400_0000),
            Feature::Ss => row(QueryLeaf::ProcessorInfo, RegisterSlot::Edx, 0x0800_0000),
            Feature::Htt => row(QueryLeaf::ProcessorInfo, RegisterSlot::Edx, 0x1000_0000),
            Feature::Tm1 => row(QueryLeaf::ProcessorInfo, RegisterSlot::Edx, 0x2000_0000),
            Feature::Ia64 => row(QueryLeaf::ProcessorInfo, RegisterSlot::Edx, 0x4000_0000),
            Feature::Pbe => row(QueryLeaf::ProcessorInfo, RegisterSlot::Edx, 0x8000_0000),
            // Structured extended feature flags: leaf 7, `ebx`.
            Feature::Fsgsbase => row(QueryLeaf::ExtendedFeatures, RegisterSlot::Ebx, 0x0000_0001),
            Feature::Bmi1 => row(QueryLeaf::ExtendedFeatures, RegisterSlot::Ebx, 0x0000_0008),
            Feature::Hle => row(QueryLeaf::ExtendedFeatures, RegisterSlot::Ebx, 0x0000_0010),
            Feature::Avx2 => row(QueryLeaf::ExtendedFeatures, RegisterSlot::Ebx, 0x0000_0020),
            Feature::Smep => row(QueryLeaf::ExtendedFeatures, RegisterSlot::Ebx, 0x0000_0080),
            Feature::Bmi2 => row(QueryLeaf::ExtendedFeatures, RegisterSlot::Ebx, 0x0000_0100),
            Feature::Erms => row(QueryLeaf::ExtendedFeatures, RegisterSlot::Ebx, 0x0000_0200),
            Feature::Invpcid => row(QueryLeaf::ExtendedFeatures, RegisterSlot::Ebx, 0x0000_0400),
            Feature::Rtm => row(QueryLeaf::ExtendedFeatures, RegisterSlot::Ebx, 0x0000_0800),
            Feature::Mpx => row(QueryLeaf::ExtendedFeatures, RegisterSlot::Ebx, 0x0000_4000),
            Feature::Avx512f => row(QueryLeaf::ExtendedFeatures, RegisterSlot::Ebx, 0x0001_0000),
            Feature::Avx512dq => row(QueryLeaf::ExtendedFeatures, RegisterSlot::Ebx, 0x0002_0000),
            Feature::Rdseed => row(QueryLeaf::ExtendedFeatures, RegisterSlot::Ebx, 0x0004_0000),
            Feature::Adx => row(QueryLeaf::ExtendedFeatures, RegisterSlot::Ebx, 0x0008_0000),
            Feature::Smap => row(QueryLeaf::ExtendedFeatures, RegisterSlot::Ebx, 0x0010_0000),
            Feature::Avx512ifma => row(QueryLeaf::ExtendedFeatures, RegisterSlot::Ebx, 0x0020_0000),
            Feature::Pcommit => row(QueryLeaf::ExtendedFeatures, RegisterSlot::Ebx, 0x0040_0000),
            Feature::Clflushopt => row(QueryLeaf::ExtendedFeatures, RegisterSlot::Ebx, 0x0080_0000),
            Feature::Clwb => row(QueryLeaf::ExtendedFeatures, RegisterSlot::Ebx, 0x0100_0000),
            Feature::IntelPt => row(QueryLeaf::ExtendedFeatures, RegisterSlot::Ebx, 0x0200_0000),
            Feature::Avx512pf => row(QueryLeaf::ExtendedFeatures, RegisterSlot::Ebx, 0x0400_0000),
            Feature::Avx512er => row(QueryLeaf::ExtendedFeatures, RegisterSlot::Ebx, 0x0800_0000),
            Feature::Avx512cd => row(QueryLeaf::ExtendedFeatures, RegisterSlot::Ebx, 0x1000_0000),
            Feature::Sha => row(QueryLeaf::ExtendedFeatures, RegisterSlot::Ebx, 0x2000_0000),
            Feature::Avx512bw => row(QueryLeaf::ExtendedFeatures, RegisterSlot::Ebx, 0x4000_0000),
            Feature::Avx512vl => row(QueryLeaf::ExtendedFeatures, RegisterSlot::Ebx, 0x8000_0000),
            // Structured extended feature flags: leaf 7, `ecx`.
            Feature::Prefetchwt1 => row(QueryLeaf::ExtendedFeatures, RegisterSlot::Ecx, 0x0000_0001),
            Feature::Avx512vbmi => row(QueryLeaf::ExtendedFeatures, RegisterSlot::Ecx, 0x0000_0002),
            // AMD feature flags: leaf `0x8000_0001`, `edx`. Several repeat a flag of leaf 1 and are told apart by their names.
            Feature::AmdFpu => row(QueryLeaf::ExtendedProcessorInfo, RegisterSlot::Edx, 0x0000_0001),
            Feature::AmdVme => row(QueryLeaf::ExtendedProcessorInfo, RegisterSlot::Edx, 0x0000_0002),
            Feature::AmdDe => row(QueryLeaf::ExtendedProcessorInfo, RegisterSlot::Edx, 0x0000_0004),
            Feature::AmdPse => row(QueryLeaf::ExtendedProcessorInfo, RegisterSlot::Edx, 0x0000_0008),
            Feature::AmdTsc => row(QueryLeaf::ExtendedProcessorInfo, RegisterSlot::Edx, 0x0000_0010),
            Feature::AmdMsr => row(QueryLeaf::ExtendedProcessorInfo, RegisterSlot::Edx, 0x0000_0020),
            Feature::AmdPae => row(QueryLeaf::ExtendedProcessorInfo, RegisterSlot::Edx, 0x0000_0040),
            Feature::AmdMce => row(QueryLeaf::ExtendedProcessorInfo, RegisterSlot::Edx, 0x0000_0080),
            Feature::AmdCx8 => row(QueryLeaf::ExtendedProcessorInfo, RegisterSlot::Edx, 0x0000_0100),
            Feature::AmdApic => row(QueryLeaf::ExtendedProcessorInfo, RegisterSlot::Edx, 0x0000_0200),
            Feature::AmdSyscall => row(QueryLeaf::ExtendedProcessorInfo, RegisterSlot::Edx, 0x0000_0800),
            Feature::AmdMtrr => row(QueryLeaf::ExtendedProcessorInfo, RegisterSlot::Edx, 0x0000_1000),
            Feature::AmdPge => row(QueryLeaf::ExtendedProcessorInfo, RegisterSlot::Edx, 0x0000_2000),
            Feature::AmdMca => row(QueryLeaf::ExtendedProcessorInfo, RegisterSlot::Edx, 0x0000_4000),
            Feature::AmdCmov => row(QueryLeaf::ExtendedProcessorInfo, RegisterSlot::Edx, 0x0000_8000),
            Feature::AmdPat => row(QueryLeaf::ExtendedProcessorInfo, RegisterSlot::Edx, 0x0001_0000),
            Feature::AmdPse36 => row(QueryLeaf::ExtendedProcessorInfo, RegisterSlot::Edx, 0x0002_0000),
            Feature::AmdMp => row(QueryLeaf::ExtendedProcessorInfo, RegisterSlot::Edx, 0x0008_0000),
            Feature::AmdNx => row(QueryLeaf::ExtendedProcessorInfo, RegisterSlot::Edx, 0x0010_0000),
            Feature::AmdMmxext => row(QueryLeaf::ExtendedProcessorInfo, RegisterSlot::Edx, 0x0040_0000),
            Feature::AmdMmx => row(QueryLeaf::ExtendedProcessorInfo, RegisterSlot::Edx, 0x0080_0000),
            Feature::AmdFxsr => row(QueryLeaf::ExtendedProcessorInfo, RegisterSlot::Edx, 0x0100_0000),
            Feature::AmdFxsrOpt => row(QueryLeaf::ExtendedProcessorInfo, RegisterSlot::Edx, 0x0200_0000),
            Feature::AmdPdpe1gb => row(QueryLeaf::ExtendedProcessorInfo, RegisterSlot::Edx, 0x0400_0000),
            Feature::AmdRdtscp => row(QueryLeaf::ExtendedProcessorInfo, RegisterSlot::Edx, 0x0800_0000),
            Feature::AmdLm => row(QueryLeaf::ExtendedProcessorInfo, RegisterSlot::Edx, 0x2000_0000),
            Feature::Amd3dnowext => row(QueryLeaf::ExtendedProcessorInfo, RegisterSlot::Edx, 0x4000_0000),
            Feature::Amd3dnow => row(QueryLeaf::ExtendedProcessorInfo, RegisterSlot::Edx, 0x8000_0000),
            // AMD feature flags: leaf `0x8000_0001`, `ecx`.
            Feature::AmdLahfLm => row(QueryLeaf::ExtendedProcessorInfo, RegisterSlot::Ecx, 0x0000_0001),
            Feature::AmdCmpLegacy => row(QueryLeaf::ExtendedProcessorInfo, RegisterSlot::Ecx, 0x0000_0002),
            Feature::AmdSvm => row(QueryLeaf::ExtendedProcessorInfo, RegisterSlot::Ecx, 0x0000_0004),
            Feature::AmdExtapic => row(QueryLeaf::ExtendedProcessorInfo, RegisterSlot::Ecx, 0x0000_0008),
            Feature::AmdCr8Legacy => row(QueryLeaf::ExtendedProcessorInfo, RegisterSlot::Ecx, 0x0000_0010),
            Feature::AmdAbm => row(QueryLeaf::ExtendedProcessorInfo, RegisterSlot::Ecx, 0x0000_0020),
            Feature::AmdSse4a => row(QueryLeaf::ExtendedProcessorInfo, RegisterSlot::Ecx, 0x0000_0040),
            Feature::AmdMisalignsse => row(QueryLeaf::ExtendedProcessorInfo, RegisterSlot::Ecx, 0x0000_0080),
            Feature::Amd3dnowprefetch => row(QueryLeaf::ExtendedProcessorInfo, RegisterSlot::Ecx, 0x0000_0100),
            Feature::AmdOsvw => row(QueryLeaf::ExtendedProcessorInfo, RegisterSlot::Ecx, 0x0000_0200),
            Feature::AmdIbs => row(QueryLeaf::ExtendedProcessorInfo, RegisterSlot::Ecx, 0x0000_0400),
            Feature::AmdXop => row(QueryLeaf::ExtendedProcessorInfo, RegisterSlot::Ecx, 0x0000_0800),
            Feature::AmdSkinit => row(QueryLeaf::ExtendedProcessorInfo, RegisterSlot::Ecx, 0x0000_1000),
            Feature::AmdWdt => row(QueryLeaf::ExtendedProcessorInfo, RegisterSlot::Ecx, 0x0000_2000),
            Feature::AmdLwp => row(QueryLeaf::ExtendedProcessorInfo, RegisterSlot::Ecx, 0x0000_8000),
            Feature::AmdFma4 => row(QueryLeaf::ExtendedProcessorInfo, RegisterSlot::Ecx, 0x0001_0000),
            Feature::AmdTce => row(QueryLeaf::ExtendedProcessorInfo, RegisterSlot::Ecx, 0x0002_0000),
            Feature::AmdNodeidMsr => row(QueryLeaf::ExtendedProcessorInfo, RegisterSlot::Ecx, 0x0008_0000),
            Feature::AmdTbm => row(QueryLeaf::ExtendedProcessorInfo, RegisterSlot::Ecx, 0x0020_0000),
            Feature::AmdTopoext => row(QueryLeaf::ExtendedProcessorInfo, RegisterSlot::Ecx, 0x0040_0000),
            Feature::AmdPerfctrCore => row(QueryLeaf::ExtendedProcessorInfo, RegisterSlot::Ecx, 0x0080_0000),
            Feature::AmdPerfctrNb => row(QueryLeaf::ExtendedProcessorInfo, RegisterSlot::Ecx, 0x0100_0000),
            Feature::AmdDbx => row(QueryLeaf::ExtendedProcessorInfo, RegisterSlot::Ecx, 0x0400_0000),
            Feature::AmdPerftsc => row(QueryLeaf::ExtendedProcessorInfo, RegisterSlot::Ecx, 0x0800_0000),
            Feature::AmdPcxL2i => row(QueryLeaf::ExtendedProcessorInfo, RegisterSlot::Ecx, 0x1000_0000),
        }
    }

    /// The row of the table for this capability.
    #[verifier::when_used_as_spec(spec_descriptor)]
    pub fn descriptor(self) -> (d: FeatureDescriptor)
        ensures
            d == self.spec_descriptor(),
    {
        match self {
            // Processor signature fields: leaf 1, `eax`.
            Feature::Stepping => row(QueryLeaf::ProcessorInfo, RegisterSlot::Eax, 0x0000_000f),
            Feature::Model => row(QueryLeaf::ProcessorInfo, RegisterSlot::Eax, 0x0000_00f0),
            Feature::Family => row(QueryLeaf::ProcessorInfo, RegisterSlot::Eax, 0x0000_0f00),
            Feature::ProcessorType => row(QueryLeaf::ProcessorInfo, RegisterSlot::Eax, 0x0000_3000),
            Feature::ExtendedModel => row(QueryLeaf::ProcessorInfo, RegisterSlot::Eax, 0x000f_0000),
            Feature::ExtendedFamily => row(QueryLeaf::ProcessorInfo, RegisterSlot::Eax, 0x0ff0_0000),
            // Standard feature flags: leaf 1, `ecx`.
            Feature::Sse3 => row(QueryLeaf::ProcessorInfo, RegisterSlot::Ecx, 0x0000_0001),
            Feature::Pclmul => row(QueryLeaf::ProcessorInfo, RegisterSlot::Ecx, 0x0000_0002),
            Feature::Dtes64 => row(QueryLeaf::ProcessorInfo, RegisterSlot::Ecx, 0x0000_0004),
            Feature::Monitor => row(QueryLeaf::ProcessorInfo, RegisterSlot::Ecx, 0x0000_0008),
            Feature::DsCpl => row(QueryLeaf::ProcessorInfo, RegisterSlot::Ecx, 0x0000_0010),
            Feature::Vmx => row(QueryLeaf::ProcessorInfo, RegisterSlot::Ecx, 0x0000_0020),
            Feature::Smx => row(QueryLeaf::ProcessorInfo, RegisterSlot::Ecx, 0x0000_0040),
            Feature::Est => row(QueryLeaf::ProcessorInfo, RegisterSlot::Ecx, 0x0000_0080),
            Feature::Tm2 => row(QueryLeaf::ProcessorInfo, RegisterSlot::Ecx, 0x0000_0100),
            Feature::Ssse3 => row(QueryLeaf::ProcessorInfo, RegisterSlot::Ecx, 0x0000_0200),
            Feature::Cid => row(QueryLeaf::ProcessorInfo, RegisterSlot::Ecx, 0x0000_0400),
            Feature::Fma => row(QueryLeaf::ProcessorInfo, RegisterSlot::Ecx, 0x0000_1000),
            Feature::Cx16 => row(QueryLeaf::ProcessorInfo, RegisterSlot::Ecx, 0x0000_2000),
            Feature::Etprd => row(QueryLeaf::ProcessorInfo, RegisterSlot::Ecx, 0x0000_4000),
            Feature::Pdcm => row(QueryLeaf::ProcessorInfo, RegisterSlot::Ecx, 0x0000_8000),
            Feature::Pcid => row(QueryLeaf::ProcessorInfo, RegisterSlot::Ecx, 0x0002_0000),
            Feature::Dca => row(QueryLeaf::ProcessorInfo, RegisterSlot::Ecx, 0x0004_0000),
            Feature::Sse41 => row(QueryLeaf::ProcessorInfo, RegisterSlot::Ecx, 0x0008_0000),
            Feature::Sse42 => row(QueryLeaf::ProcessorInfo, RegisterSlot::Ecx, 0x0010_0000),
            Feature::X2apic => row(QueryLeaf::ProcessorInfo, RegisterSlot::Ecx, 0x0020_0000),
            Feature::Movbe => row(QueryLeaf::ProcessorInfo, RegisterSlot::Ecx, 0x0040_0000),
            Feature::Popcnt => row(QueryLeaf::ProcessorInfo, RegisterSlot::Ecx, 0x0080_0000),
            Feature::TscDeadline => row(QueryLeaf::ProcessorInfo, RegisterSlot::Ecx, 0x0100_0000),
            Feature::Aes => row(QueryLeaf::ProcessorInfo, RegisterSlot::Ecx, 0x0200_0000),
            Feature::Xsave => row(QueryLeaf::ProcessorInfo, RegisterSlot::Ecx, 0x0400_0000),
            Feature::Osxsave => row(QueryLeaf::ProcessorInfo, RegisterSlot::Ecx, 0x0800_0000),
            Feature::Avx => row(QueryLeaf::ProcessorInfo, RegisterSlot::Ecx, 0x1000_0000),
            Feature::F16c => row(QueryLeaf::ProcessorInfo, RegisterSlot::Ecx, 0x2000_0000),
            Feature::Rdrnd => row(QueryLeaf::ProcessorInfo, RegisterSlot::Ecx, 0x4000_0000),
            Feature::Hypervisor => row(QueryLeaf::ProcessorInfo, RegisterSlot::Ecx, 0x8000_0000),
            // Standard feature flags: leaf 1, `edx`.
            Feature::Fpu => row(QueryLeaf::ProcessorInfo, RegisterSlot::Edx, 0x0000_0001),
            Feature::Vme => row(QueryLeaf::ProcessorInfo, RegisterSlot::Edx, 0x0000_0002),
            Feature::De => row(QueryLeaf::ProcessorInfo, RegisterSlot::Edx, 0x0000_0004),
            Feature::Pse => row(QueryLeaf::ProcessorInfo, RegisterSlot::Edx, 0x0000_0008),
            Feature::Tsc => row(QueryLeaf::ProcessorInfo, RegisterSlot::Edx, 0x0000_0010),
            Feature::Msr => row(QueryLeaf::ProcessorInfo, RegisterSlot::Edx, 0x0000_0020),
            Feature::Pae => row(QueryLeaf::ProcessorInfo, RegisterSlot::Edx, 0x0000_0040),
            Feature::Mce => row(QueryLeaf::ProcessorInfo, RegisterSlot::Edx, 0x0000_0080),
            Feature::Cx8 => row(QueryLeaf::ProcessorInfo, RegisterSlot::Edx, 0x0000_0100),
            Feature::Apic => row(QueryLeaf::ProcessorInfo, RegisterSlot::Edx, 0x0000_0200),
            Feature::Sep => row(QueryLeaf::ProcessorInfo, RegisterSlot::Edx, 0x0000_0800),
            Feature::Mtrr => row(QueryLeaf::ProcessorInfo, RegisterSlot::Edx, 0x0000_1000),
            Feature::Pge => row(QueryLeaf::ProcessorInfo, RegisterSlot::Edx, 0x0000_2000),
            Feature::Mca => row(QueryLeaf::ProcessorInfo, RegisterSlot::Edx, 0x0000_4000),
            Feature::Cmov => row(QueryLeaf::ProcessorInfo, RegisterSlot::Edx, 0x0000_8000),
            Feature::Pat => row(QueryLeaf::ProcessorInfo, RegisterSlot::Edx, 0x0001_0000),
            Feature::Pse36 => row(QueryLeaf::ProcessorInfo, RegisterSlot::Edx, 0x0002_0000),
            Feature::Psn => row(QueryLeaf::ProcessorInfo, RegisterSlot::Edx, 0x0004_0000),
            Feature::Clf => row(QueryLeaf::ProcessorInfo, RegisterSlot::Edx, 0x0008_0000),
            Feature::Dtes => row(QueryLeaf::ProcessorInfo, RegisterSlot::Edx, 0x0020_0000),
            Feature::Acpi => row(QueryLeaf::ProcessorInfo, RegisterSlot::Edx, 0x0040_0000),
            Feature::Mmx => row(QueryLeaf::ProcessorInfo, RegisterSlot::Edx, 0x0080_0000),
            Feature::Fxsr => row(QueryLeaf::ProcessorInfo, RegisterSlot::Edx, 0x0100_0000),
            Feature::Sse => row(QueryLeaf::ProcessorInfo, RegisterSlot::Edx, 0x0200_0000),
            Feature::Sse2 => row(QueryLeaf::ProcessorInfo, RegisterSlot::Edx, 0x0400_0000),
            Feature::Ss => row(QueryLeaf::ProcessorInfo, RegisterSlot::Edx, 0x0800_0000),
            Feature::Htt => row(QueryLeaf::ProcessorInfo, RegisterSlot::Edx, 0x1000_0000),
            Feature::Tm1 => row(QueryLeaf::ProcessorInfo, RegisterSlot::Edx, 0x2000_0000),
            Feature::Ia64 => row(QueryLeaf::ProcessorInfo, RegisterSlot::Edx, 0x4000_0000),
            Feature::Pbe => row(QueryLeaf::ProcessorInfo, RegisterSlot::Edx, 0x8000_0000),
            // Structured extended feature flags: leaf 7, `ebx`.
            Feature::Fsgsbase => row(QueryLeaf::ExtendedFeatures, RegisterSlot::Ebx, 0x0000_0001),
            Feature::Bmi1 => row(QueryLeaf::ExtendedFeatures, RegisterSlot::Ebx, 0x0000_0008),
            Feature::Hle => row(QueryLeaf::ExtendedFeatures, RegisterSlot::Ebx, 0x0000_0010),
            Feature::Avx2 => row(QueryLeaf::ExtendedFeatures, RegisterSlot::Ebx, 0x0000_0020),
            Feature::Smep => row(QueryLeaf::ExtendedFeatures, RegisterSlot::Ebx, 0x0000_0080),
            Feature::Bmi2 => row(QueryLeaf::ExtendedFeatures, RegisterSlot::Ebx, 0x0000_0100),
            Feature::Erms => row(QueryLeaf::ExtendedFeatures, RegisterSlot::Ebx, 0x0000_0200),
            Feature::Invpcid => row(QueryLeaf::ExtendedFeatures, RegisterSlot::Ebx, 0x0000_0400),
            Feature::Rtm => row(QueryLeaf::ExtendedFeatures, RegisterSlot::Ebx, 0x0000_0800),
            Feature::Mpx => row(QueryLeaf::ExtendedFeatures, RegisterSlot::Ebx, 0x0000_4000),
            Feature::Avx512f => row(QueryLeaf::ExtendedFeatures, RegisterSlot::Ebx, 0x0001_0000),
            Feature::Avx512dq => row(QueryLeaf::ExtendedFeatures, RegisterSlot::Ebx, 0x0002_0000),
            Feature::Rdseed => row(QueryLeaf::ExtendedFeatures, RegisterSlot::Ebx, 0x0004_0000),
            Feature::Adx => row(QueryLeaf::ExtendedFeatures, RegisterSlot::Ebx, 0x0008_0000),
            Feature::Smap => row(QueryLeaf::ExtendedFeatures, RegisterSlot::Ebx, 0x0010_0000),
            Feature::Avx512ifma => row(QueryLeaf::ExtendedFeatures, RegisterSlot::Ebx, 0x0020_0000),
            Feature::Pcommit => row(QueryLeaf::ExtendedFeatures, RegisterSlot::Ebx, 0x0040_0000),
            Feature::Clflushopt => row(QueryLeaf::ExtendedFeatures, RegisterSlot::Ebx, 0x0080_0000),
            Feature::Clwb => row(QueryLeaf::ExtendedFeatures, RegisterSlot::Ebx, 0x0100_0000),
            Feature::IntelPt => row(QueryLeaf::ExtendedFeatures, RegisterSlot::Ebx, 0x0200_0000),
            Feature::Avx512pf => row(QueryLeaf::ExtendedFeatures, RegisterSlot::Ebx, 0x0400_0000),
            Feature::Avx512er => row(QueryLeaf::ExtendedFeatures, RegisterSlot::Ebx, 0x0800_0000),
            Feature::Avx512cd => row(QueryLeaf::ExtendedFeatures, RegisterSlot::Ebx, 0x1000_0000),
            Feature::Sha => row(QueryLeaf::ExtendedFeatures, RegisterSlot::Ebx, 0x2000_0000),
            Feature::Avx512bw => row(QueryLeaf::ExtendedFeatures, RegisterSlot::Ebx, 0x4000_0000),
            Feature::Avx512vl => row(QueryLeaf::ExtendedFeatures, RegisterSlot::Ebx, 0x8000_0000),
            // Structured extended feature flags: leaf 7, `ecx`.
            Feature::Prefetchwt1 => row(QueryLeaf::ExtendedFeatures, RegisterSlot::Ecx, 0x0000_0001),
            Feature::Avx512vbmi => row(QueryLeaf::ExtendedFeatures, RegisterSlot::Ecx, 0x0000_0002),
            // AMD feature flags: leaf `0x8000_0001`, `edx`. Several repeat a flag of leaf 1 and are told apart by their names.
            Feature::AmdFpu => row(QueryLeaf::ExtendedProcessorInfo, RegisterSlot::Edx, 0x0000_0001),
            Feature::AmdVme => row(QueryLeaf::ExtendedProcessorInfo, RegisterSlot::Edx, 0x0000_0002),
            Feature::AmdDe => row(QueryLeaf::ExtendedProcessorInfo, RegisterSlot::Edx, 0x0000_0004),
            Feature::AmdPse => row(QueryLeaf::ExtendedProcessorInfo, RegisterSlot::Edx, 0x0000_0008),
            Feature::AmdTsc => row(QueryLeaf::ExtendedProcessorInfo, RegisterSlot::Edx, 0x0000_0010),
            Feature::AmdMsr => row(QueryLeaf::ExtendedProcessorInfo, RegisterSlot::Edx, 0x0000_0020),
            Feature::AmdPae => row(QueryLeaf::ExtendedProcessorInfo, RegisterSlot::Edx, 0x0000_0040),
            Feature::AmdMce => row(QueryLeaf::ExtendedProcessorInfo, RegisterSlot::Edx, 0x0000_0080),
            Feature::AmdCx8 => row(QueryLeaf::ExtendedProcessorInfo, RegisterSlot::Edx, 0x0000_0100),
            Feature::AmdApic => row(QueryLeaf::ExtendedProcessorInfo, RegisterSlot::Edx, 0x0000_0200),
            Feature::AmdSyscall => row(QueryLeaf::ExtendedProcessorInfo, RegisterSlot::Edx, 0x0000_0800),
            Feature::AmdMtrr => row(QueryLeaf::ExtendedProcessorInfo, RegisterSlot::Edx, 0x0000_1000),
            Feature::AmdPge => row(QueryLeaf::ExtendedProcessorInfo, RegisterSlot::Edx, 0x0000_2000),
            Feature::AmdMca => row(QueryLeaf::ExtendedProcessorInfo, RegisterSlot::Edx, 0x0000_4000),
            Feature::AmdCmov => row(QueryLeaf::ExtendedProcessorInfo, RegisterSlot::Edx, 0x0000_8000),
            Feature::AmdPat => row(QueryLeaf::ExtendedProcessorInfo, RegisterSlot::Edx, 0x0001_0000),
            Feature::AmdPse36 => row(QueryLeaf::ExtendedProcessorInfo, RegisterSlot::Edx, 0x0002_0000),
            Feature::AmdMp => row(QueryLeaf::ExtendedProcessorInfo, RegisterSlot::Edx, 0x0008_0000),
            Feature::AmdNx => row(QueryLeaf::ExtendedProcessorInfo, RegisterSlot::Edx, 0x0010_0000),
            Feature::AmdMmxext => row(QueryLeaf::ExtendedProcessorInfo, RegisterSlot::Edx, 0x0040_0000),
            Feature::AmdMmx => row(QueryLeaf::ExtendedProcessorInfo, RegisterSlot::Edx, 0x0080_0000),
            Feature::AmdFxsr => row(QueryLeaf::ExtendedProcessorInfo, RegisterSlot::Edx, 0x0100_0000),
            Feature::AmdFxsrOpt => row(QueryLeaf::ExtendedProcessorInfo, RegisterSlot::Edx, 0x0200_0000),
            Feature::AmdPdpe1gb => row(QueryLeaf::ExtendedProcessorInfo, RegisterSlot::Edx, 0x0400_0000),
            Feature::AmdRdtscp => row(QueryLeaf::ExtendedProcessorInfo, RegisterSlot::Edx, 0x0800_0000),
            Feature::AmdLm => row(QueryLeaf::ExtendedProcessorInfo, RegisterSlot::Edx, 0x2000_0000),
            Feature::Amd3dnowext => row(QueryLeaf::ExtendedProcessorInfo, RegisterSlot::Edx, 0x4000_0000),
            Feature::Amd3dnow => row(QueryLeaf::ExtendedProcessorInfo, RegisterSlot::Edx, 0x8000_0000),
            // AMD feature flags: leaf `0x8000_0001`, `ecx`.
            Feature::AmdLahfLm => row(QueryLeaf::ExtendedProcessorInfo, RegisterSlot::Ecx, 0x0000_0001),
            Feature::AmdCmpLegacy => row(QueryLeaf::ExtendedProcessorInfo, RegisterSlot::Ecx, 0x0000_0002),
            Feature::AmdSvm => row(QueryLeaf::ExtendedProcessorInfo, RegisterSlot::Ecx, 0x0000_0004),
            Feature::AmdExtapic => row(QueryLeaf::ExtendedProcessorInfo, RegisterSlot::Ecx, 0x0000_0008),
            Feature::AmdCr8Legacy => row(QueryLeaf::ExtendedProcessorInfo, RegisterSlot::Ecx, 0x0000_0010),
            Feature::AmdAbm => row(QueryLeaf::ExtendedProcessorInfo, RegisterSlot::Ecx, 0x0000_0020),
            Feature::AmdSse4a => row(QueryLeaf::ExtendedProcessorInfo, RegisterSlot::Ecx, 0x0000_0040),
            Feature::AmdMisalignsse => row(QueryLeaf::ExtendedProcessorInfo, RegisterSlot::Ecx, 0x0000_0080),
            Feature::Amd3dnowprefetch => row(QueryLeaf::ExtendedProcessorInfo, RegisterSlot::Ecx, 0x0000_0100),
            Feature::AmdOsvw => row(QueryLeaf::ExtendedProcessorInfo, RegisterSlot::Ecx, 0x0000_0200),
            Feature::AmdIbs => row(QueryLeaf::ExtendedProcessorInfo, RegisterSlot::Ecx, 0x0000_0400),
            Feature::AmdXop => row(QueryLeaf::ExtendedProcessorInfo, RegisterSlot::Ecx, 0x0000_0800),
            Feature::AmdSkinit => row(QueryLeaf::ExtendedProcessorInfo, RegisterSlot::Ecx, 0x0000_1000),
            Feature::AmdWdt => row(QueryLeaf::ExtendedProcessorInfo, RegisterSlot::Ecx, 0x0000_2000),
            Feature::AmdLwp => row(QueryLeaf::ExtendedProcessorInfo, RegisterSlot::Ecx, 0x0000_8000),
            Feature::AmdFma4 => row(QueryLeaf::ExtendedProcessorInfo, RegisterSlot::Ecx, 0x0001_0000),
            Feature::AmdTce => row(QueryLeaf::ExtendedProcessorInfo, RegisterSlot::Ecx, 0x0002_0000),
            Feature::AmdNodeidMsr => row(QueryLeaf::ExtendedProcessorInfo, RegisterSlot::Ecx, 0x0008_0000),
            Feature::AmdTbm => row(QueryLeaf::ExtendedProcessorInfo, RegisterSlot::Ecx, 0x0020_0000),
            Feature::AmdTopoext => row(QueryLeaf::ExtendedProcessorInfo, RegisterSlot::Ecx, 0x0040_0000),
            Feature::AmdPerfctrCore => row(QueryLeaf::ExtendedProcessorInfo, RegisterSlot::Ecx, 0x0080_0000),
            Feature::AmdPerfctrNb => row(QueryLeaf::ExtendedProcessorInfo, RegisterSlot::Ecx, 0x0100_0000),
            Feature::AmdDbx => row(QueryLeaf::ExtendedProcessorInfo, RegisterSlot::Ecx, 0x0400_0000),
            Feature::AmdPerftsc => row(QueryLeaf::ExtendedProcessorInfo, RegisterSlot::Ecx, 0x0800_0000),
            Feature::AmdPcxL2i => row(QueryLeaf::ExtendedProcessorInfo, RegisterSlot::Ecx, 0x1000_0000),
        }
    }
}

/// Every row of the table has at least one bit in its mask.
pub proof fn lemma_mask_not_empty(feature: Feature)
    ensures
        feature.spec_descriptor().mask != 0,
{
}

/// No two rows of the table that share a leaf and a register share a mask.
pub proof fn lemma_masks_unique(a: Feature, b: Feature)
    requires
        a != b,
        a.spec_descriptor().leaf == b.spec_descriptor().leaf,
        a.spec_descriptor().slot == b.spec_descriptor().slot,
    ensures
        a.spec_descriptor().mask != b.spec_descriptor().mask,
{
}

} // verus!
