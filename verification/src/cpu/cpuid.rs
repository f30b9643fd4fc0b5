//! Processor identification through the `cpuid` instruction.
//!
//! The instruction itself is issued elsewhere; this module decides which
//! leaves are to be queried and in what order, decodes what comes back and
//! answers feature queries from the values recorded.

use crate::cpu::vendor::{
    decode_vendor, has_extended_info, vendor_has_extended_info, vendor_string,
};
use vstd::prelude::*;

verus! {

/// A class of identification query whose raw result is kept.
#[derive(Clone, Copy, Debug, PartialEq, Eq, Structural)]
pub enum QueryLeaf {
    /// Standard leaf 1: processor signature and standard feature flags.
    ProcessorInfo,
    /// Standard leaf 7: structured extended feature flags.
    ExtendedFeatures,
    /// Extended leaf `0x8000_0001`: extended signature and feature flags.
    ExtendedProcessorInfo,
}

impl QueryLeaf {
    /// The value loaded into `eax` to select this leaf.
    pub open spec fn spec_number(self) -> u32 {
        match self {
            QueryLeaf::ProcessorInfo => 0x1,
            QueryLeaf::ExtendedFeatures => 0x7,
            QueryLeaf::ExtendedProcessorInfo => 0x8000_0001,
        }
    }

    /// The value loaded into `eax` to select this leaf.
    #[verifier::when_used_as_spec(spec_number)]
    pub fn number(self) -> (n: u32)
        ensures
            n == self.spec_number(),
    {
        match self {
            QueryLeaf::ProcessorInfo => 0x1,
            QueryLeaf::ExtendedFeatures => 0x7,
            QueryLeaf::ExtendedProcessorInfo => 0x8000_0001,
        }
    }
}

/// One of the four registers in which a query returns its result.
#[derive(Clone, Copy, Debug, PartialEq, Eq, Structural)]
pub enum RegisterSlot {
    Eax,
    Ebx,
    Ecx,
    Edx,
}

/// The four registers returned by one query, exactly as the processor left
/// them.
#[derive(Clone, Copy, Debug, PartialEq, Eq, Structural)]
pub struct LeafRegisters {
    pub eax: u32,
    pub ebx: u32,
    pub ecx: u32,
    pub edx: u32,
}

impl LeafRegisters {
    /// The register held in `slot`.
    pub open spec fn spec_register(self, slot: RegisterSlot) -> u32 {
        match slot {
            RegisterSlot::Eax => self.eax,
            RegisterSlot::Ebx => self.ebx,
            RegisterSlot::Ecx => self.ecx,
            RegisterSlot::Edx => self.edx,
        }
    }

    /// The register held in `slot`.
    #[verifier::when_used_as_spec(spec_register)]
    pub fn register(self, slot: RegisterSlot) -> (value: u32)
        ensures
            value == self.spec_register(slot),
    {
        match slot {
            RegisterSlot::Eax => self.eax,
            RegisterSlot::Ebx => self.ebx,
            RegisterSlot::Ecx => self.ecx,
            RegisterSlot::Edx => self.edx,
        }
    }

    /// These registers with `value` in `slot`.
    pub open spec fn spec_with_register(self, slot: RegisterSlot, value: u32) -> LeafRegisters {
        match slot {
            RegisterSlot::Eax => LeafRegisters { eax: value, ..self },
            RegisterSlot::Ebx => LeafRegisters { ebx: value, ..self },
            RegisterSlot::Ecx => LeafRegisters { ecx: value, ..self },
            RegisterSlot::Edx => LeafRegisters { edx: value, ..self },
        }
    }

    /// These registers with `value` in `slot`.
    #[verifier::when_used_as_spec(spec_with_register)]
    pub fn with_register(self, slot: RegisterSlot, value: u32) -> (regs: LeafRegisters)
        ensures
            regs == self.spec_with_register(slot, value),
    {
        match slot {
            RegisterSlot::Eax => LeafRegisters { eax: value, ..self },
            RegisterSlot::Ebx => LeafRegisters { ebx: value, ..self },
            RegisterSlot::Ecx => LeafRegisters { ecx: value, ..self },
            RegisterSlot::Edx => LeafRegisters { edx: value, ..self },
        }
    }
}

/// Whether the identification instruction exists, decided from the flags
/// register read before and after an attempt to flip its identification
/// bit: the bit can be flipped exactly where the instruction exists.
pub open spec fn cpuid_supported(flags_before: u32, flags_after: u32) -> bool {
    (flags_before ^ flags_after) & 0x0020_0000 != 0
}

/// Decides the availability probe from the two readings of the flags
/// register that it took.
pub fn get_cpuid_supported(flags_before: u32, flags_after: u32) -> (supported: bool)
    ensures
        supported == cpuid_supported(flags_before, flags_after),
{
    let changed: u32 = (flags_before ^ flags_after) & 0x0020_0000;
    if changed == 0 {
        false
    } else {
        true
    }
}

/// What the setup sequence asks of its driver next.
#[derive(Clone, Copy, Debug, PartialEq, Eq, Structural)]
pub enum SetupAction {
    /// Run the availability probe and report `SetupEvent::Probed`.
    Probe,
    /// Query leaf 0 and report its registers.
    QueryVendor,
    /// Query the leaf named and report its registers.
    Query(QueryLeaf),
    /// Nothing: the sequence is complete.
    Done,
}

/// What the driver of the setup sequence reports back.
#[derive(Clone, Copy, Debug, PartialEq, Eq, Structural)]
pub enum SetupEvent {
    /// The availability probe ran, with this result.
    Probed(bool),
    /// The query last asked for returned these registers.
    Answered(LeafRegisters),
}

/// The mathematical content of the identification cache.
pub struct Identification {
    /// Whether the identification instruction exists.
    pub supported: bool,
    /// The vendor string; twelve zero bytes until leaf 0 has been recorded.
    pub vendor: Seq<u8>,
    /// The highest standard leaf, as leaf 0 reported it.
    pub max_leaf: u32,
    /// The raw registers of each leaf that was queried.
    pub raw: Map<QueryLeaf, LeafRegisters>,
    /// What the setup sequence waits for.
    pub pending: SetupAction,
}

/// Twelve zero bytes: the vendor string of a processor that reported none.
pub open spec fn no_vendor() -> Seq<u8> {
    Seq::new(12, |i: int| 0u8)
}

/// The raw results while no leaf is recorded.
pub open spec fn nothing_recorded() -> Map<QueryLeaf, LeafRegisters> {
    Map::empty()
}

/// The cache before anything is known, and after the probe: nothing is
/// recorded.
pub open spec fn blank(supported: bool, pending: SetupAction) -> Identification {
    Identification {
        supported,
        vendor: no_vendor(),
        max_leaf: 0,
        raw: nothing_recorded(),
        pending,
    }
}

/// The cache as it stands before boot: unsupported, with the probe due.
pub open spec fn initial() -> Identification {
    blank(false, SetupAction::Probe)
}

/// What follows the extended-features stage: the extended processor-info
/// leaf where the vendor makes it meaningful, otherwise nothing.
pub open spec fn extended_info_or_done(vendor: Seq<u8>) -> SetupAction {
    if has_extended_info(vendor) {
        SetupAction::Query(QueryLeaf::ExtendedProcessorInfo)
    } else {
        SetupAction::Done
    }
}

/// What follows the recording of `leaf`.
pub open spec fn action_after(leaf: QueryLeaf, max_leaf: u32, vendor: Seq<u8>) -> SetupAction {
    match leaf {
        QueryLeaf::ProcessorInfo => if max_leaf >= 7 {
            SetupAction::Query(QueryLeaf::ExtendedFeatures)
        } else {
            extended_info_or_done(vendor)
        },
        QueryLeaf::ExtendedFeatures => extended_info_or_done(vendor),
        QueryLeaf::ExtendedProcessorInfo => SetupAction::Done,
    }
}

/// One step of the setup sequence.
///
/// A probe result starts the sequence afresh, whatever went before: all
/// that was recorded is dropped, and leaf 0 is asked for if the instruction
/// exists. Registers answer the query that is pending: leaf 0 gives the
/// highest standard leaf and the vendor string, and ends the sequence if
/// that leaf is below 1; every other leaf is recorded as it came. Registers
/// that answer no pending query change nothing.
pub open spec fn step(v: Identification, event: SetupEvent) -> Identification {
    match event {
        SetupEvent::Probed(supported) => blank(
            supported,
            if supported {
                SetupAction::QueryVendor
            } else {
                SetupAction::Done
            },
        ),
        SetupEvent::Answered(regs) => match v.pending {
            SetupAction::QueryVendor => Identification {
                vendor: vendor_string(regs.ebx, regs.edx, regs.ecx),
                max_leaf: regs.eax,
                pending: if regs.eax < 1 {
                    SetupAction::Done
                } else {
                    SetupAction::Query(QueryLeaf::ProcessorInfo)
                },
                ..v
            },
            SetupAction::Query(leaf) => Identification {
                raw: v.raw.insert(leaf, regs),
                pending: action_after(leaf, v.max_leaf, v.vendor),
                ..v
            },
            _ => v,
        },
    }
}

/// What every cache satisfies, at every point of the sequence: without the
/// instruction nothing is recorded and nothing is asked for; a leaf is
/// recorded, or asked for, only on a processor on which it is due.
pub open spec fn wf(v: Identification) -> bool {
    &&& v.vendor.len() == 12
    &&& !v.supported ==> {
        &&& v.vendor == no_vendor()
        &&& v.max_leaf == 0
        &&& v.raw == nothing_recorded()
        &&& (v.pending is Probe || v.pending is Done)
    }
    &&& v.raw.contains_key(QueryLeaf::ProcessorInfo) ==> v.max_leaf >= 1
    &&& v.raw.contains_key(QueryLeaf::ExtendedFeatures) ==> v.max_leaf >= 7
    &&& v.raw.contains_key(QueryLeaf::ExtendedProcessorInfo) ==> has_extended_info(v.vendor)
    &&& v.pending is QueryVendor ==> v.raw == nothing_recorded()
    &&& v.pending is Query ==> v.max_leaf >= 1
    &&& v.pending == SetupAction::Query(QueryLeaf::ExtendedFeatures) ==> v.max_leaf >= 7
    &&& v.pending == SetupAction::Query(QueryLeaf::ExtendedProcessorInfo) ==> has_extended_info(
        v.vendor,
    )
}

/// A named capability's place in the raw results: the leaf that reports it,
/// the register of that leaf, and the bits of that register.
#[derive(Clone, Copy, Debug, PartialEq, Eq, Structural)]
pub struct FeatureDescriptor {
    pub leaf: QueryLeaf,
    pub slot: RegisterSlot,
    pub mask: u32,
}

impl FeatureDescriptor {
    /// Whether any bit of the capability is set in the registers of its
    /// leaf.
    pub open spec fn spec_query(self, regs: LeafRegisters) -> bool {
        regs.spec_register(self.slot) & self.mask != 0
    }

    /// Whether any bit of the capability is set in the registers of its
    /// leaf.
    #[verifier::when_used_as_spec(spec_query)]
    pub fn query(self, regs: LeafRegisters) -> (present: bool)
        ensures
            present == self.spec_query(regs),
    {
        regs.register(self.slot) & self.mask != 0
    }

    /// The registers `regs` with every bit of the capability set.
    pub open spec fn spec_set_in(self, regs: LeafRegisters) -> LeafRegisters {
        regs.spec_with_register(self.slot, regs.spec_register(self.slot) | self.mask)
    }

    /// The registers `regs` with every bit of the capability set.
    #[verifier::when_used_as_spec(spec_set_in)]
    pub fn set_in(self, regs: LeafRegisters) -> (encoded: LeafRegisters)
        ensures
            encoded == self.spec_set_in(regs),
    {
        regs.with_register(self.slot, regs.register(self.slot) | self.mask)
    }

    /// The registers `regs` with every bit of the capability cleared.
    pub open spec fn spec_clear_in(self, regs: LeafRegisters) -> LeafRegisters {
        regs.spec_with_register(self.slot, regs.spec_register(self.slot) & !self.mask)
    }

    /// The registers `regs` with every bit of the capability cleared.
    #[verifier::when_used_as_spec(spec_clear_in)]
    pub fn clear_in(self, regs: LeafRegisters) -> (encoded: LeafRegisters)
        ensures
            encoded == self.spec_clear_in(regs),
    {
        regs.with_register(self.slot, regs.register(self.slot) & !self.mask)
    }

    /// Whether this capability and `other` share a bit: they lie in the same
    /// register and their masks overlap.
    pub open spec fn overlaps(self, other: FeatureDescriptor) -> bool {
        self.slot == other.slot && self.mask & other.mask != 0
    }
}

/// A capability encoded into a register is found there, and one cleared
/// from it is not, whatever the other bits of the registers hold.
pub proof fn lemma_encode_round_trip(d: FeatureDescriptor, regs: LeafRegisters)
    requires
        d.mask != 0,
    ensures
        d.spec_query(d.spec_set_in(regs)),
        !d.spec_query(d.spec_clear_in(regs)),
{
    let value = regs.spec_register(d.slot);
    let mask = d.mask;
    assert((value | mask) & mask != 0 && (value & !mask) & mask == 0) by (bit_vector)
        requires
            mask != 0,
    ;
}

/// Encoding or clearing one capability leaves the answer for every
/// capability that shares no bit with it as it was.
pub proof fn lemma_encode_independent(
    d: FeatureDescriptor,
    other: FeatureDescriptor,
    regs: LeafRegisters,
)
    requires
        !d.overlaps(other),
    ensures
        other.spec_query(d.spec_set_in(regs)) == other.spec_query(regs),
        other.spec_query(d.spec_clear_in(regs)) == other.spec_query(regs),
{
    if d.slot == other.slot {
        let value = regs.spec_register(d.slot);
        let mask = d.mask;
        let probe = other.mask;
        assert((value | mask) & probe == value & probe && (value & !mask) & probe == value & probe)
            by (bit_vector)
            requires
                mask & probe == 0,
        ;
    }
}

/// Whether the cache reports a capability: its leaf was queried, and some
/// bit of its mask is set in its register. A leaf that was never queried
/// reports nothing.
pub open spec fn feature_present(v: Identification, d: FeatureDescriptor) -> bool {
    v.raw.contains_key(d.leaf) && d.spec_query(v.raw[d.leaf])
}

/// The registers recorded for `leaf`, from the three places in which the
/// raw results are kept.
spec fn recorded(
    processor_info: Option<LeafRegisters>,
    extended_features: Option<LeafRegisters>,
    extended_processor_info: Option<LeafRegisters>,
    leaf: QueryLeaf,
) -> Option<LeafRegisters> {
    match leaf {
        QueryLeaf::ProcessorInfo => processor_info,
        QueryLeaf::ExtendedFeatures => extended_features,
        QueryLeaf::ExtendedProcessorInfo => extended_processor_info,
    }
}

/// The raw results as a map, from the three places in which they are kept.
spec fn raw_map(
    processor_info: Option<LeafRegisters>,
    extended_features: Option<LeafRegisters>,
    extended_processor_info: Option<LeafRegisters>,
) -> Map<QueryLeaf, LeafRegisters> {
    Map::new(
        |leaf: QueryLeaf|
            recorded(processor_info, extended_features, extended_processor_info, leaf) is Some,
        |leaf: QueryLeaf|
            recorded(processor_info, extended_features, extended_processor_info, leaf)->Some_0,
    )
}

/// The identification cache: what the setup sequence has learnt of the
/// processor. It is made once, filled by `setup`, and only read afterwards.
#[derive(Clone, Copy, Debug, PartialEq, Eq)]
pub struct IdentificationState {
    supported: bool,
    vendor: [u8; 12],
    max_leaf: u32,
    processor_info: Option<LeafRegisters>,
    extended_features: Option<LeafRegisters>,
    extended_processor_info: Option<LeafRegisters>,
    pending: SetupAction,
}

impl View for IdentificationState {
    type V = Identification;

    closed spec fn view(&self) -> Identification {
        Identification {
            supported: self.supported,
            vendor: self.vendor@,
            max_leaf: self.max_leaf,
            raw: raw_map(
                self.processor_info,
                self.extended_features,
                self.extended_processor_info,
            ),
            pending: self.pending,
        }
    }
}

impl IdentificationState {
    #[verifier::type_invariant]
    closed spec fn valid(self) -> bool {
        wf(self@)
    }

    /// The cache as it stands before boot: unsupported, nothing recorded,
    /// the probe due.
    pub fn new() -> (state: IdentificationState)
        ensures
            state@ == initial(),
    {
        let vendor = [0u8; 12];
        assert(vendor@ =~= no_vendor());
        assert(raw_map(None, None, None) =~= Map::empty());
        IdentificationState {
            supported: false,
            vendor,
            max_leaf: 0,
            processor_info: None,
            extended_features: None,
            extended_processor_info: None,
            pending: SetupAction::Probe,
        }
    }

    /// What the setup sequence waits for.
    pub fn pending(&self) -> (action: SetupAction)
        ensures
            action == self@.pending,
            wf(self@),
    {
        proof {
            use_type_invariant(self);
        }
        self.pending
    }

    /// Whether the identification instruction exists on this processor.
    pub fn is_supported(&self) -> (supported: bool)
        ensures
            supported == self@.supported,
            wf(self@),
    {
        proof {
            use_type_invariant(self);
        }
        self.supported
    }

    /// The vendor string. Twelve zero bytes stand for none: on a processor
    /// without the instruction, and until leaf 0 has been recorded.
    pub fn vendor(&self) -> (vendor: [u8; 12])
        ensures
            vendor@ == self@.vendor,
            !self@.supported ==> vendor@ == no_vendor(),
    {
        proof {
            use_type_invariant(self);
        }
        self.vendor
    }

    /// The highest standard leaf, as leaf 0 reported it; 0 until then.
    pub fn max_leaf(&self) -> (max_leaf: u32)
        ensures
            max_leaf == self@.max_leaf,
            !self@.supported ==> max_leaf == 0,
    {
        proof {
            use_type_invariant(self);
        }
        self.max_leaf
    }

    /// The raw registers recorded for `leaf`, if it was queried.
    pub fn raw(&self, leaf: QueryLeaf) -> (regs: Option<LeafRegisters>)
        ensures
            regs == if self@.raw.contains_key(leaf) {
                Some(self@.raw[leaf])
            } else {
                None
            },
            !self@.supported ==> regs.is_none(),
    {
        proof {
            use_type_invariant(self);
        }
        match leaf {
            QueryLeaf::ProcessorInfo => self.processor_info,
            QueryLeaf::ExtendedFeatures => self.extended_features,
            QueryLeaf::ExtendedProcessorInfo => self.extended_processor_info,
        }
    }

    /// Whether the processor reports the capability described by `d`.
    ///
    /// A capability whose leaf was never queried is reported absent, as is
    /// every capability of a processor without the instruction.
    pub fn has_feature(&self, d: FeatureDescriptor) -> (present: bool)
        ensures
            present == feature_present(self@, d),
            !self@.supported ==> !present,
    {
        match self.raw(d.leaf) {
            Some(regs) => d.query(regs),
            None => false,
        }
    }
}

/// Advances the setup sequence by one event and says what is due next.
///
/// The driver starts with the probe, performs each action that is handed
/// back and reports its result, until `SetupAction::Done` comes back.
pub fn setup(state: &mut IdentificationState, event: SetupEvent) -> (action: SetupAction)
    ensures
        final(state)@ == step(old(state)@, event),
        wf(final(state)@),
        action == final(state)@.pending,
{
    proof {
        use_type_invariant(&*state);
    }
    match event {
        SetupEvent::Probed(supported) => {
            let vendor = [0u8; 12];
            assert(vendor@ =~= no_vendor());
            assert(raw_map(None, None, None) =~= Map::empty());
            *state = IdentificationState {
                supported,
                vendor,
                max_leaf: 0,
                processor_info: None,
                extended_features: None,
                extended_processor_info: None,
                pending: if supported {
                    SetupAction::QueryVendor
                } else {
                    SetupAction::Done
                },
            };
        },
        SetupEvent::Answered(regs) => {
            match state.pending {
                SetupAction::QueryVendor => {
                    let pending = if regs.eax < 1 {
                        SetupAction::Done
                    } else {
                        SetupAction::Query(QueryLeaf::ProcessorInfo)
                    };
                    let vendor = decode_vendor(regs.ebx, regs.edx, regs.ecx);
                    assert(state@.raw =~= Map::empty());
                    *state = IdentificationState {
                        supported: state.supported,
                        vendor,
                        max_leaf: regs.eax,
                        processor_info: state.processor_info,
                        extended_features: state.extended_features,
                        extended_processor_info: state.extended_processor_info,
                        pending,
                    };
                },
                SetupAction::Query(leaf) => {
                    let extended = if vendor_has_extended_info(&state.vendor) {
                        SetupAction::Query(QueryLeaf::ExtendedProcessorInfo)
                    } else {
                        SetupAction::Done
                    };
                    let ghost before = state@;
                    match leaf {
                        QueryLeaf::ProcessorInfo => {
                            assert(raw_map(
                                Some(regs),
                                state.extended_features,
                                state.extended_processor_info,
                            ) =~= before.raw.insert(leaf, regs));
                            *state = IdentificationState {
                                processor_info: Some(regs),
                                pending: if state.max_leaf >= 7 {
                                    SetupAction::Query(QueryLeaf::ExtendedFeatures)
                                } else {
                                    extended
                                },
                                ..*state
                            };
                        },
                        QueryLeaf::ExtendedFeatures => {
                            assert(raw_map(
                                state.processor_info,
                                Some(regs),
                                state.extended_processor_info,
                            ) =~= before.raw.insert(leaf, regs));
                            *state = IdentificationState {
                                extended_features: Some(regs),
                                pending: extended,
                                ..*state
                            };
                        },
                        QueryLeaf::ExtendedProcessorInfo => {
                            assert(raw_map(
                                state.processor_info,
                                state.extended_features,
                                Some(regs),
                            ) =~= before.raw.insert(leaf, regs));
                            *state = IdentificationState {
                                extended_processor_info: Some(regs),
                                pending: SetupAction::Done,
                                ..*state
                            };
                        },
                    }
                },
                _ => {},
            }
        },
    }
    state.pending
}

/// What one processor answers: to the availability probe, to leaf 0 and to
/// each of the leaves that are kept. It stands for the hardware wherever
/// canned values are to take its place.
#[derive(Clone, Copy, Debug, PartialEq, Eq, Structural)]
pub struct Responses {
    pub supported: bool,
    pub vendor: LeafRegisters,
    pub processor_info: LeafRegisters,
    pub extended_features: LeafRegisters,
    pub extended_processor_info: LeafRegisters,
}

impl Responses {
    /// The registers with which the processor answers a query of `leaf`.
    pub open spec fn spec_leaf(self, leaf: QueryLeaf) -> LeafRegisters {
        match leaf {
            QueryLeaf::ProcessorInfo => self.processor_info,
            QueryLeaf::ExtendedFeatures => self.extended_features,
            QueryLeaf::ExtendedProcessorInfo => self.extended_processor_info,
        }
    }

    /// The registers with which the processor answers a query of `leaf`.
    #[verifier::when_used_as_spec(spec_leaf)]
    pub fn leaf(self, leaf: QueryLeaf) -> (regs: LeafRegisters)
        ensures
            regs == self.spec_leaf(leaf),
    {
        match leaf {
            QueryLeaf::ProcessorInfo => self.processor_info,
            QueryLeaf::ExtendedFeatures => self.extended_features,
            QueryLeaf::ExtendedProcessorInfo => self.extended_processor_info,
        }
    }

    /// The vendor string that the processor reports in leaf 0.
    pub open spec fn vendor_string(self) -> Seq<u8> {
        vendor_string(self.vendor.ebx, self.vendor.edx, self.vendor.ecx)
    }

    /// Whether the setup sequence queries `leaf` on this processor: the
    /// instruction exists, leaf 0 reports a highest standard leaf of at
    /// least 1, and moreover of at least 7 for the extended features, or a
    /// vendor for which it is meaningful for the extended processor info.
    pub open spec fn queried(self, leaf: QueryLeaf) -> bool {
        &&& self.supported
        &&& self.vendor.eax >= 1
        &&& match leaf {
            QueryLeaf::ProcessorInfo => true,
            QueryLeaf::ExtendedFeatures => self.vendor.eax >= 7,
            QueryLeaf::ExtendedProcessorInfo => has_extended_info(self.vendor_string()),
        }
    }
}

/// The cache that a completed setup sequence leaves on a processor that
/// answers as `hw` does.
pub open spec fn outcome(hw: Responses) -> Identification {
    if hw.supported {
        Identification {
            supported: true,
            vendor: hw.vendor_string(),
            max_leaf: hw.vendor.eax,
            raw: Map::new(|leaf: QueryLeaf| hw.queried(leaf), |leaf: QueryLeaf| hw.spec_leaf(leaf)),
            pending: SetupAction::Done,
        }
    } else {
        blank(false, SetupAction::Done)
    }
}

/// How many events the sequence may still take before it is complete.
pub open spec fn events_left(pending: SetupAction) -> nat {
    match pending {
        SetupAction::Probe => 5,
        SetupAction::QueryVendor => 4,
        SetupAction::Query(QueryLeaf::ProcessorInfo) => 3,
        SetupAction::Query(QueryLeaf::ExtendedFeatures) => 2,
        SetupAction::Query(QueryLeaf::ExtendedProcessorInfo) => 1,
        SetupAction::Done => 0,
    }
}

/// The event with which a processor that answers as `hw` does meets the
/// action `pending`; `None` when nothing is pending.
pub open spec fn answer(hw: Responses, pending: SetupAction) -> Option<SetupEvent> {
    match pending {
        SetupAction::Probe => Some(SetupEvent::Probed(hw.supported)),
        SetupAction::QueryVendor => Some(SetupEvent::Answered(hw.vendor)),
        SetupAction::Query(leaf) => Some(SetupEvent::Answered(hw.spec_leaf(leaf))),
        SetupAction::Done => None,
    }
}

/// The cache in which the sequence ends when, from `v` on, every action is
/// met with the answer of `hw`.
pub open spec fn run(v: Identification, hw: Responses) -> Identification
    decreases events_left(v.pending),
{
    match answer(hw, v.pending) {
        Some(event) => run(step(v, event), hw),
        None => v,
    }
}

/// The cache in which a whole setup sequence ends when it is started on the
/// cache `v`, whatever that holds, and every action is met with the answer
/// of `hw`.
pub open spec fn rerun(v: Identification, hw: Responses) -> Identification {
    run(step(v, SetupEvent::Probed(hw.supported)), hw)
}

/// Every step of the setup sequence keeps the cache well formed.
pub proof fn lemma_step_preserves_wf(v: Identification, event: SetupEvent)
    requires
        wf(v),
    ensures
        wf(step(v, event)),
{
    let after = step(v, event);
    match event {
        SetupEvent::Probed(_) => {},
        SetupEvent::Answered(regs) => {
            match v.pending {
                SetupAction::QueryVendor => {
                    assert(after.vendor.len() == 12);
                },
                SetupAction::Query(leaf) => {},
                _ => {},
            }
        },
    }
}

/// No query is ever asked of a processor without the identification
/// instruction: while a query is pending, the probe has found the
/// instruction, and a probe that does not find it ends the sequence.
pub proof fn lemma_queries_need_support(v: Identification, event: SetupEvent)
    requires
        wf(v),
    ensures
        v.pending is QueryVendor || v.pending is Query ==> v.supported,
        initial().pending is Probe,
        step(v, SetupEvent::Probed(false)).pending is Done,
        !step(v, event).supported ==> !(step(v, event).pending is QueryVendor) && !(step(
            v,
            event,
        ).pending is Query),
{
}

/// A sequence with nothing pending has ended.
proof fn lemma_run_ended(v: Identification, hw: Responses)
    requires
        v.pending is Done,
    ensures
        run(v, hw) == v,
{
}

/// A sequence with a query pending goes on from the processor's answer.
proof fn lemma_run_answered(v: Identification, hw: Responses, regs: LeafRegisters)
    requires
        answer(hw, v.pending) == Some(SetupEvent::Answered(regs)),
    ensures
        run(v, hw) == run(step(v, SetupEvent::Answered(regs)), hw),
{
}

/// Where the sequence ends once leaf 1 has been recorded.
proof fn lemma_run_from_processor_info(first: Identification, hw: Responses)
    requires
        hw.supported,
        hw.vendor.eax >= 1,
        first == (Identification {
            supported: true,
            vendor: hw.vendor_string(),
            max_leaf: hw.vendor.eax,
            raw: nothing_recorded().insert(
                QueryLeaf::ProcessorInfo,
                hw.processor_info,
            ),
            pending: action_after(QueryLeaf::ProcessorInfo, hw.vendor.eax, hw.vendor_string()),
        }),
    ensures
        run(first, hw) == outcome(hw),
{
    let extended = has_extended_info(hw.vendor_string());
    let target = outcome(hw);
    if hw.vendor.eax >= 7 {
        let second = step(first, SetupEvent::Answered(hw.extended_features));
        lemma_run_answered(first, hw, hw.extended_features);
        if extended {
            let third = step(second, SetupEvent::Answered(hw.extended_processor_info));
            lemma_run_answered(second, hw, hw.extended_processor_info);
            lemma_run_ended(third, hw);
            assert(third.raw =~= target.raw);
        } else {
            lemma_run_ended(second, hw);
            assert(second.raw =~= target.raw);
        }
    } else {
        if extended {
            let third = step(first, SetupEvent::Answered(hw.extended_processor_info));
            lemma_run_answered(first, hw, hw.extended_processor_info);
            lemma_run_ended(third, hw);
            assert(third.raw =~= target.raw);
        } else {
            lemma_run_ended(first, hw);
            assert(first.raw =~= target.raw);
        }
    }
}

/// A setup sequence ends in a cache that depends on the processor's answers
/// alone: whatever the cache held when the sequence was started, it ends as
/// `outcome` says.
pub proof fn lemma_setup_outcome(v: Identification, hw: Responses)
    ensures
        rerun(v, hw) == outcome(hw),
{
    let probed = step(v, SetupEvent::Probed(hw.supported));
    if hw.supported {
        let named = step(probed, SetupEvent::Answered(hw.vendor));
        lemma_run_answered(probed, hw, hw.vendor);
        if hw.vendor.eax >= 1 {
            let first = step(named, SetupEvent::Answered(hw.processor_info));
            lemma_run_answered(named, hw, hw.processor_info);
            lemma_run_from_processor_info(first, hw);
        } else {
            lemma_run_ended(named, hw);
            assert(named.raw =~= outcome(hw).raw);
        }
    } else {
        lemma_run_ended(probed, hw);
    }
}

/// Running the setup sequence a second time against a processor that gives
/// the same answers changes nothing: not the vendor string, not the result
/// of any feature query, nor anything else in the cache.
pub proof fn lemma_setup_idempotent(v: Identification, hw: Responses)
    ensures
        rerun(rerun(v, hw), hw) == rerun(v, hw),
        rerun(rerun(v, hw), hw).vendor == rerun(v, hw).vendor,
        forall|d: FeatureDescriptor|
            feature_present(rerun(rerun(v, hw), hw), d) == feature_present(rerun(v, hw), d),
{
    lemma_setup_outcome(v, hw);
    lemma_setup_outcome(rerun(v, hw), hw);
}

/// On a processor without the identification instruction the setup sequence
/// ends at once, in a cache that reports no support, no vendor and no
/// capability.
pub proof fn lemma_unsupported_outcome(v: Identification, hw: Responses)
    requires
        !hw.supported,
    ensures
        rerun(v, hw) == blank(false, SetupAction::Done),
        !rerun(v, hw).supported,
        rerun(v, hw).vendor == no_vendor(),
        forall|d: FeatureDescriptor| !feature_present(rerun(v, hw), d),
{
    lemma_setup_outcome(v, hw);
}

/// A cache that reports no support reports no vendor and no capability, at
/// whatever point of its life it is read.
pub proof fn lemma_unsupported_reports_nothing(v: Identification)
    requires
        wf(v),
        !v.supported,
    ensures
        v.vendor == no_vendor(),
        forall|d: FeatureDescriptor| !feature_present(v, d),
{
}

/// The cache that a completed setup sequence leaves is well formed, and the
/// cache before boot is.
pub proof fn lemma_outcome_wf(hw: Responses)
    ensures
        wf(initial()),
        wf(outcome(hw)),
{
    assert(hw.vendor_string().len() == 12);
    assert(outcome(hw).raw == nothing_recorded() <==> !hw.queried(QueryLeaf::ProcessorInfo)) by {
        if hw.queried(QueryLeaf::ProcessorInfo) {
            assert(outcome(hw).raw.contains_key(QueryLeaf::ProcessorInfo));
        } else {
            assert(outcome(hw).raw =~= nothing_recorded());
        }
    }
}

/// After a completed setup sequence a capability is reported exactly when
/// its leaf was queried and the processor's answer to that query has a bit
/// of its mask set.
pub proof fn lemma_outcome_features(hw: Responses, d: FeatureDescriptor)
    ensures
        feature_present(outcome(hw), d) == (hw.queried(d.leaf) && d.spec_query(
            hw.spec_leaf(d.leaf),
        )),
{
}

/// Runs a whole setup sequence against canned answers.
pub fn identify(hw: &Responses) -> (state: IdentificationState)
    ensures
        state@ == outcome(*hw),
{
    let mut state = IdentificationState::new();
    let mut action = setup(&mut state, SetupEvent::Probed(hw.supported));
    proof {
        lemma_setup_outcome(initial(), *hw);
    }
    while action != SetupAction::Done
        invariant
            action == state@.pending,
            run(state@, *hw) == outcome(*hw),
        decreases events_left(state@.pending),
    {
        let event = match action {
            SetupAction::QueryVendor => SetupEvent::Answered(hw.vendor),
            SetupAction::Query(leaf) => SetupEvent::Answered(hw.leaf(leaf)),
            _ => SetupEvent::Probed(hw.supported),
        };
        assert(answer(*hw, action) == Some(event));
        action = setup(&mut state, event);
    }
    state
}

} // verus!
