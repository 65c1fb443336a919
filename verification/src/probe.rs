use vstd::prelude::*;

verus! {

/// Relies on raw_cpuid::native_cpuid::cpuid_count: executes the CPUID
/// instruction (a serializing instruction) for the given leaf, with subleaf 0,
/// and hands back the four result registers as (eax, ebx, ecx, edx). The
/// values describe the processor the call runs on, so nothing is promised of
/// them.
#[verifier::external_body]
pub(crate) fn cpuid_leaf(leaf: u32) -> (u32, u32, u32, u32) {
    let r = raw_cpuid::native_cpuid::cpuid_count(leaf, 0);
    (r.eax, r.ebx, r.ecx, r.edx)
}

/// The rule by which processor identification data advertises an invariant
/// (fixed-rate) time-stamp counter:
///
/// 1. the identification instruction itself is supported,
/// 2. the largest standard leaf is at least 1,
/// 3. the largest extended leaf reaches the power-management leaf 0x8000_0007,
/// 4. bit 8 of that leaf's EDX result is set.
pub open spec fn invariant_tsc_advertised(
    cpuid_supported: bool,
    max_basic_leaf: u32,
    max_extended_leaf: u32,
    apm_edx: u32,
) -> bool {
    &&& cpuid_supported
    &&& max_basic_leaf >= 1
    &&& max_extended_leaf >= 0x8000_0007u32
    &&& apm_edx & 0x100u32 != 0u32
}

/// Decides, from the processor identification values alone, whether an
/// invariant time-stamp counter is advertised.
pub fn decide_invariant_tsc(
    cpuid_supported: bool,
    max_basic_leaf: u32,
    max_extended_leaf: u32,
    apm_edx: u32,
) -> (r: bool)
    ensures
        r == invariant_tsc_advertised(cpuid_supported, max_basic_leaf, max_extended_leaf, apm_edx),
{
    cpuid_supported && max_basic_leaf >= 1 && max_extended_leaf >= 0x8000_0007 && (apm_edx
        & 0x100) != 0
}

/// Returns true if the CPU has an invariant TSC.
///
/// Without an invariant TSC, the timings reported by this library might be
/// unreliable.
///
/// The decision itself is [`decide_invariant_tsc`], applied to the processor
/// identification leaves 0, 0x8000_0000 and 0x8000_0007. What those leaves
/// hold depends on the processor, so no contract ties the result down; that
/// the identification instruction is supported is witnessed by the query
/// itself, which this target executes directly.
pub fn has_invariant_tsc() -> bool {
    let (max_basic_leaf, _, _, _): (u32, u32, u32, u32) = cpuid_leaf(0);
    let (max_extended_leaf, _, _, _): (u32, u32, u32, u32) = cpuid_leaf(0x8000_0000);
    let (_, _, _, apm_edx): (u32, u32, u32, u32) = cpuid_leaf(0x8000_0007);
    decide_invariant_tsc(true, max_basic_leaf, max_extended_leaf, apm_edx)
}

} // verus!
