//! The string decoder: the text that the identification instruction packs
//! into registers, and what the vendor string says of the processor.

use vstd::prelude::*;

verus! {

/// The four bytes of a register, lowest first: the order in which the
/// processor packs the characters of a string into it.
pub open spec fn register_bytes(reg: u32) -> Seq<u8> {
    seq![
        (reg % 0x100) as u8,
        (reg / 0x100 % 0x100) as u8,
        (reg / 0x1_0000 % 0x100) as u8,
        (reg / 0x100_0000) as u8,
    ]
}

/// The twelve characters of the vendor string held by the registers of leaf
/// 0: those of `ebx`, then those of `edx`, then those of `ecx`.
pub open spec fn vendor_string(ebx: u32, edx: u32, ecx: u32) -> Seq<u8> {
    register_bytes(ebx) + register_bytes(edx) + register_bytes(ecx)
}

/// The four bytes of a register, highest first.
fn big_endian_bytes(reg: u32) -> (bytes: [u8; 4])
    ensures
        bytes@ == register_bytes(reg).reverse(),
{
    let b0: u8 = ((reg >> 24) & 0xFF) as u8;
    let b1: u8 = ((reg >> 16) & 0xFF) as u8;
    let b2: u8 = ((reg >> 8) & 0xFF) as u8;
    let b3: u8 = (reg & 0xFF) as u8;
    assert(((reg >> 24) & 0xFF) == reg / 0x100_0000 && ((reg >> 16) & 0xFF) == reg / 0x1_0000
        % 0x100 && ((reg >> 8) & 0xFF) == reg / 0x100 % 0x100 && (reg & 0xFF) == reg % 0x100)
        by (bit_vector);
    let bytes: [u8; 4] = [b0, b1, b2, b3];
    assert(bytes@ =~= register_bytes(reg).reverse());
    bytes
}

/// Reverses a buffer of twelve bytes in place.
fn reverse_bytes(bytes: &mut [u8; 12])
    ensures
        final(bytes)@ == old(bytes)@.reverse(),
{
    let mut i: usize = 0;
    while i < 6
        invariant
            i <= 6,
            forall|k: int| 0 <= k < i ==> bytes@[k] == old(bytes)@[11 - k],
            forall|k: int| 12 - i <= k < 12 ==> bytes@[k] == old(bytes)@[11 - k],
            forall|k: int| i <= k < 12 - i ==> bytes@[k] == old(bytes)@[k],
        decreases 6 - i,
    {
        let low: u8 = bytes[i];
        let high: u8 = bytes[11 - i];
        bytes[i] = high;
        bytes[11 - i] = low;
        i = i + 1;
    }
    assert(bytes@ =~= old(bytes)@.reverse());
}

/// Decodes the vendor string from the registers of leaf 0, given in the
/// order in which their characters follow one another: `ebx`, `edx`, `ecx`.
///
/// Each register is taken apart highest byte first, the last register
/// leading, and the whole buffer is then reversed, which leaves the
/// characters of each register lowest byte first and the registers in the
/// order given. Nothing is checked: any three values decode to twelve bytes.
pub fn decode_vendor(ebx: u32, edx: u32, ecx: u32) -> (vendor: [u8; 12])
    ensures
        vendor@ == vendor_string(ebx, edx, ecx),
{
    let c = big_endian_bytes(ecx);
    let d = big_endian_bytes(edx);
    let b = big_endian_bytes(ebx);
    let mut bytes: [u8; 12] = [
        c[0], c[1], c[2], c[3],
        d[0], d[1], d[2], d[3],
        b[0], b[1], b[2], b[3],
    ];
    reverse_bytes(&mut bytes);
    assert(bytes@ =~= vendor_string(ebx, edx, ecx));
    bytes
}

/// The characters held by a run of registers: four for each register,
/// lowest byte first, register after register.
pub open spec fn text_bytes(registers: Seq<u32>) -> Seq<u8> {
    Seq::new(4 * registers.len(), |i: int| register_bytes(registers[i / 4])[i % 4])
}

/// Decodes the text held by a run of registers, given in the order in which
/// their characters follow one another. The three registers of the vendor
/// string decode as `decode_vendor` has them; the twelve registers of the
/// brand leaves give the processor's brand string of 48 bytes.
pub fn decode_text(registers: &[u32]) -> (text: Vec<u8>)
    ensures
        text@ == text_bytes(registers@),
{
    let mut text: Vec<u8> = Vec::new();
    let mut i: usize = 0;
    while i < registers.len()
        invariant
            i <= registers.len(),
            text@ == text_bytes(registers@.take(i as int)),
        decreases registers.len() - i,
    {
        let bytes = big_endian_bytes(registers[i]);
        text.push(bytes[3]);
        text.push(bytes[2]);
        text.push(bytes[1]);
        text.push(bytes[0]);
        i = i + 1;
        assert(text@ =~= text_bytes(registers@.take(i as int)));
    }
    assert(registers@.take(i as int) =~= registers@);
    text
}

/// The vendor string is the text of its three registers.
pub proof fn lemma_vendor_string_is_text(ebx: u32, edx: u32, ecx: u32)
    ensures
        vendor_string(ebx, edx, ecx) == text_bytes(seq![ebx, edx, ecx]),
{
    assert(vendor_string(ebx, edx, ecx) =~= text_bytes(seq![ebx, edx, ecx]));
}

/// Whether every byte of `text` is an ASCII character.
pub open spec fn is_ascii(text: Seq<u8>) -> bool {
    forall|i: int| 0 <= i < text.len() ==> text[i] < 0x80
}

/// Decodes the vendor string as `decode_vendor` does, and hands it out only
/// if all twelve bytes are ASCII characters.
pub fn decode_vendor_ascii(ebx: u32, edx: u32, ecx: u32) -> (vendor: Option<[u8; 12]>)
    ensures
        is_ascii(vendor_string(ebx, edx, ecx)) ==> vendor.is_some(),
        !is_ascii(vendor_string(ebx, edx, ecx)) ==> vendor.is_none(),
        vendor matches Some(bytes) ==> bytes@ == vendor_string(ebx, edx, ecx),
{
    let bytes = decode_vendor(ebx, edx, ecx);
    let mut i: usize = 0;
    while i < 12
        invariant
            i <= 12,
            bytes@ == vendor_string(ebx, edx, ecx),
            forall|k: int| 0 <= k < i ==> bytes@[k] < 0x80,
        decreases 12 - i,
    {
        if bytes[i] >= 0x80 {
            assert(vendor_string(ebx, edx, ecx)[i as int] >= 0x80);
            return None;
        }
        i = i + 1;
    }
    Some(bytes)
}

/// The vendor string `AuthenticAMD`.
pub open spec fn vendor_amd() -> Seq<u8> {
    seq![0x41u8, 0x75, 0x74, 0x68, 0x65, 0x6e, 0x74, 0x69, 0x63, 0x41, 0x4d, 0x44]
}

/// The vendor string `AMDisbetter!`, reported by early engineering samples.
pub open spec fn vendor_amd_early() -> Seq<u8> {
    seq![0x41u8, 0x4d, 0x44, 0x69, 0x73, 0x62, 0x65, 0x74, 0x74, 0x65, 0x72, 0x21]
}

/// Whether a vendor string names a processor on which the extended
/// processor-info leaf is meaningful: the flags kept from that leaf are the
/// ones AMD defines, so it is one of AMD's two vendor strings.
pub open spec fn has_extended_info(vendor: Seq<u8>) -> bool {
    vendor == vendor_amd() || vendor == vendor_amd_early()
}

/// Whether two buffers of twelve bytes hold the same bytes.
fn same_bytes(a: &[u8; 12], b: &[u8; 12]) -> (same: bool)
    ensures
        same == (a@ == b@),
{
    let mut i: usize = 0;
    while i < 12
        invariant
            i <= 12,
            forall|k: int| 0 <= k < i ==> a@[k] == b@[k],
        decreases 12 - i,
    {
        if a[i] != b[i] {
            return false;
        }
        i = i + 1;
    }
    assert(a@ =~= b@);
    true
}

/// Whether a decoded vendor string names a processor on which the extended
/// processor-info leaf is meaningful.
pub fn vendor_has_extended_info(vendor: &[u8; 12]) -> (meaningful: bool)
    ensures
        meaningful == has_extended_info(vendor@),
{
    let amd: [u8; 12] = [0x41, 0x75, 0x74, 0x68, 0x65, 0x6e, 0x74, 0x69, 0x63, 0x41, 0x4d, 0x44];
    let early: [u8; 12] = [0x41, 0x4d, 0x44, 0x69, 0x73, 0x62, 0x65, 0x74, 0x74, 0x65, 0x72, 0x21];
    assert(amd@ =~= vendor_amd());
    assert(early@ =~= vendor_amd_early());
    same_bytes(vendor, &amd) || same_bytes(vendor, &early)
}

} // verus!
