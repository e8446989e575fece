use vstd::prelude::*;

verus! {

/// Takes consecutive pairs of 16-bit registers and joins each pair into one
/// 32-bit value, the first register of a pair giving the high half.
///
/// Arguments:
///
/// * `data`: &[u16] - the data to convert, one pair per output value
///
/// Returns:
///
/// A vector of u32 values.
pub fn convert_u16_to_u32(data: &[u16]) -> (result: Vec<u32>)
    requires
        data@.len() % 2 == 0,
    ensures
        result@.len() == data@.len() / 2,
        forall|i: int|
            0 <= i < result@.len() ==> result@[i] == (data@[2 * i] as u32) << 16 | (data@[2 * i
                + 1] as u32),
{
    let mut result: Vec<u32> = Vec::with_capacity(data.len() / 2);
    let mut i: usize = 0;
    while i < data.len()
        invariant
            i % 2 == 0,
            i <= data@.len(),
            data@.len() % 2 == 0,
            result@.len() == i / 2,
            forall|j: int|
                0 <= j < result@.len() ==> result@[j] == (data@[2 * j] as u32) << 16 | (data@[2 * j
                    + 1] as u32),
        decreases data@.len() - i,
    {
        let value = (data[i] as u32) << 16 | data[i + 1] as u32;
        result.push(value);
        i += 2;
    }
    result
}

/// Reinterprets each 16-bit register as the signed value of the same bit
/// pattern: values below 0x8000 stay as they are, the rest wrap below zero
/// by 0x10000.
///
/// Arguments:
///
/// * `data`: &[u16] - the data to convert
///
/// Returns:
///
/// A vector of i16 values.
pub fn convert_u16_to_i16(data: &[u16]) -> (result: Vec<i16>)
    ensures
        result@.len() == data@.len(),
        forall|i: int|
            0 <= i < data@.len() ==> result@[i] == if data@[i] < 0x8000 {
                data@[i] as int
            } else {
                data@[i] - 0x10000
            },
{
    let mut result: Vec<i16> = Vec::with_capacity(data.len());
    let mut k: usize = 0;
    while k < data.len()
        invariant
            k <= data@.len(),
            result@.len() == k,
            forall|i: int|
                0 <= i < k ==> result@[i] == if data@[i] < 0x8000 {
                    data@[i] as int
                } else {
                    data@[i] - 0x10000
                },
        decreases data@.len() - k,
    {
        let value = data[k];
        let signed = #[verifier::truncate] (value as i16);
        proof {
            assert(value < 0x8000 ==> signed == value) by (bit_vector)
                requires
                    signed == value as i16,
            ;
            assert(value >= 0x8000 ==> signed == value - 0x10000) by (bit_vector)
                requires
                    signed == value as i16,
            ;
        }
        result.push(signed);
        k += 1;
    }
    result
}

} // verus!
