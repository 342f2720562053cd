use vstd::endian::EndianNat;
use vstd::prelude::*;

verus! {

/// The number that the bytes `b` stand for in the machine's byte order.
pub open spec fn native_value(b: Seq<u8>) -> nat {
    EndianNat::<u8>::new_default(b.map_values(|x: u8| x as int)).to_nat()
}

/// The `i`-th group of four bytes of `bytes`.
pub open spec fn word_bytes(bytes: Seq<u8>, i: int) -> Seq<u8> {
    bytes.subrange(4 * i, 4 * i + 4)
}

/// `bytes` are the elements `words`, four bytes each in the machine's byte order.
pub open spec fn holds_words(bytes: Seq<u8>, words: Seq<u32>) -> bool {
    &&& bytes.len() == 4 * words.len()
    &&& forall|i: int| 0 <= i < words.len() ==> native_value(#[trigger] word_bytes(bytes, i)) == words[i]
}

/// Relies on bytemuck::cast_slice from `u32` to `u8`: the elements' bytes in
/// the machine's byte order, four for each element; this cast never fails.
#[verifier::external_body]
fn u32_bytes(data: &[u32]) -> (r: Vec<u8>)
    ensures
        holds_words(r@, data@),
{
    bytemuck::cast_slice::<u32, u8>(data).to_vec()
}

/// Relies on bytemuck::pod_collect_to_vec from `u8` to `u32`: one element for
/// each four bytes in the machine's byte order, the last one zero-filled where
/// the length is not a multiple of four. It never fails, whatever the alignment.
#[verifier::external_body]
fn collect_u32(bytes: &[u8]) -> (r: Vec<u32>)
    ensures
        r@.len() == (bytes@.len() + 3) / 4,
        forall|i: int|
            0 <= i && 4 * i + 4 <= bytes@.len() ==> r@[i] == native_value(
                #[trigger] word_bytes(bytes@, i),
            ),
{
    bytemuck::pod_collect_to_vec::<u8, u32>(bytes)
}

/// The storage-buffer contents of an array of `u32` elements.
pub fn element_bytes(data: &[u32]) -> (r: Vec<u8>)
    ensures
        holds_words(r@, data@),
{
    u32_bytes(data)
}

/// The contents of the shape buffer: the four dimensions as the four unsigned
/// 32-bit integers that a shader reads at binding 1.
pub fn shape_bytes(dimensions: &[u32; 4]) -> (r: Vec<u8>)
    ensures
        holds_words(r@, dimensions@),
        r@.len() == 16,
{
    u32_bytes(dimensions.as_slice())
}

/// The elements read back from a mapped staging buffer: one for each four
/// bytes, a trailing partial group giving a last, zero-filled element.
pub fn decode_elements(bytes: &[u8]) -> (r: Vec<u32>)
    ensures
        r@.len() == (bytes@.len() + 3) / 4,
        bytes@.len() % 4 == 0 ==> holds_words(bytes@, r@),
        forall|i: int|
            0 <= i && 4 * i + 4 <= bytes@.len() ==> r@[i] == native_value(
                #[trigger] word_bytes(bytes@, i),
            ),
{
    collect_u32(bytes)
}

/// Bytes stand for one sequence of elements only: decoding the bytes that
/// `element_bytes` made of `data` gives `data` back.
pub proof fn lemma_bytes_round_trip(bytes: Seq<u8>, data: Seq<u32>, decoded: Seq<u32>)
    requires
        holds_words(bytes, data),
        holds_words(bytes, decoded),
    ensures
        decoded == data,
{
    assert forall|i: int| 0 <= i < data.len() implies decoded[i] == data[i] by {
        assert(native_value(word_bytes(bytes, i)) == data[i]);
    }
    assert(decoded =~= data);
}

} // verus!
