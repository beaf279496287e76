//! The byte image of a vector of 32-bit elements, as it is uploaded to and read
//! back from a device buffer.
//!
//! The image is the host's own memory layout of the elements, so its byte order
//! is the machine's. The model therefore takes the order as a parameter, and the
//! executable functions promise the image in one of the two orders.

use vstd::prelude::*;
use crate::plan::JobPlan;

verus! {

/// The order in which the bytes of an element lie in memory.
#[derive(Clone, Copy, Debug, PartialEq, Eq, Structural)]
pub enum ByteOrder {
    /// Least significant byte first.
    Little,
    /// Most significant byte first.
    Big,
}

/// Why bytes read back from the device are not an output vector.
#[derive(Clone, Copy, Debug, PartialEq, Eq, Structural)]
pub enum ReadbackError {
    /// The mapped range does not hold one element per input element.
    LengthMismatch { expected: u64, found: u64 },
}

/// The byte of `word` at significance `k`, where 0 is the least significant
/// and 3 the most significant.
pub open spec fn word_byte(word: u32, k: int) -> u8 {
    if k == 0 {
        (word as int % 256) as u8
    } else if k == 1 {
        (word as int / 256 % 256) as u8
    } else if k == 2 {
        (word as int / 65536 % 256) as u8
    } else {
        (word as int / 16777216 % 256) as u8
    }
}

/// The word whose bytes, from least to most significant, are `b0` to `b3`.
pub open spec fn word_of(b0: u8, b1: u8, b2: u8, b3: u8) -> u32 {
    (b0 as int + 256 * (b1 as int) + 65536 * (b2 as int) + 16777216 * (b3 as int)) as u32
}

/// The significance of the byte that lies at offset `at` (0 to 3) within an
/// element.
pub open spec fn significance(order: ByteOrder, at: int) -> int {
    match order {
        ByteOrder::Little => at,
        ByteOrder::Big => 3 - at,
    }
}

/// The byte image of `words`: four bytes per element, elements in sequence.
pub open spec fn encode(words: Seq<u32>, order: ByteOrder) -> Seq<u8> {
    Seq::new(4 * words.len(), |i: int| word_byte(words[i / 4], significance(order, i % 4)))
}

/// The element that lies in bytes `4 * i` to `4 * i + 3` of `bytes`.
pub open spec fn element_at(bytes: Seq<u8>, i: int, order: ByteOrder) -> u32 {
    match order {
        ByteOrder::Little => word_of(
            bytes[4 * i],
            bytes[4 * i + 1],
            bytes[4 * i + 2],
            bytes[4 * i + 3],
        ),
        ByteOrder::Big => word_of(
            bytes[4 * i + 3],
            bytes[4 * i + 2],
            bytes[4 * i + 1],
            bytes[4 * i],
        ),
    }
}

/// The elements whose byte image is `bytes`. Trailing bytes that do not make
/// up a whole element are left out.
pub open spec fn decode(bytes: Seq<u8>, order: ByteOrder) -> Seq<u32> {
    Seq::new(bytes.len() / 4, |i: int| element_at(bytes, i, order))
}

/// `bytes` is the image of `words` in one of the two byte orders.
pub open spec fn is_image_of(bytes: Seq<u8>, words: Seq<u32>) -> bool {
    bytes == encode(words, ByteOrder::Little) || bytes == encode(words, ByteOrder::Big)
}

/// `words` are the elements held by `bytes` in one of the two byte orders.
pub open spec fn is_content_of(words: Seq<u32>, bytes: Seq<u8>) -> bool {
    words == decode(bytes, ByteOrder::Little) || words == decode(bytes, ByteOrder::Big)
}

/// A word is the sum of its four bytes, each weighted by its significance.
pub proof fn lemma_word_of_bytes(word: u32)
    ensures
        word_of(word_byte(word, 0), word_byte(word, 1), word_byte(word, 2), word_byte(word, 3))
            == word,
{
    let w = word as int;
    assert(w == 256 * (w / 256) + w % 256);
    assert(w / 256 == 256 * (w / 256 / 256) + w / 256 % 256);
    assert(w / 256 / 256 == 256 * (w / 256 / 256 / 256) + w / 256 / 256 % 256);
    assert(w / 256 / 256 == w / 65536);
    assert(w / 256 / 256 / 256 == w / 16777216);
    assert(w / 16777216 < 256);
}

/// Each byte of a word built from four bytes is the byte it was built from.
pub proof fn lemma_bytes_of_word(b0: u8, b1: u8, b2: u8, b3: u8)
    ensures
        word_byte(word_of(b0, b1, b2, b3), 0) == b0,
        word_byte(word_of(b0, b1, b2, b3), 1) == b1,
        word_byte(word_of(b0, b1, b2, b3), 2) == b2,
        word_byte(word_of(b0, b1, b2, b3), 3) == b3,
{
    let w = b0 as int + 256 * (b1 as int) + 65536 * (b2 as int) + 16777216 * (b3 as int);
    assert(0 <= w <= u32::MAX);
    assert(w % 256 == b0 as int);
    assert(w / 256 == b1 as int + 256 * (b2 as int) + 65536 * (b3 as int));
    assert(w / 65536 == b2 as int + 256 * (b3 as int));
    assert(w / 16777216 == b3 as int);
}

/// The image of a vector has four bytes per element.
pub proof fn lemma_encode_len(words: Seq<u32>, order: ByteOrder)
    ensures
        encode(words, order).len() == 4 * words.len(),
{
}

/// Decoding the image of a vector, in the order it was written in, gives the
/// vector back bit for bit.
pub proof fn lemma_decode_encode(words: Seq<u32>, order: ByteOrder)
    ensures
        decode(encode(words, order), order) == words,
{
    let bytes = encode(words, order);
    assert(bytes.len() / 4 == words.len());
    assert forall|i: int| 0 <= i < words.len() implies element_at(bytes, i, order)
        == words[i] by {
        assert((4 * i) / 4 == i && (4 * i) % 4 == 0);
        assert((4 * i + 1) / 4 == i && (4 * i + 1) % 4 == 1);
        assert((4 * i + 2) / 4 == i && (4 * i + 2) % 4 == 2);
        assert((4 * i + 3) / 4 == i && (4 * i + 3) % 4 == 3);
        lemma_word_of_bytes(words[i]);
    }
    assert(decode(bytes, order) =~= words);
}

/// Encoding the elements held by a whole number of four-byte groups, in the
/// order they were read in, gives the bytes back.
pub proof fn lemma_encode_decode(bytes: Seq<u8>, order: ByteOrder)
    requires
        bytes.len() % 4 == 0,
    ensures
        encode(decode(bytes, order), order) == bytes,
{
    let words = decode(bytes, order);
    assert(4 * words.len() == bytes.len());
    assert forall|j: int| 0 <= j < bytes.len() implies encode(words, order)[j] == bytes[j] by {
        let i = j / 4;
        assert(j == 4 * i + j % 4);
        lemma_bytes_of_word(bytes[4 * i], bytes[4 * i + 1], bytes[4 * i + 2], bytes[4 * i + 3]);
        lemma_bytes_of_word(bytes[4 * i + 3], bytes[4 * i + 2], bytes[4 * i + 1], bytes[4 * i]);
    }
    assert(encode(words, order) =~= bytes);
}

/// Two vectors with the same image in the same order are the same vector.
pub proof fn lemma_encode_injective(a: Seq<u32>, b: Seq<u32>, order: ByteOrder)
    requires
        encode(a, order) == encode(b, order),
    ensures
        a == b,
{
    lemma_decode_encode(a, order);
    lemma_decode_encode(b, order);
}

/// Two readbacks of a whole number of elements hold the same output, bit for
/// bit, exactly when they are the same bytes: decoding adds nothing of its own
/// to what the device wrote.
pub proof fn lemma_same_output_iff_same_readback(
    first: Seq<u8>,
    second: Seq<u8>,
    order: ByteOrder,
)
    requires
        first.len() % 4 == 0,
        second.len() % 4 == 0,
    ensures
        decode(first, order) == decode(second, order) <==> first == second,
{
    lemma_encode_decode(first, order);
    lemma_encode_decode(second, order);
}

/// For every input of as many elements as a plan was made for, the image of
/// the input has the size of the output buffer, and a readback of that size
/// holds exactly as many elements as the input, whatever its bytes are.
pub proof fn lemma_output_length(
    plan: JobPlan,
    input: Seq<u32>,
    readback: Seq<u8>,
    order: ByteOrder,
)
    requires
        plan.wf(),
        input.len() == plan.spec_elements(),
        readback.len() == plan.spec_output_bytes(),
    ensures
        encode(input, order).len() == plan.spec_output_bytes(),
        decode(readback, order).len() == input.len(),
{
    plan.lemma_wf();
}

/// Calls `bytemuck::cast_slice::<u32, u8>`, which views the memory of the
/// elements as bytes, and copies the view out. The claim is that the bytes are
/// the elements' image in the machine's byte order, which is one of the two.
/// The cast to a byte slice cannot fail: bytes have no alignment to meet and
/// any length is a whole number of them.
#[verifier::external_body]
fn cast_words(words: &[u32]) -> (bytes: Vec<u8>)
    ensures
        is_image_of(bytes@, words@),
{
    bytemuck::cast_slice::<u32, u8>(words).to_vec()
}

/// Calls `bytemuck::pod_collect_to_vec::<u8, u32>`, which copies the bytes into
/// a fresh vector of elements and so does not depend on how `bytes` is
/// aligned. The claim, for a whole number of four-byte groups, is that the
/// result holds the elements that the bytes spell in the machine's byte order,
/// which is one of the two.
#[verifier::external_body]
fn collect_words(bytes: &[u8]) -> (words: Vec<u32>)
    requires
        bytes@.len() % 4 == 0,
    ensures
        is_content_of(words@, bytes@),
{
    bytemuck::pod_collect_to_vec::<u8, u32>(bytes)
}

/// The bytes to initialise the input buffer with.
///
/// The result is the image of `words` in the machine's byte order.
pub fn encode_input(words: &[u32]) -> (bytes: Vec<u8>)
    ensures
        is_image_of(bytes@, words@),
        bytes@.len() == 4 * words@.len(),
{
    cast_words(words)
}

/// The output vector held by the bytes of the mapped output buffer.
///
/// Succeeds exactly when `bytes` has the size that `plan` gives the output
/// buffer; the result then has one element per input element.
pub fn decode_output(plan: &JobPlan, bytes: &[u8]) -> (r: Result<Vec<u32>, ReadbackError>)
    ensures
        bytes@.len() == plan.spec_output_bytes() <==> r is Ok,
        r matches Ok(words) ==> {
            &&& is_content_of(words@, bytes@)
            &&& words@.len() == plan.spec_elements()
        },
        r matches Err(e) ==> e == (ReadbackError::LengthMismatch {
            expected: plan.spec_output_bytes(),
            found: bytes@.len() as u64,
        }),
{
    let expected: u64 = plan.output_bytes();
    let found: u64 = bytes.len() as u64;
    if found != expected {
        return Err(ReadbackError::LengthMismatch { expected, found });
    }
    Ok(collect_words(bytes))
}

} // verus!
