//! Text as the host stores it: NUL-terminated strings, and the packed
//! content of a string tensor.

use vstd::prelude::*;
use vstd::slice::{slice_subrange, slice_to_vec};
use vstd::string::StringSliceAdditionalSpecFns;
use vstd::utf8::{decode_utf8, valid_utf8};
use crate::status::Error;

verus! {

/// `bytes` holds no NUL.
pub open spec fn nul_free(bytes: Seq<u8>) -> bool {
    forall|i: int| 0 <= i < bytes.len() ==> bytes[i] != 0u8
}

/// `bytes` is a C string: it ends in a NUL and holds no other.
pub open spec fn is_c_string(bytes: Seq<u8>) -> bool {
    bytes.len() > 0 && bytes.last() == 0u8 && nul_free(bytes.drop_last())
}

/// `bytes` is a C string whose content is UTF-8.
pub open spec fn is_c_text(bytes: Seq<u8>) -> bool {
    is_c_string(bytes) && valid_utf8(bytes.drop_last())
}

/// Where item `i` of a packed string tensor ends: at the start of the next
/// item, and the last one at the end of the buffer.
pub open spec fn item_end(offsets: Seq<usize>, total: int, i: int) -> int {
    if i + 1 < offsets.len() {
        offsets[i + 1] as int
    } else {
        total
    }
}

/// The offsets never decrease and stay within a buffer of `total` bytes.
pub open spec fn offsets_in_order(offsets: Seq<usize>, total: int) -> bool {
    forall|i: int|
        0 <= i < offsets.len() ==> offsets[i] as int <= #[trigger] item_end(offsets, total, i)
            <= total
}

/// The bytes of item `i`.
pub open spec fn item_bytes(buffer: Seq<u8>, offsets: Seq<usize>, i: int) -> Seq<u8> {
    buffer.subrange(offsets[i] as int, item_end(offsets, buffer.len() as int, i))
}

/// The packed content can be taken apart: the offsets are in order and every
/// item is UTF-8.
pub open spec fn well_packed(buffer: Seq<u8>, offsets: Seq<usize>) -> bool {
    &&& offsets_in_order(offsets, buffer.len() as int)
    &&& forall|i: int| 0 <= i < offsets.len() ==> valid_utf8(#[trigger] item_bytes(buffer, offsets, i))
}

/// `String::from_utf8` of std: the text that `bytes` encode, where they are
/// valid UTF-8, and nothing where they are not.
#[verifier::external_body]
fn utf8_to_string(bytes: Vec<u8>) -> (r: Option<String>)
    ensures
        r is Some <==> valid_utf8(bytes@),
        r is Some ==> r->Some_0@ == decode_utf8(bytes@),
{
    String::from_utf8(bytes).ok()
}

/// Whether `bytes` holds a NUL.
pub fn contains_nul(bytes: &[u8]) -> (r: bool)
    ensures
        r == !nul_free(bytes@),
{
    let mut i: usize = 0;
    while i < bytes.len()
        invariant
            i <= bytes@.len(),
            forall|j: int| 0 <= j < i ==> bytes@[j] != 0u8,
        decreases bytes@.len() - i,
    {
        if bytes[i] == 0 {
            return true;
        }
        i += 1;
    }
    false
}

/// The bytes of `s` as the host wants text: its UTF-8 encoding and a NUL
/// after it.
pub fn str_to_c_char_ptr(s: &str) -> (r: Vec<u8>)
    requires
        nul_free(s.spec_bytes()),
    ensures
        r@ == s.spec_bytes().push(0u8),
        is_c_text(r@),
{
    let mut out = slice_to_vec(s.as_bytes());
    out.push(0u8);
    proof {
        broadcast use vstd::utf8::encode_utf8_valid_utf8;

        assert(out@.drop_last() =~= s.spec_bytes());
        assert(valid_utf8(vstd::utf8::encode_utf8(s@)));
    }
    out
}

/// The text of a buffer that the host filled with a C string.
pub fn string_from_c_chars(buffer: Vec<u8>) -> (r: Result<String, Error>)
    ensures
        match r {
            Ok(text) => is_c_text(buffer@) && text@ == decode_utf8(buffer@.drop_last()),
            Err(e) => e == Error::InvalidData && !is_c_text(buffer@),
        },
{
    let mut content = buffer;
    match content.pop() {
        Some(0u8) => {
            if contains_nul(content.as_slice()) {
                Err(Error::InvalidData)
            } else {
                match utf8_to_string(content) {
                    Some(text) => Ok(text),
                    None => Err(Error::InvalidData),
                }
            }
        },
        _ => Err(Error::InvalidData),
    }
}

/// Takes the packed content of a string tensor apart: item `i` is the text
/// between `offsets[i]` and the start of the next item, the last one running
/// to the end of `buffer`.
pub fn decode_strings(buffer: &[u8], offsets: &[usize]) -> (r: Result<Vec<String>, Error>)
    ensures
        match r {
            Ok(items) => {
                &&& well_packed(buffer@, offsets@)
                &&& items@.len() == offsets@.len()
                &&& forall|i: int|
                    0 <= i < items@.len() ==> (#[trigger] items@[i])@ == decode_utf8(
                        item_bytes(buffer@, offsets@, i),
                    )
            },
            Err(e) => e == Error::InvalidData && !well_packed(buffer@, offsets@),
        },
{
    let total = buffer.len();
    let count = offsets.len();
    let mut items: Vec<String> = Vec::new();
    let mut i: usize = 0;
    while i < count
        invariant
            i <= count,
            count == offsets@.len(),
            total == buffer@.len(),
            items@.len() == i,
            forall|j: int|
                0 <= j < i ==> offsets@[j] as int <= #[trigger] item_end(offsets@, total as int, j)
                    <= total,
            forall|j: int| 0 <= j < i ==> valid_utf8(#[trigger] item_bytes(buffer@, offsets@, j)),
            forall|j: int|
                0 <= j < i ==> (#[trigger] items@[j])@ == decode_utf8(
                    item_bytes(buffer@, offsets@, j),
                ),
        decreases count - i,
    {
        let start = offsets[i];
        let end = if i + 1 < count {
            offsets[i + 1]
        } else {
            total
        };
        assert(end as int == item_end(offsets@, total as int, i as int));
        if start > end || end > total {
            return Err(Error::InvalidData);
        }
        let piece = slice_to_vec(slice_subrange(buffer, start, end));
        assert(piece@ == item_bytes(buffer@, offsets@, i as int));
        match utf8_to_string(piece) {
            Some(text) => {
                items.push(text);
            },
            None => {
                return Err(Error::InvalidData);
            },
        }
        i += 1;
    }
    Ok(items)
}

} // verus!
