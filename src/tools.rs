use vstd::prelude::*;

use crate::errors::FailedDecode;
use vstd::std_specs::iter::IteratorSpec;

verus! {

/// The little-endian 16-bit value of the bytes `low`, `high`.
pub open spec fn u16_le(low: u8, high: u8) -> u16 {
    (low as int + 256 * high as int) as u16
}

pub(crate) fn next_item<I: Iterator>(it: &mut I) -> (r: Option<I::Item>)
    ensures
        (*old(it)).obeys_prophetic_iter_laws() ==> (if (*old(it)).remaining().len() > 0 {
            (*final(it)).remaining() == (*old(it)).remaining().drop_first() && r == Some(
                (*old(it)).remaining()[0],
            )
        } else {
            (*final(it)).remaining() == (*old(it)).remaining() && r is None
        }),
{
    it.next()
}

/// Takes the next byte of the stream; at its end, fails with `byte1` and `message`.
pub fn get_u8_displacement_from_iterator<'a>(
    iterator: &mut std::vec::IntoIter<u8>,
    byte1: u8,
    message: &'a str,
) -> (r: Result<u8, FailedDecode<'a>>)
    ensures
        (*old(iterator)).remaining().len() > 0 ==> r == Ok::<u8, FailedDecode<'a>>(
            (*old(iterator)).remaining()[0],
        ) && (*final(iterator)).remaining() == (*old(iterator)).remaining().drop_first(),
        (*old(iterator)).remaining().len() == 0 ==> r == Err::<u8, FailedDecode<'a>>(
            FailedDecode { bytes: byte1, message },
        ) && (*final(iterator)).remaining().len() == 0,
{
    match next_item(iterator) {
        Some(value) => Ok(value),
        None => Err(FailedDecode { bytes: byte1, message }),
    }
}

/// Takes the next two bytes of the stream as a little-endian 16-bit value; where fewer
/// than two are left, takes what is left and fails with `byte1` and `message`.
pub fn get_u16_displacement_from_iterator<'a>(
    iterator: &mut std::vec::IntoIter<u8>,
    byte1: u8,
    message: &'a str,
) -> (r: Result<u16, FailedDecode<'a>>)
    ensures
        (*old(iterator)).remaining().len() >= 2 ==> r == Ok::<u16, FailedDecode<'a>>(
            u16_le((*old(iterator)).remaining()[0], (*old(iterator)).remaining()[1]),
        ) && (*final(iterator)).remaining() == (*old(iterator)).remaining().skip(2),
        (*old(iterator)).remaining().len() < 2 ==> r == Err::<u16, FailedDecode<'a>>(
            FailedDecode { bytes: byte1, message },
        ) && (*final(iterator)).remaining().len() == 0,
{
    let low = match get_u8_displacement_from_iterator(iterator, byte1, message) {
        Ok(value) => value,
        Err(e) => return Err(e),
    };
    let high = match get_u8_displacement_from_iterator(iterator, byte1, message) {
        Ok(value) => value,
        Err(e) => return Err(e),
    };
    assert((*final(iterator)).remaining() =~= (*old(iterator)).remaining().skip(2));
    Ok((high as u16) * 256 + (low as u16))
}

} // verus!
