//! Reading the touch-status byte and the product identity.

use vstd::prelude::*;
use crate::error::Error;

verus! {

/// Whether a status byte has the ready flag, bit 7, set.
pub open spec fn status_ready(status: u8) -> bool {
    status >= 0x80
}

/// The number of touch points in a status byte, bits 0 to 3.
pub open spec fn status_count(status: u8) -> usize {
    (status % 16) as usize
}

/// What a poll makes of a status byte.
pub open spec fn num_touch_points_of<E>(status: u8) -> Result<usize, Error<E>> {
    if status_ready(status) {
        Ok(status_count(status))
    } else {
        Err(Error::NotReady)
    }
}

/// Interprets the touch-status byte: the number of touch points when the
/// device has new data, `NotReady` when it has none.
pub fn get_num_touch_points<E>(status: u8) -> (polled: Result<usize, Error<E>>)
    ensures
        polled == num_touch_points_of::<E>(status),
{
    let ready = (status & 0x80) > 0;
    let num_touch_points = (status & 0x0F) as usize;
    assert((status & 0x80) > 0 <==> status >= 0x80) by (bit_vector);
    assert(status & 0x0F == status % 16) by (bit_vector);
    if ready {
        Ok(num_touch_points)
    } else {
        Err(Error::NotReady)
    }
}

/// The bytes that the identity register of a GT911 holds: `"911\0"`.
pub open spec fn product_id() -> Seq<u8> {
    seq![0x39u8, 0x31u8, 0x31u8, 0x00u8]
}

/// Whether `buf` starts with the identity of a GT911.
pub fn is_product_id(buf: &[u8]) -> (same: bool)
    ensures
        same == (buf@.len() >= 4 && buf@.subrange(0, 4) == product_id()),
{
    if buf.len() < 4 {
        return false;
    }
    let same = buf[0] == 0x39 && buf[1] == 0x31 && buf[2] == 0x31 && buf[3] == 0x00;
    proof {
        let id = buf@.subrange(0, 4);
        if same {
            assert(id =~= product_id());
        } else {
            assert(id[0] == buf@[0] && id[1] == buf@[1] && id[2] == buf@[2] && id[3] == buf@[3]);
        }
    }
    same
}

} // verus!
