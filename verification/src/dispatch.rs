//! Argument derivation for the three scan entry points.
//!
//! Each scanning mode hands the engine a C-compatible argument layout:
//! block and streaming mode pass one pointer with an unsigned 32-bit
//! length, vectored mode passes parallel arrays of pointers and lengths
//! together with a buffer count. The functions here compute those lengths
//! from the buffers' byte views, and enforce the one rule shared by all
//! dispatchers: a context value may only accompany a callback.
//!
//! The pointers themselves, and the calls, belong to the unverified
//! boundary around this library; it obtains every length it passes from
//! these functions.

use vstd::prelude::*;

use crate::buffer::Scannable;

verus! {

/// The length argument of a block-mode scan, and of one streaming chunk:
/// exactly the buffer's byte count.
///
/// That the byte count fits the engine's unsigned 32-bit length field is a
/// caller obligation.
pub fn block_scan_len<T: Scannable>(data: &T) -> (len: u32)
    requires
        data.bytes().len() <= u32::MAX,
    ensures
        len == data.bytes().len(),
{
    let b = data.as_bytes();
    b.len() as u32
}

/// The length array of a vectored scan: one entry per buffer, in the
/// buffers' own order.
///
/// Order is what gives vectored matches their meaning: the engine treats
/// the buffers as one logical stream, so entry `i` must be the byte count
/// of buffer `i` exactly. The buffer count the engine receives is the
/// length of this array.
pub fn vectored_scan_lens<T: Scannable>(data: &Vec<T>) -> (lens: Vec<u32>)
    requires
        forall|i: int|
            0 <= i < data@.len() ==> #[trigger] data@[i].bytes().len() <= u32::MAX,
    ensures
        lens@.len() == data@.len(),
        forall|i: int| 0 <= i < data@.len() ==> #[trigger] lens@[i] == data@[i].bytes().len(),
{
    let mut lens: Vec<u32> = Vec::new();
    let n = data.len();
    let mut k: usize = 0;
    while k < n
        invariant
            n == data@.len(),
            k <= n,
            lens@.len() == k,
            forall|i: int|
                0 <= i < data@.len() ==> #[trigger] data@[i].bytes().len() <= u32::MAX,
            forall|i: int| 0 <= i < k ==> #[trigger] lens@[i] == data@[i].bytes().len(),
        decreases n - k,
    {
        let elem: &T = &data[k];
        let b = elem.as_bytes();
        lens.push(b.len() as u32);
        k = k + 1;
    }
    lens
}

/// Binds the caller's context to the scan call.
///
/// When no callback is supplied the engine receives a null callback and
/// match production is suppressed; the context must then be absent as
/// well, whatever the caller passed.
pub fn scan_context<'a, D>(callback_present: bool, context: Option<&'a D>) -> (r: Option<&'a D>)
    ensures
        callback_present ==> r == context,
        !callback_present ==> r is None,
{
    if callback_present {
        context
    } else {
        None
    }
}

} // verus!
