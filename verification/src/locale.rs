//! The user's UI locale name as Windows reports it, for choosing a
//! language pack.

use vstd::prelude::*;

use crate::text::{decode_utf16_lossy, utf16_lossy_of};

verus! {

/// The locale name held in `buf` when `GetUserDefaultLocaleName` returned
/// `len` (the count includes the terminating NUL; 1 or less means none).
pub fn locale_name(buf: &[u16], len: i32) -> (r: Option<String>)
    requires
        len <= buf@.len() + 1,
    ensures
        len <= 1 ==> r is None,
        len > 1 ==> (r matches Some(s) && s@ == utf16_lossy_of(buf@.take(len - 1))),
{
    if len <= 1 {
        return None;
    }
    let n = (len - 1) as usize;
    let mut units: Vec<u16> = Vec::new();
    let mut i: usize = 0;
    while i < n
        invariant
            0 <= i <= n,
            n <= buf@.len(),
            units@ == buf@.take(i as int),
        decreases n - i,
    {
        units.push(buf[i]);
        assert(buf@.take(i + 1) =~= buf@.take(i as int).push(buf@[i as int]));
        i += 1;
    }
    Some(decode_utf16_lossy(units.as_slice()))
}

} // verus!
