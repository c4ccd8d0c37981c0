//! Fixed-width, zero-padded encoding of names.

use vstd::prelude::*;
use vstd::string::StringSliceAdditionalSpecFns;

verus! {

/// Width of the device name field of the device descriptor.
pub const DEVICE_NAME_WIDTH: usize = 128;

/// Width of the name field of a self-test item.
pub const TEST_NAME_WIDTH: usize = 32;

/// `bytes` followed by zeros up to `width` bytes in all.
pub open spec fn zero_padded(bytes: Seq<u8>, width: nat) -> Seq<u8> {
    Seq::new(
        width,
        |i: int|
            if i < bytes.len() {
                bytes[i]
            } else {
                0u8
            },
    )
}

/// Whether a name of these bytes fits a field of `width` bytes.
pub open spec fn fits(bytes: Seq<u8>, width: nat) -> bool {
    bytes.len() <= width
}

/// Pads `name` with zero bytes to a field of `OPT_LEN` bytes.
///
/// The first bytes of the field are the bytes of `name`, in order; every byte
/// after them is zero. A name that does not fit the field is not accepted.
pub fn assign_name<const OPT_LEN: usize>(name: &str) -> (ans: [u8; OPT_LEN])
    requires
        fits(name.spec_bytes(), OPT_LEN as nat),
    ensures
        ans@ == zero_padded(name.spec_bytes(), OPT_LEN as nat),
{
    let name_len: usize = name.len();
    let arr = name.as_bytes();
    let mut ans: [u8; OPT_LEN] = [0u8; OPT_LEN];
    let mut i: usize = 0;
    while i < name_len
        invariant
            name_len == name.spec_bytes().len(),
            arr@ == name.spec_bytes(),
            name_len <= OPT_LEN,
            i <= name_len,
            ans@.len() == OPT_LEN,
            forall|k: int| 0 <= k < i ==> ans@[k] == arr@[k],
            forall|k: int| i <= k < OPT_LEN ==> ans@[k] == 0u8,
        decreases name_len - i,
    {
        ans[i] = arr[i];
        i += 1;
    }
    assert(ans@ =~= zero_padded(name.spec_bytes(), OPT_LEN as nat));
    ans
}

} // verus!
