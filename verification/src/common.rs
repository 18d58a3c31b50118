//! Text that comes back from the graphics driver.

use vstd::prelude::*;
use vstd::utf8::{decode_utf8, valid_utf8};

verus! {

/// The byte that a C `char` of value `c` stands for.
pub open spec fn byte_of(c: i8) -> u8 {
    if c >= 0 {
        c as u8
    } else {
        (c + 256) as u8
    }
}

/// The bytes of the C string at the start of `arr`: every byte before the
/// first zero; all of `arr` if it holds no zero.
pub open spec fn c_prefix(arr: Seq<i8>) -> Seq<u8>
    decreases arr.len(),
{
    if arr.len() == 0 || arr[0] == 0 {
        Seq::empty()
    } else {
        seq![byte_of(arr[0])] + c_prefix(arr.skip(1))
    }
}

/// Calls `String::from_utf8`, and drops what the error holds. Claims what its
/// documentation says: it succeeds exactly on valid UTF-8, and the string is
/// then what the bytes encode.
#[verifier::external_body]
fn string_from_utf8(bytes: Vec<u8>) -> (r: Option<String>)
    ensures
        r is Some <==> valid_utf8(bytes@),
        r matches Some(s) ==> s@ == decode_utf8(bytes@),
{
    String::from_utf8(bytes).ok()
}

pub struct PunkString;

impl PunkString {
    /// The bytes of the C string at the start of `arr`.
    pub fn c_bytes(arr: &[i8]) -> (r: Vec<u8>)
        ensures
            r@ == c_prefix(arr@),
    {
        let mut message: Vec<u8> = Vec::new();
        let mut i: usize = 0;
        proof {
            assert(arr@.skip(0) =~= arr@);
        }
        while i < arr.len() && arr[i] != 0
            invariant
                i <= arr.len(),
                message@ + c_prefix(arr@.skip(i as int)) == c_prefix(arr@),
            decreases arr.len() - i,
        {
            let c = arr[i];
            let b: u8 = if c >= 0 {
                c as u8
            } else {
                (c as i16 + 256) as u8
            };
            proof {
                let rest = arr@.skip(i as int);
                assert(rest[0] == c);
                assert(rest.skip(1) =~= arr@.skip(i + 1));
                assert(message@.push(b) + c_prefix(arr@.skip(i + 1)) =~= message@ + c_prefix(rest));
            }
            message.push(b);
            i += 1;
        }
        proof {
            let rest = arr@.skip(i as int);
            if i < arr.len() {
                assert(rest[0] == arr@[i as int]);
            }
            assert(c_prefix(rest) =~= Seq::<u8>::empty());
            assert(message@ + Seq::<u8>::empty() =~= message@);
        }
        message
    }

    /// The C string at the start of `arr` as a `String`, if it is UTF-8.
    pub fn try_i8_array_to_string(arr: &[i8]) -> (r: Option<String>)
        ensures
            r is Some <==> valid_utf8(c_prefix(arr@)),
            r matches Some(s) ==> s@ == decode_utf8(c_prefix(arr@)),
    {
        string_from_utf8(Self::c_bytes(arr))
    }

    /// The C string at the start of `arr` as a `String`.
    pub fn i8_array_to_string(arr: &[i8]) -> (r: String)
        requires
            valid_utf8(c_prefix(arr@)),
        ensures
            r@ == decode_utf8(c_prefix(arr@)),
    {
        match Self::try_i8_array_to_string(arr) {
            Some(s) => s,
            None => String::new(),
        }
    }
}

} // verus!
