//! The reassembly buffer: a `managed::ManagedSlice` of bytes, either a vector
//! that the transfer owns and grows, or a region lent by the caller.
//!
//! Nothing inside a `ManagedSlice` is visible to the verifier. The contracts
//! in this file say what its variants and its `Deref` impls do, and are
//! taken on trust.

use managed::ManagedSlice;
use vstd::prelude::*;

verus! {

#[verifier::external_type_specification]
#[verifier::external_body]
#[verifier::reject_recursive_types(T)]
pub struct ExManagedSlice<'a, T: 'a>(ManagedSlice<'a, T>);

/// The bytes that a buffer holds, in order.
pub uninterp spec fn storage_bytes(s: ManagedSlice<'_, u8>) -> Seq<u8>;

/// Whether a buffer is the `Owned` variant, which can grow.
pub uninterp spec fn storage_owned(s: ManagedSlice<'_, u8>) -> bool;

/// `ManagedSlice::from` on a vector: the `Owned` variant around that vector.
#[verifier::external_body]
pub(crate) fn storage_from_vec<'a>(v: Vec<u8>) -> (s: ManagedSlice<'a, u8>)
    ensures
        storage_owned(s),
        storage_bytes(s) == v@,
{
    ManagedSlice::from(v)
}

/// Tells the variants of `ManagedSlice` apart.
#[verifier::external_body]
pub(crate) fn storage_is_owned(s: &ManagedSlice<'_, u8>) -> (r: bool)
    ensures
        r == storage_owned(*s),
{
    match s {
        ManagedSlice::Owned(_) => true,
        ManagedSlice::Borrowed(_) => false,
    }
}

/// The length of the slice that `ManagedSlice` dereferences to.
#[verifier::external_body]
pub(crate) fn storage_len(s: &ManagedSlice<'_, u8>) -> (n: usize)
    ensures
        n == storage_bytes(*s).len(),
{
    s.len()
}

/// The slice that `ManagedSlice::deref` gives: the whole contents of either
/// variant.
#[verifier::external_body]
pub(crate) fn storage_as_slice<'b>(s: &'b ManagedSlice<'_, u8>) -> (r: &'b [u8])
    ensures
        r@ == storage_bytes(*s),
{
    s
}

/// `Vec::extend_from_slice` on the vector of an `Owned` buffer: the bytes are
/// appended.
#[verifier::external_body]
pub(crate) fn storage_extend(s: &mut ManagedSlice<'_, u8>, data: &[u8])
    requires
        storage_owned(*old(s)),
    ensures
        storage_owned(*final(s)),
        storage_bytes(*final(s)) == storage_bytes(*old(s)) + data@,
{
    if let ManagedSlice::Owned(v) = s {
        v.extend_from_slice(data);
    }
}

/// `Vec::truncate` on the vector of an `Owned` buffer: what lies past `len` is
/// dropped, a shorter vector is left as it is.
#[verifier::external_body]
pub(crate) fn storage_truncate(s: &mut ManagedSlice<'_, u8>, len: usize)
    requires
        storage_owned(*old(s)),
    ensures
        storage_owned(*final(s)),
        storage_bytes(*final(s)) == if len < storage_bytes(*old(s)).len() {
            storage_bytes(*old(s)).take(len as int)
        } else {
            storage_bytes(*old(s))
        },
{
    if let ManagedSlice::Owned(v) = s {
        v.truncate(len);
    }
}

/// An assignment through `ManagedSlice::deref_mut`: one byte of either
/// variant is replaced, nothing else changes.
#[verifier::external_body]
pub(crate) fn storage_set(s: &mut ManagedSlice<'_, u8>, at: usize, byte: u8)
    requires
        at < storage_bytes(*old(s)).len(),
    ensures
        storage_owned(*final(s)) == storage_owned(*old(s)),
        storage_bytes(*final(s)) == storage_bytes(*old(s)).update(at as int, byte),
{
    s[at] = byte;
}

} // verus!
