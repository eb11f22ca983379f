//! A section's table of descriptions: texts kept in a `slab::Slab` and found
//! again by the key that the slab gave out when the text went in.
//!
//! The slab is the work of the `slab` crate. What this module says of it is
//! taken on trust from that crate's code; everything built on top is proved.

use crate::text::Text;
use slab::Slab;
use vstd::prelude::*;

verus! {

/// `slab::Slab`, carried as an opaque value. What a slab of texts holds is
/// named by [`slab_entries`].
#[verifier::external_type_specification]
#[verifier::external_body]
#[verifier::reject_recursive_types(T)]
pub struct ExSlab<T>(Slab<T>);

/// The occupied slots of a slab of texts: each key in use, with the text
/// stored under it.
pub uninterp spec fn slab_entries(table: Slab<Text>) -> Map<usize, Text>;

/// `Slab::new`: a slab with no occupied slot.
#[verifier::external_body]
pub(crate) fn slab_new() -> (table: Slab<Text>)
    ensures
        slab_entries(table).dom() == Set::<usize>::empty(),
{
    Slab::new()
}

/// `Slab::insert`: stores `text` in a slot that was vacant, leaves every
/// occupied slot as it was, and returns the key of the slot it used. The call
/// fails only where memory for another slot cannot be had.
#[verifier::external_body]
pub(crate) fn slab_insert(table: &mut Slab<Text>, text: Text) -> (key: usize)
    ensures
        !slab_entries(*old(table)).dom().contains(key),
        slab_entries(*final(table)) == slab_entries(*old(table)).insert(key, text),
{
    table.insert(text)
}

/// Indexing a slab by a key: the text in that slot. The index panics on a key
/// whose slot is vacant, so only an occupied one is admitted.
#[verifier::external_body]
pub(crate) fn slab_index(table: &Slab<Text>, key: usize) -> (text: Text)
    requires
        slab_entries(*table).dom().contains(key),
    ensures
        text == slab_entries(*table)[key],
{
    table[key]
}

} // verus!
