//! The dynamic values of `x-variant` that options and format lists are made of.
//!
//! A dictionary is known here by the numbers in it and an array by the
//! dictionaries in it.
use vstd::prelude::*;
use x_variant::Variant;

verus! {

/// The dynamic value of `x-variant`.
#[verifier::external_type_specification]
#[verifier::external_body]
pub struct ExVariant(x_variant::Variant);

/// Numbers by the keys that they stand under.
pub type Numbers = Map<Seq<char>, u32>;

/// The numbers in a dictionary: each key whose entry `Variant::get_uint32` reads
/// as a `u32`, with what it reads. Empty for a value that is no dictionary.
pub uninterp spec fn dict_numbers(value: Variant) -> Numbers;

/// The items of an array in order, each by the numbers in it.
pub uninterp spec fn array_dicts(value: Variant) -> Seq<Numbers>;

/// Whether a value is an array.
pub uninterp spec fn is_array(value: Variant) -> bool;

/// `Variant::new_array` gives an array without items.
pub assume_specification[ Variant::new_array ]() -> (array: Variant)
    ensures
        is_array(array),
        array_dicts(array) == Seq::<Numbers>::empty(),
;

/// `Variant::new_dict` gives a dictionary without entries.
pub assume_specification[ Variant::new_dict ]() -> (dict: Variant)
    ensures
        dict_numbers(dict) == Numbers::empty(),
;

/// `Variant::array_add` puts an item behind the others of an array. A value that
/// is no array stays as it is.
pub assume_specification[ Variant::array_add ](array: &mut Variant, value: Variant)
    ensures
        is_array(*final(array)) == is_array(*old(array)),
        is_array(*old(array)) ==> array_dicts(*final(array)) == array_dicts(*old(array)).push(
            dict_numbers(value),
        ),
        !is_array(*old(array)) ==> *final(array) == *old(array),
;

/// Calls `Index<&str>` and `Variant::get_uint32`: the entry of a dictionary under
/// a key, if it reads as a `u32`.
#[verifier::external_body]
pub(crate) fn dict_uint32(dict: &Variant, key: &str) -> (number: Option<u32>)
    ensures
        number == dict_numbers(*dict).get(key@),
{
    dict[key].get_uint32()
}

/// Calls `IndexMut<&str>` and the conversion of `u32` into `Variant`: the entry of
/// a dictionary under a key becomes the number, the others stay. A value that is
/// no dictionary becomes one with this entry alone.
#[verifier::external_body]
pub(crate) fn dict_set_uint32(dict: &mut Variant, key: &str, number: u32)
    ensures
        dict_numbers(*final(dict)) == dict_numbers(*old(dict)).insert(key@, number),
{
    dict[key] = number.into();
}

} // verus!
