//! What the platform bridge computes from the values it reads.
use vstd::prelude::*;
use vstd::string::StrSliceExecFns;

verus! {

/// The upper-case form of a string as `str::to_uppercase` of the standard
/// library yields it, after the Unicode character database. A character may
/// become several.
pub uninterp spec fn uppercase_of(s: Seq<char>) -> Seq<char>;

/// `str::to_uppercase` returns the upper-case equivalent of the string slice
/// as a new string. Nothing is proved of it: its result is taken to be the
/// upper-case form named above.
pub assume_specification[ str::to_uppercase ](s: &str) -> (upper: std::string::String)
    ensures
        upper@ == uppercase_of(s@),
;

/// `String::push_str` appends the given string slice to the end of the
/// string. This is taken from its documentation, not proved.
pub assume_specification[ std::string::String::push_str ](
    s: &mut std::string::String,
    string: &str,
)
    ensures
        final(s)@ == old(s)@ + string@,
;

/// The brand without its first character.
pub open spec fn rest_of(brand: Seq<char>) -> Seq<char> {
    if brand.len() > 0 {
        brand.skip(1)
    } else {
        brand
    }
}

/// The device name shown for a brand and a model: the brand with
/// `capital` in place of its first character, a space, and the model.
pub open spec fn spec_device_name(capital: Seq<char>, brand: Seq<char>, model: Seq<char>) -> Seq<
    char,
> {
    capital + rest_of(brand) + seq![' '] + model
}

/// The capitalised first character of a brand; nothing for an empty brand.
pub open spec fn capital_of(brand: Seq<char>) -> Seq<char> {
    if brand.len() > 0 {
        uppercase_of(brand.take(1))
    } else {
        Seq::empty()
    }
}

/// Joins the device name from the capitalised first character of the brand,
/// the brand and the model.
pub fn join_device_name(capital: &str, brand: &str, model: &str) -> (name: String)
    ensures
        name@ == spec_device_name(capital@, brand@, model@),
{
    proof {
        reveal_strlit(" ");
    }
    let length = brand.unicode_len();
    let mut name = capital.to_owned();
    if length > 0 {
        name.push_str(brand.substring_char(1, length));
        assert(brand@.subrange(1, brand@.len() as int) =~= brand@.skip(1));
    }
    name.push_str(" ");
    name.push_str(model);
    assert(" "@ =~= seq![' ']);
    assert(name@ =~= spec_device_name(capital@, brand@, model@));
    name
}

/// The name under which the device presents itself: its brand with the
/// first character in upper case, and its model. An empty brand leaves the
/// space and the model.
pub fn device_name(brand: &str, model: &str) -> (name: String)
    ensures
        name@ == spec_device_name(capital_of(brand@), brand@, model@),
{
    if brand.unicode_len() > 0 {
        let capital = brand.substring_char(0, 1).to_uppercase();
        assert(brand@.subrange(0, 1) =~= brand@.take(1));
        join_device_name(capital.as_str(), brand, model)
    } else {
        proof {
            reveal_strlit("");
        }
        assert(""@ =~= Seq::<char>::empty());
        join_device_name("", brand, model)
    }
}

} // verus!
