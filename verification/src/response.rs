//! Trusted view of the host framework's response value.
//!
//! Mutating entry points report their outcome as a `cosmwasm_std::Response`
//! carrying an ordered list of key-value string attributes. The type is opaque
//! to the verifier; `resp_attrs` names its attribute list, `resp_is_plain`
//! names whether everything else in it is still empty, and the two wrappers
//! below state how the framework's constructors change both.

use vstd::prelude::*;

verus! {

#[verifier::external_type_specification]
#[verifier::external_body]
#[verifier::reject_recursive_types(T)]
pub struct ExResponse<T>(cosmwasm_std::Response<T>);

#[verifier::external_type_specification]
#[verifier::external_body]
pub struct ExEmpty(cosmwasm_std::Empty);

/// The attribute list of `r`, as a sequence of (key, value) character
/// sequences, in the order the attributes were added.
pub uninterp spec fn resp_attrs(r: cosmwasm_std::Response) -> Seq<(Seq<char>, Seq<char>)>;

/// Whether everything in `r` besides the attribute list — its submessages,
/// its events and its data payload — is still as `Response::new` left it:
/// empty.
pub uninterp spec fn resp_is_plain(r: cosmwasm_std::Response) -> bool;

/// Relies on cosmwasm_std::Response::new, which builds the default response:
/// its attribute list is the empty vector, and its submessages, events and
/// data are empty as well.
#[verifier::external_body]
pub(crate) fn response_new() -> (r: cosmwasm_std::Response)
    ensures
        resp_attrs(r) == Seq::<(Seq<char>, Seq<char>)>::empty(),
        resp_is_plain(r),
{
    cosmwasm_std::Response::new()
}

/// Relies on cosmwasm_std::Response::add_attribute, which pushes the pair
/// onto the response's attribute vector and changes nothing else. The
/// framework reserves attribute keys starting with an underscore: in debug
/// builds `Attribute::new` panics on them, so such keys are excluded here.
#[verifier::external_body]
pub(crate) fn add_attribute(
    r: cosmwasm_std::Response,
    key: String,
    value: String,
) -> (out: cosmwasm_std::Response)
    requires
        key@.len() == 0 || key@[0] != '_',
    ensures
        resp_attrs(out) == resp_attrs(r).push((key@, value@)),
        resp_is_plain(out) == resp_is_plain(r),
{
    r.add_attribute(key, value)
}

} // verus!
