//! The credentials that requests are checked against.
//!
//! The check itself is done by `s3s`; this module only builds the table of
//! credentials that `s3s` consults.

use s3s::auth::SimpleAuth;
use vstd::prelude::*;

verus! {

/// `s3s::auth::SimpleAuth`: a table from access keys to secret keys.
#[verifier::external_type_specification]
#[verifier::external_body]
pub struct ExSimpleAuth(s3s::auth::SimpleAuth);

/// The pairs that a table of credentials holds: each access key that
/// `SimpleAuth::lookup` finds, with the text that `SecretKey::expose` gives
/// for its secret key.
pub uninterp spec fn auth_pairs(auth: SimpleAuth) -> Map<Seq<char>, Seq<char>>;

/// The table that holds one pair and nothing else.
pub open spec fn single_pair(access_key: Seq<char>, secret_key: Seq<char>) -> Map<
    Seq<char>,
    Seq<char>,
> {
    Map::empty().insert(access_key, secret_key)
}

/// `SimpleAuth::from_single`: a table that holds the given pair and nothing
/// else. This is taken on trust from the source of `s3s`, which collects the
/// one pair into an empty map.
#[verifier::external_body]
pub(crate) fn single_auth(access_key: String, secret_key: String) -> (auth: SimpleAuth)
    ensures
        auth_pairs(auth) == single_pair(access_key@, secret_key@),
{
    SimpleAuth::from_single(access_key, secret_key)
}

} // verus!
