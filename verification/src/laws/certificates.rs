//! The certificates of the server: what it identifies itself with.

use vstd::prelude::*;

use crate::apiserver::api::ServerPlan;
use crate::apiserver::api_error::Error;
use crate::apiserver::tls::{found, identity_read, is_extract_error, ServerIdentity};

verus! {

/// The server identifies itself with all certificates, the first key and all authorities that are
/// found; without a key it has no identity.
pub proof fn identity_is_made_of_what_is_found(
    plan: ServerPlan,
    certs: Seq<Seq<u8>>,
    keys: Seq<Seq<u8>>,
    cas: Seq<Seq<u8>>,
    r: Result<Option<ServerIdentity>, Error>,
)
    requires
        identity_read(plan, Ok(certs), Ok(keys), Ok(cas), r),
    ensures
        r is Ok,
        r->Ok_0 is Some <==> keys.len() > 0,
        r->Ok_0 is Some ==> {
            &&& r->Ok_0->0@.cert_chain == certs
            &&& r->Ok_0->0@.private_key == keys[0]
            &&& r->Ok_0->0@.cas == cas
        },
{
}

/// A file that cannot be read is told, with the reason: that of the certificates first, then that of
/// the key, then that of the authorities.
pub proof fn unreadable_files_are_told(
    plan: ServerPlan,
    certs: Result<Seq<Seq<u8>>, Seq<char>>,
    keys: Result<Seq<Seq<u8>>, Seq<char>>,
    cas: Result<Seq<Seq<u8>>, Seq<char>>,
    r: Result<Option<ServerIdentity>, Error>,
)
    requires
        identity_read(plan, certs, keys, cas, r),
    ensures
        r is Ok <==> certs is Ok && keys is Ok && cas is Ok,
        r is Err ==> {
            let (path, source) = if certs is Err {
                (plan.certificate_path@, certs->Err_0)
            } else if keys is Err {
                (plan.private_key_path@, keys->Err_0)
            } else {
                (plan.ca_path@, cas->Err_0)
            };
            &&& r->Err_0 is CertExtract
            &&& r->Err_0->CertExtract_path@ == path
            &&& r->Err_0->CertExtract_source@ == source
        },
{
}

/// The sections of a file are found as they are, or the reason why there are none.
pub proof fn sections_are_found_as_they_are(r: Result<Vec<Vec<u8>>, String>, i: int)
    ensures
        r is Ok <==> found(r) is Ok,
        r is Ok ==> found(r)->Ok_0.len() == r->Ok_0@.len() && (0 <= i < r->Ok_0@.len()
            ==> found(r)->Ok_0[i] == r->Ok_0@[i]@),
        r is Err ==> found(r)->Err_0 == r->Err_0@,
{
}

/// An error tells the file that cannot be read and why.
pub proof fn extract_errors_tell_the_file(e: Error, path: Seq<char>, source: Seq<char>)
    ensures
        is_extract_error(e, path, source) <==> e is CertExtract && e->CertExtract_path@ == path
            && e->CertExtract_source@ == source,
{
}

} // verus!
