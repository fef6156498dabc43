//! The identity of the server: its certificates and its private key, read from PEM files.

use vstd::prelude::*;

use super::api::ServerPlan;
use super::api_error::Error;

verus! {

/// The certificates that `rustls_pemfile::certs` finds in a PEM file, or the text of the first
/// error.
pub uninterp spec fn pem_certificates(pem: Seq<u8>) -> Result<Seq<Seq<u8>>, Seq<char>>;

/// The keys that `rustls_pemfile::pkcs8_private_keys` finds in a PEM file, or the text of the
/// first error.
pub uninterp spec fn pem_pkcs8_keys(pem: Seq<u8>) -> Result<Seq<Seq<u8>>, Seq<char>>;

/// Sections of a PEM file as their bytes.
pub open spec fn sections(v: Seq<Vec<u8>>) -> Seq<Seq<u8>> {
    v.map_values(|s: Vec<u8>| s@)
}

/// What was found in a PEM file, as bytes, or the text of the error.
pub open spec fn found(r: Result<Vec<Vec<u8>>, String>) -> Result<Seq<Seq<u8>>, Seq<char>> {
    match r {
        Ok(v) => Ok(sections(v@)),
        Err(e) => Err(e@),
    }
}

/// Collects what `rustls_pemfile::certs` yields for the bytes of a PEM file: the DER bytes of all
/// certificates, in their order, or the text of the first error. `pem_certificates` names both.
#[verifier::external_body]
fn read_certificates(pem: &Vec<u8>) -> (r: Result<Vec<Vec<u8>>, String>)
    ensures
        found(r) == pem_certificates(pem@),
{
    rustls_pemfile::certs(&mut pem.as_slice())
        .map(|cert| cert.map(|der| der.to_vec()).map_err(|e| e.to_string()))
        .collect()
}

/// Collects what `rustls_pemfile::pkcs8_private_keys` yields for the bytes of a PEM file: the DER
/// bytes of all keys, in their order, or the text of the first error. `pem_pkcs8_keys` names
/// both.
#[verifier::external_body]
fn read_private_keys(pem: &Vec<u8>) -> (r: Result<Vec<Vec<u8>>, String>)
    ensures
        found(r) == pem_pkcs8_keys(pem@),
{
    rustls_pemfile::pkcs8_private_keys(&mut pem.as_slice())
        .map(|key| key.map(|der| der.secret_pkcs8_der().to_vec()).map_err(|e| e.to_string()))
        .collect()
}

/// What the server shows of itself, and which authorities it trusts, in DER form.
#[derive(Debug)]
pub struct ServerIdentity {
    pub cert_chain: Vec<Vec<u8>>,
    pub private_key: Vec<u8>,
    /// The certificate authorities, so a client can authenticate the server.
    pub cas: Vec<Vec<u8>>,
}

/// The contents of a `ServerIdentity`.
pub struct IdentityView {
    pub cert_chain: Seq<Seq<u8>>,
    pub private_key: Seq<u8>,
    pub cas: Seq<Seq<u8>>,
}

impl View for ServerIdentity {
    type V = IdentityView;

    open spec fn view(&self) -> IdentityView {
        IdentityView {
            cert_chain: sections(self.cert_chain@),
            private_key: self.private_key@,
            cas: sections(self.cas@),
        }
    }
}

/// Whether the outcome of reading the three files of a server is right, given what was found in
/// them. The first file that cannot be read, in the order certificate, key and authorities, is
/// reported with its path. The first key counts; without any there is no identity.
pub open spec fn identity_read(
    plan: ServerPlan,
    certs: Result<Seq<Seq<u8>>, Seq<char>>,
    keys: Result<Seq<Seq<u8>>, Seq<char>>,
    cas: Result<Seq<Seq<u8>>, Seq<char>>,
    r: Result<Option<ServerIdentity>, Error>,
) -> bool {
    match (certs, keys, cas) {
        (Err(e), _, _) => r is Err && is_extract_error(r->Err_0, plan.certificate_path@, e),
        (Ok(_), Err(e), _) => r is Err && is_extract_error(r->Err_0, plan.private_key_path@, e),
        (Ok(_), Ok(_), Err(e)) => r is Err && is_extract_error(r->Err_0, plan.ca_path@, e),
        (Ok(cert_chain), Ok(keys), Ok(cas)) => {
            &&& r is Ok
            &&& if keys.len() == 0 {
                r->Ok_0 is None
            } else {
                r->Ok_0 is Some && r->Ok_0->0@ == (IdentityView {
                    cert_chain,
                    private_key: keys[0],
                    cas,
                })
            }
        },
    }
}

/// Whether an error reports that a file cannot be read.
pub open spec fn is_extract_error(e: Error, path: Seq<char>, source: Seq<char>) -> bool {
    &&& e is CertExtract
    &&& e->CertExtract_path@ == path
    &&& e->CertExtract_source@ == source
}

/// The identity of a server, from what was found in its files.
pub fn assemble_identity(
    plan: &ServerPlan,
    certs: Result<Vec<Vec<u8>>, String>,
    keys: Result<Vec<Vec<u8>>, String>,
    cas: Result<Vec<Vec<u8>>, String>,
) -> (r: Result<Option<ServerIdentity>, Error>)
    ensures
        identity_read(*plan, found(certs), found(keys), found(cas), r),
{
    let cert_chain = match certs {
        Ok(v) => v,
        Err(source) => {
            return Err(Error::CertExtract { path: plan.certificate_path.clone(), source });
        },
    };
    let mut keys = match keys {
        Ok(v) => v,
        Err(source) => {
            return Err(Error::CertExtract { path: plan.private_key_path.clone(), source });
        },
    };
    let cas = match cas {
        Ok(v) => v,
        Err(source) => {
            return Err(Error::CertExtract { path: plan.ca_path.clone(), source });
        },
    };
    if keys.len() == 0 {
        return Ok(None);
    }
    let private_key = keys.remove(0);
    Ok(Some(ServerIdentity { cert_chain, private_key, cas }))
}

/// The identity of a server, from the contents of its certificate, key and authority files. There
/// is none exactly where all of them can be read and there is no key.
pub fn server_identity(plan: &ServerPlan, cert: &Vec<u8>, key: &Vec<u8>, ca: &Vec<u8>) -> (r: Result<
    Option<ServerIdentity>,
    Error,
>)
    ensures
        identity_read(
            *plan,
            pem_certificates(cert@),
            pem_pkcs8_keys(key@),
            pem_certificates(ca@),
            r,
        ),
{
    assemble_identity(plan, read_certificates(cert), read_private_keys(key), read_certificates(ca))
}

} // verus!
