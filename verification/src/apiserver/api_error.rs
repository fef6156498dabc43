//! What can go wrong with the apiserver.

use vstd::prelude::*;
use vstd::string::*;

use crate::text::{concat2, concat3, concat4};

verus! {

/// An error of the apiserver.
#[derive(Debug)]
pub enum Error {
    /// A header is missing or is not text.
    HTTPHeaderParse { missing_header: &'static str },
    MissingClusterIPFamily { source: String },
    BottlerocketShadowCreate { source: String },
    BottlerocketShadowUpdate { source: String },
    HttpServerError { source: String },
    KubernetesWatcherFailed,
    BottlerocketShadowCordon { source: String },
    BottlerocketShadowDrain { source: String },
    ReadCertificateFailed { source: String },
    ReloadCertificateFailed,
    FileOpen { path: String, source: String },
    CertExtract { path: String, source: String },
    CertStore { source: String },
    TLSConfigBuild { source: String },
    WebhookError { source: String },
}

impl Error {
    /// The error in words: the body of the response to a request that failed.
    pub open spec fn message(self) -> Seq<char> {
        match self {
            Error::HTTPHeaderParse { missing_header } => "Unable to parse HTTP header. Missing '"@
                + missing_header@ + "'"@,
            Error::MissingClusterIPFamily { source } =>
            "Unable to detect cluster IP family. For '"@
                + source@ + "'"@,
            Error::BottlerocketShadowCreate { source } => "Error creating BottlerocketShadow: '"@
                + source@ + "'"@,
            Error::BottlerocketShadowUpdate { source } => "Error patching BottlerocketShadow: '"@
                + source@ + "'"@,
            Error::HttpServerError { source } => "Error running HTTP server: '"@ + source@ + "'"@,
            Error::KubernetesWatcherFailed => "The Kubernetes WATCH on Pod objects has failed."@,
            Error::BottlerocketShadowCordon { source } => "Failed to cordon Node: '"@
                + source@ + "'"@,
            Error::BottlerocketShadowDrain { source } => "Failed to drain Node: '"@
                + source@ + "'"@,
            Error::ReadCertificateFailed { source: _ } => "Failed to read certificate."@,
            Error::ReloadCertificateFailed => "Failed to reload certificate."@,
            Error::FileOpen { path, source } => "Failed to open file '"@ + path@ + "': "@ + source@,
            Error::CertExtract { path, source } => "Failed to extract TLS cert from file "@
                + path@ + ": "@ + source@,
            Error::CertStore { source } => "Failed to add CA to cert store: "@ + source@,
            Error::TLSConfigBuild { source } => "Failed to build TLS config from loaded certs: "@
                + source@,
            Error::WebhookError { source } => "Failed to serialize Webhook response: "@ + source@,
        }
    }

    /// The error in words.
    pub fn to_text(&self) -> (r: String)
        ensures
            r@ == self.message(),
    {
        match self {
            Error::HTTPHeaderParse { missing_header } => concat3(
                "Unable to parse HTTP header. Missing '",
                missing_header,
                "'",
            ),
            Error::MissingClusterIPFamily { source } => concat3(
                "Unable to detect cluster IP family. For '",
                source.as_str(),
                "'",
            ),
            Error::BottlerocketShadowCreate { source } => concat3(
                "Error creating BottlerocketShadow: '",
                source.as_str(),
                "'",
            ),
            Error::BottlerocketShadowUpdate { source } => concat3(
                "Error patching BottlerocketShadow: '",
                source.as_str(),
                "'",
            ),
            Error::HttpServerError { source } => concat3(
                "Error running HTTP server: '",
                source.as_str(),
                "'",
            ),
            Error::KubernetesWatcherFailed => String::from_str(
                "The Kubernetes WATCH on Pod objects has failed.",
            ),
            Error::BottlerocketShadowCordon { source } => concat3(
                "Failed to cordon Node: '",
                source.as_str(),
                "'",
            ),
            Error::BottlerocketShadowDrain { source } => concat3(
                "Failed to drain Node: '",
                source.as_str(),
                "'",
            ),
            Error::ReadCertificateFailed { source: _ } => String::from_str(
                "Failed to read certificate.",
            ),
            Error::ReloadCertificateFailed => String::from_str("Failed to reload certificate."),
            Error::FileOpen { path, source } => concat4(
                "Failed to open file '",
                path.as_str(),
                "': ",
                source.as_str(),
            ),
            Error::CertExtract { path, source } => concat4(
                "Failed to extract TLS cert from file ",
                path.as_str(),
                ": ",
                source.as_str(),
            ),
            Error::CertStore { source } => concat2(
                "Failed to add CA to cert store: ",
                source.as_str(),
            ),
            Error::TLSConfigBuild { source } => concat2(
                "Failed to build TLS config from loaded certs: ",
                source.as_str(),
            ),
            Error::WebhookError { source } => concat2(
                "Failed to serialize Webhook response: ",
                source.as_str(),
            ),
        }
    }
}

} // verus!
