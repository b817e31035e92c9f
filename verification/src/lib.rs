//! A verified library for parsing ClickOnce deployment manifests.
//!
//! The library models the deployment-manifest schema as a family of typed
//! records and decodes XML text into that model.  A low-level XML pull
//! parser supplies the raw tag/attribute structure; everything above it —
//! tree building, field lookup with aliasing, defaults, enumerated values
//! and the update choice type — is verified.

use vstd::prelude::*;

pub mod deploymentmanifest;
pub mod laws;
pub mod xml;

use crate::deploymentmanifest::DeploymentManifest;
use crate::deploymentmanifest::DeploymentManifestV;
use crate::deploymentmanifest::spec_decode;

verus! {

/// A decode failure: the text is not well-formed XML, or its shape does not
/// match the deployment-manifest schema.  Carries the underlying diagnostic.
#[derive(Debug)]
pub struct Error {
    /// The underlying diagnostic text.
    pub message: String,
}

impl Error {
    /// Wrap a diagnostic text.
    pub fn new(message: &str) -> (r: Error)
        ensures
            r.message@ == message@,
    {
        Error { message: message.to_owned() }
    }
}

/// Parsed information from a Magic: the Gathering Online ClickOnce
/// application descriptor.
#[derive(Debug, PartialEq)]
pub struct MtgoApplication {
    /// The decoded deployment manifest.
    pub deployment_manifest: DeploymentManifest,
}

/// Mathematical model of an application descriptor.
pub ghost struct MtgoApplicationV {
    /// The decoded deployment manifest.
    pub deployment_manifest: DeploymentManifestV,
}

impl View for MtgoApplication {
    type V = MtgoApplicationV;

    open spec fn view(&self) -> MtgoApplicationV {
        MtgoApplicationV { deployment_manifest: self.deployment_manifest@ }
    }
}

impl MtgoApplication {
    /// Get the application from file contents: strip a leading byte-order
    /// mark, if any, and decode the text as a deployment manifest.
    pub fn from_contents(contents: &str) -> (r: Result<MtgoApplication, Error>)
        ensures
            r is Ok <==> spec_decode(contents@) is Some,
            r matches Ok(app) ==> Some(app@.deployment_manifest) == spec_decode(contents@),
    {
        match DeploymentManifest::from_xml(contents) {
            Ok(deployment_manifest) => Ok(MtgoApplication { deployment_manifest }),
            Err(e) => Err(e),
        }
    }
}

} // verus!
