//! Laws of the decoder: the guarantees that hold of every document, stated
//! over the decoding model and proved once and for all.

use vstd::prelude::*;

use crate::deploymentmanifest::DeploymentManifestV;
use crate::deploymentmanifest::ExpirationV;
use crate::deploymentmanifest::ProcessorArchitecture;
use crate::deploymentmanifest::UpdateV;
use crate::deploymentmanifest::spec_arch;
use crate::deploymentmanifest::spec_assembly_identity;
use crate::deploymentmanifest::spec_decode;
use crate::deploymentmanifest::spec_deployment;
use crate::deploymentmanifest::spec_manifest;
use crate::deploymentmanifest::spec_update;
use crate::xml::XmlElementV;
use crate::xml::spec_attr;
use crate::xml::spec_child;
use crate::xml::spec_children;
use crate::xml::spec_strip_bom;

verus! {

broadcast use vstd::string::group_string_axioms;

/// A decoded assembly identity is never partial: whenever decoding
/// succeeds, every required field holds the value of an attribute that is
/// present in the document.
pub proof fn lemma_identity_required_fields_populated(e: XmlElementV)
    requires
        spec_assembly_identity(e) is Some,
    ensures
        spec_attr(e.attrs, "name"@, "name"@) == Some(spec_assembly_identity(e).unwrap().name),
        spec_attr(e.attrs, "version"@, "version"@) == Some(
            spec_assembly_identity(e).unwrap().version,
        ),
        spec_attr(e.attrs, "public_key_token"@, "publicKeyToken"@) == Some(
            spec_assembly_identity(e).unwrap().public_key_token,
        ),
        spec_attr(e.attrs, "processor_architecture"@, "processorArchitecture"@) is Some,
{
}

/// An assembly identity without a `type` attribute decodes with `type_`
/// equal to `win32`.
pub proof fn lemma_type_defaults_to_win32(e: XmlElementV)
    requires
        spec_attr(e.attrs, "type"@, "type"@) is None,
        spec_assembly_identity(e) is Some,
    ensures
        spec_assembly_identity(e).unwrap().type_ == "win32"@,
{
}

/// A deployment omitting any of its three optional boolean attributes
/// decodes with that boolean equal to false.
pub proof fn lemma_deployment_booleans_default_to_false(e: XmlElementV)
    requires
        spec_deployment(e) is Some,
    ensures
        spec_attr(e.attrs, "map_file_extensions"@, "mapFileExtensions"@) is None ==> !spec_deployment(
            e,
        ).unwrap().map_file_extensions,
        spec_attr(e.attrs, "disallow_url_activation"@, "disallowUrlActivation"@) is None
            ==> !spec_deployment(e).unwrap().disallow_url_activation,
        spec_attr(e.attrs, "trust_url_parameters"@, "trustURLParameters"@) is None
            ==> !spec_deployment(e).unwrap().trust_url_parameters,
{
}

/// An update element with no child decodes to the no-child-present variant,
/// not to a failure.
pub proof fn lemma_update_without_child_succeeds(e: XmlElementV)
    requires
        e.children.len() == 0,
    ensures
        spec_update(e) == Some(UpdateV::NoChildPresent),
{
}

/// An update element whose first child is an `expiration` element carries
/// the child's `maximumAge` and `unit` attribute values through unchanged.
pub proof fn lemma_expiration_values_carried_unchanged(e: XmlElementV)
    requires
        e.children.len() > 0,
        e.children[0].name == "expiration"@,
        spec_update(e) is Some,
    ensures
        spec_attr(e.children[0].attrs, "maximum_age"@, "maximumAge"@) is Some,
        spec_attr(e.children[0].attrs, "unit"@, "unit"@) is Some,
        spec_update(e) == Some(
            UpdateV::Expiration(
                (ExpirationV {
                    maximum_age: spec_attr(
                        e.children[0].attrs,
                        "maximum_age"@,
                        "maximumAge"@,
                    ).unwrap(),
                    unit: spec_attr(e.children[0].attrs, "unit"@, "unit"@).unwrap(),
                }),
            ),
        ),
{
    reveal_strlit("expiration");
    reveal_strlit("None");
    reveal_strlit("BeforeApplicationStartup");
    reveal_strlit("beforeApplicationStartup");
    reveal_strlit("Expiration");
    assert("expiration"@.len() == 10);
    assert("None"@.len() == 4);
    assert("BeforeApplicationStartup"@.len() == 24);
    assert("beforeApplicationStartup"@.len() == 24);
    assert("Expiration"@.len() == 10);
    assert(e.children[0].name != "None"@);
    assert(e.children[0].name != "BeforeApplicationStartup"@);
    assert(e.children[0].name != "beforeApplicationStartup"@);
    assert("expiration"@[0] != "Expiration"@[0]);
    assert(e.children[0].name != "Expiration"@);
}

/// The text `x86` decodes to the `X86` architecture variant.
pub proof fn lemma_arch_x86_recognized()
    ensures
        spec_arch("x86"@) == Some(ProcessorArchitecture::X86),
{
    reveal_strlit("x86");
    reveal_strlit("Msil");
    reveal_strlit("msil");
    reveal_strlit("X86");
    assert("x86"@.len() == 3);
    assert("Msil"@.len() == 4);
    assert("msil"@.len() == 4);
    assert("X86"@.len() == 3);
    assert("x86"@ != "Msil"@);
    assert("x86"@ != "msil"@);
    assert("x86"@[0] != "X86"@[0]);
    assert("x86"@ != "X86"@);
}

/// A text that matches none of the declared architecture spellings is a
/// decode failure, never coerced to a default.
pub proof fn lemma_arch_unrecognized_fails(s: Seq<char>)
    requires
        s != "Msil"@,
        s != "msil"@,
        s != "X86"@,
        s != "x86"@,
        s != "IA64"@,
        s != "Itanium"@,
    ensures
        spec_arch(s) is None,
{
}

/// Decoding is deterministic: one input text decodes to at most one model.
pub proof fn lemma_decode_deterministic(
    s: Seq<char>,
    m1: DeploymentManifestV,
    m2: DeploymentManifestV,
)
    requires
        spec_decode(s) == Some(m1),
        spec_decode(s) == Some(m2),
    ensures
        m1 == m2,
{
}

/// A leading byte-order mark never changes the outcome: a text with the
/// mark prepended decodes exactly as the text itself.
pub proof fn lemma_bom_is_ignored(s: Seq<char>)
    requires
        !(s.len() > 0 && s[0] == '\u{feff}'),
    ensures
        spec_decode(seq!['\u{feff}'] + s) == spec_decode(s),
{
    let t = seq!['\u{feff}'] + s;
    assert(t.len() == s.len() + 1);
    assert(t[0] == '\u{feff}');
    assert(spec_strip_bom(t) =~= s);
    assert(spec_strip_bom(s) == s);
}

/// An assembly identity missing its required `name` attribute fails to
/// decode: no partially-populated value is produced.
pub proof fn lemma_missing_name_fails(e: XmlElementV)
    requires
        spec_attr(e.attrs, "name"@, "name"@) is None,
    ensures
        spec_assembly_identity(e) is None,
{
}

/// Decoding succeeds only for documents of the schema's shape, and never
/// partially: a decoded manifest implies the required attribute and the
/// required children were all present, and carries exactly one dependency
/// record per `dependency` child — at least one.
pub proof fn lemma_manifest_requires_shape(root: XmlElementV)
    requires
        spec_manifest(root) is Some,
    ensures
        spec_attr(root.attrs, "manifest_version"@, "manifestVersion"@) is Some,
        spec_child(root.children, "assembly_identity"@, "assemblyIdentity"@) is Some,
        spec_child(root.children, "description"@, "description"@) is Some,
        spec_child(root.children, "compatible_frameworks"@, "compatibleFrameworks"@) is Some,
        spec_children(root.children, "dependency"@, "dependency"@).len() > 0,
        spec_manifest(root).unwrap().assembly.dependency.len() == spec_children(
            root.children,
            "dependency"@,
            "dependency"@,
        ).len(),
{
}

/// A document whose assembly identity misses its required `name` attribute
/// fails to decode as a whole.
pub proof fn lemma_missing_name_fails_manifest(root: XmlElementV)
    requires
        spec_child(root.children, "assembly_identity"@, "assemblyIdentity"@) matches Some(c)
            && spec_attr(c.attrs, "name"@, "name"@) is None,
    ensures
        spec_manifest(root) is None,
{
}

} // verus!

