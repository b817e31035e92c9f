//! Models for ClickOnce deployment manifests.
//!
//! Each record mirrors one element of the deployment-manifest schema: its
//! required and optional fields, the accepted source spellings of every
//! field (an attribute or child may be written under its field name or its
//! documented alternate name), the default values of omitted fields, and
//! the enumerated value sets.  Decoding walks the XML element tree and is
//! all-or-nothing: a missing required field, an unmatched enumerated value
//! or an unmatched update variant fails the whole decode.

use vstd::prelude::*;
use vstd::string::StrSliceExecFns;

use crate::Error;
use crate::xml::XmlElement;
use crate::xml::XmlElementV;
use crate::xml::find_attr;
use crate::xml::find_child;
use crate::xml::find_children;
use crate::xml::lemma_view_elems;
use crate::xml::spec_attr;
use crate::xml::spec_child;
use crate::xml::spec_children;
use crate::xml::spec_parse_document;
use crate::xml::spec_strip_bom;
use crate::xml::strip_bom;
use crate::xml::str_eq;
use crate::xml::view_elem_refs;

verus! {

/// Default value for the assembly identity's `type_` field, used when the
/// source document omits the attribute.
pub fn default_win32() -> (r: String)
    ensures
        r@ == "win32"@,
{
    "win32".to_owned()
}

/// Default value for the deployment's optional boolean fields, used when
/// the source document omits the attribute.
pub fn default_false() -> (r: bool)
    ensures
        r == false,
{
    false
}

/// The boolean a source text denotes: only `true` and `false` are valid.
pub open spec fn spec_bool(s: Seq<char>) -> Option<bool> {
    if s == "true"@ {
        Some(true)
    } else if s == "false"@ {
        Some(false)
    } else {
        None
    }
}

/// Parse a boolean field value.
pub fn parse_bool(s: &str) -> (r: Option<bool>)
    ensures
        r == spec_bool(s@),
{
    if str_eq(s, "true") {
        Some(true)
    } else if str_eq(s, "false") {
        Some(false)
    } else {
        None
    }
}

/// Whether a character is a decimal digit.
pub open spec fn is_digit(c: char) -> bool {
    '0' as u32 <= c as u32 && c as u32 <= '9' as u32
}

/// The value of a digit string.
pub open spec fn spec_digits_val(s: Seq<char>) -> int
    decreases s.len(),
{
    if s.len() == 0 {
        0
    } else {
        spec_digits_val(s.drop_last()) * 10 + (s.last() as u32 - '0' as u32)
    }
}

/// The number a source text denotes: a non-empty string of decimal digits
/// whose value fits the field's width.
pub open spec fn spec_parse_u32(s: Seq<char>) -> Option<u32> {
    if s.len() > 0 && (forall|i: int| 0 <= i < s.len() ==> is_digit(#[trigger] s[i]))
        && spec_digits_val(s) <= u32::MAX {
        Some(spec_digits_val(s) as u32)
    } else {
        None
    }
}

/// The value of a digit string is not negative.
pub proof fn lemma_digits_val_nonneg(s: Seq<char>)
    requires
        forall|i: int| 0 <= i < s.len() ==> is_digit(#[trigger] s[i]),
    ensures
        spec_digits_val(s) >= 0,
    decreases s.len(),
{
    if s.len() > 0 {
        lemma_digits_val_nonneg(s.drop_last());
    }
}

/// A digit string is worth at least any of its prefixes.
pub proof fn lemma_digits_prefix_le(s: Seq<char>, j: int)
    requires
        forall|i: int| 0 <= i < s.len() ==> is_digit(#[trigger] s[i]),
        0 <= j <= s.len(),
    ensures
        spec_digits_val(s.take(j)) <= spec_digits_val(s),
    decreases s.len() - j,
{
    if j < s.len() {
        lemma_digits_prefix_le(s, j + 1);
        assert(s.take(j + 1).drop_last() =~= s.take(j));
        assert(s.take(j + 1).last() == s[j]);
        lemma_digits_val_nonneg(s.take(j));
    } else {
        assert(s.take(j) =~= s);
    }
}

/// Parse a non-negative integer field value.
pub fn parse_u32(s: &str) -> (r: Option<u32>)
    ensures
        r == spec_parse_u32(s@),
{
    let n = s.unicode_len();
    if n == 0 {
        return None;
    }
    let mut acc: u32 = 0;
    let mut i: usize = 0;
    while i < n
        invariant
            n == s@.len(),
            i <= n,
            forall|j: int| 0 <= j < i ==> is_digit(#[trigger] s@[j]),
            acc == spec_digits_val(s@.take(i as int)),
        decreases n - i,
    {
        let c = s.get_char(i);
        let cu = c as u32;
        if cu < '0' as u32 || cu > '9' as u32 {
            return None;
        }
        let d = cu - '0' as u32;
        proof {
            assert(s@.take(i as int + 1).drop_last() =~= s@.take(i as int));
            assert(s@.take(i as int + 1).last() == s@[i as int]);
        }
        if acc > u32::MAX / 10 || (acc == u32::MAX / 10 && d > u32::MAX % 10) {
            proof {
                if forall|j: int| 0 <= j < s@.len() ==> is_digit(#[trigger] s@[j]) {
                    lemma_digits_prefix_le(s@, i as int + 1);
                }
            }
            return None;
        }
        acc = acc * 10 + d;
        i += 1;
    }
    proof {
        assert(s@.take(n as int) =~= s@);
    }
    Some(acc)
}

/// Model of an optional text field.
pub open spec fn view_opt_string(o: Option<String>) -> Option<Seq<char>> {
    match o {
        Some(s) => Some(s@),
        None => None,
    }
}

/// Types of permitted processor architecture.
#[derive(Debug, Clone, Copy, PartialEq, Eq, Structural)]
pub enum ProcessorArchitecture {
    /// All processors.
    Msil,
    /// 32-bit Windows.
    X86,
    /// 64-bit Windows.
    IA64,
    /// Intel 64-bit Itanium processors.
    Itanium,
}

/// The architecture a source text denotes.  Accepted spellings are the
/// variant names and their documented alternates `msil` and `x86`; any
/// other text is a decode failure.
pub open spec fn spec_arch(s: Seq<char>) -> Option<ProcessorArchitecture> {
    if s == "Msil"@ || s == "msil"@ {
        Some(ProcessorArchitecture::Msil)
    } else if s == "X86"@ || s == "x86"@ {
        Some(ProcessorArchitecture::X86)
    } else if s == "IA64"@ {
        Some(ProcessorArchitecture::IA64)
    } else if s == "Itanium"@ {
        Some(ProcessorArchitecture::Itanium)
    } else {
        None
    }
}

/// Parse a processor-architecture field value.
pub fn parse_arch(s: &str) -> (r: Option<ProcessorArchitecture>)
    ensures
        r == spec_arch(s@),
{
    if str_eq(s, "Msil") || str_eq(s, "msil") {
        Some(ProcessorArchitecture::Msil)
    } else if str_eq(s, "X86") || str_eq(s, "x86") {
        Some(ProcessorArchitecture::X86)
    } else if str_eq(s, "IA64") {
        Some(ProcessorArchitecture::IA64)
    } else if str_eq(s, "Itanium") {
        Some(ProcessorArchitecture::Itanium)
    } else {
        None
    }
}

/// Types for the relationship between a dependency and the application.
#[derive(Debug, Clone, Copy, PartialEq, Eq, Structural)]
pub enum DependencyType {
    /// Component represents a separate installation from the current
    /// application.
    Install,
    /// Component is required by the current application.
    Prerequisite,
}

/// The dependency type a source text denotes.  Accepted spellings are the
/// variant names and their documented alternates `install` and
/// `preRequisite`; any other text is a decode failure.
pub open spec fn spec_dependency_type(s: Seq<char>) -> Option<DependencyType> {
    if s == "Install"@ || s == "install"@ {
        Some(DependencyType::Install)
    } else if s == "Prerequisite"@ || s == "preRequisite"@ {
        Some(DependencyType::Prerequisite)
    } else {
        None
    }
}

/// Parse a dependency-type field value.
pub fn parse_dependency_type(s: &str) -> (r: Option<DependencyType>)
    ensures
        r == spec_dependency_type(s@),
{
    if str_eq(s, "Install") || str_eq(s, "install") {
        Some(DependencyType::Install)
    } else if str_eq(s, "Prerequisite") || str_eq(s, "preRequisite") {
        Some(DependencyType::Prerequisite)
    } else {
        None
    }
}

/// Model for the `assemblyIdentity` element: the tuple identifying a
/// component.
#[derive(Debug, PartialEq)]
pub struct AssemblyIdentity {
    /// Attribute. Required. Human-readable name of the deployment.
    pub name: String,
    /// Attribute. Required. Version number, in `major.minor.build.revision`
    /// format (not validated).
    pub version: String,
    /// Attribute. Required. 16-character hexadecimal string from the hash
    /// of the signing key (not validated).
    pub public_key_token: String,
    /// Attribute. Required. The processor the deployment targets.
    pub processor_architecture: ProcessorArchitecture,
    /// Attribute. Optional. For compatibility with side-by-side
    /// installation technology; defaults to `win32` when absent.
    pub type_: String,
}

/// Mathematical model of an assembly identity.
pub ghost struct AssemblyIdentityV {
    /// Human-readable name of the deployment.
    pub name: Seq<char>,
    /// Version number.
    pub version: Seq<char>,
    /// Public key token.
    pub public_key_token: Seq<char>,
    /// Target processor.
    pub processor_architecture: ProcessorArchitecture,
    /// Side-by-side installation type.
    pub type_: Seq<char>,
}

impl View for AssemblyIdentity {
    type V = AssemblyIdentityV;

    open spec fn view(&self) -> AssemblyIdentityV {
        AssemblyIdentityV {
            name: self.name@,
            version: self.version@,
            public_key_token: self.public_key_token@,
            processor_architecture: self.processor_architecture,
            type_: self.type_@,
        }
    }
}

/// The assembly identity an element denotes: `name`, `version`,
/// `public_key_token` (alternate `publicKeyToken`) and
/// `processor_architecture` (alternate `processorArchitecture`) are
/// required attributes; `type` defaults to `win32` when absent.
pub open spec fn spec_assembly_identity(e: XmlElementV) -> Option<AssemblyIdentityV> {
    let name = spec_attr(e.attrs, "name"@, "name"@);
    let version = spec_attr(e.attrs, "version"@, "version"@);
    let token = spec_attr(e.attrs, "public_key_token"@, "publicKeyToken"@);
    let arch = spec_attr(e.attrs, "processor_architecture"@, "processorArchitecture"@);
    let ty = spec_attr(e.attrs, "type"@, "type"@);
    if name is Some && version is Some && token is Some && arch is Some && spec_arch(
        arch.unwrap(),
    ) is Some {
        Some(
            AssemblyIdentityV {
                name: name.unwrap(),
                version: version.unwrap(),
                public_key_token: token.unwrap(),
                processor_architecture: spec_arch(arch.unwrap()).unwrap(),
                type_: match ty {
                    Some(t) => t,
                    None => "win32"@,
                },
            },
        )
    } else {
        None
    }
}

impl AssemblyIdentity {
    /// Decode an assembly identity from its element.
    pub fn decode(e: &XmlElement) -> (r: Result<AssemblyIdentity, Error>)
        ensures
            r is Ok <==> spec_assembly_identity(e@) is Some,
            r matches Ok(v) ==> Some(v@) == spec_assembly_identity(e@),
    {
        let name = match find_attr(e, "name", "name") {
            Some(v) => v,
            None => return Err(Error::new("assemblyIdentity: missing attribute name")),
        };
        let version = match find_attr(e, "version", "version") {
            Some(v) => v,
            None => return Err(Error::new("assemblyIdentity: missing attribute version")),
        };
        let public_key_token = match find_attr(e, "public_key_token", "publicKeyToken") {
            Some(v) => v,
            None => return Err(Error::new("assemblyIdentity: missing attribute publicKeyToken")),
        };
        let arch_text = match find_attr(e, "processor_architecture", "processorArchitecture") {
            Some(v) => v,
            None => return Err(
                Error::new("assemblyIdentity: missing attribute processorArchitecture"),
            ),
        };
        let processor_architecture = match parse_arch(arch_text.as_str()) {
            Some(v) => v,
            None => return Err(
                Error::new("assemblyIdentity: unrecognized processorArchitecture value"),
            ),
        };
        let type_ = match find_attr(e, "type", "type") {
            Some(v) => v,
            None => default_win32(),
        };
        Ok(AssemblyIdentity { name, version, public_key_token, processor_architecture, type_ })
    }
}

/// Model for the `description` element.
#[derive(Debug, PartialEq)]
pub struct Description {
    /// Attribute. Required. Company name used for icon placement.
    pub publisher: String,
    /// Attribute. Required. Full product name.
    pub product: String,
    /// Attribute. Optional. Subfolder within the publisher's Start-menu
    /// folder.
    pub suite_name: Option<String>,
    /// Attribute. Optional. Support URL shown next to the installed
    /// application.
    pub support_url: Option<String>,
}

/// Mathematical model of a description.
pub ghost struct DescriptionV {
    /// Company name.
    pub publisher: Seq<char>,
    /// Full product name.
    pub product: Seq<char>,
    /// Optional Start-menu subfolder.
    pub suite_name: Option<Seq<char>>,
    /// Optional support URL.
    pub support_url: Option<Seq<char>>,
}

impl View for Description {
    type V = DescriptionV;

    open spec fn view(&self) -> DescriptionV {
        DescriptionV {
            publisher: self.publisher@,
            product: self.product@,
            suite_name: view_opt_string(self.suite_name),
            support_url: view_opt_string(self.support_url),
        }
    }
}

/// The description an element denotes: `publisher` and `product` are
/// required attributes; `suite_name` (alternate `suiteName`) and
/// `support_url` (alternate `supportUrl`) are optional.
pub open spec fn spec_description(e: XmlElementV) -> Option<DescriptionV> {
    let publisher = spec_attr(e.attrs, "publisher"@, "publisher"@);
    let product = spec_attr(e.attrs, "product"@, "product"@);
    if publisher is Some && product is Some {
        Some(
            DescriptionV {
                publisher: publisher.unwrap(),
                product: product.unwrap(),
                suite_name: spec_attr(e.attrs, "suite_name"@, "suiteName"@),
                support_url: spec_attr(e.attrs, "support_url"@, "supportUrl"@),
            },
        )
    } else {
        None
    }
}

impl Description {
    /// Decode a description from its element.
    pub fn decode(e: &XmlElement) -> (r: Result<Description, Error>)
        ensures
            r is Ok <==> spec_description(e@) is Some,
            r matches Ok(v) ==> Some(v@) == spec_description(e@),
    {
        let publisher = match find_attr(e, "publisher", "publisher") {
            Some(v) => v,
            None => return Err(Error::new("description: missing attribute publisher")),
        };
        let product = match find_attr(e, "product", "product") {
            Some(v) => v,
            None => return Err(Error::new("description: missing attribute product")),
        };
        let suite_name = find_attr(e, "suite_name", "suiteName");
        let support_url = find_attr(e, "support_url", "supportUrl");
        Ok(Description { publisher, product, suite_name, support_url })
    }
}

/// Model for the `expiration` update variant: how old the current update
/// may become before an update check.
#[derive(Debug, PartialEq)]
pub struct Expiration {
    /// Attribute. Required. Maximum age before an update check, in the
    /// units of `unit`.
    pub maximum_age: String,
    /// Attribute. Required. Unit of time for `maximum_age`.
    pub unit: String,
}

/// Mathematical model of an expiration.
pub ghost struct ExpirationV {
    /// Maximum age before an update check.
    pub maximum_age: Seq<char>,
    /// Unit of time.
    pub unit: Seq<char>,
}

impl View for Expiration {
    type V = ExpirationV;

    open spec fn view(&self) -> ExpirationV {
        ExpirationV { maximum_age: self.maximum_age@, unit: self.unit@ }
    }
}

/// The expiration an element denotes: `maximum_age` (alternate
/// `maximumAge`) and `unit` are required attributes, carried through
/// unchanged.
pub open spec fn spec_expiration(e: XmlElementV) -> Option<ExpirationV> {
    let age = spec_attr(e.attrs, "maximum_age"@, "maximumAge"@);
    let unit = spec_attr(e.attrs, "unit"@, "unit"@);
    if age is Some && unit is Some {
        Some(ExpirationV { maximum_age: age.unwrap(), unit: unit.unwrap() })
    } else {
        None
    }
}

impl Expiration {
    /// Decode an expiration from its element.
    pub fn decode(e: &XmlElement) -> (r: Result<Expiration, Error>)
        ensures
            r is Ok <==> spec_expiration(e@) is Some,
            r matches Ok(v) ==> Some(v@) == spec_expiration(e@),
    {
        let maximum_age = match find_attr(e, "maximum_age", "maximumAge") {
            Some(v) => v,
            None => return Err(Error::new("expiration: missing attribute maximumAge")),
        };
        let unit = match find_attr(e, "unit", "unit") {
            Some(v) => v,
            None => return Err(Error::new("expiration: missing attribute unit")),
        };
        Ok(Expiration { maximum_age, unit })
    }
}

/// The update choice: a child of the `subscription` element holding either
/// a before-startup marker, an expiration, or no child at all.
#[derive(Debug, PartialEq)]
pub enum Update {
    /// No child element is present.
    NoChildPresent,
    /// The application is blocked while the update check runs before
    /// startup.
    BeforeApplicationStartup,
    /// Update checks run on the given schedule.
    Expiration(Expiration),
}

/// Mathematical model of the update choice.
pub ghost enum UpdateV {
    /// No child element is present.
    NoChildPresent,
    /// Before-startup marker.
    BeforeApplicationStartup,
    /// Expiration schedule.
    Expiration(ExpirationV),
}

impl View for Update {
    type V = UpdateV;

    open spec fn view(&self) -> UpdateV {
        match self {
            Update::NoChildPresent => UpdateV::NoChildPresent,
            Update::BeforeApplicationStartup => UpdateV::BeforeApplicationStartup,
            Update::Expiration(x) => UpdateV::Expiration(x@),
        }
    }
}

/// The update choice an element denotes.  An `update` element with no
/// child yields the no-child-present variant.  Otherwise the first child
/// decides (first match wins): `None` yields the no-child-present variant;
/// `BeforeApplicationStartup` (alternate `beforeApplicationStartup`) the
/// before-startup marker; `Expiration` (alternate `expiration`) the
/// expiration variant; any other child name is a decode failure.
pub open spec fn spec_update(e: XmlElementV) -> Option<UpdateV> {
    if e.children.len() == 0 {
        Some(UpdateV::NoChildPresent)
    } else {
        let c = e.children[0];
        if c.name == "None"@ {
            Some(UpdateV::NoChildPresent)
        } else if c.name == "BeforeApplicationStartup"@ || c.name == "beforeApplicationStartup"@ {
            Some(UpdateV::BeforeApplicationStartup)
        } else if c.name == "Expiration"@ || c.name == "expiration"@ {
            match spec_expiration(c) {
                Some(x) => Some(UpdateV::Expiration(x)),
                None => None,
            }
        } else {
            None
        }
    }
}

impl Update {
    /// Decode the update choice from its element.
    pub fn decode(e: &XmlElement) -> (r: Result<Update, Error>)
        ensures
            r is Ok <==> spec_update(e@) is Some,
            r matches Ok(v) ==> Some(v@) == spec_update(e@),
    {
        proof {
            lemma_view_elems(e.children@);
        }
        if e.children.len() == 0 {
            return Ok(Update::NoChildPresent);
        }
        let c = &e.children[0];
        if str_eq(c.name.as_str(), "None") {
            Ok(Update::NoChildPresent)
        } else if str_eq(c.name.as_str(), "BeforeApplicationStartup") || str_eq(
            c.name.as_str(),
            "beforeApplicationStartup",
        ) {
            Ok(Update::BeforeApplicationStartup)
        } else if str_eq(c.name.as_str(), "Expiration") || str_eq(c.name.as_str(), "expiration") {
            match Expiration::decode(c) {
                Ok(x) => Ok(Update::Expiration(x)),
                Err(err) => Err(err),
            }
        } else {
            Err(Error::new("update: unrecognized child element"))
        }
    }
}

/// Model for the `subscription` element, which carries the update choice.
#[derive(Debug, PartialEq)]
pub struct Subscription {
    /// Child. Required. The update choice.
    pub update: Update,
}

/// Mathematical model of a subscription.
pub ghost struct SubscriptionV {
    /// The update choice.
    pub update: UpdateV,
}

impl View for Subscription {
    type V = SubscriptionV;

    open spec fn view(&self) -> SubscriptionV {
        SubscriptionV { update: self.update@ }
    }
}

/// The subscription an element denotes: a required `update` child.
pub open spec fn spec_subscription(e: XmlElementV) -> Option<SubscriptionV> {
    match spec_child(e.children, "update"@, "update"@) {
        Some(u) => match spec_update(u) {
            Some(update) => Some(SubscriptionV { update }),
            None => None,
        },
        None => None,
    }
}

impl Subscription {
    /// Decode a subscription from its element.
    pub fn decode(e: &XmlElement) -> (r: Result<Subscription, Error>)
        ensures
            r is Ok <==> spec_subscription(e@) is Some,
            r matches Ok(v) ==> Some(v@) == spec_subscription(e@),
    {
        match find_child(e, "update", "update") {
            Some(u) => match Update::decode(u) {
                Ok(update) => Ok(Subscription { update }),
                Err(err) => Err(err),
            },
            None => Err(Error::new("subscription: missing element update")),
        }
    }
}

/// Model for the `deploymentProvider` element.
#[derive(Debug, PartialEq)]
pub struct DeploymentProvider {
    /// Attribute. Required. Location, as a URI, of the deployment manifest
    /// used to update the application.
    pub codebase: String,
}

/// Mathematical model of a deployment provider.
pub ghost struct DeploymentProviderV {
    /// Update location.
    pub codebase: Seq<char>,
}

impl View for DeploymentProvider {
    type V = DeploymentProviderV;

    open spec fn view(&self) -> DeploymentProviderV {
        DeploymentProviderV { codebase: self.codebase@ }
    }
}

/// The deployment provider an element denotes: a required `codebase`
/// attribute.
pub open spec fn spec_deployment_provider(e: XmlElementV) -> Option<DeploymentProviderV> {
    match spec_attr(e.attrs, "codebase"@, "codebase"@) {
        Some(codebase) => Some(DeploymentProviderV { codebase }),
        None => None,
    }
}

impl DeploymentProvider {
    /// Decode a deployment provider from its element.
    pub fn decode(e: &XmlElement) -> (r: Result<DeploymentProvider, Error>)
        ensures
            r is Ok <==> spec_deployment_provider(e@) is Some,
            r matches Ok(v) ==> Some(v@) == spec_deployment_provider(e@),
    {
        match find_attr(e, "codebase", "codebase") {
            Some(codebase) => Ok(DeploymentProvider { codebase }),
            None => Err(Error::new("deploymentProvider: missing attribute codebase")),
        }
    }
}

/// Model for the `deployment` element.
#[derive(Debug, PartialEq)]
pub struct Deployment {
    /// Attribute. Required. Whether the application installs a presence on
    /// the Start menu and in the installed-programs list.
    pub install: bool,
    /// Attribute. Optional. Minimum version of the application that may run
    /// on the client.
    pub minimum_required_version: Option<String>,
    /// Attribute. Optional. Defaults to false. Whether deployment files
    /// carry a `.deploy` extension.
    pub map_file_extensions: bool,
    /// Attribute. Optional. Defaults to false. Whether starting the
    /// installed application from its URL is prevented.
    pub disallow_url_activation: bool,
    /// Attribute. Optional. Defaults to false. Whether query-string
    /// parameters are passed into the application.
    pub trust_url_parameters: bool,
    /// Child. Required. The update subscription.
    pub subscription: Subscription,
    /// Child. Optional. The update location.
    pub deployment_provider: Option<DeploymentProvider>,
}

/// Mathematical model of a deployment.
pub ghost struct DeploymentV {
    /// Whether the application installs a shell presence.
    pub install: bool,
    /// Optional minimum runnable version.
    pub minimum_required_version: Option<Seq<char>>,
    /// Whether deployment files carry a `.deploy` extension.
    pub map_file_extensions: bool,
    /// Whether URL activation is prevented.
    pub disallow_url_activation: bool,
    /// Whether query-string parameters are passed through.
    pub trust_url_parameters: bool,
    /// The update subscription.
    pub subscription: SubscriptionV,
    /// Optional update location.
    pub deployment_provider: Option<DeploymentProviderV>,
}

impl View for Deployment {
    type V = DeploymentV;

    open spec fn view(&self) -> DeploymentV {
        DeploymentV {
            install: self.install,
            minimum_required_version: view_opt_string(self.minimum_required_version),
            map_file_extensions: self.map_file_extensions,
            disallow_url_activation: self.disallow_url_activation,
            trust_url_parameters: self.trust_url_parameters,
            subscription: self.subscription@,
            deployment_provider: match self.deployment_provider {
                Some(p) => Some(p@),
                None => None,
            },
        }
    }
}

/// The deployment an element denotes: `install` is a required boolean;
/// `minimum_required_version` (alternate `minimumRequiredVersion`) is an
/// optional text; `map_file_extensions` (`mapFileExtensions`),
/// `disallow_url_activation` (`disallowUrlActivation`) and
/// `trust_url_parameters` (`trustURLParameters`) are optional booleans
/// defaulting to false; `subscription` is a required child;
/// `deployment_provider` (alternate `deploymentProvider`) an optional one.
pub open spec fn spec_deployment(e: XmlElementV) -> Option<DeploymentV> {
    let inst = spec_attr(e.attrs, "install"@, "install"@);
    let mrv = spec_attr(e.attrs, "minimum_required_version"@, "minimumRequiredVersion"@);
    let mfe = spec_attr(e.attrs, "map_file_extensions"@, "mapFileExtensions"@);
    let dua = spec_attr(e.attrs, "disallow_url_activation"@, "disallowUrlActivation"@);
    let tup = spec_attr(e.attrs, "trust_url_parameters"@, "trustURLParameters"@);
    let sub = spec_child(e.children, "subscription"@, "subscription"@);
    let dp = spec_child(e.children, "deployment_provider"@, "deploymentProvider"@);
    if inst is Some && spec_bool(inst.unwrap()) is Some && (mfe is None || spec_bool(
        mfe.unwrap(),
    ) is Some) && (dua is None || spec_bool(dua.unwrap()) is Some) && (tup is None || spec_bool(
        tup.unwrap(),
    ) is Some) && sub is Some && spec_subscription(sub.unwrap()) is Some && (dp is None
        || spec_deployment_provider(dp.unwrap()) is Some) {
        Some(
            DeploymentV {
                install: spec_bool(inst.unwrap()).unwrap(),
                minimum_required_version: mrv,
                map_file_extensions: match mfe {
                    Some(t) => spec_bool(t).unwrap(),
                    None => false,
                },
                disallow_url_activation: match dua {
                    Some(t) => spec_bool(t).unwrap(),
                    None => false,
                },
                trust_url_parameters: match tup {
                    Some(t) => spec_bool(t).unwrap(),
                    None => false,
                },
                subscription: spec_subscription(sub.unwrap()).unwrap(),
                deployment_provider: match dp {
                    Some(d) => Some(spec_deployment_provider(d).unwrap()),
                    None => None,
                },
            },
        )
    } else {
        None
    }
}

impl Deployment {
    /// Decode a deployment from its element.
    pub fn decode(e: &XmlElement) -> (r: Result<Deployment, Error>)
        ensures
            r is Ok <==> spec_deployment(e@) is Some,
            r matches Ok(v) ==> Some(v@) == spec_deployment(e@),
    {
        let install = match find_attr(e, "install", "install") {
            Some(t) => match parse_bool(t.as_str()) {
                Some(b) => b,
                None => return Err(Error::new("deployment: install is not a boolean")),
            },
            None => return Err(Error::new("deployment: missing attribute install")),
        };
        let minimum_required_version = find_attr(
            e,
            "minimum_required_version",
            "minimumRequiredVersion",
        );
        let map_file_extensions = match find_attr(e, "map_file_extensions", "mapFileExtensions") {
            Some(t) => match parse_bool(t.as_str()) {
                Some(b) => b,
                None => return Err(Error::new("deployment: mapFileExtensions is not a boolean")),
            },
            None => default_false(),
        };
        let disallow_url_activation = match find_attr(
            e,
            "disallow_url_activation",
            "disallowUrlActivation",
        ) {
            Some(t) => match parse_bool(t.as_str()) {
                Some(b) => b,
                None => return Err(
                    Error::new("deployment: disallowUrlActivation is not a boolean"),
                ),
            },
            None => default_false(),
        };
        let trust_url_parameters = match find_attr(
            e,
            "trust_url_parameters",
            "trustURLParameters",
        ) {
            Some(t) => match parse_bool(t.as_str()) {
                Some(b) => b,
                None => return Err(Error::new("deployment: trustURLParameters is not a boolean")),
            },
            None => default_false(),
        };
        let subscription = match find_child(e, "subscription", "subscription") {
            Some(c) => match Subscription::decode(c) {
                Ok(v) => v,
                Err(err) => return Err(err),
            },
            None => return Err(Error::new("deployment: missing element subscription")),
        };
        let deployment_provider = match find_child(e, "deployment_provider", "deploymentProvider") {
            Some(c) => match DeploymentProvider::decode(c) {
                Ok(v) => Some(v),
                Err(err) => return Err(err),
            },
            None => None,
        };
        Ok(
            Deployment {
                install,
                minimum_required_version,
                map_file_extensions,
                disallow_url_activation,
                trust_url_parameters,
                subscription,
                deployment_provider,
            },
        )
    }
}

/// Model for the `framework` element: one runtime the application can run
/// on.
#[derive(Debug, PartialEq)]
pub struct Framework {
    /// Attribute. Required. Version number of the target framework.
    pub target_version: String,
    /// Attribute. Required. Profile of the target framework.
    pub profile: String,
    /// Attribute. Required. Version number of the associated runtime.
    pub supported_runtime: String,
}

/// Mathematical model of a framework.
pub ghost struct FrameworkV {
    /// Version number of the target framework.
    pub target_version: Seq<char>,
    /// Profile of the target framework.
    pub profile: Seq<char>,
    /// Version number of the associated runtime.
    pub supported_runtime: Seq<char>,
}

impl View for Framework {
    type V = FrameworkV;

    open spec fn view(&self) -> FrameworkV {
        FrameworkV {
            target_version: self.target_version@,
            profile: self.profile@,
            supported_runtime: self.supported_runtime@,
        }
    }
}

/// The framework an element denotes: `target_version` (alternate
/// `targetVersion`), `profile` and `supported_runtime` (alternate
/// `supportedRuntime`) are required attributes.
pub open spec fn spec_framework(e: XmlElementV) -> Option<FrameworkV> {
    let tv = spec_attr(e.attrs, "target_version"@, "targetVersion"@);
    let pr = spec_attr(e.attrs, "profile"@, "profile"@);
    let sr = spec_attr(e.attrs, "supported_runtime"@, "supportedRuntime"@);
    if tv is Some && pr is Some && sr is Some {
        Some(
            FrameworkV {
                target_version: tv.unwrap(),
                profile: pr.unwrap(),
                supported_runtime: sr.unwrap(),
            },
        )
    } else {
        None
    }
}

impl Framework {
    /// Decode a framework from its element.
    pub fn decode(e: &XmlElement) -> (r: Result<Framework, Error>)
        ensures
            r is Ok <==> spec_framework(e@) is Some,
            r matches Ok(v) ==> Some(v@) == spec_framework(e@),
    {
        let target_version = match find_attr(e, "target_version", "targetVersion") {
            Some(v) => v,
            None => return Err(Error::new("framework: missing attribute targetVersion")),
        };
        let profile = match find_attr(e, "profile", "profile") {
            Some(v) => v,
            None => return Err(Error::new("framework: missing attribute profile")),
        };
        let supported_runtime = match find_attr(e, "supported_runtime", "supportedRuntime") {
            Some(v) => v,
            None => return Err(Error::new("framework: missing attribute supportedRuntime")),
        };
        Ok(Framework { target_version, profile, supported_runtime })
    }
}

/// Model of a sequence of frameworks.
pub open spec fn view_frameworks(s: Seq<Framework>) -> Seq<FrameworkV> {
    Seq::new(s.len(), |i: int| s[i]@)
}

/// The frameworks a child list denotes: every listed element must decode.
pub open spec fn spec_frameworks(cs: Seq<XmlElementV>) -> Option<Seq<FrameworkV>> {
    if forall|i: int| 0 <= i < cs.len() ==> #[trigger] spec_framework(cs[i]) is Some {
        Some(Seq::new(cs.len(), |i: int| spec_framework(cs[i]).unwrap()))
    } else {
        None
    }
}

/// Model for the `compatibleFrameworks` element.
#[derive(Debug, PartialEq)]
pub struct CompatibleFrameworks {
    /// Attribute. Optional. URL where the preferred framework version can
    /// be downloaded.
    pub support_url: Option<String>,
    /// Children. The frameworks the application can run on; the first
    /// listed is preferred.
    pub frameworks: Vec<Framework>,
}

/// Mathematical model of compatible frameworks.
pub ghost struct CompatibleFrameworksV {
    /// Optional download URL.
    pub support_url: Option<Seq<char>>,
    /// Frameworks in listed order.
    pub frameworks: Seq<FrameworkV>,
}

impl View for CompatibleFrameworks {
    type V = CompatibleFrameworksV;

    open spec fn view(&self) -> CompatibleFrameworksV {
        CompatibleFrameworksV {
            support_url: view_opt_string(self.support_url),
            frameworks: view_frameworks(self.frameworks@),
        }
    }
}

/// The compatible frameworks an element denotes: an optional `support_url`
/// attribute and the `frameworks` (alternate `framework`) children in
/// document order.
pub open spec fn spec_compatible_frameworks(e: XmlElementV) -> Option<CompatibleFrameworksV> {
    match spec_frameworks(spec_children(e.children, "frameworks"@, "framework"@)) {
        Some(frameworks) => Some(
            CompatibleFrameworksV {
                support_url: spec_attr(e.attrs, "support_url"@, "support_url"@),
                frameworks,
            },
        ),
        None => None,
    }
}

impl CompatibleFrameworks {
    /// Decode the compatible frameworks from their element.
    pub fn decode(e: &XmlElement) -> (r: Result<CompatibleFrameworks, Error>)
        ensures
            r is Ok <==> spec_compatible_frameworks(e@) is Some,
            r matches Ok(v) ==> Some(v@) == spec_compatible_frameworks(e@),
    {
        let support_url = find_attr(e, "support_url", "support_url");
        let felems = find_children(e, "frameworks", "framework");
        let ghost m = spec_children(e@.children, "frameworks"@, "framework"@);
        let mut frameworks: Vec<Framework> = Vec::new();
        let mut i: usize = 0;
        while i < felems.len()
            invariant
                i <= felems@.len(),
                view_elem_refs(felems@) == m,
                m == spec_children(e@.children, "frameworks"@, "framework"@),
                frameworks@.len() == i,
                forall|j: int| 0 <= j < i ==> #[trigger] spec_framework(m[j]) is Some,
                forall|j: int|
                    0 <= j < i ==> #[trigger] frameworks@[j]@ == spec_framework(m[j]).unwrap(),
            decreases felems@.len() - i,
        {
            let c = felems[i];
            assert(c@ == m[i as int]);
            match Framework::decode(c) {
                Ok(v) => {
                    frameworks.push(v);
                },
                Err(err) => {
                    proof {
                        assert(spec_framework(m[i as int]) is None);
                        assert(!(forall|j: int|
                            0 <= j < m.len() ==> #[trigger] spec_framework(m[j]) is Some));
                        assert(spec_frameworks(m) is None);
                    }
                    return Err(err);
                },
            }
            i += 1;
        }
        proof {
            assert(m.len() == felems@.len());
            assert(view_frameworks(frameworks@) =~= Seq::new(
                m.len(),
                |j: int| spec_framework(m[j]).unwrap(),
            ));
        }
        Ok(CompatibleFrameworks { support_url, frameworks })
    }
}

/// Model for the `dsig:Transform` element.
#[derive(Debug, PartialEq)]
pub struct DsigTransform {
    /// Attribute. Required. The transform algorithm.
    pub algorithm: String,
}

/// Mathematical model of a transform.
pub ghost struct DsigTransformV {
    /// The transform algorithm.
    pub algorithm: Seq<char>,
}

impl View for DsigTransform {
    type V = DsigTransformV;

    open spec fn view(&self) -> DsigTransformV {
        DsigTransformV { algorithm: self.algorithm@ }
    }
}

/// The transform an element denotes: a required `algorithm` (alternate
/// `Algorithm`) attribute.
pub open spec fn spec_transform(e: XmlElementV) -> Option<DsigTransformV> {
    match spec_attr(e.attrs, "algorithm"@, "Algorithm"@) {
        Some(algorithm) => Some(DsigTransformV { algorithm }),
        None => None,
    }
}

impl DsigTransform {
    /// Decode a transform from its element.
    pub fn decode(e: &XmlElement) -> (r: Result<DsigTransform, Error>)
        ensures
            r is Ok <==> spec_transform(e@) is Some,
            r matches Ok(v) ==> Some(v@) == spec_transform(e@),
    {
        match find_attr(e, "algorithm", "Algorithm") {
            Some(algorithm) => Ok(DsigTransform { algorithm }),
            None => Err(Error::new("Transform: missing attribute Algorithm")),
        }
    }
}

/// Model for the `dsig:Transforms` element.
#[derive(Debug, PartialEq)]
pub struct DsigTransforms {
    /// Child. Required. The single transform.
    pub dsig_transform: DsigTransform,
}

/// Mathematical model of a transform list.
pub ghost struct DsigTransformsV {
    /// The single transform.
    pub dsig_transform: DsigTransformV,
}

impl View for DsigTransforms {
    type V = DsigTransformsV;

    open spec fn view(&self) -> DsigTransformsV {
        DsigTransformsV { dsig_transform: self.dsig_transform@ }
    }
}

/// The transform list an element denotes: a required `dsig_transform`
/// (alternate `Transform`) child.
pub open spec fn spec_transforms(e: XmlElementV) -> Option<DsigTransformsV> {
    match spec_child(e.children, "dsig_transform"@, "Transform"@) {
        Some(c) => match spec_transform(c) {
            Some(dsig_transform) => Some(DsigTransformsV { dsig_transform }),
            None => None,
        },
        None => None,
    }
}

impl DsigTransforms {
    /// Decode a transform list from its element.
    pub fn decode(e: &XmlElement) -> (r: Result<DsigTransforms, Error>)
        ensures
            r is Ok <==> spec_transforms(e@) is Some,
            r matches Ok(v) ==> Some(v@) == spec_transforms(e@),
    {
        match find_child(e, "dsig_transform", "Transform") {
            Some(c) => match DsigTransform::decode(c) {
                Ok(dsig_transform) => Ok(DsigTransforms { dsig_transform }),
                Err(err) => Err(err),
            },
            None => Err(Error::new("Transforms: missing element Transform")),
        }
    }
}

/// Model for the `dsig:DigestMethod` element.
#[derive(Debug, PartialEq)]
pub struct DsigDigestMethod {
    /// Attribute. Required. The digest algorithm.
    pub algorithm: String,
}

/// Mathematical model of a digest method.
pub ghost struct DsigDigestMethodV {
    /// The digest algorithm.
    pub algorithm: Seq<char>,
}

impl View for DsigDigestMethod {
    type V = DsigDigestMethodV;

    open spec fn view(&self) -> DsigDigestMethodV {
        DsigDigestMethodV { algorithm: self.algorithm@ }
    }
}

/// The digest method an element denotes: a required `algorithm` (alternate
/// `Algorithm`) attribute.
pub open spec fn spec_digest_method(e: XmlElementV) -> Option<DsigDigestMethodV> {
    match spec_attr(e.attrs, "algorithm"@, "Algorithm"@) {
        Some(algorithm) => Some(DsigDigestMethodV { algorithm }),
        None => None,
    }
}

impl DsigDigestMethod {
    /// Decode a digest method from its element.
    pub fn decode(e: &XmlElement) -> (r: Result<DsigDigestMethod, Error>)
        ensures
            r is Ok <==> spec_digest_method(e@) is Some,
            r matches Ok(v) ==> Some(v@) == spec_digest_method(e@),
    {
        match find_attr(e, "algorithm", "Algorithm") {
            Some(algorithm) => Ok(DsigDigestMethod { algorithm }),
            None => Err(Error::new("DigestMethod: missing attribute Algorithm")),
        }
    }
}

/// Model for the `dsig:DigestValue` element.
#[derive(Debug, PartialEq)]
pub struct DsigDigestValue {
    /// Text. Required. The digest value: the element's character data.
    pub value: String,
}

/// Mathematical model of a digest value.
pub ghost struct DsigDigestValueV {
    /// The digest value.
    pub value: Seq<char>,
}

impl View for DsigDigestValue {
    type V = DsigDigestValueV;

    open spec fn view(&self) -> DsigDigestValueV {
        DsigDigestValueV { value: self.value@ }
    }
}

/// The digest value an element denotes: its character data.
pub open spec fn spec_digest_value(e: XmlElementV) -> Option<DsigDigestValueV> {
    Some(DsigDigestValueV { value: e.text })
}

impl DsigDigestValue {
    /// Decode a digest value from its element.
    pub fn decode(e: &XmlElement) -> (r: Result<DsigDigestValue, Error>)
        ensures
            r is Ok <==> spec_digest_value(e@) is Some,
            r matches Ok(v) ==> Some(v@) == spec_digest_value(e@),
    {
        Ok(DsigDigestValue { value: e.text.clone() })
    }
}

/// Model for the `hash` element: the file-integrity check of a dependency.
#[derive(Debug, PartialEq)]
pub struct Hash {
    /// Child. Required. Parent of the transform.
    pub dsig_transforms: DsigTransforms,
    /// Child. Required. The digest method.
    pub dsig_digest_method: DsigDigestMethod,
    /// Child. Required. The digest value.
    pub dsig_digest_value: DsigDigestValue,
}

/// Mathematical model of a hash.
pub ghost struct HashV {
    /// The transform list.
    pub dsig_transforms: DsigTransformsV,
    /// The digest method.
    pub dsig_digest_method: DsigDigestMethodV,
    /// The digest value.
    pub dsig_digest_value: DsigDigestValueV,
}

impl View for Hash {
    type V = HashV;

    open spec fn view(&self) -> HashV {
        HashV {
            dsig_transforms: self.dsig_transforms@,
            dsig_digest_method: self.dsig_digest_method@,
            dsig_digest_value: self.dsig_digest_value@,
        }
    }
}

/// The hash an element denotes: `dsig_transforms` (alternate `Transforms`),
/// `dsig_digest_method` (alternate `DigestMethod`) and `dsig_digest_value`
/// (alternate `DigestValue`) are all required children: there is no partial
/// hash.
pub open spec fn spec_hash(e: XmlElementV) -> Option<HashV> {
    let tc = spec_child(e.children, "dsig_transforms"@, "Transforms"@);
    let mc = spec_child(e.children, "dsig_digest_method"@, "DigestMethod"@);
    let vc = spec_child(e.children, "dsig_digest_value"@, "DigestValue"@);
    if tc is Some && spec_transforms(tc.unwrap()) is Some && mc is Some && spec_digest_method(
        mc.unwrap(),
    ) is Some && vc is Some && spec_digest_value(vc.unwrap()) is Some {
        Some(
            HashV {
                dsig_transforms: spec_transforms(tc.unwrap()).unwrap(),
                dsig_digest_method: spec_digest_method(mc.unwrap()).unwrap(),
                dsig_digest_value: spec_digest_value(vc.unwrap()).unwrap(),
            },
        )
    } else {
        None
    }
}

impl Hash {
    /// Decode a hash from its element.
    pub fn decode(e: &XmlElement) -> (r: Result<Hash, Error>)
        ensures
            r is Ok <==> spec_hash(e@) is Some,
            r matches Ok(v) ==> Some(v@) == spec_hash(e@),
    {
        let dsig_transforms = match find_child(e, "dsig_transforms", "Transforms") {
            Some(c) => match DsigTransforms::decode(c) {
                Ok(v) => v,
                Err(err) => return Err(err),
            },
            None => return Err(Error::new("hash: missing element Transforms")),
        };
        let dsig_digest_method = match find_child(e, "dsig_digest_method", "DigestMethod") {
            Some(c) => match DsigDigestMethod::decode(c) {
                Ok(v) => v,
                Err(err) => return Err(err),
            },
            None => return Err(Error::new("hash: missing element DigestMethod")),
        };
        let dsig_digest_value = match find_child(e, "dsig_digest_value", "DigestValue") {
            Some(c) => match DsigDigestValue::decode(c) {
                Ok(v) => v,
                Err(err) => return Err(err),
            },
            None => return Err(Error::new("hash: missing element DigestValue")),
        };
        Ok(Hash { dsig_transforms, dsig_digest_method, dsig_digest_value })
    }
}

/// Model for the `dependentAssembly` element.
#[derive(Debug, PartialEq)]
pub struct DependentAssembly {
    /// Attribute. Optional. Whether the assembly must already exist in the
    /// global assembly cache.
    pub prerequisite: Option<bool>,
    /// Attribute. Optional. Top-level application identity marker.
    pub visible: Option<String>,
    /// Attribute. Required. The relationship between the dependency and the
    /// application.
    pub dependency_type: DependencyType,
    /// Attribute. Optional. Full path to the application manifest.
    pub codebase: Option<String>,
    /// Attribute. Required. Size of the application manifest, in bytes.
    pub size: u32,
    /// Child. Required. The identity of the dependent assembly.
    pub assembly_identity: AssemblyIdentity,
    /// Child. Optional. File-integrity hash; when present, all of its parts
    /// are required.
    pub hash: Option<Hash>,
}

/// Mathematical model of a dependent assembly.
pub ghost struct DependentAssemblyV {
    /// Whether the assembly must already exist in the global assembly
    /// cache.
    pub prerequisite: Option<bool>,
    /// Top-level application identity marker.
    pub visible: Option<Seq<char>>,
    /// Relationship between the dependency and the application.
    pub dependency_type: DependencyType,
    /// Full path to the application manifest.
    pub codebase: Option<Seq<char>>,
    /// Size of the application manifest, in bytes.
    pub size: u32,
    /// Identity of the dependent assembly.
    pub assembly_identity: AssemblyIdentityV,
    /// Optional file-integrity hash.
    pub hash: Option<HashV>,
}

impl View for DependentAssembly {
    type V = DependentAssemblyV;

    open spec fn view(&self) -> DependentAssemblyV {
        DependentAssemblyV {
            prerequisite: self.prerequisite,
            visible: view_opt_string(self.visible),
            dependency_type: self.dependency_type,
            codebase: view_opt_string(self.codebase),
            size: self.size,
            assembly_identity: self.assembly_identity@,
            hash: match self.hash {
                Some(h) => Some(h@),
                None => None,
            },
        }
    }
}

/// The dependent assembly an element denotes: `dependency_type` (alternate
/// `dependencyType`) is a required enumerated attribute and `size` a
/// required non-negative integer; `prerequisite` (alternate `preRequisite`)
/// is an optional boolean; `visible` and `codebase` are optional texts; the
/// nested `assembly_identity` (alternate `assemblyIdentity`) child is
/// required and `hash` optional.
pub open spec fn spec_dependent_assembly(e: XmlElementV) -> Option<DependentAssemblyV> {
    let pr = spec_attr(e.attrs, "prerequisite"@, "preRequisite"@);
    let dt = spec_attr(e.attrs, "dependency_type"@, "dependencyType"@);
    let sz = spec_attr(e.attrs, "size"@, "size"@);
    let ic = spec_child(e.children, "assembly_identity"@, "assemblyIdentity"@);
    let hc = spec_child(e.children, "hash"@, "hash"@);
    if (pr is None || spec_bool(pr.unwrap()) is Some) && dt is Some && spec_dependency_type(
        dt.unwrap(),
    ) is Some && sz is Some && spec_parse_u32(sz.unwrap()) is Some && ic is Some
        && spec_assembly_identity(ic.unwrap()) is Some && (hc is None || spec_hash(
        hc.unwrap(),
    ) is Some) {
        Some(
            DependentAssemblyV {
                prerequisite: match pr {
                    Some(t) => Some(spec_bool(t).unwrap()),
                    None => None,
                },
                visible: spec_attr(e.attrs, "visible"@, "visible"@),
                dependency_type: spec_dependency_type(dt.unwrap()).unwrap(),
                codebase: spec_attr(e.attrs, "codebase"@, "codebase"@),
                size: spec_parse_u32(sz.unwrap()).unwrap(),
                assembly_identity: spec_assembly_identity(ic.unwrap()).unwrap(),
                hash: match hc {
                    Some(h) => Some(spec_hash(h).unwrap()),
                    None => None,
                },
            },
        )
    } else {
        None
    }
}

impl DependentAssembly {
    /// Decode a dependent assembly from its element.
    pub fn decode(e: &XmlElement) -> (r: Result<DependentAssembly, Error>)
        ensures
            r is Ok <==> spec_dependent_assembly(e@) is Some,
            r matches Ok(v) ==> Some(v@) == spec_dependent_assembly(e@),
    {
        let prerequisite = match find_attr(e, "prerequisite", "preRequisite") {
            Some(t) => match parse_bool(t.as_str()) {
                Some(b) => Some(b),
                None => return Err(
                    Error::new("dependentAssembly: preRequisite is not a boolean"),
                ),
            },
            None => None,
        };
        let visible = find_attr(e, "visible", "visible");
        let dependency_type = match find_attr(e, "dependency_type", "dependencyType") {
            Some(t) => match parse_dependency_type(t.as_str()) {
                Some(v) => v,
                None => return Err(
                    Error::new("dependentAssembly: unrecognized dependencyType value"),
                ),
            },
            None => return Err(Error::new("dependentAssembly: missing attribute dependencyType")),
        };
        let codebase = find_attr(e, "codebase", "codebase");
        let size = match find_attr(e, "size", "size") {
            Some(t) => match parse_u32(t.as_str()) {
                Some(n) => n,
                None => return Err(
                    Error::new("dependentAssembly: size is not a non-negative integer"),
                ),
            },
            None => return Err(Error::new("dependentAssembly: missing attribute size")),
        };
        let assembly_identity = match find_child(e, "assembly_identity", "assemblyIdentity") {
            Some(c) => match AssemblyIdentity::decode(c) {
                Ok(v) => v,
                Err(err) => return Err(err),
            },
            None => return Err(Error::new("dependentAssembly: missing element assemblyIdentity")),
        };
        let hash = match find_child(e, "hash", "hash") {
            Some(c) => match Hash::decode(c) {
                Ok(v) => Some(v),
                Err(err) => return Err(err),
            },
            None => None,
        };
        Ok(
            DependentAssembly {
                prerequisite,
                visible,
                dependency_type,
                codebase,
                size,
                assembly_identity,
                hash,
            },
        )
    }
}

/// Model for the `dependency` element.
#[derive(Debug, PartialEq)]
pub struct Dependency {
    /// Child. Required. Parent of the nested assembly identity.
    pub dependent_assembly: DependentAssembly,
}

/// Mathematical model of a dependency.
pub ghost struct DependencyV {
    /// The dependent assembly.
    pub dependent_assembly: DependentAssemblyV,
}

impl View for Dependency {
    type V = DependencyV;

    open spec fn view(&self) -> DependencyV {
        DependencyV { dependent_assembly: self.dependent_assembly@ }
    }
}

/// The dependency an element denotes: a required `dependent_assembly`
/// (alternate `dependentAssembly`) child.
pub open spec fn spec_dependency(e: XmlElementV) -> Option<DependencyV> {
    match spec_child(e.children, "dependent_assembly"@, "dependentAssembly"@) {
        Some(c) => match spec_dependent_assembly(c) {
            Some(dependent_assembly) => Some(DependencyV { dependent_assembly }),
            None => None,
        },
        None => None,
    }
}

impl Dependency {
    /// Decode a dependency from its element.
    pub fn decode(e: &XmlElement) -> (r: Result<Dependency, Error>)
        ensures
            r is Ok <==> spec_dependency(e@) is Some,
            r matches Ok(v) ==> Some(v@) == spec_dependency(e@),
    {
        match find_child(e, "dependent_assembly", "dependentAssembly") {
            Some(c) => match DependentAssembly::decode(c) {
                Ok(dependent_assembly) => Ok(Dependency { dependent_assembly }),
                Err(err) => Err(err),
            },
            None => Err(Error::new("dependency: missing element dependentAssembly")),
        }
    }
}

/// Model of a sequence of dependencies.
pub open spec fn view_dependencies(s: Seq<Dependency>) -> Seq<DependencyV> {
    Seq::new(s.len(), |i: int| s[i]@)
}

/// The dependencies a child list denotes: every listed element must decode.
pub open spec fn spec_dependencies(cs: Seq<XmlElementV>) -> Option<Seq<DependencyV>> {
    if forall|i: int| 0 <= i < cs.len() ==> #[trigger] spec_dependency(cs[i]) is Some {
        Some(Seq::new(cs.len(), |i: int| spec_dependency(cs[i]).unwrap()))
    } else {
        None
    }
}

/// Model for the `assembly` element: the top-level element of the
/// deployment manifest.
#[derive(Debug, PartialEq)]
pub struct Assembly {
    /// Attribute. Required. Expected to be `1.0` (not enforced).
    pub manifest_version: String,
    /// Child. Required. Identifies the application.
    pub assembly_identity: AssemblyIdentity,
    /// Child. Required. Application information for the shell presence.
    pub description: Description,
    /// Child. Optional. Attributes for the deployment of updates.
    pub deployment: Option<Deployment>,
    /// Child. Required. The framework versions the application can run on.
    pub compatible_frameworks: CompatibleFrameworks,
    /// Children. Required, at least one. The application's dependencies, in
    /// document order.
    pub dependency: Vec<Dependency>,
}

/// Mathematical model of an assembly.
pub ghost struct AssemblyV {
    /// Manifest version.
    pub manifest_version: Seq<char>,
    /// Application identity.
    pub assembly_identity: AssemblyIdentityV,
    /// Shell-presence information.
    pub description: DescriptionV,
    /// Optional update deployment.
    pub deployment: Option<DeploymentV>,
    /// Compatible framework versions.
    pub compatible_frameworks: CompatibleFrameworksV,
    /// Dependencies in document order.
    pub dependency: Seq<DependencyV>,
}

impl View for Assembly {
    type V = AssemblyV;

    open spec fn view(&self) -> AssemblyV {
        AssemblyV {
            manifest_version: self.manifest_version@,
            assembly_identity: self.assembly_identity@,
            description: self.description@,
            deployment: match self.deployment {
                Some(d) => Some(d@),
                None => None,
            },
            compatible_frameworks: self.compatible_frameworks@,
            dependency: view_dependencies(self.dependency@),
        }
    }
}

/// The assembly an element denotes: `manifest_version` (alternate
/// `manifestVersion`) is a required attribute; `assembly_identity`
/// (alternate `assemblyIdentity`), `description` and
/// `compatible_frameworks` (alternate `compatibleFrameworks`) are required
/// children; `deployment` is optional; the `dependency` children form a
/// required, non-empty list in document order.
pub open spec fn spec_assembly(e: XmlElementV) -> Option<AssemblyV> {
    let mv = spec_attr(e.attrs, "manifest_version"@, "manifestVersion"@);
    let ic = spec_child(e.children, "assembly_identity"@, "assemblyIdentity"@);
    let dc = spec_child(e.children, "description"@, "description"@);
    let depc = spec_child(e.children, "deployment"@, "deployment"@);
    let cfc = spec_child(e.children, "compatible_frameworks"@, "compatibleFrameworks"@);
    let deps = spec_dependencies(spec_children(e.children, "dependency"@, "dependency"@));
    if mv is Some && ic is Some && spec_assembly_identity(ic.unwrap()) is Some && dc is Some
        && spec_description(dc.unwrap()) is Some && (depc is None || spec_deployment(
        depc.unwrap(),
    ) is Some) && cfc is Some && spec_compatible_frameworks(cfc.unwrap()) is Some && deps is Some
        && deps.unwrap().len() > 0 {
        Some(
            AssemblyV {
                manifest_version: mv.unwrap(),
                assembly_identity: spec_assembly_identity(ic.unwrap()).unwrap(),
                description: spec_description(dc.unwrap()).unwrap(),
                deployment: match depc {
                    Some(d) => Some(spec_deployment(d).unwrap()),
                    None => None,
                },
                compatible_frameworks: spec_compatible_frameworks(cfc.unwrap()).unwrap(),
                dependency: deps.unwrap(),
            },
        )
    } else {
        None
    }
}

impl Assembly {
    /// Decode an assembly from the document's root element.
    pub fn decode(e: &XmlElement) -> (r: Result<Assembly, Error>)
        ensures
            r is Ok <==> spec_assembly(e@) is Some,
            r matches Ok(v) ==> Some(v@) == spec_assembly(e@),
    {
        let manifest_version = match find_attr(e, "manifest_version", "manifestVersion") {
            Some(v) => v,
            None => return Err(Error::new("assembly: missing attribute manifestVersion")),
        };
        let assembly_identity = match find_child(e, "assembly_identity", "assemblyIdentity") {
            Some(c) => match AssemblyIdentity::decode(c) {
                Ok(v) => v,
                Err(err) => return Err(err),
            },
            None => return Err(Error::new("assembly: missing element assemblyIdentity")),
        };
        let description = match find_child(e, "description", "description") {
            Some(c) => match Description::decode(c) {
                Ok(v) => v,
                Err(err) => return Err(err),
            },
            None => return Err(Error::new("assembly: missing element description")),
        };
        let deployment = match find_child(e, "deployment", "deployment") {
            Some(c) => match Deployment::decode(c) {
                Ok(v) => Some(v),
                Err(err) => return Err(err),
            },
            None => None,
        };
        let compatible_frameworks = match find_child(
            e,
            "compatible_frameworks",
            "compatibleFrameworks",
        ) {
            Some(c) => match CompatibleFrameworks::decode(c) {
                Ok(v) => v,
                Err(err) => return Err(err),
            },
            None => return Err(Error::new("assembly: missing element compatibleFrameworks")),
        };
        let delems = find_children(e, "dependency", "dependency");
        let ghost m = spec_children(e@.children, "dependency"@, "dependency"@);
        let mut dependency: Vec<Dependency> = Vec::new();
        let mut i: usize = 0;
        while i < delems.len()
            invariant
                i <= delems@.len(),
                view_elem_refs(delems@) == m,
                m == spec_children(e@.children, "dependency"@, "dependency"@),
                dependency@.len() == i,
                forall|j: int| 0 <= j < i ==> #[trigger] spec_dependency(m[j]) is Some,
                forall|j: int|
                    0 <= j < i ==> #[trigger] dependency@[j]@ == spec_dependency(m[j]).unwrap(),
            decreases delems@.len() - i,
        {
            let c = delems[i];
            assert(c@ == m[i as int]);
            match Dependency::decode(c) {
                Ok(v) => {
                    dependency.push(v);
                },
                Err(err) => {
                    proof {
                        assert(spec_dependency(m[i as int]) is None);
                        assert(!(forall|j: int|
                            0 <= j < m.len() ==> #[trigger] spec_dependency(m[j]) is Some));
                        assert(spec_dependencies(m) is None);
                    }
                    return Err(err);
                },
            }
            i += 1;
        }
        proof {
            assert(m.len() == delems@.len());
            assert(view_dependencies(dependency@) =~= Seq::new(
                m.len(),
                |j: int| spec_dependency(m[j]).unwrap(),
            ));
        }
        if dependency.len() == 0 {
            return Err(Error::new("assembly: no dependency element"));
        }
        Ok(
            Assembly {
                manifest_version,
                assembly_identity,
                description,
                deployment,
                compatible_frameworks,
                dependency,
            },
        )
    }
}

/// Model for a ClickOnce deployment manifest: the root parsed document
/// describing how to install and update an application.
#[derive(Debug, PartialEq)]
pub struct DeploymentManifest {
    /// Required. The top-level element of the deployment manifest.
    pub assembly: Assembly,
}

/// Mathematical model of a deployment manifest.
pub ghost struct DeploymentManifestV {
    /// The top-level assembly.
    pub assembly: AssemblyV,
}

impl View for DeploymentManifest {
    type V = DeploymentManifestV;

    open spec fn view(&self) -> DeploymentManifestV {
        DeploymentManifestV { assembly: self.assembly@ }
    }
}

/// The manifest a root element denotes: the root decodes as the assembly,
/// whatever the root element's own name.
pub open spec fn spec_manifest(root: XmlElementV) -> Option<DeploymentManifestV> {
    match spec_assembly(root) {
        Some(assembly) => Some(DeploymentManifestV { assembly }),
        None => None,
    }
}

/// The manifest a text denotes: strip a leading byte-order mark, parse the
/// XML element tree, and decode the root element as the assembly; `None`
/// where any of those steps fails.
pub open spec fn spec_decode(s: Seq<char>) -> Option<DeploymentManifestV> {
    match spec_parse_document(spec_strip_bom(s)) {
        Some(root) => spec_manifest(root),
        None => None,
    }
}

impl DeploymentManifest {
    /// Decode a manifest from the document's root element.
    pub fn decode(e: &XmlElement) -> (r: Result<DeploymentManifest, Error>)
        ensures
            r is Ok <==> spec_manifest(e@) is Some,
            r matches Ok(v) ==> Some(v@) == spec_manifest(e@),
    {
        match Assembly::decode(e) {
            Ok(assembly) => Ok(DeploymentManifest { assembly }),
            Err(err) => Err(err),
        }
    }

    /// Convert an XML text into a manifest, or return the decode failure.
    /// A leading byte-order mark is stripped before parsing.
    pub fn from_xml(contents: &str) -> (r: Result<DeploymentManifest, Error>)
        ensures
            r is Ok <==> spec_decode(contents@) is Some,
            r matches Ok(m) ==> Some(m@) == spec_decode(contents@),
    {
        let stripped = strip_bom(contents);
        match crate::xml::parse_document(stripped) {
            Ok(root) => DeploymentManifest::decode(&root),
            Err(message) => Err(Error { message }),
        }
    }
}

} // verus!

