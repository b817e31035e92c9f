//! Tests for decoding ClickOnce deployment manifests.

use clickonce::MtgoApplication;
use clickonce::deploymentmanifest::DependencyType;
use clickonce::deploymentmanifest::DeploymentManifest;
use clickonce::deploymentmanifest::ProcessorArchitecture;
use clickonce::deploymentmanifest::Update;

fn deployment_manifest() -> &'static str {
    r#"<?xml version="1.0" encoding="utf-8"?>
<assembly manifestVersion="1.0">
  <assemblyIdentity name="MTGO.application" version="3.4.102.9601"
      publicKeyToken="a0e2c7ffa0fd2cd2" processorArchitecture="msil"/>
  <description publisher="Wizards of the Coast"
      product="Magic The Gathering Online"
      supportUrl="http://example.invalid/support"/>
  <deployment install="true" mapFileExtensions="true">
    <subscription>
      <update>
        <beforeApplicationStartup/>
      </update>
    </subscription>
    <deploymentProvider codebase="http://example.invalid/MTGO.application"/>
  </deployment>
  <compatibleFrameworks support_url="http://example.invalid/fx">
    <framework targetVersion="4.0" profile="Full" supportedRuntime="4.0.30319"/>
  </compatibleFrameworks>
  <dependency>
    <dependentAssembly dependencyType="install"
        codebase="Application Files/MTGO.exe.manifest" size="30000">
      <assemblyIdentity name="MTGO.exe" version="3.4.102.9601"
          publicKeyToken="a0e2c7ffa0fd2cd2" processorArchitecture="msil"
          type="win32"/>
      <hash>
        <Transforms>
          <Transform Algorithm="urn:schemas-microsoft-com:HashTransforms.Identity"/>
        </Transforms>
        <DigestMethod Algorithm="http://www.w3.org/2000/09/xmldsig#sha1"/>
        <DigestValue>LTDvZ1cgk0demo+value=</DigestValue>
      </hash>
    </dependentAssembly>
  </dependency>
</assembly>"#
        .trim_start_matches('\u{feff}')
}

#[test]
fn parse_manifest() {
    let manifest_contents = deployment_manifest();
    let manifest =
        DeploymentManifest::from_xml(manifest_contents).expect("Failure parsing manifest");
    println!("Manifest: {:#?}", manifest);
    assert_eq!(manifest.assembly.assembly_identity.type_, "win32");
}

#[test]
fn parse_manifest_required_fields_populated() {
    let manifest = DeploymentManifest::from_xml(deployment_manifest()).unwrap();
    let assembly = &manifest.assembly;
    assert_eq!(assembly.manifest_version, "1.0");
    assert_eq!(assembly.assembly_identity.name, "MTGO.application");
    assert_eq!(assembly.assembly_identity.version, "3.4.102.9601");
    assert_eq!(assembly.assembly_identity.public_key_token, "a0e2c7ffa0fd2cd2");
    assert_eq!(
        assembly.assembly_identity.processor_architecture,
        ProcessorArchitecture::Msil
    );
    assert_eq!(assembly.description.publisher, "Wizards of the Coast");
    assert_eq!(assembly.description.product, "Magic The Gathering Online");
    assert_eq!(
        assembly.description.support_url.as_deref(),
        Some("http://example.invalid/support")
    );
    assert_eq!(assembly.description.suite_name, None);
    let deployment = assembly.deployment.as_ref().unwrap();
    assert!(deployment.install);
    assert!(deployment.map_file_extensions);
    assert_eq!(deployment.subscription.update, Update::BeforeApplicationStartup);
    assert_eq!(
        deployment.deployment_provider.as_ref().unwrap().codebase,
        "http://example.invalid/MTGO.application"
    );
    assert_eq!(assembly.compatible_frameworks.frameworks.len(), 1);
    let fw = &assembly.compatible_frameworks.frameworks[0];
    assert_eq!(fw.target_version, "4.0");
    assert_eq!(fw.profile, "Full");
    assert_eq!(fw.supported_runtime, "4.0.30319");
    assert_eq!(assembly.dependency.len(), 1);
    let dep = &assembly.dependency[0].dependent_assembly;
    assert_eq!(dep.dependency_type, DependencyType::Install);
    assert_eq!(dep.size, 30000);
    assert_eq!(dep.assembly_identity.name, "MTGO.exe");
    assert_eq!(dep.assembly_identity.type_, "win32");
    let hash = dep.hash.as_ref().unwrap();
    assert_eq!(
        hash.dsig_transforms.dsig_transform.algorithm,
        "urn:schemas-microsoft-com:HashTransforms.Identity"
    );
    assert_eq!(
        hash.dsig_digest_method.algorithm,
        "http://www.w3.org/2000/09/xmldsig#sha1"
    );
    assert_eq!(hash.dsig_digest_value.value, "LTDvZ1cgk0demo+value=");
}

fn small_doc(identity_attrs: &str, deployment_attrs: &str, update_inner: &str) -> String {
    format!(
        r#"<assembly manifestVersion="1.0">
  <assemblyIdentity {identity_attrs}/>
  <description publisher="P" product="Q"/>
  <deployment install="true" {deployment_attrs}>
    <subscription>
      <update>{update_inner}</update>
    </subscription>
  </deployment>
  <compatibleFrameworks>
    <framework targetVersion="4.0" profile="Full" supportedRuntime="4.0.30319"/>
  </compatibleFrameworks>
  <dependency>
    <dependentAssembly dependencyType="install" size="1">
      <assemblyIdentity name="A" version="1.0.0.0" publicKeyToken="0000000000000000"
          processorArchitecture="msil"/>
    </dependentAssembly>
  </dependency>
</assembly>"#
    )
}

const IDENTITY: &str = r#"name="N" version="1.0.0.0" publicKeyToken="0000000000000000" processorArchitecture="msil""#;

#[test]
fn type_defaults_to_win32() {
    let doc = small_doc(IDENTITY, "", "");
    let manifest = DeploymentManifest::from_xml(&doc).unwrap();
    assert_eq!(manifest.assembly.assembly_identity.type_, "win32");
}

#[test]
fn explicit_type_is_kept() {
    let attrs = format!("{IDENTITY} type=\"other\"");
    let doc = small_doc(&attrs, "", "");
    let manifest = DeploymentManifest::from_xml(&doc).unwrap();
    assert_eq!(manifest.assembly.assembly_identity.type_, "other");
}

#[test]
fn omitted_booleans_default_to_false() {
    let doc = small_doc(IDENTITY, "", "");
    let manifest = DeploymentManifest::from_xml(&doc).unwrap();
    let deployment = manifest.assembly.deployment.as_ref().unwrap();
    assert!(!deployment.map_file_extensions);
    assert!(!deployment.disallow_url_activation);
    assert!(!deployment.trust_url_parameters);
}

#[test]
fn present_booleans_are_kept() {
    let doc = small_doc(
        IDENTITY,
        r#"mapFileExtensions="true" disallowUrlActivation="true" trustURLParameters="true""#,
        "",
    );
    let manifest = DeploymentManifest::from_xml(&doc).unwrap();
    let deployment = manifest.assembly.deployment.as_ref().unwrap();
    assert!(deployment.map_file_extensions);
    assert!(deployment.disallow_url_activation);
    assert!(deployment.trust_url_parameters);
}

#[test]
fn non_boolean_flag_fails() {
    let doc = small_doc(IDENTITY, r#"mapFileExtensions="yes""#, "");
    assert!(DeploymentManifest::from_xml(&doc).is_err());
}

#[test]
fn update_without_child_yields_no_child_present() {
    let doc = small_doc(IDENTITY, "", "");
    let manifest = DeploymentManifest::from_xml(&doc).unwrap();
    let deployment = manifest.assembly.deployment.as_ref().unwrap();
    assert_eq!(deployment.subscription.update, Update::NoChildPresent);
}

#[test]
fn expiration_values_carried_unchanged() {
    let doc = small_doc(IDENTITY, "", r#"<expiration maximumAge="6" unit="hours"/>"#);
    let manifest = DeploymentManifest::from_xml(&doc).unwrap();
    let deployment = manifest.assembly.deployment.as_ref().unwrap();
    match &deployment.subscription.update {
        Update::Expiration(x) => {
            assert_eq!(x.maximum_age, "6");
            assert_eq!(x.unit, "hours");
        }
        other => panic!("expected the expiration variant, got {:?}", other),
    }
}

#[test]
fn unrecognized_update_child_fails() {
    let doc = small_doc(IDENTITY, "", "<sometimes/>");
    assert!(DeploymentManifest::from_xml(&doc).is_err());
}

#[test]
fn x86_architecture_recognized() {
    let attrs = r#"name="N" version="1.0.0.0" publicKeyToken="0000000000000000" processorArchitecture="x86""#;
    let doc = small_doc(attrs, "", "");
    let manifest = DeploymentManifest::from_xml(&doc).unwrap();
    assert_eq!(
        manifest.assembly.assembly_identity.processor_architecture,
        ProcessorArchitecture::X86
    );
}

#[test]
fn unrecognized_architecture_fails() {
    let attrs = r#"name="N" version="1.0.0.0" publicKeyToken="0000000000000000" processorArchitecture="sparc""#;
    let doc = small_doc(attrs, "", "");
    assert!(DeploymentManifest::from_xml(&doc).is_err());
}

#[test]
fn decoding_is_deterministic() {
    let doc = small_doc(IDENTITY, r#"mapFileExtensions="true""#, "");
    let first = DeploymentManifest::from_xml(&doc).unwrap();
    let second = DeploymentManifest::from_xml(&doc).unwrap();
    assert_eq!(first, second);
}

#[test]
fn leading_bom_is_ignored() {
    let doc = small_doc(IDENTITY, "", "");
    let with_bom = format!("\u{feff}{doc}");
    let bare = DeploymentManifest::from_xml(&doc).unwrap();
    let bommed = DeploymentManifest::from_xml(&with_bom).unwrap();
    assert_eq!(bare, bommed);
}

#[test]
fn missing_name_fails() {
    let attrs = r#"version="1.0.0.0" publicKeyToken="0000000000000000" processorArchitecture="msil""#;
    let doc = small_doc(attrs, "", "");
    assert!(DeploymentManifest::from_xml(&doc).is_err());
}

#[test]
fn missing_publisher_fails() {
    let doc = small_doc(IDENTITY, "", "").replace(r#"publisher="P" "#, "");
    assert!(DeploymentManifest::from_xml(&doc).is_err());
}

#[test]
fn non_numeric_size_fails() {
    let doc = small_doc(IDENTITY, "", "").replace(r#"size="1""#, r#"size="big""#);
    assert!(DeploymentManifest::from_xml(&doc).is_err());
}

#[test]
fn size_bounds() {
    let ok = small_doc(IDENTITY, "", "").replace(r#"size="1""#, r#"size="4294967295""#);
    let manifest = DeploymentManifest::from_xml(&ok).unwrap();
    assert_eq!(manifest.assembly.dependency[0].dependent_assembly.size, 4294967295);
    let too_big = small_doc(IDENTITY, "", "").replace(r#"size="1""#, r#"size="4294967296""#);
    assert!(DeploymentManifest::from_xml(&too_big).is_err());
}

#[test]
fn unrecognized_dependency_type_fails() {
    let doc = small_doc(IDENTITY, "", "")
        .replace(r#"dependencyType="install""#, r#"dependencyType="maybe""#);
    assert!(DeploymentManifest::from_xml(&doc).is_err());
}

#[test]
fn prerequisite_dependency_type_alias() {
    let doc = small_doc(IDENTITY, "", "")
        .replace(r#"dependencyType="install""#, r#"dependencyType="preRequisite""#);
    let manifest = DeploymentManifest::from_xml(&doc).unwrap();
    assert_eq!(
        manifest.assembly.dependency[0].dependent_assembly.dependency_type,
        DependencyType::Prerequisite
    );
}

#[test]
fn missing_dependency_fails() {
    let doc = r#"<assembly manifestVersion="1.0">
  <assemblyIdentity name="N" version="1.0.0.0" publicKeyToken="0000000000000000"
      processorArchitecture="msil"/>
  <description publisher="P" product="Q"/>
  <compatibleFrameworks>
    <framework targetVersion="4.0" profile="Full" supportedRuntime="4.0.30319"/>
  </compatibleFrameworks>
</assembly>"#;
    assert!(DeploymentManifest::from_xml(doc).is_err());
}

#[test]
fn snake_case_spellings_decode_alike() {
    let camel = small_doc(IDENTITY, "", "");
    let snake = r#"<assembly manifest_version="1.0">
  <assembly_identity name="N" version="1.0.0.0" public_key_token="0000000000000000"
      processor_architecture="msil"/>
  <description publisher="P" product="Q"/>
  <deployment install="true">
    <subscription>
      <update></update>
    </subscription>
  </deployment>
  <compatible_frameworks>
    <framework target_version="4.0" profile="Full" supported_runtime="4.0.30319"/>
  </compatible_frameworks>
  <dependency>
    <dependent_assembly dependency_type="install" size="1">
      <assembly_identity name="A" version="1.0.0.0" public_key_token="0000000000000000"
          processor_architecture="msil"/>
    </dependent_assembly>
  </dependency>
</assembly>"#;
    let from_camel = DeploymentManifest::from_xml(&camel).unwrap();
    let from_snake = DeploymentManifest::from_xml(snake).unwrap();
    assert_eq!(from_camel, from_snake);
}

#[test]
fn malformed_xml_fails() {
    assert!(DeploymentManifest::from_xml("<assembly><unclosed></assembly>").is_err());
    assert!(DeploymentManifest::from_xml("").is_err());
}

#[test]
fn from_contents_wraps_manifest() {
    let doc = small_doc(IDENTITY, "", "");
    let app = MtgoApplication::from_contents(&doc).unwrap();
    assert_eq!(
        app.deployment_manifest,
        DeploymentManifest::from_xml(&doc).unwrap()
    );
}
