use spore::decode::{
    DecodeError, DeploymentArtifactFields, DomainAcquisitionFields, DomainAssignmentFields, Field,
    HostingDesignationFields, NameResolutionFields, OptionalText, RecordFields, RepositoryFields,
    SiteIdentityFields, SporeMessage,
};
use spore::model::{
    DeploymentArtifact, DeploymentArtifactKind, DomainAcquisitionInstruction, DomainAssignment,
    FrameworkHint, HostingAuthorityRole, HostingDesignation, HostingProvider,
    NameResolutionConfiguration, NameResolutionRecord, SiteIdentity, SiteIntent, SourceRepository,
    SporeConfiguration,
};

fn s(v: &str) -> String {
    v.to_string()
}

fn sample(acquisition: bool) -> SporeConfiguration {
    SporeConfiguration {
        site_identity: SiteIdentity {
            canonical_id: s("acme"),
            human_readable_name: s("Acme"),
            intent: SiteIntent::Commerce,
        },
        deployment_artifact: DeploymentArtifact {
            kind: DeploymentArtifactKind::VersionedStaticContent,
            output_path: s("public"),
            framework: FrameworkHint::Hugo,
        },
        domain_assignment: DomainAssignment {
            canonical_domain: s("acme.dev"),
            alternate_domains: vec![s("www.acme.dev"), s("blog.acme.dev")],
        },
        hosting_designation: HostingDesignation {
            provider: HostingProvider::PlatformManaged,
            authority_role: HostingAuthorityRole::DelegatedOrigin,
            external_binding_reference: s("ref-1"),
            project_name: s(""),
            production_branch: s(""),
        },
        repository: SourceRepository { slug: s("acme/site"), default_branch: s("main") },
        name_resolution: Some(NameResolutionConfiguration {
            zone_id: s("zone-7"),
            records: vec![NameResolutionRecord {
                record_name: s("www"),
                record_type: s("CNAME"),
                record_value: s("acme.pages.dev"),
                time_to_live_seconds: 300,
            }],
        }),
        domain_acquisition: if acquisition {
            Some(DomainAcquisitionInstruction { registrar_identifier: s("reg"), domain_name: s("acme.dev") })
        } else {
            None
        },
    }
}

fn assert_same(a: &SporeConfiguration, b: &SporeConfiguration) {
    assert_eq!(format!("{:?}", a), format!("{:?}", b));
}

fn message() -> SporeMessage {
    sample(true).to_message()
}

#[test]
fn round_trip_with_and_without_optional_sections() {
    for acq in [true, false] {
        for zone in [true, false] {
            let mut c = sample(acq);
            if !zone {
                c.name_resolution = None;
            }
            let m = c.to_message();
            assert_eq!(m.domain_acquisition.is_some(), acq);
            assert_eq!(m.name_resolution.is_some(), zone);
            let d = SporeConfiguration::from_reader(&m).unwrap();
            assert_same(&c, &d);
            assert_eq!(d.name_resolution.as_ref().map(|n| n.zone_id.clone()), if zone { Some(s("zone-7")) } else { None });
        }
    }
}

#[test]
fn round_trip_every_variant() {
    let intents = [SiteIntent::IdentityIndex, SiteIntent::Publication, SiteIntent::Commerce, SiteIntent::Documentation];
    let roles = [
        HostingAuthorityRole::DesignatedOrigin,
        HostingAuthorityRole::DelegatedOrigin,
        HostingAuthorityRole::FederatedOrigin,
        HostingAuthorityRole::ExternallyManagedOrigin,
    ];
    let kinds = [
        DeploymentArtifactKind::StaticContent,
        DeploymentArtifactKind::VersionedStaticContent,
        DeploymentArtifactKind::CompositeStaticContent,
    ];
    let frameworks = [FrameworkHint::NoFramework, FrameworkHint::Hugo, FrameworkHint::Next, FrameworkHint::Astro, FrameworkHint::Nuxt];
    let providers = [
        HostingProvider::PlatformManaged,
        HostingProvider::LocalStatic,
        HostingProvider::ObjectStorage,
        HostingProvider::CustomHost,
    ];
    for (i, intent) in intents.iter().enumerate() {
        let mut c = sample(i % 2 == 0);
        c.site_identity.intent = *intent;
        c.hosting_designation.authority_role = roles[i];
        c.deployment_artifact.kind = kinds[i % 3];
        c.deployment_artifact.framework = frameworks[(i + 1) % 5];
        c.hosting_designation.provider = providers[3 - i];
        let d = SporeConfiguration::from_reader(&c.to_message()).unwrap();
        assert_same(&c, &d);
    }
    let mut c = sample(false);
    c.deployment_artifact.framework = FrameworkHint::NoFramework;
    let d = SporeConfiguration::from_reader(&c.to_message()).unwrap();
    assert_same(&c, &d);
}

#[test]
fn tags_resolve_to_variants() {
    assert_eq!(SiteIntent::from_reader(3), Ok(SiteIntent::Documentation));
    assert_eq!(HostingAuthorityRole::from_reader(0), Ok(HostingAuthorityRole::DesignatedOrigin));
    assert_eq!(DeploymentArtifactKind::from_reader(2), Ok(DeploymentArtifactKind::CompositeStaticContent));
    assert_eq!(FrameworkHint::from_reader(4), Ok(FrameworkHint::Nuxt));
    assert_eq!(HostingProvider::from_reader(1), Ok(HostingProvider::LocalStatic));
}

#[test]
fn unknown_tag_names_its_field() {
    let mut m = message();
    m.site_identity.as_mut().unwrap().intent = Some(4);
    assert_eq!(SporeConfiguration::from_reader(&m).unwrap_err(), DecodeError::UnknownVariant(Field::Intent, 4));

    let mut m = message();
    m.deployment_artifact.as_mut().unwrap().kind = Some(3);
    assert_eq!(SporeConfiguration::from_reader(&m).unwrap_err(), DecodeError::UnknownVariant(Field::ArtifactKind, 3));

    let mut m = message();
    m.deployment_artifact.as_mut().unwrap().framework = Some(9);
    assert_eq!(SporeConfiguration::from_reader(&m).unwrap_err(), DecodeError::UnknownVariant(Field::Framework, 9));

    let mut m = message();
    m.hosting_designation.as_mut().unwrap().provider = Some(65535);
    assert_eq!(SporeConfiguration::from_reader(&m).unwrap_err(), DecodeError::UnknownVariant(Field::Provider, 65535));

    let mut m = message();
    m.hosting_designation.as_mut().unwrap().authority_role = Some(4);
    assert_eq!(SporeConfiguration::from_reader(&m).unwrap_err(), DecodeError::UnknownVariant(Field::AuthorityRole, 4));
}

#[test]
fn missing_and_empty_fields_are_rejected() {
    let mut m = message();
    m.site_identity = None;
    assert_eq!(SporeConfiguration::from_reader(&m).unwrap_err(), DecodeError::MissingField(Field::SiteIdentity));

    let mut m = message();
    m.site_identity.as_mut().unwrap().canonical_id = Some(s(""));
    assert_eq!(SporeConfiguration::from_reader(&m).unwrap_err(), DecodeError::EmptyField(Field::CanonicalId));

    let mut m = message();
    m.domain_assignment.as_mut().unwrap().canonical_domain = None;
    assert_eq!(SporeConfiguration::from_reader(&m).unwrap_err(), DecodeError::MissingField(Field::CanonicalDomain));

    let mut m = message();
    m.domain_assignment.as_mut().unwrap().alternate_domains = Some(vec![Some(s("a.dev")), None]);
    assert_eq!(SporeConfiguration::from_reader(&m).unwrap_err(), DecodeError::MissingField(Field::AlternateDomains));

    let mut m = message();
    m.name_resolution = Some(NameResolutionFields {
        zone_id: Some(s("z")),
        records: Some(vec![RecordFields {
            record_name: Some(s("www")),
            record_type: None,
            record_value: None,
            time_to_live_seconds: 60,
        }]),
    });
    assert_eq!(SporeConfiguration::from_reader(&m).unwrap_err(), DecodeError::MissingField(Field::RecordType));

    let mut m = message();
    m.name_resolution = Some(NameResolutionFields { zone_id: None, records: Some(vec![]) });
    assert_eq!(SporeConfiguration::from_reader(&m).unwrap_err(), DecodeError::MissingField(Field::ZoneId));

    let mut m = message();
    m.hosting_designation.as_mut().unwrap().external_binding_reference = OptionalText::Unreadable;
    assert_eq!(
        SporeConfiguration::from_reader(&m).unwrap_err(),
        DecodeError::MissingField(Field::ExternalBindingReference)
    );

    let mut m = message();
    m.site_identity.as_mut().unwrap().intent = None;
    assert_eq!(SporeConfiguration::from_reader(&m).unwrap_err(), DecodeError::MissingField(Field::Intent));

    let mut m = message();
    m.domain_acquisition = Some(DomainAcquisitionFields { registrar_identifier: Some(s("reg")), domain_name: None });
    assert_eq!(SporeConfiguration::from_reader(&m).unwrap_err(), DecodeError::MissingField(Field::DomainName));
}

#[test]
fn first_fault_in_schema_order_wins() {
    let mut m = message();
    m.site_identity.as_mut().unwrap().intent = Some(7);
    m.hosting_designation.as_mut().unwrap().provider = Some(7);
    m.repository = None;
    assert_eq!(SporeConfiguration::from_reader(&m).unwrap_err(), DecodeError::MissingField(Field::Repository));
    m.repository = Some(RepositoryFields { slug: Some(s("")), default_branch: Some(s("")) });
    assert_eq!(SporeConfiguration::from_reader(&m).unwrap_err(), DecodeError::UnknownVariant(Field::Intent, 7));
}

#[test]
fn absent_binding_reference_reads_empty() {
    let m = SporeMessage {
        site_identity: Some(SiteIdentityFields { canonical_id: Some(s("x")), human_readable_name: Some(s("")), intent: Some(1) }),
        deployment_artifact: Some(DeploymentArtifactFields { kind: Some(0), output_path: Some(s("")), framework: Some(0) }),
        domain_assignment: Some(DomainAssignmentFields { canonical_domain: Some(s("x.dev")), alternate_domains: Some(vec![]) }),
        hosting_designation: Some(HostingDesignationFields {
            provider: Some(2),
            authority_role: Some(3),
            external_binding_reference: OptionalText::Absent,
            project_name: Some(s("")),
            production_branch: Some(s("")),
        }),
        repository: Some(RepositoryFields { slug: Some(s("")), default_branch: Some(s("")) }),
        name_resolution: None,
        domain_acquisition: None,
    };
    let c = SporeConfiguration::from_reader(&m).unwrap();
    assert!(c.name_resolution.is_none());
    assert_eq!(c.hosting_designation.external_binding_reference, "");
    assert_eq!(c.hosting_designation.provider, HostingProvider::ObjectStorage);
    assert_eq!(c.hosting_designation.authority_role, HostingAuthorityRole::ExternallyManagedOrigin);
    assert_eq!(c.site_identity.intent, SiteIntent::Publication);
    assert!(c.domain_acquisition.is_none());
    assert!(c.domain_assignment.alternate_domains.is_empty());
}

#[test]
fn roles_have_labels() {
    assert_eq!(HostingAuthorityRole::DesignatedOrigin.label(), "designated-origin");
    assert_eq!(HostingAuthorityRole::ExternallyManagedOrigin.label(), "externally-managed-origin");
}

#[test]
fn only_the_platform_managed_provider_is_reconciled() {
    assert!(HostingProvider::PlatformManaged.is_reconciled());
    assert!(!HostingProvider::LocalStatic.is_reconciled());
    assert!(!HostingProvider::ObjectStorage.is_reconciled());
    assert!(!HostingProvider::CustomHost.is_reconciled());
}
