use vstd::prelude::*;

verus! {

/// What a site is for.
#[derive(Clone, Copy, Debug, PartialEq, Eq, Structural)]
pub enum SiteIntent {
    IdentityIndex,
    Publication,
    Commerce,
    Documentation,
}

/// The role the hosting platform plays for a site.
#[derive(Clone, Copy, Debug, PartialEq, Eq, Structural)]
pub enum HostingAuthorityRole {
    DesignatedOrigin,
    DelegatedOrigin,
    FederatedOrigin,
    ExternallyManagedOrigin,
}

/// The shape of what the external build pipeline produces.
#[derive(Clone, Copy, Debug, PartialEq, Eq, Structural)]
pub enum DeploymentArtifactKind {
    StaticContent,
    VersionedStaticContent,
    CompositeStaticContent,
}

/// The framework hint handed to the hosting platform when a project is created.
#[derive(Clone, Copy, Debug, PartialEq, Eq, Structural)]
pub enum FrameworkHint {
    NoFramework,
    Hugo,
    Next,
    Astro,
    Nuxt,
}

/// Where a site is hosted. Only the platform-managed provider is reconciled;
/// the others are named targets that are deliberately left as no-ops.
#[derive(Clone, Copy, Debug, PartialEq, Eq, Structural)]
pub enum HostingProvider {
    PlatformManaged,
    LocalStatic,
    ObjectStorage,
    CustomHost,
}

#[derive(Clone, Debug)]
pub struct SiteIdentity {
    pub canonical_id: String,
    pub human_readable_name: String,
    pub intent: SiteIntent,
}

#[derive(Clone, Debug)]
pub struct DeploymentArtifact {
    pub kind: DeploymentArtifactKind,
    /// Empty means "use the platform default".
    pub output_path: String,
    pub framework: FrameworkHint,
}

#[derive(Clone, Debug)]
pub struct DomainAssignment {
    pub canonical_domain: String,
    pub alternate_domains: Vec<String>,
}

#[derive(Clone, Debug)]
pub struct HostingDesignation {
    pub provider: HostingProvider,
    pub authority_role: HostingAuthorityRole,
    pub external_binding_reference: String,
    /// Empty means "use the site identity's id".
    pub project_name: String,
    /// Empty means "use the repository's default branch, else `main`".
    pub production_branch: String,
}

#[derive(Clone, Debug)]
pub struct SourceRepository {
    /// Empty means "no repository is bound".
    pub slug: String,
    pub default_branch: String,
}

#[derive(Clone, Debug)]
pub struct NameResolutionRecord {
    pub record_name: String,
    pub record_type: String,
    pub record_value: String,
    pub time_to_live_seconds: u32,
}

#[derive(Clone, Debug)]
pub struct NameResolutionConfiguration {
    pub zone_id: String,
    pub records: Vec<NameResolutionRecord>,
}

#[derive(Clone, Debug)]
pub struct DomainAcquisitionInstruction {
    pub registrar_identifier: String,
    pub domain_name: String,
}

/// One decoded deployment descriptor.
#[derive(Clone, Debug)]
pub struct SporeConfiguration {
    pub site_identity: SiteIdentity,
    pub deployment_artifact: DeploymentArtifact,
    pub domain_assignment: DomainAssignment,
    pub hosting_designation: HostingDesignation,
    pub repository: SourceRepository,
    pub name_resolution: Option<NameResolutionConfiguration>,
    pub domain_acquisition: Option<DomainAcquisitionInstruction>,
}

/// The character sequences held by a sequence of strings.
pub open spec fn strs_view(v: Seq<String>) -> Seq<Seq<char>> {
    v.map_values(|s: String| s@)
}

pub open spec fn same_record(a: NameResolutionRecord, b: NameResolutionRecord) -> bool {
    &&& a.record_name@ == b.record_name@
    &&& a.record_type@ == b.record_type@
    &&& a.record_value@ == b.record_value@
    &&& a.time_to_live_seconds == b.time_to_live_seconds
}

pub open spec fn same_records(a: Seq<NameResolutionRecord>, b: Seq<NameResolutionRecord>) -> bool {
    &&& a.len() == b.len()
    &&& forall|i: int| 0 <= i < a.len() ==> same_record(#[trigger] a[i], b[i])
}

pub open spec fn same_resolution(
    a: Option<NameResolutionConfiguration>,
    b: Option<NameResolutionConfiguration>,
) -> bool {
    match (a, b) {
        (None, None) => true,
        (Some(x), Some(y)) => x.zone_id@ == y.zone_id@ && same_records(x.records@, y.records@),
        _ => false,
    }
}

pub open spec fn same_acquisition(
    a: Option<DomainAcquisitionInstruction>,
    b: Option<DomainAcquisitionInstruction>,
) -> bool {
    match (a, b) {
        (None, None) => true,
        (Some(x), Some(y)) => x.registrar_identifier@ == y.registrar_identifier@
            && x.domain_name@ == y.domain_name@,
        _ => false,
    }
}

impl SporeConfiguration {
    /// Two configurations that hold the same values in every field.
    pub open spec fn same_as(&self, o: &SporeConfiguration) -> bool {
        &&& self.site_identity.canonical_id@ == o.site_identity.canonical_id@
        &&& self.site_identity.human_readable_name@ == o.site_identity.human_readable_name@
        &&& self.site_identity.intent == o.site_identity.intent
        &&& self.deployment_artifact.kind == o.deployment_artifact.kind
        &&& self.deployment_artifact.output_path@ == o.deployment_artifact.output_path@
        &&& self.deployment_artifact.framework == o.deployment_artifact.framework
        &&& self.domain_assignment.canonical_domain@ == o.domain_assignment.canonical_domain@
        &&& strs_view(self.domain_assignment.alternate_domains@) == strs_view(
            o.domain_assignment.alternate_domains@,
        )
        &&& self.hosting_designation.provider == o.hosting_designation.provider
        &&& self.hosting_designation.authority_role == o.hosting_designation.authority_role
        &&& self.hosting_designation.external_binding_reference@
            == o.hosting_designation.external_binding_reference@
        &&& self.hosting_designation.project_name@ == o.hosting_designation.project_name@
        &&& self.hosting_designation.production_branch@ == o.hosting_designation.production_branch@
        &&& self.repository.slug@ == o.repository.slug@
        &&& self.repository.default_branch@ == o.repository.default_branch@
        &&& same_resolution(self.name_resolution, o.name_resolution)
        &&& same_acquisition(self.domain_acquisition, o.domain_acquisition)
    }

    /// A configuration is valid when its site id and canonical domain are non-empty.
    pub open spec fn valid(&self) -> bool {
        &&& self.site_identity.canonical_id@.len() > 0
        &&& self.domain_assignment.canonical_domain@.len() > 0
    }
}

impl HostingProvider {
    /// Whether reconciliation has work to do for this provider: only the
    /// platform-managed one is implemented, the others are no-ops.
    pub fn is_reconciled(&self) -> (r: bool)
        ensures
            r == (*self == HostingProvider::PlatformManaged),
    {
        match self {
            HostingProvider::PlatformManaged => true,
            HostingProvider::LocalStatic => false,
            HostingProvider::ObjectStorage => false,
            HostingProvider::CustomHost => false,
        }
    }
}

impl HostingAuthorityRole {
    pub open spec fn label_spec(self) -> Seq<char> {
        match self {
            HostingAuthorityRole::DesignatedOrigin => "designated-origin"@,
            HostingAuthorityRole::DelegatedOrigin => "delegated-origin"@,
            HostingAuthorityRole::FederatedOrigin => "federated-origin"@,
            HostingAuthorityRole::ExternallyManagedOrigin => "externally-managed-origin"@,
        }
    }

    /// The name under which the role is reported.
    pub fn label(&self) -> (r: &'static str)
        ensures
            r@ == self.label_spec(),
    {
        match self {
            HostingAuthorityRole::DesignatedOrigin => "designated-origin",
            HostingAuthorityRole::DelegatedOrigin => "delegated-origin",
            HostingAuthorityRole::FederatedOrigin => "federated-origin",
            HostingAuthorityRole::ExternallyManagedOrigin => "externally-managed-origin",
        }
    }
}

} // verus!
