use vstd::prelude::*;

use crate::model::{
    DeploymentArtifact, DeploymentArtifactKind, DomainAcquisitionInstruction, DomainAssignment,
    FrameworkHint, HostingAuthorityRole, HostingDesignation, HostingProvider,
    NameResolutionConfiguration, NameResolutionRecord, SiteIdentity, SiteIntent, SourceRepository,
    SporeConfiguration, same_record, same_resolution, strs_view,
};

verus! {

/// A field of the descriptor, named by its path in the schema.
#[derive(Clone, Copy, Debug, PartialEq, Eq, Structural)]
pub enum Field {
    SiteIdentity,
    CanonicalId,
    HumanReadableName,
    Intent,
    DeploymentArtifact,
    ArtifactKind,
    OutputPath,
    Framework,
    DomainAssignment,
    CanonicalDomain,
    AlternateDomains,
    HostingDesignation,
    Provider,
    AuthorityRole,
    ExternalBindingReference,
    ProjectName,
    ProductionBranch,
    Repository,
    RepositorySlug,
    DefaultBranch,
    ZoneId,
    Records,
    RecordName,
    RecordType,
    RecordValue,
    RegistrarIdentifier,
    DomainName,
}

/// Why a message could not be decoded into a configuration.
#[derive(Clone, Copy, Debug, PartialEq, Eq, Structural)]
pub enum DecodeError {
    /// A required field, section or list element is absent or unreadable.
    MissingField(Field),
    /// A field that must not be empty is empty.
    EmptyField(Field),
    /// An enumerated field carries a tag that names no variant.
    UnknownVariant(Field, u16),
}

/// An optional text field: absent, present but unreadable, or its text.
#[derive(Clone, Debug)]
pub enum OptionalText {
    Absent,
    Unreadable,
    Text(String),
}

/// The fields of a message as the wire schema exposes them: a required text
/// field is `None` when it is absent or unreadable, an enumerated field is its
/// raw tag, `None` when its group is unreadable.
#[derive(Clone, Debug)]
pub struct SiteIdentityFields {
    pub canonical_id: Option<String>,
    pub human_readable_name: Option<String>,
    pub intent: Option<u16>,
}

#[derive(Clone, Debug)]
pub struct DeploymentArtifactFields {
    pub kind: Option<u16>,
    pub output_path: Option<String>,
    pub framework: Option<u16>,
}

#[derive(Clone, Debug)]
pub struct DomainAssignmentFields {
    pub canonical_domain: Option<String>,
    pub alternate_domains: Option<Vec<Option<String>>>,
}

#[derive(Clone, Debug)]
pub struct HostingDesignationFields {
    pub provider: Option<u16>,
    pub authority_role: Option<u16>,
    /// Optional on the wire: absent reads as empty.
    pub external_binding_reference: OptionalText,
    pub project_name: Option<String>,
    pub production_branch: Option<String>,
}

#[derive(Clone, Debug)]
pub struct RepositoryFields {
    pub slug: Option<String>,
    pub default_branch: Option<String>,
}

#[derive(Clone, Debug)]
pub struct RecordFields {
    pub record_name: Option<String>,
    pub record_type: Option<String>,
    pub record_value: Option<String>,
    pub time_to_live_seconds: u32,
}

#[derive(Clone, Debug)]
pub struct NameResolutionFields {
    pub zone_id: Option<String>,
    pub records: Option<Vec<RecordFields>>,
}

#[derive(Clone, Debug)]
pub struct DomainAcquisitionFields {
    pub registrar_identifier: Option<String>,
    pub domain_name: Option<String>,
}

/// One message of the stream. A required section is `None` when its pointer
/// is absent or unreadable; `name_resolution` and `domain_acquisition` are
/// `None` exactly when the message's presence flag for them is clear.
#[derive(Clone, Debug)]
pub struct SporeMessage {
    pub site_identity: Option<SiteIdentityFields>,
    pub deployment_artifact: Option<DeploymentArtifactFields>,
    pub domain_assignment: Option<DomainAssignmentFields>,
    pub hosting_designation: Option<HostingDesignationFields>,
    pub repository: Option<RepositoryFields>,
    pub name_resolution: Option<NameResolutionFields>,
    pub domain_acquisition: Option<DomainAcquisitionFields>,
}

// ---- tags of the enumerated fields ----

impl SiteIntent {
    pub open spec fn tag(self) -> u16 {
        match self {
            SiteIntent::IdentityIndex => 0,
            SiteIntent::Publication => 1,
            SiteIntent::Commerce => 2,
            SiteIntent::Documentation => 3,
        }
    }

    /// Resolves the variant that a wire tag names.
    pub fn from_reader(tag: u16) -> (r: Result<SiteIntent, DecodeError>)
        ensures
            tag < 4 <==> r is Ok,
            r matches Ok(v) ==> v.tag() == tag,
            r matches Err(e) ==> e == DecodeError::UnknownVariant(Field::Intent, tag),
    {
        match tag {
            0 => Ok(SiteIntent::IdentityIndex),
            1 => Ok(SiteIntent::Publication),
            2 => Ok(SiteIntent::Commerce),
            3 => Ok(SiteIntent::Documentation),
            _ => Err(DecodeError::UnknownVariant(Field::Intent, tag)),
        }
    }

    pub fn to_tag(&self) -> (r: u16)
        ensures
            r == self.tag(),
    {
        match self {
            SiteIntent::IdentityIndex => 0,
            SiteIntent::Publication => 1,
            SiteIntent::Commerce => 2,
            SiteIntent::Documentation => 3,
        }
    }
}

impl HostingAuthorityRole {
    pub open spec fn tag(self) -> u16 {
        match self {
            HostingAuthorityRole::DesignatedOrigin => 0,
            HostingAuthorityRole::DelegatedOrigin => 1,
            HostingAuthorityRole::FederatedOrigin => 2,
            HostingAuthorityRole::ExternallyManagedOrigin => 3,
        }
    }

    /// Resolves the variant that a wire tag names.
    pub fn from_reader(tag: u16) -> (r: Result<HostingAuthorityRole, DecodeError>)
        ensures
            tag < 4 <==> r is Ok,
            r matches Ok(v) ==> v.tag() == tag,
            r matches Err(e) ==> e == DecodeError::UnknownVariant(Field::AuthorityRole, tag),
    {
        match tag {
            0 => Ok(HostingAuthorityRole::DesignatedOrigin),
            1 => Ok(HostingAuthorityRole::DelegatedOrigin),
            2 => Ok(HostingAuthorityRole::FederatedOrigin),
            3 => Ok(HostingAuthorityRole::ExternallyManagedOrigin),
            _ => Err(DecodeError::UnknownVariant(Field::AuthorityRole, tag)),
        }
    }

    pub fn to_tag(&self) -> (r: u16)
        ensures
            r == self.tag(),
    {
        match self {
            HostingAuthorityRole::DesignatedOrigin => 0,
            HostingAuthorityRole::DelegatedOrigin => 1,
            HostingAuthorityRole::FederatedOrigin => 2,
            HostingAuthorityRole::ExternallyManagedOrigin => 3,
        }
    }
}

impl DeploymentArtifactKind {
    pub open spec fn tag(self) -> u16 {
        match self {
            DeploymentArtifactKind::StaticContent => 0,
            DeploymentArtifactKind::VersionedStaticContent => 1,
            DeploymentArtifactKind::CompositeStaticContent => 2,
        }
    }

    /// Resolves the variant that a wire tag names.
    pub fn from_reader(tag: u16) -> (r: Result<DeploymentArtifactKind, DecodeError>)
        ensures
            tag < 3 <==> r is Ok,
            r matches Ok(v) ==> v.tag() == tag,
            r matches Err(e) ==> e == DecodeError::UnknownVariant(Field::ArtifactKind, tag),
    {
        match tag {
            0 => Ok(DeploymentArtifactKind::StaticContent),
            1 => Ok(DeploymentArtifactKind::VersionedStaticContent),
            2 => Ok(DeploymentArtifactKind::CompositeStaticContent),
            _ => Err(DecodeError::UnknownVariant(Field::ArtifactKind, tag)),
        }
    }

    pub fn to_tag(&self) -> (r: u16)
        ensures
            r == self.tag(),
    {
        match self {
            DeploymentArtifactKind::StaticContent => 0,
            DeploymentArtifactKind::VersionedStaticContent => 1,
            DeploymentArtifactKind::CompositeStaticContent => 2,
        }
    }
}

impl FrameworkHint {
    pub open spec fn tag(self) -> u16 {
        match self {
            FrameworkHint::NoFramework => 0,
            FrameworkHint::Hugo => 1,
            FrameworkHint::Next => 2,
            FrameworkHint::Astro => 3,
            FrameworkHint::Nuxt => 4,
        }
    }

    /// Resolves the variant that a wire tag names.
    pub fn from_reader(tag: u16) -> (r: Result<FrameworkHint, DecodeError>)
        ensures
            tag < 5 <==> r is Ok,
            r matches Ok(v) ==> v.tag() == tag,
            r matches Err(e) ==> e == DecodeError::UnknownVariant(Field::Framework, tag),
    {
        match tag {
            0 => Ok(FrameworkHint::NoFramework),
            1 => Ok(FrameworkHint::Hugo),
            2 => Ok(FrameworkHint::Next),
            3 => Ok(FrameworkHint::Astro),
            4 => Ok(FrameworkHint::Nuxt),
            _ => Err(DecodeError::UnknownVariant(Field::Framework, tag)),
        }
    }

    pub fn to_tag(&self) -> (r: u16)
        ensures
            r == self.tag(),
    {
        match self {
            FrameworkHint::NoFramework => 0,
            FrameworkHint::Hugo => 1,
            FrameworkHint::Next => 2,
            FrameworkHint::Astro => 3,
            FrameworkHint::Nuxt => 4,
        }
    }
}

impl HostingProvider {
    pub open spec fn tag(self) -> u16 {
        match self {
            HostingProvider::PlatformManaged => 0,
            HostingProvider::LocalStatic => 1,
            HostingProvider::ObjectStorage => 2,
            HostingProvider::CustomHost => 3,
        }
    }

    /// Resolves the variant that a wire tag names.
    pub fn from_reader(tag: u16) -> (r: Result<HostingProvider, DecodeError>)
        ensures
            tag < 4 <==> r is Ok,
            r matches Ok(v) ==> v.tag() == tag,
            r matches Err(e) ==> e == DecodeError::UnknownVariant(Field::Provider, tag),
    {
        match tag {
            0 => Ok(HostingProvider::PlatformManaged),
            1 => Ok(HostingProvider::LocalStatic),
            2 => Ok(HostingProvider::ObjectStorage),
            3 => Ok(HostingProvider::CustomHost),
            _ => Err(DecodeError::UnknownVariant(Field::Provider, tag)),
        }
    }

    pub fn to_tag(&self) -> (r: u16)
        ensures
            r == self.tag(),
    {
        match self {
            HostingProvider::PlatformManaged => 0,
            HostingProvider::LocalStatic => 1,
            HostingProvider::ObjectStorage => 2,
            HostingProvider::CustomHost => 3,
        }
    }
}


// ---- what decoding a message yields ----

pub open spec fn first_of(a: Option<DecodeError>, b: Option<DecodeError>) -> Option<DecodeError> {
    if a is Some {
        a
    } else {
        b
    }
}

pub open spec fn text_fault(t: Option<String>, f: Field) -> Option<DecodeError> {
    if t is None {
        Some(DecodeError::MissingField(f))
    } else {
        None
    }
}

/// A required text field that must also be non-empty.
pub open spec fn nonempty_fault(t: Option<String>, f: Field) -> Option<DecodeError> {
    match t {
        None => Some(DecodeError::MissingField(f)),
        Some(s) => if s@.len() == 0 {
            Some(DecodeError::EmptyField(f))
        } else {
            None
        },
    }
}

pub open spec fn tag_fault(tag: Option<u16>, count: u16, f: Field) -> Option<DecodeError> {
    match tag {
        None => Some(DecodeError::MissingField(f)),
        Some(t) => if t >= count {
            Some(DecodeError::UnknownVariant(f, t))
        } else {
            None
        },
    }
}

pub open spec fn optional_text_fault(t: OptionalText, f: Field) -> Option<DecodeError> {
    if t is Unreadable {
        Some(DecodeError::MissingField(f))
    } else {
        None
    }
}

pub open spec fn site_fault(s: SiteIdentityFields) -> Option<DecodeError> {
    first_of(
        nonempty_fault(s.canonical_id, Field::CanonicalId),
        first_of(
            text_fault(s.human_readable_name, Field::HumanReadableName),
            tag_fault(s.intent, 4, Field::Intent),
        ),
    )
}

pub open spec fn artifact_fault(a: DeploymentArtifactFields) -> Option<DecodeError> {
    first_of(
        tag_fault(a.kind, 3, Field::ArtifactKind),
        first_of(
            text_fault(a.output_path, Field::OutputPath),
            tag_fault(a.framework, 5, Field::Framework),
        ),
    )
}

pub open spec fn alternates_readable(l: Option<Vec<Option<String>>>) -> bool {
    match l {
        None => false,
        Some(v) => forall|i: int| 0 <= i < v@.len() ==> (#[trigger] v@[i]) is Some,
    }
}

pub open spec fn domains_fault(d: DomainAssignmentFields) -> Option<DecodeError> {
    if !alternates_readable(d.alternate_domains) {
        Some(DecodeError::MissingField(Field::AlternateDomains))
    } else {
        nonempty_fault(d.canonical_domain, Field::CanonicalDomain)
    }
}

pub open spec fn hosting_fault(h: HostingDesignationFields) -> Option<DecodeError> {
    first_of(
        tag_fault(h.provider, 4, Field::Provider),
        first_of(
            tag_fault(h.authority_role, 4, Field::AuthorityRole),
            first_of(
                optional_text_fault(h.external_binding_reference, Field::ExternalBindingReference),
                first_of(
                    text_fault(h.project_name, Field::ProjectName),
                    text_fault(h.production_branch, Field::ProductionBranch),
                ),
            ),
        ),
    )
}

pub open spec fn repository_fault(r: RepositoryFields) -> Option<DecodeError> {
    first_of(
        text_fault(r.slug, Field::RepositorySlug),
        text_fault(r.default_branch, Field::DefaultBranch),
    )
}

pub open spec fn record_fault(r: RecordFields) -> Option<DecodeError> {
    first_of(
        text_fault(r.record_name, Field::RecordName),
        first_of(
            text_fault(r.record_type, Field::RecordType),
            text_fault(r.record_value, Field::RecordValue),
        ),
    )
}

/// The first fault among the first `n` records, in list order.
pub open spec fn records_fault(rs: Seq<RecordFields>, n: int) -> Option<DecodeError>
    decreases n,
{
    if n <= 0 {
        None
    } else {
        first_of(records_fault(rs, n - 1), record_fault(rs[n - 1]))
    }
}

pub open spec fn name_resolution_fault(n: NameResolutionFields) -> Option<DecodeError> {
    first_of(
        text_fault(n.zone_id, Field::ZoneId),
        records_list_fault(n.records),
    )
}

pub open spec fn records_list_fault(l: Option<Vec<RecordFields>>) -> Option<DecodeError> {
    match l {
        None => Some(DecodeError::MissingField(Field::Records)),
        Some(rs) => records_fault(rs@, rs@.len() as int),
    }
}

pub open spec fn resolution_fault(n: Option<NameResolutionFields>) -> Option<DecodeError> {
    match n {
        None => None,
        Some(f) => name_resolution_fault(f),
    }
}

pub open spec fn acquisition_fault(a: Option<DomainAcquisitionFields>) -> Option<DecodeError> {
    match a {
        None => None,
        Some(f) => first_of(
            text_fault(f.registrar_identifier, Field::RegistrarIdentifier),
            text_fault(f.domain_name, Field::DomainName),
        ),
    }
}

pub open spec fn section_fault<T>(s: Option<T>, f: Field) -> Option<DecodeError> {
    if s is None {
        Some(DecodeError::MissingField(f))
    } else {
        None
    }
}

/// The error that decoding `m` reports, if any: sections are checked first,
/// then the fields of each section in schema order.
pub open spec fn first_fault(m: SporeMessage) -> Option<DecodeError> {
    first_of(
        section_fault(m.site_identity, Field::SiteIdentity),
        first_of(
            section_fault(m.deployment_artifact, Field::DeploymentArtifact),
            first_of(
                section_fault(m.domain_assignment, Field::DomainAssignment),
                first_of(
                    section_fault(m.hosting_designation, Field::HostingDesignation),
                    first_of(section_fault(m.repository, Field::Repository), fields_fault(m)),
                ),
            ),
        ),
    )
}

pub open spec fn fields_fault(m: SporeMessage) -> Option<DecodeError> {
    first_of(
        site_fault(m.site_identity.unwrap()),
        first_of(
            artifact_fault(m.deployment_artifact.unwrap()),
            first_of(
                domains_fault(m.domain_assignment.unwrap()),
                first_of(
                    hosting_fault(m.hosting_designation.unwrap()),
                    first_of(
                        repository_fault(m.repository.unwrap()),
                        first_of(
                            resolution_fault(m.name_resolution),
                            acquisition_fault(m.domain_acquisition),
                        ),
                    ),
                ),
            ),
        ),
    )
}

pub open spec fn text_is(s: String, t: Option<String>) -> bool {
    t matches Some(v) && s@ == v@
}

pub open spec fn record_from(r: NameResolutionRecord, f: RecordFields) -> bool {
    &&& text_is(r.record_name, f.record_name)
    &&& text_is(r.record_type, f.record_type)
    &&& text_is(r.record_value, f.record_value)
    &&& r.time_to_live_seconds == f.time_to_live_seconds
}

pub open spec fn records_from(rs: Seq<NameResolutionRecord>, fs: Seq<RecordFields>) -> bool {
    &&& rs.len() == fs.len()
    &&& forall|i: int| 0 <= i < rs.len() ==> record_from(#[trigger] rs[i], fs[i])
}

pub open spec fn alternates_from(ds: Seq<String>, fs: Seq<Option<String>>) -> bool {
    &&& ds.len() == fs.len()
    &&& forall|i: int| 0 <= i < ds.len() ==> text_is(#[trigger] ds[i], fs[i])
}

pub open spec fn resolution_from(
    c: Option<NameResolutionConfiguration>,
    f: Option<NameResolutionFields>,
) -> bool {
    match (c, f) {
        (None, None) => true,
        (Some(x), Some(y)) => text_is(x.zone_id, y.zone_id) && y.records is Some && records_from(
            x.records@,
            y.records.unwrap()@,
        ),
        _ => false,
    }
}

pub open spec fn acquisition_from(
    a: Option<DomainAcquisitionInstruction>,
    f: Option<DomainAcquisitionFields>,
) -> bool {
    match (a, f) {
        (None, None) => true,
        (Some(x), Some(y)) => text_is(x.registrar_identifier, y.registrar_identifier)
            && text_is(x.domain_name, y.domain_name),
        _ => false,
    }
}

/// `c` holds exactly the values that the fields of `m` carry.
pub open spec fn decoded_from(c: SporeConfiguration, m: SporeMessage) -> bool {
    let s = m.site_identity.unwrap();
    let a = m.deployment_artifact.unwrap();
    let d = m.domain_assignment.unwrap();
    let h = m.hosting_designation.unwrap();
    let r = m.repository.unwrap();
    &&& text_is(c.site_identity.canonical_id, s.canonical_id)
    &&& text_is(c.site_identity.human_readable_name, s.human_readable_name)
    &&& s.intent == Some(c.site_identity.intent.tag())
    &&& a.kind == Some(c.deployment_artifact.kind.tag())
    &&& text_is(c.deployment_artifact.output_path, a.output_path)
    &&& a.framework == Some(c.deployment_artifact.framework.tag())
    &&& text_is(c.domain_assignment.canonical_domain, d.canonical_domain)
    &&& alternates_from(c.domain_assignment.alternate_domains@, d.alternate_domains.unwrap()@)
    &&& h.provider == Some(c.hosting_designation.provider.tag())
    &&& h.authority_role == Some(c.hosting_designation.authority_role.tag())
    &&& c.hosting_designation.external_binding_reference@ == match h.external_binding_reference {
        OptionalText::Text(v) => v@,
        _ => Seq::<char>::empty(),
    }
    &&& text_is(c.hosting_designation.project_name, h.project_name)
    &&& text_is(c.hosting_designation.production_branch, h.production_branch)
    &&& text_is(c.repository.slug, r.slug)
    &&& text_is(c.repository.default_branch, r.default_branch)
    &&& resolution_from(c.name_resolution, m.name_resolution)
    &&& acquisition_from(c.domain_acquisition, m.domain_acquisition)
}

// ---- decoding ----

fn read_text(t: &Option<String>, f: Field) -> (r: Result<String, DecodeError>)
    ensures
        match r {
            Ok(v) => text_is(v, *t),
            Err(e) => t is None && e == DecodeError::MissingField(f),
        },
        t is Some ==> r is Ok,
{
    match t {
        Some(s) => Ok(s.clone()),
        None => Err(DecodeError::MissingField(f)),
    }
}

fn read_nonempty(t: &Option<String>, f: Field) -> (r: Result<String, DecodeError>)
    ensures
        match r {
            Ok(v) => text_is(v, *t) && nonempty_fault(*t, f) is None,
            Err(e) => nonempty_fault(*t, f) == Some(e),
        },
{
    match t {
        Some(s) => {
            if s.as_str().is_empty() {
                Err(DecodeError::EmptyField(f))
            } else {
                Ok(s.clone())
            }
        },
        None => Err(DecodeError::MissingField(f)),
    }
}


fn read_alternates(l: &Option<Vec<Option<String>>>) -> (r: Result<Vec<String>, DecodeError>)
    ensures
        match r {
            Ok(v) => alternates_readable(*l) && alternates_from(v@, l.unwrap()@),
            Err(e) => !alternates_readable(*l) && e == DecodeError::MissingField(
                Field::AlternateDomains,
            ),
        },
{
    match l {
        None => Err(DecodeError::MissingField(Field::AlternateDomains)),
        Some(items) => {
            let mut out: Vec<String> = Vec::new();
            let mut i: usize = 0;
            while i < items.len()
                invariant
                    i <= items@.len(),
                    l == Some(*items),
                    out@.len() == i,
                    forall|j: int| 0 <= j < i ==> (#[trigger] items@[j]) is Some,
                    forall|j: int| 0 <= j < i ==> text_is(#[trigger] out@[j], items@[j]),
                decreases items@.len() - i,
            {
                match &items[i] {
                    Some(d) => out.push(d.clone()),
                    None => {
                        return Err(DecodeError::MissingField(Field::AlternateDomains));
                    },
                }
                i += 1;
            }
            Ok(out)
        },
    }
}

fn read_record(f: &RecordFields) -> (r: Result<NameResolutionRecord, DecodeError>)
    ensures
        match r {
            Ok(v) => record_fault(*f) is None && record_from(v, *f),
            Err(e) => record_fault(*f) == Some(e),
        },
{
    let record_name = read_text(&f.record_name, Field::RecordName)?;
    let record_type = read_text(&f.record_type, Field::RecordType)?;
    let record_value = read_text(&f.record_value, Field::RecordValue)?;
    Ok(NameResolutionRecord {
        record_name,
        record_type,
        record_value,
        time_to_live_seconds: f.time_to_live_seconds,
    })
}

fn read_records(n: &NameResolutionFields) -> (r: Result<Vec<NameResolutionRecord>, DecodeError>)
    ensures
        match r {
            Ok(v) => records_list_fault(n.records) is None && records_from(v@, n.records.unwrap()@),
            Err(e) => records_list_fault(n.records) == Some(e),
        },
{
    match &n.records {
        None => Err(DecodeError::MissingField(Field::Records)),
        Some(items) => {
            let mut out: Vec<NameResolutionRecord> = Vec::new();
            let mut i: usize = 0;
            while i < items.len()
                invariant
                    i <= items@.len(),
                    n.records == Some(*items),
                    out@.len() == i,
                    records_fault(items@, i as int) is None,
                    forall|j: int| 0 <= j < i ==> record_from(#[trigger] out@[j], items@[j]),
                decreases items@.len() - i,
            {
                let rec = read_record(&items[i]);
                match rec {
                    Ok(v) => out.push(v),
                    Err(e) => {
                        assert(records_fault(items@, i + 1) == Some(e));
                        proof {
                            lemma_records_fault_stays(items@, i + 1, items@.len() as int);
                        }
                        return Err(e);
                    },
                }
                i += 1;
            }
            Ok(out)
        },
    }
}

fn read_resolution(n: &NameResolutionFields) -> (r: Result<NameResolutionConfiguration, DecodeError>)
    ensures
        match r {
            Ok(c) => name_resolution_fault(*n) is None && resolution_from(Some(c), Some(*n)),
            Err(e) => name_resolution_fault(*n) == Some(e),
        },
{
    let zone_id = read_text(&n.zone_id, Field::ZoneId)?;
    let records = read_records(n)?;
    Ok(NameResolutionConfiguration { zone_id, records })
}

fn read_tag(t: Option<u16>, f: Field) -> (r: Result<u16, DecodeError>)
    ensures
        match r {
            Ok(v) => t == Some(v),
            Err(e) => t is None && e == DecodeError::MissingField(f),
        },
{
    match t {
        Some(v) => Ok(v),
        None => Err(DecodeError::MissingField(f)),
    }
}

proof fn lemma_records_fault_stays(rs: Seq<RecordFields>, i: int, n: int)
    requires
        0 <= i <= n,
        records_fault(rs, i) is Some,
    ensures
        records_fault(rs, n) == records_fault(rs, i),
    decreases n - i,
{
    if i < n {
        lemma_records_fault_stays(rs, i, n - 1);
    }
}

impl SporeConfiguration {
    /// Decodes one message. It succeeds exactly when the message has no fault,
    /// and then the configuration holds the message's values; otherwise the
    /// error is the first fault in schema order.
    pub fn from_reader(m: &SporeMessage) -> (r: Result<SporeConfiguration, DecodeError>)
        ensures
            match r {
                Ok(c) => first_fault(*m) is None && decoded_from(c, *m),
                Err(e) => first_fault(*m) == Some(e),
            },
    {
        let s = match &m.site_identity {
            Some(s) => s,
            None => { return Err(DecodeError::MissingField(Field::SiteIdentity)); },
        };
        let a = match &m.deployment_artifact {
            Some(a) => a,
            None => { return Err(DecodeError::MissingField(Field::DeploymentArtifact)); },
        };
        let d = match &m.domain_assignment {
            Some(d) => d,
            None => { return Err(DecodeError::MissingField(Field::DomainAssignment)); },
        };
        let h = match &m.hosting_designation {
            Some(h) => h,
            None => { return Err(DecodeError::MissingField(Field::HostingDesignation)); },
        };
        let rp = match &m.repository {
            Some(rp) => rp,
            None => { return Err(DecodeError::MissingField(Field::Repository)); },
        };

        let canonical_id = read_nonempty(&s.canonical_id, Field::CanonicalId)?;
        let human_readable_name = read_text(&s.human_readable_name, Field::HumanReadableName)?;
        let intent = SiteIntent::from_reader(read_tag(s.intent, Field::Intent)?)?;
        let site_identity = SiteIdentity { canonical_id, human_readable_name, intent };

        let kind = DeploymentArtifactKind::from_reader(read_tag(a.kind, Field::ArtifactKind)?)?;
        let output_path = read_text(&a.output_path, Field::OutputPath)?;
        let framework = FrameworkHint::from_reader(read_tag(a.framework, Field::Framework)?)?;
        let deployment_artifact = DeploymentArtifact { kind, output_path, framework };

        let alternate_domains = read_alternates(&d.alternate_domains)?;
        let canonical_domain = read_nonempty(&d.canonical_domain, Field::CanonicalDomain)?;
        let domain_assignment = DomainAssignment { canonical_domain, alternate_domains };

        let provider = HostingProvider::from_reader(read_tag(h.provider, Field::Provider)?)?;
        let authority_role = HostingAuthorityRole::from_reader(
            read_tag(h.authority_role, Field::AuthorityRole)?,
        )?;
        let external_binding_reference = match &h.external_binding_reference {
            OptionalText::Text(v) => v.clone(),
            OptionalText::Absent => String::new(),
            OptionalText::Unreadable => {
                return Err(DecodeError::MissingField(Field::ExternalBindingReference));
            },
        };
        let project_name = read_text(&h.project_name, Field::ProjectName)?;
        let production_branch = read_text(&h.production_branch, Field::ProductionBranch)?;
        let hosting_designation = HostingDesignation {
            provider,
            authority_role,
            external_binding_reference,
            project_name,
            production_branch,
        };

        let slug = read_text(&rp.slug, Field::RepositorySlug)?;
        let default_branch = read_text(&rp.default_branch, Field::DefaultBranch)?;
        let repository = SourceRepository { slug, default_branch };

        let name_resolution = match &m.name_resolution {
            None => None,
            Some(n) => Some(read_resolution(n)?),
        };

        let domain_acquisition = match &m.domain_acquisition {
            None => None,
            Some(q) => {
                let registrar_identifier = read_text(
                    &q.registrar_identifier,
                    Field::RegistrarIdentifier,
                )?;
                let domain_name = read_text(&q.domain_name, Field::DomainName)?;
                Some(DomainAcquisitionInstruction { registrar_identifier, domain_name })
            },
        };

        Ok(SporeConfiguration {
            site_identity,
            deployment_artifact,
            domain_assignment,
            hosting_designation,
            repository,
            name_resolution,
            domain_acquisition,
        })
    }
}


// ---- encoding ----

/// `m` is the message that carries `c`: every section is present and every
/// field holds the value of `c`.
pub open spec fn encoded_as(c: SporeConfiguration, m: SporeMessage) -> bool {
    &&& m.site_identity is Some
    &&& m.deployment_artifact is Some
    &&& m.domain_assignment is Some
    &&& m.domain_assignment.unwrap().alternate_domains is Some
    &&& m.hosting_designation is Some
    &&& m.hosting_designation.unwrap().external_binding_reference is Text
    &&& m.repository is Some
    &&& decoded_from(c, m)
}

fn encode_resolution(n: &NameResolutionConfiguration) -> (f: NameResolutionFields)
    ensures
        resolution_from(Some(*n), Some(f)),
{
    let recs = &n.records;
    let mut records: Vec<RecordFields> = Vec::new();
    let mut k: usize = 0;
    while k < recs.len()
        invariant
            k <= recs@.len(),
            records@.len() == k,
            forall|j: int| 0 <= j < k ==> record_from(#[trigger] recs@[j], records@[j]),
        decreases recs@.len() - k,
    {
        let r = &recs[k];
        records.push(
            RecordFields {
                record_name: Some(r.record_name.clone()),
                record_type: Some(r.record_type.clone()),
                record_value: Some(r.record_value.clone()),
                time_to_live_seconds: r.time_to_live_seconds,
            },
        );
        k += 1;
    }
    NameResolutionFields { zone_id: Some(n.zone_id.clone()), records: Some(records) }
}

impl SporeConfiguration {
    /// The message that carries this configuration.
    pub fn to_message(&self) -> (m: SporeMessage)
        ensures
            encoded_as(*self, m),
    {
        let alts = &self.domain_assignment.alternate_domains;
        let mut alternate_domains: Vec<Option<String>> = Vec::new();
        let mut i: usize = 0;
        while i < alts.len()
            invariant
                i <= alts@.len(),
                alternate_domains@.len() == i,
                forall|j: int| 0 <= j < i ==> text_is(#[trigger] alts@[j], alternate_domains@[j]),
            decreases alts@.len() - i,
        {
            alternate_domains.push(Some(alts[i].clone()));
            i += 1;
        }
        let name_resolution = match &self.name_resolution {
            None => None,
            Some(n) => Some(encode_resolution(n)),
        };
        let domain_acquisition = match &self.domain_acquisition {
            None => None,
            Some(q) => Some(
                DomainAcquisitionFields {
                    registrar_identifier: Some(q.registrar_identifier.clone()),
                    domain_name: Some(q.domain_name.clone()),
                },
            ),
        };
        let si = &self.site_identity;
        let da = &self.deployment_artifact;
        let hd = &self.hosting_designation;
        SporeMessage {
            site_identity: Some(
                SiteIdentityFields {
                    canonical_id: Some(si.canonical_id.clone()),
                    human_readable_name: Some(si.human_readable_name.clone()),
                    intent: Some(si.intent.to_tag()),
                },
            ),
            deployment_artifact: Some(
                DeploymentArtifactFields {
                    kind: Some(da.kind.to_tag()),
                    output_path: Some(da.output_path.clone()),
                    framework: Some(da.framework.to_tag()),
                },
            ),
            domain_assignment: Some(
                DomainAssignmentFields {
                    canonical_domain: Some(self.domain_assignment.canonical_domain.clone()),
                    alternate_domains: Some(alternate_domains),
                },
            ),
            hosting_designation: Some(
                HostingDesignationFields {
                    provider: Some(hd.provider.to_tag()),
                    authority_role: Some(hd.authority_role.to_tag()),
                    external_binding_reference: OptionalText::Text(
                        hd.external_binding_reference.clone(),
                    ),
                    project_name: Some(hd.project_name.clone()),
                    production_branch: Some(hd.production_branch.clone()),
                },
            ),
            repository: Some(
                RepositoryFields {
                    slug: Some(self.repository.slug.clone()),
                    default_branch: Some(self.repository.default_branch.clone()),
                },
            ),
            name_resolution,
            domain_acquisition,
        }
    }
}

// ---- laws of the codec ----

proof fn lemma_encoded_records_fault_free(c: Seq<NameResolutionRecord>, fs: Seq<RecordFields>, n: int)
    requires
        records_from(c, fs),
        0 <= n <= fs.len(),
    ensures
        records_fault(fs, n) is None,
    decreases n,
{
    if n > 0 {
        lemma_encoded_records_fault_free(c, fs, n - 1);
        assert(record_from(c[n - 1], fs[n - 1]));
    }
}

proof fn lemma_encoded_resolution_fault_free(c: SporeConfiguration, m: SporeMessage)
    requires
        decoded_from(c, m),
    ensures
        resolution_fault(m.name_resolution) is None,
{
    if let Some(f) = m.name_resolution {
        let x = c.name_resolution.unwrap();
        let rs = f.records.unwrap();
        lemma_encoded_records_fault_free(x.records@, rs@, rs@.len() as int);
    }
}

proof fn lemma_same_resolution(
    a: Option<NameResolutionConfiguration>,
    b: Option<NameResolutionConfiguration>,
    f: Option<NameResolutionFields>,
)
    requires
        resolution_from(a, f),
        resolution_from(b, f),
    ensures
        same_resolution(b, a),
{
    if let (Some(x), Some(y), Some(g)) = (a, b, f) {
        let rs = g.records.unwrap();
        assert forall|i: int| 0 <= i < y.records@.len() implies same_record(
            #[trigger] y.records@[i],
            x.records@[i],
        ) by {
            assert(record_from(y.records@[i], rs@[i]));
            assert(record_from(x.records@[i], rs@[i]));
        }
    }
}

proof fn lemma_enum_tags_in_range(c: SporeConfiguration)
    ensures
        c.site_identity.intent.tag() < 4,
        c.deployment_artifact.kind.tag() < 3,
        c.deployment_artifact.framework.tag() < 5,
        c.hosting_designation.provider.tag() < 4,
        c.hosting_designation.authority_role.tag() < 4,
{
}

/// Encoding a valid configuration and decoding the message yields a
/// configuration equal to it in every field.
pub proof fn lemma_round_trip(c: SporeConfiguration, m: SporeMessage, d: SporeConfiguration)
    requires
        c.valid(),
        encoded_as(c, m),
        decoded_from(d, m),
    ensures
        first_fault(m) is None,
        d.same_as(&c),
{
    let alts = m.domain_assignment.unwrap().alternate_domains.unwrap();
    assert forall|i: int| 0 <= i < alts@.len() implies (#[trigger] alts@[i]) is Some by {
        assert(text_is(c.domain_assignment.alternate_domains@[i], alts@[i]));
    }
    lemma_encoded_resolution_fault_free(c, m);
    lemma_enum_tags_in_range(c);
    lemma_same_resolution(c.name_resolution, d.name_resolution, m.name_resolution);
    assert(strs_view(d.domain_assignment.alternate_domains@) =~= strs_view(
        c.domain_assignment.alternate_domains@,
    )) by {
        let ds = d.domain_assignment.alternate_domains@;
        let cs = c.domain_assignment.alternate_domains@;
        assert forall|i: int| 0 <= i < ds.len() implies ds[i]@ == cs[i]@ by {
            assert(text_is(ds[i], alts@[i]));
            assert(text_is(cs[i], alts@[i]));
        }
    }
    assert(d.site_identity.intent == c.site_identity.intent);
    assert(d.deployment_artifact.kind == c.deployment_artifact.kind);
    assert(d.deployment_artifact.framework == c.deployment_artifact.framework);
    assert(d.hosting_designation.provider == c.hosting_designation.provider);
    assert(d.hosting_designation.authority_role == c.hosting_designation.authority_role);
}


/// The number of variants of an enumerated field; zero for other fields.
pub open spec fn variant_count(f: Field) -> u16 {
    match f {
        Field::Intent => 4,
        Field::ArtifactKind => 3,
        Field::Framework => 5,
        Field::Provider => 4,
        Field::AuthorityRole => 4,
        _ => 0,
    }
}

/// `m` with the tag of the enumerated field `f` replaced by `t`.
pub open spec fn with_tag(m: SporeMessage, f: Field, t: u16) -> SporeMessage {
    let s = m.site_identity.unwrap();
    let a = m.deployment_artifact.unwrap();
    let h = m.hosting_designation.unwrap();
    match f {
        Field::Intent => SporeMessage { site_identity: Some(SiteIdentityFields { intent: Some(t), ..s }), ..m },
        Field::ArtifactKind => SporeMessage {
            deployment_artifact: Some(DeploymentArtifactFields { kind: Some(t), ..a }),
            ..m
        },
        Field::Framework => SporeMessage {
            deployment_artifact: Some(DeploymentArtifactFields { framework: Some(t), ..a }),
            ..m
        },
        Field::Provider => SporeMessage {
            hosting_designation: Some(HostingDesignationFields { provider: Some(t), ..h }),
            ..m
        },
        Field::AuthorityRole => SporeMessage {
            hosting_designation: Some(HostingDesignationFields { authority_role: Some(t), ..h }),
            ..m
        },
        _ => m,
    }
}

/// Decoding the message of a valid configuration in which one enumerated
/// field carries a tag that names no variant fails, and the error names that
/// field and tag.
pub proof fn lemma_unknown_variant_rejected(c: SporeConfiguration, m: SporeMessage, f: Field, t: u16)
    requires
        c.valid(),
        encoded_as(c, m),
        variant_count(f) > 0,
        t >= variant_count(f),
    ensures
        first_fault(with_tag(m, f, t)) == Some(DecodeError::UnknownVariant(f, t)),
{
    let alts = m.domain_assignment.unwrap().alternate_domains.unwrap();
    assert forall|i: int| 0 <= i < alts@.len() implies (#[trigger] alts@[i]) is Some by {
        assert(text_is(c.domain_assignment.alternate_domains@[i], alts@[i]));
    }
    lemma_encoded_resolution_fault_free(c, m);
    lemma_enum_tags_in_range(c);
}

} // verus!
