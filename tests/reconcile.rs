use spore::decode::{
    DeploymentArtifactFields, DomainAssignmentFields, HostingDesignationFields, OptionalText,
    RepositoryFields, SiteIdentityFields, SporeMessage,
};
use spore::listing::{listed_names, present_members};
use spore::model::{
    DeploymentArtifact, DeploymentArtifactKind, DomainAssignment, FrameworkHint, HostingAuthorityRole,
    HostingDesignation, HostingProvider, SiteIdentity, SiteIntent,
    SourceRepository, SporeConfiguration,
};
use spore::reconcile::{
    check_credentials, listed_contains, CloudflarePages, Command, ControlPlaneFailure, Credential,
    Credentials, Event, Operation, ProjectVerb, ReconcileError, Reconciler,
};

fn s(v: &str) -> String {
    v.to_string()
}

fn config(project: &str, branch: &str, default_branch: &str, slug: &str, alternates: &[&str]) -> SporeConfiguration {
    SporeConfiguration {
        site_identity: SiteIdentity { canonical_id: s("acme"), human_readable_name: s("Acme"), intent: SiteIntent::IdentityIndex },
        deployment_artifact: DeploymentArtifact {
            kind: DeploymentArtifactKind::StaticContent,
            output_path: s(""),
            framework: FrameworkHint::Astro,
        },
        domain_assignment: DomainAssignment {
            canonical_domain: s("example.com"),
            alternate_domains: alternates.iter().map(|a| s(a)).collect(),
        },
        hosting_designation: HostingDesignation {
            provider: HostingProvider::PlatformManaged,
            authority_role: HostingAuthorityRole::DesignatedOrigin,
            external_binding_reference: s(""),
            project_name: s(project),
            production_branch: s(branch),
        },
        repository: SourceRepository { slug: s(slug), default_branch: s(default_branch) },
        name_resolution: None,
        domain_acquisition: None,
    }
}

fn creds() -> Credentials {
    Credentials { api_token: Some(s("t")), account_id: Some(s("a")) }
}

/// A control plane that remembers what was created and attached.
struct FakePlane {
    projects: Vec<String>,
    domains: Vec<(String, String)>,
    calls: Vec<String>,
}

impl FakePlane {
    fn run(&mut self, c: &SporeConfiguration) -> Result<(), ReconcileError> {
        let (mut rec, mut cmd) = Reconciler::start(c, &creds());
        loop {
            let ev = match cmd {
                Command::ListProjects => Event::Projects(self.projects.clone()),
                Command::Apply(a) => {
                    let verb = if a.verb == ProjectVerb::Create { "create" } else { "update" };
                    self.calls.push(format!("{} {} {}", verb, a.project_name, a.production_branch));
                    if !self.projects.contains(&a.project_name) {
                        self.projects.push(a.project_name.clone());
                    }
                    Event::Succeeded
                }
                Command::ListDomains(p) => {
                    Event::Domains(self.domains.iter().filter(|(q, _)| *q == p).map(|(_, d)| d.clone()).collect())
                }
                Command::Attach(p, d) => {
                    self.calls.push(format!("attach {} {}", p, d));
                    self.domains.push((p, d));
                    Event::Succeeded
                }
                Command::Finish(r) => return r,
            };
            cmd = rec.step(ev);
        }
    }
}

#[test]
fn branch_falls_back_to_main() {
    let c = config("", "", "", "", &[]);
    assert_eq!(CloudflarePages::new(&c).production_branch(), "main");
}

#[test]
fn branch_falls_back_to_repository_default() {
    let c = config("", "", "develop", "", &[]);
    assert_eq!(CloudflarePages::new(&c).production_branch(), "develop");
}

#[test]
fn explicit_branch_wins() {
    for default_branch in ["", "develop"] {
        let c = config("", "release", default_branch, "", &[]);
        assert_eq!(CloudflarePages::new(&c).production_branch(), "release");
    }
}

#[test]
fn project_name_falls_back_to_site_id() {
    let c = config("", "", "", "", &[]);
    assert_eq!(CloudflarePages::new(&c).project_name(), "acme");
    let c = config("site", "", "", "", &[]);
    assert_eq!(CloudflarePages::new(&c).project_name(), "site");
}

#[test]
fn framework_and_build_params() {
    let mut c = config("", "", "", "", &[]);
    assert_eq!(CloudflarePages::new(&c).cf_framework(), "astro");
    c.deployment_artifact.framework = FrameworkHint::NoFramework;
    assert_eq!(CloudflarePages::new(&c).cf_framework(), "none");
    c.deployment_artifact.output_path = s("dist");
    let (command, output) = CloudflarePages::new(&c).build_params();
    assert!(command.is_none());
    assert_eq!(output, "dist");
}

#[test]
fn domains_attach_in_order_skipping_attached() {
    let c = config("", "", "", "", &["www.example.com", "blog.example.com"]);
    let pages = CloudflarePages::new(&c);
    assert_eq!(pages.pending_domains(&vec![]), vec![s("example.com"), s("www.example.com"), s("blog.example.com")]);
    assert_eq!(pages.pending_domains(&vec![s("www.example.com")]), vec![s("example.com"), s("blog.example.com")]);
    assert!(pages
        .pending_domains(&vec![s("blog.example.com"), s("example.com"), s("www.example.com")])
        .is_empty());
}

#[test]
fn create_and_update_arguments() {
    let mut c = config("", "", "", "acme/site", &[]);
    c.deployment_artifact.output_path = s("public");
    let pages = CloudflarePages::new(&c);
    let create = pages.plan_project(false);
    assert_eq!(
        create.to_args(),
        vec![
            "pages", "project", "create", "acme", "--production-branch", "main", "--build-output", "public",
            "--framework", "astro", "--source=github", "--repo", "acme/site",
        ]
    );
    let update = pages.plan_project(true);
    assert_eq!(
        update.to_args(),
        vec!["pages", "project", "update", "acme", "--production-branch", "main", "--build-output", "public"]
    );
    let c = config("", "", "", "", &[]);
    let create = CloudflarePages::new(&c).plan_project(false);
    assert_eq!(
        create.to_args(),
        vec!["pages", "project", "create", "acme", "--production-branch", "main", "--framework", "astro", "--source=none"]
    );
}

#[test]
fn existence_is_exact_match() {
    let listed = vec![s("acme-dev"), s("Acme")];
    assert!(!listed_contains(&listed, &s("acme")));
    assert!(listed_contains(&listed, &s("Acme")));
    assert!(!listed_contains(&vec![], &s("acme")));
}

#[test]
fn missing_credentials_stop_before_any_call() {
    let c = config("", "", "", "", &[]);
    let none = Credentials { api_token: None, account_id: None };
    assert_eq!(check_credentials(&none), Err(ReconcileError::MissingCredential(Credential::ApiToken)));
    let no_account = Credentials { api_token: Some(s("t")), account_id: None };
    let (_, cmd) = Reconciler::start(&c, &no_account);
    match cmd {
        Command::Finish(r) => assert_eq!(r, Err(ReconcileError::MissingCredential(Credential::AccountId))),
        other => panic!("unexpected {:?}", other),
    }
    assert_eq!(check_credentials(&creds()), Ok(()));
}

#[test]
fn second_run_is_quiet() {
    let c = config("", "", "", "", &["www.example.com", "blog.example.com"]);
    let mut plane = FakePlane { projects: vec![], domains: vec![(s("acme"), s("www.example.com"))], calls: vec![] };
    assert_eq!(plane.run(&c), Ok(()));
    assert_eq!(plane.calls, vec!["create acme main", "attach acme example.com", "attach acme blog.example.com"]);
    plane.calls.clear();
    assert_eq!(plane.run(&c), Ok(()));
    assert_eq!(plane.calls, vec!["update acme main"]);
}

fn failure(op: Operation, domain: Option<&str>, cause: &str) -> Result<(), ReconcileError> {
    Err(ReconcileError::ControlPlane(ControlPlaneFailure {
        site: s("acme"),
        operation: op,
        domain: domain.map(s),
        cause: s(cause),
    }))
}

#[test]
fn failed_calls_end_the_run() {
    let c = config("", "", "", "", &["www.example.com", "blog.example.com"]);
    let (mut rec, _) = Reconciler::start(&c, &creds());
    match rec.step(Event::Failed(s("no network"))) {
        Command::Finish(r) => assert_eq!(r, failure(Operation::ListProjects, None, "no network")),
        other => panic!("unexpected {:?}", other),
    }
    let (mut rec, _) = Reconciler::start(&c, &creds());
    rec.step(Event::Projects(vec![s("acme")]));
    match rec.step(Event::Failed(s("exit status 1"))) {
        Command::Finish(r) => assert_eq!(r, failure(Operation::UpdateProject, None, "exit status 1")),
        other => panic!("unexpected {:?}", other),
    }
    let (mut rec, _) = Reconciler::start(&c, &creds());
    rec.step(Event::Projects(vec![]));
    rec.step(Event::Succeeded);
    match rec.step(Event::Domains(vec![])) {
        Command::Attach(p, d) => assert_eq!((p, d), (s("acme"), s("example.com"))),
        other => panic!("unexpected {:?}", other),
    }
    match rec.step(Event::Succeeded) {
        Command::Attach(p, d) => assert_eq!((p, d), (s("acme"), s("www.example.com"))),
        other => panic!("unexpected {:?}", other),
    }
    match rec.step(Event::Failed(s("exit status 2"))) {
        Command::Finish(r) => assert_eq!(r, failure(Operation::AttachDomain, Some("www.example.com"), "exit status 2")),
        other => panic!("unexpected {:?}", other),
    }
}

#[test]
fn present_members_keep_order() {
    let members = Some(vec![Some(s("a")), None, Some(s("b"))]);
    assert_eq!(present_members(&members), vec![s("a"), s("b")]);
    assert!(present_members(&None).is_empty());
}

#[test]
fn end_to_end_single_message() {
    let m = SporeMessage {
        site_identity: Some(SiteIdentityFields { canonical_id: Some(s("acme")), human_readable_name: Some(s("")), intent: Some(0) }),
        deployment_artifact: Some(DeploymentArtifactFields { kind: Some(0), output_path: Some(s("")), framework: Some(0) }),
        domain_assignment: Some(DomainAssignmentFields { canonical_domain: Some(s("acme.dev")), alternate_domains: Some(vec![]) }),
        hosting_designation: Some(HostingDesignationFields {
            provider: Some(0),
            authority_role: Some(0),
            external_binding_reference: OptionalText::Absent,
            project_name: Some(s("")),
            production_branch: Some(s("")),
        }),
        repository: Some(RepositoryFields { slug: Some(s("")), default_branch: Some(s("main")) }),
        name_resolution: None,
        domain_acquisition: None,
    };
    let c = SporeConfiguration::from_reader(&m).unwrap();
    let mut plane = FakePlane { projects: vec![], domains: vec![], calls: vec![] };
    assert_eq!(plane.run(&c), Ok(()));
    assert_eq!(plane.calls, vec!["create acme main", "attach acme acme.dev"]);
    assert_eq!(plane.projects, vec![s("acme")]);
    assert_eq!(plane.domains, vec![(s("acme"), s("acme.dev"))]);
}

#[test]
fn listings_are_read_from_json() {
    let names = listed_names(r#"[{"name":"acme"},{"id":3},{"name":7},{"name":"blog"}]"#, "name").unwrap();
    assert_eq!(names, vec![s("acme"), s("blog")]);
    assert_eq!(listed_names("{\"name\":\"x\"}", "name").unwrap(), Vec::<String>::new());
    assert!(listed_names("[{\"name\":", "name").is_err());
    let domains = listed_names(r#"[{"domain":"acme.dev","status":"active"}]"#, "domain").unwrap();
    assert_eq!(domains, vec![s("acme.dev")]);
}
