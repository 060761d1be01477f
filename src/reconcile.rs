use vstd::prelude::*;

use crate::model::{DeploymentArtifactKind, FrameworkHint, SporeConfiguration, strs_view};

verus! {

/// The two values the platform-managed provider needs from its environment.
#[derive(Clone, Copy, Debug, PartialEq, Eq, Structural)]
pub enum Credential {
    ApiToken,
    AccountId,
}

/// The credentials handed to a reconciliation; `None` is an unset value.
#[derive(Clone, Debug)]
pub struct Credentials {
    pub api_token: Option<String>,
    pub account_id: Option<String>,
}

/// A call into the control plane.
#[derive(Clone, Copy, Debug, PartialEq, Eq, Structural)]
pub enum Operation {
    ListProjects,
    CreateProject,
    UpdateProject,
    ListDomains,
    AttachDomain,
}

/// A failed control-plane call: the site whose configuration was being
/// reconciled, the call, the domain it attached (for an attach), and the
/// cause the control plane reported.
#[derive(Clone, Debug, PartialEq, Eq)]
pub struct ControlPlaneFailure {
    pub site: String,
    pub operation: Operation,
    pub domain: Option<String>,
    pub cause: String,
}

/// Why a reconciliation stopped.
#[derive(Clone, Debug, PartialEq, Eq)]
pub enum ReconcileError {
    /// A credential is unset; no control-plane call was made.
    MissingCredential(Credential),
    /// A control-plane call failed; the reconciliation stopped there.
    ControlPlane(ControlPlaneFailure),
}

#[derive(Clone, Copy, Debug, PartialEq, Eq, Structural)]
pub enum ProjectVerb {
    Create,
    Update,
}

/// The create-or-update action for a project. Repository and framework are
/// bound only when the project is created.
#[derive(Clone, Debug)]
pub struct ProjectAction {
    pub verb: ProjectVerb,
    pub project_name: String,
    pub production_branch: String,
    pub build_output: Option<String>,
    pub build_command: Option<String>,
    pub framework: Option<String>,
    pub repository: Option<String>,
}

/// Reconciles one configuration against the platform-managed hosting provider.
pub struct CloudflarePages<'a> {
    pub config: &'a SporeConfiguration,
}

// ---- the desired state ----

pub open spec fn main_branch() -> Seq<char> {
    seq!['m', 'a', 'i', 'n']
}

/// The project name: the explicit one, else the site id.
pub open spec fn effective_project_name(c: SporeConfiguration) -> Seq<char> {
    if c.hosting_designation.project_name@.len() == 0 {
        c.site_identity.canonical_id@
    } else {
        c.hosting_designation.project_name@
    }
}

/// The production branch: the explicit one, else the repository's default
/// branch, else `main`.
pub open spec fn effective_branch(c: SporeConfiguration) -> Seq<char> {
    if c.hosting_designation.production_branch@.len() > 0 {
        c.hosting_designation.production_branch@
    } else if c.repository.default_branch@.len() > 0 {
        c.repository.default_branch@
    } else {
        main_branch()
    }
}

pub open spec fn framework_name(f: FrameworkHint) -> Seq<char> {
    match f {
        FrameworkHint::NoFramework => seq!['n', 'o', 'n', 'e'],
        FrameworkHint::Hugo => seq!['h', 'u', 'g', 'o'],
        FrameworkHint::Next => seq!['n', 'e', 'x', 't'],
        FrameworkHint::Astro => seq!['a', 's', 't', 'r', 'o'],
        FrameworkHint::Nuxt => seq!['n', 'u', 'x', 't'],
    }
}

/// The build command for an artifact kind: none of the current kinds has one,
/// building belongs to the external pipeline.
pub open spec fn build_command_of(k: DeploymentArtifactKind) -> Option<Seq<char>> {
    None
}

pub open spec fn opt_view(o: Option<String>) -> Option<Seq<char>> {
    match o {
        Some(s) => Some(s@),
        None => None,
    }
}

/// The action that brings the project to the desired state, given whether it
/// already exists.
pub open spec fn planned(a: ProjectAction, c: SporeConfiguration, present: bool) -> bool {
    &&& a.verb == (if present {
        ProjectVerb::Update
    } else {
        ProjectVerb::Create
    })
    &&& a.project_name@ == effective_project_name(c)
    &&& a.production_branch@ == effective_branch(c)
    &&& opt_view(a.build_output) == (if c.deployment_artifact.output_path@.len() == 0 {
        None
    } else {
        Some(c.deployment_artifact.output_path@)
    })
    &&& opt_view(a.build_command) == build_command_of(c.deployment_artifact.kind)
    &&& opt_view(a.framework) == (if present {
        None
    } else {
        Some(framework_name(c.deployment_artifact.framework))
    })
    &&& opt_view(a.repository) == (if present || c.repository.slug@.len() == 0 {
        None
    } else {
        Some(c.repository.slug@)
    })
}

/// The domains the configuration asks for: the canonical one, then the
/// alternates in order.
pub open spec fn desired_domains(c: SporeConfiguration) -> Seq<Seq<char>> {
    seq![c.domain_assignment.canonical_domain@] + strs_view(c.domain_assignment.alternate_domains@)
}

/// The domains of `ds` that `attached` does not hold, in the order of `ds`.
pub open spec fn pending(ds: Seq<Seq<char>>, attached: Seq<Seq<char>>) -> Seq<Seq<char>>
    decreases ds.len(),
{
    if ds.len() == 0 {
        Seq::empty()
    } else {
        let rest = pending(ds.drop_last(), attached);
        if attached.contains(ds.last()) {
            rest
        } else {
            rest.push(ds.last())
        }
    }
}

pub open spec fn credentials_fault(c: Credentials) -> Option<ReconcileError> {
    if c.api_token is None {
        Some(ReconcileError::MissingCredential(Credential::ApiToken))
    } else if c.account_id is None {
        Some(ReconcileError::MissingCredential(Credential::AccountId))
    } else {
        None
    }
}

// ---- decisions ----

fn literal(s: &str) -> (r: String)
    ensures
        r@ == s@,
{
    s.to_owned()
}

fn is_blank(s: &String) -> (r: bool)
    ensures
        r == (s@.len() == 0),
{
    s.as_str().is_empty()
}

/// Checks that both credentials are set, the API token first.
pub fn check_credentials(creds: &Credentials) -> (r: Result<(), ReconcileError>)
    ensures
        match r {
            Ok(_) => credentials_fault(*creds) is None,
            Err(e) => credentials_fault(*creds) == Some(e),
        },
{
    if creds.api_token.is_none() {
        return Err(ReconcileError::MissingCredential(Credential::ApiToken));
    }
    if creds.account_id.is_none() {
        return Err(ReconcileError::MissingCredential(Credential::AccountId));
    }
    Ok(())
}

impl<'a> CloudflarePages<'a> {
    pub fn new(config: &'a SporeConfiguration) -> (r: CloudflarePages<'a>)
        ensures
            r.config == config,
    {
        CloudflarePages { config }
    }

    pub fn cf_framework(&self) -> (r: String)
        ensures
            r@ == framework_name(self.config.deployment_artifact.framework),
    {
        match self.config.deployment_artifact.framework {
            FrameworkHint::NoFramework => {
                proof {
                    reveal_strlit("none");
                }
                literal("none")
            },
            FrameworkHint::Hugo => {
                proof {
                    reveal_strlit("hugo");
                }
                literal("hugo")
            },
            FrameworkHint::Next => {
                proof {
                    reveal_strlit("next");
                }
                literal("next")
            },
            FrameworkHint::Astro => {
                proof {
                    reveal_strlit("astro");
                }
                literal("astro")
            },
            FrameworkHint::Nuxt => {
                proof {
                    reveal_strlit("nuxt");
                }
                literal("nuxt")
            },
        }
    }

    /// The build command (never set: building is left to the external
    /// pipeline) and the build output path.
    pub fn build_params(&self) -> (r: (Option<String>, String))
        ensures
            opt_view(r.0) == build_command_of(self.config.deployment_artifact.kind),
            r.1@ == self.config.deployment_artifact.output_path@,
    {
        let output = self.config.deployment_artifact.output_path.clone();
        let command: Option<String> = match self.config.deployment_artifact.kind {
            DeploymentArtifactKind::StaticContent => None,
            DeploymentArtifactKind::VersionedStaticContent => None,
            DeploymentArtifactKind::CompositeStaticContent => None,
        };
        (command, output)
    }

    pub fn project_name(&self) -> (r: String)
        ensures
            r@ == effective_project_name(*self.config),
    {
        if is_blank(&self.config.hosting_designation.project_name) {
            self.config.site_identity.canonical_id.clone()
        } else {
            self.config.hosting_designation.project_name.clone()
        }
    }

    pub fn production_branch(&self) -> (r: String)
        ensures
            r@ == effective_branch(*self.config),
    {
        if is_blank(&self.config.hosting_designation.production_branch) {
            if is_blank(&self.config.repository.default_branch) {
                proof {
                    reveal_strlit("main");
                }
                literal("main")
            } else {
                self.config.repository.default_branch.clone()
            }
        } else {
            self.config.hosting_designation.production_branch.clone()
        }
    }
}

// ---- the command line of a project action ----

pub open spec fn verb_word(v: ProjectVerb) -> Seq<char> {
    match v {
        ProjectVerb::Create => "create"@,
        ProjectVerb::Update => "update"@,
    }
}

pub open spec fn opt_pair(flag: Seq<char>, o: Option<String>) -> Seq<Seq<char>> {
    match o {
        Some(v) => seq![flag, v@],
        None => Seq::empty(),
    }
}

pub open spec fn source_args(a: ProjectAction) -> Seq<Seq<char>> {
    if a.verb == ProjectVerb::Create {
        match a.repository {
            Some(slug) => seq!["--source=github"@, "--repo"@, slug@],
            None => seq!["--source=none"@],
        }
    } else {
        Seq::empty()
    }
}

/// The arguments of the platform's command-line tool that carry out `a`.
pub open spec fn action_args(a: ProjectAction) -> Seq<Seq<char>> {
    seq![
        "pages"@,
        "project"@,
        verb_word(a.verb),
        a.project_name@,
        "--production-branch"@,
        a.production_branch@,
    ] + opt_pair("--build-output"@, a.build_output) + opt_pair(
        "--build-command"@,
        a.build_command,
    ) + opt_pair("--framework"@, a.framework) + source_args(a)
}

fn push_str(v: &mut Vec<String>, s: String)
    ensures
        strs_view(final(v)@) == strs_view(old(v)@).push(s@),
{
    v.push(s);
    assert(strs_view(v@) =~= strs_view(old(v)@).push(s@));
}

fn push_opt_pair(v: &mut Vec<String>, flag: &str, o: &Option<String>)
    ensures
        strs_view(final(v)@) == strs_view(old(v)@) + opt_pair(flag@, *o),
{
    match o {
        Some(x) => {
            push_str(v, literal(flag));
            push_str(v, x.clone());
        },
        None => {},
    }
    assert(strs_view(v@) =~= strs_view(old(v)@) + opt_pair(flag@, *o));
}

impl ProjectAction {
    /// The command-line arguments that carry out this action.
    pub fn to_args(&self) -> (r: Vec<String>)
        ensures
            strs_view(r@) == action_args(*self),
    {
        let mut args: Vec<String> = Vec::new();
        push_str(&mut args, literal("pages"));
        push_str(&mut args, literal("project"));
        match self.verb {
            ProjectVerb::Create => push_str(&mut args, literal("create")),
            ProjectVerb::Update => push_str(&mut args, literal("update")),
        }
        push_str(&mut args, self.project_name.clone());
        push_str(&mut args, literal("--production-branch"));
        push_str(&mut args, self.production_branch.clone());
        push_opt_pair(&mut args, "--build-output", &self.build_output);
        push_opt_pair(&mut args, "--build-command", &self.build_command);
        push_opt_pair(&mut args, "--framework", &self.framework);
        let ghost before_source = strs_view(args@);
        if self.verb == ProjectVerb::Create {
            match &self.repository {
                Some(slug) => {
                    push_str(&mut args, literal("--source=github"));
                    push_str(&mut args, literal("--repo"));
                    push_str(&mut args, slug.clone());
                },
                None => push_str(&mut args, literal("--source=none")),
            }
        }
        assert(strs_view(args@) =~= before_source + source_args(*self));
        assert(strs_view(args@) =~= action_args(*self));
        args
    }
}

// ---- reading the observed state ----

/// Whether a name is among the listed ones (exact match): a project among
/// the listed projects, or a domain among the attached domains.
pub fn listed_contains(listed: &Vec<String>, name: &String) -> (r: bool)
    ensures
        r == strs_view(listed@).contains(name@),
{
    let mut i: usize = 0;
    while i < listed.len()
        invariant
            i <= listed@.len(),
            forall|j: int| 0 <= j < i ==> (#[trigger] listed@[j])@ != name@,
        decreases listed@.len() - i,
    {
        if listed[i] == *name {
            assert(strs_view(listed@)[i as int] == name@);
            return true;
        }
        i += 1;
    }
    proof {
        if strs_view(listed@).contains(name@) {
            let j = choose|j: int| 0 <= j < listed@.len() && strs_view(listed@)[j] == name@;
            assert(listed@[j]@ != name@);
        }
    }
    false
}

impl<'a> CloudflarePages<'a> {
    /// The create-or-update action for the project, given whether the control
    /// plane already lists it.
    pub fn plan_project(&self, present: bool) -> (r: ProjectAction)
        ensures
            planned(r, *self.config, present),
    {
        let project_name = self.project_name();
        let production_branch = self.production_branch();
        let (build_command, output) = self.build_params();
        let build_output = if is_blank(&output) {
            None
        } else {
            Some(output)
        };
        let framework = if present {
            None
        } else {
            Some(self.cf_framework())
        };
        let repository = if present || is_blank(&self.config.repository.slug) {
            None
        } else {
            Some(self.config.repository.slug.clone())
        };
        ProjectAction {
            verb: if present {
                ProjectVerb::Update
            } else {
                ProjectVerb::Create
            },
            project_name,
            production_branch,
            build_output,
            build_command,
            framework,
            repository,
        }
    }

    /// The domains to attach, in the desired order (canonical first, then the
    /// alternates), leaving out those the control plane lists as attached.
    pub fn pending_domains(&self, attached: &Vec<String>) -> (r: Vec<String>)
        ensures
            strs_view(r@) == pending(desired_domains(*self.config), strs_view(attached@)),
    {
        let ghost att = strs_view(attached@);
        let ghost ds = desired_domains(*self.config);
        let alts = &self.config.domain_assignment.alternate_domains;
        let mut out: Vec<String> = Vec::new();
        let first = &self.config.domain_assignment.canonical_domain;
        if !listed_contains(attached, first) {
            push_str(&mut out, first.clone());
        }
        assert(ds.take(1).drop_last() =~= Seq::<Seq<char>>::empty());
        assert(ds.take(1).last() == first@);
        assert(pending(Seq::<Seq<char>>::empty(), att) =~= Seq::<Seq<char>>::empty());
        assert(strs_view(Seq::<String>::empty()) =~= Seq::<Seq<char>>::empty());
        assert(strs_view(out@) == pending(ds.take(1), att));
        assert forall|k: int| 0 <= k < alts@.len() implies ds[k + 1] == (#[trigger] alts@[k])@ by {
            assert(strs_view(alts@)[k] == alts@[k]@);
        }
        let mut i: usize = 0;
        while i < alts.len()
            invariant
                i <= alts@.len(),
                ds == desired_domains(*self.config),
                forall|k: int| 0 <= k < alts@.len() ==> ds[k + 1] == (#[trigger] alts@[k])@,
                ds.len() == alts@.len() + 1,
                att == strs_view(attached@),
                strs_view(out@) == pending(ds.take(i + 1), att),
            decreases alts@.len() - i,
        {
            let d = &alts[i];
            assert(ds[i + 1] == d@);
            assert(ds.take(i + 2).drop_last() =~= ds.take(i + 1));
            if !listed_contains(attached, d) {
                push_str(&mut out, d.clone());
            }
            i += 1;
        }
        assert(ds.take(i + 1) =~= ds);
        out
    }
}

// ---- the reconciliation as a sequence of control-plane calls ----

/// What the control plane answered to the last call.
#[derive(Clone, Debug)]
pub enum Event {
    /// The names of the listed projects.
    Projects(Vec<String>),
    /// The domains attached to the project.
    Domains(Vec<String>),
    /// The action succeeded.
    Succeeded,
    /// The call failed, for the cause given.
    Failed(String),
}

/// The next call to make into the control plane, or the outcome.
#[derive(Debug)]
pub enum Command {
    ListProjects,
    Apply(ProjectAction),
    /// List the domains attached to the named project.
    ListDomains(String),
    /// Attach a domain (second) to the named project (first).
    Attach(String, String),
    Finish(Result<(), ReconcileError>),
}

#[derive(Clone, Copy, Debug, PartialEq, Eq, Structural)]
pub enum Phase {
    AwaitProjects,
    AwaitProjectResult(ProjectVerb),
    AwaitDomains,
    Attaching,
    Done,
    Failed,
}

/// The state of one reconciliation: which answer it waits for, and the
/// domains still to attach (`to_attach[next..]`).
pub struct Reconciler<'a> {
    pages: CloudflarePages<'a>,
    phase: Phase,
    project: String,
    to_attach: Vec<String>,
    next: usize,
}

pub open spec fn verb_operation(v: ProjectVerb) -> Operation {
    match v {
        ProjectVerb::Create => Operation::CreateProject,
        ProjectVerb::Update => Operation::UpdateProject,
    }
}

pub open spec fn attaches(cmd: Command, project: Seq<char>, domain: Seq<char>) -> bool {
    cmd matches Command::Attach(p, d) && p@ == project && d@ == domain
}

pub open spec fn applies(cmd: Command, c: SporeConfiguration, present: bool) -> bool {
    cmd matches Command::Apply(a) && planned(a, c, present)
}

pub open spec fn lists_domains(cmd: Command, project: Seq<char>) -> bool {
    cmd matches Command::ListDomains(p) && p@ == project
}

/// `cmd` ends the reconciliation of `c` with the failure of `op`, naming the
/// site, the domain (if any) and the cause.
pub open spec fn fails_with(
    cmd: Command,
    c: SporeConfiguration,
    op: Operation,
    domain: Option<Seq<char>>,
    cause: Seq<char>,
) -> bool {
    cmd matches Command::Finish(Err(ReconcileError::ControlPlane(f))) && f.site@
        == c.site_identity.canonical_id@ && f.operation == op && opt_view(f.domain) == domain
        && f.cause@ == cause
}

/// The cause an event carries: what a failure reported, else nothing (an
/// answer of the wrong kind).
pub open spec fn cause_of(ev: Event) -> Seq<char> {
    match ev {
        Event::Failed(c) => c@,
        _ => Seq::empty(),
    }
}

impl<'a> Reconciler<'a> {
    pub closed spec fn config(&self) -> SporeConfiguration {
        *self.pages.config
    }

    pub closed spec fn phase(&self) -> Phase {
        self.phase
    }

    /// The domains still to attach.
    pub closed spec fn remaining(&self) -> Seq<Seq<char>> {
        strs_view(self.to_attach@).skip(self.next as int)
    }

    pub closed spec fn wf(&self) -> bool {
        &&& self.project@ == effective_project_name(*self.pages.config)
        &&& self.next <= self.to_attach@.len()
        &&& (self.phase == Phase::Attaching ==> self.next >= 1)
    }

    pub open spec fn finished(&self) -> bool {
        self.phase() == Phase::Done || self.phase() == Phase::Failed
    }

    /// Begins a reconciliation: the credentials are checked before any call.
    pub fn start(config: &'a SporeConfiguration, creds: &Credentials) -> (r: (Reconciler<'a>, Command))
        ensures
            r.0.wf(),
            r.0.config() == *config,
            match credentials_fault(*creds) {
                Some(e) => r.0.phase() == Phase::Failed && r.1 == Command::Finish(Err(e)),
                None => r.0.phase() == Phase::AwaitProjects && r.1 == Command::ListProjects,
            },
    {
        let pages = CloudflarePages::new(config);
        let project = pages.project_name();
        let mut rec = Reconciler { pages, phase: Phase::AwaitProjects, project, to_attach: Vec::new(), next: 0 };
        match check_credentials(creds) {
            Err(e) => {
                rec.phase = Phase::Failed;
                (rec, Command::Finish(Err(e)))
            },
            Ok(_) => (rec, Command::ListProjects),
        }
    }

    fn fail(&mut self, operation: Operation, domain: Option<String>, ev: Event) -> (cmd: Command)
        requires
            old(self).wf(),
        ensures
            final(self).wf(),
            final(self).pages == old(self).pages,
            final(self).project == old(self).project,
            final(self).phase == Phase::Failed,
            fails_with(cmd, *old(self).pages.config, operation, opt_view(domain), cause_of(ev)),
    {
        let cause = match ev {
            Event::Failed(c) => c,
            _ => String::new(),
        };
        self.phase = Phase::Failed;
        let site = self.pages.config.site_identity.canonical_id.clone();
        Command::Finish(Err(ReconcileError::ControlPlane(ControlPlaneFailure { site, operation, domain, cause })))
    }

    fn attach_next(&mut self) -> (cmd: Command)
        requires
            old(self).wf(),
            old(self).next < old(self).to_attach@.len(),
        ensures
            final(self).wf(),
            final(self).pages == old(self).pages,
            final(self).project == old(self).project,
            final(self).to_attach == old(self).to_attach,
            final(self).next == old(self).next + 1,
            final(self).phase == Phase::Attaching,
            attaches(cmd, old(self).project@, old(self).to_attach@[old(self).next as int]@),
    {
        let d = self.to_attach[self.next].clone();
        // `next` is below a length that fits in a usize, so `next + 1` does too.
        let _len = self.to_attach.len();
        self.next = self.next + 1;
        self.phase = Phase::Attaching;
        Command::Attach(self.project.clone(), d)
    }

    /// Takes the control plane's answer to the last command and returns the
    /// next one. Every failure ends the reconciliation, naming the site, the
    /// call and its cause (and, for an attach, the domain); so does an answer
    /// of the wrong kind.
    pub fn step(&mut self, ev: Event) -> (cmd: Command)
        requires
            old(self).wf(),
            !old(self).finished(),
        ensures
            final(self).wf(),
            final(self).config() == old(self).config(),
            final(self).phase() != Phase::AwaitProjects,
            cmd is Apply ==> old(self).phase() == Phase::AwaitProjects,
            old(self).phase() == Phase::AwaitProjects ==> match ev {
                Event::Projects(listed) => {
                    let present = strs_view(listed@).contains(
                        effective_project_name(old(self).config()),
                    );
                    final(self).phase() == Phase::AwaitProjectResult(
                        if present { ProjectVerb::Update } else { ProjectVerb::Create },
                    ) && applies(cmd, old(self).config(), present)
                },
                _ => final(self).phase() == Phase::Failed && fails_with(
                    cmd, old(self).config(), Operation::ListProjects, None, cause_of(ev),
                ),
            },
            old(self).phase() matches Phase::AwaitProjectResult(v) ==> match ev {
                Event::Succeeded => final(self).phase() == Phase::AwaitDomains
                    && lists_domains(cmd, effective_project_name(old(self).config())),
                _ => final(self).phase() == Phase::Failed && fails_with(
                    cmd, old(self).config(), verb_operation(v), None, cause_of(ev),
                ),
            },
            old(self).phase() == Phase::AwaitDomains ==> match ev {
                Event::Domains(attached) => {
                    let todo = pending(desired_domains(old(self).config()), strs_view(attached@));
                    if todo.len() == 0 {
                        final(self).phase() == Phase::Done && cmd == Command::Finish(Ok(()))
                    } else {
                        final(self).phase() == Phase::Attaching
                            && final(self).remaining() == todo.skip(1)
                            && attaches(cmd, effective_project_name(old(self).config()), todo[0])
                    }
                },
                _ => final(self).phase() == Phase::Failed && fails_with(
                    cmd, old(self).config(), Operation::ListDomains, None, cause_of(ev),
                ),
            },
            old(self).phase() == Phase::Attaching ==> match ev {
                Event::Succeeded => if old(self).remaining().len() > 0 {
                    final(self).phase() == Phase::Attaching
                        && final(self).remaining() == old(self).remaining().skip(1)
                        && attaches(cmd, effective_project_name(old(self).config()), old(self).remaining()[0])
                } else {
                    final(self).phase() == Phase::Done && cmd == Command::Finish(Ok(()))
                },
                _ => final(self).phase() == Phase::Failed && fails_with(
                    cmd, old(self).config(), Operation::AttachDomain,
                    Some(old(self).last_attached()), cause_of(ev),
                ),
            },
    {
        let ghost before = strs_view(self.to_attach@);
        match self.phase {
            Phase::AwaitProjects => match ev {
                Event::Projects(listed) => {
                    let present = listed_contains(&listed, &self.project);
                    let action = self.pages.plan_project(present);
                    self.phase = Phase::AwaitProjectResult(action.verb);
                    Command::Apply(action)
                },
                _ => self.fail(Operation::ListProjects, None, ev),
            },
            Phase::AwaitProjectResult(v) => match ev {
                Event::Succeeded => {
                    self.phase = Phase::AwaitDomains;
                    Command::ListDomains(self.project.clone())
                },
                _ => {
                    let op = match v {
                        ProjectVerb::Create => Operation::CreateProject,
                        ProjectVerb::Update => Operation::UpdateProject,
                    };
                    self.fail(op, None, ev)
                },
            },
            Phase::AwaitDomains => match ev {
                Event::Domains(attached) => {
                    self.to_attach = self.pages.pending_domains(&attached);
                    self.next = 0;
                    if self.to_attach.len() == 0 {
                        self.phase = Phase::Done;
                        Command::Finish(Ok(()))
                    } else {
                        let cmd = self.attach_next();
                        assert(strs_view(self.to_attach@)[0] == self.to_attach@[0]@);
                        assert(strs_view(self.to_attach@).skip(1) =~= strs_view(self.to_attach@).skip(0).skip(1));
                        cmd
                    }
                },
                _ => self.fail(Operation::ListDomains, None, ev),
            },
            Phase::Attaching => match ev {
                Event::Succeeded => {
                    if self.next < self.to_attach.len() {
                        let ghost n = self.next as int;
                        let cmd = self.attach_next();
                        assert(before[n] == self.to_attach@[n]@);
                        assert(before.skip(n + 1) =~= before.skip(n).skip(1));
                        cmd
                    } else {
                        self.phase = Phase::Done;
                        Command::Finish(Ok(()))
                    }
                },
                _ => {
                    let d = self.to_attach[self.next - 1].clone();
                    self.fail(Operation::AttachDomain, Some(d), ev)
                },
            },
            Phase::Done => Command::Finish(Ok(())),
            Phase::Failed => Command::Finish(Ok(())),
        }
    }

    /// The domain of the last attach command issued.
    pub closed spec fn last_attached(&self) -> Seq<char> {
        self.to_attach@[self.next - 1]@
    }
}

// ---- laws of reconciliation ----

proof fn lemma_pending_holds_unattached(ds: Seq<Seq<char>>, attached: Seq<Seq<char>>, i: int)
    requires
        0 <= i < ds.len(),
        !attached.contains(ds[i]),
    ensures
        pending(ds, attached).contains(ds[i]),
    decreases ds.len(),
{
    let rest = pending(ds.drop_last(), attached);
    if i < ds.len() - 1 {
        assert(ds.drop_last()[i] == ds[i]);
        lemma_pending_holds_unattached(ds.drop_last(), attached, i);
        let k = choose|k: int| 0 <= k < rest.len() && rest[k] == ds[i];
        if !attached.contains(ds.last()) {
            assert(rest.push(ds.last())[k] == ds[i]);
        }
    } else {
        assert(rest.push(ds.last())[rest.len() as int] == ds[i]);
    }
}

proof fn lemma_pending_empty(ds: Seq<Seq<char>>, attached: Seq<Seq<char>>)
    requires
        forall|i: int| 0 <= i < ds.len() ==> attached.contains(#[trigger] ds[i]),
    ensures
        pending(ds, attached).len() == 0,
    decreases ds.len(),
{
    if ds.len() > 0 {
        assert forall|i: int| 0 <= i < ds.drop_last().len() implies attached.contains(
            #[trigger] ds.drop_last()[i],
        ) by {
            assert(ds.drop_last()[i] == ds[i]);
        }
        lemma_pending_empty(ds.drop_last(), attached);
        assert(attached.contains(ds[ds.len() - 1]));
    }
}

proof fn lemma_pending_only_unattached(ds: Seq<Seq<char>>, attached: Seq<Seq<char>>, d: Seq<char>)
    requires
        pending(ds, attached).contains(d),
    ensures
        ds.contains(d),
        !attached.contains(d),
    decreases ds.len(),
{
    if ds.len() > 0 {
        let rest = pending(ds.drop_last(), attached);
        if rest.contains(d) {
            lemma_pending_only_unattached(ds.drop_last(), attached, d);
            let k = choose|k: int| 0 <= k < ds.drop_last().len() && ds.drop_last()[k] == d;
            assert(ds[k] == d);
        } else {
            let k = choose|k: int| 0 <= k < pending(ds, attached).len() && pending(ds, attached)[k] == d;
            assert(!attached.contains(ds.last()));
            assert(k == rest.len());
            assert(ds[ds.len() - 1] == d);
        }
    }
}

/// A run attaches exactly the desired domains that the control plane does not
/// list as attached: each of them, and no other.
pub proof fn lemma_attaches_exactly_missing(c: SporeConfiguration, attached: Seq<Seq<char>>, d: Seq<char>)
    ensures
        pending(desired_domains(c), attached).contains(d) <==> (desired_domains(c).contains(d)
            && !attached.contains(d)),
{
    let ds = desired_domains(c);
    if pending(ds, attached).contains(d) {
        lemma_pending_only_unattached(ds, attached, d);
    }
    if ds.contains(d) && !attached.contains(d) {
        let k = choose|k: int| 0 <= k < ds.len() && ds[k] == d;
        lemma_pending_holds_unattached(ds, attached, k);
    }
}

/// The domains a run attaches are the desired domains that the control plane
/// does not list as attached, in the desired order: there are as many attach
/// commands as there are such domains.
pub proof fn lemma_attaches_unattached_in_order(c: SporeConfiguration, attached: Seq<Seq<char>>)
    ensures
        pending(desired_domains(c), attached) == desired_domains(c).filter(
            |d: Seq<char>| !attached.contains(d),
        ),
{
    lemma_pending_is_filter(desired_domains(c), attached);
}

proof fn lemma_pending_is_filter(ds: Seq<Seq<char>>, attached: Seq<Seq<char>>)
    ensures
        pending(ds, attached) == ds.filter(|d: Seq<char>| !attached.contains(d)),
    decreases ds.len(),
{
    reveal(Seq::filter);
    if ds.len() > 0 {
        lemma_pending_is_filter(ds.drop_last(), attached);
    } else {
        assert(ds.filter(|d: Seq<char>| !attached.contains(d)) =~= Seq::<Seq<char>>::empty());
    }
}

/// Reconciling twice with nothing else changing the control plane: once the
/// listings reflect the first run (its project is listed, and every domain
/// that was attached before or that the first run attached is listed as
/// attached), the second run plans an update, not a create, and attaches no
/// domain.
pub proof fn lemma_second_run_is_quiet(
    c: SporeConfiguration,
    attached_before: Seq<Seq<char>>,
    projects_after: Seq<Seq<char>>,
    attached_after: Seq<Seq<char>>,
    second: ProjectAction,
)
    requires
        projects_after.contains(effective_project_name(c)),
        forall|d: Seq<char>| #[trigger] attached_before.contains(d) ==> attached_after.contains(d),
        forall|d: Seq<char>|
            #[trigger] pending(desired_domains(c), attached_before).contains(d)
                ==> attached_after.contains(d),
        planned(second, c, projects_after.contains(effective_project_name(c))),
    ensures
        second.verb == ProjectVerb::Update,
        pending(desired_domains(c), attached_after).len() == 0,
{
    let ds = desired_domains(c);
    assert forall|i: int| 0 <= i < ds.len() implies attached_after.contains(#[trigger] ds[i]) by {
        if !attached_before.contains(ds[i]) {
            lemma_pending_holds_unattached(ds, attached_before, i);
        }
    }
    lemma_pending_empty(ds, attached_after);
}

} // verus!
