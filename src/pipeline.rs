use vstd::prelude::*;

use crate::config::search_order_of;
use crate::error::{Error, ErrorView};
use crate::names::{candidate_paths, candidates, first_hit, is_first_hit, provider_leaf, provider_leaf_of};
use crate::tempdir::{minted_name, reservation_path, TempDir};

verus! {

/// Where the preparation of the overlays stands. `secret` indexes the
/// provider entries, `template` the templates of one entry.
#[derive(Clone, Copy, Debug, PartialEq, Eq, Structural)]
pub enum Stage {
    /// Waiting for the mount namespace to be unshared.
    Unsharing,
    /// Waiting for the root mount to be made private, recursively.
    Privatizing,
    /// Waiting for the staging directory to be reserved.
    Creating,
    /// Waiting for the staging file system to be mounted.
    Mounting,
    /// Waiting for the search path to be probed for a provider.
    Searching { secret: usize },
    /// Waiting for the minted destination file to be created.
    Minting { secret: usize, template: usize },
    /// Waiting to learn whether the template is a regular file.
    Checking { secret: usize, template: usize },
    /// Waiting for the provider to render the template.
    Rendering { secret: usize, template: usize },
    /// Waiting for the template's mode bits to be copied.
    CopyingMode { secret: usize, template: usize },
    /// Waiting for the template's owner and group to be copied.
    CopyingOwner { secret: usize, template: usize },
    /// Waiting for the rendered file to be bound over the template.
    Binding { secret: usize, template: usize },
    /// Every overlay is in place.
    Finished,
    /// A step failed; nothing more is done.
    Aborted,
}

/// What the system answered to the last action.
#[derive(Debug, PartialEq, Eq)]
pub enum Event {
    /// The action succeeded.
    Done,
    /// The action failed with this error number.
    Failed(i32),
    /// The staging directory was reserved at this path.
    Staged(String),
    /// For each candidate of a search, in order: its directory is a directory
    /// and the candidate is a regular file.
    Found(Vec<bool>),
    /// Whether the template is a regular file.
    IsFile(bool),
    /// The provider's exit status, or `None` where a signal ended it.
    Exited(Option<i32>),
}

/// The next thing the system is asked to do.
#[derive(Debug, PartialEq, Eq)]
pub enum Action {
    /// Unshare the mount namespace of the process.
    Unshare,
    /// Make every existing mount private, recursively from the root.
    MakePrivate,
    /// Reserve a fresh directory from the template path.
    CreateStaging { template: String },
    /// Mount the staging file system on the reserved directory.
    MountStaging { path: String },
    /// Probe each candidate, each in its directory.
    Search { dirs: Vec<String>, candidates: Vec<String> },
    /// Create the empty destination file.
    CreateFile { path: String },
    /// Tell whether the template is a regular file.
    CheckTemplate { path: String },
    /// Run the provider on the template and the destination, in that order.
    RunProvider { provider: String, template: String, destination: String },
    /// Copy the low twelve mode bits of `source` to `destination`.
    CopyMode { source: String, destination: String },
    /// Copy the owner and group of `source` to `destination`.
    CopyOwner { source: String, destination: String },
    /// Bind `source` over `target`, privately.
    Bind { source: String, target: String },
    /// Every overlay is in place: release the staging area and launch.
    Finish,
    /// Give up: release the staging area and report the error.
    Abort(Error),
}

/// An [`Event`] with its text as character sequences.
pub enum EventView {
    Done,
    Failed(i32),
    Staged(Seq<char>),
    Found(Seq<bool>),
    IsFile(bool),
    Exited(Option<i32>),
}

/// An [`Action`] with its text as character sequences.
pub enum ActionView {
    Unshare,
    MakePrivate,
    CreateStaging { template: Seq<char> },
    MountStaging { path: Seq<char> },
    Search { dirs: Seq<Seq<char>>, candidates: Seq<Seq<char>> },
    CreateFile { path: Seq<char> },
    CheckTemplate { path: Seq<char> },
    RunProvider { provider: Seq<char>, template: Seq<char>, destination: Seq<char> },
    CopyMode { source: Seq<char>, destination: Seq<char> },
    CopyOwner { source: Seq<char>, destination: Seq<char> },
    Bind { source: Seq<char>, target: Seq<char> },
    Finish,
    Abort(ErrorView),
}

impl View for Event {
    type V = EventView;

    open spec fn view(&self) -> EventView {
        match self {
            Event::Done => EventView::Done,
            Event::Failed(c) => EventView::Failed(*c),
            Event::Staged(p) => EventView::Staged(p@),
            Event::Found(v) => EventView::Found(v@),
            Event::IsFile(b) => EventView::IsFile(*b),
            Event::Exited(s) => EventView::Exited(*s),
        }
    }
}

impl View for Action {
    type V = ActionView;

    open spec fn view(&self) -> ActionView {
        match self {
            Action::Unshare => ActionView::Unshare,
            Action::MakePrivate => ActionView::MakePrivate,
            Action::CreateStaging { template } => ActionView::CreateStaging { template: template@ },
            Action::MountStaging { path } => ActionView::MountStaging { path: path@ },
            Action::Search { dirs, candidates } => ActionView::Search {
                dirs: dirs.deep_view(),
                candidates: candidates.deep_view(),
            },
            Action::CreateFile { path } => ActionView::CreateFile { path: path@ },
            Action::CheckTemplate { path } => ActionView::CheckTemplate { path: path@ },
            Action::RunProvider { provider, template, destination } => ActionView::RunProvider {
                provider: provider@,
                template: template@,
                destination: destination@,
            },
            Action::CopyMode { source, destination } => ActionView::CopyMode {
                source: source@,
                destination: destination@,
            },
            Action::CopyOwner { source, destination } => ActionView::CopyOwner {
                source: source@,
                destination: destination@,
            },
            Action::Bind { source, target } => ActionView::Bind { source: source@, target: target@ },
            Action::Finish => ActionView::Finish,
            Action::Abort(e) => ActionView::Abort(e@),
        }
    }
}

/// The state of a preparation, as values.
pub struct PipelineModel {
    /// Each provider name with its templates.
    pub secrets: Seq<(Seq<char>, Seq<Seq<char>>)>,
    /// The directories searched for providers, in order.
    pub search_path: Seq<Seq<char>>,
    /// The directory under which the staging directory is reserved.
    pub temp_root: Seq<char>,
    /// The staging directory, once reserved.
    pub staging_dir: Seq<char>,
    /// The staging area's mint counter.
    pub counter: nat,
    pub stage: Stage,
    /// The reduced name of the provider of the current entry.
    pub leaf: Seq<char>,
    /// The provider found for the current entry.
    pub provider: Seq<char>,
    /// The destination minted for the current template.
    pub destination: Seq<char>,
}

/// The prefix of the staging directory and of the files minted in it.
pub open spec fn staging_prefix() -> Seq<char> {
    "tsos"@
}

/// The prefix of the files that providers render into.
pub open spec fn destination_prefix() -> Seq<char> {
    "tsos-final"@
}

/// The position of the first `true` in `found`, if any.
pub open spec fn first_true(found: Seq<bool>) -> Option<int> {
    if exists|k: int| is_first_hit(found, k) {
        Some(choose|k: int| is_first_hit(found, k))
    } else {
        None
    }
}

impl PipelineModel {
    /// The template at a position.
    pub open spec fn template(self, i: int, j: int) -> Seq<char> {
        self.secrets[i].1[j]
    }

    /// Every position of the configuration can be counted in a `usize`.
    pub open spec fn fits(self) -> bool {
        &&& self.secrets.len() <= usize::MAX
        &&& forall|i: int| 0 <= i < self.secrets.len() ==> #[trigger] self.secrets[i].1.len() <= usize::MAX
    }

    /// The configuration fits, and the stage's positions lie inside it.
    pub open spec fn wf(self) -> bool {
        &&& self.fits()
        &&& match self.stage {
            Stage::Searching { secret } => secret < self.secrets.len(),
            Stage::Minting { secret, template }
            | Stage::Checking { secret, template }
            | Stage::Rendering { secret, template }
            | Stage::CopyingMode { secret, template }
            | Stage::CopyingOwner { secret, template }
            | Stage::Binding { secret, template } => secret < self.secrets.len() && template
                < self.secrets[secret as int].1.len(),
            _ => true,
        }
    }

    /// The same state at another stage.
    pub open spec fn with_stage(self, stage: Stage) -> PipelineModel {
        PipelineModel { stage, ..self }
    }

    /// Stops the preparation with an error.
    pub open spec fn abort(self, e: ErrorView) -> (PipelineModel, ActionView) {
        (self.with_stage(Stage::Aborted), ActionView::Abort(e))
    }

    /// Takes up entry `i`: reduces its provider name and searches for it; past
    /// the last entry the preparation is finished.
    pub open spec fn enter_secret(self, i: int) -> (PipelineModel, ActionView) {
        if i >= self.secrets.len() {
            (self.with_stage(Stage::Finished), ActionView::Finish)
        } else {
            match provider_leaf_of(self.secrets[i].0) {
                None => self.abort(ErrorView::InvalidSourceName(self.secrets[i].0)),
                Some(l) => (
                    PipelineModel { stage: Stage::Searching { secret: i as usize }, leaf: l, ..self },
                    ActionView::Search {
                        dirs: self.search_path,
                        candidates: candidate_paths(self.search_path, l),
                    },
                ),
            }
        }
    }

    /// Takes up template `j` of entry `i`: mints its destination; past the
    /// entry's last template the next entry is taken up.
    pub open spec fn enter_template(self, i: int, j: int) -> (PipelineModel, ActionView) {
        if j >= self.secrets[i].1.len() {
            self.enter_secret(i + 1)
        } else if self.counter >= u32::MAX {
            self.abort(ErrorView::StagingExhausted)
        } else {
            let d = minted_name(self.staging_dir, destination_prefix(), self.counter);
            (
                PipelineModel {
                    stage: Stage::Minting { secret: i as usize, template: j as usize },
                    counter: self.counter + 1,
                    destination: d,
                    ..self
                },
                ActionView::CreateFile { path: d },
            )
        }
    }

    /// The next state and action once the system has answered `e`. An answer
    /// that does not fit the stage stops the preparation.
    pub open spec fn next(self, e: EventView) -> (PipelineModel, ActionView) {
        match (self.stage, e) {
            (Stage::Unsharing, EventView::Done) => (
                self.with_stage(Stage::Privatizing),
                ActionView::MakePrivate,
            ),
            (Stage::Unsharing, EventView::Failed(c)) => self.abort(
                ErrorView::NamespaceUnshareFailed(c),
            ),
            (Stage::Privatizing, EventView::Done) => (
                self.with_stage(Stage::Creating),
                ActionView::CreateStaging {
                    template: reservation_path(self.temp_root, staging_prefix()),
                },
            ),
            (Stage::Privatizing, EventView::Failed(c)) => self.abort(
                ErrorView::PropagationChangeFailed(c),
            ),
            (Stage::Creating, EventView::Staged(p)) => (
                PipelineModel { stage: Stage::Mounting, staging_dir: p, counter: 0, ..self },
                ActionView::MountStaging { path: p },
            ),
            (Stage::Creating, EventView::Failed(c)) => self.abort(
                ErrorView::StagingCreateFailed(c),
            ),
            (Stage::Mounting, EventView::Done) => self.enter_secret(0),
            (Stage::Mounting, EventView::Failed(c)) => self.abort(
                ErrorView::StagingMountFailed(c),
            ),
            (Stage::Searching { secret }, EventView::Found(found)) => {
                if found.len() != self.search_path.len() {
                    self.abort(ErrorView::UnexpectedEvent)
                } else {
                    match first_true(found) {
                        None => self.abort(ErrorView::ProviderNotFound(self.leaf)),
                        Some(k) => PipelineModel {
                            provider: candidate_paths(self.search_path, self.leaf)[k],
                            ..self
                        }.enter_template(secret as int, 0),
                    }
                }
            },
            (Stage::Minting { secret, template }, EventView::Done) => (
                self.with_stage(Stage::Checking { secret, template }),
                ActionView::CheckTemplate { path: self.template(secret as int, template as int) },
            ),
            (Stage::Minting { .. }, EventView::Failed(c)) => self.abort(ErrorView::OsError(c)),
            (Stage::Checking { secret, template }, EventView::IsFile(true)) => (
                self.with_stage(Stage::Rendering { secret, template }),
                ActionView::RunProvider {
                    provider: self.provider,
                    template: self.template(secret as int, template as int),
                    destination: self.destination,
                },
            ),
            (Stage::Checking { secret, template }, EventView::IsFile(false)) => self.abort(
                ErrorView::TemplateNotFound(self.leaf, self.template(secret as int, template as int)),
            ),
            (Stage::Rendering { secret, template }, EventView::Exited(status)) => match status {
                Some(0) => (
                    self.with_stage(Stage::CopyingMode { secret, template }),
                    ActionView::CopyMode {
                        source: self.template(secret as int, template as int),
                        destination: self.destination,
                    },
                ),
                Some(c) => self.abort(ErrorView::ProviderFailed(self.provider, c)),
                None => self.abort(ErrorView::ProviderTerminated(self.provider)),
            },
            (Stage::Rendering { .. }, EventView::Failed(c)) => self.abort(ErrorView::OsError(c)),
            (Stage::CopyingMode { secret, template }, EventView::Done) => (
                self.with_stage(Stage::CopyingOwner { secret, template }),
                ActionView::CopyOwner {
                    source: self.template(secret as int, template as int),
                    destination: self.destination,
                },
            ),
            (Stage::CopyingMode { .. }, EventView::Failed(c)) => self.abort(
                ErrorView::PermissionCopyFailed(c),
            ),
            (Stage::CopyingOwner { secret, template }, EventView::Done) => (
                self.with_stage(Stage::Binding { secret, template }),
                ActionView::Bind {
                    source: self.destination,
                    target: self.template(secret as int, template as int),
                },
            ),
            (Stage::CopyingOwner { .. }, EventView::Failed(c)) => self.abort(
                ErrorView::OwnershipCopyFailed(c),
            ),
            (Stage::Binding { secret, template }, EventView::Done) => self.enter_template(
                secret as int,
                template + 1,
            ),
            (Stage::Binding { .. }, EventView::Failed(c)) => self.abort(ErrorView::BindFailed(c)),
            _ => self.abort(ErrorView::UnexpectedEvent),
        }
    }
}

/// The preparation of the overlays: it decides each step from the
/// system's answer to the one before, while the caller performs them.
pub struct Pipeline {
    secrets: Vec<(String, Vec<String>)>,
    search_path: Vec<String>,
    temp_root: String,
    staging: TempDir,
    stage: Stage,
    leaf: String,
    provider: String,
    destination: String,
}

impl View for Pipeline {
    type V = PipelineModel;

    closed spec fn view(&self) -> PipelineModel {
        PipelineModel {
            secrets: self.secrets.deep_view(),
            search_path: self.search_path.deep_view(),
            temp_root: self.temp_root@,
            staging_dir: self.staging.dir(),
            counter: self.staging.counter(),
            stage: self.stage,
            leaf: self.leaf@,
            provider: self.provider@,
            destination: self.destination@,
        }
    }
}

impl Pipeline {
    /// Starts a preparation for the provider entries `secrets`, searching
    /// `search_path` and staging under `temp_root`; its first action unshares
    /// the mount namespace.
    pub fn new(secrets: Vec<(String, Vec<String>)>, search_path: Vec<String>, temp_root: String) -> (r: (
        Pipeline,
        Action,
    ))
        ensures
            r.0@.secrets == secrets.deep_view(),
            r.0@.search_path == search_path.deep_view(),
            r.0@.temp_root == temp_root@,
            r.0@.stage == Stage::Unsharing,
            r.0@.wf(),
            r.1@ == ActionView::Unshare,
    {
        let n = secrets.len();
        let mut i: usize = 0;
        while i < n
            invariant
                n == secrets@.len(),
                i <= n,
                forall|k: int| 0 <= k < i ==> #[trigger] secrets@[k].1@.len() <= usize::MAX,
            decreases n - i,
        {
            let _len = secrets[i].1.len();
            i = i + 1;
        }
        assert forall|k: int| 0 <= k < secrets.deep_view().len() implies #[trigger] secrets.deep_view()[k].1.len() <= usize::MAX by {
            assert(secrets.deep_view()[k] == secrets@[k].deep_view());
        }
        let p = Pipeline {
            secrets,
            search_path,
            temp_root,
            staging: TempDir::new(String::new()),
            stage: Stage::Unsharing,
            leaf: String::new(),
            provider: String::new(),
            destination: String::new(),
        };
        (p, Action::Unshare)
    }

    /// Where the preparation stands.
    pub fn stage(&self) -> (r: Stage)
        ensures
            r == self@.stage,
    {
        self.stage
    }

    fn abort(&mut self, e: Error) -> (r: Action)
        ensures
            (final(self)@, r@) == old(self)@.abort(e@),
    {
        self.stage = Stage::Aborted;
        Action::Abort(e)
    }

    fn template_at(&self, i: usize, j: usize) -> (r: String)
        requires
            i < self@.secrets.len(),
            j < self@.secrets[i as int].1.len(),
        ensures
            r@ == self@.template(i as int, j as int),
    {
        assert(self.secrets.deep_view()[i as int] == self.secrets@[i as int].deep_view());
        assert(self.secrets@[i as int].1.deep_view()[j as int] == self.secrets@[i as int].1@[j as int]@);
        self.secrets[i].1[j].clone()
    }

    fn enter_secret(&mut self, i: usize) -> (r: Action)
        requires
            i <= old(self)@.secrets.len(),
        ensures
            (final(self)@, r@) == old(self)@.enter_secret(i as int),
    {
        if i >= self.secrets.len() {
            self.stage = Stage::Finished;
            return Action::Finish;
        }
        assert(self.secrets.deep_view()[i as int] == self.secrets@[i as int].deep_view());
        match provider_leaf(self.secrets[i].0.as_str()) {
            None => {
                let name = self.secrets[i].0.clone();
                self.abort(Error::InvalidSourceName(name))
            },
            Some(l) => {
                let c = candidates(&self.search_path, l.as_str());
                let dirs = self.search_path.clone();
                assert(dirs.deep_view() =~= self.search_path.deep_view());
                self.leaf = l;
                self.stage = Stage::Searching { secret: i };
                Action::Search { dirs, candidates: c }
            },
        }
    }

    fn enter_template(&mut self, i: usize, j: usize) -> (r: Action)
        requires
            i < old(self)@.secrets.len(),
            j <= old(self)@.secrets[i as int].1.len(),
        ensures
            (final(self)@, r@) == old(self)@.enter_template(i as int, j as int),
    {
        assert(self.secrets.deep_view()[i as int] == self.secrets@[i as int].deep_view());
        if j >= self.secrets[i].1.len() {
            let n = self.secrets.len();
            assert(self.secrets.deep_view().len() == n);
            return self.enter_secret(i + 1);
        }
        proof { reveal_strlit("tsos-final"); }
        match self.staging.create_file("tsos-final") {
            None => self.abort(Error::StagingExhausted),
            Some(d) => {
                self.destination = d.clone();
                self.stage = Stage::Minting { secret: i, template: j };
                Action::CreateFile { path: d }
            },
        }
    }

    /// Takes the system's answer to the last action and returns the next
    /// action: exactly the one that [`PipelineModel::next`] gives.
    pub fn step(&mut self, event: Event) -> (r: Action)
        requires
            old(self)@.wf(),
        ensures
            final(self)@.wf(),
            (final(self)@, r@) == old(self)@.next(event@),
    {
        let ghost m = self@;
        match (self.stage, event) {
            (Stage::Unsharing, Event::Done) => {
                self.stage = Stage::Privatizing;
                Action::MakePrivate
            },
            (Stage::Unsharing, Event::Failed(c)) => self.abort(Error::NamespaceUnshareFailed(c)),
            (Stage::Privatizing, Event::Done) => {
                self.stage = Stage::Creating;
                proof { reveal_strlit("tsos"); }
                let template = TempDir::template(self.temp_root.as_str(), "tsos");
                Action::CreateStaging { template }
            },
            (Stage::Privatizing, Event::Failed(c)) => self.abort(Error::PropagationChangeFailed(c)),
            (Stage::Creating, Event::Staged(p)) => {
                self.staging = TempDir::new(p.clone());
                self.stage = Stage::Mounting;
                Action::MountStaging { path: p }
            },
            (Stage::Creating, Event::Failed(c)) => self.abort(Error::StagingCreateFailed(c)),
            (Stage::Mounting, Event::Done) => self.enter_secret(0),
            (Stage::Mounting, Event::Failed(c)) => self.abort(Error::StagingMountFailed(c)),
            (Stage::Searching { secret }, Event::Found(found)) => {
                if found.len() != self.search_path.len() {
                    return self.abort(Error::UnexpectedEvent);
                }
                match first_hit(&found) {
                    None => {
                        proof {
                            assert(!exists|k: int| is_first_hit(found@, k));
                        }
                        let leaf = self.leaf.clone();
                        self.abort(Error::ProviderNotFound(leaf))
                    },
                    Some(k) => {
                        proof {
                            assert(is_first_hit(found@, k as int));
                            let c = choose|x: int| is_first_hit(found@, x);
                            assert(c == k as int) by {
                                if c < k {
                                    assert(!found@[c]);
                                } else if c > k {
                                    assert(!found@[k as int]);
                                }
                            }
                        }
                        let c = candidates(&self.search_path, self.leaf.as_str());
                        assert(c.deep_view().len() == self.search_path.deep_view().len());
                        assert(c@.len() == c.deep_view().len());
                        assert(c.deep_view()[k as int] == c@[k as int]@);
                        self.provider = c[k].clone();
                        self.enter_template(secret, 0)
                    },
                }
            },
            (Stage::Minting { secret, template }, Event::Done) => {
                self.stage = Stage::Checking { secret, template };
                let path = self.template_at(secret, template);
                Action::CheckTemplate { path }
            },
            (Stage::Minting { .. }, Event::Failed(c)) => self.abort(Error::OsError(c)),
            (Stage::Checking { secret, template }, Event::IsFile(is_file)) => {
                let t = self.template_at(secret, template);
                if is_file {
                    self.stage = Stage::Rendering { secret, template };
                    Action::RunProvider {
                        provider: self.provider.clone(),
                        template: t,
                        destination: self.destination.clone(),
                    }
                } else {
                    let leaf = self.leaf.clone();
                    self.abort(Error::TemplateNotFound(leaf, t))
                }
            },
            (Stage::Rendering { secret, template }, Event::Exited(status)) => match status {
                Some(0) => {
                    self.stage = Stage::CopyingMode { secret, template };
                    let source = self.template_at(secret, template);
                    Action::CopyMode { source, destination: self.destination.clone() }
                },
                Some(c) => {
                    let p = self.provider.clone();
                    self.abort(Error::ProviderFailed(p, c))
                },
                None => {
                    let p = self.provider.clone();
                    self.abort(Error::ProviderTerminated(p))
                },
            },
            (Stage::Rendering { .. }, Event::Failed(c)) => self.abort(Error::OsError(c)),
            (Stage::CopyingMode { secret, template }, Event::Done) => {
                self.stage = Stage::CopyingOwner { secret, template };
                let source = self.template_at(secret, template);
                Action::CopyOwner { source, destination: self.destination.clone() }
            },
            (Stage::CopyingMode { .. }, Event::Failed(c)) => self.abort(Error::PermissionCopyFailed(c)),
            (Stage::CopyingOwner { secret, template }, Event::Done) => {
                self.stage = Stage::Binding { secret, template };
                let target = self.template_at(secret, template);
                Action::Bind { source: self.destination.clone(), target }
            },
            (Stage::CopyingOwner { .. }, Event::Failed(c)) => self.abort(Error::OwnershipCopyFailed(c)),
            (Stage::Binding { secret, template }, Event::Done) => {
                assert(self.secrets.deep_view()[secret as int] == self.secrets@[secret as int].deep_view());
                self.enter_template(secret, template + 1)
            },
            (Stage::Binding { .. }, Event::Failed(c)) => self.abort(Error::BindFailed(c)),
            _ => self.abort(Error::UnexpectedEvent),
        }
    }
}

/// The stages that come after the mount namespace has been unshared and its
/// mounts made private.
pub open spec fn isolated(s: Stage) -> bool {
    s != Stage::Unsharing && s != Stage::Privatizing
}

/// Entries and templates are taken up in list order: an entry's search
/// follows the end of the entry before it, its first template follows its
/// search, and each further template follows the bind of the one before.
/// Each bind lays the destination minted for the current template over that
/// very template.
pub proof fn lemma_overlays_in_list_order(m: PipelineModel, e: EventView)
    requires
        m.wf(),
    ensures
        ({
            let (m2, a) = m.next(e);
            &&& m2.stage matches Stage::Minting { secret: i, template: j } ==> {
                ||| j == 0 && m.stage == Stage::Searching { secret: i }
                ||| j > 0 && m.stage == Stage::Binding { secret: i, template: (j - 1) as usize }
            }
            &&& m2.stage matches Stage::Searching { secret: i } ==> {
                ||| i == 0 && m.stage == Stage::Mounting
                ||| i > 0 && (m.stage matches Stage::Binding { secret: k, template: _ } && k == i - 1)
                ||| i > 0 && m.stage == Stage::Searching { secret: (i - 1) as usize }
            }
            &&& a matches ActionView::Bind { source, target } ==> {
                &&& m.stage matches Stage::CopyingOwner { secret: i, template: j }
                &&& target == m.template(i as int, j as int)
                &&& source == m.destination
            }
        }),
{
    match m.stage {
        Stage::Searching { secret } => {
            match e {
                EventView::Found(found) => {
                    if found.len() == m.search_path.len() {
                        match first_true(found) {
                            Some(k) => {
                                let m1 = PipelineModel {
                                    provider: candidate_paths(m.search_path, m.leaf)[k],
                                    ..m
                                };
                                assert(m.next(e) == m1.enter_template(secret as int, 0));
                            },
                            None => {},
                        }
                    }
                },
                _ => {},
            }
        },
        _ => {},
    }
}

/// The steps for one template come in a fixed order, each only after the one
/// before succeeded, and all at the same position: the destination is
/// created, the template checked, the provider run, the mode bits copied,
/// then the owner, and only then the bind.
pub proof fn lemma_template_steps_in_order(m: PipelineModel, e: EventView)
    requires
        m.wf(),
    ensures
        ({
            let (m2, a) = m.next(e);
            &&& a is CheckTemplate ==> e == EventView::Done && (m.stage matches Stage::Minting {
                secret: i,
                template: j,
            } && m2.stage == Stage::Checking { secret: i, template: j })
            &&& a is RunProvider ==> e == EventView::IsFile(true) && (m.stage matches Stage::Checking {
                secret: i,
                template: j,
            } && m2.stage == Stage::Rendering { secret: i, template: j })
            &&& a is CopyMode ==> e == EventView::Exited(Some(0)) && (m.stage matches Stage::Rendering {
                secret: i,
                template: j,
            } && m2.stage == Stage::CopyingMode { secret: i, template: j })
            &&& a is CopyOwner ==> e == EventView::Done && (m.stage matches Stage::CopyingMode {
                secret: i,
                template: j,
            } && m2.stage == Stage::CopyingOwner { secret: i, template: j })
            &&& a is Bind ==> e == EventView::Done && (m.stage matches Stage::CopyingOwner {
                secret: i,
                template: j,
            } && m2.stage == Stage::Binding { secret: i, template: j })
        }),
{
    match m.stage {
        Stage::Searching { secret } => {
            match e {
                EventView::Found(found) => {
                    if found.len() == m.search_path.len() {
                        match first_true(found) {
                            Some(k) => {
                                let m1 = PipelineModel {
                                    provider: candidate_paths(m.search_path, m.leaf)[k],
                                    ..m
                                };
                                assert(m.next(e) == m1.enter_template(secret as int, 0));
                            },
                            None => {},
                        }
                    }
                },
                _ => {},
            }
        },
        _ => {},
    }
}

/// The preparation finishes only once every template of every entry has been
/// bound: right after the bind of the last template of the last entry, or
/// after the search for a last entry that lists no template, or at once
/// where there is no entry.
pub proof fn lemma_finish_only_after_every_overlay(m: PipelineModel, e: EventView)
    requires
        m.wf(),
        m.next(e).1 == ActionView::Finish,
    ensures
        ({
            ||| m.stage == Stage::Mounting && m.secrets.len() == 0
            ||| (m.stage matches Stage::Binding { secret: i, template: j } && i + 1 == m.secrets.len()
                && j + 1 == m.secrets[i as int].1.len())
            ||| (m.stage matches Stage::Searching { secret: i } && i + 1 == m.secrets.len()
                && m.secrets[i as int].1.len() == 0)
        }),
{
}

/// Nothing is staged, created or mounted before the mount namespace is
/// isolated, and once isolated it stays so.
pub proof fn lemma_isolation_first(m: PipelineModel, e: EventView)
    requires
        m.wf(),
    ensures
        ({
            let (m2, a) = m.next(e);
            &&& a is CreateStaging ==> m.stage == Stage::Privatizing && e == EventView::Done
            &&& (a is MountStaging || a is CreateFile || a is RunProvider || a is Bind) ==> isolated(
                m.stage,
            ) && isolated(m2.stage)
            &&& isolated(m.stage) ==> isolated(m2.stage)
        }),
{
}

proof fn lemma_first_hit_at_most(found: Seq<bool>, i: int) -> (k: int)
    requires
        0 <= i < found.len(),
        found[i],
    ensures
        k <= i,
        is_first_hit(found, k),
    decreases i,
{
    if exists|j: int| 0 <= j < i && found[j] {
        let j = choose|j: int| 0 <= j < i && found[j];
        lemma_first_hit_at_most(found, j)
    } else {
        i
    }
}

/// Local directories win over global ones: where the provider is found in
/// the `i`-th local directory, the directory chosen is a local one, at or
/// before `i`.
pub proof fn lemma_local_over_global(
    local: Seq<Seq<char>>,
    global: Seq<Seq<char>>,
    found: Seq<bool>,
    i: int,
)
    requires
        found.len() == local.len() + global.len(),
        0 <= i < local.len(),
        found[i],
    ensures
        first_true(found) matches Some(k) && k <= i && k < local.len()
            && search_order_of(Some(local), global)[k] == local[k],
{
    let k = lemma_first_hit_at_most(found, i);
    assert(is_first_hit(found, k));
    let c = choose|x: int| is_first_hit(found, x);
    assert(c == k) by {
        if c < k {
            assert(!found[c]);
        } else if c > k {
            assert(!found[k]);
        }
    }
}

} // verus!
