//! Task descriptors: which working copy to refresh, from which remote, and
//! which branches to ask for.

use vstd::prelude::*;

verus! {

/// The text of every string of `names`, in order.
pub open spec fn texts(names: Seq<String>) -> Seq<Seq<char>> {
    names.map_values(|name: String| name@)
}

/// A task descriptor as a mathematical value.
pub ghost struct TaskView {
    pub local_path: Seq<char>,
    pub remote: Seq<char>,
    pub branches: Seq<Seq<char>>,
}

/// One repository to keep up to date.
///
/// A descriptor is a plain value: once built it never changes, and it shares
/// nothing with any other descriptor.
#[derive(Debug, PartialEq, Eq)]
pub struct GitRepository {
    local_path: String,
    remote: String,
    fetch_branches: Vec<String>,
}

impl View for GitRepository {
    type V = TaskView;

    closed spec fn view(&self) -> TaskView {
        TaskView {
            local_path: self.local_path@,
            remote: self.remote@,
            branches: texts(self.fetch_branches@),
        }
    }
}

impl GitRepository {
    /// Describes the working copy at `local_path`, to be refreshed from the
    /// remote called `remote` by fetching `fetch_branches` in that order.
    pub fn new(local_path: String, remote: String, fetch_branches: Vec<String>) -> (task: Self)
        ensures
            task@ == (TaskView {
                local_path: local_path@,
                remote: remote@,
                branches: texts(fetch_branches@),
            }),
    {
        GitRepository { local_path, remote, fetch_branches }
    }

    /// Where the working copy lies. This is also the name under which the
    /// task's failures are reported.
    pub fn local_path(&self) -> (path: &String)
        ensures
            path@ == self@.local_path,
    {
        &self.local_path
    }

    /// The name of the remote to fetch from.
    pub fn remote(&self) -> (name: &String)
        ensures
            name@ == self@.remote,
    {
        &self.remote
    }

    /// The branches to fetch, in the order in which they were configured.
    pub fn fetch_branches(&self) -> (branches: &Vec<String>)
        ensures
            texts(branches@) == self@.branches,
    {
        &self.fetch_branches
    }

    /// Whether the task asks for no branch at all.
    pub fn fetches_nothing(&self) -> (nothing: bool)
        ensures
            nothing == (self@.branches.len() == 0),
    {
        self.fetch_branches.len() == 0
    }
}

impl Clone for GitRepository {
    /// A second descriptor of the same task.
    fn clone(&self) -> (copy: Self)
        ensures
            copy@ == self@,
    {
        let copy = GitRepository {
            local_path: self.local_path.clone(),
            remote: self.remote.clone(),
            fetch_branches: self.fetch_branches.clone(),
        };
        proof {
            assert(copy.fetch_branches@ =~= self.fetch_branches@);
        }
        copy
    }
}

/// The text of every task of `tasks`, in order.
pub open spec fn task_views(tasks: Seq<GitRepository>) -> Seq<TaskView> {
    tasks.map_values(|task: GitRepository| task@)
}

/// The whole configuration: the repositories to refresh, in the order in
/// which their units of work are to be launched.
#[derive(Debug, PartialEq, Eq)]
pub struct Config {
    repositories: Vec<GitRepository>,
}

impl View for Config {
    type V = Seq<TaskView>;

    closed spec fn view(&self) -> Seq<TaskView> {
        task_views(self.repositories@)
    }
}

impl Config {
    /// A configuration that lists `repositories` in the given order.
    pub fn new(repositories: Vec<GitRepository>) -> (config: Self)
        ensures
            config@ == task_views(repositories@),
    {
        Config { repositories }
    }

    /// The configured repositories.
    pub fn repositories(&self) -> (repositories: &Vec<GitRepository>)
        ensures
            task_views(repositories@) == self@,
    {
        &self.repositories
    }

    /// Gives the configured repositories away.
    pub fn into_repositories(self) -> (repositories: Vec<GitRepository>)
        ensures
            task_views(repositories@) == self@,
    {
        self.repositories
    }

    /// How many repositories are configured.
    pub fn len(&self) -> (n: usize)
        ensures
            n == self@.len(),
    {
        self.repositories.len()
    }

    /// Whether no repository is configured.
    pub fn is_empty(&self) -> (empty: bool)
        ensures
            empty == (self@.len() == 0),
    {
        self.repositories.len() == 0
    }
}

} // verus!
