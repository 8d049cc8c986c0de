use vstd::prelude::*;

verus! {

/// The mathematical content of a [`Container`].
pub struct ContainerView {
    pub args: Seq<Seq<char>>,
    pub chroot_path: Seq<char>,
    pub cgroup_name: Seq<char>,
    pub hostname: Seq<char>,
    pub max_pids: u8,
}

/// What one run of a contained command is made from: the command line, the
/// directory that becomes the container's `/`, the hostname of its UTS
/// namespace, the name of its pids control group and that group's limit.
#[derive(Debug, PartialEq, Eq)]
pub struct Container {
    pub args: Vec<String>,
    pub chroot_path: String,
    pub cgroup_name: String,
    pub hostname: String,
    pub max_pids: u8,
}

/// Assembles a [`Container`] field by field.
#[derive(Debug, PartialEq, Eq)]
pub struct ContainerBuilder {
    pub args: Vec<String>,
    pub chroot_path: String,
    pub cgroup_name: String,
    pub hostname: String,
    pub max_pids: u8,
}

/// The views of a sequence of strings.
pub open spec fn strings_view(v: Seq<String>) -> Seq<Seq<char>> {
    v.map_values(|s: String| s@)
}

impl View for Container {
    type V = ContainerView;

    open spec fn view(&self) -> ContainerView {
        ContainerView {
            args: strings_view(self.args@),
            chroot_path: self.chroot_path@,
            cgroup_name: self.cgroup_name@,
            hostname: self.hostname@,
            max_pids: self.max_pids,
        }
    }
}

impl View for ContainerBuilder {
    type V = ContainerView;

    open spec fn view(&self) -> ContainerView {
        ContainerView {
            args: strings_view(self.args@),
            chroot_path: self.chroot_path@,
            cgroup_name: self.cgroup_name@,
            hostname: self.hostname@,
            max_pids: self.max_pids,
        }
    }
}

/// Why a configuration is refused before anything privileged is attempted.
#[derive(Clone, Copy, Debug, PartialEq, Eq, Structural)]
pub enum ConfigError {
    /// There is no command to run.
    EmptyCommand,
    /// The root filesystem path is not absolute.
    RootPathNotAbsolute,
    /// The control group name is not a single plain path component, so the
    /// group would not stand directly in the pids hierarchy.
    InvalidGroupName,
}

/// Exit status of a run refused for its configuration.
pub const CONFIG_FAILURE_CODE: i32 = 1;

impl ConfigError {
    /// The exit status that reports this error.
    pub fn exit_code(&self) -> (r: i32)
        ensures
            r == CONFIG_FAILURE_CODE,
    {
        CONFIG_FAILURE_CODE
    }
}

/// A name that is one plain path component: not empty, without `/`, and
/// neither `.` nor `..`.
pub open spec fn plain_name(n: Seq<char>) -> bool {
    &&& n.len() > 0
    &&& forall|i: int| 0 <= i < n.len() ==> #[trigger] n[i] != '/'
    &&& n != seq!['.']
    &&& n != seq!['.', '.']
}

/// Tells whether `n` is one plain path component.
pub fn is_plain_name(n: &str) -> (r: bool)
    ensures
        r == plain_name(n@),
{
    let len = n.unicode_len();
    if len == 0 {
        return false;
    }
    let mut i: usize = 0;
    while i < len
        invariant
            i <= len,
            len == n@.len(),
            forall|k: int| 0 <= k < i ==> #[trigger] n@[k] != '/',
        decreases len - i,
    {
        if n.get_char(i) == '/' {
            return false;
        }
        i = i + 1;
    }
    if len == 1 && n.get_char(0) == '.' {
        assert(n@ =~= seq!['.']);
        return false;
    }
    if len == 2 && n.get_char(0) == '.' && n.get_char(1) == '.' {
        assert(n@ =~= seq!['.', '.']);
        return false;
    }
    if len == 1 {
        assert(n@ != seq!['.']) by {
            if n@ == seq!['.'] {
                assert(n@[0] == '.');
            }
        }
    }
    if len == 2 {
        assert(n@ != seq!['.', '.']) by {
            if n@ == seq!['.', '.'] {
                assert(n@[0] == '.' && n@[1] == '.');
            }
        }
    }
    true
}

/// A path that starts at `/`.
pub open spec fn is_absolute(p: Seq<char>) -> bool {
    p.len() > 0 && p[0] == '/'
}

/// The configuration error of `c`, if any, checked in this order: the command,
/// the root path, the group name.
pub open spec fn config_error(c: ContainerView) -> Option<ConfigError> {
    if c.args.len() == 0 {
        Some(ConfigError::EmptyCommand)
    } else if !is_absolute(c.chroot_path) {
        Some(ConfigError::RootPathNotAbsolute)
    } else if !plain_name(c.cgroup_name) {
        Some(ConfigError::InvalidGroupName)
    } else {
        None
    }
}

/// A configuration that a run can start from.
pub open spec fn valid(c: ContainerView) -> bool {
    config_error(c) is None
}

impl ContainerBuilder {
    /// A builder with no command, empty paths and names, and a limit of zero.
    pub fn new() -> (r: Self)
        ensures
            r@.args.len() == 0,
            r@.chroot_path.len() == 0,
            r@.cgroup_name.len() == 0,
            r@.hostname.len() == 0,
            r@.max_pids == 0,
    {
        ContainerBuilder {
            args: Vec::new(),
            chroot_path: String::new(),
            cgroup_name: String::new(),
            hostname: String::new(),
            max_pids: 0,
        }
    }

    /// Sets the command line: the program, then its arguments.
    pub fn args(self, args: Vec<String>) -> (r: Self)
        ensures
            r@ == (ContainerView { args: strings_view(args@), ..self@ }),
    {
        ContainerBuilder { args, ..self }
    }

    /// Sets the directory that becomes the container's root.
    pub fn chroot_path(self, path: String) -> (r: Self)
        ensures
            r@ == (ContainerView { chroot_path: path@, ..self@ }),
    {
        ContainerBuilder { chroot_path: path, ..self }
    }

    /// Sets the most processes that may live in the container at once.
    pub fn max_pids(self, max_pids: u8) -> (r: Self)
        ensures
            r@ == (ContainerView { max_pids, ..self@ }),
    {
        ContainerBuilder { max_pids, ..self }
    }

    /// Sets the name of the container's pids control group.
    pub fn cgroup_name(self, cgroup_name: &str) -> (r: Self)
        ensures
            r@ == (ContainerView { cgroup_name: cgroup_name@, ..self@ }),
    {
        ContainerBuilder { cgroup_name: String::from_str(cgroup_name), ..self }
    }

    /// Sets the hostname of the container's UTS namespace.
    pub fn hostname(self, hostname: &str) -> (r: Self)
        ensures
            r@ == (ContainerView { hostname: hostname@, ..self@ }),
    {
        ContainerBuilder { hostname: String::from_str(hostname), ..self }
    }

    /// The container that the builder describes.
    pub fn create(self) -> (r: Container)
        ensures
            r@ == self@,
    {
        Container {
            args: self.args,
            chroot_path: self.chroot_path,
            cgroup_name: self.cgroup_name,
            hostname: self.hostname,
            max_pids: self.max_pids,
        }
    }
}

impl Container {
    /// Checks the configuration: `Ok` exactly when it is valid, else the
    /// first error found.
    pub fn validate(&self) -> (r: Result<(), ConfigError>)
        ensures
            r is Ok <==> valid(self@),
            r is Err ==> Some(r->Err_0) == config_error(self@),
    {
        if self.args.len() == 0 {
            return Err(ConfigError::EmptyCommand);
        }
        let root = self.chroot_path.as_str();
        if root.unicode_len() == 0 {
            return Err(ConfigError::RootPathNotAbsolute);
        }
        if root.get_char(0) != '/' {
            return Err(ConfigError::RootPathNotAbsolute);
        }
        if !is_plain_name(self.cgroup_name.as_str()) {
            return Err(ConfigError::InvalidGroupName);
        }
        Ok(())
    }
}

} // verus!
