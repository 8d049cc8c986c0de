use vstd::prelude::*;

verus! {

/// `rel` resolved against `base` as a path join does it: an absolute `rel`
/// replaces `base`, and otherwise one `/` separates the two.
pub open spec fn joined(base: Seq<char>, rel: Seq<char>) -> Seq<char> {
    if rel.len() > 0 && rel[0] == '/' {
        rel
    } else if base.len() == 0 {
        rel
    } else if base.last() == '/' {
        base + rel
    } else {
        base + seq!['/'] + rel
    }
}

/// Joins `join_path` onto the directory `pwd` (the working directory).
pub fn pwd_join(pwd: &str, join_path: &str) -> (r: String)
    ensures
        r@ == joined(pwd@, join_path@),
{
    proof {
        reveal_strlit("/");
    }
    let rel_len = join_path.unicode_len();
    if rel_len > 0 && join_path.get_char(0) == '/' {
        return String::from_str(join_path);
    }
    let base_len = pwd.unicode_len();
    if base_len == 0 {
        return String::from_str(join_path);
    }
    let mut r = String::from_str(pwd);
    if pwd.get_char(base_len - 1) != '/' {
        r.append("/");
    }
    r.append(join_path);
    r
}

/// The directory of the control group named `name`: directly under the pids
/// controller's hierarchy, `/sys/fs/cgroup/pids`.
pub open spec fn cgroup_dir(name: Seq<char>) -> Seq<char> {
    "/sys/fs/cgroup/pids/"@ + name
}

/// The control file `file` of the group named `name`.
pub open spec fn group_file(name: Seq<char>, file: Seq<char>) -> Seq<char> {
    cgroup_dir(name) + "/"@ + file
}

/// The path of the control group directory for `cgroup_name`.
pub fn cgroup_path(cgroup_name: &str) -> (r: String)
    ensures
        r@ == cgroup_dir(cgroup_name@),
{
    let mut r = String::from_str("/sys/fs/cgroup/pids/");
    r.append(cgroup_name);
    r
}

/// The path of the control file `file` of the group named `cgroup_name`.
pub fn group_file_path(cgroup_name: &str, file: &str) -> (r: String)
    ensures
        r@ == group_file(cgroup_name@, file@),
{
    let mut r = cgroup_path(cgroup_name);
    r.append("/");
    r.append(file);
    r
}

/// The name of the directory, under the new root, where the old root is parked.
pub open spec fn old_root_name() -> Seq<char> {
    "oldroot"@
}

/// Where the parked old root is seen once the new root is `/`.
pub open spec fn parked_old_root() -> Seq<char> {
    "/oldroot"@
}

} // verus!
