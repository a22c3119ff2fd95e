use vstd::prelude::*;
use vstd::string::*;

use crate::error::SafecrateError;

verus! {

/// What is appended to a directory's final component to name its container.
pub const CONTAINER_SUFFIX: &'static str = "_isolated";

/// Index just past the last `/` of `p`, or 0 where `p` holds no `/`.
pub open spec fn component_start(p: Seq<char>) -> int
    decreases p.len(),
{
    if p.len() == 0 {
        0
    } else if p.last() == '/' {
        p.len() as int
    } else {
        component_start(p.drop_last())
    }
}

/// The final component of a path: what follows its last `/`.
pub open spec fn final_component(p: Seq<char>) -> Seq<char> {
    p.subrange(component_start(p), p.len() as int)
}

/// A path has a final component when it does not end in `/` and is not empty
/// (the root `/` has none).
pub open spec fn has_component(p: Seq<char>) -> bool {
    final_component(p).len() > 0
}

/// The name of the container that holds the directory whose canonical path is `p`.
pub open spec fn container_name_of(p: Seq<char>) -> Seq<char> {
    final_component(p) + CONTAINER_SUFFIX@
}

/// `i` starts the final component of `p` when no `/` follows it and a `/`
/// (or the start of the path) stands just before it.
proof fn lemma_component_start_unique(p: Seq<char>, i: int)
    requires
        0 <= i <= p.len(),
        i == 0 || p[i - 1] == '/',
        forall|j: int| i <= j < p.len() ==> p[j] != '/',
    ensures
        component_start(p) == i,
    decreases p.len(),
{
    if p.len() > 0 && p.last() != '/' {
        let q = p.drop_last();
        assert forall|j: int| i <= j < q.len() implies q[j] != '/' by {
            assert(q[j] == p[j]);
        }
        if i == p.len() {
            assert(p[i - 1] == p.last());
        }
        lemma_component_start_unique(q, i);
    }
}

/// The final component of a canonical path, or `None` where it has none.
pub fn project_name(abs_dir: &str) -> (r: Option<String>)
    ensures
        match r {
            Some(name) => has_component(abs_dir@) && name@ == final_component(abs_dir@),
            None => !has_component(abs_dir@),
        },
{
    let len = abs_dir.unicode_len();
    let mut i: usize = len;
    while i > 0 && abs_dir.get_char(i - 1) != '/'
        invariant
            i <= len,
            len == abs_dir@.len(),
            forall|j: int| i <= j < len ==> abs_dir@[j] != '/',
        decreases i,
    {
        i = i - 1;
    }
    proof {
        lemma_component_start_unique(abs_dir@, i as int);
    }
    if i == len {
        None
    } else {
        Some(abs_dir.substring_char(i, len).to_string())
    }
}

/// The container name for a project name: the project name followed by
/// [`CONTAINER_SUFFIX`], with no escaping of any kind.
pub fn container_name(project: &str) -> (r: String)
    ensures
        r@ == project@ + CONTAINER_SUFFIX@,
{
    String::from_str(project).concat(CONTAINER_SUFFIX)
}

/// The container name for the directory at the canonical path `abs_dir`.
pub fn container_name_for_dir(abs_dir: &str) -> (r: Result<String, SafecrateError>)
    ensures
        match r {
            Ok(name) => has_component(abs_dir@) && name@ == container_name_of(abs_dir@),
            Err(e) => !has_component(abs_dir@) && e == SafecrateError::InvalidDirectoryName,
        },
{
    match project_name(abs_dir) {
        Some(p) => Ok(container_name(p.as_str())),
        None => Err(SafecrateError::InvalidDirectoryName),
    }
}

} // verus!
