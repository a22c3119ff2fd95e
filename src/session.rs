use vstd::prelude::*;
use vstd::string::*;

use crate::error::SafecrateError;
use crate::invocation::{start_args_spec, start_invocation, texts};
use crate::naming::{container_name_for_dir, container_name_of, has_component};

verus! {

/// A character with the Unicode `White_Space` property.
pub open spec fn is_white_space_spec(c: char) -> bool {
    let u = c as u32;
    (0x9 <= u <= 0xd) || u == 0x20 || u == 0x85 || u == 0xa0 || u == 0x1680 || (0x2000 <= u
        <= 0x200a) || u == 0x2028 || u == 0x2029 || u == 0x202f || u == 0x205f || u == 0x3000
}

pub fn is_white_space(c: char) -> (r: bool)
    ensures
        r == is_white_space_spec(c),
{
    let u = c as u32;
    (0x9 <= u && u <= 0xd) || u == 0x20 || u == 0x85 || u == 0xa0 || u == 0x1680 || (0x2000 <= u
        && u <= 0x200a) || u == 0x2028 || u == 0x2029 || u == 0x202f || u == 0x205f || u == 0x3000
}

/// `t` with the white space at both ends taken off.
pub open spec fn trim_spec(t: Seq<char>) -> Seq<char>
    decreases t.len(),
{
    if t.len() > 0 && is_white_space_spec(t[0]) {
        trim_spec(t.drop_first())
    } else if t.len() > 0 && is_white_space_spec(t.last()) {
        trim_spec(t.drop_last())
    } else {
        t
    }
}

/// `s[p..q]` is one line of `s`: it holds no newline, and a newline or an end
/// of `s` stands on either side of it.
pub open spec fn is_line(s: Seq<char>, p: int, q: int) -> bool {
    &&& 0 <= p <= q <= s.len()
    &&& p == 0 || s[p - 1] == '\n'
    &&& q == s.len() || s[q] == '\n'
    &&& forall|k: int| p <= k < q ==> s[k] != '\n'
}

/// Some line of the engine's newline-separated listing, trimmed of white space,
/// is exactly `name`.
pub open spec fn lists_container_spec(listing: Seq<char>, name: Seq<char>) -> bool {
    exists|p: int, q: int| #[trigger] is_line(listing, p, q) && trim_spec(listing.subrange(p, q)) == name
}

/// Where `t[..x]` and `t[y..]` are white space and `t[x..y]` neither starts nor
/// ends with it, `t[x..y]` is `t` trimmed.
proof fn lemma_trim_bounds(t: Seq<char>, x: int, y: int)
    requires
        0 <= x <= y <= t.len(),
        forall|k: int| 0 <= k < x ==> is_white_space_spec(#[trigger] t[k]),
        forall|k: int| y <= k < t.len() ==> is_white_space_spec(#[trigger] t[k]),
        x < y ==> !is_white_space_spec(t[x]) && !is_white_space_spec(t[y - 1]),
    ensures
        trim_spec(t) == t.subrange(x, y),
    decreases t.len(),
{
    if t.len() > 0 && is_white_space_spec(t[0]) {
        let u = t.drop_first();
        let (x1, y1) = if x > 0 {
            (x - 1, y - 1)
        } else {
            (0, 0)
        };
        assert forall|k: int| 0 <= k < x1 implies is_white_space_spec(#[trigger] u[k]) by {
            assert(u[k] == t[k + 1]);
        }
        assert forall|k: int| y1 <= k < u.len() implies is_white_space_spec(#[trigger] u[k]) by {
            assert(u[k] == t[k + 1]);
        }
        if x1 < y1 {
            assert(u[x1] == t[x]);
            assert(u[y1 - 1] == t[y - 1]);
        }
        lemma_trim_bounds(u, x1, y1);
        assert(u.subrange(x1, y1) =~= t.subrange(x, y));
    } else if t.len() > 0 && is_white_space_spec(t.last()) {
        let u = t.drop_last();
        if y == t.len() && x == y {
            assert(is_white_space_spec(t[0]));
        }
        assert forall|k: int| 0 <= k < x implies is_white_space_spec(#[trigger] u[k]) by {
            assert(u[k] == t[k]);
        }
        assert forall|k: int| y <= k < u.len() implies is_white_space_spec(#[trigger] u[k]) by {
            assert(u[k] == t[k]);
        }
        lemma_trim_bounds(u, x, y);
        assert(u.subrange(x, y) =~= t.subrange(x, y));
    } else {
        if x > 0 {
            assert(is_white_space_spec(t[0]));
        }
        if y < t.len() {
            assert(is_white_space_spec(t[t.len() - 1]));
        }
        assert(t.subrange(x, y) =~= t);
    }
}

/// Whether the line `listing[start..end]`, trimmed of white space, is `name`.
fn line_is(listing: &str, start: usize, end: usize, name: &String) -> (r: bool)
    requires
        start <= end <= listing@.len(),
    ensures
        r == (trim_spec(listing@.subrange(start as int, end as int)) == name@),
{
    let mut a: usize = start;
    while a < end && is_white_space(listing.get_char(a))
        invariant
            start <= a <= end <= listing@.len(),
            forall|k: int| start <= k < a ==> is_white_space_spec(#[trigger] listing@[k]),
        decreases end - a,
    {
        a = a + 1;
    }
    let mut b: usize = end;
    while b > a && is_white_space(listing.get_char(b - 1))
        invariant
            start <= a <= b <= end <= listing@.len(),
            forall|k: int| b <= k < end ==> is_white_space_spec(#[trigger] listing@[k]),
        decreases b,
    {
        b = b - 1;
    }
    proof {
        let t = listing@.subrange(start as int, end as int);
        let x = a - start;
        let y = b - start;
        assert forall|k: int| 0 <= k < x implies is_white_space_spec(#[trigger] t[k]) by {
            assert(t[k] == listing@[start + k]);
        }
        assert forall|k: int| y <= k < t.len() implies is_white_space_spec(#[trigger] t[k]) by {
            assert(t[k] == listing@[start + k]);
        }
        if x < y {
            assert(t[x] == listing@[a as int]);
            assert(t[y - 1] == listing@[b - 1]);
        }
        lemma_trim_bounds(t, x, y);
        assert(t.subrange(x, y) =~= listing@.subrange(a as int, b as int));
    }
    let trimmed = String::from_str(listing.substring_char(a, b));
    trimmed == *name
}

/// Whether some line of the engine's newline-separated `listing`, trimmed of
/// white space, is exactly `name`.
pub fn lists_container(listing: &str, name: &str) -> (r: bool)
    ensures
        r == lists_container_spec(listing@, name@),
{
    let wanted = String::from_str(name);
    let len = listing.unicode_len();
    let mut i: usize = 0;
    loop
        invariant
            i <= len,
            len == listing@.len(),
            i == 0 || listing@[i - 1] == '\n',
            wanted@ == name@,
            forall|p: int, q: int|
                #[trigger] is_line(listing@, p, q) && p < i ==> trim_spec(listing@.subrange(p, q))
                    != name@,
        decreases len - i,
    {
        let mut j: usize = i;
        while j < len && listing.get_char(j) != '\n'
            invariant
                i <= j <= len,
                len == listing@.len(),
                forall|k: int| i <= k < j ==> listing@[k] != '\n',
            decreases len - j,
        {
            j = j + 1;
        }
        assert(is_line(listing@, i as int, j as int));
        if line_is(listing, i, j, &wanted) {
            return true;
        }
        assert forall|p: int, q: int| #[trigger] is_line(listing@, p, q) && p <= j implies trim_spec(
            listing@.subrange(p, q),
        ) != name@ by {
            if p >= i {
                if p > i {
                    assert(listing@[p - 1] == '\n');
                }
                if q > j {
                    assert(listing@[j as int] == '\n');
                }
                if q < j {
                    assert(listing@[q] == '\n');
                }
            }
        }
        if j == len {
            return false;
        }
        i = j + 1;
    }
}

/// What `resume` does once the engine has listed the containers that its name
/// filter matched: start the directory's container where the listing names it
/// exactly, else fail without starting anything.
pub open spec fn resume_step_spec(dir: Seq<char>, listing: Seq<char>) -> Result<
    Seq<Seq<char>>,
    SafecrateError,
> {
    if !has_component(dir) {
        Err(SafecrateError::InvalidDirectoryName)
    } else if !lists_container_spec(listing, container_name_of(dir)) {
        Err(SafecrateError::NoExistingContainer)
    } else {
        Ok(start_args_spec(container_name_of(dir)))
    }
}

/// The engine arguments that resume the kept container of the directory at the
/// canonical path `abs_dir`, given the engine's `listing` of containers under
/// its name (a listing that names only other containers does not count).
pub fn resume_step(abs_dir: &str, listing: &str) -> (r: Result<Vec<String>, SafecrateError>)
    ensures
        match r {
            Ok(args) => resume_step_spec(abs_dir@, listing@) == Ok::<Seq<Seq<char>>, SafecrateError>(
                texts(args@),
            ),
            Err(e) => resume_step_spec(abs_dir@, listing@) == Err::<Seq<Seq<char>>, SafecrateError>(
                e,
            ),
        },
{
    let name = match container_name_for_dir(abs_dir) {
        Ok(n) => n,
        Err(e) => return Err(e),
    };
    if !lists_container(listing, name.as_str()) {
        return Err(SafecrateError::NoExistingContainer);
    }
    Ok(start_invocation(name.as_str()))
}

/// One engine call that a command makes and whose exit status decides the command.
#[derive(Debug, Clone, Copy, PartialEq, Eq, Structural)]
pub enum Operation {
    Build,
    Open,
    Resume,
    Remove,
}

impl Operation {
    pub open spec fn failure_spec(self) -> SafecrateError {
        match self {
            Operation::Build => SafecrateError::BuildFailed,
            Operation::Open => SafecrateError::OpenFailed,
            Operation::Resume => SafecrateError::ResumeFailed,
            Operation::Remove => SafecrateError::RemoveFailed,
        }
    }

    /// The error a failure of this call is reported as.
    pub fn failure(self) -> (r: SafecrateError)
        ensures
            r == self.failure_spec(),
    {
        match self {
            Operation::Build => SafecrateError::BuildFailed,
            Operation::Open => SafecrateError::OpenFailed,
            Operation::Resume => SafecrateError::ResumeFailed,
            Operation::Remove => SafecrateError::RemoveFailed,
        }
    }

    /// The command's result from the engine's exit status: success only where the
    /// engine succeeded. Every failure is a hard failure, the image build's too.
    pub fn outcome(self, success: bool) -> (r: Result<(), SafecrateError>)
        ensures
            success ==> r == Ok::<(), SafecrateError>(()),
            !success ==> r == Err::<(), SafecrateError>(self.failure_spec()),
    {
        if success {
            Ok(())
        } else {
            Err(self.failure())
        }
    }
}

/// The confirmation printed once the container `name` is removed.
pub fn removal_notice(name: &str) -> (r: String)
    ensures
        r@ == "\u{2705} Removed container "@ + name@,
{
    String::from_str("\u{2705} Removed container ").concat(name)
}

} // verus!
