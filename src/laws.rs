use vstd::prelude::*;
use vstd::string::*;

use crate::error::SafecrateError;
use crate::invocation::{
    mount_spec, query_args_spec, remove_args_spec, run_args_spec,
    start_args_spec, WORKSPACE_DIR,
};
use crate::naming::{container_name_of, final_component, has_component, CONTAINER_SUFFIX};
use crate::session::{lists_container_spec, resume_step_spec};

verus! {

/// The options that a run invocation hands the engine itself: everything before
/// the image, the shell, its `-c` and the user's command.
pub open spec fn engine_options(args: Seq<Seq<char>>) -> Seq<Seq<char>> {
    args.take(args.len() - 4)
}

/// `p` holds `s` somewhere as a contiguous run of characters.
pub open spec fn contains_text(p: Seq<char>, s: Seq<char>) -> bool {
    exists|i: int| 0 <= i && i + s.len() <= p.len() && #[trigger] p.subrange(i, i + s.len()) == s
}

proof fn lemma_name_longer_than_suffix(dir: Seq<char>)
    requires
        has_component(dir),
    ensures
        container_name_of(dir).len() > 9,
{
    reveal_strlit("_isolated");
}

/// Two directories whose canonical paths end in the same component get the same
/// container name, and so the same listing, start and removal invocations; in
/// particular two paths that canonicalize to the same directory do.
pub proof fn law_same_directory_same_name(a: Seq<char>, b: Seq<char>)
    requires
        final_component(a) == final_component(b),
    ensures
        container_name_of(a) == container_name_of(b),
        query_args_spec(container_name_of(a)) == query_args_spec(container_name_of(b)),
        start_args_spec(container_name_of(a)) == start_args_spec(container_name_of(b)),
        forall|force: bool|
            remove_args_spec(container_name_of(a), force) == remove_args_spec(
                container_name_of(b),
                force,
            ),
{
}

/// A directory whose name already holds the suffix is named like any other: the
/// suffix is appended once more, with no escaping, and names of directories
/// differ exactly where their final components differ.
pub proof fn law_suffix_in_name_is_not_special(a: Seq<char>, b: Seq<char>)
    requires
        contains_text(final_component(a), CONTAINER_SUFFIX@),
    ensures
        container_name_of(a) == final_component(a) + CONTAINER_SUFFIX@,
        container_name_of(a) == container_name_of(b) <==> final_component(a) == final_component(b),
{
    let x = final_component(a);
    let y = final_component(b);
    let s = CONTAINER_SUFFIX@;
    if x + s == y + s {
        assert(x =~= (x + s).take(x.len() as int));
        assert(y =~= (y + s).take(y.len() as int));
    }
}

/// A container opened with `--keep-container` is not removed on exit, and once
/// the engine lists it, `resume` starts that very container, by the same name
/// that the listing asked for, with no image build.
pub proof fn law_kept_container_is_resumable(
    dir: Seq<char>,
    cmd: Seq<char>,
    no_network: bool,
    listing: Seq<char>,
)
    requires
        has_component(dir),
        lists_container_spec(listing, container_name_of(dir)),
    ensures
        !engine_options(run_args_spec(dir, cmd, true, no_network)).contains("--rm"@),
        run_args_spec(dir, cmd, true, no_network)[3] == container_name_of(dir),
        query_args_spec(container_name_of(dir))[3] == "name="@ + container_name_of(dir),
        resume_step_spec(dir, listing) == Ok::<Seq<Seq<char>>, SafecrateError>(
            start_args_spec(container_name_of(dir)),
        ),
{
    let opts = engine_options(run_args_spec(dir, cmd, true, no_network));
    lemma_name_longer_than_suffix(dir);
    reveal_strlit("--rm");
    reveal_strlit("run");
    reveal_strlit("-it");
    reveal_strlit("--name");
    reveal_strlit("--network");
    reveal_strlit("bridge");
    reveal_strlit("-v");
    reveal_strlit("-w");
    reveal_strlit(":");
    reveal_strlit("/workspace");
    let net: Seq<Seq<char>> = if no_network {
        Seq::empty()
    } else {
        seq!["--network"@, "bridge"@]
    };
    assert(opts =~= seq!["run"@, "-it"@, "--name"@, container_name_of(dir)] + net + seq![
        "-v"@,
        mount_spec(dir),
        "-w"@,
        WORKSPACE_DIR@,
    ]);
    assert forall|i: int| 0 <= i < opts.len() implies opts[i] != "--rm"@ by {
        assert(opts[i].len() != 4);
    }
}

/// With `--no-network`, the options handed to the engine name no network at
/// all: neither the network option nor a network to join.
pub proof fn law_no_network_never_enables_network(
    dir: Seq<char>,
    cmd: Seq<char>,
    keep_container: bool,
)
    requires
        has_component(dir),
    ensures
        !engine_options(run_args_spec(dir, cmd, keep_container, true)).contains("--network"@),
        !engine_options(run_args_spec(dir, cmd, keep_container, true)).contains("bridge"@),
{
    let opts = engine_options(run_args_spec(dir, cmd, keep_container, true));
    lemma_name_longer_than_suffix(dir);
    reveal_strlit("run");
    reveal_strlit("-it");
    reveal_strlit("--rm");
    reveal_strlit("--name");
    reveal_strlit("--network");
    reveal_strlit("bridge");
    reveal_strlit("-v");
    reveal_strlit("-w");
    reveal_strlit(":");
    reveal_strlit("/workspace");
    let pre: Seq<Seq<char>> = if keep_container {
        seq!["run"@, "-it"@]
    } else {
        seq!["run"@, "-it"@, "--rm"@]
    };
    assert(opts =~= pre + seq![
        "--name"@,
        container_name_of(dir),
        "-v"@,
        mount_spec(dir),
        "-w"@,
        WORKSPACE_DIR@,
    ]);
    assert forall|i: int| 0 <= i < opts.len() implies opts[i] != "--network"@ && opts[i]
        != "bridge"@ by {
        assert(opts[i].len() != 9);
        assert(opts[i].len() != 6 || opts[i][0] == '-');
    }
}

/// `resume` on a directory whose container the engine does not list fails with
/// the error that asks for `open --keep-container`, and starts nothing.
pub proof fn law_resume_without_kept_container_fails(dir: Seq<char>, listing: Seq<char>)
    requires
        has_component(dir),
        !lists_container_spec(listing, container_name_of(dir)),
    ensures
        resume_step_spec(dir, listing) == Err::<Seq<Seq<char>>, SafecrateError>(
            SafecrateError::NoExistingContainer,
        ),
{
}

/// `remove` without `--force` hands the engine no force flag, so whether a
/// running container goes is left to the engine, whose refusal
/// [`Operation::outcome`] then reports as the command's failure.
pub proof fn law_remove_without_force_surfaces_failure(dir: Seq<char>)
    requires
        has_component(dir),
    ensures
        !remove_args_spec(container_name_of(dir), false).contains("-f"@),
{
    lemma_name_longer_than_suffix(dir);
    reveal_strlit("rm");
    reveal_strlit("-f");
    let args = remove_args_spec(container_name_of(dir), false);
    assert(args =~= seq!["rm"@, container_name_of(dir)]);
    assert forall|i: int| 0 <= i < args.len() implies args[i] != "-f"@ by {
        if i == 0 {
            assert(args[i][0] != "-f"@[0]);
        }
    }
}

} // verus!
