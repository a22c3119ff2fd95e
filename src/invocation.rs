use vstd::prelude::*;
use vstd::string::*;

use crate::error::SafecrateError;
use crate::naming::{container_name_for_dir, container_name_of, has_component};

verus! {

/// The program that runs containers.
pub const ENGINE: &'static str = "docker";

/// The tag of the base image that `init` builds and `open` runs.
pub const IMAGE_NAME: &'static str = "safecrate_default";

/// Where the host directory is mounted inside the container, and where the
/// command starts.
pub const WORKSPACE_DIR: &'static str = "/workspace";

/// The build context of the image: the current working directory.
pub const BUILD_CONTEXT: &'static str = ".";

/// The shell that runs the user's command inside the container.
pub const SHELL: &'static str = "sh";

/// The engine's format for a listing that holds container names only.
pub const NAMES_FORMAT: &'static str = "{{.Names}}";

/// The text of each argument of an argument list.
pub open spec fn texts(v: Seq<String>) -> Seq<Seq<char>> {
    v.map_values(|s: String| s@)
}

/// `build -t <image> -f <dockerfile> <context>`
pub open spec fn build_args_spec(dockerfile: Seq<char>) -> Seq<Seq<char>> {
    seq!["build"@, "-t"@, IMAGE_NAME@, "-f"@, dockerfile, BUILD_CONTEXT@]
}

/// The bind mount of the host directory onto the workspace.
pub open spec fn mount_spec(dir: Seq<char>) -> Seq<char> {
    dir + ":"@ + WORKSPACE_DIR@
}

/// `run -it [--rm] --name <name> [--network bridge] -v <dir>:<workspace> -w <workspace> <image> sh -c <cmd>`
pub open spec fn run_args_spec(
    dir: Seq<char>,
    cmd: Seq<char>,
    keep_container: bool,
    no_network: bool,
) -> Seq<Seq<char>> {
    seq!["run"@, "-it"@] + (if keep_container {
        Seq::empty()
    } else {
        seq!["--rm"@]
    }) + seq!["--name"@, container_name_of(dir)] + (if no_network {
        Seq::empty()
    } else {
        seq!["--network"@, "bridge"@]
    }) + seq![
        "-v"@,
        mount_spec(dir),
        "-w"@,
        WORKSPACE_DIR@,
        IMAGE_NAME@,
        SHELL@,
        "-c"@,
        cmd,
    ]
}

/// `ps -a --filter name=<name> --format <names only>`
pub open spec fn query_args_spec(name: Seq<char>) -> Seq<Seq<char>> {
    seq!["ps"@, "-a"@, "--filter"@, "name="@ + name, "--format"@, NAMES_FORMAT@]
}

/// `start -ai <name>`
pub open spec fn start_args_spec(name: Seq<char>) -> Seq<Seq<char>> {
    seq!["start"@, "-ai"@, name]
}

/// `rm [-f] <name>`
pub open spec fn remove_args_spec(name: Seq<char>, force: bool) -> Seq<Seq<char>> {
    seq!["rm"@] + (if force {
        seq!["-f"@]
    } else {
        Seq::empty()
    }) + seq![name]
}

fn push_owned(args: &mut Vec<String>, s: String)
    ensures
        texts(final(args)@) == texts(old(args)@).push(s@),
{
    args.push(s);
    assert(texts(args@) =~= texts(old(args)@).push(s@));
}

fn push_text(args: &mut Vec<String>, s: &str)
    ensures
        texts(final(args)@) == texts(old(args)@).push(s@),
{
    push_owned(args, String::from_str(s));
}

/// The engine arguments that build the base image from `dockerfile`.
pub fn build_invocation(dockerfile: &str) -> (r: Vec<String>)
    ensures
        texts(r@) == build_args_spec(dockerfile@),
{
    let mut args: Vec<String> = Vec::new();
    push_text(&mut args, "build");
    push_text(&mut args, "-t");
    push_text(&mut args, IMAGE_NAME);
    push_text(&mut args, "-f");
    push_text(&mut args, dockerfile);
    push_text(&mut args, BUILD_CONTEXT);
    assert(texts(args@) =~= build_args_spec(dockerfile@));
    args
}

/// The engine arguments that run `cmd` in a container of the base image, with
/// the directory at the canonical path `abs_dir` mounted as the workspace. The
/// container joins the bridge network unless `no_network` is set, in which case
/// no network option is given at all.
pub fn open_invocation(abs_dir: &str, cmd: &str, keep_container: bool, no_network: bool) -> (r:
    Result<Vec<String>, SafecrateError>)
    ensures
        match r {
            Ok(args) => has_component(abs_dir@) && texts(args@) == run_args_spec(
                abs_dir@,
                cmd@,
                keep_container,
                no_network,
            ),
            Err(e) => !has_component(abs_dir@) && e == SafecrateError::InvalidDirectoryName,
        },
{
    let name = match container_name_for_dir(abs_dir) {
        Ok(n) => n,
        Err(e) => return Err(e),
    };
    let mut args: Vec<String> = Vec::new();
    push_text(&mut args, "run");
    push_text(&mut args, "-it");
    if !keep_container {
        push_text(&mut args, "--rm");
    }
    push_text(&mut args, "--name");
    push_owned(&mut args, name);
    if !no_network {
        push_text(&mut args, "--network");
        push_text(&mut args, "bridge");
    }
    push_text(&mut args, "-v");
    push_owned(&mut args, String::from_str(abs_dir).concat(":").concat(WORKSPACE_DIR));
    push_text(&mut args, "-w");
    push_text(&mut args, WORKSPACE_DIR);
    push_text(&mut args, IMAGE_NAME);
    push_text(&mut args, SHELL);
    push_text(&mut args, "-c");
    push_text(&mut args, cmd);
    assert(texts(args@) =~= run_args_spec(abs_dir@, cmd@, keep_container, no_network));
    Ok(args)
}

/// The engine arguments that list every container, running or stopped, whose
/// name is that of the directory at the canonical path `abs_dir`.
pub fn query_invocation(abs_dir: &str) -> (r: Result<Vec<String>, SafecrateError>)
    ensures
        match r {
            Ok(args) => has_component(abs_dir@) && texts(args@) == query_args_spec(
                container_name_of(abs_dir@),
            ),
            Err(e) => !has_component(abs_dir@) && e == SafecrateError::InvalidDirectoryName,
        },
{
    let name = match container_name_for_dir(abs_dir) {
        Ok(n) => n,
        Err(e) => return Err(e),
    };
    let mut args: Vec<String> = Vec::new();
    push_text(&mut args, "ps");
    push_text(&mut args, "-a");
    push_text(&mut args, "--filter");
    push_owned(&mut args, String::from_str("name=").concat(name.as_str()));
    push_text(&mut args, "--format");
    push_text(&mut args, NAMES_FORMAT);
    assert(texts(args@) =~= query_args_spec(container_name_of(abs_dir@)));
    Ok(args)
}

/// The engine arguments that start the container `name` and attach to it.
pub fn start_invocation(name: &str) -> (r: Vec<String>)
    ensures
        texts(r@) == start_args_spec(name@),
{
    let mut args: Vec<String> = Vec::new();
    push_text(&mut args, "start");
    push_text(&mut args, "-ai");
    push_text(&mut args, name);
    assert(texts(args@) =~= start_args_spec(name@));
    args
}

/// The engine arguments that remove the container of the directory at the
/// canonical path `abs_dir`; with `force`, also while it runs.
pub fn remove_invocation(abs_dir: &str, force: bool) -> (r: Result<Vec<String>, SafecrateError>)
    ensures
        match r {
            Ok(args) => has_component(abs_dir@) && texts(args@) == remove_args_spec(
                container_name_of(abs_dir@),
                force,
            ),
            Err(e) => !has_component(abs_dir@) && e == SafecrateError::InvalidDirectoryName,
        },
{
    let name = match container_name_for_dir(abs_dir) {
        Ok(n) => n,
        Err(e) => return Err(e),
    };
    let mut args: Vec<String> = Vec::new();
    push_text(&mut args, "rm");
    if force {
        push_text(&mut args, "-f");
    }
    push_owned(&mut args, name);
    assert(texts(args@) =~= remove_args_spec(container_name_of(abs_dir@), force));
    Ok(args)
}

} // verus!
