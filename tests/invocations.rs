use safecrate::{
    build_invocation, container_name, container_name_for_dir, is_white_space, lists_container,
    open_invocation, project_name, query_invocation, removal_notice, remove_invocation,
    resume_step, start_invocation, Operation, SafecrateError, CONTAINER_SUFFIX, ENGINE,
    IMAGE_NAME, WORKSPACE_DIR,
};

fn strings(v: &[&str]) -> Vec<String> {
    v.iter().map(|s| s.to_string()).collect()
}

#[test]
fn constants_name_the_engine_image_and_workspace() {
    assert_eq!(ENGINE, "docker");
    assert_eq!(IMAGE_NAME, "safecrate_default");
    assert_eq!(WORKSPACE_DIR, "/workspace");
    assert_eq!(CONTAINER_SUFFIX, "_isolated");
}

#[test]
fn end_to_end_open_of_home_project() {
    assert_eq!(container_name_for_dir("/home/u/proj"), Ok("proj_isolated".to_string()));
    let args = open_invocation("/home/u/proj", "ls", false, false).unwrap();
    assert_eq!(
        args,
        strings(&[
            "run",
            "-it",
            "--rm",
            "--name",
            "proj_isolated",
            "--network",
            "bridge",
            "-v",
            "/home/u/proj:/workspace",
            "-w",
            "/workspace",
            "safecrate_default",
            "sh",
            "-c",
            "ls",
        ])
    );
}

#[test]
fn open_keeps_the_whole_command_as_one_shell_argument() {
    let args = open_invocation("/src/app", "nvim .", true, false).unwrap();
    assert_eq!(args.len(), 14);
    assert!(!args.contains(&"--rm".to_string()));
    assert_eq!(&args[args.len() - 3..], &strings(&["sh", "-c", "nvim ."])[..]);
}

#[test]
fn open_with_no_network_gives_no_network_option() {
    let args = open_invocation("/home/u/proj", "ls", false, true).unwrap();
    assert!(!args.contains(&"--network".to_string()));
    assert!(!args.contains(&"bridge".to_string()));
    assert_eq!(
        args,
        strings(&[
            "run",
            "-it",
            "--rm",
            "--name",
            "proj_isolated",
            "-v",
            "/home/u/proj:/workspace",
            "-w",
            "/workspace",
            "safecrate_default",
            "sh",
            "-c",
            "ls",
        ])
    );
}

#[test]
fn open_of_root_has_no_directory_name() {
    assert_eq!(open_invocation("/", "ls", false, false), Err(SafecrateError::InvalidDirectoryName));
    assert_eq!(open_invocation("", "ls", true, true), Err(SafecrateError::InvalidDirectoryName));
}

#[test]
fn project_name_is_the_final_component() {
    assert_eq!(project_name("/home/u/proj"), Some("proj".to_string()));
    assert_eq!(project_name("proj"), Some("proj".to_string()));
    assert_eq!(project_name("/données/projet"), Some("projet".to_string()));
    assert_eq!(project_name("/"), None);
    assert_eq!(project_name("/a/"), None);
    assert_eq!(project_name(""), None);
}

#[test]
fn same_directory_gives_same_name() {
    assert_eq!(container_name_for_dir("/x/proj"), container_name_for_dir("/y/z/proj"));
    assert_ne!(container_name_for_dir("/x/proj"), container_name_for_dir("/x/proj2"));
}

#[test]
fn suffix_in_directory_name_is_appended_again() {
    assert_eq!(container_name("a_isolated"), "a_isolated_isolated");
    assert_eq!(
        container_name_for_dir("/tmp/proj_isolated"),
        Ok("proj_isolated_isolated".to_string())
    );
    assert_ne!(container_name_for_dir("/tmp/proj_isolated"), container_name_for_dir("/tmp/proj"));
}

#[test]
fn build_uses_the_image_tag_and_current_directory() {
    assert_eq!(
        build_invocation("/tmp/Dockerfile.safecrate"),
        strings(&["build", "-t", "safecrate_default", "-f", "/tmp/Dockerfile.safecrate", "."])
    );
}

#[test]
fn query_filters_on_the_container_name() {
    assert_eq!(
        query_invocation("/home/u/proj").unwrap(),
        strings(&["ps", "-a", "--filter", "name=proj_isolated", "--format", "{{.Names}}"])
    );
    assert_eq!(query_invocation("/"), Err(SafecrateError::InvalidDirectoryName));
}

#[test]
fn start_attaches_to_the_named_container() {
    assert_eq!(start_invocation("proj_isolated"), strings(&["start", "-ai", "proj_isolated"]));
}

#[test]
fn resume_after_kept_open_starts_the_same_container() {
    let run = open_invocation("/home/u/proj", "ls", true, false).unwrap();
    let started = resume_step("/home/u/proj", "proj_isolated\n").unwrap();
    assert_eq!(started, strings(&["start", "-ai", "proj_isolated"]));
    assert_eq!(run[3], started[2]);
    assert!(!started.contains(&"build".to_string()));
    assert!(resume_step("/home/u/proj", "other_isolated\n  proj_isolated\r\n").is_ok());
}

#[test]
fn resume_without_listed_container_fails() {
    assert_eq!(resume_step("/home/u/proj", ""), Err(SafecrateError::NoExistingContainer));
    assert_eq!(resume_step("/home/u/proj", " \n\t\r\n"), Err(SafecrateError::NoExistingContainer));
    assert_eq!(resume_step("/", "x_isolated\n"), Err(SafecrateError::InvalidDirectoryName));
    assert_eq!(resume_step("/x/proj", "myproj_isolated\n"), Err(SafecrateError::NoExistingContainer));
    assert_eq!(
        resume_step("/x/proj", "proj_isolated_isolated\nmyproj_isolated"),
        Err(SafecrateError::NoExistingContainer)
    );
    assert_eq!(
        SafecrateError::NoExistingContainer.message(),
        "No existing container to resume. Run `safecrate open` first with --keep-container."
    );
}

#[test]
fn listing_must_name_the_container_exactly() {
    assert!(!lists_container("", "proj_isolated"));
    assert!(!lists_container("\n", "proj_isolated"));
    assert!(!lists_container("myproj_isolated\n", "proj_isolated"));
    assert!(!lists_container("proj_isolated_old\n", "proj_isolated"));
    assert!(!lists_container("proj_isolated x\n", "proj_isolated"));
    assert!(lists_container("proj_isolated\n", "proj_isolated"));
    assert!(lists_container("proj_isolated", "proj_isolated"));
    assert!(lists_container("a\n\u{a0} proj_isolated\t\r\nb\n", "proj_isolated"));
    assert!(!lists_container("\u{200b}proj_isolated", "proj_isolated"));
}

#[test]
fn white_space_matches_the_unicode_property() {
    for c in ['\t', '\n', '\u{b}', '\u{c}', '\r', ' ', '\u{85}', '\u{a0}', '\u{1680}', '\u{2000}',
        '\u{200a}', '\u{2028}', '\u{2029}', '\u{202f}', '\u{205f}', '\u{3000}']
    {
        assert!(is_white_space(c));
        assert!(c.is_whitespace());
    }
    for c in ['a', '_', '\u{8}', '\u{e}', '\u{200b}', '\u{180e}', '\u{feff}'] {
        assert!(!is_white_space(c));
        assert_eq!(c.is_whitespace(), is_white_space(c));
    }
}

#[test]
fn remove_adds_force_only_when_asked() {
    assert_eq!(remove_invocation("/home/u/proj", false).unwrap(), strings(&["rm", "proj_isolated"]));
    assert_eq!(
        remove_invocation("/home/u/proj", true).unwrap(),
        strings(&["rm", "-f", "proj_isolated"])
    );
    assert_eq!(remove_invocation("/", true), Err(SafecrateError::InvalidDirectoryName));
}

#[test]
fn remove_failure_of_running_container_is_surfaced() {
    assert_eq!(Operation::Remove.outcome(false), Err(SafecrateError::RemoveFailed));
    assert_eq!(Operation::Remove.outcome(true), Ok(()));
    assert_eq!(SafecrateError::RemoveFailed.message(), "Failed to remove container");
}

#[test]
fn outcome_follows_engine_status() {
    assert_eq!(Operation::Build.outcome(false), Err(SafecrateError::BuildFailed));
    assert_eq!(Operation::Open.outcome(false), Err(SafecrateError::OpenFailed));
    assert_eq!(Operation::Resume.outcome(false), Err(SafecrateError::ResumeFailed));
    for op in [Operation::Build, Operation::Open, Operation::Resume, Operation::Remove] {
        assert_eq!(op.outcome(true), Ok(()));
        assert_eq!(op.outcome(false), Err(op.failure()));
    }
}

#[test]
fn error_messages() {
    assert_eq!(SafecrateError::InvalidDirectoryName.message(), "Invalid directory name");
    assert_eq!(SafecrateError::BuildFailed.message(), "Docker build failed!");
    assert_eq!(SafecrateError::OpenFailed.message(), "Failed to open container");
    assert_eq!(SafecrateError::ResumeFailed.message(), "Failed to resume container");
}

#[test]
fn removal_notice_names_the_container() {
    assert_eq!(removal_notice("proj_isolated"), "\u{2705} Removed container proj_isolated");
}
