use vstd::prelude::*;

verus! {

/// The arguments of the `npm` run that installs a project's dependencies.
/// In CI the lockfile is installed as it stands, where there is one; else
/// a plain install runs, without the audit when nobody is waiting for it.
/// Requests for funding are never shown.
pub open spec fn install_arguments(ci: bool, lockfile_exists: bool) -> Seq<Seq<char>> {
    if ci {
        if lockfile_exists {
            seq!["ci"@, "--no-fund"@]
        } else {
            seq!["install"@, "--no-fund"@]
        }
    } else {
        seq!["install"@, "--no-audit"@, "--no-fund"@]
    }
}

/// One `--workspace` flag with its package for each of `package_names`, in
/// their order.
pub open spec fn workspace_flags(package_names: Seq<Seq<char>>) -> Seq<Seq<char>> {
    Seq::new(2 * package_names.len(), |i: int| workspace_flag(package_names, i))
}

/// The word at place `i` of the flags for `package_names`: the flag at each
/// even place, and after it the package it is for.
pub open spec fn workspace_flag(package_names: Seq<Seq<char>>, i: int) -> Seq<char> {
    if i % 2 == 0 {
        "--workspace"@
    } else {
        package_names[i / 2]
    }
}

/// The arguments of the `npm` run that installs the dependencies of the
/// named packages alone, with or without what only development needs.
pub open spec fn focused_install_arguments(
    package_names: Seq<Seq<char>>,
    production_only: bool,
) -> Seq<Seq<char>> {
    let head = if production_only {
        seq!["install"@, "--production"@]
    } else {
        seq!["install"@]
    };
    head + workspace_flags(package_names)
}

/// Whether `npm` has to be set up in `version`: not where the tool says it
/// is, nor where the version that was set up last is the same.
pub open spec fn setup_is_needed(
    already_set_up: bool,
    last_version: Option<Seq<char>>,
    version: Seq<char>,
) -> bool {
    !already_set_up && last_version != Some(version)
}

/// Computes the arguments of the `npm` run that installs a project's
/// dependencies.
pub fn install_args(ci: bool, lockfile_exists: bool) -> (args: Vec<&'static str>)
    ensures
        args.deep_view() == install_arguments(ci, lockfile_exists),
{
    let mut args: Vec<&'static str> = Vec::new();
    if ci && lockfile_exists {
        args.push("ci");
    } else {
        args.push("install");
        if !ci {
            args.push("--no-audit");
        }
    }
    args.push("--no-fund");
    assert(args.deep_view() =~= install_arguments(ci, lockfile_exists));
    args
}

/// Computes the arguments of the `npm` run that installs the dependencies
/// of the named packages alone.
pub fn focused_install_args(package_names: &Vec<String>, production_only: bool) -> (args: Vec<
    String,
>)
    ensures
        args.deep_view() == focused_install_arguments(package_names.deep_view(), production_only),
{
    let mut args: Vec<String> = Vec::new();
    args.push("install".to_owned());
    if production_only {
        args.push("--production".to_owned());
    }
    let ghost head = args.deep_view();
    let ghost names = package_names.deep_view();
    let mut i: usize = 0;
    while i < package_names.len()
        invariant
            i <= package_names.len(),
            names == package_names.deep_view(),
            head.len() <= args.len(),
            args.len() == head.len() + 2 * i,
            forall|k: int| 0 <= k < head.len() ==> (#[trigger] args[k])@ == head[k],
            forall|k: int|
                head.len() <= k < args.len() ==> (#[trigger] args[k])@ == workspace_flag(
                    names,
                    k - head.len(),
                ),
        decreases package_names.len() - i,
    {
        assert(names[i as int] == package_names[i as int]@);
        args.push("--workspace".to_owned());
        args.push(package_names[i].clone());
        i += 1;
    }
    proof {
        let wanted = focused_install_arguments(names, production_only);
        assert(args.deep_view().len() == wanted.len());
        assert forall|k: int| 0 <= k < wanted.len() implies args.deep_view()[k] == wanted[k] by {
            assert(args.deep_view()[k] == args[k]@);
        }
        assert(args.deep_view() =~= wanted);
    }
    args
}

/// Decides whether `npm` has to be set up in `version`, from what the tool
/// says of itself and from the version that was set up last.
pub fn needs_setup(already_set_up: bool, last_version: Option<&String>, version: &String) -> (needed:
    bool)
    ensures
        needed == setup_is_needed(
            already_set_up,
            match last_version {
                Some(last) => Some(last@),
                None => None,
            },
            version@,
        ),
{
    if already_set_up {
        return false;
    }
    match last_version {
        Some(last) => !(*last == *version),
        None => true,
    }
}

/// How many tools a setup installed: one where `npm` was installed, none
/// where it was there already.
pub fn setup_count(installed: bool) -> (count: u8)
    ensures
        count == if installed { 1u8 } else { 0u8 },
{
    if installed {
        1
    } else {
        0
    }
}

} // verus!
