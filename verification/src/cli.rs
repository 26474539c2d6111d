//! The subcommands of `setup` and `registry`, as plain values.
use vstd::prelude::*;
use crate::text::{replace_all, replace_str, starts_with_char, str_eq, strings_view};

verus! {

/// The subcommands of `setup`.
pub enum SetupCommands {
    /// Install shell completions and the nvim wrapper function.
    Shell {
        override_nvim: bool,
        force_env: bool,
        print_env: bool,
        print: bool,
        dry_run: bool,
        remove: bool,
    },
}

/// The subcommands of `registry`.
pub enum RegistryCommands {
    /// List all configured registry URLs.
    List,
    /// Validate reachability and schema of configured registries.
    Check,
    /// Force update the local registry cache.
    Update,
    /// Manage the local registry cache file.
    Cache { command: CacheCommands },
}

/// The subcommands of `registry cache`.
pub enum CacheCommands {
    /// Permanently remove the local registry cache file.
    Clear,
}

/// The command line asks for the version: its first argument (after the
/// program's name) is `-v`, `-V` or `--version`.
pub open spec fn is_version_request_spec(args: Seq<Seq<char>>) -> bool {
    args.len() >= 2 && (args[1] == "-v"@ || args[1] == "-V"@ || args[1] == "--version"@)
}

/// Whether the command line `args` (the program's name first) asks for the
/// version.
pub fn is_version_request(args: &Vec<String>) -> (r: bool)
    ensures
        r == is_version_request_spec(strings_view(args@)),
{
    if args.len() < 2 {
        return false;
    }
    let a = args[1].as_str();
    str_eq(a, "-v") || str_eq(a, "-V") || str_eq(a, "--version")
}

/// The index of the first argument that begins with `-`.
pub open spec fn first_flag_index(args: Seq<Seq<char>>) -> Option<int>
    decreases args.len(),
{
    if args.len() == 0 {
        None
    } else if args[0].len() > 0 && args[0][0] == '-' {
        Some(0)
    } else {
        match first_flag_index(args.drop_first()) {
            Some(i) => Some(i + 1),
            None => None,
        }
    }
}

/// The option that an unknown-argument error names: the first argument
/// that begins with `-`, else `unknown`.
pub fn unknown_option(args: &Vec<String>) -> (r: String)
    ensures
        match first_flag_index(strings_view(args@)) {
            Some(i) => r@ == args@[i]@,
            None => r@ == "unknown"@,
        },
{
    let mut i: usize = 0;
    proof {
        assert(strings_view(args@).skip(0) =~= strings_view(args@));
    }
    while i < args.len()
        invariant
            i <= args.len(),
            first_flag_index(strings_view(args@)) == match first_flag_index(strings_view(args@).skip(i as int)) {
                Some(k) => Some(k + i),
                None => None::<int>,
            },
        decreases args.len() - i,
    {
        let ghost rest = strings_view(args@).skip(i as int);
        proof {
            assert(rest.drop_first() =~= strings_view(args@).skip(i + 1));
            assert(rest[0] == args@[i as int]@);
        }
        if starts_with_char(args[i].as_str(), '-') {
            return args[i].clone();
        }
        i = i + 1;
    }
    proof {
        assert(strings_view(args@).skip(i as int).len() == 0);
    }
    "unknown".to_owned()
}

/// The bash completion script as printed: the script that clap_complete writes, with the
/// placeholders `[PROFILE]` and `[ARGS]...` removed, in that order.
pub open spec fn bash_completion_spec(script: Seq<char>) -> Seq<char> {
    replace_all(replace_all(script, "[PROFILE]"@, Seq::<char>::empty()), "[ARGS]..."@, Seq::<char>::empty())
}

/// The bash completion script `script` with its placeholders removed.
pub fn clean_bash_completion(script: &str) -> (r: String)
    ensures
        r@ == bash_completion_spec(script@),
{
    proof {
        reveal_strlit("");
        assert(""@ =~= Seq::<char>::empty());
    }
    let a = replace_str(script, "[PROFILE]", "");
    replace_str(a.as_str(), "[ARGS]...", "")
}

} // verus!
