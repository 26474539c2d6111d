//! Shell integration: which shell is in use, the `nvim` wrapper function and
//! environment block written for it, where they go, and when an rc file
//! already holds the wrapper.
use vstd::prelude::*;

use crate::paths::{join_path, path_join};
use crate::text::{has_prefix, concat_str, contains_str, has_substring, occurs_at};

verus! {

/// The shells that nvimx integrates with.
#[derive(Clone, Copy, PartialEq, Eq, Structural, Debug)]
pub enum ShellType {
    Fish,
    Zsh,
    Bash,
}

/// A `$SHELL` that names none of the supported shells.
pub struct UnsupportedShell {
    pub shell_path: String,
}

impl UnsupportedShell {
    /// The error's text.
    pub fn message(&self) -> (r: String)
        ensures
            r@ == "Unsupported shell: "@ + self.shell_path@,
    {
        concat_str("Unsupported shell: ", self.shell_path.as_str())
    }
}

/// The shell that `$SHELL` names: the first of `fish`, `zsh`, `bash` that
/// occurs in it.
pub open spec fn detect_shell_spec(shell_path: Seq<char>) -> Option<ShellType> {
    if has_substring(shell_path, "fish"@) {
        Some(ShellType::Fish)
    } else if has_substring(shell_path, "zsh"@) {
        Some(ShellType::Zsh)
    } else if has_substring(shell_path, "bash"@) {
        Some(ShellType::Bash)
    } else {
        None
    }
}

/// The shell named by `shell_path`, the value of `$SHELL` (empty where it
/// is unset).
pub fn detect_shell(shell_path: &str) -> (r: Result<ShellType, UnsupportedShell>)
    ensures
        match detect_shell_spec(shell_path@) {
            Some(s) => r == Ok::<ShellType, UnsupportedShell>(s),
            None => r matches Err(e) && e.shell_path@ == shell_path@,
        },
{
    if contains_str(shell_path, "fish") {
        Ok(ShellType::Fish)
    } else if contains_str(shell_path, "zsh") {
        Ok(ShellType::Zsh)
    } else if contains_str(shell_path, "bash") {
        Ok(ShellType::Bash)
    } else {
        Err(UnsupportedShell { shell_path: shell_path.to_owned() })
    }
}

/// The command name of a shell.
pub open spec fn shell_name_spec(shell: ShellType) -> Seq<char> {
    match shell {
        ShellType::Fish => "fish"@,
        ShellType::Zsh => "zsh"@,
        ShellType::Bash => "bash"@,
    }
}

/// The command name of `shell`.
pub fn shell_name(shell: ShellType) -> (r: &'static str)
    ensures
        r@ == shell_name_spec(shell),
{
    match shell {
        ShellType::Fish => "fish",
        ShellType::Zsh => "zsh",
        ShellType::Bash => "bash",
    }
}

/// The display name of a shell.
pub open spec fn shell_display_spec(shell: ShellType) -> Seq<char> {
    match shell {
        ShellType::Fish => "Fish"@,
        ShellType::Zsh => "Zsh"@,
        ShellType::Bash => "Bash"@,
    }
}

/// The display name of `shell`.
pub fn shell_display(shell: ShellType) -> (r: &'static str)
    ensures
        r@ == shell_display_spec(shell),
{
    match shell {
        ShellType::Fish => "Fish",
        ShellType::Zsh => "Zsh",
        ShellType::Bash => "Bash",
    }
}

/// The environment block for fish.
pub open spec fn fish_env_block() -> Seq<char> {
    "# Neovim environment configuration (only if nvimx is available)\nif type -q nvimx\n    set -gx EDITOR nvim\n    set -gx VISUAL nvim\n    set -gx GIT_EDITOR nvim\n    set -gx SUDO_EDITOR nvim\nend"@
}

/// The environment block for zsh and bash.
pub open spec fn posix_env_block() -> Seq<char> {
    "# Environment\nif command -v nvimx >/dev/null 2>&1; then\n  export EDITOR=nvim\n  export VISUAL=nvim\n  export GIT_EDITOR=nvim\n  export SUDO_EDITOR=nvim\nfi"@
}

/// The environment block of a shell: it points the editor variables at
/// `nvim` where nvimx is installed.
pub open spec fn env_block_spec(shell: ShellType) -> Seq<char> {
    match shell {
        ShellType::Fish => fish_env_block(),
        ShellType::Zsh | ShellType::Bash => posix_env_block(),
    }
}

/// The environment block of `shell`.
pub fn get_env_block(shell: ShellType) -> (r: String)
    ensures
        r@ == env_block_spec(shell),
{
    match shell {
        ShellType::Fish => "# Neovim environment configuration (only if nvimx is available)\nif type -q nvimx\n    set -gx EDITOR nvim\n    set -gx VISUAL nvim\n    set -gx GIT_EDITOR nvim\n    set -gx SUDO_EDITOR nvim\nend".to_owned(),
        ShellType::Zsh | ShellType::Bash => "# Environment\nif command -v nvimx >/dev/null 2>&1; then\n  export EDITOR=nvim\n  export VISUAL=nvim\n  export GIT_EDITOR=nvim\n  export SUDO_EDITOR=nvim\nfi".to_owned(),
    }
}

/// The `nvim` wrapper for fish.
pub open spec fn fish_wrapper() -> Seq<char> {
    "function nvim --wraps nvim\n    if test -z \"$NVIM_APPNAME\"\n        if test (count $argv) -gt 0; and string match -qr '^-' $argv[1]\n            command nvim $argv\n        else\n            nvimx $argv\n        end\n    else\n        command nvim $argv\n    end\nend"@
}

/// The `nvim` wrapper for zsh.
pub open spec fn zsh_wrapper() -> Seq<char> {
    "nvim() {\n  if [[ -z \"$NVIM_APPNAME\" ]]; then\n    if [[ $# -gt 0 && \"$1\" == -* ]]; then\n      command nvim \"$@\"\n    else\n      nvimx \"$@\"\n    fi\n  else\n    command nvim \"$@\"\n  fi\n}"@
}

/// The `nvim` wrapper for bash.
pub open spec fn bash_wrapper() -> Seq<char> {
    "nvim() {\n  if [[ -z \"$NVIM_APPNAME\" ]]; then\n    if [[ $# -gt 0 && \"$1\" =~ ^- ]]; then\n      command nvim \"$@\"\n    else\n      nvimx \"$@\"\n    fi\n  else\n    command nvim \"$@\"\n  fi\n}"@
}

/// The wrapper of a shell: `nvim` runs nvimx unless `NVIM_APPNAME` is set
/// or the first argument is a flag.
pub open spec fn wrapper_spec(shell: ShellType) -> Seq<char> {
    match shell {
        ShellType::Fish => fish_wrapper(),
        ShellType::Zsh => zsh_wrapper(),
        ShellType::Bash => bash_wrapper(),
    }
}

/// The `nvim` wrapper of `shell`.
pub fn get_wrapper(shell: ShellType) -> (r: String)
    ensures
        r@ == wrapper_spec(shell),
{
    match shell {
        ShellType::Fish => "function nvim --wraps nvim\n    if test -z \"$NVIM_APPNAME\"\n        if test (count $argv) -gt 0; and string match -qr '^-' $argv[1]\n            command nvim $argv\n        else\n            nvimx $argv\n        end\n    else\n        command nvim $argv\n    end\nend".to_owned(),
        ShellType::Zsh => "nvim() {\n  if [[ -z \"$NVIM_APPNAME\" ]]; then\n    if [[ $# -gt 0 && \"$1\" == -* ]]; then\n      command nvim \"$@\"\n    else\n      nvimx \"$@\"\n    fi\n  else\n    command nvim \"$@\"\n  fi\n}".to_owned(),
        ShellType::Bash => "nvim() {\n  if [[ -z \"$NVIM_APPNAME\" ]]; then\n    if [[ $# -gt 0 && \"$1\" =~ ^- ]]; then\n      command nvim \"$@\"\n    else\n      nvimx \"$@\"\n    fi\n  else\n    command nvim \"$@\"\n  fi\n}".to_owned(),
    }
}

/// Every wrapper hands `nvim` to nvimx only outside a profile: its first
/// test, for every shell, is that `NVIM_APPNAME` is empty (`test -z` in
/// fish, `[[ -z ... ]]` in zsh and bash), the branch where nvimx is called;
/// a set `NVIM_APPNAME`, as inside a launched profile, goes to `command
/// nvim`. The script that `setup shell` writes begins with that wrapper.
pub proof fn law_wrapper_tests_for_an_empty_appname(shell: ShellType)
    ensures
        shell == ShellType::Fish ==> has_prefix(
            wrapper_spec(shell),
            "function nvim --wraps nvim\n    if test -z \"$NVIM_APPNAME\"\n"@,
        ),
        shell == ShellType::Fish ==> has_prefix(
            full_script_spec(shell),
            "function nvim --wraps nvim\n    if test -z \"$NVIM_APPNAME\"\n"@,
        ),
        shell != ShellType::Fish ==> has_prefix(
            wrapper_spec(shell),
            "nvim() {\n  if [[ -z \"$NVIM_APPNAME\" ]]; then\n"@,
        ),
        shell != ShellType::Fish ==> has_prefix(
            full_script_spec(shell),
            "nvim() {\n  if [[ -z \"$NVIM_APPNAME\" ]]; then\n"@,
        ),
        has_substring(wrapper_spec(shell), "nvimx "@),
        has_substring(wrapper_spec(shell), "else\n"@),
{
    let fp = "function nvim --wraps nvim\n    if test -z \"$NVIM_APPNAME\"\n"@;
    let zp = "nvim() {\n  if [[ -z \"$NVIM_APPNAME\" ]]; then\n"@;
    reveal_strlit("function nvim --wraps nvim\n    if test -z \"$NVIM_APPNAME\"\n");
    reveal_strlit("nvim() {\n  if [[ -z \"$NVIM_APPNAME\" ]]; then\n");
    reveal_strlit("function nvim --wraps nvim\n    if test -z \"$NVIM_APPNAME\"\n        if test (count $argv) -gt 0; and string match -qr '^-' $argv[1]\n            command nvim $argv\n        else\n            nvimx $argv\n        end\n    else\n        command nvim $argv\n    end\nend");
    reveal_strlit("nvim() {\n  if [[ -z \"$NVIM_APPNAME\" ]]; then\n    if [[ $# -gt 0 && \"$1\" == -* ]]; then\n      command nvim \"$@\"\n    else\n      nvimx \"$@\"\n    fi\n  else\n    command nvim \"$@\"\n  fi\n}");
    reveal_strlit("nvim() {\n  if [[ -z \"$NVIM_APPNAME\" ]]; then\n    if [[ $# -gt 0 && \"$1\" =~ ^- ]]; then\n      command nvim \"$@\"\n    else\n      nvimx \"$@\"\n    fi\n  else\n    command nvim \"$@\"\n  fi\n}");
    reveal_strlit("nvimx ");
    reveal_strlit("else\n");
    let w = wrapper_spec(shell);
    let full = full_script_spec(shell);
    if shell == ShellType::Fish {
        assert(w.subrange(0, fp.len() as int) =~= fp);
        assert(full.subrange(0, fp.len() as int) =~= fp);
        assert(w.subrange(186, 192) =~= "nvimx "@);
        assert(occurs_at(w, "nvimx "@, 186));
        assert(w.subrange(169, 174) =~= "else\n"@);
        assert(occurs_at(w, "else\n"@, 169));
    } else {
        assert(w.subrange(0, zp.len() as int) =~= zp);
        assert(full.subrange(0, zp.len() as int) =~= zp);
        assert(w.subrange(126, 132) =~= "nvimx "@);
        assert(occurs_at(w, "nvimx "@, 126));
        assert(w.subrange(115, 120) =~= "else\n"@);
        assert(occurs_at(w, "else\n"@, 115));
    }
}

/// The whole integration script: the wrapper, a blank line, the
/// environment block.
pub open spec fn full_script_spec(shell: ShellType) -> Seq<char> {
    wrapper_spec(shell) + "\n\n"@ + env_block_spec(shell)
}

/// The whole integration script of `shell`.
pub fn get_full_script(shell: ShellType) -> (r: String)
    ensures
        r@ == full_script_spec(shell),
{
    let w = get_wrapper(shell);
    let a = concat_str(w.as_str(), "\n\n");
    let e = get_env_block(shell);
    concat_str(a.as_str(), e.as_str())
}

/// Where the completion script of a shell goes, under the home directory.
pub open spec fn completion_rel_path(shell: ShellType) -> Seq<char> {
    match shell {
        ShellType::Fish => ".config/fish/completions/nvimx.fish"@,
        ShellType::Zsh => ".zsh/completions/_nvimx"@,
        ShellType::Bash => ".bash_completion.d/nvimx"@,
    }
}

/// The path of the completion script of `shell` for the home `home`.
pub fn completion_path(home: &str, shell: ShellType) -> (r: String)
    ensures
        r@ == path_join(home@, completion_rel_path(shell)),
{
    let rel = match shell {
        ShellType::Fish => ".config/fish/completions/nvimx.fish",
        ShellType::Zsh => ".zsh/completions/_nvimx",
        ShellType::Bash => ".bash_completion.d/nvimx",
    };
    join_path(home, rel)
}

/// The file that receives the wrapper of a shell, under the home directory.
pub open spec fn rc_rel_path(shell: ShellType) -> Seq<char> {
    match shell {
        ShellType::Fish => ".config/fish/conf.d/nvim.fish"@,
        ShellType::Zsh => ".zshrc"@,
        ShellType::Bash => ".bashrc"@,
    }
}

/// The path of the file that receives the wrapper of `shell`.
pub fn rc_path(home: &str, shell: ShellType) -> (r: String)
    ensures
        r@ == path_join(home@, rc_rel_path(shell)),
{
    let rel = match shell {
        ShellType::Fish => ".config/fish/conf.d/nvim.fish",
        ShellType::Zsh => ".zshrc",
        ShellType::Bash => ".bashrc",
    };
    join_path(home, rel)
}

/// The mark by which an rc file is known to hold the wrapper already.
pub open spec fn wrapper_marker() -> Seq<char> {
    "nvim() {"@
}

/// Whether the rc file text `content` already holds the wrapper.
pub fn rc_has_wrapper(content: &str) -> (r: bool)
    ensures
        r == has_substring(content@, wrapper_marker()),
{
    contains_str(content, "nvim() {")
}

/// The text appended to a zsh or bash rc file: a newline, then the script.
pub open spec fn rc_append_spec(shell: ShellType) -> Seq<char> {
    "\n"@ + full_script_spec(shell)
}

/// The text appended to the rc file of `shell` (zsh or bash; fish gets the
/// script as a file of its own).
pub fn rc_append_text(shell: ShellType) -> (r: String)
    ensures
        r@ == rc_append_spec(shell),
{
    let s = get_full_script(shell);
    concat_str("\n", s.as_str())
}

/// How `setup shell` proceeds, given its flags.
#[derive(Clone, Copy, PartialEq, Eq, Structural, Debug)]
pub enum ShellSetupMode {
    /// Remove the integration.
    Remove,
    /// Print the whole script.
    PrintScript,
    /// Print the environment block.
    PrintEnv,
    /// A dry run: report where the completions (and the wrapper, where
    /// asked) would go, and write no file.
    Report,
    /// Install the completions, and the wrapper where asked.
    Install,
}

/// The mode of `setup shell`: `--remove` wins over `--print`, which wins
/// over `--print-env`; without any of them, `--dry-run` only reports, and
/// otherwise the integration is installed.
pub fn shell_setup_mode(remove: bool, print: bool, print_env: bool, dry_run: bool) -> (r: ShellSetupMode)
    ensures
        r == if remove {
            ShellSetupMode::Remove
        } else if print {
            ShellSetupMode::PrintScript
        } else if print_env {
            ShellSetupMode::PrintEnv
        } else if dry_run {
            ShellSetupMode::Report
        } else {
            ShellSetupMode::Install
        },
{
    if remove {
        ShellSetupMode::Remove
    } else if print {
        ShellSetupMode::PrintScript
    } else if print_env {
        ShellSetupMode::PrintEnv
    } else if dry_run {
        ShellSetupMode::Report
    } else {
        ShellSetupMode::Install
    }
}

/// What installing the wrapper does to the rc file.
pub enum RcAction {
    /// Write the file with this text, replacing what it held (fish: the
    /// wrapper has a file of its own).
    Write(String),
    /// Append this text to the file, creating it where missing.
    Append(String),
    /// Leave the file alone: it already holds the wrapper.
    Skip,
}

/// What installing the wrapper of `shell` does to its rc file, which holds
/// `rc_content` (empty where the file is missing or unreadable): fish gets
/// the whole script as its file; zsh and bash get the script appended,
/// unless the file already holds the wrapper.
pub fn rc_action(shell: ShellType, rc_content: &str) -> (r: RcAction)
    ensures
        shell == ShellType::Fish ==> (r matches RcAction::Write(t) && t@ == full_script_spec(shell)),
        shell != ShellType::Fish && has_substring(rc_content@, wrapper_marker()) ==> r is Skip,
        shell != ShellType::Fish && !has_substring(rc_content@, wrapper_marker()) ==> (r matches RcAction::Append(t)
            && t@ == rc_append_spec(shell)),
{
    match shell {
        ShellType::Fish => RcAction::Write(get_full_script(shell)),
        _ => {
            if rc_has_wrapper(rc_content) {
                RcAction::Skip
            } else {
                RcAction::Append(rc_append_text(shell))
            }
        },
    }
}

/// Installing the wrapper twice adds it once: after the text for zsh or
/// bash has been appended to any rc file, that file is seen to hold the
/// wrapper, so a second run leaves it alone.
pub proof fn law_wrapper_install_is_idempotent(content: Seq<char>, shell: ShellType)
    requires
        shell != ShellType::Fish,
    ensures
        has_substring(content + rc_append_spec(shell), wrapper_marker()),
{
    reveal_strlit("nvim() {");
    reveal_strlit("\n");
    reveal_strlit("\n\n");
    reveal_strlit("nvim() {\n  if [[ -z \"$NVIM_APPNAME\" ]]; then\n    if [[ $# -gt 0 && \"$1\" == -* ]]; then\n      command nvim \"$@\"\n    else\n      nvimx \"$@\"\n    fi\n  else\n    command nvim \"$@\"\n  fi\n}");
    reveal_strlit("nvim() {\n  if [[ -z \"$NVIM_APPNAME\" ]]; then\n    if [[ $# -gt 0 && \"$1\" =~ ^- ]]; then\n      command nvim \"$@\"\n    else\n      nvimx \"$@\"\n    fi\n  else\n    command nvim \"$@\"\n  fi\n}");
    let all = content + rc_append_spec(shell);
    let at: int = content.len() as int + 1;
    assert(all.subrange(at, at + 8) =~= wrapper_marker());
    assert(occurs_at(all, wrapper_marker(), at));
}

} // verus!
