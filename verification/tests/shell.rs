use nvimx::shell::{
    completion_path, detect_shell, get_env_block, get_full_script, get_wrapper, rc_append_text,
    rc_has_wrapper, rc_path, shell_display, shell_name, shell_setup_mode, rc_action, RcAction, ShellSetupMode,
    ShellType,
};

#[test]
fn detection_reads_the_shell_path() {
    assert_eq!(detect_shell("/usr/bin/fish").ok(), Some(ShellType::Fish));
    assert_eq!(detect_shell("/bin/zsh").ok(), Some(ShellType::Zsh));
    assert_eq!(detect_shell("/bin/bash").ok(), Some(ShellType::Bash));
    assert_eq!(detect_shell("/opt/fish-zsh-bash").ok(), Some(ShellType::Fish));
    match detect_shell("/bin/sh") {
        Err(e) => assert_eq!(e.message(), "Unsupported shell: /bin/sh"),
        Ok(_) => panic!("sh is not supported"),
    }
    match detect_shell("") {
        Err(e) => assert_eq!(e.message(), "Unsupported shell: "),
        Ok(_) => panic!("an empty SHELL is not supported"),
    }
}

#[test]
fn names() {
    assert_eq!(shell_name(ShellType::Fish), "fish");
    assert_eq!(shell_name(ShellType::Zsh), "zsh");
    assert_eq!(shell_display(ShellType::Bash), "Bash");
}

#[test]
fn scripts() {
    for sh in [ShellType::Fish, ShellType::Zsh, ShellType::Bash] {
        let full = get_full_script(sh);
        assert_eq!(full, format!("{}\n\n{}", get_wrapper(sh), get_env_block(sh)));
    }
    assert!(get_wrapper(ShellType::Zsh).starts_with("nvim() {\n  if [[ -z \"$NVIM_APPNAME\" ]]; then\n"));
    assert!(get_wrapper(ShellType::Zsh).contains("\"$1\" == -*"));
    assert!(get_wrapper(ShellType::Bash).contains("\"$1\" =~ ^-"));
    assert!(get_wrapper(ShellType::Fish).starts_with("function nvim --wraps nvim\n"));
    assert!(get_env_block(ShellType::Fish).ends_with("set -gx SUDO_EDITOR nvim\nend"));
    assert!(get_env_block(ShellType::Bash).ends_with("export SUDO_EDITOR=nvim\nfi"));
    assert_eq!(get_env_block(ShellType::Zsh), get_env_block(ShellType::Bash));
}

#[test]
fn installing_the_wrapper_twice_adds_it_once() {
    let rc = "export PATH=$PATH:/x\n";
    assert!(!rc_has_wrapper(rc));
    for sh in [ShellType::Zsh, ShellType::Bash] {
        let after = format!("{}{}", rc, rc_append_text(sh));
        assert!(rc_has_wrapper(&after));
        assert!(rc_append_text(sh).starts_with("\nnvim() {"));
    }
}

#[test]
fn destinations() {
    assert_eq!(completion_path("/h", ShellType::Fish), "/h/.config/fish/completions/nvimx.fish");
    assert_eq!(completion_path("/h", ShellType::Zsh), "/h/.zsh/completions/_nvimx");
    assert_eq!(completion_path("/h/", ShellType::Bash), "/h/.bash_completion.d/nvimx");
    assert_eq!(rc_path("/h", ShellType::Fish), "/h/.config/fish/conf.d/nvim.fish");
    assert_eq!(rc_path("/h", ShellType::Zsh), "/h/.zshrc");
    assert_eq!(rc_path("/h", ShellType::Bash), "/h/.bashrc");
}

#[test]
fn setup_mode_precedence() {
    assert_eq!(shell_setup_mode(true, true, true, true), ShellSetupMode::Remove);
    assert_eq!(shell_setup_mode(false, true, true, true), ShellSetupMode::PrintScript);
    assert_eq!(shell_setup_mode(false, false, true, true), ShellSetupMode::PrintEnv);
    assert_eq!(shell_setup_mode(false, false, false, true), ShellSetupMode::Report);
    assert_eq!(shell_setup_mode(false, false, false, false), ShellSetupMode::Install);
}

#[test]
fn rc_file_actions() {
    match rc_action(ShellType::Fish, "anything") {
        RcAction::Write(t) => assert_eq!(t, get_full_script(ShellType::Fish)),
        _ => panic!("fish gets its own file"),
    }
    match rc_action(ShellType::Zsh, "export A=1\n") {
        RcAction::Append(t) => assert_eq!(t, format!("\n{}", get_full_script(ShellType::Zsh))),
        _ => panic!("zsh gets the script appended"),
    }
    assert!(matches!(rc_action(ShellType::Bash, "x\nnvim() {\n}\n"), RcAction::Skip));
}
