use claude_switch::utils::install::BinaryStep;
use claude_switch::utils::install::ShellConfig;
use claude_switch::utils::install::ToolNames;
use claude_switch::utils::paths::join_path;
use claude_switch::utils::Installer;

fn names() -> ToolNames {
    ToolNames { title: "Provider Switcher".to_string(), alias_prefix: "assistant".to_string() }
}

fn installer() -> Installer {
    Installer::new().unwrap()
}

fn candidates() -> Vec<ShellConfig> {
    installer().shell_config_candidates("/home/user")
}

#[test]
fn joining_paths() {
    assert_eq!(join_path("/home/user", "file"), "/home/user/file");
    assert_eq!(join_path("/home/user/", "file"), "/home/user/file");
    assert_eq!(join_path("", "file"), "file");
    assert_eq!(join_path("/", "file"), "/file");
    assert_eq!(join_path("dir", ""), "dir/");
    assert_eq!(join_path("é", "ü/x"), "é/ü/x");
}

#[test]
fn binary_is_copied_unless_in_place() {
    let installer = installer();
    assert_eq!(installer.install("/tmp/tool", "/usr/local/bin/tool"), BinaryStep::Copy);
    assert_eq!(installer.install("/usr/local/bin/tool", "/usr/local/bin/tool"), BinaryStep::InPlace);
}

#[test]
fn four_shell_configurations_are_tried() {
    let found: Vec<(String, String)> =
        candidates().into_iter().map(|c| (c.path, c.shell)).collect();
    let expected: Vec<(String, String)> = [
        ("/home/user/.zshrc", "zsh"),
        ("/home/user/.bashrc", "bash"),
        ("/home/user/.bash_profile", "bash"),
        ("/home/user/.config/fish/config.fish", "fish"),
    ]
    .iter()
    .map(|(p, s)| (p.to_string(), s.to_string()))
    .collect();
    assert_eq!(found, expected);
}

#[test]
fn the_configuration_of_the_users_shell_is_preferred() {
    let installer = installer();
    let all = vec![true, true, true, true];
    assert_eq!(installer.detect_shell_configs("/bin/zsh", &candidates(), &all), Some(0));
    assert_eq!(installer.detect_shell_configs("/bin/bash", &candidates(), &all), Some(1));
    assert_eq!(installer.detect_shell_configs("/usr/bin/fish", &candidates(), &all), Some(3));
    let no_bashrc = vec![true, false, true, true];
    assert_eq!(installer.detect_shell_configs("/bin/bash", &candidates(), &no_bashrc), Some(2));
}

#[test]
fn otherwise_the_first_configuration_that_is_there() {
    let installer = installer();
    let all = vec![true, true, true, true];
    assert_eq!(installer.detect_shell_configs("/bin/sh", &candidates(), &all), Some(0));
    assert_eq!(installer.detect_shell_configs("", &candidates(), &all), Some(0));
    let only_fish = vec![false, false, false, true];
    assert_eq!(installer.detect_shell_configs("/bin/zsh", &candidates(), &only_fish), Some(3));
    let bash_only = vec![false, true, true, false];
    assert_eq!(installer.detect_shell_configs("/bin/zsh", &candidates(), &bash_only), Some(1));
}

#[test]
fn no_configuration_no_choice() {
    let installer = installer();
    let none = vec![false, false, false, false];
    assert_eq!(installer.detect_shell_configs("/bin/zsh", &candidates(), &none), None);
    assert_eq!(installer.detect_shell_configs("/bin/zsh", &candidates(), &vec![]), None);
    assert_eq!(installer.detect_shell_configs("/bin/zsh", &vec![], &vec![true]), None);
    let short = vec![false, true];
    assert_eq!(installer.detect_shell_configs("/bin/fish", &candidates(), &short), Some(1));
}

#[test]
fn alias_block_for_bash_and_zsh() {
    let block = installer().alias_block(&names(), "/usr/local/bin/tool", false);
    let expected = "\n# Provider Switcher\n\
                    alias assistant-switch='/usr/local/bin/tool'\n\
                    alias assistant-anthropic='/usr/local/bin/tool --anthropic'\n\
                    alias assistant-glm='/usr/local/bin/tool --glm'\n\
                    alias assistant-status='/usr/local/bin/tool --status'\n";
    assert_eq!(block, expected);
}

#[test]
fn alias_block_for_fish() {
    let block = installer().alias_block(&names(), "/usr/local/bin/tool", true);
    let expected = "\n# Provider Switcher\n\
                    alias assistant-switch '/usr/local/bin/tool'\n\
                    alias assistant-anthropic '/usr/local/bin/tool --anthropic'\n\
                    alias assistant-glm '/usr/local/bin/tool --glm'\n\
                    alias assistant-status '/usr/local/bin/tool --status'\n";
    assert_eq!(block, expected);
}

#[test]
fn aliases_are_appended() {
    let installer = installer();
    let updated = installer
        .install_shell_aliases(&names(), "/bin/tool", "/home/user/.zshrc", "export A=1\n")
        .unwrap();
    let block = installer.alias_block(&names(), "/bin/tool", false);
    assert_eq!(updated, format!("export A=1\n\n{}", block));
    let updated = installer
        .install_shell_aliases(&names(), "/bin/tool", "/home/user/.config/fish/config.fish", "")
        .unwrap();
    let block = installer.alias_block(&names(), "/bin/tool", true);
    assert_eq!(updated, format!("\n{}", block));
}

#[test]
fn aliases_are_not_added_twice() {
    let installer = installer();
    let once = installer
        .install_shell_aliases(&names(), "/bin/tool", "/home/user/.bashrc", "export A=1\n")
        .unwrap();
    assert_eq!(installer.install_shell_aliases(&names(), "/bin/tool", "/home/user/.bashrc", &once), None);
    assert_eq!(
        installer.install_shell_aliases(&names(), "/other", "/x", "# Provider Switcher"),
        None
    );
}
