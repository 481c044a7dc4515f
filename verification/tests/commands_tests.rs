use dot_setup::commands::{
    cargo_commands, commands_for, dnf_commands, docker_commands, elevate, flatpak_commands,
    homebrew_commands, opencode_commands, repos_commands, stow_commands, terra_commands,
};
use dot_setup::config::{
    Commands, Config, FlatpakGroup, HomebrewGroup, OpenCodeGroup, PackageGroup, Packages,
    Repositories,
};

fn group(packages: &[&str], enable_service: bool) -> PackageGroup {
    PackageGroup {
        description: String::new(),
        packages: packages.iter().map(|p| p.to_string()).collect(),
        enable_service,
    }
}

fn sample_config(enable_docker: bool) -> Config {
    Config {
        repositories: Repositories {
            rpm_fusion_free: "https://example.org/free.rpm".to_string(),
            rpm_fusion_nonfree: "https://example.org/nonfree.rpm".to_string(),
            docker: "https://example.org/docker.repo".to_string(),
            terra: "https://example.org/terra".to_string(),
        },
        packages: Packages {
            dnf: group(&["git", "vim", "htop"], false),
            docker: group(&["docker-ce", "docker-ce-cli"], enable_docker),
            flatpak: FlatpakGroup {
                description: String::new(),
                remote: "flathub".to_string(),
                apps: vec!["org.gimp.GIMP".to_string(), "org.videolan.VLC".to_string()],
            },
            terra: group(&["zed"], false),
            homebrew: HomebrewGroup {
                description: String::new(),
                install_script: "https://example.org/install.sh".to_string(),
                packages: vec!["gh".to_string(), "jq".to_string()],
            },
            cargo: group(&["ripgrep", "bat"], false),
            opencode: OpenCodeGroup {
                description: String::new(),
                url: "https://example.org/opencode.rpm".to_string(),
            },
        },
        commands: Commands {
            update: "dnf upgrade -y".to_string(),
            shell_init: "/home/linuxbrew/.linuxbrew/bin/brew shellenv".to_string(),
        },
    }
}

#[test]
fn elevate_pipes_the_credential_into_sudo() {
    assert_eq!(elevate("pw", "true"), "echo 'pw' | sudo -S true");
    assert_eq!(elevate("", "dnf upgrade -y"), "echo '' | sudo -S dnf upgrade -y");
}

#[test]
fn repos_commands_are_three_elevated_commands() {
    let cmds = repos_commands(&sample_config(false), "pw");
    assert_eq!(
        cmds,
        vec![
            "echo 'pw' | sudo -S dnf install -y https://example.org/free.rpm https://example.org/nonfree.rpm",
            "echo 'pw' | sudo -S dnf config-manager addrepo --overwrite --from-repofile https://example.org/docker.repo",
            "echo 'pw' | sudo -S bash -c 'if ! rpm -q terra-release &>/dev/null; then dnf install --nogpgcheck --repofrompath terra,https://example.org/terra terra-release; fi'",
        ]
    );
}

#[test]
fn dnf_commands_update_then_install() {
    assert_eq!(
        dnf_commands(&sample_config(false), "pw"),
        vec![
            "echo 'pw' | sudo -S dnf upgrade -y",
            "echo 'pw' | sudo -S dnf install -y git vim htop",
        ]
    );
}

#[test]
fn docker_commands_enable_the_service_only_when_asked() {
    assert_eq!(
        docker_commands(&sample_config(false), "pw"),
        vec!["echo 'pw' | sudo -S dnf install -y docker-ce docker-ce-cli"]
    );
    assert_eq!(
        docker_commands(&sample_config(true), "pw"),
        vec![
            "echo 'pw' | sudo -S dnf install -y docker-ce docker-ce-cli",
            "echo 'pw' | sudo -S systemctl enable --now docker",
        ]
    );
}

#[test]
fn flatpak_commands_add_the_remote_then_install() {
    assert_eq!(
        flatpak_commands(&sample_config(false)),
        vec![
            "flatpak remote-add --if-not-exists flathub https://dl.flathub.org/repo/flathub.flatpakrepo",
            "flatpak install -y org.gimp.GIMP org.videolan.VLC",
        ]
    );
}

#[test]
fn homebrew_commands_install_then_brew() {
    assert_eq!(
        homebrew_commands(&sample_config(false)),
        vec![
            "/bin/bash -c \"$(curl -fsSL https://example.org/install.sh)\"",
            "eval \"$( /home/linuxbrew/.linuxbrew/bin/brew shellenv)\" && brew install gh jq",
        ]
    );
}

#[test]
fn single_command_tasks() {
    let config = sample_config(false);
    assert_eq!(
        opencode_commands(&config, "pw"),
        vec!["echo 'pw' | sudo -S dnf install -y https://example.org/opencode.rpm"]
    );
    assert_eq!(cargo_commands(&config), vec!["cargo install ripgrep bat"]);
    assert_eq!(terra_commands(&config, "pw"), vec!["echo 'pw' | sudo -S dnf install -y zed"]);
    assert_eq!(
        stow_commands(),
        vec!["mkdir -p $HOME/.local/bin && stow -R -t $HOME/ --dotfiles ."]
    );
}

#[test]
fn commands_for_dispatches_on_the_identifier() {
    let config = sample_config(true);
    assert_eq!(commands_for("repos", &config, "pw"), repos_commands(&config, "pw"));
    assert_eq!(commands_for("dnf", &config, "pw"), dnf_commands(&config, "pw"));
    assert_eq!(commands_for("docker", &config, "pw"), docker_commands(&config, "pw"));
    assert_eq!(commands_for("flatpak", &config, "pw"), flatpak_commands(&config));
    assert_eq!(commands_for("homebrew", &config, "pw"), homebrew_commands(&config));
    assert_eq!(commands_for("opencode", &config, "pw"), opencode_commands(&config, "pw"));
    assert_eq!(commands_for("cargo", &config, "pw"), cargo_commands(&config));
    assert_eq!(commands_for("terra", &config, "pw"), terra_commands(&config, "pw"));
    assert_eq!(commands_for("stow", &config, "pw"), stow_commands());
}

#[test]
fn unknown_task_has_no_commands() {
    let config = sample_config(false);
    assert!(commands_for("unknown", &config, "pw").is_empty());
    assert!(commands_for("", &config, "pw").is_empty());
    assert!(commands_for("Repos", &config, "pw").is_empty());
}

#[test]
fn privileged_commands_start_with_the_pipe() {
    let config = sample_config(true);
    for id in ["repos", "dnf", "docker", "opencode", "terra"] {
        for line in commands_for(id, &config, "s3cret") {
            assert!(line.starts_with("echo 's3cret' | sudo -S "), "{}", line);
        }
    }
    for id in ["flatpak", "homebrew", "cargo", "stow"] {
        for line in commands_for(id, &config, "s3cret") {
            assert!(!line.contains("s3cret"), "{}", line);
        }
    }
}

#[test]
fn empty_package_list_leaves_the_bare_command() {
    let mut config = sample_config(false);
    config.packages.cargo.packages.clear();
    assert_eq!(cargo_commands(&config), vec!["cargo install "]);
}
