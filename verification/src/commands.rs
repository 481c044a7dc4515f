//! From a task to the shell command lines that carry it out.
//!
//! A command that needs elevated rights gets the credential through a pipe
//! into the standard input of `sudo -S`; it is never an argument of `sudo`.

use vstd::prelude::*;
use crate::config::Config;
use crate::text::{join, joined, same, views};

verus! {

/// `command` run with elevated rights, the credential piped into `sudo`.
pub open spec fn elevated(password: Seq<char>, command: Seq<char>) -> Seq<char> {
    "echo '"@ + password + "' | sudo -S "@ + command
}

/// `line` is some command run with elevated rights under `password`.
pub open spec fn is_elevated(line: Seq<char>, password: Seq<char>) -> bool {
    exists|command: Seq<char>| line == elevated(password, command)
}

/// The command that installs `packages` with dnf.
pub open spec fn dnf_install(packages: Seq<char>) -> Seq<char> {
    "dnf install -y "@ + packages
}

/// `items` separated by blanks.
pub open spec fn spaced(items: Seq<String>) -> Seq<char> {
    joined(views(items), " "@)
}

/// Adds the package repositories: RPM Fusion, Docker, Terra.
pub open spec fn repos_plan(config: &Config, password: Seq<char>) -> Seq<Seq<char>> {
    seq![
        elevated(
            password,
            dnf_install(
                config.repositories.rpm_fusion_free@ + " "@ + config.repositories.rpm_fusion_nonfree@,
            ),
        ),
        elevated(
            password,
            "dnf config-manager addrepo --overwrite --from-repofile "@ + config.repositories.docker@,
        ),
        elevated(
            password,
            "bash -c 'if ! rpm -q terra-release &>/dev/null; then dnf install --nogpgcheck --repofrompath terra,"@
                + config.repositories.terra@ + " terra-release; fi'"@,
        ),
    ]
}

/// Updates the system, then installs the system packages.
pub open spec fn dnf_plan(config: &Config, password: Seq<char>) -> Seq<Seq<char>> {
    seq![
        elevated(password, config.commands.update@),
        elevated(password, dnf_install(spaced(config.packages.dnf.packages@))),
    ]
}

/// Installs Docker and, where the configuration asks for it, enables its
/// service.
pub open spec fn docker_plan(config: &Config, password: Seq<char>) -> Seq<Seq<char>> {
    let install = elevated(password, dnf_install(spaced(config.packages.docker.packages@)));
    if config.packages.docker.enable_service {
        seq![install, elevated(password, "systemctl enable --now docker"@)]
    } else {
        seq![install]
    }
}

/// Adds the Flatpak remote, then installs the applications.
pub open spec fn flatpak_plan(config: &Config) -> Seq<Seq<char>> {
    seq![
        "flatpak remote-add --if-not-exists "@ + config.packages.flatpak.remote@
            + " https://dl.flathub.org/repo/flathub.flatpakrepo"@,
        "flatpak install -y "@ + spaced(config.packages.flatpak.apps@),
    ]
}

/// Installs Homebrew, then its packages.
pub open spec fn homebrew_plan(config: &Config) -> Seq<Seq<char>> {
    seq![
        "/bin/bash -c \"$(curl -fsSL "@ + config.packages.homebrew.install_script@ + ")\""@,
        "eval \"$( "@ + config.commands.shell_init@ + ")\" && brew install "@ + spaced(
            config.packages.homebrew.packages@,
        ),
    ]
}

/// Installs OpenCode.
pub open spec fn opencode_plan(config: &Config, password: Seq<char>) -> Seq<Seq<char>> {
    seq![elevated(password, dnf_install(config.packages.opencode.url@))]
}

/// Installs the Cargo packages.
pub open spec fn cargo_plan(config: &Config) -> Seq<Seq<char>> {
    seq!["cargo install "@ + spaced(config.packages.cargo.packages@)]
}

/// Installs the packages of the Terra repository.
pub open spec fn terra_plan(config: &Config, password: Seq<char>) -> Seq<Seq<char>> {
    seq![elevated(password, dnf_install(spaced(config.packages.terra.packages@)))]
}

/// Links the dotfiles into the home directory.
pub open spec fn stow_plan() -> Seq<Seq<char>> {
    seq!["mkdir -p $HOME/.local/bin && stow -R -t $HOME/ --dotfiles ."@]
}

/// The command lines of the task with identifier `id`, in the order in which
/// they run. A task that is not known has none.
pub open spec fn plan_for(id: Seq<char>, config: &Config, password: Seq<char>) -> Seq<Seq<char>> {
    if id == "repos"@ {
        repos_plan(config, password)
    } else if id == "dnf"@ {
        dnf_plan(config, password)
    } else if id == "docker"@ {
        docker_plan(config, password)
    } else if id == "flatpak"@ {
        flatpak_plan(config)
    } else if id == "homebrew"@ {
        homebrew_plan(config)
    } else if id == "opencode"@ {
        opencode_plan(config, password)
    } else if id == "cargo"@ {
        cargo_plan(config)
    } else if id == "terra"@ {
        terra_plan(config, password)
    } else if id == "stow"@ {
        stow_plan()
    } else {
        Seq::empty()
    }
}

/// `command` run with elevated rights, the credential piped into `sudo`.
pub fn elevate(password: &str, command: &str) -> (out: String)
    ensures
        out@ == elevated(password@, command@),
{
    let mut out = String::from_str("echo '");
    out.append(password);
    out.append("' | sudo -S ");
    out.append(command);
    out
}

/// `prefix` followed by `rest`.
fn prefixed(prefix: &str, rest: &str) -> (out: String)
    ensures
        out@ == prefix@ + rest@,
{
    let mut out = String::from_str(prefix);
    out.append(rest);
    out
}

/// `command` run with elevated rights, where `command` is `prefix` followed
/// by `rest`.
fn elevate_prefixed(password: &str, prefix: &str, rest: &str) -> (out: String)
    ensures
        out@ == elevated(password@, prefix@ + rest@),
{
    let command = prefixed(prefix, rest);
    elevate(password, command.as_str())
}

/// The commands that add the package repositories.
pub fn repos_commands(config: &Config, password: &str) -> (out: Vec<String>)
    ensures
        views(out@) == repos_plan(config, password@),
{
    let repo = &config.repositories;
    let mut fusion = String::from_str(repo.rpm_fusion_free.as_str());
    fusion.append(" ");
    fusion.append(repo.rpm_fusion_nonfree.as_str());
    let first = elevate_prefixed(password, "dnf install -y ", fusion.as_str());
    let second = elevate_prefixed(
        password,
        "dnf config-manager addrepo --overwrite --from-repofile ",
        repo.docker.as_str(),
    );
    let mut terra = String::from_str(
        "bash -c 'if ! rpm -q terra-release &>/dev/null; then dnf install --nogpgcheck --repofrompath terra,",
    );
    terra.append(repo.terra.as_str());
    terra.append(" terra-release; fi'");
    let third = elevate(password, terra.as_str());
    let out = vec![first, second, third];
    assert(views(out@) =~= repos_plan(config, password@));
    out
}

/// The commands that update the system and install the system packages.
pub fn dnf_commands(config: &Config, password: &str) -> (out: Vec<String>)
    ensures
        views(out@) == dnf_plan(config, password@),
{
    let first = elevate(password, config.commands.update.as_str());
    let packages = join(&config.packages.dnf.packages, " ");
    let second = elevate_prefixed(password, "dnf install -y ", packages.as_str());
    let out = vec![first, second];
    assert(views(out@) =~= dnf_plan(config, password@));
    out
}

/// The commands that install Docker and, where asked for, enable its service.
pub fn docker_commands(config: &Config, password: &str) -> (out: Vec<String>)
    ensures
        views(out@) == docker_plan(config, password@),
{
    let packages = join(&config.packages.docker.packages, " ");
    let install = elevate_prefixed(password, "dnf install -y ", packages.as_str());
    let mut out = vec![install];
    if config.packages.docker.enable_service {
        out.push(elevate(password, "systemctl enable --now docker"));
    }
    assert(views(out@) =~= docker_plan(config, password@));
    out
}

/// The commands that add the Flatpak remote and install the applications.
pub fn flatpak_commands(config: &Config) -> (out: Vec<String>)
    ensures
        views(out@) == flatpak_plan(config),
{
    let group = &config.packages.flatpak;
    let mut first = String::from_str("flatpak remote-add --if-not-exists ");
    first.append(group.remote.as_str());
    first.append(" https://dl.flathub.org/repo/flathub.flatpakrepo");
    let apps = join(&group.apps, " ");
    let second = prefixed("flatpak install -y ", apps.as_str());
    let out = vec![first, second];
    assert(views(out@) =~= flatpak_plan(config));
    out
}

/// The commands that install Homebrew and its packages.
pub fn homebrew_commands(config: &Config) -> (out: Vec<String>)
    ensures
        views(out@) == homebrew_plan(config),
{
    let group = &config.packages.homebrew;
    let mut first = String::from_str("/bin/bash -c \"$(curl -fsSL ");
    first.append(group.install_script.as_str());
    first.append(")\"");
    let packages = join(&group.packages, " ");
    let mut second = String::from_str("eval \"$( ");
    second.append(config.commands.shell_init.as_str());
    second.append(")\" && brew install ");
    second.append(packages.as_str());
    let out = vec![first, second];
    assert(views(out@) =~= homebrew_plan(config));
    out
}

/// The command that installs OpenCode.
pub fn opencode_commands(config: &Config, password: &str) -> (out: Vec<String>)
    ensures
        views(out@) == opencode_plan(config, password@),
{
    let install = elevate_prefixed(
        password,
        "dnf install -y ",
        config.packages.opencode.url.as_str(),
    );
    let out = vec![install];
    assert(views(out@) =~= opencode_plan(config, password@));
    out
}

/// The command that installs the Cargo packages.
pub fn cargo_commands(config: &Config) -> (out: Vec<String>)
    ensures
        views(out@) == cargo_plan(config),
{
    let packages = join(&config.packages.cargo.packages, " ");
    let install = prefixed("cargo install ", packages.as_str());
    let out = vec![install];
    assert(views(out@) =~= cargo_plan(config));
    out
}

/// The command that installs the packages of the Terra repository.
pub fn terra_commands(config: &Config, password: &str) -> (out: Vec<String>)
    ensures
        views(out@) == terra_plan(config, password@),
{
    let packages = join(&config.packages.terra.packages, " ");
    let install = elevate_prefixed(password, "dnf install -y ", packages.as_str());
    let out = vec![install];
    assert(views(out@) =~= terra_plan(config, password@));
    out
}

/// The command that links the dotfiles into the home directory.
pub fn stow_commands() -> (out: Vec<String>)
    ensures
        views(out@) == stow_plan(),
{
    let out = vec![String::from_str("mkdir -p $HOME/.local/bin && stow -R -t $HOME/ --dotfiles .")];
    assert(views(out@) =~= stow_plan());
    out
}

/// The command lines of the task with identifier `id`, in the order in which
/// they run. A task that is not known has none.
pub fn commands_for(id: &str, config: &Config, password: &str) -> (out: Vec<String>)
    ensures
        views(out@) == plan_for(id@, config, password@),
{
    if same(id, "repos") {
        repos_commands(config, password)
    } else if same(id, "dnf") {
        dnf_commands(config, password)
    } else if same(id, "docker") {
        docker_commands(config, password)
    } else if same(id, "flatpak") {
        flatpak_commands(config)
    } else if same(id, "homebrew") {
        homebrew_commands(config)
    } else if same(id, "opencode") {
        opencode_commands(config, password)
    } else if same(id, "cargo") {
        cargo_commands(config)
    } else if same(id, "terra") {
        terra_commands(config, password)
    } else if same(id, "stow") {
        stow_commands()
    } else {
        let out: Vec<String> = Vec::new();
        assert(views(out@) =~= Seq::<Seq<char>>::empty());
        out
    }
}

/// Whether the task with identifier `id` runs its commands with elevated
/// rights.
pub open spec fn runs_elevated(id: Seq<char>) -> bool {
    id == "repos"@ || id == "dnf"@ || id == "docker"@ || id == "opencode"@ || id == "terra"@
}

/// The identifiers of the known tasks differ from one another.
pub proof fn lemma_known_ids_differ()
    ensures
        "repos"@.len() == 5 && "repos"@[0] == 'r',
        "dnf"@.len() == 3,
        "docker"@.len() == 6,
        "flatpak"@.len() == 7,
        "homebrew"@.len() == 8 && "homebrew"@[0] == 'h',
        "opencode"@.len() == 8 && "opencode"@[0] == 'o',
        "cargo"@.len() == 5 && "cargo"@[0] == 'c',
        "terra"@.len() == 5 && "terra"@[0] == 't',
        "stow"@.len() == 4,
{
    reveal_strlit("repos");
    reveal_strlit("dnf");
    reveal_strlit("docker");
    reveal_strlit("flatpak");
    reveal_strlit("homebrew");
    reveal_strlit("opencode");
    reveal_strlit("cargo");
    reveal_strlit("terra");
    reveal_strlit("stow");
}

/// Every command of a task that runs with elevated rights gets the
/// credential through the pipe into `sudo -S`.
pub proof fn lemma_credential_is_piped(id: Seq<char>, config: &Config, password: Seq<char>, i: int)
    requires
        runs_elevated(id),
        0 <= i < plan_for(id, config, password).len(),
    ensures
        is_elevated(plan_for(id, config, password)[i], password),
{
    let line = plan_for(id, config, password)[i];
    lemma_known_ids_differ();
    if id == "repos"@ {
        if i == 0 {
            assert(line == elevated(
                password,
                dnf_install(
                    config.repositories.rpm_fusion_free@ + " "@
                        + config.repositories.rpm_fusion_nonfree@,
                ),
            ));
        } else if i == 1 {
            assert(line == elevated(
                password,
                "dnf config-manager addrepo --overwrite --from-repofile "@
                    + config.repositories.docker@,
            ));
        } else {
            assert(line == elevated(
                password,
                "bash -c 'if ! rpm -q terra-release &>/dev/null; then dnf install --nogpgcheck --repofrompath terra,"@
                    + config.repositories.terra@ + " terra-release; fi'"@,
            ));
        }
    } else if id == "dnf"@ {
        if i == 0 {
            assert(line == elevated(password, config.commands.update@));
        } else {
            assert(line == elevated(password, dnf_install(spaced(config.packages.dnf.packages@))));
        }
    } else if id == "docker"@ {
        if i == 0 {
            assert(line == elevated(
                password,
                dnf_install(spaced(config.packages.docker.packages@)),
            ));
        } else {
            assert(line == elevated(password, "systemctl enable --now docker"@));
        }
    } else if id == "opencode"@ {
        assert(line == elevated(password, dnf_install(config.packages.opencode.url@)));
    } else {
        assert(line == elevated(password, dnf_install(spaced(config.packages.terra.packages@))));
    }
}

} // verus!
