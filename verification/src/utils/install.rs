//! Installing the tool's aliases into a shell configuration: which file is
//! chosen, what is added to it, and when nothing is added.
//!
//! Copying the binary and reading and writing the shell's files are left
//! to the caller.

use vstd::prelude::*;
use vstd::string::StringExecFns;
use crate::utils::error::AppError;
use crate::utils::text::contains;
use crate::utils::text::contains_text;
use crate::utils::paths::join_path;
use crate::utils::paths::joined;
use crate::utils::text::same_text;

verus! {

/// The text in the path of a configuration file of the fish shell.
pub const FISH_MARK: &'static str = "fish";

/// The names under which the tool installs itself, as a mathematical value.
pub struct ToolNamesView {
    pub title: Seq<char>,
    pub alias_prefix: Seq<char>,
}

/// The names under which the tool installs itself.
#[derive(Debug)]
pub struct ToolNames {
    /// The title over the aliases; a file that holds it has them already.
    pub title: String,
    /// What every alias begins with.
    pub alias_prefix: String,
}

impl View for ToolNames {
    type V = ToolNamesView;

    open spec fn view(&self) -> ToolNamesView {
        ToolNamesView { title: self.title@, alias_prefix: self.alias_prefix@ }
    }
}

/// A shell configuration file that may be there, as a mathematical value.
pub struct ShellConfigView {
    pub path: Seq<char>,
    pub shell: Seq<char>,
}

/// A shell configuration file that may be there.
#[derive(Debug)]
pub struct ShellConfig {
    /// The path of the file.
    pub path: String,
    /// The name of the shell that reads it.
    pub shell: String,
}

impl View for ShellConfig {
    type V = ShellConfigView;

    open spec fn view(&self) -> ShellConfigView {
        ShellConfigView { path: self.path@, shell: self.shell@ }
    }
}

/// The views of a list of shell configuration files, in order.
pub open spec fn candidates_view(candidates: Seq<ShellConfig>) -> Seq<ShellConfigView> {
    Seq::new(candidates.len(), |i: int| candidates[i]@)
}

/// The shell configuration files under `home`, in the order in which they
/// are tried.
pub open spec fn candidates_in(home: Seq<char>) -> Seq<ShellConfigView> {
    seq![
        ShellConfigView { path: joined(home, ".zshrc"@), shell: "zsh"@ },
        ShellConfigView { path: joined(home, ".bashrc"@), shell: "bash"@ },
        ShellConfigView { path: joined(home, ".bash_profile"@), shell: "bash"@ },
        ShellConfigView { path: joined(home, ".config/fish/config.fish"@), shell: "fish"@ },
    ]
}

/// Whether the candidate at `i` is there and belongs to the shell `shell`.
pub open spec fn fits_shell(
    shell: Seq<char>,
    candidates: Seq<ShellConfigView>,
    present: Seq<bool>,
    i: int,
) -> bool {
    0 <= i < candidates.len() && i < present.len() && present[i] && contains_text(
        shell,
        candidates[i].shell,
    )
}

/// Whether the candidate at `i` is there.
pub open spec fn is_present(candidates: Seq<ShellConfigView>, present: Seq<bool>, i: int) -> bool {
    0 <= i < candidates.len() && i < present.len() && present[i]
}

/// Whether `i` is the candidate that is chosen: the first one that is
/// there and belongs to the user's shell, or, where there is no such
/// candidate, the first one that is there.
pub open spec fn is_chosen(
    shell: Seq<char>,
    candidates: Seq<ShellConfigView>,
    present: Seq<bool>,
    i: int,
) -> bool {
    if exists|j: int| fits_shell(shell, candidates, present, j) {
        fits_shell(shell, candidates, present, i) && forall|j: int|
            0 <= j < i ==> !fits_shell(shell, candidates, present, j)
    } else {
        is_present(candidates, present, i) && forall|j: int|
            0 <= j < i ==> !is_present(candidates, present, j)
    }
}

/// One alias: for the fish shell with a space between name and command,
/// for the others with an equals sign.
pub open spec fn alias_line(
    prefix: Seq<char>,
    name: Seq<char>,
    exec_path: Seq<char>,
    flag: Seq<char>,
    fish: bool,
) -> Seq<char> {
    "alias "@ + prefix + name + (if fish {
        " '"@
    } else {
        "='"@
    }) + exec_path + flag + "'\n"@
}

/// The block of aliases that is added to a shell configuration.
pub open spec fn alias_block_text(names: ToolNamesView, exec_path: Seq<char>, fish: bool) -> Seq<
    char,
> {
    "\n# "@ + names.title + "\n"@ + alias_line(
        names.alias_prefix,
        "-switch"@,
        exec_path,
        ""@,
        fish,
    ) + alias_line(names.alias_prefix, "-anthropic"@, exec_path, " --anthropic"@, fish)
        + alias_line(names.alias_prefix, "-glm"@, exec_path, " --glm"@, fish) + alias_line(
        names.alias_prefix,
        "-status"@,
        exec_path,
        " --status"@,
        fish,
    )
}

/// What a shell configuration with the text `content` at `config_path`
/// becomes when the aliases are installed, or `None` where it holds them
/// already.
pub open spec fn with_aliases(
    names: ToolNamesView,
    exec_path: Seq<char>,
    config_path: Seq<char>,
    content: Seq<char>,
) -> Option<Seq<char>> {
    if contains_text(content, names.title) {
        None
    } else {
        Some(
            content + "\n"@ + alias_block_text(
                names,
                exec_path,
                contains_text(config_path, FISH_MARK@),
            ),
        )
    }
}

/// What is to be done about the binary.
#[derive(Debug, Clone, Copy, PartialEq, Eq, Structural)]
pub enum BinaryStep {
    /// The running binary has to be copied to the place of installation.
    Copy,
    /// The running binary is the installed one.
    InPlace,
}

/// The rules of installation.
#[derive(Debug)]
pub struct Installer;

impl Installer {
    pub fn new() -> (made: Result<Self, AppError>)
        ensures
            made is Ok,
    {
        Ok(Installer)
    }

    /// Decides what is to be done about the binary, which runs from
    /// `exec_path` and belongs at `install_path`.
    pub fn install(&self, exec_path: &str, install_path: &str) -> (step: BinaryStep)
        ensures
            step == if exec_path@ == install_path@ {
                BinaryStep::InPlace
            } else {
                BinaryStep::Copy
            },
    {
        if same_text(exec_path, install_path) {
            BinaryStep::InPlace
        } else {
            BinaryStep::Copy
        }
    }

    /// The shell configuration files under `home`, in the order in which
    /// they are tried.
    pub fn shell_config_candidates(&self, home: &str) -> (candidates: Vec<ShellConfig>)
        ensures
            candidates_view(candidates@) == candidates_in(home@),
    {
        let mut candidates: Vec<ShellConfig> = Vec::new();
        candidates.push(
            ShellConfig { path: join_path(home, ".zshrc"), shell: String::from_str("zsh") },
        );
        candidates.push(
            ShellConfig { path: join_path(home, ".bashrc"), shell: String::from_str("bash") },
        );
        candidates.push(
            ShellConfig {
                path: join_path(home, ".bash_profile"),
                shell: String::from_str("bash"),
            },
        );
        candidates.push(
            ShellConfig {
                path: join_path(home, ".config/fish/config.fish"),
                shell: String::from_str("fish"),
            },
        );
        candidates
    }

    /// Chooses the shell configuration to install into. `shell` is the
    /// user's shell, and `present` says of each candidate whether the file
    /// is there.
    pub fn detect_shell_configs(
        &self,
        shell: &str,
        candidates: &Vec<ShellConfig>,
        present: &Vec<bool>,
    ) -> (chosen: Option<usize>)
        ensures
            match chosen {
                Some(i) => is_chosen(shell@, candidates_view(candidates@), present@, i as int),
                None => forall|i: int| !is_present(candidates_view(candidates@), present@, i),
            },
    {
        let ghost views = candidates_view(candidates@);
        let n = if candidates.len() < present.len() {
            candidates.len()
        } else {
            present.len()
        };
        let mut i: usize = 0;
        while i < n
            invariant
                i <= n,
                n <= candidates.len(),
                n <= present.len(),
                n == candidates.len() || n == present.len(),
                views == candidates_view(candidates@),
                forall|j: int| 0 <= j < i ==> !fits_shell(shell@, views, present@, j),
            decreases n - i,
        {
            if present[i] && contains(shell, candidates[i].shell.as_str()) {
                return Some(i);
            }
            i += 1;
        }
        let mut k: usize = 0;
        while k < n
            invariant
                k <= n,
                n <= candidates.len(),
                n <= present.len(),
                n == candidates.len() || n == present.len(),
                views == candidates_view(candidates@),
                forall|j: int| !fits_shell(shell@, views, present@, j),
                forall|j: int| 0 <= j < k ==> !is_present(views, present@, j),
            decreases n - k,
        {
            if present[k] {
                return Some(k);
            }
            k += 1;
        }
        None
    }

    /// One alias.
    fn alias_line(prefix: &str, name: &str, exec_path: &str, flag: &str, fish: bool) -> (line:
        String)
        ensures
            line@ == alias_line(prefix@, name@, exec_path@, flag@, fish),
    {
        let sign = if fish {
            " '"
        } else {
            "='"
        };
        String::from_str("alias ").concat(prefix).concat(name).concat(sign).concat(
            exec_path,
        ).concat(flag).concat("'\n")
    }

    /// The block of aliases for the binary at `exec_path`.
    pub fn alias_block(&self, names: &ToolNames, exec_path: &str, fish: bool) -> (block: String)
        ensures
            block@ == alias_block_text(names@, exec_path@, fish),
    {
        let prefix = names.alias_prefix.as_str();
        let switch = Self::alias_line(prefix, "-switch", exec_path, "", fish);
        let anthropic = Self::alias_line(prefix, "-anthropic", exec_path, " --anthropic", fish);
        let glm = Self::alias_line(prefix, "-glm", exec_path, " --glm", fish);
        let status = Self::alias_line(prefix, "-status", exec_path, " --status", fish);
        String::from_str("\n# ").concat(names.title.as_str()).concat("\n").concat(
            switch.as_str(),
        ).concat(anthropic.as_str()).concat(glm.as_str()).concat(status.as_str())
    }

    /// The new text of the shell configuration at `config_path`, which
    /// holds `content`, or `None` where it holds the aliases already.
    pub fn install_shell_aliases(
        &self,
        names: &ToolNames,
        exec_path: &str,
        config_path: &str,
        content: &str,
    ) -> (updated: Option<String>)
        ensures
            match updated {
                Some(text) => with_aliases(names@, exec_path@, config_path@, content@) == Some(
                    text@,
                ),
                None => with_aliases(names@, exec_path@, config_path@, content@) is None,
            },
    {
        if contains(content, names.title.as_str()) {
            return None;
        }
        let fish = contains(config_path, FISH_MARK);
        let block = self.alias_block(names, exec_path, fish);
        Some(String::from_str(content).concat("\n").concat(block.as_str()))
    }
}

} // verus!
