//! The shells that the program knows, and how each joins commands.
use crate::text;
use vstd::prelude::*;

verus! {

/// A shell in which corrected commands are run.
#[derive(Debug, Clone, Copy, PartialEq, Eq, Structural)]
pub enum Shell {
    Bash,
    Zsh,
    Fish,
    PowerShell,
}

/// Each command wrapped in round brackets.
pub open spec fn bracketed(cmds: Seq<Seq<char>>) -> Seq<Seq<char>> {
    cmds.map_values(|c: Seq<char>| "("@ + c + ")"@)
}

/// The commands joined so that each runs only when the previous succeeded.
pub open spec fn and_spec(shell: Shell, cmds: Seq<Seq<char>>) -> Seq<char> {
    match shell {
        Shell::Bash | Shell::Zsh => text::join(cmds, " && "@),
        Shell::Fish => text::join(cmds, "; and "@),
        Shell::PowerShell => text::join(bracketed(cmds), " -and "@),
    }
}

/// The name of the shell's executable.
pub open spec fn program_spec(shell: Shell) -> Seq<char> {
    match shell {
        Shell::Bash => "bash"@,
        Shell::Zsh => "zsh"@,
        Shell::Fish => "fish"@,
        Shell::PowerShell => "pwsh"@,
    }
}

/// The shell that a name given on the command line stands for: PowerShell
/// when the name contains `pws` or `powershell`, otherwise zsh or fish when it
/// contains their names, otherwise bash.
pub open spec fn shell_named(name: Seq<char>) -> Shell {
    if text::contains(name, "pws"@) || text::contains(name, "powershell"@) {
        Shell::PowerShell
    } else if text::contains(name, "zsh"@) {
        Shell::Zsh
    } else if text::contains(name, "fish"@) {
        Shell::Fish
    } else {
        Shell::Bash
    }
}

/// Copies borrowed strings into owned ones.
pub fn to_strings(v: &Vec<&str>) -> (r: Vec<String>)
    ensures
        r.deep_view() == v.deep_view(),
{
    let mut r: Vec<String> = Vec::new();
    let mut i: usize = 0;
    while i < v.len()
        invariant
            i <= v.len(),
            r.deep_view() == v.deep_view().take(i as int),
        decreases v.len() - i,
    {
        let item = text::owned(v[i]);
        let ghost before = r;
        let ghost x = item;
        r.push(item);
        proof {
            text::lemma_vec_push_deep(before, r, x);
            assert(v.deep_view().take(i + 1) =~= v.deep_view().take(i as int).push(v@[i as int]@));
        }
        i = i + 1;
    }
    assert(v.deep_view().take(v.len() as int) =~= v.deep_view());
    r
}

impl Shell {
    /// The commands joined so that each runs only when the previous succeeded.
    pub fn and(&self, commands: Vec<&str>) -> (r: String)
        ensures
            r@ == and_spec(*self, commands.deep_view()),
    {
        let owned = to_strings(&commands);
        match self {
            Shell::Bash | Shell::Zsh => text::str_join(&owned, " && "),
            Shell::Fish => text::str_join(&owned, "; and "),
            Shell::PowerShell => {
                let mut wrapped: Vec<String> = Vec::new();
                let mut i: usize = 0;
                while i < owned.len()
                    invariant
                        i <= owned.len(),
                        owned.deep_view() == commands.deep_view(),
                        wrapped.deep_view() == bracketed(owned.deep_view().take(i as int)),
                    decreases owned.len() - i,
                {
                    let open = text::concat("(", owned[i].as_str());
                    let item = text::concat(open.as_str(), ")");
                    let ghost before = wrapped;
                    let ghost x = item;
                    wrapped.push(item);
                    proof {
                        text::lemma_vec_push_deep(before, wrapped, x);
                        assert(bracketed(owned.deep_view().take(i + 1)) =~= bracketed(
                            owned.deep_view().take(i as int),
                        ).push(x@));
                    }
                    i = i + 1;
                }
                assert(owned.deep_view().take(owned.len() as int) =~= owned.deep_view());
                text::str_join(&wrapped, " -and ")
            },
        }
    }

    /// The name of the shell's executable.
    pub fn get_shell(&self) -> (r: String)
        ensures
            r@ == program_spec(*self),
    {
        match self {
            Shell::Bash => text::owned("bash"),
            Shell::Zsh => text::owned("zsh"),
            Shell::Fish => text::owned("fish"),
            Shell::PowerShell => text::owned("pwsh"),
        }
    }
}

/// The shell that a name given on the command line stands for.
pub fn get_bash_type(name: &str) -> (r: Shell)
    ensures
        r == shell_named(name@),
{
    if text::str_contains(name, "pws") || text::str_contains(name, "powershell") {
        Shell::PowerShell
    } else if text::str_contains(name, "zsh") {
        Shell::Zsh
    } else if text::str_contains(name, "fish") {
        Shell::Fish
    } else {
        Shell::Bash
    }
}

/// The shell function that calls the program under the name `alias`: it
/// hands the last command, the shell and the alias to the program through
/// the environment, and runs the correction that the program prints.
pub open spec fn alias_script(shell: Shell, alias: Seq<char>) -> Seq<char> {
    match shell {
        Shell::Bash | Shell::Zsh => "function "@ + alias + " () {\n    export OHCRAB_COMMAND_HISTORY=\"$(fc -ln -1)\";\n    export OHCRAB_SHELL="@
            + program_spec(shell) + ";\n    export OHCRAB_ALIAS="@ + alias
            + ";\n    OHCRAB_CMD=$(ohcrab OHCRAB_ARGUMENT_PLACEHOLDER \"$@\") && eval \"$OHCRAB_CMD\";\n    unset OHCRAB_COMMAND_HISTORY;\n}"@,
        Shell::Fish => "function "@ + alias
            + " -d \"Correct your previous console command\"\n    set -x OHCRAB_COMMAND_HISTORY $history[1]\n    set -x OHCRAB_SHELL fish\n    set -x OHCRAB_ALIAS "@
            + alias
            + "\n    set -l cmd (ohcrab OHCRAB_ARGUMENT_PLACEHOLDER $argv)\n    and eval $cmd\n    set -e OHCRAB_COMMAND_HISTORY\nend"@,
        Shell::PowerShell => "function "@ + alias
            + " {\n    $env:OHCRAB_COMMAND_HISTORY = (Get-History -Count 1).CommandLine;\n    $env:OHCRAB_SHELL = 'pwsh';\n    $env:OHCRAB_ALIAS = '"@
            + alias
            + "';\n    $cmd = ohcrab OHCRAB_ARGUMENT_PLACEHOLDER $args;\n    if ($cmd) { Invoke-Expression $cmd }\n    Remove-Item Env:OHCRAB_COMMAND_HISTORY\n}"@,
    }
}

impl Shell {
    /// The shell function that calls the program under the name `alias`.
    pub fn app_alias(&self, alias: &str) -> (r: String)
        ensures
            r@ == alias_script(*self, alias@),
    {
        match self {
            Shell::Bash | Shell::Zsh => {
                let a = text::concat("function ", alias);
                let b = text::concat(
                    a.as_str(),
                    " () {\n    export OHCRAB_COMMAND_HISTORY=\"$(fc -ln -1)\";\n    export OHCRAB_SHELL=",
                );
                let name = self.get_shell();
                let c = text::concat(b.as_str(), name.as_str());
                let d = text::concat(c.as_str(), ";\n    export OHCRAB_ALIAS=");
                let e = text::concat(d.as_str(), alias);
                text::concat(
                    e.as_str(),
                    ";\n    OHCRAB_CMD=$(ohcrab OHCRAB_ARGUMENT_PLACEHOLDER \"$@\") && eval \"$OHCRAB_CMD\";\n    unset OHCRAB_COMMAND_HISTORY;\n}",
                )
            },
            Shell::Fish => {
                let a = text::concat("function ", alias);
                let b = text::concat(
                    a.as_str(),
                    " -d \"Correct your previous console command\"\n    set -x OHCRAB_COMMAND_HISTORY $history[1]\n    set -x OHCRAB_SHELL fish\n    set -x OHCRAB_ALIAS ",
                );
                let c = text::concat(b.as_str(), alias);
                text::concat(
                    c.as_str(),
                    "\n    set -l cmd (ohcrab OHCRAB_ARGUMENT_PLACEHOLDER $argv)\n    and eval $cmd\n    set -e OHCRAB_COMMAND_HISTORY\nend",
                )
            },
            Shell::PowerShell => {
                let a = text::concat("function ", alias);
                let b = text::concat(
                    a.as_str(),
                    " {\n    $env:OHCRAB_COMMAND_HISTORY = (Get-History -Count 1).CommandLine;\n    $env:OHCRAB_SHELL = 'pwsh';\n    $env:OHCRAB_ALIAS = '",
                );
                let c = text::concat(b.as_str(), alias);
                text::concat(
                    c.as_str(),
                    "';\n    $cmd = ohcrab OHCRAB_ARGUMENT_PLACEHOLDER $args;\n    if ($cmd) { Invoke-Expression $cmd }\n    Remove-Item Env:OHCRAB_COMMAND_HISTORY\n}",
                )
            },
        }
    }
}

} // verus!
