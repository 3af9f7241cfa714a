//! The command that failed and the commands proposed in its place.
use crate::text;
use vstd::prelude::*;

verus! {

/// What must happen before a corrected command is printed (it touches the
/// file system, so the program around the library performs it).
#[derive(Debug, Clone, Copy, PartialEq, Eq, Structural)]
pub enum SideEffect {
    /// Remove the files that a tar archive spilled into the current directory.
    DirtyUntar,
    /// Remove the files that a zip archive spilled into the current directory.
    DirtyUnzip,
}

/// A command proposed in place of the one that failed.
#[derive(Debug)]
pub struct CorrectedCommand {
    pub script: String,
    pub side_effect: Option<SideEffect>,
    pub priority: u16,
}

/// The abstract value of a corrected command.
pub struct CorrectedView {
    pub script: Seq<char>,
    pub side_effect: Option<SideEffect>,
    pub priority: u16,
}

impl View for CorrectedCommand {
    type V = CorrectedView;

    open spec fn view(&self) -> CorrectedView {
        CorrectedView { script: self.script@, side_effect: self.side_effect, priority: self.priority }
    }
}

impl CorrectedCommand {
    pub fn new(script: String, side_effect: Option<SideEffect>, priority: u16) -> (r: Self)
        ensures
            r.script@ == script@,
            r.side_effect == side_effect,
            r.priority == priority,
    {
        Self { script, side_effect, priority }
    }

    pub fn get_script(&self) -> (r: &String)
        ensures
            r@ == self.script@,
    {
        &self.script
    }
}

/// The words of `s` as the POSIX shell would split it, as the `shlex` crate's
/// `Shlex` iterator yields them (on malformed input, the words read before
/// the error).
pub uninterp spec fn shlex_words(s: Seq<char>) -> Seq<Seq<char>>;

/// Splits a string with shell-like syntax: the `shlex` crate's `Shlex`
/// iterator, collected. Unlike `shlex::split`, this always returns the words
/// read, even after an error. The contract claims only that the result is
/// `shlex_words` of the argument.
#[verifier::external_body]
pub fn shlex_split(in_str: &str) -> (r: Vec<String>)
    ensures
        r.deep_view() == shlex_words(in_str@),
{
    let mut shl = shlex::Shlex::new(in_str);
    shl.by_ref().collect()
}

/// The abstract value of a command: its text, its output, and its words.
pub struct CommandView {
    pub script: Seq<char>,
    pub output: Option<Seq<char>>,
    pub parts: Seq<Seq<char>>,
}

/// A command that ran, with what it printed.
#[derive(Debug)]
pub struct CrabCommand {
    pub script: String,
    pub output: Option<String>,
    pub script_parts: Vec<String>,
}

impl View for CrabCommand {
    type V = CommandView;

    open spec fn view(&self) -> CommandView {
        CommandView {
            script: self.script@,
            output: self.output.deep_view(),
            parts: self.script_parts.deep_view(),
        }
    }
}

/// Standard output and standard error taken together: both, joined by a line
/// feed, when both are non-empty; otherwise the non-empty one (standard
/// output when both are empty); absent only when both are absent.
pub open spec fn joined_output(stdout: Option<Seq<char>>, stderr: Option<Seq<char>>) -> Option<
    Seq<char>,
> {
    match (stdout, stderr) {
        (Some(o), Some(e)) => Some(
            if e.len() > 0 && o.len() > 0 {
                o + seq!['\n'] + e
            } else if e.len() > 0 {
                e
            } else {
                o
            },
        ),
        (Some(o), None) => Some(o),
        (None, Some(e)) => Some(e),
        (None, None) => None,
    }
}

/// The command with text `script` and output `output`, its words split as a
/// shell would split them.
pub open spec fn command_of(script: Seq<char>, output: Option<Seq<char>>) -> CommandView {
    CommandView { script, output, parts: shlex_words(script) }
}

/// The command `v` with its text replaced by `script`, keeping its output.
pub open spec fn with_script(v: CommandView, script: Seq<char>) -> CommandView {
    command_of(script, v.output)
}

fn concat_stdout_stderrr(stdout: Option<String>, stderr: Option<String>) -> (r: Option<String>)
    ensures
        r.deep_view() == joined_output(stdout.deep_view(), stderr.deep_view()),
{
    match (stdout, stderr) {
        (Some(stdout), Some(stderr)) => Some(
            {
                if !stderr.as_str().is_empty() && !stdout.as_str().is_empty() {
                    let with_break = text::concat(stdout.as_str(), "\n");
                    proof {
                        reveal_strlit("\n");
                    }
                    text::concat(with_break.as_str(), stderr.as_str())
                } else if !stderr.as_str().is_empty() {
                    stderr
                } else {
                    stdout
                }
            },
        ),
        (Some(stdout), None) => Some(stdout),
        (None, Some(stderr)) => Some(stderr),
        (None, None) => None,
    }
}

impl CrabCommand {
    pub fn new(script: String, stdout: Option<String>, stderr: Option<String>) -> (r: Self)
        ensures
            r@ == command_of(script@, joined_output(stdout.deep_view(), stderr.deep_view())),
    {
        let split_parts = CrabCommand::split_command(script.as_str());
        let output = concat_stdout_stderrr(stdout, stderr);
        CrabCommand { script, output, script_parts: split_parts }
    }

    /// A new command from this one: the given text (or this one's), and the
    /// given output (or this one's when none is given).
    pub fn update(&self, script: Option<String>, stdout: Option<String>, stderr: Option<String>) -> (r:
        CrabCommand)
        ensures
            r@ == command_of(
                match script {
                    Some(s) => s@,
                    None => self.script@,
                },
                match joined_output(stdout.deep_view(), stderr.deep_view()) {
                    Some(o) => Some(o),
                    None => self.output.deep_view(),
                },
            ),
    {
        let output = concat_stdout_stderrr(stdout, stderr);
        let new_script = match script {
            Some(s) => s,
            None => text::owned(self.script.as_str()),
        };
        let new_output = match output {
            Some(o) => Some(o),
            None => match &self.output {
                Some(o) => Some(text::owned(o.as_str())),
                None => None,
            },
        };
        CrabCommand::new(new_script, new_output, None)
    }

    fn split_command(command: &str) -> (r: Vec<String>)
        ensures
            r.deep_view() == shlex_words(command@),
    {
        shlex_split(command)
    }

    /// The command as text: `script: <script>, output: <output>`.
    pub fn describe(&self) -> (r: String)
        ensures
            r@ == "script: "@ + self.script@ + ", output: "@ + match self.output.deep_view() {
                Some(o) => o,
                None => Seq::<char>::empty(),
            },
    {
        let a = text::concat("script: ", self.script.as_str());
        let b = text::concat(a.as_str(), ", output: ");
        match &self.output {
            Some(o) => text::concat(b.as_str(), o.as_str()),
            None => b,
        }
    }
}

/// The command line that runs: the arguments joined by spaces, trimmed.
pub fn prepare_command(raw_command: Vec<String>) -> (r: String)
    ensures
        r@ == text::trim(text::join(raw_command.deep_view(), " "@)),
{
    let joined = text::str_join(&raw_command, " ");
    text::str_trim(joined.as_str())
}

} // verus!
