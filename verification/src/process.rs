//! Commands to start a process (the game, a server, a loader installer),
//! described as plain values that the application spawns.

use vstd::prelude::*;
use crate::paths::LauncherPath;

verus! {

/// A path given as text, or a location of the launcher's data folder.
#[derive(Debug, Clone, PartialEq, Eq)]
pub enum PathArg {
    Given(String),
    Data(LauncherPath),
}

/// One command-line argument.
#[derive(Debug, Clone, PartialEq, Eq)]
pub enum CommandArg {
    /// Passed as written.
    Text(String),
    /// The text followed by the resolved location.
    DataPath(String, LauncherPath),
    /// The paths joined with the platform's classpath separator (`;` on Windows, `:` elsewhere).
    Classpath(Vec<PathArg>),
}

#[derive(Debug, Clone, PartialEq, Eq)]
pub struct ProcessSpec {
    pub program: String,
    /// Folder the process starts in; the launcher's own when `None`.
    pub working_dir: Option<PathArg>,
    pub args: Vec<CommandArg>,
    /// Whether stdin, stdout and stderr are piped to the launcher.
    pub piped_stdio: bool,
}

pub enum PathArgView {
    Given(Seq<char>),
    Data(Seq<Seq<char>>),
}

pub enum CommandArgView {
    Text(Seq<char>),
    DataPath(Seq<char>, Seq<Seq<char>>),
    Classpath(Seq<PathArgView>),
}

pub struct ProcessSpecView {
    pub program: Seq<char>,
    pub working_dir: Option<PathArgView>,
    pub args: Seq<CommandArgView>,
    pub piped_stdio: bool,
}

impl View for PathArg {
    type V = PathArgView;

    open spec fn view(&self) -> PathArgView {
        match self {
            PathArg::Given(s) => PathArgView::Given(s@),
            PathArg::Data(p) => PathArgView::Data(p@),
        }
    }
}

pub open spec fn path_args_view(v: Seq<PathArg>) -> Seq<PathArgView> {
    v.map_values(|p: PathArg| p@)
}

impl View for CommandArg {
    type V = CommandArgView;

    open spec fn view(&self) -> CommandArgView {
        match self {
            CommandArg::Text(s) => CommandArgView::Text(s@),
            CommandArg::DataPath(s, p) => CommandArgView::DataPath(s@, p@),
            CommandArg::Classpath(v) => CommandArgView::Classpath(path_args_view(v@)),
        }
    }
}

pub open spec fn command_args_view(v: Seq<CommandArg>) -> Seq<CommandArgView> {
    v.map_values(|a: CommandArg| a@)
}

impl View for ProcessSpec {
    type V = ProcessSpecView;

    open spec fn view(&self) -> ProcessSpecView {
        ProcessSpecView {
            program: self.program@,
            working_dir: match self.working_dir {
                Some(p) => Some(p@),
                None => None,
            },
            args: command_args_view(self.args@),
            piped_stdio: self.piped_stdio,
        }
    }
}

/// A text argument.
pub fn text_arg(s: &str) -> (r: CommandArg)
    ensures
        r@ == CommandArgView::Text(s@),
{
    CommandArg::Text(s.to_owned())
}

} // verus!
