//! The shell: dispatch an argument list to the manual page, a usage error,
//! or per-name resolution, and format each result as an output line.

use vstd::prelude::*;
use crate::resolver::Resolution;
use crate::resolver::ResolutionView;
use crate::resolver::resolve;
use crate::resolver::resolve_in;
use crate::resolver::resolve_model;
use crate::search_path::join_spec;
use crate::search_path::views_of;

verus! {

/// What an invocation asks for: a usage error for want of an argument, the
/// manual page, or the resolution of each remaining argument in order.
#[derive(Debug, PartialEq, Eq)]
pub enum Dispatch {
    Usage,
    Help,
    Run(Vec<String>),
}

/// The mathematical value of a `Dispatch`.
pub enum DispatchView {
    Usage,
    Help,
    Run(Seq<Seq<char>>),
}

impl View for Dispatch {
    type V = DispatchView;

    open spec fn view(&self) -> DispatchView {
        match self {
            Dispatch::Usage => DispatchView::Usage,
            Dispatch::Help => DispatchView::Help,
            Dispatch::Run(names) => DispatchView::Run(views_of(names@)),
        }
    }
}

/// The first-argument forms that ask for the manual page.
pub open spec fn is_help_flag(s: Seq<char>) -> bool {
    s == "-h"@ || s == "--help"@ || s == "help"@
}

/// What the shell does with an argument list, whose first element is the
/// program's own name as the process receives it: with no further argument
/// it is a usage error; with a help flag first, the manual page; otherwise
/// every remaining argument is a query, kept in order.
pub open spec fn dispatch_spec(args: Seq<Seq<char>>) -> DispatchView {
    if args.len() < 2 {
        DispatchView::Usage
    } else if is_help_flag(args[1]) {
        DispatchView::Help
    } else {
        DispatchView::Run(args.skip(1))
    }
}

/// The manual page text, reproduced verbatim when help is asked for.
pub open spec fn man_page_text() -> Seq<char> {
    "\nNAME\n    which - locate a command\nSYNOPSIS\n    which [ -h | --help | help ]\nDESCRIPTION\n    prints the full path of commands\nOPTIONS\n    -h Print this manual page.\n"@
}

/// Whether an argument is one of the help flags.
fn is_help_arg(s: &String) -> (r: bool)
    ensures
        r == is_help_flag(s@),
{
    let short = String::from_str("-h");
    let long = String::from_str("--help");
    let word = String::from_str("help");
    *s == short || *s == long || *s == word
}

/// An invocation: the argument list, `args[0]` being the program's own name.
pub struct Command {
    args: Vec<String>,
}

impl View for Command {
    type V = Seq<Seq<char>>;

    closed spec fn view(&self) -> Seq<Seq<char>> {
        views_of(self.args@)
    }
}

impl Command {
    /// A command over the given argument list.
    pub fn new(args: Vec<String>) -> (c: Command)
        ensures
            c@ == views_of(args@),
    {
        Command { args }
    }

    /// Decide what the argument list asks for. A help flag in the first
    /// position short-circuits resolution: the result then carries no query,
    /// and neither the search path nor the filesystem enters the decision.
    pub fn execute(&self) -> (d: Dispatch)
        ensures
            d@ == dispatch_spec(self@),
    {
        if self.args.len() < 2 {
            Dispatch::Usage
        } else if is_help_arg(&self.args[1]) {
            Dispatch::Help
        } else {
            let mut names: Vec<String> = Vec::new();
            let mut i: usize = 1;
            proof {
                assert(views_of(names@) =~= self@.subrange(1, 1));
            }
            while i < self.args.len()
                invariant
                    1 <= i <= self.args@.len(),
                    views_of(names@) == self@.subrange(1, i as int),
                    self@ == views_of(self.args@),
                decreases self.args@.len() - i,
            {
                let ghost names_before = names@;
                names.push(self.args[i].clone());
                i = i + 1;
                proof {
                    crate::search_path::lemma_views_of_push(names_before, names@.last());
                    assert(views_of(names@) =~= self@.subrange(1, i as int));
                }
            }
            proof {
                assert(self@.subrange(1, self@.len() as int) =~= self@.skip(1));
            }
            Dispatch::Run(names)
        }
    }

    /// The manual page, printed on standard output when help is asked for.
    pub fn help(&self) -> (r: String)
        ensures
            r@ == man_page_text(),
    {
        String::from_str(
            "\nNAME\n    which - locate a command\nSYNOPSIS\n    which [ -h | --help | help ]\nDESCRIPTION\n    prints the full path of commands\nOPTIONS\n    -h Print this manual page.\n",
        )
    }
}

/// One line of output, destined for standard output or standard error.
#[derive(Debug, PartialEq, Eq)]
pub enum OutputLine {
    Stdout(String),
    Stderr(String),
}

/// The mathematical value of an `OutputLine`.
pub enum OutputLineView {
    Stdout(Seq<char>),
    Stderr(Seq<char>),
}

impl View for OutputLine {
    type V = OutputLineView;

    open spec fn view(&self) -> OutputLineView {
        match self {
            OutputLine::Stdout(s) => OutputLineView::Stdout(s@),
            OutputLine::Stderr(s) => OutputLineView::Stderr(s@),
        }
    }
}

/// The line that reports one resolution: the found path, newline-terminated,
/// on standard output; `<name> not found` on standard error.
pub open spec fn report_spec(r: ResolutionView, name: Seq<char>) -> OutputLineView {
    match r {
        ResolutionView::Found(p) => OutputLineView::Stdout(p + "\n"@),
        ResolutionView::NotFound => OutputLineView::Stderr(name + " not found\n"@),
    }
}

/// Format one resolution as its output line.
pub fn report(r: &Resolution, name: &str) -> (line: OutputLine)
    ensures
        line@ == report_spec(r@, name@),
{
    match r {
        Resolution::Found(p) => {
            let mut s = p.clone();
            s.append("\n");
            OutputLine::Stdout(s)
        },
        Resolution::NotFound => {
            let mut s = String::from_str(name);
            s.append(" not found\n");
            OutputLine::Stderr(s)
        },
    }
}

/// Resolve every name independently against the modelled filesystem and
/// report each, in input order: line `i` reports name `i`, whatever became
/// of the other names.
pub fn run_in(names: &Vec<String>, dirs: &Vec<String>, existing: &Vec<String>) -> (out: Vec<
    OutputLine,
>)
    ensures
        out@.len() == names@.len(),
        forall|i: int|
            0 <= i < names@.len() ==> out@[i]@ == report_spec(
                resolve_model(views_of(dirs@), names@[i]@, views_of(existing@)),
                names@[i]@,
            ),
{
    let mut out: Vec<OutputLine> = Vec::new();
    let mut i: usize = 0;
    while i < names.len()
        invariant
            i <= names@.len(),
            out@.len() == i,
            forall|j: int|
                0 <= j < i ==> out@[j]@ == report_spec(
                    resolve_model(views_of(dirs@), names@[j]@, views_of(existing@)),
                    names@[j]@,
                ),
        decreases names@.len() - i,
    {
        let r = resolve_in(dirs, names[i].as_str(), existing);
        let line = report(&r, names[i].as_str());
        out.push(line);
        i = i + 1;
    }
    out
}

/// What is known of the line that reports one name after probing the real
/// filesystem: a standard-output line carries the candidate of one of the
/// directories for that name, newline-terminated; a standard-error line is
/// that name's miss report.
pub open spec fn probed_line_ok(line: OutputLineView, dirs: Seq<Seq<char>>, name: Seq<char>) -> bool {
    match line {
        OutputLineView::Stdout(s) => exists|j: int|
            0 <= j < dirs.len() && s == join_spec(dirs[j], name) + "\n"@,
        OutputLineView::Stderr(s) => s == name + " not found\n"@,
    }
}

/// Resolve every name against the real filesystem and report each, in input
/// order. The disk decides each resolution, so each line is pinned down only
/// as far as that allows; with an empty search path every line is a miss
/// report.
pub fn run(names: &Vec<String>, dirs: &Vec<String>) -> (out: Vec<OutputLine>)
    ensures
        out@.len() == names@.len(),
        forall|i: int|
            0 <= i < names@.len() ==> probed_line_ok(
                #[trigger] out@[i]@,
                views_of(dirs@),
                names@[i]@,
            ),
        dirs@.len() == 0 ==> forall|i: int|
            0 <= i < names@.len() ==> out@[i]@ == OutputLineView::Stderr(
                names@[i]@ + " not found\n"@,
            ),
{
    let mut out: Vec<OutputLine> = Vec::new();
    let mut i: usize = 0;
    while i < names.len()
        invariant
            i <= names@.len(),
            out@.len() == i,
            forall|j: int|
                0 <= j < i ==> probed_line_ok(#[trigger] out@[j]@, views_of(dirs@), names@[j]@),
            dirs@.len() == 0 ==> forall|j: int|
                0 <= j < i ==> out@[j]@ == OutputLineView::Stderr(names@[j]@ + " not found\n"@),
        decreases names@.len() - i,
    {
        let name_i = names[i].as_str();
        let r = resolve(dirs, name_i);
        let line = report(&r, name_i);
        out.push(line);
        proof {
            let dv = views_of(dirs@);
            match r@ {
                ResolutionView::Found(p) => {
                    let j = choose|j: int|
                        0 <= j < dirs@.len() && p == join_spec(dirs@[j]@, name_i@);
                    assert(dv[j] == dirs@[j]@);
                    assert(probed_line_ok(out@[i as int]@, dv, names@[i as int]@));
                },
                ResolutionView::NotFound => {
                    assert(probed_line_ok(out@[i as int]@, dv, names@[i as int]@));
                },
            }
        }
        i = i + 1;
    }
    out
}

} // verus!
