//! The interactive shell: what to write and what to do next, for the
//! arguments the program was started with and for each line of input.

use crate::report::{report_texts, search_texts};
use crate::session::FileSearcher;
use crate::trim::{trim, trimmed};
use crate::walk::{hit_paths, WalkItemView};
use vstd::prelude::*;
use vstd::string::*;

verus! {

/// The argument that asks for verbose mode.
pub const VERBOSE_FLAG: &'static str = "--verbose";

/// The argument that asks for the usage line.
pub const HELP_FLAG: &'static str = "--help";

/// Shown once, when the shell starts.
pub const BANNER: &'static str = "
 ██████╗ ██████╗ ██╗ ██████╗ ███╗   ██╗
██╔═══██╗██╔══██╗██║██╔═══██╗████╗  ██║
██║   ██║██████╔╝██║██║   ██║██╔██╗ ██║
██║   ██║██╔══██╗██║██║   ██║██║╚██╗██║
╚██████╔╝██║  ██║██║╚██████╔╝██║ ╚████║
 ╚═════╝ ╚═╝  ╚═╝╚═╝ ╚═════╝ ╚═╝  ╚═══╝
";

/// Follows the banner in verbose mode.
pub const VERBOSE_NOTICE: &'static str = "[Debug] Orion running in Verbose mode!";

/// Follows the banner, and in verbose mode the notice.
pub const WELCOME: &'static str = "[Orion] Welcome to Orion, the file search engine.";

/// All that is written when help is asked for.
pub const USAGE: &'static str = "[Orion] Usage: orion [--verbose] (is the only option available)";

/// Asks for the root directory of the next search.
pub const SCOPE_PROMPT: &'static str = "[Orion] Enter search scope: ";

/// Asks for the query of the next search.
pub const QUERY_PROMPT: &'static str = "[Orion] Enter search query: ";

/// How the program was asked to run.
#[derive(Debug, Clone, Copy, PartialEq, Eq, Structural)]
pub enum Mode {
    /// Neither flag was given.
    Plain,
    /// `--verbose` was given.
    Verbose,
    /// `--help` was given, and `--verbose` was not.
    Help,
}

/// The mode that the arguments ask for. `--verbose` anywhere among them wins
/// over `--help`; every other argument is ignored.
pub open spec fn mode_of(args: Seq<Seq<char>>) -> Mode {
    if args.contains(VERBOSE_FLAG@) {
        Mode::Verbose
    } else if args.contains(HELP_FLAG@) {
        Mode::Help
    } else {
        Mode::Plain
    }
}

/// Whether `flag` is one of the arguments.
fn has_flag(args: &Vec<String>, flag: &str) -> (found: bool)
    ensures
        found == args.deep_view().contains(flag@),
{
    let wanted = String::from_str(flag);
    let mut i: usize = 0;
    while i < args.len()
        invariant
            i <= args.len(),
            wanted@ == flag@,
            forall|j: int| 0 <= j < i ==> args.deep_view()[j] != flag@,
        decreases args.len() - i,
    {
        if args[i] == wanted {
            assert(args.deep_view()[i as int] == flag@);
            return true;
        }
        i += 1;
    }
    false
}

/// Reads the mode off the arguments the program was started with.
pub fn parse_mode(args: &Vec<String>) -> (mode: Mode)
    ensures
        mode == mode_of(args.deep_view()),
{
    if has_flag(args, VERBOSE_FLAG) {
        Mode::Verbose
    } else if has_flag(args, HELP_FLAG) {
        Mode::Help
    } else {
        Mode::Plain
    }
}

/// Something for the program around the shell to do.
#[derive(Debug, Clone, PartialEq, Eq)]
pub enum Action {
    /// Write the text and end the line.
    Say(String),
    /// Write the text, leave the line open, and read a line of input.
    Ask(String),
    /// Search for `query` under `root_dir` and write what the search gives.
    Search { root_dir: String, query: String, verbose: bool },
}

/// The mathematical value of an [`Action`].
pub enum ActionView {
    Say(Seq<char>),
    Ask(Seq<char>),
    Search { root_dir: Seq<char>, query: Seq<char>, verbose: bool },
}

impl View for Action {
    type V = ActionView;

    open spec fn view(&self) -> ActionView {
        match self {
            Action::Say(text) => ActionView::Say(text@),
            Action::Ask(text) => ActionView::Ask(text@),
            Action::Search { root_dir, query, verbose } => ActionView::Search {
                root_dir: root_dir@,
                query: query@,
                verbose: *verbose,
            },
        }
    }
}

impl DeepView for Action {
    type V = ActionView;

    open spec fn deep_view(&self) -> ActionView {
        self@
    }
}

/// Something that happened to the program around the shell.
#[derive(Debug, Clone, PartialEq, Eq)]
pub enum Event {
    /// The program was started with these arguments.
    Started(Vec<String>),
    /// A line of input was read, with or without its terminator.
    Line(String),
    /// The input has come to its end.
    EndOfInput,
}

/// The mathematical value of an [`Event`].
pub enum EventView {
    Started(Seq<Seq<char>>),
    Line(Seq<char>),
    EndOfInput,
}

impl View for Event {
    type V = EventView;

    open spec fn view(&self) -> EventView {
        match self {
            Event::Started(args) => EventView::Started(args.deep_view()),
            Event::Line(text) => EventView::Line(text@),
            Event::EndOfInput => EventView::EndOfInput,
        }
    }
}

/// Where the shell stands. It starts in `Startup`, which it leaves for good
/// when it learns its arguments. From then on it is in the prompt loop, where
/// it waits in turn for the root and for the query of a search, until the
/// input ends. Help is asked for, or the input ends: the shell is `Stopped`
/// and stays so.
#[derive(Debug, Clone, PartialEq, Eq)]
pub enum Shell {
    /// Nothing has happened yet.
    Startup,
    /// In the prompt loop, the root of the next search was asked for.
    AwaitingScope { verbose: bool },
    /// In the prompt loop, the query for a search under `root_dir` was asked
    /// for.
    AwaitingQuery { verbose: bool, root_dir: String },
    /// Nothing more will be asked or written.
    Stopped,
}

/// The mathematical value of a [`Shell`].
pub enum ShellView {
    Startup,
    AwaitingScope { verbose: bool },
    AwaitingQuery { verbose: bool, root_dir: Seq<char> },
    Stopped,
}

impl View for Shell {
    type V = ShellView;

    open spec fn view(&self) -> ShellView {
        match self {
            Shell::Startup => ShellView::Startup,
            Shell::AwaitingScope { verbose } => ShellView::AwaitingScope { verbose: *verbose },
            Shell::AwaitingQuery { verbose, root_dir } => ShellView::AwaitingQuery {
                verbose: *verbose,
                root_dir: root_dir@,
            },
            Shell::Stopped => ShellView::Stopped,
        }
    }
}

/// What the shell does when it learns its mode. Help writes the usage line and
/// stops. Otherwise the banner is written, in verbose mode the notice, then
/// the welcome, and the root of the first search is asked for.
pub open spec fn startup(mode: Mode) -> (ShellView, Seq<ActionView>) {
    match mode {
        Mode::Help => (ShellView::Stopped, seq![ActionView::Say(USAGE@)]),
        Mode::Verbose => (
            ShellView::AwaitingScope { verbose: true },
            seq![
                ActionView::Say(BANNER@),
                ActionView::Say(VERBOSE_NOTICE@),
                ActionView::Say(WELCOME@),
                ActionView::Ask(SCOPE_PROMPT@),
            ],
        ),
        Mode::Plain => (
            ShellView::AwaitingScope { verbose: false },
            seq![
                ActionView::Say(BANNER@),
                ActionView::Say(WELCOME@),
                ActionView::Ask(SCOPE_PROMPT@),
            ],
        ),
    }
}

/// The state the shell goes to and what is to be done, for a state and an
/// event. A line is trimmed before use. A line read while the root is awaited
/// becomes the root, and the query is asked for; a line read while the query is
/// awaited sets off the search, after which the next root is asked for. The
/// end of the input stops the prompt loop. An event that has no meaning in a
/// state changes nothing and asks for nothing.
pub open spec fn transition(state: ShellView, event: EventView) -> (ShellView, Seq<ActionView>) {
    match (state, event) {
        (ShellView::Startup, EventView::Started(args)) => startup(mode_of(args)),
        (ShellView::AwaitingScope { verbose }, EventView::Line(line)) => (
            ShellView::AwaitingQuery { verbose, root_dir: trimmed(line) },
            seq![ActionView::Ask(QUERY_PROMPT@)],
        ),
        (ShellView::AwaitingQuery { verbose, root_dir }, EventView::Line(line)) => (
            ShellView::AwaitingScope { verbose },
            seq![
                ActionView::Search { root_dir, query: trimmed(line), verbose },
                ActionView::Ask(SCOPE_PROMPT@),
            ],
        ),
        (ShellView::AwaitingScope { .. }, EventView::EndOfInput) => (
            ShellView::Stopped,
            Seq::empty(),
        ),
        (ShellView::AwaitingQuery { .. }, EventView::EndOfInput) => (
            ShellView::Stopped,
            Seq::empty(),
        ),
        _ => (state, Seq::empty()),
    }
}

/// Everything one search writes: what it writes while it walks `items`, then
/// its report.
pub open spec fn session_texts(
    root_dir: Seq<char>,
    query: Seq<char>,
    verbose: bool,
    items: Seq<WalkItemView>,
    elapsed: Seq<char>,
) -> Seq<Seq<char>> {
    search_texts(items, query, verbose) + report_texts(
        root_dir,
        hit_paths(items, query),
        elapsed,
    )
}

impl Shell {
    /// A shell that has not started yet.
    pub fn new() -> (shell: Shell)
        ensures
            shell@ == ShellView::Startup,
    {
        Shell::Startup
    }

    /// Whether the shell has stopped for good.
    pub fn is_stopped(&self) -> (stopped: bool)
        ensures
            stopped == (self@ is Stopped),
    {
        match self {
            Shell::Stopped => true,
            _ => false,
        }
    }

    /// Takes one event: moves to the next state and says what is to be done,
    /// in order, before the next event is handed in.
    pub fn step(&mut self, event: &Event) -> (actions: Vec<Action>)
        ensures
            (final(self)@, actions.deep_view()) == transition(old(self)@, event@),
    {
        let mut actions: Vec<Action> = Vec::new();
        match event {
            Event::Started(args) => {
                if let Shell::Startup = self {
                    let mode = parse_mode(args);
                    match mode {
                        Mode::Help => {
                            actions.push(Action::Say(String::from_str(USAGE)));
                            *self = Shell::Stopped;
                        },
                        Mode::Verbose => {
                            actions.push(Action::Say(String::from_str(BANNER)));
                            actions.push(Action::Say(String::from_str(VERBOSE_NOTICE)));
                            actions.push(Action::Say(String::from_str(WELCOME)));
                            actions.push(Action::Ask(String::from_str(SCOPE_PROMPT)));
                            *self = Shell::AwaitingScope { verbose: true };
                        },
                        Mode::Plain => {
                            actions.push(Action::Say(String::from_str(BANNER)));
                            actions.push(Action::Say(String::from_str(WELCOME)));
                            actions.push(Action::Ask(String::from_str(SCOPE_PROMPT)));
                            *self = Shell::AwaitingScope { verbose: false };
                        },
                    }
                }
            },
            Event::Line(line) => {
                let text = String::from_str(trim(line.as_str()));
                match self {
                    Shell::AwaitingScope { verbose } => {
                        let verbose = *verbose;
                        actions.push(Action::Ask(String::from_str(QUERY_PROMPT)));
                        *self = Shell::AwaitingQuery { verbose, root_dir: text };
                    },
                    Shell::AwaitingQuery { verbose, root_dir } => {
                        let verbose = *verbose;
                        let root_dir = root_dir.clone();
                        actions.push(Action::Search { root_dir, query: text, verbose });
                        actions.push(Action::Ask(String::from_str(SCOPE_PROMPT)));
                        *self = Shell::AwaitingScope { verbose };
                    },
                    _ => {},
                }
            },
            Event::EndOfInput => {
                match self {
                    Shell::AwaitingScope { .. } => {
                        *self = Shell::Stopped;
                    },
                    Shell::AwaitingQuery { .. } => {
                        *self = Shell::Stopped;
                    },
                    _ => {},
                }
            },
        }
        assert(actions.deep_view() =~= transition(old(self)@, event@).1);
        actions
    }
}

/// Carries out [`Action::Search`]: makes a fresh search for `query` under
/// `root_dir`, runs it over the tree under `root_dir`, and reports. The lines
/// are those the search writes while it walks, then those of its report. What
/// the walk meets and how long it takes are not known before; the lines are
/// those that belong to them.
pub fn run_search(root_dir: &str, query: &str, verbose: bool) -> (lines: Vec<String>)
    ensures
        exists|items: Seq<WalkItemView>, elapsed: Seq<char>|
            lines.deep_view() == #[trigger] session_texts(
                root_dir@,
                query@,
                verbose,
                items,
                elapsed,
            ),
{
    let mut searcher = FileSearcher::new(String::from_str(query), String::from_str(root_dir));
    let ghost fresh = searcher@;
    let mut lines = searcher.search(root_dir, verbose);
    let ghost walked = lines.deep_view();
    let mut report = searcher.display_results();
    let ghost reported = report.deep_view();
    lines.append(&mut report);
    proof {
        let items = choose|items: Seq<WalkItemView>|
            searcher@ == #[trigger] fresh.after(items) && walked == search_texts(
                items,
                fresh.query,
                verbose,
            );
        let elapsed = choose|elapsed: Seq<char>|
            reported == #[trigger] report_texts(searcher@.root_dir, searcher@.results, elapsed);
        assert(searcher@.results =~= hit_paths(items, query@));
        assert(lines.deep_view() =~= walked + reported);
        assert(lines.deep_view() == session_texts(root_dir@, query@, verbose, items, elapsed));
    }
    lines
}

} // verus!
