//! The decisions of the interactive session loop.
//!
//! The loop itself prompts, reads one line, and performs side effects;
//! the decision of what one line demands is made here: an empty line is
//! skipped, any other line is translated and dispatched to exactly one
//! action, and only `quit` terminates the session.

use vstd::prelude::*;

use crate::grammar::Cli;
use crate::grammar::Commands;
use crate::grammar::InputParser;
use crate::grammar::ParseFailure;
use crate::grammar::failure_equiv;
use crate::grammar::lemma_translate_pure;
use crate::grammar::outcome_for_line;
use crate::tokens::tokens_of;

verus! {

/// What the session loop must do in answer to one line of input.
pub enum Action {
    /// An empty line: return to the prompt without translating.
    Reprompt,
    /// Run the repository initializer at the given path, then report.
    InitRepository { path: String },
    /// Print the directories among the current directory's entries.
    ListDirectories,
    /// Print the failure's diagnostic, then a blank line.
    PrintDiagnostic { failure: ParseFailure },
    /// Print the farewell and end the session.
    Terminate,
}

/// The action that belongs to one translation outcome.
pub open spec fn action_for_outcome(r: Result<Cli, ParseFailure>, a: Action) -> bool {
    match r {
        Result::Ok(c) => match c.command {
            Commands::Init { path } => a matches Action::InitRepository { path: p } && p@ == path@,
            Commands::Quit => a is Terminate,
            Commands::Ls => a is ListDirectories,
        },
        Result::Err(f) => a matches Action::PrintDiagnostic { failure } && failure_equiv(
            failure,
            f,
        ),
    }
}

/// The action that belongs to one line: an empty line is skipped
/// before the translator is ever invoked; any other line acts as its
/// translation outcome demands.
pub open spec fn action_for_line(line: Seq<char>, a: Action) -> bool {
    if tokens_of(line).len() == 0 {
        a is Reprompt
    } else {
        forall|r: Result<Cli, ParseFailure>|
            #[trigger] outcome_for_line(line, r) ==> action_for_outcome(r, a)
    }
}

/// Decide what one line of input demands of the session loop.
pub fn dispatch(parser: &InputParser, line: &str) -> (a: Action)
    ensures
        action_for_line(line@, a),
{
    match parser.parse(line) {
        Result::Err(ParseFailure::Help) => {
            // The translator answers a help request only for a line
            // without words; the loop skips such a line before the
            // translator would see it.
            let a = Action::Reprompt;
            proof {
                if tokens_of(line@).len() != 0 {
                    assert(false);
                }
            }
            a
        },
        Result::Ok(c) => {
            let ghost r0 = Result::<Cli, ParseFailure>::Ok(c);
            let a = match c.command {
                Commands::Init { path } => Action::InitRepository { path },
                Commands::Quit => Action::Terminate,
                Commands::Ls => Action::ListDirectories,
            };
            proof {
                assert forall|r: Result<Cli, ParseFailure>|
                    #[trigger] outcome_for_line(line@, r) implies action_for_outcome(r, a) by {
                    lemma_translate_pure(line@, r, r0);
                }
            }
            a
        },
        Result::Err(f) => {
            let ghost r0 = Result::<Cli, ParseFailure>::Err(f);
            let a = Action::PrintDiagnostic { failure: f };
            proof {
                assert forall|r: Result<Cli, ParseFailure>|
                    #[trigger] outcome_for_line(line@, r) implies action_for_outcome(r, a) by {
                    lemma_translate_pure(line@, r, r0);
                }
            }
            a
        },
    }
}

/// Law: the session terminates only by an explicit `quit`. An action
/// that the dispatcher's contract admits for a line is `Terminate`
/// exactly when the line translates to the `Quit` command.
pub proof fn lemma_terminate_only_by_quit(
    line: Seq<char>,
    a: Action,
    r: Result<Cli, ParseFailure>,
)
    requires
        action_for_line(line, a),
        outcome_for_line(line, r),
    ensures
        (a is Terminate) <==> (r matches Result::Ok(c) && c.command is Quit),
{
    if tokens_of(line).len() != 0 {
        assert(action_for_outcome(r, a));
    }
}

impl Action {
    /// Whether this action ends the session: only `Terminate` does;
    /// after every other action the prompt reappears.
    pub fn is_terminal(&self) -> (r: bool)
        ensures
            r == (*self is Terminate),
    {
        match self {
            Action::Terminate => true,
            _ => false,
        }
    }
}

/// One entry of a directory, as the session's listing command sees it:
/// its name, and whether its metadata marks it a directory.
pub struct ListingEntry {
    pub name: String,
    pub is_dir: bool,
}

/// The names of the directories among `s`, in order; entries that are
/// not directories are silently skipped.
pub open spec fn directory_names_of(s: Seq<ListingEntry>) -> Seq<Seq<char>>
    decreases s.len(),
{
    if s.len() == 0 {
        Seq::empty()
    } else {
        let rest = directory_names_of(s.drop_last());
        if s.last().is_dir {
            rest.push(s.last().name@)
        } else {
            rest
        }
    }
}

/// Keep the names of the directories among the given entries, in
/// order; files are omitted.
pub fn directory_names(entries: &Vec<ListingEntry>) -> (r: Vec<String>)
    ensures
        r@.map_values(|t: String| t@) == directory_names_of(entries@),
{
    let mut r: Vec<String> = Vec::new();
    let mut i: usize = 0;
    proof {
        assert(entries@.take(0) =~= Seq::<ListingEntry>::empty());
        assert(r@.map_values(|t: String| t@) =~= Seq::<Seq<char>>::empty());
    }
    while i < entries.len()
        invariant
            i <= entries@.len(),
            r@.map_values(|t: String| t@) == directory_names_of(entries@.take(i as int)),
        decreases entries@.len() - i,
    {
        proof {
            assert(entries@.take(i as int + 1).drop_last() =~= entries@.take(i as int));
            assert(entries@.take(i as int + 1).last() == entries@[i as int]);
        }
        if entries[i].is_dir {
            let ghost r_before = r@;
            r.push(entries[i].name.clone());
            proof {
                assert(r@.map_values(|t: String| t@) =~= r_before.map_values(|t: String| t@).push(
                    entries@[i as int].name@,
                ));
            }
        }
        i = i + 1;
    }
    proof {
        assert(entries@.take(entries@.len() as int) =~= entries@);
    }
    r
}

/// The fixed prompt, printed without a trailing newline.
pub fn prompt() -> (r: &'static str)
    ensures
        r@ == "gmv> "@,
{
    "gmv> "
}

/// The farewell printed when the session terminates.
pub fn exiting_message() -> (r: &'static str)
    ensures
        r@ == "Exiting..."@,
{
    "Exiting..."
}

} // verus!
