//! The command grammar and the line-to-command translator.
//!
//! The grammar is a closed set of three commands: `init <path>`, `quit`
//! and `ls`. The translator turns one line of free-form text into a
//! grammar instance or a structured parse failure. The program's own
//! invocation name may stand in front of the command; it is optional
//! and is never doubled.

use vstd::prelude::*;

use crate::tokens::token_is;
use crate::tokens::tokenize;
use crate::tokens::tokens_of;

verus! {

/// One parsed command: exactly one variant is active per parsed line.
#[derive(Debug)]
pub enum Commands {
    /// Initialize a new repository at the given location.
    Init { path: String },
    /// End the session.
    Quit,
    /// List the directories in the current working directory.
    Ls,
}

/// A parsed command line.
#[derive(Debug)]
pub struct Cli {
    pub command: Commands,
}

/// A structured parse failure. `Help` is a help request, not a grammar
/// error; every other variant is a genuine grammar error.
#[derive(Debug)]
pub enum ParseFailure {
    /// An empty line: the caller should show usage, not a diagnostic.
    Help,
    /// Only the program's name was given; a subcommand is required.
    MissingSubcommand,
    /// `init` without its required path argument.
    MissingPath,
    /// The first word is no command of the grammar.
    UnknownSubcommand { word: String },
    /// A word after a complete command.
    UnexpectedArgument { word: String },
}

/// Drop one leading occurrence of the program's own invocation name,
/// so that grammar matching is uniform whether or not the user typed it.
pub open spec fn strip_program_name(toks: Seq<Seq<char>>) -> Seq<Seq<char>> {
    if toks.len() > 0 && toks[0] == "gmv"@ {
        toks.skip(1)
    } else {
        toks
    }
}

/// What the grammar yields for a token list that has already had the
/// optional program name stripped.
pub open spec fn outcome_for_stripped(t: Seq<Seq<char>>, r: Result<Cli, ParseFailure>) -> bool {
    if t.len() == 0 {
        r matches Err(ParseFailure::MissingSubcommand)
    } else if t[0] == "init"@ {
        if t.len() == 1 {
            r matches Err(ParseFailure::MissingPath)
        } else if t.len() == 2 {
            r matches Ok(c) && (c.command matches Commands::Init { path } && path@ == t[1])
        } else {
            r matches Err(ParseFailure::UnexpectedArgument { word }) && word@ == t[2]
        }
    } else if t[0] == "quit"@ {
        if t.len() == 1 {
            r matches Ok(c) && c.command matches Commands::Quit
        } else {
            r matches Err(ParseFailure::UnexpectedArgument { word }) && word@ == t[1]
        }
    } else if t[0] == "ls"@ {
        if t.len() == 1 {
            r matches Ok(c) && c.command matches Commands::Ls
        } else {
            r matches Err(ParseFailure::UnexpectedArgument { word }) && word@ == t[1]
        }
    } else {
        r matches Err(ParseFailure::UnknownSubcommand { word }) && word@ == t[0]
    }
}

/// What the grammar yields for a raw token list.
pub open spec fn outcome_for_tokens(toks: Seq<Seq<char>>, r: Result<Cli, ParseFailure>) -> bool {
    outcome_for_stripped(strip_program_name(toks), r)
}

/// What the translator yields for a whole line: an empty line is a help
/// request; any other line is matched against the grammar.
pub open spec fn outcome_for_line(line: Seq<char>, r: Result<Cli, ParseFailure>) -> bool {
    if tokens_of(line).len() == 0 {
        r matches Err(ParseFailure::Help)
    } else {
        outcome_for_tokens(tokens_of(line), r)
    }
}

/// Equivalence of two parsed commands: the same variant, with equal
/// payloads.
pub open spec fn command_equiv(a: Commands, b: Commands) -> bool {
    match a {
        Commands::Init { path: pa } => b matches Commands::Init { path: pb } && pa@ == pb@,
        Commands::Quit => b is Quit,
        Commands::Ls => b is Ls,
    }
}

/// Equivalence of two parse failures: the same variant, with equal
/// diagnostic payloads.
pub open spec fn failure_equiv(a: ParseFailure, b: ParseFailure) -> bool {
    match a {
        ParseFailure::Help => b is Help,
        ParseFailure::MissingSubcommand => b is MissingSubcommand,
        ParseFailure::MissingPath => b is MissingPath,
        ParseFailure::UnknownSubcommand { word: wa } => b matches ParseFailure::UnknownSubcommand {
            word: wb,
        } && wa@ == wb@,
        ParseFailure::UnexpectedArgument { word: wa } => b matches ParseFailure::UnexpectedArgument {
            word: wb,
        } && wa@ == wb@,
    }
}

/// Equivalence of two translation outcomes.
pub open spec fn outcome_equiv(a: Result<Cli, ParseFailure>, b: Result<Cli, ParseFailure>) -> bool {
    match a {
        Ok(ca) => b matches Ok(cb) && command_equiv(ca.command, cb.command),
        Err(fa) => b matches Err(fb) && failure_equiv(fa, fb),
    }
}

/// Law: translation is a pure function of the line. Any two outcomes
/// that the translator's contract admits for the same line are
/// equivalent.
pub proof fn lemma_translate_pure(
    line: Seq<char>,
    a: Result<Cli, ParseFailure>,
    b: Result<Cli, ParseFailure>,
)
    requires
        outcome_for_line(line, a),
        outcome_for_line(line, b),
    ensures
        outcome_equiv(a, b),
{
}

impl ParseFailure {
    /// The diagnostic text that belongs to this failure.
    pub open spec fn diagnostic_spec(&self) -> Seq<char> {
        match self {
            ParseFailure::Help => "usage: init <path> | quit | ls"@,
            ParseFailure::MissingSubcommand => "error: a subcommand is required"@,
            ParseFailure::MissingPath => "error: 'init' requires a <path> argument"@,
            ParseFailure::UnknownSubcommand { word } => "error: unrecognized subcommand '"@
                + word@ + "'"@,
            ParseFailure::UnexpectedArgument { word } => "error: unexpected argument '"@ + word@
                + "'"@,
        }
    }

    /// Whether this outcome is a help request rather than a grammar
    /// error.
    pub fn is_help(&self) -> (r: bool)
        ensures
            r == (*self is Help),
    {
        match self {
            ParseFailure::Help => true,
            _ => false,
        }
    }

    /// Render the human-readable diagnostic carried by this failure.
    pub fn diagnostic(&self) -> (r: String)
        ensures
            r@ == self.diagnostic_spec(),
    {
        match self {
            ParseFailure::Help => String::from_str("usage: init <path> | quit | ls"),
            ParseFailure::MissingSubcommand => String::from_str("error: a subcommand is required"),
            ParseFailure::MissingPath => String::from_str(
                "error: 'init' requires a <path> argument",
            ),
            ParseFailure::UnknownSubcommand { word } => {
                let mut m = String::from_str("error: unrecognized subcommand '");
                m.append(word.as_str());
                m.append("'");
                m
            },
            ParseFailure::UnexpectedArgument { word } => {
                let mut m = String::from_str("error: unexpected argument '");
                m.append(word.as_str());
                m.append("'");
                m
            },
        }
    }
}

proof fn lemma_tokens_of_gmv_prefix(line: Seq<char>)
    ensures
        tokens_of("gmv "@ + line) == seq!["gmv"@] + tokens_of(line),
{
    reveal_strlit("gmv ");
    reveal_strlit("gmv");
    let s = "gmv "@ + line;
    assert(s[0] == 'g') by {
        assert(s[0] == "gmv "@[0]);
    }
    assert(s[1] == 'm') by {
        assert(s[1] == "gmv "@[1]);
    }
    assert(s[2] == 'v') by {
        assert(s[2] == "gmv "@[2]);
    }
    assert(s[3] == ' ') by {
        assert(s[3] == "gmv "@[3]);
    }
    crate::tokens::lemma_word_len_is(s, 3);
    assert(s.take(3) =~= "gmv"@);
    assert(tokens_of(s) == seq![s.take(3)] + tokens_of(s.skip(3)));
    assert(s.skip(3)[0] == s[3]);
    assert(tokens_of(s.skip(3)) == tokens_of(s.skip(3).skip(1)));
    assert(s.skip(3).skip(1) =~= line);
    assert(seq![s.take(3)] =~= seq!["gmv"@]);
}

/// Law: the program's own invocation name in front of a command line is
/// optional and is never doubled. Putting `"gmv "` in front of a line
/// whose first word is not already the program name leaves the
/// translation outcome equivalent.
pub proof fn lemma_program_name_optional(
    line: Seq<char>,
    a: Result<Cli, ParseFailure>,
    b: Result<Cli, ParseFailure>,
)
    requires
        tokens_of(line).len() > 0,
        tokens_of(line)[0] != "gmv"@,
        outcome_for_line("gmv "@ + line, a),
        outcome_for_line(line, b),
    ensures
        outcome_equiv(a, b),
{
    lemma_tokens_of_gmv_prefix(line);
    let toks = tokens_of(line);
    let ptoks = tokens_of("gmv "@ + line);
    assert(ptoks[0] == "gmv"@) by {
        assert(ptoks[0] == seq!["gmv"@][0]);
    }
    assert(strip_program_name(ptoks) =~= toks);
    assert(strip_program_name(toks) =~= toks);
}

/// Law: the translator never yields an `Init` command with an empty
/// path. A missing path is a grammar error, and a path that was given
/// is a word of the line, hence non-empty.
pub proof fn lemma_init_path_nonempty(line: Seq<char>, r: Result<Cli, ParseFailure>)
    requires
        outcome_for_line(line, r),
        r matches Ok(c) && c.command is Init,
    ensures
        r matches Ok(c) && (c.command matches Commands::Init { path } && path@.len() > 0),
{
    crate::tokens::lemma_tokens_nonempty(line);
    let toks = tokens_of(line);
    let t = strip_program_name(toks);
    if toks.len() > 0 && toks[0] == "gmv"@ {
        assert(t[1] == toks[2]);
    }
}

/// The line-to-command translator.
pub struct InputParser;

impl InputParser {
    pub fn new() -> InputParser {
        InputParser
    }

    /// Translate one line of free-form text into a command or a
    /// structured parse failure.
    pub fn parse(&self, input: &str) -> (r: Result<Cli, ParseFailure>)
        ensures
            outcome_for_line(input@, r),
    {
        let toks = tokenize(input);
        let ghost tv = toks@.map_values(|t: String| t@);
        if toks.len() == 0 {
            return Err(ParseFailure::Help);
        }
        let base: usize = if token_is(&toks[0], "gmv") {
            1
        } else {
            0
        };
        let ghost t = strip_program_name(tv);
        proof {
            if base == 1 {
                assert(t =~= tv.skip(1));
            }
            assert(t =~= tv.skip(base as int));
        }
        if toks.len() == base {
            return Err(ParseFailure::MissingSubcommand);
        }
        proof {
            assert(t[0] == tv[base as int]);
        }
        let rest = toks.len() - base;
        if token_is(&toks[base], "init") {
            if rest == 1 {
                Err(ParseFailure::MissingPath)
            } else if rest == 2 {
                proof {
                    assert(t[1] == tv[base as int + 1]);
                }
                let path = toks[base + 1].clone();
                Ok(Cli { command: Commands::Init { path } })
            } else {
                proof {
                    assert(t[2] == tv[base as int + 2]);
                }
                Err(ParseFailure::UnexpectedArgument { word: toks[base + 2].clone() })
            }
        } else if token_is(&toks[base], "quit") {
            if rest == 1 {
                Ok(Cli { command: Commands::Quit })
            } else {
                proof {
                    assert(t[1] == tv[base as int + 1]);
                }
                Err(ParseFailure::UnexpectedArgument { word: toks[base + 1].clone() })
            }
        } else if token_is(&toks[base], "ls") {
            if rest == 1 {
                Ok(Cli { command: Commands::Ls })
            } else {
                proof {
                    assert(t[1] == tv[base as int + 1]);
                }
                Err(ParseFailure::UnexpectedArgument { word: toks[base + 1].clone() })
            }
        } else {
            Err(ParseFailure::UnknownSubcommand { word: toks[base].clone() })
        }
    }
}

} // verus!
