//! The command line.

use vstd::prelude::*;

use crate::text;

verus! {

/// How the program is called.
pub const USAGE: &'static str = "Usage: omarchy-power-policy [--dry-run]";

/// Exit code of a run that ended as it should.
pub const EXIT_SUCCESS: u8 = 0;

/// Exit code of a run that could not be set up.
pub const EXIT_FAILURE: u8 = 1;

/// Exit code for a command line that was refused.
pub const EXIT_USAGE: u8 = 2;

/// The arguments behind a leading `--dry-run`.
pub open spec fn past_dry_run(arguments: Seq<Seq<char>>) -> Seq<Seq<char>> {
    if arguments.len() > 0 && arguments[0] == "--dry-run"@ {
        arguments.drop_first()
    } else {
        arguments
    }
}

/// What the arguments mean. A single `--dry-run`, or none, may stand there and nothing else; the
/// first argument out of place decides, and an empty error means that it asks for help.
pub open spec fn parsed(arguments: Seq<Seq<char>>) -> Result<bool, Seq<char>> {
    let rest = past_dry_run(arguments);
    if rest.len() == 0 {
        Ok(arguments.len() > 0)
    } else if rest[0] == "--help"@ {
        Err(""@)
    } else {
        Err("unknown or duplicate argument"@)
    }
}

/// A verdict on the arguments, its error by its characters.
pub open spec fn verdict(result: Result<bool, &'static str>) -> Result<bool, Seq<char>> {
    match result {
        Ok(dry_run) => Ok(dry_run),
        Err(error) => Err(error@),
    }
}

/// Whether the arguments, the program's name not among them, ask for a dry run. The error is
/// empty if they ask for help.
pub fn parse_dry_run(arguments: &[String]) -> (result: Result<bool, &'static str>)
    ensures
        verdict(result) == parsed(text::texts(arguments@)),
{
    let ghost given = text::texts(arguments@);
    proof {
        reveal_strlit("--dry-run");
        reveal_strlit("--help");
        assert("--dry-run"@.len() != "--help"@.len());
    }
    let mut dry_run = false;
    for i in 0..arguments.len()
        invariant
            given == text::texts(arguments@),
            dry_run == (i > 0),
            i <= 1,
            i == 1 ==> given[0] == "--dry-run"@,
            "--dry-run"@ != "--help"@,
    {
        let argument = arguments[i].as_str();
        assert(argument@ == given[i as int]);
        if !dry_run && text::same_text(argument, "--dry-run") {
            dry_run = true;
        } else if text::same_text(argument, "--help") {
            return Err("");
        } else {
            return Err("unknown or duplicate argument");
        }
    }
    Ok(dry_run)
}

/// Once arguments are refused, or found to ask for help, what follows them changes nothing.
pub proof fn a_refusal_is_final(arguments: Seq<Seq<char>>, more: Seq<Seq<char>>)
    requires
        parsed(arguments) is Err,
    ensures
        parsed(arguments + more) == parsed(arguments),
{
    assert(past_dry_run(arguments + more) =~= past_dry_run(arguments) + more);
}

/// The arguments that are accepted are none at all and `--dry-run` alone.
pub proof fn what_is_accepted(arguments: Seq<Seq<char>>)
    ensures
        parsed(arguments) == Ok::<bool, Seq<char>>(false) <==> arguments == Seq::<
            Seq<char>,
        >::empty(),
        parsed(arguments) == Ok::<bool, Seq<char>>(true) <==> arguments == seq!["--dry-run"@],
{
    if parsed(arguments) == Ok::<bool, Seq<char>>(true) {
        assert(arguments =~= seq!["--dry-run"@]);
    }
    if parsed(arguments) == Ok::<bool, Seq<char>>(false) {
        assert(arguments =~= Seq::<Seq<char>>::empty());
    }
}

/// What to do with the command line.
#[derive(Debug, PartialEq, Eq)]
pub enum Launch {
    /// Run the daemon.
    Run { dry_run: bool },
    /// Print the usage to standard output and exit.
    Help { usage: &'static str, code: u8 },
    /// Log the line and exit.
    Refuse { line: String, code: u8 },
}

/// A launch by its text.
pub enum LaunchView {
    Run { dry_run: bool },
    Help { usage: Seq<char>, code: u8 },
    Refuse { line: Seq<char>, code: u8 },
}

impl View for Launch {
    type V = LaunchView;

    open spec fn view(&self) -> LaunchView {
        match self {
            Launch::Run { dry_run } => LaunchView::Run { dry_run: *dry_run },
            Launch::Help { usage, code } => LaunchView::Help { usage: usage@, code: *code },
            Launch::Refuse { line, code } => LaunchView::Refuse { line: line@, code: *code },
        }
    }
}

/// What a verdict on the arguments leads to.
pub open spec fn launched(verdict: Result<bool, Seq<char>>) -> LaunchView {
    match verdict {
        Ok(dry_run) => LaunchView::Run { dry_run },
        Err(error) => if error.len() == 0 {
            LaunchView::Help { usage: USAGE@, code: EXIT_SUCCESS }
        } else {
            LaunchView::Refuse { line: "ERROR "@ + error, code: EXIT_USAGE }
        },
    }
}

/// What the verdict of `parse_dry_run` leads to.
pub fn launch(result: Result<bool, &'static str>) -> (launch: Launch)
    ensures
        launch@ == launched(verdict(result)),
{
    match result {
        Ok(dry_run) => Launch::Run { dry_run },
        Err(error) => {
            proof {
                reveal_strlit("");
                assert(error@.len() == 0 ==> error@ =~= ""@);
            }
            if text::same_text(error, "") {
                Launch::Help { usage: USAGE, code: EXIT_SUCCESS }
            } else {
                Launch::Refuse { line: text::line("ERROR ", error), code: EXIT_USAGE }
            }
        },
    }
}

/// Help is asked for by `--help` in first place, or in second place behind `--dry-run`, whatever
/// follows; every other command line but the two accepted ones is refused with the same words.
pub proof fn what_is_not_accepted(arguments: Seq<Seq<char>>)
    ensures
        ({
            let help = (arguments.len() >= 1 && arguments[0] == "--help"@) || (arguments.len() >= 2
                && arguments[0] == "--dry-run"@ && arguments[1] == "--help"@);
            let accepted = arguments.len() == 0 || (arguments.len() == 1 && arguments[0]
                == "--dry-run"@);
            &&& help ==> parsed(arguments) == Err::<bool, Seq<char>>(""@)
            &&& !help && !accepted ==> parsed(arguments) == Err::<bool, Seq<char>>(
                "unknown or duplicate argument"@,
            )
            &&& accepted <==> parsed(arguments) is Ok
        }),
{
    reveal_strlit("--dry-run");
    reveal_strlit("--help");
    assert("--dry-run"@.len() != "--help"@.len());
}

/// An accepted command line runs the daemon in its mode; an empty error shows the usage and
/// succeeds; any other error is logged behind `ERROR` and exits with 2.
pub proof fn what_a_verdict_leads_to(dry_run: bool, error: Seq<char>)
    ensures
        launched(Ok(dry_run)) == (LaunchView::Run { dry_run }),
        launched(Err(Seq::empty())) == (LaunchView::Help {
            usage: "Usage: omarchy-power-policy [--dry-run]"@,
            code: 0,
        }),
        error.len() > 0 ==> launched(Err(error)) == (LaunchView::Refuse {
            line: "ERROR "@ + error,
            code: 2,
        }),
        EXIT_SUCCESS == 0 && EXIT_FAILURE == 1 && EXIT_USAGE == 2,
{
}

/// The views of verdicts and launches keep all that they hold.
pub proof fn views_keep_every_verdict(
    dry_run: bool,
    code: u8,
    error: &'static str,
    line: String,
)
    ensures
        verdict(Ok(dry_run)) == Ok::<bool, Seq<char>>(dry_run),
        verdict(Err(error)) == Err::<bool, Seq<char>>(error@),
        (Launch::Run { dry_run })@ == (LaunchView::Run { dry_run }),
        (Launch::Help { usage: error, code })@ == (LaunchView::Help { usage: error@, code }),
        (Launch::Refuse { line, code })@ == (LaunchView::Refuse { line: line@, code }),
{
}

} // verus!
