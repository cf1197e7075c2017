//! Argument handling of the repository task runner.

use crate::text::string_views;
use vstd::prelude::*;
use vstd::string::*;

verus! {

/// The arguments to pass through to cargo: those given, without a leading
/// `--` separator.
pub fn normalize_passthrough_args(args: Vec<String>) -> (r: Vec<String>)
    ensures
        args@.len() > 0 && args@[0]@ == "--"@ ==> r@ == args@.drop_first(),
        !(args@.len() > 0 && args@[0]@ == "--"@) ==> r@ == args@,
{
    let ghost given = args@;
    let mut args = args;
    if args.len() > 0 && args[0] == String::from_str("--") {
        args.remove(0);
        assert(args@ =~= given.drop_first());
    }
    args
}

/// What one invocation of the task runner asks for.
#[derive(Clone, Debug, PartialEq, Eq)]
pub enum TaskCommand {
    /// Print the usage text.
    Help,
    /// Run cargo with these leading arguments, followed by the passthrough
    /// arguments.
    Cargo(Vec<String>),
    /// Check each minimal feature set of the facade crate in turn.
    FeatureMatrix,
    /// A command the runner does not know.
    Unknown(String),
}

/// Whether `command` asks for the usage text.
pub open spec fn is_help_command(command: Seq<char>) -> bool {
    command == "help"@ || command == "--help"@ || command == "-h"@
}

/// The cargo arguments a standard command runs with, before the
/// passthrough arguments.
pub open spec fn cargo_base_args(command: Seq<char>) -> Option<Seq<Seq<char>>> {
    if command == "check"@ {
        Some(seq!["check"@, "--workspace"@])
    } else if command == "fmt"@ {
        Some(seq!["fmt"@, "--all"@])
    } else if command == "lint"@ {
        Some(seq!["clippy"@, "--workspace"@, "--all-targets"@, "--all-features"@, "--"@, "-D"@, "warnings"@])
    } else if command == "test"@ {
        Some(seq!["test"@, "--workspace"@])
    } else {
        None
    }
}

fn strings_of(items: &[&str]) -> (r: Vec<String>)
    ensures
        string_views(r@) == items@.map_values(|s: &str| s@),
{
    let mut out: Vec<String> = Vec::new();
    let mut i: usize = 0;
    while i < items.len()
        invariant
            i <= items.len(),
            string_views(out@) == items@.take(i as int).map_values(|s: &str| s@),
        decreases items.len() - i,
    {
        let ghost before = out@;
        out.push(String::from_str(items[i]));
        proof {
            assert(string_views(out@) =~= string_views(before).push(items@[i as int]@));
            assert(items@.take(i as int + 1) =~= items@.take(i as int).push(items@[i as int]));
        }
        i = i + 1;
    }
    assert(items@.take(items@.len() as int) =~= items@);
    out
}

/// What the runner does for `command`: usage text for `help`, `--help` and
/// `-h`; cargo for `check`, `fmt`, `lint` and `test`; the feature matrix for
/// `feature-matrix`; anything else is unknown.
pub fn task_command(command: &str) -> (r: TaskCommand)
    ensures
        is_help_command(command@) ==> r == TaskCommand::Help,
        cargo_base_args(command@) matches Some(a) ==> (r matches TaskCommand::Cargo(v) && string_views(v@) == a),
        command@ == "feature-matrix"@ ==> r == TaskCommand::FeatureMatrix,
        !is_help_command(command@) && cargo_base_args(command@) is None && command@ != "feature-matrix"@ ==> (r matches TaskCommand::Unknown(s) && s@ == command@),
{
    proof {
        reveal_strlit("help");
        reveal_strlit("--help");
        reveal_strlit("-h");
        reveal_strlit("check");
        reveal_strlit("fmt");
        reveal_strlit("lint");
        reveal_strlit("test");
        reveal_strlit("feature-matrix");
        reveal_strlit("--workspace");
        reveal_strlit("--all");
        reveal_strlit("clippy");
        reveal_strlit("--all-targets");
        reveal_strlit("--all-features");
        reveal_strlit("--");
        reveal_strlit("-D");
        reveal_strlit("warnings");
        assert("help"@.len() == 4 && "--help"@.len() == 6 && "-h"@.len() == 2 && "check"@.len()
            == 5 && "fmt"@.len() == 3 && "lint"@.len() == 4 && "test"@.len() == 4
            && "feature-matrix"@.len() == 14);
        assert("help"@[0] != "lint"@[0] && "help"@[0] != "test"@[0] && "lint"@[0]
            != "test"@[0]);
    }
    let c = String::from_str(command);
    if c == String::from_str("help") || c == String::from_str("--help") || c == String::from_str("-h") {
        TaskCommand::Help
    } else if c == String::from_str("check") {
        TaskCommand::Cargo(strings_of(&["check", "--workspace"]))
    } else if c == String::from_str("fmt") {
        TaskCommand::Cargo(strings_of(&["fmt", "--all"]))
    } else if c == String::from_str("lint") {
        TaskCommand::Cargo(strings_of(&["clippy", "--workspace", "--all-targets", "--all-features", "--", "-D", "warnings"]))
    } else if c == String::from_str("test") {
        TaskCommand::Cargo(strings_of(&["test", "--workspace"]))
    } else if c == String::from_str("feature-matrix") {
        TaskCommand::FeatureMatrix
    } else {
        TaskCommand::Unknown(c)
    }
}

/// The cargo arguments that check the facade crate with default features
/// off and, where given, one feature on.
pub open spec fn feature_check_args(feature: Option<Seq<char>>) -> Seq<Seq<char>> {
    let base = seq!["check"@, "-p"@, "rustitch"@, "--no-default-features"@];
    match feature {
        Some(f) => base + seq!["--features"@, f],
        None => base,
    }
}

/// The minimal feature sets of the facade crate, each with its label and
/// the cargo arguments that check it, in the order they are checked.
pub open spec fn feature_matrix_spec() -> Seq<(Seq<char>, Seq<Seq<char>>)> {
    seq![
        ("base"@, feature_check_args(None)),
        ("auth"@, feature_check_args(Some("auth"@))),
        ("helix"@, feature_check_args(Some("helix"@))),
        ("eventsub"@, feature_check_args(Some("eventsub"@))),
        ("eventsub-manage"@, feature_check_args(Some("eventsub-manage"@))),
        ("eventsub-webhook"@, feature_check_args(Some("eventsub-webhook"@))),
        ("chat"@, feature_check_args(Some("chat"@))),
        ("chat-irc"@, feature_check_args(Some("chat-irc"@))),
    ]
}

/// The view of one feature-matrix row.
pub open spec fn feature_row_view(row: (String, Vec<String>)) -> (Seq<char>, Seq<Seq<char>>) {
    (row.0@, string_views(row.1@))
}

fn feature_row(label: &str, with_feature: bool) -> (r: (String, Vec<String>))
    ensures
        feature_row_view(r) == (label@, feature_check_args(
            if with_feature {
                Some(label@)
            } else {
                None
            },
        )),
{
    let mut args: Vec<String> = Vec::new();
    args.push(String::from_str("check"));
    args.push(String::from_str("-p"));
    args.push(String::from_str("rustitch"));
    args.push(String::from_str("--no-default-features"));
    if with_feature {
        args.push(String::from_str("--features"));
        args.push(String::from_str(label));
    }
    let r = (String::from_str(label), args);
    assert(string_views(r.1@) =~= feature_check_args(
        if with_feature {
            Some(label@)
        } else {
            None
        },
    ));
    r
}

/// The feature sets the runner's `feature-matrix` command checks, in
/// order: the facade crate with default features off, then with each of
/// `auth`, `helix`, `eventsub`, `eventsub-manage`, `eventsub-webhook`,
/// `chat` and `chat-irc` on alone.
pub fn feature_matrix() -> (r: Vec<(String, Vec<String>)>)
    ensures
        r@.map_values(|row: (String, Vec<String>)| feature_row_view(row)) == feature_matrix_spec(),
{
    let mut rows: Vec<(String, Vec<String>)> = Vec::new();
    rows.push(feature_row("base", false));
    rows.push(feature_row("auth", true));
    rows.push(feature_row("helix", true));
    rows.push(feature_row("eventsub", true));
    rows.push(feature_row("eventsub-manage", true));
    rows.push(feature_row("eventsub-webhook", true));
    rows.push(feature_row("chat", true));
    rows.push(feature_row("chat-irc", true));
    assert(rows@.map_values(|row: (String, Vec<String>)| feature_row_view(row))
        =~= feature_matrix_spec());
    rows
}

/// The runner's commands and what each runs: `help`, `--help` and `-h`
/// print the usage text; `check`, `fmt`, `lint` and `test` run cargo with
/// exactly these arguments; `feature-matrix` checks the feature sets; no
/// other command is known.
pub proof fn lemma_task_commands(command: Seq<char>)
    ensures
        (command == "help"@ || command == "--help"@ || command == "-h"@) ==> is_help_command(
            command,
        ) && cargo_base_args(command) is None,
        command == "check"@ ==> !is_help_command(command) && cargo_base_args(command) == Some(
            seq!["check"@, "--workspace"@],
        ),
        command == "fmt"@ ==> !is_help_command(command) && cargo_base_args(command) == Some(
            seq!["fmt"@, "--all"@],
        ),
        command == "lint"@ ==> !is_help_command(command) && cargo_base_args(command) == Some(
            seq![
                "clippy"@,
                "--workspace"@,
                "--all-targets"@,
                "--all-features"@,
                "--"@,
                "-D"@,
                "warnings"@,
            ],
        ),
        command == "test"@ ==> !is_help_command(command) && cargo_base_args(command) == Some(
            seq!["test"@, "--workspace"@],
        ),
        command == "feature-matrix"@ ==> !is_help_command(command) && cargo_base_args(command)
            is None,
        !(command == "help"@ || command == "--help"@ || command == "-h"@ || command == "check"@
            || command == "fmt"@ || command == "lint"@ || command == "test"@ || command
            == "feature-matrix"@) ==> !is_help_command(command) && cargo_base_args(command) is None,
{
    reveal_strlit("help");
    reveal_strlit("--help");
    reveal_strlit("-h");
    reveal_strlit("check");
    reveal_strlit("fmt");
    reveal_strlit("lint");
    reveal_strlit("test");
    reveal_strlit("feature-matrix");
    assert("help"@.len() == 4 && "--help"@.len() == 6 && "-h"@.len() == 2 && "check"@.len() == 5
        && "fmt"@.len() == 3 && "lint"@.len() == 4 && "test"@.len() == 4
        && "feature-matrix"@.len() == 14);
    assert("help"@[0] != "lint"@[0] && "help"@[0] != "test"@[0] && "lint"@[0] != "test"@[0]);
}

/// The feature matrix checks the facade crate first with default features
/// off and then, row by row, with exactly one feature on: the one the row
/// is labelled with.
pub proof fn lemma_feature_matrix_rows()
    ensures
        feature_matrix_spec().len() == 8,
        feature_matrix_spec()[0] == (
            "base"@,
            seq!["check"@, "-p"@, "rustitch"@, "--no-default-features"@],
        ),
        forall|i: int|
            1 <= i < 8 ==> (#[trigger] feature_matrix_spec()[i]).1 == seq![
                "check"@,
                "-p"@,
                "rustitch"@,
                "--no-default-features"@,
                "--features"@,
                feature_matrix_spec()[i].0,
            ],
        feature_matrix_spec().map_values(|row: (Seq<char>, Seq<Seq<char>>)| row.0) == seq![
            "base"@,
            "auth"@,
            "helix"@,
            "eventsub"@,
            "eventsub-manage"@,
            "eventsub-webhook"@,
            "chat"@,
            "chat-irc"@,
        ],
{
    let m = feature_matrix_spec();
    let base = seq!["check"@, "-p"@, "rustitch"@, "--no-default-features"@];
    assert forall|i: int| 1 <= i < 8 implies (#[trigger] m[i]).1 == seq![
        "check"@,
        "-p"@,
        "rustitch"@,
        "--no-default-features"@,
        "--features"@,
        m[i].0,
    ] by {
        assert(base + seq!["--features"@, m[i].0] =~= seq![
            "check"@,
            "-p"@,
            "rustitch"@,
            "--no-default-features"@,
            "--features"@,
            m[i].0,
        ]);
    }
    assert(m.map_values(|row: (Seq<char>, Seq<Seq<char>>)| row.0) =~= seq![
        "base"@,
        "auth"@,
        "helix"@,
        "eventsub"@,
        "eventsub-manage"@,
        "eventsub-webhook"@,
        "chat"@,
        "chat-irc"@,
    ]);
}

} // verus!
