//! What the command line prints for an assertion's status, how it reads the
//! answer to the upgrade prompt, and the order in which `satisfy` prints,
//! installs, prompts and upgrades.
use vstd::prelude::*;

use crate::status::{ConflictView, Status, StatusView};
use crate::text::{all_ascii, ascii_lower, ascii_lowered, lowered, owned, str_eq, to_lowercase, trimmed, views};

verus! {

/// The lines printed for an assertion shown as `shown` with status `s`.
pub open spec fn rendered(s: StatusView, shown: Seq<char>) -> Seq<Seq<char>> {
    match s {
        StatusView::Okay => seq!["ok: "@ + shown],
        StatusView::Missing => seq!["missing: "@ + shown],
        StatusView::ConflictUpgrade(c) => seq![
            "conflict (upgradable): "@ + shown,
            "  expected: "@ + c.expected,
            "    actual: "@ + c.actual,
        ],
    }
}

/// Renders an assertion's status as the lines the command line prints;
/// `assertion` is how the assertion is shown.
pub fn render(status: &Status, assertion: &str) -> (r: Vec<String>)
    ensures
        views(r@) == rendered(status@, assertion@),
{
    match status {
        Status::Okay => {
            let r = vec![owned("ok: ").concat(assertion)];
            assert(views(r@) =~= rendered(status@, assertion@));
            r
        },
        Status::Missing => {
            let r = vec![owned("missing: ").concat(assertion)];
            assert(views(r@) =~= rendered(status@, assertion@));
            r
        },
        Status::ConflictUpgrade(c) => {
            let r = vec![
                owned("conflict (upgradable): ").concat(assertion),
                owned("  expected: ").concat(c.expected.as_str()),
                owned("    actual: ").concat(c.actual.as_str()),
            ];
            assert(views(r@) =~= rendered(status@, assertion@));
            r
        },
    }
}

/// Whether a trimmed, lower-cased reply is `y` or `yes`.
pub open spec fn is_yes_spec(lowered: Seq<char>) -> bool {
    lowered == "y"@ || lowered == "yes"@
}

/// Whether a reply to the upgrade prompt means yes: `y` or `yes` in any
/// case, with white space around it. Anything else declines.
pub open spec fn means_yes(input: Seq<char>) -> bool {
    is_yes_spec(lowered(trimmed(input)))
}

/// A reply whose trimmed text is ASCII means yes exactly when that text is
/// `y` or `yes` in any mix of cases.
pub proof fn law_yes_in_any_case(input: Seq<char>)
    requires
        all_ascii(trimmed(input)),
    ensures
        means_yes(input) <==> {
            let t = trimmed(input);
            ||| t.len() == 1 && ascii_lower(t[0]) == 'y'
            ||| t.len() == 3 && ascii_lower(t[0]) == 'y' && ascii_lower(t[1]) == 'e'
                && ascii_lower(t[2]) == 's'
        },
{
    reveal_strlit("y");
    reveal_strlit("yes");
    let t = trimmed(input);
    let l = ascii_lowered(t);
    assert(l.len() == t.len());
    if t.len() == 1 && ascii_lower(t[0]) == 'y' {
        assert(l =~= "y"@);
    }
    if t.len() == 3 && ascii_lower(t[0]) == 'y' && ascii_lower(t[1]) == 'e' && ascii_lower(t[2])
        == 's' {
        assert(l =~= "yes"@);
    }
    if l == "y"@ {
        assert(l[0] == 'y');
    }
    if l == "yes"@ {
        assert(l[0] == 'y' && l[1] == 'e' && l[2] == 's');
    }
}

/// Whether a reply that was already trimmed and lower-cased is `y` or `yes`.
pub fn is_yes(lowered: &str) -> (r: bool)
    ensures
        r == is_yes_spec(lowered@),
{
    str_eq(lowered, "y") || str_eq(lowered, "yes")
}

/// Whether a reply to the upgrade prompt means yes. Anything else declines,
/// so an unrecognised answer never upgrades.
pub fn wants_upgrade(input: &str) -> (r: bool)
    ensures
        r == means_yes(input@),
{
    let answer = to_lowercase(crate::text::trim(input));
    is_yes(answer.as_str())
}

/// What the command line does next while satisfying an assertion.
#[derive(Debug)]
pub enum CliRequest {
    /// Prints these lines.
    Print(Vec<String>),
    /// Installs the assertion.
    Install,
    /// Upgrades the assertion.
    Upgrade,
    /// Prints the question and reads a line of input.
    Prompt(String),
}

/// The mathematical form of a [`CliRequest`].
pub enum CliRequestView {
    Print(Seq<Seq<char>>),
    Install,
    Upgrade,
    Prompt(Seq<char>),
}

impl View for CliRequest {
    type V = CliRequestView;

    open spec fn view(&self) -> CliRequestView {
        match self {
            CliRequest::Print(lines) => CliRequestView::Print(views(lines@)),
            CliRequest::Install => CliRequestView::Install,
            CliRequest::Upgrade => CliRequestView::Upgrade,
            CliRequest::Prompt(q) => CliRequestView::Prompt(q@),
        }
    }
}

/// The command line's answer to a [`CliRequest`]: done, or the line read.
#[derive(Debug)]
pub enum CliAnswer {
    Done,
    Reply(String),
}

/// The mathematical form of a [`CliAnswer`].
pub enum CliAnswerView {
    Done,
    Reply(Seq<char>),
}

impl View for CliAnswer {
    type V = CliAnswerView;

    open spec fn view(&self) -> CliAnswerView {
        match self {
            CliAnswer::Done => CliAnswerView::Done,
            CliAnswer::Reply(r) => CliAnswerView::Reply(r@),
        }
    }
}

pub open spec fn cli_answer_views(a: Seq<CliAnswer>) -> Seq<CliAnswerView> {
    a.map_values(|x: CliAnswer| x@)
}

/// What the command line does next, or that it is done.
#[derive(Debug)]
pub enum CliStep {
    Do(CliRequest),
    Finished,
    /// A case that is not implemented yet, described by the message.
    Unimplemented(String),
    /// An answer that does not fit the request it answers.
    Unexpected,
}

/// The mathematical form of a [`CliStep`].
pub enum CliStepView {
    Do(CliRequestView),
    Finished,
    Unimplemented(Seq<char>),
    Unexpected,
}

impl View for CliStep {
    type V = CliStepView;

    open spec fn view(&self) -> CliStepView {
        match self {
            CliStep::Do(r) => CliStepView::Do(r@),
            CliStep::Finished => CliStepView::Finished,
            CliStep::Unimplemented(m) => CliStepView::Unimplemented(m@),
            CliStep::Unexpected => CliStepView::Unexpected,
        }
    }
}

pub open spec fn upgrade_question() -> Seq<char> {
    "Upgrade? [y/N]: "@
}

/// The order of work in `satisfy`: print the status; for a missing
/// assertion install it and print it as ok; for a conflict ask whether to
/// upgrade, then upgrade and print it as ok, or print it as skipped.
pub open spec fn satisfy_plan(s: StatusView, shown: Seq<char>, a: Seq<CliAnswerView>) -> CliStepView {
    if a.len() == 0 {
        CliStepView::Do(CliRequestView::Print(rendered(s, shown)))
    } else {
        match s {
            StatusView::Okay => CliStepView::Finished,
            StatusView::Missing => if a.len() == 1 {
                CliStepView::Do(CliRequestView::Install)
            } else if a.len() == 2 {
                CliStepView::Do(CliRequestView::Print(seq!["ok: "@ + shown]))
            } else {
                CliStepView::Finished
            },
            StatusView::ConflictUpgrade(_) => if a.len() == 1 {
                CliStepView::Do(CliRequestView::Prompt(upgrade_question()))
            } else {
                match a[1] {
                    CliAnswerView::Reply(reply) => if means_yes(reply) {
                        if a.len() == 2 {
                            CliStepView::Do(CliRequestView::Upgrade)
                        } else if a.len() == 3 {
                            CliStepView::Do(CliRequestView::Print(seq!["ok: "@ + shown]))
                        } else {
                            CliStepView::Finished
                        }
                    } else if a.len() == 2 {
                        CliStepView::Do(CliRequestView::Print(seq!["skipped: "@ + shown]))
                    } else {
                        CliStepView::Finished
                    },
                    _ => CliStepView::Unexpected,
                }
            },
        }
    }
}

fn one_line(prefix: &str, shown: &str) -> (r: Vec<String>)
    ensures
        views(r@) == seq![prefix@ + shown@],
{
    let r = vec![owned(prefix).concat(shown)];
    assert(views(r@) =~= seq![prefix@ + shown@]);
    r
}

/// The next thing `satisfy` does for an assertion shown as `assertion` with
/// status `status`, given the answers so far.
pub fn satisfy_step(status: &Status, assertion: &str, answers: &Vec<CliAnswer>) -> (r: CliStep)
    ensures
        r@ == satisfy_plan(status@, assertion@, cli_answer_views(answers@)),
{
    let n = answers.len();
    if n == 0 {
        return CliStep::Do(CliRequest::Print(render(status, assertion)));
    }
    match status {
        Status::Okay => CliStep::Finished,
        Status::Missing => {
            if n == 1 {
                CliStep::Do(CliRequest::Install)
            } else if n == 2 {
                CliStep::Do(CliRequest::Print(one_line("ok: ", assertion)))
            } else {
                CliStep::Finished
            }
        },
        Status::ConflictUpgrade(_) => {
            if n == 1 {
                return CliStep::Do(CliRequest::Prompt(owned("Upgrade? [y/N]: ")));
            }
            match &answers[1] {
                CliAnswer::Reply(reply) => {
                    if wants_upgrade(reply.as_str()) {
                        if n == 2 {
                            CliStep::Do(CliRequest::Upgrade)
                        } else if n == 3 {
                            CliStep::Do(CliRequest::Print(one_line("ok: ", assertion)))
                        } else {
                            CliStep::Finished
                        }
                    } else if n == 2 {
                        CliStep::Do(CliRequest::Print(one_line("skipped: ", assertion)))
                    } else {
                        CliStep::Finished
                    }
                },
                _ => CliStep::Unexpected,
            }
        },
    }
}

/// `satisfy` never installs or upgrades an assertion whose status is Ok, and
/// never upgrades one unless the reply to the prompt means yes.
pub proof fn law_satisfy_changes_only_what_it_must(
    s: StatusView,
    shown: Seq<char>,
    a: Seq<CliAnswerView>,
)
    ensures
        s is Okay ==> !(satisfy_plan(s, shown, a) matches CliStepView::Do(CliRequestView::Install))
            && !(satisfy_plan(s, shown, a) matches CliStepView::Do(CliRequestView::Upgrade)),
        satisfy_plan(s, shown, a) matches CliStepView::Do(CliRequestView::Upgrade) ==> (
        s is ConflictUpgrade && a.len() == 2 && (a[1] matches CliAnswerView::Reply(r) && means_yes(
            r,
        ))),
{
}

/// For a conflict, a reply to the prompt that means yes always leads to the
/// upgrade, and then to the assertion printed as ok; any other reply prints
/// it as skipped and never upgrades.
pub proof fn law_yes_upgrades_a_conflict(
    c: ConflictView,
    shown: Seq<char>,
    first: CliAnswerView,
    reply: Seq<char>,
    after: CliAnswerView,
)
    ensures
        satisfy_plan(StatusView::ConflictUpgrade(c), shown, seq![first]) == CliStepView::Do(
            CliRequestView::Prompt(upgrade_question()),
        ),
        means_yes(reply) ==> satisfy_plan(
            StatusView::ConflictUpgrade(c),
            shown,
            seq![first, CliAnswerView::Reply(reply)],
        ) == CliStepView::Do(CliRequestView::Upgrade),
        means_yes(reply) ==> satisfy_plan(
            StatusView::ConflictUpgrade(c),
            shown,
            seq![first, CliAnswerView::Reply(reply), after],
        ) == CliStepView::Do(CliRequestView::Print(seq!["ok: "@ + shown])),
        !means_yes(reply) ==> satisfy_plan(
            StatusView::ConflictUpgrade(c),
            shown,
            seq![first, CliAnswerView::Reply(reply)],
        ) == CliStepView::Do(CliRequestView::Print(seq!["skipped: "@ + shown])),
{
}

/// `satisfy` first prints the status as the status report does; an Ok
/// assertion is then done; a missing one is installed, then printed as ok.
pub proof fn law_satisfy_installs_what_is_missing(
    s: StatusView,
    shown: Seq<char>,
    first: CliAnswerView,
    second: CliAnswerView,
)
    ensures
        satisfy_plan(s, shown, seq![]) == CliStepView::Do(CliRequestView::Print(rendered(s, shown))),
        satisfy_plan(StatusView::Okay, shown, seq![first]) == CliStepView::Finished,
        satisfy_plan(StatusView::Missing, shown, seq![first]) == CliStepView::Do(
            CliRequestView::Install,
        ),
        satisfy_plan(StatusView::Missing, shown, seq![first, second]) == CliStepView::Do(
            CliRequestView::Print(seq!["ok: "@ + shown]),
        ),
        satisfy_plan(s, shown, seq![first]) == CliStepView::Do(CliRequestView::Install) ==> s is Missing,
{
}

} // verus!
