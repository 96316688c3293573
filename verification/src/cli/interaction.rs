//! Asking the user to confirm: how an answer is read and what it leads to.

use vstd::prelude::*;
use crate::style::{bold, bold_text, green, green_text, red, red_text};
use crate::text::owned;

verus! {

/// An answer to a confirmation prompt.
#[derive(Debug, Clone, Copy, PartialEq, Eq, Structural)]
pub enum PromptChoice {
    Yes,
    No,
    Explain,
}

/// What `str::to_lowercase` gives for a text.
pub uninterp spec fn lowercase(s: Seq<char>) -> Seq<char>;

/// Calls `str::to_lowercase`; its result is named by `lowercase`.
#[verifier::external_body]
fn to_lowercase(s: &str) -> (r: String)
    ensures
        r@ == lowercase(s@),
{
    s.to_lowercase()
}

/// The choice that a lowercased answer stands for: `y`/`yes`, `n`/`no`,
/// `e`/`explain`, the default for an empty answer, and `No` for anything else.
pub open spec fn choice_for(lowered: Seq<char>, default: PromptChoice) -> PromptChoice {
    if lowered == "y"@ || lowered == "yes"@ {
        PromptChoice::Yes
    } else if lowered == "n"@ || lowered == "no"@ {
        PromptChoice::No
    } else if lowered == "e"@ || lowered == "explain"@ {
        PromptChoice::Explain
    } else if lowered.len() == 0 {
        default
    } else {
        PromptChoice::No
    }
}

/// The choice that an already lowercased answer stands for.
pub fn choice_from_lowered(lowered: &str, default: PromptChoice) -> (r: PromptChoice)
    ensures
        r == choice_for(lowered@, default),
{
    let a = owned(lowered);
    if a == owned("y") || a == owned("yes") {
        PromptChoice::Yes
    } else if a == owned("n") || a == owned("no") {
        PromptChoice::No
    } else if a == owned("e") || a == owned("explain") {
        PromptChoice::Explain
    } else if a.unicode_len() == 0 {
        default
    } else {
        PromptChoice::No
    }
}

/// The choice that a typed answer stands for, compared without case.
pub fn read_choice(answer: &str, default: PromptChoice) -> (r: PromptChoice)
    ensures
        r == choice_for(lowercase(answer@), default),
{
    let lowered = to_lowercase(answer);
    choice_from_lowered(lowered.as_str(), default)
}

/// The parts of a confirmation prompt: the question, then `Proceed?` and
/// the labels of the answers; the label of the default answer is capitalised,
/// and `explain` is offered only while nothing is being explained.
pub struct ConfirmPrompt {
    pub question: String,
    pub yes_label: String,
    pub no_label: String,
    pub explain_label: Option<String>,
}

pub open spec fn yes_label(default: PromptChoice) -> Seq<char> {
    if default == PromptChoice::Yes { "[Y]es"@ } else { "[y]es"@ }
}

pub open spec fn no_label(default: PromptChoice) -> Seq<char> {
    if default == PromptChoice::No { "[N]o"@ } else { "[n]o"@ }
}

pub open spec fn explain_label(default: PromptChoice) -> Seq<char> {
    if default == PromptChoice::Explain { "[E]xplain"@ } else { "[e]xplain"@ }
}

/// Builds the prompt for a question.
pub fn confirm_prompt(question: &str, default: PromptChoice, currently_explaining: bool) -> (r: ConfirmPrompt)
    ensures
        r.question@ == question@,
        r.yes_label@ == yes_label(default),
        r.no_label@ == no_label(default),
        currently_explaining ==> r.explain_label is None,
        !currently_explaining ==> (r.explain_label matches Some(l) && l@ == explain_label(default)),
{
    let yes = if default == PromptChoice::Yes { owned("[Y]es") } else { owned("[y]es") };
    let no = if default == PromptChoice::No { owned("[N]o") } else { owned("[n]o") };
    let explain = if currently_explaining {
        None
    } else if default == PromptChoice::Explain {
        Some(owned("[E]xplain"))
    } else {
        Some(owned("[e]xplain"))
    };
    ConfirmPrompt { question: owned(question), yes_label: yes, no_label: no, explain_label: explain }
}

/// The text of a prompt: the question, a blank line, then `Proceed?` in
/// bold and the answers, `yes` in green and `no` in red, then `explain`
/// when offered.
pub open spec fn prompt_text(p: ConfirmPrompt) -> Seq<char> {
    p.question@ + "\n\n"@ + bold_text("Proceed?"@) + " ("@ + green_text(p.yes_label@) + "/"@ + red_text(p.no_label@)
        + match p.explain_label {
        Some(l) => "/"@ + l@,
        None => Seq::empty(),
    } + "): "@
}

impl ConfirmPrompt {
    /// The text shown.
    pub fn text(&self) -> (r: String)
        ensures
            r@ == prompt_text(*self),
    {
        let mut t = self.question.clone();
        t.append("\n\n");
        let b = bold("Proceed?");
        t.append(b.as_str());
        t.append(" (");
        let y = green(self.yes_label.as_str());
        t.append(y.as_str());
        t.append("/");
        let n = red(self.no_label.as_str());
        t.append(n.as_str());
        match &self.explain_label {
            Some(l) => {
                t.append("/");
                t.append(l.as_str());
            },
            None => {},
        }
        t.append("): ");
        proof {
            if self.explain_label is None {
                assert(t@ =~= prompt_text(*self));
            }
        }
        t
    }
}

/// Where a confirmation loop goes after an answer.
#[derive(Debug, Clone, Copy, PartialEq, Eq, Structural)]
pub enum ConfirmStep {
    /// Go on with the operation.
    Proceed,
    /// Ask again, explaining or not.
    AskAgain { explaining: bool },
    /// Stop without doing anything.
    Quit,
}

/// The next step of a confirmation loop: `yes` goes on, `no` quits, and
/// `explain` asks again with the explanation shown.
pub fn next_confirm_step(choice: PromptChoice) -> (r: ConfirmStep)
    ensures
        choice == PromptChoice::Yes ==> r == ConfirmStep::Proceed,
        choice == PromptChoice::No ==> r == ConfirmStep::Quit,
        choice == PromptChoice::Explain ==> r == (ConfirmStep::AskAgain { explaining: true }),
{
    match choice {
        PromptChoice::Yes => ConfirmStep::Proceed,
        PromptChoice::No => ConfirmStep::Quit,
        PromptChoice::Explain => ConfirmStep::AskAgain { explaining: true },
    }
}

} // verus!
