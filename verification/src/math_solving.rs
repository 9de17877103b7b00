//! The math-solving plugin: it spots messages that may be calculations and
//! prepares them for evaluation. The evaluation itself works on floating
//! point numbers and is done by the caller.

use crate::event::Event;
use crate::plugin::Plugin;
use crate::text::chars_of;
use crate::trusted::{is_match, push_char, regex_matches};
use vstd::prelude::*;
use vstd::string::StringExecFns;

verus! {

/// The pattern of the characters that a calculation is made of.
pub open spec fn equation_pattern() -> Seq<char> {
    "([\\dekmbh\\(\\)]*)"@
}

/// The plugin that computes what users calculate in chat.
#[derive(Debug, Clone)]
pub struct MathSolving {
    /// The regular expression that a calculation has to match.
    pub equation_expr: String,
}

impl Plugin for MathSolving {
    open spec fn spec_name(&self) -> Seq<char> {
        "math_solving"@
    }

    fn name(&self) -> (name: &'static str) {
        "math_solving"
    }

    fn description(&self) -> (text: &'static str) {
        "Computes math equations sent in chat without prefixes"
    }

    open spec fn spec_description(&self) -> Seq<char> {
        "Computes math equations sent in chat without prefixes"@
    }
}

impl Default for MathSolving {
    fn default() -> (plugin: Self)
        ensures
            plugin.equation_expr@ == equation_pattern(),
    {
        MathSolving { equation_expr: String::from_str("([\\dekmbh\\(\\)]*)") }
    }
}

/// What a character of a message becomes in the expression that is
/// evaluated: the letters `k`, `m`, `b` and `t` stand for a thousand, ten
/// thousand, a hundred thousand and a million; every other character
/// stands for itself.
pub open spec fn expanded_char(c: char) -> Seq<char> {
    if c == 'k' {
        "* (10^3)"@
    } else if c == 'm' {
        "* (10^4)"@
    } else if c == 'b' {
        "* (10^5)"@
    } else if c == 't' {
        "* (10^6)"@
    } else {
        seq![c]
    }
}

/// The expression that is evaluated for a message: the message with each
/// character expanded.
pub open spec fn expanded(content: Seq<char>) -> Seq<char>
    decreases content.len(),
{
    if content.len() == 0 {
        Seq::empty()
    } else {
        expanded(content.drop_last()) + expanded_char(content.last())
    }
}

/// Writes [`expanded`].
pub fn expand(content: &str) -> (expression: String)
    ensures
        expression@ == expanded(content@),
{
    let chars = chars_of(content);
    let mut out = String::new();
    let mut i: usize = 0;
    assert(chars@.take(0) =~= Seq::empty());
    while i < chars.len()
        invariant
            i <= chars@.len(),
            out@ == expanded(chars@.take(i as int)),
        decreases chars@.len() - i,
    {
        assert(chars@.take(i as int + 1).drop_last() =~= chars@.take(i as int));
        let c = chars[i];
        if c == 'k' {
            out.append("* (10^3)");
        } else if c == 'm' {
            out.append("* (10^4)");
        } else if c == 'b' {
            out.append("* (10^5)");
        } else if c == 't' {
            out.append("* (10^6)");
        } else {
            push_char(&mut out, c);
            assert(out@ =~= expanded(chars@.take(i as int)) + seq![c]);
        }
        i += 1;
    }
    assert(chars@.take(i as int) =~= chars@);
    out
}

/// What the plugin asks its caller to do for an event.
#[derive(Debug, PartialEq, Eq)]
pub enum MathStep {
    /// Nothing.
    Nothing,
    /// Evaluate `expression`. Where it has a finite value, mark the message
    /// with a plus sign and, if that worked, keep the value under the
    /// message.
    Evaluate { channel: u64, message: u64, expression: String },
    /// If a value is kept under `message`, take it out and post it in
    /// `channel` as an answer to that message.
    Reveal { channel: u64, message: u64 },
}

/// A [`MathStep`] as specifications see it.
pub enum MathStepView {
    Nothing,
    Evaluate { channel: u64, message: u64, expression: Seq<char> },
    Reveal { channel: u64, message: u64 },
}

impl DeepView for MathStep {
    type V = MathStepView;

    open spec fn deep_view(&self) -> MathStepView {
        match *self {
            MathStep::Nothing => MathStepView::Nothing,
            MathStep::Evaluate { channel, message, expression } => MathStepView::Evaluate {
                channel,
                message,
                expression: expression@,
            },
            MathStep::Reveal { channel, message } => MathStepView::Reveal { channel, message },
        }
    }
}

impl MathSolving {
    /// What [`MathSolving::on_event`] answers, given whether the pattern
    /// matches: a message of a user who is no bot that is not empty and
    /// matches is evaluated; a reaction of anyone who is not known to be a
    /// bot reveals the value kept under the message.
    pub open spec fn step_for(&self, event: Event) -> MathStepView {
        match event {
            Event::MessageCreate(message) => {
                if message.author.bot || message.content@.len() == 0 || regex_matches(
                    self.equation_expr@,
                    message.content@,
                ) != Some(true) {
                    MathStepView::Nothing
                } else {
                    MathStepView::Evaluate {
                        channel: message.channel_id,
                        message: message.id,
                        expression: expanded(message.content@),
                    }
                }
            },
            Event::ReactionAdd(reaction) => {
                if reaction.member_bot == Some(true) {
                    MathStepView::Nothing
                } else {
                    MathStepView::Reveal {
                        channel: reaction.channel_id,
                        message: reaction.message_id,
                    }
                }
            },
            _ => MathStepView::Nothing,
        }
    }

    /// The reactive path: what `event` calls for.
    pub fn on_event(&self, event: &Event) -> (step: MathStep)
        ensures
            step.deep_view() == self.step_for(*event),
    {
        match event {
            Event::MessageCreate(message) => {
                if message.author.bot || message.content.as_str().is_empty() {
                    return MathStep::Nothing;
                }
                match is_match(self.equation_expr.as_str(), message.content.as_str()) {
                    Some(true) => MathStep::Evaluate {
                        channel: message.channel_id,
                        message: message.id,
                        expression: expand(message.content.as_str()),
                    },
                    _ => MathStep::Nothing,
                }
            },
            Event::ReactionAdd(reaction) => {
                match reaction.member_bot {
                    Some(true) => MathStep::Nothing,
                    _ => MathStep::Reveal {
                        channel: reaction.channel_id,
                        message: reaction.message_id,
                    },
                }
            },
            _ => MathStep::Nothing,
        }
    }

    /// The periodic path: the plugin keeps nothing that needs syncing.
    pub fn sync_db(&self) -> (steps: Vec<MathStep>)
        ensures
            steps@.len() == 0,
    {
        Vec::new()
    }
}

} // verus!
