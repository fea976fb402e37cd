//! The text-styling boundary: trusted wrappers over the terminal styling
//! crate, and the predicate their results are stated with.

use console::Style;
use vstd::prelude::*;

verus! {

/// Holds when `styled` is the unchanged `content` with (possibly empty)
/// decoration around it. Whether a terminal style emits escape codes or
/// nothing depends on the environment the process runs in, so this is all
/// that is promised of a decorated span.
pub open spec fn decorates(styled: Seq<char>, content: Seq<char>) -> bool {
    exists|prefix: Seq<char>, suffix: Seq<char>| styled == prefix + content + suffix
}

/// Every string trivially decorates itself (with empty surroundings).
pub proof fn lemma_decorates_refl(s: Seq<char>)
    ensures
        decorates(s, s),
{
    assert(Seq::<char>::empty() + s + Seq::<char>::empty() =~= s);
}

/// Relies on console::Style::apply_to and console::StyledObject's Display
/// impl: a freshly built style sets no color and no attribute, so formatting
/// the styled object writes the content alone, whatever the environment.
#[verifier::external_body]
pub(crate) fn style_normal(text: &str) -> (r: String)
    ensures
        r@ == text@,
{
    format!("{}", Style::new().apply_to(text))
}

/// Relies on console::Style::apply_to with a blue-background style:
/// console::StyledObject's Display impl writes escape codes, the content,
/// and a reset code when styling is enabled, and the content alone when not.
#[verifier::external_body]
pub(crate) fn style_selected(text: &str) -> (r: String)
    ensures
        decorates(r@, text@),
{
    format!("{}", Style::new().on_blue().apply_to(text))
}

/// Relies on console::Style::apply_to with a 256-color foreground style:
/// console::StyledObject's Display impl writes escape codes, the content,
/// and a reset code when styling is enabled, and the content alone when not.
#[verifier::external_body]
pub(crate) fn style_hint(text: &str) -> (r: String)
    ensures
        decorates(r@, text@),
{
    format!("{}", Style::new().color256(187).apply_to(text))
}

/// Relies on console::Style::apply_to with a bold style:
/// console::StyledObject's Display impl writes escape codes, the content,
/// and a reset code when styling is enabled, and the content alone when not.
#[verifier::external_body]
pub(crate) fn style_title(text: &str) -> (r: String)
    ensures
        decorates(r@, text@),
{
    format!("{}", Style::new().bold().apply_to(text))
}

} // verus!
