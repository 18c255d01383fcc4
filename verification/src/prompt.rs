//! Prompt templates, rendered by `tera`.

use crate::template::{is_literal, is_literal_text, is_supported, lemma_literal_is_supported, supported};
use crate::text::chars_of;
use vstd::prelude::*;

verus! {

/// `tera::Context`: the variables that a template is rendered with. Nothing of
/// its inside is seen here; `context_bindings` stands for what it holds.
#[verifier::external_type_specification]
#[verifier::external_body]
pub struct ExContext(tera::Context);

/// `tera::Error`: why a template could not be parsed or rendered. It is only
/// turned into a `PromptError`.
#[verifier::external_type_specification]
#[verifier::external_body]
pub struct ExError(tera::Error);

/// The variables that a `tera::Context` binds, each with its value.
pub uninterp spec fn context_bindings(context: tera::Context) -> Map<Seq<char>, Seq<char>>;

/// The text that `tera` renders from `template` under `bindings`, where it
/// renders one. It is asked only of supported templates: a rendering of one of
/// those that succeeds has looked names up in the bindings and at nothing else.
/// Whether a rendering succeeds is not a matter of template and bindings alone,
/// and the name says nothing of it.
pub uninterp spec fn rendering(template: Seq<char>, bindings: Map<Seq<char>, Seq<char>>) -> Seq<char>;

/// The bindings that a list of name and value pairs stands for. Where a name
/// occurs twice, the later pair counts.
pub open spec fn bindings(pairs: Seq<(Seq<char>, Seq<char>)>) -> Map<Seq<char>, Seq<char>>
    decreases pairs.len(),
{
    if pairs.len() == 0 {
        Map::empty()
    } else {
        bindings(pairs.drop_last()).insert(pairs.last().0, pairs.last().1)
    }
}

/// The text of each name and each value of `pairs`.
pub open spec fn pair_views(pairs: Seq<(&str, &str)>) -> Seq<(Seq<char>, Seq<char>)> {
    pairs.map_values(|pair: (&str, &str)| (pair.0@, pair.1@))
}

/// The outcome of a rendering: the text, or nothing where it failed.
pub open spec fn outcome_of<E>(rendered: Result<String, E>) -> Option<Seq<char>> {
    match rendered {
        Ok(text) => Some(text@),
        Err(_) => None,
    }
}

/// `outcome` is something that formatting `template` under `bindings` can come
/// to: `Some` of the text, or `None` for a failure. Literal text always comes out
/// as it is. A template that is not supported always fails, without being
/// rendered. Any other template gives what the renderer makes of it, or fails:
/// the renderer may give up for want of stack or of its parser's call budget,
/// whatever the template.
pub open spec fn formats_to(
    template: Seq<char>,
    bindings: Map<Seq<char>, Seq<char>>,
    outcome: Option<Seq<char>>,
) -> bool {
    if is_literal(template) {
        outcome == Some(template)
    } else if supported(template) {
        outcome matches Some(text) ==> text == rendering(template, bindings)
    } else {
        outcome is None
    }
}

/// Why a template gave no text.
#[derive(Clone, Debug)]
pub enum PromptError {
    /// The template holds a tag that is not supported; it was not rendered.
    Unsupported,
    /// The renderer could not parse or render the template.
    Failed { message: String },
}

impl PromptError {
    /// The error in words.
    pub fn describe(self) -> (message: String)
        ensures
            self matches PromptError::Failed { message: said } ==> message == said,
    {
        match self {
            PromptError::Unsupported => "the template holds a tag that is not supported".to_string(),
            PromptError::Failed { message } => message,
        }
    }
}

/// `tera::Context::new`: a context that binds no variable.
#[verifier::external_body]
fn empty_context() -> (context: tera::Context)
    ensures
        context_bindings(context) == bindings(Seq::empty()),
{
    tera::Context::new()
}

/// `tera::Context::insert` with a string value: binds `name` to `value`, in place
/// of an earlier binding of `name`, and leaves the other bindings as they are.
#[verifier::external_body]
fn bind(context: &mut tera::Context, name: &str, value: &str)
    ensures
        context_bindings(*final(context)) == context_bindings(*old(context)).insert(name@, value@),
{
    context.insert(name, value);
}

/// `tera::Tera::one_off` without escaping: parses `template` and renders it under
/// `context`. Only supported templates are handed over: on them the renderer
/// looks up names and tests them for truth, and does no arithmetic, runs no
/// filter and calls no function, so a text that comes out depends on the
/// template and the bindings alone, and is known by the name `rendering`. Of a
/// failure nothing is claimed: the parser also fails where the stack or its
/// call budget runs short.
#[verifier::external_body]
fn render_one_off(template: &str, context: &tera::Context) -> (rendered: Result<
    String,
    tera::Error,
>)
    requires
        supported(template@),
    ensures
        rendered matches Ok(text) ==> text@ == rendering(template@, context_bindings(*context)),
{
    tera::Tera::one_off(template, context, false)
}

/// The `Debug` form of a `tera::Error`, which names the error and its causes.
#[verifier::external_body]
fn error_text(error: &tera::Error) -> (text: String) {
    format!("{:?}", error)
}

/// Formats `prompt` with the variables of `map`, each name bound to its value.
/// Literal text is given back as it is, without the renderer. A template that
/// is not supported is refused with `PromptError::Unsupported`. Any other
/// template is rendered, and a failure of the renderer is `PromptError::Failed`.
pub fn format_prompt(prompt: &str, map: &[(&str, &str)]) -> (rendered: Result<String, PromptError>)
    ensures
        formats_to(prompt@, bindings(pair_views(map@)), outcome_of(rendered)),
        !supported(prompt@) ==> rendered matches Err(PromptError::Unsupported),
        supported(prompt@) ==> !(rendered matches Err(PromptError::Unsupported)),
{
    proof {
        if is_literal(prompt@) {
            lemma_literal_is_supported(prompt@, 0, 0);
        }
    }
    let template = chars_of(prompt);
    if is_literal_text(&template) {
        return Ok(prompt.to_string());
    }
    if !is_supported(&template) {
        return Err(PromptError::Unsupported);
    }
    let mut context = empty_context();
    let mut i: usize = 0;
    let ghost pairs = pair_views(map@);
    assert(pairs.take(0) =~= Seq::<(Seq<char>, Seq<char>)>::empty());
    while i < map.len()
        invariant
            i <= map.len(),
            pairs == pair_views(map@),
            context_bindings(context) == bindings(pairs.take(i as int)),
        decreases map.len() - i,
    {
        bind(&mut context, map[i].0, map[i].1);
        assert(pairs.take(i as int + 1).drop_last() =~= pairs.take(i as int));
        i += 1;
    }
    assert(pairs.take(map.len() as int) =~= pairs);
    match render_one_off(prompt, &context) {
        Ok(text) => Ok(text),
        Err(error) => Err(PromptError::Failed { message: error_text(&error) }),
    }
}

} // verus!
