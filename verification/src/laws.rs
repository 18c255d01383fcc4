//! What holds of every run of the summarizer, proved from the contracts of its steps.

use crate::pipeline::{Action, Event, Operation, Part, Progress, SummarizeError};
use crate::prompt::formats_to;
use crate::template::{is_literal, lemma_literal_is_supported, supported};
use crate::settings::{texts, Language};
use crate::summarize::{
    accepted_prefix, assembled, entries, ignored, is_commit_type, kept, option_text, prefix_bindings,
    prefix_of,
    summaries_of, DiffFragment, Entry, SummarizationClient,
};
use crate::text::{
    ascii_lower, is_blank, is_whitespace, lemma_push_contains, lemma_trim_padded, lowercase,
};
use vstd::prelude::*;

verus! {

/// The file names of `fragments`, in order.
pub open spec fn fragment_names(fragments: Seq<DiffFragment>) -> Seq<Seq<char>> {
    fragments.map_values(|fragment: DiffFragment| fragment.file_name@)
}

/// The file names of the summaries `found`, in order.
pub open spec fn entry_names(found: Seq<Entry>) -> Seq<Seq<char>> {
    found.map_values(|entry: Entry| entry.name)
}

/// A file name is among the kept fragments if and only if it is the name of a
/// fragment and is not ignored; and where no two fragments share a name, no
/// two kept fragments do.
pub proof fn lemma_kept_names(fragments: Seq<DiffFragment>, ignore: Seq<Seq<char>>)
    ensures
        forall|name: Seq<char>| #[trigger]
            fragment_names(kept(fragments, ignore)).contains(name) <==> fragment_names(
                fragments,
            ).contains(name) && !ignored(name, ignore),
        fragment_names(fragments).no_duplicates() ==> fragment_names(
            kept(fragments, ignore),
        ).no_duplicates(),
    decreases fragments.len(),
{
    let all = fragment_names(fragments);
    let chosen = fragment_names(kept(fragments, ignore));
    if fragments.len() > 0 {
        let front = fragments.drop_last();
        let last = fragments.last().file_name@;
        let front_all = fragment_names(front);
        let front_chosen = fragment_names(kept(front, ignore));
        lemma_kept_names(front, ignore);
        assert(all =~= front_all.push(last));
        assert forall|name: Seq<char>| #[trigger]
            chosen.contains(name) <==> all.contains(name) && !ignored(name, ignore) by {
            assert(front_chosen.contains(name) <==> front_all.contains(name) && !ignored(name, ignore));
            lemma_push_contains(front_all, last, name);
            if ignored(last, ignore) {
                assert(chosen == front_chosen);
            } else {
                assert(chosen =~= front_chosen.push(last));
                lemma_push_contains(front_chosen, last, name);
            }
        }
        if all.no_duplicates() {
            assert forall|i: int, j: int|
                0 <= i < front_all.len() && 0 <= j < front_all.len() && i != j implies front_all[i]
                != front_all[j] by {
                assert(all[i] == front_all[i]);
                assert(all[j] == front_all[j]);
            }
            if !ignored(last, ignore) {
                assert(chosen =~= front_chosen.push(last));
                assert forall|i: int, j: int|
                    0 <= i < chosen.len() && 0 <= j < chosen.len() && i != j implies chosen[i]
                    != chosen[j] by {
                    if i < front_chosen.len() && j < front_chosen.len() {
                    } else {
                        let k = if i < front_chosen.len() {
                            i
                        } else {
                            j
                        };
                        assert(front_chosen[k] == chosen[k]);
                        assert(front_chosen.contains(front_chosen[k]));
                        assert(front_all.contains(front_chosen[k]));
                        let m = choose|m: int| 0 <= m < front_all.len() && front_all[m] == front_chosen[k];
                        assert(all[m] == front_all[m]);
                        assert(all[m] != all[all.len() - 1]);
                    }
                }
            }
        }
    } else {
        assert(chosen =~= Seq::<Seq<char>>::empty());
        assert(all =~= Seq::<Seq<char>>::empty());
    }
}

/// Once the summaries are in, there is one for each fragment whose file name is
/// not ignored, under that name and in the order of the fragments, and for no
/// other name. Completions that failed change nothing in that, and they do not
/// end the work: only a template that cannot be rendered does.
pub proof fn law_summary_keys(
    client: SummarizationClient,
    fragments: Seq<DiffFragment>,
    message: Seq<char>,
    progress: Progress,
    asked: Action,
    answers: Vec<Option<String>>,
    next: Progress,
    action: Action,
)
    requires
        client.starts(fragments, message, progress, asked),
        client.steps(progress, (Event::Summarized { answers }), next, action),
    ensures
        action is Compose || (action matches Action::Fail { error } && error is Render),
        action is Compose <==> next is Composing,
        next matches Progress::Composing { summaries } ==> {
            let names = entry_names(entries(summaries@));
            let ignore = texts(client.file_ignore@);
            &&& names == fragment_names(kept(fragments, ignore))
            &&& forall|name: Seq<char>| #[trigger]
                names.contains(name) <==> fragment_names(fragments).contains(name) && !ignored(
                    name,
                    ignore,
                )
            &&& fragment_names(fragments).no_duplicates() ==> names.no_duplicates()
        },
{
    let ignore = texts(client.file_ignore@);
    lemma_kept_names(fragments, ignore);
    if let Progress::Composing { summaries } = next {
        let files = progress->files;
        let chosen = kept(fragments, ignore);
        let names = entry_names(entries(summaries@));
        assert(entries(summaries@) == summaries_of(files@, answers@));
        assert forall|i: int| 0 <= i < chosen.len() implies names[i] == fragment_names(chosen)[i] by {
            assert(client.plans(chosen[i], message, files@[i], asked->prompts@[i]));
        }
        assert(names =~= fragment_names(chosen));
    }
}

/// A file whose completion failed gets the empty summary, under its own name,
/// and the work goes on to the composition.
pub proof fn law_failed_summary_is_empty(
    client: SummarizationClient,
    progress: Progress,
    answers: Vec<Option<String>>,
    i: int,
    next: Progress,
    action: Action,
)
    requires
        progress is Summarizing,
        0 <= i < progress->files.len(),
        i < answers.len() ==> answers@[i] is None,
        client.steps(progress, (Event::Summarized { answers }), next, action),
    ensures
        action is Compose || (action matches Action::Fail { error } && error is Render),
        next matches Progress::Composing { summaries } ==> {
            &&& summaries.len() == progress->files.len()
            &&& summaries@[i].file_name@ == progress->files@[i].file_name@
            &&& summaries@[i].summary_text@ == Seq::<char>::empty()
        },
{
    if let Progress::Composing { summaries } = next {
        let found = summaries_of(progress->files@, answers@);
        assert(entries(summaries@) == found);
        assert(entries(summaries@).len() == found.len());
        assert(entries(summaries@)[i] == found[i]);
    }
}

/// When one of the three composing completions fails, the work ends with an
/// error that names the part, and no message comes of it, then or later.
pub proof fn law_composition_failure_is_fatal(
    client: SummarizationClient,
    progress: Progress,
    part: Part,
    reason: String,
    next: Progress,
    action: Action,
    event: Event,
    later: Progress,
    later_action: Action,
)
    requires
        progress is Composing,
        client.steps(progress, (Event::CompositionFailed { part, reason }), next, action),
        client.steps(next, event, later, later_action),
    ensures
        next is Finished,
        action == (Action::Fail {
            error: SummarizeError::Completion { operation: part.operation(), message: reason },
        }),
        later is Finished,
        later_action == (Action::Fail { error: SummarizeError::OutOfTurn }),
{
}

/// Where the settings want no classification, no classification prompt is
/// rendered or asked for: the composition asks for title and body alone.
pub proof fn law_no_classification_is_asked(
    client: SummarizationClient,
    found: Seq<Entry>,
    message: Seq<char>,
    next: Progress,
    action: Action,
)
    requires
        !client.output_conventional_commit,
        client.asks_composition(found, message, next, action),
    ensures
        action matches Action::Compose { classification, .. } ==> classification is None,
        action matches Action::Fail { error } ==> (error matches SummarizeError::Render {
            operation,
            ..
        } && operation != Operation::Classification),
{
}

/// Where the settings want no classification, the message carries no prefix,
/// whatever was handed in as one. In English the assembled message is the final
/// one; in another language the translation is, as it came.
pub proof fn law_unclassified_message_has_no_prefix(
    client: SummarizationClient,
    found: Seq<Entry>,
    title: Seq<char>,
    body: Seq<char>,
    classification: Option<Seq<char>>,
    next: Progress,
    action: Action,
    translated: String,
    later: Progress,
    later_action: Action,
)
    requires
        !client.output_conventional_commit,
        client.continues(found, title, body, classification, next, action),
        client.steps(next, (Event::Translated { message: translated }), later, later_action),
    ensures
        client.output_lang == Language::En ==> (action matches Action::Done { message }
            && message@ == assembled(title, body, found, client.output_show_per_file_summary)),
        next matches Progress::Translating { prefix } ==> prefix@.len() == 0,
        next is Translating ==> (later_action matches Action::Done { message } && message@
            == translated@),
{
}

/// In English nothing is translated: no translation is asked for, and the
/// message that was assembled is the one that goes out behind its prefix.
pub proof fn law_english_is_not_translated(
    client: SummarizationClient,
    found: Seq<Entry>,
    title: Seq<char>,
    body: Seq<char>,
    classification: Option<Seq<char>>,
    next: Progress,
    action: Action,
)
    requires
        client.output_lang == Language::En,
        client.continues(found, title, body, classification, next, action),
    ensures
        !(action is Translate),
        next is Finished,
        action matches Action::Done { message } ==> client.prefixed(
            prefix_of(client.output_conventional_commit, classification),
            assembled(title, body, found, client.output_show_per_file_summary),
            Some(message@),
        ),
{
}

/// The prefix is never translated: what stands before the translation is the
/// rendered format alone, and behind it the translation as it came.
pub proof fn law_prefix_stands_before_translation(
    client: SummarizationClient,
    prefix: String,
    translated: String,
    next: Progress,
    action: Action,
)
    requires
        client.steps(
            (Progress::Translating { prefix }),
            (Event::Translated { message: translated }),
            next,
            action,
        ),
    ensures
        next is Finished,
        action matches Action::Done { message } ==> client.prefixed(
            prefix@,
            translated@,
            Some(message@),
        ),
        action matches Action::Done { message } ==> exists|head: Seq<char>|
            message@ == #[trigger] (head + translated@),
{
    if let Action::Done { message } = action {
        if prefix@.len() == 0 {
            assert(message@ =~= Seq::<char>::empty() + translated@);
        } else {
            let head = choose|head: Seq<char>|
                #[trigger] formats_to(
                    client.output_conventional_commit_prefix_format@,
                    prefix_bindings(prefix@),
                    Some(head),
                ) && message@ == head + translated@;
            assert(message@ == head + translated@);
        }
    }
}

/// Where formatting gives a text, the text is a function of the template and
/// the bindings: two texts from the same template and bindings are the same.
/// Literal text never fails, and a template that is not supported always does.
pub proof fn law_formatting_is_repeatable(
    template: Seq<char>,
    bindings: Map<Seq<char>, Seq<char>>,
    first: Option<Seq<char>>,
    second: Option<Seq<char>>,
)
    requires
        formats_to(template, bindings, first),
        formats_to(template, bindings, second),
    ensures
        first is Some && second is Some ==> first == second,
        is_literal(template) ==> first == Some(template),
        !supported(template) ==> first is None,
{
    if is_literal(template) {
        lemma_literal_is_supported(template, 0, 0);
    }
}

/// Where the composing templates are literal text, they are the prompts, letter
/// for letter, and asking for the composition cannot fail.
pub proof fn law_literal_templates_are_the_prompts(
    client: SummarizationClient,
    found: Seq<Entry>,
    message: Seq<char>,
    next: Progress,
    action: Action,
)
    requires
        is_literal(client.prompt_commit_title@),
        is_literal(client.prompt_commit_summary@),
        client.output_conventional_commit ==> is_literal(client.prompt_conventional_commit_prefix@),
        client.asks_composition(found, message, next, action),
    ensures
        action matches Action::Compose { title, body, classification } && title@
            == client.prompt_commit_title@ && body@ == client.prompt_commit_summary@
            && option_text(classification) == (if client.output_conventional_commit {
            Some(client.prompt_conventional_commit_prefix@)
        } else {
            None
        }),
{
}

/// A literal title template is the title prompt whenever the composition is
/// asked for, and is never what fails; the same holds of the body template.
pub proof fn law_literal_template_does_not_fail(
    client: SummarizationClient,
    found: Seq<Entry>,
    message: Seq<char>,
    next: Progress,
    action: Action,
)
    requires
        client.asks_composition(found, message, next, action),
    ensures
        is_literal(client.prompt_commit_title@) ==> (action matches Action::Compose { title, .. }
            ==> title@ == client.prompt_commit_title@),
        is_literal(client.prompt_commit_title@) ==> (action matches Action::Fail {
            error: SummarizeError::Render { operation, .. },
        } ==> operation != Operation::Title),
        is_literal(client.prompt_commit_summary@) ==> (action matches Action::Compose { body, .. }
            ==> body@ == client.prompt_commit_summary@),
        is_literal(client.prompt_commit_summary@) ==> (action matches Action::Fail {
            error: SummarizeError::Render { operation, .. },
        } ==> operation != Operation::Body),
{
}

/// Outside English, a literal translation template is the translation prompt.
pub proof fn law_literal_translation_template_is_the_prompt(
    client: SummarizationClient,
    found: Seq<Entry>,
    title: Seq<char>,
    body: Seq<char>,
    classification: Option<Seq<char>>,
    next: Progress,
    action: Action,
)
    requires
        client.output_lang != Language::En,
        is_literal(client.prompt_translation@),
        client.continues(found, title, body, classification, next, action),
    ensures
        action matches Action::Translate { prompt } && prompt@ == client.prompt_translation@,
        next matches Progress::Translating { prefix } && prefix@ == prefix_of(
            client.output_conventional_commit,
            classification,
        ),
{
}

/// A prefix format that is not supported ends the work: the message does not go
/// out without its prefix.
pub proof fn law_unsupported_format_gives_no_message(
    client: SummarizationClient,
    prefix: Seq<char>,
    message: Seq<char>,
    next: Progress,
    action: Action,
)
    requires
        !supported(client.output_conventional_commit_prefix_format@),
        prefix.len() > 0,
        client.finishes(prefix, message, next, action),
    ensures
        next is Finished,
        action matches Action::Fail { error: SummarizeError::Render { operation, .. } } && operation
            == Operation::PrefixFormat,
{
    let format = client.output_conventional_commit_prefix_format@;
    if is_literal(format) {
        lemma_literal_is_supported(format, 0, 0);
    }
}

/// A format without tags stands before the message letter for letter, so the
/// empty format, which is the default, adds nothing.
pub proof fn law_literal_format_is_prepended_as_is(
    client: SummarizationClient,
    prefix: Seq<char>,
    message: Seq<char>,
    next: Progress,
    action: Action,
)
    requires
        is_literal(client.output_conventional_commit_prefix_format@),
        prefix.len() > 0,
        client.finishes(prefix, message, next, action),
    ensures
        action matches Action::Done { message: full } && full@
            == client.output_conventional_commit_prefix_format@ + message,
        client.output_conventional_commit_prefix_format@.len() == 0 ==> (action matches Action::Done {
            message: full,
        } && full@ == message),
{
    let format = client.output_conventional_commit_prefix_format@;
    if format.len() == 0 {
        assert(format + message =~= message);
    }
}

/// Once the work is finished, nothing follows: whatever event comes, no message
/// is made of it.
pub proof fn law_finished_stays_finished(
    client: SummarizationClient,
    event: Event,
    next: Progress,
    action: Action,
)
    requires
        client.steps(Progress::Finished, event, next, action),
    ensures
        next is Finished,
        action == (Action::Fail { error: SummarizeError::OutOfTurn }),
{
}

/// A prefix is empty or one of the commit types, whatever the completion said.
pub proof fn law_prefix_is_commit_type(emit: bool, classification: Option<Seq<char>>)
    ensures
        prefix_of(emit, classification).len() == 0 || is_commit_type(prefix_of(emit, classification)),
{
}

/// A commit type is accepted in any mix of ASCII capitals and small letters and
/// with any white space around it, and comes out in small letters.
pub proof fn law_padded_commit_type_is_accepted(before: Seq<char>, word: Seq<char>, after: Seq<char>)
    requires
        is_blank(before),
        is_blank(after),
        is_commit_type(lowercase(word)),
    ensures
        accepted_prefix(before + word + after) == lowercase(word),
{
    let core = lowercase(word);
    reveal_strlit("build");
    reveal_strlit("chore");
    reveal_strlit("ci");
    reveal_strlit("docs");
    reveal_strlit("feat");
    reveal_strlit("fix");
    reveal_strlit("perf");
    reveal_strlit("refactor");
    reveal_strlit("style");
    reveal_strlit("test");
    assert(core.len() > 0);
    assert(!is_whitespace(core[0]));
    assert(!is_whitespace(core.last()));
    assert forall|i: int| 0 <= i < before.len() implies is_whitespace(
        #[trigger] lowercase(before)[i],
    ) by {
        assert(is_whitespace(before[i]));
        assert(ascii_lower(before[i]) == before[i]);
    }
    assert forall|i: int| 0 <= i < after.len() implies is_whitespace(#[trigger] lowercase(after)[i]) by {
        assert(is_whitespace(after[i]));
        assert(ascii_lower(after[i]) == after[i]);
    }
    assert(lowercase(before + word + after) =~= lowercase(before) + core + lowercase(after));
    lemma_trim_padded(lowercase(before), core, lowercase(after));
}

} // verus!
