//! The order of the work. Making a commit message takes up to three rounds of
//! completions: the summaries of the files, then title, body and classification,
//! then the translation. The caller runs the completions; `get_commit_message`
//! and `resume` say after each round what is to be done next.

use crate::prompt::{formats_to, PromptError};
use crate::template::{is_literal, lemma_literal_is_supported, supported};
use crate::settings::{texts, Language};
use crate::summarize::{
    aggregate_block, assembled, classification_bindings, composition_bindings, entries, kept, option_text,
    prefix_of, summaries_of, translation_bindings, DiffFragment, Entry, FileSummary, PendingFile,
    SummarizationClient,
};
use crate::summarize::{aggregate, collect_summaries};
use vstd::prelude::*;

verus! {

/// The three parts that are composed at once.
#[derive(Clone, Copy, Debug, PartialEq, Eq, Structural)]
pub enum Part {
    Title,
    Body,
    Classification,
}

/// What can fail for the whole message.
#[derive(Clone, Copy, Debug, PartialEq, Eq, Structural)]
pub enum Operation {
    Title,
    Body,
    Classification,
    Translation,
    PrefixFormat,
}

impl Part {
    /// The operation that composes this part.
    pub open spec fn operation(self) -> Operation {
        match self {
            Part::Title => Operation::Title,
            Part::Body => Operation::Body,
            Part::Classification => Operation::Classification,
        }
    }

    /// The operation that composes this part.
    pub fn as_operation(&self) -> (operation: Operation)
        ensures
            operation == self.operation(),
    {
        match self {
            Part::Title => Operation::Title,
            Part::Body => Operation::Body,
            Part::Classification => Operation::Classification,
        }
    }
}

/// Why no message could be made.
#[derive(Clone, Debug)]
pub enum SummarizeError {
    /// The template of this operation gave no text: it is not supported, or the
    /// renderer failed on it.
    Render { operation: Operation, message: String },
    /// The completion of this operation failed.
    Completion { operation: Operation, message: String },
    /// The event does not answer what was asked last.
    OutOfTurn,
}

/// How far the work has come.
#[derive(Clone, Debug)]
pub enum Progress {
    /// The summaries of these files are awaited.
    Summarizing { files: Vec<PendingFile>, commit_message: String },
    /// Title, body and classification are awaited.
    Composing { summaries: Vec<FileSummary> },
    /// The translation is awaited; `prefix` will stand before it.
    Translating { prefix: String },
    /// Nothing is awaited: the message was handed out, or the work has failed.
    Finished,
}

/// What the caller is to do next.
#[derive(Clone, Debug)]
pub enum Action {
    /// Complete every prompt, each on its own: one that fails stops none of the
    /// others. `prompts` holds one entry for each pending file, in order, and
    /// `None` where nothing is to be asked. Answer with `Event::Summarized`.
    Summarize { prompts: Vec<Option<String>> },
    /// Complete these prompts at once, and give up on all as soon as one fails.
    /// Answer with `Event::Composed` or `Event::CompositionFailed`.
    Compose { title: String, body: String, classification: Option<String> },
    /// Complete this prompt. Answer with `Event::Translated` or `Event::TranslationFailed`.
    Translate { prompt: String },
    /// The commit message.
    Done { message: String },
    /// No message can be made.
    Fail { error: SummarizeError },
}

/// What came of the last action.
#[derive(Clone, Debug)]
pub enum Event {
    /// For each pending file, at its index, the completion of its prompt, or
    /// `None` where the completion failed or nothing was asked.
    Summarized { answers: Vec<Option<String>> },
    /// The completions of the composing prompts.
    Composed { title: String, body: String, classification: Option<String> },
    /// The first of the composing completions that failed.
    CompositionFailed { part: Part, reason: String },
    /// The completion of the translation prompt.
    Translated { message: String },
    /// The translation could not be completed.
    TranslationFailed { reason: String },
}

impl SummarizationClient {
    /// The work starts with one pending file for each fragment that is not
    /// ignored, in the order of the fragments, and the prompt for each.
    pub open spec fn starts(
        &self,
        fragments: Seq<DiffFragment>,
        message: Seq<char>,
        next: Progress,
        action: Action,
    ) -> bool {
        let chosen = kept(fragments, texts(self.file_ignore@));
        &&& next matches Progress::Summarizing { files, commit_message }
        &&& action matches Action::Summarize { prompts }
        &&& commit_message@ == message
        &&& files.len() == chosen.len()
        &&& prompts.len() == chosen.len()
        &&& forall|i: int|
            #![trigger files@[i]]
            0 <= i < chosen.len() ==> self.plans(chosen[i], message, files@[i], prompts@[i])
    }

    /// With the summaries `found`, the three composing prompts are asked for,
    /// the classification only where the settings want one. The templates are
    /// formatted in the order title, body, classification, and the first that
    /// gives no text ends the work: so a failure of the body says that the
    /// title template is supported, and a failure of the classification says
    /// that both others are.
    pub open spec fn asks_composition(
        &self,
        found: Seq<Entry>,
        message: Seq<char>,
        next: Progress,
        action: Action,
    ) -> bool {
        let points = aggregate_block(found);
        let both = composition_bindings(points, message);
        let one = classification_bindings(points);
        match action {
            Action::Compose { title, body, classification } => {
                &&& next matches Progress::Composing { summaries }
                &&& entries(summaries@) == found
                &&& formats_to(self.prompt_commit_title@, both, Some(title@))
                &&& formats_to(self.prompt_commit_summary@, both, Some(body@))
                &&& classification is Some <==> self.output_conventional_commit
                &&& classification matches Some(prompt) ==> formats_to(
                    self.prompt_conventional_commit_prefix@,
                    one,
                    Some(prompt@),
                )
            },
            Action::Fail { error } => {
                &&& next is Finished
                &&& error matches SummarizeError::Render { operation, .. }
                &&& match operation {
                    Operation::Title => formats_to(self.prompt_commit_title@, both, None),
                    Operation::Body => {
                        &&& supported(self.prompt_commit_title@)
                        &&& formats_to(self.prompt_commit_summary@, both, None)
                    },
                    Operation::Classification => {
                        &&& self.output_conventional_commit
                        &&& supported(self.prompt_commit_title@)
                        &&& supported(self.prompt_commit_summary@)
                        &&& formats_to(self.prompt_conventional_commit_prefix@, one, None)
                    },
                    _ => false,
                }
            },
            _ => false,
        }
    }

    /// The work ends with `message` behind its formatted prefix, or fails where
    /// the format cannot be rendered.
    pub open spec fn finishes(
        &self,
        prefix: Seq<char>,
        message: Seq<char>,
        next: Progress,
        action: Action,
    ) -> bool {
        &&& next is Finished
        &&& match action {
            Action::Done { message: full } => self.prefixed(prefix, message, Some(full@)),
            Action::Fail { error } => {
                &&& error matches SummarizeError::Render { operation, .. }
                &&& operation == Operation::PrefixFormat
                &&& self.prefixed(prefix, message, None)
            },
            _ => false,
        }
    }

    /// With title, body and classification at hand the message is assembled. In
    /// English it is finished at once. In another language its translation is
    /// asked for, and the prefix is kept for later: it is not translated.
    pub open spec fn continues(
        &self,
        found: Seq<Entry>,
        title: Seq<char>,
        body: Seq<char>,
        classification: Option<Seq<char>>,
        next: Progress,
        action: Action,
    ) -> bool {
        let prefix = prefix_of(self.output_conventional_commit, classification);
        let message = assembled(title, body, found, self.output_show_per_file_summary);
        let translation = translation_bindings(message, self.output_lang);
        if self.output_lang == Language::En {
            self.finishes(prefix, message, next, action)
        } else {
            match action {
                Action::Translate { prompt } => {
                    &&& next matches Progress::Translating { prefix: later }
                    &&& later@ == prefix
                    &&& formats_to(self.prompt_translation@, translation, Some(prompt@))
                },
                Action::Fail { error } => {
                    &&& next is Finished
                    &&& error matches SummarizeError::Render { operation, .. }
                    &&& operation == Operation::Translation
                    &&& formats_to(self.prompt_translation@, translation, None)
                },
                _ => false,
            }
        }
    }

    /// The work has ended for want of this completion.
    pub open spec fn gives_up(operation: Operation, reason: String, next: Progress, action: Action) -> bool {
        &&& next is Finished
        &&& action == (Action::Fail { error: SummarizeError::Completion { operation, message: reason } })
    }

    /// One step of the work: what follows from `event` where `progress` stands.
    pub open spec fn steps(&self, progress: Progress, event: Event, next: Progress, action: Action) -> bool {
        match (progress, event) {
            (Progress::Summarizing { files, commit_message }, Event::Summarized { answers }) => {
                self.asks_composition(summaries_of(files@, answers@), commit_message@, next, action)
            },
            (Progress::Composing { summaries }, Event::Composed { title, body, classification }) => {
                self.continues(
                    entries(summaries@),
                    title@,
                    body@,
                    option_text(classification),
                    next,
                    action,
                )
            },
            (Progress::Composing { .. }, Event::CompositionFailed { part, reason }) => {
                Self::gives_up(part.operation(), reason, next, action)
            },
            (Progress::Translating { prefix }, Event::Translated { message }) => {
                self.finishes(prefix@, message@, next, action)
            },
            (Progress::Translating { .. }, Event::TranslationFailed { reason }) => {
                Self::gives_up(Operation::Translation, reason, next, action)
            },
            _ => {
                &&& next is Finished
                &&& action == (Action::Fail { error: SummarizeError::OutOfTurn })
            },
        }
    }

    /// Starts the work on a commit message: skips the ignored files and asks
    /// for the summary of each of the others.
    pub fn get_commit_message(&self, fragments: &Vec<DiffFragment>, commit_message: &str) -> (started: (
        Progress,
        Action,
    ))
        ensures
            self.starts(fragments@, commit_message@, started.0, started.1),
    {
        let ghost ignore = texts(self.file_ignore@);
        let mut files: Vec<PendingFile> = Vec::new();
        let mut prompts: Vec<Option<String>> = Vec::new();
        let mut i: usize = 0;
        assert(fragments@.take(0) =~= Seq::<DiffFragment>::empty());
        while i < fragments.len()
            invariant
                i <= fragments.len(),
                ignore == texts(self.file_ignore@),
                files.len() == kept(fragments@.take(i as int), ignore).len(),
                prompts.len() == files.len(),
                forall|k: int|
                    #![trigger files@[k]]
                    0 <= k < files.len() ==> self.plans(
                        kept(fragments@.take(i as int), ignore)[k],
                        commit_message@,
                        files@[k],
                        prompts@[k],
                    ),
            decreases fragments.len() - i,
        {
            let ghost before = fragments@.take(i as int);
            let ghost after = fragments@.take(i as int + 1);
            assert(after.drop_last() =~= before);
            assert(after.last() == fragments@[i as int]);
            match self.process_file_diff(&fragments[i], commit_message) {
                Some((file, prompt)) => {
                    files.push(file);
                    prompts.push(prompt);
                },
                None => {},
            }
            i += 1;
        }
        assert(fragments@.take(fragments.len() as int) =~= fragments@);
        let message = commit_message.to_string();
        (Progress::Summarizing { files, commit_message: message }, Action::Summarize { prompts })
    }

    /// Renders the composing prompts from the summaries.
    pub fn ask_composition(&self, summaries: Vec<FileSummary>, commit_message: &str) -> (step: (
        Progress,
        Action,
    ))
        ensures
            self.asks_composition(entries(summaries@), commit_message@, step.0, step.1),
    {
        let points = aggregate(&summaries);
        proof {
            if is_literal(self.prompt_commit_title@) {
                lemma_literal_is_supported(self.prompt_commit_title@, 0, 0);
            }
            if is_literal(self.prompt_commit_summary@) {
                lemma_literal_is_supported(self.prompt_commit_summary@, 0, 0);
            }
        }
        let title = match self.commit_title(points.as_str(), commit_message) {
            Ok(prompt) => prompt,
            Err(error) => {
                return (Progress::Finished, Self::render_failure(Operation::Title, error));
            },
        };
        let body = match self.commit_summary(points.as_str(), commit_message) {
            Ok(prompt) => prompt,
            Err(error) => {
                return (Progress::Finished, Self::render_failure(Operation::Body, error));
            },
        };
        let classification = match self.conventional_commit_prefix(points.as_str()) {
            Ok(prompt) => prompt,
            Err(error) => {
                return (Progress::Finished, Self::render_failure(Operation::Classification, error));
            },
        };
        (Progress::Composing { summaries }, Action::Compose { title, body, classification })
    }

    fn render_failure(operation: Operation, error: PromptError) -> (action: Action)
        ensures
            action matches Action::Fail { error: SummarizeError::Render { operation: failed, .. } }
                && failed == operation,
    {
        Action::Fail { error: SummarizeError::Render { operation, message: error.describe() } }
    }

    /// Ends the work: puts the formatted prefix before the message.
    pub fn finish(&self, prefix: &str, message: String) -> (step: (Progress, Action))
        ensures
            self.finishes(prefix@, message@, step.0, step.1),
    {
        match self.with_prefix(prefix, message) {
            Ok(full) => (Progress::Finished, Action::Done { message: full }),
            Err(error) => (Progress::Finished, Self::render_failure(Operation::PrefixFormat, error)),
        }
    }

    /// Assembles the message from the composed parts, and finishes it or asks
    /// for its translation.
    pub fn continue_with(
        &self,
        summaries: &Vec<FileSummary>,
        title: String,
        body: String,
        classification: Option<String>,
    ) -> (step: (Progress, Action))
        ensures
            self.continues(
                entries(summaries@),
                title@,
                body@,
                option_text(classification),
                step.0,
                step.1,
            ),
    {
        let composition = self.compose(title, body, classification);
        let message = self.assemble(&composition, summaries);
        match self.commit_translate(message.as_str()) {
            Ok(None) => self.finish(composition.prefix.as_str(), message),
            Ok(Some(prompt)) => (
                Progress::Translating { prefix: composition.prefix },
                Action::Translate { prompt },
            ),
            Err(error) => (Progress::Finished, Self::render_failure(Operation::Translation, error)),
        }
    }

    /// Takes the work one step on: from where `progress` stands and what the
    /// last action came to, to what is to be done next.
    pub fn resume(&self, progress: Progress, event: Event) -> (step: (Progress, Action))
        ensures
            self.steps(progress, event, step.0, step.1),
    {
        match (progress, event) {
            (Progress::Summarizing { files, commit_message }, Event::Summarized { answers }) => {
                let summaries = collect_summaries(&files, &answers);
                self.ask_composition(summaries, commit_message.as_str())
            },
            (Progress::Composing { summaries }, Event::Composed { title, body, classification }) => {
                self.continue_with(&summaries, title, body, classification)
            },
            (Progress::Composing { .. }, Event::CompositionFailed { part, reason }) => (
                Progress::Finished,
                Action::Fail {
                    error: SummarizeError::Completion { operation: part.as_operation(), message: reason },
                },
            ),
            (Progress::Translating { prefix }, Event::Translated { message }) => {
                self.finish(prefix.as_str(), message)
            },
            (Progress::Translating { .. }, Event::TranslationFailed { reason }) => (
                Progress::Finished,
                Action::Fail {
                    error: SummarizeError::Completion { operation: Operation::Translation, message: reason },
                },
            ),
            _ => (Progress::Finished, Action::Fail { error: SummarizeError::OutOfTurn }),
        }
    }
}

} // verus!
