//! The steps of the summarizer: which files are skipped, which prompts are
//! rendered, how the answers become a commit message.

use crate::prompt::{bindings, format_prompt, formats_to, outcome_of, pair_views, PromptError};
use crate::settings::{text_or_empty, texts, Language, OutputSettings, PromptSettings, Settings};
use crate::text::{
    append_chars, append_str, chars_of, contains, dedup_consecutive_lines, dedup_lines, has_substring,
    join_lines, lowercase, lowered, same_chars, string_of, trim, trimmed,
};
use vstd::prelude::*;

verus! {

/// The diff of one changed file.
#[derive(Clone, Debug)]
pub struct DiffFragment {
    pub file_name: String,
    pub diff_text: String,
}

/// A changed file that is not ignored, while its summary is awaited. `asked` says
/// whether a prompt could be rendered for it: where none could, nothing is asked
/// and the summary stays empty.
#[derive(Clone, Debug)]
pub struct PendingFile {
    pub file_name: String,
    pub asked: bool,
}

/// The summary of one changed file; empty where none could be had.
#[derive(Clone, Debug)]
pub struct FileSummary {
    pub file_name: String,
    pub summary_text: String,
}

/// The three parts that are composed from the summaries. `prefix` is empty or
/// one of the commit types.
#[derive(Clone, Debug)]
pub struct CompositionResult {
    pub title: String,
    pub body: String,
    pub prefix: String,
}

/// A file summary as two texts.
pub struct Entry {
    pub name: Seq<char>,
    pub text: Seq<char>,
}

impl View for FileSummary {
    type V = Entry;

    open spec fn view(&self) -> Entry {
        Entry { name: self.file_name@, text: self.summary_text@ }
    }
}

/// The summaries as texts, in order.
pub open spec fn entries(summaries: Seq<FileSummary>) -> Seq<Entry> {
    summaries.map_values(|summary: FileSummary| summary@)
}

/// `file_name` holds one of the `ignore` texts as a substring.
pub open spec fn ignored(file_name: Seq<char>, ignore: Seq<Seq<char>>) -> bool {
    exists|i: int| 0 <= i < ignore.len() && contains(file_name, #[trigger] ignore[i])
}

/// The variables of the prompt that summarizes one file.
pub open spec fn file_diff_bindings(file_diff: Seq<char>, commit_message: Seq<char>) -> Map<
    Seq<char>,
    Seq<char>,
> {
    bindings(seq![("file_diff"@, file_diff), ("commit_message"@, commit_message)])
}

/// The variables of the prompts for the title and for the body.
pub open spec fn composition_bindings(summary_points: Seq<char>, commit_message: Seq<char>) -> Map<
    Seq<char>,
    Seq<char>,
> {
    bindings(seq![("summary_points"@, summary_points), ("commit_message"@, commit_message)])
}

/// The variables of the prompt for the classification.
pub open spec fn classification_bindings(summary_points: Seq<char>) -> Map<Seq<char>, Seq<char>> {
    bindings(seq![("summary_points"@, summary_points)])
}

/// The variables of the prompt for the translation.
pub open spec fn translation_bindings(message: Seq<char>, language: Language) -> Map<
    Seq<char>,
    Seq<char>,
> {
    bindings(seq![("commit_message"@, message), ("output_language"@, language.code())])
}

/// The variables of the template that formats the prefix.
pub open spec fn prefix_bindings(prefix: Seq<char>) -> Map<Seq<char>, Seq<char>> {
    bindings(seq![("prefix"@, prefix)])
}

/// The commit types that a classification may name.
pub open spec fn is_commit_type(token: Seq<char>) -> bool {
    ||| token == "build"@
    ||| token == "chore"@
    ||| token == "ci"@
    ||| token == "docs"@
    ||| token == "feat"@
    ||| token == "fix"@
    ||| token == "perf"@
    ||| token == "refactor"@
    ||| token == "style"@
    ||| token == "test"@
}

/// The prefix that a classification answer stands for: the answer in lower case
/// and without surrounding white space if that is a commit type, else nothing.
pub open spec fn accepted_prefix(completion: Seq<char>) -> Seq<char> {
    let token = trim(lowercase(completion));
    if is_commit_type(token) {
        token
    } else {
        Seq::empty()
    }
}

/// One summary as it is shown: the file name in square brackets, then the text
/// on a line of its own.
pub open spec fn block(entry: Entry) -> Seq<char> {
    seq!['['] + entry.name + seq![']', '\n'] + entry.text
}

/// The block of each summary, in order.
pub open spec fn blocks(entries: Seq<Entry>) -> Seq<Seq<char>> {
    entries.map_values(|entry: Entry| block(entry))
}

/// The block of every summary, empty ones too, one after the other on lines of their own.
pub open spec fn aggregate_block(entries: Seq<Entry>) -> Seq<char> {
    join_lines(blocks(entries))
}

/// The block of every summary that is not empty, each closed by a line feed.
pub open spec fn appendix(entries: Seq<Entry>) -> Seq<char>
    decreases entries.len(),
{
    if entries.len() == 0 {
        Seq::empty()
    } else if entries.last().text.len() > 0 {
        appendix(entries.drop_last()) + block(entries.last()) + seq!['\n']
    } else {
        appendix(entries.drop_last())
    }
}

/// The message before repeated lines are removed.
pub open spec fn draft(title: Seq<char>, body: Seq<char>, entries: Seq<Entry>, show: bool) -> Seq<
    char,
> {
    let head = title + seq!['\n', '\n'] + body + seq!['\n', '\n'];
    if show {
        head + appendix(entries)
    } else {
        head
    }
}

/// The message: title, body and, where asked for, the summaries that are not
/// empty, without any line that repeats the line before it.
pub open spec fn assembled(title: Seq<char>, body: Seq<char>, entries: Seq<Entry>, show: bool) -> Seq<
    char,
> {
    dedup_lines(draft(title, body, entries, show))
}

fn text_or_default(text: Option<String>) -> (out: String)
    ensures
        out@ == text_or_empty(text),
{
    match text {
        Some(text) => text,
        None => String::new(),
    }
}

fn is_token(token: &Vec<char>) -> (yes: bool)
    ensures
        yes == is_commit_type(token@),
{
    same_chars(token, &chars_of("build")) || same_chars(token, &chars_of("chore")) || same_chars(
        token,
        &chars_of("ci"),
    ) || same_chars(token, &chars_of("docs")) || same_chars(token, &chars_of("feat")) || same_chars(
        token,
        &chars_of("fix"),
    ) || same_chars(token, &chars_of("perf")) || same_chars(token, &chars_of("refactor"))
        || same_chars(token, &chars_of("style")) || same_chars(token, &chars_of("test"))
}

/// Validates the answer to a classification prompt against the commit types.
pub fn classify(completion: &str) -> (prefix: String)
    ensures
        prefix@ == accepted_prefix(completion@),
        prefix@.len() == 0 || is_commit_type(prefix@),
{
    let token = trimmed(&lowered(&chars_of(completion)));
    if is_token(&token) {
        string_of(&token)
    } else {
        String::new()
    }
}

fn block_of(summary: &FileSummary) -> (out: Vec<char>)
    ensures
        out@ == block(summary@),
{
    let mut out: Vec<char> = Vec::new();
    out.push('[');
    append_str(&mut out, summary.file_name.as_str());
    out.push(']');
    out.push('\n');
    append_str(&mut out, summary.summary_text.as_str());
    assert(out@ =~= block(summary@));
    out
}

/// `head` directly followed by `message`.
pub fn prepend(head: &str, message: &str) -> (out: String)
    ensures
        out@ == head@ + message@,
{
    let mut out = chars_of(head);
    append_str(&mut out, message);
    string_of(&out)
}

/// The text from which title, body and classification are composed: every
/// summary, in order, as its block.
pub fn aggregate(summaries: &Vec<FileSummary>) -> (text: String)
    ensures
        text@ == aggregate_block(entries(summaries@)),
{
    let ghost all = blocks(entries(summaries@));
    let mut out: Vec<char> = Vec::new();
    let mut i: usize = 0;
    assert(all.take(0) =~= Seq::<Seq<char>>::empty());
    while i < summaries.len()
        invariant
            i <= summaries.len(),
            all == blocks(entries(summaries@)),
            out@ == join_lines(all.take(i as int)),
        decreases summaries.len() - i,
    {
        let piece = block_of(&summaries[i]);
        assert(all.take(i as int + 1).drop_last() =~= all.take(i as int));
        assert(all.take(i as int + 1).last() == piece@);
        if i > 0 {
            out.push('\n');
        }
        append_chars(&mut out, &piece);
        assert(out@ =~= join_lines(all.take(i as int + 1)));
        i += 1;
    }
    assert(all.take(summaries.len() as int) =~= all);
    string_of(&out)
}

/// The text of an optional string.
pub open spec fn option_text(text: Option<String>) -> Option<Seq<char>> {
    match text {
        Some(text) => Some(text@),
        None => None,
    }
}

/// The fragments whose file name is not ignored, in their order.
pub open spec fn kept(fragments: Seq<DiffFragment>, ignore: Seq<Seq<char>>) -> Seq<DiffFragment>
    decreases fragments.len(),
{
    if fragments.len() == 0 {
        Seq::empty()
    } else if ignored(fragments.last().file_name@, ignore) {
        kept(fragments.drop_last(), ignore)
    } else {
        kept(fragments.drop_last(), ignore).push(fragments.last())
    }
}

/// The summary of the file at index `i`: the answer at that index, or nothing
/// where the file was not asked about or the answer is missing.
pub open spec fn answer_text(asked: bool, answers: Seq<Option<String>>, i: int) -> Seq<char> {
    if asked && 0 <= i < answers.len() {
        match answers[i] {
            Some(text) => text@,
            None => Seq::empty(),
        }
    } else {
        Seq::empty()
    }
}

/// One summary for each pending file, in order.
pub open spec fn summaries_of(files: Seq<PendingFile>, answers: Seq<Option<String>>) -> Seq<Entry> {
    Seq::new(
        files.len(),
        |i: int| Entry { name: files[i].file_name@, text: answer_text(files[i].asked, answers, i) },
    )
}

/// The summaries of `files`, one each and in order, from the answers to their
/// prompts: `answers` holds at each file's index what the completion gave, or
/// `None` where it failed. A file without an answer gets the empty summary.
pub fn collect_summaries(files: &Vec<PendingFile>, answers: &Vec<Option<String>>) -> (summaries: Vec<
    FileSummary,
>)
    ensures
        entries(summaries@) == summaries_of(files@, answers@),
{
    let mut summaries: Vec<FileSummary> = Vec::new();
    let mut i: usize = 0;
    while i < files.len()
        invariant
            i <= files.len(),
            summaries.len() == i,
            forall|k: int| 0 <= k < i ==> (#[trigger] summaries@[k])@ == summaries_of(files@, answers@)[k],
        decreases files.len() - i,
    {
        let summary_text = if files[i].asked && i < answers.len() {
            match &answers[i] {
                Some(text) => text.clone(),
                None => String::new(),
            }
        } else {
            String::new()
        };
        summaries.push(FileSummary { file_name: files[i].file_name.clone(), summary_text });
        i += 1;
    }
    assert(entries(summaries@) =~= summaries_of(files@, answers@));
    summaries
}

/// The prefix that comes of the answer to the classification prompt. An answer
/// counts only where the settings want a classification, and then only as far
/// as `accepted_prefix` accepts it; without an answer there is no prefix.
pub open spec fn prefix_of(emit: bool, classification: Option<Seq<char>>) -> Seq<char> {
    match classification {
        Some(answer) => if emit {
            accepted_prefix(answer)
        } else {
            Seq::empty()
        },
        None => Seq::empty(),
    }
}

/// The settings in force while one commit message is made.
#[derive(Clone, Debug)]
pub struct SummarizationClient {
    pub file_ignore: Vec<String>,
    pub prompt_file_diff: String,
    pub prompt_conventional_commit_prefix: String,
    pub prompt_commit_summary: String,
    pub prompt_commit_title: String,
    pub prompt_translation: String,
    pub output_conventional_commit: bool,
    pub output_conventional_commit_prefix_format: String,
    pub output_lang: Language,
    pub output_show_per_file_summary: bool,
}

impl SummarizationClient {
    /// Takes each setting as given, and its default where it is left out.
    pub fn new(settings: Settings) -> (client: SummarizationClient)
        ensures
            texts(client.file_ignore@) == settings.ignore_list(),
            client.prompt_file_diff@ == settings.file_diff_template(),
            client.prompt_conventional_commit_prefix@ == settings.classification_template(),
            client.prompt_commit_summary@ == settings.body_template(),
            client.prompt_commit_title@ == settings.title_template(),
            client.prompt_translation@ == settings.translation_template(),
            client.output_conventional_commit == settings.emits_classification(),
            client.output_conventional_commit_prefix_format@ == settings.classification_format(),
            client.output_lang == settings.language(),
            client.output_show_per_file_summary == settings.shows_per_file_summary(),
    {
        let prompt_settings = match settings.prompt {
            Some(prompt) => prompt,
            None => PromptSettings::default(),
        };
        let prompt_file_diff = text_or_default(prompt_settings.file_diff);
        let prompt_conventional_commit_prefix = text_or_default(
            prompt_settings.conventional_commit_prefix,
        );
        let prompt_commit_summary = text_or_default(prompt_settings.commit_summary);
        let prompt_commit_title = text_or_default(prompt_settings.commit_title);
        let prompt_translation = text_or_default(prompt_settings.translation);

        let output_settings = match settings.output {
            Some(output) => output,
            None => OutputSettings::default(),
        };
        let output_conventional_commit = match output_settings.conventional_commit {
            Some(emit) => emit,
            None => true,
        };
        let output_conventional_commit_prefix_format = text_or_default(
            output_settings.conventional_commit_prefix_format,
        );
        let lang = text_or_default(output_settings.lang);
        let output_lang = match Language::from_code(lang.as_str()) {
            Some(language) => language,
            None => Language::default(),
        };
        let output_show_per_file_summary = match output_settings.show_per_file_summary {
            Some(show) => show,
            None => false,
        };
        let file_ignore = match settings.file_ignore {
            Some(list) => list,
            None => Vec::new(),
        };
        assert(texts(file_ignore@) =~= settings.ignore_list());
        SummarizationClient {
            file_ignore,
            prompt_file_diff,
            prompt_conventional_commit_prefix,
            prompt_commit_summary,
            prompt_commit_title,
            prompt_translation,
            output_conventional_commit,
            output_conventional_commit_prefix_format,
            output_lang,
            output_show_per_file_summary,
        }
    }

    /// Whether the file is left out of the message: its name holds one of the
    /// ignore texts. The test is case-sensitive.
    pub fn ignores(&self, file_name: &str) -> (skip: bool)
        ensures
            skip == ignored(file_name@, texts(self.file_ignore@)),
    {
        let name = chars_of(file_name);
        let ghost ignore = texts(self.file_ignore@);
        let mut i: usize = 0;
        while i < self.file_ignore.len()
            invariant
                i <= self.file_ignore.len(),
                name@ == file_name@,
                ignore == texts(self.file_ignore@),
                forall|k: int| 0 <= k < i ==> !contains(name@, #[trigger] ignore[k]),
            decreases self.file_ignore.len() - i,
        {
            let pattern = chars_of(self.file_ignore[i].as_str());
            assert(ignore[i as int] == pattern@);
            if has_substring(&name, &pattern) {
                return true;
            }
            i += 1;
        }
        false
    }

    /// The prompt that asks for the summary of one file's diff.
    pub fn diff_summary(&self, file_diff: &str, commit_message: &str) -> (prompt: Result<
        String,
        PromptError,
    >)
        ensures
            formats_to(
                self.prompt_file_diff@,
                file_diff_bindings(file_diff@, commit_message@),
                outcome_of(prompt),
            ),
    {
        let variables = [("file_diff", file_diff), ("commit_message", commit_message)];
        assert(pair_views(variables@) =~= seq![
            ("file_diff"@, file_diff@),
            ("commit_message"@, commit_message@),
        ]);
        format_prompt(self.prompt_file_diff.as_str(), &variables)
    }

    /// The prompt that asks for the body of the message.
    pub fn commit_summary(&self, summary_points: &str, commit_message: &str) -> (prompt: Result<
        String,
        PromptError,
    >)
        ensures
            formats_to(
                self.prompt_commit_summary@,
                composition_bindings(summary_points@, commit_message@),
                outcome_of(prompt),
            ),
    {
        let variables = [("summary_points", summary_points), ("commit_message", commit_message)];
        assert(pair_views(variables@) =~= seq![
            ("summary_points"@, summary_points@),
            ("commit_message"@, commit_message@),
        ]);
        format_prompt(self.prompt_commit_summary.as_str(), &variables)
    }

    /// The prompt that asks for the title of the message.
    pub fn commit_title(&self, summary_points: &str, commit_message: &str) -> (prompt: Result<
        String,
        PromptError,
    >)
        ensures
            formats_to(
                self.prompt_commit_title@,
                composition_bindings(summary_points@, commit_message@),
                outcome_of(prompt),
            ),
    {
        let variables = [("summary_points", summary_points), ("commit_message", commit_message)];
        assert(pair_views(variables@) =~= seq![
            ("summary_points"@, summary_points@),
            ("commit_message"@, commit_message@),
        ]);
        format_prompt(self.prompt_commit_title.as_str(), &variables)
    }
    /// The prompt that asks for the classification, or `None` where no
    /// classification is to be made: then nothing is rendered and nothing asked.
    pub fn conventional_commit_prefix(&self, summary_points: &str) -> (prompt: Result<
        Option<String>,
        PromptError,
    >)
        ensures
            !self.output_conventional_commit ==> prompt matches Ok(None),
            self.output_conventional_commit ==> match prompt {
                Ok(Some(text)) => formats_to(
                    self.prompt_conventional_commit_prefix@,
                    classification_bindings(summary_points@),
                    Some(text@),
                ),
                Ok(None) => false,
                Err(_) => formats_to(
                    self.prompt_conventional_commit_prefix@,
                    classification_bindings(summary_points@),
                    None,
                ),
            },
    {
        if !self.output_conventional_commit {
            return Ok(None);
        }
        let variables = [("summary_points", summary_points)];
        assert(pair_views(variables@) =~= seq![("summary_points"@, summary_points@)]);
        match format_prompt(self.prompt_conventional_commit_prefix.as_str(), &variables) {
            Ok(text) => Ok(Some(text)),
            Err(error) => Err(error),
        }
    }

    /// The prompt that asks for the translation of `commit_message`, or `None`
    /// where the language is English: then the message stands as it is, and
    /// nothing is rendered and nothing asked.
    pub fn commit_translate(&self, commit_message: &str) -> (prompt: Result<
        Option<String>,
        PromptError,
    >)
        ensures
            self.output_lang == Language::En ==> prompt matches Ok(None),
            self.output_lang != Language::En ==> match prompt {
                Ok(Some(text)) => formats_to(
                    self.prompt_translation@,
                    translation_bindings(commit_message@, self.output_lang),
                    Some(text@),
                ),
                Ok(None) => false,
                Err(_) => formats_to(
                    self.prompt_translation@,
                    translation_bindings(commit_message@, self.output_lang),
                    None,
                ),
            },
    {
        if self.output_lang == Language::En {
            return Ok(None);
        }
        let language = self.output_lang.name();
        let variables = [("commit_message", commit_message), ("output_language", language)];
        assert(pair_views(variables@) =~= seq![
            ("commit_message"@, commit_message@),
            ("output_language"@, self.output_lang.code()),
        ]);
        match format_prompt(self.prompt_translation.as_str(), &variables) {
            Ok(text) => Ok(Some(text)),
            Err(error) => Err(error),
        }
    }

    /// What becomes of one fragment: `None` where its file is ignored, else the
    /// pending file and the prompt that asks for its summary. Where the prompt
    /// cannot be rendered there is none, and the file's summary will be empty.
    pub fn process_file_diff(&self, fragment: &DiffFragment, commit_message: &str) -> (plan: Option<
        (PendingFile, Option<String>),
    >)
        ensures
            plan is None <==> ignored(fragment.file_name@, texts(self.file_ignore@)),
            plan matches Some((file, prompt)) ==> self.plans(*fragment, commit_message@, file, prompt),
    {
        if self.ignores(fragment.file_name.as_str()) {
            return None;
        }
        let prompt = match self.diff_summary(fragment.diff_text.as_str(), commit_message) {
            Ok(text) => Some(text),
            Err(_) => None,
        };
        let asked = prompt.is_some();
        Some((PendingFile { file_name: fragment.file_name.clone(), asked }, prompt))
    }

    /// `file` and `prompt` are what `fragment` asks for: the same file name, and
    /// what the file-diff template gives with this diff and commit message.
    pub open spec fn plans(
        &self,
        fragment: DiffFragment,
        commit_message: Seq<char>,
        file: PendingFile,
        prompt: Option<String>,
    ) -> bool {
        &&& file.file_name@ == fragment.file_name@
        &&& file.asked == prompt is Some
        &&& formats_to(
            self.prompt_file_diff@,
            file_diff_bindings(fragment.diff_text@, commit_message),
            option_text(prompt),
        )
    }

    /// Joins the answers of the composer into one result.
    pub fn compose(&self, title: String, body: String, classification: Option<String>) -> (composition:
        CompositionResult)
        ensures
            composition.title == title,
            composition.body == body,
            composition.prefix@ == prefix_of(
                self.output_conventional_commit,
                option_text(classification),
            ),
            composition.prefix@.len() == 0 || is_commit_type(composition.prefix@),
    {
        let prefix = match classification {
            Some(answer) => if self.output_conventional_commit {
                classify(answer.as_str())
            } else {
                String::new()
            },
            None => String::new(),
        };
        CompositionResult { title, body, prefix }
    }

    /// The message without its prefix: title, body and, where the settings ask
    /// for it, the block of each summary that is not empty; then every line that
    /// repeats the line before it is removed.
    pub fn assemble(&self, composition: &CompositionResult, summaries: &Vec<FileSummary>) -> (message:
        String)
        ensures
            message@ == assembled(
                composition.title@,
                composition.body@,
                entries(summaries@),
                self.output_show_per_file_summary,
            ),
    {
        let ghost found = entries(summaries@);
        let mut out: Vec<char> = Vec::new();
        append_str(&mut out, composition.title.as_str());
        out.push('\n');
        out.push('\n');
        append_str(&mut out, composition.body.as_str());
        out.push('\n');
        out.push('\n');
        let ghost head = composition.title@ + seq!['\n', '\n'] + composition.body@ + seq!['\n', '\n'];
        assert(out@ =~= head);
        if self.output_show_per_file_summary {
            let mut i: usize = 0;
            assert(found.take(0) =~= Seq::<Entry>::empty());
            assert(out@ =~= head + appendix(found.take(0)));
            while i < summaries.len()
                invariant
                    i <= summaries.len(),
                    found == entries(summaries@),
                    out@ == head + appendix(found.take(i as int)),
                decreases summaries.len() - i,
            {
                assert(found.take(i as int + 1).drop_last() =~= found.take(i as int));
                assert(found.take(i as int + 1).last() == summaries@[i as int]@);
                if !summaries[i].summary_text.as_str().is_empty() {
                    let piece = block_of(&summaries[i]);
                    append_chars(&mut out, &piece);
                    out.push('\n');
                }
                assert(out@ =~= head + appendix(found.take(i as int + 1)));
                i += 1;
            }
            assert(found.take(summaries.len() as int) =~= found);
        }
        string_of(&dedup_consecutive_lines(&out))
    }

    /// The outcome of putting `prefix` before `message`: `Some` of the final
    /// text, or `None` where the format gives no text. Without a prefix the
    /// message stands as it is and nothing is formatted. With one, the format
    /// with the variable `prefix` comes first, then the message.
    pub open spec fn prefixed(&self, prefix: Seq<char>, message: Seq<char>, outcome: Option<Seq<char>>) -> bool {
        let format = self.output_conventional_commit_prefix_format@;
        if prefix.len() == 0 {
            outcome == Some(message)
        } else {
            match outcome {
                Some(full) => exists|head: Seq<char>|
                    #[trigger] formats_to(format, prefix_bindings(prefix), Some(head)) && full == head
                        + message,
                None => formats_to(format, prefix_bindings(prefix), None),
            }
        }
    }

    /// Puts the formatted prefix before the message; the message itself is not changed.
    pub fn with_prefix(&self, prefix: &str, message: String) -> (full: Result<String, PromptError>)
        ensures
            self.prefixed(prefix@, message@, outcome_of(full)),
            prefix@.len() == 0 ==> (full matches Ok(text) && text == message),
    {
        if prefix.is_empty() {
            return Ok(message);
        }
        let variables = [("prefix", prefix)];
        assert(pair_views(variables@) =~= seq![("prefix"@, prefix@)]);
        match format_prompt(self.output_conventional_commit_prefix_format.as_str(), &variables) {
            Ok(head) => {
                let full = prepend(head.as_str(), message.as_str());
                assert(formats_to(
                    self.output_conventional_commit_prefix_format@,
                    prefix_bindings(prefix@),
                    Some(head@),
                ));
                Ok(full)
            },
            Err(error) => Err(error),
        }
    }
}

} // verus!
