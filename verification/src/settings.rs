//! What the caller configures, with every field optional, and the defaults that
//! stand in for what is left out.

use crate::text::{chars_of, same_chars};
use vstd::prelude::*;

verus! {

/// The language of the final message.
#[derive(Clone, Copy, Debug, PartialEq, Eq, Structural)]
pub enum Language {
    En,
    ZhCn,
    ZhTw,
    Ja,
}

impl Language {
    /// The code by which a language is configured and named to the translator.
    pub open spec fn code(self) -> Seq<char> {
        match self {
            Language::En => "en"@,
            Language::ZhCn => "zh-cn"@,
            Language::ZhTw => "zh-tw"@,
            Language::Ja => "ja"@,
        }
    }

    /// The language with the given code, if there is one. Codes are case-sensitive.
    pub open spec fn with_code(code: Seq<char>) -> Option<Language> {
        if code == Language::En.code() {
            Some(Language::En)
        } else if code == Language::ZhCn.code() {
            Some(Language::ZhCn)
        } else if code == Language::ZhTw.code() {
            Some(Language::ZhTw)
        } else if code == Language::Ja.code() {
            Some(Language::Ja)
        } else {
            None
        }
    }

    /// The code of this language.
    pub fn name(&self) -> (name: &'static str)
        ensures
            name@ == self.code(),
    {
        match self {
            Language::En => "en",
            Language::ZhCn => "zh-cn",
            Language::ZhTw => "zh-tw",
            Language::Ja => "ja",
        }
    }

    /// The language that `code` names, if it names one.
    pub fn from_code(code: &str) -> (language: Option<Language>)
        ensures
            language == Language::with_code(code@),
    {
        let given = chars_of(code);
        if same_chars(&given, &chars_of(Language::En.name())) {
            Some(Language::En)
        } else if same_chars(&given, &chars_of(Language::ZhCn.name())) {
            Some(Language::ZhCn)
        } else if same_chars(&given, &chars_of(Language::ZhTw.name())) {
            Some(Language::ZhTw)
        } else if same_chars(&given, &chars_of(Language::Ja.name())) {
            Some(Language::Ja)
        } else {
            None
        }
    }
}

impl Default for Language {
    fn default() -> (language: Language)
        ensures
            language == Language::En,
    {
        Language::En
    }
}

/// The prompt templates.
#[derive(Clone, Debug)]
pub struct PromptSettings {
    pub file_diff: Option<String>,
    pub conventional_commit_prefix: Option<String>,
    pub commit_summary: Option<String>,
    pub commit_title: Option<String>,
    pub translation: Option<String>,
}

/// What the final message holds and in which language.
#[derive(Clone, Debug)]
pub struct OutputSettings {
    pub conventional_commit: Option<bool>,
    pub conventional_commit_prefix_format: Option<String>,
    pub lang: Option<String>,
    pub show_per_file_summary: Option<bool>,
}

/// Everything that can be configured. What is `None` takes its default.
#[derive(Clone, Debug)]
pub struct Settings {
    pub prompt: Option<PromptSettings>,
    pub output: Option<OutputSettings>,
    pub file_ignore: Option<Vec<String>>,
}

impl Default for PromptSettings {
    fn default() -> (settings: PromptSettings)
        ensures
            settings.file_diff is None,
            settings.conventional_commit_prefix is None,
            settings.commit_summary is None,
            settings.commit_title is None,
            settings.translation is None,
    {
        PromptSettings {
            file_diff: None,
            conventional_commit_prefix: None,
            commit_summary: None,
            commit_title: None,
            translation: None,
        }
    }
}

impl Default for OutputSettings {
    fn default() -> (settings: OutputSettings)
        ensures
            settings.conventional_commit is None,
            settings.conventional_commit_prefix_format is None,
            settings.lang is None,
            settings.show_per_file_summary is None,
    {
        OutputSettings {
            conventional_commit: None,
            conventional_commit_prefix_format: None,
            lang: None,
            show_per_file_summary: None,
        }
    }
}

impl Default for Settings {
    fn default() -> (settings: Settings)
        ensures
            settings.prompt is None,
            settings.output is None,
            settings.file_ignore is None,
    {
        Settings { prompt: None, output: None, file_ignore: None }
    }
}

/// The text of `template`, or the empty text where none is given.
pub open spec fn text_or_empty(template: Option<String>) -> Seq<char> {
    match template {
        Some(text) => text@,
        None => Seq::empty(),
    }
}

/// The text of each string of `list`.
pub open spec fn texts(list: Seq<String>) -> Seq<Seq<char>> {
    list.map_values(|text: String| text@)
}

impl Settings {
    /// The substrings that mark a file name as ignored; none by default.
    pub open spec fn ignore_list(self) -> Seq<Seq<char>> {
        match self.file_ignore {
            Some(list) => texts(list@),
            None => Seq::empty(),
        }
    }

    /// The template of the prompt that summarizes one file; empty by default.
    pub open spec fn file_diff_template(self) -> Seq<char> {
        match self.prompt {
            Some(prompt) => text_or_empty(prompt.file_diff),
            None => Seq::empty(),
        }
    }

    /// The template of the prompt that classifies the change; empty by default.
    pub open spec fn classification_template(self) -> Seq<char> {
        match self.prompt {
            Some(prompt) => text_or_empty(prompt.conventional_commit_prefix),
            None => Seq::empty(),
        }
    }

    /// The template of the prompt for the body; empty by default.
    pub open spec fn body_template(self) -> Seq<char> {
        match self.prompt {
            Some(prompt) => text_or_empty(prompt.commit_summary),
            None => Seq::empty(),
        }
    }

    /// The template of the prompt for the title; empty by default.
    pub open spec fn title_template(self) -> Seq<char> {
        match self.prompt {
            Some(prompt) => text_or_empty(prompt.commit_title),
            None => Seq::empty(),
        }
    }

    /// The template of the prompt that translates the message; empty by default.
    pub open spec fn translation_template(self) -> Seq<char> {
        match self.prompt {
            Some(prompt) => text_or_empty(prompt.translation),
            None => Seq::empty(),
        }
    }

    /// Whether a classification is asked for; it is by default.
    pub open spec fn emits_classification(self) -> bool {
        match self.output {
            Some(output) => match output.conventional_commit {
                Some(emit) => emit,
                None => true,
            },
            None => true,
        }
    }

    /// The template that turns a classification into a prefix; empty by default.
    pub open spec fn classification_format(self) -> Seq<char> {
        match self.output {
            Some(output) => text_or_empty(output.conventional_commit_prefix_format),
            None => Seq::empty(),
        }
    }

    /// The configured language code; empty by default.
    pub open spec fn language_code(self) -> Seq<char> {
        match self.output {
            Some(output) => text_or_empty(output.lang),
            None => Seq::empty(),
        }
    }

    /// The configured language; English where the code names no language.
    pub open spec fn language(self) -> Language {
        match Language::with_code(self.language_code()) {
            Some(language) => language,
            None => Language::En,
        }
    }

    /// Whether the message lists the summary of each file; it does not by default.
    pub open spec fn shows_per_file_summary(self) -> bool {
        match self.output {
            Some(output) => match output.show_per_file_summary {
                Some(show) => show,
                None => false,
            },
            None => false,
        }
    }
}

} // verus!
