use commit_summarizer::pipeline::{Action, Event, Operation, Part, Progress, SummarizeError};
use commit_summarizer::settings::{Language, OutputSettings, PromptSettings, Settings};
use commit_summarizer::summarize::{
    aggregate, classify, collect_summaries, prepend, CompositionResult, DiffFragment, FileSummary,
    PendingFile, SummarizationClient,
};

fn fragment(file_name: &str, diff_text: &str) -> DiffFragment {
    DiffFragment { file_name: file_name.to_string(), diff_text: diff_text.to_string() }
}

fn summary(file_name: &str, summary_text: &str) -> FileSummary {
    FileSummary { file_name: file_name.to_string(), summary_text: summary_text.to_string() }
}

fn prompts() -> PromptSettings {
    PromptSettings {
        file_diff: Some("diff<{{ file_diff }}> message<{{ commit_message }}>".to_string()),
        conventional_commit_prefix: Some("classify<{{ summary_points }}>".to_string()),
        commit_summary: Some(
            "body<{{ summary_points }}>{% if commit_message %} message<{{ commit_message }}>{% endif %}"
                .to_string(),
        ),
        commit_title: Some("title<{{ summary_points }}> message<{{ commit_message }}>".to_string()),
        translation: Some("translate<{{ commit_message }}> into<{{ output_language }}>".to_string()),
    }
}

fn output() -> OutputSettings {
    OutputSettings {
        conventional_commit: None,
        conventional_commit_prefix_format: None,
        lang: None,
        show_per_file_summary: None,
    }
}

fn client_with(prompt: PromptSettings, output: OutputSettings, ignore: &[&str]) -> SummarizationClient {
    SummarizationClient::new(Settings {
        prompt: Some(prompt),
        output: Some(output),
        file_ignore: Some(ignore.iter().map(|text| text.to_string()).collect()),
    })
}

fn client(output: OutputSettings) -> SummarizationClient {
    client_with(prompts(), output, &[])
}

fn asked_prompts(action: Action) -> Vec<Option<String>> {
    match action {
        Action::Summarize { prompts } => prompts,
        other => panic!("expected the summaries to be asked for, got {:?}", other),
    }
}

fn summaries_in(progress: &Progress) -> Vec<(String, String)> {
    match progress {
        Progress::Composing { summaries } => summaries
            .iter()
            .map(|summary| (summary.file_name.clone(), summary.summary_text.clone()))
            .collect(),
        other => panic!("expected the composition to be awaited, got {:?}", other),
    }
}

fn done(action: Action) -> String {
    match action {
        Action::Done { message } => message,
        other => panic!("expected a message, got {:?}", other),
    }
}

fn failed(action: Action) -> SummarizeError {
    match action {
        Action::Fail { error } => error,
        other => panic!("expected a failure, got {:?}", other),
    }
}

fn composing(files: &[(&str, &str)]) -> Progress {
    Progress::Composing { summaries: files.iter().map(|(name, text)| summary(name, text)).collect() }
}

fn composed(title: &str, body: &str, classification: Option<&str>) -> Event {
    Event::Composed {
        title: title.to_string(),
        body: body.to_string(),
        classification: classification.map(String::from),
    }
}

/// Runs a whole message with completions that answer every prompt with `answer(prompt)`.
fn run(
    client: &SummarizationClient,
    fragments: &Vec<DiffFragment>,
    commit_message: &str,
    answer: &dyn Fn(&str) -> Result<String, String>,
) -> Result<String, SummarizeError> {
    let (mut progress, mut action) = client.get_commit_message(fragments, commit_message);
    loop {
        let event = match action {
            Action::Summarize { prompts } => Event::Summarized {
                answers: prompts
                    .iter()
                    .map(|prompt| prompt.as_ref().and_then(|prompt| answer(prompt).ok()))
                    .collect(),
            },
            Action::Compose { title, body, classification } => {
                let title = answer(&title);
                let body = answer(&body);
                let classification = classification.map(|prompt| answer(&prompt));
                match (title, body, classification) {
                    (Err(reason), _, _) => Event::CompositionFailed { part: Part::Title, reason },
                    (_, Err(reason), _) => Event::CompositionFailed { part: Part::Body, reason },
                    (_, _, Some(Err(reason))) => {
                        Event::CompositionFailed { part: Part::Classification, reason }
                    },
                    (Ok(title), Ok(body), classification) => Event::Composed {
                        title,
                        body,
                        classification: classification.map(|answer| answer.unwrap()),
                    },
                }
            },
            Action::Translate { prompt } => match answer(&prompt) {
                Ok(message) => Event::Translated { message },
                Err(reason) => Event::TranslationFailed { reason },
            },
            Action::Done { message } => return Ok(message),
            Action::Fail { error } => return Err(error),
        };
        let step = client.resume(progress, event);
        progress = step.0;
        action = step.1;
    }
}

fn scripted(prompt: &str) -> Result<String, String> {
    if prompt.starts_with("diff<") {
        Ok("- changed".to_string())
    } else if prompt.starts_with("title<") {
        Ok("Add x".to_string())
    } else if prompt.starts_with("body<") {
        Ok("- adds x".to_string())
    } else if prompt.starts_with("classify<") {
        Ok("chore".to_string())
    } else if prompt.starts_with("translate<") {
        Ok("訳文".to_string())
    } else {
        Err(format!("unexpected prompt {:?}", prompt))
    }
}

#[test]
fn settings_default_to_what_is_documented() {
    let client = SummarizationClient::new(Settings::default());
    assert!(client.file_ignore.is_empty());
    assert_eq!(client.prompt_file_diff, "");
    assert_eq!(client.prompt_conventional_commit_prefix, "");
    assert_eq!(client.prompt_commit_summary, "");
    assert_eq!(client.prompt_commit_title, "");
    assert_eq!(client.prompt_translation, "");
    assert!(client.output_conventional_commit);
    assert_eq!(client.output_conventional_commit_prefix_format, "");
    assert_eq!(client.output_lang, Language::En);
    assert!(!client.output_show_per_file_summary);
}

#[test]
fn empty_groups_of_settings_default_too() {
    let client = SummarizationClient::new(Settings {
        prompt: Some(PromptSettings::default()),
        output: Some(OutputSettings::default()),
        file_ignore: Some(Vec::new()),
    });
    assert_eq!(client.prompt_commit_title, "");
    assert!(client.output_conventional_commit);
    assert_eq!(client.output_lang, Language::En);
    assert!(!client.output_show_per_file_summary);
}

#[test]
fn settings_are_taken_as_given() {
    let client = client_with(
        prompts(),
        OutputSettings {
            conventional_commit: Some(false),
            conventional_commit_prefix_format: Some("{{ prefix }}: ".to_string()),
            lang: Some("zh-tw".to_string()),
            show_per_file_summary: Some(true),
        },
        &["lock", ".min."],
    );
    assert_eq!(client.file_ignore, vec!["lock", ".min."]);
    assert_eq!(client.prompt_file_diff, prompts().file_diff.unwrap());
    assert_eq!(client.prompt_conventional_commit_prefix, prompts().conventional_commit_prefix.unwrap());
    assert_eq!(client.prompt_commit_summary, prompts().commit_summary.unwrap());
    assert_eq!(client.prompt_commit_title, prompts().commit_title.unwrap());
    assert_eq!(client.prompt_translation, prompts().translation.unwrap());
    assert!(!client.output_conventional_commit);
    assert_eq!(client.output_conventional_commit_prefix_format, "{{ prefix }}: ");
    assert_eq!(client.output_lang, Language::ZhTw);
    assert!(client.output_show_per_file_summary);
}

#[test]
fn language_codes() {
    assert_eq!(Language::from_code("en"), Some(Language::En));
    assert_eq!(Language::from_code("zh-cn"), Some(Language::ZhCn));
    assert_eq!(Language::from_code("zh-tw"), Some(Language::ZhTw));
    assert_eq!(Language::from_code("ja"), Some(Language::Ja));
    assert_eq!(Language::from_code("EN"), None);
    assert_eq!(Language::from_code(""), None);
    assert_eq!(Language::from_code("fr"), None);
    for language in [Language::En, Language::ZhCn, Language::ZhTw, Language::Ja] {
        assert_eq!(Language::from_code(language.name()), Some(language));
    }
    assert_eq!(Language::default(), Language::En);
}

#[test]
fn unknown_language_falls_back_to_english() {
    let client = client(OutputSettings { lang: Some("klingon".to_string()), ..output() });
    assert_eq!(client.output_lang, Language::En);
}

#[test]
fn classification_is_normalized_and_accepted() {
    assert_eq!(classify("Feat "), "feat");
    assert_eq!(classify("feat"), "feat");
    assert_eq!(classify("\n  REFACTOR\t"), "refactor");
}

#[test]
fn classification_outside_the_vocabulary_is_rejected() {
    assert_eq!(classify("feature"), "");
    assert_eq!(classify("feat: add x"), "");
    assert_eq!(classify("fea"), "");
    assert_eq!(classify(""), "");
    assert_eq!(classify("   "), "");
    assert_eq!(classify("fix."), "");
    assert_eq!(classify("f i x"), "");
    assert_eq!(classify("ﬁx"), "");
}

#[test]
fn every_commit_type_is_accepted() {
    for token in ["build", "chore", "ci", "docs", "feat", "fix", "perf", "refactor", "style", "test"] {
        assert_eq!(classify(token), token);
        assert_eq!(classify(&format!("  {}\n", token.to_uppercase())), token);
    }
}

#[test]
fn ignore_list_matches_substrings_case_sensitively() {
    let client = client_with(prompts(), output(), &["README", ".lock"]);
    assert!(client.ignores("README.md"));
    assert!(client.ignores("docs/README"));
    assert!(client.ignores("Cargo.lock"));
    assert!(!client.ignores("readme.md"));
    assert!(!client.ignores("src/lib.rs"));
}

#[test]
fn empty_ignore_list_ignores_nothing() {
    let client = client(output());
    assert!(!client.ignores("README.md"));
    assert!(!client.ignores(""));
}

#[test]
fn ignored_file_gives_no_entry() {
    let client = client_with(prompts(), output(), &["README"]);
    assert!(client.process_file_diff(&fragment("README.md", "+ hello"), "msg").is_none());
    let (file, prompt) = client.process_file_diff(&fragment("lib.rs", "+ fn x() {}"), "msg").unwrap();
    assert_eq!(file.file_name, "lib.rs");
    assert!(file.asked);
    assert_eq!(prompt.unwrap(), "diff<+ fn x() {}> message<msg>");
}

#[test]
fn file_whose_prompt_cannot_be_rendered_is_kept_and_not_asked() {
    let client = client_with(
        PromptSettings { file_diff: Some("{{ no_such_variable }}".to_string()), ..prompts() },
        output(),
        &[],
    );
    let (file, prompt) = client.process_file_diff(&fragment("lib.rs", "+ fn x() {}"), "msg").unwrap();
    assert_eq!(file.file_name, "lib.rs");
    assert!(!file.asked);
    assert!(prompt.is_none());
}

#[test]
fn summary_keys_are_the_file_names_that_are_not_ignored() {
    let client = client_with(prompts(), output(), &["README", "lock"]);
    let fragments = vec![
        fragment("README.md", "+ a"),
        fragment("src/lib.rs", "+ b"),
        fragment("Cargo.lock", "+ c"),
        fragment("src/main.rs", "+ d"),
        fragment("readme.txt", "+ e"),
    ];
    let (progress, action) = client.get_commit_message(&fragments, "msg");
    let prompts = asked_prompts(action);
    assert_eq!(
        prompts,
        vec![
            Some("diff<+ b> message<msg>".to_string()),
            Some("diff<+ d> message<msg>".to_string()),
            Some("diff<+ e> message<msg>".to_string()),
        ]
    );
    let answers = vec![Some("one".to_string()), None, Some("three".to_string())];
    let (progress, _) = client.resume(progress, Event::Summarized { answers });
    assert_eq!(
        summaries_in(&progress),
        vec![
            ("src/lib.rs".to_string(), "one".to_string()),
            ("src/main.rs".to_string(), "".to_string()),
            ("readme.txt".to_string(), "three".to_string()),
        ]
    );
}

#[test]
fn failed_file_summary_is_empty_and_the_message_is_still_made() {
    let client = client(OutputSettings { show_per_file_summary: Some(true), ..output() });
    let fragments = vec![fragment("a.rs", "+ a"), fragment("b.rs", "+ b")];
    let answer = |prompt: &str| {
        if prompt.starts_with("diff<+ a>") {
            Err("timeout".to_string())
        } else {
            scripted(prompt)
        }
    };
    let (progress, action) = client.get_commit_message(&fragments, "");
    let answers = asked_prompts(action).iter().map(|prompt| answer(prompt.as_ref().unwrap()).ok()).collect();
    let (progress, action) = client.resume(progress, Event::Summarized { answers });
    assert_eq!(
        summaries_in(&progress),
        vec![("a.rs".to_string(), "".to_string()), ("b.rs".to_string(), "- changed".to_string())]
    );
    match action {
        Action::Compose { title, .. } => assert_eq!(title, "title<[a.rs]\n\n[b.rs]\n- changed> message<>"),
        other => panic!("expected the composition to be asked for, got {:?}", other),
    }
    let message = run(&client, &fragments, "", &answer).unwrap();
    assert_eq!(message, "Add x\n\n- adds x\n\n[b.rs]\n- changed");
}

#[test]
fn missing_answers_count_as_failures() {
    let files = vec![
        PendingFile { file_name: "a".to_string(), asked: true },
        PendingFile { file_name: "b".to_string(), asked: false },
        PendingFile { file_name: "c".to_string(), asked: true },
    ];
    let answers = vec![Some("A".to_string()), Some("B".to_string())];
    let summaries = collect_summaries(&files, &answers);
    let got: Vec<(&str, &str)> =
        summaries.iter().map(|s| (s.file_name.as_str(), s.summary_text.as_str())).collect();
    assert_eq!(got, vec![("a", "A"), ("b", ""), ("c", "")]);
}

#[test]
fn file_prompt_that_cannot_be_rendered_gives_an_empty_summary() {
    let client = client_with(
        PromptSettings { file_diff: Some("{{ no_such_variable }}".to_string()), ..prompts() },
        output(),
        &[],
    );
    let fragments = vec![fragment("lib.rs", "+ fn x() {}")];
    let (progress, action) = client.get_commit_message(&fragments, "msg");
    assert_eq!(asked_prompts(action), vec![None]);
    let (progress, action) = client.resume(progress, Event::Summarized { answers: vec![None] });
    assert_eq!(summaries_in(&progress), vec![("lib.rs".to_string(), "".to_string())]);
    assert!(matches!(action, Action::Compose { .. }));
}

#[test]
fn aggregate_block_lists_every_summary_in_order() {
    assert_eq!(aggregate(&vec![]), "");
    assert_eq!(aggregate(&vec![summary("lib.rs", "- added x")]), "[lib.rs]\n- added x");
    assert_eq!(
        aggregate(&vec![summary("a", "one\ntwo"), summary("b", ""), summary("c", "three")]),
        "[a]\none\ntwo\n[b]\n\n[c]\nthree"
    );
}

#[test]
fn ignored_readme_leaves_one_entry_and_its_block() {
    let client = client_with(prompts(), output(), &["README"]);
    let fragments = vec![fragment("README.md", "+ hello"), fragment("lib.rs", "+ fn x() {}")];
    let (progress, action) = client.get_commit_message(&fragments, "msg");
    let prompts = asked_prompts(action);
    assert_eq!(prompts, vec![Some("diff<+ fn x() {}> message<msg>".to_string())]);
    let (progress, action) =
        client.resume(progress, Event::Summarized { answers: vec![Some("<summary>".to_string())] });
    assert_eq!(summaries_in(&progress), vec![("lib.rs".to_string(), "<summary>".to_string())]);
    match &progress {
        Progress::Composing { summaries } => assert_eq!(aggregate(summaries), "[lib.rs]\n<summary>"),
        other => panic!("expected the composition to be awaited, got {:?}", other),
    }
    match action {
        Action::Compose { title, body, classification } => {
            assert_eq!(title, "title<[lib.rs]\n<summary>> message<msg>");
            assert_eq!(body, "body<[lib.rs]\n<summary>> message<msg>");
            assert_eq!(classification.unwrap(), "classify<[lib.rs]\n<summary>>");
        },
        other => panic!("expected the composition to be asked for, got {:?}", other),
    }
}

#[test]
fn appendix_holds_only_the_summaries_that_are_not_empty() {
    let client = client(OutputSettings { show_per_file_summary: Some(true), ..output() });
    let composition =
        CompositionResult { title: "T".to_string(), body: "- b".to_string(), prefix: String::new() };
    let summaries = vec![summary("empty.rs", ""), summary("full.rs", "- added X")];
    let message = client.assemble(&composition, &summaries);
    assert_eq!(message, "T\n\n- b\n\n[full.rs]\n- added X");
    assert!(!message.contains("[empty.rs]"));
}

#[test]
fn appendix_is_left_out_unless_asked_for() {
    let client = client(output());
    let composition =
        CompositionResult { title: "T".to_string(), body: "- b".to_string(), prefix: String::new() };
    let summaries = vec![summary("full.rs", "- added X")];
    assert_eq!(client.assemble(&composition, &summaries), "T\n\n- b\n");
}

#[test]
fn assembled_message_has_no_line_twice_in_a_row() {
    let client = client(OutputSettings { show_per_file_summary: Some(true), ..output() });
    let composition = CompositionResult {
        title: "T".to_string(),
        body: "- b\n- b\n- c\n- b".to_string(),
        prefix: String::new(),
    };
    let summaries = vec![summary("a", "- x\n- x"), summary("b", "- x")];
    assert_eq!(client.assemble(&composition, &summaries), "T\n\n- b\n- c\n- b\n\n[a]\n- x\n[b]\n- x");
}

#[test]
fn compose_validates_the_classification() {
    let emitting = client(output());
    let composition = emitting.compose("T".to_string(), "B".to_string(), Some(" Fix\n".to_string()));
    assert_eq!(composition.title, "T");
    assert_eq!(composition.body, "B");
    assert_eq!(composition.prefix, "fix");
    assert_eq!(emitting.compose("T".to_string(), "B".to_string(), Some("bugfix".to_string())).prefix, "");
    assert_eq!(emitting.compose("T".to_string(), "B".to_string(), None).prefix, "");
    let silent = client(OutputSettings { conventional_commit: Some(false), ..output() });
    assert_eq!(silent.compose("T".to_string(), "B".to_string(), Some("fix".to_string())).prefix, "");
}

#[test]
fn without_classification_none_is_asked_and_no_prefix_is_set() {
    let client = client(OutputSettings {
        conventional_commit: Some(false),
        conventional_commit_prefix_format: Some("[{{ prefix }}] ".to_string()),
        ..output()
    });
    assert!(matches!(client.conventional_commit_prefix("points"), Ok(None)));
    let (progress, action) = client.resume(
        Progress::Summarizing { files: Vec::new(), commit_message: String::new() },
        Event::Summarized { answers: Vec::new() },
    );
    match action {
        Action::Compose { classification, .. } => assert!(classification.is_none()),
        other => panic!("expected the composition to be asked for, got {:?}", other),
    }
    let (_, action) = client.resume(progress, composed("T", "B", Some("chore")));
    assert_eq!(done(action), "T\n\nB\n");
    let asked = std::cell::Cell::new(false);
    let answer = |prompt: &str| {
        if prompt.starts_with("classify<") {
            asked.set(true);
        }
        scripted(prompt)
    };
    let message = run(&client, &vec![fragment("lib.rs", "+ x")], "", &answer).unwrap();
    assert_eq!(message, "Add x\n\n- adds x\n");
    assert!(!asked.get());
}

#[test]
fn classification_prompt_is_rendered_where_wanted() {
    let client = client(output());
    assert_eq!(client.conventional_commit_prefix("points").unwrap().unwrap(), "classify<points>");
}

#[test]
fn english_is_not_translated() {
    let client = client(output());
    assert!(matches!(client.commit_translate("Add x"), Ok(None)));
    let (progress, action) = client.resume(composing(&[]), composed("T", "B", None));
    assert!(matches!(progress, Progress::Finished));
    assert_eq!(done(action), "T\n\nB\n");
    let asked = std::cell::Cell::new(false);
    let answer = |prompt: &str| {
        if prompt.starts_with("translate<") {
            asked.set(true);
        }
        scripted(prompt)
    };
    run(&client, &vec![fragment("lib.rs", "+ x")], "", &answer).unwrap();
    assert!(!asked.get());
}

#[test]
fn other_language_is_translated_and_then_prefixed() {
    let client = client(OutputSettings {
        lang: Some("ja".to_string()),
        conventional_commit_prefix_format: Some("{{ prefix }}: ".to_string()),
        ..output()
    });
    assert_eq!(client.commit_translate("Add x").unwrap().unwrap(), "translate<Add x> into<ja>");
    let (progress, action) = client.resume(composing(&[]), composed("T", "B", Some("Feat ")));
    match &progress {
        Progress::Translating { prefix } => assert_eq!(prefix, "feat"),
        other => panic!("expected the translation to be awaited, got {:?}", other),
    }
    match &action {
        Action::Translate { prompt } => assert_eq!(prompt, "translate<T\n\nB\n> into<ja>"),
        other => panic!("expected the translation to be asked for, got {:?}", other),
    }
    let (progress, action) = client.resume(progress, Event::Translated { message: "訳文".to_string() });
    assert!(matches!(progress, Progress::Finished));
    assert_eq!(done(action), "feat: 訳文");
}

#[test]
fn classification_becomes_the_formatted_prefix() {
    let client = client(OutputSettings {
        conventional_commit_prefix_format: Some("[{{ prefix }}] ".to_string()),
        ..output()
    });
    let message = run(&client, &vec![fragment("lib.rs", "+ fn x() {}")], "", &scripted).unwrap();
    assert!(message.starts_with("[chore] "));
    assert_eq!(message, "[chore] Add x\n\n- adds x\n");
}

#[test]
fn empty_prefix_format_adds_nothing() {
    let client = client(output());
    let message = run(&client, &vec![fragment("lib.rs", "+ fn x() {}")], "", &scripted).unwrap();
    assert_eq!(message, "Add x\n\n- adds x\n");
    assert_eq!(client.with_prefix("chore", "Add x".to_string()).unwrap(), "Add x");
}

#[test]
fn prefix_is_put_before_the_message() {
    let client = client(OutputSettings {
        conventional_commit_prefix_format: Some("{{ prefix }}: ".to_string()),
        ..output()
    });
    assert_eq!(client.with_prefix("fix", "Mend y".to_string()).unwrap(), "fix: Mend y");
    assert_eq!(client.with_prefix("", "Mend y".to_string()).unwrap(), "Mend y");
}

#[test]
fn rejected_classification_leaves_the_message_without_prefix() {
    let client = client(OutputSettings {
        conventional_commit_prefix_format: Some("[{{ prefix }}] ".to_string()),
        ..output()
    });
    let (_, action) = client.resume(composing(&[]), composed("T", "B", Some("feature")));
    assert_eq!(done(action), "T\n\nB\n");
}

#[test]
fn failed_composition_gives_an_error_and_no_message() {
    let client = client(output());
    for (start, part, operation) in [
        ("title<", Part::Title, Operation::Title),
        ("body<", Part::Body, Operation::Body),
        ("classify<", Part::Classification, Operation::Classification),
    ] {
        let answer = |prompt: &str| {
            if prompt.starts_with(start) {
                Err("no answer".to_string())
            } else {
                scripted(prompt)
            }
        };
        match run(&client, &vec![fragment("lib.rs", "+ x")], "", &answer) {
            Err(SummarizeError::Completion { operation: failed, message }) => {
                assert_eq!(failed, operation);
                assert_eq!(message, "no answer");
            },
            other => panic!("expected a failed completion, got {:?}", other),
        }
        let (progress, action) = client.resume(
            composing(&[("lib.rs", "s")]),
            Event::CompositionFailed { part, reason: "no answer".to_string() },
        );
        assert!(matches!(progress, Progress::Finished));
        assert!(matches!(failed(action), SummarizeError::Completion { .. }));
    }
}

#[test]
fn failed_translation_gives_an_error() {
    let client = client(OutputSettings { lang: Some("zh-cn".to_string()), ..output() });
    let answer = |prompt: &str| {
        if prompt.starts_with("translate<") {
            Err("no answer".to_string())
        } else {
            scripted(prompt)
        }
    };
    match run(&client, &vec![fragment("lib.rs", "+ x")], "", &answer) {
        Err(SummarizeError::Completion { operation, message }) => {
            assert_eq!(operation, Operation::Translation);
            assert_eq!(message, "no answer");
        },
        other => panic!("expected a failed completion, got {:?}", other),
    }
}

#[test]
fn template_that_cannot_be_rendered_ends_the_work() {
    let broken = Some("{{ no_such_variable }}".to_string());
    let cases = [
        (PromptSettings { commit_title: broken.clone(), ..prompts() }, output(), Operation::Title),
        (PromptSettings { commit_summary: broken.clone(), ..prompts() }, output(), Operation::Body),
        (
            PromptSettings { conventional_commit_prefix: broken.clone(), ..prompts() },
            output(),
            Operation::Classification,
        ),
        (
            PromptSettings { translation: broken.clone(), ..prompts() },
            OutputSettings { lang: Some("ja".to_string()), ..output() },
            Operation::Translation,
        ),
        (
            prompts(),
            OutputSettings { conventional_commit_prefix_format: broken.clone(), ..output() },
            Operation::PrefixFormat,
        ),
    ];
    for (prompt, output, expected) in cases {
        let client = client_with(prompt, output, &[]);
        match run(&client, &vec![fragment("lib.rs", "+ x")], "", &scripted) {
            Err(SummarizeError::Render { operation, message }) => {
                assert_eq!(operation, expected);
                assert!(message.contains("no_such_variable"));
            },
            other => panic!("expected a template failure for {:?}, got {:?}", expected, other),
        }
    }
}

#[test]
fn broken_classification_template_is_harmless_where_none_is_wanted() {
    let client = client_with(
        PromptSettings { conventional_commit_prefix: Some("{{ broken".to_string()), ..prompts() },
        OutputSettings { conventional_commit: Some(false), ..output() },
        &[],
    );
    assert!(run(&client, &vec![fragment("lib.rs", "+ x")], "", &scripted).is_ok());
}

#[test]
fn event_out_of_turn_ends_the_work() {
    let client = client(output());
    let steps = [
        (Progress::Finished, Event::Translated { message: "m".to_string() }),
        (Progress::Finished, Event::Summarized { answers: Vec::new() }),
        (composing(&[]), Event::Translated { message: "m".to_string() }),
        (composing(&[]), Event::Summarized { answers: Vec::new() }),
        (Progress::Translating { prefix: String::new() }, composed("T", "B", None)),
        (
            Progress::Summarizing { files: Vec::new(), commit_message: String::new() },
            Event::TranslationFailed { reason: "r".to_string() },
        ),
    ];
    for (progress, event) in steps {
        let (progress, action) = client.resume(progress, event);
        assert!(matches!(progress, Progress::Finished));
        assert!(matches!(failed(action), SummarizeError::OutOfTurn));
    }
}

#[test]
fn no_fragments_still_make_a_message() {
    let client = client(output());
    let (progress, action) = client.get_commit_message(&Vec::new(), "msg");
    assert!(asked_prompts(action).is_empty());
    let (_, action) = client.resume(progress, Event::Summarized { answers: Vec::new() });
    match action {
        Action::Compose { title, .. } => assert_eq!(title, "title<> message<msg>"),
        other => panic!("expected the composition to be asked for, got {:?}", other),
    }
}

#[test]
fn whole_message_with_every_part() {
    let client = client_with(
        prompts(),
        OutputSettings {
            conventional_commit: Some(true),
            conventional_commit_prefix_format: Some("{{ prefix }}: ".to_string()),
            lang: Some("en".to_string()),
            show_per_file_summary: Some(true),
        },
        &["lock"],
    );
    let fragments = vec![fragment("Cargo.lock", "+ dep"), fragment("src/a.rs", "+ a"), fragment("src/b.rs", "+ b")];
    let message = run(&client, &fragments, "wip", &scripted).unwrap();
    assert_eq!(message, "chore: Add x\n\n- adds x\n\n[src/a.rs]\n- changed\n[src/b.rs]\n- changed");
}

fn echo(prompt: &str) -> Result<String, String> {
    Ok(prompt.to_string())
}

fn literal_client(body: &str, emit: bool, format: &str) -> SummarizationClient {
    client_with(
        PromptSettings {
            file_diff: Some("D".to_string()),
            conventional_commit_prefix: Some("chore".to_string()),
            commit_summary: Some(body.to_string()),
            commit_title: Some("T".to_string()),
            translation: Some("X".to_string()),
        },
        OutputSettings {
            conventional_commit: Some(emit),
            conventional_commit_prefix_format: Some(format.to_string()),
            ..output()
        },
        &[],
    )
}

#[test]
fn literal_templates_are_the_prompts() {
    let client = literal_client("B", false, "[{{ prefix }}] ");
    let sent = std::cell::RefCell::new(Vec::new());
    let answer = |prompt: &str| {
        sent.borrow_mut().push(prompt.to_string());
        echo(prompt)
    };
    assert_eq!(run(&client, &Vec::new(), "", &answer).unwrap(), "T\n\nB\n");
    assert_eq!(*sent.borrow(), vec!["T", "B"]);
}

#[test]
fn repeated_line_of_the_body_is_removed_once() {
    let client = literal_client("A\nA\nB\nA", false, "");
    assert_eq!(run(&client, &Vec::new(), "", &echo).unwrap(), "T\n\nA\nB\nA\n");
}

#[test]
fn echoed_classification_becomes_the_prefix() {
    let client = literal_client("B", true, "[{{ prefix }}] ");
    assert_eq!(run(&client, &Vec::new(), "", &echo).unwrap(), "[chore] T\n\nB\n");
}

#[test]
fn malformed_prefix_format_gives_no_message() {
    let client = literal_client("B", true, "{{ prefix");
    match run(&client, &Vec::new(), "", &echo) {
        Err(SummarizeError::Render { operation, .. }) => assert_eq!(operation, Operation::PrefixFormat),
        other => panic!("expected the format to fail, got {:?}", other),
    }
}

#[test]
fn unsupported_template_ends_the_work() {
    let client = client_with(
        PromptSettings { commit_title: Some("{{ summary_points | upper }}".to_string()), ..prompts() },
        output(),
        &[],
    );
    match run(&client, &vec![fragment("lib.rs", "+ x")], "", &scripted) {
        Err(SummarizeError::Render { operation, message }) => {
            assert_eq!(operation, Operation::Title);
            assert!(message.contains("not supported"));
        },
        other => panic!("expected the title template to be refused, got {:?}", other),
    }
}

#[test]
fn unsupported_file_template_gives_empty_summaries() {
    let client = client_with(
        PromptSettings { file_diff: Some("{{ file_diff | truncate(length=10) }}".to_string()), ..prompts() },
        output(),
        &[],
    );
    let (progress, action) = client.get_commit_message(&vec![fragment("lib.rs", "+ x")], "");
    assert_eq!(asked_prompts(action), vec![None]);
    let (progress, _) = client.resume(progress, Event::Summarized { answers: vec![None] });
    assert_eq!(summaries_in(&progress), vec![("lib.rs".to_string(), "".to_string())]);
}

#[test]
fn prepend_puts_the_head_directly_before_the_message() {
    assert_eq!(prepend("[chore] ", "Add x\n\n- adds x\n"), "[chore] Add x\n\n- adds x\n");
    assert_eq!(prepend("", "Add x"), "Add x");
    assert_eq!(prepend("fix: ", ""), "fix: ");
    assert_eq!(prepend("修正: ", "訳文"), "修正: 訳文");
}

#[test]
fn unsupported_title_template_is_reported_before_the_body() {
    let refused = Some("{{ summary_points | upper }}".to_string());
    let client = client_with(
        PromptSettings { commit_title: refused.clone(), commit_summary: refused.clone(), ..prompts() },
        output(),
        &[],
    );
    match run(&client, &Vec::new(), "", &scripted) {
        Err(SummarizeError::Render { operation, .. }) => assert_eq!(operation, Operation::Title),
        other => panic!("expected the title template to be refused, got {:?}", other),
    }
    let client = client_with(
        PromptSettings {
            commit_summary: refused.clone(),
            conventional_commit_prefix: refused.clone(),
            ..prompts()
        },
        output(),
        &[],
    );
    match run(&client, &Vec::new(), "", &scripted) {
        Err(SummarizeError::Render { operation, .. }) => assert_eq!(operation, Operation::Body),
        other => panic!("expected the body template to be refused, got {:?}", other),
    }
}
