use commit_summarizer::prompt::{format_prompt, PromptError};
use commit_summarizer::template::{is_literal_text, is_supported};
use commit_summarizer::text::chars_of;

fn supported(template: &str) -> bool {
    is_supported(&chars_of(template))
}

#[test]
fn renders_a_variable() {
    let rendered = format_prompt("Summarize: {{ file_diff }}", &[("file_diff", "+ fn x() {}")]);
    assert_eq!(rendered.unwrap(), "Summarize: + fn x() {}");
}

#[test]
fn renders_every_variable_it_is_given() {
    let rendered = format_prompt(
        "{{ summary_points }} / {{ commit_message }}",
        &[("summary_points", "points"), ("commit_message", "message")],
    );
    assert_eq!(rendered.unwrap(), "points / message");
}

#[test]
fn does_not_escape_values() {
    let rendered = format_prompt("{{ file_diff }}", &[("file_diff", "<a href=\"x\">&</a>")]);
    assert_eq!(rendered.unwrap(), "<a href=\"x\">&</a>");
}

#[test]
fn ignores_variables_that_the_template_does_not_name() {
    let rendered = format_prompt("{{ a }}", &[("a", "1"), ("b", "2")]);
    assert_eq!(rendered.unwrap(), "1");
}

#[test]
fn fails_on_a_variable_that_is_not_bound() {
    let rendered = format_prompt("{{ missing }}", &[("present", "1")]);
    match rendered.unwrap_err() {
        PromptError::Failed { message } => assert!(message.contains("missing")),
        other => panic!("expected the renderer to fail, got {:?}", other),
    }
}

#[test]
fn fails_without_any_binding() {
    assert!(format_prompt("{{ a }}", &[]).is_err());
}

#[test]
fn fails_on_a_malformed_template() {
    assert!(matches!(format_prompt("{{ a", &[("a", "1")]), Err(PromptError::Unsupported)));
    assert!(matches!(format_prompt("{% if a %}open", &[("a", "1")]), Err(PromptError::Failed { .. })));
    assert!(matches!(format_prompt("{% endif %}", &[]), Err(PromptError::Failed { .. })));
    assert!(matches!(format_prompt("{% else %}", &[]), Err(PromptError::Failed { .. })));
}

#[test]
fn later_binding_of_a_name_counts() {
    let rendered = format_prompt("{{ a }}", &[("a", "first"), ("a", "second")]);
    assert_eq!(rendered.unwrap(), "second");
}

#[test]
fn literal_text_comes_out_unchanged() {
    let texts = [
        "",
        "plain",
        "  two\nlines \r\n",
        "}} %} #} }",
        "ünï cödé \u{3000}",
        "[chore] ",
        "{",
        "a{",
        "{ a }",
        "fn x() { y() }",
        "{ {",
        "{-{ a }}",
        "{ % if a % }",
        "{}{}",
        "50% of {all}",
        "1.5 + 2 % 3 | upper",
    ];
    for text in texts {
        assert!(supported(text));
        assert_eq!(format_prompt(text, &[]).unwrap(), text);
        assert_eq!(format_prompt(text, &[("a", "1")]).unwrap(), text);
    }
}

#[test]
fn understands_conditional_blocks() {
    let template = "{% if commit_message %}Context: {{ commit_message }}. {% endif %}Points: {{ summary_points }}";
    let with = format_prompt(template, &[("summary_points", "p"), ("commit_message", "m")]);
    assert_eq!(with.unwrap(), "Context: m. Points: p");
    let without = format_prompt(template, &[("summary_points", "p"), ("commit_message", "")]);
    assert_eq!(without.unwrap(), "Points: p");
}

const REFUSED: [&str; 36] = [
    "{{ -9223372036854775808 % -1 }}",
    "{{ 5 % 2 }}",
    "{{ 1.5 }}",
    "{{ 1.0 + 2.0 }}",
    "{{ a + 1 }}",
    "{{ a - 1 }}",
    "{{ a * 2 }}",
    "{{ a / 2 }}",
    "{{ 1 }}",
    "{{ -1 }}",
    "{{ 1a }}",
    "{{ \"text\" }}",
    "{{ 'text' }}",
    "{{ a ~ b }}",
    "{{ a | upper }}",
    "{{ a | slice(start=2, end=1) }}",
    "{{ range(end=3) }}",
    "{{ get_env(name=\"HOME\") }}",
    "{{ a.b }}",
    "{{ a[0] }}",
    "{{ a b }}",
    "{{ }}",
    "{{}}",
    "{{ a",
    "{{ a }",
    "{{ a %}",
    "{% if a == b %}x{% endif %}",
    "{% if a and b %}x{% endif %}",
    "{% if %}x{% endif %}",
    "{% ifa %}x{% endif %}",
    "{% for c in a %}{{ c }}{% endfor %}",
    "{% raw %}{{ a }}{% endraw %}",
    "{% set b = a %}",
    "{% include \"other\" %}",
    "{% else a %}",
    "{# never closed",
];

#[test]
fn templates_with_other_tags_are_refused() {
    for template in REFUSED {
        assert!(!supported(template), "{:?}", template);
        let rendered = format_prompt(template, &[("a", "1"), ("b", "2")]);
        assert!(matches!(rendered, Err(PromptError::Unsupported)), "{:?}", template);
    }
}

#[test]
fn float_with_too_many_digits_is_refused() {
    let template = format!("{{{{ 1{}.0 }}}}", "0".repeat(400));
    assert!(matches!(format_prompt(&template, &[]), Err(PromptError::Unsupported)));
}

#[test]
fn refused_template_is_refused_inside_literal_text_too() {
    let template = "Summarize:\n{{ file_diff }}\nin {{ 100 % 7 }} words";
    assert!(matches!(format_prompt(template, &[("file_diff", "+ x")]), Err(PromptError::Unsupported)));
}

#[test]
fn supported_tags_are_rendered() {
    let variables = [("a", "1"), ("b", ""), ("long_name_2", "x")];
    let cases = [
        ("{{a}}", "1"),
        ("{{ a }}", "1"),
        ("{{\ta\r\n}}", "1"),
        ("{{ long_name_2 }}", "x"),
        ("{{ _x }}{# the name may start with an underscore #}", ""),
        (" x {{- a -}} y ", " x1y "),
        ("{{-a-}}", "1"),
        ("{% if a %}yes{% endif %}", "yes"),
        ("{% if b %}yes{% endif %}", ""),
        ("{% if b %}yes{% else %}no{% endif %}", "no"),
        ("{% if b %}one{% elif a %}two{% else %}three{% endif %}", "two"),
        ("{% if missing %}yes{% else %}no{% endif %}", "no"),
        ("{%if a%}yes{%endif%}", "yes"),
        ("{%- if a -%} yes {%- endif -%}", "yes"),
        ("{%\nif\ta\n%}yes{% endif %}", "yes"),
        ("{% if a %}{% if a %}in{% endif %}{% endif %}", "in"),
        ("a{# a note with {{ tags }} and % signs #}b", "ab"),
        ("a {#- trimmed -#} b", "ab"),
        ("{ {{ a }} }", "{ 1 }"),
        ("{{ a }}{{ a }}", "11"),
    ];
    for (template, expected) in cases {
        assert!(supported(template), "{:?}", template);
        if template.contains("_x") {
            assert!(matches!(format_prompt(template, &variables), Err(PromptError::Failed { .. })));
        } else {
            assert_eq!(format_prompt(template, &variables).unwrap(), expected, "{:?}", template);
        }
    }
}

#[test]
fn if_blocks_nest_up_to_the_limit() {
    let nested = |depth: usize| format!("{}x{}", "{% if a %}".repeat(depth), "{% endif %}".repeat(depth));
    assert_eq!(format_prompt(&nested(16), &[("a", "1")]).unwrap(), "x");
    assert!(matches!(format_prompt(&nested(17), &[("a", "1")]), Err(PromptError::Unsupported)));
    let flat = "{% if a %}x{% endif %}".repeat(40);
    assert_eq!(format_prompt(&flat, &[("a", "1")]).unwrap(), "x".repeat(40));
}

#[test]
fn equal_arguments_give_equal_text() {
    let template = "a {{ a }} { b }";
    let first = format_prompt(template, &[("a", "1")]).unwrap();
    let second = format_prompt(template, &[("a", "1")]).unwrap();
    assert_eq!(first, second);
}

const PIECES: [&str; 18] = [
    "{{ -9223372036854775808 % -1 }}",
    "{% raw %}",
    "{% endraw %}",
    "{#",
    "#}",
    "\"",
    "'",
    "`",
    "{{",
    "}}",
    "{%",
    "%}",
    " a ",
    "{{ a }}",
    "{% if a %}",
    "{% endif %}",
    "{% else %}",
    "-",
];

fn render_if_supported(template: &str) -> usize {
    if !supported(template) {
        assert!(matches!(format_prompt(template, &[("a", "1")]), Err(PromptError::Unsupported)));
        return 0;
    }
    match format_prompt(template, &[("a", "1")]) {
        Ok(text) => assert!(!text.contains("9223372036854775808") || template.contains("{#")),
        Err(error) => assert!(matches!(error, PromptError::Failed { .. })),
    }
    1
}

#[test]
fn supported_templates_never_reach_an_operator() {
    let mut rendered = 0;
    for first in PIECES {
        rendered += render_if_supported(first);
        for second in PIECES {
            let two = format!("{}{}", first, second);
            rendered += render_if_supported(&two);
            for third in PIECES {
                let three = format!("{}{}", two, third);
                rendered += render_if_supported(&three);
                for fourth in PIECES {
                    let four = format!("{}{}", three, fourth);
                    if supported(&four) && four.contains('{') {
                        rendered += render_if_supported(&four);
                    }
                }
            }
        }
    }
    assert!(rendered > 1000);
}

#[test]
fn literal_text_is_told_from_templates_with_tags() {
    for text in ["", "plain", "{", "{ a }", "fn x() { y() }", "}}", "%}", "{-{", "a{"] {
        assert!(is_literal_text(&chars_of(text)), "{:?}", text);
    }
    for text in ["{{", "{%", "{#", "a {{ b }}", "{{{", "x{#", "{ {%", "{{ 1 % 0 }}"] {
        assert!(!is_literal_text(&chars_of(text)), "{:?}", text);
    }
}
