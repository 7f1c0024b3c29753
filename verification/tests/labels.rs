use promchart::error::TemplateFailure;
use promchart::labels::{label_from, LabelRenderer};
use promchart::{format_label, render_labels, Error, Labels};

fn labels(pairs: &[(&str, &str)]) -> Labels {
    let mut l = Labels::new();
    for (k, v) in pairs {
        l.insert(k.to_string(), v.to_string());
    }
    l
}

#[test]
fn canonical_text_of_name_and_one_label() {
    let l = labels(&[("__name__", "cpu"), ("mode", "idle")]);
    assert_eq!(render_labels(&l), "cpu{mode=\"idle\"}");
    assert_eq!(format_label(&l, None).unwrap(), "cpu{mode=\"idle\"}");
}

#[test]
fn template_renders_a_label() {
    let l = labels(&[("__name__", "cpu"), ("mode", "idle")]);
    assert_eq!(format_label(&l, Some("{{mode}}")).unwrap(), "idle");
    assert_eq!(format_label(&l, Some("{{ __name__ }}/{{ mode }}")).unwrap(), "cpu/idle");
    assert_eq!(format_label(&l, Some("fixed")).unwrap(), "fixed");
}

#[test]
fn malformed_template_is_an_error() {
    let l = labels(&[("mode", "idle")]);
    for tmpl in ["{{ mode", "{{", "{{}}", "{{ }}", "{{ 1 }}", "{{ mode mode }}", "a {{ mode }"] {
        assert!(
            matches!(format_label(&l, Some(tmpl)), Err(Error::Template(TemplateFailure::Form))),
            "{}",
            tmpl
        );
    }
}

#[test]
fn unknown_variable_is_an_error() {
    let l = labels(&[("mode", "idle")]);
    assert!(matches!(
        format_label(&l, Some("{{ instance }}")),
        Err(Error::Template(TemplateFailure::Engine(_)))
    ));
    assert!(matches!(
        format_label(&l, Some("{{ mode }} on {{ instance }}")),
        Err(Error::Template(TemplateFailure::Engine(_)))
    ));
}

#[test]
fn more_than_text_and_tags_is_refused() {
    let l = labels(&[("mode", "idle")]);
    let long_number = format!("{{{{ 1{}.5 }}}}", "0".repeat(320));
    let refused = [
        "{{ -9223372036854775808 % -1 }}",
        long_number.as_str(),
        "{{ mode | upper }}",
        "{{ mode ~ mode }}",
        "{{ now() }}",
        "{{ get_env(name=\"HOME\") }}",
        "{{ get_random(end=9) }}",
        "{{ mode.len }}",
        "{{- mode -}}",
        "{{\tmode}}",
        "{% if mode %}x{% endif %}",
        "{% raw %}{{ mode }}{% endraw %}",
        "{# note #}",
        "text {%",
        "text {#",
    ];
    for tmpl in refused {
        assert!(
            matches!(format_label(&l, Some(tmpl)), Err(Error::Template(TemplateFailure::Form))),
            "{}",
            tmpl
        );
    }
}

#[test]
fn text_and_tags_are_rendered() {
    let l = labels(&[("__name__", "cpu"), ("mode", "idle"), ("cpu_0", "x")]);
    let cases = [
        ("", ""),
        ("plain", "plain"),
        ("{{mode}}", "idle"),
        ("{{   mode   }}", "idle"),
        ("{{mode}}{{mode}}", "idleidle"),
        ("<{{ __name__ }}:{{ cpu_0 }}>", "<cpu:x>"),
        ("{ {mode} } }} { %", "{ {mode} } }} { %"),
        ("{", "{"),
        ("100% {{ mode }} #1", "100% idle #1"),
        ("é {{ mode }} ü", "é idle ü"),
    ];
    for (tmpl, text) in cases {
        assert_eq!(format_label(&l, Some(tmpl)).unwrap(), text, "{}", tmpl);
    }
}

#[test]
fn every_key_shaped_tag_gets_an_answer() {
    let l = labels(&[("mode", "idle"), ("a.b", "c"), ("", "d"), ("true", "e")]);
    for tmpl in [
        "{{ true }}",
        "{{ false }}",
        "{{ True }}",
        "{{ trueish }}",
        "{{ falsehood }}",
        "{{ not }}",
        "{{ and }}",
        "{{ or }}",
        "{{ in }}",
        "{{ is }}",
        "{{ this }}",
        "{{ loop }}",
        "{{ super }}",
        "{{ __tera_context }}",
        "{{ _ }}",
        "{{ a }}",
        "{{ A9_z }}",
        "{{ mode }}{{ true }}",
        "ü{{ not }}é",
        "é {{ trueish }} ü",
        "日本 {{ missing }} 語",
        "}} {{ mode }} {{ missing }} {",
    ] {
        match format_label(&l, Some(tmpl)) {
            Ok(_) => {}
            Err(Error::Template(TemplateFailure::Engine(_))) => {}
            other => panic!("{}: {:?}", tmpl, other),
        }
    }
}

#[test]
fn the_same_template_and_labels_give_the_same_text() {
    let a = labels(&[("mode", "idle"), ("cpu", "0")]);
    let b = labels(&[("mode", "idle"), ("cpu", "0")]);
    for tmpl in ["{{ mode }}/{{ cpu }}", "{{ __tera_context }}", "{{ missing }}"] {
        let first = format_label(&a, Some(tmpl)).ok();
        let second = format_label(&b, Some(tmpl)).ok();
        assert_eq!(first, second, "{}", tmpl);
    }
}

#[test]
fn template_text_is_not_escaped() {
    let l = labels(&[("mode", "<idle> & \"busy\"")]);
    assert_eq!(format_label(&l, Some("{{mode}}")).unwrap(), "<idle> & \"busy\"");
}

#[test]
fn name_may_stand_anywhere() {
    let l = labels(&[("mode", "idle"), ("__name__", "cpu"), ("cpu", "0")]);
    assert_eq!(render_labels(&l), "cpu{mode=\"idle\",cpu=\"0\"}");
}

#[test]
fn without_a_name_the_braces_stand_alone() {
    assert_eq!(render_labels(&labels(&[("mode", "idle")])), "{mode=\"idle\"}");
    assert_eq!(render_labels(&Labels::new()), "{}");
    assert_eq!(render_labels(&labels(&[("__name__", "up")])), "up{}");
}

#[test]
fn quotes_in_values_are_escaped() {
    let l = labels(&[("path", "say \"hi\""), ("q", "\"")]);
    assert_eq!(render_labels(&l), "{path=\"say \\\"hi\\\"\",q=\"\\\"\"}");
}

#[test]
fn other_characters_are_kept() {
    let l = labels(&[("path", "a\\b, c=d {é}")]);
    assert_eq!(render_labels(&l), "{path=\"a\\b, c=d {é}\"}");
}

#[test]
fn insert_replaces_the_value_of_a_key() {
    let mut l = labels(&[("a", "1"), ("b", "2")]);
    l.insert("a".to_string(), "3".to_string());
    assert_eq!(l.len(), 2);
    assert_eq!(l.key_at(0), "a");
    assert_eq!(l.value_at(0), "3");
    assert_eq!(l.key_at(1), "b");
    assert_eq!(l.get(&"a".to_string()), Some(&"3".to_string()));
    assert_eq!(l.get(&"c".to_string()), None);
    assert_eq!(l.find(&"b".to_string()), Some(1));
    assert_eq!(l.find(&"c".to_string()), None);
}

#[test]
fn label_follows_what_the_template_gave() {
    let l = labels(&[("__name__", "cpu"), ("mode", "idle")]);
    assert_eq!(label_from(&l, None).unwrap(), "cpu{mode=\"idle\"}");
    assert_eq!(label_from(&l, Some(Ok("given".to_string()))).unwrap(), "given");
    let failure = tera::Tera::one_off("{{", &tera::Context::new(), false).unwrap_err();
    assert!(matches!(
        label_from(&l, Some(Err(failure))),
        Err(Error::Template(TemplateFailure::Engine(_)))
    ));
}

#[test]
fn renderer_is_selected_by_the_template() {
    assert!(matches!(LabelRenderer::select(None), LabelRenderer::Canonical));
    assert!(matches!(LabelRenderer::select(Some("{{a}}")), LabelRenderer::Template("{{a}}")));
    let l = labels(&[("a", "b")]);
    assert_eq!(LabelRenderer::Canonical.render(&l).unwrap(), "{a=\"b\"}");
    assert_eq!(LabelRenderer::Template("{{a}}").render(&l).unwrap(), "b");
    assert!(matches!(
        LabelRenderer::Template("{{a|upper}}").render(&l),
        Err(Error::Template(TemplateFailure::Form))
    ));
}
