use auracle::spec_compiler::{ejected_tail, parse_spec, recompile, render, Spec, EJECT_MARKER};

fn sample() -> Spec {
    Spec {
        name: "OvernightGapReversion".to_string(),
        universe: "liquid_megacap_200".to_string(),
        params: vec![
            ("lookback".to_string(), "20".to_string()),
            ("gap_z".to_string(), "1.5".to_string()),
        ],
        sections: vec![("signal".to_string(), "gap z-score > gap_z".to_string())],
    }
}

#[test]
fn parse_extracts_name_universe_and_params() {
    let spec = parse_spec(&render(&sample())).expect("header present");
    assert_eq!(spec.name, "OvernightGapReversion");
    assert_eq!(spec.universe, "liquid_megacap_200");
    assert_eq!(spec.params, sample().params);
    assert_eq!(spec.sections, sample().sections);
}

#[test]
fn render_emits_params_as_class_attributes() {
    let code = render(&sample());
    assert!(code.contains("class OvernightGapReversion(Strategy):"));
    assert!(code.contains("    lookback = 20"));
    assert!(code.contains("    gap_z = 1.5"));
    assert!(code.contains("resolve_universe(\"liquid_megacap_200\")"));
}

#[test]
fn round_trip_is_stable() {
    let spec = sample();
    let reparsed = parse_spec(&render(&spec)).expect("header present");
    assert_eq!(reparsed, spec);
}

#[test]
fn recompile_preserves_ejected_code_verbatim() {
    let owned = "    def signals_to_target_weights(self, signals):\n        return my_custom_sizing(signals)  # hand-owned\n";
    let existing = format!("{}{}\n{}", render(&sample()), EJECT_MARKER, owned);

    // Recompile with a CHANGED spec (a new param value).
    let mut changed = sample();
    changed.params[1].1 = "2.0".to_string();
    let result = recompile(&existing, &changed);

    // The generated region reflects the new spec…
    assert!(result.contains("    gap_z = 2.0"));
    // …and the ejected tail is preserved byte-for-byte.
    assert!(result.contains(owned));
    assert_eq!(ejected_tail(&result), Some(owned));
}

#[test]
fn invalid_name_falls_back_so_output_always_parses() {
    let mut spec = sample();
    spec.name = "3 bad name!".to_string();
    assert!(render(&spec).contains("class GeneratedStrategy(Strategy):"));
}

#[test]
fn no_header_returns_none() {
    assert_eq!(parse_spec("class Foo(Strategy):\n    pass\n"), None);
}

#[test]
fn render_is_exactly_the_header_then_the_class() {
    let spec = Spec {
        name: "  Carry ".to_string(),
        universe: "fx".to_string(),
        params: vec![("k".to_string(), "3".to_string())],
        sections: vec![("exit".to_string(), "never".to_string())],
    };
    let expected = [
        "# %%spec",
        "# name:   Carry ",
        "# universe: fx",
        "# param.k: 3",
        "# exit: never",
        "# %%end",
        "from auracle.backtest import Strategy",
        "from auracle.master.universe import resolve_universe",
        "",
        "",
        "class Carry(Strategy):",
        "    k = 3",
        "    universe = resolve_universe(\"fx\")",
        "",
        "    def prices_to_signals(self, prices):",
        "        raise NotImplementedError(\"Fill prices_to_signals, or ask the assistant.\")",
        "",
    ]
    .join("\n");
    assert_eq!(render(&spec), expected);
}

#[test]
fn parse_reads_around_noise_and_needs_the_closing_marker() {
    let src = "import os\r\n  # %%spec  \r\n# name: A\r\nnot an entry\r\n#   param.x :  1 : 2 \r\n# %%end\r\n";
    let spec = parse_spec(src).expect("closed header");
    assert_eq!(spec.name, "A");
    assert_eq!(spec.params, vec![("x".to_string(), "1 : 2".to_string())]);
    assert!(spec.sections.is_empty());
    assert_eq!(parse_spec("# %%spec\n# name: A\n"), None);
    assert_eq!(parse_spec("# %%spec\n# %%end"), Some(Spec::default()));
}

#[test]
fn ejected_tail_needs_the_marker_at_a_line_start() {
    assert_eq!(ejected_tail("x = 1 # %%eject\nkeep\n"), None);
    assert_eq!(ejected_tail("# %%eject trailing words\nkeep\n"), Some("keep\n"));
    assert_eq!(ejected_tail("a\n# %%eject"), Some(""));
    assert_eq!(ejected_tail("a\n# %%eject\n# %%eject\nz"), Some("# %%eject\nz"));
}

#[test]
fn recompile_without_a_tail_is_just_the_render() {
    assert_eq!(recompile("no marker here", &sample()), render(&sample()));
}
