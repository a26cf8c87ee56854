use pomobot::docstrings::{contains_triple, count_triples, Docstring, Docstrings};

fn lines(src: &[&str]) -> Vec<String> {
    src.iter().map(|l| l.to_string()).collect()
}

fn triple(d: &Docstring) -> (usize, usize, &str) {
    (d.start, d.end, d.content.as_str())
}

#[test]
fn new_is_empty() {
    let d = Docstrings::new();
    assert_eq!(d.count, 0);
    assert!(d.docstrings.is_empty());
}

#[test]
fn add_counts() {
    let mut d = Docstrings::new();
    d.add(Docstring { start: 2, end: 4, content: "x".to_string() });
    assert_eq!(d.count, 1);
    assert_eq!(triple(&d.docstrings[0]), (2, 4, "x"));
}

#[test]
fn counts_runs_of_three_without_overlap() {
    assert_eq!(count_triples("\"\"\"", '"'), 1);
    assert_eq!(count_triples("\"\"\"\"", '"'), 1);
    assert_eq!(count_triples("\"\"\"\"\"\"", '"'), 2);
    assert_eq!(count_triples("a'''b'''c", '\''), 2);
    assert_eq!(count_triples("\"\"", '"'), 0);
    assert_eq!(count_triples("", '"'), 0);
    assert!(contains_triple("  \"\"\"x", '"'));
    assert!(!contains_triple("\"\" \"", '"'));
    assert!(!contains_triple("'''", '"'));
}

#[test]
fn one_line_docstring() {
    let d = Docstrings::from_lines(&lines(&["def f():\n", "    \"\"\"Doc.\"\"\"\n", "    pass\n"]));
    assert_eq!(d.count, 1);
    assert_eq!(triple(&d.docstrings[0]), (1, 1, "    \"\"\"Doc.\"\"\"\n"));
}

#[test]
fn multi_line_docstring() {
    let d = Docstrings::from_lines(&lines(&[
        "def f():\n",
        "    \"\"\"Start\n",
        "    more\n",
        "    end\"\"\"\n",
        "x = 1\n",
        "'''Other.'''\n",
    ]));
    assert_eq!(d.count, 2);
    assert_eq!(
        triple(&d.docstrings[0]),
        (1, 3, "    \"\"\"Start\n    more\n    end\"\"\"\n")
    );
    assert_eq!(triple(&d.docstrings[1]), (5, 5, "'''Other.'''\n"));
}

#[test]
fn either_quote_closes() {
    let d = Docstrings::from_lines(&lines(&["'''a\n", "b\"\"\"\n"]));
    assert_eq!(d.count, 1);
    assert_eq!(triple(&d.docstrings[0]), (0, 1, "'''a\nb\"\"\"\n"));
}

#[test]
fn unterminated_docstring_is_left_out() {
    let d = Docstrings::from_lines(&lines(&["\"\"\"One.\"\"\"\n", "\"\"\"open\n", "text\n"]));
    assert_eq!(d.count, 1);
    assert_eq!(triple(&d.docstrings[0]), (0, 0, "\"\"\"One.\"\"\"\n"));
}

#[test]
fn no_lines_no_docstrings() {
    let d = Docstrings::from_lines(&Vec::new());
    assert_eq!(d.count, 0);
}
