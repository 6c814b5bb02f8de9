use tool_provision::probe::{
    fallback_input_formats, fallback_output_formats, get_supported_formats, owned_texts,
    parse_name_list, CommandOutput,
};

fn ran(success: bool, stdout: &[u8]) -> Result<CommandOutput, String> {
    Ok(CommandOutput { success, stdout: stdout.to_vec(), stderr: Vec::new() })
}

#[test]
fn name_list_is_trimmed_lines_without_the_empty_ones() {
    assert_eq!(parse_name_list("html\nlatex\n"), vec!["html", "latex"]);
    assert_eq!(parse_name_list("  html \r\n\r\n\tlatex"), vec!["html", "latex"]);
    assert_eq!(parse_name_list(""), Vec::<String>::new());
    assert_eq!(parse_name_list("\n\n \n"), Vec::<String>::new());
    assert_eq!(parse_name_list("one"), vec!["one"]);
    assert_eq!(parse_name_list("a b\nc"), vec!["a b", "c"]);
}

#[test]
fn name_list_agrees_with_std_lines() {
    for s in ["a\nb", "a\r\nb\r\n", " x \n\n y", "\r", "a\rb\nc", "tail\n", "\n"] {
        let want: Vec<String> =
            s.lines().map(|l| l.trim().to_string()).filter(|l| !l.is_empty()).collect();
        assert_eq!(parse_name_list(s), want, "{:?}", s);
    }
}

#[test]
fn fallback_tables_have_their_known_size_and_ends() {
    let inputs = fallback_input_formats();
    assert_eq!(inputs.len(), 47);
    assert_eq!(inputs[0], "biblatex");
    assert_eq!(inputs[24], "markdown");
    assert_eq!(inputs[46], "vimwiki");
    let outputs = fallback_output_formats();
    assert_eq!(outputs.len(), 67);
    assert_eq!(outputs[0], "ansi");
    assert_eq!(outputs[52], "pdf");
    assert_eq!(outputs[66], "zimwiki");
    assert!(!inputs.contains(&"pdf".to_string()));
}

#[test]
fn owned_texts_copies_each_item() {
    assert_eq!(owned_texts(&vec!["a", "bc"]), vec!["a", "bc"]);
    assert_eq!(owned_texts(&Vec::new()), Vec::<String>::new());
}

#[test]
fn formats_come_from_the_listings() {
    let (inputs, outputs) =
        get_supported_formats(&ran(true, b"markdown\nhtml\n"), &ran(true, b"pdf\n")).unwrap();
    assert_eq!(inputs, vec!["markdown", "html"]);
    assert_eq!(outputs, vec!["pdf"]);
}

#[test]
fn each_format_list_falls_back_on_its_own() {
    let (inputs, outputs) =
        get_supported_formats(&ran(false, b"markdown\n"), &ran(true, b"pdf\n")).unwrap();
    assert_eq!(inputs, fallback_input_formats());
    assert_eq!(outputs, vec!["pdf"]);

    let (inputs, outputs) =
        get_supported_formats(&ran(true, b"markdown\n"), &Err("no such file".to_string())).unwrap();
    assert_eq!(inputs, vec!["markdown"]);
    assert_eq!(outputs, fallback_output_formats());

    let (inputs, outputs) =
        get_supported_formats(&ran(true, &[0xff, 0xfe]), &ran(true, &[0xc3])).unwrap();
    assert_eq!(inputs, fallback_input_formats());
    assert_eq!(outputs, fallback_output_formats());
}

#[test]
fn a_listing_that_prints_nothing_gives_no_formats() {
    let (inputs, outputs) = get_supported_formats(&ran(true, b""), &ran(true, b"\n")).unwrap();
    assert!(inputs.is_empty());
    assert!(outputs.is_empty());
}
