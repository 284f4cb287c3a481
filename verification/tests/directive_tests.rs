use miniclaw::directive::extract_tool_call;
use regex::Regex;

fn pattern() -> Regex {
    Regex::new("<tool name=\"([^\"]+)\">([\\s\\S]*?)</tool>").unwrap()
}

fn by_pattern(re: &Regex, text: &str) -> Option<(String, String)> {
    re.captures(text).map(|caps| {
        (
            caps.get(1).unwrap().as_str().to_string(),
            caps.get(2).unwrap().as_str().trim().to_string(),
        )
    })
}

fn by_library(text: &str) -> Option<(String, String)> {
    extract_tool_call(text).map(|t| (t.name, t.input))
}

#[test]
fn extracts_name_and_trimmed_body() {
    let found = extract_tool_call("Thought: I will list files.\n<tool name=\"terminal\">ls</tool>")
        .expect("a directive");
    assert_eq!(found.name, "terminal");
    assert_eq!(found.input, "ls");
}

#[test]
fn no_directive_gives_nothing() {
    assert!(extract_tool_call("The answer is 4.").is_none());
    assert!(extract_tool_call("").is_none());
}

#[test]
fn body_spans_lines_and_is_trimmed() {
    let found = extract_tool_call("<tool name=\"write_file\">\n  a.txt\nline one\nline two\n\t\n</tool>")
        .expect("a directive");
    assert_eq!(found.name, "write_file");
    assert_eq!(found.input, "a.txt\nline one\nline two");
}

#[test]
fn body_may_hold_angle_brackets() {
    let found = extract_tool_call("<tool name=\"terminal\">echo '<b>x</b>' < in > out </tool >.</tool>")
        .expect("a directive");
    assert_eq!(found.name, "terminal");
    assert_eq!(found.input, "echo '<b>x</b>' < in > out </tool >.");
}

#[test]
fn name_is_taken_verbatim() {
    let found = extract_tool_call("<tool name=\" No Such Tool \">x</tool>").expect("a directive");
    assert_eq!(found.name, " No Such Tool ");
    assert_eq!(found.input, "x");
}

#[test]
fn empty_body_gives_empty_input() {
    let found = extract_tool_call("<tool name=\"terminal\"></tool>").expect("a directive");
    assert_eq!(found.input, "");
    let found = extract_tool_call("<tool name=\"terminal\"> \n </tool>").expect("a directive");
    assert_eq!(found.input, "");
}

#[test]
fn only_the_first_of_two_directives_is_honoured() {
    let text = "one <tool name=\"read_file\">a.txt</tool> two <tool name=\"terminal\">rm a.txt</tool>";
    let found = extract_tool_call(text).expect("a directive");
    assert_eq!(found.name, "read_file");
    assert_eq!(found.input, "a.txt");
}

#[test]
fn malformed_directives_are_passed_over() {
    assert!(extract_tool_call("<tool name=\"\">x</tool>").is_none());
    assert!(extract_tool_call("<tool name=\"terminal\">ls").is_none());
    assert!(extract_tool_call("<tool name=\"terminal\" >ls</tool>").is_none());
    assert!(extract_tool_call("<TOOL name=\"terminal\">ls</TOOL>").is_none());
    assert!(extract_tool_call("<tool name='terminal'>ls</tool>").is_none());
    assert!(extract_tool_call("<tool name=\"terminal").is_none());
}

#[test]
fn a_later_well_formed_directive_is_found_after_a_malformed_start() {
    let found = extract_tool_call("<tool name=\"\"><tool name=\"terminal\">ls</tool>")
        .expect("a directive");
    assert_eq!(found.name, "terminal");
    assert_eq!(found.input, "ls");
    let found = extract_tool_call("<tool name=\"a\" <tool name=\"b\">c</tool>").expect("a directive");
    assert_eq!(found.name, "b");
    assert_eq!(found.input, "c");
}

#[test]
fn an_unclosed_start_takes_the_next_closing_text() {
    let found = extract_tool_call("<tool name=\"a\">x <tool name=\"b\">y</tool> z</tool>")
        .expect("a directive");
    assert_eq!(found.name, "a");
    assert_eq!(found.input, "x <tool name=\"b\">y");
}

#[test]
fn unicode_whitespace_is_trimmed() {
    let found = extract_tool_call("<tool name=\"t\">\u{a0}\u{2003}caf\u{e9} \u{3000}</tool>")
        .expect("a directive");
    assert_eq!(found.input, "caf\u{e9}");
}

#[test]
fn agrees_with_the_pattern_on_all_short_texts() {
    let re = pattern();
    let pieces = [
        "<tool name=\"", "\">", "</tool>", "\"", "a", " ", "\n", "<", ">", "</tool", "tool", "\u{e9}",
    ];
    let n = pieces.len();
    let mut checked = 0;
    for len in 0..5usize {
        let total = n.pow(len as u32);
        for code in 0..total {
            let mut text = String::new();
            let mut rest = code;
            for _ in 0..len {
                text.push_str(pieces[rest % n]);
                rest /= n;
            }
            assert_eq!(by_library(&text), by_pattern(&re, &text), "on {:?}", text);
            checked += 1;
        }
    }
    assert_eq!(checked, 1 + 12 + 144 + 1728 + 20736);
}

#[test]
fn agrees_with_the_pattern_on_longer_texts() {
    let re = pattern();
    let pieces = [
        "<tool name=\"", "\">", "</tool>", "\"", "name", " ", "\n", "<", ">", "/", "tool", "x",
        "<tool name=\"terminal\">", "ls -la", "\t", "=",
    ];
    let mut state: u64 = 0x2545F4914F6CDD1D;
    for _ in 0..20000 {
        let mut text = String::new();
        state ^= state << 13;
        state ^= state >> 7;
        state ^= state << 17;
        let len = 5 + (state % 12) as usize;
        for _ in 0..len {
            state ^= state << 13;
            state ^= state >> 7;
            state ^= state << 17;
            text.push_str(pieces[(state % pieces.len() as u64) as usize]);
        }
        assert_eq!(by_library(&text), by_pattern(&re, &text), "on {:?}", text);
    }
}
