use onscreen_ocr::preview_text::prepare_preview_text;

fn reference(text: &str, add_pilcrow: bool) -> Option<(String, usize, usize)> {
    let mut text = text.replace("\t", "  ");
    if text.trim().is_empty() {
        return None;
    }
    if add_pilcrow {
        text = text.lines().map(|x| x.to_string() + " \u{b6}").collect::<Vec<String>>().join("\n");
        text.pop();
    }
    let max = text.lines().map(|x| x.chars().count()).max().unwrap_or(0);
    let count = text.lines().count();
    Some((text, count, max))
}

#[test]
fn tabs_become_two_spaces() {
    let p = prepare_preview_text("a\tb", false).expect("text");
    assert_eq!(p.text, "a  b");
    assert_eq!(p.line_count, 1);
    assert_eq!(p.max_line_characters, 4);
}

#[test]
fn blank_result_gives_nothing() {
    assert!(prepare_preview_text("  \n\t \u{3000}", true).is_none());
    assert!(prepare_preview_text("", false).is_none());
}

#[test]
fn pilcrows_end_every_line_but_the_last() {
    let p = prepare_preview_text("ab\ncd", true).expect("text");
    assert_eq!(p.text, "ab \u{b6}\ncd ");
    assert_eq!(p.line_count, 2);
    assert_eq!(p.max_line_characters, 4);
}

#[test]
fn crlf_lines_are_split_like_std() {
    let p = prepare_preview_text("x\r\ny\n", true).expect("text");
    assert_eq!(p.text, "x \u{b6}\ny ");
    assert_eq!(p.line_count, 2);
    assert_eq!(p.max_line_characters, 3);
}

#[test]
fn agrees_with_std_processing() {
    let samples = ["Hello\nworld", "one\r\ntwo\r\n\r\nthree\t!", "\n\nx", "trailing\n", "\u{e9}t\u{e9}\n\u{fc}ber", "a\rb\nc"];
    for s in samples {
        for pil in [false, true] {
            let got = prepare_preview_text(s, pil).map(|p| (p.text, p.line_count, p.max_line_characters));
            assert_eq!(got, reference(s, pil), "{:?} {}", s, pil);
        }
    }
}
