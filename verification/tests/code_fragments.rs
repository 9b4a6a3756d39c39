use codexcli::fragment::{extract_code_blocks, label_of};

fn pair(tag: &str, source: &str) -> (String, String) {
    (tag.to_string(), source.to_string())
}

fn chars(s: &str) -> Vec<char> {
    s.chars().collect()
}

#[test]
fn extracts_one_fragment_with_its_tag() {
    let text = "Here you go:\n```python\nprint('hi')\n```\nDone.";
    assert_eq!(extract_code_blocks(text), vec![pair("python", "print('hi')\n")]);
}

#[test]
fn extracts_fragments_in_order() {
    let text = "```py\na = 1\nb = 2\n```\ntext between\n```js\nconsole.log(1)\n```\n```\nplain\n```";
    assert_eq!(
        extract_code_blocks(text),
        vec![pair("py", "a = 1\nb = 2\n"), pair("js", "console.log(1)\n"), pair("", "plain\n")]
    );
}

#[test]
fn drops_a_fragment_that_is_never_closed() {
    let text = "```js\nconsole.log(1)\n```\n```py\nprint(2)\n";
    assert_eq!(extract_code_blocks(text), vec![pair("js", "console.log(1)\n")]);
    assert_eq!(extract_code_blocks("```py\nprint(2)"), Vec::<(String, String)>::new());
}

#[test]
fn text_without_markers_holds_no_fragment() {
    assert_eq!(extract_code_blocks("no code here\nat all"), Vec::<(String, String)>::new());
    assert_eq!(extract_code_blocks(""), Vec::<(String, String)>::new());
}

#[test]
fn an_empty_fragment_has_an_empty_source() {
    assert_eq!(extract_code_blocks("```sh\n```"), vec![pair("sh", "")]);
}

#[test]
fn markers_may_be_indented_and_lines_keep_their_indentation() {
    let text = "  ```python  \n    x = 1\n\tif x:\n        pass\n   ```   ";
    assert_eq!(
        extract_code_blocks(text),
        vec![pair("python", "    x = 1\n\tif x:\n        pass\n")]
    );
}

#[test]
fn a_marker_inside_a_line_does_not_close_the_fragment() {
    let text = "```python\ns = \"```\"\nprint(s) # ``` here\n```";
    assert_eq!(
        extract_code_blocks(text),
        vec![pair("python", "s = \"```\"\nprint(s) # ``` here\n")]
    );
}

#[test]
fn the_text_after_a_closing_marker_is_ignored() {
    let text = "```py\nx\n```python\ny\n```";
    assert_eq!(extract_code_blocks(text), vec![pair("py", "x\n")]);
}

#[test]
fn carriage_returns_before_line_feeds_are_dropped() {
    let text = "```py\r\nprint(1)\r\nprint(2)\r\n```\r\n";
    assert_eq!(extract_code_blocks(text), vec![pair("py", "print(1)\nprint(2)\n")]);
}

#[test]
fn repeated_markers_are_stripped_from_the_tag() {
    assert_eq!(label_of(&chars("``````py")), "py");
    assert_eq!(label_of(&chars("````py")), "`py");
    assert_eq!(label_of(&chars("  ```rust  ")), "rust");
    assert_eq!(label_of(&chars("```")), "");
    assert_eq!(label_of(&chars("``` python")), " python");
    assert_eq!(extract_code_blocks("``````ts\nlet a\n```"), vec![pair("ts", "let a\n")]);
}

#[test]
fn blank_lines_inside_a_fragment_are_kept() {
    let text = "```py\n\nx = 1\n\n\ny = 2\n```";
    assert_eq!(extract_code_blocks(text), vec![pair("py", "\nx = 1\n\n\ny = 2\n")]);
}
