use codexcli::render::{format_response, kind_of, LineKind};

fn chars(s: &str) -> Vec<char> {
    s.chars().collect()
}

const RESPONSE: &str = "# Title\n\n- item\n```rust\nlet a = 1;\n```\n   \nplain text";

#[test]
fn lines_are_shown_in_their_styles_where_colours_are_on() {
    console::set_colors_enabled(true);
    assert_eq!(
        format_response(RESPONSE),
        "\u{1b}[33m\u{1b}[1m# Title\u{1b}[0m\n\n\u{1b}[32m- item\u{1b}[0m\n\u{1b}[36m```rust\u{1b}[0m\n\u{1b}[37mlet a = 1;\u{1b}[0m\n\u{1b}[36m```\u{1b}[0m\n\n\u{1b}[37mplain text\u{1b}[0m\n"
    );
    assert_eq!(format_response("  ## indented"), "\u{1b}[33m\u{1b}[1m  ## indented\u{1b}[0m\n");
    assert_eq!(format_response("-"), "\u{1b}[32m-\u{1b}[0m\n");
}

#[test]
fn lines_are_shown_as_they_are_where_colours_are_off() {
    console::set_colors_enabled(false);
    assert_eq!(
        format_response(RESPONSE),
        "# Title\n\n- item\n```rust\nlet a = 1;\n```\n\nplain text\n"
    );
    assert_eq!(format_response(""), "");
    assert_eq!(format_response("\n"), "\n");
    assert_eq!(format_response("a\r\nb"), "a\nb\n");
}

#[test]
fn the_kind_of_a_line_goes_by_its_first_characters() {
    assert_eq!(kind_of(&chars("")), LineKind::Blank);
    assert_eq!(kind_of(&chars(" \t ")), LineKind::Blank);
    assert_eq!(kind_of(&chars("```")), LineKind::Fence);
    assert_eq!(kind_of(&chars("  ```python")), LineKind::Fence);
    assert_eq!(kind_of(&chars("``")), LineKind::Plain);
    assert_eq!(kind_of(&chars("# Title")), LineKind::Heading);
    assert_eq!(kind_of(&chars("   ### deeper")), LineKind::Heading);
    assert_eq!(kind_of(&chars("- item")), LineKind::Bullet);
    assert_eq!(kind_of(&chars("  -item")), LineKind::Bullet);
    assert_eq!(kind_of(&chars("text # not a heading")), LineKind::Plain);
    assert_eq!(kind_of(&chars("* star")), LineKind::Plain);
}
