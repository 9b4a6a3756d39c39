use codexcli::language::{family_for, resolve, ResolvedLanguage, RuntimeFamily};
use codexcli::outcome::FailureClass;

fn identity(tag: &str, extension: &str, family: RuntimeFamily) -> ResolvedLanguage {
    ResolvedLanguage {
        tag: tag.to_string(),
        file_extension: extension.to_string(),
        runtime_family: family,
    }
}

#[test]
fn aliases_resolve_to_the_same_identity() {
    assert_eq!(resolve("py"), resolve("python"));
    assert_eq!(resolve("js"), resolve("javascript"));
    assert_eq!(resolve("ts"), resolve("typescript"));
    assert_eq!(resolve("rs"), resolve("rust"));
    assert_eq!(resolve("sh"), resolve("bash"));
    assert!(resolve("py").is_ok());
}

#[test]
fn each_family_has_its_tag_and_extension() {
    assert_eq!(resolve("python"), Ok(identity("python", "py", RuntimeFamily::Python)));
    assert_eq!(resolve("js"), Ok(identity("javascript", "js", RuntimeFamily::Node)));
    assert_eq!(resolve("typescript"), Ok(identity("typescript", "ts", RuntimeFamily::TypeScript)));
    assert_eq!(resolve("rs"), Ok(identity("rust", "rs", RuntimeFamily::CompiledNative)));
    assert_eq!(resolve("bash"), Ok(identity("bash", "sh", RuntimeFamily::Shell)));
    assert_eq!(resolve("html"), Ok(identity("html", "html", RuntimeFamily::Markup)));
    assert_eq!(
        ResolvedLanguage::of(RuntimeFamily::Shell),
        identity("bash", "sh", RuntimeFamily::Shell)
    );
}

#[test]
fn tags_outside_the_table_are_refused_with_the_tag() {
    assert_eq!(resolve("cobol"), Err(FailureClass::UnsupportedLanguage("cobol".to_string())));
    assert_eq!(resolve("ruby"), Err(FailureClass::UnsupportedLanguage("ruby".to_string())));
    assert_eq!(resolve(""), Err(FailureClass::UnsupportedLanguage(String::new())));
    assert_eq!(resolve("Ruby"), Err(FailureClass::UnsupportedLanguage("Ruby".to_string())));
    assert_eq!(resolve(" python"), Err(FailureClass::UnsupportedLanguage(" python".to_string())));
    assert_eq!(resolve("python3"), Err(FailureClass::UnsupportedLanguage("python3".to_string())));
    assert_eq!(resolve("htm"), Err(FailureClass::UnsupportedLanguage("htm".to_string())));
}

#[test]
fn tags_are_matched_without_regard_to_case() {
    assert_eq!(resolve("PYTHON"), resolve("python"));
    assert_eq!(resolve("Py"), resolve("python"));
    assert_eq!(resolve("JavaScript"), resolve("js"));
    assert_eq!(resolve("HTML"), resolve("html"));
    assert_eq!(family_for("RuSt"), Some(RuntimeFamily::CompiledNative));
    assert_eq!(family_for("BASH"), Some(RuntimeFamily::Shell));
    assert_eq!(family_for("TS"), Some(RuntimeFamily::TypeScript));
}

#[test]
fn a_tag_resolves_exactly_when_its_lowercase_form_is_an_alias() {
    let aliases = [
        "python", "py", "javascript", "js", "typescript", "ts", "rust", "rs", "bash", "sh", "html",
    ];
    let tags = [
        "python", "PYTHON", "pY", "js", "Js", "jS", "JAVASCRIPT", "typescript", "Ts", "tS",
        "Rust", "RS", "Bash", "SH", "Html", "hTmL", "cobol", "ruby", "", " ", "python ", "pytho",
        "ＰＹ", "p\u{1e8f}", "\u{212a}sh", "bas\u{127}", "t\u{17f}", "r\u{17f}", "\u{17f}h",
        "J\u{17f}", "htm\u{13f}", "\u{130}", "py\u{307}", "c", "c++", "go", "java", "shell",
    ];
    for tag in tags {
        let expected = aliases.contains(&tag.to_lowercase().as_str());
        assert_eq!(family_for(tag).is_some(), expected, "{:?}", tag);
        assert_eq!(resolve(tag).is_ok(), expected, "{:?}", tag);
    }
}

#[test]
fn no_single_character_lowers_to_a_letter_of_an_alias_unless_ascii_does_it() {
    for code in 0x80..=0x10FFFFu32 {
        if let Some(c) = char::from_u32(code) {
            let lowered: String = c.to_lowercase().collect();
            let mut letters = lowered.chars();
            if let (Some(first), None) = (letters.next(), letters.next()) {
                assert!(
                    !"pythonjavascrilbm".contains(first),
                    "U+{:04X} lowers to {:?}",
                    code,
                    first
                );
            }
        }
    }
}
