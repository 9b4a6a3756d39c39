use codexcli::failure::{
    classify, classify_python, extract_quoted, handle_node_error, handle_python_error, Remediation,
};
use codexcli::language::RuntimeFamily;
use codexcli::outcome::FailureClass;

fn chars(s: &str) -> Vec<char> {
    s.chars().collect()
}

const PYTHON_MISSING: &str = "Traceback (most recent call last):\n  File \"temp_code.py\", line 1, in <module>\n    import requests\nModuleNotFoundError: No module named 'requests'\n";

const NODE_MISSING: &str = "node:internal/modules/cjs/loader:1080\n  throw err;\n  ^\n\nError: Cannot find module 'express'\nRequire stack:\n- /tmp/temp_code.js\n";

#[test]
fn python_module_not_found_names_the_module() {
    assert_eq!(
        classify(PYTHON_MISSING, "import requests"),
        FailureClass::MissingDependency("requests".to_string())
    );
    assert_eq!(
        handle_python_error(PYTHON_MISSING, "import requests"),
        Ok(Remediation {
            family: RuntimeFamily::Python,
            package: "requests".to_string(),
            source: "import requests".to_string(),
        })
    );
}

#[test]
fn node_cannot_find_module_names_the_module() {
    assert_eq!(
        classify(NODE_MISSING, "require('express')"),
        FailureClass::MissingDependency("express".to_string())
    );
    assert_eq!(
        handle_node_error(NODE_MISSING, "require('express')"),
        Ok(Remediation {
            family: RuntimeFamily::Node,
            package: "express".to_string(),
            source: "require('express')".to_string(),
        })
    );
}

#[test]
fn other_diagnostics_are_tool_failures_with_the_text_unchanged() {
    let text = "SyntaxError: invalid syntax";
    assert_eq!(classify(text, "x ="), FailureClass::ToolFailure(text.to_string()));
    assert_eq!(handle_python_error(text, "x ="), Err(FailureClass::ToolFailure(text.to_string())));
    assert_eq!(handle_node_error(text, "x ="), Err(FailureClass::ToolFailure(text.to_string())));
    assert_eq!(classify("", ""), FailureClass::ToolFailure(String::new()));
}

#[test]
fn a_marker_without_a_name_is_a_tool_failure() {
    let python = "ModuleNotFoundError: something else went wrong";
    assert_eq!(classify(python, ""), FailureClass::ToolFailure(python.to_string()));
    assert_eq!(handle_python_error(python, ""), Err(FailureClass::ToolFailure(python.to_string())));
    let node = "Error: Cannot find module \"express\"";
    assert_eq!(classify(node, ""), FailureClass::ToolFailure(node.to_string()));
    assert_eq!(handle_node_error(node, ""), Err(FailureClass::ToolFailure(node.to_string())));
}

#[test]
fn the_name_phrase_alone_does_not_classify() {
    let text = "ImportError: No module named 'old_style'";
    assert_eq!(classify(text, ""), FailureClass::ToolFailure(text.to_string()));
    assert_eq!(handle_python_error(text, ""), Err(FailureClass::ToolFailure(text.to_string())));
}

#[test]
fn the_python_phrase_is_tried_before_the_node_phrase() {
    let both = "Cannot find module 'left'\nModuleNotFoundError: No module named 'right'";
    assert_eq!(classify(both, ""), FailureClass::MissingDependency("right".to_string()));
    let python_without_name = "ModuleNotFoundError\nCannot find module 'left'";
    assert_eq!(
        classify(python_without_name, ""),
        FailureClass::ToolFailure(python_without_name.to_string())
    );
    assert_eq!(
        handle_python_error(both, "code"),
        Ok(Remediation {
            family: RuntimeFamily::Python,
            package: "right".to_string(),
            source: "code".to_string(),
        })
    );
    assert_eq!(
        handle_node_error(both, "code"),
        Ok(Remediation {
            family: RuntimeFamily::Node,
            package: "left".to_string(),
            source: "code".to_string(),
        })
    );
}

#[test]
fn the_name_ends_at_the_next_quote_or_at_the_end() {
    assert_eq!(extract_quoted(&chars("see 'a' and 'b'"), "see '"), Some("a".to_string()));
    assert_eq!(extract_quoted(&chars("see 'unfinished"), "see '"), Some("unfinished".to_string()));
    assert_eq!(extract_quoted(&chars("see ''"), "see '"), Some(String::new()));
    assert_eq!(extract_quoted(&chars("see '"), "see '"), Some(String::new()));
    assert_eq!(extract_quoted(&chars("nothing"), "see '"), None);
    assert_eq!(extract_quoted(&chars("see 'x' see 'y'"), "see '"), Some("x".to_string()));
    assert_eq!(
        classify("ModuleNotFoundError: No module named 'numpy.core", ""),
        FailureClass::MissingDependency("numpy.core".to_string())
    );
    assert_eq!(
        classify("ModuleNotFoundError: No module named ''", ""),
        FailureClass::MissingDependency(String::new())
    );
}

#[test]
fn a_python_run_that_waits_for_input_asks_for_an_interactive_run() {
    let eof = "Traceback (most recent call last):\n  File \"temp_code.py\", line 1, in <module>\n    name = input('Name: ')\nEOFError: EOF when reading a line\n";
    assert_eq!(classify_python(eof, "name = input('Name: ')"), FailureClass::InteractiveInputRequired);
    assert_eq!(classify_python("unexpected EOF", ""), FailureClass::InteractiveInputRequired);
    assert_eq!(classify_python("x = input(", ""), FailureClass::InteractiveInputRequired);
    assert_eq!(classify(eof, ""), FailureClass::ToolFailure(eof.to_string()));
}

#[test]
fn a_python_run_is_classified_for_a_missing_module_first() {
    let text = "input() failed\nModuleNotFoundError: No module named 'readline'";
    assert_eq!(classify_python(text, ""), FailureClass::MissingDependency("readline".to_string()));
    assert_eq!(
        classify_python(PYTHON_MISSING, ""),
        FailureClass::MissingDependency("requests".to_string())
    );
    let plain = "ZeroDivisionError: division by zero";
    assert_eq!(classify_python(plain, ""), FailureClass::ToolFailure(plain.to_string()));
    let nameless = "ModuleNotFoundError near EOF";
    assert_eq!(classify_python(nameless, ""), FailureClass::ToolFailure(nameless.to_string()));
}

#[test]
fn failures_tell_their_kind() {
    assert!(FailureClass::MissingDependency("x".to_string()).is_recoverable());
    assert!(FailureClass::InteractiveInputRequired.is_recoverable());
    assert!(!FailureClass::ToolFailure("x".to_string()).is_recoverable());
    assert!(!FailureClass::UnsupportedLanguage("x".to_string()).is_recoverable());
    assert!(!FailureClass::ProvisioningFailed("x".to_string()).is_recoverable());
    assert!(!FailureClass::ToolInvocationError("x".to_string()).is_recoverable());
    assert_eq!(
        FailureClass::UnsupportedLanguage("ruby".to_string()).message(),
        "Unsupported language: ruby"
    );
    assert_eq!(FailureClass::ProvisioningFailed("pip".to_string()).message(), "Provisioning failed: pip");
    assert_eq!(FailureClass::ToolInvocationError("no such file".to_string()).message(), "no such file");
    assert_eq!(FailureClass::MissingDependency("requests".to_string()).message(), "Missing dependency: requests");
    assert_eq!(FailureClass::InteractiveInputRequired.message(), "Interactive input required");
    assert_eq!(FailureClass::ToolFailure("boom".to_string()).message(), "boom");
}
