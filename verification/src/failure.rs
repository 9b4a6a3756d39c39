//! The failure classifier: from the diagnostic text of a failed run to a
//! kind of failure, by the phrases that the toolchains are known to print.

use crate::language::RuntimeFamily;
use crate::outcome::{FailureClass, FailureClassView};
use crate::text::{
    chars_of, contains, contains_word, find, find_text, lemma_find, occurs_at, string_of,
};
use vstd::prelude::*;
use vstd::slice::slice_subrange;

verus! {

/// The corrective action for a missing dependency: install `package` with
/// the package manager of `family`, then run `source` again.
#[derive(Clone, Debug, PartialEq, Eq)]
pub struct Remediation {
    pub family: RuntimeFamily,
    pub package: String,
    pub source: String,
}

/// A remediation, with texts in place of strings.
pub struct RemediationView {
    pub family: RuntimeFamily,
    pub package: Seq<char>,
    pub source: Seq<char>,
}

impl View for Remediation {
    type V = RemediationView;

    open spec fn view(&self) -> RemediationView {
        RemediationView { family: self.family, package: self.package@, source: self.source@ }
    }
}

/// A single quote.
pub open spec fn quote() -> Seq<char> {
    seq!['\'']
}

/// The text that follows the first `marker` in `text`, up to the next
/// single quote, or to the end where no quote follows. `None` where the
/// marker does not occur.
pub open spec fn quoted_after(text: Seq<char>, marker: Seq<char>) -> Option<Seq<char>> {
    match find(text, marker) {
        None => None,
        Some(at) => {
            let rest = text.skip(at + marker.len());
            match find(rest, quote()) {
                Some(end) => Some(rest.take(end)),
                None => Some(rest),
            }
        },
    }
}

/// The module that a Python diagnostic reports as missing. The marker of
/// a module that was not found is `ModuleNotFoundError`; the name stands
/// in single quotes after `No module named`.
pub open spec fn python_dependency(diagnostic: Seq<char>) -> Option<Seq<char>> {
    if contains(diagnostic, "ModuleNotFoundError"@) {
        quoted_after(diagnostic, "No module named '"@)
    } else {
        None
    }
}

/// The module that a Node diagnostic reports as missing. The marker is
/// `Cannot find module`; the name stands in single quotes after it.
pub open spec fn node_dependency(diagnostic: Seq<char>) -> Option<Seq<char>> {
    if contains(diagnostic, "Cannot find module"@) {
        quoted_after(diagnostic, "Cannot find module '"@)
    } else {
        None
    }
}

/// The kind of a failure, by its diagnostic text. The Python phrase is
/// tried first, then the Node phrase; a phrase that is found decides, also
/// where no module name can be taken from the text.
pub open spec fn classification(diagnostic: Seq<char>) -> FailureClassView {
    if contains(diagnostic, "ModuleNotFoundError"@) {
        match python_dependency(diagnostic) {
            Some(name) => FailureClassView::MissingDependency(name),
            None => FailureClassView::ToolFailure(diagnostic),
        }
    } else {
        match node_dependency(diagnostic) {
            Some(name) => FailureClassView::MissingDependency(name),
            None => FailureClassView::ToolFailure(diagnostic),
        }
    }
}

/// Whether a Python diagnostic tells that the fragment waited for input
/// that a captured run cannot give: it names a call of `input(` or the
/// end of the input, `EOF`.
pub open spec fn wants_input(diagnostic: Seq<char>) -> bool {
    contains(diagnostic, "input("@) || contains(diagnostic, "EOF"@)
}

/// The kind of a failed captured Python run: a missing module goes to the
/// classifier, a wait for input asks for an interactive run, and anything
/// else is a tool failure with the diagnostic unchanged.
pub open spec fn python_failure(diagnostic: Seq<char>) -> FailureClassView {
    if contains(diagnostic, "ModuleNotFoundError"@) {
        classification(diagnostic)
    } else if wants_input(diagnostic) {
        FailureClassView::InteractiveInputRequired
    } else {
        FailureClassView::ToolFailure(diagnostic)
    }
}

/// The text that follows the first `marker`, up to the next single
/// quote.
pub fn extract_quoted(text: &[char], marker: &str) -> (out: Option<String>)
    ensures
        match quoted_after(text@, marker@) {
            Some(name) => out is Some && out->0@ == name,
            None => out is None,
        },
{
    let m = chars_of(marker);
    match find_text(text, m.as_slice()) {
        None => None,
        Some(at) => {
            proof {
                lemma_find(text@, marker@);
                assert(find(text@, marker@) == Some(at as int));
                assert(occurs_at(text@, marker@, at as int));
            }
            let length: usize = text.len();
            let rest = slice_subrange(text, at + m.len(), length);
            assert(rest@ == text@.skip(at + m.len()));
            let mut q: Vec<char> = Vec::new();
            q.push('\'');
            assert(q@ == quote());
            match find_text(rest, q.as_slice()) {
                Some(end) => {
                    proof {
                        lemma_find(rest@, quote());
                        assert(occurs_at(rest@, quote(), end as int));
                    }
                    Some(string_of(slice_subrange(rest, 0, end)))
                },
                None => Some(string_of(rest)),
            }
        },
    }
}

/// Plans the remedy for a failed Python run. Where the diagnostic reports a
/// missing module, the remedy installs it and runs `code` again; any other
/// diagnostic is handed back unchanged as a tool failure.
pub fn handle_python_error(error: &str, code: &str) -> (out: Result<Remediation, FailureClass>)
    ensures
        match python_dependency(error@) {
            Some(name) => out is Ok && out->Ok_0@ == (RemediationView {
                family: RuntimeFamily::Python,
                package: name,
                source: code@,
            }),
            None => out is Err && out->Err_0@ == FailureClassView::ToolFailure(error@),
        },
{
    let chars = chars_of(error);
    if contains_word(chars.as_slice(), "ModuleNotFoundError") {
        match extract_quoted(chars.as_slice(), "No module named '") {
            Some(package) => {
                return Ok(
                    Remediation {
                        family: RuntimeFamily::Python,
                        package,
                        source: String::from_str(code),
                    },
                );
            },
            None => {},
        }
    }
    Err(FailureClass::ToolFailure(String::from_str(error)))
}

/// Plans the remedy for a failed Node run. Where the diagnostic reports a
/// module that cannot be found, the remedy installs it and runs `code`
/// again; any other diagnostic is handed back unchanged as a tool failure.
pub fn handle_node_error(error: &str, code: &str) -> (out: Result<Remediation, FailureClass>)
    ensures
        match node_dependency(error@) {
            Some(name) => out is Ok && out->Ok_0@ == (RemediationView {
                family: RuntimeFamily::Node,
                package: name,
                source: code@,
            }),
            None => out is Err && out->Err_0@ == FailureClassView::ToolFailure(error@),
        },
{
    let chars = chars_of(error);
    if contains_word(chars.as_slice(), "Cannot find module") {
        match extract_quoted(chars.as_slice(), "Cannot find module '") {
            Some(package) => {
                return Ok(
                    Remediation {
                        family: RuntimeFamily::Node,
                        package,
                        source: String::from_str(code),
                    },
                );
            },
            None => {},
        }
    }
    Err(FailureClass::ToolFailure(String::from_str(error)))
}

/// Classifies the diagnostic of a failed run of `source`. The result
/// depends on the diagnostic alone.
pub fn classify(diagnostic: &str, source: &str) -> (out: FailureClass)
    ensures
        out@ == classification(diagnostic@),
{
    let chars = chars_of(diagnostic);
    let handled = if contains_word(chars.as_slice(), "ModuleNotFoundError") {
        handle_python_error(diagnostic, source)
    } else {
        handle_node_error(diagnostic, source)
    };
    match handled {
        Ok(remedy) => FailureClass::MissingDependency(remedy.package),
        Err(failure) => failure,
    }
}

/// Classifies the diagnostic of a failed captured Python run of `source`.
pub fn classify_python(diagnostic: &str, source: &str) -> (out: FailureClass)
    ensures
        out@ == python_failure(diagnostic@),
{
    let chars = chars_of(diagnostic);
    let text = chars.as_slice();
    if contains_word(text, "ModuleNotFoundError") {
        classify(diagnostic, source)
    } else if contains_word(text, "input(") || contains_word(text, "EOF") {
        FailureClass::InteractiveInputRequired
    } else {
        FailureClass::ToolFailure(String::from_str(diagnostic))
    }
}

} // verus!
