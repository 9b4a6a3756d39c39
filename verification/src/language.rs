//! The language resolver: from a language tag to the runtime that runs it.

use crate::outcome::{FailureClass, FailureClassView};
use crate::text::{chars_of, is_word, lowercase, to_lowercase};
use vstd::prelude::*;

verus! {

/// Languages that are provisioned and invoked in the same way.
#[derive(Clone, Copy, Debug, PartialEq, Eq, Structural)]
pub enum RuntimeFamily {
    Python,
    Node,
    TypeScript,
    CompiledNative,
    Shell,
    Markup,
}

/// The runtime identity of a language tag.
#[derive(Clone, Debug, PartialEq, Eq)]
pub struct ResolvedLanguage {
    /// The canonical tag of the language, the same for all its aliases.
    pub tag: String,
    /// The extension of a source file, without the dot.
    pub file_extension: String,
    pub runtime_family: RuntimeFamily,
}

/// A runtime identity, with texts in place of strings.
pub struct ResolvedLanguageView {
    pub tag: Seq<char>,
    pub file_extension: Seq<char>,
    pub runtime_family: RuntimeFamily,
}

impl View for ResolvedLanguage {
    type V = ResolvedLanguageView;

    open spec fn view(&self) -> ResolvedLanguageView {
        ResolvedLanguageView {
            tag: self.tag@,
            file_extension: self.file_extension@,
            runtime_family: self.runtime_family,
        }
    }
}

/// The family that a tag names. Tags are compared without regard to ASCII
/// case.
pub open spec fn family_of(tag: Seq<char>) -> Option<RuntimeFamily> {
    let t = lowercase(tag);
    if t == "python"@ || t == "py"@ {
        Some(RuntimeFamily::Python)
    } else if t == "javascript"@ || t == "js"@ {
        Some(RuntimeFamily::Node)
    } else if t == "typescript"@ || t == "ts"@ {
        Some(RuntimeFamily::TypeScript)
    } else if t == "rust"@ || t == "rs"@ {
        Some(RuntimeFamily::CompiledNative)
    } else if t == "bash"@ || t == "sh"@ {
        Some(RuntimeFamily::Shell)
    } else if t == "html"@ {
        Some(RuntimeFamily::Markup)
    } else {
        None
    }
}

/// The tag that stands for all the aliases of a family.
pub open spec fn canonical_tag(family: RuntimeFamily) -> Seq<char> {
    match family {
        RuntimeFamily::Python => "python"@,
        RuntimeFamily::Node => "javascript"@,
        RuntimeFamily::TypeScript => "typescript"@,
        RuntimeFamily::CompiledNative => "rust"@,
        RuntimeFamily::Shell => "bash"@,
        RuntimeFamily::Markup => "html"@,
    }
}

/// The extension of the source files of a family, without the dot.
pub open spec fn file_extension(family: RuntimeFamily) -> Seq<char> {
    match family {
        RuntimeFamily::Python => "py"@,
        RuntimeFamily::Node => "js"@,
        RuntimeFamily::TypeScript => "ts"@,
        RuntimeFamily::CompiledNative => "rs"@,
        RuntimeFamily::Shell => "sh"@,
        RuntimeFamily::Markup => "html"@,
    }
}

/// The identity of a family.
pub open spec fn identity(family: RuntimeFamily) -> ResolvedLanguageView {
    ResolvedLanguageView {
        tag: canonical_tag(family),
        file_extension: file_extension(family),
        runtime_family: family,
    }
}

/// What a tag resolves to, if it resolves.
pub open spec fn resolution(tag: Seq<char>) -> Option<ResolvedLanguageView> {
    match family_of(tag) {
        Some(family) => Some(identity(family)),
        None => None,
    }
}

/// The tags that resolve, in lowercase.
pub open spec fn aliases() -> Set<Seq<char>> {
    set![
        "python"@,
        "py"@,
        "javascript"@,
        "js"@,
        "typescript"@,
        "ts"@,
        "rust"@,
        "rs"@,
        "bash"@,
        "sh"@,
        "html"@,
    ]
}

/// The family that a tag names, if it names one.
pub fn family_for(tag: &str) -> (out: Option<RuntimeFamily>)
    ensures
        out == family_of(tag@),
{
    let chars = chars_of(tag);
    let lower = to_lowercase(chars.as_slice());
    let t = lower.as_slice();
    if is_word(t, "python") || is_word(t, "py") {
        Some(RuntimeFamily::Python)
    } else if is_word(t, "javascript") || is_word(t, "js") {
        Some(RuntimeFamily::Node)
    } else if is_word(t, "typescript") || is_word(t, "ts") {
        Some(RuntimeFamily::TypeScript)
    } else if is_word(t, "rust") || is_word(t, "rs") {
        Some(RuntimeFamily::CompiledNative)
    } else if is_word(t, "bash") || is_word(t, "sh") {
        Some(RuntimeFamily::Shell)
    } else if is_word(t, "html") {
        Some(RuntimeFamily::Markup)
    } else {
        None
    }
}

impl ResolvedLanguage {
    /// The identity of `family`.
    pub fn of(family: RuntimeFamily) -> (out: ResolvedLanguage)
        ensures
            out@ == identity(family),
    {
        let (tag, extension) = match family {
            RuntimeFamily::Python => ("python", "py"),
            RuntimeFamily::Node => ("javascript", "js"),
            RuntimeFamily::TypeScript => ("typescript", "ts"),
            RuntimeFamily::CompiledNative => ("rust", "rs"),
            RuntimeFamily::Shell => ("bash", "sh"),
            RuntimeFamily::Markup => ("html", "html"),
        };
        ResolvedLanguage {
            tag: String::from_str(tag),
            file_extension: String::from_str(extension),
            runtime_family: family,
        }
    }
}

/// Resolves a language tag. A tag of the alias table, in any ASCII case,
/// gives the identity of its family; any other tag is refused with
/// `UnsupportedLanguage`, which holds the tag as it was given.
pub fn resolve(tag: &str) -> (out: Result<ResolvedLanguage, FailureClass>)
    ensures
        match resolution(tag@) {
            Some(language) => out is Ok && out->Ok_0@ == language,
            None => out is Err && out->Err_0@ == FailureClassView::UnsupportedLanguage(tag@),
        },
{
    match family_for(tag) {
        Some(family) => Ok(ResolvedLanguage::of(family)),
        None => Err(FailureClass::UnsupportedLanguage(String::from_str(tag))),
    }
}

/// A tag resolves exactly when its lowercase form stands in the alias
/// table.
pub proof fn lemma_resolves_exactly_aliases(tag: Seq<char>)
    ensures
        resolution(tag) is Some <==> aliases().contains(lowercase(tag)),
{
}

/// Tags that differ only in ASCII case resolve alike, and so do tags of
/// the same family.
pub proof fn lemma_aliases_resolve_alike(a: Seq<char>, b: Seq<char>)
    ensures
        lowercase(a) == lowercase(b) ==> resolution(a) == resolution(b),
        family_of(a) == family_of(b) ==> resolution(a) == resolution(b),
{
}

} // verus!
