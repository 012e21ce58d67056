//! The syntax that the places of declarations are read from.
use crate::items::LanguageKind;
use crate::syntax::SourceFile;
use crate::workspace::Workspace;
use vstd::prelude::*;

verus! {

/// The syntax of a file, where its language is known.
pub fn range_ctx<W: Workspace>(ws: &W, file: u32, language: LanguageKind) -> (r: Option<
    &SourceFile,
>)
    ensures
        match r {
            Some(source) => language != LanguageKind::Unknown && *source == ws.source_of(file),
            None => language == LanguageKind::Unknown,
        },
{
    if language == LanguageKind::Unknown {
        return None;
    }
    Some(ws.parse(file))
}

} // verus!
