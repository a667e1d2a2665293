//! What the report and the previews of a batch are called and where the
//! report finds its files.

use vstd::prelude::*;
use crate::text::{chars_of, concat3, decimal, decimal_of, push_char};

verus! {

/// The name of the preview image of the page labelled `index`.
pub fn preview_file_name(index: &str) -> (name: String)
    ensures
        name@ == "page_"@ + index@ + ".webp"@,
{
    concat3("page_", index, ".webp")
}

/// A text with every backslash turned into a slash.
pub open spec fn forward_slashes(s: Seq<char>) -> Seq<char> {
    Seq::new(s.len(), |i: int| if s[i] == '\\' { '/' } else { s[i] })
}

/// Turns every backslash into a slash.
pub fn with_forward_slashes(s: &str) -> (out: String)
    ensures
        out@ == forward_slashes(s@),
{
    let chars = chars_of(s);
    let mut out = String::new();
    let mut i: usize = 0;
    while i < chars.len()
        invariant
            i <= chars.len(),
            chars@ == s@,
            out@ == forward_slashes(s@).take(i as int),
        decreases chars.len() - i,
    {
        let c = if chars[i] == '\\' {
            '/'
        } else {
            chars[i]
        };
        push_char(&mut out, c);
        i += 1;
    }
    out
}

/// The address under which the report, which lies in the audit directory,
/// reaches a file of the batch's output: one directory up, into the batch,
/// with slashes only. A file without a name has no address.
pub open spec fn artifact_address(batch_name: Seq<char>, file_name: Seq<char>) -> Option<Seq<char>> {
    if file_name.len() == 0 {
        None
    } else {
        Some(forward_slashes("../"@ + batch_name + "/"@ + file_name))
    }
}

/// Gives the address of a file of the batch's output as the report uses it.
pub fn artifact_url(batch_name: &str, file_name: &str) -> (url: Option<String>)
    ensures
        url is Some <==> artifact_address(batch_name@, file_name@) is Some,
        url matches Some(u) ==> u@ == artifact_address(batch_name@, file_name@)->0,
{
    if file_name.unicode_len() == 0 {
        return None;
    }
    let mut raw = String::from_str("../");
    raw.append(batch_name);
    raw.append("/");
    raw.append(file_name);
    Some(with_forward_slashes(raw.as_str()))
}

/// What is done about the preview of one page.
#[derive(Clone, Copy, Debug, PartialEq, Eq, Structural)]
pub enum PreviewAction {
    /// The source image is gone: count an error and go on.
    SkipMissing,
    /// The preview is there already: leave it.
    SkipExisting,
    /// Make the preview.
    Convert,
}

/// Decides what is done about the preview of a page, from whether its source
/// image and its preview exist.
pub fn preview_action(source_exists: bool, preview_exists: bool) -> (action: PreviewAction)
    ensures
        action == (if !source_exists {
            PreviewAction::SkipMissing
        } else if preview_exists {
            PreviewAction::SkipExisting
        } else {
            PreviewAction::Convert
        }),
{
    if !source_exists {
        PreviewAction::SkipMissing
    } else if preview_exists {
        PreviewAction::SkipExisting
    } else {
        PreviewAction::Convert
    }
}

/// The count of previews made and of pages that went wrong.
#[derive(Clone, Copy, Debug, PartialEq, Eq, Structural)]
pub struct PreviewTally {
    pub generated: u64,
    pub errors: u64,
}

/// One more, up to the largest count.
pub open spec fn one_more(n: u64) -> u64 {
    if n < u64::MAX {
        (n + 1) as u64
    } else {
        n
    }
}

impl PreviewTally {
    /// A tally of nothing.
    pub fn new() -> (tally: Self)
        ensures
            tally.generated == 0,
            tally.errors == 0,
    {
        PreviewTally { generated: 0, errors: 0 }
    }

    /// Counts a page whose source was missing or whose conversion failed.
    pub fn count_error(&mut self)
        ensures
            final(self).errors == one_more(old(self).errors),
            final(self).generated == old(self).generated,
    {
        self.errors = self.errors.saturating_add(1);
    }

    /// Counts a preview that was made.
    pub fn count_generated(&mut self)
        ensures
            final(self).generated == one_more(old(self).generated),
            final(self).errors == old(self).errors,
    {
        self.generated = self.generated.saturating_add(1);
    }

    /// The closing message on the previews of a batch.
    pub open spec fn summary_text(self) -> Seq<char> {
        if self.generated == 0 {
            "WebP: Nepodařilo se vytvořit žádný náhled. Chyb: "@ + decimal(self.errors as nat)
        } else {
            "WebP: Hotovo, vytvořeno "@ + decimal(self.generated as nat) + " náhledů, chyb: "@
                + decimal(self.errors as nat)
        }
    }

    /// Renders the closing message.
    pub fn summary(&self) -> (line: String)
        ensures
            line@ == self.summary_text(),
    {
        if self.generated == 0 {
            let mut line = String::from_str("WebP: Nepodařilo se vytvořit žádný náhled. Chyb: ");
            line.append(decimal_of(self.errors).as_str());
            line
        } else {
            let mut line = String::from_str("WebP: Hotovo, vytvořeno ");
            line.append(decimal_of(self.generated).as_str());
            line.append(" náhledů, chyb: ");
            line.append(decimal_of(self.errors).as_str());
            line
        }
    }
}

} // verus!
