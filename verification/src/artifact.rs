//! The kinds of output produced for a page, the run-wide choice of which of
//! them are wanted, and how their files are named.

use vstd::prelude::*;
use crate::text::{is_digit, lemma_zero_padded_reads_back, zero_padded, zero_padded_decimal};

verus! {

/// One of the outputs derived from a page image.
#[derive(Clone, Copy, Debug, PartialEq, Eq, Structural)]
pub enum ArtifactKind {
    /// Archival JPEG 2000 derivative.
    MasterDerivative,
    /// Access JPEG 2000 derivative.
    UserDerivative,
    /// OCR plain text.
    PlainText,
    /// OCR layout XML.
    LayoutXml,
}

/// Which kinds a run produces and requires.
#[derive(Clone, Copy, Debug, PartialEq, Eq, Structural)]
pub struct ArtifactConfig {
    pub master: bool,
    pub user: bool,
    pub text: bool,
    pub layout: bool,
}

impl ArtifactConfig {
    /// Whether `kind` is switched on.
    pub open spec fn enabled(self, kind: ArtifactKind) -> bool {
        match kind {
            ArtifactKind::MasterDerivative => self.master,
            ArtifactKind::UserDerivative => self.user,
            ArtifactKind::PlainText => self.text,
            ArtifactKind::LayoutXml => self.layout,
        }
    }

    /// How many kinds are switched on.
    pub open spec fn enabled_count(self) -> nat {
        (if self.master { 1nat } else { 0 }) + (if self.user { 1nat } else { 0 }) + (if self.text {
            1nat
        } else {
            0
        }) + (if self.layout { 1nat } else { 0 })
    }

    /// The configuration a session starts with: every kind switched on.
    pub fn all() -> (config: Self)
        ensures
            forall|kind: ArtifactKind| config.enabled(kind),
    {
        ArtifactConfig { master: true, user: true, text: true, layout: true }
    }

    /// Whether `kind` is switched on.
    pub fn is_enabled(&self, kind: ArtifactKind) -> (on: bool)
        ensures
            on == self.enabled(kind),
    {
        match kind {
            ArtifactKind::MasterDerivative => self.master,
            ArtifactKind::UserDerivative => self.user,
            ArtifactKind::PlainText => self.text,
            ArtifactKind::LayoutXml => self.layout,
        }
    }

    /// How many kinds are switched on.
    pub fn required_count(&self) -> (count: usize)
        ensures
            count == self.enabled_count(),
            count == 0 <==> forall|kind: ArtifactKind| !self.enabled(kind),
    {
        let mut count: usize = 0;
        if self.master {
            count += 1;
        }
        if self.user {
            count += 1;
        }
        if self.text {
            count += 1;
        }
        if self.layout {
            count += 1;
        }
        proof {
            if count == 0 {
            } else {
                assert(self.enabled(ArtifactKind::MasterDerivative) || self.enabled(
                    ArtifactKind::UserDerivative,
                ) || self.enabled(ArtifactKind::PlainText) || self.enabled(
                    ArtifactKind::LayoutXml,
                ));
            }
        }
        count
    }

    /// The same configuration with `kind` switched the other way.
    pub fn toggled(&self, kind: ArtifactKind) -> (config: Self)
        ensures
            config.enabled(kind) == !self.enabled(kind),
            forall|other: ArtifactKind| other != kind ==> config.enabled(other) == self.enabled(other),
    {
        match kind {
            ArtifactKind::MasterDerivative => ArtifactConfig { master: !self.master, ..*self },
            ArtifactKind::UserDerivative => ArtifactConfig { user: !self.user, ..*self },
            ArtifactKind::PlainText => ArtifactConfig { text: !self.text, ..*self },
            ArtifactKind::LayoutXml => ArtifactConfig { layout: !self.layout, ..*self },
        }
    }
}

/// The fixed ending of the file name of each kind.
pub open spec fn suffix(kind: ArtifactKind) -> Seq<char> {
    match kind {
        ArtifactKind::MasterDerivative => ".ac.jp2"@,
        ArtifactKind::UserDerivative => ".uc.jp2"@,
        ArtifactKind::PlainText => ".ocr.txt"@,
        ArtifactKind::LayoutXml => ".ocr.xml"@,
    }
}

/// The label of a page: its sequence number, zero-padded to `digits`.
pub open spec fn page_label(seq_no: nat, digits: nat) -> Seq<char> {
    zero_padded(seq_no, digits)
}

/// The file name of the artifact of `kind` for the page numbered `seq_no`.
pub open spec fn artifact_name(seq_no: nat, digits: nat, kind: ArtifactKind) -> Seq<char> {
    page_label(seq_no, digits) + suffix(kind)
}

/// The fixed ending of the file name of `kind`.
pub fn artifact_suffix(kind: ArtifactKind) -> (s: &'static str)
    ensures
        s@ == suffix(kind),
{
    match kind {
        ArtifactKind::MasterDerivative => ".ac.jp2",
        ArtifactKind::UserDerivative => ".uc.jp2",
        ArtifactKind::PlainText => ".ocr.txt",
        ArtifactKind::LayoutXml => ".ocr.xml",
    }
}

/// The label of the page numbered `seq_no`.
pub fn index_label(seq_no: u32, digits: usize) -> (label: String)
    ensures
        label@ == page_label(seq_no as nat, digits as nat),
{
    zero_padded_decimal(seq_no, digits)
}

/// The file name under which the artifact of `kind` for page `seq_no` is kept.
pub fn artifact_file_name(seq_no: u32, digits: usize, kind: ArtifactKind) -> (name: String)
    ensures
        name@ == artifact_name(seq_no as nat, digits as nat, kind),
{
    let mut name = index_label(seq_no, digits);
    name.append(artifact_suffix(kind));
    name
}

/// The label a switch is shown with.
pub fn bool_label(b: bool) -> (label: String)
    ensures
        label@ == (if b { "ON"@ } else { "OFF"@ }),
{
    if b {
        String::from_str("ON")
    } else {
        String::from_str("OFF")
    }
}

/// No two artifacts share a file name: names made with the same label width
/// are equal only for the same page and the same kind.
pub proof fn lemma_artifact_names_distinct(
    first: nat,
    second: nat,
    digits: nat,
    kind: ArtifactKind,
    other: ArtifactKind,
)
    requires
        artifact_name(first, digits, kind) == artifact_name(second, digits, other),
    ensures
        first == second,
        kind == other,
{
    let a = page_label(first, digits);
    let b = page_label(second, digits);
    let name = artifact_name(first, digits, kind);
    lemma_zero_padded_reads_back(first, digits);
    lemma_zero_padded_reads_back(second, digits);
    lemma_suffixes(kind);
    lemma_suffixes(other);
    lemma_dot_is_no_digit();
    if a.len() < b.len() {
        assert(name[a.len() as int] == b[a.len() as int]);
    } else if b.len() < a.len() {
        assert(is_digit(a[b.len() as int]));
    }
    assert(a =~= name.take(a.len() as int));
    assert(b =~= name.take(a.len() as int));
    assert(suffix(other) =~= name.skip(a.len() as int));
    if kind != other {
    }
}

proof fn lemma_suffixes(kind: ArtifactKind)
    ensures
        suffix(kind).len() >= 7,
        suffix(kind)[0] == '.',
        kind is MasterDerivative ==> suffix(kind)[1] == 'a' && suffix(kind)[suffix(kind).len() - 1]
            == '2',
        kind is UserDerivative ==> suffix(kind)[1] == 'u' && suffix(kind)[suffix(kind).len() - 1]
            == '2',
        kind is PlainText ==> suffix(kind)[1] == 'o' && suffix(kind)[suffix(kind).len() - 1] == 't',
        kind is LayoutXml ==> suffix(kind)[1] == 'o' && suffix(kind)[suffix(kind).len() - 1] == 'l',
{
    reveal_strlit(".ac.jp2");
    reveal_strlit(".uc.jp2");
    reveal_strlit(".ocr.txt");
    reveal_strlit(".ocr.xml");
}

proof fn lemma_dot_is_no_digit()
    ensures
        !is_digit('.'),
{
}

} // verus!
