use vstd::prelude::*;

use crate::dedup::Dedup;
use crate::text::{decode_spec, decode_text, DecodeError};

verus! {

/// Whether `s` begins with `p`.
pub open spec fn starts_with(s: Seq<char>, p: Seq<char>) -> bool {
    p.len() <= s.len() && s.subrange(0, p.len() as int) == p
}

/// Whether `s` ends with `p`.
pub open spec fn ends_with(s: Seq<char>, p: Seq<char>) -> bool {
    p.len() <= s.len() && s.subrange(s.len() - p.len(), s.len() as int) == p
}

/// Whether `p` occurs somewhere in `s`.
pub open spec fn occurs_in(s: Seq<char>, p: Seq<char>) -> bool {
    exists|i: int| 0 <= i && i + p.len() <= s.len() && #[trigger] s.subrange(i, i + p.len()) == p
}

/// Whether a MIME type stands for text: the X11 text targets, `text/...`,
/// and the common script and markup types.
pub open spec fn is_text_mime(m: Seq<char>) -> bool {
    ||| m == "TEXT"@
    ||| m == "STRING"@
    ||| m == "UTF8_STRING"@
    ||| starts_with(m, "text/"@)
    ||| occurs_in(m, "json"@)
    ||| ends_with(m, "script"@)
    ||| ends_with(m, "xml"@)
    ||| ends_with(m, "yaml"@)
    ||| ends_with(m, "csv"@)
    ||| ends_with(m, "ini"@)
}

/// Relies on `wl_clipboard_rs::utils::is_text`, which matches exactly the
/// types that `is_text_mime` lists.
#[verifier::external_body]
fn is_text(mime: &str) -> (r: bool)
    ensures
        r == is_text_mime(mime@),
{
    wl_clipboard_rs::utils::is_text(mime)
}

/// Why the clipboard's contents could not be fetched.
#[derive(Clone, Copy, Debug, PartialEq, Eq, Structural)]
pub enum PasteFailure {
    /// The compositor has no seat.
    NoSeats,
    /// The clipboard is empty.
    ClipboardEmpty,
    /// No content of a suitable type was copied.
    NoMimeType,
    /// Any other failure to reach the clipboard.
    Other,
}

/// What fetching the clipboard's contents gave.
#[derive(Debug)]
pub enum Fetched {
    /// The contents could not be fetched.
    Failed(PasteFailure),
    /// The contents are offered in type `mime`; `bytes` holds what was read
    /// of them, or `None` when reading failed or was not done.
    Offered { mime: String, bytes: Option<Vec<u8>> },
}

/// Why reading the clipboard failed.
#[derive(Clone, Copy, Debug, PartialEq, Eq, Structural)]
pub enum ReadError {
    /// The contents could not be fetched.
    Paste,
    /// The offered contents could not be read.
    Read,
    /// The contents are not UTF-8.
    InvalidUtf8,
}

/// The text that fetched contents hold: `Ok(None)` where there is nothing
/// to read, no text, or text with a NUL byte.
pub open spec fn fetched_text(f: Fetched) -> Result<Option<Seq<char>>, ReadError> {
    match f {
        Fetched::Failed(PasteFailure::Other) => Err(ReadError::Paste),
        Fetched::Failed(_) => Ok(None),
        Fetched::Offered { mime, bytes } => if !is_text_mime(mime@) {
            Ok(None)
        } else {
            match bytes {
                None => Err(ReadError::Read),
                Some(b) => match decode_spec(b@) {
                    Ok(t) => Ok(Some(t)),
                    Err(DecodeError::ContainsNul) => Ok(None),
                    Err(DecodeError::InvalidUtf8) => Err(ReadError::InvalidUtf8),
                },
            }
        },
    }
}

/// The characters of a reading result, with its error kept.
pub open spec fn read_view(r: Result<Option<String>, ReadError>) -> Result<Option<Seq<char>>, ReadError> {
    match r {
        Ok(Some(s)) => Ok(Some(s@)),
        Ok(None) => Ok(None),
        Err(e) => Err(e),
    }
}

/// Whether contents offered in type `mime` are worth reading.
pub fn wants(mime: &str) -> (r: bool)
    ensures
        r == is_text_mime(mime@),
{
    is_text(mime)
}

/// The text that fetched contents hold.
pub fn read_text(fetched: Fetched) -> (r: Result<Option<String>, ReadError>)
    ensures
        read_view(r) == fetched_text(fetched),
{
    match fetched {
        Fetched::Failed(PasteFailure::Other) => Err(ReadError::Paste),
        Fetched::Failed(_) => Ok(None),
        Fetched::Offered { mime, bytes } => {
            if !is_text(mime.as_str()) {
                return Ok(None);
            }
            match bytes {
                None => Err(ReadError::Read),
                Some(b) => match decode_text(b) {
                    Ok(t) => Ok(Some(t)),
                    Err(DecodeError::ContainsNul) => Ok(None),
                    Err(DecodeError::InvalidUtf8) => Err(ReadError::InvalidUtf8),
                },
            }
        },
    }
}

/// The new text that a read gives a reader whose last text is `last`.
pub open spec fn novel_text(last: Option<Seq<char>>, f: Fetched) -> Option<Seq<char>> {
    match fetched_text(f) {
        Ok(Some(t)) => if last == Some(t) {
            None
        } else {
            Some(t)
        },
        _ => None,
    }
}

/// The last text once a read gave `novel`.
pub open spec fn next_last(last: Option<Seq<char>>, novel: Option<Seq<char>>) -> Option<Seq<char>> {
    match novel {
        Some(t) => Some(t),
        None => last,
    }
}

/// Hands out the clipboard's text each time it changes.
pub fn read_novel(dedup: &mut Dedup, fetched: Fetched) -> (r: Option<String>)
    ensures
        crate::dedup::opt_text(r) == novel_text(old(dedup)@, fetched),
        final(dedup)@ == next_last(old(dedup)@, novel_text(old(dedup)@, fetched)),
{
    match read_text(fetched) {
        Ok(Some(t)) => dedup.offer(t),
        _ => None,
    }
}

/// Polls the clipboard and hands out its text when it differs from the
/// last text handed out.
pub struct ClipboardReader {
    last: Dedup,
}

impl View for ClipboardReader {
    type V = Option<Seq<char>>;

    closed spec fn view(&self) -> Option<Seq<char>> {
        self.last@
    }
}

impl ClipboardReader {
    /// A reader that has handed out nothing.
    pub fn new() -> (r: Self)
        ensures
            r@ == None::<Seq<char>>,
    {
        ClipboardReader { last: Dedup::new() }
    }

    /// The text of what was fetched, when it is new.
    pub fn read(&mut self, fetched: Fetched) -> (r: Option<String>)
        ensures
            crate::dedup::opt_text(r) == novel_text(old(self)@, fetched),
            final(self)@ == next_last(old(self)@, novel_text(old(self)@, fetched)),
    {
        read_novel(&mut self.last, fetched)
    }
}

/// The local clipboard, read by polling: hands out its text when it differs
/// from the last text handed out.
pub struct LocalClipboard {
    last: Dedup,
}

impl View for LocalClipboard {
    type V = Option<Seq<char>>;

    closed spec fn view(&self) -> Option<Seq<char>> {
        self.last@
    }
}

impl LocalClipboard {
    /// A clipboard reader that has handed out nothing.
    pub fn new() -> (r: Self)
        ensures
            r@ == None::<Seq<char>>,
    {
        LocalClipboard { last: Dedup::new() }
    }

    /// The text of what was fetched, when it is new.
    pub fn read(&mut self, fetched: Fetched) -> (r: Option<String>)
        ensures
            crate::dedup::opt_text(r) == novel_text(old(self)@, fetched),
            final(self)@ == next_last(old(self)@, novel_text(old(self)@, fetched)),
    {
        read_novel(&mut self.last, fetched)
    }
}

} // verus!
