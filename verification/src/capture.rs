//! Reading the clipboard after a double copy, with retries, and choosing the
//! text to translate.
use vstd::prelude::*;
use crate::text::{english_text, is_english_text, trim, trim_text};

verus! {

/// How many times the clipboard is read before giving up.
pub const CLIPBOARD_READ_ATTEMPTS: u32 = 10;

/// Delay between a failed read of the clipboard and the next one, in
/// milliseconds.
pub const CLIPBOARD_RETRY_MS: u64 = 150;

/// What to do after one read of the clipboard.
pub enum ReadStep {
    /// Stop reading: the clipboard held this text, or only white space (`None`).
    Finished(Option<String>),
    /// The read failed: wait `CLIPBOARD_RETRY_MS` and read again.
    RetryLater,
    /// The last allowed read failed with this error: give up.
    GiveUp(String),
}

/// Counts the failed reads of the clipboard.
pub struct ClipboardReader {
    pub failures: u32,
}

impl ClipboardReader {
    /// A reader with no failed read yet.
    pub fn new() -> (r: Self)
        ensures
            r.failures == 0,
    {
        ClipboardReader { failures: 0 }
    }

    /// Takes the outcome of one read. Text that is not only white space ends
    /// the reading with that text, other text ends it with nothing; a failure
    /// asks for another read unless `CLIPBOARD_READ_ATTEMPTS` reads have
    /// failed, and then gives up.
    pub fn on_read(&mut self, outcome: Result<String, String>) -> (step: ReadStep)
        requires
            old(self).failures < CLIPBOARD_READ_ATTEMPTS,
        ensures
            match outcome {
                Ok(text) => {
                    &&& final(self).failures == old(self).failures
                    &&& step matches ReadStep::Finished(found)
                    &&& (found is Some <==> trim(text@).len() > 0)
                    &&& found matches Some(t) ==> t@ == text@
                },
                Err(e) => {
                    &&& final(self).failures == old(self).failures + 1
                    &&& (final(self).failures < CLIPBOARD_READ_ATTEMPTS ==> step is RetryLater)
                    &&& (final(self).failures == CLIPBOARD_READ_ATTEMPTS ==> (step
                        matches ReadStep::GiveUp(m) && m@ == e@))
                },
            },
    {
        match outcome {
            Ok(text) => {
                let trimmed = trim_text(text.as_str());
                if trimmed.as_str().unicode_len() > 0 {
                    ReadStep::Finished(Some(text))
                } else {
                    ReadStep::Finished(None)
                }
            },
            Err(e) => {
                self.failures = self.failures + 1;
                if self.failures < CLIPBOARD_READ_ATTEMPTS {
                    ReadStep::RetryLater
                } else {
                    ReadStep::GiveUp(e)
                }
            },
        }
    }
}

/// The text to send for translation: the copied text without surrounding
/// white space, when it is English; nothing otherwise.
pub fn translation_payload(text: &str) -> (r: Option<String>)
    ensures
        r is Some <==> english_text(text@),
        r matches Some(p) ==> p@ == trim(text@),
{
    if is_english_text(text) {
        Some(trim_text(text))
    } else {
        None
    }
}

} // verus!
