//! The transcript of past exchanges, kept as the text that is stored on disk.

use vstd::prelude::*;
use crate::text::occurs_in;

verus! {

/// One entry of the transcript: two labelled lines, each followed by a blank line.
pub open spec fn record_text(prompt: Seq<char>, response: Seq<char>) -> Seq<char> {
    "Prompt: "@ + prompt + "\n\n"@ + "Response: "@ + response + "\n\n"@
}

/// What is shown when there is nothing to show.
pub open spec fn no_history_text() -> Seq<char> {
    "No chat history found."@
}

/// What is shown for a transcript: the whole text under a heading, or a
/// notice when the transcript is empty.
pub open spec fn shown_history(contents: Seq<char>) -> Seq<char> {
    if contents.len() == 0 {
        no_history_text()
    } else {
        "\nChat History:\n"@ + contents
    }
}

/// Renders one transcript entry.
pub fn transcript_record(prompt: &str, response: &str) -> (record: String)
    ensures
        record@ == record_text(prompt@, response@),
{
    let mut record = String::from_str("Prompt: ");
    record.append(prompt);
    record.append("\n\n");
    record.append("Response: ");
    record.append(response);
    record.append("\n\n");
    record
}

/// The transcript. It only grows by whole entries, and is never read back
/// as anything but text.
#[derive(Clone, Debug, PartialEq, Eq)]
pub struct History {
    contents: String,
}

impl View for History {
    type V = Seq<char>;

    closed spec fn view(&self) -> Seq<char> {
        self.contents@
    }
}

impl History {
    /// An empty transcript.
    pub fn new() -> (history: History)
        ensures
            history@ == Seq::<char>::empty(),
    {
        History { contents: String::new() }
    }

    /// The transcript that holds the stored text `contents`.
    pub fn from_contents(contents: String) -> (history: History)
        ensures
            history@ == contents@,
    {
        History { contents }
    }

    /// The stored text.
    pub fn contents(&self) -> (contents: &str)
        ensures
            contents@ == self@,
    {
        self.contents.as_str()
    }

    /// Whether nothing has been recorded.
    pub fn is_empty(&self) -> (empty: bool)
        ensures
            empty == (self@.len() == 0),
    {
        self.contents.as_str().is_empty()
    }

    /// Forgets every entry.
    pub fn clear(&mut self)
        ensures
            final(self)@ == Seq::<char>::empty(),
    {
        self.contents = String::new();
    }

    /// Appends one entry and returns its text, which is what has to be
    /// added to the stored transcript.
    pub fn append_record(&mut self, prompt: &str, response: &str) -> (record: String)
        ensures
            record@ == record_text(prompt@, response@),
            final(self)@ == old(self)@ + record_text(prompt@, response@),
    {
        let record = transcript_record(prompt, response);
        self.contents.append(record.as_str());
        record
    }

    /// The text shown to the user for this transcript.
    pub fn render(&self) -> (shown: String)
        ensures
            shown@ == shown_history(self@),
    {
        if self.is_empty() {
            String::from_str("No chat history found.")
        } else {
            let mut shown = String::from_str("\nChat History:\n");
            shown.append(self.contents.as_str());
            shown
        }
    }
}

/// What was found where the transcript is stored.
#[derive(Clone, Debug, PartialEq, Eq)]
pub enum StoredHistory {
    /// Nothing is stored yet.
    Missing,
    /// Something is stored, but it could not be read as text.
    Unreadable,
    /// The stored text.
    Text(String),
}

/// How an attempt to empty the stored transcript ended.
#[derive(Clone, Copy, Debug, PartialEq, Eq, Structural)]
pub enum ClearOutcome {
    /// The store is empty now.
    Cleared,
    /// The store was opened, but could not be cut to length zero.
    NotTruncated,
    /// The store could not be opened or created.
    NotCreated,
}

/// What is shown for the stored transcript: a missing store reads as an
/// empty transcript.
pub open spec fn history_report_text(stored: StoredHistory) -> Seq<char> {
    match stored {
        StoredHistory::Missing => no_history_text(),
        StoredHistory::Unreadable => "Could not read the file."@,
        StoredHistory::Text(contents) => shown_history(contents@),
    }
}

/// What is shown after an attempt to empty the stored transcript.
pub open spec fn clear_report_text(outcome: ClearOutcome) -> Seq<char> {
    match outcome {
        ClearOutcome::Cleared => "Chat history is cleared."@,
        ClearOutcome::NotTruncated => "Failed to clear the chat history."@,
        ClearOutcome::NotCreated => "Could not clear the chat history."@,
    }
}

/// Renders what is shown when the user asks for the transcript.
pub fn history_report(stored: StoredHistory) -> (shown: String)
    ensures
        shown@ == history_report_text(stored),
{
    match stored {
        StoredHistory::Missing => String::from_str("No chat history found."),
        StoredHistory::Unreadable => String::from_str("Could not read the file."),
        StoredHistory::Text(contents) => History::from_contents(contents).render(),
    }
}

/// Renders what is shown after the user asked to empty the transcript.
pub fn clear_report(outcome: ClearOutcome) -> (shown: String)
    ensures
        shown@ == clear_report_text(outcome),
{
    match outcome {
        ClearOutcome::Cleared => String::from_str("Chat history is cleared."),
        ClearOutcome::NotTruncated => String::from_str("Failed to clear the chat history."),
        ClearOutcome::NotCreated => String::from_str("Could not clear the chat history."),
    }
}

/// A transcript that was just cleared is shown as the notice that there is
/// no history.
pub proof fn lemma_cleared_history_shows_notice()
    ensures
        shown_history(Seq::<char>::empty()) == no_history_text(),
{
}

/// A transcript with a single entry is shown as the heading followed by
/// exactly that entry, so the prompt and the response appear as they were
/// written.
pub proof fn lemma_single_record_is_shown(prompt: Seq<char>, response: Seq<char>)
    ensures
        shown_history(Seq::<char>::empty() + record_text(prompt, response))
            == "\nChat History:\n"@ + record_text(prompt, response),
        occurs_in(prompt, shown_history(Seq::<char>::empty() + record_text(prompt, response))),
        occurs_in(response, shown_history(Seq::<char>::empty() + record_text(prompt, response))),
{
    reveal_strlit("Prompt: ");
    let record = record_text(prompt, response);
    assert(Seq::<char>::empty() + record =~= record);
    assert(record.len() >= "Prompt: "@.len());
    let shown = shown_history(record);
    let p_at: int = ("\nChat History:\n"@.len() + "Prompt: "@.len()) as int;
    let r_at: int = p_at + prompt.len() + "\n\n"@.len() + "Response: "@.len();
    assert(shown.subrange(p_at, p_at + prompt.len()) =~= prompt);
    assert(shown.subrange(r_at, r_at + response.len()) =~= response);
}

} // verus!
