//! The shared transcript of received messages: a single string value with one
//! writer (the engine) and any number of observers. Appends are monotonic —
//! the log only ever grows, and every earlier snapshot remains a prefix of
//! every later one — so an observer that reads only the latest value still
//! sees every line that was ever committed.

use vstd::prelude::*;
use vstd::string::StringExecFns;

verus! {

/// The rendered form of one received message: `[source]: text` and a newline.
pub open spec fn line_of(src: Seq<char>, text: Seq<char>) -> Seq<char> {
    "["@ + src + "]: "@ + text + "\n"@
}

/// The transcript itself. Created empty; grows only by whole lines.
pub struct ChatLog {
    text: String,
}

impl View for ChatLog {
    type V = Seq<char>;

    closed spec fn view(&self) -> Seq<char> {
        self.text@
    }
}

impl ChatLog {
    /// An empty transcript.
    pub fn new() -> (l: ChatLog)
        ensures
            l@ == Seq::<char>::empty(),
    {
        ChatLog { text: String::new() }
    }

    /// Appends one line, rendered as `[src]: text` plus a newline, in one
    /// atomic step; the old transcript stays a prefix of the new one.
    pub fn append_line(&mut self, src: &str, text: &str)
        ensures
            final(self)@ == old(self)@ + line_of(src@, text@),
            old(self)@.is_prefix_of(final(self)@),
    {
        let ghost before = self.text@;
        self.text.append("[");
        self.text.append(src);
        self.text.append("]: ");
        self.text.append(text);
        self.text.append("\n");
        proof {
            assert(self.text@ =~= before + line_of(src@, text@));
            assert(before =~= self.text@.subrange(0, before.len() as int));
        }
    }

    /// Consumer interface: the full accumulated transcript so far.
    pub fn current_log(&self) -> (s: String)
        ensures
            s@ == self@,
    {
        String::from_str(self.text.as_str())
    }
}

} // verus!
