use vstd::prelude::*;
use vstd::string::*;
use vstd::utf8::{decode_utf8, valid_utf8};

verus! {

/// What one `read` on a widget's descriptor gave.
pub enum ReadEvent {
    /// The bytes read; none means the end of the file.
    Read(Vec<u8>),
    /// The read was interrupted by a signal.
    Interrupted,
    /// Nothing more can be read now without blocking.
    WouldBlock,
    /// Any other error, with its text.
    Failed(String),
}

/// What to do after a read.
pub enum ReadStep {
    /// Read again.
    Continue,
    /// Stop reading: everything that was there has been read.
    Finish,
    /// Stop with this error.
    Fail(String),
}

/// The bytes read so far from a widget's descriptor.
pub struct FdReadState {
    content: Vec<u8>,
}

impl View for FdReadState {
    type V = Seq<u8>;

    closed spec fn view(&self) -> Seq<u8> {
        self.content@
    }
}

/// The message when a reader has no descriptor to read from.
pub open spec fn no_file_message() -> Seq<char> {
    "No files available"@
}

/// The error of `WidgetFdReader::read_to_end` for a reader without a descriptor.
pub fn no_file_error() -> (msg: String)
    ensures
        msg@ == no_file_message(),
{
    String::from_str("No files available")
}

/// The text that `String::from_utf8`'s error gives (by `to_string`) for
/// bytes that are not valid UTF-8; it depends on the bytes alone (where the
/// valid prefix ends and how long the bad sequence is).
pub uninterp spec fn utf8_error_text(bytes: Seq<u8>) -> Seq<char>;

/// Reads bytes as UTF-8.
///
/// Trusted: calls `String::from_utf8`, which std documents as succeeding
/// exactly when the bytes are valid UTF-8, with the string they encode, and
/// turns its error into text with `to_string`: the named `utf8_error_text`.
#[verifier::external_body]
fn string_from_utf8(bytes: Vec<u8>) -> (res: Result<String, String>)
    ensures
        res is Ok <==> valid_utf8(bytes@),
        res matches Ok(s) ==> s@ == decode_utf8(bytes@),
        res matches Err(e) ==> e@ == utf8_error_text(bytes@),
{
    String::from_utf8(bytes).map_err(|e| e.to_string())
}

impl FdReadState {
    /// Nothing read yet.
    pub fn new() -> (st: Self)
        ensures
            st@ == Seq::<u8>::empty(),
    {
        FdReadState { content: Vec::new() }
    }

    /// Takes in the outcome of one read: keeps the bytes read and reads
    /// again, reads again after an interruption, stops at the end of the file
    /// or when reading would block, and fails with the text of any other error.
    pub fn on_event(&mut self, event: ReadEvent) -> (step: ReadStep)
        ensures
            match event {
                ReadEvent::Read(bytes) => if bytes@.len() == 0 {
                    step is Finish && final(self)@ == old(self)@
                } else {
                    step is Continue && final(self)@ == old(self)@ + bytes@
                },
                ReadEvent::Interrupted => step is Continue && final(self)@ == old(self)@,
                ReadEvent::WouldBlock => step is Finish && final(self)@ == old(self)@,
                ReadEvent::Failed(msg) => (step matches ReadStep::Fail(m) && m@ == msg@)
                    && final(self)@ == old(self)@,
            },
    {
        match event {
            ReadEvent::Read(bytes) => {
                if bytes.len() == 0 {
                    ReadStep::Finish
                } else {
                    let mut bytes = bytes;
                    self.content.append(&mut bytes);
                    ReadStep::Continue
                }
            },
            ReadEvent::Interrupted => ReadStep::Continue,
            ReadEvent::WouldBlock => ReadStep::Finish,
            ReadEvent::Failed(msg) => ReadStep::Fail(msg),
        }
    }

    /// What `read_to_end` gives once reading has stopped: the bytes read, as
    /// text, when they are valid UTF-8, and the text of the UTF-8 error otherwise.
    pub fn finish(self) -> (res: Result<String, String>)
        ensures
            res is Ok <==> valid_utf8(self@),
            res matches Ok(s) ==> s@ == decode_utf8(self@),
            res matches Err(e) ==> e@ == utf8_error_text(self@),
    {
        string_from_utf8(self.content)
    }
}

} // verus!
