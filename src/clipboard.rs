use vstd::prelude::*;

verus! {

/// Why reading the clipboard failed.
#[derive(Debug, Clone, Copy, PartialEq, Eq, Structural)]
pub enum ClipboardError {
    /// The clipboard could not be opened.
    OpenFailed,
    /// The clipboard holds no text.
    NoTextData,
    /// The clipboard's memory could not be locked.
    LockFailed,
}

/// The most recently captured clipboard text, if any. It is replaced as a
/// whole by each successful capture and otherwise only cleared.
pub struct ClipboardManager {
    pub buffer: Option<String>,
}

impl ClipboardManager {
    /// An empty buffer.
    pub fn new() -> (r: ClipboardManager)
        ensures
            r.buffer is None,
    {
        ClipboardManager { buffer: None }
    }

    /// Takes the result of one clipboard read. Text replaces the buffer; a
    /// failed read is handed back and leaves the buffer as it was.
    pub fn capture_clipboard(&mut self, read: Result<String, ClipboardError>) -> (r: Result<
        (),
        ClipboardError,
    >)
        ensures
            match read {
                Ok(text) => r is Ok && final(self).buffer == Some(text),
                Err(e) => r == Err::<(), ClipboardError>(e) && final(self).buffer == old(
                    self,
                ).buffer,
            },
    {
        match read {
            Ok(text) => {
                self.buffer = Some(text);
                Ok(())
            },
            Err(e) => Err(e),
        }
    }

    /// The captured text, if any.
    pub fn get_buffer(&self) -> (r: Option<&String>)
        ensures
            match self.buffer {
                Some(text) => r == Some(&text),
                None => r is None,
            },
    {
        self.buffer.as_ref()
    }

    /// Empties the buffer.
    pub fn clear_buffer(&mut self)
        ensures
            final(self).buffer is None,
    {
        self.buffer = None;
    }
}

} // verus!
