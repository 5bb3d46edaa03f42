//! Append-only text sinks that rendering writes into.
use vstd::prelude::*;
use vstd::string::StringExecFns;

verus! {

/// A sink of SQL text. Its model is the sequence of characters appended so far.
pub trait SqlWriter {
    spec fn text(&self) -> Seq<char>;

    fn push_str(&mut self, s: &str)
        ensures
            final(self).text() == old(self).text() + s@,
    ;

    fn push_char(&mut self, c: char)
        ensures
            final(self).text() == old(self).text().push(c),
    ;
}

/// An in-memory writer that collects the rendered text in a `String`.
pub struct SqlString {
    buf: String,
}

/// Relies on `String::push`: appends exactly the one character.
#[verifier::external_body]
fn string_push(s: &mut String, c: char)
    ensures
        final(s)@ == old(s)@.push(c),
{
    s.push(c)
}

impl SqlString {
    pub fn new() -> (w: SqlString)
        ensures
            w.text() == Seq::<char>::empty(),
    {
        SqlString { buf: String::new() }
    }

    /// The text written so far.
    pub fn as_str(&self) -> (s: &str)
        ensures
            s@ == self.text(),
    {
        self.buf.as_str()
    }

    /// Consumes the writer and hands back its text.
    pub fn into_string(self) -> (s: String)
        ensures
            s@ == self.text(),
    {
        self.buf
    }
}

impl SqlWriter for SqlString {
    closed spec fn text(&self) -> Seq<char> {
        self.buf@
    }

    fn push_str(&mut self, s: &str) {
        self.buf.append(s);
    }

    fn push_char(&mut self, c: char) {
        string_push(&mut self.buf, c);
    }
}

} // verus!
