use vstd::prelude::*;

verus! {

/// Identifies which process stream produced a line of output.
#[derive(Debug, Clone, Copy, PartialEq, Eq, Structural)]
pub enum StreamSource {
    Stdout,
    Stderr,
}

/// A single line of process output together with the stream it came from.
#[derive(Debug, Clone)]
pub struct StreamLine {
    line: String,
    source: StreamSource,
}

impl StreamLine {
    pub closed spec fn text_view(&self) -> Seq<char> {
        self.line@
    }

    pub closed spec fn source_view(&self) -> StreamSource {
        self.source
    }

    pub fn new(line: String, source: StreamSource) -> (r: Self)
        ensures
            r.text_view() == line@,
            r.source_view() == source,
    {
        StreamLine { line, source }
    }

    pub fn stdout(line: String) -> (r: Self)
        ensures
            r.text_view() == line@,
            r.source_view() == StreamSource::Stdout,
    {
        StreamLine { line, source: StreamSource::Stdout }
    }

    pub fn stderr(line: String) -> (r: Self)
        ensures
            r.text_view() == line@,
            r.source_view() == StreamSource::Stderr,
    {
        StreamLine { line, source: StreamSource::Stderr }
    }

    /// The text of the line, without its origin.
    pub fn text(&self) -> (r: String)
        ensures
            r@ == self.text_view(),
    {
        self.line.clone()
    }

    /// A copy of this line.
    pub fn duplicate(&self) -> (r: Self)
        ensures
            r.text_view() == self.text_view(),
            r.source_view() == self.source_view(),
    {
        StreamLine { line: self.line.clone(), source: self.source }
    }

    pub fn source(&self) -> (r: StreamSource)
        ensures
            r == self.source_view(),
    {
        self.source
    }
}

} // verus!
