//! Located runs of source text, and the identifiers written in them.

use vstd::prelude::*;

verus! {

/// A run of source text together with the byte offsets at which it was found.
///
/// The offsets say where a diagnostic points. Everything that looks a span up
/// does so by its text alone: two spans with the same spelling are the same
/// key, wherever they stand.
#[derive(Debug, PartialEq, Eq)]
pub struct Span {
    pub text: String,
    pub start: usize,
    pub end: usize,
}

pub ghost struct SpanView {
    pub text: Seq<char>,
    pub start: nat,
    pub end: nat,
}

impl View for Span {
    type V = SpanView;

    open spec fn view(&self) -> SpanView {
        SpanView { text: self.text@, start: self.start as nat, end: self.end as nat }
    }
}

impl SpanView {
    /// The span that stands for "no place in the source": empty text at offset 0.
    pub open spec fn dummy() -> SpanView {
        SpanView { text: Seq::empty(), start: 0, end: 0 }
    }
}

impl Span {
    pub fn new(text: &str, start: usize, end: usize) -> (span: Span)
        ensures
            span@ == (SpanView { text: text@, start: start as nat, end: end as nat }),
    {
        Span { text: text.to_owned(), start, end }
    }

    /// The span of a node that was made up rather than read from a file.
    pub fn dummy() -> (span: Span)
        ensures
            span@ == SpanView::dummy(),
    {
        Span { text: String::new(), start: 0, end: 0 }
    }

    pub fn as_str(&self) -> (text: &str)
        ensures
            text@ == self@.text,
    {
        self.text.as_str()
    }

    /// Whether two spans spell the same text.
    pub fn same_text(&self, other: &Span) -> (same: bool)
        ensures
            same == (self@.text == other@.text),
    {
        self.text == other.text
    }
}

impl Clone for Span {
    fn clone(&self) -> (span: Span)
        ensures
            span@ == self@,
    {
        Span { text: self.text.clone(), start: self.start, end: self.end }
    }
}

/// An identifier: the name it denotes and the span it was written at.
///
/// An identifier that the analysis makes up has a name and the dummy span.
#[derive(Debug, PartialEq, Eq)]
pub struct Ident {
    pub name: String,
    pub span: Span,
}

pub ghost struct IdentView {
    pub name: Seq<char>,
    pub span: SpanView,
}

impl View for Ident {
    type V = IdentView;

    open spec fn view(&self) -> IdentView {
        IdentView { name: self.name@, span: self.span@ }
    }
}

impl IdentView {
    /// The identifier `name` with no place in the source.
    pub open spec fn unlocated(name: Seq<char>) -> IdentView {
        IdentView { name, span: SpanView::dummy() }
    }
}

impl Ident {
    /// The identifier spelled by `span`.
    pub fn new(span: Span) -> (ident: Ident)
        ensures
            ident@ == (IdentView { name: span@.text, span: span@ }),
    {
        Ident { name: span.text.clone(), span }
    }

    /// An identifier with the given name and no place in the source.
    pub fn new_no_span(name: &str) -> (ident: Ident)
        ensures
            ident@ == IdentView::unlocated(name@),
    {
        Ident { name: name.to_owned(), span: Span::dummy() }
    }

    pub fn as_str(&self) -> (name: &str)
        ensures
            name@ == self@.name,
    {
        self.name.as_str()
    }

    /// Whether the identifier's name is `name`.
    pub fn is_named(&self, name: &str) -> (same: bool)
        ensures
            same == (self@.name == name@),
    {
        let wanted = name.to_owned();
        self.name == wanted
    }
}

impl Clone for Ident {
    fn clone(&self) -> (ident: Ident)
        ensures
            ident@ == self@,
    {
        Ident { name: self.name.clone(), span: self.span.clone() }
    }
}

} // verus!
