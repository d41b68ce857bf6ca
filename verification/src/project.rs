//! What the rules share while they run: the report they write to, the
//! resolver that knows the project's declarations, and the lines of the
//! source files, by which a finding is given its line.

use vstd::prelude::*;
use crate::error::Error;
use crate::span::{Span, SpanView};
use crate::syntax::item::{ItemKind, ItemKindView};
use crate::syntax::ty::{Path, PathRoot, PathSegmentView, PathView, Ty, TyView};

verus! {

/// How much a finding matters.
#[derive(Clone, Copy, Debug, PartialEq, Eq, Structural)]
pub enum Severity {
    Low,
    Medium,
    High,
}

/// One finding: the module it is about, the line it points at, its severity
/// and the message.
#[derive(Debug, PartialEq, Eq)]
pub struct Entry {
    pub path: String,
    pub line: usize,
    pub severity: Severity,
    pub message: String,
}

pub ghost struct EntryView {
    pub path: Seq<char>,
    pub line: nat,
    pub severity: Severity,
    pub message: Seq<char>,
}

impl View for Entry {
    type V = EntryView;

    open spec fn view(&self) -> EntryView {
        EntryView {
            path: self.path@,
            line: self.line as nat,
            severity: self.severity,
            message: self.message@,
        }
    }
}

/// The findings of a run, in the order they were made.
#[derive(Debug, PartialEq, Eq)]
pub struct Report {
    pub entries: Vec<Entry>,
}

impl View for Report {
    type V = Seq<EntryView>;

    open spec fn view(&self) -> Seq<EntryView> {
        self.entries@.map_values(|e: Entry| e@)
    }
}

impl Report {
    pub fn new() -> (report: Report)
        ensures
            report@ == Seq::<EntryView>::empty(),
    {
        let report = Report { entries: Vec::new() };
        assert(report@ =~= Seq::empty());
        report
    }

    /// Appends one finding. Nothing that was reported before changes.
    pub fn add_entry(
        &mut self,
        path: &str,
        line: usize,
        severity: Severity,
        message: String,
    )
        ensures
            final(self)@ == old(self)@.push(
                EntryView { path: path@, line: line as nat, severity, message: message@ },
            ),
    {
        let entry = Entry { path: path.to_owned(), line, severity, message };
        self.entries.push(entry);
        assert(self@ =~= old(self)@.push(entry@));
    }
}

/// One line of a source file: the byte offsets at which it starts and at
/// which it ends. The line holds the offsets from its start up to, but not
/// including, its end.
#[derive(Clone, Copy, Debug, PartialEq, Eq)]
pub struct LineRange {
    pub start: usize,
    pub end: usize,
}

impl LineRange {
    /// Whether the line holds `offset`.
    pub open spec fn holds(self, offset: nat) -> bool {
        self.start <= offset < self.end
    }
}

/// The lines of one source file, the first line first.
#[derive(Debug, PartialEq, Eq)]
pub struct FileLines {
    pub path: String,
    pub ranges: Vec<LineRange>,
}

pub ghost struct FileLinesView {
    pub path: Seq<char>,
    pub ranges: Seq<LineRange>,
}

impl View for FileLines {
    type V = FileLinesView;

    open spec fn view(&self) -> FileLinesView {
        FileLinesView { path: self.path@, ranges: self.ranges@ }
    }
}

/// The place of the first of `ranges` that holds `offset`, if one does.
pub open spec fn first_holding(ranges: Seq<LineRange>, offset: nat) -> Option<nat>
    decreases ranges.len(),
{
    if ranges.len() == 0 {
        None
    } else if ranges[0].holds(offset) {
        Some(0)
    } else {
        match first_holding(ranges.skip(1), offset) {
            Some(place) => Some(place + 1),
            None => None,
        }
    }
}

/// The first of `files` that stands under `path`, if one does.
pub open spec fn first_file(files: Seq<FileLinesView>, path: Seq<char>) -> Option<FileLinesView>
    decreases files.len(),
{
    if files.len() == 0 {
        None
    } else if files[0].path == path {
        Some(files[0])
    } else {
        first_file(files.skip(1), path)
    }
}

/// The lines of the project's source files: what maps a span to the line it
/// starts on.
#[derive(Debug, PartialEq, Eq)]
pub struct Lines {
    pub files: Vec<FileLines>,
}

pub ghost struct LinesView {
    pub files: Seq<FileLinesView>,
}

impl View for Lines {
    type V = LinesView;

    open spec fn view(&self) -> LinesView {
        LinesView { files: self.files@.map_values(|f: FileLines| f@) }
    }
}

impl LinesView {
    /// The line that `span` starts on in the file at `path`, counted from 1:
    /// the first line of the file that holds the span's start. A span in a
    /// file that is not known, or one that starts on no line, has no line.
    pub open spec fn line_of(self, path: Seq<char>, span: SpanView) -> Option<nat> {
        match first_file(self.files, path) {
            Some(file) => match first_holding(file.ranges, span.start) {
                Some(place) => Some(place + 1),
                None => None,
            },
            None => None,
        }
    }

    /// How many of `spans`, from the first on, have a line: the place of the
    /// first that has none, or the number of them all.
    pub open spec fn located(self, path: Seq<char>, spans: Seq<SpanView>) -> nat
        decreases spans.len(),
    {
        if spans.len() == 0 {
            0
        } else if self.line_of(path, spans[0]).is_none() {
            0
        } else {
            1 + self.located(path, spans.skip(1))
        }
    }

    /// Whether one of `spans` has no line.
    pub open spec fn fails_on(self, path: Seq<char>, spans: Seq<SpanView>) -> bool {
        self.located(path, spans) < spans.len()
    }

    /// Where the first `count` of `spans` have a line and the next has none,
    /// or there is no next, `count` of them are located.
    pub proof fn lemma_located(self, path: Seq<char>, spans: Seq<SpanView>, count: nat)
        requires
            count <= spans.len(),
            forall|j: int| 0 <= j < count ==> self.line_of(path, #[trigger] spans[j]).is_some(),
            count == spans.len() || self.line_of(path, spans[count as int]).is_none(),
        ensures
            self.located(path, spans) == count,
        decreases spans.len(),
    {
        if count > 0 {
            let rest = spans.skip(1);
            assert forall|j: int| 0 <= j < count - 1 implies self.line_of(
                path,
                #[trigger] rest[j],
            ).is_some() by {
                assert(rest[j] == spans[j + 1]);
            }
            self.lemma_located(path, rest, (count - 1) as nat);
        }
    }

    /// Of no span none is located, and a single span is located exactly if
    /// it has a line.
    pub proof fn lemma_located_few(self, path: Seq<char>, span: SpanView)
        ensures
            self.located(path, Seq::empty()) == 0,
            self.located(path, seq![span]) == if self.line_of(path, span).is_some() {
                1nat
            } else {
                0nat
            },
    {
        reveal_with_fuel(LinesView::located, 2);
        assert(seq![span].skip(1) =~= Seq::<SpanView>::empty());
    }

    /// A report fails exactly where one of the spans has no line, and the
    /// first such span is the one behind the located ones.
    pub proof fn law_fails_where_a_span_has_no_line(self, path: Seq<char>, spans: Seq<SpanView>)
        ensures
            self.fails_on(path, spans) <==> exists|i: int|
                0 <= i < spans.len() && self.line_of(path, #[trigger] spans[i]).is_none(),
            self.fails_on(path, spans) ==> self.line_of(
                path,
                spans[self.located(path, spans) as int],
            ).is_none(),
        decreases spans.len(),
    {
        self.lemma_located_have_lines(path, spans);
        if spans.len() > 0 && self.line_of(path, spans[0]).is_some() {
            let rest = spans.skip(1);
            self.law_fails_where_a_span_has_no_line(path, rest);
            if self.fails_on(path, spans) {
                let first = self.located(path, rest) as int;
                assert(spans[first + 1] == rest[first]);
            }
        }
    }

    /// No more spans are located than there are, and each located span has a
    /// line.
    pub proof fn lemma_located_have_lines(self, path: Seq<char>, spans: Seq<SpanView>)
        ensures
            self.located(path, spans) <= spans.len(),
            forall|j: int|
                0 <= j < self.located(path, spans) ==> self.line_of(
                    path,
                    #[trigger] spans[j],
                ).is_some(),
        decreases spans.len(),
    {
        if spans.len() > 0 && self.line_of(path, spans[0]).is_some() {
            let rest = spans.skip(1);
            self.lemma_located_have_lines(path, rest);
            assert forall|j: int| 0 <= j < self.located(path, spans) implies self.line_of(
                path,
                #[trigger] spans[j],
            ).is_some() by {
                if j > 0 {
                    assert(spans[j] == rest[j - 1]);
                }
            }
        }
    }
}

impl Lines {
    /// The lines of no file.
    pub fn new() -> (lines: Lines)
        ensures
            lines@.files == Seq::<FileLinesView>::empty(),
    {
        let lines = Lines { files: Vec::new() };
        assert(lines@.files =~= Seq::empty());
        lines
    }

    /// Makes the lines of the file at `path` known, after those of the files
    /// known before. Of two files under one path the first counts.
    pub fn add_file(&mut self, path: &str, ranges: Vec<LineRange>)
        ensures
            final(self)@.files == old(self)@.files.push(
                FileLinesView { path: path@, ranges: ranges@ },
            ),
    {
        let file = FileLines { path: path.to_owned(), ranges };
        self.files.push(file);
        assert(self@.files =~= old(self)@.files.push(file@));
    }

    /// The line that `span` starts on in the file at `path`, counted from 1,
    /// or `Error::LineNotFound` where the span has no line.
    pub fn span_to_line(&self, path: &str, span: &Span) -> (result: Result<usize, Error>)
        ensures
            match result {
                Ok(line) => self@.line_of(path@, span@) == Some(line as nat),
                Err(error) => error == Error::LineNotFound && self@.line_of(
                    path@,
                    span@,
                ).is_none(),
            },
    {
        let wanted = path.to_owned();
        let ghost files = self@.files;
        assert(files.skip(0) =~= files);
        let mut i: usize = 0;
        while i < self.files.len()
            invariant
                i <= self.files.len(),
                wanted@ == path@,
                files == self@.files,
                first_file(files, path@) == first_file(files.skip(i as int), path@),
            decreases self.files.len() - i,
        {
            assert(files.skip(i as int)[0] == self.files[i as int]@);
            assert(files.skip(i as int).skip(1) =~= files.skip(i + 1));
            if self.files[i].path == wanted {
                return line_in(&self.files[i].ranges, span.start);
            }
            i += 1;
        }
        Err(Error::LineNotFound)
    }
}

/// The number of the first of `ranges` that holds `offset`, counted from 1.
fn line_in(ranges: &Vec<LineRange>, offset: usize) -> (result: Result<usize, Error>)
    ensures
        match result {
            Ok(line) => line >= 1 && first_holding(ranges@, offset as nat) == Some(
                (line - 1) as nat,
            ),
            Err(error) => error == Error::LineNotFound && first_holding(
                ranges@,
                offset as nat,
            ).is_none(),
        },
{
    let ghost all = ranges@;
    assert(all.skip(0) =~= all);
    let mut i: usize = 0;
    while i < ranges.len()
        invariant
            i <= ranges.len(),
            all == ranges@,
            first_holding(all, offset as nat) == match first_holding(
                all.skip(i as int),
                offset as nat,
            ) {
                Some(place) => Some((place + i) as nat),
                None => None,
            },
        decreases ranges.len() - i,
    {
        assert(all.skip(i as int)[0] == ranges[i as int]);
        assert(all.skip(i as int).skip(1) =~= all.skip(i + 1));
        if ranges[i].start <= offset && offset < ranges[i].end {
            return Ok(i + 1);
        }
        i += 1;
    }
    Err(Error::LineNotFound)
}

/// A declaration that the resolver knows, under the path that names it.
#[derive(Debug, PartialEq, Eq)]
pub struct Declaration {
    pub path: Vec<String>,
    pub item: ItemKind,
}

pub ghost struct DeclarationView {
    pub path: Seq<Seq<char>>,
    pub item: ItemKindView,
}

impl View for Declaration {
    type V = DeclarationView;

    open spec fn view(&self) -> DeclarationView {
        DeclarationView { path: self.path@.map_values(|s: String| s@), item: self.item@ }
    }
}

impl PathView {
    /// The names of the path's segments, in order.
    pub open spec fn names(self) -> Seq<Seq<char>> {
        seq![self.prefix.name.name] + self.suffix.map_values(
            |s: PathSegmentView| s.name.name,
        )
    }
}

impl TyView {
    /// The names under which a type can have a declaration: those of the
    /// segments of a path type that starts at its first segment. No other
    /// type has a declaration.
    pub open spec fn declared_path(self) -> Option<Seq<Seq<char>>> {
        match self {
            TyView::Path(path) => if path.root is Local {
                Some(path.names())
            } else {
                None
            },
            _ => None,
        }
    }
}

/// The first of `declarations` that stands under `path`, if one does.
pub open spec fn first_declared(declarations: Seq<DeclarationView>, path: Seq<Seq<char>>) -> Option<
    DeclarationView,
>
    decreases declarations.len(),
{
    if declarations.len() == 0 {
        None
    } else if declarations[0].path == path {
        Some(declarations[0])
    } else {
        first_declared(declarations.skip(1), path)
    }
}

/// The declarations of the project: canonical paths and built-in names, each
/// with what it declares.
#[derive(Debug, PartialEq, Eq)]
pub struct Resolver {
    pub declarations: Vec<Declaration>,
}

pub ghost struct ResolverView {
    pub declarations: Seq<DeclarationView>,
}

impl ResolverView {
    /// The declaration of `ty`: the first one that stands under the type's
    /// path. Generic arguments play no part.
    pub open spec fn resolve(self, ty: TyView) -> Option<DeclarationView> {
        match ty.declared_path() {
            Some(path) => first_declared(self.declarations, path),
            None => None,
        }
    }
}

impl View for Resolver {
    type V = ResolverView;

    open spec fn view(&self) -> ResolverView {
        ResolverView { declarations: self.declarations@.map_values(|d: Declaration| d@) }
    }
}

impl Path {
    /// Whether the names of the path's segments are exactly `names`.
    pub fn is_named(&self, names: &Vec<String>) -> (same: bool)
        ensures
            same == (self@.names() == names@.map_values(|s: String| s@)),
    {
        let ghost mine = self@.names();
        let ghost theirs = names@.map_values(|s: String| s@);
        assert(mine.len() == self.suffix.len() + 1);
        if names.len() == 0 || names.len() - 1 != self.suffix.len() {
            return false;
        }
        if self.prefix.name.name != names[0] {
            assert(mine[0] != theirs[0]);
            return false;
        }
        let mut i: usize = 0;
        while i < self.suffix.len()
            invariant
                i <= self.suffix.len(),
                names.len() == self.suffix.len() + 1,
                mine == self@.names(),
                theirs == names@.map_values(|s: String| s@),
                forall|j: int| 0 <= j <= i ==> mine[j] == theirs[j],
            decreases self.suffix.len() - i,
        {
            assert(mine[i + 1] == self.suffix[i as int]@.name.name);
            if self.suffix[i].name.name != names[i + 1] {
                assert(mine[i + 1] != theirs[i + 1]);
                return false;
            }
            i += 1;
        }
        assert(mine =~= theirs);
        true
    }
}

impl Resolver {
    /// A resolver that knows no declaration.
    pub fn new() -> (resolver: Resolver)
        ensures
            resolver@.declarations == Seq::<DeclarationView>::empty(),
    {
        let resolver = Resolver { declarations: Vec::new() };
        assert(resolver@.declarations =~= Seq::empty());
        resolver
    }

    /// Makes `item` known under `path`, after everything known before.
    pub fn declare(&mut self, path: Vec<String>, item: ItemKind)
        ensures
            final(self)@.declarations == old(self)@.declarations.push(
                DeclarationView { path: path@.map_values(|s: String| s@), item: item@ },
            ),
    {
        let declaration = Declaration { path, item };
        self.declarations.push(declaration);
        assert(self@.declarations =~= old(self)@.declarations.push(declaration@));
    }

    /// The declaration of `ty`, if the resolver knows one.
    pub fn resolve_ty(&self, ty: &Ty) -> (found: Option<&ItemKind>)
        ensures
            match found {
                Some(item) => self@.resolve(ty@) matches Some(declaration) && declaration.item
                    == item@,
                None => self@.resolve(ty@).is_none(),
            },
    {
        let path = match ty {
            Ty::Path(path) => path,
            _ => {
                return None;
            },
        };
        match path.root {
            PathRoot::Local => {},
            _ => {
                return None;
            },
        }
        let ghost wanted = path@.names();
        let ghost all = self@.declarations;
        assert(ty@.declared_path() == Some(wanted));
        assert(all.skip(0) =~= all);
        let mut i: usize = 0;
        while i < self.declarations.len()
            invariant
                i <= self.declarations.len(),
                wanted == path@.names(),
                all == self@.declarations,
                self@.resolve(ty@) == first_declared(all, wanted),
                first_declared(all, wanted) == first_declared(all.skip(i as int), wanted),
            decreases self.declarations.len() - i,
        {
            let declaration = &self.declarations[i];
            assert(all.skip(i as int)[0] == declaration@);
            assert(all.skip(i as int).skip(1) =~= all.skip(i + 1));
            if path.is_named(&declaration.path) {
                return Some(&declaration.item);
            }
            i += 1;
        }
        None
    }
}

/// What the rules are handed at every step of a walk: the report they write
/// to, the resolver, and the lines of the source files.
#[derive(Debug, PartialEq, Eq)]
pub struct Project {
    pub report: Report,
    pub resolver: Resolver,
    pub lines: Lines,
}

impl Project {
    /// A project with nothing reported, nothing declared and no file known.
    pub fn new() -> (project: Project)
        ensures
            project.report@ == Seq::<EntryView>::empty(),
            project.resolver@.declarations == Seq::<DeclarationView>::empty(),
            project.lines@.files == Seq::<FileLinesView>::empty(),
    {
        Project { report: Report::new(), resolver: Resolver::new(), lines: Lines::new() }
    }

    /// The line that `span` starts on in the file at `path`, counted from 1,
    /// or `Error::LineNotFound` where the span has no line.
    pub fn span_to_line(&self, path: &str, span: &Span) -> (result: Result<usize, Error>)
        ensures
            match result {
                Ok(line) => self.lines@.line_of(path@, span@) == Some(line as nat),
                Err(error) => error == Error::LineNotFound && self.lines@.line_of(
                    path@,
                    span@,
                ).is_none(),
            },
    {
        self.lines.span_to_line(path, span)
    }

    /// Whether `later` is this project but for what was reported.
    pub open spec fn reported_to(self, later: Project) -> bool {
        later.resolver == self.resolver && later.lines == self.lines
    }
}

} // verus!
