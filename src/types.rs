use vstd::prelude::*;

use crate::text::string_of;
use crate::text::chars_of;

verus! {

/// A rule of the grammar, named in the context trail of a failure.
#[derive(Clone, Copy, Debug, PartialEq, Eq, Hash)]
pub enum RuleName {
    Query,
    CreateTable,
    CreateColumn,
    ColumnDefinitions,
    ColumnType,
    ColumnName,
    TableName,
    Values,
}

impl RuleName {
    /// The label under which the rule is shown to a user.
    pub fn label(&self) -> (r: &'static str)
        ensures
            *self == RuleName::Query ==> r@ == "Query"@,
            *self == RuleName::CreateTable ==> r@ == "Create Table"@,
            *self == RuleName::CreateColumn ==> r@ == "Create Column"@,
            *self == RuleName::ColumnDefinitions ==> r@ == "Column Definitions"@,
            *self == RuleName::ColumnType ==> r@ == "Column Type"@,
            *self == RuleName::ColumnName ==> r@ == "Column Name"@,
            *self == RuleName::TableName ==> r@ == "Table Name"@,
            *self == RuleName::Values ==> r@ == "Values"@,
    {
        proof {
            reveal_strlit("Query");
            reveal_strlit("Create Table");
            reveal_strlit("Create Column");
            reveal_strlit("Column Definitions");
            reveal_strlit("Column Type");
            reveal_strlit("Column Name");
            reveal_strlit("Table Name");
            reveal_strlit("Values");
        }
        match self {
            RuleName::Query => "Query",
            RuleName::CreateTable => "Create Table",
            RuleName::CreateColumn => "Create Column",
            RuleName::ColumnDefinitions => "Column Definitions",
            RuleName::ColumnType => "Column Type",
            RuleName::ColumnName => "Column Name",
            RuleName::TableName => "Table Name",
            RuleName::Values => "Values",
        }
    }
}

/// Why a parse failed.
#[derive(Clone, Copy, Debug, PartialEq, Eq, Hash)]
pub enum ErrorKind {
    /// A keyword or a punctuation mark was required and not found.
    TokenMismatch,
    /// An identifier was required and no alphanumeric character was there.
    EmptyIdentifier,
    /// A quoted literal was opened and never closed.
    UnterminatedLiteral,
    /// No statement grammar matched.
    AlternativeExhausted,
    /// A statement matched but text was left after it.
    TrailingInput,
}

/// A parse failure: what went wrong, where (an offset in characters), and the
/// rules that were active, outermost first.
#[derive(Clone, Debug, PartialEq, Eq, Hash)]
pub struct ParseError {
    pub kind: ErrorKind,
    pub offset: usize,
    pub contexts: Vec<RuleName>,
}

/// A failure as plain values: its kind, its offset and its rule trail.
pub type ErrModel = (ErrorKind, int, Seq<RuleName>);

/// A failure of kind `kind` at `offset`, inside no rule yet.
pub open spec fn fail(kind: ErrorKind, offset: int) -> ErrModel {
    (kind, offset, Seq::empty())
}

/// The failure `e` seen from inside the rule `name`.
pub open spec fn nest(name: RuleName, e: ErrModel) -> ErrModel {
    (e.0, e.1, seq![name] + e.2)
}

impl View for ParseError {
    type V = ErrModel;

    open spec fn view(&self) -> ErrModel {
        (self.kind, self.offset as int, self.contexts@)
    }
}

impl ParseError {
    pub fn new(kind: ErrorKind, offset: usize) -> (r: ParseError)
        ensures
            r.kind == kind,
            r.offset == offset,
            r.contexts@.len() == 0,
            r@ == fail(kind, offset as int),
    {
        ParseError { kind, offset, contexts: Vec::new() }
    }

    /// The same failure, seen from inside the rule `name`.
    pub fn within(self, name: RuleName) -> (r: ParseError)
        ensures
            r.kind == self.kind,
            r.offset == self.offset,
            r.contexts@ == seq![name] + self.contexts@,
            r@ == nest(name, self@),
    {
        let mut contexts = self.contexts;
        contexts.insert(0, name);
        assert(contexts@ =~= seq![name] + self.contexts@);
        ParseError { kind: self.kind, offset: self.offset, contexts }
    }
}

/// The input of a parser: the whole text and the position reached in it.
#[derive(Clone, Debug, PartialEq, Eq, Hash)]
pub struct Span {
    pub text: Vec<char>,
    pub offset: usize,
}

impl Span {
    pub open spec fn wf(&self) -> bool {
        self.offset <= self.text@.len()
    }

    /// The remaining characters, from the position on.
    pub open spec fn rest(&self) -> Seq<char> {
        self.text@.subrange(self.offset as int, self.text@.len() as int)
    }

    /// A span at the start of `t`.
    pub fn new(t: &str) -> (r: Span)
        ensures
            r.wf(),
            r.text@ == t@,
            r.offset == 0,
    {
        Span { text: chars_of(t), offset: 0 }
    }

    /// The text that is left to parse.
    pub fn fragment(&self) -> (r: String)
        requires
            self.wf(),
        ensures
            r@ == self.rest(),
    {
        string_of(&self.text, self.offset, self.text.len())
    }
}

/// A parser's outcome agrees with the grammar's answer `m` on text `s`.
pub open spec fn agrees<T: View>(s: Seq<char>, r: Result<(T, usize), ParseError>, m: Option<(T::V, int)>) -> bool {
    match m {
        Some((v, e)) => r matches Ok((x, p)) && x@ == v && p == e,
        None => r matches Err(err) && err.offset <= s.len(),
    }
}

/// The same on a span: the span comes back moved to the end of what was read.
pub open spec fn span_agrees<T: View>(i: Span, r: Result<(Span, T), ParseError>, m: Option<(T::V, int)>) -> bool {
    match m {
        Some((v, e)) => r matches Ok((rest, x)) && x@ == v && rest.text == i.text && rest.offset == e,
        None => r matches Err(err) && err.offset <= i.text@.len(),
    }
}

/// The same for a parse from the start of the text `t`.
pub open spec fn raw_agrees<T: View>(t: Seq<char>, r: Result<(Span, T), ParseError>, m: Option<(T::V, int)>) -> bool {
    match m {
        Some((v, e)) => r matches Ok((rest, x)) && x@ == v && rest.text@ == t && rest.offset == e,
        None => r matches Err(err) && err.offset <= t.len(),
    }
}

/// The value of a parse from the start of `s`, where it took the whole text.
pub open spec fn complete<V>(s: Seq<char>, m: Option<(V, int)>) -> Option<V> {
    match m {
        Some((v, e)) => if e == s.len() {
            Some(v)
        } else {
            None
        },
        None => None,
    }
}

/// A value that the grammar can read from text.
pub trait Parse: Sized + View {
    /// What the grammar reads at position `i` of `s`: the value and the position after it.
    spec fn grammar(s: Seq<char>, i: int) -> Option<(Self::V, int)>;

    /// How reading at position `i` of `s` fails, where the grammar reads nothing.
    spec fn failure(s: Seq<char>, i: int) -> ErrModel;

    /// Reads a value at the span's position.
    fn parse(i: Span) -> (r: Result<(Span, Self), ParseError>)
        requires
            i.wf(),
        ensures
            span_agrees(i, r, Self::grammar(i.text@, i.offset as int)),
            r matches Ok((rest, _)) ==> rest.wf(),
            r matches Err(err) ==> err@ == Self::failure(i.text@, i.offset as int),
    ;

    /// Reads a value from the start of `input`.
    fn parse_from_raw(input: &str) -> (r: Result<(Span, Self), ParseError>)
        ensures
            raw_agrees(input@, r, Self::grammar(input@, 0)),
            r matches Err(err) ==> err@ == Self::failure(input@, 0),
    {
        Self::parse(Span::new(input))
    }

    /// Reads a value that must take the whole of `input`; a failure comes back
    /// placed in the text. Text left over is a failure at its first character.
    fn parse_format_error(input: &str) -> (r: Result<Self, FormattedError>)
        ensures
            match complete(input@, Self::grammar(input@, 0)) {
                Some(v) => r matches Ok(x) && x@ == v,
                None => r matches Err(f) && f.source@ == input@ && f.offset <= input@.len()
                    && (f.line as int, f.column as int) == line_col(input@, f.offset as int)
                    && match Self::grammar(input@, 0) {
                        Some((_, e)) => f.kind == ErrorKind::TrailingInput && f.offset == e
                            && f.contexts@ == Seq::<RuleName>::empty(),
                        None => (f.kind, f.offset as int, f.contexts@) == Self::failure(input@, 0),
                    },
            },
    {
        let s = chars_of(input);
        let len = s.len();
        match Self::parse(Span::new(input)) {
            Ok((rest, v)) => {
                if rest.offset == len {
                    Ok(v)
                } else {
                    let err = ParseError::new(ErrorKind::TrailingInput, rest.offset);
                    Err(FormattedError::new(input, &s, err))
                }
            },
            Err(err) => Err(FormattedError::new(input, &s, err)),
        }
    }
}

/// Line and column (both counted from zero) of position `i`.
pub open spec fn line_col(s: Seq<char>, i: int) -> (int, int)
    decreases i,
{
    if i <= 0 {
        (0, 0)
    } else {
        let (l, c) = line_col(s, i - 1);
        if s[i - 1] == '\n' {
            (l + 1, 0)
        } else {
            (l, c + 1)
        }
    }
}

/// A failure placed in its text: the text, the offset (in characters), the line and
/// column of that offset (counted from zero), what went wrong and the rules that
/// were active, outermost first.
#[derive(Clone, Debug, PartialEq, Eq, Hash)]
pub struct FormattedError {
    pub source: String,
    pub offset: usize,
    pub line: usize,
    pub column: usize,
    pub kind: ErrorKind,
    pub contexts: Vec<RuleName>,
}

impl FormattedError {
    pub fn new(input: &str, s: &Vec<char>, err: ParseError) -> (r: FormattedError)
        requires
            s@ == input@,
            err.offset <= s@.len(),
        ensures
            r.source@ == input@,
            r.offset == err.offset,
            r.kind == err.kind,
            r.contexts == err.contexts,
            (r.line as int, r.column as int) == line_col(s@, err.offset as int),
    {
        let mut line: usize = 0;
        let mut column: usize = 0;
        let mut i: usize = 0;
        while i < err.offset
            invariant
                i <= err.offset <= s@.len(),
                line <= i && column <= i,
                (line as int, column as int) == line_col(s@, i as int),
            decreases err.offset - i,
        {
            if s[i] == '\n' {
                line = line + 1;
                column = 0;
            } else {
                column = column + 1;
            }
            i = i + 1;
        }
        FormattedError {
            source: input.to_string(),
            offset: err.offset,
            line,
            column,
            kind: err.kind,
            contexts: err.contexts,
        }
    }
}

} // verus!
