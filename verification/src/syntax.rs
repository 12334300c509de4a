//! The declaration under derivation, as plain data.
//!
//! These types hold what the derivation reads of a parsed declaration: the
//! names, the shape of each type and the structured form of each attribute,
//! every node with a handle to its place in the source text.

use vstd::prelude::*;
use vstd::string::StringExecFns;

verus! {

/// An opaque handle to a region of the source text.
#[derive(Clone, Copy, Debug, PartialEq, Eq, Structural)]
pub struct Span {
    pub id: u64,
}

/// Why a derivation was refused, and where.
#[derive(Debug)]
pub struct Diagnostic {
    pub message: String,
    pub span: Span,
}

/// A diagnostic as a mathematical value.
pub ghost struct DiagnosticView {
    pub message: Seq<char>,
    pub span: Span,
}

impl View for Diagnostic {
    type V = DiagnosticView;

    open spec fn view(&self) -> DiagnosticView {
        DiagnosticView { message: self.message@, span: self.span }
    }
}

impl Diagnostic {
    /// A diagnostic with the given message at the given place.
    pub fn new(span: Span, message: &str) -> (d: Diagnostic)
        ensures
            d@ == (DiagnosticView { message: message@, span }),
    {
        Diagnostic { message: String::from_str(message), span }
    }

    /// A copy of this diagnostic.
    pub fn duplicate(&self) -> (d: Diagnostic)
        ensures
            d@ == self@,
    {
        Diagnostic { message: self.message.clone(), span: self.span }
    }
}

/// A string literal: its value without the quotes.
#[derive(Debug)]
pub struct LitStr {
    pub value: String,
    pub span: Span,
}

/// A literal; only string literals carry what the derivation reads.
#[derive(Debug)]
pub enum Lit {
    Str(LitStr),
    Other(Span),
}

/// The arguments that follow a path segment.
#[derive(Debug)]
pub enum PathArguments {
    Empty,
    AngleBracketed(Vec<GenericArgument>),
    Parenthesized,
}

/// One argument between angle brackets.
#[derive(Debug)]
pub enum GenericArgument {
    Type(Type),
    Other,
}

/// One segment of a path: a name and its arguments.
#[derive(Debug)]
pub struct PathSegment {
    pub ident: String,
    pub arguments: PathArguments,
}

/// A path such as `std::option::Option<T>` or `builder`.
#[derive(Debug)]
pub struct Path {
    pub leading_colon: bool,
    pub segments: Vec<PathSegment>,
}

/// A type as written, with its path where it is a path type.
#[derive(Debug)]
pub struct Type {
    pub tokens: String,
    pub path: Option<Path>,
    pub span: Span,
}

/// `key = literal` inside an attribute.
#[derive(Debug)]
pub struct MetaNameValue {
    pub path: Path,
    pub lit: Lit,
    pub span: Span,
}

/// `path(entry, entry, ..)`.
#[derive(Debug)]
pub struct MetaList {
    pub path: Path,
    pub nested: Vec<NestedMeta>,
    pub span: Span,
}

/// The structured form of an attribute's content.
#[derive(Debug)]
pub enum Meta {
    Path(Path, Span),
    List(MetaList),
    NameValue(MetaNameValue),
}

/// One entry of a list: a further form, or a bare literal.
#[derive(Debug)]
pub enum NestedMeta {
    Meta(Meta),
    Lit(Lit),
}

/// An attribute: its structured form, or why it has none.
#[derive(Debug)]
pub struct Attribute {
    pub meta: Result<Meta, Diagnostic>,
    pub span: Span,
}

/// A field of a record as declared.
#[derive(Debug)]
pub struct Field {
    pub attrs: Vec<Attribute>,
    pub ident: Option<String>,
    pub ty: Type,
    pub span: Span,
}

/// Generic parameters, carried through unread.
#[derive(Debug)]
pub struct Generics {
    pub tokens: String,
}

/// The fields of a product type, in the order of the declaration.
#[derive(Debug)]
pub struct DataStruct {
    pub fields: Vec<Field>,
}

/// What kind of type a declaration declares.
#[derive(Debug)]
pub enum Data {
    Struct(DataStruct),
    Enum,
    Union,
}

/// A declaration that carries the derive directive.
#[derive(Debug)]
pub struct DeriveInput {
    pub attrs: Vec<Attribute>,
    pub ident: String,
    pub generics: Generics,
    pub data: Data,
    pub span: Span,
}

impl Lit {
    /// The place of this literal.
    pub open spec fn spec_span(&self) -> Span {
        match *self {
            Lit::Str(s) => s.span,
            Lit::Other(span) => span,
        }
    }

    /// The place of this node.
    #[verifier::when_used_as_spec(spec_span)]
    pub fn span(&self) -> (s: Span)
        ensures
            s == self.spec_span(),
    {
        match self {
            Lit::Str(s) => s.span,
            Lit::Other(span) => *span,
        }
    }
}

impl Meta {
    /// The place of this form.
    pub open spec fn spec_span(&self) -> Span {
        match *self {
            Meta::Path(_, span) => span,
            Meta::List(list) => list.span,
            Meta::NameValue(pair) => pair.span,
        }
    }

    /// The place of this node.
    #[verifier::when_used_as_spec(spec_span)]
    pub fn span(&self) -> (s: Span)
        ensures
            s == self.spec_span(),
    {
        match self {
            Meta::Path(_, span) => *span,
            Meta::List(list) => list.span,
            Meta::NameValue(pair) => pair.span,
        }
    }
}

impl NestedMeta {
    /// The place of this entry.
    pub open spec fn spec_span(&self) -> Span {
        match *self {
            NestedMeta::Meta(meta) => meta.spec_span(),
            NestedMeta::Lit(lit) => lit.spec_span(),
        }
    }

    /// The place of this node.
    #[verifier::when_used_as_spec(spec_span)]
    pub fn span(&self) -> (s: Span)
        ensures
            s == self.spec_span(),
    {
        match self {
            NestedMeta::Meta(meta) => meta.span(),
            NestedMeta::Lit(lit) => lit.span(),
        }
    }
}

/// Whether `text` and `name` hold the same characters.
pub fn same_text(text: &String, name: &str) -> (r: bool)
    ensures
        r == (text@ == name@),
{
    let owned = String::from_str(name);
    *text == owned
}

impl Path {
    /// Whether this path is the single plain name `name`: no leading colons,
    /// one segment, no arguments.
    pub open spec fn spec_is_ident(&self, name: Seq<char>) -> bool {
        &&& !self.leading_colon
        &&& self.segments@.len() == 1
        &&& self.segments@[0].arguments is Empty
        &&& self.segments@[0].ident@ == name
    }

    /// Tells whether this path is the single plain name `name`.
    pub fn is_ident(&self, name: &str) -> (r: bool)
        ensures
            r == self.spec_is_ident(name@),
    {
        if self.leading_colon || self.segments.len() != 1 {
            return false;
        }
        match &self.segments[0].arguments {
            PathArguments::Empty => same_text(&self.segments[0].ident, name),
            _ => false,
        }
    }
}

} // verus!
