//! The validated record: what a declaration must look like to get a
//! builder, and what is kept of it.

use vstd::prelude::*;
use crate::syntax::{
    Attribute, Data, DataStruct, DeriveInput, Diagnostic, DiagnosticView, Generics, Lit, LitStr,
    Meta, MetaList, MetaNameValue, NestedMeta, Span, Type,
};

verus! {

/// A declaration that can get a builder.
pub enum Input<'a> {
    Struct(Struct<'a>),
}

/// A record with named fields.
pub struct Struct<'a> {
    pub ident: &'a String,
    pub attrs: Attrs<'a>,
    pub original: &'a DeriveInput,
    pub generics: &'a Generics,
    pub fields: Vec<Field<'a>>,
}

/// One named field of a record.
pub struct Field<'a> {
    pub original: &'a crate::syntax::Field,
    pub attrs: Attrs<'a>,
    pub ident: &'a String,
    pub ty: &'a Type,
}

/// The options that `builder(..)` attributes set.
pub struct Attrs<'a> {
    pub each: Option<&'a LitStr>,
}

/// The diagnostic with this message at this place.
pub open spec fn diagnostic(span: Span, message: Seq<char>) -> DiagnosticView {
    DiagnosticView { message, span }
}

/// What one entry of a `builder(..)` list does to the `each` option read
/// so far: only `each = "literal"` is accepted, and only once.
pub open spec fn entry_step(entry: NestedMeta, seen: Option<LitStr>) -> Result<
    Option<LitStr>,
    DiagnosticView,
> {
    match entry {
        NestedMeta::Lit(lit) => Err(
            diagnostic(lit.spec_span(), "The nested meta must be another meta, not a literal"@),
        ),
        NestedMeta::Meta(Meta::NameValue(pair)) => if pair.path.spec_is_ident("each"@) {
            if seen is Some {
                Err(diagnostic(pair.span, "duplicate meta key each"@))
            } else {
                match pair.lit {
                    Lit::Str(text) => Ok(Some(text)),
                    Lit::Other(span) => Err(diagnostic(span, "expected a string literal"@)),
                }
            }
        } else {
            Err(diagnostic(pair.span, "unrecognized key"@))
        },
        NestedMeta::Meta(meta) => Err(
            diagnostic(meta.spec_span(), "The meta attribute must be a MetaNameValue"@),
        ),
    }
}

/// The outcome of reading the first `n` entries in order, starting from
/// `seen`: the first refusal, or the option as it then stands.
pub open spec fn entries_fold(entries: Seq<NestedMeta>, seen: Option<LitStr>, n: int) -> Result<
    Option<LitStr>,
    DiagnosticView,
>
    decreases n,
{
    if n <= 0 {
        Ok(seen)
    } else {
        match entries_fold(entries, seen, n - 1) {
            Ok(so_far) => entry_step(entries[n - 1], so_far),
            Err(e) => Err(e),
        }
    }
}

/// What one attribute does to the `each` option read so far. It must have
/// a structured form, that form must be a list, and the list must be named
/// `builder`.
pub open spec fn attr_step(attr: Attribute, seen: Option<LitStr>) -> Result<
    Option<LitStr>,
    DiagnosticView,
> {
    match attr.meta {
        Err(d) => Err(d@),
        Ok(Meta::List(list)) => if list.path.spec_is_ident("builder"@) {
            entries_fold(list.nested@, seen, list.nested@.len() as int)
        } else {
            Err(diagnostic(attr.span, "the attribute path was not `builder`"@))
        },
        Ok(meta) => Err(diagnostic(meta.spec_span(), "The meta attribute must be a MetaList"@)),
    }
}

/// The outcome of reading the first `n` attributes in order.
pub open spec fn attrs_fold(attrs: Seq<Attribute>, n: int) -> Result<
    Option<LitStr>,
    DiagnosticView,
>
    decreases n,
{
    if n <= 0 {
        Ok(None)
    } else {
        match attrs_fold(attrs, n - 1) {
            Ok(so_far) => attr_step(attrs[n - 1], so_far),
            Err(e) => Err(e),
        }
    }
}

/// The outcome of reading all of a node's attributes.
pub open spec fn attrs_outcome(attrs: Seq<Attribute>) -> Result<Option<LitStr>, DiagnosticView> {
    attrs_fold(attrs, attrs.len() as int)
}

/// A refusal among the first `i` entries is the outcome of any longer
/// prefix.
pub proof fn lemma_entries_refusal_stays(
    entries: Seq<NestedMeta>,
    seen: Option<LitStr>,
    i: int,
    n: int,
)
    requires
        i <= n,
        entries_fold(entries, seen, i) is Err,
    ensures
        entries_fold(entries, seen, n) == entries_fold(entries, seen, i),
    decreases n - i,
{
    if i < n {
        lemma_entries_refusal_stays(entries, seen, i, n - 1);
    }
}

/// A refusal among the first `i` attributes is the outcome of any longer
/// prefix.
pub proof fn lemma_attrs_refusal_stays(attrs: Seq<Attribute>, i: int, n: int)
    requires
        i <= n,
        attrs_fold(attrs, i) is Err,
    ensures
        attrs_fold(attrs, n) == attrs_fold(attrs, i),
    decreases n - i,
{
    if i < n {
        lemma_attrs_refusal_stays(attrs, i, n - 1);
    }
}

impl<'a> Attrs<'a> {
    /// The `each` literal, if one was given.
    pub open spec fn each_value(&self) -> Option<LitStr> {
        match self.each {
            Some(text) => Some(*text),
            None => None,
        }
    }

    /// Reads the options from a node's attributes, in order. Succeeds
    /// exactly when no attribute and no entry is refused; otherwise the
    /// diagnostic is that of the first refusal.
    pub fn get(input: &'a [Attribute]) -> (r: Result<Attrs<'a>, Diagnostic>)
        ensures
            match attrs_outcome(input@) {
                Ok(each) => r is Ok && r->Ok_0.each_value() == each,
                Err(e) => r is Err && r->Err_0@ == e,
            },
    {
        let mut attrs = Attrs { each: None };
        let mut i: usize = 0;
        while i < input.len()
            invariant
                i <= input@.len(),
                attrs_fold(input@, i as int) == Ok::<Option<LitStr>, DiagnosticView>(
                    attrs.each_value(),
                ),
            decreases input@.len() - i,
        {
            let attr = &input[i];
            let ghost before = attrs.each_value();
            proof {
                assert(attrs_fold(input@, i + 1) == attr_step(input@[i as int], before));
            }
            let meta = match &attr.meta {
                Ok(meta) => meta,
                Err(d) => {
                    proof {
                        lemma_attrs_refusal_stays(input@, i + 1, input@.len() as int);
                    }
                    return Err(d.duplicate());
                },
            };
            let meta_list = match get_meta_list(meta) {
                Ok(list) => list,
                Err(d) => {
                    proof {
                        lemma_attrs_refusal_stays(input@, i + 1, input@.len() as int);
                    }
                    return Err(d);
                },
            };
            if !meta_list.path.is_ident("builder") {
                proof {
                    lemma_attrs_refusal_stays(input@, i + 1, input@.len() as int);
                }
                return Err(Diagnostic::new(attr.span, "the attribute path was not `builder`"));
            }
            let mut j: usize = 0;
            while j < meta_list.nested.len()
                invariant
                    j <= meta_list.nested@.len(),
                    i < input@.len(),
                    attrs_fold(input@, i + 1) == entries_fold(
                        meta_list.nested@,
                        before,
                        meta_list.nested@.len() as int,
                    ),
                    entries_fold(meta_list.nested@, before, j as int) == Ok::<
                        Option<LitStr>,
                        DiagnosticView,
                    >(attrs.each_value()),
                decreases meta_list.nested@.len() - j,
            {
                let ghost so_far = attrs.each_value();
                proof {
                    assert(entries_fold(meta_list.nested@, before, j + 1) == entry_step(
                        meta_list.nested@[j as int],
                        so_far,
                    ));
                }
                match Self::entry(&meta_list.nested[j], attrs.each.is_some()) {
                    Ok(text) => {
                        attrs.each = Some(text);
                    },
                    Err(d) => {
                        proof {
                            lemma_entries_refusal_stays(
                                meta_list.nested@,
                                before,
                                j + 1,
                                meta_list.nested@.len() as int,
                            );
                            lemma_attrs_refusal_stays(input@, i + 1, input@.len() as int);
                        }
                        return Err(d);
                    },
                }
                j += 1;
            }
            i += 1;
        }
        Ok(attrs)
    }

    /// Reads one entry of a `builder(..)` list, given whether `each` was
    /// already set.
    fn entry(nested: &'a NestedMeta, seen: bool) -> (r: Result<&'a LitStr, Diagnostic>)
        ensures
            forall|so_far: Option<LitStr>|
                so_far is Some == seen ==> match #[trigger] entry_step(*nested, so_far) {
                    Ok(each) => r is Ok && each == Some(*r->Ok_0),
                    Err(e) => r is Err && r->Err_0@ == e,
                },
    {
        let meta = get_nested_meta_meta(nested)?;
        let pair = get_meta_name_value(meta)?;
        if pair.path.is_ident("each") {
            if seen {
                return Err(Diagnostic::new(pair.span, "duplicate meta key each"));
            }
            expect_str_from_lit(&pair.lit)
        } else {
            Err(Diagnostic::new(pair.span, "unrecognized key"))
        }
    }
}

/// What reading one declared field gives: its `each` option, or the first
/// refusal. The field must have a name; only then are its attributes read.
pub open spec fn field_outcome(field: crate::syntax::Field) -> Result<
    Option<LitStr>,
    DiagnosticView,
> {
    if field.ident is None {
        Err(diagnostic(field.span, "fields must be named"@))
    } else {
        attrs_outcome(field.attrs@)
    }
}

/// The field of a record that a declared field becomes, where reading it
/// gives no refusal.
pub open spec fn read_field<'a>(node: crate::syntax::Field) -> Field<'a> {
    Field {
        original: &node,
        attrs: Attrs {
            each: match field_outcome(node) {
                Ok(Some(text)) => Some(&text),
                _ => None,
            },
        },
        ident: &node.ident->Some_0,
        ty: &node.ty,
    }
}

/// The fields of a record that declared fields become, in the same order.
pub open spec fn read_fields<'a>(fields: Seq<crate::syntax::Field>) -> Seq<Field<'a>> {
    Seq::new(fields.len(), |i: int| read_field(fields[i]))
}

/// The first refusal among the first `n` declared fields, if there is one.
pub open spec fn fields_refusal(fields: Seq<crate::syntax::Field>, n: int) -> Option<
    DiagnosticView,
>
    decreases n,
{
    if n <= 0 {
        None
    } else {
        match fields_refusal(fields, n - 1) {
            Some(e) => Some(e),
            None => match field_outcome(fields[n - 1]) {
                Err(e) => Some(e),
                Ok(_) => None,
            },
        }
    }
}

/// Why a product type gets no record, if it gets none: a refusal among the
/// record's own attributes, else the first refusal among its fields.
pub open spec fn struct_refusal(node: DeriveInput, data: DataStruct) -> Option<DiagnosticView> {
    match attrs_outcome(node.attrs@) {
        Err(e) => Some(e),
        Ok(_) => fields_refusal(data.fields@, data.fields@.len() as int),
    }
}

/// Why a declaration gets no record, if it gets none. Sum types and union
/// types are refused whatever they hold.
pub open spec fn input_refusal(node: DeriveInput) -> Option<DiagnosticView> {
    match node.data {
        Data::Struct(data) => struct_refusal(node, data),
        Data::Enum => Some(diagnostic(node.span, "sum types are not yet supported"@)),
        Data::Union => Some(diagnostic(node.span, "union types are not yet supported"@)),
    }
}

/// A refusal among the first `i` fields is the first refusal of any longer
/// prefix.
pub proof fn lemma_fields_refusal_stays(fields: Seq<crate::syntax::Field>, i: int, n: int)
    requires
        i <= n,
        fields_refusal(fields, i) is Some,
    ensures
        fields_refusal(fields, n) == fields_refusal(fields, i),
    decreases n - i,
{
    if i < n {
        lemma_fields_refusal_stays(fields, i, n - 1);
    }
}

impl<'a> Field<'a> {
    /// This field is what reading `node` gives: its name, its type and its
    /// `each` option.
    pub open spec fn models(&self, node: crate::syntax::Field) -> bool {
        field_outcome(node) is Ok && *self == read_field(node)
    }

    /// Reads the fields of a record in the order of the declaration. The
    /// result keeps that order; the diagnostic is that of the first field
    /// that is refused.
    pub fn multiple_from_syn(fields: &'a Vec<crate::syntax::Field>) -> (r: Result<
        Vec<Field<'a>>,
        Diagnostic,
    >)
        ensures
            match fields_refusal(fields@, fields@.len() as int) {
                None => r is Ok && r->Ok_0@ == read_fields(fields@),
                Some(e) => r is Err && r->Err_0@ == e,
            },
    {
        let mut out: Vec<Field<'a>> = Vec::new();
        let mut i: usize = 0;
        while i < fields.len()
            invariant
                i <= fields@.len(),
                out@.len() == i,
                fields_refusal(fields@, i as int) is None,
                forall|k: int| 0 <= k < i ==> (#[trigger] out@[k]).models(fields@[k]),
            decreases fields@.len() - i,
        {
            match Field::from_syn(&fields[i]) {
                Ok(field) => {
                    out.push(field);
                },
                Err(d) => {
                    proof {
                        lemma_fields_refusal_stays(fields@, i + 1, fields@.len() as int);
                    }
                    return Err(d);
                },
            }
            i += 1;
        }
        assert(out@ =~= read_fields(fields@));
        Ok(out)
    }

    /// Reads one declared field.
    pub fn from_syn(node: &'a crate::syntax::Field) -> (r: Result<Field<'a>, Diagnostic>)
        ensures
            match field_outcome(*node) {
                Ok(_) => r is Ok && r->Ok_0.models(*node),
                Err(e) => r is Err && r->Err_0@ == e,
            },
    {
        let ident = match &node.ident {
            Some(ident) => ident,
            None => {
                return Err(Diagnostic::new(node.span, "fields must be named"));
            },
        };
        let attrs = Attrs::get(node.attrs.as_slice())?;
        Ok(Field { original: node, attrs, ident, ty: &node.ty })
    }
}

impl<'a> Struct<'a> {
    /// This record is what reading the product type `node` with the fields
    /// of `data` gives: one field per declared field, in the same order.
    pub open spec fn models(&self, node: DeriveInput, data: DataStruct) -> bool {
        &&& *self.original == node
        &&& *self.ident == node.ident
        &&& *self.generics == node.generics
        &&& attrs_outcome(node.attrs@) == Ok::<Option<LitStr>, DiagnosticView>(
            self.attrs.each_value(),
        )
        &&& fields_refusal(data.fields@, data.fields@.len() as int) is None
        &&& self.fields@ == read_fields(data.fields@)
    }

    /// Reads a product type: first the record's own attributes, then the
    /// fields.
    pub fn from_syn(node: &'a DeriveInput, data: &'a DataStruct) -> (r: Result<
        Struct<'a>,
        Diagnostic,
    >)
        ensures
            match struct_refusal(*node, *data) {
                None => r is Ok && r->Ok_0.models(*node, *data),
                Some(e) => r is Err && r->Err_0@ == e,
            },
    {
        let attrs = Attrs::get(node.attrs.as_slice())?;
        let fields = Field::multiple_from_syn(&data.fields)?;
        Ok(Struct { ident: &node.ident, attrs, original: node, generics: &node.generics, fields })
    }
}

impl<'a> Input<'a> {
    /// This input is what reading `node` gives.
    pub open spec fn models(&self, node: DeriveInput) -> bool {
        match (*self, node.data) {
            (Input::Struct(record), Data::Struct(data)) => record.models(node, data),
            _ => false,
        }
    }

    /// Reads a declaration. Only a product type proceeds; a sum type or a
    /// union type is refused at the declaration itself.
    pub fn from_syn(node: &'a DeriveInput) -> (r: Result<Input<'a>, Diagnostic>)
        ensures
            match input_refusal(*node) {
                None => r is Ok && r->Ok_0.models(*node),
                Some(e) => r is Err && r->Err_0@ == e,
            },
    {
        match &node.data {
            Data::Struct(data) => match Struct::from_syn(node, data) {
                Ok(record) => Ok(Input::Struct(record)),
                Err(d) => Err(d),
            },
            Data::Enum => Err(Diagnostic::new(node.span, "sum types are not yet supported")),
            Data::Union => Err(Diagnostic::new(node.span, "union types are not yet supported")),
        }
    }
}

/// The list that an attribute's form must be.
pub fn get_meta_list<'a>(meta: &'a Meta) -> (r: Result<&'a MetaList, Diagnostic>)
    ensures
        match *meta {
            Meta::List(list) => r is Ok && *r->Ok_0 == list,
            _ => r is Err && r->Err_0@ == diagnostic(
                meta.spec_span(),
                "The meta attribute must be a MetaList"@,
            ),
        },
{
    match meta {
        Meta::List(list) => Ok(list),
        _ => Err(Diagnostic::new(meta.span(), "The meta attribute must be a MetaList")),
    }
}

/// The `key = literal` pair that an entry's form must be.
pub fn get_meta_name_value<'a>(meta: &'a Meta) -> (r: Result<&'a MetaNameValue, Diagnostic>)
    ensures
        match *meta {
            Meta::NameValue(pair) => r is Ok && *r->Ok_0 == pair,
            _ => r is Err && r->Err_0@ == diagnostic(
                meta.spec_span(),
                "The meta attribute must be a MetaNameValue"@,
            ),
        },
{
    match meta {
        Meta::NameValue(pair) => Ok(pair),
        _ => Err(Diagnostic::new(meta.span(), "The meta attribute must be a MetaNameValue")),
    }
}

/// The form that a list entry must be: not a bare literal.
pub fn get_nested_meta_meta<'a>(nested: &'a NestedMeta) -> (r: Result<&'a Meta, Diagnostic>)
    ensures
        match *nested {
            NestedMeta::Meta(meta) => r is Ok && *r->Ok_0 == meta,
            NestedMeta::Lit(lit) => r is Err && r->Err_0@ == diagnostic(
                lit.spec_span(),
                "The nested meta must be another meta, not a literal"@,
            ),
        },
{
    match nested {
        NestedMeta::Meta(meta) => Ok(meta),
        NestedMeta::Lit(lit) => Err(
            Diagnostic::new(lit.span(), "The nested meta must be another meta, not a literal"),
        ),
    }
}

/// The string literal that the value of `each` must be.
pub fn expect_str_from_lit<'a>(lit: &'a Lit) -> (r: Result<&'a LitStr, Diagnostic>)
    ensures
        match *lit {
            Lit::Str(text) => r is Ok && *r->Ok_0 == text,
            Lit::Other(span) => r is Err && r->Err_0@ == diagnostic(
                span,
                "expected a string literal"@,
            ),
        },
{
    match lit {
        Lit::Str(text) => Ok(text),
        Lit::Other(span) => Err(Diagnostic::new(*span, "expected a string literal")),
    }
}

} // verus!
