//! From a validated record to the description of its builder.

use vstd::prelude::*;
use vstd::string::StringExecFns;
use crate::ast::{diagnostic, input_refusal, read_fields, Field, Input, Struct};
use crate::ident::{ident_from, opens_too_often};
use crate::syntax::{
    same_text, DeriveInput, Diagnostic, DiagnosticView, GenericArgument, LitStr, PathArguments,
    Span, Type,
};

verus! {

/// The type inside `ty` if `ty` is a path whose last segment is `wrapper`
/// with exactly one argument between angle brackets, that argument a type.
pub open spec fn inner_of(ty: Type, wrapper: Seq<char>) -> Option<Type> {
    match ty.path {
        Some(path) => if path.segments@.len() > 0 && path.segments@.last().ident@ == wrapper {
            match path.segments@.last().arguments {
                PathArguments::AngleBracketed(args) => if args@.len() == 1 {
                    match args@[0] {
                        GenericArgument::Type(inner) => Some(inner),
                        GenericArgument::Other => None,
                    }
                } else {
                    None
                },
                _ => None,
            }
        } else {
            None
        },
        None => None,
    }
}

/// Checks whether the type is `wrapper` around one type, and gives that
/// type if it is.
pub fn inner_ty<'a>(ty: &'a Type, wrapper: &str) -> (r: Option<&'a Type>)
    ensures
        match inner_of(*ty, wrapper@) {
            Some(inner) => r is Some && *r->Some_0 == inner,
            None => r is None,
        },
{
    let path = match &ty.path {
        Some(path) => path,
        None => return None,
    };
    if path.segments.len() == 0 {
        return None;
    }
    let last = &path.segments[path.segments.len() - 1];
    if !same_text(&last.ident, wrapper) {
        return None;
    }
    let type_arg = match &last.arguments {
        PathArguments::AngleBracketed(args) => {
            if args.len() != 1 {
                return None;
            }
            &args[0]
        },
        _ => return None,
    };
    match type_arg {
        GenericArgument::Type(inner) => Some(inner),
        GenericArgument::Other => None,
    }
}


/// A storage field of the builder: the declared type, or an option around
/// it.
pub struct BuilderField<'a> {
    pub ident: &'a String,
    pub ty: &'a Type,
    pub wrapped: bool,
}

/// A setter: named after its field, it stores the value it is given.
pub struct Setter<'a> {
    pub ident: &'a String,
    pub param: &'a Type,
}

/// A method that appends one item to a field. Its name is what the parser
/// made of the `each` literal, whose place it keeps.
pub struct EachMethod<'a> {
    pub name: String,
    pub span: Span,
    pub field: &'a String,
    pub item: &'a Type,
}

/// How `build` gets a field's value: a copy of what is stored, or, where
/// `missing` holds a message, the stored value if there is one and a failure
/// with that message if there is none.
pub struct BuildField<'a> {
    pub ident: &'a String,
    pub missing: Option<String>,
}

/// The value that a storage field starts with.
#[derive(Clone, Copy, Debug, PartialEq, Eq, Structural)]
pub enum Empty {
    Absent,
    NoItems,
}

/// A storage field of a fresh builder.
pub struct EmptyField<'a> {
    pub ident: &'a String,
    pub value: Empty,
}

/// The builder of a record, ready to be written out.
pub struct Builder<'a> {
    pub ident: &'a String,
    pub builder_ident: String,
    pub builder_fields: Vec<BuilderField<'a>>,
    pub methods: Vec<Setter<'a>>,
    pub each_methods: Vec<EachMethod<'a>>,
    pub build_fields: Vec<BuildField<'a>>,
    pub builder_fields_empty: Vec<EmptyField<'a>>,
}

/// Whether the builder stores this field under its declared type: it is an
/// option already, or it collects items.
pub open spec fn stored_as_declared(field: Field) -> bool {
    inner_of(*field.ty, "Option"@) is Some || field.attrs.each is Some
}

/// The storage field of `field`.
pub open spec fn builder_field_of<'a>(field: Field<'a>) -> BuilderField<'a> {
    BuilderField { ident: field.ident, ty: field.ty, wrapped: !stored_as_declared(field) }
}

/// The setter of `field`: it takes what an option holds, or else the
/// declared type.
pub open spec fn setter_of<'a>(field: Field<'a>) -> Setter<'a> {
    Setter {
        ident: field.ident,
        param: match inner_of(*field.ty, "Option"@) {
            Some(inner) => &inner,
            None => field.ty,
        },
    }
}

/// What a fresh builder holds for `field`.
pub open spec fn empty_field_of<'a>(field: Field<'a>) -> EmptyField<'a> {
    EmptyField {
        ident: field.ident,
        value: if inner_of(*field.ty, "Option"@) is None && inner_of(*field.ty, "Vec"@) is Some
            && field.attrs.each is Some {
            Empty::NoItems
        } else {
            Empty::Absent
        },
    }
}

/// The fields among the first `n` that get a setter, in order: those
/// without `each`.
pub open spec fn setter_fields<'a>(fields: Seq<Field<'a>>, n: int) -> Seq<Field<'a>>
    decreases n,
{
    if n <= 0 {
        Seq::empty()
    } else if fields[n - 1].attrs.each is None {
        setter_fields(fields, n - 1).push(fields[n - 1])
    } else {
        setter_fields(fields, n - 1)
    }
}

/// The fields among the first `n` that get an appending method, in order:
/// those with `each`.
pub open spec fn each_fields<'a>(fields: Seq<Field<'a>>, n: int) -> Seq<Field<'a>>
    decreases n,
{
    if n <= 0 {
        Seq::empty()
    } else if fields[n - 1].attrs.each is Some {
        each_fields(fields, n - 1).push(fields[n - 1])
    } else {
        each_fields(fields, n - 1)
    }
}

/// The appending method of a field with the `each` literal `literal`, given
/// what parsing the literal's value as an identifier gave: the item type and
/// the method's name. The field must be a `Vec` of one type, and the value
/// must be an identifier.
pub open spec fn each_outcome(
    field: Field,
    literal: LitStr,
    parsed: Result<Seq<char>, Seq<char>>,
) -> Result<(Type, Seq<char>), DiagnosticView> {
    match inner_of(*field.ty, "Vec"@) {
        None => Err(diagnostic(field.ty.span, "the `each` key may only be used with Vec"@)),
        Some(inner) => match parsed {
            Ok(name) => Ok((inner, name)),
            Err(message) => Err(diagnostic(literal.span, message)),
        },
    }
}

/// Why a field with `each` gets no appending method whatever the parser
/// says: it is no `Vec` of one type, or else the value of `each` holds more
/// opening brackets than the parser is given.
pub open spec fn each_own_refusal(field: Field) -> Option<DiagnosticView> {
    match inner_of(*field.ty, "Vec"@) {
        None => Some(diagnostic(field.ty.span, "the `each` key may only be used with Vec"@)),
        Some(_) => if opens_too_often(field.attrs.each->Some_0.value@) {
            Some(diagnostic(field.attrs.each->Some_0.span, "expected identifier"@))
        } else {
            None
        },
    }
}

/// `e` is a refusal of the appending method of `field`: the field's own
/// refusal where it has one, and else some refusal at the `each` literal,
/// with the parser's message.
pub open spec fn refuses_each(field: Field, e: DiagnosticView) -> bool {
    match each_own_refusal(field) {
        Some(own) => e == own,
        None => e.span == field.attrs.each->Some_0.span,
    }
}

/// `e` is the refusal of the first field with `each`, in the order of the
/// fields, that gets no appending method: no field with `each` before it has
/// a refusal of its own.
pub open spec fn refuses_each_among(fields: Seq<Field>, e: DiagnosticView) -> bool {
    exists|i: int|
        {
            &&& 0 <= i < fields.len()
            &&& (#[trigger] fields[i]).attrs.each is Some
            &&& refuses_each(fields[i], e)
            &&& forall|j: int|
                0 <= j < i && (#[trigger] fields[j]).attrs.each is Some ==> each_own_refusal(
                    fields[j],
                ) is None
        }
}

/// How the builder treats a field.
pub ghost enum Strategy {
    /// Set as a whole, and `build` fails without a value.
    Required,
    /// An option of this type: set as a whole, and left empty without a
    /// value.
    OptionalWrapped(Type),
    /// A `Vec` of this type, filled item by item through the method that
    /// the `each` literal names.
    Accumulating(Type),
}

/// The strategy of a field. `each` decides first: the field then collects
/// items, or is refused. Without `each`, an option of one type is optional
/// and anything else is required.
pub open spec fn strategy_of(field: Field) -> Result<Strategy, DiagnosticView> {
    if field.attrs.each is Some {
        match each_own_refusal(field) {
            Some(e) => Err(e),
            None => Ok(Strategy::Accumulating(inner_of(*field.ty, "Vec"@)->Some_0)),
        }
    } else {
        match inner_of(*field.ty, "Option"@) {
            Some(inner) => Ok(Strategy::OptionalWrapped(inner)),
            None => Ok(Strategy::Required),
        }
    }
}

impl<'a> EachMethod<'a> {
    /// This is an appending method of `field`: the field has `each` and no
    /// refusal of its own, the method is placed at the `each` literal and
    /// takes one item of the field's `Vec`.
    pub open spec fn is_for(&self, field: Field<'a>) -> bool {
        &&& field.attrs.each is Some
        &&& each_own_refusal(field) is None
        &&& self.field == field.ident
        &&& self.span == field.attrs.each->Some_0.span
        &&& inner_of(*field.ty, "Vec"@) == Some(*self.item)
    }
}

impl<'a> BuildField<'a> {
    /// This is how `build` gets the value of `field`: without a failure
    /// where the field is stored as declared, and else with the failure
    /// `<field> is not set`.
    pub open spec fn is_for(&self, field: Field<'a>) -> bool {
        &&& self.ident == field.ident
        &&& match self.missing {
            None => stored_as_declared(field),
            Some(message) => !stored_as_declared(field) && message@ == field.ident@
                + " is not set"@,
        }
    }
}

/// The appending method of `field`, whose `each` literal is `literal`, from
/// what parsing the literal's value as an identifier gave.
pub fn each_method<'a>(field: &Field<'a>, literal: &LitStr, parsed: Result<String, String>) -> (r:
    Result<EachMethod<'a>, Diagnostic>)
    ensures
        match each_outcome(
            *field,
            *literal,
            match parsed {
                Ok(name) => Ok(name@),
                Err(message) => Err(message@),
            },
        ) {
            Ok((inner, name)) => r is Ok && r->Ok_0.field == field.ident && *r->Ok_0.item == inner
                && r->Ok_0.name@ == name && r->Ok_0.span == literal.span,
            Err(e) => r is Err && r->Err_0@ == e,
        },
{
    let item = match inner_ty(field.ty, "Vec") {
        Some(inner) => inner,
        None => {
            return Err(Diagnostic::new(field.ty.span, "the `each` key may only be used with Vec"));
        },
    };
    match parsed {
        Ok(name) => Ok(EachMethod { name, span: literal.span, field: field.ident, item }),
        Err(message) => Err(Diagnostic { message, span: literal.span }),
    }
}

impl<'a> Struct<'a> {
    /// Describes the builder of this record. It fails only for an
    /// appending method, with the refusal of the first field, in the order of
    /// the fields, that gets none; a record without `each` always gets its
    /// builder.
    pub fn impl_builder(self) -> (r: Result<Builder<'a>, Diagnostic>)
        ensures
            match r {
                Ok(builder) => builder.describes(*self.ident, self.fields@),
                Err(e) => refuses_each_among(self.fields@, e@),
            },
            (forall|i: int| 0 <= i < self.fields@.len() ==> (#[trigger] self.fields@[i]).attrs.each is None)
                ==> r is Ok,
    {
        let builder_ident = self.builder_ident();
        let builder_fields = self.builder_fields();
        let methods = self.methods();
        let builder_fields_empty = self.builder_fields_empty();
        let build_fields = self.build_fields();
        let each_methods = self.each_methods()?;
        Ok(
            Builder {
                ident: self.ident,
                builder_ident,
                builder_fields,
                methods,
                each_methods,
                build_fields,
                builder_fields_empty,
            },
        )
    }

    /// One appending method for each field with `each`, in the order of the
    /// fields, or the refusal of the first field that gets none. Whether the
    /// value of `each` names an identifier is the parser's to say; all else
    /// is fixed.
    pub fn each_methods(&self) -> (r: Result<Vec<EachMethod<'a>>, Diagnostic>)
        ensures
            match r {
                Ok(methods) => are_each_methods(self.fields@, methods@),
                Err(e) => refuses_each_among(self.fields@, e@),
            },
            (forall|i: int| 0 <= i < self.fields@.len() ==> (#[trigger] self.fields@[i]).attrs.each is None)
                ==> r is Ok,
    {
        let mut out: Vec<EachMethod<'a>> = Vec::new();
        let mut i: usize = 0;
        while i < self.fields.len()
            invariant
                i <= self.fields@.len(),
                forall|j: int|
                    0 <= j < i && (#[trigger] self.fields@[j]).attrs.each is Some
                        ==> each_own_refusal(self.fields@[j]) is None,
                out@.len() == each_fields(self.fields@, i as int).len(),
                forall|k: int|
                    0 <= k < out@.len() ==> (#[trigger] out@[k]).is_for(
                        each_fields(self.fields@, i as int)[k],
                    ),
            decreases self.fields@.len() - i,
        {
            let field = &self.fields[i];
            if let Some(literal) = field.attrs.each {
                let parsed = ident_from(literal.value.as_str());
                match each_method(field, literal, parsed) {
                    Ok(method) => {
                        out.push(method);
                    },
                    Err(d) => {
                        assert(refuses_each(self.fields@[i as int], d@));
                        return Err(d);
                    },
                }
            }
            i += 1;
        }
        Ok(out)
    }

    /// How `build` gets each field, in the order of the fields.
    pub fn build_fields(&self) -> (r: Vec<BuildField<'a>>)
        ensures
            are_build_fields(self.fields@, r@),
    {
        let mut out: Vec<BuildField<'a>> = Vec::new();
        let mut i: usize = 0;
        while i < self.fields.len()
            invariant
                i <= self.fields@.len(),
                out@.len() == i,
                forall|k: int| 0 <= k < i ==> (#[trigger] out@[k]).is_for(self.fields@[k]),
            decreases self.fields@.len() - i,
        {
            let field = &self.fields[i];
            let missing = if inner_ty(field.ty, "Option").is_some() || field.attrs.each.is_some() {
                None
            } else {
                Some(field.ident.clone().concat(" is not set"))
            };
            out.push(BuildField { ident: field.ident, missing });
            i += 1;
        }
        out
    }

    /// The builder's name: the record's name followed by `Builder`.
    pub fn builder_ident(&self) -> (r: String)
        ensures
            r@ == self.ident@ + "Builder"@,
    {
        self.ident.clone().concat("Builder")
    }

    /// The builder's storage fields, in the order of the fields.
    pub fn builder_fields(&self) -> (r: Vec<BuilderField<'a>>)
        ensures
            are_builder_fields(self.fields@, r@),
    {
        let mut out: Vec<BuilderField<'a>> = Vec::new();
        let mut i: usize = 0;
        while i < self.fields.len()
            invariant
                i <= self.fields@.len(),
                out@.len() == i,
                forall|k: int| 0 <= k < i ==> #[trigger] out@[k] == builder_field_of(self.fields@[k]),
            decreases self.fields@.len() - i,
        {
            let field = &self.fields[i];
            let keep = inner_ty(field.ty, "Option").is_some() || field.attrs.each.is_some();
            out.push(BuilderField { ident: field.ident, ty: field.ty, wrapped: !keep });
            i += 1;
        }
        out
    }

    /// One setter for each field without `each`, in the order of the
    /// fields.
    pub fn methods(&self) -> (r: Vec<Setter<'a>>)
        ensures
            are_methods(self.fields@, r@),
    {
        let mut out: Vec<Setter<'a>> = Vec::new();
        let mut i: usize = 0;
        while i < self.fields.len()
            invariant
                i <= self.fields@.len(),
                out@.len() == setter_fields(self.fields@, i as int).len(),
                forall|k: int|
                    0 <= k < out@.len() ==> #[trigger] out@[k] == setter_of(
                        setter_fields(self.fields@, i as int)[k],
                    ),
            decreases self.fields@.len() - i,
        {
            let field = &self.fields[i];
            if field.attrs.each.is_none() {
                let param = match inner_ty(field.ty, "Option") {
                    Some(inner) => inner,
                    None => field.ty,
                };
                out.push(Setter { ident: field.ident, param });
            }
            i += 1;
        }
        out
    }

    /// What a fresh builder holds, in the order of the fields.
    pub fn builder_fields_empty(&self) -> (r: Vec<EmptyField<'a>>)
        ensures
            are_builder_fields_empty(self.fields@, r@),
    {
        let mut out: Vec<EmptyField<'a>> = Vec::new();
        let mut i: usize = 0;
        while i < self.fields.len()
            invariant
                i <= self.fields@.len(),
                out@.len() == i,
                forall|k: int| 0 <= k < i ==> #[trigger] out@[k] == empty_field_of(self.fields@[k]),
            decreases self.fields@.len() - i,
        {
            let field = &self.fields[i];
            let value = if inner_ty(field.ty, "Option").is_some() {
                Empty::Absent
            } else if inner_ty(field.ty, "Vec").is_some() && field.attrs.each.is_some() {
                Empty::NoItems
            } else {
                Empty::Absent
            };
            out.push(EmptyField { ident: field.ident, value });
            i += 1;
        }
        out
    }
}

/// `out` holds the storage field of each field, in order.
pub open spec fn are_builder_fields<'a>(fields: Seq<Field<'a>>, out: Seq<BuilderField<'a>>) -> bool {
    &&& out.len() == fields.len()
    &&& forall|k: int| 0 <= k < fields.len() ==> #[trigger] out[k] == builder_field_of(fields[k])
}

/// `out` holds the setter of each field without `each`, in order.
pub open spec fn are_methods<'a>(fields: Seq<Field<'a>>, out: Seq<Setter<'a>>) -> bool {
    &&& out.len() == setter_fields(fields, fields.len() as int).len()
    &&& forall|k: int|
        0 <= k < out.len() ==> #[trigger] out[k] == setter_of(
            setter_fields(fields, fields.len() as int)[k],
        )
}

/// `out` holds the appending method of each field with `each`, in order.
pub open spec fn are_each_methods<'a>(fields: Seq<Field<'a>>, out: Seq<EachMethod<'a>>) -> bool {
    &&& out.len() == each_fields(fields, fields.len() as int).len()
    &&& forall|k: int|
        0 <= k < out.len() ==> (#[trigger] out[k]).is_for(
            each_fields(fields, fields.len() as int)[k],
        )
}

/// `out` holds how `build` gets each field, in order.
pub open spec fn are_build_fields<'a>(fields: Seq<Field<'a>>, out: Seq<BuildField<'a>>) -> bool {
    &&& out.len() == fields.len()
    &&& forall|k: int| 0 <= k < fields.len() ==> (#[trigger] out[k]).is_for(fields[k])
}

/// `out` holds what a fresh builder holds for each field, in order.
pub open spec fn are_builder_fields_empty<'a>(
    fields: Seq<Field<'a>>,
    out: Seq<EmptyField<'a>>,
) -> bool {
    &&& out.len() == fields.len()
    &&& forall|k: int| 0 <= k < fields.len() ==> #[trigger] out[k] == empty_field_of(fields[k])
}

impl<'a> Builder<'a> {
    /// This is the builder of the record named `ident` with these fields.
    pub open spec fn describes(&self, ident: String, fields: Seq<Field<'a>>) -> bool {
        &&& *self.ident == ident
        &&& self.builder_ident@ == ident@ + "Builder"@
        &&& are_builder_fields(fields, self.builder_fields@)
        &&& are_methods(fields, self.methods@)
        &&& are_each_methods(fields, self.each_methods@)
        &&& are_build_fields(fields, self.build_fields@)
        &&& are_builder_fields_empty(fields, self.builder_fields_empty@)
    }
}

/// Derives the builder of a declaration. A declaration that is refused as
/// a record gets that refusal and nothing else. A record gets the builder of
/// its fields as declared, or the refusal of the first field, in the order
/// of the fields, that gets no appending method; without `each` it always
/// gets its builder.
pub fn derive<'a>(node: &'a DeriveInput) -> (r: Result<Builder<'a>, Diagnostic>)
    ensures
        match input_refusal(*node) {
            Some(e) => r is Err && r->Err_0@ == e,
            None => match r {
                Ok(builder) => builder.describes(
                    node.ident,
                    read_fields(node.data->Struct_0.fields@),
                ),
                Err(e) => refuses_each_among(read_fields(node.data->Struct_0.fields@), e@),
            },
        },
        input_refusal(*node) is None && (forall|i: int|
            0 <= i < node.data->Struct_0.fields@.len() ==> (#[trigger] read_fields(
                node.data->Struct_0.fields@,
            )[i]).attrs.each is None) ==> r is Ok,
{
    let input = Input::from_syn(node)?;
    match input {
        Input::Struct(record) => record.impl_builder(),
    }
}

} // verus!
