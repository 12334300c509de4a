//! What holds of every derivation.

use vstd::prelude::*;
use crate::ast::{
    attr_step, attrs_fold, attrs_outcome, diagnostic, entries_fold, entry_step, field_outcome,
    fields_refusal, input_refusal, lemma_attrs_refusal_stays, lemma_entries_refusal_stays, Field,
};
use crate::expand::{
    each_fields, each_own_refusal, empty_field_of, inner_of, refuses_each_among, setter_fields,
    setter_of, stored_as_declared, strategy_of, BuildField, Builder, Empty, Strategy,
};
use crate::instance::{appended_all, finish_of, missing_of, start_of, stored, Content};
use crate::syntax::{Attribute, DeriveInput, DiagnosticView, LitStr, Meta, NestedMeta};

verus! {

/// Every one of the first `n` fields gets a setter or an appending method,
/// and none gets both.
pub proof fn lemma_one_accessor_per_field(fields: Seq<Field>, n: int)
    requires
        0 <= n,
    ensures
        setter_fields(fields, n).len() + each_fields(fields, n).len() == n,
    decreases n,
{
    if n > 0 {
        lemma_one_accessor_per_field(fields, n - 1);
    }
}

/// A field without `each` has its place among the fields that get a
/// setter: behind the setters of the fields before it.
pub proof fn lemma_setter_position(fields: Seq<Field>, i: int, n: int)
    requires
        0 <= i < n,
        fields[i].attrs.each is None,
    ensures
        setter_fields(fields, i).len() < setter_fields(fields, n).len(),
        setter_fields(fields, n)[setter_fields(fields, i).len() as int] == fields[i],
    decreases n,
{
    if i < n - 1 {
        lemma_setter_position(fields, i, n - 1);
    }
}

/// A field with `each` has its place among the fields that get an
/// appending method: behind the methods of the fields before it.
pub proof fn lemma_each_position(fields: Seq<Field>, i: int, n: int)
    requires
        0 <= i < n,
        fields[i].attrs.each is Some,
    ensures
        each_fields(fields, i).len() < each_fields(fields, n).len(),
        each_fields(fields, n)[each_fields(fields, i).len() as int] == fields[i],
    decreases n,
{
    if i < n - 1 {
        lemma_each_position(fields, i, n - 1);
    }
}

/// In a builder every part of a field follows the field's strategy.
///
/// A required field is stored in an option, starts absent, has a setter
/// that takes the declared type, and `build` fails without a value. An
/// optional field is stored as declared, starts absent, has a setter that
/// takes the type inside the option, and `build` never fails on it. A field
/// that collects items is stored as declared, starts with no items, has an
/// appending method that takes one item, and `build` never fails on it.
pub proof fn lemma_parts_follow_strategy(builder: Builder, ident: String, fields: Seq<Field>, i: int)
    requires
        builder.describes(ident, fields),
        0 <= i < fields.len(),
    ensures
        ({
            let storage = builder.builder_fields@[i];
            let start = builder.builder_fields_empty@[i].value;
            let missing = builder.build_fields@[i].missing;
            let setter = builder.methods@[setter_fields(fields, i).len() as int];
            let method = builder.each_methods@[each_fields(fields, i).len() as int];
            match strategy_of(fields[i]) {
                Ok(Strategy::Required) => {
                    &&& storage.wrapped
                    &&& start == Empty::Absent
                    &&& missing is Some
                    &&& setter_fields(fields, i).len() < builder.methods@.len()
                    &&& setter.ident == fields[i].ident
                    &&& setter.param == fields[i].ty
                },
                Ok(Strategy::OptionalWrapped(inner)) => {
                    &&& !storage.wrapped
                    &&& start == Empty::Absent
                    &&& missing is None
                    &&& setter_fields(fields, i).len() < builder.methods@.len()
                    &&& setter.ident == fields[i].ident
                    &&& *setter.param == inner
                },
                Ok(Strategy::Accumulating(inner)) => {
                    &&& !storage.wrapped
                    &&& start == Empty::NoItems
                    &&& missing is None
                    &&& each_fields(fields, i).len() < builder.each_methods@.len()
                    &&& method.field == fields[i].ident
                    &&& method.span == fields[i].attrs.each->Some_0.span
                    &&& *method.item == inner
                },
                Err(_) => false,
            }
        }),
{
    let n = fields.len() as int;
    reveal_strlit("Option");
    reveal_strlit("Vec");
    assert("Option"@.len() != "Vec"@.len());
    if fields[i].attrs.each is Some {
        lemma_each_position(fields, i, n);
        let k = each_fields(fields, i).len() as int;
        assert(builder.each_methods@[k].is_for(each_fields(fields, n)[k]));
    } else {
        lemma_setter_position(fields, i, n);
        let k = setter_fields(fields, i).len() as int;
        assert(builder.methods@[k] == setter_of(setter_fields(fields, n)[k]));
    }
    assert(builder.build_fields@[i].is_for(fields[i]));
}

/// A builder has, for each field of its record, exactly one storage field,
/// one accessor (a setter or an appending method), one contribution to
/// `build` and one initial value; storage, `build` and the initial values
/// keep the order of the fields.
pub proof fn lemma_one_of_each_per_field(builder: Builder, ident: String, fields: Seq<Field>)
    requires
        builder.describes(ident, fields),
    ensures
        builder.builder_fields@.len() == fields.len(),
        builder.methods@.len() + builder.each_methods@.len() == fields.len(),
        builder.build_fields@.len() == fields.len(),
        builder.builder_fields_empty@.len() == fields.len(),
        forall|i: int|
            0 <= i < fields.len() ==> {
                &&& (#[trigger] builder.builder_fields@[i]).ident == fields[i].ident
                &&& builder.build_fields@[i].ident == fields[i].ident
                &&& builder.builder_fields_empty@[i].ident == fields[i].ident
            },
{
    lemma_one_accessor_per_field(fields, fields.len() as int);
}

/// No refusal among the first `n` fields means that each of them reads
/// well, and the other way round.
pub proof fn lemma_fields_read_iff(fields: Seq<crate::syntax::Field>, n: int)
    ensures
        fields_refusal(fields, n) is None <==> forall|i: int|
            0 <= i < n ==> (#[trigger] field_outcome(fields[i])) is Ok,
    decreases n,
{
    if n > 0 {
        lemma_fields_read_iff(fields, n - 1);
    }
}

/// A declaration is read as a record exactly when it is a product type
/// whose own attributes and whose fields all read well.
pub proof fn lemma_record_iff_valid(node: DeriveInput)
    ensures
        input_refusal(node) is None <==> {
            &&& node.data is Struct
            &&& attrs_outcome(node.attrs@) is Ok
            &&& forall|i: int|
                0 <= i < node.data->Struct_0.fields@.len() ==> (#[trigger] field_outcome(
                    node.data->Struct_0.fields@[i],
                )) is Ok
        },
{
    if node.data is Struct {
        let declared = node.data->Struct_0.fields@;
        lemma_fields_read_iff(declared, declared.len() as int);
    }
}

/// A refusal of an appending method comes from a field with `each`: among
/// fields without `each` there is none.
pub proof fn lemma_refusal_needs_each(fields: Seq<Field>, e: DiagnosticView)
    requires
        refuses_each_among(fields, e),
    ensures
        exists|i: int| 0 <= i < fields.len() && (#[trigger] fields[i]).attrs.each is Some,
{
}

/// Where the first field with `each` has a refusal of its own, that is the
/// refusal of the record, whatever the parser says.
pub proof fn lemma_first_own_refusal_decides(fields: Seq<Field>, i: int, e: DiagnosticView)
    requires
        0 <= i < fields.len(),
        fields[i].attrs.each is Some,
        each_own_refusal(fields[i]) is Some,
        forall|j: int| 0 <= j < i ==> (#[trigger] fields[j]).attrs.each is None,
        refuses_each_among(fields, e),
    ensures
        e == each_own_refusal(fields[i])->Some_0,
{
}

/// A record in which a field with `each` has a refusal of its own has no
/// builder: nothing describes one.
pub proof fn lemma_own_refusal_leaves_no_builder(
    builder: Builder,
    ident: String,
    fields: Seq<Field>,
    i: int,
)
    requires
        0 <= i < fields.len(),
        fields[i].attrs.each is Some,
        each_own_refusal(fields[i]) is Some,
    ensures
        !builder.describes(ident, fields),
{
    if builder.describes(ident, fields) {
        let n = fields.len() as int;
        lemma_each_position(fields, i, n);
        let k = each_fields(fields, i).len() as int;
        assert(builder.each_methods@[k].is_for(each_fields(fields, n)[k]));
    }
}

/// A field with `each` whose type is no `Vec` of one type is refused when
/// the builder is derived, with a diagnostic at the type, and its record has
/// no builder.
pub proof fn lemma_each_on_other_type_refused(
    builder: Builder,
    ident: String,
    fields: Seq<Field>,
    i: int,
)
    requires
        0 <= i < fields.len(),
        fields[i].attrs.each is Some,
        inner_of(*fields[i].ty, "Vec"@) is None,
    ensures
        each_own_refusal(fields[i]) == Some(
            diagnostic(fields[i].ty.span, "the `each` key may only be used with Vec"@),
        ),
        !builder.describes(ident, fields),
{
    lemma_own_refusal_leaves_no_builder(builder, ident, fields, i);
}

/// A sum type or a union type is refused whatever it holds, at the
/// declaration.
pub proof fn lemma_sum_and_union_refused(node: DeriveInput)
    requires
        node.data is Enum || node.data is Union,
    ensures
        node.data is Enum ==> input_refusal(node) == Some(
            diagnostic(node.span, "sum types are not yet supported"@),
        ),
        node.data is Union ==> input_refusal(node) == Some(
            diagnostic(node.span, "union types are not yet supported"@),
        ),
{
}

/// A field that is refused leaves the whole declaration refused.
pub proof fn lemma_refused_field_refuses_all(node: DeriveInput, i: int)
    requires
        node.data is Struct,
        0 <= i < node.data->Struct_0.fields@.len(),
        field_outcome(node.data->Struct_0.fields@[i]) is Err,
    ensures
        input_refusal(node) is Some,
{
    let declared = node.data->Struct_0.fields@;
    lemma_fields_read_iff(declared, declared.len() as int);
}

/// A product type with a field that has no name is refused.
pub proof fn lemma_unnamed_field_refused(node: DeriveInput, i: int)
    requires
        node.data is Struct,
        0 <= i < node.data->Struct_0.fields@.len(),
        node.data->Struct_0.fields@[i].ident is None,
    ensures
        input_refusal(node) is Some,
{
    lemma_refused_field_refuses_all(node, i);
}

/// An entry `key = value` whose key is not `each`.
pub open spec fn has_unrecognized_key(entry: NestedMeta) -> bool {
    match entry {
        NestedMeta::Meta(Meta::NameValue(pair)) => !pair.path.spec_is_ident("each"@),
        _ => false,
    }
}

/// An entry `each = value`.
pub open spec fn sets_each(entry: NestedMeta) -> bool {
    match entry {
        NestedMeta::Meta(Meta::NameValue(pair)) => pair.path.spec_is_ident("each"@),
        _ => false,
    }
}

/// An entry `each = value` whose value is no string literal.
pub open spec fn sets_each_to_non_string(entry: NestedMeta) -> bool {
    match entry {
        NestedMeta::Meta(Meta::NameValue(pair)) => pair.path.spec_is_ident("each"@)
            && pair.lit is Other,
        _ => false,
    }
}

/// A list is faulty when it holds an unrecognized key, an `each` whose
/// value is no string literal, or `each` twice.
pub open spec fn is_faulty_list(entries: Seq<NestedMeta>) -> bool {
    ||| exists|k: int|
        0 <= k < entries.len() && (has_unrecognized_key(#[trigger] entries[k])
            || sets_each_to_non_string(entries[k]))
    ||| exists|j: int, k: int|
        0 <= j < k < entries.len() && sets_each(#[trigger] entries[j]) && sets_each(
            #[trigger] entries[k],
        )
}

/// Reading a faulty list is refused, whatever was read before it.
pub proof fn lemma_faulty_list_refused(entries: Seq<NestedMeta>, seen: Option<LitStr>)
    requires
        is_faulty_list(entries),
    ensures
        entries_fold(entries, seen, entries.len() as int) is Err,
{
    let n = entries.len() as int;
    if exists|k: int|
        0 <= k < entries.len() && (has_unrecognized_key(#[trigger] entries[k])
            || sets_each_to_non_string(entries[k])) {
        let k = choose|k: int|
            0 <= k < entries.len() && (has_unrecognized_key(#[trigger] entries[k])
                || sets_each_to_non_string(entries[k]));
        assert(entries_fold(entries, seen, k + 1) is Err);
        lemma_entries_refusal_stays(entries, seen, k + 1, n);
    } else {
        let (j, k) = choose|j: int, k: int|
            0 <= j < k < entries.len() && sets_each(#[trigger] entries[j]) && sets_each(
                #[trigger] entries[k],
            );
        assert(entries_fold(entries, seen, k) is Ok ==> entries_fold(entries, seen, k)->Ok_0 is Some)
            by {
            assert(entries_fold(entries, seen, k - 1 + 1) == entries_fold(entries, seen, k));
            if entries_fold(entries, seen, k) is Ok {
                let before = entries_fold(entries, seen, k - 1)->Ok_0;
                assert(entries_fold(entries, seen, k) == entry_step(entries[k - 1], before));
            }
        }
        assert(entries_fold(entries, seen, k + 1) is Err);
        lemma_entries_refusal_stays(entries, seen, k + 1, n);
    }
}

/// Attributes among which one holds a faulty list are refused.
pub proof fn lemma_faulty_list_refuses_attrs(attrs: Seq<Attribute>, a: int)
    requires
        0 <= a < attrs.len(),
        attrs[a].meta is Ok,
        attrs[a].meta->Ok_0 is List,
        is_faulty_list(attrs[a].meta->Ok_0->List_0.nested@),
    ensures
        attrs_outcome(attrs) is Err,
{
    let list = attrs[a].meta->Ok_0->List_0;
    if attrs_fold(attrs, a) is Ok {
        let seen = attrs_fold(attrs, a)->Ok_0;
        lemma_faulty_list_refused(list.nested@, seen);
        assert(attr_step(attrs[a], seen) is Err);
    }
    assert(attrs_fold(attrs, a + 1) is Err);
    lemma_attrs_refusal_stays(attrs, a + 1, attrs.len() as int);
}

/// A product type that carries an attribute with a faulty list is
/// refused.
pub proof fn lemma_faulty_list_on_record_refuses_all(node: DeriveInput, a: int)
    requires
        node.data is Struct,
        0 <= a < node.attrs@.len(),
        node.attrs@[a].meta is Ok,
        node.attrs@[a].meta->Ok_0 is List,
        is_faulty_list(node.attrs@[a].meta->Ok_0->List_0.nested@),
    ensures
        input_refusal(node) is Some,
{
    lemma_faulty_list_refuses_attrs(node.attrs@, a);
}

/// A product type in which a field carries an attribute with a faulty list
/// is refused.
pub proof fn lemma_faulty_list_refuses_all(node: DeriveInput, i: int, a: int)
    requires
        node.data is Struct,
        0 <= i < node.data->Struct_0.fields@.len(),
        0 <= a < node.data->Struct_0.fields@[i].attrs@.len(),
        node.data->Struct_0.fields@[i].attrs@[a].meta is Ok,
        node.data->Struct_0.fields@[i].attrs@[a].meta->Ok_0 is List,
        is_faulty_list(node.data->Struct_0.fields@[i].attrs@[a].meta->Ok_0->List_0.nested@),
    ensures
        input_refusal(node) is Some,
{
    lemma_faulty_list_refuses_attrs(node.data->Struct_0.fields@[i].attrs@, a);
    lemma_refused_field_refuses_all(node, i);
}

/// The setter of a field that is an option of one type takes that type.
/// Such a field starts out holding nothing, and `build` gets it without a
/// failure whatever it holds.
pub proof fn lemma_option_field_never_fails<V>(field: Field, part: BuildField, content: Content<V>)
    requires
        inner_of(*field.ty, "Option"@) is Some,
        part.is_for(field),
    ensures
        *setter_of(field).param == inner_of(*field.ty, "Option"@)->Some_0,
        start_of::<V>(empty_field_of(field).value) == Content::<V>::Absent,
        finish_of(missing_of(part), content) == Ok::<Content<V>, Seq<char>>(content),
{
}

/// Appending the first `n` of `items` to a field that holds no items leaves
/// it holding exactly those, in the order of the calls.
pub proof fn lemma_appended_all<V>(items: Seq<V>, n: int)
    requires
        0 <= n <= items.len(),
    ensures
        appended_all(Content::Items(Seq::empty()), items, n) == Content::Items(
            items.subrange(0, n),
        ),
    decreases n,
{
    if n > 0 {
        lemma_appended_all(items, n - 1);
        assert(items.subrange(0, n - 1).push(items[n - 1]) =~= items.subrange(0, n));
    } else {
        assert(items.subrange(0, 0) =~= Seq::<V>::empty());
    }
}

/// A field with `each` that is a `Vec` of one type starts out with no
/// items, and after any number of calls `build` gets exactly the items that
/// were appended, in the order of the calls, without a failure; after no
/// call, that is no items.
pub proof fn lemma_appends_in_call_order<V>(field: Field, part: BuildField, items: Seq<V>)
    requires
        field.attrs.each is Some,
        inner_of(*field.ty, "Vec"@) is Some,
        part.is_for(field),
    ensures
        start_of::<V>(empty_field_of(field).value) == Content::<V>::Items(Seq::empty()),
        finish_of(
            missing_of(part),
            appended_all(start_of::<V>(empty_field_of(field).value), items, items.len() as int),
        ) == Ok::<Content<V>, Seq<char>>(Content::Items(items)),
{
    reveal_strlit("Option");
    reveal_strlit("Vec");
    assert("Option"@.len() != "Vec"@.len());
    lemma_appended_all(items, items.len() as int);
    assert(items.subrange(0, items.len() as int) =~= items);
}

/// A field with neither `each` nor an option type must be set: on a fresh
/// builder `build` fails with the message that names the field, and after
/// calls of the setter it gets the value of the last call.
pub proof fn lemma_required_field_last_write_wins<V>(
    field: Field,
    part: BuildField,
    content: Content<V>,
    earlier: V,
    last: V,
)
    requires
        !stored_as_declared(field),
        part.is_for(field),
    ensures
        finish_of(missing_of(part), start_of::<V>(empty_field_of(field).value)) == Err::<
            Content<V>,
            Seq<char>,
        >(field.ident@ + " is not set"@),
        finish_of(missing_of(part), stored(content, last)) == Ok::<Content<V>, Seq<char>>(
            Content::Value(last),
        ),
        stored(stored(content, earlier), last) == Content::Value(last),
{
}

} // verus!
