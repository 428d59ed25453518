//! What the `Lenses` derive generates for a struct, computed from a model of the
//! struct's definition; the types of its fields are carried through as `T`.

use crate::naming::{
    camel_case, equals_str, lens_type_name, lenses_const_name, lenses_struct_name,
    nested_lenses_field_name, vec_item_lenses_field_name, vec_item_marker_name,
};
use vstd::prelude::*;
use vstd::string::*;

verus! {

/// A field type, as far as the derive looks into it: the type itself (`source`)
/// and its shape.
pub struct FieldType<T> {
    pub source: T,
    pub shape: TypeShape<T>,
}

/// The shape of a type: a path (such as `std::vec::Vec<Item>`) or anything else.
pub enum TypeShape<T> {
    Path(Vec<PathSegment<T>>),
    Other,
}

/// A segment of a type path: its identifier and its arguments.
pub struct PathSegment<T> {
    pub ident: String,
    pub arguments: PathArguments<T>,
}

/// The arguments of a path segment.
pub enum PathArguments<T> {
    /// No arguments, as in `String`.
    Bare,
    /// Arguments in angle brackets, as in `Vec<Item>`.
    AngleBracketed(Vec<GenericArgument<T>>),
    /// Arguments in parentheses, as in `Fn(A) -> B`.
    Parenthesized,
}

/// An argument in angle brackets: a type, or anything else (a lifetime, a constant, ...).
pub enum GenericArgument<T> {
    Type(FieldType<T>),
    Other,
}

/// Why the derive refuses its input.
#[derive(PartialEq, Eq, Structural, Debug, Clone, Copy)]
pub enum DeriveError {
    /// The input is an enum or a union.
    NotAStruct,
    /// The input is a tuple struct or a unit struct.
    NotNamedFields,
    /// The field at this position has no name.
    UnnamedField(usize),
    /// The type of the field at this position is not a path.
    UnsupportedFieldType(usize),
}

impl DeriveError {
    /// The message that the derive reports for this error.
    pub fn message(&self) -> (message: &'static str)
        ensures
            message@ == match *self {
                DeriveError::NotAStruct => "`#[derive(Lenses)]` may only be applied to structs"@,
                DeriveError::NotNamedFields | DeriveError::UnnamedField(_) =>
                    "`#[derive(Lenses)]` may only be applied to structs with named fields"@,
                DeriveError::UnsupportedFieldType(_) => "unsupported field type for `Lenses`"@,
            },
    {
        match self {
            DeriveError::NotAStruct => "`#[derive(Lenses)]` may only be applied to structs",
            DeriveError::NotNamedFields | DeriveError::UnnamedField(_) =>
                "`#[derive(Lenses)]` may only be applied to structs with named fields",
            DeriveError::UnsupportedFieldType(_) => "unsupported field type for `Lenses`",
        }
    }
}

/// The identifier of the last segment of `ty`, when `ty` is a path with a segment.
pub open spec fn terminal_ident<T>(ty: FieldType<T>) -> Option<Seq<char>> {
    match ty.shape {
        TypeShape::Path(segments) => if segments@.len() > 0 {
            Some(segments@.last().ident@)
        } else {
            None
        },
        TypeShape::Other => None,
    }
}

/// Returns the identifier of the last segment of `ty` (`Address` for
/// `crate::models::Address`), or `None` where `ty` has none.
pub fn terminal_type_ident<T>(ty: &FieldType<T>) -> (ident: Option<String>)
    ensures
        match terminal_ident(*ty) {
            Some(name) => ident matches Some(s) && s@ == name,
            None => ident is None,
        },
{
    match &ty.shape {
        TypeShape::Path(segments) => {
            let n = segments.len();
            if n > 0 {
                Some(segments[n - 1].ident.clone())
            } else {
                None
            }
        },
        TypeShape::Other => None,
    }
}

/// The item type of `ty`, when `ty` is `Vec<Item>` (its last segment is `Vec` with
/// exactly one argument in angle brackets, and that argument is a type).
pub open spec fn vec_item<T>(ty: FieldType<T>) -> Option<FieldType<T>> {
    match ty.shape {
        TypeShape::Path(segments) => if segments@.len() > 0 && segments@.last().ident@ == "Vec"@ {
            match segments@.last().arguments {
                PathArguments::AngleBracketed(arguments) => if arguments@.len() == 1 {
                    match arguments@[0] {
                        GenericArgument::Type(item) => Some(item),
                        GenericArgument::Other => None,
                    }
                } else {
                    None
                },
                _ => None,
            }
        } else {
            None
        },
        TypeShape::Other => None,
    }
}

/// Returns the item type of `ty` when it is a `Vec`.
pub fn vec_item_type<T>(ty: &FieldType<T>) -> (item: Option<&FieldType<T>>)
    ensures
        match vec_item(*ty) {
            Some(expected) => item matches Some(found) && *found == expected,
            None => item is None,
        },
{
    let segments = match &ty.shape {
        TypeShape::Path(segments) => segments,
        TypeShape::Other => {
            return None;
        },
    };
    let n = segments.len();
    if n == 0 {
        return None;
    }
    let segment = &segments[n - 1];
    if !equals_str(&segment.ident, "Vec") {
        return None;
    }
    let arguments = match &segment.arguments {
        PathArguments::AngleBracketed(arguments) => arguments,
        _ => {
            return None;
        },
    };
    if arguments.len() != 1 {
        return None;
    }
    match &arguments[0] {
        GenericArgument::Type(item) => Some(item),
        GenericArgument::Other => None,
    }
}

/// The names of the types whose lenses also get a `ValueLens`: the primitive
/// scalars and `String`.
pub open spec fn is_value_type_name(name: Seq<char>) -> bool {
    ||| name == "bool"@
    ||| name == "char"@
    ||| name == "i8"@
    ||| name == "i16"@
    ||| name == "i32"@
    ||| name == "i64"@
    ||| name == "i128"@
    ||| name == "isize"@
    ||| name == "u8"@
    ||| name == "u16"@
    ||| name == "u32"@
    ||| name == "u64"@
    ||| name == "u128"@
    ||| name == "usize"@
    ||| name == "f32"@
    ||| name == "f64"@
    ||| name == "String"@
}

/// Whether a field of type `ty` gets a `ValueLens`: `ty` is a path whose last
/// segment names a primitive scalar or `String`.
pub open spec fn is_value_type<T>(ty: FieldType<T>) -> bool {
    match terminal_ident(ty) {
        Some(name) => is_value_type_name(name),
        None => false,
    }
}

/// Returns whether a field of type `ty` gets a `ValueLens`.
pub fn is_value_lens_type<T>(ty: &FieldType<T>) -> (value: bool)
    ensures
        value == is_value_type(*ty),
{
    let segments = match &ty.shape {
        TypeShape::Path(segments) => segments,
        TypeShape::Other => {
            return false;
        },
    };
    let n = segments.len();
    if n == 0 {
        return false;
    }
    let name = &segments[n - 1].ident;
    equals_str(name, "bool") || equals_str(name, "char") || equals_str(name, "i8") || equals_str(
        name,
        "i16",
    ) || equals_str(name, "i32") || equals_str(name, "i64") || equals_str(name, "i128")
        || equals_str(name, "isize") || equals_str(name, "u8") || equals_str(name, "u16")
        || equals_str(name, "u32") || equals_str(name, "u64") || equals_str(name, "u128")
        || equals_str(name, "usize") || equals_str(name, "f32") || equals_str(name, "f64")
        || equals_str(name, "String")
}

/// A field of the struct: its name (none in a tuple struct) and its type.
pub struct FieldModel<T> {
    pub ident: Option<String>,
    pub ty: FieldType<T>,
}

/// The fields of a struct.
pub enum FieldsShape<T> {
    Named(Vec<FieldModel<T>>),
    Unnamed(Vec<FieldModel<T>>),
    Unit,
}

/// What the derive is applied to.
pub enum DataShape<T> {
    Struct(FieldsShape<T>),
    Enum,
    Union,
}

/// The item the derive is applied to: its name and its data.
pub struct DeriveInputModel<T> {
    pub ident: String,
    pub data: DataShape<T>,
}

/// The lens type generated for one field: a unit struct named `lens_name` that
/// implements `Lens` and `RefLens` (and `ValueLens` where `value_lens`) with
/// the struct as source and `field_type` as target, and path `[field_index]`.
pub struct FieldLens<'a, T> {
    pub lens_name: String,
    pub field_name: String,
    pub field_index: u64,
    pub field_type: &'a T,
    pub value_lens: bool,
}

/// A member of the struct that gathers the lenses of a struct, or of the constant
/// that holds them.
pub enum LensesMember<'a, T> {
    /// The lens of a field: in the struct, a member of type `lens_type`; in the
    /// constant, the unit value `lens_type`.
    Lens { name: String, lens_type: String },
    /// A marker of the item type of a `Vec` field: `PhantomData<item_type>`.
    ItemMarker { name: String, item_type: &'a T },
    /// The lenses of a nested struct: in the struct, a member of type `lenses`;
    /// in the constant, the constant `lenses`.
    Nested { name: String, lenses: String },
}

/// A `LensesMember` as plain values.
pub enum MemberView<T> {
    Lens(Seq<char>, Seq<char>),
    ItemMarker(Seq<char>, T),
    Nested(Seq<char>, Seq<char>),
}

impl<'a, T> View for LensesMember<'a, T> {
    type V = MemberView<T>;

    open spec fn view(&self) -> MemberView<T> {
        match *self {
            LensesMember::Lens { name, lens_type } => MemberView::Lens(name@, lens_type@),
            LensesMember::ItemMarker { name, item_type } => MemberView::ItemMarker(name@, *item_type),
            LensesMember::Nested { name, lenses } => MemberView::Nested(name@, lenses@),
        }
    }
}

/// The views of a sequence of members.
pub open spec fn members_view<'a, T>(members: Seq<LensesMember<'a, T>>) -> Seq<MemberView<T>> {
    Seq::new(members.len(), |k: int| members[k]@)
}

/// Everything the derive generates for a struct: a lens type per field, the struct
/// `lenses_struct_name` with members `struct_members`, and the constant
/// `lenses_const_name` of that struct with members `const_members`.
pub struct LensesExpansion<'a, T> {
    pub field_lenses: Vec<FieldLens<'a, T>>,
    pub lenses_struct_name: String,
    pub struct_members: Vec<LensesMember<'a, T>>,
    pub lenses_const_name: String,
    pub const_members: Vec<LensesMember<'a, T>>,
}

/// The name of the lenses of a nested value of a type whose last segment is `ident`:
/// the name of its lenses struct, or of its lenses constant.
pub open spec fn nested_lenses_name(ident: Seq<char>, for_const: bool) -> Seq<char> {
    if for_const {
        "_"@ + ident + "Lenses"@
    } else {
        ident + "Lenses"@
    }
}

/// Whether the derive cannot name the lenses of the nested value that `field` holds:
/// its type (or, for a `Vec`, its item type) is neither a value type nor a path.
pub open spec fn unsupported_field<T>(field: FieldModel<T>) -> bool {
    match vec_item(field.ty) {
        Some(item) => !is_value_type(item) && terminal_ident(item) is None,
        None => !is_value_type(field.ty) && terminal_ident(field.ty) is None,
    }
}

/// The members generated for the named, supported field `field` of struct
/// `struct_name`: its lens; for a `Vec` field, the item marker and, when the item is
/// not a value type, the item lenses; for another field whose type is not a value
/// type, the lenses of the nested struct.
pub open spec fn field_members<T>(struct_name: Seq<char>, field: FieldModel<T>, for_const: bool) -> Seq<
    MemberView<T>,
> {
    let name = field.ident->0@;
    let lens = seq![MemberView::Lens(name, struct_name + camel_case(name) + "Lens"@)];
    match vec_item(field.ty) {
        Some(item) => {
            let marker = lens.push(MemberView::ItemMarker(name + "_item"@, item.source));
            if is_value_type(item) {
                marker
            } else {
                marker.push(
                    MemberView::Nested(
                        name + "_item_lenses"@,
                        nested_lenses_name(terminal_ident(item)->0, for_const),
                    ),
                )
            }
        },
        None => if is_value_type(field.ty) {
            lens
        } else {
            lens.push(
                MemberView::Nested(
                    name + "_lenses"@,
                    nested_lenses_name(terminal_ident(field.ty)->0, for_const),
                ),
            )
        },
    }
}

/// The members generated for all the fields, in order.
pub open spec fn all_members<T>(struct_name: Seq<char>, fields: Seq<FieldModel<T>>, for_const: bool) -> Seq<
    MemberView<T>,
>
    decreases fields.len(),
{
    if fields.len() == 0 {
        seq![]
    } else {
        all_members(struct_name, fields.drop_last(), for_const) + field_members(
            struct_name,
            fields.last(),
            for_const,
        )
    }
}

/// Whether `lens` is the lens type generated for the named field `field` at
/// `position` of struct `struct_name`.
pub open spec fn is_field_lens<'a, T>(
    lens: FieldLens<'a, T>,
    struct_name: Seq<char>,
    position: int,
    field: FieldModel<T>,
) -> bool {
    &&& field.ident matches Some(name) && lens.field_name@ == name@
    &&& lens.lens_name@ == struct_name + camel_case(lens.field_name@) + "Lens"@
    &&& lens.field_index == position
    &&& *lens.field_type == field.ty.source
    &&& lens.value_lens == is_value_type(field.ty)
}

/// Returns the name of `field`, which stands at `position`.
fn field_name<T>(field: &FieldModel<T>, position: usize) -> (name: Result<&String, DeriveError>)
    ensures
        match field.ident {
            Some(expected) => name matches Ok(found) && *found == expected,
            None => name == Err::<&String, DeriveError>(DeriveError::UnnamedField(position)),
        },
{
    match &field.ident {
        Some(name) => Ok(name),
        None => Err(DeriveError::UnnamedField(position)),
    }
}

/// Returns the name of the lenses struct of the nested value of type `ty`, held by
/// the field at `position`.
pub fn nested_lenses_type_name<T>(ty: &FieldType<T>, position: usize) -> (name: Result<String, DeriveError>)
    ensures
        match terminal_ident(*ty) {
            Some(ident) => name matches Ok(found) && found@ == nested_lenses_name(ident, false),
            None => name == Err::<String, DeriveError>(DeriveError::UnsupportedFieldType(position)),
        },
{
    match terminal_type_ident(ty) {
        Some(ident) => Ok(lenses_struct_name(ident.as_str())),
        None => Err(DeriveError::UnsupportedFieldType(position)),
    }
}

/// Returns the name of the lenses constant of the nested value of type `ty`, held by
/// the field at `position`.
pub fn nested_lenses_const_name<T>(ty: &FieldType<T>, position: usize) -> (name: Result<String, DeriveError>)
    ensures
        match terminal_ident(*ty) {
            Some(ident) => name matches Ok(found) && found@ == nested_lenses_name(ident, true),
            None => name == Err::<String, DeriveError>(DeriveError::UnsupportedFieldType(position)),
        },
{
    match terminal_type_ident(ty) {
        Some(ident) => Ok(lenses_const_name(ident.as_str())),
        None => Err(DeriveError::UnsupportedFieldType(position)),
    }
}

/// Returns the lens type generated for `field`, which stands at `position` of struct
/// `struct_name`.
pub fn expand_field_lens<'a, T>(struct_name: &str, position: usize, field: &'a FieldModel<T>) -> (lens:
    Result<FieldLens<'a, T>, DeriveError>)
    ensures
        lens matches Ok(found) ==> found.value_lens == is_value_type(field.ty) && found.field_index
            == position && *found.field_type == field.ty.source && found.lens_name@ == struct_name@
            + camel_case(found.field_name@) + "Lens"@,
        match field.ident {
            Some(_) => lens matches Ok(found) && is_field_lens(found, struct_name@, position as int, *field),
            None => lens == Err::<FieldLens<'a, T>, DeriveError>(DeriveError::UnnamedField(position)),
        },
{
    let name = field_name(field, position)?;
    let lens_name = lens_type_name(struct_name, name.as_str());
    let value_lens = is_value_lens_type(&field.ty);
    Ok(
        FieldLens {
            lens_name,
            field_name: name.clone(),
            field_index: position as u64,
            field_type: &field.ty.source,
            value_lens,
        },
    )
}

/// The members generated for `field`, at `position` of struct `struct_name`, in the
/// lenses constant (`for_const`) or the lenses struct.
fn expand_lenses_members<'a, T>(
    struct_name: &str,
    position: usize,
    field: &'a FieldModel<T>,
    for_const: bool,
) -> (members: Result<Vec<LensesMember<'a, T>>, DeriveError>)
    ensures
        match field.ident {
            None => members == Err::<Vec<LensesMember<'a, T>>, DeriveError>(
                DeriveError::UnnamedField(position),
            ),
            Some(_) => if unsupported_field(*field) {
                members == Err::<Vec<LensesMember<'a, T>>, DeriveError>(
                    DeriveError::UnsupportedFieldType(position),
                )
            } else {
                members matches Ok(found) && members_view(found@) == field_members(
                    struct_name@,
                    *field,
                    for_const,
                )
            },
        },
{
    let name = field_name(field, position)?;
    let mut generated: Vec<LensesMember<'a, T>> = Vec::new();
    generated.push(
        LensesMember::Lens {
            name: name.clone(),
            lens_type: lens_type_name(struct_name, name.as_str()),
        },
    );
    match vec_item_type(&field.ty) {
        Some(item) => {
            generated.push(
                LensesMember::ItemMarker {
                    name: vec_item_marker_name(name.as_str()),
                    item_type: &item.source,
                },
            );
            if !is_value_lens_type(item) {
                let lenses = if for_const {
                    nested_lenses_const_name(item, position)?
                } else {
                    nested_lenses_type_name(item, position)?
                };
                generated.push(
                    LensesMember::Nested { name: vec_item_lenses_field_name(name.as_str()), lenses },
                );
            }
        },
        None => {
            if !is_value_lens_type(&field.ty) {
                let lenses = if for_const {
                    nested_lenses_const_name(&field.ty, position)?
                } else {
                    nested_lenses_type_name(&field.ty, position)?
                };
                generated.push(
                    LensesMember::Nested { name: nested_lenses_field_name(name.as_str()), lenses },
                );
            }
        },
    }
    assert(members_view(generated@) =~= field_members(struct_name@, *field, for_const));
    Ok(generated)
}

/// Returns the members of the lenses struct generated for `field`, at `position` of
/// struct `struct_name`.
pub fn expand_lenses_struct_fields<'a, T>(
    struct_name: &str,
    position: usize,
    field: &'a FieldModel<T>,
) -> (members: Result<Vec<LensesMember<'a, T>>, DeriveError>)
    ensures
        match field.ident {
            None => members == Err::<Vec<LensesMember<'a, T>>, DeriveError>(
                DeriveError::UnnamedField(position),
            ),
            Some(_) => if unsupported_field(*field) {
                members == Err::<Vec<LensesMember<'a, T>>, DeriveError>(
                    DeriveError::UnsupportedFieldType(position),
                )
            } else {
                members matches Ok(found) && members_view(found@) == field_members(
                    struct_name@,
                    *field,
                    false,
                )
            },
        },
{
    expand_lenses_members(struct_name, position, field, false)
}

/// Returns the members of the lenses constant generated for `field`, at `position`
/// of struct `struct_name`.
pub fn expand_lenses_const_fields<'a, T>(
    struct_name: &str,
    position: usize,
    field: &'a FieldModel<T>,
) -> (members: Result<Vec<LensesMember<'a, T>>, DeriveError>)
    ensures
        match field.ident {
            None => members == Err::<Vec<LensesMember<'a, T>>, DeriveError>(
                DeriveError::UnnamedField(position),
            ),
            Some(_) => if unsupported_field(*field) {
                members == Err::<Vec<LensesMember<'a, T>>, DeriveError>(
                    DeriveError::UnsupportedFieldType(position),
                )
            } else {
                members matches Ok(found) && members_view(found@) == field_members(
                    struct_name@,
                    *field,
                    true,
                )
            },
        },
{
    expand_lenses_members(struct_name, position, field, true)
}

/// Whether the field at `k` is the first field without a name.
pub open spec fn is_first_unnamed<T>(fields: Seq<FieldModel<T>>, k: int) -> bool {
    &&& 0 <= k < fields.len()
    &&& fields[k].ident is None
    &&& forall|j: int| 0 <= j < k ==> (#[trigger] fields[j]).ident is Some
}

/// Whether the field at `k` is the first field whose nested lenses cannot be named.
pub open spec fn is_first_unsupported<T>(fields: Seq<FieldModel<T>>, k: int) -> bool {
    &&& 0 <= k < fields.len()
    &&& unsupported_field(fields[k])
    &&& forall|j: int| 0 <= j < k ==> !unsupported_field(#[trigger] fields[j])
}

/// Whether every field has a name.
pub open spec fn all_named<T>(fields: Seq<FieldModel<T>>) -> bool {
    forall|k: int| 0 <= k < fields.len() ==> (#[trigger] fields[k]).ident is Some
}

/// Whether the nested lenses of every field can be named.
pub open spec fn all_supported<T>(fields: Seq<FieldModel<T>>) -> bool {
    forall|k: int| 0 <= k < fields.len() ==> !unsupported_field(#[trigger] fields[k])
}

/// Whether `expansion` is what the derive generates for struct `struct_name` with
/// named, supported `fields`.
pub open spec fn is_expansion<'a, T>(
    expansion: LensesExpansion<'a, T>,
    struct_name: Seq<char>,
    fields: Seq<FieldModel<T>>,
) -> bool {
    &&& expansion.field_lenses@.len() == fields.len()
    &&& forall|k: int|
        0 <= k < fields.len() ==> is_field_lens(
            #[trigger] expansion.field_lenses@[k],
            struct_name,
            k,
            fields[k],
        )
    &&& expansion.lenses_struct_name@ == struct_name + "Lenses"@
    &&& expansion.lenses_const_name@ == "_"@ + struct_name + "Lenses"@
    &&& members_view(expansion.struct_members@) == all_members(struct_name, fields, false)
    &&& members_view(expansion.const_members@) == all_members(struct_name, fields, true)
}

/// The members of `members` followed by those of `more` have the views of the first
/// followed by the views of the second.
proof fn lemma_members_view_append<'a, T>(
    members: Seq<LensesMember<'a, T>>,
    more: Seq<LensesMember<'a, T>>,
)
    ensures
        members_view(members + more) == members_view(members) + members_view(more),
{
    assert(members_view(members + more) =~= members_view(members) + members_view(more));
}

/// Returns everything the `Lenses` derive generates for `input`, or why it refuses it:
/// it takes structs with named fields only, and reports the first field without a
/// name, or else the first field whose nested lenses it cannot name.
pub fn expand_lenses<'a, T>(input: &'a DeriveInputModel<T>) -> (expansion: Result<
    LensesExpansion<'a, T>,
    DeriveError,
>)
    ensures
        match input.data {
            DataShape::Struct(FieldsShape::Named(fields)) => {
                &&& !all_named(fields@) ==> exists|k: int|
                    is_first_unnamed(fields@, k) && expansion == Err::<
                        LensesExpansion<'a, T>,
                        DeriveError,
                    >(DeriveError::UnnamedField(k as usize))
                &&& all_named(fields@) && !all_supported(fields@) ==> exists|k: int|
                    is_first_unsupported(fields@, k) && expansion == Err::<
                        LensesExpansion<'a, T>,
                        DeriveError,
                    >(DeriveError::UnsupportedFieldType(k as usize))
                &&& all_named(fields@) && all_supported(fields@) ==> (expansion matches Ok(found)
                    && is_expansion(found, input.ident@, fields@))
                &&& expansion matches Ok(found) ==> found.field_lenses@.len() == fields@.len()
                    && forall|k: int|
                    0 <= k < fields@.len() ==> (#[trigger] found.field_lenses@[k]).value_lens
                        == is_value_type(fields@[k].ty) && found.field_lenses@[k].field_index == k
            },
            DataShape::Struct(_) => expansion == Err::<LensesExpansion<'a, T>, DeriveError>(
                DeriveError::NotNamedFields,
            ),
            _ => expansion == Err::<LensesExpansion<'a, T>, DeriveError>(DeriveError::NotAStruct),
        },
{
    let fields = match &input.data {
        DataShape::Struct(FieldsShape::Named(fields)) => fields,
        DataShape::Struct(_) => {
            return Err(DeriveError::NotNamedFields);
        },
        _ => {
            return Err(DeriveError::NotAStruct);
        },
    };
    let struct_name = input.ident.as_str();
    let n = fields.len();

    let mut field_lenses: Vec<FieldLens<'a, T>> = Vec::new();
    let mut k: usize = 0;
    while k < n
        invariant
            n == fields@.len(),
            k <= n,
            struct_name@ == input.ident@,
            input.data == DataShape::Struct(FieldsShape::Named(*fields)),
            field_lenses@.len() == k,
            forall|j: int| 0 <= j < k ==> (#[trigger] fields@[j]).ident is Some,
            forall|j: int|
                0 <= j < k ==> is_field_lens(
                    #[trigger] field_lenses@[j],
                    struct_name@,
                    j,
                    fields@[j],
                ),
        decreases n - k,
    {
        match expand_field_lens(struct_name, k, &fields[k]) {
            Ok(lens) => {
                field_lenses.push(lens);
            },
            Err(error) => {
                assert(is_first_unnamed(fields@, k as int));
                assert(!all_named(fields@));
                assert(error == DeriveError::UnnamedField(k));
                return Err(error);
            },
        }
        k = k + 1;
    }
    assert(all_named(fields@));

    let mut struct_members: Vec<LensesMember<'a, T>> = Vec::new();
    let mut k: usize = 0;
    while k < n
        invariant
            n == fields@.len(),
            k <= n,
            struct_name@ == input.ident@,
            input.data == DataShape::Struct(FieldsShape::Named(*fields)),
            all_named(fields@),
            forall|j: int| 0 <= j < k ==> !unsupported_field(#[trigger] fields@[j]),
            members_view(struct_members@) == all_members(struct_name@, fields@.take(k as int), false),
        decreases n - k,
    {
        let ghost before = struct_members@;
        assert(fields@[k as int].ident is Some);
        match expand_lenses_struct_fields(struct_name, k, &fields[k]) {
            Ok(mut members) => {
                let ghost added = members@;
                struct_members.append(&mut members);
                proof {
                    lemma_members_view_append(before, added);
                    assert(fields@.take(k + 1).drop_last() =~= fields@.take(k as int));
                }
            },
            Err(error) => {
                assert(is_first_unsupported(fields@, k as int));
                assert(!all_supported(fields@));
                assert(error == DeriveError::UnsupportedFieldType(k));
                return Err(error);
            },
        }
        k = k + 1;
    }
    assert(fields@.take(n as int) =~= fields@);
    assert(all_supported(fields@));

    let mut const_members: Vec<LensesMember<'a, T>> = Vec::new();
    let mut k: usize = 0;
    while k < n
        invariant
            n == fields@.len(),
            k <= n,
            struct_name@ == input.ident@,
            input.data == DataShape::Struct(FieldsShape::Named(*fields)),
            all_named(fields@),
            all_supported(fields@),
            members_view(const_members@) == all_members(struct_name@, fields@.take(k as int), true),
        decreases n - k,
    {
        let ghost before = const_members@;
        assert(fields@[k as int].ident is Some);
        assert(!unsupported_field(fields@[k as int]));
        let mut members = expand_lenses_const_fields(struct_name, k, &fields[k])?;
        let ghost added = members@;
        const_members.append(&mut members);
        proof {
            lemma_members_view_append(before, added);
            assert(fields@.take(k + 1).drop_last() =~= fields@.take(k as int));
        }
        k = k + 1;
    }

    Ok(
        LensesExpansion {
            field_lenses,
            lenses_struct_name: lenses_struct_name(struct_name),
            struct_members,
            lenses_const_name: lenses_const_name(struct_name),
            const_members,
        },
    )
}

} // verus!
