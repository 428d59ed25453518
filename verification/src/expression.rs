//! What the `lens!` macro makes of an expression such as `Root.items[1].value`:
//! the steps it names, and the lenses that are composed for them. The index
//! expressions are carried through as `I`.

use crate::naming::{
    lenses_const_name, nested_lenses_field_name, vec_item_lenses_field_name, vec_item_marker_name,
};
use vstd::prelude::*;
use vstd::string::*;

verus! {

/// The expression given to `lens!`, as far as the macro looks into it.
pub enum LensExpr<I> {
    /// A field access `base.member`.
    Field { base: Box<LensExpr<I>>, member: FieldMember },
    /// An index expression `base[index]`.
    Index { base: Box<LensExpr<I>>, index: I },
    /// A path such as `Root` or `crate::Root`, by its segments.
    Path { segments: Vec<String> },
    /// Any other expression.
    Other,
}

/// The member in a field access: a name, or a tuple index.
pub enum FieldMember {
    Named(String),
    Unnamed(u32),
}

/// A step from a value to a part of it.
pub enum LensStep<'a, I> {
    /// The named field.
    Field(String),
    /// The element at the index expression.
    Index(&'a I),
}

/// A `LensStep` as plain values.
pub enum StepView<I> {
    Field(Seq<char>),
    Index(I),
}

impl<'a, I> View for LensStep<'a, I> {
    type V = StepView<I>;

    open spec fn view(&self) -> StepView<I> {
        match *self {
            LensStep::Field(name) => StepView::Field(name@),
            LensStep::Index(index) => StepView::Index(*index),
        }
    }
}

/// The views of a sequence of steps.
pub open spec fn steps_view<'a, I>(steps: Seq<LensStep<'a, I>>) -> Seq<StepView<I>> {
    Seq::new(steps.len(), |k: int| steps[k]@)
}

/// A parsed `lens!` expression: the name of the root struct and the steps from it.
pub struct ParsedLens<'a, I> {
    pub root: String,
    pub steps: Vec<LensStep<'a, I>>,
}

/// Why `lens!` refuses an expression.
#[derive(PartialEq, Eq, Structural, Debug, Clone, Copy)]
pub enum LensSyntaxError {
    /// The expression names its root and no field.
    NoFieldAccess,
    /// The expression accesses a tuple field.
    TupleField,
    /// The expression is neither a path, a field access nor an index expression.
    UnsupportedExpression,
    /// The root is a path with more than one segment.
    QualifiedRoot,
    /// An index does not come right after a named field.
    IndexWithoutField,
}

impl LensSyntaxError {
    /// The message that `lens!` reports for this error.
    pub fn message(&self) -> (message: &'static str)
        ensures
            message@ == match *self {
                LensSyntaxError::NoFieldAccess =>
                    "lens!() expression must include at least one field access"@,
                LensSyntaxError::TupleField =>
                    "lens!() only works with named fields, not tuple indexing"@,
                LensSyntaxError::UnsupportedExpression =>
                    "lens!() expression must look like `Root.field` or `Root.field[index].child`"@,
                LensSyntaxError::QualifiedRoot =>
                    "lens!() expression must start with an unqualified struct name"@,
                LensSyntaxError::IndexWithoutField =>
                    "lens!() indexing is only supported immediately after a named field"@,
            },
    {
        match self {
            LensSyntaxError::NoFieldAccess =>
                "lens!() expression must include at least one field access",
            LensSyntaxError::TupleField =>
                "lens!() only works with named fields, not tuple indexing",
            LensSyntaxError::UnsupportedExpression =>
                "lens!() expression must look like `Root.field` or `Root.field[index].child`",
            LensSyntaxError::QualifiedRoot =>
                "lens!() expression must start with an unqualified struct name",
            LensSyntaxError::IndexWithoutField =>
                "lens!() indexing is only supported immediately after a named field",
        }
    }
}

/// The root and the steps of `expr`, read from the root outwards: a path of one
/// segment is the root; a named field access or an index adds a step after those of
/// its base; a qualified path, a tuple field or any other expression is refused (the
/// innermost refusal counts).
pub open spec fn lens_steps<I>(expr: LensExpr<I>) -> Result<(Seq<char>, Seq<StepView<I>>), LensSyntaxError>
    decreases expr,
{
    match expr {
        LensExpr::Field { base, member } => match lens_steps(*base) {
            Ok((root, steps)) => match member {
                FieldMember::Named(name) => Ok((root, steps.push(StepView::Field(name@)))),
                FieldMember::Unnamed(_) => Err(LensSyntaxError::TupleField),
            },
            Err(error) => Err(error),
        },
        LensExpr::Index { base, index } => match lens_steps(*base) {
            Ok((root, steps)) => Ok((root, steps.push(StepView::Index(index)))),
            Err(error) => Err(error),
        },
        LensExpr::Path { segments } => if segments@.len() == 1 {
            Ok((segments@[0]@, seq![]))
        } else {
            Err(LensSyntaxError::QualifiedRoot)
        },
        LensExpr::Other => Err(LensSyntaxError::UnsupportedExpression),
    }
}

/// Appends the steps of `expr` to `steps` and returns its root.
fn collect_steps<'a, I>(expr: &'a LensExpr<I>, steps: &mut Vec<LensStep<'a, I>>) -> (root: Result<
    String,
    LensSyntaxError,
>)
    ensures
        match lens_steps(*expr) {
            Ok((expected_root, expected_steps)) => root matches Ok(found) && found@ == expected_root
                && steps_view(final(steps)@) == steps_view(old(steps)@) + expected_steps,
            Err(error) => root == Err::<String, LensSyntaxError>(error),
        },
    decreases expr,
{
    match expr {
        LensExpr::Field { base, member } => {
            let ghost start = steps@;
            let root = collect_steps(base, steps)?;
            let ghost middle = steps@;
            match member {
                FieldMember::Named(name) => {
                    steps.push(LensStep::Field(name.clone()));
                    assert(steps_view(steps@) =~= steps_view(middle).push(StepView::Field(name@)));
                    assert(steps_view(steps@) =~= steps_view(start) + lens_steps(**base)->Ok_0.1.push(
                        StepView::Field(name@),
                    ));
                    Ok(root)
                },
                FieldMember::Unnamed(_) => Err(LensSyntaxError::TupleField),
            }
        },
        LensExpr::Index { base, index } => {
            let ghost start = steps@;
            let root = collect_steps(base, steps)?;
            let ghost middle = steps@;
            steps.push(LensStep::Index(index));
            assert(steps_view(steps@) =~= steps_view(middle).push(StepView::Index(*index)));
            assert(steps_view(steps@) =~= steps_view(start) + lens_steps(**base)->Ok_0.1.push(
                StepView::Index(*index),
            ));
            Ok(root)
        },
        LensExpr::Path { segments } => parse_root(segments),
        LensExpr::Other => Err(LensSyntaxError::UnsupportedExpression),
    }
}

/// Returns the root named by a path: its one segment.
fn parse_root(segments: &Vec<String>) -> (root: Result<String, LensSyntaxError>)
    ensures
        segments@.len() == 1 ==> (root matches Ok(found) && found@ == segments@[0]@),
        segments@.len() != 1 ==> root == Err::<String, LensSyntaxError>(
            LensSyntaxError::QualifiedRoot,
        ),
{
    if segments.len() != 1 {
        return Err(LensSyntaxError::QualifiedRoot);
    }
    Ok(segments[0].clone())
}

/// Returns the root and the steps of a `lens!` expression, which must name at least
/// one field.
pub fn parse_lens_expression<'a, I>(expr: &'a LensExpr<I>) -> (parsed: Result<
    ParsedLens<'a, I>,
    LensSyntaxError,
>)
    ensures
        match lens_steps(*expr) {
            Ok((root, steps)) => if steps.len() == 0 {
                parsed == Err::<ParsedLens<'a, I>, LensSyntaxError>(LensSyntaxError::NoFieldAccess)
            } else {
                parsed matches Ok(found) && found.root@ == root && steps_view(found.steps@) == steps
            },
            Err(error) => parsed == Err::<ParsedLens<'a, I>, LensSyntaxError>(error),
        },
{
    let mut steps: Vec<LensStep<'a, I>> = Vec::new();
    assert(steps_view(steps@) =~= seq![]);
    let root = collect_steps(expr, &mut steps)?;
    assert(steps_view(steps@) =~= lens_steps(*expr)->Ok_0.1);
    if steps.len() == 0 {
        return Err(LensSyntaxError::NoFieldAccess);
    }
    Ok(ParsedLens { root, steps })
}

/// The texts of a sequence of names.
pub open spec fn names_view(names: Seq<String>) -> Seq<Seq<char>> {
    Seq::new(names.len(), |k: int| names[k]@)
}

/// A lens composed by `lens!`, as a path of member accesses.
pub enum LensPiece<'a, I> {
    /// The lens at `access`: the lenses constant of the root, then member names.
    Field { access: Vec<String> },
    /// The element lens `vec_lens_from_marker(marker, index)`, where `marker` is the
    /// access path of the item marker of the `Vec` field.
    Element { marker: Vec<String>, index: &'a I },
}

/// A `LensPiece` as plain values.
pub enum PieceView<I> {
    Field(Seq<Seq<char>>),
    Element(Seq<Seq<char>>, I),
}

impl<'a, I> View for LensPiece<'a, I> {
    type V = PieceView<I>;

    open spec fn view(&self) -> PieceView<I> {
        match *self {
            LensPiece::Field { access } => PieceView::Field(names_view(access@)),
            LensPiece::Element { marker, index } => PieceView::Element(names_view(marker@), *index),
        }
    }
}

/// The views of a sequence of pieces.
pub open spec fn pieces_view<'a, I>(pieces: Seq<LensPiece<'a, I>>) -> Seq<PieceView<I>> {
    Seq::new(pieces.len(), |k: int| pieces[k]@)
}

/// The access path of the lenses in scope before step `k`: the lenses constant of
/// the root; after a named field, the lenses of the nested struct it holds; after an
/// index, the lenses of the items of the `Vec` field before it.
pub open spec fn lenses_before<I>(root: Seq<char>, steps: Seq<StepView<I>>, k: int) -> Seq<Seq<char>>
    decreases k,
{
    if k <= 0 {
        seq!["_"@ + root + "Lenses"@]
    } else {
        match steps[k - 1] {
            StepView::Field(name) => lenses_before(root, steps, k - 1).push(name + "_lenses"@),
            StepView::Index(_) => if k >= 2 && steps[k - 2] is Field {
                lenses_before(root, steps, k - 2).push(steps[k - 2]->Field_0 + "_item_lenses"@)
            } else {
                seq![]
            },
        }
    }
}

/// The lens composed for step `k`: for a named field, the field lens among the lenses
/// in scope; for an index, the element lens of the `Vec` field before it.
pub open spec fn piece_at<I>(root: Seq<char>, steps: Seq<StepView<I>>, k: int) -> PieceView<I> {
    match steps[k] {
        StepView::Field(name) => PieceView::Field(lenses_before(root, steps, k).push(name)),
        StepView::Index(index) => PieceView::Element(
            lenses_before(root, steps, k - 1).push(steps[k - 1]->Field_0 + "_item"@),
            index,
        ),
    }
}

/// The member path of a lens piece: the access path of a field lens, or the marker
/// path of an element lens.
pub open spec fn piece_path<I>(piece: PieceView<I>) -> Seq<Seq<char>> {
    match piece {
        PieceView::Field(access) => access,
        PieceView::Element(marker, _) => marker,
    }
}

/// How the lens of each step relates to the lens of the steps before it (in an
/// expression with no index that misses its field): the first field is a member of
/// the root's lenses constant; a field lens is always reached through a member named
/// after its field; a field after a field is reached through the first field's
/// `_lenses` member; an index after a field is the element lens whose marker is the
/// field's `_item` member, at the step's index; and a field after such an index is
/// reached through the `Vec` field's `_item_lenses` member.
pub proof fn lemma_pieces_follow_their_steps<I>(root: Seq<char>, steps: Seq<StepView<I>>, k: int)
    requires
        0 <= k < steps.len(),
        forall|j: int| 0 <= j <= k ==> !#[trigger] index_without_field(steps, j),
    ensures
        k == 0 ==> piece_at(root, steps, 0) == PieceView::<I>::Field(
            seq!["_"@ + root + "Lenses"@, steps[0]->Field_0],
        ),
        steps[k] is Field ==> piece_at(root, steps, k) is Field && piece_path(
            piece_at(root, steps, k),
        ).last() == steps[k]->Field_0,
        k >= 1 && steps[k - 1] is Field && steps[k] is Field ==> piece_path(
            piece_at(root, steps, k),
        ) == piece_path(piece_at(root, steps, k - 1)).drop_last().push(
            steps[k - 1]->Field_0 + "_lenses"@,
        ).push(steps[k]->Field_0),
        k >= 1 && steps[k - 1] is Field && steps[k] is Index ==> piece_at(root, steps, k)
            == PieceView::<I>::Element(
            piece_path(piece_at(root, steps, k - 1)).drop_last().push(
                steps[k - 1]->Field_0 + "_item"@,
            ),
            steps[k]->Index_0,
        ),
        k >= 2 && steps[k - 2] is Field && steps[k - 1] is Index && steps[k] is Field ==> piece_path(
            piece_at(root, steps, k),
        ) == piece_path(piece_at(root, steps, k - 2)).drop_last().push(
            steps[k - 2]->Field_0 + "_item_lenses"@,
        ).push(steps[k]->Field_0),
{
    assert(!index_without_field(steps, k));
    if k == 0 {
        assert(seq!["_"@ + root + "Lenses"@].push(steps[0]->Field_0) =~= seq![
            "_"@ + root + "Lenses"@,
            steps[0]->Field_0,
        ]);
    }
    if k >= 1 && steps[k - 1] is Field {
        let before = lenses_before(root, steps, k - 1);
        assert(before.push(steps[k - 1]->Field_0).drop_last() =~= before);
    }
    if k >= 2 && steps[k - 2] is Field && steps[k - 1] is Index {
        let before = lenses_before(root, steps, k - 2);
        assert(before.push(steps[k - 2]->Field_0).drop_last() =~= before);
    }
}

/// Whether step `k` is an index that does not come right after a named field.
pub open spec fn index_without_field<I>(steps: Seq<StepView<I>>, k: int) -> bool {
    &&& steps[k] is Index
    &&& (k == 0 || steps[k - 1] is Index)
}

/// Returns a copy of `names`.
fn clone_names(names: &Vec<String>) -> (copy: Vec<String>)
    ensures
        names_view(copy@) == names_view(names@),
{
    let mut copy: Vec<String> = Vec::new();
    let mut k: usize = 0;
    while k < names.len()
        invariant
            k <= names.len(),
            copy@.len() == k,
            forall|j: int| 0 <= j < k ==> (#[trigger] copy@[j])@ == names@[j]@,
        decreases names.len() - k,
    {
        copy.push(names[k].clone());
        k = k + 1;
    }
    assert(names_view(copy@) =~= names_view(names@));
    copy
}

/// Returns `names` followed by `name`.
fn extended(names: &Vec<String>, name: String) -> (longer: Vec<String>)
    ensures
        names_view(longer@) == names_view(names@).push(name@),
{
    let mut longer = clone_names(names);
    let ghost before = longer@;
    longer.push(name);
    assert(names_view(longer@) =~= names_view(before).push(name@));
    longer
}

/// Returns the lenses that `lens!` composes for `parsed`, one per step, or refuses
/// an index that does not come right after a named field.
pub fn expand_lens_expression<'a, I>(parsed: ParsedLens<'a, I>) -> (pieces: Result<
    Vec<LensPiece<'a, I>>,
    LensSyntaxError,
>)
    ensures
        (exists|k: int|
            0 <= k < parsed.steps@.len() && #[trigger] index_without_field(
                steps_view(parsed.steps@),
                k,
            )) ==> pieces == Err::<Vec<LensPiece<'a, I>>, LensSyntaxError>(
            LensSyntaxError::IndexWithoutField,
        ),
        (forall|k: int|
            0 <= k < parsed.steps@.len() ==> !#[trigger] index_without_field(
                steps_view(parsed.steps@),
                k,
            )) ==> (pieces matches Ok(found) && pieces_view(found@) == Seq::new(
            parsed.steps@.len(),
            |k: int| piece_at(parsed.root@, steps_view(parsed.steps@), k),
        )),
{
    let ghost root = parsed.root@;
    let ghost steps = steps_view(parsed.steps@);
    let mut current: Vec<String> = Vec::new();
    current.push(lenses_const_name(parsed.root.as_str()));
    assert(names_view(current@) =~= lenses_before(root, steps, 0));
    let mut last_field: Option<(Vec<String>, Vec<String>)> = None;
    let mut pieces: Vec<LensPiece<'a, I>> = Vec::new();
    let n = parsed.steps.len();
    let mut k: usize = 0;
    while k < n
        invariant
            n == parsed.steps@.len(),
            steps == steps_view(parsed.steps@),
            root == parsed.root@,
            k <= n,
            names_view(current@) == lenses_before(root, steps, k as int),
            match last_field {
                Some((marker, item_lenses)) => k > 0 && steps[k - 1] is Field && names_view(
                    marker@,
                ) == lenses_before(root, steps, k - 1).push(steps[k - 1]->Field_0 + "_item"@)
                    && names_view(item_lenses@) == lenses_before(root, steps, k - 1).push(
                    steps[k - 1]->Field_0 + "_item_lenses"@,
                ),
                None => k == 0 || steps[k - 1] is Index,
            },
            pieces@.len() == k,
            forall|j: int| 0 <= j < k ==> (#[trigger] pieces@[j])@ == piece_at(root, steps, j),
            forall|j: int| 0 <= j < k ==> !#[trigger] index_without_field(steps, j),
        decreases n - k,
    {
        assert(steps[k as int] == parsed.steps@[k as int]@);
        match &parsed.steps[k] {
            LensStep::Field(name) => {
                pieces.push(LensPiece::Field { access: extended(&current, name.clone()) });
                let marker = extended(&current, vec_item_marker_name(name.as_str()));
                let item_lenses = extended(&current, vec_item_lenses_field_name(name.as_str()));
                last_field = Some((marker, item_lenses));
                current.push(nested_lenses_field_name(name.as_str()));
            },
            LensStep::Index(index) => {
                match last_field {
                    None => {
                        assert(index_without_field(steps, k as int));
                        return Err(LensSyntaxError::IndexWithoutField);
                    },
                    Some((marker, item_lenses)) => {
                        pieces.push(LensPiece::Element { marker, index: *index });
                        current = item_lenses;
                        last_field = None;
                    },
                }
            },
        }
        assert(names_view(current@) =~= lenses_before(root, steps, k + 1));
        k = k + 1;
    }
    assert(pieces_view(pieces@) =~= Seq::new(n as nat, |j: int| piece_at(root, steps, j)));
    Ok(pieces)
}

/// Returns the lenses that `lens!` composes for `expr`: its steps, parsed, each
/// turned into a lens; or why `lens!` refuses `expr`.
pub fn lens_expansion<'a, I>(expr: &'a LensExpr<I>) -> (pieces: Result<
    Vec<LensPiece<'a, I>>,
    LensSyntaxError,
>)
    ensures
        match lens_steps(*expr) {
            Err(error) => pieces == Err::<Vec<LensPiece<'a, I>>, LensSyntaxError>(error),
            Ok((root, steps)) => if steps.len() == 0 {
                pieces == Err::<Vec<LensPiece<'a, I>>, LensSyntaxError>(
                    LensSyntaxError::NoFieldAccess,
                )
            } else if exists|k: int| 0 <= k < steps.len() && #[trigger] index_without_field(steps, k) {
                pieces == Err::<Vec<LensPiece<'a, I>>, LensSyntaxError>(
                    LensSyntaxError::IndexWithoutField,
                )
            } else {
                pieces matches Ok(found) && pieces_view(found@) == Seq::new(
                    steps.len(),
                    |k: int| piece_at(root, steps, k),
                )
            },
        },
{
    let parsed = parse_lens_expression(expr)?;
    expand_lens_expression(parsed)
}

} // verus!
