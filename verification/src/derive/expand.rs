//! From a struct to the body of its `merge`.

use crate::derive::answers::{answers_at, attrs_name_path};
use crate::derive::container::{Container, ContainerView};
use crate::derive::error::{Error, ErrorKind};
use crate::derive::field::{Field, FieldView};
use crate::derive::input::{Data, DeriveInput, FieldInput, Member, MemberView};
use crate::derive::path::{viewed, Path};
use vstd::prelude::*;

verus! {

/// One statement in the body of `merge`: the merge of one field.
#[derive(Debug, Clone, PartialEq, Eq)]
pub struct Assignment {
    /// The field that the statement merges.
    pub member: Member,
    /// The function that the statement calls; `None` for the `merge` of the
    /// field's type.
    pub strategy: Option<Path>,
}

/// An [`Assignment`], with its texts as sequences of characters.
pub ghost struct AssignmentView {
    pub member: MemberView,
    pub strategy: Option<Seq<char>>,
}

impl View for Assignment {
    type V = AssignmentView;

    open spec fn view(&self) -> AssignmentView {
        AssignmentView {
            member: self.member@,
            strategy: match self.strategy {
                Some(path) => Some(path@),
                None => None,
            },
        }
    }
}

/// The `impl` block that the derivation writes for a struct.
#[derive(Debug, Clone, PartialEq, Eq)]
pub struct Expansion {
    /// The path under which the written code finds this library.
    pub krate: Path,
    /// The name of the struct.
    pub ident: String,
    /// The generics of the struct as they stand behind `impl`.
    pub impl_generics: String,
    /// The generics of the struct as they stand behind its name.
    pub ty_generics: String,
    /// The `where` clause of the struct.
    pub where_clause: String,
    /// The struct has no field at all.
    pub unit: bool,
    /// The statements of the body, in the order of the fields.
    pub assignments: Vec<Assignment>,
}

/// An [`Expansion`], with its texts as sequences of characters.
pub ghost struct ExpansionView {
    pub krate: Seq<char>,
    pub ident: Seq<char>,
    pub impl_generics: Seq<char>,
    pub ty_generics: Seq<char>,
    pub where_clause: Seq<char>,
    pub unit: bool,
    pub assignments: Seq<AssignmentView>,
}

/// The statements of a body, each by its view.
pub open spec fn statements(assignments: Seq<Assignment>) -> Seq<AssignmentView> {
    assignments.map_values(|assignment: Assignment| assignment@)
}

impl View for Expansion {
    type V = ExpansionView;

    open spec fn view(&self) -> ExpansionView {
        ExpansionView {
            krate: self.krate@,
            ident: self.ident@,
            impl_generics: self.impl_generics@,
            ty_generics: self.ty_generics@,
            where_clause: self.where_clause@,
            unit: self.unit,
            assignments: statements(self.assignments@),
        }
    }
}

/// The statement for the field at position `idx`, where `asked` is what its
/// attributes ask for: none for a skipped field, else a call of the named
/// strategy or of the `merge` of the field's type.
pub open spec fn assignment_given(idx: nat, field: FieldInput, asked: FieldView) -> Option<
    AssignmentView,
> {
    if asked.skipped {
        None
    } else {
        Some(AssignmentView { member: MemberView::of(idx, field.ident), strategy: asked.strategy })
    }
}

/// The answers of the parser of path expressions for one item: those for
/// the attributes of the item itself, and those for the attributes of each
/// of its fields, field by field.
pub ghost struct Answers {
    pub container: Seq<Seq<bool>>,
    pub fields: Seq<Seq<Seq<bool>>>,
}

impl Answers {
    /// No answers: what there is where the parser was not asked.
    pub open spec fn none() -> Answers {
        Answers { container: Seq::empty(), fields: Seq::empty() }
    }
}

/// Whether a field gives `strategy` a value that has to be a path.
pub open spec fn fields_name_path(fields: Seq<FieldInput>) -> bool {
    exists|at: int|
        0 <= at < fields.len() && #[trigger] attrs_name_path(fields[at].attrs@, "strategy"@)
}

/// Whether the item or a field gives `crate` or `strategy` a value that has
/// to be a path. Where none does, the parser is not asked, and the
/// derivation is fixed by the item alone.
pub open spec fn names_path(input: DeriveInput, fields: Seq<FieldInput>) -> bool {
    attrs_name_path(input.attrs@, "crate"@) || fields_name_path(fields)
}

/// The statement for the field at position `idx`, or what is wrong with the
/// attributes of that field, given the answers of the parser for them.
pub open spec fn assignment_of(idx: nat, field: FieldInput, answers: Seq<Seq<bool>>) -> Result<
    Option<AssignmentView>,
    Error,
> {
    match FieldView::given(field.attrs@, answers) {
        Ok(asked) => Ok(assignment_given(idx, field, asked)),
        Err(kind) => Err(Error { kind, field: Some(idx as usize) }),
    }
}

/// The statements for the fields of a struct, in the order of the fields, or
/// what is wrong with the first field that is at fault, given the answers of
/// the parser: `answers[i]` for the attributes of field `i`.
pub open spec fn assignments_given(fields: Seq<FieldInput>, answers: Seq<Seq<Seq<bool>>>) -> Result<
    Seq<AssignmentView>,
    Error,
>
    decreases fields.len(),
{
    if fields.len() == 0 {
        Ok(Seq::empty())
    } else {
        match assignments_given(fields.drop_last(), answers) {
            Ok(body) => match assignment_of(
                (fields.len() - 1) as nat,
                fields.last(),
                answers_at(answers, fields.len() - 1),
            ) {
                Ok(Some(assignment)) => Ok(body.push(assignment)),
                Ok(None) => Ok(body),
                Err(error) => Err(error),
            },
            Err(error) => Err(error),
        }
    }
}

/// The `impl` block for a struct with the given fields, given the answers of
/// the parser: the attributes of the struct are read first, then those of the
/// fields.
pub open spec fn expansion_given(
    input: DeriveInput,
    fields: Seq<FieldInput>,
    answers: Answers,
) -> Result<ExpansionView, Error> {
    match ContainerView::given(input.attrs@, answers.container) {
        Err(kind) => Err(Error { kind, field: None }),
        Ok(container) => match assignments_given(fields, answers.fields) {
            Err(error) => Err(error),
            Ok(body) => Ok(
                ExpansionView {
                    krate: container.krate,
                    ident: input.ident@,
                    impl_generics: input.impl_generics@,
                    ty_generics: input.ty_generics@,
                    where_clause: input.where_clause@,
                    unit: fields.len() == 0,
                    assignments: body,
                },
            ),
        },
    }
}

/// What deriving `Merge` for an item gives, given the answers of the parser:
/// the `impl` block for a struct, and a refusal for an enum or a union.
pub open spec fn derived_given(input: DeriveInput, answers: Answers) -> Result<
    ExpansionView,
    Error,
> {
    match input.data {
        Data::Struct(fields) => expansion_given(input, fields@, answers),
        Data::Enum => Err(Error { kind: ErrorKind::Enumeration, field: None }),
        Data::Union => Err(Error { kind: ErrorKind::Union, field: None }),
    }
}

/// What was written for one field, with the statement by its view.
pub open spec fn written(res: Result<Option<Assignment>, Error>) -> Result<
    Option<AssignmentView>,
    Error,
> {
    match res {
        Ok(Some(assignment)) => Ok(Some(assignment@)),
        Ok(None) => Ok(None),
        Err(error) => Err(error),
    }
}

/// What was written for the fields, with each statement by its view.
pub open spec fn written_all(res: Result<Vec<Assignment>, Error>) -> Result<
    Seq<AssignmentView>,
    Error,
> {
    match res {
        Ok(assignments) => Ok(statements(assignments@)),
        Err(error) => Err(error),
    }
}

/// Writes the statement for the field at position `idx`, given what its
/// attributes ask for.
pub fn assignment_for(idx: usize, field: &FieldInput, asked: Field) -> (res: Option<Assignment>)
    ensures
        res is Some == assignment_given(idx as nat, *field, asked@) is Some,
        res matches Some(assignment) ==> assignment_given(idx as nat, *field, asked@) == Some(
            assignment@,
        ),
{
    if asked.skipped {
        return None;
    }
    Some(Assignment { member: Member::from_field(idx, &field.ident), strategy: asked.strategy })
}

/// Writes the statement for the field at position `idx`: reads the
/// attributes of the field, and writes nothing for a skipped field.
///
/// The result is what the attributes give under the answers of the parser
/// of path expressions. A field that gives `strategy` no value does not have
/// the parser asked.
pub fn gen_field_assignment(idx: usize, field: &FieldInput) -> (res: Result<
    Option<Assignment>,
    Error,
>)
    ensures
        exists|answers: Seq<Seq<bool>>|
            written(res) == #[trigger] assignment_of(idx as nat, *field, answers),
        !attrs_name_path(field.attrs@, "strategy"@) ==> written(res) == assignment_of(
            idx as nat,
            *field,
            Seq::empty(),
        ),
{
    let asked = Field::parse(&field.attrs);
    let ghost answers = choose|answers: Seq<Seq<bool>>|
        viewed(asked) == #[trigger] FieldView::given(field.attrs@, answers);
    let res = match asked {
        Ok(asked) => Ok(assignment_for(idx, field, asked)),
        Err(kind) => Err(Error { kind, field: Some(idx) }),
    };
    assert(written(res) == assignment_of(idx as nat, *field, answers));
    res
}

/// Writes the statements for the fields of a struct, in the order of the
/// fields. The first field whose attributes are at fault ends the writing.
///
/// The result is what the fields give under the answers of the parser of
/// path expressions. Where no field gives `strategy` a value, the parser is
/// not asked.
pub fn struct_fields(fields: &Vec<FieldInput>) -> (res: Result<Vec<Assignment>, Error>)
    ensures
        exists|answers: Seq<Seq<Seq<bool>>>|
            written_all(res) == #[trigger] assignments_given(fields@, answers),
        !fields_name_path(fields@) ==> written_all(res) == assignments_given(
            fields@,
            Seq::empty(),
        ),
{
    let mut assignments: Vec<Assignment> = Vec::new();
    let ghost mut answers: Seq<Seq<Seq<bool>>> = Seq::empty();
    let mut i: usize = 0;
    assert(statements(assignments@) =~= Seq::empty());
    while i < fields.len()
        invariant
            i <= fields.len(),
            answers.len() == i,
            assignments_given(fields@.take(i as int), answers) == Ok::<
                Seq<AssignmentView>,
                Error,
            >(statements(assignments@)),
        decreases fields.len() - i,
    {
        let ghost before = assignments@;
        let ghost earlier = answers;
        let step = gen_field_assignment(i, &fields[i]);
        proof {
            let row = choose|row: Seq<Seq<bool>>|
                written(step) == #[trigger] assignment_of(i as nat, fields@[i as int], row);
            answers = answers.push(row);
            assert(fields@.take(i + 1).drop_last() == fields@.take(i as int));
            lemma_fields_read_their_own_answers(fields@.take(i as int), earlier, answers);
        }
        match step {
            Ok(Some(assignment)) => {
                assignments.push(assignment);
                assert(statements(assignments@) == statements(before).push(assignment@));
            },
            Ok(None) => {},
            Err(error) => {
                proof {
                    lemma_fields_fail_for_good(fields@, answers, i + 1);
                    assert(Err::<Seq<AssignmentView>, Error>(error) == assignments_given(
                        fields@,
                        answers,
                    ));
                    if !fields_name_path(fields@) {
                        lemma_fields_without_paths(fields@, answers, Seq::empty());
                    }
                }
                return Err(error);
            },
        }
        i += 1;
    }
    proof {
        assert(fields@.take(i as int) == fields@);
        assert(Ok::<Seq<AssignmentView>, Error>(statements(assignments@)) == assignments_given(
            fields@,
            answers,
        ));
        if !fields_name_path(fields@) {
            lemma_fields_without_paths(fields@, answers, Seq::empty());
        }
    }
    Ok(assignments)
}

/// Derives `Merge` for a struct with the given fields.
///
/// The attributes of the struct are read first, then the fields in the order
/// of declaration; the first fault ends the derivation. A struct without
/// fields gets a `merge` that does nothing.
///
/// The result is what the struct gives under the answers of the parser of
/// path expressions. Where neither `crate` nor `strategy` is given a value,
/// the parser is not asked, and the result is fixed by the struct alone.
pub fn expand_struct(input: &DeriveInput, fields: &Vec<FieldInput>) -> (res: Result<
    Expansion,
    Error,
>)
    ensures
        exists|answers: Answers| viewed(res) == #[trigger] expansion_given(*input, fields@, answers),
        !names_path(*input, fields@) ==> viewed(res) == expansion_given(
            *input,
            fields@,
            Answers::none(),
        ),
{
    let read = Container::parse(&input.attrs);
    let ghost for_container = choose|answers: Seq<Seq<bool>>|
        viewed(read) == #[trigger] ContainerView::given(input.attrs@, answers);
    let container = match read {
        Ok(container) => container,
        Err(kind) => {
            let res = Err(Error { kind, field: None });
            assert(viewed(res) == expansion_given(
                *input,
                fields@,
                Answers { container: for_container, fields: Seq::empty() },
            ));
            return res;
        },
    };
    let body = struct_fields(fields);
    let ghost for_fields = choose|answers: Seq<Seq<Seq<bool>>>|
        written_all(body) == #[trigger] assignments_given(fields@, answers);
    let res = match body {
        Ok(assignments) => Ok(
            Expansion {
                krate: container.krate,
                ident: input.ident.clone(),
                impl_generics: input.impl_generics.clone(),
                ty_generics: input.ty_generics.clone(),
                where_clause: input.where_clause.clone(),
                unit: fields.len() == 0,
                assignments,
            },
        ),
        Err(error) => Err(error),
    };
    assert(viewed(res) == expansion_given(
        *input,
        fields@,
        Answers { container: for_container, fields: for_fields },
    ));
    res
}

/// Derives `Merge` for an item: a struct gets its `impl` block, an enum or a
/// union is turned down.
///
/// For a struct the result is what [`expand_struct`] gives: fixed by the
/// struct alone where neither `crate` nor `strategy` is given a value, and
/// by the struct and the answers of the parser of path expressions
/// otherwise.
pub fn merge(input: &DeriveInput) -> (res: Result<Expansion, Error>)
    ensures
        exists|answers: Answers| viewed(res) == #[trigger] derived_given(*input, answers),
        input.data matches Data::Struct(fields) && !names_path(*input, fields@) ==> viewed(res)
            == derived_given(*input, Answers::none()),
        input.data is Enum ==> res == Err::<Expansion, Error>(
            Error { kind: ErrorKind::Enumeration, field: None },
        ),
        input.data is Union ==> res == Err::<Expansion, Error>(
            Error { kind: ErrorKind::Union, field: None },
        ),
{
    match &input.data {
        Data::Struct(fields) => {
            let res = expand_struct(input, fields);
            proof {
                let answers = choose|answers: Answers|
                    viewed(res) == #[trigger] expansion_given(*input, fields@, answers);
                assert(viewed(res) == derived_given(*input, answers));
            }
            res
        },
        Data::Enum => {
            let res = Err(Error { kind: ErrorKind::Enumeration, field: None });
            assert(viewed(res) == derived_given(*input, Answers::none()));
            res
        },
        Data::Union => {
            let res = Err(Error { kind: ErrorKind::Union, field: None });
            assert(viewed(res) == derived_given(*input, Answers::none()));
            res
        },
    }
}

/// A field reads the answers at its own place: answers that agree on the
/// places of the fields give the same.
pub proof fn lemma_fields_read_their_own_answers(
    fields: Seq<FieldInput>,
    one: Seq<Seq<Seq<bool>>>,
    other: Seq<Seq<Seq<bool>>>,
)
    requires
        forall|at: int| 0 <= at < fields.len() ==> answers_at(one, at) == answers_at(other, at),
    ensures
        assignments_given(fields, one) == assignments_given(fields, other),
    decreases fields.len(),
{
    if fields.len() > 0 {
        lemma_fields_read_their_own_answers(fields.drop_last(), one, other);
    }
}

/// Once the fields up to some place are at fault, so are all of them, and
/// for the same reason.
pub proof fn lemma_fields_fail_for_good(
    fields: Seq<FieldInput>,
    answers: Seq<Seq<Seq<bool>>>,
    upto: int,
)
    requires
        0 <= upto <= fields.len(),
        assignments_given(fields.take(upto), answers) is Err,
    ensures
        assignments_given(fields, answers) == assignments_given(fields.take(upto), answers),
    decreases fields.len(),
{
    if upto == fields.len() {
        assert(fields.take(upto) == fields);
    } else {
        assert(fields.drop_last().take(upto) == fields.take(upto));
        lemma_fields_fail_for_good(fields.drop_last(), answers, upto);
    }
}

/// Fields of which none gives `strategy` a value that has to be a path are
/// written the same whatever the answers are: no call of the parser decides.
pub proof fn lemma_fields_without_paths(
    fields: Seq<FieldInput>,
    one: Seq<Seq<Seq<bool>>>,
    other: Seq<Seq<Seq<bool>>>,
)
    requires
        !fields_name_path(fields),
    ensures
        assignments_given(fields, one) == assignments_given(fields, other),
    decreases fields.len(),
{
    if fields.len() > 0 {
        let last = fields.len() - 1;
        assert forall|at: int| 0 <= at < fields.drop_last().len() implies !#[trigger] attrs_name_path(
            fields.drop_last()[at].attrs@,
            "strategy"@,
        ) by {
            assert(fields.drop_last()[at] == fields[at]);
        }
        lemma_fields_without_paths(fields.drop_last(), one, other);
        assert(!attrs_name_path(fields[last].attrs@, "strategy"@));
        crate::derive::field::lemma_attrs_without_paths(
            FieldView::plain(),
            fields.last().attrs@,
            answers_at(one, last),
            answers_at(other, last),
        );
    }
}

/// A struct that gives neither `crate` nor `strategy` a value is derived the
/// same whatever the answers are: no call of the parser decides.
pub proof fn lemma_without_paths(
    input: DeriveInput,
    fields: Seq<FieldInput>,
    one: Answers,
    other: Answers,
)
    requires
        !names_path(input, fields),
    ensures
        expansion_given(input, fields, one) == expansion_given(input, fields, other),
{
    crate::derive::container::lemma_attrs_without_paths(
        ContainerView::canonical(),
        input.attrs@,
        one.container,
        other.container,
    );
    lemma_fields_without_paths(fields, one.fields, other.fields);
}

} // verus!
