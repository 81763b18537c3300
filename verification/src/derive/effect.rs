//! What the written body of `merge` does to the fields of the receiver.

use crate::derive::error::ErrorKind;
use crate::derive::answers::answers_at;
use crate::derive::expand::{assignment_of, assignments_given, AssignmentView};
use crate::derive::field::FieldView;
use crate::derive::input::{FieldInput, MemberView};
use vstd::prelude::*;

verus! {

/// What the field `member` of the receiver holds after the statements of
/// `body` have run, one after the other.
///
/// `pre` is what the field held before, `other` is what the same field of
/// the other operand holds, and `call` says what a statement makes of the
/// two: `call(strategy, left, right)` is what the function that the statement
/// names (the `merge` of the field's type for `None`) leaves in `left`. A
/// statement for another field does not touch this one.
pub open spec fn field_after<V>(
    body: Seq<AssignmentView>,
    member: MemberView,
    pre: V,
    other: V,
    call: spec_fn(Option<Seq<char>>, V, V) -> V,
) -> V
    decreases body.len(),
{
    if body.len() == 0 {
        pre
    } else {
        let before = field_after(body.drop_last(), member, pre, other, call);
        if body.last().member == member {
            call(body.last().strategy, before, other)
        } else {
            before
        }
    }
}

/// No two fields are reached in the same way: no two have the same name.
pub open spec fn distinct_members(fields: Seq<FieldInput>) -> bool {
    forall|i: int, j: int|
        0 <= i < j < fields.len() ==> MemberView::of(i as nat, #[trigger] fields[i].ident)
            != MemberView::of(j as nat, #[trigger] fields[j].ident)
}

/// No field of `fields` is reached as `member` is.
pub open spec fn no_such_member(fields: Seq<FieldInput>, member: MemberView) -> bool {
    forall|i: int|
        0 <= i < fields.len() ==> MemberView::of(i as nat, #[trigger] fields[i].ident) != member
}

/// The body written for a struct leaves alone what is no field of the struct.
pub proof fn lemma_other_members_are_untouched<V>(
    fields: Seq<FieldInput>,
    answers: Seq<Seq<Seq<bool>>>,
    member: MemberView,
    pre: V,
    other: V,
    call: spec_fn(Option<Seq<char>>, V, V) -> V,
)
    requires
        assignments_given(fields, answers) is Ok,
        no_such_member(fields, member),
    ensures
        field_after(assignments_given(fields, answers)->Ok_0, member, pre, other, call) == pre,
    decreases fields.len(),
{
    if fields.len() > 0 {
        let rest = fields.drop_last();
        let last = (fields.len() - 1) as nat;
        assert(fields[last as int] == fields.last());
        assert forall|i: int| 0 <= i < rest.len() implies MemberView::of(
            i as nat,
            #[trigger] rest[i].ident,
        ) != member by {
            assert(rest[i] == fields[i]);
        }
        lemma_other_members_are_untouched(rest, answers, member, pre, other, call);
        match assignment_of(last, fields.last(), answers_at(answers, last as int)) {
            Ok(Some(assignment)) => {
                let body = assignments_given(rest, answers)->Ok_0;
                assert(body.push(assignment).drop_last() == body);
            },
            _ => {},
        }
    }
}

/// The body written for a struct merges each field once, in the way that the
/// field asks for, and leaves a skipped field as it was.
///
/// For the field at position `at`: if its attributes say `skip`, the field
/// of the receiver holds after the merge what it held before, whatever the
/// other operand holds; otherwise it holds what the one call for it leaves
/// there, the call of the named strategy or of the `merge` of its type.
pub proof fn lemma_each_field_is_merged_as_asked<V>(
    fields: Seq<FieldInput>,
    answers: Seq<Seq<Seq<bool>>>,
    at: int,
    pre: V,
    other: V,
    call: spec_fn(Option<Seq<char>>, V, V) -> V,
)
    requires
        0 <= at < fields.len(),
        distinct_members(fields),
        assignments_given(fields, answers) is Ok,
    ensures
        FieldView::given(fields[at].attrs@, answers_at(answers, at)) is Ok,
        field_after(
            assignments_given(fields, answers)->Ok_0,
            MemberView::of(at as nat, fields[at].ident),
            pre,
            other,
            call,
        ) == (if FieldView::given(fields[at].attrs@, answers_at(answers, at))->Ok_0.skipped {
            pre
        } else {
            call(FieldView::given(fields[at].attrs@, answers_at(answers, at))->Ok_0.strategy, pre, other)
        }),
    decreases fields.len(),
{
    let rest = fields.drop_last();
    let last = (fields.len() - 1) as nat;
    let member = MemberView::of(at as nat, fields[at].ident);
    let body = assignments_given(rest, answers)->Ok_0;
    assert(fields[last as int] == fields.last());
    if at == last {
        assert forall|i: int| 0 <= i < rest.len() implies MemberView::of(
            i as nat,
            #[trigger] rest[i].ident,
        ) != member by {
            assert(rest[i] == fields[i]);
        }
        lemma_other_members_are_untouched(rest, answers, member, pre, other, call);
        match assignment_of(last, fields.last(), answers_at(answers, last as int)) {
            Ok(Some(assignment)) => {
                assert(body.push(assignment).drop_last() == body);
            },
            _ => {},
        }
    } else {
        assert(rest[at] == fields[at]);
        assert forall|i: int, j: int| 0 <= i < j < rest.len() implies MemberView::of(
            i as nat,
            #[trigger] rest[i].ident,
        ) != MemberView::of(j as nat, #[trigger] rest[j].ident) by {
            assert(rest[i] == fields[i]);
            assert(rest[j] == fields[j]);
        }
        lemma_each_field_is_merged_as_asked(rest, answers, at, pre, other, call);
        match assignment_of(last, fields.last(), answers_at(answers, last as int)) {
            Ok(Some(assignment)) => {
                assert(body.push(assignment).drop_last() == body);
                assert(assignment.member != member);
            },
            _ => {},
        }
    }
}

/// A struct with one skipped field and one field that asks for nothing: the
/// skipped field keeps what it held, whatever the other operand holds, and
/// the other field holds what the `merge` of its type leaves there.
pub proof fn lemma_skip_keeps_the_field<V>(
    fields: Seq<FieldInput>,
    answers: Seq<Seq<Seq<bool>>>,
    skipped: int,
    plain: int,
    pre: V,
    other: V,
    call: spec_fn(Option<Seq<char>>, V, V) -> V,
)
    requires
        0 <= skipped < fields.len(),
        0 <= plain < fields.len(),
        distinct_members(fields),
        assignments_given(fields, answers) is Ok,
        FieldView::given(fields[skipped].attrs@, answers_at(answers, skipped)) matches Ok(asked) && asked.skipped,
        FieldView::given(fields[plain].attrs@, answers_at(answers, plain)) == Ok::<FieldView, ErrorKind>(FieldView::plain()),
    ensures
        field_after(
            assignments_given(fields, answers)->Ok_0,
            MemberView::of(skipped as nat, fields[skipped].ident),
            pre,
            other,
            call,
        ) == pre,
        field_after(
            assignments_given(fields, answers)->Ok_0,
            MemberView::of(plain as nat, fields[plain].ident),
            pre,
            other,
            call,
        ) == call(None, pre, other),
{
    lemma_each_field_is_merged_as_asked(fields, answers, skipped, pre, other, call);
    lemma_each_field_is_merged_as_asked(fields, answers, plain, pre, other, call);
}

} // verus!
