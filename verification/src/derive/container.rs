//! What the attributes of the struct itself ask for.

use crate::derive::error::ErrorKind;
use crate::derive::answers::{
    answer_at, answers_at, attr_names_path, attrs_name_path, item_names_path, items_name_path,
};
use crate::derive::input::{same_text, AttrBody, Attribute, MetaItem};
use crate::derive::path::{viewed, Path};
use vstd::prelude::*;
use vstd::string::StringExecFns;

verus! {

/// What the `merge` attributes of the struct ask for.
#[derive(Debug, Clone, PartialEq, Eq)]
pub struct Container {
    /// The path under which the written code finds this library: the trait
    /// is `krate::merge::Merge`. It is `::azalia::config` unless the struct
    /// says `#[merge(crate = path)]`.
    pub krate: Path,
}

/// A [`Container`], with its path as text.
pub ghost struct ContainerView {
    pub krate: Seq<char>,
}

impl View for Container {
    type V = ContainerView;

    open spec fn view(&self) -> ContainerView {
        ContainerView { krate: self.krate@ }
    }
}

impl ContainerView {
    /// What holds of a struct that says nothing.
    pub open spec fn canonical() -> ContainerView {
        ContainerView { krate: "::azalia::config"@ }
    }

    /// `self` after one more entry, where `path` is what reading the entry's
    /// argument as a path gives. The only key is `crate`; a later `crate`
    /// replaces an earlier one.
    pub open spec fn with_item_given(self, item: MetaItem, path: Result<Seq<char>, ErrorKind>) -> Result<
        ContainerView,
        ErrorKind,
    > {
        if item.key@ == "crate"@ {
            match path {
                Ok(p) => Ok(ContainerView { krate: p }),
                Err(kind) => Err(kind),
            }
        } else {
            Err(ErrorKind::OnlyCrate)
        }
    }

    /// `self` after one more entry, where `accepted` is the answer of the
    /// parser for the entry's value.
    pub open spec fn with_item_answered(self, item: MetaItem, accepted: bool) -> Result<
        ContainerView,
        ErrorKind,
    > {
        self.with_item_given(item, Path::read(item.arg, accepted))
    }

    /// `self` after the entries of one list, from the first to the last. The
    /// first entry that is at fault ends the reading.
    pub open spec fn with_items_given(self, items: Seq<MetaItem>, answers: Seq<bool>) -> Result<
        ContainerView,
        ErrorKind,
    >
        decreases items.len(),
    {
        if items.len() == 0 {
            Ok(self)
        } else {
            match self.with_items_given(items.drop_last(), answers) {
                Ok(container) => container.with_item_answered(
                    items.last(),
                    answer_at(answers, items.len() - 1),
                ),
                Err(kind) => Err(kind),
            }
        }
    }

    /// `self` after one more attribute. Only `merge` attributes count. One
    /// with an empty list asks for nothing; one without a list is at fault,
    /// and so is one whose list stops short, unless an entry before that
    /// place is at fault already.
    pub open spec fn with_attr_given(self, attr: Attribute, answers: Seq<bool>) -> Result<
        ContainerView,
        ErrorKind,
    > {
        if attr.name@ != "merge"@ {
            Ok(self)
        } else {
            match attr.body {
                AttrBody::List(items) => self.with_items_given(items@, answers),
                AttrBody::Broken(items) => match self.with_items_given(items@, answers) {
                    Ok(_) => Err(ErrorKind::Malformed),
                    Err(kind) => Err(kind),
                },
                _ => Err(ErrorKind::ExpectedList),
            }
        }
    }

    /// `self` after the attributes of a struct, from the first to the last.
    pub open spec fn with_attrs_given(self, attrs: Seq<Attribute>, answers: Seq<Seq<bool>>) -> Result<
        ContainerView,
        ErrorKind,
    >
        decreases attrs.len(),
    {
        if attrs.len() == 0 {
            Ok(self)
        } else {
            match self.with_attrs_given(attrs.drop_last(), answers) {
                Ok(container) => container.with_attr_given(
                    attrs.last(),
                    answers_at(answers, attrs.len() - 1),
                ),
                Err(kind) => Err(kind),
            }
        }
    }

    /// What the attributes of a struct ask for, given the answers of the
    /// parser: `answers[i][j]` for entry `j` in the list of attribute `i`.
    pub open spec fn given(attrs: Seq<Attribute>, answers: Seq<Seq<bool>>) -> Result<
        ContainerView,
        ErrorKind,
    > {
        ContainerView::canonical().with_attrs_given(attrs, answers)
    }
}

impl Default for Container {
    fn default() -> (container: Self)
        ensures
            container@ == ContainerView::canonical(),
    {
        Container { krate: Path(String::from_str("::azalia::config")) }
    }
}

impl Container {
    /// Takes one more entry into account, given what reading its argument as
    /// a path gives.
    pub fn apply(self, item: &MetaItem, path: Result<Path, ErrorKind>) -> (res: Result<
        Container,
        ErrorKind,
    >)
        ensures
            viewed(res) == self@.with_item_given(*item, viewed(path)),
    {
        if same_text(item.key.as_str(), "crate") {
            match path {
                Ok(p) => Ok(Container { krate: p }),
                Err(kind) => Err(kind),
            }
        } else {
            Err(ErrorKind::OnlyCrate)
        }
    }


    /// Takes the entries of one list into account.
    fn apply_all(self, items: &Vec<MetaItem>) -> (res: Result<Container, ErrorKind>)
        ensures
            exists|answers: Seq<bool>|
                viewed(res) == #[trigger] self@.with_items_given(items@, answers),
    {
        let mut container = self;
        let ghost mut answers: Seq<bool> = Seq::empty();
        let mut i: usize = 0;
        while i < items.len()
            invariant
                i <= items.len(),
                answers.len() == i,
                self@.with_items_given(items@.take(i as int), answers) == Ok::<
                    ContainerView,
                    ErrorKind,
                >(container@),
            decreases items.len() - i,
        {
            let item = &items[i];
            // The parser is asked only where its answer decides.
            let asked = same_text(item.key.as_str(), "crate");
            let path = if asked {
                Path::parse(&item.arg)
            } else {
                Err(ErrorKind::ExpectedValue)
            };
            let ghost accepted = if asked {
                choose|accepted: bool| viewed(path) == Path::read(item.arg, accepted)
            } else {
                false
            };
            let ghost before = answers;
            proof {
                answers = answers.push(accepted);
                assert(items@.take(i + 1).drop_last() == items@.take(i as int));
                lemma_items_read_their_own_answers(self@, items@.take(i as int), before, answers);
            }
            match container.apply(item, path) {
                Ok(next) => {
                    container = next;
                },
                Err(kind) => {
                    proof {
                        lemma_items_fail_for_good(self@, items@, answers, i + 1);
                        assert(Err::<ContainerView, ErrorKind>(kind) == self@.with_items_given(
                            items@,
                            answers,
                        ));
                    }
                    return Err(kind);
                },
            }
            i += 1;
        }
        proof {
            assert(items@.take(i as int) == items@);
            assert(Ok::<ContainerView, ErrorKind>(container@) == self@.with_items_given(items@, answers));
        }
        Ok(container)
    }

    /// Takes one more attribute into account.
    fn apply_attr(self, attr: &Attribute) -> (res: Result<Container, ErrorKind>)
        ensures
            exists|answers: Seq<bool>|
                viewed(res) == #[trigger] self@.with_attr_given(*attr, answers),
    {
        let ghost start = self@;
        if !same_text(attr.name.as_str(), "merge") {
            assert(Ok::<ContainerView, ErrorKind>(start) == start.with_attr_given(*attr, Seq::empty()));
            return Ok(self);
        }
        match &attr.body {
            AttrBody::List(items) => {
                let res = self.apply_all(items);
                proof {
                    let answers = choose|answers: Seq<bool>|
                        viewed(res) == #[trigger] start.with_items_given(items@, answers);
                    assert(viewed(res) == start.with_attr_given(*attr, answers));
                }
                res
            },
            AttrBody::Broken(items) => {
                let read = self.apply_all(items);
                let res = match read {
                    Ok(_) => Err(ErrorKind::Malformed),
                    Err(kind) => Err(kind),
                };
                proof {
                    let answers = choose|answers: Seq<bool>|
                        viewed(read) == #[trigger] start.with_items_given(items@, answers);
                    assert(viewed(res) == start.with_attr_given(*attr, answers));
                }
                res
            },
            _ => {
                assert(Err::<ContainerView, ErrorKind>(ErrorKind::ExpectedList) == start.with_attr_given(
                    *attr,
                    Seq::empty(),
                ));
                Err(ErrorKind::ExpectedList)
            },
        }
    }

    /// Reads what the attributes of a struct ask for.
    ///
    /// Where a value has to be a path, the parser of path expressions says
    /// whether it is one; the result is what the attributes ask for given its
    /// answers. Where no `merge` attribute gives `crate` a value, the parser
    /// is not asked, and the result is fixed by the attributes alone.
    pub fn parse(attrs: &Vec<Attribute>) -> (res: Result<Container, ErrorKind>)
        ensures
            exists|answers: Seq<Seq<bool>>|
                viewed(res) == #[trigger] ContainerView::given(attrs@, answers),
            !attrs_name_path(attrs@, "crate"@) ==> viewed(res) == ContainerView::given(
                attrs@,
                Seq::empty(),
            ),
    {
        let mut container = Container::default();
        let ghost mut answers: Seq<Seq<bool>> = Seq::empty();
        let mut i: usize = 0;
        while i < attrs.len()
            invariant
                i <= attrs.len(),
                answers.len() == i,
                ContainerView::given(attrs@.take(i as int), answers) == Ok::<ContainerView, ErrorKind>(
                    container@,
                ),
            decreases attrs.len() - i,
        {
            let ghost current = container@;
            let step = container.apply_attr(&attrs[i]);
            let ghost before = answers;
            proof {
                let row = choose|row: Seq<bool>|
                    viewed(step) == #[trigger] current.with_attr_given(attrs@[i as int], row);
                answers = answers.push(row);
                assert(attrs@.take(i + 1).drop_last() == attrs@.take(i as int));
                lemma_attrs_read_their_own_answers(
                    ContainerView::canonical(),
                    attrs@.take(i as int),
                    before,
                    answers,
                );
            }
            match step {
                Ok(next) => {
                    container = next;
                },
                Err(kind) => {
                    proof {
                        lemma_attrs_fail_for_good(ContainerView::canonical(), attrs@, answers, i + 1);
                        assert(Err::<ContainerView, ErrorKind>(kind) == ContainerView::given(attrs@, answers));
                        if !attrs_name_path(attrs@, "crate"@) {
                            lemma_attrs_without_paths(
                                ContainerView::canonical(),
                                attrs@,
                                answers,
                                Seq::empty(),
                            );
                        }
                    }
                    return Err(kind);
                },
            }
            i += 1;
        }
        proof {
            assert(attrs@.take(i as int) == attrs@);
            assert(Ok::<ContainerView, ErrorKind>(container@) == ContainerView::given(attrs@, answers));
            if !attrs_name_path(attrs@, "crate"@) {
                lemma_attrs_without_paths(ContainerView::canonical(), attrs@, answers, Seq::empty());
            }
        }
        Ok(container)
    }
}

/// An entry reads the answer at its own place: answers that agree on the
/// places of the entries give the same.
pub proof fn lemma_items_read_their_own_answers(
    start: ContainerView,
    items: Seq<MetaItem>,
    one: Seq<bool>,
    other: Seq<bool>,
)
    requires
        forall|at: int| 0 <= at < items.len() ==> answer_at(one, at) == answer_at(other, at),
    ensures
        start.with_items_given(items, one) == start.with_items_given(items, other),
    decreases items.len(),
{
    if items.len() > 0 {
        lemma_items_read_their_own_answers(start, items.drop_last(), one, other);
    }
}

/// An attribute reads the answers at its own place: answers that agree on
/// the places of the attributes give the same.
pub proof fn lemma_attrs_read_their_own_answers(
    start: ContainerView,
    attrs: Seq<Attribute>,
    one: Seq<Seq<bool>>,
    other: Seq<Seq<bool>>,
)
    requires
        forall|at: int| 0 <= at < attrs.len() ==> answers_at(one, at) == answers_at(other, at),
    ensures
        start.with_attrs_given(attrs, one) == start.with_attrs_given(attrs, other),
    decreases attrs.len(),
{
    if attrs.len() > 0 {
        lemma_attrs_read_their_own_answers(start, attrs.drop_last(), one, other);
    }
}

/// Once the entries up to some place are at fault, so are all of them, and
/// for the same reason.
pub proof fn lemma_items_fail_for_good(
    start: ContainerView,
    items: Seq<MetaItem>,
    answers: Seq<bool>,
    upto: int,
)
    requires
        0 <= upto <= items.len(),
        start.with_items_given(items.take(upto), answers) is Err,
    ensures
        start.with_items_given(items, answers) == start.with_items_given(
            items.take(upto),
            answers,
        ),
    decreases items.len(),
{
    if upto == items.len() {
        assert(items.take(upto) == items);
    } else {
        assert(items.drop_last().take(upto) == items.take(upto));
        lemma_items_fail_for_good(start, items.drop_last(), answers, upto);
    }
}

/// Once the attributes up to some place are at fault, so are all of them, and
/// for the same reason.
pub proof fn lemma_attrs_fail_for_good(
    start: ContainerView,
    attrs: Seq<Attribute>,
    answers: Seq<Seq<bool>>,
    upto: int,
)
    requires
        0 <= upto <= attrs.len(),
        start.with_attrs_given(attrs.take(upto), answers) is Err,
    ensures
        start.with_attrs_given(attrs, answers) == start.with_attrs_given(
            attrs.take(upto),
            answers,
        ),
    decreases attrs.len(),
{
    if upto == attrs.len() {
        assert(attrs.take(upto) == attrs);
    } else {
        assert(attrs.drop_last().take(upto) == attrs.take(upto));
        lemma_attrs_fail_for_good(start, attrs.drop_last(), answers, upto);
    }
}

/// A list in which no entry gives `crate` a value that has to be a path
/// reads the same whatever the answers are.
pub proof fn lemma_items_without_paths(
    start: ContainerView,
    items: Seq<MetaItem>,
    one: Seq<bool>,
    other: Seq<bool>,
)
    requires
        !items_name_path(items, "crate"@),
    ensures
        start.with_items_given(items, one) == start.with_items_given(items, other),
    decreases items.len(),
{
    if items.len() > 0 {
        assert forall|at: int| 0 <= at < items.drop_last().len() implies !#[trigger] item_names_path(
            items.drop_last()[at],
            "crate"@,
        ) by {
            assert(items.drop_last()[at] == items[at]);
        }
        lemma_items_without_paths(start, items.drop_last(), one, other);
        assert(!item_names_path(items[items.len() - 1], "crate"@));
    }
}

/// Attributes of which none gives `crate` a value that has to be a path
/// read the same whatever the answers are: no call of the parser decides.
pub proof fn lemma_attrs_without_paths(
    start: ContainerView,
    attrs: Seq<Attribute>,
    one: Seq<Seq<bool>>,
    other: Seq<Seq<bool>>,
)
    requires
        !attrs_name_path(attrs, "crate"@),
    ensures
        start.with_attrs_given(attrs, one) == start.with_attrs_given(attrs, other),
    decreases attrs.len(),
{
    if attrs.len() > 0 {
        let last = attrs.len() - 1;
        assert forall|at: int| 0 <= at < attrs.drop_last().len() implies !#[trigger] attr_names_path(
            attrs.drop_last()[at],
            "crate"@,
        ) by {
            assert(attrs.drop_last()[at] == attrs[at]);
        }
        lemma_attrs_without_paths(start, attrs.drop_last(), one, other);
        assert(!attr_names_path(attrs[last], "crate"@));
        if attrs[last].name@ == "merge"@ {
            match attrs[last].body {
                AttrBody::List(items) => {
                    match start.with_attrs_given(attrs.drop_last(), one) {
                        Ok(container) => lemma_items_without_paths(
                            container,
                            items@,
                            answers_at(one, last),
                            answers_at(other, last),
                        ),
                        Err(_) => {},
                    }
                },
                AttrBody::Broken(items) => {
                    match start.with_attrs_given(attrs.drop_last(), one) {
                        Ok(container) => lemma_items_without_paths(
                            container,
                            items@,
                            answers_at(one, last),
                            answers_at(other, last),
                        ),
                        Err(_) => {},
                    }
                },
                _ => {},
            }
        }
    }
}

} // verus!
