//! From an [`Expansion`] to the source of its `impl` block.

use crate::derive::expand::{statements, Assignment, AssignmentView, Expansion, ExpansionView};
use crate::derive::input::{Member, MemberView};
use vstd::prelude::*;
use vstd::string::StringExecFns;

verus! {

/// One decimal digit as text.
pub open spec fn digit(d: nat) -> Seq<char> {
    if d == 0 {
        "0"@
    } else if d == 1 {
        "1"@
    } else if d == 2 {
        "2"@
    } else if d == 3 {
        "3"@
    } else if d == 4 {
        "4"@
    } else if d == 5 {
        "5"@
    } else if d == 6 {
        "6"@
    } else if d == 7 {
        "7"@
    } else if d == 8 {
        "8"@
    } else {
        "9"@
    }
}

/// A number in decimal notation, without leading zeros.
pub open spec fn decimal(n: nat) -> Seq<char>
    decreases n,
{
    if n < 10 {
        digit(n)
    } else {
        decimal(n / 10) + digit(n % 10)
    }
}

impl MemberView {
    /// What stands behind `self.` to reach the field.
    pub open spec fn source(self) -> Seq<char> {
        match self {
            MemberView::Named(name) => name,
            MemberView::Unnamed(idx) => decimal(idx),
        }
    }
}

impl AssignmentView {
    /// The function that the statement calls, for a library found under
    /// `krate`.
    pub open spec fn callee(self, krate: Seq<char>) -> Seq<char> {
        match self.strategy {
            Some(path) => path,
            None => krate + "::merge::Merge::merge"@,
        }
    }

    /// The statement as one line of the body: the call, with the field of
    /// `self` and the field of `other` as its arguments.
    pub open spec fn source(self, krate: Seq<char>) -> Seq<char> {
        "        "@ + self.callee(krate) + "(&mut self."@ + self.member.source() + ", other."@
            + self.member.source() + ");\n"@
    }
}

/// The lines of a body, one per statement, in their order.
pub open spec fn body_source(assignments: Seq<AssignmentView>, krate: Seq<char>) -> Seq<char>
    decreases assignments.len(),
{
    if assignments.len() == 0 {
        Seq::empty()
    } else {
        body_source(assignments.drop_last(), krate) + assignments.last().source(krate)
    }
}

impl ExpansionView {
    /// The body of `merge`: one line per statement, or, for a struct without
    /// fields, the one line that drops `other`.
    pub open spec fn body(self) -> Seq<char> {
        if self.unit {
            "        let _ = other;\n"@
        } else {
            body_source(self.assignments, self.krate)
        }
    }

    /// The `impl` block as source text.
    pub open spec fn source(self) -> Seq<char> {
        "#[automatically_derived]\nimpl"@ + self.impl_generics + " "@ + self.krate
            + "::merge::Merge for "@ + self.ident + self.ty_generics + " "@ + self.where_clause
            + " {\n    fn merge(&mut self, other: Self) {\n"@ + self.body() + "    }\n}\n"@
    }
}

/// One decimal digit as text.
fn digit_text(d: usize) -> (text: &'static str)
    requires
        d < 10,
    ensures
        text@ == digit(d as nat),
{
    if d == 0 {
        "0"
    } else if d == 1 {
        "1"
    } else if d == 2 {
        "2"
    } else if d == 3 {
        "3"
    } else if d == 4 {
        "4"
    } else if d == 5 {
        "5"
    } else if d == 6 {
        "6"
    } else if d == 7 {
        "7"
    } else if d == 8 {
        "8"
    } else {
        "9"
    }
}

/// Writes a number in decimal notation.
pub fn decimal_text(n: usize) -> (text: String)
    ensures
        text@ == decimal(n as nat),
    decreases n,
{
    if n < 10 {
        String::from_str(digit_text(n))
    } else {
        let mut text = decimal_text(n / 10);
        text.append(digit_text(n % 10));
        text
    }
}

impl Member {
    /// Writes what stands behind `self.` to reach the field.
    pub fn render(&self) -> (text: String)
        ensures
            text@ == self@.source(),
    {
        match self {
            Member::Named(name) => name.clone(),
            Member::Unnamed(idx) => decimal_text(*idx),
        }
    }
}

impl Assignment {
    /// Writes the statement as one line of the body, for a library found
    /// under `krate`.
    pub fn render(&self, krate: &str) -> (text: String)
        ensures
            text@ == self@.source(krate@),
    {
        let target = self.member.render();
        let callee = match &self.strategy {
            Some(path) => path.0.clone(),
            None => {
                let mut callee = String::from_str(krate);
                callee.append("::merge::Merge::merge");
                callee
            },
        };
        let mut text = String::from_str("        ");
        text.append(callee.as_str());
        text.append("(&mut self.");
        text.append(target.as_str());
        text.append(", other.");
        text.append(target.as_str());
        text.append(");\n");
        text
    }
}

impl Expansion {
    /// Writes the body of `merge`.
    fn render_body(&self) -> (text: String)
        ensures
            text@ == self@.body(),
    {
        if self.unit {
            return String::from_str("        let _ = other;\n");
        }
        let mut text = String::new();
        let mut i: usize = 0;
        while i < self.assignments.len()
            invariant
                i <= self.assignments.len(),
                text@ == body_source(statements(self.assignments@.take(i as int)), self.krate@),
            decreases self.assignments.len() - i,
        {
            let line = self.assignments[i].render(self.krate.0.as_str());
            assert(statements(self.assignments@.take(i + 1)).drop_last() == statements(
                self.assignments@.take(i as int),
            ));
            text.append(line.as_str());
            i += 1;
        }
        assert(self.assignments@.take(i as int) == self.assignments@);
        text
    }

    /// Writes the `impl` block as source text.
    pub fn render(&self) -> (text: String)
        ensures
            text@ == self@.source(),
    {
        let body = self.render_body();
        let mut text = String::from_str("#[automatically_derived]\nimpl");
        text.append(self.impl_generics.as_str());
        text.append(" ");
        text.append(self.krate.0.as_str());
        text.append("::merge::Merge for ");
        text.append(self.ident.as_str());
        text.append(self.ty_generics.as_str());
        text.append(" ");
        text.append(self.where_clause.as_str());
        text.append(" {\n    fn merge(&mut self, other: Self) {\n");
        text.append(body.as_str());
        text.append("    }\n}\n");
        text
    }
}

} // verus!
