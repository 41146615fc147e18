//! One predicate of a filter and how it is written in a query.

use vstd::prelude::*;
use crate::text::join;

verus! {

/// Filter operator for guided filter building
#[derive(Debug, Clone, Copy, PartialEq, Eq, Structural)]
pub enum FilterOp {
    Equals,
    NotEquals,
    Contains,
    StartsWith,
    EndsWith,
    GreaterThan,
    LessThan,
    IsNull,
    IsNotNull,
}

impl Default for FilterOp {
    fn default() -> (r: FilterOp)
        ensures
            r == FilterOp::Equals,
    {
        FilterOp::Equals
    }
}

impl FilterOp {
    /// How many operators there are.
    pub open spec fn count() -> int {
        9
    }

    /// The place of the operator in the cycle, from 0.
    pub open spec fn position(self) -> int {
        match self {
            FilterOp::Equals => 0,
            FilterOp::NotEquals => 1,
            FilterOp::Contains => 2,
            FilterOp::StartsWith => 3,
            FilterOp::EndsWith => 4,
            FilterOp::GreaterThan => 5,
            FilterOp::LessThan => 6,
            FilterOp::IsNull => 7,
            FilterOp::IsNotNull => 8,
        }
    }

    /// The operator at place `i` of the cycle.
    pub open spec fn at(i: int) -> FilterOp {
        if i == 0 {
            FilterOp::Equals
        } else if i == 1 {
            FilterOp::NotEquals
        } else if i == 2 {
            FilterOp::Contains
        } else if i == 3 {
            FilterOp::StartsWith
        } else if i == 4 {
            FilterOp::EndsWith
        } else if i == 5 {
            FilterOp::GreaterThan
        } else if i == 6 {
            FilterOp::LessThan
        } else if i == 7 {
            FilterOp::IsNull
        } else {
            FilterOp::IsNotNull
        }
    }

    /// The operator one place on in the cycle; after the last comes the first.
    pub open spec fn successor(self) -> FilterOp {
        FilterOp::at((self.position() + 1) % FilterOp::count())
    }

    /// The operator one place back in the cycle; before the first comes the
    /// last.
    pub open spec fn predecessor(self) -> FilterOp {
        FilterOp::at((self.position() + FilterOp::count() - 1) % FilterOp::count())
    }

    /// Whether the operator compares with a value.
    pub open spec fn takes_value(self) -> bool {
        !(self is IsNull || self is IsNotNull)
    }

    /// The predicate that the operator makes of an attribute and a value. The
    /// value is written as it is given: a quote in it is not escaped.
    pub open spec fn fragment(self, attr: Seq<char>, value: Seq<char>) -> Seq<char> {
        match self {
            FilterOp::Equals => attr + " eq '"@ + value + "'"@,
            FilterOp::NotEquals => attr + " ne '"@ + value + "'"@,
            FilterOp::Contains => "contains("@ + attr + ", '"@ + value + "')"@,
            FilterOp::StartsWith => "startswith("@ + attr + ", '"@ + value + "')"@,
            FilterOp::EndsWith => "endswith("@ + attr + ", '"@ + value + "')"@,
            FilterOp::GreaterThan => attr + " gt "@ + value,
            FilterOp::LessThan => attr + " lt "@ + value,
            FilterOp::IsNull => attr + " eq null"@,
            FilterOp::IsNotNull => attr + " ne null"@,
        }
    }

    /// The name of the operator as a user reads it.
    pub open spec fn label_text(self) -> Seq<char> {
        match self {
            FilterOp::Equals => "equals"@,
            FilterOp::NotEquals => "not equals"@,
            FilterOp::Contains => "contains"@,
            FilterOp::StartsWith => "starts with"@,
            FilterOp::EndsWith => "ends with"@,
            FilterOp::GreaterThan => ">"@,
            FilterOp::LessThan => "<"@,
            FilterOp::IsNull => "is null"@,
            FilterOp::IsNotNull => "is not null"@,
        }
    }

    pub fn to_odata(&self, attr: &str, value: &str) -> (out: String)
        ensures
            out@ == self.fragment(attr@, value@),
    {
        let out = match self {
            FilterOp::Equals => infix(attr, " eq '", value, "'"),
            FilterOp::NotEquals => infix(attr, " ne '", value, "'"),
            FilterOp::Contains => call("contains(", attr, value),
            FilterOp::StartsWith => call("startswith(", attr, value),
            FilterOp::EndsWith => call("endswith(", attr, value),
            FilterOp::GreaterThan => infix(attr, " gt ", value, ""),
            FilterOp::LessThan => infix(attr, " lt ", value, ""),
            FilterOp::IsNull => infix(attr, " eq null", "", ""),
            FilterOp::IsNotNull => infix(attr, " ne null", "", ""),
        };
        proof {
            reveal_strlit("");
            assert(out@ =~= self.fragment(attr@, value@));
        }
        out
    }

    pub fn label(&self) -> (s: &'static str)
        ensures
            s@ == self.label_text(),
    {
        match self {
            FilterOp::Equals => "equals",
            FilterOp::NotEquals => "not equals",
            FilterOp::Contains => "contains",
            FilterOp::StartsWith => "starts with",
            FilterOp::EndsWith => "ends with",
            FilterOp::GreaterThan => ">",
            FilterOp::LessThan => "<",
            FilterOp::IsNull => "is null",
            FilterOp::IsNotNull => "is not null",
        }
    }

    pub fn next(&self) -> (r: FilterOp)
        ensures
            r == self.successor(),
    {
        match self {
            FilterOp::Equals => FilterOp::NotEquals,
            FilterOp::NotEquals => FilterOp::Contains,
            FilterOp::Contains => FilterOp::StartsWith,
            FilterOp::StartsWith => FilterOp::EndsWith,
            FilterOp::EndsWith => FilterOp::GreaterThan,
            FilterOp::GreaterThan => FilterOp::LessThan,
            FilterOp::LessThan => FilterOp::IsNull,
            FilterOp::IsNull => FilterOp::IsNotNull,
            FilterOp::IsNotNull => FilterOp::Equals,
        }
    }

    pub fn prev(&self) -> (r: FilterOp)
        ensures
            r == self.predecessor(),
    {
        match self {
            FilterOp::Equals => FilterOp::IsNotNull,
            FilterOp::NotEquals => FilterOp::Equals,
            FilterOp::Contains => FilterOp::NotEquals,
            FilterOp::StartsWith => FilterOp::Contains,
            FilterOp::EndsWith => FilterOp::StartsWith,
            FilterOp::GreaterThan => FilterOp::EndsWith,
            FilterOp::LessThan => FilterOp::GreaterThan,
            FilterOp::IsNull => FilterOp::LessThan,
            FilterOp::IsNotNull => FilterOp::IsNull,
        }
    }

    pub fn needs_value(&self) -> (r: bool)
        ensures
            r == self.takes_value(),
            !r <==> (*self == FilterOp::IsNull || *self == FilterOp::IsNotNull),
    {
        !matches!(self, FilterOp::IsNull | FilterOp::IsNotNull)
    }
}

/// Going one place on and then one place back, or one place back and then one
/// place on, gives the operator one started from.
pub proof fn next_prev_inverse(op: FilterOp)
    ensures
        op.successor().predecessor() == op,
        op.predecessor().successor() == op,
{
}

/// Every operator has its place in the cycle, and no two share one.
pub proof fn position_identifies(op: FilterOp)
    ensures
        0 <= op.position() < FilterOp::count(),
        FilterOp::at(op.position()) == op,
{
}

/// `first`, `second`, `third` and `fourth`, one after the other.
fn infix(first: &str, second: &str, third: &str, fourth: &str) -> (out: String)
    ensures
        out@ == first@ + second@ + third@ + fourth@,
{
    let mut out = String::from_str(first);
    out.append(second);
    out.append(third);
    out.append(fourth);
    out
}

/// A call of the function whose name and opening bracket are `open`, with an
/// attribute and a quoted value.
fn call(open: &str, attr: &str, value: &str) -> (out: String)
    ensures
        out@ == open@ + attr@ + ", '"@ + value@ + "')"@,
{
    let mut out = String::from_str(open);
    out.append(attr);
    out.append(", '");
    out.append(value);
    out.append("')");
    out
}

/// A single filter condition
#[derive(Debug)]
pub struct FilterCondition {
    pub attribute_name: String,
    pub operator: FilterOp,
    pub value: String,
}

impl Clone for FilterCondition {
    fn clone(&self) -> (r: FilterCondition)
        ensures
            r == *self,
    {
        FilterCondition {
            attribute_name: self.attribute_name.clone(),
            operator: self.operator,
            value: self.value.clone(),
        }
    }
}

impl FilterCondition {
    /// The predicate that the condition stands for.
    pub open spec fn fragment(&self) -> Seq<char> {
        self.operator.fragment(self.attribute_name@, self.value@)
    }

    /// The predicate that the condition stands for.
    pub fn to_odata(&self) -> (out: String)
        ensures
            out@ == self.fragment(),
    {
        self.operator.to_odata(self.attribute_name.as_str(), self.value.as_str())
    }
}

/// The predicates of `filters`, in order.
pub open spec fn fragments(filters: Seq<FilterCondition>) -> Seq<Seq<char>> {
    Seq::new(filters.len(), |i: int| filters[i].fragment())
}

/// The filter that holds where every condition of `filters` holds: their
/// predicates joined by ` and `.
pub fn filter_expression(filters: &Vec<FilterCondition>) -> (out: String)
    ensures
        out@ == join(fragments(filters@), " and "@),
{
    let mut out = String::new();
    let mut i: usize = 0;
    while i < filters.len()
        invariant
            i <= filters.len(),
            out@ == join(fragments(filters@).take(i as int), " and "@),
        decreases filters.len() - i,
    {
        proof {
            let all = fragments(filters@);
            assert(all.take(i as int + 1).drop_last() == all.take(i as int));
            assert(all.take(i as int + 1).last() == filters@[i as int].fragment());
        }
        if i > 0 {
            out.append(" and ");
        }
        out.append(filters[i].to_odata().as_str());
        i += 1;
    }
    proof {
        assert(fragments(filters@).take(i as int) == fragments(filters@));
    }
    out
}

} // verus!
