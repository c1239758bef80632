//! The demand that a session publishes: its properties and the constraint
//! expression that offers must satisfy.

use vstd::prelude::*;
use ya_agreement_utils::{ClauseOperator, ConstraintExpr, ConstraintKey, Constraints};

verus! {

/// The node name under which demands are published.
pub const NODE_NAME: &'static str = "interactive-example";

/// The image of the unit that reports its progress.
pub const PROGRESS_REPORTER_PACKAGE: &'static str = "hash:sha3:a480224e9ef0f2ea206443067fe1cacaca46b4c0121e320a8e500c55:http://yacn.dev.golem.network:8000/progress-reporter-0.2.0";

/// The image of the unit that answers requests for results.
pub const PROPHECY_PACKAGE: &'static str = "hash:sha3:8f09d137a837c376cd7c2b9c47e5390b1774c8895ac83bb5f9144d88:http://yacn.dev.golem.network:8000/progress-reporter-0.2.12";

/// The runtime name of the virtual machine images that both units ship as.
pub const VM_RUNTIME: &'static str = "vm";

pub const KEY_NODE_NAME: &'static str = "golem.node.id.name";

pub const KEY_SUBNET: &'static str = "golem.node.debug.subnet";

pub const KEY_PACKAGE: &'static str = "golem.srv.comp.task_package";

pub const KEY_EXPIRATION: &'static str = "golem.srv.comp.expiration";

pub const KEY_RUNTIME: &'static str = "golem.runtime.name";

/// The value of one demand property.
pub enum PropertyValue {
    Text(String),
    Integer(i64),
}

/// The value of a property, as the contracts see it.
pub ghost enum PropertyView {
    Text(Seq<char>),
    Integer(i64),
}

impl View for PropertyValue {
    type V = PropertyView;

    open spec fn view(&self) -> PropertyView {
        match self {
            PropertyValue::Text(s) => PropertyView::Text(s@),
            PropertyValue::Integer(i) => PropertyView::Integer(*i),
        }
    }
}

/// A demand: named properties in order, and the constraint expression.
pub struct Demand {
    pub properties: Vec<(String, PropertyValue)>,
    pub constraints: String,
}

/// The properties of a demand, as the contracts see them.
pub open spec fn properties_view(p: Seq<(String, PropertyValue)>) -> Seq<(Seq<char>, PropertyView)> {
    p.map_values(|e: (String, PropertyValue)| (e.0@, e.1@))
}

/// Key and value pairs, as the contracts see them.
pub open spec fn pairs_view(p: Seq<(String, String)>) -> Seq<(Seq<char>, Seq<char>)> {
    p.map_values(|e: (String, String)| (e.0@, e.1@))
}

/// The text that ya-agreement-utils gives to the conjunction of equalities
/// `pairs`.
pub uninterp spec fn and_of_equalities(pairs: Seq<(Seq<char>, Seq<char>)>) -> Seq<char>;

/// One equality: `(key=value)`.
pub open spec fn equality_text(k: Seq<char>, v: Seq<char>) -> Seq<char> {
    "("@ + k + "="@ + v + ")"@
}

/// The equalities of a conjunction, each on a line of its own, indented by two.
pub open spec fn clause_lines(pairs: Seq<(Seq<char>, Seq<char>)>) -> Seq<char>
    decreases pairs.len(),
{
    if pairs.len() == 0 {
        seq![]
    } else {
        "  "@ + equality_text(pairs[0].0, pairs[0].1) + "\n"@ + clause_lines(pairs.drop_first())
    }
}

/// The conjunction of `pairs`: nothing for none, the equality alone for one,
/// else `(&`, the indented lines, and `)`.
pub open spec fn and_clause_text(pairs: Seq<(Seq<char>, Seq<char>)>) -> Seq<char> {
    if pairs.len() == 0 {
        seq![]
    } else if pairs.len() == 1 {
        equality_text(pairs[0].0, pairs[0].1)
    } else {
        "(&\n"@ + clause_lines(pairs) + ")"@
    }
}

/// Whether no key or value of `pairs` holds a line break (the rendering
/// indents the lines of nested clauses, and so of such text).
pub open spec fn single_line(pairs: Seq<(Seq<char>, Seq<char>)>) -> bool {
    forall|i: int| 0 <= i < pairs.len() ==> !(#[trigger] pairs[i]).0.contains('\n') && !pairs[i].1.contains('\n')
}

/// Relies on ya_agreement_utils: `Constraints::new_clause` with
/// `ClauseOperator::And` over `ConstraintKey::equal_to` of string keys and
/// values, rendered by its `Display`. The text depends on the pairs alone;
/// for single-line keys and values it is `and_clause_text`.
#[verifier::external_body]
fn equality_constraints(pairs: &Vec<(String, String)>) -> (r: String)
    ensures
        r@ == and_of_equalities(pairs_view(pairs@)),
        single_line(pairs_view(pairs@)) ==> r@ == and_clause_text(pairs_view(pairs@)),
{
    let exprs: Vec<ConstraintExpr> = pairs
        .iter()
        .map(|(k, v)| ConstraintKey::new(k.as_str()).equal_to(ConstraintKey::new(v.as_str())))
        .collect();
    Constraints::new_clause(ClauseOperator::And, exprs).to_string()
}

/// The constraint pairs of a demand on `subnet`.
pub open spec fn demand_pairs(subnet: Seq<char>) -> Seq<(Seq<char>, Seq<char>)> {
    seq![(KEY_RUNTIME@, VM_RUNTIME@), (KEY_SUBNET@, subnet)]
}

/// The properties of a demand for `package` on `subnet` that expires at
/// `deadline_ms`.
pub open spec fn demand_properties(deadline_ms: i64, subnet: Seq<char>, package: Seq<char>) -> Seq<
    (Seq<char>, PropertyView),
> {
    seq![
        (KEY_NODE_NAME@, PropertyView::Text(NODE_NAME@)),
        (KEY_SUBNET@, PropertyView::Text(subnet)),
        (KEY_PACKAGE@, PropertyView::Text(package)),
        (KEY_EXPIRATION@, PropertyView::Integer(deadline_ms)),
    ]
}

/// The demand for running `package` on a virtual machine in `subnet`, valid
/// until `deadline_ms` (milliseconds since the Unix epoch).
pub fn create_demand(deadline_ms: i64, subnet: &str, package: &str) -> (r: Demand)
    ensures
        properties_view(r.properties@) == demand_properties(deadline_ms, subnet@, package@),
        r.constraints@ == and_of_equalities(demand_pairs(subnet@)),
        !subnet@.contains('\n') ==> r.constraints@ == and_clause_text(demand_pairs(subnet@)),
{
    let mut properties: Vec<(String, PropertyValue)> = Vec::new();
    properties.push((KEY_NODE_NAME.to_owned(), PropertyValue::Text(NODE_NAME.to_owned())));
    properties.push((KEY_SUBNET.to_owned(), PropertyValue::Text(subnet.to_owned())));
    properties.push((KEY_PACKAGE.to_owned(), PropertyValue::Text(package.to_owned())));
    properties.push((KEY_EXPIRATION.to_owned(), PropertyValue::Integer(deadline_ms)));
    let mut pairs: Vec<(String, String)> = Vec::new();
    pairs.push((KEY_RUNTIME.to_owned(), VM_RUNTIME.to_owned()));
    pairs.push((KEY_SUBNET.to_owned(), subnet.to_owned()));
    let constraints = equality_constraints(&pairs);
    assert(properties_view(properties@) =~= demand_properties(deadline_ms, subnet@, package@));
    assert(pairs_view(pairs@) =~= demand_pairs(subnet@));
    proof {
        reveal_strlit("golem.runtime.name");
        reveal_strlit("vm");
        reveal_strlit("golem.node.debug.subnet");
        let p = demand_pairs(subnet@);
        if !subnet@.contains('\n') {
            assert forall|i: int| 0 <= i < p.len() implies !(#[trigger] p[i]).0.contains('\n')
                && !p[i].1.contains('\n') by {
                if i == 0 {
                    assert(!KEY_RUNTIME@.contains('\n'));
                    assert(!VM_RUNTIME@.contains('\n'));
                } else {
                    assert(!KEY_SUBNET@.contains('\n'));
                }
            }
        }
    }
    Demand { properties, constraints }
}

} // verus!
