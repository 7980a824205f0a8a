//! How policies read: actions, operators and constraints in words.

use vstd::prelude::*;
use crate::text::{replace_all, replace_seq, str_eq, opt_view};

verus! {

/// An ODRL term (action, left operand, operator or target): a plain name, or an IRI given as
/// an `@id`.
#[derive(Debug, Clone, PartialEq)]
pub enum Term {
    Simple(String),
    Id(String),
}

/// The text of a term, whichever form it takes.
pub open spec fn term_text(t: Term) -> Seq<char> {
    match t {
        Term::Simple(s) => s@,
        Term::Id(s) => s@,
    }
}

impl Term {
    /// The text of the term.
    pub fn text(&self) -> (res: String)
        ensures
            res@ == term_text(*self),
    {
        match self {
            Term::Simple(s) => s.clone(),
            Term::Id(s) => s.clone(),
        }
    }
}

/// The namespace of ODRL terms.
pub open spec fn odrl_namespace() -> Seq<char> {
    "http://www.w3.org/ns/odrl/2/"@
}

/// The name of an ODRL operator, given its short form; `None` for an unknown one.
pub open spec fn operator_name(short: Seq<char>) -> Option<Seq<char>> {
    if short == "eq"@ { Some("Equal"@) }
    else if short == "neq"@ { Some("Not equal"@) }
    else if short == "gt"@ { Some("Greater than"@) }
    else if short == "gteq"@ { Some("Greater than or equal"@) }
    else if short == "lt"@ { Some("Less than"@) }
    else if short == "lteq"@ { Some("Less than or equal"@) }
    else if short == "term-lteq"@ { Some("Term less than or equal"@) }
    else if short == "hasPart"@ { Some("Has part"@) }
    else if short == "isA"@ { Some("Is a"@) }
    else if short == "isAllOf"@ { Some("Is all of"@) }
    else if short == "isAnyOf"@ { Some("Is any of"@) }
    else if short == "isNoneOf"@ { Some("Is none of"@) }
    else if short == "isPärtOf"@ { Some("Is part of"@) }
    else { None }
}

/// The name of the operator whose short form is `short`, if it is known.
pub fn lookup_operator_name(short: &str) -> (res: Option<String>)
    ensures
        crate::text::opt_view(res) == operator_name(short@),
{
    if str_eq(short, "eq") { Some("Equal".to_string()) }
    else if str_eq(short, "neq") { Some("Not equal".to_string()) }
    else if str_eq(short, "gt") { Some("Greater than".to_string()) }
    else if str_eq(short, "gteq") { Some("Greater than or equal".to_string()) }
    else if str_eq(short, "lt") { Some("Less than".to_string()) }
    else if str_eq(short, "lteq") { Some("Less than or equal".to_string()) }
    else if str_eq(short, "term-lteq") { Some("Term less than or equal".to_string()) }
    else if str_eq(short, "hasPart") { Some("Has part".to_string()) }
    else if str_eq(short, "isA") { Some("Is a".to_string()) }
    else if str_eq(short, "isAllOf") { Some("Is all of".to_string()) }
    else if str_eq(short, "isAnyOf") { Some("Is any of".to_string()) }
    else if str_eq(short, "isNoneOf") { Some("Is none of".to_string()) }
    else if str_eq(short, "isPärtOf") { Some("Is part of".to_string()) }
    else { None }
}

/// How a constraint's operator reads: the name of the operator it names once the ODRL
/// namespace is dropped, or the operator as written when that is no known operator.
pub open spec fn operator_label_text(operator: Seq<char>) -> Seq<char> {
    match operator_name(replace_seq(operator, odrl_namespace(), Seq::empty())) {
        Some(name) => name,
        None => operator,
    }
}

/// How the operator `operator` of a constraint reads.
pub fn operator_label(operator: &str) -> (res: String)
    ensures
        res@ == operator_label_text(operator@),
{
    proof {
        reveal_strlit("http://www.w3.org/ns/odrl/2/");
        reveal_strlit("");
    }
    assert(""@ =~= Seq::<char>::empty());
    let short = replace_all(operator, "http://www.w3.org/ns/odrl/2/", "");
    match lookup_operator_name(short.as_str()) {
        Some(name) => name,
        None => operator.to_string(),
    }
}

/// The text of the operator selector: the name of a plain operator when it is a known one,
/// else the operator's text.
pub open spec fn selector_text(operator: Term) -> Seq<char> {
    match operator {
        Term::Simple(s) => match operator_name(s@) {
            Some(name) => name,
            None => s@,
        },
        Term::Id(id) => id@,
    }
}

/// The text of the operator selector for `operator`.
pub fn operator_selector_label(operator: &Term) -> (res: String)
    ensures
        res@ == selector_text(*operator),
{
    match operator {
        Term::Simple(s) => match lookup_operator_name(s.as_str()) {
            Some(name) => name,
            None => s.clone(),
        },
        Term::Id(id) => id.clone(),
    }
}

/// The title of an atomic constraint of a rule with action `action`: the action without the
/// ODRL namespace, then " Constraint".
pub open spec fn atomic_constraint_title(action: Seq<char>) -> Seq<char> {
    replace_seq(action, odrl_namespace(), Seq::empty()) + " Constraint"@
}

/// The title of an atomic constraint of a rule with action `action`.
pub fn atomic_title(action: &str) -> (res: String)
    ensures
        res@ == atomic_constraint_title(action@),
{
    proof {
        reveal_strlit("http://www.w3.org/ns/odrl/2/");
        reveal_strlit("");
    }
    assert(""@ =~= Seq::<char>::empty());
    let mut title = replace_all(action, "http://www.w3.org/ns/odrl/2/", "");
    title.append(" Constraint");
    title
}

/// The title of a multiplicity constraint of a rule with action `action`.
pub fn multiplicity_title(action: &str) -> (res: String)
    ensures
        res@ == action@ + " Multiplicity Constraint"@,
{
    let mut title = action.to_string();
    title.append(" Multiplicity Constraint");
    title
}

/// How a constraint is edited: as a plain comparison, or as a registered CEL expression.
#[derive(Clone, Copy, Debug, PartialEq, Eq)]
pub enum ConstraintMode {
    Default,
    Cel,
}

/// The name of an editing mode.
pub open spec fn mode_label(mode: ConstraintMode) -> Seq<char> {
    match mode {
        ConstraintMode::Default => "Default"@,
        ConstraintMode::Cel => "CEL"@,
    }
}

impl ConstraintMode {
    /// The name of the mode.
    pub fn label(&self) -> (res: String)
        ensures
            res@ == mode_label(*self),
    {
        match self {
            ConstraintMode::Default => "Default".to_string(),
            ConstraintMode::Cel => "CEL".to_string(),
        }
    }
}

/// The operators the operator selector offers, as (name, short form), in menu order.
pub open spec fn operator_menu() -> Seq<(Seq<char>, Seq<char>)> {
    seq![
        ("Equal"@, "eq"@),
        ("Not equal"@, "neq"@),
        ("Greater than"@, "gt"@),
        ("Greater than or equal"@, "gteq"@),
        ("Less than"@, "lt"@),
        ("Less than or equal"@, "lteq"@),
        ("Term less than or equal"@, "term-lteq"@),
        ("Has part"@, "hasPart"@),
        ("Is a"@, "isA"@),
        ("Is all of"@, "isAllOf"@),
        ("Is any of"@, "isAnyOf"@),
        ("Is none of"@, "isNoneOf"@),
        ("Is part of"@, "isPärtOf"@),
    ]
}

fn menu_entry(i: usize) -> (res: (String, String))
    requires
        i < 13,
    ensures
        (res.0@, res.1@) == operator_menu()[i as int],
{
    if i == 0 { ("Equal".to_string(), "eq".to_string()) }
    else if i == 1 { ("Not equal".to_string(), "neq".to_string()) }
    else if i == 2 { ("Greater than".to_string(), "gt".to_string()) }
    else if i == 3 { ("Greater than or equal".to_string(), "gteq".to_string()) }
    else if i == 4 { ("Less than".to_string(), "lt".to_string()) }
    else if i == 5 { ("Less than or equal".to_string(), "lteq".to_string()) }
    else if i == 6 { ("Term less than or equal".to_string(), "term-lteq".to_string()) }
    else if i == 7 { ("Has part".to_string(), "hasPart".to_string()) }
    else if i == 8 { ("Is a".to_string(), "isA".to_string()) }
    else if i == 9 { ("Is all of".to_string(), "isAllOf".to_string()) }
    else if i == 10 { ("Is any of".to_string(), "isAnyOf".to_string()) }
    else if i == 11 { ("Is none of".to_string(), "isNoneOf".to_string()) }
    else { ("Is part of".to_string(), "isPärtOf".to_string()) }
}

/// The operators the operator selector offers.
pub fn operator_choices() -> (res: Vec<(String, String)>)
    ensures
        res@.len() == 13,
        forall|i: int| 0 <= i < 13 ==> ((#[trigger] res@[i]).0@, res@[i].1@) == operator_menu()[i],
{
    let mut out: Vec<(String, String)> = Vec::new();
    let mut i: usize = 0;
    while i < 13
        invariant
            i <= 13,
            out@.len() == i,
            forall|k: int| 0 <= k < i ==> ((#[trigger] out@[k]).0@, out@[k].1@) == operator_menu()[k],
        decreases 13 - i,
    {
        out.push(menu_entry(i));
        i += 1;
    }
    out
}

/// An atomic constraint as the policy editor holds it: how it is edited, its left operand,
/// its operator and its right operand.
#[derive(Debug)]
pub struct ConstraintDraft {
    pub mode: ConstraintMode,
    pub left_operand: Term,
    pub operator: Term,
    pub right_operand: crate::models::properties::JsonValue,
}

/// The constraint that choosing the CEL expression for `left_operand` produces: the
/// expression's left operand must `eq` the text `active`.
pub fn cel_constraint(left_operand: String) -> (res: ConstraintDraft)
    ensures
        res.mode == ConstraintMode::Cel,
        res.left_operand matches Term::Simple(l) && l@ == left_operand@,
        res.operator matches Term::Simple(o) && o@ == "eq"@,
        res.right_operand matches crate::models::properties::JsonValue::Text(r) && r@ == "active"@,
{
    ConstraintDraft {
        mode: ConstraintMode::Cel,
        left_operand: Term::Simple(left_operand),
        operator: Term::Simple("eq".to_string()),
        right_operand: crate::models::properties::JsonValue::Text("active".to_string()),
    }
}

/// The left operand that the CEL selector picks by itself: the first registered one, when
/// none is chosen yet.
pub open spec fn default_cel_choice(current: Seq<char>, registered: Seq<Seq<char>>) -> Option<Seq<char>> {
    if current.len() == 0 && registered.len() > 0 { Some(registered[0]) } else { None }
}

/// The left operand that the CEL selector picks by itself, if any.
pub fn default_cel_left_operand(
    current: &str,
    registered: &Vec<crate::models::common_expression_language_item::CommonExpressionLanguageItem>,
) -> (res: Option<String>)
    ensures
        opt_view(res) == default_cel_choice(
            current@,
            registered@.map_values(|c: crate::models::common_expression_language_item::CommonExpressionLanguageItem| c.left_operand@),
        ),
{
    if current.is_empty() && registered.len() > 0 {
        Some(registered[0].left_operand.clone())
    } else {
        None
    }
}

/// The action that a new rule starts with.
pub fn new_rule_action() -> (res: Term)
    ensures
        res matches Term::Simple(a) && a@ == "use"@,
{
    Term::Simple("use".to_string())
}

} // verus!
