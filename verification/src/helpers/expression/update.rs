//! Update expressions: four clause lists and the text that they render to.

use vstd::prelude::*;
use vstd::string::*;
use crate::helpers::expression::condition::call2;
use crate::helpers::expression::condition::render_call2;
use crate::helpers::expression::operand::IntoOperand;
use crate::helpers::expression::operand::Operand;
use crate::text::concat3;
use crate::text::join;
use crate::text::join_strings;
use crate::text::lemma_join_push;
use crate::text::views;

verus! {

/// The built-in value functions of a `SET` action.
#[derive(Debug, PartialEq)]
pub enum SetActionFunction {
    ListAppend(Operand, Operand),
    IfNotExists(Operand, Operand),
}

impl Clone for SetActionFunction {
    fn clone(&self) -> (result: Self)
        ensures
            result == *self,
    {
        match self {
            SetActionFunction::ListAppend(list1, list2) => SetActionFunction::ListAppend(
                list1.clone(),
                list2.clone(),
            ),
            SetActionFunction::IfNotExists(path, value) => SetActionFunction::IfNotExists(
                path.clone(),
                value.clone(),
            ),
        }
    }
}

impl SetActionFunction {
    /// The text of the call.
    pub open spec fn text(self) -> Seq<char> {
        match self {
            SetActionFunction::ListAppend(list1, list2) => call2("list_append"@, list1@, list2@),
            SetActionFunction::IfNotExists(path, value) => call2("if_not_exists"@, path@, value@),
        }
    }

    /// Renders the call.
    pub fn to_string(&self) -> (result: String)
        ensures
            result@ == self.text(),
    {
        match self {
            SetActionFunction::ListAppend(list1, list2) => render_call2(
                "list_append",
                list1,
                list2,
            ),
            SetActionFunction::IfNotExists(path, value) => render_call2(
                "if_not_exists",
                path,
                value,
            ),
        }
    }
}

/// Built-in function `list_append` for a `SET` action.
pub fn list_append(list1: Operand, list2: Operand) -> (result: SetActionFunction)
    ensures
        result == SetActionFunction::ListAppend(list1, list2),
        result.text() == call2("list_append"@, list1@, list2@),
{
    SetActionFunction::ListAppend(list1, list2)
}

/// Built-in function `if_not_exists` for a `SET` action.
pub fn if_not_exists(path: Operand, value: Operand) -> (result: SetActionFunction)
    ensures
        result == SetActionFunction::IfNotExists(path, value),
        result.text() == call2("if_not_exists"@, path@, value@),
{
    SetActionFunction::IfNotExists(path, value)
}

/// One side of the value of a `SET` action: a path or a built-in function.
#[derive(Debug, PartialEq)]
pub enum SetActionOperand {
    Path(Operand),
    Function(SetActionFunction),
}

impl Clone for SetActionOperand {
    fn clone(&self) -> (result: Self)
        ensures
            result == *self,
    {
        match self {
            SetActionOperand::Path(operand) => SetActionOperand::Path(operand.clone()),
            SetActionOperand::Function(function) => SetActionOperand::Function(function.clone()),
        }
    }
}

impl SetActionOperand {
    /// The text of the operand.
    pub open spec fn text(self) -> Seq<char> {
        match self {
            SetActionOperand::Path(operand) => operand@,
            SetActionOperand::Function(function) => function.text(),
        }
    }

    /// Renders the operand.
    pub fn to_string(&self) -> (result: String)
        ensures
            result@ == self.text(),
    {
        match self {
            SetActionOperand::Path(operand) => operand.to_string(),
            SetActionOperand::Function(function) => function.to_string(),
        }
    }
}

impl vstd::std_specs::convert::FromSpecImpl<Operand> for SetActionOperand {
    open spec fn obeys_from_spec() -> bool {
        true
    }

    open spec fn from_spec(v: Operand) -> SetActionOperand {
        SetActionOperand::Path(v)
    }
}

impl From<Operand> for SetActionOperand {
    fn from(operand: Operand) -> (result: Self) {
        SetActionOperand::Path(operand)
    }
}

impl vstd::std_specs::convert::FromSpecImpl<SetActionFunction> for SetActionOperand {
    open spec fn obeys_from_spec() -> bool {
        true
    }

    open spec fn from_spec(v: SetActionFunction) -> SetActionOperand {
        SetActionOperand::Function(v)
    }
}

impl From<SetActionFunction> for SetActionOperand {
    fn from(function: SetActionFunction) -> (result: Self) {
        SetActionOperand::Function(function)
    }
}

/// The value of a `SET` action: one operand, or a sum or difference of two.
#[derive(Debug, PartialEq)]
pub enum SetActionValue {
    Operand(SetActionOperand),
    Add(SetActionOperand, SetActionOperand),
    Sub(SetActionOperand, SetActionOperand),
}

impl Clone for SetActionValue {
    fn clone(&self) -> (result: Self)
        ensures
            result == *self,
    {
        match self {
            SetActionValue::Operand(operand) => SetActionValue::Operand(operand.clone()),
            SetActionValue::Add(left, right) => SetActionValue::Add(left.clone(), right.clone()),
            SetActionValue::Sub(left, right) => SetActionValue::Sub(left.clone(), right.clone()),
        }
    }
}

impl SetActionValue {
    /// The text of the value.
    pub open spec fn text(self) -> Seq<char> {
        match self {
            SetActionValue::Operand(operand) => operand.text(),
            SetActionValue::Add(left, right) => left.text() + " + "@ + right.text(),
            SetActionValue::Sub(left, right) => left.text() + " - "@ + right.text(),
        }
    }

    /// Renders the value.
    pub fn to_string(&self) -> (result: String)
        ensures
            result@ == self.text(),
    {
        match self {
            SetActionValue::Operand(operand) => operand.to_string(),
            SetActionValue::Add(left, right) => {
                let l = left.to_string();
                let r = right.to_string();
                concat3(l.as_str(), " + ", r.as_str())
            },
            SetActionValue::Sub(left, right) => {
                let l = left.to_string();
                let r = right.to_string();
                concat3(l.as_str(), " - ", r.as_str())
            },
        }
    }
}

impl vstd::std_specs::convert::FromSpecImpl<SetActionOperand> for SetActionValue {
    open spec fn obeys_from_spec() -> bool {
        true
    }

    open spec fn from_spec(v: SetActionOperand) -> SetActionValue {
        SetActionValue::Operand(v)
    }
}

impl From<SetActionOperand> for SetActionValue {
    fn from(value: SetActionOperand) -> (result: Self) {
        SetActionValue::Operand(value)
    }
}

impl vstd::std_specs::convert::FromSpecImpl<Operand> for SetActionValue {
    open spec fn obeys_from_spec() -> bool {
        true
    }

    open spec fn from_spec(v: Operand) -> SetActionValue {
        SetActionValue::Operand(SetActionOperand::Path(v))
    }
}

impl From<Operand> for SetActionValue {
    fn from(value: Operand) -> (result: Self) {
        SetActionValue::Operand(SetActionOperand::Path(value))
    }
}

impl vstd::std_specs::convert::FromSpecImpl<SetActionFunction> for SetActionValue {
    open spec fn obeys_from_spec() -> bool {
        true
    }

    open spec fn from_spec(v: SetActionFunction) -> SetActionValue {
        SetActionValue::Operand(SetActionOperand::Function(v))
    }
}

impl From<SetActionFunction> for SetActionValue {
    fn from(value: SetActionFunction) -> (result: Self) {
        SetActionValue::Operand(SetActionOperand::Function(value))
    }
}

/// One action of a `SET` clause.
#[derive(Debug, PartialEq)]
pub struct SetAction {
    pub path: Operand,
    pub value: SetActionValue,
}

impl Clone for SetAction {
    fn clone(&self) -> (result: Self)
        ensures
            result == *self,
    {
        SetAction { path: self.path.clone(), value: self.value.clone() }
    }
}

impl SetAction {
    /// The text of the action: `path = value`.
    pub open spec fn text(self) -> Seq<char> {
        self.path@ + " = "@ + self.value.text()
    }

    /// Renders the action.
    pub fn to_string(&self) -> (result: String)
        ensures
            result@ == self.text(),
    {
        let p = self.path.to_string();
        let v = self.value.to_string();
        concat3(p.as_str(), " = ", v.as_str())
    }
}

/// One action of a `REMOVE` clause.
#[derive(Debug, PartialEq)]
pub struct RemoveAction {
    pub path: Operand,
}

impl Clone for RemoveAction {
    fn clone(&self) -> (result: Self)
        ensures
            result == *self,
    {
        RemoveAction { path: self.path.clone() }
    }
}

impl RemoveAction {
    /// The text of the action: the bare path.
    pub open spec fn text(self) -> Seq<char> {
        self.path@
    }

    /// Renders the action.
    pub fn to_string(&self) -> (result: String)
        ensures
            result@ == self.text(),
    {
        self.path.to_string()
    }
}

/// One action of an `ADD` clause.
#[derive(Debug, PartialEq)]
pub struct AddAction {
    pub path: Operand,
    pub value: Operand,
}

impl Clone for AddAction {
    fn clone(&self) -> (result: Self)
        ensures
            result == *self,
    {
        AddAction { path: self.path.clone(), value: self.value.clone() }
    }
}

impl AddAction {
    /// The text of the action: path and value, separated by a space.
    pub open spec fn text(self) -> Seq<char> {
        self.path@ + " "@ + self.value@
    }

    /// Renders the action.
    pub fn to_string(&self) -> (result: String)
        ensures
            result@ == self.text(),
    {
        let p = self.path.to_string();
        let v = self.value.to_string();
        concat3(p.as_str(), " ", v.as_str())
    }
}

/// One action of a `DELETE` clause.
#[derive(Debug, PartialEq)]
pub struct DeleteAction {
    pub path: Operand,
    pub subset: Operand,
}

impl Clone for DeleteAction {
    fn clone(&self) -> (result: Self)
        ensures
            result == *self,
    {
        DeleteAction { path: self.path.clone(), subset: self.subset.clone() }
    }
}

impl DeleteAction {
    /// The text of the action: path and subset, separated by a space.
    pub open spec fn text(self) -> Seq<char> {
        self.path@ + " "@ + self.subset@
    }

    /// Renders the action.
    pub fn to_string(&self) -> (result: String)
        ensures
            result@ == self.text(),
    {
        let p = self.path.to_string();
        let s = self.subset.to_string();
        concat3(p.as_str(), " ", s.as_str())
    }
}

/// The builders of `SET` actions on an operand.
pub trait Update: IntoOperand {
    /// Creates the action `A = B`.
    fn value(self, value: SetActionValue) -> (result: SetAction)
        ensures
            result == (SetAction { path: self.operand(), value }),
    {
        SetAction { path: self.into_operand(), value }
    }

    /// Creates the value `A + B`.
    fn add(self, operand: SetActionOperand) -> (result: SetActionValue)
        ensures
            result == SetActionValue::Add(SetActionOperand::Path(self.operand()), operand),
    {
        SetActionValue::Add(SetActionOperand::Path(self.into_operand()), operand)
    }

    /// Creates the value `A - B`.
    fn sub(self, operand: SetActionOperand) -> (result: SetActionValue)
        ensures
            result == SetActionValue::Sub(SetActionOperand::Path(self.operand()), operand),
    {
        SetActionValue::Sub(SetActionOperand::Path(self.into_operand()), operand)
    }
}

impl Update for Operand {

}

/// An update expression: the actions of its four clauses, each list in the
/// order in which the actions were added.
#[derive(Debug, PartialEq)]
pub struct UpdateExpression {
    pub set: Vec<SetAction>,
    pub remove: Vec<RemoveAction>,
    pub add: Vec<AddAction>,
    pub delete: Vec<DeleteAction>,
}

/// The four clause lists of an update expression, as sequences.
pub struct Clauses {
    pub set: Seq<SetAction>,
    pub remove: Seq<RemoveAction>,
    pub add: Seq<AddAction>,
    pub delete: Seq<DeleteAction>,
}

impl View for UpdateExpression {
    type V = Clauses;

    open spec fn view(&self) -> Clauses {
        Clauses { set: self.set@, remove: self.remove@, add: self.add@, delete: self.delete@ }
    }
}

/// The texts of the actions of a `SET` clause.
pub open spec fn set_texts(actions: Seq<SetAction>) -> Seq<Seq<char>> {
    actions.map_values(|a: SetAction| a.text())
}

/// The texts of the actions of a `REMOVE` clause.
pub open spec fn remove_texts(actions: Seq<RemoveAction>) -> Seq<Seq<char>> {
    actions.map_values(|a: RemoveAction| a.text())
}

/// The texts of the actions of an `ADD` clause.
pub open spec fn add_texts(actions: Seq<AddAction>) -> Seq<Seq<char>> {
    actions.map_values(|a: AddAction| a.text())
}

/// The texts of the actions of a `DELETE` clause.
pub open spec fn delete_texts(actions: Seq<DeleteAction>) -> Seq<Seq<char>> {
    actions.map_values(|a: DeleteAction| a.text())
}

/// The segment that one clause contributes: none where it has no action, else
/// its keyword, a space, and its actions separated by a comma and a space.
pub open spec fn clause(keyword: Seq<char>, items: Seq<Seq<char>>) -> Seq<Seq<char>> {
    if items.len() == 0 {
        Seq::empty()
    } else {
        seq![keyword + " "@ + join(items, ", "@)]
    }
}

impl Clauses {
    /// The clause lists of `self` followed by those of `other`, kind by kind.
    pub open spec fn merge(self, other: Clauses) -> Clauses {
        Clauses {
            set: self.set + other.set,
            remove: self.remove + other.remove,
            add: self.add + other.add,
            delete: self.delete + other.delete,
        }
    }

    /// The segments of the non-empty clauses, in the order `SET`, `REMOVE`,
    /// `ADD`, `DELETE`.
    pub open spec fn segments(self) -> Seq<Seq<char>> {
        clause("SET"@, set_texts(self.set)) + clause("REMOVE"@, remove_texts(self.remove))
            + clause("ADD"@, add_texts(self.add)) + clause("DELETE"@, delete_texts(self.delete))
    }

    /// The text of the expression: its segments, separated by single spaces.
    pub open spec fn text(self) -> Seq<char> {
        join(self.segments(), " "@)
    }
}

/// Merging is associative: however three expressions are grouped, the merged
/// clause lists are the same, and so is the rendered text.
pub proof fn lemma_merge_associative(a: Clauses, b: Clauses, c: Clauses)
    ensures
        a.merge(b).merge(c) == a.merge(b.merge(c)),
        a.merge(b).merge(c).text() == a.merge(b.merge(c)).text(),
{
    let left = a.merge(b).merge(c);
    let right = a.merge(b.merge(c));
    assert(left.set =~= right.set);
    assert(left.remove =~= right.remove);
    assert(left.add =~= right.add);
    assert(left.delete =~= right.delete);
}

/// Merging keeps the order of the actions: in each clause the actions of the
/// first expression come first, each list in its own order.
pub proof fn lemma_merge_keeps_order(a: Clauses, b: Clauses)
    ensures
        a.merge(b).set.len() == a.set.len() + b.set.len(),
        forall|i: int| 0 <= i < a.set.len() ==> a.merge(b).set[i] == a.set[i],
        forall|i: int| 0 <= i < b.set.len() ==> a.merge(b).set[a.set.len() + i] == b.set[i],
        a.merge(b).remove.len() == a.remove.len() + b.remove.len(),
        forall|i: int| 0 <= i < a.remove.len() ==> a.merge(b).remove[i] == a.remove[i],
        forall|i: int|
            0 <= i < b.remove.len() ==> a.merge(b).remove[a.remove.len() + i] == b.remove[i],
        a.merge(b).add.len() == a.add.len() + b.add.len(),
        forall|i: int| 0 <= i < a.add.len() ==> a.merge(b).add[i] == a.add[i],
        forall|i: int| 0 <= i < b.add.len() ==> a.merge(b).add[a.add.len() + i] == b.add[i],
        a.merge(b).delete.len() == a.delete.len() + b.delete.len(),
        forall|i: int| 0 <= i < a.delete.len() ==> a.merge(b).delete[i] == a.delete[i],
        forall|i: int|
            0 <= i < b.delete.len() ==> a.merge(b).delete[a.delete.len() + i] == b.delete[i],
{
}

/// A clause kind that no merged part uses contributes no segment.
pub proof fn lemma_absent_clause(a: Clauses, b: Clauses)
    ensures
        a.set.len() == 0 && b.set.len() == 0 ==> clause("SET"@, set_texts(a.merge(b).set))
            == Seq::<Seq<char>>::empty(),
        a.remove.len() == 0 && b.remove.len() == 0 ==> clause(
            "REMOVE"@,
            remove_texts(a.merge(b).remove),
        ) == Seq::<Seq<char>>::empty(),
        a.add.len() == 0 && b.add.len() == 0 ==> clause("ADD"@, add_texts(a.merge(b).add))
            == Seq::<Seq<char>>::empty(),
        a.delete.len() == 0 && b.delete.len() == 0 ==> clause(
            "DELETE"@,
            delete_texts(a.merge(b).delete),
        ) == Seq::<Seq<char>>::empty(),
{
}

/// Creates the expression with the one `SET` action `statement`.
pub fn set(statement: SetAction) -> (result: UpdateExpression)
    ensures
        result@ == (Clauses {
            set: seq![statement],
            remove: Seq::empty(),
            add: Seq::empty(),
            delete: Seq::empty(),
        }),
{
    let mut set: Vec<SetAction> = Vec::new();
    set.push(statement);
    let result = UpdateExpression { set, remove: Vec::new(), add: Vec::new(), delete: Vec::new() };
    assert(result.set@ =~= seq![statement]);
    result
}

/// Creates the expression with the one `REMOVE` action for `path`.
pub fn remove(path: Operand) -> (result: UpdateExpression)
    ensures
        result@ == (Clauses {
            set: Seq::empty(),
            remove: seq![RemoveAction { path }],
            add: Seq::empty(),
            delete: Seq::empty(),
        }),
{
    let mut remove: Vec<RemoveAction> = Vec::new();
    remove.push(RemoveAction { path });
    let result = UpdateExpression { set: Vec::new(), remove, add: Vec::new(), delete: Vec::new() };
    assert(result.remove@ =~= seq![RemoveAction { path }]);
    result
}

/// Creates the expression with the one `ADD` action of `value` to `path`.
pub fn add(path: Operand, value: Operand) -> (result: UpdateExpression)
    ensures
        result@ == (Clauses {
            set: Seq::empty(),
            remove: Seq::empty(),
            add: seq![AddAction { path, value }],
            delete: Seq::empty(),
        }),
{
    let mut add: Vec<AddAction> = Vec::new();
    add.push(AddAction { path, value });
    let result = UpdateExpression { set: Vec::new(), remove: Vec::new(), add, delete: Vec::new() };
    assert(result.add@ =~= seq![AddAction { path, value }]);
    result
}

/// Creates the expression with the one `DELETE` action of `subset` from `path`.
pub fn delete(path: Operand, subset: Operand) -> (result: UpdateExpression)
    ensures
        result@ == (Clauses {
            set: Seq::empty(),
            remove: Seq::empty(),
            add: Seq::empty(),
            delete: seq![DeleteAction { path, subset }],
        }),
{
    let mut delete: Vec<DeleteAction> = Vec::new();
    delete.push(DeleteAction { path, subset });
    let result = UpdateExpression { set: Vec::new(), remove: Vec::new(), add: Vec::new(), delete };
    assert(result.delete@ =~= seq![DeleteAction { path, subset }]);
    result
}

/// Renders one clause into `actions`: nothing where `items` is empty.
fn push_clause(actions: &mut Vec<String>, keyword: &str, items: &Vec<String>)
    ensures
        views(final(actions)@) == views(old(actions)@) + clause(keyword@, views(items@)),
{
    if items.len() > 0 {
        let list = join_strings(items, ", ");
        let segment = concat3(keyword, " ", list.as_str());
        actions.push(segment);
        assert(views(actions@) =~= views(old(actions)@) + clause(keyword@, views(items@)));
    } else {
        assert(views(actions@) =~= views(old(actions)@) + clause(keyword@, views(items@)));
    }
}

impl Clone for UpdateExpression {
    /// A copy with the same actions in the same order.
    fn clone(&self) -> (result: Self)
        ensures
            result@ == self@,
    {
        let set = self.set.clone();
        let remove = self.remove.clone();
        let add = self.add.clone();
        let delete = self.delete.clone();
        proof {
            assert(set@ =~= self.set@);
            assert(remove@ =~= self.remove@);
            assert(add@ =~= self.add@);
            assert(delete@ =~= self.delete@);
        }
        UpdateExpression { set, remove, add, delete }
    }
}

impl Default for UpdateExpression {
    fn default() -> (result: Self)
        ensures
            result@ == (Clauses {
                set: Seq::empty(),
                remove: Seq::empty(),
                add: Seq::empty(),
                delete: Seq::empty(),
            }),
    {
        UpdateExpression::new()
    }
}

impl UpdateExpression {
    /// Creates an empty expression.
    pub fn new() -> (result: Self)
        ensures
            result@ == (Clauses {
                set: Seq::empty(),
                remove: Seq::empty(),
                add: Seq::empty(),
                delete: Seq::empty(),
            }),
    {
        UpdateExpression { set: Vec::new(), remove: Vec::new(), add: Vec::new(), delete: Vec::new() }
    }

    /// Merges two expressions: in each clause the actions of `self` first, then
    /// those of `other`.
    pub fn and(self, other: Self) -> (result: Self)
        ensures
            result@ == self@.merge(other@),
    {
        let mut set = self.set;
        let mut remove = self.remove;
        let mut add = self.add;
        let mut delete = self.delete;
        let mut other = other;
        set.append(&mut other.set);
        remove.append(&mut other.remove);
        add.append(&mut other.add);
        delete.append(&mut other.delete);
        UpdateExpression { set, remove, add, delete }
    }

    /// Renders the expression. An expression without actions renders as the
    /// empty text.
    pub fn to_string(&self) -> (result: String)
        ensures
            result@ == self@.text(),
    {
        let mut actions: Vec<String> = Vec::new();
        let mut set_items: Vec<String> = Vec::new();
        let mut i: usize = 0;
        while i < self.set.len()
            invariant
                i <= self.set.len(),
                set_items@.len() == i,
                forall|j: int| 0 <= j < i ==> (#[trigger] set_items@[j])@ == self.set@[j].text(),
            decreases self.set.len() - i,
        {
            set_items.push(self.set[i].to_string());
            i = i + 1;
        }
        assert(views(set_items@) =~= set_texts(self.set@));
        let mut remove_items: Vec<String> = Vec::new();
        let mut i: usize = 0;
        while i < self.remove.len()
            invariant
                i <= self.remove.len(),
                remove_items@.len() == i,
                forall|j: int| 0 <= j < i ==> (#[trigger] remove_items@[j])@ == self.remove@[j].text(),
            decreases self.remove.len() - i,
        {
            remove_items.push(self.remove[i].to_string());
            i = i + 1;
        }
        assert(views(remove_items@) =~= remove_texts(self.remove@));
        let mut add_items: Vec<String> = Vec::new();
        let mut i: usize = 0;
        while i < self.add.len()
            invariant
                i <= self.add.len(),
                add_items@.len() == i,
                forall|j: int| 0 <= j < i ==> (#[trigger] add_items@[j])@ == self.add@[j].text(),
            decreases self.add.len() - i,
        {
            add_items.push(self.add[i].to_string());
            i = i + 1;
        }
        assert(views(add_items@) =~= add_texts(self.add@));
        let mut delete_items: Vec<String> = Vec::new();
        let mut i: usize = 0;
        while i < self.delete.len()
            invariant
                i <= self.delete.len(),
                delete_items@.len() == i,
                forall|j: int| 0 <= j < i ==> (#[trigger] delete_items@[j])@ == self.delete@[j].text(),
            decreases self.delete.len() - i,
        {
            delete_items.push(self.delete[i].to_string());
            i = i + 1;
        }
        assert(views(delete_items@) =~= delete_texts(self.delete@));
        assert(views(actions@) =~= Seq::<Seq<char>>::empty());
        push_clause(&mut actions, "SET", &set_items);
        push_clause(&mut actions, "REMOVE", &remove_items);
        push_clause(&mut actions, "ADD", &add_items);
        push_clause(&mut actions, "DELETE", &delete_items);
        assert(views(actions@) =~= self@.segments());
        join_strings(&actions, " ")
    }
}

impl vstd::std_specs::convert::FromSpecImpl<UpdateExpression> for String {
    /// The conversion is specified by its text, which `from` states itself.
    open spec fn obeys_from_spec() -> bool {
        false
    }

    open spec fn from_spec(v: UpdateExpression) -> String {
        arbitrary()
    }
}

impl From<UpdateExpression> for String {
    fn from(condition: UpdateExpression) -> (result: String)
        ensures
            result@ == condition@.text(),
    {
        condition.to_string()
    }
}

} // verus!
