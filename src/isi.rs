//! Instructions, queries and expressions as far as transactions carry them:
//! their shape, their value, and the weight that limits a transaction's size.
use vstd::prelude::*;
use crate::account::{AccountId, AccountIdModel};

verus! {

broadcast use vstd::seq::group_seq_axioms, vstd::std_specs::vec::group_vec_axioms;

/// A literal operand.
#[derive(Debug, Clone, PartialEq, Eq)]
pub enum Value {
    U32(u32),
    Bool(bool),
    Text(String),
}

/// Mathematical value of a [`Value`].
pub enum ValueModel {
    U32(u32),
    Bool(bool),
    Text(Seq<char>),
}

impl View for Value {
    type V = ValueModel;

    open spec fn view(&self) -> ValueModel {
        match self {
            Value::U32(x) => ValueModel::U32(*x),
            Value::Bool(b) => ValueModel::Bool(*b),
            Value::Text(t) => ValueModel::Text(t@),
        }
    }
}

impl Value {
    /// A copy with the same value.
    pub fn duplicate(&self) -> (r: Value)
        ensures
            r@ == self@,
    {
        match self {
            Value::U32(x) => Value::U32(*x),
            Value::Bool(b) => Value::Bool(*b),
            Value::Text(t) => Value::Text(t.clone()),
        }
    }

    /// Structural equality.
    pub fn same_as(&self, other: &Value) -> (r: bool)
        ensures
            r == (self@ == other@),
    {
        match (self, other) {
            (Value::U32(a), Value::U32(b)) => *a == *b,
            (Value::Bool(a), Value::Bool(b)) => *a == *b,
            (Value::Text(a), Value::Text(b)) => *a == *b,
            _ => false,
        }
    }
}

/// A read-only request to the world state.
#[derive(Debug, Clone, PartialEq, Eq)]
pub enum QueryBox {
    FindAllAccounts,
    FindAccountById(AccountId),
    FindTransactionsByAccountId(AccountId),
}

/// Mathematical value of a [`QueryBox`].
pub enum QueryModel {
    FindAllAccounts,
    FindAccountById(AccountIdModel),
    FindTransactionsByAccountId(AccountIdModel),
}

impl View for QueryBox {
    type V = QueryModel;

    open spec fn view(&self) -> QueryModel {
        match self {
            QueryBox::FindAllAccounts => QueryModel::FindAllAccounts,
            QueryBox::FindAccountById(a) => QueryModel::FindAccountById(a@),
            QueryBox::FindTransactionsByAccountId(a) => QueryModel::FindTransactionsByAccountId(a@),
        }
    }
}

impl QueryBox {
    /// A copy with the same value.
    pub fn duplicate(&self) -> (r: QueryBox)
        ensures
            r@ == self@,
    {
        match self {
            QueryBox::FindAllAccounts => QueryBox::FindAllAccounts,
            QueryBox::FindAccountById(a) => QueryBox::FindAccountById(a.duplicate()),
            QueryBox::FindTransactionsByAccountId(a) => QueryBox::FindTransactionsByAccountId(
                a.duplicate(),
            ),
        }
    }

    /// Structural equality.
    pub fn same_as(&self, other: &QueryBox) -> (r: bool)
        ensures
            r == (self@ == other@),
    {
        match (self, other) {
            (QueryBox::FindAllAccounts, QueryBox::FindAllAccounts) => true,
            (QueryBox::FindAccountById(a), QueryBox::FindAccountById(b)) => a.same_as(b),
            (
                QueryBox::FindTransactionsByAccountId(a),
                QueryBox::FindTransactionsByAccountId(b),
            ) => a.same_as(b),
            _ => false,
        }
    }
}

/// An operand that is evaluated when the instruction runs; it may embed a
/// query.
#[derive(Debug, PartialEq, Eq)]
pub enum Expression {
    Raw(Value),
    Query(QueryBox),
    Add(Box<Expression>, Box<Expression>),
    Equal(Box<Expression>, Box<Expression>),
    Not(Box<Expression>),
}

/// Mathematical value of an [`Expression`].
pub enum ExpressionModel {
    Raw(ValueModel),
    Query(QueryModel),
    Add(Box<ExpressionModel>, Box<ExpressionModel>),
    Equal(Box<ExpressionModel>, Box<ExpressionModel>),
    Not(Box<ExpressionModel>),
}

impl View for Expression {
    type V = ExpressionModel;

    open spec fn view(&self) -> ExpressionModel
        decreases self,
    {
        match self {
            Expression::Raw(v) => ExpressionModel::Raw(v@),
            Expression::Query(q) => ExpressionModel::Query(q@),
            Expression::Add(a, b) => ExpressionModel::Add(Box::new((**a).view()), Box::new((**b).view())),
            Expression::Equal(a, b) => ExpressionModel::Equal(Box::new((**a).view()), Box::new((**b).view())),
            Expression::Not(a) => ExpressionModel::Not(Box::new((**a).view())),
        }
    }
}

impl ExpressionModel {
    /// Number of nodes of the expression.
    pub open spec fn weight(self) -> nat
        decreases self,
    {
        match self {
            ExpressionModel::Raw(_) => 1,
            ExpressionModel::Query(_) => 1,
            ExpressionModel::Add(a, b) => a.weight() + b.weight() + 1,
            ExpressionModel::Equal(a, b) => a.weight() + b.weight() + 1,
            ExpressionModel::Not(a) => a.weight() + 1,
        }
    }
}

impl Clone for Expression {
    fn clone(&self) -> Self {
        self.duplicate()
    }
}

impl Expression {
    /// A copy with the same value.
    pub fn duplicate(&self) -> (r: Expression)
        ensures
            r@ == self@,
        decreases self,
    {
        match self {
            Expression::Raw(v) => Expression::Raw(v.duplicate()),
            Expression::Query(q) => Expression::Query(q.duplicate()),
            Expression::Add(a, b) => Expression::Add(
                Box::new((**a).duplicate()),
                Box::new((**b).duplicate()),
            ),
            Expression::Equal(a, b) => Expression::Equal(
                Box::new((**a).duplicate()),
                Box::new((**b).duplicate()),
            ),
            Expression::Not(a) => Expression::Not(Box::new((**a).duplicate())),
        }
    }

    /// Structural equality.
    pub fn same_as(&self, other: &Expression) -> (r: bool)
        ensures
            r == (self@ == other@),
        decreases self,
    {
        match (self, other) {
            (Expression::Raw(a), Expression::Raw(b)) => a.same_as(b),
            (Expression::Query(a), Expression::Query(b)) => a.same_as(b),
            (Expression::Add(a1, a2), Expression::Add(b1, b2)) => {
                (**a1).same_as(&**b1) && (**a2).same_as(&**b2)
            },
            (Expression::Equal(a1, a2), Expression::Equal(b1, b2)) => {
                (**a1).same_as(&**b1) && (**a2).same_as(&**b2)
            },
            (Expression::Not(a), Expression::Not(b)) => (**a).same_as(&**b),
            _ => false,
        }
    }

    /// The expression's weight, when it is at most `budget`.
    pub fn weight_within(&self, budget: u64) -> (r: Option<u64>)
        ensures
            match r {
                Some(w) => w == self@.weight() && w <= budget,
                None => self@.weight() > budget,
            },
        decreases self,
    {
        if budget == 0 {
            return None;
        }
        match self {
            Expression::Raw(_) => Some(1),
            Expression::Query(_) => Some(1),
            Expression::Add(a, b) | Expression::Equal(a, b) => {
                let wa = (**a).weight_within(budget - 1)?;
                let wb = (**b).weight_within(budget - 1 - wa)?;
                Some(wa + wb + 1)
            },
            Expression::Not(a) => {
                let wa = (**a).weight_within(budget - 1)?;
                Some(wa + 1)
            },
        }
    }
}

/// Instruction of the ledger's special instruction set.
#[derive(Debug, PartialEq, Eq)]
pub enum Instruction {
    /// Burn the first operand from the second.
    Burn(Expression, Expression),
    /// Fail with the given message.
    Fail(String),
    /// Run the second if the condition holds, else the third if present.
    If(Expression, Box<Instruction>, Option<Box<Instruction>>),
    /// Mint the first operand into the second.
    Mint(Expression, Expression),
    /// Run both instructions.
    Pair(Box<Instruction>, Box<Instruction>),
    /// Register a new object.
    Register(Expression),
    /// Run the instructions in order.
    Sequence(Vec<Instruction>),
    /// Move the second operand from the first to the third.
    Transfer(Expression, Expression, Expression),
    /// Unregister the object with the given id.
    Unregister(Expression),
    /// Set a key of an object's metadata to a value.
    SetKeyValue(Expression, Expression, Expression),
    /// Remove a key from an object's metadata.
    RemoveKeyValue(Expression, Expression),
    /// Grant the first operand to the second.
    Grant(Expression, Expression),
    /// Revoke the first operand from the second.
    Revoke(Expression, Expression),
}

/// Mathematical value of an [`Instruction`].
pub enum InstructionModel {
    Burn(ExpressionModel, ExpressionModel),
    Fail(Seq<char>),
    If(ExpressionModel, Box<InstructionModel>, Option<Box<InstructionModel>>),
    Mint(ExpressionModel, ExpressionModel),
    Pair(Box<InstructionModel>, Box<InstructionModel>),
    Register(ExpressionModel),
    Sequence(Seq<InstructionModel>),
    Transfer(ExpressionModel, ExpressionModel, ExpressionModel),
    Unregister(ExpressionModel),
    SetKeyValue(ExpressionModel, ExpressionModel, ExpressionModel),
    RemoveKeyValue(ExpressionModel, ExpressionModel),
    Grant(ExpressionModel, ExpressionModel),
    Revoke(ExpressionModel, ExpressionModel),
}

impl Instruction {
    /// Mathematical value of the instruction.
    pub open spec fn model(&self) -> InstructionModel
        decreases self,
    {
        match self {
            Instruction::Burn(a, b) => InstructionModel::Burn(a@, b@),
            Instruction::Fail(m) => InstructionModel::Fail(m@),
            Instruction::If(c, t, o) => InstructionModel::If(
                c@,
                Box::new((**t).model()),
                match o {
                    Some(e) => Some(Box::new((**e).model())),
                    None => None,
                },
            ),
            Instruction::Mint(a, b) => InstructionModel::Mint(a@, b@),
            Instruction::Pair(a, b) => InstructionModel::Pair(
                Box::new((**a).model()),
                Box::new((**b).model()),
            ),
            Instruction::Register(a) => InstructionModel::Register(a@),
            Instruction::Sequence(v) => InstructionModel::Sequence(models_of(v@)),
            Instruction::Transfer(a, b, c) => InstructionModel::Transfer(a@, b@, c@),
            Instruction::Unregister(a) => InstructionModel::Unregister(a@),
            Instruction::SetKeyValue(a, b, c) => InstructionModel::SetKeyValue(a@, b@, c@),
            Instruction::RemoveKeyValue(a, b) => InstructionModel::RemoveKeyValue(a@, b@),
            Instruction::Grant(a, b) => InstructionModel::Grant(a@, b@),
            Instruction::Revoke(a, b) => InstructionModel::Revoke(a@, b@),
        }
    }
}

/// Values of a sequence of instructions.
pub open spec fn models_of(s: Seq<Instruction>) -> Seq<InstructionModel>
    decreases s,
{
    if s.len() == 0 {
        Seq::empty()
    } else {
        models_of(s.drop_last()).push(s.last().model())
    }
}

impl View for Instruction {
    type V = InstructionModel;

    open spec fn view(&self) -> InstructionModel {
        self.model()
    }
}

impl InstructionModel {
    /// Size of the instruction: its operands' weights plus one, and for
    /// composite instructions the weights of their parts plus one.
    pub open spec fn weight(self) -> nat
        decreases self,
    {
        match self {
            InstructionModel::Burn(a, b) => a.weight() + b.weight() + 1,
            InstructionModel::Fail(_) => 1,
            InstructionModel::If(c, t, o) => c.weight() + t.weight() + match o {
                Some(e) => e.weight(),
                None => 0,
            } + 1,
            InstructionModel::Mint(a, b) => a.weight() + b.weight() + 1,
            InstructionModel::Pair(a, b) => a.weight() + b.weight() + 1,
            InstructionModel::Register(a) => a.weight() + 1,
            InstructionModel::Sequence(s) => seq_weight(s) + 1,
            InstructionModel::Transfer(a, b, c) => a.weight() + b.weight() + c.weight() + 1,
            InstructionModel::Unregister(a) => a.weight() + 1,
            InstructionModel::SetKeyValue(a, b, c) => a.weight() + b.weight() + c.weight() + 1,
            InstructionModel::RemoveKeyValue(a, b) => a.weight() + b.weight() + 1,
            InstructionModel::Grant(a, b) => a.weight() + b.weight() + 1,
            InstructionModel::Revoke(a, b) => a.weight() + b.weight() + 1,
        }
    }
}

/// Total weight of a sequence of instructions.
pub open spec fn seq_weight(s: Seq<InstructionModel>) -> nat
    decreases s,
{
    if s.len() == 0 {
        0
    } else {
        seq_weight(s.drop_last()) + s.last().weight()
    }
}

/// `models_of` keeps the length and maps each element.
proof fn lemma_models_of(s: Seq<Instruction>)
    ensures
        models_of(s).len() == s.len(),
        forall|i: int| 0 <= i < s.len() ==> #[trigger] models_of(s)[i] == s[i].model(),
    decreases s.len(),
{
    if s.len() > 0 {
        lemma_models_of(s.drop_last());
    }
}

/// The models of a prefix one longer are the shorter prefix's models and one more.
proof fn lemma_models_of_prefix(s: Seq<Instruction>, i: int)
    requires
        0 <= i < s.len(),
    ensures
        models_of(s.subrange(0, i + 1)) == models_of(s.subrange(0, i)).push(s[i].model()),
{
    assert(s.subrange(0, i + 1).drop_last() =~= s.subrange(0, i));
}

/// Adding one instruction at the end adds its weight.
proof fn lemma_seq_weight_push(s: Seq<InstructionModel>, x: InstructionModel)
    ensures
        seq_weight(s.push(x)) == seq_weight(s) + x.weight(),
{
    assert(s.push(x).drop_last() =~= s);
}

/// Total weight of `v`, when it is at most `budget`.
pub fn seq_weight_within(v: &Vec<Instruction>, budget: u64) -> (r: Option<u64>)
    ensures
        match r {
            Some(w) => w == seq_weight(models_of(v@)) && w <= budget,
            None => seq_weight(models_of(v@)) > budget,
        },
    decreases v,
{
    let mut used: u64 = 0;
    let mut i: usize = 0;
    while i < v.len()
        invariant
            i <= v@.len(),
            used <= budget,
            used == seq_weight(models_of(v@.subrange(0, i as int))),
        decreases v@.len() - i,
    {
        proof {
            lemma_models_of_prefix(v@, i as int);
            lemma_seq_weight_push(models_of(v@.subrange(0, i as int)), v@[i as int].model());
        }
        match v[i].weight_within(budget - used) {
            Some(w) => {
                used = used + w;
            },
            None => {
                proof {
                    lemma_seq_weight_monotone(v@, i as int + 1);
                }
                return None;
            },
        }
        i = i + 1;
    }
    assert(v@.subrange(0, i as int) =~= v@);
    Some(used)
}

/// A prefix weighs no more than the whole.
proof fn lemma_seq_weight_monotone(s: Seq<Instruction>, i: int)
    requires
        0 <= i <= s.len(),
    ensures
        seq_weight(models_of(s.subrange(0, i))) <= seq_weight(models_of(s)),
    decreases s.len() - i,
{
    if i < s.len() {
        lemma_seq_weight_monotone(s, i + 1);
        lemma_models_of_prefix(s, i);
        lemma_seq_weight_push(models_of(s.subrange(0, i)), s[i].model());
    } else {
        assert(s.subrange(0, i) =~= s);
    }
}

impl Instruction {
    /// The instruction's weight, when it is at most `budget`.
    pub fn weight_within(&self, budget: u64) -> (r: Option<u64>)
        ensures
            match r {
                Some(w) => w == self@.weight() && w <= budget,
                None => self@.weight() > budget,
            },
        decreases self,
    {
        if budget == 0 {
            return None;
        }
        let b = budget - 1;
        match self {
            Instruction::Fail(_) => Some(1),
            Instruction::Register(a) | Instruction::Unregister(a) => {
                let wa = a.weight_within(b)?;
                Some(wa + 1)
            },
            Instruction::Burn(x, y) | Instruction::Mint(x, y) | Instruction::RemoveKeyValue(x, y)
            | Instruction::Grant(x, y) | Instruction::Revoke(x, y) => {
                let wx = x.weight_within(b)?;
                let wy = y.weight_within(b - wx)?;
                Some(wx + wy + 1)
            },
            Instruction::Transfer(x, y, z) | Instruction::SetKeyValue(x, y, z) => {
                let wx = x.weight_within(b)?;
                let wy = y.weight_within(b - wx)?;
                let wz = z.weight_within(b - wx - wy)?;
                Some(wx + wy + wz + 1)
            },
            Instruction::Pair(x, y) => {
                let wx = (**x).weight_within(b)?;
                let wy = (**y).weight_within(b - wx)?;
                Some(wx + wy + 1)
            },
            Instruction::If(c, t, o) => {
                let wc = c.weight_within(b)?;
                let wt = (**t).weight_within(b - wc)?;
                let wo = match o {
                    Some(e) => (**e).weight_within(b - wc - wt)?,
                    None => 0,
                };
                Some(wc + wt + wo + 1)
            },
            Instruction::Sequence(v) => {
                let ws = seq_weight_within(v, b)?;
                Some(ws + 1)
            },
        }
    }
}

impl Clone for Instruction {
    fn clone(&self) -> Self {
        self.duplicate()
    }
}

impl Instruction {
    /// A copy with the same value.
    pub fn duplicate(&self) -> (r: Instruction)
        ensures
            r@ == self@,
        decreases self,
    {
        match self {
            Instruction::Burn(a, b) => Instruction::Burn(a.duplicate(), b.duplicate()),
            Instruction::Fail(m) => Instruction::Fail(m.clone()),
            Instruction::If(c, t, o) => {
                let o2 = match o {
                    Some(e) => Some(Box::new((**e).duplicate())),
                    None => None,
                };
                Instruction::If(c.duplicate(), Box::new((**t).duplicate()), o2)
            },
            Instruction::Mint(a, b) => Instruction::Mint(a.duplicate(), b.duplicate()),
            Instruction::Pair(a, b) => Instruction::Pair(
                Box::new((**a).duplicate()),
                Box::new((**b).duplicate()),
            ),
            Instruction::Register(a) => Instruction::Register(a.duplicate()),
            Instruction::Sequence(v) => Instruction::Sequence(duplicate_all(v)),
            Instruction::Transfer(a, b, c) => Instruction::Transfer(
                a.duplicate(),
                b.duplicate(),
                c.duplicate(),
            ),
            Instruction::Unregister(a) => Instruction::Unregister(a.duplicate()),
            Instruction::SetKeyValue(a, b, c) => Instruction::SetKeyValue(
                a.duplicate(),
                b.duplicate(),
                c.duplicate(),
            ),
            Instruction::RemoveKeyValue(a, b) => Instruction::RemoveKeyValue(
                a.duplicate(),
                b.duplicate(),
            ),
            Instruction::Grant(a, b) => Instruction::Grant(a.duplicate(), b.duplicate()),
            Instruction::Revoke(a, b) => Instruction::Revoke(a.duplicate(), b.duplicate()),
        }
    }

    /// Structural equality.
    pub fn same_as(&self, other: &Instruction) -> (r: bool)
        ensures
            r == (self@ == other@),
        decreases self,
    {
        match (self, other) {
            (Instruction::Burn(a1, a2), Instruction::Burn(b1, b2)) => a1.same_as(b1) && a2.same_as(b2),
            (Instruction::Fail(a), Instruction::Fail(b)) => *a == *b,
            (Instruction::If(c1, t1, o1), Instruction::If(c2, t2, o2)) => {
                if !c1.same_as(c2) || !(**t1).same_as(&**t2) {
                    return false;
                }
                match (o1, o2) {
                    (Some(e1), Some(e2)) => (**e1).same_as(&**e2),
                    (None, None) => true,
                    _ => false,
                }
            },
            (Instruction::Mint(a1, a2), Instruction::Mint(b1, b2)) => a1.same_as(b1) && a2.same_as(b2),
            (Instruction::Pair(a1, a2), Instruction::Pair(b1, b2)) => {
                (**a1).same_as(&**b1) && (**a2).same_as(&**b2)
            },
            (Instruction::Register(a), Instruction::Register(b)) => a.same_as(b),
            (Instruction::Sequence(a), Instruction::Sequence(b)) => all_same(a, b),
            (Instruction::Transfer(a1, a2, a3), Instruction::Transfer(b1, b2, b3)) => {
                a1.same_as(b1) && a2.same_as(b2) && a3.same_as(b3)
            },
            (Instruction::Unregister(a), Instruction::Unregister(b)) => a.same_as(b),
            (Instruction::SetKeyValue(a1, a2, a3), Instruction::SetKeyValue(b1, b2, b3)) => {
                a1.same_as(b1) && a2.same_as(b2) && a3.same_as(b3)
            },
            (Instruction::RemoveKeyValue(a1, a2), Instruction::RemoveKeyValue(b1, b2)) => {
                a1.same_as(b1) && a2.same_as(b2)
            },
            (Instruction::Grant(a1, a2), Instruction::Grant(b1, b2)) => a1.same_as(b1) && a2.same_as(b2),
            (Instruction::Revoke(a1, a2), Instruction::Revoke(b1, b2)) => a1.same_as(b1) && a2.same_as(b2),
            _ => false,
        }
    }
}

/// Copies of every instruction of `v`, in order.
pub fn duplicate_all(v: &Vec<Instruction>) -> (r: Vec<Instruction>)
    ensures
        models_of(r@) == models_of(v@),
    decreases v,
{
    let mut r: Vec<Instruction> = Vec::new();
    let mut i: usize = 0;
    while i < v.len()
        invariant
            i <= v@.len(),
            r@.len() == i,
            forall|j: int| 0 <= j < i ==> #[trigger] r@[j].model() == v@[j].model(),
        decreases v@.len() - i,
    {
        let x = v[i].duplicate();
        r.push(x);
        i = i + 1;
    }
    proof {
        lemma_models_of(r@);
        lemma_models_of(v@);
        assert(models_of(r@) =~= models_of(v@));
    }
    r
}

/// Whether two sequences of instructions have the same value.
pub fn all_same(a: &Vec<Instruction>, b: &Vec<Instruction>) -> (r: bool)
    ensures
        r == (models_of(a@) == models_of(b@)),
    decreases a,
{
    proof {
        lemma_models_of(a@);
        lemma_models_of(b@);
    }
    if a.len() != b.len() {
        return false;
    }
    let mut i: usize = 0;
    while i < a.len()
        invariant
            i <= a@.len(),
            a@.len() == b@.len(),
            models_of(a@).len() == a@.len(),
            models_of(b@).len() == b@.len(),
            forall|j: int| 0 <= j < a@.len() ==> #[trigger] models_of(a@)[j] == a@[j].model(),
            forall|j: int| 0 <= j < b@.len() ==> #[trigger] models_of(b@)[j] == b@[j].model(),
            forall|j: int| 0 <= j < i ==> #[trigger] a@[j].model() == b@[j].model(),
        decreases a@.len() - i,
    {
        if !a[i].same_as(&b[i]) {
            assert(models_of(a@)[i as int] != models_of(b@)[i as int]);
            return false;
        }
        i = i + 1;
    }
    assert(models_of(a@) =~= models_of(b@));
    true
}

/// Lower-case name of an instruction's kind.
pub open spec fn kind_name(i: InstructionModel) -> Seq<char> {
    match i {
        InstructionModel::Burn(..) => "burn"@,
        InstructionModel::Fail(..) => "fail"@,
        InstructionModel::If(..) => "if"@,
        InstructionModel::Mint(..) => "mint"@,
        InstructionModel::Pair(..) => "pair"@,
        InstructionModel::Register(..) => "register"@,
        InstructionModel::Sequence(..) => "sequence"@,
        InstructionModel::Transfer(..) => "transfer"@,
        InstructionModel::Unregister(..) => "un-register"@,
        InstructionModel::SetKeyValue(..) => "set key-value pair"@,
        InstructionModel::RemoveKeyValue(..) => "remove key-value pair"@,
        InstructionModel::Grant(..) => "grant"@,
        InstructionModel::Revoke(..) => "revoke"@,
    }
}

impl Instruction {
    /// Lower-case name of the instruction's kind.
    pub fn kind(&self) -> (r: &'static str)
        ensures
            r@ == kind_name(self@),
    {
        match self {
            Instruction::Burn(..) => "burn",
            Instruction::Fail(..) => "fail",
            Instruction::If(..) => "if",
            Instruction::Mint(..) => "mint",
            Instruction::Pair(..) => "pair",
            Instruction::Register(..) => "register",
            Instruction::Sequence(..) => "sequence",
            Instruction::Transfer(..) => "transfer",
            Instruction::Unregister(..) => "un-register",
            Instruction::SetKeyValue(..) => "set key-value pair",
            Instruction::RemoveKeyValue(..) => "remove key-value pair",
            Instruction::Grant(..) => "grant",
            Instruction::Revoke(..) => "revoke",
        }
    }
}

} // verus!
