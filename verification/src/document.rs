//! The library's own model of the document store's query documents: flat
//! ordered key/value documents and the recursively nested predicate document
//! that a `WHERE` clause translates to.

use vstd::prelude::*;

verus! {

/// Comparison-operator tokens of the document store's predicate vocabulary.
#[derive(Debug, Clone, Copy, PartialEq, Eq, Structural)]
pub enum MongoOp {
    Gt,
    Gte,
    Lt,
    Lte,
    Equal,
    NotEqual,
}

/// The textual token that the store uses for each comparison operator.
pub open spec fn spec_token(op: MongoOp) -> Seq<char> {
    match op {
        MongoOp::Gt => "$gt"@,
        MongoOp::Gte => "$gte"@,
        MongoOp::Lt => "$lt"@,
        MongoOp::Lte => "$lte"@,
        MongoOp::Equal => "$eq"@,
        MongoOp::NotEqual => "$ne"@,
    }
}

/// The operator token as source text, for building the store's native query.
pub fn token_text(op: MongoOp) -> (r: &'static str)
    ensures
        r@ == spec_token(op),
{
    match op {
        MongoOp::Gt => "$gt",
        MongoOp::Gte => "$gte",
        MongoOp::Lt => "$lt",
        MongoOp::Lte => "$lte",
        MongoOp::Equal => "$eq",
        MongoOp::NotEqual => "$ne",
    }
}

/// The value side of one leaf-document entry.
#[derive(Debug, Clone, PartialEq)]
pub enum LeafVal {
    /// A bare scalar string, the equality shorthand: `{col: "v"}`.
    Bare(String),
    /// A one-entry operator mapping with a string operand: `{col: {"$ne": "v"}}`.
    OpStr(MongoOp, String),
    /// A one-entry operator mapping with an integer operand: `{col: {"$gt": n}}`.
    OpInt(MongoOp, i64),
}

/// Ghost form of `LeafVal`.
pub enum SpecLeafVal {
    Bare(Seq<char>),
    OpStr(MongoOp, Seq<char>),
    OpInt(MongoOp, i64),
}

impl View for LeafVal {
    type V = SpecLeafVal;

    open spec fn view(&self) -> SpecLeafVal {
        match self {
            LeafVal::Bare(s) => SpecLeafVal::Bare(s@),
            LeafVal::OpStr(op, s) => SpecLeafVal::OpStr(*op, s@),
            LeafVal::OpInt(op, n) => SpecLeafVal::OpInt(*op, *n),
        }
    }
}

impl DeepView for LeafVal {
    type V = SpecLeafVal;

    open spec fn deep_view(&self) -> SpecLeafVal {
        self.view()
    }
}

/// Inserting into an ordered document: a new key is appended, an existing key
/// keeps its position and has its value replaced.
pub open spec fn spec_doc_insert<V>(
    s: Seq<(Seq<char>, V)>,
    key: Seq<char>,
    val: V,
) -> Seq<(Seq<char>, V)>
    decreases s.len(),
{
    if s.len() == 0 {
        seq![(key, val)]
    } else if s[0].0 == key {
        seq![(key, val)] + s.subrange(1, s.len() as int)
    } else {
        seq![s[0]] + spec_doc_insert(s.subrange(1, s.len() as int), key, val)
    }
}

/// When the key is absent, an insert appends the new entry at the end.
pub proof fn lemma_doc_insert_absent<V>(s: Seq<(Seq<char>, V)>, key: Seq<char>, val: V)
    requires
        forall|j: int| 0 <= j < s.len() ==> s[j].0 != key,
    ensures
        spec_doc_insert(s, key, val) == s.push((key, val)),
    decreases s.len(),
{
    if s.len() == 0 {
        assert(spec_doc_insert(s, key, val) =~= s.push((key, val)));
    } else {
        let tail = s.subrange(1, s.len() as int);
        assert forall|j: int| 0 <= j < tail.len() implies tail[j].0 != key by {
            assert(tail[j] == s[j + 1]);
        }
        lemma_doc_insert_absent(tail, key, val);
        assert(spec_doc_insert(s, key, val) =~= s.push((key, val)));
    }
}

/// When the key first occurs at position `i`, an insert replaces the value
/// there and leaves everything else unchanged.
pub proof fn lemma_doc_insert_found<V>(s: Seq<(Seq<char>, V)>, key: Seq<char>, val: V, i: int)
    requires
        0 <= i < s.len(),
        s[i].0 == key,
        forall|j: int| 0 <= j < i ==> s[j].0 != key,
    ensures
        spec_doc_insert(s, key, val) == s.update(i, (key, val)),
    decreases s.len(),
{
    if i == 0 {
        assert(spec_doc_insert(s, key, val) =~= s.update(0, (key, val)));
    } else {
        let tail = s.subrange(1, s.len() as int);
        assert forall|j: int| 0 <= j < i - 1 implies tail[j].0 != key by {
            assert(tail[j] == s[j + 1]);
        }
        assert(tail[i - 1] == s[i]);
        lemma_doc_insert_found(tail, key, val, i - 1);
        assert(spec_doc_insert(s, key, val) =~= s.update(i, (key, val)));
    }
}

/// A flat ordered document whose values are leaf-entry values; the leaves of
/// the predicate document accumulate in one of these.
#[derive(Debug, Clone, PartialEq)]
pub struct LeafDoc {
    pub entries: Vec<(String, LeafVal)>,
}

impl View for LeafDoc {
    type V = Seq<(Seq<char>, SpecLeafVal)>;

    open spec fn view(&self) -> Seq<(Seq<char>, SpecLeafVal)> {
        self.entries.deep_view()
    }
}

impl DeepView for LeafDoc {
    type V = Seq<(Seq<char>, SpecLeafVal)>;

    open spec fn deep_view(&self) -> Seq<(Seq<char>, SpecLeafVal)> {
        self.view()
    }
}

impl LeafDoc {
    /// The empty document.
    pub fn new() -> (r: LeafDoc)
        ensures
            r@ == Seq::<(Seq<char>, SpecLeafVal)>::empty(),
    {
        let r = LeafDoc { entries: Vec::new() };
        proof {
            assert(r@ =~= Seq::<(Seq<char>, SpecLeafVal)>::empty());
        }
        r
    }

    pub fn len(&self) -> (r: usize)
        ensures
            r == self@.len(),
    {
        self.entries.len()
    }

    /// Ordered insert with in-place replacement of an existing key.
    pub fn insert(&mut self, key: String, val: LeafVal)
        ensures
            final(self)@ == spec_doc_insert(old(self)@, key@, val@),
    {
        let ghost old_view = old(self)@;
        let n = self.entries.len();
        let mut i: usize = 0;
        while i < n
            invariant
                n == self.entries.len(),
                i <= n,
                self@ == old_view,
                old_view == old(self)@,
                old_view.len() == n,
                forall|j: int| 0 <= j < i ==> old_view[j].0 != key@,
            decreases n - i,
        {
            if self.entries[i].0 == key {
                proof {
                    assert(old_view[i as int].0 == key@);
                    lemma_doc_insert_found(old_view, key@, val@, i as int);
                }
                self.entries.set(i, (key, val));
                proof {
                    assert(self@ =~= old_view.update(i as int, (key@, val@)));
                }
                return;
            }
            proof {
                assert(old_view[i as int].0 != key@);
            }
            i = i + 1;
        }
        proof {
            lemma_doc_insert_absent(old_view, key@, val@);
        }
        self.entries.push((key, val));
        proof {
            assert(self@ =~= old_view.push((key@, val@)));
        }
    }
}

/// A flat ordered document whose values are integers: the shape of the sort
/// specification (directions 1 and -1) and of the projection (markers 1).
#[derive(Debug, Clone, PartialEq)]
pub struct IntDoc {
    pub entries: Vec<(String, i64)>,
}

impl View for IntDoc {
    type V = Seq<(Seq<char>, i64)>;

    open spec fn view(&self) -> Seq<(Seq<char>, i64)> {
        self.entries.deep_view()
    }
}

impl DeepView for IntDoc {
    type V = Seq<(Seq<char>, i64)>;

    open spec fn deep_view(&self) -> Seq<(Seq<char>, i64)> {
        self.view()
    }
}

impl IntDoc {
    /// The empty document.
    pub fn new() -> (r: IntDoc)
        ensures
            r@ == Seq::<(Seq<char>, i64)>::empty(),
    {
        let r = IntDoc { entries: Vec::new() };
        proof {
            assert(r@ =~= Seq::<(Seq<char>, i64)>::empty());
        }
        r
    }

    pub fn len(&self) -> (r: usize)
        ensures
            r == self@.len(),
    {
        self.entries.len()
    }

    /// Ordered insert with in-place replacement of an existing key.
    pub fn insert(&mut self, key: String, val: i64)
        ensures
            final(self)@ == spec_doc_insert(old(self)@, key@, val),
    {
        let ghost old_view = old(self)@;
        let n = self.entries.len();
        let mut i: usize = 0;
        while i < n
            invariant
                n == self.entries.len(),
                i <= n,
                self@ == old_view,
                old_view == old(self)@,
                old_view.len() == n,
                forall|j: int| 0 <= j < i ==> old_view[j].0 != key@,
            decreases n - i,
        {
            if self.entries[i].0 == key {
                proof {
                    assert(old_view[i as int].0 == key@);
                    lemma_doc_insert_found(old_view, key@, val, i as int);
                }
                self.entries.set(i, (key, val));
                proof {
                    assert(self@ =~= old_view.update(i as int, (key@, val)));
                }
                return;
            }
            proof {
                assert(old_view[i as int].0 != key@);
            }
            i = i + 1;
        }
        proof {
            lemma_doc_insert_absent(old_view, key@, val);
        }
        self.entries.push((key, val));
        proof {
            assert(self@ =~= old_view.push((key@, val)));
        }
    }
}

/// A predicate document: either a logical combinator over an ordered pair of
/// sub-predicates, or a flat document of comparison leaves.
#[derive(Debug, PartialEq)]
pub enum Pred {
    /// `{"$and": [left, right]}`
    And(Box<Pred>, Box<Pred>),
    /// `{"$or": [left, right]}`
    Or(Box<Pred>, Box<Pred>),
    /// A flat document of leaf entries.
    Leaf(LeafDoc),
}

/// Ghost form of `Pred`.
pub enum SpecPred {
    And(Box<SpecPred>, Box<SpecPred>),
    Or(Box<SpecPred>, Box<SpecPred>),
    Leaf(Seq<(Seq<char>, SpecLeafVal)>),
}

/// Ghost form of a predicate document.
pub open spec fn pred_view(p: Pred) -> SpecPred
    decreases p,
{
    match p {
        Pred::And(l, r) => SpecPred::And(Box::new(pred_view(*l)), Box::new(pred_view(*r))),
        Pred::Or(l, r) => SpecPred::Or(Box::new(pred_view(*l)), Box::new(pred_view(*r))),
        Pred::Leaf(d) => SpecPred::Leaf(d@),
    }
}

impl View for Pred {
    type V = SpecPred;

    open spec fn view(&self) -> SpecPred {
        pred_view(*self)
    }
}

impl DeepView for Pred {
    type V = SpecPred;

    open spec fn deep_view(&self) -> SpecPred {
        pred_view(*self)
    }
}

} // verus!
