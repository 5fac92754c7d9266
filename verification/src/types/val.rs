//! The universal runtime value type.
//!
//! Every message, state element, and computation result in the AVM is a [`Val`].
use super::ids::{object_id_text, tx_id_text, ObjectId, TxId};
use crate::text::{decimal_text, push_decimal};
use vstd::prelude::*;
use vstd::std_specs::convert::FromSpecImpl;

verus! {

/// The universal runtime value.
///
/// All AVM data flows through this type: messages between objects, internal
/// state, pure function arguments and results.
#[derive(Debug, PartialEq)]
pub enum Val {
    /// Natural number (non-negative integer).
    Nat(u64),
    /// Boolean value.
    Bool(bool),
    /// UTF-8 string.
    Str(String),
    /// Ordered sequence of values.
    List(Vec<Val>),
    /// Pair of two values.
    Pair(Box<Val>, Box<Val>),
    /// Absence of a value (the `nothing` case of `Maybe`).
    Nothing,
    /// Presence of a value (the `just` case of `Maybe`).
    Just(Box<Val>),
    /// Reference to an AVM object.
    ObjectRef(ObjectId),
    /// Reference to a transaction.
    TxRef(TxId),
}

/// Alias: inputs to object behaviors.
pub type Input = Val;

/// Alias: outputs from object behaviors.
pub type Output = Val;

/// The mathematical model of a [`Val`]: strings are character sequences and
/// lists are sequences of models.
pub ghost enum ValView {
    Nat(u64),
    Bool(bool),
    Str(Seq<char>),
    List(Seq<ValView>),
    Pair(Box<ValView>, Box<ValView>),
    Nothing,
    Just(Box<ValView>),
    ObjectRef(ObjectId),
    TxRef(TxId),
}

/// The model of a value.
pub open spec fn val_view(v: Val) -> ValView
    decreases v,
{
    match v {
        Val::Nat(n) => ValView::Nat(n),
        Val::Bool(b) => ValView::Bool(b),
        Val::Str(s) => ValView::Str(s@),
        Val::List(items) => ValView::List(vals_view(items@)),
        Val::Pair(a, b) => ValView::Pair(Box::new(val_view(*a)), Box::new(val_view(*b))),
        Val::Nothing => ValView::Nothing,
        Val::Just(inner) => ValView::Just(Box::new(val_view(*inner))),
        Val::ObjectRef(id) => ValView::ObjectRef(id),
        Val::TxRef(id) => ValView::TxRef(id),
    }
}

/// The models of a sequence of values, element by element.
pub open spec fn vals_view(items: Seq<Val>) -> Seq<ValView>
    decreases items,
{
    if items.len() == 0 {
        Seq::empty()
    } else {
        vals_view(items.drop_last()).push(val_view(items.last()))
    }
}

impl View for Val {
    type V = ValView;

    open spec fn view(&self) -> ValView {
        val_view(*self)
    }
}

/// `vals_view` maps element by element.
pub broadcast proof fn lemma_vals_view(items: Seq<Val>)
    ensures
        #[trigger] vals_view(items).len() == items.len(),
        forall|i: int| 0 <= i < items.len() ==> vals_view(items)[i] == val_view(#[trigger] items[i]),
    decreases items.len(),
{
    if items.len() > 0 {
        let rest = items.drop_last();
        lemma_vals_view(rest);
        assert forall|i: int| 0 <= i < items.len() implies vals_view(items)[i] == val_view(
            #[trigger] items[i],
        ) by {
            if i < items.len() - 1 {
                assert(rest[i] == items[i]);
            }
        }
    }
}

/// Two sequences with equal element models have equal models.
pub proof fn lemma_vals_view_ext(a: Seq<Val>, b: Seq<Val>)
    requires
        a.len() == b.len(),
        forall|i: int| 0 <= i < a.len() ==> val_view(#[trigger] a[i]) == val_view(b[i]),
    ensures
        vals_view(a) == vals_view(b),
{
    lemma_vals_view(a);
    lemma_vals_view(b);
    assert forall|i: int| 0 <= i < a.len() implies vals_view(a)[i] == vals_view(b)[i] by {
        assert(val_view(a[i]) == val_view(b[i]));
    }
    assert(vals_view(a) =~= vals_view(b));
}

/// The display text of a value: numbers in decimal, booleans as `true` or
/// `false`, strings in double quotes, lists as `[a, b]`, pairs as `(a, b)`,
/// `nothing`, `just v`, and references as `obj:N` and `tx:N`.
pub open spec fn val_text(v: ValView) -> Seq<char>
    decreases v,
{
    match v {
        ValView::Nat(n) => decimal_text(n as nat),
        ValView::Bool(b) => if b {
            "true"@
        } else {
            "false"@
        },
        ValView::Str(s) => "\""@ + s + "\""@,
        ValView::List(items) => "["@ + vals_text(items) + "]"@,
        ValView::Pair(a, b) => "("@ + val_text(*a) + ", "@ + val_text(*b) + ")"@,
        ValView::Nothing => "nothing"@,
        ValView::Just(inner) => "just "@ + val_text(*inner),
        ValView::ObjectRef(id) => object_id_text(id),
        ValView::TxRef(id) => tx_id_text(id),
    }
}

/// The texts of `items` joined by `, `.
pub open spec fn vals_text(items: Seq<ValView>) -> Seq<char>
    decreases items,
{
    if items.len() == 0 {
        Seq::empty()
    } else if items.len() == 1 {
        val_text(items[0])
    } else {
        vals_text(items.drop_last()) + ", "@ + val_text(items.last())
    }
}

/// A copy of `v`, equal to it.
pub fn copy_val(v: &Val) -> (r: Val)
    ensures
        r@ == v@,
    decreases v,
{
    match v {
        Val::Nat(n) => Val::Nat(*n),
        Val::Bool(b) => Val::Bool(*b),
        Val::Str(s) => Val::Str(s.clone()),
        Val::List(items) => Val::List(copy_vals(items)),
        Val::Pair(a, b) => Val::Pair(Box::new(copy_val(a)), Box::new(copy_val(b))),
        Val::Nothing => Val::Nothing,
        Val::Just(inner) => Val::Just(Box::new(copy_val(inner))),
        Val::ObjectRef(id) => Val::ObjectRef(*id),
        Val::TxRef(id) => Val::TxRef(*id),
    }
}

/// A copy of the vector `items`, equal to it element by element.
pub fn copy_vals(items: &Vec<Val>) -> (r: Vec<Val>)
    ensures
        vals_view(r@) == vals_view(items@),
        r@.len() == items@.len(),
    decreases items,
{
    let mut r: Vec<Val> = Vec::new();
    let mut i: usize = 0;
    while i < items.len()
        invariant
            i <= items.len(),
            r@.len() == i,
            forall|j: int| 0 <= j < i ==> val_view(#[trigger] r@[j]) == val_view(items@[j]),
        decreases items.len() - i,
    {
        proof {
            assert(decreases_to!(items => items@[i as int]));
        }
        r.push(copy_val(&items[i]));
        i = i + 1;
    }
    proof {
        lemma_vals_view_ext(r@, items@);
    }
    r
}

impl Clone for Val {
    fn clone(&self) -> (r: Self)
        ensures
            r@ == self@,
    {
        copy_val(self)
    }
}

impl Val {
    /// Create a string value.
    pub fn str(s: &str) -> (v: Self)
        ensures
            v@ == ValView::Str(s@),
    {
        Val::Str(s.to_owned())
    }

    /// Create a list value.
    pub fn list(items: Vec<Val>) -> (v: Self)
        ensures
            v == Val::List(items),
    {
        Val::List(items)
    }

    /// Create a pair value.
    pub fn pair(a: Val, b: Val) -> (v: Self)
        ensures
            v == Val::Pair(Box::new(a), Box::new(b)),
    {
        Val::Pair(Box::new(a), Box::new(b))
    }

    /// Create a `Just` value.
    pub fn just(v: Val) -> (r: Self)
        ensures
            r == Val::Just(Box::new(v)),
    {
        Val::Just(Box::new(v))
    }

    /// Returns `true` if this is `Nothing`.
    pub fn is_nothing(&self) -> (b: bool)
        ensures
            b == (*self is Nothing),
    {
        match self {
            Val::Nothing => true,
            _ => false,
        }
    }

    /// Try to extract a natural number.
    pub fn as_nat(&self) -> (r: Option<u64>)
        ensures
            r == (match *self {
                Val::Nat(n) => Some(n),
                _ => None,
            }),
    {
        match self {
            Val::Nat(n) => Some(*n),
            _ => None,
        }
    }

    /// Try to extract a boolean.
    pub fn as_bool(&self) -> (r: Option<bool>)
        ensures
            r == (match *self {
                Val::Bool(b) => Some(b),
                _ => None,
            }),
    {
        match self {
            Val::Bool(b) => Some(*b),
            _ => None,
        }
    }

    /// Try to extract a string reference.
    pub fn as_str(&self) -> (r: Option<&str>)
        ensures
            match *self {
                Val::Str(s) => r is Some && r->0@ == s@,
                _ => r is None,
            },
    {
        match self {
            Val::Str(s) => Some(s.as_str()),
            _ => None,
        }
    }

    /// Try to extract an [`ObjectId`] from an `ObjectRef`.
    pub fn as_object_id(&self) -> (r: Option<ObjectId>)
        ensures
            r == (match *self {
                Val::ObjectRef(id) => Some(id),
                _ => None,
            }),
    {
        match self {
            Val::ObjectRef(id) => Some(*id),
            _ => None,
        }
    }

    /// Try to extract a [`TxId`] from a `TxRef`.
    pub fn as_tx_id(&self) -> (r: Option<TxId>)
        ensures
            r == (match *self {
                Val::TxRef(id) => Some(id),
                _ => None,
            }),
    {
        match self {
            Val::TxRef(id) => Some(*id),
            _ => None,
        }
    }

    /// The value inside a `Just`; any other value is kept as it is.
    pub fn unwrap_just_or_self(self) -> (r: Val)
        ensures
            r == (match self {
                Val::Just(inner) => *inner,
                other => other,
            }),
    {
        match self {
            Val::Just(inner) => *inner,
            other => other,
        }
    }

    /// Try to unwrap a `Just`, returning the inner value.
    pub fn unwrap_just(self) -> (r: Option<Val>)
        ensures
            r == (match self {
                Val::Just(inner) => Some(*inner),
                _ => None,
            }),
    {
        match self {
            Val::Just(inner) => Some(*inner),
            _ => None,
        }
    }

    /// Appends the display text of this value to `out`.
    pub fn write_to(&self, out: &mut String)
        ensures
            final(out)@ == old(out)@ + val_text(self@),
        decreases self,
    {
        match self {
            Val::Nat(n) => push_decimal(out, *n),
            Val::Bool(b) => {
                if *b {
                    out.append("true");
                } else {
                    out.append("false");
                }
            },
            Val::Str(s) => {
                out.append("\"");
                out.append(s.as_str());
                out.append("\"");
            },
            Val::List(items) => {
                out.append("[");
                let ghost start = out@;
                let mut i: usize = 0;
                while i < items.len()
                    invariant
                        i <= items.len(),
                        *self == Val::List(*items),
                        out@ == start + vals_text(vals_view(items@.take(i as int))),
                    decreases items.len() - i,
                {
                    proof {
                        let ghost me = *self;
                        let ghost v = *items;
                        assert(decreases_to!(me => me->List_0));
                        assert(decreases_to!(v => v@[i as int]));
                        assert(items@.take(i + 1).drop_last() =~= items@.take(i as int));
                    }
                    if i > 0 {
                        out.append(", ");
                    }
                    items[i].write_to(out);
                    proof {
                        let pre = items@.take(i as int);
                        let post = items@.take(i + 1);
                        lemma_vals_view(pre);
                        lemma_vals_view(post);
                        assert(post.last() == items@[i as int]);
                        assert(vals_view(post) == vals_view(pre).push(val_view(items@[i as int])));
                        let vp = vals_view(post);
                        assert(vp.drop_last() =~= vals_view(pre));
                        assert(vp.last() == val_view(items@[i as int]));
                    }
                    i = i + 1;
                }
                proof {
                    assert(items@.take(items.len() as int) =~= items@);
                }
                out.append("]");
            },
            Val::Pair(a, b) => {
                out.append("(");
                a.write_to(out);
                out.append(", ");
                b.write_to(out);
                out.append(")");
            },
            Val::Nothing => out.append("nothing"),
            Val::Just(inner) => {
                out.append("just ");
                inner.write_to(out);
            },
            Val::ObjectRef(id) => id.write_to(out),
            Val::TxRef(id) => id.write_to(out),
        }
    }

    /// The display text of this value, e.g. `[(1, "a"), just false]`.
    pub fn display_string(&self) -> (s: String)
        ensures
            s@ == val_text(self@),
    {
        let mut s = String::new();
        self.write_to(&mut s);
        s
    }
}

impl From<u64> for Val {
    fn from(n: u64) -> (v: Self) {
        Val::Nat(n)
    }
}

impl FromSpecImpl<u64> for Val {
    open spec fn obeys_from_spec() -> bool {
        true
    }

    open spec fn from_spec(n: u64) -> Val {
        Val::Nat(n)
    }
}

impl From<bool> for Val {
    fn from(b: bool) -> (v: Self) {
        Val::Bool(b)
    }
}

impl FromSpecImpl<bool> for Val {
    open spec fn obeys_from_spec() -> bool {
        true
    }

    open spec fn from_spec(b: bool) -> Val {
        Val::Bool(b)
    }
}

impl From<String> for Val {
    fn from(s: String) -> (v: Self) {
        Val::Str(s)
    }
}

impl FromSpecImpl<String> for Val {
    open spec fn obeys_from_spec() -> bool {
        true
    }

    open spec fn from_spec(s: String) -> Val {
        Val::Str(s)
    }
}

impl From<&str> for Val {
    fn from(s: &str) -> (v: Self)
        ensures
            v@ == ValView::Str(s@),
    {
        Val::Str(s.to_owned())
    }
}

impl FromSpecImpl<&str> for Val {
    /// A string slice is copied into a fresh `String`, which no spec
    /// function can name, so only the model of the result is stated (in the
    /// `ensures` of `from`).
    open spec fn obeys_from_spec() -> bool {
        false
    }

    open spec fn from_spec(s: &str) -> Val {
        Val::Nothing
    }
}

impl From<ObjectId> for Val {
    fn from(id: ObjectId) -> (v: Self) {
        Val::ObjectRef(id)
    }
}

impl FromSpecImpl<ObjectId> for Val {
    open spec fn obeys_from_spec() -> bool {
        true
    }

    open spec fn from_spec(id: ObjectId) -> Val {
        Val::ObjectRef(id)
    }
}

impl From<TxId> for Val {
    fn from(id: TxId) -> (v: Self) {
        Val::TxRef(id)
    }
}

impl FromSpecImpl<TxId> for Val {
    open spec fn obeys_from_spec() -> bool {
        true
    }

    open spec fn from_spec(id: TxId) -> Val {
        Val::TxRef(id)
    }
}

} // verus!
