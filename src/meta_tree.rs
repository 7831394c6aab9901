use vstd::prelude::*;

use crate::containers::reverse;
use crate::convert::ToValue;
use crate::json::{decimal, write_decimal};
use crate::value::{Annotated, Meta, Value};

verus! {

/// The metadata of a value and of its descendants, keyed as the value's JSON text keys them:
/// array elements by decimal index, object entries by key. Only non-empty subtrees are kept.
#[derive(Debug, PartialEq)]
pub struct MetaTree {
    pub meta: Meta,
    pub children: Vec<(String, MetaTree)>,
}

/// A meta tree as plain values.
pub struct MetaTreeModel {
    pub meta: Meta,
    pub children: Seq<(Seq<char>, MetaTreeModel)>,
}

/// A tree with no metadata and no subtrees.
pub open spec fn model_is_empty(t: MetaTreeModel) -> bool {
    t.meta.is_empty_spec() && t.children.len() == 0
}

/// The meta tree of an annotated value.
pub open spec fn meta_tree_of(a: Annotated<Value>) -> MetaTreeModel
    decreases a,
{
    MetaTreeModel {
        meta: a.1,
        children: match a.0 {
            Some(Value::Array(items)) => array_meta(items@),
            Some(Value::Object(entries)) => object_meta(entries@),
            _ => Seq::empty(),
        },
    }
}

/// The non-empty meta trees of array elements, keyed by decimal index.
pub open spec fn array_meta(items: Seq<Annotated<Value>>) -> Seq<(Seq<char>, MetaTreeModel)>
    decreases items,
{
    if items.len() == 0 {
        Seq::empty()
    } else {
        let rest = array_meta(items.drop_last());
        let t = meta_tree_of(items.last());
        if model_is_empty(t) {
            rest
        } else {
            rest.push((decimal((items.len() - 1) as nat), t))
        }
    }
}

/// The non-empty meta trees of object entries, keyed by the entries' keys.
pub open spec fn object_meta(entries: Seq<(String, Annotated<Value>)>) -> Seq<(Seq<char>, MetaTreeModel)>
    decreases entries,
{
    if entries.len() == 0 {
        Seq::empty()
    } else {
        let rest = object_meta(entries.drop_last());
        let t = meta_tree_of(entries.last().1);
        if model_is_empty(t) {
            rest
        } else {
            rest.push((entries.last().0@, t))
        }
    }
}

/// A meta tree as plain values.
pub open spec fn tree_model(t: MetaTree) -> MetaTreeModel
    decreases t,
{
    MetaTreeModel { meta: t.meta, children: children_model(t.children@) }
}

/// Subtrees as plain values.
pub open spec fn children_model(cs: Seq<(String, MetaTree)>) -> Seq<(Seq<char>, MetaTreeModel)>
    decreases cs,
{
    if cs.len() == 0 {
        Seq::empty()
    } else {
        children_model(cs.drop_last()).push((cs.last().0@, tree_model(cs.last().1)))
    }
}

proof fn lemma_children_model_len(cs: Seq<(String, MetaTree)>)
    ensures
        children_model(cs).len() == cs.len(),
    decreases cs.len(),
{
    if cs.len() > 0 {
        lemma_children_model_len(cs.drop_last());
    }
}

impl MetaTree {
    /// Whether the tree holds no metadata and no subtrees.
    pub fn is_empty(&self) -> (r: bool)
        ensures
            r == model_is_empty(tree_model(*self)),
    {
        proof {
            lemma_children_model_len(self.children@);
        }
        self.meta.is_empty() && self.children.len() == 0
    }
}

/// Takes the metadata out of an annotated value, as a tree keyed like its JSON text.
pub fn extract_meta_tree(a: Annotated<Value>) -> (r: MetaTree)
    ensures
        tree_model(r) == meta_tree_of(a),
    decreases a,
{
    let Annotated(value, meta) = a;
    let children = match value {
        Some(Value::Array(items)) => {
            let ghost inner = Value::Array(items);
            extract_array_meta(items, Ghost(inner))
        },
        Some(Value::Object(entries)) => {
            let ghost inner = Value::Object(entries);
            extract_object_meta(entries, Ghost(inner))
        },
        _ => {
            let c: Vec<(String, MetaTree)> = Vec::new();
            assert(children_model(c@) =~= Seq::<(Seq<char>, MetaTreeModel)>::empty());
            c
        },
    };
    MetaTree { meta, children }
}

/// The meta trees of a value's children, keyed like its JSON text.
pub fn extract_child_meta(value: Value) -> (r: Vec<(String, MetaTree)>)
    ensures
        children_model(r@) == match value {
            Value::Array(items) => array_meta(items@),
            Value::Object(entries) => object_meta(entries@),
            _ => Seq::empty(),
        },
{
    let t = extract_meta_tree(Annotated(Some(value), Meta::new()));
    t.children
}

/// The meta tree of a typed value: that of the value it is written as.
pub fn extract_meta_tree_of<T: ToValue>(a: Annotated<T>) -> (r: MetaTree)
    ensures
        exists|v: Annotated<Value>| T::to_value_spec(a, v) && tree_model(r) == meta_tree_of(v),
{
    let v = T::to_value(a);
    let ghost g = v;
    let r = extract_meta_tree(v);
    assert(T::to_value_spec(a, g) && tree_model(r) == meta_tree_of(g));
    r
}

fn index_key(i: usize) -> (r: String)
    ensures
        r@ == decimal(i as nat),
{
    let mut s = String::new();
    write_decimal(i as u64, &mut s);
    s
}

fn extract_array_meta(items: Vec<Annotated<Value>>, Ghost(whole): Ghost<Value>) -> (r: Vec<(String, MetaTree)>)
    requires
        whole == Value::Array(items),
    ensures
        children_model(r@) == array_meta(items@),
    decreases whole,
{
    let ghost n = items@.len();
    let ghost orig = items@;
    let ghost param = items;
    let len = items.len();
    let mut rev = reverse(items);
    let ghost rev0 = rev@;
    let mut out: Vec<(String, MetaTree)> = Vec::new();
    let mut i: usize = 0;
    assert(orig.subrange(0, 0) =~= Seq::<Annotated<Value>>::empty());
    assert forall|k: int| 0 <= k < n implies decreases_to!(whole => #[trigger] param[k]) by {
        assert(decreases_to!(whole => whole->Array_0));
        vstd::std_specs::vec::axiom_vec_index_decreases(param, k);
    }
    assert(children_model(out@) =~= Seq::<(Seq<char>, MetaTreeModel)>::empty());
    while rev.len() > 0
        invariant
            rev@ == rev0.subrange(0, rev@.len() as int),
            rev0.len() == n,
            orig.len() == n,
            orig == param@,
            forall|k: int| 0 <= k < n ==> decreases_to!(whole => #[trigger] param[k]),
            forall|k: int| 0 <= k < n ==> #[trigger] rev0[k] == orig[n - 1 - k],
            i + rev@.len() == n,
            n == len,
            children_model(out@) == array_meta(orig.subrange(0, i as int)),
        decreases rev@.len(),
    {
        let x = rev.pop().unwrap();
        assert(x == orig[i as int]);
        assert(x == param[i as int]);
        assert(orig.subrange(0, i + 1).drop_last() =~= orig.subrange(0, i as int));
        proof {
            assert(decreases_to!(whole => param[i as int]));
        }
        let t = extract_meta_tree(x);
        if !t.is_empty() {
            let key = index_key(i);
            let ghost before = out@;
            out.push((key, t));
            assert(out@.drop_last() =~= before);
        }
        i += 1;
        assert(rev@ =~= rev0.subrange(0, rev@.len() as int));
    }
    assert(orig.subrange(0, i as int) =~= orig);
    out
}

fn extract_object_meta(entries: Vec<(String, Annotated<Value>)>, Ghost(whole): Ghost<Value>) -> (r: Vec<(String, MetaTree)>)
    requires
        whole == Value::Object(entries),
    ensures
        children_model(r@) == object_meta(entries@),
    decreases whole,
{
    let ghost n = entries@.len();
    let ghost orig = entries@;
    let ghost param = entries;
    let len = entries.len();
    let mut rev = reverse(entries);
    let ghost rev0 = rev@;
    let mut out: Vec<(String, MetaTree)> = Vec::new();
    let mut i: usize = 0;
    assert(orig.subrange(0, 0) =~= Seq::<(String, Annotated<Value>)>::empty());
    assert forall|k: int| 0 <= k < n implies decreases_to!(whole => #[trigger] param[k]) by {
        assert(decreases_to!(whole => whole->Object_0));
        vstd::std_specs::vec::axiom_vec_index_decreases(param, k);
    }
    assert(children_model(out@) =~= Seq::<(Seq<char>, MetaTreeModel)>::empty());
    while rev.len() > 0
        invariant
            rev@ == rev0.subrange(0, rev@.len() as int),
            rev0.len() == n,
            orig.len() == n,
            orig == param@,
            forall|k: int| 0 <= k < n ==> decreases_to!(whole => #[trigger] param[k]),
            forall|k: int| 0 <= k < n ==> #[trigger] rev0[k] == orig[n - 1 - k],
            i + rev@.len() == n,
            n == len,
            children_model(out@) == object_meta(orig.subrange(0, i as int)),
        decreases rev@.len(),
    {
        let (key, x) = rev.pop().unwrap();
        assert(key == orig[i as int].0 && x == orig[i as int].1);
        assert(x == param[i as int].1);
        assert(orig.subrange(0, i + 1).drop_last() =~= orig.subrange(0, i as int));
        proof {
            assert(decreases_to!(whole => param[i as int]));
        }
        let t = extract_meta_tree(x);
        if !t.is_empty() {
            let ghost before = out@;
            out.push((key, t));
            assert(out@.drop_last() =~= before);
        }
        i += 1;
        assert(rev@ =~= rev0.subrange(0, rev@.len() as int));
    }
    assert(orig.subrange(0, i as int) =~= orig);
    out
}

} // verus!
