//! Texts with named places that are filled with values in one pass.
//!
//! A place is written as a name between braces. A value that is filled in
//! is not read again, so a brace inside a value names no place.

use crate::text::{copy_range, find_from, first_index_of, push_all, string_of, chars_of};
use vstd::prelude::*;

verus! {

/// A name and the value that fills its places.
#[derive(Debug, Clone)]
pub struct Binding {
    pub name: String,
    pub value: String,
}

/// Mathematical value of a `Binding`.
pub struct BindingView {
    pub name: Seq<char>,
    pub value: Seq<char>,
}

impl View for Binding {
    type V = BindingView;

    open spec fn view(&self) -> BindingView {
        BindingView { name: self.name@, value: self.value@ }
    }
}

/// The values of a sequence of bindings.
pub open spec fn binding_views(v: Seq<Binding>) -> Seq<BindingView> {
    v.map_values(|b: Binding| b@)
}

impl Binding {
    /// The binding of `value` to `name`.
    pub fn new(name: &str, value: &str) -> (b: Binding)
        ensures
            b@ == (BindingView { name: name@, value: value@ }),
    {
        Binding { name: name.to_owned(), value: value.to_owned() }
    }
}

/// Place of the first binding of `name`, or the number of bindings.
pub open spec fn binding_index(bindings: Seq<BindingView>, name: Seq<char>) -> int
    decreases bindings.len(),
{
    if bindings.len() == 0 || bindings[0].name == name {
        0
    } else {
        1 + binding_index(bindings.drop_first(), name)
    }
}

/// `binding_index` is the least place of a binding of `name`.
pub proof fn lemma_binding_index(bindings: Seq<BindingView>, name: Seq<char>)
    ensures
        0 <= binding_index(bindings, name) <= bindings.len(),
        binding_index(bindings, name) < bindings.len() ==> bindings[binding_index(
            bindings,
            name,
        )].name == name,
        forall|i: int| 0 <= i < binding_index(bindings, name) ==> bindings[i].name != name,
    decreases bindings.len(),
{
    if bindings.len() == 0 || bindings[0].name == name {
    } else {
        let rest = bindings.drop_first();
        lemma_binding_index(rest, name);
        assert forall|i: int| 0 <= i < binding_index(bindings, name) implies bindings[i].name
            != name by {
            if i > 0 {
                assert(bindings[i] == rest[i - 1]);
            }
        }
    }
}

/// The text with its places filled. A place is an opening brace, a name
/// that some binding has, and the next closing brace; it is replaced by
/// the value of the first binding of that name. Everything else stays.
pub open spec fn fill(template: Seq<char>, bindings: Seq<BindingView>) -> Seq<char>
    decreases template.len(),
{
    if template.len() == 0 {
        Seq::empty()
    } else {
        let close = first_index_of(template, '}');
        let k = binding_index(bindings, template.subrange(1, close));
        if template[0] == '{' && 1 <= close < template.len() && 0 <= k < bindings.len() {
            bindings[k].value + fill(template.skip(close + 1), bindings)
        } else {
            seq![template[0]] + fill(template.drop_first(), bindings)
        }
    }
}

/// Finds the first binding of `name`.
fn find_binding(bindings: &Vec<Binding>, name: &[char]) -> (k: usize)
    ensures
        k == binding_index(binding_views(bindings@), name@),
        k <= bindings.len(),
{
    let mut i: usize = 0;
    let ghost views = binding_views(bindings@);
    while i < bindings.len()
        invariant
            i <= bindings.len(),
            views == binding_views(bindings@),
            forall|j: int| 0 <= j < i ==> views[j].name != name@,
        decreases bindings.len() - i,
    {
        let candidate = chars_of(bindings[i].name.as_str());
        assert(views[i as int].name == candidate@);
        if same_text(candidate.as_slice(), name) {
            proof {
                lemma_binding_index(views, name@);
            }
            return i;
        }
        i += 1;
    }
    proof {
        lemma_binding_index(views, name@);
    }
    i
}

/// Whether two texts are equal.
pub fn same_text(a: &[char], b: &[char]) -> (same: bool)
    ensures
        same == (a@ == b@),
{
    if a.len() != b.len() {
        return false;
    }
    let mut i: usize = 0;
    while i < a.len()
        invariant
            i <= a.len(),
            a.len() == b.len(),
            forall|j: int| 0 <= j < i ==> a@[j] == b@[j],
        decreases a.len() - i,
    {
        if a[i] != b[i] {
            return false;
        }
        i += 1;
    }
    assert(a@ =~= b@);
    true
}

/// Fills the places of `template`.
pub fn filled(template: &str, bindings: &Vec<Binding>) -> (text: String)
    ensures
        text@ == fill(template@, binding_views(bindings@)),
{
    let source = chars_of(template);
    let mut out: Vec<char> = Vec::new();
    let mut i: usize = 0;
    let ghost views = binding_views(bindings@);
    assert(source@.skip(0) =~= source@);
    while i < source.len()
        invariant
            i <= source.len(),
            views == binding_views(bindings@),
            fill(source@, views) == out@ + fill(source@.skip(i as int), views),
        decreases source.len() - i,
    {
        let ghost rest = source@.skip(i as int);
        let close = find_from(source.as_slice(), i, '}');
        let mut replaced = false;
        if source[i] == '{' && close > i && close < source.len() {
            let name = copy_range(source.as_slice(), i + 1, close);
            assert(name@ =~= rest.subrange(1, close - i));
            let k = find_binding(bindings, name.as_slice());
            if k < bindings.len() {
                let value = chars_of(bindings[k].value.as_str());
                assert(views[k as int].value == value@);
                let ghost before = out@;
                push_all(&mut out, value.as_slice());
                assert(rest.skip(close - i + 1) =~= source@.skip(close + 1));
                assert(before + (value@ + fill(source@.skip(close + 1), views)) =~= out@ + fill(
                    source@.skip(close + 1),
                    views,
                ));
                i = close + 1;
                replaced = true;
            }
        }
        if !replaced {
            let ghost before = out@;
            out.push(source[i]);
            assert(rest.drop_first() =~= source@.skip(i + 1));
            assert(before + (seq![rest[0]] + fill(source@.skip(i + 1), views)) =~= out@ + fill(
                source@.skip(i + 1),
                views,
            ));
            i += 1;
        }
    }
    assert(fill(source@.skip(i as int), views) =~= Seq::<char>::empty());
    assert(out@ + Seq::<char>::empty() =~= out@);
    string_of(out.as_slice())
}

} // verus!
