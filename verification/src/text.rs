//! String helpers shared by the keyword tables and the name-keyed collections.
use vstd::prelude::*;
use vstd::string::StringSliceAdditionalSpecFns;

verus! {

/// Tells whether two string slices hold the same characters.
///
/// The comparison runs over the UTF-8 bytes; since the encoding is injective,
/// equal bytes mean equal character sequences.
pub fn str_eq(a: &str, b: &str) -> (res: bool)
    ensures
        res == (a@ == b@),
{
    let x = a.as_bytes();
    let y = b.as_bytes();
    if x.len() != y.len() {
        return false;
    }
    let mut i: usize = 0;
    while i < x.len()
        invariant
            x@.len() == y@.len(),
            i <= x@.len(),
            x@ == a.spec_bytes(),
            y@ == b.spec_bytes(),
            forall|j: int| 0 <= j < i ==> x@[j] == y@[j],
        decreases x@.len() - i,
    {
        if x[i] != y[i] {
            return false;
        }
        i += 1;
    }
    proof {
        assert(x@ =~= y@);
        vstd::utf8::encode_utf8_decode_utf8(a@);
        vstd::utf8::encode_utf8_decode_utf8(b@);
    }
    true
}

/// The optional value that a presence flag and its getter stand for:
/// the value where the flag is set, nothing where it is not.
pub open spec fn present<T>(defined: bool, value: T) -> Option<T> {
    if defined {
        Some(value)
    } else {
        None
    }
}

/// Turns a presence flag and the value read beside it into an optional value.
pub fn optional<T>(defined: bool, value: T) -> (res: Option<T>)
    ensures
        res == present(defined, value),
{
    if defined {
        Some(value)
    } else {
        None
    }
}

/// Pushing onto a vector pushes the element's deep view onto the vector's deep view.
pub proof fn lemma_deep_view_push<T: DeepView>(before: Vec<T>, after: Vec<T>, item: T)
    requires
        after@ == before@.push(item),
    ensures
        after.deep_view() == before.deep_view().push(item.deep_view()),
{
    assert(after.deep_view() =~= before.deep_view().push(item.deep_view()));
}

/// Taking the last element off a vector takes the last element off its deep view.
pub proof fn lemma_deep_view_pop<T: DeepView>(before: Vec<T>, after: Vec<T>, item: T)
    requires
        before@.len() > 0,
        after@ == before@.drop_last(),
        item == before@.last(),
    ensures
        after.deep_view() == before.deep_view().drop_last(),
        item.deep_view() == before.deep_view().last(),
{
    assert(after.deep_view() =~= before.deep_view().drop_last());
}

/// Appending a vector appends its deep view.
pub proof fn lemma_deep_view_append<T: DeepView>(before: Vec<T>, tail: Vec<T>, after: Vec<T>)
    requires
        after@ == before@ + tail@,
    ensures
        after.deep_view() == before.deep_view() + tail.deep_view(),
{
    assert(after.deep_view() =~= before.deep_view() + tail.deep_view());
}

/// Copies a list of plain values.
pub fn clone_list<T: Copy>(items: &Vec<T>) -> (res: Vec<T>)
    ensures
        res@ == items@,
{
    let mut res: Vec<T> = Vec::new();
    let mut i: usize = 0;
    while i < items.len()
        invariant
            i <= items@.len(),
            res@ == items@.subrange(0, i as int),
        decreases items@.len() - i,
    {
        res.push(items[i]);
        assert(res@ =~= items@.subrange(0, i + 1));
        i += 1;
    }
    assert(res@ =~= items@);
    res
}

/// Copies an optional text.
pub fn clone_optional_text(text: &Option<String>) -> (res: Option<String>)
    ensures
        res.deep_view() == text.deep_view(),
{
    match text {
        Some(text) => Some(text.clone()),
        None => None,
    }
}

/// The copies that `clone` makes of values of this type hold what the
/// values hold.
pub open spec fn clone_keeps_view<T: Clone + DeepView>() -> bool {
    forall|a: T, b: T| #[trigger] cloned::<T>(a, b) ==> a.deep_view() == b.deep_view()
}

/// Where copies of the elements hold what the elements hold, copies of
/// vectors hold what the vectors hold.
pub proof fn lemma_vec_clone_keeps_view<T: Clone + DeepView>()
    requires
        clone_keeps_view::<T>(),
    ensures
        clone_keeps_view::<Vec<T>>(),
{
    assert forall|a: Vec<T>, b: Vec<T>| #[trigger] cloned::<Vec<T>>(a, b) implies a.deep_view()
        == b.deep_view() by {
        if a != b {
            assert(a@.len() == b@.len());
            assert forall|i: int| 0 <= i < a@.len() implies a@[i].deep_view()
                == b@[i].deep_view() by {
                assert(cloned::<T>(a[i], b[i]));
            }
            assert(a.deep_view() =~= b.deep_view());
        }
    }
}

/// Copies a list of records, one by one.
pub fn clone_records<T: Clone + DeepView>(items: &Vec<T>) -> (res: Vec<T>)
    requires
        clone_keeps_view::<T>(),
    ensures
        res.deep_view() == items.deep_view(),
{
    let mut res: Vec<T> = Vec::new();
    let mut i: usize = 0;
    while i < items.len()
        invariant
            i <= items@.len(),
            res@.len() == i,
            clone_keeps_view::<T>(),
            forall|k: int| 0 <= k < i ==> (#[trigger] res@[k]).deep_view() == items@[k].deep_view(),
        decreases items@.len() - i,
    {
        let item = items[i].clone();
        assert(cloned::<T>(items@[i as int], item));
        res.push(item);
        i += 1;
    }
    assert(res.deep_view() =~= items.deep_view());
    res
}

} // verus!
