//! Stable insertion sort with an exact functional specification.
//!
//! The sort of a sequence is itself defined as a spec function — insert
//! each element, left to right, behind the existing elements that sort at
//! or before it — so callers' contracts can pin the sorted result down to
//! the element, stability included.

use vstd::prelude::*;
use crate::text::string_views;

verus! {

/// An ordering hook for [`insertion_sort`].
pub trait SortKey: Sized {
    /// Whether `self` sorts at or before `other`.
    spec fn key_le(&self, other: &Self) -> bool;

    /// Decide [`SortKey::key_le`] at run time.
    fn le(&self, other: &Self) -> (r: bool)
        ensures
            r == self.key_le(other),
    ;
}

/// Where `x` lands when inserted into `s`: behind every leading element
/// that sorts at or before it, so that elements ranking equal keep their
/// arrival order.
pub open spec fn insert_sorted<T: SortKey>(x: T, s: Seq<T>) -> Seq<T>
    decreases s.len(),
{
    if s.len() == 0 {
        seq![x]
    } else if s[0].key_le(&x) {
        seq![s[0]] + insert_sorted(x, s.drop_first())
    } else {
        seq![x] + s
    }
}

/// The stable sort of `s`: every element inserted in turn, left to right.
pub open spec fn sort_spec<T: SortKey>(s: Seq<T>) -> Seq<T>
    decreases s.len(),
{
    if s.len() == 0 {
        Seq::<T>::empty()
    } else {
        insert_sorted(s.last(), sort_spec(s.drop_last()))
    }
}

proof fn lemma_insert_position<T: SortKey>(x: T, s: Seq<T>, j: int)
    requires
        0 <= j <= s.len(),
        forall|k: int| 0 <= k < j ==> #[trigger] s[k].key_le(&x),
        j < s.len() ==> !s[j].key_le(&x),
    ensures
        insert_sorted(x, s) == s.subrange(0, j) + seq![x] + s.subrange(j, s.len() as int),
    decreases j,
{
    if j == 0 {
        if s.len() == 0 {
            assert(insert_sorted(x, s) =~= s.subrange(0, 0) + seq![x] + s.subrange(
                0,
                s.len() as int,
            ));
        } else {
            assert(insert_sorted(x, s) =~= s.subrange(0, 0) + seq![x] + s.subrange(
                0,
                s.len() as int,
            ));
        }
    } else {
        let t = s.drop_first();
        assert(forall|k: int| 0 <= k < j - 1 ==> #[trigger] t[k].key_le(&x));
        lemma_insert_position(x, t, j - 1);
        assert(insert_sorted(x, s) == seq![s[0]] + insert_sorted(x, t));
        assert(seq![s[0]] + (t.subrange(0, j - 1) + seq![x] + t.subrange(j - 1, t.len() as int))
            =~= s.subrange(0, j) + seq![x] + s.subrange(j, s.len() as int));
    }
}

/// Sort the vector stably, as [`sort_spec`] states.
pub fn insertion_sort<T: SortKey>(v: Vec<T>) -> (r: Vec<T>)
    ensures
        r@ == sort_spec(v@),
{
    let ghost orig = v@;
    let mut rest = v;
    let mut out: Vec<T> = Vec::new();
    let ghost mut i: int = 0;
    while rest.len() > 0
        invariant
            0 <= i <= orig.len(),
            rest@ == orig.subrange(i, orig.len() as int),
            out@ == sort_spec(orig.subrange(0, i)),
        decreases rest@.len(),
    {
        let x = rest.remove(0);
        proof {
            assert(x == orig[i]);
            assert(rest@ =~= orig.subrange(i + 1, orig.len() as int));
        }
        let mut j: usize = 0;
        while j < out.len() && SortKey::le(&out[j], &x)
            invariant
                j <= out@.len(),
                forall|k: int| 0 <= k < j ==> #[trigger] out@[k].key_le(&x),
            decreases out@.len() - j,
        {
            j = j + 1;
        }
        proof {
            lemma_insert_position(x, out@, j as int);
        }
        let ghost out_before = out@;
        out.insert(j, x);
        proof {
            assert(out@ =~= out_before.subrange(0, j as int) + seq![x] + out_before.subrange(
                j as int,
                out_before.len() as int,
            ));
            assert(orig.subrange(0, i + 1).drop_last() =~= orig.subrange(0, i));
            assert(orig.subrange(0, i + 1).last() == orig[i]);
            i = i + 1;
        }
    }
    proof {
        assert(orig.subrange(0, orig.len() as int) =~= orig);
    }
    out
}

/// Code-point order on text, which for valid text agrees with the byte
/// order the standard library sorts strings by.
pub open spec fn chars_le(a: Seq<char>, b: Seq<char>) -> bool
    decreases a.len(),
{
    if a.len() == 0 {
        true
    } else if b.len() == 0 {
        false
    } else if a[0] != b[0] {
        (a[0] as u32) < (b[0] as u32)
    } else {
        chars_le(a.drop_first(), b.drop_first())
    }
}

proof fn lemma_chars_le_step(a: Seq<char>, b: Seq<char>, i: int)
    requires
        0 <= i,
        i < a.len(),
        i < b.len(),
        forall|k: int| 0 <= k < i ==> a[k] == b[k],
        a[i] == b[i],
    ensures
        chars_le(a, b) == chars_le(a.skip(i + 1), b.skip(i + 1)),
    decreases i,
{
    if i == 0 {
        assert(a.drop_first() =~= a.skip(1));
        assert(b.drop_first() =~= b.skip(1));
    } else {
        assert(a[0] == b[0]);
        assert(chars_le(a, b) == chars_le(a.drop_first(), b.drop_first()));
        let a1 = a.drop_first();
        let b1 = b.drop_first();
        assert(forall|k: int| 0 <= k < i - 1 ==> a1[k] == b1[k]);
        lemma_chars_le_step(a1, b1, i - 1);
        assert(a1.skip(i) =~= a.skip(i + 1));
        assert(b1.skip(i) =~= b.skip(i + 1));
    }
}

proof fn lemma_chars_le_prefix(a: Seq<char>, b: Seq<char>, i: int)
    requires
        0 <= i,
        i <= a.len(),
        i <= b.len(),
        forall|k: int| 0 <= k < i ==> a[k] == b[k],
        i == a.len() || i == b.len(),
    ensures
        chars_le(a, b) == (a.len() <= b.len()),
    decreases i,
{
    if i == 0 {
    } else {
        let a1 = a.drop_first();
        let b1 = b.drop_first();
        assert(a[0] == b[0]);
        assert(forall|k: int| 0 <= k < i - 1 ==> a1[k] == b1[k]);
        lemma_chars_le_prefix(a1, b1, i - 1);
    }
}

/// Compare two pieces of text in code-point order, as [`chars_le`]
/// states.
pub fn str_chars_le(a: &str, b: &str) -> (r: bool)
    ensures
        r == chars_le(a@, b@),
{
    let na = a.unicode_len();
    let nb = b.unicode_len();
    let mut i: usize = 0;
    while i < na && i < nb
        invariant
            i <= na,
            i <= nb,
            na == a@.len(),
            nb == b@.len(),
            forall|k: int| 0 <= k < i ==> a@[k] == b@[k],
        decreases na - i,
    {
        let ca = a.get_char(i);
        let cb = b.get_char(i);
        if ca != cb {
            proof {
                if i == 0 {
                } else {
                    lemma_chars_le_step(a@, b@, i - 1);
                }
                assert(a@.skip(i as int)[0] == a@[i as int]);
                assert(b@.skip(i as int)[0] == b@[i as int]);
            }
            return (ca as u32) < (cb as u32);
        }
        i = i + 1;
    }
    proof {
        if i > 0 {
            lemma_chars_le_step(a@, b@, i - 1);
        }
        let at = a@.skip(i as int);
        let bt = b@.skip(i as int);
        lemma_chars_le_prefix(at, bt, if at.len() <= bt.len() {
            at.len() as int
        } else {
            bt.len() as int
        });
    }
    na <= nb
}

impl SortKey for String {
    open spec fn key_le(&self, other: &Self) -> bool {
        chars_le(self@, other@)
    }

    fn le(&self, other: &Self) -> (r: bool) {
        str_chars_le(self.as_str(), other.as_str())
    }
}

/// Where a piece of text lands when inserted into a sequence of texts:
/// behind every leading text that sorts at or before it.
pub open spec fn insert_text_sorted(x: Seq<char>, s: Seq<Seq<char>>) -> Seq<Seq<char>>
    decreases s.len(),
{
    if s.len() == 0 {
        seq![x]
    } else if chars_le(s[0], x) {
        seq![s[0]] + insert_text_sorted(x, s.drop_first())
    } else {
        seq![x] + s
    }
}

/// The stable sort of a sequence of texts in code-point order.
pub open spec fn sort_text_spec(s: Seq<Seq<char>>) -> Seq<Seq<char>>
    decreases s.len(),
{
    if s.len() == 0 {
        Seq::<Seq<char>>::empty()
    } else {
        insert_text_sorted(s.last(), sort_text_spec(s.drop_last()))
    }
}

proof fn lemma_insert_text_position(x: Seq<char>, s: Seq<Seq<char>>, j: int)
    requires
        0 <= j <= s.len(),
        forall|k: int| 0 <= k < j ==> chars_le(#[trigger] s[k], x),
        j < s.len() ==> !chars_le(s[j], x),
    ensures
        insert_text_sorted(x, s) == s.subrange(0, j) + seq![x] + s.subrange(j, s.len() as int),
    decreases j,
{
    if j == 0 {
        assert(insert_text_sorted(x, s) =~= s.subrange(0, 0) + seq![x] + s.subrange(
            0,
            s.len() as int,
        ));
    } else {
        let t = s.drop_first();
        assert(forall|k: int| 0 <= k < j - 1 ==> chars_le(#[trigger] t[k], x));
        lemma_insert_text_position(x, t, j - 1);
        assert(insert_text_sorted(x, s) == seq![s[0]] + insert_text_sorted(x, t));
        assert(seq![s[0]] + (t.subrange(0, j - 1) + seq![x] + t.subrange(j - 1, t.len() as int))
            =~= s.subrange(0, j) + seq![x] + s.subrange(j, s.len() as int));
    }
}

/// Sort the strings stably in code-point order, as [`sort_text_spec`]
/// states of their views.
pub fn sort_strings(v: Vec<String>) -> (r: Vec<String>)
    ensures
        string_views(r@) == sort_text_spec(string_views(v@)),
{
    let ghost orig = string_views(v@);
    let mut rest = v;
    let mut out: Vec<String> = Vec::new();
    let ghost mut i: int = 0;
    proof {
        assert(string_views(rest@) =~= orig.subrange(0, orig.len() as int));
        assert(string_views(out@) =~= sort_text_spec(orig.subrange(0, 0)));
    }
    while rest.len() > 0
        invariant
            0 <= i <= orig.len(),
            rest@.len() == orig.len() - i,
            string_views(rest@) == orig.subrange(i, orig.len() as int),
            string_views(out@) == sort_text_spec(orig.subrange(0, i)),
        decreases rest@.len(),
    {
        let ghost rest_before = rest@;
        let x = rest.remove(0);
        proof {
            assert(string_views(rest_before).len() == rest_before.len());
            assert(string_views(rest_before)[0] == rest_before[0]@);
            assert(x@ == orig[i]);
            assert forall|t: int| 0 <= t < rest@.len() implies #[trigger] string_views(rest@)[t]
                == orig.subrange(i + 1, orig.len() as int)[t] by {
                assert(string_views(rest@)[t] == rest@[t]@);
                assert(rest@[t] == rest_before[t + 1]);
                assert(string_views(rest_before)[t + 1] == rest_before[t + 1]@);
            }
            assert(string_views(rest@).len() == orig.len() - i - 1);
            assert(string_views(rest@) =~= orig.subrange(i + 1, orig.len() as int));
        }
        let mut j: usize = 0;
        while j < out.len() && SortKey::le(&out[j], &x)
            invariant
                j <= out@.len(),
                forall|k: int| 0 <= k < j ==> chars_le(#[trigger] string_views(out@)[k], x@),
            decreases out@.len() - j,
        {
            proof {
                assert(string_views(out@)[j as int] == out@[j as int]@);
            }
            j = j + 1;
        }
        proof {
            assert(string_views(out@).len() == out@.len());
            assert(j < out@.len() ==> !chars_le(string_views(out@)[j as int], x@));
            lemma_insert_text_position(x@, string_views(out@), j as int);
        }
        let ghost out_before = string_views(out@);
        out.insert(j, x);
        proof {
            assert(string_views(out@) =~= out_before.subrange(0, j as int) + seq![x@]
                + out_before.subrange(j as int, out_before.len() as int));
            assert(orig.subrange(0, i + 1).drop_last() =~= orig.subrange(0, i));
            assert(orig.subrange(0, i + 1).last() == orig[i]);
            i = i + 1;
        }
    }
    proof {
        assert(orig.subrange(0, orig.len() as int) =~= orig);
    }
    out
}

} // verus!
