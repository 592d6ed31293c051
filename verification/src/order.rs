//! The order-tagged collection `OrderEnum` and its sorting accessors:
//! the only two operations that interpret an order tag.
use crate::strutil::lex_le;
use vstd::prelude::*;

verus! {

/// An ordered payload together with the order it is meant to be
/// presented in: `Ascending` and `Descending` by the elements' sort
/// keys, `Explicit` exactly as stored.
#[derive(Debug, PartialEq, Eq)]
pub enum OrderEnum<T> {
    Ascending(Vec<T>),
    Explicit(Vec<T>),
    Descending(Vec<T>),
}

/// Shadow of `OrderEnum`.
pub ghost enum OrderEnumV<T> {
    Ascending(Seq<T>),
    Explicit(Seq<T>),
    Descending(Seq<T>),
}

impl<T: DeepView> View for OrderEnum<T> {
    type V = OrderEnumV<T::V>;

    open spec fn view(&self) -> OrderEnumV<T::V> {
        match self {
            OrderEnum::Ascending(v) => OrderEnumV::Ascending(v.deep_view()),
            OrderEnum::Explicit(v) => OrderEnumV::Explicit(v.deep_view()),
            OrderEnum::Descending(v) => OrderEnumV::Descending(v.deep_view()),
        }
    }
}

impl<T: DeepView> DeepView for OrderEnum<T> {
    type V = OrderEnumV<T::V>;

    open spec fn deep_view(&self) -> OrderEnumV<T::V> {
        self.view()
    }
}

impl<T> Default for OrderEnum<T> {
    /// An empty ascending payload.
    fn default() -> (r: Self)
        ensures
            r matches OrderEnum::Ascending(v) && v@ == Seq::<T>::empty(),
    {
        OrderEnum::Ascending(Vec::new())
    }
}

/// An element that can be copied exactly: the copy has the same
/// shadow.
pub trait Duplicable: DeepView + Sized {
    /// An exact copy of the element.
    fn duplicate(&self) -> (r: Self)
        ensures
            r.deep_view() == self.deep_view(),
    ;
}

/// An element that the sorting accessors can order: it exposes a sort
/// key over its shadow and an executable key comparison.
pub trait Sortable: Duplicable {
    /// The key the element is ordered by, read off its shadow.
    spec fn vkey(v: Self::V) -> Seq<char>;

    /// Compares two elements by their keys.
    fn key_le(&self, other: &Self) -> (b: bool)
        ensures
            b == lex_le(Self::vkey(self.deep_view()), Self::vkey(other.deep_view())),
    ;
}

/// The key function of a sortable element, as a value.
pub open spec fn vkey_fn<T: Sortable>() -> spec_fn(T::V) -> Seq<char> {
    |v: T::V| T::vkey(v)
}

/// `x` inserted into `s` behind every element whose key is not greater.
pub open spec fn insert_sorted<V>(s: Seq<V>, x: V, key: spec_fn(V) -> Seq<char>) -> Seq<V>
    decreases s.len(),
{
    if s.len() == 0 {
        seq![x]
    } else if lex_le(key(s[0]), key(x)) {
        seq![s[0]] + insert_sorted(s.drop_first(), x, key)
    } else {
        seq![x] + s
    }
}

/// `s` stably sorted by `key`: elements with equal keys keep their
/// relative order.
pub open spec fn sort_seq<V>(s: Seq<V>, key: spec_fn(V) -> Seq<char>) -> Seq<V>
    decreases s.len(),
{
    if s.len() == 0 {
        s
    } else {
        insert_sorted(sort_seq(s.drop_last(), key), s.last(), key)
    }
}

/// True when `s` is ordered by `key`.
pub open spec fn sorted_by_key<V>(s: Seq<V>, key: spec_fn(V) -> Seq<char>) -> bool {
    forall|i: int, j: int| 0 <= i < j < s.len() ==> lex_le(key(#[trigger] s[i]), key(#[trigger] s[j]))
}

/// What the sorting accessors return for each order tag: the payload
/// sorted by key for `Ascending`, unchanged for `Explicit`. The
/// `Descending` tag also sorts ascending for now: a known limitation,
/// stated here rather than silently resolved, since consumers may
/// depend on either reading.
pub open spec fn sorted_payload<T: Sortable>(o: OrderEnumV<T::V>) -> Seq<T::V> {
    match o {
        OrderEnumV::Ascending(s) => sort_seq(s, vkey_fn::<T>()),
        OrderEnumV::Explicit(s) => s,
        OrderEnumV::Descending(s) => sort_seq(s, vkey_fn::<T>()),
    }
}

/// The payload a tag carries, whatever the tag.
pub open spec fn payload_of<T>(o: OrderEnumV<T>) -> Seq<T> {
    match o {
        OrderEnumV::Ascending(s) => s,
        OrderEnumV::Explicit(s) => s,
        OrderEnumV::Descending(s) => s,
    }
}

/// Keys are totally ordered: one of the two directions always holds.
pub proof fn lemma_lex_le_total(a: Seq<char>, b: Seq<char>)
    ensures
        lex_le(a, b) || lex_le(b, a),
    decreases a.len(),
{
    if a.len() > 0 && b.len() > 0 && a[0] == b[0] {
        lemma_lex_le_total(a.drop_first(), b.drop_first());
    }
}

/// Key order is transitive.
pub proof fn lemma_lex_le_trans(a: Seq<char>, b: Seq<char>, c: Seq<char>)
    requires
        lex_le(a, b),
        lex_le(b, c),
    ensures
        lex_le(a, c),
    decreases a.len(),
{
    if a.len() > 0 && b.len() > 0 && c.len() > 0 && a[0] == b[0] && b[0] == c[0] {
        lemma_lex_le_trans(a.drop_first(), b.drop_first(), c.drop_first());
    }
}

/// Inserting into a sequence sorted by `key` keeps it sorted, grows
/// it by one, and introduces no element but `x`.
proof fn lemma_insert_sorted_props<V>(s: Seq<V>, x: V, key: spec_fn(V) -> Seq<char>)
    requires
        sorted_by_key(s, key),
    ensures
        sorted_by_key(insert_sorted(s, x, key), key),
        insert_sorted(s, x, key).len() == s.len() + 1,
        forall|e: V| #[trigger] insert_sorted(s, x, key).contains(e) ==> s.contains(e) || e == x,
    decreases s.len(),
{
    let out = insert_sorted(s, x, key);
    if s.len() == 0 {
    } else if lex_le(key(s[0]), key(x)) {
        assert(sorted_by_key(s.drop_first(), key)) by {
            assert forall|i: int, j: int|
                0 <= i < j < s.drop_first().len() implies lex_le(
                key(#[trigger] s.drop_first()[i]),
                key(#[trigger] s.drop_first()[j]),
            ) by {
                assert(s.drop_first()[i] == s[i + 1]);
                assert(s.drop_first()[j] == s[j + 1]);
            }
        }
        lemma_insert_sorted_props(s.drop_first(), x, key);
        let rest = insert_sorted(s.drop_first(), x, key);
        assert(out =~= seq![s[0]] + rest);
        assert forall|i: int, j: int| 0 <= i < j < out.len() implies lex_le(
            key(#[trigger] out[i]),
            key(#[trigger] out[j]),
        ) by {
            if i == 0 {
                assert(out[j] == rest[j - 1]);
                assert(rest.contains(rest[j - 1]));
                if s.drop_first().contains(out[j]) {
                    let w = choose|w: int|
                        0 <= w < s.drop_first().len() && s.drop_first()[w] == out[j];
                    assert(s.drop_first()[w] == s[w + 1]);
                    assert(lex_le(key(s[0]), key(s[w + 1])));
                } else {
                    assert(out[j] == x);
                }
            } else {
                assert(out[i] == rest[i - 1]);
                assert(out[j] == rest[j - 1]);
            }
        }
        assert forall|e: V| #[trigger] out.contains(e) implies s.contains(e) || e == x by {
            let w = choose|w: int| 0 <= w < out.len() && out[w] == e;
            if w == 0 {
                assert(s.contains(s[0]));
            } else {
                assert(rest.contains(out[w]));
                if s.drop_first().contains(e) {
                    let u = choose|u: int|
                        0 <= u < s.drop_first().len() && s.drop_first()[u] == e;
                    assert(s[u + 1] == e);
                    assert(s.contains(s[u + 1]));
                }
            }
        }
    } else {
        assert(out =~= seq![x] + s);
        lemma_lex_le_total(key(s[0]), key(x));
        assert(lex_le(key(x), key(s[0])));
        assert forall|i: int, j: int| 0 <= i < j < out.len() implies lex_le(
            key(#[trigger] out[i]),
            key(#[trigger] out[j]),
        ) by {
            if i == 0 {
                assert(out[j] == s[j - 1]);
                if j - 1 == 0 {
                } else {
                    assert(lex_le(key(s[0]), key(s[j - 1])));
                    lemma_lex_le_trans(key(x), key(s[0]), key(s[j - 1]));
                }
            } else {
                assert(out[i] == s[i - 1]);
                assert(out[j] == s[j - 1]);
            }
        }
        assert forall|e: V| #[trigger] out.contains(e) implies s.contains(e) || e == x by {
            let w = choose|w: int| 0 <= w < out.len() && out[w] == e;
            if w > 0 {
                assert(s[w - 1] == e);
                assert(s.contains(s[w - 1]));
            }
        }
    }
}

/// Sorting yields a sorted sequence of the same length.
pub proof fn lemma_sort_seq_props<V>(s: Seq<V>, key: spec_fn(V) -> Seq<char>)
    ensures
        sorted_by_key(sort_seq(s, key), key),
        sort_seq(s, key).len() == s.len(),
    decreases s.len(),
{
    if s.len() > 0 {
        lemma_sort_seq_props(s.drop_last(), key);
        lemma_insert_sorted_props(sort_seq(s.drop_last(), key), s.last(), key);
    }
}

/// Inserting an element whose key is below no key of a sequence
/// appends it.
proof fn lemma_insert_sorted_at_end<V>(s: Seq<V>, x: V, key: spec_fn(V) -> Seq<char>)
    requires
        forall|i: int| 0 <= i < s.len() ==> lex_le(key(#[trigger] s[i]), key(x)),
    ensures
        insert_sorted(s, x, key) == s.push(x),
    decreases s.len(),
{
    if s.len() == 0 {
        assert(insert_sorted(s, x, key) =~= s.push(x));
    } else {
        assert forall|i: int|
            0 <= i < s.drop_first().len() implies lex_le(key(#[trigger] s.drop_first()[i]), key(x)) by {
            assert(s.drop_first()[i] == s[i + 1]);
        }
        lemma_insert_sorted_at_end(s.drop_first(), x, key);
        assert(insert_sorted(s, x, key) =~= s.push(x));
    }
}

/// Sorting an already sorted sequence returns it unchanged.
pub proof fn lemma_sort_seq_of_sorted<V>(s: Seq<V>, key: spec_fn(V) -> Seq<char>)
    requires
        sorted_by_key(s, key),
    ensures
        sort_seq(s, key) == s,
    decreases s.len(),
{
    if s.len() > 0 {
        assert(sorted_by_key(s.drop_last(), key)) by {
            assert forall|i: int, j: int|
                0 <= i < j < s.drop_last().len() implies lex_le(
                key(#[trigger] s.drop_last()[i]),
                key(#[trigger] s.drop_last()[j]),
            ) by {
                assert(s.drop_last()[i] == s[i]);
                assert(s.drop_last()[j] == s[j]);
            }
        }
        lemma_sort_seq_of_sorted(s.drop_last(), key);
        assert forall|i: int|
            0 <= i < s.drop_last().len() implies lex_le(key(#[trigger] s.drop_last()[i]), key(s.last())) by {
            assert(s.drop_last()[i] == s[i]);
        }
        lemma_insert_sorted_at_end(s.drop_last(), s.last(), key);
        assert(s.drop_last().push(s.last()) =~= s);
    }
}

/// Sorting is idempotent: sorting a second time changes nothing.
pub proof fn lemma_sort_seq_idempotent<V>(s: Seq<V>, key: spec_fn(V) -> Seq<char>)
    ensures
        sort_seq(sort_seq(s, key), key) == sort_seq(s, key),
{
    lemma_sort_seq_props(s, key);
    lemma_sort_seq_of_sorted(sort_seq(s, key), key);
}

/// Splitting form of `insert_sorted`: with every key before `j` not
/// above `x`'s and the key at `j` (if any) above it, the insertion
/// lands exactly at `j`.
proof fn lemma_insert_sorted_split<V>(s: Seq<V>, x: V, key: spec_fn(V) -> Seq<char>, j: int)
    requires
        0 <= j <= s.len(),
        forall|k: int| 0 <= k < j ==> lex_le(key(#[trigger] s[k]), key(x)),
        j < s.len() ==> !lex_le(key(s[j]), key(x)),
    ensures
        insert_sorted(s, x, key) == s.subrange(0, j).push(x) + s.subrange(j, s.len() as int),
    decreases s.len(),
{
    if j == 0 {
        assert(insert_sorted(s, x, key) =~= s.subrange(0, 0).push(x) + s.subrange(
            0,
            s.len() as int,
        ));
    } else {
        assert(lex_le(key(s[0]), key(x)));
        assert forall|k: int|
            0 <= k < j - 1 implies lex_le(key(#[trigger] s.drop_first()[k]), key(x)) by {
            assert(s.drop_first()[k] == s[k + 1]);
        }
        assert(j - 1 < s.drop_first().len() ==> s.drop_first()[j - 1] == s[j]);
        lemma_insert_sorted_split(s.drop_first(), x, key, j - 1);
        assert(insert_sorted(s, x, key) =~= s.subrange(0, j).push(x) + s.subrange(
            j,
            s.len() as int,
        ));
    }
}

/// Inserts `x` into `out` behind every element whose key is not above
/// `x`'s.
fn insert_by_key<T: Sortable>(out: &mut Vec<T>, x: T)
    ensures
        final(out).deep_view() == insert_sorted(old(out).deep_view(), x.deep_view(), vkey_fn::<T>()),
{
    let ghost key = vkey_fn::<T>();
    let ghost s = out.deep_view();
    let n = out.len();
    let mut j: usize = 0;
    let mut stop = false;
    while j < n && !stop
        invariant
            0 <= j <= n,
            n == out.len(),
            s == out.deep_view(),
            key == vkey_fn::<T>(),
            forall|k: int| 0 <= k < j ==> lex_le(key(#[trigger] s[k]), key(x.deep_view())),
            stop ==> j < n && !lex_le(key(s[j as int]), key(x.deep_view())),
        decreases n - j + if stop {
            0int
        } else {
            1int
        },
    {
        proof {
            assert(key(s[j as int]) == T::vkey(out[j as int].deep_view()));
            assert(key(x.deep_view()) == T::vkey(x.deep_view()));
        }
        if out[j].key_le(&x) {
            j = j + 1;
        } else {
            stop = true;
        }
    }
    proof {
        lemma_insert_sorted_split(s, x.deep_view(), key, j as int);
    }
    out.insert(j, x);
    proof {
        assert(out.deep_view() =~= s.subrange(0, j as int).push(x.deep_view()) + s.subrange(
            j as int,
            s.len() as int,
        ));
    }
}

/// A copy of `src` sorted by key, stably.
fn sorted_copy<T: Sortable>(src: &Vec<T>) -> (r: Vec<T>)
    ensures
        r.deep_view() == sort_seq(src.deep_view(), vkey_fn::<T>()),
{
    let ghost key = vkey_fn::<T>();
    let ghost s = src.deep_view();
    let mut out: Vec<T> = Vec::new();
    proof {
        assert(out.deep_view() =~= Seq::<T::V>::empty());
        assert(s.subrange(0, 0) =~= Seq::<T::V>::empty());
        assert(sort_seq(s.subrange(0, 0), key).len() == 0) by {
            lemma_sort_seq_props(s.subrange(0, 0), key);
        }
        assert(out.deep_view() =~= sort_seq(s.subrange(0, 0), key));
    }
    let mut i: usize = 0;
    while i < src.len()
        invariant
            0 <= i <= src.len(),
            src.len() == s.len(),
            s == src.deep_view(),
            key == vkey_fn::<T>(),
            out.deep_view() == sort_seq(s.subrange(0, i as int), key),
        decreases src.len() - i,
    {
        let d = src[i].duplicate();
        proof {
            assert(d.deep_view() == s[i as int]);
        }
        insert_by_key(&mut out, d);
        proof {
            assert(s.subrange(0, i as int + 1).drop_last() =~= s.subrange(0, i as int));
            assert(s.subrange(0, i as int + 1).last() == s[i as int]);
        }
        i = i + 1;
    }
    proof {
        assert(s.subrange(0, s.len() as int) =~= s);
    }
    out
}

/// An element-wise copy of `src`.
pub(crate) fn dup_vec<T: Duplicable>(src: &Vec<T>) -> (r: Vec<T>)
    ensures
        r.deep_view() == src.deep_view(),
{
    let mut out: Vec<T> = Vec::new();
    proof {
        assert(out.deep_view() =~= src.deep_view().subrange(0, 0));
    }
    let mut i: usize = 0;
    while i < src.len()
        invariant
            0 <= i <= src.len(),
            src.len() == src.deep_view().len(),
            out.deep_view() =~= src.deep_view().subrange(0, i as int),
        decreases src.len() - i,
    {
        let d = src[i].duplicate();
        let ghost prev = out;
        out.push(d);
        proof {
            crate::lemma_deep_view_push(prev, out, d);
            assert(out.deep_view() =~= src.deep_view().subrange(0, i as int + 1));
        }
        i = i + 1;
    }
    proof {
        assert(src.deep_view().subrange(0, src.len() as int) =~= src.deep_view());
        assert(out.deep_view() =~= src.deep_view());
    }
    out
}

impl<T: Sortable> OrderEnum<T> {
    /// A copy of the payload in presentation order: sorted by key for
    /// `Ascending` and `Descending` (see `sorted_payload`), as stored
    /// for `Explicit`.
    pub fn vec_sorted(&self) -> (r: Vec<T>)
        ensures
            r.deep_view() == sorted_payload::<T>(self.deep_view()),
    {
        match self {
            OrderEnum::Explicit(v) => dup_vec(v),
            OrderEnum::Ascending(v) => sorted_copy(v),
            OrderEnum::Descending(v) => sorted_copy(v),
        }
    }

    /// Replaces the payload with its presentation order, under the
    /// same rule as `vec_sorted`; the order tag is kept.
    pub fn vec_sorted_mut(&mut self)
        ensures
            payload_of(final(self).deep_view()) == sorted_payload::<T>(old(self).deep_view()),
            (*old(self)) matches OrderEnum::Ascending(_) ==> (*final(self)) matches OrderEnum::Ascending(_),
            (*old(self)) matches OrderEnum::Explicit(_) ==> (*final(self)) matches OrderEnum::Explicit(_),
            (*old(self)) matches OrderEnum::Descending(_) ==> (*final(self)) matches OrderEnum::Descending(_),
    {
        let r = self.vec_sorted();
        match &*self {
            OrderEnum::Ascending(_) => {
                *self = OrderEnum::Ascending(r);
            },
            OrderEnum::Explicit(_) => {
                *self = OrderEnum::Explicit(r);
            },
            OrderEnum::Descending(_) => {
                *self = OrderEnum::Descending(r);
            },
        }
    }
}


/// Idempotent sort: applying the ascending-sort rule to what it
/// already produced changes nothing, so calling the sorting accessor
/// twice yields what one call yields.
pub proof fn lemma_ascending_sort_idempotent<T: Sortable>(s: Seq<T::V>)
    ensures
        sorted_payload::<T>(
            OrderEnumV::Ascending(sorted_payload::<T>(OrderEnumV::Ascending(s))),
        ) == sorted_payload::<T>(OrderEnumV::Ascending(s)),
{
    lemma_sort_seq_idempotent(s, vkey_fn::<T>());
}

} // verus!
