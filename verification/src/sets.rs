//! Counting the distinct values of a vector, and the values two vectors share,
//! where values are compared by their views.
use vstd::prelude::*;

verus! {

/// Values whose views executable code can compare.
pub trait SameView: View + Sized {
    fn same_view(&self, other: &Self) -> (r: bool)
        ensures
            r == (self@ == other@);
}

impl SameView for char {
    fn same_view(&self, other: &char) -> (r: bool) {
        *self == *other
    }
}

impl SameView for String {
    fn same_view(&self, other: &String) -> (r: bool) {
        self.eq(other)
    }
}

/// The views of the values of `s`, in order.
pub open spec fn views<T: View>(s: Seq<T>) -> Seq<T::V> {
    Seq::new(s.len(), |i: int| s[i]@)
}

/// The set of the views of the values of `s`.
pub open spec fn view_set<T: View>(s: Seq<T>) -> Set<T::V> {
    views(s).to_set()
}

/// Growing a sequence by one value grows its view set by that value's view.
pub proof fn lemma_view_set_push<T: View>(s: Seq<T>, x: T)
    ensures
        view_set(s.push(x)) == view_set(s).insert(x@),
        view_set(s).finite(),
        view_set(s.push(x)).finite(),
        view_set(s).contains(x@) <==> exists|j: int| 0 <= j < s.len() && (#[trigger] s[j])@ == x@,
{
    assert(views(s.push(x)) =~= views(s).push(x@));
    views(s).lemma_push_to_set_commute(x@);
    vstd::seq_lib::seq_to_set_is_finite(views(s));
    vstd::seq_lib::seq_to_set_is_finite(views(s.push(x)));
    if view_set(s).contains(x@) {
        let m = views(s);
        assert(m.contains(x@));
        let j = choose|j: int| 0 <= j < m.len() && m[j] == x@;
        assert(s[j]@ == x@);
    }
    if exists|j: int| 0 <= j < s.len() && (#[trigger] s[j])@ == x@ {
        let j = choose|j: int| 0 <= j < s.len() && (#[trigger] s[j])@ == x@;
        let m = views(s);
        assert(m[j] == x@);
        assert(m.contains(x@));
    }
}

/// The view set of no values is empty.
pub proof fn lemma_view_set_empty<T: View>(s: Seq<T>)
    requires
        s.len() == 0,
    ensures
        view_set(s) == Set::<T::V>::empty(),
{
    assert(view_set(s) =~= Set::<T::V>::empty());
}

/// Whether some value of `v` before index `end` has the view of `x`.
fn seen_before<T: SameView>(v: &Vec<T>, end: usize, x: &T) -> (r: bool)
    requires
        end <= v@.len(),
    ensures
        r == exists|j: int| 0 <= j < end && (#[trigger] v@[j])@ == x@,
{
    for k in 0..end
        invariant
            end <= v@.len(),
            forall|j: int| 0 <= j < k ==> (#[trigger] v@[j])@ != x@,
    {
        if v[k].same_view(x) {
            return true;
        }
    }
    false
}

/// The number of distinct views among the values of `v`.
pub fn count_distinct<T: SameView>(v: &Vec<T>) -> (n: usize)
    ensures
        n == view_set(v@).len(),
{
    let mut n: usize = 0;
    proof {
        lemma_view_set_empty(v@.take(0));
    }
    for i in 0..v.len()
        invariant
            n == view_set(v@.take(i as int)).len(),
            n <= i,
    {
        let seen = seen_before(v, i, &v[i]);
        proof {
            assert(v@.take(i + 1) =~= v@.take(i as int).push(v@[i as int]));
            lemma_view_set_push(v@.take(i as int), v@[i as int]);
            vstd::set::axiom_set_insert_len(view_set(v@.take(i as int)), v@[i as int]@);
            assert(seen == exists|j: int| 0 <= j < i && (#[trigger] v@.take(i as int)[j])@ == v@[i as int]@) by {
                if seen {
                    let j = choose|j: int| 0 <= j < i && (#[trigger] v@[j])@ == v@[i as int]@;
                    assert(v@.take(i as int)[j] == v@[j]);
                }
            }
        }
        if !seen {
            n = n + 1;
        }
    }
    assert(v@.take(v@.len() as int) =~= v@);
    n
}

/// The number of views that the values of `a` and of `b` share.
pub fn count_common<T: SameView>(a: &Vec<T>, b: &Vec<T>) -> (n: usize)
    ensures
        n == view_set(a@).intersect(view_set(b@)).len(),
{
    let mut n: usize = 0;
    proof {
        lemma_view_set_empty(a@.take(0));
        assert(view_set(a@.take(0)).intersect(view_set(b@)) =~= Set::empty());
    }
    for i in 0..a.len()
        invariant
            n == view_set(a@.take(i as int)).intersect(view_set(b@)).len(),
            n <= i,
    {
        let seen = seen_before(a, i, &a[i]);
        let in_b = seen_before(b, b.len(), &a[i]);
        proof {
            let s = a@.take(i as int);
            let x = a@[i as int];
            assert(a@.take(i + 1) =~= s.push(x));
            lemma_view_set_push(s, x);
            assert(seen == exists|j: int| 0 <= j < s.len() && (#[trigger] s[j])@ == x@) by {
                if seen {
                    let j = choose|j: int| 0 <= j < i && (#[trigger] a@[j])@ == x@;
                    assert(s[j] == a@[j]);
                }
            }
            lemma_view_set_push(b@.take(b@.len() as int), x);
            assert(b@.take(b@.len() as int) =~= b@);
            let sb = view_set(b@);
            let left = view_set(s).intersect(sb);
            vstd::set::axiom_set_intersect_finite(view_set(s), sb);
            vstd::set::axiom_set_insert_len(left, x@);
            if in_b {
                assert(view_set(s).insert(x@).intersect(sb) =~= left.insert(x@));
            } else {
                assert(view_set(s).insert(x@).intersect(sb) =~= left);
            }
        }
        if !seen && in_b {
            n = n + 1;
        }
    }
    assert(a@.take(a@.len() as int) =~= a@);
    n
}

/// The view set of a sequence is finite.
pub proof fn lemma_view_set_finite<T: View>(s: Seq<T>)
    ensures
        view_set(s).finite(),
{
    vstd::seq_lib::seq_to_set_is_finite(views(s));
}

/// The number of views that the values of `a` or of `b` hold.
pub fn count_union<T: SameView>(a: &Vec<T>, b: &Vec<T>) -> (n: u128)
    ensures
        n == view_set(a@).union(view_set(b@)).len(),
        n <= 2 * (usize::MAX as u128),
{
    let na = count_distinct(a);
    let nb = count_distinct(b);
    let nc = count_common(a, b);
    proof {
        lemma_view_set_finite(a@);
        lemma_view_set_finite(b@);
        vstd::set_lib::lemma_set_intersect_union_lens(view_set(a@), view_set(b@));
        vstd::set_lib::lemma_len_intersect(view_set(a@), view_set(b@));
        vstd::set_lib::lemma_len_union(view_set(a@), view_set(b@));
    }
    (na as u128) - (nc as u128) + (nb as u128)
}

} // verus!
