use vstd::prelude::*;

verus! {

/// No identifier occurs twice: the sequence represents a set.
pub open spec fn distinct(s: Seq<i32>) -> bool {
    forall|i: int, j: int| 0 <= i < j < s.len() ==> s[i] != s[j]
}

/// How many times `id` occurs in `s`.
pub open spec fn count_id(s: Seq<i32>, id: i32) -> nat
    decreases s.len(),
{
    if s.len() == 0 {
        0
    } else {
        count_id(s.drop_last(), id) + if s.last() == id {
            1nat
        } else {
            0nat
        }
    }
}

/// The sequence after an idempotent insert: unchanged when `id` is already
/// present, otherwise `id` is appended.
pub open spec fn add_id(s: Seq<i32>, id: i32) -> Seq<i32> {
    if s.contains(id) {
        s
    } else {
        s.push(id)
    }
}

/// The sequence with every occurrence of `id` removed, order kept.
pub open spec fn without_id(s: Seq<i32>, id: i32) -> Seq<i32>
    decreases s.len(),
{
    if s.len() == 0 {
        Seq::empty()
    } else {
        let rest = without_id(s.drop_last(), id);
        if s.last() == id {
            rest
        } else {
            rest.push(s.last())
        }
    }
}

pub fn contains_id(v: &Vec<i32>, id: i32) -> (r: bool)
    ensures
        r == v@.contains(id),
{
    let mut i: usize = 0;
    while i < v.len()
        invariant
            i <= v@.len(),
            forall|k: int| 0 <= k < i ==> v@[k] != id,
        decreases v@.len() - i,
    {
        if v[i] == id {
            return true;
        }
        i += 1;
    }
    false
}

pub fn push_if_absent(v: &mut Vec<i32>, id: i32) -> (added: bool)
    ensures
        final(v)@ == add_id(old(v)@, id),
        added == !old(v)@.contains(id),
{
    let present = contains_id(v, id);
    if present {
        false
    } else {
        v.push(id);
        true
    }
}

pub fn remove_id(v: &mut Vec<i32>, id: i32)
    ensures
        final(v)@ == without_id(old(v)@, id),
{
    let mut out: Vec<i32> = Vec::new();
    let mut i: usize = 0;
    while i < v.len()
        invariant
            i <= v@.len(),
            v@ == old(v)@,
            out@ == without_id(v@.take(i as int), id),
        decreases v@.len() - i,
    {
        let x = v[i];
        proof {
            assert(v@.take(i + 1).drop_last() =~= v@.take(i as int));
            assert(v@.take(i + 1).last() == v@[i as int]);
        }
        if x != id {
            out.push(x);
        }
        i += 1;
    }
    proof {
        assert(v@.take(v@.len() as int) =~= v@);
    }
    *v = out;
}

/// A sequence without `id` has no occurrence of it, and conversely.
pub proof fn lemma_count_zero_iff_absent(s: Seq<i32>, id: i32)
    ensures
        (count_id(s, id) == 0) <==> !s.contains(id),
    decreases s.len(),
{
    if s.len() > 0 {
        lemma_count_zero_iff_absent(s.drop_last(), id);
        assert(s.contains(id) <==> (s.drop_last().contains(id) || s.last() == id)) by {
            if s.contains(id) {
                let w = choose|w: int| 0 <= w < s.len() && s[w] == id;
                if w < s.len() - 1 {
                    assert(s.drop_last()[w] == id);
                }
            }
            if s.drop_last().contains(id) {
                let w = choose|w: int| 0 <= w < s.drop_last().len() && s.drop_last()[w] == id;
                assert(s[w] == id);
            }
            if s.last() == id {
                assert(s[s.len() - 1] == id);
            }
        }
    }
}

/// In a duplicate-free sequence an identifier occurs at most once.
pub proof fn lemma_distinct_count_le_one(s: Seq<i32>, id: i32)
    requires
        distinct(s),
    ensures
        count_id(s, id) <= 1,
    decreases s.len(),
{
    if s.len() > 0 {
        assert(distinct(s.drop_last()));
        lemma_distinct_count_le_one(s.drop_last(), id);
        if s.last() == id {
            assert(forall|k: int| 0 <= k < s.len() - 1 ==> s[k] != id);
            assert(!s.drop_last().contains(id));
            lemma_count_zero_iff_absent(s.drop_last(), id);
        }
    }
}

/// An idempotent insert keeps the sequence duplicate-free.
pub proof fn lemma_add_id_distinct(s: Seq<i32>, id: i32)
    requires
        distinct(s),
    ensures
        distinct(add_id(s, id)),
{
    if !s.contains(id) {
        assert(forall|k: int| 0 <= k < s.len() ==> s[k] != id);
    }
}

/// Appending one more occurrence raises the count by one.
pub proof fn lemma_count_push(s: Seq<i32>, x: i32, id: i32)
    ensures
        count_id(s.push(x), id) == count_id(s, id) + if x == id {
            1int
        } else {
            0int
        },
{
    assert(s.push(x).drop_last() =~= s);
}

/// Every identifier left after a removal was present before, and is not the
/// removed one.
pub proof fn lemma_without_id_subset(s: Seq<i32>, id: i32, x: i32)
    requires
        without_id(s, id).contains(x),
    ensures
        s.contains(x),
        x != id,
    decreases s.len(),
{
    if s.len() > 0 {
        let rest = without_id(s.drop_last(), id);
        if s.last() == id {
            lemma_without_id_subset(s.drop_last(), id, x);
        } else {
            let w = choose|w: int|
                0 <= w < rest.push(s.last()).len() && rest.push(s.last())[w] == x;
            if w < rest.len() {
                assert(rest[w] == x);
                lemma_without_id_subset(s.drop_last(), id, x);
            } else {
                assert(s[s.len() - 1] == x);
            }
        }
        if s.drop_last().contains(x) {
            let w = choose|w: int| 0 <= w < s.len() - 1 && s.drop_last()[w] == x;
            assert(s[w] == x);
        }
    }
}

/// Removal keeps a duplicate-free sequence duplicate-free.
pub proof fn lemma_without_id_distinct(s: Seq<i32>, id: i32)
    requires
        distinct(s),
    ensures
        distinct(without_id(s, id)),
    decreases s.len(),
{
    if s.len() > 0 {
        assert(distinct(s.drop_last()));
        lemma_without_id_distinct(s.drop_last(), id);
        let rest = without_id(s.drop_last(), id);
        if s.last() != id {
            assert forall|i: int, j: int|
                0 <= i < j < rest.push(s.last()).len() implies rest.push(s.last())[i] != rest.push(
                s.last(),
            )[j] by {
                if j == rest.len() {
                    if rest.contains(rest[i]) {
                    }
                    assert(rest[i] == rest.push(s.last())[i]);
                    if rest[i] == s.last() {
                        assert(rest.contains(rest[i]));
                        lemma_without_id_subset(s.drop_last(), id, rest[i]);
                        let w = choose|w: int|
                            0 <= w < s.len() - 1 && s.drop_last()[w] == rest[i];
                        assert(s[w] == s.last());
                        assert(false);
                    }
                }
            }
        }
    }
}

/// After an idempotent insert into a duplicate-free sequence the identifier
/// occurs exactly once, and inserting it again changes nothing.
pub proof fn lemma_add_id_once(s: Seq<i32>, id: i32)
    requires
        distinct(s),
    ensures
        count_id(add_id(s, id), id) == 1,
        add_id(add_id(s, id), id) == add_id(s, id),
        add_id(s, id).contains(id),
{
    if s.contains(id) {
        lemma_distinct_count_le_one(s, id);
        lemma_count_zero_iff_absent(s, id);
    } else {
        lemma_count_zero_iff_absent(s, id);
        lemma_count_push(s, id, id);
        assert(s.push(id)[s.len() as int] == id);
        assert(s.push(id).contains(id));
    }
}

} // verus!
