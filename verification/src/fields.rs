use vstd::prelude::*;

verus! {

/// The mapping that a sequence of key/value writes denotes: a later write to a
/// key wins over an earlier one.
pub open spec fn fields_map(s: Seq<(String, String)>) -> Map<Seq<char>, Seq<char>>
    decreases s.len(),
{
    if s.len() == 0 {
        Map::empty()
    } else {
        fields_map(s.drop_last()).insert(s.last().0@, s.last().1@)
    }
}

/// The entry at `j` is the value of its key when no later write touches the key.
proof fn lemma_fields_map_at(s: Seq<(String, String)>, j: int)
    requires
        0 <= j < s.len(),
        forall|k: int| j < k < s.len() ==> s[k].0@ != s[j].0@,
    ensures
        fields_map(s).contains_key(s[j].0@),
        fields_map(s)[s[j].0@] == s[j].1@,
    decreases s.len(),
{
    if j < s.len() - 1 {
        lemma_fields_map_at(s.drop_last(), j);
    }
}

/// A key that no write mentions is absent from the mapping.
proof fn lemma_fields_map_absent(s: Seq<(String, String)>, key: Seq<char>)
    requires
        forall|k: int| 0 <= k < s.len() ==> s[k].0@ != key,
    ensures
        !fields_map(s).contains_key(key),
    decreases s.len(),
{
    if s.len() > 0 {
        lemma_fields_map_absent(s.drop_last(), key);
    }
}

pub fn put_field(fields: &mut Vec<(String, String)>, key: String, value: String)
    ensures
        final(fields)@ == old(fields)@.push((key, value)),
        fields_map(final(fields)@) == fields_map(old(fields)@).insert(key@, value@),
{
    let ghost pre = fields@;
    fields.push((key, value));
    proof {
        assert(fields@.drop_last() =~= pre);
    }
}

pub fn find_field<'a>(fields: &'a Vec<(String, String)>, key: &str) -> (r: Option<&'a String>)
    ensures
        match r {
            Some(v) => fields_map(fields@).contains_key(key@) && v@ == fields_map(fields@)[key@],
            None => !fields_map(fields@).contains_key(key@),
        },
{
    let wanted: String = key.to_owned();
    let mut hit: Option<usize> = None;
    let mut i: usize = 0;
    while i < fields.len()
        invariant
            i <= fields@.len(),
            wanted@ == key@,
            match hit {
                Some(j) => {
                    &&& j < i
                    &&& fields@[j as int].0@ == key@
                    &&& forall|k: int| j < k < i ==> fields@[k].0@ != key@
                },
                None => forall|k: int| 0 <= k < i ==> fields@[k].0@ != key@,
            },
        decreases fields@.len() - i,
    {
        if fields[i].0 == wanted {
            hit = Some(i);
        }
        i += 1;
    }
    match hit {
        Some(j) => {
            proof {
                lemma_fields_map_at(fields@, j as int);
            }
            Some(&fields[j].1)
        },
        None => {
            proof {
                lemma_fields_map_absent(fields@, key@);
            }
            None
        },
    }
}

} // verus!
