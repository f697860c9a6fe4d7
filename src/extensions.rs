use vstd::prelude::*;

verus! {

/// The separator between names in a list of extension names.
pub const NAME_SEPARATOR: u8 = 0x20;

/// `parts` joined with one separator between each two of them.
pub open spec fn join_names(parts: Seq<Seq<u8>>) -> Seq<u8>
    decreases parts.len(),
{
    if parts.len() == 0 {
        Seq::empty()
    } else if parts.len() == 1 {
        parts[0]
    } else {
        join_names(parts.drop_last()) + seq![NAME_SEPARATOR] + parts.last()
    }
}

/// The byte strings held by `v`.
pub open spec fn byte_views(v: Seq<Vec<u8>>) -> Seq<Seq<u8>> {
    v.map_values(|b: Vec<u8>| b@)
}

proof fn lemma_join_extend(parts: Seq<Seq<u8>>, last: Seq<u8>, b: u8)
    ensures
        join_names(parts.push(last.push(b))) == join_names(parts.push(last)).push(b),
{
    let with = parts.push(last.push(b));
    let without = parts.push(last);
    assert(with.drop_last() =~= parts);
    assert(without.drop_last() =~= parts);
    if parts.len() == 0 {
        assert(join_names(with) == with[0]);
        assert(join_names(without) == without[0]);
    } else {
        assert(join_names(with) == join_names(parts) + seq![NAME_SEPARATOR] + last.push(b));
        assert(join_names(without) == join_names(parts) + seq![NAME_SEPARATOR] + last);
        assert(join_names(with) =~= join_names(without).push(b));
    }
}

proof fn lemma_join_split(parts: Seq<Seq<u8>>, last: Seq<u8>)
    ensures
        join_names(parts.push(last).push(Seq::empty())) == join_names(parts.push(last)).push(
            NAME_SEPARATOR,
        ),
{
    let longer = parts.push(last).push(Seq::<u8>::empty());
    assert(longer.drop_last() =~= parts.push(last));
    assert(join_names(longer) == join_names(parts.push(last)) + seq![NAME_SEPARATOR] + Seq::<
        u8,
    >::empty());
    assert(join_names(longer) =~= join_names(parts.push(last)).push(NAME_SEPARATOR));
}

/// Splits a separator-delimited list of extension names, as the compositor
/// reports the extensions it needs. Like splitting a string on a single
/// space: two separators in a row, or one at either end, give an empty name.
pub fn split_extension_names(names: &Vec<u8>) -> (r: Vec<Vec<u8>>)
    ensures
        r@.len() >= 1,
        join_names(byte_views(r@)) == names@,
        forall|i: int| 0 <= i < r@.len() ==> !(#[trigger] r@[i])@.contains(NAME_SEPARATOR),
{
    let mut parts: Vec<Vec<u8>> = Vec::new();
    let mut current: Vec<u8> = Vec::new();
    let mut i: usize = 0;
    while i < names.len()
        invariant
            i <= names@.len(),
            join_names(byte_views(parts@).push(current@)) == names@.subrange(0, i as int),
            forall|k: int| 0 <= k < parts@.len() ==> !(#[trigger] parts@[k])@.contains(NAME_SEPARATOR),
            !current@.contains(NAME_SEPARATOR),
        decreases names@.len() - i,
    {
        let b = names[i];
        proof {
            assert(names@.subrange(0, i + 1) =~= names@.subrange(0, i as int).push(b));
        }
        if b == NAME_SEPARATOR {
            proof {
                lemma_join_split(byte_views(parts@), current@);
            }
            let finished = current;
            current = Vec::new();
            let ghost old_parts = parts@;
            parts.push(finished);
            proof {
                assert(byte_views(parts@) =~= byte_views(old_parts).push(finished@));
                assert(current@ =~= Seq::<u8>::empty());
            }
        } else {
            let ghost old_current = current@;
            current.push(b);
            proof {
                lemma_join_extend(byte_views(parts@), old_current, b);
                assert(current@ =~= old_current.push(b));
                assert forall|x: u8| current@.contains(x) implies x != NAME_SEPARATOR by {
                    let k = choose|k: int| 0 <= k < current@.len() && current@[k] == x;
                    if k < old_current.len() {
                        assert(old_current[k] == x);
                    }
                }
            }
        }
        i = i + 1;
    }
    let ghost old_parts = parts@;
    parts.push(current);
    proof {
        assert(byte_views(parts@) =~= byte_views(old_parts).push(current@));
        assert(names@.subrange(0, names@.len() as int) =~= names@);
    }
    parts
}

} // verus!
