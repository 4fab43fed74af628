//! Choosing which validation layers an instance is created with.
use vstd::prelude::*;

verus! {

/// The wanted layer names that are available, in the order they are wanted.
pub open spec fn kept_layers(wanted: Seq<Seq<char>>, available: Seq<Seq<char>>) -> Seq<Seq<char>>
    decreases wanted.len(),
{
    if wanted.len() == 0 {
        seq![]
    } else {
        let rest = kept_layers(wanted.drop_last(), available);
        if available.contains(wanted.last()) {
            rest.push(wanted.last())
        } else {
            rest
        }
    }
}

pub open spec fn names(v: Seq<String>) -> Seq<Seq<char>> {
    v.map_values(|s: String| s@)
}

fn is_available(name: &String, available: &Vec<String>) -> (r: bool)
    ensures
        r == names(available@).contains(name@),
{
    let mut i: usize = 0;
    while i < available.len()
        invariant
            i <= available@.len(),
            forall|k: int| 0 <= k < i ==> available@[k]@ != name@,
        decreases available@.len() - i,
    {
        if available[i] == *name {
            assert(names(available@)[i as int] == name@);
            return true;
        }
        i = i + 1;
    }
    assert forall|k: int| 0 <= k < names(available@).len() implies names(available@)[k]
        != name@ by {
        assert(available@[k]@ != name@);
    }
    false
}

/// The wanted validation layers that the instance offers, in the order they
/// are wanted. An empty result means validation cannot be enabled.
pub fn check_validation_layer_support(wanted: &Vec<String>, available: &Vec<String>) -> (r: Vec<
    String,
>)
    ensures
        names(r@) == kept_layers(names(wanted@), names(available@)),
{
    let mut kept: Vec<String> = Vec::new();
    let mut i: usize = 0;
    while i < wanted.len()
        invariant
            i <= wanted@.len(),
            names(kept@) == kept_layers(names(wanted@).subrange(0, i as int), names(available@)),
        decreases wanted@.len() - i,
    {
        let name = wanted[i].clone();
        let found = is_available(&name, available);
        proof {
            let w = names(wanted@);
            assert(w.subrange(0, i + 1).drop_last() =~= w.subrange(0, i as int));
            assert(w.subrange(0, i + 1).last() == name@);
        }
        if found {
            kept.push(name);
            assert(names(kept@) =~= names(kept@).subrange(0, kept@.len() - 1).push(name@));
        }
        i = i + 1;
    }
    assert(names(wanted@).subrange(0, wanted@.len() as int) =~= names(wanted@));
    kept
}

} // verus!
