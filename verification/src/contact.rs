//! Contacts and their ordering by time of impact.

use crate::body::{BodyHandle, Vector3};
use vstd::prelude::*;
use vstd::seq_lib::{to_multiset_build, to_multiset_insert};

verus! {

/// One collision between two bodies, found for the current step.
#[derive(Clone, Copy, Debug, PartialEq, Eq, Structural)]
pub struct Contact {
    pub handle_a: BodyHandle,
    pub handle_b: BodyHandle,
    /// Contact point on the first body, in that body's frame.
    pub local_point_a: Vector3,
    /// Contact point on the second body, in that body's frame.
    pub local_point_b: Vector3,
    /// Contact normal in world space.
    pub normal: Vector3,
    /// Ticks from the start of the step to the moment of impact.
    pub time_of_impact: u64,
}

/// The times of impact of a run of contacts.
pub open spec fn impact_times(contacts: Seq<Contact>) -> Seq<int> {
    Seq::new(contacts.len(), |i: int| contacts[i].time_of_impact as int)
}

/// True when no contact comes before one with an earlier time of impact.
pub open spec fn is_ordered(contacts: Seq<Contact>) -> bool {
    forall|i: int, j: int|
        0 <= i < j < contacts.len() ==> (#[trigger] contacts[i]).time_of_impact <= (
        #[trigger] contacts[j]).time_of_impact
}

/// The contact at place `i` of `output` comes strictly before the one at
/// place `j`: it is earlier, or as early and from an earlier place.
pub open spec fn comes_before(output: Seq<Contact>, from: Seq<int>, i: int, j: int) -> bool {
    output[i].time_of_impact < output[j].time_of_impact || (output[i].time_of_impact
        == output[j].time_of_impact && from[i] < from[j])
}

/// `output` holds the first `n` contacts of `input`, the one at place `i`
/// taken from place `from[i]`, earliest impact first and, among equal times,
/// in the order of `input`.
pub open spec fn is_stable_prefix(
    input: Seq<Contact>,
    n: int,
    output: Seq<Contact>,
    from: Seq<int>,
) -> bool {
    &&& 0 <= n <= input.len()
    &&& output.len() == n
    &&& from.len() == n
    &&& forall|i: int|
        0 <= i < n ==> 0 <= #[trigger] from[i] < n && output[i] == input[from[i]]
    &&& forall|i: int, j: int| 0 <= i < j < n ==> #[trigger] comes_before(output, from, i, j)
}

/// `output` is `input` rearranged by `from`, earliest impact first, and
/// contacts with equal times keep the order they had in `input`. Since the
/// pairs of time and former place strictly increase, `from` names every place
/// of `input` once, and there is exactly one such `output`.
pub open spec fn is_stable_order(input: Seq<Contact>, output: Seq<Contact>, from: Seq<int>) -> bool {
    is_stable_prefix(input, input.len() as int, output, from)
}

/// A stable order is ordered, it takes every contact from a place of the
/// input, and no two from the same place.
pub proof fn lemma_stable_order_is_ordered(
    input: Seq<Contact>,
    output: Seq<Contact>,
    from: Seq<int>,
)
    requires
        is_stable_order(input, output, from),
    ensures
        is_ordered(output),
        output.len() == input.len(),
        forall|i: int| 0 <= i < output.len() ==> input.contains(#[trigger] output[i]),
        forall|i: int, j: int| 0 <= i < j < from.len() ==> #[trigger] from[i] != #[trigger] from[j],
{
    assert forall|i: int, j: int| 0 <= i < j < output.len() implies (#[trigger] output[i]).time_of_impact
        <= (#[trigger] output[j]).time_of_impact by {
        assert(comes_before(output, from, i, j));
    }
    assert forall|i: int| 0 <= i < output.len() implies input.contains(#[trigger] output[i]) by {
        assert(input[from[i]] == output[i]);
    }
    assert forall|i: int, j: int| 0 <= i < j < from.len() implies #[trigger] from[i]
        != #[trigger] from[j] by {
        assert(comes_before(output, from, i, j));
    }
}

/// Sorts contacts by time of impact, earliest first; contacts with the same
/// time stay in the order in which they were found.
pub fn sort_contacts(input: &Vec<Contact>) -> (output: Vec<Contact>)
    ensures
        exists|from: Seq<int>| is_stable_order(input@, output@, from),
        is_ordered(output@),
        output@.len() == input@.len(),
        output@.to_multiset() == input@.to_multiset(),
{
    let mut output: Vec<Contact> = Vec::new();
    let ghost mut from: Seq<int> = Seq::empty();
    let mut k: usize = 0;
    assert(input@.take(0) =~= output@);
    while k < input.len()
        invariant
            k <= input.len(),
            is_stable_prefix(input@, k as int, output@, from),
            output@.to_multiset() == input@.take(k as int).to_multiset(),
        decreases input.len() - k,
    {
        let contact = input[k];
        let mut p: usize = output.len();
        while p > 0 && output[p - 1].time_of_impact > contact.time_of_impact
            invariant
                p <= output.len(),
                forall|i: int|
                    p <= i < output.len() ==> (#[trigger] output[i]).time_of_impact
                        > contact.time_of_impact,
            decreases p,
        {
            p -= 1;
        }
        let ghost before = output@;
        let ghost before_from = from;
        output.insert(p, contact);
        proof {
            from = before_from.insert(p as int, k as int);
            before.insert_ensures(p as int, contact);
            to_multiset_insert(before, p as int, contact);
            to_multiset_build(input@.take(k as int), contact);
            assert(input@.take(k as int + 1) =~= input@.take(k as int).push(contact));
            before_from.insert_ensures(p as int, k as int);
            let n = k as int + 1;
            assert forall|i: int| 0 <= i < n implies 0 <= #[trigger] from[i] < n && output@[i]
                == input@[from[i]] by {
                if i < p {
                    let _ = before_from[i];
                } else if i > p {
                    let _ = before_from[i - 1];
                    assert(from[i - 1 + 1] == before_from[i - 1]);
                    assert(output@[i - 1 + 1] == before[i - 1]);
                }
            }
            assert forall|i: int, j: int| 0 <= i < j < n implies #[trigger] comes_before(
                output@,
                from,
                i,
                j,
            ) by {
                let oi = if i < p { i } else { i - 1 };
                let oj = if j < p { j } else { j - 1 };
                if i != p && j != p {
                    assert(comes_before(before, before_from, oi, oj));
                }
                if i != p {
                    let _ = before_from[oi];
                    assert(from[i] == before_from[oi] && output@[i] == before[oi]) by {
                        if i > p {
                            assert(from[oi + 1] == before_from[oi]);
                            assert(output@[oi + 1] == before[oi]);
                        }
                    }
                }
                if j != p {
                    let _ = before_from[oj];
                    assert(from[j] == before_from[oj] && output@[j] == before[oj]) by {
                        if j > p {
                            assert(from[oj + 1] == before_from[oj]);
                            assert(output@[oj + 1] == before[oj]);
                        }
                    }
                }
                if j == p {
                    // everything before place p is no later than the new contact
                    let _ = before_from[p - 1];
                    assert(before[p - 1].time_of_impact <= contact.time_of_impact);
                    if i < p - 1 {
                        assert(comes_before(before, before_from, i, p - 1));
                    }
                } else if i == p {
                    assert(before[oj].time_of_impact > contact.time_of_impact);
                }
            }
        }
        k += 1;
    }
    proof {
        lemma_stable_order_is_ordered(input@, output@, from);
        assert(input@.take(input@.len() as int) =~= input@);
    }
    output
}

} // verus!
