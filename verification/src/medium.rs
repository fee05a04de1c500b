//! The wireless medium's broadcast rule: a transmission goes to every
//! connected peer except the one it came from.
use vstd::prelude::*;

verus! {

/// Which peer slots receive a transmission that arrived on the port named
/// `origin`: exactly those whose in-port name differs, in slot order. A
/// peer never receives its own transmissions.
pub fn medium_targets(port_names: &Vec<String>, origin: &String) -> (r: Vec<usize>)
    ensures
        forall|k: int|
            0 <= k < r@.len() ==> #[trigger] r@[k] < port_names@.len() && port_names@[
                r@[k] as int
            ]@ != origin@,
        forall|j: int|
            0 <= j < port_names@.len() && port_names@[j]@ != origin@ ==> exists|k: int|
                0 <= k < r@.len() && r@[k] == j,
        forall|k1: int, k2: int| 0 <= k1 < k2 < r@.len() ==> r@[k1] < r@[k2],
{
    let n: usize = port_names.len();
    let mut r: Vec<usize> = Vec::new();
    let mut i: usize = 0;
    while i < n
        invariant
            i <= n,
            n == port_names@.len(),
            forall|k: int|
                0 <= k < r@.len() ==> #[trigger] r@[k] < i && port_names@[r@[k] as int]@
                    != origin@,
            forall|j: int|
                0 <= j < i && port_names@[j]@ != origin@ ==> exists|k: int|
                    0 <= k < r@.len() && r@[k] == j,
            forall|k1: int, k2: int| 0 <= k1 < k2 < r@.len() ==> r@[k1] < r@[k2],
        decreases n - i,
    {
        let p = &port_names[i];
        let ghost r0 = r@;
        if !(*p == *origin) {
            r.push(i);
            proof {
                let last = r@.len() - 1;
                assert(r@[last] == i as usize);
                assert forall|j: int|
                    0 <= j < i + 1 && port_names@[j]@ != origin@ implies exists|k: int|
                    0 <= k < r@.len() && r@[k] == j by {
                    if j < i {
                        let k0 = choose|k0: int| 0 <= k0 < r0.len() && r0[k0] == j;
                        assert(r@[k0] == j);
                    } else {
                        assert(r@[last] == j);
                    }
                }
            }
        }
        i = i + 1;
    }
    r
}

} // verus!
