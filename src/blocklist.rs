use vstd::prelude::*;

verus! {

/// Whether `address` is one of the entries, compared by exact equality.
pub open spec fn is_listed(entries: Seq<String>, address: Seq<char>) -> bool {
    exists|i: int| 0 <= i < entries.len() && entries[i]@ == address
}

/// Answers whether `address_to_check` is blocked by the blocklist that was
/// loaded for this check. `None` stands for a blocklist that could not be
/// read: such a failure lets the request through rather than blocking it.
pub fn check_address_block(address_to_check: &str, addresses_blocked: Option<Vec<String>>) -> (r: bool)
    ensures
        r == match addresses_blocked {
            Some(entries) => is_listed(entries@, address_to_check@),
            None => false,
        },
{
    match addresses_blocked {
        Some(entries) => contains_address(&entries, address_to_check),
        None => false,
    }
}

/// The answer depends on nothing but the address and the lines of the
/// blocklist: two checks of one address against the same lines, that is
/// while the file is not modified, agree.
pub proof fn lemma_check_is_idempotent(first: Seq<String>, second: Seq<String>, address: Seq<char>)
    requires
        first.len() == second.len(),
        forall|i: int| 0 <= i < first.len() ==> #[trigger] first[i]@ == second[i]@,
    ensures
        is_listed(first, address) == is_listed(second, address),
{
    if is_listed(first, address) {
        let i = choose|i: int| 0 <= i < first.len() && first[i]@ == address;
        assert(second[i]@ == address);
    }
    if is_listed(second, address) {
        let i = choose|i: int| 0 <= i < second.len() && second[i]@ == address;
        assert(first[i]@ == address);
    }
}

/// Linear search for an entry equal to `address`.
fn contains_address(entries: &Vec<String>, address: &str) -> (r: bool)
    ensures
        r == is_listed(entries@, address@),
{
    let target = address.to_string();
    let mut i: usize = 0;
    while i < entries.len()
        invariant
            0 <= i <= entries.len(),
            target@ == address@,
            forall|j: int| 0 <= j < i ==> entries@[j]@ != address@,
        decreases entries.len() - i,
    {
        if entries[i] == target {
            return true;
        }
        i = i + 1;
    }
    false
}

} // verus!
