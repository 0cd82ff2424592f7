use vstd::prelude::*;

verus! {

/// One address/size range of a device's memory-mapped register window,
/// as the hardware description declares it.
#[derive(Debug, Clone, Copy, PartialEq, Eq, Structural)]
pub struct MemoryRegion {
    /// Base address of the range.
    pub starting_address: usize,
    /// Length of the range in bytes, where the description gives one.
    pub size: Option<usize>,
}

/// One device entry of the hardware description: the compatibility keys it
/// declares, and its register ranges in declaration order.
#[derive(Debug)]
pub struct DeviceNode {
    pub compatible: Vec<String>,
    pub reg: Vec<MemoryRegion>,
}

/// A parsed hardware description: the devices present in the running
/// environment, in tree order. The boot environment hands the description
/// in as a blob; the shell parses it into this form once, and the core
/// queries it.
#[derive(Debug)]
pub struct DeviceTree {
    pub nodes: Vec<DeviceNode>,
}

/// Whether `node` declares the compatibility key `key` (exact string
/// equality against any entry of its compatibility list).
pub open spec fn node_matches(node: DeviceNode, key: Seq<char>) -> bool {
    exists|i: int| 0 <= i < node.compatible@.len() && #[trigger] node.compatible@[i]@ == key
}

/// The first node in tree order that declares `key`, if any.
pub open spec fn find_node(nodes: Seq<DeviceNode>, key: Seq<char>) -> Option<DeviceNode>
    decreases nodes.len(),
{
    if nodes.len() == 0 {
        None
    } else if node_matches(nodes[0], key) {
        Some(nodes[0])
    } else {
        find_node(nodes.drop_first(), key)
    }
}

/// The address that `key` resolves to in `tree`: the starting address of
/// the first register range of the first matching device. Absent when no
/// device matches or the matching device has no register range.
pub open spec fn resolved_addr(tree: DeviceTree, key: Seq<char>) -> Option<usize> {
    match find_node(tree.nodes@, key) {
        Option::None => None,
        Option::Some(node) => if node.reg@.len() > 0 {
            Some(node.reg@[0].starting_address)
        } else {
            None
        },
    }
}

/// If the first `i` nodes do not match and node `i` does, the search finds
/// node `i`.
pub proof fn lemma_find_node_at(nodes: Seq<DeviceNode>, key: Seq<char>, i: int)
    requires
        0 <= i < nodes.len(),
        node_matches(nodes[i], key),
        forall|k: int| 0 <= k < i ==> !node_matches(#[trigger] nodes[k], key),
    ensures
        find_node(nodes, key) == Some(nodes[i]),
    decreases i,
{
    if i > 0 {
        lemma_find_node_at(nodes.drop_first(), key, i - 1);
    }
}

/// If no node matches, the search finds nothing.
pub proof fn lemma_find_node_none(nodes: Seq<DeviceNode>, key: Seq<char>)
    requires
        forall|k: int| 0 <= k < nodes.len() ==> !node_matches(#[trigger] nodes[k], key),
    ensures
        find_node(nodes, key) is None,
    decreases nodes.len(),
{
    if nodes.len() > 0 {
        lemma_find_node_none(nodes.drop_first(), key);
    }
}

/// A compatibility key that no device of the description declares resolves
/// to no address at all, so nothing can be bound from it.
pub proof fn lemma_absent_key_resolves_none(tree: DeviceTree, key: Seq<char>)
    requires
        forall|k: int| 0 <= k < tree.nodes@.len() ==> !node_matches(#[trigger] tree.nodes@[k], key),
    ensures
        resolved_addr(tree, key) is None,
{
    lemma_find_node_none(tree.nodes@, key);
}

/// A key whose first matching device has at least one register range
/// resolves to exactly the first range's starting address: later ranges
/// of that device play no part.
pub proof fn lemma_resolves_to_first_range(tree: DeviceTree, key: Seq<char>, i: int)
    requires
        0 <= i < tree.nodes@.len(),
        node_matches(tree.nodes@[i], key),
        forall|k: int| 0 <= k < i ==> !node_matches(#[trigger] tree.nodes@[k], key),
        tree.nodes@[i].reg@.len() > 0,
    ensures
        resolved_addr(tree, key) == Some(tree.nodes@[i].reg@[0].starting_address),
{
    lemma_find_node_at(tree.nodes@, key, i);
}

/// Whether `node` declares `key`, decided by comparing `key` against each
/// entry of the node's compatibility list.
fn node_declares(node: &DeviceNode, key: &String) -> (r: bool)
    ensures
        r == node_matches(*node, key@),
{
    let n: usize = node.compatible.len();
    let mut j: usize = 0;
    while j < n
        invariant
            n == node.compatible@.len(),
            0 <= j <= n,
            forall|k: int| 0 <= k < j ==> #[trigger] node.compatible@[k]@ != key@,
        decreases n - j,
    {
        if node.compatible[j] == *key {
            return true;
        }
        j = j + 1;
    }
    false
}

/// Resolves `with` against the description: the starting address of the
/// first register range of the first matching device, or nothing when no
/// device matches or the match has no register range. The one-shot lookup
/// for devices consulted exactly once.
pub fn try_find_compatible_ptr(with: &str, fdt: &DeviceTree) -> (r: Option<usize>)
    ensures
        r == resolved_addr(*fdt, with@),
{
    let key: String = with.to_owned();
    let n: usize = fdt.nodes.len();
    let mut i: usize = 0;
    while i < n
        invariant
            n == fdt.nodes@.len(),
            0 <= i <= n,
            key@ == with@,
            forall|k: int| 0 <= k < i ==> !node_matches(#[trigger] fdt.nodes@[k], with@),
        decreases n - i,
    {
        let node = &fdt.nodes[i];
        if node_declares(node, &key) {
            proof {
                lemma_find_node_at(fdt.nodes@, with@, i as int);
            }
            if node.reg.len() > 0 {
                return Some(node.reg[0].starting_address);
            } else {
                return None;
            }
        }
        i = i + 1;
    }
    proof {
        lemma_find_node_none(fdt.nodes@, with@);
    }
    None
}

/// The one-shot lookup for devices whose absence the caller treats as
/// fatal: the caller must have established that the key resolves.
pub fn find_compatible_ptr(with: &str, fdt: &DeviceTree) -> (r: usize)
    requires
        resolved_addr(*fdt, with@) is Some,
    ensures
        Some(r) == resolved_addr(*fdt, with@),
{
    try_find_compatible_ptr(with, fdt).unwrap()
}

/// The base address of one device's register window, bound at most once
/// during boot and read many times thereafter. Starts unbound; a failed
/// lookup leaves it untouched, so an unbound slot can never hand out an
/// address.
pub struct Register {
    base: Option<usize>,
}

impl Register {
    /// The bound address, or nothing while unbound.
    pub closed spec fn bound(&self) -> Option<usize> {
        self.base
    }

    /// A fresh, unbound slot.
    pub fn new() -> (r: Self)
        ensures
            r.bound() is None,
    {
        Register { base: None }
    }

    /// Resolves `with` against the description and publishes the address
    /// on success. On failure the slot is left exactly as it was.
    pub fn find_compatible(&mut self, with: &str, fdt: &DeviceTree) -> (ok: bool)
        ensures
            ok == (resolved_addr(*fdt, with@) is Some),
            ok ==> final(self).bound() == resolved_addr(*fdt, with@),
            !ok ==> final(self).bound() == old(self).bound(),
    {
        match try_find_compatible_ptr(with, fdt) {
            Some(addr) => {
                self.base = Some(addr);
                true
            },
            None => false,
        }
    }

    /// The currently bound address: nothing while unbound, so a device
    /// handle can never be built from an unbound slot.
    pub fn cast(&self) -> (r: Option<usize>)
        ensures
            r == self.bound(),
    {
        self.base
    }
}

/// Binding twice from the same key and the same description stores the
/// same address: the resolved address is a function of the two alone, so
/// repeated binds cannot drift.
pub proof fn lemma_bind_idempotent(r1: Register, r2: Register, tree: DeviceTree, key: Seq<char>)
    requires
        r1.bound() == resolved_addr(tree, key),
        r2.bound() == resolved_addr(tree, key),
    ensures
        r1.bound() == r2.bound(),
{
}

} // verus!
