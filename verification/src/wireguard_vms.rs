//! The list of VMs that run a WireGuard client, read once from a text file with one VM
//! name per line.
use vstd::prelude::*;
use crate::text::{lines, lines_spec, str_eq, views};

verus! {

/// The names of the VMs with WireGuard, one per line of the file they come from.
pub struct WireGuardVMs {
    list: Vec<String>,
}

impl View for WireGuardVMs {
    type V = Seq<Seq<char>>;

    closed spec fn view(&self) -> Seq<Seq<char>> {
        views(self.list@)
    }
}

/// The list that a file with `content` gives; a file that could not be read gives none.
pub open spec fn wvm_list_of(content: Option<Seq<char>>) -> Seq<Seq<char>> {
    match content {
        Some(c) => lines_spec(c),
        None => Seq::empty(),
    }
}

impl WireGuardVMs {
    /// The list read from a file: its lines when it could be read (`Some`), empty otherwise.
    pub fn new(content: Option<&str>) -> (r: Self)
        ensures
            r@ == wvm_list_of(
                match content {
                    Some(c) => Some(c@),
                    None => None,
                },
            ),
    {
        match content {
            Some(c) => WireGuardVMs { list: lines(c) },
            None => WireGuardVMs { list: Vec::new() },
        }
    }

    /// Whether `query` is one of the names.
    pub fn contains(&self, query: &str) -> (r: bool)
        ensures
            r == self@.contains(query@),
    {
        let mut k: usize = 0;
        while k < self.list.len()
            invariant
                k <= self.list.len(),
                self@ == views(self.list@),
                forall|j: int| 0 <= j < k ==> self@[j] != query@,
            decreases self.list.len() - k,
        {
            if str_eq(self.list[k].as_str(), query) {
                assert(self@[k as int] == query@);
                return true;
            }
            k = k + 1;
        }
        false
    }
}

/// Fills `slot` with the list read from a file, unless it holds one already: the first
/// list stays.
pub fn initialize_wvm_list(slot: &mut Option<WireGuardVMs>, content: Option<&str>)
    ensures
        old(slot).is_some() ==> *final(slot) == *old(slot),
        old(slot).is_none() ==> (*final(slot) matches Some(l) && l@ == wvm_list_of(
            match content {
                Some(c) => Some(c@),
                None => None,
            },
        )),
{
    if slot.is_none() {
        *slot = Some(WireGuardVMs::new(content));
    }
}

/// Whether `query` names a VM of the list in `slot`, which must have been filled.
pub fn static_contains(slot: &Option<WireGuardVMs>, query: &str) -> (r: bool)
    requires
        slot is Some,
    ensures
        r == slot->0@.contains(query@),
{
    match slot {
        Some(l) => l.contains(query),
        None => false,
    }
}

} // verus!
