//! The snapshot that one reconciliation pass works on: monitoring items,
//! existing web scenarios, and hosts, all fetched before the pass starts
//! and read-only afterwards.

use vstd::prelude::*;

verus! {

/// A monitored data point definition on a host, identified by its key.
#[derive(Clone, Debug)]
pub struct ZabbixItem {
    pub key_: String,
    pub name: String,
    pub hostid: String,
}

/// An existing synthetic web check; its name is the join key against
/// derived scenario names.
#[derive(Clone, Debug)]
pub struct ZabbixWebScenario {
    pub name: String,
}

/// A host, referenced by items through its id.
#[derive(Clone, Debug)]
pub struct ZabbixHost {
    pub hostid: String,
    pub host: String,
}

/// The three collections one pass reconciles against.
#[derive(Clone, Debug)]
pub struct ZabbixObjects {
    pub items: Vec<ZabbixItem>,
    pub web_scenarios: Vec<ZabbixWebScenario>,
    pub hosts: Vec<ZabbixHost>,
}

/// The host ids referenced by a collection of items, in item order; the
/// host fetch of a pass looks these up in one batch.
pub fn host_ids(items: &Vec<ZabbixItem>) -> (r: Vec<String>)
    ensures
        r@.len() == items@.len(),
        forall|i: int| 0 <= i < items@.len() ==> r@[i]@ == items@[i].hostid@,
{
    let mut r: Vec<String> = Vec::new();
    let mut i: usize = 0;
    while i < items.len()
        invariant
            0 <= i <= items@.len(),
            r@.len() == i,
            forall|j: int| 0 <= j < i ==> r@[j]@ == items@[j].hostid@,
        decreases items@.len() - i,
    {
        r.push(items[i].hostid.clone());
        i += 1;
    }
    r
}

} // verus!
