//! The reconciliation decisions: for each item of a snapshot, decide
//! whether its derived web scenario must be created, and compute exactly
//! what to create.  Items are processed independently and in order; an
//! item's failure never blocks the others.

use vstd::prelude::*;
use vstd::string::*;
use crate::model::{ZabbixHost, ZabbixItem, ZabbixObjects, ZabbixWebScenario};
use crate::naming::{
    extract_url, key_matches, scenario_name, scenario_name_of, trigger_description,
    trigger_description_of, trigger_expression, trigger_expression_of, url_of_key,
};

verus! {

/// Whether a scenario with the given name is present in the snapshot.
pub open spec fn scenario_present(scenarios: Seq<ZabbixWebScenario>, name: Seq<char>) -> bool {
    exists|i: int| 0 <= i < scenarios.len() && scenarios[i].name@ == name
}

/// The first host of the snapshot carrying the given id, if any.
pub open spec fn find_host(hosts: Seq<ZabbixHost>, id: Seq<char>) -> Option<ZabbixHost>
    decreases hosts.len(),
{
    if hosts.len() == 0 {
        None
    } else if hosts[0].hostid@ == id {
        Some(hosts[0])
    } else {
        find_host(hosts.drop_first(), id)
    }
}

proof fn lemma_find_host_absent(hosts: Seq<ZabbixHost>, id: Seq<char>)
    requires
        forall|j: int| 0 <= j < hosts.len() ==> hosts[j].hostid@ != id,
    ensures
        find_host(hosts, id) is None,
    decreases hosts.len(),
{
    if hosts.len() > 0 {
        assert(forall|j: int|
            0 <= j < hosts.drop_first().len() ==> hosts.drop_first()[j] == hosts[j + 1]);
        lemma_find_host_absent(hosts.drop_first(), id);
    }
}

proof fn lemma_find_host_first(hosts: Seq<ZabbixHost>, id: Seq<char>, i: int)
    requires
        0 <= i < hosts.len(),
        forall|j: int| 0 <= j < i ==> hosts[j].hostid@ != id,
        hosts[i].hostid@ == id,
    ensures
        find_host(hosts, id) == Some(hosts[i]),
    decreases i,
{
    if i > 0 {
        assert(forall|j: int|
            0 <= j < hosts.drop_first().len() ==> hosts.drop_first()[j] == hosts[j + 1]);
        lemma_find_host_first(hosts.drop_first(), id, i - 1);
    }
}

/// Searches the snapshot's scenarios for one with exactly the given name.
fn search_scenario(scenarios: &Vec<ZabbixWebScenario>, name: &String) -> (r: bool)
    ensures
        r == scenario_present(scenarios@, name@),
{
    let mut i: usize = 0;
    while i < scenarios.len()
        invariant
            0 <= i <= scenarios@.len(),
            forall|j: int| 0 <= j < i ==> scenarios@[j].name@ != name@,
        decreases scenarios@.len() - i,
    {
        if scenarios[i].name == *name {
            return true;
        }
        i += 1;
    }
    false
}

/// Looks up the first host of the snapshot carrying the given id and
/// returns its position.
fn lookup_host(hosts: &Vec<ZabbixHost>, id: &String) -> (r: Option<usize>)
    ensures
        r is None <==> find_host(hosts@, id@) is None,
        r matches Some(i) ==> 0 <= i < hosts@.len() && Some(hosts@[i as int]) == find_host(
            hosts@,
            id@,
        ),
{
    let mut i: usize = 0;
    while i < hosts.len()
        invariant
            0 <= i <= hosts@.len(),
            forall|j: int| 0 <= j < i ==> hosts@[j].hostid@ != id@,
        decreases hosts@.len() - i,
    {
        if hosts[i].hostid == *id {
            proof {
                lemma_find_host_first(hosts@, id@, i as int);
            }
            return Some(i);
        }
        i += 1;
    }
    proof {
        lemma_find_host_absent(hosts@, id@);
    }
    None
}

/// One step of a web scenario to create: fetch the URL and expect 200.
#[derive(Clone, Debug)]
pub struct WebScenarioStep {
    pub name: String,
    pub url: String,
    pub status_codes: String,
    pub no: u8,
}

/// The web scenario to create for one item: derived name, owning host id,
/// and a single step.
#[derive(Clone, Debug)]
pub struct CreateScenarioPlan {
    pub name: String,
    pub hostid: String,
    pub step: WebScenarioStep,
}

/// The trigger to create after the scenario: host display name, derived
/// description and alerting expression.
#[derive(Clone, Debug)]
pub struct CreateTriggerPlan {
    pub host: String,
    pub description: String,
    pub expression: String,
}

/// Everything to create for one item.
#[derive(Clone, Debug)]
pub struct CreationPlan {
    pub url: String,
    pub scenario: CreateScenarioPlan,
    pub trigger: CreateTriggerPlan,
}

/// The decision for one item of the snapshot.
#[derive(Clone, Debug)]
pub enum ItemPlan {
    /// The item's key does not follow the naming convention.
    UnsupportedFormat,
    /// The derived scenario already exists: nothing to create.
    AlreadyPresent,
    /// The item's host id is absent from the host snapshot.
    HostNotFound,
    /// The derived scenario is missing: create it, then its trigger.
    Create { plan: CreationPlan },
}

/// What the single step of a created scenario must hold for a URL.
pub open spec fn step_obeys(step: WebScenarioStep, url: Seq<char>) -> bool {
    &&& step.name@ == "Get page"@
    &&& step.url@ == url
    &&& step.status_codes@ == "200"@
    &&& step.no == 1u8
}

/// What a creation plan must hold for an item key and its resolved host.
pub open spec fn creation_plan_obeys(p: CreationPlan, key: Seq<char>, host: ZabbixHost) -> bool {
    &&& p.url@ == url_of_key(key)
    &&& p.scenario.name@ == scenario_name_of(url_of_key(key))
    &&& p.scenario.hostid@ == host.hostid@
    &&& step_obeys(p.scenario.step, url_of_key(key))
    &&& p.trigger.host@ == host.host@
    &&& p.trigger.description@ == trigger_description_of(url_of_key(key))
    &&& p.trigger.expression@ == trigger_expression_of(host.host@, url_of_key(key))
}

/// The decision owed to one item: a malformed key is an error; a present
/// scenario is a skip; otherwise the host is resolved and, if found, the
/// plan holds exactly the derived objects.
pub open spec fn plan_obeys(objects: ZabbixObjects, item: ZabbixItem, r: ItemPlan) -> bool {
    &&& !key_matches(item.key_@) ==> r is UnsupportedFormat
    &&& key_matches(item.key_@) && scenario_present(
        objects.web_scenarios@,
        scenario_name_of(url_of_key(item.key_@)),
    ) ==> r is AlreadyPresent
    &&& key_matches(item.key_@) && !scenario_present(
        objects.web_scenarios@,
        scenario_name_of(url_of_key(item.key_@)),
    ) ==> match find_host(objects.hosts@, item.hostid@) {
        None => r is HostNotFound,
        Some(host) => r matches ItemPlan::Create { plan } && creation_plan_obeys(
            plan,
            item.key_@,
            host,
        ),
    }
}

/// Decides what to do for one item of the snapshot.
pub fn plan_for_item(objects: &ZabbixObjects, item: &ZabbixItem) -> (r: ItemPlan)
    ensures
        plan_obeys(*objects, *item, r),
{
    match extract_url(item.key_.as_str()) {
        None => ItemPlan::UnsupportedFormat,
        Some(url) => {
            let name = scenario_name(url.as_str());
            if search_scenario(&objects.web_scenarios, &name) {
                ItemPlan::AlreadyPresent
            } else {
                match lookup_host(&objects.hosts, &item.hostid) {
                    None => ItemPlan::HostNotFound,
                    Some(i) => {
                        let host_id = objects.hosts[i].hostid.clone();
                        let host_name = objects.hosts[i].host.clone();
                        let step = WebScenarioStep {
                            name: String::from_str("Get page"),
                            url: url.clone(),
                            status_codes: String::from_str("200"),
                            no: 1,
                        };
                        let scenario = CreateScenarioPlan { name, hostid: host_id, step };
                        let trigger = CreateTriggerPlan {
                            host: host_name.clone(),
                            description: trigger_description(url.as_str()),
                            expression: trigger_expression(host_name.as_str(), url.as_str()),
                        };
                        ItemPlan::Create { plan: CreationPlan { url, scenario, trigger } }
                    },
                }
            }
        },
    }
}

/// What a full pass owes: one decision per item, in item order, each
/// obeying the per-item contract.
pub open spec fn plans_obey(objects: ZabbixObjects, plans: Seq<ItemPlan>) -> bool {
    &&& plans.len() == objects.items@.len()
    &&& forall|i: int| 0 <= i < plans.len() ==> plan_obeys(objects, objects.items@[i], plans[i])
}

/// Decides what to do for every item of the snapshot; no item is skipped,
/// whatever the decisions for the others are.
pub fn plan_items(objects: &ZabbixObjects) -> (r: Vec<ItemPlan>)
    ensures
        plans_obey(*objects, r@),
{
    let mut r: Vec<ItemPlan> = Vec::new();
    let mut i: usize = 0;
    while i < objects.items.len()
        invariant
            0 <= i <= objects.items@.len(),
            r@.len() == i,
            forall|j: int|
                0 <= j < i ==> plan_obeys(*objects, objects.items@[j], r@[j]),
        decreases objects.items@.len() - i,
    {
        let plan = plan_for_item(objects, &objects.items[i]);
        r.push(plan);
        i += 1;
    }
    r
}

/// Idempotence across passes: when one pass decided to create a scenario
/// for an item and a later pass's snapshot holds a scenario of exactly
/// the name that was created, the later pass decides to skip that item,
/// so it issues no further creation for it.
pub proof fn lemma_second_pass_skips(
    first: ZabbixObjects,
    second: ZabbixObjects,
    item: ZabbixItem,
    plan1: ItemPlan,
    plan2: ItemPlan,
)
    requires
        plan_obeys(first, item, plan1),
        plan1 is Create,
        scenario_present(second.web_scenarios@, plan1->plan.scenario.name@),
        plan_obeys(second, item, plan2),
    ensures
        plan2 is AlreadyPresent,
        plan2 !is Create,
{
    let key = item.key_@;
    assert(key_matches(key));
    if scenario_present(first.web_scenarios@, scenario_name_of(url_of_key(key))) {
        assert(plan1 is AlreadyPresent);
    }
    match find_host(first.hosts@, item.hostid@) {
        None => {
            assert(plan1 is HostNotFound);
        },
        Some(host) => {
            assert(creation_plan_obeys(plan1->plan, key, host));
            assert(plan1->plan.scenario.name@ == scenario_name_of(url_of_key(key)));
        },
    }
}

/// Failure isolation: an item whose host id is absent from the host
/// snapshot gets a host-not-found decision, while the pass still decides
/// every other item of the snapshot.
pub proof fn lemma_missing_host_isolated(objects: ZabbixObjects, plans: Seq<ItemPlan>, i: int)
    requires
        plans_obey(objects, plans),
        0 <= i < plans.len(),
        key_matches(objects.items@[i].key_@),
        !scenario_present(
            objects.web_scenarios@,
            scenario_name_of(url_of_key(objects.items@[i].key_@)),
        ),
        find_host(objects.hosts@, objects.items@[i].hostid@) is None,
    ensures
        plans[i] is HostNotFound,
        plans.len() == objects.items@.len(),
        forall|j: int| 0 <= j < plans.len() ==> plan_obeys(objects, objects.items@[j], plans[j]),
{
}

} // verus!
