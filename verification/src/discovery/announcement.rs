//! The mDNS service record a host registers, kept with the plan it was built from.

use vstd::prelude::*;
use mdns_sd::ServiceInfo;
use super::{txt_key_allowed, BroadcastPlan};

verus! {

/// An mDNS service record ready to register, together with the plan it was built from.
///
/// Its fields are private to this module, and `new_service_info` is the one place
/// that makes a value of it: the record and the plan it keeps come from one call of
/// `ServiceInfo::new` on that very plan, so `plan_spec` describes the record.
pub struct ServiceAnnouncement {
    plan: BroadcastPlan,
    info: ServiceInfo,
}

impl ServiceAnnouncement {
    /// The plan whose fields the record was built from.
    pub closed spec fn plan_spec(&self) -> BroadcastPlan {
        self.plan
    }

    /// The plan whose fields the record was built from.
    pub fn plan(&self) -> (p: &BroadcastPlan)
        ensures
            *p == self.plan_spec(),
    {
        &self.plan
    }

    /// The record, to hand to the mDNS daemon.
    pub fn into_info(self) -> ServiceInfo {
        self.info
    }
}

/// Builds an mDNS service record with `mdns_sd::ServiceInfo::new` from the plan's
/// service type, instance name, host name, addresses, port and properties (collected
/// into a `HashMap`), and keeps the plan beside it. As that constructor's source
/// shows, an empty address list always parses and the only other refusal is a
/// property key that is not ASCII or holds `=`; so with no addresses and allowed keys
/// the result is `Ok`. What the record holds is not stated beyond being built from
/// the plan it is returned with; the error text is `mdns_sd::Error`'s display.
#[verifier::external_body]
pub(super) fn new_service_info(plan: BroadcastPlan) -> (r: Result<ServiceAnnouncement, String>)
    ensures
        (plan.addresses@.len() == 0 && forall|i: int|
            0 <= i < plan.properties@.len() ==> txt_key_allowed(#[trigger] plan.properties@[i].0@))
            ==> r is Ok,
        r matches Ok(a) ==> a.plan_spec() == plan,
{
    let props: std::collections::HashMap<String, String> = plan.properties.iter().cloned().collect();
    let built = ServiceInfo::new(
        &plan.service_type,
        &plan.instance_name,
        &plan.host_name,
        plan.addresses.as_str(),
        plan.port,
        props,
    );
    match built {
        Ok(info) => Ok(ServiceAnnouncement { plan, info }),
        Err(e) => Err(e.to_string()),
    }
}

} // verus!
