//! The node: which endpoints there are, which clusters they carry, and which handler
//! serves each of them.
//!
//! Endpoint 1 carries two device types: the Thermostat, which is an *application* device
//! type, and the Electrical Sensor, which is a *utility* one. A simple endpoint may have
//! only one application device type but any number of utility ones, which is what lets
//! the thermostat meter itself on the same endpoint. Mode Select is an application device
//! type, so the element's rating gets an endpoint of its own.

use vstd::prelude::*;

use crate::attr::{BOOT_DIAG_CLUSTER_ID, ELEMENT_WATTS_CLUSTER_ID};

verus! {

/// The endpoint that runs the Matter system clusters.
pub const ROOT_ENDPOINT: u16 = 0;

/// The endpoint of the thermostat and its meter.
pub const THERMOSTAT_ENDPOINT: u16 = 1;

/// The endpoint of the element's rating - what the meter is scaled by.
pub const ELEMENT_ENDPOINT: u16 = 2;

/// The Identify cluster.
pub const IDENTIFY_CLUSTER_ID: u32 = 0x0003;

/// The Groups cluster.
pub const GROUPS_CLUSTER_ID: u32 = 0x0004;

/// The Descriptor cluster, which every endpoint needs.
pub const DESCRIPTOR_CLUSTER_ID: u32 = 0x001D;

/// The Mode Select cluster.
pub const MODE_SELECT_CLUSTER_ID: u32 = 0x0050;

/// The Electrical Power Measurement cluster.
pub const POWER_CLUSTER_ID: u32 = 0x0090;

/// The Electrical Energy Measurement cluster.
pub const ENERGY_CLUSTER_ID: u32 = 0x0091;

/// The Power Topology cluster.
pub const POWER_TOPOLOGY_CLUSTER_ID: u32 = 0x009C;

/// The Thermostat cluster.
pub const THERMOSTAT_CLUSTER_ID: u32 = 0x0201;

/// Who serves a cluster.
#[derive(Clone, Copy, Debug, PartialEq, Eq, Structural)]
pub enum Route {
    /// The system clusters of the root endpoint.
    RootSystem,
    /// Why the board last reset.
    BootDiag,
    /// The Descriptor of the thermostat's endpoint.
    ThermostatDescriptor,
    /// Identify.
    Identify,
    /// Groups.
    Groups,
    /// The thermostat.
    Thermostat,
    /// Power Topology.
    PowerTopology,
    /// What the element draws.
    Power,
    /// What the element has drawn.
    Energy,
    /// The Descriptor of the rating's endpoint.
    ElementDescriptor,
    /// The list of ratings.
    ModeSelect,
    /// The exact rating.
    ElementWatts,
}

/// Who serves a cluster on an endpoint, if anybody does. On the root endpoint that is the
/// system handler, but for the one cluster that is ours.
pub open spec fn route_of(endpoint: u16, cluster: u32) -> Option<Route> {
    if endpoint == ROOT_ENDPOINT {
        if cluster == BOOT_DIAG_CLUSTER_ID {
            Some(Route::BootDiag)
        } else {
            Some(Route::RootSystem)
        }
    } else if endpoint == THERMOSTAT_ENDPOINT {
        if cluster == DESCRIPTOR_CLUSTER_ID {
            Some(Route::ThermostatDescriptor)
        } else if cluster == IDENTIFY_CLUSTER_ID {
            Some(Route::Identify)
        } else if cluster == GROUPS_CLUSTER_ID {
            Some(Route::Groups)
        } else if cluster == THERMOSTAT_CLUSTER_ID {
            Some(Route::Thermostat)
        } else if cluster == POWER_TOPOLOGY_CLUSTER_ID {
            Some(Route::PowerTopology)
        } else if cluster == POWER_CLUSTER_ID {
            Some(Route::Power)
        } else if cluster == ENERGY_CLUSTER_ID {
            Some(Route::Energy)
        } else {
            None
        }
    } else if endpoint == ELEMENT_ENDPOINT {
        if cluster == DESCRIPTOR_CLUSTER_ID {
            Some(Route::ElementDescriptor)
        } else if cluster == MODE_SELECT_CLUSTER_ID {
            Some(Route::ModeSelect)
        } else if cluster == ELEMENT_WATTS_CLUSTER_ID {
            Some(Route::ElementWatts)
        } else {
            None
        }
    } else {
        None
    }
}

/// Who serves a cluster on an endpoint, if anybody does.
pub fn route(endpoint: u16, cluster: u32) -> (served: Option<Route>)
    ensures
        served == route_of(endpoint, cluster),
{
    match endpoint {
        ROOT_ENDPOINT => if cluster == BOOT_DIAG_CLUSTER_ID {
            Some(Route::BootDiag)
        } else {
            Some(Route::RootSystem)
        },
        THERMOSTAT_ENDPOINT => match cluster {
            DESCRIPTOR_CLUSTER_ID => Some(Route::ThermostatDescriptor),
            IDENTIFY_CLUSTER_ID => Some(Route::Identify),
            GROUPS_CLUSTER_ID => Some(Route::Groups),
            THERMOSTAT_CLUSTER_ID => Some(Route::Thermostat),
            POWER_TOPOLOGY_CLUSTER_ID => Some(Route::PowerTopology),
            POWER_CLUSTER_ID => Some(Route::Power),
            ENERGY_CLUSTER_ID => Some(Route::Energy),
            _ => None,
        },
        ELEMENT_ENDPOINT => match cluster {
            DESCRIPTOR_CLUSTER_ID => Some(Route::ElementDescriptor),
            MODE_SELECT_CLUSTER_ID => Some(Route::ModeSelect),
            ELEMENT_WATTS_CLUSTER_ID => Some(Route::ElementWatts),
            _ => None,
        },
        _ => None,
    }
}

/// The clusters of the thermostat's endpoint, in the order its Descriptor lists them.
pub open spec fn thermostat_clusters() -> Seq<u32> {
    seq![
        DESCRIPTOR_CLUSTER_ID,
        IDENTIFY_CLUSTER_ID,
        GROUPS_CLUSTER_ID,
        THERMOSTAT_CLUSTER_ID,
        POWER_TOPOLOGY_CLUSTER_ID,
        POWER_CLUSTER_ID,
        ENERGY_CLUSTER_ID,
    ]
}

/// The clusters of the rating's endpoint, in the order its Descriptor lists them.
pub open spec fn element_clusters() -> Seq<u32> {
    seq![DESCRIPTOR_CLUSTER_ID, MODE_SELECT_CLUSTER_ID, ELEMENT_WATTS_CLUSTER_ID]
}

/// What identifies a cluster's shape.
#[derive(Clone, Copy, Debug, PartialEq, Eq, Structural)]
pub struct ClusterShape {
    /// The cluster's identifier.
    pub id: u32,
    /// Its revision.
    pub revision: u16,
    /// Its features.
    pub feature_map: u32,
}

/// What identifies an endpoint's shape.
#[derive(Debug)]
pub struct EndpointShape {
    /// The endpoint's identifier.
    pub id: u16,
    /// Its device types.
    pub device_types: Vec<u16>,
    /// Its clusters.
    pub clusters: Vec<ClusterShape>,
}

/// Whether `ours` is `stack` with the boot diagnostics cluster at the end.
pub open spec fn extends_by_boot_diag(ours: EndpointShape, stack: EndpointShape) -> bool {
    &&& ours.id == stack.id
    &&& ours.device_types@ == stack.device_types@
    &&& ours.clusters@.len() == stack.clusters@.len() + 1
    &&& ours.clusters@.drop_last() == stack.clusters@
    &&& ours.clusters@.last().id == BOOT_DIAG_CLUSTER_ID
}

/// Whether the root endpoint is still the stack's own plus the boot diagnostics cluster at
/// the end - that is, whether spelling it out has not drifted from the stack.
pub fn root_endpoint_matches_stack(ours: &EndpointShape, stack: &EndpointShape) -> (matching: bool)
    ensures
        matching == extends_by_boot_diag(*ours, *stack),
{
    let clusters: usize = stack.clusters.len();

    if ours.id != stack.id || ours.device_types.len() != stack.device_types.len()
        || ours.clusters.len() <= clusters || ours.clusters.len() - 1 != clusters
        || ours.clusters[clusters].id != BOOT_DIAG_CLUSTER_ID {
        return false;
    }
    let mut i: usize = 0;

    while i < stack.device_types.len()
        invariant
            i <= stack.device_types@.len(),
            ours.device_types@.len() == stack.device_types@.len(),
            forall|k: int| 0 <= k < i ==> ours.device_types@[k] == stack.device_types@[k],
        decreases stack.device_types@.len() - i,
    {
        if ours.device_types[i] != stack.device_types[i] {
            return false;
        }
        i += 1;
    }
    proof {
        assert(ours.device_types@ =~= stack.device_types@);
    }
    let mut j: usize = 0;

    while j < clusters
        invariant
            j <= clusters,
            clusters == stack.clusters@.len(),
            ours.clusters@.len() == clusters + 1,
            forall|k: int| 0 <= k < j ==> ours.clusters@[k] == stack.clusters@[k],
        decreases clusters - j,
    {
        if ours.clusters[j].id != stack.clusters[j].id || ours.clusters[j].revision
            != stack.clusters[j].revision || ours.clusters[j].feature_map
            != stack.clusters[j].feature_map {
            proof {
                assert(ours.clusters@.drop_last()[j as int] != stack.clusters@[j as int]);
            }

            return false;
        }
        j += 1;
    }
    proof {
        assert(ours.clusters@.drop_last() =~= stack.clusters@);
    }

    true
}

/// Every cluster an endpoint lists is served, and no other cluster is.
pub proof fn law_every_listed_cluster_is_served(cluster: u32)
    ensures
        thermostat_clusters().contains(cluster) <==> route_of(THERMOSTAT_ENDPOINT, cluster) is Some,
        element_clusters().contains(cluster) <==> route_of(ELEMENT_ENDPOINT, cluster) is Some,
{
    let thermostat = thermostat_clusters();
    let element = element_clusters();
    assert(thermostat[0] == DESCRIPTOR_CLUSTER_ID && thermostat[1] == IDENTIFY_CLUSTER_ID);
    assert(thermostat[2] == GROUPS_CLUSTER_ID && thermostat[3] == THERMOSTAT_CLUSTER_ID);
    assert(thermostat[4] == POWER_TOPOLOGY_CLUSTER_ID && thermostat[5] == POWER_CLUSTER_ID);
    assert(thermostat[6] == ENERGY_CLUSTER_ID);
    assert(element[0] == DESCRIPTOR_CLUSTER_ID && element[1] == MODE_SELECT_CLUSTER_ID);
    assert(element[2] == ELEMENT_WATTS_CLUSTER_ID);
}

/// No handler but the system one serves two clusters, and the system one does not swallow
/// the boot diagnostics.
pub proof fn law_handlers_are_not_shared(
    endpoint: u16,
    cluster: u32,
    other_endpoint: u16,
    other_cluster: u32,
)
    requires
        route_of(endpoint, cluster) is Some,
        route_of(endpoint, cluster) == route_of(other_endpoint, other_cluster),
    ensures
        endpoint == other_endpoint,
        route_of(endpoint, cluster) != Some(Route::RootSystem) ==> cluster == other_cluster,
        route_of(ROOT_ENDPOINT, BOOT_DIAG_CLUSTER_ID) == Some(Route::BootDiag),
{
}

/// Each handler serves its own cluster: which one it is is settled by the cluster's identifier
/// and the endpoint, one way and the other.
pub proof fn law_each_handler_has_its_cluster(endpoint: u16, cluster: u32)
    ensures
        ({
            let route = route_of(endpoint, cluster);
            &&& route == Some(Route::BootDiag) <==> endpoint == 0 && cluster == 0xFFF1_FC02
            &&& route == Some(Route::RootSystem) <==> endpoint == 0 && cluster != 0xFFF1_FC02
            &&& route == Some(Route::ThermostatDescriptor) <==> endpoint == 1 && cluster == 0x001D
            &&& route == Some(Route::Identify) <==> endpoint == 1 && cluster == 0x0003
            &&& route == Some(Route::Groups) <==> endpoint == 1 && cluster == 0x0004
            &&& route == Some(Route::Thermostat) <==> endpoint == 1 && cluster == 0x0201
            &&& route == Some(Route::PowerTopology) <==> endpoint == 1 && cluster == 0x009C
            &&& route == Some(Route::Power) <==> endpoint == 1 && cluster == 0x0090
            &&& route == Some(Route::Energy) <==> endpoint == 1 && cluster == 0x0091
            &&& route == Some(Route::ElementDescriptor) <==> endpoint == 2 && cluster == 0x001D
            &&& route == Some(Route::ModeSelect) <==> endpoint == 2 && cluster == 0x0050
            &&& route == Some(Route::ElementWatts) <==> endpoint == 2 && cluster == 0xFFF1_FC01
        }),
{
}

/// The root endpoint matches the stack's if and only if it is made from it by adding the boot
/// diagnostics cluster at the end: it then agrees in every cluster of the stack's, and any
/// difference in one of them, or in the device types, is noticed.
pub proof fn law_drift_from_the_stack_is_noticed(ours: EndpointShape, stack: EndpointShape, i: int)
    ensures
        ours.id == stack.id && ours.device_types@ == stack.device_types@
            && ours.clusters@.len() > 0 && ours.clusters@.last().id == 0xFFF1_FC02
            && ours.clusters@ == stack.clusters@.push(ours.clusters@.last())
            ==> extends_by_boot_diag(ours, stack),
        extends_by_boot_diag(ours, stack) ==> {
            &&& ours.id == stack.id
            &&& ours.clusters@.len() == stack.clusters@.len() + 1
            &&& 0 <= i < stack.clusters@.len() ==> ours.clusters@[i] == stack.clusters@[i]
            &&& ours.clusters@[stack.clusters@.len() as int].id == 0xFFF1_FC02
            &&& ours.device_types@.len() == stack.device_types@.len()
            &&& 0 <= i < stack.device_types@.len() ==> ours.device_types@[i]
                == stack.device_types@[i]
        },
{
    if ours.clusters@ == stack.clusters@.push(ours.clusters@.last()) {
        assert(ours.clusters@.drop_last() =~= stack.clusters@);
    }
    if extends_by_boot_diag(ours, stack) && 0 <= i < stack.clusters@.len() {
        assert(ours.clusters@.drop_last()[i] == ours.clusters@[i]);
    }
}

} // verus!
