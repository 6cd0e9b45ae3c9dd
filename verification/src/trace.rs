//! Whole cycles: the actions that a cycle takes against a world that answers
//! each request in a fixed way, and what holds of them.

use vstd::prelude::*;
use crate::address::{Address, Family};
use crate::config::ZoneConfig;
use crate::reconcile::{
    change_for, next, ActionModel, ChangeModel, CycleOutcome, EventModel, FailureCause,
    StateModel,
};

verus! {

/// How the provider answers the lookup of a hosted zone.
pub ghost enum ZoneAnswer {
    /// The identifiers of the zones that match, in the provider's order.
    Listed(Seq<Seq<char>>),
    Failed,
}

/// How the world answers each request that a cycle can make. `None` for a
/// family stands for a discovery that fails.
pub ghost struct World {
    pub zone: ZoneAnswer,
    pub v4: Option<Address>,
    pub v6: Option<Address>,
    pub upsert_accepted: bool,
}

impl World {
    /// The lookup gives at least one hosted zone.
    pub open spec fn finds_zone(self) -> bool {
        self.zone is Listed && self.zone->Listed_0.len() > 0
    }

    /// The zone that a cycle works on: the first that the provider lists.
    pub open spec fn zone_id(self) -> Seq<char> {
        self.zone->Listed_0[0]
    }

    /// What discovery gives for a family.
    pub open spec fn address(self, family: Family) -> Option<Address> {
        match family {
            Family::V4 => self.v4,
            Family::V6 => self.v6,
        }
    }

    /// Discovery gives an address of the family that was asked for.
    pub open spec fn resolves(self, family: Family) -> bool {
        match self.address(family) {
            Some(a) => a.spec_family() == family,
            None => false,
        }
    }

    /// The event with which the world answers an action, if it asks for one.
    pub open spec fn answer(self, action: ActionModel) -> Option<EventModel> {
        match action {
            ActionModel::FindHostedZone { dns_name, region } => Some(
                match self.zone {
                    ZoneAnswer::Listed(ids) => EventModel::ZonesListed(ids),
                    ZoneAnswer::Failed => EventModel::ZoneLookupFailed,
                },
            ),
            ActionModel::Resolve(family) => Some(
                match self.address(family) {
                    Some(a) => EventModel::AddressFound(a),
                    None => EventModel::AddressFailed,
                },
            ),
            ActionModel::Upsert { zone_id, changes } => Some(
                if self.upsert_accepted {
                    EventModel::UpsertDone
                } else {
                    EventModel::UpsertFailed
                },
            ),
            ActionModel::Finish(_) => None,
            ActionModel::Ignore => None,
        }
    }
}

/// The actions taken from `state` on `event`, after those in `taken`, while
/// the world answers and at most `steps` steps are made.
pub open spec fn drive(
    config: &ZoneConfig,
    world: World,
    state: StateModel,
    event: EventModel,
    taken: Seq<ActionModel>,
    steps: nat,
) -> Seq<ActionModel>
    decreases steps,
{
    if steps == 0 {
        taken
    } else {
        let (state, action) = next(config, state, event);
        match world.answer(action) {
            Some(reply) => drive(
                config,
                world,
                state,
                reply,
                taken.push(action),
                (steps - 1) as nat,
            ),
            None => taken.push(action),
        }
    }
}

/// The actions of one whole cycle, in order. Five steps reach the end of
/// every cycle: the lookup, two discoveries, the submission and the end.
pub open spec fn cycle(config: &ZoneConfig, world: World) -> Seq<ActionModel> {
    drive(config, world, StateModel::Idle, EventModel::Begin, Seq::empty(), 5)
}

/// The changes that a zone's enabled families give where every discovery
/// succeeds: IPv4 first.
pub open spec fn full_batch(config: &ZoneConfig, world: World) -> Seq<ChangeModel> {
    let first = if config.enable_ipv4 {
        seq![change_for(config, world.v4.unwrap())]
    } else {
        Seq::empty()
    };
    if config.enable_ipv6 {
        first.push(change_for(config, world.v6.unwrap()))
    } else {
        first
    }
}

/// Every enabled family's address is discovered.
pub open spec fn all_resolve(config: &ZoneConfig, world: World) -> bool {
    &&& config.enable_ipv4 ==> world.resolves(Family::V4)
    &&& config.enable_ipv6 ==> world.resolves(Family::V6)
}

/// The outcome that ends a cycle.
pub open spec fn outcome_of(config: &ZoneConfig, world: World) -> CycleOutcome {
    match world.zone {
        ZoneAnswer::Failed => CycleOutcome::Failure(FailureCause::ZoneLookup),
        ZoneAnswer::Listed(ids) => if ids.len() == 0 {
            CycleOutcome::Failure(FailureCause::ZoneNotFound)
        } else if config.enable_ipv4 && !world.resolves(Family::V4) {
            CycleOutcome::Failure(FailureCause::AddressDiscovery(Family::V4))
        } else if config.enable_ipv6 && !world.resolves(Family::V6) {
            CycleOutcome::Failure(FailureCause::AddressDiscovery(Family::V6))
        } else if (config.enable_ipv4 || config.enable_ipv6) && !world.upsert_accepted {
            CycleOutcome::Failure(FailureCause::UpsertSubmission)
        } else {
            CycleOutcome::Success
        },
    }
}

/// Every cycle ends, and ends with the outcome that the answers determine:
/// its last action is `Finish`, and no action before it is.
pub proof fn cycle_finishes(config: &ZoneConfig, world: World)
    ensures
        cycle(config, world).len() >= 2,
        cycle(config, world).last() == ActionModel::Finish(outcome_of(config, world)),
        forall|i: int|
            0 <= i < cycle(config, world).len() - 1 ==> !(#[trigger] cycle(config, world)[i] is Finish),
        cycle(config, world)[0] == (ActionModel::FindHostedZone {
            dns_name: config.hosted_zone_name@,
            region: config.provider_region@,
        }),
{
    reveal_with_fuel(drive, 6);
}

/// A zone with no family enabled makes no change: its cycle asks for no
/// address and submits nothing.
pub proof fn no_family_no_change(config: &ZoneConfig, world: World)
    requires
        !config.enable_ipv4,
        !config.enable_ipv6,
    ensures
        forall|i: int|
            0 <= i < cycle(config, world).len() ==> {
                &&& !(#[trigger] cycle(config, world)[i] is Upsert)
                &&& !(cycle(config, world)[i] is Resolve)
            },
{
    reveal_with_fuel(drive, 6);
}

/// Where the discovery for an enabled family fails, nothing is submitted:
/// never the part of the batch that the other family gave.
pub proof fn failed_discovery_submits_nothing(config: &ZoneConfig, world: World, family: Family)
    requires
        config.enabled(family),
        !world.resolves(family),
    ensures
        forall|i: int|
            0 <= i < cycle(config, world).len() ==> !(#[trigger] cycle(config, world)[i] is Upsert),
{
    reveal_with_fuel(drive, 6);
}

/// A cycle submits at most once, and only the whole batch: where it submits,
/// the zone was found, every enabled family resolved, and the batch holds one
/// change for each enabled family, sent to the zone that the lookup gave.
pub proof fn submission_is_whole(config: &ZoneConfig, world: World, i: int)
    requires
        0 <= i < cycle(config, world).len(),
        cycle(config, world)[i] is Upsert,
    ensures
        all_resolve(config, world),
        config.enable_ipv4 || config.enable_ipv6,
        world.finds_zone(),
        cycle(config, world)[i] == (ActionModel::Upsert {
            zone_id: world.zone_id(),
            changes: full_batch(config, world),
        }),
        forall|j: int|
            0 <= j < cycle(config, world).len() && #[trigger] cycle(config, world)[j] is Upsert
                ==> j == i,
{
    reveal_with_fuel(drive, 6);
    if config.enable_ipv4 && config.enable_ipv6 {
        assert(full_batch(config, world) =~= Seq::<ChangeModel>::empty().push(
            change_for(config, world.v4.unwrap()),
        ).push(change_for(config, world.v6.unwrap())));
    } else if config.enable_ipv4 {
        assert(full_batch(config, world) =~= Seq::<ChangeModel>::empty().push(
            change_for(config, world.v4.unwrap()),
        ));
    } else {
        assert(full_batch(config, world) =~= Seq::<ChangeModel>::empty().push(
            change_for(config, world.v6.unwrap()),
        ));
    }
}

/// Where the zone is found and every enabled family resolves, the whole batch
/// is submitted, provided that a family is enabled.
pub proof fn resolved_cycle_submits(config: &ZoneConfig, world: World)
    requires
        world.finds_zone(),
        all_resolve(config, world),
        config.enable_ipv4 || config.enable_ipv6,
    ensures
        exists|i: int|
            0 <= i < cycle(config, world).len() && #[trigger] cycle(config, world)[i] == (
            ActionModel::Upsert {
                zone_id: world.zone_id(),
                changes: full_batch(config, world),
            }),
{
    reveal_with_fuel(drive, 6);
    let c = cycle(config, world);
    let i = c.len() - 2;
    if config.enable_ipv4 && config.enable_ipv6 {
        assert(full_batch(config, world) =~= Seq::<ChangeModel>::empty().push(
            change_for(config, world.v4.unwrap()),
        ).push(change_for(config, world.v6.unwrap())));
    } else if config.enable_ipv4 {
        assert(full_batch(config, world) =~= Seq::<ChangeModel>::empty().push(
            change_for(config, world.v4.unwrap()),
        ));
    } else {
        assert(full_batch(config, world) =~= Seq::<ChangeModel>::empty().push(
            change_for(config, world.v6.unwrap()),
        ));
    }
    assert(c[i] == (ActionModel::Upsert {
        zone_id: world.zone_id(),
        changes: full_batch(config, world),
    }));
}

/// Repeating a cycle repeats its batch: two cycles of one zone that are given
/// the same zones and discover the same addresses submit alike. Where one submits
/// a batch, the other submits the same changes to the same zone at the same
/// step, whatever became of the first submission.
pub proof fn repeated_cycle_repeats_batch(config: &ZoneConfig, first: World, second: World, i: int)
    requires
        first.zone == second.zone,
        first.v4 == second.v4,
        first.v6 == second.v6,
        0 <= i < cycle(config, first).len(),
        cycle(config, first)[i] is Upsert,
    ensures
        i < cycle(config, second).len(),
        cycle(config, second)[i] == cycle(config, first)[i],
{
    reveal_with_fuel(drive, 6);
}

} // verus!
