//! One reconciliation cycle for one zone, as a machine of states and events.
//!
//! A cycle looks up the hosted zone, discovers the address of each enabled
//! family (IPv4 first), and submits all record changes as one batch. The
//! machine decides; its caller performs each action it asks for and hands
//! back what came of it as the next event.

use vstd::prelude::*;
use crate::address::{Address, Family};
use crate::config::ZoneConfig;

verus! {

/// Why a cycle failed.
#[derive(Clone, Copy, Debug, PartialEq, Eq, Structural)]
pub enum FailureCause {
    /// The public address of this family could not be discovered.
    AddressDiscovery(Family),
    /// The provider knows no hosted zone of the configured name.
    ZoneNotFound,
    /// The provider could not be asked for the hosted zone.
    ZoneLookup,
    /// The provider did not accept the batch.
    UpsertSubmission,
}

/// How a cycle ended.
#[derive(Clone, Copy, Debug, PartialEq, Eq, Structural)]
pub enum CycleOutcome {
    Success,
    Failure(FailureCause),
}

/// The two record types a cycle writes.
#[derive(Clone, Copy, Debug, PartialEq, Eq, Structural)]
pub enum RecordType {
    A,
    Aaaa,
}

/// One record to insert or overwrite: an A record for an IPv4 address, an AAAA
/// record for an IPv6 address.
#[derive(Clone, Debug)]
pub struct RecordChange {
    pub address: Address,
    pub name: String,
    pub ttl: i64,
}

/// What a `RecordChange` holds, as mathematical values.
pub ghost struct ChangeModel {
    pub address: Address,
    pub name: Seq<char>,
    pub ttl: i64,
}

impl View for RecordChange {
    type V = ChangeModel;

    open spec fn view(&self) -> ChangeModel {
        ChangeModel { address: self.address, name: self.name@, ttl: self.ttl }
    }
}

/// The record type that carries an address of the given family.
pub open spec fn record_type_of(family: Family) -> RecordType {
    match family {
        Family::V4 => RecordType::A,
        Family::V6 => RecordType::Aaaa,
    }
}

impl RecordChange {
    pub fn record_type(&self) -> (r: RecordType)
        ensures
            r == record_type_of(self.address.spec_family()),
    {
        match self.address {
            Address::V4(_) => RecordType::A,
            Address::V6(_) => RecordType::Aaaa,
        }
    }
}

/// The models of a list of changes, in order.
pub open spec fn batch_model(changes: Seq<RecordChange>) -> Seq<ChangeModel> {
    Seq::new(changes.len(), |i: int| changes[i]@)
}

/// The views of a list of strings, in order.
pub open spec fn names_model(names: Seq<String>) -> Seq<Seq<char>> {
    Seq::new(names.len(), |i: int| names[i]@)
}

/// Where a cycle stands.
#[derive(Debug)]
pub enum CycleState {
    /// Not started.
    Idle,
    /// The hosted zone is being looked up.
    FindingZone,
    /// The address of `family` is being discovered; `changes` holds what the
    /// families before it gave.
    Resolving { family: Family, zone_id: String, changes: Vec<RecordChange> },
    /// The batch is with the provider.
    Submitting,
    /// The cycle is over.
    Finished(CycleOutcome),
}

pub ghost enum StateModel {
    Idle,
    FindingZone,
    Resolving { family: Family, zone_id: Seq<char>, changes: Seq<ChangeModel> },
    Submitting,
    Finished(CycleOutcome),
}

impl View for CycleState {
    type V = StateModel;

    open spec fn view(&self) -> StateModel {
        match self {
            CycleState::Idle => StateModel::Idle,
            CycleState::FindingZone => StateModel::FindingZone,
            CycleState::Resolving { family, zone_id, changes } => StateModel::Resolving {
                family: *family,
                zone_id: zone_id@,
                changes: batch_model(changes@),
            },
            CycleState::Submitting => StateModel::Submitting,
            CycleState::Finished(outcome) => StateModel::Finished(*outcome),
        }
    }
}

/// What the outside world reports back to a cycle.
#[derive(Debug)]
pub enum CycleEvent {
    /// The cycle is to start.
    Begin,
    /// The identifiers of the hosted zones that the provider matched to the
    /// name, in the provider's order; the list may be empty.
    ZonesListed(Vec<String>),
    /// The lookup itself failed.
    ZoneLookupFailed,
    /// The address that was discovered for the family asked for.
    AddressFound(Address),
    /// The query did not complete, or its answer was no address.
    AddressFailed,
    /// The provider accepted the batch.
    UpsertDone,
    /// The provider refused the batch, or could not be reached.
    UpsertFailed,
}

pub ghost enum EventModel {
    Begin,
    ZonesListed(Seq<Seq<char>>),
    ZoneLookupFailed,
    AddressFound(Address),
    AddressFailed,
    UpsertDone,
    UpsertFailed,
}

impl View for CycleEvent {
    type V = EventModel;

    open spec fn view(&self) -> EventModel {
        match self {
            CycleEvent::Begin => EventModel::Begin,
            CycleEvent::ZonesListed(ids) => EventModel::ZonesListed(names_model(ids@)),
            CycleEvent::ZoneLookupFailed => EventModel::ZoneLookupFailed,
            CycleEvent::AddressFound(a) => EventModel::AddressFound(*a),
            CycleEvent::AddressFailed => EventModel::AddressFailed,
            CycleEvent::UpsertDone => EventModel::UpsertDone,
            CycleEvent::UpsertFailed => EventModel::UpsertFailed,
        }
    }
}

/// What a cycle asks its caller to do next.
#[derive(Debug)]
pub enum CycleAction {
    /// Open a provider session with the zone's credentials, scoped to
    /// `region`, and look up the hosted zone of this DNS name in it.
    FindHostedZone { dns_name: String, region: String },
    /// Discover the public address of this family.
    Resolve(Family),
    /// Submit these changes to this hosted zone as one batch.
    Upsert { zone_id: String, changes: Vec<RecordChange> },
    /// Stop: the cycle ended with this outcome.
    Finish(CycleOutcome),
    /// Nothing: the event did not belong to the state, which is unchanged.
    Ignore,
}

pub ghost enum ActionModel {
    FindHostedZone { dns_name: Seq<char>, region: Seq<char> },
    Resolve(Family),
    Upsert { zone_id: Seq<char>, changes: Seq<ChangeModel> },
    Finish(CycleOutcome),
    Ignore,
}

impl View for CycleAction {
    type V = ActionModel;

    open spec fn view(&self) -> ActionModel {
        match self {
            CycleAction::FindHostedZone { dns_name, region } => ActionModel::FindHostedZone {
                dns_name: dns_name@,
                region: region@,
            },
            CycleAction::Resolve(family) => ActionModel::Resolve(*family),
            CycleAction::Upsert { zone_id, changes } => ActionModel::Upsert {
                zone_id: zone_id@,
                changes: batch_model(changes@),
            },
            CycleAction::Finish(outcome) => ActionModel::Finish(*outcome),
            CycleAction::Ignore => ActionModel::Ignore,
        }
    }
}

/// The family that is asked after `family`, if any: IPv4 comes before IPv6.
pub open spec fn following(family: Family) -> Option<Family> {
    match family {
        Family::V4 => Some(Family::V6),
        Family::V6 => None,
    }
}

/// The first enabled family at or after `from`.
pub open spec fn first_enabled(config: &ZoneConfig, from: Option<Family>) -> Option<Family> {
    match from {
        Some(Family::V4) => if config.enable_ipv4 {
            Some(Family::V4)
        } else if config.enable_ipv6 {
            Some(Family::V6)
        } else {
            None
        },
        Some(Family::V6) => if config.enable_ipv6 {
            Some(Family::V6)
        } else {
            None
        },
        None => None,
    }
}

/// Where a cycle goes once the zone is known and the families before `from`
/// are dealt with: to the next enabled family, else to the submission of a
/// batch that is not empty, else to its end with nothing submitted.
pub open spec fn proceed(
    config: &ZoneConfig,
    from: Option<Family>,
    zone_id: Seq<char>,
    changes: Seq<ChangeModel>,
) -> (StateModel, ActionModel) {
    match first_enabled(config, from) {
        Some(family) => (
            StateModel::Resolving { family, zone_id, changes },
            ActionModel::Resolve(family),
        ),
        None => if changes.len() > 0 {
            (StateModel::Submitting, ActionModel::Upsert { zone_id, changes })
        } else {
            (
                StateModel::Finished(CycleOutcome::Success),
                ActionModel::Finish(CycleOutcome::Success),
            )
        },
    }
}

/// The end of a cycle that failed.
pub open spec fn fail(cause: FailureCause) -> (StateModel, ActionModel) {
    (
        StateModel::Finished(CycleOutcome::Failure(cause)),
        ActionModel::Finish(CycleOutcome::Failure(cause)),
    )
}

/// The change that a discovered address gives for a zone.
pub open spec fn change_for(config: &ZoneConfig, address: Address) -> ChangeModel {
    ChangeModel {
        address,
        name: config.spec_effective_name(),
        ttl: config.ttl_seconds,
    }
}

/// The transition relation of a cycle: the state after `event` and the action
/// asked for. Of the hosted zones that the provider lists, the first is taken,
/// whatever the others are; an empty list is a zone not found. Any failure
/// ends the cycle at once; an address of another family than the one asked
/// for counts as a failed discovery.
pub open spec fn next(config: &ZoneConfig, state: StateModel, event: EventModel) -> (
    StateModel,
    ActionModel,
) {
    match (state, event) {
        (StateModel::Idle, EventModel::Begin) => (
            StateModel::FindingZone,
            ActionModel::FindHostedZone {
                dns_name: config.hosted_zone_name@,
                region: config.provider_region@,
            },
        ),
        (StateModel::FindingZone, EventModel::ZonesListed(ids)) => if ids.len() > 0 {
            proceed(config, Some(Family::V4), ids[0], Seq::empty())
        } else {
            fail(FailureCause::ZoneNotFound)
        },
        (StateModel::FindingZone, EventModel::ZoneLookupFailed) => fail(FailureCause::ZoneLookup),
        (
            StateModel::Resolving { family, zone_id, changes },
            EventModel::AddressFound(address),
        ) => if address.spec_family() == family {
            proceed(config, following(family), zone_id, changes.push(change_for(config, address)))
        } else {
            fail(FailureCause::AddressDiscovery(family))
        },
        (StateModel::Resolving { family, zone_id, changes }, EventModel::AddressFailed) => fail(
            FailureCause::AddressDiscovery(family),
        ),
        (StateModel::Submitting, EventModel::UpsertDone) => (
            StateModel::Finished(CycleOutcome::Success),
            ActionModel::Finish(CycleOutcome::Success),
        ),
        (StateModel::Submitting, EventModel::UpsertFailed) => fail(
            FailureCause::UpsertSubmission,
        ),
        _ => (state, ActionModel::Ignore),
    }
}

/// The exec form of [`proceed`].
fn advance(
    config: &ZoneConfig,
    from: Option<Family>,
    zone_id: String,
    changes: Vec<RecordChange>,
) -> (r: (CycleState, CycleAction))
    ensures
        (r.0@, r.1@) == proceed(config, from, zone_id@, batch_model(changes@)),
{
    let v4: bool = match from {
        Some(Family::V4) => config.enable_ipv4,
        _ => false,
    };
    let v6: bool = match from {
        Some(_) => config.enable_ipv6,
        None => false,
    };
    if v4 {
        (CycleState::Resolving { family: Family::V4, zone_id, changes }, CycleAction::Resolve(Family::V4))
    } else if v6 {
        (CycleState::Resolving { family: Family::V6, zone_id, changes }, CycleAction::Resolve(Family::V6))
    } else if changes.len() > 0 {
        (CycleState::Submitting, CycleAction::Upsert { zone_id, changes })
    } else {
        (CycleState::Finished(CycleOutcome::Success), CycleAction::Finish(CycleOutcome::Success))
    }
}

/// The exec form of [`fail`].
fn abort(cause: FailureCause) -> (r: (CycleState, CycleAction))
    ensures
        (r.0@, r.1@) == fail(cause),
{
    (
        CycleState::Finished(CycleOutcome::Failure(cause)),
        CycleAction::Finish(CycleOutcome::Failure(cause)),
    )
}

/// Takes one step of a cycle: consumes the state and the event, and returns
/// the next state with the action that the caller is to perform.
pub fn step(config: &ZoneConfig, state: CycleState, event: CycleEvent) -> (r: (
    CycleState,
    CycleAction,
))
    ensures
        (r.0@, r.1@) == next(config, state@, event@),
{
    match state {
        CycleState::Idle => match event {
            CycleEvent::Begin => (
                CycleState::FindingZone,
                CycleAction::FindHostedZone {
                    dns_name: config.hosted_zone_name.clone(),
                    region: config.provider_region.clone(),
                },
            ),
            _ => (CycleState::Idle, CycleAction::Ignore),
        },
        CycleState::FindingZone => match event {
            CycleEvent::ZonesListed(ids) => {
                if ids.len() > 0 {
                    let id = ids[0].clone();
                    let changes: Vec<RecordChange> = Vec::new();
                    assert(batch_model(changes@) =~= Seq::empty());
                    advance(config, Some(Family::V4), id, changes)
                } else {
                    abort(FailureCause::ZoneNotFound)
                }
            },
            CycleEvent::ZoneLookupFailed => abort(FailureCause::ZoneLookup),
            _ => (CycleState::FindingZone, CycleAction::Ignore),
        },
        CycleState::Resolving { family, zone_id, changes } => match event {
            CycleEvent::AddressFound(address) => {
                if address.family() == family {
                    let mut changes = changes;
                    let ghost before = changes@;
                    let change = RecordChange {
                        address,
                        name: config.effective_name(),
                        ttl: config.ttl_seconds,
                    };
                    changes.push(change);
                    assert(batch_model(changes@) =~= batch_model(before).push(
                        change_for(config, address),
                    ));
                    let after: Option<Family> = match family {
                        Family::V4 => Some(Family::V6),
                        Family::V6 => None,
                    };
                    advance(config, after, zone_id, changes)
                } else {
                    abort(FailureCause::AddressDiscovery(family))
                }
            },
            CycleEvent::AddressFailed => abort(FailureCause::AddressDiscovery(family)),
            _ => (CycleState::Resolving { family, zone_id, changes }, CycleAction::Ignore),
        },
        CycleState::Submitting => match event {
            CycleEvent::UpsertDone => (
                CycleState::Finished(CycleOutcome::Success),
                CycleAction::Finish(CycleOutcome::Success),
            ),
            CycleEvent::UpsertFailed => abort(FailureCause::UpsertSubmission),
            _ => (CycleState::Submitting, CycleAction::Ignore),
        },
        CycleState::Finished(outcome) => (CycleState::Finished(outcome), CycleAction::Ignore),
    }
}

} // verus!
