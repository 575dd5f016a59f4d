//! The scan over the entity list that finds the bomb.
//!
//! Reading an entity's fields from the game's memory is outside work, done by
//! the caller. The scan says which reads it needs next (`request`), takes what
//! they gave (the `on_..` methods) and decides, entity by entity, until the
//! bomb is found or the list ends (`finish`). Each read is asked for only when
//! the decisions so far need it, in the order the game state is read.
use vstd::prelude::*;

use crate::bomb::{Bomb, BombDefuser, BombState, C4, EntityClass, PlantedC4, PlantedC4State};

verus! {

/// Where the scan stands, with what it has learned of the current entity.
pub enum ScanPhase<T, P> {
    /// Waiting for the class of the next entity.
    Searching,
    /// A bomb entity (`class` is not `Other`): waiting for its position.
    AwaitPosition { class: EntityClass },
    /// A planted C4: waiting for its bomb site and defused flag.
    AwaitPlantedC4 { position: P },
    /// A planted C4 that is not defused: waiting for its blow time.
    AwaitBlowTime { bomb_site: u8, position: P },
    /// A ticking bomb: waiting for whether it is being defused.
    AwaitDefusing { bomb_site: u8, position: P, time_detonation: T },
    /// A bomb being defused: waiting for the defuser.
    AwaitDefuser { bomb_site: u8, position: P, time_detonation: T },
    /// A C4 away from the origin: waiting for its planted flag and owner.
    AwaitCarriedC4 { position: P },
    /// The bomb has been found; no further entity is looked at.
    Finished,
}

/// The read that the scan needs next.
#[derive(PartialEq, Eq, Structural, Debug, Clone, Copy)]
pub enum ScanRequest {
    /// The class of the next entity (`on_class`), or `finish` at the end of the list.
    NextEntity,
    /// The current entity's position (`on_position`).
    Position,
    /// The planted C4's bomb site and defused flag (`on_planted_c4`).
    PlantedC4,
    /// The planted C4's blow time against the current time (`on_blow_time`).
    BlowTime,
    /// Whether the planted C4 is being defused (`on_defusing`).
    DefusingFlag,
    /// The defuser (`on_defuser`).
    Defuser,
    /// The carried C4's planted flag and owner (`on_carried_c4`).
    CarriedC4,
    /// Nothing more: call `finish`.
    Done,
}

/// The request that belongs to a phase.
pub open spec fn spec_request<T, P>(phase: ScanPhase<T, P>) -> ScanRequest {
    match phase {
        ScanPhase::Searching => ScanRequest::NextEntity,
        ScanPhase::AwaitPosition { .. } => ScanRequest::Position,
        ScanPhase::AwaitPlantedC4 { .. } => ScanRequest::PlantedC4,
        ScanPhase::AwaitBlowTime { .. } => ScanRequest::BlowTime,
        ScanPhase::AwaitDefusing { .. } => ScanRequest::DefusingFlag,
        ScanPhase::AwaitDefuser { .. } => ScanRequest::Defuser,
        ScanPhase::AwaitCarriedC4 { .. } => ScanRequest::CarriedC4,
        ScanPhase::Finished => ScanRequest::Done,
    }
}

/// What the scan knows: its phase and the bomb found so far.
pub struct ScanView<T, P> {
    pub phase: ScanPhase<T, P>,
    pub state: BombState,
    pub planted_c4: Option<PlantedC4<T, P>>,
    pub c4: Option<C4<P>>,
}

impl<T, P> ScanView<T, P> {
    /// The bomb that the scan reports if it ends now.
    pub open spec fn result(self) -> Bomb<T, P> {
        Bomb { planted_c4: self.planted_c4, c4: self.c4, state: self.state }
    }

    /// What every phase of the scan keeps. Until a bomb entity settles the
    /// matter the state stays unknown; while a planted C4 is being read the
    /// bomb is planted; a finished scan has found a bomb, consistently.
    pub open spec fn wf(self) -> bool {
        match self.phase {
            ScanPhase::Searching | ScanPhase::AwaitCarriedC4 { .. } => {
                &&& self.planted_c4.is_none()
                &&& self.c4.is_none()
                &&& self.state == BombState::Unknown
            },
            ScanPhase::AwaitPosition { class } => {
                &&& class != EntityClass::Other
                &&& self.planted_c4.is_none()
                &&& self.c4.is_none()
                &&& self.state == BombState::Unknown
            },
            ScanPhase::AwaitPlantedC4 { .. }
            | ScanPhase::AwaitBlowTime { .. }
            | ScanPhase::AwaitDefusing { .. }
            | ScanPhase::AwaitDefuser { .. } => {
                &&& self.state == BombState::Planted
                &&& self.planted_c4.is_none()
                &&& self.c4.is_none()
            },
            ScanPhase::Finished => {
                &&& self.result().is_consistent()
                &&& (self.planted_c4.is_some() || self.c4.is_some())
            },
        }
    }

    /// Between entities: waiting for the next one, or done.
    pub open spec fn between_entities(self) -> bool {
        self.phase is Searching || self.phase is Finished
    }
}

/// The scan before it has looked at any entity.
pub open spec fn spec_scan_start<T, P>() -> ScanView<T, P> {
    ScanView { phase: ScanPhase::Searching, state: BombState::Unknown, planted_c4: None, c4: None }
}

/// The next entity's class: any class but the two bomb classes is skipped;
/// for a bomb entity its position is read next.
pub open spec fn spec_on_class<T, P>(v: ScanView<T, P>, class: EntityClass) -> ScanView<T, P> {
    if class == EntityClass::Other {
        v
    } else {
        ScanView { phase: ScanPhase::AwaitPosition { class }, ..v }
    }
}

/// The bomb entity's position: a planted C4 makes the bomb planted; a C4 at
/// the origin is skipped; for any other C4 its planted flag and owner are
/// read next.
pub open spec fn spec_on_position<T, P>(v: ScanView<T, P>, position: P, at_origin: bool) -> ScanView<
    T,
    P,
> {
    match v.phase {
        ScanPhase::AwaitPosition { class } => if class == EntityClass::PlantedC4 {
            ScanView {
                phase: ScanPhase::AwaitPlantedC4 { position },
                state: BombState::Planted,
                ..v
            }
        } else if at_origin {
            ScanView { phase: ScanPhase::Searching, ..v }
        } else {
            ScanView { phase: ScanPhase::AwaitCarriedC4 { position }, ..v }
        },
        _ => v,
    }
}

/// The planted C4's bomb site (truncated to a byte) and defused flag: a
/// defused bomb ends the scan; otherwise its blow time is read next.
pub open spec fn spec_on_planted_c4<T, P>(v: ScanView<T, P>, bomb_site: i32, defused: bool) -> ScanView<
    T,
    P,
> {
    match v.phase {
        ScanPhase::AwaitPlantedC4 { position } => if defused {
            ScanView {
                phase: ScanPhase::Finished,
                planted_c4: Some(
                    PlantedC4 {
                        bomb_site: bomb_site as u8,
                        state: PlantedC4State::Defused,
                        position,
                        defuser: None,
                    },
                ),
                ..v
            }
        } else {
            ScanView {
                phase: ScanPhase::AwaitBlowTime { bomb_site: bomb_site as u8, position },
                ..v
            }
        },
        _ => v,
    }
}

/// Whether the blow time has passed, and the time left: a detonated bomb ends
/// the scan; otherwise whether it is being defused is read next.
pub open spec fn spec_on_blow_time<T, P>(
    v: ScanView<T, P>,
    detonated: bool,
    time_detonation: T,
) -> ScanView<T, P> {
    match v.phase {
        ScanPhase::AwaitBlowTime { bomb_site, position } => if detonated {
            ScanView {
                phase: ScanPhase::Finished,
                planted_c4: Some(
                    PlantedC4 { bomb_site, state: PlantedC4State::Detonated, position, defuser: None },
                ),
                ..v
            }
        } else {
            ScanView {
                phase: ScanPhase::AwaitDefusing { bomb_site, position, time_detonation },
                ..v
            }
        },
        _ => v,
    }
}

/// Whether the ticking bomb is being defused: if not, the scan ends with an
/// active bomb and no defuser; otherwise the defuser is read next.
pub open spec fn spec_on_defusing<T, P>(v: ScanView<T, P>, defusing: bool) -> ScanView<T, P> {
    match v.phase {
        ScanPhase::AwaitDefusing { bomb_site, position, time_detonation } => if defusing {
            ScanView {
                phase: ScanPhase::AwaitDefuser { bomb_site, position, time_detonation },
                ..v
            }
        } else {
            ScanView {
                phase: ScanPhase::Finished,
                planted_c4: Some(
                    PlantedC4 {
                        bomb_site,
                        state: PlantedC4State::Active { time_detonation },
                        position,
                        defuser: None,
                    },
                ),
                ..v
            }
        },
        _ => v,
    }
}

/// The defuser: the scan ends with an active bomb and that defuser.
pub open spec fn spec_on_defuser<T, P>(v: ScanView<T, P>, defuser: BombDefuser<T>) -> ScanView<T, P> {
    match v.phase {
        ScanPhase::AwaitDefuser { bomb_site, position, time_detonation } => ScanView {
            phase: ScanPhase::Finished,
            planted_c4: Some(
                PlantedC4 {
                    bomb_site,
                    state: PlantedC4State::Active { time_detonation },
                    position,
                    defuser: Some(defuser),
                },
            ),
            ..v
        },
        _ => v,
    }
}

/// The C4's planted flag and owner: a C4 flagged as planted is skipped and
/// leaves the state as it was; otherwise the scan ends with this C4, dropped
/// when it has no owner and not planted when it has one.
pub open spec fn spec_on_carried_c4<T, P>(
    v: ScanView<T, P>,
    bomb_planted: bool,
    owner_entity_id: Option<u32>,
) -> ScanView<T, P> {
    match v.phase {
        ScanPhase::AwaitCarriedC4 { position } => if bomb_planted {
            ScanView { phase: ScanPhase::Searching, ..v }
        } else {
            ScanView {
                phase: ScanPhase::Finished,
                state: if owner_entity_id.is_none() {
                    BombState::Dropped
                } else {
                    BombState::NotPlanted
                },
                c4: Some(C4 { owner_entity_id, position }),
                ..v
            }
        },
        _ => v,
    }
}

/// Everything the scan can read of one entity.
pub enum EntityReport<T, P> {
    /// An entity of another class.
    Other,
    /// A `C_PlantedC4` entity with its fields.
    PlantedC4 {
        position: P,
        bomb_site: i32,
        defused: bool,
        detonated: bool,
        time_detonation: T,
        defuser: Option<BombDefuser<T>>,
    },
    /// A `C_C4` entity with its fields.
    C4 { position: P, at_origin: bool, bomb_planted: bool, owner_entity_id: Option<u32> },
}

impl<T, P> EntityReport<T, P> {
    /// An entity that cannot hold the bomb: another class, or a C4 parked at
    /// the origin.
    pub open spec fn is_skipped(self) -> bool {
        match self {
            EntityReport::Other => true,
            EntityReport::C4 { at_origin, .. } => at_origin,
            EntityReport::PlantedC4 { .. } => false,
        }
    }
}

/// The scan's steps over one entity, with the reads its requests ask for
/// answered from the report. Once the scan has finished, no entity is looked at.
pub open spec fn spec_scan_entity<T, P>(v: ScanView<T, P>, report: EntityReport<T, P>) -> ScanView<
    T,
    P,
> {
    if v.phase is Finished {
        v
    } else {
        match report {
            EntityReport::Other => spec_on_class(v, EntityClass::Other),
            EntityReport::PlantedC4 {
                position,
                bomb_site,
                defused,
                detonated,
                time_detonation,
                defuser,
            } => {
                let v1 = spec_on_position(spec_on_class(v, EntityClass::PlantedC4), position, false);
                let v2 = spec_on_planted_c4(v1, bomb_site, defused);
                if defused {
                    v2
                } else {
                    let v3 = spec_on_blow_time(v2, detonated, time_detonation);
                    if detonated {
                        v3
                    } else {
                        let v4 = spec_on_defusing(v3, defuser.is_some());
                        match defuser {
                            Some(d) => spec_on_defuser(v4, d),
                            None => v4,
                        }
                    }
                }
            },
            EntityReport::C4 { position, at_origin, bomb_planted, owner_entity_id } => {
                let v1 = spec_on_position(spec_on_class(v, EntityClass::C4), position, at_origin);
                if at_origin {
                    v1
                } else {
                    spec_on_carried_c4(v1, bomb_planted, owner_entity_id)
                }
            },
        }
    }
}

/// The scan over a list of entities, in order.
pub open spec fn spec_scan<T, P>(v: ScanView<T, P>, reports: Seq<EntityReport<T, P>>) -> ScanView<
    T,
    P,
>
    decreases reports.len(),
{
    if reports.len() == 0 {
        v
    } else {
        spec_scan(spec_scan_entity(v, reports[0]), reports.drop_first())
    }
}

/// The scan over the entity list, with what it has found so far.
pub struct BombScanner<T, P> {
    phase: ScanPhase<T, P>,
    state: BombState,
    planted_c4: Option<PlantedC4<T, P>>,
    c4: Option<C4<P>>,
}

impl<T, P> View for BombScanner<T, P> {
    type V = ScanView<T, P>;

    closed spec fn view(&self) -> ScanView<T, P> {
        ScanView {
            phase: self.phase,
            state: self.state,
            planted_c4: self.planted_c4,
            c4: self.c4,
        }
    }
}

impl<T, P> BombScanner<T, P> {
    /// A scan that has looked at no entity: the bomb state is unknown.
    pub fn new() -> (scan: Self)
        ensures
            scan@ == spec_scan_start::<T, P>(),
            scan@.wf(),
    {
        BombScanner {
            phase: ScanPhase::Searching,
            state: BombState::Unknown,
            planted_c4: None,
            c4: None,
        }
    }

    /// The read that the scan needs next.
    pub fn request(&self) -> (request: ScanRequest)
        ensures
            request == spec_request(self@.phase),
    {
        match &self.phase {
            ScanPhase::Searching => ScanRequest::NextEntity,
            ScanPhase::AwaitPosition { .. } => ScanRequest::Position,
            ScanPhase::AwaitPlantedC4 { .. } => ScanRequest::PlantedC4,
            ScanPhase::AwaitBlowTime { .. } => ScanRequest::BlowTime,
            ScanPhase::AwaitDefusing { .. } => ScanRequest::DefusingFlag,
            ScanPhase::AwaitDefuser { .. } => ScanRequest::Defuser,
            ScanPhase::AwaitCarriedC4 { .. } => ScanRequest::CarriedC4,
            ScanPhase::Finished => ScanRequest::Done,
        }
    }

    /// The next entity's class (see `spec_on_class`).
    pub fn on_class(&mut self, class: EntityClass)
        requires
            old(self)@.wf(),
            old(self)@.phase is Searching,
        ensures
            final(self)@ == spec_on_class(old(self)@, class),
            final(self)@.wf(),
    {
        match class {
            EntityClass::Other => {},
            _ => {
                self.phase = ScanPhase::AwaitPosition { class };
            },
        }
    }

    /// The bomb entity's position, and whether it lies at the world origin
    /// (where the game parks a C4 that is not in play); see `spec_on_position`.
    pub fn on_position(&mut self, position: P, at_origin: bool)
        requires
            old(self)@.wf(),
            old(self)@.phase is AwaitPosition,
        ensures
            final(self)@ == spec_on_position(old(self)@, position, at_origin),
            final(self)@.wf(),
    {
        let planted = match &self.phase {
            ScanPhase::AwaitPosition { class } => *class == EntityClass::PlantedC4,
            _ => false,
        };
        if planted {
            self.state = BombState::Planted;
            self.phase = ScanPhase::AwaitPlantedC4 { position };
        } else if at_origin {
            self.phase = ScanPhase::Searching;
        } else {
            self.phase = ScanPhase::AwaitCarriedC4 { position };
        }
    }

    /// The planted C4's bomb site (the game's integer, truncated to a byte)
    /// and whether it has been defused; see `spec_on_planted_c4`.
    pub fn on_planted_c4(&mut self, bomb_site: i32, defused: bool)
        requires
            old(self)@.wf(),
            old(self)@.phase is AwaitPlantedC4,
        ensures
            final(self)@ == spec_on_planted_c4(old(self)@, bomb_site, defused),
            final(self)@.wf(),
    {
        let site = bomb_site as u8;
        let mut phase = ScanPhase::Finished;
        std::mem::swap(&mut phase, &mut self.phase);
        match phase {
            ScanPhase::AwaitPlantedC4 { position } => {
                if defused {
                    self.planted_c4 = Some(
                        PlantedC4 {
                            bomb_site: site,
                            state: PlantedC4State::Defused,
                            position,
                            defuser: None,
                        },
                    );
                } else {
                    self.phase = ScanPhase::AwaitBlowTime { bomb_site: site, position };
                }
            },
            _ => {},
        }
    }

    /// Whether the planted C4's blow time has passed, and the time left until
    /// it blows; see `spec_on_blow_time`.
    pub fn on_blow_time(&mut self, detonated: bool, time_detonation: T)
        requires
            old(self)@.wf(),
            old(self)@.phase is AwaitBlowTime,
        ensures
            final(self)@ == spec_on_blow_time(old(self)@, detonated, time_detonation),
            final(self)@.wf(),
    {
        let mut phase = ScanPhase::Finished;
        std::mem::swap(&mut phase, &mut self.phase);
        match phase {
            ScanPhase::AwaitBlowTime { bomb_site, position } => {
                if detonated {
                    self.planted_c4 = Some(
                        PlantedC4 {
                            bomb_site,
                            state: PlantedC4State::Detonated,
                            position,
                            defuser: None,
                        },
                    );
                } else {
                    self.phase = ScanPhase::AwaitDefusing { bomb_site, position, time_detonation };
                }
            },
            _ => {},
        }
    }

    /// Whether the ticking bomb is being defused; see `spec_on_defusing`.
    pub fn on_defusing(&mut self, defusing: bool)
        requires
            old(self)@.wf(),
            old(self)@.phase is AwaitDefusing,
        ensures
            final(self)@ == spec_on_defusing(old(self)@, defusing),
            final(self)@.wf(),
    {
        let mut phase = ScanPhase::Finished;
        std::mem::swap(&mut phase, &mut self.phase);
        match phase {
            ScanPhase::AwaitDefusing { bomb_site, position, time_detonation } => {
                if defusing {
                    self.phase = ScanPhase::AwaitDefuser { bomb_site, position, time_detonation };
                } else {
                    self.planted_c4 = Some(
                        PlantedC4 {
                            bomb_site,
                            state: PlantedC4State::Active { time_detonation },
                            position,
                            defuser: None,
                        },
                    );
                }
            },
            _ => {},
        }
    }

    /// The player defusing the ticking bomb; see `spec_on_defuser`.
    pub fn on_defuser(&mut self, defuser: BombDefuser<T>)
        requires
            old(self)@.wf(),
            old(self)@.phase is AwaitDefuser,
        ensures
            final(self)@ == spec_on_defuser(old(self)@, defuser),
            final(self)@.wf(),
    {
        let mut phase = ScanPhase::Finished;
        std::mem::swap(&mut phase, &mut self.phase);
        match phase {
            ScanPhase::AwaitDefuser { bomb_site, position, time_detonation } => {
                self.planted_c4 = Some(
                    PlantedC4 {
                        bomb_site,
                        state: PlantedC4State::Active { time_detonation },
                        position,
                        defuser: Some(defuser),
                    },
                );
            },
            _ => {},
        }
    }

    /// The C4's planted flag and owner (`None` when its owner handle is not
    /// valid); see `spec_on_carried_c4`.
    pub fn on_carried_c4(&mut self, bomb_planted: bool, owner_entity_id: Option<u32>)
        requires
            old(self)@.wf(),
            old(self)@.phase is AwaitCarriedC4,
        ensures
            final(self)@ == spec_on_carried_c4(old(self)@, bomb_planted, owner_entity_id),
            final(self)@.wf(),
    {
        let mut phase = ScanPhase::Finished;
        std::mem::swap(&mut phase, &mut self.phase);
        match phase {
            ScanPhase::AwaitCarriedC4 { position } => {
                if bomb_planted {
                    self.phase = ScanPhase::Searching;
                } else {
                    self.state = if owner_entity_id.is_none() {
                        BombState::Dropped
                    } else {
                        BombState::NotPlanted
                    };
                    self.c4 = Some(C4 { owner_entity_id, position });
                }
            },
            _ => {},
        }
    }

    /// Ends the scan, at the end of the entity list or once the bomb has been
    /// found. The bomb reported is consistent.
    pub fn finish(self) -> (bomb: Bomb<T, P>)
        requires
            self@.wf(),
            self@.between_entities(),
        ensures
            bomb == self@.result(),
            bomb.is_consistent(),
    {
        Bomb { planted_c4: self.planted_c4, c4: self.c4, state: self.state }
    }
}

/// One entity's steps keep what the scan keeps, and end between entities.
pub proof fn lemma_scan_entity_wf<T, P>(v: ScanView<T, P>, report: EntityReport<T, P>)
    requires
        v.wf(),
        v.between_entities(),
    ensures
        spec_scan_entity(v, report).wf(),
        spec_scan_entity(v, report).between_entities(),
{
}

/// A scan over any entity list keeps what the scan keeps and ends between
/// entities, so the bomb it reports is consistent.
pub proof fn lemma_scan_reports_consistent_bomb<T, P>(
    v: ScanView<T, P>,
    reports: Seq<EntityReport<T, P>>,
)
    requires
        v.wf(),
        v.between_entities(),
    ensures
        spec_scan(v, reports).wf(),
        spec_scan(v, reports).between_entities(),
        spec_scan(v, reports).result().is_consistent(),
    decreases reports.len(),
{
    if reports.len() > 0 {
        lemma_scan_entity_wf(v, reports[0]);
        lemma_scan_reports_consistent_bomb(spec_scan_entity(v, reports[0]), reports.drop_first());
    }
}

/// An entity that cannot hold the bomb leaves the scan as it was.
pub proof fn lemma_skipped_entity_changes_nothing<T, P>(v: ScanView<T, P>, report: EntityReport<T, P>)
    requires
        v.wf(),
        v.between_entities(),
        report.is_skipped(),
    ensures
        spec_scan_entity(v, report) == v,
{
}

/// Inserting an entity that cannot hold the bomb (another class, or a C4
/// parked at the origin) anywhere into the entity list leaves what the scan
/// finds unchanged.
pub proof fn lemma_skipped_entity_anywhere_changes_nothing<T, P>(
    v: ScanView<T, P>,
    reports: Seq<EntityReport<T, P>>,
    index: int,
    skipped: EntityReport<T, P>,
)
    requires
        v.wf(),
        v.between_entities(),
        0 <= index <= reports.len(),
        skipped.is_skipped(),
    ensures
        spec_scan(v, reports.insert(index, skipped)) == spec_scan(v, reports),
    decreases reports.len(),
{
    let inserted = reports.insert(index, skipped);
    if index == 0 {
        lemma_skipped_entity_changes_nothing(v, skipped);
        assert(inserted.drop_first() =~= reports);
    } else {
        assert(inserted[0] == reports[0]);
        assert(inserted.drop_first() =~= reports.drop_first().insert(index - 1, skipped));
        lemma_scan_entity_wf(v, reports[0]);
        lemma_skipped_entity_anywhere_changes_nothing(
            spec_scan_entity(v, reports[0]),
            reports.drop_first(),
            index - 1,
            skipped,
        );
    }
}

/// Once the scan has finished, further entities change nothing.
pub proof fn lemma_finished_scan_ignores_rest<T, P>(
    v: ScanView<T, P>,
    reports: Seq<EntityReport<T, P>>,
)
    requires
        v.phase is Finished,
    ensures
        spec_scan(v, reports) == v,
    decreases reports.len(),
{
    if reports.len() > 0 {
        lemma_finished_scan_ignores_rest(v, reports.drop_first());
    }
}

/// A planted C4 found while searching ends the scan with the bomb planted at
/// the entity's site (its integer truncated to a byte) and position, on every
/// path: defused; detonated; ticking with the time left, with the defuser
/// when one is defusing and none otherwise.
pub proof fn lemma_planted_c4_reported<T, P>(
    v: ScanView<T, P>,
    position: P,
    bomb_site: i32,
    defused: bool,
    detonated: bool,
    time_detonation: T,
    defuser: Option<BombDefuser<T>>,
)
    requires
        v.wf(),
        v.phase is Searching,
    ensures
        ({
            let after = spec_scan_entity(
                v,
                EntityReport::PlantedC4 {
                    position,
                    bomb_site,
                    defused,
                    detonated,
                    time_detonation,
                    defuser,
                },
            );
            &&& after.phase is Finished
            &&& after.state == BombState::Planted
            &&& after.c4.is_none()
            &&& after.planted_c4 is Some
            &&& after.planted_c4.unwrap().bomb_site == bomb_site as u8
            &&& after.planted_c4.unwrap().position == position
            &&& defused ==> after.planted_c4.unwrap().state == PlantedC4State::<T>::Defused
                && after.planted_c4.unwrap().defuser is None
            &&& !defused && detonated ==> after.planted_c4.unwrap().state
                == PlantedC4State::<T>::Detonated && after.planted_c4.unwrap().defuser is None
            &&& !defused && !detonated ==> after.planted_c4.unwrap().state
                == PlantedC4State::Active { time_detonation } && after.planted_c4.unwrap().defuser
                == defuser
        }),
{
}

/// The first planted C4 of an entity list, after entities that cannot hold
/// the bomb, decides the bomb the scan reports: planted at that entity's site
/// and position, whatever follows it.
pub proof fn lemma_first_planted_c4_decides<T, P>(
    skipped: Seq<EntityReport<T, P>>,
    position: P,
    bomb_site: i32,
    defused: bool,
    detonated: bool,
    time_detonation: T,
    defuser: Option<BombDefuser<T>>,
    rest: Seq<EntityReport<T, P>>,
)
    requires
        forall|i: int| 0 <= i < skipped.len() ==> (#[trigger] skipped[i]).is_skipped(),
    ensures
        ({
            let planted = EntityReport::PlantedC4 {
                position,
                bomb_site,
                defused,
                detonated,
                time_detonation,
                defuser,
            };
            let bomb = spec_scan(spec_scan_start(), skipped + seq![planted] + rest).result();
            &&& bomb.state == BombState::Planted
            &&& bomb.c4.is_none()
            &&& bomb.planted_c4 is Some
            &&& bomb.planted_c4.unwrap().bomb_site == bomb_site as u8
            &&& bomb.planted_c4.unwrap().position == position
        }),
    decreases skipped.len(),
{
    let planted = EntityReport::PlantedC4 {
        position,
        bomb_site,
        defused,
        detonated,
        time_detonation,
        defuser,
    };
    let start = spec_scan_start::<T, P>();
    if skipped.len() == 0 {
        assert(skipped + seq![planted] + rest =~= seq![planted] + rest);
        assert((seq![planted] + rest).drop_first() =~= rest);
        lemma_planted_c4_reported(start, position, bomb_site, defused, detonated, time_detonation, defuser);
        lemma_finished_scan_ignores_rest(spec_scan_entity(start, planted), rest);
    } else {
        let all = skipped + seq![planted] + rest;
        assert(all[0] == skipped[0]);
        assert(all.drop_first() =~= skipped.drop_first() + seq![planted] + rest);
        lemma_skipped_entity_changes_nothing(start, skipped[0]);
        assert forall|i: int| 0 <= i < skipped.drop_first().len() implies (
        #[trigger] skipped.drop_first()[i]).is_skipped() by {
            assert(skipped.drop_first()[i] == skipped[i + 1]);
        }
        lemma_first_planted_c4_decides(
            skipped.drop_first(),
            position,
            bomb_site,
            defused,
            detonated,
            time_detonation,
            defuser,
            rest,
        );
    }
}

/// A C4 away from the origin found while searching: when it reports itself
/// planted it is skipped and the state stays as it was; otherwise the scan
/// ends with that C4 at its position, dropped when it has no owner and not
/// planted when it has one.
pub proof fn lemma_carried_c4_reported<T, P>(
    v: ScanView<T, P>,
    position: P,
    bomb_planted: bool,
    owner_entity_id: Option<u32>,
)
    requires
        v.wf(),
        v.phase is Searching,
    ensures
        ({
            let after = spec_scan_entity(
                v,
                EntityReport::C4 { position, at_origin: false, bomb_planted, owner_entity_id },
            );
            &&& bomb_planted ==> after == v
            &&& !bomb_planted ==> {
                &&& after.phase is Finished
                &&& after.planted_c4.is_none()
                &&& after.c4 == Some(C4 { owner_entity_id, position })
                &&& (after.state == BombState::Dropped) == owner_entity_id.is_none()
                &&& (after.state == BombState::NotPlanted) == owner_entity_id.is_some()
            }
        }),
{
}

} // verus!
