//! The bomb as the game state reports it, the classes of the entities that
//! can hold it, and the defuser's player name.
//!
//! Times and positions are floating-point values in the game. The types here
//! are generic over them (`T` for a time in seconds, `P` for a position), so
//! the decisions about them are verified for every value the caller holds.
use vstd::prelude::*;
use vstd::utf8::*;

verus! {

/// The player who is currently defusing the planted bomb.
pub struct BombDefuser<T> {
    /// Total time remaining for a successful bomb defuse
    pub time_remaining: T,
    /// The defuser's player name
    pub player_name: String,
}

/// State of the planted C4.
pub enum PlantedC4State<T> {
    /// Bomb is currently actively ticking
    Active {
        /// Time remaining (in seconds) until detonation
        time_detonation: T,
    },
    /// Bomb has detonated
    Detonated,
    /// Bomb has been defused
    Defused,
}

/// Where the bomb is.
#[derive(PartialEq, Eq, Structural, Debug, Clone, Copy)]
pub enum BombState {
    /// Bomb has been planted
    Planted,
    /// Bomb has not been planted
    NotPlanted,
    /// Bomb has been dropped
    Dropped,
    /// Bomb state is unknown
    Unknown,
}

/// Information about the currently active planted C4
pub struct PlantedC4<T, P> {
    /// Planted bomb site: 0 = A, 1 = B
    pub bomb_site: u8,
    /// Current state of the planted C4
    pub state: PlantedC4State<T>,
    /// Position of the planted bomb.
    pub position: P,
    /// Current bomb defuser
    pub defuser: Option<BombDefuser<T>>,
}

/// Information about the C4 (not planted)
pub struct C4<P> {
    /// Entity ID of the player carrying the bomb
    pub owner_entity_id: Option<u32>,
    /// Position of the bomb.
    pub position: P,
}

/// Information about the bomb
pub struct Bomb<T, P> {
    pub planted_c4: Option<PlantedC4<T, P>>,
    pub c4: Option<C4<P>>,
    pub state: BombState,
}

impl<T, P> Bomb<T, P> {
    /// The bomb state agrees with the details that come with it: a planted
    /// bomb carries its planted C4, a carried or dropped bomb its C4, and a
    /// bomb is dropped exactly when its C4 has no owner.
    pub open spec fn is_consistent(&self) -> bool {
        &&& (self.state == BombState::Planted) == self.planted_c4.is_some()
        &&& self.planted_c4.is_some() ==> self.c4.is_none()
        &&& self.c4.is_some() ==> (self.state == BombState::NotPlanted || self.state
            == BombState::Dropped)
        &&& self.c4 matches Some(c4) ==> ((self.state == BombState::Dropped)
            == c4.owner_entity_id.is_none())
        &&& self.state == BombState::Dropped ==> self.c4.is_some()
        &&& self.planted_c4 matches Some(planted) ==> (planted.defuser.is_some()
            ==> planted.state is Active)
    }
}

/// The kind of an entity, by its class name.
#[derive(PartialEq, Eq, Structural, Debug, Clone, Copy)]
pub enum EntityClass {
    /// `C_PlantedC4`
    PlantedC4,
    /// `C_C4`
    C4,
    /// Any other class, or a class whose name is unknown.
    Other,
}

/// The class that a class name stands for.
pub open spec fn spec_entity_class(class_name: Option<Seq<char>>) -> EntityClass {
    match class_name {
        Some(name) => if name == "C_PlantedC4"@ {
            EntityClass::PlantedC4
        } else if name == "C_C4"@ {
            EntityClass::C4
        } else {
            EntityClass::Other
        },
        None => EntityClass::Other,
    }
}

/// Classifies an entity by the name of its class.
pub fn entity_class(class_name: Option<&String>) -> (class: EntityClass)
    ensures
        class == spec_entity_class(
            match class_name {
                Some(name) => Some(name@),
                None => None,
            },
        ),
{
    match class_name {
        Some(name) => {
            let planted = String::from_str("C_PlantedC4");
            let carried = String::from_str("C_C4");
            if *name == planted {
                EntityClass::PlantedC4
            } else if *name == carried {
                EntityClass::C4
            } else {
                EntityClass::Other
            }
        },
        None => EntityClass::Other,
    }
}

/// What `String::from_utf8_lossy` makes of a byte sequence.
pub uninterp spec fn utf8_lossy(bytes: Seq<u8>) -> Seq<char>;

/// Calls `String::from_utf8_lossy` and takes the result as an owned string.
/// Claimed: the result is `utf8_lossy` of the bytes, and for valid UTF-8 it is
/// the decoded text (std documents that valid input is returned unchanged).
/// How invalid sequences are replaced is left to the name.
#[verifier::external_body]
fn string_from_utf8_lossy(bytes: &[u8]) -> (text: String)
    ensures
        text@ == utf8_lossy(bytes@),
        valid_utf8(bytes@) ==> text@ == decode_utf8(bytes@),
{
    String::from_utf8_lossy(bytes).into_owned()
}

/// The name shown when a player name holds no terminating NUL byte.
pub open spec fn name_error() -> Seq<char> {
    "Name Error"@
}

/// Reads a NUL-terminated player name: the bytes before the first NUL,
/// decoded lossily as UTF-8, or "Name Error" when there is no NUL.
pub fn player_name_from_bytes(bytes: &[u8]) -> (name: String)
    ensures
        (forall|i: int| 0 <= i < bytes@.len() ==> bytes@[i] != 0) ==> name@ == name_error(),
        forall|i: int|
            0 <= i < bytes@.len() && bytes@[i] == 0 && (forall|j: int|
                0 <= j < i ==> bytes@[j] != 0) ==> name@ == utf8_lossy(
                #[trigger] bytes@.take(i),
            ),
{
    let mut i: usize = 0;
    while i < bytes.len()
        invariant
            i <= bytes@.len(),
            forall|j: int| 0 <= j < i ==> bytes@[j] != 0,
        decreases bytes@.len() - i,
    {
        if bytes[i] == 0 {
            let prefix = &bytes[0..i];
            assert(prefix@ == bytes@.take(i as int));
            return string_from_utf8_lossy(prefix);
        }
        i = i + 1;
    }
    String::from_str("Name Error")
}

} // verus!
