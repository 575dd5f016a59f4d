//! What the bomb overlays show: the bomb timer panel beside the player
//! avatars, and the label above a planted or dropped bomb.
//!
//! Drawing, text measurement and the world-to-screen projection work on
//! floating-point screen coordinates and stay with the caller; the decisions
//! of what to show, in which colour and at which opacity are made here.
use vstd::prelude::*;

use crate::bomb::{Bomb, BombDefuser, BombState, PlantedC4State};

verus! {

/// An RGBA colour, one byte per channel.
#[derive(PartialEq, Eq, Structural, Debug, Clone, Copy)]
pub struct Rgba {
    pub r: u8,
    pub g: u8,
    pub b: u8,
    pub a: u8,
}

impl Rgba {
    /// A colour from its four channels.
    pub fn from_rgba(r: u8, g: u8, b: u8, a: u8) -> (color: Rgba)
        ensures
            color == (Rgba { r, g, b, a }),
    {
        Rgba { r, g, b, a }
    }

    /// The same colour with another opacity.
    pub fn with_alpha(self, a: u8) -> (color: Rgba)
        ensures
            color == (Rgba { r: self.r, g: self.g, b: self.b, a }),
    {
        Rgba { r: self.r, g: self.g, b: self.b, a }
    }
}

/// Colour of the defuse line when the defuse cannot finish before the bomb blows.
pub fn defuse_too_late_color() -> (color: Rgba)
    ensures
        color == (Rgba { r: 201, g: 28, b: 28, a: 255 }),
{
    Rgba::from_rgba(201, 28, 28, 255)
}

/// Colour of the defuse line when the defuse finishes in time.
pub fn defuse_in_time_color() -> (color: Rgba)
    ensures
        color == (Rgba { r: 28, g: 201, b: 66, a: 255 }),
{
    Rgba::from_rgba(28, 201, 66, 255)
}

/// The name of a bomb site: 0 is A, any other site B.
pub fn bomb_site_name(bomb_site: u8) -> (name: &'static str)
    ensures
        name@ == (if bomb_site == 0 {
            "A"@
        } else {
            "B"@
        }),
{
    if bomb_site == 0 {
        "A"
    } else {
        "B"
    }
}

/// One line of the bomb timer panel.
pub enum InfoLine<'a, T> {
    /// "Bomb planted A" or "Bomb planted B".
    BombPlanted { bomb_site: u8 },
    /// "Time: ..." until detonation.
    Time { time_detonation: &'a T },
    /// "Defused in ... by ...", coloured by whether the defuse finishes in time.
    DefusedIn { defuser: &'a BombDefuser<T> },
    /// "Not defusing".
    NotDefusing,
    /// "Bomb has been defused".
    Defused,
    /// "Bomb has been detonated".
    Detonated,
}

/// Number of lines the panel shows for a planted bomb: three while it ticks,
/// two once it has been defused or has detonated.
pub open spec fn spec_line_count<T>(state: PlantedC4State<T>) -> nat {
    match state {
        PlantedC4State::Active { .. } => 3,
        PlantedC4State::Defused | PlantedC4State::Detonated => 2,
    }
}

/// The lines of the bomb timer panel, or `None` when the panel is hidden:
/// the timer is off, or the bomb is not planted, or its planted C4 is unknown.
pub open spec fn spec_info_lines<'a, T, P>(bomb_timer: bool, bomb: &'a Bomb<T, P>) -> Option<
    Seq<InfoLine<'a, T>>,
> {
    if !bomb_timer || bomb.state != BombState::Planted {
        None
    } else {
        match &bomb.planted_c4 {
            None => None,
            Some(planted) => Some(
                seq![InfoLine::BombPlanted { bomb_site: planted.bomb_site }] + match &planted.state {
                    PlantedC4State::Active { time_detonation } => seq![
                        InfoLine::Time { time_detonation },
                        match &planted.defuser {
                            Some(defuser) => InfoLine::DefusedIn { defuser },
                            None => InfoLine::NotDefusing,
                        },
                    ],
                    PlantedC4State::Defused => seq![InfoLine::Defused],
                    PlantedC4State::Detonated => seq![InfoLine::Detonated],
                },
            ),
        }
    }
}

/// The bomb timer panel.
pub struct BombInfoIndicator {}

impl BombInfoIndicator {
    /// The bomb timer panel; it holds no state of its own.
    pub fn new() -> (indicator: Self)
        ensures
            indicator == (BombInfoIndicator {  }),
    {
        Self {  }
    }

    /// Number of lines the panel shows for a planted bomb in `state`; the
    /// panel is centred on the avatar row by this many text lines.
    pub fn line_count<T>(state: &PlantedC4State<T>) -> (count: usize)
        ensures
            count == spec_line_count(*state),
    {
        match state {
            PlantedC4State::Active { .. } => 3,
            PlantedC4State::Defused | PlantedC4State::Detonated => 2,
        }
    }

    /// The lines the panel shows, top to bottom, or `None` when it is hidden.
    /// A shown panel has as many lines as `line_count` gives for the bomb.
    pub fn lines<'a, T, P>(&self, bomb_timer: bool, bomb: &'a Bomb<T, P>) -> (lines: Option<
        Vec<InfoLine<'a, T>>,
    >)
        ensures
            match (lines, spec_info_lines(bomb_timer, bomb)) {
                (None, None) => true,
                (Some(v), Some(s)) => v@ == s,
                _ => false,
            },
            lines matches Some(v) ==> v@.len() == spec_line_count(
                bomb.planted_c4.unwrap().state,
            ),
    {
        if !bomb_timer {
            return None;
        }
        if bomb.state != BombState::Planted {
            return None;
        }
        match &bomb.planted_c4 {
            None => None,
            Some(planted) => {
                let mut lines: Vec<InfoLine<'a, T>> = Vec::new();
                lines.push(InfoLine::BombPlanted { bomb_site: planted.bomb_site });
                match &planted.state {
                    PlantedC4State::Active { time_detonation } => {
                        lines.push(InfoLine::Time { time_detonation });
                        match &planted.defuser {
                            Some(defuser) => lines.push(InfoLine::DefusedIn { defuser }),
                            None => lines.push(InfoLine::NotDefusing),
                        }
                    },
                    PlantedC4State::Defused => lines.push(InfoLine::Defused),
                    PlantedC4State::Detonated => lines.push(InfoLine::Detonated),
                }
                Some(lines)
            },
        }
    }
}

/// Opacity of the bomb label while the bomb is close to the camera.
pub const BOMB_LABEL_MAX_ALPHA: u8 = 255;

/// Opacity of the bomb label once the bomb is far from the camera.
pub const BOMB_LABEL_MIN_ALPHA: u8 = 80;

/// Opacity of a fading bomb label while the mouse hovers over it.
pub const BOMB_LABEL_HOVER_ALPHA: u8 = 50;

/// How far the bomb is from the camera, as the label's fading sees it.
#[derive(PartialEq, Eq, Structural, Debug, Clone, Copy)]
pub enum DistanceBand {
    /// Closer than the close distance: the label is fully opaque.
    Close,
    /// Between the close and the far distance: the label fades out.
    Fading,
    /// At the far distance or beyond (or not comparable): the label is faint.
    Far,
}

/// Which bomb a label marks.
#[derive(PartialEq, Eq, Structural, Debug, Clone, Copy)]
pub enum LabelKind {
    /// The planted bomb, in red.
    Planted,
    /// The dropped bomb, in orange.
    Dropped,
}

/// Colour of the label above a planted bomb.
pub fn planted_label_color() -> (color: Rgba)
    ensures
        color == (Rgba { r: 255, g: 0, b: 0, a: 255 }),
{
    Rgba::from_rgba(255, 0, 0, 255)
}

/// Colour of the label above a dropped bomb.
pub fn dropped_label_color() -> (color: Rgba)
    ensures
        color == (Rgba { r: 255, g: 165, b: 0, a: 255 }),
{
    Rgba::from_rgba(255, 165, 0, 255)
}

/// The label to draw above a bomb: where, and in which colour.
pub struct BombLabel<'a, P> {
    pub kind: LabelKind,
    pub position: &'a P,
    pub color: Rgba,
}

/// The label the overlay draws for a bomb, or `None`: the label is off, or
/// the bomb is neither planted (with a known planted C4) nor dropped (with a
/// known C4).
pub open spec fn spec_label_target<'a, T, P>(bomb_label: bool, bomb: &'a Bomb<T, P>) -> Option<
    BombLabel<'a, P>,
> {
    if !bomb_label || bomb.state == BombState::Unknown {
        None
    } else if bomb.state == BombState::Planted && bomb.planted_c4.is_some() {
        Some(
            BombLabel {
                kind: LabelKind::Planted,
                position: &bomb.planted_c4.unwrap().position,
                color: Rgba { r: 255, g: 0, b: 0, a: 255 },
            },
        )
    } else if bomb.state == BombState::Dropped && bomb.c4.is_some() {
        Some(
            BombLabel {
                kind: LabelKind::Dropped,
                position: &bomb.c4.unwrap().position,
                color: Rgba { r: 255, g: 165, b: 0, a: 255 },
            },
        )
    } else {
        None
    }
}

/// The opacity of the bomb label: opaque when close, faint when far, and in
/// between the fading opacity, lowered to the hover opacity while the mouse
/// is near the label.
pub open spec fn spec_label_alpha(band: DistanceBand, fade_alpha: u8, mouse_near: bool) -> u8 {
    match band {
        DistanceBand::Close => 255,
        DistanceBand::Fading => if mouse_near {
            50
        } else {
            fade_alpha
        },
        DistanceBand::Far => 80,
    }
}

/// The label drawn above a planted or dropped bomb.
pub struct BombLabelIndicator {}

impl BombLabelIndicator {
    /// The bomb label; it holds no state of its own.
    pub fn new() -> (indicator: Self)
        ensures
            indicator == (BombLabelIndicator {  }),
    {
        Self {  }
    }

    /// The label to draw for the bomb, or `None` when no label is drawn.
    pub fn label_target<'a, T, P>(&self, bomb_label: bool, bomb: &'a Bomb<T, P>) -> (label:
        Option<BombLabel<'a, P>>)
        ensures
            label == spec_label_target(bomb_label, bomb),
    {
        if !bomb_label {
            return None;
        }
        if bomb.state == BombState::Unknown {
            return None;
        }
        if bomb.state == BombState::Planted {
            if let Some(planted_c4) = &bomb.planted_c4 {
                return Some(
                    BombLabel {
                        kind: LabelKind::Planted,
                        position: &planted_c4.position,
                        color: planted_label_color(),
                    },
                );
            }
        }
        if bomb.state == BombState::Dropped {
            if let Some(c4) = &bomb.c4 {
                return Some(
                    BombLabel {
                        kind: LabelKind::Dropped,
                        position: &c4.position,
                        color: dropped_label_color(),
                    },
                );
            }
        }
        None
    }

    /// The opacity of the label, from the band the bomb's distance falls in,
    /// the opacity the fade gives at that distance, and whether the mouse is
    /// near the label.
    pub fn label_alpha(band: DistanceBand, fade_alpha: u8, mouse_near: bool) -> (alpha: u8)
        ensures
            alpha == spec_label_alpha(band, fade_alpha, mouse_near),
    {
        let mut alpha = match band {
            DistanceBand::Close => BOMB_LABEL_MAX_ALPHA,
            DistanceBand::Fading => fade_alpha,
            DistanceBand::Far => BOMB_LABEL_MIN_ALPHA,
        };
        if mouse_near && band == DistanceBand::Fading {
            alpha = BOMB_LABEL_HOVER_ALPHA;
        }
        alpha
    }
}

/// For a consistent bomb (as the scan reports it), the bomb timer panel is
/// shown exactly when the timer is on and the bomb is planted.
pub proof fn lemma_info_panel_shown_iff_planted<T, P>(bomb_timer: bool, bomb: &Bomb<T, P>)
    requires
        bomb.is_consistent(),
    ensures
        spec_info_lines(bomb_timer, bomb).is_some() == (bomb_timer && bomb.state
            == BombState::Planted),
{
}

/// For a consistent bomb, a label is drawn exactly when the label is on and
/// the bomb is planted or dropped: a planted bomb is marked in red at its
/// planted position, a dropped bomb in orange where it lies.
pub proof fn lemma_label_marks_located_bomb<T, P>(bomb_label: bool, bomb: &Bomb<T, P>)
    requires
        bomb.is_consistent(),
    ensures
        spec_label_target(bomb_label, bomb).is_some() == (bomb_label && (bomb.state
            == BombState::Planted || bomb.state == BombState::Dropped)),
        bomb_label && bomb.state == BombState::Planted ==> spec_label_target(bomb_label, bomb)
            == Some(
            BombLabel {
                kind: LabelKind::Planted,
                position: &bomb.planted_c4.unwrap().position,
                color: Rgba { r: 255, g: 0, b: 0, a: 255 },
            },
        ),
        bomb_label && bomb.state == BombState::Dropped ==> spec_label_target(bomb_label, bomb)
            == Some(
            BombLabel {
                kind: LabelKind::Dropped,
                position: &bomb.c4.unwrap().position,
                color: Rgba { r: 255, g: 165, b: 0, a: 255 },
            },
        ),
{
}

/// Hovering never makes the label more opaque: with the fading opacity at
/// least the hover opacity, the label's opacity with the mouse near it is at
/// most its opacity without.
pub proof fn lemma_hover_never_raises_alpha(band: DistanceBand, fade_alpha: u8)
    requires
        fade_alpha >= BOMB_LABEL_HOVER_ALPHA,
    ensures
        spec_label_alpha(band, fade_alpha, true) <= spec_label_alpha(band, fade_alpha, false),
{
}

/// Whenever the panel is shown, its first line names the planted C4's own
/// bomb site, whatever state the bomb is in; the lines after it follow the
/// state: time and defuser (or "not defusing") while it ticks, one line once
/// it has been defused or has detonated.
pub proof fn lemma_info_lines_follow_bomb<T, P>(bomb_timer: bool, bomb: &Bomb<T, P>)
    ensures
        spec_info_lines(bomb_timer, bomb) matches Some(lines) ==> {
            let planted = bomb.planted_c4.unwrap();
            &&& bomb_timer
            &&& bomb.state == BombState::Planted
            &&& bomb.planted_c4 is Some
            &&& lines[0] matches InfoLine::BombPlanted { bomb_site } && bomb_site
                == planted.bomb_site
            &&& planted.state is Defused ==> lines.len() == 2 && lines[1] is Defused
            &&& planted.state is Detonated ==> lines.len() == 2 && lines[1] is Detonated
            &&& planted.state is Active ==> {
                &&& lines.len() == 3
                &&& lines[1] matches InfoLine::Time { time_detonation } && *time_detonation
                    == planted.state->time_detonation
                &&& planted.defuser is None ==> lines[2] is NotDefusing
                &&& planted.defuser is Some ==> (lines[2] matches InfoLine::DefusedIn { defuser }
                    && *defuser == planted.defuser.unwrap())
            }
        },
{
}

pub proof fn lemma_label_alpha_by_band(fade_alpha: u8, mouse_near: bool)
    ensures
        spec_label_alpha(DistanceBand::Close, fade_alpha, mouse_near) == BOMB_LABEL_MAX_ALPHA,
        spec_label_alpha(DistanceBand::Far, fade_alpha, mouse_near) == BOMB_LABEL_MIN_ALPHA,
        spec_label_alpha(DistanceBand::Fading, fade_alpha, true) == BOMB_LABEL_HOVER_ALPHA,
        spec_label_alpha(DistanceBand::Fading, fade_alpha, false) == fade_alpha,
{
}

} // verus!
