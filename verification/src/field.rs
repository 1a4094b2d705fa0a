//! Board cells: a two-level stack of ship tokens plus a rotation.
//!
//! Each of the 12 cells holds an `outdoor` token (the visible top of the
//! stack), a `hidden` token concealed beneath it (the placeholder when
//! nothing is stacked), a rotation in quarter turns, and a presentation
//! hint (`is_light`) toggled while the pointer hovers over the cell.

use vstd::prelude::*;

use crate::board;
use crate::ship::placeholder_view;
use crate::ship::Ship;
use crate::ship::ShipView;

verus! {

/// Mathematical image of a [`Field`]: every component as a plain value.
#[verifier::ext_equal]
pub ghost struct FieldView {
    /// Position of the cell on the board, 0..11, never reassigned.
    pub number: usize,
    /// The token visible on top of the cell.
    pub outdoor: ShipView,
    /// The token concealed beneath the outdoor one.
    pub hidden: ShipView,
    /// Quarter-turn rotation of the cell, 0..3.
    pub rotation: u8,
    /// Presentation hint: false exactly while the pointer hovers here.
    pub light: bool,
}

/// One board cell.
#[derive(Debug)]
pub struct Field {
    number: usize,
    outdoor: Ship,
    hidden: Ship,
    rotation: u8,
    is_light: bool,
}

impl View for Field {
    type V = FieldView;

    closed spec fn view(&self) -> FieldView {
        FieldView {
            number: self.number,
            outdoor: self.outdoor@,
            hidden: self.hidden@,
            rotation: self.rotation,
            light: self.is_light,
        }
    }
}

impl Clone for Field {
    fn clone(&self) -> (r: Self)
        ensures
            r@ == self@,
    {
        Field {
            number: self.number,
            outdoor: self.outdoor.clone(),
            hidden: self.hidden.clone(),
            rotation: self.rotation,
            is_light: self.is_light,
        }
    }
}

/// The image identifier a cell shows for its outdoor token: the back face
/// while the token is face down, nothing once it is sunk, and otherwise the
/// identity face while the token may be shown; hovering picks the dark
/// variant of whichever face applies.
pub open spec fn image_src_view(f: FieldView) -> Seq<char> {
    if f.outdoor.rev {
        if f.light {
            f.outdoor.rev_src_l
        } else {
            f.outdoor.rev_src_d
        }
    } else if f.outdoor.sunk {
        Seq::<char>::empty()
    } else if f.outdoor.show {
        if f.light {
            f.outdoor.background_src_l
        } else {
            f.outdoor.background_src_d
        }
    } else {
        if f.light {
            f.outdoor.rev_src_l
        } else {
            f.outdoor.rev_src_d
        }
    }
}

impl Field {
    /// A fresh cell at position `number` holding `outdoor` on top of the
    /// placeholder, unrotated and not hovered.
    pub fn new(number: usize, outdoor: Ship) -> (r: Field)
        ensures
            r@.number == number,
            r@.outdoor == outdoor@,
            r@.hidden == placeholder_view(),
            r@.rotation == 0,
            r@.light == true,
    {
        Field {
            number: number,
            hidden: Ship::empty_ship(),
            outdoor: outdoor,
            rotation: 0,
            is_light: true,
        }
    }

    /// Whether the point `(x, y)` lies on this cell's rectangle, bounds
    /// included.
    pub fn is_on_field(&self, x: i32, y: i32) -> (r: bool)
        requires
            self@.number < 12,
        ensures
            r == board::on_field_spec(self@.number as int, x as int, y as int),
    {
        let (fx, fy) = board::field_coords(self.number);

        let x_bigger_equal: bool = x >= fx;
        let x_less_equal: bool = x <= fx + board::FIELD_W;

        let y_bigger_equal: bool = y >= fy;
        let y_less_equal: bool = y <= fy + board::FIELD_H;

        x_bigger_equal && x_less_equal && y_bigger_equal && y_less_equal
    }

    /// Position of the cell on the board.
    pub fn number(&self) -> (r: usize)
        ensures
            r == self@.number,
    {
        self.number
    }

    /// The image identifier to draw for this cell's outdoor token.
    pub fn image_src(&self) -> (r: String)
        ensures
            r@ == image_src_view(self@),
    {
        if self.outdoor.rev() {
            if self.is_light {
                return self.outdoor.rev_src_l();
            } else {
                return self.outdoor.rev_src_d();
            }
        }
        if self.outdoor.is_sunk() {
            return String::new();
        }
        if self.outdoor.show() {
            if self.is_light {
                return self.outdoor.background_src_l();
            }
            return self.outdoor.background_src_d();
        } else {
            if self.is_light {
                return self.outdoor.rev_src_l();
            }
            return self.outdoor.rev_src_d();
        }
    }

    /// Quarter-turn rotation of the cell.
    pub fn rotation(&self) -> (r: u8)
        ensures
            r == self@.rotation,
    {
        self.rotation
    }

    /// Turn the outdoor token face down (`rev = true`) or face up.
    pub fn set_rev_outdoor(&mut self, rev: bool)
        ensures
            final(self)@ == (FieldView {
                outdoor: ShipView { rev: rev, ..old(self)@.outdoor },
                ..old(self)@
            }),
    {
        self.outdoor.set_rev(rev);
    }

    /// The token visible on top of the cell.
    pub fn outdoor(&self) -> (r: Ship)
        ensures
            r@ == self@.outdoor,
    {
        self.outdoor.clone()
    }

    /// The token concealed beneath the outdoor one.
    pub fn hidden(&self) -> (r: Ship)
        ensures
            r@ == self@.hidden,
    {
        self.hidden.clone()
    }

    /// Replace the hidden token.
    pub fn set_hidden(&mut self, hidden_ship: Ship)
        ensures
            final(self)@ == (FieldView { hidden: hidden_ship@, ..old(self)@ }),
    {
        self.hidden = hidden_ship.clone();
    }

    /// Replace the outdoor token.
    pub fn set_outdoor(&mut self, outdoor_ship: Ship)
        ensures
            final(self)@ == (FieldView { outdoor: outdoor_ship@, ..old(self)@ }),
    {
        self.outdoor = outdoor_ship.clone();
    }

    /// Set the cell's rotation.
    pub fn set_rotation(&mut self, rot: u8)
        ensures
            final(self)@ == (FieldView { rotation: rot, ..old(self)@ }),
    {
        self.rotation = rot
    }

    /// Presentation hint: false exactly while the pointer hovers here.
    pub fn is_light(&self) -> (r: bool)
        ensures
            r == self@.light,
    {
        self.is_light
    }

    /// Set the presentation hint: false while the pointer hovers here.
    pub fn set_light(&mut self, is_light: bool)
        ensures
            final(self)@ == (FieldView { light: is_light, ..old(self)@ }),
    {
        self.is_light = is_light
    }
}

/// Whether a move may land on a cell whose outdoor token is `occupant`:
/// allowed while the occupant is concealed, or shown but of the enemy side.
/// A shown friendly occupant blocks the move.
pub open spec fn capture_allowed(mover: ShipView, occupant: ShipView) -> bool {
    !occupant.show || mover.pirate != occupant.pirate
}

/// View of the origin cell after a successful move: its outdoor slot is
/// reset to the placeholder; its hidden token and rotation stay.
pub open spec fn moved_origin_view(origin: FieldView) -> FieldView {
    FieldView { outdoor: placeholder_view(), ..origin }
}

/// View of the target cell after a successful move: the mover arrives on
/// top at the mover's rotation, and the target's previous outdoor token is
/// concealed beneath it.
pub open spec fn moved_target_view(origin: FieldView, target: FieldView) -> FieldView {
    FieldView {
        outdoor: origin.outdoor,
        hidden: target.outdoor,
        rotation: origin.rotation,
        ..target
    }
}

/// Move the outdoor token of cell `selected` onto cell `target`.
///
/// The move proceeds only where the capture rule allows it: the target's
/// outdoor token is concealed, or shown and of the enemy side. Then the
/// target keeps the mover on top at the mover's rotation, remembers its own
/// previous outdoor token as hidden, and the origin's outdoor slot becomes
/// the placeholder. A shown friendly occupant leaves every cell untouched.
pub fn move_ship(fields: &mut Vec<Field>, selected: usize, target: usize)
    requires
        selected < old(fields)@.len(),
        target < old(fields)@.len(),
        selected != target,
    ensures
        final(fields)@.len() == old(fields)@.len(),
        capture_allowed(old(fields)@[selected as int]@.outdoor, old(fields)@[target as int]@.outdoor)
            ==> final(fields)@[target as int]@ == moved_target_view(
                old(fields)@[selected as int]@,
                old(fields)@[target as int]@,
            ) && final(fields)@[selected as int]@ == moved_origin_view(
                old(fields)@[selected as int]@,
            ) && (forall|k: int|
                0 <= k < old(fields)@.len() && k != selected && k != target
                    ==> final(fields)@[k] == old(fields)@[k]),
        !capture_allowed(
            old(fields)@[selected as int]@.outdoor,
            old(fields)@[target as int]@.outdoor,
        ) ==> *final(fields) == *old(fields),
{
    let sel_out = fields[selected].outdoor();
    let tar_out = fields[target].outdoor();
    let rot_sel = fields[selected].rotation();

    if fields[target].outdoor().show() && fields[selected].outdoor().is_pirate()
        != fields[target].outdoor().is_pirate() || !fields[target].outdoor().show() {
        fields[target].set_rotation(rot_sel);
        fields[target].set_hidden(tar_out);
        fields[target].set_outdoor(sel_out);
        fields[selected].set_outdoor(Ship::empty_ship());
    }
}

} // verus!
