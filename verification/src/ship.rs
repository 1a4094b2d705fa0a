//! Ship tokens: the movable pieces of the board.
//!
//! A token carries a fixed size (`score`) and side (`is_pirate`), a pair of
//! image identifiers for each face, and the visibility flags that the rules
//! engine toggles as tokens are selected, moved and covered.

use vstd::prelude::*;

verus! {

/// Mathematical image of a [`Ship`]: every field as a plain value, with the
/// image identifiers as character sequences.
#[verifier::ext_equal]
pub ghost struct ShipView {
    /// Size of the ship: 0 for the placeholder, 1..3 for real tokens.
    pub score: u8,
    /// True while the back face (not the identity) is the one to show.
    pub rev: bool,
    /// True while the token may be drawn at all.
    pub show: bool,
    /// Terminal flag: a sunk token never moves and is never drawn.
    pub sunk: bool,
    /// Side of the token: pirate or not.
    pub pirate: bool,
    /// Whether the token may still be moved or rotated.
    pub able_to_move: bool,
    /// Image identifier of the back face, light variant.
    pub rev_src_l: Seq<char>,
    /// Image identifier of the back face, dark variant.
    pub rev_src_d: Seq<char>,
    /// Image identifier of the identity face, light variant.
    pub background_src_l: Seq<char>,
    /// Image identifier of the identity face, dark variant.
    pub background_src_d: Seq<char>,
}

/// The view of the placeholder token that stands for "nothing here": value 0,
/// permanently sunk, never shown, with empty image identifiers.
pub open spec fn placeholder_view() -> ShipView {
    ShipView {
        score: 0,
        rev: true,
        show: false,
        sunk: true,
        pirate: true,
        able_to_move: false,
        rev_src_l: Seq::<char>::empty(),
        rev_src_d: Seq::<char>::empty(),
        background_src_l: Seq::<char>::empty(),
        background_src_d: Seq::<char>::empty(),
    }
}

/// A ship token.
#[derive(Debug)]
pub struct Ship {
    score: u8,
    rev: bool,
    show: bool,
    is_sunk: bool,
    is_pirate: bool,
    rev_src_l: String,
    rev_src_d: String,
    able_to_move: bool,
    background_src_l: String,
    background_src_d: String,
}

impl View for Ship {
    type V = ShipView;

    closed spec fn view(&self) -> ShipView {
        ShipView {
            score: self.score,
            rev: self.rev,
            show: self.show,
            sunk: self.is_sunk,
            pirate: self.is_pirate,
            able_to_move: self.able_to_move,
            rev_src_l: self.rev_src_l@,
            rev_src_d: self.rev_src_d@,
            background_src_l: self.background_src_l@,
            background_src_d: self.background_src_d@,
        }
    }
}

impl Clone for Ship {
    fn clone(&self) -> (r: Self)
        ensures
            r@ == self@,
    {
        Ship {
            score: self.score,
            rev: self.rev,
            show: self.show,
            is_sunk: self.is_sunk,
            is_pirate: self.is_pirate,
            rev_src_l: self.rev_src_l.clone(),
            rev_src_d: self.rev_src_d.clone(),
            able_to_move: self.able_to_move,
            background_src_l: self.background_src_l.clone(),
            background_src_d: self.background_src_d.clone(),
        }
    }
}

impl Ship {
    /// A fresh, face-down, movable token of the given size and side.
    pub fn new(score: u8, is_pirate: bool, bck_src_l: String, bck_src_d: String) -> (r: Ship)
        ensures
            r@.score == score,
            r@.pirate == is_pirate,
            r@.rev == true,
            r@.show == true,
            r@.sunk == false,
            r@.able_to_move == true,
            r@.rev_src_l == "/images/rewers.jpg"@,
            r@.rev_src_d == "/images/rewers2.jpg"@,
            r@.background_src_l == bck_src_l@,
            r@.background_src_d == bck_src_d@,
    {
        Ship {
            score,
            rev: true,
            show: true,
            is_sunk: false,
            is_pirate,
            rev_src_l: "/images/rewers.jpg".to_owned(),
            rev_src_d: "/images/rewers2.jpg".to_owned(),
            able_to_move: true,
            background_src_l: bck_src_l,
            background_src_d: bck_src_d,
        }
    }

    /// The placeholder token: what a slot holds when no real ship is there.
    pub fn empty_ship() -> (r: Ship)
        ensures
            r@ == placeholder_view(),
    {
        let r = Ship {
            score: 0,
            rev: true,
            show: false,
            is_sunk: true,
            is_pirate: true,
            rev_src_l: String::new(),
            rev_src_d: String::new(),
            able_to_move: false,
            background_src_l: String::new(),
            background_src_d: String::new(),
        };
        proof {
            assert(r@ =~= placeholder_view());
        }
        r
    }

    /// Whether the back face is the one to show.
    pub fn rev(&self) -> (r: bool)
        ensures
            r == self@.rev,
    {
        self.rev
    }

    /// Turn the token face down (`rev = true`) or face up (`rev = false`).
    pub fn set_rev(&mut self, rev: bool)
        ensures
            final(self)@ == (ShipView { rev: rev, ..old(self)@ }),
    {
        self.rev = rev;
    }

    /// Whether the token is sunk and so out of play.
    pub fn is_sunk(&self) -> (r: bool)
        ensures
            r == self@.sunk,
    {
        self.is_sunk
    }

    /// Sink the token: it is never drawn nor moved again.
    pub fn sunk(&mut self)
        ensures
            final(self)@ == (ShipView { sunk: true, show: false, ..old(self)@ }),
    {
        self.is_sunk = true;
        self.show = false;
    }

    /// Allow or forbid drawing the token.
    pub fn set_show(&mut self, show: bool)
        ensures
            final(self)@ == (ShipView { show: show, ..old(self)@ }),
    {
        self.show = show;
    }

    /// Image identifier of the identity face, light variant.
    pub fn background_src_l(&self) -> (r: String)
        ensures
            r@ == self@.background_src_l,
    {
        self.background_src_l.clone()
    }

    /// Image identifier of the identity face, dark variant.
    pub fn background_src_d(&self) -> (r: String)
        ensures
            r@ == self@.background_src_d,
    {
        self.background_src_d.clone()
    }

    /// Image identifier of the back face, light variant.
    pub fn rev_src_l(&self) -> (r: String)
        ensures
            r@ == self@.rev_src_l,
    {
        self.rev_src_l.clone()
    }

    /// Image identifier of the back face, dark variant.
    pub fn rev_src_d(&self) -> (r: String)
        ensures
            r@ == self@.rev_src_d,
    {
        self.rev_src_d.clone()
    }

    /// Whether the token may be drawn.
    pub fn show(&self) -> (r: bool)
        ensures
            r == self@.show,
    {
        self.show
    }

    /// Size of the ship: 0 for the placeholder, 1..3 for real tokens.
    pub fn score(&self) -> (r: u8)
        ensures
            r == self@.score,
    {
        self.score
    }

    /// Side of the token.
    pub fn is_pirate(&self) -> (r: bool)
        ensures
            r == self@.pirate,
    {
        self.is_pirate
    }
}

} // verus!
