//! The rules engine: game state, initial assignment, selection, rotation
//! and move execution.
//!
//! The engine is a synchronous state machine over 12 cells. A presentation
//! shell feeds it discrete events (select a point, rotate, move in a
//! direction) and reads a snapshot back; the engine itself touches no
//! rendering resource.

use vstd::prelude::*;

use crate::board;
use crate::field;
use crate::field::Field;
use crate::field::FieldView;
use crate::funcs;
use crate::ship::placeholder_view;
use crate::ship::Ship;
use crate::ship::ShipView;

verus! {

/// What a move request came to.
#[derive(Clone, Copy, Debug, PartialEq, Eq, Structural)]
pub enum MoveOutcome {
    /// The move was applied.
    Moved,
    /// No cell was selected, so there was nothing to move.
    RejectedNoSelection,
    /// The legality table closes the requested direction for the selected
    /// cell's rotation and top-ship value.
    RejectedIllegalDirection,
    /// The board has no cell in the requested direction.
    RejectedNoTarget,
    /// The target cell shows a friendly token.
    RejectedFriendlyOccupant,
}

/// Mathematical image of a [`GameState`].
#[verifier::ext_equal]
pub ghost struct GameView {
    /// The 12 cells, in board order.
    pub cells: Seq<FieldView>,
    /// The selected cell, if any.
    pub selected: Option<usize>,
    /// Points of the pirate side; never incremented by any present rule.
    pub black_points: u8,
    /// Points of the other side; never incremented by any present rule.
    pub red_points: u8,
}

impl GameView {
    /// Well-formedness: 12 cells, each knowing its own position, every
    /// rotation a quarter turn, and any selection on the board.
    pub open spec fn wf(self) -> bool {
        &&& self.cells.len() == 12
        &&& forall|i: int| 0 <= i < 12 ==> (#[trigger] self.cells[i]).number == i
        &&& forall|i: int| 0 <= i < 12 ==> (#[trigger] self.cells[i]).rotation < 4
        &&& (self.selected matches Some(s) ==> s < 12)
    }
}

/// The next rotation a quarter turn to the left: 0, 3, 2, 1, 0, ...
/// Values beyond 3 fall to 0, as the executable match does.
pub open spec fn rot_left_spec(r: u8) -> u8 {
    if r == 0 {
        3
    } else if r == 1 {
        0
    } else if r == 2 {
        1
    } else if r == 3 {
        2
    } else {
        0
    }
}

/// The next rotation a quarter turn to the right: 0, 1, 2, 3, 0, ...
/// Values beyond 3 fall to 0, as the executable match does.
pub open spec fn rot_right_spec(r: u8) -> u8 {
    if r == 0 {
        1
    } else if r == 1 {
        2
    } else if r == 2 {
        3
    } else {
        0
    }
}

/// Law: four right quarter turns bring a rotation back to itself.
pub proof fn lemma_rotate_right_cycle(r: u8)
    requires
        r < 4,
    ensures
        rot_right_spec(rot_right_spec(rot_right_spec(rot_right_spec(r)))) == r,
{
}

/// Law: four left quarter turns bring a rotation back to itself.
pub proof fn lemma_rotate_left_cycle(r: u8)
    requires
        r < 4,
    ensures
        rot_left_spec(rot_left_spec(rot_left_spec(rot_left_spec(r)))) == r,
{
}

/// The view of a cell after it is selected: its outdoor token turns face
/// up; everything else stays.
pub open spec fn selected_cell_view(c: FieldView) -> FieldView {
    FieldView { outdoor: ShipView { rev: false, ..c.outdoor }, ..c }
}

/// The outcome a move request in `direction` comes to on state `st`:
/// rejected without a selection, rejected where the legality table closes
/// the direction, rejected where the board has no cell there, rejected
/// where the target shows a friendly token, and applied otherwise.
pub open spec fn move_outcome_spec(st: GameView, direction: u8) -> MoveOutcome {
    match st.selected {
        Option::None => MoveOutcome::RejectedNoSelection,
        Option::Some(sel) => {
            if !funcs::move_legal(
                st.cells[sel as int].rotation,
                st.cells[sel as int].outdoor.score,
                direction,
            ) {
                MoveOutcome::RejectedIllegalDirection
            } else {
                match board::neighbor_spec(sel as int, direction as int) {
                    Option::None => MoveOutcome::RejectedNoTarget,
                    Option::Some(t) => {
                        if field::capture_allowed(
                            st.cells[sel as int].outdoor,
                            st.cells[t].outdoor,
                        ) {
                            MoveOutcome::Moved
                        } else {
                            MoveOutcome::RejectedFriendlyOccupant
                        }
                    },
                }
            }
        },
    }
}

/// The state a move request in `direction` leaves behind: on a rejected
/// request the state itself; on an applied move, the target cell takes the
/// mover on top at the mover's rotation and conceals its previous outdoor
/// token beneath, the origin's outdoor slot becomes the placeholder, and
/// the selection is consumed.
pub open spec fn move_result_spec(st: GameView, direction: u8) -> GameView {
    if move_outcome_spec(st, direction) is Moved {
        match st.selected {
            Option::None => st,
            Option::Some(sel) => {
                match board::neighbor_spec(sel as int, direction as int) {
                    Option::None => st,
                    Option::Some(t) => GameView {
                        cells: st.cells.update(
                            t,
                            field::moved_target_view(st.cells[sel as int], st.cells[t]),
                        ).update(sel as int, field::moved_origin_view(st.cells[sel as int])),
                        selected: Option::None,
                        ..st
                    },
                }
            },
        }
    } else {
        st
    }
}

/// What rendering reads of one cell.
#[derive(Debug)]
pub struct CellSnapshot {
    /// The image identifier of the cell's outdoor token, empty for a sunk
    /// one.
    pub image_src: String,
    /// Whether a real token (not the placeholder) lies concealed beneath.
    pub hidden_present: bool,
    /// Quarter-turn rotation of the cell.
    pub rotation: u8,
    /// True exactly while the pointer hovers over the cell.
    pub highlighted: bool,
}

/// What rendering reads of the whole board.
#[derive(Debug)]
pub struct Snapshot {
    /// The 12 cells, in board order.
    pub cells: Vec<CellSnapshot>,
    /// The selected cell, if any.
    pub selected: Option<usize>,
}

/// The whole state of one game.
#[derive(Debug)]
pub struct GameState {
    cells: Vec<Field>,
    selected: Option<usize>,
    black_points: u8,
    red_points: u8,
}

impl View for GameState {
    type V = GameView;

    closed spec fn view(&self) -> GameView {
        GameView {
            cells: self.cells@.map_values(|c: Field| c@),
            selected: self.selected,
            black_points: self.black_points,
            red_points: self.red_points,
        }
    }
}

/// The size of the pool ship at pool position `i`: the six tokens of each
/// side carry the sizes 1, 1, 2, 2, 3, 3.
pub open spec fn pool_value(i: int) -> u8 {
    ((i % 6) / 2 + 1) as u8
}

/// The side of the pool ship at pool position `i`: the first six are not
/// pirates, the last six are.
pub open spec fn pool_pirate(i: int) -> bool {
    i >= 6
}

/// Identity-face image identifier, light variant, of a pool ship.
pub open spec fn pool_src_l(value: u8, pirate: bool) -> Seq<char> {
    if pirate {
        if value == 1 {
            "/images/b1.jpg"@
        } else if value == 2 {
            "/images/b2.jpg"@
        } else {
            "/images/b3.jpg"@
        }
    } else {
        if value == 1 {
            "/images/r1.jpg"@
        } else if value == 2 {
            "/images/r2.jpg"@
        } else {
            "/images/r3.jpg"@
        }
    }
}

/// Identity-face image identifier, dark variant, of a pool ship.
pub open spec fn pool_src_d(value: u8, pirate: bool) -> Seq<char> {
    if pirate {
        if value == 1 {
            "/images/b1d.jpg"@
        } else if value == 2 {
            "/images/b2d.jpg"@
        } else {
            "/images/b3d.jpg"@
        }
    } else {
        if value == 1 {
            "/images/r1d.jpg"@
        } else if value == 2 {
            "/images/r2d.jpg"@
        } else {
            "/images/r3d.jpg"@
        }
    }
}

/// The view of a fresh pool ship of the given size and side.
pub open spec fn pool_ship_view(value: u8, pirate: bool) -> ShipView {
    ShipView {
        score: value,
        rev: true,
        show: true,
        sunk: false,
        pirate: pirate,
        able_to_move: true,
        rev_src_l: "/images/rewers.jpg"@,
        rev_src_d: "/images/rewers2.jpg"@,
        background_src_l: pool_src_l(value, pirate),
        background_src_d: pool_src_d(value, pirate),
    }
}

/// The 12-token pool the game starts from: per side, two ships of each of
/// the sizes 1, 2 and 3.
pub open spec fn initial_pool() -> Seq<ShipView> {
    Seq::new(12, |i: int| pool_ship_view(pool_value(i), pool_pirate(i)))
}

/// The views of a sequence of ships.
pub open spec fn ship_views(ships: Seq<Ship>) -> Seq<ShipView> {
    ships.map_values(|s: Ship| s@)
}

/// The outdoor-token views of a sequence of cells.
pub open spec fn outdoor_views(cells: Seq<FieldView>) -> Seq<ShipView> {
    cells.map_values(|c: FieldView| c.outdoor)
}

/// A fresh, face-down pool ship of the given size and side.
fn make_pool_ship(value: u8, pirate: bool) -> (r: Ship)
    requires
        1 <= value <= 3,
    ensures
        r@ == pool_ship_view(value, pirate),
{
    let l: &str = if pirate {
        if value == 1 {
            "/images/b1.jpg"
        } else if value == 2 {
            "/images/b2.jpg"
        } else {
            "/images/b3.jpg"
        }
    } else {
        if value == 1 {
            "/images/r1.jpg"
        } else if value == 2 {
            "/images/r2.jpg"
        } else {
            "/images/r3.jpg"
        }
    };
    let d: &str = if pirate {
        if value == 1 {
            "/images/b1d.jpg"
        } else if value == 2 {
            "/images/b2d.jpg"
        } else {
            "/images/b3d.jpg"
        }
    } else {
        if value == 1 {
            "/images/r1d.jpg"
        } else if value == 2 {
            "/images/r2d.jpg"
        } else {
            "/images/r3d.jpg"
        }
    };
    let r = Ship::new(value, pirate, l.to_owned(), d.to_owned());
    proof {
        assert(r@ =~= pool_ship_view(value, pirate));
    }
    r
}

/// The 12-token pool in its fixed order: the six non-pirate ships, then
/// the six pirate ships, sizes 1, 1, 2, 2, 3, 3 within each side.
fn build_pool() -> (r: Vec<Ship>)
    ensures
        r@.len() == 12,
        forall|i: int| 0 <= i < 12 ==> (#[trigger] r@[i])@ == initial_pool()[i],
{
    let mut ships: Vec<Ship> = Vec::new();
    let mut i: usize = 0;
    while i < 12
        invariant
            i <= 12,
            ships@.len() == i,
            forall|k: int| 0 <= k < i ==> (#[trigger] ships@[k])@ == initial_pool()[k],
        decreases 12 - i,
    {
        let value: u8 = ((i % 6) / 2 + 1) as u8;
        let pirate: bool = i >= 6;
        let ship = make_pool_ship(value, pirate);
        proof {
            assert(value == pool_value(i as int));
            assert(pirate == pool_pirate(i as int));
        }
        ships.push(ship);
        i = i + 1;
    }
    ships
}

/// One step of the seeded draw generator: a linear-congruential map on 64
/// bits.
pub open spec fn lcg_next(state: u64) -> u64 {
    (((state as int) * 6364136223846793005 + 1442695040888963407)
        % 0x1_0000_0000_0000_0000) as u64
}

/// The generator's state after `k` steps from `seed`.
pub open spec fn lcg_state(seed: u64, k: nat) -> u64
    decreases k,
{
    if k == 0 {
        seed
    } else {
        lcg_next(lcg_state(seed, (k - 1) as nat))
    }
}

/// Draw number `i` of the seeded generator: the low bits of the state
/// after `i + 1` steps.
pub open spec fn lcg_draw(seed: u64, i: int) -> usize {
    (lcg_state(seed, (i + 1) as nat) % 16777216) as usize
}

/// The twelve draws the seeded generator yields.
pub open spec fn lcg_draws(seed: u64) -> Seq<usize> {
    Seq::new(12, |i: int| lcg_draw(seed, i))
}

/// The outdoor tokens a seeded board starts with: the pool in its fixed
/// order, permuted by the Fisher-Yates swaps that the seeded draws
/// dictate.
pub open spec fn seeded_layout(seed: u64) -> Seq<ShipView> {
    funcs::fisher_yates_steps(initial_pool(), lcg_draws(seed), 12)
}

/// Twelve raw draws for the shuffle: from the process-wide generator when
/// no seed is given, else exactly the seeded generator's stream.
fn gen_draws(seed: Option<u64>) -> (r: Vec<usize>)
    ensures
        r@.len() == 12,
        seed matches Some(sd) ==> r@ == lcg_draws(sd),
{
    let mut draws: Vec<usize> = Vec::new();
    match seed {
        None => {
            let mut i: usize = 0;
            while i < 12
                invariant
                    i <= 12,
                    draws@.len() == i,
                decreases 12 - i,
            {
                draws.push(rand::random::<usize>());
                i = i + 1;
            }
        },
        Some(sd) => {
            let mut state: u64 = sd;
            let mut i: usize = 0;
            while i < 12
                invariant
                    i <= 12,
                    draws@.len() == i,
                    state == lcg_state(sd, i as nat),
                    forall|k: int| 0 <= k < i ==> #[trigger] draws@[k] == lcg_draw(sd, k),
                decreases 12 - i,
            {
                let wide: u128 = (state as u128) * 6364136223846793005
                    + 1442695040888963407;
                state = (wide % 0x1_0000_0000_0000_0000) as u64;
                proof {
                    assert(state == lcg_state(sd, (i + 1) as nat));
                }
                draws.push((state % 16777216) as usize);
                i = i + 1;
            }
            proof {
                assert(draws@ =~= lcg_draws(sd));
            }
        },
    }
    draws
}

impl GameState {
    /// Build a fresh board: the 12-token pool is shuffled uniformly onto
    /// the 12 cells, every hidden slot holds the placeholder, every cell
    /// stands unrotated, nothing is selected, and both scores are zero.
    /// A seed makes the shuffle deterministic for testing — the outdoor
    /// tokens are then exactly [`seeded_layout`] of the seed; without one
    /// the draws come from the process-wide generator.
    pub fn initialize(seed: Option<u64>) -> (s: GameState)
        ensures
            s@.wf(),
            s@.selected is None,
            s@.black_points == 0,
            s@.red_points == 0,
            forall|i: int| 0 <= i < 12 ==> (#[trigger] s@.cells[i]).hidden == placeholder_view(),
            forall|i: int| 0 <= i < 12 ==> (#[trigger] s@.cells[i]).rotation == 0,
            forall|i: int| 0 <= i < 12 ==> (#[trigger] s@.cells[i]).light == true,
            outdoor_views(s@.cells).to_multiset() == initial_pool().to_multiset(),
            seed matches Some(sd) ==> outdoor_views(s@.cells) == seeded_layout(sd),
    {
        let mut ships = build_pool();
        let draws = gen_draws(seed);

        proof {
            assert(ship_views(ships@) =~= initial_pool());
        }

        let mut i: usize = 0;
        while i < 12
            invariant
                i <= 12,
                ships@.len() == 12,
                draws@.len() == 12,
                seed matches Some(sd) ==> draws@ == lcg_draws(sd),
                ship_views(ships@) == funcs::fisher_yates_steps(initial_pool(), draws@, i as int),
                ship_views(ships@).to_multiset() == initial_pool().to_multiset(),
            decreases 12 - i,
        {
            let a: usize = draws[i] % (12 - i) + i;
            let ghost pre = ship_views(ships@);
            let buf = ships[i].clone();
            let at_a = ships[a].clone();
            ships[i] = at_a;
            ships[a] = buf;
            proof {
                assert(ship_views(ships@) =~= pre.update(i as int, pre[a as int]).update(
                    a as int,
                    pre[i as int],
                ));
                assert(ship_views(ships@) == funcs::fisher_yates_swap(
                    pre,
                    draws@[i as int],
                    i as int,
                ));
                funcs::lemma_swap_to_multiset(pre, i as int, a as int);
            }
            i = i + 1;
        }

        let mut cells: Vec<Field> = Vec::new();
        let mut i: usize = 0;
        while i < 12
            invariant
                i <= 12,
                ships@.len() == 12,
                cells@.len() == i,
                seed matches Some(sd) ==> ship_views(ships@) == seeded_layout(sd),
                ship_views(ships@).to_multiset() == initial_pool().to_multiset(),
                forall|k: int| 0 <= k < i ==> (#[trigger] cells@[k])@.number == k,
                forall|k: int| 0 <= k < i ==> (#[trigger] cells@[k])@.outdoor == ships@[k]@,
                forall|k: int| 0 <= k < i ==> (#[trigger] cells@[k])@.hidden == placeholder_view(),
                forall|k: int| 0 <= k < i ==> (#[trigger] cells@[k])@.rotation == 0,
                forall|k: int| 0 <= k < i ==> (#[trigger] cells@[k])@.light == true,
            decreases 12 - i,
        {
            cells.push(Field::new(i, ships[i].clone()));
            i = i + 1;
        }

        let s = GameState { cells, selected: None, black_points: 0, red_points: 0 };
        proof {
            assert(outdoor_views(s@.cells) =~= ship_views(ships@));
        }
        s
    }

    /// The selected cell, if any.
    pub fn selected(&self) -> (r: Option<usize>)
        ensures
            r == self@.selected,
    {
        self.selected
    }

    /// Points of the pirate side.
    pub fn black_points(&self) -> (r: u8)
        ensures
            r == self@.black_points,
    {
        self.black_points
    }

    /// Points of the other side.
    pub fn red_points(&self) -> (r: u8)
        ensures
            r == self@.red_points,
    {
        self.red_points
    }

    /// Read access to one cell.
    pub fn cell(&self, i: usize) -> (r: &Field)
        requires
            i < self@.cells.len(),
        ensures
            r@ == self@.cells[i as int],
    {
        &self.cells[i]
    }

    /// Select the cell whose rectangle holds the point `(x, y)`: it becomes
    /// the selected cell and its outdoor token turns face up. A point
    /// outside every rectangle leaves the state untouched. The rectangles
    /// are pairwise disjoint, so at most one cell matches.
    pub fn select_cell(&mut self, x: i32, y: i32)
        requires
            old(self)@.wf(),
        ensures
            final(self)@.wf(),
            (forall|i: int| 0 <= i < 12 ==> !board::on_field_spec(i, x as int, y as int))
                ==> *final(self) == *old(self),
            forall|i: int|
                0 <= i < 12 && board::on_field_spec(i, x as int, y as int)
                    ==> final(self)@ == (GameView {
                    cells: old(self)@.cells.update(i, selected_cell_view(old(self)@.cells[i])),
                    selected: Option::Some(i as usize),
                    ..old(self)@
                }),
    {
        let mut i: usize = 0;
        while i < 12
            invariant
                i <= 12,
                old(self)@.wf(),
                self@.wf(),
                (forall|j: int| 0 <= j < i ==> !board::on_field_spec(j, x as int, y as int))
                    ==> *self == *old(self),
                forall|j: int|
                    0 <= j < i && board::on_field_spec(j, x as int, y as int)
                        ==> self@ == (GameView {
                        cells: old(self)@.cells.update(j, selected_cell_view(old(self)@.cells[j])),
                        selected: Option::Some(j as usize),
                        ..old(self)@
                    }),
            decreases 12 - i,
        {
            proof {
                assert(self.cells@[i as int]@ == self@.cells[i as int]);
            }
            if self.cells[i].is_on_field(x, y) {
                proof {
                    assert forall|j: int| 0 <= j < i implies !board::on_field_spec(
                        j,
                        x as int,
                        y as int,
                    ) by {
                        if board::on_field_spec(j, x as int, y as int) {
                            board::lemma_fields_disjoint(j, i as int, x as int, y as int);
                        }
                    }
                    assert(*self == *old(self));
                }
                self.cells[i].set_rev_outdoor(false);
                self.selected = Some(i);
                proof {
                    assert(self@.cells =~= old(self)@.cells.update(
                        i as int,
                        selected_cell_view(old(self)@.cells[i as int]),
                    ));
                    assert(self@ =~= (GameView {
                        cells: old(self)@.cells.update(
                            i as int,
                            selected_cell_view(old(self)@.cells[i as int]),
                        ),
                        selected: Option::Some(i),
                        ..old(self)@
                    }));
                }
            }
            i = i + 1;
        }
    }

    /// Clear the selection. The outdoor token once turned face up stays
    /// face up.
    pub fn deselect(&mut self)
        ensures
            final(self)@ == (GameView { selected: Option::None, ..old(self)@ }),
    {
        self.selected = None;
        proof {
            assert(self@ =~= (GameView { selected: Option::None, ..old(self)@ }));
        }
    }

    /// Record the pointer position: a cell is highlighted (not light)
    /// exactly while the pointer lies on its rectangle. Advisory for
    /// rendering only; no rule reads it.
    pub fn hover(&mut self, x: i32, y: i32)
        requires
            old(self)@.wf(),
        ensures
            final(self)@.wf(),
            final(self)@.selected == old(self)@.selected,
            final(self)@.black_points == old(self)@.black_points,
            final(self)@.red_points == old(self)@.red_points,
            forall|i: int|
                0 <= i < 12 ==> final(self)@.cells[i] == (FieldView {
                    light: !board::on_field_spec(i, x as int, y as int),
                    ..old(self)@.cells[i]
                }),
    {
        let mut i: usize = 0;
        while i < 12
            invariant
                i <= 12,
                old(self)@.wf(),
                self@.wf(),
                self@.selected == old(self)@.selected,
                self@.black_points == old(self)@.black_points,
                self@.red_points == old(self)@.red_points,
                forall|j: int|
                    0 <= j < i ==> self@.cells[j] == (FieldView {
                        light: !board::on_field_spec(j, x as int, y as int),
                        ..old(self)@.cells[j]
                    }),
                forall|j: int| i <= j < 12 ==> self@.cells[j] == old(self)@.cells[j],
            decreases 12 - i,
        {
            let ghost prev = self@.cells;
            proof {
                assert(self.cells@[i as int]@ == self@.cells[i as int]);
            }
            if self.cells[i].is_on_field(x, y) {
                self.cells[i].set_light(false);
            } else {
                self.cells[i].set_light(true);
            }
            proof {
                assert(self@.cells =~= prev.update(
                    i as int,
                    (FieldView {
                        light: !board::on_field_spec(i as int, x as int, y as int),
                        ..prev[i as int]
                    }),
                ));
            }
            i = i + 1;
        }
    }

    /// Turn the selected cell a quarter turn to the left. Without a
    /// selection, nothing changes.
    pub fn rotate_left(&mut self)
        requires
            old(self)@.wf(),
        ensures
            final(self)@.wf(),
            old(self)@.selected is None ==> *final(self) == *old(self),
            old(self)@.selected matches Some(s) ==> final(self)@ == (GameView {
                cells: old(self)@.cells.update(
                    s as int,
                    (FieldView {
                        rotation: rot_left_spec(old(self)@.cells[s as int].rotation),
                        ..old(self)@.cells[s as int]
                    }),
                ),
                ..old(self)@
            }),
    {
        match self.selected {
            None => {},
            Some(s) => {
                let nr: u8 = match self.cells[s].rotation() {
                    0 => 3,
                    1 => 0,
                    2 => 1,
                    3 => 2,
                    _ => 0,
                };
                self.cells[s].set_rotation(nr);
                proof {
                    assert(self@ =~= (GameView {
                        cells: old(self)@.cells.update(
                            s as int,
                            (FieldView {
                                rotation: rot_left_spec(old(self)@.cells[s as int].rotation),
                                ..old(self)@.cells[s as int]
                            }),
                        ),
                        ..old(self)@
                    }));
                }
            },
        }
    }

    /// Turn the selected cell a quarter turn to the right. Without a
    /// selection, nothing changes.
    pub fn rotate_right(&mut self)
        requires
            old(self)@.wf(),
        ensures
            final(self)@.wf(),
            old(self)@.selected is None ==> *final(self) == *old(self),
            old(self)@.selected matches Some(s) ==> final(self)@ == (GameView {
                cells: old(self)@.cells.update(
                    s as int,
                    (FieldView {
                        rotation: rot_right_spec(old(self)@.cells[s as int].rotation),
                        ..old(self)@.cells[s as int]
                    }),
                ),
                ..old(self)@
            }),
    {
        match self.selected {
            None => {},
            Some(s) => {
                let nr: u8 = match self.cells[s].rotation() {
                    0 => 1,
                    1 => 2,
                    2 => 3,
                    3 => 0,
                    _ => 0,
                };
                self.cells[s].set_rotation(nr);
                proof {
                    assert(self@ =~= (GameView {
                        cells: old(self)@.cells.update(
                            s as int,
                            (FieldView {
                                rotation: rot_right_spec(old(self)@.cells[s as int].rotation),
                                ..old(self)@.cells[s as int]
                            }),
                        ),
                        ..old(self)@
                    }));
                }
            },
        }
    }

    /// Request a move of the selected cell's outdoor token in the given
    /// compass direction. The outcome and the resulting state follow
    /// [`move_outcome_spec`] and [`move_result_spec`]; on any rejected
    /// outcome the state is exactly what it was.
    pub fn move_selected(&mut self, direction: u8) -> (r: MoveOutcome)
        requires
            old(self)@.wf(),
        ensures
            final(self)@.wf(),
            r == move_outcome_spec(old(self)@, direction),
            final(self)@ == move_result_spec(old(self)@, direction),
            !(r is Moved) ==> *final(self) == *old(self),
    {
        let sel = match self.selected {
            Some(s) => s,
            None => {
                return MoveOutcome::RejectedNoSelection;
            },
        };
        let rotation = self.cells[sel].rotation();
        let value = self.cells[sel].outdoor().score();
        if !funcs::can_move(rotation, value, direction) {
            return MoveOutcome::RejectedIllegalDirection;
        }
        let target = match board::neighbor(sel, direction) {
            Some(t) => t,
            None => {
                return MoveOutcome::RejectedNoTarget;
            },
        };
        let sel_out = self.cells[sel].outdoor();
        let tar_out = self.cells[target].outdoor();
        if tar_out.show() && sel_out.is_pirate() == tar_out.is_pirate() {
            return MoveOutcome::RejectedFriendlyOccupant;
        }
        field::move_ship(&mut self.cells, sel, target);
        self.selected = None;
        proof {
            assert(self@.cells =~= move_result_spec(old(self)@, direction).cells);
            assert(self@ =~= move_result_spec(old(self)@, direction));
        }
        MoveOutcome::Moved
    }

    /// What rendering reads: per cell the outdoor image identifier,
    /// whether a real token lies hidden, the rotation and the highlight,
    /// plus the selection.
    pub fn snapshot(&self) -> (r: Snapshot)
        requires
            self@.wf(),
        ensures
            r.cells@.len() == 12,
            r.selected == self@.selected,
            forall|i: int|
                0 <= i < 12 ==> (#[trigger] r.cells@[i]).image_src@ == field::image_src_view(
                    self@.cells[i],
                ) && r.cells@[i].hidden_present == !self@.cells[i].hidden.sunk
                    && r.cells@[i].rotation == self@.cells[i].rotation && r.cells@[i].highlighted
                    == !self@.cells[i].light,
    {
        let mut cells: Vec<CellSnapshot> = Vec::new();
        let mut i: usize = 0;
        while i < 12
            invariant
                i <= 12,
                self@.wf(),
                cells@.len() == i,
                forall|j: int|
                    0 <= j < i ==> (#[trigger] cells@[j]).image_src@ == field::image_src_view(
                        self@.cells[j],
                    ) && cells@[j].hidden_present == !self@.cells[j].hidden.sunk
                        && cells@[j].rotation == self@.cells[j].rotation && cells@[j].highlighted
                        == !self@.cells[j].light,
            decreases 12 - i,
        {
            let c = CellSnapshot {
                image_src: self.cells[i].image_src(),
                hidden_present: !self.cells[i].hidden().is_sunk(),
                rotation: self.cells[i].rotation(),
                highlighted: !self.cells[i].is_light(),
            };
            cells.push(c);
            i = i + 1;
        }
        Snapshot { cells, selected: self.selected }
    }
}

} // verus!
