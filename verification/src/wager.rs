//! Placing wager cards on the track, and skipping the placement phase.
use vstd::prelude::*;
use crate::messages::{
    alert, alert_view, card_code, CardType, GameStateEnum, ServerUpdate, ServerUpdateView, WagerToken,
};
use crate::state::{send_state_sync, state_sync_view, OfflineServerState, OfflineStateView};
use crate::terrain::{cell_at, get_cell, ActiveCourseTrack, TerrainType};

verus! {

/// Why a wager card cannot go on the chosen tile.
#[derive(Debug, Clone, Copy, PartialEq, Eq, Structural)]
pub enum DraftRejection {
    TileOccupied,
    TeeBox,
    GreenTile,
    ShieldNeedsHazard,
    BananaNeedsFairway,
    GoldenDieNeedsFairway,
    BananaBeforeOutOfBounds,
}

/// Whether a wager already stands on `cell`.
pub open spec fn tile_occupied(wagers: Seq<WagerToken>, cell: u32) -> bool {
    exists|i: int| 0 <= i < wagers.len() && (#[trigger] wagers[i]).cell_index == cell
}

/// Whether a cell is a hazard: rough, bunker, water or out of bounds.
pub open spec fn is_hazard(cell: Option<TerrainType>) -> bool {
    match cell {
        Some(TerrainType::Rough) | Some(TerrainType::Bunker) | Some(TerrainType::Water) | Some(
            TerrainType::OutOfBounds,
        ) => true,
        _ => false,
    }
}

/// The first placement rule, of the first four, that placing `card` on
/// `cell` breaks: one wager per tile; none on the tee (cell 0) or on a green;
/// a shield only on a hazard; a banana or a golden die only on fairway.
pub open spec fn early_rejection(
    wagers: Seq<WagerToken>,
    card: CardType,
    cell: u32,
    cells: Seq<TerrainType>,
) -> Option<DraftRejection> {
    let terrain = cell_at(cells, cell as int);
    if tile_occupied(wagers, cell) {
        Some(DraftRejection::TileOccupied)
    } else if cell == 0 {
        Some(DraftRejection::TeeBox)
    } else if terrain matches Some(TerrainType::Green(_)) {
        Some(DraftRejection::GreenTile)
    } else if card == CardType::Shield && !is_hazard(terrain) {
        Some(DraftRejection::ShieldNeedsHazard)
    } else if card == CardType::Banana && terrain != Some(TerrainType::Fairway) {
        Some(DraftRejection::BananaNeedsFairway)
    } else if card == CardType::GoldenDie && terrain != Some(TerrainType::Fairway) {
        Some(DraftRejection::GoldenDieNeedsFairway)
    } else {
        None
    }
}

/// The placement rule that placing `card` on `cell` breaks, if any: the
/// first four rules, then that a banana may not stand four cells before an
/// out-of-bounds cell.
pub open spec fn draft_rejection(
    wagers: Seq<WagerToken>,
    card: CardType,
    cell: u32,
    cells: Seq<TerrainType>,
) -> Option<DraftRejection> {
    match early_rejection(wagers, card, cell, cells) {
        Some(r) => Some(r),
        None => if card == CardType::Banana && cell_at(cells, cell + 4) == Some(
            TerrainType::OutOfBounds,
        ) {
            Some(DraftRejection::BananaBeforeOutOfBounds)
        } else {
            None
        },
    }
}

/// The alert that answers a broken placement rule.
pub open spec fn rejection_message(r: DraftRejection) -> Seq<char> {
    match r {
        DraftRejection::TileOccupied => "Tile already has a wager token placed!"@,
        DraftRejection::TeeBox => "Cannot place wager on Tee Box!"@,
        DraftRejection::GreenTile => "Cannot place wager on Green tiles!"@,
        DraftRejection::ShieldNeedsHazard => "Guardian Shield must be placed on a Hazard!"@,
        DraftRejection::BananaNeedsFairway => "Trickster Banana must be placed on Fairway!"@,
        DraftRejection::GoldenDieNeedsFairway => "Golden Die must be placed on Fairway!"@,
        DraftRejection::BananaBeforeOutOfBounds => "Trickster Banana cannot be placed 4 spaces before OB!"@,
    }
}

/// The alert that confirms a placed card.
pub open spec fn placed_message(card: CardType) -> Seq<char> {
    match card {
        CardType::Shield => "Placed Guardian Shield wager!"@,
        CardType::Banana => "Placed Trickster Banana wager!"@,
        CardType::GoldenDie => "Placed Golden Die wager!"@,
    }
}

/// The alert sent when the hand holds no card of the kind asked for.
pub open spec fn missing_card_message() -> Seq<char> {
    "No card of that type in hand!"@
}

/// The position of the first occurrence of `x` in `s` (meaningful when `s`
/// contains `x`).
pub open spec fn first_position(s: Seq<u8>, x: u8) -> int {
    choose|p: int| 0 <= p < s.len() && s[p] == x && forall|j: int| 0 <= j < p ==> s[j] != x
}

/// Whether placing `card` on `cell` succeeds: no rule is broken and the hand
/// holds such a card.
pub open spec fn draft_succeeds(s: OfflineStateView, card: CardType, cell: u32, cells: Seq<TerrainType>) -> bool {
    &&& draft_rejection(s.placed_wagers, card, cell, cells) is None
    &&& s.inventory.contains(card_code(card))
}

/// The state after `card` is placed on `cell`: the first such card leaves the
/// hand, the wager (owned by the active player) joins the board, the sequence
/// number goes up by one, and with an empty hand the game awaits the turn.
pub open spec fn state_after_draft(s: OfflineStateView, card: CardType, cell: u32) -> OfflineStateView {
    let inventory = s.inventory.remove(first_position(s.inventory, card_code(card)));
    OfflineStateView {
        inventory: inventory,
        placed_wagers: s.placed_wagers.push(
            WagerToken { card_type: card, owner_id: s.active_player_id, cell_index: cell },
        ),
        sequence: (s.sequence + 1) as u64,
        game_state: if inventory.len() == 0 {
            GameStateEnum::AwaitingTurn
        } else {
            s.game_state
        },
        ..s
    }
}

/// Whether the draft handler can run on these inputs without an arithmetic
/// overflow: the banana look-ahead stays within `u32`, and a successful
/// placement does not run the sequence number past its largest value.
pub open spec fn draft_in_range(s: OfflineStateView, card: CardType, cell: u32, cells: Seq<TerrainType>) -> bool {
    &&& (early_rejection(s.placed_wagers, card, cell, cells) is None && card == CardType::Banana)
        ==> cell + 4 <= u32::MAX
    &&& draft_succeeds(s, card, cell, cells) ==> s.sequence < u64::MAX
}

/// The first wager, in order of placement, standing on `cell`.
pub open spec fn first_wager_at(wagers: Seq<WagerToken>, cell: u32) -> Option<WagerToken>
    decreases wagers.len(),
{
    if wagers.len() == 0 {
        None
    } else if wagers[0].cell_index == cell {
        Some(wagers[0])
    } else {
        first_wager_at(wagers.drop_first(), cell)
    }
}

/// Finds the first wager, in order of placement, standing on `cell`.
pub fn find_wager_at(wagers: &Vec<WagerToken>, cell: u32) -> (found: Option<WagerToken>)
    ensures
        found == first_wager_at(wagers@, cell),
{
    let n = wagers.len();
    let mut i: usize = 0;
    assert(wagers@.skip(0) =~= wagers@);
    while i < n
        invariant
            n == wagers@.len(),
            i <= n,
            first_wager_at(wagers@, cell) == first_wager_at(wagers@.skip(i as int), cell),
        decreases n - i,
    {
        assert(wagers@.skip(i as int)[0] == wagers@[i as int]);
        if wagers[i].cell_index == cell {
            return Some(wagers[i]);
        }
        assert(wagers@.skip(i as int).drop_first() =~= wagers@.skip(i + 1));
        i = i + 1;
    }
    assert(wagers@.skip(n as int).len() == 0);
    None
}

fn wager_on_tile(wagers: &Vec<WagerToken>, cell_index: u32) -> (found: bool)
    ensures
        found == tile_occupied(wagers@, cell_index),
{
    let n = wagers.len();
    let mut i: usize = 0;
    while i < n
        invariant
            n == wagers@.len(),
            i <= n,
            forall|j: int| 0 <= j < i ==> (#[trigger] wagers@[j]).cell_index != cell_index,
        decreases n - i,
    {
        if wagers[i].cell_index == cell_index {
            assert(wagers@[i as int].cell_index == cell_index);
            return true;
        }
        i = i + 1;
    }
    false
}

fn position_of_card(inventory: &Vec<u8>, code: u8) -> (pos: Option<usize>)
    ensures
        pos is Some <==> inventory@.contains(code),
        pos matches Some(p) ==> p == first_position(inventory@, code) && p < inventory@.len(),
{
    let n = inventory.len();
    let mut i: usize = 0;
    while i < n
        invariant
            n == inventory@.len(),
            i <= n,
            forall|j: int| 0 <= j < i ==> inventory@[j] != code,
        decreases n - i,
    {
        if inventory[i] == code {
            let ghost p = i as int;
            assert(0 <= p < inventory@.len() && inventory@[p] == code && forall|j: int|
                0 <= j < p ==> inventory@[j] != code);
            assert(first_position(inventory@, code) == p) by {
                let q = first_position(inventory@, code);
                assert(0 <= q < inventory@.len() && inventory@[q] == code && forall|j: int|
                    0 <= j < q ==> inventory@[j] != code);
                if q < p {
                } else if q > p {
                    assert(inventory@[p] != code);
                }
            }
            return Some(i);
        }
        i = i + 1;
    }
    None
}

/// Checks the placement rules for `card_type` on tile `cell_index`, in
/// order, and returns the first one broken.
pub fn check_draft_rules(
    wagers: &Vec<WagerToken>,
    card_type: CardType,
    cell_index: u32,
    course: &ActiveCourseTrack,
) -> (rejection: Option<DraftRejection>)
    requires
        (early_rejection(wagers@, card_type, cell_index, course.cells@) is None && card_type
            == CardType::Banana) ==> cell_index + 4 <= u32::MAX,
    ensures
        rejection == draft_rejection(wagers@, card_type, cell_index, course.cells@),
{
    if wager_on_tile(wagers, cell_index) {
        return Some(DraftRejection::TileOccupied);
    }
    if cell_index == 0 {
        return Some(DraftRejection::TeeBox);
    }
    let cell_terrain = get_cell(&course.cells, cell_index as usize);
    if let Some(TerrainType::Green(_)) = cell_terrain {
        return Some(DraftRejection::GreenTile);
    }
    if card_type == CardType::Shield {
        let hazard = match cell_terrain {
            Some(TerrainType::Rough) | Some(TerrainType::Bunker) | Some(TerrainType::Water) | Some(
                TerrainType::OutOfBounds,
            ) => true,
            _ => false,
        };
        if !hazard {
            return Some(DraftRejection::ShieldNeedsHazard);
        }
    }
    if card_type == CardType::Banana || card_type == CardType::GoldenDie {
        let fairway = match cell_terrain {
            Some(TerrainType::Fairway) => true,
            _ => false,
        };
        if !fairway {
            if card_type == CardType::Banana {
                return Some(DraftRejection::BananaNeedsFairway);
            } else {
                return Some(DraftRejection::GoldenDieNeedsFairway);
            }
        }
    }
    if card_type == CardType::Banana {
        let ahead_idx = cell_index + 4;
        if let Some(TerrainType::OutOfBounds) = get_cell(&course.cells, ahead_idx as usize) {
            return Some(DraftRejection::BananaBeforeOutOfBounds);
        }
    }
    None
}

/// The alert text for a broken placement rule.
pub fn rejection_text(r: DraftRejection) -> (text: &'static str)
    ensures
        text@ == rejection_message(r),
{
    match r {
        DraftRejection::TileOccupied => "Tile already has a wager token placed!",
        DraftRejection::TeeBox => "Cannot place wager on Tee Box!",
        DraftRejection::GreenTile => "Cannot place wager on Green tiles!",
        DraftRejection::ShieldNeedsHazard => "Guardian Shield must be placed on a Hazard!",
        DraftRejection::BananaNeedsFairway => "Trickster Banana must be placed on Fairway!",
        DraftRejection::GoldenDieNeedsFairway => "Golden Die must be placed on Fairway!",
        DraftRejection::BananaBeforeOutOfBounds => "Trickster Banana cannot be placed 4 spaces before OB!",
    }
}

/// Tells whether the draft handler can run on these inputs without an
/// arithmetic overflow.
pub fn draft_in_range_check(
    state: &OfflineServerState,
    card_type: CardType,
    cell_index: u32,
    course: &ActiveCourseTrack,
) -> (ok: bool)
    ensures
        ok == draft_in_range(state@, card_type, cell_index, course.cells@),
{
    if card_type == CardType::Banana && cell_index > u32::MAX - 4 {
        // Such a cell is not the tee, so only an occupied tile or a cell
        // other than fairway stops the banana before the look-ahead.
        let occupied = wager_on_tile(&state.placed_wagers, cell_index);
        let fairway = match get_cell(&course.cells, cell_index as usize) {
            Some(TerrainType::Fairway) => true,
            _ => false,
        };
        return occupied || !fairway;
    }
    let rejection = check_draft_rules(&state.placed_wagers, card_type, cell_index, course);
    if rejection.is_some() {
        return true;
    }
    match position_of_card(&state.inventory, card_code(card_type)) {
        Some(_) => state.sequence < u64::MAX,
        None => true,
    }
}

/// Places a wager card of kind `card_type` on tile `cell_index`.
///
/// A broken placement rule is answered by its alert and the state is left as
/// it was; so is a hand without such a card. Otherwise the card moves from
/// the hand to the board and the placement is confirmed. Every answer ends
/// with the update that reports the resulting state.
pub fn handle_draft_card(
    state: &mut OfflineServerState,
    card_type: CardType,
    cell_index: u32,
    course: &ActiveCourseTrack,
) -> (updates: Vec<ServerUpdate>)
    requires
        draft_in_range(old(state)@, card_type, cell_index, course.cells@),
    ensures
        ({
            let s = old(state)@;
            match draft_rejection(s.placed_wagers, card_type, cell_index, course.cells@) {
                Some(r) => final(state)@ == s && updates.deep_view() == seq![
                    alert_view(rejection_message(r)),
                    state_sync_view(s),
                ],
                None => if s.inventory.contains(card_code(card_type)) {
                    final(state)@ == state_after_draft(s, card_type, cell_index)
                        && updates.deep_view() == seq![
                        alert_view(placed_message(card_type)),
                        state_sync_view(state_after_draft(s, card_type, cell_index)),
                    ]
                } else {
                    final(state)@ == s && updates.deep_view() == seq![
                        alert_view(missing_card_message()),
                        state_sync_view(s),
                    ]
                },
            }
        }),
{
    let mut updates: Vec<ServerUpdate> = Vec::new();
    let ghost empty = updates.deep_view();
    assert(empty =~= Seq::<ServerUpdateView>::empty());

    if let Some(r) = check_draft_rules(&state.placed_wagers, card_type, cell_index, course) {
        updates.push(alert(rejection_text(r)));
        let sent = send_state_sync(state, updates);
        assert(sent.deep_view() =~= seq![alert_view(rejection_message(r)), state_sync_view(state@)]);
        return sent;
    }
    match position_of_card(&state.inventory, card_code(card_type)) {
        Some(pos) => {
            place_wager(state, card_type, cell_index, pos);
            let message = match card_type {
                CardType::Shield => "Placed Guardian Shield wager!",
                CardType::Banana => "Placed Trickster Banana wager!",
                CardType::GoldenDie => "Placed Golden Die wager!",
            };
            updates.push(alert(message));
            let sent = send_state_sync(state, updates);
            assert(sent.deep_view() =~= seq![
                alert_view(placed_message(card_type)),
                state_sync_view(state@),
            ]);
            sent
        },
        None => {
            updates.push(alert("No card of that type in hand!"));
            let sent = send_state_sync(state, updates);
            assert(sent.deep_view() =~= seq![alert_view(missing_card_message()), state_sync_view(state@)]);
            sent
        },
    }
}

/// Moves the card at `pos` of the hand onto tile `cell_index` of the board.
fn place_wager(state: &mut OfflineServerState, card_type: CardType, cell_index: u32, pos: usize)
    requires
        pos == first_position(old(state)@.inventory, card_code(card_type)),
        pos < old(state)@.inventory.len(),
        old(state).sequence < u64::MAX,
    ensures
        final(state)@ == state_after_draft(old(state)@, card_type, cell_index),
{
    let ghost s = state@;
    state.inventory.remove(pos);
    state.placed_wagers.push(WagerToken { card_type, owner_id: state.active_player_id, cell_index });
    state.sequence = state.sequence + 1;
    if state.inventory.len() == 0 {
        state.game_state = GameStateEnum::AwaitingTurn;
    }
    assert(state@ == state_after_draft(s, card_type, cell_index));
}

/// Ends the placement phase: the game awaits the turn, the sequence number
/// goes up by one, and the update that reports the state is sent.
pub fn handle_skip_placement(state: &mut OfflineServerState) -> (updates: Vec<ServerUpdate>)
    requires
        old(state).sequence < u64::MAX,
    ensures
        final(state)@ == (OfflineStateView {
            game_state: GameStateEnum::AwaitingTurn,
            sequence: (old(state).sequence + 1) as u64,
            ..old(state)@
        }),
        updates.deep_view() == seq![state_sync_view(final(state)@)],
{
    let updates: Vec<ServerUpdate> = Vec::new();
    state.game_state = GameStateEnum::AwaitingTurn;
    state.sequence = state.sequence + 1;
    let ghost empty = updates.deep_view();
    assert(empty =~= Seq::<ServerUpdateView>::empty());
    let sent = send_state_sync(state, updates);
    assert(sent.deep_view() =~= seq![state_sync_view(state@)]);
    sent
}

} // verus!
