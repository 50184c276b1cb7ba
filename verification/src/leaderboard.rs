//! The leaderboard ticker: scores relative to par, kept per player over the
//! completed holes, and the ranking shown (lowest score first).
use vstd::prelude::*;
use crate::messages::GameStateEnum;
use crate::replication::player_id_at;
use crate::text::{append_decimal, decimal, signed_decimal, signed_decimal_string};

verus! {

/// The par assumed for a hole whose course preset is unknown.
pub const FALLBACK_PAR: u8 = 4;

/// Each player's score relative to par over the completed holes, and the
/// last hole counted.
#[derive(Debug, Clone)]
pub struct LeaderboardCompletedHolesScore {
    pub player_par_scores: Vec<i32>,
    pub last_completed_hole: u8,
}

impl Default for LeaderboardCompletedHolesScore {
    fn default() -> (scores: Self)
        ensures
            scores.player_par_scores@.len() == 0,
            scores.last_completed_hole == 0,
    {
        LeaderboardCompletedHolesScore { player_par_scores: Vec::new(), last_completed_hole: 0 }
    }
}

/// The strokes of player `i` on the current hole, or 0 without a scorecard.
pub open spec fn strokes_at(running_strokes: Seq<u16>, i: int) -> int {
    if 0 <= i < running_strokes.len() {
        running_strokes[i] as int
    } else {
        0
    }
}

/// The scores padded with zeros up to `n` players.
pub open spec fn padded_scores(scores: Seq<i32>, n: nat) -> Seq<i32> {
    if scores.len() < n {
        scores + Seq::new((n - scores.len()) as nat, |k: int| 0i32)
    } else {
        scores
    }
}

/// The par of a hole: the preset's, or the fallback when it is unknown.
pub open spec fn par_or_fallback(hole_par: Option<u8>) -> int {
    match hole_par {
        Some(p) => p as int,
        None => FALLBACK_PAR as int,
    }
}

/// Whether a state update starts the count afresh: a hole up to 1 that is
/// not being completed.
pub open spec fn starts_afresh(current_hole: u8, game_state: GameStateEnum) -> bool {
    current_hole <= 1 && game_state != GameStateEnum::HoleCompleted
}

/// Whether a state update completes a hole not yet counted.
pub open spec fn counts_hole(last_completed_hole: u8, current_hole: u8, game_state: GameStateEnum) -> bool {
    game_state == GameStateEnum::HoleCompleted && current_hole > last_completed_hole
}

/// The scores after the hole is counted: each of the `n` players' strokes
/// minus the par is added to their score.
pub open spec fn scores_with_hole(
    scores: Seq<i32>,
    n: nat,
    running_strokes: Seq<u16>,
    hole_par: Option<u8>,
) -> Seq<i32> {
    let padded = padded_scores(scores, n);
    Seq::new(
        padded.len(),
        |i: int|
            if i < n {
                (padded[i] + strokes_at(running_strokes, i) - par_or_fallback(hole_par)) as i32
            } else {
                padded[i]
            },
    )
}

/// Whether counting the hole keeps every score within `i32`.
pub open spec fn hole_count_in_range(
    scores: Seq<i32>,
    n: nat,
    running_strokes: Seq<u16>,
    hole_par: Option<u8>,
) -> bool {
    let padded = padded_scores(scores, n);
    forall|i: int|
        0 <= i < n ==> i32::MIN <= #[trigger] padded[i] + strokes_at(running_strokes, i)
            - par_or_fallback(hole_par) <= i32::MAX
}

fn pad_scores(scores: &mut Vec<i32>, n: usize)
    ensures
        final(scores)@ == padded_scores(old(scores)@, n as nat),
{
    let ghost before = scores@;
    if scores.len() < n {
        while scores.len() < n
            invariant
                before.len() <= scores@.len() <= n,
                scores@ == before + Seq::new((scores@.len() - before.len()) as nat, |k: int| 0i32),
            decreases n - scores@.len(),
        {
            let ghost prev = scores@;
            scores.push(0);
            assert(scores@ =~= before + Seq::new((scores@.len() - before.len()) as nat, |k: int| 0i32));
        }
    }
}

/// Brings the per-player scores up to date with a state update of hole
/// `current_hole` in phase `game_state`, for `num_players` players whose
/// current-hole strokes are `running_strokes`, on a hole of par `hole_par`.
/// Early in a match the scores start afresh at 0 for every player; a newly
/// completed hole adds each player's strokes relative to par.
pub fn record_completed_hole(
    scores: &mut LeaderboardCompletedHolesScore,
    current_hole: u8,
    game_state: GameStateEnum,
    running_strokes: &Vec<u16>,
    num_players: usize,
    hole_par: Option<u8>,
)
    requires
        counts_hole(old(scores).last_completed_hole, current_hole, game_state) ==> hole_count_in_range(
            old(scores).player_par_scores@,
            num_players as nat,
            running_strokes@,
            hole_par,
        ),
    ensures
        starts_afresh(current_hole, game_state) ==> final(scores).player_par_scores@ == Seq::new(
            num_players as nat,
            |i: int| 0i32,
        ) && final(scores).last_completed_hole == 0,
        counts_hole(old(scores).last_completed_hole, current_hole, game_state)
            ==> final(scores).player_par_scores@ == scores_with_hole(
            old(scores).player_par_scores@,
            num_players as nat,
            running_strokes@,
            hole_par,
        ) && final(scores).last_completed_hole == current_hole,
        !starts_afresh(current_hole, game_state) && !counts_hole(
            old(scores).last_completed_hole,
            current_hole,
            game_state,
        ) ==> *final(scores) == *old(scores),
{
    if current_hole <= 1 && game_state != GameStateEnum::HoleCompleted {
        let mut fresh: Vec<i32> = Vec::new();
        while fresh.len() < num_players
            invariant
                fresh@.len() <= num_players,
                forall|k: int| 0 <= k < fresh@.len() ==> fresh@[k] == 0i32,
            decreases num_players - fresh@.len(),
        {
            fresh.push(0);
        }
        assert(fresh@ =~= Seq::new(num_players as nat, |i: int| 0i32));
        scores.player_par_scores = fresh;
        scores.last_completed_hole = 0;
        return;
    }
    if game_state == GameStateEnum::HoleCompleted && current_hole > scores.last_completed_hole {
        pad_scores(&mut scores.player_par_scores, num_players);
        let ghost padded = scores.player_par_scores@;
        let par: i32 = match hole_par {
            Some(p) => p as i32,
            None => FALLBACK_PAR as i32,
        };
        let mut i: usize = 0;
        while i < num_players
            invariant
                i <= num_players,
                padded.len() >= num_players,
                padded == padded_scores(old(scores).player_par_scores@, num_players as nat),
                hole_count_in_range(old(scores).player_par_scores@, num_players as nat, running_strokes@, hole_par),
                par == par_or_fallback(hole_par),
                scores.player_par_scores@.len() == padded.len(),
                forall|k: int|
                    0 <= k < padded.len() ==> #[trigger] scores.player_par_scores@[k] == if k < i {
                        (padded[k] + strokes_at(running_strokes@, k) - par_or_fallback(hole_par)) as i32
                    } else {
                        padded[k]
                    },
            decreases num_players - i,
        {
            let strokes: i32 = if i < running_strokes.len() { running_strokes[i] as i32 } else { 0 };
            assert(i32::MIN <= padded[i as int] + strokes_at(running_strokes@, i as int) - par_or_fallback(hole_par) <= i32::MAX);
            let relative = strokes - par;
            let updated = scores.player_par_scores[i] + relative;
            scores.player_par_scores.set(i, updated);
            i = i + 1;
        }
        assert(scores.player_par_scores@ =~= scores_with_hole(
            old(scores).player_par_scores@,
            num_players as nat,
            running_strokes@,
            hole_par,
        ));
        scores.last_completed_hole = current_hole;
    }
}

/// Pads the per-player scores with zeros up to `num_players` players.
pub fn ensure_player_slots(scores: &mut LeaderboardCompletedHolesScore, num_players: usize)
    ensures
        final(scores).player_par_scores@ == padded_scores(old(scores).player_par_scores@, num_players as nat),
        final(scores).last_completed_hole == old(scores).last_completed_hole,
{
    pad_scores(&mut scores.player_par_scores, num_players);
}

/// The badge of a rank: gold for the leader, silver for second, dark below.
#[derive(Debug, Clone, Copy, PartialEq, Eq, Structural)]
pub enum RankBadge {
    Gold,
    Silver,
    Dark,
}

/// The badge shown for a 1-based rank.
pub open spec fn badge_for(rank: int) -> RankBadge {
    if rank == 1 {
        RankBadge::Gold
    } else if rank == 2 {
        RankBadge::Silver
    } else {
        RankBadge::Dark
    }
}

/// A score relative to par as shown: "E" for even, a plus sign over par, a
/// minus sign under par.
pub open spec fn par_score_text(score: i32) -> Seq<char> {
    if score == 0 {
        "E"@
    } else if score > 0 {
        seq!['+'] + decimal(score as nat)
    } else {
        signed_decimal(score as int)
    }
}

/// The name shown for player `i`: the player's own nickname first, then the
/// bots by number.
pub open spec fn player_name_at(i: int, nickname: Seq<char>) -> Seq<char> {
    if i == 0 {
        nickname
    } else {
        "Bot "@ + decimal(i as nat)
    }
}

/// One line of the leaderboard.
#[derive(Debug, Clone)]
pub struct LeaderboardEntry {
    pub rank: u32,
    pub player_index: usize,
    pub player_id: u64,
    pub name: String,
    pub score_text: String,
    pub is_active: bool,
    pub badge: RankBadge,
}

/// Whether player `a` comes before player `b`: a lower score, or the same
/// score and an earlier place in the update.
pub open spec fn ranks_before(scores: Seq<i32>, a: int, b: int) -> bool {
    scores[a] < scores[b] || (scores[a] == scores[b] && a < b)
}

/// Shows a score relative to par.
pub fn par_score_string(score: i32) -> (text: String)
    ensures
        text@ == par_score_text(score),
{
    if score == 0 {
        proof {
            reveal_strlit("E");
        }
        String::from_str("E")
    } else if score > 0 {
        let mut text = String::from_str("+");
        proof {
            reveal_strlit("+");
        }
        append_decimal(&mut text, score as u64);
        text
    } else {
        signed_decimal_string(score as i64)
    }
}

fn player_name(i: usize, nickname: &str) -> (name: String)
    ensures
        name@ == player_name_at(i as int, nickname@),
{
    if i == 0 {
        String::from_str(nickname)
    } else {
        let mut name = String::from_str("Bot ");
        append_decimal(&mut name, i as u64);
        name
    }
}

/// The players in ranking order: lowest score first, ties in the order of
/// the update.
fn ranking_order(scores: &Vec<i32>, num_players: usize) -> (order: Vec<usize>)
    requires
        num_players <= scores@.len(),
    ensures
        order@.len() == num_players,
        forall|k: int| 0 <= k < order@.len() ==> #[trigger] order@[k] < num_players,
        forall|a: int, b: int|
            0 <= a < b < order@.len() ==> ranks_before(scores@, #[trigger] order@[a] as int, #[trigger] order@[b] as int),
{
    let mut order: Vec<usize> = Vec::new();
    let mut i: usize = 0;
    while i < num_players
        invariant
            i <= num_players <= scores@.len(),
            order@.len() == i,
            forall|k: int| 0 <= k < order@.len() ==> #[trigger] order@[k] < i,
            forall|a: int, b: int|
                0 <= a < b < order@.len() ==> ranks_before(scores@, #[trigger] order@[a] as int, #[trigger] order@[b] as int),
        decreases num_players - i,
    {
        let score = scores[i];
        let mut pos: usize = 0;
        while pos < order.len() && scores[order[pos]] <= score
            invariant
                pos <= order@.len(),
                order@.len() == i,
                i < num_players <= scores@.len(),
                score == scores@[i as int],
                forall|k: int| 0 <= k < order@.len() ==> #[trigger] order@[k] < i,
                forall|k: int| 0 <= k < pos ==> scores@[#[trigger] order@[k] as int] <= score,
            decreases order@.len() - pos,
        {
            pos = pos + 1;
        }
        let ghost before = order@;
        proof {
            if pos < before.len() {
                assert(scores@[before[pos as int] as int] > score);
                assert forall|k: int| pos <= k < before.len() implies scores@[#[trigger] before[k] as int] > score by {
                    if k > pos {
                        assert(ranks_before(scores@, before[pos as int] as int, before[k] as int));
                    }
                }
            }
        }
        order.insert(pos, i);
        assert forall|a: int, b: int|
            0 <= a < b < order@.len() implies ranks_before(scores@, #[trigger] order@[a] as int, #[trigger] order@[b] as int) by {
            if b < pos {
                assert(order@[a] == before[a] && order@[b] == before[b]);
            } else if b == pos {
                assert(order@[a] == before[a]);
                assert(before[a] < i);
            } else if a < pos {
                assert(order@[a] == before[a] && order@[b] == before[b - 1]);
            } else if a == pos {
                assert(order@[b] == before[b - 1]);
                assert(scores@[before[b - 1] as int] > score);
            } else {
                assert(order@[a] == before[a - 1] && order@[b] == before[b - 1]);
            }
        }
        i = i + 1;
    }
    order
}

/// The leaderboard of `num_players` players with the given scores: ranked
/// lowest score first (ties in the order of the update), each with its
/// 1-based rank, id, name, score text, badge, and whether it is the active
/// player.
pub fn leaderboard_entries(
    scores: &Vec<i32>,
    num_players: usize,
    active_player_id: u64,
    nickname: &str,
) -> (entries: Vec<LeaderboardEntry>)
    requires
        num_players <= scores@.len(),
        num_players <= u32::MAX,
    ensures
        entries@.len() == num_players,
        forall|k: int|
            0 <= k < entries@.len() ==> {
                let e = #[trigger] entries@[k];
                let p = e.player_index as int;
                &&& p < num_players
                &&& e.rank == k + 1
                &&& e.player_id == player_id_at(p, active_player_id)
                &&& e.name@ == player_name_at(p, nickname@)
                &&& e.score_text@ == par_score_text(scores@[p])
                &&& e.is_active == (e.player_id == active_player_id)
                &&& e.badge == badge_for(k + 1)
            },
        forall|a: int, b: int|
            0 <= a < b < entries@.len() ==> ranks_before(
                scores@,
                (#[trigger] entries@[a]).player_index as int,
                (#[trigger] entries@[b]).player_index as int,
            ),
{
    let order = ranking_order(scores, num_players);
    let mut entries: Vec<LeaderboardEntry> = Vec::new();
    let mut k: usize = 0;
    while k < num_players
        invariant
            k <= num_players <= scores@.len(),
            num_players <= u32::MAX,
            order@.len() == num_players,
            forall|j: int| 0 <= j < order@.len() ==> #[trigger] order@[j] < num_players,
            entries@.len() == k,
            forall|j: int| 0 <= j < k ==> (#[trigger] entries@[j]).player_index == order@[j],
            forall|j: int|
                0 <= j < k ==> {
                    let e = #[trigger] entries@[j];
                    let p = e.player_index as int;
                    &&& p < num_players
                    &&& e.rank == j + 1
                    &&& e.player_id == player_id_at(p, active_player_id)
                    &&& e.name@ == player_name_at(p, nickname@)
                    &&& e.score_text@ == par_score_text(scores@[p])
                    &&& e.is_active == (e.player_id == active_player_id)
                    &&& e.badge == badge_for(j + 1)
                },
        decreases num_players - k,
    {
        let p = order[k];
        let player_id: u64 = if p == 0 { active_player_id } else { p as u64 };
        let rank: u32 = (k + 1) as u32;
        let badge = if rank == 1 {
            RankBadge::Gold
        } else if rank == 2 {
            RankBadge::Silver
        } else {
            RankBadge::Dark
        };
        entries.push(
            LeaderboardEntry {
                rank,
                player_index: p,
                player_id,
                name: player_name(p, nickname),
                score_text: par_score_string(scores[p]),
                is_active: player_id == active_player_id,
                badge,
            },
        );
        k = k + 1;
    }
    entries
}

/// A running stroke count as shown against the hole's par: "E" before any
/// stroke or at par, otherwise the difference with its sign.
pub open spec fn stroke_score_text(strokes: i32, par: i32) -> Seq<char> {
    if strokes == 0 || strokes - par == 0 {
        "E"@
    } else if strokes - par > 0 {
        seq!['+'] + decimal((strokes - par) as nat)
    } else {
        signed_decimal(strokes - par)
    }
}

/// Shows a running stroke count against the hole's par.
pub fn stroke_score_string(strokes: i32, par: i32) -> (text: String)
    requires
        i32::MIN <= strokes - par <= i32::MAX,
    ensures
        text@ == stroke_score_text(strokes, par),
{
    if strokes == 0 {
        proof {
            reveal_strlit("E");
        }
        return String::from_str("E");
    }
    let diff = strokes - par;
    par_score_string(diff)
}

} // verus!
