//! What holds of the score sheet and of the end of a match over many calls.

use crate::bout::MatchView;
use crate::score::{lowered, raised, CompetitorNumber, MatchScore, Points, WinMethod};
use vstd::prelude::*;

verus! {

/// The amount that `entry` brings to the counter of `kind` on the side of
/// `competitor`: its own amount where it goes there, nothing otherwise.
pub open spec fn share(
    entry: (Points, CompetitorNumber),
    kind: Points,
    competitor: CompetitorNumber,
) -> nat {
    if entry.0.same_counter(kind) && entry.1 == competitor {
        entry.0.amount()
    } else {
        0
    }
}

/// The sum of the amounts among `entries` that go to the counter of `kind` on
/// the side of `competitor`.
pub open spec fn summed(
    entries: Seq<(Points, CompetitorNumber)>,
    kind: Points,
    competitor: CompetitorNumber,
) -> nat
    decreases entries.len(),
{
    if entries.len() == 0 {
        0
    } else {
        summed(entries.drop_last(), kind, competitor) + share(entries.last(), kind, competitor)
    }
}

/// The sheet after every one of `entries` was added, in order.
pub open spec fn after_adds(sheet: MatchScore, entries: Seq<(Points, CompetitorNumber)>)
    -> MatchScore
    decreases entries.len(),
{
    if entries.len() == 0 {
        sheet
    } else {
        after_adds(sheet, entries.drop_last()).plus(entries.last().0, entries.last().1)
    }
}

/// After any number of additions, each counter stands at what it was plus the
/// sum of the amounts that went to it, or at the largest number it can hold
/// where that is less. A counter that nothing went to is as it was, and so is
/// the winner.
pub proof fn adds_sum_up(
    sheet: MatchScore,
    entries: Seq<(Points, CompetitorNumber)>,
    kind: Points,
    competitor: CompetitorNumber,
)
    ensures
        after_adds(sheet, entries).side(competitor).counter(kind) == raised(
            sheet.side(competitor).counter(kind),
            summed(entries, kind, competitor),
        ),
        summed(entries, kind, competitor) == 0 ==> after_adds(sheet, entries).side(
            competitor,
        ).counter(kind) == sheet.side(competitor).counter(kind),
        after_adds(sheet, entries).winner == sheet.winner,
    decreases entries.len(),
{
    if entries.len() > 0 {
        adds_sum_up(sheet, entries.drop_last(), kind, competitor);
    }
}

/// Taking points away after adding some to the same counter leaves it at
/// what the addition gave less the amount taken, or at zero where that would
/// be below zero. Nothing else on the sheet changes.
pub proof fn subtract_after_add(
    sheet: MatchScore,
    added: Points,
    removed: Points,
    competitor: CompetitorNumber,
)
    requires
        added.same_counter(removed),
    ensures
        sheet.plus(added, competitor).minus(removed, competitor).side(competitor).counter(added)
            == lowered(
            raised(sheet.side(competitor).counter(added), added.amount()),
            removed.amount(),
        ),
        sheet.plus(added, competitor).minus(removed, competitor) == sheet.with_side(
            competitor,
            sheet.side(competitor).with_counter(
                added,
                lowered(
                    raised(sheet.side(competitor).counter(added), added.amount()),
                    removed.amount(),
                ) as u8,
            ),
        ),
{
}

/// An addition or a subtraction touches one counter of one side: every other
/// counter, the other side and the winner are as they were.
pub proof fn scoring_touches_one_counter(
    sheet: MatchScore,
    points: Points,
    competitor: CompetitorNumber,
    kind: Points,
    side: CompetitorNumber,
)
    requires
        !(points.same_counter(kind) && competitor == side),
    ensures
        sheet.plus(points, competitor).side(side).counter(kind) == sheet.side(side).counter(kind),
        sheet.minus(points, competitor).side(side).counter(kind) == sheet.side(side).counter(kind),
        sheet.plus(points, competitor).winner == sheet.winner,
        sheet.minus(points, competitor).winner == sheet.winner,
{
}

/// A match with a winner on the sheet is over, however much time is left.
pub proof fn winner_ends_the_match(
    bout: MatchView,
    competitor: CompetitorNumber,
    method: WinMethod,
    live_ms: nat,
)
    ensures
        (MatchScore { winner: Some((competitor, method)), ..bout.score }).decided(),
        (MatchView {
            score: MatchScore { winner: Some((competitor, method)), ..bout.score },
            ..bout
        }).complete_after(live_ms),
{
}

/// A match is over exactly when no time is left or a winner is on the sheet.
pub proof fn complete_means_out_of_time_or_won(bout: MatchView, live_ms: nat)
    ensures
        bout.complete_after(live_ms) <==> (bout.timer.remaining_after(live_ms) == 0
            || bout.score.winner.is_some()),
{
}

} // verus!
