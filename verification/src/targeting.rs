//! The aimbot's rules for which players may be targeted and when the
//! current target is kept. Angles and distances are measured by the caller.

use vstd::prelude::*;

verus! {

/// A player may be targeted: in free-for-all, when friendlies are
/// targeted too, or when the player is on another team.
pub open spec fn spec_is_candidate(ffa: bool, target_friendlies: bool, local_team: u8, team: u8) -> bool {
    ffa || target_friendlies || team != local_team
}

/// Whether a player of team `team` may be targeted by the local player of
/// team `local_team` (see `spec_is_candidate`).
pub fn is_candidate(ffa: bool, target_friendlies: bool, local_team: u8, team: u8) -> (b: bool)
    ensures
        b == spec_is_candidate(ffa, target_friendlies, local_team, team),
        team != local_team ==> b,
        ffa ==> b,
        target_friendlies ==> b,
        !ffa && !target_friendlies && team == local_team ==> !b,
{
    ffa || target_friendlies || team != local_team
}

/// Whether the target of the last frame is kept instead of choosing anew:
/// it must still be valid and a candidate, and either still within the
/// field of view (`within_fov`) or the player in the middle of a spray
/// (more than one shot fired), so that recoil pulling the crosshair away
/// does not hand the lock to another player.
pub fn keeps_target(valid: bool, candidate: bool, within_fov: bool, shots_fired: i32) -> (b: bool)
    ensures
        b == (valid && candidate && (within_fov || shots_fired > 1)),
{
    valid && candidate && (within_fov || shots_fired > 1)
}

/// Players of the other team are always candidates; free-for-all and
/// targeting friendlies only add the local player's own team, so turning
/// either on never removes a candidate.
pub proof fn lemma_candidates_widen(ffa: bool, target_friendlies: bool, local_team: u8, team: u8)
    ensures
        team != local_team ==> spec_is_candidate(ffa, target_friendlies, local_team, team),
        spec_is_candidate(ffa, target_friendlies, local_team, team) ==> spec_is_candidate(
            true,
            target_friendlies,
            local_team,
            team,
        ),
        spec_is_candidate(ffa, target_friendlies, local_team, team) ==> spec_is_candidate(
            ffa,
            true,
            local_team,
            team,
        ),
        !ffa && !target_friendlies ==> (spec_is_candidate(ffa, target_friendlies, local_team, team)
            <==> team != local_team),
{
}

} // verus!
