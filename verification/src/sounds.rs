//! Which players are shown with a sound indicator: the last sound heard from
//! each player and when it started.
//!
//! Times are nanoseconds on a monotonic clock read by the caller.

use std::collections::HashMap;

use vstd::prelude::*;

verus! {

/// The kind of sound a player makes.
#[derive(Clone, Copy, Debug, PartialEq, Eq, Structural)]
pub enum SoundType {
    Footstep,
    Gunshot,
    Weapon,
}

/// What the game reports of one player this frame.
#[derive(Clone, Copy, Debug, PartialEq, Eq, Structural)]
pub struct PlayerSound {
    pub steam_id: u64,
    pub sound: Option<SoundType>,
}

/// How long one ring animation runs before a continuing sound restarts it.
pub const RING_CYCLE_NANOS: u64 = 600_000_000;

/// Time passed from `t` to `now`, zero when `now` is earlier.
pub open spec fn elapsed(t: u64, now: u64) -> int {
    if now >= t {
        now - t
    } else {
        0
    }
}

/// A sound of that kind from that player starts a new event at `now`: the
/// player had none, made another kind of sound, or the last event's ring has
/// run its cycle.
pub open spec fn starts_event(m: Map<u64, (u64, SoundType)>, id: u64, sound: SoundType, now: u64) -> bool {
    !m.contains_key(id) || m[id].1 != sound || elapsed(m[id].0, now) >= RING_CYCLE_NANOS
}

/// The sound events after recording the reports `players`, in order.
pub open spec fn record_sounds(m: Map<u64, (u64, SoundType)>, players: Seq<PlayerSound>, now: u64) -> Map<
    u64,
    (u64, SoundType),
>
    decreases players.len(),
{
    if players.len() == 0 {
        m
    } else {
        let before = record_sounds(m, players.drop_last(), now);
        let p = players.last();
        match p.sound {
            Some(s) => if starts_event(before, p.steam_id, s, now) {
                before.insert(p.steam_id, (now, s))
            } else {
                before
            },
            None => before,
        }
    }
}

/// The events that are younger than `total` at `now`.
pub open spec fn keep_recent(m: Map<u64, (u64, SoundType)>, now: u64, total: u64) -> Map<
    u64,
    (u64, SoundType),
> {
    Map::new(|k: u64| m.contains_key(k) && elapsed(m[k].0, now) < total, |k: u64| m[k])
}

/// The overlay's state that lasts from frame to frame: the sound event of
/// each player (by Steam id), when it started and what it was.
pub struct App {
    pub player_sounds: HashMap<u64, (u64, SoundType)>,
}

impl App {
    /// No sound events.
    pub fn new() -> (a: App)
        ensures
            a.player_sounds@ == Map::<u64, (u64, SoundType)>::empty(),
    {
        App { player_sounds: HashMap::new() }
    }

    /// Records this frame's reports at time `now` (see `starts_event`) and
    /// then forgets the events older than `total_duration`, the time a sound
    /// stays on screen.
    pub fn update_player_sounds(&mut self, players: &Vec<PlayerSound>, now: u64, total_duration: u64)
        ensures
            final(self).player_sounds@ == keep_recent(
                record_sounds(old(self).player_sounds@, players@, now),
                now,
                total_duration,
            ),
    {
        let mut i: usize = 0;
        while i < players.len()
            invariant
                i <= players@.len(),
                self.player_sounds@ == record_sounds(old(self).player_sounds@, players@.take(i as int), now),
            decreases players@.len() - i,
        {
            let p = players[i];
            assert(players@.take(i + 1).drop_last() =~= players@.take(i as int));
            assert(players@.take(i + 1).last() == p);
            if let Some(sound) = p.sound {
                let start = match self.player_sounds.get(&p.steam_id) {
                    None => true,
                    Some(prev) => prev.1 != sound || now.saturating_sub(prev.0) >= RING_CYCLE_NANOS,
                };
                if start {
                    self.player_sounds.insert(p.steam_id, (now, sound));
                }
            }
            i = i + 1;
        }
        assert(players@.take(players@.len() as int) =~= players@);
        let ghost m = self.player_sounds@;
        let mut kept: HashMap<u64, (u64, SoundType)> = HashMap::new();
        for entry in it: self.player_sounds.iter()
            invariant
                m == self.player_sounds@,
                forall|k: u64| #[trigger]
                    kept@.contains_key(k) ==> m.contains_key(k) && kept@[k] == m[k] && elapsed(
                        m[k].0,
                        now,
                    ) < total_duration,
                forall|j: int|
                    0 <= j < it.index() ==> {
                        let (k, v) = #[trigger] it.seq()[j];
                        elapsed(v.0, now) < total_duration ==> kept@.contains_key(*k)
                    },
        {
            let (k, v) = entry;
            if now.saturating_sub(v.0) < total_duration {
                kept.insert(*k, *v);
            }
        }
        proof {
            assert(kept@ =~= keep_recent(m, now, total_duration));
        }
        self.player_sounds = kept;
    }
}

/// The report at position `j` is the last one of its player that carries a
/// sound.
pub open spec fn last_sound_of_player(players: Seq<PlayerSound>, j: int) -> bool {
    &&& 0 <= j < players.len()
    &&& players[j].sound is Some
    &&& forall|k: int|
        j < k < players.len() ==> #[trigger] players[k].steam_id != players[j].steam_id
            || players[k].sound is None
}

/// After recording, a player whose last sounding report is at `j` has an
/// event of that kind that started less than a ring cycle ago.
proof fn lemma_record_keeps_last_sound(m: Map<u64, (u64, SoundType)>, players: Seq<PlayerSound>, now: u64, j: int)
    requires
        last_sound_of_player(players, j),
    ensures
        ({
            let r = record_sounds(m, players, now);
            let id = players[j].steam_id;
            &&& r.contains_key(id)
            &&& Some(r[id].1) == players[j].sound
            &&& elapsed(r[id].0, now) < RING_CYCLE_NANOS
        }),
    decreases players.len(),
{
    let n = players.len();
    let init = players.drop_last();
    let before = record_sounds(m, init, now);
    let id = players[j].steam_id;
    if j == n - 1 {
        let s = players[j].sound.unwrap();
        if starts_event(before, id, s, now) {
            assert(record_sounds(m, players, now) == before.insert(id, (now, s)));
        } else {
            assert(record_sounds(m, players, now) == before);
        }
    } else {
        assert(init[j] == players[j]);
        assert forall|k: int| j < k < init.len() implies #[trigger] init[k].steam_id != init[j].steam_id
            || init[k].sound is None by {
            assert(init[k] == players[k]);
        }
        lemma_record_keeps_last_sound(m, init, now, j);
        let p = players[n - 1];
        assert(p.steam_id != id || p.sound is None);
    }
}

/// After an update, every sound event on record started less than
/// `total_duration` ago.
pub proof fn lemma_updated_events_are_recent(
    m: Map<u64, (u64, SoundType)>,
    players: Seq<PlayerSound>,
    now: u64,
    total_duration: u64,
)
    ensures
        forall|id: u64| #[trigger]
            keep_recent(record_sounds(m, players, now), now, total_duration).contains_key(id)
                ==> elapsed(
                keep_recent(record_sounds(m, players, now), now, total_duration)[id].0,
                now,
            ) < total_duration,
{
}

/// When a sound stays on screen at least one ring cycle, every player
/// making a sound this frame is on record after the update, with the kind
/// of the last sound reported for it.
pub proof fn lemma_sounding_players_shown(
    m: Map<u64, (u64, SoundType)>,
    players: Seq<PlayerSound>,
    now: u64,
    total_duration: u64,
    j: int,
)
    requires
        total_duration >= RING_CYCLE_NANOS,
        last_sound_of_player(players, j),
    ensures
        ({
            let r = keep_recent(record_sounds(m, players, now), now, total_duration);
            let id = players[j].steam_id;
            &&& r.contains_key(id)
            &&& Some(r[id].1) == players[j].sound
        }),
{
    lemma_record_keeps_last_sound(m, players, now, j);
}

} // verus!
