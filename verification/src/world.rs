//! The world actor's state: the registry of connected sessions and the
//! day/night clock.
//!
//! The registry maps each player id to the handle of that session's
//! event channel; at most one entry per player id, last write wins.  The
//! clock advances an hour-of-day counter and computes the ambient light
//! level broadcast to every registered session.

use vstd::prelude::*;

verus! {

#[derive(Debug, Copy, Clone, Eq, PartialEq, Structural, Default)]
pub struct WorldOptions {
    pub day_night_cycle_enabled: bool,
}

/// A control event from a session to the world.  The channel a loaded
/// player receives broadcasts on is named by an opaque handle chosen by
/// the caller.
#[derive(Debug, Copy, Clone, Eq, PartialEq, Structural)]
pub enum PlayerToWorldMessage {
    LoadPlayer(u32, u64),
    UnloadPlayer(u32),
    Walk(u32),
}

/// An asynchronous event from the world to one session.
#[derive(Debug, Copy, Clone, Eq, PartialEq, Structural)]
pub enum WorldToPlayerMessage {
    WorldLight(u8),
}

#[derive(Debug, Copy, Clone, Eq, PartialEq, Structural)]
pub struct RegistryEntry {
    pub player_id: u32,
    pub channel: u64,
}

/// The mapping a sequence of entries denotes: later entries overwrite
/// earlier ones.
pub open spec fn entries_map(s: Seq<RegistryEntry>) -> Map<u32, u64>
    decreases s.len(),
{
    if s.len() == 0 {
        Map::empty()
    } else {
        entries_map(s.drop_last()).insert(s.last().player_id, s.last().channel)
    }
}

/// The registry of connected sessions: player id to channel handle.
pub struct SessionRegistry {
    entries: Vec<RegistryEntry>,
}

impl SessionRegistry {
    /// The mapping this registry holds.
    pub closed spec fn as_map(self) -> Map<u32, u64> {
        entries_map(self.entries@)
    }

    /// At most one entry per player id.
    pub closed spec fn wf(self) -> bool {
        forall|i: int, j: int|
            0 <= i < j < self.entries@.len() ==> self.entries@[i].player_id
                != self.entries@[j].player_id
    }

    pub closed spec fn contains_id(self, player_id: u32) -> bool {
        exists|i: int| 0 <= i < self.entries@.len() && self.entries@[i].player_id == player_id
    }

    pub fn new() -> (r: SessionRegistry)
        ensures
            r.wf(),
            r.as_map() == Map::<u32, u64>::empty(),
    {
        SessionRegistry { entries: Vec::new() }
    }

    /// Inserts the player's channel, replacing any channel a previous
    /// session of the same player registered: last write wins.
    pub fn load_player(&mut self, player_id: u32, channel: u64)
        requires
            old(self).wf(),
        ensures
            final(self).wf(),
            final(self).as_map() == old(self).as_map().insert(player_id, channel),
    {
        self.unload_player(player_id);
        let ghost s = self.entries@;
        self.entries.push(RegistryEntry { player_id, channel });
        proof {
            assert(self.entries@.drop_last() =~= s);
            assert forall|i: int, j: int|
                0 <= i < j < self.entries@.len() implies self.entries@[i].player_id
                != self.entries@[j].player_id by {
                if j == self.entries@.len() - 1 {
                    assert(s[i].player_id != player_id);
                }
            }
            assert(entries_map(s).insert(player_id, channel) =~= old(self).as_map().insert(
                player_id,
                channel,
            ));
        }
    }

    /// Removes the player's entry, if any.
    pub fn unload_player(&mut self, player_id: u32)
        requires
            old(self).wf(),
        ensures
            final(self).wf(),
            final(self).as_map() == old(self).as_map().remove(player_id),
            !final(self).contains_id(player_id),
    {
        let ghost s0 = self.entries@;
        let mut i: usize = 0;
        while i < self.entries.len()
            invariant
                old(self).wf(),
                self.entries@ == s0,
                s0 == old(self).entries@,
                i <= s0.len(),
                forall|j: int| 0 <= j < i ==> s0[j].player_id != player_id,
            decreases s0.len() - i,
        {
            if self.entries[i].player_id == player_id {
                self.entries.remove(i);
                proof {
                    assert(self.entries@ =~= s0.remove(i as int));
                    lemma_entries_map_remove_at(s0, i as int);
                    assert forall|a: int, b: int|
                        0 <= a < b < self.entries@.len() implies self.entries@[a].player_id
                        != self.entries@[b].player_id by {
                        if b < i {
                        } else if a < i {
                            assert(self.entries@[b] == s0[b + 1]);
                        } else {
                            assert(self.entries@[a] == s0[a + 1]);
                            assert(self.entries@[b] == s0[b + 1]);
                        }
                    }
                    assert forall|k: int|
                        0 <= k < self.entries@.len() implies self.entries@[k].player_id
                        != player_id by {
                        if k < i {
                        } else {
                            assert(self.entries@[k] == s0[k + 1]);
                        }
                    }
                }
                return ;
            }
            i = i + 1;
        }
        proof {
            lemma_entries_map_absent(s0, player_id);
            assert(entries_map(s0).remove(player_id) =~= entries_map(s0));
        }
    }

    /// Observes a player's walk; the registry is unchanged (reserved
    /// extension point).
    pub fn walk(&mut self, player_id: u32)
        requires
            old(self).wf(),
        ensures
            final(self).wf(),
            final(self).as_map() == old(self).as_map(),
    {
    }

    /// The registration duty's handling of one control event.
    pub fn apply_message(&mut self, msg: PlayerToWorldMessage)
        requires
            old(self).wf(),
        ensures
            final(self).wf(),
            final(self).as_map() == match msg {
                PlayerToWorldMessage::LoadPlayer(id, ch) => old(self).as_map().insert(id, ch),
                PlayerToWorldMessage::UnloadPlayer(id) => old(self).as_map().remove(id),
                PlayerToWorldMessage::Walk(_) => old(self).as_map(),
            },
    {
        match msg {
            PlayerToWorldMessage::LoadPlayer(id, ch) => self.load_player(id, ch),
            PlayerToWorldMessage::UnloadPlayer(id) => self.unload_player(id),
            PlayerToWorldMessage::Walk(id) => self.walk(id),
        }
    }

    /// Every (player, channel) pair a broadcast delivers to.  Each pair
    /// is a current entry of the registry — a broadcast never attempts
    /// delivery to an unloaded player — and every registered player is
    /// delivered to.
    pub fn broadcast_targets(&self) -> (r: Vec<(u32, u64)>)
        requires
            self.wf(),
        ensures
            forall|i: int|
                0 <= i < r@.len() ==> self.as_map().contains_key(#[trigger] r@[i].0)
                    && self.as_map()[r@[i].0] == r@[i].1,
            forall|k: u32|
                self.as_map().contains_key(k) ==> exists|i: int|
                    0 <= i < r@.len() && #[trigger] r@[i].0 == k,
    {
        proof {
            lemma_entries_map_index(self.entries@);
            lemma_entries_map_dom(self.entries@);
        }
        let mut r: Vec<(u32, u64)> = Vec::new();
        let mut i: usize = 0;
        while i < self.entries.len()
            invariant
                self.wf(),
                i <= self.entries@.len(),
                r@.len() == i,
                forall|j: int|
                    0 <= j < i ==> r@[j] == (self.entries@[j].player_id, self.entries@[j].channel),
            decreases self.entries@.len() - i,
        {
            let e = self.entries[i];
            r.push((e.player_id, e.channel));
            i = i + 1;
        }
        proof {
            assert forall|k: u32| self.as_map().contains_key(k) implies exists|j: int|
                0 <= j < r@.len() && #[trigger] r@[j].0 == k by {
                assert(entries_map(self.entries@).contains_key(k));
                let w = choose|w: int|
                    0 <= w < self.entries@.len() && #[trigger] self.entries@[w].player_id == k;
                assert(r@[w].0 == k);
            }
        }
        r
    }
}

/// With unique ids, each entry is present in the denoted map.
proof fn lemma_entries_map_index(s: Seq<RegistryEntry>)
    requires
        forall|i: int, j: int| 0 <= i < j < s.len() ==> s[i].player_id != s[j].player_id,
    ensures
        forall|i: int|
            0 <= i < s.len() ==> entries_map(s).contains_key(#[trigger] s[i].player_id)
                && entries_map(s)[s[i].player_id] == s[i].channel,
    decreases s.len(),
{
    if s.len() > 0 {
        let t = s.drop_last();
        assert(forall|i: int, j: int|
            0 <= i < j < t.len() ==> t[i].player_id != t[j].player_id);
        lemma_entries_map_index(t);
        assert forall|i: int|
            0 <= i < s.len() implies entries_map(s).contains_key(#[trigger] s[i].player_id)
            && entries_map(s)[s[i].player_id] == s[i].channel by {
            if i < s.len() - 1 {
                assert(t[i] == s[i]);
                assert(s[i].player_id != s.last().player_id);
            }
        }
    }
}

/// The denoted map's keys are exactly the entry ids.
proof fn lemma_entries_map_dom(s: Seq<RegistryEntry>)
    ensures
        forall|k: u32|
            entries_map(s).contains_key(k) <==> exists|i: int|
                0 <= i < s.len() && #[trigger] s[i].player_id == k,
    decreases s.len(),
{
    if s.len() > 0 {
        let t = s.drop_last();
        lemma_entries_map_dom(t);
        assert forall|k: u32| entries_map(s).contains_key(k) implies exists|i: int|
            0 <= i < s.len() && #[trigger] s[i].player_id == k by {
            if k == s.last().player_id {
                assert(s[s.len() - 1].player_id == k);
            } else {
                assert(entries_map(t).contains_key(k));
                let w = choose|w: int| 0 <= w < t.len() && #[trigger] t[w].player_id == k;
                assert(s[w].player_id == k);
            }
        }
        assert forall|k: u32|
            (exists|i: int|
                0 <= i < s.len() && #[trigger] s[i].player_id == k) implies entries_map(
            s,
        ).contains_key(k) by {
            let w = choose|w: int| 0 <= w < s.len() && #[trigger] s[w].player_id == k;
            if w < s.len() - 1 {
                assert(t[w].player_id == k);
                assert(entries_map(t).contains_key(k));
            }
        }
    }
}

proof fn lemma_entries_map_absent(s: Seq<RegistryEntry>, player_id: u32)
    requires
        forall|j: int| 0 <= j < s.len() ==> s[j].player_id != player_id,
    ensures
        !entries_map(s).contains_key(player_id),
    decreases s.len(),
{
    if s.len() > 0 {
        assert(forall|j: int| 0 <= j < s.drop_last().len() ==> s.drop_last()[j].player_id
            != player_id);
        lemma_entries_map_absent(s.drop_last(), player_id);
    }
}

/// Removing the sole entry of a player removes exactly that key.
proof fn lemma_entries_map_remove_at(s: Seq<RegistryEntry>, i: int)
    requires
        0 <= i < s.len(),
        forall|a: int, b: int| 0 <= a < b < s.len() ==> s[a].player_id != s[b].player_id,
    ensures
        entries_map(s.remove(i)) == entries_map(s).remove(s[i].player_id),
    decreases s.len(),
{
    let id = s[i].player_id;
    if i == s.len() - 1 {
        assert(s.remove(i) =~= s.drop_last());
        assert(forall|j: int| 0 <= j < s.drop_last().len() ==> s.drop_last()[j].player_id != id);
        lemma_entries_map_absent(s.drop_last(), id);
        assert(entries_map(s.drop_last()) =~= entries_map(s.drop_last()).insert(
            id,
            s[i].channel,
        ).remove(id));
    } else {
        let t = s.drop_last();
        let e = s.last();
        assert(s.remove(i).drop_last() =~= t.remove(i));
        assert(s.remove(i).last() == e);
        assert(entries_map(s.remove(i)) == entries_map(t.remove(i)).insert(e.player_id, e.channel));
        lemma_entries_map_remove_at(t, i);
        assert(e.player_id != id);
        assert(entries_map(t).remove(id).insert(e.player_id, e.channel) =~= entries_map(t).insert(
            e.player_id,
            e.channel,
        ).remove(id));
    }
}

/// A registry's map holds one channel per player: a reconnect's load
/// overwrites the first session's channel, and after an unload the id is
/// absent.
pub proof fn lemma_registry_exclusivity(m: Map<u32, u64>, id: u32, ch1: u64, ch2: u64)
    ensures
        m.insert(id, ch1).insert(id, ch2).contains_key(id),
        m.insert(id, ch1).insert(id, ch2)[id] == ch2,
        m.insert(id, ch1).insert(id, ch2).dom() == m.dom().insert(id),
        !m.insert(id, ch1).insert(id, ch2).remove(id).contains_key(id),
{
    assert(m.insert(id, ch1).insert(id, ch2).dom() =~= m.dom().insert(id));
}

// ---------------------------------------------------------------------
// The world clock
// ---------------------------------------------------------------------

/// The ambient light level for an hour of day: night hours map to the
/// lowest level, the daylight plateau to the highest, dawn and dusk
/// interpolate monotonically.
pub open spec fn spec_light_level(hour: u8) -> u8 {
    if hour <= 4 || hour == 22 || hour == 23 {
        1
    } else if hour == 5 || hour == 21 {
        2
    } else if hour == 6 || hour == 20 {
        3
    } else if hour == 7 || hour == 19 {
        4
    } else if hour == 8 || hour == 18 {
        5
    } else {
        6
    }
}

pub fn hour_to_light_level(hour: u8) -> (r: u8)
    ensures
        r == spec_light_level(hour),
{
    if hour <= 4 || hour == 22 || hour == 23 {
        1
    } else if hour == 5 || hour == 21 {
        2
    } else if hour == 6 || hour == 20 {
        3
    } else if hour == 7 || hour == 19 {
        4
    } else if hour == 8 || hour == 18 {
        5
    } else {
        6
    }
}

/// The hour-of-day counter after one tick, wrapping 23 to 0.
pub open spec fn spec_advance_hour(hour: u8) -> u8 {
    if hour >= 23 {
        0
    } else {
        (hour + 1) as u8
    }
}

pub fn advance_hour(hour: u8) -> (r: u8)
    ensures
        r == spec_advance_hour(hour),
        r <= 23,
{
    if hour >= 23 {
        0
    } else {
        hour + 1
    }
}

/// One tick of the clock duty: the advanced hour, the light level it
/// implies, and the sessions to deliver the broadcast to — every
/// registered session if the day/night cycle is enabled, none otherwise.
pub fn clock_tick(hour: u8, options: WorldOptions, registry: &SessionRegistry) -> (r: (
    u8,
    u8,
    Vec<(u32, u64)>,
))
    requires
        registry.wf(),
    ensures
        r.0 == spec_advance_hour(hour),
        r.1 == spec_light_level(spec_advance_hour(hour)),
        options.day_night_cycle_enabled ==> forall|i: int|
            0 <= i < r.2@.len() ==> registry.as_map().contains_key(#[trigger] r.2@[i].0)
                && registry.as_map()[r.2@[i].0] == r.2@[i].1,
        options.day_night_cycle_enabled ==> forall|k: u32|
            registry.as_map().contains_key(k) ==> exists|i: int|
                0 <= i < r.2@.len() && #[trigger] r.2@[i].0 == k,
        !options.day_night_cycle_enabled ==> r.2@.len() == 0,
{
    let new_hour = advance_hour(hour);
    let light = hour_to_light_level(new_hour);
    let targets = if options.day_night_cycle_enabled {
        registry.broadcast_targets()
    } else {
        Vec::new()
    };
    let result = (new_hour, light, targets);
    proof {
        if options.day_night_cycle_enabled {
            assert forall|k: u32| registry.as_map().contains_key(k) implies exists|i: int|
                0 <= i < result.2@.len() && #[trigger] result.2@[i].0 == k by {
                let w = choose|w: int|
                    0 <= w < result.2@.len() && #[trigger] result.2@[w].0 == k;
                assert(result.2@[w].0 == k);
            }
        }
    }
    result
}

/// The light-level step function is total on hours 0 through 23 with
/// values in 1 through 6, non-decreasing from hour 0 up to the daylight
/// plateau, and non-increasing from the plateau to hour 23.
pub proof fn lemma_light_level_total_and_periodic()
    ensures
        forall|h: u8| h < 24 ==> 1 <= #[trigger] spec_light_level(h) <= 6,
        forall|h: u8| h < 9 ==> #[trigger] spec_light_level(h) <= spec_light_level((h + 1) as u8),
        forall|h: u8|
            9 <= h < 23 ==> #[trigger] spec_light_level(h) >= spec_light_level((h + 1) as u8),
{
}

} // verus!
