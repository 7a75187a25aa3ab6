//! A room of the world.  It counts the enemies it holds, and once as many
//! have been healed it is cleared: its doors open and the progress record
//! remembers it.
use vstd::prelude::*;
use crate::controller::{Controller, ControllerView, FOUNTAIN_COUNT, record_room_cleared};
use crate::naming::{CASTLE_FIRST_SCENE, OVERWORLD_MUSIC_SCENE, text_is};

verus! {

/// The room as a mathematical value.
pub struct RoomView {
    pub enemy_count: u8,
    pub enemies_healed: u8,
}

/// A room's own state.
pub struct Room {
    enemy_count: u8,
    enemies_healed: u8,
}

impl View for Room {
    type V = RoomView;

    closed spec fn view(&self) -> RoomView {
        RoomView { enemy_count: self.enemy_count, enemies_healed: self.enemies_healed }
    }
}

/// What the background music does when a room is entered.
#[derive(Clone, Copy, Debug, PartialEq, Eq, Structural)]
pub enum MusicCue {
    /// Nothing changes.
    Keep,
    /// The music stops.
    Stop,
    /// The music starts.
    Play,
}

/// What a room announces when it is entered.
#[derive(Clone, Copy, Debug, PartialEq, Eq, Structural)]
pub struct RoomStart {
    /// The room was cleared in an earlier visit: its doors open at once.
    pub already_cleared: bool,
    /// All fountains are purified: the fountain gates open.
    pub fountains_cleared: bool,
    /// What the background music does.
    pub music: MusicCue,
}

/// How many of the flags are set.
pub open spec fn count_true(flags: Seq<bool>) -> nat
    decreases flags.len(),
{
    if flags.len() == 0 {
        0
    } else {
        count_true(flags.drop_last()) + if flags.last() {
            1nat
        } else {
            0nat
        }
    }
}

/// The music cue of a room: the first castle room stops the music, and the
/// overworld room where it returns starts it unless it already plays.
pub open spec fn music_cue(room: Seq<char>, music_playing: bool) -> MusicCue {
    if room == CASTLE_FIRST_SCENE@ {
        MusicCue::Stop
    } else if room == OVERWORLD_MUSIC_SCENE@ && !music_playing {
        MusicCue::Play
    } else {
        MusicCue::Keep
    }
}

/// Whether healing one more enemy clears the room.
pub open spec fn clear_reports(v: RoomView) -> bool {
    v.enemies_healed + 1 >= v.enemy_count
}

/// The room after one more enemy was healed.
pub open spec fn room_after_clear(v: RoomView) -> RoomView {
    RoomView { enemies_healed: (v.enemies_healed + 1) as u8, ..v }
}

/// The room after `k` more enemies were healed.
pub open spec fn room_after_clears(v: RoomView, k: nat) -> RoomView
    decreases k,
{
    if k == 0 {
        v
    } else {
        room_after_clear(room_after_clears(v, (k - 1) as nat))
    }
}

/// Counts the set flags.
pub fn count_enemies(flags: &Vec<bool>) -> (n: u8)
    requires
        count_true(flags@) <= u8::MAX,
    ensures
        n == count_true(flags@),
{
    let mut n: u8 = 0;
    let mut i: usize = 0;
    while i < flags.len()
        invariant
            i <= flags.len(),
            n == count_true(flags@.subrange(0, i as int)),
            count_true(flags@) <= u8::MAX,
        decreases flags.len() - i,
    {
        proof {
            let s = flags@.subrange(0, i as int + 1);
            assert(s.drop_last() =~= flags@.subrange(0, i as int));
            lemma_count_true_prefix(flags@, i as int + 1);
        }
        if flags[i] {
            n += 1;
        }
        i += 1;
    }
    assert(flags@.subrange(0, flags.len() as int) =~= flags@);
    n
}

/// A prefix never holds more set flags than the whole sequence.
proof fn lemma_count_true_prefix(flags: Seq<bool>, k: int)
    requires
        0 <= k <= flags.len(),
    ensures
        count_true(flags.subrange(0, k)) <= count_true(flags),
    decreases flags.len() - k,
{
    if k < flags.len() {
        lemma_count_true_prefix(flags, k + 1);
        assert(flags.subrange(0, k + 1).drop_last() =~= flags.subrange(0, k));
    } else {
        assert(flags.subrange(0, k) =~= flags);
    }
}

impl Room {
    /// A room before it is entered.
    pub fn new() -> (r: Room)
        ensures
            r@ == (RoomView { enemy_count: 0, enemies_healed: 0 }),
    {
        Room { enemy_count: 0, enemies_healed: 0 }
    }

    /// The number of enemies the room holds.
    pub fn enemy_count(&self) -> (n: u8)
        ensures
            n == self@.enemy_count,
    {
        self.enemy_count
    }

    /// The number of enemies healed in the room.
    pub fn enemies_healed(&self) -> (n: u8)
        ensures
            n == self@.enemies_healed,
    {
        self.enemies_healed
    }

    /// The room `room` is entered.  `enemy_flags` tells, for each object in
    /// the scene, whether it is an enemy; `music_playing` whether the
    /// background music plays.
    pub fn ready(
        &mut self,
        enemy_flags: &Vec<bool>,
        controller: &Controller,
        room: &String,
        music_playing: bool,
    ) -> (start: RoomStart)
        requires
            old(self)@.enemy_count + count_true(enemy_flags@) <= u8::MAX,
            controller.wf(),
        ensures
            final(self)@ == (RoomView {
                enemy_count: (old(self)@.enemy_count + count_true(enemy_flags@)) as u8,
                ..old(self)@
            }),
            start.already_cleared == controller@.rooms_cleared.contains(room@),
            start.fountains_cleared == (controller@.fountains_purified.len() >= FOUNTAIN_COUNT),
            start.music == music_cue(room@, music_playing),
    {
        let n = count_enemies(enemy_flags);
        self.enemy_count = self.enemy_count + n;
        let already_cleared = controller.is_room_cleared(room.clone());
        let fountains_cleared = controller.all_fountains_purified();
        let music = if text_is(room, CASTLE_FIRST_SCENE) {
            MusicCue::Stop
        } else if text_is(room, OVERWORLD_MUSIC_SCENE) && !music_playing {
            MusicCue::Play
        } else {
            MusicCue::Keep
        };
        RoomStart { already_cleared, fountains_cleared, music }
    }

    /// One more enemy of the room `room` was healed.  Returns whether the
    /// room is cleared; if so it is recorded as cleared.
    pub fn clear_room(&mut self, controller: &mut Controller, room: String) -> (cleared: bool)
        requires
            old(self)@.enemies_healed < u8::MAX,
        ensures
            final(self)@ == room_after_clear(old(self)@),
            cleared == clear_reports(old(self)@),
            final(controller)@ == (if cleared {
                record_room_cleared(old(controller)@, room@)
            } else {
                old(controller)@
            }),
            final(controller).wf() == old(controller).wf(),
    {
        self.enemies_healed += 1;
        if self.enemies_healed >= self.enemy_count {
            controller.add_room_cleared(room);
            true
        } else {
            false
        }
    }
}

/// In a room of `n` enemies with none healed yet, the `k`-th heal clears
/// the room exactly when `k` reaches `n`, and so does every later one.
pub proof fn law_room_clears_at_last_enemy(n: u8, k: nat)
    requires
        1 <= k < u8::MAX,
    ensures
        room_after_clears(RoomView { enemy_count: n, enemies_healed: 0 }, (k - 1) as nat).enemies_healed
            == k - 1,
        room_after_clears(RoomView { enemy_count: n, enemies_healed: 0 }, (k - 1) as nat).enemy_count
            == n,
        clear_reports(
            room_after_clears(RoomView { enemy_count: n, enemies_healed: 0 }, (k - 1) as nat),
        ) <==> k >= n,
    decreases k,
{
    if k > 1 {
        law_room_clears_at_last_enemy(n, (k - 1) as nat);
    }
}

/// Entering a room never both stops and starts the music, and only the two
/// music rooms change it.
pub proof fn law_music_cue_only_in_music_rooms(room: Seq<char>, playing: bool)
    ensures
        music_cue(room, playing) != MusicCue::Keep ==> room == CASTLE_FIRST_SCENE@ || room
            == OVERWORLD_MUSIC_SCENE@,
        music_cue(room, playing) == MusicCue::Play ==> !playing,
{
}

} // verus!
