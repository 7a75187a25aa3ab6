//! The game-wide progress record: which enemies were healed and where they
//! stood, which fountains were purified, which rooms were cleared, and the
//! flags that decide what the heads-up display shows.
use vstd::prelude::*;
use crate::bodies::BodyGroups;
use crate::registry::{NameSet, Position, PositionTable};

verus! {

/// How many fountains the world holds; once that many are purified the
/// way to the final area opens.
pub const FOUNTAIN_COUNT: usize = 5;

/// The two heads-up display panels.
#[derive(Clone, Copy, Debug, PartialEq, Eq, Structural)]
pub enum UiPanel {
    /// The panel with health and the healed counter.
    Status,
    /// The panel with the speedrun timer.
    Timer,
}

/// The progress record as a mathematical value.
pub struct ControllerView {
    pub num_enemies_healed: u16,
    pub rooms_cleared: Seq<Seq<char>>,
    pub enemies_healed: Map<Seq<char>, Position>,
    pub fountains_purified: Set<Seq<char>>,
    pub in_game: bool,
    pub speedrun_timer: bool,
    pub status_panel_faded: bool,
    pub timer_panel_faded: bool,
}

/// The progress record of one play session.
pub struct Controller {
    num_enemies_healed: u16,
    rooms_cleared: Vec<String>,
    enemies_healed: PositionTable,
    fountains_purified: NameSet,
    in_game: bool,
    speedrun_timer: bool,
    status_panel_faded: bool,
    timer_panel_faded: bool,
}

impl View for Controller {
    type V = ControllerView;

    closed spec fn view(&self) -> ControllerView {
        ControllerView {
            num_enemies_healed: self.num_enemies_healed,
            rooms_cleared: self.rooms_cleared@.map_values(|s: String| s@),
            enemies_healed: self.enemies_healed@,
            fountains_purified: self.fountains_purified@,
            in_game: self.in_game,
            speedrun_timer: self.speedrun_timer,
            status_panel_faded: self.status_panel_faded,
            timer_panel_faded: self.timer_panel_faded,
        }
    }
}

/// The record before any play: nothing healed, purified or cleared, not in
/// a game, the speedrun timer off and both panels opaque.
pub open spec fn initial_progress() -> ControllerView {
    ControllerView {
        num_enemies_healed: 0,
        rooms_cleared: Seq::empty(),
        enemies_healed: Map::empty(),
        fountains_purified: Set::empty(),
        in_game: false,
        speedrun_timer: false,
        status_panel_faded: false,
        timer_panel_faded: false,
    }
}

/// The record after a reset: progress forgotten, flags kept.
pub open spec fn reset_progress(v: ControllerView) -> ControllerView {
    ControllerView {
        num_enemies_healed: 0,
        rooms_cleared: Seq::empty(),
        enemies_healed: Map::empty(),
        fountains_purified: Set::empty(),
        ..v
    }
}

/// The record after the enemy `id` was healed standing at `pos`.
pub open spec fn record_enemy_healed(v: ControllerView, id: Seq<char>, pos: Position) -> ControllerView {
    ControllerView { enemies_healed: v.enemies_healed.insert(id, pos), ..v }
}

/// The record after the fountain `id` was purified.
pub open spec fn record_fountain_purified(v: ControllerView, id: Seq<char>) -> ControllerView {
    ControllerView { fountains_purified: v.fountains_purified.insert(id), ..v }
}

/// The record after the room `room` was cleared.
pub open spec fn record_room_cleared(v: ControllerView, room: Seq<char>) -> ControllerView {
    ControllerView { rooms_cleared: v.rooms_cleared.push(room), ..v }
}

/// Whether a body entering or leaving a panel's screen area changes the
/// panel's opacity: the player, enemies, the boss and the player's bullet do.
pub open spec fn spec_obscures_ui(body: BodyGroups) -> bool {
    body.player || body.enemy || body.enemy_boss || body.player_bullet
}

/// The record after a body entered (`entered` true) or left a panel's
/// screen area: the panel fades on entry and turns opaque on exit, if the
/// body can hide behind it.
pub open spec fn ui_after_body(v: ControllerView, panel: UiPanel, body: BodyGroups, entered: bool) -> ControllerView {
    if !spec_obscures_ui(body) {
        v
    } else {
        match panel {
            UiPanel::Status => ControllerView { status_panel_faded: entered, ..v },
            UiPanel::Timer => ControllerView { timer_panel_faded: entered, ..v },
        }
    }
}

/// Whether a panel is faded in a record.
pub open spec fn panel_faded(v: ControllerView, panel: UiPanel) -> bool {
    match panel {
        UiPanel::Status => v.status_panel_faded,
        UiPanel::Timer => v.timer_panel_faded,
    }
}

/// The fountains that the debug key marks purified.
pub open spec fn debug_fountain_names() -> Set<Seq<char>> {
    set![seq!['0'], seq!['1'], seq!['2'], seq!['3'], seq!['4']]
}

impl Controller {
    /// The stores behind the record are well formed.
    pub closed spec fn wf(&self) -> bool {
        &&& self.enemies_healed.wf()
        &&& self.fountains_purified.wf()
    }

    /// A fresh record.
    pub fn new() -> (c: Controller)
        ensures
            c.wf(),
            c@ == initial_progress(),
    {
        let c = Controller {
            num_enemies_healed: 0,
            rooms_cleared: Vec::new(),
            enemies_healed: PositionTable::new(),
            fountains_purified: NameSet::new(),
            in_game: false,
            speedrun_timer: false,
            status_panel_faded: false,
            timer_panel_faded: false,
        };
        assert(c@.rooms_cleared =~= Seq::<Seq<char>>::empty());
        c
    }

    /// Whether the speedrun timer runs.
    pub fn is_speedrun_timer_on(&self) -> (r: bool)
        ensures
            r == self@.speedrun_timer,
    {
        self.speedrun_timer
    }

    /// Switches the speedrun timer on or off.
    pub fn set_speedrun_timer(&mut self, value: bool)
        ensures
            final(self)@ == (ControllerView { speedrun_timer: value, ..old(self)@ }),
            final(self).wf() == old(self).wf(),
    {
        self.speedrun_timer = value;
    }

    /// Records whether a game is being played.
    pub fn set_in_game(&mut self, value: bool)
        ensures
            final(self)@ == (ControllerView { in_game: value, ..old(self)@ }),
            final(self).wf() == old(self).wf(),
    {
        self.in_game = value;
    }

    /// Whether a game is being played.
    pub fn is_in_game(&self) -> (r: bool)
        ensures
            r == self@.in_game,
    {
        self.in_game
    }

    /// Forgets the progress of the last game; the flags stay.
    pub fn reset(&mut self)
        requires
            old(self).wf(),
        ensures
            final(self).wf(),
            final(self)@ == reset_progress(old(self)@),
    {
        self.rooms_cleared.clear();
        self.enemies_healed.clear();
        self.fountains_purified.clear();
        self.num_enemies_healed = 0;
        assert(self@.rooms_cleared =~= Seq::<Seq<char>>::empty());
    }

    /// Counts one more healed enemy.
    pub fn add_enemy_healed(&mut self)
        requires
            old(self)@.num_enemies_healed < u16::MAX,
        ensures
            final(self)@ == (ControllerView {
                num_enemies_healed: (old(self)@.num_enemies_healed + 1) as u16,
                ..old(self)@
            }),
            final(self).wf() == old(self).wf(),
    {
        self.num_enemies_healed += 1;
    }

    /// The number of enemies healed in this game.
    pub fn enemies_healed_count(&self) -> (n: u16)
        ensures
            n == self@.num_enemies_healed,
    {
        self.num_enemies_healed
    }

    /// Records that the enemy `enemy_id` was healed standing at `enemy_pos`.
    pub fn add_enemy_healed_info(&mut self, enemy_id: String, enemy_pos: Position)
        requires
            old(self).wf(),
        ensures
            final(self).wf(),
            final(self)@ == record_enemy_healed(old(self)@, enemy_id@, enemy_pos),
    {
        self.enemies_healed.insert(enemy_id, enemy_pos);
    }

    /// Records that the fountain `fountain_id` was purified.
    pub fn add_fountain_purified_info(&mut self, fountain_id: String)
        requires
            old(self).wf(),
        ensures
            final(self).wf(),
            final(self)@ == record_fountain_purified(old(self)@, fountain_id@),
    {
        self.fountains_purified.insert(fountain_id);
    }

    /// Stops the speedrun timer.
    pub fn stop_timer(&mut self)
        ensures
            final(self)@ == (ControllerView { speedrun_timer: false, ..old(self)@ }),
            final(self).wf() == old(self).wf(),
    {
        self.speedrun_timer = false;
    }

    /// Whether the enemy `enemy_id` was healed.
    pub fn enemy_is_healed(&self, enemy_id: String) -> (r: bool)
        requires
            self.wf(),
        ensures
            r == self@.enemies_healed.contains_key(enemy_id@),
    {
        self.enemies_healed.get(&enemy_id).is_some()
    }

    /// Where the healed enemy `enemy_id` stood when it was healed.
    pub fn get_healed_enemy_position(&self, enemy_id: String) -> (p: Position)
        requires
            self.wf(),
            self@.enemies_healed.contains_key(enemy_id@),
        ensures
            p == self@.enemies_healed[enemy_id@],
    {
        match self.enemies_healed.get(&enemy_id) {
            Some(p) => p,
            None => {
                assert(false);
                Position { x_bits: 0, y_bits: 0 }
            },
        }
    }

    /// Whether the fountain `fountain_id` was purified.
    pub fn fountain_is_purified(&self, fountain_id: String) -> (r: bool)
        ensures
            r == self@.fountains_purified.contains(fountain_id@),
    {
        self.fountains_purified.contains(&fountain_id)
    }

    /// Whether at least [`FOUNTAIN_COUNT`] fountains are purified.
    pub fn all_fountains_purified(&self) -> (r: bool)
        requires
            self.wf(),
        ensures
            r == (self@.fountains_purified.len() >= FOUNTAIN_COUNT),
            self@.fountains_purified.finite(),
    {
        self.fountains_purified.len() >= FOUNTAIN_COUNT
    }

    /// Records that the room `room` was cleared.
    pub fn add_room_cleared(&mut self, room: String)
        ensures
            final(self)@ == record_room_cleared(old(self)@, room@),
            final(self).wf() == old(self).wf(),
    {
        let ghost k = room@;
        self.rooms_cleared.push(room);
        assert(self@.rooms_cleared =~= old(self)@.rooms_cleared.push(k));
    }

    /// Whether the room `room` was cleared.
    pub fn is_room_cleared(&self, room: String) -> (r: bool)
        ensures
            r == self@.rooms_cleared.contains(room@),
    {
        let mut i: usize = 0;
        while i < self.rooms_cleared.len()
            invariant
                i <= self.rooms_cleared.len(),
                forall|j: int| 0 <= j < i ==> self.rooms_cleared@[j]@ != room@,
            decreases self.rooms_cleared.len() - i,
        {
            if self.rooms_cleared[i] == room {
                assert(self@.rooms_cleared[i as int] == room@);
                return true;
            }
            i += 1;
        }
        assert forall|j: int| 0 <= j < self@.rooms_cleared.len() implies self@.rooms_cleared[j]
            != room@ by {
            assert(self.rooms_cleared@[j]@ != room@);
        }
        false
    }

    /// The debug key: marks the fountains named `0` to `4` purified.
    pub fn purify_debug_fountains(&mut self)
        requires
            old(self).wf(),
        ensures
            final(self).wf(),
            final(self)@ == (ControllerView {
                fountains_purified: old(self)@.fountains_purified.union(debug_fountain_names()),
                ..old(self)@
            }),
    {
        let ghost before = self@;
        self.add_fountain_purified_info(String::from_str("0"));
        self.add_fountain_purified_info(String::from_str("1"));
        self.add_fountain_purified_info(String::from_str("2"));
        self.add_fountain_purified_info(String::from_str("3"));
        self.add_fountain_purified_info(String::from_str("4"));
        proof {
            reveal_strlit("0");
            assert("0"@ =~= seq!['0']);
            reveal_strlit("1");
            assert("1"@ =~= seq!['1']);
            reveal_strlit("2");
            assert("2"@ =~= seq!['2']);
            reveal_strlit("3");
            assert("3"@ =~= seq!['3']);
            reveal_strlit("4");
            assert("4"@ =~= seq!['4']);
            assert(self@.fountains_purified =~= before.fountains_purified.union(
                debug_fountain_names(),
            ));
        }
    }

    /// Whether the back key opens the pause menu: only during a game and
    /// while the game is not already paused.
    pub fn should_open_pause_menu(&self, back_pressed: bool, paused: bool) -> (r: bool)
        ensures
            r == (back_pressed && self@.in_game && !paused),
    {
        back_pressed && self.in_game && !paused
    }

    /// Whether the timer panel is shown when the display is asked to show
    /// or hide: it follows the request only while the speedrun timer runs.
    pub fn timer_panel_follows_show(&self) -> (r: bool)
        ensures
            r == self@.speedrun_timer,
    {
        self.speedrun_timer
    }

    /// A body entered the screen area of `panel`: the panel fades if the
    /// body is one that can hide behind it.
    pub fn on_ui_area_body_entered(&mut self, panel: UiPanel, body: BodyGroups)
        ensures
            final(self).wf() == old(self).wf(),
            final(self)@ == ui_after_body(old(self)@, panel, body, true),
    {
        if obscures_ui(body) {
            match panel {
                UiPanel::Status => self.status_panel_faded = true,
                UiPanel::Timer => self.timer_panel_faded = true,
            }
        }
    }

    /// A body left the screen area of `panel`: the panel turns opaque again
    /// if the body is one that can hide behind it.
    pub fn on_ui_area_body_exited(&mut self, panel: UiPanel, body: BodyGroups)
        ensures
            final(self).wf() == old(self).wf(),
            final(self)@ == ui_after_body(old(self)@, panel, body, false),
    {
        if obscures_ui(body) {
            match panel {
                UiPanel::Status => self.status_panel_faded = false,
                UiPanel::Timer => self.timer_panel_faded = false,
            }
        }
    }

    /// Whether `panel` is faded.
    pub fn is_panel_faded(&self, panel: UiPanel) -> (r: bool)
        ensures
            r == panel_faded(self@, panel),
    {
        match panel {
            UiPanel::Status => self.status_panel_faded,
            UiPanel::Timer => self.timer_panel_faded,
        }
    }
}

/// Whether a body can hide behind a heads-up display panel.
pub fn obscures_ui(body: BodyGroups) -> (r: bool)
    ensures
        r == spec_obscures_ui(body),
{
    body.player || body.enemy || body.enemy_boss || body.player_bullet
}

/// A healed enemy is reported healed, its position reads back as the one
/// recorded, and every other enemy's record is unchanged.
pub proof fn law_healed_enemy_reads_back(v: ControllerView, id: Seq<char>, pos: Position, other: Seq<char>)
    ensures
        record_enemy_healed(v, id, pos).enemies_healed.contains_key(id),
        record_enemy_healed(v, id, pos).enemies_healed[id] == pos,
        other != id ==> record_enemy_healed(v, id, pos).enemies_healed.contains_key(other)
            == v.enemies_healed.contains_key(other),
        other != id && v.enemies_healed.contains_key(other) ==> record_enemy_healed(
            v,
            id,
            pos,
        ).enemies_healed[other] == v.enemies_healed[other],
{
}

/// A purified fountain is reported purified, and recording it a second time
/// changes nothing.
pub proof fn law_fountain_purified_reads_back(v: ControllerView, id: Seq<char>)
    ensures
        record_fountain_purified(v, id).fountains_purified.contains(id),
        record_fountain_purified(record_fountain_purified(v, id), id) == record_fountain_purified(
            v,
            id,
        ),
{
    assert(record_fountain_purified(v, id).fountains_purified.insert(id)
        =~= record_fountain_purified(v, id).fountains_purified);
}

/// The number of purified fountains never drops when one is recorded.
pub proof fn law_fountain_count_never_drops(v: ControllerView, id: Seq<char>)
    requires
        v.fountains_purified.finite(),
    ensures
        record_fountain_purified(v, id).fountains_purified.finite(),
        record_fountain_purified(v, id).fountains_purified.len() >= v.fountains_purified.len(),
{
}

/// After the debug key every fountain counts as purified.
pub proof fn law_debug_key_purifies_all(v: ControllerView)
    requires
        v.fountains_purified.finite(),
    ensures
        v.fountains_purified.union(debug_fountain_names()).finite(),
        v.fountains_purified.union(debug_fountain_names()).len() >= FOUNTAIN_COUNT,
{
    let d = debug_fountain_names();
    let u = v.fountains_purified.union(d);
    assert(seq!['0'][0] == '0' && seq!['1'][0] == '1' && seq!['2'][0] == '2' && seq!['3'][0]
        == '3' && seq!['4'][0] == '4');
    assert(d.len() == 5);
    vstd::set_lib::lemma_set_union_finite_iff(v.fountains_purified, d);
    vstd::set_lib::lemma_len_subset(d, u);
}

/// A cleared room is reported cleared, and stays so whatever room is
/// recorded next.
pub proof fn law_room_stays_cleared(v: ControllerView, room: Seq<char>, next: Seq<char>)
    ensures
        record_room_cleared(v, room).rooms_cleared.contains(room),
        record_room_cleared(record_room_cleared(v, room), next).rooms_cleared.contains(room),
{
    let s1 = record_room_cleared(v, room).rooms_cleared;
    assert(s1[v.rooms_cleared.len() as int] == room);
    let s2 = record_room_cleared(record_room_cleared(v, room), next).rooms_cleared;
    assert(s2[v.rooms_cleared.len() as int] == room);
}

/// A reset forgets every healed enemy, purified fountain and cleared room,
/// keeps the game and timer flags, and leaves a record that equals a fresh
/// one with those flags.
pub proof fn law_reset_forgets_progress(v: ControllerView, id: Seq<char>)
    ensures
        !reset_progress(v).enemies_healed.contains_key(id),
        !reset_progress(v).fountains_purified.contains(id),
        !reset_progress(v).rooms_cleared.contains(id),
        reset_progress(v).num_enemies_healed == 0,
        reset_progress(v).in_game == v.in_game,
        reset_progress(v).speedrun_timer == v.speedrun_timer,
        reset_progress(v) == (ControllerView {
            in_game: v.in_game,
            speedrun_timer: v.speedrun_timer,
            status_panel_faded: v.status_panel_faded,
            timer_panel_faded: v.timer_panel_faded,
            ..initial_progress()
        }),
{
}

/// A body that can hide behind a panel fades it while inside its area and
/// leaves it opaque once gone; the other panel and other bodies change
/// nothing.
pub proof fn law_panel_fades_while_body_inside(
    v: ControllerView,
    panel: UiPanel,
    body: BodyGroups,
    other: UiPanel,
    entered: bool,
)
    ensures
        spec_obscures_ui(body) ==> panel_faded(ui_after_body(v, panel, body, true), panel),
        spec_obscures_ui(body) ==> !panel_faded(
            ui_after_body(ui_after_body(v, panel, body, true), panel, body, false),
            panel,
        ),
        !spec_obscures_ui(body) ==> ui_after_body(v, panel, body, true) == v
            && ui_after_body(v, panel, body, false) == v,
        other != panel ==> panel_faded(ui_after_body(v, panel, body, entered), other)
            == panel_faded(v, other),
        ui_after_body(v, panel, body, entered).enemies_healed == v.enemies_healed,
{
}

} // verus!
