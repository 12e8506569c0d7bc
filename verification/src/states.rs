use vstd::prelude::*;
use crate::clock::{clock_chars, ClockTime, MINUTES_PER_DAY};
use crate::message::{AlphanumMessage, ButtonEvent, EventMessage, PlayerMessage, SongEvent};
use crate::selector::{BinarySelector, LinearSelector, Selector};

verus! {

/// Everything one event handler asks the rest of the device to do: the
/// display and player commands to send, and the process-wide commits to
/// apply. The caller owns the queues and the shared cells; the states
/// only decide.
pub struct Effects {
    pub display: Vec<AlphanumMessage>,
    pub player: Vec<PlayerMessage>,
    /// Reset the wall clock so that "now" reads this time of day.
    pub set_time: Option<ClockTime>,
    /// Arm the alarm at this time of day.
    pub set_alarm_time: Option<ClockTime>,
    /// Make this song file the alarm song.
    pub set_alarm_song: Option<String>,
}

/// No commits asked for.
pub open spec fn fx_no_commits(fx: &Effects) -> bool {
    &&& fx.set_time is None
    &&& fx.set_alarm_time is None
    &&& fx.set_alarm_song is None
}

/// No commands and no commits at all.
pub open spec fn fx_none(fx: &Effects) -> bool {
    &&& fx_no_commits(fx)
    &&& fx.display@ == Seq::<AlphanumMessage>::empty()
    &&& fx.player@ == Seq::<PlayerMessage>::empty()
}

impl Effects {
    /// An effect set that asks for nothing.
    pub fn empty() -> (fx: Effects)
        ensures
            fx_none(&fx),
    {
        Effects {
            display: Vec::new(),
            player: Vec::new(),
            set_time: None,
            set_alarm_time: None,
            set_alarm_song: None,
        }
    }
}

/// The names of the user-interface states.
#[derive(Clone, Copy, Debug, PartialEq, Eq, Structural)]
pub enum StateId {
    Clock,
    ModeSelect,
    ClockSet,
    AlarmTime,
    AlarmSong,
    Play,
    Bad,
}

/// The display name of each state, as the mode menu scrolls it.
pub open spec fn state_name(id: StateId) -> Seq<char> {
    match id {
        StateId::Clock => "Clock"@,
        StateId::ModeSelect => "Mode Select"@,
        StateId::ClockSet => "Clock Set"@,
        StateId::AlarmTime => "Alarm Time"@,
        StateId::AlarmSong => "Alarm Song"@,
        StateId::Play => "Play"@,
        StateId::Bad => "Bad"@,
    }
}

impl StateId {
    pub fn as_str(&self) -> (r: &'static str)
        ensures
            r@ == state_name(*self),
    {
        match self {
            StateId::Clock => "Clock",
            StateId::ModeSelect => "Mode Select",
            StateId::ClockSet => "Clock Set",
            StateId::AlarmTime => "Alarm Time",
            StateId::AlarmSong => "Alarm Song",
            StateId::Play => "Play",
            StateId::Bad => "Bad",
        }
    }
}

/// One state of the user interface. Every handler returns the requested
/// transition — `None` to stay — and the effects to apply; what each
/// handler does is pinned down by the spec functions, which each state
/// defines for itself. Button id 0 means next, 1 previous, 2 confirm;
/// any other id does nothing anywhere.
pub trait State: Sized {
    /// The state's internal validity.
    spec fn inv(&self) -> bool;

    /// What entering the state shows or plays.
    spec fn entry_effects(&self, fx: &Effects) -> bool;

    /// The transition a button press asks for, if any.
    spec fn next_of_press(&self, id: u8) -> Option<StateId>;

    /// The state after a button press.
    spec fn after_press(&self, id: u8) -> Self;

    /// The commands and commits a button press issues.
    spec fn press_effects(&self, id: u8, fx: &Effects) -> bool;

    /// The transition a button release asks for; no state reacts to one
    /// unless it says otherwise.
    open spec fn next_of_release(&self, id: u8) -> Option<StateId> {
        None
    }

    /// The state after a button release.
    open spec fn after_release(&self, id: u8) -> Self {
        *self
    }

    /// The effects of a button release.
    open spec fn release_effects(&self, id: u8, fx: &Effects) -> bool {
        fx_none(fx)
    }

    /// The transition a song-started notice asks for.
    open spec fn next_of_start(&self, name: Seq<char>) -> Option<StateId> {
        None
    }

    /// The state after a song-started notice.
    open spec fn after_start(&self, name: Seq<char>) -> Self {
        *self
    }

    /// The effects of a song-started notice.
    open spec fn start_effects(&self, name: Seq<char>, fx: &Effects) -> bool {
        fx_none(fx)
    }

    /// The transition a song-ended notice asks for.
    open spec fn next_of_end(&self, name: Seq<char>) -> Option<StateId> {
        None
    }

    /// The state after a song-ended notice.
    open spec fn after_end(&self, name: Seq<char>) -> Self {
        *self
    }

    /// The effects of a song-ended notice.
    open spec fn end_effects(&self, name: Seq<char>, fx: &Effects) -> bool {
        fx_none(fx)
    }

    /// Runs the state's entry hook.
    fn init(&self) -> (fx: Effects)
        requires
            self.inv(),
        ensures
            self.entry_effects(&fx),
    ;

    fn button_press(&mut self, button_id: u8) -> (r: (Option<StateId>, Effects))
        requires
            old(self).inv(),
        ensures
            final(self).inv(),
            *final(self) == old(self).after_press(button_id),
            r.0 == old(self).next_of_press(button_id),
            old(self).press_effects(button_id, &r.1),
    ;

    fn button_release(&mut self, button_id: u8) -> (r: (Option<StateId>, Effects))
        requires
            old(self).inv(),
        ensures
            final(self).inv(),
            *final(self) == old(self).after_release(button_id),
            r.0 == old(self).next_of_release(button_id),
            old(self).release_effects(button_id, &r.1),
    ;

    fn song_start(&mut self, name: String) -> (r: (Option<StateId>, Effects))
        requires
            old(self).inv(),
        ensures
            final(self).inv(),
            *final(self) == old(self).after_start(name@),
            r.0 == old(self).next_of_start(name@),
            old(self).start_effects(name@, &r.1),
    ;

    fn song_end(&mut self, name: String) -> (r: (Option<StateId>, Effects))
        requires
            old(self).inv(),
        ensures
            final(self).inv(),
            *final(self) == old(self).after_end(name@),
            r.0 == old(self).next_of_end(name@),
            old(self).end_effects(name@, &r.1),
    ;

    /// Dispatches one incoming event to its handler.
    fn event(&mut self, event: EventMessage) -> (r: (Option<StateId>, Effects))
        requires
            old(self).inv(),
        ensures
            final(self).inv(),
            (match event {
                EventMessage::Button(ButtonEvent::Press(id)) => {
                    &&& *final(self) == old(self).after_press(id)
                    &&& r.0 == old(self).next_of_press(id)
                    &&& old(self).press_effects(id, &r.1)
                },
                EventMessage::Button(ButtonEvent::Release(id)) => {
                    &&& *final(self) == old(self).after_release(id)
                    &&& r.0 == old(self).next_of_release(id)
                    &&& old(self).release_effects(id, &r.1)
                },
                EventMessage::Song(SongEvent::Start(name)) => {
                    &&& *final(self) == old(self).after_start(name@)
                    &&& r.0 == old(self).next_of_start(name@)
                    &&& old(self).start_effects(name@, &r.1)
                },
                EventMessage::Song(SongEvent::End(name)) => {
                    &&& *final(self) == old(self).after_end(name@)
                    &&& r.0 == old(self).next_of_end(name@)
                    &&& old(self).end_effects(name@, &r.1)
                },
            }),
    {
        match event {
            EventMessage::Button(button) => match button {
                ButtonEvent::Press(x) => self.button_press(x),
                ButtonEvent::Release(x) => self.button_release(x),
            },
            EventMessage::Song(song) => match song {
                SongEvent::Start(name) => self.song_start(name),
                SongEvent::End(name) => self.song_end(name),
            },
        }
    }
}

/// The live clock: the resting state. Any browse button silences the
/// player (it stops a ringing alarm); confirm opens the mode menu.
pub struct StateClock {}

impl StateClock {
    pub fn new() -> (r: StateClock)
        ensures
            r.inv(),
    {
        StateClock {  }
    }
}

impl State for StateClock {
    open spec fn inv(&self) -> bool {
        true
    }

    open spec fn entry_effects(&self, fx: &Effects) -> bool {
        &&& fx_no_commits(fx)
        &&& fx.display@ == seq![AlphanumMessage::Time]
        &&& fx.player@ == Seq::<PlayerMessage>::empty()
    }

    open spec fn next_of_press(&self, id: u8) -> Option<StateId> {
        if id == 2 {
            Some(StateId::ModeSelect)
        } else {
            None
        }
    }

    open spec fn after_press(&self, id: u8) -> Self {
        *self
    }

    open spec fn press_effects(&self, id: u8, fx: &Effects) -> bool {
        if id == 0 || id == 1 {
            &&& fx_no_commits(fx)
            &&& fx.display@ == Seq::<AlphanumMessage>::empty()
            &&& fx.player@ == seq![PlayerMessage::Stop]
        } else {
            fx_none(fx)
        }
    }

    fn init(&self) -> (fx: Effects) {
        let mut fx = Effects::empty();
        fx.display.push(AlphanumMessage::Time);
        fx
    }

    fn button_press(&mut self, button_id: u8) -> (r: (Option<StateId>, Effects)) {
        let mut fx = Effects::empty();
        match button_id {
            0 | 1 => {
                fx.player.push(PlayerMessage::Stop);
                (None, fx)
            },
            2 => (Some(StateId::ModeSelect), fx),
            _ => (None, fx),
        }
    }

    fn button_release(&mut self, _button_id: u8) -> (r: (Option<StateId>, Effects)) {
        (None, Effects::empty())
    }

    fn song_start(&mut self, _name: String) -> (r: (Option<StateId>, Effects)) {
        (None, Effects::empty())
    }

    fn song_end(&mut self, _name: String) -> (r: (Option<StateId>, Effects)) {
        (None, Effects::empty())
    }
}

/// The modes the mode menu cycles through, in order.
pub open spec fn mode_list() -> Seq<StateId> {
    seq![StateId::Clock, StateId::ClockSet, StateId::AlarmTime, StateId::AlarmSong, StateId::Play]
}

/// The mode menu: browse scrolls the highlighted mode's name, confirm
/// enters exactly the highlighted mode.
pub struct StateModeSelect {
    mode_selector: LinearSelector<StateId>,
}

impl StateModeSelect {
    pub fn new() -> (r: StateModeSelect)
        ensures
            r.inv(),
            r.selected_mode() == StateId::Clock,
    {
        let mut modes: Vec<StateId> = Vec::new();
        modes.push(StateId::Clock);
        modes.push(StateId::ClockSet);
        modes.push(StateId::AlarmTime);
        modes.push(StateId::AlarmSong);
        modes.push(StateId::Play);
        proof {
            assert(modes@ =~= mode_list());
        }
        StateModeSelect { mode_selector: LinearSelector::new(modes) }
    }

    /// The mode under the cursor.
    pub closed spec fn selected_mode(&self) -> StateId {
        self.mode_selector.items()[self.mode_selector.index()]
    }
}

impl State for StateModeSelect {
    closed spec fn inv(&self) -> bool {
        &&& self.mode_selector.wf()
        &&& self.mode_selector.items() == mode_list()
    }

    closed spec fn entry_effects(&self, fx: &Effects) -> bool {
        &&& fx_no_commits(fx)
        &&& fx.player@ == Seq::<PlayerMessage>::empty()
        &&& fx.display@.len() == 1
        &&& fx.display@[0] matches AlphanumMessage::Loop(t) && t@ == state_name(
            self.selected_mode(),
        )
    }

    closed spec fn next_of_press(&self, id: u8) -> Option<StateId> {
        if id == 2 {
            Some(self.selected_mode())
        } else {
            None
        }
    }

    closed spec fn after_press(&self, id: u8) -> Self {
        if id == 0 {
            StateModeSelect { mode_selector: self.mode_selector.stepped_up() }
        } else if id == 1 {
            StateModeSelect { mode_selector: self.mode_selector.stepped_down() }
        } else {
            *self
        }
    }

    closed spec fn press_effects(&self, id: u8, fx: &Effects) -> bool {
        if id == 0 || id == 1 {
            &&& fx_no_commits(fx)
            &&& fx.player@ == Seq::<PlayerMessage>::empty()
            &&& fx.display@.len() == 1
            &&& fx.display@[0] matches AlphanumMessage::Loop(t) && t@ == state_name(
                self.after_press(id).selected_mode(),
            )
        } else {
            fx_none(fx)
        }
    }

    fn init(&self) -> (fx: Effects) {
        let mut fx = Effects::empty();
        let name = self.mode_selector.curr().as_str();
        fx.display.push(AlphanumMessage::Loop(name.to_owned()));
        fx
    }

    fn button_press(&mut self, button_id: u8) -> (r: (Option<StateId>, Effects)) {
        let mut fx = Effects::empty();
        match button_id {
            0 | 1 => {
                let state = if button_id == 0 {
                    self.mode_selector.incr()
                } else {
                    self.mode_selector.decr()
                };
                let name = state.as_str();
                fx.display.push(AlphanumMessage::Loop(name.to_owned()));
                (None, fx)
            },
            2 => (Some(*self.mode_selector.curr()), fx),
            _ => (None, fx),
        }
    }

    fn button_release(&mut self, _button_id: u8) -> (r: (Option<StateId>, Effects)) {
        (None, Effects::empty())
    }

    fn song_start(&mut self, _name: String) -> (r: (Option<StateId>, Effects)) {
        (None, Effects::empty())
    }

    fn song_end(&mut self, _name: String) -> (r: (Option<StateId>, Effects)) {
        (None, Effects::empty())
    }
}

/// Mode-menu law: confirming always transitions to exactly the mode
/// under the cursor, never any other.
pub proof fn lemma_mode_select_confirm(s: StateModeSelect)
    requires
        s.inv(),
    ensures
        s.next_of_press(2) == Some(s.selected_mode()),
{
}

/// Builds the list of all times of day, one per minute, in order: what
/// the time menus browse.
fn build_times() -> (r: Vec<ClockTime>)
    ensures
        r@.len() == MINUTES_PER_DAY,
        forall|i: int| 0 <= i < r@.len() ==> (#[trigger] r@[i]).wf() && r@[i].as_minutes() == i,
{
    let mut times: Vec<ClockTime> = Vec::new();
    let mut i: u16 = 0;
    while i < MINUTES_PER_DAY
        invariant
            i <= MINUTES_PER_DAY,
            times@.len() == i,
            forall|k: int| 0 <= k < i ==> (#[trigger] times@[k]).wf() && times@[k].as_minutes() == k,
        decreases MINUTES_PER_DAY - i,
    {
        times.push(ClockTime::new(i));
        i = i + 1;
    }
    times
}

/// A menu over a day's 1440 minutes, used to set either the wall clock
/// or the alarm time; its accelerating cursor makes the full day
/// reachable in a few dozen presses.
pub struct TimeMenu {
    time_selector: BinarySelector<ClockTime>,
}

impl TimeMenu {
    pub closed spec fn inv(&self) -> bool {
        &&& self.time_selector.wf()
        &&& self.time_selector.items().len() == MINUTES_PER_DAY
        &&& forall|k: int|
            0 <= k < self.time_selector.items().len() ==> (
            #[trigger] self.time_selector.items()[k]).wf()
                && self.time_selector.items()[k].as_minutes() == k
    }

    /// The time under the cursor.
    pub closed spec fn selected_time(&self) -> ClockTime {
        self.time_selector.items()[self.time_selector.index()]
    }

    pub closed spec fn stepped(&self, id: u8) -> Self {
        if id == 0 {
            TimeMenu { time_selector: self.time_selector.stepped_up() }
        } else if id == 1 {
            TimeMenu { time_selector: self.time_selector.stepped_down() }
        } else {
            *self
        }
    }

    fn new() -> (r: TimeMenu)
        ensures
            r.inv(),
    {
        TimeMenu { time_selector: BinarySelector::new(build_times()) }
    }

    /// Steps the cursor and reports the newly selected time.
    fn step(&mut self, id: u8) -> (t: ClockTime)
        requires
            old(self).inv(),
            id == 0 || id == 1,
        ensures
            final(self).inv(),
            *final(self) == old(self).stepped(id),
            t == final(self).selected_time(),
            t.wf(),
    {
        if id == 0 {
            *self.time_selector.incr()
        } else {
            *self.time_selector.decr()
        }
    }

    fn current(&self) -> (t: ClockTime)
        requires
            self.inv(),
        ensures
            t == self.selected_time(),
            t.wf(),
    {
        *self.time_selector.curr()
    }
}

/// The clock-setting state: browse moves the candidate time with the
/// accelerating cursor, confirm makes it the wall-clock time and returns
/// to the clock.
pub struct StateClockSet {
    menu: TimeMenu,
}

impl StateClockSet {
    pub fn new() -> (r: StateClockSet)
        ensures
            r.inv(),
    {
        StateClockSet { menu: TimeMenu::new() }
    }

    /// The candidate time under the cursor.
    pub closed spec fn selected_time(&self) -> ClockTime {
        self.menu.selected_time()
    }
}

impl State for StateClockSet {
    closed spec fn inv(&self) -> bool {
        self.menu.inv()
    }

    closed spec fn entry_effects(&self, fx: &Effects) -> bool {
        &&& fx_no_commits(fx)
        &&& fx.player@ == Seq::<PlayerMessage>::empty()
        &&& fx.display@.len() == 1
        &&& fx.display@[0] matches AlphanumMessage::Static(cs) && cs@ == clock_chars(
            self.selected_time(),
        )
    }

    closed spec fn next_of_press(&self, id: u8) -> Option<StateId> {
        if id == 2 {
            Some(StateId::Clock)
        } else {
            None
        }
    }

    closed spec fn after_press(&self, id: u8) -> Self {
        StateClockSet { menu: self.menu.stepped(id) }
    }

    closed spec fn press_effects(&self, id: u8, fx: &Effects) -> bool {
        if id == 0 || id == 1 {
            &&& fx_no_commits(fx)
            &&& fx.player@ == Seq::<PlayerMessage>::empty()
            &&& fx.display@.len() == 1
            &&& fx.display@[0] matches AlphanumMessage::Static(cs) && cs@ == clock_chars(
                self.after_press(id).selected_time(),
            )
        } else if id == 2 {
            &&& fx.set_time == Some(self.selected_time())
            &&& fx.set_alarm_time is None
            &&& fx.set_alarm_song is None
            &&& fx.display@ == Seq::<AlphanumMessage>::empty()
            &&& fx.player@ == Seq::<PlayerMessage>::empty()
        } else {
            fx_none(fx)
        }
    }

    fn init(&self) -> (fx: Effects) {
        let mut fx = Effects::empty();
        fx.display.push(AlphanumMessage::Static(self.menu.current().as_chars()));
        fx
    }

    fn button_press(&mut self, button_id: u8) -> (r: (Option<StateId>, Effects)) {
        let mut fx = Effects::empty();
        match button_id {
            0 | 1 => {
                let time = self.menu.step(button_id);
                fx.display.push(AlphanumMessage::Static(time.as_chars()));
                (None, fx)
            },
            2 => {
                fx.set_time = Some(self.menu.current());
                (Some(StateId::Clock), fx)
            },
            _ => (None, fx),
        }
    }

    fn button_release(&mut self, _button_id: u8) -> (r: (Option<StateId>, Effects)) {
        (None, Effects::empty())
    }

    fn song_start(&mut self, _name: String) -> (r: (Option<StateId>, Effects)) {
        (None, Effects::empty())
    }

    fn song_end(&mut self, _name: String) -> (r: (Option<StateId>, Effects)) {
        (None, Effects::empty())
    }
}

/// The alarm-time state: like setting the clock, but confirm arms the
/// alarm at the candidate time instead of resetting the clock.
pub struct StateAlarmTimeSet {
    menu: TimeMenu,
}

impl StateAlarmTimeSet {
    pub fn new() -> (r: StateAlarmTimeSet)
        ensures
            r.inv(),
    {
        StateAlarmTimeSet { menu: TimeMenu::new() }
    }

    /// The candidate time under the cursor.
    pub closed spec fn selected_time(&self) -> ClockTime {
        self.menu.selected_time()
    }
}

impl State for StateAlarmTimeSet {
    closed spec fn inv(&self) -> bool {
        self.menu.inv()
    }

    closed spec fn entry_effects(&self, fx: &Effects) -> bool {
        &&& fx_no_commits(fx)
        &&& fx.player@ == Seq::<PlayerMessage>::empty()
        &&& fx.display@.len() == 1
        &&& fx.display@[0] matches AlphanumMessage::Static(cs) && cs@ == clock_chars(
            self.selected_time(),
        )
    }

    closed spec fn next_of_press(&self, id: u8) -> Option<StateId> {
        if id == 2 {
            Some(StateId::Clock)
        } else {
            None
        }
    }

    closed spec fn after_press(&self, id: u8) -> Self {
        StateAlarmTimeSet { menu: self.menu.stepped(id) }
    }

    closed spec fn press_effects(&self, id: u8, fx: &Effects) -> bool {
        if id == 0 || id == 1 {
            &&& fx_no_commits(fx)
            &&& fx.player@ == Seq::<PlayerMessage>::empty()
            &&& fx.display@.len() == 1
            &&& fx.display@[0] matches AlphanumMessage::Static(cs) && cs@ == clock_chars(
                self.after_press(id).selected_time(),
            )
        } else if id == 2 {
            &&& fx.set_alarm_time == Some(self.selected_time())
            &&& fx.set_time is None
            &&& fx.set_alarm_song is None
            &&& fx.display@ == Seq::<AlphanumMessage>::empty()
            &&& fx.player@ == Seq::<PlayerMessage>::empty()
        } else {
            fx_none(fx)
        }
    }

    fn init(&self) -> (fx: Effects) {
        let mut fx = Effects::empty();
        fx.display.push(AlphanumMessage::Static(self.menu.current().as_chars()));
        fx
    }

    fn button_press(&mut self, button_id: u8) -> (r: (Option<StateId>, Effects)) {
        let mut fx = Effects::empty();
        match button_id {
            0 | 1 => {
                let time = self.menu.step(button_id);
                fx.display.push(AlphanumMessage::Static(time.as_chars()));
                (None, fx)
            },
            2 => {
                fx.set_alarm_time = Some(self.menu.current());
                (Some(StateId::Clock), fx)
            },
            _ => (None, fx),
        }
    }

    fn button_release(&mut self, _button_id: u8) -> (r: (Option<StateId>, Effects)) {
        (None, Effects::empty())
    }

    fn song_start(&mut self, _name: String) -> (r: (Option<StateId>, Effects)) {
        (None, Effects::empty())
    }

    fn song_end(&mut self, _name: String) -> (r: (Option<StateId>, Effects)) {
        (None, Effects::empty())
    }
}

/// The alarm-song state: browse previews the highlighted song, confirm
/// makes it the alarm song, silences the preview and returns to the
/// clock. Song notices update the scrolling display.
pub struct StateAlarmSongSet {
    midi_selector: LinearSelector<String>,
}

impl StateAlarmSongSet {
    pub fn new(midi_files: Vec<String>) -> (r: StateAlarmSongSet)
        requires
            midi_files@.len() > 0,
        ensures
            r.inv(),
            r.songs() == midi_files@,
    {
        StateAlarmSongSet { midi_selector: LinearSelector::new(midi_files) }
    }

    /// The song list browsed, as paths.
    pub closed spec fn songs(&self) -> Seq<String> {
        self.midi_selector.items()
    }

    /// The path of the song under the cursor.
    pub closed spec fn selected_song(&self) -> Seq<char> {
        self.midi_selector.items()[self.midi_selector.index()]@
    }
}

impl State for StateAlarmSongSet {
    closed spec fn inv(&self) -> bool {
        self.midi_selector.wf()
    }

    closed spec fn entry_effects(&self, fx: &Effects) -> bool {
        fx_none(fx)
    }

    closed spec fn next_of_press(&self, id: u8) -> Option<StateId> {
        if id == 2 {
            Some(StateId::Clock)
        } else {
            None
        }
    }

    closed spec fn after_press(&self, id: u8) -> Self {
        if id == 0 {
            StateAlarmSongSet { midi_selector: self.midi_selector.stepped_up() }
        } else if id == 1 {
            StateAlarmSongSet { midi_selector: self.midi_selector.stepped_down() }
        } else {
            *self
        }
    }

    closed spec fn press_effects(&self, id: u8, fx: &Effects) -> bool {
        if id == 0 || id == 1 {
            &&& fx_no_commits(fx)
            &&& fx.display@ == Seq::<AlphanumMessage>::empty()
            &&& fx.player@.len() == 1
            &&& fx.player@[0] matches PlayerMessage::Play(p) && p@ == self.after_press(
                id,
            ).selected_song()
        } else if id == 2 {
            &&& fx.set_alarm_song matches Some(p) && p@ == self.selected_song()
            &&& fx.set_time is None
            &&& fx.set_alarm_time is None
            &&& fx.display@ == Seq::<AlphanumMessage>::empty()
            &&& fx.player@ == seq![PlayerMessage::Stop]
        } else {
            fx_none(fx)
        }
    }

    open spec fn start_effects(&self, name: Seq<char>, fx: &Effects) -> bool {
        &&& fx_no_commits(fx)
        &&& fx.player@ == Seq::<PlayerMessage>::empty()
        &&& fx.display@.len() == 1
        &&& fx.display@[0] matches AlphanumMessage::Loop(t) && t@ == name
    }

    open spec fn end_effects(&self, name: Seq<char>, fx: &Effects) -> bool {
        &&& fx_no_commits(fx)
        &&& fx.player@ == Seq::<PlayerMessage>::empty()
        &&& fx.display@.len() == 1
        &&& fx.display@[0] matches AlphanumMessage::Loop(t) && t@ == "Play"@
    }

    fn init(&self) -> (fx: Effects) {
        Effects::empty()
    }

    fn button_press(&mut self, button_id: u8) -> (r: (Option<StateId>, Effects)) {
        let mut fx = Effects::empty();
        match button_id {
            0 | 1 => {
                let midi_file = if button_id == 0 {
                    self.midi_selector.incr()
                } else {
                    self.midi_selector.decr()
                };
                fx.player.push(PlayerMessage::Play(midi_file.clone()));
                (None, fx)
            },
            2 => {
                fx.set_alarm_song = Some(self.midi_selector.curr().clone());
                fx.player.push(PlayerMessage::Stop);
                (Some(StateId::Clock), fx)
            },
            _ => (None, fx),
        }
    }

    fn button_release(&mut self, _button_id: u8) -> (r: (Option<StateId>, Effects)) {
        (None, Effects::empty())
    }

    fn song_start(&mut self, name: String) -> (r: (Option<StateId>, Effects)) {
        let mut fx = Effects::empty();
        fx.display.push(AlphanumMessage::Loop(name));
        (None, fx)
    }

    fn song_end(&mut self, _name: String) -> (r: (Option<StateId>, Effects)) {
        let mut fx = Effects::empty();
        fx.display.push(AlphanumMessage::Loop("Play".to_owned()));
        (None, fx)
    }
}

/// The jukebox state: browse plays the highlighted song, confirm stops
/// playback and returns to the clock. Song notices update the scrolling
/// display.
pub struct StatePlay {
    midi_selector: LinearSelector<String>,
}

impl StatePlay {
    pub fn new(midi_files: Vec<String>) -> (r: StatePlay)
        requires
            midi_files@.len() > 0,
        ensures
            r.inv(),
            r.songs() == midi_files@,
    {
        StatePlay { midi_selector: LinearSelector::new(midi_files) }
    }

    /// The song list browsed, as paths.
    pub closed spec fn songs(&self) -> Seq<String> {
        self.midi_selector.items()
    }

    /// The path of the song under the cursor.
    pub closed spec fn selected_song(&self) -> Seq<char> {
        self.midi_selector.items()[self.midi_selector.index()]@
    }
}

impl State for StatePlay {
    closed spec fn inv(&self) -> bool {
        self.midi_selector.wf()
    }

    closed spec fn entry_effects(&self, fx: &Effects) -> bool {
        fx_none(fx)
    }

    closed spec fn next_of_press(&self, id: u8) -> Option<StateId> {
        if id == 2 {
            Some(StateId::Clock)
        } else {
            None
        }
    }

    closed spec fn after_press(&self, id: u8) -> Self {
        if id == 0 {
            StatePlay { midi_selector: self.midi_selector.stepped_up() }
        } else if id == 1 {
            StatePlay { midi_selector: self.midi_selector.stepped_down() }
        } else {
            *self
        }
    }

    closed spec fn press_effects(&self, id: u8, fx: &Effects) -> bool {
        if id == 0 || id == 1 {
            &&& fx_no_commits(fx)
            &&& fx.display@ == Seq::<AlphanumMessage>::empty()
            &&& fx.player@.len() == 1
            &&& fx.player@[0] matches PlayerMessage::Play(p) && p@ == self.after_press(
                id,
            ).selected_song()
        } else if id == 2 {
            &&& fx_no_commits(fx)
            &&& fx.display@ == Seq::<AlphanumMessage>::empty()
            &&& fx.player@ == seq![PlayerMessage::Stop]
        } else {
            fx_none(fx)
        }
    }

    open spec fn start_effects(&self, name: Seq<char>, fx: &Effects) -> bool {
        &&& fx_no_commits(fx)
        &&& fx.player@ == Seq::<PlayerMessage>::empty()
        &&& fx.display@.len() == 1
        &&& fx.display@[0] matches AlphanumMessage::Loop(t) && t@ == name
    }

    open spec fn end_effects(&self, name: Seq<char>, fx: &Effects) -> bool {
        &&& fx_no_commits(fx)
        &&& fx.player@ == Seq::<PlayerMessage>::empty()
        &&& fx.display@.len() == 1
        &&& fx.display@[0] matches AlphanumMessage::Loop(t) && t@ == "Play"@
    }

    fn init(&self) -> (fx: Effects) {
        Effects::empty()
    }

    fn button_press(&mut self, button_id: u8) -> (r: (Option<StateId>, Effects)) {
        let mut fx = Effects::empty();
        match button_id {
            0 | 1 => {
                let midi_file = if button_id == 0 {
                    self.midi_selector.incr()
                } else {
                    self.midi_selector.decr()
                };
                fx.player.push(PlayerMessage::Play(midi_file.clone()));
                (None, fx)
            },
            2 => {
                fx.player.push(PlayerMessage::Stop);
                (Some(StateId::Clock), fx)
            },
            _ => (None, fx),
        }
    }

    fn button_release(&mut self, _button_id: u8) -> (r: (Option<StateId>, Effects)) {
        (None, Effects::empty())
    }

    fn song_start(&mut self, name: String) -> (r: (Option<StateId>, Effects)) {
        let mut fx = Effects::empty();
        fx.display.push(AlphanumMessage::Loop(name));
        (None, fx)
    }

    fn song_end(&mut self, _name: String) -> (r: (Option<StateId>, Effects)) {
        let mut fx = Effects::empty();
        fx.display.push(AlphanumMessage::Loop("Play".to_owned()));
        (None, fx)
    }
}

} // verus!
