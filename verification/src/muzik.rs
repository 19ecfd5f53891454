//! The player's decisions: what each button press, dropped file and batch of samples does to its state, and what the audio device must then do.
use vstd::prelude::*;
use std::collections::VecDeque;

use crate::history::{last_n, slide_all, lemma_slide_all_is_last_n, SampleHistory};
use crate::speed::{PlaybackSpeed, speed_after_steps, lemma_speed_cycle};
use crate::theme::{MuzikTheme, VisualizationTheme, VisualizationType};

verus! {

/// The number of recent samples the visualisation shows.
pub const MAX_VISIBLE_POINTS: usize = 1024;

/// A button of the status bar.
#[derive(Clone, Copy, Debug, PartialEq, Eq, Structural)]
pub enum Button {
    Speed,
    Play,
    Pause,
    Stop,
    Settings,
}

/// What the player must do after a decision: nothing, start playing a file,
/// apply a new speed to the current playback, resume, pause, or stop and
/// drop the current playback.
#[derive(Debug, PartialEq, Eq)]
pub enum Command {
    Nothing,
    Start(String),
    SetSpeed(PlaybackSpeed),
    Resume,
    Pause,
    Stop,
}

/// A `Command` with the path of `Start` as characters.
pub enum CommandView {
    Nothing,
    Start(Seq<char>),
    SetSpeed(PlaybackSpeed),
    Resume,
    Pause,
    Stop,
}

impl View for Command {
    type V = CommandView;

    open spec fn view(&self) -> CommandView {
        match self {
            Command::Nothing => CommandView::Nothing,
            Command::Start(p) => CommandView::Start(p@),
            Command::SetSpeed(s) => CommandView::SetSpeed(*s),
            Command::Resume => CommandView::Resume,
            Command::Pause => CommandView::Pause,
            Command::Stop => CommandView::Stop,
        }
    }
}

/// The decision state of the player: what file it plays, whether it is
/// playing, at which speed, and how the window is dressed.
pub struct ControlState {
    pub input_path: Option<Seq<char>>,
    pub is_playing: bool,
    pub playback_speed: PlaybackSpeed,
    pub theme: MuzikTheme,
    pub visualisation_theme: VisualizationTheme,
    pub visualisation_type: VisualizationType,
    pub settings_modal_open: bool,
}

impl ControlState {
    /// The player only ever plays when it has a file to play.
    pub open spec fn inv(self) -> bool {
        self.is_playing ==> self.input_path is Some
    }

    /// The state at start-up: playing exactly when a file was named, at
    /// normal speed, in the nightly theme with a lavender visualisation of
    /// the first type, settings closed.
    pub open spec fn initial(input_path: Option<Seq<char>>) -> ControlState {
        ControlState {
            input_path,
            is_playing: input_path is Some,
            playback_speed: PlaybackSpeed::Normal,
            theme: MuzikTheme::Nightly,
            visualisation_theme: VisualizationTheme::Lavender,
            visualisation_type: VisualizationType::Type1,
            settings_modal_open: false,
        }
    }

    /// Starting playback: when playing with a file, the file is to be
    /// started; nothing changes until it has opened.
    pub open spec fn play_audio(self) -> (ControlState, CommandView) {
        if self.is_playing && self.input_path is Some {
            (self, CommandView::Start(self.input_path->0))
        } else {
            (self, CommandView::Nothing)
        }
    }

    /// The file has opened and plays: the speed returns to normal.
    pub open spec fn start_succeeded(self) -> ControlState {
        ControlState { playback_speed: PlaybackSpeed::Normal, ..self }
    }

    /// A file dropped on the window becomes the file to play and is started.
    pub open spec fn drop_file(self, path: Seq<char>) -> (ControlState, CommandView) {
        ControlState { input_path: Some(path), is_playing: true, ..self }.play_audio()
    }

    /// A press of a status-bar button. The speed button steps to the next
    /// speed; play, pause and stop act only while playing, stop ending the
    /// playback; the settings button opens the settings dialog.
    pub open spec fn press(self, button: Button) -> (ControlState, CommandView) {
        match button {
            Button::Speed => {
                let s = self.playback_speed.spec_next();
                (ControlState { playback_speed: s, ..self }, CommandView::SetSpeed(s))
            },
            Button::Play => {
                if self.is_playing {
                    (self, CommandView::Resume)
                } else {
                    (self, CommandView::Nothing)
                }
            },
            Button::Pause => {
                if self.is_playing {
                    (self, CommandView::Pause)
                } else {
                    (self, CommandView::Nothing)
                }
            },
            Button::Stop => {
                if self.is_playing {
                    (ControlState { is_playing: false, ..self }, CommandView::Stop)
                } else {
                    (self, CommandView::Nothing)
                }
            },
            Button::Settings => (ControlState { settings_modal_open: true, ..self }, CommandView::Nothing),
        }
    }
}

/// The player never plays without a file: this holds at start-up and every
/// decision keeps it.
pub proof fn lemma_plays_only_with_a_file(
    s: ControlState,
    start: Option<Seq<char>>,
    path: Seq<char>,
    button: Button,
)
    requires
        s.inv(),
    ensures
        ControlState::initial(start).inv(),
        s.play_audio().0.inv(),
        s.start_succeeded().inv(),
        s.drop_file(path).0.inv(),
        s.press(button).0.inv(),
{
}

/// Once stopped, the player ignores the play, pause and stop buttons until
/// a file is dropped.
pub proof fn lemma_stop_ends_playback(s: ControlState, button: Button)
    requires
        button == Button::Play || button == Button::Pause || button == Button::Stop,
    ensures
        !s.press(Button::Stop).0.is_playing,
        s.press(Button::Stop).0.press(button) == (s.press(Button::Stop).0, CommandView::Nothing),
{
}

/// A dropped file is always to be started, whatever the player was doing;
/// the speed stays as it was until the file has opened, and then returns to
/// normal.
pub proof fn lemma_drop_starts_playback(s: ControlState, path: Seq<char>)
    ensures
        s.drop_file(path).1 == CommandView::Start(path),
        s.drop_file(path).0.is_playing,
        s.drop_file(path).0.input_path == Some(path),
        s.drop_file(path).0.playback_speed == s.playback_speed,
        s.drop_file(path).0.start_succeeded().playback_speed == PlaybackSpeed::Normal,
{
}

/// Four presses of the speed button leave the player as it was, and the last
/// one sets the speed it started with.
pub proof fn lemma_speed_button_cycles(s: ControlState)
    ensures
        s.press(Button::Speed).0.press(Button::Speed).0.press(Button::Speed).0.press(
            Button::Speed,
        ).0 == s,
        s.press(Button::Speed).0.press(Button::Speed).0.press(Button::Speed).0.press(
            Button::Speed,
        ).1 == CommandView::SetSpeed(s.playback_speed),
{
    lemma_speed_cycle(s.playback_speed);
    reveal_with_fuel(speed_after_steps, 5);
}

/// A silent history is as long as the display is wide and holds only the
/// silent value.
pub proof fn lemma_silent_history<T>(silence: T)
    ensures
        silent_history(silence).len() == MAX_VISIBLE_POINTS,
        forall|i: int| 0 <= i < MAX_VISIBLE_POINTS ==> #[trigger] silent_history(silence)[i] == silence,
{
}

/// Play, pause and stop act whenever a file is playing, whatever the speed,
/// the look or the dialog: play resumes and pause pauses without changing
/// anything, stop ends the playing and changes nothing else.
pub proof fn lemma_transport_buttons_while_playing(s: ControlState)
    requires
        s.is_playing,
    ensures
        s.press(Button::Play) == (s, CommandView::Resume),
        s.press(Button::Pause) == (s, CommandView::Pause),
        s.press(Button::Stop) == (ControlState { is_playing: false, ..s }, CommandView::Stop),
{
}

/// While nothing plays, play, pause and stop change nothing and ask nothing
/// of the player.
pub proof fn lemma_transport_buttons_while_idle(s: ControlState, button: Button)
    requires
        !s.is_playing,
        button == Button::Play || button == Button::Pause || button == Button::Stop,
    ensures
        s.press(button) == (s, CommandView::Nothing),
{
}

/// The speed button always steps to the next speed, playing or not, with a
/// file or without, changes nothing else, and asks the player to apply the
/// new speed.
pub proof fn lemma_speed_button_steps(s: ControlState)
    ensures
        s.press(Button::Speed) == (
            ControlState { playback_speed: s.playback_speed.spec_next(), ..s },
            CommandView::SetSpeed(s.playback_speed.spec_next()),
        ),
{
}

/// The settings button always opens the settings dialog, playing or not,
/// and changes nothing else.
pub proof fn lemma_settings_button_opens(s: ControlState)
    ensures
        s.press(Button::Settings) == (
            ControlState { settings_modal_open: true, ..s },
            CommandView::Nothing,
        ),
{
}

/// At start-up the player holds the named file, if any, plays exactly when
/// one was named, at normal speed, and looks the same either way: nightly
/// background, lavender waveform of the first type, settings closed.
pub proof fn lemma_startup(start: Option<Seq<char>>)
    ensures
        ControlState::initial(start).input_path == start,
        ControlState::initial(start).is_playing == (start is Some),
        ControlState::initial(start).playback_speed == PlaybackSpeed::Normal,
        ControlState::initial(start).theme == MuzikTheme::Nightly,
        ControlState::initial(start).visualisation_theme == VisualizationTheme::Lavender,
        ControlState::initial(start).visualisation_type == VisualizationType::Type1,
        !ControlState::initial(start).settings_modal_open,
{
}

/// Deciding to play never changes the state; it asks for the named file to
/// be started exactly when one is named and playing.
pub proof fn lemma_play_audio_starts_the_named_file(s: ControlState)
    ensures
        s.play_audio().0 == s,
        s.is_playing && s.input_path is Some ==> s.play_audio().1 == CommandView::Start(
            s.input_path->0,
        ),
        !(s.is_playing && s.input_path is Some) ==> s.play_audio().1 == CommandView::Nothing,
{
}

/// A dropped file becomes the file, the player plays, nothing else changes,
/// and the file is to be started.
pub proof fn lemma_drop_file_result(s: ControlState, path: Seq<char>)
    ensures
        s.drop_file(path) == (
            ControlState { input_path: Some(path), is_playing: true, ..s },
            CommandView::Start(path),
        ),
{
}

/// Once the file has opened, the speed is normal and nothing else changes.
pub proof fn lemma_start_succeeded_result(s: ControlState)
    ensures
        s.start_succeeded() == (ControlState { playback_speed: PlaybackSpeed::Normal, ..s }),
{
}

/// Taking in a batch of samples while playing leaves the history as taking
/// them in one at a time, each pushing out the oldest, would.
pub proof fn lemma_update_is_sample_by_sample<T>(history: Seq<T>, batch: Seq<T>)
    requires
        history.len() == MAX_VISIBLE_POINTS,
    ensures
        last_n(history + batch, MAX_VISIBLE_POINTS as nat) == slide_all(
            history,
            MAX_VISIBLE_POINTS as nat,
            batch,
        ),
{
    lemma_slide_all_is_last_n(history, MAX_VISIBLE_POINTS as nat, batch);
}

/// The file to play and whether it is playing; it never plays without a
/// file.
struct Transport {
    input_path: Option<String>,
    is_playing: bool,
}

impl Transport {
    #[verifier::type_invariant]
    spec fn plays_a_file(self) -> bool {
        self.is_playing ==> self.input_path is Some
    }
}

/// The state of the music player apart from its audio devices: the decision
/// state and the recent samples of the signal being played, `T` being the
/// sample type and `silence` its silent value.
pub struct Muzik<T> {
    transport: Transport,
    playback_speed: PlaybackSpeed,
    sample_history: SampleHistory<T, MAX_VISIBLE_POINTS>,
    theme: MuzikTheme,
    visualisation_theme: VisualizationTheme,
    visualisation_type: VisualizationType,
    settings_modal_open: bool,
    silence: T,
}

impl<T> View for Muzik<T> {
    type V = ControlState;

    closed spec fn view(&self) -> ControlState {
        ControlState {
            input_path: match self.transport.input_path {
                Some(p) => Some(p@),
                None => None,
            },
            is_playing: self.transport.is_playing,
            playback_speed: self.playback_speed,
            theme: self.theme,
            visualisation_theme: self.visualisation_theme,
            visualisation_type: self.visualisation_type,
            settings_modal_open: self.settings_modal_open,
        }
    }
}

impl<T> Muzik<T> {
    /// The recent samples, oldest first.
    pub closed spec fn spec_history(&self) -> Seq<T> {
        self.sample_history@
    }

    /// The silent sample value.
    pub closed spec fn spec_silence(&self) -> T {
        self.silence
    }
}

/// A history of silence, as long as the visualisation is wide.
pub open spec fn silent_history<T>(silence: T) -> Seq<T> {
    Seq::new(MAX_VISIBLE_POINTS as nat, |_i: int| silence)
}

impl<T: Copy> Muzik<T> {
    /// The player at start-up, playing `input_path` if there is one; the
    /// history holds silence. The file is not opened here: the caller starts
    /// it on the command that `play_audio` then returns.
    pub fn new(input_path: Option<String>, silence: T) -> (m: Muzik<T>)
        ensures
            m@ == ControlState::initial(
                match input_path {
                    Some(p) => Some(p@),
                    None => None,
                },
            ),
            m.spec_history() == silent_history(silence),
            m.spec_history().len() == MAX_VISIBLE_POINTS,
            forall|i: int| 0 <= i < MAX_VISIBLE_POINTS ==> #[trigger] m.spec_history()[i] == silence,
            m.spec_silence() == silence,
    {
        let is_playing: bool = input_path.is_some();
        Muzik {
            transport: Transport { input_path, is_playing },
            playback_speed: PlaybackSpeed::Normal,
            sample_history: SampleHistory::new(silence),
            theme: MuzikTheme::Nightly,
            visualisation_theme: VisualizationTheme::Lavender,
            visualisation_type: VisualizationType::Type1,
            settings_modal_open: false,
            silence,
        }
    }

    /// Decides whether to start playback: when playing with a file, the
    /// file is to be started. The state is left as it is; once the file has
    /// opened, the caller reports it with `start_succeeded`.
    pub fn play_audio(&mut self) -> (c: Command)
        ensures
            (final(self)@, c@) == old(self)@.play_audio(),
            final(self).spec_history() == old(self).spec_history(),
            final(self).spec_silence() == old(self).spec_silence(),
    {
        proof {
            use_type_invariant(&self.transport);
        }
        if self.transport.is_playing {
            match &self.transport.input_path {
                Some(p) => {
                    let path = p.clone();
                    Command::Start(path)
                },
                None => Command::Nothing,
            }
        } else {
            Command::Nothing
        }
    }

    /// A file dropped on the window: it becomes the file to play, the player
    /// plays, and the file is to be started.
    pub fn drop_file(&mut self, path: String) -> (c: Command)
        ensures
            (final(self)@, c@) == old(self)@.drop_file(path@),
            c == Command::Start(path),
            final(self).spec_history() == old(self).spec_history(),
            final(self).spec_silence() == old(self).spec_silence(),
    {
        let copy = path.clone();
        self.transport = Transport { input_path: Some(path), is_playing: true };
        Command::Start(copy)
    }

    /// The file of a `Start` command has opened and plays: the speed
    /// returns to normal, and nothing else changes.
    pub fn start_succeeded(&mut self)
        ensures
            final(self)@ == old(self)@.start_succeeded(),
            final(self).spec_history() == old(self).spec_history(),
            final(self).spec_silence() == old(self).spec_silence(),
    {
        self.playback_speed = PlaybackSpeed::Normal;
    }

    /// Ends the playback: the history returns to silence and the player no
    /// longer plays; the file stays named.
    pub fn stop_audio(&mut self)
        ensures
            final(self)@ == (ControlState { is_playing: false, ..old(self)@ }),
            final(self).spec_history() == silent_history(old(self).spec_silence()),
            final(self).spec_history().len() == MAX_VISIBLE_POINTS,
            forall|i: int|
                0 <= i < MAX_VISIBLE_POINTS ==> #[trigger] final(self).spec_history()[i] == old(
                    self,
                ).spec_silence(),
            final(self).spec_silence() == old(self).spec_silence(),
    {
        self.sample_history = SampleHistory::new(self.silence);
        self.transport.is_playing = false;
    }

    /// A press of a status-bar button: the new state and the command for the
    /// player. Stopping also silences the history.
    pub fn press(&mut self, button: Button) -> (c: Command)
        ensures
            (final(self)@, c@) == old(self)@.press(button),
            final(self).spec_history() == if button == Button::Stop && old(self)@.is_playing {
                silent_history(old(self).spec_silence())
            } else {
                old(self).spec_history()
            },
            button == Button::Stop && old(self)@.is_playing ==> forall|i: int|
                0 <= i < MAX_VISIBLE_POINTS ==> #[trigger] final(self).spec_history()[i] == old(
                    self,
                ).spec_silence(),
            final(self).spec_silence() == old(self).spec_silence(),
    {
        match button {
            Button::Speed => {
                let s = self.playback_speed.next();
                self.playback_speed = s;
                Command::SetSpeed(s)
            },
            Button::Play => {
                if self.transport.is_playing {
                    Command::Resume
                } else {
                    Command::Nothing
                }
            },
            Button::Pause => {
                if self.transport.is_playing {
                    Command::Pause
                } else {
                    Command::Nothing
                }
            },
            Button::Stop => {
                if self.transport.is_playing {
                    self.stop_audio();
                    Command::Stop
                } else {
                    Command::Nothing
                }
            },
            Button::Settings => {
                self.settings_modal_open = true;
                Command::Nothing
            },
        }
    }

    /// Whether a file is playing; never without a file.
    pub fn is_playing(&self) -> (b: bool)
        ensures
            b == self@.is_playing,
            b ==> self@.input_path is Some,
    {
        proof {
            use_type_invariant(&self.transport);
        }
        self.transport.is_playing
    }

    /// The file to play, if one was named or dropped.
    pub fn input_path(&self) -> (p: Option<&String>)
        ensures
            match p {
                Some(s) => self@.input_path == Some(s@),
                None => self@.input_path is None,
            },
    {
        match &self.transport.input_path {
            Some(s) => Some(s),
            None => None,
        }
    }

    /// The playback speed.
    pub fn playback_speed(&self) -> (s: PlaybackSpeed)
        ensures
            s == self@.playback_speed,
    {
        self.playback_speed
    }

    /// The background theme.
    pub fn theme(&self) -> (t: MuzikTheme)
        ensures
            t == self@.theme,
    {
        self.theme
    }

    /// The colour of the visualisation.
    pub fn visualisation_theme(&self) -> (t: VisualizationTheme)
        ensures
            t == self@.visualisation_theme,
    {
        self.visualisation_theme
    }

    /// How the visualisation is drawn.
    pub fn visualisation_type(&self) -> (t: VisualizationType)
        ensures
            t == self@.visualisation_type,
    {
        self.visualisation_type
    }

    /// Whether the settings dialog is open.
    pub fn settings_modal_open(&self) -> (b: bool)
        ensures
            b == self@.settings_modal_open,
    {
        self.settings_modal_open
    }

    /// Selects the background theme.
    pub fn set_theme(&mut self, theme: MuzikTheme)
        ensures
            final(self)@ == (ControlState { theme, ..old(self)@ }),
            final(self).spec_history() == old(self).spec_history(),
            final(self).spec_silence() == old(self).spec_silence(),
    {
        self.theme = theme;
    }

    /// Selects the colour of the visualisation.
    pub fn set_visualisation_theme(&mut self, theme: VisualizationTheme)
        ensures
            final(self)@ == (ControlState { visualisation_theme: theme, ..old(self)@ }),
            final(self).spec_history() == old(self).spec_history(),
            final(self).spec_silence() == old(self).spec_silence(),
    {
        self.visualisation_theme = theme;
    }

    /// Selects how the visualisation is drawn.
    pub fn set_visualisation_type(&mut self, kind: VisualizationType)
        ensures
            final(self)@ == (ControlState { visualisation_type: kind, ..old(self)@ }),
            final(self).spec_history() == old(self).spec_history(),
            final(self).spec_silence() == old(self).spec_silence(),
    {
        self.visualisation_type = kind;
    }

    /// Closes the settings dialog.
    pub fn close_settings(&mut self)
        ensures
            final(self)@ == (ControlState { settings_modal_open: false, ..old(self)@ }),
            final(self).spec_history() == old(self).spec_history(),
            final(self).spec_silence() == old(self).spec_silence(),
    {
        self.settings_modal_open = false;
    }

    /// The recent samples, oldest first; there are always as many as the
    /// visualisation is wide.
    pub fn history(&self) -> (h: &VecDeque<T>)
        ensures
            h@ == self.spec_history(),
            h@.len() == MAX_VISIBLE_POINTS,
    {
        self.sample_history.samples()
    }

    /// Takes in the samples that arrived since the last frame: while
    /// playing, each is recorded in the history in order.
    pub fn update(&mut self, samples: &Vec<T>)
        ensures
            final(self)@ == old(self)@,
            final(self).spec_history() == if old(self)@.is_playing {
                last_n(old(self).spec_history() + samples@, MAX_VISIBLE_POINTS as nat)
            } else {
                old(self).spec_history()
            },
            final(self).spec_silence() == old(self).spec_silence(),
    {
        if self.transport.is_playing {
            self.sample_history.push_all(samples);
        }
    }
}

} // verus!
