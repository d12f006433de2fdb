use vstd::prelude::*;

verus! {

/// A command on a stage's control channel.
#[derive(Clone, Copy, Debug, PartialEq, Eq, Structural)]
pub enum ControlCommand {
    Play,
    Pause,
}

/// What a stage's command loop does after handling one receive on its control channel.
#[derive(Clone, Copy, Debug, PartialEq, Eq, Structural)]
pub enum GateStep {
    /// Keep serving: offer the work task if playing, and wait for the next command.
    Continue,
    /// The control channel is closed: return, ending the stage's thread.
    Exit,
}

/// The "playing" flag a stage keeps after a command.
pub open spec fn playing_after(cmd: ControlCommand) -> bool {
    cmd == ControlCommand::Play
}

/// The pause switch of one pipeline stage: work is offered to the scheduler only while
/// `playing` holds. Each stage owns its own switch and only its command loop changes it.
#[derive(Clone, Copy, Debug, PartialEq, Eq, Structural)]
pub struct PauseGate {
    pub playing: bool,
}

impl PauseGate {
    /// A pause switch as a stage starts: playing.
    pub fn new() -> (r: PauseGate)
        ensures
            r.playing,
    {
        PauseGate { playing: true }
    }

    /// Whether the stage's work task may run now.
    pub fn is_open(&self) -> (r: bool)
        ensures
            r == self.playing,
    {
        self.playing
    }

    /// Handles one receive on the control channel: `Some(cmd)` is a command, `None` means
    /// the channel is closed. A command sets the pause switch; a closed channel leaves it as it is
    /// and ends the loop.
    pub fn on_command(&mut self, received: Option<ControlCommand>) -> (r: GateStep)
        ensures
            match received {
                Some(cmd) => r == GateStep::Continue && *final(self) == gate_step(*old(self), cmd),
                None => r == GateStep::Exit && *final(self) == *old(self),
            },
    {
        match received {
            Some(ControlCommand::Play) => {
                self.playing = true;
                GateStep::Continue
            },
            Some(ControlCommand::Pause) => {
                self.playing = false;
                GateStep::Continue
            },
            None => GateStep::Exit,
        }
    }
}

/// The pause switch after one command.
pub open spec fn gate_step(g: PauseGate, cmd: ControlCommand) -> PauseGate {
    PauseGate { playing: playing_after(cmd) }
}

/// The pause switch after a sequence of commands, taken in order, none of them a closure of the
/// channel.
pub open spec fn gate_after(g: PauseGate, cmds: Seq<ControlCommand>) -> PauseGate
    decreases cmds.len(),
{
    if cmds.len() == 0 {
        g
    } else {
        gate_after(gate_step(g, cmds[0]), cmds.subrange(1, cmds.len() as int))
    }
}

/// A pause followed at once by a resume leaves a stage playing, whatever state it was in,
/// exactly as a stage that was never paused.
pub proof fn lemma_pause_play_round_trip(g: PauseGate)
    ensures
        gate_after(g, seq![ControlCommand::Pause, ControlCommand::Play]) == PauseGate::new_spec(),
{
    let cmds = seq![ControlCommand::Pause, ControlCommand::Play];
    let rest = cmds.subrange(1, 2);
    assert(rest =~= seq![ControlCommand::Play]);
    assert(rest.subrange(1, 1) =~= Seq::<ControlCommand>::empty());
    let paused = gate_step(g, ControlCommand::Pause);
    assert(gate_after(paused, rest) == gate_after(
        gate_step(paused, ControlCommand::Play),
        rest.subrange(1, 1),
    ));
    assert(gate_after(g, cmds) == gate_after(paused, rest));
}

impl PauseGate {
    pub open spec fn new_spec() -> PauseGate {
        PauseGate { playing: true }
    }
}

/// The pipeline a control command is forwarded to.
#[derive(Clone, Copy, Debug, PartialEq, Eq, Structural)]
pub enum Target {
    Video,
    Audio,
}

/// The forwarding order of a command the dispatcher receives: video first, then audio,
/// both with the same command.
pub open spec fn fan_out_spec(cmd: ControlCommand) -> Seq<(Target, ControlCommand)> {
    seq![(Target::Video, cmd), (Target::Audio, cmd)]
}

/// The sends the dispatcher makes for a command it receives, in the order it makes them.
pub fn fan_out(cmd: ControlCommand) -> (r: Vec<(Target, ControlCommand)>)
    ensures
        r@ == fan_out_spec(cmd),
{
    let r = vec![(Target::Video, cmd), (Target::Audio, cmd)];
    assert(r@ =~= fan_out_spec(cmd));
    r
}

/// Where the dispatcher sends a packet read from the container.
#[derive(Clone, Copy, Debug, PartialEq, Eq, Structural)]
pub enum Route {
    ToAudio,
    ToVideo,
    /// The packet belongs to neither selected stream and is not forwarded.
    Skip,
}

pub open spec fn route_spec(stream_index: usize, audio_index: usize, video_index: usize) -> Route {
    if stream_index == audio_index {
        Route::ToAudio
    } else if stream_index == video_index {
        Route::ToVideo
    } else {
        Route::Skip
    }
}

/// Classifies a packet by its stream index. The audio stream is checked first.
pub fn route_packet(stream_index: usize, audio_index: usize, video_index: usize) -> (r: Route)
    ensures
        r == route_spec(stream_index, audio_index, video_index),
{
    if stream_index == audio_index {
        Route::ToAudio
    } else if stream_index == video_index {
        Route::ToVideo
    } else {
        Route::Skip
    }
}

/// The caller-visible play/pause flag of the playback handle.
#[derive(Clone, Copy, Debug, PartialEq, Eq, Structural)]
pub struct PlaybackToggle {
    pub playing: bool,
}

impl PlaybackToggle {
    /// The handle's flag once playback has started: playing.
    pub fn new() -> (r: PlaybackToggle)
        ensures
            r.playing,
    {
        PlaybackToggle { playing: true }
    }

    /// Flips the flag and returns the command to send: `Pause` when it was playing,
    /// `Play` when it was paused.
    pub fn toggle_pause_playing(&mut self) -> (r: ControlCommand)
        ensures
            final(self).playing == !old(self).playing,
            r == (if old(self).playing {
                ControlCommand::Pause
            } else {
                ControlCommand::Play
            }),
            playing_after(r) == final(self).playing,
    {
        if self.playing {
            self.playing = false;
            ControlCommand::Pause
        } else {
            self.playing = true;
            ControlCommand::Play
        }
    }
}

} // verus!
