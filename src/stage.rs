use crate::control::{fan_out, fan_out_spec, gate_step, ControlCommand, PauseGate, Target};
use vstd::prelude::*;

verus! {

/// What wakes a stage's command loop.
#[derive(Clone, Copy, Debug, PartialEq, Eq, Structural)]
pub enum StageEvent {
    /// A command arrived on the stage's control channel.
    Command(ControlCommand),
    /// The stage's control channel is closed: its owner is shutting down.
    ControlClosed,
    /// The stage's work task ran to its end (the container or the packet channel is
    /// exhausted).
    WorkFinished,
}

/// What the command loop does next.
#[derive(Debug, PartialEq, Eq)]
pub enum StageStep {
    /// Return from the loop; the stage's thread ends.
    Exit,
    /// Send these commands on, in this order, then wait for the next event.
    Continue(Vec<(Target, ControlCommand)>),
}

/// A stage after a command: the command sets its pause switch and nothing else.
pub open spec fn after_command(s: Stage, cmd: ControlCommand) -> Stage {
    Stage { gate: gate_step(s.gate, cmd), ..s }
}

/// A pause followed at once by a resume, with no packet traffic between them, brings a
/// playing stage back to exactly the state it had: it offers its work again, and its record
/// of finished work and its forwarding are untouched.
pub proof fn lemma_stage_pause_play_round_trip(s: Stage)
    requires
        s.gate.playing,
    ensures
        after_command(after_command(s, ControlCommand::Pause), ControlCommand::Play) == s,
        after_command(after_command(s, ControlCommand::Pause), ControlCommand::Play).offers_work_spec()
            == s.offers_work_spec(),
{
}

/// The one event that ends a stage's loop, in whatever state the stage is: its control
/// channel closing.
pub open spec fn ends_loop(event: StageEvent) -> bool {
    event == StageEvent::ControlClosed
}

/// The command loop of one pipeline stage: a pause switch, and whether its work task has
/// already run to its end. Work is offered only while the pause switch is open and the work is not
/// finished. A dispatcher stage also passes every command on to the two pipelines.
pub struct Stage {
    pub gate: PauseGate,
    pub work_finished: bool,
    pub forwards_commands: bool,
}

impl Stage {
    /// A decode pipeline's loop: playing, nothing finished, commands kept to itself.
    pub fn pipeline() -> (r: Stage)
        ensures
            r.gate.playing,
            !r.work_finished,
            !r.forwards_commands,
    {
        Stage { gate: PauseGate::new(), work_finished: false, forwards_commands: false }
    }

    /// The dispatcher's loop: playing, nothing finished, every command passed on.
    pub fn dispatcher() -> (r: Stage)
        ensures
            r.gate.playing,
            !r.work_finished,
            r.forwards_commands,
    {
        Stage { gate: PauseGate::new(), work_finished: false, forwards_commands: true }
    }

    pub open spec fn offers_work_spec(&self) -> bool {
        self.gate.playing && !self.work_finished
    }

    /// Whether the work task is to be polled alongside the control channel.
    pub fn offers_work(&self) -> (r: bool)
        ensures
            r == self.offers_work_spec(),
    {
        self.gate.is_open() && !self.work_finished
    }

    /// Handles one event. A command is passed on first (video, then audio) by a
    /// dispatcher, and then sets the pause switch; a closed control channel ends the loop; the end
    /// of the work is noted and the loop goes on serving commands.
    pub fn on_event(&mut self, event: StageEvent) -> (r: StageStep)
        ensures
            (r == StageStep::Exit) == ends_loop(event),
            final(self).forwards_commands == old(self).forwards_commands,
            match event {
                StageEvent::Command(cmd) => *final(self) == after_command(*old(self), cmd) && match r {
                    StageStep::Continue(sends) => sends@ == (if old(self).forwards_commands {
                        fan_out_spec(cmd)
                    } else {
                        Seq::empty()
                    }),
                    StageStep::Exit => false,
                },
                StageEvent::ControlClosed => r == StageStep::Exit && final(self).gate == old(
                    self,
                ).gate && final(self).work_finished == old(self).work_finished,
                StageEvent::WorkFinished => final(self).gate == old(self).gate
                    && final(self).work_finished && match r {
                    StageStep::Continue(sends) => sends@.len() == 0,
                    StageStep::Exit => false,
                },
            },
    {
        match event {
            StageEvent::Command(cmd) => {
                let sends = if self.forwards_commands {
                    fan_out(cmd)
                } else {
                    Vec::new()
                };
                self.gate.on_command(Some(cmd));
                StageStep::Continue(sends)
            },
            StageEvent::ControlClosed => StageStep::Exit,
            StageEvent::WorkFinished => {
                self.work_finished = true;
                StageStep::Continue(Vec::new())
            },
        }
    }
}

} // verus!
