//! Command: a request packaged as a value.  The remote control holds a
//! command and runs it on demand; each command drives its light to a
//! known state.

use vstd::prelude::*;

verus! {

/// The receiver: a light that is on or off.
pub struct Light {
    pub is_on: bool,
}

impl Light {
    /// A light, initially off.
    pub fn new() -> (light: Light)
        ensures
            !light.is_on,
    {
        Light { is_on: false }
    }

    /// Turns the light on.
    pub fn on(&mut self)
        ensures
            final(self).is_on,
    {
        self.is_on = true;
    }

    /// Turns the light off.
    pub fn off(&mut self)
        ensures
            !final(self).is_on,
    {
        self.is_on = false;
    }
}

/// A command: executing it leaves the receiver in a state the command
/// itself describes.
pub trait Command: Sized {
    /// The state of this command's receiver after execution.
    spec fn after(&self) -> Self;

    /// Carries the command out.
    fn execute(&mut self)
        ensures
            *final(self) == old(self).after(),
    ;
}

/// Turns its light on.
pub struct LightOnCommand {
    pub light: Light,
}

impl LightOnCommand {
    pub fn new(light: Light) -> (cmd: LightOnCommand)
        ensures
            cmd.light == light,
    {
        LightOnCommand { light }
    }
}

impl Command for LightOnCommand {
    open spec fn after(&self) -> LightOnCommand {
        LightOnCommand { light: Light { is_on: true } }
    }

    fn execute(&mut self) {
        self.light.on();
    }
}

/// Turns its light off.
pub struct LightOffCommand {
    pub light: Light,
}

impl LightOffCommand {
    pub fn new(light: Light) -> (cmd: LightOffCommand)
        ensures
            cmd.light == light,
    {
        LightOffCommand { light }
    }
}

impl Command for LightOffCommand {
    open spec fn after(&self) -> LightOffCommand {
        LightOffCommand { light: Light { is_on: false } }
    }

    fn execute(&mut self) {
        self.light.off();
    }
}

/// Any command the remote control can hold.
pub enum LightCommand {
    On(LightOnCommand),
    Off(LightOffCommand),
}

/// What a stored command becomes once executed.
pub open spec fn command_after(c: LightCommand) -> LightCommand {
    match c {
        LightCommand::On(cmd) => LightCommand::On(cmd.after()),
        LightCommand::Off(cmd) => LightCommand::Off(cmd.after()),
    }
}

/// The invoker: holds at most one command and runs it on demand.
pub struct RemoteControl {
    pub command: Option<LightCommand>,
}

impl RemoteControl {
    /// A remote control with no command set.
    pub fn new() -> (remote: RemoteControl)
        ensures
            remote.command is None,
    {
        RemoteControl { command: None }
    }

    /// Stores a command, replacing any previous one.
    pub fn set_command(&mut self, command: LightCommand)
        ensures
            final(self).command == Some(command),
    {
        self.command = Some(command);
    }

    /// Runs the stored command, reporting whether one was set; without
    /// a command, nothing changes.
    pub fn press_button(&mut self) -> (pressed: bool)
        ensures
            old(self).command is None ==> !pressed && final(self).command is None,
            old(self).command matches Some(c) ==> pressed && final(self).command == Some(
                command_after(c),
            ),
    {
        match &mut self.command {
            Some(LightCommand::On(cmd)) => {
                cmd.execute();
                true
            },
            Some(LightCommand::Off(cmd)) => {
                cmd.execute();
                true
            },
            None => false,
        }
    }
}

} // verus!
