//! The active tool and the platform commands that follow from tool changes.

use vstd::prelude::*;

verus! {

/// The tool that pointer input on the canvas is interpreted with.
#[derive(Clone, Copy, Debug, PartialEq, Eq, Structural)]
pub enum Tool {
    /// No drawing; pointer input falls through to the windows underneath.
    Mouse,
    Pen,
    Polygon,
    Text,
    Eraser,
}

/// An intent for the windowing layer to carry out.
#[derive(Clone, Copy, Debug, PartialEq, Eq, Structural)]
pub enum PlatformCommand {
    /// Switch mouse passthrough on (`true`) or off (`false`).
    SetPassthrough(bool),
    /// Start dragging the overlay window.
    StartDrag,
    /// Close the overlay window.
    Close,
}

impl Tool {
    /// Passthrough is wanted exactly while the mouse tool is active.
    pub open spec fn passthrough(self) -> bool {
        self == Tool::Mouse
    }

    /// Decides `self.passthrough()`.
    pub fn wants_passthrough(self) -> (on: bool)
        ensures
            on == self.passthrough(),
    {
        match self {
            Tool::Mouse => true,
            _ => false,
        }
    }
}

/// The command owed when the active tool changes from `from` to `to`: the new passthrough
/// setting where the change crosses between the mouse tool and any other tool, nothing where
/// both tools lie on the same side.
pub open spec fn passthrough_edge(from: Tool, to: Tool) -> Option<PlatformCommand> {
    if from.passthrough() != to.passthrough() {
        Some(PlatformCommand::SetPassthrough(to.passthrough()))
    } else {
        None
    }
}

/// Computes `passthrough_edge(from, to)`.
pub fn passthrough_command(from: Tool, to: Tool) -> (command: Option<PlatformCommand>)
    ensures
        command == passthrough_edge(from, to),
{
    let before = from.wants_passthrough();
    let after = to.wants_passthrough();
    if before != after {
        Some(PlatformCommand::SetPassthrough(after))
    } else {
        None
    }
}

/// The tool that is active after the tools of `path` were selected one after the other,
/// starting from `from`.
pub open spec fn tool_after(from: Tool, path: Seq<Tool>) -> Tool {
    if path.len() == 0 {
        from
    } else {
        path.last()
    }
}

/// The commands owed while the tools of `path` are selected one after the other, starting
/// from `from`.
pub open spec fn path_commands(from: Tool, path: Seq<Tool>) -> Seq<PlatformCommand>
    decreases path.len(),
{
    if path.len() == 0 {
        Seq::empty()
    } else {
        let before = path_commands(from, path.drop_last());
        match passthrough_edge(tool_after(from, path.drop_last()), path.last()) {
            Some(command) => before.push(command),
            None => before,
        }
    }
}

/// How many of the tool changes along `path`, starting from `from`, cross between the mouse
/// tool and another tool.
pub open spec fn crossings(from: Tool, path: Seq<Tool>) -> nat
    decreases path.len(),
{
    if path.len() == 0 {
        0
    } else {
        let before = crossings(from, path.drop_last());
        if tool_after(from, path.drop_last()).passthrough() != path.last().passthrough() {
            before + 1
        } else {
            before
        }
    }
}

/// The passthrough setting of the platform after it carried out `commands` in order,
/// starting from the setting `on`.
pub open spec fn passthrough_after(on: bool, commands: Seq<PlatformCommand>) -> bool
    decreases commands.len(),
{
    if commands.len() == 0 {
        on
    } else {
        match commands.last() {
            PlatformCommand::SetPassthrough(value) => value,
            _ => passthrough_after(on, commands.drop_last()),
        }
    }
}

/// One more tool at the end of a path adds the command of that last change, if it owes one,
/// to the commands of the path before it.
pub proof fn lemma_path_extend(from: Tool, path: Seq<Tool>, tool: Tool)
    ensures
        path_commands(from, path.push(tool)) == path_commands(from, path) + path_commands(
            tool_after(from, path),
            seq![tool],
        ),
        path_commands(from, seq![tool]) == match passthrough_edge(from, tool) {
            Some(command) => seq![command],
            None => Seq::empty(),
        },
        tool_after(from, path.push(tool)) == tool,
{
    let one = seq![tool];
    assert forall|f: Tool| path_commands(f, one) == (match passthrough_edge(f, tool) {
        Some(command) => seq![command],
        None => Seq::empty(),
    }) by {
        assert(path_commands(f, one.drop_last()) =~= Seq::<PlatformCommand>::empty());
    }
    assert(path.push(tool).drop_last() =~= path);
}

} // verus!
