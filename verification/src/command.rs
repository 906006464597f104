use crate::device::DeviceIndex;
use crate::device::DeviceIndexView;
use vstd::prelude::*;

verus! {

/// What the application asks of the camera backend. The caller carries the commands out in
/// the order given and reports what came of them with the next messages.
#[derive(Debug, PartialEq, Eq)]
pub enum Command {
    /// List the devices that are present.
    QueryDevices,
    /// Stop the stream that is open.
    StopStream,
    /// Bind a camera to this device, ask for its highest frame rate and open its stream.
    OpenStream(DeviceIndex),
    /// Take one frame from the open stream.
    PollFrame,
}

pub enum CommandView {
    QueryDevices,
    StopStream,
    OpenStream(DeviceIndexView),
    PollFrame,
}

impl View for Command {
    type V = CommandView;

    open spec fn view(&self) -> CommandView {
        match *self {
            Command::QueryDevices => CommandView::QueryDevices,
            Command::StopStream => CommandView::StopStream,
            Command::OpenStream(index) => CommandView::OpenStream(index@),
            Command::PollFrame => CommandView::PollFrame,
        }
    }
}

/// A list of commands as the contracts see it.
pub open spec fn commands_view(commands: Seq<Command>) -> Seq<CommandView> {
    commands.map_values(|c: Command| c@)
}

/// Whether carrying the commands out in order, with a stream open at the start or not as
/// `open` says, never opens a stream while another is open.
pub open spec fn one_stream_at_a_time(open: bool, commands: Seq<CommandView>) -> bool
    decreases commands.len(),
{
    if commands.len() == 0 {
        true
    } else {
        match commands[0] {
            CommandView::OpenStream(_) => !open && one_stream_at_a_time(true, commands.skip(1)),
            CommandView::StopStream => one_stream_at_a_time(false, commands.skip(1)),
            _ => one_stream_at_a_time(open, commands.skip(1)),
        }
    }
}

/// Whether a stream is open once the commands are carried out, with a stream open at the
/// start or not as `open` says.
pub open spec fn open_after(open: bool, commands: Seq<CommandView>) -> bool
    decreases commands.len(),
{
    if commands.len() == 0 {
        open
    } else {
        match commands[0] {
            CommandView::OpenStream(_) => open_after(true, commands.skip(1)),
            CommandView::StopStream => open_after(false, commands.skip(1)),
            _ => open_after(open, commands.skip(1)),
        }
    }
}

/// Two runs of commands that each keep to one stream, the second starting where the first
/// ends, keep to one stream when carried out one after the other.
pub proof fn one_stream_across_runs(open: bool, first: Seq<CommandView>, second: Seq<CommandView>)
    requires
        one_stream_at_a_time(open, first),
        one_stream_at_a_time(open_after(open, first), second),
    ensures
        one_stream_at_a_time(open, first + second),
        open_after(open, first + second) == open_after(open_after(open, first), second),
    decreases first.len(),
{
    if first.len() == 0 {
        assert(first + second =~= second);
    } else {
        let both = first + second;
        assert(both[0] == first[0]);
        assert(both.skip(1) =~= first.skip(1) + second);
        let next = match first[0] {
            CommandView::OpenStream(_) => true,
            CommandView::StopStream => false,
            _ => open,
        };
        one_stream_across_runs(next, first.skip(1), second);
    }
}

} // verus!
