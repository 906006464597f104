use crate::app::JustStopView;
use crate::app::MessageView;
use crate::command::one_stream_across_runs;
use crate::command::one_stream_at_a_time;
use crate::command::open_after;
use crate::command::CommandView;
use crate::device::first_position_iff_listed;
use crate::device::listed;
use crate::device::DeviceInfoView;
use crate::error::CameraError;
use vstd::prelude::*;

verus! {

/// The application after a run of messages, and all the commands it gave, in order.
pub open spec fn run(state: JustStopView, messages: Seq<MessageView>) -> (JustStopView, Seq<CommandView>)
    decreases messages.len(),
{
    if messages.len() == 0 {
        (state, seq![])
    } else {
        let (next, first) = state.step(messages[0]);
        let (last, rest) = run(next, messages.skip(1));
        (last, first + rest)
    }
}

/// The messages of a user who picks one name after another.
pub open spec fn selections(names: Seq<Seq<char>>) -> Seq<MessageView> {
    names.map_values(|name: Seq<char>| MessageView::DeviceSelected(name))
}

/// Whether, through a run of messages, no stream is ever opened while another is open.
/// `open` says whether a stream is open at the start. A stream is open from the command
/// that opens it to the command that stops it, or to the report that it did not open.
pub open spec fn one_stream_throughout(state: JustStopView, open: bool, messages: Seq<MessageView>) -> bool
    decreases messages.len(),
{
    if messages.len() == 0 {
        true
    } else {
        let (next, commands) = state.step(messages[0]);
        let before = open && !(messages[0] is StreamOpenFailed);
        &&& one_stream_at_a_time(before, commands)
        &&& one_stream_throughout(next, open_after(before, commands), messages.skip(1))
    }
}

/// One message never opens a stream while another is open, and leaves a stream open only
/// where the application counts it as open. Where the application's count is right before
/// the message, and the message is no report of a failed open, it is right after it.
pub proof fn step_keeps_one_stream(state: JustStopView, open: bool, message: MessageView)
    requires
        open ==> state.stream is Open,
    ensures
        one_stream_at_a_time(open && !(message is StreamOpenFailed), state.step(message).1),
        open_after(open && !(message is StreamOpenFailed), state.step(message).1) ==> state.step(
            message,
        ).0.stream is Open,
        open == (state.stream is Open) && !(message is StreamOpenFailed) ==> open_after(
            open,
            state.step(message).1,
        ) == (state.step(message).0.stream is Open),
{
    let before = open && !(message is StreamOpenFailed);
    let commands = state.step(message).1;
    reveal_with_fuel(one_stream_at_a_time, 3);
    reveal_with_fuel(open_after, 3);
    if commands.len() > 0 {
        assert(commands.skip(1).len() == commands.len() - 1);
        if commands.len() > 1 {
            assert(commands.skip(1).skip(1).len() == 0);
            assert(commands.skip(1)[0] == commands[1]);
        }
    }
}

/// Whatever the messages and their order, at most one stream is open at any time.
pub proof fn messages_keep_one_stream(state: JustStopView, open: bool, messages: Seq<MessageView>)
    requires
        open ==> state.stream is Open,
    ensures
        one_stream_throughout(state, open, messages),
    decreases messages.len(),
{
    if messages.len() > 0 {
        let (next, commands) = state.step(messages[0]);
        let before = open && !(messages[0] is StreamOpenFailed);
        step_keeps_one_stream(state, open, messages[0]);
        messages_keep_one_stream(next, open_after(before, commands), messages.skip(1));
    }
}

/// However many devices the user picks one after another, the commands given never open a
/// stream without stopping the one opened before, and a stream is open at the end exactly
/// when the application counts it as open.
pub proof fn selections_keep_one_stream(state: JustStopView, names: Seq<Seq<char>>)
    ensures
        one_stream_at_a_time(state.stream is Open, run(state, selections(names)).1),
        open_after(state.stream is Open, run(state, selections(names)).1) == (run(
            state,
            selections(names),
        ).0.stream is Open),
    decreases names.len(),
{
    let messages = selections(names);
    if names.len() > 0 {
        let (next, first) = state.step(messages[0]);
        assert(messages[0] == MessageView::DeviceSelected(names[0]));
        assert(messages.skip(1) =~= selections(names.skip(1)));
        step_keeps_one_stream(state, state.stream is Open, messages[0]);
        selections_keep_one_stream(next, names.skip(1));
        one_stream_across_runs(state.stream is Open, first, run(next, messages.skip(1)).1);
    }
}

/// After a new listing the selection names a device of the new list or is dropped: what
/// was selected stays selected exactly when the new list names it.
pub proof fn refresh_leaves_no_dangling_selection(state: JustStopView, list: Seq<DeviceInfoView>)
    ensures
        state.refreshed(list).selection_listed(),
        state.refreshed(list).devices == list,
        state.refreshed(list).selected == (if state.selected is Some && listed(list, state.selected->0) {
            state.selected
        } else {
            None
        }),
{
}

/// No message leaves the selection on a name that the device list does not hold.
pub proof fn step_keeps_selection_listed(state: JustStopView, message: MessageView)
    requires
        state.selection_listed(),
    ensures
        state.step(message).0.selection_listed(),
{
    if let MessageView::DeviceSelected(name) = message {
        first_position_iff_listed(state.devices, name);
    }
}

/// A poll that ends in a poll error leaves the frame on display as it was.
pub proof fn failed_poll_keeps_frame(state: JustStopView, message: MessageView)
    requires
        message is FramePolled || message is FramePollFailed,
        state.step(message).0.error == Some(CameraError::FramePollError),
    ensures
        state.step(message).0.feed == state.feed,
        state.step(message).0.displayed() == state.displayed(),
{
}

/// The frame on display changes only when a polled buffer decodes.
pub proof fn only_good_polls_change_frame(state: JustStopView, message: MessageView)
    requires
        state.step(message).0.feed != state.feed,
    ensures
        message matches MessageView::FramePolled(raw) && state.feed.presented(raw) is Some
            && state.step(message).0.feed.frame == state.feed.presented(raw),
        state.step(message).0.error is None,
{
}

/// While the stream is closed the frame timer has no interval and a tick polls nothing.
pub proof fn no_ticks_while_closed(state: JustStopView)
    requires
        state.stream is Closed,
    ensures
        state.stream.interval() is None,
        state.step(MessageView::CaptureFrame) == (state, Seq::<CommandView>::empty()),
{
}

} // verus!
