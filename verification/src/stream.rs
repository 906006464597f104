use crate::command::commands_view;
use crate::command::Command;
use crate::command::CommandView;
use crate::device::DeviceIndex;
use crate::device::DeviceIndexView;
use vstd::prelude::*;

verus! {

/// Milliseconds between two frame polls for a stream of `frame_rate` frames a second: a
/// thousand divided by the rate, in whole milliseconds. For a rate of zero it is the longest
/// time there is.
pub open spec fn interval_millis(frame_rate: u32) -> u64 {
    if frame_rate == 0 {
        u64::MAX
    } else {
        (1000int / (frame_rate as int)) as u64
    }
}

/// The interval is a second divided by the rate, short of it by less than a millisecond.
pub proof fn interval_within_a_millisecond(frame_rate: u32)
    requires
        frame_rate > 0,
    ensures
        interval_millis(frame_rate) * frame_rate <= 1000 < (interval_millis(frame_rate) + 1) * frame_rate,
{
    let r = frame_rate as int;
    let q = 1000int / r;
    vstd::arithmetic::div_mod::lemma_fundamental_div_mod(1000, r);
    let rest = 1000int % r;
    assert(0 <= rest < r);
    assert(0 <= q <= 1000) by (nonlinear_arith)
        requires
            1000 == r * q + rest,
            0 <= rest < r,
            r > 0,
    ;
    assert(q * r == r * q && (q + 1) * r == r * q + r) by (nonlinear_arith);
}

/// The timer's period is the interval for the rates up to a thousand frames a second, and a
/// millisecond for the rates above, whose interval has no length.
pub proof fn period_by_rate(frame_rate: u32)
    ensures
        (StreamState::Open { frame_rate: Some(frame_rate) }).period() == Some(
            if 0 < frame_rate <= 1000 {
                interval_millis(frame_rate)
            } else if frame_rate == 0 {
                u64::MAX
            } else {
                1u64
            },
        ),
{
    if frame_rate > 0 {
        interval_within_a_millisecond(frame_rate);
        let millis = interval_millis(frame_rate) as int;
        let rate = frame_rate as int;
        if frame_rate <= 1000 {
            assert(millis >= 1) by (nonlinear_arith)
                requires
                    1000 < (millis + 1) * rate,
                    0 < rate <= 1000,
                    millis >= 0,
            ;
        } else {
            assert(millis == 0) by (nonlinear_arith)
                requires
                    millis * rate <= 1000,
                    rate > 1000,
                    millis >= 0,
            ;
        }
    }
}

/// How long the backend is given to open a stream, in milliseconds. An open that has not
/// ended by then counts as failed.
pub const OPEN_TIMEOUT_MILLIS: u64 = 5000;

pub fn tick_interval(frame_rate: u32) -> (millis: u64)
    ensures
        millis == interval_millis(frame_rate),
{
    if frame_rate == 0 {
        u64::MAX
    } else {
        1000u64 / (frame_rate as u64)
    }
}

/// The life of the camera stream. A stream counts as open from the moment it is ordered
/// open until it is ordered closed or reported as not opened; the frame rate is known once
/// the backend has reported it.
#[derive(Clone, Copy, Debug, PartialEq, Eq)]
pub enum StreamState {
    Closed,
    Open { frame_rate: Option<u32> },
}

impl StreamState {
    /// The commands that bind the camera to another device: the open stream, if any, is
    /// stopped first.
    pub open spec fn select_commands(self, index: DeviceIndexView) -> Seq<CommandView> {
        if self is Open {
            seq![CommandView::StopStream, CommandView::OpenStream(index)]
        } else {
            seq![CommandView::OpenStream(index)]
        }
    }

    /// The state once the backend has reported the stream open at `frame_rate`.
    pub open spec fn after_opened(self, frame_rate: u32) -> StreamState {
        if self is Open {
            StreamState::Open { frame_rate: Some(frame_rate) }
        } else {
            self
        }
    }

    /// The commands that end the stream when the application shuts down.
    pub open spec fn shutdown_commands(self) -> Seq<CommandView> {
        if self is Open {
            seq![CommandView::StopStream]
        } else {
            seq![]
        }
    }

    /// The time between two ticks of the frame timer, in milliseconds; none while the stream
    /// is closed or its rate is not known.
    pub open spec fn interval(self) -> Option<u64> {
        match self {
            StreamState::Open { frame_rate: Some(rate) } => Some(interval_millis(rate)),
            _ => None,
        }
    }

    /// The period to run the frame timer at, in milliseconds: the interval, raised to a
    /// millisecond where it is shorter than that.
    pub open spec fn period(self) -> Option<u64> {
        match self.interval() {
            Some(millis) => Some(if millis < 1 { 1u64 } else { millis }),
            None => None,
        }
    }

    pub fn is_open(&self) -> (open: bool)
        ensures
            open == (*self is Open),
    {
        match self {
            StreamState::Closed => false,
            StreamState::Open { .. } => true,
        }
    }

    /// Turns to the device `index`: orders the open stream stopped, if there is one, and
    /// then the new one opened.
    pub fn select(&mut self, index: DeviceIndex) -> (commands: Vec<Command>)
        ensures
            *final(self) == (StreamState::Open { frame_rate: None }),
            commands_view(commands@) == old(self).select_commands(index@),
    {
        let mut commands: Vec<Command> = Vec::new();
        if self.is_open() {
            commands.push(Command::StopStream);
        }
        commands.push(Command::OpenStream(index));
        *self = StreamState::Open { frame_rate: None };
        assert(commands_view(commands@) =~= old(self).select_commands(index@));
        commands
    }

    /// Takes note that the backend has opened the stream and reports `frame_rate`.
    pub fn opened(&mut self, frame_rate: u32)
        ensures
            *final(self) == old(self).after_opened(frame_rate),
    {
        if self.is_open() {
            *self = StreamState::Open { frame_rate: Some(frame_rate) };
        }
    }

    /// Takes note that the backend could not open the stream: nothing is open.
    pub fn open_failed(&mut self)
        ensures
            *final(self) == StreamState::Closed,
    {
        *self = StreamState::Closed;
    }

    /// Ends the stream: orders it stopped if it is open.
    pub fn shutdown(&mut self) -> (commands: Vec<Command>)
        ensures
            *final(self) == StreamState::Closed,
            commands_view(commands@) == old(self).shutdown_commands(),
    {
        let mut commands: Vec<Command> = Vec::new();
        if self.is_open() {
            commands.push(Command::StopStream);
        }
        *self = StreamState::Closed;
        assert(commands_view(commands@) =~= old(self).shutdown_commands());
        commands
    }

    /// The period to run the frame timer at.
    pub fn timer_period(&self) -> (millis: Option<u64>)
        ensures
            millis == self.period(),
    {
        match self.tick_interval() {
            Some(millis) => Some(if millis < 1 { 1 } else { millis }),
            None => None,
        }
    }

    /// The time between two ticks of the frame timer.
    pub fn tick_interval(&self) -> (millis: Option<u64>)
        ensures
            millis == self.interval(),
    {
        match self {
            StreamState::Open { frame_rate: Some(rate) } => Some(tick_interval(*rate)),
            _ => None,
        }
    }
}

} // verus!
