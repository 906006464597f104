use crate::camera_feed::CameraFeed;
use crate::camera_feed::CameraFeedView;
use crate::camera_feed::CameraMessage;
use crate::camera_feed::FeedAction;
use crate::command::commands_view;
use crate::command::Command;
use crate::command::CommandView;
use crate::decode::RawFrame;
use crate::decode::RawFrameView;
use crate::device::devices_view;
use crate::device::find_device;
use crate::device::first_position;
use crate::device::first_position_iff_listed;
use crate::device::listed;
use crate::device::DeviceInfo;
use crate::device::DeviceInfoView;
use crate::error::CameraError;
use crate::frame::Frame;
use crate::frame::FrameView;
use crate::stream::StreamState;
use vstd::prelude::*;

verus! {

/// What the application is told: what the user did, that the timer ticked, and what came of
/// the commands it gave.
#[derive(Debug, PartialEq, Eq)]
pub enum Message {
    /// The frame timer ticked.
    CaptureFrame,
    /// The user picked the device of this name.
    DeviceSelected(String),
    /// The user asked for the device list anew.
    RefreshDeviceList,
    /// The backend listed these devices.
    DevicesListed(Vec<DeviceInfo>),
    /// No backend could be initialised.
    BackendUnavailable,
    /// The stream is open and delivers this many frames a second.
    StreamOpened(u32),
    /// The stream could not be opened.
    StreamOpenFailed,
    /// The stream delivered a buffer.
    FramePolled(RawFrame),
    /// The stream delivered nothing.
    FramePollFailed,
    /// The application is about to end.
    Shutdown,
}

pub enum MessageView {
    CaptureFrame,
    DeviceSelected(Seq<char>),
    RefreshDeviceList,
    DevicesListed(Seq<DeviceInfoView>),
    BackendUnavailable,
    StreamOpened(u32),
    StreamOpenFailed,
    FramePolled(RawFrameView),
    FramePollFailed,
    Shutdown,
}

impl View for Message {
    type V = MessageView;

    open spec fn view(&self) -> MessageView {
        match *self {
            Message::CaptureFrame => MessageView::CaptureFrame,
            Message::DeviceSelected(name) => MessageView::DeviceSelected(name@),
            Message::RefreshDeviceList => MessageView::RefreshDeviceList,
            Message::DevicesListed(list) => MessageView::DevicesListed(devices_view(list@)),
            Message::BackendUnavailable => MessageView::BackendUnavailable,
            Message::StreamOpened(rate) => MessageView::StreamOpened(rate),
            Message::StreamOpenFailed => MessageView::StreamOpenFailed,
            Message::FramePolled(raw) => MessageView::FramePolled(raw@),
            Message::FramePollFailed => MessageView::FramePollFailed,
            Message::Shutdown => MessageView::Shutdown,
        }
    }
}

/// The application as the contracts see it.
pub struct JustStopView {
    /// The devices of the last listing, in the backend's order.
    pub devices: Seq<DeviceInfoView>,
    /// The name of the device that the user picked.
    pub selected: Option<Seq<char>>,
    pub stream: StreamState,
    pub feed: CameraFeedView,
    /// The last failure that no success has followed.
    pub error: Option<CameraError>,
}

impl JustStopView {
    /// The selection names a device of the list.
    pub open spec fn selection_listed(self) -> bool {
        self.selected matches Some(name) ==> listed(self.devices, name)
    }

    /// The user picks `name`. A name of the list is selected and its device, the first of
    /// that name, is opened, after the open stream is stopped; any other name changes nothing.
    pub open spec fn select(self, name: Seq<char>) -> (JustStopView, Seq<CommandView>) {
        match first_position(self.devices, name) {
            Some(p) => (
                JustStopView {
                    selected: Some(name),
                    stream: StreamState::Open { frame_rate: None },
                    ..self
                },
                self.stream.select_commands(self.devices[p].index),
            ),
            None => (self, seq![]),
        }
    }

    /// The backend lists `list`. The list takes the place of the old one, and a selection
    /// that it does not name is dropped.
    pub open spec fn refreshed(self, list: Seq<DeviceInfoView>) -> JustStopView {
        JustStopView {
            devices: list,
            selected: match self.selected {
                Some(name) if listed(list, name) => Some(name),
                _ => None,
            },
            error: None,
            ..self
        }
    }

    /// No backend: there are no devices to pick from.
    pub open spec fn without_backend(self) -> JustStopView {
        JustStopView {
            devices: Seq::empty(),
            selected: None,
            error: Some(CameraError::BackendUnavailable),
            ..self
        }
    }

    /// The backend reports the stream open at `rate` frames a second.
    pub open spec fn stream_opened(self, rate: u32) -> JustStopView {
        if self.stream is Open {
            JustStopView { stream: self.stream.after_opened(rate), error: None, ..self }
        } else {
            self
        }
    }

    /// The backend reports that the stream did not open.
    pub open spec fn stream_open_failed(self) -> JustStopView {
        if self.stream is Open {
            JustStopView {
                stream: StreamState::Closed,
                error: Some(CameraError::DeviceOpenError),
                ..self
            }
        } else {
            self
        }
    }

    /// The stream delivered `raw`. A buffer that decodes becomes the current frame; one
    /// that does not leaves the current frame in place and is noted as a failed poll.
    pub open spec fn frame_polled(self, raw: RawFrameView) -> JustStopView {
        if self.stream is Open {
            match self.feed.presented(raw) {
                Some(picture) => JustStopView {
                    feed: self.feed.after(Some(picture)),
                    error: None,
                    ..self
                },
                None => JustStopView { error: Some(CameraError::FramePollError), ..self },
            }
        } else {
            self
        }
    }

    /// The stream delivered nothing: the current frame stays.
    pub open spec fn frame_poll_failed(self) -> JustStopView {
        if self.stream is Open {
            JustStopView { error: Some(CameraError::FramePollError), ..self }
        } else {
            self
        }
    }

    /// The application after a message, and the commands it gives.
    pub open spec fn step(self, message: MessageView) -> (JustStopView, Seq<CommandView>) {
        match message {
            MessageView::CaptureFrame => (
                self,
                if self.stream is Open {
                    seq![CommandView::PollFrame]
                } else {
                    seq![]
                },
            ),
            MessageView::DeviceSelected(name) => self.select(name),
            MessageView::RefreshDeviceList => (self, seq![CommandView::QueryDevices]),
            MessageView::DevicesListed(list) => (self.refreshed(list), seq![]),
            MessageView::BackendUnavailable => (self.without_backend(), seq![]),
            MessageView::StreamOpened(rate) => (self.stream_opened(rate), seq![]),
            MessageView::StreamOpenFailed => (self.stream_open_failed(), seq![]),
            MessageView::FramePolled(raw) => (self.frame_polled(raw), seq![]),
            MessageView::FramePollFailed => (self.frame_poll_failed(), seq![]),
            MessageView::Shutdown => (
                JustStopView { stream: StreamState::Closed, ..self },
                self.stream.shutdown_commands(),
            ),
        }
    }

    /// The picture in the image area: the current frame while a stream is open.
    pub open spec fn displayed(self) -> Option<FrameView> {
        if self.stream is Open {
            self.feed.frame
        } else {
            None
        }
    }
}

/// The application: the device list, the user's selection, the life of the stream, the
/// frame poller and the last error.
#[derive(Debug, PartialEq, Eq)]
pub struct JustStop {
    available_devices: Vec<DeviceInfo>,
    selected_device: Option<String>,
    stream: StreamState,
    feed: CameraFeed,
    error: Option<CameraError>,
}

impl View for JustStop {
    type V = JustStopView;

    closed spec fn view(&self) -> JustStopView {
        JustStopView {
            devices: devices_view(self.available_devices@),
            selected: match self.selected_device {
                Some(name) => Some(name@),
                None => None,
            },
            stream: self.stream,
            feed: self.feed@,
            error: self.error,
        }
    }
}

impl JustStop {
    #[verifier::type_invariant]
    spec fn well_formed(&self) -> bool {
        self@.selection_listed()
    }

    /// An application that has listed no device, selected none and opened no stream.
    pub fn new(mirror: bool) -> (app: JustStop)
        ensures
            app@ == (JustStopView {
                devices: Seq::empty(),
                selected: None,
                stream: StreamState::Closed,
                feed: CameraFeedView { frame: None, mirror },
                error: None,
            }),
    {
        let app = JustStop {
            available_devices: Vec::new(),
            selected_device: None,
            stream: StreamState::Closed,
            feed: CameraFeed::new(mirror),
            error: None,
        };
        assert(app@.devices =~= Seq::empty());
        app
    }

    /// Takes a message: moves the application on and says what the backend is to do.
    pub fn update(&mut self, message: Message) -> (commands: Vec<Command>)
        ensures
            final(self)@ == old(self)@.step(message@).0,
            commands_view(commands@) == old(self)@.step(message@).1,
            final(self)@.selection_listed(),
    {
        proof {
            use_type_invariant(&*self);
        }
        let mut commands: Vec<Command> = Vec::new();
        assert(commands_view(commands@) =~= seq![]);
        match message {
            Message::CaptureFrame => {
                if self.stream.is_open() {
                    match self.feed.update(CameraMessage::CaptureFrame) {
                        FeedAction::Capture => {
                            commands.push(Command::PollFrame);
                            assert(commands_view(commands@) =~= seq![CommandView::PollFrame]);
                        },
                        FeedAction::Present => {},
                    }
                }
            },
            Message::DeviceSelected(name) => {
                match find_device(&self.available_devices, &name) {
                    Some(p) => {
                        proof {
                            first_position_iff_listed(devices_view(self.available_devices@), name@);
                        }
                        let index = self.available_devices[p].index.clone();
                        let mut stream = self.stream;
                        commands = stream.select(index);
                        self.stream = stream;
                        self.selected_device = Some(name);
                    },
                    None => {},
                }
            },
            Message::RefreshDeviceList => {
                commands.push(Command::QueryDevices);
                assert(commands_view(commands@) =~= seq![CommandView::QueryDevices]);
            },
            Message::DevicesListed(list) => {
                let keep = match &self.selected_device {
                    Some(name) => {
                        proof {
                            first_position_iff_listed(devices_view(list@), name@);
                        }
                        find_device(&list, name).is_some()
                    },
                    None => false,
                };
                if !keep {
                    self.selected_device = None;
                }
                self.available_devices = list;
                self.error = None;
            },
            Message::BackendUnavailable => {
                self.selected_device = None;
                self.available_devices = Vec::new();
                self.error = Some(CameraError::BackendUnavailable);
                assert(devices_view(self.available_devices@) =~= Seq::empty());
            },
            Message::StreamOpened(rate) => {
                if self.stream.is_open() {
                    let mut stream = self.stream;
                    stream.opened(rate);
                    self.stream = stream;
                    self.error = None;
                }
            },
            Message::StreamOpenFailed => {
                if self.stream.is_open() {
                    let mut stream = self.stream;
                    stream.open_failed();
                    self.stream = stream;
                    self.error = Some(CameraError::DeviceOpenError);
                }
            },
            Message::FramePolled(raw) => {
                if self.stream.is_open() {
                    match self.feed.frame(&raw) {
                        Ok(picture) => {
                            let shown = self.feed.present(picture);
                            let _ = self.feed.update(CameraMessage::NewFrame(shown));
                            self.error = None;
                        },
                        Err(e) => {
                            self.error = Some(e);
                        },
                    }
                }
            },
            Message::FramePollFailed => {
                if self.stream.is_open() {
                    self.error = Some(CameraError::FramePollError);
                }
            },
            Message::Shutdown => {
                let mut stream = self.stream;
                commands = stream.shutdown();
                self.stream = stream;
            },
        }
        proof {
            use_type_invariant(&*self);
        }
        commands
    }

    /// The time between two ticks of the frame timer, in milliseconds. There is none, and
    /// so no tick, while the stream is closed or its frame rate is not known.
    pub fn subscription(&self) -> (millis: Option<u64>)
        ensures
            millis == self@.stream.interval(),
    {
        self.stream.tick_interval()
    }

    /// The period to run the frame timer at, in milliseconds: the interval between two
    /// ticks, and a millisecond where the interval is shorter than that. A timer cannot run
    /// at a period of no length.
    pub fn timer_period(&self) -> (millis: Option<u64>)
        ensures
            millis == self@.stream.period(),
    {
        self.stream.timer_period()
    }

    /// The devices of the last listing.
    pub fn devices(&self) -> (devices: &Vec<DeviceInfo>)
        ensures
            devices_view(devices@) == self@.devices,
    {
        &self.available_devices
    }

    /// The names of the devices of the last listing, in its order: the entries of the
    /// dropdown.
    pub fn device_names(&self) -> (names: Vec<String>)
        ensures
            names@.len() == self@.devices.len(),
            forall|i: int| 0 <= i < names@.len() ==> (#[trigger] names@[i])@ == self@.devices[i].name,
    {
        let mut names: Vec<String> = Vec::new();
        let mut i: usize = 0;
        while i < self.available_devices.len()
            invariant
                0 <= i <= self.available_devices.len(),
                names@.len() == i,
                forall|j: int| 0 <= j < i ==> (#[trigger] names@[j])@ == self.available_devices@[j].name@,
            decreases self.available_devices.len() - i,
        {
            names.push(self.available_devices[i].name.clone());
            i += 1;
        }
        names
    }

    /// The name that the user picked. It is the name of a device of the list.
    pub fn selected_device(&self) -> (selected: Option<&String>)
        ensures
            match selected {
                Some(name) => self@.selected == Some(name@),
                None => self@.selected is None,
            },
            self@.selection_listed(),
    {
        proof {
            use_type_invariant(self);
        }
        self.selected_device.as_ref()
    }

    pub fn stream(&self) -> (stream: StreamState)
        ensures
            stream == self@.stream,
    {
        self.stream
    }

    /// The last failure that no success has followed.
    pub fn error(&self) -> (error: Option<CameraError>)
        ensures
            error == self@.error,
    {
        self.error
    }

    /// Whether pictures are mirrored.
    pub fn mirror(&self) -> (mirror: bool)
        ensures
            mirror == self@.feed.mirror,
    {
        self.feed.mirror()
    }

    /// Turns mirroring on or off for the frames to come.
    pub fn set_mirror(&mut self, mirror: bool)
        ensures
            final(self)@ == (JustStopView {
                feed: CameraFeedView { frame: old(self)@.feed.frame, mirror },
                ..old(self)@
            }),
    {
        proof {
            use_type_invariant(&*self);
        }
        self.feed.set_mirror(mirror);
    }

    /// The picture for the image area: the last good frame while a stream is open.
    pub fn displayed_frame(&self) -> (frame: Option<&Frame>)
        ensures
            match frame {
                Some(picture) => self@.displayed() == Some(picture@),
                None => self@.displayed() is None,
            },
    {
        if self.stream.is_open() {
            self.feed.current_frame()
        } else {
            None
        }
    }
}

} // verus!
