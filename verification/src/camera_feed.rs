use crate::decode::decode_frame;
use crate::decode::decoded;
use crate::decode::RawFrame;
use crate::decode::RawFrameView;
use crate::error::CameraError;
use crate::frame::Frame;
use crate::frame::FrameView;
use vstd::prelude::*;

verus! {

/// What the frame poller is told.
#[derive(Debug, PartialEq, Eq)]
pub enum CameraMessage {
    /// The timer ticked: it is time for another frame.
    CaptureFrame,
    /// A frame is ready to be shown.
    NewFrame(Frame),
}

/// What the caller of the frame poller has to do next.
#[derive(Clone, Copy, Debug, PartialEq, Eq, Structural)]
pub enum FeedAction {
    /// Take a buffer from the camera; `CameraFeed::frame` decodes it and
    /// `CameraFeed::present` makes it ready to be shown.
    Capture,
    /// Show the current frame.
    Present,
}

/// The frame poller: it keeps the last good frame and knows whether pictures are mirrored.
#[derive(Debug, PartialEq, Eq)]
pub struct CameraFeed {
    current_frame: Option<Frame>,
    mirror: bool,
}

pub struct CameraFeedView {
    pub frame: Option<FrameView>,
    pub mirror: bool,
}

impl CameraFeedView {
    /// The frame that the poller shows for a captured buffer: the decoded picture, mirrored
    /// where mirroring is on.
    pub open spec fn presented(self, raw: RawFrameView) -> Option<FrameView> {
        match decoded(raw) {
            Some(picture) => Some(if self.mirror { picture.mirrored() } else { picture }),
            None => None,
        }
    }

    /// The poller after a message: a new frame takes the place of the current one, a tick
    /// changes nothing.
    pub open spec fn after(self, frame: Option<FrameView>) -> CameraFeedView {
        match frame {
            Some(picture) => CameraFeedView { frame: Some(picture), mirror: self.mirror },
            None => self,
        }
    }
}

impl View for CameraFeed {
    type V = CameraFeedView;

    closed spec fn view(&self) -> CameraFeedView {
        CameraFeedView {
            frame: match self.current_frame {
                Some(frame) => Some(frame@),
                None => None,
            },
            mirror: self.mirror,
        }
    }
}

impl CameraFeed {
    /// A poller that has no frame yet.
    pub fn new(mirror: bool) -> (feed: CameraFeed)
        ensures
            feed@ == (CameraFeedView { frame: None, mirror }),
    {
        CameraFeed { current_frame: None, mirror }
    }

    pub fn mirror(&self) -> (mirror: bool)
        ensures
            mirror == self@.mirror,
    {
        self.mirror
    }

    /// Turns mirroring on or off for the frames to come; the current frame stays as it is.
    pub fn set_mirror(&mut self, mirror: bool)
        ensures
            final(self)@ == (CameraFeedView { frame: old(self)@.frame, mirror }),
        no_unwind
    {
        self.mirror = mirror;
    }

    /// The last good frame, if any frame has arrived.
    pub fn current_frame(&self) -> (frame: Option<&Frame>)
        ensures
            match frame {
                Some(picture) => self@.frame == Some(picture@),
                None => self@.frame is None,
            },
    {
        self.current_frame.as_ref()
    }

    /// Decodes a buffer that the camera delivered to an RGBA frame, as it is: mirroring is
    /// the step after this one.
    pub fn frame(&self, raw: &RawFrame) -> (made: Result<Frame, CameraError>)
        ensures
            match made {
                Ok(picture) => decoded(raw@) == Some(picture@),
                Err(e) => e == CameraError::FramePollError && decoded(raw@) is None,
            },
    {
        decode_frame(raw)
    }

    /// Makes a decoded picture ready to be shown: mirrors it where mirroring is on.
    pub fn present(&self, picture: Frame) -> (shown: Frame)
        ensures
            shown@ == (if self@.mirror {
                picture@.mirrored()
            } else {
                picture@
            }),
    {
        if self.mirror {
            picture.mirrored()
        } else {
            picture
        }
    }

    /// Takes a message. A tick asks the caller for a capture and leaves the poller as it
    /// is; a new frame takes the place of the current one and is to be shown.
    pub fn update(&mut self, message: CameraMessage) -> (action: FeedAction)
        ensures
            match message {
                CameraMessage::CaptureFrame => action == FeedAction::Capture && final(self)@ == old(self)@,
                CameraMessage::NewFrame(picture) => action == FeedAction::Present && final(self)@
                    == old(self)@.after(Some(picture@)),
            },
        no_unwind
    {
        match message {
            CameraMessage::CaptureFrame => FeedAction::Capture,
            CameraMessage::NewFrame(picture) => {
                self.current_frame = Some(picture);
                FeedAction::Present
            },
        }
    }
}

} // verus!
