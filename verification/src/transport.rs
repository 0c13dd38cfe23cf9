//! Transport abstraction: the link over which the two peers exchange
//! opaque byte frames, and two in-memory transports for tests.

use std::collections::VecDeque;
use vstd::prelude::*;
use vstd::slice::slice_to_vec;
use vstd::string::*;

verus! {

/// Why a transport operation failed.
#[derive(Debug, Clone, PartialEq)]
pub enum TransportError {
    /// The link is not open.
    NotConnected,
    /// A frame could not be sent.
    SendFailed(String),
    /// The link could not be established.
    ConnectionFailed(String),
    /// The transport was configured wrongly.
    InvalidConfig(String),
    /// The transport is already closed.
    AlreadyClosed,
}

impl TransportError {
    /// The text that `to_string` returns.
    pub open spec fn text(self) -> Seq<char> {
        match self {
            TransportError::NotConnected => "Transport not connected"@,
            TransportError::SendFailed(msg) => "Send failed: "@ + msg@,
            TransportError::ConnectionFailed(msg) => "Connection failed: "@ + msg@,
            TransportError::InvalidConfig(msg) => "Invalid configuration: "@ + msg@,
            TransportError::AlreadyClosed => "Transport already closed"@,
        }
    }

    /// The error as text for a human reader.
    pub fn to_string(&self) -> (s: String)
        ensures
            s@ == self.text(),
    {
        match self {
            TransportError::NotConnected => String::from_str("Transport not connected"),
            TransportError::SendFailed(msg) => String::from_str("Send failed: ").concat(
                msg.as_str(),
            ),
            TransportError::ConnectionFailed(msg) => String::from_str("Connection failed: ").concat(
                msg.as_str(),
            ),
            TransportError::InvalidConfig(msg) => String::from_str(
                "Invalid configuration: ",
            ).concat(msg.as_str()),
            TransportError::AlreadyClosed => String::from_str("Transport already closed"),
        }
    }
}

/// A link that sends and receives byte frames. An implementation may say
/// what its `is_open` and `status` answer and what its `send` does by
/// defining `may_report_open`, `may_report_status` and `send_effect`; one
/// that defines none of them promises nothing.
pub trait Transport: Sized {
    /// Whether `is_open` may give `answer` on this transport.
    open spec fn may_report_open(&self, answer: bool) -> bool {
        true
    }

    /// Whether `status` may give `text` on this transport.
    open spec fn may_report_status(&self, text: Seq<char>) -> bool {
        true
    }

    /// What one call of `send` may do: a relation between the transport
    /// before the call, the frame handed over, the outcome, and the
    /// transport after the call.
    open spec fn send_effect(
        &self,
        frame: Seq<u8>,
        outcome: Result<(), TransportError>,
        after: Self,
    ) -> bool {
        true
    }

    /// Sends one frame to the remote peer.
    fn send(&mut self, bytes: &[u8]) -> (outcome: Result<(), TransportError>)
        ensures
            old(self).send_effect(bytes@, outcome, *final(self)),
    ;

    /// Takes the oldest inbound frame that has not been taken yet, if any.
    fn poll_message(&mut self) -> (frame: Option<Vec<u8>>)
    ;

    /// Whether the transport is connected and ready to send.
    fn is_open(&self) -> (b: bool)
        ensures
            self.may_report_open(b),
    ;

    /// Closes the link.
    fn close(&mut self) -> (r: Result<(), TransportError>)
    ;

    /// The state of the link as text for a human reader.
    fn status(&self) -> (s: String)
        ensures
            self.may_report_status(s@),
    ;
}

/// What an in-memory transport holds.
pub struct LinkState {
    /// Whether the link is open.
    pub open: bool,
    /// Whether `send` is set to fail.
    pub failing: bool,
    /// Frames recorded as sent, oldest first.
    pub sent: Seq<Seq<u8>>,
    /// Inbound frames not yet taken, oldest first.
    pub inbox: Seq<Seq<u8>>,
}

impl LinkState {
    /// A fresh link with nothing sent or received.
    pub open spec fn fresh(open: bool) -> LinkState {
        LinkState { open, failing: false, sent: Seq::empty(), inbox: Seq::empty() }
    }

    /// The outcome of `send` on an in-memory transport: `NotConnected` on a
    /// closed link, else `SendFailed("Mock failure")` when set to fail, else
    /// success.
    pub open spec fn send_outcome(self, outcome: Result<(), TransportError>) -> bool {
        match outcome {
            Ok(_) => self.open && !self.failing,
            Err(TransportError::NotConnected) => !self.open,
            Err(TransportError::SendFailed(msg)) => self.open && self.failing && msg@
                == "Mock failure"@,
            Err(_) => false,
        }
    }
}

/// In-memory transport that checks but does not record what is sent.
pub struct MockTransport {
    is_open: bool,
    sent_messages: VecDeque<Vec<u8>>,
    received_messages: VecDeque<Vec<u8>>,
    should_fail_send: bool,
}

impl View for MockTransport {
    type V = LinkState;

    closed spec fn view(&self) -> LinkState {
        LinkState {
            open: self.is_open,
            failing: self.should_fail_send,
            sent: self.sent_messages.deep_view(),
            inbox: self.received_messages.deep_view(),
        }
    }
}

/// Takes the oldest frame of a queue.
fn pop_frame(queue: &mut VecDeque<Vec<u8>>) -> (frame: Option<Vec<u8>>)
    ensures
        match frame {
            Some(bytes) => {
                &&& old(queue).deep_view().len() > 0
                &&& bytes@ == old(queue).deep_view()[0]
                &&& final(queue).deep_view() == old(queue).deep_view().subrange(
                    1,
                    old(queue).deep_view().len() as int,
                )
            },
            None => old(queue).deep_view().len() == 0 && final(queue).deep_view() == old(
                queue,
            ).deep_view(),
        },
{
    let frame = queue.pop_front();
    proof {
        if frame is Some {
            let bytes = frame->Some_0;
            assert(bytes.deep_view() =~= bytes@);
            assert(queue.deep_view() =~~= old(queue).deep_view().subrange(
                1,
                old(queue).deep_view().len() as int,
            ));
        }
    }
    frame
}

/// Appends a frame to a queue.
fn push_frame(queue: &mut VecDeque<Vec<u8>>, bytes: Vec<u8>)
    ensures
        final(queue).deep_view() == old(queue).deep_view().push(bytes@),
{
    let ghost frame = bytes@;
    assert(bytes.deep_view() =~= frame);
    queue.push_back(bytes);
    assert(queue.deep_view() =~~= old(queue).deep_view().push(frame));
}

/// Empties a queue.
fn clear_frames(queue: &mut VecDeque<Vec<u8>>)
    ensures
        final(queue).deep_view() == Seq::<Seq<u8>>::empty(),
{
    queue.clear();
    assert(queue.deep_view() =~= Seq::<Seq<u8>>::empty());
}

impl MockTransport {
    /// A new, open transport.
    pub fn new() -> (t: MockTransport)
        ensures
            t@ == LinkState::fresh(true),
    {
        let t = MockTransport {
            is_open: true,
            sent_messages: VecDeque::new(),
            received_messages: VecDeque::new(),
            should_fail_send: false,
        };
        assert(t@.sent =~= Seq::empty() && t@.inbox =~= Seq::empty());
        t
    }

    /// A new, closed transport.
    pub fn new_closed() -> (t: MockTransport)
        ensures
            t@ == LinkState::fresh(false),
    {
        let t = MockTransport {
            is_open: false,
            sent_messages: VecDeque::new(),
            received_messages: VecDeque::new(),
            should_fail_send: false,
        };
        assert(t@.sent =~= Seq::empty() && t@.inbox =~= Seq::empty());
        t
    }

    /// Sets whether `send` fails.
    pub fn set_should_fail_send(&mut self, should_fail: bool)
        ensures
            final(self)@ == (LinkState { failing: should_fail, ..old(self)@ }),
    {
        self.should_fail_send = should_fail;
    }

    /// Simulates the arrival of a frame from the remote peer: it is queued
    /// for `poll_message`.
    pub fn receive_message(&mut self, bytes: Vec<u8>)
        ensures
            final(self)@ == (LinkState { inbox: old(self)@.inbox.push(bytes@), ..old(self)@ }),
    {
        push_frame(&mut self.received_messages, bytes);
    }

    /// The frames recorded as sent. This transport records none.
    pub fn sent_messages(&self) -> (sent: &VecDeque<Vec<u8>>)
        ensures
            sent.deep_view() == self@.sent,
    {
        &self.sent_messages
    }

    /// Takes the oldest recorded frame.
    pub fn pop_sent_message(&mut self) -> (frame: Option<Vec<u8>>)
        ensures
            match frame {
                Some(bytes) => old(self)@.sent.len() > 0 && bytes@ == old(self)@.sent[0]
                    && final(self)@ == (LinkState {
                    sent: old(self)@.sent.subrange(1, old(self)@.sent.len() as int),
                    ..old(self)@
                }),
                None => old(self)@.sent.len() == 0 && final(self)@ == old(self)@,
            },
    {
        pop_frame(&mut self.sent_messages)
    }

    /// Forgets the recorded frames.
    pub fn clear_sent_messages(&mut self)
        ensures
            final(self)@ == (LinkState { sent: Seq::empty(), ..old(self)@ }),
    {
        clear_frames(&mut self.sent_messages);
    }

    /// Sets whether the link is open.
    pub fn set_open(&mut self, is_open: bool)
        ensures
            final(self)@ == (LinkState { open: is_open, ..old(self)@ }),
    {
        self.is_open = is_open;
    }
}

impl Default for MockTransport {
    fn default() -> (t: MockTransport)
        ensures
            t@ == LinkState::fresh(true),
    {
        MockTransport::new()
    }
}

impl Transport for MockTransport {
    open spec fn may_report_open(&self, answer: bool) -> bool {
        answer == self@.open
    }

    open spec fn may_report_status(&self, text: Seq<char>) -> bool {
        text == (if self@.open {
            "Connected (Mock)"@
        } else {
            "Disconnected (Mock)"@
        })
    }

    open spec fn send_effect(
        &self,
        frame: Seq<u8>,
        outcome: Result<(), TransportError>,
        after: Self,
    ) -> bool {
        after@ == self@ && self@.send_outcome(outcome)
    }

    fn send(&mut self, _bytes: &[u8]) -> (outcome: Result<(), TransportError>) {
        if !self.is_open {
            return Err(TransportError::NotConnected);
        }
        if self.should_fail_send {
            return Err(TransportError::SendFailed(String::from_str("Mock failure")));
        }
        Ok(())
    }

    fn poll_message(&mut self) -> (frame: Option<Vec<u8>>)
        ensures
            match frame {
                Some(bytes) => old(self)@.inbox.len() > 0 && bytes@ == old(self)@.inbox[0]
                    && final(self)@ == (LinkState {
                    inbox: old(self)@.inbox.subrange(1, old(self)@.inbox.len() as int),
                    ..old(self)@
                }),
                None => old(self)@.inbox.len() == 0 && final(self)@ == old(self)@,
            },
    {
        pop_frame(&mut self.received_messages)
    }

    fn is_open(&self) -> (b: bool) {
        self.is_open
    }

    fn close(&mut self) -> (r: Result<(), TransportError>)
        ensures
            old(self)@.open ==> r is Ok && final(self)@ == (LinkState { open: false, ..old(self)@ }),
            !old(self)@.open ==> r == Err::<(), TransportError>(TransportError::AlreadyClosed)
                && final(self)@ == old(self)@,
    {
        if !self.is_open {
            return Err(TransportError::AlreadyClosed);
        }
        self.is_open = false;
        Ok(())
    }

    fn status(&self) -> (s: String) {
        if self.is_open {
            String::from_str("Connected (Mock)")
        } else {
            String::from_str("Disconnected (Mock)")
        }
    }
}

/// In-memory transport that records every frame it sends.
pub struct RecordingMockTransport {
    is_open: bool,
    sent_messages: VecDeque<Vec<u8>>,
    received_messages: VecDeque<Vec<u8>>,
    should_fail_send: bool,
}

impl View for RecordingMockTransport {
    type V = LinkState;

    closed spec fn view(&self) -> LinkState {
        LinkState {
            open: self.is_open,
            failing: self.should_fail_send,
            sent: self.sent_messages.deep_view(),
            inbox: self.received_messages.deep_view(),
        }
    }
}

impl RecordingMockTransport {
    /// A new, open transport.
    pub fn new() -> (t: RecordingMockTransport)
        ensures
            t@ == LinkState::fresh(true),
    {
        let t = RecordingMockTransport {
            is_open: true,
            sent_messages: VecDeque::new(),
            received_messages: VecDeque::new(),
            should_fail_send: false,
        };
        assert(t@.sent =~= Seq::empty() && t@.inbox =~= Seq::empty());
        t
    }

    /// A new, closed transport.
    pub fn new_closed() -> (t: RecordingMockTransport)
        ensures
            t@ == LinkState::fresh(false),
    {
        let t = RecordingMockTransport {
            is_open: false,
            sent_messages: VecDeque::new(),
            received_messages: VecDeque::new(),
            should_fail_send: false,
        };
        assert(t@.sent =~= Seq::empty() && t@.inbox =~= Seq::empty());
        t
    }

    /// Sets whether `send` fails.
    pub fn set_should_fail_send(&mut self, should_fail: bool)
        ensures
            final(self)@ == (LinkState { failing: should_fail, ..old(self)@ }),
    {
        self.should_fail_send = should_fail;
    }

    /// Simulates the arrival of a frame from the remote peer: it is queued
    /// for `poll_message`.
    pub fn receive_message(&mut self, bytes: Vec<u8>)
        ensures
            final(self)@ == (LinkState { inbox: old(self)@.inbox.push(bytes@), ..old(self)@ }),
    {
        push_frame(&mut self.received_messages, bytes);
    }

    /// A copy of the frames sent so far, oldest first.
    pub fn sent_messages(&self) -> (sent: Vec<Vec<u8>>)
        ensures
            sent.deep_view() == self@.sent,
    {
        let mut sent: Vec<Vec<u8>> = Vec::new();
        let mut i: usize = 0;
        while i < self.sent_messages.len()
            invariant
                i <= self.sent_messages@.len(),
                sent@.len() == i,
                forall|k: int| 0 <= k < i ==> (#[trigger] sent@[k])@ == self.sent_messages@[k]@,
            decreases self.sent_messages@.len() - i,
        {
            sent.push(slice_to_vec(self.sent_messages[i].as_slice()));
            i += 1;
        }
        assert(sent.deep_view() =~= self.sent_messages.deep_view());
        sent
    }

    /// Takes the oldest sent frame.
    pub fn pop_sent_message(&mut self) -> (frame: Option<Vec<u8>>)
        ensures
            match frame {
                Some(bytes) => old(self)@.sent.len() > 0 && bytes@ == old(self)@.sent[0]
                    && final(self)@ == (LinkState {
                    sent: old(self)@.sent.subrange(1, old(self)@.sent.len() as int),
                    ..old(self)@
                }),
                None => old(self)@.sent.len() == 0 && final(self)@ == old(self)@,
            },
    {
        pop_frame(&mut self.sent_messages)
    }

    /// Forgets the sent frames.
    pub fn clear_sent_messages(&mut self)
        ensures
            final(self)@ == (LinkState { sent: Seq::empty(), ..old(self)@ }),
    {
        clear_frames(&mut self.sent_messages);
    }

    /// Sets whether the link is open.
    pub fn set_open(&mut self, is_open: bool)
        ensures
            final(self)@ == (LinkState { open: is_open, ..old(self)@ }),
    {
        self.is_open = is_open;
    }
}

impl Default for RecordingMockTransport {
    fn default() -> (t: RecordingMockTransport)
        ensures
            t@ == LinkState::fresh(true),
    {
        RecordingMockTransport::new()
    }
}

impl Transport for RecordingMockTransport {
    open spec fn may_report_open(&self, answer: bool) -> bool {
        answer == self@.open
    }

    open spec fn may_report_status(&self, text: Seq<char>) -> bool {
        text == (if self@.open {
            "Connected (Recording Mock)"@
        } else {
            "Disconnected (Recording Mock)"@
        })
    }

    open spec fn send_effect(
        &self,
        frame: Seq<u8>,
        outcome: Result<(), TransportError>,
        after: Self,
    ) -> bool {
        &&& self@.send_outcome(outcome)
        &&& after@ == (if outcome is Ok {
            LinkState { sent: self@.sent.push(frame), ..self@ }
        } else {
            self@
        })
    }

    fn send(&mut self, bytes: &[u8]) -> (outcome: Result<(), TransportError>) {
        if !self.is_open {
            return Err(TransportError::NotConnected);
        }
        if self.should_fail_send {
            return Err(TransportError::SendFailed(String::from_str("Mock failure")));
        }
        push_frame(&mut self.sent_messages, slice_to_vec(bytes));
        Ok(())
    }

    fn poll_message(&mut self) -> (frame: Option<Vec<u8>>)
        ensures
            match frame {
                Some(bytes) => old(self)@.inbox.len() > 0 && bytes@ == old(self)@.inbox[0]
                    && final(self)@ == (LinkState {
                    inbox: old(self)@.inbox.subrange(1, old(self)@.inbox.len() as int),
                    ..old(self)@
                }),
                None => old(self)@.inbox.len() == 0 && final(self)@ == old(self)@,
            },
    {
        pop_frame(&mut self.received_messages)
    }

    fn is_open(&self) -> (b: bool) {
        self.is_open
    }

    fn close(&mut self) -> (r: Result<(), TransportError>)
        ensures
            old(self)@.open ==> r is Ok && final(self)@ == (LinkState { open: false, ..old(self)@ }),
            !old(self)@.open ==> r == Err::<(), TransportError>(TransportError::AlreadyClosed)
                && final(self)@ == old(self)@,
    {
        if !self.is_open {
            return Err(TransportError::AlreadyClosed);
        }
        self.is_open = false;
        Ok(())
    }

    fn status(&self) -> (s: String) {
        if self.is_open {
            String::from_str("Connected (Recording Mock)")
        } else {
            String::from_str("Disconnected (Recording Mock)")
        }
    }
}

} // verus!
