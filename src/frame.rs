//! The per-connection dialogue: how many bytes a Modbus-TCP request spans,
//! and the state machine that reads a frame, has it processed under the right
//! lock, answers it, and closes the connection.

use vstd::prelude::*;

verus! {

/// Bytes read before the length of a request is known: the MBAP header
/// (transaction id, protocol id, length, unit id) and the function code.
pub const HEADER_LEN: usize = 8;

/// The largest request frame, header included.
pub const MAX_FRAME_LEN: usize = 255;

/// The big-endian 16-bit number in bytes `hi`, `lo`.
pub open spec fn be_u16(hi: u8, lo: u8) -> int {
    hi as int * 256 + lo as int
}

/// The protocol id of a header: zero for Modbus.
pub open spec fn header_protocol(h: Seq<u8>) -> int {
    be_u16(h[2], h[3])
}

/// The byte count that a header announces after its length field.
pub open spec fn header_length(h: Seq<u8>) -> int {
    be_u16(h[4], h[5])
}

/// A header that announces a frame of a size that fits a frame buffer and
/// holds at least the header itself.
pub open spec fn header_ok(h: Seq<u8>) -> bool {
    HEADER_LEN <= header_length(h) + 6 <= MAX_FRAME_LEN
}

/// Why a request could not be framed.
#[derive(Debug, Clone, Copy, PartialEq, Eq, Structural)]
pub enum FrameError {
    /// The header announces a frame too short or too long.
    Broken,
}

/// The total length of the request whose first [`HEADER_LEN`] bytes are
/// `header`: six bytes plus the header's length field. A request whose header
/// is otherwise broken still spans that many bytes, so that it can be read
/// whole and answered.
pub fn request_frame_len(header: &[u8]) -> (r: Result<usize, FrameError>)
    requires
        header@.len() == HEADER_LEN,
    ensures
        r is Ok <==> header_ok(header@),
        r is Ok ==> r->Ok_0 as int == header_length(header@) + 6,
        r is Err ==> r == Err::<usize, FrameError>(FrameError::Broken),
{
    let len: usize = (header[4] as usize) * 256 + header[5] as usize + 6;
    if len < HEADER_LEN || len > MAX_FRAME_LEN {
        Err(FrameError::Broken)
    } else {
        Ok(len)
    }
}

/// Where a connection stands between two reads.
#[derive(Debug, Clone, Copy, PartialEq, Eq, Structural)]
pub enum DialogueState {
    /// Waiting for the next request's header.
    AwaitingHeader,
    /// The header announced a frame of `len` bytes; the rest is to be read.
    AwaitingBody { len: usize },
    /// The frame is whole; `respond` says whether its answer is to be sent
    /// once it has been processed.
    Processing { respond: bool },
    /// The answer is ready to be sent.
    Responding,
    /// The connection is over.
    Closed,
}

/// What happened on a connection since the last step.
#[derive(Debug, PartialEq, Eq)]
pub enum DialogueEvent {
    /// The top of a cycle, with the shutdown flag as it was read.
    Poll { must_quit: bool },
    /// The header of a request was read whole.
    HeaderRead { header: Vec<u8> },
    /// The peer closed the connection before any byte of a header.
    EndOfStream,
    /// The rest of the frame was read.
    BodyRead,
    /// The frame was parsed: whether the banks are to be read or written,
    /// whether only read, and whether an answer is due.
    Parsed { processing_required: bool, readonly: bool, response_required: bool },
    /// The frame processor refused the frame; its exception answer is ready.
    Malformed,
    /// The banks were read or written for the frame.
    Processed,
    /// The answer was sent.
    Sent,
    /// Reading, parsing, processing or sending failed.
    Failed,
}

/// What the connection is to do next.
#[derive(Debug, Clone, Copy, PartialEq, Eq, Structural)]
pub enum DialogueAction {
    /// Read the shutdown flag and report it.
    Poll,
    /// Read exactly [`HEADER_LEN`] bytes.
    ReadHeader,
    /// Read the frame's bytes from [`HEADER_LEN`] up to `len`.
    ReadBody { len: usize },
    /// Parse the frame of `len` bytes.
    Parse { len: usize },
    /// Process the frame holding the shared lock of the banks.
    ProcessRead,
    /// Process the frame holding the exclusive lock of the banks.
    ProcessWrite,
    /// Finish the answer and send it.
    Respond,
    /// End the connection quietly.
    Close,
    /// End the connection and report the failure.
    Abort,
}

/// The next state of a connection in `state` on `event`, and what it is to
/// do. A connection leaves a cycle only at its top, on a raised shutdown flag,
/// or when the peer closed before a header; a frame that the frame processor
/// refuses is still answered, with an exception; a header whose length cannot
/// delimit a frame, a failed read or send, or an event that does not belong to
/// the state ends it with an error.
pub fn dialogue_step(state: DialogueState, event: DialogueEvent) -> (r: (DialogueState, DialogueAction))
    ensures
        state == DialogueState::Closed ==> r == (DialogueState::Closed, DialogueAction::Close),
        state != DialogueState::Closed && event == DialogueEvent::Failed
            ==> r == (DialogueState::Closed, DialogueAction::Abort),
        state == DialogueState::AwaitingHeader ==> match event {
            DialogueEvent::Poll { must_quit } => r == if must_quit {
                (DialogueState::Closed, DialogueAction::Close)
            } else {
                (DialogueState::AwaitingHeader, DialogueAction::ReadHeader)
            },
            DialogueEvent::HeaderRead { header } => r == if header@.len() == HEADER_LEN && header_ok(
                header@,
            ) {
                (
                    DialogueState::AwaitingBody { len: (header_length(header@) + 6) as usize },
                    DialogueAction::ReadBody { len: (header_length(header@) + 6) as usize },
                )
            } else {
                (DialogueState::Closed, DialogueAction::Abort)
            },
            DialogueEvent::EndOfStream => r == (DialogueState::Closed, DialogueAction::Close),
            _ => r == (DialogueState::Closed, DialogueAction::Abort),
        },
        state is AwaitingBody ==> r == if event == DialogueEvent::BodyRead {
            (
                DialogueState::Processing { respond: false },
                DialogueAction::Parse { len: state->AwaitingBody_len },
            )
        } else {
            (DialogueState::Closed, DialogueAction::Abort)
        },
        state is Processing ==> match event {
            DialogueEvent::Parsed { processing_required, readonly, response_required } => r
                == if processing_required {
                (
                    DialogueState::Processing { respond: response_required },
                    if readonly {
                        DialogueAction::ProcessRead
                    } else {
                        DialogueAction::ProcessWrite
                    },
                )
            } else if response_required {
                (DialogueState::Responding, DialogueAction::Respond)
            } else {
                (DialogueState::AwaitingHeader, DialogueAction::Poll)
            },
            DialogueEvent::Malformed => r == (DialogueState::Responding, DialogueAction::Respond),
            DialogueEvent::Processed => r == if state->Processing_respond {
                (DialogueState::Responding, DialogueAction::Respond)
            } else {
                (DialogueState::AwaitingHeader, DialogueAction::Poll)
            },
            _ => r == (DialogueState::Closed, DialogueAction::Abort),
        },
        state == DialogueState::Responding ==> r == if event == DialogueEvent::Sent {
            (DialogueState::AwaitingHeader, DialogueAction::Poll)
        } else {
            (DialogueState::Closed, DialogueAction::Abort)
        },
{
    match state {
        DialogueState::Closed => (DialogueState::Closed, DialogueAction::Close),
        DialogueState::AwaitingHeader => match event {
            DialogueEvent::Poll { must_quit } => {
                if must_quit {
                    (DialogueState::Closed, DialogueAction::Close)
                } else {
                    (DialogueState::AwaitingHeader, DialogueAction::ReadHeader)
                }
            },
            DialogueEvent::HeaderRead { header } => {
                if header.len() != HEADER_LEN {
                    return (DialogueState::Closed, DialogueAction::Abort);
                }
                match request_frame_len(header.as_slice()) {
                    Ok(len) => (DialogueState::AwaitingBody { len }, DialogueAction::ReadBody { len }),
                    Err(_) => (DialogueState::Closed, DialogueAction::Abort),
                }
            },
            DialogueEvent::EndOfStream => (DialogueState::Closed, DialogueAction::Close),
            _ => (DialogueState::Closed, DialogueAction::Abort),
        },
        DialogueState::AwaitingBody { len } => match event {
            DialogueEvent::BodyRead => (
                DialogueState::Processing { respond: false },
                DialogueAction::Parse { len },
            ),
            _ => (DialogueState::Closed, DialogueAction::Abort),
        },
        DialogueState::Processing { respond } => match event {
            DialogueEvent::Parsed { processing_required, readonly, response_required } => {
                if processing_required {
                    let action = if readonly {
                        DialogueAction::ProcessRead
                    } else {
                        DialogueAction::ProcessWrite
                    };
                    (DialogueState::Processing { respond: response_required }, action)
                } else if response_required {
                    (DialogueState::Responding, DialogueAction::Respond)
                } else {
                    (DialogueState::AwaitingHeader, DialogueAction::Poll)
                }
            },
            DialogueEvent::Malformed => (DialogueState::Responding, DialogueAction::Respond),
            DialogueEvent::Processed => {
                if respond {
                    (DialogueState::Responding, DialogueAction::Respond)
                } else {
                    (DialogueState::AwaitingHeader, DialogueAction::Poll)
                }
            },
            _ => (DialogueState::Closed, DialogueAction::Abort),
        },
        DialogueState::Responding => match event {
            DialogueEvent::Sent => (DialogueState::AwaitingHeader, DialogueAction::Poll),
            _ => (DialogueState::Closed, DialogueAction::Abort),
        },
    }
}

} // verus!
