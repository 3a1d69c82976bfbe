//! The `sil` stream: the transport-free checks on messages and the stream types around them.

use vstd::prelude::*;
use crate::errors::{DisconnectReason, SilHandshakeError, SilStreamError};
use crate::message::{message_id_byte, SilMessageID};
use crate::version::SilVersion;

verus! {

/// The largest `sil` message accepted by default: 10 MiB.
pub const MAX_MESSAGE_SIZE: usize = 10485760;

/// Whether a message with this first byte is a block announcement (`NewBlock` or
/// `NewBlockHashes`).
pub open spec fn is_block_announcement(id: u8) -> bool {
    id == message_id_byte(SilMessageID::NewBlock) || id == message_id_byte(
        SilMessageID::NewBlockHashes,
    )
}

/// What the screening of an inbound message decides, before the decoder sees it: too big,
/// an unwanted block announcement, or fine.
pub open spec fn screen_inbound(
    max_message_size: usize,
    reject_block_announcements: bool,
    bytes: Seq<u8>,
) -> Result<(), SilStreamError> {
    if bytes.len() > max_message_size {
        Err(SilStreamError::MessageTooBig(bytes.len() as usize))
    } else if reject_block_announcements && bytes.len() > 0 && is_block_announcement(bytes[0]) {
        Err(SilStreamError::UnsupportedMessage { message_id: bytes[0] })
    } else {
        Ok(())
    }
}

/// The `sil` protocol logic of a stream: version, size limit and whether block announcements
/// are refused.
#[derive(Debug)]
pub struct SilStreamInner {
    version: SilVersion,
    max_message_size: usize,
    reject_block_announcements: bool,
}

impl SilStreamInner {
    /// The negotiated version.
    pub closed spec fn spec_version(&self) -> SilVersion {
        self.version
    }

    /// The largest accepted message.
    pub closed spec fn spec_max_message_size(&self) -> usize {
        self.max_message_size
    }

    /// Whether block announcements are refused before decoding.
    pub closed spec fn spec_rejects_block_announcements(&self) -> bool {
        self.reject_block_announcements
    }

    /// Creates the logic for the given version, with the default size limit.
    pub fn new(version: SilVersion) -> (r: SilStreamInner)
        ensures
            r.spec_version() == version,
            r.spec_max_message_size() == MAX_MESSAGE_SIZE,
            !r.spec_rejects_block_announcements(),
    {
        SilStreamInner::with_max_message_size(version, MAX_MESSAGE_SIZE)
    }

    /// Creates the logic for the given version and size limit.
    pub fn with_max_message_size(version: SilVersion, max_message_size: usize) -> (r: SilStreamInner)
        ensures
            r.spec_version() == version,
            r.spec_max_message_size() == max_message_size,
            !r.spec_rejects_block_announcements(),
    {
        SilStreamInner { version, max_message_size, reject_block_announcements: false }
    }

    /// Returns the `sil` version.
    pub fn version(&self) -> (r: SilVersion)
        ensures
            r == self.spec_version(),
    {
        self.version
    }

    /// Returns the message size limit.
    pub fn max_message_size(&self) -> (r: usize)
        ensures
            r == self.spec_max_message_size(),
    {
        self.max_message_size
    }

    /// Sets whether `NewBlock` and `NewBlockHashes` messages are refused before decoding.
    pub fn set_reject_block_announcements(&mut self, reject: bool)
        ensures
            final(self).spec_rejects_block_announcements() == reject,
            final(self).spec_version() == old(self).spec_version(),
            final(self).spec_max_message_size() == old(self).spec_max_message_size(),
    {
        self.reject_block_announcements = reject;
    }

    /// Screens an inbound message before it is decoded: refuses a message above the size
    /// limit, and a block announcement when those are refused.
    pub fn screen_inbound(&self, bytes: &[u8]) -> (r: Result<(), SilStreamError>)
        ensures
            r == screen_inbound(
                self.spec_max_message_size(),
                self.spec_rejects_block_announcements(),
                bytes@,
            ),
    {
        if bytes.len() > self.max_message_size {
            return Err(SilStreamError::MessageTooBig(bytes.len()));
        }
        if self.reject_block_announcements && bytes.len() > 0 {
            let id = bytes[0];
            if id == SilMessageID::NewBlock.to_u8() || id == SilMessageID::NewBlockHashes.to_u8() {
                return Err(SilStreamError::UnsupportedMessage { message_id: id });
            }
        }
        Ok(())
    }

    /// Decides on an inbound message: the screening first, then what the decoder made of it
    /// (`None` where it failed); a status message after the handshake is refused.
    pub fn decode_message(&self, bytes: &[u8], decoded: Option<SilMessageID>) -> (r: Result<
        SilMessageID,
        SilStreamError,
    >)
        ensures
            match screen_inbound(
                self.spec_max_message_size(),
                self.spec_rejects_block_announcements(),
                bytes@,
            ) {
                Err(e) => r == Err::<SilMessageID, SilStreamError>(e),
                Ok(_) => match decoded {
                    None => r == Err::<SilMessageID, SilStreamError>(SilStreamError::InvalidMessage),
                    Some(SilMessageID::Status) => r == Err::<SilMessageID, SilStreamError>(
                        SilStreamError::SilHandshakeError(SilHandshakeError::StatusNotInHandshake),
                    ),
                    Some(id) => r == Ok::<SilMessageID, SilStreamError>(id),
                },
            },
    {
        self.screen_inbound(bytes)?;
        match decoded {
            None => Err(SilStreamError::InvalidMessage),
            Some(SilMessageID::Status) => Err(
                SilStreamError::SilHandshakeError(SilHandshakeError::StatusNotInHandshake),
            ),
            Some(id) => Ok(id),
        }
    }

    /// Decides whether a message may be sent after the handshake: a status message may not.
    pub fn encode_message(&self, id: SilMessageID) -> (r: Result<(), SilStreamError>)
        ensures
            r == (if id == SilMessageID::Status {
                Err::<(), SilStreamError>(
                    SilStreamError::SilHandshakeError(SilHandshakeError::StatusNotInHandshake),
                )
            } else {
                Ok::<(), SilStreamError>(())
            }),
    {
        match id {
            SilMessageID::Status => Err(
                SilStreamError::SilHandshakeError(SilHandshakeError::StatusNotInHandshake),
            ),
            _ => Ok(()),
        }
    }
}

/// A stream before the `sil` status handshake.
#[derive(Debug)]
pub struct UnauthedEthStream<S> {
    inner: S,
}

impl<S> UnauthedEthStream<S> {
    /// The wrapped stream.
    pub closed spec fn spec_inner(&self) -> S {
        self.inner
    }

    /// Wraps a stream.
    pub fn new(inner: S) -> (r: UnauthedEthStream<S>)
        ensures
            r.spec_inner() == inner,
    {
        UnauthedEthStream { inner }
    }

    /// Consumes the type and returns the wrapped stream.
    pub fn into_inner(self) -> (r: S)
        ensures
            r == self.spec_inner(),
    {
        self.inner
    }

    /// The stream after a successful handshake: the `sil` stream of our version over the same
    /// transport.
    pub fn into_authed(self, version: SilVersion) -> (r: SilStream<S>)
        ensures
            r.spec_inner() == self.spec_inner(),
            r.spec_sil().spec_version() == version,
            r.spec_sil().spec_max_message_size() == MAX_MESSAGE_SIZE,
            !r.spec_sil().spec_rejects_block_announcements(),
    {
        SilStream::new(version, self.inner)
    }
}

/// A stream of `sil` messages over a transport.
#[derive(Debug)]
pub struct SilStream<S> {
    sil: SilStreamInner,
    inner: S,
}

impl<S> SilStream<S> {
    /// The `sil` logic of the stream.
    pub closed spec fn spec_sil(&self) -> SilStreamInner {
        self.sil
    }

    /// The transport.
    pub closed spec fn spec_inner(&self) -> S {
        self.inner
    }

    /// Creates a stream over `inner`, with the default size limit.
    pub fn new(version: SilVersion, inner: S) -> (r: SilStream<S>)
        ensures
            r.spec_inner() == inner,
            r.spec_sil().spec_version() == version,
            r.spec_sil().spec_max_message_size() == MAX_MESSAGE_SIZE,
            !r.spec_sil().spec_rejects_block_announcements(),
    {
        SilStream::with_max_message_size(version, inner, MAX_MESSAGE_SIZE)
    }

    /// Creates a stream over `inner` with the given size limit.
    pub fn with_max_message_size(version: SilVersion, inner: S, max_message_size: usize) -> (r:
        SilStream<S>)
        ensures
            r.spec_inner() == inner,
            r.spec_sil().spec_version() == version,
            r.spec_sil().spec_max_message_size() == max_message_size,
            !r.spec_sil().spec_rejects_block_announcements(),
    {
        SilStream { sil: SilStreamInner::with_max_message_size(version, max_message_size), inner }
    }

    /// Returns the `sil` version.
    pub fn version(&self) -> (r: SilVersion)
        ensures
            r == self.spec_sil().spec_version(),
    {
        self.sil.version()
    }

    /// Sets whether block announcements are refused before decoding.
    pub fn set_reject_block_announcements(&mut self, reject: bool)
        ensures
            final(self).spec_sil().spec_rejects_block_announcements() == reject,
            final(self).spec_sil().spec_version() == old(self).spec_sil().spec_version(),
            final(self).spec_sil().spec_max_message_size() == old(
                self,
            ).spec_sil().spec_max_message_size(),
            final(self).spec_inner() == old(self).spec_inner(),
    {
        self.sil.set_reject_block_announcements(reject);
    }

    /// The `sil` logic of the stream.
    pub fn sil(&self) -> (r: &SilStreamInner)
        ensures
            *r == self.spec_sil(),
    {
        &self.sil
    }

    /// Returns the underlying stream.
    pub fn inner(&self) -> (r: &S)
        ensures
            *r == self.spec_inner(),
    {
        &self.inner
    }

    /// Returns mutable access to the underlying stream.
    pub fn inner_mut(&mut self) -> (r: &mut S)
        ensures
            *r == old(self).spec_inner(),
            final(self).spec_inner() == *final(r),
            final(self).spec_sil() == old(self).spec_sil(),
    {
        &mut self.inner
    }

    /// Consumes this type and returns the wrapped stream.
    pub fn into_inner(self) -> (r: S)
        ensures
            r == self.spec_inner(),
    {
        self.inner
    }

    /// Decides on sending a message: a status message after the handshake is a protocol
    /// breach, for which the peer is disconnected and the send fails.
    pub fn check_outbound(&self, id: SilMessageID) -> (r: Result<(), (SilStreamError, DisconnectReason)>)
        ensures
            id == SilMessageID::Status ==> r == Err::<(), (SilStreamError, DisconnectReason)>(
                (
                    SilStreamError::SilHandshakeError(SilHandshakeError::StatusNotInHandshake),
                    DisconnectReason::ProtocolBreach,
                ),
            ),
            id != SilMessageID::Status ==> r == Ok::<(), (SilStreamError, DisconnectReason)>(()),
    {
        match self.sil.encode_message(id) {
            Ok(()) => Ok(()),
            Err(e) => Err((e, DisconnectReason::ProtocolBreach)),
        }
    }
}

} // verus!
