//! A session's connection: `sil` alone, `sil` with `snap/2`, or `sil` beside other protocols.

use vstd::prelude::*;
use crate::errors::SilStreamError;
use crate::eth_snap::SilSnapStream;
use crate::ethstream::SilStream;
use crate::version::SilVersion;

verus! {

/// The connection types that support the `sil` protocol, over a transport `T`.
#[derive(Debug)]
pub enum SilRlpxConnection<T> {
    /// A connection that only supports `sil`.
    SilOnly(SilStream<T>),
    /// A dedicated connection that supports `sil` and `snap/2`.
    SilSnap(SilSnapStream<T>),
    /// A connection that supports `sil` and at least one other protocol; the `sil` stream is
    /// its primary.
    Satellite(SilStream<T>),
}

impl<T> SilRlpxConnection<T> {
    /// The negotiated `sil` version.
    pub open spec fn spec_version(&self) -> SilVersion {
        match self {
            SilRlpxConnection::SilOnly(c) => c.spec_sil().spec_version(),
            SilRlpxConnection::SilSnap(c) => c.spec_sil().spec_version(),
            SilRlpxConnection::Satellite(c) => c.spec_sil().spec_version(),
        }
    }

    /// Whether block announcements are refused before decoding.
    pub open spec fn spec_rejects_block_announcements(&self) -> bool {
        match self {
            SilRlpxConnection::SilOnly(c) => c.spec_sil().spec_rejects_block_announcements(),
            SilRlpxConnection::SilSnap(c) => c.spec_sil().spec_rejects_block_announcements(),
            SilRlpxConnection::Satellite(c) => c.spec_sil().spec_rejects_block_announcements(),
        }
    }

    /// The transport of the connection.
    pub open spec fn spec_transport(&self) -> T {
        match self {
            SilRlpxConnection::SilOnly(c) => c.spec_inner(),
            SilRlpxConnection::SilSnap(c) => c.spec_conn(),
            SilRlpxConnection::Satellite(c) => c.spec_inner(),
        }
    }

    /// Returns access to the underlying transport.
    pub fn inner(&self) -> (r: &T)
        ensures
            *r == self.spec_transport(),
    {
        match self {
            SilRlpxConnection::SilOnly(c) => c.inner(),
            SilRlpxConnection::SilSnap(c) => c.inner(),
            SilRlpxConnection::Satellite(c) => c.inner(),
        }
    }

    /// Returns mutable access to the underlying transport.
    pub fn inner_mut(&mut self) -> (r: &mut T)
        ensures
            *r == old(self).spec_transport(),
            final(self).spec_transport() == *final(r),
            final(self).spec_version() == old(self).spec_version(),
    {
        match self {
            SilRlpxConnection::SilOnly(c) => c.inner_mut(),
            SilRlpxConnection::SilSnap(c) => c.inner_mut(),
            SilRlpxConnection::Satellite(c) => c.inner_mut(),
        }
    }

    /// Consumes the connection and returns the underlying transport.
    pub fn into_inner(self) -> (r: T)
        ensures
            r == self.spec_transport(),
    {
        match self {
            SilRlpxConnection::SilOnly(c) => c.into_inner(),
            SilRlpxConnection::SilSnap(c) => c.into_inner(),
            SilRlpxConnection::Satellite(c) => c.into_inner(),
        }
    }

    /// Returns the negotiated `sil` version.
    pub fn version(&self) -> (r: SilVersion)
        ensures
            r == self.spec_version(),
    {
        match self {
            SilRlpxConnection::SilOnly(c) => c.version(),
            SilRlpxConnection::SilSnap(c) => c.version(),
            SilRlpxConnection::Satellite(c) => c.version(),
        }
    }

    /// Whether `snap/2` was negotiated on this connection.
    pub fn supports_snap(&self) -> (r: bool)
        ensures
            r == (*self is SilSnap),
    {
        matches!(self, SilRlpxConnection::SilSnap(_))
    }

    /// Frames an encoded `snap/2` message (its snap-relative id first) for the wire, on a
    /// connection that negotiated `snap/2`; any other connection refuses it, so a caller never
    /// believes a request was sent when it was discarded.
    pub fn start_send_snap(&self, bytes: &mut Vec<u8>) -> (r: Result<(), SilStreamError>)
        ensures
            match *self {
                SilRlpxConnection::SilSnap(c) => {
                    let off = c.spec_snap_offset();
                    &&& old(bytes)@.len() == 0 || old(bytes)@[0] + off > 255 ==> r == Err::<
                        (),
                        SilStreamError,
                    >(SilStreamError::InvalidInput) && final(bytes)@ == old(bytes)@
                    &&& old(bytes)@.len() > 0 && old(bytes)@[0] + off <= 255 ==> r == Ok::<
                        (),
                        SilStreamError,
                    >(()) && final(bytes)@ == old(bytes)@.update(
                        0,
                        (old(bytes)@[0] + off) as u8,
                    )
                },
                _ => r == Err::<(), SilStreamError>(SilStreamError::CapabilityNotShared)
                    && final(bytes)@ == old(bytes)@,
            },
    {
        match self {
            SilRlpxConnection::SilSnap(c) => c.frame_snap(bytes),
            _ => Err(SilStreamError::CapabilityNotShared),
        }
    }

    /// Sets whether block announcements are refused before decoding, on whichever stream
    /// carries `sil`.
    pub fn set_reject_block_announcements(&mut self, reject: bool)
        ensures
            final(self).spec_rejects_block_announcements() == reject,
            final(self).spec_version() == old(self).spec_version(),
            (*final(self) is SilOnly) == (*old(self) is SilOnly),
            (*final(self) is SilSnap) == (*old(self) is SilSnap),
    {
        match self {
            SilRlpxConnection::SilOnly(c) => c.set_reject_block_announcements(reject),
            SilRlpxConnection::SilSnap(c) => c.set_reject_block_announcements(reject),
            SilRlpxConnection::Satellite(c) => c.set_reject_block_announcements(reject),
        }
    }
}

} // verus!
