//! Call metadata records exchanged as stanza attributes.

use vstd::prelude::*;
use crate::jid::JID;
use crate::jsontime::Timestamp;

verus! {

/// Basic metadata of a call event.
#[derive(Clone, Debug)]
pub struct BasicCallMeta {
    pub from: JID,
    pub timestamp: Timestamp,
    pub call_creator: JID,
    pub call_id: String,
}

/// The remote end's client platform and version.
#[derive(Clone, Debug, PartialEq, Eq)]
pub struct CallRemoteMeta {
    /// The platform of the caller's client.
    pub remote_platform: String,
    /// The version of the caller's client.
    pub remote_version: String,
}

} // verus!
