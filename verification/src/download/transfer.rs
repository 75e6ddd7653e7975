use vstd::prelude::*;

use crate::protocol::frame::TransferId;

verus! {

/// The most bytes one helper download may carry: 64 MiB.
pub const MAX_DOWNLOAD_HELPER_BYTES: usize = 67108864;

/// How far one download has got.
#[derive(Debug, Clone, Copy, PartialEq, Eq)]
pub struct DownloadState {
    pub transfer_id: TransferId,
    pub bytes_sent: u64,
}

} // verus!
