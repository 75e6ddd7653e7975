use vstd::prelude::*;

verus! {

pub const MIB: usize = 1048576;
pub const KIB: usize = 1024;

pub const MAX_FRAME_PAYLOAD: usize = 1048576;
pub const MAX_CONTROL_PAYLOAD: usize = 262144;
pub const MAX_DECOMPRESSED_CONTROL_PAYLOAD: usize = 4194304;
pub const MAX_CHUNK_SIZE: usize = 262144;
pub const MAX_IN_FLIGHT_UPLOAD: usize = 1048576;
pub const MAX_DIRECTORY_PAGE_SIZE: usize = 500;
pub const DEFAULT_DIRECTORY_PAGE_SIZE: usize = 200;
pub const MAX_TEXT_EDIT_SIZE: usize = 5242880;

/// Size limits negotiated with clients and enforced on every frame.
#[derive(Debug, Clone, Copy, PartialEq, Eq, Structural)]
pub struct Limits {
    pub max_frame_payload: usize,
    pub max_control_payload: usize,
    pub max_decompressed_control_payload: usize,
    pub max_chunk_size: usize,
    pub max_in_flight_upload: usize,
    pub max_directory_page_size: usize,
    pub default_directory_page_size: usize,
    pub max_text_edit_size: usize,
}

impl Limits {
    /// The limits of the V1 architecture.
    pub open spec fn spec_v1() -> Limits {
        Limits {
            max_frame_payload: MAX_FRAME_PAYLOAD,
            max_control_payload: MAX_CONTROL_PAYLOAD,
            max_decompressed_control_payload: MAX_DECOMPRESSED_CONTROL_PAYLOAD,
            max_chunk_size: MAX_CHUNK_SIZE,
            max_in_flight_upload: MAX_IN_FLIGHT_UPLOAD,
            max_directory_page_size: MAX_DIRECTORY_PAGE_SIZE,
            default_directory_page_size: DEFAULT_DIRECTORY_PAGE_SIZE,
            max_text_edit_size: MAX_TEXT_EDIT_SIZE,
        }
    }
}

impl Default for Limits {
    fn default() -> (limits: Self)
        ensures
            limits == Limits::spec_v1(),
    {
        Limits {
            max_frame_payload: MAX_FRAME_PAYLOAD,
            max_control_payload: MAX_CONTROL_PAYLOAD,
            max_decompressed_control_payload: MAX_DECOMPRESSED_CONTROL_PAYLOAD,
            max_chunk_size: MAX_CHUNK_SIZE,
            max_in_flight_upload: MAX_IN_FLIGHT_UPLOAD,
            max_directory_page_size: MAX_DIRECTORY_PAGE_SIZE,
            default_directory_page_size: DEFAULT_DIRECTORY_PAGE_SIZE,
            max_text_edit_size: MAX_TEXT_EDIT_SIZE,
        }
    }
}

} // verus!
