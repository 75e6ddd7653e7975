use vstd::prelude::*;

verus! {

/// The kind of a TDRV frame, carried as a big-endian `u16` in the header.
#[derive(Debug, Clone, Copy, PartialEq, Eq, Structural)]
pub enum MessageType {
    AuthSession,
    ServerHello,
    ListDirectory,
    DirectoryList,
    GetFileMetadata,
    FileMetadata,
    ReadTextFile,
    SaveTextFile,
    TextFileContent,
    UploadBegin,
    UploadChunk,
    UploadEnd,
    UploadProgress,
    UploadError,
    DownloadRequest,
    DownloadBegin,
    DownloadChunk,
    DownloadEnd,
    RenameFile,
    MoveFile,
    CopyFile,
    MoveToTrash,
    RestoreFromTrash,
    DeletePermanently,
    ChmodFile,
    CompressZip,
    CompressTarGz,
    ExtractArchive,
    OperationStarted,
    OperationProgress,
    OperationDone,
    OperationFailed,
    PermissionDenied,
    PolicyDenied,
    FileChanged,
    Error,
    CancelOperation,
    Ping,
    Pong,
}

/// The wire code of each message type.
pub open spec fn message_type_code(m: MessageType) -> u16 {
    match m {
        MessageType::AuthSession => 0x0001u16,
        MessageType::ServerHello => 0x0002u16,
        MessageType::ListDirectory => 0x0010u16,
        MessageType::DirectoryList => 0x0011u16,
        MessageType::GetFileMetadata => 0x0020u16,
        MessageType::FileMetadata => 0x0021u16,
        MessageType::ReadTextFile => 0x0030u16,
        MessageType::SaveTextFile => 0x0031u16,
        MessageType::TextFileContent => 0x0032u16,
        MessageType::UploadBegin => 0x0100u16,
        MessageType::UploadChunk => 0x0101u16,
        MessageType::UploadEnd => 0x0102u16,
        MessageType::UploadProgress => 0x0103u16,
        MessageType::UploadError => 0x0104u16,
        MessageType::DownloadRequest => 0x0200u16,
        MessageType::DownloadBegin => 0x0201u16,
        MessageType::DownloadChunk => 0x0202u16,
        MessageType::DownloadEnd => 0x0203u16,
        MessageType::RenameFile => 0x0300u16,
        MessageType::MoveFile => 0x0301u16,
        MessageType::CopyFile => 0x0302u16,
        MessageType::MoveToTrash => 0x0303u16,
        MessageType::RestoreFromTrash => 0x0304u16,
        MessageType::DeletePermanently => 0x0305u16,
        MessageType::ChmodFile => 0x0306u16,
        MessageType::CompressZip => 0x0310u16,
        MessageType::CompressTarGz => 0x0311u16,
        MessageType::ExtractArchive => 0x0312u16,
        MessageType::OperationStarted => 0x0400u16,
        MessageType::OperationProgress => 0x0401u16,
        MessageType::OperationDone => 0x0402u16,
        MessageType::OperationFailed => 0x0403u16,
        MessageType::PermissionDenied => 0x0404u16,
        MessageType::PolicyDenied => 0x0405u16,
        MessageType::FileChanged => 0x0406u16,
        MessageType::Error => 0x0407u16,
        MessageType::CancelOperation => 0x0500u16,
        MessageType::Ping => 0x0501u16,
        MessageType::Pong => 0x0502u16,
    }
}

/// The message type a wire code stands for; codes that name no type read as `Error`.
pub open spec fn message_type_of(code: u16) -> MessageType {
    if code == 0x0001u16 {
        MessageType::AuthSession
    } else if code == 0x0002u16 {
        MessageType::ServerHello
    } else if code == 0x0010u16 {
        MessageType::ListDirectory
    } else if code == 0x0011u16 {
        MessageType::DirectoryList
    } else if code == 0x0020u16 {
        MessageType::GetFileMetadata
    } else if code == 0x0021u16 {
        MessageType::FileMetadata
    } else if code == 0x0030u16 {
        MessageType::ReadTextFile
    } else if code == 0x0031u16 {
        MessageType::SaveTextFile
    } else if code == 0x0032u16 {
        MessageType::TextFileContent
    } else if code == 0x0100u16 {
        MessageType::UploadBegin
    } else if code == 0x0101u16 {
        MessageType::UploadChunk
    } else if code == 0x0102u16 {
        MessageType::UploadEnd
    } else if code == 0x0103u16 {
        MessageType::UploadProgress
    } else if code == 0x0104u16 {
        MessageType::UploadError
    } else if code == 0x0200u16 {
        MessageType::DownloadRequest
    } else if code == 0x0201u16 {
        MessageType::DownloadBegin
    } else if code == 0x0202u16 {
        MessageType::DownloadChunk
    } else if code == 0x0203u16 {
        MessageType::DownloadEnd
    } else if code == 0x0300u16 {
        MessageType::RenameFile
    } else if code == 0x0301u16 {
        MessageType::MoveFile
    } else if code == 0x0302u16 {
        MessageType::CopyFile
    } else if code == 0x0303u16 {
        MessageType::MoveToTrash
    } else if code == 0x0304u16 {
        MessageType::RestoreFromTrash
    } else if code == 0x0305u16 {
        MessageType::DeletePermanently
    } else if code == 0x0306u16 {
        MessageType::ChmodFile
    } else if code == 0x0310u16 {
        MessageType::CompressZip
    } else if code == 0x0311u16 {
        MessageType::CompressTarGz
    } else if code == 0x0312u16 {
        MessageType::ExtractArchive
    } else if code == 0x0400u16 {
        MessageType::OperationStarted
    } else if code == 0x0401u16 {
        MessageType::OperationProgress
    } else if code == 0x0402u16 {
        MessageType::OperationDone
    } else if code == 0x0403u16 {
        MessageType::OperationFailed
    } else if code == 0x0404u16 {
        MessageType::PermissionDenied
    } else if code == 0x0405u16 {
        MessageType::PolicyDenied
    } else if code == 0x0406u16 {
        MessageType::FileChanged
    } else if code == 0x0407u16 {
        MessageType::Error
    } else if code == 0x0500u16 {
        MessageType::CancelOperation
    } else if code == 0x0501u16 {
        MessageType::Ping
    } else if code == 0x0502u16 {
        MessageType::Pong
    } else {
        MessageType::Error
    }
}

/// A wire code is known when some message type has it.
pub open spec fn is_known_message_code(code: u16) -> bool {
    message_type_code(message_type_of(code)) == code
}

/// Reading the code of a message type gives that type back.
pub proof fn lemma_message_type_code_roundtrip(m: MessageType)
    ensures
        message_type_of(message_type_code(m)) == m,
        is_known_message_code(message_type_code(m)),
{
}

impl MessageType {
    /// The wire code of this message type.
    pub fn code(self) -> (code: u16)
        ensures
            code == message_type_code(self),
    {
        match self {
            MessageType::AuthSession => 0x0001,
            MessageType::ServerHello => 0x0002,
            MessageType::ListDirectory => 0x0010,
            MessageType::DirectoryList => 0x0011,
            MessageType::GetFileMetadata => 0x0020,
            MessageType::FileMetadata => 0x0021,
            MessageType::ReadTextFile => 0x0030,
            MessageType::SaveTextFile => 0x0031,
            MessageType::TextFileContent => 0x0032,
            MessageType::UploadBegin => 0x0100,
            MessageType::UploadChunk => 0x0101,
            MessageType::UploadEnd => 0x0102,
            MessageType::UploadProgress => 0x0103,
            MessageType::UploadError => 0x0104,
            MessageType::DownloadRequest => 0x0200,
            MessageType::DownloadBegin => 0x0201,
            MessageType::DownloadChunk => 0x0202,
            MessageType::DownloadEnd => 0x0203,
            MessageType::RenameFile => 0x0300,
            MessageType::MoveFile => 0x0301,
            MessageType::CopyFile => 0x0302,
            MessageType::MoveToTrash => 0x0303,
            MessageType::RestoreFromTrash => 0x0304,
            MessageType::DeletePermanently => 0x0305,
            MessageType::ChmodFile => 0x0306,
            MessageType::CompressZip => 0x0310,
            MessageType::CompressTarGz => 0x0311,
            MessageType::ExtractArchive => 0x0312,
            MessageType::OperationStarted => 0x0400,
            MessageType::OperationProgress => 0x0401,
            MessageType::OperationDone => 0x0402,
            MessageType::OperationFailed => 0x0403,
            MessageType::PermissionDenied => 0x0404,
            MessageType::PolicyDenied => 0x0405,
            MessageType::FileChanged => 0x0406,
            MessageType::Error => 0x0407,
            MessageType::CancelOperation => 0x0500,
            MessageType::Ping => 0x0501,
            MessageType::Pong => 0x0502,
        }
    }

    /// The message type of a wire code; a code that names no type gives `Error`.
    pub fn from_code(code: u16) -> (m: MessageType)
        ensures
            m == message_type_of(code),
    {
        if code == 0x0001 {
            MessageType::AuthSession
        } else if code == 0x0002 {
            MessageType::ServerHello
        } else if code == 0x0010 {
            MessageType::ListDirectory
        } else if code == 0x0011 {
            MessageType::DirectoryList
        } else if code == 0x0020 {
            MessageType::GetFileMetadata
        } else if code == 0x0021 {
            MessageType::FileMetadata
        } else if code == 0x0030 {
            MessageType::ReadTextFile
        } else if code == 0x0031 {
            MessageType::SaveTextFile
        } else if code == 0x0032 {
            MessageType::TextFileContent
        } else if code == 0x0100 {
            MessageType::UploadBegin
        } else if code == 0x0101 {
            MessageType::UploadChunk
        } else if code == 0x0102 {
            MessageType::UploadEnd
        } else if code == 0x0103 {
            MessageType::UploadProgress
        } else if code == 0x0104 {
            MessageType::UploadError
        } else if code == 0x0200 {
            MessageType::DownloadRequest
        } else if code == 0x0201 {
            MessageType::DownloadBegin
        } else if code == 0x0202 {
            MessageType::DownloadChunk
        } else if code == 0x0203 {
            MessageType::DownloadEnd
        } else if code == 0x0300 {
            MessageType::RenameFile
        } else if code == 0x0301 {
            MessageType::MoveFile
        } else if code == 0x0302 {
            MessageType::CopyFile
        } else if code == 0x0303 {
            MessageType::MoveToTrash
        } else if code == 0x0304 {
            MessageType::RestoreFromTrash
        } else if code == 0x0305 {
            MessageType::DeletePermanently
        } else if code == 0x0306 {
            MessageType::ChmodFile
        } else if code == 0x0310 {
            MessageType::CompressZip
        } else if code == 0x0311 {
            MessageType::CompressTarGz
        } else if code == 0x0312 {
            MessageType::ExtractArchive
        } else if code == 0x0400 {
            MessageType::OperationStarted
        } else if code == 0x0401 {
            MessageType::OperationProgress
        } else if code == 0x0402 {
            MessageType::OperationDone
        } else if code == 0x0403 {
            MessageType::OperationFailed
        } else if code == 0x0404 {
            MessageType::PermissionDenied
        } else if code == 0x0405 {
            MessageType::PolicyDenied
        } else if code == 0x0406 {
            MessageType::FileChanged
        } else if code == 0x0407 {
            MessageType::Error
        } else if code == 0x0500 {
            MessageType::CancelOperation
        } else if code == 0x0501 {
            MessageType::Ping
        } else if code == 0x0502 {
            MessageType::Pong
        } else {
            MessageType::Error
        }
    }
}

impl From<u16> for MessageType {
    fn from(val: u16) -> (m: MessageType) {
        MessageType::from_code(val)
    }
}

impl vstd::std_specs::convert::FromSpecImpl<u16> for MessageType {
    open spec fn obeys_from_spec() -> bool {
        true
    }

    open spec fn from_spec(v: u16) -> MessageType {
        message_type_of(v)
    }
}

impl From<MessageType> for u16 {
    fn from(value: MessageType) -> (code: u16) {
        value.code()
    }
}

impl vstd::std_specs::convert::FromSpecImpl<MessageType> for u16 {
    open spec fn obeys_from_spec() -> bool {
        true
    }

    open spec fn from_spec(v: MessageType) -> u16 {
        message_type_code(v)
    }
}

} // verus!
