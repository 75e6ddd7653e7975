use vstd::prelude::*;

use crate::config::{RelativePath, RootId, UserContext};
use crate::protocol::frame::RequestId;

verus! {

/// One line of the audit log.
#[derive(Debug, Clone, PartialEq, Eq)]
pub struct AuditEvent {
    pub timestamp: String,
    pub request_id: RequestId,
    pub session_id_hash: String,
    pub username: String,
    pub uid: u32,
    pub gid: u32,
    pub action: AuditAction,
    pub root_id: Option<RootId>,
    pub relative_path: Option<RelativePath>,
    pub target_relative_path: Option<RelativePath>,
    pub status: AuditStatus,
    pub reason: Option<AuditReason>,
    pub ip: Option<String>,
    pub user_agent: Option<String>,
    pub bytes_in: u64,
    pub bytes_out: u64,
}

#[derive(Debug, Clone, Copy, PartialEq, Eq, Structural)]
pub enum AuditStatus {
    Success,
    Denied,
    Failed,
}

#[derive(Debug, Clone, Copy, PartialEq, Eq, Structural)]
pub enum AuditAction {
    Login,
    Logout,
    LogoutAll,
    SessionExpired,
    WebSocketConnect,
    WebSocketDisconnect,
    WebSocketHandshake,
    WebSocketMessageRejected,
    ListDirectory,
    FileMetadata,
    FilePreview,
    Download,
    Upload,
    CreateFolder,
    Rename,
    MoveFile,
    CopyFile,
    MoveToTrash,
    RestoreFromTrash,
    FeatureDisabledAttempt,
}

#[derive(Debug, Clone, Copy, PartialEq, Eq, Structural)]
pub enum AuditReason {
    FeatureDisabled,
    PermissionDenied,
    PolicyDenied,
    PathTraversalAttempt,
    SymlinkEscapeAttempt,
    NotFound,
    InvalidCredentials,
    AccountLocked,
    AccountExpired,
    DisabledShell,
    RootLoginDisabled,
    SystemAccountDisabled,
    SessionExpired,
    HandshakeFailed,
    OperationBeforeReady,
    InvalidMessageDirection,
}

/// An event as `AuditEvent::new` makes it: the epoch as its time, no
/// session, root, paths, reason, address or agent, and no bytes counted.
pub open spec fn base_event(
    e: AuditEvent,
    request_id: RequestId,
    username: Seq<char>,
    uid: u32,
    gid: u32,
    action: AuditAction,
    status: AuditStatus,
) -> bool {
    &&& e.timestamp@ == "1970-01-01T00:00:00Z"@
    &&& e.request_id == request_id
    &&& e.session_id_hash@.len() == 0
    &&& e.username@ == username
    &&& e.uid == uid
    &&& e.gid == gid
    &&& e.action == action
    &&& e.status == status
    &&& e.ip is None
    &&& e.user_agent is None
}

/// `e` is a base event with these paths, reason and byte counts.
pub open spec fn event_is(
    e: AuditEvent,
    request_id: RequestId,
    username: Seq<char>,
    uid: u32,
    gid: u32,
    action: AuditAction,
    status: AuditStatus,
    root_id: Option<RootId>,
    relative_path: Option<RelativePath>,
    target: Option<Seq<char>>,
    reason: Option<AuditReason>,
    bytes_in: u64,
    bytes_out: u64,
) -> bool {
    &&& base_event(e, request_id, username, uid, gid, action, status)
    &&& e.root_id == root_id
    &&& e.relative_path == relative_path
    &&& match (e.target_relative_path, target) {
        (Some(t), Some(s)) => t.0@ == s,
        (None, None) => true,
        _ => false,
    }
    &&& e.reason == reason
    &&& e.bytes_in == bytes_in
    &&& e.bytes_out == bytes_out
}

impl AuditEvent {
    pub fn new(
        request_id: RequestId,
        username: &str,
        uid: u32,
        gid: u32,
        action: AuditAction,
        status: AuditStatus,
    ) -> (e: Self)
        ensures
            event_is(e, request_id, username@, uid, gid, action, status, None, None, None, None, 0, 0),
    {
        AuditEvent {
            timestamp: "1970-01-01T00:00:00Z".to_owned(),
            request_id,
            session_id_hash: String::new(),
            username: username.to_owned(),
            uid,
            gid,
            action,
            root_id: None,
            relative_path: None,
            target_relative_path: None,
            status,
            reason: None,
            ip: None,
            user_agent: None,
            bytes_in: 0,
            bytes_out: 0,
        }
    }

    pub fn login_success(request_id: RequestId, username: &str, uid: u32, gid: u32) -> (e: Self)
        ensures
            event_is(e, request_id, username@, uid, gid, AuditAction::Login, AuditStatus::Success, None, None, None, None, 0, 0),
    {
        Self::new(request_id, username, uid, gid, AuditAction::Login, AuditStatus::Success)
    }

    /// A failed login; the account is unknown, so its ids are 0.
    pub fn login_failure(request_id: RequestId, username: &str, reason: AuditReason) -> (e: Self)
        ensures
            event_is(e, request_id, username@, 0, 0, AuditAction::Login, AuditStatus::Failed, None, None, None, Some(reason), 0, 0),
    {
        let mut event = Self::new(request_id, username, 0, 0, AuditAction::Login, AuditStatus::Failed);
        event.reason = Some(reason);
        event
    }

    pub fn logout(request_id: RequestId, username: &str, uid: u32, gid: u32) -> (e: Self)
        ensures
            event_is(e, request_id, username@, uid, gid, AuditAction::Logout, AuditStatus::Success, None, None, None, None, 0, 0),
    {
        Self::new(request_id, username, uid, gid, AuditAction::Logout, AuditStatus::Success)
    }

    pub fn logout_all(request_id: RequestId, username: &str, uid: u32, gid: u32) -> (e: Self)
        ensures
            event_is(e, request_id, username@, uid, gid, AuditAction::LogoutAll, AuditStatus::Success, None, None, None, None, 0, 0),
    {
        Self::new(request_id, username, uid, gid, AuditAction::LogoutAll, AuditStatus::Success)
    }

    pub fn session_expired(request_id: RequestId, username: &str, uid: u32, gid: u32) -> (e: Self)
        ensures
            event_is(
                e,
                request_id,
                username@,
                uid,
                gid,
                AuditAction::SessionExpired,
                AuditStatus::Failed,
                None,
                None,
                None,
                Some(AuditReason::SessionExpired),
                0,
                0,
            ),
    {
        let mut event = Self::new(request_id, username, uid, gid, AuditAction::SessionExpired, AuditStatus::Failed);
        event.reason = Some(AuditReason::SessionExpired);
        event
    }

    pub fn websocket_connect(request_id: RequestId, username: &str, uid: u32, gid: u32) -> (e: Self)
        ensures
            event_is(e, request_id, username@, uid, gid, AuditAction::WebSocketConnect, AuditStatus::Success, None, None, None, None, 0, 0),
    {
        Self::new(request_id, username, uid, gid, AuditAction::WebSocketConnect, AuditStatus::Success)
    }

    pub fn websocket_disconnect(request_id: RequestId, username: &str, uid: u32, gid: u32) -> (e: Self)
        ensures
            event_is(e, request_id, username@, uid, gid, AuditAction::WebSocketDisconnect, AuditStatus::Success, None, None, None, None, 0, 0),
    {
        Self::new(request_id, username, uid, gid, AuditAction::WebSocketDisconnect, AuditStatus::Success)
    }

    pub fn websocket_handshake_success(request_id: RequestId, username: &str, uid: u32, gid: u32) -> (e: Self)
        ensures
            event_is(e, request_id, username@, uid, gid, AuditAction::WebSocketHandshake, AuditStatus::Success, None, None, None, None, 0, 0),
    {
        Self::new(request_id, username, uid, gid, AuditAction::WebSocketHandshake, AuditStatus::Success)
    }

    /// A failed handshake; the account is unknown, so its ids are 0.
    pub fn websocket_handshake_failure(request_id: RequestId, username: &str, reason: AuditReason) -> (e: Self)
        ensures
            event_is(e, request_id, username@, 0, 0, AuditAction::WebSocketHandshake, AuditStatus::Failed, None, None, None, Some(reason), 0, 0),
    {
        let mut event = Self::new(request_id, username, 0, 0, AuditAction::WebSocketHandshake, AuditStatus::Failed);
        event.reason = Some(reason);
        event
    }

    pub fn websocket_rejection(request_id: RequestId, username: &str, uid: u32, gid: u32, reason: AuditReason) -> (e: Self)
        ensures
            event_is(
                e,
                request_id,
                username@,
                uid,
                gid,
                AuditAction::WebSocketMessageRejected,
                AuditStatus::Denied,
                None,
                None,
                None,
                Some(reason),
                0,
                0,
            ),
    {
        let mut event = Self::new(request_id, username, uid, gid, AuditAction::WebSocketMessageRejected, AuditStatus::Denied);
        event.reason = Some(reason);
        event
    }

    fn for_file(
        request_id: RequestId,
        user_context: &UserContext,
        action: AuditAction,
        status: AuditStatus,
        root_id: RootId,
        relative_path: RelativePath,
        target: Option<RelativePath>,
        reason: Option<AuditReason>,
        bytes_in: u64,
        bytes_out: u64,
    ) -> (e: Self)
        ensures
            event_is(
                e,
                request_id,
                user_context.username@,
                user_context.uid,
                user_context.gid,
                action,
                status,
                Some(root_id),
                Some(relative_path),
                match target {
                    Some(t) => Some(t.0@),
                    None => None,
                },
                reason,
                bytes_in,
                bytes_out,
            ),
    {
        let mut event = Self::new(
            request_id,
            user_context.username.as_str(),
            user_context.uid,
            user_context.gid,
            action,
            status,
        );
        event.root_id = Some(root_id);
        event.relative_path = Some(relative_path);
        event.target_relative_path = target;
        event.reason = reason;
        event.bytes_in = bytes_in;
        event.bytes_out = bytes_out;
        event
    }

    pub fn file_metadata(
        request_id: RequestId,
        user_context: &UserContext,
        root_id: RootId,
        relative_path: RelativePath,
        status: AuditStatus,
        reason: Option<AuditReason>,
    ) -> (e: Self)
        ensures
            event_is(e, request_id, user_context.username@, user_context.uid, user_context.gid, AuditAction::FileMetadata, status, Some(root_id), Some(relative_path), None, reason, 0, 0),
    {
        Self::for_file(request_id, user_context, AuditAction::FileMetadata, status, root_id, relative_path, None, reason, 0, 0)
    }

    pub fn download(
        request_id: RequestId,
        user_context: &UserContext,
        root_id: RootId,
        relative_path: RelativePath,
        status: AuditStatus,
        reason: Option<AuditReason>,
        bytes_out: u64,
    ) -> (e: Self)
        ensures
            event_is(e, request_id, user_context.username@, user_context.uid, user_context.gid, AuditAction::Download, status, Some(root_id), Some(relative_path), None, reason, 0, bytes_out),
    {
        Self::for_file(request_id, user_context, AuditAction::Download, status, root_id, relative_path, None, reason, 0, bytes_out)
    }

    pub fn text_preview(
        request_id: RequestId,
        user_context: &UserContext,
        root_id: RootId,
        relative_path: RelativePath,
        status: AuditStatus,
        reason: Option<AuditReason>,
        bytes_in: u64,
    ) -> (e: Self)
        ensures
            event_is(e, request_id, user_context.username@, user_context.uid, user_context.gid, AuditAction::FilePreview, status, Some(root_id), Some(relative_path), None, reason, bytes_in, 0),
    {
        Self::for_file(request_id, user_context, AuditAction::FilePreview, status, root_id, relative_path, None, reason, bytes_in, 0)
    }

    /// A folder creation: the parent as the path, the folder's name as the
    /// target.
    pub fn create_folder(
        request_id: RequestId,
        user_context: &UserContext,
        root_id: RootId,
        parent_relative_path: RelativePath,
        folder_name: &str,
        status: AuditStatus,
        reason: Option<AuditReason>,
    ) -> (e: Self)
        ensures
            event_is(e, request_id, user_context.username@, user_context.uid, user_context.gid, AuditAction::CreateFolder, status, Some(root_id), Some(parent_relative_path), Some(folder_name@), reason, 0, 0),
    {
        Self::for_file(
            request_id,
            user_context,
            AuditAction::CreateFolder,
            status,
            root_id,
            parent_relative_path,
            Some(RelativePath::new(folder_name)),
            reason,
            0,
            0,
        )
    }

    /// A rename: the new name as the target.
    pub fn rename(
        request_id: RequestId,
        user_context: &UserContext,
        root_id: RootId,
        relative_path: RelativePath,
        new_name: &str,
        status: AuditStatus,
        reason: Option<AuditReason>,
    ) -> (e: Self)
        ensures
            event_is(e, request_id, user_context.username@, user_context.uid, user_context.gid, AuditAction::Rename, status, Some(root_id), Some(relative_path), Some(new_name@), reason, 0, 0),
    {
        Self::for_file(
            request_id,
            user_context,
            AuditAction::Rename,
            status,
            root_id,
            relative_path,
            Some(RelativePath::new(new_name)),
            reason,
            0,
            0,
        )
    }

    pub fn move_file(
        request_id: RequestId,
        user_context: &UserContext,
        root_id: RootId,
        relative_path: RelativePath,
        target_relative_path: RelativePath,
        status: AuditStatus,
        reason: Option<AuditReason>,
    ) -> (e: Self)
        ensures
            event_is(e, request_id, user_context.username@, user_context.uid, user_context.gid, AuditAction::MoveFile, status, Some(root_id), Some(relative_path), Some(target_relative_path.0@), reason, 0, 0),
    {
        Self::for_file(
            request_id,
            user_context,
            AuditAction::MoveFile,
            status,
            root_id,
            relative_path,
            Some(target_relative_path),
            reason,
            0,
            0,
        )
    }

    pub fn copy_file(
        request_id: RequestId,
        user_context: &UserContext,
        root_id: RootId,
        relative_path: RelativePath,
        target_relative_path: RelativePath,
        status: AuditStatus,
        reason: Option<AuditReason>,
    ) -> (e: Self)
        ensures
            event_is(e, request_id, user_context.username@, user_context.uid, user_context.gid, AuditAction::CopyFile, status, Some(root_id), Some(relative_path), Some(target_relative_path.0@), reason, 0, 0),
    {
        Self::for_file(
            request_id,
            user_context,
            AuditAction::CopyFile,
            status,
            root_id,
            relative_path,
            Some(target_relative_path),
            reason,
            0,
            0,
        )
    }
}

} // verus!
