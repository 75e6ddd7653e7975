//! The server's file changes (move, copy, rename, move to the trash, new
//! folder) as sequences of decisions: the server resolves paths on its own
//! filesystem and asks the helper to make the change; each call here looks
//! at what came back so far and says what to do next, or what the change
//! reports.
use vstd::prelude::*;

use crate::config::{clone_allowed_root, clone_relative_path, AllowedRoot, AppConfig, RelativePath, RootId, UserContext};
use crate::errors::TealDriveError;
use crate::fs::create_folder::{folder_authorize, folder_plan, spec_folder_plan};
use crate::fs::move_copy::{
    spec_target_name, spec_transfer_check, spec_transfer_plan, transfer_authorize, transfer_plan, transfer_target_name,
};
use crate::fs::path::{ExistingPathResolution, NewTargetResolution};
use crate::fs::rename::{rename_authorize, rename_plan, rename_target, spec_rename_check, spec_rename_plan, spec_rename_target};
use crate::fs::service::{done_answer, done_from_answer, helper_request_for, spec_helper_limits, spec_policy_allows, ErrorTable};
use crate::fs::trash::{spec_trash_check, spec_trash_plan, trash_answer, trash_authorize, trash_from_answer, trash_plan};
use crate::helper::types::{HelperCommand, HelperRequest, HelperResponse};
use crate::policy::decision::{FileOperation, PolicyEngine};
use crate::protocol::frame::{is_v4_uuid, RequestId};
use crate::protocol::payload::{
    CopyFileRequest, CreateFolderRequest, MoveFileRequest, MoveToTrashPayload, MoveToTrashRequest,
    OperationDonePayload, RenameFileRequest,
};

verus! {

/// What has come back so far in one change; `None` where it was not asked
/// yet.
#[derive(Debug, Clone, PartialEq, Eq)]
pub struct ChangeFacts {
    /// The existing path the change starts from (the entry changed, or the
    /// directory a new folder goes in), resolved inside its root without
    /// following a link.
    pub source: Option<Result<ExistingPathResolution, TealDriveError>>,
    /// The new name, resolved under its directory inside the root.
    pub target: Option<Result<NewTargetResolution, TealDriveError>>,
    /// Whether anything is already at the new name (without following a
    /// link).
    pub target_exists: Option<bool>,
    /// The id of the request sent to the helper, and its answer.
    pub answer: Option<(RequestId, Result<HelperResponse, TealDriveError>)>,
}

impl ChangeFacts {
    /// Nothing asked yet.
    pub fn new() -> (f: Self)
        ensures
            f.source is None,
            f.target is None,
            f.target_exists is None,
            f.answer is None,
    {
        ChangeFacts { source: None, target: None, target_exists: None, answer: None }
    }
}

/// The next step of a change.
#[derive(Debug)]
pub enum ChangeNext<T> {
    /// Resolve this existing path of this root, without following a link.
    ResolveSource(AllowedRoot, RelativePath),
    /// Resolve this new name under this directory of this root.
    ResolveTarget(AllowedRoot, RelativePath, String),
    /// See whether anything is at this path, without following a link.
    Exists(String),
    /// Send this request to the helper.
    AskHelper(HelperRequest),
    /// The change is over; this is what it reports.
    Done(Result<T, TealDriveError>),
}

/// `next` asks the helper for `command` on `rel` (with `target`, when
/// given, as the request's target), from `user`, under a fresh id.
pub open spec fn asks_helper<T>(
    next: ChangeNext<T>,
    user: UserContext,
    command: HelperCommand,
    root_id: RootId,
    rel: Seq<char>,
    target: Option<Seq<char>>,
    root: AllowedRoot,
    config: AppConfig,
) -> bool {
    &&& next matches ChangeNext::AskHelper(hr)
    &&& helper_request_for(
        hr,
        hr.request_id,
        user,
        command,
        root_id,
        rel,
        hr.target_relative_path,
        root,
        spec_helper_limits(config),
        None,
    )
    &&& is_v4_uuid(hr.request_id.0@)
    &&& match target {
        Some(t) => hr.target_relative_path matches Some(tp) && tp.0@ == t,
        None => hr.target_relative_path is None,
    }
}

/// `next` ends the change with the error `e`.
pub open spec fn fails_with<T>(next: ChangeNext<T>, e: TealDriveError) -> bool {
    next == ChangeNext::<T>::Done(Err(e))
}

/// The next step of a move (`copy` false) or copy: the paths validated, one
/// root, that root configured; the source resolved; the destination's name
/// and directory, resolved; whether anything is there; the checks on both
/// paths; then the helper's answer, reported.
pub open spec fn transfer_change_ok(
    next: ChangeNext<OperationDonePayload>,
    user: UserContext,
    root_id: RootId,
    source_path: Seq<char>,
    target_root_id: RootId,
    target_path: Seq<char>,
    config: AppConfig,
    engine: AppConfig,
    facts: ChangeFacts,
    copy: bool,
) -> bool {
    let (op, command, operation, message) = if copy {
        (FileOperation::CopyFile, HelperCommand::Copy, "COPY_FILE"@, "Copied."@)
    } else {
        (FileOperation::MoveFile, HelperCommand::Move, "MOVE_FILE"@, "Moved."@)
    };
    match spec_transfer_plan(config, root_id.0@, source_path, target_root_id.0@, target_path) {
        Err(e) => fails_with(next, e),
        Ok((s, t, root)) => match facts.source {
            None => next matches ChangeNext::ResolveSource(r, p) && r == root && p.0@ == s,
            Some(Err(e)) => fails_with(next, e),
            Some(Ok(source)) => match spec_target_name(t) {
                Err(e) => fails_with(next, e),
                Ok((parent, name)) => match facts.target {
                    None => next matches ChangeNext::ResolveTarget(r, p, n) && r == root && p.0@ == parent && n@
                        == name,
                    Some(Err(e)) => fails_with(next, e),
                    Some(Ok(target)) => match facts.target_exists {
                        None => next matches ChangeNext::Exists(p) && p@ == target.resolved_path@,
                        Some(exists) => match spec_transfer_check(
                            config,
                            engine,
                            op,
                            root_id.0@,
                            source.relative_path.0@,
                            t,
                            name,
                            root,
                            exists,
                        ) {
                            Err(e) => fails_with(next, e),
                            Ok(_) => match facts.answer {
                                None => asks_helper(
                                    next,
                                    user,
                                    command,
                                    root_id,
                                    source.relative_path.0@,
                                    Some(t),
                                    root,
                                    config,
                                ),
                                Some((id, answer)) => next matches ChangeNext::Done(res) && done_answer(
                                    res,
                                    ErrorTable::Transfer,
                                    id,
                                    operation,
                                    message,
                                    answer,
                                ),
                            },
                        },
                    },
                },
            },
        },
    }
}

fn transfer_change(
    user: &UserContext,
    root_id: &RootId,
    source_path: &RelativePath,
    target_root_id: &RootId,
    target_path: &RelativePath,
    config: &AppConfig,
    policy_engine: &PolicyEngine,
    facts: &ChangeFacts,
    copy: bool,
) -> (next: ChangeNext<OperationDonePayload>)
    ensures
        transfer_change_ok(
            next,
            *user,
            *root_id,
            source_path.0@,
            *target_root_id,
            target_path.0@,
            *config,
            policy_engine.spec_config(),
            *facts,
            copy,
        ),
{
    let plan = match transfer_plan(root_id, source_path, target_root_id, target_path, config) {
        Ok(p) => p,
        Err(e) => return ChangeNext::Done(Err(e)),
    };
    let source = match &facts.source {
        None => return ChangeNext::ResolveSource(clone_allowed_root(&plan.root), clone_relative_path(&plan.source_relative_path)),
        Some(Err(e)) => return ChangeNext::Done(Err(*e)),
        Some(Ok(s)) => s,
    };
    let (parent, name) = match transfer_target_name(&plan.target_relative_path) {
        Ok(found) => found,
        Err(e) => return ChangeNext::Done(Err(e)),
    };
    let target = match &facts.target {
        None => return ChangeNext::ResolveTarget(clone_allowed_root(&plan.root), parent, name.0),
        Some(Err(e)) => return ChangeNext::Done(Err(*e)),
        Some(Ok(t)) => t,
    };
    let exists = match facts.target_exists {
        None => return ChangeNext::Exists(target.resolved_path.clone()),
        Some(x) => x,
    };
    let (op, command) = if copy {
        (FileOperation::CopyFile, HelperCommand::Copy)
    } else {
        (FileOperation::MoveFile, HelperCommand::Move)
    };
    let helper_request = match transfer_authorize(
        op,
        command,
        RequestId::new(),
        user,
        root_id,
        &source.relative_path,
        &plan.target_relative_path,
        &name,
        &plan.root,
        exists,
        config,
        policy_engine,
    ) {
        Ok(r) => r,
        Err(e) => return ChangeNext::Done(Err(e)),
    };
    match &facts.answer {
        None => ChangeNext::AskHelper(helper_request),
        Some((id, answer)) => ChangeNext::Done(
            if copy {
                done_from_answer(ErrorTable::Transfer, *id, "COPY_FILE", "Copied.", answer)
            } else {
                done_from_answer(ErrorTable::Transfer, *id, "MOVE_FILE", "Moved.", answer)
            },
        ),
    }
}

/// The next step of the move the request names.
pub fn move_file_request_next(
    user_context: &UserContext,
    request: &MoveFileRequest,
    config: &AppConfig,
    policy_engine: &PolicyEngine,
    facts: &ChangeFacts,
) -> (next: ChangeNext<OperationDonePayload>)
    ensures
        transfer_change_ok(
            next,
            *user_context,
            request.root_id,
            request.relative_path.0@,
            request.target_root_id,
            request.target_relative_path.0@,
            *config,
            policy_engine.spec_config(),
            *facts,
            false,
        ),
{
    transfer_change(
        user_context,
        &request.root_id,
        &request.relative_path,
        &request.target_root_id,
        &request.target_relative_path,
        config,
        policy_engine,
        facts,
        false,
    )
}

/// The next step of the copy the request names.
pub fn copy_file_request_next(
    user_context: &UserContext,
    request: &CopyFileRequest,
    config: &AppConfig,
    policy_engine: &PolicyEngine,
    facts: &ChangeFacts,
) -> (next: ChangeNext<OperationDonePayload>)
    ensures
        transfer_change_ok(
            next,
            *user_context,
            request.root_id,
            request.relative_path.0@,
            request.target_root_id,
            request.target_relative_path.0@,
            *config,
            policy_engine.spec_config(),
            *facts,
            true,
        ),
{
    transfer_change(
        user_context,
        &request.root_id,
        &request.relative_path,
        &request.target_root_id,
        &request.target_relative_path,
        config,
        policy_engine,
        facts,
        true,
    )
}

/// The next step of a rename: the path, new name and root checked; the entry
/// resolved; the new path beside it checked; the new name resolved; whether
/// anything is there; the policy; then the helper's answer, reported.
pub open spec fn rename_change_ok(
    next: ChangeNext<OperationDonePayload>,
    user: UserContext,
    request: RenameFileRequest,
    config: AppConfig,
    engine: AppConfig,
    facts: ChangeFacts,
) -> bool {
    match spec_rename_plan(config, request.root_id.0@, request.relative_path.0@, request.new_name@) {
        Err(e) => fails_with(next, e),
        Ok((path, name, root)) => match facts.source {
            None => next matches ChangeNext::ResolveSource(r, p) && r == root && p.0@ == path,
            Some(Err(e)) => fails_with(next, e),
            Some(Ok(source)) => match spec_rename_target(config, source.relative_path.0@, name, root) {
                Err(e) => fails_with(next, e),
                Ok((parent, target_path)) => match facts.target {
                    None => next matches ChangeNext::ResolveTarget(r, p, n) && r == root && p.0@ == parent && n@
                        == name,
                    Some(Err(e)) => fails_with(next, e),
                    Some(Ok(target)) => match facts.target_exists {
                        None => next matches ChangeNext::Exists(p) && p@ == target.resolved_path@,
                        Some(exists) => match spec_rename_check(
                            engine,
                            request.root_id.0@,
                            source.relative_path.0@,
                            target_path,
                            name,
                            root,
                            exists,
                        ) {
                            Err(e) => fails_with(next, e),
                            Ok(_) => match facts.answer {
                                None => asks_helper(
                                    next,
                                    user,
                                    HelperCommand::Rename,
                                    request.root_id,
                                    source.relative_path.0@,
                                    Some(name),
                                    root,
                                    config,
                                ),
                                Some((id, answer)) => next matches ChangeNext::Done(res) && done_answer(
                                    res,
                                    ErrorTable::Transfer,
                                    id,
                                    "RENAME_FILE"@,
                                    "Renamed."@,
                                    answer,
                                ),
                            },
                        },
                    },
                },
            },
        },
    }
}

/// The next step of the rename the request names.
pub fn rename_file_request_next(
    user_context: &UserContext,
    request: &RenameFileRequest,
    config: &AppConfig,
    policy_engine: &PolicyEngine,
    facts: &ChangeFacts,
) -> (next: ChangeNext<OperationDonePayload>)
    ensures
        rename_change_ok(next, *user_context, *request, *config, policy_engine.spec_config(), *facts),
{
    let (path, name, root) = match rename_plan(request, config) {
        Ok(plan) => plan,
        Err(e) => return ChangeNext::Done(Err(e)),
    };
    let source = match &facts.source {
        None => return ChangeNext::ResolveSource(root, path),
        Some(Err(e)) => return ChangeNext::Done(Err(*e)),
        Some(Ok(s)) => s,
    };
    let (parent, target_path) = match rename_target(&source.relative_path, &name, &root, config) {
        Ok(t) => t,
        Err(e) => return ChangeNext::Done(Err(e)),
    };
    let target = match &facts.target {
        None => return ChangeNext::ResolveTarget(root, parent, name.0),
        Some(Err(e)) => return ChangeNext::Done(Err(*e)),
        Some(Ok(t)) => t,
    };
    let exists = match facts.target_exists {
        None => return ChangeNext::Exists(target.resolved_path.clone()),
        Some(x) => x,
    };
    let helper_request = match rename_authorize(
        RequestId::new(),
        user_context,
        &request.root_id,
        &source.relative_path,
        &target_path,
        &name,
        &root,
        exists,
        config,
        policy_engine,
    ) {
        Ok(r) => r,
        Err(e) => return ChangeNext::Done(Err(e)),
    };
    match &facts.answer {
        None => ChangeNext::AskHelper(helper_request),
        Some((id, answer)) => ChangeNext::Done(
            done_from_answer(ErrorTable::Transfer, *id, "RENAME_FILE", "Renamed.", answer),
        ),
    }
}

/// The next step of a move to the trash: the path and root checked; the
/// entry resolved; its checks (not sensitive, the policy); then the
/// helper's answer, reported.
pub open spec fn trash_change_ok(
    next: ChangeNext<MoveToTrashPayload>,
    user: UserContext,
    request: MoveToTrashRequest,
    config: AppConfig,
    engine: AppConfig,
    facts: ChangeFacts,
) -> bool {
    match spec_trash_plan(config, request.root_id.0@, request.relative_path.0@) {
        Err(e) => next == ChangeNext::<MoveToTrashPayload>::Done(Err(e)),
        Ok((path, root)) => match facts.source {
            None => next matches ChangeNext::ResolveSource(r, p) && r == root && p.0@ == path,
            Some(Err(e)) => next == ChangeNext::<MoveToTrashPayload>::Done(Err(e)),
            Some(Ok(source)) => match spec_trash_check(
                config,
                engine,
                request.root_id.0@,
                source.relative_path.0@,
                root,
            ) {
                Err(e) => next == ChangeNext::<MoveToTrashPayload>::Done(Err(e)),
                Ok(_) => match facts.answer {
                    None => asks_helper(
                        next,
                        user,
                        HelperCommand::MoveToTrash,
                        request.root_id,
                        source.relative_path.0@,
                        None,
                        root,
                        config,
                    ),
                    Some((id, answer)) => next matches ChangeNext::Done(res) && trash_answer(res, id, answer),
                },
            },
        },
    }
}

/// The next step of the move to the trash the request names.
pub fn move_to_trash_request_next(
    user_context: &UserContext,
    request: &MoveToTrashRequest,
    config: &AppConfig,
    policy_engine: &PolicyEngine,
    facts: &ChangeFacts,
) -> (next: ChangeNext<MoveToTrashPayload>)
    ensures
        trash_change_ok(next, *user_context, *request, *config, policy_engine.spec_config(), *facts),
{
    let (path, root) = match trash_plan(request, config) {
        Ok(plan) => plan,
        Err(e) => return ChangeNext::Done(Err(e)),
    };
    let source = match &facts.source {
        None => return ChangeNext::ResolveSource(root, path),
        Some(Err(e)) => return ChangeNext::Done(Err(*e)),
        Some(Ok(s)) => s,
    };
    let helper_request = match trash_authorize(
        RequestId::new(),
        user_context,
        &request.root_id,
        &source.relative_path,
        &root,
        config,
        policy_engine,
    ) {
        Ok(r) => r,
        Err(e) => return ChangeNext::Done(Err(e)),
    };
    match &facts.answer {
        None => ChangeNext::AskHelper(helper_request),
        Some((id, answer)) => ChangeNext::Done(trash_from_answer(*id, answer)),
    }
}

/// The next step of creating a folder: the parent, name, root and new path
/// checked; the parent resolved as an existing directory (a link refused);
/// the new name resolved under it; the policy; then the helper's answer,
/// reported.
pub open spec fn folder_change_ok(
    next: ChangeNext<OperationDonePayload>,
    user: UserContext,
    request: CreateFolderRequest,
    config: AppConfig,
    engine: AppConfig,
    facts: ChangeFacts,
) -> bool {
    match spec_folder_plan(config, request.root_id.0@, request.parent_relative_path.0@, request.folder_name@) {
        Err(e) => fails_with(next, e),
        Ok((parent, name, target_path, root)) => match facts.source {
            None => next matches ChangeNext::ResolveSource(r, p) && r == root && p.0@ == parent,
            Some(Err(e)) => fails_with(next, e),
            Some(Ok(_)) => match facts.target {
                None => next matches ChangeNext::ResolveTarget(r, p, n) && r == root && p.0@ == parent && n@
                    == name,
                Some(Err(e)) => fails_with(next, e),
                Some(Ok(_)) => match spec_policy_allows(
                    engine,
                    FileOperation::CreateFolder,
                    request.root_id.0@,
                    parent,
                    Some(target_path),
                    Some(name),
                    root.hidden_files_allowed,
                ) {
                    Err(e) => fails_with(next, e),
                    Ok(_) => match facts.answer {
                        None => asks_helper(
                            next,
                            user,
                            HelperCommand::CreateFolder,
                            request.root_id,
                            parent,
                            Some(name),
                            root,
                            config,
                        ),
                        Some((id, answer)) => next matches ChangeNext::Done(res) && done_answer(
                            res,
                            ErrorTable::Folder,
                            id,
                            "CREATE_FOLDER"@,
                            "Folder created."@,
                            answer,
                        ),
                    },
                },
            },
        },
    }
}

/// The next step of creating the folder the request names.
pub fn create_folder_request_next(
    user_context: &UserContext,
    request: &CreateFolderRequest,
    config: &AppConfig,
    policy_engine: &PolicyEngine,
    facts: &ChangeFacts,
) -> (next: ChangeNext<OperationDonePayload>)
    ensures
        folder_change_ok(next, *user_context, *request, *config, policy_engine.spec_config(), *facts),
{
    let plan = match folder_plan(request, config) {
        Ok(p) => p,
        Err(e) => return ChangeNext::Done(Err(e)),
    };
    match &facts.source {
        None => return ChangeNext::ResolveSource(
            clone_allowed_root(&plan.root),
            clone_relative_path(&plan.parent_relative_path),
        ),
        Some(Err(e)) => return ChangeNext::Done(Err(*e)),
        Some(Ok(_)) => {},
    }
    match &facts.target {
        None => return ChangeNext::ResolveTarget(
            clone_allowed_root(&plan.root),
            clone_relative_path(&plan.parent_relative_path),
            plan.folder_name.0.clone(),
        ),
        Some(Err(e)) => return ChangeNext::Done(Err(*e)),
        Some(Ok(_)) => {},
    }
    let helper_request = match folder_authorize(
        RequestId::new(),
        user_context,
        &request.root_id,
        &plan,
        config,
        policy_engine,
    ) {
        Ok(r) => r,
        Err(e) => return ChangeNext::Done(Err(e)),
    };
    match &facts.answer {
        None => ChangeNext::AskHelper(helper_request),
        Some((id, answer)) => ChangeNext::Done(
            done_from_answer(ErrorTable::Folder, *id, "CREATE_FOLDER", "Folder created.", answer),
        ),
    }
}

/// Whether `root_id` names a read-only root in the policy's configuration.
pub open spec fn read_only_in(engine: AppConfig, root_id: RootId) -> bool {
    crate::policy::roots::spec_allowed_root(engine.roots@, root_id.0@) matches Ok(root) && root.read_only
}

/// A read-only root never gets as far as the helper: no move, copy,
/// rename, move to the trash or new folder in it is sent to the helper.
pub proof fn lemma_read_only_root_never_reaches_helper(
    user: UserContext,
    config: AppConfig,
    engine: AppConfig,
    facts: ChangeFacts,
    transfer_next: ChangeNext<OperationDonePayload>,
    transfer_root: RootId,
    source_path: Seq<char>,
    target_root: RootId,
    target_path: Seq<char>,
    copy: bool,
    rename_next: ChangeNext<OperationDonePayload>,
    rename: RenameFileRequest,
    trash_next: ChangeNext<MoveToTrashPayload>,
    trash: MoveToTrashRequest,
    folder_next: ChangeNext<OperationDonePayload>,
    folder: CreateFolderRequest,
)
    ensures
        transfer_change_ok(
            transfer_next,
            user,
            transfer_root,
            source_path,
            target_root,
            target_path,
            config,
            engine,
            facts,
            copy,
        ) && read_only_in(engine, transfer_root) ==> !(transfer_next is AskHelper),
        rename_change_ok(rename_next, user, rename, config, engine, facts) && read_only_in(engine, rename.root_id)
            ==> !(rename_next is AskHelper),
        trash_change_ok(trash_next, user, trash, config, engine, facts) && read_only_in(engine, trash.root_id)
            ==> !(trash_next is AskHelper),
        folder_change_ok(folder_next, user, folder, config, engine, facts) && read_only_in(engine, folder.root_id)
            ==> !(folder_next is AskHelper),
{
    let op = if copy {
        FileOperation::CopyFile
    } else {
        FileOperation::MoveFile
    };
    if transfer_change_ok(
        transfer_next,
        user,
        transfer_root,
        source_path,
        target_root,
        target_path,
        config,
        engine,
        facts,
        copy,
    ) && read_only_in(engine, transfer_root) && transfer_next is AskHelper {
        let source = facts.source->Some_0->Ok_0;
        let (s, t, root) = spec_transfer_plan(config, transfer_root.0@, source_path, target_root.0@, target_path)->Ok_0;
        let (parent, name) = spec_target_name(t)->Ok_0;
        crate::policy::decision::lemma_read_only_root_denies_writes(
            engine,
            op,
            transfer_root.0@,
            source.relative_path.0@,
            Some(t),
            Some(name),
            root.hidden_files_allowed,
        );
    }
    if rename_change_ok(rename_next, user, rename, config, engine, facts) && read_only_in(engine, rename.root_id)
        && rename_next is AskHelper {
        let source = facts.source->Some_0->Ok_0;
        let (path, name, root) = spec_rename_plan(
            config,
            rename.root_id.0@,
            rename.relative_path.0@,
            rename.new_name@,
        )->Ok_0;
        let (parent, target_path) = spec_rename_target(config, source.relative_path.0@, name, root)->Ok_0;
        crate::policy::decision::lemma_read_only_root_denies_writes(
            engine,
            FileOperation::RenameFile,
            rename.root_id.0@,
            source.relative_path.0@,
            Some(target_path),
            Some(name),
            root.hidden_files_allowed,
        );
    }
    if trash_change_ok(trash_next, user, trash, config, engine, facts) && read_only_in(engine, trash.root_id)
        && trash_next is AskHelper {
        let source = facts.source->Some_0->Ok_0;
        let (path, root) = spec_trash_plan(config, trash.root_id.0@, trash.relative_path.0@)->Ok_0;
        crate::policy::decision::lemma_read_only_root_denies_writes(
            engine,
            FileOperation::MoveToTrash,
            trash.root_id.0@,
            source.relative_path.0@,
            None,
            None,
            root.hidden_files_allowed,
        );
    }
    if folder_change_ok(folder_next, user, folder, config, engine, facts) && read_only_in(engine, folder.root_id)
        && folder_next is AskHelper {
        let (parent, name, target_path, root) = spec_folder_plan(
            config,
            folder.root_id.0@,
            folder.parent_relative_path.0@,
            folder.folder_name@,
        )->Ok_0;
        crate::policy::decision::lemma_read_only_root_denies_writes(
            engine,
            FileOperation::CreateFolder,
            folder.root_id.0@,
            parent,
            Some(target_path),
            Some(name),
            root.hidden_files_allowed,
        );
    }
}

} // verus!
