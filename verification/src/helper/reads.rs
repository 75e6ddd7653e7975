//! Text previews and downloads in the helper, as sequences of decisions:
//! each call looks at what the filesystem has answered so far and says what
//! to read next or how to answer.
use vstd::prelude::*;

use crate::config::{clone_allowed_root, clone_relative_path, AllowedRoot, RelativePath, SensitivePolicyConfig};
use crate::errors::TealDriveError;
use crate::fs::path::{spec_candidate, spec_validate_relative_path, ExistingPathResolution};
use crate::helper::download::{chunk_download, chunked, download_chunk_size, download_stat_check, spec_chunk_size, spec_download_stat_check};
use crate::helper::errors::{
    helper_error_from_io, helper_error_from_tealdrive, helper_precheck, helper_precheck_ok, spec_io_failure,
    spec_path_failure, IoContext, IoErrorKind, IoFailure,
};
use crate::helper::listing::{
    directory_entry_from_metadata, entry_from_stat, entry_skipped_hidden, listing_entry, listing_limit, listing_options, listing_page_ok,
    listing_response, spec_file_kind, spec_listing_options, spec_matches_filter, FileStat,
};
use crate::helper::metadata::{inside_root_check, metadata_candidate, metadata_name, spec_inside_root, spec_metadata_name};
use crate::helper::refusal::{refuse, spec_refusal, Refusal};
use crate::helper::text::{resolved_entry_name, spec_entry_name, spec_text_stat_check, text_response, text_response_ok, text_stat_check};
use crate::helper::types::{
    is_error_response, is_success_response, HelperCommand, HelperDirectoryEntry, HelperRequest, HelperResponse,
    HelperResponsePayload,
};
use crate::protocol::schema::FilterMode;
use crate::policy::roots::spec_allowed_root;
use crate::protocol::frame::{is_v4_uuid, TransferId};

verus! {

/// What the filesystem has answered so far in one read; `None` where it was
/// not asked yet.
#[derive(Debug, Clone, PartialEq, Eq)]
pub struct ReadFacts {
    /// The target, resolved inside its root without following a link.
    pub source: Option<Result<ExistingPathResolution, TealDriveError>>,
    /// What the target is, without following a link.
    pub stat: Option<Result<FileStat, IoFailure>>,
    /// The target's bytes.
    pub bytes: Option<Result<Vec<u8>, IoFailure>>,
    /// The names in the target directory, in the order the directory gives
    /// them, each with what it is (without following a link).
    pub dir_entries: Option<Result<Vec<(String, Result<FileStat, IoFailure>)>, IoFailure>>,
    /// The canonical path of the root, when it has one.
    pub canonical_base: Option<Option<String>>,
    /// The canonical path of the target (of the directory holding it, for a
    /// link), when it has one.
    pub canonical_target: Option<Option<String>>,
}

impl ReadFacts {
    /// Nothing asked yet.
    pub fn new() -> (f: Self)
        ensures
            f.source is None,
            f.stat is None,
            f.bytes is None,
            f.dir_entries is None,
            f.canonical_base is None,
            f.canonical_target is None,
    {
        ReadFacts {
            source: None,
            stat: None,
            bytes: None,
            dir_entries: None,
            canonical_base: None,
            canonical_target: None,
        }
    }
}

/// The next step of a read.
#[derive(Debug)]
pub enum ReadNext {
    /// Resolve this path of this root, without following a link.
    ResolveSource(AllowedRoot, RelativePath),
    /// Describe what is at this path, without following a link.
    StatNoFollow(String),
    /// Describe what is at this path, following a link.
    StatFollow(String),
    /// List the names in this directory, describing each without following
    /// a link.
    ReadDir(String),
    /// Find the canonical path of the root at this path.
    CanonicalizeRoot(String),
    /// Find the canonical path of this path.
    Canonicalize(String),
    /// Find the canonical path of the directory holding this path.
    CanonicalizeParentOf(String),
    /// Read the whole file at this path.
    ReadFile(String),
    Answer(HelperResponse),
}

/// `next` answers with an error response of this kind, message and reason.
pub open spec fn answers_error(
    next: ReadNext,
    request: HelperRequest,
    e: (crate::errors::ErrorKind, Seq<char>, Seq<char>),
) -> bool {
    next matches ReadNext::Answer(r) && is_error_response(r, request, e.0, e.1, e.2)
}

/// The steps every read shares: the helper's prechecks for `command`, the
/// target resolved, then what it is (following a link when `follow`);
/// `rest` says what follows once the target is known to be `stat`.
pub open spec fn read_steps_ok(
    next: ReadNext,
    request: HelperRequest,
    command: HelperCommand,
    roots: Seq<AllowedRoot>,
    facts: ReadFacts,
    follow: bool,
    rest: spec_fn(ExistingPathResolution, FileStat) -> bool,
) -> bool {
    if request.command != command || request.uid == 0 || spec_allowed_root(roots, request.root_id.0@) is Err {
        next matches ReadNext::Answer(r) && helper_precheck_ok(Err(r), request, command, roots)
    } else {
        let root = spec_allowed_root(roots, request.root_id.0@)->Ok_0;
        match facts.source {
            None => next matches ReadNext::ResolveSource(r, p) && r == root && p == request.relative_path,
            Some(Err(e)) => answers_error(next, request, spec_path_failure(e)),
            Some(Ok(source)) => match facts.stat {
                None => if follow {
                    next matches ReadNext::StatFollow(p) && p@ == source.resolved_path@
                } else {
                    next matches ReadNext::StatNoFollow(p) && p@ == source.resolved_path@
                },
                Some(Err(f)) => answers_error(next, request, spec_io_failure(IoContext::Read, f)),
                Some(Ok(stat)) => rest(source, stat),
            },
        }
    }
}

/// The next step of a text preview: after the shared steps, the preview's
/// checks of what the target is; then its bytes, answered as a preview of
/// the file under its last component's name.
pub open spec fn text_next_ok(
    next: ReadNext,
    request: HelperRequest,
    roots: Seq<AllowedRoot>,
    sensitive_config: SensitivePolicyConfig,
    facts: ReadFacts,
) -> bool {
    read_steps_ok(
        next,
        request,
        HelperCommand::ReadTextFile,
        roots,
        facts,
        false,
        |source: ExistingPathResolution, stat: FileStat|
            match spec_text_stat_check(stat, request.limits.max_text_edit_size) {
                Some(refusal) => answers_error(next, request, spec_refusal(refusal)),
                None => match facts.bytes {
                    None => next matches ReadNext::ReadFile(p) && p@ == source.resolved_path@,
                    Some(Err(f)) => answers_error(next, request, spec_io_failure(IoContext::Read, f)),
                    Some(Ok(bytes)) => next matches ReadNext::Answer(r) && text_response_ok(
                        r,
                        request,
                        spec_allowed_root(roots, request.root_id.0@)->Ok_0,
                        sensitive_config,
                        spec_entry_name(source.resolved_path@),
                        stat,
                        bytes@,
                    ),
                },
            },
    )
}

/// The next step of a download: after the shared steps, the download's
/// checks of what the target is; then its bytes, answered cut into chunks
/// of the request's chunk size (kept between 1 and the largest chunk) under
/// a fresh transfer id, or as a filesystem failure when there would be more
/// chunks than a chunk index counts.
pub open spec fn download_next_ok(next: ReadNext, request: HelperRequest, roots: Seq<AllowedRoot>, facts: ReadFacts) -> bool {
    read_steps_ok(
        next,
        request,
        HelperCommand::DownloadFile,
        roots,
        facts,
        false,
        |source: ExistingPathResolution, stat: FileStat|
            match spec_download_stat_check(stat, request.limits.max_download_helper_bytes) {
                Some(refusal) => answers_error(next, request, spec_refusal(refusal)),
                None => match facts.bytes {
                    None => next matches ReadNext::ReadFile(p) && p@ == source.resolved_path@,
                    Some(Err(f)) => answers_error(next, request, spec_io_failure(IoContext::Read, f)),
                    Some(Ok(bytes)) => {
                        let size = spec_chunk_size(request.limits.max_chunk_size);
                        if bytes@.len() > (u32::MAX as nat) * size {
                            answers_error(
                                next,
                                request,
                                spec_io_failure(IoContext::Read, IoFailure { kind: IoErrorKind::Other, raw_os_error: None }),
                            )
                        } else {
                            next matches ReadNext::Answer(r) && r.payload matches HelperResponsePayload::DownloadFile(d)
                                && is_success_response(r, request, d.total_bytes, None, r.payload)
                                && d.total_bytes == stat.len && is_v4_uuid(d.transfer_id.0@)
                                && chunked(d.chunks@, bytes@, size as nat)
                        }
                    },
                },
            },
    )
}

/// The shared steps of a read: the root, once the target is resolved and
/// described, or the step to take.
fn read_steps<'a>(
    request: &HelperRequest,
    command: HelperCommand,
    roots: &'a [AllowedRoot],
    facts: &'a ReadFacts,
    follow: bool,
) -> (res: Result<(&'a AllowedRoot, &'a ExistingPathResolution, &'a FileStat), ReadNext>)
    ensures
        res matches Err(next) ==> read_steps_ok(
            next,
            *request,
            command,
            roots@,
            *facts,
            follow,
            |source: ExistingPathResolution, stat: FileStat| false,
        ),
        res matches Ok((root, source, stat)) ==> {
            &&& request.command == command
            &&& request.uid != 0
            &&& spec_allowed_root(roots@, request.root_id.0@) == Ok::<AllowedRoot, TealDriveError>(*root)
            &&& facts.source == Some(Ok::<ExistingPathResolution, TealDriveError>(*source))
            &&& facts.stat == Some(Ok::<FileStat, IoFailure>(*stat))
        },
{
    let root = match helper_precheck(request, command, roots) {
        Ok(r) => r,
        Err(response) => return Err(ReadNext::Answer(response)),
    };
    let source = match &facts.source {
        None => return Err(ReadNext::ResolveSource(clone_allowed_root(root), clone_relative_path(&request.relative_path))),
        Some(Err(e)) => return Err(ReadNext::Answer(helper_error_from_tealdrive(request, *e))),
        Some(Ok(s)) => s,
    };
    let stat = match &facts.stat {
        None => return Err(
            if follow {
                ReadNext::StatFollow(source.resolved_path.clone())
            } else {
                ReadNext::StatNoFollow(source.resolved_path.clone())
            },
        ),
        Some(Err(f)) => return Err(ReadNext::Answer(helper_error_from_io(request, IoContext::Read, *f))),
        Some(Ok(s)) => s,
    };
    Ok((root, source, stat))
}

/// The next step of previewing the text file the request names.
pub fn text_next(
    request: &HelperRequest,
    roots: &[AllowedRoot],
    sensitive_config: &SensitivePolicyConfig,
    facts: &ReadFacts,
) -> (next: ReadNext)
    ensures
        text_next_ok(next, *request, roots@, *sensitive_config, *facts),
{
    let (root, source, stat) = match read_steps(request, HelperCommand::ReadTextFile, roots, facts, false) {
        Ok(known) => known,
        Err(next) => return next,
    };
    if let Some(refusal) = text_stat_check(stat, request.limits.max_text_edit_size) {
        return ReadNext::Answer(refuse(request, refusal));
    }
    match &facts.bytes {
        None => ReadNext::ReadFile(source.resolved_path.clone()),
        Some(Err(f)) => ReadNext::Answer(helper_error_from_io(request, IoContext::Read, *f)),
        Some(Ok(bytes)) => {
            let copy = bytes.clone();
            assert(copy@ =~= bytes@);
            ReadNext::Answer(
                text_response(
                    request,
                    root,
                    sensitive_config,
                    resolved_entry_name(source.resolved_path.as_str()),
                    stat,
                    copy,
                ),
            )
        },
    }
}

/// The next step of downloading the file the request names.
pub fn download_next(request: &HelperRequest, roots: &[AllowedRoot], facts: &ReadFacts) -> (next: ReadNext)
    ensures
        download_next_ok(next, *request, roots@, *facts),
{
    let (_root, source, stat) = match read_steps(request, HelperCommand::DownloadFile, roots, facts, false) {
        Ok(known) => known,
        Err(next) => return next,
    };
    if let Some(refusal) = download_stat_check(stat, request.limits.max_download_helper_bytes) {
        return ReadNext::Answer(refuse(request, refusal));
    }
    match &facts.bytes {
        None => ReadNext::ReadFile(source.resolved_path.clone()),
        Some(Err(f)) => ReadNext::Answer(helper_error_from_io(request, IoContext::Read, *f)),
        Some(Ok(bytes)) => {
            let size = download_chunk_size(request.limits.max_chunk_size);
            match chunk_download(bytes.as_slice(), size, stat.len, TransferId::new()) {
                Some(download) => ReadNext::Answer(HelperResponse::download_file(request, download)),
                None => ReadNext::Answer(
                    helper_error_from_io(
                        request,
                        IoContext::Read,
                        IoFailure { kind: IoErrorKind::Other, raw_os_error: None },
                    ),
                ),
            }
        },
    }
}

/// Whether a listing skips the name `name` without looking at it: a hidden
/// name, when hidden names were not asked for.
pub open spec fn skipped_unseen(name: Seq<char>, include_hidden: bool) -> bool {
    name.len() > 0 && name[0] == '.' && !include_hidden
}

/// The first failure to describe an entry the listing looks at, in the
/// directory's order.
pub open spec fn first_entry_failure(
    raw: Seq<(String, Result<FileStat, IoFailure>)>,
    include_hidden: bool,
) -> Option<IoFailure>
    decreases raw.len(),
{
    if raw.len() == 0 {
        None
    } else {
        match first_entry_failure(raw.drop_last(), include_hidden) {
            Some(f) => Some(f),
            None => if !skipped_unseen(raw.last().0@, include_hidden) && raw.last().1 is Err {
                Some(raw.last().1->Err_0)
            } else {
                None
            },
        }
    }
}

/// A failure among the first `k` entries is the first failure of all.
proof fn lemma_first_failure_prefix(
    raw: Seq<(String, Result<FileStat, IoFailure>)>,
    include_hidden: bool,
    k: int,
)
    requires
        0 <= k <= raw.len(),
        first_entry_failure(raw.take(k), include_hidden) is Some,
    ensures
        first_entry_failure(raw, include_hidden) == first_entry_failure(raw.take(k), include_hidden),
    decreases raw.len(),
{
    if k == raw.len() {
        assert(raw.take(k) =~= raw);
    } else {
        assert(raw.drop_last().take(k) =~= raw.take(k));
        lemma_first_failure_prefix(raw.drop_last(), include_hidden, k);
    }
}

/// `kept` describes, in order, the entries of `raw` the listing keeps: those
/// it looks at whose name, kind and flags the filter lets through.
pub open spec fn kept_entries(
    kept: Seq<HelperDirectoryEntry>,
    raw: Seq<(String, Result<FileStat, IoFailure>)>,
    include_hidden: bool,
    filter: FilterMode,
    root: AllowedRoot,
    sensitive_config: SensitivePolicyConfig,
) -> bool
    decreases raw.len(),
{
    if raw.len() == 0 {
        kept.len() == 0
    } else {
        let name = raw.last().0@;
        let hidden = name.len() > 0 && name[0] == '.';
        let rest = raw.drop_last();
        if skipped_unseen(name, include_hidden) || raw.last().1 is Err {
            kept_entries(kept, rest, include_hidden, filter, root, sensitive_config)
        } else {
            let stat = raw.last().1->Ok_0;
            if spec_matches_filter(name, spec_file_kind(stat), filter, hidden, stat.is_symlink) {
                &&& kept.len() > 0
                &&& entry_from_stat(kept.last(), name, stat, root, sensitive_config)
                &&& kept_entries(kept.drop_last(), rest, include_hidden, filter, root, sensitive_config)
            } else {
                kept_entries(kept, rest, include_hidden, filter, root, sensitive_config)
            }
        }
    }
}

/// The next step of a directory listing: after the shared steps (following
/// a link to see what the target is), it must be a directory; then its
/// names, of which the first failure to describe one it looks at is
/// answered as a filesystem failure; else the page of the kept entries that
/// the listing's options ask for.
pub open spec fn list_next_ok(
    next: ReadNext,
    request: HelperRequest,
    roots: Seq<AllowedRoot>,
    sensitive_config: SensitivePolicyConfig,
    facts: ReadFacts,
) -> bool {
    read_steps_ok(
        next,
        request,
        HelperCommand::ListDirectory,
        roots,
        facts,
        true,
        |source: ExistingPathResolution, stat: FileStat|
            if !stat.is_dir {
                answers_error(next, request, spec_refusal(Refusal::NotDirectory))
            } else {
                match facts.dir_entries {
                    None => next matches ReadNext::ReadDir(p) && p@ == source.resolved_path@,
                    Some(Err(f)) => answers_error(next, request, spec_io_failure(IoContext::Read, f)),
                    Some(Ok(raw)) => {
                        let o = spec_listing_options(request);
                        match first_entry_failure(raw@, o.include_hidden) {
                            Some(f) => answers_error(next, request, spec_io_failure(IoContext::Read, f)),
                            None => next matches ReadNext::Answer(r) && exists|kept: Seq<HelperDirectoryEntry>|
                                #[trigger] kept_entries(
                                    kept,
                                    raw@,
                                    o.include_hidden,
                                    o.filter,
                                    spec_allowed_root(roots, request.root_id.0@)->Ok_0,
                                    sensitive_config,
                                ) && listing_page_ok(
                                    r,
                                    request,
                                    kept,
                                    o.cursor,
                                    o.sort,
                                    if o.limit < request.limits.max_directory_page_size {
                                        o.limit
                                    } else {
                                        request.limits.max_directory_page_size
                                    },
                                ),
                        }
                    },
                }
            },
    )
}

/// The next step of listing the directory the request names.
pub fn list_next(
    request: &HelperRequest,
    roots: &[AllowedRoot],
    sensitive_config: &SensitivePolicyConfig,
    facts: &ReadFacts,
) -> (next: ReadNext)
    ensures
        list_next_ok(next, *request, roots@, *sensitive_config, *facts),
{
    let (root, source, stat) = match read_steps(request, HelperCommand::ListDirectory, roots, facts, true) {
        Ok(known) => known,
        Err(next) => return next,
    };
    if !stat.is_dir {
        return ReadNext::Answer(refuse(request, Refusal::NotDirectory));
    }
    let raw = match &facts.dir_entries {
        None => return ReadNext::ReadDir(source.resolved_path.clone()),
        Some(Err(f)) => return ReadNext::Answer(helper_error_from_io(request, IoContext::Read, *f)),
        Some(Ok(raw)) => raw,
    };
    let options = listing_options(request);
    let limit = listing_limit(&options, request);
    let mut kept: Vec<HelperDirectoryEntry> = Vec::new();
    let mut i: usize = 0;
    assert(raw@.take(0) =~= Seq::<(String, Result<FileStat, IoFailure>)>::empty());
    while i < raw.len()
        invariant
            i <= raw@.len(),
            options == spec_listing_options(*request),
            facts.dir_entries == Some(Ok::<Vec<(String, Result<FileStat, IoFailure>)>, IoFailure>(*raw)),
            request.command == HelperCommand::ListDirectory,
            request.uid != 0,
            spec_allowed_root(roots@, request.root_id.0@) == Ok::<AllowedRoot, TealDriveError>(*root),
            facts.source == Some(Ok::<ExistingPathResolution, TealDriveError>(*source)),
            facts.stat == Some(Ok::<FileStat, IoFailure>(*stat)),
            stat.is_dir,
            first_entry_failure(raw@.take(i as int), options.include_hidden) is None,
            kept_entries(kept@, raw@.take(i as int), options.include_hidden, options.filter, *root, *sensitive_config),
        decreases raw@.len() - i,
    {
        let ghost before = kept@;
        let (name, described) = &raw[i];
        assert(raw@.take(i + 1).drop_last() =~= raw@.take(i as int));
        assert(raw@.take(i + 1).last() == raw@[i as int]);
        if !entry_skipped_hidden(name.as_str(), options.include_hidden) {
            match described {
                Err(f) => {
                    proof {
                        let prefix = raw@.take(i + 1);
                        assert(first_entry_failure(prefix, options.include_hidden) == Some(*f));
                        lemma_first_failure_prefix(raw@, options.include_hidden, i + 1);
                    }
                    return ReadNext::Answer(helper_error_from_io(request, IoContext::Read, *f));
                },
                Ok(stat) => {
                    if let Some(entry) = listing_entry(name.clone(), stat, root, sensitive_config, &options.filter) {
                        kept.push(entry);
                        assert(kept@.drop_last() =~= before);
                    }
                },
            }
        }
        i = i + 1;
    }
    assert(raw@.take(raw@.len() as int) =~= raw@);
    let ghost all = kept@;
    let r = listing_response(request, kept, &options.cursor, options.sort, limit);
    assert(kept_entries(all, raw@, options.include_hidden, options.filter, *root, *sensitive_config));
    ReadNext::Answer(r)
}

/// The next step of describing one entry: the helper's prechecks; the
/// request's path validated; what lies at it under the root's configured
/// base, without following a link; the root's canonical path; the entry's
/// canonical path (for a link, that of the directory holding it), which must
/// lie in the root; then the entry's description.
pub open spec fn metadata_next_ok(
    next: ReadNext,
    request: HelperRequest,
    roots: Seq<AllowedRoot>,
    sensitive_config: SensitivePolicyConfig,
    facts: ReadFacts,
) -> bool {
    if request.command != HelperCommand::FileMetadata || request.uid == 0 || spec_allowed_root(
        roots,
        request.root_id.0@,
    ) is Err {
        next matches ReadNext::Answer(r) && helper_precheck_ok(Err(r), request, HelperCommand::FileMetadata, roots)
    } else {
        let root = spec_allowed_root(roots, request.root_id.0@)->Ok_0;
        match spec_validate_relative_path(request.relative_path.0@) {
            Err(e) => answers_error(next, request, spec_path_failure(e)),
            Ok(rel) => {
                let candidate = spec_candidate(root.base_path@, rel);
                match facts.stat {
                    None => next matches ReadNext::StatNoFollow(p) && p@ == candidate,
                    Some(Err(f)) => answers_error(next, request, spec_io_failure(IoContext::Read, f)),
                    Some(Ok(stat)) => match facts.canonical_base {
                        None => next matches ReadNext::CanonicalizeRoot(p) && p@ == root.base_path@,
                        Some(None) => answers_error(next, request, spec_path_failure(TealDriveError::InvalidPath)),
                        Some(Some(base)) => match facts.canonical_target {
                            None => if stat.is_symlink {
                                next matches ReadNext::CanonicalizeParentOf(p) && p@ == candidate
                            } else {
                                next matches ReadNext::Canonicalize(p) && p@ == candidate
                            },
                            Some(target) => match spec_inside_root(
                                Some(base@),
                                match target {
                                    Some(t) => Some(t@),
                                    None => None,
                                },
                            ) {
                                Err(e) => answers_error(next, request, spec_path_failure(e)),
                                Ok(_) => next matches ReadNext::Answer(r) && r.payload matches HelperResponsePayload::FileMetadata(
                                    entry,
                                ) && is_success_response(r, request, 0, None, r.payload) && entry_from_stat(
                                    entry,
                                    spec_metadata_name(candidate, rel),
                                    stat,
                                    root,
                                    sensitive_config,
                                ),
                            },
                        },
                    },
                }
            },
        }
    }
}

/// The next step of describing the entry the request names.
pub fn metadata_next(
    request: &HelperRequest,
    roots: &[AllowedRoot],
    sensitive_config: &SensitivePolicyConfig,
    facts: &ReadFacts,
) -> (next: ReadNext)
    ensures
        metadata_next_ok(next, *request, roots@, *sensitive_config, *facts),
{
    let root = match helper_precheck(request, HelperCommand::FileMetadata, roots) {
        Ok(r) => r,
        Err(response) => return ReadNext::Answer(response),
    };
    let (rel, candidate) = match metadata_candidate(request, root) {
        Ok(found) => found,
        Err(response) => return ReadNext::Answer(response),
    };
    let stat = match &facts.stat {
        None => return ReadNext::StatNoFollow(candidate),
        Some(Err(f)) => return ReadNext::Answer(helper_error_from_io(request, IoContext::Read, *f)),
        Some(Ok(s)) => s,
    };
    let base = match &facts.canonical_base {
        None => return ReadNext::CanonicalizeRoot(root.base_path.clone()),
        Some(None) => return ReadNext::Answer(helper_error_from_tealdrive(request, TealDriveError::InvalidPath)),
        Some(Some(b)) => b,
    };
    let target = match &facts.canonical_target {
        None => return if stat.is_symlink {
            ReadNext::CanonicalizeParentOf(candidate)
        } else {
            ReadNext::Canonicalize(candidate)
        },
        Some(t) => t,
    };
    let target_ref = match target {
        Some(t) => Some(t.as_str()),
        None => None,
    };
    if let Err(e) = inside_root_check(Some(base.as_str()), target_ref) {
        return ReadNext::Answer(helper_error_from_tealdrive(request, e));
    }
    let name = metadata_name(candidate.as_str(), &rel);
    let entry = directory_entry_from_metadata(name, stat, root, sensitive_config);
    ReadNext::Answer(HelperResponse::file_metadata(request, entry))
}

} // verus!
