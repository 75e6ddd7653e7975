//! Directory listings in the helper. The helper reads the directory and the
//! metadata of each entry; what it keeps, how it describes an entry, and
//! which page it answers with are decided here.
use vstd::prelude::*;

use crate::config::{AllowedRoot, RelativePath, SensitivePolicyConfig};
use crate::helper::types::{
    is_success_response, HelperDirectoryEntry, HelperDirectoryList, HelperListDirectoryOptions,
    HelperRequest, HelperResponse, HelperResponsePayload,
};
use crate::policy::sensitive::{detect_sensitive, spec_detect_sensitive};
use crate::protocol::schema::{
    CapabilitySet, DirectoryCursor, FileFilter, FileKind, FilterMode, GroupName, OwnerName,
    SortMode, UnixMode,
};
use crate::strings::{
    after_last, ascii_lower_code, concat, decimal, decimal_string, digits_value, eq_ignore_ascii_case,
    lower_code, parse_usize_digits, split_after_last, str_eq_ignore_ascii_case, str_starts_with, starts_with,
};
use vstd::string::StrSliceExecFns;

verus! {

/// What the filesystem reports of one entry.
#[derive(Debug, Clone, Copy, PartialEq, Eq, Structural)]
pub struct FileStat {
    pub is_symlink: bool,
    pub is_dir: bool,
    pub is_file: bool,
    pub len: u64,
    /// Seconds since the Unix epoch of the last change, when known.
    pub modified_secs: Option<u64>,
    pub mode: u32,
    pub uid: u32,
    pub gid: u32,
}

/// The kind of an entry: a symlink first, then a directory, then a file.
pub open spec fn spec_file_kind(stat: FileStat) -> FileKind {
    if stat.is_symlink {
        FileKind::Symlink
    } else if stat.is_dir {
        FileKind::Directory
    } else if stat.is_file {
        FileKind::File
    } else {
        FileKind::Other
    }
}

pub fn file_kind_of(stat: &FileStat) -> (k: FileKind)
    ensures
        k == spec_file_kind(*stat),
{
    if stat.is_symlink {
        FileKind::Symlink
    } else if stat.is_dir {
        FileKind::Directory
    } else if stat.is_file {
        FileKind::File
    } else {
        FileKind::Other
    }
}

/// One letter of a permission string: `c` when `bit` is set in `mode`.
pub open spec fn perm_char(mode: u32, bit: u32, c: char) -> char {
    if mode & bit != 0 {
        c
    } else {
        '-'
    }
}

/// `rwxrwxrwx` with `-` for each bit of `mode` that is clear.
pub open spec fn spec_permissions(mode: u32) -> Seq<char> {
    seq![
        perm_char(mode, 0o400, 'r'),
        perm_char(mode, 0o200, 'w'),
        perm_char(mode, 0o100, 'x'),
        perm_char(mode, 0o040, 'r'),
        perm_char(mode, 0o020, 'w'),
        perm_char(mode, 0o010, 'x'),
        perm_char(mode, 0o004, 'r'),
        perm_char(mode, 0o002, 'w'),
        perm_char(mode, 0o001, 'x'),
    ]
}

fn perm_str(mode: u32, bit: u32, letter: char) -> (s: &'static str)
    requires
        letter == 'r' || letter == 'w' || letter == 'x',
    ensures
        s@ == seq![perm_char(mode, bit, letter)],
{
    proof {
        reveal_strlit("r");
        reveal_strlit("w");
        reveal_strlit("x");
        reveal_strlit("-");
    }
    if mode & bit != 0 {
        if letter == 'r' {
            "r"
        } else if letter == 'w' {
            "w"
        } else {
            "x"
        }
    } else {
        "-"
    }
}

/// The permission string of a Unix mode.
pub fn permission_string(mode: u32) -> (s: String)
    ensures
        s@ == spec_permissions(mode),
{
    let mut out = String::new();
    let bits: [u32; 9] = [0o400, 0o200, 0o100, 0o040, 0o020, 0o010, 0o004, 0o002, 0o001];
    let letters: [char; 9] = ['r', 'w', 'x', 'r', 'w', 'x', 'r', 'w', 'x'];
    let ghost expected = spec_permissions(mode);
    let mut i: usize = 0;
    while i < 9
        invariant
            i <= 9,
            bits@ == seq![0o400u32, 0o200, 0o100, 0o040, 0o020, 0o010, 0o004, 0o002, 0o001],
            letters@ == seq!['r', 'w', 'x', 'r', 'w', 'x', 'r', 'w', 'x'],
            expected == spec_permissions(mode),
            out@ == expected.subrange(0, i as int),
        decreases 9 - i,
    {
        let piece = perm_str(mode, bits[i], letters[i]);
        let next = concat(out.as_str(), piece);
        out = next;
        assert(out@ =~= expected.subrange(0, i as int + 1));
        i = i + 1;
    }
    assert(out@ =~= expected);
    out
}

/// Anyone may write to an entry whose mode has the other-write bit.
pub open spec fn spec_world_writable(mode: u32) -> bool {
    mode & 0o002 != 0
}

/// What the helper says of one entry called `name`.
pub open spec fn entry_from_stat(
    e: HelperDirectoryEntry,
    name: Seq<char>,
    stat: FileStat,
    root: AllowedRoot,
    sensitive_config: SensitivePolicyConfig,
) -> bool {
    &&& e.name@ == name
    &&& e.file_type == spec_file_kind(stat)
    &&& e.size == (if stat.is_file {
        stat.len
    } else {
        0
    })
    &&& match (e.modified, stat.modified_secs) {
        (Some(m), Some(t)) => m@ == decimal(t as nat),
        (None, None) => true,
        _ => false,
    }
    &&& e.owner matches Some(o) && o.0@ == decimal(stat.uid as nat)
    &&& e.group matches Some(g) && g.0@ == decimal(stat.gid as nat)
    &&& e.mode == Some(UnixMode(stat.mode))
    &&& e.permissions matches Some(p) && p@ == spec_permissions(stat.mode)
    &&& e.is_hidden == (name.len() > 0 && name[0] == '.')
    &&& e.is_sensitive == spec_detect_sensitive(name, sensitive_config).is_sensitive
    &&& !e.is_protected
    &&& e.is_symlink == stat.is_symlink
    &&& e.symlink_target is None
    &&& e.is_web_root == root.is_web_root
    &&& e.is_world_writable == spec_world_writable(stat.mode)
    &&& e.capabilities == (CapabilitySet {
        can_list: stat.is_dir && !stat.is_symlink,
        can_download: stat.is_file && !stat.is_symlink,
        can_upload: root.uploads_allowed && !root.read_only,
        can_create_folder: !root.read_only,
        can_rename: !root.read_only,
        can_move_to_trash: !root.read_only,
        can_restore_from_trash: !root.read_only,
    })
}

/// Describes one entry from its name and metadata.
pub fn directory_entry_from_metadata(
    name: String,
    stat: &FileStat,
    root: &AllowedRoot,
    sensitive_config: &SensitivePolicyConfig,
) -> (e: HelperDirectoryEntry)
    ensures
        entry_from_stat(e, name@, *stat, *root, *sensitive_config),
{
    let is_hidden = str_starts_with(name.as_str(), ".");
    proof {
        reveal_strlit(".");
        assert("."@ =~= seq!['.']);
        if name@.len() > 0 && name@[0] == '.' {
            assert(name@.subrange(0, 1) =~= "."@);
        }
        if is_hidden {
            assert(name@.subrange(0, 1)[0] == name@[0]);
        }
    }
    let sensitive = detect_sensitive(&RelativePath(name.clone()), sensitive_config);
    let modified = match stat.modified_secs {
        Some(t) => Some(decimal_string(t)),
        None => None,
    };
    HelperDirectoryEntry {
        name,
        file_type: file_kind_of(stat),
        size: if stat.is_file {
            stat.len
        } else {
            0
        },
        modified,
        owner: Some(OwnerName(decimal_string(stat.uid as u64))),
        group: Some(GroupName(decimal_string(stat.gid as u64))),
        mode: Some(UnixMode(stat.mode)),
        permissions: Some(permission_string(stat.mode)),
        is_hidden,
        is_sensitive: sensitive.is_sensitive,
        is_protected: false,
        is_symlink: stat.is_symlink,
        symlink_target: None,
        is_web_root: root.is_web_root,
        is_world_writable: stat.mode & 0o002 != 0,
        capabilities: CapabilitySet {
            can_list: stat.is_dir && !stat.is_symlink,
            can_download: stat.is_file && !stat.is_symlink,
            can_upload: root.uploads_allowed && !root.read_only,
            can_create_folder: !root.read_only,
            can_rename: !root.read_only,
            can_move_to_trash: !root.read_only,
            can_restore_from_trash: !root.read_only,
        },
    }
}

/// The views of a list of string slices.
pub open spec fn str_views(v: Seq<&str>) -> Seq<Seq<char>> {
    Seq::new(v.len(), |i: int| v[i]@)
}

/// Whether the extension of `name` (after its last `.`) is one of `exts`,
/// ignoring ASCII case.
pub open spec fn spec_has_ext(name: Seq<char>, exts: Seq<Seq<char>>) -> bool {
    match after_last(name, '.') {
        Some(ext) => exists|i: int| 0 <= i < exts.len() && eq_ignore_ascii_case(ext, #[trigger] exts[i]),
        None => false,
    }
}

pub fn has_ext(name: &str, exts: &[&str]) -> (found: bool)
    ensures
        found == spec_has_ext(name@, str_views(exts@)),
{
    let ext = match split_after_last(name, '.') {
        Some(ext) => ext,
        None => return false,
    };
    let ghost views = str_views(exts@);
    let mut i: usize = 0;
    while i < exts.len()
        invariant
            i <= exts@.len(),
            views == str_views(exts@),
            after_last(name@, '.') == Some(ext@),
            forall|j: int| 0 <= j < i ==> !eq_ignore_ascii_case(ext@, #[trigger] views[j]),
        decreases exts@.len() - i,
    {
        if str_eq_ignore_ascii_case(ext, exts[i]) {
            assert(eq_ignore_ascii_case(ext@, views[i as int]));
            return true;
        }
        i = i + 1;
    }
    false
}

pub open spec fn code_exts() -> Seq<Seq<char>> {
    seq!["rs"@, "js"@, "ts"@, "php"@, "py"@, "rb"@, "sh"@, "html"@, "css"@]
}

pub open spec fn image_exts() -> Seq<Seq<char>> {
    seq!["png"@, "jpg"@, "jpeg"@, "gif"@, "webp"@, "svg"@]
}

pub open spec fn media_exts() -> Seq<Seq<char>> {
    seq!["mp3"@, "mp4"@, "mkv"@, "mov"@, "wav"@, "flac"@]
}

pub open spec fn document_exts() -> Seq<Seq<char>> {
    seq!["txt"@, "md"@, "pdf"@, "doc"@, "docx"@, "odt"@]
}

pub open spec fn archive_exts() -> Seq<Seq<char>> {
    seq!["zip"@, "tar"@, "gz"@, "tgz"@, "xz"@, "7z"@]
}

/// `hay` holds `needle`, with ASCII capitals lowered in both.
pub open spec fn lowered(s: Seq<char>) -> Seq<u32> {
    Seq::new(s.len(), |i: int| ascii_lower_code(s[i]))
}

pub open spec fn match_at(hay: Seq<char>, needle: Seq<char>, k: int) -> bool {
    lowered(hay).subrange(k, k + needle.len()) == lowered(needle)
}

pub open spec fn contains_ignore_case(hay: Seq<char>, needle: Seq<char>) -> bool {
    exists|k: int| 0 <= k && k + needle.len() <= hay.len() && #[trigger] match_at(hay, needle, k)
}

pub fn str_contains_ignore_case(hay: &str, needle: &str) -> (found: bool)
    ensures
        found == contains_ignore_case(hay@, needle@),
{
    let h = hay.unicode_len();
    let n = needle.unicode_len();
    if n > h {
        return false;
    }
    let mut k: usize = 0;
    while k <= h - n
        invariant
            h == hay@.len(),
            n == needle@.len(),
            n <= h,
            k <= h - n + 1,
            forall|j: int| 0 <= j < k ==> !#[trigger] match_at(hay@, needle@, j),
        decreases h - n + 1 - k,
    {
        let mut j: usize = 0;
        let mut ok = true;
        while ok && j < n
            invariant
                h == hay@.len(),
                n == needle@.len(),
                k + n <= h,
                j <= n,
                forall|m: int| 0 <= m < j ==> lowered(hay@)[k + m] == lowered(needle@)[m],
                !ok ==> j < n && lowered(hay@)[k + j] != lowered(needle@)[j as int],
            decreases n - j + (if ok { 1int } else { 0int }),
        {
            if lower_code(hay.get_char(k + j)) != lower_code(needle.get_char(j)) {
                ok = false;
            } else {
                j = j + 1;
            }
        }
        if ok {
            assert(lowered(hay@).subrange(k as int, k + n) =~= lowered(needle@));
            assert(match_at(hay@, needle@, k as int));
            return true;
        }
        assert(!match_at(hay@, needle@, k as int)) by {
            assert(lowered(hay@).subrange(k as int, k + n)[j as int] != lowered(needle@)[j as int]);
        }
        k = k + 1;
    }
    false
}

/// Whether a listing keeps an entry: its name holds the query (ignoring
/// ASCII case), it is of the asked kind, and it passes the filter (`All`
/// when none is given).
pub open spec fn spec_matches_filter(
    name: Seq<char>,
    file_type: FileKind,
    filter: FilterMode,
    is_hidden: bool,
    is_symlink: bool,
) -> bool {
    &&& match filter.query {
        Some(q) => contains_ignore_case(name, q@),
        None => true,
    }
    &&& match filter.file_kind {
        Some(k) => k == file_type,
        None => true,
    }
    &&& match filter.filter {
        None | Some(FileFilter::All) | Some(FileFilter::Writable) => true,
        Some(FileFilter::Folders) => file_type == FileKind::Directory,
        Some(FileFilter::Hidden) => is_hidden,
        Some(FileFilter::Symlinks) => is_symlink,
        Some(FileFilter::Code) => spec_has_ext(name, code_exts()),
        Some(FileFilter::Images) => spec_has_ext(name, image_exts()),
        Some(FileFilter::Media) => spec_has_ext(name, media_exts()),
        Some(FileFilter::Documents) => spec_has_ext(name, document_exts()),
        Some(FileFilter::Archives) => spec_has_ext(name, archive_exts()),
    }
}

pub fn matches_filter(
    name: &str,
    file_type: FileKind,
    filter: &FilterMode,
    is_hidden: bool,
    is_symlink: bool,
) -> (keep: bool)
    ensures
        keep == spec_matches_filter(name@, file_type, *filter, is_hidden, is_symlink),
{
    if let Some(query) = &filter.query {
        if !str_contains_ignore_case(name, query.as_str()) {
            return false;
        }
    }
    if let Some(kind) = filter.file_kind {
        if kind != file_type {
            return false;
        }
    }
    let which = match filter.filter {
        Some(f) => f,
        None => FileFilter::All,
    };
    match which {
        FileFilter::All | FileFilter::Writable => true,
        FileFilter::Folders => file_type == FileKind::Directory,
        FileFilter::Hidden => is_hidden,
        FileFilter::Symlinks => is_symlink,
        FileFilter::Code => {
            let exts: [&str; 9] = ["rs", "js", "ts", "php", "py", "rb", "sh", "html", "css"];
            assert(str_views(exts@) =~= code_exts());
            has_ext(name, &exts)
        },
        FileFilter::Images => {
            let exts: [&str; 6] = ["png", "jpg", "jpeg", "gif", "webp", "svg"];
            assert(str_views(exts@) =~= image_exts());
            has_ext(name, &exts)
        },
        FileFilter::Media => {
            let exts: [&str; 6] = ["mp3", "mp4", "mkv", "mov", "wav", "flac"];
            assert(str_views(exts@) =~= media_exts());
            has_ext(name, &exts)
        },
        FileFilter::Documents => {
            let exts: [&str; 6] = ["txt", "md", "pdf", "doc", "docx", "odt"];
            assert(str_views(exts@) =~= document_exts());
            has_ext(name, &exts)
        },
        FileFilter::Archives => {
            let exts: [&str; 6] = ["zip", "tar", "gz", "tgz", "xz", "7z"];
            assert(str_views(exts@) =~= archive_exts());
            has_ext(name, &exts)
        },
    }
}

/// A number as `usize::from_str` reads it: an optional `+`, then decimal
/// digits, no larger than `usize::MAX`.
pub open spec fn spec_parse_usize(s: Seq<char>) -> Option<nat> {
    let t = if s.len() > 0 && s[0] == '+' {
        s.drop_first()
    } else {
        s
    };
    match digits_value(t) {
        Some(v) => if v <= usize::MAX {
            Some(v)
        } else {
            None
        },
        None => None,
    }
}

pub open spec fn offset_prefix() -> Seq<char> {
    seq!['o', 'f', 'f', 's', 'e', 't', ':']
}

/// The offset a cursor names: `offset:` and a number.
pub open spec fn spec_cursor_offset(cursor: Option<DirectoryCursor>) -> Option<nat> {
    match cursor {
        None => None,
        Some(c) => if starts_with(c.0@, offset_prefix()) {
            spec_parse_usize(c.0@.subrange(7, c.0@.len() as int))
        } else {
            None
        },
    }
}

pub fn parse_cursor_offset(cursor: Option<&DirectoryCursor>) -> (offset: Option<usize>)
    ensures
        match (offset, spec_cursor_offset(
            match cursor {
                Some(c) => Some(*c),
                None => None,
            },
        )) {
            (Some(x), Some(y)) => x == y,
            (None, None) => true,
            _ => false,
        },
{
    let c = match cursor {
        Some(c) => c,
        None => return None,
    };
    let s = c.0.as_str();
    proof {
        reveal_strlit("offset:");
        assert("offset:"@ =~= offset_prefix());
    }
    if !str_starts_with(s, "offset:") {
        return None;
    }
    let n = s.unicode_len();
    let rest = s.substring_char(7, n);
    let digits = if rest.unicode_len() > 0 && rest.get_char(0) == '+' {
        let k = rest.unicode_len();
        let d = rest.substring_char(1, k);
        assert(d@ =~= rest@.drop_first());
        d
    } else {
        rest
    };
    parse_usize_digits(digits)
}

/// The cursor of the page that starts at `offset`.
pub fn cursor_for_offset(offset: usize) -> (c: DirectoryCursor)
    ensures
        c.0@ == offset_prefix() + decimal(offset as nat),
{
    let digits = decimal_string(offset as u64);
    proof {
        reveal_strlit("offset:");
        assert("offset:"@ =~= offset_prefix());
    }
    DirectoryCursor(concat("offset:", digits.as_str()))
}

proof fn lemma_decimal_first_is_digit(n: nat)
    ensures
        decimal(n).len() >= 1,
        decimal(n)[0] != '+',
    decreases n,
{
    if n >= 10 {
        lemma_decimal_first_is_digit(n / 10);
        assert(decimal(n)[0] == decimal(n / 10)[0]);
    }
}

/// The cursor written for an offset reads back as that offset.
pub proof fn lemma_cursor_roundtrip(offset: usize, c: DirectoryCursor)
    requires
        c.0@ == offset_prefix() + decimal(offset as nat),
    ensures
        spec_cursor_offset(Some(c)) == Some(offset as nat),
{
    lemma_decimal_first_is_digit(offset as nat);
    crate::strings::lemma_decimal_roundtrip(offset as nat);
    assert(c.0@.subrange(0, 7) =~= offset_prefix());
    assert(c.0@.subrange(7, c.0@.len() as int) =~= decimal(offset as nat));
}

/// The options of a listing that sent none: the first page, the smaller of
/// the largest page and 200, no hidden entries, by name, unfiltered.
pub open spec fn default_options_for(o: HelperListDirectoryOptions, request: HelperRequest) -> bool {
    &&& o.cursor is None
    &&& o.limit == (if request.limits.max_directory_page_size < 200 {
        request.limits.max_directory_page_size
    } else {
        200
    })
    &&& !o.include_hidden
    &&& o.sort == SortMode::NameAsc
    &&& o.filter.query is None
    &&& o.filter.file_kind is None
    &&& o.filter.filter == Some(FileFilter::All)
}

pub fn default_list_options(request: &HelperRequest) -> (o: HelperListDirectoryOptions)
    ensures
        default_options_for(o, *request),
{
    let max = request.limits.max_directory_page_size;
    HelperListDirectoryOptions {
        cursor: None,
        limit: if max < 200 {
            max
        } else {
            200
        },
        include_hidden: false,
        sort: SortMode::NameAsc,
        filter: FilterMode { query: None, file_kind: None, filter: Some(FileFilter::All) },
    }
}

/// The page of `entries` that starts at `offset` and holds at most `limit`
/// entries, and whether more follow it.
pub open spec fn spec_page<T>(entries: Seq<T>, offset: nat, limit: nat) -> (Seq<T>, bool) {
    let rest = if offset < entries.len() {
        entries.subrange(offset as int, entries.len() as int)
    } else {
        Seq::empty()
    };
    if rest.len() > limit {
        (rest.take(limit as int), true)
    } else {
        (rest, false)
    }
}

/// Pages tile the listing: a page that says more follows is exactly `limit`
/// entries long, and it followed by the page that starts where it ended is
/// the page of both limits together; a page that says nothing follows runs
/// to the end of the listing.
pub proof fn lemma_pages_tile<T>(entries: Seq<T>, offset: nat, limit: nat, next_limit: nat)
    ensures
        spec_page(entries, offset, limit).1 ==> {
            &&& spec_page(entries, offset, limit).0.len() == limit
            &&& spec_page(entries, offset, limit).0 + spec_page(entries, offset + limit, next_limit).0
                == spec_page(entries, offset, limit + next_limit).0
        },
        !spec_page(entries, offset, limit).1 ==> spec_page(entries, offset, limit).0 == (
            if offset < entries.len() {
                entries.subrange(offset as int, entries.len() as int)
            } else {
                Seq::empty()
            }),
{
    if spec_page(entries, offset, limit).1 {
        let a = spec_page(entries, offset, limit).0;
        let b = spec_page(entries, offset + limit, next_limit).0;
        let c = spec_page(entries, offset, limit + next_limit).0;
        assert(a + b =~= c);
    }
}

pub fn page_entries(entries: Vec<HelperDirectoryEntry>, offset: usize, limit: usize) -> (page: (
    Vec<HelperDirectoryEntry>,
    bool,
))
    ensures
        (page.0@, page.1) == spec_page(entries@, offset as nat, limit as nat),
{
    let mut entries = entries;
    let ghost all = entries@;
    if offset >= entries.len() {
        return (Vec::new(), false);
    }
    let mut rest = entries.split_off(offset);
    assert(rest@ =~= all.subrange(offset as int, all.len() as int));
    if rest.len() > limit {
        rest.truncate(limit);
        assert(rest@ =~= all.subrange(offset as int, all.len() as int).take(limit as int));
        (rest, true)
    } else {
        (rest, false)
    }
}

/// `a` sorts before or with `b`: character by character, by code point, a
/// prefix first.
pub open spec fn lex_le(a: Seq<char>, b: Seq<char>) -> bool
    decreases a.len(),
{
    if a.len() == 0 {
        true
    } else if b.len() == 0 {
        false
    } else if a[0] as u32 != b[0] as u32 {
        (a[0] as u32) < (b[0] as u32)
    } else {
        lex_le(a.drop_first(), b.drop_first())
    }
}

pub proof fn lemma_lex_total(a: Seq<char>, b: Seq<char>)
    ensures
        lex_le(a, b) || lex_le(b, a),
    decreases a.len(),
{
    if a.len() > 0 && b.len() > 0 && a[0] as u32 == b[0] as u32 {
        lemma_lex_total(a.drop_first(), b.drop_first());
    }
}

pub fn str_lex_le(a: &str, b: &str) -> (le: bool)
    ensures
        le == lex_le(a@, b@),
{
    let na = a.unicode_len();
    let nb = b.unicode_len();
    let mut i: usize = 0;
    assert(a@.subrange(0, na as int) =~= a@);
    assert(b@.subrange(0, nb as int) =~= b@);
    while i < na && i < nb
        invariant
            na == a@.len(),
            nb == b@.len(),
            i <= na,
            i <= nb,
            lex_le(a@, b@) == lex_le(
                a@.subrange(i as int, na as int),
                b@.subrange(i as int, nb as int),
            ),
        decreases na - i,
    {
        let ca = a.get_char(i);
        let cb = b.get_char(i);
        let ghost sa = a@.subrange(i as int, na as int);
        let ghost sb = b@.subrange(i as int, nb as int);
        assert(sa[0] == ca && sb[0] == cb);
        if ca as u32 != cb as u32 {
            return (ca as u32) < (cb as u32);
        }
        assert(sa.drop_first() =~= a@.subrange(i + 1, na as int));
        assert(sb.drop_first() =~= b@.subrange(i + 1, nb as int));
        i = i + 1;
    }
    i == na
}

/// The order of the kinds when sorting by type.
pub open spec fn spec_kind_order(kind: FileKind) -> u8 {
    match kind {
        FileKind::Directory => 0,
        FileKind::File => 1,
        FileKind::Symlink => 2,
        FileKind::Other => 3,
    }
}

pub fn file_kind_order(kind: FileKind) -> (o: u8)
    ensures
        o == spec_kind_order(kind),
{
    match kind {
        FileKind::Directory => 0,
        FileKind::File => 1,
        FileKind::Symlink => 2,
        FileKind::Other => 3,
    }
}

/// Optional strings in order: none first.
pub open spec fn opt_lex_le(a: Option<String>, b: Option<String>) -> bool {
    match (a, b) {
        (None, _) => true,
        (Some(_), None) => false,
        (Some(x), Some(y)) => lex_le(x@, y@),
    }
}

/// `a` may come before `b` in a listing sorted by `sort`.
pub open spec fn entry_le(sort: SortMode, a: HelperDirectoryEntry, b: HelperDirectoryEntry) -> bool {
    match sort {
        SortMode::NameAsc => lex_le(a.name@, b.name@),
        SortMode::NameDesc => lex_le(b.name@, a.name@),
        SortMode::ModifiedAsc => opt_lex_le(a.modified, b.modified),
        SortMode::ModifiedDesc => opt_lex_le(b.modified, a.modified),
        SortMode::SizeAsc => a.size <= b.size,
        SortMode::SizeDesc => b.size <= a.size,
        SortMode::TypeAsc => spec_kind_order(a.file_type) <= spec_kind_order(b.file_type),
        SortMode::TypeDesc => spec_kind_order(b.file_type) <= spec_kind_order(a.file_type),
    }
}

pub proof fn lemma_entry_le_total(sort: SortMode, a: HelperDirectoryEntry, b: HelperDirectoryEntry)
    ensures
        entry_le(sort, a, b) || entry_le(sort, b, a),
{
    lemma_lex_total(a.name@, b.name@);
    if a.modified is Some && b.modified is Some {
        lemma_lex_total(a.modified->0@, b.modified->0@);
    }
}

fn opt_str_lex_le(a: &Option<String>, b: &Option<String>) -> (le: bool)
    ensures
        le == opt_lex_le(*a, *b),
{
    match (a, b) {
        (None, _) => true,
        (Some(_), None) => false,
        (Some(x), Some(y)) => str_lex_le(x.as_str(), y.as_str()),
    }
}

pub fn entry_precedes(sort: SortMode, a: &HelperDirectoryEntry, b: &HelperDirectoryEntry) -> (le: bool)
    ensures
        le == entry_le(sort, *a, *b),
{
    match sort {
        SortMode::NameAsc => str_lex_le(a.name.as_str(), b.name.as_str()),
        SortMode::NameDesc => str_lex_le(b.name.as_str(), a.name.as_str()),
        SortMode::ModifiedAsc => opt_str_lex_le(&a.modified, &b.modified),
        SortMode::ModifiedDesc => opt_str_lex_le(&b.modified, &a.modified),
        SortMode::SizeAsc => a.size <= b.size,
        SortMode::SizeDesc => b.size <= a.size,
        SortMode::TypeAsc => file_kind_order(a.file_type) <= file_kind_order(b.file_type),
        SortMode::TypeDesc => file_kind_order(b.file_type) <= file_kind_order(a.file_type),
    }
}

/// Each entry may come before the next.
pub open spec fn sorted_for(sort: SortMode, s: Seq<HelperDirectoryEntry>) -> bool {
    forall|i: int| 0 <= i < s.len() - 1 ==> #[trigger] entry_le(sort, s[i], s[i + 1])
}

/// `perm` lists, for each place of `out`, the place in `orig` its entry came
/// from: every place once, the entries carried over unchanged.
pub open spec fn arranges<T>(perm: Seq<int>, orig: Seq<T>, out: Seq<T>) -> bool {
    &&& perm.len() == orig.len()
    &&& out.len() == orig.len()
    &&& forall|k: int| 0 <= k < perm.len() ==> 0 <= #[trigger] perm[k] < orig.len()
    &&& forall|a: int, b: int| 0 <= a < b < perm.len() ==> #[trigger] perm[a] != #[trigger] perm[b]
    &&& forall|k: int| 0 <= k < out.len() ==> #[trigger] out[k] == orig[perm[k]]
}

/// `out` is `orig` sorted stably by `sort`: the same entries, each one
/// allowed before the next, and entries that sort alike in the order they
/// came.
pub open spec fn stable_sort_of(
    sort: SortMode,
    orig: Seq<HelperDirectoryEntry>,
    out: Seq<HelperDirectoryEntry>,
) -> bool {
    &&& sorted_for(sort, out)
    &&& exists|perm: Seq<int>|
        #[trigger] arranges(perm, orig, out) && forall|a: int, b: int|
            0 <= a < b < out.len() && entry_le(sort, #[trigger] out[b], #[trigger] out[a]) ==> perm[a]
                < perm[b]
}

/// Sorts a listing stably: the same entries, each one allowed before the
/// next, entries that sort alike kept in the order they came.
pub fn sort_entries(entries: &mut Vec<HelperDirectoryEntry>, sort: SortMode)
    ensures
        stable_sort_of(sort, old(entries)@, final(entries)@),
{
    let ghost orig = entries@;
    let mut out: Vec<HelperDirectoryEntry> = Vec::new();
    let ghost mut perm: Seq<int> = Seq::empty();
    assert(entries@ =~= orig.subrange(0, orig.len() as int));
    while entries.len() > 0
        invariant
            entries@.len() <= orig.len(),
            entries@ =~= orig.subrange(orig.len() - entries@.len(), orig.len() as int),
            arranges(perm, orig.subrange(0, orig.len() - entries@.len()), out@),
            sorted_for(sort, out@),
            forall|a: int, b: int|
                0 <= a < b < out@.len() && entry_le(sort, #[trigger] out@[b], #[trigger] out@[a]) ==> perm[a]
                    < perm[b],
        decreases entries@.len(),
    {
        let ghost before = entries@;
        let ghost i = orig.len() - before.len();
        let ghost done = orig.subrange(0, i);
        let x = entries.remove(0);
        assert(x == orig[i]);
        let mut j = out.len();
        while j > 0 && !entry_precedes(sort, &out[j - 1], &x)
            invariant
                j <= out@.len(),
                forall|k: int| j <= k < out@.len() ==> !entry_le(sort, #[trigger] out@[k], x),
            decreases j,
        {
            j = j - 1;
        }
        let ghost prev = out@;
        let ghost old_perm = perm;
        proof {
            if j > 0 {
                assert(entry_le(sort, prev[j - 1], x));
            }
            if j < prev.len() {
                lemma_entry_le_total(sort, prev[j as int], x);
            }
        }
        out.insert(j, x);
        proof {
            perm = old_perm.insert(j as int, i);
            let now = orig.subrange(0, i + 1);
            assert forall|k: int| 0 <= k < perm.len() implies 0 <= #[trigger] perm[k] < now.len() by {
                if k < j {
                    assert(perm[k] == old_perm[k]);
                } else if k > j {
                    assert(perm[k] == old_perm[k - 1]);
                }
            }
            assert forall|a: int, b: int| 0 <= a < b < perm.len() implies #[trigger] perm[a] != #[trigger] perm[b] by {
                if a != j && b != j {
                    let a0 = if a < j { a } else { a - 1 };
                    let b0 = if b < j { b } else { b - 1 };
                    assert(perm[a] == old_perm[a0] && perm[b] == old_perm[b0]);
                } else if a == j {
                    assert(perm[b] == old_perm[b - 1]);
                } else {
                    assert(perm[a] == old_perm[a]);
                }
            }
            assert forall|k: int| 0 <= k < out@.len() implies #[trigger] out@[k] == now[perm[k]] by {
                if k < j {
                    assert(out@[k] == prev[k] && perm[k] == old_perm[k]);
                    assert(prev[k] == done[old_perm[k]]);
                } else if k > j {
                    assert(out@[k] == prev[k - 1] && perm[k] == old_perm[k - 1]);
                    assert(prev[k - 1] == done[old_perm[k - 1]]);
                }
            }
            assert(arranges(perm, now, out@));
            assert forall|a: int, b: int|
                0 <= a < b < out@.len() && entry_le(sort, #[trigger] out@[b], #[trigger] out@[a]) implies perm[a]
                    < perm[b] by {
                if a != j && b != j {
                    let a0 = if a < j { a } else { a - 1 };
                    let b0 = if b < j { b } else { b - 1 };
                    assert(perm[a] == old_perm[a0] && perm[b] == old_perm[b0]);
                    assert(out@[a] == prev[a0] && out@[b] == prev[b0]);
                } else if a == j {
                    assert(out@[b] == prev[b - 1]);
                } else {
                    assert(perm[a] == old_perm[a]);
                }
            }
            assert forall|k: int| 0 <= k < out@.len() - 1 implies #[trigger] entry_le(sort, out@[k], out@[k + 1]) by {
                if k < j - 1 {
                    assert(out@[k] == prev[k] && out@[k + 1] == prev[k + 1]);
                } else if k == j - 1 {
                    assert(out@[k] == prev[k] && out@[k + 1] == x);
                } else if k == j {
                    assert(out@[k] == x && out@[k + 1] == prev[k]);
                } else {
                    assert(out@[k] == prev[k - 1] && out@[k + 1] == prev[k]);
                    assert(entry_le(sort, prev[k - 1], prev[k - 1 + 1]));
                }
            }
        }
    }
    assert(orig.subrange(0, orig.len() as int) =~= orig);
    *entries = out;
}

/// `lex_le` is transitive.
pub proof fn lemma_lex_transitive(a: Seq<char>, b: Seq<char>, c: Seq<char>)
    requires
        lex_le(a, b),
        lex_le(b, c),
    ensures
        lex_le(a, c),
    decreases a.len(),
{
    if a.len() > 0 && b.len() > 0 && c.len() > 0 && a[0] as u32 == b[0] as u32 && b[0] as u32
        == c[0] as u32 {
        lemma_lex_transitive(a.drop_first(), b.drop_first(), c.drop_first());
    }
}

/// The order of a listing is transitive, whatever it sorts by.
pub proof fn lemma_entry_le_transitive(
    sort: SortMode,
    a: HelperDirectoryEntry,
    b: HelperDirectoryEntry,
    c: HelperDirectoryEntry,
)
    requires
        entry_le(sort, a, b),
        entry_le(sort, b, c),
    ensures
        entry_le(sort, a, c),
{
    match sort {
        SortMode::NameAsc => lemma_lex_transitive(a.name@, b.name@, c.name@),
        SortMode::NameDesc => lemma_lex_transitive(c.name@, b.name@, a.name@),
        SortMode::ModifiedAsc => {
            if a.modified is Some && b.modified is Some && c.modified is Some {
                lemma_lex_transitive(a.modified->0@, b.modified->0@, c.modified->0@);
            }
        },
        SortMode::ModifiedDesc => {
            if a.modified is Some && b.modified is Some && c.modified is Some {
                lemma_lex_transitive(c.modified->0@, b.modified->0@, a.modified->0@);
            }
        },
        _ => {},
    }
}

/// In a listing where each entry may come before the next, any entry may
/// come before any later one.
proof fn lemma_sorted_pair(sort: SortMode, s: Seq<HelperDirectoryEntry>, a: int, b: int)
    requires
        sorted_for(sort, s),
        0 <= a < b < s.len(),
    ensures
        entry_le(sort, s[a], s[b]),
    decreases b - a,
{
    if b > a + 1 {
        lemma_sorted_pair(sort, s, a, b - 1);
        assert(entry_le(sort, s[b - 1], s[b - 1 + 1]));
        lemma_entry_le_transitive(sort, s[a], s[b - 1], s[b]);
    } else {
        assert(entry_le(sort, s[a], s[a + 1]));
    }
}

/// The place `p` of `orig` goes before the place `q` in a stable sort:
/// its entry sorts first, or the two sort alike and `p` came first.
pub open spec fn goes_before(sort: SortMode, orig: Seq<HelperDirectoryEntry>, p: int, q: int) -> bool {
    &&& entry_le(sort, orig[p], orig[q])
    &&& (!entry_le(sort, orig[q], orig[p]) || p < q)
}

/// An arrangement takes every place of the original.
proof fn lemma_arrangement_onto<T>(perm: Seq<int>, orig: Seq<T>, out: Seq<T>, p: int)
    requires
        arranges(perm, orig, out),
        0 <= p < orig.len(),
    ensures
        exists|k: int| 0 <= k < perm.len() && #[trigger] perm[k] == p,
{
    let n = orig.len() as int;
    assert(perm.no_duplicates()) by {
        assert forall|i: int, j: int| 0 <= i < perm.len() && 0 <= j < perm.len() && i != j implies perm[i]
            != perm[j] by {
            if i < j {
                assert(perm[i] != perm[j]);
            } else {
                assert(perm[j] != perm[i]);
            }
        }
    }
    perm.unique_seq_to_set();
    vstd::set_lib::lemma_int_range(0, n);
    assert(perm.to_set().subset_of(vstd::set_lib::set_int_range(0, n))) by {
        assert forall|v: int| #[trigger] perm.to_set().contains(v) implies vstd::set_lib::set_int_range(
            0,
            n,
        ).contains(v) by {
            let k = choose|k: int| 0 <= k < perm.len() && perm[k] == v;
        }
    }
    vstd::seq_lib::seq_to_set_is_finite(perm);
    vstd::set_lib::lemma_subset_equality(perm.to_set(), vstd::set_lib::set_int_range(0, n));
    assert(vstd::set_lib::set_int_range(0, n).contains(p));
    assert(perm.to_set().contains(p));
}

/// A stable sort puts the places of the original in the order `goes_before`
/// gives.
proof fn lemma_stable_sort_order(
    sort: SortMode,
    orig: Seq<HelperDirectoryEntry>,
    out: Seq<HelperDirectoryEntry>,
    perm: Seq<int>,
    a: int,
    b: int,
)
    requires
        sorted_for(sort, out),
        arranges(perm, orig, out),
        forall|i: int, j: int|
            0 <= i < j < out.len() && entry_le(sort, #[trigger] out[j], #[trigger] out[i]) ==> perm[i] < perm[j],
        0 <= a < b < out.len(),
    ensures
        goes_before(sort, orig, perm[a], perm[b]),
{
    lemma_sorted_pair(sort, out, a, b);
    assert(out[a] == orig[perm[a]] && out[b] == orig[perm[b]]);
}

/// A listing has one stable sort only: any two stable sorts of the same
/// entries by the same order are the same sequence.
pub proof fn lemma_stable_sort_unique(
    sort: SortMode,
    orig: Seq<HelperDirectoryEntry>,
    out1: Seq<HelperDirectoryEntry>,
    out2: Seq<HelperDirectoryEntry>,
)
    requires
        stable_sort_of(sort, orig, out1),
        stable_sort_of(sort, orig, out2),
    ensures
        out1 == out2,
{
    let perm1 = choose|perm: Seq<int>|
        #[trigger] arranges(perm, orig, out1) && forall|a: int, b: int|
            0 <= a < b < out1.len() && entry_le(sort, #[trigger] out1[b], #[trigger] out1[a]) ==> perm[a]
                < perm[b];
    let perm2 = choose|perm: Seq<int>|
        #[trigger] arranges(perm, orig, out2) && forall|a: int, b: int|
            0 <= a < b < out2.len() && entry_le(sort, #[trigger] out2[b], #[trigger] out2[a]) ==> perm[a]
                < perm[b];
    lemma_arrangements_agree(sort, orig, out1, out2, perm1, perm2, orig.len());
    assert forall|k: int| 0 <= k < out1.len() implies out1[k] == out2[k] by {
        assert(out1[k] == orig[perm1[k]]);
        assert(out2[k] == orig[perm2[k]]);
    }
    assert(out1 =~= out2);
}

/// Two stable sorts take the same place of the original at each of their
/// first `k` places.
proof fn lemma_arrangements_agree(
    sort: SortMode,
    orig: Seq<HelperDirectoryEntry>,
    out1: Seq<HelperDirectoryEntry>,
    out2: Seq<HelperDirectoryEntry>,
    perm1: Seq<int>,
    perm2: Seq<int>,
    k: nat,
)
    requires
        sorted_for(sort, out1),
        sorted_for(sort, out2),
        arranges(perm1, orig, out1),
        arranges(perm2, orig, out2),
        forall|a: int, b: int|
            0 <= a < b < out1.len() && entry_le(sort, #[trigger] out1[b], #[trigger] out1[a]) ==> perm1[a]
                < perm1[b],
        forall|a: int, b: int|
            0 <= a < b < out2.len() && entry_le(sort, #[trigger] out2[b], #[trigger] out2[a]) ==> perm2[a]
                < perm2[b],
        k <= orig.len(),
    ensures
        forall|j: int| 0 <= j < k ==> #[trigger] perm1[j] == perm2[j],
    decreases k,
{
    if k > 0 {
        let i = k - 1;
        lemma_arrangements_agree(sort, orig, out1, out2, perm1, perm2, (k - 1) as nat);
        let x = perm1[i];
        let y = perm2[i];
        if x != y {
            lemma_arrangement_onto(perm2, orig, out2, x);
            let m = choose|m: int| 0 <= m < perm2.len() && #[trigger] perm2[m] == x;
            lemma_arrangement_onto(perm1, orig, out1, y);
            let m1 = choose|m: int| 0 <= m < perm1.len() && #[trigger] perm1[m] == y;
            if m < i {
                assert(perm1[m] == perm2[m]);
                assert(perm1[m] != perm1[i]);
            }
            if m1 < i {
                assert(perm1[m1] == perm2[m1]);
                assert(perm2[m1] != perm2[i]);
            }
            assert(m > i && m1 > i);
            lemma_stable_sort_order(sort, orig, out2, perm2, i, m);
            lemma_stable_sort_order(sort, orig, out1, perm1, i, m1);
            assert(false);
        }
    }
}

/// The page a listing answers with: the entries sorted, then the page at
/// the cursor's offset (0 without a valid cursor) of at most `limit`
/// entries; a cursor for the next page when more follow; the number of
/// entries listed in all.
pub open spec fn listing_page_ok(
    r: HelperResponse,
    request: HelperRequest,
    entries: Seq<HelperDirectoryEntry>,
    cursor: Option<DirectoryCursor>,
    sort: SortMode,
    limit: usize,
) -> bool {
    let offset = start_offset(cursor);
    exists|sorted: Seq<HelperDirectoryEntry>| {
        &&& #[trigger] stable_sort_of(sort, entries, sorted)
        &&& r.payload matches HelperResponsePayload::DirectoryList(list)
        &&& (list.entries@, list.has_more) == spec_page(sorted, offset, limit as nat)
        &&& list.total_estimate == Some(entries.len() as usize)
        &&& if list.has_more {
            list.next_cursor matches Some(c) && c.0@ == offset_prefix() + decimal(
                offset + list.entries@.len(),
            )
        } else {
            list.next_cursor is None
        }
        &&& is_success_response(r, request, 0, None, r.payload)
    }
}

/// The offset a listing starts at for `cursor`: the cursor's offset, or 0
/// without a valid cursor.
pub open spec fn start_offset(cursor: Option<DirectoryCursor>) -> nat {
    match spec_cursor_offset(cursor) {
        Some(o) => o,
        None => 0,
    }
}

/// Following a page's next cursor continues where the page ended: a page
/// that says more follow, then the page its cursor asks for, are together
/// what one page of both sizes from the same cursor gives, and say alike
/// whether more follow. (The next offset must fit a `usize`.)
pub proof fn lemma_next_cursor_continues(
    r1: HelperResponse,
    r2: HelperResponse,
    r3: HelperResponse,
    request1: HelperRequest,
    request2: HelperRequest,
    request3: HelperRequest,
    l1: HelperDirectoryList,
    l2: HelperDirectoryList,
    l3: HelperDirectoryList,
    entries: Seq<HelperDirectoryEntry>,
    cursor: Option<DirectoryCursor>,
    sort: SortMode,
    limit1: usize,
    limit2: usize,
)
    requires
        listing_page_ok(r1, request1, entries, cursor, sort, limit1),
        r1.payload == HelperResponsePayload::DirectoryList(l1),
        l1.has_more,
        listing_page_ok(r2, request2, entries, l1.next_cursor, sort, limit2),
        r2.payload == HelperResponsePayload::DirectoryList(l2),
        limit1 + limit2 <= usize::MAX,
        listing_page_ok(r3, request3, entries, cursor, sort, (limit1 + limit2) as usize),
        r3.payload == HelperResponsePayload::DirectoryList(l3),
        start_offset(cursor) + limit1 <= usize::MAX,
    ensures
        l1.entries@ + l2.entries@ == l3.entries@,
        l2.has_more == l3.has_more,
{
    let o = start_offset(cursor);
    let sorted1 = choose|sorted: Seq<HelperDirectoryEntry>| #[trigger] stable_sort_of(sort, entries, sorted) && {
        &&& r1.payload matches HelperResponsePayload::DirectoryList(list)
        &&& (list.entries@, list.has_more) == spec_page(sorted, o, limit1 as nat)
        &&& list.total_estimate == Some(entries.len() as usize)
        &&& if list.has_more {
            list.next_cursor matches Some(c) && c.0@ == offset_prefix() + decimal(o + list.entries@.len())
        } else {
            list.next_cursor is None
        }
        &&& is_success_response(r1, request1, 0, None, r1.payload)
    };
    let c = l1.next_cursor->0;
    assert(l1.entries@.len() == limit1);
    lemma_cursor_roundtrip((o + limit1) as usize, c);
    let o2 = start_offset(l1.next_cursor);
    assert(o2 == o + limit1);
    let sorted2 = choose|sorted: Seq<HelperDirectoryEntry>| #[trigger] stable_sort_of(sort, entries, sorted) && {
        &&& r2.payload matches HelperResponsePayload::DirectoryList(list)
        &&& (list.entries@, list.has_more) == spec_page(sorted, o2, limit2 as nat)
        &&& list.total_estimate == Some(entries.len() as usize)
        &&& if list.has_more {
            list.next_cursor matches Some(c) && c.0@ == offset_prefix() + decimal(o2 + list.entries@.len())
        } else {
            list.next_cursor is None
        }
        &&& is_success_response(r2, request2, 0, None, r2.payload)
    };
    let sorted3 = choose|sorted: Seq<HelperDirectoryEntry>| #[trigger] stable_sort_of(sort, entries, sorted) && {
        &&& r3.payload matches HelperResponsePayload::DirectoryList(list)
        &&& (list.entries@, list.has_more) == spec_page(sorted, o, (limit1 + limit2) as usize as nat)
        &&& list.total_estimate == Some(entries.len() as usize)
        &&& if list.has_more {
            list.next_cursor matches Some(c) && c.0@ == offset_prefix() + decimal(o + list.entries@.len())
        } else {
            list.next_cursor is None
        }
        &&& is_success_response(r3, request3, 0, None, r3.payload)
    };
    lemma_stable_sort_unique(sort, entries, sorted1, sorted2);
    lemma_stable_sort_unique(sort, entries, sorted1, sorted3);
    lemma_pages_tile(sorted1, o, limit1 as nat, limit2 as nat);
}

pub fn listing_response(
    request: &HelperRequest,
    entries: Vec<HelperDirectoryEntry>,
    cursor: &Option<DirectoryCursor>,
    sort: SortMode,
    limit: usize,
) -> (r: HelperResponse)
    ensures
        listing_page_ok(r, *request, entries@, *cursor, sort, limit),
{
    let ghost orig = entries@;
    let mut entries = entries;
    sort_entries(&mut entries, sort);
    let ghost sorted = entries@;
    assert(sorted.len() == orig.len());
    let offset = match parse_cursor_offset(cursor.as_ref()) {
        Some(o) => o,
        None => 0,
    };
    let total = entries.len();
    let (page, has_more) = page_entries(entries, offset, limit);
    let next_cursor = if has_more {
        Some(cursor_for_offset(offset + page.len()))
    } else {
        None
    };
    let list = HelperDirectoryList {
        entries: page,
        has_more,
        next_cursor,
        total_estimate: Some(total),
    };
    let r = HelperResponse::directory_list(request, list);
    assert(listing_page_ok(r, *request, orig, *cursor, sort, limit) && stable_sort_of(sort, orig, sorted));
    r
}

/// The options a listing runs with: the request's own, else the defaults.
pub open spec fn spec_listing_options(request: HelperRequest) -> HelperListDirectoryOptions {
    match request.list_options {
        Some(given) => given,
        None => HelperListDirectoryOptions {
            cursor: None,
            limit: if request.limits.max_directory_page_size < 200 {
                request.limits.max_directory_page_size
            } else {
                200
            },
            include_hidden: false,
            sort: SortMode::NameAsc,
            filter: FilterMode { query: None, file_kind: None, filter: Some(FileFilter::All) },
        },
    }
}

/// The options a listing runs with: the request's own, else the defaults.
pub fn listing_options(request: &HelperRequest) -> (o: HelperListDirectoryOptions)
    ensures
        match request.list_options {
            Some(given) => o == given,
            None => default_options_for(o, *request),
        },
        o == spec_listing_options(*request),
{
    match &request.list_options {
        Some(given) => HelperListDirectoryOptions {
            cursor: crate::fs::listing::clone_cursor(&given.cursor),
            limit: given.limit,
            include_hidden: given.include_hidden,
            sort: given.sort,
            filter: crate::fs::listing::clone_filter(&given.filter),
        },
        None => default_list_options(request),
    }
}

/// The page size a listing uses: the asked size, capped at the request's
/// largest page.
pub fn listing_limit(options: &HelperListDirectoryOptions, request: &HelperRequest) -> (limit: usize)
    ensures
        limit == (if options.limit < request.limits.max_directory_page_size {
            options.limit
        } else {
            request.limits.max_directory_page_size
        }),
{
    if options.limit < request.limits.max_directory_page_size {
        options.limit
    } else {
        request.limits.max_directory_page_size
    }
}

/// A hidden entry (its name starts with `.`) is skipped unless hidden
/// entries are asked for.
pub fn entry_skipped_hidden(name: &str, include_hidden: bool) -> (skipped: bool)
    ensures
        skipped == (name@.len() > 0 && name@[0] == '.' && !include_hidden),
{
    let n = name.unicode_len();
    n > 0 && name.get_char(0) == '.' && !include_hidden
}

/// The description of an entry the filter keeps; `None` for one it drops.
pub fn listing_entry(
    name: String,
    stat: &FileStat,
    root: &AllowedRoot,
    sensitive_config: &SensitivePolicyConfig,
    filter: &FilterMode,
) -> (e: Option<HelperDirectoryEntry>)
    ensures
        match e {
            Some(entry) => spec_matches_filter(
                name@,
                spec_file_kind(*stat),
                *filter,
                name@.len() > 0 && name@[0] == '.',
                stat.is_symlink,
            ) && entry_from_stat(entry, name@, *stat, *root, *sensitive_config),
            None => !spec_matches_filter(
                name@,
                spec_file_kind(*stat),
                *filter,
                name@.len() > 0 && name@[0] == '.',
                stat.is_symlink,
            ),
        },
{
    let kind = file_kind_of(stat);
    let n = name.as_str().unicode_len();
    let is_hidden = n > 0 && name.as_str().get_char(0) == '.';
    if !matches_filter(name.as_str(), kind, filter, is_hidden, stat.is_symlink) {
        return None;
    }
    Some(directory_entry_from_metadata(name, stat, root, sensitive_config))
}

/// Names sort character by character: when `a` and `b` agree on their first
/// `k` characters and `a` ends there or has the smaller code point at `k`,
/// `a` sorts first; when it has the smaller code point, `b` does not.
pub proof fn lemma_names_sort_by_first_difference(a: Seq<char>, b: Seq<char>, k: int)
    requires
        0 <= k <= a.len(),
        k <= b.len(),
        a.subrange(0, k) == b.subrange(0, k),
        k == a.len() || (k < b.len() && (a[k] as u32) < (b[k] as u32)),
    ensures
        lex_le(a, b),
        k < a.len() ==> !lex_le(b, a),
    decreases k,
{
    if k > 0 {
        assert(a[0] == a.subrange(0, k)[0]);
        assert(b[0] == b.subrange(0, k)[0]);
        assert(a.drop_first().subrange(0, k - 1) =~= a.subrange(0, k).drop_first());
        assert(b.drop_first().subrange(0, k - 1) =~= b.subrange(0, k).drop_first());
        lemma_names_sort_by_first_difference(a.drop_first(), b.drop_first(), k - 1);
    }
}

/// What each sort order means for two entries: by size, smaller first
/// ascending and larger first descending; by kind, directories first
/// ascending; a missing modification time first ascending; names by their
/// first differing character; and every descending order is its ascending
/// order turned round.
pub proof fn lemma_sort_orders_mean(a: HelperDirectoryEntry, b: HelperDirectoryEntry)
    ensures
        entry_le(SortMode::SizeAsc, a, b) <==> a.size <= b.size,
        entry_le(SortMode::SizeDesc, a, b) <==> a.size >= b.size,
        entry_le(SortMode::NameDesc, a, b) <==> entry_le(SortMode::NameAsc, b, a),
        entry_le(SortMode::ModifiedDesc, a, b) <==> entry_le(SortMode::ModifiedAsc, b, a),
        entry_le(SortMode::SizeDesc, a, b) <==> entry_le(SortMode::SizeAsc, b, a),
        entry_le(SortMode::TypeDesc, a, b) <==> entry_le(SortMode::TypeAsc, b, a),
        a.file_type == FileKind::Directory ==> entry_le(SortMode::TypeAsc, a, b),
        a.file_type != FileKind::Directory && b.file_type == FileKind::Directory ==> !entry_le(
            SortMode::TypeAsc,
            a,
            b,
        ),
        a.file_type == FileKind::File && (b.file_type == FileKind::Symlink || b.file_type
            == FileKind::Other) ==> entry_le(SortMode::TypeAsc, a, b) && !entry_le(
            SortMode::TypeAsc,
            b,
            a,
        ),
        a.modified is None ==> entry_le(SortMode::ModifiedAsc, a, b),
        a.modified is Some && b.modified is None ==> !entry_le(SortMode::ModifiedAsc, a, b),
        a.name@.len() <= b.name@.len() && a.name@ == b.name@.subrange(0, a.name@.len() as int)
            ==> entry_le(SortMode::NameAsc, a, b),
{
    if a.name@.len() <= b.name@.len() && a.name@ == b.name@.subrange(0, a.name@.len() as int) {
        assert(a.name@.subrange(0, a.name@.len() as int) =~= a.name@);
        lemma_names_sort_by_first_difference(a.name@, b.name@, a.name@.len() as int);
    }
}

/// A listing sorted by size ascending never has a larger entry before a
/// smaller one, and one sorted descending never a smaller before a larger.
pub proof fn lemma_sorted_by_size(s: Seq<HelperDirectoryEntry>, i: int, j: int)
    requires
        0 <= i <= j < s.len(),
    ensures
        sorted_for(SortMode::SizeAsc, s) ==> s[i].size <= s[j].size,
        sorted_for(SortMode::SizeDesc, s) ==> s[i].size >= s[j].size,
    decreases j - i,
{
    if i < j {
        lemma_sorted_by_size(s, i, j - 1);
        if sorted_for(SortMode::SizeAsc, s) {
            assert(entry_le(SortMode::SizeAsc, s[j - 1], s[(j - 1) + 1]));
        }
        if sorted_for(SortMode::SizeDesc, s) {
            assert(entry_le(SortMode::SizeDesc, s[j - 1], s[(j - 1) + 1]));
        }
    }
}

/// A listing sorted by type ascending has every directory before every entry
/// that is not one.
pub proof fn lemma_sorted_by_type(s: Seq<HelperDirectoryEntry>, i: int, j: int)
    requires
        0 <= i <= j < s.len(),
        sorted_for(SortMode::TypeAsc, s),
    ensures
        spec_kind_order(s[i].file_type) <= spec_kind_order(s[j].file_type),
        s[j].file_type == FileKind::Directory ==> s[i].file_type == FileKind::Directory,
    decreases j - i,
{
    if i < j {
        lemma_sorted_by_type(s, i, j - 1);
        assert(entry_le(SortMode::TypeAsc, s[j - 1], s[(j - 1) + 1]));
    }
}

/// What the kind filters keep: `Folders` only directories, `Hidden` only
/// hidden entries, `Symlinks` only links, a kind only entries of that kind,
/// and a query only names that hold it. With no query and no kind asked,
/// each of these filters keeps exactly those entries, and no filter (or
/// `All`) keeps every entry.
pub proof fn lemma_filters_keep(
    name: Seq<char>,
    file_type: FileKind,
    filter: FilterMode,
    is_hidden: bool,
    is_symlink: bool,
)
    ensures
        spec_matches_filter(name, file_type, filter, is_hidden, is_symlink) ==> {
            &&& filter.filter == Some(FileFilter::Folders) ==> file_type == FileKind::Directory
            &&& filter.filter == Some(FileFilter::Hidden) ==> is_hidden
            &&& filter.filter == Some(FileFilter::Symlinks) ==> is_symlink
            &&& filter.file_kind matches Some(k) ==> k == file_type
            &&& filter.query matches Some(q) ==> contains_ignore_case(name, q@)
        },
        filter.query is None && filter.file_kind is None ==> {
            &&& filter.filter == Some(FileFilter::Folders) ==> (spec_matches_filter(
                name,
                file_type,
                filter,
                is_hidden,
                is_symlink,
            ) <==> file_type == FileKind::Directory)
            &&& filter.filter == Some(FileFilter::Hidden) ==> (spec_matches_filter(
                name,
                file_type,
                filter,
                is_hidden,
                is_symlink,
            ) <==> is_hidden)
            &&& filter.filter == Some(FileFilter::Symlinks) ==> (spec_matches_filter(
                name,
                file_type,
                filter,
                is_hidden,
                is_symlink,
            ) <==> is_symlink)
            &&& (filter.filter is None || filter.filter == Some(FileFilter::All)) ==> spec_matches_filter(
                name,
                file_type,
                filter,
                is_hidden,
                is_symlink,
            )
        },
{
}

/// The letter a permission string shows at place `i` when the bit is set:
/// read, write, execute, in turn.
pub open spec fn rwx_letter(i: int) -> char {
    if i % 3 == 0 {
        'r'
    } else if i % 3 == 1 {
        'w'
    } else {
        'x'
    }
}

proof fn lemma_mode_bits(mode: u32)
    by (bit_vector)
    ensures
        (mode & 0o400u32 != 0) == ((mode >> 8u32) & 1u32 == 1u32),
        (mode & 0o200u32 != 0) == ((mode >> 7u32) & 1u32 == 1u32),
        (mode & 0o100u32 != 0) == ((mode >> 6u32) & 1u32 == 1u32),
        (mode & 0o040u32 != 0) == ((mode >> 5u32) & 1u32 == 1u32),
        (mode & 0o020u32 != 0) == ((mode >> 4u32) & 1u32 == 1u32),
        (mode & 0o010u32 != 0) == ((mode >> 3u32) & 1u32 == 1u32),
        (mode & 0o004u32 != 0) == ((mode >> 2u32) & 1u32 == 1u32),
        (mode & 0o002u32 != 0) == ((mode >> 1u32) & 1u32 == 1u32),
        (mode & 0o001u32 != 0) == (mode & 1u32 == 1u32),
{
}

/// A permission string has nine places; place `i` shows bit `8 - i` of the
/// mode (owner, then group, then others, each read, write, execute): its
/// letter when the bit is set, `-` when it is clear.
pub proof fn lemma_permission_places(mode: u32, i: int)
    requires
        0 <= i < 9,
    ensures
        spec_permissions(mode).len() == 9,
        spec_permissions(mode)[i] == (if (mode >> ((8 - i) as u32)) & 1u32 == 1u32 {
            rwx_letter(i)
        } else {
            '-'
        }),
{
    lemma_mode_bits(mode);
    assert(mode >> 0u32 == mode) by (bit_vector);
}

} // verus!
