//! Text previews in the helper. The helper reads the file; what it accepts
//! as text and how it describes it are decided here.
use vstd::prelude::*;

use crate::config::{AllowedRoot, SensitivePolicyConfig};
use crate::fs::components::{file_name, spec_file_name};
use crate::helper::listing::{directory_entry_from_metadata, entry_from_stat, FileStat};
use crate::helper::refusal::{refuse, spec_refusal, Refusal};
use crate::helper::types::{
    is_error_response, is_success_response, HelperDirectoryEntry, HelperRequest, HelperResponse, HelperResponsePayload,
    HelperTextFileContent,
};
use crate::strings::{
    after_last, ascii_lower_code, eq_lowered, lemma_last_index_of, lemma_last_index_unique, split_after_last,
    str_eq_lowered,
};
use vstd::utf8::{decode_utf8, valid_utf8};

verus! {

/// The bytes as UTF-8 text, when they are valid UTF-8.
///
/// Calls `String::from_utf8`, which, as its documentation says, succeeds
/// exactly on valid UTF-8 and then holds the characters the bytes encode.
#[verifier::external_body]
fn utf8_text(bytes: Vec<u8>) -> (text: Option<String>)
    ensures
        text is Some <==> valid_utf8(bytes@),
        text matches Some(t) ==> t@ == decode_utf8(bytes@),
{
    String::from_utf8(bytes).ok()
}

/// What the entry's own metadata allows: no symlink, no directory, only a
/// regular file no larger than the preview limit.
pub open spec fn spec_text_stat_check(stat: FileStat, max_text_edit_size: usize) -> Option<Refusal> {
    if stat.is_symlink {
        Some(Refusal::SymlinkPreviewDenied)
    } else if stat.is_dir {
        Some(Refusal::DirectoryPreviewUnsupported)
    } else if !stat.is_file {
        Some(Refusal::PreviewNotRegularFile)
    } else if stat.len > max_text_edit_size {
        Some(Refusal::PreviewTooLarge)
    } else {
        None
    }
}

pub fn text_stat_check(stat: &FileStat, max_text_edit_size: usize) -> (r: Option<Refusal>)
    ensures
        r == spec_text_stat_check(*stat, max_text_edit_size),
{
    if stat.is_symlink {
        Some(Refusal::SymlinkPreviewDenied)
    } else if stat.is_dir {
        Some(Refusal::DirectoryPreviewUnsupported)
    } else if !stat.is_file {
        Some(Refusal::PreviewNotRegularFile)
    } else if stat.len > max_text_edit_size as u64 {
        Some(Refusal::PreviewTooLarge)
    } else {
        None
    }
}

/// The name under which a resolved path is described: its last component,
/// or `.` when it has none.
pub open spec fn spec_entry_name(path: Seq<char>) -> Seq<char> {
    match spec_file_name(path) {
        Some(n) => n,
        None => seq!['.'],
    }
}

pub fn resolved_entry_name(path: &str) -> (name: String)
    ensures
        name@ == spec_entry_name(path@),
{
    match file_name(path) {
        Some(n) => n,
        None => {
            proof {
                reveal_strlit(".");
                assert("."@ =~= seq!['.']);
            }
            ".".to_owned()
        },
    }
}

/// A control byte other than a newline, a carriage return or a tab.
pub open spec fn is_control(b: u8) -> bool {
    b < 0x20 && b != 0x0a && b != 0x0d && b != 0x09
}

pub open spec fn control_count(s: Seq<u8>) -> nat
    decreases s.len(),
{
    if s.len() == 0 {
        0
    } else {
        control_count(s.drop_last()) + if is_control(s.last()) {
            1nat
        } else {
            0nat
        }
    }
}

/// More than a tenth of the bytes are control bytes.
pub open spec fn spec_too_many_control_chars(s: Seq<u8>) -> bool {
    s.len() > 0 && control_count(s) * 100 > s.len() * 10
}

proof fn lemma_control_count_bound(s: Seq<u8>)
    ensures
        control_count(s) <= s.len(),
    decreases s.len(),
{
    if s.len() > 0 {
        lemma_control_count_bound(s.drop_last());
    }
}

pub fn too_many_control_chars(bytes: &[u8]) -> (too_many: bool)
    ensures
        too_many == spec_too_many_control_chars(bytes@),
{
    let n = bytes.len();
    if n == 0 {
        return false;
    }
    let mut count: u64 = 0;
    let mut i: usize = 0;
    while i < n
        invariant
            n == bytes@.len(),
            i <= n,
            count == control_count(bytes@.subrange(0, i as int)),
            count <= i,
        decreases n - i,
    {
        let b = bytes[i];
        let ghost pre = bytes@.subrange(0, i as int + 1);
        assert(pre.drop_last() =~= bytes@.subrange(0, i as int));
        if b < 0x20 && b != 0x0a && b != 0x0d && b != 0x09 {
            count = count + 1;
        }
        i = i + 1;
    }
    assert(bytes@.subrange(0, n as int) =~= bytes@);
    (count as u128) * 100 > (n as u128) * 10
}

/// Whether the bytes hold a NUL.
pub fn contains_nul(bytes: &[u8]) -> (found: bool)
    ensures
        found == bytes@.contains(0u8),
{
    let mut i: usize = 0;
    while i < bytes.len()
        invariant
            i <= bytes@.len(),
            forall|j: int| 0 <= j < i ==> bytes@[j] != 0u8,
        decreases bytes@.len() - i,
    {
        if bytes[i] == 0 {
            assert(bytes@[i as int] == 0u8);
            return true;
        }
        i = i + 1;
    }
    false
}

pub open spec fn newline_count(s: Seq<char>) -> nat
    decreases s.len(),
{
    if s.len() == 0 {
        0
    } else {
        newline_count(s.drop_last()) + if s.last() == '\n' {
            1nat
        } else {
            0nat
        }
    }
}

/// The number of lines `str::lines` gives: one per newline, and one more
/// for text after the last newline.
pub open spec fn spec_line_count(s: Seq<char>) -> nat {
    newline_count(s) + if s.len() > 0 && s.last() != '\n' {
        1nat
    } else {
        0nat
    }
}

proof fn lemma_newline_count_bound(s: Seq<char>)
    ensures
        newline_count(s) <= s.len(),
    decreases s.len(),
{
    if s.len() > 0 {
        lemma_newline_count_bound(s.drop_last());
    }
}

pub fn line_count(text: &str) -> (n: usize)
    ensures
        n == spec_line_count(text@),
{
    let len = text.unicode_len();
    let mut count: usize = 0;
    let mut i: usize = 0;
    while i < len
        invariant
            len == text@.len(),
            i <= len,
            count == newline_count(text@.subrange(0, i as int)),
            count <= i,
        decreases len - i,
    {
        let ghost pre = text@.subrange(0, i as int + 1);
        assert(pre.drop_last() =~= text@.subrange(0, i as int));
        if text.get_char(i) == '\n' {
            count = count + 1;
        }
        i = i + 1;
    }
    assert(text@.subrange(0, len as int) =~= text@);
    if len > 0 && text.get_char(len - 1) != '\n' {
        proof {
            lemma_newline_count_bound(text@.drop_last());
        }
        count + 1
    } else {
        count
    }
}

/// The language a file name suggests, by its extension in any ASCII case.
pub open spec fn spec_language_hint(name: Seq<char>) -> Option<Seq<char>> {
    match after_last(name, '.') {
        None => None,
        Some(ext) => if eq_lowered("rs"@, ext) {
            Some("rust"@)
        } else if eq_lowered("js"@, ext) {
            Some("javascript"@)
        } else if eq_lowered("ts"@, ext) {
            Some("typescript"@)
        } else if eq_lowered("json"@, ext) {
            Some("json"@)
        } else if eq_lowered("html"@, ext) {
            Some("html"@)
        } else if eq_lowered("css"@, ext) {
            Some("css"@)
        } else if eq_lowered("md"@, ext) {
            Some("markdown"@)
        } else if eq_lowered("toml"@, ext) {
            Some("toml"@)
        } else if eq_lowered("yaml"@, ext) || eq_lowered("yml"@, ext) {
            Some("yaml"@)
        } else if eq_lowered("sh"@, ext) {
            Some("shell"@)
        } else if eq_lowered("py"@, ext) {
            Some("python"@)
        } else if eq_lowered("php"@, ext) {
            Some("php"@)
        } else if eq_lowered("txt"@, ext) {
            Some("text"@)
        } else {
            None
        },
    }
}

/// A name made of any stem, a dot and an extension without a dot has that
/// extension as the one its language is looked up by.
proof fn lemma_extension_of(stem: Seq<char>, ext: Seq<char>)
    requires
        !ext.contains('.'),
    ensures
        after_last(stem + seq!['.'] + ext, '.') == Some(ext),
{
    let name = stem + seq!['.'] + ext;
    let p = stem.len() as int;
    assert(name[p] == '.');
    assert forall|k: int| p < k < name.len() implies name[k] != '.' by {
        assert(name[k] == ext[k - p - 1]);
    }
    lemma_last_index_unique(name, '.', p);
    assert(name.subrange(p + 1, name.len() as int) =~= ext);
}

/// The extensions a preview names a language for, in lower case, each with
/// its language.
pub open spec fn language_table() -> Seq<(Seq<char>, Seq<char>)> {
    seq![
        ("rs"@, "rust"@),
        ("js"@, "javascript"@),
        ("ts"@, "typescript"@),
        ("json"@, "json"@),
        ("html"@, "html"@),
        ("css"@, "css"@),
        ("md"@, "markdown"@),
        ("toml"@, "toml"@),
        ("yaml"@, "yaml"@),
        ("yml"@, "yaml"@),
        ("sh"@, "shell"@),
        ("py"@, "python"@),
        ("php"@, "php"@),
        ("txt"@, "text"@),
    ]
}

proof fn lemma_extension_letters()
    ensures
        "rs"@[0] == 'r' && "rs"@[1] == 's' && "rs"@.len() == 2,
        "js"@[0] == 'j' && "js"@[1] == 's' && "js"@.len() == 2,
        "ts"@[0] == 't' && "ts"@[1] == 's' && "ts"@.len() == 2,
        "json"@[0] == 'j' && "json"@[1] == 's' && "json"@[2] == 'o' && "json"@[3] == 'n' && "json"@.len() == 4,
        "html"@[0] == 'h' && "html"@[1] == 't' && "html"@[2] == 'm' && "html"@[3] == 'l' && "html"@.len() == 4,
        "css"@[0] == 'c' && "css"@[1] == 's' && "css"@[2] == 's' && "css"@.len() == 3,
        "md"@[0] == 'm' && "md"@[1] == 'd' && "md"@.len() == 2,
        "toml"@[0] == 't' && "toml"@[1] == 'o' && "toml"@[2] == 'm' && "toml"@[3] == 'l' && "toml"@.len() == 4,
        "yaml"@[0] == 'y' && "yaml"@[1] == 'a' && "yaml"@[2] == 'm' && "yaml"@[3] == 'l' && "yaml"@.len() == 4,
        "yml"@[0] == 'y' && "yml"@[1] == 'm' && "yml"@[2] == 'l' && "yml"@.len() == 3,
        "sh"@[0] == 's' && "sh"@[1] == 'h' && "sh"@.len() == 2,
        "py"@[0] == 'p' && "py"@[1] == 'y' && "py"@.len() == 2,
        "php"@[0] == 'p' && "php"@[1] == 'h' && "php"@[2] == 'p' && "php"@.len() == 3,
        "txt"@[0] == 't' && "txt"@[1] == 'x' && "txt"@[2] == 't' && "txt"@.len() == 3,
{
    reveal_strlit("rs");
    reveal_strlit("js");
    reveal_strlit("ts");
    reveal_strlit("json");
    reveal_strlit("html");
    reveal_strlit("css");
    reveal_strlit("md");
    reveal_strlit("toml");
    reveal_strlit("yaml");
    reveal_strlit("yml");
    reveal_strlit("sh");
    reveal_strlit("py");
    reveal_strlit("php");
    reveal_strlit("txt");
}

/// A name made of any stem, a dot and an extension without a dot gets the
/// language the table gives that extension, whatever the ASCII case of the
/// extension (so `script.py` and `SCRIPT.PY` are both Python).
pub proof fn lemma_language_of_extension(stem: Seq<char>, ext: Seq<char>, i: int)
    requires
        0 <= i < language_table().len(),
        !ext.contains('.'),
        eq_lowered(language_table()[i].0, ext),
    ensures
        spec_language_hint(stem + seq!['.'] + ext) == Some(language_table()[i].1),
{
    lemma_extension_of(stem, ext);
    lemma_extension_letters();
    let t = language_table();
    if i == 0 {
        assert(t[0] == ("rs"@, "rust"@));
    } else if i == 1 {
        assert(t[1] == ("js"@, "javascript"@));
    } else if i == 2 {
        assert(t[2] == ("ts"@, "typescript"@));
    } else if i == 3 {
        assert(t[3] == ("json"@, "json"@));
    } else if i == 4 {
        assert(t[4] == ("html"@, "html"@));
    } else if i == 5 {
        assert(t[5] == ("css"@, "css"@));
    } else if i == 6 {
        assert(t[6] == ("md"@, "markdown"@));
    } else if i == 7 {
        assert(t[7] == ("toml"@, "toml"@));
    } else if i == 8 {
        assert(t[8] == ("yaml"@, "yaml"@));
    } else if i == 9 {
        assert(t[9] == ("yml"@, "yaml"@));
    } else if i == 10 {
        assert(t[10] == ("sh"@, "shell"@));
    } else if i == 11 {
        assert(t[11] == ("py"@, "python"@));
    } else if i == 12 {
        assert(t[12] == ("php"@, "php"@));
    } else if i == 13 {
        assert(t[13] == ("txt"@, "text"@));
    }
}

/// A name without a dot gets no language.
pub proof fn lemma_no_extension_no_language(name: Seq<char>)
    requires
        !name.contains('.'),
    ensures
        spec_language_hint(name) is None,
{
    lemma_last_index_of(name, '.');
}

pub fn language_hint(name: &str) -> (hint: Option<String>)
    ensures
        match (hint, spec_language_hint(name@)) {
            (Some(h), Some(s)) => h@ == s,
            (None, None) => true,
            _ => false,
        },
{
    let ext = match split_after_last(name, '.') {
        Some(ext) => ext,
        None => return None,
    };
    let language = if str_eq_lowered("rs", ext) {
        "rust"
    } else if str_eq_lowered("js", ext) {
        "javascript"
    } else if str_eq_lowered("ts", ext) {
        "typescript"
    } else if str_eq_lowered("json", ext) {
        "json"
    } else if str_eq_lowered("html", ext) {
        "html"
    } else if str_eq_lowered("css", ext) {
        "css"
    } else if str_eq_lowered("md", ext) {
        "markdown"
    } else if str_eq_lowered("toml", ext) {
        "toml"
    } else if str_eq_lowered("yaml", ext) || str_eq_lowered("yml", ext) {
        "yaml"
    } else if str_eq_lowered("sh", ext) {
        "shell"
    } else if str_eq_lowered("py", ext) {
        "python"
    } else if str_eq_lowered("php", ext) {
        "php"
    } else if str_eq_lowered("txt", ext) {
        "text"
    } else {
        return None;
    };
    Some(language.to_owned())
}

/// The preview of a file already read: binary content (a NUL, or too many
/// control bytes) and invalid UTF-8 are refused; otherwise the text with its
/// entry's description, line count and language.
pub open spec fn text_response_ok(
    r: HelperResponse,
    request: HelperRequest,
    root: AllowedRoot,
    sensitive_config: SensitivePolicyConfig,
    name: Seq<char>,
    stat: FileStat,
    bytes: Seq<u8>,
) -> bool {
    if bytes.contains(0u8) || spec_too_many_control_chars(bytes) {
        is_error_response(r, request, spec_refusal(Refusal::BinaryFile).0, spec_refusal(Refusal::BinaryFile).1, spec_refusal(Refusal::BinaryFile).2)
    } else if !valid_utf8(bytes) {
        is_error_response(
            r,
            request,
            spec_refusal(Refusal::InvalidTextEncoding).0,
            spec_refusal(Refusal::InvalidTextEncoding).1,
            spec_refusal(Refusal::InvalidTextEncoding).2,
        )
    } else {
        exists|entry: HelperDirectoryEntry, c: HelperTextFileContent| {
            &&& #[trigger] entry_from_stat(entry, name, stat, root, sensitive_config)
            &&& #[trigger] is_success_response(r, request, stat.len, None, HelperResponsePayload::TextFileContent(c))
            &&& c.name == entry.name
            &&& c.content@ == decode_utf8(bytes)
            &&& c.encoding@ == "utf-8"@
            &&& c.size == stat.len
            &&& c.modified == entry.modified
            &&& c.owner == entry.owner
            &&& c.group == entry.group
            &&& c.mode == entry.mode
            &&& c.permissions == entry.permissions
            &&& c.is_sensitive == entry.is_sensitive
            &&& c.is_hidden == entry.is_hidden
            &&& c.is_read_only == request.policy_context.read_only_root
            &&& !c.truncated
            &&& c.line_count == Some(spec_line_count(c.content@) as usize)
            &&& match (c.language_hint, spec_language_hint(name)) {
                (Some(h), Some(s)) => h@ == s,
                (None, None) => true,
                _ => false,
            }
        }
    }
}

pub fn text_response(
    request: &HelperRequest,
    root: &AllowedRoot,
    sensitive_config: &SensitivePolicyConfig,
    name: String,
    stat: &FileStat,
    bytes: Vec<u8>,
) -> (r: HelperResponse)
    ensures
        text_response_ok(r, *request, *root, *sensitive_config, name@, *stat, bytes@),
{
    let ghost name_view = name@;
    let ghost byte_view = bytes@;
    let entry = directory_entry_from_metadata(name, stat, root, sensitive_config);
    let ghost entry_view = entry;
    if contains_nul(bytes.as_slice()) || too_many_control_chars(bytes.as_slice()) {
        return refuse(request, Refusal::BinaryFile);
    }
    let content = match utf8_text(bytes) {
        Some(t) => t,
        None => return refuse(request, Refusal::InvalidTextEncoding),
    };
    let lines = line_count(content.as_str());
    let hint = language_hint(entry.name.as_str());
    let c = HelperTextFileContent {
        name: entry.name,
        content,
        encoding: "utf-8".to_owned(),
        size: stat.len,
        modified: entry.modified,
        owner: entry.owner,
        group: entry.group,
        mode: entry.mode,
        permissions: entry.permissions,
        is_sensitive: entry.is_sensitive,
        is_hidden: entry.is_hidden,
        is_read_only: request.policy_context.read_only_root,
        truncated: false,
        line_count: Some(lines),
        language_hint: hint,
    };
    let ghost cv = c;
    let ghost ev = entry_view;
    let r = HelperResponse::text_file_content(request, c);
    assert(entry_from_stat(ev, name_view, *stat, *root, *sensitive_config));
    assert(is_success_response(r, *request, stat.len, None, HelperResponsePayload::TextFileContent(cv)));
    assert(text_response_ok(r, *request, *root, *sensitive_config, name_view, *stat, byte_view));
    r
}

} // verus!
