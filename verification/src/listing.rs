//! Reading the output of `ls -l --time-style=+%s` inside a container into SFTP
//! file entries.
use vstd::prelude::*;

use crate::number::{parse_u32, parse_u32_spec, parse_u64, parse_u64_spec};
use crate::text::{fields, fields_str, is_ascii_char, split, split_str, to_chars};
use crate::file::{path_components, path_push};

verus! {

/// The attributes of an SFTP file entry (the fields of
/// `russh_sftp::protocol::FileAttributes`).
#[derive(Debug, Clone, PartialEq, Eq, Default)]
pub struct FileAttrs {
    pub size: Option<u64>,
    pub uid: Option<u32>,
    pub user: Option<String>,
    pub gid: Option<u32>,
    pub group: Option<String>,
    pub permissions: Option<u32>,
    pub atime: Option<u32>,
    pub mtime: Option<u32>,
}

/// An SFTP file entry (the fields of `russh_sftp::protocol::File`).
#[derive(Debug, Clone, PartialEq, Eq)]
pub struct FileEntry {
    pub filename: String,
    pub longname: String,
    pub attrs: FileAttrs,
}

pub struct FileAttrsView {
    pub size: Option<u64>,
    pub uid: Option<u32>,
    pub user: Option<Seq<char>>,
    pub gid: Option<u32>,
    pub group: Option<Seq<char>>,
    pub permissions: Option<u32>,
    pub atime: Option<u32>,
    pub mtime: Option<u32>,
}

pub struct FileEntryView {
    pub filename: Seq<char>,
    pub longname: Seq<char>,
    pub attrs: FileAttrsView,
}

pub open spec fn opt_view(o: Option<String>) -> Option<Seq<char>> {
    match o {
        Some(s) => Some(s@),
        None => None,
    }
}

impl View for FileAttrs {
    type V = FileAttrsView;

    open spec fn view(&self) -> FileAttrsView {
        FileAttrsView {
            size: self.size,
            uid: self.uid,
            user: opt_view(self.user),
            gid: self.gid,
            group: opt_view(self.group),
            permissions: self.permissions,
            atime: self.atime,
            mtime: self.mtime,
        }
    }
}

impl View for FileEntry {
    type V = FileEntryView;

    open spec fn view(&self) -> FileEntryView {
        FileEntryView { filename: self.filename@, longname: self.longname@, attrs: self.attrs@ }
    }
}

/// The kind of a file, as the first letter of an `ls -l` mode shows it.
#[derive(Debug, Clone, Copy, PartialEq, Eq)]
pub enum FileKind {
    Block,
    Char,
    Dir,
    Link,
    Socket,
    Regular,
}

/// The kind that a mode letter stands for.
pub open spec fn kind_of_letter(c: char) -> FileKind {
    if c == 'b' {
        FileKind::Block
    } else if c == 'c' {
        FileKind::Char
    } else if c == 'd' {
        FileKind::Dir
    } else if c == 'l' {
        FileKind::Link
    } else if c == 's' {
        FileKind::Socket
    } else {
        FileKind::Regular
    }
}

/// The type bits of `russh_sftp::protocol::FileMode` for each kind.
pub open spec fn kind_bits(k: FileKind) -> u32 {
    match k {
        FileKind::Block => 0x6000,
        FileKind::Char => 0x2000,
        FileKind::Dir => 0x4000,
        FileKind::Link => 0xA000,
        FileKind::Socket => 0xC000,
        FileKind::Regular => 0x8000,
    }
}

fn kind_from_letter(c: char) -> (k: FileKind)
    ensures
        k == kind_of_letter(c),
{
    match c {
        'b' => FileKind::Block,
        'c' => FileKind::Char,
        'd' => FileKind::Dir,
        'l' => FileKind::Link,
        's' => FileKind::Socket,
        _ => FileKind::Regular,
    }
}

/// `russh_sftp::protocol::FileAttributes::set_type`: the permissions become
/// the old ones (0 where there were none) with the kind's type bits added.
#[verifier::external_body]
pub(crate) fn set_type_of(permissions: Option<u32>, kind: FileKind) -> (r: Option<u32>)
    ensures
        r == Some(permissions.unwrap_or(0) | kind_bits(kind)),
{
    let mode = match kind {
        FileKind::Block => russh_sftp::protocol::FileMode::BLK,
        FileKind::Char => russh_sftp::protocol::FileMode::CHR,
        FileKind::Dir => russh_sftp::protocol::FileMode::DIR,
        FileKind::Link => russh_sftp::protocol::FileMode::LNK,
        FileKind::Socket => russh_sftp::protocol::FileMode::SOCK,
        FileKind::Regular => russh_sftp::protocol::FileMode::REG,
    };
    let mut attrs = russh_sftp::protocol::FileAttributes::default();
    attrs.permissions = permissions;
    attrs.set_type(mode);
    attrs.permissions
}

/// The bits that the letter `c` at position `pos` of a `rwxrwxrwx` string
/// stands for, as `umask::Mode::parse` reads it; `None` where the letter is
/// not allowed there.
pub open spec fn mode_letter_bits(pos: int, c: char) -> Option<u32> {
    if c == '-' {
        Some(0)
    } else if pos == 0 && c == 'r' {
        Some(0o400)
    } else if pos == 1 && c == 'w' {
        Some(0o200)
    } else if pos == 2 && c == 'x' {
        Some(0o100)
    } else if pos == 2 && c == 's' {
        Some(0o4100)
    } else if pos == 2 && c == 'S' {
        Some(0o4000)
    } else if pos == 3 && c == 'r' {
        Some(0o40)
    } else if pos == 4 && c == 'w' {
        Some(0o20)
    } else if pos == 5 && c == 'x' {
        Some(0o10)
    } else if pos == 5 && c == 's' {
        Some(0o2010)
    } else if pos == 5 && c == 'S' {
        Some(0o2000)
    } else if pos == 6 && c == 'r' {
        Some(0o4)
    } else if pos == 7 && c == 'w' {
        Some(0o2)
    } else if pos == 8 && c == 'x' {
        Some(0o1)
    } else if pos == 8 && c == 't' {
        Some(0o1001)
    } else if pos == 8 && c == 'T' {
        Some(0o1000)
    } else {
        None
    }
}

/// `umask::Mode::parse`: exactly nine letters, each allowed at its position;
/// the mode is the sum (the bits do not overlap) of what the letters stand for.
pub open spec fn mode_of(s: Seq<char>) -> Option<u32> {
    if s.len() == 9 && forall|p: int| 0 <= p < 9 ==> (#[trigger] mode_letter_bits(p, s[p])) is Some {
        Some(
            (mode_letter_bits(0, s[0]).unwrap() + mode_letter_bits(1, s[1]).unwrap()
                + mode_letter_bits(2, s[2]).unwrap() + mode_letter_bits(3, s[3]).unwrap()
                + mode_letter_bits(4, s[4]).unwrap() + mode_letter_bits(5, s[5]).unwrap()
                + mode_letter_bits(6, s[6]).unwrap() + mode_letter_bits(7, s[7]).unwrap()
                + mode_letter_bits(8, s[8]).unwrap()) as u32,
        )
    } else {
        None
    }
}

/// `umask::Mode::parse`, as a number: exactly what `mode_of` states.
#[verifier::external_body]
fn parse_mode(s: &str) -> (r: Option<u32>)
    ensures
        r == mode_of(s@),
{
    umask::Mode::parse(s).ok().map(u32::from)
}

/// `std::path::Path::is_absolute` on Unix: the path starts with `/`.
#[verifier::external_body]
fn path_is_absolute(s: &str) -> (b: bool)
    ensures
        b == (s@.len() > 0 && s@[0] == '/'),
{
    std::path::Path::new(s).is_absolute()
}

/// What `std::path::Path::file_name` returns for a path, as text: its last
/// component, unless there is none or it is the root, `.` or `..`.
pub open spec fn path_file_name(p: Seq<char>) -> Option<Seq<char>> {
    let c = path_components(p);
    if c.len() > 0 && c.last() != "/"@ && c.last() != "."@ && c.last() != ".."@ {
        Some(c.last())
    } else {
        None
    }
}

/// `std::path::Path::file_name`, converted to a string: the path's final
/// component where that is a name, as its documentation states.
#[verifier::external_body]
pub(crate) fn file_name_of_path(s: &str) -> (r: Option<String>)
    ensures
        opt_view(r) == path_file_name(s@),
{
    std::path::Path::new(s).file_name().map(|n| n.to_string_lossy().into_owned())
}

/// `std::path::Path::join`, converted to a string. Its documentation
/// makes it `PathBuf::push` on a copy of the base, which `path_push`
/// states.
#[verifier::external_body]
fn join_path(base: &str, s: &str) -> (r: String)
    ensures
        r@ == path_push(base@, s@),
{
    std::path::Path::new(base).join(s).to_string_lossy().into_owned()
}

pub open spec fn empty_attrs() -> FileAttrsView {
    FileAttrsView {
        size: None,
        uid: None,
        user: None,
        gid: None,
        group: None,
        permissions: None,
        atime: None,
        mtime: None,
    }
}

/// A field of an `ls -l` line can be read at its position: the mode, the
/// size and the time parse, and an absolute name has a file name.
pub open spec fn field_ok(i: int, f: Seq<char>) -> bool {
    if i == 0 {
        is_ascii_char(f[0]) && mode_of(f.skip(1)) is Some
    } else if i == 4 {
        parse_u64_spec(f) is Some
    } else if i == 5 {
        parse_u32_spec(f) is Some
    } else if i == 6 {
        f[0] == '/' ==> path_file_name(f) is Some
    } else {
        true
    }
}

/// What reading field `i` of an `ls -l` line does to the entry.
pub open spec fn apply_field(e: FileEntryView, i: int, f: Seq<char>, dir: Seq<char>) -> FileEntryView {
    let a = e.attrs;
    if i == 0 {
        FileEntryView {
            attrs: FileAttrsView {
                permissions: Some(mode_of(f.skip(1)).unwrap() | kind_bits(kind_of_letter(f[0]))),
                ..a
            },
            ..e
        }
    } else if i == 2 {
        FileEntryView { attrs: FileAttrsView { user: Some(f), ..a }, ..e }
    } else if i == 3 {
        FileEntryView { attrs: FileAttrsView { group: Some(f), ..a }, ..e }
    } else if i == 4 {
        FileEntryView { attrs: FileAttrsView { size: parse_u64_spec(f), ..a }, ..e }
    } else if i == 5 {
        FileEntryView { attrs: FileAttrsView { mtime: parse_u32_spec(f), ..a }, ..e }
    } else if i == 6 {
        if f[0] == '/' {
            FileEntryView { filename: path_file_name(f).unwrap(), longname: f, ..e }
        } else {
            FileEntryView { filename: f, longname: path_push(dir, f), ..e }
        }
    } else {
        e
    }
}

/// The entry read from the first `fs.len()` fields of a line.
pub open spec fn entry_of_fields(fs: Seq<Seq<char>>, dir: Seq<char>) -> FileEntryView
    decreases fs.len(),
{
    if fs.len() == 0 {
        FileEntryView { filename: Seq::empty(), longname: Seq::empty(), attrs: empty_attrs() }
    } else {
        apply_field(entry_of_fields(fs.drop_last(), dir), fs.len() - 1, fs.last(), dir)
    }
}

/// The entry that an `ls -l --time-style=+%s` line stands for, `dir` being
/// the directory that was listed. Fields: mode, links, user, group, size,
/// time, name; the rest (a link's target) is not read.
pub open spec fn entry_of_line(line: Seq<char>, dir: Seq<char>) -> FileEntryView {
    entry_of_fields(fields(line), dir)
}

/// Every field of the line can be read at its position.
pub open spec fn line_ok(line: Seq<char>) -> bool {
    forall|i: int| 0 <= i < fields(line).len() ==> field_ok(i, #[trigger] fields(line)[i])
}

proof fn lemma_fields_nonempty(s: Seq<char>)
    ensures
        forall|i: int| 0 <= i < fields(s).len() ==> (#[trigger] fields(s)[i]).len() > 0,
{
    lemma_ws_scan_nonempty(s);
}

proof fn lemma_ws_scan_nonempty(s: Seq<char>)
    ensures
        forall|i: int| 0 <= i < crate::text::ws_scan(s).0.len() ==> (
        #[trigger] crate::text::ws_scan(s).0[i]).len() > 0,
    decreases s.len(),
{
    if s.len() > 0 {
        lemma_ws_scan_nonempty(s.drop_last());
        let p = crate::text::ws_scan(s.drop_last());
        let q = crate::text::ws_scan(s);
        assert forall|i: int| 0 <= i < q.0.len() implies (#[trigger] q.0[i]).len() > 0 by {
            if i < p.0.len() {
                assert(q.0[i] == p.0[i]);
            }
        }
    }
}

/// Reads one line of `ls -l --time-style=+%s` output; `dir` is the directory
/// that was listed, against which a relative name is joined.
pub fn to_file(line: &str, dir: &str) -> (e: FileEntry)
    requires
        line_ok(line@),
    ensures
        e@ == entry_of_line(line@, dir@),
{
    let fs = fields_str(line);
    let ghost fsv = fs@.map_values(|p: String| p@);
    proof {
        lemma_fields_nonempty(line@);
    }
    let mut e = FileEntry {
        filename: String::new(),
        longname: String::new(),
        attrs: FileAttrs {
            size: None,
            uid: None,
            user: None,
            gid: None,
            group: None,
            permissions: None,
            atime: None,
            mtime: None,
        },
    };
    let mut i: usize = 0;
    while i < fs.len()
        invariant
            i <= fs.len(),
            fsv == fs@.map_values(|p: String| p@),
            fsv == fields(line@),
            line_ok(line@),
            forall|k: int| 0 <= k < fsv.len() ==> (#[trigger] fsv[k]).len() > 0,
            e@ == entry_of_fields(fsv.take(i as int), dir@),
        decreases fs.len() - i,
    {
        assert(fsv.take(i as int + 1).drop_last() == fsv.take(i as int));
        let f = fs[i].as_str();
        assert(f@ == fsv[i as int]);
        assert(field_ok(i as int, fsv[i as int]));
        if i == 0 {
            let chars = to_chars(f);
            let rest = crate::text::substring(&chars, 1, chars.len());
            let mode = parse_mode(rest.as_str()).unwrap();
            let kind = kind_from_letter(chars[0]);
            e.attrs.permissions = set_type_of(Some(mode), kind);
        } else if i == 2 {
            e.attrs.user = Some(fs[i].clone());
        } else if i == 3 {
            e.attrs.group = Some(fs[i].clone());
        } else if i == 4 {
            e.attrs.size = Some(parse_u64(f).unwrap());
        } else if i == 5 {
            e.attrs.mtime = Some(parse_u32(f).unwrap());
        } else if i == 6 {
            if path_is_absolute(f) {
                e.filename = file_name_of_path(f).unwrap();
                e.longname = fs[i].clone();
            } else {
                e.filename = fs[i].clone();
                e.longname = join_path(dir, f);
            }
        }
        i = i + 1;
        assert(e@.attrs == entry_of_fields(fsv.take(i as int), dir@).attrs);
    }
    assert(fsv.take(fs.len() as int) == fsv);
    e
}


/// Whether a line of `ls -l` output can be read.
pub fn line_readable(line: &str) -> (b: bool)
    ensures
        b == line_ok(line@),
{
    let fs = fields_str(line);
    let ghost fsv = fs@.map_values(|p: String| p@);
    proof {
        lemma_fields_nonempty(line@);
    }
    let mut i: usize = 0;
    while i < fs.len()
        invariant
            i <= fs.len(),
            fsv == fs@.map_values(|p: String| p@),
            fsv == fields(line@),
            forall|k: int| 0 <= k < fsv.len() ==> (#[trigger] fsv[k]).len() > 0,
            forall|k: int| 0 <= k < i ==> field_ok(k, #[trigger] fsv[k]),
        decreases fs.len() - i,
    {
        let f = fs[i].as_str();
        assert(f@ == fsv[i as int]);
        let ok = if i == 0 {
            let chars = to_chars(f);
            let rest = crate::text::substring(&chars, 1, chars.len());
            (chars[0] as u32) < 128 && parse_mode(rest.as_str()).is_some()
        } else if i == 4 {
            parse_u64(f).is_some()
        } else if i == 5 {
            parse_u32(f).is_some()
        } else if i == 6 {
            !path_is_absolute(f) || file_name_of_path(f).is_some()
        } else {
            true
        };
        if !ok {
            return false;
        }
        i = i + 1;
    }
    true
}

/// Reads one line of `ls -l` output, or `None` where `to_file` would have no
/// answer (a field that does not parse at its position).
pub fn to_file_checked(line: &str, dir: &str) -> (e: Option<FileEntry>)
    ensures
        e is Some <==> line_ok(line@),
        e matches Some(x) ==> x@ == entry_of_line(line@, dir@),
{
    if line_readable(line) {
        Some(to_file(line, dir))
    } else {
        None
    }
}

/// A line that ended in `\n` loses a `\r` before it.
pub open spec fn strip_cr(l: Seq<char>) -> Seq<char> {
    if l.len() > 0 && l.last() == '\r' {
        l.drop_last()
    } else {
        l
    }
}

/// `str::lines`: the text cut at each `\n` (and `\r\n`); no line follows a
/// final line ending.
pub open spec fn lines(s: Seq<char>) -> Seq<Seq<char>> {
    let parts = split(s, '\n');
    let ended = parts.drop_last().map_values(|l: Seq<char>| strip_cr(l));
    if parts.last().len() > 0 {
        ended.push(parts.last())
    } else {
        ended
    }
}

fn strip_cr_string(l: &String) -> (r: String)
    ensures
        r@ == strip_cr(l@),
{
    let v = to_chars(l.as_str());
    if v.len() > 0 && v[v.len() - 1] == '\r' {
        crate::text::substring(&v, 0, v.len() - 1)
    } else {
        l.clone()
    }
}

/// The lines of a text.
pub fn lines_of(s: &str) -> (r: Vec<String>)
    ensures
        r@.map_values(|p: String| p@) == lines(s@),
{
    let parts = split_str(s, '\n');
    let ghost pv = parts@.map_values(|p: String| p@);
    assert(pv.len() > 0);
    let mut r: Vec<String> = Vec::new();
    let mut i: usize = 0;
    while i + 1 < parts.len()
        invariant
            parts.len() > 0,
            i + 1 <= parts.len(),
            pv == parts@.map_values(|p: String| p@),
            r@.map_values(|p: String| p@) == pv.drop_last().take(i as int).map_values(
                |l: Seq<char>| strip_cr(l),
            ),
        decreases parts.len() - i,
    {
        let l = strip_cr_string(&parts[i]);
        assert(parts@[i as int]@ == pv[i as int]);
        let ghost before = r@;
        r.push(l);
        assert(r@.map_values(|p: String| p@) =~= before.map_values(|p: String| p@).push(l@));
        assert(pv.drop_last().take(i as int + 1).map_values(|l: Seq<char>| strip_cr(l))
            =~= pv.drop_last().take(i as int).map_values(|l: Seq<char>| strip_cr(l)).push(
            strip_cr(pv[i as int]),
        ));
        i = i + 1;
    }
    assert(pv.drop_last().take(i as int) == pv.drop_last());
    let last = &parts[parts.len() - 1];
    let lv = to_chars(last.as_str());
    if lv.len() > 0 {
        let ghost before = r@;
        r.push(last.clone());
        assert(r@.map_values(|p: String| p@) =~= before.map_values(|p: String| p@).push(last@));
    }
    r
}

/// Why the output of `ls -l` could not be turned into file entries.
#[derive(Debug, Clone, Copy, PartialEq, Eq)]
pub enum ListingError {
    /// The output is not UTF-8.
    NotUtf8,
    /// A line of the output has a field that does not parse at its position.
    Unreadable,
    /// `stat` found no entry.
    NoFiles,
}

/// The lines of the output that are entries: a listing of a directory's
/// contents starts with a `total` line, which is skipped.
pub open spec fn entry_lines(text: Seq<char>, contents: bool) -> Seq<Seq<char>> {
    if contents && lines(text).len() > 0 {
        lines(text).drop_first()
    } else if contents {
        lines(text)
    } else {
        lines(text)
    }
}

/// The entries that `ls -l` output stands for, `dir` being what was listed.
pub fn files_of_text(text: &str, dir: &str, contents: bool) -> (r: Result<Vec<FileEntry>, ListingError>)
    ensures
        r is Ok <==> (forall|i: int| 0 <= i < entry_lines(text@, contents).len() ==> line_ok(
            #[trigger] entry_lines(text@, contents)[i],
        )),
        r matches Ok(v) ==> v@.len() == entry_lines(text@, contents).len() && forall|i: int|
            0 <= i < v@.len() ==> #[trigger] v@[i]@ == entry_of_line(
                entry_lines(text@, contents)[i],
                dir@,
            ),
        r matches Err(e) ==> e == ListingError::Unreadable,
{
    let ls = lines_of(text);
    let ghost lv = ls@.map_values(|p: String| p@);
    let start: usize = if contents && ls.len() > 0 { 1 } else { 0 };
    let ghost el = entry_lines(text@, contents);
    assert(el == lv.skip(start as int));
    let mut out: Vec<FileEntry> = Vec::new();
    let mut i: usize = start;
    while i < ls.len()
        invariant
            start <= i <= ls.len(),
            lv == ls@.map_values(|p: String| p@),
            el == lv.skip(start as int),
            el == entry_lines(text@, contents),
            out@.len() == i - start,
            forall|k: int| 0 <= k < i - start ==> line_ok(#[trigger] el[k]),
            forall|k: int| 0 <= k < out@.len() ==> #[trigger] out@[k]@ == entry_of_line(el[k], dir@),
        decreases ls.len() - i,
    {
        assert(el[i - start] == ls@[i as int]@);
        match to_file_checked(ls[i].as_str(), dir) {
            Some(e) => {
                out.push(e);
            },
            None => {
                assert(!line_ok(entry_lines(text@, contents)[i - start]));
                return Err(ListingError::Unreadable);
            },
        }
        i = i + 1;
    }
    Ok(out)
}

/// The entries that the raw output of `ls -l` stands for.
pub fn files_of_output(out: &[u8], dir: &str, contents: bool) -> (r: Result<Vec<FileEntry>, ListingError>)
    ensures
        !vstd::utf8::valid_utf8(out@) ==> r == Err::<Vec<FileEntry>, ListingError>(ListingError::NotUtf8),
        vstd::utf8::valid_utf8(out@) ==> {
            let text = vstd::utf8::decode_utf8(out@);
            &&& r is Ok <==> (forall|i: int| 0 <= i < entry_lines(text, contents).len() ==> line_ok(
                #[trigger] entry_lines(text, contents)[i],
            ))
            &&& r matches Ok(v) ==> v@.len() == entry_lines(text, contents).len() && forall|i: int|
                0 <= i < v@.len() ==> #[trigger] v@[i]@ == entry_of_line(entry_lines(text, contents)[i], dir@)
            &&& r matches Err(e) ==> e == ListingError::Unreadable
        },
{
    match crate::events::utf8_text(out) {
        None => Err(ListingError::NotUtf8),
        Some(text) => files_of_text(text.as_str(), dir, contents),
    }
}

fn copy_opt_string(o: &Option<String>) -> (r: Option<String>)
    ensures
        opt_view(r) == opt_view(*o),
{
    match o {
        Some(s) => Some(s.clone()),
        None => None,
    }
}

/// A copy of a set of attributes.
pub fn copy_attrs(a: &FileAttrs) -> (r: FileAttrs)
    ensures
        r@ == a@,
{
    FileAttrs {
        size: a.size,
        uid: a.uid,
        user: copy_opt_string(&a.user),
        gid: a.gid,
        group: copy_opt_string(&a.group),
        permissions: a.permissions,
        atime: a.atime,
        mtime: a.mtime,
    }
}

/// The attributes that `stat` reports: those of the first entry.
pub fn stat_of_files(files: &Vec<FileEntry>) -> (r: Result<FileAttrs, ListingError>)
    ensures
        files@.len() == 0 ==> r == Err::<FileAttrs, ListingError>(ListingError::NoFiles),
        files@.len() > 0 ==> (r matches Ok(a) && a@ == files@[0].attrs@),
{
    if files.len() == 0 {
        Err(ListingError::NoFiles)
    } else {
        Ok(copy_attrs(&files[0].attrs))
    }
}

/// The command that lists `path` inside a container: `ls -l` with times as
/// seconds, of the directory itself (`-d`) unless its contents are asked for.
pub fn ls_command(path: &str, contents: bool) -> (r: Vec<String>)
    ensures
        r@.map_values(|p: String| p@) == if contents {
            seq!["ls"@, "-l"@, "--time-style=+%s"@, path@]
        } else {
            seq!["ls"@, "-l"@, "--time-style=+%s"@, "-d"@, path@]
        },
{
    let mut r: Vec<String> = Vec::new();
    r.push("ls".to_string());
    r.push("-l".to_string());
    r.push("--time-style=+%s".to_string());
    if !contents {
        r.push("-d".to_string());
    }
    r.push(path.to_string());
    proof {
        if contents {
            assert(r@.map_values(|p: String| p@) =~= seq!["ls"@, "-l"@, "--time-style=+%s"@, path@]);
        } else {
            assert(r@.map_values(|p: String| p@) =~= seq!["ls"@, "-l"@, "--time-style=+%s"@, "-d"@, path@]);
        }
    }
    r
}

/// The command that reads the file at `path` inside a container.
pub fn cat_command(path: &str) -> (r: Vec<String>)
    ensures
        r@.map_values(|p: String| p@) == seq!["cat"@, path@],
{
    let mut r: Vec<String> = Vec::new();
    r.push("cat".to_string());
    r.push(path.to_string());
    assert(r@.map_values(|p: String| p@) =~= seq!["cat"@, path@]);
    r
}

} // verus!
