//! The SFTP file tree of the cluster: `/<namespace>/<pod>/<container>/<path>`.
use vstd::prelude::*;

use crate::listing::{opt_view, path_file_name, FileAttrs, FileEntry, FileEntryView, FileKind};
use crate::text::{from_chars, split, to_chars};

verus! {

/// The pieces of a path between its separators that name something: not
/// empty, and not `.`.
pub open spec fn named_pieces(p: Seq<char>) -> Seq<Seq<char>> {
    split(p, '/').filter(|s: Seq<char>| s.len() > 0 && s != seq!['.'])
}

/// What `std::path::Path::iter` yields for a path on Unix, each component
/// as text, as the documentation of `Path::components` describes it: the
/// root `/` first for an absolute path, and `.` first for a relative path
/// that begins with it; then every piece between separators, where
/// repeated separators, a trailing separator and any other `.` are
/// normalized away.
pub open spec fn path_components(p: Seq<char>) -> Seq<Seq<char>> {
    if p.len() > 0 && p[0] == '/' {
        seq![seq!['/']] + named_pieces(p)
    } else if split(p, '/')[0] == seq!['.'] {
        seq![seq!['.']] + named_pieces(p)
    } else {
        named_pieces(p)
    }
}

/// `std::path::Path::iter`, each component converted to a string: the
/// components that `path_components` states after the documentation.
#[verifier::external_body]
fn components_of(p: &str) -> (r: Vec<String>)
    ensures
        r@.map_values(|s: String| s@) == path_components(p@),
{
    std::path::Path::new(p).iter().map(|s| s.to_string_lossy().into_owned()).collect()
}

/// `std::path::PathBuf::push` on Unix, as its documentation states it: an
/// absolute path replaces the buffer; a relative one is appended, after a `/`
/// unless the buffer is empty or already ends in one.
pub open spec fn path_push(base: Seq<char>, p: Seq<char>) -> Seq<char> {
    if p.len() > 0 && p[0] == '/' {
        p
    } else if base.len() > 0 && base.last() != '/' {
        base + seq!['/'] + p
    } else {
        base + p
    }
}

/// `std::path::PathBuf::push` on strings.
#[verifier::external_body]
fn push_path(base: &String, p: &str) -> (r: String)
    ensures
        r@ == path_push(base@, p@),
{
    let mut b = std::path::PathBuf::from(base.as_str());
    b.push(p);
    b.to_string_lossy().into_owned()
}

/// The path that pushing each of `parts` onto `base` builds.
pub open spec fn pushed_all(base: Seq<char>, parts: Seq<Seq<char>>) -> Seq<char>
    decreases parts.len(),
{
    if parts.len() == 0 {
        base
    } else {
        path_push(pushed_all(base, parts.drop_last()), parts.last())
    }
}

/// A location in the SFTP tree. Each part is the path segment at its depth;
/// `path` is what follows the container, rooted at `/`.
#[derive(Debug, Clone, PartialEq, Eq)]
pub struct File {
    pub namespace: Option<String>,
    pub pod: Option<String>,
    pub container: Option<String>,
    pub path: Option<String>,
}

pub open spec fn seg(segs: Seq<Seq<char>>, i: int) -> Option<Seq<char>> {
    if i < segs.len() {
        Some(segs[i])
    } else {
        None
    }
}

/// The file tree location that path segments stand for: the segment after
/// the root is the namespace, then the pod, then the container, and whatever
/// follows them is the path inside the container.
pub open spec fn file_of_segments(segs: Seq<Seq<char>>) -> (
    Option<Seq<char>>,
    Option<Seq<char>>,
    Option<Seq<char>>,
    Option<Seq<char>>,
) {
    (
        seg(segs, 1),
        seg(segs, 2),
        seg(segs, 3),
        if segs.len() > 4 {
            Some(pushed_all(seq!['/'], segs.skip(4)))
        } else {
            None
        },
    )
}

impl File {
    pub open spec fn parts(self) -> (
        Option<Seq<char>>,
        Option<Seq<char>>,
        Option<Seq<char>>,
        Option<Seq<char>>,
    ) {
        (opt_view(self.namespace), opt_view(self.pod), opt_view(self.container), opt_view(self.path))
    }

    /// The location that the components of a path stand for.
    pub fn from_segments(segs: &Vec<String>) -> (f: File)
        ensures
            f.parts() == file_of_segments(segs@.map_values(|s: String| s@)),
    {
        let ghost sv = segs@.map_values(|s: String| s@);
        let namespace = if segs.len() > 1 { Some(segs[1].clone()) } else { None };
        let pod = if segs.len() > 2 { Some(segs[2].clone()) } else { None };
        let container = if segs.len() > 3 { Some(segs[3].clone()) } else { None };
        let path = if segs.len() > 4 {
            let mut p = from_chars(&['/']);
            let mut i: usize = 4;
            assert(sv.skip(4).take(0) =~= Seq::<Seq<char>>::empty());
            while i < segs.len()
                invariant
                    4 <= i <= segs.len(),
                    sv == segs@.map_values(|s: String| s@),
                    p@ == pushed_all(seq!['/'], sv.skip(4).take(i - 4)),
                decreases segs.len() - i,
            {
                assert(sv.skip(4).take(i - 3).drop_last() == sv.skip(4).take(i - 4));
                assert(sv.skip(4).take(i - 3).last() == segs@[i as int]@);
                p = push_path(&p, segs[i].as_str());
                i = i + 1;
            }
            assert(sv.skip(4).take(i - 4) == sv.skip(4));
            Some(p)
        } else {
            None
        };
        File { namespace, pod, container, path }
    }

    /// The location that an SFTP path names.
    pub fn new(path: &str) -> (f: File)
        ensures
            f.parts() == file_of_segments(path_components(path@)),
    {
        let segs = components_of(path);
        File::from_segments(&segs)
    }
}

/// What listing a location asks the cluster for.
#[derive(Debug, Clone, PartialEq, Eq)]
pub enum ListTarget {
    /// Every namespace.
    Namespaces,
    /// The pods of a namespace.
    Pods { namespace: String },
    /// The containers of a pod.
    Containers { namespace: String, pod: String },
    /// A directory inside a container (`/` where no path was given).
    ContainerDir { namespace: String, pod: String, container: String, path: String },
}

/// What `stat` on a location asks the cluster for.
#[derive(Debug, Clone, PartialEq, Eq)]
pub enum StatTarget {
    /// The root, a directory that always exists.
    Root,
    /// A namespace, a directory when it exists.
    Namespace { namespace: String },
    /// A pod, a directory when it exists.
    Pod { namespace: String, pod: String },
    /// A container, a directory when it exists.
    Container { namespace: String, pod: String, container: String },
    /// A path inside a container.
    ContainerPath { namespace: String, pod: String, container: String, path: String },
}

/// A file that can be read: a path inside a container.
#[derive(Debug, Clone, PartialEq, Eq)]
pub struct ReadTarget {
    pub namespace: String,
    pub pod: String,
    pub container: String,
    pub path: String,
}

/// Why a location cannot be read.
#[derive(Debug, Clone, Copy, PartialEq, Eq)]
pub enum FileError {
    /// Only a path inside a container names something readable.
    InvalidPath,
}

impl ListTarget {
    pub open spec fn parts(self) -> (
        Option<Seq<char>>,
        Option<Seq<char>>,
        Option<Seq<char>>,
        Option<Seq<char>>,
    ) {
        match self {
            ListTarget::Namespaces => (None, None, None, None),
            ListTarget::Pods { namespace } => (Some(namespace@), None, None, None),
            ListTarget::Containers { namespace, pod } => (Some(namespace@), Some(pod@), None, None),
            ListTarget::ContainerDir { namespace, pod, container, path } => (
                Some(namespace@),
                Some(pod@),
                Some(container@),
                Some(path@),
            ),
        }
    }
}

impl StatTarget {
    pub open spec fn parts(self) -> (
        Option<Seq<char>>,
        Option<Seq<char>>,
        Option<Seq<char>>,
        Option<Seq<char>>,
    ) {
        match self {
            StatTarget::Root => (None, None, None, None),
            StatTarget::Namespace { namespace } => (Some(namespace@), None, None, None),
            StatTarget::Pod { namespace, pod } => (Some(namespace@), Some(pod@), None, None),
            StatTarget::Container { namespace, pod, container } => (
                Some(namespace@),
                Some(pod@),
                Some(container@),
                None,
            ),
            StatTarget::ContainerPath { namespace, pod, container, path } => (
                Some(namespace@),
                Some(pod@),
                Some(container@),
                Some(path@),
            ),
        }
    }
}

/// What `list` asks for: the first part that is missing decides the level;
/// inside a container the directory is the path, or `/`.
pub open spec fn list_parts(
    p: (Option<Seq<char>>, Option<Seq<char>>, Option<Seq<char>>, Option<Seq<char>>),
) -> (Option<Seq<char>>, Option<Seq<char>>, Option<Seq<char>>, Option<Seq<char>>) {
    if p.0 is None {
        (None, None, None, None)
    } else if p.1 is None {
        (p.0, None, None, None)
    } else if p.2 is None {
        (p.0, p.1, None, None)
    } else {
        (p.0, p.1, p.2, Some(if p.3 is Some { p.3.unwrap() } else { seq!['/'] }))
    }
}

/// What `stat` asks for, by the same rule as `list`, except that a
/// container without a path is a container and not its root directory.
pub open spec fn stat_parts(
    p: (Option<Seq<char>>, Option<Seq<char>>, Option<Seq<char>>, Option<Seq<char>>),
) -> (Option<Seq<char>>, Option<Seq<char>>, Option<Seq<char>>, Option<Seq<char>>) {
    if p.0 is None {
        (None, None, None, None)
    } else if p.1 is None {
        (p.0, None, None, None)
    } else if p.2 is None {
        (p.0, p.1, None, None)
    } else {
        p
    }
}

fn clone_string(s: &String) -> (r: String)
    ensures
        r@ == s@,
{
    s.clone()
}

impl File {
    /// What listing this location asks the cluster for.
    pub fn list_target(&self) -> (t: ListTarget)
        ensures
            t.parts() == list_parts(self.parts()),
    {
        match (&self.namespace, &self.pod, &self.container) {
            (None, _, _) => ListTarget::Namespaces,
            (Some(ns), None, _) => ListTarget::Pods { namespace: clone_string(ns) },
            (Some(ns), Some(pod), None) => ListTarget::Containers {
                namespace: clone_string(ns),
                pod: clone_string(pod),
            },
            (Some(ns), Some(pod), Some(container)) => ListTarget::ContainerDir {
                namespace: clone_string(ns),
                pod: clone_string(pod),
                container: clone_string(container),
                path: match &self.path {
                    Some(p) => clone_string(p),
                    None => from_chars(&['/']),
                },
            },
        }
    }

    /// What `stat` on this location asks the cluster for.
    pub fn stat_target(&self) -> (t: StatTarget)
        ensures
            t.parts() == stat_parts(self.parts()),
    {
        match (&self.namespace, &self.pod, &self.container, &self.path) {
            (None, _, _, _) => StatTarget::Root,
            (Some(ns), None, _, _) => StatTarget::Namespace { namespace: clone_string(ns) },
            (Some(ns), Some(pod), None, _) => StatTarget::Pod {
                namespace: clone_string(ns),
                pod: clone_string(pod),
            },
            (Some(ns), Some(pod), Some(container), None) => StatTarget::Container {
                namespace: clone_string(ns),
                pod: clone_string(pod),
                container: clone_string(container),
            },
            (Some(ns), Some(pod), Some(container), Some(path)) => StatTarget::ContainerPath {
                namespace: clone_string(ns),
                pod: clone_string(pod),
                container: clone_string(container),
                path: clone_string(path),
            },
        }
    }

    /// The file that reading this location reads: every part must be there.
    pub fn read_target(&self) -> (t: Result<ReadTarget, FileError>)
        ensures
            t is Ok <==> (self.namespace is Some && self.pod is Some && self.container is Some
                && self.path is Some),
            t matches Ok(r) ==> (Some(r.namespace@), Some(r.pod@), Some(r.container@), Some(
                r.path@,
            )) == self.parts(),
    {
        match (&self.namespace, &self.pod, &self.container, &self.path) {
            (Some(ns), Some(pod), Some(container), Some(path)) => Ok(ReadTarget {
                namespace: clone_string(ns),
                pod: clone_string(pod),
                container: clone_string(container),
                path: clone_string(path),
            }),
            _ => Err(FileError::InvalidPath),
        }
    }
}

/// The attributes of a directory: only the directory type bits.
pub open spec fn dir_attrs_view() -> crate::listing::FileAttrsView {
    crate::listing::FileAttrsView {
        permissions: Some(0x4000u32),
        ..crate::listing::empty_attrs()
    }
}

/// The attributes of a directory (`FileAttributes::dir`).
pub fn dir_attrs() -> (a: FileAttrs)
    ensures
        a@ == dir_attrs_view(),
{
    let permissions = crate::listing::set_type_of(None, FileKind::Dir);
    assert(0u32 | 0x4000u32 == 0x4000u32) by (bit_vector);
    FileAttrs {
        size: None,
        uid: None,
        user: None,
        gid: None,
        group: None,
        permissions,
        atime: None,
        mtime: None,
    }
}

/// The directory entry of `/<parts...>`: a namespace, a pod or a container.
pub fn dir_entry(parts: &Vec<String>) -> (e: FileEntry)
    ensures
        e@.longname == pushed_all(seq!['/'], parts@.map_values(|s: String| s@)),
        e@.filename == match path_file_name(e@.longname) {
            Some(n) => n,
            None => Seq::empty(),
        },
        e@.attrs == dir_attrs_view(),
{
    let ghost pv = parts@.map_values(|s: String| s@);
    let mut p = from_chars(&['/']);
    let mut i: usize = 0;
    assert(pv.take(0) =~= Seq::<Seq<char>>::empty());
    while i < parts.len()
        invariant
            i <= parts.len(),
            pv == parts@.map_values(|s: String| s@),
            p@ == pushed_all(seq!['/'], pv.take(i as int)),
        decreases parts.len() - i,
    {
        assert(pv.take(i + 1).drop_last() == pv.take(i as int));
        p = push_path(&p, parts[i].as_str());
        i = i + 1;
    }
    assert(pv.take(i as int) == pv);
    let filename = match crate::listing::file_name_of_path(p.as_str()) {
        Some(n) => n,
        None => String::new(),
    };
    FileEntry { filename, longname: p, attrs: dir_attrs() }
}

/// Where no part of a location follows a missing one, `stat` asks for the
/// location itself: every part that is there is kept, the path inside a
/// container included, and only a container without a path is stat'ed as
/// the container.
pub proof fn law_stat_keeps_the_location(
    p: (Option<Seq<char>>, Option<Seq<char>>, Option<Seq<char>>, Option<Seq<char>>),
)
    requires
        p.0 is None ==> p.1 is None,
        p.1 is None ==> p.2 is None,
        p.2 is None ==> p.3 is None,
    ensures
        stat_parts(p) == p,
        (p.0 is Some && p.1 is Some && p.2 is Some) ==> stat_parts(p) == p,
        stat_parts(p).3 is Some <==> p.3 is Some,
{
}

/// Every SFTP path names a location in which no part follows a missing
/// one, so `stat` asks for exactly the location that the path names.
pub proof fn law_stat_of_a_path(segs: Seq<Seq<char>>)
    ensures
        stat_parts(file_of_segments(segs)) == file_of_segments(segs),
{
    law_stat_keeps_the_location(file_of_segments(segs));
}

} // verus!
