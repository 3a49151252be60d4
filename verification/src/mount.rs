//! Mount specifications: what is bound into the jail, and where.

use crate::error::{CatBoxError, ErrorModel};
use crate::text::{split, split_on, views};
use vstd::prelude::*;

verus! {

/// Whether a path starts at the root.
pub open spec fn is_absolute(path: Seq<char>) -> bool {
    path.len() > 0 && path[0] == '/'
}

/// What the file system answers when it is asked for the canonical form of
/// a path: the canonical path, or why there is none.
pub type Canonical = Result<String, String>;

/// The view of an answer of the file system.
pub open spec fn answer_view(answer: Canonical) -> Result<Seq<char>, Seq<char>> {
    match answer {
        Ok(path) => Ok(path@),
        Err(reason) => Err(reason@),
    }
}

/// The canonical form of a path: an absolute path is kept as it is written,
/// for any other the answer of the file system stands.
pub open spec fn canonical(path: Seq<char>, answer: Result<Seq<char>, Seq<char>>) -> Result<
    Seq<char>,
    Seq<char>,
> {
    if is_absolute(path) {
        Ok(path)
    } else {
        answer
    }
}

/// Whether a path starts at the root.
pub fn path_is_absolute(path: &str) -> (absolute: bool)
    ensures
        absolute == is_absolute(path@),
{
    path.unicode_len() > 0 && path.get_char(0) == '/'
}

/// Mount point
#[derive(Debug, PartialEq, Eq)]
pub struct MountPoint {
    write: bool,
    src: String,
    dst: String,
}

/// What a [`MountPoint`] holds, as plain values.
pub struct MountModel {
    pub write: bool,
    pub src: Seq<char>,
    pub dst: Seq<char>,
}

impl View for MountPoint {
    type V = MountModel;

    closed spec fn view(&self) -> MountModel {
        MountModel { write: self.write, src: self.src@, dst: self.dst@ }
    }
}

impl Clone for MountPoint {
    fn clone(&self) -> (copy: Self)
        ensures
            copy@ == self@,
    {
        MountPoint { write: self.write, src: self.src.clone(), dst: self.dst.clone() }
    }
}

/// A read-only mount of a system directory onto the same path in the jail.
pub open spec fn system_mount(path: Seq<char>) -> MountModel {
    MountModel { write: false, src: path, dst: path }
}

/// The mounts that every jail gets.
pub open spec fn default_mounts() -> Seq<MountModel> {
    seq![
        system_mount("/bin"@),
        system_mount("/sbin"@),
        system_mount("/usr"@),
        system_mount("/etc"@),
        system_mount("/lib"@),
        system_mount("/lib64"@),
    ]
}

/// The pieces of a mount string: `path` is one piece, `src:dst` are two.
/// More than one colon is an error.
pub open spec fn mount_pieces(text: Seq<char>) -> Option<(Seq<char>, Option<Seq<char>>)> {
    let parts = split(text, ':', ':');
    if parts.len() == 1 {
        Some((parts[0], None))
    } else if parts.len() == 2 {
        Some((parts[0], Some(parts[1])))
    } else {
        None
    }
}

/// The mount of `src` onto `dst`, both in their canonical form. A path
/// without one is an error that holds the reason; the source is looked at
/// first.
pub open spec fn canonical_mount(
    write: bool,
    src: Seq<char>,
    dst: Seq<char>,
    src_answer: Result<Seq<char>, Seq<char>>,
    dst_answer: Result<Seq<char>, Seq<char>>,
) -> Result<MountModel, ErrorModel> {
    match canonical(src, src_answer) {
        Err(reason) => Err(ErrorModel::Unknown(reason)),
        Ok(src) => match canonical(dst, dst_answer) {
            Err(reason) => Err(ErrorModel::Unknown(reason)),
            Ok(dst) => Ok(MountModel { write, src, dst }),
        },
    }
}

/// What a mount string means: `path` mounts a directory onto the same path,
/// `src:dst` onto another. The answers are those of the file system for
/// source and destination; for a string of one piece both are for that
/// piece.
pub open spec fn parsed_mount(
    write: bool,
    text: Seq<char>,
    src_answer: Result<Seq<char>, Seq<char>>,
    dst_answer: Result<Seq<char>, Seq<char>>,
) -> Result<MountModel, ErrorModel> {
    match mount_pieces(text) {
        None => Err(ErrorModel::Cli("Wrong mount string format"@)),
        Some((src, None)) => canonical_mount(write, src, src, src_answer, dst_answer),
        Some((src, Some(dst))) => canonical_mount(write, src, dst, src_answer, dst_answer),
    }
}

impl MountPoint {
    /// The system directories, mounted read-only at the same paths.
    pub fn defaults() -> (mounts: Vec<Self>)
        ensures
            views(mounts@) == default_mounts(),
    {
        let mut mounts: Vec<Self> = Vec::new();
        mounts.push(Self::system("/bin"));
        mounts.push(Self::system("/sbin"));
        mounts.push(Self::system("/usr"));
        mounts.push(Self::system("/etc"));
        mounts.push(Self::system("/lib"));
        mounts.push(Self::system("/lib64"));
        assert(views(mounts@) =~= default_mounts());
        mounts
    }

    fn system(path: &str) -> (mount: Self)
        ensures
            mount@ == system_mount(path@),
    {
        MountPoint { write: false, src: path.to_owned(), dst: path.to_owned() }
    }

    /// The pieces of a mount string, as they are written. The caller asks
    /// the file system for the canonical form of each piece that is not
    /// absolute, and hands the answers to [`MountPoint::parse_read`] or
    /// [`MountPoint::parse_write`].
    pub fn pieces(text: &str) -> (found: Result<(String, Option<String>), CatBoxError>)
        ensures
            match found {
                Ok((src, dst)) => mount_pieces(text@) == Some(
                    (
                        src@,
                        match dst {
                            Some(d) => Some(d@),
                            None => None,
                        },
                    ),
                ),
                Err(e) => mount_pieces(text@) is None && e@ == ErrorModel::Cli(
                    "Wrong mount string format"@,
                ),
            },
    {
        let arr = split_on(text, ':', ':');
        if arr.len() == 1 {
            assert(views(arr@)[0] == arr@[0]@);
            Ok((arr[0].clone(), None))
        } else if arr.len() == 2 {
            assert(views(arr@)[0] == arr@[0]@);
            assert(views(arr@)[1] == arr@[1]@);
            Ok((arr[0].clone(), Some(arr[1].clone())))
        } else {
            Err(CatBoxError::cli("Wrong mount string format"))
        }
    }

    /// The canonical form of a path. `answer` is what the file system says
    /// of the path; it is looked at only where the path is not absolute.
    pub fn canonicalize(path: &str, answer: &Canonical) -> (full: Result<String, CatBoxError>)
        ensures
            match canonical(path@, answer_view(*answer)) {
                Ok(p) => full is Ok && full->Ok_0@ == p,
                Err(reason) => full is Err && full->Err_0@ == ErrorModel::Unknown(reason),
            },
    {
        if path_is_absolute(path) {
            Ok(path.to_owned())
        } else {
            match answer {
                Ok(p) => Ok(p.clone()),
                Err(reason) => Err(CatBoxError::Unknown(reason.clone())),
            }
        }
    }

    fn build(write: bool, src: &str, dst: &str, src_answer: &Canonical, dst_answer: &Canonical) -> (made:
        Result<Self, CatBoxError>)
        ensures
            match made {
                Ok(mount) => canonical_mount(
                    write,
                    src@,
                    dst@,
                    answer_view(*src_answer),
                    answer_view(*dst_answer),
                ) == Ok::<MountModel, ErrorModel>(mount@),
                Err(e) => canonical_mount(
                    write,
                    src@,
                    dst@,
                    answer_view(*src_answer),
                    answer_view(*dst_answer),
                ) == Err::<MountModel, ErrorModel>(e@),
            },
    {
        let src = match Self::canonicalize(src, src_answer) {
            Ok(src) => src,
            Err(e) => {
                return Err(e);
            },
        };
        let dst = match Self::canonicalize(dst, dst_answer) {
            Ok(dst) => dst,
            Err(e) => {
                return Err(e);
            },
        };
        Ok(MountPoint { write, src, dst })
    }

    fn parse(write: bool, text: &str, src_answer: &Canonical, dst_answer: &Canonical) -> (parsed:
        Result<Self, CatBoxError>)
        ensures
            match parsed {
                Ok(mount) => parsed_mount(
                    write,
                    text@,
                    answer_view(*src_answer),
                    answer_view(*dst_answer),
                ) == Ok::<MountModel, ErrorModel>(mount@),
                Err(e) => parsed_mount(
                    write,
                    text@,
                    answer_view(*src_answer),
                    answer_view(*dst_answer),
                ) == Err::<MountModel, ErrorModel>(e@),
            },
    {
        match Self::pieces(text) {
            Err(e) => Err(e),
            Ok((src, None)) => Self::build(write, src.as_str(), src.as_str(), src_answer, dst_answer),
            Ok((src, Some(dst))) => Self::build(
                write,
                src.as_str(),
                dst.as_str(),
                src_answer,
                dst_answer,
            ),
        }
    }

    /// Parses a read-only mount written as `path` or `src:dst`, given the
    /// answers of the file system for source and destination.
    pub fn parse_read(text: String, src_answer: &Canonical, dst_answer: &Canonical) -> (parsed:
        Result<Self, CatBoxError>)
        ensures
            match parsed {
                Ok(mount) => parsed_mount(
                    false,
                    text@,
                    answer_view(*src_answer),
                    answer_view(*dst_answer),
                ) == Ok::<MountModel, ErrorModel>(mount@),
                Err(e) => parsed_mount(
                    false,
                    text@,
                    answer_view(*src_answer),
                    answer_view(*dst_answer),
                ) == Err::<MountModel, ErrorModel>(e@),
            },
    {
        Self::parse(false, text.as_str(), src_answer, dst_answer)
    }

    /// Parses a writable mount written as `path` or `src:dst`, given the
    /// answers of the file system for source and destination.
    pub fn parse_write(text: String, src_answer: &Canonical, dst_answer: &Canonical) -> (parsed:
        Result<Self, CatBoxError>)
        ensures
            match parsed {
                Ok(mount) => parsed_mount(
                    true,
                    text@,
                    answer_view(*src_answer),
                    answer_view(*dst_answer),
                ) == Ok::<MountModel, ErrorModel>(mount@),
                Err(e) => parsed_mount(
                    true,
                    text@,
                    answer_view(*src_answer),
                    answer_view(*dst_answer),
                ) == Err::<MountModel, ErrorModel>(e@),
            },
    {
        Self::parse(true, text.as_str(), src_answer, dst_answer)
    }

    /// A read-only mount of `src` onto `dst`, both in their canonical form.
    pub fn read(src: String, dst: String, src_answer: &Canonical, dst_answer: &Canonical) -> (mount:
        Self)
        requires
            canonical(src@, answer_view(*src_answer)) is Ok,
            canonical(dst@, answer_view(*dst_answer)) is Ok,
        ensures
            Ok::<MountModel, ErrorModel>(mount@) == canonical_mount(
                false,
                src@,
                dst@,
                answer_view(*src_answer),
                answer_view(*dst_answer),
            ),
    {
        match Self::build(false, src.as_str(), dst.as_str(), src_answer, dst_answer) {
            Ok(mount) => mount,
            Err(_) => MountPoint { write: false, src, dst },
        }
    }

    /// A writable mount of `src` onto `dst`, both in their canonical form.
    pub fn write(src: String, dst: String, src_answer: &Canonical, dst_answer: &Canonical) -> (mount:
        Self)
        requires
            canonical(src@, answer_view(*src_answer)) is Ok,
            canonical(dst@, answer_view(*dst_answer)) is Ok,
        ensures
            Ok::<MountModel, ErrorModel>(mount@) == canonical_mount(
                true,
                src@,
                dst@,
                answer_view(*src_answer),
                answer_view(*dst_answer),
            ),
    {
        match Self::build(true, src.as_str(), dst.as_str(), src_answer, dst_answer) {
            Ok(mount) => mount,
            Err(_) => MountPoint { write: true, src, dst },
        }
    }

    pub fn read_only(&self) -> (read_only: bool)
        ensures
            read_only == !self@.write,
    {
        !self.write
    }

    pub fn src(&self) -> (src: &String)
        ensures
            src@ == self@.src,
    {
        &self.src
    }

    pub fn dst(&self) -> (dst: &String)
        ensures
            dst@ == self@.dst,
    {
        &self.dst
    }
}

/// A path that is already absolute is kept as it is written, whatever the
/// file system answers.
pub proof fn lemma_absolute_is_verbatim(path: Seq<char>, answer: Result<Seq<char>, Seq<char>>)
    requires
        is_absolute(path),
    ensures
        canonical(path, answer) == Ok::<Seq<char>, Seq<char>>(path),
{
}

/// Where the file system answers with absolute paths, as it does for every
/// path that has a canonical form, both paths of a mount are absolute.
pub proof fn lemma_canonical_mount_is_absolute(
    write: bool,
    src: Seq<char>,
    dst: Seq<char>,
    src_answer: Result<Seq<char>, Seq<char>>,
    dst_answer: Result<Seq<char>, Seq<char>>,
)
    requires
        src_answer matches Ok(p) ==> is_absolute(p),
        dst_answer matches Ok(p) ==> is_absolute(p),
        canonical_mount(write, src, dst, src_answer, dst_answer) is Ok,
    ensures
        is_absolute(canonical_mount(write, src, dst, src_answer, dst_answer)->Ok_0.src),
        is_absolute(canonical_mount(write, src, dst, src_answer, dst_answer)->Ok_0.dst),
        canonical_mount(write, src, dst, src_answer, dst_answer)->Ok_0.write == write,
{
}

} // verus!
