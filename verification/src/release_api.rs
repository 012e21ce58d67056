//! Whether the release a file is compiled against has an API.
use crate::list::{Data, List};
use crate::names::{Name, Names};
use crate::ty::Ty;
use crate::workspace::{Releases, ResolutionScope, Workspace};
use vstd::prelude::*;
use vstd::string::StringExecFns;

verus! {

/// The API that a report names.
#[derive(Debug, PartialEq, Eq)]
pub enum ReleaseApi {
    /// A type.
    Class { name: Name },
    /// A method, or a constructor, whose name is `<init>`.
    Method { owner: Name, name: Name, params: List<Ty> },
    /// A field.
    Field { owner: Name, name: Name },
    /// A member that may be either.
    Member { owner: Name, name: Name },
}

/// The text of a digit.
pub open spec fn digit_text(d: int) -> Seq<char> {
    if d == 0 {
        "0"@
    } else if d == 1 {
        "1"@
    } else if d == 2 {
        "2"@
    } else if d == 3 {
        "3"@
    } else if d == 4 {
        "4"@
    } else if d == 5 {
        "5"@
    } else if d == 6 {
        "6"@
    } else if d == 7 {
        "7"@
    } else if d == 8 {
        "8"@
    } else {
        "9"@
    }
}

/// A number in decimal notation.
pub open spec fn decimal(n: nat) -> Seq<char>
    decreases n,
{
    if n < 10 {
        digit_text(n as int)
    } else {
        decimal(n / 10) + digit_text((n % 10) as int)
    }
}

fn digit_str(d: u64) -> (r: &'static str)
    requires
        d < 10,
    ensures
        r@ == digit_text(d as int),
{
    match d {
        0 => "0",
        1 => "1",
        2 => "2",
        3 => "3",
        4 => "4",
        5 => "5",
        6 => "6",
        7 => "7",
        8 => "8",
        _ => "9",
    }
}

/// A number in decimal notation.
pub fn decimal_string(n: u64) -> (r: String)
    ensures
        r@ == decimal(n as nat),
    decreases n,
{
    if n < 10 {
        digit_str(n).to_owned()
    } else {
        decimal_string(n / 10).concat(digit_str(n % 10))
    }
}

/// The text behind the last dot.
pub open spec fn last_segment(s: Seq<char>) -> Seq<char> {
    s.subrange(crate::text::last_dot(s) + 1, s.len() as int)
}

/// The simple name of the owner of a member.
pub fn simple_name(owner: &str) -> (r: &str)
    ensures
        r@ == last_segment(owner@),
{
    match crate::text::rsplit_once_dot(owner) {
        Some((_, simple)) => simple,
        None => {
            assert(owner@.subrange(0, owner@.len() as int) =~= owner@);
            owner
        },
    }
}

/// The types as text, with a comma between them.
pub open spec fn types_text<W: Workspace>(ws: &W, l: List<Ty>) -> Seq<char>
    decreases l,
{
    match l {
        List::Nil => ""@,
        List::Cons(h, t) => if *t == List::<Ty>::Nil {
            ws.shown(*h)
        } else {
            ws.shown(*h) + ", "@ + types_text(ws, *t)
        },
    }
}

fn join_types<W: Workspace>(ws: &W, l: &List<Ty>) -> (r: String)
    ensures
        r@ == types_text(ws, *l),
    decreases l,
{
    match l {
        List::Nil => "".to_owned(),
        List::Cons(h, t) => if t.is_empty() {
            ws.display(h)
        } else {
            ws.display(h).concat(", ").concat(join_types(ws, t).as_str())
        },
    }
}

impl ReleaseApi {
    /// Whether the table knows the names of the API.
    pub open spec fn known(self, names: Names) -> bool {
        match self {
            ReleaseApi::Class { name } => names.knows(name),
            ReleaseApi::Method { owner, name, params: _ } => names.knows(owner) && names.knows(
                name,
            ),
            ReleaseApi::Field { owner, name } => names.knows(owner) && names.knows(name),
            ReleaseApi::Member { owner, name } => names.knows(owner) && names.knows(name),
        }
    }

    /// The API as text.
    pub open spec fn api_text<W: Workspace>(self, names: Names, ws: &W) -> Seq<char> {
        match self {
            ReleaseApi::Class { name } => "class '"@ + names.text(name) + "'"@,
            ReleaseApi::Method { owner, name, params } => if name == Name::Init {
                "constructor '"@ + last_segment(names.text(owner)) + "("@ + types_text(ws, params)
                    + ")' in '"@ + names.text(owner) + "'"@
            } else {
                "method '"@ + names.text(name) + "("@ + types_text(ws, params) + ")' in '"@
                    + names.text(owner) + "'"@
            },
            ReleaseApi::Field { owner, name } => "field '"@ + names.text(name) + "' in '"@
                + names.text(owner) + "'"@,
            ReleaseApi::Member { owner, name } => "member '"@ + names.text(name) + "' in '"@
                + names.text(owner) + "'"@,
        }
    }

    fn api_string<W: Workspace>(&self, names: &Names, ws: &W) -> (r: String)
        requires
            self.known(*names),
        ensures
            r@ == self.api_text(*names, ws),
    {
        match self {
            ReleaseApi::Class { name } => "class '".to_owned().concat(names.as_str(*name)).concat(
                "'",
            ),
            ReleaseApi::Method { owner, name, params } => {
                let list = join_types(ws, params);
                if *name == Name::Init {
                    "constructor '".to_owned().concat(simple_name(names.as_str(*owner))).concat(
                        "(",
                    ).concat(list.as_str()).concat(")' in '").concat(names.as_str(*owner)).concat(
                        "'",
                    )
                } else {
                    "method '".to_owned().concat(names.as_str(*name)).concat("(").concat(
                        list.as_str(),
                    ).concat(")' in '").concat(names.as_str(*owner)).concat("'")
                }
            },
            ReleaseApi::Field { owner, name } => "field '".to_owned().concat(
                names.as_str(*name),
            ).concat("' in '").concat(names.as_str(*owner)).concat("'"),
            ReleaseApi::Member { owner, name } => "member '".to_owned().concat(
                names.as_str(*name),
            ).concat("' in '").concat(names.as_str(*owner)).concat("'"),
        }
    }

    /// The line of a report: the API is not supported in one release and was
    /// added in another.
    pub fn render<W: Workspace>(&self, names: &Names, ws: &W, found: u8, added: u8) -> (r: String)
        requires
            self.known(*names),
        ensures
            r@ == self.api_text(*names, ws) + " is not supported in release "@ + decimal(
                found as nat,
            ) + " (added in release "@ + decimal(added as nat) + ")"@,
    {
        self.api_string(names, ws).concat(" is not supported in release ").concat(
            decimal_string(found as u64).as_str(),
        ).concat(" (added in release ").concat(decimal_string(added as u64).as_str()).concat(")")
    }
}

/// The release that names are looked up against. Only a source set has one.
pub open spec fn release<W: Workspace>(ws: &W) -> Option<u8> {
    match ws.scope() {
        ResolutionScope::SourceSet(set) => ws.release_of_set(set),
        _ => None,
    }
}

/// The release that names are looked up against.
pub fn release_of<W: Workspace>(ws: &W) -> (r: Option<u8>)
    ensures
        r == release(ws),
{
    match ws.resolution_scope() {
        ResolutionScope::SourceSet(set) => ws.release_for_source_set(set),
        _ => None,
    }
}

/// The library of a class of the platform.
pub open spec fn platform_library<W: Workspace>(ws: &W, name: Name) -> Option<u32> {
    match ws.library_of(name) {
        Some(library) => if ws.builtins().has(library) {
            Some(library)
        } else {
            None
        },
        None => None,
    }
}

/// Whether a library is one of the platform.
fn is_platform<W: Workspace>(ws: &W, library: u32) -> (r: bool)
    ensures
        r == ws.builtins().has(library),
{
    ws.jdk_builtin_libraries().contains(&library)
}

/// The releases to report on a class that a reference resolved to. A source
/// class, and a class of another library, has none.
pub open spec fn class_releases<W: Workspace>(ws: &W, name: Name) -> Option<Releases> {
    match release(ws) {
        None => None,
        Some(release) => match platform_library(ws, name) {
            None => None,
            Some(library) => ws.class_missing(library, release, name),
        },
    }
}

/// The releases to report on a class that a reference resolved to.
pub fn class_of_reference<W: Workspace>(ws: &W, name: Name) -> (r: Option<Releases>)
    ensures
        r == class_releases(ws, name),
{
    match release_of(ws) {
        None => None,
        Some(release) => match ws.class_library(name) {
            None => None,
            Some(library) => if is_platform(ws, library) {
                ws.class_not_in_release(library, release, name)
            } else {
                None
            },
        },
    }
}

/// The releases to report on a member.
pub open spec fn member_releases<W: Workspace>(
    ws: &W,
    owner: Name,
    member: Name,
    descriptor: Option<Name>,
) -> Option<Releases> {
    match release(ws) {
        None => None,
        Some(release) => match platform_library(ws, owner) {
            None => None,
            Some(library) => ws.member_missing(library, release, owner, member, descriptor),
        },
    }
}

/// The releases to report on a member of a class.
pub fn member_of_owner<W: Workspace>(
    ws: &W,
    owner: Name,
    member: Name,
    descriptor: Option<Name>,
) -> (r: Option<Releases>)
    ensures
        r == member_releases(ws, owner, member, descriptor),
{
    match release_of(ws) {
        None => None,
        Some(release) => match ws.class_library(owner) {
            None => None,
            Some(library) => if is_platform(ws, library) {
                ws.member_not_in_release(library, release, owner, member, descriptor)
            } else {
                None
            },
        },
    }
}

/// Outside a source set nothing is reported on releases.
pub proof fn law_releases_need_a_source_set<W: Workspace>(
    ws: &W,
    owner: Name,
    member: Name,
    descriptor: Option<Name>,
)
    requires
        !(ws.scope() is SourceSet),
    ensures
        class_releases(ws, owner) is None,
        member_releases(ws, owner, member, descriptor) is None,
{
}

} // verus!
