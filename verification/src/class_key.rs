//! The identity of a class, and the names that go with it.
use crate::db::TyDatabase;
use crate::list::{Data, List};
use crate::member::ClassKey;
use crate::names::{
    all_fixed, fixed_index, fixed_names, fixed_str, fixed_text, is_fixed, keeps_names,
    law_found_names_stay, lemma_lookup_known, lemma_lookup_text, Name, Names,
};
use crate::text::{
    begins, behind_dot, behind_last_dot, last_dot, law_short_texts, package_prefix,
    prefix_of_package, rsplit_once_dot, simple_name, simple_text, source_top_level, starts_with,
    top_level_text,
};
use crate::ty::{SourceClass, Ty};
use vstd::prelude::*;

verus! {

/// What a reference to a class was resolved to.
#[derive(Clone, Copy, Debug, PartialEq, Eq)]
pub enum Resolved {
    /// A class declared in source.
    Source(SourceClass),
    /// The facade class of a file, under the name the compiler gives it.
    Facade { fqn: Name },
    /// A compiled class, under its binary name.
    Library { fqn: Name },
}

/// The key of a source class: its canonical name, or the declaration where it
/// has none.
pub open spec fn key_of<D: TyDatabase>(db: &D, class: SourceClass) -> ClassKey {
    match db.canonical(class) {
        Some(fqn) => ClassKey::Named(fqn),
        None => ClassKey::Local(class),
    }
}

/// The text of an optional name: that of the empty name where there is none.
pub open spec fn text_or_empty(names: Names, n: Option<Name>) -> Seq<char> {
    match n {
        Some(n) => names.text(n),
        None => ""@,
    }
}

pub open spec fn known(names: Names, n: Option<Name>) -> bool {
    match n {
        Some(n) => names.knows(n),
        None => true,
    }
}

pub(crate) fn str_or_empty<'a>(names: &'a Names, n: Option<Name>) -> (r: &'a str)
    requires
        known(*names, n),
    ensures
        r@ == text_or_empty(*names, n),
{
    match n {
        Some(n) => names.as_str(n),
        None => "",
    }
}

/// The last element of a list of names.
pub open spec fn last_of(l: List<Name>) -> Option<Name>
    decreases l,
{
    match l {
        List::Nil => None,
        List::Cons(h, t) => if *t is Nil {
            Some(*h)
        } else {
            last_of(*t)
        },
    }
}

fn last_name(l: &List<Name>) -> (r: Option<Name>)
    ensures
        r == last_of(*l),
    decreases l,
{
    match l {
        List::Nil => None,
        List::Cons(h, t) => if t.is_empty() {
            Some(**h)
        } else {
            last_name(t)
        },
    }
}

impl ClassKey {
    /// Whether the table knows the names the key goes by.
    pub open spec fn named_in<D: TyDatabase>(self, db: &D, names: Names) -> bool {
        match self {
            ClassKey::Named(fqn) => names.knows(fqn),
            ClassKey::Local(class) => names.knows(db.declared_name(class)) && known(
                names,
                last_of(db.enclosing_types(class)),
            ),
        }
    }

    /// The simple name of the class.
    pub open spec fn simple<D: TyDatabase>(self, db: &D, names: Names) -> Seq<char> {
        match self {
            ClassKey::Named(fqn) => simple_text(names.text(fqn)),
            ClassKey::Local(class) => names.text(db.declared_name(class)),
        }
    }

    /// The type of the class with these type arguments.
    pub open spec fn ty<D: TyDatabase>(self, db: &D, args: List<Ty>) -> Ty {
        match self {
            ClassKey::Named(fqn) => Ty::Reference { name: fqn, args: Box::new(args), local: None },
            ClassKey::Local(class) => Ty::Reference {
                name: db.declared_name(class),
                args: Box::new(args),
                local: Some(class),
            },
        }
    }

    /// The key of the class a type denotes.
    pub open spec fn key_of_ty<D: TyDatabase>(db: &D, ty: Ty) -> Option<ClassKey> {
        match ty {
            Ty::Reference { name, args: _, local } => match local {
                Some(class) => Some(key_of(db, class)),
                None => Some(ClassKey::Named(name)),
            },
            _ => None,
        }
    }

    /// The name of the top-level class the class belongs to: of a canonical
    /// name the package and the first class name, of a local declaration the
    /// outermost class around it.
    pub open spec fn outermost<D: TyDatabase>(
        self,
        db: &D,
        names: Names,
        package: Option<Name>,
    ) -> Option<Seq<char>> {
        match self {
            ClassKey::Named(fqn) => Some(
                top_level_text(text_or_empty(names, package), names.text(fqn)),
            ),
            ClassKey::Local(class) => match last_of(db.enclosing_types(class)) {
                Some(n) => Some(names.text(n)),
                None => None,
            },
        }
    }

    /// The key of the class-like declaration `item` of `file`.
    pub fn of<D: TyDatabase>(db: &D, file: u32, item: u32) -> (r: ClassKey)
        ensures
            r == key_of(db, SourceClass { file, item }),
    {
        let class = SourceClass { file, item };
        match db.canonical_name(class) {
            Some(fqn) => ClassKey::Named(fqn),
            None => ClassKey::Local(class),
        }
    }

    /// The key of a resolved class.
    pub fn of_resolved<D: TyDatabase>(db: &D, resolved: &Resolved) -> (r: ClassKey)
        ensures
            r == match *resolved {
                Resolved::Source(class) => key_of(db, class),
                Resolved::Facade { fqn } => ClassKey::Named(fqn),
                Resolved::Library { fqn } => ClassKey::Named(fqn),
            },
    {
        match resolved {
            Resolved::Source(class) => match db.canonical_name(*class) {
                Some(fqn) => ClassKey::Named(fqn),
                None => ClassKey::Local(*class),
            },
            Resolved::Facade { fqn } => ClassKey::Named(*fqn),
            Resolved::Library { fqn } => ClassKey::Named(*fqn),
        }
    }

    /// The simple name of the class: the last segment of a canonical name, or
    /// the name of a local declaration.
    pub fn simple_name<D: TyDatabase>(&self, db: &D, names: &Names) -> (r: String)
        requires
            self.named_in(db, *names),
        ensures
            r@ == self.simple(db, *names),
    {
        match self {
            ClassKey::Named(fqn) => simple_name(names.as_str(*fqn)).to_owned(),
            ClassKey::Local(class) => names.as_str(db.source_name(*class)).to_owned(),
        }
    }

    /// The key of the class a reference type denotes.
    pub fn of_ty<D: TyDatabase>(db: &D, ty: &Ty) -> (r: Option<ClassKey>)
        ensures
            r == ClassKey::key_of_ty(db, *ty),
    {
        match ty {
            Ty::Reference { name, args: _, local } => match local {
                Some(class) => Some(
                    match db.canonical_name(*class) {
                        Some(fqn) => ClassKey::Named(fqn),
                        None => ClassKey::Local(*class),
                    },
                ),
                None => Some(ClassKey::Named(*name)),
            },
            _ => None,
        }
    }

    /// The name a message about the class shows: its canonical name, or the
    /// simple name of a declaration that has none.
    pub fn display_name<D: TyDatabase>(&self, db: &D, names: &Names) -> (r: String)
        requires
            self.named_in(db, *names),
        ensures
            r@ == match *self {
                ClassKey::Named(fqn) => names.text(fqn),
                ClassKey::Local(_) => self.simple(db, *names),
            },
    {
        match self {
            ClassKey::Named(fqn) => names.as_str(*fqn).to_owned(),
            ClassKey::Local(_) => self.simple_name(db, names),
        }
    }

    /// The declaration of a class that has no canonical name.
    pub fn source(&self) -> (r: Option<SourceClass>)
        ensures
            r == match *self {
                ClassKey::Named(_) => None::<SourceClass>,
                ClassKey::Local(class) => Some(class),
            },
    {
        match self {
            ClassKey::Named(_) => None,
            ClassKey::Local(class) => Some(*class),
        }
    }

    /// The canonical name of the class, where it has one.
    pub fn as_fqn(&self) -> (r: Option<Name>)
        ensures
            r == match *self {
                ClassKey::Named(fqn) => Some(fqn),
                ClassKey::Local(_) => None::<Name>,
            },
    {
        match self {
            ClassKey::Named(fqn) => Some(*fqn),
            ClassKey::Local(_) => None,
        }
    }

    /// The class as a type.
    pub fn as_ty<D: TyDatabase>(&self, db: &D, args: List<Ty>) -> (r: Ty)
        ensures
            r == self.ty(db, args),
    {
        match self {
            ClassKey::Named(fqn) => Ty::reference(*fqn, args),
            ClassKey::Local(class) => Ty::local_reference(*class, db.source_name(*class), args),
        }
    }

    /// The name of the top-level class the class belongs to.
    pub fn top_level<D: TyDatabase>(&self, db: &D, names: &Names, package: Option<Name>) -> (r:
        Option<String>)
        requires
            self.named_in(db, *names),
            known(*names, package),
        ensures
            match r {
                Some(text) => self.outermost(db, *names, package) == Some(text@),
                None => self.outermost(db, *names, package) is None,
            },
    {
        match self {
            ClassKey::Named(fqn) => Some(
                source_top_level(str_or_empty(names, package), names.as_str(*fqn)),
            ),
            ClassKey::Local(class) => match last_name(&db.enclosing_type_chain(*class)) {
                Some(n) => Some(names.as_str(n).to_owned()),
                None => None,
            },
        }
    }
}

/// The names of the classes around a canonical name, innermost first: the name
/// cut at its dots from the right, as long as the package stands before it.
pub open spec fn outer_texts(prefix: Seq<char>, text: Seq<char>) -> Seq<Seq<char>>
    decreases text.len(),
{
    let dot = last_dot(text);
    if dot < 0 || dot >= text.len() {
        Seq::empty()
    } else {
        let outer = text.subrange(0, dot);
        if !begins(outer, prefix) {
            Seq::empty()
        } else {
            seq![outer] + outer_texts(prefix, outer)
        }
    }
}

/// Whether a table has a name for each of the texts.
pub open spec fn all_found(names: Names, texts: Seq<Seq<char>>) -> bool {
    forall|i: int| 0 <= i < texts.len() ==> names.lookup(#[trigger] texts[i]) is Some
}

/// The classes that go by the texts, over a table that has a name for each.
pub open spec fn keys_called(names: Names, texts: Seq<Seq<char>>) -> List<ClassKey>
    decreases texts.len(),
{
    if texts.len() == 0 {
        List::Nil
    } else {
        List::Cons(
            Box::new(ClassKey::Named(names.lookup(texts[0])->Some_0)),
            Box::new(keys_called(names, texts.drop_first())),
        )
    }
}

/// The names of the classes around a class with a canonical name. A local
/// declaration knows the classes around it by name.
pub open spec fn texts_around(names: Names, package: Option<Name>, key: ClassKey) -> Seq<
    Seq<char>,
> {
    match key {
        ClassKey::Local(_) => Seq::empty(),
        ClassKey::Named(fqn) => outer_texts(
            package_prefix(text_or_empty(names, package)),
            names.text(fqn),
        ),
    }
}

/// The simple name of a class, over a table that has it: what follows the last
/// dot or dollar sign of its name. A name that the table does not know has no
/// shorter one.
#[verifier::opaque]
pub open spec fn simple_of(names: Names, name: Name) -> Name {
    if names.knows(name) {
        names.lookup(simple_text(names.text(name)))->Some_0
    } else {
        name
    }
}

/// The name of a class without what stands before the last dot, over a table
/// that has it.
#[verifier::opaque]
pub open spec fn unqualified_of(names: Names, name: Name) -> Name {
    if names.knows(name) {
        names.lookup(behind_dot(names.text(name)))->Some_0
    } else {
        name
    }
}

/// The text of the name of a member class: a dollar sign separates it in a
/// binary name, a dot otherwise.
pub open spec fn member_text(owner: Seq<char>, simple: Seq<char>, binary: bool) -> Seq<char> {
    owner + (if binary {
        "$"@
    } else {
        "."@
    }) + simple
}

/// The name of a member class, where the table has it.
#[verifier::opaque]
pub open spec fn member_of(names: Names, owner: Name, simple: Name, binary: bool) -> Option<Name> {
    if names.knows(owner) && names.knows(simple) {
        names.lookup(member_text(names.text(owner), names.text(simple), binary))
    } else {
        None
    }
}

/// The simple name of a class.
pub fn find_simple(names: &Names, name: Name) -> (r: Name)
    requires
        has_short_names(*names),
    ensures
        r == simple_of(*names, name),
        names.knows(name) ==> names.knows(r) && names.text(r) == simple_text(names.text(name)),
{
    proof {
        reveal(simple_of);
    }
    if names.has(name) {
        match names.find(simple_name(names.as_str(name))) {
            Some(n) => n,
            None => name,
        }
    } else {
        name
    }
}

/// The name of a class without what stands before the last dot.
pub fn find_unqualified(names: &Names, name: Name) -> (r: Name)
    requires
        has_short_names(*names),
    ensures
        r == unqualified_of(*names, name),
        names.knows(name) ==> names.knows(r) && names.text(r) == behind_dot(names.text(name)),
{
    proof {
        reveal(unqualified_of);
    }
    if names.has(name) {
        match names.find(behind_last_dot(names.as_str(name))) {
            Some(n) => n,
            None => name,
        }
    } else {
        name
    }
}

/// The name of a member class, where the table has it.
pub fn find_member(names: &Names, owner: Name, simple: Name, binary: bool) -> (r: Option<Name>)
    ensures
        r == member_of(*names, owner, simple, binary),
{
    proof {
        reveal(member_of);
    }
    if names.has(owner) && names.has(simple) {
        let separator = if binary {
            "$"
        } else {
            "."
        };
        let text = names.as_str(owner).to_owned().concat(separator).concat(names.as_str(simple));
        names.find(text.as_str())
    } else {
        None
    }
}

/// Whether the table has names for the shorter forms of a text.
pub open spec fn short_known(names: Names, text: Seq<char>) -> bool {
    names.lookup(simple_text(text)) is Some && names.lookup(behind_dot(text)) is Some
}

/// Whether the table has the shorter names of all its names.
pub open spec fn has_short_names(names: Names) -> bool {
    forall|n: Name| #[trigger] names.knows(n) ==> short_known(names, names.text(n))
}

/// The shorter names of a name read as its end, where the table has them.
pub proof fn law_short_names_read_so(names: Names, name: Name)
    requires
        names.knows(name),
        short_known(names, names.text(name)),
    ensures
        names.knows(simple_of(names, name)),
        names.text(simple_of(names, name)) == simple_text(names.text(name)),
        names.knows(unqualified_of(names, name)),
        names.text(unqualified_of(names, name)) == behind_dot(names.text(name)),
{
    reveal(simple_of);
    reveal(unqualified_of);
    lemma_lookup_text(names, simple_text(names.text(name)));
    lemma_lookup_text(names, behind_dot(names.text(name)));
}

/// Whether the names without a variant of their own have their shorter names.
spec fn entries_short(names: Names) -> bool {
    forall|n: Name| n is Other && #[trigger] names.knows(n) ==> short_known(names, names.text(n))
}

proof fn lemma_short_stays(before: Names, after: Names, text: Seq<char>)
    requires
        after.wf(),
        keeps_names(before, after),
        short_known(before, text),
    ensures
        short_known(after, text),
{
    law_found_names_stay(before, after, simple_text(text));
    law_found_names_stay(before, after, behind_dot(text));
}

/// Enters a text whose shorter forms are entered, or which has none.
fn enter_next(names: &mut Names, text: &str) -> (r: Name)
    requires
        old(names).wf(),
        entries_short(*old(names)),
        old(names).texts@.len() < u32::MAX,
        simple_text(text@) == text@ || old(names).lookup(simple_text(text@)) is Some,
        behind_dot(text@) == text@ || old(names).lookup(behind_dot(text@)) is Some,
    ensures
        final(names).wf(),
        entries_short(*final(names)),
        keeps_names(*old(names), *final(names)),
        final(names).texts@.len() <= old(names).texts@.len() + 1,
        final(names).knows(r),
        final(names).text(r) == text@,
        final(names).lookup(text@) is Some,
        short_known(*final(names), text@),
{
    let r = names.intern(text);
    proof {
        let (before, after) = (*old(names), *names);
        lemma_lookup_known(after, r);
        if simple_text(text@) != text@ {
            law_found_names_stay(before, after, simple_text(text@));
        }
        if behind_dot(text@) != text@ {
            law_found_names_stay(before, after, behind_dot(text@));
        }
        assert forall|n: Name| n is Other && #[trigger] after.knows(n) implies short_known(
            after,
            after.text(n),
        ) by {
            if before.knows(n) {
                lemma_short_stays(before, after, before.text(n));
            } else {
                assert(!before.knows(r));
                assert(n == r);
            }
        }
    }
    r
}

/// Enters the shorter forms of a text.
fn enter_short(names: &mut Names, text: &str)
    requires
        old(names).wf(),
        entries_short(*old(names)),
        old(names).texts@.len() + 2 <= u32::MAX,
    ensures
        final(names).wf(),
        entries_short(*final(names)),
        keeps_names(*old(names), *final(names)),
        final(names).texts@.len() <= old(names).texts@.len() + 2,
        short_known(*final(names), text@),
{
    proof {
        law_short_texts(text@);
    }
    let _ = enter_next(names, simple_name(text));
    let ghost mid = *names;
    let _ = enter_next(names, behind_last_dot(text));
    proof {
        let (before, after) = (*old(names), *names);
        law_found_names_stay(mid, after, simple_text(text@));
        assert forall|n: Name| #[trigger] before.knows(n) implies after.knows(n) && after.text(n)
            == before.text(n) by {
            assert(mid.knows(n));
        }
    }
}

/// A table of the names of classes and members. It has the shorter names of all
/// its names, so that a class is also found by what its constructors go by.
#[derive(Debug)]
pub struct ClassTable {
    entries: Names,
}

impl ClassTable {
    #[verifier::type_invariant]
    spec fn complete(self) -> bool {
        self.entries.wf() && has_short_names(self.entries)
    }

    /// The names of the table.
    pub closed spec fn table(self) -> Names {
        self.entries
    }

    /// The table with no more than the shorter names of the names that have a
    /// variant of their own.
    pub fn new() -> (r: ClassTable)
        ensures
            r.table().wf(),
            has_short_names(r.table()),
            r.table().texts@.len() <= 60,
    {
        let mut entries = Names::new();
        let all = all_fixed();
        let mut i: usize = 0;
        while i < 30
            invariant
                i <= 30,
                all@ == fixed_names(),
                all@.len() == 30,
                entries.wf(),
                entries_short(entries),
                entries.texts@.len() <= 2 * i,
                forall|k: int|
                    0 <= k < i ==> short_known(entries, fixed_text(#[trigger] all@[k])),
            decreases 30 - i,
        {
            let ghost before = entries;
            enter_short(&mut entries, fixed_str(all[i]));
            proof {
                assert forall|k: int| 0 <= k < i + 1 implies short_known(
                    entries,
                    fixed_text(#[trigger] all@[k]),
                ) by {
                    if k < i {
                        lemma_short_stays(before, entries, fixed_text(all@[k]));
                    }
                }
            }
            i = i + 1;
        }
        proof {
            assert forall|n: Name| #[trigger] entries.knows(n) implies short_known(
                entries,
                entries.text(n),
            ) by {
                if is_fixed(n) {
                    assert(fixed_names()[fixed_index(n)] == n);
                }
            }
        }
        ClassTable { entries }
    }

    /// The names of the table.
    pub fn names(&self) -> (r: &Names)
        ensures
            *r == self.table(),
            r.wf(),
            has_short_names(*r),
    {
        proof {
            use_type_invariant(self);
        }
        &self.entries
    }

    /// The name whose text is `text`, entered with its shorter names where it is
    /// new.
    pub fn enter(&mut self, text: &str) -> (r: Name)
        requires
            old(self).table().texts@.len() + 3 <= u32::MAX,
        ensures
            keeps_names(old(self).table(), final(self).table()),
            final(self).table().wf(),
            has_short_names(final(self).table()),
            final(self).table().texts@.len() <= old(self).table().texts@.len() + 3,
            final(self).table().knows(r),
            final(self).table().text(r) == text@,
    {
        let mut taken = ClassTable::new();
        proof {
            use_type_invariant(&taken);
            use_type_invariant(&*self);
        }
        core::mem::swap(self, &mut taken);
        let mut entries = taken.entries;
        let ghost before = entries;
        enter_short(&mut entries, text);
        let ghost mid = entries;
        let name = enter_next(&mut entries, text);
        proof {
            assert forall|n: Name| #[trigger] entries.knows(n) implies short_known(
                entries,
                entries.text(n),
            ) by {
                if is_fixed(n) {
                    assert(before.knows(n));
                    lemma_short_stays(before, mid, before.text(n));
                    lemma_short_stays(mid, entries, before.text(n));
                }
            }
            assert forall|n: Name| #[trigger] before.knows(n) implies entries.knows(n)
                && entries.text(n) == before.text(n) by {
                assert(mid.knows(n));
            }
        }
        *self = ClassTable { entries };
        name
    }
}

/// Keys of canonical names.
pub open spec fn named_keys(l: List<Name>) -> List<ClassKey>
    decreases l,
{
    match l {
        List::Nil => List::Nil,
        List::Cons(h, t) => List::Cons(Box::new(ClassKey::Named(*h)), Box::new(named_keys(*t))),
    }
}

/// The class and each class around it, innermost first, over a table that the
/// names of the classes around it were entered into.
pub open spec fn enclosing_keys<D: TyDatabase>(
    db: &D,
    names: Names,
    package: Option<Name>,
    key: ClassKey,
) -> List<ClassKey> {
    List::Cons(
        Box::new(key),
        Box::new(
            match key {
                ClassKey::Local(class) => named_keys(db.enclosing_types(class)),
                ClassKey::Named(_) => keys_called(names, texts_around(names, package, key)),
            },
        ),
    )
}

fn enter_outer_keys(names: &mut Names, prefix: &str, text: &str) -> (r: List<ClassKey>)
    requires
        old(names).wf(),
        old(names).texts@.len() + outer_texts(prefix@, text@).len() <= u32::MAX,
    ensures
        final(names).wf(),
        final(names).texts@.len() <= old(names).texts@.len() + outer_texts(prefix@, text@).len(),
        keeps_names(*old(names), *final(names)),
        all_found(*final(names), outer_texts(prefix@, text@)),
        r == keys_called(*final(names), outer_texts(prefix@, text@)),
    decreases text@.len(),
{
    match rsplit_once_dot(text) {
        None => List::Nil,
        Some((outer, _)) => {
            proof {
                crate::text::lemma_last_dot(text@);
            }
            if !starts_with(outer, prefix) {
                return List::Nil;
            }
            let ghost inner = outer_texts(prefix@, outer@);
            let ghost all = outer_texts(prefix@, text@);
            assert(all == seq![outer@] + inner);
            let n = names.intern(outer);
            let ghost mid = *names;
            let rest = enter_outer_keys(names, prefix, outer);
            proof {
                let before = *old(names);
                assert(mid.knows(n));
                lemma_lookup_known(*names, n);
                assert(all.drop_first() =~= inner);
                assert forall|i: int| 0 <= i < all.len() implies names.lookup(
                    #[trigger] all[i],
                ) is Some by {
                    if i > 0 {
                        assert(all[i] == inner[i - 1]);
                    }
                }
                assert forall|m: Name| #[trigger] before.knows(m) implies names.knows(m)
                    && names.text(m) == before.text(m) by {
                    assert(mid.knows(m));
                }
            }
            List::cons(ClassKey::Named(n), rest)
        },
    }
}

fn keys_of_names(l: &List<Name>) -> (r: List<ClassKey>)
    ensures
        r == named_keys(*l),
    decreases l,
{
    match l {
        List::Nil => List::Nil,
        List::Cons(h, t) => List::cons(ClassKey::Named(**h), keys_of_names(t)),
    }
}

/// The class an access appears in and each class enclosing it, innermost
/// first. The names of the classes around it are entered into the table.
pub fn enclosing_class_keys<D: TyDatabase>(
    db: &D,
    names: &mut Names,
    package: Option<Name>,
    key: &ClassKey,
) -> (r: List<ClassKey>)
    requires
        old(names).wf(),
        key.named_in(db, *old(names)),
        known(*old(names), package),
        old(names).texts@.len() + texts_around(*old(names), package, *key).len() <= u32::MAX,
    ensures
        final(names).wf(),
        keeps_names(*old(names), *final(names)),
        all_found(*final(names), texts_around(*final(names), package, *key)),
        r == enclosing_keys(db, *final(names), package, *key),
{
    let rest = match key {
        ClassKey::Local(class) => keys_of_names(&db.enclosing_type_chain(*class)),
        ClassKey::Named(fqn) => {
            let prefix = prefix_of_package(str_or_empty(names, package));
            let text = names.as_str(*fqn).to_owned();
            let rest = enter_outer_keys(names, prefix.as_str(), text.as_str());
            assert(old(names).knows(*fqn));
            if let Some(p) = package {
                assert(old(names).knows(p));
            }
            rest
        },
    };
    List::cons(*key, rest)
}

/// The classes around a class are the same in every table that keeps the names
/// of one in which they were found.
pub proof fn law_enclosing_keys_stay<D: TyDatabase>(
    db: &D,
    before: Names,
    after: Names,
    package: Option<Name>,
    key: ClassKey,
)
    requires
        after.wf(),
        keeps_names(before, after),
        key.named_in(db, before),
        known(before, package),
        all_found(before, texts_around(before, package, key)),
    ensures
        texts_around(after, package, key) == texts_around(before, package, key),
        enclosing_keys(db, after, package, key) == enclosing_keys(db, before, package, key),
{
    if let ClassKey::Named(fqn) = key {
        assert(before.knows(fqn));
        if let Some(p) = package {
            assert(before.knows(p));
        }
        lemma_keys_stay(before, after, texts_around(before, package, key));
    }
}

proof fn lemma_keys_stay(before: Names, after: Names, texts: Seq<Seq<char>>)
    requires
        after.wf(),
        keeps_names(before, after),
        all_found(before, texts),
    ensures
        keys_called(after, texts) == keys_called(before, texts),
    decreases texts.len(),
{
    if texts.len() > 0 {
        law_found_names_stay(before, after, texts[0]);
        let rest = texts.drop_first();
        assert forall|i: int| 0 <= i < rest.len() implies before.lookup(
            #[trigger] rest[i],
        ) is Some by {
            assert(rest[i] == texts[i + 1]);
        }
        lemma_keys_stay(before, after, rest);
    }
}

/// The key of a class type is the key it was made from.
pub proof fn law_key_of_its_type<D: TyDatabase>(db: &D, key: ClassKey, args: List<Ty>)
    requires
        match key {
            ClassKey::Local(class) => db.canonical(class) is None,
            ClassKey::Named(_) => true,
        },
    ensures
        ClassKey::key_of_ty(db, key.ty(db, args)) == Some(key),
{
}

/// The classes around a canonical name go by what stands before one of its
/// dots, the package first, and by nothing else.
pub proof fn law_classes_around(prefix: Seq<char>, text: Seq<char>, outer: Seq<char>)
    ensures
        outer_texts(prefix, text).contains(outer) <==> exists|i: int|
            0 <= i < text.len() && #[trigger] text[i] == '.' && outer == text.subrange(0, i)
                && begins(outer, prefix),
    decreases text.len(),
{
    let dot = last_dot(text);
    let all = outer_texts(prefix, text);
    crate::text::lemma_last_dot(text);
    if 0 <= dot < text.len() {
        let cut = text.subrange(0, dot);
        if begins(cut, prefix) {
            let rest = outer_texts(prefix, cut);
            law_classes_around(prefix, cut, outer);
            assert(all == seq![cut] + rest);
            if all.contains(outer) {
                let k = choose|k: int| 0 <= k < all.len() && all[k] == outer;
                if k == 0 {
                    assert(text[dot] == '.');
                } else {
                    assert(rest[k - 1] == outer);
                    let i = choose|i: int|
                        0 <= i < cut.len() && #[trigger] cut[i] == '.' && outer == cut.subrange(
                            0,
                            i,
                        ) && begins(outer, prefix);
                    assert(text[i] == '.');
                    assert(outer =~= text.subrange(0, i));
                }
            }
            if exists|i: int|
                0 <= i < text.len() && #[trigger] text[i] == '.' && outer == text.subrange(0, i)
                    && begins(outer, prefix) {
                let i = choose|i: int|
                    0 <= i < text.len() && #[trigger] text[i] == '.' && outer == text.subrange(
                        0,
                        i,
                    ) && begins(outer, prefix);
                if i == dot {
                    assert(all[0] == outer);
                } else {
                    assert(cut[i] == '.');
                    assert(outer =~= cut.subrange(0, i));
                    let k = choose|k: int| 0 <= k < rest.len() && rest[k] == outer;
                    assert(all[k + 1] == outer);
                }
            }
        } else {
            assert forall|i: int|
                0 <= i < text.len() && #[trigger] text[i] == '.' && outer == text.subrange(
                    0,
                    i,
                ) implies !begins(outer, prefix) by {
                if begins(outer, prefix) {
                    assert(cut.subrange(0, prefix.len() as int) =~= outer.subrange(
                        0,
                        prefix.len() as int,
                    ));
                }
            }
        }
    }
}

} // verus!
