//! Interned names. The names the rules of the language speak of are variants
//! of their own; every other name is an index into a [`Names`] table.
use crate::list::Data;
use vstd::prelude::*;

verus! {

/// An interned name: a simple name, or the canonical name of a class.
#[derive(Clone, Copy, Debug, PartialEq, Eq, Structural)]
pub enum Name {
    /// The empty name.
    Empty,
    Object,
    String,
    Class,
    Throwable,
    Exception,
    RuntimeException,
    Error,
    Cloneable,
    Serializable,
    AutoCloseable,
    BoxedBoolean,
    BoxedByte,
    BoxedShort,
    BoxedCharacter,
    BoxedInteger,
    BoxedLong,
    BoxedFloat,
    BoxedDouble,
    BoxedVoid,
    Values,
    ValueOf,
    Equals,
    HashCode,
    ToStringName,
    Length,
    Iterator,
    Next,
    Close,
    Init,
    /// The entry of the name table with this index.
    Other(u32),
}

impl Data for Name {
    fn copy(&self) -> (r: Self) {
        *self
    }

    fn same(&self, other: &Self) -> (r: bool) {
        *self == *other
    }
}

/// The text of a name that has a variant of its own; empty for the others.
pub open spec fn fixed_text(n: Name) -> Seq<char> {
    match n {
        Name::Empty => ""@,
        Name::Object => "java.lang.Object"@,
        Name::String => "java.lang.String"@,
        Name::Class => "java.lang.Class"@,
        Name::Throwable => "java.lang.Throwable"@,
        Name::Exception => "java.lang.Exception"@,
        Name::RuntimeException => "java.lang.RuntimeException"@,
        Name::Error => "java.lang.Error"@,
        Name::Cloneable => "java.lang.Cloneable"@,
        Name::Serializable => "java.io.Serializable"@,
        Name::AutoCloseable => "java.lang.AutoCloseable"@,
        Name::BoxedBoolean => "java.lang.Boolean"@,
        Name::BoxedByte => "java.lang.Byte"@,
        Name::BoxedShort => "java.lang.Short"@,
        Name::BoxedCharacter => "java.lang.Character"@,
        Name::BoxedInteger => "java.lang.Integer"@,
        Name::BoxedLong => "java.lang.Long"@,
        Name::BoxedFloat => "java.lang.Float"@,
        Name::BoxedDouble => "java.lang.Double"@,
        Name::BoxedVoid => "java.lang.Void"@,
        Name::Values => "values"@,
        Name::ValueOf => "valueOf"@,
        Name::Equals => "equals"@,
        Name::HashCode => "hashCode"@,
        Name::ToStringName => "toString"@,
        Name::Length => "length"@,
        Name::Iterator => "iterator"@,
        Name::Next => "next"@,
        Name::Close => "close"@,
        Name::Init => "<init>"@,
        Name::Other(_) => ""@,
    }
}

/// Whether `n` has a variant of its own.
pub open spec fn is_fixed(n: Name) -> bool {
    !(n is Other)
}

/// The text of a name that has a variant of its own.
pub fn fixed_str(n: Name) -> (r: &'static str)
    ensures
        r@ == fixed_text(n),
{
    match n {
        Name::Empty => "",
        Name::Object => "java.lang.Object",
        Name::String => "java.lang.String",
        Name::Class => "java.lang.Class",
        Name::Throwable => "java.lang.Throwable",
        Name::Exception => "java.lang.Exception",
        Name::RuntimeException => "java.lang.RuntimeException",
        Name::Error => "java.lang.Error",
        Name::Cloneable => "java.lang.Cloneable",
        Name::Serializable => "java.io.Serializable",
        Name::AutoCloseable => "java.lang.AutoCloseable",
        Name::BoxedBoolean => "java.lang.Boolean",
        Name::BoxedByte => "java.lang.Byte",
        Name::BoxedShort => "java.lang.Short",
        Name::BoxedCharacter => "java.lang.Character",
        Name::BoxedInteger => "java.lang.Integer",
        Name::BoxedLong => "java.lang.Long",
        Name::BoxedFloat => "java.lang.Float",
        Name::BoxedDouble => "java.lang.Double",
        Name::BoxedVoid => "java.lang.Void",
        Name::Values => "values",
        Name::ValueOf => "valueOf",
        Name::Equals => "equals",
        Name::HashCode => "hashCode",
        Name::ToStringName => "toString",
        Name::Length => "length",
        Name::Iterator => "iterator",
        Name::Next => "next",
        Name::Close => "close",
        Name::Init => "<init>",
        Name::Other(_) => "",
    }
}

/// Whether two texts hold the same characters.
pub fn same_text(a: &str, b: &str) -> (r: bool)
    ensures
        r == (a@ == b@),
{
    a.to_owned() == b.to_owned()
}

/// The names with a variant of their own.
pub open spec fn fixed_names() -> Seq<Name> {
    seq![
        Name::Empty,
        Name::Object,
        Name::String,
        Name::Class,
        Name::Throwable,
        Name::Exception,
        Name::RuntimeException,
        Name::Error,
        Name::Cloneable,
        Name::Serializable,
        Name::AutoCloseable,
        Name::BoxedBoolean,
        Name::BoxedByte,
        Name::BoxedShort,
        Name::BoxedCharacter,
        Name::BoxedInteger,
        Name::BoxedLong,
        Name::BoxedFloat,
        Name::BoxedDouble,
        Name::BoxedVoid,
        Name::Values,
        Name::ValueOf,
        Name::Equals,
        Name::HashCode,
        Name::ToStringName,
        Name::Length,
        Name::Iterator,
        Name::Next,
        Name::Close,
        Name::Init,
    ]
}

/// The position of a name with a variant of its own among [`fixed_names`].
pub open spec fn fixed_index(n: Name) -> int {
    match n {
        Name::Empty => 0,
        Name::Object => 1,
        Name::String => 2,
        Name::Class => 3,
        Name::Throwable => 4,
        Name::Exception => 5,
        Name::RuntimeException => 6,
        Name::Error => 7,
        Name::Cloneable => 8,
        Name::Serializable => 9,
        Name::AutoCloseable => 10,
        Name::BoxedBoolean => 11,
        Name::BoxedByte => 12,
        Name::BoxedShort => 13,
        Name::BoxedCharacter => 14,
        Name::BoxedInteger => 15,
        Name::BoxedLong => 16,
        Name::BoxedFloat => 17,
        Name::BoxedDouble => 18,
        Name::BoxedVoid => 19,
        Name::Values => 20,
        Name::ValueOf => 21,
        Name::Equals => 22,
        Name::HashCode => 23,
        Name::ToStringName => 24,
        Name::Length => 25,
        Name::Iterator => 26,
        Name::Next => 27,
        Name::Close => 28,
        Name::Init => 29,
        Name::Other(_) => 30,
    }
}

/// The names with a variant of their own.
pub fn all_fixed() -> (r: [Name; 30])
    ensures
        r@ == fixed_names(),
{
    let all = [
        Name::Empty,
        Name::Object,
        Name::String,
        Name::Class,
        Name::Throwable,
        Name::Exception,
        Name::RuntimeException,
        Name::Error,
        Name::Cloneable,
        Name::Serializable,
        Name::AutoCloseable,
        Name::BoxedBoolean,
        Name::BoxedByte,
        Name::BoxedShort,
        Name::BoxedCharacter,
        Name::BoxedInteger,
        Name::BoxedLong,
        Name::BoxedFloat,
        Name::BoxedDouble,
        Name::BoxedVoid,
        Name::Values,
        Name::ValueOf,
        Name::Equals,
        Name::HashCode,
        Name::ToStringName,
        Name::Length,
        Name::Iterator,
        Name::Next,
        Name::Close,
        Name::Init,
    ];
    assert(all@ == fixed_names());
    all
}

/// The first name of `all`, from position `i` on, whose text is `text`.
pub open spec fn first_fixed(text: Seq<char>, all: Seq<Name>, i: nat) -> Option<Name>
    decreases all.len() - i,
{
    if i >= all.len() {
        None
    } else if fixed_text(all[i as int]) == text {
        Some(all[i as int])
    } else {
        first_fixed(text, all, i + 1)
    }
}

/// The first entry of a table, from position `i` on, whose text is `text`. Past
/// the largest index no name reaches.
pub open spec fn first_entry(text: Seq<char>, texts: Seq<String>, i: nat) -> Option<Name>
    decreases texts.len() - i,
{
    if i >= texts.len() || i > u32::MAX {
        None
    } else if texts[i as int]@ == text {
        Some(Name::Other(i as u32))
    } else {
        first_entry(text, texts, i + 1)
    }
}

/// Whether one table has the names of another, with the same texts.
pub open spec fn keeps_names(before: Names, after: Names) -> bool {
    forall|n: Name| #[trigger]
        before.knows(n) ==> after.knows(n) && after.text(n) == before.text(n)
}

/// The table of the names that have no variant of their own.
#[derive(Debug)]
pub struct Names {
    pub texts: Vec<String>,
}

impl Names {
    /// No text is that of a name with a variant of its own, and none occurs
    /// twice.
    pub open spec fn wf(self) -> bool {
        &&& forall|i: int, n: Name|
            0 <= i < self.texts@.len() && is_fixed(n) ==> #[trigger] self.texts@[i]@
                != #[trigger] fixed_text(n)
        &&& forall|i: int, j: int|
            0 <= i < j < self.texts@.len() ==> #[trigger] self.texts@[i]@
                != #[trigger] self.texts@[j]@
    }

    /// Whether the table knows the name.
    pub open spec fn knows(self, n: Name) -> bool {
        match n {
            Name::Other(i) => i < self.texts@.len(),
            _ => true,
        }
    }

    /// The text of a name.
    pub open spec fn text(self, n: Name) -> Seq<char> {
        match n {
            Name::Other(i) => self.texts@[i as int]@,
            _ => fixed_text(n),
        }
    }

    /// The name whose text is `text`, where there is one.
    pub open spec fn lookup(self, text: Seq<char>) -> Option<Name> {
        match first_fixed(text, fixed_names(), 0) {
            Some(n) => Some(n),
            None => first_entry(text, self.texts@, 0),
        }
    }

    /// The table without any entry.
    pub fn new() -> (r: Names)
        ensures
            r.wf(),
            r.texts@.len() == 0,
    {
        Names { texts: Vec::new() }
    }

    /// Whether the table knows the name.
    pub fn has(&self, n: Name) -> (r: bool)
        ensures
            r == self.knows(n),
    {
        match n {
            Name::Other(i) => (i as usize) < self.texts.len(),
            _ => true,
        }
    }

    /// The text of a name.
    pub fn as_str(&self, n: Name) -> (r: &str)
        requires
            self.knows(n),
        ensures
            r@ == self.text(n),
    {
        match n {
            Name::Other(i) => self.texts[i as usize].as_str(),
            _ => fixed_str(n),
        }
    }

    /// The name with a variant of its own whose text is `text`.
    fn find_fixed(text: &str) -> (r: Option<Name>)
        ensures
            r == first_fixed(text@, fixed_names(), 0),
            match r {
                Some(n) => is_fixed(n) && fixed_text(n) == text@,
                None => forall|n: Name| is_fixed(n) ==> #[trigger] fixed_text(n) != text@,
            },
    {
        let all = all_fixed();
        let mut i: usize = 0;
        while i < 30
            invariant
                i <= 30,
                all@ == fixed_names(),
                all@.len() == 30,
                first_fixed(text@, fixed_names(), i as nat) == first_fixed(
                    text@,
                    fixed_names(),
                    0,
                ),
                forall|k: int| 0 <= k < i ==> fixed_text(#[trigger] all@[k]) != text@,
            decreases 30 - i,
        {
            if same_text(fixed_str(all[i]), text) {
                return Some(all[i]);
            }
            i = i + 1;
        }
        assert forall|n: Name| is_fixed(n) implies #[trigger] fixed_text(n) != text@ by {
            assert(fixed_names()[fixed_index(n)] == n);
        }
        None
    }

    /// The name whose text is `text`, where there is one.
    pub fn find(&self, text: &str) -> (r: Option<Name>)
        ensures
            r == self.lookup(text@),
            match r {
                Some(n) => self.knows(n) && self.text(n) == text@,
                None => true,
            },
    {
        if let Some(n) = Names::find_fixed(text) {
            return Some(n);
        }
        let mut i: usize = 0;
        while i < self.texts.len() && i <= u32::MAX as usize
            invariant
                i <= self.texts@.len(),
                first_entry(text@, self.texts@, i as nat) == first_entry(text@, self.texts@, 0),
                first_fixed(text@, fixed_names(), 0) is None,
            decreases self.texts@.len() - i,
        {
            if same_text(self.texts[i].as_str(), text) {
                return Some(Name::Other(i as u32));
            }
            i = i + 1;
        }
        None
    }

    /// The name whose text is `text`, entered into the table where it is new.
    pub fn intern(&mut self, text: &str) -> (r: Name)
        requires
            old(self).wf(),
            old(self).texts@.len() < u32::MAX,
        ensures
            final(self).wf(),
            final(self).knows(r),
            final(self).text(r) == text@,
            keeps_names(*old(self), *final(self)),
            (exists|n: Name| #[trigger] old(self).knows(n) && old(self).text(n) == text@)
                ==> *final(self) == *old(self),
            final(self).texts@.len() <= old(self).texts@.len() + 1,
    {
        if let Some(n) = Names::find_fixed(text) {
            return n;
        }
        let mut i: usize = 0;
        while i < self.texts.len()
            invariant
                i <= self.texts@.len(),
                *self == *old(self),
                old(self).wf(),
                forall|k: int| 0 <= k < i ==> (#[trigger] self.texts@[k])@ != text@,
                self.texts@.len() < u32::MAX,
            decreases self.texts@.len() - i,
        {
            if same_text(self.texts[i].as_str(), text) {
                return Name::Other(i as u32);
            }
            i = i + 1;
        }
        assert forall|n: Name| #[trigger] old(self).knows(n) implies old(self).text(n) != text@ by {
            if let Name::Other(k) = n {
                assert(self.texts@[k as int]@ != text@);
            }
        }
        let id: u32 = self.texts.len() as u32;
        self.texts.push(text.to_owned());
        proof {
            let t = self.texts@;
            assert forall|i: int, n: Name| 0 <= i < t.len() && is_fixed(n) implies #[trigger] t[i]@
                != #[trigger] fixed_text(n) by {
                if i < t.len() - 1 {
                    assert(t[i] == old(self).texts@[i]);
                }
            }
            assert forall|i: int, j: int| 0 <= i < j < t.len() implies #[trigger] t[i]@
                != #[trigger] t[j]@ by {
                assert(t[i] == old(self).texts@[i]);
                if j < t.len() - 1 {
                    assert(t[j] == old(self).texts@[j]);
                }
            }
        }
        Name::Other(id)
    }
}

/// Names with a variant of their own have different texts.
pub proof fn law_fixed_texts_differ(a: Name, b: Name)
    requires
        is_fixed(a),
        is_fixed(b),
        fixed_text(a) == fixed_text(b),
    ensures
        a == b,
{
    reveal_strlit("");
    reveal_strlit("java.lang.Object");
    reveal_strlit("java.lang.String");
    reveal_strlit("java.lang.Class");
    reveal_strlit("java.lang.Throwable");
    reveal_strlit("java.lang.Exception");
    reveal_strlit("java.lang.RuntimeException");
    reveal_strlit("java.lang.Error");
    reveal_strlit("java.lang.Cloneable");
    reveal_strlit("java.io.Serializable");
    reveal_strlit("java.lang.AutoCloseable");
    reveal_strlit("java.lang.Boolean");
    reveal_strlit("java.lang.Byte");
    reveal_strlit("java.lang.Short");
    reveal_strlit("java.lang.Character");
    reveal_strlit("java.lang.Integer");
    reveal_strlit("java.lang.Long");
    reveal_strlit("java.lang.Float");
    reveal_strlit("java.lang.Double");
    reveal_strlit("java.lang.Void");
    reveal_strlit("values");
    reveal_strlit("valueOf");
    reveal_strlit("equals");
    reveal_strlit("hashCode");
    reveal_strlit("toString");
    reveal_strlit("length");
    reveal_strlit("iterator");
    reveal_strlit("next");
    reveal_strlit("close");
    reveal_strlit("<init>");
    assert(""@.len() == 0);
    assert("java.lang.Object"@.len() == 16);
    assert("java.lang.String"@.len() == 16);
    assert("java.lang.Class"@.len() == 15);
    assert("java.lang.Throwable"@.len() == 19);
    assert("java.lang.Exception"@.len() == 19);
    assert("java.lang.RuntimeException"@.len() == 26);
    assert("java.lang.Error"@.len() == 15);
    assert("java.lang.Cloneable"@.len() == 19);
    assert("java.io.Serializable"@.len() == 20);
    assert("java.lang.AutoCloseable"@.len() == 23);
    assert("java.lang.Boolean"@.len() == 17);
    assert("java.lang.Byte"@.len() == 14);
    assert("java.lang.Short"@.len() == 15);
    assert("java.lang.Character"@.len() == 19);
    assert("java.lang.Integer"@.len() == 17);
    assert("java.lang.Long"@.len() == 14);
    assert("java.lang.Float"@.len() == 15);
    assert("java.lang.Double"@.len() == 16);
    assert("java.lang.Void"@.len() == 14);
    assert("values"@.len() == 6);
    assert("valueOf"@.len() == 7);
    assert("equals"@.len() == 6);
    assert("hashCode"@.len() == 8);
    assert("toString"@.len() == 8);
    assert("length"@.len() == 6);
    assert("iterator"@.len() == 8);
    assert("next"@.len() == 4);
    assert("close"@.len() == 5);
    assert("<init>"@.len() == 6);
    assert("java.lang.Object"@[10] == 'O');
    assert("java.lang.String"@[10] == 'S');
    assert("java.lang.Class"@[10] == 'C');
    assert("java.lang.Throwable"@[10] == 'T');
    assert("java.lang.Exception"@[10] == 'E');
    assert("java.lang.Error"@[10] == 'E');
    assert("java.lang.Cloneable"@[10] == 'C');
    assert("java.lang.Cloneable"@[11] == 'l');
    assert("java.lang.Boolean"@[10] == 'B');
    assert("java.lang.Byte"@[10] == 'B');
    assert("java.lang.Short"@[10] == 'S');
    assert("java.lang.Character"@[10] == 'C');
    assert("java.lang.Character"@[11] == 'h');
    assert("java.lang.Integer"@[10] == 'I');
    assert("java.lang.Long"@[10] == 'L');
    assert("java.lang.Float"@[10] == 'F');
    assert("java.lang.Double"@[10] == 'D');
    assert("java.lang.Void"@[10] == 'V');
    assert("values"@[0] == 'v');
    assert("equals"@[0] == 'e');
    assert("hashCode"@[0] == 'h');
    assert("toString"@[0] == 't');
    assert("length"@[0] == 'l');
    assert("iterator"@[0] == 'i');
    assert("<init>"@[0] == '<');
}

/// A table tells its names apart: two names it knows with the same text are
/// the same name.
pub proof fn law_names_are_unique(table: Names, a: Name, b: Name)
    requires
        table.wf(),
        table.knows(a),
        table.knows(b),
        table.text(a) == table.text(b),
    ensures
        a == b,
{
    if is_fixed(a) && is_fixed(b) {
        law_fixed_texts_differ(a, b);
    } else if is_fixed(a) {
        assert(table.texts@[b->Other_0 as int]@ != fixed_text(a));
    } else if is_fixed(b) {
        assert(table.texts@[a->Other_0 as int]@ != fixed_text(b));
    } else if a->Other_0 < b->Other_0 {
        assert(table.texts@[a->Other_0 as int]@ != table.texts@[b->Other_0 as int]@);
    } else if b->Other_0 < a->Other_0 {
        assert(table.texts@[b->Other_0 as int]@ != table.texts@[a->Other_0 as int]@);
    }
}

/// What a table is asked for by its text is a name it knows, with that text.
pub proof fn lemma_lookup_text(names: Names, text: Seq<char>)
    ensures
        names.lookup(text) matches Some(n) ==> names.knows(n) && names.text(n) == text,
{
    lemma_first_fixed(text, 0);
    lemma_first_entry(text, names.texts@, 0);
}

/// A name that a table knows is the one that is found by its text.
pub proof fn lemma_lookup_known(names: Names, n: Name)
    requires
        names.wf(),
        names.knows(n),
    ensures
        names.lookup(names.text(n)) == Some(n),
{
    let text = names.text(n);
    lemma_first_fixed(text, 0);
    lemma_first_entry(text, names.texts@, 0);
    match names.lookup(text) {
        Some(m) => {
            law_names_are_unique(names, m, n);
        },
        None => {
            if is_fixed(n) {
                assert(fixed_names()[fixed_index(n)] == n);
            } else {
                assert(names.texts@[n->Other_0 as int]@ == text);
            }
        },
    }
}

proof fn lemma_first_fixed(text: Seq<char>, i: nat)
    ensures
        match first_fixed(text, fixed_names(), i) {
            Some(n) => is_fixed(n) && fixed_text(n) == text,
            None => forall|k: int|
                i <= k < fixed_names().len() ==> fixed_text(#[trigger] fixed_names()[k]) != text,
        },
    decreases fixed_names().len() - i,
{
    if i < fixed_names().len() {
        lemma_first_fixed(text, i + 1);
        assert(is_fixed(fixed_names()[i as int]));
    }
}

proof fn lemma_first_entry(text: Seq<char>, texts: Seq<String>, i: nat)
    ensures
        match first_entry(text, texts, i) {
            Some(n) => n is Other && n->Other_0 < texts.len() && texts[n->Other_0 as int]@ == text,
            None => forall|k: int|
                i <= k < texts.len() && k <= u32::MAX ==> (#[trigger] texts[k])@ != text,
        },
    decreases texts.len() - i,
{
    if i < texts.len() && i <= u32::MAX {
        lemma_first_entry(text, texts, i + 1);
    }
}

/// A name that one table finds by a text is found by it in every table that
/// keeps its names.
pub proof fn law_found_names_stay(before: Names, after: Names, text: Seq<char>)
    requires
        after.wf(),
        keeps_names(before, after),
        before.lookup(text) is Some,
    ensures
        after.lookup(text) == before.lookup(text),
{
    lemma_lookup_text(before, text);
    let n = before.lookup(text)->Some_0;
    assert(before.knows(n));
    lemma_lookup_known(after, n);
}

} // verus!
