//! Dotted names as text.
use vstd::prelude::*;
use vstd::string::StrSliceExecFns;
use vstd::string::StringExecFns;

verus! {

/// Whether a character separates the segments of a class name.
pub open spec fn is_separator(c: char) -> bool {
    c == '.' || c == '$'
}

/// The position behind the last separator.
pub open spec fn simple_start(s: Seq<char>) -> int
    decreases s.len(),
{
    if s.len() == 0 {
        0
    } else if is_separator(s.last()) {
        s.len() as int
    } else {
        simple_start(s.drop_last())
    }
}

/// The last segment of a class name, whether the segments are separated by
/// dots or by dollar signs.
pub open spec fn simple_text(s: Seq<char>) -> Seq<char> {
    s.subrange(simple_start(s), s.len() as int)
}

/// The position of the last dot, or -1.
pub open spec fn last_dot(s: Seq<char>) -> int
    decreases s.len(),
{
    if s.len() == 0 {
        -1
    } else if s.last() == '.' {
        s.len() - 1
    } else {
        last_dot(s.drop_last())
    }
}

/// The position of the first dot at or behind `from`, or the length.
pub open spec fn next_dot(s: Seq<char>, from: int) -> int
    decreases s.len() - from,
{
    if from >= s.len() {
        s.len() as int
    } else if s[from] == '.' {
        from
    } else {
        next_dot(s, from + 1)
    }
}

pub proof fn lemma_simple_start(s: Seq<char>)
    ensures
        0 <= simple_start(s) <= s.len(),
    decreases s.len(),
{
    if s.len() > 0 {
        lemma_simple_start(s.drop_last());
    }
}

pub proof fn lemma_last_dot(s: Seq<char>)
    ensures
        -1 <= last_dot(s) < s.len(),
        last_dot(s) >= 0 ==> s[last_dot(s)] == '.',
        forall|i: int| 0 <= i < s.len() && #[trigger] s[i] == '.' ==> i <= last_dot(s),
    decreases s.len(),
{
    if s.len() > 0 {
        lemma_last_dot(s.drop_last());
        assert forall|i: int| 0 <= i < s.len() && #[trigger] s[i] == '.' implies i <= last_dot(
            s,
        ) by {
            if i < s.len() - 1 {
                assert(s[i] == s.drop_last()[i]);
            }
        }
    }
}

pub proof fn lemma_next_dot(s: Seq<char>, from: int)
    requires
        0 <= from <= s.len(),
    ensures
        from <= next_dot(s, from) <= s.len(),
    decreases s.len() - from,
{
    if from < s.len() && s[from] != '.' {
        lemma_next_dot(s, from + 1);
    }
}

/// The simple name has no dot, and begins behind the last one.
pub proof fn lemma_simple_behind_dot(s: Seq<char>)
    ensures
        last_dot(s) < simple_start(s),
        forall|i: int| simple_start(s) <= i < s.len() ==> !is_separator(#[trigger] s[i]),
    decreases s.len(),
{
    lemma_last_dot(s);
    if s.len() > 0 {
        lemma_simple_start(s.drop_last());
        lemma_simple_behind_dot(s.drop_last());
        assert forall|i: int| simple_start(s) <= i < s.len() implies !is_separator(
            #[trigger] s[i],
        ) by {
            if i < s.len() - 1 {
                assert(s[i] == s.drop_last()[i]);
            }
        }
    }
}

/// The simple name begins at the start or behind a separator, and there is only
/// one such place with no separator behind it.
pub proof fn lemma_simple_start_is(s: Seq<char>, p: int)
    requires
        0 <= p <= s.len(),
        p == 0 || is_separator(s[p - 1]),
        forall|i: int| p <= i < s.len() ==> !is_separator(#[trigger] s[i]),
    ensures
        simple_start(s) == p,
    decreases s.len(),
{
    if p < s.len() {
        assert(!is_separator(s[s.len() - 1]));
        assert forall|i: int| p <= i < s.drop_last().len() implies !is_separator(
            #[trigger] s.drop_last()[i],
        ) by {
            assert(s[i] == s.drop_last()[i]);
        }
        lemma_simple_start_is(s.drop_last(), p);
    }
}

proof fn lemma_separator_before(s: Seq<char>)
    ensures
        simple_start(s) > 0 ==> is_separator(s[simple_start(s) - 1]),
    decreases s.len(),
{
    if s.len() > 0 {
        lemma_simple_start(s.drop_last());
        lemma_separator_before(s.drop_last());
    }
}

/// What follows the last dot of a name.
pub open spec fn behind_dot(s: Seq<char>) -> Seq<char> {
    s.subrange(last_dot(s) + 1, s.len() as int)
}

/// The shorter names of a name are their own: what follows the last dot or
/// dollar sign has no shorter name, and what follows the last dot has the same
/// simple name.
pub proof fn law_short_texts(s: Seq<char>)
    ensures
        simple_text(simple_text(s)) == simple_text(s),
        behind_dot(simple_text(s)) == simple_text(s),
        behind_dot(behind_dot(s)) == behind_dot(s),
        simple_text(behind_dot(s)) == simple_text(s),
{
    let (p, d) = (simple_start(s), last_dot(s));
    let (simple, behind) = (simple_text(s), behind_dot(s));
    lemma_simple_start(s);
    lemma_last_dot(s);
    lemma_simple_behind_dot(s);
    lemma_separator_before(s);
    assert forall|i: int| 0 <= i < simple.len() implies !is_separator(#[trigger] simple[i]) by {
        assert(simple[i] == s[p + i]);
    }
    lemma_simple_start_is(simple, 0);
    lemma_last_dot(simple);
    assert(last_dot(simple) == -1);
    lemma_last_dot(behind);
    assert forall|i: int| 0 <= i < behind.len() implies #[trigger] behind[i] != '.' by {
        assert(behind[i] == s[d + 1 + i]);
    }
    assert(last_dot(behind) == -1);
    let q = p - (d + 1);
    assert forall|i: int| q <= i < behind.len() implies !is_separator(#[trigger] behind[i]) by {
        assert(behind[i] == s[d + 1 + i]);
    }
    if q > 0 {
        assert(behind[q - 1] == s[p - 1]);
    }
    lemma_simple_start_is(behind, q);
    assert(simple.subrange(0, simple.len() as int) =~= simple);
    assert(behind.subrange(0, behind.len() as int) =~= behind);
    assert(simple_text(behind) =~= simple);
}

/// What follows the last dot of a name.
pub fn behind_last_dot(s: &str) -> (r: &str)
    ensures
        r@ == behind_dot(s@),
{
    match rsplit_once_dot(s) {
        Some((_, rest)) => rest,
        None => {
            assert(s@ == behind_dot(s@));
            s
        },
    }
}

/// The position behind the last separator.
fn find_simple_start(s: &str) -> (r: usize)
    ensures
        r == simple_start(s@),
        r <= s@.len(),
{
    let n: usize = s.unicode_len();
    let mut i: usize = n;
    assert(s@.take(n as int) =~= s@);
    while i > 0
        invariant
            i <= n,
            n == s@.len(),
            simple_start(s@.take(i as int)) == simple_start(s@),
        decreases i,
    {
        let c: char = s.get_char(i - 1);
        assert(s@.take(i as int).last() == c);
        assert(s@.take(i as int).drop_last() =~= s@.take(i - 1));
        if c == '.' || c == '$' {
            return i;
        }
        i = i - 1;
    }
    assert(s@.take(0) =~= Seq::<char>::empty());
    0
}

/// The last segment of a class name.
pub fn simple_name(s: &str) -> (r: &str)
    ensures
        r@ == simple_text(s@),
{
    let from: usize = find_simple_start(s);
    let to: usize = s.unicode_len();
    s.substring_char(from, to)
}

/// The position of the last dot.
pub fn rfind_dot(s: &str) -> (r: Option<usize>)
    ensures
        match r {
            Some(i) => i == last_dot(s@) && i < s@.len(),
            None => last_dot(s@) == -1,
        },
{
    let n: usize = s.unicode_len();
    let mut i: usize = n;
    assert(s@.take(n as int) =~= s@);
    while i > 0
        invariant
            i <= n,
            n == s@.len(),
            last_dot(s@.take(i as int)) == last_dot(s@),
        decreases i,
    {
        let c: char = s.get_char(i - 1);
        assert(s@.take(i as int).last() == c);
        assert(s@.take(i as int).drop_last() =~= s@.take(i - 1));
        if c == '.' {
            return Some(i - 1);
        }
        i = i - 1;
    }
    assert(s@.take(0) =~= Seq::<char>::empty());
    None
}

/// The text before the last dot and the text behind it.
pub fn rsplit_once_dot(s: &str) -> (r: Option<(&str, &str)>)
    ensures
        match r {
            Some((a, b)) => last_dot(s@) >= 0 && a@ == s@.subrange(0, last_dot(s@)) && b@
                == s@.subrange(last_dot(s@) + 1, s@.len() as int),
            None => last_dot(s@) == -1,
        },
{
    match rfind_dot(s) {
        None => None,
        Some(i) => {
            let n: usize = s.unicode_len();
            Some((s.substring_char(0, i), s.substring_char(i + 1, n)))
        },
    }
}

fn find_next_dot(s: &str, from: usize) -> (r: usize)
    requires
        from <= s@.len(),
    ensures
        r == next_dot(s@, from as int),
        from <= r <= s@.len(),
{
    let n: usize = s.unicode_len();
    let mut i: usize = from;
    while i < n
        invariant
            from <= i <= n,
            n == s@.len(),
            next_dot(s@, i as int) == next_dot(s@, from as int),
        decreases n - i,
    {
        if s.get_char(i) == '.' {
            return i;
        }
        i = i + 1;
    }
    n
}

/// The texts between the dots, from the position `from` on.
pub open spec fn segments(s: Seq<char>, from: int) -> Seq<Seq<char>>
    decreases s.len() - from,
{
    let dot = next_dot(s, from);
    if from < 0 || dot < from || dot >= s.len() {
        seq![s.subrange(from, s.len() as int)]
    } else {
        seq![s.subrange(from, dot)] + segments(s, dot + 1)
    }
}

/// The texts of strings.
pub open spec fn texts_of(l: Seq<String>) -> Seq<Seq<char>> {
    Seq::new(l.len(), |i: int| l[i]@)
}

/// The texts between the dots.
pub fn split_dots(s: &str) -> (r: Vec<String>)
    ensures
        texts_of(r@) == segments(s@, 0),
{
    let n: usize = s.unicode_len();
    let mut out: Vec<String> = Vec::new();
    let mut from: usize = 0;
    assert(texts_of(out@) =~= Seq::<Seq<char>>::empty());
    assert(Seq::<Seq<char>>::empty() + segments(s@, 0) =~= segments(s@, 0));
    loop
        invariant_except_break
            from <= n,
            n == s@.len(),
            texts_of(out@) + segments(s@, from as int) == segments(s@, 0),
        ensures
            texts_of(out@) == segments(s@, 0),
        decreases n - from,
    {
        let ghost before = out@;
        let dot: usize = find_next_dot(s, from);
        if dot >= n {
            out.push(s.substring_char(from, n).to_owned());
            proof {
                assert(texts_of(out@) =~= texts_of(before) + seq![
                    s@.subrange(from as int, n as int),
                ]);
            }
            break;
        }
        out.push(s.substring_char(from, dot).to_owned());
        proof {
            assert(texts_of(out@) =~= texts_of(before) + seq![s@.subrange(from as int, dot as int)]);
            assert(texts_of(out@) + segments(s@, dot + 1) =~= texts_of(before) + segments(
                s@,
                from as int,
            ));
        }
        from = dot + 1;
    }
    out
}

/// Whether `s` begins with `prefix`.
pub open spec fn begins(s: Seq<char>, prefix: Seq<char>) -> bool {
    prefix.len() <= s.len() && s.subrange(0, prefix.len() as int) == prefix
}

pub fn starts_with(s: &str, prefix: &str) -> (r: bool)
    ensures
        r == begins(s@, prefix@),
{
    let n: usize = s.unicode_len();
    let m: usize = prefix.unicode_len();
    if m > n {
        return false;
    }
    let mut i: usize = 0;
    while i < m
        invariant
            i <= m <= n,
            n == s@.len(),
            m == prefix@.len(),
            forall|k: int| 0 <= k < i ==> s@[k] == prefix@[k],
        decreases m - i,
    {
        if s.get_char(i) != prefix.get_char(i) {
            assert(s@.subrange(0, m as int)[i as int] != prefix@[i as int]);
            return false;
        }
        i = i + 1;
    }
    assert(s@.subrange(0, m as int) =~= prefix@);
    true
}

/// A package name with the dot behind it; nothing for the unnamed package.
pub open spec fn package_prefix(package: Seq<char>) -> Seq<char> {
    if package.len() == 0 {
        package
    } else {
        package + "."@
    }
}

pub fn prefix_of_package(package: &str) -> (r: String)
    ensures
        r@ == package_prefix(package@),
{
    if package.is_empty() {
        package.to_owned()
    } else {
        package.to_owned().concat(".")
    }
}

/// The name of the top-level class a canonical class name belongs to: the
/// package and the first segment behind it.
pub open spec fn top_level_text(package: Seq<char>, fqn: Seq<char>) -> Seq<char> {
    let prefix = package_prefix(package);
    if begins(fqn, prefix) {
        fqn.subrange(0, next_dot(fqn, prefix.len() as int))
    } else {
        fqn.subrange(0, next_dot(fqn, 0))
    }
}

/// The name of the top-level class a canonical class name belongs to.
pub fn source_top_level(package: &str, fqn: &str) -> (r: String)
    ensures
        r@ == top_level_text(package@, fqn@),
{
    let prefix = prefix_of_package(package);
    let from: usize = if starts_with(fqn, prefix.as_str()) {
        prefix.as_str().unicode_len()
    } else {
        0
    };
    let to: usize = find_next_dot(fqn, from);
    fqn.substring_char(0, to).to_owned()
}

/// Whether a class is a top-level class or lies inside it.
pub open spec fn inside(enclosing: Seq<char>, declaring: Seq<char>) -> bool {
    enclosing == declaring || begins(enclosing, declaring + "."@)
}

/// Whether the class `enclosing` is the top-level class `declaring` or
/// lexically inside it.
pub fn within_top_level(enclosing: &str, declaring: &str) -> (r: bool)
    ensures
        r == inside(enclosing@, declaring@),
{
    let prefix = declaring.to_owned().concat(".");
    crate::names::same_text(enclosing, declaring) || starts_with(enclosing, prefix.as_str())
}

/// A class lies inside its own top-level class, and inside a class means
/// inside every class around that one.
pub proof fn law_inside_transitive(a: Seq<char>, b: Seq<char>, c: Seq<char>)
    ensures
        inside(a, a),
        inside(a, b) && inside(b, c) ==> inside(a, c),
{
    if inside(a, b) && inside(b, c) && a != b && b != c {
        let dot = "."@;
        assert(a.subrange(0, (b + dot).len() as int) == b + dot);
        assert(b.subrange(0, (c + dot).len() as int) == c + dot);
        assert(a.subrange(0, (c + dot).len() as int) =~= (b + dot).subrange(
            0,
            (c + dot).len() as int,
        ));
        assert((b + dot).subrange(0, (c + dot).len() as int) =~= b.subrange(
            0,
            (c + dot).len() as int,
        ));
    }
}

} // verus!
