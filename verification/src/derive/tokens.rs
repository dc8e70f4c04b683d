//! Assembling generated code as text: joining lists, comparing
//! identifiers, rendering paths, and the names derived from a service's
//! name.

use vstd::prelude::*;
use super::model::{Path, PathSegment};

verus! {

/// The texts of a sequence of strings.
pub open spec fn texts(v: Seq<String>) -> Seq<Seq<char>> {
    v.map_values(|s: String| s@)
}

/// `parts` joined with `sep` between consecutive parts.
pub open spec fn join(parts: Seq<Seq<char>>, sep: Seq<char>) -> Seq<char>
    decreases parts.len(),
{
    if parts.len() == 0 {
        Seq::empty()
    } else if parts.len() == 1 {
        parts[0]
    } else {
        join(parts.drop_last(), sep) + sep + parts.last()
    }
}

/// Whether `t` occurs in `s` as a contiguous piece.
pub open spec fn contains_text(s: Seq<char>, t: Seq<char>) -> bool {
    exists|i: int| 0 <= i && i + t.len() <= s.len() && #[trigger] s.subrange(i, i + t.len()) == t
}

/// `a + t + b` contains `t`.
pub proof fn lemma_contains_middle(a: Seq<char>, t: Seq<char>, b: Seq<char>)
    ensures
        contains_text(a + t + b, t),
{
    let s = a + t + b;
    assert(s.subrange(a.len() as int, (a.len() + t.len()) as int) =~= t);
}

/// A piece of `s` is a piece of `s + y`.
pub proof fn lemma_contains_extend(s: Seq<char>, t: Seq<char>, y: Seq<char>)
    requires
        contains_text(s, t),
    ensures
        contains_text(s + y, t),
{
    let i = choose|i: int| 0 <= i && i + t.len() <= s.len() && #[trigger] s.subrange(i, i + t.len()) == t;
    assert((s + y).subrange(i, i + t.len()) =~= s.subrange(i, i + t.len()));
}

/// A piece of a piece of `s` is a piece of `s`.
pub proof fn lemma_contains_trans(s: Seq<char>, t: Seq<char>, u: Seq<char>)
    requires
        contains_text(s, t),
        contains_text(t, u),
    ensures
        contains_text(s, u),
{
    let i = choose|i: int| 0 <= i && i + t.len() <= s.len() && #[trigger] s.subrange(i, i + t.len()) == t;
    let j = choose|j: int| 0 <= j && j + u.len() <= t.len() && #[trigger] t.subrange(j, j + u.len()) == u;
    assert(s.subrange(i + j, i + j + u.len()) =~= t.subrange(j, j + u.len()));
}

/// Each part of a join is a piece of it.
pub proof fn lemma_join_contains(parts: Seq<Seq<char>>, sep: Seq<char>, i: int)
    requires
        0 <= i < parts.len(),
    ensures
        contains_text(join(parts, sep), parts[i]),
    decreases parts.len(),
{
    if parts.len() == 1 {
        assert(i == 0);
        assert(join(parts, sep).subrange(0, (0 + parts[0].len()) as int) =~= parts[0]);
    } else {
        let j = join(parts.drop_last(), sep);
        assert(join(parts, sep) == j + sep + parts.last());
        if i == parts.len() - 1 {
            lemma_contains_middle(j + sep, parts.last(), Seq::empty());
            assert(j + sep + parts.last() + Seq::<char>::empty() =~= j + sep + parts.last());
        } else {
            lemma_join_contains(parts.drop_last(), sep, i);
            assert(parts.drop_last()[i] == parts[i]);
            lemma_contains_extend(j, parts[i], sep + parts.last());
            assert(j + (sep + parts.last()) =~= j + sep + parts.last());
        }
    }
}

/// Joins `parts` with `sep` between consecutive parts.
pub fn join_strings(parts: &Vec<String>, sep: &str) -> (s: String)
    ensures
        s@ == join(texts(parts@), sep@),
{
    let mut s = String::new();
    let n = parts.len();
    let mut i: usize = 0;
    while i < n
        invariant
            n == parts@.len(),
            i <= n,
            s@ == join(texts(parts@.take(i as int)), sep@),
        decreases n - i,
    {
        if i > 0 {
            s.append(sep);
        }
        s.append(parts[i].as_str());
        proof {
            let t = texts(parts@.take(i as int + 1));
            assert(t.drop_last() =~= texts(parts@.take(i as int)));
            assert(t.last() == parts@[i as int]@);
            if i == 0 {
                assert(texts(parts@.take(0)) =~= Seq::<Seq<char>>::empty());
            }
        }
        i = i + 1;
    }
    assert(parts@.take(n as int) =~= parts@);
    s
}

/// Whether two texts are equal.
pub fn text_eq(a: &str, b: &str) -> (r: bool)
    ensures
        r == (a@ == b@),
{
    let a = String::from_str(a);
    let b = String::from_str(b);
    a == b
}

impl Path {
    /// Whether the path is the single identifier `name`: no leading `::`,
    /// one segment, no generic arguments.
    pub open spec fn spec_is_ident(&self, name: Seq<char>) -> bool {
        &&& !self.leading_colon
        &&& self.segments@.len() == 1
        &&& !self.segments@[0].has_arguments
        &&& self.segments@[0].ident@ == name
    }

    /// Whether the path is the single identifier `name`.
    pub fn is_ident(&self, name: &str) -> (r: bool)
        ensures
            r == self.spec_is_ident(name@),
    {
        if self.leading_colon || self.segments.len() != 1 || self.segments[0].has_arguments {
            false
        } else {
            text_eq(self.segments[0].ident.as_str(), name)
        }
    }
}

/// The identifiers of a path's segments.
pub open spec fn segment_idents(segments: Seq<PathSegment>) -> Seq<Seq<char>> {
    segments.map_values(|s: PathSegment| s.ident@)
}

/// A path's identifiers joined with `::`, without a leading `::` and
/// without generic arguments.
pub open spec fn spec_path_to_string(path: Path) -> Seq<char> {
    join(segment_idents(path.segments@), "::"@)
}

/// Renders a path as its identifiers joined with `::`.
pub fn path_to_string(path: &Path) -> (s: String)
    ensures
        s@ == spec_path_to_string(*path),
{
    let mut idents: Vec<String> = Vec::new();
    let n = path.segments.len();
    let mut i: usize = 0;
    while i < n
        invariant
            n == path.segments@.len(),
            i <= n,
            idents@.len() == i,
            texts(idents@) =~= segment_idents(path.segments@.take(i as int)),
        decreases n - i,
    {
        let ghost old_idents = idents@;
        let id = path.segments[i].ident.clone();
        idents.push(id);
        proof {
            assert(idents@ == old_idents.push(id));
            assert forall|k: int| 0 <= k < i + 1 implies texts(idents@)[k] == segment_idents(path.segments@.take(i as int + 1))[k] by {
                if k < i {
                    assert(texts(old_idents)[k] == segment_idents(path.segments@.take(i as int))[k]);
                }
            }
        }
        i = i + 1;
    }
    assert(path.segments@.take(n as int) =~= path.segments@);
    join_strings(&idents, "::")
}

/// An identifier as `format_ident!` interpolates it: without the `r#` of a
/// raw identifier.
pub open spec fn unraw(ident: Seq<char>) -> Seq<char> {
    if ident.len() >= 2 && ident[0] == 'r' && ident[1] == '#' {
        ident.skip(2)
    } else {
        ident
    }
}

/// `ident` without the `r#` of a raw identifier.
pub fn unraw_ident(ident: &str) -> (s: String)
    ensures
        s@ == unraw(ident@),
{
    let n = ident.unicode_len();
    if n >= 2 && ident.get_char(0) == 'r' && ident.get_char(1) == '#' {
        let rest = ident.substring_char(2, n);
        assert(rest@ =~= ident@.skip(2));
        String::from_str(rest)
    } else {
        String::from_str(ident)
    }
}

/// The name of the struct that implements a service: `{name}Impl`.
pub open spec fn impl_name(service: Seq<char>) -> Seq<char> {
    unraw(service) + "Impl"@
}

/// The name of a service's trait: `{name}Trait`.
pub open spec fn trait_name(service: Seq<char>) -> Seq<char> {
    unraw(service) + "Trait"@
}

/// The name of a service trait's mock: `Mock{name}Trait`.
pub open spec fn mock_name(service: Seq<char>) -> Seq<char> {
    "Mock"@ + trait_name(service)
}

/// `{name}Impl`, as `format_ident!("{}Impl", name)` forms it.
pub fn service_impl_name(service: &str) -> (s: String)
    ensures
        s@ == impl_name(service@),
{
    let s = unraw_ident(service);
    s.concat("Impl")
}

/// `{name}Trait`, as `format_ident!("{}Trait", name)` forms it.
pub fn service_trait_name(service: &str) -> (s: String)
    ensures
        s@ == trait_name(service@),
{
    let s = unraw_ident(service);
    s.concat("Trait")
}

/// `Mock{name}Trait`, as `format_ident!("Mock{}", trait_name)` forms it.
pub fn service_mock_name(service: &str) -> (s: String)
    ensures
        s@ == mock_name(service@),
{
    let t = service_trait_name(service);
    let m = String::from_str("Mock");
    m.concat(t.as_str())
}

/// Law: the generated names are the service's name, without the `r#` of a
/// raw identifier, followed by `Impl` and `Trait`, and `Mock` before the
/// trait's name; a name that is not raw is kept as written.
pub proof fn lemma_service_names(service: Seq<char>)
    ensures
        impl_name(service) == unraw(service) + "Impl"@,
        trait_name(service) == unraw(service) + "Trait"@,
        mock_name(service) == "Mock"@ + unraw(service) + "Trait"@,
        !(service.len() >= 2 && service[0] == 'r' && service[1] == '#') ==> unraw(service) == service,
        (service.len() >= 2 && service[0] == 'r' && service[1] == '#') ==> unraw(service) == service.skip(2),
{
    assert("Mock"@ + (unraw(service) + "Trait"@) =~= "Mock"@ + unraw(service) + "Trait"@);
}

/// Law: a service's implementation struct, its trait and the trait's mock
/// have three different names.
pub proof fn lemma_service_names_distinct(service: Seq<char>)
    ensures
        impl_name(service) != trait_name(service),
        impl_name(service) != mock_name(service),
        trait_name(service) != mock_name(service),
{
    reveal_strlit("Impl");
    reveal_strlit("Trait");
    reveal_strlit("Mock");
    assert(impl_name(service).len() + 1 == trait_name(service).len());
    assert(trait_name(service).len() + 4 == mock_name(service).len());
}

} // verus!
