//! Template rendering: substitutes `${name}` placeholders in a textual
//! spell template with bound values, in a single left-to-right pass.
//! Substituted values are never re-scanned, and placeholders without a
//! binding are left verbatim for later stages to flag.

use vstd::prelude::*;

verus! {

/// Variable bindings: an association list from placeholder name to
/// substitution value, with pairwise distinct names.
pub struct Bindings {
    entries: Vec<(String, String)>,
}

/// No two entries share a name.
pub open spec fn keys_unique(entries: Seq<(Seq<char>, Seq<char>)>) -> bool {
    forall|i: int, j: int|
        0 <= i < j < entries.len() ==> (#[trigger] entries[i]).0 != (#[trigger] entries[j]).0
}

/// Some entry carries the name `k`.
pub open spec fn has_name(entries: Seq<(Seq<char>, Seq<char>)>, k: Seq<char>) -> bool {
    exists|i: int| 0 <= i < entries.len() && (#[trigger] entries[i]).0 == k
}

/// The mapping an association list denotes; a later entry wins over an
/// earlier one with the same name.
pub open spec fn assoc_map(entries: Seq<(Seq<char>, Seq<char>)>) -> Map<Seq<char>, Seq<char>>
    decreases entries.len(),
{
    if entries.len() == 0 {
        Map::empty()
    } else {
        assoc_map(entries.drop_last()).insert(entries.last().0, entries.last().1)
    }
}

/// `assoc_map` holds exactly the listed names, and with unique names each
/// entry's value is the one mapped.
pub proof fn lemma_assoc_map_props(entries: Seq<(Seq<char>, Seq<char>)>)
    ensures
        forall|k: Seq<char>|
            #[trigger] assoc_map(entries).contains_key(k) <==> has_name(entries, k),
        keys_unique(entries) ==> forall|i: int|
            0 <= i < entries.len() ==> assoc_map(entries)[(#[trigger] entries[i]).0]
                == entries[i].1,
    decreases entries.len(),
{
    if entries.len() > 0 {
        let prefix = entries.drop_last();
        lemma_assoc_map_props(prefix);
        assert forall|k: Seq<char>|
            #[trigger] assoc_map(entries).contains_key(k) <==> has_name(entries, k) by {
            if assoc_map(entries).contains_key(k) {
                if k == entries.last().0 {
                    assert(entries[entries.len() - 1].0 == k);
                    assert(has_name(entries, k));
                } else {
                    assert(assoc_map(prefix).contains_key(k));
                    assert(has_name(prefix, k));
                    let i = choose|i: int| 0 <= i < prefix.len() && (#[trigger] prefix[i]).0 == k;
                    assert(prefix[i] == entries[i]);
                    assert(has_name(entries, k));
                }
            }
            if has_name(entries, k) {
                let i = choose|i: int| 0 <= i < entries.len() && (#[trigger] entries[i]).0 == k;
                if i < entries.len() - 1 {
                    assert(prefix[i] == entries[i]);
                    assert(has_name(prefix, k));
                    assert(assoc_map(prefix).contains_key(k));
                } else {
                    assert(k == entries.last().0);
                }
                assert(assoc_map(entries).contains_key(k));
            }
        }
        if keys_unique(entries) {
            assert(keys_unique(prefix));
            assert forall|i: int| 0 <= i < entries.len() implies assoc_map(entries)[(
            #[trigger] entries[i]).0] == entries[i].1 by {
                if i < entries.len() - 1 {
                    assert(prefix[i] == entries[i]);
                    assert(entries[i].0 != entries.last().0);
                }
            }
        }
    }
}

impl Bindings {
    /// The bindings as the sequence of (name, value) character sequences.
    pub closed spec fn entries_view(&self) -> Seq<(Seq<char>, Seq<char>)> {
        self.entries@.map_values(|p: (String, String)| (p.0@, p.1@))
    }

    /// Well-formed: names are pairwise distinct.
    pub open spec fn wf(&self) -> bool {
        keys_unique(self.entries_view())
    }

    /// The mapping the bindings denote.
    pub open spec fn map_view(&self) -> Map<Seq<char>, Seq<char>> {
        assoc_map(self.entries_view())
    }

    /// An empty set of bindings.
    pub fn new() -> (r: Bindings)
        ensures
            r.wf(),
            r.map_view() == Map::<Seq<char>, Seq<char>>::empty(),
    {
        Bindings { entries: Vec::new() }
    }

    /// Binds `name` to `value`, replacing any earlier value for `name`.
    pub fn insert(&mut self, name: String, value: String)
        requires
            old(self).wf(),
        ensures
            final(self).wf(),
            final(self).map_view() == old(self).map_view().insert(name@, value@),
    {
        let ghost orig = self.entries_view();
        let n = self.entries.len();
        let mut k: usize = 0;
        while k < n
            invariant
                self == old(self),
                self.wf(),
                n == self.entries.len(),
                k <= n,
                forall|k2: int| 0 <= k2 < k ==> (#[trigger] orig[k2]).0 != name@,
                orig == self.entries_view(),
            decreases n - k,
        {
            if self.entries[k].0 == name {
                self.entries.set(k, (name, value));
                proof {
                    assert(self.entries_view() =~= orig.update(k as int, (name@, value@)));
                    lemma_assoc_update(orig, k as int, (name@, value@));
                }
                return;
            }
            k += 1;
        }
        self.entries.push((name, value));
        proof {
            assert(self.entries_view() =~= orig.push((name@, value@)));
            assert(self.entries_view().drop_last() =~= orig);
            assert(keys_unique(self.entries_view()));
        }
    }

    /// Looks a name up, returning the bound value if there is one.
    pub fn lookup(&self, name: &str) -> (r: Option<&String>)
        requires
            self.wf(),
        ensures
            r is Some <==> self.map_view().contains_key(name@),
            r is Some ==> r->0@ == self.map_view()[name@],
    {
        proof {
            lemma_assoc_map_props(self.entries_view());
        }
        let name_owned: String = name.to_owned();
        let n = self.entries.len();
        let mut k: usize = 0;
        while k < n
            invariant
                self.wf(),
                name_owned@ == name@,
                n == self.entries.len(),
                k <= n,
                forall|k2: int| 0 <= k2 < k ==> (#[trigger] self.entries_view()[k2]).0 != name@,
                forall|k2: Seq<char>|
                    #[trigger] self.map_view().contains_key(k2) <==> has_name(
                        self.entries_view(),
                        k2,
                    ),
                forall|i: int|
                    0 <= i < self.entries_view().len() ==> self.map_view()[(
                    #[trigger] self.entries_view()[i]).0] == self.entries_view()[i].1,
            decreases n - k,
        {
            if self.entries[k].0 == name_owned {
                assert(self.entries_view()[k as int].0 == name@);
                return Some(&self.entries[k].1);
            }
            k += 1;
        }
        assert(!has_name(self.entries_view(), name@));
        None
    }
}

/// The position of the first `'}'` in `t` at or after `k`, or `t.len()`
/// if there is none.
pub open spec fn close_from(t: Seq<char>, k: int) -> int
    decreases t.len() - k,
{
    if k < 0 || k >= t.len() {
        t.len() as int
    } else if t[k] == '}' {
        k
    } else {
        close_from(t, k + 1)
    }
}

pub proof fn lemma_close_from_bounds(t: Seq<char>, k: int)
    requires
        0 <= k <= t.len(),
    ensures
        k <= close_from(t, k) <= t.len(),
        close_from(t, k) < t.len() ==> t[close_from(t, k)] == '}',
    decreases t.len() - k,
{
    if k < t.len() && t[k] != '}' {
        lemma_close_from_bounds(t, k + 1);
    }
}

/// Whether position `i` of `t` starts a placeholder `${name}` whose name
/// is bound in `b`.
pub open spec fn token_at(t: Seq<char>, i: int, b: Map<Seq<char>, Seq<char>>) -> bool {
    &&& i + 1 < t.len()
    &&& t[i] == '$'
    &&& t[i + 1] == '{'
    &&& close_from(t, i + 2) < t.len()
    &&& b.contains_key(t.subrange(i + 2, close_from(t, i + 2)))
}

/// The rendering of the suffix of `t` that starts at `i`: a bound
/// placeholder becomes its value and is skipped whole; any other
/// character, including one of an unbound or unclosed placeholder,
/// passes through verbatim.
pub open spec fn render_from(t: Seq<char>, i: int, b: Map<Seq<char>, Seq<char>>) -> Seq<char>
    decreases t.len() - i,
    via render_from_decreases
{
    if i < 0 || i >= t.len() {
        Seq::empty()
    } else if token_at(t, i, b) {
        b[t.subrange(i + 2, close_from(t, i + 2))] + render_from(t, close_from(t, i + 2) + 1, b)
    } else {
        t.subrange(i, i + 1) + render_from(t, i + 1, b)
    }
}

#[via_fn]
proof fn render_from_decreases(t: Seq<char>, i: int, b: Map<Seq<char>, Seq<char>>) {
    if 0 <= i && i + 2 <= t.len() {
        lemma_close_from_bounds(t, i + 2);
    }
}

/// The rendering of a whole template.
pub open spec fn render_spec(t: Seq<char>, b: Map<Seq<char>, Seq<char>>) -> Seq<char> {
    render_from(t, 0, b)
}

/// Renders `template` by substituting every bound placeholder `${name}`
/// with its value, in one pass; an unbound or unclosed placeholder is
/// kept verbatim, and substituted values are not scanned again.
pub fn render(template: &str, bindings: &Bindings) -> (r: String)
    requires
        bindings.wf(),
    ensures
        r@ == render_spec(template@, bindings.map_view()),
{
    let ghost t = template@;
    let ghost b = bindings.map_view();
    let n = template.unicode_len();
    let mut out = String::new();
    let mut i: usize = 0;
    while i < n
        invariant
            bindings.wf(),
            b == bindings.map_view(),
            t == template@,
            n == t.len(),
            i <= n,
            render_spec(t, b) == out@ + render_from(t, i as int, b),
        decreases n - i,
    {
        let ghost out0 = out@;
        let c = template.get_char(i);
        let mut substituted = false;
        if c == '$' && i + 1 < n && template.get_char(i + 1) == '{' {
            let mut j = i + 2;
            while j < n && template.get_char(j) != '}'
                invariant
                    t == template@,
                    n == t.len(),
                    i + 2 <= j <= n,
                    close_from(t, i + 2) == close_from(t, j as int),
                decreases n - j,
            {
                j += 1;
            }
            proof {
                lemma_close_from_bounds(t, j as int);
            }
            if j < n {
                assert(close_from(t, i + 2) == j);
                let name = template.substring_char(i + 2, j);
                match bindings.lookup(name) {
                    Some(value) => {
                        assert(token_at(t, i as int, b));
                        out.append(value.as_str());
                        proof {
                            assert(render_from(t, i as int, b) == b[t.subrange(
                                i + 2,
                                j as int,
                            )] + render_from(t, j + 1, b));
                            assert(out@ + render_from(t, j + 1, b) =~= out0 + render_from(
                                t,
                                i as int,
                                b,
                            ));
                        }
                        i = j + 1;
                        substituted = true;
                    },
                    None => {
                        assert(!token_at(t, i as int, b));
                    },
                }
            } else {
                assert(close_from(t, i + 2) == n);
                assert(!token_at(t, i as int, b));
            }
        } else {
            assert(!token_at(t, i as int, b)) by {
                if i + 1 < t.len() {
                    assert(t[i as int] == c);
                }
            }
        }
        if !substituted {
            assert(!token_at(t, i as int, b));
            let piece = template.substring_char(i, i + 1);
            out.append(piece);
            proof {
                assert(render_from(t, i as int, b) == t.subrange(i as int, i + 1) + render_from(
                    t,
                    i + 1,
                    b,
                ));
                assert(out@ + render_from(t, i + 1, b) =~= out0 + render_from(t, i as int, b));
            }
            i += 1;
        }
    }
    out
}

/// Whether `s` still holds a `"${"` placeholder marker.
pub open spec fn has_marker(s: Seq<char>) -> bool {
    exists|i: int| #![trigger s[i]] 0 <= i && i + 1 < s.len() && s[i] == '$' && s[i + 1] == '{'
}

/// A substitution value that cannot form a new placeholder: nonempty and
/// free of `'$'` and `'{'`.
pub open spec fn value_clean(v: Seq<char>) -> bool {
    &&& v.len() > 0
    &&& forall|i: int| 0 <= i < v.len() ==> v[i] != '$' && v[i] != '{'
}

/// Every bound value is clean.
pub open spec fn bindings_clean(b: Map<Seq<char>, Seq<char>>) -> bool {
    forall|k: Seq<char>| #[trigger] b.contains_key(k) ==> value_clean(b[k])
}

/// Every `"${"` marker in `t` starts a closed placeholder whose name is
/// bound in `b`.
pub open spec fn tokens_all_bound(t: Seq<char>, b: Map<Seq<char>, Seq<char>>) -> bool {
    forall|i: int|
        0 <= i && i + 1 < t.len() && (#[trigger] t[i]) == '$' && t[i + 1] == '{' ==> token_at(
            t,
            i,
            b,
        )
}

/// Concatenation introduces no marker when neither part holds one and none
/// arises at the seam.
proof fn lemma_marker_concat(a: Seq<char>, bs: Seq<char>)
    requires
        !has_marker(a),
        !has_marker(bs),
        !(a.len() > 0 && bs.len() > 0 && a[a.len() - 1] == '$' && bs[0] == '{'),
    ensures
        !has_marker(a + bs),
{
    let c = a + bs;
    assert(!has_marker(c)) by {
        if has_marker(c) {
            let i = choose|i: int| #![trigger c[i]] 0 <= i && i + 1 < c.len() && c[i] == '$' && c[i + 1] == '{';
            if i + 1 < a.len() {
                assert(c[i] == a[i] && c[i + 1] == a[i + 1]);
                assert(has_marker(a));
            } else if i >= a.len() {
                assert(c[i] == bs[i - a.len()] && c[i + 1] == bs[i + 1 - a.len()]);
                assert(has_marker(bs));
            } else {
                assert(i + 1 == a.len());
                assert(c[i] == a[a.len() - 1] && c[i + 1] == bs[0]);
            }
        }
    }
}

/// A clean value holds no marker and cannot open one at a seam.
proof fn lemma_clean_no_marker(v: Seq<char>)
    requires
        value_clean(v),
    ensures
        !has_marker(v),
{
    assert(!has_marker(v)) by {
        if has_marker(v) {
            let i = choose|i: int| #![trigger v[i]] 0 <= i && i + 1 < v.len() && v[i] == '$' && v[i + 1] == '{';
            assert(v[i] != '$');
        }
    }
}

/// Rendering from `i` leaves no marker, and its first character is `'{'`
/// only when it came verbatim from `t[i]`.
proof fn lemma_render_from_no_marker(t: Seq<char>, i: int, b: Map<Seq<char>, Seq<char>>)
    requires
        0 <= i,
        tokens_all_bound(t, b),
        bindings_clean(b),
    ensures
        !has_marker(render_from(t, i, b)),
        render_from(t, i, b).len() > 0 ==> (render_from(t, i, b)[0] != '{' || (i < t.len()
            && t[i] == '{')),
    decreases t.len() - i,
{
    let r = render_from(t, i, b);
    if i >= t.len() {
    } else if token_at(t, i, b) {
        let j = close_from(t, i + 2);
        lemma_close_from_bounds(t, i + 2);
        let name = t.subrange(i + 2, j);
        let v = b[name];
        let rest = render_from(t, j + 1, b);
        lemma_render_from_no_marker(t, j + 1, b);
        lemma_clean_no_marker(v);
        assert(v[v.len() - 1] != '$');
        lemma_marker_concat(v, rest);
        assert(r[0] == v[0]);
        assert(v[0] != '{');
    } else {
        let a = t.subrange(i, i + 1);
        let rest = render_from(t, i + 1, b);
        lemma_render_from_no_marker(t, i + 1, b);
        assert(!has_marker(a)) by {
            if has_marker(a) {
                let k = choose|k: int| #![trigger a[k]] 0 <= k && k + 1 < a.len() && a[k] == '$' && a[k + 1] == '{';
                assert(false);
            }
        }
        if t[i] == '$' && rest.len() > 0 && rest[0] == '{' {
            // `rest` can only start with a verbatim '{', which would have
            // made `t[i]` start a bound placeholder.
            assert(i + 1 < t.len() && t[i + 1] == '{');
            assert(token_at(t, i, b));
            assert(false);
        }
        lemma_marker_concat(a, rest);
        assert(r[0] == a[0]);
        assert(a[0] == t[i]);
    }
}

/// Law: when every `"${"` marker in the template starts a closed
/// placeholder bound in `b`, and every bound value is nonempty and free of
/// `'$'` and `'{'`, the rendered output holds no `"${"` marker.
pub proof fn lemma_render_leaves_no_markers(t: Seq<char>, b: Map<Seq<char>, Seq<char>>)
    requires
        tokens_all_bound(t, b),
        bindings_clean(b),
    ensures
        !has_marker(render_spec(t, b)),
{
    lemma_render_from_no_marker(t, 0, b);
}

/// Association lists with the same entries, in any order, denote the same
/// mapping.
proof fn lemma_same_entries_same_map(
    e1: Seq<(Seq<char>, Seq<char>)>,
    e2: Seq<(Seq<char>, Seq<char>)>,
)
    requires
        keys_unique(e1),
        keys_unique(e2),
        e1.to_multiset() == e2.to_multiset(),
    ensures
        assoc_map(e1) == assoc_map(e2),
{
    lemma_assoc_map_props(e1);
    lemma_assoc_map_props(e2);
    e1.to_multiset_ensures();
    e2.to_multiset_ensures();
    assert forall|k: Seq<char>| #[trigger] has_name(e1, k) implies has_name(e2, k)
        && assoc_map(e1)[k] == assoc_map(e2)[k] by {
        let i = choose|i: int| 0 <= i < e1.len() && (#[trigger] e1[i]).0 == k;
        let p = e1[i];
        assert(e1.contains(p));
        assert(e1.to_multiset().count(p) > 0);
        assert(e2.contains(p));
        let j = choose|j: int| 0 <= j < e2.len() && e2[j] == p;
        assert(e2[j].0 == k);
        assert(has_name(e2, k));
        assert(assoc_map(e1)[k] == e1[i].1);
        assert(assoc_map(e2)[k] == e2[j].1);
    }
    assert forall|k: Seq<char>| #[trigger] has_name(e2, k) implies has_name(e1, k) by {
        let i = choose|i: int| 0 <= i < e2.len() && (#[trigger] e2[i]).0 == k;
        let p = e2[i];
        assert(e2.contains(p));
        assert(e2.to_multiset().count(p) > 0);
        assert(e1.contains(p));
        let j = choose|j: int| 0 <= j < e1.len() && e1[j] == p;
        assert(e1[j].0 == k);
    }
    assert(assoc_map(e1) =~= assoc_map(e2));
}

/// Law: rendering does not depend on the order in which bindings were
/// given; two well-formed binding lists holding the same (name, value)
/// pairs render every template identically.
pub proof fn lemma_render_order_independent(t: Seq<char>, b1: Bindings, b2: Bindings)
    requires
        b1.wf(),
        b2.wf(),
        b1.entries_view().to_multiset() == b2.entries_view().to_multiset(),
    ensures
        render_spec(t, b1.map_view()) == render_spec(t, b2.map_view()),
{
    lemma_same_entries_same_map(b1.entries_view(), b2.entries_view());
}

/// Updating an entry in place, keeping its name, denotes an insert.
proof fn lemma_assoc_update(
    entries: Seq<(Seq<char>, Seq<char>)>,
    k: int,
    p: (Seq<char>, Seq<char>),
)
    requires
        keys_unique(entries),
        0 <= k < entries.len(),
        entries[k].0 == p.0,
    ensures
        keys_unique(entries.update(k, p)),
        assoc_map(entries.update(k, p)) == assoc_map(entries).insert(p.0, p.1),
    decreases entries.len(),
{
    let updated = entries.update(k, p);
    assert forall|i: int, j: int|
        0 <= i < j < updated.len() implies (#[trigger] updated[i]).0 != (
    #[trigger] updated[j]).0 by {
        assert(entries[i].0 != entries[j].0);
    }
    if k == entries.len() - 1 {
        assert(updated.drop_last() =~= entries.drop_last());
        assert(assoc_map(updated) =~= assoc_map(entries).insert(p.0, p.1));
    } else {
        assert(updated.drop_last() =~= entries.drop_last().update(k, p));
        assert(keys_unique(entries.drop_last()));
        lemma_assoc_update(entries.drop_last(), k, p);
        assert(entries[k].0 != entries.last().0);
        assert(updated.last() == entries.last());
        assert(assoc_map(updated) =~= assoc_map(entries).insert(p.0, p.1));
    }
}

} // verus!

