//! Classification of PipeWire nodes as caption sources, and the order in
//! which discovered sources are offered.

use std::time::Duration;
use vstd::prelude::*;

use crate::audio::{descriptor_view, AudioSourceDescriptor, AudioSourceKind};
use crate::capture::error::PipeWireError;
use crate::duration::{duration_nanos, is_zero};
use crate::text::{chars_of, same_text};

verus! {

broadcast use vstd::string::group_string_axioms;

/// Discovery waits a bounded, non-zero time for the PipeWire server.
pub fn enumeration_timeout_check(timeout: Duration) -> (r: Result<(), PipeWireError>)
    ensures
        duration_nanos(timeout) == 0 ==> r == Err::<(), PipeWireError>(
            PipeWireError::InvalidConfiguration("enumeration timeout must be greater than zero"),
        ),
        duration_nanos(timeout) > 0 ==> r is Ok,
{
    if is_zero(timeout) {
        return Err(PipeWireError::InvalidConfiguration("enumeration timeout must be greater than zero"));
    }
    Ok(())
}

/// Source kind of a node's media class: microphones are `Audio/Source`
/// nodes, output sinks (captured through their monitor) are `Audio/Sink`;
/// every other class is not offered.
pub fn source_kind(media_class: &str) -> (r: Option<AudioSourceKind>)
    ensures
        media_class@ == "Audio/Source"@ ==> r == Some(AudioSourceKind::Microphone),
        media_class@ == "Audio/Sink"@ ==> r == Some(AudioSourceKind::SystemOutput),
        media_class@ != "Audio/Source"@ && media_class@ != "Audio/Sink"@ ==> r is None,
{
    proof {
        reveal_strlit("Audio/Source");
        reveal_strlit("Audio/Sink");
        assert("Audio/Source"@.len() != "Audio/Sink"@.len());
    }
    if same_text(media_class, "Audio/Source") {
        Some(AudioSourceKind::Microphone)
    } else if same_text(media_class, "Audio/Sink") {
        Some(AudioSourceKind::SystemOutput)
    } else {
        None
    }
}

/// The source a registry global offers: only nodes whose media class is a
/// source kind and that carry a node name, which becomes the identifier.
/// The display name is the node's description, else its nickname, else its
/// identifier.
pub fn source_from_global(
    is_node: bool,
    media_class: Option<&str>,
    node_name: Option<&str>,
    description: Option<&str>,
    nick: Option<&str>,
) -> (r: Option<AudioSourceDescriptor>)
    ensures
        r is Some <==> (is_node && (media_class matches Some(m) && (m@ == "Audio/Source"@ || m@
            == "Audio/Sink"@)) && node_name is Some),
        r matches Some(d) ==> {
            &&& d.id_view() == node_name.unwrap()@
            &&& d.name_view() == (match (description, nick) {
                (Some(text), _) => text@,
                (None, Some(text)) => text@,
                (None, None) => node_name.unwrap()@,
            })
            &&& (media_class.unwrap()@ == "Audio/Source"@ ==> d.kind_view()
                == AudioSourceKind::Microphone)
            &&& (media_class.unwrap()@ == "Audio/Sink"@ ==> d.kind_view()
                == AudioSourceKind::SystemOutput)
        },
{
    if !is_node {
        return None;
    }
    let media_class = match media_class {
        Some(m) => m,
        None => {
            return None;
        },
    };
    let kind = match source_kind(media_class) {
        Some(kind) => kind,
        None => {
            return None;
        },
    };
    let id = match node_name {
        Some(id) => id,
        None => {
            return None;
        },
    };
    let name = match description {
        Some(text) => text,
        None => match nick {
            Some(text) => text,
            None => id,
        },
    };
    Some(AudioSourceDescriptor::new(id, name, kind))
}

/// Whether `a` and `b` agree on their first `k` characters and `k` is where
/// `a` orders first: `a` ends there while `b` goes on, or its character
/// there is the smaller one.
pub open spec fn orders_first_at(a: Seq<char>, b: Seq<char>, k: int) -> bool {
    &&& 0 <= k <= a.len()
    &&& k <= b.len()
    &&& forall|i: int| 0 <= i < k ==> a[i] == b[i]
    &&& ((k == a.len() && k < b.len()) || (k < a.len() && k < b.len() && (a[k] as int) < (
    b[k] as int)))
}

/// Lexicographic order of texts by code point, which is the order of their
/// UTF-8 bytes (`str`'s `<`).
pub open spec fn text_less(a: Seq<char>, b: Seq<char>) -> bool {
    exists|k: int| orders_first_at(a, b, k)
}

pub proof fn lemma_text_less_irreflexive(a: Seq<char>)
    ensures
        !text_less(a, a),
{
}

pub proof fn lemma_text_less_transitive(a: Seq<char>, b: Seq<char>, c: Seq<char>)
    requires
        text_less(a, b),
        text_less(b, c),
    ensures
        text_less(a, c),
{
    let k1 = choose|k: int| orders_first_at(a, b, k);
    let k2 = choose|k: int| orders_first_at(b, c, k);
    if k1 < k2 {
        assert(orders_first_at(a, c, k1));
    } else if k2 < k1 {
        assert(orders_first_at(a, c, k2));
    } else {
        assert(orders_first_at(a, c, k1));
    }
}

/// Whether `a` orders before `b` (`str`'s `<`).
pub fn text_precedes(a: &str, b: &str) -> (r: bool)
    ensures
        r == text_less(a@, b@),
{
    let x = chars_of(a);
    let y = chars_of(b);
    let mut k: usize = 0;
    while k < x.len() && k < y.len() && x[k] == y[k]
        invariant
            x@ == a@,
            y@ == b@,
            k <= x@.len(),
            k <= y@.len(),
            forall|i: int| 0 <= i < k ==> x@[i] == y@[i],
        decreases x.len() - k,
    {
        k += 1;
    }
    let r = if k == x.len() {
        k < y.len()
    } else if k == y.len() {
        false
    } else {
        x[k] < y[k]
    };
    proof {
        if r {
            assert(orders_first_at(a@, b@, k as int));
        } else {
            assert forall|j: int| !orders_first_at(a@, b@, j) by {
                if j < k {
                } else if j > k {
                    if k < x@.len() && k < y@.len() {
                        assert(a@[k as int] != b@[k as int]);
                    }
                }
            }
        }
    }
    r
}

/// What a discovered source is sorted and told apart by: its view.
pub open spec fn source_views(s: Seq<AudioSourceDescriptor>) -> Seq<
    (Seq<char>, Seq<char>, AudioSourceKind),
> {
    s.map_values(|d: AudioSourceDescriptor| descriptor_view(d))
}

/// Sources are offered by display name, then by identifier.
pub open spec fn key_less(
    x: (Seq<char>, Seq<char>, AudioSourceKind),
    y: (Seq<char>, Seq<char>, AudioSourceKind),
) -> bool {
    text_less(x.1, y.1) || (x.1 == y.1 && text_less(x.0, y.0))
}

pub proof fn lemma_key_less_irreflexive(x: (Seq<char>, Seq<char>, AudioSourceKind))
    ensures
        !key_less(x, x),
{
    lemma_text_less_irreflexive(x.1);
    lemma_text_less_irreflexive(x.0);
}

pub proof fn lemma_key_less_transitive(
    x: (Seq<char>, Seq<char>, AudioSourceKind),
    y: (Seq<char>, Seq<char>, AudioSourceKind),
    z: (Seq<char>, Seq<char>, AudioSourceKind),
)
    requires
        key_less(x, y),
        key_less(y, z),
    ensures
        key_less(x, z),
{
    if text_less(x.1, y.1) && text_less(y.1, z.1) {
        lemma_text_less_transitive(x.1, y.1, z.1);
    } else if text_less(x.0, y.0) && text_less(y.0, z.0) {
        lemma_text_less_transitive(x.0, y.0, z.0);
    }
}

fn source_precedes(x: &AudioSourceDescriptor, y: &AudioSourceDescriptor) -> (r: bool)
    ensures
        r == key_less(descriptor_view(*x), descriptor_view(*y)),
{
    text_precedes(x.name(), y.name()) || (same_text(x.name(), y.name()) && text_precedes(
        x.id(),
        y.id(),
    ))
}

/// Whether `p` is where `x` goes in the ordered `s`: after every source it
/// does not order before, so that equal keys keep their arrival order.
pub open spec fn insertion_point(
    s: Seq<(Seq<char>, Seq<char>, AudioSourceKind)>,
    x: (Seq<char>, Seq<char>, AudioSourceKind),
    p: int,
) -> bool {
    &&& 0 <= p <= s.len()
    &&& forall|j: int| 0 <= j < p ==> !key_less(x, #[trigger] s[j])
    &&& (p == s.len() || key_less(x, s[p]))
}

pub proof fn lemma_insertion_point_unique(
    s: Seq<(Seq<char>, Seq<char>, AudioSourceKind)>,
    x: (Seq<char>, Seq<char>, AudioSourceKind),
    p: int,
    q: int,
)
    requires
        insertion_point(s, x, p),
        insertion_point(s, x, q),
    ensures
        p == q,
{
    if p < q {
        assert(!key_less(x, s[p]));
    } else if q < p {
        assert(!key_less(x, s[q]));
    }
}

/// `s` with `x` inserted at its insertion point.
pub open spec fn insert_in_order(
    s: Seq<(Seq<char>, Seq<char>, AudioSourceKind)>,
    x: (Seq<char>, Seq<char>, AudioSourceKind),
) -> Seq<(Seq<char>, Seq<char>, AudioSourceKind)> {
    s.insert(choose|p: int| insertion_point(s, x, p), x)
}

/// The sources ordered by display name, then identifier; sources with the
/// same name and identifier keep the order they were found in (a stable
/// sort).
pub open spec fn sort_by_name_then_id(s: Seq<(Seq<char>, Seq<char>, AudioSourceKind)>) -> Seq<
    (Seq<char>, Seq<char>, AudioSourceKind),
>
    decreases s.len(),
{
    if s.len() == 0 {
        s
    } else {
        insert_in_order(sort_by_name_then_id(s.drop_last()), s.last())
    }
}

/// Drops every source whose identifier equals that of the source kept just
/// before it (`dedup_by` on identifiers).
pub open spec fn dedup_adjacent_ids(s: Seq<(Seq<char>, Seq<char>, AudioSourceKind)>) -> Seq<
    (Seq<char>, Seq<char>, AudioSourceKind),
>
    decreases s.len(),
{
    if s.len() == 0 {
        s
    } else {
        let d = dedup_adjacent_ids(s.drop_last());
        if d.len() > 0 && d.last().0 == s.last().0 {
            d
        } else {
            d.push(s.last())
        }
    }
}

fn insertion_index(sorted: &Vec<AudioSourceDescriptor>, x: &AudioSourceDescriptor) -> (p: usize)
    ensures
        insertion_point(source_views(sorted@), descriptor_view(*x), p as int),
{
    let ghost s = source_views(sorted@);
    let mut p: usize = 0;
    while p < sorted.len() && !source_precedes(x, &sorted[p])
        invariant
            s == source_views(sorted@),
            p <= sorted@.len(),
            forall|j: int| 0 <= j < p ==> !key_less(descriptor_view(*x), #[trigger] s[j]),
        decreases sorted.len() - p,
    {
        p += 1;
    }
    p
}

/// Orders discovered sources by display name, then identifier, and drops a
/// source whose identifier equals that of the one kept just before it.
pub fn ordered_sources(found: Vec<AudioSourceDescriptor>) -> (r: Vec<AudioSourceDescriptor>)
    ensures
        source_views(r@) == dedup_adjacent_ids(sort_by_name_then_id(source_views(found@))),
{
    let ghost input = source_views(found@);
    let mut sorted: Vec<AudioSourceDescriptor> = Vec::new();
    let mut i: usize = 0;
    while i < found.len()
        invariant
            i <= found@.len(),
            input == source_views(found@),
            source_views(sorted@) == sort_by_name_then_id(input.take(i as int)),
        decreases found.len() - i,
    {
        let x = found[i].duplicate();
        let p = insertion_index(&sorted, &x);
        let ghost before = source_views(sorted@);
        proof {
            assert(input.take(i + 1).drop_last() =~= input.take(i as int));
            assert(input.take(i + 1).last() == descriptor_view(x));
            let q = choose|q: int| insertion_point(before, descriptor_view(x), q);
            lemma_insertion_point_unique(before, descriptor_view(x), p as int, q);
        }
        sorted.insert(p, x);
        assert(source_views(sorted@) =~= before.insert(p as int, descriptor_view(x)));
        i += 1;
    }
    assert(input.take(found@.len() as int) =~= input);
    let ghost ordered = source_views(sorted@);
    let mut kept: Vec<AudioSourceDescriptor> = Vec::new();
    let mut j: usize = 0;
    while j < sorted.len()
        invariant
            j <= sorted@.len(),
            ordered == source_views(sorted@),
            source_views(kept@) == dedup_adjacent_ids(ordered.take(j as int)),
        decreases sorted.len() - j,
    {
        proof {
            assert(ordered.take(j + 1).drop_last() =~= ordered.take(j as int));
        }
        let keep = kept.len() == 0 || !same_text(kept[kept.len() - 1].id(), sorted[j].id());
        if keep {
            let x = sorted[j].duplicate();
            kept.push(x);
        }
        assert(source_views(kept@) =~= dedup_adjacent_ids(ordered.take(j + 1)));
        j += 1;
    }
    assert(ordered.take(sorted@.len() as int) =~= ordered);
    kept
}

/// The sources offered for a discovery: ordered, then deduplicated.
pub open spec fn offered_sources(found: Seq<(Seq<char>, Seq<char>, AudioSourceKind)>) -> Seq<
    (Seq<char>, Seq<char>, AudioSourceKind),
> {
    dedup_adjacent_ids(sort_by_name_then_id(found))
}

/// No source orders before one that comes earlier.
pub open spec fn in_key_order(s: Seq<(Seq<char>, Seq<char>, AudioSourceKind)>) -> bool {
    forall|i: int, j: int| 0 <= i < j < s.len() ==> !key_less(#[trigger] s[j], #[trigger] s[i])
}

proof fn lemma_insertion_point_exists(
    s: Seq<(Seq<char>, Seq<char>, AudioSourceKind)>,
    x: (Seq<char>, Seq<char>, AudioSourceKind),
)
    ensures
        exists|p: int| insertion_point(s, x, p),
    decreases s.len(),
{
    if s.len() == 0 {
        assert(insertion_point(s, x, 0));
    } else {
        let t = s.drop_last();
        lemma_insertion_point_exists(t, x);
        let q = choose|q: int| insertion_point(t, x, q);
        assert forall|j: int| 0 <= j < q implies !key_less(x, #[trigger] s[j]) by {
            assert(s[j] == t[j]);
        }
        if q < t.len() {
            assert(s[q] == t[q]);
            assert(insertion_point(s, x, q));
        } else if key_less(x, s.last()) {
            assert(insertion_point(s, x, t.len() as int));
        } else {
            assert forall|j: int| 0 <= j < s.len() implies !key_less(x, #[trigger] s[j]) by {
                if j < t.len() {
                    assert(s[j] == t[j]);
                }
            }
            assert(insertion_point(s, x, s.len() as int));
        }
    }
}

proof fn lemma_insert_in_order_sorted(
    s: Seq<(Seq<char>, Seq<char>, AudioSourceKind)>,
    x: (Seq<char>, Seq<char>, AudioSourceKind),
)
    requires
        in_key_order(s),
    ensures
        in_key_order(insert_in_order(s, x)),
        insert_in_order(s, x).to_multiset() == s.to_multiset().insert(x),
{
    lemma_insertion_point_exists(s, x);
    let p = choose|p: int| insertion_point(s, x, p);
    let t = s.insert(p, x);
    vstd::seq_lib::to_multiset_insert(s, p, x);
    assert forall|i: int, j: int| 0 <= i < j < t.len() implies !key_less(
        #[trigger] t[j],
        #[trigger] t[i],
    ) by {
        if j < p {
            assert(t[i] == s[i] && t[j] == s[j]);
        } else if j == p {
            assert(t[i] == s[i]);
            assert(!key_less(x, s[i]));
        } else if i > p {
            assert(t[i] == s[i - 1] && t[j] == s[j - 1]);
        } else if i == p {
            // x orders before s[p], which s[j - 1] does not order before.
            assert(t[j] == s[j - 1]);
            if key_less(s[j - 1], x) {
                lemma_key_less_transitive(s[j - 1], x, s[p]);
                if j - 1 == p {
                    lemma_key_less_irreflexive(s[p]);
                } else {
                    assert(!key_less(s[j - 1], s[p]));
                }
            }
        } else {
            assert(t[i] == s[i] && t[j] == s[j - 1]);
        }
    }
}

proof fn lemma_sort_by_name_then_id(s: Seq<(Seq<char>, Seq<char>, AudioSourceKind)>)
    ensures
        in_key_order(sort_by_name_then_id(s)),
        sort_by_name_then_id(s).to_multiset() == s.to_multiset(),
    decreases s.len(),
{
    if s.len() == 0 {
    } else {
        lemma_sort_by_name_then_id(s.drop_last());
        lemma_insert_in_order_sorted(sort_by_name_then_id(s.drop_last()), s.last());
        vstd::seq_lib::to_multiset_build(s.drop_last(), s.last());
        assert(s.drop_last().push(s.last()) =~= s);
    }
}

proof fn lemma_dedup_adjacent_ids(s: Seq<(Seq<char>, Seq<char>, AudioSourceKind)>)
    ensures
        forall|x| #[trigger] dedup_adjacent_ids(s).contains(x) ==> s.contains(x),
        forall|i: int|
            0 <= i < dedup_adjacent_ids(s).len() - 1 ==> (#[trigger] dedup_adjacent_ids(s)[i]).0
                != dedup_adjacent_ids(s)[i + 1].0,
        forall|k: int|
            0 <= k < s.len() ==> exists|i: int|
                0 <= i < dedup_adjacent_ids(s).len() && (#[trigger] dedup_adjacent_ids(s)[i]).0
                    == (#[trigger] s[k]).0,
        in_key_order(s) ==> in_key_order(dedup_adjacent_ids(s)),
        s.len() > 0 ==> dedup_adjacent_ids(s).len() > 0 && dedup_adjacent_ids(s).last().0
            == s.last().0,
    decreases s.len(),
{
    if s.len() > 0 {
        let t = s.drop_last();
        let d = dedup_adjacent_ids(t);
        let r = dedup_adjacent_ids(s);
        lemma_dedup_adjacent_ids(t);
        assert forall|x| #[trigger] r.contains(x) implies s.contains(x) by {
            let i = choose|i: int| 0 <= i < r.len() && r[i] == x;
            if i < d.len() {
                assert(d.contains(x));
                let k = choose|k: int| 0 <= k < t.len() && t[k] == x;
                assert(s[k] == x);
            } else {
                assert(s[s.len() - 1] == x);
            }
        }
        assert forall|k: int| 0 <= k < s.len() implies exists|i: int|
            0 <= i < r.len() && (#[trigger] r[i]).0 == (#[trigger] s[k]).0 by {
            if k < t.len() {
                assert(t[k] == s[k]);
                let i = choose|i: int| 0 <= i < d.len() && (#[trigger] d[i]).0 == t[k].0;
                assert(r[i] == d[i]);
            } else {
                assert(r[r.len() - 1].0 == s[k].0);
            }
        }
        if in_key_order(s) {
            assert(in_key_order(t));
            assert forall|i: int, j: int| 0 <= i < j < r.len() implies !key_less(
                #[trigger] r[j],
                #[trigger] r[i],
            ) by {
                if j < d.len() {
                    assert(r[i] == d[i] && r[j] == d[j]);
                } else {
                    assert(r[j] == s.last());
                    assert(r[i] == d[i]);
                    assert(d.contains(d[i]));
                    let k = choose|k: int| 0 <= k < t.len() && t[k] == d[i];
                    assert(s[k] == t[k]);
                    assert(!key_less(s[s.len() - 1], s[k]));
                }
            }
        }
    }
}

/// Discovered sources are offered in order of display name, then
/// identifier; no two neighbours share an identifier; every offered source
/// was discovered, and every discovered identifier is offered.
pub proof fn law_sources_offered_in_order(found: Seq<(Seq<char>, Seq<char>, AudioSourceKind)>)
    ensures
        in_key_order(offered_sources(found)),
        forall|i: int|
            0 <= i < offered_sources(found).len() - 1 ==> (#[trigger] offered_sources(found)[i]).0
                != offered_sources(found)[i + 1].0,
        forall|x| #[trigger] offered_sources(found).contains(x) ==> found.contains(x),
        forall|k: int|
            0 <= k < found.len() ==> exists|i: int|
                0 <= i < offered_sources(found).len() && (#[trigger] offered_sources(found)[i]).0
                    == (#[trigger] found[k]).0,
{
    let sorted = sort_by_name_then_id(found);
    lemma_sort_by_name_then_id(found);
    lemma_dedup_adjacent_ids(sorted);
    assert forall|x| #[trigger] offered_sources(found).contains(x) implies found.contains(x) by {
        assert(sorted.contains(x));
        vstd::seq_lib::to_multiset_contains(sorted, x);
        vstd::seq_lib::to_multiset_contains(found, x);
    }
    assert forall|k: int| 0 <= k < found.len() implies exists|i: int|
        0 <= i < offered_sources(found).len() && (#[trigger] offered_sources(found)[i]).0
            == (#[trigger] found[k]).0 by {
        vstd::seq_lib::to_multiset_contains(found, found[k]);
        vstd::seq_lib::to_multiset_contains(sorted, found[k]);
        assert(found.contains(found[k]));
        let j = choose|j: int| 0 <= j < sorted.len() && sorted[j] == found[k];
        let r = offered_sources(found);
        assert(exists|i: int| 0 <= i < r.len() && (#[trigger] r[i]).0 == sorted[j].0);
        let i = choose|i: int| 0 <= i < r.len() && (#[trigger] r[i]).0 == sorted[j].0;
        assert(r[i].0 == found[k].0);
    }
}

} // verus!
