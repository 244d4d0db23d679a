//! Properties that hold across every request the relay handles.

use crate::headers::{forwarded, lookup};
use crate::pattern::{patched, regex_expansion, regex_first_match};
use crate::route::{is_javascript_spec, is_success_spec, outbound_body};
use vstd::prelude::*;

verus! {

/// A response that is not a success keeps its body, whatever its content type.
pub proof fn failure_passes_through(
    pattern: Seq<char>,
    replacement: Seq<char>,
    status: u16,
    h: Seq<(Seq<char>, Seq<u8>)>,
    body: Seq<u8>,
)
    requires
        !is_success_spec(status),
    ensures
        outbound_body(pattern, replacement, status, h, body) == body,
{
}

/// A body whose content type is not exactly `text/javascript` is never
/// changed, even when upstream succeeded.
pub proof fn other_content_passes_through(
    pattern: Seq<char>,
    replacement: Seq<char>,
    status: u16,
    h: Seq<(Seq<char>, Seq<u8>)>,
    body: Seq<u8>,
)
    requires
        !is_javascript_spec(h),
    ensures
        outbound_body(pattern, replacement, status, h, body) == body,
{
}

/// In a successful script whose first match spans `s..e` (a span inside
/// the body, as every span the regex engine reports is), only that span is
/// replaced: the bytes before it and after it come back unchanged, and the
/// expansion stands between them.
pub proof fn only_first_match_replaced(
    pattern: Seq<char>,
    replacement: Seq<char>,
    status: u16,
    h: Seq<(Seq<char>, Seq<u8>)>,
    body: Seq<u8>,
    s: usize,
    e: usize,
)
    requires
        is_success_spec(status),
        is_javascript_spec(h),
        regex_first_match(pattern, body) == Some((s, e)),
        s <= e <= body.len(),
    ensures
        ({
            let out = outbound_body(pattern, replacement, status, h, body);
            let x = regex_expansion(pattern, body, replacement);
            let tail = body.len() - e;
            &&& out.len() == s + x.len() + tail
            &&& out.subrange(0, s as int) == body.subrange(0, s as int)
            &&& out.subrange(s as int, s + x.len()) == x
            &&& out.subrange(out.len() - tail, out.len() as int) == body.subrange(
                e as int,
                body.len() as int,
            )
        }),
{
    let out = outbound_body(pattern, replacement, status, h, body);
    let x = regex_expansion(pattern, body, replacement);
    let pre = body.subrange(0, s as int);
    let post = body.subrange(e as int, body.len() as int);
    assert(out == pre + x + post);
    assert(out.subrange(0, s as int) =~= pre);
    assert(out.subrange(s as int, s + x.len()) =~= x);
    assert(out.subrange(out.len() - post.len(), out.len() as int) =~= post);
}

/// A successful script in which the pattern does not occur comes back
/// byte for byte as upstream sent it.
pub proof fn no_match_passes_through(
    pattern: Seq<char>,
    replacement: Seq<char>,
    status: u16,
    h: Seq<(Seq<char>, Seq<u8>)>,
    body: Seq<u8>,
)
    requires
        regex_first_match(pattern, body) is None,
    ensures
        patched(pattern, replacement, body) == body,
        outbound_body(pattern, replacement, status, h, body) == body,
{
}

proof fn lookup_push(h: Seq<(Seq<char>, Seq<u8>)>, x: (Seq<char>, Seq<u8>), n: Seq<char>)
    ensures
        lookup(h.push(x), n) == (if lookup(h, n) is Some {
            lookup(h, n)
        } else if x.0 == n {
            Some(x.1)
        } else {
            None::<Seq<u8>>
        }),
    decreases h.len(),
{
    if h.len() > 0 {
        assert(h.push(x)[0] == h[0]);
        assert(h.push(x).drop_first() =~= h.drop_first().push(x));
        lookup_push(h.drop_first(), x, n);
    } else {
        assert(h.push(x).drop_first() =~= h);
    }
}

proof fn forwarded_names_listed(names: Seq<Seq<char>>, up: Seq<(Seq<char>, Seq<u8>)>, n: Seq<char>)
    requires
        !names.contains(n),
    ensures
        lookup(forwarded(names, up), n) is None,
    decreases names.len(),
{
    if names.len() > 0 {
        let m = names.last();
        assert(!names.drop_last().contains(n)) by {
            if names.drop_last().contains(n) {
                let k = choose|k: int| 0 <= k < names.drop_last().len() && names.drop_last()[k] == n;
                assert(names[k] == n);
            }
        }
        forwarded_names_listed(names.drop_last(), up, n);
        if let Some(v) = lookup(up, m) {
            lookup_push(forwarded(names.drop_last(), up), (m, v), n);
            assert(names[names.len() - 1] == m);
        }
    }
}

proof fn forwarded_lookup(names: Seq<Seq<char>>, up: Seq<(Seq<char>, Seq<u8>)>, n: Seq<char>)
    requires
        names.no_duplicates(),
        names.contains(n),
    ensures
        lookup(forwarded(names, up), n) == lookup(up, n),
    decreases names.len(),
{
    let m = names.last();
    let rest = names.drop_last();
    let f = forwarded(rest, up);
    assert(rest.no_duplicates());
    if m == n {
        assert(!rest.contains(n)) by {
            if rest.contains(n) {
                let k = choose|k: int| 0 <= k < rest.len() && rest[k] == n;
                assert(names[k] == names[names.len() - 1]);
            }
        }
        forwarded_names_listed(rest, up, n);
        if let Some(v) = lookup(up, m) {
            lookup_push(f, (m, v), n);
        }
    } else {
        let k = choose|k: int| 0 <= k < names.len() && names[k] == n;
        assert(k < names.len() - 1);
        assert(rest[k] == n);
        forwarded_lookup(rest, up, n);
        if let Some(v) = lookup(up, m) {
            lookup_push(f, (m, v), n);
        }
    }
}

proof fn forwarded_same_lookups(
    names: Seq<Seq<char>>,
    a: Seq<(Seq<char>, Seq<u8>)>,
    b: Seq<(Seq<char>, Seq<u8>)>,
)
    requires
        forall|i: int| 0 <= i < names.len() ==> lookup(a, #[trigger] names[i]) == lookup(b, names[i]),
    ensures
        forwarded(names, a) == forwarded(names, b),
    decreases names.len(),
{
    if names.len() > 0 {
        let rest = names.drop_last();
        assert forall|i: int| 0 <= i < rest.len() implies lookup(a, #[trigger] rest[i]) == lookup(b, rest[i]) by {
            assert(rest[i] == names[i]);
        }
        forwarded_same_lookups(rest, a, b);
        assert(names.last() == names[names.len() - 1]);
    }
}

/// Filtering an already filtered header list by the same names changes
/// nothing, and filtering is a function of its inputs: the same upstream
/// headers always give the same outbound headers.
pub proof fn forwarding_idempotent(names: Seq<Seq<char>>, up: Seq<(Seq<char>, Seq<u8>)>)
    requires
        names.no_duplicates(),
    ensures
        forwarded(names, forwarded(names, up)) == forwarded(names, up),
{
    let f = forwarded(names, up);
    assert forall|i: int| 0 <= i < names.len() implies lookup(f, #[trigger] names[i]) == lookup(up, names[i]) by {
        forwarded_lookup(names, up, names[i]);
    }
    forwarded_same_lookups(names, f, up);
}

/// Every outbound header is one of the listed names, carries the value that
/// upstream sent first under that name, and the outbound names keep the
/// order of the list: a name that upstream did not send never appears.
pub proof fn forwarding_faithful(names: Seq<Seq<char>>, up: Seq<(Seq<char>, Seq<u8>)>)
    ensures
        forall|i: int|
            0 <= i < forwarded(names, up).len() ==> {
                &&& names.contains(#[trigger] forwarded(names, up)[i].0)
                &&& lookup(up, forwarded(names, up)[i].0) == Some(forwarded(names, up)[i].1)
            },
        forwarded(names, up).map_values(|x: (Seq<char>, Seq<u8>)| x.0) == names.filter(
            |n: Seq<char>| lookup(up, n) is Some,
        ),
    decreases names.len(),
{
    reveal(Seq::filter);
    let f = forwarded(names, up);
    if names.len() > 0 {
        let rest = names.drop_last();
        let m = names.last();
        forwarding_faithful(rest, up);
        let fr = forwarded(rest, up);
        assert forall|i: int| 0 <= i < f.len() implies {
            &&& names.contains(#[trigger] f[i].0)
            &&& lookup(up, f[i].0) == Some(f[i].1)
        } by {
            if i < fr.len() {
                assert(f[i] == fr[i]);
                let k = choose|k: int| 0 <= k < rest.len() && rest[k] == fr[i].0;
                assert(names[k] == rest[k]);
            } else {
                assert(f[i].0 == m);
                assert(names[names.len() - 1] == m);
            }
        }
        assert(f.map_values(|x: (Seq<char>, Seq<u8>)| x.0) =~= names.filter(
            |n: Seq<char>| lookup(up, n) is Some,
        ));
    } else {
        assert(f.map_values(|x: (Seq<char>, Seq<u8>)| x.0) =~= names.filter(
            |n: Seq<char>| lookup(up, n) is Some,
        ));
    }
}

} // verus!
