//! Header collections as ordered lists of name/value pairs, and the filter
//! that picks the forwarded subset out of an upstream response.

use vstd::prelude::*;

verus! {

/// One header: a lower-case name and its raw value bytes.
pub struct Header {
    pub name: String,
    pub value: Vec<u8>,
}

impl View for Header {
    type V = (Seq<char>, Seq<u8>);

    open spec fn view(&self) -> (Seq<char>, Seq<u8>) {
        (self.name@, self.value@)
    }
}

impl Header {
    pub fn new(name: String, value: Vec<u8>) -> (r: Header)
        ensures
            r.name == name,
            r.value == value,
    {
        Header { name, value }
    }
}

/// The abstract view of a header list.
pub open spec fn headers_view(h: Seq<Header>) -> Seq<(Seq<char>, Seq<u8>)> {
    h.map_values(|x: Header| x@)
}

/// The names of a list of strings, as character sequences.
pub open spec fn names_view(n: Seq<String>) -> Seq<Seq<char>> {
    n.map_values(|x: String| x@)
}

/// The value of the first header called `name`, if any.
pub open spec fn lookup(h: Seq<(Seq<char>, Seq<u8>)>, name: Seq<char>) -> Option<Seq<u8>>
    decreases h.len(),
{
    if h.len() == 0 {
        None
    } else if h[0].0 == name {
        Some(h[0].1)
    } else {
        lookup(h.drop_first(), name)
    }
}

/// For each of `names` in order, the pair of that name and its first value
/// upstream; a name absent upstream contributes nothing.
pub open spec fn forwarded(names: Seq<Seq<char>>, up: Seq<(Seq<char>, Seq<u8>)>) -> Seq<
    (Seq<char>, Seq<u8>),
>
    decreases names.len(),
{
    if names.len() == 0 {
        Seq::empty()
    } else {
        let n = names.last();
        let rest = forwarded(names.drop_last(), up);
        match lookup(up, n) {
            Some(v) => rest.push((n, v)),
            None => rest,
        }
    }
}

fn copy_bytes(v: &Vec<u8>) -> (r: Vec<u8>)
    ensures
        r@ == v@,
{
    let mut out: Vec<u8> = Vec::new();
    let mut i: usize = 0;
    while i < v.len()
        invariant
            i <= v.len(),
            out@ == v@.subrange(0, i as int),
        decreases v.len() - i,
    {
        out.push(v[i]);
        i = i + 1;
        assert(out@ =~= v@.subrange(0, i as int));
    }
    assert(out@ =~= v@);
    out
}

/// The value of the first header in `headers` whose name is `name`.
pub fn find_header<'a>(headers: &'a Vec<Header>, name: &String) -> (r: Option<&'a Vec<u8>>)
    ensures
        match r {
            Some(v) => lookup(headers_view(headers@), name@) == Some(v@),
            None => lookup(headers_view(headers@), name@) is None,
        },
{
    let ghost hv = headers_view(headers@);
    let mut i: usize = 0;
    assert(hv.subrange(0, hv.len() as int) =~= hv);
    while i < headers.len()
        invariant
            i <= headers.len(),
            hv == headers_view(headers@),
            hv.len() == headers.len(),
            lookup(hv, name@) == lookup(hv.subrange(i as int, hv.len() as int), name@),
        decreases headers.len() - i,
    {
        let ghost tail = hv.subrange(i as int, hv.len() as int);
        assert(tail[0] == headers@[i as int]@);
        if headers[i].name == *name {
            return Some(&headers[i].value);
        }
        assert(tail.drop_first() =~= hv.subrange(i + 1, hv.len() as int));
        i = i + 1;
    }
    None
}

/// Copies, for each of `names` in order, the first upstream header of that
/// name; names missing upstream are left out.
pub fn filter_headers(names: &Vec<String>, upstream: &Vec<Header>) -> (r: Vec<Header>)
    ensures
        headers_view(r@) == forwarded(names_view(names@), headers_view(upstream@)),
{
    let ghost up = headers_view(upstream@);
    let mut out: Vec<Header> = Vec::new();
    let mut i: usize = 0;
    while i < names.len()
        invariant
            i <= names.len(),
            up == headers_view(upstream@),
            headers_view(out@) == forwarded(names_view(names@.subrange(0, i as int)), up),
        decreases names.len() - i,
    {
        let ghost prev = names_view(names@.subrange(0, i as int));
        let ghost next = names_view(names@.subrange(0, i + 1));
        assert(next.drop_last() =~= prev);
        assert(next.last() == names@[i as int]@);
        match find_header(upstream, &names[i]) {
            Some(v) => {
                let h = Header { name: names[i].clone(), value: copy_bytes(v) };
                out.push(h);
                assert(headers_view(out@) =~= forwarded(next, up));
            },
            None => {
                assert(headers_view(out@) =~= forwarded(next, up));
            },
        }
        i = i + 1;
    }
    assert(names@.subrange(0, names.len() as int) =~= names@);
    out
}

} // verus!
