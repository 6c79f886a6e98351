//! Header lists and how they are read.
//!
//! Header names are compared as HTTP compares them, without regard to ASCII
//! case. Wherever a list of header lines is read into one value per header,
//! on the way out or on the way in, a later line replaces an earlier one of
//! a matching name: the header keeps the place of its first line and takes
//! the spelling and the value of its last.

use vstd::prelude::*;
use vstd::string::StringExecFns;
use crate::string_map::StringMap;
use crate::text::{
    lemma_names_match_symmetric,
    lemma_names_match_transitive,
    names_match,
    same_name,
};

verus! {

/// Some entry of `layer` names the header `name`.
pub open spec fn sets_header(layer: Seq<(Seq<char>, Seq<char>)>, name: Seq<char>) -> bool {
    exists|i: int| 0 <= i < layer.len() && names_match((#[trigger] layer[i]).0, name)
}

/// No two entries of `headers` name the same header.
pub open spec fn distinct_headers(headers: Seq<(Seq<char>, Seq<char>)>) -> bool {
    forall|i: int, j: int|
        0 <= i < j < headers.len() ==> !names_match(
            (#[trigger] headers[i]).0,
            (#[trigger] headers[j]).0,
        )
}

/// The position of an entry of `headers` that names the header `name`.
pub open spec fn header_position(headers: Seq<(Seq<char>, Seq<char>)>, name: Seq<char>) -> int {
    choose|i: int| 0 <= i < headers.len() && names_match((#[trigger] headers[i]).0, name)
}

/// `headers` with the header `name` set to `value`: in place of the entry
/// that names it where there is one, at the end otherwise.
pub open spec fn set_header(
    headers: Seq<(Seq<char>, Seq<char>)>,
    name: Seq<char>,
    value: Seq<char>,
) -> Seq<(Seq<char>, Seq<char>)> {
    if sets_header(headers, name) {
        headers.update(header_position(headers, name), (name, value))
    } else {
        headers.push((name, value))
    }
}

/// One entry per header: what remains when `lines` are read front to back
/// and each line sets its header.
pub open spec fn last_wins(lines: Seq<(Seq<char>, Seq<char>)>) -> Seq<(Seq<char>, Seq<char>)>
    decreases lines.len(),
{
    if lines.len() == 0 {
        Seq::empty()
    } else {
        set_header(last_wins(lines.drop_last()), lines.last().0, lines.last().1)
    }
}

/// The headers that go out: the client's defaults read first, the request's
/// own read over them.
pub open spec fn merged_headers(
    defaults: Seq<(Seq<char>, Seq<char>)>,
    request: Seq<(Seq<char>, Seq<char>)>,
) -> Seq<(Seq<char>, Seq<char>)> {
    last_wins(defaults + request)
}

/// The value of the header `name` in a list of lines: that of the last line
/// that names it.
pub open spec fn header_value(headers: Seq<(Seq<char>, Seq<char>)>, name: Seq<char>) -> Option<
    Seq<char>,
>
    decreases headers.len(),
{
    if headers.len() == 0 {
        None
    } else if names_match(headers.last().0, name) {
        Some(headers.last().1)
    } else {
        header_value(headers.drop_last(), name)
    }
}

/// Line `i` is the last of `lines` to name its header.
pub open spec fn is_last_named(lines: Seq<(Seq<char>, Seq<char>)>, i: int) -> bool {
    &&& 0 <= i < lines.len()
    &&& forall|j: int| i < j < lines.len() ==> !names_match((#[trigger] lines[j]).0, lines[i].0)
}

/// A header has a value exactly where some line names it.
pub proof fn lemma_header_value_present(headers: Seq<(Seq<char>, Seq<char>)>, name: Seq<char>)
    ensures
        header_value(headers, name) is Some <==> sets_header(headers, name),
    decreases headers.len(),
{
    if headers.len() > 0 {
        let front = headers.drop_last();
        lemma_header_value_present(front, name);
        if names_match(headers.last().0, name) {
            assert(names_match(headers[headers.len() - 1].0, name));
        } else {
            if sets_header(headers, name) {
                let j = choose|j: int|
                    0 <= j < headers.len() && names_match((#[trigger] headers[j]).0, name);
                assert(names_match(front[j].0, name));
            }
            if sets_header(front, name) {
                let j = choose|j: int|
                    0 <= j < front.len() && names_match((#[trigger] front[j]).0, name);
                assert(names_match(headers[j].0, name));
            }
        }
    }
}

/// The value of a header in a list that ends with `tail` is its value in
/// `tail` where `tail` names it, and its value in the part before otherwise.
pub proof fn lemma_header_value_append(
    head: Seq<(Seq<char>, Seq<char>)>,
    tail: Seq<(Seq<char>, Seq<char>)>,
    name: Seq<char>,
)
    ensures
        header_value(head + tail, name) == if sets_header(tail, name) {
            header_value(tail, name)
        } else {
            header_value(head, name)
        },
    decreases tail.len(),
{
    if tail.len() == 0 {
        assert(head + tail =~= head);
    } else {
        let all = head + tail;
        assert(all.last() == tail.last());
        assert(all.drop_last() =~= head + tail.drop_last());
        lemma_header_value_append(head, tail.drop_last(), name);
        if names_match(tail.last().0, name) {
            assert(names_match(tail[tail.len() - 1].0, name));
        } else {
            if sets_header(tail, name) {
                let j = choose|j: int|
                    0 <= j < tail.len() && names_match((#[trigger] tail[j]).0, name);
                assert(names_match(tail.drop_last()[j].0, name));
            }
            if sets_header(tail.drop_last(), name) {
                let j = choose|j: int|
                    0 <= j < tail.drop_last().len() && names_match(
                        (#[trigger] tail.drop_last()[j]).0,
                        name,
                    );
                assert(names_match(tail[j].0, name));
            }
        }
    }
}

/// The value of a header is that of the last line that names it.
pub proof fn lemma_last_line_has_the_value(lines: Seq<(Seq<char>, Seq<char>)>, i: int)
    requires
        is_last_named(lines, i),
    ensures
        header_value(lines, lines[i].0) == Some(lines[i].1),
    decreases lines.len(),
{
    if i < lines.len() - 1 {
        let front = lines.drop_last();
        assert(!names_match(lines[lines.len() - 1].0, lines[i].0));
        assert(front[i] == lines[i]);
        assert forall|j: int| i < j < front.len() implies !names_match(
            (#[trigger] front[j]).0,
            front[i].0,
        ) by {
            assert(front[j] == lines[j]);
        }
        lemma_last_line_has_the_value(front, i);
    }
}

/// Where no two entries name the same header, the value of a header is the
/// one that stands beside its name.
pub proof fn lemma_single_entry_has_the_value(
    headers: Seq<(Seq<char>, Seq<char>)>,
    i: int,
    name: Seq<char>,
)
    requires
        distinct_headers(headers),
        0 <= i < headers.len(),
        names_match(headers[i].0, name),
    ensures
        header_value(headers, name) == Some(headers[i].1),
        header_position(headers, name) == i,
{
    assert forall|j: int| 0 <= j < headers.len() && names_match(
        (#[trigger] headers[j]).0,
        name,
    ) implies j == i by {
        lemma_names_match_symmetric(headers[j].0, name);
        lemma_names_match_transitive(headers[i].0, name, headers[j].0);
        lemma_names_match_symmetric(headers[i].0, headers[j].0);
    }
    assert forall|j: int| i < j < headers.len() implies !names_match(
        (#[trigger] headers[j]).0,
        headers[i].0,
    ) by {
        if names_match(headers[j].0, headers[i].0) {
            lemma_names_match_symmetric(headers[j].0, headers[i].0);
        }
    }
    lemma_last_line_has_the_value(headers, i);
    lemma_header_value_renamed(headers, headers[i].0, name);
}

/// Two names of one header have the same value.
pub proof fn lemma_header_value_renamed(
    headers: Seq<(Seq<char>, Seq<char>)>,
    a: Seq<char>,
    b: Seq<char>,
)
    requires
        names_match(a, b),
    ensures
        header_value(headers, a) == header_value(headers, b),
    decreases headers.len(),
{
    if headers.len() > 0 {
        lemma_header_value_renamed(headers.drop_last(), a, b);
        let last = headers.last().0;
        if names_match(last, a) {
            lemma_names_match_transitive(last, a, b);
        }
        if names_match(last, b) {
            lemma_names_match_symmetric(a, b);
            lemma_names_match_transitive(last, b, a);
        }
    }
}

/// Setting a header keeps the headers distinct, gives that header the new
/// value, and leaves the value of every other header as it was.
pub proof fn lemma_set_header(
    headers: Seq<(Seq<char>, Seq<char>)>,
    name: Seq<char>,
    value: Seq<char>,
    other: Seq<char>,
)
    requires
        distinct_headers(headers),
    ensures
        distinct_headers(set_header(headers, name, value)),
        header_value(set_header(headers, name, value), other) == if names_match(name, other) {
            Some(value)
        } else {
            header_value(headers, other)
        },
{
    let t = set_header(headers, name, value);
    if sets_header(headers, name) {
        let p = header_position(headers, name);
        assert forall|a: int, b: int| 0 <= a < b < t.len() implies !names_match(
            (#[trigger] t[a]).0,
            (#[trigger] t[b]).0,
        ) by {
            if names_match(t[a].0, t[b].0) {
                if a == p {
                    lemma_names_match_transitive(headers[p].0, name, headers[b].0);
                } else if b == p {
                    lemma_names_match_symmetric(headers[p].0, name);
                    lemma_names_match_transitive(headers[a].0, name, headers[p].0);
                } else {
                    assert(t[a] == headers[a] && t[b] == headers[b]);
                }
            }
        }
        if names_match(name, other) {
            lemma_single_entry_has_the_value(t, p, other);
        } else {
            lemma_header_value_present(headers, other);
            lemma_header_value_present(t, other);
            if sets_header(headers, other) {
                let i = header_position(headers, other);
                if i == p {
                    lemma_names_match_symmetric(headers[p].0, name);
                    lemma_names_match_transitive(name, headers[p].0, other);
                }
                assert(t[i] == headers[i]);
                lemma_single_entry_has_the_value(headers, i, other);
                lemma_single_entry_has_the_value(t, i, other);
            } else if sets_header(t, other) {
                let i = header_position(t, other);
                assert(i != p);
                assert(headers[i] == t[i]);
            }
        }
    } else {
        assert(t.drop_last() =~= headers);
        assert forall|a: int, b: int| 0 <= a < b < t.len() implies !names_match(
            (#[trigger] t[a]).0,
            (#[trigger] t[b]).0,
        ) by {
            assert(t[a] == headers[a]);
            if b < headers.len() {
                assert(t[b] == headers[b]);
            }
        }
    }
}

/// Reading lines into one entry per header leaves no header named twice and
/// gives each header the value of the last line that names it.
pub proof fn lemma_last_wins(lines: Seq<(Seq<char>, Seq<char>)>, name: Seq<char>)
    ensures
        distinct_headers(last_wins(lines)),
        header_value(last_wins(lines), name) == header_value(lines, name),
        sets_header(last_wins(lines), name) <==> sets_header(lines, name),
    decreases lines.len(),
{
    if lines.len() > 0 {
        lemma_last_wins(lines.drop_last(), name);
        lemma_set_header(last_wins(lines.drop_last()), lines.last().0, lines.last().1, name);
    }
    lemma_header_value_present(lines, name);
    lemma_header_value_present(last_wins(lines), name);
}

/// The header of a line that no later line renames comes out with that
/// line's value.
pub proof fn lemma_last_line_wins(lines: Seq<(Seq<char>, Seq<char>)>, i: int)
    requires
        is_last_named(lines, i),
    ensures
        header_value(last_wins(lines), lines[i].0) == Some(lines[i].1),
{
    lemma_last_wins(lines, lines[i].0);
    lemma_last_line_has_the_value(lines, i);
}

/// The last line to name a header is kept as it is, spelling and value.
pub proof fn lemma_last_line_is_kept(lines: Seq<(Seq<char>, Seq<char>)>, i: int)
    requires
        is_last_named(lines, i),
    ensures
        last_wins(lines).contains(lines[i]),
    decreases lines.len(),
{
    let front = lines.drop_last();
    let before = last_wins(front);
    let last = lines.last();
    let after = last_wins(lines);
    lemma_last_wins(front, last.0);
    if i == lines.len() - 1 {
        if sets_header(before, last.0) {
            assert(after[header_position(before, last.0)] == last);
        } else {
            assert(after[after.len() - 1] == last);
        }
    } else {
        assert(!names_match(lines[lines.len() - 1].0, lines[i].0));
        assert(front[i] == lines[i]);
        assert forall|j: int| i < j < front.len() implies !names_match(
            (#[trigger] front[j]).0,
            front[i].0,
        ) by {
            assert(front[j] == lines[j]);
        }
        lemma_last_line_is_kept(front, i);
        let k = choose|k: int| 0 <= k < before.len() && before[k] == lines[i];
        if sets_header(before, last.0) {
            let p = header_position(before, last.0);
            if p == k {
                lemma_names_match_symmetric(lines[i].0, last.0);
            }
        }
        assert(after[k] == lines[i]);
    }
}

/// Header merge precedence. Whatever the two layers hold: no header goes
/// out twice; a header that the request sets goes out with the request's
/// value; any other header goes out with the client's default, if there is
/// one; and a header goes out exactly where one of the layers sets it.
pub proof fn lemma_merge_precedence(
    defaults: Seq<(Seq<char>, Seq<char>)>,
    request: Seq<(Seq<char>, Seq<char>)>,
    name: Seq<char>,
)
    ensures
        distinct_headers(merged_headers(defaults, request)),
        sets_header(request, name) ==> header_value(merged_headers(defaults, request), name)
            == header_value(request, name),
        sets_header(request, name) ==> header_value(request, name) is Some,
        !sets_header(request, name) ==> header_value(merged_headers(defaults, request), name)
            == header_value(defaults, name),
        sets_header(merged_headers(defaults, request), name) <==> (sets_header(defaults, name)
            || sets_header(request, name)),
{
    lemma_last_wins(defaults + request, name);
    lemma_header_value_append(defaults, request, name);
    lemma_header_value_present(request, name);
    lemma_header_value_present(defaults, name);
    lemma_header_value_present(defaults + request, name);
}

/// The place of the entry of `list` that names the header `name`, if there
/// is one.
pub fn header_index(list: &Vec<(String, String)>, name: &str) -> (r: Option<usize>)
    ensures
        match r {
            Some(i) => i < list.len() && names_match(list.deep_view()[i as int].0, name@),
            None => !sets_header(list.deep_view(), name@),
        },
{
    let n = list.len();
    let mut i: usize = 0;
    while i < n
        invariant
            n == list.len(),
            i <= n,
            forall|j: int| 0 <= j < i ==> !names_match((#[trigger] list.deep_view()[j]).0, name@),
        decreases n - i,
    {
        if same_name(list[i].0.as_str(), name) {
            return Some(i);
        }
        i = i + 1;
    }
    None
}

/// Sets the header `name` to `value` in a list that names no header twice.
pub fn put_header(list: &mut Vec<(String, String)>, name: String, value: String)
    requires
        distinct_headers(old(list).deep_view()),
    ensures
        final(list).deep_view() == set_header(old(list).deep_view(), name@, value@),
        distinct_headers(final(list).deep_view()),
{
    let ghost before = list.deep_view();
    proof {
        lemma_set_header(before, name@, value@, name@);
    }
    match header_index(list, name.as_str()) {
        Some(i) => {
            proof {
                lemma_single_entry_has_the_value(before, i as int, name@);
            }
            list.set(i, (name, value));
            assert(list.deep_view() =~= set_header(before, name@, value@));
        },
        None => {
            list.push((name, value));
            assert(list.deep_view() =~= set_header(before, name@, value@));
        },
    }
}

/// Lays the request's headers over the client's defaults.
pub fn merge_headers(defaults: &StringMap, request: &StringMap) -> (out: Vec<(String, String)>)
    ensures
        out.deep_view() == merged_headers(defaults.pairs(), request.pairs()),
        distinct_headers(out.deep_view()),
{
    let mut out: Vec<(String, String)> = Vec::new();
    let ghost d = defaults.pairs();
    let ghost h = request.pairs();
    let n = defaults.len();
    let mut i: usize = 0;
    assert(d.take(0) =~= Seq::empty());
    assert(out.deep_view() =~= last_wins(d.take(0)));
    while i < n
        invariant
            d == defaults.pairs(),
            n == d.len(),
            i <= n,
            out.deep_view() == last_wins(d.take(i as int)),
            distinct_headers(out.deep_view()),
        decreases n - i,
    {
        proof {
            let upto = d.take(i as int + 1);
            assert(upto.drop_last() =~= d.take(i as int));
            assert(upto.last() == d[i as int]);
        }
        put_header(
            &mut out,
            String::from_str(defaults.name_at(i)),
            String::from_str(defaults.value_at(i)),
        );
        i = i + 1;
    }
    assert(d.take(n as int) =~= d);
    let m = request.len();
    let mut k: usize = 0;
    assert(d + h.take(0) =~= d);
    while k < m
        invariant
            d == defaults.pairs(),
            h == request.pairs(),
            m == h.len(),
            k <= m,
            out.deep_view() == last_wins(d + h.take(k as int)),
            distinct_headers(out.deep_view()),
        decreases m - k,
    {
        proof {
            let upto = d + h.take(k as int + 1);
            assert(upto.drop_last() =~= d + h.take(k as int));
            assert(upto.last() == h[k as int]);
        }
        put_header(
            &mut out,
            String::from_str(request.name_at(k)),
            String::from_str(request.value_at(k)),
        );
        k = k + 1;
    }
    assert(h.take(m as int) =~= h);
    out
}

/// The value under which the header `name` goes out, if it goes out at all.
pub fn find_header<'a>(headers: &'a Vec<(String, String)>, name: &str) -> (r: Option<&'a str>)
    ensures
        match r {
            Some(v) => header_value(headers.deep_view(), name@) == Some(v@),
            None => header_value(headers.deep_view(), name@) is None,
        },
{
    let mut i: usize = headers.len();
    assert(headers.deep_view().take(i as int) =~= headers.deep_view());
    while i > 0
        invariant
            i <= headers.len(),
            header_value(headers.deep_view(), name@) == header_value(
                headers.deep_view().take(i as int),
                name@,
            ),
        decreases i,
    {
        proof {
            let upto = headers.deep_view().take(i as int);
            assert(upto.drop_last() =~= headers.deep_view().take(i as int - 1));
            assert(upto.last() == headers.deep_view()[i as int - 1]);
        }
        i = i - 1;
        if same_name(headers[i].0.as_str(), name) {
            return Some(headers[i].1.as_str());
        }
    }
    None
}

/// The value of the header `name` among the entries of a mapping, if any
/// entry names it.
pub fn lookup_header<'a>(headers: &'a StringMap, name: &str) -> (r: Option<&'a str>)
    ensures
        match r {
            Some(v) => header_value(headers.pairs(), name@) == Some(v@),
            None => header_value(headers.pairs(), name@) is None,
        },
{
    let mut i: usize = headers.len();
    assert(headers.pairs().take(i as int) =~= headers.pairs());
    while i > 0
        invariant
            i <= headers.pairs().len(),
            header_value(headers.pairs(), name@) == header_value(
                headers.pairs().take(i as int),
                name@,
            ),
        decreases i,
    {
        proof {
            let upto = headers.pairs().take(i as int);
            assert(upto.drop_last() =~= headers.pairs().take(i as int - 1));
            assert(upto.last() == headers.pairs()[i as int - 1]);
        }
        i = i - 1;
        if same_name(headers.name_at(i), name) {
            return Some(headers.value_at(i));
        }
    }
    None
}

} // verus!
