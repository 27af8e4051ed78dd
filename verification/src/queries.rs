//! Rendering of filter values into query-string fragments.
//!
//! A filter value renders as a key and a wire value. A list of values of one
//! family renders as `key=v1,v2,v3`, in the order of the list. The fragments
//! of a request are joined with `&`, and absent fragments leave no trace.

use crate::text::{join, lemma_join_push};
use vstd::prelude::*;

verus! {

/// One rendered term of a query string: the key and the wire value.
pub struct QeuryValue {
    pub name: String,
    pub value: String,
}

/// A filter value that knows its key and its wire value.
pub trait ToQueryValue {
    /// The key of the family that this value belongs to.
    spec fn query_name(&self) -> Seq<char>;

    /// The wire value that the service expects for this value.
    spec fn query_value(&self) -> Seq<char>;

    /// Renders this value as a key and a wire value.
    fn to_query_value(&self) -> (q: QeuryValue)
        ensures
            q.name@ == self.query_name(),
            q.value@ == self.query_value(),
    ;
}

/// A set of filters that renders as one query string.
pub trait ToQuerys {
    /// The query string of this set of filters, without a leading `?`.
    spec fn querys(&self) -> Seq<char>;

    /// Renders the query string of this set of filters.
    fn to_querys(&self) -> (s: String)
        ensures
            s@ == self.querys(),
    ;
}

/// The fragments that are present, in their order.
pub open spec fn present(parameters: Seq<Option<Seq<char>>>) -> Seq<Seq<char>>
    decreases parameters.len(),
{
    if parameters.len() == 0 {
        Seq::empty()
    } else {
        match parameters.last() {
            Some(p) => present(parameters.drop_last()).push(p),
            None => present(parameters.drop_last()),
        }
    }
}

/// The query string made of the fragments that are present.
pub open spec fn query_of(parameters: Seq<Option<Seq<char>>>) -> Seq<char> {
    join(present(parameters), "&"@)
}

/// The fragment `name=value`.
pub open spec fn term(name: Seq<char>, value: Seq<char>) -> Seq<char> {
    name + "="@ + value
}

/// The wire values of a list of filter values, in the order of the list.
pub open spec fn wire_values<T: ToQueryValue>(items: Seq<T>) -> Seq<Seq<char>> {
    items.map_values(|item: T| item.query_value())
}

/// The values behind an optional list.
pub open spec fn list_view<T>(items: Option<&[T]>) -> Option<Seq<T>> {
    match items {
        Some(items) => Some(items@),
        None => None,
    }
}

/// The value behind an optional reference.
pub open spec fn single_view<T>(item: Option<&T>) -> Option<T> {
    match item {
        Some(item) => Some(*item),
        None => None,
    }
}

/// The fragment of one optional filter value: absent for an absent value.
pub open spec fn single_term<T: ToQueryValue>(item: Option<T>) -> Option<Seq<char>> {
    match item {
        Some(item) => Some(term(item.query_name(), item.query_value())),
        None => None,
    }
}

/// The fragment of a list of filter values of one family.
///
/// An absent list and an empty list have no fragment. Any other list has
/// the key of its first value, and all its wire values joined with `,`.
pub open spec fn list_term<T: ToQueryValue>(items: Option<Seq<T>>) -> Option<Seq<char>> {
    match items {
        Some(items) => if items.len() == 0 {
            None
        } else {
            Some(term(items[0].query_name(), join(wire_values(items), ","@)))
        },
        None => None,
    }
}

/// One more fragment: a present one is added to those present so far, an
/// absent one changes nothing.
pub proof fn lemma_present_push(parameters: Seq<Option<Seq<char>>>, last: Option<Seq<char>>)
    ensures
        present(parameters.push(last)) == match last {
            Some(p) => present(parameters).push(p),
            None => present(parameters),
        },
{
    assert(parameters.push(last).drop_last() =~= parameters);
}

/// The fragments of two sets of filters, one after the other: what is
/// present in the first, then what is present in the second.
pub proof fn lemma_present_concat(first: Seq<Option<Seq<char>>>, second: Seq<Option<Seq<char>>>)
    ensures
        present(first + second) == present(first) + present(second),
    decreases second.len(),
{
    if second.len() == 0 {
        assert(first + second =~= first);
        assert(present(first) + present(second) =~= present(first));
    } else {
        let shorter = second.drop_last();
        assert((first + second).drop_last() =~= first + shorter);
        lemma_present_concat(first, shorter);
        match second.last() {
            Some(p) => {
                assert(present(first) + present(shorter).push(p) =~= (present(first) + present(
                    shorter,
                )).push(p));
            },
            None => {},
        }
    }
}

/// Joining two lists of parts, one after the other: the joined first list,
/// the separator and the joined second list, where neither list is empty.
pub proof fn lemma_join_concat(first: Seq<Seq<char>>, second: Seq<Seq<char>>, sep: Seq<char>)
    ensures
        join(first + second, sep) == if first.len() == 0 {
            join(second, sep)
        } else if second.len() == 0 {
            join(first, sep)
        } else {
            join(first, sep) + sep + join(second, sep)
        },
    decreases second.len(),
{
    if first.len() == 0 {
        assert(first + second =~= second);
    } else if second.len() == 0 {
        assert(first + second =~= first);
    } else {
        let shorter = second.drop_last();
        assert(first + second =~= (first + shorter).push(second.last()));
        assert(second =~= shorter.push(second.last()));
        lemma_join_push(first + shorter, second.last(), sep);
        lemma_join_push(shorter, second.last(), sep);
        lemma_join_concat(first, shorter, sep);
        if shorter.len() > 0 {
            assert(join(first, sep) + sep + join(shorter, sep) + sep + second.last() =~= join(
                first,
                sep,
            ) + sep + (join(shorter, sep) + sep + second.last()));
        }
    }
}

/// The order of the fragments is the order of the query string: the
/// fragments of two sets of filters, one after the other, render as the
/// query string of the first, `&` and the query string of the second.
/// Where one of the two has nothing present, the other renders alone.
pub proof fn lemma_query_of_concat(first: Seq<Option<Seq<char>>>, second: Seq<Option<Seq<char>>>)
    ensures
        query_of(first + second) == if present(first).len() == 0 {
            query_of(second)
        } else if present(second).len() == 0 {
            query_of(first)
        } else {
            query_of(first) + "&"@ + query_of(second)
        },
{
    lemma_present_concat(first, second);
    lemma_join_concat(present(first), present(second), "&"@);
}

/// Filters of which none is present render as the empty string.
pub proof fn lemma_query_of_nothing(parameters: Seq<Option<Seq<char>>>)
    requires
        forall|i: int| 0 <= i < parameters.len() ==> parameters[i] is None,
    ensures
        present(parameters).len() == 0,
        query_of(parameters) == Seq::<char>::empty(),
    decreases parameters.len(),
{
    if parameters.len() > 0 {
        lemma_query_of_nothing(parameters.drop_last());
    }
}

/// The separator that follows the filters rendered before a fragment:
/// nothing after nothing, else the filters and `&`.
pub open spec fn leading(parameters: Seq<Option<Seq<char>>>) -> Seq<char> {
    if present(parameters).len() == 0 {
        Seq::empty()
    } else {
        query_of(parameters) + "&"@
    }
}

/// The separator that precedes the filters rendered after a fragment:
/// nothing before nothing, else `&` and the filters.
pub open spec fn trailing(parameters: Seq<Option<Seq<char>>>) -> Seq<char> {
    if present(parameters).len() == 0 {
        Seq::empty()
    } else {
        "&"@ + query_of(parameters)
    }
}

/// Two present fragments keep their order whatever stands around them: the
/// query string holds the earlier one, `&`, what lies between the two, the
/// later one, and what follows.
pub proof fn lemma_query_of_two_present(
    earlier: Seq<char>,
    between: Seq<Option<Seq<char>>>,
    later: Seq<char>,
    after: Seq<Option<Seq<char>>>,
)
    ensures
        query_of(seq![Some(earlier)] + between + seq![Some(later)] + after) == earlier + "&"@
            + leading(between) + later + trailing(after),
{
    let head = seq![Some(earlier)];
    let tail = seq![Some(later)];
    let none: Seq<Option<Seq<char>>> = Seq::empty();
    lemma_present_push(none, Some(earlier));
    lemma_present_push(none, Some(later));
    assert(none.push(Some(earlier)) =~= head);
    assert(none.push(Some(later)) =~= tail);
    assert(present(none) =~= Seq::<Seq<char>>::empty());
    assert(present(head) =~= seq![earlier]);
    assert(present(tail) =~= seq![later]);
    assert(head + between + tail + after =~= head + (between + (tail + after)));
    lemma_query_of_concat(head, between + (tail + after));
    lemma_query_of_concat(between, tail + after);
    lemma_query_of_concat(tail, after);
    lemma_present_concat(tail, after);
    lemma_present_concat(between, tail + after);
    let rest = query_of(tail + after);
    assert(rest =~= later + trailing(after));
    assert(query_of(between + (tail + after)) =~= leading(between) + later + trailing(after));
    assert(earlier + "&"@ + (leading(between) + later + trailing(after)) =~= earlier + "&"@
        + leading(between) + later + trailing(after));
}

/// A list renders its values in the order of the list: one more value at
/// the end of a list adds `,` and the wire value at the end of the fragment.
pub proof fn lemma_list_term_push<T: ToQueryValue>(items: Seq<T>, last: T)
    requires
        items.len() > 0,
    ensures
        list_term(Some(items.push(last))) == Some(
            list_term(Some(items))->0 + ","@ + last.query_value(),
        ),
{
    let longer = items.push(last);
    assert(wire_values(longer) =~= wire_values(items).push(last.query_value()));
    lemma_join_push(wire_values(items), last.query_value(), ","@);
    let name = items[0].query_name();
    assert(term(name, join(wire_values(items), ","@) + ","@ + last.query_value()) =~= term(
        name,
        join(wire_values(items), ","@),
    ) + ","@ + last.query_value());
}

/// A list of one value renders as `key=value`, as the value alone does.
pub proof fn lemma_list_term_of_one<T: ToQueryValue>(item: T)
    ensures
        list_term(Some(seq![item])) == single_term(Some(item)),
{
    assert(wire_values(seq![item]) =~= seq![item.query_value()]);
}

/// Joins the fragments that are present with `&`.
///
/// Absent fragments are skipped. With no fragment present the result is the
/// empty string.
pub fn parameters_to_qeury(parameters: &[Option<String>]) -> (s: String)
    ensures
        s@ == query_of(parameters.deep_view()),
{
    let ghost all = parameters.deep_view();
    let mut out = String::new();
    let mut any = false;
    let mut i: usize = 0;
    while i < parameters.len()
        invariant
            i <= parameters.len(),
            all == parameters.deep_view(),
            out@ == query_of(all.take(i as int)),
            any == (present(all.take(i as int)).len() > 0),
        decreases parameters.len() - i,
    {
        proof {
            assert(all.take(i + 1) =~= all.take(i as int).push(all[i as int]));
            lemma_present_push(all.take(i as int), all[i as int]);
        }
        match &parameters[i] {
            Some(p) => {
                proof {
                    lemma_join_push(present(all.take(i as int)), p@, "&"@);
                }
                if any {
                    out.append("&");
                }
                out.append(p.as_str());
                any = true;
            },
            None => {},
        }
        i += 1;
    }
    assert(all.take(i as int) =~= all);
    out
}

/// Renders one optional filter value as `key=value`.
pub fn to_qeury_string_single<T>(item: Option<&T>) -> (s: Option<String>) where T: ToQueryValue
    ensures
        s.deep_view() == single_term(single_view(item)),
{
    match item {
        Some(item) => {
            let query_value = item.to_query_value();
            let mut out = query_value.name;
            out.append("=");
            out.append(query_value.value.as_str());
            Some(out)
        },
        None => None,
    }
}

/// Renders a list of filter values of one family as `key=v1,v2,v3`.
///
/// The values keep the order of the list: nothing is sorted and nothing is
/// dropped. An absent list and an empty list render as nothing.
pub fn to_qeury_string<T>(items: Option<&[T]>) -> (s: Option<String>) where T: ToQueryValue
    ensures
        s.deep_view() == list_term(list_view(items)),
        s is None <==> (items is None || items->0@.len() == 0),
{
    match items {
        Some(items) => {
            if items.len() == 0 {
                return None;
            }
            let ghost values = wire_values(items@);
            let mut out = items[0].to_query_value().name;
            out.append("=");
            let ghost head = out@;
            let mut i: usize = 0;
            while i < items.len()
                invariant
                    i <= items.len(),
                    values == wire_values(items@),
                    out@ == head + join(values.take(i as int), ","@),
                decreases items.len() - i,
            {
                proof {
                    assert(values.take(i + 1) =~= values.take(i as int).push(values[i as int]));
                    lemma_join_push(values.take(i as int), values[i as int], ","@);
                }
                let value = items[i].to_query_value().value;
                if i > 0 {
                    out.append(",");
                }
                out.append(value.as_str());
                assert(out@ =~= head + join(values.take(i + 1), ","@));
                i += 1;
            }
            assert(values.take(i as int) =~= values);
            assert(out@ =~= term(items@[0].query_name(), join(values, ","@)));
            Some(out)
        },
        None => None,
    }
}

} // verus!
