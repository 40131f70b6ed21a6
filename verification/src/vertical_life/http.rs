//! Requests, described so that the caller can send them and send them again.

use vstd::prelude::*;
use vstd::string::*;
use crate::text::same_text;

verus! {

/// How a request is made.
#[derive(Debug, Clone, Copy, PartialEq, Eq, Structural)]
pub enum HttpMethod {
    Get,
    Post,
}

/// A request: where it goes and what it carries. Headers, query parameters
/// and form fields are pairs of a name and a value.
#[derive(Debug, Clone, PartialEq, Eq)]
pub struct HttpRequest {
    pub method: HttpMethod,
    pub url: String,
    pub headers: Vec<(String, String)>,
    pub query: Vec<(String, String)>,
    pub form: Vec<(String, String)>,
    /// Whether a redirect is to be followed. Where it is not, the response
    /// that redirects is the answer.
    pub follow_redirects: bool,
}

/// A request, with texts in place of strings.
pub struct RequestView {
    pub method: HttpMethod,
    pub url: Seq<char>,
    pub headers: Seq<(Seq<char>, Seq<char>)>,
    pub query: Seq<(Seq<char>, Seq<char>)>,
    pub form: Seq<(Seq<char>, Seq<char>)>,
    pub follow_redirects: bool,
}

/// The texts of a list of pairs.
pub open spec fn pairs(list: Seq<(String, String)>) -> Seq<(Seq<char>, Seq<char>)> {
    Seq::new(list.len(), |i: int| (list[i].0@, list[i].1@))
}

impl View for HttpRequest {
    type V = RequestView;

    open spec fn view(&self) -> RequestView {
        RequestView {
            method: self.method,
            url: self.url@,
            headers: pairs(self.headers@),
            query: pairs(self.query@),
            form: pairs(self.form@),
            follow_redirects: self.follow_redirects,
        }
    }
}

/// A pair of a name and a value.
pub fn pair(name: &str, value: &str) -> (entry: (String, String))
    ensures
        entry.0@ == name@,
        entry.1@ == value@,
{
    (String::from_str(name), String::from_str(value))
}

/// Where the first pair with a name stands at or after `from`, or the
/// length of the list where none does.
pub open spec fn index_of_name(list: Seq<(Seq<char>, Seq<char>)>, name: Seq<char>, from: int) -> int
    decreases list.len() - from,
{
    if from < 0 || from >= list.len() {
        list.len() as int
    } else if list[from].0 == name {
        from
    } else {
        index_of_name(list, name, from + 1)
    }
}

/// A list of headers after a header was set: the value takes the place of
/// the first header of that name, or the header is added at the end.
pub open spec fn with_header(
    list: Seq<(Seq<char>, Seq<char>)>,
    name: Seq<char>,
    value: Seq<char>,
) -> Seq<(Seq<char>, Seq<char>)> {
    let at = index_of_name(list, name, 0);
    if at < list.len() {
        list.update(at, (name, value))
    } else {
        list.push((name, value))
    }
}

/// Sets a header.
pub fn set_header(headers: &mut Vec<(String, String)>, name: &str, value: &str)
    ensures
        pairs(final(headers)@) == with_header(pairs(old(headers)@), name@, value@),
{
    let mut i: usize = 0;
    while i < headers.len() && !same_text(headers[i].0.as_str(), name)
        invariant
            i <= headers.len(),
            *headers == *old(headers),
            index_of_name(pairs(headers@), name@, 0) == index_of_name(
                pairs(headers@),
                name@,
                i as int,
            ),
        decreases headers.len() - i,
    {
        i += 1;
    }
    if i < headers.len() {
        headers.set(i, pair(name, value));
        assert(pairs(headers@) =~= pairs(old(headers)@).update(i as int, (name@, value@)));
    } else {
        headers.push(pair(name, value));
        assert(pairs(headers@) =~= pairs(old(headers)@).push((name@, value@)));
    }
}

/// The value of the last pair with a name.
pub open spec fn last_value(list: Seq<(Seq<char>, Seq<char>)>, name: Seq<char>) -> Option<
    Seq<char>,
>
    decreases list.len(),
{
    if list.len() == 0 {
        None
    } else if list.last().0 == name {
        Some(list.last().1)
    } else {
        last_value(list.drop_last(), name)
    }
}

/// Looks up the value of the last pair with a name.
pub fn find_last_value(list: &Vec<(String, String)>, name: &str) -> (value: Option<String>)
    ensures
        value is Some <==> last_value(pairs(list@), name@) is Some,
        value is Some ==> value->0@ == last_value(pairs(list@), name@)->0,
{
    let mut i: usize = list.len();
    assert(pairs(list@).take(i as int) =~= pairs(list@));
    while i > 0
        invariant
            i <= list.len(),
            last_value(pairs(list@), name@) == last_value(pairs(list@).take(i as int), name@),
        decreases i,
    {
        i -= 1;
        proof {
            let seen = pairs(list@).take(i + 1);
            assert(seen.drop_last() =~= pairs(list@).take(i as int));
            assert(seen.last() == (list@[i as int].0@, list@[i as int].1@));
        }
        if same_text(list[i].0.as_str(), name) {
            return Some(list[i].1.clone());
        }
    }
    None
}

} // verus!
