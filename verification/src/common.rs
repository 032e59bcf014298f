//! Small records that many answers of the service share.

use vstd::prelude::*;
use vstd::string::StringExecFns;

verus! {

/// A picture in one size.
#[derive(Clone, Debug, Default)]
pub struct Image {
    pub source: String,
    pub image_type: String,
    pub height: u32,
    pub width: u32,
}

/// A language and region as the service writes it, such as `en-US`.
#[derive(Clone, Debug, Default)]
pub struct Locale {
    pub tag: String,
}

/// A page of results and the number of results in all.
#[derive(Clone, Debug, Default)]
pub struct BulkResult<T> {
    pub items: Vec<T>,
    pub total: u32,
}

/// A page of results as the newer endpoints send it.
#[derive(Clone, Debug, Default)]
pub struct V2BulkResult<T> {
    pub data: Vec<T>,
    pub total: u32,
}

/// One parameter of a request.
#[derive(Clone, Debug)]
pub struct QueryParameter {
    pub name: String,
    pub value: String,
}

pub struct QueryParameterView {
    pub name: Seq<char>,
    pub value: Seq<char>,
}

impl View for QueryParameter {
    type V = QueryParameterView;

    open spec fn view(&self) -> QueryParameterView {
        QueryParameterView { name: self.name@, value: self.value@ }
    }
}

impl QueryParameter {
    /// A parameter with the given name and value.
    pub fn new(name: &str, value: &str) -> (r: QueryParameter)
        ensures
            r@ == (QueryParameterView { name: name@, value: value@ }),
    {
        QueryParameter { name: String::from_str(name), value: String::from_str(value) }
    }
}

impl<T> V2BulkResult<T> {
    /// The first record of a page that has one.
    pub fn into_first(self) -> (r: T)
        requires
            self.data@.len() > 0,
        ensures
            r == self.data@[0],
    {
        let mut data = self.data;
        data.remove(0)
    }

    /// The first record of a page, if it has one.
    pub fn first(self) -> (r: Option<T>)
        ensures
            match r {
                Some(record) => self.data@.len() > 0 && record == self.data@[0],
                None => self.data@.len() == 0,
            },
    {
        if self.data.len() > 0 {
            Some(self.into_first())
        } else {
            None
        }
    }
}

/// Lists put one after another.
pub open spec fn concatenated<T>(lists: Seq<Vec<T>>) -> Seq<T>
    decreases lists.len(),
{
    if lists.len() == 0 {
        Seq::empty()
    } else {
        lists[0]@ + concatenated(lists.drop_first())
    }
}

/// Puts the items of nested lists into one list, in order.
pub fn concatenate<T>(lists: Vec<Vec<T>>) -> (r: Vec<T>)
    ensures
        r@ == concatenated(lists@),
{
    let mut rest = lists;
    let mut out: Vec<T> = Vec::new();
    while rest.len() > 0
        invariant
            out@ + concatenated(rest@) == concatenated(lists@),
        decreases rest.len(),
    {
        let ghost before = rest@;
        let ghost done = out@;
        let mut head = rest.remove(0);
        assert(rest@ =~= before.drop_first());
        out.append(&mut head);
        assert(out@ + concatenated(rest@) =~= done + concatenated(before));
    }
    assert(out@ + concatenated(rest@) =~= out@);
    out
}

} // verus!
