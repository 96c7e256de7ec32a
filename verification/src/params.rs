//! The parameter set of a request, and the request that carries it.
//!
//! A parameter set is an ordered list of named values. A field that was never set has no
//! entry in it: there is no way to write a null.
use crate::text::owned;
use vstd::prelude::*;

verus! {

/// The HTTP method of a request.
#[derive(Copy, Clone, Debug, PartialEq, Eq, Structural)]
pub enum StripeMethod {
    Get,
    Post,
    Delete,
}

/// One value of a parameter set.
#[derive(Debug, PartialEq, Eq)]
pub enum ParamValue {
    Int(i64),
    Bool(bool),
    Str(String),
    List(Vec<ParamValue>),
    Object(Params),
}

/// An ordered list of named values.
#[derive(Debug, PartialEq, Eq)]
pub struct Params {
    pub entries: Vec<(String, ParamValue)>,
}

/// What a [`ParamValue`] stands for.
pub enum ParamView {
    Int(int),
    Bool(bool),
    Str(Seq<char>),
    List(Seq<ParamView>),
    Object(Seq<(Seq<char>, ParamView)>),
}

/// What a [`Params`] stands for: names and values, in order.
pub type ParamsView = Seq<(Seq<char>, ParamView)>;

/// What a value stands for, entry by entry.
pub open spec fn value_view(value: ParamValue) -> ParamView
    decreases value,
{
    match value {
        ParamValue::Int(i) => ParamView::Int(i as int),
        ParamValue::Bool(b) => ParamView::Bool(b),
        ParamValue::Str(s) => ParamView::Str(s@),
        ParamValue::List(items) => ParamView::List(
            Seq::new(
                items.len() as nat,
                |i: int|
                    if 0 <= i < items.len() {
                        value_view(items[i])
                    } else {
                        ParamView::Bool(false)
                    },
            ),
        ),
        ParamValue::Object(p) => ParamView::Object(
            Seq::new(
                p.entries.len() as nat,
                |i: int|
                    if 0 <= i < p.entries.len() {
                        (p.entries[i].0@, value_view(p.entries[i].1))
                    } else {
                        (Seq::empty(), ParamView::Bool(false))
                    },
            ),
        ),
    }
}

impl View for ParamValue {
    type V = ParamView;

    open spec fn view(&self) -> ParamView {
        value_view(*self)
    }
}

impl View for Params {
    type V = ParamsView;

    open spec fn view(&self) -> ParamsView {
        Seq::new(self.entries.len() as nat, |i: int| (self.entries[i].0@, self.entries[i].1@))
    }
}

impl DeepView for Params {
    type V = ParamsView;

    open spec fn deep_view(&self) -> ParamsView {
        self@
    }
}

impl DeepView for ParamValue {
    type V = ParamView;

    open spec fn deep_view(&self) -> ParamView {
        self@
    }
}

/// The entry of a field that is always there.
pub open spec fn one(name: Seq<char>, value: ParamView) -> ParamsView {
    seq![(name, value)]
}

/// The entry of an optional field: none where the field is unset.
pub open spec fn opt_value(name: Seq<char>, value: Option<ParamView>) -> ParamsView {
    match value {
        Some(v) => one(name, v),
        None => seq![],
    }
}

/// A list of texts, as a value.
pub open spec fn str_list(items: Seq<Seq<char>>) -> ParamView {
    ParamView::List(items.map_values(|s: Seq<char>| ParamView::Str(s)))
}

/// A list of nested parameter sets, as a value.
pub open spec fn object_list(items: Seq<ParamsView>) -> ParamView {
    ParamView::List(items.map_values(|p: ParamsView| ParamView::Object(p)))
}

/// Pairs of texts, as a parameter set: each pair is an entry, in the order given.
pub open spec fn pairs(items: Seq<(Seq<char>, Seq<char>)>) -> ParamsView {
    items.map_values(|kv: (Seq<char>, Seq<char>)| (kv.0, ParamView::Str(kv.1)))
}

/// The entry of an optional text field: none where the field is unset.
pub open spec fn opt_str(name: Seq<char>, value: Option<Seq<char>>) -> ParamsView {
    match value {
        Some(s) => one(name, ParamView::Str(s)),
        None => seq![],
    }
}

/// The entry of an optional integer field: none where the field is unset.
pub open spec fn opt_int(name: Seq<char>, value: Option<i64>) -> ParamsView {
    match value {
        Some(i) => one(name, ParamView::Int(i as int)),
        None => seq![],
    }
}

/// The entry of an optional boolean field: none where the field is unset.
pub open spec fn opt_bool(name: Seq<char>, value: Option<bool>) -> ParamsView {
    match value {
        Some(b) => one(name, ParamView::Bool(b)),
        None => seq![],
    }
}

/// The entry of an optional list of texts: none where the field is unset.
pub open spec fn opt_str_list(name: Seq<char>, value: Option<Seq<Seq<char>>>) -> ParamsView {
    match value {
        Some(items) => one(name, str_list(items)),
        None => seq![],
    }
}

/// The entry of an optional nested parameter set: none where the field is unset.
pub open spec fn opt_object(name: Seq<char>, value: Option<ParamsView>) -> ParamsView {
    match value {
        Some(p) => one(name, ParamView::Object(p)),
        None => seq![],
    }
}

/// The entry of an optional list of nested parameter sets: none where the field is unset.
pub open spec fn opt_object_list(name: Seq<char>, value: Option<Seq<ParamsView>>) -> ParamsView {
    match value {
        Some(items) => one(name, object_list(items)),
        None => seq![],
    }
}

/// The entry of optional pairs of texts: none where the field is unset.
pub open spec fn opt_pairs(
    name: Seq<char>,
    value: Option<Seq<(Seq<char>, Seq<char>)>>,
) -> ParamsView {
    match value {
        Some(items) => one(name, ParamView::Object(pairs(items))),
        None => seq![],
    }
}

/// A field that is unset puts nothing on the wire, whatever it would hold.
pub proof fn lemma_unset_puts_nothing(name: Seq<char>)
    ensures
        opt_value(name, None) == Seq::<(Seq<char>, ParamView)>::empty(),
        opt_str(name, None) == Seq::<(Seq<char>, ParamView)>::empty(),
        opt_int(name, None) == Seq::<(Seq<char>, ParamView)>::empty(),
        opt_bool(name, None) == Seq::<(Seq<char>, ParamView)>::empty(),
        opt_str_list(name, None) == Seq::<(Seq<char>, ParamView)>::empty(),
        opt_object(name, None) == Seq::<(Seq<char>, ParamView)>::empty(),
        opt_object_list(name, None) == Seq::<(Seq<char>, ParamView)>::empty(),
        opt_pairs(name, None) == Seq::<(Seq<char>, ParamView)>::empty(),
{
}

/// A field that is set puts one entry on the wire, under its name.
pub proof fn lemma_set_puts_one_entry(name: Seq<char>, value: ParamView)
    ensures
        opt_value(name, Some(value)).len() == 1,
        opt_value(name, Some(value))[0] == (name, value),
{
}

impl ParamValue {
    /// A text value.
    pub fn text(s: &str) -> (r: ParamValue)
        ensures
            r@ == ParamView::Str(s@),
    {
        ParamValue::Str(owned(s))
    }

    /// A list of text values.
    pub fn text_list(items: &[&str]) -> (r: ParamValue)
        ensures
            r@ == str_list(items.deep_view()),
    {
        let mut out: Vec<ParamValue> = Vec::new();
        let mut i: usize = 0;
        while i < items.len()
            invariant
                i <= items.len(),
                out.len() == i,
                forall|j: int| 0 <= j < i ==> out[j]@ == ParamView::Str(items[j]@),
            decreases items.len() - i,
        {
            out.push(ParamValue::text(items[i]));
            i += 1;
        }
        let r = ParamValue::List(out);
        assert(r@->List_0 =~= str_list(items.deep_view())->List_0);
        r
    }

    /// A nested parameter set.
    pub fn object(p: Params) -> (r: ParamValue)
        ensures
            r@ == ParamView::Object(p@),
    {
        let ghost entries = p@;
        let r = ParamValue::Object(p);
        assert(r@->Object_0 =~= entries);
        r
    }

    /// A list of values.
    pub fn list(items: Vec<ParamValue>) -> (r: ParamValue)
        ensures
            r@ == ParamView::List(items@.map_values(|v: ParamValue| v@)),
    {
        let r = ParamValue::List(items);
        assert(r@->List_0 =~= items@.map_values(|v: ParamValue| v@));
        r
    }
}

impl Params {
    /// The empty parameter set.
    pub fn new() -> (r: Params)
        ensures
            r@ == Seq::<(Seq<char>, ParamView)>::empty(),
    {
        let r = Params { entries: Vec::new() };
        assert(r@ =~= Seq::empty());
        r
    }

    /// Adds an entry at the end.
    pub fn push(&mut self, name: &str, value: ParamValue)
        ensures
            final(self)@ == old(self)@.push((name@, value@)),
    {
        self.entries.push((owned(name), value));
        assert(self@ =~= old(self)@.push((name@, value@)));
    }

    /// Adds a field that is always there.
    pub fn push_value(&mut self, name: &str, value: ParamValue)
        ensures
            final(self)@ == old(self)@ + one(name@, value@),
    {
        self.push(name, value);
        assert(self@ =~= old(self)@ + one(name@, value@));
    }

    /// Adds a text field that is always there.
    pub fn push_str(&mut self, name: &str, value: &str)
        ensures
            final(self)@ == old(self)@ + one(name@, ParamView::Str(value@)),
    {
        self.push_value(name, ParamValue::text(value));
    }

    /// Adds an integer field that is always there.
    pub fn push_int(&mut self, name: &str, value: i64)
        ensures
            final(self)@ == old(self)@ + one(name@, ParamView::Int(value as int)),
    {
        self.push_value(name, ParamValue::Int(value));
    }

    /// Adds a nested parameter set that is always there.
    pub fn push_object(&mut self, name: &str, value: Params)
        ensures
            final(self)@ == old(self)@ + one(name@, ParamView::Object(value@)),
    {
        self.push_value(name, ParamValue::object(value));
    }

    /// Adds a field, if it is set.
    pub fn push_opt_value(&mut self, name: &str, value: Option<ParamValue>)
        ensures
            final(self)@ == old(self)@ + opt_value(name@, value.deep_view()),
    {
        if let Some(v) = value {
            self.push_value(name, v);
        } else {
            assert(self@ =~= old(self)@ + opt_value(name@, value.deep_view()));
        }
    }

    /// Adds pairs of texts as a nested parameter set, if they are set.
    pub fn push_opt_pairs(&mut self, name: &str, value: Option<&[(&str, &str)]>)
        ensures
            final(self)@ == old(self)@ + opt_pairs(name@, value.deep_view()),
    {
        if let Some(items) = value {
            let mut nested = Params::new();
            let mut i: usize = 0;
            while i < items.len()
                invariant
                    i <= items.len(),
                    nested@ == pairs(items.deep_view().subrange(0, i as int)),
                decreases items.len() - i,
            {
                nested.push(items[i].0, ParamValue::text(items[i].1));
                assert(nested@ =~= pairs(items.deep_view().subrange(0, i + 1)));
                i += 1;
            }
            assert(items.deep_view().subrange(0, i as int) =~= items.deep_view());
            self.push_object(name, nested);
        } else {
            assert(self@ =~= old(self)@ + opt_pairs(name@, value.deep_view()));
        }
    }

    /// Adds a text field, if it is set.
    pub fn push_opt_str(&mut self, name: &str, value: Option<&str>)
        ensures
            final(self)@ == old(self)@ + opt_str(name@, value.deep_view()),
    {
        if let Some(s) = value {
            self.push(name, ParamValue::text(s));
        }
        assert(self@ =~= old(self)@ + opt_str(name@, value.deep_view()));
    }

    /// Adds an integer field, if it is set.
    pub fn push_opt_int(&mut self, name: &str, value: Option<i64>)
        ensures
            final(self)@ == old(self)@ + opt_int(name@, value),
    {
        if let Some(i) = value {
            self.push(name, ParamValue::Int(i));
        }
        assert(self@ =~= old(self)@ + opt_int(name@, value));
    }

    /// Adds a boolean field, if it is set.
    pub fn push_opt_bool(&mut self, name: &str, value: Option<bool>)
        ensures
            final(self)@ == old(self)@ + opt_bool(name@, value),
    {
        if let Some(b) = value {
            self.push(name, ParamValue::Bool(b));
        }
        assert(self@ =~= old(self)@ + opt_bool(name@, value));
    }

    /// Adds a list of texts, if it is set.
    pub fn push_opt_str_list(&mut self, name: &str, value: Option<&[&str]>)
        ensures
            final(self)@ == old(self)@ + opt_str_list(name@, value.deep_view()),
    {
        if let Some(items) = value {
            self.push(name, ParamValue::text_list(items));
        }
        assert(self@ =~= old(self)@ + opt_str_list(name@, value.deep_view()));
    }

    /// Adds a nested parameter set, if there is one.
    pub fn push_opt_object(&mut self, name: &str, value: Option<Params>)
        ensures
            final(self)@ == old(self)@ + opt_object(name@, value.deep_view()),
    {
        if let Some(p) = value {
            self.push(name, ParamValue::object(p));
        }
        assert(self@ =~= old(self)@ + opt_object(name@, value.deep_view()));
    }
}

/// One call of the API: a method, a path and the parameters that go with it.
///
/// The parameters of a read travel in `query`, those of a write in `body`.
#[derive(Debug, PartialEq, Eq)]
pub struct RequestBuilder {
    pub method: StripeMethod,
    pub path: String,
    pub query: Option<Params>,
    pub body: Option<Params>,
}

/// What a [`RequestBuilder`] stands for.
pub struct RequestView {
    pub method: StripeMethod,
    pub path: Seq<char>,
    pub query: Option<ParamsView>,
    pub body: Option<ParamsView>,
}

impl View for RequestBuilder {
    type V = RequestView;

    open spec fn view(&self) -> RequestView {
        RequestView {
            method: self.method,
            path: self.path@,
            query: self.query.deep_view(),
            body: self.body.deep_view(),
        }
    }
}

impl RequestView {
    /// A request with a method and a path, and no parameters.
    pub open spec fn bare(method: StripeMethod, path: Seq<char>) -> RequestView {
        RequestView { method, path, query: None, body: None }
    }

    /// A read: the parameters travel in the query string.
    pub open spec fn with_query(
        method: StripeMethod,
        path: Seq<char>,
        params: ParamsView,
    ) -> RequestView {
        RequestView { method, path, query: Some(params), body: None }
    }

    /// A write: the parameters travel in the form body.
    pub open spec fn with_form(
        method: StripeMethod,
        path: Seq<char>,
        params: ParamsView,
    ) -> RequestView {
        RequestView { method, path, query: None, body: Some(params) }
    }
}

impl RequestBuilder {
    /// A request with no parameters.
    pub fn new(method: StripeMethod, path: String) -> (r: RequestBuilder)
        ensures
            r@ == RequestView::bare(method, path@),
    {
        RequestBuilder { method, path, query: None, body: None }
    }

    /// Sets the parameters of the query string.
    pub fn query(self, params: Params) -> (r: RequestBuilder)
        ensures
            r@ == (RequestView { query: Some(params@), ..self@ }),
    {
        RequestBuilder {
            method: self.method,
            path: self.path,
            query: Some(params),
            body: self.body,
        }
    }

    /// Sets the parameters of the form body.
    pub fn form(self, params: Params) -> (r: RequestBuilder)
        ensures
            r@ == (RequestView { body: Some(params@), ..self@ }),
    {
        RequestBuilder {
            method: self.method,
            path: self.path,
            query: self.query,
            body: Some(params),
        }
    }
}

/// Which envelope the pages of a listing come in.
#[derive(Copy, Clone, Debug, PartialEq, Eq, Structural)]
pub enum PageKind {
    /// A list, walked by the id of its last item.
    List,
    /// A search result, walked by the page token of the previous page.
    SearchList,
}

/// The start of a walk over the pages of a listing: where to ask, and with which parameters.
///
/// The walk itself belongs to the caller: it sends the request, reads the cursor of the
/// page that came back, and asks again with the cursor among the parameters.
#[derive(Debug, PartialEq, Eq)]
pub struct ListPaginator {
    pub kind: PageKind,
    pub url: String,
    pub params: Params,
}

/// What a [`ListPaginator`] stands for.
pub struct ListPaginatorView {
    pub kind: PageKind,
    pub url: Seq<char>,
    pub params: ParamsView,
}

impl View for ListPaginator {
    type V = ListPaginatorView;

    open spec fn view(&self) -> ListPaginatorView {
        ListPaginatorView { kind: self.kind, url: self.url@, params: self.params@ }
    }
}

impl ListPaginator {
    /// A walk over a list.
    pub fn new_list(url: String, params: Params) -> (r: ListPaginator)
        ensures
            r@ == (ListPaginatorView { kind: PageKind::List, url: url@, params: params@ }),
    {
        ListPaginator { kind: PageKind::List, url, params }
    }

    /// A walk over a search result.
    pub fn new_search_list(url: String, params: Params) -> (r: ListPaginator)
        ensures
            r@ == (ListPaginatorView { kind: PageKind::SearchList, url: url@, params: params@ }),
    {
        ListPaginator { kind: PageKind::SearchList, url, params }
    }
}

} // verus!
