//! Output options: the locale, pagination, field selection and cache
//! settings of a request, and the filter that turns them into query
//! parameters for one endpoint.

use crate::locale::Locale;
use crate::text::{bool_string, bool_text, decimal, decimal_string, same_text};
use crate::types::{Pair, Params};
use vstd::prelude::*;

verus! {

/// The output options of a request. Each is optional.
///
/// An endpoint takes from these only the options that it supports: the
/// others are dropped without an error when its request is built. The
/// locale never becomes a query parameter: it selects the host.
#[derive(Debug, Clone, PartialEq, Eq)]
pub struct Output {
    /// The locale of the request.
    pub locale: Option<Locale>,
    /// The page number.
    pub page: Option<u32>,
    /// The number of items per page.
    pub page_size: Option<u32>,
    /// The fields to return, joined by commas.
    pub fields: Option<String>,
    /// Whether to bypass the server's cache.
    pub nocache: Option<bool>,
}

/// The names that a whitelist holds.
pub open spec fn name_set(names: Seq<&str>) -> Set<Seq<char>> {
    Set::new(|name: Seq<char>| exists|i: int| 0 <= i < names.len() && (#[trigger] names[i])@ == name)
}

/// The pair of one option: present if the option is set and its name is
/// allowed, absent otherwise.
pub open spec fn option_pairs(
    name: Seq<char>,
    value: Option<Seq<char>>,
    allowed: Set<Seq<char>>,
) -> Seq<Pair> {
    match value {
        Some(v) => if allowed.contains(name) {
            seq![(name, v)]
        } else {
            Seq::empty()
        },
        None => Seq::empty(),
    }
}

/// Whether `names` holds `name`.
pub fn allows(names: &[&str], name: &str) -> (found: bool)
    ensures
        found == name_set(names@).contains(name@),
{
    let mut i: usize = 0;
    while i < names.len()
        invariant
            i <= names.len(),
            forall|j: int| 0 <= j < i ==> (#[trigger] names@[j])@ != name@,
        decreases names.len() - i,
    {
        if same_text(names[i], name) {
            return true;
        }
        i += 1;
    }
    false
}

impl Output {
    /// The text of the page number, if set.
    pub open spec fn page_text(&self) -> Option<Seq<char>> {
        match self.page {
            Some(n) => Some(decimal(n as nat)),
            None => None,
        }
    }

    /// The text of the page size, if set.
    pub open spec fn page_size_text(&self) -> Option<Seq<char>> {
        match self.page_size {
            Some(n) => Some(decimal(n as nat)),
            None => None,
        }
    }

    /// The field list, if set.
    pub open spec fn fields_text(&self) -> Option<Seq<char>> {
        match self.fields {
            Some(f) => Some(f@),
            None => None,
        }
    }

    /// The text of the cache setting, if set: `true` or `false`.
    pub open spec fn nocache_text(&self) -> Option<Seq<char>> {
        match self.nocache {
            Some(b) => Some(bool_text(b)),
            None => None,
        }
    }

    /// The query parameters of these options under a whitelist: one pair for
    /// each option that is set and allowed, in the order `page`,
    /// `page_size`, `fields`, `nocache`.
    pub open spec fn filtered(&self, allowed: Set<Seq<char>>) -> Seq<Pair> {
        option_pairs("page"@, self.page_text(), allowed) + option_pairs(
            "page_size"@,
            self.page_size_text(),
            allowed,
        ) + option_pairs("fields"@, self.fields_text(), allowed) + option_pairs(
            "nocache"@,
            self.nocache_text(),
            allowed,
        )
    }

    /// No option set.
    pub fn new() -> (output: Output)
        ensures
            output.locale is None,
            output.page is None,
            output.page_size is None,
            output.fields is None,
            output.nocache is None,
    {
        Output { locale: None, page: None, page_size: None, fields: None, nocache: None }
    }

    /// Sets the locale.
    pub fn locale(self, value: Locale) -> (output: Output)
        ensures
            output.locale == Some(value),
            output.page == self.page,
            output.page_size == self.page_size,
            output.fields == self.fields,
            output.nocache == self.nocache,
    {
        let mut output = self;
        output.locale = Some(value);
        output
    }

    /// Sets the page number.
    pub fn page(self, value: u32) -> (output: Output)
        ensures
            output.locale == self.locale,
            output.page == Some(value),
            output.page_size == self.page_size,
            output.fields == self.fields,
            output.nocache == self.nocache,
    {
        let mut output = self;
        output.page = Some(value);
        output
    }

    /// Sets the page number and the number of items per page.
    pub fn pagination(self, page: u32, page_size: u32) -> (output: Output)
        ensures
            output.locale == self.locale,
            output.page == Some(page),
            output.page_size == Some(page_size),
            output.fields == self.fields,
            output.nocache == self.nocache,
    {
        let mut output = self;
        output.page = Some(page);
        output.page_size = Some(page_size);
        output
    }

    /// Sets the fields to return: a list of field names joined by commas.
    pub fn fields(self, fields: &str) -> (output: Output)
        ensures
            output.locale == self.locale,
            output.page == self.page,
            output.page_size == self.page_size,
            output.fields_text() == Some(fields@),
            output.nocache == self.nocache,
    {
        let mut output = self;
        output.fields = Some(String::from_str(fields));
        output
    }

    /// Sets whether to bypass the server's cache.
    pub fn nocache(self, value: bool) -> (output: Output)
        ensures
            output.locale == self.locale,
            output.page == self.page,
            output.page_size == self.page_size,
            output.fields == self.fields,
            output.nocache == Some(value),
    {
        let mut output = self;
        output.nocache = Some(value);
        output
    }

    /// The query parameters of these options for an endpoint that supports
    /// the options named in `names`. Options that are not set, or not
    /// named, give no pair.
    pub fn params(&self, names: &[&str]) -> (params: Params)
        ensures
            params.deep_view() == self.filtered(name_set(names@)),
    {
        let mut params: Params = Vec::new();
        match self.page {
            Some(page) => {
                if allows(names, "page") {
                    params.push((String::from_str("page"), decimal_string(page)));
                }
            },
            None => {},
        }
        match self.page_size {
            Some(page_size) => {
                if allows(names, "page_size") {
                    params.push((String::from_str("page_size"), decimal_string(page_size)));
                }
            },
            None => {},
        }
        match &self.fields {
            Some(fields) => {
                if allows(names, "fields") {
                    params.push((String::from_str("fields"), fields.clone()));
                }
            },
            None => {},
        }
        match self.nocache {
            Some(nocache) => {
                if allows(names, "nocache") {
                    params.push((String::from_str("nocache"), bool_string(nocache)));
                }
            },
            None => {},
        }
        params
    }
}

/// The filter lets through nothing that the whitelist does not name: every
/// pair of the result carries an allowed name, and that name is one of the
/// four options. The locale gives no pair under any whitelist.
pub proof fn lemma_filtered_within_whitelist(output: Output, allowed: Set<Seq<char>>, i: int)
    requires
        0 <= i < output.filtered(allowed).len(),
    ensures
        allowed.contains(output.filtered(allowed)[i].0),
        output.filtered(allowed)[i].0 == "page"@ || output.filtered(allowed)[i].0 == "page_size"@
            || output.filtered(allowed)[i].0 == "fields"@ || output.filtered(allowed)[i].0
            == "nocache"@,
{
}

/// An option that the whitelist does not name gives no pair, whether it is
/// set or not.
pub proof fn lemma_filtered_omits(output: Output, allowed: Set<Seq<char>>, name: Seq<char>, i: int)
    requires
        !allowed.contains(name),
        0 <= i < output.filtered(allowed).len(),
    ensures
        output.filtered(allowed)[i].0 != name,
{
    lemma_filtered_within_whitelist(output, allowed, i);
}

/// With no option set the filter gives no pair.
pub proof fn lemma_filtered_unset(output: Output, allowed: Set<Seq<char>>)
    requires
        output.page is None,
        output.page_size is None,
        output.fields is None,
        output.nocache is None,
    ensures
        output.filtered(allowed) == Seq::<Pair>::empty(),
{
}

} // verus!
