//! Normalised pagination, sorting and search state of the person and group lists, and the query
//! strings that link from one view of a list to another.
use crate::form::{form_encoded, law_form_encoding_is_lossless, serialize_pairs, TextPair};
use crate::text::{decimal, decimal_text, digits_value, law_decimal_reads_back, same_text};
use vstd::prelude::*;
use vstd::string::*;

verus! {

/// Default number of rows per page in the person and group lists.
pub const DEFAULT_PER_PAGE: u64 = 100;

/// The largest number of rows per page.
pub const MAX_PER_PAGE: u64 = 1000;

/// Query parameters shared by the person and group list views.
#[derive(Clone, Debug)]
pub struct ListParams {
    pub q: Option<String>,
    pub page: Option<u64>,
    pub per_page: Option<u64>,
    pub sort: Option<String>,
    pub order: Option<String>,
}

/// The parameters as mathematical values.
pub struct ListParamsView {
    pub q: Option<Seq<char>>,
    pub page: Option<u64>,
    pub per_page: Option<u64>,
    pub sort: Option<Seq<char>>,
    pub order: Option<Seq<char>>,
}

impl View for ListParams {
    type V = ListParamsView;

    open spec fn view(&self) -> ListParamsView {
        ListParamsView {
            q: self.q.deep_view(),
            page: self.page,
            per_page: self.per_page,
            sort: self.sort.deep_view(),
            order: self.order.deep_view(),
        }
    }
}

/// Normalised pagination, sort and filter state. Its methods build the query strings for sort
/// headers and the pager while preserving the current search term, sort column and page size.
#[derive(Clone, Debug)]
pub struct Pagination {
    pub page: u64,
    pub per_page: u64,
    pub total: u64,
    pub q: String,
    pub sort: String,
    pub order: String,
}

/// The pagination state as mathematical values.
#[verifier::ext_equal]
pub struct PaginationView {
    pub page: int,
    pub per_page: int,
    pub total: int,
    pub q: Seq<char>,
    pub sort: Seq<char>,
    pub order: Seq<char>,
}

impl View for Pagination {
    type V = PaginationView;

    open spec fn view(&self) -> PaginationView {
        PaginationView {
            page: self.page as int,
            per_page: self.per_page as int,
            total: self.total as int,
            q: self.q@,
            sort: self.sort@,
            order: self.order@,
        }
    }
}

/// The state that parameters normalise to.
pub open spec fn normalised(params: ListParamsView, default_sort: Seq<char>) -> PaginationView {
    let per_page = match params.per_page {
        Some(n) => n as int,
        None => DEFAULT_PER_PAGE as int,
    };
    let page = match params.page {
        Some(n) => n as int,
        None => 1,
    };
    PaginationView {
        page: if page < 1 {
            1
        } else {
            page
        },
        per_page: if per_page < 1 {
            1
        } else if per_page > MAX_PER_PAGE {
            MAX_PER_PAGE as int
        } else {
            per_page
        },
        total: 0,
        q: match params.q {
            Some(q) => q,
            None => Seq::empty(),
        },
        sort: match params.sort {
            Some(s) => if s.len() > 0 {
                s
            } else {
                default_sort
            },
            None => default_sort,
        },
        order: if params.order == Some("desc"@) {
            "desc"@
        } else {
            "asc"@
        },
    }
}

impl PaginationView {
    /// What normalising establishes: a page number from one up, a page size within its limits
    /// and one of the two orders.
    pub open spec fn wf(self) -> bool {
        &&& 1 <= self.page <= u64::MAX
        &&& 1 <= self.per_page <= MAX_PER_PAGE
        &&& 0 <= self.total <= u64::MAX
        &&& self.order == "asc"@ || self.order == "desc"@
    }

    /// The 1-based number of the first row of the page.
    pub open spec fn start_index(self) -> int {
        (self.page - 1) * self.per_page + 1
    }

    /// The number of the last row of the page if the page is full.
    pub open spec fn full_end(self) -> int {
        self.page * self.per_page
    }

    /// The number of the last row of the page.
    pub open spec fn to_row(self) -> int {
        if self.full_end() < self.total {
            self.full_end()
        } else {
            self.total
        }
    }

    /// The number of pages, at least one.
    pub open spec fn total_pages(self) -> int {
        if self.total == 0 {
            1
        } else {
            (self.total - 1) / self.per_page + 1
        }
    }

    /// The order to request when the header of a column is clicked.
    pub open spec fn sort_next_order(self, col: Seq<char>) -> Seq<char> {
        if self.sort == col && self.order == "asc"@ {
            "desc"@
        } else {
            "asc"@
        }
    }

    /// The names and values of a link: the search term if there is one, then sort column, order,
    /// page size and page.
    pub open spec fn link_pairs(self, page: int, sort: Seq<char>, order: Seq<char>) -> Seq<
        TextPair,
    > {
        let rest = seq![
            ("sort"@, sort),
            ("order"@, order),
            ("per_page"@, decimal(self.per_page as nat)),
            ("page"@, decimal(page as nat)),
        ];
        if self.q.len() > 0 {
            seq![("q"@, self.q)] + rest
        } else {
            rest
        }
    }

    /// The query string of a link.
    pub open spec fn qs(self, page: int, sort: Seq<char>, order: Seq<char>) -> Seq<char> {
        seq!['?'] + form_encoded(self.link_pairs(page, sort, order))
    }

    /// The query string of the sort link in the header of a column.
    pub open spec fn sort_link(self, col: Seq<char>) -> Seq<char> {
        self.qs(1, col, self.sort_next_order(col))
    }

    /// The query string of the pager link to a page.
    pub open spec fn page_link(self, page: int) -> Seq<char> {
        self.qs(page, self.sort, self.order)
    }
}

impl Pagination {
    /// Builds normalised state from raw parameters and the default sort column.
    pub fn new(params: &ListParams, default_sort: &str) -> (r: Self)
        ensures
            r@ == normalised(params@, default_sort@),
            r@.wf(),
    {
        let wanted: u64 = match params.per_page {
            Some(n) => n,
            None => DEFAULT_PER_PAGE,
        };
        let per_page: u64 = if wanted < 1 {
            1
        } else if wanted > MAX_PER_PAGE {
            MAX_PER_PAGE
        } else {
            wanted
        };
        let page: u64 = match params.page {
            Some(n) => if n < 1 {
                1
            } else {
                n
            },
            None => 1,
        };
        let descending: bool = match &params.order {
            Some(o) => same_text(o.as_str(), "desc"),
            None => false,
        };
        let order: String = if descending {
            "desc".to_string()
        } else {
            "asc".to_string()
        };
        let sort: String = match &params.sort {
            Some(s) => if s.as_str().is_empty() {
                default_sort.to_string()
            } else {
                s.clone()
            },
            None => default_sort.to_string(),
        };
        let q: String = match &params.q {
            Some(q) => q.clone(),
            None => String::new(),
        };
        Pagination { page, per_page, total: 0, q, sort, order }
    }

    /// The 1-based index of the first row to fetch.
    pub fn start_index(&self) -> (r: u64)
        requires
            self.page >= 1,
            self@.start_index() <= u64::MAX,
        ensures
            r == self@.start_index(),
    {
        proof {
            vstd::arithmetic::mul::lemma_mul_nonnegative(self.page - 1, self.per_page as int);
        }
        (self.page - 1) * self.per_page + 1
    }

    /// The number of pages, at least one.
    pub fn total_pages(&self) -> (r: u64)
        requires
            self.per_page >= 1,
        ensures
            r == self@.total_pages(),
    {
        if self.total == 0 {
            1
        } else {
            let full: u64 = (self.total - 1) / self.per_page;
            assert(full <= self.total - 1) by (nonlinear_arith)
                requires
                    full == (self.total - 1) / self.per_page as int,
                    self.per_page >= 1,
                    self.total >= 1,
            ;
            full + 1
        }
    }

    /// Whether there is a page before this one.
    pub fn has_prev(&self) -> (r: bool)
        ensures
            r == (self.page > 1),
    {
        self.page > 1
    }

    /// Whether there is a page after this one.
    pub fn has_next(&self) -> (r: bool)
        requires
            self.per_page >= 1,
        ensures
            r == (self.page < self@.total_pages()),
    {
        self.page < self.total_pages()
    }

    /// The page before this one; the first page stays where it is.
    pub fn prev_page(&self) -> (r: u64)
        ensures
            r == (if self.page > 1 {
                self.page - 1
            } else {
                1
            }),
    {
        if self.page > 1 {
            self.page - 1
        } else {
            1
        }
    }

    /// The page after this one.
    pub fn next_page(&self) -> (r: u64)
        requires
            self.page < u64::MAX,
        ensures
            r == self.page + 1,
    {
        self.page + 1
    }

    /// The number of the first row shown, zero if there are no rows.
    pub fn from_row(&self) -> (r: u64)
        requires
            self.total > 0 ==> self.page >= 1 && self@.start_index() <= u64::MAX,
        ensures
            r == (if self.total == 0 {
                0
            } else {
                self@.start_index()
            }),
    {
        if self.total == 0 {
            0
        } else {
            self.start_index()
        }
    }

    /// The number of the last row shown.
    pub fn to_row(&self) -> (r: u64)
        requires
            self@.full_end() <= u64::MAX,
        ensures
            r == self@.to_row(),
    {
        proof {
            vstd::arithmetic::mul::lemma_mul_nonnegative(self.page as int, self.per_page as int);
        }
        let end: u64 = self.page * self.per_page;
        if end < self.total {
            end
        } else {
            self.total
        }
    }

    /// The order to request when a column header is clicked (toggles if already active).
    pub fn sort_next_order(&self, col: &str) -> (r: &'static str)
        ensures
            r@ == self@.sort_next_order(col@),
    {
        if same_text(self.sort.as_str(), col) && same_text(self.order.as_str(), "asc") {
            "desc"
        } else {
            "asc"
        }
    }

    /// The indicator behind the name of the active sort column.
    pub fn sort_indicator(&self, col: &str) -> (r: &'static str)
        ensures
            r@ == (if self.sort@ != col@ {
                ""@
            } else if self.order@ == "asc"@ {
                " \u{25B2}"@
            } else {
                " \u{25BC}"@
            }),
    {
        if !same_text(self.sort.as_str(), col) {
            ""
        } else if same_text(self.order.as_str(), "asc") {
            " \u{25B2}"
        } else {
            " \u{25BC}"
        }
    }

    /// The query string of a link to a page under a sort column and order.
    pub fn qs(&self, page: u64, sort: &str, order: &str) -> (r: String)
        ensures
            r@ == self@.qs(page as int, sort@, order@),
    {
        let mut pairs: Vec<(String, String)> = Vec::new();
        if !self.q.as_str().is_empty() {
            pairs.push(("q".to_string(), self.q.clone()));
        }
        pairs.push(("sort".to_string(), sort.to_string()));
        pairs.push(("order".to_string(), order.to_string()));
        pairs.push(("per_page".to_string(), decimal_text(self.per_page)));
        pairs.push(("page".to_string(), decimal_text(page)));
        assert(pairs.deep_view() =~= self@.link_pairs(page as int, sort@, order@));
        let mut out: String = "?".to_string();
        proof {
            reveal_strlit("?");
            assert("?"@ =~= seq!['?']);
        }
        out.append(serialize_pairs(&pairs).as_str());
        out
    }

    /// The query string of a column header's sort link (resets to page 1).
    pub fn sort_link(&self, col: &str) -> (r: String)
        ensures
            r@ == self@.sort_link(col@),
    {
        self.qs(1, col, self.sort_next_order(col))
    }

    /// The query string of a pager link to a specific page (keeps sort and search).
    pub fn page_link(&self, page: u64) -> (r: String)
        ensures
            r@ == self@.page_link(page as int),
    {
        self.qs(page, self.sort.as_str(), self.order.as_str())
    }

    /// The query string of the current view.
    pub fn current_qs(&self) -> (r: String)
        ensures
            r@ == self@.page_link(self@.page),
    {
        self.page_link(self.page)
    }
}

impl PaginationView {
    /// The same list seen at another page.
    pub open spec fn at(self, page: int) -> PaginationView {
        PaginationView { page, ..self }
    }

    /// Whether the page shows the row with this number.
    pub open spec fn shows(self, row: int) -> bool {
        self.start_index() <= row <= self.to_row()
    }

    /// The state behind the sort link of a column.
    pub open spec fn sorted_by(self, col: Seq<char>) -> PaginationView {
        PaginationView { page: 1, sort: col, order: self.sort_next_order(col), ..self }
    }
}

/// The value that a list of pairs gives to a name.
pub open spec fn pair_value(pairs: Seq<TextPair>, name: Seq<char>) -> Option<Seq<char>>
    decreases pairs.len(),
{
    if pairs.len() == 0 {
        None
    } else if pairs[0].0 == name {
        Some(pairs[0].1)
    } else {
        pair_value(pairs.drop_first(), name)
    }
}

/// Whether parameters are what a list of pairs carries, numbers being written in decimal.
pub open spec fn carried(params: ListParamsView, pairs: Seq<TextPair>) -> bool {
    &&& params.q == pair_value(pairs, "q"@)
    &&& params.sort == pair_value(pairs, "sort"@)
    &&& params.order == pair_value(pairs, "order"@)
    &&& match pair_value(pairs, "page"@) {
        Some(text) => params.page is Some && params.page->0 == digits_value(text),
        None => params.page is None,
    }
    &&& match pair_value(pairs, "per_page"@) {
        Some(text) => params.per_page is Some && params.per_page->0 == digits_value(text),
        None => params.per_page is None,
    }
}

/// The page of a row number.
proof fn lemma_page_of_row(p: PaginationView, row: int) -> (n: int)
    requires
        p.per_page >= 1,
        1 <= row <= p.total,
    ensures
        1 <= n <= p.total_pages(),
        p.at(n).shows(row),
{
    let k = p.per_page;
    let n = (row - 1) / k + 1;
    vstd::arithmetic::div_mod::lemma_fundamental_div_mod(row - 1, k);
    vstd::arithmetic::div_mod::lemma_mod_bound(row - 1, k);
    vstd::arithmetic::div_mod::lemma_div_is_ordered(row - 1, p.total - 1, k);
    vstd::arithmetic::div_mod::lemma_div_pos_is_pos(row - 1, k);
    assert((n - 1) * k == k * (n - 1)) by (nonlinear_arith);
    assert(n * k == (n - 1) * k + k) by (nonlinear_arith);
    n
}

/// Every row of a list is shown on one page of its pager, and on no other.
pub proof fn law_each_row_on_one_page(p: PaginationView, row: int)
    requires
        p.wf(),
        1 <= row <= p.total,
    ensures
        exists|n: int| 1 <= n <= p.total_pages() && #[trigger] p.at(n).shows(row),
        forall|m: int, n: int|
            #[trigger] p.at(m).shows(row) && #[trigger] p.at(n).shows(row) ==> m == n,
{
    let n = lemma_page_of_row(p, row);
    assert forall|m: int, n: int|
        #[trigger] p.at(m).shows(row) && #[trigger] p.at(n).shows(row) implies m == n by {
        let k = p.per_page;
        if m < n {
            assert(m * k <= (n - 1) * k) by (nonlinear_arith)
                requires
                    m <= n - 1,
                    k >= 1,
            ;
        } else if n < m {
            assert(n * k <= (m - 1) * k) by (nonlinear_arith)
                requires
                    n <= m - 1,
                    k >= 1,
            ;
        }
    }
}

/// In a list with rows, the pages that show a row are those from the first to the last that the
/// pager counts.
pub proof fn law_pages_that_show_rows(p: PaginationView, n: int)
    requires
        p.wf(),
        p.total >= 1,
        n >= 1,
    ensures
        (exists|row: int| #[trigger] p.at(n).shows(row)) <==> n <= p.total_pages(),
{
    let k = p.per_page;
    let last = p.total_pages();
    vstd::arithmetic::div_mod::lemma_fundamental_div_mod(p.total - 1, k);
    vstd::arithmetic::div_mod::lemma_mod_bound(p.total - 1, k);
    assert((last - 1) * k == k * (last - 1)) by (nonlinear_arith);
    assert(last * k == (last - 1) * k + k) by (nonlinear_arith);
    if n <= last {
        assert((n - 1) * k <= (last - 1) * k) by (nonlinear_arith)
            requires
                n <= last,
                k >= 1,
        ;
        assert(n * k == (n - 1) * k + k) by (nonlinear_arith);
        assert(p.at(n).shows(p.at(n).start_index()));
    } else {
        assert((n - 1) * k >= last * k) by (nonlinear_arith)
            requires
                n - 1 >= last,
                k >= 1,
        ;
    }
}

/// Following the sort link of a column and then the same column's link again reverses the order,
/// and either link goes to the first page and keeps search term and page size.
pub proof fn law_sort_links_toggle(p: PaginationView, col: Seq<char>)
    requires
        p.wf(),
    ensures
        p.sorted_by(col).wf(),
        p.sorted_by(col).sorted_by(col).order != p.sorted_by(col).order,
        p.sorted_by(col).sorted_by(col).sorted_by(col) == p.sorted_by(col),
        p.sort_link(col) == p.sorted_by(col).page_link(1),
        p.sorted_by(col).page == 1,
        p.sorted_by(col).q == p.q,
        p.sorted_by(col).per_page == p.per_page,
{
    reveal_strlit("asc");
    reveal_strlit("desc");
    assert("asc"@.len() != "desc"@.len());
}

/// A link says which search term, sort column, order, page size and page it leads to: links that
/// are the same text lead to the same view.
pub proof fn law_links_tell_views_apart(a: PaginationView, b: PaginationView, m: int, n: int)
    requires
        a.wf(),
        b.wf(),
        m >= 0,
        n >= 0,
        a.page_link(m) == b.page_link(n),
    ensures
        a.q == b.q,
        a.sort == b.sort,
        a.order == b.order,
        a.per_page == b.per_page,
        m == n,
{
    let x = a.link_pairs(m, a.sort, a.order);
    let y = b.link_pairs(n, b.sort, b.order);
    assert(form_encoded(x) =~= a.page_link(m).skip(1));
    assert(form_encoded(y) =~= b.page_link(n).skip(1));
    law_form_encoding_is_lossless(x, y);
    assert(x.len() == y.len());
    law_decimal_reads_back(a.per_page as nat);
    law_decimal_reads_back(b.per_page as nat);
    law_decimal_reads_back(m as nat);
    law_decimal_reads_back(n as nat);
    let i: int = if a.q.len() > 0 {
        1
    } else {
        0
    };
    assert(x[i] == y[i] && x[i + 1] == y[i + 1] && x[i + 2] == y[i + 2] && x[i + 3] == y[i + 3]);
    if a.q.len() > 0 {
        assert(x[0] == y[0]);
    } else {
        assert(a.q =~= b.q);
    }
}

/// The query string of the current view restores it: normalising the parameters that it carries
/// gives the same state again, with the rows not counted yet.
pub proof fn law_current_query_restores_view(
    p: PaginationView,
    params: ListParamsView,
    default_sort: Seq<char>,
)
    requires
        p.wf(),
        p.sort.len() > 0,
        carried(params, p.link_pairs(p.page, p.sort, p.order)),
    ensures
        normalised(params, default_sort) == (PaginationView { total: 0, ..p }),
{
    reveal_strlit("q");
    reveal_strlit("sort");
    reveal_strlit("order");
    reveal_strlit("page");
    reveal_strlit("per_page");
    reveal_strlit("asc");
    reveal_strlit("desc");
    assert("q"@.len() == 1 && "sort"@.len() == 4 && "order"@.len() == 5 && "page"@.len() == 4
        && "per_page"@.len() == 8);
    assert("sort"@[0] != "page"@[0]);
    assert("asc"@.len() != "desc"@.len());
    law_decimal_reads_back(p.page as nat);
    law_decimal_reads_back(p.per_page as nat);
    let pairs = p.link_pairs(p.page, p.sort, p.order);
    let rest = seq![
        ("sort"@, p.sort),
        ("order"@, p.order),
        ("per_page"@, decimal(p.per_page as nat)),
        ("page"@, decimal(p.page as nat)),
    ];
    assert(p.q.len() > 0 ==> pairs.drop_first() =~= rest);
    reveal_with_fuel(pair_value, 6);
    assert(normalised(params, default_sort) =~= (PaginationView { total: 0, ..p }));
}

/// Parameters within their limits are taken as they are, and others are brought to the nearest
/// limit; what is missing or blank takes its default.
pub proof fn law_parameters_are_kept_within_limits(params: ListParamsView, default_sort: Seq<char>)
    ensures
        ({
            let p = normalised(params, default_sort);
            &&& p.page >= 1 && 1 <= p.per_page <= 1000
            &&& params.page is Some && params.page->0 >= 1 ==> p.page == params.page->0
            &&& params.page is None || params.page->0 < 1 ==> p.page == 1
            &&& params.per_page is Some && 1 <= params.per_page->0 <= 1000 ==> p.per_page
                == params.per_page->0
            &&& params.per_page is Some && params.per_page->0 > 1000 ==> p.per_page == 1000
            &&& params.per_page is Some && params.per_page->0 < 1 ==> p.per_page == 1
            &&& params.per_page is None ==> p.per_page == 100
            &&& params.q is Some ==> p.q == params.q->0
            &&& params.q is None ==> p.q.len() == 0
            &&& params.sort is Some && params.sort->0.len() > 0 ==> p.sort == params.sort->0
            &&& params.sort is None || params.sort->0.len() == 0 ==> p.sort == default_sort
            &&& p.order == "desc"@ <==> params.order is Some && params.order->0 == "desc"@
            &&& p.order == "asc"@ || p.order == "desc"@
            &&& p.total == 0
        }),
{
    reveal_strlit("asc");
    reveal_strlit("desc");
    assert("asc"@.len() != "desc"@.len());
}

/// The first page starts with the first row, each page starts behind the end of the page before it,
/// a full page has as many rows as the page size says, and no page ends behind the last row.
pub proof fn law_pages_follow_one_another(p: PaginationView, n: int)
    requires
        p.wf(),
        n >= 1,
    ensures
        p.at(1).start_index() == 1,
        p.at(n + 1).start_index() == p.at(n).full_end() + 1,
        p.at(n).full_end() - p.at(n).start_index() + 1 == p.per_page,
        p.at(n).to_row() <= p.total,
        p.at(n).to_row() <= p.at(n).full_end(),
        p.at(n).to_row() == p.total || p.at(n).to_row() == p.at(n).full_end(),
{
    let k = p.per_page;
    assert(0 * k == 0);
    assert(n * k == (n - 1) * k + k) by (nonlinear_arith);
}

/// There are as many pages as the rows need and at least one: the rows fill all pages but the last.
pub proof fn law_pages_are_as_many_as_rows_need(p: PaginationView)
    requires
        p.wf(),
    ensures
        p.total_pages() >= 1,
        p.total_pages() * p.per_page >= p.total,
        p.total_pages() > 1 ==> (p.total_pages() - 1) * p.per_page < p.total,
{
    if p.total > 0 {
        let k = p.per_page;
        let n = p.total_pages();
        vstd::arithmetic::div_mod::lemma_fundamental_div_mod(p.total - 1, k);
        vstd::arithmetic::div_mod::lemma_mod_bound(p.total - 1, k);
        vstd::arithmetic::div_mod::lemma_div_pos_is_pos(p.total - 1, k);
        assert((n - 1) * k == k * (n - 1)) by (nonlinear_arith);
        assert(n * k == (n - 1) * k + k) by (nonlinear_arith);
    } else {
        assert(1 * p.per_page == p.per_page);
    }
}

/// The header of a column sorts by that column: in the other order if the list is sorted by it
/// already, and ascending otherwise.
pub proof fn law_headers_sort_by_their_column(p: PaginationView, col: Seq<char>)
    requires
        p.wf(),
    ensures
        p.sorted_by(col).sort == col,
        col != p.sort ==> p.sort_next_order(col) == "asc"@,
        col == p.sort ==> p.sort_next_order(col) != p.order,
        p.sort_next_order(col) == "asc"@ || p.sort_next_order(col) == "desc"@,
        p.sorted_by(col).order == p.sort_next_order(col),
{
    reveal_strlit("asc");
    reveal_strlit("desc");
    assert("asc"@.len() != "desc"@.len());
}

} // verus!
