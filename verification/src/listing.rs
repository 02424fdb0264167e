//! Lists of entries with what the viewer may do with each, and their pages.
use crate::entry::Access;
use crate::pagination::{normalised, ListParams, Pagination, PaginationView};
use crate::reply::{
    refusal, require_token, FailureStyle, Location, LocationView, OperationError, Page, Reply,
    ReplyView,
};
use vstd::prelude::*;
use vstd::string::*;

verus! {

/// A search result: the access rights that came with the entry, and the entry itself if it reads
/// as what was searched for.
#[derive(Debug)]
pub struct Record<T> {
    pub access: Option<Access>,
    pub parsed: Option<T>,
}

/// The entry and its access rights, if the record has both.
pub open spec fn record_info<T>(record: Record<T>) -> Option<(T, Access)> {
    match (record.parsed, record.access) {
        (Some(t), Some(a)) => Some((t, a)),
        _ => None,
    }
}

/// The entries and access rights of the records that have both, in order.
pub open spec fn record_infos<T>(records: Seq<Record<T>>) -> Seq<(T, Access)>
    decreases records.len(),
{
    if records.len() == 0 {
        Seq::empty()
    } else {
        let before = record_infos(records.drop_last());
        match record_info(records.last()) {
            Some(info) => before.push(info),
            None => before,
        }
    }
}

/// The entry and its access rights, if the record has both.
pub fn scimentry_into_info<T>(record: Record<T>) -> (r: Option<(T, Access)>)
    ensures
        r == record_info(record),
{
    match (record.parsed, record.access) {
        (Some(t), Some(a)) => Some((t, a)),
        _ => None,
    }
}

/// The entry and its access rights, or why there are none: the error of the server, or a record
/// that lacks one of them.
pub open spec fn read_info<T, E>(read: Result<Record<T>, E>) -> Result<
    (T, Access),
    OperationError<E>,
> {
    match read {
        Ok(record) => match record_info(record) {
            Some(info) => Ok(info),
            None => Err(OperationError::InvalidState),
        },
        Err(e) => Err(OperationError::Server(e)),
    }
}

/// The entry and its access rights from the answer to a read.
pub fn info_from_read<T, E>(read: Result<Record<T>, E>) -> (r: Result<
    (T, Access),
    OperationError<E>,
>)
    ensures
        r == read_info(read),
{
    match read {
        Ok(record) => match scimentry_into_info(record) {
            Some(info) => Ok(info),
            None => Err(OperationError::InvalidState),
        },
        Err(e) => Err(OperationError::Server(e)),
    }
}

/// The entries and access rights of the records that have both.
pub fn collect_infos<T>(records: Vec<Record<T>>) -> (r: Vec<(T, Access)>)
    ensures
        r@ == record_infos(records@),
{
    let ghost all = records@;
    let mut out: Vec<(T, Access)> = Vec::new();
    assert(all.take(0) =~= Seq::<Record<T>>::empty());
    for record in it: records
        invariant
            it.seq() == all,
            out@ == record_infos(all.take(it.index() as int)),
    {
        assert(all.take(it.index() + 1).drop_last() =~= all.take(it.index() as int));
        match scimentry_into_info(record) {
            Some(info) => out.push(info),
            None => {},
        }
    }
    assert(all.take(all.len() as int) =~= all);
    out
}

/// A list as a page of the site shows it.
#[derive(Debug)]
pub struct ListPartial<T, L> {
    /// The rows of the page, each with what the viewer may do with it.
    pub rows: Vec<(T, Access)>,
    /// Whether the viewer may delete one of the rows, which goes together with creating more.
    pub can_create: bool,
    /// What the token of the viewer says of the lock on their privileges, as far as the list shows
    /// it.
    pub lock: L,
    /// The state of the pager.
    pub pager: Pagination,
}

/// Whether the viewer may delete one of some rows.
pub open spec fn any_deletable<T>(rows: Seq<(T, Access)>) -> bool {
    exists|i: int| 0 <= i < rows.len() && (#[trigger] rows[i]).1.delete
}

/// What a list answers: an error of its search, else an error page for a viewer without a token,
/// else the page, whose address is the path with the query string of the current view.
pub open spec fn listed<T, L, E>(
    path: Seq<char>,
    is_htmx: bool,
    info: Result<(Vec<(T, Access)>, u64), OperationError<E>>,
    pager: PaginationView,
    token: Result<L, E>,
    r: Result<Page<ListPartial<T, L>>, Reply<E>>,
) -> bool {
    match (info, token) {
        (Err(e), _) => r is Err && r->Err_0@ == ReplyView::WebError(e),
        (Ok(_), Err(e)) => r is Err && r->Err_0@ == refusal(FailureStyle::Page, e),
        (Ok((rows, total)), Ok(lock)) => {
            &&& r is Ok
            &&& r->Ok_0.push_url@ == LocationView::Path(path + pager.page_link(pager.page))
            &&& r->Ok_0.whole == !is_htmx
            &&& r->Ok_0.partial.rows == rows
            &&& r->Ok_0.partial.can_create == any_deletable(rows@)
            &&& r->Ok_0.partial.lock == lock
            &&& r->Ok_0.partial.pager@ == (PaginationView { total: total as int, ..pager })
        },
    }
}

/// The answer to the request for a list.
pub fn list_page<T, L, E>(
    path: &str,
    is_htmx: bool,
    info: Result<(Vec<(T, Access)>, u64), OperationError<E>>,
    pager: Pagination,
    token: Result<L, E>,
) -> (r: Result<Page<ListPartial<T, L>>, Reply<E>>)
    ensures
        listed(path@, is_htmx, info, pager@, token, r),
{
    let (rows, total) = match info {
        Ok(found) => found,
        Err(e) => {
            return Err(Reply::WebError(e));
        },
    };
    let mut url: String = path.to_string();
    url.append(pager.current_qs().as_str());
    let mut can_create: bool = false;
    let mut i: usize = 0;
    while i < rows.len()
        invariant
            i <= rows@.len(),
            can_create == (exists|k: int| 0 <= k < i && (#[trigger] rows@[k]).1.delete),
        decreases rows@.len() - i,
    {
        if rows[i].1.delete {
            can_create = true;
        }
        i += 1;
    }
    let lock: L = match require_token(token) {
        Ok(lock) => lock,
        Err(reply) => {
            return Err(reply);
        },
    };
    let counted = Pagination { total, ..pager };
    Ok(
        Page {
            push_url: Location::Path(url),
            whole: !is_htmx,
            partial: ListPartial { rows, can_create, lock, pager: counted },
        },
    )
}

/// The state of the pager of a list, whose rows are sorted by name unless the parameters say
/// otherwise.
pub fn list_pager(params: &ListParams) -> (r: Pagination)
    ensures
        r@ == normalised(params@, "name"@),
        r@.wf(),
{
    Pagination::new(params, "name")
}

/// The rows of a page, where pages are cut from a list in order.
pub open spec fn page_slice<T>(s: Seq<T>, page: int, per_page: int) -> Seq<T> {
    let start = (page - 1) * per_page;
    if start >= s.len() {
        Seq::empty()
    } else if start + per_page >= s.len() {
        s.skip(start)
    } else {
        s.subrange(start, start + per_page)
    }
}

/// Cuts the rows of a page from a list.
pub fn cut_page<T>(rows: Vec<T>, page: u64, per_page: u64) -> (r: Vec<T>)
    requires
        page >= 1,
        (page - 1) * per_page <= u64::MAX,
    ensures
        r@ == page_slice(rows@, page as int, per_page as int),
{
    proof {
        vstd::arithmetic::mul::lemma_mul_nonnegative(page - 1, per_page as int);
    }
    let start: u64 = (page - 1) * per_page;
    let mut rest: Vec<T> = rows;
    if start >= rest.len() as u64 {
        return Vec::new();
    }
    let mut out: Vec<T> = rest.split_off(start as usize);
    assert(out@ =~= rows@.skip(start as int));
    if per_page < out.len() as u64 {
        out.truncate(per_page as usize);
        assert(out@ =~= rows@.subrange(start as int, start + per_page));
    }
    out
}

/// The rows of the first `n` pages, one after the other.
pub open spec fn first_pages<T>(s: Seq<T>, n: nat, per_page: int) -> Seq<T>
    decreases n,
{
    if n == 0 {
        Seq::empty()
    } else {
        first_pages(s, (n - 1) as nat, per_page) + page_slice(s, n as int, per_page)
    }
}

proof fn lemma_first_pages<T>(s: Seq<T>, n: nat, per_page: int)
    requires
        per_page >= 1,
    ensures
        first_pages(s, n, per_page) == (if n * per_page >= s.len() {
            s
        } else {
            s.take(n * per_page)
        }),
    decreases n,
{
    if n == 0 {
        assert(0 * per_page == 0);
        assert(s.take(0) =~= Seq::<T>::empty());
        if s.len() == 0 {
            assert(s =~= Seq::<T>::empty());
        }
    } else {
        let k = (n - 1) as nat;
        lemma_first_pages(s, k, per_page);
        assert(n * per_page == k * per_page + per_page) by (nonlinear_arith)
            requires
                n == k + 1,
        ;
        assert(k * per_page >= 0) by (nonlinear_arith)
            requires
                per_page >= 1,
        ;
        if k * per_page >= s.len() {
            assert(s + Seq::<T>::empty() =~= s);
        } else if n * per_page >= s.len() {
            assert(s.take(k * per_page) + s.skip(k * per_page) =~= s);
        } else {
            assert(s.take(k * per_page) + s.subrange(k * per_page, n * per_page) =~= s.take(
                n * per_page,
            ));
        }
    }
}

/// Cutting a list into pages neither loses nor repeats a row: the pages up to the last one that
/// the pager counts are, one after the other, the list.
pub proof fn law_pages_make_up_the_list<T>(s: Seq<T>, p: PaginationView)
    requires
        p.wf(),
        p.total == s.len(),
    ensures
        first_pages(s, p.total_pages() as nat, p.per_page) == s,
{
    let n = p.total_pages();
    if p.total > 0 {
        vstd::arithmetic::div_mod::lemma_fundamental_div_mod(p.total - 1, p.per_page);
        vstd::arithmetic::div_mod::lemma_mod_bound(p.total - 1, p.per_page);
        vstd::arithmetic::div_mod::lemma_div_pos_is_pos(p.total - 1, p.per_page);
        assert(n * p.per_page == p.per_page * (n - 1) + p.per_page) by (nonlinear_arith);
    }
    lemma_first_pages(s, n as nat, p.per_page);
}

/// The rows of some search results are the entries that read as what was searched for and came with
/// access rights: the rows of results one after the other are the rows of the first and then those
/// of the others, and a result with both has one row, one without either has none.
pub proof fn law_rows_of_results<T>(a: Seq<Record<T>>, b: Seq<Record<T>>, r: Record<T>)
    ensures
        record_infos(a + b) == record_infos(a) + record_infos(b),
        r.parsed is Some && r.access is Some ==> record_infos(seq![r]) == seq![
            (r.parsed->0, r.access->0),
        ],
        r.parsed is None || r.access is None ==> record_infos(seq![r]) == Seq::<
            (T, Access),
        >::empty(),
    decreases b.len(),
{
    reveal_with_fuel(record_infos, 2);
    assert(seq![r].drop_last() =~= Seq::<Record<T>>::empty());
    if r.parsed is Some && r.access is Some {
        assert(record_infos(seq![r]) =~= seq![(r.parsed->0, r.access->0)]);
    }
    if b.len() > 0 {
        law_rows_of_results(a, b.drop_last(), r);
        assert((a + b).drop_last() =~= a + b.drop_last());
        assert(record_infos(a + b) =~= record_infos(a) + record_infos(b));
    } else {
        assert(a + b =~= a);
        assert(record_infos(a + b) =~= record_infos(a) + record_infos(b));
    }
}

/// A read gives an entry with its access rights exactly if it came with both; an error of the
/// server stays that error, and an answer that lacks one of them is an invalid state.
pub proof fn law_reads_need_entry_and_access<T, E>(record: Record<T>, error: E)
    ensures
        match read_info(Ok::<Record<T>, E>(record)) {
            Ok(info) => record.parsed == Some(info.0) && record.access == Some(info.1),
            Err(e) => e == OperationError::<E>::InvalidState && (record.parsed is None
                || record.access is None),
        },
        read_info(Err::<Record<T>, E>(error)) == Err::<(T, Access), OperationError<E>>(
            OperationError::Server(error),
        ),
{
}

/// A list offers to create more rows exactly if one of its rows can be deleted.
pub proof fn law_one_deletable_row_is_enough<T>(
    a: Seq<(T, Access)>,
    b: Seq<(T, Access)>,
    row: (T, Access),
)
    ensures
        any_deletable(a + b) <==> any_deletable(a) || any_deletable(b),
        any_deletable(seq![row]) <==> row.1.delete,
        !any_deletable(Seq::<(T, Access)>::empty()),
{
    let s = a + b;
    if any_deletable(a) {
        let i = choose|i: int| 0 <= i < a.len() && (#[trigger] a[i]).1.delete;
        assert(s[i] == a[i]);
    }
    if any_deletable(b) {
        let i = choose|i: int| 0 <= i < b.len() && (#[trigger] b[i]).1.delete;
        assert(s[a.len() + i] == b[i]);
    }
    if any_deletable(s) {
        let i = choose|i: int| 0 <= i < s.len() && (#[trigger] s[i]).1.delete;
        if i < a.len() {
            assert(a[i] == s[i]);
        } else {
            assert(b[i - a.len()] == s[i]);
        }
    }
    assert(row.1.delete ==> seq![row][0].1.delete);
}

/// The page that the pager describes as showing the rows from one number to another holds exactly
/// those rows of the list, in order.
pub proof fn law_page_holds_the_rows_it_names<T>(s: Seq<T>, p: PaginationView)
    requires
        p.wf(),
        p.total == s.len(),
    ensures
        p.start_index() <= p.total ==> page_slice(s, p.page, p.per_page).len() == p.to_row()
            - p.start_index() + 1,
        p.start_index() > p.total ==> page_slice(s, p.page, p.per_page).len() == 0,
        forall|i: int|
            0 <= i < page_slice(s, p.page, p.per_page).len() ==> #[trigger] page_slice(
                s,
                p.page,
                p.per_page,
            )[i] == s[p.start_index() - 1 + i],
{
    let k = p.per_page;
    vstd::arithmetic::mul::lemma_mul_nonnegative(p.page - 1, k);
    assert(p.page * k == (p.page - 1) * k + k) by (nonlinear_arith)
        requires
            k == p.per_page,
    ;
}

/// A list is answered with its page exactly if its search succeeded and the viewer has a token. The
/// page holds the rows that were found and counts them as the search does; the browser gets the
/// whole page unless it asked for a part, and an address from which the same view comes back.
pub proof fn law_list_answers<T, L, E>(
    path: Seq<char>,
    is_htmx: bool,
    info: Result<(Vec<(T, Access)>, u64), OperationError<E>>,
    pager: PaginationView,
    token: Result<L, E>,
    r: Result<Page<ListPartial<T, L>>, Reply<E>>,
)
    requires
        listed(path, is_htmx, info, pager, token, r),
    ensures
        r is Ok <==> info is Ok && token is Ok,
        info is Err ==> r->Err_0 is WebError && r->Err_0->WebError_0 == info->Err_0,
        info is Ok && token is Err ==> r->Err_0 is ErrorPage && r->Err_0->ErrorPage_0
            == OperationError::Server(token->Err_0),
        r is Ok ==> {
            let page = r->Ok_0;
            &&& page.partial.rows == info->Ok_0.0
            &&& page.partial.pager.total == info->Ok_0.1
            &&& page.partial.pager.page == pager.page && page.partial.pager.per_page
                == pager.per_page
            &&& page.partial.pager.q@ == pager.q && page.partial.pager.sort@ == pager.sort
                && page.partial.pager.order@ == pager.order
            &&& page.partial.lock == token->Ok_0
            &&& page.partial.can_create <==> exists|i: int|
                0 <= i < info->Ok_0.0@.len() && (#[trigger] info->Ok_0.0@[i]).1.delete
            &&& page.whole != is_htmx
            &&& page.push_url is Path && page.push_url->Path_0@ == path + pager.qs(
                pager.page,
                pager.sort,
                pager.order,
            )
        },
{
}

} // verus!
