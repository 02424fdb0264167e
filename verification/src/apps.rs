//! The view of the applications that a user can open, grouped and in order.
use crate::reply::{
    refusal, require_token, FailureStyle, Location, LocationView, OperationError, Page, Reply, Urls,
};
use crate::text::{
    law_text_order_is_total, law_text_order_is_transitive, not_after, same_text, text_le,
};
use vstd::prelude::*;
use vstd::string::*;

verus! {

/// A link to an application.
#[derive(Debug)]
pub enum AppLink {
    Oauth2 {
        name: String,
        display_name: String,
        redirect_url: String,
        has_image: bool,
        group: Option<String>,
        order: Option<u32>,
    },
}

/// One application tile.
#[derive(Debug)]
pub struct AppCard {
    pub name: String,
    pub display_name: String,
    pub redirect_url: String,
    pub has_image: bool,
    /// Empty when the application has no group.
    pub group: String,
    /// The explicit position; without one it comes after everything that has one.
    pub order: Option<u32>,
}

/// One application tile, as a mathematical value.
pub struct AppCardView {
    pub name: Seq<char>,
    pub display_name: Seq<char>,
    pub redirect_url: Seq<char>,
    pub has_image: bool,
    pub group: Seq<char>,
    pub order: Option<u32>,
}

impl View for AppCard {
    type V = AppCardView;

    open spec fn view(&self) -> AppCardView {
        AppCardView {
            name: self.name@,
            display_name: self.display_name@,
            redirect_url: self.redirect_url@,
            has_image: self.has_image,
            group: self.group@,
            order: self.order,
        }
    }
}

/// The tiles as mathematical values.
pub open spec fn card_views(cards: Seq<AppCard>) -> Seq<AppCardView> {
    cards.map_values(|c: AppCard| c@)
}

/// The tile of a link.
pub open spec fn card_of(link: AppLink) -> AppCardView {
    match link {
        AppLink::Oauth2 { name, display_name, redirect_url, has_image, group, order } => {
            AppCardView {
                name: name@,
                display_name: display_name@,
                redirect_url: redirect_url@,
                has_image,
                group: match group {
                    Some(g) => g@,
                    None => Seq::empty(),
                },
                order,
            }
        },
    }
}

/// The tiles of links, in the order of the links.
pub open spec fn cards_of(links: Seq<AppLink>) -> Seq<AppCardView> {
    links.map_values(|l: AppLink| card_of(l))
}

/// The lower case form of a text.
pub uninterp spec fn lowercased(s: Seq<char>) -> Seq<char>;

/// The lower case form of an ASCII character.
pub open spec fn ascii_lower(c: char) -> char {
    if 'A' <= c <= 'Z' {
        (c as u32 + 0x20) as char
    } else {
        c
    }
}

/// Whether all characters of a text are ASCII characters.
pub open spec fn ascii(s: Seq<char>) -> bool {
    forall|i: int| 0 <= i < s.len() ==> (#[trigger] s[i]) as u32 <= 0x7f
}

/// A text with its ASCII capital letters replaced by small ones.
pub open spec fn ascii_lowered(s: Seq<char>) -> Seq<char> {
    s.map_values(|c: char| ascii_lower(c))
}

/// Whether the group and the displayed name of a tile, if they are ASCII texts, have the lower case
/// forms in which exactly the capital letters are replaced.
pub open spec fn ascii_case(card: AppCardView) -> bool {
    &&& ascii(card.group) ==> lowercased(card.group) == ascii_lowered(card.group)
    &&& ascii(card.display_name) ==> lowercased(card.display_name) == ascii_lowered(
        card.display_name,
    )
}

/// Converts a text to lower case with `str::to_lowercase`. Trusted: the result depends on the text
/// alone, and in a text of ASCII characters exactly the capital letters are replaced, each by its
/// small letter. The result for other characters is left unsaid.
#[verifier::external_body]
fn lower(s: &str) -> (r: String)
    ensures
        r@ == lowercased(s@),
        ascii(s@) ==> r@ == ascii_lowered(s@),
{
    s.to_lowercase()
}

/// What tiles are ordered by: ungrouped last, then by group, position and displayed name.
pub struct SortKey {
    pub ungrouped: bool,
    pub group: Seq<char>,
    pub order: Option<u32>,
    pub display_name: Seq<char>,
}

/// What a tile is ordered by. Case makes no difference.
pub open spec fn sort_key(card: AppCardView) -> SortKey {
    SortKey {
        ungrouped: card.group.len() == 0,
        group: lowercased(card.group),
        order: card.order,
        display_name: lowercased(card.display_name),
    }
}

/// Whether a position comes before another one that differs from it. No position comes last.
pub open spec fn earlier(a: Option<u32>, b: Option<u32>) -> bool {
    match (a, b) {
        (Some(x), Some(y)) => x < y,
        (Some(_), None) => true,
        (None, _) => false,
    }
}

/// Whether a key comes before another one or is the same.
pub open spec fn key_le(a: SortKey, b: SortKey) -> bool {
    if a.ungrouped != b.ungrouped {
        b.ungrouped
    } else if a.group != b.group {
        text_le(a.group, b.group)
    } else if a.order != b.order {
        earlier(a.order, b.order)
    } else {
        text_le(a.display_name, b.display_name)
    }
}

proof fn lemma_key_order_is_total(a: SortKey, b: SortKey)
    ensures
        key_le(a, b) || key_le(b, a),
        key_le(a, b) && key_le(b, a) <==> a == b,
{
    law_text_order_is_total(a.group, b.group);
    law_text_order_is_total(a.display_name, b.display_name);
}

proof fn lemma_key_order_is_transitive(a: SortKey, b: SortKey, c: SortKey)
    requires
        key_le(a, b),
        key_le(b, c),
    ensures
        key_le(a, c),
{
    law_text_order_is_total(a.group, b.group);
    law_text_order_is_total(b.group, c.group);
    law_text_order_is_total(a.group, c.group);
    if text_le(a.group, b.group) && text_le(b.group, c.group) {
        law_text_order_is_transitive(a.group, b.group, c.group);
    }
    if text_le(a.display_name, b.display_name) && text_le(b.display_name, c.display_name) {
        law_text_order_is_transitive(a.display_name, b.display_name, c.display_name);
    }
}

/// Whether tiles are in order.
pub open spec fn in_order(cards: Seq<AppCardView>) -> bool {
    forall|i: int, j: int|
        0 <= i <= j < cards.len() ==> key_le(
            sort_key(#[trigger] cards[i]),
            sort_key(#[trigger] cards[j]),
        )
}

/// Selects the tiles with a key.
pub open spec fn with_key(key: SortKey) -> spec_fn(AppCardView) -> bool {
    |c: AppCardView| sort_key(c) == key
}

/// Whether tiles are an arrangement of given ones: they are in order, and the tiles with the same
/// key are the given ones in the order in which they were given.
pub open spec fn arranged(given: Seq<AppCardView>, cards: Seq<AppCardView>) -> bool {
    &&& in_order(cards)
    &&& forall|key: SortKey| #[trigger]
        cards.filter(with_key(key)) == given.filter(with_key(key))
}

struct CardKey {
    ungrouped: bool,
    group: String,
    order: Option<u32>,
    display_name: String,
}

impl View for CardKey {
    type V = SortKey;

    closed spec fn view(&self) -> SortKey {
        SortKey {
            ungrouped: self.ungrouped,
            group: self.group@,
            order: self.order,
            display_name: self.display_name@,
        }
    }
}

fn key_of(card: &AppCard) -> (r: CardKey)
    ensures
        r@ == sort_key(card@),
        ascii_case(card@),
{
    CardKey {
        ungrouped: card.group.as_str().is_empty(),
        group: lower(card.group.as_str()),
        order: card.order,
        display_name: lower(card.display_name.as_str()),
    }
}

fn key_not_after(a: &CardKey, b: &CardKey) -> (r: bool)
    ensures
        r == key_le(a@, b@),
{
    if a.ungrouped != b.ungrouped {
        b.ungrouped
    } else if !same_text(a.group.as_str(), b.group.as_str()) {
        not_after(a.group.as_str(), b.group.as_str())
    } else if a.order != b.order {
        match (a.order, b.order) {
            (Some(x), Some(y)) => x < y,
            (Some(_), None) => true,
            (None, _) => false,
        }
    } else {
        not_after(a.display_name.as_str(), b.display_name.as_str())
    }
}

proof fn lemma_filter_none<A>(s: Seq<A>, p: spec_fn(A) -> bool)
    requires
        forall|i: int| 0 <= i < s.len() ==> !p(#[trigger] s[i]),
    ensures
        s.filter(p) == Seq::<A>::empty(),
    decreases s.len(),
{
    reveal(Seq::filter);
    if s.len() > 0 {
        lemma_filter_none(s.drop_last(), p);
    }
}

proof fn lemma_filter_push<A>(s: Seq<A>, a: A, p: spec_fn(A) -> bool)
    ensures
        s.push(a).filter(p) == (if p(a) {
            s.filter(p).push(a)
        } else {
            s.filter(p)
        }),
{
    reveal(Seq::filter);
    assert(s.push(a).drop_last() =~= s);
}

proof fn lemma_insert(given: Seq<AppCardView>, cards: Seq<AppCardView>, i: int, card: AppCardView)
    requires
        arranged(given, cards),
        0 <= i <= cards.len(),
        forall|k: int| 0 <= k < i ==> key_le(sort_key(#[trigger] cards[k]), sort_key(card)),
        forall|k: int|
            i <= k < cards.len() ==> !key_le(sort_key(#[trigger] cards[k]), sort_key(card)),
    ensures
        arranged(given.push(card), cards.insert(i, card)),
{
    let front = cards.take(i);
    let back = cards.skip(i);
    let now = cards.insert(i, card);
    assert(cards =~= front + back);
    assert(now =~= front.push(card) + back);
    assert forall|a: int, b: int| 0 <= a <= b < now.len() implies key_le(
        sort_key(#[trigger] now[a]),
        sort_key(#[trigger] now[b]),
    ) by {
        let x = if a < i {
            a
        } else {
            a - 1
        };
        let y = if b < i {
            b
        } else {
            b - 1
        };
        if a == i && b == i {
            lemma_key_order_is_total(sort_key(card), sort_key(card));
        } else if a == i {
            assert(now[b] == cards[y]);
            lemma_key_order_is_total(sort_key(card), sort_key(cards[y]));
        } else if b == i {
            assert(now[a] == cards[x]);
        } else {
            assert(now[a] == cards[x] && now[b] == cards[y]);
        }
    }
    assert forall|key: SortKey| #[trigger]
        now.filter(with_key(key)) == given.push(card).filter(with_key(key)) by {
        let p = with_key(key);
        Seq::filter_distributes_over_add(front, back, p);
        Seq::filter_distributes_over_add(front.push(card), back, p);
        lemma_filter_push(front, card, p);
        lemma_filter_push(given, card, p);
        assert(cards.filter(p) == given.filter(p));
        if p(card) {
            assert forall|k: int| 0 <= k < back.len() implies !p(#[trigger] back[k]) by {
                assert(back[k] == cards[k + i]);
                lemma_key_order_is_total(sort_key(card), sort_key(card));
            }
            lemma_filter_none(back, p);
            assert(front.filter(p) + Seq::<AppCardView>::empty() =~= front.filter(p));
            assert(front.filter(p).push(card) + Seq::<AppCardView>::empty() =~= front.filter(
                p,
            ).push(card));
        }
    }
}

/// Puts tiles in order: grouped, ungrouped last, then by explicit position, then by name. Tiles
/// that these do not tell apart stay in the order in which they are given.
pub fn arrange(cards: Vec<AppCard>) -> (r: Vec<AppCard>)
    ensures
        arranged(card_views(cards@), card_views(r@)),
        forall|i: int|
            0 <= i < cards@.len() ==> ascii_case(#[trigger] card_views(cards@)[i]),
{
    let ghost all = cards@;
    let ghost given = card_views(cards@);
    let mut out: Vec<AppCard> = Vec::new();
    let mut keys: Vec<CardKey> = Vec::new();
    assert(given.take(0) =~= card_views(out@));
    for card in it: cards
        invariant
            it.seq() == all,
            given == card_views(all),
            keys@.len() == out@.len(),
            forall|k: int| 0 <= k < out@.len() ==> (#[trigger] keys@[k])@ == sort_key(out@[k]@),
            arranged(given.take(it.index() as int), card_views(out@)),
            forall|k: int| 0 <= k < it.index() ==> ascii_case(#[trigger] given[k]),
    {
        let key: CardKey = key_of(&card);
        let ghost before = card_views(out@);
        let mut i: usize = out.len();
        while i > 0 && !key_not_after(&keys[i - 1], &key)
            invariant
                i <= out@.len(),
                keys@.len() == out@.len(),
                forall|k: int| 0 <= k < out@.len() ==> (#[trigger] keys@[k])@ == sort_key(out@[k]@),
                key@ == sort_key(card@),
                forall|k: int|
                    i <= k < out@.len() ==> !key_le(
                        sort_key((#[trigger] card_views(out@)[k])),
                        sort_key(card@),
                    ),
            decreases i,
        {
            i -= 1;
            assert(card_views(out@)[i as int] == out@[i as int]@);
        }
        proof {
            assert forall|k: int| 0 <= k < i implies key_le(
                sort_key(#[trigger] before[k]),
                sort_key(card@),
            ) by {
                assert(keys@[i - 1]@ == sort_key(before[i - 1]));
                lemma_key_order_is_transitive(
                    sort_key(before[k]),
                    sort_key(before[i - 1]),
                    sort_key(card@),
                );
            }
            lemma_insert(given.take(it.index() as int), before, i as int, card@);
            assert(given.take(it.index() + 1) =~= given.take(it.index() as int).push(card@));
        }
        out.insert(i, card);
        keys.insert(i, key);
        assert(card_views(out@) =~= before.insert(i as int, card@));
    }
    assert(given.take(given.len() as int) =~= given);
    out
}

/// The tiles of an arrangement are the given ones, each as often as it was given.
pub proof fn law_arrangement_keeps_tiles(given: Seq<AppCardView>, cards: Seq<AppCardView>)
    requires
        arranged(given, cards),
    ensures
        cards.to_multiset() == given.to_multiset(),
{
    assert forall|c: AppCardView|
        cards.to_multiset().count(c) == #[trigger] given.to_multiset().count(c) by {
        let p = with_key(sort_key(c));
        lemma_filter_count(cards, p, c);
        lemma_filter_count(given, p, c);
        assert(cards.filter(p) == given.filter(p));
    }
    assert(cards.to_multiset() =~= given.to_multiset());
}

proof fn lemma_filter_count<A>(s: Seq<A>, p: spec_fn(A) -> bool, a: A)
    requires
        p(a),
    ensures
        s.filter(p).to_multiset().count(a) == s.to_multiset().count(a),
    decreases s.len(),
{
    broadcast use vstd::seq_lib::group_to_multiset_ensures;

    reveal(Seq::filter);
    if s.len() > 0 {
        lemma_filter_count(s.drop_last(), p, a);
        assert(s =~= s.drop_last().push(s.last()));
    } else {
        assert(s.filter(p) =~= s);
    }
}

/// There is one arrangement of given tiles only.
pub proof fn law_arrangement_is_unique(
    given: Seq<AppCardView>,
    a: Seq<AppCardView>,
    b: Seq<AppCardView>,
)
    requires
        arranged(given, a),
        arranged(given, b),
    ensures
        a == b,
{
    assert forall|key: SortKey| #[trigger] a.filter(with_key(key)) == b.filter(with_key(key)) by {
        assert(a.filter(with_key(key)) == given.filter(with_key(key)));
        assert(b.filter(with_key(key)) == given.filter(with_key(key)));
    }
    lemma_same_arrangement(a, b);
}

proof fn lemma_last_key_not_after(a: Seq<AppCardView>, b: Seq<AppCardView>)
    requires
        a.len() > 0,
        in_order(b),
        forall|key: SortKey| #[trigger] a.filter(with_key(key)) == b.filter(with_key(key)),
    ensures
        b.len() > 0,
        key_le(sort_key(a.last()), sort_key(b.last())),
{
    let p = with_key(sort_key(a.last()));
    lemma_filter_push(a.drop_last(), a.last(), p);
    assert(a =~= a.drop_last().push(a.last()));
    assert(a.filter(p) == b.filter(p));
    assert(b.filter(p).contains(a.last())) by {
        let f = a.filter(p);
        assert(f[f.len() - 1] == a.last());
    }
    b.lemma_filter_contains_rev(p, a.last());
    let i = choose|i: int| 0 <= i < b.len() && b[i] == a.last();
    assert(key_le(sort_key(b[i]), sort_key(b[b.len() - 1])));
}

proof fn lemma_same_arrangement(a: Seq<AppCardView>, b: Seq<AppCardView>)
    requires
        in_order(a),
        in_order(b),
        forall|key: SortKey| #[trigger] a.filter(with_key(key)) == b.filter(with_key(key)),
    ensures
        a == b,
    decreases a.len(),
{
    if a.len() == 0 {
        if b.len() > 0 {
            assert forall|key: SortKey| #[trigger]
                b.filter(with_key(key)) == a.filter(with_key(key)) by {
                assert(a.filter(with_key(key)) == b.filter(with_key(key)));
            }
            lemma_last_key_not_after(b, a);
        }
        assert(a =~= b);
    } else {
        lemma_last_key_not_after(a, b);
        assert forall|key: SortKey| #[trigger]
            b.filter(with_key(key)) == a.filter(with_key(key)) by {
            assert(a.filter(with_key(key)) == b.filter(with_key(key)));
        }
        lemma_last_key_not_after(b, a);
        lemma_key_order_is_total(sort_key(a.last()), sort_key(b.last()));
        let x = a.drop_last();
        let y = b.drop_last();
        assert(a =~= x.push(a.last()));
        assert(b =~= y.push(b.last()));
        let same = with_key(sort_key(a.last()));
        lemma_filter_push(x, a.last(), same);
        lemma_filter_push(y, b.last(), same);
        assert(a.filter(same) == b.filter(same));
        assert(a.filter(same).last() == a.last() && b.filter(same).last() == b.last());
        assert forall|key: SortKey| #[trigger]
            x.filter(with_key(key)) == y.filter(with_key(key)) by {
            let p = with_key(key);
            lemma_filter_push(x, a.last(), p);
            lemma_filter_push(y, b.last(), p);
            assert(a.filter(p) == b.filter(p));
            if p(a.last()) {
                assert(x.filter(p) =~= a.filter(p).drop_last());
                assert(y.filter(p) =~= b.filter(p).drop_last());
            }
        }
        lemma_same_arrangement(x, y);
    }
}

/// Whether two tiles are in the same group, or both in none.
pub open spec fn same_group(a: AppCardView, b: AppCardView) -> bool {
    (a.group.len() == 0) == (b.group.len() == 0) && lowercased(a.group) == lowercased(b.group)
}

/// In order, ungrouped tiles come last, groups follow one another in alphabetical order, the tiles
/// of a group stand together, and within a group tiles without a position come after all that have
/// one, an earlier position comes first, and among equal positions the name that is first in the
/// alphabet.
pub proof fn law_order_of_tiles(cards: Seq<AppCardView>, i: int, j: int, k: int)
    requires
        in_order(cards),
        0 <= i <= j <= k < cards.len(),
    ensures
        cards[i].group.len() == 0 ==> cards[k].group.len() == 0,
        cards[i].group.len() > 0 && cards[k].group.len() > 0 ==> text_le(
            lowercased(cards[i].group),
            lowercased(cards[k].group),
        ),
        same_group(cards[i], cards[k]) ==> same_group(cards[i], cards[j]),
        same_group(cards[i], cards[k]) && cards[i].order is None ==> cards[k].order is None,
        same_group(cards[i], cards[k]) && cards[k].order is Some ==> cards[i].order is Some
            && cards[i].order->0 <= cards[k].order->0,
        same_group(cards[i], cards[k]) && cards[i].order == cards[k].order ==> text_le(
            lowercased(cards[i].display_name),
            lowercased(cards[k].display_name),
        ),
{
    let x = sort_key(cards[i]);
    let y = sort_key(cards[j]);
    let z = sort_key(cards[k]);
    assert(key_le(x, y) && key_le(y, z) && key_le(x, z));
    law_text_order_is_total(x.group, y.group);
    law_text_order_is_total(x.group, z.group);
}

/// Case makes no difference: tiles whose group and displayed name are ASCII texts that differ in
/// case only, and whose positions are the same, are ordered alike. That their lower case forms are
/// those of ASCII texts is what arranging them establishes.
pub proof fn law_case_makes_no_difference(a: AppCardView, b: AppCardView)
    requires
        ascii_case(a),
        ascii_case(b),
        ascii(a.group) && ascii(a.display_name) && ascii(b.group) && ascii(b.display_name),
        ascii_lowered(a.group) == ascii_lowered(b.group),
        ascii_lowered(a.display_name) == ascii_lowered(b.display_name),
        a.order == b.order,
    ensures
        sort_key(a) == sort_key(b),
{
    assert(ascii_lowered(a.group).len() == a.group.len());
    assert(ascii_lowered(b.group).len() == b.group.len());
}

/// Whether one of some tiles has a group.
pub open spec fn any_grouped(cards: Seq<AppCardView>) -> bool {
    exists|i: int| 0 <= i < cards.len() && (#[trigger] cards[i]).group.len() > 0
}

/// The content of the page of applications.
#[derive(Debug)]
pub struct AppsPartial {
    pub apps: Vec<AppCard>,
    /// Whether an application has a group, which decides if grouping is worth offering.
    pub has_groups: bool,
}

fn into_cards(links: Vec<AppLink>) -> (r: Vec<AppCard>)
    ensures
        card_views(r@) == cards_of(links@),
{
    let ghost all = links@;
    let mut out: Vec<AppCard> = Vec::new();
    assert(card_views(out@) =~= cards_of(all.take(0)));
    for link in it: links
        invariant
            it.seq() == all,
            card_views(out@) == cards_of(all.take(it.index() as int)),
    {
        let ghost before = card_views(out@);
        match link {
            AppLink::Oauth2 { name, display_name, redirect_url, has_image, group, order } => {
                let group: String = match group {
                    Some(g) => g,
                    None => String::new(),
                };
                let card = AppCard { name, display_name, redirect_url, has_image, group, order };
                assert(group@.len() == 0 ==> group@ =~= Seq::<char>::empty());
                assert(card@ == card_of(link));
                out.push(card);
                assert(card_views(out@) =~= before.push(card@));
            },
        }
        assert(cards_of(all.take(it.index() + 1)) =~= cards_of(all.take(it.index() as int)).push(
            card_of(link),
        ));
    }
    assert(all.take(all.len() as int) =~= all);
    out
}

/// The page of applications: whole if the user comes directly, its content alone if the browser
/// swaps it in, as after a login. An error of the list of links comes before a missing token, and
/// both are answered with an error page.
pub fn view_apps_get<E>(
    is_htmx: bool,
    links: Result<Vec<AppLink>, E>,
    token: Result<(), E>,
) -> (r: Result<Page<AppsPartial>, Reply<E>>)
    ensures
        match (links, token) {
            (Err(e), _) => r is Err && r->Err_0@ == refusal(FailureStyle::Page, e),
            (Ok(_), Err(e)) => r is Err && r->Err_0@ == refusal(FailureStyle::Page, e),
            (Ok(links), Ok(_)) => {
                &&& r is Ok
                &&& r->Ok_0.push_url@ == LocationView::Page(Urls::Apps)
                &&& r->Ok_0.whole == !is_htmx
                &&& forall|i: int|
                    0 <= i < links@.len() ==> ascii_case(#[trigger] cards_of(links@)[i])
                &&& arranged(cards_of(links@), card_views(r->Ok_0.partial.apps@))
                &&& r->Ok_0.partial.has_groups == any_grouped(cards_of(links@))
            },
        },
{
    let links: Vec<AppLink> = match links {
        Ok(links) => links,
        Err(e) => {
            return Err(Reply::ErrorPage(OperationError::Server(e)));
        },
    };
    match require_token(token) {
        Ok(_) => {},
        Err(reply) => {
            return Err(reply);
        },
    }
    let ghost given = cards_of(links@);
    let cards: Vec<AppCard> = into_cards(links);
    assert(card_views(cards@).len() == cards@.len() && given.len() == links@.len());
    let apps: Vec<AppCard> = arrange(cards);
    assert(forall|i: int| 0 <= i < given.len() ==> ascii_case(#[trigger] given[i]));
    let mut has_groups: bool = false;
    let mut i: usize = 0;
    while i < apps.len()
        invariant
            i <= apps@.len(),
            has_groups == (exists|k: int|
                0 <= k < i && (#[trigger] card_views(apps@)[k]).group.len() > 0),
        decreases apps@.len() - i,
    {
        assert(card_views(apps@)[i as int] == apps@[i as int]@);
        if !apps[i].group.as_str().is_empty() {
            has_groups = true;
        }
        i += 1;
    }
    proof {
        lemma_same_grouping(given, card_views(apps@));
    }
    Ok(
        Page {
            push_url: Location::Page(Urls::Apps),
            whole: !is_htmx,
            partial: AppsPartial { apps, has_groups },
        },
    )
}

proof fn lemma_same_grouping(given: Seq<AppCardView>, cards: Seq<AppCardView>)
    requires
        arranged(given, cards),
    ensures
        any_grouped(given) == any_grouped(cards),
{
    broadcast use vstd::seq_lib::group_to_multiset_ensures;

    law_arrangement_keeps_tiles(given, cards);
    if any_grouped(given) {
        let i = choose|i: int| 0 <= i < given.len() && (#[trigger] given[i]).group.len() > 0;
        assert(given.contains(given[i]));
        assert(given.to_multiset().count(given[i]) > 0);
        assert(cards.to_multiset().count(given[i]) > 0);
        assert(cards.contains(given[i]));
    }
    if any_grouped(cards) {
        let i = choose|i: int| 0 <= i < cards.len() && (#[trigger] cards[i]).group.len() > 0;
        assert(cards.contains(cards[i]));
        assert(cards.to_multiset().count(cards[i]) > 0);
        assert(given.to_multiset().count(cards[i]) > 0);
        assert(given.contains(cards[i]));
    }
}

/// Which of two tiles comes first: one with a group before one without; else the one whose group is
/// first in the alphabet; else, in the same group, one with a position before one without; else the
/// one with the smaller position; else the one whose displayed name is first in the alphabet.
pub proof fn law_which_tile_comes_first(a: AppCardView, b: AppCardView)
    ensures
        ({
            let first = key_le(sort_key(a), sort_key(b));
            let x = lowercased(a.group);
            let y = lowercased(b.group);
            &&& a.group.len() > 0 && b.group.len() == 0 ==> first
            &&& a.group.len() == 0 && b.group.len() > 0 ==> !first
            &&& (a.group.len() == 0) == (b.group.len() == 0) && x != y ==> (first <==> text_le(
                x,
                y,
            ))
            &&& same_group(a, b) && a.order is Some && b.order is None ==> first
            &&& same_group(a, b) && a.order is None && b.order is Some ==> !first
            &&& same_group(a, b) && a.order is Some && b.order is Some && a.order->0 < b.order->0
                ==> first
            &&& same_group(a, b) && a.order is Some && b.order is Some && a.order->0 > b.order->0
                ==> !first
            &&& same_group(a, b) && a.order == b.order ==> (first <==> text_le(
                lowercased(a.display_name),
                lowercased(b.display_name),
            ))
        }),
{
}

/// In an arrangement a tile stands before another one only if it does not come after it, and tiles
/// that nothing tells apart stand in the order in which they were given.
pub proof fn law_ties_keep_their_order(
    given: Seq<AppCardView>,
    cards: Seq<AppCardView>,
    card: AppCardView,
)
    requires
        arranged(given, cards),
    ensures
        cards.filter(|c: AppCardView| sort_key(c) == sort_key(card)) == given.filter(
            |c: AppCardView| sort_key(c) == sort_key(card),
        ),
        forall|i: int, j: int|
            0 <= i <= j < cards.len() ==> key_le(
                sort_key(#[trigger] cards[i]),
                sort_key(#[trigger] cards[j]),
            ),
{
    let p = with_key(sort_key(card));
    assert(cards.filter(p) == given.filter(p));
    assert(p =~= (|c: AppCardView| sort_key(c) == sort_key(card)));
}

/// A tile shows its link: the names, the address, the image, the position as it was given, and the
/// group, which is empty exactly if the link has none or an empty one.
pub proof fn law_tiles_show_their_link(link: AppLink)
    ensures
        ({
            let card = card_of(link);
            &&& card.name == link->name@
            &&& card.display_name == link->display_name@
            &&& card.redirect_url == link->redirect_url@
            &&& card.has_image == link->has_image
            &&& card.order == link->order
            &&& link->group is Some ==> card.group == link->group->0@
            &&& link->group is None ==> card.group.len() == 0
        }),
{
}

/// There is one tile for each link, in the order of the links before they are arranged.
pub proof fn law_one_tile_for_each_link(links: Seq<AppLink>, i: int)
    requires
        0 <= i < links.len(),
    ensures
        cards_of(links).len() == links.len(),
        cards_of(links)[i] == card_of(links[i]),
{
}

/// Grouping is offered exactly if one of the tiles has a group.
pub proof fn law_one_group_is_enough(a: Seq<AppCardView>, b: Seq<AppCardView>, card: AppCardView)
    ensures
        any_grouped(a + b) <==> any_grouped(a) || any_grouped(b),
        any_grouped(seq![card]) <==> card.group.len() > 0,
        !any_grouped(Seq::<AppCardView>::empty()),
{
    let s = a + b;
    if any_grouped(a) {
        let i = choose|i: int| 0 <= i < a.len() && (#[trigger] a[i]).group.len() > 0;
        assert(s[i] == a[i]);
    }
    if any_grouped(b) {
        let i = choose|i: int| 0 <= i < b.len() && (#[trigger] b[i]).group.len() > 0;
        assert(s[a.len() + i] == b[i]);
    }
    if any_grouped(s) {
        let i = choose|i: int| 0 <= i < s.len() && (#[trigger] s[i]).group.len() > 0;
        if i < a.len() {
            assert(a[i] == s[i]);
        } else {
            assert(b[i - a.len()] == s[i]);
        }
    }
    assert(seq![card][0] == card);
}

} // verus!
