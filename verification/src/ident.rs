//! The textual form of the identifiers of entries, and the paths of the pages that show them.
use uuid::Uuid;
use vstd::prelude::*;
use vstd::string::*;

verus! {

/// The lower case hexadecimal digit of a number below sixteen.
pub open spec fn lower_hex(d: nat) -> char {
    if d < 10 {
        (0x30 + d) as char
    } else {
        (0x57 + d) as char
    }
}

/// The last `len` hexadecimal digits of a number.
pub open spec fn hex_digits(n: nat, len: nat) -> Seq<char>
    decreases len,
{
    if len == 0 {
        Seq::empty()
    } else {
        hex_digits(n / 16, (len - 1) as nat).push(lower_hex(n % 16))
    }
}

/// An identifier in groups of eight, four, four, four and twelve hexadecimal digits.
pub open spec fn uuid_text(id: u128) -> Seq<char> {
    let h = hex_digits(id as nat, 32);
    h.subrange(0, 8) + seq!['-'] + h.subrange(8, 12) + seq!['-'] + h.subrange(12, 16) + seq!['-']
        + h.subrange(16, 20) + seq!['-'] + h.subrange(20, 32)
}

/// Writes an identifier with `Uuid::to_string`. Trusted: the result is the hyphenated form in
/// lower case.
#[verifier::external_body]
pub(crate) fn uuid_to_string(id: u128) -> (r: String)
    ensures
        r@ == uuid_text(id),
{
    Uuid::from_u128(id).to_string()
}

/// The path of the page of a person.
pub open spec fn person_path(id: u128) -> Seq<char> {
    "/ui/admin/person/"@ + uuid_text(id) + "/view"@
}

/// The path of the page of a group.
pub open spec fn group_path(id: u128) -> Seq<char> {
    "/ui/admin/group/"@ + uuid_text(id) + "/view"@
}

/// The path of the page of an OAuth2 client.
pub open spec fn oauth2_path(name: Seq<char>) -> Seq<char> {
    "/ui/admin/oauth2/"@ + name + "/view"@
}

/// Where the browser goes after a change on the page of a person: back to that page, so that the
/// lists that the server renders are fresh.
pub fn person_view_reload(id: u128) -> (r: String)
    ensures
        r@ == person_path(id),
{
    let mut out: String = "/ui/admin/person/".to_string();
    out.append(uuid_to_string(id).as_str());
    out.append("/view");
    out
}

/// Where the browser goes after a change on the page of a group: back to that page.
pub fn group_view_reload(id: u128) -> (r: String)
    ensures
        r@ == group_path(id),
{
    let mut out: String = "/ui/admin/group/".to_string();
    out.append(uuid_to_string(id).as_str());
    out.append("/view");
    out
}

/// Where the browser goes after a change to the list of OAuth2 clients: back to the list.
pub fn oauth2_list_reload() -> (r: String)
    ensures
        r@ == "/ui/admin/oauth2"@,
{
    "/ui/admin/oauth2".to_string()
}

/// Where the browser goes after a change on the page of an OAuth2 client: back to that page.
pub fn oauth2_view_reload(rs_name: &str) -> (r: String)
    ensures
        r@ == oauth2_path(rs_name@),
{
    let mut out: String = "/ui/admin/oauth2/".to_string();
    out.append(rs_name);
    out.append("/view");
    out
}

/// Where the browser goes after a change to the settings: back to them.
pub fn settings_reload() -> (r: String)
    ensures
        r@ == "/ui/admin/settings"@,
{
    "/ui/admin/settings".to_string()
}

spec fn hex_range(len: nat) -> nat
    decreases len,
{
    if len == 0 {
        1
    } else {
        16 * hex_range((len - 1) as nat)
    }
}

proof fn lemma_hex_digits_len(n: nat, len: nat)
    ensures
        hex_digits(n, len).len() == len,
    decreases len,
{
    if len > 0 {
        lemma_hex_digits_len(n / 16, (len - 1) as nat);
    }
}

proof fn lemma_hex_digits_injective(m: nat, n: nat, len: nat)
    requires
        m < hex_range(len),
        n < hex_range(len),
        hex_digits(m, len) == hex_digits(n, len),
    ensures
        m == n,
    decreases len,
{
    if len > 0 {
        let k = (len - 1) as nat;
        let x = hex_digits(m, len);
        let y = hex_digits(n, len);
        assert(x.drop_last() =~= hex_digits(m / 16, k));
        assert(y.drop_last() =~= hex_digits(n / 16, k));
        assert(x.last() == lower_hex(m % 16) && y.last() == lower_hex(n % 16));
        assert(m % 16 == n % 16);
        lemma_hex_digits_injective(m / 16, n / 16, k);
    }
}

/// Different entries have different identifiers in text.
pub proof fn law_uuid_text_is_injective(a: u128, b: u128)
    requires
        uuid_text(a) == uuid_text(b),
    ensures
        a == b,
{
    let x = hex_digits(a as nat, 32);
    let y = hex_digits(b as nat, 32);
    lemma_hex_digits_len(a as nat, 32);
    lemma_hex_digits_len(b as nat, 32);
    let s = uuid_text(a);
    let t = uuid_text(b);
    assert(s.subrange(0, 8) =~= x.subrange(0, 8) && t.subrange(0, 8) =~= y.subrange(0, 8));
    assert(s.subrange(9, 13) =~= x.subrange(8, 12) && t.subrange(9, 13) =~= y.subrange(8, 12));
    assert(s.subrange(14, 18) =~= x.subrange(12, 16) && t.subrange(14, 18) =~= y.subrange(12, 16));
    assert(s.subrange(19, 23) =~= x.subrange(16, 20) && t.subrange(19, 23) =~= y.subrange(16, 20));
    assert(s.subrange(24, 36) =~= x.subrange(20, 32) && t.subrange(24, 36) =~= y.subrange(20, 32));
    assert(x =~= x.subrange(0, 8) + x.subrange(8, 12) + x.subrange(12, 16) + x.subrange(16, 20)
        + x.subrange(20, 32));
    assert(y =~= y.subrange(0, 8) + y.subrange(8, 12) + y.subrange(12, 16) + y.subrange(16, 20)
        + y.subrange(20, 32));
    assert(x =~= y);
    assert(hex_range(32) == 0x1_0000_0000_0000_0000_0000_0000_0000_0000) by {
        reveal_with_fuel(hex_range, 33);
    }
    lemma_hex_digits_injective(a as nat, b as nat, 32);
}

/// Different persons have different pages.
pub proof fn law_person_pages_differ(a: u128, b: u128)
    requires
        person_path(a) == person_path(b),
    ensures
        a == b,
{
    let p = "/ui/admin/person/"@;
    lemma_hex_digits_len(a as nat, 32);
    lemma_hex_digits_len(b as nat, 32);
    assert(person_path(a).subrange(p.len() as int, (p.len() + 36) as int) =~= uuid_text(a));
    assert(person_path(b).subrange(p.len() as int, (p.len() + 36) as int) =~= uuid_text(b));
    law_uuid_text_is_injective(a, b);
}

/// Different groups have different pages.
pub proof fn law_group_pages_differ(a: u128, b: u128)
    requires
        group_path(a) == group_path(b),
    ensures
        a == b,
{
    let p = "/ui/admin/group/"@;
    lemma_hex_digits_len(a as nat, 32);
    lemma_hex_digits_len(b as nat, 32);
    assert(group_path(a).subrange(p.len() as int, (p.len() + 36) as int) =~= uuid_text(a));
    assert(group_path(b).subrange(p.len() as int, (p.len() + 36) as int) =~= uuid_text(b));
    law_uuid_text_is_injective(a, b);
}

} // verus!
