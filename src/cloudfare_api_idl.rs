//! The provider's request and response bodies, and the encoding of the
//! update request as JSON.
use vstd::prelude::*;

verus! {

#[verifier::external_type_specification]
#[verifier::external_body]
pub struct ExJsonValue(serde_json::Value);

#[verifier::external_type_specification]
#[verifier::external_body]
pub struct ExJsonError(serde_json::Error);

/// Body of a request that creates or updates a DNS record.
#[derive(Default, Debug, Clone, PartialEq)]
pub struct CloudfareUpdateRecordRequest {
    pub content: String,
    pub name: String,
    pub proxied: bool,
    /// The record type tag, sent under the key `type`.
    pub type_field: String,
    pub comment: String,
    pub ttl: i64,
}

/// Reply to a zone lookup by name.
#[derive(Default, Debug, PartialEq)]
pub struct CloudfareZonesResponse {
    pub result: Vec<ZonesResult>,
    pub result_info: ResultInfo,
    pub success: bool,
    pub errors: Vec<serde_json::Value>,
    pub messages: Vec<serde_json::Value>,
}

/// One zone of a zone lookup.
#[derive(Default, Debug, PartialEq)]
pub struct ZonesResult {
    pub id: String,
    pub name: String,
    pub status: String,
    pub paused: bool,
    pub type_field: String,
    pub development_mode: i64,
    pub name_servers: Vec<String>,
    pub original_name_servers: Vec<String>,
    pub original_registrar: serde_json::Value,
    pub original_dnshost: serde_json::Value,
    pub modified_on: String,
    pub created_on: String,
    pub activated_on: String,
    pub owner: Owner,
    pub account: Account,
    pub tenant: Tenant,
    pub tenant_unit: TenantUnit,
    pub permissions: Vec<String>,
    pub plan: Plan,
}

/// Reply to a DNS record lookup by name.
#[derive(Default, Debug, PartialEq)]
pub struct CloudfareRecordsResponse {
    pub result: Vec<RecordResult>,
    pub success: bool,
    pub errors: Vec<serde_json::Value>,
    pub messages: Vec<serde_json::Value>,
    pub result_info: ResultInfo,
}

/// One DNS record of a record lookup.
#[derive(Default, Debug, PartialEq)]
pub struct RecordResult {
    pub id: String,
    pub zone_id: String,
    pub zone_name: String,
    pub name: String,
    pub type_field: String,
    pub content: String,
    pub proxiable: bool,
    pub proxied: bool,
    pub ttl: i64,
    pub locked: bool,
    pub comment: Option<String>,
    pub tags: Vec<serde_json::Value>,
    pub created_on: String,
    pub modified_on: String,
}

/// Paging information of a lookup.
#[derive(Default, Debug, Clone, PartialEq)]
pub struct ResultInfo {
    pub page: i64,
    pub per_page: i64,
    pub total_pages: i64,
    pub count: i64,
    pub total_count: i64,
}

#[derive(Default, Debug, PartialEq)]
pub struct Owner {
    pub id: serde_json::Value,
    pub type_field: String,
    pub email: serde_json::Value,
}

#[derive(Default, Debug, Clone, PartialEq)]
pub struct Account {
    pub id: String,
    pub name: String,
}

#[derive(Default, Debug, PartialEq)]
pub struct Tenant {
    pub id: serde_json::Value,
    pub name: serde_json::Value,
}

#[derive(Default, Debug, PartialEq)]
pub struct TenantUnit {
    pub id: serde_json::Value,
}

#[derive(Default, Debug, Clone, PartialEq)]
pub struct Plan {
    pub id: String,
    pub name: String,
    pub price: i64,
    pub currency: String,
    pub frequency: String,
    pub is_subscribed: bool,
    pub can_subscribe: bool,
    pub legacy_id: String,
    pub legacy_discount: bool,
    pub externally_managed: bool,
}

/// The hexadecimal digit `d`, for `0 <= d < 16`, in lower case.
pub open spec fn hex_digit(d: nat) -> char {
    seq!['0', '1', '2', '3', '4', '5', '6', '7', '8', '9', 'a', 'b', 'c', 'd', 'e', 'f'][d as int]
}

/// How one character stands inside a JSON string literal: the quote and the
/// backslash get a backslash, the five controls with a short escape use it,
/// the other controls below 0x20 become `\u00XX`, and every other character
/// stands for itself.
pub open spec fn json_char_escape(c: char) -> Seq<char> {
    let u = c as u32;
    if c == '"' {
        seq!['\\', '"']
    } else if c == '\\' {
        seq!['\\', '\\']
    } else if u == 8 {
        seq!['\\', 'b']
    } else if u == 9 {
        seq!['\\', 't']
    } else if u == 10 {
        seq!['\\', 'n']
    } else if u == 12 {
        seq!['\\', 'f']
    } else if u == 13 {
        seq!['\\', 'r']
    } else if u < 32 {
        seq!['\\', 'u', '0', '0', hex_digit((u / 16) as nat), hex_digit((u % 16) as nat)]
    } else {
        seq![c]
    }
}

/// The characters of `s`, each escaped for a JSON string literal.
pub open spec fn json_escape(s: Seq<char>) -> Seq<char>
    decreases s.len(),
{
    if s.len() == 0 {
        Seq::empty()
    } else {
        json_char_escape(s[0]) + json_escape(s.drop_first())
    }
}

/// Value of a lower-case hexadecimal digit.
pub open spec fn hex_value(c: char) -> int {
    if '0' <= c && c <= '9' {
        c as int - 48
    } else {
        c as int - 87
    }
}

/// The code point of `c`.
pub open spec fn code_point(c: char) -> int {
    c as int
}

/// The character whose code point is `u`.
pub open spec fn char_of(u: int) -> char {
    choose|c: char| #[trigger] code_point(c) == u
}

/// The character that a one-letter escape `\\e` stands for.
pub open spec fn short_unescape(e: char) -> char {
    if e == 'b' {
        '\u{8}'
    } else if e == 't' {
        '\t'
    } else if e == 'n' {
        '\n'
    } else if e == 'f' {
        '\u{c}'
    } else if e == 'r' {
        '\r'
    } else {
        e
    }
}

/// Reads the contents of a JSON string literal back into characters.
pub open spec fn json_unescape(t: Seq<char>) -> Seq<char>
    decreases t.len(),
{
    if t.len() == 0 {
        Seq::empty()
    } else if t[0] == '\\' && t.len() >= 6 && t[1] == 'u' {
        seq![char_of(4096 * hex_value(t[2]) + 256 * hex_value(t[3]) + 16 * hex_value(t[4]) + hex_value(t[5]))]
            + json_unescape(t.skip(6))
    } else if t[0] == '\\' && t.len() >= 2 {
        seq![short_unescape(t[1])] + json_unescape(t.skip(2))
    } else {
        seq![t[0]] + json_unescape(t.drop_first())
    }
}

proof fn lemma_unescape_char(c: char, t: Seq<char>)
    ensures
        json_unescape(json_char_escape(c) + t) == seq![c] + json_unescape(t),
{
    let e = json_char_escape(c);
    let u = c as u32;
    if e.len() == 6 {
        assert((e + t).skip(6) =~= t);
        let h = (u / 16) as nat;
        let l = (u % 16) as nat;
        assert(hex_value(hex_digit(h)) == h);
        assert(hex_value(hex_digit(l)) == l);
        assert(hex_value('0') == 0);
        assert(4096 * hex_value((e + t)[2]) + 256 * hex_value((e + t)[3]) + 16 * hex_value((e + t)[4]) + hex_value((e + t)[5]) == c as int);
        assert(code_point(c) == c as int);
        let d = char_of(c as int);
        assert(code_point(d) == c as int);
    } else if e.len() == 2 {
        assert((e + t).skip(2) =~= t);
    } else {
        assert((e + t).drop_first() =~= t);
    }
}

/// Reading the contents of a JSON string literal back gives the characters
/// that were escaped into it.
pub proof fn json_escape_round_trip(s: Seq<char>)
    ensures
        json_unescape(json_escape(s)) == s,
    decreases s.len(),
{
    if s.len() > 0 {
        json_escape_round_trip(s.drop_first());
        lemma_unescape_char(s[0], json_escape(s.drop_first()));
        assert(seq![s[0]] + s.drop_first() =~= s);
    }
}

/// The JSON string literal of the characters `s`.
pub open spec fn json_string_of(s: Seq<char>) -> Seq<char> {
    seq!['"'] + json_escape(s) + seq!['"']
}

/// The decimal digit `d`, for `0 <= d < 10`.
pub open spec fn digit_char(d: nat) -> char {
    seq!['0', '1', '2', '3', '4', '5', '6', '7', '8', '9'][d as int]
}

/// Decimal digits of `n`, without leading zeros.
pub open spec fn decimal_nat(n: nat) -> Seq<char>
    decreases n,
{
    if n < 10 {
        seq![digit_char(n)]
    } else {
        decimal_nat(n / 10).push(digit_char(n % 10))
    }
}

/// Decimal notation of `n`, with a leading `-` when negative.
pub open spec fn decimal_of(n: int) -> Seq<char> {
    if n < 0 {
        seq!['-'] + decimal_nat((-n) as nat)
    } else {
        decimal_nat(n as nat)
    }
}

/// The JSON literal of a boolean.
pub open spec fn bool_json(b: bool) -> Seq<char> {
    if b {
        "true"@
    } else {
        "false"@
    }
}

/// The JSON object sent for an update request with these field values: the
/// six fields, in this order, under the keys `content`, `name`, `proxied`,
/// `type`, `comment`, `ttl`.
pub open spec fn update_body_view(
    content: Seq<char>,
    name: Seq<char>,
    proxied: bool,
    type_field: Seq<char>,
    comment: Seq<char>,
    ttl: int,
) -> Seq<char> {
    "{\"content\":"@ + json_string_of(content)
        + ",\"name\":"@ + json_string_of(name)
        + ",\"proxied\":"@ + bool_json(proxied)
        + ",\"type\":"@ + json_string_of(type_field)
        + ",\"comment\":"@ + json_string_of(comment)
        + ",\"ttl\":"@ + decimal_of(ttl)
        + "}"@
}

/// The JSON object sent for the update request `r`.
pub open spec fn update_body_of(r: CloudfareUpdateRecordRequest) -> Seq<char> {
    update_body_view(r.content@, r.name@, r.proxied, r.type_field@, r.comment@, r.ttl as int)
}

/// Number of characters of a string literal's contents in `t`, up to the
/// first quote that no backslash escapes.
pub open spec fn string_end(t: Seq<char>) -> nat
    decreases t.len(),
{
    if t.len() == 0 || t[0] == '"' {
        0
    } else if t[0] == '\\' && t.len() >= 2 {
        2 + string_end(t.skip(2))
    } else {
        1 + string_end(t.drop_first())
    }
}

/// Reads the JSON string literal that starts `t`: its characters, and what
/// follows its closing quote.
pub open spec fn read_string(t: Seq<char>) -> (Seq<char>, Seq<char>) {
    let body = t.drop_first();
    let n = string_end(body);
    (json_unescape(body.take(n as int)), body.skip(n + 1 as int))
}

/// Value of a decimal digit.
pub open spec fn digit_value(c: char) -> int {
    c as int - 48
}

/// Value of a sequence of decimal digits.
pub open spec fn read_nat(t: Seq<char>) -> int
    decreases t.len(),
{
    if t.len() == 0 {
        0
    } else {
        10 * read_nat(t.drop_last()) + digit_value(t.last())
    }
}

/// Value of a decimal integer, with an optional leading `-`.
pub open spec fn read_int(t: Seq<char>) -> int {
    if t.len() > 0 && t[0] == '-' {
        -read_nat(t.drop_first())
    } else {
        read_nat(t)
    }
}

/// What follows the literal `key` at the start of `t`, if `t` starts with it.
pub open spec fn after(key: Seq<char>, t: Seq<char>) -> Option<Seq<char>> {
    if key.len() <= t.len() && t.take(key.len() as int) == key {
        Some(t.skip(key.len() as int))
    } else {
        None
    }
}

/// Reads an update body laid out as `update_body_view` lays it out: the
/// content, name, proxied flag, type, comment and TTL it holds, or `None`
/// where a key or a literal is not where that layout puts it.
pub open spec fn read_update_body(b: Seq<char>) -> Option<(Seq<char>, Seq<char>, bool, Seq<char>, Seq<char>, int)> {
    match after("{\"content\":"@, b) {
        None => None,
        Some(t1) => {
            let (content, t2) = read_string(t1);
            match after(",\"name\":"@, t2) {
                None => None,
                Some(t3) => {
                    let (name, t4) = read_string(t3);
                    match after(",\"proxied\":"@, t4) {
                        None => None,
                        Some(t5) => {
                            let proxied = t5.len() > 0 && t5[0] == 't';
                            match after(bool_json(proxied), t5) {
                                None => None,
                                Some(t6) => match after(",\"type\":"@, t6) {
                                    None => None,
                                    Some(t7) => {
                                        let (type_field, t8) = read_string(t7);
                                        match after(",\"comment\":"@, t8) {
                                            None => None,
                                            Some(t9) => {
                                                let (comment, t10) = read_string(t9);
                                                match after(",\"ttl\":"@, t10) {
                                                    None => None,
                                                    Some(t11) => if t11.len() > 0 && t11.last() == '}' {
                                                        Some((content, name, proxied, type_field, comment, read_int(t11.drop_last())))
                                                    } else {
                                                        None
                                                    },
                                                }
                                            },
                                        }
                                    },
                                },
                            }
                        },
                    }
                },
            }
        },
    }
}

proof fn lemma_string_end(s: Seq<char>, r: Seq<char>)
    ensures
        string_end(json_escape(s) + seq!['"'] + r) == json_escape(s).len(),
    decreases s.len(),
{
    let q = seq!['"'] + r;
    assert(json_escape(s) + seq!['"'] + r =~= json_escape(s) + q);
    if s.len() == 0 {
        assert(json_escape(s) + q =~= q);
    } else {
        let c = s[0];
        let e = json_char_escape(c);
        let rest = json_escape(s.drop_first());
        lemma_string_end(s.drop_first(), r);
        assert(rest + seq!['"'] + r =~= rest + q);
        assert(json_escape(s) + q =~= e + (rest + q));
        let t = e + (rest + q);
        let tail = rest + q;
        assert(string_end(tail) == rest.len());
        if e.len() == 6 {
            let u = c as u32;
            let h = (u / 16) as nat;
            let l = (u % 16) as nat;
            assert(hex_value(hex_digit(h)) == h);
            assert(hex_value(hex_digit(l)) == l);
            assert(hex_digit(h) != '"' && hex_digit(h) != '\\');
            assert(hex_digit(l) != '"' && hex_digit(l) != '\\');
            let t2 = t.skip(2);
            let t3 = t2.drop_first();
            let t4 = t3.drop_first();
            let t5 = t4.drop_first();
            let t6 = t5.drop_first();
            assert(t2 =~= e.skip(2) + tail);
            assert(t3 =~= e.skip(3) + tail);
            assert(t4 =~= e.skip(4) + tail);
            assert(t5 =~= e.skip(5) + tail);
            assert(t6 =~= tail);
            assert(string_end(t5) == 1 + string_end(t6));
            assert(string_end(t4) == 1 + string_end(t5));
            assert(string_end(t3) == 1 + string_end(t4));
            assert(string_end(t2) == 1 + string_end(t3));
            assert(string_end(t) == 2 + string_end(t2));
        } else if e.len() == 2 {
            assert(t.skip(2) =~= tail);
            assert(string_end(t) == 2 + string_end(t.skip(2)));
        } else {
            assert(e == seq![c]);
            assert(t.drop_first() =~= tail);
            assert(string_end(t) == 1 + string_end(t.drop_first()));
        }
    }
}

proof fn lemma_read_string(s: Seq<char>, r: Seq<char>)
    ensures
        read_string(json_string_of(s) + r) == (s, r),
{
    let e = json_escape(s);
    let t = json_string_of(s) + r;
    assert(t.drop_first() =~= e + seq!['"'] + r);
    lemma_string_end(s, r);
    assert((e + seq!['"'] + r).take(e.len() as int) =~= e);
    assert((e + seq!['"'] + r).skip(e.len() + 1 as int) =~= r);
    json_escape_round_trip(s);
}

proof fn lemma_read_nat(n: nat)
    ensures
        read_nat(decimal_nat(n)) == n,
        decimal_nat(n).len() > 0,
        decimal_nat(n)[0] != '-',
    decreases n,
{
    if n >= 10 {
        lemma_read_nat(n / 10);
        let d = decimal_nat(n);
        assert(d.drop_last() =~= decimal_nat(n / 10));
        assert(d[0] == decimal_nat(n / 10)[0]);
        assert(digit_value(digit_char(n % 10)) == n % 10);
        assert(d.last() == digit_char(n % 10));
        assert(read_nat(d) == 10 * read_nat(d.drop_last()) + digit_value(d.last()));
        assert(10 * (n / 10) + n % 10 == n) by (nonlinear_arith);
    } else {
        let d = decimal_nat(n);
        assert(d.drop_last() =~= Seq::<char>::empty());
        assert(read_nat(d) == 10 * read_nat(d.drop_last()) + digit_value(d.last()));
        assert(digit_value(digit_char(n)) == n);
        assert(digit_value('-') < 0);
    }
}

proof fn lemma_read_int(n: int)
    ensures
        read_int(decimal_of(n)) == n,
{
    if n < 0 {
        lemma_read_nat((-n) as nat);
        assert((seq!['-'] + decimal_nat((-n) as nat)).drop_first() =~= decimal_nat((-n) as nat));
    } else {
        lemma_read_nat(n as nat);
    }
}

proof fn lemma_after(key: Seq<char>, t: Seq<char>)
    ensures
        after(key, key + t) == Some(t),
{
    assert((key + t).take(key.len() as int) =~= key);
    assert((key + t).skip(key.len() as int) =~= t);
}

/// An update body read back by `read_update_body` gives the six field
/// values it was written from, each verbatim.
#[verifier::rlimit(100)]
pub proof fn update_body_round_trip(
    content: Seq<char>,
    name: Seq<char>,
    proxied: bool,
    type_field: Seq<char>,
    comment: Seq<char>,
    ttl: int,
)
    ensures
        read_update_body(update_body_view(content, name, proxied, type_field, comment, ttl))
            == Some((content, name, proxied, type_field, comment, ttl)),
{
    let k1 = "{\"content\":"@;
    let k2 = ",\"name\":"@;
    let k3 = ",\"proxied\":"@;
    let k4 = ",\"type\":"@;
    let k5 = ",\"comment\":"@;
    let k6 = ",\"ttl\":"@;
    let close = "}"@;
    reveal_strlit("}");
    reveal_strlit("true");
    reveal_strlit("false");
    let t11 = decimal_of(ttl) + close;
    let t10 = k6 + t11;
    let t9 = json_string_of(comment) + t10;
    let t8 = k5 + t9;
    let t7 = json_string_of(type_field) + t8;
    let t6 = k4 + t7;
    let t5 = bool_json(proxied) + t6;
    let t4 = k3 + t5;
    let t3 = json_string_of(name) + t4;
    let t2 = k2 + t3;
    let t1 = json_string_of(content) + t2;
    let b = k1 + t1;
    assert(update_body_view(content, name, proxied, type_field, comment, ttl) =~= b);
    lemma_after(k1, t1);
    lemma_read_string(content, t2);
    lemma_after(k2, t3);
    lemma_read_string(name, t4);
    lemma_after(k3, t5);
    assert(t5[0] == bool_json(proxied)[0]);
    assert((t5.len() > 0 && t5[0] == 't') == proxied);
    lemma_after(bool_json(proxied), t6);
    lemma_after(k4, t7);
    lemma_read_string(type_field, t8);
    lemma_after(k5, t9);
    lemma_read_string(comment, t10);
    lemma_after(k6, t11);
    assert(t11.drop_last() =~= decimal_of(ttl));
    lemma_read_int(ttl);
}

/// The body of an update request, read back, gives the request's six
/// fields verbatim.
pub proof fn update_request_round_trip(r: CloudfareUpdateRecordRequest)
    ensures
        read_update_body(update_body_of(r))
            == Some((r.content@, r.name@, r.proxied, r.type_field@, r.comment@, r.ttl as int)),
{
    update_body_round_trip(r.content@, r.name@, r.proxied, r.type_field@, r.comment@, r.ttl as int);
}

/// Relies on serde_json::to_string on a `str`: the string literal, escaped
/// as `json_string_of` states. Writing into a `Vec` cannot fail.
#[verifier::external_body]
fn json_string(s: &str) -> (r: Result<String, serde_json::Error>)
    ensures
        r.is_ok(),
        r matches Ok(j) ==> j@ == json_string_of(s@),
{
    serde_json::to_string(s)
}

/// Relies on serde_json::to_string on an `i64`: its decimal notation.
/// Writing into a `Vec` cannot fail.
#[verifier::external_body]
fn json_i64(n: i64) -> (r: Result<String, serde_json::Error>)
    ensures
        r.is_ok(),
        r matches Ok(j) ==> j@ == decimal_of(n as int),
{
    serde_json::to_string(&n)
}

fn append_json_string(out: &mut String, s: &str)
    ensures
        final(out)@ == old(out)@ + json_string_of(s@),
{
    let j = json_string(s).unwrap();
    out.append(j.as_str());
}

impl CloudfareUpdateRecordRequest {
    /// Encodes the request as the JSON object that the provider expects.
    pub fn to_json(&self) -> (r: String)
        ensures
            r@ == update_body_of(*self),
    {
        let mut out = String::from_str("{\"content\":");
        append_json_string(&mut out, self.content.as_str());
        out.append(",\"name\":");
        append_json_string(&mut out, self.name.as_str());
        out.append(",\"proxied\":");
        if self.proxied {
            out.append("true");
        } else {
            out.append("false");
        }
        out.append(",\"type\":");
        append_json_string(&mut out, self.type_field.as_str());
        out.append(",\"comment\":");
        append_json_string(&mut out, self.comment.as_str());
        out.append(",\"ttl\":");
        let t = json_i64(self.ttl).unwrap();
        out.append(t.as_str());
        out.append("}");
        out
    }
}

} // verus!
