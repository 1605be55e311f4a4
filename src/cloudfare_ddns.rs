use vstd::prelude::*;
use vstd::string::StrSliceExecFns;

use crate::args::RecordType;
use crate::cloudfare_api_idl::{CloudfareRecordsResponse, CloudfareUpdateRecordRequest, CloudfareZonesResponse};
use crate::error::DdnsError;

verus! {

/// `s` ends with `suffix`.
pub open spec fn ends_with(s: Seq<char>, suffix: Seq<char>) -> bool {
    suffix.len() <= s.len() && s.subrange(s.len() - suffix.len(), s.len() as int) == suffix
}

/// A record name is acceptable under a zone when it is the zone name itself
/// or ends with it.
pub open spec fn is_fqdn_under(zone: Seq<char>, record: Seq<char>) -> bool {
    record == zone || ends_with(record, zone)
}

/// Code point of `c` with ASCII upper-case letters mapped to lower case.
pub open spec fn ascii_fold(c: char) -> u32 {
    if 65 <= c as u32 && c as u32 <= 90 {
        (c as u32 + 32) as u32
    } else {
        c as u32
    }
}

/// The two strings are equal up to ASCII case.
pub open spec fn eq_ignore_ascii_case(a: Seq<char>, b: Seq<char>) -> bool {
    a.len() == b.len() && forall|i: int| 0 <= i < a.len() ==> ascii_fold(#[trigger] a[i]) == ascii_fold(b[i])
}

fn str_ends_with(s: &str, suffix: &str) -> (r: bool)
    ensures
        r == ends_with(s@, suffix@),
{
    let n = s.unicode_len();
    let m = suffix.unicode_len();
    if m > n {
        return false;
    }
    let off = n - m;
    let mut i: usize = 0;
    while i < m
        invariant
            n == s@.len(),
            m == suffix@.len(),
            off == n - m,
            i <= m,
            forall|j: int| 0 <= j < i ==> s@[off + j] == suffix@[j],
        decreases m - i,
    {
        if s.get_char(off + i) != suffix.get_char(i) {
            assert(s@.subrange(off as int, n as int)[i as int] != suffix@[i as int]);
            return false;
        }
        i += 1;
    }
    assert(s@.subrange(off as int, n as int) =~= suffix@);
    true
}

fn fold_char(c: char) -> (r: u32)
    ensures
        r == ascii_fold(c),
{
    let u = c as u32;
    if 65 <= u && u <= 90 {
        u + 32
    } else {
        u
    }
}

/// Compares two addresses, ignoring the case of ASCII letters.
pub fn ip_eq_ignore_ascii_case(a: &str, b: &str) -> (r: bool)
    ensures
        r == eq_ignore_ascii_case(a@, b@),
{
    let n = a.unicode_len();
    let m = b.unicode_len();
    if n != m {
        return false;
    }
    let mut i: usize = 0;
    while i < n
        invariant
            n == a@.len(),
            m == b@.len(),
            n == m,
            i <= n,
            forall|j: int| 0 <= j < i ==> ascii_fold(#[trigger] a@[j]) == ascii_fold(b@[j]),
        decreases n - i,
    {
        if fold_char(a.get_char(i)) != fold_char(b.get_char(i)) {
            return false;
        }
        i += 1;
    }
    true
}

/// Checks that `record_name` is the zone name or a name under it, and hands
/// it back; any other name is an input error.
pub fn check_fqdn_record<'a>(zone_name: &str, record_name: &'a str) -> (r: Result<&'a str, DdnsError>)
    ensures
        r.is_ok() <==> is_fqdn_under(zone_name@, record_name@),
        r matches Ok(n) ==> n@ == record_name@,
        r.is_err() ==> r == Err::<&str, DdnsError>(DdnsError::Input),
{
    proof {
        if record_name@ == zone_name@ {
            assert(record_name@.subrange(0, record_name@.len() as int) =~= record_name@);
        }
    }
    if !str_ends_with(record_name, zone_name) {
        return Err(DdnsError::Input);
    }
    Ok(record_name)
}

/// Address of the service that echoes the caller's address of the given family.
pub open spec fn ip_endpoint_of(t: RecordType) -> Seq<char> {
    match t {
        RecordType::A => "http://4.ipw.cn"@,
        RecordType::AAAA => "http://6.ipw.cn"@,
    }
}

/// The plain-HTTP endpoint that answers with the caller's WAN address of
/// the family of `record_type`.
pub fn ip_endpoint(record_type: RecordType) -> (r: String)
    ensures
        r@ == ip_endpoint_of(record_type),
{
    match record_type {
        RecordType::A => String::from_str("http://4.ipw.cn"),
        RecordType::AAAA => String::from_str("http://6.ipw.cn"),
    }
}

/// Home directory taken from the environment, `~` when it is unset.
pub fn home_directory(env_home: Option<String>) -> (r: String)
    ensures
        env_home matches Some(h) ==> r@ == h@,
        env_home.is_none() ==> r@ == "~"@,
{
    match env_home {
        Some(h) => h,
        None => String::from_str("~"),
    }
}

/// File that holds the last address recorded for a record name.
pub open spec fn state_path_of(home: Seq<char>, record_name: Seq<char>) -> Seq<char> {
    home + "/.cf_old_wan_ip_"@ + record_name + ".txt"@
}

/// Path of the file that holds the last address recorded for `record_name`.
pub fn state_file_path(home: &str, record_name: &str) -> (r: String)
    ensures
        r@ == state_path_of(home@, record_name@),
{
    let mut p = String::from_str(home);
    p.append("/.cf_old_wan_ip_");
    p.append(record_name);
    p.append(".txt");
    p
}

/// The value of the `Authorization` header for an API token.
pub open spec fn bearer_of(token: Seq<char>) -> Seq<char> {
    "Bearer "@ + token
}

/// The value of the `Authorization` header for an API token.
pub fn bearer_token(token: &str) -> (r: String)
    ensures
        r@ == bearer_of(token@),
{
    let mut b = String::from_str("Bearer ");
    b.append(token);
    b
}

/// URL of the zone lookup by name.
pub open spec fn zones_url_of(zone_name: Seq<char>) -> Seq<char> {
    "https://api.cloudflare.com/client/v4/zones?name="@ + zone_name
}

/// URL of the zone lookup by name.
pub fn zones_url(zone_name: &str) -> (r: String)
    ensures
        r@ == zones_url_of(zone_name@),
{
    let mut u = String::from_str("https://api.cloudflare.com/client/v4/zones?name=");
    u.append(zone_name);
    u
}

/// URL of the DNS record lookup by name within a zone.
pub open spec fn records_url_of(zone_id: Seq<char>, record_name: Seq<char>) -> Seq<char> {
    "https://api.cloudflare.com/client/v4/zones/"@ + zone_id + "/dns_records?name="@ + record_name
}

/// URL of the DNS record lookup by name within a zone.
pub fn records_url(zone_id: &str, record_name: &str) -> (r: String)
    ensures
        r@ == records_url_of(zone_id@, record_name@),
{
    let mut u = String::from_str("https://api.cloudflare.com/client/v4/zones/");
    u.append(zone_id);
    u.append("/dns_records?name=");
    u.append(record_name);
    u
}

/// URL of the create-or-update call: the record identifier, empty for a
/// record that does not exist yet, ends the path.
pub open spec fn update_url_of(zone_id: Seq<char>, record_id: Seq<char>) -> Seq<char> {
    "https://api.cloudflare.com/client/v4/zones/"@ + zone_id + "/dns_records/"@ + record_id
}

/// URL of the create-or-update call.
pub fn update_url(zone_id: &str, record_id: &str) -> (r: String)
    ensures
        r@ == update_url_of(zone_id@, record_id@),
{
    let mut u = String::from_str("https://api.cloudflare.com/client/v4/zones/");
    u.append(zone_id);
    u.append("/dns_records/");
    u.append(record_id);
    u
}

/// HTTP method of a request to the provider.
#[derive(Copy, Clone, PartialEq, Eq, Debug, Structural)]
pub enum HttpMethod {
    Get,
    Post,
    Put,
}

/// Creation when no record exists, update of the existing one otherwise.
pub open spec fn update_method_of(record_id: Seq<char>) -> HttpMethod {
    if record_id.len() == 0 {
        HttpMethod::Post
    } else {
        HttpMethod::Put
    }
}

/// The method of the create-or-update call: `Post` creates a record when
/// the identifier is empty, `Put` updates the identified one.
pub fn update_method(record_id: &str) -> (r: HttpMethod)
    ensures
        r == update_method_of(record_id@),
{
    if record_id.is_empty() {
        HttpMethod::Post
    } else {
        HttpMethod::Put
    }
}

/// Identifier of the first zone of a lookup; none is a provider error.
pub fn zone_identifier(resp: &CloudfareZonesResponse) -> (r: Result<String, DdnsError>)
    ensures
        resp.result@.len() == 0 ==> r == Err::<String, DdnsError>(DdnsError::Provider),
        resp.result@.len() > 0 ==> (r matches Ok(id) && id@ == resp.result@[0].id@),
{
    if resp.result.len() == 0 {
        Err(DdnsError::Provider)
    } else {
        Ok(resp.result[0].id.clone())
    }
}

/// Identifier of the first record of a lookup, empty when there is none.
pub open spec fn record_identifier_of(resp: CloudfareRecordsResponse) -> Seq<char> {
    if resp.result@.len() == 0 {
        Seq::empty()
    } else {
        resp.result@[0].id@
    }
}

/// A record lookup with no result selects the create call, whose URL holds
/// no record identifier; one whose first record has an identifier selects
/// the update call, addressed by that identifier.
pub proof fn create_or_update_path(zone_id: Seq<char>, resp: CloudfareRecordsResponse)
    requires
        resp.result@.len() > 0 ==> resp.result@[0].id@.len() > 0,
    ensures
        resp.result@.len() == 0 ==> {
            &&& update_method_of(record_identifier_of(resp)) == HttpMethod::Post
            &&& update_url_of(zone_id, record_identifier_of(resp))
                == "https://api.cloudflare.com/client/v4/zones/"@ + zone_id + "/dns_records/"@
        },
        resp.result@.len() > 0 ==> {
            &&& update_method_of(record_identifier_of(resp)) == HttpMethod::Put
            &&& update_url_of(zone_id, record_identifier_of(resp))
                == "https://api.cloudflare.com/client/v4/zones/"@ + zone_id + "/dns_records/"@
                + resp.result@[0].id@
        },
{
    let base = "https://api.cloudflare.com/client/v4/zones/"@ + zone_id + "/dns_records/"@;
    if resp.result@.len() == 0 {
        assert(base + Seq::<char>::empty() =~= base);
    }
}

/// Identifier of the first record of a lookup; empty when the record does
/// not exist yet.
pub fn record_identifier(resp: &CloudfareRecordsResponse) -> (r: String)
    ensures
        r@ == record_identifier_of(*resp),
{
    if resp.result.len() == 0 {
        String::new()
    } else {
        resp.result[0].id.clone()
    }
}

/// The comment attached to every record this tool writes.
pub open spec fn ddns_comment() -> Seq<char> {
    "DDNS"@
}

/// The update request for an address, with the fixed comment.
pub fn build_update_request(
    current_ip: &str,
    record_name: &str,
    record_type: RecordType,
    ttl: i32,
    proxied: bool,
) -> (r: CloudfareUpdateRecordRequest)
    ensures
        r.content@ == current_ip@,
        r.name@ == record_name@,
        r.proxied == proxied,
        r.type_field@ == crate::args::type_tag(record_type),
        r.comment@ == ddns_comment(),
        r.ttl == ttl as i64,
{
    CloudfareUpdateRecordRequest {
        content: String::from_str(current_ip),
        name: String::from_str(record_name),
        proxied,
        type_field: record_type.tag(),
        comment: String::from_str("DDNS"),
        ttl: ttl as i64,
    }
}

/// A character with the Unicode White_Space property.
pub open spec fn is_white_space(c: char) -> bool {
    let u = c as u32;
    ||| 9 <= u <= 13
    ||| u == 0x20
    ||| u == 0x85
    ||| u == 0xA0
    ||| u == 0x1680
    ||| 0x2000 <= u <= 0x200A
    ||| u == 0x2028
    ||| u == 0x2029
    ||| u == 0x202F
    ||| u == 0x205F
    ||| u == 0x3000
}

/// `s` without its leading white space.
pub open spec fn trim_start_of(s: Seq<char>) -> Seq<char>
    decreases s.len(),
{
    if s.len() > 0 && is_white_space(s[0]) {
        trim_start_of(s.drop_first())
    } else {
        s
    }
}

/// `s` without its trailing white space.
pub open spec fn trim_end_of(s: Seq<char>) -> Seq<char>
    decreases s.len(),
{
    if s.len() > 0 && is_white_space(s.last()) {
        trim_end_of(s.drop_last())
    } else {
        s
    }
}

/// `s` without leading and trailing white space.
pub open spec fn trim_of(s: Seq<char>) -> Seq<char> {
    trim_end_of(trim_start_of(s))
}

/// Whether an HTTP status reports success (2xx).
pub fn is_success_status(status: u16) -> (r: bool)
    ensures
        r == (200 <= status < 300),
{
    200 <= status && status < 300
}

/// Relies on str::trim: the text without the leading and trailing characters
/// that have the Unicode White_Space property.
#[verifier::external_body]
fn trim_text(s: &str) -> (r: String)
    ensures
        r@ == trim_of(s@),
{
    s.trim().to_string()
}

/// How a run ended.
#[derive(Copy, Clone, PartialEq, Eq, Debug, Structural)]
pub enum Outcome {
    /// The address matched the recorded one: nothing was sent to the provider.
    Unchanged,
    /// The provider accepted the create or update call.
    Updated,
    /// The run aborted on this error.
    Failed(DdnsError),
}

/// Exit code of a run with this outcome.
pub open spec fn outcome_code(o: Outcome) -> i32 {
    match o {
        Outcome::Failed(_) => 2,
        _ => 0,
    }
}

impl Outcome {
    /// Process exit code: 0 when the run succeeded or had nothing to do, 2
    /// when it failed.
    pub fn exit_code(&self) -> (c: i32)
        ensures
            c == outcome_code(*self),
    {
        match self {
            Outcome::Failed(_) => 2,
            _ => 0,
        }
    }
}

/// A request to the provider's API. It is sent with the JSON content type.
#[derive(Debug)]
pub struct HttpRequest {
    pub method: HttpMethod,
    pub url: String,
    /// Value of the `Authorization` header.
    pub authorization: String,
    pub body: Option<String>,
}

/// The next thing a run asks its driver to do.
#[derive(Debug)]
pub enum Action {
    /// GET this URL and report its body as `Event::IpFetched`.
    FetchIp { url: String },
    /// Read this file and report its text, empty when it cannot be read, as
    /// `Event::OldIpRead`.
    ReadOldIp { path: String },
    /// Send this request to the provider and report the parsed reply.
    Request(HttpRequest),
    /// The run is over.
    Finish(Outcome),
}

/// An action as plain values.
pub enum ActionView {
    FetchIp(Seq<char>),
    ReadOldIp(Seq<char>),
    Request(HttpMethod, Seq<char>, Seq<char>, Option<Seq<char>>),
    Finish(Outcome),
}

impl View for Action {
    type V = ActionView;

    open spec fn view(&self) -> ActionView {
        match self {
            Action::FetchIp { url } => ActionView::FetchIp(url@),
            Action::ReadOldIp { path } => ActionView::ReadOldIp(path@),
            Action::Request(q) => ActionView::Request(
                q.method,
                q.url@,
                q.authorization@,
                match q.body {
                    Some(b) => Some(b@),
                    None => None,
                },
            ),
            Action::Finish(o) => ActionView::Finish(*o),
        }
    }
}

/// What the driver reports back after performing an action.
pub enum Event {
    /// The body returned by the address service, or why none came.
    IpFetched(Result<String, DdnsError>),
    /// The recorded address; empty when there is none.
    OldIpRead(String),
    /// The parsed reply to the zone lookup, or why none came.
    ZonesFetched(Result<CloudfareZonesResponse, DdnsError>),
    /// The parsed reply to the record lookup, or why none came.
    RecordsFetched(Result<CloudfareRecordsResponse, DdnsError>),
    /// The HTTP status of the reply to the create-or-update call, or why
    /// no reply came.
    UpdateSent(Result<u16, DdnsError>),
}

/// Where a run stands: which event it waits for next.
#[derive(Copy, Clone, PartialEq, Eq, Debug, Structural)]
pub enum Phase {
    AwaitIp,
    AwaitOldIp,
    AwaitZone,
    AwaitRecord,
    AwaitUpdate,
    Done,
}

/// The event that a run in phase `p` waits for.
pub open spec fn expects(p: Phase, ev: Event) -> bool {
    match p {
        Phase::AwaitIp => ev is IpFetched,
        Phase::AwaitOldIp => ev is OldIpRead,
        Phase::AwaitZone => ev is ZonesFetched,
        Phase::AwaitRecord => ev is RecordsFetched,
        Phase::AwaitUpdate => ev is UpdateSent,
        Phase::Done => false,
    }
}

/// One run of the updater for one record: the decisions of the workflow,
/// driven by the results of the requests it asks for.
#[derive(Debug)]
pub struct DdnsRun {
    /// Value of the `Authorization` header of provider requests.
    pub authorization: String,
    pub zone_name: String,
    pub record_name: String,
    pub record_type: RecordType,
    pub ttl: i32,
    pub proxied: bool,
    pub force: bool,
    /// Directory that holds the recorded addresses.
    pub home: String,
    pub phase: Phase,
    /// The WAN address, once it is known.
    pub current_ip: String,
    /// The zone identifier, once it is known.
    pub zone_id: String,
}

/// `a` and `b` run for the same settings.
pub open spec fn same_settings(a: DdnsRun, b: DdnsRun) -> bool {
    &&& a.authorization@ == b.authorization@
    &&& a.zone_name@ == b.zone_name@
    &&& a.record_name@ == b.record_name@
    &&& a.record_type == b.record_type
    &&& a.ttl == b.ttl
    &&& a.proxied == b.proxied
    &&& a.force == b.force
    &&& a.home@ == b.home@
}

/// The body of the create-or-update call of run `s`.
pub open spec fn run_update_body(s: DdnsRun) -> Seq<char> {
    crate::cloudfare_api_idl::update_body_view(
        s.current_ip@,
        s.record_name@,
        s.proxied,
        crate::args::type_tag(s.record_type),
        ddns_comment(),
        s.ttl as int,
    )
}

impl DdnsRun {
    /// Starts a run: its first action fetches the WAN address.
    pub fn new(
        authorization: String,
        zone_name: String,
        record_name: String,
        record_type: RecordType,
        ttl: i32,
        proxied: bool,
        force: bool,
        home: String,
    ) -> (r: (DdnsRun, Action))
        ensures
            r.0.authorization@ == authorization@,
            r.0.zone_name@ == zone_name@,
            r.0.record_name@ == record_name@,
            r.0.record_type == record_type,
            r.0.ttl == ttl,
            r.0.proxied == proxied,
            r.0.force == force,
            r.0.home@ == home@,
            r.0.phase == Phase::AwaitIp,
            r.1@ == ActionView::FetchIp(ip_endpoint_of(record_type)),
    {
        let run = DdnsRun {
            authorization,
            zone_name,
            record_name,
            record_type,
            ttl,
            proxied,
            force,
            home,
            phase: Phase::AwaitIp,
            current_ip: String::new(),
            zone_id: String::new(),
        };
        (run, Action::FetchIp { url: ip_endpoint(record_type) })
    }

    /// Whether `ev` is the event this run waits for.
    pub fn accepts(&self, ev: &Event) -> (r: bool)
        ensures
            r == expects(self.phase, *ev),
    {
        match (self.phase, ev) {
            (Phase::AwaitIp, Event::IpFetched(_)) => true,
            (Phase::AwaitOldIp, Event::OldIpRead(_)) => true,
            (Phase::AwaitZone, Event::ZonesFetched(_)) => true,
            (Phase::AwaitRecord, Event::RecordsFetched(_)) => true,
            (Phase::AwaitUpdate, Event::UpdateSent(_)) => true,
            _ => false,
        }
    }

    fn fail(&mut self, e: DdnsError) -> (r: Action)
        ensures
            same_settings(*old(self), *final(self)),
            final(self).phase == Phase::Done,
            r@ == ActionView::Finish(Outcome::Failed(e)),
    {
        self.phase = Phase::Done;
        Action::Finish(Outcome::Failed(e))
    }

    fn provider_get(&self, url: String) -> (r: Action)
        ensures
            r@ == ActionView::Request(HttpMethod::Get, url@, self.authorization@, None),
    {
        Action::Request(HttpRequest {
            method: HttpMethod::Get,
            url,
            authorization: self.authorization.clone(),
            body: None,
        })
    }

    /// Takes the event that the last action asked for and returns the next
    /// action.
    pub fn step(&mut self, ev: Event) -> (r: Action)
        requires
            expects(old(self).phase, ev),
        ensures
            same_settings(*old(self), *final(self)),
            r is Finish <==> final(self).phase == Phase::Done,
            ev matches Event::IpFetched(Err(e)) ==> r@ == ActionView::Finish(Outcome::Failed(e)),
            ev matches Event::IpFetched(Ok(body)) ==> {
                let ip = trim_of(body@);
                if is_fqdn_under(old(self).zone_name@, old(self).record_name@) {
                    &&& final(self).phase == Phase::AwaitOldIp
                    &&& final(self).current_ip@ == ip
                    &&& r@ == ActionView::ReadOldIp(
                        state_path_of(old(self).home@, old(self).record_name@),
                    )
                } else {
                    r@ == ActionView::Finish(Outcome::Failed(DdnsError::Input))
                }
            },
            ev matches Event::OldIpRead(last) ==> {
                if !old(self).force && eq_ignore_ascii_case(old(self).current_ip@, last@) {
                    r@ == ActionView::Finish(Outcome::Unchanged)
                } else {
                    &&& final(self).phase == Phase::AwaitZone
                    &&& final(self).current_ip@ == old(self).current_ip@
                    &&& r@ == ActionView::Request(
                        HttpMethod::Get,
                        zones_url_of(old(self).zone_name@),
                        old(self).authorization@,
                        None,
                    )
                }
            },
            ev matches Event::ZonesFetched(Err(e)) ==> r@ == ActionView::Finish(Outcome::Failed(e)),
            ev matches Event::ZonesFetched(Ok(resp)) ==> {
                if resp.result@.len() == 0 {
                    r@ == ActionView::Finish(Outcome::Failed(DdnsError::Provider))
                } else {
                    &&& final(self).phase == Phase::AwaitRecord
                    &&& final(self).current_ip@ == old(self).current_ip@
                    &&& final(self).zone_id@ == resp.result@[0].id@
                    &&& r@ == ActionView::Request(
                        HttpMethod::Get,
                        records_url_of(resp.result@[0].id@, old(self).record_name@),
                        old(self).authorization@,
                        None,
                    )
                }
            },
            ev matches Event::RecordsFetched(Err(e)) ==> r@ == ActionView::Finish(Outcome::Failed(e)),
            ev matches Event::RecordsFetched(Ok(resp)) ==> {
                let rid = record_identifier_of(resp);
                &&& final(self).phase == Phase::AwaitUpdate
                &&& r@ == ActionView::Request(
                    update_method_of(rid),
                    update_url_of(old(self).zone_id@, rid),
                    old(self).authorization@,
                    Some(run_update_body(*old(self))),
                )
            },
            ev matches Event::UpdateSent(Err(e)) ==> r@ == ActionView::Finish(Outcome::Failed(e)),
            ev matches Event::UpdateSent(Ok(status)) ==> r@ == ActionView::Finish(
                if 200 <= status < 300 {
                    Outcome::Updated
                } else {
                    Outcome::Failed(DdnsError::Provider)
                },
            ),
    {
        match ev {
            Event::IpFetched(Err(e)) => self.fail(e),
            Event::IpFetched(Ok(body)) => {
                let ip = trim_text(body.as_str());
                match check_fqdn_record(self.zone_name.as_str(), self.record_name.as_str()) {
                    Err(e) => self.fail(e),
                    Ok(_) => {
                        self.current_ip = ip;
                        self.phase = Phase::AwaitOldIp;
                        Action::ReadOldIp {
                            path: state_file_path(self.home.as_str(), self.record_name.as_str()),
                        }
                    },
                }
            },
            Event::OldIpRead(last) => {
                if !self.force && ip_eq_ignore_ascii_case(self.current_ip.as_str(), last.as_str()) {
                    self.phase = Phase::Done;
                    Action::Finish(Outcome::Unchanged)
                } else {
                    self.phase = Phase::AwaitZone;
                    let url = zones_url(self.zone_name.as_str());
                    self.provider_get(url)
                }
            },
            Event::ZonesFetched(Err(e)) => self.fail(e),
            Event::ZonesFetched(Ok(resp)) => {
                match zone_identifier(&resp) {
                    Err(e) => self.fail(e),
                    Ok(id) => {
                        let url = records_url(id.as_str(), self.record_name.as_str());
                        self.zone_id = id;
                        self.phase = Phase::AwaitRecord;
                        self.provider_get(url)
                    },
                }
            },
            Event::RecordsFetched(Err(e)) => self.fail(e),
            Event::RecordsFetched(Ok(resp)) => {
                let rid = record_identifier(&resp);
                let req = build_update_request(
                    self.current_ip.as_str(),
                    self.record_name.as_str(),
                    self.record_type,
                    self.ttl,
                    self.proxied,
                );
                let body = req.to_json();
                self.phase = Phase::AwaitUpdate;
                Action::Request(HttpRequest {
                    method: update_method(rid.as_str()),
                    url: update_url(self.zone_id.as_str(), rid.as_str()),
                    authorization: self.authorization.clone(),
                    body: Some(body),
                })
            },
            Event::UpdateSent(Err(e)) => self.fail(e),
            Event::UpdateSent(Ok(status)) => {
                if is_success_status(status) {
                    self.phase = Phase::Done;
                    Action::Finish(Outcome::Updated)
                } else {
                    self.fail(DdnsError::Provider)
                }
            },
        }
    }
}

} // verus!
