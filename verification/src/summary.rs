use vstd::prelude::*;
use crate::records::{Claims, UserRecord, PeerRecord, RuntimeStatus, copy_opt_text};
use crate::access::{is_admin_role, is_admin};
use crate::listing::peer_status;
use crate::text::text_eq;

verus! {

/// The text of an optional text, empty where there is none.
pub open spec fn text_or_empty(o: Option<String>) -> Seq<char> {
    match o {
        Some(t) => t@,
        None => Seq::empty(),
    }
}

/// `Option::unwrap_or_default` on an optional text.
pub fn copy_text_or_empty(o: &Option<String>) -> (r: String)
    ensures
        r@ == text_or_empty(*o),
{
    match o {
        Some(t) => t.clone(),
        None => String::new(),
    }
}

/// The first runtime entry for device `id`.
pub open spec fn runtime_of(rt: Seq<RuntimeStatus>, id: Seq<char>) -> Option<RuntimeStatus>
    decreases rt.len(),
{
    if rt.len() == 0 {
        None
    } else if rt[0].id@ == id {
        Some(rt[0])
    } else {
        runtime_of(rt.drop_first(), id)
    }
}

/// Finds the runtime entry of device `id`.
pub fn find_runtime(rt: &Vec<RuntimeStatus>, id: &str) -> (r: Option<usize>)
    ensures
        match r {
            Some(k) => k < rt@.len() && runtime_of(rt@, id@) == Some(rt@[k as int]),
            None => runtime_of(rt@, id@) is None,
        },
{
    let n = rt.len();
    let mut i: usize = 0;
    assert(rt@.subrange(0, n as int) =~= rt@);
    while i < n
        invariant
            n == rt@.len(),
            i <= n,
            runtime_of(rt@, id@) == runtime_of(rt@.subrange(i as int, n as int), id@),
        decreases n - i,
    {
        assert(rt@.subrange(i as int, n as int).drop_first() =~= rt@.subrange(i + 1, n as int));
        assert(rt@.subrange(i as int, n as int)[0] == rt@[i as int]);
        if text_eq(rt[i].id.as_str(), id) {
            return Some(i);
        }
        i = i + 1;
    }
    None
}

/// The last stored device with id `id` (later records of an id replace
/// earlier ones when the devices are looked up by id).
pub open spec fn peer_of(peers: Seq<PeerRecord>, id: Seq<char>) -> Option<PeerRecord>
    decreases peers.len(),
{
    if peers.len() == 0 {
        None
    } else if peers.last().id@ == id {
        Some(peers.last())
    } else {
        peer_of(peers.drop_last(), id)
    }
}

/// Finds the device with id `id`.
pub fn find_peer(peers: &Vec<PeerRecord>, id: &str) -> (r: Option<usize>)
    ensures
        match r {
            Some(k) => k < peers@.len() && peer_of(peers@, id@) == Some(peers@[k as int]),
            None => peer_of(peers@, id@) is None,
        },
{
    let n = peers.len();
    let mut i: usize = n;
    assert(peers@.subrange(0, n as int) =~= peers@);
    while i > 0
        invariant
            n == peers@.len(),
            i <= n,
            peer_of(peers@, id@) == peer_of(peers@.subrange(0, i as int), id@),
        decreases i,
    {
        assert(peers@.subrange(0, i as int).drop_last() =~= peers@.subrange(0, i - 1));
        assert(peers@.subrange(0, i as int).last() == peers@[i - 1]);
        if text_eq(peers[i - 1].id.as_str(), id) {
            return Some(i - 1);
        }
        i = i - 1;
    }
    None
}

/// A device as the device lists show it, with what the rendezvous server
/// knows of it.
#[derive(Debug)]
pub struct ClientDto {
    pub id: String,
    pub name: Option<String>,
    pub created_at: String,
    pub status: Option<i64>,
    pub is_controlled: bool,
    pub note: Option<String>,
    pub online: bool,
    pub last_seen_secs: Option<u64>,
    pub ip: String,
}

/// `c` shows device `p`: its stored fields, and from its runtime entry
/// whether it is online, when it was last seen and its address (offline,
/// never seen, no address where it has none).
pub open spec fn client_shows(c: ClientDto, p: PeerRecord, rt: Seq<RuntimeStatus>) -> bool {
    &&& c.id == p.id
    &&& c.name == p.name
    &&& c.created_at == p.created_at
    &&& c.status == p.status
    &&& c.is_controlled == (p.is_controlled != 0)
    &&& c.note == p.note
    &&& match runtime_of(rt, p.id@) {
        Some(s) => c.online == s.online && c.last_seen_secs == Some(s.last_seen_secs) && c.ip
            == s.ip,
        None => !c.online && c.last_seen_secs is None && c.ip@ == Seq::<char>::empty(),
    }
}

/// Device `p` as the device lists show it.
pub fn client_dto(p: &PeerRecord, rt: &Vec<RuntimeStatus>) -> (c: ClientDto)
    ensures
        client_shows(c, *p, rt@),
{
    let found = find_runtime(rt, p.id.as_str());
    let (online, last_seen_secs, ip) = match found {
        Some(k) => (rt[k].online, Some(rt[k].last_seen_secs), rt[k].ip.clone()),
        None => (false, None, String::new()),
    };
    ClientDto {
        id: p.id.clone(),
        name: copy_opt_text(&p.name),
        created_at: p.created_at.clone(),
        status: p.status,
        is_controlled: p.is_controlled != 0,
        note: copy_opt_text(&p.note),
        online,
        last_seen_secs,
        ip,
    }
}

/// The devices `rows`, in their order, as the device lists show them.
pub fn client_list(rows: &Vec<PeerRecord>, rt: &Vec<RuntimeStatus>) -> (r: Vec<ClientDto>)
    ensures
        r@.len() == rows@.len(),
        forall|i: int| 0 <= i < rows@.len() ==> client_shows(#[trigger] r@[i], rows@[i], rt@),
{
    let mut r: Vec<ClientDto> = Vec::new();
    let mut i: usize = 0;
    while i < rows.len()
        invariant
            i <= rows.len(),
            r@.len() == i,
            forall|j: int| 0 <= j < i ==> client_shows(#[trigger] r@[j], rows@[j], rt@),
        decreases rows.len() - i,
    {
        r.push(client_dto(&rows[i], rt));
        i = i + 1;
    }
    r
}

/// Whether `serde_json` reads `text` as a JSON value. It depends on the
/// text alone.
pub uninterp spec fn json_text_is_valid(text: Seq<char>) -> bool;

/// Calls `serde_json::from_str::<serde_json::Value>` and tells whether it
/// read the text. The contract claims only that the answer is the named one
/// for this text.
#[verifier::external_body]
fn json_parses(text: &str) -> (b: bool)
    ensures
        b == json_text_is_valid(text@),
{
    serde_json::from_str::<serde_json::Value>(text).is_ok()
}

/// A device as a page of the device list shows it. Its self-description is
/// passed on where it is JSON text; where it is not, none is (the page then
/// shows an empty object).
#[derive(Debug)]
pub struct PeerPageItem {
    pub id: String,
    pub name: String,
    pub info: Option<String>,
    pub status: i64,
    pub is_controlled: bool,
    pub note: String,
}

pub open spec fn page_item_shows(item: PeerPageItem, p: PeerRecord) -> bool {
    &&& item.id == p.id
    &&& item.name@ == text_or_empty(p.name)
    &&& item.info == (if json_text_is_valid(p.info@) {
        Some(p.info)
    } else {
        None
    })
    &&& item.status == peer_status(p)
    &&& item.is_controlled == (p.is_controlled != 0)
    &&& item.note@ == text_or_empty(p.note)
}

/// The devices `rows`, in their order, as a page of the device list shows
/// them.
pub fn peer_page_items(rows: &Vec<PeerRecord>) -> (r: Vec<PeerPageItem>)
    ensures
        r@.len() == rows@.len(),
        forall|i: int| 0 <= i < rows@.len() ==> page_item_shows(#[trigger] r@[i], rows@[i]),
{
    let mut r: Vec<PeerPageItem> = Vec::new();
    let mut i: usize = 0;
    while i < rows.len()
        invariant
            i <= rows.len(),
            r@.len() == i,
            forall|j: int| 0 <= j < i ==> page_item_shows(#[trigger] r@[j], rows@[j]),
        decreases rows.len() - i,
    {
        let p = &rows[i];
        r.push(
            PeerPageItem {
                id: p.id.clone(),
                name: copy_text_or_empty(&p.name),
                info: if json_parses(p.info.as_str()) {
                    Some(p.info.clone())
                } else {
                    None
                },
                status: match p.status {
                    Some(s) => s,
                    None => 1,
                },
                is_controlled: p.is_controlled != 0,
                note: copy_text_or_empty(&p.note),
            },
        );
        i = i + 1;
    }
    r
}

/// An account as the account list shows it, without its password hash.
#[derive(Debug)]
pub struct UserSummary {
    pub id: i64,
    pub username: String,
    pub role: String,
    pub status: i64,
    pub created_at: String,
}

pub open spec fn summary_shows(s: UserSummary, u: UserRecord) -> bool {
    s.id == u.id && s.username == u.username && s.role == u.role && s.status == u.status
        && s.created_at == u.created_at
}

/// The accounts `users`, in their order, as the account list shows them.
pub fn user_summaries(users: &Vec<UserRecord>) -> (r: Vec<UserSummary>)
    ensures
        r@.len() == users@.len(),
        forall|i: int| 0 <= i < users@.len() ==> summary_shows(#[trigger] r@[i], users@[i]),
{
    let mut r: Vec<UserSummary> = Vec::new();
    let mut i: usize = 0;
    while i < users.len()
        invariant
            i <= users.len(),
            r@.len() == i,
            forall|j: int| 0 <= j < i ==> summary_shows(#[trigger] r@[j], users@[j]),
        decreases users.len() - i,
    {
        let u = &users[i];
        r.push(
            UserSummary {
                id: u.id,
                username: u.username.clone(),
                role: u.role.clone(),
                status: u.status,
                created_at: u.created_at.clone(),
            },
        );
        i = i + 1;
    }
    r
}

/// An account as the desktop client's API describes it; its display name
/// is its name, and its other profile fields are empty.
#[derive(Debug)]
pub struct CompatUser {
    pub name: String,
    pub status: i64,
    pub is_admin: bool,
}

/// The desktop client's description of an account or device `name` with
/// role `role` and status `status`.
pub fn compat_user(name: &str, role: &str, status: i64) -> (u: CompatUser)
    ensures
        u.name@ == name@,
        u.status == status,
        u.is_admin == is_admin_role(role@),
{
    CompatUser { name: name.to_owned(), status, is_admin: text_eq(role, "admin") }
}

/// The accounts `users`, in their order, as the desktop client's API
/// describes them.
pub fn compat_users(users: &Vec<UserRecord>) -> (r: Vec<CompatUser>)
    ensures
        r@.len() == users@.len(),
        forall|i: int|
            0 <= i < users@.len() ==> {
                &&& (#[trigger] r@[i]).name@ == users@[i].username@
                &&& r@[i].status == users@[i].status
                &&& r@[i].is_admin == is_admin_role(users@[i].role@)
            },
{
    let mut r: Vec<CompatUser> = Vec::new();
    let mut i: usize = 0;
    while i < users.len()
        invariant
            i <= users.len(),
            r@.len() == i,
            forall|j: int|
                0 <= j < i ==> {
                    &&& (#[trigger] r@[j]).name@ == users@[j].username@
                    &&& r@[j].status == users@[j].status
                    &&& r@[j].is_admin == is_admin_role(users@[j].role@)
                },
        decreases users.len() - i,
    {
        let u = &users[i];
        r.push(compat_user(u.username.as_str(), u.role.as_str(), u.status));
        i = i + 1;
    }
    r
}

/// The logged-in account as the console shows it.
#[derive(Debug)]
pub struct CurrentUser {
    pub id: i64,
    pub username: String,
    pub role: String,
    pub is_admin: bool,
}

/// The holder of `claims` as the console shows it.
pub fn current_user(claims: &Claims) -> (u: CurrentUser)
    ensures
        u.id == claims.sub,
        u.username == claims.username,
        u.role == claims.role,
        u.is_admin == is_admin_role(claims.role@),
{
    CurrentUser {
        id: claims.sub,
        username: claims.username.clone(),
        role: claims.role.clone(),
        is_admin: is_admin(claims),
    }
}


/// Looking up a device by id finds a stored device with that id whenever
/// one is stored, and then the last one stored; it finds none only when no
/// stored device has that id.
pub proof fn law_device_lookup_finds_stored_device(peers: Seq<PeerRecord>, id: Seq<char>)
    ensures
        (exists|k: int| 0 <= k < peers.len() && #[trigger] peers[k].id@ == id) ==> (peer_of(
            peers,
            id,
        ) matches Some(p) && p.id@ == id && peers.contains(p)),
        peer_of(peers, id) is None ==> forall|k: int|
            0 <= k < peers.len() ==> #[trigger] peers[k].id@ != id,
        peer_of(peers, id) matches Some(p) ==> exists|k: int|
            0 <= k < peers.len() && #[trigger] peers[k] == p && p.id@ == id && forall|j: int|
                k < j < peers.len() ==> peers[j].id@ != id,
    decreases peers.len(),
{
    if peers.len() == 0 {
    } else if peers.last().id@ == id {
        let k = peers.len() - 1;
        assert(peers[k] == peers.last());
    } else {
        let rest = peers.drop_last();
        law_device_lookup_finds_stored_device(rest, id);
        assert forall|k: int| 0 <= k < rest.len() implies rest[k] == peers[k] by {}
        if exists|k: int| 0 <= k < peers.len() && #[trigger] peers[k].id@ == id {
            let k = choose|k: int| 0 <= k < peers.len() && #[trigger] peers[k].id@ == id;
            assert(k < rest.len());
            assert(rest[k].id@ == id);
            let p = peer_of(peers, id)->Some_0;
            let m = choose|m: int| 0 <= m < rest.len() && #[trigger] rest[m] == p;
            assert(peers[m] == p);
        }
        if peer_of(peers, id) is None {
            assert forall|k: int| 0 <= k < peers.len() implies #[trigger] peers[k].id@ != id by {
                if k < rest.len() {
                    assert(rest[k].id@ != id);
                }
            }
        }
        if peer_of(peers, id) is Some {
            let p = peer_of(peers, id)->Some_0;
            let k = choose|k: int|
                0 <= k < rest.len() && #[trigger] rest[k] == p && p.id@ == id && forall|j: int|
                    k < j < rest.len() ==> rest[j].id@ != id;
            assert(peers[k] == p);
            assert forall|j: int| k < j < peers.len() implies peers[j].id@ != id by {
                if j < rest.len() {
                    assert(rest[j] == peers[j]);
                }
            }
        }
    }
}

/// Looking up a device's runtime entry finds an entry for that id whenever
/// one exists, and then the first; it finds none only when no entry has
/// that id.
pub proof fn law_runtime_lookup_finds_entry(rt: Seq<RuntimeStatus>, id: Seq<char>)
    ensures
        (exists|k: int| 0 <= k < rt.len() && #[trigger] rt[k].id@ == id) ==> (runtime_of(
            rt,
            id,
        ) matches Some(s) && s.id@ == id && rt.contains(s)),
        runtime_of(rt, id) is None ==> forall|k: int| 0 <= k < rt.len() ==> #[trigger] rt[k].id@ != id,
        runtime_of(rt, id) matches Some(s) ==> exists|k: int|
            0 <= k < rt.len() && #[trigger] rt[k] == s && s.id@ == id && forall|j: int|
                0 <= j < k ==> rt[j].id@ != id,
    decreases rt.len(),
{
    if rt.len() == 0 {
    } else if rt[0].id@ == id {
        assert(rt[0].id@ == id);
    } else {
        let rest = rt.drop_first();
        law_runtime_lookup_finds_entry(rest, id);
        assert forall|k: int| 0 <= k < rest.len() implies rest[k] == rt[k + 1] by {}
        if exists|k: int| 0 <= k < rt.len() && #[trigger] rt[k].id@ == id {
            let k = choose|k: int| 0 <= k < rt.len() && #[trigger] rt[k].id@ == id;
            assert(k >= 1);
            assert(rest[k - 1].id@ == id);
            let s = runtime_of(rt, id)->Some_0;
            let m = choose|m: int| 0 <= m < rest.len() && #[trigger] rest[m] == s;
            assert(rt[m + 1] == s);
        }
        if runtime_of(rt, id) is None {
            assert forall|k: int| 0 <= k < rt.len() implies #[trigger] rt[k].id@ != id by {
                if k >= 1 {
                    assert(rest[k - 1].id@ != id);
                }
            }
        }
        if runtime_of(rt, id) is Some {
            let s = runtime_of(rt, id)->Some_0;
            let k = choose|k: int|
                0 <= k < rest.len() && #[trigger] rest[k] == s && s.id@ == id && forall|j: int|
                    0 <= j < k ==> rest[j].id@ != id;
            assert(rt[k + 1] == s);
            assert forall|j: int| 0 <= j < k + 1 implies rt[j].id@ != id by {
                if j >= 1 {
                    assert(rest[j - 1] == rt[j]);
                }
            }
        }
    }
}

} // verus!
