use vstd::prelude::*;
use crate::records::{UserRecord, PeerRecord, RuntimeStatus, DeviceGroup, copy_opt_text};
use crate::text::text_eq;
use crate::records::Claims;
use crate::access::{is_admin, is_admin_role};

verus! {

/// The page asked for: at least 1, 1 where none is given.
pub open spec fn page_number(current: Option<usize>) -> int {
    let c = match current {
        Some(c) => c as int,
        None => 1,
    };
    if c < 1 {
        1
    } else {
        c
    }
}

/// The page size asked for, between 1 and 500, 100 where none is given.
pub open spec fn page_length(page_size: Option<usize>) -> int {
    let p = match page_size {
        Some(p) => p as int,
        None => 100,
    };
    if p < 1 {
        1
    } else if p > 500 {
        500
    } else {
        p
    }
}

/// The index of the first item of the page asked for.
pub open spec fn page_start(current: Option<usize>, page_size: Option<usize>) -> int {
    (page_number(current) - 1) * page_length(page_size)
}

/// The page's start can be counted in a `usize`.
pub open spec fn page_in_range(current: Option<usize>, page_size: Option<usize>) -> bool {
    page_start(current, page_size) <= usize::MAX
}

/// The items of page `current` of size `page_size` (what
/// `iter().skip(start).take(size)` yields).
pub open spec fn page_of<T>(s: Seq<T>, current: Option<usize>, page_size: Option<usize>) -> Seq<T> {
    let start = page_start(current, page_size);
    let len = page_length(page_size);
    if start >= s.len() {
        Seq::empty()
    } else if start + len >= s.len() {
        s.subrange(start, s.len() as int)
    } else {
        s.subrange(start, start + len)
    }
}

/// Whether the page's start can be counted in a `usize`; where it cannot,
/// the page cannot be taken.
pub fn page_fits(current: Option<usize>, page_size: Option<usize>) -> (b: bool)
    ensures
        b == page_in_range(current, page_size),
{
    let (number, length) = page_params(current, page_size);
    let n = (number - 1) as u128;
    let l = length as u128;
    assert(n * l <= 0xffff_ffff_ffff_ffff_ffff_ffff_ffff_ffff) by (nonlinear_arith)
        requires
            n <= 0xffff_ffff_ffff_ffff,
            l <= 500,
    ;
    n * l <= usize::MAX as u128
}

fn page_params(current: Option<usize>, page_size: Option<usize>) -> (r: (usize, usize))
    ensures
        r.0 == page_number(current),
        r.1 == page_length(page_size),
        1 <= r.1 <= 500,
        r.0 >= 1,
{
    let mut number = match current {
        Some(c) => c,
        None => 1,
    };
    if number < 1 {
        number = 1;
    }
    let mut length = match page_size {
        Some(p) => p,
        None => 100,
    };
    if length < 1 {
        length = 1;
    } else if length > 500 {
        length = 500;
    }
    (number, length)
}

/// Page `current` of size `page_size` of `items`.
pub fn paginate<T>(items: Vec<T>, current: Option<usize>, page_size: Option<usize>) -> (page: Vec<T>)
    requires
        page_in_range(current, page_size),
    ensures
        page@ == page_of(items@, current, page_size),
        page@.len() <= 500,
{
    let (number, length) = page_params(current, page_size);
    let start = (number - 1) * length;
    let mut items = items;
    if start >= items.len() {
        return Vec::new();
    }
    let mut rest = items.split_off(start);
    rest.truncate(length);
    rest
}

/// Each item of a listing is found on the page its index falls in: with
/// pages of `size` items (1 to 500), item `i` is item `i % size` of page
/// `i / size + 1`.
pub proof fn law_every_item_is_on_its_page<T>(s: Seq<T>, size: usize, i: int)
    requires
        1 <= size <= 500,
        0 <= i < s.len(),
        i / (size as int) + 1 <= usize::MAX,
    ensures
        ({
            let current = Some((i / (size as int) + 1) as usize);
            let page = page_of(s, current, Some(size));
            &&& i % (size as int) < page.len()
            &&& page[i % (size as int)] == s[i]
        }),
{
    let q = i / (size as int);
    let r = i % (size as int);
    assert(i == q * (size as int) + r && 0 <= r < size) by (nonlinear_arith)
        requires
            size >= 1,
            q == i / (size as int),
            r == i % (size as int),
    ;
    assert(q >= 0) by (nonlinear_arith)
        requires
            size >= 1,
            i >= 0,
            q == i / (size as int),
    ;
    let current = Some((q + 1) as usize);
    assert(page_number(current) == q + 1);
    assert(page_length(Some(size)) == size);
    assert(page_start(current, Some(size)) == q * (size as int));
}

/// Which accounts or devices a listing keeps, from its `status` parameter:
/// `"1"` the enabled ones, `"0"` the disabled ones, anything else all.
#[derive(Debug)]
pub enum StatusFilter {
    Enabled,
    Disabled,
    Any,
}

pub open spec fn status_filter_of(q: Option<Seq<char>>) -> StatusFilter {
    if q == Some("1"@) {
        StatusFilter::Enabled
    } else if q == Some("0"@) {
        StatusFilter::Disabled
    } else {
        StatusFilter::Any
    }
}

pub open spec fn opt_text_view(q: Option<String>) -> Option<Seq<char>> {
    match q {
        Some(t) => Some(t@),
        None => None,
    }
}

/// Reads a listing's `status` parameter.
pub fn status_filter(q: &Option<String>) -> (f: StatusFilter)
    ensures
        f == status_filter_of(opt_text_view(*q)),
{
    match q {
        Some(t) => {
            if text_eq(t.as_str(), "1") {
                StatusFilter::Enabled
            } else if text_eq(t.as_str(), "0") {
                StatusFilter::Disabled
            } else {
                StatusFilter::Any
            }
        },
        None => StatusFilter::Any,
    }
}

/// An account is listed as enabled when its status is 1, as disabled when
/// it is 0.
pub open spec fn user_kept(f: StatusFilter, u: UserRecord) -> bool {
    match f {
        StatusFilter::Enabled => u.status == 1,
        StatusFilter::Disabled => u.status == 0,
        StatusFilter::Any => true,
    }
}

/// A device's status, 1 where none is stored.
pub open spec fn peer_status(p: PeerRecord) -> i64 {
    match p.status {
        Some(s) => s,
        None => 1,
    }
}

/// A device is listed as disabled when its status is 0, as enabled
/// otherwise.
pub open spec fn peer_kept(f: StatusFilter, p: PeerRecord) -> bool {
    match f {
        StatusFilter::Enabled => peer_status(p) != 0,
        StatusFilter::Disabled => peer_status(p) == 0,
        StatusFilter::Any => true,
    }
}

proof fn lemma_filter_take_step<A>(s: Seq<A>, pred: spec_fn(A) -> bool, i: int)
    requires
        0 <= i < s.len(),
    ensures
        s.take(i + 1).filter(pred) == (if pred(s[i]) {
            s.take(i).filter(pred).push(s[i])
        } else {
            s.take(i).filter(pred)
        }),
{
    reveal_with_fuel(Seq::<_>::filter, 1);
    assert(s.take(i + 1).drop_last() =~= s.take(i));
}

/// The accounts that `f` keeps, in their order.
pub fn filter_users(users: &Vec<UserRecord>, f: StatusFilter) -> (r: Vec<UserRecord>)
    ensures
        r@ == users@.filter(|u: UserRecord| user_kept(f, u)),
{
    let ghost pred = |u: UserRecord| user_kept(f, u);
    let mut r: Vec<UserRecord> = Vec::new();
    let mut i: usize = 0;
    while i < users.len()
        invariant
            i <= users.len(),
            pred == (|u: UserRecord| user_kept(f, u)),
            r@ == users@.take(i as int).filter(pred),
        decreases users.len() - i,
    {
        proof {
            lemma_filter_take_step(users@, pred, i as int);
        }
        let u = &users[i];
        let keep = match f {
            StatusFilter::Enabled => u.status == 1,
            StatusFilter::Disabled => u.status == 0,
            StatusFilter::Any => true,
        };
        assert(keep == pred(users@[i as int]));
        if keep {
            r.push(u.duplicate());
        }
        i = i + 1;
    }
    assert(users@.take(users.len() as int) =~= users@);
    r
}

/// The devices that `f` keeps, in their order.
pub fn filter_peers(peers: &Vec<PeerRecord>, f: StatusFilter) -> (r: Vec<PeerRecord>)
    ensures
        r@ == peers@.filter(|p: PeerRecord| peer_kept(f, p)),
{
    let ghost pred = |p: PeerRecord| peer_kept(f, p);
    let mut r: Vec<PeerRecord> = Vec::new();
    let mut i: usize = 0;
    while i < peers.len()
        invariant
            i <= peers.len(),
            pred == (|p: PeerRecord| peer_kept(f, p)),
            r@ == peers@.take(i as int).filter(pred),
        decreases peers.len() - i,
    {
        proof {
            lemma_filter_take_step(peers@, pred, i as int);
        }
        let p = &peers[i];
        let status = match p.status {
            Some(s) => s,
            None => 1,
        };
        let keep = match f {
            StatusFilter::Enabled => status != 0,
            StatusFilter::Disabled => status == 0,
            StatusFilter::Any => true,
        };
        assert(keep == pred(peers@[i as int]));
        if keep {
            r.push(p.duplicate());
        }
        i = i + 1;
    }
    assert(peers@.take(peers.len() as int) =~= peers@);
    r
}


/// The texts of `v`.
pub open spec fn texts(v: Seq<String>) -> Seq<Seq<char>> {
    v.map_values(|t: String| t@)
}

/// Whether `t` is one of `list`.
pub fn contains_text(list: &Vec<String>, t: &str) -> (b: bool)
    ensures
        b == texts(list@).contains(t@),
{
    let mut i: usize = 0;
    while i < list.len()
        invariant
            i <= list.len(),
            forall|j: int| 0 <= j < i ==> list@[j]@ != t@,
        decreases list.len() - i,
    {
        if text_eq(list[i].as_str(), t) {
            assert(texts(list@)[i as int] == t@);
            return true;
        }
        i = i + 1;
    }
    assert(!texts(list@).contains(t@)) by {
        if texts(list@).contains(t@) {
            let j = choose|j: int| 0 <= j < texts(list@).len() && texts(list@)[j] == t@;
            assert(list@[j]@ == t@);
        }
    }
    false
}

/// The devices a non-administrator was given: directly, and through the
/// groups it was given.
#[derive(Debug)]
pub struct PeerAllowList {
    pub direct: Vec<String>,
    pub grouped: Vec<String>,
}

/// Whether a device is listed for a caller: administrators (no allow
/// list) see every device; others see the controlled devices they were
/// given, directly or through a group.
pub open spec fn peer_allowed(allow: Option<PeerAllowList>, p: PeerRecord) -> bool {
    match allow {
        None => true,
        Some(a) => (texts(a.direct@).contains(p.id@) || texts(a.grouped@).contains(p.id@))
            && p.is_controlled != 0,
    }
}

/// The devices listed for a caller, in their order.
pub fn visible_peers(rows: &Vec<PeerRecord>, allow: &Option<PeerAllowList>) -> (r: Vec<PeerRecord>)
    ensures
        r@ == rows@.filter(|p: PeerRecord| peer_allowed(*allow, p)),
{
    let ghost pred = |p: PeerRecord| peer_allowed(*allow, p);
    let mut r: Vec<PeerRecord> = Vec::new();
    let mut i: usize = 0;
    while i < rows.len()
        invariant
            i <= rows.len(),
            pred == (|p: PeerRecord| peer_allowed(*allow, p)),
            r@ == rows@.take(i as int).filter(pred),
        decreases rows.len() - i,
    {
        proof {
            lemma_filter_take_step(rows@, pred, i as int);
        }
        let p = &rows[i];
        let keep = match allow {
            None => true,
            Some(a) => (contains_text(&a.direct, p.id.as_str()) || contains_text(
                &a.grouped,
                p.id.as_str(),
            )) && p.is_controlled != 0,
        };
        assert(keep == pred(rows@[i as int]));
        if keep {
            r.push(p.duplicate());
        }
        i = i + 1;
    }
    assert(rows@.take(rows.len() as int) =~= rows@);
    r
}

/// A device listed for a non-administrator is a controlled device that it
/// was given, directly or through a group.
pub proof fn law_listed_devices_were_given(
    rows: Seq<PeerRecord>,
    allow: PeerAllowList,
    listed: Seq<PeerRecord>,
    k: int,
)
    requires
        listed == rows.filter(|p: PeerRecord| peer_allowed(Some(allow), p)),
        0 <= k < listed.len(),
    ensures
        rows.contains(listed[k]),
        listed[k].is_controlled != 0,
        texts(allow.direct@).contains(listed[k].id@) || texts(allow.grouped@).contains(listed[k].id@),
{
    let pred = |p: PeerRecord| peer_allowed(Some(allow), p);
    assert(listed.contains(listed[k]));
    rows.lemma_filter_contains_rev(pred, listed[k]);
    rows.lemma_filter_pred(pred, k);
}

/// Whether a device group is listed for a caller: administrators (no allow
/// list) see every group, others the groups they were given.
pub open spec fn group_allowed(allow: Option<Vec<i64>>, g: DeviceGroup) -> bool {
    match allow {
        None => true,
        Some(ids) => ids@.contains(g.id),
    }
}

fn contains_id(ids: &Vec<i64>, id: i64) -> (b: bool)
    ensures
        b == ids@.contains(id),
{
    let mut i: usize = 0;
    while i < ids.len()
        invariant
            i <= ids.len(),
            forall|j: int| 0 <= j < i ==> ids@[j] != id,
        decreases ids.len() - i,
    {
        if ids[i] == id {
            assert(ids@[i as int] == id);
            return true;
        }
        i = i + 1;
    }
    false
}

/// The device groups listed for a caller, in their order.
pub fn visible_groups(groups: &Vec<DeviceGroup>, allow: &Option<Vec<i64>>) -> (r: Vec<DeviceGroup>)
    ensures
        r@ == groups@.filter(|g: DeviceGroup| group_allowed(*allow, g)),
{
    let ghost pred = |g: DeviceGroup| group_allowed(*allow, g);
    let mut r: Vec<DeviceGroup> = Vec::new();
    let mut i: usize = 0;
    while i < groups.len()
        invariant
            i <= groups.len(),
            pred == (|g: DeviceGroup| group_allowed(*allow, g)),
            r@ == groups@.take(i as int).filter(pred),
        decreases groups.len() - i,
    {
        proof {
            lemma_filter_take_step(groups@, pred, i as int);
        }
        let g = &groups[i];
        let keep = match allow {
            None => true,
            Some(ids) => contains_id(ids, g.id),
        };
        assert(keep == pred(groups@[i as int]));
        if keep {
            r.push(g.duplicate());
        }
        i = i + 1;
    }
    assert(groups@.take(groups.len() as int) =~= groups@);
    r
}


proof fn lemma_filter_complement<A>(s: Seq<A>, p: spec_fn(A) -> bool, q: spec_fn(A) -> bool)
    requires
        forall|x: A| #[trigger] q(x) == !p(x),
    ensures
        s.filter(p).len() + s.filter(q).len() == s.len(),
    decreases s.len(),
{
    reveal_with_fuel(Seq::<_>::filter, 1);
    if s.len() > 0 {
        lemma_filter_complement(s.drop_last(), p, q);
        assert(q(s.last()) == !p(s.last()));
    }
}

proof fn lemma_filter_all<A>(s: Seq<A>, p: spec_fn(A) -> bool)
    requires
        forall|x: A| #[trigger] p(x),
    ensures
        s.filter(p) == s,
    decreases s.len(),
{
    reveal_with_fuel(Seq::<_>::filter, 1);
    if s.len() > 0 {
        lemma_filter_all(s.drop_last(), p);
        assert(p(s.last()));
        assert(s.drop_last().push(s.last()) =~= s);
    } else {
        assert(s.filter(p) =~= s);
    }
}

/// Listing the enabled devices and listing the disabled devices together
/// list every device once: the two filters split the devices.
pub proof fn law_device_status_filters_split(peers: Seq<PeerRecord>)
    ensures
        peers.filter(|p: PeerRecord| peer_kept(StatusFilter::Enabled, p)).len() + peers.filter(
            |p: PeerRecord| peer_kept(StatusFilter::Disabled, p),
        ).len() == peers.len(),
{
    lemma_filter_complement(
        peers,
        |p: PeerRecord| peer_kept(StatusFilter::Enabled, p),
        |p: PeerRecord| peer_kept(StatusFilter::Disabled, p),
    );
}

/// A listing without a status filter keeps every account and every device.
pub proof fn law_no_status_filter_keeps_all(users: Seq<UserRecord>, peers: Seq<PeerRecord>)
    ensures
        users.filter(|u: UserRecord| user_kept(StatusFilter::Any, u)) == users,
        peers.filter(|p: PeerRecord| peer_kept(StatusFilter::Any, p)) == peers,
{
    lemma_filter_all(users, |u: UserRecord| user_kept(StatusFilter::Any, u));
    lemma_filter_all(peers, |p: PeerRecord| peer_kept(StatusFilter::Any, p));
}

/// Administrators (no allow list) are shown every device and every group.
pub proof fn law_admin_sees_everything(rows: Seq<PeerRecord>, groups: Seq<DeviceGroup>)
    ensures
        rows.filter(|p: PeerRecord| peer_allowed(None, p)) == rows,
        groups.filter(|g: DeviceGroup| group_allowed(None, g)) == groups,
{
    lemma_filter_all(rows, |p: PeerRecord| peer_allowed(None, p));
    lemma_filter_all(groups, |g: DeviceGroup| group_allowed(None, g));
}

/// Whether a listing request asks for a page (it names a page or a page
/// size); otherwise the whole list is sent.
pub fn wants_page(current: Option<usize>, page_size: Option<usize>) -> (b: bool)
    ensures
        b == (current is Some || page_size is Some),
{
    current.is_some() || page_size.is_some()
}

/// The window of the connection audit that a request asks for: from
/// `offset` (0 by default), at most `limit` entries (50 by default).
pub fn audit_window(offset: Option<usize>, limit: Option<usize>) -> (r: (usize, usize))
    ensures
        r.0 == (match offset {
            Some(o) => o,
            None => 0,
        }),
        r.1 == (match limit {
            Some(l) => l,
            None => 50,
        }),
{
    let o = match offset {
        Some(o) => o,
        None => 0,
    };
    let l = match limit {
        Some(l) => l,
        None => 50,
    };
    (o, l)
}


/// Whose grants limit what a listing of devices or groups shows.
#[derive(Debug)]
pub enum GrantScope {
    /// Nobody's: administrators see everything, and no grants are read.
    Everything,
    /// The grants of this account.
    GrantsOf(i64),
}

/// Administrators see every device and group; anyone else, what their own
/// account was given.
pub fn grant_scope(claims: &Claims) -> (r: GrantScope)
    ensures
        is_admin_role(claims.role@) ==> r is Everything,
        !is_admin_role(claims.role@) ==> r == GrantScope::GrantsOf(claims.sub),
{
    if is_admin(claims) {
        GrantScope::Everything
    } else {
        GrantScope::GrantsOf(claims.sub)
    }
}


/// `texts` keeps every text of a list, in its place, so a text is among
/// them exactly when some element of the list has it.
pub proof fn law_texts_keep_every_text(v: Seq<String>, t: Seq<char>)
    ensures
        texts(v).len() == v.len(),
        forall|j: int| 0 <= j < v.len() ==> #[trigger] texts(v)[j] == v[j]@,
        texts(v).contains(t) <==> exists|j: int| 0 <= j < v.len() && #[trigger] v[j]@ == t,
{
    if exists|j: int| 0 <= j < v.len() && #[trigger] v[j]@ == t {
        let j = choose|j: int| 0 <= j < v.len() && #[trigger] v[j]@ == t;
        assert(texts(v)[j] == t);
    }
    if texts(v).contains(t) {
        let j = choose|j: int| 0 <= j < texts(v).len() && texts(v)[j] == t;
        assert(v[j]@ == t);
    }
}

/// A non-administrator is shown every controlled device whose id it was
/// given, directly or through a group (that it is shown no other device is
/// `law_listed_devices_were_given`).
pub proof fn law_given_devices_are_listed(rows: Seq<PeerRecord>, allow: PeerAllowList, k: int)
    requires
        0 <= k < rows.len(),
    ensures
        ({
            let listed = rows.filter(|p: PeerRecord| peer_allowed(Some(allow), p));
            let given = (exists|j: int|
                0 <= j < allow.direct@.len() && #[trigger] allow.direct@[j]@ == rows[k].id@) || (exists|
                j: int|
                0 <= j < allow.grouped@.len() && #[trigger] allow.grouped@[j]@ == rows[k].id@);
            listed.contains(rows[k]) <== (given && rows[k].is_controlled != 0)
        }),
{
    let pred = |p: PeerRecord| peer_allowed(Some(allow), p);
    law_texts_keep_every_text(allow.direct@, rows[k].id@);
    law_texts_keep_every_text(allow.grouped@, rows[k].id@);
    if pred(rows[k]) {
        rows.lemma_filter_contains(pred, k);
    }
}

/// The groups listed for a caller with allow list `allow` (what
/// `visible_groups` gives).
pub open spec fn listed_groups(groups: Seq<DeviceGroup>, allow: Option<Vec<i64>>) -> Seq<DeviceGroup> {
    groups.filter(|g: DeviceGroup| group_allowed(allow, g))
}

/// A non-administrator is shown every stored group whose id it was given,
/// and only such groups.
pub proof fn law_given_groups_are_listed(groups: Seq<DeviceGroup>, ids: Vec<i64>, k: int)
    requires
        0 <= k < groups.len(),
    ensures
        (exists|j: int| 0 <= j < ids@.len() && #[trigger] ids@[j] == groups[k].id) ==> groups.filter(
            |g: DeviceGroup| group_allowed(Some(ids), g),
        ).contains(groups[k]),
        forall|m: int|
            0 <= m < listed_groups(groups, Some(ids)).len() ==> ids@.contains(
                #[trigger] listed_groups(groups, Some(ids))[m].id,
            ),
{
    let pred = |g: DeviceGroup| group_allowed(Some(ids), g);
    let listed = groups.filter(pred);
    if exists|j: int| 0 <= j < ids@.len() && #[trigger] ids@[j] == groups[k].id {
        let j = choose|j: int| 0 <= j < ids@.len() && #[trigger] ids@[j] == groups[k].id;
        assert(ids@.contains(groups[k].id));
        assert(pred(groups[k]));
        groups.lemma_filter_contains(pred, k);
    }
    assert forall|m: int| 0 <= m < listed.len() implies ids@.contains(#[trigger] listed[m].id) by {
        groups.lemma_filter_pred(pred, m);
    }
}

} // verus!
