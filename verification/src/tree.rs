use vstd::prelude::*;
use crate::records::{UserRecord, PeerRecord, RuntimeStatus, DeviceGroup};
use crate::listing::peer_status;
use crate::summary::{
    text_or_empty, runtime_of, peer_of, find_runtime, find_peer, copy_text_or_empty,
};
use crate::text::{signed_decimal_text, append_signed_decimal};

verus! {

/// What the trees show of a stored device.
#[derive(Debug)]
pub struct DeviceDetail {
    pub name: String,
    pub status: i64,
    pub is_controlled: bool,
    pub online: bool,
    pub last_seen_secs: Option<u64>,
}

/// A device of a tree; only its id where it is not stored.
#[derive(Debug)]
pub struct DeviceNode {
    pub id: String,
    pub detail: Option<DeviceDetail>,
}

/// `n` shows the device with id `id`.
pub open spec fn device_node_shows(
    n: DeviceNode,
    id: Seq<char>,
    peers: Seq<PeerRecord>,
    rt: Seq<RuntimeStatus>,
) -> bool {
    &&& n.id@ == id
    &&& match peer_of(peers, id) {
        None => n.detail is None,
        Some(p) => match n.detail {
            None => false,
            Some(d) => {
                &&& d.name@ == text_or_empty(p.name)
                &&& d.status == peer_status(p)
                &&& d.is_controlled == (p.is_controlled != 0)
                &&& match runtime_of(rt, id) {
                    Some(s) => d.online == s.online && d.last_seen_secs == Some(s.last_seen_secs),
                    None => !d.online && d.last_seen_secs is None,
                }
            },
        },
    }
}

/// `nodes` show the devices `ids`, in their order.
pub open spec fn devices_show(
    nodes: Seq<DeviceNode>,
    ids: Seq<String>,
    peers: Seq<PeerRecord>,
    rt: Seq<RuntimeStatus>,
) -> bool {
    &&& nodes.len() == ids.len()
    &&& forall|j: int| 0 <= j < ids.len() ==> device_node_shows(#[trigger] nodes[j], ids[j]@, peers, rt)
}

/// The device with id `id`, as the trees show it.
pub fn device_node(id: &String, peers: &Vec<PeerRecord>, rt: &Vec<RuntimeStatus>) -> (n: DeviceNode)
    ensures
        device_node_shows(n, id@, peers@, rt@),
{
    match find_peer(peers, id.as_str()) {
        None => DeviceNode { id: id.clone(), detail: None },
        Some(k) => {
            let p = &peers[k];
            let (online, last_seen_secs) = match find_runtime(rt, id.as_str()) {
                Some(m) => (rt[m].online, Some(rt[m].last_seen_secs)),
                None => (false, None),
            };
            DeviceNode {
                id: id.clone(),
                detail: Some(
                    DeviceDetail {
                        name: copy_text_or_empty(&p.name),
                        status: match p.status {
                            Some(s) => s,
                            None => 1,
                        },
                        is_controlled: p.is_controlled != 0,
                        online,
                        last_seen_secs,
                    },
                ),
            }
        },
    }
}

/// The devices `ids`, in their order, as the trees show them.
pub fn device_nodes(ids: &Vec<String>, peers: &Vec<PeerRecord>, rt: &Vec<RuntimeStatus>) -> (r: Vec<
    DeviceNode,
>)
    ensures
        devices_show(r@, ids@, peers@, rt@),
{
    let mut r: Vec<DeviceNode> = Vec::new();
    let mut i: usize = 0;
    while i < ids.len()
        invariant
            i <= ids.len(),
            r@.len() == i,
            forall|j: int| 0 <= j < i ==> device_node_shows(#[trigger] r@[j], ids@[j]@, peers@, rt@),
        decreases ids.len() - i,
    {
        r.push(device_node(&ids[i], peers, rt));
        i = i + 1;
    }
    r
}

/// A device group with its devices.
#[derive(Debug)]
pub struct GroupTreeNode {
    pub id: i64,
    pub name: String,
    pub created_at: String,
    pub devices: Vec<DeviceNode>,
}

pub open spec fn group_node_shows(
    n: GroupTreeNode,
    g: DeviceGroup,
    members: Seq<String>,
    peers: Seq<PeerRecord>,
    rt: Seq<RuntimeStatus>,
) -> bool {
    &&& n.id == g.id
    &&& n.name == g.name
    &&& n.created_at == g.created_at
    &&& devices_show(n.devices@, members, peers, rt)
}

/// The group tree: each group, in order, with its members (`members[i]`
/// are the ids of group `i`'s devices).
pub fn group_tree(
    groups: &Vec<DeviceGroup>,
    members: &Vec<Vec<String>>,
    peers: &Vec<PeerRecord>,
    rt: &Vec<RuntimeStatus>,
) -> (r: Vec<GroupTreeNode>)
    requires
        members@.len() == groups@.len(),
    ensures
        r@.len() == groups@.len(),
        forall|i: int|
            0 <= i < groups@.len() ==> group_node_shows(
                #[trigger] r@[i],
                groups@[i],
                members@[i]@,
                peers@,
                rt@,
            ),
{
    let mut r: Vec<GroupTreeNode> = Vec::new();
    let mut i: usize = 0;
    while i < groups.len()
        invariant
            i <= groups.len(),
            members@.len() == groups@.len(),
            r@.len() == i,
            forall|j: int|
                0 <= j < i ==> group_node_shows(
                    #[trigger] r@[j],
                    groups@[j],
                    members@[j]@,
                    peers@,
                    rt@,
                ),
        decreases groups.len() - i,
    {
        let g = &groups[i];
        r.push(
            GroupTreeNode {
                id: g.id,
                name: g.name.clone(),
                created_at: g.created_at.clone(),
                devices: device_nodes(&members[i], peers, rt),
            },
        );
        i = i + 1;
    }
    r
}

/// The last stored group with id `gid`.
pub open spec fn group_of(groups: Seq<DeviceGroup>, gid: i64) -> Option<DeviceGroup>
    decreases groups.len(),
{
    if groups.len() == 0 {
        None
    } else if groups.last().id == gid {
        Some(groups.last())
    } else {
        group_of(groups.drop_last(), gid)
    }
}

fn find_group(groups: &Vec<DeviceGroup>, gid: i64) -> (r: Option<usize>)
    ensures
        match r {
            Some(k) => k < groups@.len() && group_of(groups@, gid) == Some(groups@[k as int]),
            None => group_of(groups@, gid) is None,
        },
{
    let n = groups.len();
    let mut i: usize = n;
    assert(groups@.subrange(0, n as int) =~= groups@);
    while i > 0
        invariant
            n == groups@.len(),
            i <= n,
            group_of(groups@, gid) == group_of(groups@.subrange(0, i as int), gid),
        decreases i,
    {
        assert(groups@.subrange(0, i as int).drop_last() =~= groups@.subrange(0, i - 1));
        assert(groups@.subrange(0, i as int).last() == groups@[i - 1]);
        if groups[i - 1].id == gid {
            return Some(i - 1);
        }
        i = i - 1;
    }
    None
}

/// The name shown for group `gid`: its stored name, or `Group-<gid>` for a
/// group that is not stored.
pub open spec fn group_label(groups: Seq<DeviceGroup>, gid: i64) -> Seq<char> {
    match group_of(groups, gid) {
        Some(g) => g.name@,
        None => "Group-"@ + signed_decimal_text(gid as int),
    }
}

/// The name shown for group `gid`.
pub fn group_name(groups: &Vec<DeviceGroup>, gid: i64) -> (r: String)
    ensures
        r@ == group_label(groups@, gid),
{
    match find_group(groups, gid) {
        Some(k) => groups[k].name.clone(),
        None => {
            let mut s = "Group-".to_owned();
            append_signed_decimal(&mut s, gid);
            s
        },
    }
}

/// A group that an account was given, with the ids of its devices.
#[derive(Debug)]
pub struct GroupMembers {
    pub group_id: i64,
    pub members: Vec<String>,
}

/// What an account was given: devices directly, and groups.
#[derive(Debug)]
pub struct UserGrants {
    pub direct: Vec<String>,
    pub groups: Vec<GroupMembers>,
}

/// A group as the account tree shows it.
#[derive(Debug)]
pub struct UserGroupNode {
    pub id: i64,
    pub name: String,
    pub devices: Vec<DeviceNode>,
}

/// An account with what it was given.
#[derive(Debug)]
pub struct UserTreeNode {
    pub id: i64,
    pub username: String,
    pub role: String,
    pub status: i64,
    pub groups: Vec<UserGroupNode>,
    pub direct_devices: Vec<DeviceNode>,
}

pub open spec fn user_group_node_shows(
    n: UserGroupNode,
    gm: GroupMembers,
    groups: Seq<DeviceGroup>,
    peers: Seq<PeerRecord>,
    rt: Seq<RuntimeStatus>,
) -> bool {
    &&& n.id == gm.group_id
    &&& n.name@ == group_label(groups, gm.group_id)
    &&& devices_show(n.devices@, gm.members@, peers, rt)
}

pub open spec fn user_node_shows(
    n: UserTreeNode,
    u: UserRecord,
    grants: UserGrants,
    groups: Seq<DeviceGroup>,
    peers: Seq<PeerRecord>,
    rt: Seq<RuntimeStatus>,
) -> bool {
    &&& n.id == u.id
    &&& n.username == u.username
    &&& n.role == u.role
    &&& n.status == u.status
    &&& devices_show(n.direct_devices@, grants.direct@, peers, rt)
    &&& n.groups@.len() == grants.groups@.len()
    &&& forall|k: int|
        0 <= k < grants.groups@.len() ==> user_group_node_shows(
            #[trigger] n.groups@[k],
            grants.groups@[k],
            groups,
            peers,
            rt,
        )
}

/// Account `u` with what it was given, as the account tree shows it.
pub fn user_tree_node(
    u: &UserRecord,
    grants: &UserGrants,
    groups: &Vec<DeviceGroup>,
    peers: &Vec<PeerRecord>,
    rt: &Vec<RuntimeStatus>,
) -> (n: UserTreeNode)
    ensures
        user_node_shows(n, *u, *grants, groups@, peers@, rt@),
{
    let mut gs: Vec<UserGroupNode> = Vec::new();
    let mut k: usize = 0;
    while k < grants.groups.len()
        invariant
            k <= grants.groups@.len(),
            gs@.len() == k,
            forall|m: int|
                0 <= m < k ==> user_group_node_shows(
                    #[trigger] gs@[m],
                    grants.groups@[m],
                    groups@,
                    peers@,
                    rt@,
                ),
        decreases grants.groups@.len() - k,
    {
        let gm = &grants.groups[k];
        gs.push(
            UserGroupNode {
                id: gm.group_id,
                name: group_name(groups, gm.group_id),
                devices: device_nodes(&gm.members, peers, rt),
            },
        );
        k = k + 1;
    }
    UserTreeNode {
        id: u.id,
        username: u.username.clone(),
        role: u.role.clone(),
        status: u.status,
        groups: gs,
        direct_devices: device_nodes(&grants.direct, peers, rt),
    }
}

/// The account tree: each account, in order, with what it was given
/// (`grants[i]` for account `i`).
pub fn user_tree(
    users: &Vec<UserRecord>,
    grants: &Vec<UserGrants>,
    groups: &Vec<DeviceGroup>,
    peers: &Vec<PeerRecord>,
    rt: &Vec<RuntimeStatus>,
) -> (r: Vec<UserTreeNode>)
    requires
        grants@.len() == users@.len(),
    ensures
        r@.len() == users@.len(),
        forall|i: int|
            0 <= i < users@.len() ==> user_node_shows(
                #[trigger] r@[i],
                users@[i],
                grants@[i],
                groups@,
                peers@,
                rt@,
            ),
{
    let mut r: Vec<UserTreeNode> = Vec::new();
    let mut i: usize = 0;
    while i < users.len()
        invariant
            i <= users.len(),
            grants@.len() == users@.len(),
            r@.len() == i,
            forall|j: int|
                0 <= j < i ==> user_node_shows(
                    #[trigger] r@[j],
                    users@[j],
                    grants@[j],
                    groups@,
                    peers@,
                    rt@,
                ),
        decreases users.len() - i,
    {
        r.push(user_tree_node(&users[i], &grants[i], groups, peers, rt));
        i = i + 1;
    }
    r
}


/// Looking up a group by id finds a stored group with that id whenever one
/// is stored, and then the last one stored; it finds none only when no
/// stored group has that id.
pub proof fn law_group_lookup_finds_stored_group(groups: Seq<DeviceGroup>, gid: i64)
    ensures
        (exists|k: int| 0 <= k < groups.len() && #[trigger] groups[k].id == gid) ==> (group_of(
            groups,
            gid,
        ) matches Some(g) && g.id == gid && groups.contains(g)),
        group_of(groups, gid) is None ==> forall|k: int|
            0 <= k < groups.len() ==> #[trigger] groups[k].id != gid,
        group_of(groups, gid) matches Some(g) ==> exists|k: int|
            0 <= k < groups.len() && #[trigger] groups[k] == g && g.id == gid && forall|j: int|
                k < j < groups.len() ==> groups[j].id != gid,
    decreases groups.len(),
{
    if groups.len() == 0 {
    } else if groups.last().id == gid {
        let k = groups.len() - 1;
        assert(groups[k] == groups.last());
    } else {
        let rest = groups.drop_last();
        law_group_lookup_finds_stored_group(rest, gid);
        assert forall|k: int| 0 <= k < rest.len() implies rest[k] == groups[k] by {}
        if exists|k: int| 0 <= k < groups.len() && #[trigger] groups[k].id == gid {
            let k = choose|k: int| 0 <= k < groups.len() && #[trigger] groups[k].id == gid;
            assert(k < rest.len());
            assert(rest[k].id == gid);
            let g = group_of(groups, gid)->Some_0;
            let m = choose|m: int| 0 <= m < rest.len() && #[trigger] rest[m] == g;
            assert(groups[m] == g);
        }
        if group_of(groups, gid) is None {
            assert forall|k: int| 0 <= k < groups.len() implies #[trigger] groups[k].id != gid by {
                if k < rest.len() {
                    assert(rest[k].id != gid);
                }
            }
        }
        if group_of(groups, gid) is Some {
            let g = group_of(groups, gid)->Some_0;
            let k = choose|k: int|
                0 <= k < rest.len() && #[trigger] rest[k] == g && g.id == gid && forall|j: int|
                    k < j < rest.len() ==> rest[j].id != gid;
            assert(groups[k] == g);
            assert forall|j: int| k < j < groups.len() implies groups[j].id != gid by {
                if j < rest.len() {
                    assert(rest[j] == groups[j]);
                }
            }
        }
    }
}

} // verus!
