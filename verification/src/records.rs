use vstd::prelude::*;

verus! {

/// What a session token says of its holder.
#[derive(Debug)]
pub struct Claims {
    /// The user's id.
    pub sub: i64,
    pub username: String,
    pub role: String,
    /// Expiry, in seconds since the Unix epoch.
    pub exp: usize,
}

/// A console account as stored.
#[derive(Debug)]
pub struct UserRecord {
    pub id: i64,
    pub username: String,
    pub password_hash: String,
    pub role: String,
    /// 1 enabled, 0 disabled.
    pub status: i64,
    pub created_at: String,
}

/// A remote-desktop device as stored.
#[derive(Debug)]
pub struct PeerRecord {
    pub id: String,
    pub name: Option<String>,
    pub created_at: String,
    /// 0 disabled; any other value, or none, enabled.
    pub status: Option<i64>,
    /// 0 for a device that users may not be given.
    pub is_controlled: i64,
    pub note: Option<String>,
    /// The device's self-description, JSON text.
    pub info: String,
}

/// What the rendezvous server currently knows of a device.
#[derive(Debug)]
pub struct RuntimeStatus {
    pub id: String,
    pub online: bool,
    pub last_seen_secs: u64,
    pub ip: String,
}

/// A named set of devices.
#[derive(Debug)]
pub struct DeviceGroup {
    pub id: i64,
    pub name: String,
    pub created_at: String,
}

/// A copy of an optional text.
pub fn copy_opt_text(o: &Option<String>) -> (r: Option<String>)
    ensures
        r == *o,
{
    match o {
        Some(t) => Some(t.clone()),
        None => None,
    }
}

impl Claims {
    pub fn duplicate(&self) -> (r: Self)
        ensures
            r == *self,
    {
        Claims {
            sub: self.sub,
            username: self.username.clone(),
            role: self.role.clone(),
            exp: self.exp,
        }
    }
}

impl UserRecord {
    pub fn duplicate(&self) -> (r: Self)
        ensures
            r == *self,
    {
        UserRecord {
            id: self.id,
            username: self.username.clone(),
            password_hash: self.password_hash.clone(),
            role: self.role.clone(),
            status: self.status,
            created_at: self.created_at.clone(),
        }
    }
}

impl PeerRecord {
    pub fn duplicate(&self) -> (r: Self)
        ensures
            r == *self,
    {
        PeerRecord {
            id: self.id.clone(),
            name: copy_opt_text(&self.name),
            created_at: self.created_at.clone(),
            status: self.status,
            is_controlled: self.is_controlled,
            note: copy_opt_text(&self.note),
            info: self.info.clone(),
        }
    }
}

impl DeviceGroup {
    pub fn duplicate(&self) -> (r: Self)
        ensures
            r == *self,
    {
        DeviceGroup { id: self.id, name: self.name.clone(), created_at: self.created_at.clone() }
    }
}

} // verus!
