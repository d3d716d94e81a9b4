use vstd::prelude::*;

use crate::config::{Id, IdView};
use crate::error::{Error, ErrorView};

verus! {

/// What the system's user or group database answered to one lookup.
#[derive(Debug, PartialEq, Eq)]
pub enum Lookup<T> {
    Found(T),
    /// The database holds no such entry.
    Missing,
    /// The lookup failed with this error number.
    Failed(i32),
}

/// The user and group that the launched program runs as; `None` keeps the
/// launcher's own.
#[derive(Clone, Copy, Debug, PartialEq, Eq, Structural)]
pub struct Credentials {
    pub uid: Option<u32>,
    pub gid: Option<u32>,
}

/// The credentials for the configured `uid` and `gid`, given the lookups:
/// `user` answers for the configured user (by number or by name) and `group`
/// for a group given by name. The user's primary group is the group unless a
/// group is configured; a failed or empty lookup of the user is reported
/// before one of the group.
pub open spec fn privileges_of(
    uid: Option<IdView>,
    gid: Option<IdView>,
    user: Lookup<(u32, u32)>,
    group: Lookup<u32>,
) -> Result<Credentials, ErrorView> {
    let account: Result<Option<(u32, u32)>, ErrorView> = match uid {
        None => Ok(None),
        Some(id) => match user {
            Lookup::Found(p) => Ok(Some(p)),
            Lookup::Missing => Err(
                match id {
                    IdView::Nummeric(n) => ErrorView::UidNotFound(n),
                    IdView::Text(t) => ErrorView::UserNotFound(t),
                },
            ),
            Lookup::Failed(c) => Err(ErrorView::OsError(c)),
        },
    };
    let chosen: Result<Option<u32>, ErrorView> = match gid {
        None => Ok(None),
        Some(IdView::Nummeric(g)) => Ok(Some(g)),
        Some(IdView::Text(t)) => match group {
            Lookup::Found(g) => Ok(Some(g)),
            Lookup::Missing => Err(ErrorView::GroupNotFound(t)),
            Lookup::Failed(c) => Err(ErrorView::OsError(c)),
        },
    };
    match (account, chosen) {
        (Err(e), _) => Err(e),
        (Ok(_), Err(e)) => Err(e),
        (Ok(a), Ok(g)) => Ok(
            Credentials {
                uid: match a {
                    Some(p) => Some(p.0),
                    None => None,
                },
                gid: match g {
                    Some(x) => Some(x),
                    None => match a {
                        Some(p) => Some(p.1),
                        None => None,
                    },
                },
            },
        ),
    }
}

/// The view of a configured user or group, if any.
pub open spec fn id_view(id: &Option<Id>) -> Option<IdView> {
    match id {
        Some(i) => Some(i@),
        None => None,
    }
}

/// Decides the user and group that the launched program runs as, from the
/// configured `uid` and `gid` and the answers of the lookups they call for.
pub fn prepare_privileges(uid: &Option<Id>, gid: &Option<Id>, user: Lookup<(u32, u32)>, group: Lookup<u32>) -> (r:
    Result<Credentials, Error>)
    ensures
        match r {
            Ok(c) => privileges_of(id_view(uid), id_view(gid), user, group) == Ok::<Credentials, ErrorView>(c),
            Err(e) => privileges_of(id_view(uid), id_view(gid), user, group) == Err::<Credentials, ErrorView>(e@),
        },
{
    let account: Option<(u32, u32)> = match uid {
        None => None,
        Some(id) => match user {
            Lookup::Found(p) => Some(p),
            Lookup::Missing => {
                return Err(
                    match id {
                        Id::Nummeric(n) => Error::UidNotFound(*n),
                        Id::Text(t) => Error::UserNotFound(t.clone()),
                    },
                );
            },
            Lookup::Failed(c) => {
                return Err(Error::OsError(c));
            },
        },
    };
    let chosen: Option<u32> = match gid {
        None => None,
        Some(Id::Nummeric(g)) => Some(*g),
        Some(Id::Text(t)) => match group {
            Lookup::Found(g) => Some(g),
            Lookup::Missing => {
                return Err(Error::GroupNotFound(t.clone()));
            },
            Lookup::Failed(c) => {
                return Err(Error::OsError(c));
            },
        },
    };
    let uid_out = match account {
        Some(p) => Some(p.0),
        None => None,
    };
    let gid_out = match chosen {
        Some(x) => Some(x),
        None => match account {
            Some(p) => Some(p.1),
            None => None,
        },
    };
    Ok(Credentials { uid: uid_out, gid: gid_out })
}

/// A user given by number runs with that user's primary group, and a
/// configured group overrides it.
pub proof fn lemma_primary_group_unless_overridden(n: u32, gid: Option<IdView>, pair: (u32, u32), group: Lookup<u32>)
    ensures
        gid is None ==> privileges_of(Some(IdView::Nummeric(n)), gid, Lookup::Found(pair), group)
            == Ok::<Credentials, ErrorView>(Credentials { uid: Some(pair.0), gid: Some(pair.1) }),
        gid matches Some(IdView::Nummeric(g)) ==> privileges_of(
            Some(IdView::Nummeric(n)),
            gid,
            Lookup::Found(pair),
            group,
        ) == Ok::<Credentials, ErrorView>(Credentials { uid: Some(pair.0), gid: Some(g) }),
        (gid matches Some(IdView::Text(_)) && group matches Lookup::Found(g)) ==> privileges_of(
            Some(IdView::Nummeric(n)),
            gid,
            Lookup::Found(pair),
            group,
        ) == Ok::<Credentials, ErrorView>(Credentials { uid: Some(pair.0), gid: Some(group->Found_0) }),
{
}

} // verus!
