//! Socket provisioning: the ordered steps that stand between a configured
//! address and a listener that may start accepting.
//!
//! For a TCP address the listener binds and nothing more. For a unix socket
//! the stale socket file is removed, the parent directory ensured, the
//! socket bound, and then — with the file in place but before any peer is
//! served — ownership and permission bits are applied, so a reverse proxy
//! running under the configured identity can connect from the first moment.
//! A user or group name that the identity databases do not resolve is a
//! startup error: no step is handed out and the listener never binds.
use vstd::prelude::*;
use vstd::utf8::encode_utf8;
use crate::config::TcpOrUnix;
use crate::identity::{find_group_id, find_user_id, spec_lookup, IdLookupError};

verus! {

/// One provisioning step, to be performed in sequence order.
#[derive(Debug, PartialEq, Eq)]
pub enum ProvisionStep {
    /// Remove a stale socket file; that it does not exist is no error.
    RemoveStale(String),
    /// Ensure the parent directory of the socket path exists.
    EnsureParentDir(String),
    /// Bind the unix socket at the path.
    BindUnix(String),
    /// Change the socket file's owner and group to the resolved ids.
    Chown(String, u32, u32),
    /// Set the socket's permission bits to world read and write.
    Chmod(String, u32),
    /// Bind a TCP listener at the address.
    BindTcp(String),
}

/// The permission bits a unix socket is given: world-readable and
/// world-writable, so the proxy in front can always connect.
pub open spec fn socket_mode() -> u32 {
    0o666
}

/// The provisioning steps for an address: a single bind for TCP; for a unix
/// socket the full ordered sequence, with the ownership and permission
/// steps after the bind and before anything else may run. `Err` exactly
/// when a unix socket's user or group name does not resolve.
pub open spec fn spec_provision_plan(
    addr: TcpOrUnix,
    passwd_db: Seq<u8>,
    group_db: Seq<u8>,
    user: Seq<char>,
    group: Seq<char>,
    r: Result<Seq<ProvisionStep>, IdLookupError>,
) -> bool {
    match addr {
        TcpOrUnix::Tcp(a) => r matches Ok(steps) && steps =~= seq![ProvisionStep::BindTcp(a)],
        TcpOrUnix::Unix(p) => match (
            spec_lookup(passwd_db, encode_utf8(user), true, 0),
            spec_lookup(group_db, encode_utf8(group), false, 0),
        ) {
            (Ok(uid), Ok(gid)) => r matches Ok(steps) && steps =~= seq![
                ProvisionStep::RemoveStale(p),
                ProvisionStep::EnsureParentDir(p),
                ProvisionStep::BindUnix(p),
                ProvisionStep::Chown(p, uid, gid),
                ProvisionStep::Chmod(p, socket_mode()),
            ],
            (Err(e), _) => r == Err::<Seq<ProvisionStep>, IdLookupError>(e),
            (Ok(_), Err(e)) => r == Err::<Seq<ProvisionStep>, IdLookupError>(e),
        },
    }
}

/// Build the provisioning plan for an address.
///
/// The identity databases are handed in as their text, so resolution does
/// not depend on the machine running the proof. For a unix socket, a user
/// or group name that does not resolve fails the whole plan: no bind step
/// is ever handed out on a socket whose ownership is unsettled.
pub fn provision_plan(
    addr: &TcpOrUnix,
    passwd_db: &Vec<u8>,
    group_db: &Vec<u8>,
    user: &String,
    group: &String,
) -> (r: Result<Vec<ProvisionStep>, IdLookupError>)
    ensures
        spec_provision_plan(
            *addr,
            passwd_db@,
            group_db@,
            user@,
            group@,
            match r {
                Ok(steps) => Ok(steps@),
                Err(e) => Err(e),
            },
        ),
{
    match addr {
        TcpOrUnix::Tcp(a) => {
            let mut steps: Vec<ProvisionStep> = Vec::new();
            steps.push(ProvisionStep::BindTcp(a.clone()));
            proof {
                assert(steps@ =~= seq![ProvisionStep::BindTcp(*a)]);
            }
            Ok(steps)
        },
        TcpOrUnix::Unix(p) => {
            let uid = match find_user_id(passwd_db.as_slice(), user.as_str().as_bytes()) {
                Ok(v) => v,
                Err(e) => {
                    return Err(e);
                },
            };
            let gid = match find_group_id(group_db.as_slice(), group.as_str().as_bytes()) {
                Ok(v) => v,
                Err(e) => {
                    return Err(e);
                },
            };
            let mut steps: Vec<ProvisionStep> = Vec::new();
            steps.push(ProvisionStep::RemoveStale(p.clone()));
            steps.push(ProvisionStep::EnsureParentDir(p.clone()));
            steps.push(ProvisionStep::BindUnix(p.clone()));
            steps.push(ProvisionStep::Chown(p.clone(), uid, gid));
            steps.push(ProvisionStep::Chmod(p.clone(), 438));
            proof {
                assert(steps@ =~= seq![
                    ProvisionStep::RemoveStale(*p),
                    ProvisionStep::EnsureParentDir(*p),
                    ProvisionStep::BindUnix(*p),
                    ProvisionStep::Chown(*p, uid, gid),
                    ProvisionStep::Chmod(*p, socket_mode()),
                ]);
            }
            Ok(steps)
        },
    }
}

/// In every successful unix plan the permission steps come after the bind:
/// whatever the databases held, the bind stands at position 2 and the
/// ownership and permission changes follow it, so the file they touch
/// exists, and nothing is handed out after them but the steps themselves.
pub proof fn lemma_permissions_after_bind(
    addr: TcpOrUnix,
    passwd_db: Seq<u8>,
    group_db: Seq<u8>,
    user: Seq<char>,
    group: Seq<char>,
    steps: Seq<ProvisionStep>,
)
    requires
        addr is Unix,
        spec_provision_plan(addr, passwd_db, group_db, user, group, Ok(steps)),
    ensures
        steps.len() == 5,
        steps[2] is BindUnix,
        steps[3] is Chown,
        steps[4] is Chmod,
{
}

} // verus!
