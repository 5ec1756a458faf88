//! The readiness channel: one outbound endpoint at an address that is fixed
//! at the start, opened on first use.

use crate::lazy_fail_init::LazyFailInit;
use vstd::prelude::*;

verus! {

/// The environment variable that carries the address of the readiness
/// channel.
pub const ENV_VAR: &'static str = "NOTIFY_SOCKET";

/// The message that reports readiness.
pub const READY: &'static str = "READY=1";

/// The processes that the supervisor launches.
#[derive(Clone, Copy, Debug, PartialEq, Eq)]
pub enum Role {
    /// The supervised child.
    Child,
    /// A health probe.
    Probe,
}

/// Whether a process launched in `role` finds the address of the readiness
/// channel in its environment: a probe never does, and the child only where
/// that was asked for.
pub open spec fn inherits_address(role: Role, child_notify: bool) -> bool {
    role is Child && child_notify
}

/// A readiness channel over an endpoint of type `S`, which is opened at the
/// channel's address by the first notification that gets that far.
pub struct SystemdNotify<S> {
    socket_path: Vec<u8>,
    socket: LazyFailInit<S>,
}

/// `res` is what a notification returns when `send`, called with the endpoint
/// `socket` and `message`, returns as it did: success whatever the count that
/// `send` reported, or the error of `send` as it is.
pub open spec fn sent_by<S, E, W: FnOnce(&S, &[u8]) -> Result<usize, E>>(
    send: W,
    socket: S,
    message: &[u8],
    res: Result<(), E>,
) -> bool {
    match res {
        Ok(_) => exists|n: usize| #[trigger] send.ensures((&socket, message), Ok::<usize, E>(n)),
        Err(e) => send.ensures((&socket, message), Err::<usize, E>(e)),
    }
}

impl<S> SystemdNotify<S> {
    /// The address of the channel.
    pub closed spec fn address(&self) -> Vec<u8> {
        self.socket_path
    }

    /// The endpoint, once it has been opened.
    pub closed spec fn endpoint(&self) -> Option<S> {
        self.socket@
    }

    /// The channel at the address that the environment supplied. Without an
    /// address, or with an empty one, there is no channel.
    pub fn from_env_value(value: Option<Vec<u8>>) -> (channel: Option<Self>)
        ensures
            match value {
                Some(path) if path@.len() > 0 => channel matches Some(c) && c.address() == path
                    && c.endpoint() is None,
                _ => channel is None,
            },
    {
        match value {
            Some(path) => {
                if path.len() == 0 {
                    None
                } else {
                    Some(SystemdNotify { socket_path: path, socket: LazyFailInit::new() })
                }
            },
            None => None,
        }
    }

    /// The address of the channel.
    pub fn socket_path(&self) -> (path: &Vec<u8>)
        ensures
            *path == self.address(),
    {
        &self.socket_path
    }

    /// The address to put into the environment of a process that is launched
    /// in `role`, if it is to have one; `child_notify` says whether the child
    /// was asked to inherit it. The supervisor's own environment is to hold
    /// no address once this channel has been made.
    pub fn address_for(&self, role: Role, child_notify: bool) -> (exported: Option<&Vec<u8>>)
        ensures
            match exported {
                Some(path) => inherits_address(role, child_notify) && *path == self.address(),
                None => !inherits_address(role, child_notify),
            },
    {
        match role {
            Role::Child => {
                if child_notify {
                    Some(&self.socket_path)
                } else {
                    None
                }
            },
            Role::Probe => None,
        }
    }

    /// Send `message` on the channel, opening the endpoint first if no
    /// earlier notification has.
    ///
    /// `open` is invoked, with the channel's address, only while the endpoint
    /// has not been opened. Where it fails, its error is returned, nothing is
    /// sent, and the next notification tries to open again. `send` is invoked
    /// with the endpoint, which stays open whether or not `send` succeeds.
    pub fn notify<E, O, W>(&mut self, message: &[u8], open: O, send: W) -> (res: Result<(), E>)
        where O: FnOnce(&Vec<u8>) -> Result<S, E>, W: FnOnce(&S, &[u8]) -> Result<usize, E>
        requires
            old(self).endpoint() is None ==> open.requires((&old(self).address(),)),
            forall|s: S|
                (old(self).endpoint() == Some(s) || open.ensures((&old(self).address(),), Ok(s)))
                    ==> send.requires((&s, message)),
        ensures
            final(self).address() == old(self).address(),
            old(self).endpoint() is Some ==> final(self).endpoint() == old(self).endpoint(),
            final(self).endpoint() matches Some(s) ==> old(self).endpoint() == Some(s)
                || open.ensures((&old(self).address(),), Ok(s)),
            match final(self).endpoint() {
                Some(s) => sent_by(send, s, message, res),
                None => res matches Err(e) && open.ensures((&old(self).address(),), Err(e)),
            },
    {
        let path = &self.socket_path;
        let create = || -> (created: Result<S, E>)
            requires
                open.requires((path,)),
            ensures
                open.ensures((path,), created),
        {
            open(path)
        };
        let opened = self.socket.get_or_create(create);
        match opened {
            Ok(socket) => {
                let ghost endpoint = *socket;
                match send(socket, message) {
                    Ok(count) => {
                        assert(send.ensures((&endpoint, message), Ok::<usize, E>(count)));
                        Ok(())
                    },
                    Err(e) => Err(e),
                }
            },
            Err(e) => Err(e),
        }
    }
}

} // verus!
