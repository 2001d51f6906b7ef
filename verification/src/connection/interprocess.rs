//! How the name of a channel becomes the address of a local socket.
//!
//! Two programs that use the same name come to the same address. The address is chosen here;
//! looking up what the platform supports and where the user's directories are, and handing
//! the address to the socket, is left to the caller.

use vstd::prelude::*;

verus! {

/// Where the socket of a channel is to be found.
#[derive(Debug)]
pub enum Address {
    /// A name in the namespace that the platform keeps for sockets, apart from the file system.
    Namespaced(String),
    /// The full path of a socket file that any user of the machine can reach.
    Global(String),
    /// The name of a socket file in the user's own runtime directory.
    Local(String),
}

/// The name of a channel in the socket namespace: `@`, the name, then `-gipc.sock`.
pub open spec fn namespaced_name(name: Seq<char>) -> Seq<char> {
    "@"@ + name + "-gipc.sock"@
}

/// The path of the machine-wide socket file of a channel: the name with the extension `.sock`,
/// under `/run`.
pub open spec fn global_path(name: Seq<char>) -> Seq<char> {
    "/run/"@ + name + ".sock"@
}

/// The name of the socket file of a channel: the name with the extension `.sock`.
pub open spec fn file_name(name: Seq<char>) -> Seq<char> {
    name + ".sock"@
}

/// Chooses the address for the channel called `name`.
///
/// Where the platform has a namespace for sockets (`namespaced`) the address is a name in it,
/// whatever `global` says. Where it has socket files only, a `global` channel gets a path
/// that is the same for every user, and any other a file in the user's runtime directory.
pub fn name_onto(name: &str, global: bool, namespaced: bool) -> (address: Address)
    ensures
        namespaced ==> (address matches Address::Namespaced(s) && s@ == namespaced_name(name@)),
        !namespaced && global ==> (address matches Address::Global(s) && s@ == global_path(name@)),
        !namespaced && !global ==> (address matches Address::Local(s) && s@ == file_name(name@)),
{
    let mut text = String::new();
    if namespaced {
        text.push_str("@");
        text.push_str(name);
        text.push_str("-gipc.sock");
        Address::Namespaced(text)
    } else if global {
        text.push_str("/run/");
        text.push_str(name);
        text.push_str(".sock");
        Address::Global(text)
    } else {
        text.push_str(name);
        text.push_str(".sock");
        Address::Local(text)
    }
}

} // verus!
