use vstd::prelude::*;

verus! {

/// A capability plugin that the application runtime is configured with.
#[derive(Clone, Copy, Debug, PartialEq, Eq, Structural)]
pub enum Capability {
    /// Access to the file system.
    Filesystem,
    /// Dispatch of operating-system notifications.
    Notification,
    /// An outbound HTTP client.
    Http,
}

/// The fixed set of capabilities, in the order in which they are registered.
pub open spec fn capability_list() -> Seq<Capability> {
    seq![Capability::Filesystem, Capability::Notification, Capability::Http]
}

/// The capabilities that the runtime is configured with, each once.
pub fn capabilities() -> (r: Vec<Capability>)
    ensures
        r@ == capability_list(),
{
    let mut r: Vec<Capability> = Vec::new();
    r.push(Capability::Filesystem);
    r.push(Capability::Notification);
    r.push(Capability::Http);
    proof {
        assert(r@ =~= capability_list());
    }
    r
}

} // verus!
