//! Role selection from the process arguments: one positional argument picks
//! the responder (`server`) or the prober (`client`); anything else is
//! invalid and the process must stop with a failure status before touching
//! the network.

use vstd::prelude::*;

verus! {

/// Why an invocation was rejected.
#[derive(Clone, Copy, PartialEq, Eq, Structural, Debug)]
pub enum InvalidReason {
    /// No mode argument was given at all.
    MissingMode,
    /// The mode argument is neither `server` nor `client`.
    UnknownMode,
}

/// The role an invocation selects.
#[derive(Clone, Copy, PartialEq, Eq, Structural, Debug)]
pub enum Role {
    /// Run the responder (mode `server`).
    Server,
    /// Run the prober (mode `client`).
    Client,
    /// Reject the invocation; the process exits with a failure status and
    /// performs no network activity.
    Invalid(InvalidReason),
}

/// Picks the role from the full argument vector (the program name first,
/// the mode second). Exactly `server` selects the responder and exactly
/// `client` the prober; a missing or unrecognized mode is invalid.
pub fn select_role(args: &Vec<String>) -> (r: Role)
    ensures
        args@.len() < 2 ==> r == Role::Invalid(InvalidReason::MissingMode),
        args@.len() >= 2 && args@[1]@ == "server"@ ==> r == Role::Server,
        args@.len() >= 2 && args@[1]@ == "client"@ ==> r == Role::Client,
        args@.len() >= 2 && args@[1]@ != "server"@ && args@[1]@ != "client"@ ==> r
            == Role::Invalid(InvalidReason::UnknownMode),
{
    proof {
        reveal_strlit("server");
        reveal_strlit("client");
        assert("server"@[0] == 's');
        assert("client"@[0] == 'c');
        assert("server"@ != "client"@);
    }
    if args.len() < 2 {
        return Role::Invalid(InvalidReason::MissingMode);
    }
    let server_word: String = "server".to_owned();
    let client_word: String = "client".to_owned();
    if args[1] == server_word {
        Role::Server
    } else if args[1] == client_word {
        Role::Client
    } else {
        Role::Invalid(InvalidReason::UnknownMode)
    }
}

} // verus!
