//! The groups of the services that every connection talks to.

use vstd::prelude::*;

use super::Group;

verus! {

/// The name of the game server's group.
pub open spec fn game_server_name() -> Seq<char> {
    "game_server"@
}

/// The name of the welcome service's group.
pub open spec fn welcome_name() -> Seq<char> {
    "welcome_service"@
}

/// The group of the game server.
pub fn game_server() -> (g: Group)
    ensures
        g@ == game_server_name(),
{
    Group::named("game_server")
}

/// The group of the welcome service.
pub fn welcome() -> (g: Group)
    ensures
        g@ == welcome_name(),
{
    Group::named("welcome_service")
}

/// The welcome service and the game server are different groups: what is
/// sent to one never reaches the other.
pub proof fn welcome_is_not_game_server()
    ensures
        welcome_name() != game_server_name(),
{
    reveal_strlit("welcome_service");
    reveal_strlit("game_server");
    assert(welcome_name().len() != game_server_name().len());
}

} // verus!
