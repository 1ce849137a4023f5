use vstd::prelude::*;

verus! {

/// The paths under which the service answers.
pub enum RoutesPathes {
    UserRegister,
    UserLogin,
    Groups,
    GroupExpenses,
}

/// The path of a route, as a sequence of characters.
pub open spec fn route_path(route: RoutesPathes) -> Seq<char> {
    match route {
        RoutesPathes::UserRegister => "/user/register"@,
        RoutesPathes::UserLogin => "/user/login"@,
        RoutesPathes::Groups => "/groups"@,
        RoutesPathes::GroupExpenses => "/groups/{id}/expenses"@,
    }
}

impl RoutesPathes {
    /// The path under which the route is served.
    pub fn as_str(&self) -> (path: &'static str)
        ensures
            path@ == route_path(*self),
    {
        match self {
            RoutesPathes::UserRegister => "/user/register",
            RoutesPathes::UserLogin => "/user/login",
            RoutesPathes::Groups => "/groups",
            RoutesPathes::GroupExpenses => "/groups/{id}/expenses",
        }
    }
}

/// Two different routes never share a path.
pub proof fn lemma_route_paths_distinct(a: RoutesPathes, b: RoutesPathes)
    requires
        a != b,
    ensures
        route_path(a) != route_path(b),
{
    reveal_strlit("/user/register");
    reveal_strlit("/user/login");
    reveal_strlit("/groups");
    reveal_strlit("/groups/{id}/expenses");
    assert(route_path(RoutesPathes::UserRegister).len() == 14);
    assert(route_path(RoutesPathes::UserLogin).len() == 11);
    assert(route_path(RoutesPathes::Groups).len() == 7);
    assert(route_path(RoutesPathes::GroupExpenses).len() == 21);
}

} // verus!
