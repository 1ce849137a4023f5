use split_costs_rust_backend::server::RoutesPathes;

#[test]
fn route_paths_are_the_served_paths() {
    assert_eq!(RoutesPathes::UserRegister.as_str(), "/user/register");
    assert_eq!(RoutesPathes::UserLogin.as_str(), "/user/login");
    assert_eq!(RoutesPathes::Groups.as_str(), "/groups");
    assert_eq!(RoutesPathes::GroupExpenses.as_str(), "/groups/{id}/expenses");
}

#[test]
fn route_paths_are_distinct() {
    let paths = [
        RoutesPathes::UserRegister.as_str(),
        RoutesPathes::UserLogin.as_str(),
        RoutesPathes::Groups.as_str(),
        RoutesPathes::GroupExpenses.as_str(),
    ];
    for i in 0..paths.len() {
        for j in 0..paths.len() {
            if i != j {
                assert_ne!(paths[i], paths[j]);
            }
        }
    }
}

#[test]
fn expenses_path_takes_the_group_id() {
    let path = RoutesPathes::GroupExpenses.as_str().replace("{id}", &42.to_string());
    assert_eq!(path, "/groups/42/expenses");
}
