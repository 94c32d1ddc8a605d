//! The routes of the service: which handler answers which request.

use vstd::prelude::*;

verus! {

/// The method of a request.
#[derive(Clone, Copy, Debug, PartialEq, Eq, Structural)]
pub enum Method {
    Get,
    Post,
    Put,
    Delete,
}

/// The handlers that a route can lead to.
#[derive(Clone, Copy, Debug, PartialEq, Eq, Structural)]
pub enum Handler {
    RegisterUser,
    LoginUser,
    CreateTodo,
    ListAll,
    ListOne,
    UpdateTodo,
    DeleteTodo,
}

/// A route: requests of the method to the path go to the handler. In a
/// path, `{id}` stands for the identity of a task.
#[derive(Clone, Copy, Debug, PartialEq, Eq)]
pub struct Route {
    pub method: Method,
    pub path: &'static str,
    pub handler: Handler,
}

/// A route as a mathematical value.
pub struct RouteView {
    pub method: Method,
    pub path: Seq<char>,
    pub handler: Handler,
}

impl View for Route {
    type V = RouteView;

    open spec fn view(&self) -> RouteView {
        RouteView { method: self.method, path: self.path@, handler: self.handler }
    }
}

/// The routes of the service.
pub open spec fn routes() -> Seq<RouteView> {
    seq![
        RouteView {
            method: Method::Post,
            path: "/v1/users/register"@,
            handler: Handler::RegisterUser,
        },
        RouteView { method: Method::Post, path: "/v1/users/login"@, handler: Handler::LoginUser },
        RouteView { method: Method::Post, path: "/v1/todos"@, handler: Handler::CreateTodo },
        RouteView { method: Method::Get, path: "/v1/todos"@, handler: Handler::ListAll },
        RouteView { method: Method::Get, path: "/v1/todos/{id}"@, handler: Handler::ListOne },
        RouteView { method: Method::Put, path: "/v1/todos/{id}"@, handler: Handler::UpdateTodo },
        RouteView {
            method: Method::Delete,
            path: "/v1/todos/{id}"@,
            handler: Handler::DeleteTodo,
        },
    ]
}

/// The routes of the service, in the order in which they are registered.
pub fn config() -> (table: Vec<Route>)
    ensures
        table@.map_values(|route: Route| route@) == routes(),
{
    let mut table: Vec<Route> = Vec::new();
    table.push(
        Route { method: Method::Post, path: "/v1/users/register", handler: Handler::RegisterUser },
    );
    table.push(Route { method: Method::Post, path: "/v1/users/login", handler: Handler::LoginUser });
    table.push(Route { method: Method::Post, path: "/v1/todos", handler: Handler::CreateTodo });
    table.push(Route { method: Method::Get, path: "/v1/todos", handler: Handler::ListAll });
    table.push(Route { method: Method::Get, path: "/v1/todos/{id}", handler: Handler::ListOne });
    table.push(Route { method: Method::Put, path: "/v1/todos/{id}", handler: Handler::UpdateTodo });
    table.push(
        Route { method: Method::Delete, path: "/v1/todos/{id}", handler: Handler::DeleteTodo },
    );
    assert(table@.map_values(|route: Route| route@) =~= routes());
    table
}

} // verus!
