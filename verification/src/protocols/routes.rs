//! The route table: which URL and which verb stand for the action of a
//! controller.
use crate::json::{entries, error_message, fields_of, json_of, lemma_fields_of_entry, parse, parsed, Json};
use crate::keyed::{distinct_keys, find, has_key, index_of, lemma_index_of};
use crate::types::{required_text, ProtocolError, ProtocolErrorView};
use serde_json::Value;
use vstd::prelude::*;

verus! {

/// The route of one action: the template of its URL, in which `:index` and
/// `:collection` stand for the index and the collection of a request, and
/// its HTTP verb.
#[derive(Debug, PartialEq)]
pub struct Route {
    pub url: String,
    pub verb: String,
}

/// What a [`Route`] holds.
pub struct RouteView {
    pub url: Seq<char>,
    pub verb: Seq<char>,
}

impl View for Route {
    type V = RouteView;

    open spec fn view(&self) -> RouteView {
        RouteView { url: self.url@, verb: self.verb@ }
    }
}

impl Clone for Route {
    fn clone(&self) -> (r: Route)
        ensures
            r@ == self@,
    {
        Route { url: self.url.clone(), verb: self.verb.clone() }
    }
}

/// What a route table holds: the routes by action, by controller.
pub type TableView = Map<Seq<char>, Map<Seq<char>, RouteView>>;

/// The route of `action` of `controller` in `table`, if it has one.
pub open spec fn lookup(table: TableView, controller: Seq<char>, action: Seq<char>) -> Option<
    RouteView,
> {
    if table.contains_key(controller) && table[controller].contains_key(action) {
        Some(table[controller][action])
    } else {
        None
    }
}

/// The routes of `actions` by the name of their action.
pub open spec fn actions_of(actions: Seq<(String, Route)>) -> Map<Seq<char>, RouteView> {
    Map::new(
        |key: Seq<char>| has_key(actions, key),
        |key: Seq<char>| actions[index_of(actions, key)].1@,
    )
}

/// The routes of `controllers` by the name of their controller.
pub open spec fn table_of(controllers: Seq<(String, Vec<(String, Route)>)>) -> TableView {
    Map::new(
        |key: Seq<char>| has_key(controllers, key),
        |key: Seq<char>| actions_of(controllers[index_of(controllers, key)].1@),
    )
}

/// The route written in `value`: an object whose `url` and `verb` are texts.
pub open spec fn decoded_route(value: Json) -> Option<RouteView> {
    match (required_text(value, "url"@), required_text(value, "verb"@)) {
        (Some(url), Some(verb)) => Some(RouteView { url, verb }),
        _ => None,
    }
}

/// The routes of one controller written in `value`: an object that holds a
/// route under the name of each action.
pub open spec fn decoded_actions(value: Json) -> Option<Map<Seq<char>, RouteView>> {
    match value {
        Json::Object(fields) => if forall|action: Seq<char>| #[trigger]
            fields.contains_key(action) ==> decoded_route(fields[action]) is Some {
            Some(
                Map::new(
                    |action: Seq<char>| fields.contains_key(action),
                    |action: Seq<char>| decoded_route(fields[action])->0,
                ),
            )
        } else {
            None
        },
        _ => None,
    }
}

/// The route table written in `document`: an object that holds the routes
/// of a controller under the name of each controller.
pub open spec fn decoded_routes(document: Json) -> Option<TableView> {
    match document {
        Json::Object(fields) => if forall|controller: Seq<char>| #[trigger]
            fields.contains_key(controller) ==> decoded_actions(fields[controller]) is Some {
            Some(
                Map::new(
                    |controller: Seq<char>| fields.contains_key(controller),
                    |controller: Seq<char>| decoded_actions(fields[controller])->0,
                ),
            )
        } else {
            None
        },
        _ => None,
    }
}

fn read_route(value: &Value) -> (r: Option<Route>)
    ensures
        match decoded_route(json_of(*value)) {
            Some(route) => r is Some && r->0@ == route,
            None => r is None,
        },
{
    let url = match crate::json::member(value, "url") {
        Some(found) => match found.as_str() {
            Some(text) => text.to_owned(),
            None => {
                return None;
            },
        },
        None => {
            return None;
        },
    };
    let verb = match crate::json::member(value, "verb") {
        Some(found) => match found.as_str() {
            Some(text) => text.to_owned(),
            None => {
                return None;
            },
        },
        None => {
            return None;
        },
    };
    Some(Route { url, verb })
}

fn read_actions(value: &Value) -> (r: Option<Vec<(String, Route)>>)
    ensures
        match decoded_actions(json_of(*value)) {
            Some(routes) => r is Some && distinct_keys(r->0@) && actions_of(r->0@) == routes,
            None => r is None,
        },
{
    let object = match value.as_object() {
        Some(object) => object,
        None => {
            return None;
        },
    };
    let pairs = entries(object);
    let ghost fields = json_of(*value)->Object_0;
    let mut out: Vec<(String, Route)> = Vec::new();
    let mut i: usize = 0;
    while i < pairs.len()
        invariant
            i <= pairs@.len(),
            out@.len() == i,
            json_of(*value) == Json::Object(fields),
            distinct_keys(pairs@),
            fields_of(pairs@) == fields,
            forall|k: int|
                0 <= k < i ==> #[trigger] out@[k].0@ == pairs@[k].0@ && decoded_route(
                    json_of(pairs@[k].1),
                ) == Some(out@[k].1@),
        decreases pairs@.len() - i,
    {
        proof {
            lemma_fields_of_entry(pairs@, i as int);
        }
        match read_route(&pairs[i].1) {
            Some(route) => {
                out.push((pairs[i].0.clone(), route));
            },
            None => {
                assert(fields.contains_key(pairs@[i as int].0@));
                return None;
            },
        }
        i = i + 1;
    }
    proof {
        assert forall|a: int, b: int| 0 <= a < b < out@.len() implies out@[a].0@ != out@[b].0@ by {
            assert(out@[a].0@ == pairs@[a].0@);
            assert(out@[b].0@ == pairs@[b].0@);
        }
        assert forall|action: Seq<char>| #[trigger] fields.contains_key(action) implies decoded_route(
            fields[action],
        ) is Some by {
            let k = index_of(pairs@, action);
            lemma_fields_of_entry(pairs@, k);
            assert(out@[k].0@ == pairs@[k].0@);
        }
        let routes = decoded_actions(json_of(*value))->0;
        assert forall|action: Seq<char>| actions_of(out@).contains_key(action)
            <==> routes.contains_key(action) by {
            if has_key(out@, action) {
                let k = index_of(out@, action);
                assert(out@[k].0@ == pairs@[k].0@);
                assert(has_key(pairs@, action));
            }
            if has_key(pairs@, action) {
                let k = index_of(pairs@, action);
                assert(out@[k].0@ == pairs@[k].0@);
                assert(has_key(out@, action));
            }
        }
        assert forall|action: Seq<char>| actions_of(out@).contains_key(action) implies actions_of(
            out@,
        )[action] == routes[action] by {
            let k = index_of(out@, action);
            lemma_index_of(out@, k);
            assert(out@[k].0@ == pairs@[k].0@);
            lemma_fields_of_entry(pairs@, k);
        }
        assert(actions_of(out@) =~= routes);
    }
    Some(out)
}

/// The route table of a transport.
#[derive(Debug, PartialEq)]
pub struct Routes {
    controllers: Vec<(String, Vec<(String, Route)>)>,
}

impl View for Routes {
    type V = TableView;

    closed spec fn view(&self) -> TableView {
        table_of(self.controllers@)
    }
}

/// What reading `document` as a route table gives.
pub open spec fn routes_reading_of(document: Json, r: Result<Routes, ProtocolError>) -> bool {
    match decoded_routes(document) {
        Some(table) => r is Ok && r->Ok_0@ == table,
        None => r is Err && r->Err_0@ == (ProtocolErrorView::InvalidRoutes {
            message: "not a map of controllers to actions to routes"@,
        }),
    }
}

impl Routes {
    #[verifier::type_invariant]
    spec fn well_formed(self) -> bool {
        &&& distinct_keys(self.controllers@)
        &&& forall|i: int|
            0 <= i < self.controllers@.len() ==> distinct_keys(#[trigger] self.controllers@[i].1@)
    }

    /// The table without routes.
    pub fn new() -> (r: Routes)
        ensures
            r@ == Map::<Seq<char>, Map<Seq<char>, RouteView>>::empty(),
    {
        let r = Routes { controllers: Vec::new() };
        assert(r@ =~= Map::<Seq<char>, Map<Seq<char>, RouteView>>::empty());
        r
    }

    /// The route of `action` of `controller`, if the table has one.
    pub fn route(&self, controller: &str, action: &str) -> (r: Option<&Route>)
        ensures
            match lookup(self@, controller@, action@) {
                Some(route) => r is Some && r->0@ == route,
                None => r is None,
            },
    {
        proof {
            use_type_invariant(self);
        }
        let controller_key = controller.to_owned();
        let action_key = action.to_owned();
        match find(&self.controllers, &controller_key) {
            Some(i) => {
                proof {
                    lemma_index_of(self.controllers@, i as int);
                }
                let actions = &self.controllers[i].1;
                match find(actions, &action_key) {
                    Some(j) => {
                        proof {
                            lemma_index_of(actions@, j as int);
                        }
                        Some(&actions[j].1)
                    },
                    None => None,
                }
            },
            None => None,
        }
    }

    /// Reads a route table from a JSON document.
    pub fn from_value(document: &Value) -> (r: Result<Routes, ProtocolError>)
        ensures
            routes_reading_of(json_of(*document), r),
    {
        let object = match document.as_object() {
            Some(object) => object,
            None => {
                return Err(invalid_routes());
            },
        };
        let pairs = entries(object);
        let ghost fields = json_of(*document)->Object_0;
        let mut out: Vec<(String, Vec<(String, Route)>)> = Vec::new();
        let mut i: usize = 0;
        while i < pairs.len()
            invariant
                i <= pairs@.len(),
                out@.len() == i,
                json_of(*document) == Json::Object(fields),
                distinct_keys(pairs@),
                fields_of(pairs@) == fields,
                forall|k: int|
                    0 <= k < i ==> #[trigger] out@[k].0@ == pairs@[k].0@ && distinct_keys(
                        out@[k].1@,
                    ) && decoded_actions(json_of(pairs@[k].1)) == Some(actions_of(out@[k].1@)),
            decreases pairs@.len() - i,
        {
            proof {
                lemma_fields_of_entry(pairs@, i as int);
            }
            match read_actions(&pairs[i].1) {
                Some(actions) => {
                    out.push((pairs[i].0.clone(), actions));
                },
                None => {
                    assert(fields.contains_key(pairs@[i as int].0@));
                    return Err(invalid_routes());
                },
            }
            i = i + 1;
        }
        proof {
            assert forall|a: int, b: int| 0 <= a < b < out@.len() implies out@[a].0@
                != out@[b].0@ by {
                assert(out@[a].0@ == pairs@[a].0@);
                assert(out@[b].0@ == pairs@[b].0@);
            }
            assert forall|controller: Seq<char>| #[trigger]
                fields.contains_key(controller) implies decoded_actions(fields[controller])
                is Some by {
                let k = index_of(pairs@, controller);
                lemma_fields_of_entry(pairs@, k);
                assert(out@[k].0@ == pairs@[k].0@);
            }
            let table = decoded_routes(json_of(*document))->0;
            assert forall|controller: Seq<char>| table_of(out@).contains_key(controller)
                <==> table.contains_key(controller) by {
                if has_key(out@, controller) {
                    let k = index_of(out@, controller);
                    assert(out@[k].0@ == pairs@[k].0@);
                    assert(has_key(pairs@, controller));
                }
                if has_key(pairs@, controller) {
                    let k = index_of(pairs@, controller);
                    assert(out@[k].0@ == pairs@[k].0@);
                    assert(has_key(out@, controller));
                }
            }
            assert forall|controller: Seq<char>| table_of(out@).contains_key(
                controller,
            ) implies table_of(out@)[controller] == table[controller] by {
                let k = index_of(out@, controller);
                lemma_index_of(out@, k);
                assert(out@[k].0@ == pairs@[k].0@);
                lemma_fields_of_entry(pairs@, k);
            }
            assert(table_of(out@) =~= table);
            assert(distinct_keys(out@));
            assert forall|k: int| 0 <= k < out@.len() implies distinct_keys(
                #[trigger] out@[k].1@,
            ) by {
                assert(out@[k].0@ == pairs@[k].0@);
            }
        }
        Ok(Routes { controllers: out })
    }

    /// Reads a route table from the text of a routing document. A text that
    /// is not JSON is refused with the parser's message; a JSON document is
    /// read as [`Routes::from_value`] reads it.
    pub fn from_json(text: &str) -> (r: Result<Routes, ProtocolError>)
        ensures
            match parsed(text@) {
                Some(document) => routes_reading_of(document, r),
                None => r is Err && r->Err_0 is InvalidRoutes,
            },
    {
        match parse(text) {
            Ok(document) => Routes::from_value(&document),
            Err(e) => Err(ProtocolError::InvalidRoutes { message: error_message(&e) }),
        }
    }
}

fn invalid_routes() -> (r: ProtocolError)
    ensures
        r@ == (ProtocolErrorView::InvalidRoutes {
            message: "not a map of controllers to actions to routes"@,
        }),
{
    ProtocolError::InvalidRoutes {
        message: "not a map of controllers to actions to routes".to_owned(),
    }
}

} // verus!
