//! The answers about recipes.
use crate::models::Data;
use crate::response::{
    conflict, created, internal_server_error, not_found_error, ok, HttpResult, SuccessResponder,
};
use crate::router::{
    no_recipe_found, no_recipe_found_message, recipe_already_exists,
    recipe_already_exists_message,
};
use crate::store::StoreError;
use vstd::prelude::*;

verus! {

/// The answer to the creation of the recipe `name`: 201 with the recipe,
/// 409 when the name is taken, 500 on any other failure.
pub fn create<T>(name: &str, inserted: Result<T, StoreError>) -> (answer: HttpResult<T>)
    ensures
        (match inserted {
            Ok(recipe) => answer matches Ok(responder) && responder
                == SuccessResponder::Created(Data { data: recipe }),
            Err(StoreError::UniqueViolation) => answer matches Err(responder)
                && responder.is_conflict(recipe_already_exists(name@)),
            Err(_) => answer matches Err(responder) && responder.is_database_error(),
        }),
{
    match inserted {
        Ok(recipe) => Ok(created(Data { data: recipe })),
        Err(StoreError::UniqueViolation) => Err(conflict(recipe_already_exists_message(name))),
        Err(_) => Err(internal_server_error()),
    }
}

/// The answer to the request for all recipes: 200 with them, 500 on any
/// failure.
pub fn retrieve_all<T>(fetched: Result<T, StoreError>) -> (answer: HttpResult<T>)
    ensures
        (match fetched {
            Ok(recipes) => answer matches Ok(responder) && responder
                == SuccessResponder::Okay(Data { data: recipes }),
            Err(_) => answer matches Err(responder) && responder.is_database_error(),
        }),
{
    match fetched {
        Ok(recipes) => Ok(ok(Data { data: recipes })),
        Err(_) => Err(internal_server_error()),
    }
}

/// The answer to the request for one recipe: 200 with it, 404 when it is
/// not there, 500 on any other failure.
pub fn retrieve<T>(recipe_id: i32, fetched: Result<T, StoreError>) -> (answer: HttpResult<T>)
    ensures
        (match fetched {
            Ok(recipe) => answer matches Ok(responder) && responder
                == SuccessResponder::Okay(Data { data: recipe }),
            Err(StoreError::NotFound) => answer matches Err(responder) && responder.is_not_found(
                no_recipe_found(recipe_id),
            ),
            Err(_) => answer matches Err(responder) && responder.is_database_error(),
        }),
{
    match fetched {
        Ok(recipe) => Ok(ok(Data { data: recipe })),
        Err(StoreError::NotFound) => Err(not_found_error(no_recipe_found_message(recipe_id))),
        Err(_) => Err(internal_server_error()),
    }
}

} // verus!
